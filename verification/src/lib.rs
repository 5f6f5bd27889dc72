//! Command bridge between a desktop shell and an embedded scripting runtime.
//!
//! The shell invokes named commands, each carrying one opaque string payload.
//! Every command is routed through a single parameterized bridge that resolves
//! a module and a function by name inside the embedded interpreter, performs
//! one blocking call, and surfaces the result (or any failure) as a string.

pub mod commands;
pub mod errors;
pub mod python_bridge;
