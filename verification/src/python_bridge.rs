//! The interpreter bridge: one blocking call into the embedded runtime.
//!
//! A bridged call proceeds in four stages: resolve the module by name,
//! resolve the function within it, invoke the function with one string
//! argument, and coerce the returned value to a string. The failure of each
//! stage is classified into the matching [`BridgeError`] variant, so a caller
//! can tell a missing module from a raising call.
//!
//! The embedded runtime demands that at most one call runs at a time
//! process-wide; the bridge acquires its global lock around every call, so
//! simultaneous commands from separate threads queue rather than interleave.

use vstd::prelude::*;
use vstd::string::StringExecFns;

use crate::errors::BridgeError;

verus! {

/// pyo3's token witnessing that the interpreter's global lock is held.
#[verifier::external_type_specification]
#[verifier::external_body]
pub struct ExPython<'py>(pyo3::Python<'py>);

/// pyo3's handle to a module of the embedded interpreter.
#[verifier::external_type_specification]
#[verifier::external_body]
pub struct ExPyModule(pyo3::types::PyModule);

/// pyo3's handle to an arbitrary value of the embedded interpreter.
#[verifier::external_type_specification]
#[verifier::external_body]
pub struct ExPyAny(pyo3::types::PyAny);

/// pyo3's representation of an error raised inside the interpreter.
#[verifier::external_type_specification]
#[verifier::external_body]
pub struct ExPyErr(pyo3::PyErr);

/// What every outcome of a bridged call satisfies, whatever the interpreter
/// did: an error is classified by the stage that failed, and the module and
/// function names recorded in it are exactly the ones that were requested.
pub open spec fn call_outcome_wf(
    module_name: Seq<char>,
    function_name: Seq<char>,
    r: Result<String, BridgeError>,
) -> bool {
    match r {
        Ok(_) => true,
        Err(e) => match e {
            BridgeError::ModuleNotFound { module, detail: _ } => module@ == module_name,
            BridgeError::AttributeNotFound { module, attribute, detail: _ } => {
                module@ == module_name && attribute@ == function_name
            },
            BridgeError::CallRaised { detail: _ } => true,
            BridgeError::NotCoercible { detail: _ } => true,
        },
    }
}

/// Relies on pyo3's `PyModule::import`: it resolves a module by name inside
/// the interpreter and returns it, or the error the interpreter raised.
/// Which of the two comes back depends on the runtime path, so nothing is
/// claimed of the outcome.
#[verifier::external_body]
fn import_module<'py>(py: pyo3::Python<'py>, name: &str) -> Result<
    &'py pyo3::types::PyModule,
    pyo3::PyErr,
> {
    pyo3::types::PyModule::import(py, name)
}

/// Relies on pyo3's `PyAny::getattr` (through `PyModule`'s deref): it looks
/// an attribute up by name and returns it, or the error the interpreter
/// raised. What the module holds is the interpreter's affair, so nothing is
/// claimed of the outcome.
#[verifier::external_body]
fn get_attribute<'py>(module: &'py pyo3::types::PyModule, name: &str) -> Result<
    &'py pyo3::types::PyAny,
    pyo3::PyErr,
> {
    module.getattr(name)
}

/// Relies on pyo3's `PyAny::call1`: it calls the object with a one-element
/// argument tuple and returns the value the call produced, or the error it
/// raised. The foreign code decides which, so nothing is claimed of the
/// outcome.
#[verifier::external_body]
fn call_with_str<'py>(callable: &'py pyo3::types::PyAny, arg: &str) -> Result<
    &'py pyo3::types::PyAny,
    pyo3::PyErr,
> {
    callable.call1((arg,))
}

/// Relies on pyo3's `PyAny::extract::<String>`: it returns the value as a
/// `String` exactly when the value is a string of the embedded runtime, and
/// the coercion error otherwise. Which holds depends on the foreign value,
/// so nothing is claimed of the outcome.
#[verifier::external_body]
fn extract_string(value: &pyo3::types::PyAny) -> Result<String, pyo3::PyErr> {
    value.extract()
}

/// Relies on pyo3's `Display` impl for `PyErr`: it renders the raised error
/// as text (its type name, then its message). The text depends on
/// interpreter state, so nothing is claimed of it.
#[verifier::external_body]
fn render_error(err: &pyo3::PyErr) -> String {
    format!("{}", err)
}

/// One bridged call, run with the interpreter's global lock already held.
///
/// The stages of the call are tried in order; the first failing stage
/// determines how the error is classified, and the names recorded in a
/// classified error are the ones this call was asked for.
pub fn bridge_call<'py>(
    py: pyo3::Python<'py>,
    module_name: &str,
    function_name: &str,
    args: &str,
) -> (r: Result<String, BridgeError>)
    ensures
        call_outcome_wf(module_name@, function_name@, r),
{
    let module = match import_module(py, module_name) {
        Ok(m) => m,
        Err(e) => {
            return Err(
                BridgeError::ModuleNotFound {
                    module: String::from_str(module_name),
                    detail: render_error(&e),
                },
            );
        },
    };
    let callable = match get_attribute(module, function_name) {
        Ok(c) => c,
        Err(e) => {
            return Err(
                BridgeError::AttributeNotFound {
                    module: String::from_str(module_name),
                    attribute: String::from_str(function_name),
                    detail: render_error(&e),
                },
            );
        },
    };
    let value = match call_with_str(callable, args) {
        Ok(v) => v,
        Err(e) => {
            return Err(BridgeError::CallRaised { detail: render_error(&e) });
        },
    };
    match extract_string(value) {
        Ok(s) => Ok(s),
        Err(e) => Err(BridgeError::NotCoercible { detail: render_error(&e) }),
    }
}

/// Relies on pyo3's `Python::with_gil`: it acquires the interpreter's global
/// lock (initializing the interpreter first if need be, under the
/// `auto-initialize` feature), runs the closure, releases the lock on every
/// exit path, and hands the closure's result back unchanged. The closure is
/// one call of the verified [`bridge_call`], so every outcome satisfies that
/// function's postcondition.
#[verifier::external_body]
fn locked_bridge_call(module_name: &str, function_name: &str, args: &str) -> (r: Result<
    String,
    BridgeError,
>)
    ensures
        call_outcome_wf(module_name@, function_name@, r),
{
    pyo3::Python::with_gil(|py| bridge_call(py, module_name, function_name, args))
}

/// Call `module_name.function_name(args)` inside the embedded interpreter.
///
/// The call is atomic from the caller's view: it blocks while the
/// interpreter's global lock is taken, performs exactly one foreign call,
/// and returns either the string the foreign function produced or a
/// [`BridgeError`] classified by the stage that failed.
pub fn call_python_module(module_name: &str, function_name: &str, args: &str) -> (r: Result<
    String,
    BridgeError,
>)
    ensures
        call_outcome_wf(module_name@, function_name@, r),
{
    locked_bridge_call(module_name, function_name, args)
}

} // verus!
