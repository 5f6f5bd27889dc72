//! Structured errors for the interpreter bridge.
//!
//! Every failure mode of a bridged call is classified by the stage at which
//! it arose: resolving the module, resolving the function within it, running
//! the call itself, or coercing the returned value to a string. The hosting
//! shell only understands string errors, so each variant renders to a
//! human-readable, never-empty message.

use vstd::prelude::*;
use vstd::string::StringExecFns;

verus! {

/// A failure of one bridged call into the embedded interpreter.
#[derive(Debug)]
pub enum BridgeError {
    /// The requested module could not be resolved by the interpreter.
    ModuleNotFound { module: String, detail: String },
    /// The module was found, but has no attribute of the requested name.
    AttributeNotFound { module: String, attribute: String, detail: String },
    /// The resolved function raised an error while running.
    CallRaised { detail: String },
    /// The call returned, but its value could not be coerced to a string.
    NotCoercible { detail: String },
}

impl BridgeError {
    /// The exact text that `message` renders for this error.
    pub open spec fn message_spec(&self) -> Seq<char> {
        match self {
            BridgeError::ModuleNotFound { module, detail } => "module not found: "@ + module@
                + " ("@ + detail@ + ")"@,
            BridgeError::AttributeNotFound { module, attribute, detail } => {
                "function not found: "@ + module@ + "."@ + attribute@ + " ("@ + detail@ + ")"@
            },
            BridgeError::CallRaised { detail } => "call raised: "@ + detail@,
            BridgeError::NotCoercible { detail } => "return value is not a string: "@ + detail@,
        }
    }

    /// Whatever went wrong, the rendered message is never the empty string:
    /// each variant's rendering begins with a fixed non-empty prefix.
    pub proof fn lemma_message_nonempty(&self)
        ensures
            self.message_spec().len() > 0,
    {
        reveal_strlit("module not found: ");
        reveal_strlit("function not found: ");
        reveal_strlit("call raised: ");
        reveal_strlit("return value is not a string: ");
    }

    /// Render this error as the string handed back to the hosting shell.
    pub fn message(&self) -> (r: String)
        ensures
            r@ == self.message_spec(),
            r@.len() > 0,
    {
        proof {
            self.lemma_message_nonempty();
        }
        match self {
            BridgeError::ModuleNotFound { module, detail } => {
                let mut s = String::from_str("module not found: ");
                s.append(module.as_str());
                s.append(" (");
                s.append(detail.as_str());
                s.append(")");
                s
            },
            BridgeError::AttributeNotFound { module, attribute, detail } => {
                let mut s = String::from_str("function not found: ");
                s.append(module.as_str());
                s.append(".");
                s.append(attribute.as_str());
                s.append(" (");
                s.append(detail.as_str());
                s.append(")");
                s
            },
            BridgeError::CallRaised { detail } => {
                let mut s = String::from_str("call raised: ");
                s.append(detail.as_str());
                s
            },
            BridgeError::NotCoercible { detail } => {
                let mut s = String::from_str("return value is not a string: ");
                s.append(detail.as_str());
                s
            },
        }
    }
}

} // verus!
