//! The command layer the hosting shell invokes.
//!
//! Each entry point takes one opaque string payload, performs exactly one
//! bridged call into the fixed module `polylog_core`, and returns either the
//! string the foreign function produced or a non-empty string describing the
//! failure. [`Command`] is the registry mapping command names to entry
//! points.

use vstd::prelude::*;
use vstd::string::StringExecFns;

use crate::errors::BridgeError;
use crate::python_bridge::call_outcome_wf;
use crate::python_bridge::call_python_module;

verus! {

/// The fixed name of the external module every command resolves.
pub fn module_name() -> (r: String)
    ensures
        r@ == "polylog_core"@,
{
    String::from_str("polylog_core")
}

/// What holds of every error string a command surfaces: it is non-empty,
/// and it is the rendering of a bridge error classified against the named
/// module and function.
pub open spec fn surfaced_error_wf(
    module: Seq<char>,
    function: Seq<char>,
    message: Seq<char>,
) -> bool {
    &&& message.len() > 0
    &&& exists|e: BridgeError|
        call_outcome_wf(module, function, Err(e)) && message == e.message_spec()
}

/// Convert a bridged call's outcome into the shell-facing result.
///
/// A produced value is handed back exactly as the foreign function returned
/// it; a failure is rendered to its non-empty message and nothing else is
/// altered. This is the whole translation the command layer performs.
pub fn command_result(outcome: Result<String, BridgeError>) -> (r: Result<String, String>)
    ensures
        (outcome matches Ok(v) ==> r == Ok::<String, String>(v)),
        (outcome matches Err(e) ==> r matches Err(m) && m@ == e.message_spec() && m@.len() > 0),
{
    match outcome {
        Ok(v) => Ok(v),
        Err(e) => Err(e.message()),
    }
}

/// Run one bridged command against `polylog_core`.
fn bridged_command(function_name: &str, params: String) -> (r: Result<String, String>)
    ensures
        r matches Err(m) ==> surfaced_error_wf("polylog_core"@, function_name@, m@),
{
    let outcome = call_python_module("polylog_core", function_name, params.as_str());
    let ghost o = outcome;
    let r = command_result(outcome);
    proof {
        if r is Err {
            let e = o->Err_0;
            assert(call_outcome_wf("polylog_core"@, function_name@, Err::<String, BridgeError>(e)));
            assert(r->Err_0@ == e.message_spec());
        }
    }
    r
}

/// Ask `polylog_core.simulate` to run with the given parameter string.
pub fn run_simulation(params: String) -> (r: Result<String, String>)
    ensures
        r matches Err(m) ==> surfaced_error_wf("polylog_core"@, "simulate"@, m@),
{
    bridged_command("simulate", params)
}

/// Ask `polylog_core.get_unicode_symbols` for the symbols matching the
/// given parameter string.
pub fn get_unicode_symbols(params: String) -> (r: Result<String, String>)
    ensures
        r matches Err(m) ==> surfaced_error_wf("polylog_core"@, "get_unicode_symbols"@, m@),
{
    bridged_command("get_unicode_symbols", params)
}

/// Ask `polylog_core.launch_polyform` to start with the given parameter
/// string.
pub fn launch_polyform(params: String) -> (r: Result<String, String>)
    ensures
        r matches Err(m) ==> surfaced_error_wf("polylog_core"@, "launch_polyform"@, m@),
{
    bridged_command("launch_polyform", params)
}

/// The commands the shell can invoke, each routed to one foreign function.
#[derive(Clone, Copy, Debug, PartialEq, Eq, Structural)]
pub enum Command {
    RunSimulation,
    GetUnicodeSymbols,
    LaunchPolyform,
}

impl Command {
    /// The name of the foreign function this command resolves.
    pub open spec fn function_name_spec(&self) -> Seq<char> {
        match self {
            Command::RunSimulation => "simulate"@,
            Command::GetUnicodeSymbols => "get_unicode_symbols"@,
            Command::LaunchPolyform => "launch_polyform"@,
        }
    }

    /// The name of the foreign function this command resolves.
    pub fn function_name(&self) -> (r: String)
        ensures
            r@ == self.function_name_spec(),
    {
        match self {
            Command::RunSimulation => String::from_str("simulate"),
            Command::GetUnicodeSymbols => String::from_str("get_unicode_symbols"),
            Command::LaunchPolyform => String::from_str("launch_polyform"),
        }
    }

    /// Look a command up by the name it is registered under, and by nothing
    /// else: every other name maps to `None`.
    pub fn from_name(name: &str) -> (r: Option<Command>)
        ensures
            (r == Some(Command::RunSimulation) <==> name@ == "run_simulation"@),
            (r == Some(Command::GetUnicodeSymbols) <==> name@ == "get_unicode_symbols"@),
            (r == Some(Command::LaunchPolyform) <==> name@ == "launch_polyform"@),
            (r is None <==> name@ != "run_simulation"@ && name@ != "get_unicode_symbols"@
                && name@ != "launch_polyform"@),
    {
        proof {
            reveal_strlit("run_simulation");
            reveal_strlit("get_unicode_symbols");
            reveal_strlit("launch_polyform");
            // The three registered names have pairwise different lengths,
            // so no input string can match more than one of them.
            assert("run_simulation"@.len() == 14);
            assert("get_unicode_symbols"@.len() == 19);
            assert("launch_polyform"@.len() == 15);
        }
        let n = String::from_str(name);
        if n == String::from_str("run_simulation") {
            Some(Command::RunSimulation)
        } else if n == String::from_str("get_unicode_symbols") {
            Some(Command::GetUnicodeSymbols)
        } else if n == String::from_str("launch_polyform") {
            Some(Command::LaunchPolyform)
        } else {
            None
        }
    }
}

/// Route one invocation to the entry point the command names.
pub fn dispatch(cmd: Command, params: String) -> (r: Result<String, String>)
    ensures
        r matches Err(m) ==> surfaced_error_wf("polylog_core"@, cmd.function_name_spec(), m@),
{
    match cmd {
        Command::RunSimulation => run_simulation(params),
        Command::GetUnicodeSymbols => get_unicode_symbols(params),
        Command::LaunchPolyform => launch_polyform(params),
    }
}

} // verus!
