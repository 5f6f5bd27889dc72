use polylog6_desktop::commands::run_simulation;
use polylog6_desktop::commands::get_unicode_symbols;
use polylog6_desktop::commands::launch_polyform;
use polylog6_desktop::errors::BridgeError;
use polylog6_desktop::python_bridge::call_python_module;

/// Load a `polylog_core` stub into the embedded interpreter, so the fixed
/// module name the commands resolve is importable in this process.
fn install_polylog_core() {
    pyo3::Python::with_gil(|py| {
        let code = "def simulate(params):\n    \
                    if params == 'invalid_params':\n        \
                    raise ValueError('invalid parameters')\n    \
                    return 'simulated:' + params\n\
                    \n\
                    def get_unicode_symbols(params):\n    \
                    return 'symbols:' + params\n\
                    \n\
                    def launch_polyform(params):\n    \
                    return 'launched:' + params\n\
                    \n\
                    def not_a_string(params):\n    \
                    return 42\n";
        pyo3::types::PyModule::from_code(py, code, "polylog_core.py", "polylog_core")
            .expect("the stub module should load");
    });
}

#[test]
fn test_run_simulation_ok() {
    install_polylog_core();
    let result = run_simulation("test_params".to_string());
    assert!(result.is_ok());
}

#[test]
fn test_run_simulation_err() {
    install_polylog_core();
    let result = run_simulation("invalid_params".to_string());
    assert!(result.is_err());
}

#[test]
fn test_run_simulation_returns_foreign_value() {
    install_polylog_core();
    let result = run_simulation("test_params".to_string());
    assert_eq!(result, Ok("simulated:test_params".to_string()));
}

#[test]
fn test_run_simulation_error_message_nonempty() {
    install_polylog_core();
    let result = run_simulation("invalid_params".to_string());
    let message = result.unwrap_err();
    assert!(!message.is_empty());
    assert!(message.starts_with("call raised: "));
    assert!(message.contains("invalid parameters"));
}

#[test]
fn test_get_unicode_symbols_ok() {
    install_polylog_core();
    let result = get_unicode_symbols("greek".to_string());
    assert_eq!(result, Ok("symbols:greek".to_string()));
}

#[test]
fn test_launch_polyform_ok() {
    install_polylog_core();
    let result = launch_polyform("hexagon".to_string());
    assert_eq!(result, Ok("launched:hexagon".to_string()));
}

#[test]
fn test_call_raised_is_classified() {
    install_polylog_core();
    let outcome = call_python_module("polylog_core", "simulate", "invalid_params");
    assert!(matches!(outcome, Err(BridgeError::CallRaised { .. })));
}

#[test]
fn test_missing_function_is_classified() {
    install_polylog_core();
    let outcome = call_python_module("polylog_core", "no_such_function", "x");
    match outcome {
        Err(BridgeError::AttributeNotFound { module, attribute, .. }) => {
            assert_eq!(module, "polylog_core");
            assert_eq!(attribute, "no_such_function");
        }
        other => panic!("expected an attribute-not-found error, got {:?}", other),
    }
}

#[test]
fn test_bridge_call_under_the_lock() {
    install_polylog_core();
    let outcome = pyo3::Python::with_gil(|py| {
        polylog6_desktop::python_bridge::bridge_call(py, "polylog_core", "simulate", "abc")
    });
    assert_eq!(outcome.unwrap(), "simulated:abc");
}

#[test]
fn test_nonstring_return_is_classified() {
    install_polylog_core();
    let outcome = call_python_module("polylog_core", "not_a_string", "x");
    assert!(matches!(outcome, Err(BridgeError::NotCoercible { .. })));
}
