use rhai_script::bindings::convert_eval_error;
use rhai_script::errors::ScriptError;
use rhai_script::errors::unwrap_function_error;

#[test]
fn unwrap_exposes_inner_cause_on_match() {
    let inner = ScriptError::Runtime(String::from("boom"));
    let err = ScriptError::FunctionCall(String::from("f"), true, Box::new(inner));
    let out = unwrap_function_error(err, "f");
    assert_eq!(out, ScriptError::Runtime(String::from("boom")));
}

#[test]
fn unwrap_keeps_error_on_name_mismatch() {
    let inner = ScriptError::Runtime(String::from("boom"));
    let err = ScriptError::FunctionCall(String::from("g"), true, Box::new(inner));
    let out = unwrap_function_error(err, "f");
    assert!(matches!(out, ScriptError::FunctionCall(_, _, _)));
}

#[test]
fn unwrap_keeps_error_with_position() {
    let inner = ScriptError::Runtime(String::from("boom"));
    let err = ScriptError::FunctionCall(String::from("f"), false, Box::new(inner));
    let out = unwrap_function_error(err, "f");
    assert!(matches!(out, ScriptError::FunctionCall(_, _, _)));
}

#[test]
fn unwrap_passes_other_errors_through() {
    let err = ScriptError::Parse(String::from("oops"));
    let out = unwrap_function_error(err, "f");
    assert_eq!(out, ScriptError::Parse(String::from("oops")));
}

#[test]
fn classification_of_runtime_error() {
    let raw = Box::new(rhai::EvalAltResult::ErrorRuntime(
        rhai::Dynamic::from("bad"),
        rhai::Position::NONE,
    ));
    let out = convert_eval_error(raw);
    assert_eq!(out, ScriptError::Runtime(String::from("bad")));
}

#[test]
fn classification_of_function_call_error() {
    let inner = Box::new(rhai::EvalAltResult::ErrorRuntime(
        rhai::Dynamic::from("bad"),
        rhai::Position::NONE,
    ));
    let raw = Box::new(rhai::EvalAltResult::ErrorInFunctionCall(
        String::from("f"),
        String::new(),
        inner,
        rhai::Position::NONE,
    ));
    let out = convert_eval_error(raw);
    match out {
        ScriptError::FunctionCall(name, at_none, cause) => {
            assert_eq!(name, "f");
            assert!(at_none);
            assert_eq!(*cause, ScriptError::Runtime(String::from("bad")));
        },
        other => panic!("unexpected classification: {:?}", other),
    }
}
