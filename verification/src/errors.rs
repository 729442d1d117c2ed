//! Error classification for script execution.
//!
//! Failures are disjoint by detection point: a script that does not exist
//! is reported before any compilation, a parse failure during
//! compile-on-miss, and runtime or function-call failures only during the
//! call itself. A failure raised inside the invoked function is unwrapped
//! so the host sees the inner cause.

use vstd::prelude::*;

verus! {

/// A failure while resolving, compiling or running a script.
#[derive(Debug, PartialEq, Eq)]
pub enum ScriptError {
    /// The named script file does not exist; carries the requested name
    /// exactly as the caller gave it, before normalization.
    NotFound(String),
    /// The script failed to parse; carries the parser's message.
    Parse(String),
    /// The script executed and raised a runtime failure; carries the
    /// raised value's text.
    Runtime(String),
    /// A failure surfaced while calling a function: the function's name,
    /// whether the failure was recorded at no source position, and the
    /// inner cause.
    FunctionCall(String, bool, Box<ScriptError>),
    /// Any other failure of the runtime; carries its text.
    Other(String),
}

/// An error surfaced to the host application.
#[derive(Debug, PartialEq, Eq)]
pub enum HostError {
    /// A required scripts directory does not exist; carries its path.
    MissingScriptsDir(String),
    /// The filters directory could not be read; carries the reason.
    DirRead(String),
    /// A filter script failed to compile; carries the file name and the
    /// cause.
    FilterCompile(String, ScriptError),
    /// A script-side failure passed through unchanged.
    Script(ScriptError),
}

/// Whether an error holds no `NotFound` at any unwrapping depth. Every
/// error classified out of the runtime satisfies this: `NotFound` is
/// produced only by the existence check that precedes compilation.
pub open spec fn no_not_found(e: ScriptError) -> bool
    decreases e,
{
    match e {
        ScriptError::NotFound(_) => false,
        ScriptError::FunctionCall(_, _, inner) => no_not_found(*inner),
        _ => true,
    }
}

/// The unwrapping rule for function-call failures: a `FunctionCall` error
/// recorded at no position whose function name matches the invoked one is
/// replaced by its inner cause; every other error passes through as-is.
pub open spec fn unwrap_spec(err: ScriptError, fn_name: Seq<char>) -> ScriptError {
    match err {
        ScriptError::FunctionCall(f, at_none, inner) => if at_none && f@ == fn_name {
            *inner
        } else {
            ScriptError::FunctionCall(f, at_none, inner)
        },
        e => e,
    }
}

/// Unwrapping a function-call failure never uncovers a `NotFound`: when
/// no `NotFound` hides at any depth of an error, none does after the
/// unwrapping rule is applied either.
pub proof fn lemma_unwrap_no_not_found(e: ScriptError, f: Seq<char>)
    requires
        no_not_found(e),
    ensures
        no_not_found(unwrap_spec(e, f)),
{
    match e {
        ScriptError::FunctionCall(_, _, inner) => {
            assert(no_not_found(*inner));
        },
        _ => {},
    }
}

/// Compare a `String` against a `&str` by contents.
fn string_eq_str(a: &String, b: &str) -> (r: bool)
    ensures
        r == (a@ == b@),
{
    let bo: String = b.to_owned();
    a.eq(&bo)
}

/// Expose the inner cause of a failure that originates in the invoked
/// function itself: exactly when `err` is a `FunctionCall` for `fn_name`
/// recorded at no position, the inner error is returned in its place.
pub fn unwrap_function_error(err: ScriptError, fn_name: &str) -> (r: ScriptError)
    ensures
        r == unwrap_spec(err, fn_name@),
{
    match err {
        ScriptError::FunctionCall(f, at_none, inner) => {
            if at_none && string_eq_str(&f, fn_name) {
                *inner
            } else {
                ScriptError::FunctionCall(f, at_none, inner)
            }
        },
        e => e,
    }
}

} // verus!
