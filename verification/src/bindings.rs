//! Trusted boundary to the Rhai runtime and the filesystem.
//!
//! Every function here is believed, not proved: each one holds a single
//! outside call and the conversions of its arguments and result. The
//! compiled program, the engine, the dynamic value model and the host's
//! JSON values are opaque to the verifier; nothing about their contents is
//! claimed beyond what the called crate documents.

use vstd::prelude::*;
use crate::errors::ScriptError;
use crate::errors::no_not_found;
use std::sync::Arc;

verus! {

/// The Rhai interpreter/compiler.
#[verifier::external_type_specification]
#[verifier::external_body]
pub struct ExEngine(rhai::Engine);

/// A compiled Rhai program.
#[verifier::external_type_specification]
#[verifier::external_body]
pub struct ExAst(rhai::AST);

/// Rhai's dynamic value representation.
#[verifier::external_type_specification]
#[verifier::external_body]
pub struct ExDynamic(rhai::Dynamic);

/// Rhai's evaluation error.
#[verifier::external_type_specification]
#[verifier::external_body]
pub struct ExEvalAltResult(rhai::EvalAltResult);

/// The host's JSON value model.
#[verifier::external_type_specification]
#[verifier::external_body]
pub struct ExValue(serde_json::Value);

/// The Tera template engine, the external filter registry.
#[verifier::external_type_specification]
#[verifier::external_body]
pub struct ExTera(tera::Tera);

/// Relies on `std::sync::Arc`: cloning a shared handle yields a handle to
/// the same value.
#[verifier::external_body]
pub fn share<T>(a: &Arc<T>) -> (r: Arc<T>)
    ensures
        r == *a,
{
    a.clone()
}

/// Relies on `std::sync::Arc`: a shared handle dereferences to the value
/// it holds.
#[verifier::external_body]
pub fn shared_ref<T>(a: &Arc<T>) -> (r: &T)
    ensures
        *r == *a,
{
    &**a
}

/// Relies on `std::path::Path::exists` to ask whether the file at `path`
/// (given as UTF-8 bytes) exists on disk. The answer depends on the disk,
/// so nothing is promised of it.
#[verifier::external_body]
pub fn path_exists(path: &Vec<u8>) -> bool {
    std::path::Path::new(String::from_utf8_lossy(path).as_ref()).exists()
}

/// Relies on `rhai::Engine::new` for a fresh engine with default
/// configuration.
#[verifier::external_body]
pub fn plain_engine() -> rhai::Engine {
    rhai::Engine::new()
}

/// Relies on `rhai::Engine::set_module_resolver` with a
/// `FileModuleResolver` rooted at the scripts directory and using the
/// `rhai` extension, so that `import` statements resolve there.
#[verifier::external_body]
pub fn install_file_resolver(engine: &mut rhai::Engine, root: &Vec<u8>) {
    let p = String::from_utf8_lossy(root).into_owned();
    engine.set_module_resolver(
        rhai::module_resolvers::FileModuleResolver::new_with_path_and_extension(p, "rhai"),
    );
}

/// Applies the host's one-time engine customization callback (print and
/// debug sinks, extra native functions). The callback is host code and is
/// not verified.
#[verifier::external_body]
pub fn apply_engine_setup<F: FnOnce(&mut rhai::Engine)>(engine: &mut rhai::Engine, setup: F) {
    setup(engine);
}

/// Relies on `rhai::Engine::compile_file` to read and compile the script
/// at `path` (UTF-8 bytes). The result depends on the disk, so nothing is
/// promised of it.
#[verifier::external_body]
pub fn compile_file_raw(engine: &rhai::Engine, path: &Vec<u8>) -> Result<
    rhai::AST,
    Box<rhai::EvalAltResult>,
> {
    let p = String::from_utf8_lossy(path).into_owned();
    engine.compile_file(std::path::PathBuf::from(p))
}

/// Relies on `rhai::AST::set_source` to tag a compiled program with its
/// originating path for diagnostics.
#[verifier::external_body]
pub fn set_ast_source(ast: &mut rhai::AST, path: &Vec<u8>) {
    ast.set_source(String::from_utf8_lossy(path).into_owned());
}

/// Relies on `rhai::serde::to_dynamic` to serialize a host JSON value
/// into the runtime's dynamic representation.
#[verifier::external_body]
pub fn json_to_dynamic(v: &serde_json::Value) -> Result<rhai::Dynamic, Box<rhai::EvalAltResult>> {
    rhai::serde::to_dynamic(v)
}

/// Relies on `rhai::serde::from_dynamic` to deserialize a dynamic value
/// back into a host JSON value.
#[verifier::external_body]
pub fn dynamic_to_json(d: &rhai::Dynamic) -> Result<serde_json::Value, Box<rhai::EvalAltResult>> {
    rhai::serde::from_dynamic(d)
}

/// Relies on `rhai::Engine::call_fn_with_options` to invoke the named
/// function of a compiled program with `this` bound as the implicit
/// receiver, a fresh empty scope, and the given positional arguments. The
/// script decides the outcome, so nothing is promised of it; the receiver
/// may be mutated in place.
#[verifier::external_body]
pub fn call_script_fn(
    engine: &rhai::Engine,
    ast: &rhai::AST,
    fn_name: &str,
    this: &mut rhai::Dynamic,
    args: Vec<rhai::Dynamic>,
) -> Result<rhai::Dynamic, Box<rhai::EvalAltResult>> {
    let options = rhai::CallFnOptions::new().bind_this_ptr(this);
    let mut scope = rhai::Scope::new();
    engine.call_fn_with_options::<rhai::Dynamic>(options, &mut scope, ast, fn_name, args)
}

/// Classifies a Rhai evaluation error into the library's error model, one
/// arm per variant the bridge distinguishes: `ErrorRuntime`,
/// `ErrorParsing` and `ErrorInFunctionCall` (whose inner cause is
/// classified the same way); every other variant keeps only its text. No
/// arm produces `NotFound` at any depth: that classification is reserved
/// for the existence check that precedes compilation.
#[verifier::external_body]
pub fn convert_eval_error(err: Box<rhai::EvalAltResult>) -> (r: ScriptError)
    ensures
        no_not_found(r),
{
    match *err {
        rhai::EvalAltResult::ErrorRuntime(d, _) => ScriptError::Runtime(d.to_string()),
        rhai::EvalAltResult::ErrorParsing(p, _) => ScriptError::Parse(p.to_string()),
        rhai::EvalAltResult::ErrorInFunctionCall(f, _, inner, pos) => ScriptError::FunctionCall(
            f,
            pos.is_none(),
            Box::new(convert_eval_error(inner)),
        ),
        e => ScriptError::Other(e.to_string()),
    }
}

/// Relies on `rhai::EvalAltResult`'s `Display` for the text of an
/// evaluation error.
#[verifier::external_body]
pub fn eval_error_message(err: &rhai::EvalAltResult) -> String {
    err.to_string()
}

/// Relies on `std::path::Path::read_dir` to list the entries of the
/// directory at `path` (UTF-8 bytes): each entry's file name, full path
/// and whether it is a directory, in the platform's iteration order. The
/// answer depends on the disk, so nothing is promised of it.
#[verifier::external_body]
pub fn list_dir(path: &Vec<u8>) -> Result<Vec<crate::filters::DirEntryInfo>, String> {
    let p = String::from_utf8_lossy(path).into_owned();
    match std::path::Path::new(&p).read_dir() {
        Err(e) => Err(e.to_string()),
        Ok(rd) => rd.map(|ent| {
            let e = ent.map_err(|e| e.to_string())?;
            Ok(crate::filters::DirEntryInfo {
                name: e.file_name().to_string_lossy().into_owned(),
                path: e.path().to_string_lossy().into_owned().into_bytes(),
                is_dir: e.path().is_dir(),
            })
        }).collect(),
    }
}

/// Relies on `rhai::AST::iter_functions` for the metadata of every
/// function a compiled script defines: its name, declared parameter count
/// (the implicit receiver not counted) and whether it is private. The
/// program is opaque, so nothing is promised of the list.
#[verifier::external_body]
pub fn script_functions(ast: &rhai::AST) -> Vec<crate::filters::FnInfo> {
    let mut out: Vec<crate::filters::FnInfo> = Vec::new();
    for f in ast.iter_functions() {
        out.push(crate::filters::FnInfo {
            name: f.name.to_string(),
            params: f.params.len(),
            is_private: matches!(f.access, rhai::FnAccess::Private),
        });
    }
    out
}

/// Relies on `rhai::Engine::call_fn_with_options` to invoke the named
/// function under the filter calling convention: the subject bound as the
/// implicit receiver, the variables serialized into the runtime's map
/// representation, each entry pushed as a named scope variable, and the
/// map itself passed as the sole declared argument. The script decides
/// the outcome, so nothing is promised of it.
#[verifier::external_body]
pub fn call_filter_fn(
    engine: &rhai::Engine,
    ast: &rhai::AST,
    fn_name: &str,
    this: &mut rhai::Dynamic,
    vars: &std::collections::HashMap<String, serde_json::Value>,
) -> Result<rhai::Dynamic, Box<rhai::EvalAltResult>> {
    let dict = rhai::serde::to_dynamic(vars)?.cast::<rhai::Map>();
    let mut scope = rhai::Scope::new();
    for (k, v) in dict.iter() {
        scope.push_dynamic(k.clone(), v.clone());
    }
    let options = rhai::CallFnOptions::new().bind_this_ptr(this);
    engine.call_fn_with_options::<rhai::Dynamic>(options, &mut scope, ast, fn_name, (dict,))
}

/// Relies on `tera::Tera::register_filter` to install, under the given
/// name, a closure that applies the library's filter protocol
/// ([`crate::filters::apply_filter`]) with the shared engine and program;
/// a same-named later registration overwrites an earlier one.
#[verifier::external_body]
pub fn register_filter_adapter(
    tera: &mut tera::Tera,
    name: &String,
    engine: &Arc<rhai::Engine>,
    ast: &Arc<rhai::AST>,
) {
    let fname = name.clone();
    let eng = engine.clone();
    let prog = ast.clone();
    tera.register_filter(
        name.as_str(),
        move |v: &serde_json::Value, args: &std::collections::HashMap<String, serde_json::Value>| {
            crate::filters::apply_filter(&eng, &prog, fname.as_str(), v, args).map_err(
                tera::Error::msg,
            )
        },
    );
}

} // verus!
