//! Filter discovery and adaptation.
//!
//! A directory of scripts is scanned once: subdirectories and files
//! without the `.rhai` extension are skipped silently, every remaining
//! file is compiled (a compile failure aborts the whole registration),
//! and each of the script's eligible functions — not private, exactly one
//! declared parameter — is registered with the external Tera registry as
//! a filter. Each adapter applies the same marshalling protocol as the
//! invocation bridge, against the fixed `(subject, variables)` calling
//! convention.

use vstd::prelude::*;
use crate::bindings::compile_file_raw;
use crate::bindings::convert_eval_error;
use crate::bindings::call_filter_fn;
use crate::bindings::dynamic_to_json;
use crate::bindings::eval_error_message;
use crate::bindings::json_to_dynamic;
use crate::bindings::list_dir;
use crate::bindings::path_exists;
use crate::bindings::plain_engine;
use crate::bindings::register_filter_adapter;
use crate::bindings::script_functions;
use crate::bindings::set_ast_source;
use crate::bindings::shared_ref;
use crate::engine::RhaiScript;
use crate::errors::HostError;
use crate::paths::bytes_is_rhai_path;
use crate::paths::is_rhai_path;
use crate::paths::str_to_bytes;
use std::sync::Arc;

verus! {

/// One directory entry seen during the filter scan: the entry's file
/// name, its full path as UTF-8 bytes, and whether it is a directory.
pub struct DirEntryInfo {
    /// The entry's file name.
    pub name: String,
    /// The entry's full path, as UTF-8 bytes.
    pub path: Vec<u8>,
    /// Whether the entry is a directory.
    pub is_dir: bool,
}

/// Metadata of one function defined by a compiled script.
pub struct FnInfo {
    /// The function's name.
    pub name: String,
    /// The number of declared parameters; the implicit receiver is not
    /// counted.
    pub params: usize,
    /// Whether the function is marked private.
    pub is_private: bool,
}

/// The eligibility rule for filter adaptation: a function becomes a
/// filter exactly when it is not private and declares exactly one
/// parameter.
pub open spec fn eligible_spec(f: FnInfo) -> bool {
    !f.is_private && f.params == 1
}

/// The skip rule of the directory scan: an entry is compiled exactly when
/// it is not a directory and its name carries the `.rhai` extension.
pub open spec fn scanned_spec(e: DirEntryInfo) -> bool {
    !e.is_dir && is_rhai_path(e.path@)
}

/// The eligibility rule as a predicate value, for use under `filter`.
pub open spec fn eligible_pred() -> spec_fn(FnInfo) -> bool {
    |f: FnInfo| eligible_spec(f)
}

/// The name of a script function, viewed as a character sequence.
pub open spec fn name_view_fn() -> spec_fn(FnInfo) -> Seq<char> {
    |f: FnInfo| f.name@
}

/// A string viewed as a character sequence.
pub open spec fn str_view_fn() -> spec_fn(String) -> Seq<char> {
    |s: String| s@
}

/// Whether one script function is eligible for filter adaptation.
pub fn is_eligible(f: &FnInfo) -> (r: bool)
    ensures
        r == eligible_spec(*f),
{
    !f.is_private && f.params == 1
}

/// Whether one directory entry is taken up by the scan rather than
/// skipped.
pub fn is_scanned(e: &DirEntryInfo) -> (r: bool)
    ensures
        r == scanned_spec(*e),
{
    !e.is_dir && bytes_is_rhai_path(&e.path)
}

/// The names under which a script's functions are registered as filters:
/// exactly the names of its eligible functions, in order.
pub fn eligible_filter_names(fns: &Vec<FnInfo>) -> (r: Vec<String>)
    ensures
        r@.map_values(str_view_fn()) == fns@.filter(eligible_pred()).map_values(name_view_fn()),
{
    let mut r: Vec<String> = Vec::new();
    let mut i: usize = 0;
    proof {
        reveal_with_fuel(Seq::filter, 2);
        assert(fns@.take(0).filter(eligible_pred()) =~= Seq::<FnInfo>::empty());
        assert(r@.map_values(str_view_fn()) =~= fns@.take(0).filter(eligible_pred()).map_values(
            name_view_fn(),
        ));
    }
    while i < fns.len()
        invariant
            i <= fns@.len(),
            r@.map_values(str_view_fn()) == fns@.take(i as int).filter(eligible_pred()).map_values(
                name_view_fn(),
            ),
        decreases fns@.len() - i,
    {
        let ghost pre = fns@.take(i as int);
        let ghost post = fns@.take(i as int + 1);
        proof {
            reveal_with_fuel(Seq::filter, 2);
            assert(post.drop_last() =~= pre);
            assert(post.last() == fns@[i as int]);
        }
        let el = is_eligible(&fns[i]);
        if el {
            let ghost r0 = r@;
            let n = fns[i].name.clone();
            r.push(n);
            proof {
                reveal_with_fuel(Seq::filter, 2);
                assert(post.filter(eligible_pred()) == pre.filter(eligible_pred()).push(
                    fns@[i as int],
                ));
                let lhs = r@.map_values(str_view_fn());
                let rhs = post.filter(eligible_pred()).map_values(name_view_fn());
                assert(r0.map_values(str_view_fn()).len() == pre.filter(
                    eligible_pred(),
                ).map_values(name_view_fn()).len());
                assert(lhs.len() == rhs.len());
                assert forall|k: int| 0 <= k < lhs.len() implies lhs[k] == rhs[k] by {
                    if k < lhs.len() - 1 {
                        assert(r@[k] == r0[k]);
                        assert(lhs[k] == r0.map_values(str_view_fn())[k]);
                        assert(rhs[k] == pre.filter(eligible_pred()).map_values(
                            name_view_fn(),
                        )[k]);
                    } else {
                        assert(r@[k] == n);
                        assert(post.filter(eligible_pred())[k] == fns@[i as int]);
                    }
                }
                assert(lhs =~= rhs);
            }
        } else {
            proof {
                reveal_with_fuel(Seq::filter, 2);
                assert(post.filter(eligible_pred()) == pre.filter(eligible_pred()));
            }
        }
        i = i + 1;
    }
    proof {
        assert(fns@.take(fns@.len() as int) =~= fns@);
    }
    r
}

/// A second, independently configured runtime for filter scripts. It has
/// no module resolver; the host may customize the engine (translation
/// callbacks, output sinks) before handing it over.
pub struct FilterRuntime {
    engine: Arc<rhai::Engine>,
}

impl FilterRuntime {
    /// A filter runtime over a fresh engine with default configuration.
    pub fn new() -> FilterRuntime {
        FilterRuntime { engine: Arc::new(plain_engine()) }
    }

    /// A filter runtime over an engine the host configured itself, for
    /// instance with a translation callback registered under a fixed
    /// name.
    pub fn from_engine(engine: rhai::Engine) -> FilterRuntime {
        FilterRuntime { engine: Arc::new(engine) }
    }

    /// A reference to the underlying Rhai engine.
    pub fn engine(&self) -> &rhai::Engine {
        shared_ref(&self.engine)
    }
}

/// Apply one script function under the filter calling convention: the
/// subject value is bound as the implicit receiver, the named variables
/// are pushed into a fresh scope and passed as the sole argument, and the
/// function's result is converted back into a host value. Any failure is
/// surfaced as its message text.
pub fn apply_filter(
    engine: &rhai::Engine,
    ast: &rhai::AST,
    fn_name: &str,
    value: &serde_json::Value,
    variables: &std::collections::HashMap<String, serde_json::Value>,
) -> Result<serde_json::Value, String> {
    let mut obj = match json_to_dynamic(value) {
        Ok(o) => o,
        Err(e) => {
            return Err(eval_error_message(&*e));
        },
    };
    let d = match call_filter_fn(engine, ast, fn_name, &mut obj, variables) {
        Ok(d) => d,
        Err(e) => {
            return Err(eval_error_message(&*e));
        },
    };
    match dynamic_to_json(&d) {
        Ok(v) => Ok(v),
        Err(e) => Err(eval_error_message(&*e)),
    }
}

impl RhaiScript {
    /// Register Tera filters from the scripts in a directory.
    ///
    /// Fails when the directory does not exist (carrying its path), when
    /// it cannot be read, or when any script in it fails to compile
    /// (carrying that file's name): registration is all-or-nothing.
    /// Subdirectories and files without the `.rhai` extension are skipped
    /// silently. From each compiled script, exactly its eligible
    /// functions — see [`eligible_filter_names`] — are registered, in
    /// scan order, a later same-named registration overwriting an earlier
    /// one.
    pub fn register_tera_filters(
        tera: &mut tera::Tera,
        scripts_path: &str,
        runtime: &FilterRuntime,
    ) -> (r: Result<(), HostError>)
        ensures
            r matches Err(HostError::MissingScriptsDir(p)) ==> p@ == scripts_path@,
            r matches Err(e) ==> (e is MissingScriptsDir || e is DirRead || e is FilterCompile),
    {
        let pbytes = str_to_bytes(scripts_path);
        if !path_exists(&pbytes) {
            return Err(HostError::MissingScriptsDir(scripts_path.to_owned()));
        }
        let entries = match list_dir(&pbytes) {
            Ok(v) => v,
            Err(m) => {
                return Err(HostError::DirRead(m));
            },
        };
        let mut i: usize = 0;
        while i < entries.len()
            invariant
                i <= entries@.len(),
            decreases entries@.len() - i,
        {
            if is_scanned(&entries[i]) {
                let ast = match compile_file_raw(runtime.engine(), &entries[i].path) {
                    Err(err) => {
                        return Err(
                            HostError::FilterCompile(
                                entries[i].name.clone(),
                                convert_eval_error(err),
                            ),
                        );
                    },
                    Ok(a) => a,
                };
                let mut ast = ast;
                set_ast_source(&mut ast, &entries[i].path);
                let shared = Arc::new(ast);
                let fns = script_functions(shared_ref(&shared));
                let names = eligible_filter_names(&fns);
                let mut j: usize = 0;
                while j < names.len()
                    invariant
                        j <= names@.len(),
                    decreases names@.len() - j,
                {
                    register_filter_adapter(tera, &names[j], &runtime.engine, &shared);
                    j = j + 1;
                }
            }
            i = i + 1;
        }
        Ok(())
    }
}

} // verus!
