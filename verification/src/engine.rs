//! The scripting engine and the invocation bridge.
//!
//! A [`RhaiScript`] owns one Rhai engine configured for a scripts root and
//! a concurrent program cache. Invoking a script resolves its path,
//! requires the file to exist before any cache work, fetches or compiles
//! the program under an exclusive lock, marshals the host's JSON receiver
//! into the runtime, calls the named function with the receiver bound as
//! `this`, and marshals the result and the possibly mutated receiver
//! back. The receiver is written back only when the whole call succeeds.

use vstd::prelude::*;
use vstd::string::StringSliceAdditionalSpecFns;
use vstd::rwlock::RwLock;
use vstd::rwlock::RwLockPredicate;
use crate::bindings::apply_engine_setup;
use crate::bindings::call_script_fn;
use crate::bindings::convert_eval_error;
use crate::bindings::dynamic_to_json;
use crate::bindings::install_file_resolver;
use crate::bindings::json_to_dynamic;
use crate::bindings::path_exists;
use crate::bindings::plain_engine;
use crate::bindings::shared_ref;
use crate::cache::ProgramCache;
use crate::errors::HostError;
use crate::errors::ScriptError;
use crate::errors::unwrap_function_error;
use crate::paths::resolve_script_path;
use crate::paths::str_to_bytes;
use std::sync::Arc;

verus! {

/// The lock invariant of the program cache: well-formedness (no two
/// entries share a path) holds whenever the lock is free.
pub struct CachePred;

impl RwLockPredicate<ProgramCache> for CachePred {
    open spec fn inv(self, v: ProgramCache) -> bool {
        v.wf()
    }
}

/// A scripting engine backed by Rhai: an engine configured for a scripts
/// root, and a shared, lock-protected cache of compiled programs.
pub struct RhaiScript {
    root: Vec<u8>,
    engine: Arc<rhai::Engine>,
    cache: Arc<RwLock<ProgramCache, CachePred>>,
}

/// Conventional directory of Rhai scripts under the application root.
pub const SCRIPTS_DIR: &'static str = "assets/scripts";

/// Conventional directory of Rhai scripts that define Tera filters.
pub const FILTER_SCRIPTS_DIR: &'static str = "assets/scripts/tera/filters";

impl RhaiScript {
    /// File extension of Rhai scripts.
    pub const SCRIPTS_EXT: &'static str = "rhai";

    /// The UTF-8 bytes of the scripts root this engine was created for.
    pub closed spec fn root(&self) -> Seq<u8> {
        self.root@
    }

    /// Create a new engine rooted at `scripts_path`, with a host
    /// customization callback applied to the engine once, at
    /// construction. Fails exactly when the scripts directory does not
    /// exist, carrying that path.
    pub fn new_with_setup<F: FnOnce(&mut rhai::Engine)>(scripts_path: &str, setup: F) -> (r:
        Result<RhaiScript, HostError>)
        ensures
            r matches Ok(s) ==> s.root() == scripts_path.spec_bytes(),
            r matches Err(e) ==> (e matches HostError::MissingScriptsDir(p) && p@
                == scripts_path@),
    {
        let root = str_to_bytes(scripts_path);
        if !path_exists(&root) {
            return Err(HostError::MissingScriptsDir(scripts_path.to_owned()));
        }
        let mut engine = plain_engine();
        install_file_resolver(&mut engine, &root);
        apply_engine_setup(&mut engine, setup);
        let cache = ProgramCache::new();
        Ok(
            RhaiScript {
                root,
                engine: Arc::new(engine),
                cache: Arc::new(RwLock::new(cache, Ghost(CachePred))),
            },
        )
    }

    /// Create a new engine rooted at `scripts_path`, with no
    /// customization. Fails exactly when the scripts directory does not
    /// exist, carrying that path.
    pub fn new(scripts_path: &str) -> (r: Result<RhaiScript, HostError>)
        ensures
            r matches Ok(s) ==> s.root() == scripts_path.spec_bytes(),
            r matches Err(e) ==> (e matches HostError::MissingScriptsDir(p) && p@
                == scripts_path@),
    {
        Self::new_with_setup(scripts_path, |_e: &mut rhai::Engine| {})
    }

    /// A reference to the underlying Rhai engine.
    pub fn engine(&self) -> &rhai::Engine {
        shared_ref(&self.engine)
    }

    /// Run the named function of a script against a mutable receiver.
    ///
    /// The script name is resolved against the scripts root, gaining the
    /// `.rhai` extension when it has none. A missing file is reported as
    /// `NotFound` carrying the name exactly as requested, before any
    /// cache lookup or compilation. On success the function's converted
    /// result is returned and the possibly mutated receiver is written
    /// back into `data`; on any failure `data` is left untouched. A
    /// failure raised inside the invoked function itself is unwrapped to
    /// its inner cause.
    pub fn run_script(
        &self,
        script_file: &str,
        data: &mut serde_json::Value,
        fn_name: &str,
        args: Vec<rhai::Dynamic>,
    ) -> (r: Result<serde_json::Value, ScriptError>)
        ensures
            r matches Err(ScriptError::NotFound(n)) ==> n@ == script_file@,
            r is Err ==> *final(data) == *old(data),
    {
        let name_b = str_to_bytes(script_file);
        let path = resolve_script_path(&self.root, &name_b);
        if !path_exists(&path) {
            return Err(ScriptError::NotFound(script_file.to_owned()));
        }
        let lock = shared_ref(&self.cache);
        let (mut c, handle) = lock.acquire_write();
        let res = c.get_or_compile(shared_ref(&self.engine), path);
        handle.release_write(c);
        let ast = match res {
            Ok(a) => a,
            Err(e) => {
                return Err(e);
            },
        };
        let mut obj = match json_to_dynamic(data) {
            Ok(o) => o,
            Err(e) => {
                return Err(convert_eval_error(e));
            },
        };
        let call_res = call_script_fn(
            shared_ref(&self.engine),
            shared_ref(&ast),
            fn_name,
            &mut obj,
            args,
        );
        match call_res {
            Err(e) => {
                let se = convert_eval_error(e);
                proof {
                    crate::errors::lemma_unwrap_no_not_found(se, fn_name@);
                }
                let unwrapped = unwrap_function_error(se, fn_name);
                Err(unwrapped)
            },
            Ok(d) => {
                let back = match dynamic_to_json(&obj) {
                    Ok(v) => v,
                    Err(e) => {
                        return Err(convert_eval_error(e));
                    },
                };
                let out = match dynamic_to_json(&d) {
                    Ok(v) => v,
                    Err(e) => {
                        return Err(convert_eval_error(e));
                    },
                };
                *data = back;
                Ok(out)
            },
        }
    }

    /// Run the named function of a script if the script exists.
    ///
    /// A missing script is not an error here: the call returns `Ok(None)`
    /// instead of `NotFound`, so "script does not exist" reads as
    /// "nothing to do". Every other outcome is as in [`Self::run_script`],
    /// with a successful result wrapped in `Some`.
    pub fn run_script_if_exists(
        &self,
        script_file: &str,
        data: &mut serde_json::Value,
        fn_name: &str,
        args: Vec<rhai::Dynamic>,
    ) -> (r: Result<Option<serde_json::Value>, ScriptError>)
        ensures
            r matches Err(e) ==> !(e is NotFound),
            r is Err ==> *final(data) == *old(data),
    {
        match self.run_script(script_file, data, fn_name, args) {
            Ok(v) => Ok(Some(v)),
            Err(e) => match e {
                ScriptError::NotFound(_) => Ok(None),
                other => Err(other),
            },
        }
    }

    /// Convert a script error into a host result: a runtime error's text
    /// is handed to the caller's converter, and every other error class
    /// passes through unchanged as a host error.
    pub fn convert_runtime_error<T, F: FnOnce(String) -> Result<T, HostError>>(
        &self,
        err: ScriptError,
        converter: F,
    ) -> (r: Result<T, HostError>)
        requires
            err matches ScriptError::Runtime(m) ==> call_requires(converter, (m,)),
        ensures
            match err {
                ScriptError::Runtime(m) => call_ensures(converter, (m,), r),
                e => r == Err::<T, HostError>(HostError::Script(e)),
            },
    {
        match err {
            ScriptError::Runtime(m) => converter(m),
            e => Err(HostError::Script(e)),
        }
    }
}

} // verus!
