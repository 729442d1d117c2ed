//! Startup description of the scripting engine: the scripts root and an
//! optional one-time engine customization, from which the host's
//! initializer constructs the engine when the application wires its
//! routes.

use vstd::prelude::*;
use crate::engine::RhaiScript;
use crate::errors::HostError;

verus! {

/// Describes a scripting engine to be constructed at startup, with a
/// custom engine setup.
pub struct ScriptingEngineInitializerWithSetup<F> {
    scripts_path: String,
    setup: Option<F>,
}

/// Describes a scripting engine to be constructed at startup, with no
/// custom setup.
pub struct ScriptingEngineInitializer {
    scripts_path: String,
}

impl<F> ScriptingEngineInitializerWithSetup<F> {
    /// The scripts root this initializer was given.
    pub closed spec fn path_spec(&self) -> Seq<char> {
        self.scripts_path@
    }

    /// Whether a custom setup was given.
    pub closed spec fn has_setup(&self) -> bool {
        self.setup is Some
    }

    /// Describe an engine over `scripts_path` with a custom setup for
    /// the Rhai engine.
    pub fn new_with_setup(scripts_path: &str, setup: F) -> (r: Self)
        ensures
            r.path_spec() == scripts_path@,
            r.has_setup(),
    {
        ScriptingEngineInitializerWithSetup {
            scripts_path: scripts_path.to_owned(),
            setup: Some(setup),
        }
    }

    /// The initializer's fixed name.
    pub fn name(&self) -> (r: String)
        ensures
            r@ == "scripting-engine"@,
    {
        "scripting-engine".to_owned()
    }
}

impl<F: Fn(&mut rhai::Engine)> ScriptingEngineInitializerWithSetup<F> {
    /// Construct the engine this initializer describes: with the custom
    /// setup applied when one was given, plainly otherwise. Fails exactly
    /// when the scripts directory does not exist, carrying that path.
    pub fn build(&self) -> (r: Result<RhaiScript, HostError>)
        ensures
            r matches Err(e) ==> (e matches HostError::MissingScriptsDir(p) && p@
                == self.path_spec()),
    {
        match self.setup {
            Some(ref setup) => RhaiScript::new_with_setup(self.scripts_path.as_str(), setup),
            None => RhaiScript::new(self.scripts_path.as_str()),
        }
    }
}

impl ScriptingEngineInitializer {
    /// The scripts root this initializer was given.
    pub closed spec fn path_spec(&self) -> Seq<char> {
        self.scripts_path@
    }

    /// Describe an engine over `scripts_path` with no custom setup.
    pub fn new(scripts_path: &str) -> (r: Self)
        ensures
            r.path_spec() == scripts_path@,
    {
        ScriptingEngineInitializer { scripts_path: scripts_path.to_owned() }
    }

    /// The initializer's fixed name.
    pub fn name(&self) -> (r: String)
        ensures
            r@ == "scripting-engine"@,
    {
        "scripting-engine".to_owned()
    }

    /// Construct the engine this initializer describes. Fails exactly
    /// when the scripts directory does not exist, carrying that path.
    pub fn build(&self) -> (r: Result<RhaiScript, HostError>)
        ensures
            r matches Err(e) ==> (e matches HostError::MissingScriptsDir(p) && p@
                == self.path_spec()),
    {
        RhaiScript::new(self.scripts_path.as_str())
    }
}

} // verus!
