//! The wrapper under which a scripting engine travels through the host's
//! request-extension machinery. The host web layer stores one of these in
//! its request state; handlers unwrap it to reach the engine.

use vstd::prelude::*;

verus! {

/// Wraps a scripting engine for the host's extension mechanism.
#[derive(Debug, PartialEq, Eq, Clone)]
pub struct ScriptingEngine<E>(pub E);

impl<E> ScriptingEngine<E> {
    /// Wrap the given scripting engine.
    pub fn new(engine: E) -> (r: Self)
        ensures
            r == ScriptingEngine(engine),
    {
        ScriptingEngine(engine)
    }
}

impl<E> From<E> for ScriptingEngine<E> {
    fn from(inner: E) -> Self {
        ScriptingEngine(inner)
    }
}

impl<E> vstd::std_specs::convert::FromSpecImpl<E> for ScriptingEngine<E> {
    open spec fn obeys_from_spec() -> bool {
        true
    }

    open spec fn from_spec(e: E) -> Self {
        ScriptingEngine(e)
    }
}

} // verus!
