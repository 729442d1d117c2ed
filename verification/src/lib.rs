//! A verified bridge between a host application and the Rhai scripting
//! runtime: scripts are compiled lazily and exactly once per path into a
//! shared cache, invoked as named callbacks against a mutable host value
//! bound as the implicit receiver, and discovered from a directory so
//! that eligible script functions become Tera template filters.

pub mod bindings;
pub mod cache;
pub mod engine;
pub mod errors;
pub mod filters;
pub mod host;
pub mod init;
pub mod paths;

pub use crate::cache::ProgramCache;
pub use crate::engine::RhaiScript;
pub use crate::errors::HostError;
pub use crate::errors::ScriptError;
pub use crate::filters::FilterRuntime;
pub use crate::host::ScriptingEngine;
pub use crate::init::ScriptingEngineInitializer;
pub use crate::init::ScriptingEngineInitializerWithSetup;
