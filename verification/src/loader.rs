//! The module-loader protocol: how an import specifier becomes a compiled
//! module, or a failure the engine can surface as a module-resolution
//! error.
//!
//! The engine calls back into the host for every unresolved import. The
//! host-side adapter performs the engine call; this module holds the
//! decisions around it: a specifier resolves as a direct filesystem path
//! and compiles in compile-only module mode, and a failed compilation is
//! answered with the engine's null sentinel instead of aborting anything.

use vstd::prelude::*;

verus! {

/// What the loader asks the engine to compile for one import specifier.
#[derive(Debug, PartialEq, Eq)]
pub struct CompileRequest {
    /// The source location: the specifier itself, read as a filesystem
    /// path relative to the working directory.
    pub path: String,
    /// Compile without executing, so static errors surface before any
    /// module runs.
    pub compile_only: bool,
    /// Compile as a module, not as a script.
    pub as_module: bool,
}

/// Resolve an import specifier: a direct path lookup, compiled lazily in
/// compile-only module mode.
pub fn resolve_specifier(specifier: String) -> (r: CompileRequest)
    ensures
        r.path == specifier,
        r.compile_only,
        r.as_module,
{
    CompileRequest { path: specifier, compile_only: true, as_module: true }
}

/// The engine's null module sentinel.
pub open spec fn spec_null_module() -> u64 {
    0
}

/// Map a compilation outcome to what the loader hands the engine: the
/// compiled module's handle, or the null sentinel so the engine raises the
/// script-level module-resolution error itself.
pub fn loader_reply(outcome: Option<u64>) -> (r: u64)
    requires
        outcome matches Some(h) ==> h != spec_null_module(),
    ensures
        match outcome {
            Some(h) => r == h,
            None => r == spec_null_module(),
        },
{
    match outcome {
        Some(h) => h,
        None => 0,
    }
}

} // verus!
