//! Bridge between a host automation platform and a sandboxed script engine.
//!
//! The library holds the verified bridge logic: marshalling of values across
//! the host/script boundary, the table of host capabilities exposed to
//! scripts, the listener registry for state-change subscriptions, the module
//! loader protocol, and the execution-session state machine. The script
//! engine itself and all I/O live outside the library and talk to it through
//! plain values.

use vstd::prelude::*;

pub mod host;
pub mod listeners;
pub mod loader;
pub mod runner;
pub mod session;
pub mod store;
pub mod value;

verus! {

/// Command-line options of the engine process: the script arguments, of
/// which the first, when present, is the path of the entry script.
pub struct Opt {
    /// Script arguments
    pub args: Vec<String>,
}

/// The rule kind this engine contributes to the automation platform.
pub fn ruletype() -> (r: String)
    ensures
        r@ == "condition"@,
{
    "condition".to_owned()
}

} // verus!
