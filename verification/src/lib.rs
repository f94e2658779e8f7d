//! Verified core of a local-port-forwarding tunnel engine.
//!
//! The library models the decision logic of the engine: session lifecycle,
//! the per-connection byte shuttle, traffic accounting, and hierarchical
//! cancellation. All I/O (the secure transport, sockets, timers) lives
//! outside the library and drives these state machines event by event.

use vstd::prelude::*;

pub mod cancel;
pub mod command;
pub mod counter;
pub mod errors;
pub mod job;
pub mod session;
pub mod shuttle;
pub mod stats;

verus! {

/// Whether the build is a development build. The verified library is built
/// for release use; development tooling configures logging on its own.
pub fn is_dev_mode() -> (r: bool)
    ensures
        r == false,
{
    false
}

} // verus!
