//! The durable pause record.

use vstd::prelude::*;

verus! {

/// What survives a restart: the end of the current cooldown, in Unix seconds,
/// or nothing when no cooldown runs.
#[derive(Clone, Copy, Debug, PartialEq, Eq, Structural)]
pub struct DaemonState {
    pub paused_until: Option<i64>,
}

impl Default for DaemonState {
    fn default() -> (r: DaemonState)
        ensures
            r.paused_until is None,
    {
        DaemonState { paused_until: None }
    }
}

} // verus!
