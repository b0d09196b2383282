//! What a supervisor does when an actor fails.

use vstd::prelude::*;

verus! {

/// The reaction to a failed actor. The runtime acts on `Stop` only; the other
/// two are reserved.
#[derive(Clone, Copy, Debug, PartialEq, Eq, Structural)]
pub enum SupervisorStrategy {
    /// Stop the actor on failure.
    Stop,
    /// Restart the actor on failure.
    Restart,
    /// Hand the failure to the parent supervisor.
    Escalate,
}

impl Default for SupervisorStrategy {
    fn default() -> (strategy: Self)
        ensures
            strategy == SupervisorStrategy::Stop,
    {
        SupervisorStrategy::Stop
    }
}

} // verus!
