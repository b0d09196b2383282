//! Messages and the death notice.

use vstd::prelude::*;
use crate::actor::ActorId;

verus! {

/// Something that can be sent to an actor. Each message type names the type
/// of the answer its handler gives.
pub trait Message: Send + 'static {
    type Result: Send;
}

/// Sent to each watcher when a watched actor stops.
#[derive(Clone, Copy, Debug, PartialEq, Eq, Structural)]
pub struct Terminated {
    /// The actor that stopped.
    pub id: ActorId,
}

impl Message for Terminated {
    type Result = ();
}

} // verus!
