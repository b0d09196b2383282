//! Actor identity.

use vstd::prelude::*;

verus! {

/// The identity of one spawned actor: unique in the process, never zero,
/// never reused.
#[derive(Clone, Copy, Debug, PartialEq, Eq, Hash, Structural)]
pub struct ActorId(pub u64);

/// Hands out actor ids in increasing order, starting at one.
pub struct IdSource {
    next: u64,
}

impl IdSource {
    #[verifier::type_invariant]
    spec fn inv(self) -> bool {
        self.next >= 1
    }

    /// The number of the id that the next spawn receives.
    pub closed spec fn upcoming(self) -> u64 {
        self.next
    }

    /// A source that has handed out nothing yet.
    pub fn new() -> (source: Self)
        ensures
            source.upcoming() == 1,
    {
        IdSource { next: 1 }
    }

    /// Takes the next id. Each id is larger than every id taken before, so no
    /// two spawns share one; none is zero. Once the numbers are used up the
    /// source gives out nothing more and stays as it is.
    pub fn allocate(&mut self) -> (id: Option<ActorId>)
        ensures
            old(self).upcoming() >= 1,
            old(self).upcoming() < u64::MAX ==> id == Some(ActorId(old(self).upcoming()))
                && final(self).upcoming() == old(self).upcoming() + 1,
            old(self).upcoming() == u64::MAX ==> id is None && final(self).upcoming() == u64::MAX,
    {
        proof {
            use_type_invariant(&*self);
        }
        if self.next == u64::MAX {
            None
        } else {
            let id: u64 = self.next;
            self.next = id + 1;
            Some(ActorId(id))
        }
    }
}

} // verus!
