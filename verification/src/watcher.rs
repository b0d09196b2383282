//! Death-watch: who hears of an actor's end.

use vstd::prelude::*;
use crate::actor::ActorId;
use crate::message::Terminated;

verus! {

/// A sink that can be told of an actor's death, whatever stands behind it.
pub trait Watcher: Send + Sync {
    fn notify(&self, id: ActorId);
}

/// The watchers of one actor, in the order in which they registered. A sink
/// that registered twice is listed twice.
pub struct Watchers<W> {
    sinks: Vec<W>,
}

impl<W> View for Watchers<W> {
    type V = Seq<W>;

    closed spec fn view(&self) -> Seq<W> {
        self.sinks@
    }
}

/// One notice: the sink to tell, and what to tell it.
pub struct Notice<W> {
    pub sink: W,
    pub message: Terminated,
}

impl<W> Watchers<W> {
    /// A list without watchers.
    pub fn new() -> (list: Self)
        ensures
            list@ == Seq::<W>::empty(),
    {
        Watchers { sinks: Vec::new() }
    }

    /// The number of registrations.
    pub fn len(&self) -> (n: usize)
        ensures
            n == self@.len(),
    {
        self.sinks.len()
    }

    /// Registers a sink, behind those already there. Nothing is checked
    /// against the list: a second registration of one sink counts again.
    pub fn add_watcher(&mut self, sink: W)
        ensures
            final(self)@ == old(self)@.push(sink),
    {
        self.sinks.push(sink);
    }

    /// Takes the whole list for the termination of actor `id`: one notice for
    /// each registration, carrying `id`, and the list is left empty, so that
    /// no registration is ever told twice.
    pub fn notify_watchers(&mut self, id: ActorId) -> (notices: Vec<Notice<W>>)
        ensures
            final(self)@ == Seq::<W>::empty(),
            notices@.len() == old(self)@.len(),
            forall|i: int|
                0 <= i < notices@.len() ==> (#[trigger] notices@[i]).sink == old(self)@[i]
                    && notices@[i].message == (Terminated { id }),
    {
        let mut notices: Vec<Notice<W>> = Vec::new();
        let ghost before = self.sinks@;
        while self.sinks.len() > 0
            invariant
                notices@.len() + self.sinks@.len() == before.len(),
                forall|i: int|
                    0 <= i < notices@.len() ==> (#[trigger] notices@[i]).sink == before[before.len()
                        - 1 - i] && notices@[i].message == (Terminated { id }),
                forall|i: int| 0 <= i < self.sinks@.len() ==> self.sinks@[i] == before[i],
            decreases self.sinks@.len(),
        {
            let sink = self.sinks.pop().unwrap();
            notices.push(Notice { sink, message: Terminated { id } });
        }
        reverse(&mut notices);
        notices
    }
}

/// Reverses a vector in place.
fn reverse<T>(items: &mut Vec<T>)
    ensures
        final(items)@.len() == old(items)@.len(),
        forall|i: int|
            0 <= i < old(items)@.len() ==> final(items)@[i] == old(items)@[old(items)@.len() - 1
                - i],
{
    let mut turned: Vec<T> = Vec::new();
    let ghost before = items@;
    while items.len() > 0
        invariant
            turned@.len() + items@.len() == before.len(),
            forall|i: int| 0 <= i < turned@.len() ==> turned@[i] == before[before.len() - 1 - i],
            forall|i: int| 0 <= i < items@.len() ==> items@[i] == before[i],
        decreases items@.len(),
    {
        let item = items.pop().unwrap();
        turned.push(item);
    }
    *items = turned;
}

} // verus!
