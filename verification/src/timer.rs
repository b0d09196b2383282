//! Timers: a cancel flag and the decision taken on each tick.

use vstd::prelude::*;

verus! {

/// The cancel flag of one scheduled timer. Once set it stays set.
#[derive(Clone, Copy, Debug, PartialEq, Eq, Structural)]
pub struct TimerHandle {
    cancelled: bool,
}

/// What a timer task does when its delay or period has passed.
#[derive(Clone, Copy, Debug, PartialEq, Eq, Structural)]
pub enum Tick {
    /// Send the message, and end the timer.
    FireOnce,
    /// Send the message, and wait for the next period.
    FireAndRepeat,
    /// Send nothing, and end the timer.
    End,
}

/// What a one-shot timer does after its delay: it fires if it was not
/// cancelled and its target is alive, and ends either way.
pub open spec fn later_tick(cancelled: bool, target_alive: bool) -> Tick {
    if target_alive && !cancelled {
        Tick::FireOnce
    } else {
        Tick::End
    }
}

/// What a periodic timer does at each period: it fires and goes on if it was
/// not cancelled and its target is alive, and ends otherwise.
pub open spec fn interval_tick(cancelled: bool, target_alive: bool) -> Tick {
    if target_alive && !cancelled {
        Tick::FireAndRepeat
    } else {
        Tick::End
    }
}

impl TimerHandle {
    /// A timer that has not been cancelled.
    pub fn new() -> (handle: Self)
        ensures
            !handle.is_cancelled(),
    {
        TimerHandle { cancelled: false }
    }

    /// Cancels the timer. Cancelling again changes nothing.
    pub fn cancel(&mut self)
        ensures
            final(self).is_cancelled(),
    {
        self.cancelled = true;
    }

    /// Whether the timer was cancelled.
    #[verifier::when_used_as_spec(spec_is_cancelled)]
    pub fn is_cancelled(&self) -> (cancelled: bool)
        ensures
            cancelled == self.is_cancelled(),
    {
        self.cancelled
    }

    pub closed spec fn spec_is_cancelled(&self) -> bool {
        self.cancelled
    }

    /// The decision of a one-shot timer after its delay: it fires if it was
    /// not cancelled and its target is alive, and ends either way.
    pub fn run_later(&self, target_alive: bool) -> (tick: Tick)
        ensures
            tick == later_tick(self.is_cancelled(), target_alive),
    {
        if target_alive && !self.cancelled {
            Tick::FireOnce
        } else {
            Tick::End
        }
    }

    /// The decision of a periodic timer at each period: it fires and goes on
    /// if it was not cancelled and its target is alive, and ends otherwise.
    pub fn run_interval(&self, target_alive: bool) -> (tick: Tick)
        ensures
            tick == interval_tick(self.is_cancelled(), target_alive),
    {
        if !target_alive || self.cancelled {
            Tick::End
        } else {
            Tick::FireAndRepeat
        }
    }
}

/// A cancelled timer never fires again: once the flag is set, every later
/// decision of either kind of timer is to end, whatever the target's state.
pub proof fn lemma_cancelled_timer_is_silent(target_alive: bool)
    ensures
        later_tick(true, target_alive) == Tick::End,
        interval_tick(true, target_alive) == Tick::End,
{
}

/// A timer fires only for a live target, and a timer that ends never fires:
/// a periodic timer stops for good at a closed target.
pub proof fn lemma_timer_needs_live_target(cancelled: bool)
    ensures
        later_tick(cancelled, false) == Tick::End,
        interval_tick(cancelled, false) == Tick::End,
{
}

} // verus!
