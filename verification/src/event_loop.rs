//! The per-actor event loop as a state machine.
//!
//! The host task performs the [`Action`] of the current [`Phase`], reports
//! what happened as an [`Event`], and moves to the phase that [`step`]
//! returns. Every way an actor can end (mailbox drained, stop signal, system
//! shutdown, panic) converges on one termination sequence: notify the
//! watchers, stop the children, run the `stopped` hook, exit.

use vstd::prelude::*;

verus! {

/// Why an actor's loop ended.
#[derive(Clone, Copy, Debug, PartialEq, Eq, Structural)]
pub enum ExitCause {
    /// Every address was dropped and the mailbox ran empty.
    Drained,
    /// The actor's own stop signal fired.
    Stopped,
    /// The system-wide shutdown signal fired.
    Shutdown,
    /// A user callback panicked.
    Panicked,
}

/// Where an actor is in its life.
#[derive(Clone, Copy, Debug, PartialEq, Eq, Structural)]
pub enum Phase {
    /// The `started` hook is running.
    Starting,
    /// Waiting for an envelope or a signal.
    Idle,
    /// A handler is running.
    Handling,
    /// The watchers are being notified.
    Notifying(ExitCause),
    /// The children are being stopped.
    StoppingChildren(ExitCause),
    /// The `stopped` hook is running.
    Finishing(ExitCause),
    /// The task has nothing left to do.
    Done(ExitCause),
}

/// What the host observed while performing the current phase's action.
#[derive(Clone, Copy, Debug, PartialEq, Eq, Structural)]
pub enum Event {
    /// The action ran to its end.
    Completed,
    /// A user callback panicked.
    Panicked,
    /// An envelope was taken from the mailbox.
    Envelope,
    /// The mailbox is closed and empty.
    Closed,
    /// The actor's stop signal fired.
    StopSignal,
    /// The system-wide shutdown signal fired.
    ShutdownSignal,
}

/// What the host has to do in a phase.
#[derive(Clone, Copy, Debug, PartialEq, Eq, Structural)]
pub enum Action {
    /// Run the `started` hook under panic isolation.
    RunStarted,
    /// Wait for an envelope, the stop signal or the shutdown signal.
    AwaitEvent,
    /// Run the handler of the envelope just received, under panic isolation.
    HandleEnvelope,
    /// Send `Terminated` to every watcher, ignoring full or closed mailboxes.
    NotifyWatchers,
    /// Fire the stop signal of every child.
    StopChildren,
    /// Run the `stopped` hook under panic isolation.
    RunStopped,
    /// Leave the task.
    Exit,
}

/// The phase that follows `phase` on `event`, or `None` where the phase does
/// not await that event.
pub open spec fn next_phase(phase: Phase, event: Event) -> Option<Phase> {
    match (phase, event) {
        (Phase::Starting, Event::Completed) => Some(Phase::Idle),
        (Phase::Starting, Event::Panicked) => Some(Phase::Notifying(ExitCause::Panicked)),
        (Phase::Idle, Event::Envelope) => Some(Phase::Handling),
        (Phase::Idle, Event::Closed) => Some(Phase::Notifying(ExitCause::Drained)),
        (Phase::Idle, Event::StopSignal) => Some(Phase::Notifying(ExitCause::Stopped)),
        (Phase::Idle, Event::ShutdownSignal) => Some(Phase::Notifying(ExitCause::Shutdown)),
        (Phase::Handling, Event::Completed) => Some(Phase::Idle),
        (Phase::Handling, Event::Panicked) => Some(Phase::Notifying(ExitCause::Panicked)),
        (Phase::Notifying(cause), Event::Completed) => Some(Phase::StoppingChildren(cause)),
        (Phase::StoppingChildren(cause), Event::Completed) => Some(Phase::Finishing(cause)),
        (Phase::Finishing(cause), Event::Completed) => Some(Phase::Done(cause)),
        (Phase::Finishing(cause), Event::Panicked) => Some(Phase::Done(cause)),
        _ => None,
    }
}

/// The action that the host performs in `phase`.
pub open spec fn action_of(phase: Phase) -> Action {
    match phase {
        Phase::Starting => Action::RunStarted,
        Phase::Idle => Action::AwaitEvent,
        Phase::Handling => Action::HandleEnvelope,
        Phase::Notifying(_) => Action::NotifyWatchers,
        Phase::StoppingChildren(_) => Action::StopChildren,
        Phase::Finishing(_) => Action::RunStopped,
        Phase::Done(_) => Action::Exit,
    }
}

/// How far a phase is along an actor's life. Only `Idle` and `Handling`
/// share a stage.
pub open spec fn stage(phase: Phase) -> nat {
    match phase {
        Phase::Starting => 0,
        Phase::Idle => 1,
        Phase::Handling => 1,
        Phase::Notifying(_) => 2,
        Phase::StoppingChildren(_) => 3,
        Phase::Finishing(_) => 4,
        Phase::Done(_) => 5,
    }
}

/// The cause that a terminating phase carries.
pub open spec fn cause_of(phase: Phase) -> Option<ExitCause> {
    match phase {
        Phase::Notifying(c) => Some(c),
        Phase::StoppingChildren(c) => Some(c),
        Phase::Finishing(c) => Some(c),
        Phase::Done(c) => Some(c),
        _ => None,
    }
}

/// The phase in which every actor begins.
pub fn initial() -> (phase: Phase)
    ensures
        phase == Phase::Starting,
{
    Phase::Starting
}

/// Moves the loop on by one event.
pub fn step(phase: Phase, event: Event) -> (next: Option<Phase>)
    ensures
        next == next_phase(phase, event),
{
    match phase {
        Phase::Starting => match event {
            Event::Completed => Some(Phase::Idle),
            Event::Panicked => Some(terminate(ExitCause::Panicked)),
            _ => None,
        },
        Phase::Idle => match event {
            Event::Envelope => Some(Phase::Handling),
            Event::Closed => Some(terminate(ExitCause::Drained)),
            Event::StopSignal => Some(terminate(ExitCause::Stopped)),
            Event::ShutdownSignal => Some(terminate(ExitCause::Shutdown)),
            _ => None,
        },
        Phase::Handling => match event {
            Event::Completed => Some(Phase::Idle),
            Event::Panicked => Some(terminate(ExitCause::Panicked)),
            _ => None,
        },
        Phase::Notifying(cause) => match event {
            Event::Completed => Some(Phase::StoppingChildren(cause)),
            _ => None,
        },
        Phase::StoppingChildren(cause) => match event {
            Event::Completed => Some(Phase::Finishing(cause)),
            _ => None,
        },
        Phase::Finishing(cause) => match event {
            Event::Completed | Event::Panicked => Some(Phase::Done(cause)),
            _ => None,
        },
        Phase::Done(_) => None,
    }
}

/// The first phase of the termination sequence, the same for every cause.
pub fn terminate(cause: ExitCause) -> (phase: Phase)
    ensures
        phase == Phase::Notifying(cause),
{
    Phase::Notifying(cause)
}

/// The action to perform in `phase`.
pub fn action(phase: Phase) -> (act: Action)
    ensures
        act == action_of(phase),
{
    match phase {
        Phase::Starting => Action::RunStarted,
        Phase::Idle => Action::AwaitEvent,
        Phase::Handling => Action::HandleEnvelope,
        Phase::Notifying(_) => Action::NotifyWatchers,
        Phase::StoppingChildren(_) => Action::StopChildren,
        Phase::Finishing(_) => Action::RunStopped,
        Phase::Done(_) => Action::Exit,
    }
}

/// Whether the loop has ended.
pub fn is_done(phase: Phase) -> (done: bool)
    ensures
        done == (phase is Done),
{
    match phase {
        Phase::Done(_) => true,
        _ => false,
    }
}

/// A run of the loop: it begins in `Starting`, and each phase follows from
/// the one before it on some event.
pub open spec fn is_run(phases: Seq<Phase>) -> bool {
    &&& phases.len() > 0
    &&& phases[0] == Phase::Starting
    &&& forall|i: int| 0 <= i < phases.len() - 1 ==> follows(#[trigger] phases[i], phases[i + 1])
}

/// Whether some event takes the loop from `phase` to `next`.
pub open spec fn follows(phase: Phase, next: Phase) -> bool {
    exists|e: Event| #[trigger] next_phase(phase, e) == Some(next)
}

/// No step goes back: the stage never falls, and it rises on every step but
/// those between `Idle` and `Handling`. A terminating phase hands its cause on
/// unchanged.
pub proof fn lemma_step_advances(phase: Phase, event: Event)
    requires
        next_phase(phase, event) is Some,
    ensures
        stage(phase) <= stage(next_phase(phase, event).unwrap()),
        stage(phase) == stage(next_phase(phase, event).unwrap()) ==> stage(phase) == 1,
        stage(next_phase(phase, event).unwrap()) <= stage(phase) + 1 || stage(phase) == 0,
        stage(phase) >= 2 ==> stage(next_phase(phase, event).unwrap()) == stage(phase) + 1
            && cause_of(next_phase(phase, event).unwrap()) == cause_of(phase),
{
}

/// In a run, stages are ordered as positions are.
pub proof fn lemma_run_monotone(phases: Seq<Phase>, i: int, j: int)
    requires
        is_run(phases),
        0 <= i <= j < phases.len(),
    ensures
        stage(phases[i]) <= stage(phases[j]),
        stage(phases[i]) >= 2 ==> stage(phases[j]) == stage(phases[i]) + (j - i),
        stage(phases[i]) >= 2 ==> cause_of(phases[j]) == cause_of(phases[i]),
        stage(phases[j]) == 0 ==> j == 0,
    decreases j - i,
{
    if i < j {
        lemma_run_monotone(phases, i, j - 1);
        assert(follows(phases[j - 1], phases[j - 1 + 1]));
        let e = choose|e: Event| #[trigger] next_phase(phases[j - 1], e) == Some(phases[j]);
        lemma_step_advances(phases[j - 1], e);
    } else if j > 0 {
        assert(follows(phases[j - 1], phases[j - 1 + 1]));
        let e = choose|e: Event| #[trigger] next_phase(phases[j - 1], e) == Some(phases[j]);
        lemma_step_advances(phases[j - 1], e);
    }
}

/// Lifecycle bracketing. In every run the `started` hook runs once, at the
/// very beginning, so before every handler; the `stopped` hook runs at most
/// once, and after the last handler.
pub proof fn lemma_lifecycle_bracketing(phases: Seq<Phase>)
    requires
        is_run(phases),
    ensures
        forall|i: int|
            0 <= i < phases.len() ==> (action_of(#[trigger] phases[i]) == Action::RunStarted <==> i
                == 0),
        forall|i: int, j: int|
            0 <= i < phases.len() && 0 <= j < phases.len() && action_of(#[trigger] phases[i])
                == Action::RunStopped && action_of(#[trigger] phases[j]) == Action::RunStopped
                ==> i == j,
        forall|i: int, j: int|
            0 <= i < phases.len() && 0 <= j < phases.len() && action_of(#[trigger] phases[i])
                == Action::HandleEnvelope && action_of(#[trigger] phases[j]) == Action::RunStopped
                ==> i < j,
{
    assert forall|i: int| 0 <= i < phases.len() implies (action_of(#[trigger] phases[i])
        == Action::RunStarted <==> i == 0) by {
        lemma_run_monotone(phases, i, i);
    }
    assert forall|i: int, j: int|
        0 <= i < phases.len() && 0 <= j < phases.len() && action_of(#[trigger] phases[i])
            == Action::RunStopped && action_of(#[trigger] phases[j])
            == Action::RunStopped implies i == j by {
        if i < j {
            lemma_run_monotone(phases, i, j);
        } else if j < i {
            lemma_run_monotone(phases, j, i);
        }
    }
    assert forall|i: int, j: int|
        0 <= i < phases.len() && 0 <= j < phases.len() && action_of(#[trigger] phases[i])
            == Action::HandleEnvelope && action_of(#[trigger] phases[j])
            == Action::RunStopped implies i < j by {
        if j <= i {
            lemma_run_monotone(phases, j, i);
        }
    }
}

/// One termination sequence for every cause. A run that has reached `Done`
/// ends with: notify the watchers, stop the children, run `stopped`, exit, in
/// that order and with one cause; whatever came before was `started`,
/// waiting and handling.
pub proof fn lemma_termination_sequence(phases: Seq<Phase>)
    requires
        is_run(phases),
        phases.last() is Done,
    ensures
        phases.len() >= 5,
        ({
            let n = phases.len() as int;
            let cause = cause_of(phases[n - 1]).unwrap();
            &&& phases[n - 4] == Phase::Notifying(cause)
            &&& phases[n - 3] == Phase::StoppingChildren(cause)
            &&& phases[n - 2] == Phase::Finishing(cause)
            &&& phases[n - 1] == Phase::Done(cause)
            &&& forall|i: int| 0 <= i < n - 4 ==> stage(#[trigger] phases[i]) <= 1
        }),
{
    let n = phases.len() as int;
    lemma_run_monotone(phases, 0, n - 1);
    lemma_predecessor(phases, n - 1);
    lemma_predecessor(phases, n - 2);
    lemma_predecessor(phases, n - 3);
    lemma_predecessor(phases, n - 4);
    assert forall|i: int| 0 <= i < n - 4 implies stage(#[trigger] phases[i]) <= 1 by {
        lemma_run_monotone(phases, i, n - 4);
        if stage(phases[i]) >= 2 {
            assert(stage(phases[n - 4]) == stage(phases[i]) + (n - 4 - i));
        }
    }
}

/// In a run, a phase past the start follows a phase one stage earlier (or of
/// the same stage, between `Idle` and `Handling`), and a terminating phase
/// past `Notifying` inherits its cause.
proof fn lemma_predecessor(phases: Seq<Phase>, j: int)
    requires
        is_run(phases),
        0 <= j < phases.len(),
        stage(phases[j]) >= 1,
    ensures
        j >= 1,
        stage(phases[j]) >= 3 ==> stage(phases[j - 1]) == stage(phases[j]) - 1 && cause_of(
            phases[j - 1],
        ) == cause_of(phases[j]),
        stage(phases[j]) == 2 ==> stage(phases[j - 1]) <= 1,
{
    if j == 0 {
        assert(phases[0] == Phase::Starting);
    } else {
        assert(follows(phases[j - 1], phases[j - 1 + 1]));
        let e = choose|e: Event| #[trigger] next_phase(phases[j - 1], e) == Some(phases[j]);
        lemma_step_advances(phases[j - 1], e);
    }
}

/// One handler run for each envelope, and never two at once. A handler
/// starts only when the idle loop takes an envelope, and while it runs the
/// loop takes no further envelope and hears no signal: the next envelope
/// waits until the handler has returned.
pub proof fn lemma_handlers_run_one_at_a_time(phase: Phase, event: Event)
    ensures
        next_phase(phase, event) == Some(Phase::Handling) <==> phase == Phase::Idle && event
            == Event::Envelope,
        phase == Phase::Handling ==> (next_phase(phase, event) is Some <==> event
            == Event::Completed || event == Event::Panicked),
        next_phase(Phase::Handling, Event::Completed) == Some(Phase::Idle),
{
}

/// Each envelope is handled at most once. In a run, a handler phase stands
/// between the idle phase that took its envelope and either the next idle
/// phase or, after a panic, the termination sequence: an envelope that was
/// taken is handled by one handler run, and no handler runs without one.
pub proof fn lemma_envelope_handled_once(phases: Seq<Phase>, i: int)
    requires
        is_run(phases),
        0 <= i < phases.len(),
        phases[i] == Phase::Handling,
    ensures
        i >= 1,
        phases[i - 1] == Phase::Idle,
        i + 1 < phases.len() ==> phases[i + 1] == Phase::Idle || phases[i + 1] == Phase::Notifying(
            ExitCause::Panicked,
        ),
{
    assert(i >= 1);
    assert(follows(phases[i - 1], phases[i - 1 + 1]));
    let e = choose|e: Event| #[trigger] next_phase(phases[i - 1], e) == Some(phases[i]);
    lemma_handlers_run_one_at_a_time(phases[i - 1], e);
    if i + 1 < phases.len() {
        assert(follows(phases[i], phases[i + 1]));
        let f = choose|f: Event| #[trigger] next_phase(phases[i], f) == Some(phases[i + 1]);
        lemma_handlers_run_one_at_a_time(phases[i], f);
    }
}

/// Panic isolation and shutdown propagation. From any phase in which user
/// code may run or the loop waits, a panic, the stop signal, the shutdown
/// signal and a closed mailbox each lead to the termination sequence, which
/// runs `stopped` and ends in `Done` with that cause after four steps.
pub proof fn lemma_every_cause_terminates(phase: Phase, event: Event)
    requires
        next_phase(phase, event) is Some,
        stage(next_phase(phase, event).unwrap()) == 2,
    ensures
        ({
            let p1 = next_phase(phase, event).unwrap();
            let cause = cause_of(p1).unwrap();
            let p2 = next_phase(p1, Event::Completed).unwrap();
            let p3 = next_phase(p2, Event::Completed).unwrap();
            &&& (event == Event::Panicked <==> cause == ExitCause::Panicked)
            &&& (event == Event::ShutdownSignal <==> cause == ExitCause::Shutdown)
            &&& (event == Event::StopSignal <==> cause == ExitCause::Stopped)
            &&& (event == Event::Closed <==> cause == ExitCause::Drained)
            &&& action_of(p1) == Action::NotifyWatchers
            &&& action_of(p2) == Action::StopChildren
            &&& action_of(p3) == Action::RunStopped
            &&& next_phase(p3, Event::Completed) == Some(Phase::Done(cause))
            &&& next_phase(p3, Event::Panicked) == Some(Phase::Done(cause))
        }),
{
}

} // verus!
