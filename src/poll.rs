//! Decisions of the background worker that polls the remote player.
//!
//! The worker alternates between fetching the remote state and waiting for a
//! shutdown signal. `poll_step` decides, from the current phase and what just
//! happened, the next phase and what to do next; the thread that runs the
//! worker performs each action and reports its outcome as the next event.
use vstd::prelude::*;

use crate::model::Model;

verus! {

/// How long the worker waits for a shutdown signal between two fetches.
pub const POLL_INTERVAL_MS: u64 = 1000;

/// Where the worker stands.
#[derive(PartialEq, Eq, Structural, Clone, Copy, Debug)]
pub enum PollPhase {
    /// A fetch is under way.
    Fetching,
    /// Waiting, at most `POLL_INTERVAL_MS`, for a shutdown signal.
    Waiting,
    /// Shut down: nothing more is fetched or sent.
    Stopped,
}

/// The outcome of the last action.
pub enum PollEvent {
    /// The fetch gave this model.
    Fetched(Model),
    /// The fetch failed (network or parse error).
    FetchFailed,
    /// The wait ended with no shutdown signal.
    TimedOut,
    /// A shutdown signal arrived.
    ShutdownRequested,
    /// The shutdown channel was closed.
    ShutdownClosed,
}

/// What the worker does next.
pub enum PollAction {
    /// Fetch the remote state.
    Fetch,
    /// Hand the model to the render thread, then wait.
    Deliver(Model),
    /// Wait for a shutdown signal.
    Wait,
    /// Leave the loop.
    Exit,
}

/// One transition. Events that the phase does not expect leave it as it is
/// and repeat what it waits on.
pub open spec fn next(phase: PollPhase, event: PollEvent) -> (PollPhase, PollAction) {
    match phase {
        PollPhase::Fetching => match event {
            PollEvent::Fetched(m) => (PollPhase::Waiting, PollAction::Deliver(m)),
            PollEvent::FetchFailed => (PollPhase::Waiting, PollAction::Wait),
            _ => (PollPhase::Fetching, PollAction::Fetch),
        },
        PollPhase::Waiting => match event {
            PollEvent::TimedOut => (PollPhase::Fetching, PollAction::Fetch),
            PollEvent::ShutdownRequested => (PollPhase::Stopped, PollAction::Exit),
            PollEvent::ShutdownClosed => (PollPhase::Stopped, PollAction::Exit),
            _ => (PollPhase::Waiting, PollAction::Wait),
        },
        PollPhase::Stopped => (PollPhase::Stopped, PollAction::Exit),
    }
}

/// The phase reached and the actions taken over a sequence of events.
pub open spec fn run(phase: PollPhase, events: Seq<PollEvent>) -> (PollPhase, Seq<PollAction>)
    decreases events.len(),
{
    if events.len() == 0 {
        (phase, Seq::empty())
    } else {
        let (p, a) = next(phase, events[0]);
        let (q, rest) = run(p, events.drop_first());
        (q, seq![a] + rest)
    }
}

/// The models handed to the render thread by a sequence of actions.
pub open spec fn delivered(actions: Seq<PollAction>) -> Seq<Model>
    decreases actions.len(),
{
    if actions.len() == 0 {
        Seq::empty()
    } else {
        let rest = delivered(actions.drop_first());
        match actions[0] {
            PollAction::Deliver(m) => seq![m] + rest,
            _ => rest,
        }
    }
}

/// `k` failed fetches, each followed by a quiet wait, then a fetch that gives `m`.
pub open spec fn retries_then_success(k: nat, m: Model) -> Seq<PollEvent>
    decreases k,
{
    if k == 0 {
        seq![PollEvent::Fetched(m)]
    } else {
        seq![PollEvent::FetchFailed, PollEvent::TimedOut] + retries_then_success((k - 1) as nat, m)
    }
}

/// Decides the worker's next phase and action.
pub fn poll_step(phase: PollPhase, event: PollEvent) -> (r: (PollPhase, PollAction))
    ensures
        r == next(phase, event),
{
    match phase {
        PollPhase::Fetching => match event {
            PollEvent::Fetched(m) => (PollPhase::Waiting, PollAction::Deliver(m)),
            PollEvent::FetchFailed => (PollPhase::Waiting, PollAction::Wait),
            _ => (PollPhase::Fetching, PollAction::Fetch),
        },
        PollPhase::Waiting => match event {
            PollEvent::TimedOut => (PollPhase::Fetching, PollAction::Fetch),
            PollEvent::ShutdownRequested => (PollPhase::Stopped, PollAction::Exit),
            PollEvent::ShutdownClosed => (PollPhase::Stopped, PollAction::Exit),
            _ => (PollPhase::Waiting, PollAction::Wait),
        },
        PollPhase::Stopped => (PollPhase::Stopped, PollAction::Exit),
    }
}

/// Any number of failed fetches followed by one success hands exactly one
/// model to the render thread, the successful one; the worker never stops on
/// a failure and goes on to wait after each attempt.
pub proof fn lemma_failures_then_one_delivery(k: nat, m: Model)
    ensures
        run(PollPhase::Fetching, retries_then_success(k, m)).0 == PollPhase::Waiting,
        delivered(run(PollPhase::Fetching, retries_then_success(k, m)).1) == seq![m],
        forall|i: int|
            0 <= i < run(PollPhase::Fetching, retries_then_success(k, m)).1.len() ==> !(
            #[trigger] run(PollPhase::Fetching, retries_then_success(k, m)).1[i] is Exit),
    decreases k,
{
    let evs = retries_then_success(k, m);
    if k == 0 {
        assert(evs[0] == PollEvent::Fetched(m));
        assert(evs.drop_first() =~= Seq::<PollEvent>::empty());
        assert(run(PollPhase::Waiting, evs.drop_first()) == (PollPhase::Waiting, Seq::<PollAction>::empty()));
        let acts = run(PollPhase::Fetching, evs).1;
        assert(acts =~= seq![PollAction::Deliver(m)]);
        assert(acts.drop_first() =~= Seq::<PollAction>::empty());
        assert(delivered(acts.drop_first()) == Seq::<Model>::empty());
        assert(delivered(acts) =~= seq![m]);
    } else {
        let rest = retries_then_success((k - 1) as nat, m);
        lemma_failures_then_one_delivery((k - 1) as nat, m);
        let mid = seq![PollEvent::TimedOut] + rest;
        assert(evs == seq![PollEvent::FetchFailed] + mid);
        assert(evs[0] == PollEvent::FetchFailed);
        assert(evs.drop_first() =~= mid);
        assert(mid[0] == PollEvent::TimedOut);
        assert(mid.drop_first() =~= rest);
        let tail = run(PollPhase::Fetching, rest).1;
        let mid_acts = run(PollPhase::Waiting, mid).1;
        assert(run(PollPhase::Waiting, mid).0 == PollPhase::Waiting);
        assert(mid_acts =~= seq![PollAction::Fetch] + tail);
        let acts = run(PollPhase::Fetching, evs).1;
        assert(acts =~= seq![PollAction::Wait] + mid_acts);
        assert(acts.drop_first() =~= mid_acts);
        assert(mid_acts.drop_first() =~= tail);
        assert(delivered(mid_acts) == delivered(tail));
        assert(delivered(acts) == delivered(mid_acts));
        assert forall|i: int| 0 <= i < acts.len() implies !(#[trigger] acts[i] is Exit) by {
            if i >= 2 {
                assert(acts[i] == tail[i - 2]);
            }
        }
    }
}

/// Once stopped, the worker stays stopped and hands nothing more to the
/// render thread, whatever happens.
pub proof fn lemma_stopped_sends_nothing(events: Seq<PollEvent>)
    ensures
        run(PollPhase::Stopped, events).0 == PollPhase::Stopped,
        delivered(run(PollPhase::Stopped, events).1).len() == 0,
    decreases events.len(),
{
    if events.len() > 0 {
        lemma_stopped_sends_nothing(events.drop_first());
        let tail = run(PollPhase::Stopped, events.drop_first()).1;
        assert((seq![PollAction::Exit] + tail).drop_first() =~= tail);
    }
}

/// A shutdown signal, or the closing of its channel, ends the wait it
/// arrives in: the worker stops at once, the wait lasting at most
/// `POLL_INTERVAL_MS`, and hands nothing more to the render thread.
pub proof fn lemma_shutdown_stops(closed: bool, later: Seq<PollEvent>)
    ensures
        ({
            let signal = if closed { PollEvent::ShutdownClosed } else { PollEvent::ShutdownRequested };
            &&& next(PollPhase::Waiting, signal) == (PollPhase::Stopped, PollAction::Exit)
            &&& run(PollPhase::Waiting, seq![signal] + later).0 == PollPhase::Stopped
            &&& delivered(run(PollPhase::Waiting, seq![signal] + later).1).len() == 0
        }),
{
    let signal = if closed { PollEvent::ShutdownClosed } else { PollEvent::ShutdownRequested };
    let evs = seq![signal] + later;
    assert(evs.drop_first() =~= later);
    lemma_stopped_sends_nothing(later);
    let tail = run(PollPhase::Stopped, later).1;
    assert((seq![PollAction::Exit] + tail).drop_first() =~= tail);
}

} // verus!
