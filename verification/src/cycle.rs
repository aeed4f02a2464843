//! The polling loop's state machine: the states the orchestration moves
//! through and the transition on each cycle's event. The loop terminates
//! exactly when a fatal notification has been delivered.

use vstd::prelude::*;
use crate::NotificationNeeded;

verus! {

/// Seconds between rate-limiter admissions: at most one poll per interval.
pub const POLL_INTERVAL_SECS: u64 = 20;

/// Seconds the loop sleeps after a failure cycle before re-polling.
pub const COOLDOWN_SECS: u64 = 120;

/// The states of the polling loop.
pub enum LoopState {
    /// Waiting on the rate limiter, then running the stock checker.
    Polling,
    /// A check produced a notification that must now be delivered.
    Notifying { pending: NotificationNeeded },
    /// Backing off for the cooldown before re-polling.
    Sleeping,
    /// The loop has ended: a fatal condition was reported successfully.
    Terminated,
}

/// What happened during the current state's activity.
pub enum LoopEvent {
    /// The stock checker ran (valid while polling).
    Checked { result: Result<(), NotificationNeeded> },
    /// A delivery of the pending notification was attempted (valid while
    /// notifying).
    Delivery { delivered: bool },
    /// The cooldown elapsed (valid while sleeping).
    Slept,
}

/// Which events can happen in which states.
pub open spec fn spec_event_fits(state: LoopState, event: LoopEvent) -> bool {
    match (state, event) {
        (LoopState::Polling, LoopEvent::Checked { .. }) => true,
        (LoopState::Notifying { .. }, LoopEvent::Delivery { .. }) => true,
        (LoopState::Sleeping, LoopEvent::Slept) => true,
        _ => false,
    }
}

/// The transition table: a successful check keeps polling; a failed check
/// moves to notifying; a delivered fatal notification terminates the loop;
/// any other delivery outcome moves to the cooldown sleep, after which
/// polling resumes.
pub open spec fn spec_step(state: LoopState, event: LoopEvent) -> LoopState {
    match (state, event) {
        (LoopState::Polling, LoopEvent::Checked { result }) => match result {
            Ok(_) => LoopState::Polling,
            Err(n) => LoopState::Notifying { pending: n },
        },
        (LoopState::Notifying { pending }, LoopEvent::Delivery { delivered }) => if delivered
            && pending.fatal {
            LoopState::Terminated
        } else {
            LoopState::Sleeping
        },
        (LoopState::Sleeping, LoopEvent::Slept) => LoopState::Polling,
        (s, _) => s,
    }
}

/// Performs one transition of the polling loop.
pub fn step(state: LoopState, event: LoopEvent) -> (r: LoopState)
    requires
        spec_event_fits(state, event),
    ensures
        r == spec_step(state, event),
        // Only the delivery of a fatal notification ends the loop.
        r is Terminated <==> ({
            &&& state matches LoopState::Notifying { pending } && pending.fatal
            &&& event matches LoopEvent::Delivery { delivered: true }
        }),
        // An undelivered notification, or a delivered non-fatal one, is
        // followed by the cooldown, never by termination.
        state matches LoopState::Notifying { pending } && event matches LoopEvent::Delivery {
            delivered,
        } && !(delivered && pending.fatal) ==> r is Sleeping,
{
    match (state, event) {
        (LoopState::Polling, LoopEvent::Checked { result }) => match result {
            Ok(_) => LoopState::Polling,
            Err(n) => LoopState::Notifying { pending: n },
        },
        (LoopState::Notifying { pending }, LoopEvent::Delivery { delivered }) => {
            if delivered && pending.fatal {
                LoopState::Terminated
            } else {
                LoopState::Sleeping
            }
        },
        (LoopState::Sleeping, LoopEvent::Slept) => LoopState::Polling,
        (s, _) => s,
    }
}

/// The state after a whole run of events, applied in order.
pub open spec fn spec_run(state: LoopState, events: Seq<LoopEvent>) -> LoopState
    decreases events.len(),
{
    if events.len() == 0 {
        state
    } else {
        spec_run(spec_step(state, events[0]), events.drop_first())
    }
}

/// Law: however many cycles run, as long as every one of them finds the check
/// succeeding (the page still equals the baseline), the loop stays polling —
/// it never notifies, sleeps or terminates.
pub proof fn lemma_steady_polling(events: Seq<LoopEvent>)
    requires
        forall|i: int|
            0 <= i < events.len() ==> (#[trigger] events[i]) matches LoopEvent::Checked {
                result: Ok(_),
            },
    ensures
        spec_run(LoopState::Polling, events) == LoopState::Polling,
    decreases events.len(),
{
    if events.len() > 0 {
        assert(events[0] matches LoopEvent::Checked { result: Ok(_) });
        assert(spec_step(LoopState::Polling, events[0]) == LoopState::Polling);
        assert(forall|i: int|
            0 <= i < events.drop_first().len() ==> (#[trigger] events.drop_first()[i])
                matches LoopEvent::Checked { result: Ok(_) });
        lemma_steady_polling(events.drop_first());
    }
}

} // verus!
