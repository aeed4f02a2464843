use bac_bot::check::{check_stock, FetchOutcome};
use bac_bot::cycle::{step, LoopEvent, LoopState, COOLDOWN_SECS, POLL_INTERVAL_SECS};
use bac_bot::payload::expected_response;
use bac_bot::NotificationNeeded;

#[test]
fn timing_constants_match_the_design() {
    assert_eq!(POLL_INTERVAL_SECS, 20);
    assert_eq!(COOLDOWN_SECS, 120);
}

#[test]
fn successful_checks_keep_the_loop_polling() {
    let mut state = LoopState::Polling;
    for _ in 0..3 {
        state = step(state, LoopEvent::Checked { result: Ok(()) });
        assert!(matches!(state, LoopState::Polling));
    }
}

#[test]
fn transport_refusal_sleeps_and_repolls() {
    let baseline = expected_response();
    let outcome = FetchOutcome::Transport { detail: String::from("connection refused") };
    let notification = check_stock(outcome, &baseline).err().unwrap();
    assert!(!notification.fatal);
    let state = step(LoopState::Polling, LoopEvent::Checked { result: Err(notification) });
    assert!(matches!(state, LoopState::Notifying { .. }));
    let state = step(state, LoopEvent::Delivery { delivered: true });
    assert!(matches!(state, LoopState::Sleeping));
    let state = step(state, LoopEvent::Slept);
    assert!(matches!(state, LoopState::Polling));
}

#[test]
fn undelivered_fatal_notification_retries_instead_of_terminating() {
    let pending = NotificationNeeded { content: String::from("schema changed"), fatal: true };
    let state = step(LoopState::Notifying { pending }, LoopEvent::Delivery { delivered: false });
    assert!(matches!(state, LoopState::Sleeping));
    let state = step(state, LoopEvent::Slept);
    assert!(matches!(state, LoopState::Polling));
}

#[test]
fn delivered_fatal_notification_terminates() {
    let pending = NotificationNeeded { content: String::from("schema changed"), fatal: true };
    let state = step(LoopState::Notifying { pending }, LoopEvent::Delivery { delivered: true });
    assert!(matches!(state, LoopState::Terminated));
}

#[test]
fn delivered_non_fatal_notification_sleeps() {
    let pending = NotificationNeeded { content: String::from("Status code 429"), fatal: false };
    let state = step(LoopState::Notifying { pending }, LoopEvent::Delivery { delivered: true });
    assert!(matches!(state, LoopState::Sleeping));
}
