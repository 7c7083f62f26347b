use clicker_data_collector::clicker_controller::MeasureResult as TimestampedReading;
use clicker_data_collector::clicker_interface::MeasureResult;
use clicker_data_collector::fake_clicker::fake_mode_is_rk;
use clicker_data_collector::poller::{PollAction, PollerState, MAX_POLL_FAILURES};

#[test]
fn two_failures_then_success_publishes_once() {
    // Two transient failures stay below the threshold of three; the
    // following success publishes one reading and resets the counter.
    let mut p = PollerState::new();
    assert_eq!(p.on_read(0, None), PollAction::Retry);
    assert_eq!(p.on_read(1, None), PollAction::Retry);
    let action = p.on_read(2, Some(MeasureResult::Rk(42)));
    assert_eq!(
        action,
        PollAction::Publish(TimestampedReading { timestamp: 2, result: MeasureResult::Rk(42) })
    );
    assert_eq!(p.fails, 0);
}

#[test]
fn three_consecutive_failures_are_fatal_exactly_once() {
    let mut p = PollerState::new();
    let mut actions = Vec::new();
    for i in 0..MAX_POLL_FAILURES {
        actions.push(p.on_read(i as i64, None));
    }
    assert_eq!(actions, vec![PollAction::Retry, PollAction::Retry, PollAction::Fatal]);
    assert_eq!(p.fails, MAX_POLL_FAILURES);
}

#[test]
fn success_resets_the_failure_counter() {
    let mut p = PollerState::new();
    assert_eq!(p.on_read(0, None), PollAction::Retry);
    assert_eq!(p.on_read(1, None), PollAction::Retry);
    assert!(matches!(p.on_read(2, Some(MeasureResult::Freq(7))), PollAction::Publish(_)));
    // The streak starts over: two more failures are still recoverable.
    assert_eq!(p.on_read(3, None), PollAction::Retry);
    assert_eq!(p.on_read(4, None), PollAction::Retry);
}

#[test]
fn published_reading_carries_timestamp_and_value() {
    let mut p = PollerState::new();
    match p.on_read(99, Some(MeasureResult::Freq(32760))) {
        PollAction::Publish(r) => {
            assert_eq!(r.timestamp, 99);
            assert_eq!(r.result, MeasureResult::Freq(32760));
        }
        other => panic!("expected a publish, got {:?}", other),
    }
}

#[test]
fn simulated_device_alternates_by_half_cycle() {
    // One-second half-cycles: Rk during the first second, Freq during the
    // next, and so on.
    assert!(fake_mode_is_rk(0, 1));
    assert!(!fake_mode_is_rk(1, 1));
    assert!(fake_mode_is_rk(2, 1));
    assert!(!fake_mode_is_rk(3, 1));
    // Five-second half-cycles.
    assert!(fake_mode_is_rk(4, 5));
    assert!(!fake_mode_is_rk(5, 5));
    assert!(!fake_mode_is_rk(9, 5));
    assert!(fake_mode_is_rk(10, 5));
}
