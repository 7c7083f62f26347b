use clicker_data_collector::clicker_controller::{ClickerController, MeasureProcessState};
use clicker_data_collector::clicker_interface::MeasureResult;
use clicker_data_collector::measure::MeasureSession;

#[test]
fn warm_up_sample_is_discarded() {
    let mut s = MeasureSession::new(3);
    let r = s.on_reading(0, MeasureResult::Rk(100));
    assert!(r.is_none());
    assert_eq!(s.sample_count(), 0);
}

#[test]
fn same_mode_readings_before_first_switch_are_discarded() {
    let mut s = MeasureSession::new(3);
    assert!(s.on_reading(0, MeasureResult::Rk(100)).is_none());
    assert!(s.on_reading(1, MeasureResult::Rk(101)).is_none());
    assert!(s.on_reading(2, MeasureResult::Rk(102)).is_none());
    assert_eq!(s.sample_count(), 0);
    assert!(!s.is_done());
}

#[test]
fn alternating_readings_finish_after_twice_the_cycles() {
    // With one configured cycle and a tag switch on every reading, the
    // session finishes exactly at the second switch after the warm-up
    // sample, and never before.
    let mut s = MeasureSession::new(1);
    assert!(s.on_reading(0, MeasureResult::Rk(10)).is_none());
    let first = s.on_reading(1, MeasureResult::Freq(20)).unwrap();
    assert_eq!(first.state, MeasureProcessState::Running);
    assert!(!s.is_done());
    let second = s.on_reading(2, MeasureResult::Rk(30)).unwrap();
    assert_eq!(second.state, MeasureProcessState::Finished);
    assert!(s.is_done());
    assert_eq!(second.freqs, vec![20]);
    assert_eq!(second.rks, vec![30]);
}

#[test]
fn alternating_readings_two_cycles() {
    let mut s = MeasureSession::new(2);
    assert!(s.on_reading(0, MeasureResult::Freq(1)).is_none());
    let mut states = Vec::new();
    for (i, r) in [
        MeasureResult::Rk(2),
        MeasureResult::Freq(3),
        MeasureResult::Rk(4),
        MeasureResult::Freq(5),
    ]
    .into_iter()
    .enumerate()
    {
        let stat = s.on_reading(1 + i as i64, r).unwrap();
        states.push(stat.state);
    }
    assert_eq!(
        states,
        vec![
            MeasureProcessState::Running,
            MeasureProcessState::Running,
            MeasureProcessState::Running,
            MeasureProcessState::Finished,
        ]
    );
    assert!(s.is_done());
}

#[test]
fn statistics_follow_the_accumulated_samples() {
    let mut s = MeasureSession::new(5);
    assert!(s.on_reading(0, MeasureResult::Rk(7)).is_none());
    let stat = s.on_reading(1, MeasureResult::Freq(40)).unwrap();
    assert_eq!(stat.freqs, vec![40]);
    assert!(stat.rks.is_empty());
    let f = stat.freqs_avg.unwrap();
    assert_eq!(f.median_x4, 160);
    assert_eq!(f.iqr_x4, 0);
    assert!(stat.rks_avg.is_none());

    let stat2 = s.on_reading(2, MeasureResult::Rk(10)).unwrap();
    assert_eq!(stat2.freqs, vec![40]);
    assert_eq!(stat2.rks, vec![10]);
    assert!(stat2.rks_avg.is_some());
}

#[test]
fn cancellation_publishes_interrupted_and_ends_the_session() {
    // After the session is running, an interrupt makes the next (and last)
    // published status Interrupted; the session is done and is fed nothing
    // further.
    let mut s = MeasureSession::new(3);
    assert!(s.on_reading(0, MeasureResult::Rk(1)).is_none());
    let running = s.on_reading(1, MeasureResult::Freq(2)).unwrap();
    assert_eq!(running.state, MeasureProcessState::Running);
    let last = s.on_interrupt(2);
    assert_eq!(last.state, MeasureProcessState::Interrupted);
    assert_eq!(last.freqs, vec![2]);
    assert!(last.rks.is_empty());
    assert!(s.is_done());
}

#[test]
fn interrupt_before_any_sample() {
    let mut s = MeasureSession::new(1);
    let last = s.on_interrupt(0);
    assert_eq!(last.state, MeasureProcessState::Interrupted);
    assert!(last.freqs.is_empty());
    assert!(last.rks.is_empty());
    assert!(last.freqs_avg.is_none());
    assert!(last.rks_avg.is_none());
    assert!(s.is_done());
}

#[test]
fn start_conflicts_with_running_session() {
    // Starting while the current session is Running (or still Idle) fails
    // and changes nothing; after it settles, starting succeeds again.
    let mut c = ClickerController::new(3);
    assert!(c.start_mesure().is_ok());
    assert_eq!(c.measure_status(), Some(MeasureProcessState::Idle));
    assert!(c.start_mesure().is_err());

    c.note_status(MeasureProcessState::Running);
    assert!(c.start_mesure().is_err());
    assert_eq!(c.measure_status(), Some(MeasureProcessState::Running));

    c.note_status(MeasureProcessState::Finished);
    assert!(c.start_mesure().is_ok());
}

#[test]
fn interrupt_clears_the_controller() {
    let mut c = ClickerController::new(2);
    let _session = c.start_mesure().unwrap();
    c.note_status(MeasureProcessState::Running);
    c.interrupt_mesure();
    assert_eq!(c.measure_status(), None);
    assert!(c.start_mesure().is_ok());
}

#[test]
fn started_session_runs_for_the_configured_cycles() {
    let mut c = ClickerController::new(1);
    let mut s = c.start_mesure().unwrap();
    assert!(s.on_reading(0, MeasureResult::Freq(1)).is_none());
    assert!(!s.is_done());
    s.on_reading(1, MeasureResult::Rk(2)).unwrap();
    let last = s.on_reading(2, MeasureResult::Freq(3)).unwrap();
    assert_eq!(last.state, MeasureProcessState::Finished);
}
