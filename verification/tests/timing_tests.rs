use visual_logger::clock::elapsed_ms;
use visual_logger::config::{
    HOTKEY_DEBOUNCE_MS, SAMPLING_PERIOD_MS, SAVE_DEBOUNCE_MS, SETTLE_DELAY_MS,
};
use visual_logger::debounce::{ChangeKind, GateDecision, SaveEventGate};
use visual_logger::hotkey::CaptureGuard;

#[test]
fn tunables_have_their_documented_values() {
    assert_eq!(SAMPLING_PERIOD_MS, 800);
    assert_eq!(SAVE_DEBOUNCE_MS, 2000);
    assert_eq!(HOTKEY_DEBOUNCE_MS, 2000);
    assert_eq!(SETTLE_DELAY_MS, 200);
}

#[test]
fn elapsed_time_saturates_at_zero() {
    assert_eq!(elapsed_ms(10, 4), 6);
    assert_eq!(elapsed_ms(4, 4), 0);
    assert_eq!(elapsed_ms(4, 10), 0);
    assert_eq!(elapsed_ms(u64::MAX, 0), u64::MAX);
}

#[test]
fn gate_is_shut_right_after_it_was_made() {
    let gate = SaveEventGate::new(SAVE_DEBOUNCE_MS, 1_000);
    assert!(!gate.admits(1_000));
    assert!(!gate.admits(2_999));
    assert!(!gate.admits(3_000));
    assert!(gate.admits(3_001));
    assert!(gate.admits(10_000));
}

#[test]
fn gate_ignores_other_kinds_of_events() {
    let gate = SaveEventGate::new(2_000, 0);
    assert_eq!(gate.decide(ChangeKind::Other, 50_000), GateDecision::Ignored);
    assert_eq!(gate.decide(ChangeKind::Other, 1), GateDecision::Ignored);
}

#[test]
fn gate_lets_creations_and_modifications_through_after_the_window() {
    let gate = SaveEventGate::new(2_000, 0);
    assert_eq!(gate.decide(ChangeKind::Create, 2_001), GateDecision::Process);
    assert_eq!(gate.decide(ChangeKind::Modify, 2_001), GateDecision::Process);
    assert_eq!(gate.decide(ChangeKind::Create, 2_000), GateDecision::TooSoon);
    assert_eq!(gate.decide(ChangeKind::Modify, 2_000), GateDecision::TooSoon);
    assert_eq!(gate.decide(ChangeKind::Create, 1_999), GateDecision::TooSoon);
    assert_eq!(gate.decide(ChangeKind::Modify, 1_999), GateDecision::TooSoon);
}

#[test]
fn deciding_does_not_move_the_gate() {
    let gate = SaveEventGate::new(2_000, 0);
    assert_eq!(gate.decide(ChangeKind::Modify, 5_000), GateDecision::Process);
    assert_eq!(gate.decide(ChangeKind::Modify, 5_001), GateDecision::Process);
    assert_eq!(gate.last_accepted, 0);
}

#[test]
fn burst_of_events_leaves_one_snapshot() {
    let mut gate = SaveEventGate::new(2_000, 0);
    let mut snapshots = 0;
    for seen_at in [10_000u64, 10_050, 10_400, 11_000, 11_999, 12_000] {
        if gate.decide(ChangeKind::Modify, seen_at) == GateDecision::Process {
            snapshots += 1;
            gate.record_accepted(seen_at + 300);
        }
    }
    assert_eq!(snapshots, 1);
    assert_eq!(gate.last_accepted, 10_300);
    assert_eq!(gate.decide(ChangeKind::Modify, 12_300), GateDecision::TooSoon);
    assert_eq!(gate.decide(ChangeKind::Modify, 12_301), GateDecision::Process);
}

#[test]
fn slow_drip_of_events_can_leave_more_than_one_snapshot() {
    let mut gate = SaveEventGate::new(2_000, 0);
    let mut snapshots = 0;
    for seen_at in [10_000u64, 11_500, 13_000] {
        if gate.decide(ChangeKind::Modify, seen_at) == GateDecision::Process {
            snapshots += 1;
            gate.record_accepted(seen_at);
        }
    }
    assert_eq!(snapshots, 2);
}

#[test]
fn gate_with_a_clock_that_ran_backwards_stays_shut() {
    let gate = SaveEventGate::new(2_000, 10_000);
    assert_eq!(gate.decide(ChangeKind::Create, 5), GateDecision::TooSoon);
}

#[test]
fn gate_without_a_window_still_asks_for_time_to_pass() {
    let gate = SaveEventGate::new(0, 10_000);
    assert!(!gate.admits(10_000));
    assert!(gate.admits(10_001));
    assert!(!gate.admits(0));
}

#[test]
fn accepted_events_lie_more_than_the_window_apart() {
    let mut gate = SaveEventGate::new(2_000, 0);
    let mut accepted = Vec::new();
    for seen_at in (0..20_000u64).step_by(500) {
        if gate.decide(ChangeKind::Create, seen_at) == GateDecision::Process {
            accepted.push(seen_at);
            gate.record_accepted(seen_at);
        }
    }
    assert_eq!(accepted, vec![2_500, 5_000, 7_500, 10_000, 12_500, 15_000, 17_500]);
    for pair in accepted.windows(2) {
        assert!(pair[1] - pair[0] > 2_000);
    }
}

#[test]
fn fresh_guard_accepts_the_first_press() {
    let mut guard = CaptureGuard::new(HOTKEY_DEBOUNCE_MS);
    assert!(!guard.is_capturing());
    assert_eq!(guard.last_capture, None);
    assert!(guard.try_begin(0));
    assert!(guard.is_capturing());
    assert_eq!(guard.last_capture, Some(0));
}

#[test]
fn guard_drops_presses_while_capturing() {
    let mut guard = CaptureGuard::new(2_000);
    assert!(guard.try_begin(1_000));
    assert!(!guard.try_begin(1_001));
    assert!(!guard.try_begin(3_000));
    assert!(!guard.try_begin(100_000));
    assert!(guard.is_capturing());
    assert_eq!(guard.last_capture, Some(1_000));
}

#[test]
fn guard_debounces_after_the_capture_has_ended() {
    let mut guard = CaptureGuard::new(2_000);
    assert!(guard.try_begin(1_000));
    guard.finish();
    assert!(!guard.is_capturing());
    assert!(!guard.try_begin(2_999));
    assert!(!guard.is_capturing());
    assert!(guard.try_begin(3_000));
    assert_eq!(guard.last_capture, Some(3_000));
}

#[test]
fn burst_of_presses_starts_exactly_one_capture() {
    let mut guard = CaptureGuard::new(2_000);
    let mut started = 0;
    for now in [5_000u64, 5_001, 5_100, 5_900, 6_999] {
        if guard.try_begin(now) {
            started += 1;
        }
    }
    assert_eq!(started, 1);
    guard.finish();
    let mut guard = CaptureGuard::new(2_000);
    let mut started = 0;
    for now in [5_000u64, 5_001, 5_100, 5_900, 6_999] {
        if guard.try_begin(now) {
            started += 1;
            guard.finish();
        }
    }
    assert_eq!(started, 1);
}

#[test]
fn finish_on_an_idle_guard_changes_nothing() {
    let mut guard = CaptureGuard::new(2_000);
    guard.finish();
    assert_eq!(guard, CaptureGuard::new(2_000));
    assert!(guard.try_begin(7));
}
