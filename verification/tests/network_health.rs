//! Demotion and readmission of link sources.

use evo_device_audio::network::health::{
    apply_probe_result, backoff_for, ProbeOutcome, SourceAdmissionState, BACKOFF_CAP, DEFAULT_PROBE_INTERVAL,
};
use evo_device_audio::network::source::LinkSourceError;

const NOW: u64 = 1_000_000;
const SECOND: u64 = 1000;

#[test]
fn backoff_schedule_climbs_then_caps() {
    assert_eq!(backoff_for(0), 30);
    assert_eq!(backoff_for(1), 60);
    assert_eq!(backoff_for(2), 120);
    assert_eq!(backoff_for(3), 300);
    assert_eq!(backoff_for(4), 900);
    assert_eq!(backoff_for(5), 3600);
    assert_eq!(backoff_for(6), 21600);
    // Past the schedule, clamps at 6 h.
    assert_eq!(backoff_for(7), 21600);
    assert_eq!(backoff_for(100), 21600);
}

#[test]
fn admitted_healthy_stays_admitted() {
    let (next, outcome) = apply_probe_result(&SourceAdmissionState::Admitted, Ok(()), NOW);
    assert!(next.is_admitted());
    assert_eq!(outcome, ProbeOutcome::StillAdmitted);
}

#[test]
fn admitted_failure_demotes_with_initial_backoff() {
    let err = LinkSourceError::Disconnected("test".into());
    let (next, outcome) = apply_probe_result(&SourceAdmissionState::Admitted, Err(err), NOW);
    assert!(!next.is_admitted());
    assert_eq!(next.failure_count(), 1);
    match &outcome {
        ProbeOutcome::Demoted { reason } => {
            assert!(reason.contains("source disconnected"));
        }
        other => panic!("expected Demoted, got {other:?}"),
    }
    // Next attempt is in 30 s.
    let SourceAdmissionState::Demoted { next_attempt_at, .. } = next else { unreachable!() };
    let gap = next_attempt_at - NOW;
    assert!(gap >= 29 * SECOND);
    assert!(gap <= 31 * SECOND);
    assert_eq!(gap, 30 * SECOND);
}

#[test]
fn demoted_success_re_admits() {
    let demoted =
        SourceAdmissionState::Demoted { reason: "old failure".into(), failure_count: 3, next_attempt_at: NOW };
    let (next, outcome) = apply_probe_result(&demoted, Ok(()), NOW);
    assert!(next.is_admitted());
    assert_eq!(outcome, ProbeOutcome::Readmitted);
}

#[test]
fn demoted_failure_escalates_backoff() {
    let demoted = SourceAdmissionState::Demoted { reason: "first".into(), failure_count: 1, next_attempt_at: NOW };
    let err = LinkSourceError::DaemonError("still down".into());
    let (next, outcome) = apply_probe_result(&demoted, Err(err), NOW);
    assert_eq!(next.failure_count(), 2);
    match &outcome {
        ProbeOutcome::StillDemoted { new_failure_count, reason } => {
            assert_eq!(*new_failure_count, 2);
            assert!(reason.contains("still down"));
        }
        other => panic!("expected StillDemoted, got {other:?}"),
    }
    // The second failure backs off for 120 s.
    let SourceAdmissionState::Demoted { next_attempt_at, .. } = next else { unreachable!() };
    let gap = next_attempt_at - NOW;
    assert!(gap >= 119 * SECOND);
    assert!(gap <= 121 * SECOND);
    assert_eq!(gap, 120 * SECOND);
}

#[test]
fn reprobe_due_respects_next_attempt_at() {
    let demoted = SourceAdmissionState::Demoted { reason: "x".into(), failure_count: 1, next_attempt_at: NOW + 10 * SECOND };
    assert!(!demoted.reprobe_due(NOW));
    assert!(demoted.reprobe_due(NOW + 10 * SECOND));
    assert!(demoted.reprobe_due(NOW + 20 * SECOND));
}

#[test]
fn admitted_state_never_indicates_reprobe_due() {
    assert!(!SourceAdmissionState::Admitted.reprobe_due(NOW));
    assert!(!SourceAdmissionState::Admitted.reprobe_due(NOW + 3600 * SECOND));
}

#[test]
fn many_consecutive_failures_clamp_at_cap() {
    let mut state = SourceAdmissionState::Admitted;
    let mut now = NOW;
    // 20 consecutive failures.
    for _ in 0..20 {
        let (next, _) = apply_probe_result(&state, Err(LinkSourceError::Silent), now);
        state = next;
        now += 60_000 * SECOND;
    }
    // Failure count tracks total failures.
    assert_eq!(state.failure_count(), 20);
    // Backoff caps at 6 h.
    let SourceAdmissionState::Demoted { next_attempt_at, .. } = state else { unreachable!() };
    let gap = next_attempt_at.saturating_sub(now);
    assert!(gap <= 6 * 60 * 60 * SECOND);
    assert_eq!(next_attempt_at - (now - 60_000 * SECOND), BACKOFF_CAP * SECOND);
}

#[test]
fn the_interval_between_probes_is_a_minute() {
    assert_eq!(DEFAULT_PROBE_INTERVAL, 60);
}

#[test]
fn a_count_of_failures_does_not_wrap() {
    let demoted = SourceAdmissionState::Demoted { reason: "x".into(), failure_count: u32::MAX, next_attempt_at: NOW };
    let (next, _) = apply_probe_result(&demoted, Err(LinkSourceError::Other("y".into())), NOW);
    assert_eq!(next.failure_count(), u32::MAX);
}
