//! Timing behaviour of the health probe.

use sidecar_supervisor::probe::{
    await_ready_model, HealthProbe, ProbeStep, DEFAULT_READY_TIMEOUT_MS,
    LIVENESS_CONNECT_TIMEOUT_MS, PROBE_CONNECT_TIMEOUT_MS, PROBE_INTERVAL_MS, WORKER_PORT,
};

#[test]
fn probe_constants_match_the_endpoint_contract() {
    assert_eq!(WORKER_PORT, 3721);
    assert_eq!(PROBE_INTERVAL_MS, 500);
    assert_eq!(DEFAULT_READY_TIMEOUT_MS, 10000);
    assert!(PROBE_CONNECT_TIMEOUT_MS < PROBE_INTERVAL_MS);
    assert_eq!(LIVENESS_CONNECT_TIMEOUT_MS, 500);
}

#[test]
fn endpoint_up_before_the_bound_is_reported_within_one_interval() {
    let run = await_ready_model(DEFAULT_READY_TIMEOUT_MS, Some(1700));
    assert!(run.ready);
    assert_eq!(run.elapsed_ms, 2000);
    assert!(1700 <= run.elapsed_ms && run.elapsed_ms <= 1700 + PROBE_INTERVAL_MS);
}

#[test]
fn endpoint_up_immediately_is_seen_at_the_first_attempt() {
    let run = await_ready_model(DEFAULT_READY_TIMEOUT_MS, Some(0));
    assert!(run.ready);
    assert_eq!(run.elapsed_ms, 500);
}

#[test]
fn endpoint_up_on_an_attempt_boundary_is_seen_on_that_attempt() {
    let run = await_ready_model(DEFAULT_READY_TIMEOUT_MS, Some(1500));
    assert!(run.ready);
    assert_eq!(run.elapsed_ms, 1500);
}

#[test]
fn endpoint_never_up_times_out_at_the_bound() {
    let run = await_ready_model(DEFAULT_READY_TIMEOUT_MS, None);
    assert!(!run.ready);
    assert_eq!(run.elapsed_ms, DEFAULT_READY_TIMEOUT_MS);
}

#[test]
fn timeout_is_never_reported_early() {
    let run = await_ready_model(10_250, None);
    assert!(!run.ready);
    assert!(run.elapsed_ms >= 10_250);
    assert_eq!(run.elapsed_ms, 10_500);
}

#[test]
fn tick_reports_ready_on_a_successful_connect() {
    let mut probe = HealthProbe::new(DEFAULT_READY_TIMEOUT_MS);
    assert_eq!(probe.tick(false, false), ProbeStep::Continue);
    assert_eq!(probe.tick(true, false), ProbeStep::Ready);
    assert_eq!(probe.elapsed_ms(), 1000);
}

#[test]
fn tick_times_out_once_the_bound_is_reached() {
    let mut probe = HealthProbe::new(1000);
    assert_eq!(probe.tick(false, false), ProbeStep::Continue);
    assert_eq!(probe.tick(false, false), ProbeStep::TimedOut);
    assert_eq!(probe.elapsed_ms(), 1000);
}

#[test]
fn tick_observes_cancellation_within_one_interval() {
    let mut probe = HealthProbe::new(DEFAULT_READY_TIMEOUT_MS);
    assert_eq!(probe.tick(false, false), ProbeStep::Continue);
    // Cancellation wins even over a successful connect on the same attempt.
    assert_eq!(probe.tick(true, true), ProbeStep::Cancelled);
    assert_eq!(probe.elapsed_ms(), 1000);
}
