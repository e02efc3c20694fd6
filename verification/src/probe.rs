//! The polling health probe that decides when the worker is ready.
//!
//! Readiness is one bit: a TCP connection to the fixed loopback endpoint
//! succeeds.  The host sleeps one interval, attempts one short connect and
//! feeds the outcome into `tick`, which decides whether the probe is done;
//! a concurrent stop is observed through the `cancelled` flag, within one
//! polling interval.  `await_ready_model` replays that very loop against a
//! modelled endpoint that becomes reachable at a given time, which pins the
//! probe's timing behaviour down.

use vstd::prelude::*;

verus! {

/// Loopback TCP port of the worker's liveness endpoint.
pub const WORKER_PORT: u16 = 3721;

/// Pause between two probe attempts, in milliseconds.
pub const PROBE_INTERVAL_MS: u64 = 500;

/// Per-attempt connect timeout inside the probe loop; shorter than the
/// interval so an attempt never eats into the next one.
pub const PROBE_CONNECT_TIMEOUT_MS: u64 = 200;

/// Connect timeout of a single standalone liveness check.
pub const LIVENESS_CONNECT_TIMEOUT_MS: u64 = 500;

/// Default overall bound a probe run waits for readiness.
pub const DEFAULT_READY_TIMEOUT_MS: u64 = 10000;

/// What one probe attempt decided.
#[derive(Clone, Copy, Debug, PartialEq, Eq)]
pub enum ProbeStep {
    /// The endpoint accepted the connection: the worker is ready.
    Ready,
    /// The overall bound has elapsed without a successful connection.
    TimedOut,
    /// A concurrent stop was observed; the loop must exit.
    Cancelled,
    /// Keep polling.
    Continue,
}

/// What `tick` answers, given the elapsed time after the attempt, the
/// overall bound, and the attempt's outcome.  Cancellation wins over
/// everything, then success, then the bound.
pub open spec fn spec_tick_step(
    elapsed_after: int,
    timeout_ms: int,
    connected: bool,
    cancelled: bool,
) -> ProbeStep {
    if cancelled {
        ProbeStep::Cancelled
    } else if connected {
        ProbeStep::Ready
    } else if elapsed_after >= timeout_ms {
        ProbeStep::TimedOut
    } else {
        ProbeStep::Continue
    }
}

/// The running state of one probe loop: the bound it was started with and
/// the time elapsed so far.
pub struct HealthProbe {
    timeout_ms: u64,
    elapsed_ms: u64,
}

impl HealthProbe {
    /// The overall bound of this run.
    pub closed spec fn spec_timeout_ms(&self) -> u64 {
        self.timeout_ms
    }

    /// Milliseconds elapsed since the run began.
    pub closed spec fn spec_elapsed_ms(&self) -> u64 {
        self.elapsed_ms
    }

    /// Whether another attempt may be made: only before the first attempt
    /// or while the bound has not been reached.
    pub open spec fn can_tick(&self) -> bool {
        &&& self.spec_timeout_ms() <= u64::MAX - PROBE_INTERVAL_MS
        &&& (self.spec_elapsed_ms() == 0 || self.spec_elapsed_ms() < self.spec_timeout_ms())
    }

    /// A probe run that will wait up to `timeout_ms` overall.
    pub fn new(timeout_ms: u64) -> (r: HealthProbe)
        requires
            timeout_ms <= u64::MAX - PROBE_INTERVAL_MS,
        ensures
            r.spec_timeout_ms() == timeout_ms,
            r.spec_elapsed_ms() == 0,
    {
        HealthProbe { timeout_ms, elapsed_ms: 0 }
    }

    /// Milliseconds elapsed since the run began.
    pub fn elapsed_ms(&self) -> (e: u64)
        ensures
            e == self.spec_elapsed_ms(),
    {
        self.elapsed_ms
    }

    /// Accounts one attempt: the host slept one interval, observed
    /// `cancelled` and then `connected`, and this decides how the loop goes
    /// on.  A cancellation is acted on at the very next attempt, so a stop
    /// is observed within one polling interval.
    pub fn tick(&mut self, connected: bool, cancelled: bool) -> (r: ProbeStep)
        requires
            old(self).can_tick(),
        ensures
            final(self).spec_timeout_ms() == old(self).spec_timeout_ms(),
            final(self).spec_elapsed_ms() == old(self).spec_elapsed_ms() + PROBE_INTERVAL_MS,
            r == spec_tick_step(
                old(self).spec_elapsed_ms() + PROBE_INTERVAL_MS,
                old(self).spec_timeout_ms() as int,
                connected,
                cancelled,
            ),
            cancelled ==> r is Cancelled,
    {
        self.elapsed_ms = self.elapsed_ms + PROBE_INTERVAL_MS;
        if cancelled {
            ProbeStep::Cancelled
        } else if connected {
            ProbeStep::Ready
        } else if self.elapsed_ms >= self.timeout_ms {
            ProbeStep::TimedOut
        } else {
            ProbeStep::Continue
        }
    }
}

/// The outcome of a whole probe run: whether the worker became ready, and
/// the time the run took.
#[derive(Clone, Copy, Debug, PartialEq, Eq)]
pub struct ProbeRun {
    pub ready: bool,
    pub elapsed_ms: u64,
}

/// Replays the probe loop against a modelled endpoint that becomes (and
/// stays) reachable `ready_at_ms` milliseconds after the run begins, or
/// never.  An endpoint that becomes reachable before the bound is always
/// reported ready, within one polling interval of the moment it came up; an
/// endpoint that never comes up is reported not ready, never before the
/// bound has elapsed.
pub fn await_ready_model(timeout_ms: u64, ready_at_ms: Option<u64>) -> (r: ProbeRun)
    requires
        timeout_ms <= u64::MAX - PROBE_INTERVAL_MS,
    ensures
        r.ready ==> (ready_at_ms matches Some(t) && t <= r.elapsed_ms <= t + PROBE_INTERVAL_MS),
        ready_at_ms matches Some(t) && t < timeout_ms ==> r.ready,
        !r.ready ==> r.elapsed_ms >= timeout_ms,
        ready_at_ms is None ==> !r.ready,
        r.elapsed_ms <= timeout_ms + PROBE_INTERVAL_MS,
{
    let mut probe = HealthProbe::new(timeout_ms);
    let mut became_ready: bool = false;
    loop
        invariant_except_break
            probe.spec_elapsed_ms() == 0 || (probe.spec_elapsed_ms() < timeout_ms && (
            ready_at_ms matches Some(t) ==> probe.spec_elapsed_ms() < t)),
        invariant
            probe.spec_timeout_ms() == timeout_ms,
            timeout_ms <= u64::MAX - PROBE_INTERVAL_MS,
        ensures
            probe.spec_elapsed_ms() <= timeout_ms + PROBE_INTERVAL_MS,
            became_ready ==> (ready_at_ms matches Some(t) && t <= probe.spec_elapsed_ms() <= t
                + PROBE_INTERVAL_MS),
            !became_ready ==> probe.spec_elapsed_ms() >= timeout_ms,
            !became_ready ==> (ready_at_ms matches Some(t) ==> t > timeout_ms),
        decreases timeout_ms - probe.spec_elapsed_ms(),
    {
        let after_attempt = probe.elapsed_ms() + PROBE_INTERVAL_MS;
        let connected = match ready_at_ms {
            Some(t) => after_attempt >= t,
            None => false,
        };
        let step = probe.tick(connected, false);
        match step {
            ProbeStep::Ready => {
                became_ready = true;
                break;
            },
            ProbeStep::TimedOut | ProbeStep::Cancelled => {
                became_ready = false;
                break;
            },
            ProbeStep::Continue => {},
        }
    }
    ProbeRun { ready: became_ready, elapsed_ms: probe.elapsed_ms() }
}

} // verus!
