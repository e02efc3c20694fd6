//! The idempotent start/stop state machine of the worker lifecycle.
//!
//! The host serializes every call below through one exclusive lock, so each
//! function describes the whole effect of one critical section.  The slow
//! outside work — checking the endpoint, resolving, spawning, probing,
//! killing — happens between the calls, and its outcome is fed back in as a
//! plain value.  `start_gate` folds the "already reachable or already
//! registered" check and the reservation of the launch into one step, so
//! racing starts can never both proceed to a spawn.

use vstd::prelude::*;
use crate::launcher::WorkerHandle;
use crate::registry::ServiceRegistry;

verus! {

/// Where the supervisor stands in the worker's lifecycle.
#[derive(Clone, Copy, Debug, PartialEq, Eq)]
pub enum SupervisorState {
    /// No worker and no launch under way.
    Idle,
    /// A launch was admitted; spawn or health probe still pending.
    Launching,
    /// The health probe has succeeded since the last launch.
    Ready,
    /// Termination issued, process exit still awaited.
    Stopping,
}

/// Abstract supervisor state: the lifecycle phase and the registered
/// worker, if any.
pub struct SupervisorView {
    pub state: SupervisorState,
    pub worker: Option<WorkerHandle>,
}

/// What a start request was answered with.
#[derive(Clone, Copy, Debug, PartialEq, Eq)]
pub enum StartGate {
    /// This caller won the right to resolve, spawn and install.
    Proceed,
    /// The worker is reachable, registered, or being handled already.
    AlreadyRunning,
}

/// What became of a freshly spawned worker offered to the supervisor.
#[derive(Debug)]
pub enum InstallOutcome {
    /// The handle is now registered; the launch goes on to the probe.
    Installed,
    /// The supervisor no longer expects this launch (a stop intervened);
    /// the handle comes back so the caller can terminate the orphan.
    Rejected(WorkerHandle),
}

/// How the supervisor acknowledged the end of a health-probe run.
#[derive(Clone, Copy, Debug, PartialEq, Eq)]
pub enum ProbeVerdict {
    /// The probe succeeded and the worker is now considered ready.
    Confirmed,
    /// The probe timed out; the handle stays registered, the caller is
    /// merely informed.
    Unconfirmed,
    /// The launch the probe belonged to is gone; nothing was changed.
    Cancelled,
}

/// What a stop request obliges the host to do.
#[derive(Debug)]
pub enum StopAction {
    /// Nothing was registered; no OS call is to be attempted.
    NoOp,
    /// Terminate this worker, then report back with `stop_finished`.
    Terminate(WorkerHandle),
}

/// Whether a start request is admitted: only with the endpoint unreachable,
/// no launch under way and nothing registered.
pub open spec fn gate_allows(v: SupervisorView, endpoint_reachable: bool) -> bool {
    !endpoint_reachable && v.state is Idle && v.worker is None
}

/// The supervisor state after a start request.
pub open spec fn gate_next(v: SupervisorView, endpoint_reachable: bool) -> SupervisorView {
    if gate_allows(v, endpoint_reachable) {
        SupervisorView { state: SupervisorState::Launching, worker: v.worker }
    } else {
        v
    }
}

/// Whether a spawned worker may be installed: only for the launch that was
/// admitted and is still wanted.
pub open spec fn attach_allows(v: SupervisorView) -> bool {
    v.state is Launching && v.worker is None
}

/// The supervisor state after a spawned worker is offered.
pub open spec fn attach_next(v: SupervisorView, h: WorkerHandle) -> SupervisorView {
    if attach_allows(v) {
        SupervisorView { state: SupervisorState::Launching, worker: Some(h) }
    } else {
        v
    }
}

/// Whether a finished probe still belongs to a live launch.
pub open spec fn probe_applies(v: SupervisorView) -> bool {
    v.state is Launching && v.worker is Some
}

/// The supervisor state after a probe run ends: only a successful probe of
/// a live launch moves the supervisor to `Ready`.
pub open spec fn probe_next(v: SupervisorView, became_ready: bool) -> SupervisorView {
    if probe_applies(v) && became_ready {
        SupervisorView { state: SupervisorState::Ready, worker: v.worker }
    } else {
        v
    }
}

/// The verdict a finished probe run is answered with.
pub open spec fn probe_verdict(v: SupervisorView, became_ready: bool) -> ProbeVerdict {
    if probe_applies(v) {
        if became_ready {
            ProbeVerdict::Confirmed
        } else {
            ProbeVerdict::Unconfirmed
        }
    } else {
        ProbeVerdict::Cancelled
    }
}

/// The supervisor state after a stop request: the registry is cleared
/// unconditionally, and stopping is legal in every state.
pub open spec fn stop_next(v: SupervisorView) -> SupervisorView {
    SupervisorView {
        state: if v.worker is Some {
            SupervisorState::Stopping
        } else {
            SupervisorState::Idle
        },
        worker: None,
    }
}

/// The supervisor state after a failed launch attempt is abandoned.
pub open spec fn abort_next(v: SupervisorView) -> SupervisorView {
    if v.state is Launching && v.worker is None {
        SupervisorView { state: SupervisorState::Idle, worker: v.worker }
    } else {
        v
    }
}

/// Serializes the worker lifecycle: admits at most one launch at a time and
/// owns the registry holding the single worker handle.
pub struct Supervisor {
    state: SupervisorState,
    registry: ServiceRegistry,
}

impl View for Supervisor {
    type V = SupervisorView;

    closed spec fn view(&self) -> SupervisorView {
        SupervisorView { state: self.state, worker: self.registry.spec_handle() }
    }
}

impl Supervisor {
    /// A fresh supervisor: idle, nothing registered.
    pub fn new() -> (r: Supervisor)
        ensures
            r@.state is Idle,
            r@.worker is None,
    {
        Supervisor { state: SupervisorState::Idle, registry: ServiceRegistry::new() }
    }

    /// The current lifecycle phase.
    pub fn current_state(&self) -> (s: SupervisorState)
        ensures
            s == self@.state,
    {
        self.state
    }

    /// Whether a worker handle is registered.
    pub fn has_worker(&self) -> (b: bool)
        ensures
            b == (self@.worker is Some),
    {
        self.registry.is_present()
    }

    /// Answers a start request.  `endpoint_reachable` is the host's fresh
    /// liveness check.  While the worker is reachable, or a launch is under
    /// way, or a handle is registered, the answer is `AlreadyRunning` and
    /// nothing changes; otherwise exactly this caller is admitted and the
    /// launch is reserved, so a racing start cannot proceed as well.
    pub fn start_gate(&mut self, endpoint_reachable: bool) -> (g: StartGate)
        ensures
            final(self)@ == gate_next(old(self)@, endpoint_reachable),
            g is Proceed <==> gate_allows(old(self)@, endpoint_reachable),
            endpoint_reachable ==> g is AlreadyRunning,
    {
        if !endpoint_reachable && matches!(self.state, SupervisorState::Idle)
            && !self.registry.is_present() {
            self.state = SupervisorState::Launching;
            StartGate::Proceed
        } else {
            StartGate::AlreadyRunning
        }
    }

    /// Abandons an admitted launch that failed before a worker existed
    /// (no artifact found, or the spawn itself failed).
    pub fn abort_launch(&mut self)
        ensures
            final(self)@ == abort_next(old(self)@),
    {
        if matches!(self.state, SupervisorState::Launching) && !self.registry.is_present() {
            self.state = SupervisorState::Idle;
        }
    }

    /// Offers the freshly spawned worker for registration.  Installed only
    /// for the launch that is still wanted; if a stop intervened since the
    /// gate, the handle is returned so the caller terminates the orphan
    /// rather than re-installing after the registry was cleared.
    pub fn attach_worker(&mut self, h: WorkerHandle) -> (r: InstallOutcome)
        ensures
            final(self)@ == attach_next(old(self)@, h),
            r is Installed <==> attach_allows(old(self)@),
            r matches InstallOutcome::Rejected(back) ==> back == h,
    {
        if matches!(self.state, SupervisorState::Launching) {
            match self.registry.put(h) {
                Ok(()) => InstallOutcome::Installed,
                Err(back) => InstallOutcome::Rejected(back),
            }
        } else {
            InstallOutcome::Rejected(h)
        }
    }

    /// Acknowledges the end of a health-probe run.  Only a successful probe
    /// of the still-registered launch confirms readiness; a timeout leaves
    /// the handle registered and merely informs the caller; and a probe
    /// whose launch is gone is cancelled without touching anything.
    pub fn probe_finished(&mut self, became_ready: bool) -> (r: ProbeVerdict)
        ensures
            final(self)@ == probe_next(old(self)@, became_ready),
            r == probe_verdict(old(self)@, became_ready),
    {
        if matches!(self.state, SupervisorState::Launching) && self.registry.is_present() {
            if became_ready {
                self.state = SupervisorState::Ready;
                ProbeVerdict::Confirmed
            } else {
                ProbeVerdict::Unconfirmed
            }
        } else {
            ProbeVerdict::Cancelled
        }
    }

    /// Answers a stop request.  With nothing registered the answer is
    /// `NoOp` and no OS call is to be attempted; otherwise the handle is
    /// removed and handed out for termination.  Either way the registry
    /// ends empty, and stopping is legal in every state.
    pub fn stop_take(&mut self) -> (a: StopAction)
        ensures
            final(self)@ == stop_next(old(self)@),
            old(self)@.worker is None ==> a is NoOp,
            old(self)@.worker matches Some(h) ==> a == StopAction::Terminate(h),
    {
        match self.registry.take() {
            None => {
                self.state = SupervisorState::Idle;
                StopAction::NoOp
            },
            Some(h) => {
                self.state = SupervisorState::Stopping;
                StopAction::Terminate(h)
            },
        }
    }

    /// Reports that the termination issued by `stop_take` has completed
    /// (or was given up on): the supervisor returns to idle.
    pub fn stop_finished(&mut self)
        ensures
            final(self)@.worker == old(self)@.worker,
            final(self)@.state == (if old(self)@.state is Stopping {
                SupervisorState::Idle
            } else {
                old(self)@.state
            }),
    {
        if matches!(self.state, SupervisorState::Stopping) {
            self.state = SupervisorState::Idle;
        }
    }
}

/// How many of a sequence of start requests are admitted, when they are
/// answered one after the other (as the exclusive lock serializes them);
/// `reachable[k]` is the liveness answer the `k`-th request saw.
pub open spec fn gate_admit_count(v: SupervisorView, reachable: Seq<bool>) -> nat
    decreases reachable.len(),
{
    if reachable.len() == 0 {
        0
    } else {
        (if gate_allows(v, reachable[0]) {
            1nat
        } else {
            0nat
        }) + gate_admit_count(gate_next(v, reachable[0]), reachable.drop_first())
    }
}

/// While the worker is reachable, a start request is always answered
/// `AlreadyRunning` and the supervisor is left exactly as it was, so
/// repeated starts against a reachable worker never spawn.
pub proof fn lemma_reachable_start_is_noop(v: SupervisorView)
    ensures
        !gate_allows(v, true),
        gate_next(v, true) == v,
{
}

/// A run of start requests that all saw the worker reachable admits none
/// of them.
pub proof fn lemma_reachable_starts_admit_none(v: SupervisorView, reachable: Seq<bool>)
    requires
        forall|k: int| 0 <= k < reachable.len() ==> reachable[k],
    ensures
        gate_admit_count(v, reachable) == 0,
    decreases reachable.len(),
{
    if reachable.len() > 0 {
        lemma_reachable_starts_admit_none(gate_next(v, reachable[0]), reachable.drop_first());
    }
}

/// No run of start requests is ever admitted from a supervisor that is not
/// idle and empty: a spawn can only be won from the idle state.
pub proof fn lemma_busy_supervisor_admits_none(v: SupervisorView, reachable: Seq<bool>)
    requires
        !(v.state is Idle && v.worker is None),
    ensures
        gate_admit_count(v, reachable) == 0,
    decreases reachable.len(),
{
    if reachable.len() > 0 {
        lemma_busy_supervisor_admits_none(gate_next(v, reachable[0]), reachable.drop_first());
    }
}

/// Among any serialized run of start requests, at most one is admitted:
/// concurrent starts can never lead to two spawns.
pub proof fn lemma_at_most_one_start_admitted(v: SupervisorView, reachable: Seq<bool>)
    ensures
        gate_admit_count(v, reachable) <= 1,
    decreases reachable.len(),
{
    if reachable.len() > 0 {
        if gate_allows(v, reachable[0]) {
            lemma_busy_supervisor_admits_none(gate_next(v, reachable[0]), reachable.drop_first());
        } else {
            lemma_at_most_one_start_admitted(gate_next(v, reachable[0]), reachable.drop_first());
        }
    }
}

/// Concurrent starts against an unreachable endpoint and a fresh
/// supervisor: exactly one request is admitted (and so spawns); every other
/// is answered `AlreadyRunning`.
pub proof fn lemma_exactly_one_start_admitted(v: SupervisorView, reachable: Seq<bool>)
    requires
        v.state is Idle,
        v.worker is None,
        reachable.len() >= 1,
        forall|k: int| 0 <= k < reachable.len() ==> !reachable[k],
    ensures
        gate_admit_count(v, reachable) == 1,
{
    assert(gate_allows(v, reachable[0]));
    lemma_busy_supervisor_admits_none(gate_next(v, reachable[0]), reachable.drop_first());
}

/// A stop issued while a health probe is in flight: the registry is empty
/// from the stop on, the probe run is answered `Cancelled` however it went,
/// no handle reappears, and the interrupted launch cannot re-install its
/// worker after the registry was cleared.
pub proof fn lemma_stop_cancels_pending_probe(v: SupervisorView, became_ready: bool)
    ensures
        stop_next(v).worker is None,
        probe_verdict(stop_next(v), became_ready) is Cancelled,
        probe_next(stop_next(v), became_ready).worker is None,
        !attach_allows(stop_next(v)),
{
}

} // verus!
