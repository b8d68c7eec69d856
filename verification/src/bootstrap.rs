//! The bootstrap sequencer.
//!
//! Startup is strictly sequenced: tracing first, then every policy module
//! fetched (and verified when signature verification is on), then the
//! Kubernetes poller booted, then the worker pool booted, and only then
//! the HTTP listener bound. Kubernetes readiness probes key off the
//! listener, so binding early would draw admission traffic before the
//! workers could serve it; the sequencer makes that impossible. Any
//! failure, and any signal out of order, is fatal.

use vstd::prelude::*;

use crate::kube_poller::{poller_is_ready, PollerPhase};

verus! {

/// Where the bootstrap stands. Phases advance in declaration order;
/// `Failed` is the fatal end from which the process exits non-zero.
#[derive(Clone, Copy, PartialEq, Eq, Structural, Debug)]
pub enum BootPhase {
    /// Nothing started yet; tracing and metric exporters come first.
    Init,
    /// Exporters up; policy modules are fetched next.
    TracingReady,
    /// Every module fetched and verified; the poller boots next.
    PoliciesFetched,
    /// The poller answered its boot request; the pool boots next.
    PollerReady,
    /// Every worker signalled ready; the listener binds next.
    PoolReady,
    /// The HTTP listener is bound and serving.
    Serving,
    /// A step failed, or a subsystem signalled out of order.
    Failed,
}

/// What a bootstrap step reported.
#[derive(Clone, Copy, PartialEq, Eq, Structural, Debug)]
pub enum BootEvent {
    TracingInitialized,
    PoliciesFetched,
    PollerBootstrapped,
    PoolBootstrapped,
    ListenerBound,
    StepFailed,
}

/// The sequencer's transition function: each phase accepts exactly the
/// completion signal of its own step; everything else — a failure, or a
/// signal out of order — is fatal.
pub open spec fn boot_step(p: BootPhase, e: BootEvent) -> BootPhase {
    match (p, e) {
        (BootPhase::Init, BootEvent::TracingInitialized) => BootPhase::TracingReady,
        (BootPhase::TracingReady, BootEvent::PoliciesFetched) => BootPhase::PoliciesFetched,
        (BootPhase::PoliciesFetched, BootEvent::PollerBootstrapped) => BootPhase::PollerReady,
        (BootPhase::PollerReady, BootEvent::PoolBootstrapped) => BootPhase::PoolReady,
        (BootPhase::PoolReady, BootEvent::ListenerBound) => BootPhase::Serving,
        _ => BootPhase::Failed,
    }
}

/// The phase after a whole run of signals.
pub open spec fn boot_run(p: BootPhase, evs: Seq<BootEvent>) -> BootPhase
    decreases evs.len(),
{
    if evs.len() == 0 {
        p
    } else {
        boot_run(boot_step(p, evs[0]), evs.drop_first())
    }
}

/// A failed bootstrap never recovers.
pub proof fn lemma_failed_is_terminal(evs: Seq<BootEvent>)
    ensures
        boot_run(BootPhase::Failed, evs) == BootPhase::Failed,
    decreases evs.len(),
{
    if evs.len() > 0 {
        lemma_failed_is_terminal(evs.drop_first());
    }
}

proof fn lemma_serving_markers(p: BootPhase, evs: Seq<BootEvent>)
    requires
        boot_run(p, evs) == BootPhase::Serving,
    ensures
        p == BootPhase::PoolReady ==> exists|k: int|
            0 <= k < evs.len() && #[trigger] evs[k] == BootEvent::ListenerBound,
        p == BootPhase::PollerReady ==> exists|j: int, k: int|
            0 <= j < k < evs.len() && #[trigger] evs[j] == BootEvent::PoolBootstrapped
                && #[trigger] evs[k] == BootEvent::ListenerBound,
        (p == BootPhase::Init || p == BootPhase::TracingReady || p == BootPhase::PoliciesFetched)
            ==> exists|i: int, j: int, k: int|
            0 <= i < j < k < evs.len() && #[trigger] evs[i] == BootEvent::PollerBootstrapped
                && #[trigger] evs[j] == BootEvent::PoolBootstrapped && #[trigger] evs[k]
                == BootEvent::ListenerBound,
    decreases evs.len(),
{
    if p == BootPhase::Failed {
        lemma_failed_is_terminal(evs);
    } else if evs.len() > 0 {
        let p2 = boot_step(p, evs[0]);
        let rest = evs.drop_first();
        if p2 == BootPhase::Failed {
            lemma_failed_is_terminal(rest);
        } else {
            lemma_serving_markers(p2, rest);
            assert(forall|k: int| 0 <= k < rest.len() ==> #[trigger] rest[k] == evs[k + 1]);
            if p == BootPhase::PollerReady {
                let k0 = choose|k: int|
                    0 <= k < rest.len() && #[trigger] rest[k] == BootEvent::ListenerBound;
                assert(evs[0] == BootEvent::PoolBootstrapped && evs[k0 + 1]
                    == BootEvent::ListenerBound);
            } else if p == BootPhase::PoliciesFetched {
                let (j0, k0) = choose|j: int, k: int|
                    0 <= j < k < rest.len() && #[trigger] rest[j] == BootEvent::PoolBootstrapped
                        && #[trigger] rest[k] == BootEvent::ListenerBound;
                assert(evs[0] == BootEvent::PollerBootstrapped && evs[j0 + 1]
                    == BootEvent::PoolBootstrapped && evs[k0 + 1] == BootEvent::ListenerBound);
            } else if p == BootPhase::Init || p == BootPhase::TracingReady {
                let (i0, j0, k0) = choose|i: int, j: int, k: int|
                    0 <= i < j < k < rest.len() && #[trigger] rest[i]
                        == BootEvent::PollerBootstrapped && #[trigger] rest[j]
                        == BootEvent::PoolBootstrapped && #[trigger] rest[k]
                        == BootEvent::ListenerBound;
                assert(evs[i0 + 1] == BootEvent::PollerBootstrapped && evs[j0 + 1]
                    == BootEvent::PoolBootstrapped && evs[k0 + 1] == BootEvent::ListenerBound);
            }
        }
    }
}

/// Startup ordering: if a bootstrap run from scratch ends serving, then
/// the poller signalled ready, the pool signalled ready strictly after it,
/// and the HTTP listener was bound strictly after both — the port never
/// accepts connections before poller and pool are ready.
pub proof fn lemma_startup_ordering(evs: Seq<BootEvent>)
    requires
        boot_run(BootPhase::Init, evs) == BootPhase::Serving,
    ensures
        exists|i: int, j: int, k: int|
            0 <= i < j < k < evs.len() && #[trigger] evs[i] == BootEvent::PollerBootstrapped
                && #[trigger] evs[j] == BootEvent::PoolBootstrapped && #[trigger] evs[k]
                == BootEvent::ListenerBound,
{
    lemma_serving_markers(BootPhase::Init, evs);
}

/// The bootstrap sequencer as it runs: the current phase.
pub struct BootSequencer {
    pub phase: BootPhase,
}

impl BootSequencer {
    /// A sequencer with nothing started.
    pub fn new() -> (r: BootSequencer)
        ensures
            r.phase == BootPhase::Init,
    {
        BootSequencer { phase: BootPhase::Init }
    }

    /// Advances on one step's signal.
    pub fn handle_event(&mut self, e: BootEvent)
        ensures
            final(self).phase == boot_step(old(self).phase, e),
    {
        self.phase = match (self.phase, e) {
            (BootPhase::Init, BootEvent::TracingInitialized) => BootPhase::TracingReady,
            (BootPhase::TracingReady, BootEvent::PoliciesFetched) => BootPhase::PoliciesFetched,
            (BootPhase::PoliciesFetched, BootEvent::PollerBootstrapped) => BootPhase::PollerReady,
            (BootPhase::PollerReady, BootEvent::PoolBootstrapped) => BootPhase::PoolReady,
            (BootPhase::PoolReady, BootEvent::ListenerBound) => BootPhase::Serving,
            _ => BootPhase::Failed,
        };
    }

    /// Whether the HTTP listener may be bound now: exactly in `PoolReady`,
    /// when poller and pool have both signalled ready.
    pub fn may_bind_listener(&self) -> (r: bool)
        ensures
            r == (self.phase == BootPhase::PoolReady),
    {
        match self.phase {
            BootPhase::PoolReady => true,
            _ => false,
        }
    }

    /// Whether bootstrap has completed: what `GET /readiness` reports.
    pub fn is_serving(&self) -> (r: bool)
        ensures
            r == (self.phase == BootPhase::Serving),
    {
        match self.phase {
            BootPhase::Serving => true,
            _ => false,
        }
    }

    /// What `GET /readiness` answers: healthy exactly when bootstrap has
    /// completed and the poller is neither starting nor degraded.
    pub fn readiness_ok(&self, poller_phase: PollerPhase) -> (r: bool)
        ensures
            r == (self.phase == BootPhase::Serving && poller_is_ready(poller_phase)),
    {
        let serving = match self.phase {
            BootPhase::Serving => true,
            _ => false,
        };
        let poller_healthy = match poller_phase {
            PollerPhase::Ready => true,
            _ => false,
        };
        serving && poller_healthy
    }

    /// Whether bootstrap failed fatally: the process exits non-zero.
    pub fn is_failed(&self) -> (r: bool)
        ensures
            r == (self.phase == BootPhase::Failed),
    {
        match self.phase {
            BootPhase::Failed => true,
            _ => false,
        }
    }
}

} // verus!
