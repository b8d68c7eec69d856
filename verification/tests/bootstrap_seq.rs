//! The bootstrap sequencer: strict startup ordering.

use policy_server::bootstrap::{BootEvent, BootPhase, BootSequencer};
use policy_server::kube_poller::PollerPhase;

#[test]
fn readiness_needs_serving_and_a_healthy_poller() {
    let mut s = BootSequencer::new();
    assert!(!s.readiness_ok(PollerPhase::Ready));
    s.handle_event(BootEvent::TracingInitialized);
    s.handle_event(BootEvent::PoliciesFetched);
    s.handle_event(BootEvent::PollerBootstrapped);
    s.handle_event(BootEvent::PoolBootstrapped);
    s.handle_event(BootEvent::ListenerBound);
    assert!(s.readiness_ok(PollerPhase::Ready));
    // A degraded poller degrades readiness too.
    assert!(!s.readiness_ok(PollerPhase::Degraded));
    assert!(!s.readiness_ok(PollerPhase::Stopped));
}

#[test]
fn the_happy_path_reaches_serving_in_order() {
    let mut s = BootSequencer::new();
    assert_eq!(s.phase, BootPhase::Init);
    assert!(!s.may_bind_listener());

    s.handle_event(BootEvent::TracingInitialized);
    assert_eq!(s.phase, BootPhase::TracingReady);
    s.handle_event(BootEvent::PoliciesFetched);
    assert_eq!(s.phase, BootPhase::PoliciesFetched);
    assert!(!s.may_bind_listener());

    s.handle_event(BootEvent::PollerBootstrapped);
    assert_eq!(s.phase, BootPhase::PollerReady);
    // The pool is not ready yet: the listener must wait.
    assert!(!s.may_bind_listener());

    s.handle_event(BootEvent::PoolBootstrapped);
    assert_eq!(s.phase, BootPhase::PoolReady);
    // Only now, with poller and pool both ready, may the port open.
    assert!(s.may_bind_listener());
    assert!(!s.is_serving());

    s.handle_event(BootEvent::ListenerBound);
    assert_eq!(s.phase, BootPhase::Serving);
    assert!(s.is_serving());
}

#[test]
fn binding_early_is_fatal() {
    let mut s = BootSequencer::new();
    s.handle_event(BootEvent::TracingInitialized);
    s.handle_event(BootEvent::PoliciesFetched);
    // The listener reports bound before the poller and pool are up: a
    // sequencing bug, and the sequencer refuses to serve.
    s.handle_event(BootEvent::ListenerBound);
    assert_eq!(s.phase, BootPhase::Failed);
    assert!(s.is_failed());
    assert!(!s.is_serving());
}

#[test]
fn any_step_failure_is_fatal_and_terminal() {
    let mut s = BootSequencer::new();
    s.handle_event(BootEvent::TracingInitialized);
    s.handle_event(BootEvent::StepFailed);
    assert_eq!(s.phase, BootPhase::Failed);
    // Nothing recovers a failed bootstrap.
    s.handle_event(BootEvent::PoliciesFetched);
    s.handle_event(BootEvent::PollerBootstrapped);
    s.handle_event(BootEvent::PoolBootstrapped);
    s.handle_event(BootEvent::ListenerBound);
    assert_eq!(s.phase, BootPhase::Failed);
}

#[test]
fn the_pool_cannot_come_up_before_the_poller() {
    // Context-aware policies read the snapshot from their first call, so
    // the pool's boot signal before the poller's is out of order.
    let mut s = BootSequencer::new();
    s.handle_event(BootEvent::TracingInitialized);
    s.handle_event(BootEvent::PoliciesFetched);
    s.handle_event(BootEvent::PoolBootstrapped);
    assert_eq!(s.phase, BootPhase::Failed);
}
