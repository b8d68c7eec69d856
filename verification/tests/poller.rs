//! The Kubernetes context poller: snapshots and the poller's phases.

use policy_server::kube_poller::{
    ClusterSnapshot, PollerEvent, PollerPhase, PollerState, ResourceList,
    DEFAULT_MAX_CONSECUTIVE_FAILURES,
};
use policy_server::policy::Gvk;

fn snapshot(kinds: &[(&str, &[&str])]) -> ClusterSnapshot {
    ClusterSnapshot {
        resources: kinds
            .iter()
            .map(|(kind, items)| ResourceList {
                gvk: Gvk {
                    group: String::new(),
                    version: "v1".to_owned(),
                    kind: (*kind).to_owned(),
                },
                namespace: None,
                items: items.iter().map(|i| (*i).to_owned()).collect(),
            })
            .collect(),
    }
}

#[test]
fn first_successful_poll_makes_the_poller_ready() {
    let mut p = PollerState::new(DEFAULT_MAX_CONSECUTIVE_FAILURES);
    assert_eq!(p.phase, PollerPhase::Starting);
    assert!(!p.is_ready());
    assert_eq!(p.snapshot_version, 0);

    p.handle_event(PollerEvent::PollSucceeded(snapshot(&[("Pod", &["pod-a", "pod-b"])])));
    assert_eq!(p.phase, PollerPhase::Ready);
    assert!(p.is_ready());
    assert_eq!(p.snapshot_version, 1);
    let snap = p.read_snapshot();
    assert_eq!(snap.resources.len(), 1);
    assert_eq!(snap.resources[0].items, vec!["pod-a".to_owned(), "pod-b".to_owned()]);
}

#[test]
fn snapshots_are_replaced_wholesale() {
    let mut p = PollerState::new(DEFAULT_MAX_CONSECUTIVE_FAILURES);
    p.handle_event(PollerEvent::PollSucceeded(snapshot(&[
        ("Pod", &["pod-a"]),
        ("Namespace", &["default"]),
    ])));
    p.handle_event(PollerEvent::PollSucceeded(snapshot(&[("Pod", &["pod-b"])])));

    // Readers see the new snapshot entire: no list of the old one lingers.
    let snap = p.read_snapshot();
    assert_eq!(snap.resources.len(), 1);
    assert_eq!(snap.resources[0].items, vec!["pod-b".to_owned()]);
    assert_eq!(p.snapshot_version, 2);
}

#[test]
fn failed_polls_retain_the_previous_snapshot() {
    let mut p = PollerState::new(DEFAULT_MAX_CONSECUTIVE_FAILURES);
    p.handle_event(PollerEvent::PollSucceeded(snapshot(&[("Pod", &["pod-a"])])));
    p.handle_event(PollerEvent::PollFailed);
    assert_eq!(p.phase, PollerPhase::Ready);
    assert_eq!(p.read_snapshot().resources[0].items, vec!["pod-a".to_owned()]);
    assert_eq!(p.snapshot_version, 1);
    assert_eq!(p.consecutive_failures, 1);
}

#[test]
fn too_many_consecutive_failures_degrade() {
    let mut p = PollerState::new(DEFAULT_MAX_CONSECUTIVE_FAILURES);
    p.handle_event(PollerEvent::PollSucceeded(snapshot(&[("Pod", &["pod-a"])])));
    for _ in 0..4 {
        p.handle_event(PollerEvent::PollFailed);
        assert_eq!(p.phase, PollerPhase::Ready);
    }
    // The fifth consecutive failure crosses the default bound.
    p.handle_event(PollerEvent::PollFailed);
    assert_eq!(p.phase, PollerPhase::Degraded);
    assert!(!p.is_ready());
    // The snapshot is still the last good one.
    assert_eq!(p.read_snapshot().resources[0].items, vec!["pod-a".to_owned()]);

    // A success recovers and resets the count.
    p.handle_event(PollerEvent::PollSucceeded(snapshot(&[("Pod", &["pod-b"])])));
    assert_eq!(p.phase, PollerPhase::Ready);
    assert_eq!(p.consecutive_failures, 0);
}

#[test]
fn a_starting_poller_stays_starting_on_failures() {
    let mut p = PollerState::new(DEFAULT_MAX_CONSECUTIVE_FAILURES);
    for _ in 0..10 {
        p.handle_event(PollerEvent::PollFailed);
    }
    assert_eq!(p.phase, PollerPhase::Starting);
    assert!(!p.is_ready());
}

#[test]
fn stop_is_terminal() {
    let mut p = PollerState::new(DEFAULT_MAX_CONSECUTIVE_FAILURES);
    p.handle_event(PollerEvent::PollSucceeded(snapshot(&[("Pod", &["pod-a"])])));
    p.handle_event(PollerEvent::Stop);
    assert_eq!(p.phase, PollerPhase::Stopped);
    p.handle_event(PollerEvent::PollSucceeded(snapshot(&[("Pod", &["pod-b"])])));
    assert_eq!(p.phase, PollerPhase::Stopped);
    // A stopped poller's snapshot never changes.
    assert_eq!(p.read_snapshot().resources[0].items, vec!["pod-a".to_owned()]);
}
