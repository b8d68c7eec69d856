//! End-to-end scenarios for the evaluation pipeline: how raw module
//! outcomes become admission responses under each mode.

use policy_server::metrics::PolicyMetrics;
use policy_server::policy::PolicyMode;
use policy_server::response::{
    normalize_patch_type, post_process, EvaluationResponse, RawOutcome, ResponseStatus,
};

fn module_response(
    allowed: bool,
    patch: Option<Vec<u8>>,
    patch_type: Option<String>,
    message: Option<&str>,
) -> EvaluationResponse {
    EvaluationResponse {
        allowed,
        patch,
        patch_type,
        status: message.map(|m| ResponseStatus { code: None, message: m.to_owned() }),
        audit_annotations: Vec::new(),
    }
}

#[test]
fn allow_in_protect_mode() {
    // A non-privileged Pod passes the pod-privileged policy.
    let raw = RawOutcome::Evaluated(module_response(true, None, None, None));
    let r = post_process(PolicyMode::Protect, false, raw);
    assert!(r.allowed);
    assert!(r.patch.is_none());
    assert!(r.patch_type.is_none());
}

#[test]
fn deny_in_protect_mode() {
    // A privileged Pod is rejected, with the policy's message surfaced.
    let raw = RawOutcome::Evaluated(module_response(
        false,
        None,
        None,
        Some("Privileged container is not allowed"),
    ));
    let r = post_process(PolicyMode::Protect, false, raw);
    assert!(!r.allowed);
    assert!(r.patch.is_none());
    let status = r.status.expect("a deny must carry a status");
    assert!(!status.message.is_empty());
    assert_eq!(status.message, "Privileged container is not allowed");
}

#[test]
fn monitor_downgrade() {
    // The same deny in monitor mode is surfaced as an allow, with the
    // real decision recorded in an audit annotation.
    let raw = RawOutcome::Evaluated(module_response(
        false,
        None,
        None,
        Some("Privileged container is not allowed"),
    ));
    let r = post_process(PolicyMode::Monitor, false, raw);
    assert!(r.allowed);
    assert!(r.patch.is_none());
    assert!(r
        .audit_annotations
        .iter()
        .any(|(k, v)| k == "kubewarden.policy.decision" && v == "deny"));
}

#[test]
fn mutation_passes_when_allowed() {
    // The raw-mutation policy replaces a forbidden resource name with the
    // configured default; the patch passes through untouched for a policy
    // allowed to mutate. (Base64 encoding is the HTTP layer's business.)
    let patch = br#"[{"op":"replace","path":"/request/object/name","value":"hay"}]"#.to_vec();
    let raw = RawOutcome::Evaluated(module_response(
        true,
        Some(patch.clone()),
        None,
        None,
    ));
    let r = normalize_patch_type(post_process(PolicyMode::Protect, true, raw));
    assert!(r.allowed);
    assert_eq!(r.patch.as_deref(), Some(patch.as_slice()));
    assert_eq!(r.patch_type.as_deref(), Some("JSONPatch"));
}

#[test]
fn no_patch_means_no_patch_type() {
    let raw = RawOutcome::Evaluated(module_response(
        true,
        None,
        Some("JSONPatch".to_owned()),
        None,
    ));
    let r = normalize_patch_type(post_process(PolicyMode::Protect, true, raw));
    assert!(r.patch.is_none());
    assert!(r.patch_type.is_none());
}

#[test]
fn mutation_gated_without_the_right() {
    // The same patch from a policy not allowed to mutate fails the request.
    let patch = br#"[{"op":"remove","path":"/spec"}]"#.to_vec();
    let raw = RawOutcome::Evaluated(module_response(
        true,
        Some(patch),
        Some("JSONPatch".to_owned()),
        None,
    ));
    let r = post_process(PolicyMode::Protect, false, raw);
    assert!(!r.allowed);
    assert!(r.patch.is_none());
    assert!(r.patch_type.is_none());
    let status = r.status.expect("a misbehaving policy's failure carries a status");
    assert_eq!(
        status.message,
        "policy returned a patch but is not allowed to mutate requests"
    );
}

#[test]
fn monitor_never_mutates_even_with_the_right() {
    // Monitor mode discards patches regardless of the mutation right.
    let patch = br#"[{"op":"remove","path":"/spec"}]"#.to_vec();
    let raw = RawOutcome::Evaluated(module_response(
        true,
        Some(patch),
        Some("JSONPatch".to_owned()),
        None,
    ));
    let r = post_process(PolicyMode::Monitor, true, raw);
    assert!(r.allowed);
    assert!(r.patch.is_none());
    assert!(r.patch_type.is_none());
}

#[test]
fn deadline_denies_in_protect_and_counts() {
    // The sleep policy outlives its 2s evaluation limit: the request is
    // denied with a timeout reason and the deadline counter grows.
    let r = post_process(PolicyMode::Protect, false, RawOutcome::DeadlineExceeded);
    assert!(!r.allowed);
    assert!(r.patch.is_none());
    let status = r.status.expect("a deadline deny carries a status");
    assert!(status.message.contains("timed out"));

    let mut m = PolicyMetrics::new();
    m.record_evaluation(&RawOutcome::DeadlineExceeded);
    assert_eq!(m.deadlines_total, 1);
    assert_eq!(m.error_total, 1);
    assert_eq!(m.allow_total, 0);
    assert_eq!(m.deny_total, 0);
}

#[test]
fn runtime_trap_in_monitor_mode_is_annotated() {
    let raw = RawOutcome::RuntimeTrap("wasm trap: out of bounds".to_owned());
    let r = post_process(PolicyMode::Monitor, false, raw);
    assert!(r.allowed);
    assert!(r.status.is_none());
    assert!(r
        .audit_annotations
        .iter()
        .any(|(k, v)| k == "kubewarden.policy.decision" && v == "error"));
    assert!(r
        .audit_annotations
        .iter()
        .any(|(k, v)| k == "kubewarden.policy.error" && v == "wasm trap: out of bounds"));
}

#[test]
fn a_closed_channel_is_answered_with_503() {
    let r = policy_server::response::service_unavailable_response();
    assert!(!r.allowed);
    let status = r.status.expect("the failure carries a status");
    assert_eq!(status.code, Some(503));
    assert_eq!(status.message, "service unavailable");
}

#[test]
fn metrics_count_each_outcome_once() {
    let mut m = PolicyMetrics::new();
    m.record_evaluation(&RawOutcome::Evaluated(module_response(true, None, None, None)));
    m.record_evaluation(&RawOutcome::Evaluated(module_response(false, None, None, None)));
    m.record_evaluation(&RawOutcome::RuntimeTrap("trap".to_owned()));
    assert_eq!(m.allow_total, 1);
    assert_eq!(m.deny_total, 1);
    assert_eq!(m.error_total, 1);
    assert_eq!(m.deadlines_total, 0);
}
