//! Evaluation responses and their post-processing.
//!
//! A raw outcome produced by a sandboxed policy module is turned into the
//! admission response sent back to the API server. Post-processing applies
//! the two gates the server guarantees regardless of what the module did:
//! mutation gating (a patch from a policy that is not allowed to mutate
//! fails the request) and monitor-mode downgrade (denies become allows that
//! carry an audit annotation, and patches are discarded).

use vstd::prelude::*;

use crate::policy::PolicyMode;

verus! {

/// Status carried inside an admission response, mirroring the Kubernetes
/// `status` object: a code and a human-readable message.
pub struct ResponseStatus {
    pub code: Option<u16>,
    pub message: String,
}

/// Mathematical model of a [`ResponseStatus`].
#[verifier::ext_equal]
pub struct StatusModel {
    pub code: Option<u16>,
    pub message: Seq<char>,
}

impl View for ResponseStatus {
    type V = StatusModel;

    open spec fn view(&self) -> StatusModel {
        StatusModel { code: self.code, message: self.message@ }
    }
}

/// The decision travelling back to the HTTP surface for one admission
/// request: allow or deny, an optional JSON-patch mutation, an optional
/// status, and audit annotations.
pub struct EvaluationResponse {
    pub allowed: bool,
    pub patch: Option<Vec<u8>>,
    pub patch_type: Option<String>,
    pub status: Option<ResponseStatus>,
    pub audit_annotations: Vec<(String, String)>,
}

/// Mathematical model of an [`EvaluationResponse`].
#[verifier::ext_equal]
pub struct ResponseModel {
    pub allowed: bool,
    pub patch: Option<Seq<u8>>,
    pub patch_type: Option<Seq<char>>,
    pub status: Option<StatusModel>,
    pub audit_annotations: Seq<(Seq<char>, Seq<char>)>,
}

impl View for EvaluationResponse {
    type V = ResponseModel;

    open spec fn view(&self) -> ResponseModel {
        ResponseModel {
            allowed: self.allowed,
            patch: match self.patch {
                Some(p) => Some(p@),
                None => None,
            },
            patch_type: match self.patch_type {
                Some(t) => Some(t@),
                None => None,
            },
            status: match self.status {
                Some(s) => Some(s@),
                None => None,
            },
            audit_annotations: annotations_view(self.audit_annotations@),
        }
    }
}

/// View of a list of audit annotations as a sequence of key/value pairs.
pub open spec fn annotations_view(v: Seq<(String, String)>) -> Seq<(Seq<char>, Seq<char>)> {
    v.map_values(|kv: (String, String)| (kv.0@, kv.1@))
}

/// What a sandboxed policy module handed back for one admission request,
/// before the server's own gates are applied: a response, a trap raised
/// inside the sandbox, or a missed evaluation deadline.
pub enum RawOutcome {
    Evaluated(EvaluationResponse),
    RuntimeTrap(String),
    DeadlineExceeded,
}

/// Mathematical model of a [`RawOutcome`].
#[verifier::ext_equal]
pub enum RawOutcomeModel {
    Evaluated(ResponseModel),
    RuntimeTrap(Seq<char>),
    DeadlineExceeded,
}

impl View for RawOutcome {
    type V = RawOutcomeModel;

    open spec fn view(&self) -> RawOutcomeModel {
        match self {
            RawOutcome::Evaluated(r) => RawOutcomeModel::Evaluated(r@),
            RawOutcome::RuntimeTrap(m) => RawOutcomeModel::RuntimeTrap(m@),
            RawOutcome::DeadlineExceeded => RawOutcomeModel::DeadlineExceeded,
        }
    }
}

/// Message attached to a request failed because its policy mutated without
/// being allowed to.
pub open spec fn misbehavior_message() -> Seq<char> {
    "policy returned a patch but is not allowed to mutate requests"@
}

/// Message attached to a request failed because evaluation hit its deadline.
pub open spec fn deadline_message() -> Seq<char> {
    "policy evaluation timed out: deadline exceeded"@
}

/// Message attached to a request naming a policy the server does not hold.
pub open spec fn not_found_message() -> Seq<char> {
    "policy not found"@
}

/// Audit annotation key under which monitor mode records the decision the
/// policy really took.
pub open spec fn decision_annotation_key() -> Seq<char> {
    "kubewarden.policy.decision"@
}

/// Audit annotation key under which monitor mode records an evaluation
/// error's message.
pub open spec fn error_annotation_key() -> Seq<char> {
    "kubewarden.policy.error"@
}

/// Annotation value recorded when the policy denied the request.
pub open spec fn deny_decision() -> Seq<char> {
    "deny"@
}

/// Annotation value recorded when evaluation failed outright.
pub open spec fn error_decision() -> Seq<char> {
    "error"@
}

/// Status code used for requests failed by the server's own gates.
pub const MISBEHAVIOR_CODE: u16 = 500;

/// Status code used for evaluation errors (traps and missed deadlines).
pub const EVALUATION_ERROR_CODE: u16 = 500;

/// Status code used when the named policy is not in the policy set.
pub const NOT_FOUND_CODE: u16 = 404;

/// Status code used when the evaluation channel has closed under a
/// request: the service is shutting down or overwhelmed.
pub const SERVICE_UNAVAILABLE_CODE: u16 = 503;

/// Message attached to a request the evaluation channel could not carry.
pub open spec fn service_unavailable_message() -> Seq<char> {
    "service unavailable"@
}

/// The response for a request whose reply will never come because the
/// evaluation channel closed: what the HTTP surface answers with 503.
pub open spec fn service_unavailable_outcome() -> ResponseModel {
    ResponseModel {
        allowed: false,
        patch: None,
        patch_type: None,
        status: Some(
            StatusModel { code: Some(SERVICE_UNAVAILABLE_CODE), message: service_unavailable_message() },
        ),
        audit_annotations: Seq::empty(),
    }
}

/// Builds the response for a request the closed evaluation channel could
/// not carry.
pub fn service_unavailable_response() -> (r: EvaluationResponse)
    ensures
        r@ == service_unavailable_outcome(),
{
    let r = EvaluationResponse {
        allowed: false,
        patch: None,
        patch_type: None,
        status: Some(ResponseStatus {
            code: Some(SERVICE_UNAVAILABLE_CODE),
            message: "service unavailable".to_owned(),
        }),
        audit_annotations: Vec::new(),
    };
    proof {
        assert(r@ =~~= service_unavailable_outcome());
    }
    r
}

/// The mutation gate: a response carrying a patch from a policy that is not
/// allowed to mutate is replaced by a failure; every other response passes
/// through unchanged.
pub open spec fn mutation_gated(allowed_to_mutate: bool, r: ResponseModel) -> ResponseModel {
    if r.patch is Some && !allowed_to_mutate {
        ResponseModel {
            allowed: false,
            patch: None,
            patch_type: None,
            status: Some(StatusModel { code: Some(MISBEHAVIOR_CODE), message: misbehavior_message() }),
            audit_annotations: r.audit_annotations,
        }
    } else {
        r
    }
}

/// The monitor-mode downgrade: in `Monitor` mode every response is surfaced
/// as an allow without a patch, and a deny is recorded in an audit
/// annotation; in `Protect` mode the response passes through unchanged.
pub open spec fn mode_applied(mode: PolicyMode, r: ResponseModel) -> ResponseModel {
    if mode is Monitor {
        ResponseModel {
            allowed: true,
            patch: None,
            patch_type: None,
            status: r.status,
            audit_annotations: if r.allowed {
                r.audit_annotations
            } else {
                r.audit_annotations.push((decision_annotation_key(), deny_decision()))
            },
        }
    } else {
        r
    }
}

/// The response produced when evaluation itself failed (a trap or a missed
/// deadline): a deny in `Protect` mode, an annotated allow in `Monitor`
/// mode.
pub open spec fn error_outcome(mode: PolicyMode, message: Seq<char>) -> ResponseModel {
    if mode is Protect {
        ResponseModel {
            allowed: false,
            patch: None,
            patch_type: None,
            status: Some(StatusModel { code: Some(EVALUATION_ERROR_CODE), message }),
            audit_annotations: Seq::empty(),
        }
    } else {
        ResponseModel {
            allowed: true,
            patch: None,
            patch_type: None,
            status: None,
            audit_annotations: seq![
                (decision_annotation_key(), error_decision()),
                (error_annotation_key(), message),
            ],
        }
    }
}

/// The whole post-processing pipeline on a raw module outcome: evaluation
/// failures become [`error_outcome`]; responses pass the mutation gate and
/// then the mode downgrade.
pub open spec fn post_processed(
    mode: PolicyMode,
    allowed_to_mutate: bool,
    raw: RawOutcomeModel,
) -> ResponseModel {
    match raw {
        RawOutcomeModel::Evaluated(r) => mode_applied(mode, mutation_gated(allowed_to_mutate, r)),
        RawOutcomeModel::RuntimeTrap(m) => error_outcome(mode, m),
        RawOutcomeModel::DeadlineExceeded => error_outcome(mode, deadline_message()),
    }
}

/// The response for a request naming a policy the server does not hold.
pub open spec fn not_found_outcome() -> ResponseModel {
    ResponseModel {
        allowed: false,
        patch: None,
        patch_type: None,
        status: Some(StatusModel { code: Some(NOT_FOUND_CODE), message: not_found_message() }),
        audit_annotations: Seq::empty(),
    }
}

fn misbehavior_message_text() -> (r: String)
    ensures
        r@ == misbehavior_message(),
{
    "policy returned a patch but is not allowed to mutate requests".to_owned()
}

fn deadline_message_text() -> (r: String)
    ensures
        r@ == deadline_message(),
{
    "policy evaluation timed out: deadline exceeded".to_owned()
}

fn not_found_message_text() -> (r: String)
    ensures
        r@ == not_found_message(),
{
    "policy not found".to_owned()
}

fn decision_annotation_key_text() -> (r: String)
    ensures
        r@ == decision_annotation_key(),
{
    "kubewarden.policy.decision".to_owned()
}

fn error_annotation_key_text() -> (r: String)
    ensures
        r@ == error_annotation_key(),
{
    "kubewarden.policy.error".to_owned()
}

fn deny_decision_text() -> (r: String)
    ensures
        r@ == deny_decision(),
{
    "deny".to_owned()
}

fn error_decision_text() -> (r: String)
    ensures
        r@ == error_decision(),
{
    "error".to_owned()
}

/// Applies the mutation gate to one module response.
pub fn gate_mutation(allowed_to_mutate: bool, resp: EvaluationResponse) -> (r: EvaluationResponse)
    ensures
        r@ == mutation_gated(allowed_to_mutate, resp@),
{
    if resp.patch.is_some() && !allowed_to_mutate {
        let ghost orig = resp@;
        let r = EvaluationResponse {
            allowed: false,
            patch: None,
            patch_type: None,
            status: Some(ResponseStatus {
                code: Some(MISBEHAVIOR_CODE),
                message: misbehavior_message_text(),
            }),
            audit_annotations: resp.audit_annotations,
        };
        proof {
            assert(r@ =~~= mutation_gated(allowed_to_mutate, orig));
        }
        r
    } else {
        resp
    }
}

/// Applies the monitor-mode downgrade to one gated response.
pub fn apply_mode(mode: PolicyMode, resp: EvaluationResponse) -> (r: EvaluationResponse)
    ensures
        r@ == mode_applied(mode, resp@),
{
    match mode {
        PolicyMode::Protect => resp,
        PolicyMode::Monitor => {
            let ghost orig = resp@;
            let allowed = resp.allowed;
            let status = resp.status;
            let mut audit_annotations = resp.audit_annotations;
            if !allowed {
                audit_annotations.push((decision_annotation_key_text(), deny_decision_text()));
            }
            let r = EvaluationResponse {
                allowed: true,
                patch: None,
                patch_type: None,
                status,
                audit_annotations,
            };
            proof {
                assert(r@.audit_annotations =~~= mode_applied(mode, orig).audit_annotations);
                assert(r@ =~~= mode_applied(mode, orig));
            }
            r
        },
    }
}

/// Builds the response for an evaluation failure carrying `message`.
pub fn error_response(mode: PolicyMode, message: String) -> (r: EvaluationResponse)
    ensures
        r@ == error_outcome(mode, message@),
{
    match mode {
        PolicyMode::Protect => {
            let r = EvaluationResponse {
                allowed: false,
                patch: None,
                patch_type: None,
                status: Some(ResponseStatus { code: Some(EVALUATION_ERROR_CODE), message }),
                audit_annotations: Vec::new(),
            };
            proof {
                assert(r@ =~~= error_outcome(mode, message@));
            }
            r
        },
        PolicyMode::Monitor => {
            let mut audit_annotations: Vec<(String, String)> = Vec::new();
            audit_annotations.push((decision_annotation_key_text(), error_decision_text()));
            audit_annotations.push((error_annotation_key_text(), message));
            let r = EvaluationResponse {
                allowed: true,
                patch: None,
                patch_type: None,
                status: None,
                audit_annotations,
            };
            proof {
                assert(r@ =~~= error_outcome(mode, message@));
            }
            r
        },
    }
}

/// Builds the response for a request naming an unknown policy.
pub fn policy_not_found_response() -> (r: EvaluationResponse)
    ensures
        r@ == not_found_outcome(),
{
    let r = EvaluationResponse {
        allowed: false,
        patch: None,
        patch_type: None,
        status: Some(ResponseStatus { code: Some(NOT_FOUND_CODE), message: not_found_message_text() }),
        audit_annotations: Vec::new(),
    };
    proof {
        assert(r@ =~~= not_found_outcome());
    }
    r
}

/// Turns the raw outcome of one sandboxed evaluation into the admission
/// response the server sends back, applying the mutation gate and the
/// monitor-mode downgrade.
pub fn post_process(mode: PolicyMode, allowed_to_mutate: bool, raw: RawOutcome) -> (r:
    EvaluationResponse)
    ensures
        r@ == post_processed(mode, allowed_to_mutate, raw@),
        mode == PolicyMode::Monitor ==> r@.patch is None && r@.allowed,
        !allowed_to_mutate ==> r@.patch is None,
{
    proof {
        lemma_monitor_never_mutates(allowed_to_mutate, raw@);
        lemma_mutation_gating(mode, allowed_to_mutate, raw@);
    }
    match raw {
        RawOutcome::Evaluated(resp) => {
            let gated = gate_mutation(allowed_to_mutate, resp);
            apply_mode(mode, gated)
        },
        RawOutcome::RuntimeTrap(msg) => error_response(mode, msg),
        RawOutcome::DeadlineExceeded => error_response(mode, deadline_message_text()),
    }
}

/// The patch type admission reviews carry for JSON-patch mutations.
pub open spec fn json_patch_type() -> Seq<char> {
    "JSONPatch"@
}

/// A response as the HTTP surface serializes it: a patch always travels
/// under the patch type `JSONPatch`, and without a patch no patch type
/// travels at all.
pub open spec fn patch_type_normalized(r: ResponseModel) -> ResponseModel {
    ResponseModel {
        patch_type: if r.patch is Some {
            Some(json_patch_type())
        } else {
            None
        },
        ..r
    }
}

/// Normalizes the patch type before serialization: `JSONPatch` exactly
/// when a patch is present.
pub fn normalize_patch_type(resp: EvaluationResponse) -> (r: EvaluationResponse)
    ensures
        r@ == patch_type_normalized(resp@),
{
    let ghost orig = resp@;
    let EvaluationResponse { allowed, patch, patch_type: _, status, audit_annotations } = resp;
    let patch_type: Option<String> = if patch.is_some() {
        Some("JSONPatch".to_owned())
    } else {
        None
    };
    let r = EvaluationResponse { allowed, patch, patch_type, status, audit_annotations };
    proof {
        assert(r@ =~~= patch_type_normalized(orig));
    }
    r
}

/// Monitor mode never mutates: whatever a module produced, a response
/// post-processed in `Monitor` mode carries no patch and is an allow.
pub proof fn lemma_monitor_never_mutates(allowed_to_mutate: bool, raw: RawOutcomeModel)
    ensures
        post_processed(PolicyMode::Monitor, allowed_to_mutate, raw).patch is None,
        post_processed(PolicyMode::Monitor, allowed_to_mutate, raw).allowed,
{
}

/// Mutation gating: no post-processed response carries a patch unless its
/// policy is allowed to mutate.
pub proof fn lemma_mutation_gating(mode: PolicyMode, allowed_to_mutate: bool, raw: RawOutcomeModel)
    ensures
        post_processed(mode, allowed_to_mutate, raw).patch is Some ==> allowed_to_mutate,
{
}

/// Post-processing is a function of `(mode, mutation right, raw outcome)`
/// alone: two evaluations of the same module on the same input whose
/// sandbox produced the same raw outcome yield identical responses.
pub proof fn lemma_post_process_deterministic(
    mode: PolicyMode,
    allowed_to_mutate: bool,
    raw1: RawOutcomeModel,
    raw2: RawOutcomeModel,
)
    requires
        raw1 == raw2,
    ensures
        post_processed(mode, allowed_to_mutate, raw1) == post_processed(
            mode,
            allowed_to_mutate,
            raw2,
        ),
{
}

} // verus!
