//! The worker's serve step.
//!
//! A worker drains its inbox serially: it looks the named policy up in the
//! set, has its own evaluator instance run the module, and post-processes
//! the raw outcome into the admission response. The sandbox run itself is
//! the evaluator's; everything around it is here.

use vstd::prelude::*;

use crate::group::{evaluate_expression, expr_verdict, group_outcome, group_raw_outcome, verdicts_view, Trivalent};
use crate::policy::{Policy, PolicyKind, PolicyKindModel, PolicyModel};
use crate::response::{post_process, post_processed, EvaluationResponse, RawOutcome, RawOutcomeModel, ResponseModel};

verus! {

/// The response owed for one policy once its sandbox produced `raw`: the
/// post-processing pipeline under the policy's mode and mutation right.
pub open spec fn policy_response(p: PolicyModel, raw: RawOutcomeModel) -> ResponseModel {
    post_processed(p.mode, p.allowed_to_mutate, raw)
}

/// Post-processes the raw outcome of one evaluation under `policy`.
pub fn respond(policy: &Policy, raw: RawOutcome) -> (r: EvaluationResponse)
    ensures
        r@ == policy_response(policy@, raw@),
{
    post_process(policy.mode, policy.allowed_to_mutate, raw)
}

/// The response owed for a policy group once every member's verdict is in:
/// the group expression decides, and the result runs through the same
/// post-processing pipeline. An individual policy owes no group response.
pub open spec fn group_response(p: PolicyModel, verdicts: Seq<(Seq<char>, Trivalent)>) -> Option<
    ResponseModel,
> {
    match p.kind {
        PolicyKindModel::Group { members, expression, message } => Some(
            post_processed(
                p.mode,
                p.allowed_to_mutate,
                group_raw_outcome(expr_verdict(expression, verdicts), message),
            ),
        ),
        PolicyKindModel::Single => None,
    }
}

/// Evaluates a policy group's expression over the member verdicts and
/// post-processes the group's outcome.
pub fn respond_group(policy: &Policy, verdicts: &Vec<(String, Trivalent)>) -> (r: Option<
    EvaluationResponse,
>)
    ensures
        match r {
            Some(resp) => group_response(policy@, verdicts_view(verdicts@)) == Some(resp@),
            None => group_response(policy@, verdicts_view(verdicts@)) is None,
        },
{
    match &policy.kind {
        PolicyKind::Single => None,
        PolicyKind::Group { members: _, expression, message } => {
            let verdict = evaluate_expression(expression, verdicts);
            let raw = group_outcome(verdict, message.clone());
            Some(post_process(policy.mode, policy.allowed_to_mutate, raw))
        },
    }
}

} // verus!
