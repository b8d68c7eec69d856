//! Evaluation counters.
//!
//! Per policy, the server counts evaluations by outcome and the
//! evaluations that missed their deadline. Counters only ever grow, and
//! stop at the top of their range rather than wrap.

use vstd::prelude::*;

use crate::response::RawOutcome;

verus! {

/// How one evaluation ended, as counted: the policy allowed, denied, or
/// failed to evaluate.
#[derive(Clone, Copy, PartialEq, Eq, Structural, Debug)]
pub enum EvaluationOutcome {
    Allow,
    Deny,
    Error,
}

/// The outcome class of a raw module result: traps and missed deadlines
/// count as errors, everything else as the module's own verdict.
pub open spec fn outcome_class(raw: crate::response::RawOutcomeModel) -> EvaluationOutcome {
    match raw {
        crate::response::RawOutcomeModel::Evaluated(r) => if r.allowed {
            EvaluationOutcome::Allow
        } else {
            EvaluationOutcome::Deny
        },
        crate::response::RawOutcomeModel::RuntimeTrap(_) => EvaluationOutcome::Error,
        crate::response::RawOutcomeModel::DeadlineExceeded => EvaluationOutcome::Error,
    }
}

/// A counter bump that stops at the top of the range instead of wrapping.
pub open spec fn bumped(c: u64) -> u64 {
    if c < u64::MAX {
        (c + 1) as u64
    } else {
        c
    }
}

fn bump(c: u64) -> (r: u64)
    ensures
        r == bumped(c),
{
    if c < u64::MAX {
        c + 1
    } else {
        c
    }
}

/// The counters kept for one policy.
#[derive(Clone, Copy, PartialEq, Eq, Structural, Debug)]
pub struct PolicyMetrics {
    pub allow_total: u64,
    pub deny_total: u64,
    pub error_total: u64,
    pub deadlines_total: u64,
}

impl PolicyMetrics {
    /// Fresh counters, all zero.
    pub fn new() -> (r: PolicyMetrics)
        ensures
            r == (PolicyMetrics { allow_total: 0, deny_total: 0, error_total: 0, deadlines_total: 0 }),
    {
        PolicyMetrics { allow_total: 0, deny_total: 0, error_total: 0, deadlines_total: 0 }
    }

    /// Counts one evaluation: exactly the counter of its outcome class
    /// grows by one, and the deadline counter grows exactly when the
    /// deadline was missed.
    pub fn record_evaluation(&mut self, raw: &RawOutcome)
        ensures
            final(self).allow_total == if outcome_class(raw@) == EvaluationOutcome::Allow {
                bumped(old(self).allow_total)
            } else {
                old(self).allow_total
            },
            final(self).deny_total == if outcome_class(raw@) == EvaluationOutcome::Deny {
                bumped(old(self).deny_total)
            } else {
                old(self).deny_total
            },
            final(self).error_total == if outcome_class(raw@) == EvaluationOutcome::Error {
                bumped(old(self).error_total)
            } else {
                old(self).error_total
            },
            final(self).deadlines_total == if raw@ is DeadlineExceeded {
                bumped(old(self).deadlines_total)
            } else {
                old(self).deadlines_total
            },
    {
        match raw {
            RawOutcome::Evaluated(resp) => {
                if resp.allowed {
                    self.allow_total = bump(self.allow_total);
                } else {
                    self.deny_total = bump(self.deny_total);
                }
            },
            RawOutcome::RuntimeTrap(_) => {
                self.error_total = bump(self.error_total);
            },
            RawOutcome::DeadlineExceeded => {
                self.error_total = bump(self.error_total);
                self.deadlines_total = bump(self.deadlines_total);
            },
        }
    }
}

} // verus!
