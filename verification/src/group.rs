//! Policy groups: boolean composition of member policies.
//!
//! A policy group carries a boolean expression over named member policies
//! and a rejection message. Each member is evaluated on its own; the
//! expression is then evaluated in a three-valued logic (true, false,
//! error), with errors short-circuited away by standard boolean laziness:
//! a conjunction whose left side is false is false even if the right side
//! errored, and dually for disjunction.

use vstd::prelude::*;

use crate::response::{EvaluationResponse, RawOutcome, RawOutcomeModel, ResponseModel, ResponseStatus, StatusModel};

verus! {

/// Verdict of one group member, or of a whole group expression: the
/// three-valued logic the group is evaluated in.
#[derive(Clone, Copy, PartialEq, Eq, Structural, Debug)]
pub enum Trivalent {
    True,
    False,
    Error,
}

/// Boolean expression over named member policies.
pub enum GroupExpr {
    Constant(bool),
    Member(String),
    Not(Box<GroupExpr>),
    And(Box<GroupExpr>, Box<GroupExpr>),
    Or(Box<GroupExpr>, Box<GroupExpr>),
}

/// Three-valued negation: errors stay errors.
pub open spec fn tri_not(v: Trivalent) -> Trivalent {
    match v {
        Trivalent::True => Trivalent::False,
        Trivalent::False => Trivalent::True,
        Trivalent::Error => Trivalent::Error,
    }
}

/// Three-valued conjunction with left-to-right laziness: a false left side
/// decides the verdict before the right side's error could.
pub open spec fn tri_and(l: Trivalent, r: Trivalent) -> Trivalent {
    match l {
        Trivalent::False => Trivalent::False,
        Trivalent::Error => Trivalent::Error,
        Trivalent::True => r,
    }
}

/// Three-valued disjunction with left-to-right laziness: a true left side
/// decides the verdict before the right side's error could.
pub open spec fn tri_or(l: Trivalent, r: Trivalent) -> Trivalent {
    match l {
        Trivalent::True => Trivalent::True,
        Trivalent::Error => Trivalent::Error,
        Trivalent::False => r,
    }
}

/// View of a list of member verdicts as a sequence of name/verdict pairs.
pub open spec fn verdicts_view(v: Seq<(String, Trivalent)>) -> Seq<(Seq<char>, Trivalent)> {
    v.map_values(|nv: (String, Trivalent)| (nv.0@, nv.1))
}

/// The verdict bound to `name`, scanning the member verdicts from index `i`
/// on; a name that no member carries is an error.
pub open spec fn member_verdict_from(
    verdicts: Seq<(Seq<char>, Trivalent)>,
    name: Seq<char>,
    i: int,
) -> Trivalent
    decreases verdicts.len() - i,
{
    if i < 0 || i >= verdicts.len() {
        Trivalent::Error
    } else if verdicts[i].0 == name {
        verdicts[i].1
    } else {
        member_verdict_from(verdicts, name, i + 1)
    }
}

/// The verdict bound to `name` in the member verdicts.
pub open spec fn member_verdict(verdicts: Seq<(Seq<char>, Trivalent)>, name: Seq<char>) -> Trivalent {
    member_verdict_from(verdicts, name, 0)
}

/// The verdict of a group expression under the given member verdicts.
pub open spec fn expr_verdict(e: GroupExpr, verdicts: Seq<(Seq<char>, Trivalent)>) -> Trivalent
    decreases e,
{
    match e {
        GroupExpr::Constant(b) => if b {
            Trivalent::True
        } else {
            Trivalent::False
        },
        GroupExpr::Member(name) => member_verdict(verdicts, name@),
        GroupExpr::Not(inner) => tri_not(expr_verdict(*inner, verdicts)),
        GroupExpr::And(l, r) => tri_and(expr_verdict(*l, verdicts), expr_verdict(*r, verdicts)),
        GroupExpr::Or(l, r) => tri_or(expr_verdict(*l, verdicts), expr_verdict(*r, verdicts)),
    }
}

fn lookup_member_verdict(name: &String, verdicts: &Vec<(String, Trivalent)>) -> (r: Trivalent)
    ensures
        r == member_verdict(verdicts_view(verdicts@), name@),
{
    let ghost vs = verdicts_view(verdicts@);
    let mut i: usize = 0;
    while i < verdicts.len()
        invariant
            0 <= i <= verdicts.len(),
            vs == verdicts_view(verdicts@),
            vs.len() == verdicts.len(),
            member_verdict(vs, name@) == member_verdict_from(vs, name@, i as int),
        decreases verdicts.len() - i,
    {
        proof {
            assert(vs[i as int] == (verdicts@[i as int].0@, verdicts@[i as int].1));
        }
        if verdicts[i].0 == *name {
            proof {
                assert(member_verdict_from(vs, name@, i as int) == vs[i as int].1);
            }
            return verdicts[i].1;
        }
        proof {
            assert(vs[i as int].0 != name@);
            assert(member_verdict_from(vs, name@, i as int) == member_verdict_from(
                vs,
                name@,
                i as int + 1,
            ));
        }
        i += 1;
    }
    Trivalent::Error
}

/// Evaluates a group expression against the member verdicts, left to right
/// with short-circuiting.
pub fn evaluate_expression(e: &GroupExpr, verdicts: &Vec<(String, Trivalent)>) -> (r: Trivalent)
    ensures
        r == expr_verdict(*e, verdicts_view(verdicts@)),
    decreases *e,
{
    match e {
        GroupExpr::Constant(b) => if *b {
            Trivalent::True
        } else {
            Trivalent::False
        },
        GroupExpr::Member(name) => lookup_member_verdict(name, verdicts),
        GroupExpr::Not(inner) => {
            match evaluate_expression(inner, verdicts) {
                Trivalent::True => Trivalent::False,
                Trivalent::False => Trivalent::True,
                Trivalent::Error => Trivalent::Error,
            }
        },
        GroupExpr::And(l, r) => {
            match evaluate_expression(l, verdicts) {
                Trivalent::False => Trivalent::False,
                Trivalent::Error => Trivalent::Error,
                Trivalent::True => evaluate_expression(r, verdicts),
            }
        },
        GroupExpr::Or(l, r) => {
            match evaluate_expression(l, verdicts) {
                Trivalent::True => Trivalent::True,
                Trivalent::Error => Trivalent::Error,
                Trivalent::False => evaluate_expression(r, verdicts),
            }
        },
    }
}

/// Message attached to a group whose expression could not be evaluated.
pub open spec fn group_error_message() -> Seq<char> {
    "error while evaluating policy group expression"@
}

/// The raw outcome a group verdict stands for: an allow, a deny carrying
/// the group's configured rejection message, or a runtime error.
pub open spec fn group_raw_outcome(verdict: Trivalent, message: Seq<char>) -> RawOutcomeModel {
    match verdict {
        Trivalent::True => RawOutcomeModel::Evaluated(
            ResponseModel {
                allowed: true,
                patch: None,
                patch_type: None,
                status: None,
                audit_annotations: Seq::empty(),
            },
        ),
        Trivalent::False => RawOutcomeModel::Evaluated(
            ResponseModel {
                allowed: false,
                patch: None,
                patch_type: None,
                status: Some(StatusModel { code: None, message }),
                audit_annotations: Seq::empty(),
            },
        ),
        Trivalent::Error => RawOutcomeModel::RuntimeTrap(group_error_message()),
    }
}

/// Turns a group verdict into the raw outcome fed to post-processing,
/// with `message` as the group's configured rejection message.
pub fn group_outcome(verdict: Trivalent, message: String) -> (r: RawOutcome)
    ensures
        r@ == group_raw_outcome(verdict, message@),
{
    match verdict {
        Trivalent::True => {
            let resp = EvaluationResponse {
                allowed: true,
                patch: None,
                patch_type: None,
                status: None,
                audit_annotations: Vec::new(),
            };
            let r = RawOutcome::Evaluated(resp);
            proof {
                assert(r@ =~~= group_raw_outcome(verdict, message@));
            }
            r
        },
        Trivalent::False => {
            let resp = EvaluationResponse {
                allowed: false,
                patch: None,
                patch_type: None,
                status: Some(ResponseStatus { code: None, message }),
                audit_annotations: Vec::new(),
            };
            let r = RawOutcome::Evaluated(resp);
            proof {
                assert(r@ =~~= group_raw_outcome(verdict, message@));
            }
            r
        },
        Trivalent::Error => {
            let r = RawOutcome::RuntimeTrap(
                "error while evaluating policy group expression".to_owned(),
            );
            proof {
                assert(r@ =~~= group_raw_outcome(verdict, message@));
            }
            r
        },
    }
}

} // verus!
