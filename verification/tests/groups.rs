//! Policy groups: three-valued expression evaluation and the group's
//! admission outcome.

use policy_server::group::{evaluate_expression, group_outcome, GroupExpr, Trivalent};
use policy_server::policy::{Policy, PolicyCore, PolicyKind, PolicyMode};
use policy_server::response::{post_process, RawOutcome};
use policy_server::worker::respond_group;

fn member(name: &str, verdict: Trivalent) -> (String, Trivalent) {
    (name.to_owned(), verdict)
}

fn group_policy(message: &str, expression: GroupExpr) -> Policy {
    Policy {
        core: PolicyCore {
            name: "strict-pods".to_owned(),
            url: "registry://ghcr.io/example/group".to_owned(),
            settings: "{}".to_owned(),
            context_aware_resources: Vec::new(),
            local_path: None,
        },
        mode: PolicyMode::Protect,
        allowed_to_mutate: false,
        kind: PolicyKind::Group {
            members: Vec::new(),
            expression,
            message: message.to_owned(),
        },
    }
}

#[test]
fn group_denies_privileged_pod_with_configured_message() {
    // Expression `pod_privileged() && true`, protect mode, privileged Pod:
    // the member denies, so the group rejects with its own message.
    let expr = GroupExpr::And(
        Box::new(GroupExpr::Member("pod_privileged".to_owned())),
        Box::new(GroupExpr::Constant(true)),
    );
    let verdicts = vec![member("pod_privileged", Trivalent::False)];
    let verdict = evaluate_expression(&expr, &verdicts);
    assert_eq!(verdict, Trivalent::False);

    let raw = group_outcome(verdict, "privileged pods are not welcome here".to_owned());
    let r = post_process(PolicyMode::Protect, false, raw);
    assert!(!r.allowed);
    assert!(r.patch.is_none());
    let status = r.status.expect("a group deny carries its message");
    assert_eq!(status.message, "privileged pods are not welcome here");
}

#[test]
fn group_allows_when_expression_holds() {
    let expr = GroupExpr::Or(
        Box::new(GroupExpr::Member("pod_privileged".to_owned())),
        Box::new(GroupExpr::Member("pod_trusted".to_owned())),
    );
    let verdicts = vec![
        member("pod_privileged", Trivalent::False),
        member("pod_trusted", Trivalent::True),
    ];
    assert_eq!(evaluate_expression(&expr, &verdicts), Trivalent::True);
}

#[test]
fn short_circuit_hides_member_errors() {
    // Standard boolean laziness: a decided left side wins even when the
    // right side errored.
    let and_expr = GroupExpr::And(
        Box::new(GroupExpr::Constant(false)),
        Box::new(GroupExpr::Member("exploded".to_owned())),
    );
    let or_expr = GroupExpr::Or(
        Box::new(GroupExpr::Constant(true)),
        Box::new(GroupExpr::Member("exploded".to_owned())),
    );
    let verdicts = vec![member("exploded", Trivalent::Error)];
    assert_eq!(evaluate_expression(&and_expr, &verdicts), Trivalent::False);
    assert_eq!(evaluate_expression(&or_expr, &verdicts), Trivalent::True);
}

#[test]
fn member_errors_propagate_when_needed() {
    let expr = GroupExpr::And(
        Box::new(GroupExpr::Constant(true)),
        Box::new(GroupExpr::Member("exploded".to_owned())),
    );
    let verdicts = vec![member("exploded", Trivalent::Error)];
    assert_eq!(evaluate_expression(&expr, &verdicts), Trivalent::Error);

    // An unknown member name is an error too.
    let unknown = GroupExpr::Member("no_such_member".to_owned());
    assert_eq!(evaluate_expression(&unknown, &verdicts), Trivalent::Error);

    // Negation keeps errors.
    let not_expr = GroupExpr::Not(Box::new(GroupExpr::Member("exploded".to_owned())));
    assert_eq!(evaluate_expression(&not_expr, &verdicts), Trivalent::Error);
}

#[test]
fn group_error_is_denied_in_protect_mode() {
    let raw = group_outcome(Trivalent::Error, "unused".to_owned());
    match &raw {
        RawOutcome::RuntimeTrap(m) => {
            assert_eq!(m, "error while evaluating policy group expression")
        }
        _ => panic!("a group error surfaces as a runtime trap"),
    }
    let r = post_process(PolicyMode::Protect, false, raw);
    assert!(!r.allowed);
}

#[test]
fn respond_group_runs_the_whole_pipeline() {
    let expr = GroupExpr::And(
        Box::new(GroupExpr::Member("pod_privileged".to_owned())),
        Box::new(GroupExpr::Constant(true)),
    );
    let policy = group_policy("rejected by the strict-pods group", expr);
    let verdicts = vec![member("pod_privileged", Trivalent::False)];
    let r = respond_group(&policy, &verdicts).expect("a group policy owes a group response");
    assert!(!r.allowed);
    assert_eq!(
        r.status.expect("deny carries the message").message,
        "rejected by the strict-pods group"
    );

    // An individual policy owes none.
    let mut single = group_policy("unused", GroupExpr::Constant(true));
    single.kind = PolicyKind::Single;
    assert!(respond_group(&single, &verdicts).is_none());
}
