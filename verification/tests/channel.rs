//! The evaluation channel and the reply ledger.

use policy_server::communication::{
    BoundedFifo, EvaluationRequest, ReplyLedger, ReplyState, EVALUATION_CHANNEL_CAPACITY,
};

fn request(name: &str, id: usize) -> EvaluationRequest {
    EvaluationRequest {
        policy_name: name.to_owned(),
        payload: br#"{"kind":"AdmissionReview"}"#.to_vec(),
        request_id: id,
    }
}

#[test]
fn the_channel_is_fifo() {
    let mut q: BoundedFifo<EvaluationRequest> = BoundedFifo::new(4);
    assert!(q.try_push(request("pod-privileged", 0)));
    assert!(q.try_push(request("raw-mutation", 1)));
    let first = q.pop_front().expect("two items queued");
    assert_eq!(first.request_id, 0);
    assert_eq!(first.policy_name, "pod-privileged");
    let second = q.pop_front().expect("one item left");
    assert_eq!(second.request_id, 1);
    assert!(q.pop_front().is_none());
}

#[test]
fn a_full_channel_applies_backpressure() {
    let mut q: BoundedFifo<u32> = BoundedFifo::new(2);
    assert!(q.try_push(10));
    assert!(q.try_push(20));
    assert!(q.is_full());
    // The refused push leaves the queue untouched.
    assert!(!q.try_push(30));
    assert_eq!(q.len(), 2);
    assert_eq!(q.pop_front(), Some(10));
    assert!(!q.is_full());
    assert!(q.try_push(30));
    assert_eq!(q.pop_front(), Some(20));
    assert_eq!(q.pop_front(), Some(30));
}

#[test]
fn the_evaluation_channel_holds_thirty_two() {
    assert_eq!(EVALUATION_CHANNEL_CAPACITY, 32);
    let mut q: BoundedFifo<usize> = BoundedFifo::new(EVALUATION_CHANNEL_CAPACITY);
    for i in 0..EVALUATION_CHANNEL_CAPACITY {
        assert!(q.try_push(i));
    }
    assert!(!q.try_push(99));
}

#[test]
fn each_request_is_settled_exactly_once() {
    let mut ledger = ReplyLedger::new();
    let a = ledger.accept();
    let b = ledger.accept();
    assert_eq!(ledger.state_of(a), ReplyState::Pending);
    assert_eq!(ledger.state_of(b), ReplyState::Pending);

    // Request a is answered; request b's client went away.
    ledger.record_reply(a);
    ledger.record_handle_dropped(b);
    assert_eq!(ledger.state_of(a), ReplyState::Replied);
    assert_eq!(ledger.state_of(b), ReplyState::HandleDropped);

    // A settled request stays settled; only new requests are pending.
    let c = ledger.accept();
    assert_eq!(ledger.state_of(a), ReplyState::Replied);
    assert_eq!(ledger.state_of(c), ReplyState::Pending);
}
