//! The evaluation request channel and the reply bookkeeping.
//!
//! The HTTP surface pushes evaluation jobs onto a bounded FIFO read by the
//! worker pool dispatcher; each job carries a single-use reply handle. The
//! ledger records what became of every accepted request: it is answered
//! once, or its handle is dropped once, and never both.

use vstd::prelude::*;

verus! {

/// Capacity of the channel between the HTTP surface and the worker pool.
pub const EVALUATION_CHANNEL_CAPACITY: usize = 32;

/// One evaluation job travelling from the HTTP surface to the pool: the
/// name of the policy to run, the admission review payload as received,
/// and the ledger id of the reply owed for it.
pub struct EvaluationRequest {
    pub policy_name: String,
    pub payload: Vec<u8>,
    pub request_id: usize,
}

/// Mathematical model of an [`EvaluationRequest`].
#[verifier::ext_equal]
pub struct RequestModel {
    pub policy_name: Seq<char>,
    pub payload: Seq<u8>,
    pub request_id: usize,
}

impl View for EvaluationRequest {
    type V = RequestModel;

    open spec fn view(&self) -> RequestModel {
        RequestModel {
            policy_name: self.policy_name@,
            payload: self.payload@,
            request_id: self.request_id,
        }
    }
}

/// A bounded first-in-first-out queue: the evaluation channel, and each
/// worker's inbox. A full queue refuses a push, which is the backpressure
/// the asynchronous producers suspend on; popping hands out the oldest
/// item, so service order equals enqueue order.
pub struct BoundedFifo<T> {
    items: Vec<T>,
    capacity: usize,
}

impl<T> BoundedFifo<T> {
    /// The queued items, oldest first.
    pub closed spec fn contents(&self) -> Seq<T> {
        self.items@
    }

    /// The bound the queue was created with.
    pub closed spec fn cap(&self) -> usize {
        self.capacity
    }

    /// The queue's invariant: never holds more than its bound allows.
    pub open spec fn wf(&self) -> bool {
        self.contents().len() <= self.cap() && self.cap() >= 1
    }

    /// An empty queue bounded by `capacity`.
    pub fn new(capacity: usize) -> (r: BoundedFifo<T>)
        requires
            capacity >= 1,
        ensures
            r.contents() == Seq::<T>::empty(),
            r.cap() == capacity,
            r.wf(),
    {
        let r = BoundedFifo { items: Vec::new(), capacity };
        proof {
            assert(r.contents() =~= Seq::<T>::empty());
        }
        r
    }

    /// How many items are queued.
    pub fn len(&self) -> (n: usize)
        ensures
            n == self.contents().len(),
    {
        self.items.len()
    }

    /// The bound the queue was created with.
    pub fn capacity(&self) -> (n: usize)
        ensures
            n == self.cap(),
    {
        self.capacity
    }

    /// Whether a push would be refused right now.
    pub fn is_full(&self) -> (b: bool)
        ensures
            b == (self.contents().len() >= self.cap()),
    {
        self.items.len() >= self.capacity
    }

    /// Appends an item unless the queue is full; a refused push leaves the
    /// queue unchanged and tells the producer to hold the item back.
    pub fn try_push(&mut self, x: T) -> (ok: bool)
        requires
            old(self).wf(),
        ensures
            final(self).wf(),
            final(self).cap() == old(self).cap(),
            ok == (old(self).contents().len() < old(self).cap()),
            ok ==> final(self).contents() == old(self).contents().push(x),
            !ok ==> final(self).contents() == old(self).contents(),
    {
        if self.items.len() < self.capacity {
            self.items.push(x);
            true
        } else {
            false
        }
    }

    /// Removes and returns the oldest item, if any.
    pub fn pop_front(&mut self) -> (r: Option<T>)
        requires
            old(self).wf(),
        ensures
            final(self).wf(),
            final(self).cap() == old(self).cap(),
            match r {
                Some(x) => old(self).contents().len() > 0 && x == old(self).contents()[0]
                    && final(self).contents() == old(self).contents().drop_first(),
                None => old(self).contents().len() == 0 && final(self).contents() == old(
                    self,
                ).contents(),
            },
    {
        if self.items.len() > 0 {
            let x = self.items.remove(0);
            proof {
                assert(self.items@ =~= old(self).contents().drop_first());
            }
            Some(x)
        } else {
            None
        }
    }
}

/// What became of one accepted request's reply handle.
#[derive(Clone, Copy, PartialEq, Eq, Structural, Debug)]
pub enum ReplyState {
    /// The request is in flight; nothing has been sent on its handle.
    Pending,
    /// Exactly one response was sent on the handle.
    Replied,
    /// The handle was dropped without a response; the caller observes the
    /// failure.
    HandleDropped,
}

/// The ways the ledger is ever touched: a request is accepted, answered,
/// or has its handle dropped.
#[derive(Clone, Copy, PartialEq, Eq, Structural, Debug)]
pub enum LedgerOp {
    Accept,
    Reply(usize),
    DropHandle(usize),
}

/// Whether `op` is allowed on ledger state `s`: a request can only be
/// settled while it is pending.
pub open spec fn op_allowed(s: Seq<ReplyState>, op: LedgerOp) -> bool {
    match op {
        LedgerOp::Accept => true,
        LedgerOp::Reply(id) => id < s.len() && s[id as int] == ReplyState::Pending,
        LedgerOp::DropHandle(id) => id < s.len() && s[id as int] == ReplyState::Pending,
    }
}

/// The ledger state after `op`.
pub open spec fn apply_op(s: Seq<ReplyState>, op: LedgerOp) -> Seq<ReplyState> {
    match op {
        LedgerOp::Accept => s.push(ReplyState::Pending),
        LedgerOp::Reply(id) => s.update(id as int, ReplyState::Replied),
        LedgerOp::DropHandle(id) => s.update(id as int, ReplyState::HandleDropped),
    }
}

/// Whether every step of `ops` is allowed when run from `s`.
pub open spec fn run_allowed(s: Seq<ReplyState>, ops: Seq<LedgerOp>) -> bool
    decreases ops.len(),
{
    ops.len() == 0 || (op_allowed(s, ops[0]) && run_allowed(apply_op(s, ops[0]), ops.drop_first()))
}

/// The ledger state after running `ops` from `s`.
pub open spec fn run_result(s: Seq<ReplyState>, ops: Seq<LedgerOp>) -> Seq<ReplyState>
    decreases ops.len(),
{
    if ops.len() == 0 {
        s
    } else {
        run_result(apply_op(s, ops[0]), ops.drop_first())
    }
}

/// Whether `op` settles request `id`: answers it or drops its handle.
pub open spec fn op_settles(op: LedgerOp, id: int) -> bool {
    match op {
        LedgerOp::Accept => false,
        LedgerOp::Reply(i) => i == id,
        LedgerOp::DropHandle(i) => i == id,
    }
}

/// How many steps of `ops` settle request `id`.
pub open spec fn count_settles(ops: Seq<LedgerOp>, id: int) -> int
    decreases ops.len(),
{
    if ops.len() == 0 {
        0
    } else {
        (if op_settles(ops[0], id) {
            1int
        } else {
            0int
        }) + count_settles(ops.drop_first(), id)
    }
}

/// In any allowed run: a settled request never changes again, a pending or
/// newly accepted request is settled at most once, and a request the run
/// never accepted is never settled.
pub proof fn lemma_settlement_counts(s: Seq<ReplyState>, ops: Seq<LedgerOp>, id: int)
    requires
        run_allowed(s, ops),
        0 <= id,
    ensures
        run_result(s, ops).len() >= s.len(),
        id < s.len() && s[id] != ReplyState::Pending ==> count_settles(ops, id) == 0 && run_result(
            s,
            ops,
        )[id] == s[id],
        id < s.len() && s[id] == ReplyState::Pending ==> count_settles(ops, id) == (
        if run_result(s, ops)[id] == ReplyState::Pending {
            0int
        } else {
            1int
        }),
        s.len() <= id < run_result(s, ops).len() ==> count_settles(ops, id) == (
        if run_result(s, ops)[id] == ReplyState::Pending {
            0int
        } else {
            1int
        }),
        id >= run_result(s, ops).len() ==> count_settles(ops, id) == 0,
    decreases ops.len(),
{
    if ops.len() > 0 {
        let s2 = apply_op(s, ops[0]);
        lemma_settlement_counts(s2, ops.drop_first(), id);
    }
}

/// Exactly-one reply: for every request accepted onto the channel during an
/// allowed run from the empty ledger, at most one settlement ever happens,
/// and exactly one has happened when the request is no longer pending —
/// one response was received, or the reply handle was observably dropped.
pub proof fn lemma_exactly_one_reply(ops: Seq<LedgerOp>, id: int)
    requires
        run_allowed(Seq::<ReplyState>::empty(), ops),
        0 <= id < run_result(Seq::<ReplyState>::empty(), ops).len(),
    ensures
        count_settles(ops, id) <= 1,
        count_settles(ops, id) == 1 <==> run_result(Seq::<ReplyState>::empty(), ops)[id]
            != ReplyState::Pending,
{
    lemma_settlement_counts(Seq::<ReplyState>::empty(), ops, id);
}

/// The reply ledger: one entry per accepted request, recording what became
/// of its single-use reply handle.
pub struct ReplyLedger {
    states: Vec<ReplyState>,
}

impl View for ReplyLedger {
    type V = Seq<ReplyState>;

    closed spec fn view(&self) -> Seq<ReplyState> {
        self.states@
    }
}

impl ReplyLedger {
    /// A ledger with no requests yet.
    pub fn new() -> (r: ReplyLedger)
        ensures
            r@ == Seq::<ReplyState>::empty(),
    {
        let r = ReplyLedger { states: Vec::new() };
        proof {
            assert(r@ =~= Seq::<ReplyState>::empty());
        }
        r
    }

    /// Accepts a request, handing back its ledger id.
    pub fn accept(&mut self) -> (id: usize)
        ensures
            id == old(self)@.len(),
            final(self)@ == apply_op(old(self)@, LedgerOp::Accept),
    {
        let id = self.states.len();
        self.states.push(ReplyState::Pending);
        id
    }

    /// What became of request `id` so far.
    pub fn state_of(&self, id: usize) -> (s: ReplyState)
        requires
            id < self@.len(),
        ensures
            s == self@[id as int],
    {
        self.states[id]
    }

    /// Records that the one response for request `id` was sent.
    pub fn record_reply(&mut self, id: usize)
        requires
            id < old(self)@.len(),
            old(self)@[id as int] == ReplyState::Pending,
        ensures
            final(self)@ == apply_op(old(self)@, LedgerOp::Reply(id)),
    {
        self.states[id] = ReplyState::Replied;
    }

    /// Records that request `id`'s handle was dropped without a response.
    pub fn record_handle_dropped(&mut self, id: usize)
        requires
            id < old(self)@.len(),
            old(self)@[id as int] == ReplyState::Pending,
        ensures
            final(self)@ == apply_op(old(self)@, LedgerOp::DropHandle(id)),
    {
        self.states[id] = ReplyState::HandleDropped;
    }
}

} // verus!
