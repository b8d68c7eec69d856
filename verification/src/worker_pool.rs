//! The worker pool's dispatcher and boot decisions.
//!
//! The pool owns a fixed set of workers, each with its own bounded inbox.
//! A dispatcher fans requests out in round-robin order; when a worker's
//! inbox is full it tries the next in rotation, up to one whole turn, and
//! an entirely full pool blocks on the worker the turn started at, which
//! preserves ordering and applies backpressure upstream.

use vstd::prelude::*;

verus! {

/// The index after `next` in rotation over `n` workers.
pub open spec fn advance(next: int, n: int) -> int {
    if next + 1 == n {
        0
    } else {
        next + 1
    }
}

/// The index `k` rotation steps after `start`.
pub open spec fn advance_by(start: int, n: int, k: nat) -> int
    decreases k,
{
    if k == 0 {
        start
    } else {
        advance_by(advance(start, n), n, (k - 1) as nat)
    }
}

/// The worker the dispatcher settles on, trying `attempts` inboxes in
/// rotation from `start` and skipping full ones; when every try is full it
/// settles on where the turn would continue — with a whole turn of
/// attempts, the worker the turn started at.
pub open spec fn rotation_choice(full: Seq<bool>, start: int, attempts: nat) -> int
    decreases attempts,
{
    if attempts == 0 {
        start
    } else if 0 <= start < full.len() && !full[start] {
        start
    } else {
        rotation_choice(full, advance(start, full.len() as int), (attempts - 1) as nat)
    }
}

/// The worker chosen for a request when the inboxes' fullness is `full`
/// and the rotation stands at `start`.
pub open spec fn chosen_worker(full: Seq<bool>, start: int) -> int {
    rotation_choice(full, start, full.len())
}

/// Steps in rotation from `a` forward to `b`, over `n` workers.
pub open spec fn rotation_distance(a: int, b: int, n: int) -> int {
    if b >= a {
        b - a
    } else {
        b + n - a
    }
}

/// A free inbox within reach of the remaining attempts is found.
proof fn lemma_rotation_choice_reaches_free(full: Seq<bool>, start: int, attempts: nat, i: int)
    requires
        0 <= start < full.len(),
        0 <= i < full.len(),
        !full[i],
        rotation_distance(start, i, full.len() as int) < attempts,
        attempts <= full.len(),
    ensures
        0 <= rotation_choice(full, start, attempts) < full.len(),
        !full[rotation_choice(full, start, attempts)],
    decreases attempts,
{
    if full[start] {
        let next = advance(start, full.len() as int);
        assert(start != i);
        assert(rotation_distance(next, i, full.len() as int) == rotation_distance(
            start,
            i,
            full.len() as int,
        ) - 1);
        lemma_rotation_choice_reaches_free(full, next, (attempts - 1) as nat, i);
    }
}

/// The chosen worker exists, and its inbox is free whenever any inbox is.
pub proof fn lemma_chosen_worker_free(full: Seq<bool>, start: int)
    requires
        0 <= start < full.len(),
        exists|i: int| 0 <= i < full.len() && !full[i],
    ensures
        0 <= chosen_worker(full, start) < full.len(),
        !full[chosen_worker(full, start)],
{
    let i = choose|i: int| 0 <= i < full.len() && !full[i];
    assert(rotation_distance(start, i, full.len() as int) < full.len());
    lemma_rotation_choice_reaches_free(full, start, full.len(), i);
}

/// With no inbox full, the dispatcher takes turns: the choice is exactly
/// the worker the rotation stands at, so a run of picks assigns requests
/// as [`assigned_count`] counts them.
pub proof fn lemma_free_pool_takes_turns(full: Seq<bool>, start: int)
    requires
        0 <= start < full.len(),
        forall|i: int| 0 <= i < full.len() ==> !full[i],
    ensures
        chosen_worker(full, start) == start,
{
}

/// The round-robin dispatcher's state: the pool size and the worker whose
/// turn the next request falls on.
pub struct Dispatcher {
    pub pool_size: usize,
    pub next: usize,
}

impl Dispatcher {
    /// The dispatcher's invariant: at least one worker, and the rotation
    /// points at one of them.
    pub open spec fn wf(&self) -> bool {
        self.pool_size >= 1 && self.next < self.pool_size
    }

    /// A dispatcher over `pool_size` workers, whose first request falls on
    /// worker zero.
    pub fn new(pool_size: usize) -> (r: Dispatcher)
        requires
            pool_size >= 1,
        ensures
            r.wf(),
            r.pool_size == pool_size,
            r.next == 0,
    {
        Dispatcher { pool_size, next: 0 }
    }

    /// Picks the inbox for the next request: the worker whose turn it is,
    /// or — skipping full inboxes — the next free one in rotation; when
    /// every inbox is full, the worker the turn started at (the dispatcher
    /// then blocks there, preserving order and applying backpressure).
    /// The rotation always moves one step past the chosen worker.
    pub fn pick(&mut self, full: &Vec<bool>) -> (r: usize)
        requires
            old(self).wf(),
            full@.len() == old(self).pool_size,
        ensures
            final(self).wf(),
            final(self).pool_size == old(self).pool_size,
            r < old(self).pool_size,
            r == chosen_worker(full@, old(self).next as int),
            final(self).next as int == advance(r as int, old(self).pool_size as int),
            (exists|i: int| 0 <= i < full@.len() && !full@[i]) ==> !full@[r as int],
    {
        let ghost start = self.next as int;
        let ghost n = full@.len() as int;
        let mut idx = self.next;
        let mut tries: usize = 0;
        while tries < self.pool_size && full[idx]
            invariant
                self.wf(),
                self.pool_size == old(self).pool_size,
                self.next == old(self).next,
                start == old(self).next as int,
                n == full@.len() as int,
                full@.len() == self.pool_size,
                0 <= idx < self.pool_size,
                tries <= self.pool_size,
                chosen_worker(full@, start) == rotation_choice(
                    full@,
                    idx as int,
                    (self.pool_size - tries) as nat,
                ),
            decreases self.pool_size - tries,
        {
            proof {
                assert(rotation_choice(full@, idx as int, (self.pool_size - tries) as nat)
                    == rotation_choice(
                    full@,
                    advance(idx as int, n),
                    (self.pool_size - tries - 1) as nat,
                ));
            }
            idx = if idx + 1 == self.pool_size {
                0
            } else {
                idx + 1
            };
            tries += 1;
        }
        proof {
            if tries == self.pool_size {
                assert(idx as int == rotation_choice(full@, idx as int, 0));
            }
            if exists|i: int| 0 <= i < full@.len() && !full@[i] {
                lemma_chosen_worker_free(full@, start);
            }
        }
        let r = idx;
        self.next = if r + 1 == self.pool_size {
            0
        } else {
            r + 1
        };
        r
    }
}

/// How many of the first `k` requests fall on worker `i`, when no inbox
/// ever fills and the rotation starts at `start`: each request lands on the
/// worker whose turn it is, and the rotation advances one step.
pub open spec fn assigned_count(start: int, n: int, k: nat, i: int) -> int
    decreases k,
{
    if k == 0 {
        0
    } else {
        (if start == i {
            1int
        } else {
            0int
        }) + assigned_count(advance(start, n), n, (k - 1) as nat, i)
    }
}

/// Within one turn of the rotation each worker's turn comes up exactly
/// when it is within reach of the remaining requests.
proof fn lemma_assigned_count_partial(start: int, n: int, k: nat, i: int)
    requires
        1 <= n,
        0 <= start < n,
        0 <= i < n,
        k <= n,
    ensures
        assigned_count(start, n, k, i) == if rotation_distance(start, i, n) < k {
            1int
        } else {
            0int
        },
    decreases k,
{
    if k > 0 {
        lemma_assigned_count_partial(advance(start, n), n, (k - 1) as nat, i);
    }
}

/// One whole turn of the rotation lands exactly one request on each worker.
proof fn lemma_assigned_count_cycle(start: int, n: int, i: int)
    requires
        1 <= n,
        0 <= start < n,
        0 <= i < n,
    ensures
        assigned_count(start, n, n as nat, i) == 1,
{
    lemma_assigned_count_partial(start, n, n as nat, i);
}

/// Rotating `k` steps from inside the pool stays inside the pool.
proof fn lemma_advance_by_in_range(start: int, n: int, k: nat)
    requires
        1 <= n,
        0 <= start < n,
    ensures
        0 <= advance_by(start, n, k) < n,
    decreases k,
{
    if k > 0 {
        lemma_advance_by_in_range(advance(start, n), n, (k - 1) as nat);
    }
}

/// A whole turn of the rotation returns to where it started.
proof fn lemma_advance_by_cycle(start: int, n: int, k: nat)
    requires
        1 <= n,
        0 <= start < n,
        k <= n,
    ensures
        advance_by(start, n, k) == if start + k < n {
            start + k
        } else {
            start + k - n
        },
    decreases k,
{
    if k > 0 {
        lemma_advance_by_cycle(advance(start, n), n, (k - 1) as nat);
    }
}

/// Assignments over `k1 + k2` requests split at `k1`.
proof fn lemma_assigned_count_split(start: int, n: int, k1: nat, k2: nat, i: int)
    requires
        1 <= n,
    ensures
        assigned_count(start, n, k1 + k2, i) == assigned_count(start, n, k1, i) + assigned_count(
            advance_by(start, n, k1),
            n,
            k2,
            i,
        ),
    decreases k1,
{
    if k1 > 0 {
        lemma_assigned_count_split(advance(start, n), n, (k1 - 1) as nat, k2, i);
    }
}

/// Round-robin fairness: under uniform load, with `n` workers and `m`
/// whole turns of the rotation — `m * n` requests — and no inbox ever
/// full, every worker handles exactly `m` requests.
pub proof fn lemma_round_robin_fair(start: int, n: int, m: nat, i: int)
    requires
        1 <= n,
        0 <= start < n,
        0 <= i < n,
    ensures
        assigned_count(start, n, (m * n) as nat, i) == m,
    decreases m,
{
    assert(m * n >= 0) by (nonlinear_arith)
        requires
            m >= 0,
            n >= 1,
    ;
    if m == 0 {
        assert(m * n == 0) by (nonlinear_arith)
            requires
                m == 0,
        ;
    } else {
        assert(m * n == n + (m - 1) * n) by (nonlinear_arith);
        assert((m - 1) * n >= 0) by (nonlinear_arith)
            requires
                m >= 1,
                n >= 1,
        ;
        lemma_assigned_count_split(start, n, n as nat, ((m - 1) * n) as nat, i);
        lemma_assigned_count_cycle(start, n, i);
        lemma_advance_by_cycle(start, n, n as nat);
        lemma_round_robin_fair(start, n, (m - 1) as nat, i);
        assert(((m - 1) as nat) * n == (m - 1) * n) by (nonlinear_arith)
            requires
                m >= 1,
        ;
    }
}

/// Decides the worker pool's boot reply: success exactly when every worker
/// signalled that its evaluators compiled and their settings validated.
pub fn pool_boot_succeeded(worker_ready: &Vec<bool>) -> (r: bool)
    ensures
        r == (forall|i: int| 0 <= i < worker_ready@.len() ==> worker_ready@[i]),
{
    let mut i: usize = 0;
    while i < worker_ready.len()
        invariant
            0 <= i <= worker_ready@.len(),
            forall|k: int| 0 <= k < i ==> worker_ready@[k],
        decreases worker_ready@.len() - i,
    {
        if !worker_ready[i] {
            return false;
        }
        i += 1;
    }
    true
}

/// Relies on num_cpus::get: the number of logical CPUs of the machine,
/// which is always at least one.
#[verifier::external_body]
fn logical_cpu_count() -> (r: usize)
    ensures
        r >= 1,
{
    num_cpus::get()
}

/// The pool size to boot with: the requested worker count when one was
/// given, else one worker per logical CPU of the machine.
pub fn effective_pool_size(requested: Option<usize>) -> (r: usize)
    requires
        requested matches Some(k) ==> k >= 1,
    ensures
        r >= 1,
        requested matches Some(k) ==> r == k,
{
    match requested {
        Some(k) => k,
        None => logical_cpu_count(),
    }
}

} // verus!
