//! The Kubernetes context poller: snapshots and the poller's state machine.
//!
//! The poller periodically lists every cluster resource kind the loaded
//! policies declare as context input, assembles a fresh snapshot, and
//! publishes it wholesale; readers see either the previous snapshot or the
//! new one, never a mix. Transient poll failures retain the previous
//! snapshot; after too many consecutive failures the poller degrades, and
//! a later successful poll makes it ready again.

use vstd::prelude::*;

use crate::policy::{gvk_eq, Gvk, GvkModel, PolicyKind, PolicyKindModel, PolicyModel, PolicySet};

verus! {

/// How often the poller lists the cluster, unless configured otherwise.
pub const DEFAULT_POLL_INTERVAL_SECONDS: u64 = 60;

/// How many consecutive poll failures degrade the poller, unless
/// configured otherwise.
pub const DEFAULT_MAX_CONSECUTIVE_FAILURES: u32 = 5;

/// View of a list of GroupVersionKind identifiers.
pub open spec fn gvk_seq_view(v: Seq<Gvk>) -> Seq<GvkModel> {
    v.map_values(|g: Gvk| g@)
}

/// No two identifiers of the list name the same kind.
pub open spec fn gvks_distinct(v: Seq<GvkModel>) -> bool {
    forall|a: int, b: int| 0 <= a < b < v.len() ==> v[a] != v[b]
}

/// Whether policy `p` declares `g` as a context input, itself or through
/// one of its group members.
pub open spec fn policy_declares_gvk(p: PolicyModel, g: GvkModel) -> bool {
    p.core.context_aware_resources.contains(g) || match p.kind {
        PolicyKindModel::Group { members, .. } => exists|j: int|
            0 <= j < members.len() && (#[trigger] members[j]).context_aware_resources.contains(g),
        PolicyKindModel::Single => false,
    }
}

/// Whether one of the first `n` policies declares `g` as a context input.
pub open spec fn declared_by_prefix(s: Seq<PolicyModel>, n: int, g: GvkModel) -> bool {
    exists|i: int| 0 <= i < n && i < s.len() && policy_declares_gvk(#[trigger] s[i], g)
}

/// Whether some loaded policy declares `g` as a context input: these are
/// the resource kinds the poller lists.
pub open spec fn declared_gvk(s: Seq<PolicyModel>, g: GvkModel) -> bool {
    declared_by_prefix(s, s.len() as int, g)
}

/// Appends `g` unless an identifier of the same kind is already present.
fn push_unique_gvk(out: &mut Vec<Gvk>, g: &Gvk)
    requires
        gvks_distinct(gvk_seq_view(old(out)@)),
    ensures
        gvks_distinct(gvk_seq_view(final(out)@)),
        forall|h: GvkModel| #[trigger] gvk_seq_view(final(out)@).contains(h) <==> (gvk_seq_view(
            old(out)@,
        ).contains(h) || h == g@),
{
    let ghost before = gvk_seq_view(out@);
    let mut i: usize = 0;
    while i < out.len()
        invariant
            0 <= i <= out.len(),
            out@ == old(out)@,
            before == gvk_seq_view(out@),
            before.len() == out.len(),
            gvks_distinct(before),
            forall|k: int| 0 <= k < i ==> before[k] != g@,
        decreases out.len() - i,
    {
        proof {
            assert(before[i as int] == out@[i as int]@);
        }
        if gvk_eq(&out[i], g) {
            proof {
                assert(before.contains(g@));
                assert(forall|h: GvkModel| #[trigger] before.contains(h) <==> (before.contains(h)
                    || h == g@));
            }
            return ;
        }
        i += 1;
    }
    let copy = Gvk { group: g.group.clone(), version: g.version.clone(), kind: g.kind.clone() };
    proof {
        assert(copy@ =~= g@);
    }
    out.push(copy);
    proof {
        let after = gvk_seq_view(out@);
        assert(after =~= before.push(g@));
        assert forall|h: GvkModel| #[trigger] after.contains(h) implies (before.contains(h) || h
            == g@) by {
            let k = choose|k: int| 0 <= k < after.len() && after[k] == h;
            if k < before.len() {
                assert(before[k] == h);
            }
        }
        assert forall|h: GvkModel| (before.contains(h) || h == g@) implies #[trigger] after.contains(
            h,
        ) by {
            if before.contains(h) {
                let k = choose|k: int| 0 <= k < before.len() && before[k] == h;
                assert(after[k] == h);
            } else {
                assert(after[after.len() - 1] == h);
            }
        }
        assert forall|a: int, b: int| 0 <= a < b < after.len() implies after[a] != after[b] by {
            if b == after.len() - 1 {
                assert(before[a] != g@);
            }
        }
    }
}

/// Merges a whole list of declared identifiers into the union.
fn merge_gvk_list(out: &mut Vec<Gvk>, gvks: &Vec<Gvk>)
    requires
        gvks_distinct(gvk_seq_view(old(out)@)),
    ensures
        gvks_distinct(gvk_seq_view(final(out)@)),
        forall|h: GvkModel| #[trigger] gvk_seq_view(final(out)@).contains(h) <==> (gvk_seq_view(
            old(out)@,
        ).contains(h) || gvk_seq_view(gvks@).contains(h)),
{
    let ghost before = gvk_seq_view(out@);
    let ghost src = gvk_seq_view(gvks@);
    let mut j: usize = 0;
    while j < gvks.len()
        invariant
            0 <= j <= gvks.len(),
            src == gvk_seq_view(gvks@),
            src.len() == gvks.len(),
            gvks_distinct(gvk_seq_view(out@)),
            forall|h: GvkModel| #[trigger] gvk_seq_view(out@).contains(h) <==> (before.contains(h)
                || exists|k: int| 0 <= k < j && src[k] == h),
        decreases gvks.len() - j,
    {
        proof {
            assert(src[j as int] == gvks@[j as int]@);
        }
        push_unique_gvk(out, &gvks[j]);
        proof {
            assert forall|h: GvkModel| #[trigger] gvk_seq_view(out@).contains(h) implies (
            before.contains(h) || exists|k: int| 0 <= k < j + 1 && src[k] == h) by {
                if !before.contains(h) {
                    if h == src[j as int] {
                        assert(src[j as int] == h);
                    }
                }
            }
            assert forall|h: GvkModel| (before.contains(h) || exists|k: int|
                0 <= k < j + 1 && src[k] == h) implies #[trigger] gvk_seq_view(out@).contains(
                h,
            ) by {}
        }
        j += 1;
    }
    proof {
        assert forall|h: GvkModel| #[trigger] src.contains(h) implies exists|k: int|
            0 <= k < gvks.len() && src[k] == h by {}
        assert forall|h: GvkModel| (exists|k: int| 0 <= k < gvks.len() && src[k] == h)
            implies #[trigger] src.contains(h) by {}
    }
}

/// The union of `context_aware_resources` across all loaded policies and
/// their group members, without duplicates: exactly the resource kinds the
/// poller lists on every turn.
pub fn context_resources_union(set: &PolicySet) -> (r: Vec<Gvk>)
    ensures
        gvks_distinct(gvk_seq_view(r@)),
        forall|g: GvkModel| #[trigger] gvk_seq_view(r@).contains(g) <==> declared_gvk(set@, g),
{
    let mut out: Vec<Gvk> = Vec::new();
    proof {
        assert(gvk_seq_view(out@) =~= Seq::<GvkModel>::empty());
        assert(forall|h: GvkModel| !(#[trigger] gvk_seq_view(out@).contains(h)));
    }
    let n = set.len();
    let mut i: usize = 0;
    while i < n
        invariant
            0 <= i <= n,
            n == set@.len(),
            gvks_distinct(gvk_seq_view(out@)),
            forall|g: GvkModel| #[trigger] gvk_seq_view(out@).contains(g) <==> declared_by_prefix(
                set@,
                i as int,
                g,
            ),
        decreases n - i,
    {
        let ghost mid = gvk_seq_view(out@);
        let p = set.get(i);
        merge_gvk_list(&mut out, &p.core.context_aware_resources);
        proof {
            assert(gvk_seq_view(p.core.context_aware_resources@)
                =~= p@.core.context_aware_resources);
        }
        let ghost mid2 = gvk_seq_view(out@);
        match &p.kind {
            PolicyKind::Single => {
                proof {
                    assert forall|g: GvkModel| #[trigger] gvk_seq_view(out@).contains(g)
                        implies declared_by_prefix(set@, i as int + 1, g) by {
                        if !declared_by_prefix(set@, i as int, g) {
                            assert(policy_declares_gvk(set@[i as int], g));
                        }
                    }
                    assert forall|g: GvkModel| declared_by_prefix(set@, i as int + 1, g)
                        implies #[trigger] gvk_seq_view(out@).contains(g) by {
                        let k = choose|k: int|
                            0 <= k < i + 1 && k < set@.len() && policy_declares_gvk(
                                #[trigger] set@[k],
                                g,
                            );
                        if k == i as int {
                            assert(set@[i as int].kind is Single);
                        } else {
                            assert(declared_by_prefix(set@, i as int, g));
                        }
                    }
                }
            },
            PolicyKind::Group { members, .. } => {
                let ghost member_models = set@[i as int].kind->Group_members;
                proof {
                    assert(member_models == members@.map_values(|m: crate::policy::PolicyCore| m@));
                    assert(member_models.len() == members@.len());
                }
                let mut m: usize = 0;
                while m < members.len()
                    invariant
                        0 <= m <= members.len(),
                        member_models == members@.map_values(
                            |mm: crate::policy::PolicyCore| mm@,
                        ),
                        member_models.len() == members@.len(),
                        gvks_distinct(gvk_seq_view(out@)),
                        forall|g: GvkModel| #[trigger] gvk_seq_view(out@).contains(g) <==> (
                        mid2.contains(g) || exists|k: int|
                            0 <= k < m && (#[trigger] member_models[k]).context_aware_resources.contains(
                                g,
                            )),
                    decreases members.len() - m,
                {
                    merge_gvk_list(&mut out, &members[m].context_aware_resources);
                    proof {
                        assert(gvk_seq_view(members@[m as int].context_aware_resources@)
                            =~= member_models[m as int].context_aware_resources);
                        assert forall|g: GvkModel| #[trigger] gvk_seq_view(out@).contains(g)
                            implies (mid2.contains(g) || exists|k: int|
                            0 <= k < m + 1 && (
                            #[trigger] member_models[k]).context_aware_resources.contains(g)) by {
                            if !mid2.contains(g) && !(exists|k: int|
                                0 <= k < m && (
                                #[trigger] member_models[k]).context_aware_resources.contains(g)) {
                                assert(member_models[m as int].context_aware_resources.contains(g));
                            }
                        }
                        assert forall|g: GvkModel| (mid2.contains(g) || exists|k: int|
                            0 <= k < m + 1 && (
                            #[trigger] member_models[k]).context_aware_resources.contains(g))
                            implies #[trigger] gvk_seq_view(out@).contains(g) by {}
                    }
                    m += 1;
                }
                proof {
                    assert forall|g: GvkModel| #[trigger] gvk_seq_view(out@).contains(g)
                        implies declared_by_prefix(set@, i as int + 1, g) by {
                        if !declared_by_prefix(set@, i as int, g) {
                            assert(policy_declares_gvk(set@[i as int], g));
                        }
                    }
                    assert forall|g: GvkModel| declared_by_prefix(set@, i as int + 1, g)
                        implies #[trigger] gvk_seq_view(out@).contains(g) by {
                        let k = choose|k: int|
                            0 <= k < i + 1 && k < set@.len() && policy_declares_gvk(
                                #[trigger] set@[k],
                                g,
                            );
                        if k == i as int {
                            if !set@[i as int].core.context_aware_resources.contains(g) {
                                assert(exists|kk: int|
                                    0 <= kk < member_models.len() && (
                                    #[trigger] member_models[kk]).context_aware_resources.contains(
                                        g,
                                    ));
                            }
                        } else {
                            assert(declared_by_prefix(set@, i as int, g));
                        }
                    }
                }
            },
        }
        i += 1;
    }
    out
}

/// The resources of one listed kind: the kind, the namespace the listing
/// was scoped to (none for cluster-wide), and the objects as the opaque
/// serialized form handed to the evaluators.
pub struct ResourceList {
    pub gvk: Gvk,
    pub namespace: Option<String>,
    pub items: Vec<String>,
}

/// Mathematical model of a [`ResourceList`].
#[verifier::ext_equal]
pub struct ResourceListModel {
    pub gvk: crate::policy::GvkModel,
    pub namespace: Option<Seq<char>>,
    pub items: Seq<Seq<char>>,
}

impl View for ResourceList {
    type V = ResourceListModel;

    open spec fn view(&self) -> ResourceListModel {
        ResourceListModel {
            gvk: self.gvk@,
            namespace: match self.namespace {
                Some(ns) => Some(ns@),
                None => None,
            },
            items: self.items@.map_values(|s: String| s@),
        }
    }
}

/// A point-in-time, immutable view of the cluster resources the policies
/// read. A snapshot is only ever replaced wholesale.
pub struct ClusterSnapshot {
    pub resources: Vec<ResourceList>,
}

impl View for ClusterSnapshot {
    type V = Seq<ResourceListModel>;

    open spec fn view(&self) -> Seq<ResourceListModel> {
        self.resources@.map_values(|r: ResourceList| r@)
    }
}

impl ClusterSnapshot {
    /// The snapshot before the first successful poll: no resources.
    pub fn empty() -> (r: ClusterSnapshot)
        ensures
            r@ == Seq::<ResourceListModel>::empty(),
    {
        let r = ClusterSnapshot { resources: Vec::new() };
        proof {
            assert(r@ =~~= Seq::<ResourceListModel>::empty());
        }
        r
    }
}

/// The poller's phase. It starts in `Starting`, becomes `Ready` on the
/// first successful poll, oscillates between `Ready` and `Degraded` as
/// polls fail and recover, and ends in the terminal `Stopped`.
#[derive(Clone, Copy, PartialEq, Eq, Structural, Debug)]
pub enum PollerPhase {
    Starting,
    Ready,
    Degraded,
    Stopped,
}

/// What one turn of the poller's loop observed.
pub enum PollerEvent {
    /// Every declared resource kind was listed; the whole new snapshot.
    PollSucceeded(ClusterSnapshot),
    /// Some listing failed; the previous snapshot is to be retained.
    PollFailed,
    /// Orderly shutdown.
    Stop,
}

/// Mathematical model of a [`PollerEvent`].
#[verifier::ext_equal]
pub enum PollerEventModel {
    PollSucceeded(Seq<ResourceListModel>),
    PollFailed,
    Stop,
}

impl View for PollerEvent {
    type V = PollerEventModel;

    open spec fn view(&self) -> PollerEventModel {
        match self {
            PollerEvent::PollSucceeded(s) => PollerEventModel::PollSucceeded(s@),
            PollerEvent::PollFailed => PollerEventModel::PollFailed,
            PollerEvent::Stop => PollerEventModel::Stop,
        }
    }
}

/// Mathematical model of a [`PollerState`].
#[verifier::ext_equal]
pub struct PollerStateModel {
    pub phase: PollerPhase,
    pub consecutive_failures: u32,
    pub max_consecutive_failures: u32,
    pub snapshot: Seq<ResourceListModel>,
    pub snapshot_version: u64,
}

/// The poller's transition function. A stopped poller never moves again;
/// `Stop` stops it from any phase. A successful poll publishes the new
/// snapshot wholesale, resets the failure count and makes the poller
/// ready. A failed poll retains the previous snapshot and counts; once the
/// failures since the last success reach the configured bound, a poller
/// that was serving readers degrades. A poller still starting stays in
/// `Starting` until its first successful poll, however many attempts fail.
pub open spec fn poller_step(st: PollerStateModel, ev: PollerEventModel) -> PollerStateModel {
    if st.phase is Stopped {
        st
    } else {
        match ev {
            PollerEventModel::Stop => PollerStateModel { phase: PollerPhase::Stopped, ..st },
            PollerEventModel::PollSucceeded(s) => PollerStateModel {
                phase: PollerPhase::Ready,
                consecutive_failures: 0,
                snapshot: s,
                snapshot_version: if st.snapshot_version < u64::MAX {
                    (st.snapshot_version + 1) as u64
                } else {
                    st.snapshot_version
                },
                ..st
            },
            PollerEventModel::PollFailed => {
                let f = if st.consecutive_failures < u32::MAX {
                    (st.consecutive_failures + 1) as u32
                } else {
                    st.consecutive_failures
                };
                PollerStateModel {
                    phase: if st.phase is Starting {
                        PollerPhase::Starting
                    } else if f >= st.max_consecutive_failures {
                        PollerPhase::Degraded
                    } else {
                        PollerPhase::Ready
                    },
                    consecutive_failures: f,
                    ..st
                }
            },
        }
    }
}

/// Whether readiness probes should report the poller healthy: only a
/// poller that has published a snapshot and is not degraded is ready.
pub open spec fn poller_is_ready(phase: PollerPhase) -> bool {
    phase is Ready
}

/// The poller: its phase, the failure bookkeeping, and the currently
/// published snapshot with its version.
pub struct PollerState {
    pub phase: PollerPhase,
    pub consecutive_failures: u32,
    pub max_consecutive_failures: u32,
    pub snapshot: ClusterSnapshot,
    pub snapshot_version: u64,
}

impl View for PollerState {
    type V = PollerStateModel;

    open spec fn view(&self) -> PollerStateModel {
        PollerStateModel {
            phase: self.phase,
            consecutive_failures: self.consecutive_failures,
            max_consecutive_failures: self.max_consecutive_failures,
            snapshot: self.snapshot@,
            snapshot_version: self.snapshot_version,
        }
    }
}

impl PollerState {
    /// A poller that has not yet polled: starting, no failures, an empty
    /// snapshot at version zero.
    pub fn new(max_consecutive_failures: u32) -> (r: PollerState)
        requires
            max_consecutive_failures >= 1,
        ensures
            r@ == (PollerStateModel {
                phase: PollerPhase::Starting,
                consecutive_failures: 0,
                max_consecutive_failures,
                snapshot: Seq::<ResourceListModel>::empty(),
                snapshot_version: 0,
            }),
    {
        let r = PollerState {
            phase: PollerPhase::Starting,
            consecutive_failures: 0,
            max_consecutive_failures,
            snapshot: ClusterSnapshot::empty(),
            snapshot_version: 0,
        };
        proof {
            assert(r@ =~~= PollerStateModel {
                phase: PollerPhase::Starting,
                consecutive_failures: 0,
                max_consecutive_failures,
                snapshot: Seq::<ResourceListModel>::empty(),
                snapshot_version: 0,
            });
        }
        r
    }

    /// Applies one observed event to the poller.
    pub fn handle_event(&mut self, ev: PollerEvent)
        ensures
            final(self)@ == poller_step(old(self)@, ev@),
            ev@ is PollFailed ==> final(self)@.snapshot == old(self)@.snapshot
                && final(self)@.snapshot_version == old(self)@.snapshot_version,
    {
        let ghost pre = self@;
        let ghost evm = ev@;
        match self.phase {
            PollerPhase::Stopped => {
                proof {
                    assert(self@ =~~= poller_step(pre, evm));
                }
            },
            _ => {
                match ev {
                    PollerEvent::Stop => {
                        self.phase = PollerPhase::Stopped;
                        proof {
                            assert(self@ =~~= poller_step(pre, evm));
                        }
                    },
                    PollerEvent::PollSucceeded(s) => {
                        self.phase = PollerPhase::Ready;
                        self.consecutive_failures = 0;
                        self.snapshot = s;
                        if self.snapshot_version < u64::MAX {
                            self.snapshot_version = self.snapshot_version + 1;
                        }
                        proof {
                            assert(self@ =~~= poller_step(pre, evm));
                        }
                    },
                    PollerEvent::PollFailed => {
                        if self.consecutive_failures < u32::MAX {
                            self.consecutive_failures = self.consecutive_failures + 1;
                        }
                        match self.phase {
                            PollerPhase::Starting => {},
                            _ => {
                                if self.consecutive_failures >= self.max_consecutive_failures {
                                    self.phase = PollerPhase::Degraded;
                                } else {
                                    self.phase = PollerPhase::Ready;
                                }
                            },
                        }
                        proof {
                            assert(self@ =~~= poller_step(pre, evm));
                        }
                    },
                }
            },
        }
    }

    /// The currently published snapshot: what every evaluator reads.
    pub fn read_snapshot(&self) -> (r: &ClusterSnapshot)
        ensures
            r@ == self@.snapshot,
    {
        &self.snapshot
    }

    /// Whether readiness probes should report the poller healthy.
    pub fn is_ready(&self) -> (r: bool)
        ensures
            r == poller_is_ready(self@.phase),
    {
        match self.phase {
            PollerPhase::Ready => true,
            _ => false,
        }
    }
}

/// The poller's state after a whole run of observed events.
pub open spec fn poller_run(st: PollerStateModel, evs: Seq<PollerEventModel>) -> PollerStateModel
    decreases evs.len(),
{
    if evs.len() == 0 {
        st
    } else {
        poller_run(poller_step(st, evs[0]), evs.drop_first())
    }
}

/// Snapshot atomicity: after any run of events, the published snapshot is
/// the starting one or arrived whole as some successful poll's — never a
/// mixture — and a stopped poller stays stopped.
pub proof fn lemma_snapshot_wholesale(st: PollerStateModel, evs: Seq<PollerEventModel>)
    ensures
        poller_run(st, evs).snapshot == st.snapshot || exists|k: int|
            0 <= k < evs.len() && poller_run(st, evs).snapshot == (#[trigger] evs[k])->PollSucceeded_0,
        st.phase is Stopped ==> poller_run(st, evs) == st,
    decreases evs.len(),
{
    if evs.len() > 0 {
        let st2 = poller_step(st, evs[0]);
        lemma_snapshot_wholesale(st2, evs.drop_first());
        if poller_run(st, evs).snapshot != st.snapshot {
            if poller_run(st2, evs.drop_first()).snapshot == st2.snapshot {
                assert(evs[0] is PollSucceeded && st2.snapshot == evs[0]->PollSucceeded_0);
            } else {
                let k = choose|k: int|
                    0 <= k < evs.drop_first().len() && poller_run(st2, evs.drop_first()).snapshot
                        == (#[trigger] evs.drop_first()[k])->PollSucceeded_0;
                assert(evs[k + 1] == evs.drop_first()[k]);
            }
        }
    }
}

} // verus!
