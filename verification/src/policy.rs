//! Policies and the policy set.
//!
//! A policy is immutable after bootstrap: its module has been fetched to a
//! local path, its settings have been validated, and its mode decides how
//! deny outcomes are surfaced. The policy set maps unique names to policies
//! and is never mutated once the worker pool has booted.

use vstd::prelude::*;

use crate::group::GroupExpr;

verus! {

/// How a policy's verdict is surfaced to the API server.
///
/// In `Protect` mode a deny outcome rejects the admission request; in
/// `Monitor` mode every outcome is surfaced as an allow, with the original
/// decision recorded in an audit annotation.
#[derive(Clone, Copy, PartialEq, Eq, Structural, Debug)]
pub enum PolicyMode {
    Monitor,
    Protect,
}

/// A Kubernetes GroupVersionKind identifier, naming one kind of cluster
/// resource a context-aware policy reads.
pub struct Gvk {
    pub group: String,
    pub version: String,
    pub kind: String,
}

/// Mathematical model of a [`Gvk`].
#[verifier::ext_equal]
pub struct GvkModel {
    pub group: Seq<char>,
    pub version: Seq<char>,
    pub kind: Seq<char>,
}

impl View for Gvk {
    type V = GvkModel;

    open spec fn view(&self) -> GvkModel {
        GvkModel { group: self.group@, version: self.version@, kind: self.kind@ }
    }
}

/// Compares two GroupVersionKind identifiers by value.
pub fn gvk_eq(a: &Gvk, b: &Gvk) -> (r: bool)
    ensures
        r <==> a@ == b@,
{
    let r = a.group == b.group && a.version == b.version && a.kind == b.kind;
    proof {
        if a.group@ == b.group@ && a.version@ == b.version@ && a.kind@ == b.kind@ {
            assert(a@ =~= b@);
        }
    }
    r
}

/// What an individual policy and a group member share: the unique name, the
/// remote source of the module, the opaque settings text the module itself
/// validates at load, the cluster resources the policy reads, and the local
/// file the module was fetched to.
pub struct PolicyCore {
    pub name: String,
    pub url: String,
    pub settings: String,
    pub context_aware_resources: Vec<Gvk>,
    pub local_path: Option<String>,
}

/// Mathematical model of a [`PolicyCore`].
#[verifier::ext_equal]
pub struct PolicyCoreModel {
    pub name: Seq<char>,
    pub url: Seq<char>,
    pub settings: Seq<char>,
    pub context_aware_resources: Seq<GvkModel>,
    pub local_path: Option<Seq<char>>,
}

impl View for PolicyCore {
    type V = PolicyCoreModel;

    open spec fn view(&self) -> PolicyCoreModel {
        PolicyCoreModel {
            name: self.name@,
            url: self.url@,
            settings: self.settings@,
            context_aware_resources: self.context_aware_resources@.map_values(|g: Gvk| g@),
            local_path: match self.local_path {
                Some(p) => Some(p@),
                None => None,
            },
        }
    }
}

/// What distinguishes an individual policy from a policy group: a group
/// carries no module of its own but a boolean expression over named member
/// policies and a rejection message; members have no individual mode.
pub enum PolicyKind {
    Single,
    Group { members: Vec<PolicyCore>, expression: GroupExpr, message: String },
}

/// Mathematical model of a [`PolicyKind`].
#[verifier::ext_equal]
pub enum PolicyKindModel {
    Single,
    Group { members: Seq<PolicyCoreModel>, expression: GroupExpr, message: Seq<char> },
}

impl View for PolicyKind {
    type V = PolicyKindModel;

    open spec fn view(&self) -> PolicyKindModel {
        match self {
            PolicyKind::Single => PolicyKindModel::Single,
            PolicyKind::Group { members, expression, message } => PolicyKindModel::Group {
                members: members@.map_values(|m: PolicyCore| m@),
                expression: *expression,
                message: message@,
            },
        }
    }
}

/// One entry of the policy set, immutable after bootstrap.
pub struct Policy {
    pub core: PolicyCore,
    pub mode: PolicyMode,
    pub allowed_to_mutate: bool,
    pub kind: PolicyKind,
}

/// Mathematical model of a [`Policy`].
#[verifier::ext_equal]
pub struct PolicyModel {
    pub core: PolicyCoreModel,
    pub mode: PolicyMode,
    pub allowed_to_mutate: bool,
    pub kind: PolicyKindModel,
}

impl View for Policy {
    type V = PolicyModel;

    open spec fn view(&self) -> PolicyModel {
        PolicyModel {
            core: self.core@,
            mode: self.mode,
            allowed_to_mutate: self.allowed_to_mutate,
            kind: self.kind@,
        }
    }
}

/// No two policies of the sequence share a name.
pub open spec fn names_unique(s: Seq<PolicyModel>) -> bool {
    forall|i: int, j: int| 0 <= i < j < s.len() ==> s[i].core.name != s[j].core.name
}

/// Every policy has a fetched local module file: the bootstrap invariant
/// that holds once the fetch step completed.
pub open spec fn all_fetched(s: Seq<PolicyModel>) -> bool {
    forall|i: int| 0 <= i < s.len() ==> (#[trigger] s[i]).core.local_path is Some
}

/// Some policy of the sequence bears `name`.
pub open spec fn has_policy_named(s: Seq<PolicyModel>, name: Seq<char>) -> bool {
    exists|i: int| 0 <= i < s.len() && s[i].core.name == name
}

/// The first policy bearing `name`, scanning from index `i` on.
pub open spec fn lookup_from(s: Seq<PolicyModel>, name: Seq<char>, i: int) -> Option<PolicyModel>
    decreases s.len() - i,
{
    if i < 0 || i >= s.len() {
        None
    } else if s[i].core.name == name {
        Some(s[i])
    } else {
        lookup_from(s, name, i + 1)
    }
}

/// The policy bearing `name`, if the sequence holds one.
pub open spec fn lookup_policy(s: Seq<PolicyModel>, name: Seq<char>) -> Option<PolicyModel> {
    lookup_from(s, name, 0)
}

/// A found policy bears the looked-up name and stands in the sequence.
pub proof fn lemma_lookup_from_sound(s: Seq<PolicyModel>, name: Seq<char>, i: int)
    ensures
        lookup_from(s, name, i) matches Some(p) ==> p.core.name == name && exists|k: int|
            0 <= k < s.len() && s[k] == p,
        (0 <= i && lookup_from(s, name, i) is None) ==> forall|k: int|
            i <= k < s.len() ==> s[k].core.name != name,
    decreases s.len() - i,
{
    if 0 <= i < s.len() {
        lemma_lookup_from_sound(s, name, i + 1);
    }
}

/// Lookup succeeds exactly on the names the sequence holds.
pub proof fn lemma_lookup_some_iff(s: Seq<PolicyModel>, name: Seq<char>)
    ensures
        lookup_policy(s, name) is Some <==> has_policy_named(s, name),
{
    lemma_lookup_from_sound(s, name, 0);
    if lookup_policy(s, name) is Some {
        let p = lookup_policy(s, name)->Some_0;
        let k = choose|k: int| 0 <= k < s.len() && s[k] == p;
        assert(s[k].core.name == name);
    }
}

/// The policy set: a mapping from unique names to policies, established at
/// bootstrap and never mutated afterwards.
pub struct PolicySet {
    policies: Vec<Policy>,
}

impl View for PolicySet {
    type V = Seq<PolicyModel>;

    closed spec fn view(&self) -> Seq<PolicyModel> {
        self.policies@.map_values(|p: Policy| p@)
    }
}

impl PolicySet {
    /// The set's invariant: names are unique.
    pub open spec fn wf(&self) -> bool {
        names_unique(self@)
    }

    /// An empty policy set.
    pub fn new() -> (r: PolicySet)
        ensures
            r@ == Seq::<PolicyModel>::empty(),
            r.wf(),
    {
        let r = PolicySet { policies: Vec::new() };
        proof {
            assert(r@ =~~= Seq::<PolicyModel>::empty());
        }
        r
    }

    /// How many policies the set holds.
    pub fn len(&self) -> (n: usize)
        ensures
            n == self@.len(),
    {
        self.policies.len()
    }

    /// The policy at position `i`, for walking the whole set.
    pub fn get(&self, i: usize) -> (r: &Policy)
        requires
            i < self@.len(),
        ensures
            r@ == self@[i as int],
    {
        &self.policies[i]
    }

    /// Whether some policy of the set bears `name`.
    pub fn contains_name(&self, name: &String) -> (r: bool)
        ensures
            r == has_policy_named(self@, name@),
    {
        let mut i: usize = 0;
        while i < self.policies.len()
            invariant
                0 <= i <= self.policies.len(),
                self@.len() == self.policies.len(),
                forall|k: int| 0 <= k < i ==> self@[k].core.name != name@,
            decreases self.policies.len() - i,
        {
            if self.policies[i].core.name == *name {
                proof {
                    assert(self@[i as int].core.name == name@);
                }
                return true;
            }
            i += 1;
        }
        false
    }

    /// Adds a policy; refused (and the set left unchanged) when its name is
    /// already taken, so that names stay unique.
    pub fn add(&mut self, p: Policy) -> (added: bool)
        requires
            old(self).wf(),
        ensures
            final(self).wf(),
            added == !has_policy_named(old(self)@, p@.core.name),
            added ==> final(self)@ == old(self)@.push(p@),
            !added ==> final(self)@ == old(self)@,
    {
        let ghost p_model = p@;
        let ghost before = self@;
        if self.contains_name(&p.core.name) {
            false
        } else {
            self.policies.push(p);
            proof {
                assert(self@ =~~= before.push(p_model));
                assert forall|i: int, j: int| 0 <= i < j < self@.len() implies self@[i].core.name
                    != self@[j].core.name by {
                    if j == self@.len() - 1 {
                        assert(self@[i] == before[i]);
                        assert(!has_policy_named(before, p_model.core.name));
                    }
                }
            }
            true
        }
    }

    /// Whether every policy of the set has a fetched local module file:
    /// what bootstrap establishes before the worker pool may boot.
    pub fn all_modules_fetched(&self) -> (r: bool)
        ensures
            r == all_fetched(self@),
    {
        let mut i: usize = 0;
        while i < self.policies.len()
            invariant
                0 <= i <= self.policies.len(),
                self@.len() == self.policies.len(),
                forall|k: int| 0 <= k < i ==> (#[trigger] self@[k]).core.local_path is Some,
            decreases self.policies.len() - i,
        {
            if self.policies[i].core.local_path.is_none() {
                proof {
                    assert(self@[i as int].core.local_path is None);
                }
                return false;
            }
            i += 1;
        }
        true
    }

    /// The policy bearing `name`, if the set holds one.
    pub fn lookup(&self, name: &String) -> (r: Option<&Policy>)
        ensures
            match r {
                Some(p) => lookup_policy(self@, name@) == Some(p@),
                None => lookup_policy(self@, name@) is None,
            },
    {
        let ghost s = self@;
        let mut i: usize = 0;
        while i < self.policies.len()
            invariant
                0 <= i <= self.policies.len(),
                s == self@,
                s.len() == self.policies.len(),
                lookup_policy(s, name@) == lookup_from(s, name@, i as int),
            decreases self.policies.len() - i,
        {
            if self.policies[i].core.name == *name {
                proof {
                    assert(s[i as int].core.name == name@);
                    assert(lookup_from(s, name@, i as int) == Some(s[i as int]));
                }
                return Some(&self.policies[i]);
            }
            proof {
                assert(s[i as int].core.name != name@);
                assert(lookup_from(s, name@, i as int) == lookup_from(s, name@, i as int + 1));
            }
            i += 1;
        }
        None
    }
}

} // verus!
