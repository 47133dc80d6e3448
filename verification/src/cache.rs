//! What a context remembers between operations: the temporary keys it
//! created, the authorization values it was given and the policy branches a
//! caller selected.
use vstd::prelude::*;

use vstd::hash_map::StringHashMap;
use vstd::string::StringExecFns;

use crate::hierarchy::{spec_hierarchy_name, Hierarchy};
use crate::policy::PolicyData;
use crate::text::str_eq;
use crate::tpm::Tpm2bAuth;

verus! {

/// How a key is known: by its name in the store, or by the identifier of a
/// temporary key.
#[derive(Debug, Clone)]
pub enum KeyId {
    Stored(String),
    Temporary(String),
}

/// What a key identifier names.
pub ghost enum KeyIdModel {
    Stored(Seq<char>),
    Temporary(Seq<char>),
}

impl View for KeyId {
    type V = KeyIdModel;

    open spec fn view(&self) -> KeyIdModel {
        match self {
            KeyId::Stored(s) => KeyIdModel::Stored(s@),
            KeyId::Temporary(s) => KeyIdModel::Temporary(s@),
        }
    }
}

/// What an authorization value or a branch selection is for.
#[derive(Debug, Clone)]
pub enum AuthorizationTarget {
    Key(KeyId),
    Hierarchy(Hierarchy),
}

/// What an authorization target names.
pub ghost enum TargetModel {
    Key(KeyIdModel),
    Hierarchy(Hierarchy),
}

impl View for AuthorizationTarget {
    type V = TargetModel;

    open spec fn view(&self) -> TargetModel {
        match self {
            AuthorizationTarget::Key(k) => TargetModel::Key(k@),
            AuthorizationTarget::Hierarchy(h) => TargetModel::Hierarchy(*h),
        }
    }
}

/// A key that lives only as long as its context.
#[derive(Debug)]
pub struct TemporaryKey<D> {
    pub data: D,
    pub policy: Option<PolicyData>,
    pub parent: Option<KeyId>,
}

/// The text under which a target's entries are kept: a letter for the kind of
/// target, then its name.
pub open spec fn target_key(t: TargetModel) -> Seq<char> {
    match t {
        TargetModel::Key(KeyIdModel::Stored(s)) => seq!['s'] + s,
        TargetModel::Key(KeyIdModel::Temporary(s)) => seq!['t'] + s,
        TargetModel::Hierarchy(h) => seq!['h'] + spec_hierarchy_name(h),
    }
}

proof fn lemma_target_key_injective(a: TargetModel, b: TargetModel)
    ensures
        target_key(a) == target_key(b) ==> a == b,
{
    reveal_strlit("owner");
    reveal_strlit("platform");
    reveal_strlit("endorsement");
    if target_key(a) == target_key(b) {
        assert(target_key(a)[0] == target_key(b)[0]);
        assert(target_key(a).skip(1) == target_key(b).skip(1));
        match (a, b) {
            (TargetModel::Key(KeyIdModel::Stored(s)), TargetModel::Key(KeyIdModel::Stored(t))) => {
                assert((seq!['s'] + s).skip(1) =~= s);
                assert((seq!['s'] + t).skip(1) =~= t);
            },
            (TargetModel::Key(KeyIdModel::Temporary(s)), TargetModel::Key(KeyIdModel::Temporary(t))) => {
                assert((seq!['t'] + s).skip(1) =~= s);
                assert((seq!['t'] + t).skip(1) =~= t);
            },
            (TargetModel::Hierarchy(g), TargetModel::Hierarchy(h)) => {
                assert((seq!['h'] + spec_hierarchy_name(g)).skip(1) =~= spec_hierarchy_name(g));
                assert((seq!['h'] + spec_hierarchy_name(h)).skip(1) =~= spec_hierarchy_name(h));
                assert("owner"@.len() == 5);
                assert("platform"@.len() == 8);
                assert("endorsement"@.len() == 11);
            },
            _ => {},
        }
    }
}

/// The text under which a target's entries are kept.
fn target_key_string(target: &AuthorizationTarget) -> (s: String)
    ensures
        s@ == target_key(target@),
{
    proof {
        reveal_strlit("s");
        reveal_strlit("t");
        reveal_strlit("h");
        assert("s"@ =~= seq!['s']);
        assert("t"@ =~= seq!['t']);
        assert("h"@ =~= seq!['h']);
    }
    match target {
        AuthorizationTarget::Key(KeyId::Stored(name)) => String::from_str("s").concat(name.as_str()),
        AuthorizationTarget::Key(KeyId::Temporary(id)) => String::from_str("t").concat(id.as_str()),
        AuthorizationTarget::Hierarchy(h) => String::from_str("h").concat(h.as_str()),
    }
}

/// The labels of a selection, as a set.
pub open spec fn labels_set(labels: Seq<String>) -> Set<Seq<char>> {
    labels.map_values(|l: String| l@).to_set()
}

/// What a cache holds: the temporary keys by identifier, the authorization
/// values by target and the selected policy branches by target.
#[verifier::reject_recursive_types(D)]
pub ghost struct CacheModel<D> {
    pub temporary_keys: Map<Seq<char>, TemporaryKey<D>>,
    pub auths: Map<TargetModel, Seq<u8>>,
    pub branches: Map<TargetModel, Set<Seq<char>>>,
}

/// What a context remembers between operations.
#[verifier::reject_recursive_types(D)]
pub struct Cache<D> {
    temporary_keys: StringHashMap<TemporaryKey<D>>,
    auths: StringHashMap<Tpm2bAuth>,
    selected_policy_branches: StringHashMap<Vec<String>>,
}

/// Whether no label of a selection occurs twice.
pub open spec fn labels_distinct(labels: Seq<String>) -> bool {
    labels.map_values(|l: String| l@).no_duplicates()
}

impl<D> Cache<D> {
    /// Each target's selected labels hold no label twice.
    #[verifier::type_invariant]
    spec fn labels_unique(self) -> bool {
        forall|k: Seq<char>| #[trigger]
            self.selected_policy_branches@.contains_key(k) ==> labels_distinct(self.selected_policy_branches@[k]@)
    }
}

impl<D> View for Cache<D> {
    type V = CacheModel<D>;

    closed spec fn view(&self) -> CacheModel<D> {
        CacheModel {
            temporary_keys: self.temporary_keys@,
            auths: Map::new(
                |t: TargetModel| self.auths@.contains_key(target_key(t)),
                |t: TargetModel| self.auths@[target_key(t)]@,
            ),
            branches: Map::new(
                |t: TargetModel| self.selected_policy_branches@.contains_key(target_key(t)),
                |t: TargetModel| labels_set(self.selected_policy_branches@[target_key(t)]@),
            ),
        }
    }
}

/// The authorization value of a target: the one set for it, else the empty one.
pub open spec fn spec_auth_of<D>(m: CacheModel<D>, t: TargetModel) -> Seq<u8> {
    if m.auths.contains_key(t) {
        m.auths[t]
    } else {
        Seq::empty()
    }
}

/// The cache once `label` is selected for a target: the target's labels
/// gain it, nothing else changes.
pub open spec fn spec_select_branch<D>(m: CacheModel<D>, t: TargetModel, label: Seq<char>) -> CacheModel<D> {
    CacheModel {
        branches: m.branches.insert(
            t,
            if m.branches.contains_key(t) {
                m.branches[t].insert(label)
            } else {
                Set::empty().insert(label)
            },
        ),
        ..m
    }
}

impl<D> Cache<D> {
    /// A cache that remembers nothing.
    pub fn new() -> (c: Cache<D>)
        ensures
            c@.temporary_keys == Map::<Seq<char>, TemporaryKey<D>>::empty(),
            c@.auths == Map::<TargetModel, Seq<u8>>::empty(),
            c@.branches == Map::<TargetModel, Set<Seq<char>>>::empty(),
    {
        let c = Cache {
            temporary_keys: StringHashMap::new(),
            auths: StringHashMap::new(),
            selected_policy_branches: StringHashMap::new(),
        };
        assert(c@.auths =~= Map::<TargetModel, Seq<u8>>::empty());
        assert(c@.branches =~= Map::<TargetModel, Set<Seq<char>>>::empty());
        c
    }

    pub fn contains_temporary_key(&self, id: &str) -> (b: bool)
        ensures
            b == self@.temporary_keys.contains_key(id@),
    {
        self.temporary_keys.contains_key(id)
    }

    pub fn add_temporary_key(&mut self, id: String, key: TemporaryKey<D>)
        ensures
            final(self)@ == (CacheModel { temporary_keys: old(self)@.temporary_keys.insert(id@, key), ..old(self)@ }),
    {
        proof {
            use_type_invariant(&*self);
        }
        let mut keys = StringHashMap::new();
        std::mem::swap(&mut keys, &mut self.temporary_keys);
        keys.insert(id, key);
        self.temporary_keys = keys;
        assert(self@.auths =~= old(self)@.auths);
        assert(self@.branches =~= old(self)@.branches);
    }

    pub fn temporary_key(&self, id: &str) -> (k: Option<&TemporaryKey<D>>)
        ensures
            match k {
                Some(key) => self@.temporary_keys.contains_key(id@) && *key == self@.temporary_keys[id@],
                None => !self@.temporary_keys.contains_key(id@),
            },
    {
        self.temporary_keys.get(id)
    }

    fn set_auth(&mut self, target: AuthorizationTarget, auth: Tpm2bAuth)
        ensures
            final(self)@ == (CacheModel { auths: old(self)@.auths.insert(target@, auth@), ..old(self)@ }),
    {
        proof {
            use_type_invariant(&*self);
        }
        let key = target_key_string(&target);
        let ghost t = target@;
        let ghost a = auth@;
        let mut auths = StringHashMap::new();
        std::mem::swap(&mut auths, &mut self.auths);
        auths.insert(key, auth);
        self.auths = auths;
        assert forall|u: TargetModel| #[trigger] self@.auths.contains_key(u) == old(self)@.auths.insert(t, a).contains_key(u)
            by {
            lemma_target_key_injective(u, t);
        }
        assert forall|u: TargetModel| #[trigger] self@.auths.contains_key(u) implies self@.auths[u] == old(
            self,
        )@.auths.insert(t, a)[u] by {
            lemma_target_key_injective(u, t);
        }
        assert(self@.auths =~= old(self)@.auths.insert(t, a));
        assert(self@.branches =~= old(self)@.branches);
    }

    /// Remembers the authorization value of a key.
    pub fn set_key_auth(&mut self, target: KeyId, auth: Tpm2bAuth)
        ensures
            final(self)@ == (CacheModel {
                auths: old(self)@.auths.insert(TargetModel::Key(target@), auth@),
                ..old(self)@
            }),
    {
        self.set_auth(AuthorizationTarget::Key(target), auth)
    }

    /// Remembers the authorization value of a hierarchy.
    pub fn set_hierarchy_auth(&mut self, target: Hierarchy, auth: Tpm2bAuth)
        ensures
            final(self)@ == (CacheModel {
                auths: old(self)@.auths.insert(TargetModel::Hierarchy(target), auth@),
                ..old(self)@
            }),
    {
        self.set_auth(AuthorizationTarget::Hierarchy(target), auth)
    }

    /// The authorization value of a target: the one remembered for it, else
    /// the empty one.
    pub fn auth(&self, target: &AuthorizationTarget) -> (a: Tpm2bAuth)
        ensures
            a@ == spec_auth_of(self@, target@),
    {
        let key = target_key_string(target);
        match self.auths.get(key.as_str()) {
            Some(auth) => Tpm2bAuth { buffer: auth.buffer.clone() },
            None => Tpm2bAuth::empty(),
        }
    }

    fn select_branch(&mut self, target: AuthorizationTarget, label: &str)
        ensures
            final(self)@ == spec_select_branch(old(self)@, target@, label@),
    {
        proof {
            use_type_invariant(&*self);
        }
        let key = target_key_string(&target);
        let ghost t = target@;
        let mut labels: Vec<String> = match self.selected_policy_branches.get(key.as_str()) {
            Some(existing) => clone_labels(existing),
            None => Vec::new(),
        };
        let ghost before = labels_set(labels@);
        add_label(&mut labels, label);
        let ghost new_set = labels_set(labels@);
        assert(old(self)@.branches.contains_key(t) ==> before == old(self)@.branches[t]);
        assert(!old(self)@.branches.contains_key(t) ==> before =~= Set::<Seq<char>>::empty());
        let mut branches = StringHashMap::new();
        std::mem::swap(&mut branches, &mut self.selected_policy_branches);
        branches.insert(key, labels);
        self.selected_policy_branches = branches;
        assert forall|u: TargetModel| #[trigger] self@.branches.contains_key(u)
            == old(self)@.branches.insert(t, new_set).contains_key(u) by {
            lemma_target_key_injective(u, t);
        }
        assert forall|u: TargetModel| #[trigger] self@.branches.contains_key(u) implies self@.branches[u]
            == old(self)@.branches.insert(t, new_set)[u] by {
            lemma_target_key_injective(u, t);
        }
        assert(self@.branches =~= old(self)@.branches.insert(t, new_set));
        assert(self@.auths =~= old(self)@.auths);
    }

    /// Remembers that `label` is selected for a key's policy.
    pub fn set_key_policy_branche(&mut self, target: KeyId, label: &str)
        ensures
            final(self)@ == spec_select_branch(old(self)@, TargetModel::Key(target@), label@),
    {
        self.select_branch(AuthorizationTarget::Key(target), label)
    }

    /// Remembers that `label` is selected for a hierarchy's policy.
    pub fn set_hierarchy_policy_branche(&mut self, target: Hierarchy, label: &str)
        ensures
            final(self)@ == spec_select_branch(old(self)@, TargetModel::Hierarchy(target), label@),
    {
        self.select_branch(AuthorizationTarget::Hierarchy(target), label)
    }

    /// Forgets what was remembered for a stored key that was deleted: its
    /// authorization value and its selected policy branches.
    pub fn delete_stored_key(&mut self, key_name: &str)
        ensures
            final(self)@ == (CacheModel {
                auths: old(self)@.auths.remove(TargetModel::Key(KeyIdModel::Stored(key_name@))),
                branches: old(self)@.branches.remove(TargetModel::Key(KeyIdModel::Stored(key_name@))),
                ..old(self)@
            }),
    {
        proof {
            use_type_invariant(&*self);
        }
        let target = AuthorizationTarget::Key(KeyId::Stored(key_name.to_string()));
        let key = target_key_string(&target);
        let ghost t = target@;
        let mut auths = StringHashMap::new();
        std::mem::swap(&mut auths, &mut self.auths);
        auths.remove(key.as_str());
        self.auths = auths;
        let mut branches = StringHashMap::new();
        std::mem::swap(&mut branches, &mut self.selected_policy_branches);
        branches.remove(key.as_str());
        self.selected_policy_branches = branches;
        assert forall|u: TargetModel| #[trigger] self@.auths.contains_key(u) == old(self)@.auths.remove(t).contains_key(u)
            by {
            lemma_target_key_injective(u, t);
        }
        assert forall|u: TargetModel| #[trigger] self@.branches.contains_key(u) == old(self)@.branches.remove(
            t,
        ).contains_key(u) by {
            lemma_target_key_injective(u, t);
        }
        assert(self@.auths =~= old(self)@.auths.remove(t));
        assert(self@.branches =~= old(self)@.branches.remove(t));
    }

    fn branches_of(&self, target: &AuthorizationTarget) -> (b: Option<&Vec<String>>)
        ensures
            match b {
                Some(labels) => self@.branches.contains_key(target@) && labels_set(labels@)
                    == self@.branches[target@] && labels_distinct(labels@),
                None => !self@.branches.contains_key(target@),
            },
    {
        proof {
            use_type_invariant(self);
        }
        let key = target_key_string(target);
        self.selected_policy_branches.get(key.as_str())
    }

    /// The policy branches selected for a key, where any are; no label occurs
    /// twice.
    pub fn key_policy_branches(&self, target: KeyId) -> (b: Option<&Vec<String>>)
        ensures
            match b {
                Some(labels) => self@.branches.contains_key(TargetModel::Key(target@)) && labels_set(labels@)
                    == self@.branches[TargetModel::Key(target@)] && labels_distinct(labels@),
                None => !self@.branches.contains_key(TargetModel::Key(target@)),
            },
    {
        self.branches_of(&AuthorizationTarget::Key(target))
    }

    /// The policy branches selected for a hierarchy, where any are; no label
    /// occurs twice.
    pub fn hierarchy_policy_branches(&self, target: Hierarchy) -> (b: Option<&Vec<String>>)
        ensures
            match b {
                Some(labels) => self@.branches.contains_key(TargetModel::Hierarchy(target)) && labels_set(labels@)
                    == self@.branches[TargetModel::Hierarchy(target)] && labels_distinct(labels@),
                None => !self@.branches.contains_key(TargetModel::Hierarchy(target)),
            },
    {
        self.branches_of(&AuthorizationTarget::Hierarchy(target))
    }
}

fn clone_labels(labels: &Vec<String>) -> (c: Vec<String>)
    ensures
        labels_set(c@) == labels_set(labels@),
        c@.map_values(|l: String| l@) == labels@.map_values(|l: String| l@),
{
    let mut c: Vec<String> = Vec::new();
    let mut i: usize = 0;
    while i < labels.len()
        invariant
            i <= labels@.len(),
            c@.map_values(|l: String| l@) == labels@.take(i as int).map_values(|l: String| l@),
        decreases labels@.len() - i,
    {
        c.push(labels[i].clone());
        assert(labels@.take(i + 1).map_values(|l: String| l@) =~= labels@.take(i as int).map_values(|l: String| l@).push(labels@[i as int]@));
        assert(c@.map_values(|l: String| l@) =~= labels@.take(i + 1).map_values(|l: String| l@));
        i += 1;
    }
    assert(labels@.take(i as int) =~= labels@);
    c
}

fn add_label(labels: &mut Vec<String>, label: &str)
    ensures
        labels_set(final(labels)@) == labels_set(old(labels)@).insert(label@),
        labels_distinct(old(labels)@) ==> labels_distinct(final(labels)@),
{
    let mut i: usize = 0;
    while i < labels.len()
        invariant
            i <= labels@.len(),
            labels@ == old(labels)@,
            forall|j: int| 0 <= j < i ==> labels@[j]@ != label@,
        decreases labels@.len() - i,
    {
        if str_eq(labels[i].as_str(), label) {
            assert(labels_set(labels@).contains(label@)) by {
                assert(labels@.map_values(|l: String| l@)[i as int] == label@);
            }
            assert(labels_set(labels@).insert(label@) =~= labels_set(labels@));
            return;
        }
        i += 1;
    }
    let ghost old_seq = labels@.map_values(|l: String| l@);
    labels.push(String::from_str(label));
    assert(labels@.map_values(|l: String| l@) =~= old_seq.push(label@));
    assert(forall|j: int| 0 <= j < old_seq.len() ==> old_seq[j] != label@);
    assert(labels_set(labels@) =~= labels_set(old(labels)@).insert(label@)) by {
        old_seq.lemma_push_to_set_commute(label@);
    }
}

/// A law of the cache: the authorization value read for a target is the last
/// one set for it.
pub proof fn lemma_auth_read_after_write<D>(m: CacheModel<D>, t: TargetModel, auth: Seq<u8>)
    ensures
        spec_auth_of(CacheModel { auths: m.auths.insert(t, auth), ..m }, t) == auth,
{
}

/// A law of the cache: selecting a policy branch for a target keeps every
/// branch selected before, for it and for every other target, and adds the
/// new one; so selecting several branches, one call each, selects them all.
pub proof fn lemma_branch_selection_accumulates<D>(m: CacheModel<D>, t: TargetModel, label: Seq<char>)
    ensures
        spec_select_branch(m, t, label).branches.contains_key(t),
        spec_select_branch(m, t, label).branches[t].contains(label),
        m.branches.contains_key(t) ==> m.branches[t].subset_of(spec_select_branch(m, t, label).branches[t]),
        forall|u: TargetModel|
            u != t && #[trigger] m.branches.contains_key(u) ==> spec_select_branch(m, t, label).branches.contains_key(u)
                && spec_select_branch(m, t, label).branches[u] == m.branches[u],
        spec_select_branch(m, t, label).auths == m.auths,
        spec_select_branch(m, t, label).temporary_keys == m.temporary_keys,
{
}

/// A law of the cache: of two authorization values set for one target, the
/// later is read back; any other target reads what it read before, the empty
/// value where none was ever set.
pub proof fn lemma_auth_last_write_wins<D>(m: CacheModel<D>, t: TargetModel, a1: Seq<u8>, a2: Seq<u8>, u: TargetModel)
    ensures
        ({
            let m1 = CacheModel { auths: m.auths.insert(t, a1), ..m };
            let m2 = CacheModel { auths: m1.auths.insert(t, a2), ..m1 };
            &&& spec_auth_of(m2, t) == a2
            &&& u != t ==> spec_auth_of(m2, u) == spec_auth_of(m, u)
            &&& !m.auths.contains_key(u) && u != t ==> spec_auth_of(m2, u) == Seq::<u8>::empty()
        }),
{
}

} // verus!
