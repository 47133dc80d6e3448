//! The decisions of creating, registering and loading keys: what a creation
//! may ask for, which parent a new key is made under, under which identifier
//! it is kept, and how a stored key is brought back into the TPM.
use vstd::prelude::*;

use crate::cache::{
    labels_set, spec_auth_of, AuthorizationTarget, Cache, CacheModel, KeyId, KeyIdModel, TargetModel, TemporaryKey,
};
use crate::created::{spec_into_key_meta, CreatedKey, CreatedKeyData, SymmetricTemplate, HandleModel, HandleResource, KeyData, KeyDataModel, KeyTemplate};
use crate::error::Error;
use crate::handle::TpmiDhPersistent;
use crate::hierarchy::Hierarchy;
use crate::plan::Authorization;
use crate::policy::{
    branch_views, clone_policy, first_selected_from, policy_view, policy_views, spec_select_branches, spec_select_step_branches,
    PolicyBranchData, PolicyData, PolicyModel,
};
use crate::codec::{lemma_branch_views_index, lemma_policy_views_index};
use crate::policy::lemma_select_steps_err_extends;
use crate::store::{ensure_unique_key_name, opt_policy_view, KeyMeta, KeyMetaModel, TpmKeyMeta, TpmKeyMetaModel};
use crate::text::str_eq;
use crate::tpm::{Tpm2bAuth, Tpm2bName, Tpm2bPrivate, Tpm2bPublic};

verus! {

/// Whether `label` is among `labels`.
pub fn label_selected(label: &String, labels: &Vec<String>) -> (b: bool)
    ensures
        b == labels_set(labels@).contains(label@),
{
    let ghost views = labels@.map_values(|l: String| l@);
    let mut i: usize = 0;
    while i < labels.len()
        invariant
            i <= labels@.len(),
            views == labels@.map_values(|l: String| l@),
            forall|j: int| 0 <= j < i ==> views[j] != label@,
        decreases labels@.len() - i,
    {
        if str_eq(labels[i].as_str(), label.as_str()) {
            assert(views[i as int] == label@);
            assert(views.contains(label@));
            return true;
        }
        i += 1;
    }
    assert(!views.contains(label@));
    false
}

/// A policy with the branches selected in `labels` applied, as
/// `spec_select_branches` says.
#[verifier::loop_isolation(false)]
pub fn select_policy_branches(p: &PolicyData, labels: &Vec<String>) -> (r: Result<PolicyData, Error>)
    ensures
        match spec_select_branches(p@, labels_set(labels@)) {
            Ok(m) => r matches Ok(q) && q@ == m,
            Err(e) => r matches Err(x) && x == e,
        },
    decreases p,
{
    let ghost set = labels_set(labels@);
    match p {
        PolicyData::Or { branches, .. } => {
            let ghost bvs = branch_views(branches@);
            proof {
                lemma_branch_views_index(branches@);
            }
            let mut i: usize = 0;
            while i < branches.len()
                invariant
                    i <= branches@.len(),
                    first_selected_from(bvs, set, 0) == first_selected_from(bvs, set, i as int),
                decreases branches@.len() - i,
            {
                if label_selected(&branches[i].label, labels) {
                    let label = branches[i].label.clone();
                    let copy = clone_policy(p);
                    match copy {
                        PolicyData::Or { branches: bs, branch_digests, .. } => {
                            return Ok(PolicyData::Or { branches: bs, branch_digests, selected_label: Some(label) });
                        },
                        _ => {
                            return Err(Error::invalid_state("policy changed its kind"));
                        },
                    }
                }
                i += 1;
            }
            Err(Error::InvalidPolicy("policy branch was not selected"))
        },
        PolicyData::Sequence(steps) => {
            let ghost views = policy_views(steps@);
            proof {
                lemma_policy_views_index(steps@);
            }
            let mut out: Vec<PolicyData> = Vec::new();
            let mut i: usize = 0;
            while i < steps.len()
                invariant
                    i <= steps@.len(),
                    spec_select_step_branches(views.take(i as int), set) == Ok::<Seq<PolicyModel>, Error>(
                        policy_views(out@),
                    ),
                decreases steps@.len() - i,
            {
                proof {
                    assert(decreases_to!(steps => steps@));
                    assert(decreases_to!(steps@ => steps@[i as int]));
                    assert(views.take(i + 1).drop_last() =~= views.take(i as int));
                    assert(views.take(i + 1).last() == policy_view(steps@[i as int]));
                }
                match select_policy_branches(&steps[i], labels) {
                    Ok(step) => {
                        let ghost before = out@;
                        out.push(step);
                        proof {
                            assert(out@.drop_last() =~= before);
                        }
                    },
                    Err(e) => {
                        proof {
                            lemma_select_steps_err_extends(views, set, i + 1, e);
                        }
                        return Err(e);
                    },
                }
                i += 1;
            }
            assert(views.take(i as int) =~= views);
            Ok(PolicyData::Sequence(out))
        },
        _ => Ok(clone_policy(p)),
    }
}

/// A copy of a key identifier.
pub fn clone_key_id(key_id: &KeyId) -> (c: KeyId)
    ensures
        c@ == key_id@,
{
    match key_id {
        KeyId::Stored(name) => KeyId::Stored(name.clone()),
        KeyId::Temporary(id) => KeyId::Temporary(id.clone()),
    }
}

/// Whether a template makes a key that is created with no parent key: a
/// storage root key, under its hierarchy, or a symmetric key, under the
/// shared wrapping key.
pub open spec fn takes_no_parent(template: KeyTemplate) -> bool {
    (template matches KeyTemplate::Rsa { storage_parent } && storage_parent) || template is Symmetric
}

/// A storage root key and a symmetric key are the keys created with no
/// parent key; an RSA key that is not a storage parent and an ECC key are
/// created under a parent.
pub proof fn law_keys_without_parent(t: SymmetricTemplate)
    ensures
        takes_no_parent(KeyTemplate::Rsa { storage_parent: true }),
        takes_no_parent(KeyTemplate::Symmetric(t)),
        !takes_no_parent(KeyTemplate::Rsa { storage_parent: false }),
        !takes_no_parent(KeyTemplate::Ecc),
{
}

/// Checks what a key creation asks for: a named key needs a name that the
/// store does not hold yet (`key_exists` tells whether it does) and cannot
/// have a temporary parent; a storage root key or a symmetric key takes no
/// parent at all.
pub fn validate_key_creation(
    template: KeyTemplate,
    key_name: Option<&str>,
    key_exists: bool,
    parent: Option<&KeyId>,
) -> (r: Result<(), Error>)
    ensures
        ({
            let named = key_name is Some;
            let temporary_parent = parent matches Some(p) && *p is Temporary;
            match r {
                Ok(()) => !(named && key_exists) && !(named && temporary_parent) && !(takes_no_parent(template)
                    && parent is Some),
                Err(e) => if named && key_exists {
                    e matches Error::KeyAlreadyExists(n) && n@ == key_name.unwrap()@
                } else if named && temporary_parent {
                    e == Error::InvalidParameter("parent must be a stored key for a named key")
                } else {
                    takes_no_parent(template) && parent is Some && e == Error::InvalidParameter(
                        "parent cannot be specified for storage root or symmetric keys",
                    )
                },
            }
        }),
{
    if let Some(name) = key_name {
        ensure_unique_key_name(key_exists, name)?;
        if let Some(KeyId::Temporary(_)) = parent {
            return Err(Error::invalid_param("parent must be a stored key for a named key"));
        }
    }
    let no_parent = match template {
        KeyTemplate::Rsa { storage_parent } => storage_parent,
        KeyTemplate::Symmetric(_) => true,
        KeyTemplate::Ecc => false,
    };
    if no_parent && parent.is_some() {
        return Err(Error::invalid_param("parent cannot be specified for storage root or symmetric keys"));
    }
    Ok(())
}

/// Under what a new key is created.
#[derive(Debug)]
pub enum CreationParent {
    /// Under the storage hierarchy, as a primary key.
    Hierarchy,
    /// Under the shared wrapping key, which wraps a symmetric key.
    SharedWrappingKey,
    /// Under this key.
    Key(KeyId),
    /// Under the storage root key of the library.
    InternalSrk,
}

/// What a new key is created under: a storage root key under the hierarchy, a
/// symmetric key under the shared wrapping key, any other under the parent
/// given or, without one, under the library's storage root key.
pub fn creation_parent(template: KeyTemplate, parent: Option<&KeyId>) -> (p: CreationParent)
    ensures
        (template matches KeyTemplate::Rsa { storage_parent } && storage_parent) ==> p is Hierarchy,
        template is Symmetric ==> p is SharedWrappingKey,
        !takes_no_parent(template) ==> match parent {
            Some(k) => p matches CreationParent::Key(c) && c@ == k@,
            None => p is InternalSrk,
        },
{
    if template.is_storage_parent() {
        return CreationParent::Hierarchy;
    }
    if let KeyTemplate::Symmetric(_) = template {
        return CreationParent::SharedWrappingKey;
    }
    match parent {
        Some(k) => CreationParent::Key(clone_key_id(k)),
        None => CreationParent::InternalSrk,
    }
}

/// The authorization under which a symmetric key's wrapping key is created:
/// none where there is neither an authorization value nor a policy.
pub fn symmetric_authorization(auth: Tpm2bAuth, policy: Option<PolicyData>) -> (a: Option<Authorization>)
    ensures
        match a {
            None => auth@.len() == 0 && policy is None,
            Some(x) => !(auth@.len() == 0 && policy is None) && x.auth@ == auth@ && opt_policy_view(x.policy)
                == opt_policy_view(policy),
        },
{
    if auth.is_empty() && policy.is_none() {
        None
    } else {
        Some(Authorization { auth, policy })
    }
}

/// The name of the stored parent of a key to store: a stored key cannot have
/// a temporary parent.
pub fn stored_parent_name(parent: Option<KeyId>) -> (r: Result<Option<String>, Error>)
    ensures
        match parent {
            Some(KeyId::Stored(n)) => r matches Ok(Some(m)) && m@ == n@,
            Some(KeyId::Temporary(_)) => r == Err::<Option<String>, Error>(Error::Internal),
            None => r matches Ok(None),
        },
{
    match parent {
        Some(KeyId::Stored(name)) => Ok(Some(name)),
        Some(KeyId::Temporary(_)) => Err(Error::invalid_state("stored key cannot have a temporary parent")),
        None => Ok(None),
    }
}

/// Registers a temporary key under `id` where no temporary key has that
/// identifier yet; else hands the key back and leaves the cache as it was.
pub fn try_register_temporary_key<D>(cache: &mut Cache<D>, id: String, key: TemporaryKey<D>) -> (r: Result<
    KeyId,
    TemporaryKey<D>,
>)
    ensures
        old(cache)@.temporary_keys.contains_key(id@) ==> r == Err::<KeyId, TemporaryKey<D>>(key) && final(cache)@
            == old(cache)@,
        !old(cache)@.temporary_keys.contains_key(id@) ==> (r matches Ok(k) && k@ == KeyIdModel::Temporary(id@)
            && final(cache)@.temporary_keys == old(cache)@.temporary_keys.insert(id@, key) && final(cache)@.auths
            == old(cache)@.auths && final(cache)@.branches == old(cache)@.branches),
{
    if cache.contains_temporary_key(id.as_str()) {
        return Err(key);
    }
    let key_id = KeyId::Temporary(id.clone());
    cache.add_temporary_key(id, key);
    Ok(key_id)
}

/// The authorization of a key: the value remembered for it and its policy.
pub fn key_authorization<D>(cache: &Cache<D>, key_id: &KeyId, policy: Option<PolicyData>) -> (a: Authorization)
    ensures
        a.auth@ == spec_auth_of(cache@, TargetModel::Key(key_id@)),
        opt_policy_view(a.policy) == opt_policy_view(policy),
{
    Authorization { auth: cache.auth(&AuthorizationTarget::Key(clone_key_id(key_id))), policy }
}

/// How a key is brought into the TPM.
#[derive(Debug)]
pub enum KeyLoadData {
    /// It is at a persistent handle already.
    Persistent { handle: TpmiDhPersistent, obj_name: Tpm2bName, policy: Option<PolicyData> },
    /// It is created again from its public area under its hierarchy.
    Primary { hierarchy: Hierarchy, public: Tpm2bPublic, obj_name: Tpm2bName, policy: Option<PolicyData> },
    /// Its areas are loaded under its parent, or under the library's storage
    /// root key where it has none.
    Child {
        public: Tpm2bPublic,
        private: Tpm2bPrivate,
        obj_name: Tpm2bName,
        policy: Option<PolicyData>,
        parent: Option<KeyId>,
    },
}

/// What a way of loading a key states.
pub ghost enum KeyLoadModel {
    Persistent { handle: u32, obj_name: Seq<u8>, policy: Option<PolicyModel> },
    Primary { hierarchy: Hierarchy, public: Seq<u8>, obj_name: Seq<u8>, policy: Option<PolicyModel> },
    Child {
        public: Seq<u8>,
        private: Seq<u8>,
        obj_name: Seq<u8>,
        policy: Option<PolicyModel>,
        parent: Option<KeyIdModel>,
    },
}

impl View for KeyLoadData {
    type V = KeyLoadModel;

    open spec fn view(&self) -> KeyLoadModel {
        match self {
            KeyLoadData::Persistent { handle, obj_name, policy } => KeyLoadModel::Persistent {
                handle: handle.0.0,
                obj_name: obj_name@,
                policy: opt_policy_view(*policy),
            },
            KeyLoadData::Primary { hierarchy, public, obj_name, policy } => KeyLoadModel::Primary {
                hierarchy: *hierarchy,
                public: public@,
                obj_name: obj_name@,
                policy: opt_policy_view(*policy),
            },
            KeyLoadData::Child { public, private, obj_name, policy, parent } => KeyLoadModel::Child {
                public: public@,
                private: private@,
                obj_name: obj_name@,
                policy: opt_policy_view(*policy),
                parent: match parent {
                    Some(k) => Some(k@),
                    None => None,
                },
            },
        }
    }
}

/// The labels selected for a key's policy ORs, none where none were selected.
pub open spec fn selected_labels<D>(c: CacheModel<D>, k: KeyIdModel) -> Set<Seq<char>> {
    if c.branches.contains_key(TargetModel::Key(k)) {
        c.branches[TargetModel::Key(k)]
    } else {
        Set::empty()
    }
}

/// A key's policy, where it has one, with the selected branches applied.
pub open spec fn spec_select_opt(p: Option<PolicyModel>, labels: Set<Seq<char>>) -> Result<Option<PolicyModel>, Error> {
    match p {
        None => Ok(None),
        Some(m) => match spec_select_branches(m, labels) {
            Ok(x) => Ok(Some(x)),
            Err(e) => Err(e),
        },
    }
}

/// The policy of the key `key_id` with the branches selected for it in the
/// cache applied; an OR with none of its branches selected fails.
pub fn select_key_policy<D>(cache: &Cache<D>, key_id: KeyId, policy: &Option<PolicyData>) -> (r: Result<
    Option<PolicyData>,
    Error,
>)
    ensures
        match spec_select_opt(opt_policy_view(*policy), selected_labels(cache@, key_id@)) {
            Ok(m) => r matches Ok(q) && opt_policy_view(q) == m,
            Err(e) => r matches Err(x) && x == e,
        },
{
    match policy {
        None => Ok(None),
        Some(p) => {
            let ghost k = key_id@;
            let empty: Vec<String> = Vec::new();
            let labels = match cache.key_policy_branches(key_id) {
                Some(l) => l,
                None => {
                    assert(labels_set(empty@) =~= Set::<Seq<char>>::empty());
                    &empty
                },
            };
            assert(labels_set(labels@) == selected_labels(cache@, k));
            match select_policy_branches(p, labels) {
                Ok(q) => Ok(Some(q)),
                Err(e) => Err(e),
            }
        },
    }
}

/// The labels selected for a hierarchy's policy ORs, none where none were
/// selected.
pub open spec fn selected_hierarchy_labels<D>(c: CacheModel<D>, h: Hierarchy) -> Set<Seq<char>> {
    if c.branches.contains_key(TargetModel::Hierarchy(h)) {
        c.branches[TargetModel::Hierarchy(h)]
    } else {
        Set::empty()
    }
}

/// The policy of a hierarchy with the branches selected for it in the cache
/// applied; an OR with none of its branches selected fails.
pub fn select_hierarchy_policy<D>(cache: &Cache<D>, hierarchy: Hierarchy, policy: &Option<PolicyData>) -> (r: Result<
    Option<PolicyData>,
    Error,
>)
    ensures
        match spec_select_opt(opt_policy_view(*policy), selected_hierarchy_labels(cache@, hierarchy)) {
            Ok(m) => r matches Ok(q) && opt_policy_view(q) == m,
            Err(e) => r matches Err(x) && x == e,
        },
{
    match policy {
        None => Ok(None),
        Some(p) => {
            let empty: Vec<String> = Vec::new();
            let labels = match cache.hierarchy_policy_branches(hierarchy) {
                Some(l) => l,
                None => {
                    assert(labels_set(empty@) =~= Set::<Seq<char>>::empty());
                    &empty
                },
            };
            assert(labels_set(labels@) == selected_hierarchy_labels(cache@, hierarchy));
            match select_policy_branches(p, labels) {
                Ok(q) => Ok(Some(q)),
                Err(e) => Err(e),
            }
        },
    }
}

/// How a stored key is loaded: its policy first takes the branches selected
/// for the key (an OR with none selected fails); then it loads from its
/// persistent handle where it has one,
/// else again under its hierarchy where it is a primary key, else from its
/// areas under its parent; a child without a private area means the store is
/// corrupted, and a symmetric key is no TPM key.
pub open spec fn spec_stored_key_load(m: KeyMetaModel, labels: Set<Seq<char>>) -> Result<KeyLoadModel, Error> {
    match m {
        KeyMetaModel::Symmetric { .. } => Err(Error::Internal),
        KeyMetaModel::Tpm { hierarchy, meta, persistent_handle, parent_name, .. } => match spec_select_opt(
            meta.policy,
            labels,
        ) {
            Err(e) => Err(e),
            Ok(policy) => match persistent_handle {
                Some(h) => Ok(KeyLoadModel::Persistent { handle: h, obj_name: meta.obj_name, policy }),
                None => match hierarchy {
                    Some(hier) => Ok(
                        KeyLoadModel::Primary { hierarchy: hier, public: meta.public, obj_name: meta.obj_name, policy },
                    ),
                    None => match meta.private {
                        Some(private) => Ok(
                            KeyLoadModel::Child {
                                public: meta.public,
                                private,
                                obj_name: meta.obj_name,
                                policy,
                                parent: match parent_name {
                                    Some(n) => Some(KeyIdModel::Stored(n)),
                                    None => None,
                                },
                            },
                        ),
                        None => Err(Error::CorruptedStore),
                    },
                },
            },
        },
    }
}

/// The name a stored key is kept under.
pub open spec fn meta_key_name(m: KeyMetaModel) -> Seq<char> {
    match m {
        KeyMetaModel::Tpm { key_name, .. } => key_name,
        KeyMetaModel::Symmetric { key_name, .. } => key_name,
    }
}

/// How a key is loaded, as its stored metadata says, with the policy
/// branches selected for it in the cache applied to its policy.
pub fn stored_key_load_data<D>(cache: &Cache<D>, meta: KeyMeta) -> (r: Result<KeyLoadData, Error>)
    ensures
        match spec_stored_key_load(meta@, selected_labels(cache@, KeyIdModel::Stored(meta_key_name(meta@)))) {
            Ok(m) => r matches Ok(d) && d@ == m,
            Err(e) => r == Err::<KeyLoadData, Error>(e),
        },
{
    match meta {
        KeyMeta::Symmetric { .. } => Err(Error::invalid_state("unexpected symmetric key as TPM parent")),
        KeyMeta::Tpm { key_name, hierarchy, tpm_key_meta, persistent_handle, parent_name } => {
            let TpmKeyMeta { public, private, obj_name, policy } = tpm_key_meta;
            let policy = select_key_policy(cache, KeyId::Stored(key_name), &policy)?;
            match persistent_handle {
                Some(handle) => Ok(KeyLoadData::Persistent { handle, obj_name, policy }),
                None => match hierarchy {
                    Some(hierarchy) => Ok(KeyLoadData::Primary { hierarchy, public, obj_name, policy }),
                    None => match private {
                        Some(private) => Ok(
                            KeyLoadData::Child {
                                public,
                                private,
                                obj_name,
                                policy,
                                parent: match parent_name {
                                    Some(n) => Some(KeyId::Stored(n)),
                                    None => None,
                                },
                            },
                        ),
                        None => Err(Error::corrupted_store()),
                    },
                },
            }
        },
    }
}

/// A stored TPM key without a policy loads from its persistent handle where
/// it has one, else again as a primary key of its hierarchy where it has
/// one, else from its public and private areas under the stored parent it
/// names (under the library's storage root key where it names none); a
/// child without a private area means the store is corrupted, and a
/// symmetric key loads as no TPM key.
pub proof fn law_stored_key_load(
    key_name: Seq<char>,
    hierarchy: Option<Hierarchy>,
    meta: TpmKeyMetaModel,
    persistent_handle: Option<u32>,
    parent_name: Option<Seq<char>>,
    labels: Set<Seq<char>>,
    other: KeyMetaModel,
)
    requires
        meta.policy is None,
    ensures
        ({
            let r = spec_stored_key_load(
                KeyMetaModel::Tpm { key_name, hierarchy, meta, persistent_handle, parent_name },
                labels,
            );
            &&& persistent_handle matches Some(h) ==> r == Ok::<KeyLoadModel, Error>(
                KeyLoadModel::Persistent { handle: h, obj_name: meta.obj_name, policy: None },
            )
            &&& persistent_handle is None ==> (hierarchy matches Some(x) ==> r == Ok::<KeyLoadModel, Error>(
                KeyLoadModel::Primary { hierarchy: x, public: meta.public, obj_name: meta.obj_name, policy: None },
            ))
            &&& (persistent_handle is None && hierarchy is None) ==> (meta.private matches Some(private) ==> r == Ok::<
                KeyLoadModel,
                Error,
            >(
                KeyLoadModel::Child {
                    public: meta.public,
                    private,
                    obj_name: meta.obj_name,
                    policy: None,
                    parent: match parent_name {
                        Some(n) => Some(KeyIdModel::Stored(n)),
                        None => None,
                    },
                },
            ))
            &&& (persistent_handle is None && hierarchy is None && meta.private is None) ==> r == Err::<
                KeyLoadModel,
                Error,
            >(Error::CorruptedStore)
        }),
        other is Symmetric ==> spec_stored_key_load(other, labels) == Err::<KeyLoadModel, Error>(Error::Internal),
{
}

/// A created RSA or ECC key stored by name loads back as it was created: a
/// storage parent again as a primary key of the storage hierarchy, any
/// other key from its areas under exactly the parent it was created under.
pub proof fn law_created_key_loads_back(
    data: CreatedKeyData,
    template: KeyTemplate,
    key_name: Seq<char>,
    parent_name: Option<Seq<char>>,
    labels: Set<Seq<char>>,
)
    requires
        data.private is Some,
        template is Rsa || template is Ecc,
    ensures
        spec_into_key_meta(CreatedKey::Tpm(data), template, key_name, None, parent_name) matches Ok(m) && {
            let loaded = spec_stored_key_load(m, labels);
            &&& template == (KeyTemplate::Rsa { storage_parent: true }) ==> loaded == Ok::<KeyLoadModel, Error>(
                KeyLoadModel::Primary {
                    hierarchy: Hierarchy::Storage,
                    public: data.public@,
                    obj_name: data.name@,
                    policy: None,
                },
            )
            &&& template != (KeyTemplate::Rsa { storage_parent: true }) ==> loaded == Ok::<KeyLoadModel, Error>(
                KeyLoadModel::Child {
                    public: data.public@,
                    private: data.private.unwrap()@,
                    obj_name: data.name@,
                    policy: None,
                    parent: match parent_name {
                        Some(n) => Some(KeyIdModel::Stored(n)),
                        None => None,
                    },
                },
            )
        },
{
    crate::created::law_created_tpm_key_meta(data, template, key_name, None, parent_name);
}

/// The views of a chain of keys.
pub open spec fn key_id_views(ids: Seq<KeyId>) -> Seq<KeyIdModel> {
    ids.map_values(|k: KeyId| k@)
}

/// Whether two key identifiers name the same key.
pub fn same_key_id(a: &KeyId, b: &KeyId) -> (r: bool)
    ensures
        r == (a@ == b@),
{
    match (a, b) {
        (KeyId::Stored(x), KeyId::Stored(y)) => str_eq(x.as_str(), y.as_str()),
        (KeyId::Temporary(x), KeyId::Temporary(y)) => str_eq(x.as_str(), y.as_str()),
        _ => false,
    }
}

/// Enters a key on the chain of keys being loaded, each the parent of the one
/// before; a key that is on the chain already means that the parents form a
/// cycle, and the chain is left as it was.
pub fn enter_key(ancestors: &mut Vec<KeyId>, key_id: &KeyId) -> (r: Result<(), Error>)
    ensures
        match r {
            Ok(()) => !key_id_views(old(ancestors)@).contains(key_id@) && key_id_views(final(ancestors)@)
                == key_id_views(old(ancestors)@).push(key_id@),
            Err(e) => key_id_views(old(ancestors)@).contains(key_id@) && e is Internal && final(ancestors)@ == old(
                ancestors,
            )@,
        },
{
    let mut i: usize = 0;
    while i < ancestors.len()
        invariant
            i <= ancestors@.len(),
            forall|j: int| 0 <= j < i ==> key_id_views(ancestors@)[j] != key_id@,
        decreases ancestors@.len() - i,
    {
        if same_key_id(&ancestors[i], key_id) {
            assert(key_id_views(ancestors@)[i as int] == key_id@);
            return Err(Error::invalid_state("invalid key parent chain"));
        }
        i += 1;
    }
    let ghost before = ancestors@;
    ancestors.push(clone_key_id(key_id));
    assert(key_id_views(ancestors@) =~= key_id_views(before).push(key_id@));
    Ok(())
}

/// How a temporary key is loaded: its policy first takes the branches
/// selected for the key (an OR with none selected fails); then the key loads
/// from its persistent handle where it is at one; a storage root key again
/// under the storage hierarchy; another RSA or ECC key from its areas under
/// its parent, which needs its private area; a symmetric key is no TPM key.
pub open spec fn spec_temporary_key_load(t: TemporaryKey<KeyData>, labels: Set<Seq<char>>) -> Result<
    KeyLoadModel,
    Error,
> {
    match spec_select_opt(opt_policy_view(t.policy), labels) {
        Err(e) => Err(e),
        Ok(policy) => spec_temporary_key_load_with(t, policy),
    }
}

/// How a temporary key is loaded, with `policy` as its policy.
pub open spec fn spec_temporary_key_load_with(t: TemporaryKey<KeyData>, policy: Option<PolicyModel>) -> Result<
    KeyLoadModel,
    Error,
> {
    let parent = match t.parent {
        Some(k) => Some(k@),
        None => None,
    };
    let child = |h: HandleModel|
        match h {
            HandleModel::Persistent { handle, obj_name } => Ok(KeyLoadModel::Persistent { handle, obj_name, policy }),
            HandleModel::Transient { public, private, obj_name } => match private {
                None => Err(Error::Internal),
                Some(p) => if p.len() <= 65535 {
                    Ok(KeyLoadModel::Child { public, private: p, obj_name, policy, parent })
                } else {
                    Err(Error::TooLong { name: "Tpm2bPrivate", max: 65535 })
                },
            },
        };
    match t.data@ {
        KeyDataModel::Srk(h) => match h {
            HandleModel::Persistent { handle, obj_name } => Ok(KeyLoadModel::Persistent { handle, obj_name, policy }),
            HandleModel::Transient { public, obj_name, .. } => Ok(
                KeyLoadModel::Primary { hierarchy: Hierarchy::Storage, public, obj_name, policy },
            ),
        },
        KeyDataModel::Rsa(h) => child(h),
        KeyDataModel::Ecc(h) => child(h),
        KeyDataModel::Symmetric { .. } => Err(Error::Internal),
    }
}

fn clone_name(n: &Tpm2bName) -> (c: Tpm2bName)
    ensures
        c@ == n@,
{
    Tpm2bName { buffer: n.buffer.clone() }
}

fn clone_public(p: &Tpm2bPublic) -> (c: Tpm2bPublic)
    ensures
        c@ == p@,
{
    Tpm2bPublic { buffer: p.buffer.clone() }
}

/// How a key that is loaded under its parent is loaded, from where it lives.
fn child_load_data(
    h: &HandleResource,
    policy: Option<PolicyData>,
    parent: &Option<KeyId>,
) -> (r: Result<KeyLoadData, Error>)
    ensures
        ({
            let pv = opt_policy_view(policy);
            let parent_view = match *parent {
                Some(k) => Some(k@),
                None => None,
            };
            match h@ {
                HandleModel::Persistent { handle, obj_name } => r matches Ok(d) && d@ == KeyLoadModel::Persistent {
                    handle,
                    obj_name,
                    policy: pv,
                },
                HandleModel::Transient { public, private, obj_name } => match private {
                    None => r matches Err(e) && e == Error::Internal,
                    Some(p) => if p.len() <= 65535 {
                        r matches Ok(d) && d@ == KeyLoadModel::Child {
                            public,
                            private: p,
                            obj_name,
                            policy: pv,
                            parent: parent_view,
                        }
                    } else {
                        r matches Err(e) && e == Error::TooLong { name: "Tpm2bPrivate", max: 65535 }
                    },
                },
            }
        }),
{
    match h {
        HandleResource::Persistent { handle, obj_name } => Ok(
            KeyLoadData::Persistent { handle: *handle, obj_name: clone_name(obj_name), policy },
        ),
        HandleResource::Transient { public, private, obj_name } => {
            let private = match private {
                Some(p) => p,
                None => return Err(Error::invalid_state("temporary child key private data is missing")),
            };
            let private = Tpm2bPrivate::from_bytes(private.as_bytes())?;
            let parent = match parent {
                Some(k) => Some(clone_key_id(k)),
                None => None,
            };
            Ok(
                KeyLoadData::Child {
                    public: clone_public(public),
                    private,
                    obj_name: clone_name(obj_name),
                    policy,
                    parent,
                },
            )
        },
    }
}

/// How a temporary key of the cache is loaded; a key the cache does not
/// know is an error.
pub fn load_temporary_key_data(cache: &Cache<KeyData>, id: &str) -> (r: Result<KeyLoadData, Error>)
    ensures
        match (if cache@.temporary_keys.contains_key(id@) {
            spec_temporary_key_load(
                cache@.temporary_keys[id@],
                selected_labels(cache@, KeyIdModel::Temporary(id@)),
            )
        } else {
            Err(Error::Internal)
        }) {
            Ok(m) => r matches Ok(d) && d@ == m,
            Err(e) => r matches Err(x) && x == e,
        },
{
    let temporary_key = match cache.temporary_key(id) {
        Some(k) => k,
        None => return Err(Error::invalid_state("temporary key is not registered")),
    };
    let policy = select_key_policy(cache, KeyId::Temporary(id.to_string()), &temporary_key.policy)?;
    match &temporary_key.data {
        KeyData::Srk(HandleResource::Persistent { handle, obj_name }) => Ok(
            KeyLoadData::Persistent { handle: *handle, obj_name: clone_name(obj_name), policy },
        ),
        KeyData::Srk(HandleResource::Transient { public, obj_name, .. }) => Ok(
            KeyLoadData::Primary {
                hierarchy: Hierarchy::Storage,
                public: clone_public(public),
                obj_name: clone_name(obj_name),
                policy,
            },
        ),
        KeyData::Rsa(h) => child_load_data(h, policy, &temporary_key.parent),
        KeyData::Ecc(h) => child_load_data(h, policy, &temporary_key.parent),
        KeyData::Symmetric { .. } => Err(Error::invalid_state("unexpected symmetric key as TPM parent")),
    }
}

/// The key stored under `key_name`, where the store holds one
/// (`key_exists` tells whether it does).
pub fn open_stored_key(key_exists: bool, key_name: &str) -> (r: Result<KeyId, Error>)
    ensures
        match r {
            Ok(k) => key_exists && k@ == KeyIdModel::Stored(key_name@),
            Err(e) => !key_exists && e == Error::KeyNotFound,
        },
{
    if key_exists {
        Ok(KeyId::Stored(key_name.to_string()))
    } else {
        Err(Error::KeyNotFound)
    }
}

} // verus!
