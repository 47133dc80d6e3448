//! A key just created, and the metadata under which it is stored.
use vstd::prelude::*;

use crate::cache::{KeyId, TemporaryKey};
use crate::error::Error;
use crate::handle::TpmiDhPersistent;
use crate::hierarchy::Hierarchy;
use crate::policy::PolicyData;
use crate::store::{
    opt_policy_view, opt_private_view, opt_string_view, BlockCipher, CipherMode, KeyMeta, KeyMetaModel,
    SymmetricKeyBits, TpmKeyMeta, TpmKeyMetaModel, WrappingKeyMeta,
};
use crate::tpm::{Tpm2bName, Tpm2bPrivate, Tpm2bPublic, Tpm2bPublicKeyRsa};

verus! {

/// The parameters of a symmetric key.
#[derive(Debug, Clone, Copy, PartialEq, Eq, Structural)]
pub struct SymmetricTemplate {
    pub block_cipher: BlockCipher,
    pub key_bits: SymmetricKeyBits,
    pub mode: CipherMode,
}

impl SymmetricTemplate {
    pub fn block_cipher(&self) -> (c: BlockCipher)
        ensures
            c == self.block_cipher,
    {
        self.block_cipher
    }

    pub fn key_bits(&self) -> (b: SymmetricKeyBits)
        ensures
            b == self.key_bits,
    {
        self.key_bits
    }

    pub fn mode(&self) -> (m: CipherMode)
        ensures
            m == self.mode,
    {
        self.mode
    }
}

/// What kind of key to create, as far as storing it goes.
#[derive(Debug, Clone, Copy, PartialEq, Eq, Structural)]
pub enum KeyTemplate {
    /// An RSA key; a storage parent is a primary key of the storage hierarchy.
    Rsa { storage_parent: bool },
    Ecc,
    Symmetric(SymmetricTemplate),
}

impl KeyTemplate {
    pub fn is_storage_parent(&self) -> (b: bool)
        ensures
            b == (*self matches KeyTemplate::Rsa { storage_parent } && storage_parent),
    {
        match self {
            KeyTemplate::Rsa { storage_parent } => *storage_parent,
            _ => false,
        }
    }
}

/// The areas and name of a key the TPM created.
#[derive(Debug)]
pub struct CreatedKeyData {
    pub public: Tpm2bPublic,
    pub private: Option<Tpm2bPrivate>,
    pub name: Tpm2bName,
}

/// A key just created: a TPM key, or a symmetric key wrapped by a TPM key,
/// with the wrapping key where one was created for it.
#[derive(Debug)]
pub enum CreatedKey {
    Tpm(CreatedKeyData),
    Symmetric { key: Tpm2bPublicKeyRsa, wrapping_key: Option<CreatedKeyData> },
}

/// The stored parts of a created TPM key with its policy.
pub open spec fn created_meta(data: CreatedKeyData, policy: Option<PolicyData>) -> TpmKeyMetaModel {
    TpmKeyMetaModel {
        public: data.public@,
        private: opt_private_view(data.private),
        obj_name: data.name@,
        policy: opt_policy_view(policy),
    }
}

/// The metadata under which a created key is stored: an RSA storage parent
/// is a primary key of the storage hierarchy, any other RSA or ECC key a
/// child of `parent_name`; a symmetric key keeps its template and the wrapped
/// key, and its policy goes to its dedicated wrapping key, without which it
/// can have none. A key that does not fit its template is an error.
pub open spec fn spec_into_key_meta(
    key: CreatedKey,
    template: KeyTemplate,
    key_name: Seq<char>,
    policy: Option<PolicyData>,
    parent_name: Option<Seq<char>>,
) -> Result<KeyMetaModel, Error> {
    match (template, key) {
        (KeyTemplate::Rsa { storage_parent }, CreatedKey::Tpm(data)) => if storage_parent {
            Ok(
                KeyMetaModel::Tpm {
                    key_name,
                    hierarchy: Some(Hierarchy::Storage),
                    meta: created_meta(data, policy),
                    persistent_handle: None,
                    parent_name: None,
                },
            )
        } else {
            Ok(
                KeyMetaModel::Tpm {
                    key_name,
                    hierarchy: None,
                    meta: created_meta(data, policy),
                    persistent_handle: None,
                    parent_name,
                },
            )
        },
        (KeyTemplate::Ecc, CreatedKey::Tpm(data)) => Ok(
            KeyMetaModel::Tpm {
                key_name,
                hierarchy: None,
                meta: created_meta(data, policy),
                persistent_handle: None,
                parent_name,
            },
        ),
        (KeyTemplate::Symmetric(t), CreatedKey::Symmetric { key, wrapping_key }) => match wrapping_key {
            Some(data) => Ok(
                KeyMetaModel::Symmetric {
                    key_name,
                    block_cipher: t.block_cipher,
                    key_bits: t.key_bits,
                    mode: t.mode,
                    wrapped_key: key@,
                    wrapping_key: Some(created_meta(data, policy)),
                },
            ),
            None => if policy is Some {
                Err(Error::Internal)
            } else {
                Ok(
                    KeyMetaModel::Symmetric {
                        key_name,
                        block_cipher: t.block_cipher,
                        key_bits: t.key_bits,
                        mode: t.mode,
                        wrapped_key: key@,
                        wrapping_key: None,
                    },
                )
            },
        },
        _ => Err(Error::Internal),
    }
}

impl CreatedKey {
    /// The metadata under which the key is stored.
    pub fn into_key_meta(
        self,
        template: KeyTemplate,
        key_name: String,
        policy: Option<PolicyData>,
        parent_name: Option<String>,
    ) -> (r: Result<KeyMeta, Error>)
        ensures
            match spec_into_key_meta(self, template, key_name@, policy, opt_string_view(parent_name)) {
                Ok(m) => r matches Ok(k) && k@ == m,
                Err(e) => r == Err::<KeyMeta, Error>(e),
            },
    {
        match (template, self) {
            (KeyTemplate::Rsa { storage_parent }, CreatedKey::Tpm(key_data)) => {
                let tpm_key_meta = TpmKeyMeta {
                    public: key_data.public,
                    private: key_data.private,
                    obj_name: key_data.name,
                    policy,
                };
                if template.is_storage_parent() {
                    Ok(KeyMeta::owner_primary(key_name, tpm_key_meta, None))
                } else {
                    Ok(KeyMeta::child(key_name, tpm_key_meta, None, parent_name))
                }
            },
            (KeyTemplate::Ecc, CreatedKey::Tpm(key_data)) => Ok(
                KeyMeta::child(
                    key_name,
                    TpmKeyMeta {
                        public: key_data.public,
                        private: key_data.private,
                        obj_name: key_data.name,
                        policy,
                    },
                    None,
                    parent_name,
                ),
            ),
            (KeyTemplate::Symmetric(template), CreatedKey::Symmetric { key, wrapping_key }) => {
                let wrapping_key = match wrapping_key {
                    Some(key_data) => WrappingKeyMeta::Dedicated(
                        TpmKeyMeta {
                            public: key_data.public,
                            private: key_data.private,
                            obj_name: key_data.name,
                            policy,
                        },
                    ),
                    None => {
                        if policy.is_some() {
                            return Err(
                                Error::invalid_state("symmetric key policy requires a dedicated wrapping key"),
                            );
                        }
                        WrappingKeyMeta::Shared
                    },
                };

                Ok(
                    KeyMeta::symmetric(
                        key_name,
                        template.block_cipher(),
                        template.key_bits(),
                        template.mode(),
                        vstd::slice::slice_to_vec(key.as_bytes()),
                        wrapping_key,
                    ),
                )
            },
            _ => Err(Error::invalid_state("created key type does not match its template")),
        }
    }
}

/// A created RSA or ECC key is stored under the name it was given, with its
/// public and private areas, its name and its policy as they came: an RSA
/// storage parent as a primary key of the storage hierarchy with no parent,
/// any other RSA key and every ECC key as a child of exactly the parent that
/// was named (none where none was), in no hierarchy and at no persistent
/// handle. A TPM key under a symmetric template is refused.
pub proof fn law_created_tpm_key_meta(
    data: CreatedKeyData,
    template: KeyTemplate,
    key_name: Seq<char>,
    policy: Option<PolicyData>,
    parent_name: Option<Seq<char>>,
)
    ensures
        ({
            let stored = TpmKeyMetaModel {
                public: data.public@,
                private: opt_private_view(data.private),
                obj_name: data.name@,
                policy: opt_policy_view(policy),
            };
            let r = spec_into_key_meta(CreatedKey::Tpm(data), template, key_name, policy, parent_name);
            &&& (template == KeyTemplate::Ecc || template == (KeyTemplate::Rsa { storage_parent: false })) ==> r == Ok::<
                KeyMetaModel,
                Error,
            >(
                KeyMetaModel::Tpm {
                    key_name,
                    hierarchy: None,
                    meta: stored,
                    persistent_handle: None,
                    parent_name,
                },
            )
            &&& template == (KeyTemplate::Rsa { storage_parent: true }) ==> r == Ok::<KeyMetaModel, Error>(
                KeyMetaModel::Tpm {
                    key_name,
                    hierarchy: Some(Hierarchy::Storage),
                    meta: stored,
                    persistent_handle: None,
                    parent_name: None,
                },
            )
            &&& template is Symmetric ==> r == Err::<KeyMetaModel, Error>(Error::Internal)
        }),
{
}

/// A created symmetric key is stored with its template's cipher, key size
/// and mode and the wrapped key bytes as they came; the policy goes to its
/// dedicated wrapping key, and a policy without a dedicated wrapping key, or
/// a symmetric key under an RSA or ECC template, is refused.
pub proof fn law_created_symmetric_key_meta(
    key: Tpm2bPublicKeyRsa,
    wrapping_key: Option<CreatedKeyData>,
    template: KeyTemplate,
    key_name: Seq<char>,
    policy: Option<PolicyData>,
    parent_name: Option<Seq<char>>,
)
    ensures
        ({
            let r = spec_into_key_meta(
                CreatedKey::Symmetric { key, wrapping_key },
                template,
                key_name,
                policy,
                parent_name,
            );
            &&& !(template is Symmetric) ==> r == Err::<KeyMetaModel, Error>(Error::Internal)
            &&& template matches KeyTemplate::Symmetric(t) ==> {
                &&& (wrapping_key is None && policy is Some) ==> r == Err::<KeyMetaModel, Error>(Error::Internal)
                &&& wrapping_key matches Some(d) ==> r == Ok::<KeyMetaModel, Error>(
                    KeyMetaModel::Symmetric {
                        key_name,
                        block_cipher: t.block_cipher,
                        key_bits: t.key_bits,
                        mode: t.mode,
                        wrapped_key: key@,
                        wrapping_key: Some(
                            TpmKeyMetaModel {
                                public: d.public@,
                                private: opt_private_view(d.private),
                                obj_name: d.name@,
                                policy: opt_policy_view(policy),
                            },
                        ),
                    },
                )
                &&& (wrapping_key is None && policy is None) ==> r == Ok::<KeyMetaModel, Error>(
                    KeyMetaModel::Symmetric {
                        key_name,
                        block_cipher: t.block_cipher,
                        key_bits: t.key_bits,
                        mode: t.mode,
                        wrapped_key: key@,
                        wrapping_key: None,
                    },
                )
            }
        }),
{
}

/// Where a key of a context lives: at a persistent handle, or in its areas,
/// which are loaded when the key is used.
#[derive(Debug)]
pub enum HandleResource {
    Persistent { handle: TpmiDhPersistent, obj_name: Tpm2bName },
    Transient { public: Tpm2bPublic, private: Option<Tpm2bPrivate>, obj_name: Tpm2bName },
}

/// What a place of a key states.
pub ghost enum HandleModel {
    Persistent { handle: u32, obj_name: Seq<u8> },
    Transient { public: Seq<u8>, private: Option<Seq<u8>>, obj_name: Seq<u8> },
}

impl View for HandleResource {
    type V = HandleModel;

    open spec fn view(&self) -> HandleModel {
        match self {
            HandleResource::Persistent { handle, obj_name } => HandleModel::Persistent {
                handle: handle.0.0,
                obj_name: obj_name@,
            },
            HandleResource::Transient { public, private, obj_name } => HandleModel::Transient {
                public: public@,
                private: opt_private_view(*private),
                obj_name: obj_name@,
            },
        }
    }
}

/// The data of a temporary key, by its kind: a storage root key, an RSA or
/// ECC key, or a symmetric key wrapped by an RSA key.
#[derive(Debug)]
pub enum KeyData {
    Srk(HandleResource),
    Rsa(HandleResource),
    Ecc(HandleResource),
    Symmetric { template: SymmetricTemplate, wrapping_key: Option<HandleResource>, wrapped_key: Tpm2bPublicKeyRsa },
}

/// What the data of a temporary key states.
pub ghost enum KeyDataModel {
    Srk(HandleModel),
    Rsa(HandleModel),
    Ecc(HandleModel),
    Symmetric { template: SymmetricTemplate, wrapping_key: Option<HandleModel>, wrapped_key: Seq<u8> },
}

impl View for KeyData {
    type V = KeyDataModel;

    open spec fn view(&self) -> KeyDataModel {
        match self {
            KeyData::Srk(h) => KeyDataModel::Srk(h@),
            KeyData::Rsa(h) => KeyDataModel::Rsa(h@),
            KeyData::Ecc(h) => KeyDataModel::Ecc(h@),
            KeyData::Symmetric { template, wrapping_key, wrapped_key } => KeyDataModel::Symmetric {
                template: *template,
                wrapping_key: match wrapping_key {
                    Some(h) => Some(h@),
                    None => None,
                },
                wrapped_key: wrapped_key@,
            },
        }
    }
}

/// The areas of a created key, to be loaded when it is used.
pub open spec fn created_handle(data: CreatedKeyData) -> HandleModel {
    HandleModel::Transient { public: data.public@, private: opt_private_view(data.private), obj_name: data.name@ }
}

/// The data under which a created key lives in its context: an RSA storage
/// parent is a storage root key, other RSA and ECC keys keep their kind, a
/// symmetric key keeps its template, the wrapped key and its wrapping key; a
/// key that does not fit its template is an error.
pub open spec fn spec_temporary_key_data(key: CreatedKey, template: KeyTemplate) -> Result<KeyDataModel, Error> {
    match key {
        CreatedKey::Tpm(data) => match template {
            KeyTemplate::Ecc => Ok(KeyDataModel::Ecc(created_handle(data))),
            KeyTemplate::Rsa { storage_parent } => if storage_parent {
                Ok(KeyDataModel::Srk(created_handle(data)))
            } else {
                Ok(KeyDataModel::Rsa(created_handle(data)))
            },
            KeyTemplate::Symmetric(_) => Err(Error::Internal),
        },
        CreatedKey::Symmetric { key, wrapping_key } => match template {
            KeyTemplate::Symmetric(t) => Ok(
                KeyDataModel::Symmetric {
                    template: t,
                    wrapping_key: match wrapping_key {
                        Some(d) => Some(created_handle(d)),
                        None => None,
                    },
                    wrapped_key: key@,
                },
            ),
            _ => Err(Error::Internal),
        },
    }
}

fn transient_of(data: CreatedKeyData) -> (h: HandleResource)
    ensures
        h@ == created_handle(data),
{
    HandleResource::Transient { public: data.public, private: data.private, obj_name: data.name }
}

impl CreatedKey {
    /// The temporary key that a created key becomes, with its policy and parent.
    pub fn into_temporary_key(self, template: KeyTemplate, policy: Option<PolicyData>, parent: Option<KeyId>) -> (r:
        Result<TemporaryKey<KeyData>, Error>)
        ensures
            match spec_temporary_key_data(self, template) {
                Ok(d) => r matches Ok(t) && t.data@ == d && opt_policy_view(t.policy) == opt_policy_view(policy)
                    && t.parent == parent,
                Err(e) => r matches Err(x) && x == e,
            },
    {
        match self {
            CreatedKey::Tpm(key_data) => {
                let handle_resource = transient_of(key_data);
                let data = match template {
                    KeyTemplate::Ecc => KeyData::Ecc(handle_resource),
                    KeyTemplate::Rsa { storage_parent } => {
                        if storage_parent {
                            KeyData::Srk(handle_resource)
                        } else {
                            KeyData::Rsa(handle_resource)
                        }
                    },
                    KeyTemplate::Symmetric(_) => {
                        return Err(Error::invalid_state("created key type does not match its template"));
                    },
                };
                Ok(TemporaryKey { data, policy, parent })
            },
            CreatedKey::Symmetric { key, wrapping_key } => {
                let sym_template = match template {
                    KeyTemplate::Symmetric(t) => t,
                    _ => {
                        return Err(Error::invalid_state("created key type does not match its template"));
                    },
                };
                let wrapping_key = match wrapping_key {
                    Some(d) => Some(transient_of(d)),
                    None => None,
                };
                Ok(
                    TemporaryKey {
                        data: KeyData::Symmetric { template: sym_template, wrapping_key, wrapped_key: key },
                        policy,
                        parent,
                    },
                )
            },
        }
    }
}


/// A created key kept as a temporary key keeps its areas as they came and
/// its kind: an RSA storage parent becomes a storage root key, any other RSA
/// key an RSA key, an ECC key an ECC key, a symmetric key its template, the
/// wrapped key and its wrapping key; a key under a template of another kind
/// is refused.
pub proof fn law_created_temporary_key_data(key: CreatedKey, template: KeyTemplate)
    ensures
        key matches CreatedKey::Tpm(data) ==> {
            let h = HandleModel::Transient {
                public: data.public@,
                private: opt_private_view(data.private),
                obj_name: data.name@,
            };
            let r = spec_temporary_key_data(key, template);
            &&& template == (KeyTemplate::Rsa { storage_parent: true }) ==> r == Ok::<KeyDataModel, Error>(
                KeyDataModel::Srk(h),
            )
            &&& template == (KeyTemplate::Rsa { storage_parent: false }) ==> r == Ok::<KeyDataModel, Error>(
                KeyDataModel::Rsa(h),
            )
            &&& template == KeyTemplate::Ecc ==> r == Ok::<KeyDataModel, Error>(KeyDataModel::Ecc(h))
            &&& template is Symmetric ==> r == Err::<KeyDataModel, Error>(Error::Internal)
        },
        key matches CreatedKey::Symmetric { key: k, wrapping_key } ==> {
            let r = spec_temporary_key_data(key, template);
            &&& !(template is Symmetric) ==> r == Err::<KeyDataModel, Error>(Error::Internal)
            &&& template matches KeyTemplate::Symmetric(t) ==> r == Ok::<KeyDataModel, Error>(
                KeyDataModel::Symmetric {
                    template: t,
                    wrapping_key: match wrapping_key {
                        Some(d) => Some(
                            HandleModel::Transient {
                                public: d.public@,
                                private: opt_private_view(d.private),
                                obj_name: d.name@,
                            },
                        ),
                        None => None,
                    },
                    wrapped_key: k@,
                },
            )
        },
{
}

} // verus!
