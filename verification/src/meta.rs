//! Key metadata as the first store layout kept it: each key under an
//! identifier, with its kind, its stored areas and where it is loaded from.
use vstd::prelude::*;

use vstd::std_specs::convert::FromSpecImpl;

use crate::hierarchy::{spec_hierarchy_name, Hierarchy};
use crate::store::{
    spec_block_cipher_name, spec_cipher_mode_name, spec_key_bits_value, block_cipher_to_str, cipher_mode_to_str,
    symmetric_key_bits_to_u16, BlockCipher, CipherMode, SymmetricKeyBits,
};

verus! {

/// Where a primary key comes from when it is loaded.
#[derive(Debug, Clone, Copy, PartialEq, Eq, Structural)]
pub enum PrimaryKeySource {
    Recreate,
    PersistentHandle { handle: u32 },
}

/// Where a child key comes from when it is loaded.
#[derive(Debug, Clone, Copy, PartialEq, Eq, Structural)]
pub enum ChildKeySource {
    StoredBlob,
    PersistentHandle { handle: u32 },
}

/// The stored load source of a primary key.
#[derive(Debug, Clone, Copy, PartialEq, Eq, Structural)]
pub enum PrimaryKeyLoadSource {
    Recreate,
    PersistentHandle { handle: u32 },
}

/// The stored load source of a child key.
#[derive(Debug, Clone, Copy, PartialEq, Eq, Structural)]
pub enum ChildKeyLoadSource {
    StoredBlob,
    PersistentHandle { handle: u32 },
}

impl PrimaryKeyLoadSource {
    pub fn decode(self) -> (s: PrimaryKeySource)
        ensures
            s == match self {
                PrimaryKeyLoadSource::Recreate => PrimaryKeySource::Recreate,
                PrimaryKeyLoadSource::PersistentHandle { handle } => PrimaryKeySource::PersistentHandle { handle },
            },
    {
        match self {
            PrimaryKeyLoadSource::Recreate => PrimaryKeySource::Recreate,
            PrimaryKeyLoadSource::PersistentHandle { handle } => PrimaryKeySource::PersistentHandle { handle },
        }
    }
}

impl ChildKeyLoadSource {
    pub fn decode(self) -> (s: ChildKeySource)
        ensures
            s == match self {
                ChildKeyLoadSource::StoredBlob => ChildKeySource::StoredBlob,
                ChildKeyLoadSource::PersistentHandle { handle } => ChildKeySource::PersistentHandle { handle },
            },
    {
        match self {
            ChildKeyLoadSource::StoredBlob => ChildKeySource::StoredBlob,
            ChildKeyLoadSource::PersistentHandle { handle } => ChildKeySource::PersistentHandle { handle },
        }
    }
}

/// A persistent handle and the name of the object in it.
#[derive(Debug, Clone)]
pub struct PersistentHandle {
    pub handle: u32,
    pub name: Vec<u8>,
}

impl PersistentHandle {
    pub fn new(handle: u32, name: &[u8]) -> (p: PersistentHandle)
        ensures
            p.handle == handle,
            p.name@ == name@,
    {
        PersistentHandle { handle, name: vstd::slice::slice_to_vec(name) }
    }
}

/// The stored metadata of a primary key.
#[derive(Debug, Clone)]
pub struct PrimaryKeyMeta {
    pub id: String,
    pub hierarchy: String,
    pub public: Vec<u8>,
    pub name: Vec<u8>,
    pub source: PrimaryKeyLoadSource,
    pub policy: Option<String>,
}

impl PrimaryKeyMeta {
    /// The metadata of a primary key that is recreated when it is loaded.
    pub fn new(id: String, hierarchy: Hierarchy, public: &[u8], name: &[u8], policy: Option<String>) -> (m:
        PrimaryKeyMeta)
        ensures
            m.id@ == id@,
            m.hierarchy@ == spec_hierarchy_name(hierarchy),
            m.public@ == public@,
            m.name@ == name@,
            m.source == PrimaryKeyLoadSource::Recreate,
            m.policy == policy,
    {
        PrimaryKeyMeta {
            id,
            hierarchy: crate::hierarchy::hierarchy_to_str(hierarchy).to_string(),
            public: vstd::slice::slice_to_vec(public),
            name: vstd::slice::slice_to_vec(name),
            source: PrimaryKeyLoadSource::Recreate,
            policy,
        }
    }
}

/// The stored metadata of a child key.
#[derive(Debug, Clone)]
pub struct ChildKeyMeta {
    pub id: String,
    pub public: Vec<u8>,
    pub private: Vec<u8>,
    pub name: Vec<u8>,
    pub load_source: ChildKeyLoadSource,
    pub policy: Option<String>,
    pub parent_id: Option<String>,
}

impl ChildKeyMeta {
    /// The metadata of a child key that is loaded from its stored areas.
    pub fn new(
        id: String,
        public: &[u8],
        private: &[u8],
        name: &[u8],
        policy: Option<String>,
        parent_id: Option<String>,
    ) -> (m: ChildKeyMeta)
        ensures
            m.id@ == id@,
            m.public@ == public@,
            m.private@ == private@,
            m.name@ == name@,
            m.load_source == ChildKeyLoadSource::StoredBlob,
            m.policy == policy,
            m.parent_id == parent_id,
    {
        ChildKeyMeta {
            id,
            public: vstd::slice::slice_to_vec(public),
            private: vstd::slice::slice_to_vec(private),
            name: vstd::slice::slice_to_vec(name),
            load_source: ChildKeyLoadSource::StoredBlob,
            policy,
            parent_id,
        }
    }
}

/// The stored metadata of a symmetric key.
#[derive(Debug, Clone)]
pub struct SymmetricKeyMeta {
    pub id: String,
    pub block_cipher: String,
    pub key_bits: u16,
    pub mode: String,
    pub wrapped_key: Vec<u8>,
    pub wrapping_key_id: Option<String>,
}

impl SymmetricKeyMeta {
    pub fn new(
        id: String,
        block_cipher: BlockCipher,
        key_bits: SymmetricKeyBits,
        mode: CipherMode,
        wrapped_key: &[u8],
        wrapping_key_id: Option<&str>,
    ) -> (m: SymmetricKeyMeta)
        ensures
            m.id@ == id@,
            m.block_cipher@ == spec_block_cipher_name(block_cipher),
            m.key_bits == spec_key_bits_value(key_bits),
            m.mode@ == spec_cipher_mode_name(mode),
            m.wrapped_key@ == wrapped_key@,
            match wrapping_key_id {
                Some(w) => m.wrapping_key_id matches Some(s) && s@ == w@,
                None => m.wrapping_key_id is None,
            },
    {
        SymmetricKeyMeta {
            id,
            block_cipher: block_cipher_to_str(block_cipher).to_string(),
            key_bits: symmetric_key_bits_to_u16(key_bits),
            mode: cipher_mode_to_str(mode).to_string(),
            wrapped_key: vstd::slice::slice_to_vec(wrapped_key),
            wrapping_key_id: match wrapping_key_id {
                Some(w) => Some(w.to_string()),
                None => None,
            },
        }
    }
}

/// The stored metadata of a key of the library.
#[derive(Debug, Clone)]
pub struct InternalKeyMeta {
    pub id: String,
    pub public: Vec<u8>,
    pub private: Vec<u8>,
    pub policy: Option<String>,
}

impl InternalKeyMeta {
    pub fn id(&self) -> (s: &str)
        ensures
            s@ == self.id@,
    {
        self.id.as_str()
    }
}

/// The stored metadata of a user key.
#[derive(Debug, Clone)]
pub enum KeyMeta {
    Primary(PrimaryKeyMeta),
    Child(ChildKeyMeta),
    Symmetric(SymmetricKeyMeta),
}

impl KeyMeta {
    /// The key's identifier.
    pub fn id(&self) -> (s: &str)
        ensures
            s@ == match self {
                KeyMeta::Primary(m) => m.id@,
                KeyMeta::Child(m) => m.id@,
                KeyMeta::Symmetric(m) => m.id@,
            },
    {
        match self {
            KeyMeta::Primary(meta) => meta.id.as_str(),
            KeyMeta::Child(meta) => meta.id.as_str(),
            KeyMeta::Symmetric(meta) => meta.id.as_str(),
        }
    }

    /// The kind under which the key is stored.
    pub fn kind(&self) -> (s: &'static str)
        ensures
            s@ == match self {
                KeyMeta::Primary(_) => "primary"@,
                KeyMeta::Child(_) => "child"@,
                KeyMeta::Symmetric(_) => "symmetric"@,
            },
    {
        match self {
            KeyMeta::Primary(_) => "primary",
            KeyMeta::Child(_) => "child",
            KeyMeta::Symmetric(_) => "symmetric",
        }
    }
}


impl From<PrimaryKeyMeta> for KeyMeta {
    fn from(value: PrimaryKeyMeta) -> (k: KeyMeta) {
        KeyMeta::Primary(value)
    }
}

impl FromSpecImpl<PrimaryKeyMeta> for KeyMeta {
    open spec fn obeys_from_spec() -> bool {
        true
    }

    open spec fn from_spec(value: PrimaryKeyMeta) -> KeyMeta {
        KeyMeta::Primary(value)
    }
}

impl From<ChildKeyMeta> for KeyMeta {
    fn from(value: ChildKeyMeta) -> (k: KeyMeta) {
        KeyMeta::Child(value)
    }
}

impl FromSpecImpl<ChildKeyMeta> for KeyMeta {
    open spec fn obeys_from_spec() -> bool {
        true
    }

    open spec fn from_spec(value: ChildKeyMeta) -> KeyMeta {
        KeyMeta::Child(value)
    }
}

impl From<SymmetricKeyMeta> for KeyMeta {
    fn from(value: SymmetricKeyMeta) -> (k: KeyMeta) {
        KeyMeta::Symmetric(value)
    }
}

impl FromSpecImpl<SymmetricKeyMeta> for KeyMeta {
    open spec fn obeys_from_spec() -> bool {
        true
    }

    open spec fn from_spec(value: SymmetricKeyMeta) -> KeyMeta {
        KeyMeta::Symmetric(value)
    }
}

} // verus!
