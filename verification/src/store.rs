//! The key metadata that the store keeps, and its rows: what is written for a
//! key and how a row read back is checked and turned into metadata again.
use vstd::prelude::*;

use crate::codec::{marshal_policy_data, parse_stored_policy, policy_encodable, stored_policy_bytes, unmarshal_policy_data, clear_selection, policy_wf};
use crate::error::Error;
use crate::handle::{is_persistent_handle, TpmiDhPersistent};
use crate::hierarchy::{spec_hierarchy_name, spec_hierarchy_of_name, Hierarchy};
use crate::policy::{PolicyData, PolicyModel};
use crate::text::str_eq;
use crate::tpm::{Tpm2bName, Tpm2bPrivate, Tpm2bPublic};

verus! {

/// The block cipher of a symmetric key.
#[derive(Debug, Clone, Copy, PartialEq, Eq, Structural)]
pub enum BlockCipher {
    Aes,
    Camellia,
}

/// The key size of a symmetric key.
#[derive(Debug, Clone, Copy, PartialEq, Eq, Structural)]
pub enum SymmetricKeyBits {
    Bits128,
    Bits256,
}

/// The mode of a symmetric key.
#[derive(Debug, Clone, Copy, PartialEq, Eq, Structural)]
pub enum CipherMode {
    Gcm,
}

pub open spec fn spec_block_cipher_name(c: BlockCipher) -> Seq<char> {
    match c {
        BlockCipher::Aes => "aes"@,
        BlockCipher::Camellia => "camellia"@,
    }
}

pub open spec fn spec_block_cipher_of(s: Seq<char>) -> Option<BlockCipher> {
    if s == "aes"@ {
        Some(BlockCipher::Aes)
    } else if s == "camellia"@ {
        Some(BlockCipher::Camellia)
    } else {
        None
    }
}

pub open spec fn spec_key_bits_value(b: SymmetricKeyBits) -> u16 {
    match b {
        SymmetricKeyBits::Bits128 => 128,
        SymmetricKeyBits::Bits256 => 256,
    }
}

pub open spec fn spec_key_bits_of(v: int) -> Option<SymmetricKeyBits> {
    if v == 128 {
        Some(SymmetricKeyBits::Bits128)
    } else if v == 256 {
        Some(SymmetricKeyBits::Bits256)
    } else {
        None
    }
}

pub open spec fn spec_cipher_mode_name(m: CipherMode) -> Seq<char> {
    match m {
        CipherMode::Gcm => "gcm"@,
    }
}

pub open spec fn spec_cipher_mode_of(s: Seq<char>) -> Option<CipherMode> {
    if s == "gcm"@ {
        Some(CipherMode::Gcm)
    } else {
        None
    }
}

/// The name under which a block cipher is stored.
pub fn block_cipher_to_str(block_cipher: BlockCipher) -> (s: &'static str)
    ensures
        s@ == spec_block_cipher_name(block_cipher),
{
    match block_cipher {
        BlockCipher::Aes => "aes",
        BlockCipher::Camellia => "camellia",
    }
}

/// The block cipher stored under a name; another name means the store is corrupted.
pub fn parse_block_cipher(block_cipher: &str) -> (r: Result<BlockCipher, Error>)
    ensures
        match spec_block_cipher_of(block_cipher@) {
            Some(c) => r == Ok::<BlockCipher, Error>(c),
            None => r == Err::<BlockCipher, Error>(Error::CorruptedStore),
        },
{
    if str_eq(block_cipher, "aes") {
        Ok(BlockCipher::Aes)
    } else if str_eq(block_cipher, "camellia") {
        Ok(BlockCipher::Camellia)
    } else {
        Err(Error::corrupted_store())
    }
}

/// The number of bits of a symmetric key size.
pub fn symmetric_key_bits_to_u16(key_bits: SymmetricKeyBits) -> (v: u16)
    ensures
        v == spec_key_bits_value(key_bits),
{
    match key_bits {
        SymmetricKeyBits::Bits128 => 128,
        SymmetricKeyBits::Bits256 => 256,
    }
}

/// The symmetric key size of a number of bits; another number means the
/// store is corrupted.
pub fn parse_symmetric_key_bits(key_bits: u16) -> (r: Result<SymmetricKeyBits, Error>)
    ensures
        match spec_key_bits_of(key_bits as int) {
            Some(b) => r == Ok::<SymmetricKeyBits, Error>(b),
            None => r == Err::<SymmetricKeyBits, Error>(Error::CorruptedStore),
        },
{
    match key_bits {
        128 => Ok(SymmetricKeyBits::Bits128),
        256 => Ok(SymmetricKeyBits::Bits256),
        _ => Err(Error::corrupted_store()),
    }
}

/// The name under which a cipher mode is stored.
pub fn cipher_mode_to_str(mode: CipherMode) -> (s: &'static str)
    ensures
        s@ == spec_cipher_mode_name(mode),
{
    match mode {
        CipherMode::Gcm => "gcm",
    }
}

/// The cipher mode stored under a name; another name means the store is corrupted.
pub fn parse_cipher_mode(mode: &str) -> (r: Result<CipherMode, Error>)
    ensures
        match spec_cipher_mode_of(mode@) {
            Some(m) => r == Ok::<CipherMode, Error>(m),
            None => r == Err::<CipherMode, Error>(Error::CorruptedStore),
        },
{
    if str_eq(mode, "gcm") {
        Ok(CipherMode::Gcm)
    } else {
        Err(Error::corrupted_store())
    }
}

impl BlockCipher {
    pub fn as_str(&self) -> (s: &'static str)
        ensures
            s@ == spec_block_cipher_name(*self),
    {
        block_cipher_to_str(*self)
    }

    pub fn from_db(name: &str) -> (r: Result<BlockCipher, Error>)
        ensures
            match spec_block_cipher_of(name@) {
                Some(c) => r == Ok::<BlockCipher, Error>(c),
                None => r == Err::<BlockCipher, Error>(Error::CorruptedStore),
            },
    {
        parse_block_cipher(name)
    }
}

impl SymmetricKeyBits {
    pub fn bits(&self) -> (v: u16)
        ensures
            v == spec_key_bits_value(*self),
    {
        symmetric_key_bits_to_u16(*self)
    }

    /// The key size stored as a number of bits.
    pub fn from_db(bits: u32) -> (r: Result<SymmetricKeyBits, Error>)
        ensures
            match spec_key_bits_of(bits as int) {
                Some(b) => r == Ok::<SymmetricKeyBits, Error>(b),
                None => r == Err::<SymmetricKeyBits, Error>(Error::CorruptedStore),
            },
    {
        if bits > 0xffff {
            return Err(Error::corrupted_store());
        }
        parse_symmetric_key_bits(bits as u16)
    }
}

impl CipherMode {
    pub fn as_str(&self) -> (s: &'static str)
        ensures
            s@ == spec_cipher_mode_name(*self),
    {
        cipher_mode_to_str(*self)
    }

    pub fn from_db(name: &str) -> (r: Result<CipherMode, Error>)
        ensures
            match spec_cipher_mode_of(name@) {
                Some(m) => r == Ok::<CipherMode, Error>(m),
                None => r == Err::<CipherMode, Error>(Error::CorruptedStore),
            },
    {
        parse_cipher_mode(name)
    }
}

/// The keys that the library itself keeps in persistent handles.
#[derive(Debug, Clone, Copy, PartialEq, Eq, Structural)]
pub enum InternalKeyKind {
    Srk,
    SessionSaltKey,
    SharedWrappingKey,
}

pub open spec fn spec_internal_kind_name(k: InternalKeyKind) -> Seq<char> {
    match k {
        InternalKeyKind::Srk => "srk"@,
        InternalKeyKind::SessionSaltKey => "session_salt_key"@,
        InternalKeyKind::SharedWrappingKey => "shared_wrapping_key"@,
    }
}

impl InternalKeyKind {
    /// The name under which the key is stored.
    pub fn as_str(&self) -> (s: &'static str)
        ensures
            s@ == spec_internal_kind_name(*self),
    {
        match self {
            InternalKeyKind::Srk => "srk",
            InternalKeyKind::SessionSaltKey => "session_salt_key",
            InternalKeyKind::SharedWrappingKey => "shared_wrapping_key",
        }
    }
}

/// A key of the library in a persistent handle.
#[derive(Debug, Clone)]
pub struct InternalKeyMeta {
    pub kind: InternalKeyKind,
    pub handle: TpmiDhPersistent,
    pub obj_name: Tpm2bName,
}

/// The metadata of an internal key from its stored handle and name: a handle
/// that is not persistent, or a name too long for a name, means the store is
/// corrupted.
pub fn decode_internal_key_meta(kind: InternalKeyKind, handle: u32, obj_name: Vec<u8>) -> (r: Result<
    InternalKeyMeta,
    Error,
>)
    ensures
        match r {
            Ok(m) => is_persistent_handle(handle) && obj_name@.len() <= 66 && m.kind == kind && m.handle.0.0 == handle
                && m.obj_name@ == obj_name@,
            Err(e) => !(is_persistent_handle(handle) && obj_name@.len() <= 66) && e == Error::CorruptedStore,
        },
{
    let persistent_handle = match TpmiDhPersistent::try_from(handle) {
        Ok(h) => h,
        Err(_) => return Err(Error::corrupted_store()),
    };
    let obj_name = match Tpm2bName::from_bytes(obj_name.as_slice()) {
        Ok(n) => n,
        Err(_) => return Err(Error::corrupted_store()),
    };
    Ok(InternalKeyMeta { kind, handle: persistent_handle, obj_name })
}

/// The stored parts of a TPM key: its public area, its private area where it
/// has one, its name and its policy.
#[derive(Debug)]
pub struct TpmKeyMeta {
    pub public: Tpm2bPublic,
    pub private: Option<Tpm2bPrivate>,
    pub obj_name: Tpm2bName,
    pub policy: Option<PolicyData>,
}

/// What the stored parts of a TPM key hold.
pub ghost struct TpmKeyMetaModel {
    pub public: Seq<u8>,
    pub private: Option<Seq<u8>>,
    pub obj_name: Seq<u8>,
    pub policy: Option<PolicyModel>,
}

pub open spec fn opt_bytes_view(o: Option<Vec<u8>>) -> Option<Seq<u8>> {
    match o {
        Some(v) => Some(v@),
        None => None,
    }
}

pub open spec fn opt_private_view(o: Option<Tpm2bPrivate>) -> Option<Seq<u8>> {
    match o {
        Some(p) => Some(p@),
        None => None,
    }
}

pub open spec fn opt_policy_view(o: Option<PolicyData>) -> Option<PolicyModel> {
    match o {
        Some(p) => Some(p@),
        None => None,
    }
}

pub open spec fn opt_str_view(o: Option<&str>) -> Option<Seq<char>> {
    match o {
        Some(s) => Some(s@),
        None => None,
    }
}

pub open spec fn opt_string_view(o: Option<String>) -> Option<Seq<char>> {
    match o {
        Some(s) => Some(s@),
        None => None,
    }
}

impl View for TpmKeyMeta {
    type V = TpmKeyMetaModel;

    open spec fn view(&self) -> TpmKeyMetaModel {
        TpmKeyMetaModel {
            public: self.public@,
            private: opt_private_view(self.private),
            obj_name: self.obj_name@,
            policy: opt_policy_view(self.policy),
        }
    }
}

/// The stored parts of a TPM key read back: the public area must be a
/// well-formed public area with nothing after it, each buffer must fit its
/// type, and a stored policy must read back.
pub open spec fn spec_decode_tpm_key_meta(
    public: Seq<u8>,
    private: Option<Seq<u8>>,
    obj_name: Seq<u8>,
    policy: Option<Seq<u8>>,
) -> Result<TpmKeyMetaModel, Error> {
    if public.len() > 65535 || crate::public::spec_parse_public(public) is None || (private matches Some(p)
        && p.len() > 65535) || obj_name.len() > 66 {
        Err(Error::CorruptedStore)
    } else {
        match policy {
            None => Ok(TpmKeyMetaModel { public, private, obj_name, policy: None }),
            Some(bytes) => match parse_stored_policy(bytes) {
                Ok(m) => Ok(TpmKeyMetaModel { public, private, obj_name, policy: Some(m) }),
                Err(e) => Err(e),
            },
        }
    }
}

/// The stored parts of a TPM key, from the bytes of a row.
pub fn load_tpm_key_meta(
    public: Vec<u8>,
    private: Option<Vec<u8>>,
    obj_name: Vec<u8>,
    policy: Option<&[u8]>,
) -> (r: Result<TpmKeyMeta, Error>)
    ensures
        match spec_decode_tpm_key_meta(
            public@,
            opt_bytes_view(private),
            obj_name@,
            match policy {
                Some(p) => Some(p@),
                None => None,
            },
        ) {
            Ok(m) => r matches Ok(meta) && meta@ == m,
            Err(e) => r == Err::<TpmKeyMeta, Error>(e),
        },
{
    let public = match Tpm2bPublic::from_bytes(public.as_slice()) {
        Ok(p) => p,
        Err(_) => return Err(Error::corrupted_store()),
    };
    if crate::public::parse_public_area(public.buffer.as_slice()).is_err() {
        return Err(Error::corrupted_store());
    }
    let private = match private {
        Some(bytes) => match Tpm2bPrivate::from_bytes(bytes.as_slice()) {
            Ok(p) => Some(p),
            Err(_) => return Err(Error::corrupted_store()),
        },
        None => None,
    };
    let obj_name = match Tpm2bName::from_bytes(obj_name.as_slice()) {
        Ok(n) => n,
        Err(_) => return Err(Error::corrupted_store()),
    };
    let policy = match policy {
        Some(bytes) => Some(unmarshal_policy_data(bytes)?),
        None => None,
    };
    Ok(TpmKeyMeta { public, private, obj_name, policy })
}


/// Where a symmetric key's wrapping key is kept.
#[derive(Debug)]
pub enum WrappingKeyMeta {
    Shared,
    Dedicated(TpmKeyMeta),
}

/// The metadata of a user key.
#[derive(Debug)]
pub enum KeyMeta {
    Tpm {
        key_name: String,
        hierarchy: Option<Hierarchy>,
        tpm_key_meta: TpmKeyMeta,
        persistent_handle: Option<TpmiDhPersistent>,
        parent_name: Option<String>,
    },
    Symmetric {
        key_name: String,
        block_cipher: BlockCipher,
        key_bits: SymmetricKeyBits,
        mode: CipherMode,
        wrapped_key: Vec<u8>,
        wrapping_key: WrappingKeyMeta,
    },
}

/// What the metadata of a user key states; a symmetric key's wrapping key
/// is `None` where it is the shared one.
pub ghost enum KeyMetaModel {
    Tpm {
        key_name: Seq<char>,
        hierarchy: Option<Hierarchy>,
        meta: TpmKeyMetaModel,
        persistent_handle: Option<u32>,
        parent_name: Option<Seq<char>>,
    },
    Symmetric {
        key_name: Seq<char>,
        block_cipher: BlockCipher,
        key_bits: SymmetricKeyBits,
        mode: CipherMode,
        wrapped_key: Seq<u8>,
        wrapping_key: Option<TpmKeyMetaModel>,
    },
}

pub open spec fn opt_handle_view(o: Option<TpmiDhPersistent>) -> Option<u32> {
    match o {
        Some(h) => Some(h.0.0),
        None => None,
    }
}

impl View for KeyMeta {
    type V = KeyMetaModel;

    open spec fn view(&self) -> KeyMetaModel {
        match self {
            KeyMeta::Tpm { key_name, hierarchy, tpm_key_meta, persistent_handle, parent_name } => KeyMetaModel::Tpm {
                key_name: key_name@,
                hierarchy: *hierarchy,
                meta: tpm_key_meta@,
                persistent_handle: opt_handle_view(*persistent_handle),
                parent_name: opt_string_view(*parent_name),
            },
            KeyMeta::Symmetric { key_name, block_cipher, key_bits, mode, wrapped_key, wrapping_key } => {
                KeyMetaModel::Symmetric {
                    key_name: key_name@,
                    block_cipher: *block_cipher,
                    key_bits: *key_bits,
                    mode: *mode,
                    wrapped_key: wrapped_key@,
                    wrapping_key: match wrapping_key {
                        WrappingKeyMeta::Shared => None,
                        WrappingKeyMeta::Dedicated(m) => Some(m@),
                    },
                }
            },
        }
    }
}

impl KeyMeta {
    /// A primary key of the storage hierarchy.
    pub fn owner_primary(
        key_name: String,
        tpm_key_meta: TpmKeyMeta,
        persistent_handle: Option<TpmiDhPersistent>,
    ) -> (k: KeyMeta)
        ensures
            k@ == (KeyMetaModel::Tpm {
                key_name: key_name@,
                hierarchy: Some(Hierarchy::Storage),
                meta: tpm_key_meta@,
                persistent_handle: opt_handle_view(persistent_handle),
                parent_name: None,
            }),
    {
        KeyMeta::Tpm { key_name, hierarchy: Some(Hierarchy::Storage), tpm_key_meta, persistent_handle, parent_name: None }
    }

    /// A key created under a parent.
    pub fn child(
        key_name: String,
        tpm_key_meta: TpmKeyMeta,
        persistent_handle: Option<TpmiDhPersistent>,
        parent_name: Option<String>,
    ) -> (k: KeyMeta)
        ensures
            k@ == (KeyMetaModel::Tpm {
                key_name: key_name@,
                hierarchy: None,
                meta: tpm_key_meta@,
                persistent_handle: opt_handle_view(persistent_handle),
                parent_name: opt_string_view(parent_name),
            }),
    {
        KeyMeta::Tpm { key_name, hierarchy: None, tpm_key_meta, persistent_handle, parent_name }
    }

    /// A symmetric key, wrapped by a TPM key.
    pub fn symmetric(
        key_name: String,
        block_cipher: BlockCipher,
        key_bits: SymmetricKeyBits,
        mode: CipherMode,
        wrapped_key: Vec<u8>,
        wrapping_key: WrappingKeyMeta,
    ) -> (k: KeyMeta)
        ensures
            k@ == (KeyMetaModel::Symmetric {
                key_name: key_name@,
                block_cipher,
                key_bits,
                mode,
                wrapped_key: wrapped_key@,
                wrapping_key: match wrapping_key {
                    WrappingKeyMeta::Shared => None,
                    WrappingKeyMeta::Dedicated(m) => Some(m@),
                },
            }),
    {
        KeyMeta::Symmetric { key_name, block_cipher, key_bits, mode, wrapped_key, wrapping_key }
    }
}

/// A row of a TPM key as the store gives it back.
#[derive(Debug, Clone)]
pub struct TpmKeyRow {
    pub key_name: String,
    pub user_key_kind: String,
    pub tpm_key_kind: String,
    pub hierarchy: Option<String>,
    pub public: Vec<u8>,
    pub private: Option<Vec<u8>>,
    pub object_name: Vec<u8>,
    pub persistent_handle: Option<i64>,
    pub policy: Option<Vec<u8>>,
    pub parent_name: Option<String>,
}

/// What a row of a TPM key holds.
pub ghost struct TpmKeyRowModel {
    pub key_name: Seq<char>,
    pub user_key_kind: Seq<char>,
    pub tpm_key_kind: Seq<char>,
    pub hierarchy: Option<Seq<char>>,
    pub public: Seq<u8>,
    pub private: Option<Seq<u8>>,
    pub object_name: Seq<u8>,
    pub persistent_handle: Option<int>,
    pub policy: Option<Seq<u8>>,
    pub parent_name: Option<Seq<char>>,
}

impl View for TpmKeyRow {
    type V = TpmKeyRowModel;

    open spec fn view(&self) -> TpmKeyRowModel {
        TpmKeyRowModel {
            key_name: self.key_name@,
            user_key_kind: self.user_key_kind@,
            tpm_key_kind: self.tpm_key_kind@,
            hierarchy: opt_string_view(self.hierarchy),
            public: self.public@,
            private: opt_bytes_view(self.private),
            object_name: self.object_name@,
            persistent_handle: match self.persistent_handle {
                Some(v) => Some(v as int),
                None => None,
            },
            policy: opt_bytes_view(self.policy),
            parent_name: opt_string_view(self.parent_name),
        }
    }
}

/// The hierarchy of a TPM key row: a primary key names one and has no parent;
/// a child names none.
pub open spec fn spec_row_hierarchy(r: TpmKeyRowModel) -> Result<Option<Hierarchy>, Error> {
    if r.tpm_key_kind == "primary"@ && r.hierarchy is Some && r.parent_name is None {
        match spec_hierarchy_of_name(r.hierarchy->0) {
            Some(h) => Ok(Some(h)),
            None => Err(Error::CorruptedStore),
        }
    } else if r.tpm_key_kind == "child"@ && r.hierarchy is None {
        Ok(None)
    } else {
        Err(Error::CorruptedStore)
    }
}

/// Whether a TPM key row has a private area exactly where it is a child.
pub open spec fn spec_row_private_consistent(r: TpmKeyRowModel) -> bool {
    (r.tpm_key_kind == "primary"@ && r.private is None) || (r.tpm_key_kind == "child"@ && r.private is Some)
}

/// Whether a stored persistent handle is a persistent handle.
pub open spec fn spec_row_handle_valid(h: Option<int>) -> bool {
    match h {
        Some(v) => 0 <= v <= u32::MAX && is_persistent_handle(v as u32),
        None => true,
    }
}

/// A TPM key row read back: the kinds must agree, the hierarchy, parent and
/// private area must fit the kind, a persistent handle must be one, and the
/// stored parts must read back.
pub open spec fn spec_decode_tpm_key(r: TpmKeyRowModel) -> Result<KeyMetaModel, Error> {
    if r.user_key_kind != r.tpm_key_kind {
        Err(Error::CorruptedStore)
    } else {
        match spec_row_hierarchy(r) {
            Err(e) => Err(e),
            Ok(hierarchy) => if !spec_row_private_consistent(r) || !spec_row_handle_valid(r.persistent_handle) {
                Err(Error::CorruptedStore)
            } else {
                match spec_decode_tpm_key_meta(r.public, r.private, r.object_name, r.policy) {
                    Err(e) => Err(e),
                    Ok(meta) => Ok(
                        KeyMetaModel::Tpm {
                            key_name: r.key_name,
                            hierarchy,
                            meta,
                            persistent_handle: match r.persistent_handle {
                                Some(v) => Some(v as u32),
                                None => None,
                            },
                            parent_name: r.parent_name,
                        },
                    ),
                }
            },
        }
    }
}

/// The metadata of a TPM key from its row.
pub fn decode_tpm_key(row: TpmKeyRow) -> (r: Result<KeyMeta, Error>)
    ensures
        match spec_decode_tpm_key(row@) {
            Ok(m) => r matches Ok(k) && k@ == m,
            Err(e) => r == Err::<KeyMeta, Error>(e),
        },
{
    let ghost rv = row@;
    if row.user_key_kind != row.tpm_key_kind {
        return Err(Error::corrupted_store());
    }
    let is_primary = str_eq(row.tpm_key_kind.as_str(), "primary");
    let is_child = str_eq(row.tpm_key_kind.as_str(), "child");

    let hierarchy = if is_primary && row.hierarchy.is_some() && row.parent_name.is_none() {
        match &row.hierarchy {
            Some(name) => Some(Hierarchy::from_db(name.as_str())?),
            None => None,
        }
    } else if is_child && row.hierarchy.is_none() {
        None
    } else {
        return Err(Error::corrupted_store());
    };

    if !((is_primary && row.private.is_none()) || (is_child && row.private.is_some())) {
        return Err(Error::corrupted_store());
    }

    let persistent_handle = match row.persistent_handle {
        Some(value) => {
            if value < 0 || value > 0xffff_ffff {
                return Err(Error::corrupted_store());
            }
            match TpmiDhPersistent::try_from(value as u32) {
                Ok(h) => Some(h),
                Err(_) => return Err(Error::corrupted_store()),
            }
        },
        None => None,
    };
    let policy = match &row.policy {
        Some(p) => Some(p.as_slice()),
        None => None,
    };
    let tpm_key_meta = load_tpm_key_meta(row.public, row.private, row.object_name, policy)?;

    Ok(KeyMeta::Tpm { key_name: row.key_name, hierarchy, tpm_key_meta, persistent_handle, parent_name: row.parent_name })
}


/// A row of a symmetric key as the store gives it back, with the row of its
/// dedicated wrapping key where it has one.
#[derive(Debug, Clone)]
pub struct SymmetricKeyRow {
    pub key_name: String,
    pub user_key_kind: String,
    pub block_cipher: Option<String>,
    pub key_bits: Option<u32>,
    pub mode: Option<String>,
    pub wrapped_key: Option<Vec<u8>>,
    pub wrapping_key_id: Option<String>,
    pub wrapping_public: Option<Vec<u8>>,
    pub wrapping_private: Option<Vec<u8>>,
    pub wrapping_object_name: Option<Vec<u8>>,
    pub wrapping_policy: Option<Vec<u8>>,
}

/// What a row of a symmetric key holds.
pub ghost struct SymmetricKeyRowModel {
    pub key_name: Seq<char>,
    pub user_key_kind: Seq<char>,
    pub block_cipher: Option<Seq<char>>,
    pub key_bits: Option<u32>,
    pub mode: Option<Seq<char>>,
    pub wrapped_key: Option<Seq<u8>>,
    pub wrapping_key_id: Option<Seq<char>>,
    pub wrapping_public: Option<Seq<u8>>,
    pub wrapping_private: Option<Seq<u8>>,
    pub wrapping_object_name: Option<Seq<u8>>,
    pub wrapping_policy: Option<Seq<u8>>,
}

impl View for SymmetricKeyRow {
    type V = SymmetricKeyRowModel;

    open spec fn view(&self) -> SymmetricKeyRowModel {
        SymmetricKeyRowModel {
            key_name: self.key_name@,
            user_key_kind: self.user_key_kind@,
            block_cipher: opt_string_view(self.block_cipher),
            key_bits: self.key_bits,
            mode: opt_string_view(self.mode),
            wrapped_key: opt_bytes_view(self.wrapped_key),
            wrapping_key_id: opt_string_view(self.wrapping_key_id),
            wrapping_public: opt_bytes_view(self.wrapping_public),
            wrapping_private: opt_bytes_view(self.wrapping_private),
            wrapping_object_name: opt_bytes_view(self.wrapping_object_name),
            wrapping_policy: opt_bytes_view(self.wrapping_policy),
        }
    }
}

/// A symmetric key row read back: it must be of a symmetric key, with its
/// cipher, size, mode and wrapped key all stored and understood; a dedicated
/// wrapping key must have its public and private areas and its name.
pub open spec fn spec_decode_symmetric_key(r: SymmetricKeyRowModel) -> Result<KeyMetaModel, Error> {
    if r.user_key_kind != "symmetric"@ {
        Err(Error::InvalidKey { context: "requested key is not symmetric", source: None })
    } else if r.block_cipher is None || r.key_bits is None || r.mode is None || r.wrapped_key is None {
        Err(Error::CorruptedStore)
    } else {
        match (
            spec_block_cipher_of(r.block_cipher->0),
            spec_key_bits_of(r.key_bits->0 as int),
            spec_cipher_mode_of(r.mode->0),
        ) {
            (Some(block_cipher), Some(key_bits), Some(mode)) => {
                let wrapping: Result<Option<TpmKeyMetaModel>, Error> = if r.wrapping_key_id is Some {
                    if r.wrapping_public is None || r.wrapping_private is None || r.wrapping_object_name is None {
                        Err(Error::CorruptedStore)
                    } else {
                        match spec_decode_tpm_key_meta(
                            r.wrapping_public->0,
                            r.wrapping_private,
                            r.wrapping_object_name->0,
                            r.wrapping_policy,
                        ) {
                            Ok(m) => Ok(Some(m)),
                            Err(e) => Err(e),
                        }
                    }
                } else {
                    Ok(None)
                };
                match wrapping {
                    Err(e) => Err(e),
                    Ok(wrapping_key) => Ok(
                        KeyMetaModel::Symmetric {
                            key_name: r.key_name,
                            block_cipher,
                            key_bits,
                            mode,
                            wrapped_key: r.wrapped_key->0,
                            wrapping_key,
                        },
                    ),
                }
            },
            _ => Err(Error::CorruptedStore),
        }
    }
}

/// The metadata of a symmetric key from its row.
pub fn decode_symmetric_key(row: SymmetricKeyRow) -> (r: Result<KeyMeta, Error>)
    ensures
        match spec_decode_symmetric_key(row@) {
            Ok(m) => r matches Ok(k) && k@ == m,
            Err(e) => r == Err::<KeyMeta, Error>(e),
        },
{
    if !str_eq(row.user_key_kind.as_str(), "symmetric") {
        return Err(Error::invalid_key("requested key is not symmetric"));
    }

    let (block_cipher, key_bits, mode, wrapped_key) = match (row.block_cipher, row.key_bits, row.mode, row.wrapped_key) {
        (Some(b), Some(k), Some(m), Some(w)) => (b, k, m, w),
        _ => return Err(Error::corrupted_store()),
    };
    let block_cipher = BlockCipher::from_db(block_cipher.as_str())?;
    let key_bits = SymmetricKeyBits::from_db(key_bits)?;
    let mode = CipherMode::from_db(mode.as_str())?;

    let wrapping_key = match row.wrapping_key_id {
        Some(_id) => {
            let (public, private, object_name) = match (
                row.wrapping_public,
                row.wrapping_private,
                row.wrapping_object_name,
            ) {
                (Some(p), Some(q), Some(n)) => (p, q, n),
                _ => return Err(Error::corrupted_store()),
            };
            let policy = match &row.wrapping_policy {
                Some(p) => Some(p.as_slice()),
                None => None,
            };
            WrappingKeyMeta::Dedicated(load_tpm_key_meta(public, Some(private), object_name, policy)?)
        },
        None => WrappingKeyMeta::Shared,
    };

    Ok(KeyMeta::symmetric(row.key_name, block_cipher, key_bits, mode, wrapped_key, wrapping_key))
}

/// What is written for the stored parts of a TPM key.
#[derive(Debug, Clone)]
pub struct TpmKeyRecord {
    pub kind: &'static str,
    pub hierarchy: Option<&'static str>,
    pub public: Vec<u8>,
    pub object_name: Vec<u8>,
    pub private: Option<Vec<u8>>,
    pub persistent_handle: Option<u32>,
    pub policy: Option<Vec<u8>>,
}

/// The kind under which a TPM key is stored: a key of a hierarchy is a
/// primary key, any other a child.
pub open spec fn spec_tpm_kind(hierarchy: Option<Hierarchy>) -> Seq<char> {
    if hierarchy is Some {
        "primary"@
    } else {
        "child"@
    }
}

/// The stored form of a policy.
pub open spec fn spec_policy_record(policy: Option<PolicyModel>) -> Option<Seq<u8>> {
    match policy {
        Some(m) => Some(stored_policy_bytes(m)),
        None => None,
    }
}

/// The row that the store holds for a TPM key once it is written.
pub open spec fn spec_tpm_key_row(
    key_name: Seq<char>,
    hierarchy: Option<Hierarchy>,
    meta: TpmKeyMetaModel,
    persistent_handle: Option<u32>,
    parent_name: Option<Seq<char>>,
) -> TpmKeyRowModel {
    TpmKeyRowModel {
        key_name,
        user_key_kind: spec_tpm_kind(hierarchy),
        tpm_key_kind: spec_tpm_kind(hierarchy),
        hierarchy: match hierarchy {
            Some(h) => Some(spec_hierarchy_name(h)),
            None => None,
        },
        public: meta.public,
        private: meta.private,
        object_name: meta.obj_name,
        persistent_handle: match persistent_handle {
            Some(v) => Some(v as int),
            None => None,
        },
        policy: spec_policy_record(meta.policy),
        parent_name,
    }
}

/// What is written for a TPM key: its kind, its hierarchy's name, its buffers,
/// its persistent handle and its stored policy; fails where the policy cannot
/// be stored.
pub fn tpm_key_record(
    hierarchy: Option<Hierarchy>,
    tpm_key_meta: &TpmKeyMeta,
    persistent_handle: Option<TpmiDhPersistent>,
) -> (r: Result<TpmKeyRecord, Error>)
    ensures
        match r {
            Ok(rec) => (tpm_key_meta@.policy matches Some(m) ==> policy_encodable(m)) && rec.kind@ == spec_tpm_kind(
                hierarchy,
            ) && opt_str_view(rec.hierarchy) == match hierarchy {
                Some(h) => Some(spec_hierarchy_name(h)),
                None => None::<Seq<char>>,
            } && rec.public@ == tpm_key_meta@.public && rec.object_name@ == tpm_key_meta@.obj_name && opt_bytes_view(
                rec.private,
            ) == tpm_key_meta@.private && rec.persistent_handle == opt_handle_view(persistent_handle)
                && opt_bytes_view(rec.policy) == spec_policy_record(tpm_key_meta@.policy),
            Err(e) => tpm_key_meta@.policy matches Some(m) && !policy_encodable(m) && (e is InvalidPolicy
                || e is Internal),
        },
{
    let kind = if hierarchy.is_some() { "primary" } else { "child" };
    let hierarchy_name = match hierarchy {
        Some(h) => Some(h.as_str()),
        None => None,
    };
    let private = match &tpm_key_meta.private {
        Some(p) => Some(vstd::slice::slice_to_vec(p.as_bytes())),
        None => None,
    };
    let policy = match &tpm_key_meta.policy {
        Some(p) => Some(marshal_policy_data(p)?),
        None => None,
    };
    let public = vstd::slice::slice_to_vec(tpm_key_meta.public.as_bytes());
    let persistent_handle = match persistent_handle {
        Some(h) => Some(h.value()),
        None => None,
    };
    Ok(TpmKeyRecord {
        kind,
        hierarchy: hierarchy_name,
        public,
        object_name: vstd::slice::slice_to_vec(tpm_key_meta.obj_name.as_bytes()),
        private,
        persistent_handle,
        policy,
    })
}

/// What a TPM key's metadata reads back as: its policy without the branch a
/// caller had selected.
pub open spec fn spec_stored_meta(meta: TpmKeyMetaModel) -> TpmKeyMetaModel {
    TpmKeyMetaModel {
        policy: match meta.policy {
            Some(m) => Some(clear_selection(m)),
            None => None,
        },
        ..meta
    }
}

/// Whether a TPM key can be written and read back: a key of a hierarchy has
/// no parent and no private area, a child has a private area, a persistent
/// handle is one, the public area is well formed, the buffers fit their types
/// and the policy can be stored.
pub open spec fn tpm_key_storable(
    hierarchy: Option<Hierarchy>,
    meta: TpmKeyMetaModel,
    persistent_handle: Option<u32>,
    parent_name: Option<Seq<char>>,
) -> bool {
    &&& hierarchy is Some ==> parent_name is None && meta.private is None
    &&& hierarchy is None ==> meta.private is Some
    &&& persistent_handle matches Some(h) ==> is_persistent_handle(h)
    &&& meta.public.len() <= 65535
    &&& crate::public::spec_parse_public(meta.public) is Some
    &&& meta.private matches Some(p) ==> p.len() <= 65535
    &&& meta.obj_name.len() <= 66
    &&& meta.policy matches Some(m) ==> policy_wf(m) && policy_encodable(m)
}

/// The store gives back what was written for a TPM key, its policy's
/// selected branch aside.
pub proof fn lemma_tpm_key_store_round_trip(
    key_name: Seq<char>,
    hierarchy: Option<Hierarchy>,
    meta: TpmKeyMetaModel,
    persistent_handle: Option<u32>,
    parent_name: Option<Seq<char>>,
)
    requires
        tpm_key_storable(hierarchy, meta, persistent_handle, parent_name),
    ensures
        spec_decode_tpm_key(spec_tpm_key_row(key_name, hierarchy, meta, persistent_handle, parent_name)) == Ok::<
            KeyMetaModel,
            Error,
        >(
            KeyMetaModel::Tpm {
                key_name,
                hierarchy,
                meta: spec_stored_meta(meta),
                persistent_handle,
                parent_name,
            },
        ),
{
    reveal_strlit("primary");
    reveal_strlit("child");
    assert("primary"@.len() == 7);
    assert("child"@.len() == 5);
    if let Some(h) = hierarchy {
        crate::hierarchy::lemma_hierarchy_name_round_trip(h);
    }
    if let Some(m) = meta.policy {
        crate::codec::lemma_policy_store_round_trip(m);
    }
}


/// What is written for a dedicated wrapping key.
#[derive(Debug, Clone)]
pub struct WrappingKeyRecord {
    pub public: Vec<u8>,
    pub private: Vec<u8>,
    pub object_name: Vec<u8>,
    pub policy: Option<Vec<u8>>,
}

/// What is written for a symmetric key; its dedicated wrapping key, where it
/// has one, is written under an identifier of its own.
#[derive(Debug, Clone)]
pub struct SymmetricKeyRecord {
    pub block_cipher: &'static str,
    pub key_bits: u16,
    pub mode: &'static str,
    pub wrapped_key: Vec<u8>,
    pub wrapping_key: Option<WrappingKeyRecord>,
}

/// What is written for a dedicated wrapping key: it must have a private area,
/// and its policy must be storable.
pub fn wrapping_key_record(key_meta: &TpmKeyMeta) -> (r: Result<WrappingKeyRecord, Error>)
    ensures
        match r {
            Ok(rec) => key_meta@.private == Some(rec.private@) && (key_meta@.policy matches Some(m) ==> policy_encodable(m))
                && rec.public@ == key_meta@.public && rec.object_name@ == key_meta@.obj_name && opt_bytes_view(
                rec.policy,
            ) == spec_policy_record(key_meta@.policy),
            Err(e) => (key_meta@.private is None && e is Internal) || (key_meta@.private is Some
                && (key_meta@.policy matches Some(m) && !policy_encodable(m)) && (e is InvalidPolicy || e is Internal)),
        },
{
    let private = match &key_meta.private {
        Some(p) => vstd::slice::slice_to_vec(p.as_bytes()),
        None => return Err(Error::invalid_state("dedicated wrapping key metadata must contain private data")),
    };
    let policy = match &key_meta.policy {
        Some(p) => Some(marshal_policy_data(p)?),
        None => None,
    };
    let public = vstd::slice::slice_to_vec(key_meta.public.as_bytes());
    Ok(WrappingKeyRecord {
        public,
        private,
        object_name: vstd::slice::slice_to_vec(key_meta.obj_name.as_bytes()),
        policy,
    })
}

/// What is written for a symmetric key.
pub fn symmetric_key_record(
    block_cipher: BlockCipher,
    key_bits: SymmetricKeyBits,
    mode: CipherMode,
    wrapped_key: &[u8],
    wrapping_key: &WrappingKeyMeta,
) -> (r: Result<SymmetricKeyRecord, Error>)
    ensures
        match r {
            Ok(rec) => rec.block_cipher@ == spec_block_cipher_name(block_cipher) && rec.key_bits == spec_key_bits_value(
                key_bits,
            ) && rec.mode@ == spec_cipher_mode_name(mode) && rec.wrapped_key@ == wrapped_key@ && match wrapping_key {
                WrappingKeyMeta::Shared => rec.wrapping_key is None,
                WrappingKeyMeta::Dedicated(m) => rec.wrapping_key matches Some(w) && m@.private == Some(w.private@)
                    && w.public@ == m@.public && w.object_name@ == m@.obj_name && opt_bytes_view(w.policy)
                    == spec_policy_record(m@.policy),
            },
            Err(e) => (wrapping_key matches WrappingKeyMeta::Dedicated(m) && (m@.private is None || (m@.policy matches Some(
                p,
            ) && !policy_encodable(p)))) && (e is InvalidPolicy || e is Internal),
        },
{
    let wrapping = match wrapping_key {
        WrappingKeyMeta::Shared => None,
        WrappingKeyMeta::Dedicated(meta) => Some(wrapping_key_record(meta)?),
    };
    Ok(SymmetricKeyRecord {
        block_cipher: block_cipher.as_str(),
        key_bits: key_bits.bits(),
        mode: mode.as_str(),
        wrapped_key: vstd::slice::slice_to_vec(wrapped_key),
        wrapping_key: wrapping,
    })
}

/// The row that the store holds for a symmetric key once it is written, its
/// dedicated wrapping key under `wrapping_key_id`.
pub open spec fn spec_symmetric_key_row(
    key_name: Seq<char>,
    block_cipher: BlockCipher,
    key_bits: SymmetricKeyBits,
    mode: CipherMode,
    wrapped_key: Seq<u8>,
    wrapping_key: Option<TpmKeyMetaModel>,
    wrapping_key_id: Seq<char>,
) -> SymmetricKeyRowModel {
    SymmetricKeyRowModel {
        key_name,
        user_key_kind: "symmetric"@,
        block_cipher: Some(spec_block_cipher_name(block_cipher)),
        key_bits: Some(spec_key_bits_value(key_bits) as u32),
        mode: Some(spec_cipher_mode_name(mode)),
        wrapped_key: Some(wrapped_key),
        wrapping_key_id: match wrapping_key {
            Some(_) => Some(wrapping_key_id),
            None => None,
        },
        wrapping_public: match wrapping_key {
            Some(m) => Some(m.public),
            None => None,
        },
        wrapping_private: match wrapping_key {
            Some(m) => m.private,
            None => None,
        },
        wrapping_object_name: match wrapping_key {
            Some(m) => Some(m.obj_name),
            None => None,
        },
        wrapping_policy: match wrapping_key {
            Some(m) => spec_policy_record(m.policy),
            None => None,
        },
    }
}

/// The store gives back what was written for a symmetric key, the selected
/// branch of its wrapping key's policy aside.
pub proof fn lemma_symmetric_key_store_round_trip(
    key_name: Seq<char>,
    block_cipher: BlockCipher,
    key_bits: SymmetricKeyBits,
    mode: CipherMode,
    wrapped_key: Seq<u8>,
    wrapping_key: Option<TpmKeyMetaModel>,
    wrapping_key_id: Seq<char>,
)
    requires
        wrapping_key matches Some(m) ==> tpm_key_storable(None, m, None, None),
    ensures
        spec_decode_symmetric_key(
            spec_symmetric_key_row(key_name, block_cipher, key_bits, mode, wrapped_key, wrapping_key, wrapping_key_id),
        ) == Ok::<KeyMetaModel, Error>(
            KeyMetaModel::Symmetric {
                key_name,
                block_cipher,
                key_bits,
                mode,
                wrapped_key,
                wrapping_key: match wrapping_key {
                    Some(m) => Some(spec_stored_meta(m)),
                    None => None,
                },
            },
        ),
{
    reveal_strlit("aes");
    reveal_strlit("camellia");
    reveal_strlit("gcm");
    assert("aes"@.len() == 3);
    assert("camellia"@.len() == 8);
    if let Some(m) = wrapping_key {
        if let Some(p) = m.policy {
            crate::codec::lemma_policy_store_round_trip(p);
        }
    }
}


/// The two shapes of a stored user key.
#[derive(Debug, Clone, Copy, PartialEq, Eq, Structural)]
pub enum StoredKeyKind {
    Tpm,
    Symmetric,
}

/// The shape of a user key from its stored kind: "primary" and "child" are
/// TPM keys, "symmetric" a symmetric key; another kind means the store is
/// corrupted.
pub fn stored_key_kind(kind: &str) -> (r: Result<StoredKeyKind, Error>)
    ensures
        r == (if kind@ == "primary"@ || kind@ == "child"@ {
            Ok::<StoredKeyKind, Error>(StoredKeyKind::Tpm)
        } else if kind@ == "symmetric"@ {
            Ok(StoredKeyKind::Symmetric)
        } else {
            Err(Error::CorruptedStore)
        }),
{
    if str_eq(kind, "primary") || str_eq(kind, "child") {
        Ok(StoredKeyKind::Tpm)
    } else if str_eq(kind, "symmetric") {
        Ok(StoredKeyKind::Symmetric)
    } else {
        Err(Error::corrupted_store())
    }
}

/// The policy of a user key: a TPM key's own, a symmetric key's dedicated
/// wrapping key's, none for the shared wrapping key.
pub fn key_policy(meta: KeyMeta) -> (p: Option<PolicyData>)
    ensures
        opt_policy_view(p) == match meta@ {
            KeyMetaModel::Tpm { meta: m, .. } => m.policy,
            KeyMetaModel::Symmetric { wrapping_key, .. } => match wrapping_key {
                Some(m) => m.policy,
                None => None,
            },
        },
{
    match meta {
        KeyMeta::Tpm { tpm_key_meta, .. } => tpm_key_meta.policy,
        KeyMeta::Symmetric { wrapping_key, .. } => match wrapping_key {
            WrappingKeyMeta::Shared => None,
            WrappingKeyMeta::Dedicated(tpm_key_meta) => tpm_key_meta.policy,
        },
    }
}

/// The policy stored for a hierarchy, where there is one.
pub fn decode_hierarchy_policy(policy: Option<Vec<u8>>) -> (r: Result<Option<PolicyData>, Error>)
    ensures
        match policy {
            None => r matches Ok(p) && p is None,
            Some(bytes) => match parse_stored_policy(bytes@) {
                Ok(m) => r matches Ok(p) && opt_policy_view(p) == Some(m),
                Err(e) => r == Err::<Option<PolicyData>, Error>(e),
            },
        },
{
    match policy {
        Some(bytes) => Ok(Some(unmarshal_policy_data(bytes.as_slice())?)),
        None => Ok(None),
    }
}

/// That the store file is still empty, as it must be before the store is
/// provisioned; `len` is its size in bytes.
pub fn ensure_store_empty(len: u64) -> (r: Result<(), Error>)
    ensures
        match r {
            Ok(()) => len == 0,
            Err(e) => len != 0 && e == Error::AlreadyProvisioned,
        },
{
    if len != 0 {
        return Err(Error::AlreadyProvisioned);
    }
    Ok(())
}

/// The error that a failed store query is reported as, from the message of
/// the failure where there is one: a missing table means that the store was
/// never provisioned.
pub fn store_query_error(message: Option<&str>) -> (e: Error)
    ensures
        e == match message {
            Some(m) => if vstd::utf8::encode_utf8("no such table:"@).is_prefix_of(vstd::utf8::encode_utf8(m@)) {
                Error::NotProvisioned
            } else {
                Error::Store
            },
            None => Error::Store,
        },
{
    match message {
        Some(m) => {
            if crate::text::starts_with(m, "no such table:") {
                Error::NotProvisioned
            } else {
                Error::Store
            }
        },
        None => Error::Store,
    }
}

/// That no user key is stored under `key_name` yet.
pub fn ensure_unique_key_name(key_exists: bool, key_name: &str) -> (r: Result<(), Error>)
    ensures
        match r {
            Ok(()) => !key_exists,
            Err(e) => key_exists && (e matches Error::KeyAlreadyExists(n) && n@ == key_name@),
        },
{
    if key_exists {
        return Err(Error::KeyAlreadyExists(key_name.to_string()));
    }
    Ok(())
}

/// What is written when the store is set up: the kind, handle and name of the
/// storage root key, the session salt key and the shared wrapping key, given
/// in that order.
pub fn internal_key_records(key_meta: &[InternalKeyMeta]) -> (r: Result<Vec<(&'static str, u32, Vec<u8>)>, Error>)
    ensures
        match r {
            Ok(records) => key_meta@.len() == 3 && records@.len() == 3 && records@[0].0@ == "srk"@
                && records@[1].0@ == "session_salt_key"@ && records@[2].0@ == "shared_wrapping_key"@ && forall|i: int|
                0 <= i < 3 ==> (#[trigger] records@[i]).1 == key_meta@[i].handle.0.0 && records@[i].2@
                    == key_meta@[i].obj_name@,
            Err(e) => key_meta@.len() != 3 && e is Internal,
        },
{
    if key_meta.len() != 3 {
        return Err(Error::invalid_state("expected metadata for SRK, session salt key, and shared wrapping key"));
    }
    let mut records: Vec<(&'static str, u32, Vec<u8>)> = Vec::new();
    records.push(("srk", key_meta[0].handle.value(), vstd::slice::slice_to_vec(key_meta[0].obj_name.as_bytes())));
    records.push(
        ("session_salt_key", key_meta[1].handle.value(), vstd::slice::slice_to_vec(key_meta[1].obj_name.as_bytes())),
    );
    records.push(
        (
            "shared_wrapping_key",
            key_meta[2].handle.value(),
            vstd::slice::slice_to_vec(key_meta[2].obj_name.as_bytes()),
        ),
    );
    Ok(records)
}

/// A symmetric key's parameters are stored by these names and numbers: the
/// block ciphers "aes" and "camellia", the key sizes 128 and 256 bits, the
/// mode "gcm"; each reads back as what it was stored for.
pub proof fn law_symmetric_parameter_names(c: BlockCipher, b: SymmetricKeyBits, m: CipherMode)
    ensures
        spec_block_cipher_name(BlockCipher::Aes) == "aes"@,
        spec_block_cipher_name(BlockCipher::Camellia) == "camellia"@,
        spec_key_bits_value(SymmetricKeyBits::Bits128) == 128,
        spec_key_bits_value(SymmetricKeyBits::Bits256) == 256,
        spec_cipher_mode_name(CipherMode::Gcm) == "gcm"@,
        spec_block_cipher_of(spec_block_cipher_name(c)) == Some(c),
        spec_key_bits_of(spec_key_bits_value(b) as int) == Some(b),
        spec_cipher_mode_of(spec_cipher_mode_name(m)) == Some(m),
{
    reveal_strlit("aes");
    reveal_strlit("camellia");
}


/// The row written for a TPM key holds its name, the kind "primary" where
/// it is a key of a hierarchy and "child" otherwise, the hierarchy by its
/// stored name ("owner", "endorsement", "platform"), its public and private
/// areas and name as they are, its persistent handle, its policy in stored
/// form (the format version 2, then the policy), and exactly the parent name
/// it was given. The library's own keys are stored as "srk",
/// "session_salt_key" and "shared_wrapping_key".
pub proof fn law_tpm_key_row(
    key_name: Seq<char>,
    hierarchy: Option<Hierarchy>,
    meta: TpmKeyMetaModel,
    persistent_handle: Option<u32>,
    parent_name: Option<Seq<char>>,
)
    ensures
        ({
            let r = spec_tpm_key_row(key_name, hierarchy, meta, persistent_handle, parent_name);
            &&& r.key_name == key_name
            &&& r.parent_name == parent_name
            &&& r.public == meta.public
            &&& r.private == meta.private
            &&& r.object_name == meta.obj_name
            &&& r.persistent_handle == match persistent_handle {
                Some(h) => Some(h as int),
                None => None::<int>,
            }
            &&& r.policy == match meta.policy {
                Some(m) => Some(seq![2u8] + crate::codec::policy_bytes(m)),
                None => None::<Seq<u8>>,
            }
            &&& hierarchy is Some ==> r.tpm_key_kind == "primary"@ && r.user_key_kind == "primary"@
            &&& hierarchy is None ==> r.tpm_key_kind == "child"@ && r.user_key_kind == "child"@ && r.hierarchy is None
            &&& hierarchy == Some(Hierarchy::Storage) ==> r.hierarchy == Some("owner"@)
            &&& hierarchy == Some(Hierarchy::Endorsement) ==> r.hierarchy == Some("endorsement"@)
            &&& hierarchy == Some(Hierarchy::Platform) ==> r.hierarchy == Some("platform"@)
        }),
        spec_internal_kind_name(InternalKeyKind::Srk) == "srk"@,
        spec_internal_kind_name(InternalKeyKind::SessionSaltKey) == "session_salt_key"@,
        spec_internal_kind_name(InternalKeyKind::SharedWrappingKey) == "shared_wrapping_key"@,
{
}

} // verus!
