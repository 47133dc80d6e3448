use tpm2_rs::cache::{AuthorizationTarget, Cache, KeyId, TemporaryKey};
use tpm2_rs::codec::marshal_policy_data;
use tpm2_rs::created::{CreatedKey, CreatedKeyData, KeyTemplate, SymmetricTemplate};
use tpm2_rs::error::Error;
use tpm2_rs::handle::TpmiDhPersistent;
use tpm2_rs::hierarchy::{hierarchy_to_str, Hierarchy};
use tpm2_rs::meta::{ChildKeyLoadSource, ChildKeySource, KeyMeta as OldKeyMeta, PersistentHandle, PrimaryKeyLoadSource, PrimaryKeySource, SymmetricKeyMeta as OldSymmetricKeyMeta};
use tpm2_rs::policy::{PolicyBranchData, PolicyData};
use tpm2_rs::store::{
    block_cipher_to_str, decode_internal_key_meta, decode_symmetric_key, decode_tpm_key, ensure_unique_key_name,
    internal_key_records, parse_block_cipher, parse_cipher_mode, parse_symmetric_key_bits, stored_key_kind,
    symmetric_key_bits_to_u16, symmetric_key_record, tpm_key_record, BlockCipher, CipherMode, InternalKeyKind,
    KeyMeta, StoredKeyKind, SymmetricKeyBits, SymmetricKeyRow, TpmKeyMeta, TpmKeyRow, WrappingKeyMeta,
};
use tpm2_rs::tpm::{Tpm2bAuth, Tpm2bName, Tpm2bPrivate, Tpm2bPublic, Tpm2bPublicKeyRsa, TpmlDigest};

fn or_policy() -> PolicyData {
    PolicyData::Or {
        branches: vec![
            PolicyBranchData { label: "auth".to_string(), policy: PolicyData::AuthValue },
            PolicyBranchData { label: "password".to_string(), policy: PolicyData::Password },
        ],
        branch_digests: TpmlDigest::default(),
        selected_label: Some("auth".to_string()),
    }
}

fn rsa_public() -> Vec<u8> {
    vec![0, 1, 0, 0x0b, 0, 0x02, 0, 0x72, 0, 0, 0, 0x10, 0, 0x10, 0x08, 0, 0, 0, 0, 0, 0, 3, 1, 2, 3]
}

fn child_meta() -> TpmKeyMeta {
    TpmKeyMeta {
        public: Tpm2bPublic { buffer: rsa_public() },
        private: Some(Tpm2bPrivate { buffer: vec![5, 6] }),
        obj_name: Tpm2bName { buffer: vec![0, 0x0b, 1] },
        policy: Some(or_policy()),
    }
}

fn row_of(key_name: &str, hierarchy: Option<Hierarchy>, meta: &TpmKeyMeta, handle: Option<TpmiDhPersistent>, parent: Option<&str>) -> TpmKeyRow {
    let record = tpm_key_record(hierarchy, meta, handle).expect("record");
    TpmKeyRow {
        key_name: key_name.to_string(),
        user_key_kind: record.kind.to_string(),
        tpm_key_kind: record.kind.to_string(),
        hierarchy: record.hierarchy.map(str::to_string),
        public: record.public,
        private: record.private,
        object_name: record.object_name,
        persistent_handle: record.persistent_handle.map(i64::from),
        policy: record.policy,
        parent_name: parent.map(str::to_string),
    }
}

#[test]
fn stored_child_key_reads_back() {
    let meta = child_meta();
    let handle = TpmiDhPersistent::try_from(0x8100_0005u32).unwrap();
    let row = row_of("signing", None, &meta, Some(handle), Some("parent"));
    assert_eq!(row.tpm_key_kind, "child");
    match decode_tpm_key(row).expect("must decode") {
        KeyMeta::Tpm { key_name, hierarchy, tpm_key_meta, persistent_handle, parent_name } => {
            assert_eq!(key_name, "signing");
            assert_eq!(hierarchy, None);
            assert_eq!(tpm_key_meta.public.buffer, rsa_public());
            assert_eq!(tpm_key_meta.private.unwrap().buffer, vec![5, 6]);
            assert_eq!(persistent_handle.unwrap().value(), 0x8100_0005);
            assert_eq!(parent_name.as_deref(), Some("parent"));
            match tpm_key_meta.policy {
                Some(PolicyData::Or { selected_label, .. }) => assert!(selected_label.is_none()),
                other => panic!("unexpected policy {:?}", other),
            }
        }
        other => panic!("unexpected key {:?}", other),
    }
}

#[test]
fn stored_primary_key_reads_back() {
    let meta = TpmKeyMeta { private: None, policy: None, ..child_meta() };
    let row = row_of("srk", Some(Hierarchy::Storage), &meta, None, None);
    assert_eq!(row.hierarchy.as_deref(), Some("owner"));
    match decode_tpm_key(row).expect("must decode") {
        KeyMeta::Tpm { hierarchy, .. } => assert_eq!(hierarchy, Some(Hierarchy::Storage)),
        other => panic!("unexpected key {:?}", other),
    }
}

#[test]
fn inconsistent_rows_are_corrupted() {
    let meta = child_meta();
    let mut row = row_of("k", None, &meta, None, Some("p"));
    row.user_key_kind = "primary".to_string();
    assert!(matches!(decode_tpm_key(row), Err(Error::CorruptedStore)));

    let mut row = row_of("k", None, &meta, None, Some("p"));
    row.private = None;
    assert!(matches!(decode_tpm_key(row), Err(Error::CorruptedStore)));

    let mut row = row_of("k", None, &meta, None, Some("p"));
    row.persistent_handle = Some(-1);
    assert!(matches!(decode_tpm_key(row), Err(Error::CorruptedStore)));

    let mut row = row_of("k", None, &meta, None, Some("p"));
    row.policy = Some(vec![9]);
    assert!(matches!(decode_tpm_key(row), Err(Error::CorruptedStore)));

    let mut row = row_of("k", None, &meta, None, Some("p"));
    row.public = vec![0, 1, 0, 0x0b];
    assert!(matches!(decode_tpm_key(row), Err(Error::CorruptedStore)));

    let mut row = row_of("k", None, &meta, None, Some("p"));
    row.public.push(0);
    assert!(matches!(decode_tpm_key(row), Err(Error::CorruptedStore)));
}

#[test]
fn stored_symmetric_key_reads_back() {
    let wrapping = WrappingKeyMeta::Dedicated(child_meta());
    let record = symmetric_key_record(BlockCipher::Aes, SymmetricKeyBits::Bits256, CipherMode::Gcm, &[1, 2, 3], &wrapping)
        .expect("record");
    let w = record.wrapping_key.clone().expect("dedicated");
    let row = SymmetricKeyRow {
        key_name: "sym".to_string(),
        user_key_kind: "symmetric".to_string(),
        block_cipher: Some(record.block_cipher.to_string()),
        key_bits: Some(u32::from(record.key_bits)),
        mode: Some(record.mode.to_string()),
        wrapped_key: Some(record.wrapped_key.clone()),
        wrapping_key_id: Some("id".to_string()),
        wrapping_public: Some(w.public),
        wrapping_private: Some(w.private),
        wrapping_object_name: Some(w.object_name),
        wrapping_policy: w.policy,
    };
    match decode_symmetric_key(row).expect("must decode") {
        KeyMeta::Symmetric { key_name, block_cipher, key_bits, mode, wrapped_key, wrapping_key } => {
            assert_eq!(key_name, "sym");
            assert_eq!(block_cipher, BlockCipher::Aes);
            assert_eq!(key_bits, SymmetricKeyBits::Bits256);
            assert_eq!(mode, CipherMode::Gcm);
            assert_eq!(wrapped_key, vec![1, 2, 3]);
            assert!(matches!(wrapping_key, WrappingKeyMeta::Dedicated(_)));
        }
        other => panic!("unexpected key {:?}", other),
    }
}

#[test]
fn symmetric_rows_are_checked() {
    let row = SymmetricKeyRow {
        key_name: "k".to_string(),
        user_key_kind: "child".to_string(),
        block_cipher: None,
        key_bits: None,
        mode: None,
        wrapped_key: None,
        wrapping_key_id: None,
        wrapping_public: None,
        wrapping_private: None,
        wrapping_object_name: None,
        wrapping_policy: None,
    };
    assert!(matches!(decode_symmetric_key(row.clone()), Err(Error::InvalidKey { .. })));
    let row = SymmetricKeyRow { user_key_kind: "symmetric".to_string(), ..row };
    assert!(matches!(decode_symmetric_key(row.clone()), Err(Error::CorruptedStore)));
    let row = SymmetricKeyRow {
        block_cipher: Some("aes".to_string()),
        key_bits: Some(128),
        mode: Some("gcm".to_string()),
        wrapped_key: Some(vec![4]),
        ..row
    };
    assert!(matches!(decode_symmetric_key(row.clone()), Ok(KeyMeta::Symmetric { wrapping_key: WrappingKeyMeta::Shared, .. })));
    let row = SymmetricKeyRow { key_bits: Some(192), ..row };
    assert!(matches!(decode_symmetric_key(row), Err(Error::CorruptedStore)));
}

#[test]
fn dedicated_wrapping_key_needs_a_private_area() {
    let wrapping = WrappingKeyMeta::Dedicated(TpmKeyMeta { private: None, ..child_meta() });
    assert!(matches!(
        symmetric_key_record(BlockCipher::Aes, SymmetricKeyBits::Bits128, CipherMode::Gcm, &[], &wrapping),
        Err(Error::Internal)
    ));
}

#[test]
fn stored_names_of_enums() {
    assert_eq!(block_cipher_to_str(BlockCipher::Camellia), "camellia");
    assert_eq!(parse_block_cipher("aes").unwrap(), BlockCipher::Aes);
    assert!(matches!(parse_block_cipher("des"), Err(Error::CorruptedStore)));
    assert_eq!(symmetric_key_bits_to_u16(SymmetricKeyBits::Bits128), 128);
    assert_eq!(parse_symmetric_key_bits(256).unwrap(), SymmetricKeyBits::Bits256);
    assert!(parse_symmetric_key_bits(512).is_err());
    assert_eq!(parse_cipher_mode("gcm").unwrap(), CipherMode::Gcm);
    assert!(parse_cipher_mode("cbc").is_err());
    assert_eq!(InternalKeyKind::SessionSaltKey.as_str(), "session_salt_key");
    assert_eq!(stored_key_kind("child").unwrap(), StoredKeyKind::Tpm);
    assert_eq!(stored_key_kind("symmetric").unwrap(), StoredKeyKind::Symmetric);
    assert!(matches!(stored_key_kind("other"), Err(Error::CorruptedStore)));
}

#[test]
fn internal_keys_and_names() {
    let meta = decode_internal_key_meta(InternalKeyKind::Srk, 0x8100_0001, vec![1, 2]).expect("valid");
    assert_eq!(meta.handle.value(), 0x8100_0001);
    assert!(matches!(decode_internal_key_meta(InternalKeyKind::Srk, 0x8000_0001, vec![]), Err(Error::CorruptedStore)));
    assert!(matches!(decode_internal_key_meta(InternalKeyKind::Srk, 0x8100_0001, vec![0; 67]), Err(Error::CorruptedStore)));
    let records = internal_key_records(&[meta.clone(), meta.clone(), meta]).expect("three keys");
    assert_eq!(records[0].0, "srk");
    assert_eq!(records[2].0, "shared_wrapping_key");
    assert!(matches!(internal_key_records(&[]), Err(Error::Internal)));
    assert!(matches!(ensure_unique_key_name(true, "k"), Err(Error::KeyAlreadyExists(n)) if n == "k"));
    assert!(ensure_unique_key_name(false, "k").is_ok());
}

#[test]
fn hierarchies_by_name() {
    assert_eq!(hierarchy_to_str(Hierarchy::Storage), "owner");
    assert_eq!(" storage ".parse::<Hierarchy>().unwrap(), Hierarchy::Storage);
    assert_eq!("platform".parse::<Hierarchy>().unwrap(), Hierarchy::Platform);
    assert_eq!("endorsement".parse::<Hierarchy>().unwrap(), Hierarchy::Endorsement);
    assert!("owner".parse::<Hierarchy>().is_err());
    assert_eq!(Hierarchy::from_db("endorsement").unwrap(), Hierarchy::Endorsement);
    assert!(matches!(Hierarchy::from_db("storage"), Err(Error::CorruptedStore)));
}

#[test]
fn cache_remembers_authorizations_and_branches() {
    let mut cache: Cache<u8> = Cache::new();
    let target = AuthorizationTarget::Key(KeyId::Stored("k".to_string()));
    assert!(cache.auth(&target).buffer.is_empty());
    cache.set_key_auth(KeyId::Stored("k".to_string()), Tpm2bAuth { buffer: vec![1] });
    cache.set_hierarchy_auth(Hierarchy::Storage, Tpm2bAuth { buffer: vec![2] });
    assert_eq!(cache.auth(&target).buffer, vec![1]);
    assert!(cache.auth(&AuthorizationTarget::Key(KeyId::Temporary("k".to_string()))).buffer.is_empty());
    assert_eq!(cache.auth(&AuthorizationTarget::Hierarchy(Hierarchy::Storage)).buffer, vec![2]);
    cache.set_key_policy_branche(KeyId::Stored("k".to_string()), "auth");
    cache.set_key_policy_branche(KeyId::Stored("k".to_string()), "auth");
    cache.set_key_policy_branche(KeyId::Stored("k".to_string()), "password");
    assert_eq!(cache.key_policy_branches(KeyId::Stored("k".to_string())).unwrap().len(), 2);
    assert!(cache.hierarchy_policy_branches(Hierarchy::Platform).is_none());
    cache.set_hierarchy_policy_branche(Hierarchy::Platform, "x");
    assert_eq!(cache.hierarchy_policy_branches(Hierarchy::Platform).unwrap(), &vec!["x".to_string()]);
    assert!(!cache.contains_temporary_key("t"));
    cache.add_temporary_key("t".to_string(), TemporaryKey { data: 7u8, policy: None, parent: None });
    assert!(cache.contains_temporary_key("t"));
    assert_eq!(cache.temporary_key("t").unwrap().data, 7);
}

#[test]
fn created_keys_become_metadata() {
    let data = CreatedKeyData {
        public: Tpm2bPublic { buffer: vec![1] },
        private: None,
        name: Tpm2bName { buffer: vec![2] },
    };
    let meta = CreatedKey::Tpm(data)
        .into_key_meta(KeyTemplate::Rsa { storage_parent: true }, "srk".to_string(), None, Some("p".to_string()))
        .unwrap();
    assert!(matches!(meta, KeyMeta::Tpm { hierarchy: Some(Hierarchy::Storage), parent_name: None, .. }));

    let data = CreatedKeyData { public: Tpm2bPublic { buffer: vec![1] }, private: Some(Tpm2bPrivate { buffer: vec![3] }), name: Tpm2bName { buffer: vec![2] } };
    let meta = CreatedKey::Tpm(data).into_key_meta(KeyTemplate::Ecc, "ecc".to_string(), None, Some("p".to_string())).unwrap();
    assert!(matches!(meta, KeyMeta::Tpm { hierarchy: None, parent_name: Some(_), .. }));

    let template = SymmetricTemplate { block_cipher: BlockCipher::Aes, key_bits: SymmetricKeyBits::Bits128, mode: CipherMode::Gcm };
    let sym = CreatedKey::Symmetric { key: Tpm2bPublicKeyRsa { buffer: vec![9] }, wrapping_key: None };
    assert!(matches!(
        sym.into_key_meta(KeyTemplate::Symmetric(template), "s".to_string(), Some(PolicyData::AuthValue), None),
        Err(Error::Internal)
    ));
    let sym = CreatedKey::Symmetric { key: Tpm2bPublicKeyRsa { buffer: vec![9] }, wrapping_key: None };
    assert!(matches!(
        sym.into_key_meta(KeyTemplate::Ecc, "s".to_string(), None, None),
        Err(Error::Internal)
    ));
}

#[test]
fn first_layout_metadata() {
    assert_eq!(PrimaryKeyLoadSource::PersistentHandle { handle: 5 }.decode(), PrimaryKeySource::PersistentHandle { handle: 5 });
    assert_eq!(ChildKeyLoadSource::StoredBlob.decode(), ChildKeySource::StoredBlob);
    let handle = PersistentHandle::new(0x8100_0000, &[1, 2]);
    assert_eq!(handle.name, vec![1, 2]);
    let meta = OldSymmetricKeyMeta::new("id".to_string(), BlockCipher::Camellia, SymmetricKeyBits::Bits256, CipherMode::Gcm, &[1], Some("w"));
    assert_eq!(meta.block_cipher, "camellia");
    assert_eq!(meta.key_bits, 256);
    let meta = OldKeyMeta::from(meta);
    assert_eq!(meta.id(), "id");
    assert_eq!(meta.kind(), "symmetric");
}

#[test]
fn policy_is_stored_with_version() {
    let bytes = marshal_policy_data(&PolicyData::AuthValue).unwrap();
    assert!(!bytes.is_empty());
}

#[test]
fn missing_tables_mean_not_provisioned() {
    assert!(matches!(tpm2_rs::store::store_query_error(Some("no such table: user_keys")), Error::NotProvisioned));
    assert!(matches!(tpm2_rs::store::store_query_error(Some("database is locked")), Error::Store));
    assert!(matches!(tpm2_rs::store::store_query_error(Some("no such")), Error::Store));
    assert!(matches!(tpm2_rs::store::store_query_error(None), Error::Store));
}

#[test]
fn only_an_empty_store_is_provisioned() {
    assert!(tpm2_rs::store::ensure_store_empty(0).is_ok());
    assert!(matches!(tpm2_rs::store::ensure_store_empty(4096), Err(Error::AlreadyProvisioned)));
}
