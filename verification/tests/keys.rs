use tpm2_rs::cache::{Cache, KeyId, TemporaryKey};
use tpm2_rs::created::{CreatedKey, CreatedKeyData, HandleResource, KeyData, KeyTemplate, SymmetricTemplate};
use tpm2_rs::error::Error;
use tpm2_rs::handle::{TpmHandle, TpmiDhPersistent};
use tpm2_rs::hierarchy::Hierarchy;
use tpm2_rs::keys::{
    creation_parent, enter_key, key_authorization, load_temporary_key_data, open_stored_key, stored_key_load_data, stored_parent_name,
    symmetric_authorization, try_register_temporary_key, validate_key_creation, CreationParent, KeyLoadData,
};
use tpm2_rs::policy::{clone_policy, PolicyBranchData, PolicyData};
use tpm2_rs::store::{BlockCipher, CipherMode, KeyMeta, SymmetricKeyBits, TpmKeyMeta, WrappingKeyMeta};
use tpm2_rs::tpm::{Tpm2bAuth, Tpm2bName, Tpm2bPrivate, Tpm2bPublic, Tpm2bPublicKeyRsa, TpmlDigest};

fn stored(name: &str) -> KeyId {
    KeyId::Stored(name.to_string())
}

fn temporary(id: &str) -> KeyId {
    KeyId::Temporary(id.to_string())
}

fn symmetric() -> KeyTemplate {
    KeyTemplate::Symmetric(SymmetricTemplate {
        block_cipher: BlockCipher::Aes,
        key_bits: SymmetricKeyBits::Bits256,
        mode: CipherMode::Gcm,
    })
}

#[test]
fn key_creation_arguments_are_checked() {
    let rsa = KeyTemplate::Rsa { storage_parent: false };
    let srk = KeyTemplate::Rsa { storage_parent: true };
    assert!(validate_key_creation(rsa, Some("k"), false, Some(&stored("p"))).is_ok());
    assert!(validate_key_creation(rsa, None, false, Some(&temporary("t"))).is_ok());
    assert!(matches!(
        validate_key_creation(rsa, Some("k"), true, None),
        Err(Error::KeyAlreadyExists(n)) if n == "k"
    ));
    assert!(matches!(
        validate_key_creation(rsa, Some("k"), false, Some(&temporary("t"))),
        Err(Error::InvalidParameter("parent must be a stored key for a named key"))
    ));
    assert!(matches!(
        validate_key_creation(srk, None, false, Some(&stored("p"))),
        Err(Error::InvalidParameter("parent cannot be specified for storage root or symmetric keys"))
    ));
    assert!(matches!(
        validate_key_creation(symmetric(), Some("s"), false, Some(&stored("p"))),
        Err(Error::InvalidParameter(_))
    ));
    assert!(validate_key_creation(KeyTemplate::Ecc, None, true, None).is_ok());
}

#[test]
fn new_keys_get_their_parents() {
    assert!(matches!(creation_parent(KeyTemplate::Rsa { storage_parent: true }, None), CreationParent::Hierarchy));
    assert!(matches!(creation_parent(symmetric(), None), CreationParent::SharedWrappingKey));
    assert!(matches!(creation_parent(KeyTemplate::Ecc, None), CreationParent::InternalSrk));
    match creation_parent(KeyTemplate::Ecc, Some(&stored("p"))) {
        CreationParent::Key(KeyId::Stored(n)) => assert_eq!(n, "p"),
        other => panic!("unexpected parent {:?}", other),
    }
}

#[test]
fn symmetric_keys_need_authorization_only_where_asked() {
    assert!(symmetric_authorization(Tpm2bAuth::empty(), None).is_none());
    let a = symmetric_authorization(Tpm2bAuth { buffer: b"pw".to_vec() }, None).unwrap();
    assert_eq!(a.auth.buffer, b"pw".to_vec());
    assert!(symmetric_authorization(Tpm2bAuth::empty(), Some(PolicyData::Password)).is_some());
}

#[test]
fn stored_keys_have_stored_parents() {
    assert_eq!(stored_parent_name(Some(stored("p"))).unwrap(), Some("p".to_string()));
    assert_eq!(stored_parent_name(None).unwrap(), None);
    assert!(matches!(stored_parent_name(Some(temporary("t"))), Err(Error::Internal)));
}

#[test]
fn temporary_identifiers_are_not_reused() {
    let mut cache: Cache<u8> = Cache::new();
    let key = TemporaryKey { data: 1u8, policy: None, parent: None };
    let id = try_register_temporary_key(&mut cache, "abc".to_string(), key).unwrap();
    assert!(matches!(id, KeyId::Temporary(ref s) if s == "abc"));
    assert!(cache.contains_temporary_key("abc"));
    let again = TemporaryKey { data: 2u8, policy: None, parent: None };
    let back = try_register_temporary_key(&mut cache, "abc".to_string(), again).unwrap_err();
    assert_eq!(back.data, 2);
    assert_eq!(cache.temporary_key("abc").unwrap().data, 1);
}

#[test]
fn key_authorization_uses_the_remembered_value() {
    let mut cache: Cache<u8> = Cache::new();
    cache.set_key_auth(stored("k"), Tpm2bAuth { buffer: vec![7] });
    let a = key_authorization(&cache, &stored("k"), Some(PolicyData::AuthValue));
    assert_eq!(a.auth.buffer, vec![7]);
    assert!(matches!(a.policy, Some(PolicyData::AuthValue)));
    assert!(key_authorization(&cache, &temporary("k"), None).auth.buffer.is_empty());
}

fn meta(private: Option<Vec<u8>>) -> TpmKeyMeta {
    TpmKeyMeta {
        public: Tpm2bPublic { buffer: vec![0, 1, 0, 0x0b] },
        private: private.map(|buffer| Tpm2bPrivate { buffer }),
        obj_name: Tpm2bName { buffer: vec![0, 0x0b, 1, 2] },
        policy: None,
    }
}

#[test]
fn stored_keys_are_loaded_as_their_metadata_says() {
    let persistent = KeyMeta::child("c".to_string(), meta(Some(vec![1])), Some(TpmiDhPersistent(TpmHandle(0x8100_0005))), None);
    assert!(matches!(stored_key_load_data(&Cache::<KeyData>::new(), persistent), Ok(KeyLoadData::Persistent { handle, .. }) if handle.value() == 0x8100_0005));
    let primary = KeyMeta::owner_primary("p".to_string(), meta(None), None);
    assert!(matches!(stored_key_load_data(&Cache::<KeyData>::new(), primary), Ok(KeyLoadData::Primary { hierarchy: Hierarchy::Storage, .. })));
    let child = KeyMeta::child("c".to_string(), meta(Some(vec![1])), None, Some("p".to_string()));
    match stored_key_load_data(&Cache::<KeyData>::new(), child) {
        Ok(KeyLoadData::Child { private, parent: Some(KeyId::Stored(p)), .. }) => {
            assert_eq!(private.buffer, vec![1]);
            assert_eq!(p, "p");
        }
        other => panic!("unexpected load data {:?}", other),
    }
    let broken = KeyMeta::child("c".to_string(), meta(None), None, None);
    assert!(matches!(stored_key_load_data(&Cache::<KeyData>::new(), broken), Err(Error::CorruptedStore)));
    let sym = KeyMeta::symmetric(
        "s".to_string(),
        BlockCipher::Aes,
        SymmetricKeyBits::Bits128,
        CipherMode::Gcm,
        vec![1],
        WrappingKeyMeta::Shared,
    );
    assert!(matches!(stored_key_load_data(&Cache::<KeyData>::new(), sym), Err(Error::Internal)));
}

#[test]
fn parent_chains_refuse_cycles() {
    let mut chain = Vec::new();
    enter_key(&mut chain, &stored("a")).unwrap();
    enter_key(&mut chain, &temporary("a")).unwrap();
    enter_key(&mut chain, &stored("b")).unwrap();
    assert!(matches!(enter_key(&mut chain, &stored("a")), Err(Error::Internal)));
    assert_eq!(chain.len(), 3);
}

fn created(private: Option<Vec<u8>>) -> CreatedKeyData {
    CreatedKeyData {
        public: Tpm2bPublic { buffer: vec![0, 1] },
        private: private.map(|buffer| Tpm2bPrivate { buffer }),
        name: Tpm2bName { buffer: vec![0, 0x0b, 5] },
    }
}

#[test]
fn created_keys_become_temporary_keys() {
    let srk = CreatedKey::Tpm(created(None)).into_temporary_key(KeyTemplate::Rsa { storage_parent: true }, None, None);
    assert!(matches!(srk, Ok(ref t) if matches!(t.data, KeyData::Srk(HandleResource::Transient { .. }))));
    let ecc = CreatedKey::Tpm(created(Some(vec![1])))
        .into_temporary_key(KeyTemplate::Ecc, Some(PolicyData::Password), Some(stored("p")))
        .unwrap();
    assert!(matches!(ecc.data, KeyData::Ecc(_)));
    assert!(matches!(ecc.policy, Some(PolicyData::Password)));
    assert!(matches!(ecc.parent, Some(KeyId::Stored(ref n)) if n == "p"));
    assert!(matches!(CreatedKey::Tpm(created(None)).into_temporary_key(symmetric(), None, None), Err(Error::Internal)));
    let sym = CreatedKey::Symmetric { key: Tpm2bPublicKeyRsa { buffer: vec![4] }, wrapping_key: None }
        .into_temporary_key(symmetric(), None, None)
        .unwrap();
    assert!(matches!(sym.data, KeyData::Symmetric { wrapping_key: None, .. }));
    assert!(matches!(
        CreatedKey::Symmetric { key: Tpm2bPublicKeyRsa { buffer: vec![4] }, wrapping_key: None }
            .into_temporary_key(KeyTemplate::Ecc, None, None),
        Err(Error::Internal)
    ));
}

#[test]
fn temporary_keys_are_loaded_as_they_live() {
    let mut cache: Cache<KeyData> = Cache::new();
    assert!(matches!(load_temporary_key_data(&cache, "none"), Err(Error::Internal)));
    let srk = CreatedKey::Tpm(created(None)).into_temporary_key(KeyTemplate::Rsa { storage_parent: true }, None, None).unwrap();
    cache.add_temporary_key("srk".to_string(), srk);
    assert!(matches!(load_temporary_key_data(&cache, "srk"), Ok(KeyLoadData::Primary { hierarchy: Hierarchy::Storage, .. })));
    let child = CreatedKey::Tpm(created(Some(vec![7])))
        .into_temporary_key(KeyTemplate::Rsa { storage_parent: false }, Some(PolicyData::AuthValue), Some(temporary("srk")))
        .unwrap();
    cache.add_temporary_key("child".to_string(), child);
    match load_temporary_key_data(&cache, "child") {
        Ok(KeyLoadData::Child { private, policy: Some(PolicyData::AuthValue), parent: Some(KeyId::Temporary(p)), .. }) => {
            assert_eq!(private.buffer, vec![7]);
            assert_eq!(p, "srk");
        }
        other => panic!("unexpected load data {:?}", other),
    }
    let no_private = CreatedKey::Tpm(created(None)).into_temporary_key(KeyTemplate::Ecc, None, None).unwrap();
    cache.add_temporary_key("broken".to_string(), no_private);
    assert!(matches!(load_temporary_key_data(&cache, "broken"), Err(Error::Internal)));
    cache.add_temporary_key(
        "persistent".to_string(),
        TemporaryKey {
            data: KeyData::Rsa(HandleResource::Persistent {
                handle: TpmiDhPersistent(TpmHandle(0x8100_0009)),
                obj_name: Tpm2bName { buffer: vec![1] },
            }),
            policy: None,
            parent: None,
        },
    );
    assert!(matches!(load_temporary_key_data(&cache, "persistent"), Ok(KeyLoadData::Persistent { handle, .. }) if handle.value() == 0x8100_0009));
    let sym = CreatedKey::Symmetric { key: Tpm2bPublicKeyRsa { buffer: vec![4] }, wrapping_key: None }
        .into_temporary_key(symmetric(), None, None)
        .unwrap();
    cache.add_temporary_key("sym".to_string(), sym);
    assert!(matches!(load_temporary_key_data(&cache, "sym"), Err(Error::Internal)));
}

#[test]
fn policies_are_copied_whole() {
    let policy = PolicyData::Sequence(vec![
        PolicyData::Password,
        PolicyData::Or {
            branches: vec![
                PolicyBranchData { label: "a".to_string(), policy: PolicyData::AuthValue },
                PolicyBranchData { label: "b".to_string(), policy: PolicyData::Password },
            ],
            branch_digests: TpmlDigest::default(),
            selected_label: Some("b".to_string()),
        },
    ]);
    let copy = clone_policy(&policy);
    assert_eq!(format!("{:?}", copy), format!("{:?}", policy));
}

#[test]
fn only_stored_keys_open() {
    assert!(matches!(open_stored_key(true, "k"), Ok(KeyId::Stored(ref n)) if n == "k"));
    assert!(matches!(open_stored_key(false, "k"), Err(Error::KeyNotFound)));
}

fn or_policy() -> PolicyData {
    PolicyData::Or {
        branches: vec![
            PolicyBranchData { label: "a".to_string(), policy: PolicyData::AuthValue },
            PolicyBranchData { label: "b".to_string(), policy: PolicyData::Password },
        ],
        branch_digests: TpmlDigest::default(),
        selected_label: None,
    }
}

#[test]
fn policy_branches_must_be_selected_before_a_key_loads() {
    let mut cache: Cache<KeyData> = Cache::new();
    cache.add_temporary_key(
        "k".to_string(),
        TemporaryKey {
            data: KeyData::Srk(HandleResource::Persistent {
                handle: TpmiDhPersistent(TpmHandle(0x8100_0009)),
                obj_name: Tpm2bName { buffer: vec![1] },
            }),
            policy: Some(or_policy()),
            parent: None,
        },
    );
    assert!(matches!(
        load_temporary_key_data(&cache, "k"),
        Err(Error::InvalidPolicy("policy branch was not selected"))
    ));
    cache.set_key_policy_branche(KeyId::Temporary("k".to_string()), "b");
    match load_temporary_key_data(&cache, "k") {
        Ok(KeyLoadData::Persistent { policy: Some(PolicyData::Or { selected_label: Some(label), .. }), .. }) => {
            assert_eq!(label, "b")
        }
        other => panic!("unexpected load data {:?}", other),
    }

    let mut stored_meta = meta(Some(vec![1]));
    stored_meta.policy = Some(or_policy());
    let stored = KeyMeta::child("s".to_string(), stored_meta, None, None);
    assert!(matches!(stored_key_load_data(&cache, stored), Err(Error::InvalidPolicy(_))));
    cache.set_key_policy_branche(KeyId::Stored("s".to_string()), "z");
    cache.set_key_policy_branche(KeyId::Stored("s".to_string()), "a");
    let mut stored_meta = meta(Some(vec![1]));
    stored_meta.policy = Some(PolicyData::Sequence(vec![PolicyData::Password, or_policy()]));
    let stored = KeyMeta::child("s".to_string(), stored_meta, None, None);
    match stored_key_load_data(&cache, stored) {
        Ok(KeyLoadData::Child { policy: Some(PolicyData::Sequence(steps)), .. }) => {
            assert!(matches!(&steps[1], PolicyData::Or { selected_label: Some(label), .. } if label == "a"));
        }
        other => panic!("unexpected load data {:?}", other),
    }
    let plain = KeyMeta::child("p".to_string(), meta(Some(vec![1])), None, None);
    assert!(stored_key_load_data(&Cache::<KeyData>::new(), plain).is_ok());
}
