use tpm2_rs::cache::{Cache, KeyId};
use tpm2_rs::created::{CreatedKey, CreatedKeyData, KeyData, KeyTemplate, SymmetricTemplate};
use tpm2_rs::error::{Error, ErrorSource, TbsError};
use tpm2_rs::handle::{TpmHandle, TpmiDhPersistent};
use tpm2_rs::lifecycle::{
    create_key_step, delete_plan, error_source, load_step, persist_step, provision_step, CreateAction, CreateEvent,
    CreateState, DeleteAction, KeyRequest, LoadAction, LoadEvent, LoadKind, LoadState, PersistAction, PersistEvent,
    PersistState, ProvisionAction, ProvisionEvent, ProvisionState,
};
use tpm2_rs::keys::CreationParent;
use tpm2_rs::parse::CreateResponse;
use tpm2_rs::response::PcrReadResponse;
use tpm2_rs::store::{BlockCipher, CipherMode, InternalKeyKind, KeyMeta, SymmetricKeyBits, TpmKeyMeta};
use tpm2_rs::cap::TpmlPcrSelection;
use tpm2_rs::creation::TpmsCreationData;
use tpm2_rs::tpm::{Tpm2bAuth, Tpm2bData, Tpm2bDigest, Tpm2bName, Tpm2bPrivate, Tpm2bPublic, TpmAlgId, ALG_SHA256};
use tpm2_rs::types::TpmaLocality;

fn name() -> Tpm2bName {
    Tpm2bName { buffer: vec![0, 0x0b, 7] }
}

fn tpm_meta() -> TpmKeyMeta {
    TpmKeyMeta {
        public: Tpm2bPublic { buffer: vec![0, 1, 0, 0x0b] },
        private: Some(Tpm2bPrivate { buffer: vec![1] }),
        obj_name: Tpm2bName { buffer: vec![0, 0x0b, 1, 2] },
        policy: None,
    }
}

#[test]
fn persisting_a_temporary_key_is_refused_before_any_command() {
    let (state, action) = persist_step(PersistState::Idle, PersistEvent::Begin { temporary: true, requested: None });
    assert!(matches!(state, PersistState::Done));
    assert!(matches!(
        action,
        PersistAction::Finish { release: None, result: Err(Error::InvalidKey { context: "temporary key cannot be persisted", source: None }) }
    ));
}

#[test]
fn persisting_at_a_handle_outside_the_range_is_refused() {
    for requested in [0x8000_0001u32, 0x8101_0000, 0x4000_0001] {
        let (_, action) =
            persist_step(PersistState::Idle, PersistEvent::Begin { temporary: false, requested: Some(requested) });
        assert!(matches!(
            action,
            PersistAction::Finish { release: None, result: Err(Error::InvalidParameter(_)) }
        ));
    }
    let (state, action) =
        persist_step(PersistState::Idle, PersistEvent::Begin { temporary: false, requested: Some(0x8100_0010) });
    assert!(matches!(state, PersistState::LoadingKey { target: 0x8100_0010, search_end: None }));
    assert!(matches!(action, PersistAction::LoadKey));
}

#[test]
fn persisting_runs_load_evict_and_store_in_order() {
    let (state, _) = persist_step(PersistState::Idle, PersistEvent::Begin { temporary: false, requested: None });
    assert!(matches!(state, PersistState::LoadingKey { target: 0x8100_0002, search_end: Some(0x8100_FFFF) }));
    let (state, action) = persist_step(state, PersistEvent::KeyLoaded { object: 0x8000_0001, persistent: false });
    assert!(matches!(action, PersistAction::LoadSaltKey));
    let (state, action) = persist_step(state, PersistEvent::SaltKeyLoaded { salt: 0x8100_0000 });
    assert!(matches!(
        action,
        PersistAction::EvictControl { object: 0x8000_0001, persistent: 0x8100_0002, search_end: Some(0x8100_FFFF), salt: 0x8100_0000 }
    ));
    let (state, action) = persist_step(state, PersistEvent::EvictControlDone { handle: 0x8100_0004 });
    assert!(matches!(action, PersistAction::UpdateStore { persistent: 0x8100_0004 }));
    let (state, action) = persist_step(state, PersistEvent::StoreUpdated);
    assert!(matches!(state, PersistState::Done));
    assert!(matches!(action, PersistAction::Finish { release: Some(0x8000_0001), result: Ok(0x8100_0004) }));
}

#[test]
fn a_store_failure_after_persisting_is_rolled_back() {
    let state = PersistState::Recording { object: 0x8000_0001, salt: 0x8100_0000, handle: 0x8100_0004 };
    let (state, action) = persist_step(state, PersistEvent::Failed(Error::Store));
    assert!(matches!(
        action,
        PersistAction::EvictControl { object: 0x8000_0001, persistent: 0x8100_0004, search_end: None, salt: 0x8100_0000 }
    ));
    let (state, action) = persist_step(state, PersistEvent::EvictControlDone { handle: 0x8100_0004 });
    assert!(matches!(state, PersistState::Done));
    assert!(matches!(action, PersistAction::Finish { release: Some(0x8000_0001), result: Err(Error::Store) }));
}

#[test]
fn a_key_that_cannot_be_loaded_or_is_persistent_is_an_invalid_key() {
    let loading = || PersistState::LoadingKey { target: 0x8100_0002, search_end: None };
    let failure = Error::Busy(ErrorSource::Tbs(TbsError::Internal));
    let (_, action) = persist_step(loading(), PersistEvent::Failed(failure));
    assert!(matches!(
        action,
        PersistAction::Finish {
            release: None,
            result: Err(Error::InvalidKey { context: "key cannot be loaded", source: Some(ErrorSource::Tbs(TbsError::Internal)) })
        }
    ));
    let (_, action) = persist_step(loading(), PersistEvent::KeyLoaded { object: 0x8100_0009, persistent: true });
    assert!(matches!(
        action,
        PersistAction::Finish { release: Some(0x8100_0009), result: Err(Error::InvalidKey { context: "specified key is already persistent", .. }) }
    ));
    assert_eq!(error_source(&Error::InvalidData), None);
}

#[test]
fn provisioning_an_initialized_store_fails_first() {
    let (state, action) = provision_step(ProvisionState::Idle, ProvisionEvent::Begin { initialized: true });
    assert!(matches!(state, ProvisionState::Done));
    assert!(matches!(action, ProvisionAction::Finish(Err(Error::AlreadyProvisioned))));
}

#[test]
fn provisioning_makes_the_three_keys_in_order() {
    let (state, action) = provision_step(ProvisionState::Idle, ProvisionEvent::Begin { initialized: false });
    assert!(matches!(action, ProvisionAction::Create { kind: InternalKeyKind::Srk, parent: None, salt: None }));
    let (state, action) = provision_step(state, ProvisionEvent::Created { object: 0x8000_0000, name: name() });
    assert!(matches!(action, ProvisionAction::EvictControl { object: 0x8000_0000, persistent: 0x8100_0001, .. }));
    let (state, action) = provision_step(state, ProvisionEvent::EvictControlDone { handle: 0x8100_0001 });
    assert!(matches!(action, ProvisionAction::Flush { sessions: false }));
    let (state, action) = provision_step(state, ProvisionEvent::Flushed);
    assert!(matches!(
        action,
        ProvisionAction::Create { kind: InternalKeyKind::SessionSaltKey, parent: Some(0x8100_0001), salt: None }
    ));
    let (state, action) = provision_step(state, ProvisionEvent::Created { object: 0x8000_0001, name: name() });
    assert!(matches!(action, ProvisionAction::EvictControl { persistent: 0x8100_0000, salt: None, .. }));
    let (state, _) = provision_step(state, ProvisionEvent::EvictControlDone { handle: 0x8100_0000 });
    let (state, action) = provision_step(state, ProvisionEvent::Flushed);
    assert!(matches!(
        action,
        ProvisionAction::Create { kind: InternalKeyKind::SharedWrappingKey, parent: Some(0x8100_0001), salt: Some(0x8100_0000) }
    ));
    let (state, action) = provision_step(state, ProvisionEvent::Created { object: 0x8000_0002, name: name() });
    assert!(matches!(action, ProvisionAction::EvictControl { persistent: 0x8100_0001, salt: Some(0x8100_0000), .. }));
    let (state, action) = provision_step(state, ProvisionEvent::EvictControlDone { handle: 0x8100_0002 });
    assert!(matches!(action, ProvisionAction::Flush { sessions: true }));
    let (state, action) = provision_step(state, ProvisionEvent::Flushed);
    match &action {
        ProvisionAction::InitStore { srk, salt, wrapping } => {
            assert!(matches!(srk.kind, InternalKeyKind::Srk));
            assert!(matches!(salt.kind, InternalKeyKind::SessionSaltKey));
            assert!(matches!(wrapping.kind, InternalKeyKind::SharedWrappingKey));
            assert_eq!((srk.handle.0 .0, salt.handle.0 .0, wrapping.handle.0 .0), (0x8100_0001, 0x8100_0000, 0x8100_0002));
        }
        _ => panic!("expected the store to be initialized"),
    }
    let (state, action) = provision_step(state, ProvisionEvent::StoreInitialized);
    assert!(matches!(state, ProvisionState::Done));
    assert!(matches!(action, ProvisionAction::Finish(Ok(()))));
}

#[test]
fn a_failed_provisioning_evicts_its_keys_newest_first() {
    let (state, _) = provision_step(ProvisionState::Idle, ProvisionEvent::Begin { initialized: false });
    let (state, _) = provision_step(state, ProvisionEvent::Created { object: 0x8000_0000, name: name() });
    let (state, _) = provision_step(state, ProvisionEvent::EvictControlDone { handle: 0x8100_0001 });
    let (state, _) = provision_step(state, ProvisionEvent::Flushed);
    let (state, _) = provision_step(state, ProvisionEvent::Created { object: 0x8000_0001, name: name() });
    let (state, _) = provision_step(state, ProvisionEvent::EvictControlDone { handle: 0x8100_0000 });
    let (state, _) = provision_step(state, ProvisionEvent::Flushed);
    let (state, action) = provision_step(state, ProvisionEvent::Failed(Error::InvalidData));
    assert!(matches!(action, ProvisionAction::CleanUp));
    let (state, action) = provision_step(state, ProvisionEvent::Flushed);
    assert!(matches!(action, ProvisionAction::Evict { persistent: 0x8100_0000 }));
    let (state, action) = provision_step(state, ProvisionEvent::Failed(Error::Store));
    assert!(matches!(action, ProvisionAction::Evict { persistent: 0x8100_0001 }));
    let (state, action) = provision_step(state, ProvisionEvent::EvictControlDone { handle: 0x8100_0001 });
    assert!(matches!(state, ProvisionState::Done));
    assert!(matches!(action, ProvisionAction::Finish(Err(Error::InvalidData))));
}

#[test]
fn a_key_reported_outside_its_search_range_is_not_counted() {
    let (state, _) = provision_step(ProvisionState::Idle, ProvisionEvent::Begin { initialized: false });
    let (state, _) = provision_step(state, ProvisionEvent::Created { object: 0x8000_0000, name: name() });
    let (state, _) = provision_step(state, ProvisionEvent::EvictControlDone { handle: 0x8100_0001 });
    let (state, _) = provision_step(state, ProvisionEvent::Flushed);
    let (state, _) = provision_step(state, ProvisionEvent::Created { object: 0x8000_0001, name: name() });
    let (state, action) = provision_step(state, ProvisionEvent::EvictControlDone { handle: 0x81FF_FFFF });
    assert!(matches!(action, ProvisionAction::CleanUp));
    let (_, action) = provision_step(state, ProvisionEvent::Flushed);
    assert!(matches!(action, ProvisionAction::Evict { persistent: 0x8100_0001 }));
}

#[test]
fn keys_load_from_the_root_down() {
    let (state, action) = load_step(LoadState::Idle, LoadEvent::KeyData { kind: LoadKind::Child { has_parent: true } });
    assert!(matches!(action, LoadAction::FetchParent));
    let (state, action) = load_step(state, LoadEvent::KeyData { kind: LoadKind::Child { has_parent: false } });
    assert!(matches!(action, LoadAction::LoadSrk));
    let (state, action) = load_step(state, LoadEvent::SrkLoaded { handle: 0x8100_0001 });
    assert!(matches!(action, LoadAction::Load { index: 1, parent: Some(0x8100_0001), flush: None }));
    let (state, action) = load_step(
        state,
        LoadEvent::Loaded { handle: 0x8000_0005, transient: true, name: vec![1, 2], expected: vec![1, 2] },
    );
    assert!(matches!(action, LoadAction::Load { index: 0, parent: Some(0x8000_0005), flush: None }));
    let (state, action) = load_step(
        state,
        LoadEvent::Loaded { handle: 0x8000_0006, transient: true, name: vec![3], expected: vec![3] },
    );
    assert!(matches!(state, LoadState::Done));
    assert!(matches!(
        action,
        LoadAction::Finish { result: Ok((0x8000_0006, true)), flush_parent: Some(0x8000_0005), flush_object: None }
    ));
}

#[test]
fn a_loaded_key_with_another_name_is_flushed_and_refused() {
    let state = LoadState::Loading { index: 0, parent: Some(0x8000_0005), parent_transient: true };
    let (_, action) = load_step(
        state,
        LoadEvent::Loaded { handle: 0x8000_0006, transient: true, name: vec![1], expected: vec![2] },
    );
    assert!(matches!(
        action,
        LoadAction::Finish { result: Err(Error::CorruptedStore), flush_parent: Some(0x8000_0005), flush_object: Some(0x8000_0006) }
    ));
    let (_, action) = load_step(LoadState::Idle, LoadEvent::KeyData { kind: LoadKind::Persistent });
    assert!(matches!(action, LoadAction::Load { index: 0, parent: None, flush: None }));
}

fn request(template: KeyTemplate, key_name: Option<&str>, parent: Option<KeyId>) -> KeyRequest {
    KeyRequest { template, key_name: key_name.map(str::to_owned), policy: None, parent, auth: Tpm2bAuth { buffer: vec![4, 2] } }
}

#[test]
fn key_creation_is_checked_before_anything_is_sent() {
    let begin = CreateEvent::Begin { request: request(KeyTemplate::Ecc, Some("k"), None), key_exists: true };
    let (_, action) = create_key_step(CreateState::Idle, begin);
    assert!(matches!(action, CreateAction::Finish { result: Err(Error::KeyAlreadyExists(ref n)), flush: None } if n == "k"));
    let srk = KeyTemplate::Rsa { storage_parent: true };
    let begin = CreateEvent::Begin { request: request(srk, None, Some(KeyId::Stored("p".to_string()))), key_exists: false };
    let (_, action) = create_key_step(CreateState::Idle, begin);
    assert!(matches!(action, CreateAction::Finish { result: Err(Error::InvalidParameter(_)), .. }));
    let begin = CreateEvent::Begin { request: request(srk, None, None), key_exists: false };
    let (_, action) = create_key_step(CreateState::Idle, begin);
    assert!(matches!(action, CreateAction::Create { parent: None }));
    let symmetric = KeyTemplate::Symmetric(SymmetricTemplate {
        block_cipher: BlockCipher::Aes,
        key_bits: SymmetricKeyBits::Bits128,
        mode: CipherMode::Gcm,
    });
    let begin = CreateEvent::Begin { request: request(symmetric, None, None), key_exists: false };
    let (_, action) = create_key_step(CreateState::Idle, begin);
    assert!(matches!(action, CreateAction::LoadParent(CreationParent::SharedWrappingKey)));
    let begin = CreateEvent::Begin { request: request(KeyTemplate::Ecc, None, None), key_exists: false };
    let (_, action) = create_key_step(CreateState::Idle, begin);
    assert!(matches!(action, CreateAction::LoadParent(CreationParent::InternalSrk)));
}

#[test]
fn a_created_key_is_registered_and_its_transient_parent_flushed() {
    let begin = CreateEvent::Begin {
        request: request(KeyTemplate::Ecc, Some("k"), Some(KeyId::Stored("p".to_string()))),
        key_exists: false,
    };
    let (state, action) = create_key_step(CreateState::Idle, begin);
    assert!(matches!(action, CreateAction::LoadParent(CreationParent::Key(KeyId::Stored(ref n))) if n == "p"));
    let (state, action) = create_key_step(state, CreateEvent::ParentLoaded { handle: 0x8000_0003, transient: true });
    assert!(matches!(action, CreateAction::Create { parent: Some(0x8000_0003) }));
    let data = CreatedKeyData {
        public: Tpm2bPublic { buffer: vec![0, 0x23] },
        private: Some(Tpm2bPrivate { buffer: vec![7] }),
        name: Tpm2bName { buffer: vec![0, 0x0b, 9] },
    };
    let (_, action) = create_key_step(state, CreateEvent::Created(CreatedKey::Tpm(data)));
    match action {
        CreateAction::SaveMeta { meta: KeyMeta::Tpm { key_name, parent_name, hierarchy, .. }, key_id, auth, flush } => {
            assert!(matches!(key_id, KeyId::Stored(ref n) if n == "k"));
            assert_eq!(auth.buffer, vec![4, 2]);
            assert_eq!(key_name, "k");
            assert_eq!(parent_name.as_deref(), Some("p"));
            assert!(hierarchy.is_none());
            assert_eq!(flush, Some(0x8000_0003));
        }
        _ => panic!("expected the key to be stored"),
    }

    let begin = CreateEvent::Begin { request: request(KeyTemplate::Ecc, None, None), key_exists: false };
    let (state, _) = create_key_step(CreateState::Idle, begin);
    let (state, _) = create_key_step(state, CreateEvent::ParentLoaded { handle: 0x8100_0001, transient: false });
    let data = CreatedKeyData {
        public: Tpm2bPublic { buffer: vec![0, 0x23] },
        private: Some(Tpm2bPrivate { buffer: vec![7] }),
        name: Tpm2bName { buffer: vec![0, 0x0b, 9] },
    };
    let (_, action) = create_key_step(state, CreateEvent::Created(CreatedKey::Tpm(data)));
    match action {
        CreateAction::RegisterTemporary { key, auth, flush } => {
            assert_eq!(auth.buffer, vec![4, 2]);
            assert!(matches!(key.data, KeyData::Ecc(_)));
            assert_eq!(flush, None);
        }
        _ => panic!("expected a temporary key"),
    }
    let _unused: Cache<KeyData> = Cache::new();
}

#[test]
fn a_persistent_key_is_evicted_before_its_row_is_removed() {
    let persistent = KeyMeta::child("c".to_string(), tpm_meta(), Some(TpmiDhPersistent(TpmHandle(0x8100_0005))), None);
    assert!(matches!(delete_plan(&persistent), DeleteAction::EvictThenRemove { persistent: 0x8100_0005 }));
    let transient = KeyMeta::child("c".to_string(), tpm_meta(), None, None);
    assert!(matches!(delete_plan(&transient), DeleteAction::Remove));
}

#[test]
fn bytes_after_a_pcr_read_or_a_create_response_are_invalid_data() {
    let mut bytes = vec![0, 0, 0, 7, 0, 0, 0, 0, 0, 0, 0, 0];
    let parsed = PcrReadResponse::parse(&bytes).unwrap();
    assert_eq!(parsed.pcr_update_counter, 7);
    bytes.push(0);
    assert!(matches!(PcrReadResponse::parse(&bytes), Err(Error::InvalidData)));
}

#[test]
fn a_create_response_with_a_trailing_byte_is_invalid_data() {
    let cd = TpmsCreationData::new(
        TpmlPcrSelection::default(),
        Tpm2bDigest::empty(),
        TpmaLocality(0),
        TpmAlgId(ALG_SHA256),
        Tpm2bName { buffer: vec![1; 34] },
        Tpm2bName { buffer: vec![1; 34] },
        Tpm2bData { buffer: Vec::new() },
    )
    .unwrap();
    let mut creation = Vec::new();
    cd.marshal(&mut creation).unwrap();
    let mut params = vec![0, 1, 0xaa, 0, 2, 0, 1];
    params.extend_from_slice(&(creation.len() as u16).to_be_bytes());
    params.extend_from_slice(&creation);
    params.extend_from_slice(&[0, 0, 0x80, 0x21, 0x40, 0, 0, 1, 0, 0]);
    let whole = CreateResponse { parameters: params.clone(), authorizations: Vec::new() };
    let (private, public, _) = whole.into_parts().unwrap();
    assert_eq!(private.buffer, vec![0xaa]);
    assert_eq!(public.buffer, vec![0, 1]);
    params.push(1);
    let trailing = CreateResponse { parameters: params, authorizations: Vec::new() };
    assert!(matches!(trailing.into_parts(), Err(Error::InvalidData)));
}
