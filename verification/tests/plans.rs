use sha2::Digest;
use tpm2_rs::cache::KeyId;
use tpm2_rs::cap::{TpmlPcrSelection, TpmsPcrSelection};
use tpm2_rs::error::{Error, ErrorSource, TbsError, TBS_E_INSUFFICIENT_BUFFER, TBS_E_TPM_NOT_FOUND};
use tpm2_rs::handle::{TpmHandle, TpmiDhPersistent};
use tpm2_rs::plan::{
    accept_random_chunk, decide_submit, ensure_persistable, next_evict_step, next_persistent_handle, persist_target,
    plan_sessions, random_chunk_size, Authorization, EvictStep, PcrDigest, SessionPlan, SubmitDecision,
};
use tpm2_rs::policy::PolicyData;
use tpm2_rs::rc::{TpmRc, RC_NV_DEFINED};
use tpm2_rs::response::PcrReadResponse;
use tpm2_rs::tpm::{Tpm2bAuth, Tpm2bDigest, TpmiAlgHash, TpmlDigest, ALG_SHA256};
use tpm2_rs::types::TpmaSession;

fn response_bytes(tag: u16, rc: u32, params: &[u8]) -> Vec<u8> {
    let mut v = Vec::new();
    v.extend_from_slice(&tag.to_be_bytes());
    v.extend_from_slice(&((10 + params.len()) as u32).to_be_bytes());
    v.extend_from_slice(&rc.to_be_bytes());
    v.extend_from_slice(params);
    v
}

fn persistent(v: u32) -> TpmiDhPersistent {
    TpmiDhPersistent(TpmHandle(v))
}

#[test]
fn small_buffer_grows_to_the_size_asked() {
    let d = decide_submit(TBS_E_INSUFFICIENT_BUFFER, &[], 8192, 0, 0);
    assert!(matches!(d, SubmitDecision::GrowBuffer(8192)));
}

#[test]
fn failing_tbs_status_is_reported() {
    let d = decide_submit(TBS_E_TPM_NOT_FOUND, &[], 0, 0, 0);
    assert!(matches!(d, SubmitDecision::Failed(Error::Connect(ErrorSource::Tbs(TbsError::TpmNotFound)))));
}

#[test]
fn answered_command_is_finished() {
    let mut bytes = response_bytes(0x8001, 0, &[0, 1, 7]);
    let len = bytes.len() as u32;
    bytes.extend_from_slice(&[0xee; 16]);
    match decide_submit(0, &bytes, len, 0, 0) {
        SubmitDecision::Finished(r) => assert_eq!(r.body.parameters, vec![0, 1, 7]),
        other => panic!("unexpected decision {:?}", other),
    }
}

#[test]
fn busy_tpm_is_retried_three_times() {
    let bytes = response_bytes(0x8001, 0x922, &[]);
    let len = bytes.len() as u32;
    assert!(matches!(decide_submit(0, &bytes, len, 0, 0), SubmitDecision::RetryBusy));
    assert!(matches!(decide_submit(0, &bytes, len, 0, 2), SubmitDecision::RetryBusy));
    assert!(matches!(decide_submit(0, &bytes, len, 0, 3), SubmitDecision::Failed(Error::Busy(_))));
}

#[test]
fn random_chunks_are_bounded() {
    assert_eq!(random_chunk_size(10, 3), 7);
    assert_eq!(random_chunk_size(100_000, 0), 0xffff);
    assert_eq!(random_chunk_size(0x10000, 1), 0xffff);
    let mut bytes = vec![1u8];
    accept_random_chunk(&mut bytes, &Tpm2bDigest { buffer: vec![2, 3] }).unwrap();
    assert_eq!(bytes, vec![1, 2, 3]);
    assert!(matches!(accept_random_chunk(&mut bytes, &Tpm2bDigest { buffer: vec![] }), Err(Error::InvalidData)));
    assert_eq!(bytes, vec![1, 2, 3]);
}

#[test]
fn taken_handles_move_the_search_on() {
    let taken = Error::from_rc(TpmRc(RC_NV_DEFINED));
    match next_evict_step(taken, persistent(0x8100_0002), Some(persistent(0x8100_ffff))) {
        EvictStep::Retry(h) => assert_eq!(h.value(), 0x8100_0003),
        other => panic!("unexpected step {:?}", other),
    }
    let taken = Error::from_rc(TpmRc(RC_NV_DEFINED));
    assert!(matches!(
        next_evict_step(taken, persistent(0x8100_ffff), Some(persistent(0x8100_ffff))),
        EvictStep::Fail(Error::PersistentHandleInUse(0x8100_ffff))
    ));
    let taken = Error::from_rc(TpmRc(RC_NV_DEFINED));
    assert!(matches!(
        next_evict_step(taken, persistent(0x8100_0010), None),
        EvictStep::Fail(Error::PersistentHandleInUse(0x8100_0010))
    ));
    assert!(matches!(
        next_evict_step(Error::InvalidData, persistent(0x8100_0010), Some(persistent(0x8100_ffff))),
        EvictStep::Fail(Error::InvalidData)
    ));
}

#[test]
fn only_stored_keys_are_persisted() {
    assert!(ensure_persistable(&KeyId::Stored("k".to_string())).is_ok());
    assert!(matches!(
        ensure_persistable(&KeyId::Temporary("t".to_string())),
        Err(Error::InvalidKey { context: "temporary key cannot be persisted", source: None })
    ));
}

#[test]
fn persist_targets() {
    let (start, end) = persist_target(Some(0x8100_0042)).unwrap();
    assert_eq!(start.value(), 0x8100_0042);
    assert!(end.is_none());
    assert!(matches!(persist_target(Some(0x8101_0000)), Err(Error::InvalidParameter(_))));
    assert!(matches!(persist_target(Some(0x4000_0001)), Err(Error::InvalidParameter(_))));
    let (start, end) = persist_target(None).unwrap();
    assert_eq!(start.value(), 0x8100_0002);
    assert_eq!(end.unwrap().value(), 0x8100_ffff);
}

#[test]
fn next_handles() {
    assert_eq!(next_persistent_handle(persistent(0x8100_0005)).unwrap().value(), 0x8100_0006);
    assert!(matches!(
        next_persistent_handle(persistent(0x81ff_ffff)),
        Err(Error::ResourceExhausted { context: "no persistent handle is available", source: None })
    ));
}

#[test]
fn sessions_for_each_authorization() {
    assert_eq!(plan_sessions(TpmaSession(0), None), SessionPlan::Hmac { with_auth: false });
    let empty = Authorization { auth: Tpm2bAuth::empty(), policy: None };
    assert_eq!(plan_sessions(TpmaSession(0x01), Some(&empty)), SessionPlan::Password);
    assert_eq!(plan_sessions(TpmaSession(0x20), Some(&empty)), SessionPlan::Hmac { with_auth: true });
    let valued = Authorization { auth: Tpm2bAuth { buffer: b"pw".to_vec() }, policy: None };
    assert_eq!(plan_sessions(TpmaSession(0), Some(&valued)), SessionPlan::Hmac { with_auth: true });
    let policy = Authorization { auth: Tpm2bAuth::empty(), policy: Some(PolicyData::AuthValue) };
    assert_eq!(plan_sessions(TpmaSession(0), Some(&policy)), SessionPlan::Policy { extra_hmac: false });
    assert_eq!(plan_sessions(TpmaSession(0x40), Some(&policy)), SessionPlan::Policy { extra_hmac: true });
}

fn pcr_read(counter: u32, returned: Vec<u8>, values: Vec<Vec<u8>>) -> PcrReadResponse {
    PcrReadResponse {
        pcr_update_counter: counter,
        pcr_selection_out: TpmlPcrSelection {
            items: vec![TpmsPcrSelection::new(TpmiAlgHash(ALG_SHA256), returned).unwrap()],
        },
        pcr_values: TpmlDigest { digests: values.into_iter().map(|buffer| Tpm2bDigest { buffer }).collect() },
    }
}

#[test]
fn pcr_digest_reads_until_done() {
    let selection = TpmsPcrSelection::new(TpmiAlgHash(ALG_SHA256), vec![0x03, 0x00, 0x00]).unwrap();
    let mut work = PcrDigest::new(&selection);
    let first = work.next_read().unwrap().expect("PCRs to read");
    assert_eq!(first.items[0].pcr_select, vec![0x03, 0x00, 0x00]);
    work.absorb(&pcr_read(7, vec![0x01, 0x00, 0x00], vec![vec![0xaa; 32]])).unwrap();
    let second = work.next_read().unwrap().expect("one PCR left");
    assert_eq!(second.items[0].pcr_select, vec![0x02, 0x00, 0x00]);
    work.absorb(&pcr_read(7, vec![0x02, 0x00, 0x00], vec![vec![0xbb; 32]])).unwrap();
    assert!(work.next_read().unwrap().is_none());
    let digest = work.finish().unwrap();
    let mut all = vec![0xaa; 32];
    all.extend_from_slice(&[0xbb; 32]);
    assert_eq!(digest.buffer, sha2::Sha256::digest(&all).to_vec());
}

#[test]
fn pcr_digest_notices_changes() {
    let selection = TpmsPcrSelection::new(TpmiAlgHash(ALG_SHA256), vec![0x03]).unwrap();
    let mut work = PcrDigest::new(&selection);
    work.absorb(&pcr_read(7, vec![0x01], vec![vec![0xaa; 32]])).unwrap();
    assert!(matches!(
        work.absorb(&pcr_read(8, vec![0x02], vec![vec![0xbb; 32]])),
        Err(Error::AuthorizationFailed(ErrorSource::PcrValueChanged))
    ));
    assert!(matches!(work.absorb(&pcr_read(7, vec![0x00], vec![])), Err(Error::Unsupported { .. })));
    let other_bank = PcrReadResponse {
        pcr_update_counter: 7,
        pcr_selection_out: TpmlPcrSelection { items: vec![] },
        pcr_values: TpmlDigest { digests: vec![] },
    };
    assert!(matches!(work.absorb(&other_bank), Err(Error::InvalidData)));
}
