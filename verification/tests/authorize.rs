use sha2::Digest;
use tpm2_rs::authorize::{
    pcr_selection_to_tpms, policy_auth_kind, policy_session_secrets, policy_steps, PolicyAuthKind, PolicyStep,
};
use tpm2_rs::cache::{Cache, KeyId};
use tpm2_rs::created::KeyData;
use tpm2_rs::error::Error;
use tpm2_rs::hierarchy::Hierarchy;
use tpm2_rs::keys::select_hierarchy_policy;
use tpm2_rs::policy::{HashAlgorithm, PcrSelection, PcrSlot, PolicyBranchData, PolicyCommand, PolicyData};
use tpm2_rs::tpm::{Tpm2bAuth, Tpm2bDigest, TpmlDigest};

fn digests() -> TpmlDigest {
    let mut list = TpmlDigest::default();
    list.digests.push(Tpm2bDigest { buffer: vec![1; 32] });
    list.digests.push(Tpm2bDigest { buffer: vec![2; 32] });
    list
}

fn or_policy(selected: Option<&str>) -> PolicyData {
    PolicyData::Or {
        branches: vec![
            PolicyBranchData { label: "pin".to_string(), policy: PolicyData::AuthValue },
            PolicyBranchData {
                label: "boot".to_string(),
                policy: PolicyData::Sequence(vec![
                    PolicyData::Pcr(PcrSelection::new(HashAlgorithm::Sha256, &[PcrSlot::Slot0, PcrSlot::Slot7, PcrSlot::Slot9]).unwrap()),
                    PolicyData::Password,
                ]),
            },
        ],
        branch_digests: digests(),
        selected_label: selected.map(str::to_string),
    }
}

#[test]
fn a_pcr_selection_becomes_a_three_byte_bitmap() {
    let sel = PcrSelection::new(HashAlgorithm::Sha256, &[PcrSlot::Slot0, PcrSlot::Slot7, PcrSlot::Slot9, PcrSlot::Slot23]).unwrap();
    let tpms = pcr_selection_to_tpms(&sel);
    assert_eq!(tpms.hash.0, 0x000b);
    assert_eq!(tpms.pcr_select, vec![0x81, 0x02, 0x80]);
}

#[test]
fn a_policy_becomes_its_commands_in_order() {
    let policy = PolicyData::Sequence(vec![
        PolicyData::Command(PolicyCommand::Sign),
        or_policy(Some("boot")),
        PolicyData::AuthValue,
    ]);
    let steps = policy_steps(&policy).unwrap();
    assert_eq!(steps.len(), 5);
    assert!(matches!(steps[0], PolicyStep::CommandCode(PolicyCommand::Sign)));
    assert!(matches!(&steps[1], PolicyStep::Pcr(s) if s.pcr_select == vec![0x81, 0x02, 0x00]));
    assert!(matches!(steps[2], PolicyStep::Password));
    assert!(matches!(&steps[3], PolicyStep::Or(d) if d.digests.len() == 2));
    assert!(matches!(steps[4], PolicyStep::AuthValue));
    assert_eq!(policy_auth_kind(&steps), Some(PolicyAuthKind::Password));
}

#[test]
fn an_or_needs_a_selected_existing_branch() {
    assert!(matches!(policy_steps(&or_policy(None)), Err(Error::InvalidPolicy("policy branch was not selected"))));
    assert!(matches!(
        policy_steps(&or_policy(Some("other"))),
        Err(Error::InvalidPolicy("selected policy branch does not exist"))
    ));
    let steps = policy_steps(&or_policy(Some("pin"))).unwrap();
    assert!(matches!(steps[0], PolicyStep::AuthValue));
    assert_eq!(policy_auth_kind(&steps), Some(PolicyAuthKind::AuthValue));
}

#[test]
fn a_sequence_inside_a_sequence_is_refused() {
    let nested = PolicyData::Sequence(vec![PolicyData::Sequence(vec![PolicyData::AuthValue])]);
    assert!(matches!(policy_steps(&nested), Err(Error::Internal)));
}

#[test]
fn policy_session_secrets_follow_how_the_value_is_asked_for() {
    let auth = Tpm2bAuth { buffer: vec![9, 9] };
    let (value, signs, hmac) = policy_session_secrets(Some(PolicyAuthKind::AuthValue), vec![1], &auth);
    assert_eq!((value, signs, hmac.buffer), (vec![1, 9, 9], true, Vec::new()));
    let (value, signs, hmac) = policy_session_secrets(Some(PolicyAuthKind::Password), vec![1], &auth);
    assert_eq!((value, signs, hmac.buffer), (vec![1], false, vec![9, 9]));
    let (value, signs, hmac) = policy_session_secrets(None, vec![1], &auth);
    assert_eq!((value, signs, hmac.buffer), (Vec::new(), false, Vec::new()));
}

#[test]
fn long_authorization_values_are_hashed() {
    assert_eq!(Tpm2bAuth::normalize_sha256(b"short").buffer, b"short".to_vec());
    let long = [7u8; 40];
    assert_eq!(Tpm2bAuth::normalize_sha256(&long).buffer, sha2::Sha256::digest(long).to_vec());
    assert_eq!(Tpm2bAuth::normalize_sha256(&[3u8; 32]).buffer, vec![3u8; 32]);
}

#[test]
fn a_repeated_label_is_kept_once() {
    let mut cache: Cache<KeyData> = Cache::new();
    let key = KeyId::Stored("k".to_string());
    cache.set_key_policy_branche(key.clone(), "a");
    cache.set_key_policy_branche(key.clone(), "b");
    cache.set_key_policy_branche(key.clone(), "a");
    let labels = cache.key_policy_branches(key).unwrap();
    assert_eq!(labels.len(), 2);
    assert!(labels.contains(&"a".to_string()) && labels.contains(&"b".to_string()));
}

#[test]
fn a_hierarchy_policy_takes_its_selected_branch() {
    let mut cache: Cache<KeyData> = Cache::new();
    assert!(matches!(
        select_hierarchy_policy(&cache, Hierarchy::Storage, &Some(or_policy(None))),
        Err(Error::InvalidPolicy(_))
    ));
    cache.set_hierarchy_policy_branche(Hierarchy::Storage, "pin");
    match select_hierarchy_policy(&cache, Hierarchy::Storage, &Some(or_policy(None))) {
        Ok(Some(PolicyData::Or { selected_label: Some(label), .. })) => assert_eq!(label, "pin"),
        other => panic!("unexpected policy {:?}", other),
    }
    assert!(matches!(select_hierarchy_policy(&cache, Hierarchy::Storage, &None), Ok(None)));
}
