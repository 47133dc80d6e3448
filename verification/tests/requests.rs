use tpm2_rs::cap::{TpmlPcrSelection, TpmsPcrSelection};
use tpm2_rs::command::TpmsAuthCommand;
use tpm2_rs::handle::{TpmHandle, TpmiDhContext, TpmiDhObject, TpmiDhPersistent, TpmiShAuthSession, TpmiShPolicy};
use tpm2_rs::requests::{
    create_command, create_primary_command, get_capability_command, load_command, rsa_encrypt_command, object_session_attrs, start_auth_session_command,
    evict_control_command, flush_context_command, get_random_command, pcr_read_command, policy_command_code_command,
    policy_or_command, policy_pcr_command, read_public_command, retarget_evict_control,
};
use tpm2_rs::session::{CommandResources, SessionFlush, SessionState};
use tpm2_rs::tpm::{
    Tpm2bAuth, Tpm2bDigest, Tpm2bEncryptedSecret, Tpm2bNonce, Tpm2bPrivate, Tpm2bPublic, Tpm2bPublicKeyRsa, TpmCc,
    TpmiAlgHash, TpmlDigest,
    ALG_SHA256,
};
use tpm2_rs::types::{TpmCap, TpmSe, TpmaSession};

fn bytes_of(command: &tpm2_rs::command::Command) -> Vec<u8> {
    let mut buf = Vec::new();
    command.marshal(&mut buf).unwrap();
    buf
}

const SESSION: u32 = 0x0300_0000;

#[test]
fn policy_pcr_command_bytes() {
    let selection = TpmsPcrSelection::new(TpmiAlgHash(ALG_SHA256), vec![0x01, 0x00, 0x00]).unwrap();
    let command = policy_pcr_command(
        TpmiShPolicy(TpmHandle(SESSION)),
        &Tpm2bDigest { buffer: vec![0xaa, 0xbb] },
        &selection,
    )
    .unwrap();
    let mut expected = vec![0x80, 0x01, 0, 0, 0, 28, 0, 0, 0x01, 0x7f, 0x03, 0, 0, 0];
    expected.extend_from_slice(&[0, 2, 0xaa, 0xbb]);
    expected.extend_from_slice(&[0, 0, 0, 1, 0, 0x0b, 3, 1, 0, 0]);
    assert_eq!(bytes_of(&command), expected);
}

#[test]
fn policy_command_code_and_or() {
    let command = policy_command_code_command(TpmiShPolicy(TpmHandle(SESSION)), TpmCc(0x0153));
    assert_eq!(command.parameters(), &[0, 0, 0x01, 0x53]);
    assert_eq!(command.handles(), &[TpmHandle(SESSION)]);
    let list = TpmlDigest { digests: vec![Tpm2bDigest { buffer: vec![1; 32] }, Tpm2bDigest { buffer: vec![2; 32] }] };
    let or = policy_or_command(TpmiShPolicy(TpmHandle(SESSION)), &list).unwrap();
    assert_eq!(or.parameters().len(), 4 + 2 * 34);
    assert_eq!(&or.parameters()[..4], &[0, 0, 0, 2]);
    let too_long = TpmlDigest { digests: vec![Tpm2bDigest { buffer: vec![1; 65] }] };
    assert!(policy_or_command(TpmiShPolicy(TpmHandle(SESSION)), &too_long).is_err());
}

#[test]
fn reads_and_flushes() {
    let selection = TpmlPcrSelection {
        items: vec![TpmsPcrSelection::new(TpmiAlgHash(ALG_SHA256), vec![0x80, 0, 0]).unwrap()],
    };
    let read = pcr_read_command(&selection).unwrap();
    assert!(read.handles().is_empty());
    assert_eq!(read.parameters(), &[0, 0, 0, 1, 0, 0x0b, 3, 0x80, 0, 0]);
    let public = read_public_command(TpmiDhObject(TpmHandle(0x8000_0001)));
    assert_eq!(public.handles(), &[TpmHandle(0x8000_0001)]);
    assert!(public.parameters().is_empty());
    let flush = flush_context_command(TpmiDhContext(TpmHandle(0x8000_0002)));
    assert_eq!(bytes_of(&flush), vec![0x80, 0x01, 0, 0, 0, 14, 0, 0, 0x01, 0x65, 0x80, 0, 0, 2]);
}

#[test]
fn random_and_evict_commands_carry_sessions() {
    let auth = vec![TpmsAuthCommand::password(TpmaSession(0))];
    let random = get_random_command(16, auth);
    assert_eq!(random.parameters(), &[0, 16]);
    assert_eq!(random.authorization_area().len(), 1);
    assert_eq!(bytes_of(&random)[..2], [0x80, 0x02]);
    let unauthorized = get_random_command(8, Vec::new());
    assert_eq!(bytes_of(&unauthorized)[..2], [0x80, 0x01]);

    let auth = vec![TpmsAuthCommand::password(TpmaSession(0))];
    let mut evict = evict_control_command(
        TpmiDhObject(TpmHandle(0x8000_0003)),
        TpmiDhPersistent(TpmHandle(0x8100_0002)),
        auth,
    );
    assert_eq!(evict.handles(), &[TpmHandle(0x4000_0001), TpmHandle(0x8000_0003)]);
    assert_eq!(evict.parameters(), &[0x81, 0, 0, 2]);
    retarget_evict_control(&mut evict, TpmiDhPersistent(TpmHandle(0x8100_0003)));
    assert_eq!(evict.parameters(), &[0x81, 0, 0, 3]);
}

#[test]
fn flush_decisions() {
    let mut resources = CommandResources::default();
    resources.add_session_handle(TpmiShAuthSession(TpmHandle(0x4000_0009))).unwrap();
    resources.add_session_handle(TpmiShAuthSession(TpmHandle(0x0200_0001))).unwrap();
    assert!(matches!(resources.session_flush(0), SessionFlush::Forget));
    assert!(matches!(resources.session_flush(1), SessionFlush::Flush(c) if c.0 == TpmHandle(0x0200_0001)));
    assert!(matches!(resources.session_flush(2), SessionFlush::Free));
    resources.forget_session_handle(1);
    assert!(matches!(resources.session_flush(1), SessionFlush::Free));

    resources.add_transient_handle(TpmiDhObject(TpmHandle(0x8000_0001)));
    resources.add_transient_handle(TpmiDhObject(TpmHandle(0x8100_0001)));
    assert_eq!(resources.transient_flush(0).unwrap().unwrap().0, TpmHandle(0x8000_0001));
    assert!(resources.transient_flush(1).is_err());
    assert_eq!(resources.transient_index(TpmiDhObject(TpmHandle(0x8100_0001))), Some(1));
    resources.mark_transient_flushed(0);
    assert!(resources.transient_flush(0).unwrap().is_none());
    assert_eq!(resources.transient_index(TpmiDhObject(TpmHandle(0x8000_0009))), None);
}

#[test]
fn start_auth_session_command_bytes() {
    let command = start_auth_session_command(
        None,
        &Tpm2bNonce { buffer: vec![1, 2] },
        &Tpm2bEncryptedSecret { buffer: vec![] },
        TpmSe::Hmac,
    )
    .unwrap();
    let mut expected = vec![0x80, 0x01, 0, 0, 0, 33, 0, 0, 0x01, 0x76, 0x40, 0, 0, 7, 0x40, 0, 0, 7];
    expected.extend_from_slice(&[0, 2, 1, 2, 0, 0, 0x00, 0, 6, 0, 0x80, 0, 0x43, 0, 0x0b]);
    assert_eq!(bytes_of(&command), expected);
    let salted = start_auth_session_command(
        Some(TpmHandle(0x8100_0001)),
        &Tpm2bNonce { buffer: vec![] },
        &Tpm2bEncryptedSecret { buffer: vec![9; 4] },
        TpmSe::Policy,
    )
    .unwrap();
    assert_eq!(salted.handles(), &[TpmHandle(0x8100_0001), TpmHandle(0x4000_0007)]);
    assert_eq!(salted.parameters()[..8], [0, 0, 0, 4, 9, 9, 9, 9]);
    assert_eq!(salted.parameters()[8], 0x01);
}

#[test]
fn hmac_session_state_binds_the_auth_value() {
    let bound = SessionState::hmac(vec![1, 2], Some(&Tpm2bAuth { buffer: vec![3] }), Tpm2bNonce { buffer: vec![9] });
    assert_eq!(bound.session_value, vec![1, 2, 3]);
    assert!(bound.uses_hmac);
    let unbound = SessionState::hmac(vec![1, 2], None, Tpm2bNonce { buffer: vec![9] });
    assert_eq!(unbound.session_value, vec![1, 2]);
    assert_eq!(unbound.nonce_tpm.buffer, vec![9]);
}

#[test]
fn object_commands() {
    assert_eq!(object_session_attrs(false, true).0, 0);
    assert_eq!(object_session_attrs(true, false).0, 0x60);
    assert_eq!(object_session_attrs(true, true).0, 0x61);

    let load = load_command(
        TpmHandle(0x8100_0001),
        &Tpm2bPrivate { buffer: vec![1, 2] },
        &Tpm2bPublic { buffer: vec![3] },
        vec![TpmsAuthCommand::password(TpmaSession(0))],
    )
    .unwrap();
    assert_eq!(load.parameters(), &[0, 2, 1, 2, 0, 1, 3]);
    assert_eq!(load.handles(), &[TpmHandle(0x8100_0001)]);
    assert_eq!(bytes_of(&load)[6..10], [0, 0, 0x01, 0x57]);

    let create = create_command(TpmHandle(0x8000_0000), vec![9, 9], Vec::new());
    assert_eq!(bytes_of(&create), vec![0x80, 0x01, 0, 0, 0, 16, 0, 0, 0x01, 0x53, 0x80, 0, 0, 0, 9, 9]);
    let primary = create_primary_command(TpmHandle(0x4000_0001), vec![7], Vec::new());
    assert_eq!(bytes_of(&primary)[6..], [0, 0, 0x01, 0x31, 0x40, 0, 0, 1, 7]);
}

#[test]
fn capability_and_encryption_commands() {
    let cap = get_capability_command(TpmCap::TpmProperties, 0x100, 8);
    assert_eq!(
        bytes_of(&cap),
        vec![0x80, 0x01, 0, 0, 0, 22, 0, 0, 0x01, 0x7a, 0, 0, 0, 6, 0, 0, 1, 0, 0, 0, 0, 8]
    );
    let enc = rsa_encrypt_command(
        TpmHandle(0x8000_0004),
        &Tpm2bPublicKeyRsa { buffer: vec![5, 6] },
        vec![TpmsAuthCommand::password(TpmaSession(0x20))],
    )
    .unwrap();
    assert_eq!(enc.parameters(), &[0, 2, 5, 6, 0, 0x17, 0, 0x0b, 0, 0]);
    assert_eq!(enc.handles(), &[TpmHandle(0x8000_0004)]);
    assert!(rsa_encrypt_command(TpmHandle(0x8000_0004), &Tpm2bPublicKeyRsa { buffer: vec![0; 70000] }, Vec::new()).is_err());
}
