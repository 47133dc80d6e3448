use rsa::traits::PublicKeyParts;
use hmac::Mac;
use sha2::Digest;
use tpm2_rs::command::{Command, TpmsAuthCommand};
use tpm2_rs::crypto::{
    aes_128_cfb_decrypt, aes_128_cfb_encrypt, build_rsa_public_key, compute_cp_hash, compute_hmac, compute_obj_name, decrypt_parameter,
    derive_cfb_key_and_iv, derive_session_key, encrypt_parameter, generate_caller_nonce, validate_obj_name,
    verify_response_hmac, CpHashData,
};
use tpm2_rs::error::Error;
use tpm2_rs::handle::TpmiShAuthSession;
use tpm2_rs::response::TpmsAuthResponse;
use tpm2_rs::session::{
    ensure_matching_auth_count, needs_handle_names, policy_session_attrs_from_hmac, prepare_command_authorization_area,
    prepare_reused_sessions, process_response_authorization_area, CommandResources, SessionState,
};
use tpm2_rs::tpm::{Tpm2bAuth, Tpm2bNonce, Tpm2bPublicKeyRsa, TpmCc, CC_GET_RANDOM};
use tpm2_rs::types::TpmaSession;

type HmacSha256 = hmac::Hmac<sha2::Sha256>;

fn hmac(key: &[u8], data: &[u8]) -> Vec<u8> {
    let mut mac = <HmacSha256 as Mac>::new_from_slice(key).unwrap();
    mac.update(data);
    mac.finalize().into_bytes().to_vec()
}

fn hex(s: &str) -> Vec<u8> {
    (0..s.len()).step_by(2).map(|i| u8::from_str_radix(&s[i..i + 2], 16).unwrap()).collect()
}

#[test]
fn aes_cfb_matches_the_standard_vector() {
    let key = hex("2b7e151628aed2a6abf7158809cf4f3c");
    let iv = hex("000102030405060708090a0b0c0d0e0f");
    let mut data = hex("6bc1bee22e409f96e93d7e117393172aae2d8a571e03ac9c9eb76fac45af8e51");
    aes_128_cfb_encrypt(&key, &iv, &mut data).unwrap();
    assert_eq!(data, hex("3b3fd92eb72dad20333449f8e83cfb4ac8a64537a0b3a93fcde3cdad9f1ce58b"));
    aes_128_cfb_decrypt(&key, &iv, &mut data).unwrap();
    assert_eq!(data, hex("6bc1bee22e409f96e93d7e117393172aae2d8a571e03ac9c9eb76fac45af8e51"));
}

#[test]
fn aes_cfb_round_trips_partial_blocks() {
    let key = [7u8; 16];
    let iv = [9u8; 16];
    let original: Vec<u8> = (0u8..37).collect();
    let mut data = original.clone();
    aes_128_cfb_encrypt(&key, &iv, &mut data).unwrap();
    assert_ne!(data, original);
    aes_128_cfb_decrypt(&key, &iv, &mut data).unwrap();
    assert_eq!(data, original);
}

#[test]
fn aes_cfb_refuses_bad_lengths() {
    let mut data = vec![1u8, 2, 3];
    assert!(matches!(aes_128_cfb_encrypt(&[0u8; 15], &[0u8; 16], &mut data), Err(Error::Internal)));
    assert!(matches!(aes_128_cfb_decrypt(&[0u8; 16], &[0u8; 17], &mut data), Err(Error::Internal)));
    assert_eq!(data, vec![1, 2, 3]);
}

#[test]
fn parameter_encryption_round_trips() {
    let session_value = b"session value".to_vec();
    let mut parameter = b"a secret parameter".to_vec();
    encrypt_parameter(&session_value, b"newer", b"older", &mut parameter).unwrap();
    assert_ne!(parameter, b"a secret parameter".to_vec());
    decrypt_parameter(&session_value, b"newer", b"older", &mut parameter).unwrap();
    assert_eq!(parameter, b"a secret parameter".to_vec());
}

#[test]
fn key_derivations_follow_kdfa() {
    let mut message = Vec::new();
    message.extend_from_slice(&1u32.to_be_bytes());
    message.extend_from_slice(b"CFB\0");
    message.extend_from_slice(b"nn");
    message.extend_from_slice(b"oo");
    message.extend_from_slice(&256u32.to_be_bytes());
    assert_eq!(derive_cfb_key_and_iv(b"key", b"nn", b"oo").unwrap(), hmac(b"key", &message));

    let mut message = Vec::new();
    message.extend_from_slice(&1u32.to_be_bytes());
    message.extend_from_slice(b"ATH\0");
    message.extend_from_slice(b"tpm");
    message.extend_from_slice(b"caller");
    message.extend_from_slice(&256u32.to_be_bytes());
    assert_eq!(derive_session_key(b"salt", b"tpm", b"caller").unwrap(), hmac(b"salt", &message));
}

#[test]
fn cp_hash_and_command_hmac() {
    let names = vec![vec![0x40u8, 0, 0, 1], vec![0, 0x0b, 1, 2]];
    let data = CpHashData { command_code: TpmCc(CC_GET_RANDOM), handle_names: &names, parameters: &[0, 8] };
    let mut message = Vec::new();
    message.extend_from_slice(&CC_GET_RANDOM.to_be_bytes());
    message.extend_from_slice(&names[0]);
    message.extend_from_slice(&names[1]);
    message.extend_from_slice(&[0, 8]);
    let cp_hash = sha2::Sha256::digest(&message).to_vec();
    assert_eq!(compute_cp_hash(&data), cp_hash);

    let auth = compute_hmac(b"value", &data, b"caller", b"tpm", TpmaSession(0x21)).unwrap();
    let mut signed = cp_hash.clone();
    signed.extend_from_slice(b"caller");
    signed.extend_from_slice(b"tpm");
    signed.push(0x21);
    assert_eq!(auth.buffer, hmac(b"value", &signed));
}

fn response_auth(session_value: &[u8], cc: u32, params: &[u8], nonce_tpm: &[u8], nonce_caller: &[u8], attrs: u8) -> TpmsAuthResponse {
    let mut message = Vec::new();
    message.extend_from_slice(&0u32.to_be_bytes());
    message.extend_from_slice(&cc.to_be_bytes());
    message.extend_from_slice(params);
    let rp_hash = sha2::Sha256::digest(&message).to_vec();
    let mut signed = rp_hash;
    signed.extend_from_slice(nonce_tpm);
    signed.extend_from_slice(nonce_caller);
    signed.push(attrs);
    TpmsAuthResponse {
        nonce: Tpm2bNonce { buffer: nonce_tpm.to_vec() },
        session_attributes: TpmaSession(attrs),
        hmac: Tpm2bAuth { buffer: hmac(session_value, &signed) },
    }
}

#[test]
fn response_hmac_is_checked() {
    let good = response_auth(b"value", CC_GET_RANDOM, &[1, 2], b"tpm", b"caller", 1);
    assert!(verify_response_hmac(b"value", TpmCc(CC_GET_RANDOM), &[1, 2], b"caller", &good).is_ok());
    assert!(matches!(
        verify_response_hmac(b"other", TpmCc(CC_GET_RANDOM), &[1, 2], b"caller", &good),
        Err(Error::InvalidData)
    ));
}

#[test]
fn object_names() {
    let public = vec![0u8, 1, 0, 0x0b, 9, 9];
    let name = compute_obj_name(&public).unwrap();
    let mut expected = vec![0u8, 0x0b];
    expected.extend_from_slice(&sha2::Sha256::digest(&public));
    assert_eq!(name.buffer, expected);
    assert!(matches!(compute_obj_name(&[0, 1, 0]), Err(Error::InvalidData)));
    assert!(validate_obj_name(&[1, 2], &[1, 2]).is_ok());
    assert!(matches!(validate_obj_name(&[1, 2], &[1, 3]), Err(Error::CorruptedStore)));
}

#[test]
fn caller_nonces_are_fresh() {
    let a = generate_caller_nonce().unwrap();
    let b = generate_caller_nonce().unwrap();
    assert_eq!(a.buffer.len(), 32);
    assert_ne!(a.buffer, b.buffer);
}

fn hmac_session() -> TpmiShAuthSession {
    TpmiShAuthSession::try_from(tpm2_rs::handle::TpmHandle(0x0200_0000)).unwrap()
}

#[test]
fn resources_track_sessions() {
    let mut resources = CommandResources::default();
    let handle = hmac_session();
    resources.add_session_handle(handle).unwrap();
    resources
        .add_session_state(SessionState { session_value: vec![1], nonce_tpm: Tpm2bNonce { buffer: vec![2] }, uses_hmac: true })
        .unwrap();
    assert_eq!(resources.session_state_idx(handle).unwrap(), 0);
    assert_eq!(resources.get_session_state(handle).unwrap().session_value, vec![1]);
    assert!(resources.find_hmac_session().is_some());
    resources.update_session_nonce(handle, Tpm2bNonce { buffer: vec![3] }).unwrap();
    assert_eq!(resources.get_session_state(handle).unwrap().nonce_tpm.buffer, vec![3]);
    resources.clear_session(handle);
    assert!(matches!(resources.get_session_state(handle), Err(Error::Internal)));
    for _ in 0..3 {
        resources.add_session_handle(handle).unwrap();
    }
    assert!(matches!(resources.add_session_handle(handle), Err(Error::Internal)));
    resources.clear_sessions();
    assert!(resources.find_hmac_session().is_none());
}

#[test]
fn commands_are_signed_and_responses_checked() {
    let handle = hmac_session();
    let mut resources = CommandResources::default();
    resources.add_session_handle(handle).unwrap();
    resources
        .add_session_state(SessionState {
            session_value: b"value".to_vec(),
            nonce_tpm: Tpm2bNonce { buffer: b"tpm".to_vec() },
            uses_hmac: true,
        })
        .unwrap();
    let auth = TpmsAuthCommand::new(handle, Tpm2bNonce { buffer: b"caller".to_vec() }, TpmaSession(0x01), Tpm2bAuth::empty());
    let mut command = Command::new(TpmCc(CC_GET_RANDOM)).with_authorization_area(vec![auth]).with_parameters(vec![0, 8]);
    assert!(needs_handle_names(&command, &resources));
    prepare_command_authorization_area(&mut command, &resources, &[]).unwrap();
    let names: Vec<Vec<u8>> = Vec::new();
    let data = CpHashData { command_code: TpmCc(CC_GET_RANDOM), handle_names: &names, parameters: &[0, 8] };
    let expected = compute_hmac(b"value", &data, b"caller", b"tpm", TpmaSession(0x01)).unwrap();
    assert_eq!(command.authorization_area()[0].hmac().buffer, expected.buffer);

    let mut params = vec![0u8, 1, 5];
    let response = response_auth(b"value", CC_GET_RANDOM, &params, b"tpm2", b"caller", 0x01);
    process_response_authorization_area(
        TpmCc(CC_GET_RANDOM),
        command.authorization_area(),
        std::slice::from_ref(&response),
        &mut params,
        &mut resources,
    )
    .unwrap();
    assert_eq!(resources.get_session_state(handle).unwrap().nonce_tpm.buffer, b"tpm2".to_vec());

    let bad = response_auth(b"wrong", CC_GET_RANDOM, &params, b"tpm3", b"caller", 0x00);
    assert!(matches!(
        process_response_authorization_area(
            TpmCc(CC_GET_RANDOM),
            command.authorization_area(),
            std::slice::from_ref(&bad),
            &mut params,
            &mut resources,
        ),
        Err(Error::InvalidData)
    ));
    assert!(matches!(ensure_matching_auth_count(command.authorization_area(), &[]), Err(Error::InvalidData)));
}

#[test]
fn ended_sessions_are_cleared() {
    let handle = hmac_session();
    let mut resources = CommandResources::default();
    resources.add_session_handle(handle).unwrap();
    resources
        .add_session_state(SessionState { session_value: Vec::new(), nonce_tpm: Tpm2bNonce::empty(), uses_hmac: false })
        .unwrap();
    let auth = TpmsAuthCommand::new(handle, Tpm2bNonce::empty(), TpmaSession(0), Tpm2bAuth::empty());
    let response = TpmsAuthResponse { nonce: Tpm2bNonce::empty(), session_attributes: TpmaSession(0), hmac: Tpm2bAuth::empty() };
    let mut params = Vec::new();
    process_response_authorization_area(TpmCc(CC_GET_RANDOM), &[auth], &[response], &mut params, &mut resources).unwrap();
    assert!(resources.get_session_state(handle).is_err());
}

#[test]
fn reused_sessions_get_fresh_nonces() {
    let handle = hmac_session();
    let mut resources = CommandResources::default();
    resources.add_session_handle(handle).unwrap();
    resources
        .add_session_state(SessionState { session_value: Vec::new(), nonce_tpm: Tpm2bNonce::empty(), uses_hmac: true })
        .unwrap();
    let auths = vec![
        TpmsAuthCommand::password(TpmaSession(0)),
        TpmsAuthCommand::new(handle, Tpm2bNonce { buffer: vec![1] }, TpmaSession(0), Tpm2bAuth { buffer: vec![2] }),
    ];
    let reused = prepare_reused_sessions(&resources, &auths, TpmaSession(0x41)).unwrap();
    assert_eq!(reused.len(), 2);
    assert_eq!(reused[1].nonce().buffer.len(), 32);
    assert!(reused[1].hmac().buffer.is_empty());
    assert_eq!(reused[1].session_attributes().0, 0x41);
    assert_eq!(policy_session_attrs_from_hmac(TpmaSession(0x41)).0, 0x01);
    assert_eq!(policy_session_attrs_from_hmac(TpmaSession(0x40)).0, 0x00);
}

#[test]
fn rsa_public_key_needs_an_odd_modulus_above_the_exponent() {
    let odd = Tpm2bPublicKeyRsa { buffer: vec![0xff, 0xff, 0xff] };
    assert!(build_rsa_public_key(&odd).is_ok());
    let mut large = vec![0xffu8; 256];
    large[255] = 0xf1;
    assert!(build_rsa_public_key(&Tpm2bPublicKeyRsa { buffer: large }).is_ok());
    let even = Tpm2bPublicKeyRsa { buffer: vec![0xff, 0xfe] };
    assert!(matches!(build_rsa_public_key(&even), Err(Error::Internal)));
    let equal_to_exponent = Tpm2bPublicKeyRsa { buffer: vec![0x01, 0x00, 0x01] };
    assert!(matches!(build_rsa_public_key(&equal_to_exponent), Err(Error::Internal)));
    let too_long = Tpm2bPublicKeyRsa { buffer: vec![0xff; 513] };
    assert!(matches!(build_rsa_public_key(&too_long), Err(Error::Internal)));
    assert!(matches!(build_rsa_public_key(&Tpm2bPublicKeyRsa { buffer: Vec::new() }), Err(Error::Internal)));
}

#[test]
fn the_salt_is_encrypted_with_oaep_under_the_secret_label() {
    let private = rsa::RsaPrivateKey::new(&mut rand::rngs::OsRng, 1024).expect("key");
    let modulus = Tpm2bPublicKeyRsa { buffer: private.n().to_bytes_be() };
    let (secret, salt) = tpm2_rs::crypto::generate_encrypted_salt(&modulus).expect("salt");
    assert_eq!(salt.len(), 32);
    assert_eq!(secret.buffer.len(), 128);
    let padding = rsa::Oaep::new_with_label::<sha2::Sha256, _>("SECRET\0");
    assert_eq!(private.decrypt(padding, &secret.buffer).expect("decrypts"), salt);
    let even = Tpm2bPublicKeyRsa { buffer: vec![0xff, 0xfe] };
    assert!(matches!(tpm2_rs::crypto::generate_encrypted_salt(&even), Err(Error::Internal)));
}
