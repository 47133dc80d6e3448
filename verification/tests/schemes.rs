use tpm2_rs::cap::TpmlPcrSelection;
use tpm2_rs::creation::TpmsCreationData;
use tpm2_rs::error::Error;
use tpm2_rs::scheme::{TpmtRsaDecrypt, TpmuEncryptedSecret, TpmuRsaScheme};
use tpm2_rs::tpm::{Tpm2bData, Tpm2bDigest, Tpm2bName, TpmAlgId, ALG_NULL, ALG_SHA256};
use tpm2_rs::types::TpmaLocality;

#[test]
fn oaep_scheme_bytes() {
    let scheme = TpmtRsaDecrypt::oaep();
    let mut buf = vec![0xff];
    scheme.marshal(&mut buf);
    assert_eq!(buf, vec![0xff, 0x00, 0x17, 0x00, 0x0b]);
    let (alg, details) = scheme.parts();
    assert_eq!(alg.0 .0, 0x0017);
    assert!(matches!(details, TpmuRsaScheme::Oaep(h) if h.hash_alg.0 == ALG_SHA256));
}

#[test]
fn encrypted_secret_is_bounded() {
    let secret = TpmuEncryptedSecret::rsa(vec![7; 512]).unwrap();
    assert_eq!(secret.value().len(), 512);
    assert!(matches!(TpmuEncryptedSecret::rsa(vec![7; 513]), Err(Error::Internal)));
}

fn names(len: usize) -> Tpm2bName {
    Tpm2bName { buffer: vec![1; len] }
}

#[test]
fn creation_data_is_checked() {
    let ok = TpmsCreationData::new(
        TpmlPcrSelection::default(),
        Tpm2bDigest::empty(),
        TpmaLocality(0),
        TpmAlgId(ALG_NULL),
        names(4),
        names(4),
        Tpm2bData::empty(),
    );
    assert!(ok.is_ok());
    let sha = TpmsCreationData::new(
        TpmlPcrSelection::default(),
        Tpm2bDigest::empty(),
        TpmaLocality(0),
        TpmAlgId(ALG_SHA256),
        names(34),
        names(34),
        Tpm2bData::empty(),
    );
    assert!(sha.is_ok());
    let wrong_size = TpmsCreationData::new(
        TpmlPcrSelection::default(),
        Tpm2bDigest::empty(),
        TpmaLocality(0),
        TpmAlgId(ALG_SHA256),
        names(4),
        names(34),
        Tpm2bData::empty(),
    );
    assert!(matches!(wrong_size, Err(Error::InvalidParameter(_))));
    let digest_without_pcrs = TpmsCreationData::new(
        TpmlPcrSelection::default(),
        Tpm2bDigest { buffer: vec![1; 32] },
        TpmaLocality(0),
        TpmAlgId(ALG_NULL),
        names(4),
        names(4),
        Tpm2bData::empty(),
    );
    assert!(matches!(digest_without_pcrs, Err(Error::InvalidParameter(_))));
}

#[test]
fn creation_data_round_trips() {
    let cd = TpmsCreationData::new(
        TpmlPcrSelection::default(),
        Tpm2bDigest::empty(),
        TpmaLocality(3),
        TpmAlgId(ALG_SHA256),
        names(34),
        names(34),
        Tpm2bData { buffer: vec![9, 9] },
    )
    .unwrap();
    let mut buf = Vec::new();
    cd.marshal(&mut buf).unwrap();
    let mut input: &[u8] = &buf;
    let back = TpmsCreationData::unmarshal(&mut input).unwrap();
    assert!(input.is_empty());
    assert_eq!(back.locality().0, 3);
    assert_eq!(back.parent_name().buffer, vec![1; 34]);
    assert_eq!(back.outside_info().buffer, vec![9, 9]);
}

#[test]
fn key_ids_are_url_safe_and_fresh() {
    let a = tpm2_rs::crypto::generate_key_id().unwrap();
    let b = tpm2_rs::crypto::generate_key_id().unwrap();
    assert_eq!(a.len(), 22);
    assert!(a.chars().all(|c| c.is_ascii_alphanumeric() || c == '-' || c == '_'));
    assert_ne!(a, b);
}
