use tpm2_rs::error::{Error, ErrorSource, TbsError};
use tpm2_rs::header::{CommandHeader, TpmiStCommandTag, TPM_HEADER_SIZE};
use tpm2_rs::rc::{TpmError, TpmRc, RC_AUTH_FAIL, RC_COMMAND_CODE, RC_RETRY, RC_FMT1};
use tpm2_rs::tpm::{Tpm2bDigest, TpmCc, CC_GET_RANDOM};
use tpm2_rs::wire::{marshal_tpm2b, read_tpm2b, read_tpm2b_exact, read_u16, read_u32, tpm2b_buffer_mut, tpm2b_payload_mut};

#[test]
fn reads_big_endian_integers() {
    let bytes = [0x12u8, 0x34, 0x56, 0x78, 0x9a, 0xbc];
    let mut input: &[u8] = &bytes;
    assert_eq!(read_u16(&mut input).unwrap(), 0x1234);
    assert_eq!(read_u32(&mut input).unwrap(), 0x5678_9abc);
    assert!(input.is_empty());
    assert!(matches!(read_u16(&mut input), Err(Error::InvalidData)));
}

#[test]
fn tpm2b_round_trip() {
    let mut buf = Vec::new();
    marshal_tpm2b(&mut buf, &[1, 2, 3]).unwrap();
    assert_eq!(buf, vec![0, 3, 1, 2, 3]);
    let mut input: &[u8] = &buf;
    assert_eq!(read_tpm2b(&mut input).unwrap(), vec![1, 2, 3]);
    assert_eq!(read_tpm2b_exact(&buf).unwrap(), vec![1, 2, 3]);
    assert!(matches!(read_tpm2b_exact(&[0, 3, 1, 2]), Err(Error::InvalidData)));
    assert!(matches!(read_tpm2b_exact(&[0, 1, 1, 2]), Err(Error::InvalidData)));
}

#[test]
fn tpm2b_too_long_is_refused() {
    let mut buf = Vec::new();
    let long = vec![0u8; 0x10000];
    assert!(matches!(marshal_tpm2b(&mut buf, &long), Err(Error::Internal)));
    assert!(buf.is_empty());
}

#[test]
fn tpm2b_payload_is_found_in_place() {
    let mut bytes = vec![0u8, 2, 7, 8, 9];
    {
        let payload = tpm2b_buffer_mut(&mut bytes).unwrap();
        assert_eq!(payload, &[7, 8]);
        payload[0] = 1;
    }
    assert_eq!(bytes, vec![0, 2, 1, 8, 9]);
    let mut short = vec![0u8, 5, 1];
    assert!(matches!(tpm2b_buffer_mut(&mut short), Err(Error::InvalidData)));
}

#[test]
fn tpm2b_payload_is_changed_in_place() {
    let mut bytes = vec![0u8, 1, 5, 6];
    tpm2b_payload_mut(&mut bytes).unwrap()[0] = 9;
    assert_eq!(bytes, vec![0, 1, 9, 6]);
    let mut empty = vec![0u8, 0];
    assert!(tpm2b_payload_mut(&mut empty).unwrap().is_empty());
    assert!(matches!(tpm2b_payload_mut(&mut [0u8]), Err(Error::InvalidData)));
}

#[test]
fn digest_buffer_refuses_long_bytes() {
    assert!(Tpm2bDigest::from_bytes(&[0u8; 64]).is_ok());
    assert!(matches!(Tpm2bDigest::from_bytes(&[0u8; 65]), Err(Error::TooLong { max: 64, .. })));
}

#[test]
fn authorization_failure_keeps_its_code() {
    let raw = RC_FMT1 | 0x0E | 0x100 | 0x800;
    let rc = TpmRc::new(raw);
    let err = Error::from_rc(rc);
    assert!(matches!(err, Error::AuthorizationFailed(ErrorSource::Tpm(_))));
    assert_eq!(err.tpm_rc().map(|r| r.raw()), Some(raw));
    assert_eq!(rc.base().raw(), RC_AUTH_FAIL);
}

#[test]
fn busy_and_unsupported_codes() {
    assert!(matches!(Error::from_rc(TpmRc::new(RC_RETRY)), Error::Busy(_)));
    assert!(matches!(Error::from_rc(TpmRc::new(RC_COMMAND_CODE)), Error::Unsupported { .. }));
    let e = TpmError::from(TpmRc::new(RC_RETRY));
    assert_eq!(e.rc().raw(), RC_RETRY);
}

#[test]
fn tbs_codes_map_to_errors() {
    assert!(matches!(
        Error::from_tbs_rc(0x8028_400F),
        Error::Connect(ErrorSource::Tbs(TbsError::TpmNotFound))
    ));
    assert!(matches!(Error::from_tbs_rc(0x8028_4002), Error::InvalidParameter(_)));
    assert!(matches!(Error::from_tbs_rc(0x8028_4006), Error::Failure(ErrorSource::Tbs(TbsError::IoError))));
    assert!(matches!(Error::from_tbs_rc(0x1234), Error::Internal));
}

#[test]
fn header_holds_the_whole_size() {
    let header = CommandHeader::with_sessions(22, TpmCc(CC_GET_RANDOM));
    assert_eq!(header.command_size(), (TPM_HEADER_SIZE + 22) as u32);
    assert_eq!(header.marshal(), vec![0x80, 0x02, 0, 0, 0, 32, 0, 0, 0x01, 0x7b]);
    assert_eq!(TpmiStCommandTag::NoSessions.to_be_bytes(), [0x80, 0x01]);
    let plain = CommandHeader::no_sessions(0, TpmCc(CC_GET_RANDOM));
    assert_eq!(plain.marshal().len(), TPM_HEADER_SIZE);
}
