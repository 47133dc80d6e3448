use tpm2_rs::error::Error;
use tpm2_rs::parse::{parse_response_params_and_authorizations, CreateResponse, GetRandomResponse, LoadResponse};
use tpm2_rs::response::{
    ensure_no_response_body, ensure_response_handle_count, GetRandomResponse as RandomBody, LoadResponse as LoadBody,
    Response, ResponseBody,
};
use tpm2_rs::handle::TpmHandle;

fn header(tag: u16, size: u32, rc: u32) -> Vec<u8> {
    let mut v = Vec::new();
    v.extend_from_slice(&tag.to_be_bytes());
    v.extend_from_slice(&size.to_be_bytes());
    v.extend_from_slice(&rc.to_be_bytes());
    v
}

#[test]
fn parses_response_without_sessions() {
    let mut bytes = header(0x8001, 0, 0);
    bytes.extend_from_slice(&0x8000_0001u32.to_be_bytes());
    bytes.extend_from_slice(&[0, 2, 9, 9]);
    let len = bytes.len() as u32;
    bytes[2..6].copy_from_slice(&len.to_be_bytes());
    let mut input: &[u8] = &bytes;
    let response = Response::parse(&mut input, 1).expect("must parse");
    assert_eq!(response.body.handles, vec![TpmHandle(0x8000_0001)]);
    assert_eq!(response.body.parameters, vec![0, 2, 9, 9]);
    assert!(response.authorization_area.is_empty());
    assert!(input.is_empty());
}

#[test]
fn parses_response_with_sessions() {
    let mut bytes = header(0x8002, 0, 0);
    bytes.extend_from_slice(&3u32.to_be_bytes());
    bytes.extend_from_slice(&[1, 2, 3]);
    // nonce of two bytes, attributes, empty HMAC
    bytes.extend_from_slice(&[0, 2, 0xaa, 0xbb, 0x01, 0, 0]);
    let len = bytes.len() as u32;
    bytes[2..6].copy_from_slice(&len.to_be_bytes());
    let mut input: &[u8] = &bytes;
    let response = Response::parse(&mut input, 0).expect("must parse");
    assert_eq!(response.body.parameters, vec![1, 2, 3]);
    assert_eq!(response.authorization_area.len(), 1);
    assert_eq!(response.authorization_area[0].nonce.buffer, vec![0xaa, 0xbb]);
    assert_eq!(response.authorization_area[0].session_attributes.0, 1);
}

#[test]
fn rejects_wrong_response_size() {
    let bytes = header(0x8001, 11, 0);
    let mut input: &[u8] = &bytes;
    assert!(matches!(Response::parse(&mut input, 0), Err(Error::InvalidData)));
}

#[test]
fn reports_tpm_error_codes() {
    let bytes = header(0x8001, 10, 0x922);
    let mut input: &[u8] = &bytes;
    assert!(matches!(Response::parse(&mut input, 0), Err(Error::Busy(_))));
}

#[test]
fn rejects_unknown_response_tag() {
    let bytes = header(0x8003, 10, 0);
    let mut input: &[u8] = &bytes;
    assert!(matches!(Response::parse(&mut input, 0), Err(Error::Internal)));
}

#[test]
fn handle_count_and_empty_body_checks() {
    assert!(ensure_response_handle_count(&[TpmHandle(1)], 1).is_ok());
    assert!(matches!(ensure_response_handle_count(&[], 1), Err(Error::InvalidData)));
    let empty = ResponseBody { handles: Vec::new(), parameters: Vec::new() };
    assert!(ensure_no_response_body(&empty).is_ok());
    let nonempty = ResponseBody { handles: Vec::new(), parameters: vec![0] };
    assert!(matches!(ensure_no_response_body(&nonempty), Err(Error::InvalidData)));
}

#[test]
fn random_body_reads_its_digest() {
    let body = ResponseBody { handles: Vec::new(), parameters: vec![0, 3, 1, 2, 3] };
    let response = RandomBody::try_from(body).expect("must parse");
    assert_eq!(response.random_bytes.buffer, vec![1, 2, 3]);
    let trailing = ResponseBody { handles: Vec::new(), parameters: vec![0, 1, 1, 2] };
    assert!(matches!(RandomBody::try_from(trailing), Err(Error::InvalidData)));
}

#[test]
fn load_body_takes_handle_and_name() {
    let body = ResponseBody { handles: vec![TpmHandle(0x8000_0002)], parameters: vec![0, 2, 0, 0x0b] };
    let response = LoadBody::try_from(body).expect("must parse");
    assert_eq!(response.object_handle, TpmHandle(0x8000_0002));
    assert_eq!(response.name.buffer, vec![0, 0x0b]);
}

#[test]
fn parameter_area_and_authorizations() {
    let bytes = vec![0, 0, 0, 2, 7, 7, 0, 0, 0x01, 0, 0];
    let mut input: &[u8] = &bytes;
    let (params, auths) = parse_response_params_and_authorizations(&mut input, 1).expect("must parse");
    assert_eq!(params, vec![7, 7]);
    assert_eq!(auths.len(), 1);
    let mut trailing: &[u8] = &[0, 0, 0, 0, 1];
    assert!(matches!(parse_response_params_and_authorizations(&mut trailing, 0), Err(Error::InvalidData)));
}

#[test]
fn random_response_parts() {
    let response = GetRandomResponse::parse(&[0, 0, 0, 4, 0, 2, 5, 6], 0).expect("must parse");
    assert_eq!(response.into_parts().expect("must hold a digest").buffer, vec![5, 6]);
    let mut long = vec![0, 0, 0, 67, 0, 65];
    long.extend_from_slice(&[0u8; 65]);
    let response = GetRandomResponse::parse(&long, 0).expect("must parse");
    assert!(matches!(response.into_parts(), Err(Error::TooLong { .. })));
}

#[test]
fn load_response_parts_always_fail() {
    let response = LoadResponse::parse(&[0x80, 0, 0, 1, 0, 0, 0, 3, 0, 1, 9], 0).expect("must parse");
    assert!(matches!(response.into_parts(), Err(Error::InvalidData)));
}

#[test]
fn create_response_parts_need_creation_outputs() {
    let response = CreateResponse::parse(&[0, 0, 0, 2, 0, 0], 0).expect("must parse");
    assert!(response.into_parts().is_err());
}
