use tpm2_rs::cap::CapabilityData;
use tpm2_rs::error::Error;
use tpm2_rs::response::{GetCapabilityResponse, ResponseBody};
use tpm2_rs::types::TpmCap;

fn response_params(more_data: u8, capability: TpmCap, count: u32) -> Vec<u8> {
    let mut bytes = Vec::with_capacity(9);
    bytes.push(more_data);
    bytes.extend_from_slice(&capability.value().to_be_bytes());
    bytes.extend_from_slice(&count.to_be_bytes());

    bytes
}

fn parse_response_params(response: &[u8], capability: TpmCap) -> Result<(bool, CapabilityData), Error> {
    let response = GetCapabilityResponse::parse(
        ResponseBody {
            handles: Vec::new(),
            parameters: response.to_vec(),
        },
        capability,
    )?;
    Ok((response.more_data, response.capability_data))
}

#[test]
fn rejects_mismatched_capability() {
    let response = response_params(0, TpmCap::Algorithms, 0);
    assert!(parse_response_params(&response, TpmCap::Handles).is_err());
}

#[test]
fn accepts_matching_empty_handle_list() {
    let response = response_params(1, TpmCap::Handles, 0);
    let (more_data, data) = parse_response_params(&response, TpmCap::Handles).expect("must parse");
    assert!(more_data);
    match data {
        CapabilityData::Handles(list) => assert!(list.items.is_empty()),
        other => panic!("unexpected capability data: {:?}", other),
    }
}

#[test]
fn rejects_invalid_more_data_flag() {
    let response = response_params(2, TpmCap::Handles, 0);
    assert!(matches!(parse_response_params(&response, TpmCap::Handles), Err(Error::InvalidData)));
}

#[test]
fn rejects_trailing_capability_bytes() {
    let mut response = response_params(0, TpmCap::Handles, 0);
    response.push(0);
    assert!(matches!(parse_response_params(&response, TpmCap::Handles), Err(Error::InvalidData)));
}

#[test]
fn rejects_capability_response_with_handles() {
    let response = response_params(0, TpmCap::Handles, 0);
    let result = GetCapabilityResponse::parse(
        ResponseBody {
            handles: vec![tpm2_rs::handle::TpmHandle(0x8000_0000)],
            parameters: response,
        },
        TpmCap::Handles,
    );
    assert!(matches!(result, Err(Error::InvalidData)));
}
