//! TPM responses: the header, the handle area, the parameters and the
//! authorization area, and the bodies of the commands the library sends.
use vstd::prelude::*;

use crate::cap::{handle_enc, handle_item, list_bytes, pcr_selection_item, tagged_property_enc, spec_parse_capability_data, CapabilityData, CapabilityModel, TpmlPcrSelection};
use crate::creation::{spec_parse_ticket, spec_parse_tpm2b_creation_data, CreationModel, TicketModel, Tpm2bCreationData, TpmtTkCreation};
use crate::handle::{is_auth_session_handle, TpmiShAuthSession};
use crate::tpm::{spec_parse_digest_list, Tpm2bDigest, Tpm2bName, Tpm2bPrivate, Tpm2bPublic, Tpm2bPublicKeyRsa, TpmlDigest};
use crate::types::{spec_tpm_cap_of, TpmCap, TpmPt};
use crate::wire::{concat_map, ensure_consumed, lemma_u16_bytes_read, lemma_u32_bytes_read, spec_parse_list, u16_bytes, u32_bytes};
use crate::error::{spec_from_rc, Error};
use crate::handle::TpmHandle;
use crate::rc::{TpmRc, RC_SUCCESS};
use crate::tpm::{spec_parse_tpm2b_max, Tpm2bAuth, Tpm2bNonce};
use crate::types::{is_command_tag, TpmaSession, TpmiStCommandTag, SESSION_RESERVED, ST_SESSIONS};
use crate::wire::{read_u32, read_u8, read_vec, spec_parse_n, spec_read_u16, spec_read_u32, spec_read_u8, spec_read_vec};

verus! {

/// The header of a response.
#[derive(Debug, Clone, Copy)]
pub struct ResponseHeader {
    pub tag: TpmiStCommandTag,
    pub response_size: u32,
    pub response_code: TpmRc,
}

/// A response header at the front of `s`: the tag, the size and the response
/// code, with the error that reading it gives.
pub open spec fn spec_parse_response_header(s: Seq<u8>) -> Result<((u16, u32, u32), Seq<u8>), Error> {
    match spec_read_u16(s) {
        None => Err(Error::InvalidData),
        Some((tag, r1)) => if !is_command_tag(tag) {
            Err(Error::Internal)
        } else {
            match spec_read_u32(r1) {
                None => Err(Error::InvalidData),
                Some((size, r2)) => match spec_read_u32(r2) {
                    None => Err(Error::InvalidData),
                    Some((rc, r3)) => Ok(((tag, size, rc), r3)),
                },
            }
        },
    }
}

impl ResponseHeader {
    pub fn unmarshal(input: &mut &[u8]) -> (r: Result<ResponseHeader, Error>)
        ensures
            final(input)@.len() <= old(input)@.len(),
            match r {
                Ok(h) => spec_parse_response_header(old(input)@) == Ok::<_, Error>(
                    ((h.tag.0.0, h.response_size, h.response_code.0), final(input)@),
                ),
                Err(e) => spec_parse_response_header(old(input)@) == Err::<((u16, u32, u32), Seq<u8>), _>(e),
            },
    {
        let tag_value = crate::wire::read_u16(input)?;
        let tag = match TpmiStCommandTag::try_from(tag_value) {
            Ok(t) => t,
            Err(_) => return Err(Error::conversion()),
        };
        let response_size = read_u32(input)?;
        let response_code = TpmRc::from(read_u32(input)?);
        Ok(ResponseHeader { tag, response_size, response_code })
    }
}

/// What an authorization of a response holds: the nonce, the session
/// attributes and the HMAC.
pub type AuthResponseModel = (Seq<u8>, u8, Seq<u8>);

/// A response authorization (`TPMS_AUTH_RESPONSE`).
#[derive(Debug, Clone)]
pub struct TpmsAuthResponse {
    pub nonce: Tpm2bNonce,
    pub session_attributes: TpmaSession,
    pub hmac: Tpm2bAuth,
}

impl View for TpmsAuthResponse {
    type V = AuthResponseModel;

    open spec fn view(&self) -> AuthResponseModel {
        (self.nonce@, self.session_attributes.0, self.hmac@)
    }
}

/// A response authorization at the front of a byte sequence.
pub open spec fn auth_response_item() -> spec_fn(Seq<u8>) -> Option<(AuthResponseModel, Seq<u8>)> {
    |s: Seq<u8>|
        match spec_parse_tpm2b_max(s, 64) {
            Some((nonce, r1)) => match spec_read_u8(r1) {
                Some((attrs, r2)) => if attrs & SESSION_RESERVED != 0 {
                    None
                } else {
                    match spec_parse_tpm2b_max(r2, 64) {
                        Some((hmac, r3)) => Some(((nonce, attrs, hmac), r3)),
                        None => None,
                    }
                },
                None => None,
            },
            None => None,
        }
}

impl TpmsAuthResponse {
    pub fn unmarshal(input: &mut &[u8]) -> (r: Result<TpmsAuthResponse, Error>)
        ensures
            match r {
                Ok(a) => (auth_response_item())(old(input)@) == Some((a@, final(input)@))
                    && final(input)@.len() < old(input)@.len(),
                Err(e) => (auth_response_item())(old(input)@) is None && e is InvalidData,
            },
            final(input)@.len() <= old(input)@.len(),
    {
        let nonce = Tpm2bNonce::unmarshal(input)?;
        let bits = read_u8(input)?;
        let session_attributes = match TpmaSession::from_bits(bits) {
            Some(a) => a,
            None => return Err(Error::InvalidData),
        };
        let hmac = Tpm2bAuth::unmarshal(input)?;
        Ok(TpmsAuthResponse { nonce, session_attributes, hmac })
    }
}

/// The authorizations that fill `s`, one after the other.
pub open spec fn spec_parse_auths(s: Seq<u8>) -> Option<Seq<AuthResponseModel>>
    decreases s.len(),
{
    if s.len() == 0 {
        Some(Seq::empty())
    } else {
        match (auth_response_item())(s) {
            Some((a, rest)) => if rest.len() < s.len() {
                match spec_parse_auths(rest) {
                    Some(more) => Some(seq![a] + more),
                    None => None,
                }
            } else {
                None
            },
            None => None,
        }
    }
}

/// `done` in front of what `rest` parses to.
pub open spec fn prepend_auths(
    done: Seq<AuthResponseModel>,
    rest: Option<Seq<AuthResponseModel>>,
) -> Option<Seq<AuthResponseModel>> {
    match rest {
        Some(more) => Some(done + more),
        None => None,
    }
}

/// The handles and parameters of a response.
#[derive(Debug, Clone)]
pub struct ResponseBody {
    pub handles: Vec<TpmHandle>,
    pub parameters: Vec<u8>,
}

/// What a response body holds: its handles and its parameter bytes.
pub ghost struct BodyModel {
    pub handles: Seq<u32>,
    pub parameters: Seq<u8>,
}

impl View for ResponseBody {
    type V = BodyModel;

    open spec fn view(&self) -> BodyModel {
        BodyModel { handles: self.handles@.map_values(|h: TpmHandle| h.0), parameters: self.parameters@ }
    }
}

/// A whole response.
#[derive(Debug, Clone)]
pub struct Response {
    pub header: ResponseHeader,
    pub body: ResponseBody,
    pub authorization_area: Vec<TpmsAuthResponse>,
}

/// What a successful response holds.
pub ghost struct ResponseModel {
    pub tag: u16,
    pub response_size: u32,
    pub handles: Seq<u32>,
    pub parameters: Seq<u8>,
    pub auths: Seq<AuthResponseModel>,
}

impl View for Response {
    type V = ResponseModel;

    open spec fn view(&self) -> ResponseModel {
        ResponseModel {
            tag: self.header.tag.0.0,
            response_size: self.header.response_size,
            handles: self.body@.handles,
            parameters: self.body@.parameters,
            auths: self.authorization_area@.map_values(|a: TpmsAuthResponse| a@),
        }
    }
}

/// The areas of a successful response after its header: `handle_count`
/// handles; then, with sessions, the parameter size, the parameters and the
/// authorizations up to the end; without sessions, the parameters up to the end.
pub open spec fn spec_parse_response_areas(
    tag: u16,
    size: u32,
    s: Seq<u8>,
    handle_count: nat,
) -> Result<ResponseModel, Error> {
    match spec_parse_n(s, handle_count, handle_item()) {
        None => Err(Error::InvalidData),
        Some((handles, r1)) => if tag == ST_SESSIONS {
            match spec_read_u32(r1) {
                None => Err(Error::InvalidData),
                Some((param_size, r2)) => match spec_read_vec(r2, param_size as int) {
                    None => Err(Error::InvalidData),
                    Some((parameters, r3)) => match spec_parse_auths(r3) {
                        None => Err(Error::InvalidData),
                        Some(auths) => Ok(ResponseModel { tag, response_size: size, handles, parameters, auths }),
                    },
                },
            }
        } else {
            Ok(ResponseModel { tag, response_size: size, handles, parameters: r1, auths: Seq::empty() })
        },
    }
}

/// What a response reads as: its header; the error of a size that is not the
/// length of the response; the error that a failing response code is
/// reported as; then its areas.
pub open spec fn spec_parse_response(s: Seq<u8>, handle_count: nat) -> Result<ResponseModel, Error> {
    match spec_parse_response_header(s) {
        Err(e) => Err(e),
        Ok(((tag, size, rc), rest)) => if size as int != s.len() {
            Err(Error::InvalidData)
        } else if rc != RC_SUCCESS {
            Err(spec_from_rc(TpmRc(rc)))
        } else {
            spec_parse_response_areas(tag, size, rest, handle_count)
        },
    }
}

proof fn lemma_header_read(tag: u16, size: u32, rc: u32, rest: Seq<u8>)
    ensures
        spec_read_u16(u16_bytes(tag) + u32_bytes(size) + u32_bytes(rc) + rest) == Some((tag, u32_bytes(size) + u32_bytes(rc) + rest)),
        spec_read_u32(u32_bytes(size) + u32_bytes(rc) + rest) == Some((size, u32_bytes(rc) + rest)),
        spec_read_u32(u32_bytes(rc) + rest) == Some((rc, rest)),
{
    let a = u32_bytes(rc) + rest;
    let b = u32_bytes(size) + a;
    assert(u16_bytes(tag) + u32_bytes(size) + u32_bytes(rc) + rest =~= u16_bytes(tag) + b);
    assert(u32_bytes(size) + u32_bytes(rc) + rest =~= b);
    lemma_u16_bytes_read(tag, b);
    lemma_u32_bytes_read(size, a);
    lemma_u32_bytes_read(rc, rest);
}

proof fn lemma_handles_read(handles: Seq<u32>, rest: Seq<u8>)
    ensures
        spec_parse_n(concat_map(handles, handle_enc()) + rest, handles.len(), handle_item()) == Some((handles, rest)),
{
    assert forall|i: int, r: Seq<u8>| 0 <= i < handles.len() implies #[trigger] (handle_item())(
        (handle_enc())(handles[i]) + r,
    ) == Some((handles[i], r)) by {
        lemma_u32_bytes_read(handles[i], r);
    }
    crate::wire::lemma_parse_n_concat(handles, handle_enc(), handle_item(), rest);
}

/// A response whose code is not success, with a valid tag and the size of
/// the whole response, is reported as the error of its code, whatever
/// follows the header.
pub proof fn law_response_failure(tag: u16, rc: u32, body: Seq<u8>, handle_count: nat)
    requires
        tag == 0x8001 || tag == 0x8002,
        rc != 0,
        10 + body.len() <= u32::MAX,
    ensures
        spec_parse_response(
            u16_bytes(tag) + u32_bytes((10 + body.len()) as u32) + u32_bytes(rc) + body,
            handle_count,
        ) == Err::<ResponseModel, Error>(spec_from_rc(TpmRc(rc))),
{
    lemma_header_read(tag, (10 + body.len()) as u32, rc, body);
}

/// A response whose size field is not its length is invalid data, whatever
/// its code.
pub proof fn law_response_size_checked(tag: u16, size: u32, rc: u32, body: Seq<u8>, handle_count: nat)
    requires
        tag == 0x8001 || tag == 0x8002,
        size != 10 + body.len(),
    ensures
        spec_parse_response(u16_bytes(tag) + u32_bytes(size) + u32_bytes(rc) + body, handle_count)
            == Err::<ResponseModel, Error>(Error::InvalidData),
{
    lemma_header_read(tag, size, rc, body);
}

/// A successful response without sessions reads as its size, its handles in
/// order and the parameters that fill the rest.
pub proof fn law_response_without_sessions(size: u32, handles: Seq<u32>, parameters: Seq<u8>)
    requires
        size == 10 + concat_map(handles, handle_enc()).len() + parameters.len(),
    ensures
        spec_parse_response(
            u16_bytes(0x8001) + u32_bytes(size) + u32_bytes(0) + concat_map(handles, handle_enc()) + parameters,
            handles.len(),
        ) == Ok::<ResponseModel, Error>(
            ResponseModel { tag: 0x8001, response_size: size, handles, parameters, auths: Seq::empty() },
        ),
{
    let body = concat_map(handles, handle_enc()) + parameters;
    assert(u16_bytes(0x8001) + u32_bytes(size) + u32_bytes(0) + concat_map(handles, handle_enc()) + parameters
        =~= u16_bytes(0x8001) + u32_bytes(size) + u32_bytes(0) + body);
    lemma_header_read(0x8001, size, 0, body);
    lemma_handles_read(handles, parameters);
}

/// A successful response with sessions reads as its size, its handles in
/// order and the parameters of the size it gives; where no authorization
/// follows, it has none.
pub proof fn law_response_with_sessions(size: u32, handles: Seq<u32>, parameters: Seq<u8>)
    requires
        size == 10 + concat_map(handles, handle_enc()).len() + 4 + parameters.len(),
        parameters.len() <= u32::MAX,
    ensures
        spec_parse_response(
            u16_bytes(0x8002) + u32_bytes(size) + u32_bytes(0) + concat_map(handles, handle_enc()) + u32_bytes(
                parameters.len() as u32,
            ) + parameters,
            handles.len(),
        ) == Ok::<ResponseModel, Error>(
            ResponseModel { tag: 0x8002, response_size: size, handles, parameters, auths: Seq::empty() },
        ),
{
    let after = u32_bytes(parameters.len() as u32) + parameters;
    let body = concat_map(handles, handle_enc()) + after;
    assert(u16_bytes(0x8002) + u32_bytes(size) + u32_bytes(0) + concat_map(handles, handle_enc()) + u32_bytes(
        parameters.len() as u32,
    ) + parameters =~= u16_bytes(0x8002) + u32_bytes(size) + u32_bytes(0) + body);
    lemma_header_read(0x8002, size, 0, body);
    lemma_handles_read(handles, after);
    lemma_u32_bytes_read(parameters.len() as u32, parameters);
    assert(parameters.take(parameters.len() as int) =~= parameters);
    assert(parameters.skip(parameters.len() as int) =~= Seq::<u8>::empty());
}

impl Response {
    /// Reads a whole response with `response_handle_count` handles.
    #[verifier::loop_isolation(false)]
    pub fn parse(input: &mut &[u8], response_handle_count: usize) -> (r: Result<Response, Error>)
        ensures
            match r {
                Ok(resp) => spec_parse_response(old(input)@, response_handle_count as nat) == Ok::<_, Error>(resp@)
                    && resp.header.response_code.0 == RC_SUCCESS && final(input)@.len() == 0,
                Err(e) => spec_parse_response(old(input)@, response_handle_count as nat) == Err::<ResponseModel, _>(e),
            },
    {
        let ghost s0 = input@;
        let response_size = input.len();
        let header = ResponseHeader::unmarshal(input)?;
        if header.response_size as usize != response_size {
            return Err(Error::InvalidData);
        }

        if header.response_code.value() != RC_SUCCESS {
            return Err(Error::from_rc(header.response_code));
        }

        let ghost s1 = input@;
        let mut handles: Vec<TpmHandle> = Vec::new();
        let mut i: usize = 0;
        while i < response_handle_count
            invariant
                0 <= i <= response_handle_count,
                input@.len() <= s1.len(),
                spec_parse_n(s1, i as nat, handle_item()) == Some((handles@.map_values(|h: TpmHandle| h.0), input@)),
            decreases response_handle_count - i,
        {
            let ghost done = handles@;
            match TpmHandle::unmarshal(input) {
                Ok(h) => {
                    handles.push(h);
                    assert(handles@.map_values(|h: TpmHandle| h.0) =~= done.map_values(|h: TpmHandle| h.0).push(h.0));
                },
                Err(e) => {
                    proof {
                        crate::tpm::lemma_parse_n_fails_after(
                            s1,
                            i as nat,
                            response_handle_count as nat,
                            handle_item(),
                        );
                    }
                    return Err(e);
                },
            }
            i += 1;
        }

        if header.tag.value() == ST_SESSIONS {
            let param_size = read_u32(input)? as usize;
            let parameters = read_vec(input, param_size)?;

            let ghost s3 = input@;
            let mut authorization_area: Vec<TpmsAuthResponse> = Vec::new();
            while input.len() != 0
                invariant
                    spec_parse_auths(s3) == prepend_auths(
                        authorization_area@.map_values(|a: TpmsAuthResponse| a@),
                        spec_parse_auths(input@),
                    ),
                decreases input@.len(),
            {
                let ghost done = authorization_area@.map_values(|a: TpmsAuthResponse| a@);
                let ghost cur = input@;
                let a = TpmsAuthResponse::unmarshal(input)?;
                proof {
                    assert(done + (seq![a@] + spec_parse_auths(input@)->0) =~= done.push(a@) + spec_parse_auths(
                        input@,
                    )->0);
                }
                authorization_area.push(a);
                assert(authorization_area@.map_values(|a: TpmsAuthResponse| a@) =~= done.push(a@));
            }
            assert(authorization_area@.map_values(|a: TpmsAuthResponse| a@) + Seq::<AuthResponseModel>::empty()
                =~= authorization_area@.map_values(|a: TpmsAuthResponse| a@));
            Ok(Response { header, authorization_area, body: ResponseBody { handles, parameters } })
        } else {
            let ghost r1 = input@;
            let params_len = input.len();
            let parameters = read_vec(input, params_len)?;
            assert(parameters@ =~= r1);
            let authorization_area: Vec<TpmsAuthResponse> = Vec::new();
            assert(authorization_area@.map_values(|a: TpmsAuthResponse| a@) =~= Seq::<AuthResponseModel>::empty());
            Ok(Response { header, authorization_area, body: ResponseBody { handles, parameters } })
        }
    }
}

/// That a response has `expected_count` handles.
pub fn ensure_response_handle_count(handles: &[TpmHandle], expected_count: usize) -> (r: Result<(), Error>)
    ensures
        match r {
            Ok(()) => handles@.len() == expected_count,
            Err(e) => handles@.len() != expected_count && e is InvalidData,
        },
{
    if handles.len() == expected_count {
        Ok(())
    } else {
        Err(Error::InvalidData)
    }
}

/// That a response has neither handles nor parameters.
pub fn ensure_no_response_body(response_body: &ResponseBody) -> (r: Result<(), Error>)
    ensures
        match r {
            Ok(()) => response_body.handles@.len() == 0 && response_body.parameters@.len() == 0,
            Err(e) => !(response_body.handles@.len() == 0 && response_body.parameters@.len() == 0)
                && e is InvalidData,
        },
{
    if response_body.handles.len() == 0 && response_body.parameters.len() == 0 {
        Ok(())
    } else {
        Err(Error::InvalidData)
    }
}


/// The parameters of a `TPM2_GetCapability` response for `capability`: the
/// more-data flag, the capability group, which must be the one asked for, and
/// its list, which ends the parameters.
pub open spec fn spec_parse_capability_response(s: Seq<u8>, capability: TpmCap) -> Option<(bool, CapabilityModel)> {
    match spec_read_u8(s) {
        Some((flag, r1)) => if flag > 1 {
            None
        } else {
            match spec_read_u32(r1) {
                Some((value, r2)) => match spec_tpm_cap_of(value) {
                    Some(returned) => if returned != capability {
                        None
                    } else {
                        match spec_parse_capability_data(r2, returned) {
                            Some((data, r3)) => if r3.len() == 0 {
                                Some((flag == 1, data))
                            } else {
                                None
                            },
                            None => None,
                        }
                    },
                    None => None,
                },
                None => None,
            }
        },
        None => None,
    }
}

/// The parameters of a `TPM2_GetCapability` answer for the TPM properties:
/// the more-data byte (0 or 1), the group `TPM_CAP_TPM_PROPERTIES` (6) and
/// the list read as the TPM wrote it; an answer for another group than the
/// one asked for, or with another more-data byte, is refused, and so is one
/// with bytes after the list.
pub proof fn law_capability_response_properties(
    more: u8,
    items: Seq<(TpmPt, u32)>,
    asked: TpmCap,
    extra: Seq<u8>,
)
    requires
        items.len() <= u32::MAX,
    ensures
        ({
            let list = list_bytes(items, tagged_property_enc());
            let answer = seq![more] + u32_bytes(6) + list;
            &&& more <= 1 ==> spec_parse_capability_response(answer, TpmCap::TpmProperties) == Some(
                (more == 1, CapabilityModel::TpmProperties(items)),
            )
            &&& more > 1 ==> spec_parse_capability_response(answer, TpmCap::TpmProperties) is None
            &&& asked != TpmCap::TpmProperties ==> spec_parse_capability_response(answer, asked) is None
            &&& extra.len() > 0 ==> spec_parse_capability_response(answer + extra, TpmCap::TpmProperties) is None
        }),
{
    let list = list_bytes(items, tagged_property_enc());
    let answer = seq![more] + u32_bytes(6) + list;
    crate::wire::lemma_u8_read(more, u32_bytes(6) + list);
    assert(answer =~= seq![more] + (u32_bytes(6) + list));
    lemma_u32_bytes_read(6, list);
    crate::types::law_tpm_cap_values();
    crate::types::law_tpm_cap_round_trip(TpmCap::TpmProperties, 6);
    crate::cap::law_tpm_properties_read(items, Seq::empty());
    assert(list + Seq::<u8>::empty() =~= list);
    let longer = answer + extra;
    crate::wire::lemma_u8_read(more, u32_bytes(6) + (list + extra));
    assert(longer =~= seq![more] + (u32_bytes(6) + (list + extra)));
    lemma_u32_bytes_read(6, list + extra);
    crate::cap::law_tpm_properties_read(items, extra);
}

/// A `TPM2_GetCapability` response.
#[derive(Debug, Clone)]
pub struct GetCapabilityResponse {
    pub more_data: bool,
    pub capability_data: CapabilityData,
}

impl GetCapabilityResponse {
    /// Reads the parameters of a capability response for `capability`.
    pub fn parse_parameters(bytes: &[u8], capability: TpmCap) -> (r: Result<GetCapabilityResponse, Error>)
        ensures
            match r {
                Ok(resp) => spec_parse_capability_response(bytes@, capability) == Some(
                    (resp.more_data, resp.capability_data@),
                ),
                Err(e) => spec_parse_capability_response(bytes@, capability) is None && (e is InvalidData
                    || e is Internal),
            },
    {
        let mut bytes = bytes;
        let more_data = match read_u8(&mut bytes)? {
            0 => false,
            1 => true,
            _ => {
                return Err(Error::InvalidData);
            },
        };
        let returned_capability = TpmCap::try_from(read_u32(&mut bytes)?)?;

        if capability != returned_capability {
            return Err(Error::InvalidData);
        }

        let capability_data = CapabilityData::parse(&mut bytes, returned_capability)?;

        ensure_consumed(bytes)?;

        Ok(GetCapabilityResponse { more_data, capability_data })
    }

    /// Reads a capability response body for `capability`: no handles, then
    /// the parameters.
    pub fn parse(response_body: ResponseBody, capability: TpmCap) -> (r: Result<GetCapabilityResponse, Error>)
        ensures
            match r {
                Ok(resp) => response_body.handles@.len() == 0 && spec_parse_capability_response(
                    response_body.parameters@,
                    capability,
                ) == Some((resp.more_data, resp.capability_data@)),
                Err(e) => (response_body.handles@.len() != 0 || spec_parse_capability_response(
                    response_body.parameters@,
                    capability,
                ) is None) && (e is InvalidData || e is Internal),
            },
    {
        ensure_response_handle_count(response_body.handles.as_slice(), 0)?;
        GetCapabilityResponse::parse_parameters(response_body.parameters.as_slice(), capability)
    }
}

/// A `TPM2_GetRandom` response.
#[derive(Debug, Clone)]
pub struct GetRandomResponse {
    pub random_bytes: Tpm2bDigest,
}

/// A TPM2B of at most `max` bytes that fills `s`.
pub open spec fn spec_parse_tpm2b_whole(s: Seq<u8>, max: nat) -> Option<Seq<u8>> {
    match spec_parse_tpm2b_max(s, max) {
        Some((data, rest)) => if rest.len() == 0 {
            Some(data)
        } else {
            None
        },
        None => None,
    }
}

impl GetRandomResponse {
    /// The random bytes of a response body with no handles.
    pub fn try_from(response_body: ResponseBody) -> (r: Result<GetRandomResponse, Error>)
        ensures
            match r {
                Ok(resp) => response_body.handles@.len() == 0 && spec_parse_tpm2b_whole(
                    response_body.parameters@,
                    64,
                ) == Some(resp.random_bytes@),
                Err(e) => (response_body.handles@.len() != 0 || spec_parse_tpm2b_whole(
                    response_body.parameters@,
                    64,
                ) is None) && e is InvalidData,
            },
    {
        ensure_response_handle_count(response_body.handles.as_slice(), 0)?;
        let mut parameters = response_body.parameters.as_slice();
        let random_bytes = Tpm2bDigest::unmarshal(&mut parameters)?;
        ensure_consumed(parameters)?;
        Ok(GetRandomResponse { random_bytes })
    }
}

/// A `TPM2_ReadPublic` response.
#[derive(Debug, Clone)]
pub struct ReadPublicResponse {
    pub out_public: Tpm2bPublic,
    pub name: Tpm2bName,
    pub qualified_name: Tpm2bName,
}

/// The parameters of a `TPM2_ReadPublic` response: the public area, the name
/// and the qualified name, which end the parameters.
pub open spec fn spec_parse_read_public(s: Seq<u8>) -> Option<(Seq<u8>, Seq<u8>, Seq<u8>)> {
    match spec_parse_tpm2b_max(s, 65535) {
        Some((public, r1)) => match spec_parse_tpm2b_max(r1, 66) {
            Some((name, r2)) => match spec_parse_tpm2b_whole(r2, 66) {
                Some(qualified) => Some((public, name, qualified)),
                None => None,
            },
            None => None,
        },
        None => None,
    }
}

impl ReadPublicResponse {
    pub fn try_from(response_body: ResponseBody) -> (r: Result<ReadPublicResponse, Error>)
        ensures
            match r {
                Ok(resp) => response_body.handles@.len() == 0 && spec_parse_read_public(response_body.parameters@)
                    == Some((resp.out_public@, resp.name@, resp.qualified_name@)),
                Err(e) => (response_body.handles@.len() != 0 || spec_parse_read_public(response_body.parameters@)
                    is None) && e is InvalidData,
            },
    {
        ensure_response_handle_count(response_body.handles.as_slice(), 0)?;
        let mut parameters = response_body.parameters.as_slice();
        let out_public = Tpm2bPublic::unmarshal(&mut parameters)?;
        let name = Tpm2bName::unmarshal(&mut parameters)?;
        let qualified_name = Tpm2bName::unmarshal(&mut parameters)?;
        ensure_consumed(parameters)?;
        Ok(ReadPublicResponse { out_public, name, qualified_name })
    }
}

/// A `TPM2_StartAuthSession` response.
#[derive(Debug, Clone)]
pub struct StartAuthSessionResponse {
    pub session_handle: TpmiShAuthSession,
    pub nonce_tpm: Tpm2bNonce,
}

impl StartAuthSessionResponse {
    /// The session handle, which must be one, and the TPM's nonce.
    pub fn try_from(response_body: ResponseBody) -> (r: Result<StartAuthSessionResponse, Error>)
        ensures
            match r {
                Ok(resp) => response_body@.handles.len() == 1 && resp.session_handle.0.0 == response_body@.handles[0]
                    && is_auth_session_handle(resp.session_handle.0.0) && spec_parse_tpm2b_whole(
                    response_body.parameters@,
                    64,
                ) == Some(resp.nonce_tpm@),
                Err(e) => (response_body@.handles.len() != 1 || !is_auth_session_handle(response_body@.handles[0])
                    || spec_parse_tpm2b_whole(response_body.parameters@, 64) is None) && (e is InvalidData
                    || e is Internal),
            },
    {
        ensure_response_handle_count(response_body.handles.as_slice(), 1)?;
        let session_handle = TpmiShAuthSession::try_from(response_body.handles[0])?;

        let mut parameters = response_body.parameters.as_slice();
        let nonce_tpm = Tpm2bNonce::unmarshal(&mut parameters)?;
        ensure_consumed(parameters)?;

        Ok(StartAuthSessionResponse { session_handle, nonce_tpm })
    }
}

/// A `TPM2_PCR_Read` response.
#[derive(Debug, Clone)]
pub struct PcrReadResponse {
    pub pcr_update_counter: u32,
    pub pcr_selection_out: TpmlPcrSelection,
    pub pcr_values: TpmlDigest,
}

/// The parameters of a `TPM2_PCR_Read` response: the update counter, the
/// selection read and the digests, which end the parameters.
pub open spec fn spec_parse_pcr_read(s: Seq<u8>) -> Option<(u32, Seq<(u16, Seq<u8>)>, Seq<Seq<u8>>)> {
    match spec_read_u32(s) {
        Some((counter, r1)) => match spec_parse_list(r1, pcr_selection_item()) {
            Some((selection, r2)) => match spec_parse_digest_list(r2) {
                Some((values, r3)) => if r3.len() == 0 {
                    Some((counter, selection, values))
                } else {
                    None
                },
                None => None,
            },
            None => None,
        },
        None => None,
    }
}

impl PcrReadResponse {
    pub fn try_from(response_body: ResponseBody) -> (r: Result<PcrReadResponse, Error>)
        ensures
            match r {
                Ok(resp) => response_body.handles@.len() == 0 && spec_parse_pcr_read(response_body.parameters@)
                    == Some((resp.pcr_update_counter, resp.pcr_selection_out@, resp.pcr_values@)),
                Err(e) => (response_body.handles@.len() != 0 || spec_parse_pcr_read(response_body.parameters@)
                    is None) && (e is InvalidData || e is Internal) && (response_body.handles@.len() == 0
                    && crate::parse::spec_pcr_read_rest(response_body.parameters@) is Some ==> e is InvalidData),
            },
    {
        ensure_response_handle_count(response_body.handles.as_slice(), 0)?;
        let mut parameters = response_body.parameters.as_slice();
        let pcr_update_counter = read_u32(&mut parameters)?;
        let pcr_selection_out = TpmlPcrSelection::unmarshal(&mut parameters)?;
        let pcr_values = TpmlDigest::unmarshal(&mut parameters)?;
        ensure_consumed(parameters)?;
        Ok(PcrReadResponse { pcr_update_counter, pcr_selection_out, pcr_values })
    }
}

/// What follows the public area in a create response: the creation data,
/// the creation hash and the creation ticket.
pub open spec fn spec_parse_creation_outputs(s: Seq<u8>) -> Option<(CreationModel, Seq<u8>, TicketModel, Seq<u8>)> {
    match spec_parse_tpm2b_creation_data(s) {
        Some((data, r1)) => match spec_parse_tpm2b_max(r1, 64) {
            Some((hash, r2)) => match spec_parse_ticket(r2) {
                Some((ticket, r3)) => Some((data, hash, ticket, r3)),
                None => None,
            },
            None => None,
        },
        None => None,
    }
}

/// A `TPM2_CreatePrimary` response.
#[derive(Debug, Clone)]
pub struct CreatePrimaryResponse {
    pub object_handle: TpmHandle,
    pub out_public: Tpm2bPublic,
    pub creation_data: Tpm2bCreationData,
    pub creation_hash: Tpm2bDigest,
    pub creation_ticket: TpmtTkCreation,
    pub name: Tpm2bName,
}

/// The parameters of a `TPM2_CreatePrimary` response: the public area, the
/// creation outputs and the name, which ends the parameters.
pub open spec fn spec_parse_create_primary(s: Seq<u8>) -> Option<(Seq<u8>, CreationModel, Seq<u8>, TicketModel, Seq<u8>)> {
    match spec_parse_tpm2b_max(s, 65535) {
        Some((public, r1)) => match spec_parse_creation_outputs(r1) {
            Some((data, hash, ticket, r2)) => match spec_parse_tpm2b_whole(r2, 66) {
                Some(name) => Some((public, data, hash, ticket, name)),
                None => None,
            },
            None => None,
        },
        None => None,
    }
}

impl CreatePrimaryResponse {
    pub fn try_from(response_body: ResponseBody) -> (r: Result<CreatePrimaryResponse, Error>)
        ensures
            match r {
                Ok(resp) => response_body@.handles.len() == 1 && resp.object_handle.0 == response_body@.handles[0]
                    && spec_parse_create_primary(response_body.parameters@) == Some(
                    (resp.out_public@, resp.creation_data.0@, resp.creation_hash@, resp.creation_ticket@, resp.name@),
                ),
                Err(e) => (response_body@.handles.len() != 1 || spec_parse_create_primary(response_body.parameters@)
                    is None) && (e is InvalidData || e is Internal),
            },
    {
        ensure_response_handle_count(response_body.handles.as_slice(), 1)?;
        let object_handle = response_body.handles[0];

        let mut parameters = response_body.parameters.as_slice();
        let out_public = Tpm2bPublic::unmarshal(&mut parameters)?;
        let creation_data = Tpm2bCreationData::unmarshal(&mut parameters)?;
        let creation_hash = Tpm2bDigest::unmarshal(&mut parameters)?;
        let creation_ticket = TpmtTkCreation::unmarshal(&mut parameters)?;
        let name = Tpm2bName::unmarshal(&mut parameters)?;
        ensure_consumed(parameters)?;

        Ok(CreatePrimaryResponse { object_handle, out_public, creation_data, creation_hash, creation_ticket, name })
    }
}

/// A `TPM2_Create` response.
#[derive(Debug, Clone)]
pub struct CreateResponse {
    pub out_private: Tpm2bPrivate,
    pub out_public: Tpm2bPublic,
    pub creation_data: Tpm2bCreationData,
    pub creation_hash: Tpm2bDigest,
    pub creation_ticket: TpmtTkCreation,
}

/// The parameters of a `TPM2_Create` response: the private and public areas
/// and the creation outputs, which end the parameters.
pub open spec fn spec_parse_create(s: Seq<u8>) -> Option<(Seq<u8>, Seq<u8>, CreationModel, Seq<u8>, TicketModel)> {
    match spec_parse_tpm2b_max(s, 65535) {
        Some((private, r1)) => match spec_parse_tpm2b_max(r1, 65535) {
            Some((public, r2)) => match spec_parse_creation_outputs(r2) {
                Some((data, hash, ticket, r3)) => if r3.len() == 0 {
                    Some((private, public, data, hash, ticket))
                } else {
                    None
                },
                None => None,
            },
            None => None,
        },
        None => None,
    }
}

impl CreateResponse {
    pub fn try_from(response_body: ResponseBody) -> (r: Result<CreateResponse, Error>)
        ensures
            match r {
                Ok(resp) => response_body.handles@.len() == 0 && spec_parse_create(response_body.parameters@) == Some(
                    (resp.out_private@, resp.out_public@, resp.creation_data.0@, resp.creation_hash@, resp.creation_ticket@),
                ),
                Err(e) => (response_body.handles@.len() != 0 || spec_parse_create(response_body.parameters@) is None)
                    && (e is InvalidData || e is Internal),
            },
    {
        ensure_response_handle_count(response_body.handles.as_slice(), 0)?;

        let mut parameters = response_body.parameters.as_slice();
        let out_private = Tpm2bPrivate::unmarshal(&mut parameters)?;
        let out_public = Tpm2bPublic::unmarshal(&mut parameters)?;
        let creation_data = Tpm2bCreationData::unmarshal(&mut parameters)?;
        let creation_hash = Tpm2bDigest::unmarshal(&mut parameters)?;
        let creation_ticket = TpmtTkCreation::unmarshal(&mut parameters)?;
        ensure_consumed(parameters)?;

        Ok(CreateResponse { out_private, out_public, creation_data, creation_hash, creation_ticket })
    }
}

/// A `TPM2_Load` response.
#[derive(Debug, Clone)]
pub struct LoadResponse {
    pub object_handle: TpmHandle,
    pub name: Tpm2bName,
}

impl LoadResponse {
    pub fn try_from(response_body: ResponseBody) -> (r: Result<LoadResponse, Error>)
        ensures
            match r {
                Ok(resp) => response_body@.handles.len() == 1 && resp.object_handle.0 == response_body@.handles[0]
                    && spec_parse_tpm2b_whole(response_body.parameters@, 66) == Some(resp.name@),
                Err(e) => (response_body@.handles.len() != 1 || spec_parse_tpm2b_whole(
                    response_body.parameters@,
                    66,
                ) is None) && e is InvalidData,
            },
    {
        ensure_response_handle_count(response_body.handles.as_slice(), 1)?;
        let object_handle = response_body.handles[0];

        let mut parameters = response_body.parameters.as_slice();
        let name = Tpm2bName::unmarshal(&mut parameters)?;
        ensure_consumed(parameters)?;

        Ok(LoadResponse { object_handle, name })
    }
}

/// A `TPM2_PolicyGetDigest` response.
#[derive(Debug, Clone)]
pub struct PolicyGetDigestResponse {
    pub policy_digest: Tpm2bDigest,
}

impl PolicyGetDigestResponse {
    /// The policy digest at the front of the parameters; what follows it is
    /// not looked at.
    pub fn try_from(response_body: ResponseBody) -> (r: Result<PolicyGetDigestResponse, Error>)
        ensures
            match r {
                Ok(resp) => response_body.handles@.len() == 0 && (spec_parse_tpm2b_max(
                    response_body.parameters@,
                    64,
                ) matches Some((d, _)) && d == resp.policy_digest@),
                Err(e) => (response_body.handles@.len() != 0 || spec_parse_tpm2b_max(
                    response_body.parameters@,
                    64,
                ) is None) && e is InvalidData,
            },
    {
        ensure_response_handle_count(response_body.handles.as_slice(), 0)?;
        let mut parameters = response_body.parameters.as_slice();
        let policy_digest = Tpm2bDigest::unmarshal(&mut parameters)?;
        Ok(PolicyGetDigestResponse { policy_digest })
    }
}

/// A `TPM2_RSA_Encrypt` response.
#[derive(Debug, Clone)]
pub struct RsaEncryptResponse {
    pub out_data: Tpm2bPublicKeyRsa,
}

impl RsaEncryptResponse {
    /// The cipher text at the front of the parameters; what follows it is not
    /// looked at.
    pub fn try_from(response_body: ResponseBody) -> (r: Result<RsaEncryptResponse, Error>)
        ensures
            match r {
                Ok(resp) => response_body.handles@.len() == 0 && (spec_parse_tpm2b_max(
                    response_body.parameters@,
                    512,
                ) matches Some((d, _)) && d == resp.out_data@),
                Err(e) => (response_body.handles@.len() != 0 || spec_parse_tpm2b_max(
                    response_body.parameters@,
                    512,
                ) is None) && e is InvalidData,
            },
    {
        ensure_response_handle_count(response_body.handles.as_slice(), 0)?;
        let mut parameters = response_body.parameters.as_slice();
        let out_data = Tpm2bPublicKeyRsa::unmarshal(&mut parameters)?;
        Ok(RsaEncryptResponse { out_data })
    }
}

} // verus!
