//! Responses read from their raw bytes after the header: the parameter area
//! with its size, and the authorization area with a known number of entries.
use vstd::prelude::*;

use crate::error::Error;
use crate::handle::{is_auth_session_handle, TpmHandle, TpmiShAuthSession};
use crate::creation::{CreationModel, TicketModel, Tpm2bCreationData, TpmtTkCreation};
use crate::response::{
    auth_response_item, spec_parse_creation_outputs, spec_parse_pcr_read, spec_parse_read_public,
    AuthResponseModel, PcrReadResponse, ReadPublicResponse, StartAuthSessionResponse, TpmsAuthResponse,
};
use crate::tpm::{
    spec_parse_digest_list, spec_parse_tpm2b_max, Tpm2bDigest, Tpm2bName, Tpm2bNonce, Tpm2bPrivate, Tpm2bPublic, TpmlDigest,
};
use crate::cap::{pcr_selection_item, TpmlPcrSelection};
use crate::wire::{
    ensure_consumed, read_tpm2b, read_tpm2b_exact, read_u32, read_vec, spec_parse_list, spec_parse_n, spec_read_tpm2b,
    spec_read_tpm2b_exact, spec_read_u32, spec_read_vec,
};

verus! {

/// The parameter area (a `u32` size, then the parameters) and then exactly
/// `auth_count` authorizations, which end the bytes.
pub open spec fn spec_parse_params_and_auths(s: Seq<u8>, auth_count: nat) -> Option<
    (Seq<u8>, Seq<AuthResponseModel>),
> {
    match spec_read_u32(s) {
        Some((size, r1)) => match spec_read_vec(r1, size as int) {
            Some((params, r2)) => match spec_parse_n(r2, auth_count, auth_response_item()) {
                Some((auths, r3)) => if r3.len() == 0 {
                    Some((params, auths))
                } else {
                    None
                },
                None => None,
            },
            None => None,
        },
        None => None,
    }
}

/// The views of some response authorizations.
pub open spec fn auth_views(auths: Seq<TpmsAuthResponse>) -> Seq<AuthResponseModel> {
    auths.map_values(|a: TpmsAuthResponse| a@)
}

/// Reads the parameter area and `auth_count` authorizations, which must end
/// `bytes`.
pub fn parse_response_params_and_authorizations(bytes: &mut &[u8], auth_count: usize) -> (r: Result<
    (Vec<u8>, Vec<TpmsAuthResponse>),
    Error,
>)
    ensures
        match r {
            Ok((params, auths)) => spec_parse_params_and_auths(old(bytes)@, auth_count as nat) == Some(
                (params@, auth_views(auths@)),
            ) && final(bytes)@.len() == 0,
            Err(e) => spec_parse_params_and_auths(old(bytes)@, auth_count as nat) is None && e is InvalidData,
        },
{
    let param_size = read_u32(bytes)? as usize;
    let params = read_vec(bytes, param_size)?;

    let ghost s2 = bytes@;
    let mut authorizations: Vec<TpmsAuthResponse> = Vec::new();
    let mut i: usize = 0;
    while i < auth_count
        invariant
            0 <= i <= auth_count,
            spec_read_u32(old(bytes)@) matches Some((size, r1)) && spec_read_vec(r1, size as int) == Some(
                (params@, s2),
            ),
            spec_parse_n(s2, i as nat, auth_response_item()) == Some((auth_views(authorizations@), bytes@)),
        decreases auth_count - i,
    {
        let ghost done = auth_views(authorizations@);
        match TpmsAuthResponse::unmarshal(bytes) {
            Ok(a) => {
                authorizations.push(a);
                assert(auth_views(authorizations@) =~= done.push(a@));
            },
            Err(e) => {
                proof {
                    crate::tpm::lemma_parse_n_fails_after(s2, i as nat, auth_count as nat, auth_response_item());
                }
                return Err(e);
            },
        }
        i += 1;
    }

    ensure_consumed(*bytes)?;

    Ok((params, authorizations))
}

/// A `TPM2_GetRandom` response: its parameters and authorizations.
#[derive(Debug, Clone)]
pub struct GetRandomResponse {
    pub parameters: Vec<u8>,
    pub authorizations: Vec<TpmsAuthResponse>,
}

impl GetRandomResponse {
    pub fn parse(bytes: &[u8], auth_count: usize) -> (r: Result<GetRandomResponse, Error>)
        ensures
            match r {
                Ok(resp) => spec_parse_params_and_auths(bytes@, auth_count as nat) == Some(
                    (resp.parameters@, auth_views(resp.authorizations@)),
                ),
                Err(e) => spec_parse_params_and_auths(bytes@, auth_count as nat) is None && e is InvalidData,
            },
    {
        let mut bytes = bytes;
        let (parameters, authorizations) = parse_response_params_and_authorizations(&mut bytes, auth_count)?;
        Ok(GetRandomResponse { parameters, authorizations })
    }

    /// The random bytes: a TPM2B of at most 64 bytes that fills the parameters.
    pub fn into_parts(self) -> (r: Result<Tpm2bDigest, Error>)
        ensures
            match r {
                Ok(d) => spec_read_tpm2b_exact(self.parameters@) == Some(d@) && d@.len() <= 64,
                Err(e) => match spec_read_tpm2b_exact(self.parameters@) {
                    Some(data) => data.len() > 64 && e == (Error::TooLong { name: "Tpm2bDigest", max: 64 }),
                    None => e is InvalidData,
                },
            },
    {
        let params = self.parameters.as_slice();
        let data = read_tpm2b_exact(params)?;
        Tpm2bDigest::from_bytes(data.as_slice())
    }
}

impl ReadPublicResponse {
    /// Reads the parameters of a `TPM2_ReadPublic` response.
    pub fn parse(bytes: &[u8]) -> (r: Result<ReadPublicResponse, Error>)
        ensures
            match r {
                Ok(resp) => spec_parse_read_public_raw(bytes@) == Some(
                    (resp.out_public@, resp.name@, resp.qualified_name@),
                ),
                Err(e) => spec_parse_read_public_raw(bytes@) is None && e is InvalidData,
            },
    {
        let mut bytes = bytes;
        let out_public = Tpm2bPublic::unmarshal(&mut bytes)?;
        let name = Tpm2bName { buffer: read_tpm2b(&mut bytes)? };
        let qualified_name = Tpm2bName { buffer: read_tpm2b_exact(bytes)? };

        Ok(ReadPublicResponse { out_public, name, qualified_name })
    }
}

/// The parameters of a `TPM2_ReadPublic` response, with names of any length:
/// the public area, the name, and the qualified name, which ends the bytes.
pub open spec fn spec_parse_read_public_raw(s: Seq<u8>) -> Option<(Seq<u8>, Seq<u8>, Seq<u8>)> {
    match spec_parse_tpm2b_max(s, 65535) {
        Some((public, r1)) => match spec_read_tpm2b(r1) {
            Some((name, r2)) => match spec_read_tpm2b_exact(r2) {
                Some(qualified) => Some((public, name, qualified)),
                None => None,
            },
            None => None,
        },
        None => None,
    }
}

impl StartAuthSessionResponse {
    /// Reads a `TPM2_StartAuthSession` response: the session handle, which
    /// must be one, and the TPM's nonce, which fills the rest.
    pub fn parse(bytes: &[u8]) -> (r: Result<StartAuthSessionResponse, Error>)
        ensures
            match r {
                Ok(resp) => spec_read_u32(bytes@) matches Some((h, rest)) && h == resp.session_handle.0.0
                    && is_auth_session_handle(h) && spec_read_tpm2b_exact(rest) == Some(resp.nonce_tpm@),
                Err(e) => (spec_read_u32(bytes@) matches Some((h, rest)) ==> (!is_auth_session_handle(h)
                    || spec_read_tpm2b_exact(rest) is None)) && (e is InvalidData || e is Internal),
            },
    {
        let mut bytes = bytes;
        let session_handle = TpmiShAuthSession::try_from(TpmHandle(read_u32(&mut bytes)?))?;
        let nonce_tpm = Tpm2bNonce { buffer: read_tpm2b_exact(bytes)? };

        Ok(StartAuthSessionResponse { session_handle, nonce_tpm })
    }
}

/// What follows the update counter, the selection list and the digest list
/// at the front of `s`, where all three can be read.
pub open spec fn spec_pcr_read_rest(s: Seq<u8>) -> Option<Seq<u8>> {
    match spec_read_u32(s) {
        Some((_counter, r1)) => match spec_parse_list(r1, pcr_selection_item()) {
            Some((_selection, r2)) => match spec_parse_digest_list(r2) {
                Some((_values, r3)) => Some(r3),
                None => None,
            },
            None => None,
        },
        None => None,
    }
}

impl PcrReadResponse {
    /// Reads the parameters of a `TPM2_PCR_Read` response; bytes after the
    /// digest list are invalid data.
    pub fn parse(bytes: &[u8]) -> (r: Result<PcrReadResponse, Error>)
        ensures
            match r {
                Ok(resp) => spec_parse_pcr_read(bytes@) == Some(
                    (resp.pcr_update_counter, resp.pcr_selection_out@, resp.pcr_values@),
                ),
                Err(e) => spec_parse_pcr_read(bytes@) is None && (e is InvalidData || e is Internal)
                    && (spec_pcr_read_rest(bytes@) is Some ==> e is InvalidData),
            },
    {
        let mut bytes = bytes;
        let pcr_update_counter = read_u32(&mut bytes)?;
        let pcr_selection_out = TpmlPcrSelection::unmarshal(&mut bytes)?;
        let pcr_values = TpmlDigest::unmarshal(&mut bytes)?;

        ensure_consumed(bytes)?;

        Ok(PcrReadResponse { pcr_update_counter, pcr_selection_out, pcr_values })
    }
}

/// A `TPM2_CreatePrimary` response: the object handle, the parameters and
/// the authorizations.
#[derive(Debug, Clone)]
pub struct CreatePrimaryResponse {
    pub object_handle: TpmHandle,
    pub parameters: Vec<u8>,
    pub authorizations: Vec<TpmsAuthResponse>,
}

/// The parameters of a `TPM2_CreatePrimary` response as its parts are taken:
/// the public area, the creation outputs with a hash of at most 64 bytes, and
/// the name of any length, which ends them.
pub open spec fn spec_create_primary_parts(s: Seq<u8>) -> Option<(Seq<u8>, Seq<u8>)> {
    match spec_parse_tpm2b_max(s, 65535) {
        Some((public, r1)) => match spec_parse_creation_outputs(r1) {
            Some((_data, _hash, _ticket, r2)) => match spec_read_tpm2b(r2) {
                Some((name, r3)) => if r3.len() == 0 {
                    Some((public, name))
                } else {
                    None
                },
                None => None,
            },
            None => None,
        },
        None => None,
    }
}

impl CreatePrimaryResponse {
    pub fn parse(bytes: &[u8], auth_count: usize) -> (r: Result<CreatePrimaryResponse, Error>)
        ensures
            match r {
                Ok(resp) => spec_read_u32(bytes@) matches Some((h, rest)) && h == resp.object_handle.0
                    && spec_parse_params_and_auths(rest, auth_count as nat) == Some(
                    (resp.parameters@, auth_views(resp.authorizations@)),
                ),
                Err(e) => (spec_read_u32(bytes@) matches Some((h, rest)) ==> spec_parse_params_and_auths(
                    rest,
                    auth_count as nat,
                ) is None) && e is InvalidData,
            },
    {
        let mut bytes = bytes;
        let object_handle = TpmHandle(read_u32(&mut bytes)?);
        let (parameters, authorizations) = parse_response_params_and_authorizations(&mut bytes, auth_count)?;

        Ok(CreatePrimaryResponse { object_handle, parameters, authorizations })
    }

    /// The object handle, the public area and the name.
    pub fn into_parts(self) -> (r: Result<(TpmHandle, Tpm2bPublic, Tpm2bName), Error>)
        ensures
            match r {
                Ok((h, public, name)) => h == self.object_handle && spec_create_primary_parts(self.parameters@)
                    == Some((public@, name@)),
                Err(e) => spec_create_primary_parts(self.parameters@) is None && (e is InvalidData
                    || e is Internal || e is TooLong),
            },
    {
        let mut params = self.parameters.as_slice();

        let out_public = Tpm2bPublic::unmarshal(&mut params)?;
        let _creation_data = Tpm2bCreationData::unmarshal(&mut params)?;
        let hash = read_tpm2b(&mut params)?;
        let _creation_hash = Tpm2bDigest::from_bytes(hash.as_slice())?;
        let _creation_ticket = TpmtTkCreation::unmarshal(&mut params)?;
        let name = Tpm2bName { buffer: read_tpm2b(&mut params)? };

        ensure_consumed(params)?;

        Ok((self.object_handle, out_public, name))
    }
}

/// A `TPM2_Create` response: its parameters and authorizations.
#[derive(Debug, Clone)]
pub struct CreateResponse {
    pub parameters: Vec<u8>,
    pub authorizations: Vec<TpmsAuthResponse>,
}

/// The parameters of a `TPM2_Create` response as its parts are taken: the
/// private area of any length, the public area and the creation outputs,
/// which end them.
pub open spec fn spec_create_parts(s: Seq<u8>) -> Option<(Seq<u8>, Seq<u8>)> {
    match spec_read_tpm2b(s) {
        Some((private, r1)) => match spec_parse_tpm2b_max(r1, 65535) {
            Some((public, r2)) => match spec_parse_creation_outputs_any_hash(r2) {
                Some(r3) => if r3.len() == 0 {
                    Some((private, public))
                } else {
                    None
                },
                None => None,
            },
            None => None,
        },
        None => None,
    }
}

/// What follows the private area, the public area and the creation outputs
/// at the front of `s`, where all of them can be read.
pub open spec fn spec_create_rest(s: Seq<u8>) -> Option<Seq<u8>> {
    match spec_read_tpm2b(s) {
        Some((_private, r1)) => match spec_parse_tpm2b_max(r1, 65535) {
            Some((_public, r2)) => spec_parse_creation_outputs_any_hash(r2),
            None => None,
        },
        None => None,
    }
}

/// The creation data, a creation hash of any length and the creation ticket
/// at the front of `s`, and what follows them.
pub open spec fn spec_parse_creation_outputs_any_hash(s: Seq<u8>) -> Option<Seq<u8>> {
    match crate::creation::spec_parse_tpm2b_creation_data(s) {
        Some((_data, r1)) => match spec_read_tpm2b(r1) {
            Some((_hash, r2)) => match crate::creation::spec_parse_ticket(r2) {
                Some((_ticket, r3)) => Some(r3),
                None => None,
            },
            None => None,
        },
        None => None,
    }
}

impl CreateResponse {
    pub fn parse(bytes: &[u8], auth_count: usize) -> (r: Result<CreateResponse, Error>)
        ensures
            match r {
                Ok(resp) => spec_parse_params_and_auths(bytes@, auth_count as nat) == Some(
                    (resp.parameters@, auth_views(resp.authorizations@)),
                ),
                Err(e) => spec_parse_params_and_auths(bytes@, auth_count as nat) is None && e is InvalidData,
            },
    {
        let mut bytes = bytes;
        let (parameters, authorizations) = parse_response_params_and_authorizations(&mut bytes, auth_count)?;
        Ok(CreateResponse { parameters, authorizations })
    }

    /// The private and public areas, and the authorizations; bytes after the
    /// creation ticket are invalid data.
    pub fn into_parts(self) -> (r: Result<(Tpm2bPrivate, Tpm2bPublic, Vec<TpmsAuthResponse>), Error>)
        ensures
            match r {
                Ok((private, public, auths)) => spec_create_parts(self.parameters@) == Some((private@, public@))
                    && auths@ == self.authorizations@,
                Err(e) => spec_create_parts(self.parameters@) is None && (e is InvalidData || e is Internal)
                    && (spec_create_rest(self.parameters@) is Some ==> e is InvalidData),
            },
    {
        let mut params = self.parameters.as_slice();

        let out_private = Tpm2bPrivate { buffer: read_tpm2b(&mut params)? };
        let out_public = Tpm2bPublic::unmarshal(&mut params)?;
        let _creation_data = Tpm2bCreationData::unmarshal(&mut params)?;
        let _hash = read_tpm2b(&mut params)?;
        let _creation_ticket = TpmtTkCreation::unmarshal(&mut params)?;

        ensure_consumed(params)?;

        Ok((out_private, out_public, self.authorizations))
    }
}

/// A `TPM2_Load` response: the object handle, the parameters and the
/// authorizations.
#[derive(Debug, Clone)]
pub struct LoadResponse {
    pub object_handle: TpmHandle,
    pub parameters: Vec<u8>,
    pub authorizations: Vec<TpmsAuthResponse>,
}

impl LoadResponse {
    pub fn parse(bytes: &[u8], auth_count: usize) -> (r: Result<LoadResponse, Error>)
        ensures
            match r {
                Ok(resp) => spec_read_u32(bytes@) matches Some((h, rest)) && h == resp.object_handle.0
                    && spec_parse_params_and_auths(rest, auth_count as nat) == Some(
                    (resp.parameters@, auth_views(resp.authorizations@)),
                ),
                Err(e) => (spec_read_u32(bytes@) matches Some((h, rest)) ==> spec_parse_params_and_auths(
                    rest,
                    auth_count as nat,
                ) is None) && e is InvalidData,
            },
    {
        let mut bytes = bytes;
        let object_handle = TpmHandle(read_u32(&mut bytes)?);
        let (parameters, authorizations) = parse_response_params_and_authorizations(&mut bytes, auth_count)?;

        Ok(LoadResponse { object_handle, parameters, authorizations })
    }

    /// The object handle and the name. The name must fill the parameters as a
    /// TPM2B, and the parameters must then be empty as well: no parameters
    /// meet both, so this always fails.
    pub fn into_parts(self) -> (r: Result<(TpmHandle, Tpm2bName), Error>)
        ensures
            r is Err,
            r matches Err(e) && e is InvalidData,
    {
        let params = self.parameters.as_slice();
        let name = Tpm2bName { buffer: read_tpm2b_exact(params)? };

        ensure_consumed(params)?;

        Ok((self.object_handle, name))
    }
}

} // verus!
