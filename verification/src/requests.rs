//! The commands that the library sends, each built from its arguments:
//! starting a session, the policy assertions, the PCR and random-number
//! reads, reading a public area, making an object persistent and flushing a
//! context.
use vstd::prelude::*;

use crate::cap::{pcr_selection_list_bytes, pcr_selection_list_marshalable, TpmlPcrSelection, TpmsPcrSelection};
use crate::command::{auth_views, Command, CommandModel, TpmsAuthCommand};
use crate::error::Error;
use crate::handle::{TpmHandle, TpmiDhContext, TpmiDhObject, TpmiDhPersistent, TpmiShPolicy, RH_NULL, RH_OWNER};
use crate::tpm::{
    digest_list_bytes, digest_list_wf, Tpm2bDigest, Tpm2bEncryptedSecret, Tpm2bNonce, TpmCc, TpmlDigest, ALG_AES,
    ALG_CFB, ALG_SHA256, CC_CREATE, CC_CREATE_PRIMARY, CC_EVICT_CONTROL, CC_FLUSH_CONTEXT, CC_LOAD,
    CC_GET_CAPABILITY, CC_RSA_ENCRYPT, CC_START_AUTH_SESSION, Tpm2bPrivate, Tpm2bPublic, Tpm2bPublicKeyRsa, TpmiAlgHash,
    ALG_OAEP,
    CC_GET_RANDOM, CC_PCR_READ, CC_POLICY_AUTH_VALUE, CC_POLICY_COMMAND_CODE, CC_POLICY_GET_DIGEST, CC_POLICY_OR,
    CC_POLICY_PASSWORD, CC_POLICY_PCR, CC_READ_PUBLIC,
};
use crate::scheme::{rsa_decrypt_bytes, TpmsSchemeHash, TpmtRsaDecrypt, TpmuRsaScheme};
use crate::types::{
    spec_tpm_cap_value, spec_tpm_se_value, TpmCap, TpmSe, TpmaSession, SESSION_CONTINUE_SESSION, SESSION_DECRYPT, SESSION_ENCRYPT, ST_NO_SESSIONS,
    ST_SESSIONS,
};
use crate::wire::{marshal_u16, marshal_u32, tpm2b_bytes, u16_bytes, u32_bytes};

verus! {

/// A command without sessions: its code, its handles and its parameters.
pub open spec fn plain_command(command_code: u32, handles: Seq<u32>, parameters: Seq<u8>) -> CommandModel {
    CommandModel { tag: ST_NO_SESSIONS, command_code, handles, authorizations: Seq::empty(), parameters }
}

/// A command authorized by `auths`; with none, a command without sessions.
pub open spec fn authorized_command(
    command_code: u32,
    handles: Seq<u32>,
    auths: Seq<TpmsAuthCommand>,
    parameters: Seq<u8>,
) -> CommandModel {
    CommandModel {
        tag: if auths.len() == 0 { ST_NO_SESSIONS } else { ST_SESSIONS },
        command_code,
        handles,
        authorizations: auth_views(auths),
        parameters,
    }
}

fn command_with(command_code: u32, handles: Vec<TpmHandle>, parameters: Vec<u8>) -> (c: Command)
    ensures
        c@ == plain_command(command_code, handles@.map_values(|h: TpmHandle| h.0), parameters@),
{
    Command::new(TpmCc(command_code)).with_handles(handles).with_parameters(parameters)
}

fn one_handle(h: TpmHandle) -> (v: Vec<TpmHandle>)
    ensures
        v@.map_values(|x: TpmHandle| x.0) == seq![h.0],
{
    let mut v: Vec<TpmHandle> = Vec::new();
    v.push(h);
    assert(v@.map_values(|x: TpmHandle| x.0) =~= seq![h.0]);
    v
}

/// The symmetric algorithm of the sessions the library starts
/// (`TPMT_SYM_DEF_OBJECT`): AES with 128-bit keys in CFB mode.
pub open spec fn aes_128_cfb_bytes() -> Seq<u8> {
    u16_bytes(ALG_AES) + u16_bytes(128) + u16_bytes(ALG_CFB)
}

/// The parameters of `TPM2_StartAuthSession`: the caller's nonce, the
/// encrypted salt, the session type, AES-128 in CFB mode for parameter
/// encryption and SHA-256 as the session hash.
pub open spec fn start_auth_session_params(nonce_caller: Seq<u8>, encrypted_salt: Seq<u8>, session_type: TpmSe) -> Seq<
    u8,
> {
    tpm2b_bytes(nonce_caller) + tpm2b_bytes(encrypted_salt) + seq![spec_tpm_se_value(session_type)] + aes_128_cfb_bytes()
        + u16_bytes(ALG_SHA256)
}

/// `TPM2_StartAuthSession`: a session of `session_type`, salted by `tpm_key`
/// where one is given, and bound to no object.
pub fn start_auth_session_command(
    tpm_key: Option<TpmHandle>,
    nonce_caller: &Tpm2bNonce,
    encrypted_salt: &Tpm2bEncryptedSecret,
    session_type: TpmSe,
) -> (r: Result<Command, Error>)
    ensures
        match r {
            Ok(c) => nonce_caller@.len() <= 0xffff && encrypted_salt@.len() <= 0xffff && c@ == plain_command(
                CC_START_AUTH_SESSION,
                seq![
                    match tpm_key {
                        Some(k) => k.0,
                        None => RH_NULL,
                    },
                    RH_NULL,
                ],
                start_auth_session_params(nonce_caller@, encrypted_salt@, session_type),
            ),
            Err(e) => !(nonce_caller@.len() <= 0xffff && encrypted_salt@.len() <= 0xffff) && e is Internal,
        },
{
    let key = match tpm_key {
        Some(k) => k,
        None => TpmHandle(RH_NULL),
    };
    let mut params: Vec<u8> = Vec::new();
    nonce_caller.marshal(&mut params)?;
    encrypted_salt.marshal(&mut params)?;
    let _ = session_type.marshal(&mut params);
    marshal_u16(&mut params, ALG_AES);
    marshal_u16(&mut params, 128);
    marshal_u16(&mut params, ALG_CFB);
    marshal_u16(&mut params, ALG_SHA256);
    assert(params@ =~= start_auth_session_params(nonce_caller@, encrypted_salt@, session_type));
    let mut handles: Vec<TpmHandle> = Vec::new();
    handles.push(key);
    handles.push(TpmHandle(RH_NULL));
    assert(handles@.map_values(|x: TpmHandle| x.0) =~= seq![key.0, RH_NULL]);
    assert(key.0 == match tpm_key {
        Some(k) => k.0,
        None => RH_NULL,
    });
    let c = command_with(CC_START_AUTH_SESSION, handles, params);
    assert(c@.handles =~= seq![
        match tpm_key {
            Some(k) => k.0,
            None => RH_NULL,
        },
        RH_NULL,
    ]);
    Ok(c)
}

/// `TPM2_PolicyPCR`: binds a policy session to the PCRs of `selection` having
/// the values whose digest is `pcr_digest`.
pub fn policy_pcr_command(
    session: TpmiShPolicy,
    pcr_digest: &Tpm2bDigest,
    selection: &TpmsPcrSelection,
) -> (r: Result<Command, Error>)
    ensures
        match r {
            Ok(c) => pcr_digest@.len() <= 0xffff && selection.pcr_select@.len() <= 0xff && c@ == plain_command(
                CC_POLICY_PCR,
                seq![session.0.0],
                tpm2b_bytes(pcr_digest@) + pcr_selection_list_bytes(
                    seq![(selection.hash.0, selection.pcr_select@)],
                ),
            ),
            Err(e) => !(pcr_digest@.len() <= 0xffff && selection.pcr_select@.len() <= 0xff) && e is Internal,
        },
{
    let mut items: Vec<TpmsPcrSelection> = Vec::new();
    items.push(TpmsPcrSelection { hash: selection.hash, pcr_select: selection.pcr_select.clone() });
    let pcrs = TpmlPcrSelection { items };
    assert(pcrs@ =~= seq![(selection.hash.0, selection.pcr_select@)]);
    let mut params: Vec<u8> = Vec::new();
    pcr_digest.marshal(&mut params)?;
    pcrs.marshal(&mut params)?;
    assert(params@ =~= tpm2b_bytes(pcr_digest@) + pcr_selection_list_bytes(pcrs@));
    Ok(command_with(CC_POLICY_PCR, one_handle(session.0), params))
}

/// `TPM2_PolicyCommandCode`: limits a policy session to `command_code`.
pub fn policy_command_code_command(session: TpmiShPolicy, command_code: TpmCc) -> (c: Command)
    ensures
        c@ == plain_command(CC_POLICY_COMMAND_CODE, seq![session.0.0], u32_bytes(command_code.0)),
{
    let mut params: Vec<u8> = Vec::new();
    marshal_u32(&mut params, command_code.0);
    assert(params@ =~= u32_bytes(command_code.0));
    command_with(CC_POLICY_COMMAND_CODE, one_handle(session.0), params)
}

/// `TPM2_PolicyAuthValue`: asks for the authorization value in an HMAC.
pub fn policy_auth_value_command(session: TpmiShPolicy) -> (c: Command)
    ensures
        c@ == plain_command(CC_POLICY_AUTH_VALUE, seq![session.0.0], Seq::empty()),
{
    command_with(CC_POLICY_AUTH_VALUE, one_handle(session.0), Vec::new())
}

/// `TPM2_PolicyPassword`: asks for the authorization value in the clear.
pub fn policy_password_command(session: TpmiShPolicy) -> (c: Command)
    ensures
        c@ == plain_command(CC_POLICY_PASSWORD, seq![session.0.0], Seq::empty()),
{
    command_with(CC_POLICY_PASSWORD, one_handle(session.0), Vec::new())
}

/// `TPM2_PolicyOR` over the digests of the branches.
pub fn policy_or_command(session: TpmiShPolicy, p_hash_list: &TpmlDigest) -> (r: Result<Command, Error>)
    ensures
        match r {
            Ok(c) => digest_list_wf(p_hash_list@) && c@ == plain_command(
                CC_POLICY_OR,
                seq![session.0.0],
                digest_list_bytes(p_hash_list@),
            ),
            Err(e) => !digest_list_wf(p_hash_list@) && e is Internal,
        },
{
    let mut params: Vec<u8> = Vec::new();
    p_hash_list.marshal(&mut params)?;
    assert(params@ =~= digest_list_bytes(p_hash_list@));
    Ok(command_with(CC_POLICY_OR, one_handle(session.0), params))
}

/// `TPM2_PolicyGetDigest`: asks for the digest of a policy session.
pub fn policy_get_digest_command(session: TpmiShPolicy) -> (c: Command)
    ensures
        c@ == plain_command(CC_POLICY_GET_DIGEST, seq![session.0.0], Seq::empty()),
{
    command_with(CC_POLICY_GET_DIGEST, one_handle(session.0), Vec::new())
}

/// `TPM2_PCR_Read` of the PCRs of `selection`.
pub fn pcr_read_command(selection: &TpmlPcrSelection) -> (r: Result<Command, Error>)
    ensures
        match r {
            Ok(c) => pcr_selection_list_marshalable(selection@) && c@ == plain_command(
                CC_PCR_READ,
                Seq::empty(),
                pcr_selection_list_bytes(selection@),
            ),
            Err(e) => !pcr_selection_list_marshalable(selection@) && e is Internal,
        },
{
    let mut params: Vec<u8> = Vec::new();
    selection.marshal(&mut params)?;
    assert(params@ =~= pcr_selection_list_bytes(selection@));
    let c = command_with(CC_PCR_READ, Vec::new(), params);
    assert(c@.handles =~= Seq::<u32>::empty());
    Ok(c)
}

/// `TPM2_GetRandom` of `bytes_requested` bytes, under `auths`.
pub fn get_random_command(bytes_requested: u16, auths: Vec<TpmsAuthCommand>) -> (c: Command)
    ensures
        c@ == authorized_command(CC_GET_RANDOM, Seq::empty(), auths@, u16_bytes(bytes_requested)),
{
    let mut params: Vec<u8> = Vec::new();
    marshal_u16(&mut params, bytes_requested);
    assert(params@ =~= u16_bytes(bytes_requested));
    let ghost a = auths@;
    let c = Command::new(TpmCc(CC_GET_RANDOM)).with_authorization_area(auths).with_parameters(params);
    assert(c@.handles =~= Seq::<u32>::empty());
    assert(a.len() == 0 ==> auth_views(a) =~= Seq::empty());
    c
}

/// `TPM2_ReadPublic` of an object.
pub fn read_public_command(object: TpmiDhObject) -> (c: Command)
    ensures
        c@ == plain_command(CC_READ_PUBLIC, seq![object.0.0], Seq::empty()),
{
    command_with(CC_READ_PUBLIC, one_handle(object.0), Vec::new())
}

/// `TPM2_FlushContext` of a loaded object or session, given with the handles
/// of the command.
pub fn flush_context_command(context: TpmiDhContext) -> (c: Command)
    ensures
        c@ == plain_command(CC_FLUSH_CONTEXT, seq![context.0.0], Seq::empty()),
{
    command_with(CC_FLUSH_CONTEXT, one_handle(context.0), Vec::new())
}

/// `TPM2_EvictControl` by the owner: makes `object` persistent at
/// `persistent_handle`, under `auths`.
pub fn evict_control_command(
    object: TpmiDhObject,
    persistent_handle: TpmiDhPersistent,
    auths: Vec<TpmsAuthCommand>,
) -> (c: Command)
    ensures
        c@ == authorized_command(
            CC_EVICT_CONTROL,
            seq![RH_OWNER, object.0.0],
            auths@,
            u32_bytes(persistent_handle.0.0),
        ),
{
    let mut handles: Vec<TpmHandle> = Vec::new();
    handles.push(TpmHandle(RH_OWNER));
    handles.push(object.0);
    assert(handles@.map_values(|x: TpmHandle| x.0) =~= seq![RH_OWNER, object.0.0]);
    let mut params: Vec<u8> = Vec::new();
    marshal_u32(&mut params, persistent_handle.0.0);
    assert(params@ =~= u32_bytes(persistent_handle.0.0));
    let ghost a = auths@;
    let c = Command::new(TpmCc(CC_EVICT_CONTROL)).with_handles(handles).with_authorization_area(auths).with_parameters(
        params,
    );
    assert(a.len() == 0 ==> auth_views(a) =~= Seq::empty());
    c
}

/// Points an evict command at another persistent handle, as the search for a
/// free one goes on; the parameters are that handle.
pub fn retarget_evict_control(command: &mut Command, persistent_handle: TpmiDhPersistent)
    ensures
        final(command)@ == (CommandModel { parameters: u32_bytes(persistent_handle.0.0), ..old(command)@ }),
{
    let mut params: Vec<u8> = Vec::new();
    marshal_u32(&mut params, persistent_handle.0.0);
    assert(params@ =~= u32_bytes(persistent_handle.0.0));
    command.set_parameters(params);
}

/// The session attributes of a command that creates or loads an object:
/// encrypting the first parameter both ways under a salted session, and
/// keeping the session where `keep` asks for it; nothing under the password
/// session that serves where there is no salt.
pub fn object_session_attrs(salted: bool, keep: bool) -> (a: TpmaSession)
    ensures
        a.0 == if !salted {
            0u8
        } else if keep {
            SESSION_ENCRYPT | SESSION_DECRYPT | SESSION_CONTINUE_SESSION
        } else {
            SESSION_ENCRYPT | SESSION_DECRYPT
        },
{
    if !salted {
        TpmaSession(0)
    } else if keep {
        TpmaSession(SESSION_ENCRYPT | SESSION_DECRYPT | SESSION_CONTINUE_SESSION)
    } else {
        TpmaSession(SESSION_ENCRYPT | SESSION_DECRYPT)
    }
}

/// `TPM2_Create` under `parent`, with the parameters of a creation.
pub fn create_command(parent: TpmHandle, creation_params: Vec<u8>, auths: Vec<TpmsAuthCommand>) -> (c: Command)
    ensures
        c@ == authorized_command(CC_CREATE, seq![parent.0], auths@, creation_params@),
{
    let ghost a = auths@;
    let c = Command::new(TpmCc(CC_CREATE)).with_handles(one_handle(parent)).with_authorization_area(auths)
        .with_parameters(creation_params);
    assert(a.len() == 0 ==> auth_views(a) =~= Seq::empty());
    c
}

/// `TPM2_CreatePrimary` under a hierarchy, with the parameters of a creation.
pub fn create_primary_command(hierarchy: TpmHandle, creation_params: Vec<u8>, auths: Vec<TpmsAuthCommand>) -> (c:
    Command)
    ensures
        c@ == authorized_command(CC_CREATE_PRIMARY, seq![hierarchy.0], auths@, creation_params@),
{
    let ghost a = auths@;
    let c = Command::new(TpmCc(CC_CREATE_PRIMARY)).with_handles(one_handle(hierarchy)).with_authorization_area(auths)
        .with_parameters(creation_params);
    assert(a.len() == 0 ==> auth_views(a) =~= Seq::empty());
    c
}

/// `TPM2_Load` of the areas of an object under `parent`.
pub fn load_command(
    parent: TpmHandle,
    in_private: &Tpm2bPrivate,
    in_public: &Tpm2bPublic,
    auths: Vec<TpmsAuthCommand>,
) -> (r: Result<Command, Error>)
    ensures
        match r {
            Ok(c) => in_private@.len() <= 0xffff && in_public@.len() <= 0xffff && c@ == authorized_command(
                CC_LOAD,
                seq![parent.0],
                auths@,
                tpm2b_bytes(in_private@) + tpm2b_bytes(in_public@),
            ),
            Err(e) => !(in_private@.len() <= 0xffff && in_public@.len() <= 0xffff) && e is Internal,
        },
{
    let mut params: Vec<u8> = Vec::new();
    in_private.marshal(&mut params)?;
    in_public.marshal(&mut params)?;
    assert(params@ =~= tpm2b_bytes(in_private@) + tpm2b_bytes(in_public@));
    let ghost a = auths@;
    let c = Command::new(TpmCc(CC_LOAD)).with_handles(one_handle(parent)).with_authorization_area(auths)
        .with_parameters(params);
    assert(a.len() == 0 ==> auth_views(a) =~= Seq::empty());
    Ok(c)
}

/// `TPM2_GetCapability` of up to `property_count` properties of
/// `capability` from `property` on.
pub fn get_capability_command(capability: TpmCap, property: u32, property_count: u32) -> (c: Command)
    ensures
        c@ == plain_command(
            CC_GET_CAPABILITY,
            Seq::empty(),
            u32_bytes(spec_tpm_cap_value(capability)) + u32_bytes(property) + u32_bytes(property_count),
        ),
{
    let mut params: Vec<u8> = Vec::new();
    marshal_u32(&mut params, capability.value());
    marshal_u32(&mut params, property);
    marshal_u32(&mut params, property_count);
    assert(params@ =~= u32_bytes(spec_tpm_cap_value(capability)) + u32_bytes(property) + u32_bytes(property_count));
    let c = command_with(CC_GET_CAPABILITY, Vec::new(), params);
    assert(c@.handles =~= Seq::<u32>::empty());
    c
}

/// `TPM2_RSA_Encrypt` of `message` under the RSA key `key`, with OAEP and
/// SHA-256 and an empty label, under `auths`.
pub fn rsa_encrypt_command(key: TpmHandle, message: &Tpm2bPublicKeyRsa, auths: Vec<TpmsAuthCommand>) -> (r: Result<
    Command,
    Error,
>)
    ensures
        match r {
            Ok(c) => message@.len() <= 0xffff && c@ == authorized_command(
                CC_RSA_ENCRYPT,
                seq![key.0],
                auths@,
                tpm2b_bytes(message@) + rsa_decrypt_bytes(
                    ALG_OAEP,
                    TpmuRsaScheme::Oaep(TpmsSchemeHash { hash_alg: TpmiAlgHash(ALG_SHA256) }),
                ) + tpm2b_bytes(Seq::empty()),
            ),
            Err(e) => message@.len() > 0xffff && e is Internal,
        },
{
    let scheme = TpmtRsaDecrypt::oaep();
    let mut params: Vec<u8> = Vec::new();
    message.marshal(&mut params)?;
    scheme.marshal(&mut params);
    marshal_u16(&mut params, 0);
    assert(u16_bytes(0) =~= tpm2b_bytes(Seq::<u8>::empty()));
    let ghost a = auths@;
    let c = Command::new(TpmCc(CC_RSA_ENCRYPT)).with_handles(one_handle(key)).with_authorization_area(auths)
        .with_parameters(params);
    assert(a.len() == 0 ==> auth_views(a) =~= Seq::empty());
    Ok(c)
}

} // verus!
