//! TPM commands and their wire form.
use vstd::prelude::*;

use crate::error::Error;
use crate::handle::{TpmHandle, TpmiShAuthSession};
use crate::tpm::{Tpm2bAuth, Tpm2bNonce, TpmCc};
use crate::types::{TpmaSession, TpmiStCommandTag, ST_NO_SESSIONS, ST_SESSIONS};
use crate::wire::{concat_map, extend_bytes, marshal_u16, marshal_u32, marshal_u8, tpm2b_bytes, u16_bytes, u32_bytes};

verus! {

/// The size of a command or response header: tag, size and code.
pub const COMMAND_HEADER_SIZE: usize = 10;

/// The tag and code of a command.
#[derive(Debug, Clone, Copy)]
pub struct CommandHeader {
    tag: TpmiStCommandTag,
    command_code: TpmCc,
}

impl CommandHeader {
    pub closed spec fn spec_tag(&self) -> u16 {
        self.tag.0.0
    }

    pub closed spec fn spec_command_code(&self) -> u32 {
        self.command_code.0
    }

    pub fn no_sessions(command_code: TpmCc) -> (h: CommandHeader)
        ensures
            h.spec_tag() == ST_NO_SESSIONS,
            h.spec_command_code() == command_code.0,
    {
        CommandHeader { tag: TpmiStCommandTag::no_sessions(), command_code }
    }

    pub fn use_sessions(&mut self)
        ensures
            final(self).spec_tag() == ST_SESSIONS,
            final(self).spec_command_code() == old(self).spec_command_code(),
    {
        self.tag = TpmiStCommandTag::sessions();
    }

    pub fn tag(&self) -> (t: TpmiStCommandTag)
        ensures
            t.0.0 == self.spec_tag(),
    {
        self.tag
    }

    pub fn command_code(&self) -> (cc: TpmCc)
        ensures
            cc.0 == self.spec_command_code(),
    {
        self.command_code
    }
}

/// One entry of the authorization area of a command (`TPMS_AUTH_COMMAND`).
#[derive(Debug, Clone)]
pub struct TpmsAuthCommand {
    session_handle: TpmiShAuthSession,
    nonce: Tpm2bNonce,
    session_attributes: TpmaSession,
    hmac: Tpm2bAuth,
}

/// What an authorization entry states: its session, nonce, attributes and HMAC.
pub ghost struct AuthCommandModel {
    pub session_handle: u32,
    pub nonce: Seq<u8>,
    pub session_attributes: u8,
    pub hmac: Seq<u8>,
}

impl View for TpmsAuthCommand {
    type V = AuthCommandModel;

    closed spec fn view(&self) -> AuthCommandModel {
        AuthCommandModel {
            session_handle: self.session_handle.0.0,
            nonce: self.nonce@,
            session_attributes: self.session_attributes.0,
            hmac: self.hmac@,
        }
    }
}

/// The bytes of an authorization entry.
pub open spec fn auth_command_bytes(a: AuthCommandModel) -> Seq<u8> {
    u32_bytes(a.session_handle) + tpm2b_bytes(a.nonce) + seq![a.session_attributes] + tpm2b_bytes(a.hmac)
}

/// Whether an authorization entry can be marshaled: its buffers fit their `u16` sizes.
pub open spec fn auth_command_marshalable(a: AuthCommandModel) -> bool {
    a.nonce.len() <= 0xffff && a.hmac.len() <= 0xffff
}

impl TpmsAuthCommand {
    pub fn new(
        session_handle: TpmiShAuthSession,
        nonce: Tpm2bNonce,
        session_attributes: TpmaSession,
        hmac: Tpm2bAuth,
    ) -> (a: TpmsAuthCommand)
        ensures
            a@ == (AuthCommandModel {
                session_handle: session_handle.0.0,
                nonce: nonce@,
                session_attributes: session_attributes.0,
                hmac: hmac@,
            }),
    {
        TpmsAuthCommand { session_handle, nonce, session_attributes, hmac }
    }

    /// An entry of the password session, with an empty nonce and HMAC.
    pub fn password(session_attributes: TpmaSession) -> (a: TpmsAuthCommand)
        ensures
            a@ == (AuthCommandModel {
                session_handle: crate::handle::RS_PW,
                nonce: Seq::empty(),
                session_attributes: session_attributes.0,
                hmac: Seq::empty(),
            }),
    {
        TpmsAuthCommand {
            session_handle: TpmiShAuthSession::rs_pw(),
            nonce: Tpm2bNonce::empty(),
            session_attributes,
            hmac: Tpm2bAuth::empty(),
        }
    }

    pub fn set_hmac(&mut self, hmac: Tpm2bAuth)
        ensures
            final(self)@ == (AuthCommandModel { hmac: hmac@, ..old(self)@ }),
    {
        self.hmac = hmac;
    }

    pub fn session_handle(&self) -> (h: TpmiShAuthSession)
        ensures
            h.0.0 == self@.session_handle,
    {
        self.session_handle
    }

    pub fn nonce(&self) -> (n: &Tpm2bNonce)
        ensures
            n@ == self@.nonce,
    {
        &self.nonce
    }

    pub fn session_attributes(&self) -> (a: TpmaSession)
        ensures
            a.0 == self@.session_attributes,
    {
        self.session_attributes
    }

    pub fn hmac(&self) -> (h: &Tpm2bAuth)
        ensures
            h@ == self@.hmac,
    {
        &self.hmac
    }

    pub fn marshal(&self, buf: &mut Vec<u8>) -> (r: Result<(), Error>)
        ensures
            match r {
                Ok(()) => auth_command_marshalable(self@) && final(buf)@ == old(buf)@ + auth_command_bytes(self@),
                Err(e) => !auth_command_marshalable(self@) && e is Internal,
            },
    {
        let ghost start = buf@;
        if self.nonce.size() > 0xffff || self.hmac.size() > 0xffff {
            return Err(Error::invalid_state("authorization buffer exceeds u16::MAX"));
        }
        marshal_u32(buf, self.session_handle.value());
        let _ = self.nonce.marshal(buf);
        marshal_u8(buf, self.session_attributes.bits());
        let _ = self.hmac.marshal(buf);
        assert(buf@ =~= start + auth_command_bytes(self@));
        Ok(())
    }
}

/// A command: its header, handles, authorization area and marshaled parameters.
pub struct Command {
    header: CommandHeader,
    handles: Vec<TpmHandle>,
    authorization_area: Vec<TpmsAuthCommand>,
    parameters: Vec<u8>,
}

/// What a command states.
pub ghost struct CommandModel {
    pub tag: u16,
    pub command_code: u32,
    pub handles: Seq<u32>,
    pub authorizations: Seq<AuthCommandModel>,
    pub parameters: Seq<u8>,
}

pub open spec fn auth_views(auths: Seq<TpmsAuthCommand>) -> Seq<AuthCommandModel> {
    auths.map_values(|a: TpmsAuthCommand| a@)
}

impl View for Command {
    type V = CommandModel;

    closed spec fn view(&self) -> CommandModel {
        CommandModel {
            tag: self.header.spec_tag(),
            command_code: self.header.spec_command_code(),
            handles: self.handles@.map_values(|h: TpmHandle| h.0),
            authorizations: auth_views(self.authorization_area@),
            parameters: self.parameters@,
        }
    }
}

/// The bytes of an authorization area, one entry after the other.
pub open spec fn authorization_area_bytes(auths: Seq<AuthCommandModel>) -> Seq<u8> {
    concat_map(auths, |a: AuthCommandModel| auth_command_bytes(a))
}

pub open spec fn handles_bytes(handles: Seq<u32>) -> Seq<u8> {
    concat_map(handles, |h: u32| u32_bytes(h))
}

/// The size of a marshaled command: the header, four bytes per handle, the
/// parameters and, where there are authorizations, their size field and bytes.
pub open spec fn spec_command_size(c: CommandModel) -> int {
    let auth_len = authorization_area_bytes(c.authorizations).len();
    COMMAND_HEADER_SIZE + 4 * c.handles.len() + c.parameters.len() + if auth_len == 0 {
        0
    } else {
        4 + auth_len
    }
}

/// Whether a command can be marshaled: every entry fits, and so does the size in a `u32`.
pub open spec fn command_marshalable(c: CommandModel) -> bool {
    &&& forall|i: int| 0 <= i < c.authorizations.len() ==> #[trigger] auth_command_marshalable(c.authorizations[i])
    &&& spec_command_size(c) <= u32::MAX
}

/// The wire form of a command: tag, size, code, handles, the authorization
/// area with its size where it is not empty, then the parameters.
pub open spec fn command_bytes(c: CommandModel) -> Seq<u8> {
    let auth = authorization_area_bytes(c.authorizations);
    u16_bytes(c.tag) + u32_bytes(spec_command_size(c) as u32) + u32_bytes(c.command_code) + handles_bytes(c.handles)
        + (if auth.len() == 0 {
        Seq::empty()
    } else {
        u32_bytes(auth.len() as u32) + auth
    }) + c.parameters
}

/// Whether the tag says "sessions" exactly where there are authorizations:
/// a new command has it, and every way of building or changing one keeps it.
pub open spec fn command_tag_consistent(c: CommandModel) -> bool {
    if c.authorizations.len() == 0 {
        c.tag == ST_NO_SESSIONS
    } else {
        c.tag == ST_SESSIONS
    }
}

impl Command {
    /// A command with no handles, no authorizations and no parameters.
    pub fn new(command_code: TpmCc) -> (c: Command)
        ensures
            c@ == (CommandModel {
                tag: ST_NO_SESSIONS,
                command_code: command_code.0,
                handles: Seq::empty(),
                authorizations: Seq::empty(),
                parameters: Seq::empty(),
            }),
            command_tag_consistent(c@),
    {
        let c = Command {
            header: CommandHeader::no_sessions(command_code),
            handles: Vec::new(),
            authorization_area: Vec::new(),
            parameters: Vec::new(),
        };
        assert(c@.handles =~= Seq::<u32>::empty());
        assert(c@.authorizations =~= Seq::<AuthCommandModel>::empty());
        c
    }

    pub fn with_handles(self, handles: Vec<TpmHandle>) -> (c: Command)
        ensures
            c@ == (CommandModel { handles: handles@.map_values(|h: TpmHandle| h.0), ..self@ }),
            command_tag_consistent(self@) ==> command_tag_consistent(c@),
    {
        let mut c = self;
        c.handles = handles;
        c
    }

    /// Sets the authorization area; a non-empty one switches the tag to "sessions".
    pub fn with_authorization_area(self, authorization_area: Vec<TpmsAuthCommand>) -> (c: Command)
        ensures
            authorization_area@.len() == 0 ==> c@ == self@,
            authorization_area@.len() != 0 ==> c@ == (CommandModel {
                tag: ST_SESSIONS,
                authorizations: auth_views(authorization_area@),
                ..self@
            }),
            command_tag_consistent(self@) ==> command_tag_consistent(c@),
    {
        let mut c = self;
        if authorization_area.len() != 0 {
            c.authorization_area = authorization_area;
            c.header.use_sessions();
        }
        c
    }

    pub fn with_parameters(self, parameters: Vec<u8>) -> (c: Command)
        ensures
            c@ == (CommandModel { parameters: parameters@, ..self@ }),
            command_tag_consistent(self@) ==> command_tag_consistent(c@),
    {
        let mut c = self;
        c.parameters = parameters;
        c
    }

    pub fn header(&self) -> (h: CommandHeader)
        ensures
            h.spec_tag() == self@.tag,
            h.spec_command_code() == self@.command_code,
    {
        self.header
    }

    pub fn handles(&self) -> (h: &[TpmHandle])
        ensures
            h@.map_values(|x: TpmHandle| x.0) == self@.handles,
    {
        self.handles.as_slice()
    }

    pub fn authorization_area(&self) -> (a: &[TpmsAuthCommand])
        ensures
            auth_views(a@) == self@.authorizations,
    {
        self.authorization_area.as_slice()
    }

    pub fn parameters(&self) -> (p: &[u8])
        ensures
            p@ == self@.parameters,
    {
        self.parameters.as_slice()
    }

    /// The parameters, to be changed in place.
    pub fn parameters_mut(&mut self) -> (p: &mut [u8])
        ensures
            p@ == old(self)@.parameters,
            final(self)@ == (CommandModel { parameters: final(p)@, ..old(self)@ }),
            command_tag_consistent(old(self)@) ==> command_tag_consistent(final(self)@),
    {
        self.parameters.as_mut_slice()
    }

    /// The authorization area, to be changed in place.
    pub fn authorization_area_mut(&mut self) -> (a: &mut [TpmsAuthCommand])
        ensures
            auth_views(a@) == old(self)@.authorizations,
            final(self)@ == (CommandModel { authorizations: auth_views(final(a)@), ..old(self)@ }),
    {
        self.authorization_area.as_mut_slice()
    }

    /// Replaces the parameters with bytes of the same length, as a parameter
    /// encryption does in place.
    pub fn set_parameters(&mut self, parameters: Vec<u8>)
        ensures
            final(self)@ == (CommandModel { parameters: parameters@, ..old(self)@ }),
            command_tag_consistent(old(self)@) ==> command_tag_consistent(final(self)@),
    {
        self.parameters = parameters;
    }

    /// Sets the HMAC of the authorization entry at `index`.
    pub fn set_authorization_hmac(&mut self, index: usize, hmac: Tpm2bAuth)
        requires
            index < old(self)@.authorizations.len(),
        ensures
            final(self)@ == (CommandModel {
                authorizations: old(self)@.authorizations.update(
                    index as int,
                    AuthCommandModel { hmac: hmac@, ..old(self)@.authorizations[index as int] },
                ),
                ..old(self)@
            }),
            command_tag_consistent(old(self)@) ==> command_tag_consistent(final(self)@),
    {
        let ghost before = self.authorization_area@;
        let mut entry = self.authorization_area.remove(index);
        entry.set_hmac(hmac);
        self.authorization_area.insert(index, entry);
        assert(auth_views(self.authorization_area@) =~= auth_views(before).update(
            index as int,
            AuthCommandModel { hmac: hmac@, ..auth_views(before)[index as int] },
        ));
    }

    pub fn marshal(&self, buf: &mut Vec<u8>) -> (r: Result<(), Error>)
        ensures
            match r {
                Ok(()) => command_marshalable(self@) && final(buf)@ == old(buf)@ + command_bytes(self@),
                Err(e) => !command_marshalable(self@) && e is Internal,
            },
    {
        let handles = self.handles();
        let authorization_area = self.authorization_area();
        let parameters = self.parameters();
        let ghost c = self@;
        let ghost auths = auth_views(authorization_area@);

        let mut authorization_bytes: Vec<u8> = Vec::new();
        let mut i: usize = 0;
        while i < authorization_area.len()
            invariant
                0 <= i <= authorization_area@.len(),
                auths == auth_views(authorization_area@),
                auths == c.authorizations,
                c == self@,
                forall|j: int| 0 <= j < i ==> #[trigger] auth_command_marshalable(auths[j]),
                authorization_bytes@ == authorization_area_bytes(auths.take(i as int)),
            decreases authorization_area@.len() - i,
        {
            match authorization_area[i].marshal(&mut authorization_bytes) {
                Ok(()) => {}
                Err(e) => {
                    assert(auths[i as int] == authorization_area@[i as int]@);
                    assert(!auth_command_marshalable(c.authorizations[i as int]));
                    return Err(e);
                }
            }
            assert(auths.take(i + 1).drop_last() =~= auths.take(i as int));
            assert(auths.take(i + 1).last() == authorization_area@[i as int]@);
            i += 1;
        }
        assert(auths.take(i as int) =~= auths);

        let auth_len = authorization_bytes.len();
        if handles.len() > 0x4000_0000 || parameters.len() > 0xffff_ffff || auth_len > 0xffff_ffff {
            return Err(Error::invalid_state("TPM command length exceeds u32::MAX"));
        }
        let auth_part: u64 = if auth_len == 0 {
            0
        } else {
            4 + auth_len as u64
        };
        let command_size: u64 = 10 + 4 * (handles.len() as u64) + parameters.len() as u64 + auth_part;
        assert(handles@.map_values(|x: TpmHandle| x.0).len() == handles@.len());
        if command_size > 0xffff_ffff {
            return Err(Error::invalid_state("TPM command length exceeds u32::MAX"));
        }
        let command_size = command_size as u32;

        let ghost start = buf@;
        let header = self.header();
        marshal_u16(buf, header.tag().value());
        marshal_u32(buf, command_size);
        marshal_u32(buf, header.command_code().value());

        let ghost hs = handles@.map_values(|x: TpmHandle| x.0);
        let ghost head = buf@;
        let mut k: usize = 0;
        while k < handles.len()
            invariant
                0 <= k <= handles@.len(),
                hs == handles@.map_values(|x: TpmHandle| x.0),
                buf@ == head + handles_bytes(hs.take(k as int)),
            decreases handles@.len() - k,
        {
            handles[k].marshal(buf);
            assert(hs.take(k + 1).drop_last() =~= hs.take(k as int));
            assert(hs.take(k + 1).last() == handles@[k as int].0);
            k += 1;
        }
        assert(hs.take(k as int) =~= hs);

        if auth_len != 0 {
            marshal_u32(buf, auth_len as u32);
            extend_bytes(buf, authorization_bytes.as_slice());
        }

        extend_bytes(buf, parameters);
        assert(buf@ =~= start + command_bytes(c));

        Ok(())
    }
}


proof fn lemma_handles_bytes_len(handles: Seq<u32>)
    ensures
        handles_bytes(handles).len() == 4 * handles.len(),
    decreases handles.len(),
{
    if handles.len() > 0 {
        lemma_handles_bytes_len(handles.drop_last());
    }
}

/// The size field of a marshaled command is the length of its bytes.
pub proof fn lemma_command_size_is_length(c: CommandModel)
    requires
        command_marshalable(c),
    ensures
        command_bytes(c).len() == spec_command_size(c),
{
    lemma_handles_bytes_len(c.handles);
}


/// The wire form of a command (TPM 2.0 Part 1, 18): the tag, the size of the
/// whole command, the command code and the handles, four bytes each; then,
/// where there is an authorization, the size of the authorization area and
/// each entry (the session handle, the nonce with its `u16` size, the
/// attribute byte, the HMAC with its `u16` size); then the parameters. A
/// command without authorizations has no authorization area at all.
pub proof fn law_command_layout(c: CommandModel)
    requires
        command_marshalable(c),
    ensures
        handles_bytes(c.handles).len() == 4 * c.handles.len(),
        c.authorizations.len() == 0 ==> command_bytes(c) == u16_bytes(c.tag) + u32_bytes(
            (10 + 4 * c.handles.len() + c.parameters.len()) as u32,
        ) + u32_bytes(c.command_code) + handles_bytes(c.handles) + c.parameters,
        c.authorizations.len() == 1 ==> {
            let a = c.authorizations[0];
            let entry = u32_bytes(a.session_handle) + u16_bytes(a.nonce.len() as u16) + a.nonce + seq![
                a.session_attributes,
            ] + u16_bytes(a.hmac.len() as u16) + a.hmac;
            command_bytes(c) == u16_bytes(c.tag) + u32_bytes(
                (10 + 4 * c.handles.len() + 4 + entry.len() + c.parameters.len()) as u32,
            ) + u32_bytes(c.command_code) + handles_bytes(c.handles) + u32_bytes(entry.len() as u32) + entry
                + c.parameters
        },
{
    lemma_handles_bytes_len(c.handles);
    if c.authorizations.len() == 0 {
        assert(authorization_area_bytes(c.authorizations) =~= Seq::<u8>::empty());
    }
    if c.authorizations.len() == 1 {
        let a = c.authorizations[0];
        assert(c.authorizations.drop_last() =~= Seq::<AuthCommandModel>::empty());
        reveal_with_fuel(concat_map, 2);
        assert(authorization_area_bytes(c.authorizations) =~= auth_command_bytes(a));
        assert(auth_command_bytes(a) =~= u32_bytes(a.session_handle) + u16_bytes(a.nonce.len() as u16) + a.nonce
            + seq![a.session_attributes] + u16_bytes(a.hmac.len() as u16) + a.hmac);
    }
}

} // verus!
