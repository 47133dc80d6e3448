//! A command header that carries the size of the whole command.
use vstd::prelude::*;

use crate::tpm::TpmCc;
use crate::types::{ST_NO_SESSIONS, ST_SESSIONS};
use crate::wire::{marshal_u32, u16_bytes, u32_bytes};

verus! {

/// The size of a command header: tag, size and code.
pub const TPM_HEADER_SIZE: usize = 10;

/// Whether a command carries an authorization area.
#[derive(Debug, Clone, Copy, PartialEq, Eq, Structural)]
pub enum TpmiStCommandTag {
    NoSessions,
    Sessions,
}

/// The `TPM_ST` value of a command tag.
pub open spec fn spec_command_tag_value(tag: TpmiStCommandTag) -> u16 {
    match tag {
        TpmiStCommandTag::NoSessions => ST_NO_SESSIONS,
        TpmiStCommandTag::Sessions => ST_SESSIONS,
    }
}

impl TpmiStCommandTag {
    /// The big-endian bytes of the tag.
    pub fn to_be_bytes(self) -> (b: [u8; 2])
        ensures
            b@ == u16_bytes(spec_command_tag_value(self)),
    {
        let b: [u8; 2] = match self {
            TpmiStCommandTag::NoSessions => [0x80, 0x01],
            TpmiStCommandTag::Sessions => [0x80, 0x02],
        };
        assert(b@ =~= u16_bytes(spec_command_tag_value(self)));
        b
    }
}

/// The header of a command: its tag, the size of the whole command and its code.
#[derive(Debug, Clone, Copy, PartialEq, Eq, Structural)]
pub struct CommandHeader {
    tag: TpmiStCommandTag,
    command_size: u32,
    command_code: TpmCc,
}

/// The size field of a command whose body is `body_len` bytes long, as the
/// low 32 bits of the header size plus that length.
pub open spec fn spec_command_size(body_len: usize) -> u32 {
    (TPM_HEADER_SIZE + body_len) as u32
}

impl CommandHeader {
    pub closed spec fn spec_tag(&self) -> TpmiStCommandTag {
        self.tag
    }

    pub closed spec fn spec_size(&self) -> u32 {
        self.command_size
    }

    pub closed spec fn spec_code(&self) -> u32 {
        self.command_code.0
    }

    /// The header of a command without sessions and with a body of `body_len` bytes.
    pub fn no_sessions(body_len: usize, command_code: TpmCc) -> (h: CommandHeader)
        requires
            body_len <= usize::MAX - TPM_HEADER_SIZE,
        ensures
            h.spec_tag() == TpmiStCommandTag::NoSessions,
            h.spec_size() == spec_command_size(body_len),
            h.spec_code() == command_code.0,
    {
        CommandHeader {
            tag: TpmiStCommandTag::NoSessions,
            command_size: #[verifier::truncate] ((TPM_HEADER_SIZE + body_len) as u32),
            command_code,
        }
    }

    /// The header of a command with sessions and with a body of `body_len` bytes.
    pub fn with_sessions(body_len: usize, command_code: TpmCc) -> (h: CommandHeader)
        requires
            body_len <= usize::MAX - TPM_HEADER_SIZE,
        ensures
            h.spec_tag() == TpmiStCommandTag::Sessions,
            h.spec_size() == spec_command_size(body_len),
            h.spec_code() == command_code.0,
    {
        CommandHeader {
            tag: TpmiStCommandTag::Sessions,
            command_size: #[verifier::truncate] ((TPM_HEADER_SIZE + body_len) as u32),
            command_code,
        }
    }

    /// The header's bytes: tag, size and code, each big-endian.
    pub fn marshal(&self) -> (encoded: Vec<u8>)
        ensures
            encoded@ == u16_bytes(spec_command_tag_value(self.spec_tag())) + u32_bytes(self.spec_size())
                + u32_bytes(self.spec_code()),
            encoded@.len() == TPM_HEADER_SIZE,
    {
        let mut encoded: Vec<u8> = Vec::new();
        let tag = self.tag.to_be_bytes();
        encoded.push(tag[0]);
        encoded.push(tag[1]);
        marshal_u32(&mut encoded, self.command_size);
        self.command_code.marshal(&mut encoded);
        assert(encoded@ =~= u16_bytes(spec_command_tag_value(self.spec_tag())) + u32_bytes(self.spec_size())
            + u32_bytes(self.spec_code()));
        encoded
    }

    pub fn command_size(&self) -> (s: u32)
        ensures
            s == self.spec_size(),
    {
        self.command_size
    }
}

/// A command without an authorization area is tagged `TPM_ST_NO_SESSIONS`
/// (0x8001), one with an authorization area `TPM_ST_SESSIONS` (0x8002).
pub proof fn law_command_tag_values()
    ensures
        spec_command_tag_value(TpmiStCommandTag::NoSessions) == 0x8001,
        spec_command_tag_value(TpmiStCommandTag::Sessions) == 0x8002,
{
}

} // verus!
