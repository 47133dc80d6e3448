use vstd::prelude::*;

verus! {

/// Bit that marks a format-one response code.
pub const RC_FMT1: u32 = 0x080;
/// Base of format-zero (version 1) response codes.
pub const RC_VER1: u32 = 0x100;
/// Base of warning response codes.
pub const RC_WARN: u32 = 0x900;
/// The error number of a format-one response code.
pub const RC_FMT1_ERROR_MASK: u32 = 0x3F;
/// Format-one bit that says the error refers to a parameter.
pub const RC_P: u32 = 0x040;
/// Format-one bits that hold the handle, parameter or session number.
pub const RC_N_MASK: u32 = 0xF00;

pub const RC_SUCCESS: u32 = 0x000;
pub const RC_BAD_TAG: u32 = 0x01E;

pub const RC_INITIALIZE: u32 = 0x100;
pub const RC_FAILURE: u32 = 0x101;
pub const RC_SEQUENCE: u32 = 0x103;
pub const RC_PRIVATE: u32 = 0x10b;
pub const RC_HMAC: u32 = 0x119;
pub const RC_DISABLED: u32 = 0x120;
pub const RC_EXCLUSIVE: u32 = 0x121;
pub const RC_AUTH_TYPE: u32 = 0x124;
pub const RC_AUTH_MISSING: u32 = 0x125;
pub const RC_POLICY: u32 = 0x126;
pub const RC_PCR: u32 = 0x127;
pub const RC_PCR_CHANGED: u32 = 0x128;
pub const RC_UPGRADE: u32 = 0x12d;
pub const RC_TOO_MANY_CONTEXTS: u32 = 0x12e;
pub const RC_AUTH_UNAVAILABLE: u32 = 0x12f;
pub const RC_REBOOT: u32 = 0x130;
pub const RC_UNBALANCED: u32 = 0x131;
pub const RC_COMMAND_SIZE: u32 = 0x142;
pub const RC_COMMAND_CODE: u32 = 0x143;
pub const RC_AUTHSIZE: u32 = 0x144;
pub const RC_AUTH_CONTEXT: u32 = 0x145;
pub const RC_NV_RANGE: u32 = 0x146;
pub const RC_NV_SIZE: u32 = 0x147;
pub const RC_NV_LOCKED: u32 = 0x148;
pub const RC_NV_AUTHORIZATION: u32 = 0x149;
pub const RC_NV_UNINITIALIZED: u32 = 0x14a;
pub const RC_NV_SPACE: u32 = 0x14b;
pub const RC_NV_DEFINED: u32 = 0x14c;
pub const RC_BAD_CONTEXT: u32 = 0x150;
pub const RC_CPHASH: u32 = 0x151;
pub const RC_PARENT: u32 = 0x152;
pub const RC_NEEDS_TEST: u32 = 0x153;
pub const RC_NO_RESULT: u32 = 0x154;
pub const RC_SENSITIVE: u32 = 0x155;
pub const RC_READ_ONLY: u32 = 0x156;
pub const RC_MAX_FM0: u32 = 0x17f;
pub const RC_ASYMMETRIC: u32 = 0x081;
pub const RC_ATTRIBUTES: u32 = 0x082;
pub const RC_HASH: u32 = 0x083;
pub const RC_VALUE: u32 = 0x084;
pub const RC_HIERARCHY: u32 = 0x085;
pub const RC_KEY_SIZE: u32 = 0x087;
pub const RC_MGF: u32 = 0x088;
pub const RC_MODE: u32 = 0x089;
pub const RC_TYPE: u32 = 0x08a;
pub const RC_HANDLE: u32 = 0x08b;
pub const RC_KDF: u32 = 0x08c;
pub const RC_RANGE: u32 = 0x08d;
pub const RC_AUTH_FAIL: u32 = 0x08e;
pub const RC_NONCE: u32 = 0x08f;
pub const RC_PP: u32 = 0x090;
pub const RC_SCHEME: u32 = 0x092;
pub const RC_SIZE: u32 = 0x095;
pub const RC_SYMMETRIC: u32 = 0x096;
pub const RC_TAG: u32 = 0x097;
pub const RC_SELECTOR: u32 = 0x098;
pub const RC_INSUFFICIENT: u32 = 0x09a;
pub const RC_SIGNATURE: u32 = 0x09b;
pub const RC_KEY: u32 = 0x09c;
pub const RC_POLICY_FAIL: u32 = 0x09d;
pub const RC_INTEGRITY: u32 = 0x09f;
pub const RC_TICKET: u32 = 0x0a0;
pub const RC_RESERVED_BITS: u32 = 0x0a1;
pub const RC_BAD_AUTH: u32 = 0x0a2;
pub const RC_EXPIRED: u32 = 0x0a3;
pub const RC_POLICY_CC: u32 = 0x0a4;
pub const RC_BINDING: u32 = 0x0a5;
pub const RC_CURVE: u32 = 0x0a6;
pub const RC_ECC_POINT: u32 = 0x0a7;
pub const RC_FW_LIMITED: u32 = 0x0a8;
pub const RC_SVN_LIMITED: u32 = 0x0a9;
pub const RC_PARMS: u32 = 0x0aa;
pub const RC_EXT_MU: u32 = 0x0ab;
pub const RC_ONE_SHOT_SIGNATURE: u32 = 0x0ac;
pub const RC_SIGN_CONTEXT_KEY: u32 = 0x0ad;
pub const RC_CHANNEL: u32 = 0x0b0;
pub const RC_CHANNEL_KEY: u32 = 0x0b1;
pub const RC_CONTEXT_GAP: u32 = 0x901;
pub const RC_OBJECT_MEMORY: u32 = 0x902;
pub const RC_SESSION_MEMORY: u32 = 0x903;
pub const RC_MEMORY: u32 = 0x904;
pub const RC_SESSION_HANDLES: u32 = 0x905;
pub const RC_OBJECT_HANDLES: u32 = 0x906;
pub const RC_LOCALITY: u32 = 0x907;
pub const RC_YIELDED: u32 = 0x908;
pub const RC_CANCELED: u32 = 0x909;
pub const RC_TESTING: u32 = 0x90a;
pub const RC_REFERENCE_H0: u32 = 0x910;
pub const RC_REFERENCE_H1: u32 = 0x911;
pub const RC_REFERENCE_H2: u32 = 0x912;
pub const RC_REFERENCE_H3: u32 = 0x913;
pub const RC_REFERENCE_H4: u32 = 0x914;
pub const RC_REFERENCE_H5: u32 = 0x915;
pub const RC_REFERENCE_H6: u32 = 0x916;
pub const RC_REFERENCE_S0: u32 = 0x918;
pub const RC_REFERENCE_S1: u32 = 0x919;
pub const RC_REFERENCE_S2: u32 = 0x91a;
pub const RC_REFERENCE_S3: u32 = 0x91b;
pub const RC_REFERENCE_S4: u32 = 0x91c;
pub const RC_REFERENCE_S5: u32 = 0x91d;
pub const RC_REFERENCE_S6: u32 = 0x91e;
pub const RC_NV_RATE: u32 = 0x920;
pub const RC_LOCKOUT: u32 = 0x921;
pub const RC_RETRY: u32 = 0x922;
pub const RC_NV_UNAVAILABLE: u32 = 0x923;
pub const RC_NOT_USED: u32 = 0x97f;

/// A TPM response code (`TPM_RC`).
#[derive(Debug, Clone, Copy, PartialEq, Eq, Structural)]
pub struct TpmRc(pub u32);

impl View for TpmRc {
    type V = u32;

    open spec fn view(&self) -> u32 {
        self.0
    }
}

/// The code that a format-one response code reduces to once its handle,
/// parameter and session number is taken away; other codes stay as they are.
pub open spec fn spec_rc_base(raw: u32) -> u32 {
    if raw & RC_FMT1 != 0 {
        RC_FMT1 | (raw & RC_FMT1_ERROR_MASK)
    } else {
        raw
    }
}

/// The big-endian value of four bytes.
pub open spec fn spec_be_u32_of(b0: u8, b1: u8, b2: u8, b3: u8) -> u32 {
    (((b0 as int * 256 + b1 as int) * 256 + b2 as int) * 256 + b3 as int) as u32
}

impl TpmRc {
    pub fn new(raw: u32) -> (rc: TpmRc)
        ensures
            rc@ == raw,
    {
        TpmRc(raw)
    }

    pub fn from_be_bytes(bytes: [u8; 4]) -> (rc: TpmRc)
        ensures
            rc@ == spec_be_u32_of(bytes[0], bytes[1], bytes[2], bytes[3]),
    {
        let hi: u32 = (bytes[0] as u32) * 256 + (bytes[1] as u32);
        let mid: u32 = hi * 256 + (bytes[2] as u32);
        TpmRc(mid * 256 + (bytes[3] as u32))
    }

    pub fn raw(&self) -> (r: u32)
        ensures
            r == self@,
    {
        self.0
    }

    pub fn value(&self) -> (r: u32)
        ensures
            r == self@,
    {
        self.0
    }

    pub fn base(self) -> (rc: TpmRc)
        ensures
            rc@ == spec_rc_base(self@),
    {
        let raw = self.raw();

        if raw & RC_FMT1 != 0 {
            TpmRc(RC_FMT1 | (raw & RC_FMT1_ERROR_MASK))
        } else {
            self
        }
    }
}

impl From<u32> for TpmRc {
    fn from(raw: u32) -> (rc: TpmRc) {
        TpmRc(raw)
    }
}

impl vstd::std_specs::convert::FromSpecImpl<u32> for TpmRc {
    open spec fn obeys_from_spec() -> bool {
        true
    }

    open spec fn from_spec(raw: u32) -> TpmRc {
        TpmRc(raw)
    }
}

/// A TPM response code, sorted by its format.
#[allow(inconsistent_fields)]
#[derive(Debug, Clone, Copy, PartialEq, Eq, Structural)]
pub enum TpmError {
    FormatOne { rc: TpmRc, kind: FormatOneError, target: ErrorTarget },
    FormatZero { rc: TpmRc, kind: FormatZeroError },
    Warning { rc: TpmRc, kind: TpmWarning },
    Unknown(TpmRc),
}

/// What a format-one response code refers to.
#[derive(Debug, Clone, Copy, PartialEq, Eq, Structural)]
pub enum ErrorTarget {
    Unspecified,
    Parameter(u8),
    Handle(u8),
    Session(u8),
}

#[derive(Debug, Clone, Copy, PartialEq, Eq, Structural)]
pub enum FormatOneError {
    Asymmetric,
    Attributes,
    Hash,
    Value,
    Hierarchy,
    KeySize,
    Mgf,
    Mode,
    Type,
    Handle,
    Kdf,
    Range,
    AuthFail,
    Nonce,
    Pp,
    Scheme,
    Size,
    Symmetric,
    Tag,
    Selector,
    Insufficient,
    Signature,
    Key,
    PolicyFail,
    Integrity,
    Ticket,
    ReservedBits,
    BadAuth,
    Expired,
    PolicyCc,
    Binding,
    Curve,
    EccPoint,
    FwLimited,
    SvnLimited,
    Parms,
    ExtMu,
    OneShotSignature,
    SignContextKey,
    Channel,
    ChannelKey,
}

#[derive(Debug, Clone, Copy, PartialEq, Eq, Structural)]
pub enum FormatZeroError {
    Initialize,
    Failure,
    Sequence,
    Private,
    Hmac,
    Disabled,
    Exclusive,
    AuthType,
    AuthMissing,
    Policy,
    Pcr,
    PcrChanged,
    Upgrade,
    TooManyContexts,
    AuthUnavailable,
    Reboot,
    Unbalanced,
    CommandSize,
    CommandCode,
    AuthSize,
    AuthContext,
    NvRange,
    NvSize,
    NvLocked,
    NvAuthorization,
    NvUninitialized,
    NvSpace,
    NvDefined,
    BadContext,
    CpHash,
    Parent,
    NeedsTest,
    NoResult,
    Sensitive,
    ReadOnly,
}

#[derive(Debug, Clone, Copy, PartialEq, Eq, Structural)]
pub enum TpmWarning {
    ContextGap,
    ObjectMemory,
    SessionMemory,
    Memory,
    SessionHandles,
    ObjectHandles,
    Locality,
    Yielded,
    Canceled,
    Testing,
    ReferenceHandle(u8),
    ReferenceSession(u8),
    NvRate,
    Lockout,
    Retry,
    NvUnavailable,
}

/// The kind of a format-one response code, by its base code.
pub open spec fn spec_format_one_kind(base: u32) -> Option<FormatOneError> {
    if base == RC_ASYMMETRIC {
        Some(FormatOneError::Asymmetric)
    } else if base == RC_ATTRIBUTES {
        Some(FormatOneError::Attributes)
    } else if base == RC_HASH {
        Some(FormatOneError::Hash)
    } else if base == RC_VALUE {
        Some(FormatOneError::Value)
    } else if base == RC_HIERARCHY {
        Some(FormatOneError::Hierarchy)
    } else if base == RC_KEY_SIZE {
        Some(FormatOneError::KeySize)
    } else if base == RC_MGF {
        Some(FormatOneError::Mgf)
    } else if base == RC_MODE {
        Some(FormatOneError::Mode)
    } else if base == RC_TYPE {
        Some(FormatOneError::Type)
    } else if base == RC_HANDLE {
        Some(FormatOneError::Handle)
    } else if base == RC_KDF {
        Some(FormatOneError::Kdf)
    } else if base == RC_RANGE {
        Some(FormatOneError::Range)
    } else if base == RC_AUTH_FAIL {
        Some(FormatOneError::AuthFail)
    } else if base == RC_NONCE {
        Some(FormatOneError::Nonce)
    } else if base == RC_PP {
        Some(FormatOneError::Pp)
    } else if base == RC_SCHEME {
        Some(FormatOneError::Scheme)
    } else if base == RC_SIZE {
        Some(FormatOneError::Size)
    } else if base == RC_SYMMETRIC {
        Some(FormatOneError::Symmetric)
    } else if base == RC_TAG {
        Some(FormatOneError::Tag)
    } else if base == RC_SELECTOR {
        Some(FormatOneError::Selector)
    } else if base == RC_INSUFFICIENT {
        Some(FormatOneError::Insufficient)
    } else if base == RC_SIGNATURE {
        Some(FormatOneError::Signature)
    } else if base == RC_KEY {
        Some(FormatOneError::Key)
    } else if base == RC_POLICY_FAIL {
        Some(FormatOneError::PolicyFail)
    } else if base == RC_INTEGRITY {
        Some(FormatOneError::Integrity)
    } else if base == RC_TICKET {
        Some(FormatOneError::Ticket)
    } else if base == RC_RESERVED_BITS {
        Some(FormatOneError::ReservedBits)
    } else if base == RC_BAD_AUTH {
        Some(FormatOneError::BadAuth)
    } else if base == RC_EXPIRED {
        Some(FormatOneError::Expired)
    } else if base == RC_POLICY_CC {
        Some(FormatOneError::PolicyCc)
    } else if base == RC_BINDING {
        Some(FormatOneError::Binding)
    } else if base == RC_CURVE {
        Some(FormatOneError::Curve)
    } else if base == RC_ECC_POINT {
        Some(FormatOneError::EccPoint)
    } else if base == RC_FW_LIMITED {
        Some(FormatOneError::FwLimited)
    } else if base == RC_SVN_LIMITED {
        Some(FormatOneError::SvnLimited)
    } else if base == RC_PARMS {
        Some(FormatOneError::Parms)
    } else if base == RC_EXT_MU {
        Some(FormatOneError::ExtMu)
    } else if base == RC_ONE_SHOT_SIGNATURE {
        Some(FormatOneError::OneShotSignature)
    } else if base == RC_SIGN_CONTEXT_KEY {
        Some(FormatOneError::SignContextKey)
    } else if base == RC_CHANNEL {
        Some(FormatOneError::Channel)
    } else if base == RC_CHANNEL_KEY {
        Some(FormatOneError::ChannelKey)
    } else {
        None
    }
}

/// The kind of a format-zero response code.
pub open spec fn spec_format_zero_kind(raw: u32) -> Option<FormatZeroError> {
    if raw == RC_INITIALIZE {
        Some(FormatZeroError::Initialize)
    } else if raw == RC_FAILURE {
        Some(FormatZeroError::Failure)
    } else if raw == RC_SEQUENCE {
        Some(FormatZeroError::Sequence)
    } else if raw == RC_PRIVATE {
        Some(FormatZeroError::Private)
    } else if raw == RC_HMAC {
        Some(FormatZeroError::Hmac)
    } else if raw == RC_DISABLED {
        Some(FormatZeroError::Disabled)
    } else if raw == RC_EXCLUSIVE {
        Some(FormatZeroError::Exclusive)
    } else if raw == RC_AUTH_TYPE {
        Some(FormatZeroError::AuthType)
    } else if raw == RC_AUTH_MISSING {
        Some(FormatZeroError::AuthMissing)
    } else if raw == RC_POLICY {
        Some(FormatZeroError::Policy)
    } else if raw == RC_PCR {
        Some(FormatZeroError::Pcr)
    } else if raw == RC_PCR_CHANGED {
        Some(FormatZeroError::PcrChanged)
    } else if raw == RC_UPGRADE {
        Some(FormatZeroError::Upgrade)
    } else if raw == RC_TOO_MANY_CONTEXTS {
        Some(FormatZeroError::TooManyContexts)
    } else if raw == RC_AUTH_UNAVAILABLE {
        Some(FormatZeroError::AuthUnavailable)
    } else if raw == RC_REBOOT {
        Some(FormatZeroError::Reboot)
    } else if raw == RC_UNBALANCED {
        Some(FormatZeroError::Unbalanced)
    } else if raw == RC_COMMAND_SIZE {
        Some(FormatZeroError::CommandSize)
    } else if raw == RC_COMMAND_CODE {
        Some(FormatZeroError::CommandCode)
    } else if raw == RC_AUTHSIZE {
        Some(FormatZeroError::AuthSize)
    } else if raw == RC_AUTH_CONTEXT {
        Some(FormatZeroError::AuthContext)
    } else if raw == RC_NV_RANGE {
        Some(FormatZeroError::NvRange)
    } else if raw == RC_NV_SIZE {
        Some(FormatZeroError::NvSize)
    } else if raw == RC_NV_LOCKED {
        Some(FormatZeroError::NvLocked)
    } else if raw == RC_NV_AUTHORIZATION {
        Some(FormatZeroError::NvAuthorization)
    } else if raw == RC_NV_UNINITIALIZED {
        Some(FormatZeroError::NvUninitialized)
    } else if raw == RC_NV_SPACE {
        Some(FormatZeroError::NvSpace)
    } else if raw == RC_NV_DEFINED {
        Some(FormatZeroError::NvDefined)
    } else if raw == RC_BAD_CONTEXT {
        Some(FormatZeroError::BadContext)
    } else if raw == RC_CPHASH {
        Some(FormatZeroError::CpHash)
    } else if raw == RC_PARENT {
        Some(FormatZeroError::Parent)
    } else if raw == RC_NEEDS_TEST {
        Some(FormatZeroError::NeedsTest)
    } else if raw == RC_NO_RESULT {
        Some(FormatZeroError::NoResult)
    } else if raw == RC_SENSITIVE {
        Some(FormatZeroError::Sensitive)
    } else if raw == RC_READ_ONLY {
        Some(FormatZeroError::ReadOnly)
    } else {
        None
    }
}

/// The kind of a warning response code.
pub open spec fn spec_warning_kind(raw: u32) -> Option<TpmWarning> {
    if raw == RC_CONTEXT_GAP {
        Some(TpmWarning::ContextGap)
    } else if raw == RC_OBJECT_MEMORY {
        Some(TpmWarning::ObjectMemory)
    } else if raw == RC_SESSION_MEMORY {
        Some(TpmWarning::SessionMemory)
    } else if raw == RC_MEMORY {
        Some(TpmWarning::Memory)
    } else if raw == RC_SESSION_HANDLES {
        Some(TpmWarning::SessionHandles)
    } else if raw == RC_OBJECT_HANDLES {
        Some(TpmWarning::ObjectHandles)
    } else if raw == RC_LOCALITY {
        Some(TpmWarning::Locality)
    } else if raw == RC_YIELDED {
        Some(TpmWarning::Yielded)
    } else if raw == RC_CANCELED {
        Some(TpmWarning::Canceled)
    } else if raw == RC_TESTING {
        Some(TpmWarning::Testing)
    } else if raw == RC_REFERENCE_H0 {
        Some(TpmWarning::ReferenceHandle(0))
    } else if raw == RC_REFERENCE_H1 {
        Some(TpmWarning::ReferenceHandle(1))
    } else if raw == RC_REFERENCE_H2 {
        Some(TpmWarning::ReferenceHandle(2))
    } else if raw == RC_REFERENCE_H3 {
        Some(TpmWarning::ReferenceHandle(3))
    } else if raw == RC_REFERENCE_H4 {
        Some(TpmWarning::ReferenceHandle(4))
    } else if raw == RC_REFERENCE_H5 {
        Some(TpmWarning::ReferenceHandle(5))
    } else if raw == RC_REFERENCE_H6 {
        Some(TpmWarning::ReferenceHandle(6))
    } else if raw == RC_REFERENCE_S0 {
        Some(TpmWarning::ReferenceSession(0))
    } else if raw == RC_REFERENCE_S1 {
        Some(TpmWarning::ReferenceSession(1))
    } else if raw == RC_REFERENCE_S2 {
        Some(TpmWarning::ReferenceSession(2))
    } else if raw == RC_REFERENCE_S3 {
        Some(TpmWarning::ReferenceSession(3))
    } else if raw == RC_REFERENCE_S4 {
        Some(TpmWarning::ReferenceSession(4))
    } else if raw == RC_REFERENCE_S5 {
        Some(TpmWarning::ReferenceSession(5))
    } else if raw == RC_REFERENCE_S6 {
        Some(TpmWarning::ReferenceSession(6))
    } else if raw == RC_NV_RATE {
        Some(TpmWarning::NvRate)
    } else if raw == RC_LOCKOUT {
        Some(TpmWarning::Lockout)
    } else if raw == RC_RETRY {
        Some(TpmWarning::Retry)
    } else if raw == RC_NV_UNAVAILABLE {
        Some(TpmWarning::NvUnavailable)
    } else {
        None
    }
}

/// The handle, parameter or session number that a format-one code holds.
pub open spec fn spec_rc_index(raw: u32) -> u8 {
    ((raw & RC_N_MASK) >> 8u32) as u8
}

/// What a format-one response code refers to; `None` where its number is out of range.
pub open spec fn spec_error_target(raw: u32) -> Option<ErrorTarget> {
    let idx = spec_rc_index(raw);
    if raw & RC_P != 0 {
        if idx != 0 {
            Some(ErrorTarget::Parameter(idx))
        } else {
            None
        }
    } else if idx == 0 {
        Some(ErrorTarget::Unspecified)
    } else if 1 <= idx <= 7 {
        Some(ErrorTarget::Handle(idx))
    } else if 9 <= idx <= 15 {
        Some(ErrorTarget::Session((idx - 8) as u8))
    } else {
        None
    }
}

pub open spec fn spec_format_one(rc: TpmRc) -> Option<TpmError> {
    match (spec_format_one_kind(spec_rc_base(rc@)), spec_error_target(rc@)) {
        (Some(kind), Some(target)) => Some(TpmError::FormatOne { rc, kind, target }),
        _ => None,
    }
}

pub open spec fn spec_format_zero(rc: TpmRc) -> Option<TpmError> {
    match spec_format_zero_kind(rc@) {
        Some(kind) => Some(TpmError::FormatZero { rc, kind }),
        None => None,
    }
}

pub open spec fn spec_warning(rc: TpmRc) -> Option<TpmError> {
    match spec_warning_kind(rc@) {
        Some(kind) => Some(TpmError::Warning { rc, kind }),
        None => None,
    }
}

/// The classification of a response code: format one where its format bit is
/// set, a warning where all warning bits are set, format zero otherwise; a code
/// that its class does not know is `Unknown`.
pub open spec fn spec_tpm_error(rc: TpmRc) -> TpmError {
    let found = if rc@ & RC_FMT1 != 0 {
        spec_format_one(rc)
    } else if rc@ & RC_WARN == RC_WARN {
        spec_warning(rc)
    } else {
        spec_format_zero(rc)
    };
    match found {
        Some(e) => e,
        None => TpmError::Unknown(rc),
    }
}

pub open spec fn spec_tpm_error_rc(e: TpmError) -> TpmRc {
    match e {
        TpmError::FormatOne { rc, .. } => rc,
        TpmError::FormatZero { rc, .. } => rc,
        TpmError::Warning { rc, .. } => rc,
        TpmError::Unknown(rc) => rc,
    }
}

fn format_one_kind(base: u32) -> (r: Option<FormatOneError>)
    ensures
        r == spec_format_one_kind(base),
{
    if base == RC_ASYMMETRIC {
        Some(FormatOneError::Asymmetric)
    } else if base == RC_ATTRIBUTES {
        Some(FormatOneError::Attributes)
    } else if base == RC_HASH {
        Some(FormatOneError::Hash)
    } else if base == RC_VALUE {
        Some(FormatOneError::Value)
    } else if base == RC_HIERARCHY {
        Some(FormatOneError::Hierarchy)
    } else if base == RC_KEY_SIZE {
        Some(FormatOneError::KeySize)
    } else if base == RC_MGF {
        Some(FormatOneError::Mgf)
    } else if base == RC_MODE {
        Some(FormatOneError::Mode)
    } else if base == RC_TYPE {
        Some(FormatOneError::Type)
    } else if base == RC_HANDLE {
        Some(FormatOneError::Handle)
    } else if base == RC_KDF {
        Some(FormatOneError::Kdf)
    } else if base == RC_RANGE {
        Some(FormatOneError::Range)
    } else if base == RC_AUTH_FAIL {
        Some(FormatOneError::AuthFail)
    } else if base == RC_NONCE {
        Some(FormatOneError::Nonce)
    } else if base == RC_PP {
        Some(FormatOneError::Pp)
    } else if base == RC_SCHEME {
        Some(FormatOneError::Scheme)
    } else if base == RC_SIZE {
        Some(FormatOneError::Size)
    } else if base == RC_SYMMETRIC {
        Some(FormatOneError::Symmetric)
    } else if base == RC_TAG {
        Some(FormatOneError::Tag)
    } else if base == RC_SELECTOR {
        Some(FormatOneError::Selector)
    } else if base == RC_INSUFFICIENT {
        Some(FormatOneError::Insufficient)
    } else if base == RC_SIGNATURE {
        Some(FormatOneError::Signature)
    } else if base == RC_KEY {
        Some(FormatOneError::Key)
    } else if base == RC_POLICY_FAIL {
        Some(FormatOneError::PolicyFail)
    } else if base == RC_INTEGRITY {
        Some(FormatOneError::Integrity)
    } else if base == RC_TICKET {
        Some(FormatOneError::Ticket)
    } else if base == RC_RESERVED_BITS {
        Some(FormatOneError::ReservedBits)
    } else if base == RC_BAD_AUTH {
        Some(FormatOneError::BadAuth)
    } else if base == RC_EXPIRED {
        Some(FormatOneError::Expired)
    } else if base == RC_POLICY_CC {
        Some(FormatOneError::PolicyCc)
    } else if base == RC_BINDING {
        Some(FormatOneError::Binding)
    } else if base == RC_CURVE {
        Some(FormatOneError::Curve)
    } else if base == RC_ECC_POINT {
        Some(FormatOneError::EccPoint)
    } else if base == RC_FW_LIMITED {
        Some(FormatOneError::FwLimited)
    } else if base == RC_SVN_LIMITED {
        Some(FormatOneError::SvnLimited)
    } else if base == RC_PARMS {
        Some(FormatOneError::Parms)
    } else if base == RC_EXT_MU {
        Some(FormatOneError::ExtMu)
    } else if base == RC_ONE_SHOT_SIGNATURE {
        Some(FormatOneError::OneShotSignature)
    } else if base == RC_SIGN_CONTEXT_KEY {
        Some(FormatOneError::SignContextKey)
    } else if base == RC_CHANNEL {
        Some(FormatOneError::Channel)
    } else if base == RC_CHANNEL_KEY {
        Some(FormatOneError::ChannelKey)
    } else {
        None
    }
}

fn format_zero_kind(raw: u32) -> (r: Option<FormatZeroError>)
    ensures
        r == spec_format_zero_kind(raw),
{
    if raw == RC_INITIALIZE {
        Some(FormatZeroError::Initialize)
    } else if raw == RC_FAILURE {
        Some(FormatZeroError::Failure)
    } else if raw == RC_SEQUENCE {
        Some(FormatZeroError::Sequence)
    } else if raw == RC_PRIVATE {
        Some(FormatZeroError::Private)
    } else if raw == RC_HMAC {
        Some(FormatZeroError::Hmac)
    } else if raw == RC_DISABLED {
        Some(FormatZeroError::Disabled)
    } else if raw == RC_EXCLUSIVE {
        Some(FormatZeroError::Exclusive)
    } else if raw == RC_AUTH_TYPE {
        Some(FormatZeroError::AuthType)
    } else if raw == RC_AUTH_MISSING {
        Some(FormatZeroError::AuthMissing)
    } else if raw == RC_POLICY {
        Some(FormatZeroError::Policy)
    } else if raw == RC_PCR {
        Some(FormatZeroError::Pcr)
    } else if raw == RC_PCR_CHANGED {
        Some(FormatZeroError::PcrChanged)
    } else if raw == RC_UPGRADE {
        Some(FormatZeroError::Upgrade)
    } else if raw == RC_TOO_MANY_CONTEXTS {
        Some(FormatZeroError::TooManyContexts)
    } else if raw == RC_AUTH_UNAVAILABLE {
        Some(FormatZeroError::AuthUnavailable)
    } else if raw == RC_REBOOT {
        Some(FormatZeroError::Reboot)
    } else if raw == RC_UNBALANCED {
        Some(FormatZeroError::Unbalanced)
    } else if raw == RC_COMMAND_SIZE {
        Some(FormatZeroError::CommandSize)
    } else if raw == RC_COMMAND_CODE {
        Some(FormatZeroError::CommandCode)
    } else if raw == RC_AUTHSIZE {
        Some(FormatZeroError::AuthSize)
    } else if raw == RC_AUTH_CONTEXT {
        Some(FormatZeroError::AuthContext)
    } else if raw == RC_NV_RANGE {
        Some(FormatZeroError::NvRange)
    } else if raw == RC_NV_SIZE {
        Some(FormatZeroError::NvSize)
    } else if raw == RC_NV_LOCKED {
        Some(FormatZeroError::NvLocked)
    } else if raw == RC_NV_AUTHORIZATION {
        Some(FormatZeroError::NvAuthorization)
    } else if raw == RC_NV_UNINITIALIZED {
        Some(FormatZeroError::NvUninitialized)
    } else if raw == RC_NV_SPACE {
        Some(FormatZeroError::NvSpace)
    } else if raw == RC_NV_DEFINED {
        Some(FormatZeroError::NvDefined)
    } else if raw == RC_BAD_CONTEXT {
        Some(FormatZeroError::BadContext)
    } else if raw == RC_CPHASH {
        Some(FormatZeroError::CpHash)
    } else if raw == RC_PARENT {
        Some(FormatZeroError::Parent)
    } else if raw == RC_NEEDS_TEST {
        Some(FormatZeroError::NeedsTest)
    } else if raw == RC_NO_RESULT {
        Some(FormatZeroError::NoResult)
    } else if raw == RC_SENSITIVE {
        Some(FormatZeroError::Sensitive)
    } else if raw == RC_READ_ONLY {
        Some(FormatZeroError::ReadOnly)
    } else {
        None
    }
}

fn warning_kind(raw: u32) -> (r: Option<TpmWarning>)
    ensures
        r == spec_warning_kind(raw),
{
    if raw == RC_CONTEXT_GAP {
        Some(TpmWarning::ContextGap)
    } else if raw == RC_OBJECT_MEMORY {
        Some(TpmWarning::ObjectMemory)
    } else if raw == RC_SESSION_MEMORY {
        Some(TpmWarning::SessionMemory)
    } else if raw == RC_MEMORY {
        Some(TpmWarning::Memory)
    } else if raw == RC_SESSION_HANDLES {
        Some(TpmWarning::SessionHandles)
    } else if raw == RC_OBJECT_HANDLES {
        Some(TpmWarning::ObjectHandles)
    } else if raw == RC_LOCALITY {
        Some(TpmWarning::Locality)
    } else if raw == RC_YIELDED {
        Some(TpmWarning::Yielded)
    } else if raw == RC_CANCELED {
        Some(TpmWarning::Canceled)
    } else if raw == RC_TESTING {
        Some(TpmWarning::Testing)
    } else if raw == RC_REFERENCE_H0 {
        Some(TpmWarning::ReferenceHandle(0))
    } else if raw == RC_REFERENCE_H1 {
        Some(TpmWarning::ReferenceHandle(1))
    } else if raw == RC_REFERENCE_H2 {
        Some(TpmWarning::ReferenceHandle(2))
    } else if raw == RC_REFERENCE_H3 {
        Some(TpmWarning::ReferenceHandle(3))
    } else if raw == RC_REFERENCE_H4 {
        Some(TpmWarning::ReferenceHandle(4))
    } else if raw == RC_REFERENCE_H5 {
        Some(TpmWarning::ReferenceHandle(5))
    } else if raw == RC_REFERENCE_H6 {
        Some(TpmWarning::ReferenceHandle(6))
    } else if raw == RC_REFERENCE_S0 {
        Some(TpmWarning::ReferenceSession(0))
    } else if raw == RC_REFERENCE_S1 {
        Some(TpmWarning::ReferenceSession(1))
    } else if raw == RC_REFERENCE_S2 {
        Some(TpmWarning::ReferenceSession(2))
    } else if raw == RC_REFERENCE_S3 {
        Some(TpmWarning::ReferenceSession(3))
    } else if raw == RC_REFERENCE_S4 {
        Some(TpmWarning::ReferenceSession(4))
    } else if raw == RC_REFERENCE_S5 {
        Some(TpmWarning::ReferenceSession(5))
    } else if raw == RC_REFERENCE_S6 {
        Some(TpmWarning::ReferenceSession(6))
    } else if raw == RC_NV_RATE {
        Some(TpmWarning::NvRate)
    } else if raw == RC_LOCKOUT {
        Some(TpmWarning::Lockout)
    } else if raw == RC_RETRY {
        Some(TpmWarning::Retry)
    } else if raw == RC_NV_UNAVAILABLE {
        Some(TpmWarning::NvUnavailable)
    } else {
        None
    }
}

fn error_target(raw: u32) -> (r: Option<ErrorTarget>)
    ensures
        r == spec_error_target(raw),
{
    let idx = ((raw & RC_N_MASK) >> 8u32) as u8;
    if raw & RC_P != 0 {
        if idx != 0 {
            Some(ErrorTarget::Parameter(idx))
        } else {
            None
        }
    } else if idx == 0 {
        Some(ErrorTarget::Unspecified)
    } else if 1 <= idx && idx <= 7 {
        Some(ErrorTarget::Handle(idx))
    } else if 9 <= idx && idx <= 15 {
        Some(ErrorTarget::Session(idx - 8))
    } else {
        None
    }
}

impl TpmError {
    pub fn format_one(rc: TpmRc) -> (r: Option<TpmError>)
        ensures
            r == spec_format_one(rc),
    {
        let kind = match format_one_kind(rc.base().raw()) {
            Some(kind) => kind,
            None => return None,
        };
        let target = match error_target(rc.raw()) {
            Some(target) => target,
            None => return None,
        };
        Some(TpmError::FormatOne { rc, kind, target })
    }

    pub fn format_zero(rc: TpmRc) -> (r: Option<TpmError>)
        ensures
            r == spec_format_zero(rc),
    {
        match format_zero_kind(rc.raw()) {
            Some(kind) => Some(TpmError::FormatZero { rc, kind }),
            None => None,
        }
    }

    pub fn warning(rc: TpmRc) -> (r: Option<TpmError>)
        ensures
            r == spec_warning(rc),
    {
        match warning_kind(rc.raw()) {
            Some(kind) => Some(TpmError::Warning { rc, kind }),
            None => None,
        }
    }

    pub fn rc(&self) -> (rc: TpmRc)
        ensures
            rc == spec_tpm_error_rc(*self),
    {
        match self {
            TpmError::FormatOne { rc, .. } => *rc,
            TpmError::FormatZero { rc, .. } => *rc,
            TpmError::Warning { rc, .. } => *rc,
            TpmError::Unknown(rc) => *rc,
        }
    }
}

impl From<TpmRc> for TpmError {
    fn from(rc: TpmRc) -> (e: TpmError) {
        let raw = rc.raw();
        let found = if raw & RC_FMT1 != 0 {
            TpmError::format_one(rc)
        } else if raw & RC_WARN == RC_WARN {
            TpmError::warning(rc)
        } else {
            TpmError::format_zero(rc)
        };
        match found {
            Some(e) => e,
            None => TpmError::Unknown(rc),
        }
    }
}

impl vstd::std_specs::convert::FromSpecImpl<TpmRc> for TpmError {
    open spec fn obeys_from_spec() -> bool {
        true
    }

    open spec fn from_spec(rc: TpmRc) -> TpmError {
        spec_tpm_error(rc)
    }
}

pub open spec fn is_invalid_key_rc(base: u32) -> bool {
    base == RC_BINDING
        || base == RC_KEY
        || base == RC_SIGN_CONTEXT_KEY
}

pub open spec fn is_authorization_rc(base: u32) -> bool {
    base == RC_AUTH_FAIL
        || base == RC_BAD_AUTH
        || base == RC_PP
        || base == RC_CHANNEL
        || base == RC_CHANNEL_KEY
        || base == RC_POLICY_FAIL
        || base == RC_POLICY_CC
        || base == RC_EXPIRED
        || base == RC_AUTH_MISSING
        || base == RC_AUTH_UNAVAILABLE
        || base == RC_NV_AUTHORIZATION
        || base == RC_LOCKOUT
        || base == RC_POLICY
        || base == RC_PCR
        || base == RC_PCR_CHANGED
}

pub open spec fn is_signature_rc(base: u32) -> bool {
    base == RC_SIGNATURE
}

pub open spec fn is_exhausted_rc(base: u32) -> bool {
    base == RC_NV_SPACE
        || base == RC_OBJECT_MEMORY
        || base == RC_SESSION_MEMORY
        || base == RC_MEMORY
        || base == RC_SESSION_HANDLES
        || base == RC_OBJECT_HANDLES
        || base == RC_TOO_MANY_CONTEXTS
}

pub open spec fn is_busy_rc(base: u32) -> bool {
    base == RC_YIELDED
        || base == RC_TESTING
        || base == RC_NEEDS_TEST
        || base == RC_NV_RATE
        || base == RC_RETRY
        || base == RC_NV_UNAVAILABLE
}

pub open spec fn is_unsupported_operation_rc(base: u32) -> bool {
    base == RC_DISABLED
        || base == RC_COMMAND_CODE
        || base == RC_UPGRADE
        || base == RC_READ_ONLY
}

pub open spec fn is_unsupported_value_rc(base: u32) -> bool {
    base == RC_ASYMMETRIC
        || base == RC_HASH
        || base == RC_KEY_SIZE
        || base == RC_MGF
        || base == RC_MODE
        || base == RC_KDF
        || base == RC_SCHEME
        || base == RC_SYMMETRIC
        || base == RC_CURVE
        || base == RC_FW_LIMITED
        || base == RC_SVN_LIMITED
        || base == RC_PARMS
        || base == RC_EXT_MU
        || base == RC_ONE_SHOT_SIGNATURE
}

pub open spec fn is_invalid_command_rc(base: u32) -> bool {
    base == RC_AUTH_TYPE
        || base == RC_BAD_TAG
        || base == RC_SEQUENCE
        || base == RC_UNBALANCED
        || base == RC_COMMAND_SIZE
        || base == RC_AUTHSIZE
        || base == RC_AUTH_CONTEXT
        || base == RC_NV_RANGE
        || base == RC_NV_SIZE
        || base == RC_BAD_CONTEXT
        || base == RC_CPHASH
        || base == RC_PARENT
        || base == RC_CONTEXT_GAP
        || base == RC_LOCALITY
        || base == RC_REFERENCE_H0
        || base == RC_REFERENCE_H1
        || base == RC_REFERENCE_H2
        || base == RC_REFERENCE_H3
        || base == RC_REFERENCE_H4
        || base == RC_REFERENCE_H5
        || base == RC_REFERENCE_H6
        || base == RC_REFERENCE_S0
        || base == RC_REFERENCE_S1
        || base == RC_REFERENCE_S2
        || base == RC_REFERENCE_S3
        || base == RC_REFERENCE_S4
        || base == RC_REFERENCE_S5
        || base == RC_REFERENCE_S6
}

pub fn is_invalid_key_code(base: u32) -> (b: bool)
    ensures
        b == is_invalid_key_rc(base),
{
    base == RC_BINDING
    || base == RC_KEY
    || base == RC_SIGN_CONTEXT_KEY
}

pub fn is_authorization_code(base: u32) -> (b: bool)
    ensures
        b == is_authorization_rc(base),
{
    base == RC_AUTH_FAIL
    || base == RC_BAD_AUTH
    || base == RC_PP
    || base == RC_CHANNEL
    || base == RC_CHANNEL_KEY
    || base == RC_POLICY_FAIL
    || base == RC_POLICY_CC
    || base == RC_EXPIRED
    || base == RC_AUTH_MISSING
    || base == RC_AUTH_UNAVAILABLE
    || base == RC_NV_AUTHORIZATION
    || base == RC_LOCKOUT
    || base == RC_POLICY
    || base == RC_PCR
    || base == RC_PCR_CHANGED
}

pub fn is_signature_code(base: u32) -> (b: bool)
    ensures
        b == is_signature_rc(base),
{
    base == RC_SIGNATURE
}

pub fn is_exhausted_code(base: u32) -> (b: bool)
    ensures
        b == is_exhausted_rc(base),
{
    base == RC_NV_SPACE
    || base == RC_OBJECT_MEMORY
    || base == RC_SESSION_MEMORY
    || base == RC_MEMORY
    || base == RC_SESSION_HANDLES
    || base == RC_OBJECT_HANDLES
    || base == RC_TOO_MANY_CONTEXTS
}

pub fn is_busy_code(base: u32) -> (b: bool)
    ensures
        b == is_busy_rc(base),
{
    base == RC_YIELDED
    || base == RC_TESTING
    || base == RC_NEEDS_TEST
    || base == RC_NV_RATE
    || base == RC_RETRY
    || base == RC_NV_UNAVAILABLE
}

pub fn is_unsupported_operation_code(base: u32) -> (b: bool)
    ensures
        b == is_unsupported_operation_rc(base),
{
    base == RC_DISABLED
    || base == RC_COMMAND_CODE
    || base == RC_UPGRADE
    || base == RC_READ_ONLY
}

pub fn is_unsupported_value_code(base: u32) -> (b: bool)
    ensures
        b == is_unsupported_value_rc(base),
{
    base == RC_ASYMMETRIC
    || base == RC_HASH
    || base == RC_KEY_SIZE
    || base == RC_MGF
    || base == RC_MODE
    || base == RC_KDF
    || base == RC_SCHEME
    || base == RC_SYMMETRIC
    || base == RC_CURVE
    || base == RC_FW_LIMITED
    || base == RC_SVN_LIMITED
    || base == RC_PARMS
    || base == RC_EXT_MU
    || base == RC_ONE_SHOT_SIGNATURE
}

pub fn is_invalid_command_code(base: u32) -> (b: bool)
    ensures
        b == is_invalid_command_rc(base),
{
    base == RC_AUTH_TYPE
    || base == RC_BAD_TAG
    || base == RC_SEQUENCE
    || base == RC_UNBALANCED
    || base == RC_COMMAND_SIZE
    || base == RC_AUTHSIZE
    || base == RC_AUTH_CONTEXT
    || base == RC_NV_RANGE
    || base == RC_NV_SIZE
    || base == RC_BAD_CONTEXT
    || base == RC_CPHASH
    || base == RC_PARENT
    || base == RC_CONTEXT_GAP
    || base == RC_LOCALITY
    || base == RC_REFERENCE_H0
    || base == RC_REFERENCE_H1
    || base == RC_REFERENCE_H2
    || base == RC_REFERENCE_H3
    || base == RC_REFERENCE_H4
    || base == RC_REFERENCE_H5
    || base == RC_REFERENCE_H6
    || base == RC_REFERENCE_S0
    || base == RC_REFERENCE_S1
    || base == RC_REFERENCE_S2
    || base == RC_REFERENCE_S3
    || base == RC_REFERENCE_S4
    || base == RC_REFERENCE_S5
    || base == RC_REFERENCE_S6
}

/// The kind of each format-one base code, by its number (0x080 and the error
/// number): 0x081 an unsupported asymmetric algorithm through 0x0B1 a wrong
/// channel key, as the TPM specification numbers them.
pub proof fn law_format_one_kinds()
    ensures
        spec_format_one_kind(0x081) == Some(FormatOneError::Asymmetric),
        spec_format_one_kind(0x082) == Some(FormatOneError::Attributes),
        spec_format_one_kind(0x083) == Some(FormatOneError::Hash),
        spec_format_one_kind(0x084) == Some(FormatOneError::Value),
        spec_format_one_kind(0x085) == Some(FormatOneError::Hierarchy),
        spec_format_one_kind(0x087) == Some(FormatOneError::KeySize),
        spec_format_one_kind(0x088) == Some(FormatOneError::Mgf),
        spec_format_one_kind(0x089) == Some(FormatOneError::Mode),
        spec_format_one_kind(0x08A) == Some(FormatOneError::Type),
        spec_format_one_kind(0x08B) == Some(FormatOneError::Handle),
        spec_format_one_kind(0x08C) == Some(FormatOneError::Kdf),
        spec_format_one_kind(0x08D) == Some(FormatOneError::Range),
        spec_format_one_kind(0x08E) == Some(FormatOneError::AuthFail),
        spec_format_one_kind(0x08F) == Some(FormatOneError::Nonce),
        spec_format_one_kind(0x090) == Some(FormatOneError::Pp),
        spec_format_one_kind(0x092) == Some(FormatOneError::Scheme),
        spec_format_one_kind(0x095) == Some(FormatOneError::Size),
        spec_format_one_kind(0x096) == Some(FormatOneError::Symmetric),
        spec_format_one_kind(0x097) == Some(FormatOneError::Tag),
        spec_format_one_kind(0x098) == Some(FormatOneError::Selector),
        spec_format_one_kind(0x09A) == Some(FormatOneError::Insufficient),
        spec_format_one_kind(0x09B) == Some(FormatOneError::Signature),
        spec_format_one_kind(0x09C) == Some(FormatOneError::Key),
        spec_format_one_kind(0x09D) == Some(FormatOneError::PolicyFail),
        spec_format_one_kind(0x09F) == Some(FormatOneError::Integrity),
        spec_format_one_kind(0x0A0) == Some(FormatOneError::Ticket),
        spec_format_one_kind(0x0A1) == Some(FormatOneError::ReservedBits),
        spec_format_one_kind(0x0A2) == Some(FormatOneError::BadAuth),
        spec_format_one_kind(0x0A3) == Some(FormatOneError::Expired),
        spec_format_one_kind(0x0A4) == Some(FormatOneError::PolicyCc),
        spec_format_one_kind(0x0A5) == Some(FormatOneError::Binding),
        spec_format_one_kind(0x0A6) == Some(FormatOneError::Curve),
        spec_format_one_kind(0x0A7) == Some(FormatOneError::EccPoint),
        spec_format_one_kind(0x0A8) == Some(FormatOneError::FwLimited),
        spec_format_one_kind(0x0A9) == Some(FormatOneError::SvnLimited),
        spec_format_one_kind(0x0AA) == Some(FormatOneError::Parms),
        spec_format_one_kind(0x0AB) == Some(FormatOneError::ExtMu),
        spec_format_one_kind(0x0AC) == Some(FormatOneError::OneShotSignature),
        spec_format_one_kind(0x0AD) == Some(FormatOneError::SignContextKey),
        spec_format_one_kind(0x0B0) == Some(FormatOneError::Channel),
        spec_format_one_kind(0x0B1) == Some(FormatOneError::ChannelKey),
{
}

/// The kind of each format-zero code, by its number (0x100 and the error
/// number): 0x100 not initialized through 0x156 a read-only command.
pub proof fn law_format_zero_kinds()
    ensures
        spec_format_zero_kind(0x100) == Some(FormatZeroError::Initialize),
        spec_format_zero_kind(0x101) == Some(FormatZeroError::Failure),
        spec_format_zero_kind(0x103) == Some(FormatZeroError::Sequence),
        spec_format_zero_kind(0x10B) == Some(FormatZeroError::Private),
        spec_format_zero_kind(0x119) == Some(FormatZeroError::Hmac),
        spec_format_zero_kind(0x120) == Some(FormatZeroError::Disabled),
        spec_format_zero_kind(0x121) == Some(FormatZeroError::Exclusive),
        spec_format_zero_kind(0x124) == Some(FormatZeroError::AuthType),
        spec_format_zero_kind(0x125) == Some(FormatZeroError::AuthMissing),
        spec_format_zero_kind(0x126) == Some(FormatZeroError::Policy),
        spec_format_zero_kind(0x127) == Some(FormatZeroError::Pcr),
        spec_format_zero_kind(0x128) == Some(FormatZeroError::PcrChanged),
        spec_format_zero_kind(0x12D) == Some(FormatZeroError::Upgrade),
        spec_format_zero_kind(0x12E) == Some(FormatZeroError::TooManyContexts),
        spec_format_zero_kind(0x12F) == Some(FormatZeroError::AuthUnavailable),
        spec_format_zero_kind(0x130) == Some(FormatZeroError::Reboot),
        spec_format_zero_kind(0x131) == Some(FormatZeroError::Unbalanced),
        spec_format_zero_kind(0x142) == Some(FormatZeroError::CommandSize),
        spec_format_zero_kind(0x143) == Some(FormatZeroError::CommandCode),
        spec_format_zero_kind(0x144) == Some(FormatZeroError::AuthSize),
        spec_format_zero_kind(0x145) == Some(FormatZeroError::AuthContext),
        spec_format_zero_kind(0x146) == Some(FormatZeroError::NvRange),
        spec_format_zero_kind(0x147) == Some(FormatZeroError::NvSize),
        spec_format_zero_kind(0x148) == Some(FormatZeroError::NvLocked),
        spec_format_zero_kind(0x149) == Some(FormatZeroError::NvAuthorization),
        spec_format_zero_kind(0x14A) == Some(FormatZeroError::NvUninitialized),
        spec_format_zero_kind(0x14B) == Some(FormatZeroError::NvSpace),
        spec_format_zero_kind(0x14C) == Some(FormatZeroError::NvDefined),
        spec_format_zero_kind(0x150) == Some(FormatZeroError::BadContext),
        spec_format_zero_kind(0x151) == Some(FormatZeroError::CpHash),
        spec_format_zero_kind(0x152) == Some(FormatZeroError::Parent),
        spec_format_zero_kind(0x153) == Some(FormatZeroError::NeedsTest),
        spec_format_zero_kind(0x154) == Some(FormatZeroError::NoResult),
        spec_format_zero_kind(0x155) == Some(FormatZeroError::Sensitive),
        spec_format_zero_kind(0x156) == Some(FormatZeroError::ReadOnly),
{
}

/// The kind of each warning, by its number (0x900 and the warning number):
/// 0x901 a context gap through 0x923 NV unavailable; 0x910 to 0x916 refer to
/// handles 0 to 6, 0x918 to 0x91E to sessions 0 to 6.
pub proof fn law_warning_kinds()
    ensures
        spec_warning_kind(0x901) == Some(TpmWarning::ContextGap),
        spec_warning_kind(0x902) == Some(TpmWarning::ObjectMemory),
        spec_warning_kind(0x903) == Some(TpmWarning::SessionMemory),
        spec_warning_kind(0x904) == Some(TpmWarning::Memory),
        spec_warning_kind(0x905) == Some(TpmWarning::SessionHandles),
        spec_warning_kind(0x906) == Some(TpmWarning::ObjectHandles),
        spec_warning_kind(0x907) == Some(TpmWarning::Locality),
        spec_warning_kind(0x908) == Some(TpmWarning::Yielded),
        spec_warning_kind(0x909) == Some(TpmWarning::Canceled),
        spec_warning_kind(0x90A) == Some(TpmWarning::Testing),
        spec_warning_kind(0x910) == Some(TpmWarning::ReferenceHandle(0)),
        spec_warning_kind(0x911) == Some(TpmWarning::ReferenceHandle(1)),
        spec_warning_kind(0x912) == Some(TpmWarning::ReferenceHandle(2)),
        spec_warning_kind(0x913) == Some(TpmWarning::ReferenceHandle(3)),
        spec_warning_kind(0x914) == Some(TpmWarning::ReferenceHandle(4)),
        spec_warning_kind(0x915) == Some(TpmWarning::ReferenceHandle(5)),
        spec_warning_kind(0x916) == Some(TpmWarning::ReferenceHandle(6)),
        spec_warning_kind(0x918) == Some(TpmWarning::ReferenceSession(0)),
        spec_warning_kind(0x919) == Some(TpmWarning::ReferenceSession(1)),
        spec_warning_kind(0x91A) == Some(TpmWarning::ReferenceSession(2)),
        spec_warning_kind(0x91B) == Some(TpmWarning::ReferenceSession(3)),
        spec_warning_kind(0x91C) == Some(TpmWarning::ReferenceSession(4)),
        spec_warning_kind(0x91D) == Some(TpmWarning::ReferenceSession(5)),
        spec_warning_kind(0x91E) == Some(TpmWarning::ReferenceSession(6)),
        spec_warning_kind(0x920) == Some(TpmWarning::NvRate),
        spec_warning_kind(0x921) == Some(TpmWarning::Lockout),
        spec_warning_kind(0x922) == Some(TpmWarning::Retry),
        spec_warning_kind(0x923) == Some(TpmWarning::NvUnavailable),
{
}


/// What a format-one response code refers to, by its bits: with the
/// parameter bit (0x040) set, the parameter whose number is in bits 8 to 11
/// (number 0 is no parameter); without it, a number of 0 refers to nothing
/// in particular, 1 to 7 to that handle, 9 to 15 to the session of that
/// number less 8, and 8 to nothing that exists.
pub proof fn law_error_target(raw: u32)
    ensures
        ({
            let n = ((raw & 0xF00u32) >> 8u32) as u8;
            let t = spec_error_target(raw);
            &&& raw & 0x040u32 != 0 ==> t == if n != 0 {
                Some(ErrorTarget::Parameter(n))
            } else {
                None
            }
            &&& raw & 0x040u32 == 0 ==> {
                &&& n == 0 ==> t == Some(ErrorTarget::Unspecified)
                &&& 1 <= n <= 7 ==> t == Some(ErrorTarget::Handle(n))
                &&& n == 8 ==> t is None
                &&& 9 <= n <= 15 ==> t == Some(ErrorTarget::Session((n - 8) as u8))
            }
        }),
{
}


/// How a response code is sorted, by its bits: a code with the format-one
/// bit (0x080) set is a format-one error of its base code, a code with both
/// warning bits (0x900) set a warning, any other a format-zero error; where
/// its class does not know the code, or a format-one code refers to nothing
/// that exists, it is unknown. Each keeps the code it came from.
pub proof fn law_tpm_error_class(rc: TpmRc)
    ensures
        ({
            let raw = rc@;
            let e = spec_tpm_error(rc);
            let base = 0x080u32 | (raw & 0x03Fu32);
            &&& raw & 0x080u32 != 0 ==> e == match (spec_format_one_kind(base), spec_error_target(raw)) {
                (Some(kind), Some(target)) => TpmError::FormatOne { rc, kind, target },
                _ => TpmError::Unknown(rc),
            }
            &&& (raw & 0x080u32 == 0 && raw & 0x900u32 == 0x900u32) ==> e == match spec_warning_kind(raw) {
                Some(kind) => TpmError::Warning { rc, kind },
                None => TpmError::Unknown(rc),
            }
            &&& (raw & 0x080u32 == 0 && raw & 0x900u32 != 0x900u32) ==> e == match spec_format_zero_kind(raw) {
                Some(kind) => TpmError::FormatZero { rc, kind },
                None => TpmError::Unknown(rc),
            }
            &&& spec_tpm_error_rc(e) == rc
        }),
{
}

} // verus!
