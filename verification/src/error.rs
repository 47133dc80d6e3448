use vstd::prelude::*;

use crate::rc::{
    TpmRc, TpmError, spec_tpm_error, spec_tpm_error_rc, spec_rc_base, is_invalid_key_rc, is_authorization_rc, is_signature_rc, is_exhausted_rc, is_busy_rc, is_unsupported_operation_rc, is_unsupported_value_rc, is_invalid_command_rc, is_invalid_key_code, is_authorization_code, is_signature_code, is_exhausted_code, is_busy_code, is_unsupported_operation_code, is_unsupported_value_code, is_invalid_command_code,
};

verus! {

/// What went wrong, as the library reports it.
#[derive(Debug)]
pub enum Error {
    Failure(ErrorSource),
    Connect(ErrorSource),
    Busy(ErrorSource),
    AuthorizationFailed(ErrorSource),
    InvalidPolicy(&'static str),
    TooLong { name: &'static str, max: usize },
    InvalidSignature(ErrorSource),
    InvalidKey { context: &'static str, source: Option<ErrorSource> },
    InvalidParameter(&'static str),
    PersistentHandleInUse(u32),
    InvalidData,
    CorruptedStore,
    KeyNotFound,
    KeyAlreadyExists(String),
    StorePathUnavailable,
    ResourceExhausted { context: &'static str, source: Option<ErrorSource> },
    StoreIo,
    Store,
    StoreAlreadyExists,
    AlreadyProvisioned,
    NotProvisioned,
    Unsupported { context: &'static str, source: Option<ErrorSource> },
    Internal,
}

/// The lower-level error that an [`Error`] was raised from.
#[derive(Debug, Clone, Copy, PartialEq, Eq, Structural)]
pub enum ErrorSource {
    Tpm(TpmError),
    Tbs(TbsError),
    /// A PCR changed while its values were read.
    PcrValueChanged,
}

/// Errors of the TPM Base Services.
#[derive(Debug, Clone, Copy, PartialEq, Eq, Structural)]
pub enum TbsError {
    ServiceDisabled,
    ServiceNotRunning,
    ServiceStartPending,
    TpmNotFound,
    IoError,
    Internal,
}

pub const TBS_E_INTERNAL_ERROR: u32 = 0x80284001;
pub const TBS_E_BAD_PARAMETER: u32 = 0x80284002;
pub const TBS_E_INSUFFICIENT_BUFFER: u32 = 0x80284005;
pub const TBS_E_IOERROR: u32 = 0x80284006;
pub const TBS_E_SERVICE_NOT_RUNNING: u32 = 0x80284008;
pub const TBS_E_SERVICE_START_PENDING: u32 = 0x8028400B;
pub const TBS_E_TPM_NOT_FOUND: u32 = 0x8028400F;
pub const TBS_E_SERVICE_DISABLED: u32 = 0x80284010;

/// Whether a TBS status says that the service could not be reached.
pub open spec fn is_tbs_connect_code(code: u32) -> bool {
    code == TBS_E_SERVICE_DISABLED || code == TBS_E_SERVICE_NOT_RUNNING
        || code == TBS_E_SERVICE_START_PENDING || code == TBS_E_TPM_NOT_FOUND
}

pub open spec fn spec_tbs_connect(code: u32) -> TbsError {
    if code == TBS_E_SERVICE_DISABLED {
        TbsError::ServiceDisabled
    } else if code == TBS_E_SERVICE_NOT_RUNNING {
        TbsError::ServiceNotRunning
    } else if code == TBS_E_SERVICE_START_PENDING {
        TbsError::ServiceStartPending
    } else {
        TbsError::TpmNotFound
    }
}

/// The error that a failing TBS status is reported as.
pub open spec fn spec_from_tbs_rc(code: u32) -> Error {
    if is_tbs_connect_code(code) {
        Error::Connect(ErrorSource::Tbs(spec_tbs_connect(code)))
    } else if code == TBS_E_BAD_PARAMETER {
        Error::InvalidParameter("invaid parameters")
    } else if code == TBS_E_IOERROR {
        Error::Failure(ErrorSource::Tbs(TbsError::IoError))
    } else if code == TBS_E_INTERNAL_ERROR {
        Error::Failure(ErrorSource::Tbs(TbsError::Internal))
    } else {
        Error::Internal
    }
}

impl TbsError {
    pub fn connect(code: u32) -> (e: TbsError)
        requires
            is_tbs_connect_code(code),
        ensures
            e == spec_tbs_connect(code),
    {
        if code == TBS_E_SERVICE_DISABLED {
            TbsError::ServiceDisabled
        } else if code == TBS_E_SERVICE_NOT_RUNNING {
            TbsError::ServiceNotRunning
        } else if code == TBS_E_SERVICE_START_PENDING {
            TbsError::ServiceStartPending
        } else {
            TbsError::TpmNotFound
        }
    }

    pub fn failure(code: u32) -> (e: TbsError)
        requires
            code == TBS_E_IOERROR,
        ensures
            e == TbsError::IoError,
    {
        TbsError::IoError
    }
}

/// The error that a failing TPM response code is reported as, by the class of its base code.
pub open spec fn spec_from_rc(rc: TpmRc) -> Error {
    let source = ErrorSource::Tpm(spec_tpm_error(rc));
    let base = spec_rc_base(rc@);
    if is_invalid_key_rc(base) {
        Error::InvalidKey { context: "selected key is not valid for the operation", source: Some(source) }
    } else if is_authorization_rc(base) {
        Error::AuthorizationFailed(source)
    } else if is_signature_rc(base) {
        Error::InvalidSignature(source)
    } else if is_exhausted_rc(base) {
        Error::ResourceExhausted { context: "TPM resource exhausted", source: Some(source) }
    } else if is_busy_rc(base) {
        Error::Busy(source)
    } else if is_unsupported_operation_rc(base) {
        Error::Unsupported { context: "TPM does not support the requested operation", source: Some(source) }
    } else if is_unsupported_value_rc(base) {
        Error::Unsupported { context: "TPM does not support the requested value", source: Some(source) }
    } else if is_invalid_command_rc(base) {
        Error::Internal
    } else {
        Error::Failure(source)
    }
}

/// The TPM response code that an error carries, where it came from one.
pub open spec fn spec_error_tpm_rc(e: Error) -> Option<TpmRc> {
    let source = match e {
        Error::Failure(s) => Some(s),
        Error::Connect(s) => Some(s),
        Error::Busy(s) => Some(s),
        Error::AuthorizationFailed(s) => Some(s),
        Error::InvalidSignature(s) => Some(s),
        Error::InvalidKey { source, .. } => source,
        Error::ResourceExhausted { source, .. } => source,
        Error::Unsupported { source, .. } => source,
        _ => None,
    };
    match source {
        Some(ErrorSource::Tpm(t)) => Some(spec_tpm_error_rc(t)),
        _ => None,
    }
}

impl Error {
    pub fn from_tbs_rc(code: u32) -> (e: Error)
        ensures
            e == spec_from_tbs_rc(code),
    {
        if code == TBS_E_SERVICE_DISABLED || code == TBS_E_SERVICE_NOT_RUNNING
            || code == TBS_E_SERVICE_START_PENDING || code == TBS_E_TPM_NOT_FOUND {
            Error::connect(ErrorSource::Tbs(TbsError::connect(code)))
        } else if code == TBS_E_BAD_PARAMETER {
            Error::invalid_param("invaid parameters")
        } else if code == TBS_E_IOERROR {
            Error::failure(ErrorSource::Tbs(TbsError::failure(code)))
        } else if code == TBS_E_INTERNAL_ERROR {
            Error::failure(ErrorSource::Tbs(TbsError::Internal))
        } else {
            Error::Internal
        }
    }

    pub fn from_rc(rc: TpmRc) -> (e: Error)
        ensures
            e == spec_from_rc(rc),
    {
        let source = ErrorSource::Tpm(TpmError::from(rc));
        let base = rc.base().raw();

        if is_invalid_key_code(base) {
            Error::invalid_key_with_source("selected key is not valid for the operation", source)
        } else if is_authorization_code(base) {
            Error::authorization_failed(source)
        } else if is_signature_code(base) {
            Error::invalid_signature(source)
        } else if is_exhausted_code(base) {
            Error::resource_exhausted_with_source("TPM resource exhausted", source)
        } else if is_busy_code(base) {
            Error::busy(source)
        } else if is_unsupported_operation_code(base) {
            Error::unsupported_with_source("TPM does not support the requested operation", source)
        } else if is_unsupported_value_code(base) {
            Error::unsupported_with_source("TPM does not support the requested value", source)
        } else if is_invalid_command_code(base) {
            Error::invalid_tpm_command(rc.raw())
        } else {
            Error::failure(source)
        }
    }

    /// The TPM response code that this error was raised from, if any.
    pub fn tpm_rc(&self) -> (r: Option<TpmRc>)
        ensures
            r == spec_error_tpm_rc(*self),
    {
        let source = match self {
            Error::Failure(s) => Some(*s),
            Error::Connect(s) => Some(*s),
            Error::Busy(s) => Some(*s),
            Error::AuthorizationFailed(s) => Some(*s),
            Error::InvalidSignature(s) => Some(*s),
            Error::InvalidKey { source, .. } => *source,
            Error::ResourceExhausted { source, .. } => *source,
            Error::Unsupported { source, .. } => *source,
            _ => None,
        };
        match source {
            Some(ErrorSource::Tpm(t)) => Some(t.rc()),
            _ => None,
        }
    }

    pub fn connect(source: ErrorSource) -> (e: Error)
        ensures
            e == Error::Connect(source),
    {
        Error::Connect(source)
    }

    pub fn failure(source: ErrorSource) -> (e: Error)
        ensures
            e == Error::Failure(source),
    {
        Error::Failure(source)
    }

    pub fn authorization_failed(source: ErrorSource) -> (e: Error)
        ensures
            e == Error::AuthorizationFailed(source),
    {
        Error::AuthorizationFailed(source)
    }

    pub fn invalid_key_with_source(context: &'static str, source: ErrorSource) -> (e: Error)
        ensures
            e == (Error::InvalidKey { context, source: Some(source) }),
    {
        Error::InvalidKey { context, source: Some(source) }
    }

    pub fn invalid_key(context: &'static str) -> (e: Error)
        ensures
            e == (Error::InvalidKey { context, source: None }),
    {
        Error::InvalidKey { context, source: None }
    }

    pub fn invalid_signature(source: ErrorSource) -> (e: Error)
        ensures
            e == Error::InvalidSignature(source),
    {
        Error::InvalidSignature(source)
    }

    pub fn invalid_param(context: &'static str) -> (e: Error)
        ensures
            e == Error::InvalidParameter(context),
    {
        Error::InvalidParameter(context)
    }

    pub fn corrupted_store() -> (e: Error)
        ensures
            e == Error::CorruptedStore,
    {
        Error::CorruptedStore
    }

    pub fn unsupported(context: &'static str) -> (e: Error)
        ensures
            e == (Error::Unsupported { context, source: None }),
    {
        Error::Unsupported { context, source: None }
    }

    pub fn unsupported_with_source(context: &'static str, source: ErrorSource) -> (e: Error)
        ensures
            e == (Error::Unsupported { context, source: Some(source) }),
    {
        Error::Unsupported { context, source: Some(source) }
    }

    pub fn resource_exhausted(context: &'static str) -> (e: Error)
        ensures
            e == (Error::ResourceExhausted { context, source: None }),
    {
        Error::ResourceExhausted { context, source: None }
    }

    pub fn resource_exhausted_with_source(context: &'static str, source: ErrorSource) -> (e: Error)
        ensures
            e == (Error::ResourceExhausted { context, source: Some(source) }),
    {
        Error::ResourceExhausted { context, source: Some(source) }
    }

    pub fn busy(source: ErrorSource) -> (e: Error)
        ensures
            e == Error::Busy(source),
    {
        Error::Busy(source)
    }

    /// An error of the library's own state; its detail is not kept.
    pub fn invalid_state(context: &'static str) -> (e: Error)
        ensures
            e == Error::Internal,
    {
        Error::Internal
    }

    /// A failed conversion between two TPM types; its detail is not kept.
    pub fn conversion() -> (e: Error)
        ensures
            e == Error::Internal,
    {
        Error::Internal
    }

    /// A well-formed command that the TPM refused; the code is not kept.
    pub fn invalid_tpm_command(rc: u32) -> (e: Error)
        ensures
            e == Error::Internal,
    {
        Error::Internal
    }
}


/// A TPM error keeps the response code it was decoded from.
pub proof fn lemma_tpm_error_keeps_code(rc: TpmRc)
    ensures
        spec_tpm_error_rc(spec_tpm_error(rc)) == rc,
{
}

/// An error raised from a TPM response code carries that code, except where
/// the code says the command itself was malformed, which is an internal error.
pub proof fn lemma_error_keeps_tpm_code(rc: TpmRc)
    requires
        !is_invalid_command_rc(spec_rc_base(rc@)),
    ensures
        spec_error_tpm_rc(spec_from_rc(rc)) == Some(rc),
{
    lemma_tpm_error_keeps_code(rc);
}


/// How a TPM response code is reported. Its base code is the code itself,
/// or for a format-one code (bit 0x080 set) that bit with the error number
/// (the low six bits), the handle, parameter or session number taken away.
/// By the base code: a binding, key or signing-context-key error is an
/// invalid key; an authorization, policy, physical-presence, channel,
/// lockout or PCR error a failed authorization; a signature error an invalid
/// signature; a lack of memory, handles, contexts or NV space exhausted
/// resources; a yielded, testing, NV-rate, retry or NV-unavailable code a
/// busy TPM; a disabled, unknown, upgrading or read-only command an
/// unsupported operation; an unsupported algorithm, size, mode, scheme,
/// curve or parameter an unsupported value; a code that says the command
/// itself was malformed an internal error; anything else a failure. Each but
/// the internal error carries the TPM error of the code.
pub proof fn law_error_from_rc_classes(rc: TpmRc)
    ensures
        ({
            let raw = rc@;
            let base = if raw & 0x080u32 != 0 {
                0x080u32 | (raw & 0x03Fu32)
            } else {
                raw
            };
            let source = ErrorSource::Tpm(spec_tpm_error(rc));
            let e = spec_from_rc(rc);
            let invalid_key = set![0x0A5u32, 0x09Cu32, 0x0ADu32];
            let auth = set![0x08Eu32, 0x0A2u32, 0x090u32, 0x0B0u32, 0x0B1u32, 0x09Du32, 0x0A4u32, 0x0A3u32, 0x125u32, 0x12Fu32, 0x149u32, 0x921u32, 0x126u32, 0x127u32, 0x128u32];
            let sig = set![0x09Bu32];
            let exhausted = set![0x14Bu32, 0x902u32, 0x903u32, 0x904u32, 0x905u32, 0x906u32, 0x12Eu32];
            let busy = set![0x908u32, 0x90Au32, 0x153u32, 0x920u32, 0x922u32, 0x923u32];
            let unsup_op = set![0x120u32, 0x143u32, 0x12Du32, 0x156u32];
            let unsup_val = set![0x081u32, 0x083u32, 0x087u32, 0x088u32, 0x089u32, 0x08Cu32, 0x092u32, 0x096u32, 0x0A6u32, 0x0A8u32, 0x0A9u32, 0x0AAu32, 0x0ABu32, 0x0ACu32];
            let command = set![0x124u32, 0x01Eu32, 0x103u32, 0x131u32, 0x142u32, 0x144u32, 0x145u32, 0x146u32, 0x147u32, 0x150u32, 0x151u32, 0x152u32, 0x901u32, 0x907u32, 0x910u32, 0x911u32, 0x912u32, 0x913u32, 0x914u32, 0x915u32, 0x916u32, 0x918u32, 0x919u32, 0x91Au32, 0x91Bu32, 0x91Cu32, 0x91Du32, 0x91Eu32];
            &&& invalid_key.contains(base) ==> e == (Error::InvalidKey {
                context: "selected key is not valid for the operation",
                source: Some(source),
            })
            &&& auth.contains(base) ==> e == Error::AuthorizationFailed(source)
            &&& sig.contains(base) ==> e == Error::InvalidSignature(source)
            &&& exhausted.contains(base) ==> e == (Error::ResourceExhausted {
                context: "TPM resource exhausted",
                source: Some(source),
            })
            &&& busy.contains(base) ==> e == Error::Busy(source)
            &&& unsup_op.contains(base) ==> e == (Error::Unsupported {
                context: "TPM does not support the requested operation",
                source: Some(source),
            })
            &&& unsup_val.contains(base) ==> e == (Error::Unsupported {
                context: "TPM does not support the requested value",
                source: Some(source),
            })
            &&& command.contains(base) ==> e == Error::Internal
            &&& !(invalid_key.contains(base) || auth.contains(base) || sig.contains(base) || exhausted.contains(base)
                || busy.contains(base) || unsup_op.contains(base) || unsup_val.contains(base) || command.contains(base))
                ==> e == Error::Failure(source)
        }),
{
}


/// How a failing TPM Base Services status is reported: the service disabled
/// (0x80284010), not running (0x80284008), starting (0x8028400B) or no TPM
/// (0x8028400F) is a failure to connect, for that reason; bad parameters
/// (0x80284002) an invalid parameter; an I/O error (0x80284006) or an
/// internal error (0x80284001) of the service a failure for that reason;
/// any other status an internal error.
pub proof fn law_error_from_tbs_rc(code: u32)
    ensures
        spec_from_tbs_rc(0x8028_4010) == Error::Connect(ErrorSource::Tbs(TbsError::ServiceDisabled)),
        spec_from_tbs_rc(0x8028_4008) == Error::Connect(ErrorSource::Tbs(TbsError::ServiceNotRunning)),
        spec_from_tbs_rc(0x8028_400B) == Error::Connect(ErrorSource::Tbs(TbsError::ServiceStartPending)),
        spec_from_tbs_rc(0x8028_400F) == Error::Connect(ErrorSource::Tbs(TbsError::TpmNotFound)),
        spec_from_tbs_rc(0x8028_4002) == Error::InvalidParameter("invaid parameters"),
        spec_from_tbs_rc(0x8028_4006) == Error::Failure(ErrorSource::Tbs(TbsError::IoError)),
        spec_from_tbs_rc(0x8028_4001) == Error::Failure(ErrorSource::Tbs(TbsError::Internal)),
        !(code == 0x8028_4010 || code == 0x8028_4008 || code == 0x8028_400B || code == 0x8028_400F
            || code == 0x8028_4002 || code == 0x8028_4006 || code == 0x8028_4001) ==> spec_from_tbs_rc(code)
            == Error::Internal,
{
}

} // verus!
