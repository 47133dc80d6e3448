//! TPM handles and the interface types that restrict them.
use vstd::prelude::*;
use vstd::std_specs::convert::{FromSpecImpl, TryFromSpecImpl};

use crate::error::Error;

verus! {

pub const HR_PCR_FIRST: u32 = 0x0000_0000;
pub const HR_PCR_LAST: u32 = 0x0000_0017;
pub const HR_NV_INDEX_FIRST: u32 = 0x0100_0000;
pub const HR_NV_INDEX_LAST: u32 = 0x01FF_FFFF;
pub const HR_HMAC_SESSION_FIRST: u32 = 0x0200_0000;
pub const HR_HMAC_SESSION_LAST: u32 = 0x02FF_FFFF;
pub const HR_POLICY_SESSION_FIRST: u32 = 0x0300_0000;
pub const HR_POLICY_SESSION_LAST: u32 = 0x03FF_FFFF;
pub const HR_TRANSIENT_FIRST: u32 = 0x8000_0000;
pub const HR_TRANSIENT_LAST: u32 = 0x80FF_FFFF;
pub const HR_PERSISTENT_FIRST: u32 = 0x8100_0000;
pub const HR_PERSISTENT_LAST: u32 = 0x81FF_FFFF;
/// The persistent handles that the owner's storage may use.
pub const HR_STORAGE_AVAILABLE_FIRST: u32 = 0x8100_0000;
pub const HR_STORAGE_AVAILABLE_LAST: u32 = 0x8100_FFFF;

pub const RH_OWNER: u32 = 0x4000_0001;
pub const RH_NULL: u32 = 0x4000_0007;
pub const RS_PW: u32 = 0x4000_0009;
pub const RH_LOCKOUT: u32 = 0x4000_000A;
pub const RH_ENDORSEMENT: u32 = 0x4000_000B;
pub const RH_PLATFORM: u32 = 0x4000_000C;
pub const RH_AUTH_00: u32 = 0x4000_0010;
pub const RH_AUTH_FF: u32 = 0x4000_010F;

pub open spec fn is_hmac_session_handle(v: u32) -> bool {
    HR_HMAC_SESSION_FIRST <= v <= HR_HMAC_SESSION_LAST
}

pub open spec fn is_policy_session_handle(v: u32) -> bool {
    HR_POLICY_SESSION_FIRST <= v <= HR_POLICY_SESSION_LAST
}

pub open spec fn is_auth_session_handle(v: u32) -> bool {
    is_hmac_session_handle(v) || is_policy_session_handle(v)
}

pub open spec fn is_transient_handle(v: u32) -> bool {
    HR_TRANSIENT_FIRST <= v <= HR_TRANSIENT_LAST
}

pub open spec fn is_persistent_handle(v: u32) -> bool {
    HR_PERSISTENT_FIRST <= v <= HR_PERSISTENT_LAST
}

/// An object handle: a transient or a persistent one.
pub open spec fn is_object_handle(v: u32) -> bool {
    is_transient_handle(v) || is_persistent_handle(v)
}

pub open spec fn is_hierarchy_handle_value(v: u32) -> bool {
    v == RH_OWNER || v == RH_ENDORSEMENT || v == RH_PLATFORM || v == RH_LOCKOUT || v == RH_NULL
}

/// A handle that may stand for an entity with an authorization value.
pub open spec fn is_entity_handle(v: u32) -> bool {
    is_hierarchy_handle_value(v) || is_object_handle(v) || HR_NV_INDEX_FIRST <= v <= HR_NV_INDEX_LAST
        || HR_PCR_FIRST <= v <= HR_PCR_LAST || RH_AUTH_00 <= v <= RH_AUTH_FF
}

/// A handle that `TPM2_FlushContext` accepts: a session or a transient object.
pub open spec fn is_context_handle(v: u32) -> bool {
    is_auth_session_handle(v) || is_transient_handle(v)
}

/// A TPM handle (`TPM_HANDLE`).
#[derive(Debug, Clone, Copy, PartialEq, Eq, Structural)]
pub struct TpmHandle(pub u32);

impl TpmHandle {
    pub fn value(&self) -> (v: u32)
        ensures
            v == self.0,
    {
        self.0
    }

    /// Whether the handle is one of the hierarchies, whose name is the handle itself.
    pub fn is_hierarchy_handle(&self) -> (b: bool)
        ensures
            b == is_hierarchy_handle_value(self.0),
    {
        let v = self.0;
        v == RH_OWNER || v == RH_ENDORSEMENT || v == RH_PLATFORM || v == RH_LOCKOUT || v == RH_NULL
    }
}

impl From<u32> for TpmHandle {
    fn from(value: u32) -> (h: TpmHandle) {
        TpmHandle(value)
    }
}

impl FromSpecImpl<u32> for TpmHandle {
    open spec fn obeys_from_spec() -> bool {
        true
    }

    open spec fn from_spec(value: u32) -> TpmHandle {
        TpmHandle(value)
    }
}

/// A handle of an HMAC or policy session (`TPMI_SH_AUTH_SESSION`), or the password session.
#[derive(Debug, Clone, Copy, PartialEq, Eq, Structural)]
pub struct TpmiShAuthSession(pub TpmHandle);

/// A policy session handle (`TPMI_SH_POLICY`).
#[derive(Debug, Clone, Copy, PartialEq, Eq, Structural)]
pub struct TpmiShPolicy(pub TpmHandle);

/// An HMAC session handle (`TPMI_SH_HMAC`).
#[derive(Debug, Clone, Copy, PartialEq, Eq, Structural)]
pub struct TpmiShHmac(pub TpmHandle);

/// A handle that can be flushed (`TPMI_DH_CONTEXT`).
#[derive(Debug, Clone, Copy, PartialEq, Eq, Structural)]
pub struct TpmiDhContext(pub TpmHandle);

/// A handle of an entity (`TPMI_DH_ENTITY`).
#[derive(Debug, Clone, Copy, PartialEq, Eq, Structural)]
pub struct TpmiDhEntity(pub TpmHandle);

/// A transient or persistent object handle (`TPMI_DH_OBJECT`).
#[derive(Debug, Clone, Copy, PartialEq, Eq, Structural)]
pub struct TpmiDhObject(pub TpmHandle);

/// A persistent object handle (`TPMI_DH_PERSISTENT`).
#[derive(Debug, Clone, Copy, PartialEq, Eq, Structural)]
pub struct TpmiDhPersistent(pub TpmHandle);

impl TpmiShAuthSession {
    /// The password authorization session (`TPM_RS_PW`).
    pub fn rs_pw() -> (s: TpmiShAuthSession)
        ensures
            s.0.0 == RS_PW,
    {
        TpmiShAuthSession(TpmHandle(RS_PW))
    }

    pub fn value(&self) -> (v: u32)
        ensures
            v == self.0.0,
    {
        self.0.0
    }
}

impl TpmiDhObject {
    /// The null handle, which stands for no object.
    pub fn rh_null() -> (o: TpmiDhObject)
        ensures
            o.0.0 == RH_NULL,
    {
        TpmiDhObject(TpmHandle(RH_NULL))
    }

    pub fn value(&self) -> (v: u32)
        ensures
            v == self.0.0,
    {
        self.0.0
    }

    pub fn is_transient(&self) -> (b: bool)
        ensures
            b == is_transient_handle(self.0.0),
    {
        HR_TRANSIENT_FIRST <= self.0.0 && self.0.0 <= HR_TRANSIENT_LAST
    }
}

impl TpmiDhPersistent {
    pub fn value(&self) -> (v: u32)
        ensures
            v == self.0.0,
    {
        self.0.0
    }
}

impl TryFrom<TpmHandle> for TpmiShPolicy {
    type Error = Error;

    fn try_from(tpm_handle: TpmHandle) -> (r: Result<TpmiShPolicy, Error>) {
        if HR_POLICY_SESSION_FIRST <= tpm_handle.value() && tpm_handle.value() <= HR_POLICY_SESSION_LAST {
            Ok(TpmiShPolicy(tpm_handle))
        } else {
            Err(Error::conversion())
        }
    }
}

impl TryFromSpecImpl<TpmHandle> for TpmiShPolicy {
    open spec fn obeys_try_from_spec() -> bool {
        true
    }

    open spec fn try_from_spec(tpm_handle: TpmHandle) -> Result<TpmiShPolicy, Error> {
        if is_policy_session_handle(tpm_handle.0) {
            Ok(TpmiShPolicy(tpm_handle))
        } else {
            Err(Error::Internal)
        }
    }
}

impl TryFrom<TpmHandle> for TpmiShHmac {
    type Error = Error;

    fn try_from(value: TpmHandle) -> (r: Result<TpmiShHmac, Error>) {
        if HR_HMAC_SESSION_FIRST <= value.value() && value.value() <= HR_HMAC_SESSION_LAST {
            Ok(TpmiShHmac(value))
        } else {
            Err(Error::conversion())
        }
    }
}

impl TryFromSpecImpl<TpmHandle> for TpmiShHmac {
    open spec fn obeys_try_from_spec() -> bool {
        true
    }

    open spec fn try_from_spec(value: TpmHandle) -> Result<TpmiShHmac, Error> {
        if is_hmac_session_handle(value.0) {
            Ok(TpmiShHmac(value))
        } else {
            Err(Error::Internal)
        }
    }
}

impl TryFrom<TpmHandle> for TpmiShAuthSession {
    type Error = Error;

    fn try_from(value: TpmHandle) -> (r: Result<TpmiShAuthSession, Error>) {
        if is_auth_session_value(value.value()) {
            Ok(TpmiShAuthSession(value))
        } else {
            Err(Error::conversion())
        }
    }
}

impl TryFromSpecImpl<TpmHandle> for TpmiShAuthSession {
    open spec fn obeys_try_from_spec() -> bool {
        true
    }

    open spec fn try_from_spec(value: TpmHandle) -> Result<TpmiShAuthSession, Error> {
        if is_auth_session_handle(value.0) {
            Ok(TpmiShAuthSession(value))
        } else {
            Err(Error::Internal)
        }
    }
}

impl TryFrom<TpmiShAuthSession> for TpmiShPolicy {
    type Error = Error;

    fn try_from(value: TpmiShAuthSession) -> (r: Result<TpmiShPolicy, Error>) {
        if HR_POLICY_SESSION_FIRST <= value.value() && value.value() <= HR_POLICY_SESSION_LAST {
            Ok(TpmiShPolicy(value.0))
        } else {
            Err(Error::conversion())
        }
    }
}

impl TryFromSpecImpl<TpmiShAuthSession> for TpmiShPolicy {
    open spec fn obeys_try_from_spec() -> bool {
        true
    }

    open spec fn try_from_spec(value: TpmiShAuthSession) -> Result<TpmiShPolicy, Error> {
        if is_policy_session_handle(value.0.0) {
            Ok(TpmiShPolicy(value.0))
        } else {
            Err(Error::Internal)
        }
    }
}

impl TryFrom<TpmiShAuthSession> for TpmiShHmac {
    type Error = Error;

    fn try_from(value: TpmiShAuthSession) -> (r: Result<TpmiShHmac, Error>) {
        if HR_HMAC_SESSION_FIRST <= value.value() && value.value() <= HR_HMAC_SESSION_LAST {
            Ok(TpmiShHmac(value.0))
        } else {
            Err(Error::conversion())
        }
    }
}

impl TryFromSpecImpl<TpmiShAuthSession> for TpmiShHmac {
    open spec fn obeys_try_from_spec() -> bool {
        true
    }

    open spec fn try_from_spec(value: TpmiShAuthSession) -> Result<TpmiShHmac, Error> {
        if is_hmac_session_handle(value.0.0) {
            Ok(TpmiShHmac(value.0))
        } else {
            Err(Error::Internal)
        }
    }
}

impl TryFrom<TpmiDhObject> for TpmiDhContext {
    type Error = Error;

    fn try_from(value: TpmiDhObject) -> (r: Result<TpmiDhContext, Error>) {
        if value.is_transient() {
            Ok(TpmiDhContext(value.0))
        } else {
            Err(Error::conversion())
        }
    }
}

impl TryFromSpecImpl<TpmiDhObject> for TpmiDhContext {
    open spec fn obeys_try_from_spec() -> bool {
        true
    }

    open spec fn try_from_spec(value: TpmiDhObject) -> Result<TpmiDhContext, Error> {
        if is_transient_handle(value.0.0) {
            Ok(TpmiDhContext(value.0))
        } else {
            Err(Error::Internal)
        }
    }
}

impl TryFrom<TpmHandle> for TpmiDhContext {
    type Error = Error;

    fn try_from(value: TpmHandle) -> (r: Result<TpmiDhContext, Error>) {
        if is_auth_session_value(value.value()) || (HR_TRANSIENT_FIRST <= value.value() && value.value() <= HR_TRANSIENT_LAST) {
            Ok(TpmiDhContext(value))
        } else {
            Err(Error::conversion())
        }
    }
}

impl TryFromSpecImpl<TpmHandle> for TpmiDhContext {
    open spec fn obeys_try_from_spec() -> bool {
        true
    }

    open spec fn try_from_spec(value: TpmHandle) -> Result<TpmiDhContext, Error> {
        if is_context_handle(value.0) {
            Ok(TpmiDhContext(value))
        } else {
            Err(Error::Internal)
        }
    }
}

impl TryFrom<TpmHandle> for TpmiDhEntity {
    type Error = Error;

    fn try_from(value: TpmHandle) -> (r: Result<TpmiDhEntity, Error>) {
        if is_entity_value(value.value()) {
            Ok(TpmiDhEntity(value))
        } else {
            Err(Error::conversion())
        }
    }
}

impl TryFromSpecImpl<TpmHandle> for TpmiDhEntity {
    open spec fn obeys_try_from_spec() -> bool {
        true
    }

    open spec fn try_from_spec(value: TpmHandle) -> Result<TpmiDhEntity, Error> {
        if is_entity_handle(value.0) {
            Ok(TpmiDhEntity(value))
        } else {
            Err(Error::Internal)
        }
    }
}

impl TryFrom<TpmHandle> for TpmiDhObject {
    type Error = Error;

    fn try_from(value: TpmHandle) -> (r: Result<TpmiDhObject, Error>) {
        if is_object_value(value.value()) {
            Ok(TpmiDhObject(value))
        } else {
            Err(Error::conversion())
        }
    }
}

impl TryFromSpecImpl<TpmHandle> for TpmiDhObject {
    open spec fn obeys_try_from_spec() -> bool {
        true
    }

    open spec fn try_from_spec(value: TpmHandle) -> Result<TpmiDhObject, Error> {
        if is_object_handle(value.0) {
            Ok(TpmiDhObject(value))
        } else {
            Err(Error::Internal)
        }
    }
}

impl TryFrom<TpmHandle> for TpmiDhPersistent {
    type Error = Error;

    fn try_from(value: TpmHandle) -> (r: Result<TpmiDhPersistent, Error>) {
        if HR_PERSISTENT_FIRST <= value.value() && value.value() <= HR_PERSISTENT_LAST {
            Ok(TpmiDhPersistent(value))
        } else {
            Err(Error::conversion())
        }
    }
}

impl TryFromSpecImpl<TpmHandle> for TpmiDhPersistent {
    open spec fn obeys_try_from_spec() -> bool {
        true
    }

    open spec fn try_from_spec(value: TpmHandle) -> Result<TpmiDhPersistent, Error> {
        if is_persistent_handle(value.0) {
            Ok(TpmiDhPersistent(value))
        } else {
            Err(Error::Internal)
        }
    }
}

impl TryFrom<u32> for TpmiDhPersistent {
    type Error = Error;

    fn try_from(value: u32) -> (r: Result<TpmiDhPersistent, Error>) {
        if HR_PERSISTENT_FIRST <= value && value <= HR_PERSISTENT_LAST {
            Ok(TpmiDhPersistent(TpmHandle(value)))
        } else {
            Err(Error::conversion())
        }
    }
}

impl TryFromSpecImpl<u32> for TpmiDhPersistent {
    open spec fn obeys_try_from_spec() -> bool {
        true
    }

    open spec fn try_from_spec(value: u32) -> Result<TpmiDhPersistent, Error> {
        if is_persistent_handle(value) {
            Ok(TpmiDhPersistent(TpmHandle(value)))
        } else {
            Err(Error::Internal)
        }
    }
}

impl From<TpmiShAuthSession> for TpmiDhContext {
    fn from(session_handle: TpmiShAuthSession) -> (c: TpmiDhContext) {
        TpmiDhContext(session_handle.0)
    }
}

impl FromSpecImpl<TpmiShAuthSession> for TpmiDhContext {
    open spec fn obeys_from_spec() -> bool {
        true
    }

    open spec fn from_spec(session_handle: TpmiShAuthSession) -> TpmiDhContext {
        TpmiDhContext(session_handle.0)
    }
}

impl From<TpmiShAuthSession> for TpmHandle {
    fn from(session_handle: TpmiShAuthSession) -> (h: TpmHandle) {
        session_handle.0
    }
}

impl FromSpecImpl<TpmiShAuthSession> for TpmHandle {
    open spec fn obeys_from_spec() -> bool {
        true
    }

    open spec fn from_spec(session_handle: TpmiShAuthSession) -> TpmHandle {
        session_handle.0
    }
}

impl From<TpmiDhObject> for TpmHandle {
    fn from(obj: TpmiDhObject) -> (h: TpmHandle) {
        obj.0
    }
}

impl FromSpecImpl<TpmiDhObject> for TpmHandle {
    open spec fn obeys_from_spec() -> bool {
        true
    }

    open spec fn from_spec(obj: TpmiDhObject) -> TpmHandle {
        obj.0
    }
}

fn is_auth_session_value(v: u32) -> (b: bool)
    ensures
        b == is_auth_session_handle(v),
{
    (HR_HMAC_SESSION_FIRST <= v && v <= HR_HMAC_SESSION_LAST)
        || (HR_POLICY_SESSION_FIRST <= v && v <= HR_POLICY_SESSION_LAST)
}

fn is_object_value(v: u32) -> (b: bool)
    ensures
        b == is_object_handle(v),
{
    (HR_TRANSIENT_FIRST <= v && v <= HR_TRANSIENT_LAST)
        || (HR_PERSISTENT_FIRST <= v && v <= HR_PERSISTENT_LAST)
}

fn is_entity_value(v: u32) -> (b: bool)
    ensures
        b == is_entity_handle(v),
{
    v == RH_OWNER || v == RH_ENDORSEMENT || v == RH_PLATFORM || v == RH_LOCKOUT || v == RH_NULL
        || is_object_value(v) || (HR_NV_INDEX_FIRST <= v && v <= HR_NV_INDEX_LAST)
        || v <= HR_PCR_LAST || (RH_AUTH_00 <= v && v <= RH_AUTH_FF)
}

/// The handle ranges of the TPM: HMAC sessions 0x02000000 to 0x02FFFFFF,
/// policy sessions 0x03000000 to 0x03FFFFFF, transient objects 0x80000000
/// to 0x80FFFFFF, persistent objects 0x81000000 to 0x81FFFFFF; the keys of
/// the storage hierarchy are made persistent from 0x81000000 to 0x8100FFFF.
pub proof fn law_handle_ranges(v: u32)
    ensures
        is_hmac_session_handle(v) <==> 0x0200_0000 <= v <= 0x02FF_FFFF,
        is_policy_session_handle(v) <==> 0x0300_0000 <= v <= 0x03FF_FFFF,
        is_transient_handle(v) <==> 0x8000_0000 <= v <= 0x80FF_FFFF,
        is_persistent_handle(v) <==> 0x8100_0000 <= v <= 0x81FF_FFFF,
        HR_STORAGE_AVAILABLE_FIRST == 0x8100_0000,
        HR_STORAGE_AVAILABLE_LAST == 0x8100_FFFF,
        is_hierarchy_handle_value(v) <==> (v == 0x4000_0001 || v == 0x4000_000B || v == 0x4000_000C
            || v == 0x4000_000A || v == 0x4000_0007),
{
}

} // verus!
