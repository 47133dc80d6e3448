//! The decisions of operations that talk to the TPM in several steps: each
//! takes what the last step gave and says what to do next.
use vstd::prelude::*;

use crate::cap::{TpmlPcrSelection, TpmsPcrSelection};
use crate::cache::KeyId;
use crate::crypto::{spec_sha256, SHA256_SIZE};
use crate::error::{spec_error_tpm_rc, spec_from_tbs_rc, Error, ErrorSource, TBS_E_INSUFFICIENT_BUFFER};
use crate::handle::{is_persistent_handle, TpmHandle, TpmiDhPersistent, HR_STORAGE_AVAILABLE_FIRST, HR_STORAGE_AVAILABLE_LAST};
use crate::policy::PolicyData;
use crate::rc::RC_NV_DEFINED;
use crate::response::{spec_parse_response, PcrReadResponse, Response};
use crate::tpm::{Tpm2bAuth, Tpm2bDigest, TpmiAlgHash};
use crate::types::{TpmaSession, SESSION_CONTINUE_SESSION};

verus! {

/// The status of a TBS call that succeeded.
pub const TBS_SUCCESS: u32 = 0;
/// How often a command is sent again while the TPM reports that it is busy.
pub const MAX_RETRY_COUNT: usize = 3;
/// The size of the response buffer that a command starts with.
pub const INIT_TBS_RESPONSE_SIZE: usize = 4096;

/// What to do after the TBS answered a command.
#[derive(Debug)]
pub enum SubmitDecision {
    /// Send the command again with a buffer of this size.
    GrowBuffer(usize),
    /// The TPM was busy: send the command again.
    RetryBusy,
    /// The response.
    Finished(Response),
    /// The error to report.
    Failed(Error),
}

/// The first `len` bytes of `bytes`, or all of them where there are fewer.
pub open spec fn truncated(bytes: Seq<u8>, len: int) -> Seq<u8> {
    if len < bytes.len() {
        bytes.take(len)
    } else {
        bytes
    }
}

/// Decides what follows a TBS answer with `status` and a response of
/// `response_len` bytes in `response_bytes`, after `retry_count` retries: a
/// buffer that was too small grows to the size the TBS asked for; another
/// failing status is reported; a response is read, and one that says the TPM
/// is busy is retried up to three times.
pub fn decide_submit(
    status: u32,
    response_bytes: &[u8],
    response_len: u32,
    response_handle_count: usize,
    retry_count: usize,
) -> (d: SubmitDecision)
    ensures
        status == TBS_E_INSUFFICIENT_BUFFER ==> d == SubmitDecision::GrowBuffer(response_len as usize),
        status != TBS_E_INSUFFICIENT_BUFFER && status != TBS_SUCCESS ==> d == SubmitDecision::Failed(
            spec_from_tbs_rc(status),
        ),
        status == TBS_SUCCESS ==> match spec_parse_response(
            truncated(response_bytes@, response_len as int),
            response_handle_count as nat,
        ) {
            Ok(m) => d matches SubmitDecision::Finished(r) && r@ == m,
            Err(e) => if e is Busy && retry_count < MAX_RETRY_COUNT {
                d is RetryBusy
            } else {
                d == SubmitDecision::Failed(e)
            },
        },
{
    if status != TBS_SUCCESS {
        if status == TBS_E_INSUFFICIENT_BUFFER {
            return SubmitDecision::GrowBuffer(response_len as usize);
        }
        return SubmitDecision::Failed(Error::from_tbs_rc(status));
    }
    let len = if (response_len as usize) < response_bytes.len() {
        response_len as usize
    } else {
        response_bytes.len()
    };
    let mut input = vstd::slice::slice_subrange(response_bytes, 0, len);
    assert(input@ =~= truncated(response_bytes@, response_len as int));
    match Response::parse(&mut input, response_handle_count) {
        Ok(response) => SubmitDecision::Finished(response),
        Err(err) => {
            let busy = match err {
                Error::Busy(_) => true,
                _ => false,
            };
            if busy && retry_count < MAX_RETRY_COUNT {
                SubmitDecision::RetryBusy
            } else {
                SubmitDecision::Failed(err)
            }
        },
    }
}

/// How many random bytes to ask for next: what is still missing, at most
/// what a `u16` can count.
pub fn random_chunk_size(num_bytes: usize, have: usize) -> (n: u16)
    requires
        have < num_bytes,
    ensures
        n as int == if num_bytes - have < 0x10000 { num_bytes - have } else { 0xffff },
        n > 0,
{
    let remaining = num_bytes - have;
    if remaining < 0x10000 {
        remaining as u16
    } else {
        0xffff
    }
}

/// Adds the random bytes of one answer; an answer with none is an error.
pub fn accept_random_chunk(bytes: &mut Vec<u8>, chunk: &Tpm2bDigest) -> (r: Result<(), Error>)
    ensures
        match r {
            Ok(()) => chunk@.len() > 0 && final(bytes)@ == old(bytes)@ + chunk@,
            Err(e) => chunk@.len() == 0 && e is InvalidData && final(bytes)@ == old(bytes)@,
        },
{
    if chunk.is_empty() {
        return Err(Error::InvalidData);
    }
    crate::wire::extend_bytes(bytes, chunk.as_bytes());
    Ok(())
}

/// What to do after making an object persistent failed.
#[derive(Debug)]
pub enum EvictStep {
    /// Try the next handle.
    Retry(TpmiDhPersistent),
    /// The error to report.
    Fail(Error),
}

/// Whether an error carries the response code "NV index or persistent object
/// already defined".
pub open spec fn is_handle_taken(err: Error) -> bool {
    spec_error_tpm_rc(err) matches Some(rc) && rc.0 == RC_NV_DEFINED
}

/// What follows a failed attempt to make an object persistent at `handle`:
/// where the handle is taken and a search runs up to `search_end`, the next
/// handle is tried while there is one; a taken handle otherwise is reported
/// as in use; any other error is reported as it is.
pub fn next_evict_step(err: Error, handle: TpmiDhPersistent, search_end: Option<TpmiDhPersistent>) -> (s: EvictStep)
    ensures
        is_handle_taken(err) ==> match search_end {
            Some(end) => if handle.0.0 + 1 > end.0.0 {
                s == EvictStep::Fail(Error::PersistentHandleInUse(handle.0.0))
            } else if is_persistent_handle((handle.0.0 + 1) as u32) {
                s matches EvictStep::Retry(h) && h.0.0 == handle.0.0 + 1
            } else {
                s == EvictStep::Fail(Error::Internal)
            },
            None => s == EvictStep::Fail(Error::PersistentHandleInUse(handle.0.0)),
        },
        !is_handle_taken(err) ==> s == EvictStep::Fail(err),
{
    let taken = match err.tpm_rc() {
        Some(rc) => rc.value() == RC_NV_DEFINED,
        None => false,
    };
    if !taken {
        return EvictStep::Fail(err);
    }
    let handle_value = handle.value();
    match search_end {
        Some(end) => {
            if handle_value >= end.value() {
                return EvictStep::Fail(Error::PersistentHandleInUse(handle_value));
            }
            let next_handle = handle_value + 1;
            match TpmiDhPersistent::try_from(next_handle) {
                Ok(h) => EvictStep::Retry(h),
                Err(e) => EvictStep::Fail(e),
            }
        },
        None => EvictStep::Fail(Error::PersistentHandleInUse(handle_value)),
    }
}

/// That a key can be made persistent: a temporary key cannot.
pub fn ensure_persistable(key_id: &KeyId) -> (r: Result<(), Error>)
    ensures
        match r {
            Ok(()) => key_id is Stored,
            Err(e) => key_id is Temporary && e == (Error::InvalidKey {
                context: "temporary key cannot be persisted",
                source: None,
            }),
        },
{
    match key_id {
        KeyId::Temporary(_) => Err(Error::invalid_key("temporary key cannot be persisted")),
        KeyId::Stored(_) => Ok(()),
    }
}

/// Where to make a key persistent: at the handle asked for, which must be a
/// persistent handle of the storage range, with no search; or, where none is
/// asked for, from the third handle of that range up to its end.
pub fn persist_target(persistent_handle: Option<u32>) -> (r: Result<
    (TpmiDhPersistent, Option<TpmiDhPersistent>),
    Error,
>)
    ensures
        match persistent_handle {
            Some(h) => if is_persistent_handle(h) && h <= HR_STORAGE_AVAILABLE_LAST {
                r matches Ok((start, end)) && start.0.0 == h && end is None
            } else {
                r == Err::<(TpmiDhPersistent, Option<TpmiDhPersistent>), Error>(Error::InvalidParameter(
                    "persistent handle must be in the range 0x8100_0000 to 0x81FF_FFFF",
                ))
            },
            None => r matches Ok((start, end)) && start.0.0 == HR_STORAGE_AVAILABLE_FIRST + 2 && (end matches Some(
                e,
            ) && e.0.0 == HR_STORAGE_AVAILABLE_LAST),
        },
{
    match persistent_handle {
        Some(handle) => {
            match TpmiDhPersistent::try_from(handle) {
                Ok(h) => {
                    if h.value() <= HR_STORAGE_AVAILABLE_LAST {
                        return Ok((h, None));
                    }
                },
                Err(_) => {},
            }
            Err(Error::invalid_param("persistent handle must be in the range 0x8100_0000 to 0x81FF_FFFF"))
        },
        None => Ok(
            (
                TpmiDhPersistent(TpmHandle(HR_STORAGE_AVAILABLE_FIRST + 2)),
                Some(TpmiDhPersistent(TpmHandle(HR_STORAGE_AVAILABLE_LAST))),
            ),
        ),
    }
}

/// The persistent handle after `handle`; fails where there is none.
pub fn next_persistent_handle(handle: TpmiDhPersistent) -> (r: Result<TpmiDhPersistent, Error>)
    ensures
        match r {
            Ok(h) => handle.0.0 < u32::MAX && h.0.0 == handle.0.0 + 1 && is_persistent_handle(h.0.0),
            Err(e) => !(handle.0.0 < u32::MAX && is_persistent_handle((handle.0.0 + 1) as u32))
                && e == (Error::ResourceExhausted { context: "no persistent handle is available", source: None }),
        },
{
    if handle.value() == 0xffff_ffff {
        return Err(Error::resource_exhausted("no persistent handle is available"));
    }
    match TpmiDhPersistent::try_from(handle.value() + 1) {
        Ok(h) => Ok(h),
        Err(_) => Err(Error::resource_exhausted("no persistent handle is available")),
    }
}

/// The authorization of an object: its authorization value and its policy.
#[derive(Debug)]
pub struct Authorization {
    pub auth: Tpm2bAuth,
    pub policy: Option<PolicyData>,
}

/// The sessions that authorize a command.
#[derive(Debug, Clone, Copy, PartialEq, Eq, Structural)]
pub enum SessionPlan {
    /// One HMAC session, bound to the authorization value where there is one.
    Hmac { with_auth: bool },
    /// The password session.
    Password,
    /// A policy session, and an HMAC session for the session attributes
    /// where there are any.
    Policy { extra_hmac: bool },
}

/// Which sessions authorize a command: without an authorization, one HMAC
/// session; with a policy, a policy session, and an HMAC session where
/// attributes are asked for; without one, the password session where no
/// attribute but "continue session" is asked for and the authorization value
/// is empty, else an HMAC session with the value.
pub fn plan_sessions(hmac_session_attrs: TpmaSession, authorization: Option<&Authorization>) -> (p: SessionPlan)
    ensures
        p == match authorization {
            None => SessionPlan::Hmac { with_auth: false },
            Some(a) => if a.policy is Some {
                SessionPlan::Policy { extra_hmac: hmac_session_attrs.0 != 0 }
            } else if (hmac_session_attrs.0 == 0 || hmac_session_attrs.0 == SESSION_CONTINUE_SESSION)
                && a.auth@.len() == 0 {
                SessionPlan::Password
            } else {
                SessionPlan::Hmac { with_auth: true }
            },
        },
{
    match authorization {
        None => SessionPlan::Hmac { with_auth: false },
        Some(a) => {
            if a.policy.is_some() {
                SessionPlan::Policy { extra_hmac: !hmac_session_attrs.is_empty() }
            } else if (hmac_session_attrs.is_empty() || hmac_session_attrs.bits() == SESSION_CONTINUE_SESSION)
                && a.auth.is_empty() {
                SessionPlan::Password
            } else {
                SessionPlan::Hmac { with_auth: true }
            }
        },
    }
}

/// The work of computing the digest of some PCRs: the bank, the PCRs not yet
/// read, the update counter of the first read and the values read so far.
#[derive(Debug)]
pub struct PcrDigest {
    hash: TpmiAlgHash,
    remaining: Vec<u8>,
    update_counter: Option<u32>,
    values: Vec<u8>,
}

/// What the work of a PCR digest holds.
pub ghost struct PcrDigestModel {
    pub hash: u16,
    pub remaining: Seq<u8>,
    pub update_counter: Option<u32>,
    pub values: Seq<u8>,
}

impl View for PcrDigest {
    type V = PcrDigestModel;

    closed spec fn view(&self) -> PcrDigestModel {
        PcrDigestModel {
            hash: self.hash.0,
            remaining: self.remaining@,
            update_counter: self.update_counter,
            values: self.values@,
        }
    }
}

/// Whether no PCR is left to read.
pub open spec fn all_zero(s: Seq<u8>) -> bool {
    forall|i: int| 0 <= i < s.len() ==> s[i] == 0
}

/// The PCRs still to read once a read returned `returned`: each byte loses
/// the bits returned, as far as both go.
pub open spec fn clear_returned(remaining: Seq<u8>, returned: Seq<u8>) -> Seq<u8> {
    Seq::new(
        remaining.len(),
        |i: int|
            if i < returned.len() {
                remaining[i] & !returned[i]
            } else {
                remaining[i]
            },
    )
}

/// The selection of the first entry of `selections` for bank `hash`.
pub open spec fn select_for_hash(selections: Seq<(u16, Seq<u8>)>, hash: u16) -> Option<Seq<u8>>
    decreases selections.len(),
{
    if selections.len() == 0 {
        None
    } else if selections[0].0 == hash {
        Some(selections[0].1)
    } else {
        select_for_hash(selections.drop_first(), hash)
    }
}

/// The values of a read's digests, one after the other.
pub open spec fn digest_values(digests: Seq<Seq<u8>>) -> Seq<u8>
    decreases digests.len(),
{
    if digests.len() == 0 {
        Seq::empty()
    } else {
        digest_values(digests.drop_last()) + digests.last()
    }
}

/// What one read does to the work: the update counter must not have changed
/// since the first read, the bank must be among those returned with a PCR
/// selected, the PCRs returned are done and their values are added.
pub open spec fn spec_absorb_pcr_read(
    m: PcrDigestModel,
    counter: u32,
    selection_out: Seq<(u16, Seq<u8>)>,
    values: Seq<Seq<u8>>,
) -> Result<PcrDigestModel, Error> {
    if m.update_counter matches Some(expected) && expected != counter {
        Err(Error::AuthorizationFailed(ErrorSource::PcrValueChanged))
    } else {
        match select_for_hash(selection_out, m.hash) {
            None => Err(Error::InvalidData),
            Some(returned) => if all_zero(returned) {
                Err(Error::Unsupported { context: "requested PCR selection is unavailable", source: None })
            } else {
                Ok(
                    PcrDigestModel {
                        hash: m.hash,
                        remaining: clear_returned(m.remaining, returned),
                        update_counter: if m.update_counter is None {
                            Some(counter)
                        } else {
                            m.update_counter
                        },
                        values: m.values + digest_values(values),
                    },
                )
            },
        }
    }
}

proof fn lemma_all_zero_take(s: Seq<u8>, i: int)
    requires
        0 <= i < s.len(),
    ensures
        all_zero(s.take(i + 1)) == (all_zero(s.take(i)) && s[i] == 0),
{
    if all_zero(s.take(i + 1)) {
        assert(s.take(i + 1)[i] == s[i]);
        assert forall|j: int| 0 <= j < i implies #[trigger] s.take(i)[j] == 0 by {
            assert(s.take(i + 1)[j] == s[j]);
        }
    }
    if all_zero(s.take(i)) && s[i] == 0 {
        assert forall|j: int| 0 <= j < i + 1 implies #[trigger] s.take(i + 1)[j] == 0 by {
            if j < i {
                assert(s.take(i)[j] == s[j]);
            }
        }
    }
}

impl TpmlPcrSelection {
    /// The selection of the first entry for bank `hash`.
    pub fn select_for_hash(&self, hash: TpmiAlgHash) -> (s: Option<&[u8]>)
        ensures
            match select_for_hash(self@, hash.0) {
                Some(sel) => s matches Some(x) && x@ == sel,
                None => s is None,
            },
    {
        let mut i: usize = 0;
        assert(self@.skip(0) =~= self@);
        while i < self.items.len()
            invariant
                i <= self.items@.len(),
                self@.len() == self.items@.len(),
                select_for_hash(self@, hash.0) == select_for_hash(self@.skip(i as int), hash.0),
            decreases self.items@.len() - i,
        {
            assert(self@[i as int] == (self.items@[i as int].hash.0, self.items@[i as int].pcr_select@));
            assert(self@.skip(i as int).drop_first() =~= self@.skip(i + 1));
            if self.items[i].hash.value() == hash.value() {
                return Some(self.items[i].pcr_select.as_slice());
            }
            i += 1;
        }
        None
    }
}

impl PcrDigest {
    /// The work of a digest of the PCRs of `selection`.
    pub fn new(selection: &TpmsPcrSelection) -> (d: PcrDigest)
        ensures
            d@ == (PcrDigestModel {
                hash: selection.hash.0,
                remaining: selection.pcr_select@,
                update_counter: None,
                values: Seq::empty(),
            }),
    {
        PcrDigest {
            hash: selection.hash,
            remaining: selection.pcr_select.clone(),
            update_counter: None,
            values: Vec::new(),
        }
    }

    /// The next read to make: the PCRs not yet read, or `None` where all were.
    pub fn next_read(&self) -> (r: Result<Option<TpmlPcrSelection>, Error>)
        ensures
            match r {
                Ok(None) => all_zero(self@.remaining),
                Ok(Some(l)) => !all_zero(self@.remaining) && l@ == seq![(self@.hash, self@.remaining)],
                Err(e) => !all_zero(self@.remaining) && self@.remaining.len() > 0xff && e is Internal,
            },
    {
        let mut i: usize = 0;
        let mut any = false;
        while i < self.remaining.len()
            invariant
                i <= self.remaining@.len(),
                any == !all_zero(self.remaining@.take(i as int)),
            decreases self.remaining@.len() - i,
        {
            if self.remaining[i] != 0 {
                any = true;
            }
            proof {
                lemma_all_zero_take(self.remaining@, i as int);
            }
            i += 1;
        }
        assert(self.remaining@.take(i as int) =~= self.remaining@);
        if !any {
            return Ok(None);
        }
        let selection = TpmsPcrSelection::new(self.hash, self.remaining.clone())?;
        let mut items: Vec<TpmsPcrSelection> = Vec::new();
        items.push(selection);
        let l = TpmlPcrSelection { items };
        assert(l@ =~= seq![(self@.hash, self@.remaining)]);
        Ok(Some(l))
    }

    /// Takes in one read of the PCRs.
    #[verifier::loop_isolation(false)]
    pub fn absorb(&mut self, response: &PcrReadResponse) -> (r: Result<(), Error>)
        ensures
            match spec_absorb_pcr_read(
                old(self)@,
                response.pcr_update_counter,
                response.pcr_selection_out@,
                response.pcr_values@,
            ) {
                Ok(m) => r is Ok && final(self)@ == m,
                Err(e) => r == Err::<(), Error>(e),
            },
    {
        match self.update_counter {
            Some(expected) => {
                if expected != response.pcr_update_counter {
                    return Err(Error::authorization_failed(ErrorSource::PcrValueChanged));
                }
            },
            None => {
                self.update_counter = Some(response.pcr_update_counter);
            },
        }
        let returned = match response.pcr_selection_out.select_for_hash(self.hash) {
            Some(s) => s,
            None => return Err(Error::InvalidData),
        };
        let mut i: usize = 0;
        let mut all_returned_zero = true;
        while i < returned.len()
            invariant
                i <= returned@.len(),
                all_returned_zero == all_zero(returned@.take(i as int)),
            decreases returned@.len() - i,
        {
            if returned[i] != 0 {
                all_returned_zero = false;
            }
            proof {
                lemma_all_zero_take(returned@, i as int);
            }
            i += 1;
        }
        assert(returned@.take(i as int) =~= returned@);
        if all_returned_zero {
            return Err(Error::unsupported("requested PCR selection is unavailable"));
        }

        let ghost before = self.remaining@;
        let ghost hash0 = self.hash;
        let ghost counter0 = self.update_counter;
        let ghost values0 = self.values@;
        let mut j: usize = 0;
        while j < self.remaining.len()
            invariant
                self.hash == hash0,
                self.update_counter == counter0,
                self.values@ == values0,
                self.remaining@.len() == before.len(),
                j <= before.len(),
                forall|k: int| 0 <= k < j ==> #[trigger] self.remaining@[k] == clear_returned(before, returned@)[k],
                forall|k: int| j <= k < before.len() ==> #[trigger] self.remaining@[k] == before[k],
            decreases before.len() - j,
        {
            if j < returned.len() {
                let b = self.remaining[j] & !returned[j];
                self.remaining.set(j, b);
            }
            j += 1;
        }
        assert(self.remaining@ =~= clear_returned(before, returned@));

        let digests = response.pcr_values.digests.as_slice();
        let ghost values_before = self.values@;
        let mut k: usize = 0;
        while k < digests.len()
            invariant
                self.hash == hash0,
                self.update_counter == counter0,
                self.remaining@ == clear_returned(before, returned@),
                k <= digests@.len(),
                response.pcr_values@ == crate::tpm::digest_views(digests@),
                self.values@ == values_before + digest_values(crate::tpm::digest_views(digests@).take(k as int)),
            decreases digests@.len() - k,
        {
            crate::wire::extend_bytes(&mut self.values, digests[k].as_bytes());
            proof {
                let v = crate::tpm::digest_views(digests@);
                assert(v.take(k + 1).drop_last() =~= v.take(k as int));
                assert(v[k as int] == digests@[k as int]@);
            }
            k += 1;
        }
        assert(crate::tpm::digest_views(digests@).take(k as int) =~= crate::tpm::digest_views(digests@));
        Ok(())
    }

    /// The digest: SHA-256 of the values read, in the order they were read.
    pub fn finish(&self) -> (r: Result<Tpm2bDigest, Error>)
        ensures
            r matches Ok(d) && d@ == spec_sha256(self@.values) && d@.len() == SHA256_SIZE,
    {
        let digest = crate::crypto::sha256_digest(self.values.as_slice());
        Tpm2bDigest::from_bytes(digest.as_slice())
    }
}

} // verus!
