//! The sessions and transient objects that one operation holds, and the
//! session work around each command: encrypting and signing the command,
//! checking and decrypting the response.
use vstd::prelude::*;

use crate::command::{auth_views, AuthCommandModel, Command, TpmsAuthCommand};
use crate::crypto::{
    cfb_decrypt, cfb_encrypt, cfb_iv, cfb_key, command_hmac_input, compute_hmac, cp_hash_input, decrypt_parameter,
    encrypt_parameter, names_view, response_hmac_input, rp_hash_input, spec_hmac_sha256, spec_sha256,
    verify_response_hmac, CpHashData,
};
use crate::error::Error;
use crate::handle::{
    is_hmac_session_handle, is_transient_handle, TpmHandle, TpmiDhContext, TpmiDhObject, TpmiShAuthSession,
    HR_HMAC_SESSION_FIRST, HR_HMAC_SESSION_LAST, RH_NULL, RS_PW,
};
use crate::response::{AuthResponseModel, TpmsAuthResponse};
use crate::tpm::{Tpm2bAuth, Tpm2bNonce, TpmCc};
use crate::types::{TpmaSession, SESSION_CONTINUE_SESSION, SESSION_DECRYPT, SESSION_ENCRYPT};
use crate::wire::{tpm2b_buffer_mut, tpm2b_payload_range, u32_bytes};

verus! {

/// How many sessions one command can carry.
pub const SESSION_SLOTS: usize = 3;

/// What the library keeps of an open session.
#[derive(Debug, Clone)]
pub struct SessionState {
    pub session_value: Vec<u8>,
    pub nonce_tpm: Tpm2bNonce,
    pub uses_hmac: bool,
}

/// What a session state holds: the session value (the key of its HMACs and
/// of parameter encryption), the TPM's last nonce, and whether it signs.
pub ghost struct SessionModel {
    pub session_value: Seq<u8>,
    pub nonce_tpm: Seq<u8>,
    pub uses_hmac: bool,
}

impl View for SessionState {
    type V = SessionModel;

    open spec fn view(&self) -> SessionModel {
        SessionModel { session_value: self.session_value@, nonce_tpm: self.nonce_tpm@, uses_hmac: self.uses_hmac }
    }
}

impl SessionState {
    pub fn update_nonce(&mut self, nonce_tpm: Tpm2bNonce)
        ensures
            final(self)@ == (SessionModel { nonce_tpm: nonce_tpm@, ..old(self)@ }),
    {
        self.nonce_tpm = nonce_tpm;
    }
}

/// What flushing the sessions does with one slot.
#[derive(Debug, Clone, Copy)]
pub enum SessionFlush {
    /// The slot is free.
    Free,
    /// The slot holds the password session, which needs no flushing.
    Forget,
    /// The slot holds this session, which is flushed.
    Flush(TpmiDhContext),
}

impl SessionState {
    /// The state of a new HMAC session: its value is the session key followed
    /// by the authorization value where one binds the session.
    pub fn hmac(session_key: Vec<u8>, auth: Option<&Tpm2bAuth>, nonce_tpm: Tpm2bNonce) -> (s: SessionState)
        ensures
            s@ == (SessionModel {
                session_value: match auth {
                    Some(a) => session_key@ + a@,
                    None => session_key@,
                },
                nonce_tpm: nonce_tpm@,
                uses_hmac: true,
            }),
    {
        let mut session_value = session_key;
        if let Some(a) = auth {
            crate::wire::extend_bytes(&mut session_value, a.as_bytes());
        }
        SessionState { session_value, nonce_tpm, uses_hmac: true }
    }
}

/// The sessions and transient objects of one operation: three session slots,
/// each with its handle and state, and the transient objects to flush.
#[derive(Debug, Clone)]
pub struct CommandResources {
    session_handles: [Option<TpmiShAuthSession>; 3],
    session_states: [Option<SessionState>; 3],
    transient_handles: Vec<TpmiDhObject>,
}

/// What the resources hold: the handle and the state in each slot, and the
/// transient objects.
pub ghost struct ResourcesModel {
    pub handles: Seq<Option<u32>>,
    pub states: Seq<Option<SessionModel>>,
    pub transients: Seq<u32>,
}

pub open spec fn handle_slot_view(h: Option<TpmiShAuthSession>) -> Option<u32> {
    match h {
        Some(s) => Some(s.0.0),
        None => None,
    }
}

pub open spec fn state_slot_view(s: Option<SessionState>) -> Option<SessionModel> {
    match s {
        Some(st) => Some(st@),
        None => None,
    }
}

impl View for CommandResources {
    type V = ResourcesModel;

    closed spec fn view(&self) -> ResourcesModel {
        ResourcesModel {
            handles: self.session_handles@.map_values(|h: Option<TpmiShAuthSession>| handle_slot_view(h)),
            states: self.session_states@.map_values(|s: Option<SessionState>| state_slot_view(s)),
            transients: self.transient_handles@.map_values(|h: TpmiDhObject| h.0.0),
        }
    }
}

/// The first index from `i` on where `s` holds `t`.
pub open spec fn find_from<T>(s: Seq<T>, t: T, i: int) -> Option<int>
    decreases s.len() - i,
{
    if i < 0 || i >= s.len() {
        None
    } else if s[i] == t {
        Some(i)
    } else {
        find_from(s, t, i + 1)
    }
}

/// The first slot of `handle`.
pub open spec fn slot_of(m: ResourcesModel, handle: u32) -> Option<int> {
    find_from(m.handles, Some(handle), 0)
}

/// The state of the session in the first slot of `handle`.
pub open spec fn session_of(m: ResourcesModel, handle: u32) -> Option<SessionModel> {
    match slot_of(m, handle) {
        Some(i) => m.states[i],
        None => None,
    }
}

/// Resources with every slot free.
pub open spec fn empty_resources() -> ResourcesModel {
    ResourcesModel {
        handles: seq![None, None, None],
        states: seq![None, None, None],
        transients: Seq::empty(),
    }
}

/// A well-formed model has three handle slots and three state slots.
pub open spec fn resources_wf(m: ResourcesModel) -> bool {
    m.handles.len() == SESSION_SLOTS && m.states.len() == SESSION_SLOTS
}

/// The resources after the session in the first slot of `handle` ended.
pub open spec fn clear_slot(m: ResourcesModel, handle: u32) -> ResourcesModel {
    match slot_of(m, handle) {
        Some(i) => ResourcesModel { handles: m.handles.update(i, None), states: m.states.update(i, None), ..m },
        None => m,
    }
}

proof fn lemma_find_from_bounds<T>(s: Seq<T>, t: T, i: int)
    requires
        0 <= i,
    ensures
        find_from(s, t, i) matches Some(j) ==> i <= j < s.len() && s[j] == t,
        find_from(s, t, i) is None ==> forall|j: int| i <= j < s.len() ==> s[j] != t,
    decreases s.len() - i,
{
    if 0 <= i < s.len() && s[i] != t {
        lemma_find_from_bounds(s, t, i + 1);
    }
}

impl CommandResources {
    proof fn lemma_view_wf(&self)
        ensures
            resources_wf(self@),
            forall|i: int| 0 <= i < 3 ==> #[trigger] self@.handles[i] == handle_slot_view(self.session_handles@[i]),
            forall|i: int| 0 <= i < 3 ==> #[trigger] self@.states[i] == state_slot_view(self.session_states@[i]),
    {
    }

    /// Resources with no session and no transient object.
    pub fn default() -> (r: CommandResources)
        ensures
            r@ == empty_resources(),
    {
        let r = CommandResources {
            session_handles: [None, None, None],
            session_states: [None, None, None],
            transient_handles: Vec::new(),
        };
        assert(r@.handles =~= empty_resources().handles);
        assert(r@.states =~= empty_resources().states);
        assert(r@.transients =~= Seq::<u32>::empty());
        r
    }

    /// The handle in each slot.
    pub fn session_handles(&self) -> (h: [Option<TpmiShAuthSession>; 3])
        ensures
            h@.map_values(|x: Option<TpmiShAuthSession>| handle_slot_view(x)) == self@.handles,
    {
        self.session_handles
    }

    /// The state in each slot.
    pub fn session_states(&self) -> (s: &[Option<SessionState>; 3])
        ensures
            s@.map_values(|x: Option<SessionState>| state_slot_view(x)) == self@.states,
    {
        &self.session_states
    }

    /// The transient objects to flush.
    pub fn transient_handles(&self) -> (t: &[TpmiDhObject])
        ensures
            t@.map_values(|h: TpmiDhObject| h.0.0) == self@.transients,
    {
        self.transient_handles.as_slice()
    }

    /// Puts `handle` in the first free slot; fails where none is free.
    pub fn add_session_handle(&mut self, handle: TpmiShAuthSession) -> (r: Result<(), Error>)
        ensures
            match find_from(old(self)@.handles, None, 0) {
                Some(i) => r is Ok && final(self)@ == (ResourcesModel {
                    handles: old(self)@.handles.update(i, Some(handle.0.0)),
                    ..old(self)@
                }),
                None => r matches Err(e) && e is Internal && final(self)@ == old(self)@,
            },
    {
        proof {
            self.lemma_view_wf();
            lemma_find_from_bounds(self@.handles, None, 0);
        }
        let mut i: usize = 0;
        while i < SESSION_SLOTS
            invariant
                i <= SESSION_SLOTS,
                self@ == old(self)@,
                resources_wf(self@),
                forall|j: int| 0 <= j < 3 ==> #[trigger] self@.handles[j] == handle_slot_view(self.session_handles@[j]),
                find_from(self@.handles, None, 0) == find_from(self@.handles, None, i as int),
            decreases SESSION_SLOTS - i,
        {
            if self.session_handles[i].is_none() {
                self.session_handles[i] = Some(handle);
                assert(self@.handles =~= old(self)@.handles.update(i as int, Some(handle.0.0)));
                assert(self@.states =~= old(self)@.states);
                assert(self@.transients =~= old(self)@.transients);
                return Ok(());
            }
            i += 1;
        }
        Err(Error::invalid_state("no available session handle slots"))
    }

    /// Puts `state` in the first free slot; fails where none is free.
    pub fn add_session_state(&mut self, state: SessionState) -> (r: Result<(), Error>)
        ensures
            match find_from(old(self)@.states, None, 0) {
                Some(i) => r is Ok && final(self)@ == (ResourcesModel {
                    states: old(self)@.states.update(i, Some(state@)),
                    ..old(self)@
                }),
                None => r matches Err(e) && e is Internal && final(self)@ == old(self)@,
            },
    {
        proof {
            self.lemma_view_wf();
        }
        let mut i: usize = 0;
        while i < SESSION_SLOTS
            invariant
                i <= SESSION_SLOTS,
                self@ == old(self)@,
                resources_wf(self@),
                forall|j: int| 0 <= j < 3 ==> #[trigger] self@.states[j] == state_slot_view(self.session_states@[j]),
                find_from(self@.states, None, 0) == find_from(self@.states, None, i as int),
            decreases SESSION_SLOTS - i,
        {
            if self.session_states[i].is_none() {
                self.session_states[i] = Some(state);
                assert(self@.states =~= old(self)@.states.update(i as int, Some(state@)));
                assert(self@.handles =~= old(self)@.handles);
                assert(self@.transients =~= old(self)@.transients);
                return Ok(());
            }
            i += 1;
        }
        Err(Error::invalid_state("no available session state slots"))
    }

    /// Records a transient object to flush.
    pub fn add_transient_handle(&mut self, handle: TpmiDhObject)
        ensures
            final(self)@ == (ResourcesModel { transients: old(self)@.transients.push(handle.0.0), ..old(self)@ }),
    {
        self.transient_handles.push(handle);
        assert(self@.transients =~= old(self)@.transients.push(handle.0.0));
        assert(self@.handles =~= old(self)@.handles);
        assert(self@.states =~= old(self)@.states);
    }

    /// The slot of `session_handle`; fails where it is not tracked.
    pub fn session_state_idx(&self, session_handle: TpmiShAuthSession) -> (r: Result<usize, Error>)
        ensures
            match slot_of(self@, session_handle.0.0) {
                Some(i) => r == Ok::<usize, Error>(i as usize),
                None => r matches Err(e) && e is Internal,
            },
    {
        proof {
            self.lemma_view_wf();
        }
        let mut i: usize = 0;
        while i < SESSION_SLOTS
            invariant
                i <= SESSION_SLOTS,
                resources_wf(self@),
                forall|j: int| 0 <= j < 3 ==> #[trigger] self@.handles[j] == handle_slot_view(self.session_handles@[j]),
                slot_of(self@, session_handle.0.0) == find_from(self@.handles, Some(session_handle.0.0), i as int),
            decreases SESSION_SLOTS - i,
        {
            match self.session_handles[i] {
                Some(h) => {
                    if h.value() == session_handle.value() {
                        return Ok(i);
                    }
                },
                None => {},
            }
            i += 1;
        }
        Err(Error::invalid_state("session handle must be tracked"))
    }

    /// The state of the session `session_handle`; fails where it has none.
    pub fn get_session_state(&self, session_handle: TpmiShAuthSession) -> (r: Result<&SessionState, Error>)
        ensures
            match session_of(self@, session_handle.0.0) {
                Some(st) => r matches Ok(s) && s@ == st,
                None => r matches Err(e) && e is Internal,
            },
    {
        proof {
            self.lemma_view_wf();
            lemma_find_from_bounds(self@.handles, Some(session_handle.0.0), 0);
        }
        let idx = self.session_state_idx(session_handle)?;
        match &self.session_states[idx] {
            Some(state) => Ok(state),
            None => Err(Error::invalid_state("session handle must have a corresponding session state")),
        }
    }

    /// Records the TPM's new nonce for the session `session_handle`; fails
    /// where it has no state.
    pub fn update_session_nonce(&mut self, session_handle: TpmiShAuthSession, nonce_tpm: Tpm2bNonce) -> (r: Result<
        (),
        Error,
    >)
        ensures
            match (slot_of(old(self)@, session_handle.0.0), session_of(old(self)@, session_handle.0.0)) {
                (Some(i), Some(st)) => r is Ok && final(self)@ == (ResourcesModel {
                    states: old(self)@.states.update(i, Some(SessionModel { nonce_tpm: nonce_tpm@, ..st })),
                    ..old(self)@
                }),
                _ => r matches Err(e) && e is Internal && final(self)@ == old(self)@,
            },
    {
        proof {
            self.lemma_view_wf();
            lemma_find_from_bounds(self@.handles, Some(session_handle.0.0), 0);
        }
        let idx = self.session_state_idx(session_handle)?;
        match &self.session_states[idx] {
            Some(state) => {
                let updated = SessionState {
                    session_value: state.session_value.clone(),
                    nonce_tpm,
                    uses_hmac: state.uses_hmac,
                };
                self.session_states[idx] = Some(updated);
                proof {
                    assert(self@.states =~= old(self)@.states.update(
                        idx as int,
                        Some(SessionModel { nonce_tpm: nonce_tpm@, ..session_of(old(self)@, session_handle.0.0)->0 }),
                    ));
                    assert(self@.handles =~= old(self)@.handles);
                    assert(self@.transients =~= old(self)@.transients);
                }
                Ok(())
            },
            None => Err(Error::invalid_state("session handle must have a corresponding session state")),
        }
    }

    /// Ends the session in the first slot of `target`, if there is one.
    pub fn clear_session(&mut self, target: TpmiShAuthSession)
        ensures
            final(self)@ == clear_slot(old(self)@, target.0.0),
    {
        proof {
            self.lemma_view_wf();
            lemma_find_from_bounds(self@.handles, Some(target.0.0), 0);
        }
        match self.session_state_idx(target) {
            Ok(idx) => {
                self.session_handles[idx] = None;
                self.session_states[idx] = None;
                proof {
                    assert(self@.handles =~= old(self)@.handles.update(idx as int, None));
                    assert(self@.states =~= old(self)@.states.update(idx as int, None));
                    assert(self@.transients =~= old(self)@.transients);
                }
            },
            Err(_) => {},
        }
    }

    /// Ends every session.
    pub fn clear_sessions(&mut self)
        ensures
            final(self)@ == (ResourcesModel {
                handles: empty_resources().handles,
                states: empty_resources().states,
                ..old(self)@
            }),
    {
        self.session_handles = [None, None, None];
        self.session_states = [None, None, None];
        assert(self@.handles =~= empty_resources().handles);
        assert(self@.states =~= empty_resources().states);
        assert(self@.transients =~= old(self)@.transients);
    }

    /// What flushing the sessions does with `slot`: nothing where it is free,
    /// only forgetting where it holds the password session, else flushing the
    /// session it holds.
    pub fn session_flush(&self, slot: usize) -> (f: SessionFlush)
        requires
            slot < SESSION_SLOTS,
        ensures
            match self@.handles[slot as int] {
                None => f is Free,
                Some(h) => if h == RS_PW {
                    f is Forget
                } else {
                    f matches SessionFlush::Flush(c) && c.0.0 == h
                },
            },
    {
        proof {
            self.lemma_view_wf();
        }
        match self.session_handles[slot] {
            None => SessionFlush::Free,
            Some(h) => {
                if h.0.0 == RS_PW {
                    SessionFlush::Forget
                } else {
                    SessionFlush::Flush(TpmiDhContext(h.0))
                }
            },
        }
    }

    /// Frees the handle of `slot` once its session is flushed; its state goes
    /// when the flushing is done.
    pub fn forget_session_handle(&mut self, slot: usize)
        requires
            slot < SESSION_SLOTS,
        ensures
            final(self)@ == (ResourcesModel { handles: old(self)@.handles.update(slot as int, None), ..old(self)@ }),
    {
        proof {
            self.lemma_view_wf();
        }
        self.session_handles[slot] = None;
        assert(self@.handles =~= old(self)@.handles.update(slot as int, None));
        assert(self@.states =~= old(self)@.states);
        assert(self@.transients =~= old(self)@.transients);
    }

    /// Drops the state of every slot whose handle is free.
    pub fn drop_orphan_states(&mut self)
        ensures
            final(self)@.handles == old(self)@.handles,
            final(self)@.transients == old(self)@.transients,
            final(self)@.states.len() == SESSION_SLOTS,
            forall|i: int|
                0 <= i < SESSION_SLOTS ==> #[trigger] final(self)@.states[i] == if old(self)@.handles[i] is None {
                    None
                } else {
                    old(self)@.states[i]
                },
    {
        proof {
            self.lemma_view_wf();
        }
        let mut i: usize = 0;
        while i < SESSION_SLOTS
            invariant
                0 <= i <= SESSION_SLOTS,
                self@.handles == old(self)@.handles,
                self@.transients == old(self)@.transients,
                self.session_states@.len() == SESSION_SLOTS,
                self.session_handles@.len() == SESSION_SLOTS,
                old(self)@.handles.len() == SESSION_SLOTS,
                old(self)@.states.len() == SESSION_SLOTS,
                forall|j: int| 0 <= j < i ==> #[trigger] self@.states[j] == if old(self)@.handles[j] is None {
                    None
                } else {
                    old(self)@.states[j]
                },
                forall|j: int| i <= j < SESSION_SLOTS ==> #[trigger] self@.states[j] == old(self)@.states[j],
            decreases SESSION_SLOTS - i,
        {
            proof {
                self.lemma_view_wf();
            }
            let ghost prev = self@;
            assert(prev.handles[i as int] == handle_slot_view(self.session_handles@[i as int]));
            if self.session_handles[i].is_none() {
                self.session_states[i] = None;
                assert(self@.states =~= prev.states.update(i as int, None));
            }
            assert(self@.handles =~= prev.handles);
            assert(self@.transients =~= prev.transients);
            i += 1;
        }
    }

    /// What flushing the transient objects does with the one at `index`:
    /// nothing where it was flushed already, else flushing it, which needs it
    /// to be a transient object.
    pub fn transient_flush(&self, index: usize) -> (r: Result<Option<TpmiDhContext>, Error>)
        requires
            index < self@.transients.len(),
        ensures
            ({
                let h = self@.transients[index as int];
                if h == RH_NULL {
                    r matches Ok(None)
                } else if is_transient_handle(h) {
                    r matches Ok(Some(c)) && c.0.0 == h
                } else {
                    r == Err::<Option<TpmiDhContext>, Error>(Error::Internal)
                }
            }),
    {
        let handle = self.transient_handles[index];
        assert(self@.transients[index as int] == handle.0.0);
        if handle.0.0 == RH_NULL {
            return Ok(None);
        }
        match TpmiDhContext::try_from(handle) {
            Ok(c) => Ok(Some(c)),
            Err(_) => Err(Error::Internal),
        }
    }

    /// Marks the transient object at `index` as flushed.
    pub fn mark_transient_flushed(&mut self, index: usize)
        requires
            index < old(self)@.transients.len(),
        ensures
            final(self)@ == (ResourcesModel {
                transients: old(self)@.transients.update(index as int, RH_NULL),
                ..old(self)@
            }),
    {
        self.transient_handles.set(index, TpmiDhObject(TpmHandle(RH_NULL)));
        assert(self@.transients =~= old(self)@.transients.update(index as int, RH_NULL));
        assert(self@.handles =~= old(self)@.handles);
        assert(self@.states =~= old(self)@.states);
    }

    /// The first place of `target` among the transient objects, where it is one.
    pub fn transient_index(&self, target: TpmiDhObject) -> (r: Option<usize>)
        ensures
            match r {
                Some(i) => find_from(self@.transients, target.0.0, 0) == Some(i as int),
                None => find_from(self@.transients, target.0.0, 0) is None,
            },
    {
        let mut i: usize = 0;
        while i < self.transient_handles.len()
            invariant
                i <= self@.transients.len(),
                self@.transients.len() == self.transient_handles@.len(),
                find_from(self@.transients, target.0.0, 0) == find_from(self@.transients, target.0.0, i as int),
            decreases self@.transients.len() - i,
        {
            assert(self@.transients[i as int] == self.transient_handles@[i as int].0.0);
            if self.transient_handles[i].0.0 == target.0.0 {
                return Some(i);
            }
            i += 1;
        }
        None
    }

    /// The first slot that holds an HMAC session with its state.
    pub fn find_hmac_session(&self) -> (r: Option<(TpmiShAuthSession, &SessionState)>)
        ensures
            match r {
                Some((h, st)) => exists|i: int|
                    0 <= i < 3 && #[trigger] self@.handles[i] == Some(h.0.0) && is_hmac_session_handle(h.0.0)
                        && self@.states[i] == Some(st@) && forall|j: int|
                        0 <= j < i ==> !hmac_slot(#[trigger] self@.handles[j], self@.states[j]),
                None => forall|j: int| 0 <= j < 3 ==> !hmac_slot(#[trigger] self@.handles[j], self@.states[j]),
            },
    {
        proof {
            self.lemma_view_wf();
        }
        let mut i: usize = 0;
        while i < SESSION_SLOTS
            invariant
                i <= SESSION_SLOTS,
                resources_wf(self@),
                forall|j: int| 0 <= j < 3 ==> #[trigger] self@.handles[j] == handle_slot_view(self.session_handles@[j]),
                forall|j: int| 0 <= j < 3 ==> #[trigger] self@.states[j] == state_slot_view(self.session_states@[j]),
                forall|j: int| 0 <= j < i ==> !hmac_slot(#[trigger] self@.handles[j], self@.states[j]),
            decreases SESSION_SLOTS - i,
        {
            match (self.session_handles[i], &self.session_states[i]) {
                (Some(handle), Some(state)) => {
                    let v = handle.value();
                    if HR_HMAC_SESSION_FIRST <= v && v <= HR_HMAC_SESSION_LAST {
                        assert(self@.handles[i as int] == Some(handle.0.0));
                        return Some((handle, state));
                    }
                },
                _ => {},
            }
            i += 1;
        }
        None
    }
}

/// Whether a slot holds an HMAC session with its state.
pub open spec fn hmac_slot(handle: Option<u32>, state: Option<SessionModel>) -> bool {
    handle matches Some(h) && is_hmac_session_handle(h) && state is Some
}


/// The session attributes of a policy session that goes with an HMAC
/// session with `hmac_session_attrs`: only "continue session", where that is set.
pub fn policy_session_attrs_from_hmac(hmac_session_attrs: TpmaSession) -> (a: TpmaSession)
    ensures
        a.0 == (if hmac_session_attrs.0 & SESSION_CONTINUE_SESSION == SESSION_CONTINUE_SESSION {
            SESSION_CONTINUE_SESSION
        } else {
            0
        }),
{
    if hmac_session_attrs.contains(SESSION_CONTINUE_SESSION) {
        TpmaSession::continue_session()
    } else {
        TpmaSession::empty()
    }
}

/// That a response carries as many authorizations as the command did.
pub fn ensure_matching_auth_count(auth_commands: &[TpmsAuthCommand], auth_responses: &[TpmsAuthResponse]) -> (r:
    Result<(), Error>)
    ensures
        match r {
            Ok(()) => auth_commands@.len() == auth_responses@.len(),
            Err(e) => auth_commands@.len() != auth_responses@.len() && e is InvalidData,
        },
{
    if auth_commands.len() != auth_responses.len() {
        return Err(Error::InvalidData);
    }
    Ok(())
}

/// The HMAC that a response authorization must carry for a session.
pub open spec fn expected_response_hmac(
    st: SessionModel,
    command_code: u32,
    parameters: Seq<u8>,
    nonce_caller: Seq<u8>,
    resp: AuthResponseModel,
) -> Seq<u8> {
    spec_hmac_sha256(
        st.session_value,
        response_hmac_input(spec_sha256(rp_hash_input(command_code, parameters)), resp.0, nonce_caller, resp.1),
    )
}

/// The check of one response authorization: the password session is not
/// checked; another session must be tracked, and where it signs, the HMAC
/// must be the expected one.
pub open spec fn check_response_auth(
    command_code: u32,
    parameters: Seq<u8>,
    res: ResourcesModel,
    cmd: AuthCommandModel,
    resp: AuthResponseModel,
) -> Result<(), Error> {
    if cmd.session_handle == RS_PW {
        Ok(())
    } else {
        match session_of(res, cmd.session_handle) {
            None => Err(Error::Internal),
            Some(st) => if st.uses_hmac && resp.2 != expected_response_hmac(
                st,
                command_code,
                parameters,
                cmd.nonce,
                resp,
            ) {
                Err(Error::InvalidData)
            } else {
                Ok(())
            },
        }
    }
}

/// A response authorization of a tracked session that signs is accepted
/// exactly where its HMAC is HMAC-SHA256 under the session value of the
/// SHA-256 digest of the success code, the command code and the response
/// parameters, followed by the TPM's new nonce, the caller's nonce and the
/// session attributes; anything else is refused as invalid data. A session
/// that does not sign is not checked, nor is the password session; an
/// untracked session is an internal error.
pub proof fn law_response_hmac_checked(
    command_code: u32,
    parameters: Seq<u8>,
    res: ResourcesModel,
    cmd: AuthCommandModel,
    resp: AuthResponseModel,
)
    ensures
        cmd.session_handle == 0x4000_0009 ==> check_response_auth(command_code, parameters, res, cmd, resp) == Ok::<
            (),
            Error,
        >(()),
        cmd.session_handle != 0x4000_0009 ==> match session_of(res, cmd.session_handle) {
            None => check_response_auth(command_code, parameters, res, cmd, resp) == Err::<(), Error>(Error::Internal),
            Some(st) => {
                let expected = spec_hmac_sha256(
                    st.session_value,
                    spec_sha256(seq![0u8, 0u8, 0u8, 0u8] + u32_bytes(command_code) + parameters) + resp.0 + cmd.nonce
                        + seq![resp.1],
                );
                check_response_auth(command_code, parameters, res, cmd, resp) == if st.uses_hmac && resp.2
                    != expected {
                    Err::<(), Error>(Error::InvalidData)
                } else {
                    Ok(())
                }
            },
        },
{
    crate::crypto::law_session_crypto_layouts(
        command_code,
        Seq::empty(),
        parameters,
        Seq::empty(),
        Seq::empty(),
        Seq::empty(),
        0,
        Seq::empty(),
        Seq::empty(),
        Seq::empty(),
        Seq::empty(),
    );
}

/// The checks of the first `n` response authorizations, in order.
pub open spec fn check_response_auths(
    command_code: u32,
    parameters: Seq<u8>,
    res: ResourcesModel,
    cmds: Seq<AuthCommandModel>,
    resps: Seq<AuthResponseModel>,
    n: nat,
) -> Result<(), Error>
    decreases n,
{
    if n == 0 {
        Ok(())
    } else {
        match check_response_auths(command_code, parameters, res, cmds, resps, (n - 1) as nat) {
            Err(e) => Err(e),
            Ok(()) => check_response_auth(command_code, parameters, res, cmds[n - 1], resps[n - 1]),
        }
    }
}

/// `params` with the payload of its leading TPM2B decrypted for a session,
/// or `None` where `params` does not start with a whole TPM2B.
pub open spec fn decrypt_leading_tpm2b(
    params: Seq<u8>,
    st: SessionModel,
    nonce_newer: Seq<u8>,
    nonce_older: Seq<u8>,
) -> Option<Seq<u8>> {
    match tpm2b_payload_range(params) {
        Some((start, end)) => Some(params.take(start) + cfb_decrypt(
            cfb_key(st.session_value, nonce_newer, nonce_older),
            cfb_iv(st.session_value, nonce_newer, nonce_older),
            params.subrange(start, end),
        ) + params.skip(end)),
        None => None,
    }
}

/// `params` with the payload of its leading TPM2B encrypted for a session,
/// or `None` where `params` does not start with a whole TPM2B.
pub open spec fn encrypt_leading_tpm2b(
    params: Seq<u8>,
    st: SessionModel,
    nonce_newer: Seq<u8>,
    nonce_older: Seq<u8>,
) -> Option<Seq<u8>> {
    match tpm2b_payload_range(params) {
        Some((start, end)) => Some(params.take(start) + cfb_encrypt(
            cfb_key(st.session_value, nonce_newer, nonce_older),
            cfb_iv(st.session_value, nonce_newer, nonce_older),
            params.subrange(start, end),
        ) + params.skip(end)),
        None => None,
    }
}

/// The resources with the TPM's new nonce in the state of `handle`'s slot.
pub open spec fn set_session_nonce(res: ResourcesModel, handle: u32, st: SessionModel, nonce: Seq<u8>) -> ResourcesModel {
    match slot_of(res, handle) {
        Some(i) => ResourcesModel { states: res.states.update(i, Some(SessionModel { nonce_tpm: nonce, ..st })), ..res },
        None => res,
    }
}

/// What one response authorization does to the parameters and the sessions:
/// where the command asked for response encryption, the leading parameter is
/// decrypted; a session that the TPM continues takes its new nonce, another
/// one ends.
pub open spec fn apply_response_auth(
    params: Seq<u8>,
    res: ResourcesModel,
    cmd: AuthCommandModel,
    resp: AuthResponseModel,
) -> Result<(Seq<u8>, ResourcesModel), Error> {
    if cmd.session_handle == RS_PW {
        Ok((params, res))
    } else {
        match session_of(res, cmd.session_handle) {
            None => Err(Error::Internal),
            Some(st) => {
                let decrypted = if cmd.session_attributes & SESSION_ENCRYPT == SESSION_ENCRYPT {
                    decrypt_leading_tpm2b(params, st, resp.0, cmd.nonce)
                } else {
                    Some(params)
                };
                match decrypted {
                    None => Err(Error::InvalidData),
                    Some(p2) => if resp.1 & SESSION_CONTINUE_SESSION == SESSION_CONTINUE_SESSION {
                        Ok((p2, set_session_nonce(res, cmd.session_handle, st, resp.0)))
                    } else {
                        Ok((p2, clear_slot(res, cmd.session_handle)))
                    },
                }
            },
        }
    }
}

/// The first `n` response authorizations applied in order.
pub open spec fn apply_response_auths(
    params: Seq<u8>,
    res: ResourcesModel,
    cmds: Seq<AuthCommandModel>,
    resps: Seq<AuthResponseModel>,
    n: nat,
) -> Result<(Seq<u8>, ResourcesModel), Error>
    decreases n,
{
    if n == 0 {
        Ok((params, res))
    } else {
        match apply_response_auths(params, res, cmds, resps, (n - 1) as nat) {
            Err(e) => Err(e),
            Ok((p, r)) => apply_response_auth(p, r, cmds[n - 1], resps[n - 1]),
        }
    }
}

/// The parameters and sessions once the first `n` response authorizations
/// were applied, as far as they went: a step that fails changes nothing, and
/// nothing after it is applied.
pub open spec fn applied_until_failure(
    params: Seq<u8>,
    res: ResourcesModel,
    cmds: Seq<AuthCommandModel>,
    resps: Seq<AuthResponseModel>,
    n: nat,
) -> (Seq<u8>, ResourcesModel)
    decreases n,
{
    if n == 0 {
        (params, res)
    } else {
        match apply_response_auths(params, res, cmds, resps, (n - 1) as nat) {
            Err(_) => applied_until_failure(params, res, cmds, resps, (n - 1) as nat),
            Ok((p, r)) => match apply_response_auth(p, r, cmds[n - 1], resps[n - 1]) {
                Ok(next) => next,
                Err(_) => (p, r),
            },
        }
    }
}

proof fn lemma_applied_until_failure(
    params: Seq<u8>,
    res: ResourcesModel,
    cmds: Seq<AuthCommandModel>,
    resps: Seq<AuthResponseModel>,
    i: nat,
    m: nat,
)
    requires
        i < m,
        apply_response_auths(params, res, cmds, resps, i) is Ok,
        apply_response_auth(
            apply_response_auths(params, res, cmds, resps, i)->Ok_0.0,
            apply_response_auths(params, res, cmds, resps, i)->Ok_0.1,
            cmds[i as int],
            resps[i as int],
        ) is Err,
    ensures
        applied_until_failure(params, res, cmds, resps, m) == apply_response_auths(params, res, cmds, resps, i)->Ok_0,
    decreases m,
{
    if m > i + 1 {
        lemma_apply_fails_after(params, res, cmds, resps, i, (m - 1) as nat);
        lemma_applied_until_failure(params, res, cmds, resps, i, (m - 1) as nat);
    }
}

/// What processing a response's authorization area gives: the counts must
/// match, every authorization must check out against the parameters as
/// received, then each is applied in order.
pub open spec fn process_response_auths(
    command_code: u32,
    params: Seq<u8>,
    res: ResourcesModel,
    cmds: Seq<AuthCommandModel>,
    resps: Seq<AuthResponseModel>,
) -> Result<(Seq<u8>, ResourcesModel), Error> {
    if cmds.len() != resps.len() {
        Err(Error::InvalidData)
    } else {
        match check_response_auths(command_code, params, res, cmds, resps, cmds.len()) {
            Err(e) => Err(e),
            Ok(()) => apply_response_auths(params, res, cmds, resps, cmds.len()),
        }
    }
}

pub open spec fn response_auth_views(resps: Seq<TpmsAuthResponse>) -> Seq<AuthResponseModel> {
    resps.map_values(|a: TpmsAuthResponse| a@)
}

/// Checks and applies the authorization area of a response.
pub fn process_response_authorization_area(
    command_code: TpmCc,
    auth_commands: &[TpmsAuthCommand],
    auth_responses: &[TpmsAuthResponse],
    parameters: &mut [u8],
    resources: &mut CommandResources,
) -> (r: Result<(), Error>)
    ensures
        match process_response_auths(
            command_code.0,
            old(parameters)@,
            old(resources)@,
            auth_views(auth_commands@),
            response_auth_views(auth_responses@),
        ) {
            Ok((p, res)) => r is Ok && final(parameters)@ == p && final(resources)@ == res,
            Err(e) => r == Err::<(), Error>(e) && if auth_commands@.len() != auth_responses@.len()
                || check_response_auths(
                command_code.0,
                old(parameters)@,
                old(resources)@,
                auth_views(auth_commands@),
                response_auth_views(auth_responses@),
                auth_commands@.len(),
            ) is Err {
                final(parameters)@ == old(parameters)@ && final(resources)@ == old(resources)@
            } else {
                (final(parameters)@, final(resources)@) == applied_until_failure(
                    old(parameters)@,
                    old(resources)@,
                    auth_views(auth_commands@),
                    response_auth_views(auth_responses@),
                    auth_commands@.len(),
                )
            },
        },
{
    ensure_matching_auth_count(auth_commands, auth_responses)?;
    let ghost cmds = auth_views(auth_commands@);
    let ghost resps = response_auth_views(auth_responses@);

    let mut i: usize = 0;
    while i < auth_commands.len()
        invariant
            auth_commands@.len() == auth_responses@.len(),
            cmds == auth_views(auth_commands@),
            resps == response_auth_views(auth_responses@),
            i <= auth_commands@.len(),
            check_response_auths(command_code.0, parameters@, resources@, cmds, resps, i as nat) is Ok,
            parameters@ == old(parameters)@,
            resources@ == old(resources)@,
        decreases auth_commands@.len() - i,
    {
        let auth_command = &auth_commands[i];
        let auth_response = &auth_responses[i];
        assert(cmds[i as int] == auth_command@);
        assert(resps[i as int] == auth_response@);
        let session_handle = auth_command.session_handle();
        if session_handle.value() != RS_PW {
            let session_state = match resources.get_session_state(session_handle) {
                Ok(st) => st,
                Err(e) => {
                    proof {
                        lemma_check_fails_after(command_code.0, parameters@, resources@, cmds, resps, i as nat, cmds.len());
                    }
                    return Err(e);
                },
            };
            if session_state.uses_hmac {
                match verify_response_hmac(
                    session_state.session_value.as_slice(),
                    command_code,
                    parameters,
                    auth_command.nonce().as_bytes(),
                    auth_response,
                ) {
                    Ok(()) => {},
                    Err(e) => {
                        proof {
                            lemma_check_fails_after(command_code.0, parameters@, resources@, cmds, resps, i as nat, cmds.len());
                        }
                        return Err(e);
                    },
                }
            }
        }
        i += 1;
    }

    apply_response_session_attrs(parameters, auth_commands, auth_responses, resources)
}

/// Applies each response authorization in order: decrypts the leading
/// parameter where asked, and continues or ends each session.
pub fn apply_response_session_attrs(
    parameters: &mut [u8],
    auth_commands: &[TpmsAuthCommand],
    auth_responses: &[TpmsAuthResponse],
    resources: &mut CommandResources,
) -> (r: Result<(), Error>)
    requires
        auth_commands@.len() == auth_responses@.len(),
    ensures
        match apply_response_auths(
            old(parameters)@,
            old(resources)@,
            auth_views(auth_commands@),
            response_auth_views(auth_responses@),
            auth_commands@.len(),
        ) {
            Ok((p, res)) => r is Ok && final(parameters)@ == p && final(resources)@ == res,
            Err(e) => r == Err::<(), Error>(e) && (final(parameters)@, final(resources)@) == applied_until_failure(
                old(parameters)@,
                old(resources)@,
                auth_views(auth_commands@),
                response_auth_views(auth_responses@),
                auth_commands@.len(),
            ),
        },
{
    let ghost cmds = auth_views(auth_commands@);
    let ghost resps = response_auth_views(auth_responses@);
    let mut i: usize = 0;
    while i < auth_commands.len()
        invariant
            auth_commands@.len() == auth_responses@.len(),
            cmds == auth_views(auth_commands@),
            resps == response_auth_views(auth_responses@),
            i <= auth_commands@.len(),
            apply_response_auths(old(parameters)@, old(resources)@, cmds, resps, i as nat) == Ok::<
                (Seq<u8>, ResourcesModel),
                Error,
            >((parameters@, resources@)),
        decreases auth_commands@.len() - i,
    {
        let auth_command = &auth_commands[i];
        let auth_response = &auth_responses[i];
        assert(cmds[i as int] == auth_command@);
        assert(resps[i as int] == auth_response@);
        let session_handle = auth_command.session_handle();
        if session_handle.value() != RS_PW {
            let ghost st = session_of(resources@, session_handle.0.0)->0;
            let session_state = match resources.get_session_state(session_handle) {
                Ok(st) => st,
                Err(e) => {
                    proof {
                        lemma_apply_fails_after(old(parameters)@, old(resources)@, cmds, resps, i as nat, cmds.len());
                        lemma_applied_until_failure(old(parameters)@, old(resources)@, cmds, resps, i as nat, cmds.len());
                    }
                    return Err(e);
                },
            };
            if auth_command.session_attributes().contains(SESSION_ENCRYPT) {
                let payload = match tpm2b_buffer_mut(parameters) {
                    Ok(p) => p,
                    Err(e) => {
                        proof {
                            lemma_apply_fails_after(old(parameters)@, old(resources)@, cmds, resps, i as nat, cmds.len());
                            lemma_applied_until_failure(
                                old(parameters)@,
                                old(resources)@,
                                cmds,
                                resps,
                                i as nat,
                                cmds.len(),
                            );
                        }
                        return Err(e);
                    },
                };
                let _ = decrypt_parameter(
                    session_state.session_value.as_slice(),
                    auth_response.nonce.as_bytes(),
                    auth_command.nonce().as_bytes(),
                    payload,
                );
            }
            if auth_response.session_attributes.contains(SESSION_CONTINUE_SESSION) {
                let _ = resources.update_session_nonce(
                    session_handle,
                    Tpm2bNonce { buffer: auth_response.nonce.buffer.clone() },
                );
            } else {
                resources.clear_session(session_handle);
            }
        }
        i += 1;
    }
    Ok(())
}


proof fn lemma_check_fails_after(
    command_code: u32,
    parameters: Seq<u8>,
    res: ResourcesModel,
    cmds: Seq<AuthCommandModel>,
    resps: Seq<AuthResponseModel>,
    i: nat,
    m: nat,
)
    requires
        i < m,
        check_response_auths(command_code, parameters, res, cmds, resps, i) is Ok,
    ensures
        check_response_auth(command_code, parameters, res, cmds[i as int], resps[i as int]) is Err
            ==> check_response_auths(command_code, parameters, res, cmds, resps, m) == check_response_auth(
            command_code,
            parameters,
            res,
            cmds[i as int],
            resps[i as int],
        ),
    decreases m,
{
    if m > i + 1 {
        lemma_check_fails_after(command_code, parameters, res, cmds, resps, i, (m - 1) as nat);
    }
}

proof fn lemma_apply_fails_after(
    params: Seq<u8>,
    res: ResourcesModel,
    cmds: Seq<AuthCommandModel>,
    resps: Seq<AuthResponseModel>,
    i: nat,
    m: nat,
)
    requires
        i < m,
        apply_response_auths(params, res, cmds, resps, i) is Ok,
    ensures
        ({
            let (p, r) = apply_response_auths(params, res, cmds, resps, i)->Ok_0;
            apply_response_auth(p, r, cmds[i as int], resps[i as int]) is Err ==> apply_response_auths(
                params,
                res,
                cmds,
                resps,
                m,
            ) == apply_response_auth(p, r, cmds[i as int], resps[i as int])
        }),
    decreases m,
{
    if m > i + 1 {
        lemma_apply_fails_after(params, res, cmds, resps, i, (m - 1) as nat);
    }
}


/// What one command authorization does to the parameters before signing:
/// where it asks for command encryption, the leading parameter is encrypted
/// with the session's key, the caller's nonce and the TPM's nonce.
pub open spec fn encrypt_command_auth(params: Seq<u8>, res: ResourcesModel, cmd: AuthCommandModel) -> Result<
    Seq<u8>,
    Error,
> {
    if cmd.session_handle == RS_PW || cmd.session_attributes & SESSION_DECRYPT != SESSION_DECRYPT {
        Ok(params)
    } else {
        match session_of(res, cmd.session_handle) {
            None => Err(Error::Internal),
            Some(st) => match encrypt_leading_tpm2b(params, st, cmd.nonce, st.nonce_tpm) {
                None => Err(Error::InvalidData),
                Some(p) => Ok(p),
            },
        }
    }
}

/// The first `n` command authorizations applied to the parameters in order.
pub open spec fn encrypt_command_auths(
    params: Seq<u8>,
    res: ResourcesModel,
    cmds: Seq<AuthCommandModel>,
    n: nat,
) -> Result<Seq<u8>, Error>
    decreases n,
{
    if n == 0 {
        Ok(params)
    } else {
        match encrypt_command_auths(params, res, cmds, (n - 1) as nat) {
            Err(e) => Err(e),
            Ok(p) => encrypt_command_auth(p, res, cmds[n - 1]),
        }
    }
}

/// The parameters once the first `n` command authorizations were applied,
/// as far as they went: a step that fails changes nothing, and nothing after
/// it is applied.
pub open spec fn encrypted_until_failure(params: Seq<u8>, res: ResourcesModel, cmds: Seq<AuthCommandModel>, n: nat) -> Seq<
    u8,
>
    decreases n,
{
    if n == 0 {
        params
    } else {
        match encrypt_command_auths(params, res, cmds, (n - 1) as nat) {
            Err(_) => encrypted_until_failure(params, res, cmds, (n - 1) as nat),
            Ok(p) => match encrypt_command_auth(p, res, cmds[n - 1]) {
                Ok(p2) => p2,
                Err(_) => p,
            },
        }
    }
}

/// The HMAC of a command authorization, where its session signs.
pub open spec fn command_auth_hmac(
    command_code: u32,
    names: Seq<Seq<u8>>,
    params: Seq<u8>,
    res: ResourcesModel,
    cmd: AuthCommandModel,
) -> Result<Option<Seq<u8>>, Error> {
    if cmd.session_handle == RS_PW {
        Ok(None)
    } else {
        match session_of(res, cmd.session_handle) {
            None => Err(Error::Internal),
            Some(st) => if st.uses_hmac {
                Ok(
                    Some(
                        spec_hmac_sha256(
                            st.session_value,
                            command_hmac_input(
                                spec_sha256(cp_hash_input(command_code, names, params)),
                                cmd.nonce,
                                st.nonce_tpm,
                                cmd.session_attributes,
                            ),
                        ),
                    ),
                )
            } else {
                Ok(None)
            },
        }
    }
}

/// A command authorization of a tracked session that signs carries
/// HMAC-SHA256 under the session value of the SHA-256 digest of the command
/// code, the names of the command's handles and its parameters, followed by
/// the caller's nonce, the TPM's nonce of the session and the attributes; a
/// session that does not sign, and the password session, carry none; an
/// untracked session is an internal error.
pub proof fn law_command_hmac(
    command_code: u32,
    name: Seq<u8>,
    params: Seq<u8>,
    res: ResourcesModel,
    cmd: AuthCommandModel,
)
    ensures
        cmd.session_handle == 0x4000_0009 ==> command_auth_hmac(command_code, seq![name], params, res, cmd) == Ok::<
            Option<Seq<u8>>,
            Error,
        >(None),
        cmd.session_handle != 0x4000_0009 ==> match session_of(res, cmd.session_handle) {
            None => command_auth_hmac(command_code, seq![name], params, res, cmd) == Err::<Option<Seq<u8>>, Error>(
                Error::Internal,
            ),
            Some(st) => command_auth_hmac(command_code, seq![name], params, res, cmd) == if st.uses_hmac {
                Ok::<Option<Seq<u8>>, Error>(
                    Some(
                        spec_hmac_sha256(
                            st.session_value,
                            spec_sha256(u32_bytes(command_code) + name + params) + cmd.nonce + st.nonce_tpm + seq![
                                cmd.session_attributes,
                            ],
                        ),
                    ),
                )
            } else {
                Ok(None)
            },
        },
{
    crate::crypto::law_session_crypto_layouts(
        command_code,
        seq![name],
        params,
        Seq::empty(),
        Seq::empty(),
        Seq::empty(),
        0,
        Seq::empty(),
        Seq::empty(),
        Seq::empty(),
        Seq::empty(),
    );
}

/// The authorizations with the HMACs of the first `n` set, in order.
pub open spec fn sign_command_auths(
    command_code: u32,
    names: Seq<Seq<u8>>,
    params: Seq<u8>,
    res: ResourcesModel,
    cmds: Seq<AuthCommandModel>,
    n: nat,
) -> Result<Seq<AuthCommandModel>, Error>
    decreases n,
{
    if n == 0 {
        Ok(cmds)
    } else {
        match sign_command_auths(command_code, names, params, res, cmds, (n - 1) as nat) {
            Err(e) => Err(e),
            Ok(cs) => match command_auth_hmac(command_code, names, params, res, cmds[n - 1]) {
                Err(e) => Err(e),
                Ok(None) => Ok(cs),
                Ok(Some(h)) => Ok(cs.update(n - 1, AuthCommandModel { hmac: h, ..cs[n - 1] })),
            },
        }
    }
}

/// The authorizations once the HMACs of the first `n` were set, as far as
/// that went before one failed.
pub open spec fn signed_until_failure(
    command_code: u32,
    names: Seq<Seq<u8>>,
    params: Seq<u8>,
    res: ResourcesModel,
    cmds: Seq<AuthCommandModel>,
    n: nat,
) -> Seq<AuthCommandModel>
    decreases n,
{
    if n == 0 {
        cmds
    } else {
        match sign_command_auths(command_code, names, params, res, cmds, (n - 1) as nat) {
            Err(_) => signed_until_failure(command_code, names, params, res, cmds, (n - 1) as nat),
            Ok(cs) => match command_auth_hmac(command_code, names, params, res, cmds[n - 1]) {
                Err(_) => cs,
                Ok(None) => cs,
                Ok(Some(h)) => cs.update(n - 1, AuthCommandModel { hmac: h, ..cs[n - 1] }),
            },
        }
    }
}

proof fn lemma_encrypted_until_failure(
    params: Seq<u8>,
    res: ResourcesModel,
    cmds: Seq<AuthCommandModel>,
    i: nat,
    m: nat,
)
    requires
        i < m,
        encrypt_command_auths(params, res, cmds, i) is Ok,
        encrypt_command_auth(encrypt_command_auths(params, res, cmds, i)->Ok_0, res, cmds[i as int]) is Err,
    ensures
        encrypted_until_failure(params, res, cmds, m) == encrypt_command_auths(params, res, cmds, i)->Ok_0,
    decreases m,
{
    if m > i + 1 {
        lemma_encrypt_fails_after(params, res, cmds, i, (m - 1) as nat);
        lemma_encrypted_until_failure(params, res, cmds, i, (m - 1) as nat);
    }
}

proof fn lemma_signed_until_failure(
    command_code: u32,
    names: Seq<Seq<u8>>,
    params: Seq<u8>,
    res: ResourcesModel,
    cmds: Seq<AuthCommandModel>,
    i: nat,
    m: nat,
)
    requires
        i < m,
        sign_command_auths(command_code, names, params, res, cmds, i) is Ok,
        command_auth_hmac(command_code, names, params, res, cmds[i as int]) is Err,
    ensures
        signed_until_failure(command_code, names, params, res, cmds, m) == sign_command_auths(
            command_code,
            names,
            params,
            res,
            cmds,
            i,
        )->Ok_0,
    decreases m,
{
    if m > i + 1 {
        lemma_sign_fails_after(command_code, names, params, res, cmds, i, (m - 1) as nat);
        lemma_signed_until_failure(command_code, names, params, res, cmds, i, (m - 1) as nat);
    }
}

proof fn lemma_sign_keeps_len(
    command_code: u32,
    names: Seq<Seq<u8>>,
    params: Seq<u8>,
    res: ResourcesModel,
    cmds: Seq<AuthCommandModel>,
    n: nat,
)
    requires
        n <= cmds.len(),
    ensures
        sign_command_auths(command_code, names, params, res, cmds, n) matches Ok(cs) ==> cs.len() == cmds.len()
            && forall|j: int| n <= j < cmds.len() ==> #[trigger] cs[j] == cmds[j],
        sign_command_auths(command_code, names, params, res, cmds, n) matches Ok(cs) ==> forall|j: int|
            0 <= j < cmds.len() ==> (#[trigger] cs[j]).session_handle == cmds[j].session_handle && cs[j].nonce
                == cmds[j].nonce && cs[j].session_attributes == cmds[j].session_attributes,
    decreases n,
{
    if n > 0 {
        lemma_sign_keeps_len(command_code, names, params, res, cmds, (n - 1) as nat);
    }
}

proof fn lemma_encrypt_fails_after(
    params: Seq<u8>,
    res: ResourcesModel,
    cmds: Seq<AuthCommandModel>,
    i: nat,
    m: nat,
)
    requires
        i < m,
        encrypt_command_auths(params, res, cmds, i) is Ok,
    ensures
        ({
            let p = encrypt_command_auths(params, res, cmds, i)->Ok_0;
            encrypt_command_auth(p, res, cmds[i as int]) is Err ==> encrypt_command_auths(params, res, cmds, m)
                == encrypt_command_auth(p, res, cmds[i as int])
        }),
    decreases m,
{
    if m > i + 1 {
        lemma_encrypt_fails_after(params, res, cmds, i, (m - 1) as nat);
    }
}

proof fn lemma_sign_fails_after(
    command_code: u32,
    names: Seq<Seq<u8>>,
    params: Seq<u8>,
    res: ResourcesModel,
    cmds: Seq<AuthCommandModel>,
    i: nat,
    m: nat,
)
    requires
        i < m,
        sign_command_auths(command_code, names, params, res, cmds, i) is Ok,
    ensures
        command_auth_hmac(command_code, names, params, res, cmds[i as int]) matches Err(e)
            ==> sign_command_auths(command_code, names, params, res, cmds, m) == Err::<Seq<AuthCommandModel>, Error>(e),
    decreases m,
{
    if m > i + 1 {
        lemma_sign_fails_after(command_code, names, params, res, cmds, i, (m - 1) as nat);
    }
}

/// Whether signing the command needs the names of its handles: some session
/// of its authorization area signs, and every session before it is tracked.
pub open spec fn needs_names_upto(res: ResourcesModel, cmds: Seq<AuthCommandModel>, n: nat) -> bool
    decreases n,
{
    if n == 0 {
        false
    } else if needs_names_upto(res, cmds, (n - 1) as nat) {
        true
    } else {
        sign_needs_names(res, cmds, (n - 1) as nat)
    }
}

/// Whether the `i`-th authorization is the one that first needs the names.
pub open spec fn sign_needs_names(res: ResourcesModel, cmds: Seq<AuthCommandModel>, i: nat) -> bool {
    &&& cmds[i as int].session_handle != RS_PW
    &&& session_of(res, cmds[i as int].session_handle) matches Some(st) && st.uses_hmac
    &&& forall|j: int| 0 <= j < i && cmds[j].session_handle != RS_PW ==> session_of(res, #[trigger] cmds[j].session_handle) is Some
}

/// Whether the handle names must be looked up to sign `command`.
pub fn needs_handle_names(command: &Command, resources: &CommandResources) -> (b: bool)
    ensures
        b == needs_names_upto(resources@, command@.authorizations, command@.authorizations.len()),
{
    let auths = command.authorization_area();
    let ghost cmds = command@.authorizations;
    let mut i: usize = 0;
    while i < auths.len()
        invariant
            cmds == auth_views(auths@),
            cmds == command@.authorizations,
            i <= auths@.len(),
            !needs_names_upto(resources@, cmds, i as nat),
            forall|j: int| 0 <= j < i && cmds[j].session_handle != RS_PW ==> session_of(resources@, #[trigger] cmds[j].session_handle) is Some,
        decreases auths@.len() - i,
    {
        let auth = &auths[i];
        assert(auth_views(auths@)[i as int] == auths@[i as int]@);
        assert(cmds[i as int] == auth@);
        let handle = auth.session_handle();
        if handle.value() != RS_PW {
            match resources.get_session_state(handle) {
                Ok(st) => {
                    if st.uses_hmac {
                        proof {
                            lemma_needs_names_sticks(resources@, cmds, (i + 1) as nat, cmds.len());
                        }
                        return true;
                    }
                },
                Err(_) => {
                    proof {
                        lemma_needs_names_stops(resources@, cmds, i as nat, cmds.len());
                    }
                    return false;
                },
            }
        }
        i += 1;
    }
    false
}

proof fn lemma_needs_names_sticks(res: ResourcesModel, cmds: Seq<AuthCommandModel>, n: nat, m: nat)
    requires
        n <= m,
        needs_names_upto(res, cmds, n),
    ensures
        needs_names_upto(res, cmds, m),
    decreases m,
{
    if m > n {
        lemma_needs_names_sticks(res, cmds, n, (m - 1) as nat);
    }
}

proof fn lemma_needs_names_stops(res: ResourcesModel, cmds: Seq<AuthCommandModel>, i: nat, m: nat)
    requires
        i < m,
        !needs_names_upto(res, cmds, i),
        cmds[i as int].session_handle != RS_PW,
        session_of(res, cmds[i as int].session_handle) is None,
    ensures
        !needs_names_upto(res, cmds, m),
    decreases m,
{
    if m > i + 1 {
        lemma_needs_names_stops(res, cmds, i, (m - 1) as nat);
        assert(!sign_needs_names(res, cmds, (m - 1) as nat));
    }
}

/// Encrypts and signs a command for its sessions: first every authorization
/// that asks for it encrypts the leading parameter, then every session that
/// signs sets its HMAC over the encrypted parameters, with the names of the
/// command's handles.
pub fn prepare_command_authorization_area(
    command: &mut Command,
    resources: &CommandResources,
    handle_names: &[Vec<u8>],
) -> (r: Result<(), Error>)
    ensures
        ({
            let c = old(command)@;
            let n = c.authorizations.len();
            match encrypt_command_auths(c.parameters, resources@, c.authorizations, n) {
                Err(e) => r == Err::<(), Error>(e) && final(command)@ == (crate::command::CommandModel {
                    parameters: encrypted_until_failure(c.parameters, resources@, c.authorizations, n),
                    ..c
                }),
                Ok(p) => match sign_command_auths(
                    c.command_code,
                    names_view(handle_names@),
                    p,
                    resources@,
                    c.authorizations,
                    n,
                ) {
                    Err(e) => r == Err::<(), Error>(e) && final(command)@ == (crate::command::CommandModel {
                        parameters: p,
                        authorizations: signed_until_failure(
                            c.command_code,
                            names_view(handle_names@),
                            p,
                            resources@,
                            c.authorizations,
                            n,
                        ),
                        ..c
                    }),
                    Ok(cs) => r is Ok && final(command)@ == (crate::command::CommandModel {
                        parameters: p,
                        authorizations: cs,
                        ..c
                    }),
                },
            }
        }),
{
    let ghost c0 = command@;
    let ghost cmds = c0.authorizations;
    let count = command.authorization_area().len();

    let mut i: usize = 0;
    while i < count
        invariant
            count == cmds.len(),
            cmds == c0.authorizations,
            c0 == old(command)@,
            command@ == (crate::command::CommandModel { parameters: command@.parameters, ..c0 }),
            i <= count,
            encrypt_command_auths(c0.parameters, resources@, cmds, i as nat) == Ok::<Seq<u8>, Error>(
                command@.parameters,
            ),
        decreases count - i,
    {
        let (session_handle, nonce_caller, session_attrs) = {
            let auths = command.authorization_area();
            assert(auth_views(auths@).len() == auths@.len());
            let auth = &auths[i];
            assert(auth_views(auths@)[i as int] == auths@[i as int]@);
            (auth.session_handle(), Tpm2bNonce { buffer: auth.nonce().buffer.clone() }, auth.session_attributes())
        };
        assert(session_handle.0.0 == cmds[i as int].session_handle);
        assert(nonce_caller@ == cmds[i as int].nonce);
        assert(session_attrs.0 == cmds[i as int].session_attributes);
        if session_handle.value() != RS_PW && session_attrs.contains(SESSION_DECRYPT) {
            let session_state = match resources.get_session_state(session_handle) {
                Ok(st) => st,
                Err(e) => {
                    proof {
                        lemma_encrypt_fails_after(c0.parameters, resources@, cmds, i as nat, count as nat);
                        lemma_encrypted_until_failure(c0.parameters, resources@, cmds, i as nat, count as nat);
                    }
                    return Err(e);
                },
            };
            let params = command.parameters_mut();
            let payload = match tpm2b_buffer_mut(params) {
                Ok(p) => p,
                Err(e) => {
                    proof {
                        lemma_encrypt_fails_after(c0.parameters, resources@, cmds, i as nat, count as nat);
                        lemma_encrypted_until_failure(c0.parameters, resources@, cmds, i as nat, count as nat);
                    }
                    return Err(e);
                },
            };
            let _ = encrypt_parameter(
                session_state.session_value.as_slice(),
                nonce_caller.as_bytes(),
                session_state.nonce_tpm.as_bytes(),
                payload,
            );
        }
        i += 1;
    }

    let ghost p1 = command@.parameters;
    let ghost names = names_view(handle_names@);
    let mut i: usize = 0;
    while i < count
        invariant
            count == cmds.len(),
            cmds == c0.authorizations,
            c0 == old(command)@,
            encrypt_command_auths(c0.parameters, resources@, cmds, count as nat) == Ok::<Seq<u8>, Error>(p1),
            names == names_view(handle_names@),
            i <= count,
            sign_command_auths(c0.command_code, names, p1, resources@, cmds, i as nat) == Ok::<
                Seq<AuthCommandModel>,
                Error,
            >(command@.authorizations),
            command@ == (crate::command::CommandModel { authorizations: command@.authorizations, parameters: p1, ..c0 }),
        decreases count - i,
    {
        proof {
            lemma_sign_keeps_len(c0.command_code, names, p1, resources@, cmds, i as nat);
        }
        let (session_handle, nonce_caller, session_attrs) = {
            let auths = command.authorization_area();
            assert(auth_views(auths@).len() == auths@.len());
            let auth = &auths[i];
            assert(auth_views(auths@)[i as int] == auths@[i as int]@);
            (auth.session_handle(), Tpm2bNonce { buffer: auth.nonce().buffer.clone() }, auth.session_attributes())
        };
        assert(session_handle.0.0 == cmds[i as int].session_handle);
        assert(nonce_caller@ == cmds[i as int].nonce);
        assert(session_attrs.0 == cmds[i as int].session_attributes);
        if session_handle.value() != RS_PW {
            let session_state = match resources.get_session_state(session_handle) {
                Ok(st) => st,
                Err(e) => {
                    proof {
                        lemma_sign_fails_after(c0.command_code, names, p1, resources@, cmds, i as nat, count as nat);
                        lemma_signed_until_failure(c0.command_code, names, p1, resources@, cmds, i as nat, count as nat);
                    }
                    return Err(e);
                },
            };
            if session_state.uses_hmac {
                let hmac = {
                    let cp_hash_data = CpHashData {
                        command_code: command.header().command_code(),
                        handle_names,
                        parameters: command.parameters(),
                    };
                    compute_hmac(
                        session_state.session_value.as_slice(),
                        &cp_hash_data,
                        nonce_caller.as_bytes(),
                        session_state.nonce_tpm.as_bytes(),
                        session_attrs,
                    )
                };
                match hmac {
                    Ok(h) => command.set_authorization_hmac(i, h),
                    Err(e) => return Err(e),
                }
            }
        }
        i += 1;
    }
    Ok(())
}


/// The attributes of a session that is used again: an HMAC session takes
/// `hmac_session_attrs`, a policy session only "continue session" of them.
pub open spec fn reused_session_attrs(handle: u32, hmac_session_attrs: u8) -> u8 {
    if is_hmac_session_handle(handle) {
        hmac_session_attrs
    } else if hmac_session_attrs & SESSION_CONTINUE_SESSION == SESSION_CONTINUE_SESSION {
        SESSION_CONTINUE_SESSION
    } else {
        0
    }
}

/// What an authorization becomes when its sessions are used for another
/// command: the password session stays the password session; a session that
/// signs gets a fresh 32-byte nonce and an empty HMAC; another one keeps its
/// nonce and HMAC.
pub open spec fn reused_auth_ok(
    res: ResourcesModel,
    cmd: AuthCommandModel,
    new: AuthCommandModel,
    hmac_session_attrs: u8,
) -> bool {
    if cmd.session_handle == RS_PW {
        new == (AuthCommandModel {
            session_handle: RS_PW,
            nonce: Seq::empty(),
            session_attributes: 0,
            hmac: Seq::empty(),
        })
    } else {
        &&& session_of(res, cmd.session_handle) matches Some(st)
        &&& new.session_handle == cmd.session_handle
        &&& new.session_attributes == reused_session_attrs(cmd.session_handle, hmac_session_attrs)
        &&& if st.uses_hmac {
            new.nonce.len() == crate::crypto::NONCE_SIZE && new.hmac.len() == 0
        } else {
            new.nonce == cmd.nonce && new.hmac == cmd.hmac
        }
    }
}

/// The authorizations of `auth_commands` for another command over the same
/// sessions.
pub fn prepare_reused_sessions(
    resources: &CommandResources,
    auth_commands: &[TpmsAuthCommand],
    hmac_session_attrs: TpmaSession,
) -> (r: Result<Vec<TpmsAuthCommand>, Error>)
    ensures
        match r {
            Ok(v) => v@.len() == auth_commands@.len() && forall|i: int|
                0 <= i < v@.len() ==> reused_auth_ok(
                    resources@,
                    #[trigger] auth_views(auth_commands@)[i],
                    auth_views(v@)[i],
                    hmac_session_attrs.0,
                ),
            Err(e) => e is Internal,
        },
        (exists|i: int|
            0 <= i < auth_commands@.len() && (#[trigger] auth_views(auth_commands@)[i]).session_handle != RS_PW
                && session_of(resources@, auth_views(auth_commands@)[i].session_handle) is None) ==> r is Err,
{
    let ghost cmds = auth_views(auth_commands@);
    let mut new_auth_commands: Vec<TpmsAuthCommand> = Vec::new();
    let mut i: usize = 0;
    while i < auth_commands.len()
        invariant
            cmds == auth_views(auth_commands@),
            i <= auth_commands@.len(),
            new_auth_commands@.len() == i,
            forall|j: int|
                0 <= j < i ==> reused_auth_ok(
                    resources@,
                    #[trigger] cmds[j],
                    auth_views(new_auth_commands@)[j],
                    hmac_session_attrs.0,
                ),
            forall|j: int| 0 <= j < i ==> (#[trigger] cmds[j]).session_handle != RS_PW ==> session_of(resources@, cmds[j].session_handle) is Some,
        decreases auth_commands@.len() - i,
    {
        let auth_command = &auth_commands[i];
        assert(cmds[i as int] == auth_command@);
        let ghost done = auth_views(new_auth_commands@);
        let session_handle = auth_command.session_handle();
        if session_handle.value() == RS_PW {
            new_auth_commands.push(TpmsAuthCommand::password(TpmaSession::empty()));
        } else {
            let v = session_handle.value();
            let session_attrs = if HR_HMAC_SESSION_FIRST <= v && v <= HR_HMAC_SESSION_LAST {
                hmac_session_attrs
            } else {
                policy_session_attrs_from_hmac(hmac_session_attrs)
            };
            let session_state = resources.get_session_state(session_handle)?;
            let (nonce, hmac) = if session_state.uses_hmac {
                (crate::crypto::generate_caller_nonce()?, crate::tpm::Tpm2bAuth::empty())
            } else {
                (
                    Tpm2bNonce { buffer: auth_command.nonce().buffer.clone() },
                    crate::tpm::Tpm2bAuth { buffer: auth_command.hmac().buffer.clone() },
                )
            };
            new_auth_commands.push(TpmsAuthCommand::new(session_handle, nonce, session_attrs, hmac));
        }
        assert(auth_views(new_auth_commands@) =~= done.push(auth_views(new_auth_commands@)[i as int]));
        i += 1;
    }
    Ok(new_auth_commands)
}


/// After a session's handle and state are put in the same free slot, the
/// state read back for the handle is the one put there.
pub proof fn lemma_session_read_after_add(m: ResourcesModel, handle: u32, st: SessionModel)
    requires
        resources_wf(m),
        find_from(m.handles, None, 0) == find_from(m.states, None, 0),
        find_from(m.handles, None, 0) is Some,
        find_from(m.handles, Some(handle), 0) is None,
    ensures
        ({
            let i = find_from(m.handles, None, 0)->0;
            let added = ResourcesModel {
                handles: m.handles.update(i, Some(handle)),
                states: m.states.update(i, Some(st)),
                ..m
            };
            session_of(added, handle) == Some(st)
        }),
{
    let i = find_from(m.handles, None, 0)->0;
    lemma_find_from_bounds(m.handles, None, 0);
    lemma_find_from_bounds(m.handles, Some(handle), 0);
    let h2 = m.handles.update(i, Some(handle));
    lemma_find_from_bounds(h2, Some(handle), 0);
    assert(h2[i] == Some(handle));
    assert(find_from(h2, Some(handle), 0) == Some(i)) by {
        lemma_find_from_first(h2, Some(handle), 0, i);
    }
}

proof fn lemma_find_from_first<T>(s: Seq<T>, t: T, i: int, k: int)
    requires
        0 <= i <= k < s.len(),
        s[k] == t,
        forall|j: int| i <= j < k ==> s[j] != t,
    ensures
        find_from(s, t, i) == Some(k),
    decreases k - i,
{
    if i < k {
        lemma_find_from_first(s, t, i + 1, k);
    }
}

} // verus!
