//! The decisions of the operations that manage keys over several TPM
//! commands: making a key persistent, provisioning the library's own keys,
//! loading a key with its parents, creating a key and deleting one. Each is a
//! step function from a state and what the last command gave to the next
//! state and what to do next; the caller performs the action and reports back.
use vstd::prelude::*;

use crate::cache::{KeyId, KeyIdModel, TemporaryKey};
use crate::created::{spec_into_key_meta, spec_temporary_key_data, CreatedKey, CreatedKeyData, KeyData, KeyTemplate};
use crate::crypto::validate_obj_name;
use crate::error::{Error, ErrorSource};
use crate::plan::persist_target;
use crate::handle::{is_persistent_handle, TpmHandle, TpmiDhPersistent, HR_STORAGE_AVAILABLE_FIRST, HR_STORAGE_AVAILABLE_LAST};
use crate::keys::{KeyLoadData, KeyLoadModel, creation_parent, stored_parent_name, takes_no_parent, validate_key_creation, CreationParent};
use crate::policy::PolicyData;
use crate::store::{opt_policy_view, InternalKeyKind, InternalKeyMeta, KeyMeta, KeyMetaModel, TpmKeyMetaModel};
use crate::hierarchy::Hierarchy;
use crate::tpm::{Tpm2bAuth, Tpm2bName};

verus! {

/// The lower-level error that an error was raised from, where it has one.
pub open spec fn spec_error_source(e: Error) -> Option<ErrorSource> {
    match e {
        Error::Failure(s) => Some(s),
        Error::Connect(s) => Some(s),
        Error::Busy(s) => Some(s),
        Error::AuthorizationFailed(s) => Some(s),
        Error::InvalidSignature(s) => Some(s),
        Error::InvalidKey { source, .. } => source,
        Error::ResourceExhausted { source, .. } => source,
        Error::Unsupported { source, .. } => source,
        _ => None,
    }
}

/// The lower-level error that `e` was raised from, where it has one.
pub fn error_source(e: &Error) -> (s: Option<ErrorSource>)
    ensures
        s == spec_error_source(*e),
{
    match e {
        Error::Failure(s) => Some(*s),
        Error::Connect(s) => Some(*s),
        Error::Busy(s) => Some(*s),
        Error::AuthorizationFailed(s) => Some(*s),
        Error::InvalidSignature(s) => Some(*s),
        Error::InvalidKey { source, .. } => *source,
        Error::ResourceExhausted { source, .. } => *source,
        Error::Unsupported { source, .. } => *source,
        _ => None,
    }
}

// ---------------------------------------------------------------------------
// Making a stored key persistent.
// ---------------------------------------------------------------------------

/// The first handle that a persistent key of the user is looked for at.
pub const USER_PERSISTENT_FIRST: u32 = 0x8100_0002;

/// Where making a key persistent stands.
#[derive(Debug)]
pub enum PersistState {
    /// Nothing has happened yet.
    Idle,
    /// The key is being loaded; it goes to `target`, or to the first free
    /// handle from there up to `search_end`.
    LoadingKey { target: u32, search_end: Option<u32> },
    /// The key is loaded at `object`; the key that salts sessions is loaded.
    LoadingSaltKey { object: u32, target: u32, search_end: Option<u32> },
    /// `TPM2_EvictControl` copies the key to a persistent handle.
    Evicting { object: u32, salt: u32 },
    /// The store records the persistent handle.
    Recording { object: u32, salt: u32, handle: u32 },
    /// The store refused the handle: `TPM2_EvictControl` is sent again for the
    /// loaded object and the persistent handle, and `error` is what is
    /// reported afterwards.
    RollingBack { object: u32, error: Error },
    /// The operation is over.
    Done,
}

/// What the last action gave.
#[derive(Debug)]
pub enum PersistEvent {
    /// The operation starts, for a temporary or a stored key, at the handle
    /// asked for where there is one.
    Begin { temporary: bool, requested: Option<u32> },
    /// The key is loaded at `object`, which is a persistent handle already or not.
    KeyLoaded { object: u32, persistent: bool },
    /// The key that salts sessions is at `salt`.
    SaltKeyLoaded { salt: u32 },
    /// `TPM2_EvictControl` succeeded at `handle`.
    EvictControlDone { handle: u32 },
    /// The store recorded the handle.
    StoreUpdated,
    /// The action failed.
    Failed(Error),
}

/// What to do next.
#[derive(Debug)]
pub enum PersistAction {
    /// Load the key.
    LoadKey,
    /// Load the key that salts sessions.
    LoadSaltKey,
    /// Send `TPM2_EvictControl` for `object` and `persistent`, moving on to
    /// the next handle up to `search_end` while the handle is taken, in a
    /// session salted by `salt`.
    EvictControl { object: u32, persistent: u32, search_end: Option<u32>, salt: u32 },
    /// Record the key's persistent handle in the store.
    UpdateStore { persistent: u32 },
    /// Release the loaded key where it is transient, and report `result`:
    /// the persistent handle, or the error.
    Finish { release: Option<u32>, result: Result<u32, Error> },
}

/// The handle a key is made persistent at and how far the search for a free
/// handle goes: the handle asked for, which must be a persistent handle of
/// the storage range, with no search; else the range from its third handle on.
pub open spec fn spec_persist_target(requested: Option<u32>) -> Option<(u32, Option<u32>)> {
    match requested {
        Some(h) => if is_persistent_handle(h) && h <= HR_STORAGE_AVAILABLE_LAST {
            Some((h, None))
        } else {
            None
        },
        None => Some((USER_PERSISTENT_FIRST, Some(HR_STORAGE_AVAILABLE_LAST))),
    }
}

/// The error for a handle outside the storage range.
pub open spec fn persist_range_error() -> Error {
    Error::InvalidParameter("persistent handle must be in the range 0x8100_0000 to 0x81FF_FFFF")
}

/// The transitions of making a key persistent. A temporary key fails with
/// `InvalidKey` and a handle outside the range with `InvalidParameter`, both
/// before any command; a key that cannot be loaded or is persistent already
/// fails with `InvalidKey`. The store is written only after
/// `TPM2_EvictControl` succeeded, and where it fails, `TPM2_EvictControl` is
/// sent a second time for the loaded object and the persistent handle before
/// the store's error is reported.
pub open spec fn spec_persist_step(state: PersistState, event: PersistEvent) -> (PersistState, PersistAction) {
    match (state, event) {
        (PersistState::Idle, PersistEvent::Begin { temporary, requested }) => if temporary {
            (
                PersistState::Done,
                PersistAction::Finish {
                    release: None,
                    result: Err(Error::InvalidKey { context: "temporary key cannot be persisted", source: None }),
                },
            )
        } else {
            match spec_persist_target(requested) {
                Some((target, search_end)) => (
                    PersistState::LoadingKey { target, search_end },
                    PersistAction::LoadKey,
                ),
                None => (PersistState::Done, PersistAction::Finish { release: None, result: Err(persist_range_error()) }),
            }
        },
        (PersistState::LoadingKey { target, search_end }, PersistEvent::KeyLoaded { object, persistent }) => if persistent {
            (
                PersistState::Done,
                PersistAction::Finish {
                    release: Some(object),
                    result: Err(Error::InvalidKey { context: "specified key is already persistent", source: None }),
                },
            )
        } else {
            (PersistState::LoadingSaltKey { object, target, search_end }, PersistAction::LoadSaltKey)
        },
        (PersistState::LoadingKey { .. }, PersistEvent::Failed(e)) => (
            PersistState::Done,
            PersistAction::Finish {
                release: None,
                result: Err(Error::InvalidKey { context: "key cannot be loaded", source: spec_error_source(e) }),
            },
        ),
        (PersistState::LoadingSaltKey { object, target, search_end }, PersistEvent::SaltKeyLoaded { salt }) => (
            PersistState::Evicting { object, salt },
            PersistAction::EvictControl { object, persistent: target, search_end, salt },
        ),
        (PersistState::LoadingSaltKey { object, .. }, PersistEvent::Failed(e)) => (
            PersistState::Done,
            PersistAction::Finish { release: Some(object), result: Err(e) },
        ),
        (PersistState::Evicting { object, salt }, PersistEvent::EvictControlDone { handle }) => (
            PersistState::Recording { object, salt, handle },
            PersistAction::UpdateStore { persistent: handle },
        ),
        (PersistState::Evicting { object, .. }, PersistEvent::Failed(e)) => (
            PersistState::Done,
            PersistAction::Finish { release: Some(object), result: Err(e) },
        ),
        (PersistState::Recording { object, handle, .. }, PersistEvent::StoreUpdated) => (
            PersistState::Done,
            PersistAction::Finish { release: Some(object), result: Ok(handle) },
        ),
        (PersistState::Recording { object, salt, handle }, PersistEvent::Failed(e)) => (
            PersistState::RollingBack { object, error: e },
            PersistAction::EvictControl { object, persistent: handle, search_end: None, salt },
        ),
        (PersistState::RollingBack { object, error }, PersistEvent::EvictControlDone { .. }) => (
            PersistState::Done,
            PersistAction::Finish { release: Some(object), result: Err(error) },
        ),
        (PersistState::RollingBack { object, error }, PersistEvent::Failed(_)) => (
            PersistState::Done,
            PersistAction::Finish { release: Some(object), result: Err(error) },
        ),
        _ => (PersistState::Done, PersistAction::Finish { release: None, result: Err(Error::Internal) }),
    }
}

/// One step of making a stored key persistent.
pub fn persist_step(state: PersistState, event: PersistEvent) -> (r: (PersistState, PersistAction))
    ensures
        r == spec_persist_step(state, event),
{
    match (state, event) {
        (PersistState::Idle, PersistEvent::Begin { temporary, requested }) => {
            if temporary {
                return (
                    PersistState::Done,
                    PersistAction::Finish {
                        release: None,
                        result: Err(Error::invalid_key("temporary key cannot be persisted")),
                    },
                );
            }
            match persist_target(requested) {
                Ok((target, search_end)) => (
                    PersistState::LoadingKey {
                        target: target.0.0,
                        search_end: match search_end {
                            Some(end) => Some(end.0.0),
                            None => None,
                        },
                    },
                    PersistAction::LoadKey,
                ),
                Err(e) => (PersistState::Done, PersistAction::Finish { release: None, result: Err(e) }),
            }
        },
        (PersistState::LoadingKey { target, search_end }, PersistEvent::KeyLoaded { object, persistent }) => {
            if persistent {
                (
                    PersistState::Done,
                    PersistAction::Finish {
                        release: Some(object),
                        result: Err(Error::invalid_key("specified key is already persistent")),
                    },
                )
            } else {
                (PersistState::LoadingSaltKey { object, target, search_end }, PersistAction::LoadSaltKey)
            }
        },
        (PersistState::LoadingKey { .. }, PersistEvent::Failed(e)) => {
            let source = error_source(&e);
            (
                PersistState::Done,
                PersistAction::Finish {
                    release: None,
                    result: Err(Error::InvalidKey { context: "key cannot be loaded", source }),
                },
            )
        },
        (PersistState::LoadingSaltKey { object, target, search_end }, PersistEvent::SaltKeyLoaded { salt }) => (
            PersistState::Evicting { object, salt },
            PersistAction::EvictControl { object, persistent: target, search_end, salt },
        ),
        (PersistState::LoadingSaltKey { object, .. }, PersistEvent::Failed(e)) => (
            PersistState::Done,
            PersistAction::Finish { release: Some(object), result: Err(e) },
        ),
        (PersistState::Evicting { object, salt }, PersistEvent::EvictControlDone { handle }) => (
            PersistState::Recording { object, salt, handle },
            PersistAction::UpdateStore { persistent: handle },
        ),
        (PersistState::Evicting { object, .. }, PersistEvent::Failed(e)) => (
            PersistState::Done,
            PersistAction::Finish { release: Some(object), result: Err(e) },
        ),
        (PersistState::Recording { object, handle, .. }, PersistEvent::StoreUpdated) => (
            PersistState::Done,
            PersistAction::Finish { release: Some(object), result: Ok(handle) },
        ),
        (PersistState::Recording { object, salt, handle }, PersistEvent::Failed(e)) => (
            PersistState::RollingBack { object, error: e },
            PersistAction::EvictControl { object, persistent: handle, search_end: None, salt },
        ),
        (PersistState::RollingBack { object, error }, PersistEvent::EvictControlDone { .. }) => (
            PersistState::Done,
            PersistAction::Finish { release: Some(object), result: Err(error) },
        ),
        (PersistState::RollingBack { object, error }, PersistEvent::Failed(_)) => (
            PersistState::Done,
            PersistAction::Finish { release: Some(object), result: Err(error) },
        ),
        _ => (PersistState::Done, PersistAction::Finish { release: None, result: Err(Error::invalid_state("unexpected persist step")) }),
    }
}

/// A temporary key is never made persistent, and a handle outside the storage
/// range is refused, both with no command sent.
pub proof fn law_persist_refusals(temporary: bool, requested: Option<u32>)
    ensures
        temporary ==> spec_persist_step(PersistState::Idle, PersistEvent::Begin { temporary, requested }).1
            matches PersistAction::Finish { release: None, result: Err(Error::InvalidKey { .. }) },
        !temporary && (requested matches Some(h) && !(is_persistent_handle(h) && h <= HR_STORAGE_AVAILABLE_LAST))
            ==> spec_persist_step(PersistState::Idle, PersistEvent::Begin { temporary, requested }).1
            == (PersistAction::Finish { release: None, result: Err(persist_range_error()) }),
{
}

/// Making a stored key persistent, where nothing fails: the key is loaded,
/// then the key that salts sessions, then `TPM2_EvictControl` is sent for
/// the loaded key at the handle asked for with no search, or, where none was
/// asked for, from 0x81000002 up to 0x8100FFFF; the store then records the
/// handle the TPM used, and the loaded key is released and that handle
/// reported. A key that is persistent already is refused and released.
pub proof fn law_persist_run(requested: Option<u32>, object: u32, salt: u32, handle: u32)
    requires
        requested matches Some(h) ==> 0x8100_0000 <= h <= 0x8100_FFFF,
    ensures
        ({
            let (s1, a1) = spec_persist_step(PersistState::Idle, PersistEvent::Begin { temporary: false, requested });
            let (s2, a2) = spec_persist_step(s1, PersistEvent::KeyLoaded { object, persistent: false });
            let (s3, a3) = spec_persist_step(s2, PersistEvent::SaltKeyLoaded { salt });
            let (s4, a4) = spec_persist_step(s3, PersistEvent::EvictControlDone { handle });
            let (s5, a5) = spec_persist_step(s4, PersistEvent::StoreUpdated);
            let (_, refused) = spec_persist_step(s1, PersistEvent::KeyLoaded { object, persistent: true });
            &&& a1 is LoadKey
            &&& a2 is LoadSaltKey
            &&& a3 == match requested {
                Some(h) => PersistAction::EvictControl { object, persistent: h, search_end: None, salt },
                None => PersistAction::EvictControl {
                    object,
                    persistent: 0x8100_0002,
                    search_end: Some(0x8100_FFFFu32),
                    salt,
                },
            }
            &&& a4 == PersistAction::UpdateStore { persistent: handle }
            &&& a5 == PersistAction::Finish { release: Some(object), result: Ok(handle) }
            &&& s5 is Done
            &&& refused == PersistAction::Finish {
                release: Some(object),
                result: Err(Error::InvalidKey { context: "specified key is already persistent", source: None }),
            }
        }),
{
}

/// The store is written only right after `TPM2_EvictControl` succeeded, at the
/// handle it used.
pub proof fn law_persist_store_after_evict(state: PersistState, event: PersistEvent)
    ensures
        spec_persist_step(state, event).1 matches PersistAction::UpdateStore { persistent } ==> state is Evicting
            && event == (PersistEvent::EvictControlDone { handle: persistent }),
{
}

/// Where the store fails after the key was made persistent, a second
/// `TPM2_EvictControl` for the loaded object and the persistent handle rolls
/// it back, and whatever that gives, the store's error is what the operation
/// reports.
pub proof fn law_persist_rollback(object: u32, salt: u32, handle: u32, e: Error, next: PersistEvent)
    requires
        next is EvictControlDone || next is Failed,
    ensures
        ({
            let (s1, a1) = spec_persist_step(
                PersistState::Recording { object, salt, handle },
                PersistEvent::Failed(e),
            );
            &&& a1 == (PersistAction::EvictControl { object, persistent: handle, search_end: None, salt })
            &&& spec_persist_step(s1, next) == (
                PersistState::Done,
                PersistAction::Finish { release: Some(object), result: Err(e) },
            )
        }),
{
}

// ---------------------------------------------------------------------------
// Provisioning the library's own keys.
// ---------------------------------------------------------------------------

/// The first handle that the storage root key of the library is looked for at.
pub const SRK_SEARCH_START: u32 = 0x8100_0001;

/// The persistent handles of the library's keys made so far.
#[derive(Debug, Clone, Copy, PartialEq, Eq, Structural)]
pub struct ProvisionedHandles {
    pub srk: Option<u32>,
    pub salt: Option<u32>,
    pub wrapping: Option<u32>,
}

/// The library's keys made persistent so far.
#[derive(Debug)]
pub struct ProvisionedKeys {
    pub srk: Option<InternalKeyMeta>,
    pub salt: Option<InternalKeyMeta>,
    pub wrapping: Option<InternalKeyMeta>,
}

/// The persistent handle of a key made so far.
pub open spec fn opt_meta_handle(m: Option<InternalKeyMeta>) -> Option<u32> {
    match m {
        Some(meta) => Some(meta.handle.0.0),
        None => None,
    }
}

/// The persistent handles of the keys made so far.
pub open spec fn handles_of(keys: ProvisionedKeys) -> ProvisionedHandles {
    ProvisionedHandles {
        srk: opt_meta_handle(keys.srk),
        salt: opt_meta_handle(keys.salt),
        wrapping: opt_meta_handle(keys.wrapping),
    }
}

/// The keys made so far with `meta` as the key `kind`.
pub open spec fn with_key(keys: ProvisionedKeys, kind: InternalKeyKind, meta: InternalKeyMeta) -> ProvisionedKeys {
    match kind {
        InternalKeyKind::Srk => ProvisionedKeys { srk: Some(meta), ..keys },
        InternalKeyKind::SessionSaltKey => ProvisionedKeys { salt: Some(meta), ..keys },
        InternalKeyKind::SharedWrappingKey => ProvisionedKeys { wrapping: Some(meta), ..keys },
    }
}

/// Where provisioning stands.
#[derive(Debug)]
pub enum ProvisionState {
    /// Nothing has happened yet.
    Idle,
    /// The key `kind` is being created; it is made persistent from `start` on.
    Creating { kind: InternalKeyKind, start: u32, keys: ProvisionedKeys },
    /// The key `kind`, named `name`, is being made persistent from `start` on.
    Persisting { kind: InternalKeyKind, start: u32, name: Tpm2bName, keys: ProvisionedKeys },
    /// The transient objects are flushed after `kind` was made persistent; the
    /// next key is made persistent from `next_start` on.
    Flushing { kind: InternalKeyKind, next_start: u32, keys: ProvisionedKeys },
    /// The store records the three keys, at these handles.
    Initializing { done: ProvisionedHandles },
    /// Something failed: the keys in `left` are evicted, newest first, and
    /// `error` is reported afterwards.
    RollingBack { left: ProvisionedHandles, error: Error },
    /// The operation is over.
    Done,
}

/// What the last action gave.
#[derive(Debug)]
pub enum ProvisionEvent {
    /// The operation starts; the store is initialized already or not.
    Begin { initialized: bool },
    /// The key was created, is loaded at `object` and is named `name`.
    Created { object: u32, name: Tpm2bName },
    /// `TPM2_EvictControl` succeeded at `handle`.
    EvictControlDone { handle: u32 },
    /// The transient objects, and the sessions where asked, were flushed.
    Flushed,
    /// The store recorded the keys.
    StoreInitialized,
    /// The action failed.
    Failed(Error),
}

/// What to do next.
#[derive(Debug)]
pub enum ProvisionAction {
    /// Create the key `kind`: under the owner hierarchy where there is no
    /// parent, else under `parent` and loaded, in a session salted by `salt`
    /// where one is given.
    Create { kind: InternalKeyKind, parent: Option<u32>, salt: Option<u32> },
    /// Send `TPM2_EvictControl` for `object`, from `persistent` on up to
    /// `search_end` while the handle is taken.
    EvictControl { object: u32, persistent: u32, search_end: u32, salt: Option<u32> },
    /// Flush the transient objects, and the sessions too where asked.
    Flush { sessions: bool },
    /// Record the three keys in the store, in this order.
    InitStore { srk: InternalKeyMeta, salt: InternalKeyMeta, wrapping: InternalKeyMeta },
    /// Flush every transient object and session that is left.
    CleanUp,
    /// Evict the persistent key at `persistent`.
    Evict { persistent: u32 },
    /// Report the outcome.
    Finish(Result<(), Error>),
}

/// The next step of a rollback: the newest key left is evicted; where none
/// is left, the error is reported.
pub open spec fn spec_rollback_next(left: ProvisionedHandles, error: Error) -> (ProvisionState, ProvisionAction) {
    match (left.wrapping, left.salt, left.srk) {
        (Some(h), _, _) => (
            ProvisionState::RollingBack { left: ProvisionedHandles { wrapping: None, ..left }, error },
            ProvisionAction::Evict { persistent: h },
        ),
        (None, Some(h), _) => (
            ProvisionState::RollingBack { left: ProvisionedHandles { salt: None, ..left }, error },
            ProvisionAction::Evict { persistent: h },
        ),
        (None, None, Some(h)) => (
            ProvisionState::RollingBack { left: ProvisionedHandles { srk: None, ..left }, error },
            ProvisionAction::Evict { persistent: h },
        ),
        (None, None, None) => (ProvisionState::Done, ProvisionAction::Finish(Err(error))),
    }
}

/// The session that salts the creation of a key: the wrapping key is made
/// in one salted by the session salt key.
pub open spec fn creation_salt(kind: InternalKeyKind, keys: ProvisionedKeys) -> Option<u32> {
    match kind {
        InternalKeyKind::SharedWrappingKey => opt_meta_handle(keys.salt),
        _ => None,
    }
}

/// The failure that starts a rollback of the keys at `done`: what is left
/// is flushed first.
pub open spec fn spec_provision_fail(done: ProvisionedHandles, e: Error) -> (ProvisionState, ProvisionAction) {
    (ProvisionState::RollingBack { left: done, error: e }, ProvisionAction::CleanUp)
}

/// The transitions of provisioning. An initialized store fails with
/// `AlreadyProvisioned` before any command. The storage root key is created
/// under the owner hierarchy, then the session salt key and the shared
/// wrapping key under it, each made persistent in turn and the transient
/// objects flushed after each. A key must land at a handle from where its
/// search started to the end of the storage range; the wrapping key's search
/// starts above the salt key's handle, and where no handle follows the salt
/// key, provisioning fails before the salt key is counted among the keys
/// made. The store records the three keys last, in order, at the handles
/// reached. Any failure flushes what is left and evicts every key counted as
/// made, newest first, before its error is reported.
pub open spec fn spec_provision_step(state: ProvisionState, event: ProvisionEvent) -> (
    ProvisionState,
    ProvisionAction,
) {
    match (state, event) {
        (ProvisionState::Idle, ProvisionEvent::Begin { initialized }) => if initialized {
            (ProvisionState::Done, ProvisionAction::Finish(Err(Error::AlreadyProvisioned)))
        } else {
            let none = ProvisionedKeys { srk: None, salt: None, wrapping: None };
            (
                ProvisionState::Creating { kind: InternalKeyKind::Srk, start: SRK_SEARCH_START, keys: none },
                ProvisionAction::Create { kind: InternalKeyKind::Srk, parent: None, salt: None },
            )
        },
        (ProvisionState::Creating { kind, start, keys }, ProvisionEvent::Created { object, name }) => (
            ProvisionState::Persisting { kind, start, name, keys },
            ProvisionAction::EvictControl {
                object,
                persistent: start,
                search_end: HR_STORAGE_AVAILABLE_LAST,
                salt: creation_salt(kind, keys),
            },
        ),
        (ProvisionState::Persisting { kind, start, name, keys }, ProvisionEvent::EvictControlDone { handle }) => {
            if !(start <= handle && handle <= HR_STORAGE_AVAILABLE_LAST) {
                spec_provision_fail(handles_of(keys), Error::Internal)
            } else {
                let meta = InternalKeyMeta { kind, handle: TpmiDhPersistent(TpmHandle(handle)), obj_name: name };
                let k = with_key(keys, kind, meta);
                match kind {
                    InternalKeyKind::Srk => (
                        ProvisionState::Flushing { kind, next_start: HR_STORAGE_AVAILABLE_FIRST, keys: k },
                        ProvisionAction::Flush { sessions: false },
                    ),
                    InternalKeyKind::SessionSaltKey => if handle < u32::MAX && is_persistent_handle(
                        (handle + 1) as u32,
                    ) {
                        (
                            ProvisionState::Flushing { kind, next_start: (handle + 1) as u32, keys: k },
                            ProvisionAction::Flush { sessions: false },
                        )
                    } else {
                        spec_provision_fail(
                            handles_of(keys),
                            Error::ResourceExhausted { context: "no persistent handle is available", source: None },
                        )
                    },
                    InternalKeyKind::SharedWrappingKey => (
                        ProvisionState::Flushing { kind, next_start: 0, keys: k },
                        ProvisionAction::Flush { sessions: true },
                    ),
                }
            }
        },
        (ProvisionState::Flushing { kind, next_start, keys }, ProvisionEvent::Flushed) => match kind {
            InternalKeyKind::Srk => (
                ProvisionState::Creating { kind: InternalKeyKind::SessionSaltKey, start: next_start, keys },
                ProvisionAction::Create {
                    kind: InternalKeyKind::SessionSaltKey,
                    parent: opt_meta_handle(keys.srk),
                    salt: None,
                },
            ),
            InternalKeyKind::SessionSaltKey => (
                ProvisionState::Creating { kind: InternalKeyKind::SharedWrappingKey, start: next_start, keys },
                ProvisionAction::Create {
                    kind: InternalKeyKind::SharedWrappingKey,
                    parent: opt_meta_handle(keys.srk),
                    salt: opt_meta_handle(keys.salt),
                },
            ),
            InternalKeyKind::SharedWrappingKey => match (keys.srk, keys.salt, keys.wrapping) {
                (Some(a), Some(b), Some(c)) => (
                    ProvisionState::Initializing { done: handles_of(keys) },
                    ProvisionAction::InitStore { srk: a, salt: b, wrapping: c },
                ),
                _ => spec_provision_fail(handles_of(keys), Error::Internal),
            },
        },
        (ProvisionState::Initializing { .. }, ProvisionEvent::StoreInitialized) => (
            ProvisionState::Done,
            ProvisionAction::Finish(Ok(())),
        ),
        (ProvisionState::Creating { keys, .. }, ProvisionEvent::Failed(e)) => spec_provision_fail(handles_of(keys), e),
        (ProvisionState::Persisting { keys, .. }, ProvisionEvent::Failed(e)) => spec_provision_fail(
            handles_of(keys),
            e,
        ),
        (ProvisionState::Flushing { keys, .. }, ProvisionEvent::Failed(e)) => spec_provision_fail(handles_of(keys), e),
        (ProvisionState::Initializing { done }, ProvisionEvent::Failed(e)) => spec_provision_fail(done, e),
        (ProvisionState::RollingBack { left, error }, ProvisionEvent::Flushed) => spec_rollback_next(left, error),
        (ProvisionState::RollingBack { left, error }, ProvisionEvent::EvictControlDone { .. }) => spec_rollback_next(
            left,
            error,
        ),
        (ProvisionState::RollingBack { left, error }, ProvisionEvent::Failed(_)) => spec_rollback_next(left, error),
        _ => (ProvisionState::Done, ProvisionAction::Finish(Err(Error::Internal))),
    }
}

fn rollback_next(left: ProvisionedHandles, error: Error) -> (r: (ProvisionState, ProvisionAction))
    ensures
        r == spec_rollback_next(left, error),
{
    match (left.wrapping, left.salt, left.srk) {
        (Some(h), _, _) => (
            ProvisionState::RollingBack { left: ProvisionedHandles { wrapping: None, ..left }, error },
            ProvisionAction::Evict { persistent: h },
        ),
        (None, Some(h), _) => (
            ProvisionState::RollingBack { left: ProvisionedHandles { salt: None, ..left }, error },
            ProvisionAction::Evict { persistent: h },
        ),
        (None, None, Some(h)) => (
            ProvisionState::RollingBack { left: ProvisionedHandles { srk: None, ..left }, error },
            ProvisionAction::Evict { persistent: h },
        ),
        (None, None, None) => (ProvisionState::Done, ProvisionAction::Finish(Err(error))),
    }
}

fn meta_handle(m: &Option<InternalKeyMeta>) -> (h: Option<u32>)
    ensures
        h == opt_meta_handle(*m),
{
    match m {
        Some(meta) => Some(meta.handle.0.0),
        None => None,
    }
}

fn provisioned_handles(keys: &ProvisionedKeys) -> (h: ProvisionedHandles)
    ensures
        h == handles_of(*keys),
{
    ProvisionedHandles { srk: meta_handle(&keys.srk), salt: meta_handle(&keys.salt), wrapping: meta_handle(&keys.wrapping) }
}

fn set_key(keys: ProvisionedKeys, kind: InternalKeyKind, meta: InternalKeyMeta) -> (r: ProvisionedKeys)
    ensures
        r == with_key(keys, kind, meta),
{
    match kind {
        InternalKeyKind::Srk => ProvisionedKeys { srk: Some(meta), ..keys },
        InternalKeyKind::SessionSaltKey => ProvisionedKeys { salt: Some(meta), ..keys },
        InternalKeyKind::SharedWrappingKey => ProvisionedKeys { wrapping: Some(meta), ..keys },
    }
}

/// One step of provisioning the store and the library's keys.
pub fn provision_step(state: ProvisionState, event: ProvisionEvent) -> (r: (ProvisionState, ProvisionAction))
    ensures
        r == spec_provision_step(state, event),
{
    match (state, event) {
        (ProvisionState::Idle, ProvisionEvent::Begin { initialized }) => {
            if initialized {
                (ProvisionState::Done, ProvisionAction::Finish(Err(Error::AlreadyProvisioned)))
            } else {
                let none = ProvisionedKeys { srk: None, salt: None, wrapping: None };
                (
                    ProvisionState::Creating { kind: InternalKeyKind::Srk, start: SRK_SEARCH_START, keys: none },
                    ProvisionAction::Create { kind: InternalKeyKind::Srk, parent: None, salt: None },
                )
            }
        },
        (ProvisionState::Creating { kind, start, keys }, ProvisionEvent::Created { object, name }) => {
            let salt = match kind {
                InternalKeyKind::SharedWrappingKey => meta_handle(&keys.salt),
                _ => None,
            };
            (
                ProvisionState::Persisting { kind, start, name, keys },
                ProvisionAction::EvictControl { object, persistent: start, search_end: HR_STORAGE_AVAILABLE_LAST, salt },
            )
        },
        (ProvisionState::Persisting { kind, start, name, keys }, ProvisionEvent::EvictControlDone { handle }) => {
            if !(start <= handle && handle <= HR_STORAGE_AVAILABLE_LAST) {
                let done = provisioned_handles(&keys);
                return (
                    ProvisionState::RollingBack {
                        left: done,
                        error: Error::invalid_state("persistent handle outside its search range"),
                    },
                    ProvisionAction::CleanUp,
                );
            }
            match kind {
                InternalKeyKind::Srk => {
                    let meta = InternalKeyMeta { kind, handle: TpmiDhPersistent(TpmHandle(handle)), obj_name: name };
                    (
                        ProvisionState::Flushing {
                            kind,
                            next_start: HR_STORAGE_AVAILABLE_FIRST,
                            keys: set_key(keys, kind, meta),
                        },
                        ProvisionAction::Flush { sessions: false },
                    )
                },
                InternalKeyKind::SessionSaltKey => {
                    if handle < u32::MAX && crate::handle::TpmiDhPersistent::try_from(handle + 1).is_ok() {
                        let meta = InternalKeyMeta {
                            kind,
                            handle: TpmiDhPersistent(TpmHandle(handle)),
                            obj_name: name,
                        };
                        (
                            ProvisionState::Flushing { kind, next_start: handle + 1, keys: set_key(keys, kind, meta) },
                            ProvisionAction::Flush { sessions: false },
                        )
                    } else {
                        let done = provisioned_handles(&keys);
                        (
                            ProvisionState::RollingBack {
                                left: done,
                                error: Error::resource_exhausted("no persistent handle is available"),
                            },
                            ProvisionAction::CleanUp,
                        )
                    }
                },
                InternalKeyKind::SharedWrappingKey => {
                    let meta = InternalKeyMeta { kind, handle: TpmiDhPersistent(TpmHandle(handle)), obj_name: name };
                    (
                        ProvisionState::Flushing { kind, next_start: 0, keys: set_key(keys, kind, meta) },
                        ProvisionAction::Flush { sessions: true },
                    )
                },
            }
        },
        (ProvisionState::Flushing { kind, next_start, keys }, ProvisionEvent::Flushed) => match kind {
            InternalKeyKind::Srk => {
                let parent = meta_handle(&keys.srk);
                (
                    ProvisionState::Creating { kind: InternalKeyKind::SessionSaltKey, start: next_start, keys },
                    ProvisionAction::Create { kind: InternalKeyKind::SessionSaltKey, parent, salt: None },
                )
            },
            InternalKeyKind::SessionSaltKey => {
                let parent = meta_handle(&keys.srk);
                let salt = meta_handle(&keys.salt);
                (
                    ProvisionState::Creating { kind: InternalKeyKind::SharedWrappingKey, start: next_start, keys },
                    ProvisionAction::Create { kind: InternalKeyKind::SharedWrappingKey, parent, salt },
                )
            },
            InternalKeyKind::SharedWrappingKey => {
                let done = provisioned_handles(&keys);
                match keys {
                    ProvisionedKeys { srk: Some(a), salt: Some(b), wrapping: Some(c) } => (
                        ProvisionState::Initializing { done },
                        ProvisionAction::InitStore { srk: a, salt: b, wrapping: c },
                    ),
                    _ => (
                        ProvisionState::RollingBack { left: done, error: Error::invalid_state("keys are missing") },
                        ProvisionAction::CleanUp,
                    ),
                }
            },
        },
        (ProvisionState::Initializing { .. }, ProvisionEvent::StoreInitialized) => (
            ProvisionState::Done,
            ProvisionAction::Finish(Ok(())),
        ),
        (ProvisionState::Creating { keys, .. }, ProvisionEvent::Failed(e)) => (
            ProvisionState::RollingBack { left: provisioned_handles(&keys), error: e },
            ProvisionAction::CleanUp,
        ),
        (ProvisionState::Persisting { keys, .. }, ProvisionEvent::Failed(e)) => (
            ProvisionState::RollingBack { left: provisioned_handles(&keys), error: e },
            ProvisionAction::CleanUp,
        ),
        (ProvisionState::Flushing { keys, .. }, ProvisionEvent::Failed(e)) => (
            ProvisionState::RollingBack { left: provisioned_handles(&keys), error: e },
            ProvisionAction::CleanUp,
        ),
        (ProvisionState::Initializing { done }, ProvisionEvent::Failed(e)) => (
            ProvisionState::RollingBack { left: done, error: e },
            ProvisionAction::CleanUp,
        ),
        (ProvisionState::RollingBack { left, error }, ProvisionEvent::Flushed) => rollback_next(left, error),
        (ProvisionState::RollingBack { left, error }, ProvisionEvent::EvictControlDone { .. }) => rollback_next(
            left,
            error,
        ),
        (ProvisionState::RollingBack { left, error }, ProvisionEvent::Failed(_)) => rollback_next(left, error),
        _ => (ProvisionState::Done, ProvisionAction::Finish(Err(Error::invalid_state("unexpected provision step")))),
    }
}

/// The persistent handle of a key made, where it was made as `kind`.
pub open spec fn made_as(m: Option<InternalKeyMeta>, kind: InternalKeyKind) -> bool {
    m matches Some(meta) && meta.kind == kind && HR_STORAGE_AVAILABLE_FIRST <= meta.handle.0.0
        <= HR_STORAGE_AVAILABLE_LAST
}

/// The keys made before the key `kind` is made.
pub open spec fn keys_before(kind: InternalKeyKind, keys: ProvisionedKeys) -> bool {
    match kind {
        InternalKeyKind::Srk => keys.srk is None && keys.salt is None && keys.wrapping is None,
        InternalKeyKind::SessionSaltKey => made_as(keys.srk, InternalKeyKind::Srk) && keys.salt is None
            && keys.wrapping is None,
        InternalKeyKind::SharedWrappingKey => made_as(keys.srk, InternalKeyKind::Srk) && made_as(
            keys.salt,
            InternalKeyKind::SessionSaltKey,
        ) && keys.wrapping is None,
    }
}

/// Where the search for the key `kind`'s handle starts.
pub open spec fn search_start(kind: InternalKeyKind, start: u32, keys: ProvisionedKeys) -> bool {
    match kind {
        InternalKeyKind::Srk => start == SRK_SEARCH_START,
        InternalKeyKind::SessionSaltKey => start == HR_STORAGE_AVAILABLE_FIRST,
        InternalKeyKind::SharedWrappingKey => opt_meta_handle(keys.salt) matches Some(s) && start == s + 1,
    }
}

/// The keys made once the key `kind` is made: each made as its kind, in the
/// storage range, and the wrapping key above the salt key.
pub open spec fn keys_after(kind: InternalKeyKind, keys: ProvisionedKeys) -> bool {
    match kind {
        InternalKeyKind::Srk => made_as(keys.srk, InternalKeyKind::Srk) && keys.salt is None && keys.wrapping is None,
        InternalKeyKind::SessionSaltKey => made_as(keys.srk, InternalKeyKind::Srk) && made_as(
            keys.salt,
            InternalKeyKind::SessionSaltKey,
        ) && keys.wrapping is None,
        InternalKeyKind::SharedWrappingKey => made_as(keys.srk, InternalKeyKind::Srk) && made_as(
            keys.salt,
            InternalKeyKind::SessionSaltKey,
        ) && made_as(keys.wrapping, InternalKeyKind::SharedWrappingKey) && opt_meta_handle(keys.salt).unwrap()
            < opt_meta_handle(keys.wrapping).unwrap(),
    }
}

/// What holds of every state provisioning reaches.
pub open spec fn provision_inv(s: ProvisionState) -> bool {
    match s {
        ProvisionState::Creating { kind, start, keys } => keys_before(kind, keys) && search_start(kind, start, keys),
        ProvisionState::Persisting { kind, start, keys, .. } => keys_before(kind, keys) && search_start(
            kind,
            start,
            keys,
        ),
        ProvisionState::Flushing { kind, next_start, keys } => keys_after(kind, keys) && match kind {
            InternalKeyKind::Srk => next_start == HR_STORAGE_AVAILABLE_FIRST,
            InternalKeyKind::SessionSaltKey => next_start == opt_meta_handle(keys.salt).unwrap() + 1,
            InternalKeyKind::SharedWrappingKey => true,
        },
        _ => true,
    }
}

/// Provisioning keeps its invariant at every step, and when it records the
/// keys in the store, they are the storage root key, the session salt key and
/// the shared wrapping key, in this order, each at a handle of the storage
/// range, the wrapping key above the salt key.
pub proof fn law_provision_records_the_keys_in_order(s: ProvisionState, e: ProvisionEvent)
    requires
        provision_inv(s),
    ensures
        provision_inv(ProvisionState::Idle),
        provision_inv(spec_provision_step(s, e).0),
        spec_provision_step(s, e).1 matches ProvisionAction::InitStore { srk, salt, wrapping } ==> {
            &&& srk.kind == InternalKeyKind::Srk
            &&& salt.kind == InternalKeyKind::SessionSaltKey
            &&& wrapping.kind == InternalKeyKind::SharedWrappingKey
            &&& HR_STORAGE_AVAILABLE_FIRST <= srk.handle.0.0 <= HR_STORAGE_AVAILABLE_LAST
            &&& HR_STORAGE_AVAILABLE_FIRST <= salt.handle.0.0 < wrapping.handle.0.0 <= HR_STORAGE_AVAILABLE_LAST
        },
{
}

/// A store that is initialized already is never provisioned again, and no
/// command is sent for it.
pub proof fn law_provision_already_provisioned()
    ensures
        spec_provision_step(ProvisionState::Idle, ProvisionEvent::Begin { initialized: true }) == (
            ProvisionState::Done,
            ProvisionAction::Finish(Err(Error::AlreadyProvisioned)),
        ),
{
}

/// A key reported at a handle outside the range its search covers is not
/// counted as made: provisioning rolls back the keys made before it.
pub proof fn law_provision_refuses_a_handle_out_of_range(
    kind: InternalKeyKind,
    start: u32,
    name: Tpm2bName,
    keys: ProvisionedKeys,
    handle: u32,
)
    requires
        handle < start || handle > HR_STORAGE_AVAILABLE_LAST,
    ensures
        spec_provision_step(
            ProvisionState::Persisting { kind, start, name, keys },
            ProvisionEvent::EvictControlDone { handle },
        ) == (ProvisionState::RollingBack { left: handles_of(keys), error: Error::Internal }, ProvisionAction::CleanUp),
{
}

/// After a failure with all three keys persistent, what is left is flushed
/// and the keys are evicted newest first: the wrapping key, the salt key,
/// then the storage root key; then the failure is reported, whatever the
/// evictions gave.
pub proof fn law_provision_rollback(srk: u32, salt: u32, wrapping: u32, e: Error, e1: ProvisionEvent, e2: ProvisionEvent, e3: ProvisionEvent)
    requires
        e1 is EvictControlDone || e1 is Failed,
        e2 is EvictControlDone || e2 is Failed,
        e3 is EvictControlDone || e3 is Failed,
    ensures
        ({
            let all = ProvisionedHandles { srk: Some(srk), salt: Some(salt), wrapping: Some(wrapping) };
            let (s0, a0) = spec_provision_step(ProvisionState::Initializing { done: all }, ProvisionEvent::Failed(e));
            let (s1, a1) = spec_provision_step(s0, ProvisionEvent::Flushed);
            let (s2, a2) = spec_provision_step(s1, e1);
            let (s3, a3) = spec_provision_step(s2, e2);
            let (s4, a4) = spec_provision_step(s3, e3);
            &&& a0 == ProvisionAction::CleanUp
            &&& a1 == (ProvisionAction::Evict { persistent: wrapping })
            &&& a2 == (ProvisionAction::Evict { persistent: salt })
            &&& a3 == (ProvisionAction::Evict { persistent: srk })
            &&& s4 == ProvisionState::Done
            &&& a4 == ProvisionAction::Finish(Err(e))
        }),
{
}

// ---------------------------------------------------------------------------
// Loading a key with its parents.
// ---------------------------------------------------------------------------

/// How the next key of a chain is loaded, as its metadata says.
#[derive(Debug, Clone, Copy, PartialEq, Eq, Structural)]
pub enum LoadKind {
    /// From its persistent handle.
    Persistent,
    /// Created again under its hierarchy.
    Primary,
    /// From its areas under its parent key, or under the library's storage
    /// root key where it has none.
    Child { has_parent: bool },
}

/// How a key is loaded, as its load data says.
pub open spec fn spec_load_kind(m: KeyLoadModel) -> LoadKind {
    match m {
        KeyLoadModel::Persistent { .. } => LoadKind::Persistent,
        KeyLoadModel::Primary { .. } => LoadKind::Primary,
        KeyLoadModel::Child { parent, .. } => LoadKind::Child { has_parent: parent is Some },
    }
}

/// How the key `data` describes is loaded.
pub fn load_kind(data: &KeyLoadData) -> (k: LoadKind)
    ensures
        k == spec_load_kind(data@),
{
    match data {
        KeyLoadData::Persistent { .. } => LoadKind::Persistent,
        KeyLoadData::Primary { .. } => LoadKind::Primary,
        KeyLoadData::Child { parent, .. } => LoadKind::Child { has_parent: parent.is_some() },
    }
}

/// Where loading a key stands. The chain holds the key asked for at index 0
/// and each key's parent at the index after it.
#[derive(Debug, Clone, Copy, PartialEq, Eq, Structural)]
pub enum LoadState {
    /// Nothing has happened yet.
    Idle,
    /// The chain holds `depth` keys; the parent of the last is fetched.
    Walking { depth: usize },
    /// The chain holds `depth` keys; the last is a child of the library's
    /// storage root key, which is loaded.
    AwaitingSrk { depth: usize },
    /// The key at `index` is loaded under `parent`, which is transient or not.
    Loading { index: usize, parent: Option<u32>, parent_transient: bool },
    /// The operation is over.
    Done,
}

/// What the last action gave.
#[derive(Debug)]
pub enum LoadEvent {
    /// How the next key up the chain is loaded; the first is the key asked for.
    KeyData { kind: LoadKind },
    /// The library's storage root key is at `handle`.
    SrkLoaded { handle: u32 },
    /// The key is loaded at `handle`, transient or not, and the TPM gives it
    /// the name `name`; the store holds `expected` for it.
    Loaded { handle: u32, transient: bool, name: Vec<u8>, expected: Vec<u8> },
    /// The action failed.
    Failed(Error),
}

/// What to do next.
#[derive(Debug)]
pub enum LoadAction {
    /// Enter the parent of the last key on the chain, refusing a cycle, and
    /// fetch how it is loaded.
    FetchParent,
    /// Load the library's storage root key.
    LoadSrk,
    /// Flush `flush` where given, then load the key at `index` of the chain
    /// under `parent`.
    Load { index: usize, parent: Option<u32>, flush: Option<u32> },
    /// Flush the objects given, and report the key's handle and whether it is
    /// transient, or the error.
    Finish { result: Result<(u32, bool), Error>, flush_parent: Option<u32>, flush_object: Option<u32> },
}

/// The next key's place on the chain: a key with a parent sends the walk up,
/// a child of the storage root key asks for that key, and any other key is
/// the root from which the chain is loaded down.
pub open spec fn spec_chain_next(index: usize, kind: LoadKind) -> (LoadState, LoadAction) {
    match kind {
        LoadKind::Child { has_parent } => if has_parent {
            (LoadState::Walking { depth: (index + 1) as usize }, LoadAction::FetchParent)
        } else {
            (LoadState::AwaitingSrk { depth: (index + 1) as usize }, LoadAction::LoadSrk)
        },
        _ => (
            LoadState::Loading { index, parent: None, parent_transient: false },
            LoadAction::Load { index, parent: None, flush: None },
        ),
    }
}

/// The parent handle to flush: the parent where it is transient.
pub open spec fn transient_parent(parent: Option<u32>, parent_transient: bool) -> Option<u32> {
    if parent_transient {
        parent
    } else {
        None
    }
}

/// The transitions of loading a key. The walk goes up the chain of parents
/// until a key that loads by itself, then the keys are loaded from that root
/// down to the key asked for, each under the one loaded before. Each loaded
/// key's name must be the stored one, else the store is corrupted. A
/// transient parent is flushed once its child is loaded or anything fails,
/// and a key whose name is wrong is flushed too.
pub open spec fn spec_load_step(state: LoadState, event: LoadEvent) -> (LoadState, LoadAction) {
    match (state, event) {
        (LoadState::Idle, LoadEvent::KeyData { kind }) => spec_chain_next(0, kind),
        (LoadState::Walking { depth }, LoadEvent::KeyData { kind }) => if depth < usize::MAX {
            spec_chain_next(depth, kind)
        } else {
            (LoadState::Done, LoadAction::Finish { result: Err(Error::Internal), flush_parent: None, flush_object: None })
        },
        (LoadState::AwaitingSrk { depth }, LoadEvent::SrkLoaded { handle }) => if depth >= 1 {
            (
                LoadState::Loading { index: (depth - 1) as usize, parent: Some(handle), parent_transient: false },
                LoadAction::Load { index: (depth - 1) as usize, parent: Some(handle), flush: None },
            )
        } else {
            (LoadState::Done, LoadAction::Finish { result: Err(Error::Internal), flush_parent: None, flush_object: None })
        },
        (
            LoadState::Loading { index, parent, parent_transient },
            LoadEvent::Loaded { handle, transient, name, expected },
        ) => {
            let flush_parent = transient_parent(parent, parent_transient);
            if name@ != expected@ {
                (
                    LoadState::Done,
                    LoadAction::Finish {
                        result: Err(Error::CorruptedStore),
                        flush_parent,
                        flush_object: if transient {
                            Some(handle)
                        } else {
                            None
                        },
                    },
                )
            } else if index == 0 {
                (LoadState::Done, LoadAction::Finish { result: Ok((handle, transient)), flush_parent, flush_object: None })
            } else {
                (
                    LoadState::Loading { index: (index - 1) as usize, parent: Some(handle), parent_transient: transient },
                    LoadAction::Load { index: (index - 1) as usize, parent: Some(handle), flush: flush_parent },
                )
            }
        },
        (LoadState::Loading { parent, parent_transient, .. }, LoadEvent::Failed(e)) => (
            LoadState::Done,
            LoadAction::Finish {
                result: Err(e),
                flush_parent: transient_parent(parent, parent_transient),
                flush_object: None,
            },
        ),
        (LoadState::Idle, LoadEvent::Failed(e)) => (
            LoadState::Done,
            LoadAction::Finish { result: Err(e), flush_parent: None, flush_object: None },
        ),
        (LoadState::Walking { .. }, LoadEvent::Failed(e)) => (
            LoadState::Done,
            LoadAction::Finish { result: Err(e), flush_parent: None, flush_object: None },
        ),
        (LoadState::AwaitingSrk { .. }, LoadEvent::Failed(e)) => (
            LoadState::Done,
            LoadAction::Finish { result: Err(e), flush_parent: None, flush_object: None },
        ),
        _ => (LoadState::Done, LoadAction::Finish { result: Err(Error::Internal), flush_parent: None, flush_object: None }),
    }
}

fn chain_next(index: usize, kind: LoadKind) -> (r: (LoadState, LoadAction))
    requires
        index < usize::MAX,
    ensures
        r == spec_chain_next(index, kind),
{
    match kind {
        LoadKind::Child { has_parent } => {
            if has_parent {
                (LoadState::Walking { depth: index + 1 }, LoadAction::FetchParent)
            } else {
                (LoadState::AwaitingSrk { depth: index + 1 }, LoadAction::LoadSrk)
            }
        },
        _ => (
            LoadState::Loading { index, parent: None, parent_transient: false },
            LoadAction::Load { index, parent: None, flush: None },
        ),
    }
}

/// One step of loading a key with its parents.
pub fn load_step(state: LoadState, event: LoadEvent) -> (r: (LoadState, LoadAction))
    ensures
        r == spec_load_step(state, event),
{
    match (state, event) {
        (LoadState::Idle, LoadEvent::KeyData { kind }) => chain_next(0, kind),
        (LoadState::Walking { depth }, LoadEvent::KeyData { kind }) => {
            if depth < usize::MAX {
                chain_next(depth, kind)
            } else {
                (
                    LoadState::Done,
                    LoadAction::Finish {
                        result: Err(Error::invalid_state("invalid key parent chain")),
                        flush_parent: None,
                        flush_object: None,
                    },
                )
            }
        },
        (LoadState::AwaitingSrk { depth }, LoadEvent::SrkLoaded { handle }) => {
            if depth >= 1 {
                (
                    LoadState::Loading { index: depth - 1, parent: Some(handle), parent_transient: false },
                    LoadAction::Load { index: depth - 1, parent: Some(handle), flush: None },
                )
            } else {
                (
                    LoadState::Done,
                    LoadAction::Finish {
                        result: Err(Error::invalid_state("invalid key parent chain")),
                        flush_parent: None,
                        flush_object: None,
                    },
                )
            }
        },
        (
            LoadState::Loading { index, parent, parent_transient },
            LoadEvent::Loaded { handle, transient, name, expected },
        ) => {
            let flush_parent = if parent_transient {
                parent
            } else {
                None
            };
            match validate_obj_name(name.as_slice(), expected.as_slice()) {
                Err(e) => (
                    LoadState::Done,
                    LoadAction::Finish {
                        result: Err(e),
                        flush_parent,
                        flush_object: if transient {
                            Some(handle)
                        } else {
                            None
                        },
                    },
                ),
                Ok(()) => {
                    if index == 0 {
                        (
                            LoadState::Done,
                            LoadAction::Finish { result: Ok((handle, transient)), flush_parent, flush_object: None },
                        )
                    } else {
                        (
                            LoadState::Loading { index: index - 1, parent: Some(handle), parent_transient: transient },
                            LoadAction::Load { index: index - 1, parent: Some(handle), flush: flush_parent },
                        )
                    }
                },
            }
        },
        (LoadState::Loading { parent, parent_transient, .. }, LoadEvent::Failed(e)) => (
            LoadState::Done,
            LoadAction::Finish {
                result: Err(e),
                flush_parent: if parent_transient {
                    parent
                } else {
                    None
                },
                flush_object: None,
            },
        ),
        (LoadState::Idle, LoadEvent::Failed(e)) => (
            LoadState::Done,
            LoadAction::Finish { result: Err(e), flush_parent: None, flush_object: None },
        ),
        (LoadState::Walking { .. }, LoadEvent::Failed(e)) => (
            LoadState::Done,
            LoadAction::Finish { result: Err(e), flush_parent: None, flush_object: None },
        ),
        (LoadState::AwaitingSrk { .. }, LoadEvent::Failed(e)) => (
            LoadState::Done,
            LoadAction::Finish { result: Err(e), flush_parent: None, flush_object: None },
        ),
        _ => (
            LoadState::Done,
            LoadAction::Finish {
                result: Err(Error::invalid_state("unexpected load step")),
                flush_parent: None,
                flush_object: None,
            },
        ),
    }
}

/// The walk up the chain: with `depth` keys on it (none at the start), a
/// next key with a parent of its own sends the walk on to that parent, one
/// whose parent is the library's storage root key asks for that key, and one
/// that loads by itself (from a persistent handle, or as a primary key) is
/// the root: it is loaded first, as chain index `depth`, under no parent.
pub proof fn law_load_walk_up(depth: usize, kind: LoadKind)
    requires
        depth < usize::MAX,
    ensures
        ({
            let from_start = spec_load_step(LoadState::Idle, LoadEvent::KeyData { kind });
            let walking = spec_load_step(LoadState::Walking { depth }, LoadEvent::KeyData { kind });
            &&& (kind == LoadKind::Primary || kind == LoadKind::Persistent) ==> {
                &&& walking == (
                    LoadState::Loading { index: depth, parent: None, parent_transient: false },
                    LoadAction::Load { index: depth, parent: None, flush: None },
                )
                &&& from_start == (
                    LoadState::Loading { index: 0, parent: None, parent_transient: false },
                    LoadAction::Load { index: 0, parent: None, flush: None },
                )
            }
            &&& kind == (LoadKind::Child { has_parent: true }) ==> {
                &&& walking == (LoadState::Walking { depth: (depth + 1) as usize }, LoadAction::FetchParent)
                &&& from_start == (LoadState::Walking { depth: 1 }, LoadAction::FetchParent)
            }
            &&& kind == (LoadKind::Child { has_parent: false }) ==> {
                &&& walking == (LoadState::AwaitingSrk { depth: (depth + 1) as usize }, LoadAction::LoadSrk)
                &&& from_start == (LoadState::AwaitingSrk { depth: 1 }, LoadAction::LoadSrk)
            }
        }),
{
}

/// Once the library's storage root key is loaded at `handle`, the last key of
/// the chain, at index `depth - 1`, is loaded under it, and the storage root
/// key is not flushed.
pub proof fn law_load_under_srk(depth: usize, handle: u32)
    requires
        depth >= 1,
    ensures
        spec_load_step(LoadState::AwaitingSrk { depth }, LoadEvent::SrkLoaded { handle }) == (
            LoadState::Loading { index: (depth - 1) as usize, parent: Some(handle), parent_transient: false },
            LoadAction::Load { index: (depth - 1) as usize, parent: Some(handle), flush: None },
        ),
{
}

/// A key whose parent loads by itself: the walk goes up once, the parent, at
/// chain index 1, is loaded first under no parent, and once it is loaded
/// with its stored name the key asked for, at index 0, is loaded under it.
pub proof fn law_load_child_of_root(root: LoadKind, handle: u32, transient: bool, name: Vec<u8>, expected: Vec<u8>)
    requires
        root == LoadKind::Primary || root == LoadKind::Persistent,
        name@ == expected@,
    ensures
        ({
            let (s1, a1) = spec_load_step(LoadState::Idle, LoadEvent::KeyData { kind: LoadKind::Child { has_parent: true } });
            let (s2, a2) = spec_load_step(s1, LoadEvent::KeyData { kind: root });
            let (s3, a3) = spec_load_step(s2, LoadEvent::Loaded { handle, transient, name, expected });
            &&& a1 == LoadAction::FetchParent
            &&& a2 == (LoadAction::Load { index: 1, parent: None, flush: None })
            &&& a3 == (LoadAction::Load { index: 0, parent: Some(handle), flush: None })
            &&& s3 == (LoadState::Loading { index: 0, parent: Some(handle), parent_transient: transient })
        }),
{
}

/// Keys load from the root down: once a key of the chain is loaded with the
/// stored name, the key below it is loaded next, under it, and its parent is
/// flushed where it is transient.
pub proof fn law_load_root_down(index: usize, parent: Option<u32>, pt: bool, handle: u32, transient: bool, name: Vec<u8>, expected: Vec<u8>)
    requires
        index > 0,
        name@ == expected@,
    ensures
        spec_load_step(
            LoadState::Loading { index, parent, parent_transient: pt },
            LoadEvent::Loaded { handle, transient, name, expected },
        ) == (
            LoadState::Loading { index: (index - 1) as usize, parent: Some(handle), parent_transient: transient },
            LoadAction::Load { index: (index - 1) as usize, parent: Some(handle), flush: transient_parent(parent, pt) },
        ),
{
}

/// A loaded key whose name is not the stored one ends the load with
/// `CorruptedStore`, and the key and its parent are flushed where transient.
pub proof fn law_load_name_checked(index: usize, parent: Option<u32>, pt: bool, handle: u32, transient: bool, name: Vec<u8>, expected: Vec<u8>)
    requires
        name@ != expected@,
    ensures
        spec_load_step(
            LoadState::Loading { index, parent, parent_transient: pt },
            LoadEvent::Loaded { handle, transient, name, expected },
        ) == (
            LoadState::Done,
            LoadAction::Finish {
                result: Err(Error::CorruptedStore),
                flush_parent: transient_parent(parent, pt),
                flush_object: if transient { Some(handle) } else { None },
            },
        ),
{
}

/// A transient parent is never left behind: whatever comes while a key is
/// loaded under it, the next action flushes it.
pub proof fn law_load_flushes_transient_parent(index: usize, p: u32, event: LoadEvent)
    ensures
        match spec_load_step(LoadState::Loading { index, parent: Some(p), parent_transient: true }, event).1 {
            LoadAction::Load { flush, .. } => flush == Some(p),
            LoadAction::Finish { flush_parent, result, .. } => flush_parent == Some(p) || result == Err::<(u32, bool), Error>(Error::Internal),
            _ => false,
        },
{
}

// ---------------------------------------------------------------------------
// Creating a key.
// ---------------------------------------------------------------------------

/// What a key creation asks for: the template, the name to store the key
/// under where it is kept in the store, its policy, its parent and its
/// authorization value.
#[derive(Debug)]
pub struct KeyRequest {
    pub template: KeyTemplate,
    pub key_name: Option<String>,
    pub policy: Option<PolicyData>,
    pub parent: Option<KeyId>,
    pub auth: Tpm2bAuth,
}

/// Where creating a key stands.
#[derive(Debug)]
pub enum CreateState {
    /// Nothing has happened yet.
    Idle,
    /// The key the new key is created under is loaded.
    AwaitingParent { request: KeyRequest },
    /// The key is created under `parent`, or under the storage hierarchy.
    Creating { request: KeyRequest, parent: Option<u32>, parent_transient: bool },
    /// The operation is over.
    Done,
}

/// What the last action gave.
#[derive(Debug)]
pub enum CreateEvent {
    /// The operation starts; `key_exists` tells whether the store holds a key
    /// of the name asked for.
    Begin { request: KeyRequest, key_exists: bool },
    /// The parent is loaded at `handle`, transient or not.
    ParentLoaded { handle: u32, transient: bool },
    /// The TPM created the key.
    Created(CreatedKey),
    /// The action failed.
    Failed(Error),
}

/// What to do next.
#[derive(Debug)]
pub enum CreateAction {
    /// Load what the key is created under.
    LoadParent(CreationParent),
    /// Create the key under `parent`, or under the storage hierarchy.
    Create { parent: Option<u32> },
    /// Flush `flush` where given, then store `meta`; the key is then known as
    /// `key_id`, and `auth` is remembered as its authorization value.
    SaveMeta { meta: KeyMeta, key_id: KeyId, auth: Tpm2bAuth, flush: Option<u32> },
    /// Flush `flush` where given, then keep `key` in the context under a fresh
    /// identifier, and remember `auth` as its authorization value.
    RegisterTemporary { key: TemporaryKey<KeyData>, auth: Tpm2bAuth, flush: Option<u32> },
    /// Flush `flush` where given, and report `result`.
    Finish { result: Result<(), Error>, flush: Option<u32> },
}

/// Whether a key creation is refused before anything is sent: a name the
/// store holds already, a temporary parent for a named key, or a parent for a
/// storage root key or a symmetric key.
pub open spec fn creation_refused(template: KeyTemplate, named: bool, key_exists: bool, parent: Option<KeyIdModel>) -> bool {
    (named && key_exists) || (named && parent matches Some(KeyIdModel::Temporary(_))) || (takes_no_parent(template)
        && parent is Some)
}

/// The error a refused key creation reports.
pub open spec fn creation_refusal(e: Error, template: KeyTemplate, key_name: Option<Seq<char>>, key_exists: bool, parent: Option<KeyIdModel>) -> bool {
    let named = key_name is Some;
    if named && key_exists {
        e matches Error::KeyAlreadyExists(n) && n@ == key_name.unwrap()
    } else if named && parent matches Some(KeyIdModel::Temporary(_)) {
        e == Error::InvalidParameter("parent must be a stored key for a named key")
    } else {
        e == Error::InvalidParameter("parent cannot be specified for storage root or symmetric keys")
    }
}

pub open spec fn opt_key_id_view(k: Option<KeyId>) -> Option<KeyIdModel> {
    match k {
        Some(id) => Some(id@),
        None => None,
    }
}

pub open spec fn opt_name_view(k: Option<String>) -> Option<Seq<char>> {
    match k {
        Some(n) => Some(n@),
        None => None,
    }
}

/// The name of the stored parent of a key to store.
pub open spec fn parent_name_view(k: Option<KeyId>) -> Option<Seq<char>> {
    match k {
        Some(KeyId::Stored(n)) => Some(n@),
        _ => None,
    }
}

/// What the creation of a key registers once the TPM created it: a named key
/// is stored under its name with its parent's name, which must be a stored
/// key's, and is then known by that name; any other key is kept in the
/// context. Either way the authorization value asked for is remembered for
/// it. The parent is flushed before where it is transient; a failure reports
/// its error.
pub open spec fn spec_register_created(
    action: CreateAction,
    request: KeyRequest,
    key: CreatedKey,
    flush: Option<u32>,
) -> bool {
    match request.key_name {
        Some(name) => if request.parent matches Some(KeyId::Temporary(_)) {
            action == CreateAction::Finish { result: Err(Error::Internal), flush }
        } else {
            match spec_into_key_meta(key, request.template, name@, request.policy, parent_name_view(request.parent)) {
                Ok(m) => action matches CreateAction::SaveMeta { meta, key_id, auth, flush: f } && meta@ == m
                    && key_id@ == KeyIdModel::Stored(name@) && auth@ == request.auth@ && f == flush,
                Err(e) => action == CreateAction::Finish { result: Err(e), flush },
            }
        },
        None => match spec_temporary_key_data(key, request.template) {
            Ok(d) => action matches CreateAction::RegisterTemporary { key: t, auth, flush: f } && t.data@ == d
                && opt_policy_view(t.policy) == opt_policy_view(request.policy) && t.parent == request.parent
                && auth@ == request.auth@ && f == flush,
            Err(e) => action == CreateAction::Finish { result: Err(e), flush },
        },
    }
}

/// A named RSA key that is not a storage parent, or a named ECC key, is
/// stored under its name as a child of the stored parent it was created
/// under, by that parent's name, or with no parent name where it was
/// created under the library's storage root key; it is then known by its
/// name, its authorization value is remembered, and the transient parent is
/// flushed first.
pub proof fn law_create_named_child(
    action: CreateAction,
    request: KeyRequest,
    data: CreatedKeyData,
    flush: Option<u32>,
)
    requires
        spec_register_created(action, request, CreatedKey::Tpm(data), flush),
        request.key_name is Some,
        request.template == KeyTemplate::Ecc || request.template == (KeyTemplate::Rsa { storage_parent: false }),
        !(request.parent matches Some(KeyId::Temporary(_))),
    ensures
        action matches CreateAction::SaveMeta { meta, key_id, auth, flush: f } && {
            &&& meta@ matches KeyMetaModel::Tpm { key_name, hierarchy, parent_name, persistent_handle, .. }
            &&& meta@->Tpm_key_name == request.key_name.unwrap()@
            &&& meta@->Tpm_hierarchy is None
            &&& meta@->Tpm_persistent_handle is None
            &&& meta@->Tpm_parent_name == match request.parent {
                Some(KeyId::Stored(p)) => Some(p@),
                _ => None::<Seq<char>>,
            }
            &&& key_id@ == KeyIdModel::Stored(request.key_name.unwrap()@)
            &&& auth@ == request.auth@
            &&& f == flush
        },
{
    crate::created::law_created_tpm_key_meta(
        data,
        request.template,
        request.key_name.unwrap()@,
        request.policy,
        parent_name_view(request.parent),
    );
}

/// The step that registers a created key.
fn register_created(request: KeyRequest, key: CreatedKey, flush: Option<u32>) -> (r: CreateAction)
    ensures
        spec_register_created(r, request, key, flush),
{
    let KeyRequest { template, key_name, policy, parent, auth } = request;
    match key_name {
        Some(name) => {
            let parent_name = match stored_parent_name(parent) {
                Ok(p) => p,
                Err(e) => return CreateAction::Finish { result: Err(e), flush },
            };
            let key_id = KeyId::Stored(name.clone());
            match key.into_key_meta(template, name, policy, parent_name) {
                Ok(meta) => CreateAction::SaveMeta { meta, key_id, auth, flush },
                Err(e) => CreateAction::Finish { result: Err(e), flush },
            }
        },
        None => match key.into_temporary_key(template, policy, parent) {
            Ok(t) => CreateAction::RegisterTemporary { key: t, auth, flush },
            Err(e) => CreateAction::Finish { result: Err(e), flush },
        },
    }
}

/// One step of creating a key. A creation is refused before anything is
/// sent as `validate_key_creation` says. A storage root key is created under
/// the storage hierarchy, a symmetric key under the shared wrapping key, and
/// any other key under its parent or the library's storage root key; the
/// created key is then registered, its transient parent flushed.
pub fn create_key_step(state: CreateState, event: CreateEvent) -> (r: (CreateState, CreateAction))
    ensures
        match (state, event) {
            (CreateState::Idle, CreateEvent::Begin { request, key_exists }) => {
                let name = opt_name_view(request.key_name);
                let parent = opt_key_id_view(request.parent);
                if creation_refused(request.template, name is Some, key_exists, parent) {
                    &&& r.0 is Done
                    &&& r.1 matches CreateAction::Finish { result: Err(e), flush: None }
                        && creation_refusal(e, request.template, name, key_exists, parent)
                } else if request.template matches KeyTemplate::Rsa { storage_parent } && storage_parent {
                    r.0 == (CreateState::Creating { request, parent: None, parent_transient: false })
                        && r.1 == (CreateAction::Create { parent: None })
                } else {
                    &&& r.0 == (CreateState::AwaitingParent { request })
                    &&& r.1 matches CreateAction::LoadParent(p) && (
                    if request.template is Symmetric {
                        p is SharedWrappingKey
                    } else {
                        match request.parent {
                            Some(k) => p matches CreationParent::Key(c) && c@ == k@,
                            None => p is InternalSrk,
                        }
                    })
                }
            },
            (CreateState::AwaitingParent { request }, CreateEvent::ParentLoaded { handle, transient }) => r == (
                CreateState::Creating { request, parent: Some(handle), parent_transient: transient },
                CreateAction::Create { parent: Some(handle) },
            ),
            (CreateState::Creating { request, parent, parent_transient }, CreateEvent::Created(key)) => r.0 is Done
                && spec_register_created(r.1, request, key, transient_parent(parent, parent_transient)),
            (CreateState::Creating { parent, parent_transient, .. }, CreateEvent::Failed(e)) => r == (
                CreateState::Done,
                CreateAction::Finish { result: Err(e), flush: transient_parent(parent, parent_transient) },
            ),
            (CreateState::AwaitingParent { .. }, CreateEvent::Failed(e)) => r == (
                CreateState::Done,
                CreateAction::Finish { result: Err(e), flush: None },
            ),
            _ => r == (CreateState::Done, CreateAction::Finish { result: Err(Error::Internal), flush: None }),
        },
{
    match (state, event) {
        (CreateState::Idle, CreateEvent::Begin { request, key_exists }) => {
            let checked = match &request.key_name {
                Some(n) => validate_key_creation(request.template, Some(n.as_str()), key_exists, request.parent.as_ref()),
                None => validate_key_creation(request.template, None, key_exists, request.parent.as_ref()),
            };
            if let Err(e) = checked {
                return (CreateState::Done, CreateAction::Finish { result: Err(e), flush: None });
            }
            match creation_parent(request.template, request.parent.as_ref()) {
                CreationParent::Hierarchy => (
                    CreateState::Creating { request, parent: None, parent_transient: false },
                    CreateAction::Create { parent: None },
                ),
                p => (CreateState::AwaitingParent { request }, CreateAction::LoadParent(p)),
            }
        },
        (CreateState::AwaitingParent { request }, CreateEvent::ParentLoaded { handle, transient }) => (
            CreateState::Creating { request, parent: Some(handle), parent_transient: transient },
            CreateAction::Create { parent: Some(handle) },
        ),
        (CreateState::Creating { request, parent, parent_transient }, CreateEvent::Created(key)) => {
            let flush = if parent_transient {
                parent
            } else {
                None
            };
            (CreateState::Done, register_created(request, key, flush))
        },
        (CreateState::Creating { parent, parent_transient, .. }, CreateEvent::Failed(e)) => (
            CreateState::Done,
            CreateAction::Finish {
                result: Err(e),
                flush: if parent_transient {
                    parent
                } else {
                    None
                },
            },
        ),
        (CreateState::AwaitingParent { .. }, CreateEvent::Failed(e)) => (
            CreateState::Done,
            CreateAction::Finish { result: Err(e), flush: None },
        ),
        _ => (
            CreateState::Done,
            CreateAction::Finish { result: Err(Error::invalid_state("unexpected create step")), flush: None },
        ),
    }
}

// ---------------------------------------------------------------------------
// Deleting a stored key.
// ---------------------------------------------------------------------------

/// What deleting a stored key takes.
#[derive(Debug)]
pub enum DeleteAction {
    /// Evict the key from its persistent handle, then remove its row.
    EvictThenRemove { persistent: u32 },
    /// Remove the key's row.
    Remove,
}

/// How a stored key is deleted: a key at a persistent handle is evicted
/// before its row is removed; any other key only loses its row.
pub open spec fn spec_delete_plan(meta: KeyMetaModel) -> DeleteAction {
    match meta {
        KeyMetaModel::Tpm { persistent_handle: Some(h), .. } => DeleteAction::EvictThenRemove { persistent: h },
        _ => DeleteAction::Remove,
    }
}

/// What deleting the stored key `meta` takes.
pub fn delete_plan(meta: &KeyMeta) -> (r: DeleteAction)
    ensures
        r == spec_delete_plan(meta@),
{
    match meta {
        KeyMeta::Tpm { persistent_handle: Some(h), .. } => DeleteAction::EvictThenRemove { persistent: h.0.0 },
        _ => DeleteAction::Remove,
    }
}


/// A stored key at a persistent handle is evicted from exactly that handle
/// before its record is removed; any other key, and every symmetric key, only
/// has its record removed.
pub proof fn law_delete_evicts_persistent_keys(
    key_name: Seq<char>,
    hierarchy: Option<Hierarchy>,
    meta: TpmKeyMetaModel,
    persistent_handle: Option<u32>,
    parent_name: Option<Seq<char>>,
    other: KeyMetaModel,
)
    ensures
        spec_delete_plan(KeyMetaModel::Tpm { key_name, hierarchy, meta, persistent_handle, parent_name }) == match persistent_handle {
            Some(h) => DeleteAction::EvictThenRemove { persistent: h },
            None => DeleteAction::Remove,
        },
        other is Symmetric ==> spec_delete_plan(other) == DeleteAction::Remove,
{
}

} // verus!
