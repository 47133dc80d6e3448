//! The TPM hierarchies a primary key can belong to.
use vstd::prelude::*;

use crate::error::Error;
use crate::handle::{RH_ENDORSEMENT, RH_OWNER, RH_PLATFORM};

verus! {

/// A TPM hierarchy.
#[derive(Debug, Clone, Copy, PartialEq, Eq, Hash, Structural)]
pub enum Hierarchy {
    Storage,
    Platform,
    Endorsement,
}

/// The reason a hierarchy name was not understood.
#[derive(Debug, Clone, Copy, PartialEq, Eq, Structural)]
pub struct HierarchyParseError;

/// `str::trim`: the text without its leading and trailing white space.
pub uninterp spec fn spec_trim(s: Seq<char>) -> Seq<char>;

/// `str::trim` from std: `s` without leading and trailing Unicode white space.
#[verifier::external_body]
fn trim(s: &str) -> (t: &str)
    ensures
        t@ == spec_trim(s@),
{
    s.trim()
}

/// The name under which a hierarchy is stored.
pub open spec fn spec_hierarchy_name(h: Hierarchy) -> Seq<char> {
    match h {
        Hierarchy::Storage => "owner"@,
        Hierarchy::Platform => "platform"@,
        Hierarchy::Endorsement => "endorsement"@,
    }
}

/// The hierarchy that a user names: "storage", "endorsement" or "platform".
pub open spec fn spec_hierarchy_of_user_name(s: Seq<char>) -> Option<Hierarchy> {
    if s == "storage"@ {
        Some(Hierarchy::Storage)
    } else if s == "endorsement"@ {
        Some(Hierarchy::Endorsement)
    } else if s == "platform"@ {
        Some(Hierarchy::Platform)
    } else {
        None
    }
}

/// The hierarchy stored under a name, the inverse of [`spec_hierarchy_name`].
pub open spec fn spec_hierarchy_of_name(s: Seq<char>) -> Option<Hierarchy> {
    if s == "owner"@ {
        Some(Hierarchy::Storage)
    } else if s == "platform"@ {
        Some(Hierarchy::Platform)
    } else if s == "endorsement"@ {
        Some(Hierarchy::Endorsement)
    } else {
        None
    }
}

/// The handle of a hierarchy.
pub open spec fn spec_hierarchy_handle(h: Hierarchy) -> u32 {
    match h {
        Hierarchy::Storage => RH_OWNER,
        Hierarchy::Platform => RH_PLATFORM,
        Hierarchy::Endorsement => RH_ENDORSEMENT,
    }
}

impl Hierarchy {
    /// The name under which the hierarchy is stored.
    pub fn as_str(&self) -> (s: &'static str)
        ensures
            s@ == spec_hierarchy_name(*self),
    {
        match self {
            Hierarchy::Storage => "owner",
            Hierarchy::Platform => "platform",
            Hierarchy::Endorsement => "endorsement",
        }
    }

    /// The hierarchy stored under `name`; a name that is none of theirs
    /// means the store is corrupted.
    pub fn from_db(name: &str) -> (r: Result<Hierarchy, Error>)
        ensures
            match spec_hierarchy_of_name(name@) {
                Some(h) => r == Ok::<Hierarchy, Error>(h),
                None => r == Err::<Hierarchy, Error>(Error::CorruptedStore),
            },
    {
        if crate::text::str_eq(name, "owner") {
            Ok(Hierarchy::Storage)
        } else if crate::text::str_eq(name, "platform") {
            Ok(Hierarchy::Platform)
        } else if crate::text::str_eq(name, "endorsement") {
            Ok(Hierarchy::Endorsement)
        } else {
            Err(Error::corrupted_store())
        }
    }

    /// The hierarchy that a user names, white space around the name aside.
    pub fn parse(s: &str) -> (r: Result<Hierarchy, HierarchyParseError>)
        ensures
            match spec_hierarchy_of_user_name(spec_trim(s@)) {
                Some(h) => r == Ok::<Hierarchy, HierarchyParseError>(h),
                None => r is Err,
            },
    {
        let t = trim(s);
        if crate::text::str_eq(t, "storage") {
            Ok(Hierarchy::Storage)
        } else if crate::text::str_eq(t, "endorsement") {
            Ok(Hierarchy::Endorsement)
        } else if crate::text::str_eq(t, "platform") {
            Ok(Hierarchy::Platform)
        } else {
            Err(HierarchyParseError)
        }
    }

    /// The handle of the hierarchy.
    pub fn handle(&self) -> (h: u32)
        ensures
            h == spec_hierarchy_handle(*self),
    {
        match self {
            Hierarchy::Storage => RH_OWNER,
            Hierarchy::Platform => RH_PLATFORM,
            Hierarchy::Endorsement => RH_ENDORSEMENT,
        }
    }
}

/// The name under which a hierarchy is stored.
pub fn hierarchy_to_str(hierarchy: Hierarchy) -> (s: &'static str)
    ensures
        s@ == spec_hierarchy_name(hierarchy),
{
    hierarchy.as_str()
}

impl std::str::FromStr for Hierarchy {
    type Err = HierarchyParseError;

    fn from_str(s: &str) -> Result<Hierarchy, HierarchyParseError> {
        Hierarchy::parse(s)
    }
}

/// A stored hierarchy name reads back as the hierarchy it was stored for.
pub proof fn lemma_hierarchy_name_round_trip(h: Hierarchy)
    ensures
        spec_hierarchy_of_name(spec_hierarchy_name(h)) == Some(h),
{
    reveal_strlit("owner");
    reveal_strlit("platform");
    reveal_strlit("endorsement");
    assert("owner"@.len() == 5);
    assert("platform"@.len() == 8);
    assert("endorsement"@.len() == 11);
}

/// The storage hierarchy is the owner hierarchy, `TPM_RH_OWNER`
/// (0x40000001), stored as "owner" and named "storage" by a user; the
/// endorsement hierarchy is `TPM_RH_ENDORSEMENT` (0x4000000B), the platform
/// hierarchy `TPM_RH_PLATFORM` (0x4000000C), each stored and named by a
/// user under its own name.
pub proof fn law_hierarchy_handles_and_names()
    ensures
        spec_hierarchy_handle(Hierarchy::Storage) == 0x4000_0001,
        spec_hierarchy_handle(Hierarchy::Endorsement) == 0x4000_000B,
        spec_hierarchy_handle(Hierarchy::Platform) == 0x4000_000C,
        spec_hierarchy_name(Hierarchy::Storage) == "owner"@,
        spec_hierarchy_name(Hierarchy::Endorsement) == "endorsement"@,
        spec_hierarchy_name(Hierarchy::Platform) == "platform"@,
        spec_hierarchy_of_user_name("storage"@) == Some(Hierarchy::Storage),
        spec_hierarchy_of_user_name("endorsement"@) == Some(Hierarchy::Endorsement),
        spec_hierarchy_of_user_name("platform"@) == Some(Hierarchy::Platform),
{
    reveal_strlit("storage");
    reveal_strlit("endorsement");
    reveal_strlit("platform");
}

} // verus!
