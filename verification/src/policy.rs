//! Authorization policies as the key store keeps them.
use vstd::prelude::*;
use vstd::std_specs::convert::{FromSpecImpl, TryFromSpecImpl};

use crate::error::Error;
use crate::tpm::{
    Tpm2bDigest, TpmCc, TpmiAlgHash, TpmlDigest, CC_CREATE, CC_CREATE_PRIMARY, CC_DUPLICATE,
    CC_IMPORT, CC_LOAD, CC_RSA_DECRYPT, CC_SIGN, CC_UNSEAL,
};

verus! {

/// The hash algorithms that a PCR selection may use.
#[derive(Debug, Clone, Copy, PartialEq, Eq, Structural)]
#[allow(non_camel_case_types)]
pub enum HashAlgorithm {
    Sha1,
    Sha256,
    Sha384,
    Sha512,
    Sm3_256,
    Sha3_256,
    Sha3_384,
    Sha3_512,
}

/// The `TPM_ALG_ID` of a hash algorithm.
pub open spec fn spec_hash_alg_id(h: HashAlgorithm) -> u16 {
    match h {
        HashAlgorithm::Sha1 => 0x0004,
        HashAlgorithm::Sha256 => 0x000B,
        HashAlgorithm::Sha384 => 0x000C,
        HashAlgorithm::Sha512 => 0x000D,
        HashAlgorithm::Sm3_256 => 0x0012,
        HashAlgorithm::Sha3_256 => 0x0027,
        HashAlgorithm::Sha3_384 => 0x0028,
        HashAlgorithm::Sha3_512 => 0x0029,
    }
}

/// The hash algorithm with a `TPM_ALG_ID`, if there is one.
pub open spec fn spec_hash_alg_of(id: u16) -> Option<HashAlgorithm> {
    if id == 0x0004 {
        Some(HashAlgorithm::Sha1)
    } else if id == 0x000B {
        Some(HashAlgorithm::Sha256)
    } else if id == 0x000C {
        Some(HashAlgorithm::Sha384)
    } else if id == 0x000D {
        Some(HashAlgorithm::Sha512)
    } else if id == 0x0012 {
        Some(HashAlgorithm::Sm3_256)
    } else if id == 0x0027 {
        Some(HashAlgorithm::Sha3_256)
    } else if id == 0x0028 {
        Some(HashAlgorithm::Sha3_384)
    } else if id == 0x0029 {
        Some(HashAlgorithm::Sha3_512)
    } else {
        None
    }
}

impl HashAlgorithm {
    pub fn alg_id(self) -> (id: u16)
        ensures
            id == spec_hash_alg_id(self),
    {
        match self {
            HashAlgorithm::Sha1 => 0x0004,
            HashAlgorithm::Sha256 => 0x000B,
            HashAlgorithm::Sha384 => 0x000C,
            HashAlgorithm::Sha512 => 0x000D,
            HashAlgorithm::Sm3_256 => 0x0012,
            HashAlgorithm::Sha3_256 => 0x0027,
            HashAlgorithm::Sha3_384 => 0x0028,
            HashAlgorithm::Sha3_512 => 0x0029,
        }
    }

    pub fn from_alg_id(id: u16) -> (r: Option<HashAlgorithm>)
        ensures
            r == spec_hash_alg_of(id),
    {
        if id == 0x0004 {
            Some(HashAlgorithm::Sha1)
        } else if id == 0x000B {
            Some(HashAlgorithm::Sha256)
        } else if id == 0x000C {
            Some(HashAlgorithm::Sha384)
        } else if id == 0x000D {
            Some(HashAlgorithm::Sha512)
        } else if id == 0x0012 {
            Some(HashAlgorithm::Sm3_256)
        } else if id == 0x0027 {
            Some(HashAlgorithm::Sha3_256)
        } else if id == 0x0028 {
            Some(HashAlgorithm::Sha3_384)
        } else if id == 0x0029 {
            Some(HashAlgorithm::Sha3_512)
        } else {
            None
        }
    }
}

impl From<HashAlgorithm> for TpmiAlgHash {
    fn from(h: HashAlgorithm) -> (a: TpmiAlgHash) {
        TpmiAlgHash(h.alg_id())
    }
}

impl FromSpecImpl<HashAlgorithm> for TpmiAlgHash {
    open spec fn obeys_from_spec() -> bool {
        true
    }

    open spec fn from_spec(h: HashAlgorithm) -> TpmiAlgHash {
        TpmiAlgHash(spec_hash_alg_id(h))
    }
}

impl TryFrom<TpmiAlgHash> for HashAlgorithm {
    type Error = Error;

    fn try_from(alg: TpmiAlgHash) -> (r: Result<HashAlgorithm, Error>) {
        match HashAlgorithm::from_alg_id(alg.0) {
            Some(h) => Ok(h),
            None => Err(Error::conversion()),
        }
    }
}

impl TryFromSpecImpl<TpmiAlgHash> for HashAlgorithm {
    open spec fn obeys_try_from_spec() -> bool {
        true
    }

    open spec fn try_from_spec(alg: TpmiAlgHash) -> Result<HashAlgorithm, Error> {
        match spec_hash_alg_of(alg.0) {
            Some(h) => Ok(h),
            None => Err(Error::Internal),
        }
    }
}

/// A PCR index, from 0 to 23.
#[derive(Debug, Clone, Copy, PartialEq, Eq, Structural)]
pub enum PcrSlot {
    Slot0,
    Slot1,
    Slot2,
    Slot3,
    Slot4,
    Slot5,
    Slot6,
    Slot7,
    Slot8,
    Slot9,
    Slot10,
    Slot11,
    Slot12,
    Slot13,
    Slot14,
    Slot15,
    Slot16,
    Slot17,
    Slot18,
    Slot19,
    Slot20,
    Slot21,
    Slot22,
    Slot23,
}

/// The number of PCR slots.
pub const PCR_SLOT_COUNT: usize = 24;

pub open spec fn spec_pcr_slot_index(slot: PcrSlot) -> u8 {
    match slot {
        PcrSlot::Slot0 => 0,
        PcrSlot::Slot1 => 1,
        PcrSlot::Slot2 => 2,
        PcrSlot::Slot3 => 3,
        PcrSlot::Slot4 => 4,
        PcrSlot::Slot5 => 5,
        PcrSlot::Slot6 => 6,
        PcrSlot::Slot7 => 7,
        PcrSlot::Slot8 => 8,
        PcrSlot::Slot9 => 9,
        PcrSlot::Slot10 => 10,
        PcrSlot::Slot11 => 11,
        PcrSlot::Slot12 => 12,
        PcrSlot::Slot13 => 13,
        PcrSlot::Slot14 => 14,
        PcrSlot::Slot15 => 15,
        PcrSlot::Slot16 => 16,
        PcrSlot::Slot17 => 17,
        PcrSlot::Slot18 => 18,
        PcrSlot::Slot19 => 19,
        PcrSlot::Slot20 => 20,
        PcrSlot::Slot21 => 21,
        PcrSlot::Slot22 => 22,
        PcrSlot::Slot23 => 23,
    }
}

pub open spec fn spec_pcr_slot_of(index: u8) -> Option<PcrSlot> {
    if index == 0 {
        Some(PcrSlot::Slot0)
    } else if index == 1 {
        Some(PcrSlot::Slot1)
    } else if index == 2 {
        Some(PcrSlot::Slot2)
    } else if index == 3 {
        Some(PcrSlot::Slot3)
    } else if index == 4 {
        Some(PcrSlot::Slot4)
    } else if index == 5 {
        Some(PcrSlot::Slot5)
    } else if index == 6 {
        Some(PcrSlot::Slot6)
    } else if index == 7 {
        Some(PcrSlot::Slot7)
    } else if index == 8 {
        Some(PcrSlot::Slot8)
    } else if index == 9 {
        Some(PcrSlot::Slot9)
    } else if index == 10 {
        Some(PcrSlot::Slot10)
    } else if index == 11 {
        Some(PcrSlot::Slot11)
    } else if index == 12 {
        Some(PcrSlot::Slot12)
    } else if index == 13 {
        Some(PcrSlot::Slot13)
    } else if index == 14 {
        Some(PcrSlot::Slot14)
    } else if index == 15 {
        Some(PcrSlot::Slot15)
    } else if index == 16 {
        Some(PcrSlot::Slot16)
    } else if index == 17 {
        Some(PcrSlot::Slot17)
    } else if index == 18 {
        Some(PcrSlot::Slot18)
    } else if index == 19 {
        Some(PcrSlot::Slot19)
    } else if index == 20 {
        Some(PcrSlot::Slot20)
    } else if index == 21 {
        Some(PcrSlot::Slot21)
    } else if index == 22 {
        Some(PcrSlot::Slot22)
    } else if index == 23 {
        Some(PcrSlot::Slot23)
    } else {
        None
    }
}

impl PcrSlot {
    /// The greatest PCR index.
    pub const MAX: u8 = 23;

    pub fn index(self) -> (i: u8)
        ensures
            i == spec_pcr_slot_index(self),
    {
        match self {
            PcrSlot::Slot0 => 0,
            PcrSlot::Slot1 => 1,
            PcrSlot::Slot2 => 2,
            PcrSlot::Slot3 => 3,
            PcrSlot::Slot4 => 4,
            PcrSlot::Slot5 => 5,
            PcrSlot::Slot6 => 6,
            PcrSlot::Slot7 => 7,
            PcrSlot::Slot8 => 8,
            PcrSlot::Slot9 => 9,
            PcrSlot::Slot10 => 10,
            PcrSlot::Slot11 => 11,
            PcrSlot::Slot12 => 12,
            PcrSlot::Slot13 => 13,
            PcrSlot::Slot14 => 14,
            PcrSlot::Slot15 => 15,
            PcrSlot::Slot16 => 16,
            PcrSlot::Slot17 => 17,
            PcrSlot::Slot18 => 18,
            PcrSlot::Slot19 => 19,
            PcrSlot::Slot20 => 20,
            PcrSlot::Slot21 => 21,
            PcrSlot::Slot22 => 22,
            PcrSlot::Slot23 => 23,
        }
    }
}

impl TryFrom<u8> for PcrSlot {
    type Error = Error;

    fn try_from(index: u8) -> (r: Result<PcrSlot, Error>) {
        if index == 0 {
            Ok(PcrSlot::Slot0)
        } else if index == 1 {
            Ok(PcrSlot::Slot1)
        } else if index == 2 {
            Ok(PcrSlot::Slot2)
        } else if index == 3 {
            Ok(PcrSlot::Slot3)
        } else if index == 4 {
            Ok(PcrSlot::Slot4)
        } else if index == 5 {
            Ok(PcrSlot::Slot5)
        } else if index == 6 {
            Ok(PcrSlot::Slot6)
        } else if index == 7 {
            Ok(PcrSlot::Slot7)
        } else if index == 8 {
            Ok(PcrSlot::Slot8)
        } else if index == 9 {
            Ok(PcrSlot::Slot9)
        } else if index == 10 {
            Ok(PcrSlot::Slot10)
        } else if index == 11 {
            Ok(PcrSlot::Slot11)
        } else if index == 12 {
            Ok(PcrSlot::Slot12)
        } else if index == 13 {
            Ok(PcrSlot::Slot13)
        } else if index == 14 {
            Ok(PcrSlot::Slot14)
        } else if index == 15 {
            Ok(PcrSlot::Slot15)
        } else if index == 16 {
            Ok(PcrSlot::Slot16)
        } else if index == 17 {
            Ok(PcrSlot::Slot17)
        } else if index == 18 {
            Ok(PcrSlot::Slot18)
        } else if index == 19 {
            Ok(PcrSlot::Slot19)
        } else if index == 20 {
            Ok(PcrSlot::Slot20)
        } else if index == 21 {
            Ok(PcrSlot::Slot21)
        } else if index == 22 {
            Ok(PcrSlot::Slot22)
        } else if index == 23 {
            Ok(PcrSlot::Slot23)
        } else {
            Err(Error::conversion())
        }
    }
}

impl TryFromSpecImpl<u8> for PcrSlot {
    open spec fn obeys_try_from_spec() -> bool {
        true
    }

    open spec fn try_from_spec(index: u8) -> Result<PcrSlot, Error> {
        match spec_pcr_slot_of(index) {
            Some(slot) => Ok(slot),
            None => Err(Error::Internal),
        }
    }
}

/// Each hash algorithm is sent as its `TPM_ALG_ID`: SHA-1 0x0004, SHA-256
/// 0x000B, SHA-384 0x000C, SHA-512 0x000D, SM3-256 0x0012, SHA3-256 0x0027,
/// SHA3-384 0x0028, SHA3-512 0x0029.
pub proof fn law_hash_algorithm_ids()
    ensures
        spec_hash_alg_id(HashAlgorithm::Sha1) == 0x0004,
        spec_hash_alg_id(HashAlgorithm::Sha256) == 0x000B,
        spec_hash_alg_id(HashAlgorithm::Sha384) == 0x000C,
        spec_hash_alg_id(HashAlgorithm::Sha512) == 0x000D,
        spec_hash_alg_id(HashAlgorithm::Sm3_256) == 0x0012,
        spec_hash_alg_id(HashAlgorithm::Sha3_256) == 0x0027,
        spec_hash_alg_id(HashAlgorithm::Sha3_384) == 0x0028,
        spec_hash_alg_id(HashAlgorithm::Sha3_512) == 0x0029,
{
}

/// A hash algorithm's `TPM_ALG_ID` gives the algorithm back, and an id is
/// an algorithm only where it is one of these.
pub proof fn law_hash_algorithm_round_trip(h: HashAlgorithm, id: u16)
    ensures
        spec_hash_alg_of(spec_hash_alg_id(h)) == Some(h),
        spec_hash_alg_of(id) matches Some(g) ==> spec_hash_alg_id(g) == id,
{
}

/// Each slot stands for the PCR of its number: slot N is PCR N, for N from
/// 0 to 23.
pub proof fn law_pcr_slot_numbers()
    ensures
        spec_pcr_slot_index(PcrSlot::Slot0) == 0,
        spec_pcr_slot_index(PcrSlot::Slot1) == 1,
        spec_pcr_slot_index(PcrSlot::Slot2) == 2,
        spec_pcr_slot_index(PcrSlot::Slot3) == 3,
        spec_pcr_slot_index(PcrSlot::Slot4) == 4,
        spec_pcr_slot_index(PcrSlot::Slot5) == 5,
        spec_pcr_slot_index(PcrSlot::Slot6) == 6,
        spec_pcr_slot_index(PcrSlot::Slot7) == 7,
        spec_pcr_slot_index(PcrSlot::Slot8) == 8,
        spec_pcr_slot_index(PcrSlot::Slot9) == 9,
        spec_pcr_slot_index(PcrSlot::Slot10) == 10,
        spec_pcr_slot_index(PcrSlot::Slot11) == 11,
        spec_pcr_slot_index(PcrSlot::Slot12) == 12,
        spec_pcr_slot_index(PcrSlot::Slot13) == 13,
        spec_pcr_slot_index(PcrSlot::Slot14) == 14,
        spec_pcr_slot_index(PcrSlot::Slot15) == 15,
        spec_pcr_slot_index(PcrSlot::Slot16) == 16,
        spec_pcr_slot_index(PcrSlot::Slot17) == 17,
        spec_pcr_slot_index(PcrSlot::Slot18) == 18,
        spec_pcr_slot_index(PcrSlot::Slot19) == 19,
        spec_pcr_slot_index(PcrSlot::Slot20) == 20,
        spec_pcr_slot_index(PcrSlot::Slot21) == 21,
        spec_pcr_slot_index(PcrSlot::Slot22) == 22,
        spec_pcr_slot_index(PcrSlot::Slot23) == 23,
{
}

/// The number N from 0 to 23 is the slot of PCR N.
pub proof fn law_pcr_slot_of_number()
    ensures
        spec_pcr_slot_of(0) == Some(PcrSlot::Slot0),
        spec_pcr_slot_of(1) == Some(PcrSlot::Slot1),
        spec_pcr_slot_of(2) == Some(PcrSlot::Slot2),
        spec_pcr_slot_of(3) == Some(PcrSlot::Slot3),
        spec_pcr_slot_of(4) == Some(PcrSlot::Slot4),
        spec_pcr_slot_of(5) == Some(PcrSlot::Slot5),
        spec_pcr_slot_of(6) == Some(PcrSlot::Slot6),
        spec_pcr_slot_of(7) == Some(PcrSlot::Slot7),
        spec_pcr_slot_of(8) == Some(PcrSlot::Slot8),
        spec_pcr_slot_of(9) == Some(PcrSlot::Slot9),
        spec_pcr_slot_of(10) == Some(PcrSlot::Slot10),
        spec_pcr_slot_of(11) == Some(PcrSlot::Slot11),
        spec_pcr_slot_of(12) == Some(PcrSlot::Slot12),
        spec_pcr_slot_of(13) == Some(PcrSlot::Slot13),
        spec_pcr_slot_of(14) == Some(PcrSlot::Slot14),
        spec_pcr_slot_of(15) == Some(PcrSlot::Slot15),
        spec_pcr_slot_of(16) == Some(PcrSlot::Slot16),
        spec_pcr_slot_of(17) == Some(PcrSlot::Slot17),
        spec_pcr_slot_of(18) == Some(PcrSlot::Slot18),
        spec_pcr_slot_of(19) == Some(PcrSlot::Slot19),
        spec_pcr_slot_of(20) == Some(PcrSlot::Slot20),
        spec_pcr_slot_of(21) == Some(PcrSlot::Slot21),
        spec_pcr_slot_of(22) == Some(PcrSlot::Slot22),
        spec_pcr_slot_of(23) == Some(PcrSlot::Slot23),
{
}

/// No number above 23 is a slot.
pub proof fn law_pcr_slot_range(i: u8)
    ensures
        i > 23 <==> spec_pcr_slot_of(i) is None,
{
}

/// A slot's number gives the slot back.
pub proof fn law_pcr_slot_round_trip(s: PcrSlot)
    ensures
        spec_pcr_slot_of(spec_pcr_slot_index(s)) == Some(s),
        spec_pcr_slot_index(s) <= PcrSlot::MAX,
{
}

/// The commands that a command-code policy may name.
#[derive(Debug, Clone, Copy, PartialEq, Eq, Structural)]
pub enum PolicyCommand {
    CreatePrimary,
    Create,
    Load,
    Import,
    Duplicate,
    Sign,
    Decrypt,
    Unseal,
}

pub open spec fn spec_policy_command_cc(c: PolicyCommand) -> u32 {
    match c {
        PolicyCommand::CreatePrimary => CC_CREATE_PRIMARY,
        PolicyCommand::Create => CC_CREATE,
        PolicyCommand::Load => CC_LOAD,
        PolicyCommand::Import => CC_IMPORT,
        PolicyCommand::Duplicate => CC_DUPLICATE,
        PolicyCommand::Sign => CC_SIGN,
        PolicyCommand::Decrypt => CC_RSA_DECRYPT,
        PolicyCommand::Unseal => CC_UNSEAL,
    }
}

pub open spec fn spec_policy_command_of(cc: u32) -> Option<PolicyCommand> {
    if cc == CC_CREATE_PRIMARY {
        Some(PolicyCommand::CreatePrimary)
    } else if cc == CC_CREATE {
        Some(PolicyCommand::Create)
    } else if cc == CC_LOAD {
        Some(PolicyCommand::Load)
    } else if cc == CC_IMPORT {
        Some(PolicyCommand::Import)
    } else if cc == CC_DUPLICATE {
        Some(PolicyCommand::Duplicate)
    } else if cc == CC_SIGN {
        Some(PolicyCommand::Sign)
    } else if cc == CC_RSA_DECRYPT {
        Some(PolicyCommand::Decrypt)
    } else if cc == CC_UNSEAL {
        Some(PolicyCommand::Unseal)
    } else {
        None
    }
}

/// Each command a command-code policy names is sent as its `TPM_CC`:
/// CreatePrimary 0x0131, Create 0x0153, Load 0x0157, Import 0x0156,
/// Duplicate 0x014B, Sign 0x015D, RSA_Decrypt 0x0159, Unseal 0x015E.
pub proof fn law_policy_command_codes()
    ensures
        spec_policy_command_cc(PolicyCommand::CreatePrimary) == 0x0131,
        spec_policy_command_cc(PolicyCommand::Create) == 0x0153,
        spec_policy_command_cc(PolicyCommand::Load) == 0x0157,
        spec_policy_command_cc(PolicyCommand::Import) == 0x0156,
        spec_policy_command_cc(PolicyCommand::Duplicate) == 0x014B,
        spec_policy_command_cc(PolicyCommand::Sign) == 0x015D,
        spec_policy_command_cc(PolicyCommand::Decrypt) == 0x0159,
        spec_policy_command_cc(PolicyCommand::Unseal) == 0x015E,
{
}

/// A command's code gives the command back, and a code is a command only
/// where it is one of these.
pub proof fn law_policy_command_round_trip(c: PolicyCommand, cc: u32)
    ensures
        spec_policy_command_of(spec_policy_command_cc(c)) == Some(c),
        spec_policy_command_of(cc) matches Some(d) ==> spec_policy_command_cc(d) == cc,
{
}

impl From<PolicyCommand> for TpmCc {
    fn from(c: PolicyCommand) -> (cc: TpmCc) {
        match c {
            PolicyCommand::CreatePrimary => TpmCc(CC_CREATE_PRIMARY),
            PolicyCommand::Create => TpmCc(CC_CREATE),
            PolicyCommand::Load => TpmCc(CC_LOAD),
            PolicyCommand::Import => TpmCc(CC_IMPORT),
            PolicyCommand::Duplicate => TpmCc(CC_DUPLICATE),
            PolicyCommand::Sign => TpmCc(CC_SIGN),
            PolicyCommand::Decrypt => TpmCc(CC_RSA_DECRYPT),
            PolicyCommand::Unseal => TpmCc(CC_UNSEAL),
        }
    }
}

impl FromSpecImpl<PolicyCommand> for TpmCc {
    open spec fn obeys_from_spec() -> bool {
        true
    }

    open spec fn from_spec(c: PolicyCommand) -> TpmCc {
        TpmCc(spec_policy_command_cc(c))
    }
}

impl TryFrom<TpmCc> for PolicyCommand {
    type Error = Error;

    fn try_from(cc: TpmCc) -> (r: Result<PolicyCommand, Error>) {
        let v = cc.0;
        if v == CC_CREATE_PRIMARY {
            Ok(PolicyCommand::CreatePrimary)
        } else if v == CC_CREATE {
            Ok(PolicyCommand::Create)
        } else if v == CC_LOAD {
            Ok(PolicyCommand::Load)
        } else if v == CC_IMPORT {
            Ok(PolicyCommand::Import)
        } else if v == CC_DUPLICATE {
            Ok(PolicyCommand::Duplicate)
        } else if v == CC_SIGN {
            Ok(PolicyCommand::Sign)
        } else if v == CC_RSA_DECRYPT {
            Ok(PolicyCommand::Decrypt)
        } else if v == CC_UNSEAL {
            Ok(PolicyCommand::Unseal)
        } else {
            Err(Error::conversion())
        }
    }
}

impl TryFromSpecImpl<TpmCc> for PolicyCommand {
    open spec fn obeys_try_from_spec() -> bool {
        true
    }

    open spec fn try_from_spec(cc: TpmCc) -> Result<PolicyCommand, Error> {
        match spec_policy_command_of(cc.0) {
            Some(c) => Ok(c),
            None => Err(Error::Internal),
        }
    }
}

/// Whether a list of PCR slots may form a selection: it is not empty, has no
/// slot twice, and so holds no more than every slot once.
pub open spec fn slots_wf(slots: Seq<PcrSlot>) -> bool {
    &&& 0 < slots.len() <= PCR_SLOT_COUNT
    &&& slots.no_duplicates()
}

/// A selection of PCRs under one hash algorithm.
#[derive(Debug, Clone)]
pub struct PcrSelection {
    hash_alg: HashAlgorithm,
    slots: Vec<PcrSlot>,
}

impl PcrSelection {
    pub closed spec fn spec_hash_alg(&self) -> HashAlgorithm {
        self.hash_alg
    }

    pub closed spec fn spec_slots(&self) -> Seq<PcrSlot> {
        self.slots@
    }

    /// A selection of `slots`, in their order; fails where they are empty,
    /// hold a slot twice, or are more than there are slots.
    pub fn new(hash_alg: HashAlgorithm, slots: &[PcrSlot]) -> (r: Result<PcrSelection, Error>)
        ensures
            match r {
                Ok(sel) => slots_wf(slots@) && sel.spec_hash_alg() == hash_alg && sel.spec_slots() == slots@,
                Err(e) => !slots_wf(slots@) && e is InvalidPolicy,
            },
    {
        let n = slots.len();
        if n == 0 {
            return Err(Error::InvalidPolicy("PCR selection must not be empty"));
        }
        if n > PCR_SLOT_COUNT {
            return Err(Error::InvalidPolicy("PCR selection holds too many slots"));
        }
        let mut i: usize = 0;
        while i < n
            invariant
                n == slots@.len(),
                0 <= i <= n,
                forall|a: int, b: int| 0 <= a < b < n && a < i ==> slots@[a] != slots@[b],
            decreases n - i,
        {
            let mut j: usize = i + 1;
            while j < n
                invariant
                    n == slots@.len(),
                    0 <= i < n,
                    i + 1 <= j <= n,
                    forall|a: int, b: int| 0 <= a < b < n && a < i ==> slots@[a] != slots@[b],
                    forall|b: int| i < b < j ==> slots@[i as int] != slots@[b],
                decreases n - j,
            {
                if slots[i] == slots[j] {
                    return Err(Error::InvalidPolicy("PCR selection holds a slot twice"));
                }
                j += 1;
            }
            i += 1;
        }
        let mut v: Vec<PcrSlot> = Vec::new();
        let mut k: usize = 0;
        while k < n
            invariant
                n == slots@.len(),
                0 <= k <= n,
                v@ == slots@.take(k as int),
            decreases n - k,
        {
            v.push(slots[k]);
            k += 1;
            assert(v@ =~= slots@.take(k as int));
        }
        assert(slots@.take(n as int) =~= slots@);
        Ok(PcrSelection { hash_alg, slots: v })
    }

    pub fn hash_alg(&self) -> (h: HashAlgorithm)
        ensures
            h == self.spec_hash_alg(),
    {
        self.hash_alg
    }

    pub fn slots(&self) -> (s: &[PcrSlot])
        ensures
            s@ == self.spec_slots(),
    {
        self.slots.as_slice()
    }
}

/// An authorization policy.
#[derive(Debug)]
pub enum PolicyData {
    AuthValue,
    Password,
    Pcr(PcrSelection),
    Command(PolicyCommand),
    Or { branches: Vec<PolicyBranchData>, branch_digests: TpmlDigest, selected_label: Option<String> },
    Sequence(Vec<PolicyData>),
}

/// One labelled branch of a policy OR.
#[derive(Debug)]
pub struct PolicyBranchData {
    pub label: String,
    pub policy: PolicyData,
}

/// What a policy states, as mathematical values.
pub ghost enum PolicyModel {
    AuthValue,
    Password,
    Pcr(HashAlgorithm, Seq<PcrSlot>),
    Command(PolicyCommand),
    Or(Seq<BranchModel>, Seq<Seq<u8>>, Option<Seq<char>>),
    Sequence(Seq<PolicyModel>),
}

/// What a labelled branch states.
pub ghost struct BranchModel {
    pub label: Seq<char>,
    pub policy: PolicyModel,
}

pub open spec fn label_view(label: Option<String>) -> Option<Seq<char>> {
    match label {
        Some(l) => Some(l@),
        None => None,
    }
}

pub open spec fn policy_view(p: PolicyData) -> PolicyModel
    decreases p,
{
    match p {
        PolicyData::AuthValue => PolicyModel::AuthValue,
        PolicyData::Password => PolicyModel::Password,
        PolicyData::Pcr(sel) => PolicyModel::Pcr(sel.spec_hash_alg(), sel.spec_slots()),
        PolicyData::Command(c) => PolicyModel::Command(c),
        PolicyData::Or { branches, branch_digests, selected_label } => {
            proof {
                assert(decreases_to!(branches => branches@));
            }
            PolicyModel::Or(branch_views(branches@), branch_digests@, label_view(selected_label))
        },
        PolicyData::Sequence(steps) => {
            proof {
                assert(decreases_to!(steps => steps@));
            }
            PolicyModel::Sequence(policy_views(steps@))
        },
    }
}

pub open spec fn policy_views(s: Seq<PolicyData>) -> Seq<PolicyModel>
    decreases s,
{
    if s.len() == 0 {
        Seq::empty()
    } else {
        proof {
            assert(decreases_to!(s => s[s.len() - 1]));
        }
        policy_views(s.drop_last()).push(policy_view(s[s.len() - 1]))
    }
}

pub open spec fn branch_views(s: Seq<PolicyBranchData>) -> Seq<BranchModel>
    decreases s,
{
    if s.len() == 0 {
        Seq::empty()
    } else {
        proof {
            assert(decreases_to!(s => s[s.len() - 1]));
        }
        let b = s[s.len() - 1];
        branch_views(s.drop_last()).push(BranchModel { label: b.label@, policy: policy_view(b.policy) })
    }
}

impl View for PolicyData {
    type V = PolicyModel;

    open spec fn view(&self) -> PolicyModel {
        policy_view(*self)
    }
}

/// The label of the first branch, from `i` on, whose label is among the
/// selected labels.
pub open spec fn first_selected_from(bs: Seq<BranchModel>, labels: Set<Seq<char>>, i: int) -> Option<Seq<char>>
    decreases bs.len() - i,
{
    if i < 0 || i >= bs.len() {
        None
    } else if labels.contains(bs[i].label) {
        Some(bs[i].label)
    } else {
        first_selected_from(bs, labels, i + 1)
    }
}

/// A policy with the branches a caller selected applied: each OR at the top
/// or among the steps of the top sequence selects its first branch whose
/// label was selected, and an OR with no such branch fails; the first
/// failure in order is reported. Policies without an OR are unchanged.
pub open spec fn spec_select_branches(p: PolicyModel, labels: Set<Seq<char>>) -> Result<PolicyModel, Error>
    decreases p, 1nat,
{
    match p {
        PolicyModel::Or(bs, ds, _) => match first_selected_from(bs, labels, 0) {
            Some(l) => Ok(PolicyModel::Or(bs, ds, Some(l))),
            None => Err(Error::InvalidPolicy("policy branch was not selected")),
        },
        PolicyModel::Sequence(steps) => match spec_select_step_branches(steps, labels) {
            Ok(s) => Ok(PolicyModel::Sequence(s)),
            Err(e) => Err(e),
        },
        _ => Ok(p),
    }
}

/// The steps of a sequence with the selected branches applied, in order.
pub open spec fn spec_select_step_branches(steps: Seq<PolicyModel>, labels: Set<Seq<char>>) -> Result<
    Seq<PolicyModel>,
    Error,
>
    decreases steps, 0nat,
{
    if steps.len() == 0 {
        Ok(Seq::empty())
    } else {
        match spec_select_step_branches(steps.drop_last(), labels) {
            Err(e) => Err(e),
            Ok(pre) => match spec_select_branches(steps.last(), labels) {
                Ok(x) => Ok(pre.push(x)),
                Err(e) => Err(e),
            },
        }
    }
}

/// Once the steps before `n` fail, the whole sequence fails the same way.
pub proof fn lemma_select_steps_err_extends(steps: Seq<PolicyModel>, labels: Set<Seq<char>>, n: int, e: Error)
    requires
        0 <= n <= steps.len(),
        spec_select_step_branches(steps.take(n), labels) == Err::<Seq<PolicyModel>, Error>(e),
    ensures
        spec_select_step_branches(steps, labels) == Err::<Seq<PolicyModel>, Error>(e),
    decreases steps.len() - n,
{
    if n == steps.len() {
        assert(steps.take(n) =~= steps);
    } else {
        assert(steps.drop_last().take(n) =~= steps.take(n));
        lemma_select_steps_err_extends(steps.drop_last(), labels, n, e);
    }
}

/// A copy of a PCR selection.
pub fn clone_selection(sel: &PcrSelection) -> (c: PcrSelection)
    ensures
        c.spec_hash_alg() == sel.spec_hash_alg(),
        c.spec_slots() == sel.spec_slots(),
{
    let mut slots: Vec<PcrSlot> = Vec::new();
    let mut i: usize = 0;
    while i < sel.slots.len()
        invariant
            i <= sel.slots@.len(),
            slots@ == sel.slots@.take(i as int),
        decreases sel.slots@.len() - i,
    {
        slots.push(sel.slots[i]);
        i += 1;
        assert(slots@ =~= sel.slots@.take(i as int));
    }
    assert(sel.slots@.take(i as int) =~= sel.slots@);
    PcrSelection { hash_alg: sel.hash_alg, slots }
}

/// A copy of a list of digests.
pub fn clone_digests(l: &TpmlDigest) -> (c: TpmlDigest)
    ensures
        c@ == l@,
{
    let mut digests: Vec<Tpm2bDigest> = Vec::new();
    let mut i: usize = 0;
    while i < l.digests.len()
        invariant
            i <= l.digests@.len(),
            digests@.len() == i,
            forall|j: int| 0 <= j < i ==> (#[trigger] digests@[j])@ == l.digests@[j]@,
        decreases l.digests@.len() - i,
    {
        let d = Tpm2bDigest { buffer: l.digests[i].buffer.clone() };
        digests.push(d);
        i += 1;
    }
    let c = TpmlDigest { digests };
    assert(c@ =~= l@);
    c
}

/// A copy of a policy.
#[verifier::loop_isolation(false)]
pub fn clone_policy(p: &PolicyData) -> (c: PolicyData)
    ensures
        c@ == p@,
    decreases p,
{
    match p {
        PolicyData::AuthValue => PolicyData::AuthValue,
        PolicyData::Password => PolicyData::Password,
        PolicyData::Pcr(sel) => PolicyData::Pcr(clone_selection(sel)),
        PolicyData::Command(c) => PolicyData::Command(*c),
        PolicyData::Or { branches, branch_digests, selected_label } => {
            let mut copies: Vec<PolicyBranchData> = Vec::new();
            let mut i: usize = 0;
            while i < branches.len()
                invariant
                    i <= branches@.len(),
                    copies@.len() == i,
                    branch_views(copies@) == branch_views(branches@.take(i as int)),
                decreases branches@.len() - i,
            {
                let b = &branches[i];
                proof {
                    assert(decreases_to!(branches => branches@));
                    assert(decreases_to!(branches@ => branches@[i as int]));
                    assert(decreases_to!(branches@[i as int] => branches@[i as int].policy));
                }
                let policy = clone_policy(&b.policy);
                let ghost before = copies@;
                copies.push(PolicyBranchData { label: b.label.clone(), policy });
                proof {
                    assert(copies@.drop_last() =~= before);
                    assert(branches@.take(i + 1).drop_last() =~= branches@.take(i as int));
                    assert(branches@.take(i + 1).last() == branches@[i as int]);
                }
                i += 1;
            }
            assert(branches@.take(i as int) =~= branches@);
            let label = match selected_label {
                Some(l) => Some(l.clone()),
                None => None,
            };
            PolicyData::Or { branches: copies, branch_digests: clone_digests(branch_digests), selected_label: label }
        },
        PolicyData::Sequence(steps) => {
            let mut copies: Vec<PolicyData> = Vec::new();
            let mut i: usize = 0;
            while i < steps.len()
                invariant
                    i <= steps@.len(),
                    copies@.len() == i,
                    policy_views(copies@) == policy_views(steps@.take(i as int)),
                decreases steps@.len() - i,
            {
                proof {
                    assert(decreases_to!(steps => steps@));
                    assert(decreases_to!(steps@ => steps@[i as int]));
                }
                let step = clone_policy(&steps[i]);
                let ghost before = copies@;
                copies.push(step);
                proof {
                    assert(copies@.drop_last() =~= before);
                    assert(steps@.take(i + 1).drop_last() =~= steps@.take(i as int));
                    assert(steps@.take(i + 1).last() == steps@[i as int]);
                }
                i += 1;
            }
            assert(steps@.take(i as int) =~= steps@);
            PolicyData::Sequence(copies)
        },
    }
}

} // verus!
