//! The byte format in which the key store keeps policies.
use vstd::prelude::*;
use vstd::utf8::{decode_utf8, encode_utf8, valid_utf8};

use crate::error::Error;
use crate::policy::{
    policy_view, policy_views, branch_views, spec_hash_alg_id, spec_pcr_slot_index,
    spec_policy_command_cc, spec_hash_alg_of, spec_pcr_slot_of, spec_policy_command_of, slots_wf,
    PCR_SLOT_COUNT, BranchModel, HashAlgorithm, PcrSelection, PcrSlot, PolicyBranchData,
    PolicyCommand, PolicyData,
    PolicyModel,
};
use crate::tpm::{
    digest_item, is_command_code, is_hash_alg_id, TPML_DIGEST_MAX_COUNT, digest_list_bytes, digest_list_wf, spec_parse_alg_hash, spec_parse_digest_list, spec_parse_tpm_cc,
    TpmCc, TpmiAlgHash, TpmlDigest,
};
use crate::wire::{
    concat_map, lemma_parse_n_concat, lemma_tpm2b_read, lemma_u16_bytes_read, lemma_u32_bytes_read,
    lemma_u8_read, tpm2b_bytes, ensure_consumed, extend_bytes, marshal_u32, marshal_u8, read_u32, read_u8, spec_parse_n, spec_read_u32,
    spec_read_u8, u16_bytes, u32_bytes,
};
use vstd::slice::{slice_subrange, slice_to_vec};

verus! {

/// The version byte that every stored policy starts with.
pub const POLICY_DATA_FORMAT_VERSION: u8 = 2;

pub const POLICY_TAG_PCR: u8 = 0;
pub const POLICY_TAG_COMMAND: u8 = 1;
pub const POLICY_TAG_AUTH_VALUE: u8 = 2;
pub const POLICY_TAG_PASSWORD: u8 = 3;
pub const POLICY_TAG_OR: u8 = 4;
pub const POLICY_TAG_SEQUENCE: u8 = 5;

/// The bytes of the slots of a PCR selection, one index each.
pub open spec fn slot_bytes(slots: Seq<PcrSlot>) -> Seq<u8> {
    slots.map_values(|s: PcrSlot| spec_pcr_slot_index(s))
}

/// A stored PCR selection: the hash algorithm, the slot count, then the slots.
pub open spec fn pcr_selection_bytes(h: HashAlgorithm, slots: Seq<PcrSlot>) -> Seq<u8> {
    u16_bytes(spec_hash_alg_id(h)) + seq![slots.len() as u8] + slot_bytes(slots)
}

/// A stored branch label: its UTF-8 length as a `u32`, then its UTF-8 bytes.
pub open spec fn label_bytes(label: Seq<char>) -> Seq<u8> {
    u32_bytes(encode_utf8(label).len() as u32) + encode_utf8(label)
}

/// The stored form of a policy: a tag byte, then what the tag calls for.
pub open spec fn policy_bytes(m: PolicyModel) -> Seq<u8>
    decreases m,
{
    match m {
        PolicyModel::AuthValue => seq![POLICY_TAG_AUTH_VALUE],
        PolicyModel::Password => seq![POLICY_TAG_PASSWORD],
        PolicyModel::Pcr(h, slots) => seq![POLICY_TAG_PCR] + pcr_selection_bytes(h, slots),
        PolicyModel::Command(c) => seq![POLICY_TAG_COMMAND] + u32_bytes(spec_policy_command_cc(c)),
        PolicyModel::Or(branches, digests, _) => seq![POLICY_TAG_OR] + digest_list_bytes(digests)
            + u32_bytes(branches.len() as u32) + branches_bytes(branches),
        PolicyModel::Sequence(steps) => seq![POLICY_TAG_SEQUENCE] + u32_bytes(steps.len() as u32)
            + policies_bytes(steps),
    }
}

/// The stored forms of policies, one after the other.
pub open spec fn policies_bytes(ps: Seq<PolicyModel>) -> Seq<u8>
    decreases ps,
{
    if ps.len() == 0 {
        Seq::empty()
    } else {
        policies_bytes(ps.drop_last()) + policy_bytes(ps[ps.len() - 1])
    }
}

/// The stored forms of branches, one after the other: each its label, then its policy.
pub open spec fn branches_bytes(bs: Seq<BranchModel>) -> Seq<u8>
    decreases bs,
{
    if bs.len() == 0 {
        Seq::empty()
    } else {
        let b = bs[bs.len() - 1];
        branches_bytes(bs.drop_last()) + label_bytes(b.label) + policy_bytes(b.policy)
    }
}

/// Whether a policy can be stored: its lists and labels fit their `u32`
/// counts, and its digest lists are well-formed.
pub open spec fn policy_encodable(m: PolicyModel) -> bool
    decreases m,
{
    match m {
        PolicyModel::Or(branches, digests, _) => digest_list_wf(digests) && branches.len() <= u32::MAX
            && branches_encodable(branches),
        PolicyModel::Sequence(steps) => steps.len() <= u32::MAX && policies_encodable(steps),
        _ => true,
    }
}

pub open spec fn policies_encodable(ps: Seq<PolicyModel>) -> bool
    decreases ps,
{
    if ps.len() == 0 {
        true
    } else {
        policies_encodable(ps.drop_last()) && policy_encodable(ps[ps.len() - 1])
    }
}

pub open spec fn branches_encodable(bs: Seq<BranchModel>) -> bool
    decreases bs,
{
    if bs.len() == 0 {
        true
    } else {
        let b = bs[bs.len() - 1];
        branches_encodable(bs.drop_last()) && encode_utf8(b.label).len() <= u32::MAX
            && policy_encodable(b.policy)
    }
}

pub proof fn lemma_policy_views_index(s: Seq<PolicyData>)
    ensures
        policy_views(s).len() == s.len(),
        forall|i: int| 0 <= i < s.len() ==> #[trigger] policy_views(s)[i] == policy_view(s[i]),
    decreases s.len(),
{
    if s.len() > 0 {
        lemma_policy_views_index(s.drop_last());
        assert forall|i: int| 0 <= i < s.len() implies #[trigger] policy_views(s)[i] == policy_view(s[i]) by {
            if i < s.len() - 1 {
                assert(s.drop_last()[i] == s[i]);
            }
        }
    }
}

pub proof fn lemma_branch_views_index(s: Seq<PolicyBranchData>)
    ensures
        branch_views(s).len() == s.len(),
        forall|i: int| 0 <= i < s.len() ==> #[trigger] branch_views(s)[i] == (BranchModel {
            label: s[i].label@,
            policy: policy_view(s[i].policy),
        }),
    decreases s.len(),
{
    if s.len() > 0 {
        lemma_branch_views_index(s.drop_last());
        assert forall|i: int| 0 <= i < s.len() implies #[trigger] branch_views(s)[i] == (BranchModel {
            label: s[i].label@,
            policy: policy_view(s[i].policy),
        }) by {
            if i < s.len() - 1 {
                assert(s.drop_last()[i] == s[i]);
            }
        }
    }
}

pub proof fn lemma_policies_encodable_index(ps: Seq<PolicyModel>, i: int)
    requires
        policies_encodable(ps),
        0 <= i < ps.len(),
    ensures
        policy_encodable(ps[i]),
    decreases ps.len(),
{
    if i < ps.len() - 1 {
        lemma_policies_encodable_index(ps.drop_last(), i);
        assert(ps.drop_last()[i] == ps[i]);
    }
}

pub proof fn lemma_branches_encodable_index(bs: Seq<BranchModel>, i: int)
    requires
        branches_encodable(bs),
        0 <= i < bs.len(),
    ensures
        policy_encodable(bs[i].policy),
        encode_utf8(bs[i].label).len() <= u32::MAX,
    decreases bs.len(),
{
    if i < bs.len() - 1 {
        lemma_branches_encodable_index(bs.drop_last(), i);
        assert(bs.drop_last()[i] == bs[i]);
    }
}

/// The kinds of stored policy, by their tag byte.
#[derive(Debug, Clone, Copy, PartialEq, Eq, Structural)]
pub enum PolicyTag {
    Pcr,
    Command,
    AuthValue,
    Password,
    Or,
    Sequence,
}

pub open spec fn spec_policy_tag_byte(t: PolicyTag) -> u8 {
    match t {
        PolicyTag::Pcr => POLICY_TAG_PCR,
        PolicyTag::Command => POLICY_TAG_COMMAND,
        PolicyTag::AuthValue => POLICY_TAG_AUTH_VALUE,
        PolicyTag::Password => POLICY_TAG_PASSWORD,
        PolicyTag::Or => POLICY_TAG_OR,
        PolicyTag::Sequence => POLICY_TAG_SEQUENCE,
    }
}

pub open spec fn spec_policy_tag_of(b: u8) -> Option<PolicyTag> {
    if b == POLICY_TAG_PCR {
        Some(PolicyTag::Pcr)
    } else if b == POLICY_TAG_COMMAND {
        Some(PolicyTag::Command)
    } else if b == POLICY_TAG_AUTH_VALUE {
        Some(PolicyTag::AuthValue)
    } else if b == POLICY_TAG_PASSWORD {
        Some(PolicyTag::Password)
    } else if b == POLICY_TAG_OR {
        Some(PolicyTag::Or)
    } else if b == POLICY_TAG_SEQUENCE {
        Some(PolicyTag::Sequence)
    } else {
        None
    }
}

impl TryFrom<u8> for PolicyTag {
    type Error = Error;

    fn try_from(value: u8) -> (r: Result<PolicyTag, Error>) {
        if value == POLICY_TAG_PCR {
            Ok(PolicyTag::Pcr)
        } else if value == POLICY_TAG_COMMAND {
            Ok(PolicyTag::Command)
        } else if value == POLICY_TAG_AUTH_VALUE {
            Ok(PolicyTag::AuthValue)
        } else if value == POLICY_TAG_PASSWORD {
            Ok(PolicyTag::Password)
        } else if value == POLICY_TAG_OR {
            Ok(PolicyTag::Or)
        } else if value == POLICY_TAG_SEQUENCE {
            Ok(PolicyTag::Sequence)
        } else {
            Err(Error::conversion())
        }
    }
}

impl vstd::std_specs::convert::TryFromSpecImpl<u8> for PolicyTag {
    open spec fn obeys_try_from_spec() -> bool {
        true
    }

    open spec fn try_from_spec(value: u8) -> Result<PolicyTag, Error> {
        match spec_policy_tag_of(value) {
            Some(t) => Ok(t),
            None => Err(Error::Internal),
        }
    }
}

impl PolicyTag {
    pub fn encode(&self, buf: &mut Vec<u8>) -> (r: Result<(), Error>)
        ensures
            r is Ok,
            final(buf)@ == old(buf)@.push(spec_policy_tag_byte(*self)),
    {
        let b: u8 = match self {
            PolicyTag::Pcr => POLICY_TAG_PCR,
            PolicyTag::Command => POLICY_TAG_COMMAND,
            PolicyTag::AuthValue => POLICY_TAG_AUTH_VALUE,
            PolicyTag::Password => POLICY_TAG_PASSWORD,
            PolicyTag::Or => POLICY_TAG_OR,
            PolicyTag::Sequence => POLICY_TAG_SEQUENCE,
        };
        marshal_u8(buf, b);
        Ok(())
    }
}

impl PolicyCommand {
    pub fn encode(&self, buf: &mut Vec<u8>) -> (r: Result<(), Error>)
        ensures
            r is Ok,
            final(buf)@ == old(buf)@ + u32_bytes(spec_policy_command_cc(*self)),
    {
        TpmCc::from(*self).marshal(buf);
        Ok(())
    }
}

impl PcrSlot {
    pub fn encode(&self, buf: &mut Vec<u8>) -> (r: Result<(), Error>)
        ensures
            r is Ok,
            final(buf)@ == old(buf)@.push(spec_pcr_slot_index(*self)),
    {
        marshal_u8(buf, self.index());
        Ok(())
    }
}

impl PcrSelection {
    pub fn encode(&self, buf: &mut Vec<u8>) -> (r: Result<(), Error>)
        ensures
            r is Ok,
            final(buf)@ == old(buf)@ + pcr_selection_bytes(self.spec_hash_alg(), self.spec_slots()),
    {
        let ghost start = buf@;
        TpmiAlgHash::from(self.hash_alg()).marshal(buf);

        let slots = self.slots();
        marshal_u8(buf, slots.len() as u8);

        let ghost head = buf@;
        let mut i: usize = 0;
        while i < slots.len()
            invariant
                0 <= i <= slots@.len(),
                buf@ == head + slot_bytes(slots@.take(i as int)),
            decreases slots@.len() - i,
        {
            let _ = slots[i].encode(buf);
            i += 1;
            assert(slot_bytes(slots@.take(i as int)) =~= slot_bytes(slots@.take((i - 1) as int)).push(
                spec_pcr_slot_index(slots@[i - 1]),
            ));
        }
        assert(slots@.take(slots@.len() as int) =~= slots@);
        assert(buf@ =~= start + pcr_selection_bytes(self.spec_hash_alg(), self.spec_slots()));
        Ok(())
    }
}

impl PolicyData {
    pub fn encode(&self, buf: &mut Vec<u8>) -> (r: Result<(), Error>)
        ensures
            match r {
                Ok(()) => policy_encodable(self@) && final(buf)@ == old(buf)@ + policy_bytes(self@),
                Err(e) => !policy_encodable(self@) && (e is InvalidPolicy || e is Internal),
            },
        decreases self,
    {
        let ghost start = buf@;
        match self {
            PolicyData::AuthValue => {
                let _ = PolicyTag::AuthValue.encode(buf);
            }
            PolicyData::Password => {
                let _ = PolicyTag::Password.encode(buf);
            }
            PolicyData::Pcr(selection) => {
                let _ = PolicyTag::Pcr.encode(buf);
                let _ = selection.encode(buf);
            }
            PolicyData::Command(command) => {
                let _ = PolicyTag::Command.encode(buf);
                let _ = command.encode(buf);
            }
            PolicyData::Or { branches, branch_digests, .. } => {
                proof {
                    lemma_branch_views_index(branches@);
                }
                let _ = PolicyTag::Or.encode(buf);
                branch_digests.marshal(buf)?;
                encode_policy_branch_list(branches.as_slice(), buf)?;
            }
            PolicyData::Sequence(steps) => {
                proof {
                    lemma_policy_views_index(steps@);
                }
                let _ = PolicyTag::Sequence.encode(buf);
                encode_policy_data_list(steps.as_slice(), buf)?;
            }
        }
        assert(buf@ =~= start + policy_bytes(self@));
        Ok(())
    }
}

/// Stores a list of policies: their count as a `u32`, then each policy.
pub fn encode_policy_data_list(policies: &[PolicyData], buf: &mut Vec<u8>) -> (r: Result<(), Error>)
    ensures
        match r {
            Ok(()) => policies@.len() <= u32::MAX && policies_encodable(policy_views(policies@))
                && final(buf)@ == old(buf)@ + u32_bytes(policies@.len() as u32) + policies_bytes(policy_views(policies@)),
            Err(e) => !(policies@.len() <= u32::MAX && policies_encodable(policy_views(policies@)))
                && (e is InvalidPolicy || e is Internal),
        },
    decreases policies@,
{
    if policies.len() > 0xffff_ffff {
        return Err(Error::InvalidPolicy("policy contains too many entries to store"));
    }
    let ghost start = buf@;
    let ghost ms = policy_views(policies@);
    proof {
        lemma_policy_views_index(policies@);
    }
    marshal_u32(buf, policies.len() as u32);
    let mut i: usize = 0;
    while i < policies.len()
        invariant
            0 <= i <= policies@.len(),
            ms == policy_views(policies@),
            ms.len() == policies@.len(),
            forall|j: int| 0 <= j < policies@.len() ==> #[trigger] ms[j] == policy_view(policies@[j]),
            policies_encodable(ms.take(i as int)),
            buf@ == start + u32_bytes(policies@.len() as u32) + policies_bytes(ms.take(i as int)),
        decreases policies@.len() - i,
    {
        proof {
            assert(decreases_to!(policies@ => policies@[i as int]));
        }
        match policies[i].encode(buf) {
            Ok(()) => {}
            Err(e) => {
                proof {
                    if policies_encodable(ms) {
                        lemma_policies_encodable_index(ms, i as int);
                    }
                }
                return Err(e);
            }
        }
        i += 1;
        assert(ms.take(i as int).drop_last() =~= ms.take((i - 1) as int));
    }
    assert(ms.take(i as int) =~= ms);
    Ok(())
}

/// Stores a branch label: its UTF-8 length as a `u32`, then its UTF-8 bytes.
pub fn encode_policy_branch_label(label: &str, buf: &mut Vec<u8>) -> (r: Result<(), Error>)
    ensures
        match r {
            Ok(()) => encode_utf8(label@).len() <= u32::MAX && final(buf)@ == old(buf)@ + label_bytes(label@),
            Err(e) => encode_utf8(label@).len() > u32::MAX && e is InvalidPolicy,
        },
{
    let bytes = label.as_bytes();
    if bytes.len() > 0xffff_ffff {
        return Err(Error::InvalidPolicy("policy branch label is too long to store"));
    }
    let ghost start = buf@;
    marshal_u32(buf, bytes.len() as u32);
    extend_bytes(buf, bytes);
    assert(buf@ =~= start + label_bytes(label@));
    Ok(())
}

impl PolicyBranchData {
    pub fn encode(&self, buf: &mut Vec<u8>) -> (r: Result<(), Error>)
        ensures
            match r {
                Ok(()) => encode_utf8(self.label@).len() <= u32::MAX && policy_encodable(policy_view(self.policy))
                    && final(buf)@ == old(buf)@ + label_bytes(self.label@) + policy_bytes(policy_view(self.policy)),
                Err(e) => !(encode_utf8(self.label@).len() <= u32::MAX && policy_encodable(policy_view(self.policy)))
                    && (e is InvalidPolicy || e is Internal),
            },
        decreases self,
    {
        let ghost start = buf@;
        encode_policy_branch_label(self.label.as_str(), buf)?;
        self.policy.encode(buf)?;
        assert(buf@ =~= start + label_bytes(self.label@) + policy_bytes(policy_view(self.policy)));
        Ok(())
    }
}

/// Stores a list of branches: their count as a `u32`, then each branch.
pub fn encode_policy_branch_list(branches: &[PolicyBranchData], buf: &mut Vec<u8>) -> (r: Result<(), Error>)
    ensures
        match r {
            Ok(()) => branches@.len() <= u32::MAX && branches_encodable(branch_views(branches@))
                && final(buf)@ == old(buf)@ + u32_bytes(branches@.len() as u32) + branches_bytes(branch_views(branches@)),
            Err(e) => !(branches@.len() <= u32::MAX && branches_encodable(branch_views(branches@)))
                && (e is InvalidPolicy || e is Internal),
        },
    decreases branches@,
{
    if branches.len() > 0xffff_ffff {
        return Err(Error::InvalidPolicy("policy contains too many entries to store"));
    }
    let ghost start = buf@;
    let ghost bs = branch_views(branches@);
    proof {
        lemma_branch_views_index(branches@);
    }
    marshal_u32(buf, branches.len() as u32);
    let mut i: usize = 0;
    while i < branches.len()
        invariant
            0 <= i <= branches@.len(),
            bs == branch_views(branches@),
            bs.len() == branches@.len(),
            forall|j: int| 0 <= j < branches@.len() ==> #[trigger] bs[j] == (BranchModel {
                label: branches@[j].label@,
                policy: policy_view(branches@[j].policy),
            }),
            branches_encodable(bs.take(i as int)),
            buf@ == start + u32_bytes(branches@.len() as u32) + branches_bytes(bs.take(i as int)),
        decreases branches@.len() - i,
    {
        proof {
            assert(decreases_to!(branches@ => branches@[i as int]));
        }
        match branches[i].encode(buf) {
            Ok(()) => {}
            Err(e) => {
                proof {
                    if branches_encodable(bs) {
                        lemma_branches_encodable_index(bs, i as int);
                    }
                }
                return Err(e);
            }
        }
        i += 1;
        assert(bs.take(i as int).drop_last() =~= bs.take((i - 1) as int));
        assert(bs.take(i as int)[i - 1] == bs[i - 1]);
    }
    assert(bs.take(i as int) =~= bs);
    Ok(())
}

/// The stored form of a policy: the format version byte, then the policy.
pub open spec fn stored_policy_bytes(m: PolicyModel) -> Seq<u8> {
    seq![POLICY_DATA_FORMAT_VERSION] + policy_bytes(m)
}

pub fn marshal_policy_data(policy: &PolicyData) -> (r: Result<Vec<u8>, Error>)
    ensures
        match r {
            Ok(bytes) => policy_encodable(policy@) && bytes@ == stored_policy_bytes(policy@),
            Err(e) => !policy_encodable(policy@) && (e is InvalidPolicy || e is Internal),
        },
{
    let mut buf: Vec<u8> = Vec::new();
    marshal_u8(&mut buf, POLICY_DATA_FORMAT_VERSION);
    policy.encode(&mut buf)?;
    assert(buf@ =~= stored_policy_bytes(policy@));
    Ok(buf)
}

/// A slot index byte at the front of a byte sequence.
pub open spec fn slot_item() -> spec_fn(Seq<u8>) -> Option<(PcrSlot, Seq<u8>)> {
    |t: Seq<u8>|
        match spec_read_u8(t) {
            Some((b, r)) => match spec_pcr_slot_of(b) {
                Some(slot) => Some((slot, r)),
                None => None,
            },
            None => None,
        }
}

/// A stored PCR selection at the front of `s`.
pub open spec fn parse_pcr_selection(s: Seq<u8>) -> Option<((HashAlgorithm, Seq<PcrSlot>), Seq<u8>)> {
    match spec_parse_alg_hash(s) {
        Some((alg, r1)) => match spec_hash_alg_of(alg) {
            Some(h) => match spec_read_u8(r1) {
                Some((count, r2)) => if count as usize > PCR_SLOT_COUNT {
                    None
                } else {
                    match spec_parse_n(r2, count as nat, slot_item()) {
                        Some((slots, r3)) => if slots_wf(slots) {
                            Some(((h, slots), r3))
                        } else {
                            None
                        },
                        None => None,
                    }
                },
                None => None,
            },
            None => None,
        },
        None => None,
    }
}

/// A stored command code that a policy may name, at the front of `s`.
pub open spec fn parse_command(s: Seq<u8>) -> Option<(PolicyCommand, Seq<u8>)> {
    match spec_parse_tpm_cc(s) {
        Some((cc, r)) => match spec_policy_command_of(cc) {
            Some(c) => Some((c, r)),
            None => None,
        },
        None => None,
    }
}

/// A stored branch label at the front of `s`.
pub open spec fn parse_label(s: Seq<u8>) -> Option<(Seq<char>, Seq<u8>)> {
    match spec_read_u32(s) {
        Some((len, r)) => if len > r.len() {
            None
        } else if valid_utf8(r.take(len as int)) {
            Some((decode_utf8(r.take(len as int)), r.skip(len as int)))
        } else {
            None
        },
        None => None,
    }
}

/// A stored policy at the front of `s`. An unknown tag fails as `Internal`,
/// every other fault as `CorruptedStore`; the selection of an OR is not stored.
pub open spec fn parse_policy(s: Seq<u8>) -> Result<(PolicyModel, Seq<u8>), Error>
    decreases s.len(), 0nat, 0nat,
{
    match spec_read_u8(s) {
        None => Err(Error::CorruptedStore),
        Some((tag, r)) => if tag == POLICY_TAG_AUTH_VALUE {
            Ok((PolicyModel::AuthValue, r))
        } else if tag == POLICY_TAG_PASSWORD {
            Ok((PolicyModel::Password, r))
        } else if tag == POLICY_TAG_PCR {
            match parse_pcr_selection(r) {
                Some(((h, slots), r2)) => Ok((PolicyModel::Pcr(h, slots), r2)),
                None => Err(Error::CorruptedStore),
            }
        } else if tag == POLICY_TAG_COMMAND {
            match parse_command(r) {
                Some((c, r2)) => Ok((PolicyModel::Command(c), r2)),
                None => Err(Error::CorruptedStore),
            }
        } else if tag == POLICY_TAG_OR {
            match spec_parse_digest_list(r) {
                Some((digests, r2)) => if r2.len() <= r.len() {
                    match parse_branch_list(r2) {
                        Ok((branches, r3)) => Ok((PolicyModel::Or(branches, digests, None), r3)),
                        Err(e) => Err(e),
                    }
                } else {
                    Err(Error::CorruptedStore)
                },
                None => Err(Error::CorruptedStore),
            }
        } else if tag == POLICY_TAG_SEQUENCE {
            match parse_policy_list(r) {
                Ok((steps, r2)) => Ok((PolicyModel::Sequence(steps), r2)),
                Err(e) => Err(e),
            }
        } else {
            Err(Error::Internal)
        },
    }
}

/// `n` stored policies, one after the other, at the front of `s`.
pub open spec fn parse_policies_n(s: Seq<u8>, n: nat) -> Result<(Seq<PolicyModel>, Seq<u8>), Error>
    decreases s.len(), 1nat, n,
{
    if n == 0 {
        Ok((Seq::empty(), s))
    } else {
        match parse_policies_n(s, (n - 1) as nat) {
            Ok((ms, r)) => if r.len() <= s.len() {
                match parse_policy(r) {
                    Ok((m, r2)) => Ok((ms.push(m), r2)),
                    Err(e) => Err(e),
                }
            } else {
                Err(Error::CorruptedStore)
            },
            Err(e) => Err(e),
        }
    }
}

/// A stored list of policies: a `u32` count that the bytes after it can hold, then the policies.
pub open spec fn parse_policy_list(s: Seq<u8>) -> Result<(Seq<PolicyModel>, Seq<u8>), Error>
    decreases s.len(), 2nat, 0nat,
{
    match spec_read_u32(s) {
        Some((count, r)) => if count > r.len() {
            Err(Error::CorruptedStore)
        } else {
            parse_policies_n(r, count as nat)
        },
        None => Err(Error::CorruptedStore),
    }
}

/// A stored branch at the front of `s`: its label, then its policy.
pub open spec fn parse_branch(s: Seq<u8>) -> Result<(BranchModel, Seq<u8>), Error>
    decreases s.len(), 1nat, 0nat,
{
    match parse_label(s) {
        Some((label, r)) => if r.len() <= s.len() {
            match parse_policy(r) {
                Ok((m, r2)) => Ok((BranchModel { label, policy: m }, r2)),
                Err(e) => Err(e),
            }
        } else {
            Err(Error::CorruptedStore)
        },
        None => Err(Error::CorruptedStore),
    }
}

pub open spec fn parse_branches_n(s: Seq<u8>, n: nat) -> Result<(Seq<BranchModel>, Seq<u8>), Error>
    decreases s.len(), 2nat, n,
{
    if n == 0 {
        Ok((Seq::empty(), s))
    } else {
        match parse_branches_n(s, (n - 1) as nat) {
            Ok((bs, r)) => if r.len() <= s.len() {
                match parse_branch(r) {
                    Ok((b, r2)) => Ok((bs.push(b), r2)),
                    Err(e) => Err(e),
                }
            } else {
                Err(Error::CorruptedStore)
            },
            Err(e) => Err(e),
        }
    }
}

/// A stored list of branches: a `u32` count that the bytes after it can hold, then the branches.
pub open spec fn parse_branch_list(s: Seq<u8>) -> Result<(Seq<BranchModel>, Seq<u8>), Error>
    decreases s.len(), 3nat, 0nat,
{
    match spec_read_u32(s) {
        Some((count, r)) => if count > r.len() {
            Err(Error::CorruptedStore)
        } else {
            parse_branches_n(r, count as nat)
        },
        None => Err(Error::CorruptedStore),
    }
}

/// A whole stored policy: the version byte, then one policy and nothing after it.
pub open spec fn parse_stored_policy(bytes: Seq<u8>) -> Result<PolicyModel, Error> {
    match spec_read_u8(bytes) {
        Some((version, r)) => if version != POLICY_DATA_FORMAT_VERSION {
            Err(Error::CorruptedStore)
        } else {
            match parse_policy(r) {
                Ok((m, r2)) => if r2.len() == 0 {
                    Ok(m)
                } else {
                    Err(Error::CorruptedStore)
                },
                Err(e) => Err(e),
            }
        },
        None => Err(Error::CorruptedStore),
    }
}

pub proof fn lemma_policies_n_err_after(s: Seq<u8>, i: nat, n: nat, e: Error)
    requires
        i < n,
        parse_policies_n(s, i) matches Ok((_, r)) && r.len() <= s.len() && parse_policy(r) == Err::<
            (PolicyModel, Seq<u8>),
            Error,
        >(e),
    ensures
        parse_policies_n(s, n) == Err::<(Seq<PolicyModel>, Seq<u8>), Error>(e),
    decreases n,
{
    if n > i + 1 {
        lemma_policies_n_err_after(s, i, (n - 1) as nat, e);
    }
}

pub proof fn lemma_branches_n_err_after(s: Seq<u8>, i: nat, n: nat, e: Error)
    requires
        i < n,
        parse_branches_n(s, i) matches Ok((_, r)) && r.len() <= s.len() && parse_branch(r) == Err::<
            (BranchModel, Seq<u8>),
            Error,
        >(e),
    ensures
        parse_branches_n(s, n) == Err::<(Seq<BranchModel>, Seq<u8>), Error>(e),
    decreases n,
{
    if n > i + 1 {
        lemma_branches_n_err_after(s, i, (n - 1) as nat, e);
    }
}

/// `String::from_utf8` of std: the string that `bytes` encode, where they are
/// valid UTF-8, and nothing otherwise.
#[verifier::external_body]
fn string_from_utf8(bytes: Vec<u8>) -> (r: Option<String>)
    ensures
        r is Some <==> valid_utf8(bytes@),
        r matches Some(s) ==> s@ == decode_utf8(bytes@),
{
    String::from_utf8(bytes).ok()
}

impl PolicyTag {
    pub fn decode(input: &mut &[u8]) -> (r: Result<PolicyTag, Error>)
        ensures
            final(input)@.len() <= old(input)@.len(),
            match r {
                Ok(t) => spec_read_u8(old(input)@) matches Some((b, rest)) && spec_policy_tag_of(b) == Some(t)
                    && final(input)@ == rest,
                Err(e) => (spec_read_u8(old(input)@) is None && e is CorruptedStore) || (spec_read_u8(
                    old(input)@,
                ) matches Some((b, _)) && spec_policy_tag_of(b) is None && e is Internal),
            },
    {
        let tag = match read_u8(input) {
            Ok(tag) => tag,
            Err(_) => return Err(Error::corrupted_store()),
        };
        PolicyTag::try_from(tag)
    }
}

impl PolicyCommand {
    pub fn decode(input: &mut &[u8]) -> (r: Result<PolicyCommand, Error>)
        ensures
            final(input)@.len() <= old(input)@.len(),
            match r {
                Ok(c) => parse_command(old(input)@) == Some((c, final(input)@)),
                Err(e) => parse_command(old(input)@) is None && e is CorruptedStore,
            },
    {
        let command_code = match TpmCc::unmarshal(input) {
            Ok(cc) => cc,
            Err(_) => return Err(Error::corrupted_store()),
        };
        match PolicyCommand::try_from(command_code) {
            Ok(c) => Ok(c),
            Err(_) => Err(Error::corrupted_store()),
        }
    }
}

impl PcrSlot {
    pub fn decode(input: &mut &[u8]) -> (r: Result<PcrSlot, Error>)
        ensures
            final(input)@.len() <= old(input)@.len(),
            match r {
                Ok(slot) => (slot_item())(old(input)@) == Some((slot, final(input)@)),
                Err(e) => (slot_item())(old(input)@) is None && e is CorruptedStore,
            },
    {
        let slot = match read_u8(input) {
            Ok(slot) => slot,
            Err(_) => return Err(Error::corrupted_store()),
        };
        match PcrSlot::try_from(slot) {
            Ok(s) => Ok(s),
            Err(_) => Err(Error::corrupted_store()),
        }
    }
}

impl PcrSelection {
    pub fn decode(input: &mut &[u8]) -> (r: Result<PcrSelection, Error>)
        ensures
            final(input)@.len() <= old(input)@.len(),
            match r {
                Ok(sel) => parse_pcr_selection(old(input)@) == Some(
                    ((sel.spec_hash_alg(), sel.spec_slots()), final(input)@),
                ),
                Err(e) => parse_pcr_selection(old(input)@) is None && e is CorruptedStore,
            },
    {
        let alg = match TpmiAlgHash::unmarshal(input) {
            Ok(alg) => alg,
            Err(_) => return Err(Error::corrupted_store()),
        };
        let hash_alg = match HashAlgorithm::try_from(alg) {
            Ok(h) => h,
            Err(_) => return Err(Error::corrupted_store()),
        };
        let slot_count = match read_u8(input) {
            Ok(n) => n,
            Err(_) => return Err(Error::corrupted_store()),
        };
        if slot_count as usize > PCR_SLOT_COUNT {
            return Err(Error::corrupted_store());
        }

        let ghost s2 = input@;
        let mut slots: Vec<PcrSlot> = Vec::new();
        let mut i: u8 = 0;
        while i < slot_count
            invariant
                0 <= i <= slot_count,
                input@.len() <= s2.len(),
                s2.len() <= old(input)@.len(),
                spec_parse_alg_hash(old(input)@) matches Some((a, r1)) && spec_hash_alg_of(a) == Some(hash_alg)
                    && spec_read_u8(r1) == Some((slot_count, s2)),
                slot_count as usize <= PCR_SLOT_COUNT,
                spec_parse_n(s2, i as nat, slot_item()) == Some((slots@, input@)),
            decreases slot_count - i,
        {
            match PcrSlot::decode(input) {
                Ok(slot) => {
                    slots.push(slot);
                }
                Err(e) => {
                    proof {
                        crate::tpm::lemma_parse_n_fails_after(s2, i as nat, slot_count as nat, slot_item());
                    }
                    return Err(e);
                }
            }
            i += 1;
        }
        match PcrSelection::new(hash_alg, slots.as_slice()) {
            Ok(sel) => Ok(sel),
            Err(_) => Err(Error::corrupted_store()),
        }
    }
}

/// Reads a stored branch label.
pub fn decode_policy_branch_label(input: &mut &[u8]) -> (r: Result<String, Error>)
    ensures
        final(input)@.len() <= old(input)@.len(),
        match r {
            Ok(label) => parse_label(old(input)@) == Some((label@, final(input)@)),
            Err(e) => parse_label(old(input)@) is None && e is CorruptedStore,
        },
{
    let len = match read_u32(input) {
        Ok(len) => len as usize,
        Err(_) => return Err(Error::corrupted_store()),
    };
    if len > input.len() {
        return Err(Error::corrupted_store());
    }

    let bytes = slice_to_vec(slice_subrange(*input, 0, len));
    *input = slice_subrange(*input, len, input.len());

    match string_from_utf8(bytes) {
        Some(label) => Ok(label),
        None => Err(Error::corrupted_store()),
    }
}

impl PolicyData {
    pub fn decode(input: &mut &[u8]) -> (r: Result<PolicyData, Error>)
        ensures
            final(input)@.len() <= old(input)@.len(),
            match r {
                Ok(p) => parse_policy(old(input)@) == Ok::<(PolicyModel, Seq<u8>), Error>((p@, final(input)@)),
                Err(e) => parse_policy(old(input)@) == Err::<(PolicyModel, Seq<u8>), Error>(e),
            },
        decreases old(input)@.len(), 0nat, 0nat,
    {
        let ghost s0 = input@;
        let tag = PolicyTag::decode(input)?;
        match tag {
            PolicyTag::AuthValue => Ok(PolicyData::AuthValue),
            PolicyTag::Password => Ok(PolicyData::Password),
            PolicyTag::Pcr => Ok(PolicyData::Pcr(PcrSelection::decode(input)?)),
            PolicyTag::Command => Ok(PolicyData::Command(PolicyCommand::decode(input)?)),
            PolicyTag::Or => {
                let branch_digests = match TpmlDigest::unmarshal(input) {
                    Ok(d) => d,
                    Err(_) => return Err(Error::corrupted_store()),
                };
                let branches = decode_policy_branch_list(input)?;
                proof {
                    lemma_branch_views_index(branches@);
                }
                Ok(PolicyData::Or { branches, branch_digests, selected_label: None })
            }
            PolicyTag::Sequence => {
                let steps = decode_policy_data_list(input)?;
                Ok(PolicyData::Sequence(steps))
            }
        }
    }
}

/// Reads a stored list of policies.
pub fn decode_policy_data_list(input: &mut &[u8]) -> (r: Result<Vec<PolicyData>, Error>)
    ensures
        final(input)@.len() <= old(input)@.len(),
        match r {
            Ok(ps) => parse_policy_list(old(input)@) == Ok::<(Seq<PolicyModel>, Seq<u8>), Error>(
                (policy_views(ps@), final(input)@),
            ),
            Err(e) => parse_policy_list(old(input)@) == Err::<(Seq<PolicyModel>, Seq<u8>), Error>(e),
        },
    decreases old(input)@.len(), 2nat, 0nat,
{
    let count = match read_u32(input) {
        Ok(count) => count,
        Err(_) => return Err(Error::corrupted_store()),
    };
    if count as usize > input.len() {
        return Err(Error::corrupted_store());
    }

    let ghost s1 = input@;
    let mut policies: Vec<PolicyData> = Vec::new();
    let mut i: u32 = 0;
    while i < count
        invariant
            0 <= i <= count,
            spec_read_u32(old(input)@) == Some((count, s1)),
            count <= s1.len(),
            s1.len() < old(input)@.len(),
            input@.len() <= s1.len(),
            parse_policies_n(s1, i as nat) == Ok::<(Seq<PolicyModel>, Seq<u8>), Error>(
                (policy_views(policies@), input@),
            ),
        decreases count - i,
    {
        let ghost before = input@;
        let ghost done = policies@;
        match PolicyData::decode(input) {
            Ok(p) => {
                policies.push(p);
                assert(policies@.drop_last() =~= done);
            }
            Err(e) => {
                proof {
                    lemma_policies_n_err_after(s1, i as nat, count as nat, e);
                }
                return Err(e);
            }
        }
        i += 1;
    }
    Ok(policies)
}

impl PolicyBranchData {
    pub fn decode(input: &mut &[u8]) -> (r: Result<PolicyBranchData, Error>)
        ensures
            final(input)@.len() <= old(input)@.len(),
            match r {
                Ok(b) => parse_branch(old(input)@) == Ok::<(BranchModel, Seq<u8>), Error>(
                    (BranchModel { label: b.label@, policy: policy_view(b.policy) }, final(input)@),
                ),
                Err(e) => parse_branch(old(input)@) == Err::<(BranchModel, Seq<u8>), Error>(e),
            },
        decreases old(input)@.len(), 1nat, 0nat,
    {
        let label = decode_policy_branch_label(input)?;
        let policy = PolicyData::decode(input)?;
        Ok(PolicyBranchData { label, policy })
    }
}

/// Reads a stored list of branches.
pub fn decode_policy_branch_list(input: &mut &[u8]) -> (r: Result<Vec<PolicyBranchData>, Error>)
    ensures
        final(input)@.len() <= old(input)@.len(),
        match r {
            Ok(bs) => parse_branch_list(old(input)@) == Ok::<(Seq<BranchModel>, Seq<u8>), Error>(
                (branch_views(bs@), final(input)@),
            ),
            Err(e) => parse_branch_list(old(input)@) == Err::<(Seq<BranchModel>, Seq<u8>), Error>(e),
        },
    decreases old(input)@.len(), 3nat, 0nat,
{
    let count = match read_u32(input) {
        Ok(count) => count,
        Err(_) => return Err(Error::corrupted_store()),
    };
    if count as usize > input.len() {
        return Err(Error::corrupted_store());
    }

    let ghost s1 = input@;
    let mut branches: Vec<PolicyBranchData> = Vec::new();
    let mut i: u32 = 0;
    while i < count
        invariant
            0 <= i <= count,
            spec_read_u32(old(input)@) == Some((count, s1)),
            count <= s1.len(),
            s1.len() < old(input)@.len(),
            input@.len() <= s1.len(),
            parse_branches_n(s1, i as nat) == Ok::<(Seq<BranchModel>, Seq<u8>), Error>(
                (branch_views(branches@), input@),
            ),
        decreases count - i,
    {
        let ghost done = branches@;
        match PolicyBranchData::decode(input) {
            Ok(b) => {
                branches.push(b);
                assert(branches@.drop_last() =~= done);
            }
            Err(e) => {
                proof {
                    lemma_branches_n_err_after(s1, i as nat, count as nat, e);
                }
                return Err(e);
            }
        }
        i += 1;
    }
    Ok(branches)
}

/// Reads a whole stored policy; the selection of each OR comes back empty.
pub fn unmarshal_policy_data(bytes: &[u8]) -> (r: Result<PolicyData, Error>)
    ensures
        match r {
            Ok(p) => parse_stored_policy(bytes@) == Ok::<PolicyModel, Error>(p@),
            Err(e) => parse_stored_policy(bytes@) == Err::<PolicyModel, Error>(e),
        },
{
    let mut input = bytes;
    let version = match read_u8(&mut input) {
        Ok(v) => v,
        Err(_) => return Err(Error::corrupted_store()),
    };
    if version != POLICY_DATA_FORMAT_VERSION {
        return Err(Error::corrupted_store());
    }

    let policy = PolicyData::decode(&mut input)?;
    if ensure_consumed(input).is_err() {
        return Err(Error::corrupted_store());
    }

    Ok(policy)
}

/// A policy with the selection of every OR cleared, which is all that storing it drops.
pub open spec fn clear_selection(m: PolicyModel) -> PolicyModel
    decreases m,
{
    match m {
        PolicyModel::Or(branches, digests, _) => PolicyModel::Or(clear_branches(branches), digests, None),
        PolicyModel::Sequence(steps) => PolicyModel::Sequence(clear_selections(steps)),
        _ => m,
    }
}

pub open spec fn clear_selections(ps: Seq<PolicyModel>) -> Seq<PolicyModel>
    decreases ps,
{
    if ps.len() == 0 {
        Seq::empty()
    } else {
        clear_selections(ps.drop_last()).push(clear_selection(ps[ps.len() - 1]))
    }
}

pub open spec fn clear_branches(bs: Seq<BranchModel>) -> Seq<BranchModel>
    decreases bs,
{
    if bs.len() == 0 {
        Seq::empty()
    } else {
        let b = bs[bs.len() - 1];
        clear_branches(bs.drop_last()).push(BranchModel { label: b.label, policy: clear_selection(b.policy) })
    }
}

/// Whether every PCR selection in a policy is valid.
pub open spec fn policy_wf(m: PolicyModel) -> bool
    decreases m,
{
    match m {
        PolicyModel::Pcr(_, slots) => slots_wf(slots),
        PolicyModel::Or(branches, _, _) => branches_wf(branches),
        PolicyModel::Sequence(steps) => policies_wf(steps),
        _ => true,
    }
}

pub open spec fn policies_wf(ps: Seq<PolicyModel>) -> bool
    decreases ps,
{
    if ps.len() == 0 {
        true
    } else {
        policies_wf(ps.drop_last()) && policy_wf(ps[ps.len() - 1])
    }
}

pub open spec fn branches_wf(bs: Seq<BranchModel>) -> bool
    decreases bs,
{
    if bs.len() == 0 {
        true
    } else {
        branches_wf(bs.drop_last()) && policy_wf(bs[bs.len() - 1].policy)
    }
}

proof fn lemma_hash_alg_id(h: HashAlgorithm)
    ensures
        is_hash_alg_id(spec_hash_alg_id(h)),
        spec_hash_alg_of(spec_hash_alg_id(h)) == Some(h),
{
}

proof fn lemma_policy_command_cc(c: PolicyCommand)
    ensures
        is_command_code(spec_policy_command_cc(c)),
        spec_policy_command_of(spec_policy_command_cc(c)) == Some(c),
{
}

proof fn lemma_slots_read(slots: Seq<PcrSlot>, rest: Seq<u8>)
    ensures
        spec_parse_n(slot_bytes(slots) + rest, slots.len(), slot_item()) == Some((slots, rest)),
    decreases slots.len(),
{
    if slots.len() > 0 {
        let init = slots.drop_last();
        let last = slots[slots.len() - 1];
        let tail = seq![spec_pcr_slot_index(last)] + rest;
        lemma_slots_read(init, tail);
        assert(slot_bytes(slots) + rest =~= slot_bytes(init) + tail);
        lemma_u8_read(spec_pcr_slot_index(last), rest);
        assert(spec_pcr_slot_of(spec_pcr_slot_index(last)) == Some(last));
        assert(init.push(last) =~= slots);
    }
}

#[verifier::spinoff_prover]
#[verifier::rlimit(40)]
proof fn lemma_pcr_selection_read(h: HashAlgorithm, slots: Seq<PcrSlot>, rest: Seq<u8>)
    requires
        slots_wf(slots),
    ensures
        parse_pcr_selection(pcr_selection_bytes(h, slots) + rest) == Some(((h, slots), rest)),
{
    let id = spec_hash_alg_id(h);
    let n = slots.len() as u8;
    let r1 = seq![n] + slot_bytes(slots) + rest;
    let r2 = slot_bytes(slots) + rest;
    lemma_hash_alg_id(h);
    lemma_u16_bytes_read(id, r1);
    assert(pcr_selection_bytes(h, slots) + rest =~= u16_bytes(id) + r1);
    lemma_u8_read(n, r2);
    assert(r1 =~= seq![n] + r2);
    lemma_slots_read(slots, rest);
}

/// A label written as its length and its UTF-8 bytes reads back as the same
/// label, and leaves what follows it untouched.
pub proof fn lemma_label_read(label: Seq<char>, rest: Seq<u8>)
    requires
        encode_utf8(label).len() <= u32::MAX,
    ensures
        parse_label(label_bytes(label) + rest) == Some((label, rest)),
{
    let bytes = encode_utf8(label);
    let n = bytes.len() as u32;
    lemma_u32_bytes_read(n, bytes + rest);
    assert(label_bytes(label) + rest =~= u32_bytes(n) + (bytes + rest));
    assert((bytes + rest).take(n as int) =~= bytes);
    assert((bytes + rest).skip(n as int) =~= rest);
    vstd::utf8::encode_utf8_valid_utf8(label);
    vstd::utf8::encode_utf8_decode_utf8(label);
}

proof fn lemma_digest_list_read(ds: Seq<Seq<u8>>, rest: Seq<u8>)
    requires
        digest_list_wf(ds),
    ensures
        spec_parse_digest_list(digest_list_bytes(ds) + rest) == Some((ds, rest)),
{
    let enc = |d: Seq<u8>| tpm2b_bytes(d);
    let body = concat_map(ds, enc);
    lemma_u32_bytes_read(ds.len() as u32, body + rest);
    assert(digest_list_bytes(ds) + rest =~= u32_bytes(ds.len() as u32) + (body + rest));
    assert forall|i: int, r: Seq<u8>| 0 <= i < ds.len() implies #[trigger] (digest_item())(enc(ds[i]) + r) == Some(
        (ds[i], r),
    ) by {
        lemma_tpm2b_read(ds[i], r);
    }
    lemma_parse_n_concat(ds, enc, digest_item(), rest);
}

proof fn lemma_policies_bytes_len(ps: Seq<PolicyModel>)
    ensures
        policies_bytes(ps).len() >= ps.len(),
    decreases ps.len(),
{
    if ps.len() > 0 {
        lemma_policies_bytes_len(ps.drop_last());
        reveal_with_fuel(policy_bytes, 1);
        assert(policy_bytes(ps[ps.len() - 1]).len() >= 1);
    }
}

proof fn lemma_branches_bytes_len(bs: Seq<BranchModel>)
    ensures
        branches_bytes(bs).len() >= bs.len(),
    decreases bs.len(),
{
    if bs.len() > 0 {
        lemma_branches_bytes_len(bs.drop_last());
        let b = bs[bs.len() - 1];
        assert(label_bytes(b.label).len() >= 4);
    }
}

proof fn lemma_policy_read_leaf(m: PolicyModel, rest: Seq<u8>)
    requires
        policy_wf(m),
        !(m is Or),
        !(m is Sequence),
    ensures
        parse_policy(policy_bytes(m) + rest) == Ok::<(PolicyModel, Seq<u8>), Error>((clear_selection(m), rest)),
{
    let s = policy_bytes(m) + rest;
    match m {
        PolicyModel::AuthValue => {
            lemma_u8_read(POLICY_TAG_AUTH_VALUE, rest);
        },
        PolicyModel::Password => {
            lemma_u8_read(POLICY_TAG_PASSWORD, rest);
        },
        PolicyModel::Pcr(h, slots) => {
            let r = pcr_selection_bytes(h, slots) + rest;
            lemma_u8_read(POLICY_TAG_PCR, r);
            assert(s =~= seq![POLICY_TAG_PCR] + r);
            lemma_pcr_selection_read(h, slots, rest);
        },
        PolicyModel::Command(c) => {
            let r = u32_bytes(spec_policy_command_cc(c)) + rest;
            lemma_u8_read(POLICY_TAG_COMMAND, r);
            assert(s =~= seq![POLICY_TAG_COMMAND] + r);
            lemma_policy_command_cc(c);
            lemma_u32_bytes_read(spec_policy_command_cc(c), rest);
        },
        _ => {},
    }
}

/// A policy written at the front of some bytes reads back as itself, with
/// the selection of every OR cleared, and leaves what follows it untouched.
#[verifier::rlimit(40)]
pub proof fn lemma_policy_read(m: PolicyModel, rest: Seq<u8>)
    requires
        policy_wf(m),
        policy_encodable(m),
    ensures
        parse_policy(policy_bytes(m) + rest) == Ok::<(PolicyModel, Seq<u8>), Error>((clear_selection(m), rest)),
    decreases m, 0nat,
{
    let s = policy_bytes(m) + rest;
    match m {
        PolicyModel::Or(branches, digests, _) => {
            let r2 = u32_bytes(branches.len() as u32) + branches_bytes(branches) + rest;
            let r = digest_list_bytes(digests) + r2;
            lemma_u8_read(POLICY_TAG_OR, r);
            assert(s =~= seq![POLICY_TAG_OR] + r);
            assert(spec_read_u8(s) == Some((POLICY_TAG_OR, r)));
            lemma_digest_list_read(digests, r2);
            lemma_branch_list_read(branches, rest);
            assert(r2.len() <= r.len());
        },
        PolicyModel::Sequence(steps) => {
            let r = u32_bytes(steps.len() as u32) + policies_bytes(steps) + rest;
            lemma_u8_read(POLICY_TAG_SEQUENCE, r);
            assert(s =~= seq![POLICY_TAG_SEQUENCE] + r);
            assert(spec_read_u8(s) == Some((POLICY_TAG_SEQUENCE, r)));
            lemma_policy_list_read(steps, rest);
        },
        _ => {
            lemma_policy_read_leaf(m, rest);
        },
    }
}

proof fn lemma_policy_list_read(ps: Seq<PolicyModel>, rest: Seq<u8>)
    requires
        policies_wf(ps),
        policies_encodable(ps),
        ps.len() <= u32::MAX,
    ensures
        parse_policy_list(u32_bytes(ps.len() as u32) + policies_bytes(ps) + rest) == Ok::<
            (Seq<PolicyModel>, Seq<u8>),
            Error,
        >((clear_selections(ps), rest)),
    decreases ps, 2nat,
{
    let body = policies_bytes(ps) + rest;
    lemma_u32_bytes_read(ps.len() as u32, body);
    assert(u32_bytes(ps.len() as u32) + policies_bytes(ps) + rest =~= u32_bytes(ps.len() as u32) + body);
    lemma_policies_bytes_len(ps);
    lemma_policies_n_read(ps, rest);
}

proof fn lemma_policies_n_read(ps: Seq<PolicyModel>, rest: Seq<u8>)
    requires
        policies_wf(ps),
        policies_encodable(ps),
    ensures
        parse_policies_n(policies_bytes(ps) + rest, ps.len()) == Ok::<(Seq<PolicyModel>, Seq<u8>), Error>(
            (clear_selections(ps), rest),
        ),
    decreases ps, 1nat,
{
    if ps.len() > 0 {
        let init = ps.drop_last();
        let last = ps[ps.len() - 1];
        let tail = policy_bytes(last) + rest;
        assert(decreases_to!(ps => last));
        lemma_policies_n_read(init, tail);
        assert(policies_bytes(ps) + rest =~= policies_bytes(init) + tail);
        lemma_policy_read(last, rest);
    }
}

proof fn lemma_branch_list_read(bs: Seq<BranchModel>, rest: Seq<u8>)
    requires
        branches_wf(bs),
        branches_encodable(bs),
        bs.len() <= u32::MAX,
    ensures
        parse_branch_list(u32_bytes(bs.len() as u32) + branches_bytes(bs) + rest) == Ok::<
            (Seq<BranchModel>, Seq<u8>),
            Error,
        >((clear_branches(bs), rest)),
    decreases bs, 2nat,
{
    let body = branches_bytes(bs) + rest;
    lemma_u32_bytes_read(bs.len() as u32, body);
    assert(u32_bytes(bs.len() as u32) + branches_bytes(bs) + rest =~= u32_bytes(bs.len() as u32) + body);
    lemma_branches_bytes_len(bs);
    lemma_branches_n_read(bs, rest);
}

proof fn lemma_branches_n_read(bs: Seq<BranchModel>, rest: Seq<u8>)
    requires
        branches_wf(bs),
        branches_encodable(bs),
    ensures
        parse_branches_n(branches_bytes(bs) + rest, bs.len()) == Ok::<(Seq<BranchModel>, Seq<u8>), Error>(
            (clear_branches(bs), rest),
        ),
    decreases bs, 1nat,
{
    if bs.len() > 0 {
        let init = bs.drop_last();
        let last = bs[bs.len() - 1];
        let after_label = policy_bytes(last.policy) + rest;
        let tail = label_bytes(last.label) + after_label;
        let whole = branches_bytes(bs) + rest;
        assert(decreases_to!(bs => last));
        lemma_branches_n_read(init, tail);
        assert(whole =~= branches_bytes(init) + tail);
        lemma_label_read(last.label, after_label);
        assert(label_bytes(last.label) + after_label =~= tail);
        assert(parse_label(tail) == Some((last.label, after_label)));
        lemma_policy_read(last.policy, rest);
        assert(after_label.len() <= tail.len());
        assert(parse_branch(tail) == Ok::<(BranchModel, Seq<u8>), Error>(
            (BranchModel { label: last.label, policy: clear_selection(last.policy) }, rest),
        ));
        assert(tail.len() <= whole.len());
        assert(parse_branches_n(whole, (bs.len() - 1) as nat) == Ok::<(Seq<BranchModel>, Seq<u8>), Error>(
            (clear_branches(init), tail),
        ));
    }
}

/// A policy that can be stored reads back as itself, with the selection of every OR cleared.
pub proof fn lemma_policy_store_round_trip(m: PolicyModel)
    requires
        policy_wf(m),
        policy_encodable(m),
    ensures
        parse_stored_policy(stored_policy_bytes(m)) == Ok::<PolicyModel, Error>(clear_selection(m)),
{
    let empty = Seq::<u8>::empty();
    lemma_policy_read(m, empty);
    assert(policy_bytes(m) + empty =~= policy_bytes(m));
    lemma_u8_read(POLICY_DATA_FORMAT_VERSION, policy_bytes(m));
}

/// A stored policy followed by any byte more is refused as a corrupted store.
pub proof fn lemma_policy_store_refuses_trailing_bytes(m: PolicyModel, rest: Seq<u8>)
    requires
        policy_wf(m),
        policy_encodable(m),
        rest.len() > 0,
    ensures
        parse_stored_policy(stored_policy_bytes(m) + rest) == Err::<PolicyModel, Error>(Error::CorruptedStore),
{
    lemma_policy_read(m, rest);
    lemma_u8_read(POLICY_DATA_FORMAT_VERSION, policy_bytes(m) + rest);
    assert(stored_policy_bytes(m) + rest =~= seq![POLICY_DATA_FORMAT_VERSION] + (policy_bytes(m) + rest));
}

/// Each kind of policy is stored under its tag byte: PCR 0, command code 1,
/// auth value 2, password 3, OR 4, sequence 5; a tag byte reads back as
/// the kind it was stored for, and no other byte is a tag.
pub proof fn law_policy_tag_bytes(t: PolicyTag, b: u8)
    ensures
        spec_policy_tag_byte(PolicyTag::Pcr) == 0,
        spec_policy_tag_byte(PolicyTag::Command) == 1,
        spec_policy_tag_byte(PolicyTag::AuthValue) == 2,
        spec_policy_tag_byte(PolicyTag::Password) == 3,
        spec_policy_tag_byte(PolicyTag::Or) == 4,
        spec_policy_tag_byte(PolicyTag::Sequence) == 5,
        spec_policy_tag_of(spec_policy_tag_byte(t)) == Some(t),
        b > 5 <==> spec_policy_tag_of(b) is None,
{
}


/// The stored form of a policy starts with the format version 2, then the
/// policy: the auth-value policy is the tag byte 2, the password policy 3, a
/// command-code policy 1 and the command's `TPM_CC` as a big-endian `u32`,
/// a PCR policy 0, the bank's `TPM_ALG_ID` as a big-endian `u16`, the count
/// of slots and each slot's PCR number.
pub proof fn law_stored_policy_layout(m: PolicyModel, c: PolicyCommand, h: HashAlgorithm, slots: Seq<PcrSlot>)
    ensures
        stored_policy_bytes(m) == seq![2u8] + policy_bytes(m),
        policy_bytes(PolicyModel::AuthValue) == seq![2u8],
        policy_bytes(PolicyModel::Password) == seq![3u8],
        policy_bytes(PolicyModel::Command(c)) == seq![1u8] + u32_bytes(spec_policy_command_cc(c)),
        policy_bytes(PolicyModel::Pcr(h, slots)) == seq![0u8] + u16_bytes(spec_hash_alg_id(h)) + seq![
            slots.len() as u8,
        ] + slots.map_values(|s: PcrSlot| spec_pcr_slot_index(s)),
{
    assert(policy_bytes(PolicyModel::Pcr(h, slots)) =~= seq![0u8] + u16_bytes(spec_hash_alg_id(h)) + seq![
        slots.len() as u8,
    ] + slots.map_values(|s: PcrSlot| spec_pcr_slot_index(s)));
}

} // verus!
