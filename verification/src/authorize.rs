//! Satisfying a policy in a policy session: the commands that a policy asks
//! for, in the order they are sent.
use vstd::prelude::*;

use crate::cap::TpmsPcrSelection;
use crate::codec::{lemma_branch_views_index, lemma_policy_views_index};
use crate::error::Error;
use crate::policy::{
    branch_views, clone_digests, first_selected_from, policy_view, policy_views, spec_hash_alg_id, spec_pcr_slot_index,
    spec_select_branches, BranchModel,
    HashAlgorithm, PcrSelection, PcrSlot, PolicyCommand, PolicyData, PolicyModel,
};
use crate::text::str_eq;
use crate::tpm::{TpmiAlgHash, TpmlDigest};

verus! {

/// The bytes of a PCR bitmap, one bit for each of the 24 PCRs.
pub const PCR_SELECT_BYTES: usize = 3;

/// The bitmap with the bit of PCR `index` set.
pub open spec fn set_pcr_bit(bitmap: Seq<u8>, index: u8) -> Seq<u8> {
    bitmap.update((index / 8) as int, (bitmap[(index / 8) as int] | (1u8 << (index % 8))) as u8)
}

/// The bitmap that selects `slots`: three bytes, PCR `i` at bit `i % 8` of
/// byte `i / 8`.
pub open spec fn pcr_bitmap(slots: Seq<PcrSlot>) -> Seq<u8>
    decreases slots.len(),
{
    if slots.len() == 0 {
        seq![0u8, 0u8, 0u8]
    } else {
        set_pcr_bit(pcr_bitmap(slots.drop_last()), spec_pcr_slot_index(slots.last()))
    }
}

proof fn lemma_pcr_bitmap_len(slots: Seq<PcrSlot>)
    ensures
        pcr_bitmap(slots).len() == PCR_SELECT_BYTES,
    decreases slots.len(),
{
    if slots.len() > 0 {
        lemma_pcr_bitmap_len(slots.drop_last());
    }
}

/// Whether the bitmap selects PCR `n`: bit `n % 8` of byte `n / 8`.
pub open spec fn pcr_selected(bitmap: Seq<u8>, n: u8) -> bool {
    (bitmap[(n / 8) as int] >> (n % 8)) & 1u8 == 1u8
}

proof fn lemma_bit_after_or(b: u8, x: u8, y: u8)
    by (bit_vector)
    requires
        x < 8,
        y < 8,
    ensures
        ((b | (1u8 << y)) >> x) & 1u8 == 1u8 <==> (((b >> x) & 1u8 == 1u8) || x == y),
{
}

proof fn lemma_no_bit_in_zero(x: u8)
    by (bit_vector)
    ensures
        (0u8 >> x) & 1u8 != 1u8,
{
}

/// A PCR bitmap is three bytes, and it selects PCR `n` exactly where one of
/// the slots is PCR `n`: no PCR is left out and none is added.
pub proof fn law_pcr_bitmap_selects(slots: Seq<PcrSlot>, n: u8)
    requires
        n <= 23,
    ensures
        pcr_bitmap(slots).len() == PCR_SELECT_BYTES,
        pcr_selected(pcr_bitmap(slots), n) <==> exists|i: int|
            0 <= i < slots.len() && #[trigger] spec_pcr_slot_index(slots[i]) == n,
    decreases slots.len(),
{
    lemma_pcr_bitmap_len(slots);
    if slots.len() == 0 {
        lemma_no_bit_in_zero(n % 8);
    } else {
        let rest = slots.drop_last();
        let last = slots.last();
        let k = spec_pcr_slot_index(last);
        law_pcr_bitmap_selects(rest, n);
        lemma_pcr_bitmap_len(rest);
        crate::policy::law_pcr_slot_round_trip(last);
        let b = pcr_bitmap(rest);
        if n / 8 == k / 8 {
            lemma_bit_after_or(b[(n / 8) as int], n % 8, k % 8);
        }
        assert((n / 8 == k / 8 && n % 8 == k % 8) <==> n == k);
        if exists|i: int| 0 <= i < rest.len() && #[trigger] spec_pcr_slot_index(rest[i]) == n {
            let i = choose|i: int| 0 <= i < rest.len() && #[trigger] spec_pcr_slot_index(rest[i]) == n;
            assert(slots[i] == rest[i]);
        }
        if n == k {
            assert(spec_pcr_slot_index(slots[slots.len() - 1]) == n);
        }
        if exists|i: int| 0 <= i < slots.len() && #[trigger] spec_pcr_slot_index(slots[i]) == n {
            let i = choose|i: int| 0 <= i < slots.len() && #[trigger] spec_pcr_slot_index(slots[i]) == n;
            if i < slots.len() - 1 {
                assert(rest[i] == slots[i]);
            }
        }
    }
}

/// The `TPMS_PCR_SELECTION` of a PCR selection of a policy.
pub fn pcr_selection_to_tpms(sel: &PcrSelection) -> (s: TpmsPcrSelection)
    ensures
        s.hash == TpmiAlgHash(spec_hash_alg_id(sel.spec_hash_alg())),
        s.pcr_select@ == pcr_bitmap(sel.spec_slots()),
{
    let slots = sel.slots();
    let mut bitmap: Vec<u8> = vec![0u8, 0u8, 0u8];
    let mut i: usize = 0;
    while i < slots.len()
        invariant
            i <= slots@.len(),
            slots@ == sel.spec_slots(),
            bitmap@ == pcr_bitmap(slots@.take(i as int)),
        decreases slots@.len() - i,
    {
        proof {
            lemma_pcr_bitmap_len(slots@.take(i as int));
            assert(slots@.take(i + 1).drop_last() =~= slots@.take(i as int));
        }
        let index = slots[i].index();
        let byte = (index / 8) as usize;
        let bit: u8 = 1u8 << (index % 8);
        let value = bitmap[byte] | bit;
        bitmap.set(byte, value);
        i += 1;
    }
    assert(slots@.take(i as int) =~= slots@);
    TpmsPcrSelection { hash: TpmiAlgHash(sel.hash_alg().alg_id()), pcr_select: bitmap }
}

/// One command of a policy session.
#[derive(Debug)]
pub enum PolicyStep {
    /// `TPM2_PolicyPCR` over the current values of these PCRs.
    Pcr(TpmsPcrSelection),
    /// `TPM2_PolicyCommandCode`.
    CommandCode(PolicyCommand),
    /// `TPM2_PolicyAuthValue`.
    AuthValue,
    /// `TPM2_PolicyPassword`.
    Password,
    /// `TPM2_PolicyOR` over these branch digests.
    Or(TpmlDigest),
}

/// What a command of a policy session states.
pub ghost enum PolicyStepModel {
    Pcr(u16, Seq<u8>),
    CommandCode(PolicyCommand),
    AuthValue,
    Password,
    Or(Seq<Seq<u8>>),
}

impl View for PolicyStep {
    type V = PolicyStepModel;

    open spec fn view(&self) -> PolicyStepModel {
        match self {
            PolicyStep::Pcr(s) => PolicyStepModel::Pcr(s.hash.0, s.pcr_select@),
            PolicyStep::CommandCode(c) => PolicyStepModel::CommandCode(*c),
            PolicyStep::AuthValue => PolicyStepModel::AuthValue,
            PolicyStep::Password => PolicyStepModel::Password,
            PolicyStep::Or(d) => PolicyStepModel::Or(d@),
        }
    }
}

pub open spec fn step_views(s: Seq<PolicyStep>) -> Seq<PolicyStepModel> {
    s.map_values(|x: PolicyStep| x@)
}

/// The commands that satisfy a policy, in order: one command for each plain
/// policy; for an OR, the commands of its selected branch, then
/// `TPM2_PolicyOR` over the branch digests, where no branch is selected or
/// none has the selected label it fails; for a sequence, the commands of its
/// steps in order, where a sequence nested directly in a sequence fails.
pub open spec fn spec_policy_steps(p: PolicyModel) -> Result<Seq<PolicyStepModel>, Error>
    decreases p, 2int,
{
    match p {
        PolicyModel::AuthValue => Ok(seq![PolicyStepModel::AuthValue]),
        PolicyModel::Password => Ok(seq![PolicyStepModel::Password]),
        PolicyModel::Pcr(h, slots) => Ok(seq![PolicyStepModel::Pcr(spec_hash_alg_id(h), pcr_bitmap(slots))]),
        PolicyModel::Command(c) => Ok(seq![PolicyStepModel::CommandCode(c)]),
        PolicyModel::Or(bs, ds, selected) => match selected {
            None => Err(Error::InvalidPolicy("policy branch was not selected")),
            Some(label) => match spec_branch_steps(bs, label, 0) {
                Ok(s) => Ok(s.push(PolicyStepModel::Or(ds))),
                Err(e) => Err(e),
            },
        },
        PolicyModel::Sequence(steps) => spec_sequence_steps(steps),
    }
}

/// The commands of the first branch, from `i` on, labelled `label`.
pub open spec fn spec_branch_steps(bs: Seq<BranchModel>, label: Seq<char>, i: int) -> Result<
    Seq<PolicyStepModel>,
    Error,
>
    decreases bs, bs.len() - i,
{
    if i < 0 || i >= bs.len() {
        Err(Error::InvalidPolicy("selected policy branch does not exist"))
    } else if bs[i].label == label {
        spec_policy_steps(bs[i].policy)
    } else {
        spec_branch_steps(bs, label, i + 1)
    }
}

/// The commands of the steps of a sequence, in order.
pub open spec fn spec_sequence_steps(steps: Seq<PolicyModel>) -> Result<Seq<PolicyStepModel>, Error>
    decreases steps, 0int,
{
    if steps.len() == 0 {
        Ok(Seq::empty())
    } else {
        match spec_sequence_steps(steps.drop_last()) {
            Err(e) => Err(e),
            Ok(pre) => if steps.last() is Sequence {
                Err(Error::Internal)
            } else {
                match spec_policy_steps(steps.last()) {
                    Ok(s) => Ok(pre + s),
                    Err(e) => Err(e),
                }
            },
        }
    }
}

/// A plain policy is satisfied by its one command: `TPM2_PolicyAuthValue`,
/// `TPM2_PolicyPassword`, `TPM2_PolicyCommandCode` with its command, or
/// `TPM2_PolicyPCR` with the `TPM_ALG_ID` of its bank and the bitmap of its
/// PCRs.
pub proof fn law_policy_steps_plain(h: HashAlgorithm, slots: Seq<PcrSlot>, c: PolicyCommand)
    ensures
        spec_policy_steps(PolicyModel::AuthValue) == Ok::<Seq<PolicyStepModel>, Error>(seq![PolicyStepModel::AuthValue]),
        spec_policy_steps(PolicyModel::Password) == Ok::<Seq<PolicyStepModel>, Error>(seq![PolicyStepModel::Password]),
        spec_policy_steps(PolicyModel::Command(c)) == Ok::<Seq<PolicyStepModel>, Error>(
            seq![PolicyStepModel::CommandCode(c)],
        ),
        spec_policy_steps(PolicyModel::Pcr(h, slots)) == Ok::<Seq<PolicyStepModel>, Error>(
            seq![PolicyStepModel::Pcr(spec_hash_alg_id(h), pcr_bitmap(slots))],
        ),
{
}

proof fn lemma_branch_steps_skip(bs: Seq<BranchModel>, label: Seq<char>, j: int, i: int)
    requires
        0 <= j <= i <= bs.len(),
        forall|k: int| j <= k < i ==> #[trigger] bs[k].label != label,
    ensures
        spec_branch_steps(bs, label, j) == spec_branch_steps(bs, label, i),
    decreases i - j,
{
    if j < i {
        lemma_branch_steps_skip(bs, label, j + 1, i);
    }
}

/// An OR is satisfied by the commands of the first branch that has the
/// selected label, then `TPM2_PolicyOR` over the branch digests; an OR with
/// no label selected, or with no branch of that label, fails.
pub proof fn law_policy_or_steps(bs: Seq<BranchModel>, ds: Seq<Seq<u8>>, label: Seq<char>, i: int)
    ensures
        spec_policy_steps(PolicyModel::Or(bs, ds, None)) == Err::<Seq<PolicyStepModel>, Error>(
            Error::InvalidPolicy("policy branch was not selected"),
        ),
        (0 <= i < bs.len() && bs[i].label == label && forall|k: int| 0 <= k < i ==> #[trigger] bs[k].label != label)
            ==> spec_policy_steps(PolicyModel::Or(bs, ds, Some(label))) == match spec_policy_steps(bs[i].policy) {
            Ok(s) => Ok::<Seq<PolicyStepModel>, Error>(s.push(PolicyStepModel::Or(ds))),
            Err(e) => Err(e),
        },
        (forall|k: int| 0 <= k < bs.len() ==> #[trigger] bs[k].label != label) ==> spec_policy_steps(
            PolicyModel::Or(bs, ds, Some(label)),
        ) == Err::<Seq<PolicyStepModel>, Error>(Error::InvalidPolicy("selected policy branch does not exist")),
{
    if 0 <= i < bs.len() && bs[i].label == label && forall|k: int| 0 <= k < i ==> #[trigger] bs[k].label != label {
        lemma_branch_steps_skip(bs, label, 0, i);
    }
    if forall|k: int| 0 <= k < bs.len() ==> #[trigger] bs[k].label != label {
        lemma_branch_steps_skip(bs, label, 0, bs.len() as int);
    }
}

/// A sequence of two policies, neither a sequence, is satisfied by the
/// commands of the first, then those of the second.
pub proof fn law_policy_sequence_steps(a: PolicyModel, b: PolicyModel)
    requires
        !(a is Sequence),
        !(b is Sequence),
    ensures
        spec_policy_steps(PolicyModel::Sequence(seq![a, b])) == match (spec_policy_steps(a), spec_policy_steps(b)) {
            (Ok(x), Ok(y)) => Ok::<Seq<PolicyStepModel>, Error>(x + y),
            (Err(e), _) => Err(e),
            (Ok(_), Err(e)) => Err(e),
        },
{
    let steps = seq![a, b];
    assert(steps.drop_last() =~= seq![a]);
    assert(seq![a].drop_last() =~= Seq::<PolicyModel>::empty());
    assert(spec_sequence_steps(Seq::<PolicyModel>::empty()) == Ok::<Seq<PolicyStepModel>, Error>(Seq::empty()));
    let first = spec_sequence_steps(seq![a]);
    assert(first == match spec_policy_steps(a) {
        Ok(x) => Ok::<Seq<PolicyStepModel>, Error>(Seq::<PolicyStepModel>::empty() + x),
        Err(e) => Err(e),
    });
    if let Ok(x) = spec_policy_steps(a) {
        assert(Seq::<PolicyStepModel>::empty() + x =~= x);
    }
    assert(spec_policy_steps(PolicyModel::Sequence(steps)) == spec_sequence_steps(steps));
}

proof fn lemma_first_selected_skip(bs: Seq<BranchModel>, labels: Set<Seq<char>>, j: int, i: int)
    requires
        0 <= j <= i <= bs.len(),
        forall|k: int| j <= k < i ==> !labels.contains(#[trigger] bs[k].label),
    ensures
        first_selected_from(bs, labels, j) == first_selected_from(bs, labels, i),
    decreases i - j,
{
    if j < i {
        lemma_first_selected_skip(bs, labels, j + 1, i);
    }
}

/// Selecting branches on an OR picks the first branch whose label was
/// selected, and the session then runs that branch's commands and
/// `TPM2_PolicyOR`; where no branch's label was selected, the selection
/// fails. A policy without an OR is left as it is.
pub proof fn law_selected_branch_is_run(
    bs: Seq<BranchModel>,
    ds: Seq<Seq<u8>>,
    before: Option<Seq<char>>,
    labels: Set<Seq<char>>,
    i: int,
    plain: PolicyModel,
)
    requires
        !(plain is Or || plain is Sequence),
    ensures
        (0 <= i < bs.len() && labels.contains(bs[i].label) && forall|k: int|
            0 <= k < i ==> !labels.contains(#[trigger] bs[k].label)) ==> {
            &&& spec_select_branches(PolicyModel::Or(bs, ds, before), labels) == Ok::<PolicyModel, Error>(
                PolicyModel::Or(bs, ds, Some(bs[i].label)),
            )
            &&& spec_policy_steps(PolicyModel::Or(bs, ds, Some(bs[i].label))) == match spec_policy_steps(
                bs[i].policy,
            ) {
                Ok(s) => Ok::<Seq<PolicyStepModel>, Error>(s.push(PolicyStepModel::Or(ds))),
                Err(e) => Err(e),
            }
        },
        (forall|k: int| 0 <= k < bs.len() ==> !labels.contains(#[trigger] bs[k].label)) ==> spec_select_branches(
            PolicyModel::Or(bs, ds, before),
            labels,
        ) == Err::<PolicyModel, Error>(Error::InvalidPolicy("policy branch was not selected")),
        spec_select_branches(plain, labels) == Ok::<PolicyModel, Error>(plain),
{
    if 0 <= i < bs.len() && labels.contains(bs[i].label) && forall|k: int|
        0 <= k < i ==> !labels.contains(#[trigger] bs[k].label) {
        lemma_first_selected_skip(bs, labels, 0, i);
        assert forall|k: int| 0 <= k < i implies #[trigger] bs[k].label != bs[i].label by {
            assert(!labels.contains(bs[k].label));
        }
        law_policy_or_steps(bs, ds, bs[i].label, i);
    }
    if forall|k: int| 0 <= k < bs.len() ==> !labels.contains(#[trigger] bs[k].label) {
        lemma_first_selected_skip(bs, labels, 0, bs.len() as int);
    }
}

/// Once the steps before `n` fail, the whole sequence fails the same way.
proof fn lemma_sequence_steps_err_extends(steps: Seq<PolicyModel>, n: int, e: Error)
    requires
        0 <= n <= steps.len(),
        spec_sequence_steps(steps.take(n)) == Err::<Seq<PolicyStepModel>, Error>(e),
    ensures
        spec_sequence_steps(steps) == Err::<Seq<PolicyStepModel>, Error>(e),
    decreases steps.len() - n,
{
    if n == steps.len() {
        assert(steps.take(n) =~= steps);
    } else {
        assert(steps.drop_last().take(n) =~= steps.take(n));
        lemma_sequence_steps_err_extends(steps.drop_last(), n, e);
    }
}

/// The commands that satisfy `p` in a policy session, as `spec_policy_steps`
/// says.
#[verifier::loop_isolation(false)]
pub fn policy_steps(p: &PolicyData) -> (r: Result<Vec<PolicyStep>, Error>)
    ensures
        match spec_policy_steps(p@) {
            Ok(s) => r matches Ok(v) && step_views(v@) == s,
            Err(e) => r matches Err(x) && x == e,
        },
    decreases p,
{
    match p {
        PolicyData::AuthValue => {
            let v = vec![PolicyStep::AuthValue];
            assert(step_views(v@) =~= seq![PolicyStepModel::AuthValue]);
            Ok(v)
        },
        PolicyData::Password => {
            let v = vec![PolicyStep::Password];
            assert(step_views(v@) =~= seq![PolicyStepModel::Password]);
            Ok(v)
        },
        PolicyData::Pcr(sel) => {
            let v = vec![PolicyStep::Pcr(pcr_selection_to_tpms(sel))];
            assert(step_views(v@) =~= seq![
                PolicyStepModel::Pcr(spec_hash_alg_id(sel.spec_hash_alg()), pcr_bitmap(sel.spec_slots())),
            ]);
            Ok(v)
        },
        PolicyData::Command(c) => {
            let v = vec![PolicyStep::CommandCode(*c)];
            assert(step_views(v@) =~= seq![PolicyStepModel::CommandCode(*c)]);
            Ok(v)
        },
        PolicyData::Or { branches, branch_digests, selected_label } => {
            let label = match selected_label {
                Some(l) => l,
                None => return Err(Error::InvalidPolicy("policy branch was not selected")),
            };
            let ghost bvs = branch_views(branches@);
            proof {
                lemma_branch_views_index(branches@);
            }
            let mut i: usize = 0;
            while i < branches.len()
                invariant
                    i <= branches@.len(),
                    spec_branch_steps(bvs, label@, 0) == spec_branch_steps(bvs, label@, i as int),
                decreases branches@.len() - i,
            {
                if str_eq(branches[i].label.as_str(), label.as_str()) {
                    proof {
                        assert(decreases_to!(branches => branches@));
                        assert(decreases_to!(branches@ => branches@[i as int]));
                        assert(decreases_to!(branches@[i as int] => branches@[i as int].policy));
                    }
                    let mut steps = policy_steps(&branches[i].policy)?;
                    let ghost before = steps@;
                    steps.push(PolicyStep::Or(clone_digests(branch_digests)));
                    assert(step_views(steps@) =~= step_views(before).push(PolicyStepModel::Or(branch_digests@)));
                    return Ok(steps);
                }
                i += 1;
            }
            Err(Error::InvalidPolicy("selected policy branch does not exist"))
        },
        PolicyData::Sequence(steps) => {
            let ghost views = policy_views(steps@);
            proof {
                lemma_policy_views_index(steps@);
            }
            let mut out: Vec<PolicyStep> = Vec::new();
            let mut i: usize = 0;
            assert(views.take(0) =~= Seq::<PolicyModel>::empty());
            assert(step_views(out@) =~= Seq::<PolicyStepModel>::empty());
            while i < steps.len()
                invariant
                    i <= steps@.len(),
                    spec_sequence_steps(views.take(i as int)) == Ok::<Seq<PolicyStepModel>, Error>(
                        step_views(out@),
                    ),
                decreases steps@.len() - i,
            {
                proof {
                    assert(decreases_to!(steps => steps@));
                    assert(decreases_to!(steps@ => steps@[i as int]));
                    assert(views.take(i + 1).drop_last() =~= views.take(i as int));
                    assert(views.take(i + 1).last() == policy_view(steps@[i as int]));
                }
                if let PolicyData::Sequence(_) = &steps[i] {
                    proof {
                        lemma_sequence_steps_err_extends(views, i + 1, Error::Internal);
                    }
                    return Err(Error::invalid_state("unexpected nested policy sequence"));
                }
                match policy_steps(&steps[i]) {
                    Ok(mut more) => {
                        let ghost before = out@;
                        let ghost added = more@;
                        out.append(&mut more);
                        proof {
                            assert(step_views(out@) =~= step_views(before) + step_views(added));
                        }
                    },
                    Err(e) => {
                        proof {
                            lemma_sequence_steps_err_extends(views, i + 1, e);
                        }
                        return Err(e);
                    },
                }
                i += 1;
            }
            assert(views.take(i as int) =~= views);
            Ok(out)
        },
    }
}


/// How a policy asks for the authorization value.
#[derive(Debug, Clone, Copy, PartialEq, Eq, Structural)]
pub enum PolicyAuthKind {
    /// In the HMAC of the policy session (`TPM2_PolicyAuthValue`).
    AuthValue,
    /// In the clear (`TPM2_PolicyPassword`).
    Password,
}

/// How the commands from `i` on ask for the authorization value: as the first
/// of them that asks for it does.
pub open spec fn spec_auth_kind_from(s: Seq<PolicyStepModel>, i: int) -> Option<PolicyAuthKind>
    decreases s.len() - i,
{
    if i < 0 || i >= s.len() {
        None
    } else {
        match s[i] {
            PolicyStepModel::AuthValue => Some(PolicyAuthKind::AuthValue),
            PolicyStepModel::Password => Some(PolicyAuthKind::Password),
            _ => spec_auth_kind_from(s, i + 1),
        }
    }
}

/// How the commands of a policy session ask for the authorization value.
pub fn policy_auth_kind(steps: &Vec<PolicyStep>) -> (k: Option<PolicyAuthKind>)
    ensures
        k == spec_auth_kind_from(step_views(steps@), 0),
{
    let ghost views = step_views(steps@);
    let mut i: usize = 0;
    while i < steps.len()
        invariant
            i <= steps@.len(),
            views == step_views(steps@),
            spec_auth_kind_from(views, 0) == spec_auth_kind_from(views, i as int),
        decreases steps@.len() - i,
    {
        assert(views[i as int] == steps@[i as int]@);
        match &steps[i] {
            PolicyStep::AuthValue => return Some(PolicyAuthKind::AuthValue),
            PolicyStep::Password => return Some(PolicyAuthKind::Password),
            _ => {},
        }
        i += 1;
    }
    None
}

/// What a policy session keeps and sends, as how its policy asks for the
/// authorization value `auth` decides: with `TPM2_PolicyAuthValue` the value
/// joins the session key and the session signs with an HMAC; with
/// `TPM2_PolicyPassword` the value is sent in the clear; without either the
/// session has no value and does not sign.
pub open spec fn spec_policy_session_secrets(kind: Option<PolicyAuthKind>, session_key: Seq<u8>, auth: Seq<u8>) -> (
    Seq<u8>,
    bool,
    Seq<u8>,
) {
    match kind {
        Some(PolicyAuthKind::AuthValue) => (session_key + auth, true, Seq::empty()),
        Some(PolicyAuthKind::Password) => (session_key, false, auth),
        None => (Seq::empty(), false, Seq::empty()),
    }
}

/// The session value, whether it signs, and the authorization that a policy
/// session sends.
pub fn policy_session_secrets(kind: Option<PolicyAuthKind>, session_key: Vec<u8>, auth: &crate::tpm::Tpm2bAuth) -> (r: (
    Vec<u8>,
    bool,
    crate::tpm::Tpm2bAuth,
))
    ensures
        (r.0@, r.1, r.2@) == spec_policy_session_secrets(kind, session_key@, auth@),
{
    match kind {
        Some(PolicyAuthKind::AuthValue) => {
            let mut value = session_key;
            crate::wire::extend_bytes(&mut value, auth.as_bytes());
            (value, true, crate::tpm::Tpm2bAuth::empty())
        },
        Some(PolicyAuthKind::Password) => (session_key, false, crate::tpm::Tpm2bAuth { buffer: auth.buffer.clone() }),
        None => (Vec::new(), false, crate::tpm::Tpm2bAuth::empty()),
    }
}

} // verus!
