//! The lists that `TPM2_GetCapability` answers with.
use vstd::prelude::*;

use crate::error::Error;
use crate::handle::TpmHandle;
use crate::tpm::{
    is_alg_id, is_command_code, is_hash_alg_id, lemma_parse_n_fails_after, spec_parse_alg_hash, spec_parse_alg_id,
    spec_parse_tpm_cc, TpmAlgId, TpmCc, TpmiAlgHash,
};
use crate::types::{
    spec_tpm_ecc_curve_of, spec_tpm_ecc_curve_value, spec_tpm_pt_of, spec_tpm_pt_pcr_of, spec_tpm_pt_value, TpmCap, TpmEccCurve, TpmPt, TpmPtPcr,
    TpmaAlgorithm, TpmaCc, CC_ATTRIBUTES_RESERVED,
};
use crate::wire::{
    marshal_u32, marshal_u8, read_u16, read_u32, read_u8, read_vec, extend_bytes, spec_parse_list, spec_parse_n,
    spec_read_u16, spec_read_u32, spec_read_u8, spec_read_vec, u16_bytes, u32_bytes,
};

verus! {

/// An algorithm and its attributes (`TPMS_ALG_PROPERTY`).
#[derive(Debug, Clone, Copy, PartialEq, Eq, Structural)]
pub struct TpmsAlgProperty {
    pub alg: TpmAlgId,
    pub alg_properties: TpmaAlgorithm,
}

impl TpmsAlgProperty {
    pub fn new(alg: TpmAlgId, alg_properties: TpmaAlgorithm) -> (p: TpmsAlgProperty)
        ensures
            p == (TpmsAlgProperty { alg, alg_properties }),
    {
        TpmsAlgProperty { alg, alg_properties }
    }
}

/// The PCRs selected under one hash algorithm (`TPMS_PCR_SELECTION`).
#[derive(Debug, Clone)]
pub struct TpmsPcrSelection {
    pub hash: TpmiAlgHash,
    pub pcr_select: Vec<u8>,
}

impl TpmsPcrSelection {
    /// A selection; fails where the bitmap is longer than its `u8` size field allows.
    pub fn new(hash: TpmiAlgHash, pcr_select: Vec<u8>) -> (r: Result<TpmsPcrSelection, Error>)
        ensures
            match r {
                Ok(s) => pcr_select@.len() <= 0xff && s.hash == hash && s.pcr_select@ == pcr_select@,
                Err(e) => pcr_select@.len() > 0xff && e is Internal,
            },
    {
        if pcr_select.len() > 0xff {
            return Err(Error::invalid_state("TPMS_PCR_SELECTION sizeofSelect exceeds u8::MAX"));
        }
        Ok(TpmsPcrSelection { hash, pcr_select })
    }

    pub fn hash(&self) -> (h: TpmiAlgHash)
        ensures
            h == self.hash,
    {
        self.hash
    }

    pub fn pcr_select(&self) -> (s: &[u8])
        ensures
            s@ == self.pcr_select@,
    {
        self.pcr_select.as_slice()
    }
}

/// A TPM property and its value (`TPMS_TAGGED_PROPERTY`).
#[derive(Debug, Clone, Copy, PartialEq, Eq, Structural)]
pub struct TpmsTaggedProperty {
    property: TpmPt,
    value: u32,
}

impl TpmsTaggedProperty {
    pub closed spec fn spec_property(self) -> TpmPt {
        self.property
    }

    pub closed spec fn spec_value(self) -> u32 {
        self.value
    }

    pub fn new(property: TpmPt, value: u32) -> (p: TpmsTaggedProperty)
        ensures
            p.spec_property() == property,
            p.spec_value() == value,
    {
        TpmsTaggedProperty { property, value }
    }

    pub fn property(self) -> (p: TpmPt)
        ensures
            p == self.spec_property(),
    {
        self.property
    }

    pub fn value(self) -> (v: u32)
        ensures
            v == self.spec_value(),
    {
        self.value
    }
}

/// A PCR property and the PCRs that have it (`TPMS_TAGGED_PCR_SELECT`).
#[derive(Debug, Clone, PartialEq, Eq)]
pub struct TpmsTaggedPcrSelect {
    tag: TpmPtPcr,
    pcr_select: Vec<u8>,
}

impl TpmsTaggedPcrSelect {
    pub closed spec fn spec_tag(&self) -> TpmPtPcr {
        self.tag
    }

    pub closed spec fn spec_pcr_select(&self) -> Seq<u8> {
        self.pcr_select@
    }

    pub fn new(tag: TpmPtPcr, pcr_select: Vec<u8>) -> (p: TpmsTaggedPcrSelect)
        ensures
            p.spec_tag() == tag,
            p.spec_pcr_select() == pcr_select@,
    {
        TpmsTaggedPcrSelect { tag, pcr_select }
    }

    pub fn tag(&self) -> (t: TpmPtPcr)
        ensures
            t == self.spec_tag(),
    {
        self.tag
    }

    pub fn pcr_select(&self) -> (s: &[u8])
        ensures
            s@ == self.spec_pcr_select(),
    {
        self.pcr_select.as_slice()
    }
}

/// A handle at the front of a byte sequence.
pub open spec fn handle_item() -> spec_fn(Seq<u8>) -> Option<(u32, Seq<u8>)> {
    |t: Seq<u8>| spec_read_u32(t)
}

/// An algorithm and its attributes at the front of a byte sequence.
pub open spec fn alg_property_item() -> spec_fn(Seq<u8>) -> Option<((u16, u32), Seq<u8>)> {
    |t: Seq<u8>|
        match spec_parse_alg_id(t) {
            Some((alg, r)) => match spec_read_u32(r) {
                Some((props, r2)) => Some(((alg, props), r2)),
                None => None,
            },
            None => None,
        }
}

/// Command attributes with no reserved bit set, at the front of a byte sequence.
pub open spec fn cca_item() -> spec_fn(Seq<u8>) -> Option<(u32, Seq<u8>)> {
    |t: Seq<u8>|
        match spec_read_u32(t) {
            Some((v, r)) => if v & CC_ATTRIBUTES_RESERVED == 0 {
                Some((v, r))
            } else {
                None
            },
            None => None,
        }
}

/// A command code at the front of a byte sequence.
pub open spec fn cc_item() -> spec_fn(Seq<u8>) -> Option<(u32, Seq<u8>)> {
    |t: Seq<u8>| spec_parse_tpm_cc(t)
}

/// A hash algorithm, a `u8` size and that many bitmap bytes.
pub open spec fn pcr_selection_item() -> spec_fn(Seq<u8>) -> Option<((u16, Seq<u8>), Seq<u8>)> {
    |t: Seq<u8>|
        match spec_parse_alg_hash(t) {
            Some((hash, r)) => match spec_read_u8(r) {
                Some((size, r2)) => match spec_read_vec(r2, size as int) {
                    Some((select, r3)) => Some(((hash, select), r3)),
                    None => None,
                },
                None => None,
            },
            None => None,
        }
}

/// A known TPM property and its value.
pub open spec fn tagged_property_item() -> spec_fn(Seq<u8>) -> Option<((TpmPt, u32), Seq<u8>)> {
    |t: Seq<u8>|
        match spec_read_u32(t) {
            Some((p, r)) => match spec_tpm_pt_of(p) {
                Some(pt) => match spec_read_u32(r) {
                    Some((v, r2)) => Some(((pt, v), r2)),
                    None => None,
                },
                None => None,
            },
            None => None,
        }
}

/// A known PCR property, a `u8` size and that many bitmap bytes.
pub open spec fn tagged_pcr_item() -> spec_fn(Seq<u8>) -> Option<((TpmPtPcr, Seq<u8>), Seq<u8>)> {
    |t: Seq<u8>|
        match spec_read_u32(t) {
            Some((p, r)) => match spec_tpm_pt_pcr_of(p) {
                Some(tag) => match spec_read_u8(r) {
                    Some((size, r2)) => match spec_read_vec(r2, size as int) {
                        Some((select, r3)) => Some(((tag, select), r3)),
                        None => None,
                    },
                    None => None,
                },
                None => None,
            },
            None => None,
        }
}

/// A known ECC curve identifier.
pub open spec fn ecc_curve_item() -> spec_fn(Seq<u8>) -> Option<(TpmEccCurve, Seq<u8>)> {
    |t: Seq<u8>|
        match spec_read_u16(t) {
            Some((v, r)) => match spec_tpm_ecc_curve_of(v) {
                Some(c) => Some((c, r)),
                None => None,
            },
            None => None,
        }
}

impl TpmHandle {
    pub fn unmarshal(input: &mut &[u8]) -> (r: Result<TpmHandle, Error>)
        ensures
            final(input)@.len() <= old(input)@.len(),
            match r {
                Ok(h) => (handle_item())(old(input)@) == Some((h.0, final(input)@)),
                Err(e) => (handle_item())(old(input)@) is None && e is InvalidData,
            },
    {
        Ok(TpmHandle(read_u32(input)?))
    }

    pub fn marshal(&self, buf: &mut Vec<u8>)
        ensures
            final(buf)@ == old(buf)@ + u32_bytes(self.0),
    {
        marshal_u32(buf, self.0)
    }
}

impl TpmsAlgProperty {
    pub fn unmarshal(input: &mut &[u8]) -> (r: Result<TpmsAlgProperty, Error>)
        ensures
            final(input)@.len() <= old(input)@.len(),
            match r {
                Ok(p) => (alg_property_item())(old(input)@) == Some(((p.alg.0, p.alg_properties.0), final(input)@)),
                Err(e) => (alg_property_item())(old(input)@) is None && (e is InvalidData || e is Internal),
            },
    {
        let alg_id = TpmAlgId::unmarshal(input)?;
        let alg_properties = TpmaAlgorithm::from(read_u32(input)?);

        Ok(TpmsAlgProperty::new(alg_id, alg_properties))
    }
}

impl TpmaCc {
    pub fn unmarshal(input: &mut &[u8]) -> (r: Result<TpmaCc, Error>)
        ensures
            final(input)@.len() <= old(input)@.len(),
            match r {
                Ok(a) => (cca_item())(old(input)@) == Some((a.0, final(input)@)),
                Err(e) => (cca_item())(old(input)@) is None && (e is InvalidData || e is Internal),
            },
    {
        TpmaCc::try_from(read_u32(input)?)
    }
}

impl TpmsPcrSelection {
    pub fn unmarshal(input: &mut &[u8]) -> (r: Result<TpmsPcrSelection, Error>)
        ensures
            final(input)@.len() <= old(input)@.len(),
            match r {
                Ok(s) => (pcr_selection_item())(old(input)@) == Some(((s.hash.0, s.pcr_select@), final(input)@)),
                Err(e) => (pcr_selection_item())(old(input)@) is None && (e is InvalidData || e is Internal),
            },
    {
        let hash_alg = TpmiAlgHash::unmarshal(input)?;
        let size_of_select = read_u8(input)? as usize;
        let pcr_select = read_vec(input, size_of_select)?;

        TpmsPcrSelection::new(hash_alg, pcr_select)
    }

    pub fn marshal(&self, buf: &mut Vec<u8>) -> (r: Result<(), Error>)
        ensures
            match r {
                Ok(()) => self.pcr_select@.len() <= 0xff && final(buf)@ == old(buf)@ + pcr_selection_bytes(
                    self.hash.0,
                    self.pcr_select@,
                ),
                Err(e) => self.pcr_select@.len() > 0xff && e is Internal && final(buf)@ == old(buf)@,
            },
    {
        let pcr_select = self.pcr_select();
        if pcr_select.len() > 0xff {
            return Err(Error::invalid_state("TPMS_PCR_SELECTION sizeofSelect exceeds u8::MAX"));
        }
        let ghost start = buf@;
        self.hash().marshal(buf);
        marshal_u8(buf, pcr_select.len() as u8);
        extend_bytes(buf, pcr_select);
        assert(buf@ =~= start + pcr_selection_bytes(self.hash.0, self.pcr_select@));
        Ok(())
    }
}

/// The bytes of a `TPMS_PCR_SELECTION`.
pub open spec fn pcr_selection_bytes(hash: u16, select: Seq<u8>) -> Seq<u8> {
    crate::wire::u16_bytes(hash) + seq![select.len() as u8] + select
}

impl TpmsTaggedProperty {
    pub fn unmarshal(input: &mut &[u8]) -> (r: Result<TpmsTaggedProperty, Error>)
        ensures
            final(input)@.len() <= old(input)@.len(),
            match r {
                Ok(p) => (tagged_property_item())(old(input)@) == Some(((p.spec_property(), p.spec_value()), final(input)@)),
                Err(e) => (tagged_property_item())(old(input)@) is None && (e is InvalidData || e is Internal),
            },
    {
        let property = TpmPt::try_from(read_u32(input)?)?;
        let value = read_u32(input)?;

        Ok(TpmsTaggedProperty::new(property, value))
    }
}

impl TpmsTaggedPcrSelect {
    pub fn unmarshal(input: &mut &[u8]) -> (r: Result<TpmsTaggedPcrSelect, Error>)
        ensures
            final(input)@.len() <= old(input)@.len(),
            match r {
                Ok(p) => (tagged_pcr_item())(old(input)@) == Some(((p.spec_tag(), p.spec_pcr_select()), final(input)@)),
                Err(e) => (tagged_pcr_item())(old(input)@) is None && (e is InvalidData || e is Internal),
            },
    {
        let tag = TpmPtPcr::try_from(read_u32(input)?)?;
        let size_of_select = read_u8(input)? as usize;
        let pcr_select = read_vec(input, size_of_select)?;

        Ok(TpmsTaggedPcrSelect::new(tag, pcr_select))
    }
}

impl TpmEccCurve {
    pub fn unmarshal(input: &mut &[u8]) -> (r: Result<TpmEccCurve, Error>)
        ensures
            final(input)@.len() <= old(input)@.len(),
            match r {
                Ok(c) => (ecc_curve_item())(old(input)@) == Some((c, final(input)@)),
                Err(e) => (ecc_curve_item())(old(input)@) is None && (e is InvalidData || e is Internal),
            },
    {
        TpmEccCurve::try_from(read_u16(input)?)
    }
}

/// An algorithm property list (`TPML_ALG_PROPERTY`).
#[derive(Debug, Clone)]
pub struct TpmlAlgProperty {
    pub items: Vec<TpmsAlgProperty>,
}

impl View for TpmlAlgProperty {
    type V = Seq<(u16, u32)>;

    open spec fn view(&self) -> Seq<(u16, u32)> {
        self.items@.map_values(|p: TpmsAlgProperty| (p.alg.0, p.alg_properties.0))
    }
}

impl TpmlAlgProperty {
    pub fn items(&self) -> (items: &[TpmsAlgProperty])
        ensures
            items@ == self.items@,
    {
        self.items.as_slice()
    }

    pub fn unmarshal(input: &mut &[u8]) -> (r: Result<TpmlAlgProperty, Error>)
        ensures
            final(input)@.len() <= old(input)@.len(),
            match r {
                Ok(l) => spec_parse_list(old(input)@, alg_property_item()) == Some((l@, final(input)@)),
                Err(e) => spec_parse_list(old(input)@, alg_property_item()) is None && (e is InvalidData || e is Internal),
            },
    {
        let count = read_u32(input)?;
        let ghost s1 = input@;
        let mut items: Vec<TpmsAlgProperty> = Vec::new();
        let mut i: u32 = 0;
        while i < count
            invariant
                0 <= i <= count,
                spec_read_u32(old(input)@) == Some((count, s1)),
                s1.len() <= old(input)@.len(),
                input@.len() <= s1.len(),
                spec_parse_n(s1, i as nat, alg_property_item()) == Some((items@.map_values(|p: TpmsAlgProperty| (p.alg.0, p.alg_properties.0)), input@)),
            decreases count - i,
        {
            let ghost done = items@;
            match TpmsAlgProperty::unmarshal(input) {
                Ok(x) => {
                    items.push(x);
                    assert(items@.map_values(|p: TpmsAlgProperty| (p.alg.0, p.alg_properties.0)) =~= done.map_values(|p: TpmsAlgProperty| (p.alg.0, p.alg_properties.0)).push((|p: TpmsAlgProperty| (p.alg.0, p.alg_properties.0))(x)));
                }
                Err(e) => {
                    proof {
                        lemma_parse_n_fails_after(s1, i as nat, count as nat, alg_property_item());
                    }
                    return Err(e);
                }
            }
            i += 1;
        }
        Ok(TpmlAlgProperty { items })
    }
}

/// A handle list (`TPML_HANDLE`).
#[derive(Debug, Clone)]
pub struct TpmlHandle {
    pub items: Vec<TpmHandle>,
}

impl View for TpmlHandle {
    type V = Seq<u32>;

    open spec fn view(&self) -> Seq<u32> {
        self.items@.map_values(|h: TpmHandle| h.0)
    }
}

impl TpmlHandle {
    pub fn items(&self) -> (items: &[TpmHandle])
        ensures
            items@ == self.items@,
    {
        self.items.as_slice()
    }

    pub fn unmarshal(input: &mut &[u8]) -> (r: Result<TpmlHandle, Error>)
        ensures
            final(input)@.len() <= old(input)@.len(),
            match r {
                Ok(l) => spec_parse_list(old(input)@, handle_item()) == Some((l@, final(input)@)),
                Err(e) => spec_parse_list(old(input)@, handle_item()) is None && e is InvalidData,
            },
    {
        let count = read_u32(input)?;
        let ghost s1 = input@;
        let mut items: Vec<TpmHandle> = Vec::new();
        let mut i: u32 = 0;
        while i < count
            invariant
                0 <= i <= count,
                spec_read_u32(old(input)@) == Some((count, s1)),
                s1.len() <= old(input)@.len(),
                input@.len() <= s1.len(),
                spec_parse_n(s1, i as nat, handle_item()) == Some((items@.map_values(|h: TpmHandle| h.0), input@)),
            decreases count - i,
        {
            let ghost done = items@;
            match TpmHandle::unmarshal(input) {
                Ok(x) => {
                    items.push(x);
                    assert(items@.map_values(|h: TpmHandle| h.0) =~= done.map_values(|h: TpmHandle| h.0).push((|h: TpmHandle| h.0)(x)));
                }
                Err(e) => {
                    proof {
                        lemma_parse_n_fails_after(s1, i as nat, count as nat, handle_item());
                    }
                    return Err(e);
                }
            }
            i += 1;
        }
        Ok(TpmlHandle { items })
    }
}

/// A command attributes list (`TPML_CCA`).
#[derive(Debug, Clone)]
pub struct TpmlCca {
    pub items: Vec<TpmaCc>,
}

impl View for TpmlCca {
    type V = Seq<u32>;

    open spec fn view(&self) -> Seq<u32> {
        self.items@.map_values(|a: TpmaCc| a.0)
    }
}

impl TpmlCca {
    pub fn items(&self) -> (items: &[TpmaCc])
        ensures
            items@ == self.items@,
    {
        self.items.as_slice()
    }

    pub fn unmarshal(input: &mut &[u8]) -> (r: Result<TpmlCca, Error>)
        ensures
            final(input)@.len() <= old(input)@.len(),
            match r {
                Ok(l) => spec_parse_list(old(input)@, cca_item()) == Some((l@, final(input)@)),
                Err(e) => spec_parse_list(old(input)@, cca_item()) is None && (e is InvalidData || e is Internal),
            },
    {
        let count = read_u32(input)?;
        let ghost s1 = input@;
        let mut items: Vec<TpmaCc> = Vec::new();
        let mut i: u32 = 0;
        while i < count
            invariant
                0 <= i <= count,
                spec_read_u32(old(input)@) == Some((count, s1)),
                s1.len() <= old(input)@.len(),
                input@.len() <= s1.len(),
                spec_parse_n(s1, i as nat, cca_item()) == Some((items@.map_values(|a: TpmaCc| a.0), input@)),
            decreases count - i,
        {
            let ghost done = items@;
            match TpmaCc::unmarshal(input) {
                Ok(x) => {
                    items.push(x);
                    assert(items@.map_values(|a: TpmaCc| a.0) =~= done.map_values(|a: TpmaCc| a.0).push((|a: TpmaCc| a.0)(x)));
                }
                Err(e) => {
                    proof {
                        lemma_parse_n_fails_after(s1, i as nat, count as nat, cca_item());
                    }
                    return Err(e);
                }
            }
            i += 1;
        }
        Ok(TpmlCca { items })
    }
}

/// A command code list (`TPML_CC`).
#[derive(Debug, Clone)]
pub struct TpmlCc {
    pub items: Vec<TpmCc>,
}

impl View for TpmlCc {
    type V = Seq<u32>;

    open spec fn view(&self) -> Seq<u32> {
        self.items@.map_values(|c: TpmCc| c.0)
    }
}

impl TpmlCc {
    pub fn items(&self) -> (items: &[TpmCc])
        ensures
            items@ == self.items@,
    {
        self.items.as_slice()
    }

    pub fn unmarshal(input: &mut &[u8]) -> (r: Result<TpmlCc, Error>)
        ensures
            final(input)@.len() <= old(input)@.len(),
            match r {
                Ok(l) => spec_parse_list(old(input)@, cc_item()) == Some((l@, final(input)@)),
                Err(e) => spec_parse_list(old(input)@, cc_item()) is None && (e is InvalidData || e is Internal),
            },
    {
        let count = read_u32(input)?;
        let ghost s1 = input@;
        let mut items: Vec<TpmCc> = Vec::new();
        let mut i: u32 = 0;
        while i < count
            invariant
                0 <= i <= count,
                spec_read_u32(old(input)@) == Some((count, s1)),
                s1.len() <= old(input)@.len(),
                input@.len() <= s1.len(),
                spec_parse_n(s1, i as nat, cc_item()) == Some((items@.map_values(|c: TpmCc| c.0), input@)),
            decreases count - i,
        {
            let ghost done = items@;
            match TpmCc::unmarshal(input) {
                Ok(x) => {
                    items.push(x);
                    assert(items@.map_values(|c: TpmCc| c.0) =~= done.map_values(|c: TpmCc| c.0).push((|c: TpmCc| c.0)(x)));
                }
                Err(e) => {
                    proof {
                        lemma_parse_n_fails_after(s1, i as nat, count as nat, cc_item());
                    }
                    return Err(e);
                }
            }
            i += 1;
        }
        Ok(TpmlCc { items })
    }
}

/// A PCR selection list (`TPML_PCR_SELECTION`).
#[derive(Debug, Clone)]
pub struct TpmlPcrSelection {
    pub items: Vec<TpmsPcrSelection>,
}

impl View for TpmlPcrSelection {
    type V = Seq<(u16, Seq<u8>)>;

    open spec fn view(&self) -> Seq<(u16, Seq<u8>)> {
        self.items@.map_values(|s: TpmsPcrSelection| (s.hash.0, s.pcr_select@))
    }
}

impl TpmlPcrSelection {
    pub fn items(&self) -> (items: &[TpmsPcrSelection])
        ensures
            items@ == self.items@,
    {
        self.items.as_slice()
    }

    pub fn unmarshal(input: &mut &[u8]) -> (r: Result<TpmlPcrSelection, Error>)
        ensures
            final(input)@.len() <= old(input)@.len(),
            match r {
                Ok(l) => spec_parse_list(old(input)@, pcr_selection_item()) == Some((l@, final(input)@)),
                Err(e) => spec_parse_list(old(input)@, pcr_selection_item()) is None && (e is InvalidData || e is Internal),
            },
    {
        let count = read_u32(input)?;
        let ghost s1 = input@;
        let mut items: Vec<TpmsPcrSelection> = Vec::new();
        let mut i: u32 = 0;
        while i < count
            invariant
                0 <= i <= count,
                spec_read_u32(old(input)@) == Some((count, s1)),
                s1.len() <= old(input)@.len(),
                input@.len() <= s1.len(),
                spec_parse_n(s1, i as nat, pcr_selection_item()) == Some((items@.map_values(|s: TpmsPcrSelection| (s.hash.0, s.pcr_select@)), input@)),
            decreases count - i,
        {
            let ghost done = items@;
            match TpmsPcrSelection::unmarshal(input) {
                Ok(x) => {
                    items.push(x);
                    assert(items@.map_values(|s: TpmsPcrSelection| (s.hash.0, s.pcr_select@)) =~= done.map_values(|s: TpmsPcrSelection| (s.hash.0, s.pcr_select@)).push((|s: TpmsPcrSelection| (s.hash.0, s.pcr_select@))(x)));
                }
                Err(e) => {
                    proof {
                        lemma_parse_n_fails_after(s1, i as nat, count as nat, pcr_selection_item());
                    }
                    return Err(e);
                }
            }
            i += 1;
        }
        Ok(TpmlPcrSelection { items })
    }
}

/// A TPM property list (`TPML_TAGGED_TPM_PROPERTY`).
#[derive(Debug, Clone)]
pub struct TpmlTaggedTpmProperty {
    pub items: Vec<TpmsTaggedProperty>,
}

impl View for TpmlTaggedTpmProperty {
    type V = Seq<(TpmPt, u32)>;

    open spec fn view(&self) -> Seq<(TpmPt, u32)> {
        self.items@.map_values(|p: TpmsTaggedProperty| (p.spec_property(), p.spec_value()))
    }
}

impl TpmlTaggedTpmProperty {
    pub fn items(&self) -> (items: &[TpmsTaggedProperty])
        ensures
            items@ == self.items@,
    {
        self.items.as_slice()
    }

    pub fn unmarshal(input: &mut &[u8]) -> (r: Result<TpmlTaggedTpmProperty, Error>)
        ensures
            final(input)@.len() <= old(input)@.len(),
            match r {
                Ok(l) => spec_parse_list(old(input)@, tagged_property_item()) == Some((l@, final(input)@)),
                Err(e) => spec_parse_list(old(input)@, tagged_property_item()) is None && (e is InvalidData || e is Internal),
            },
    {
        let count = read_u32(input)?;
        let ghost s1 = input@;
        let mut items: Vec<TpmsTaggedProperty> = Vec::new();
        let mut i: u32 = 0;
        while i < count
            invariant
                0 <= i <= count,
                spec_read_u32(old(input)@) == Some((count, s1)),
                s1.len() <= old(input)@.len(),
                input@.len() <= s1.len(),
                spec_parse_n(s1, i as nat, tagged_property_item()) == Some((items@.map_values(|p: TpmsTaggedProperty| (p.spec_property(), p.spec_value())), input@)),
            decreases count - i,
        {
            let ghost done = items@;
            match TpmsTaggedProperty::unmarshal(input) {
                Ok(x) => {
                    items.push(x);
                    assert(items@.map_values(|p: TpmsTaggedProperty| (p.spec_property(), p.spec_value())) =~= done.map_values(|p: TpmsTaggedProperty| (p.spec_property(), p.spec_value())).push((|p: TpmsTaggedProperty| (p.spec_property(), p.spec_value()))(x)));
                }
                Err(e) => {
                    proof {
                        lemma_parse_n_fails_after(s1, i as nat, count as nat, tagged_property_item());
                    }
                    return Err(e);
                }
            }
            i += 1;
        }
        Ok(TpmlTaggedTpmProperty { items })
    }
}

/// A PCR property list (`TPML_TAGGED_PCR_PROPERTY`).
#[derive(Debug, Clone)]
pub struct TpmlTaggedPcrProperty {
    pub items: Vec<TpmsTaggedPcrSelect>,
}

impl View for TpmlTaggedPcrProperty {
    type V = Seq<(TpmPtPcr, Seq<u8>)>;

    open spec fn view(&self) -> Seq<(TpmPtPcr, Seq<u8>)> {
        self.items@.map_values(|p: TpmsTaggedPcrSelect| (p.spec_tag(), p.spec_pcr_select()))
    }
}

impl TpmlTaggedPcrProperty {
    pub fn items(&self) -> (items: &[TpmsTaggedPcrSelect])
        ensures
            items@ == self.items@,
    {
        self.items.as_slice()
    }

    pub fn unmarshal(input: &mut &[u8]) -> (r: Result<TpmlTaggedPcrProperty, Error>)
        ensures
            final(input)@.len() <= old(input)@.len(),
            match r {
                Ok(l) => spec_parse_list(old(input)@, tagged_pcr_item()) == Some((l@, final(input)@)),
                Err(e) => spec_parse_list(old(input)@, tagged_pcr_item()) is None && (e is InvalidData || e is Internal),
            },
    {
        let count = read_u32(input)?;
        let ghost s1 = input@;
        let mut items: Vec<TpmsTaggedPcrSelect> = Vec::new();
        let mut i: u32 = 0;
        while i < count
            invariant
                0 <= i <= count,
                spec_read_u32(old(input)@) == Some((count, s1)),
                s1.len() <= old(input)@.len(),
                input@.len() <= s1.len(),
                spec_parse_n(s1, i as nat, tagged_pcr_item()) == Some((items@.map_values(|p: TpmsTaggedPcrSelect| (p.spec_tag(), p.spec_pcr_select())), input@)),
            decreases count - i,
        {
            let ghost done = items@;
            match TpmsTaggedPcrSelect::unmarshal(input) {
                Ok(x) => {
                    items.push(x);
                    assert(items@.map_values(|p: TpmsTaggedPcrSelect| (p.spec_tag(), p.spec_pcr_select())) =~= done.map_values(|p: TpmsTaggedPcrSelect| (p.spec_tag(), p.spec_pcr_select())).push((|p: TpmsTaggedPcrSelect| (p.spec_tag(), p.spec_pcr_select()))(x)));
                }
                Err(e) => {
                    proof {
                        lemma_parse_n_fails_after(s1, i as nat, count as nat, tagged_pcr_item());
                    }
                    return Err(e);
                }
            }
            i += 1;
        }
        Ok(TpmlTaggedPcrProperty { items })
    }
}

/// An ECC curve list (`TPML_ECC_CURVE`).
#[derive(Debug, Clone)]
pub struct TpmlEccCurve {
    pub items: Vec<TpmEccCurve>,
}

impl View for TpmlEccCurve {
    type V = Seq<TpmEccCurve>;

    open spec fn view(&self) -> Seq<TpmEccCurve> {
        self.items@.map_values(|c: TpmEccCurve| c)
    }
}

impl TpmlEccCurve {
    pub fn items(&self) -> (items: &[TpmEccCurve])
        ensures
            items@ == self.items@,
    {
        self.items.as_slice()
    }

    pub fn unmarshal(input: &mut &[u8]) -> (r: Result<TpmlEccCurve, Error>)
        ensures
            final(input)@.len() <= old(input)@.len(),
            match r {
                Ok(l) => spec_parse_list(old(input)@, ecc_curve_item()) == Some((l@, final(input)@)),
                Err(e) => spec_parse_list(old(input)@, ecc_curve_item()) is None && (e is InvalidData || e is Internal),
            },
    {
        let count = read_u32(input)?;
        let ghost s1 = input@;
        let mut items: Vec<TpmEccCurve> = Vec::new();
        let mut i: u32 = 0;
        while i < count
            invariant
                0 <= i <= count,
                spec_read_u32(old(input)@) == Some((count, s1)),
                s1.len() <= old(input)@.len(),
                input@.len() <= s1.len(),
                spec_parse_n(s1, i as nat, ecc_curve_item()) == Some((items@.map_values(|c: TpmEccCurve| c), input@)),
            decreases count - i,
        {
            let ghost done = items@;
            match TpmEccCurve::unmarshal(input) {
                Ok(x) => {
                    items.push(x);
                    assert(items@.map_values(|c: TpmEccCurve| c) =~= done.map_values(|c: TpmEccCurve| c).push((|c: TpmEccCurve| c)(x)));
                }
                Err(e) => {
                    proof {
                        lemma_parse_n_fails_after(s1, i as nat, count as nat, ecc_curve_item());
                    }
                    return Err(e);
                }
            }
            i += 1;
        }
        Ok(TpmlEccCurve { items })
    }
}

impl TpmlPcrSelection {
    pub fn default() -> (l: TpmlPcrSelection)
        ensures
            l.items@.len() == 0,
            l@ == Seq::<(u16, Seq<u8>)>::empty(),
    {
        TpmlPcrSelection { items: Vec::new() }
    }

    pub fn is_empty(&self) -> (b: bool)
        ensures
            b == (self.items@.len() == 0),
            b == (self@.len() == 0),
    {
        self.items.len() == 0
    }

    pub fn marshal(&self, buf: &mut Vec<u8>) -> (r: Result<(), Error>)
        ensures
            match r {
                Ok(()) => pcr_selection_list_marshalable(self@) && final(buf)@ == old(buf)@
                    + pcr_selection_list_bytes(self@),
                Err(e) => !pcr_selection_list_marshalable(self@) && e is Internal,
            },
    {
        let n = self.items.len();
        if n > 0xffff_ffff {
            return Err(Error::invalid_state("TPML_PCR_SELECTION count exceeds u32::MAX"));
        }
        let ghost start = buf@;
        marshal_u32(buf, n as u32);
        let mut i: usize = 0;
        while i < n
            invariant
                n == self.items@.len(),
                self@.len() == n,
                n <= u32::MAX,
                0 <= i <= n,
                forall|j: int| 0 <= j < i ==> #[trigger] self@[j].1.len() <= 0xff,
                buf@ == start + u32_bytes(n as u32) + crate::wire::concat_map(
                    self@.take(i as int),
                    pcr_selection_enc(),
                ),
            decreases n - i,
        {
            assert(self@[i as int] == (self.items@[i as int].hash.0, self.items@[i as int].pcr_select@));
            match self.items[i].marshal(buf) {
                Ok(()) => {}
                Err(e) => {
                    assert(self@[i as int].1.len() > 0xff);
                    return Err(e);
                }
            }
            assert(self@.take(i + 1).drop_last() =~= self@.take(i as int));
            i += 1;
        }
        assert(self@.take(n as int) =~= self@);
        Ok(())
    }
}

/// How one PCR selection of a list is written.
pub open spec fn pcr_selection_enc() -> spec_fn((u16, Seq<u8>)) -> Seq<u8> {
    |p: (u16, Seq<u8>)| pcr_selection_bytes(p.0, p.1)
}

/// Whether a PCR selection list fits its wire format.
pub open spec fn pcr_selection_list_marshalable(items: Seq<(u16, Seq<u8>)>) -> bool {
    &&& items.len() <= u32::MAX
    &&& forall|j: int| 0 <= j < items.len() ==> #[trigger] items[j].1.len() <= 0xff
}

/// The bytes of a `TPML_PCR_SELECTION`.
pub open spec fn pcr_selection_list_bytes(items: Seq<(u16, Seq<u8>)>) -> Seq<u8> {
    u32_bytes(items.len() as u32) + crate::wire::concat_map(items, pcr_selection_enc())
}

/// The data of one capability group.
#[derive(Debug, Clone)]
pub enum CapabilityData {
    Algorithms(TpmlAlgProperty),
    Handles(TpmlHandle),
    Commands(TpmlCca),
    PpCommands(TpmlCc),
    AuditCommands(TpmlCc),
    Pcrs(TpmlPcrSelection),
    TpmProperties(TpmlTaggedTpmProperty),
    PcrProperties(TpmlTaggedPcrProperty),
    EccCurves(TpmlEccCurve),
}

/// What the data of a capability group states.
pub ghost enum CapabilityModel {
    Algorithms(Seq<(u16, u32)>),
    Handles(Seq<u32>),
    Commands(Seq<u32>),
    PpCommands(Seq<u32>),
    AuditCommands(Seq<u32>),
    Pcrs(Seq<(u16, Seq<u8>)>),
    TpmProperties(Seq<(TpmPt, u32)>),
    PcrProperties(Seq<(TpmPtPcr, Seq<u8>)>),
    EccCurves(Seq<TpmEccCurve>),
}

impl View for CapabilityData {
    type V = CapabilityModel;

    open spec fn view(&self) -> CapabilityModel {
        match self {
            CapabilityData::Algorithms(l) => CapabilityModel::Algorithms(l@),
            CapabilityData::Handles(l) => CapabilityModel::Handles(l@),
            CapabilityData::Commands(l) => CapabilityModel::Commands(l@),
            CapabilityData::PpCommands(l) => CapabilityModel::PpCommands(l@),
            CapabilityData::AuditCommands(l) => CapabilityModel::AuditCommands(l@),
            CapabilityData::Pcrs(l) => CapabilityModel::Pcrs(l@),
            CapabilityData::TpmProperties(l) => CapabilityModel::TpmProperties(l@),
            CapabilityData::PcrProperties(l) => CapabilityModel::PcrProperties(l@),
            CapabilityData::EccCurves(l) => CapabilityModel::EccCurves(l@),
        }
    }
}

/// The list of a capability group at the front of `s`.
pub open spec fn spec_parse_capability_data(s: Seq<u8>, capability: TpmCap) -> Option<(CapabilityModel, Seq<u8>)> {
    match capability {
        TpmCap::Algorithms => match spec_parse_list(s, alg_property_item()) {
            Some((l, r)) => Some((CapabilityModel::Algorithms(l), r)),
            None => None,
        },
        TpmCap::Handles => match spec_parse_list(s, handle_item()) {
            Some((l, r)) => Some((CapabilityModel::Handles(l), r)),
            None => None,
        },
        TpmCap::Commands => match spec_parse_list(s, cca_item()) {
            Some((l, r)) => Some((CapabilityModel::Commands(l), r)),
            None => None,
        },
        TpmCap::PPCommands => match spec_parse_list(s, cc_item()) {
            Some((l, r)) => Some((CapabilityModel::PpCommands(l), r)),
            None => None,
        },
        TpmCap::AuditCommands => match spec_parse_list(s, cc_item()) {
            Some((l, r)) => Some((CapabilityModel::AuditCommands(l), r)),
            None => None,
        },
        TpmCap::Pcrs => match spec_parse_list(s, pcr_selection_item()) {
            Some((l, r)) => Some((CapabilityModel::Pcrs(l), r)),
            None => None,
        },
        TpmCap::TpmProperties => match spec_parse_list(s, tagged_property_item()) {
            Some((l, r)) => Some((CapabilityModel::TpmProperties(l), r)),
            None => None,
        },
        TpmCap::PcrProperties => match spec_parse_list(s, tagged_pcr_item()) {
            Some((l, r)) => Some((CapabilityModel::PcrProperties(l), r)),
            None => None,
        },
        TpmCap::ECCCurves => match spec_parse_list(s, ecc_curve_item()) {
            Some((l, r)) => Some((CapabilityModel::EccCurves(l), r)),
            None => None,
        },
    }
}

impl CapabilityData {
    /// Reads the list of the capability group `capability`.
    pub fn parse(bytes: &mut &[u8], capability: TpmCap) -> (r: Result<CapabilityData, Error>)
        ensures
            final(bytes)@.len() <= old(bytes)@.len(),
            match r {
                Ok(d) => spec_parse_capability_data(old(bytes)@, capability) == Some((d@, final(bytes)@)),
                Err(e) => spec_parse_capability_data(old(bytes)@, capability) is None && (e is InvalidData
                    || e is Internal),
            },
    {
        match capability {
            TpmCap::Algorithms => Ok(CapabilityData::Algorithms(TpmlAlgProperty::unmarshal(bytes)?)),
            TpmCap::Handles => Ok(CapabilityData::Handles(TpmlHandle::unmarshal(bytes)?)),
            TpmCap::Commands => Ok(CapabilityData::Commands(TpmlCca::unmarshal(bytes)?)),
            TpmCap::PPCommands => Ok(CapabilityData::PpCommands(TpmlCc::unmarshal(bytes)?)),
            TpmCap::AuditCommands => Ok(CapabilityData::AuditCommands(TpmlCc::unmarshal(bytes)?)),
            TpmCap::Pcrs => Ok(CapabilityData::Pcrs(TpmlPcrSelection::unmarshal(bytes)?)),
            TpmCap::TpmProperties => Ok(CapabilityData::TpmProperties(TpmlTaggedTpmProperty::unmarshal(bytes)?)),
            TpmCap::PcrProperties => Ok(CapabilityData::PcrProperties(TpmlTaggedPcrProperty::unmarshal(bytes)?)),
            TpmCap::ECCCurves => Ok(CapabilityData::EccCurves(TpmlEccCurve::unmarshal(bytes)?)),
        }
    }
}


/// Whether every bank of a PCR selection list is a hash algorithm, which is
/// what a read of the list accepts.
pub open spec fn pcr_selection_list_readable(items: Seq<(u16, Seq<u8>)>) -> bool {
    forall|j: int| 0 <= j < items.len() ==> is_hash_alg_id(#[trigger] items[j].0)
}

proof fn lemma_pcr_selection_item_read(p: (u16, Seq<u8>), rest: Seq<u8>)
    requires
        is_hash_alg_id(p.0),
        p.1.len() <= 0xff,
    ensures
        (pcr_selection_item())((pcr_selection_enc())(p) + rest) == Some((p, rest)),
{
    let s = (pcr_selection_enc())(p) + rest;
    let after_hash = seq![p.1.len() as u8] + p.1 + rest;
    assert(s =~= crate::wire::u16_bytes(p.0) + after_hash);
    crate::wire::lemma_u16_bytes_read(p.0, after_hash);
    crate::wire::lemma_u8_read(p.1.len() as u8, p.1 + rest);
    assert(after_hash =~= seq![p.1.len() as u8] + (p.1 + rest));
    assert((p.1 + rest).take(p.1.len() as int) =~= p.1);
    assert((p.1 + rest).skip(p.1.len() as int) =~= rest);
}

/// A PCR selection list written and read again is the same list, where each
/// of its banks is a hash algorithm.
pub proof fn lemma_pcr_selection_list_round_trip(items: Seq<(u16, Seq<u8>)>, rest: Seq<u8>)
    requires
        pcr_selection_list_marshalable(items),
        pcr_selection_list_readable(items),
    ensures
        spec_parse_list(pcr_selection_list_bytes(items) + rest, pcr_selection_item()) == Some((items, rest)),
{
    assert forall|i: int, r: Seq<u8>| 0 <= i < items.len() implies #[trigger] (pcr_selection_item())(
        (pcr_selection_enc())(items[i]) + r,
    ) == Some((items[i], r)) by {
        lemma_pcr_selection_item_read(items[i], r);
    }
    crate::wire::lemma_parse_n_concat(items, pcr_selection_enc(), pcr_selection_item(), rest);
    let body = crate::wire::concat_map(items, pcr_selection_enc()) + rest;
    assert(pcr_selection_list_bytes(items) + rest =~= u32_bytes(items.len() as u32) + body);
    crate::wire::lemma_u32_bytes_read(items.len() as u32, body);
}


/// How the TPM writes a property and its value: the property's `TPM_PT`,
/// then the value, each a big-endian `u32`.
pub open spec fn tagged_property_enc() -> spec_fn((TpmPt, u32)) -> Seq<u8> {
    |x: (TpmPt, u32)| u32_bytes(spec_tpm_pt_value(x.0)) + u32_bytes(x.1)
}

/// How the TPM writes a handle: a big-endian `u32`.
pub open spec fn handle_enc() -> spec_fn(u32) -> Seq<u8> {
    |h: u32| u32_bytes(h)
}

/// How the TPM writes a curve: its `TPM_ECC_CURVE`, a big-endian `u16`.
pub open spec fn ecc_curve_enc() -> spec_fn(TpmEccCurve) -> Seq<u8> {
    |c: TpmEccCurve| u16_bytes(spec_tpm_ecc_curve_value(c))
}

/// The bytes of a list as the TPM writes it: the count, then the items.
pub open spec fn list_bytes<T>(items: Seq<T>, enc: spec_fn(T) -> Seq<u8>) -> Seq<u8> {
    u32_bytes(items.len() as u32) + crate::wire::concat_map(items, enc)
}

/// A `TPM2_GetCapability` answer for the TPM properties reads as the
/// properties and values the TPM wrote, in its order, each property by its
/// `TPM_PT` and each value as it was; what follows the list is left.
pub proof fn law_tpm_properties_read(items: Seq<(TpmPt, u32)>, rest: Seq<u8>)
    requires
        items.len() <= u32::MAX,
    ensures
        spec_parse_capability_data(list_bytes(items, tagged_property_enc()) + rest, TpmCap::TpmProperties)
            == Some((CapabilityModel::TpmProperties(items), rest)),
{
    assert forall|i: int, r: Seq<u8>| 0 <= i < items.len() implies #[trigger] (tagged_property_item())(
        (tagged_property_enc())(items[i]) + r,
    ) == Some((items[i], r)) by {
        let (p, v) = items[i];
        let tail = u32_bytes(v) + r;
        assert((tagged_property_enc())(items[i]) + r =~= u32_bytes(spec_tpm_pt_value(p)) + tail);
        crate::wire::lemma_u32_bytes_read(spec_tpm_pt_value(p), tail);
        crate::types::law_tpm_pt_round_trip(p, 0);
        crate::wire::lemma_u32_bytes_read(v, r);
    }
    crate::wire::lemma_parse_n_concat(items, tagged_property_enc(), tagged_property_item(), rest);
    let body = crate::wire::concat_map(items, tagged_property_enc()) + rest;
    assert(list_bytes(items, tagged_property_enc()) + rest =~= u32_bytes(items.len() as u32) + body);
    crate::wire::lemma_u32_bytes_read(items.len() as u32, body);
}

/// A `TPM2_GetCapability` answer for handles reads as the handles the TPM
/// wrote, in its order; what follows the list is left.
pub proof fn law_handles_read(items: Seq<u32>, rest: Seq<u8>)
    requires
        items.len() <= u32::MAX,
    ensures
        spec_parse_capability_data(list_bytes(items, handle_enc()) + rest, TpmCap::Handles)
            == Some((CapabilityModel::Handles(items), rest)),
{
    assert forall|i: int, r: Seq<u8>| 0 <= i < items.len() implies #[trigger] (handle_item())(
        (handle_enc())(items[i]) + r,
    ) == Some((items[i], r)) by {
        crate::wire::lemma_u32_bytes_read(items[i], r);
    }
    crate::wire::lemma_parse_n_concat(items, handle_enc(), handle_item(), rest);
    let body = crate::wire::concat_map(items, handle_enc()) + rest;
    assert(list_bytes(items, handle_enc()) + rest =~= u32_bytes(items.len() as u32) + body);
    crate::wire::lemma_u32_bytes_read(items.len() as u32, body);
}

/// A `TPM2_GetCapability` answer for the curves reads as the curves the TPM
/// wrote, in its order, each by its `TPM_ECC_CURVE`; what follows the list
/// is left.
pub proof fn law_ecc_curves_read(items: Seq<TpmEccCurve>, rest: Seq<u8>)
    requires
        items.len() <= u32::MAX,
    ensures
        spec_parse_capability_data(list_bytes(items, ecc_curve_enc()) + rest, TpmCap::ECCCurves)
            == Some((CapabilityModel::EccCurves(items), rest)),
{
    assert forall|i: int, r: Seq<u8>| 0 <= i < items.len() implies #[trigger] (ecc_curve_item())(
        (ecc_curve_enc())(items[i]) + r,
    ) == Some((items[i], r)) by {
        crate::wire::lemma_u16_bytes_read(spec_tpm_ecc_curve_value(items[i]), r);
        crate::types::law_tpm_ecc_curve_round_trip(items[i], 0);
    }
    crate::wire::lemma_parse_n_concat(items, ecc_curve_enc(), ecc_curve_item(), rest);
    let body = crate::wire::concat_map(items, ecc_curve_enc()) + rest;
    assert(list_bytes(items, ecc_curve_enc()) + rest =~= u32_bytes(items.len() as u32) + body);
    crate::wire::lemma_u32_bytes_read(items.len() as u32, body);
}

} // verus!
