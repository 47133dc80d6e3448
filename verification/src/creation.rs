//! Creation data, creation tickets and the sensitive area of a new object.
use vstd::prelude::*;
use vstd::std_specs::convert::TryFromSpecImpl;

use crate::cap::{
    lemma_pcr_selection_list_round_trip, pcr_selection_item, pcr_selection_list_bytes, pcr_selection_list_marshalable,
    pcr_selection_list_readable, TpmlPcrSelection,
};
use crate::error::Error;
use crate::handle::{TpmHandle, RH_ENDORSEMENT, RH_NULL, RH_OWNER, RH_PLATFORM};
use crate::tpm::{
    is_alg_id, spec_digest_size, spec_parse_alg_id, spec_parse_tpm2b_max, Tpm2bAuth, Tpm2bData, Tpm2bDigest, Tpm2bName,
    Tpm2bPublic, Tpm2bSensitiveData, TpmAlgId, ALG_NULL,
};
use crate::types::{TpmSt, TpmaLocality, ST_CREATION};
use crate::wire::{
    ensure_consumed, lemma_tpm2b_read, lemma_u16_bytes_read, lemma_u8_read, marshal_tpm2b, marshal_u16, marshal_u8, read_tpm2b, read_u16, read_u32, read_u8,
    spec_parse_list, spec_read_tpm2b, spec_read_u16, spec_read_u32, spec_read_u8, tpm2b_bytes, u16_bytes,
};

verus! {

/// The size of a handle, which is the name of an object with no name algorithm.
pub const HANDLE_SIZE: usize = 4;
/// The size of a hash algorithm identifier at the front of a name.
pub const ALG_HASH_SIZE: usize = 2;

/// What creation data states (`TPMS_CREATION_DATA`).
pub ghost struct CreationModel {
    pub pcr_select: Seq<(u16, Seq<u8>)>,
    pub pcr_digest: Seq<u8>,
    pub locality: u8,
    pub parent_name_alg: u16,
    pub parent_name: Seq<u8>,
    pub parent_qualified_name: Seq<u8>,
    pub outside_info: Seq<u8>,
}

/// The size of the names of a parent with this name algorithm.
pub open spec fn spec_expected_name_size(alg: u16) -> Option<int> {
    if alg == ALG_NULL {
        Some(HANDLE_SIZE as int)
    } else {
        match spec_digest_size(alg) {
            Some(d) => Some(ALG_HASH_SIZE + d),
            None => None,
        }
    }
}

/// Whether creation data is consistent: no PCR digest without a PCR
/// selection, and both parent names as long as the name algorithm calls for.
pub open spec fn creation_data_valid(m: CreationModel) -> bool {
    &&& !(m.pcr_select.len() == 0 && m.pcr_digest.len() != 0)
    &&& spec_expected_name_size(m.parent_name_alg) matches Some(n) && m.parent_name.len() == n
        && m.parent_qualified_name.len() == n
}

/// Creation data, as a TPM reports it with a created object.
#[derive(Debug, Clone)]
pub struct TpmsCreationData {
    pcr_select: TpmlPcrSelection,
    pcr_digest: Tpm2bDigest,
    locality: TpmaLocality,
    parent_name_alg: TpmAlgId,
    parent_name: Tpm2bName,
    parent_qualified_name: Tpm2bName,
    outside_info: Tpm2bData,
}

impl View for TpmsCreationData {
    type V = CreationModel;

    closed spec fn view(&self) -> CreationModel {
        CreationModel {
            pcr_select: self.pcr_select@,
            pcr_digest: self.pcr_digest@,
            locality: self.locality.0,
            parent_name_alg: self.parent_name_alg.0,
            parent_name: self.parent_name@,
            parent_qualified_name: self.parent_qualified_name@,
            outside_info: self.outside_info@,
        }
    }
}

/// Creation data at the front of `s`, where it is consistent.
pub open spec fn spec_parse_creation_data(s: Seq<u8>) -> Option<(CreationModel, Seq<u8>)> {
    match spec_parse_list(s, pcr_selection_item()) {
        Some((pcr_select, r1)) => match spec_parse_tpm2b_max(r1, 64) {
            Some((pcr_digest, r2)) => match spec_read_u8(r2) {
                Some((locality, r3)) => match spec_parse_alg_id(r3) {
                    Some((alg, r4)) => match spec_parse_tpm2b_max(r4, 66) {
                        Some((name, r5)) => match spec_parse_tpm2b_max(r5, 66) {
                            Some((qname, r6)) => match spec_parse_tpm2b_max(r6, 66) {
                                Some((outside, r7)) => {
                                    let m = CreationModel {
                                        pcr_select,
                                        pcr_digest,
                                        locality,
                                        parent_name_alg: alg,
                                        parent_name: name,
                                        parent_qualified_name: qname,
                                        outside_info: outside,
                                    };
                                    if creation_data_valid(m) {
                                        Some((m, r7))
                                    } else {
                                        None
                                    }
                                },
                                None => None,
                            },
                            None => None,
                        },
                        None => None,
                    },
                    None => None,
                },
                None => None,
            },
            None => None,
        },
        None => None,
    }
}

impl TpmsCreationData {
    /// Creation data; fails where it is not consistent.
    pub fn new(
        pcr_select: TpmlPcrSelection,
        pcr_digest: Tpm2bDigest,
        locality: TpmaLocality,
        parent_name_alg: TpmAlgId,
        parent_name: Tpm2bName,
        parent_qualified_name: Tpm2bName,
        outside_info: Tpm2bData,
    ) -> (r: Result<TpmsCreationData, Error>)
        ensures
            ({
                let m = CreationModel {
                    pcr_select: pcr_select@,
                    pcr_digest: pcr_digest@,
                    locality: locality.0,
                    parent_name_alg: parent_name_alg.0,
                    parent_name: parent_name@,
                    parent_qualified_name: parent_qualified_name@,
                    outside_info: outside_info@,
                };
                match r {
                    Ok(cd) => creation_data_valid(m) && cd@ == m,
                    Err(e) => !creation_data_valid(m) && e is InvalidParameter,
                }
            }),
    {
        if pcr_select.is_empty() && !pcr_digest.is_empty() {
            return Err(Error::invalid_param("pcrDigest must be empty when pcrSelect is empty"));
        }

        let expected_name_size = if parent_name_alg.value() == ALG_NULL {
            HANDLE_SIZE
        } else {
            match parent_name_alg.digest_size() {
                Some(digest_size) => ALG_HASH_SIZE + digest_size,
                None => return Err(Error::invalid_param("invalid parentNameAlg")),
            }
        };

        if parent_name.size() != expected_name_size || parent_qualified_name.size() != expected_name_size {
            return Err(Error::invalid_param(
                "parentName and parentQualifiedName sizes do not match parentNameAlg",
            ));
        }

        Ok(TpmsCreationData {
            pcr_select,
            pcr_digest,
            locality,
            parent_name_alg,
            parent_name,
            parent_qualified_name,
            outside_info,
        })
    }

    /// Empty creation data with no parent name algorithm.
    pub fn default() -> (cd: TpmsCreationData)
        ensures
            cd@ == (CreationModel {
                pcr_select: Seq::empty(),
                pcr_digest: Seq::empty(),
                locality: 0,
                parent_name_alg: ALG_NULL,
                parent_name: Seq::empty(),
                parent_qualified_name: Seq::empty(),
                outside_info: Seq::empty(),
            }),
    {
        let cd = TpmsCreationData {
            pcr_select: TpmlPcrSelection::default(),
            pcr_digest: Tpm2bDigest::empty(),
            locality: TpmaLocality::empty(),
            parent_name_alg: TpmAlgId(ALG_NULL),
            parent_name: Tpm2bName::empty(),
            parent_qualified_name: Tpm2bName::empty(),
            outside_info: Tpm2bData::empty(),
        };
        assert(cd@.pcr_select =~= Seq::<(u16, Seq<u8>)>::empty());
        cd
    }

    pub fn pcr_select(&self) -> (s: &TpmlPcrSelection)
        ensures
            s@ == self@.pcr_select,
    {
        &self.pcr_select
    }

    pub fn pcr_digest(&self) -> (d: &Tpm2bDigest)
        ensures
            d@ == self@.pcr_digest,
    {
        &self.pcr_digest
    }

    pub fn locality(&self) -> (l: &TpmaLocality)
        ensures
            l.0 == self@.locality,
    {
        &self.locality
    }

    pub fn parent_name_alg(&self) -> (a: &TpmAlgId)
        ensures
            a.0 == self@.parent_name_alg,
    {
        &self.parent_name_alg
    }

    pub fn parent_name(&self) -> (n: &Tpm2bName)
        ensures
            n@ == self@.parent_name,
    {
        &self.parent_name
    }

    pub fn parent_qualified_name(&self) -> (n: &Tpm2bName)
        ensures
            n@ == self@.parent_qualified_name,
    {
        &self.parent_qualified_name
    }

    pub fn outside_info(&self) -> (o: &Tpm2bData)
        ensures
            o@ == self@.outside_info,
    {
        &self.outside_info
    }

    pub fn unmarshal(input: &mut &[u8]) -> (r: Result<TpmsCreationData, Error>)
        ensures
            final(input)@.len() <= old(input)@.len(),
            match r {
                Ok(cd) => spec_parse_creation_data(old(input)@) == Some((cd@, final(input)@)),
                Err(e) => spec_parse_creation_data(old(input)@) is None && (e is InvalidData || e is Internal),
            },
    {
        let pcr_select = TpmlPcrSelection::unmarshal(input)?;
        let pcr_digest = Tpm2bDigest::unmarshal(input)?;
        let locality_value = read_u8(input)?;
        let locality = match TpmaLocality::from_bits(locality_value) {
            Some(l) => l,
            None => return Err(Error::InvalidData),
        };
        let parent_name_alg = TpmAlgId::unmarshal(input)?;
        let parent_name = Tpm2bName::unmarshal(input)?;
        let parent_qualified_name = Tpm2bName::unmarshal(input)?;
        let outside_info = Tpm2bData::unmarshal(input)?;

        match TpmsCreationData::new(
            pcr_select,
            pcr_digest,
            locality,
            parent_name_alg,
            parent_name,
            parent_qualified_name,
            outside_info,
        ) {
            Ok(cd) => Ok(cd),
            Err(_) => Err(Error::InvalidData),
        }
    }

    pub fn marshal(&self, buf: &mut Vec<u8>) -> (r: Result<(), Error>)
        ensures
            match r {
                Ok(()) => creation_data_marshalable(self@) && final(buf)@ == old(buf)@ + creation_data_bytes(self@),
                Err(e) => !creation_data_marshalable(self@) && e is Internal,
            },
    {
        let ghost start = buf@;
        if self.pcr_digest.size() > 0xffff || self.parent_name.size() > 0xffff
            || self.parent_qualified_name.size() > 0xffff || self.outside_info.size() > 0xffff {
            return Err(Error::invalid_state("TPM2B payload exceeds u16::MAX"));
        }
        self.pcr_select().marshal(buf)?;
        let _ = self.pcr_digest().marshal(buf);
        marshal_u8(buf, self.locality().bits());
        self.parent_name_alg().marshal(buf);
        let _ = self.parent_name().marshal(buf);
        let _ = self.parent_qualified_name().marshal(buf);
        let _ = self.outside_info().marshal(buf);
        assert(buf@ =~= start + creation_data_bytes(self@));
        Ok(())
    }
}

pub open spec fn creation_data_marshalable(m: CreationModel) -> bool {
    &&& m.pcr_digest.len() <= 0xffff
    &&& m.parent_name.len() <= 0xffff
    &&& m.parent_qualified_name.len() <= 0xffff
    &&& m.outside_info.len() <= 0xffff
    &&& pcr_selection_list_marshalable(m.pcr_select)
}

/// The bytes of creation data.
pub open spec fn creation_data_bytes(m: CreationModel) -> Seq<u8> {
    pcr_selection_list_bytes(m.pcr_select) + tpm2b_bytes(m.pcr_digest) + seq![m.locality] + u16_bytes(m.parent_name_alg) + tpm2b_bytes(m.parent_name)
        + tpm2b_bytes(m.parent_qualified_name) + tpm2b_bytes(m.outside_info)
}

/// Whether creation data stays within what a read of it accepts: each PCR
/// bank is a hash algorithm, the PCR digest fits a `TPM2B_DIGEST` and the
/// outside information a `TPM2B_DATA`.
pub open spec fn creation_data_readable(m: CreationModel) -> bool {
    &&& pcr_selection_list_readable(m.pcr_select)
    &&& m.pcr_digest.len() <= 64
    &&& m.outside_info.len() <= 66
}

/// Creation data written and read again is the same creation data, where it
/// is consistent and within what a read accepts.
pub proof fn lemma_creation_data_round_trip(m: CreationModel, rest: Seq<u8>)
    requires
        creation_data_valid(m),
        creation_data_marshalable(m),
        creation_data_readable(m),
    ensures
        spec_parse_creation_data(creation_data_bytes(m) + rest) == Some((m, rest)),
{
    let r7 = rest;
    let r6 = tpm2b_bytes(m.outside_info) + r7;
    let r5 = tpm2b_bytes(m.parent_qualified_name) + r6;
    let r4 = tpm2b_bytes(m.parent_name) + r5;
    let r3 = u16_bytes(m.parent_name_alg) + r4;
    let r2 = seq![m.locality] + r3;
    let r1 = tpm2b_bytes(m.pcr_digest) + r2;
    assert(creation_data_bytes(m) + rest =~= pcr_selection_list_bytes(m.pcr_select) + r1);
    lemma_pcr_selection_list_round_trip(m.pcr_select, r1);
    lemma_tpm2b_read(m.pcr_digest, r2);
    lemma_u8_read(m.locality, r3);
    lemma_u16_bytes_read(m.parent_name_alg, r4);
    assert(is_alg_id(m.parent_name_alg));
    lemma_tpm2b_read(m.parent_name, r5);
    lemma_tpm2b_read(m.parent_qualified_name, r6);
    lemma_tpm2b_read(m.outside_info, r7);
}

/// Creation data in a TPM2B (`TPM2B_CREATION_DATA`).
#[derive(Debug, Clone)]
pub struct Tpm2bCreationData(pub TpmsCreationData);

/// Creation data that fills a TPM2B at the front of `s`.
pub open spec fn spec_parse_tpm2b_creation_data(s: Seq<u8>) -> Option<(CreationModel, Seq<u8>)> {
    match spec_read_tpm2b(s) {
        Some((data, rest)) => match spec_parse_creation_data(data) {
            Some((m, r)) => if r.len() == 0 {
                Some((m, rest))
            } else {
                None
            },
            None => None,
        },
        None => None,
    }
}

impl Tpm2bCreationData {
    pub fn unmarshal(input: &mut &[u8]) -> (r: Result<Tpm2bCreationData, Error>)
        ensures
            final(input)@.len() <= old(input)@.len(),
            match r {
                Ok(cd) => spec_parse_tpm2b_creation_data(old(input)@) == Some((cd.0@, final(input)@)),
                Err(e) => spec_parse_tpm2b_creation_data(old(input)@) is None && (e is InvalidData || e is Internal),
            },
    {
        let data = read_tpm2b(input)?;
        let mut remaining = data.as_slice();
        let creation_data = TpmsCreationData::unmarshal(&mut remaining)?;

        ensure_consumed(remaining)?;

        Ok(Tpm2bCreationData(creation_data))
    }
}

pub open spec fn is_hierarchy_value(v: u32) -> bool {
    v == RH_OWNER || v == RH_ENDORSEMENT || v == RH_PLATFORM || v == RH_NULL
}

/// A hierarchy handle, or the null handle (`TPMI_RH_HIERARCHY`).
#[derive(Debug, Clone, Copy, PartialEq, Eq, Structural)]
pub struct TpmiRhHierarchy(pub TpmHandle);

impl TpmiRhHierarchy {
    pub fn owner() -> (h: TpmiRhHierarchy)
        ensures
            h.0.0 == RH_OWNER,
    {
        TpmiRhHierarchy(TpmHandle(RH_OWNER))
    }

    pub fn unmarshal(input: &mut &[u8]) -> (r: Result<TpmiRhHierarchy, Error>)
        ensures
            final(input)@.len() <= old(input)@.len(),
            match r {
                Ok(h) => spec_read_u32(old(input)@) == Some((h.0.0, final(input)@)) && is_hierarchy_value(h.0.0),
                Err(e) => (spec_read_u32(old(input)@) is None && e is InvalidData) || (spec_read_u32(
                    old(input)@,
                ) matches Some((v, _)) && !is_hierarchy_value(v) && e is Internal),
            },
    {
        TpmiRhHierarchy::try_from(TpmHandle(read_u32(input)?))
    }
}

impl TryFrom<TpmHandle> for TpmiRhHierarchy {
    type Error = Error;

    fn try_from(handle: TpmHandle) -> (r: Result<TpmiRhHierarchy, Error>) {
        let v = handle.value();
        if v == RH_OWNER || v == RH_ENDORSEMENT || v == RH_PLATFORM || v == RH_NULL {
            Ok(TpmiRhHierarchy(handle))
        } else {
            Err(Error::conversion())
        }
    }
}

impl TryFromSpecImpl<TpmHandle> for TpmiRhHierarchy {
    open spec fn obeys_try_from_spec() -> bool {
        true
    }

    open spec fn try_from_spec(handle: TpmHandle) -> Result<TpmiRhHierarchy, Error> {
        if is_hierarchy_value(handle.0) {
            Ok(TpmiRhHierarchy(handle))
        } else {
            Err(Error::Internal)
        }
    }
}

/// A creation ticket (`TPMT_TK_CREATION`).
#[derive(Debug, Clone)]
pub struct TpmtTkCreation {
    tag: TpmSt,
    hierarchy: TpmiRhHierarchy,
    digest: Tpm2bDigest,
}

/// What a creation ticket states: its hierarchy and digest.
pub ghost struct TicketModel {
    pub hierarchy: u32,
    pub digest: Seq<u8>,
}

impl View for TpmtTkCreation {
    type V = TicketModel;

    closed spec fn view(&self) -> TicketModel {
        TicketModel { hierarchy: self.hierarchy.0.0, digest: self.digest@ }
    }
}

/// A creation ticket at the front of `s`: the creation tag, a hierarchy and a digest.
pub open spec fn spec_parse_ticket(s: Seq<u8>) -> Option<(TicketModel, Seq<u8>)> {
    match spec_read_u16(s) {
        Some((tag, r1)) => if tag != ST_CREATION {
            None
        } else {
            match spec_read_u32(r1) {
                Some((h, r2)) => if !is_hierarchy_value(h) {
                    None
                } else {
                    match spec_parse_tpm2b_max(r2, 64) {
                        Some((digest, r3)) => Some((TicketModel { hierarchy: h, digest }, r3)),
                        None => None,
                    }
                },
                None => None,
            }
        },
        None => None,
    }
}

impl TpmtTkCreation {
    pub fn new(hierarchy: TpmiRhHierarchy, digest: Tpm2bDigest) -> (t: TpmtTkCreation)
        ensures
            t@ == (TicketModel { hierarchy: hierarchy.0.0, digest: digest@ }),
    {
        TpmtTkCreation { tag: TpmSt(ST_CREATION), hierarchy, digest }
    }

    pub fn unmarshal(input: &mut &[u8]) -> (r: Result<TpmtTkCreation, Error>)
        ensures
            final(input)@.len() <= old(input)@.len(),
            match r {
                Ok(t) => spec_parse_ticket(old(input)@) == Some((t@, final(input)@)),
                Err(e) => spec_parse_ticket(old(input)@) is None && (e is InvalidData || e is Internal),
            },
    {
        let tag = TpmSt::try_from(read_u16(input)?)?;
        if tag.value() != ST_CREATION {
            return Err(Error::InvalidData);
        }

        let hierarchy = TpmiRhHierarchy::unmarshal(input)?;
        let digest = Tpm2bDigest::unmarshal(input)?;

        Ok(TpmtTkCreation::new(hierarchy, digest))
    }
}

/// The sensitive area of an object to create (`TPMS_SENSITIVE_CREATE`).
#[derive(Debug, Clone)]
pub struct TpmsSensitiveCreate {
    pub user_auth: Tpm2bAuth,
    pub data: Tpm2bSensitiveData,
}

/// The bytes of a sensitive area: the user authorization, then the data.
pub open spec fn sensitive_create_bytes(user_auth: Seq<u8>, data: Seq<u8>) -> Seq<u8> {
    tpm2b_bytes(user_auth) + tpm2b_bytes(data)
}

/// A sensitive area at the front of `s`: an authorization value of at most 64
/// bytes, data of at most 128 bytes, and what follows them.
pub open spec fn spec_parse_sensitive_create(s: Seq<u8>) -> Option<(Seq<u8>, Seq<u8>, Seq<u8>)> {
    match spec_parse_tpm2b_max(s, 64) {
        Some((user_auth, r1)) => match spec_parse_tpm2b_max(r1, 128) {
            Some((data, r2)) => Some((user_auth, data, r2)),
            None => None,
        },
        None => None,
    }
}

/// A sensitive area written and read again is the same sensitive area, where
/// its authorization value and its data fit their buffers.
pub proof fn lemma_sensitive_create_round_trip(user_auth: Seq<u8>, data: Seq<u8>, rest: Seq<u8>)
    requires
        user_auth.len() <= 64,
        data.len() <= 128,
    ensures
        spec_parse_sensitive_create(sensitive_create_bytes(user_auth, data) + rest) == Some((user_auth, data, rest)),
{
    let r1 = tpm2b_bytes(data) + rest;
    assert(sensitive_create_bytes(user_auth, data) + rest =~= tpm2b_bytes(user_auth) + r1);
    lemma_tpm2b_read(user_auth, r1);
    lemma_tpm2b_read(data, rest);
}

impl TpmsSensitiveCreate {
    pub const MAX_BYTES: usize = 192;

    /// The sensitive area of an asymmetric key: an authorization value and no data.
    pub fn asymmetric(user_auth: Tpm2bAuth) -> (s: TpmsSensitiveCreate)
        ensures
            s.user_auth@ == user_auth@,
            s.data@ == Seq::<u8>::empty(),
    {
        TpmsSensitiveCreate { user_auth, data: Tpm2bSensitiveData::empty() }
    }

    pub fn marshal(&self, buf: &mut Vec<u8>) -> (r: Result<(), Error>)
        ensures
            match r {
                Ok(()) => self.user_auth@.len() <= 0xffff && self.data@.len() <= 0xffff && final(buf)@ == old(buf)@
                    + sensitive_create_bytes(self.user_auth@, self.data@),
                Err(e) => !(self.user_auth@.len() <= 0xffff && self.data@.len() <= 0xffff) && e is Internal,
            },
    {
        let ghost start = buf@;
        self.user_auth.marshal(buf)?;
        self.data.marshal(buf)?;
        assert(buf@ =~= start + sensitive_create_bytes(self.user_auth@, self.data@));
        Ok(())
    }

    pub fn unmarshal(input: &mut &[u8]) -> (r: Result<TpmsSensitiveCreate, Error>)
        ensures
            final(input)@.len() <= old(input)@.len(),
            match r {
                Ok(s) => spec_parse_sensitive_create(old(input)@) == Some((s.user_auth@, s.data@, final(input)@)),
                Err(e) => spec_parse_sensitive_create(old(input)@) is None && e is InvalidData,
            },
    {
        let user_auth = Tpm2bAuth::unmarshal(input)?;
        let data = Tpm2bSensitiveData::unmarshal(input)?;

        Ok(TpmsSensitiveCreate { user_auth, data })
    }
}

/// Whether a sensitive area fits a TPM2B: each of its buffers does, and so do
/// both together.
pub open spec fn sensitive_create_fits(user_auth: Seq<u8>, data: Seq<u8>) -> bool {
    user_auth.len() <= 0xffff && data.len() <= 0xffff && sensitive_create_bytes(user_auth, data).len() <= 0xffff
}

/// A sensitive area in a TPM2B (`TPM2B_SENSITIVE_CREATE`).
#[derive(Debug, Clone)]
pub struct Tpm2bSensitiveCreate(pub TpmsSensitiveCreate);

impl Tpm2bSensitiveCreate {
    pub fn marshal(&self, buf: &mut Vec<u8>) -> (r: Result<(), Error>)
        ensures
            match r {
                Ok(()) => sensitive_create_fits(self.0.user_auth@, self.0.data@) && final(buf)@ == old(buf)@
                    + tpm2b_bytes(sensitive_create_bytes(self.0.user_auth@, self.0.data@)),
                Err(e) => !sensitive_create_fits(self.0.user_auth@, self.0.data@) && e is Internal,
            },
    {
        let mut inner: Vec<u8> = Vec::new();
        self.0.marshal(&mut inner)?;
        assert(inner@ =~= sensitive_create_bytes(self.0.user_auth@, self.0.data@));
        marshal_tpm2b(buf, inner.as_slice())
    }
}

/// The parameters of `TPM2_Create` and `TPM2_CreatePrimary`: the sensitive area
/// with `auth`, the public template, empty outside info and no creation PCRs.
pub fn marshal_creation_params(in_public: &Tpm2bPublic, auth: Tpm2bAuth) -> (r: Result<Vec<u8>, Error>)
    ensures
        match r {
            Ok(bytes) => sensitive_create_fits(auth@, Seq::empty()) && in_public@.len() <= 0xffff
                && bytes@ == tpm2b_bytes(sensitive_create_bytes(auth@, Seq::empty())) + tpm2b_bytes(in_public@)
                + tpm2b_bytes(Seq::empty()) + crate::wire::u32_bytes(0),
            Err(e) => !(sensitive_create_fits(auth@, Seq::empty()) && in_public@.len() <= 0xffff) && e is Internal,
        },
{
    let ghost auth_view = auth@;
    let in_sensitive = Tpm2bSensitiveCreate(TpmsSensitiveCreate::asymmetric(auth));
    let outside_info = Tpm2bData::empty();
    let creation_pcr = TpmlPcrSelection::default();

    let mut command_params: Vec<u8> = Vec::new();
    in_sensitive.marshal(&mut command_params)?;
    in_public.marshal(&mut command_params)?;
    outside_info.marshal(&mut command_params)?;
    creation_pcr.marshal(&mut command_params)?;
    assert(creation_pcr@ =~= Seq::<(u16, Seq<u8>)>::empty());
    assert(command_params@ =~= tpm2b_bytes(sensitive_create_bytes(auth_view, Seq::empty())) + tpm2b_bytes(in_public@)
        + tpm2b_bytes(Seq::empty()) + crate::wire::u32_bytes(0));

    Ok(command_params)
}


/// Creation data as the TPM writes it (`TPMS_CREATION_DATA`): the PCR
/// selection, the PCR digest with its `u16` size, the locality byte, the
/// parent's name algorithm, the parent's name and qualified name and the
/// outside information, each with its `u16` size; it reads back field by
/// field, and what follows is left.
pub proof fn law_creation_data_read(m: CreationModel, rest: Seq<u8>)
    requires
        creation_data_valid(m),
        creation_data_marshalable(m),
        creation_data_readable(m),
    ensures
        spec_parse_creation_data(
            pcr_selection_list_bytes(m.pcr_select) + u16_bytes(m.pcr_digest.len() as u16) + m.pcr_digest + seq![
                m.locality,
            ] + u16_bytes(m.parent_name_alg) + u16_bytes(m.parent_name.len() as u16) + m.parent_name + u16_bytes(
                m.parent_qualified_name.len() as u16,
            ) + m.parent_qualified_name + u16_bytes(m.outside_info.len() as u16) + m.outside_info + rest,
        ) == Some((m, rest)),
{
    assert(pcr_selection_list_bytes(m.pcr_select) + u16_bytes(m.pcr_digest.len() as u16) + m.pcr_digest + seq![
        m.locality,
    ] + u16_bytes(m.parent_name_alg) + u16_bytes(m.parent_name.len() as u16) + m.parent_name + u16_bytes(
        m.parent_qualified_name.len() as u16,
    ) + m.parent_qualified_name + u16_bytes(m.outside_info.len() as u16) + m.outside_info + rest
        =~= creation_data_bytes(m) + rest);
    lemma_creation_data_round_trip(m, rest);
}


/// A sensitive area to create (`TPMS_SENSITIVE_CREATE`) is the user
/// authorization value with its `u16` size, then the data with its `u16`
/// size.
pub proof fn law_sensitive_create_layout(user_auth: Seq<u8>, data: Seq<u8>)
    ensures
        sensitive_create_bytes(user_auth, data) == u16_bytes(user_auth.len() as u16) + user_auth + u16_bytes(
            data.len() as u16,
        ) + data,
{
    assert(sensitive_create_bytes(user_auth, data) =~= u16_bytes(user_auth.len() as u16) + user_auth + u16_bytes(
        data.len() as u16,
    ) + data);
}

} // verus!
