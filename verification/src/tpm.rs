//! TPM structures shared by the commands and the key store.
use vstd::prelude::*;
use vstd::slice::slice_to_vec;
use vstd::std_specs::convert::{FromSpecImpl, TryFromSpecImpl};

use crate::error::Error;
use crate::wire::{
    marshal_tpm2b, marshal_u16, marshal_u32, read_tpm2b, read_u16, read_u32, spec_parse_n,
    spec_read_tpm2b, spec_read_u16, spec_read_u32, tpm2b_bytes, u16_bytes, u32_bytes,
};

verus! {

pub const CC_CREATE_PRIMARY: u32 = 0x0131;
pub const CC_EVICT_CONTROL: u32 = 0x0120;
pub const CC_DUPLICATE: u32 = 0x014b;
pub const CC_CREATE: u32 = 0x0153;
pub const CC_IMPORT: u32 = 0x0156;
pub const CC_LOAD: u32 = 0x0157;
pub const CC_RSA_DECRYPT: u32 = 0x0159;
pub const CC_SIGN: u32 = 0x015d;
pub const CC_UNSEAL: u32 = 0x015e;
pub const CC_FLUSH_CONTEXT: u32 = 0x0165;
pub const CC_POLICY_AUTH_VALUE: u32 = 0x016b;
pub const CC_POLICY_COMMAND_CODE: u32 = 0x016c;
pub const CC_POLICY_OR: u32 = 0x0171;
pub const CC_READ_PUBLIC: u32 = 0x0173;
pub const CC_RSA_ENCRYPT: u32 = 0x0174;
pub const CC_START_AUTH_SESSION: u32 = 0x0176;
pub const CC_GET_CAPABILITY: u32 = 0x017a;
pub const CC_GET_RANDOM: u32 = 0x017b;
pub const CC_PCR_READ: u32 = 0x017e;
pub const CC_POLICY_PCR: u32 = 0x017f;
pub const CC_POLICY_GET_DIGEST: u32 = 0x0189;
pub const CC_POLICY_PASSWORD: u32 = 0x018c;
/// The first and last command codes of the TPM 2.0 library.
pub const CC_FIRST: u32 = 0x011f;
pub const CC_LAST: u32 = 0x01a7;
/// The bit that marks a vendor-specific command code.
pub const CC_VENDOR_BIT: u32 = 0x2000_0000;

pub open spec fn is_command_code(v: u32) -> bool {
    (CC_FIRST <= v <= CC_LAST) || v & CC_VENDOR_BIT != 0
}

/// A command code (`TPM_CC`).
#[derive(Debug, Clone, Copy, PartialEq, Eq, Structural)]
pub struct TpmCc(pub u32);

impl TpmCc {
    pub fn value(&self) -> (v: u32)
        ensures
            v == self.0,
    {
        self.0
    }

    pub fn marshal(&self, buf: &mut Vec<u8>)
        ensures
            final(buf)@ == old(buf)@ + u32_bytes(self.0),
    {
        marshal_u32(buf, self.0)
    }

    pub fn unmarshal(input: &mut &[u8]) -> (r: Result<TpmCc, Error>)
        ensures
            final(input)@.len() <= old(input)@.len(),
            match r {
                Ok(cc) => spec_parse_tpm_cc(old(input)@) == Some((cc.0, final(input)@)),
                Err(e) => spec_parse_tpm_cc(old(input)@) is None && (e is InvalidData || e is Internal),
            },
    {
        let v = read_u32(input)?;
        TpmCc::try_from(v)
    }
}

/// A command code at the front of `s`.
pub open spec fn spec_parse_tpm_cc(s: Seq<u8>) -> Option<(u32, Seq<u8>)> {
    match spec_read_u32(s) {
        Some((v, rest)) => if is_command_code(v) {
            Some((v, rest))
        } else {
            None
        },
        None => None,
    }
}

impl TryFrom<u32> for TpmCc {
    type Error = Error;

    fn try_from(v: u32) -> (r: Result<TpmCc, Error>) {
        if (CC_FIRST <= v && v <= CC_LAST) || v & CC_VENDOR_BIT != 0 {
            Ok(TpmCc(v))
        } else {
            Err(Error::conversion())
        }
    }
}

impl TryFromSpecImpl<u32> for TpmCc {
    open spec fn obeys_try_from_spec() -> bool {
        true
    }

    open spec fn try_from_spec(v: u32) -> Result<TpmCc, Error> {
        if is_command_code(v) {
            Ok(TpmCc(v))
        } else {
            Err(Error::Internal)
        }
    }
}

pub const ALG_RSA: u16 = 0x0001;
pub const ALG_SHA1: u16 = 0x0004;
pub const ALG_HMAC: u16 = 0x0005;
pub const ALG_AES: u16 = 0x0006;
pub const ALG_MGF1: u16 = 0x0007;
pub const ALG_KEYEDHASH: u16 = 0x0008;
pub const ALG_XOR: u16 = 0x000a;
pub const ALG_SHA256: u16 = 0x000b;
pub const ALG_SHA384: u16 = 0x000c;
pub const ALG_SHA512: u16 = 0x000d;
pub const ALG_NULL: u16 = 0x0010;
pub const ALG_SM3_256: u16 = 0x0012;
pub const ALG_SM4: u16 = 0x0013;
pub const ALG_RSASSA: u16 = 0x0014;
pub const ALG_RSAES: u16 = 0x0015;
pub const ALG_RSAPSS: u16 = 0x0016;
pub const ALG_OAEP: u16 = 0x0017;
pub const ALG_ECDSA: u16 = 0x0018;
pub const ALG_ECDH: u16 = 0x0019;
pub const ALG_ECDAA: u16 = 0x001a;
pub const ALG_SM2: u16 = 0x001b;
pub const ALG_ECSCHNORR: u16 = 0x001c;
pub const ALG_ECMQV: u16 = 0x001d;
pub const ALG_KDF1_SP800_56A: u16 = 0x0020;
pub const ALG_KDF2: u16 = 0x0021;
pub const ALG_KDF1_SP800_108: u16 = 0x0022;
pub const ALG_ECC: u16 = 0x0023;
pub const ALG_SYMCIPHER: u16 = 0x0025;
pub const ALG_CAMELLIA: u16 = 0x0026;
pub const ALG_SHA3_256: u16 = 0x0027;
pub const ALG_SHA3_384: u16 = 0x0028;
pub const ALG_SHA3_512: u16 = 0x0029;
pub const ALG_CTR: u16 = 0x0040;
pub const ALG_OFB: u16 = 0x0041;
pub const ALG_CBC: u16 = 0x0042;
pub const ALG_CFB: u16 = 0x0043;
pub const ALG_ECB: u16 = 0x0044;
pub open spec fn is_alg_id(v: u16) -> bool {
    v == ALG_RSA
        || v == ALG_SHA1
        || v == ALG_HMAC
        || v == ALG_AES
        || v == ALG_MGF1
        || v == ALG_KEYEDHASH
        || v == ALG_XOR
        || v == ALG_SHA256
        || v == ALG_SHA384
        || v == ALG_SHA512
        || v == ALG_NULL
        || v == ALG_SM3_256
        || v == ALG_SM4
        || v == ALG_RSASSA
        || v == ALG_RSAES
        || v == ALG_RSAPSS
        || v == ALG_OAEP
        || v == ALG_ECDSA
        || v == ALG_ECDH
        || v == ALG_ECDAA
        || v == ALG_SM2
        || v == ALG_ECSCHNORR
        || v == ALG_ECMQV
        || v == ALG_KDF1_SP800_56A
        || v == ALG_KDF2
        || v == ALG_KDF1_SP800_108
        || v == ALG_ECC
        || v == ALG_SYMCIPHER
        || v == ALG_CAMELLIA
        || v == ALG_SHA3_256
        || v == ALG_SHA3_384
        || v == ALG_SHA3_512
        || v == ALG_CTR
        || v == ALG_OFB
        || v == ALG_CBC
        || v == ALG_CFB
        || v == ALG_ECB
}

pub open spec fn is_hash_alg_id(v: u16) -> bool {
    v == ALG_SHA1
        || v == ALG_SHA256
        || v == ALG_SHA384
        || v == ALG_SHA512
        || v == ALG_SM3_256
        || v == ALG_SHA3_256
        || v == ALG_SHA3_384
        || v == ALG_SHA3_512
}

/// The digest size of a hash algorithm.
pub open spec fn spec_digest_size(v: u16) -> Option<usize> {
    if v == ALG_SHA1 {
        Some(20)
    } else if v == ALG_SHA256 {
        Some(32)
    } else if v == ALG_SHA384 {
        Some(48)
    } else if v == ALG_SHA512 {
        Some(64)
    } else if v == ALG_SM3_256 {
        Some(32)
    } else if v == ALG_SHA3_256 {
        Some(32)
    } else if v == ALG_SHA3_384 {
        Some(48)
    } else if v == ALG_SHA3_512 {
        Some(64)
    } else {
        None
    }
}

/// An algorithm identifier (`TPM_ALG_ID`).
#[derive(Debug, Clone, Copy, PartialEq, Eq, Structural)]
pub struct TpmAlgId(pub u16);

impl TpmAlgId {
    pub fn value(&self) -> (v: u16)
        ensures
            v == self.0,
    {
        self.0
    }

    /// The size of the digests of a hash algorithm; `None` for other algorithms.
    pub fn digest_size(&self) -> (r: Option<usize>)
        ensures
            r == spec_digest_size(self.0),
    {
        let v = self.0;
        if v == ALG_SHA1 {
            Some(20)
        } else if v == ALG_SHA256 {
            Some(32)
        } else if v == ALG_SHA384 {
            Some(48)
        } else if v == ALG_SHA512 {
            Some(64)
        } else if v == ALG_SM3_256 {
            Some(32)
        } else if v == ALG_SHA3_256 {
            Some(32)
        } else if v == ALG_SHA3_384 {
            Some(48)
        } else if v == ALG_SHA3_512 {
            Some(64)
        } else {
            None
        }
    }

    pub fn marshal(&self, buf: &mut Vec<u8>)
        ensures
            final(buf)@ == old(buf)@ + u16_bytes(self.0),
    {
        marshal_u16(buf, self.0)
    }

    pub fn unmarshal(input: &mut &[u8]) -> (r: Result<TpmAlgId, Error>)
        ensures
            final(input)@.len() <= old(input)@.len(),
            match r {
                Ok(a) => spec_parse_alg_id(old(input)@) == Some((a.0, final(input)@)),
                Err(e) => spec_parse_alg_id(old(input)@) is None && (e is InvalidData || e is Internal),
            },
    {
        let v = read_u16(input)?;
        TpmAlgId::try_from(v)
    }
}

/// A known algorithm identifier at the front of `s`.
pub open spec fn spec_parse_alg_id(s: Seq<u8>) -> Option<(u16, Seq<u8>)> {
    match spec_read_u16(s) {
        Some((v, rest)) => if is_alg_id(v) {
            Some((v, rest))
        } else {
            None
        },
        None => None,
    }
}

fn is_alg_id_value(v: u16) -> (b: bool)
    ensures
        b == is_alg_id(v),
{
    v == ALG_RSA
        || v == ALG_SHA1
        || v == ALG_HMAC
        || v == ALG_AES
        || v == ALG_MGF1
        || v == ALG_KEYEDHASH
        || v == ALG_XOR
        || v == ALG_SHA256
        || v == ALG_SHA384
        || v == ALG_SHA512
        || v == ALG_NULL
        || v == ALG_SM3_256
        || v == ALG_SM4
        || v == ALG_RSASSA
        || v == ALG_RSAES
        || v == ALG_RSAPSS
        || v == ALG_OAEP
        || v == ALG_ECDSA
        || v == ALG_ECDH
        || v == ALG_ECDAA
        || v == ALG_SM2
        || v == ALG_ECSCHNORR
        || v == ALG_ECMQV
        || v == ALG_KDF1_SP800_56A
        || v == ALG_KDF2
        || v == ALG_KDF1_SP800_108
        || v == ALG_ECC
        || v == ALG_SYMCIPHER
        || v == ALG_CAMELLIA
        || v == ALG_SHA3_256
        || v == ALG_SHA3_384
        || v == ALG_SHA3_512
        || v == ALG_CTR
        || v == ALG_OFB
        || v == ALG_CBC
        || v == ALG_CFB
        || v == ALG_ECB
}

fn is_hash_alg_value(v: u16) -> (b: bool)
    ensures
        b == is_hash_alg_id(v),
{
    v == ALG_SHA1
        || v == ALG_SHA256
        || v == ALG_SHA384
        || v == ALG_SHA512
        || v == ALG_SM3_256
        || v == ALG_SHA3_256
        || v == ALG_SHA3_384
        || v == ALG_SHA3_512
}

impl TryFrom<u16> for TpmAlgId {
    type Error = Error;

    fn try_from(v: u16) -> (r: Result<TpmAlgId, Error>) {
        if is_alg_id_value(v) {
            Ok(TpmAlgId(v))
        } else {
            Err(Error::conversion())
        }
    }
}

impl TryFromSpecImpl<u16> for TpmAlgId {
    open spec fn obeys_try_from_spec() -> bool {
        true
    }

    open spec fn try_from_spec(v: u16) -> Result<TpmAlgId, Error> {
        if is_alg_id(v) {
            Ok(TpmAlgId(v))
        } else {
            Err(Error::Internal)
        }
    }
}

/// A hash algorithm identifier (`TPMI_ALG_HASH`).
#[derive(Debug, Clone, Copy, PartialEq, Eq, Structural)]
pub struct TpmiAlgHash(pub u16);

/// A hash algorithm identifier at the front of `s`.
pub open spec fn spec_parse_alg_hash(s: Seq<u8>) -> Option<(u16, Seq<u8>)> {
    match spec_read_u16(s) {
        Some((v, rest)) => if is_hash_alg_id(v) {
            Some((v, rest))
        } else {
            None
        },
        None => None,
    }
}

impl TpmiAlgHash {
    pub fn sha256() -> (h: TpmiAlgHash)
        ensures
            h.0 == ALG_SHA256,
    {
        TpmiAlgHash(ALG_SHA256)
    }

    pub fn value(&self) -> (v: u16)
        ensures
            v == self.0,
    {
        self.0
    }

    pub fn marshal(&self, buf: &mut Vec<u8>)
        ensures
            final(buf)@ == old(buf)@ + u16_bytes(self.0),
    {
        marshal_u16(buf, self.0)
    }

    pub fn unmarshal(input: &mut &[u8]) -> (r: Result<TpmiAlgHash, Error>)
        ensures
            final(input)@.len() <= old(input)@.len(),
            match r {
                Ok(a) => spec_parse_alg_hash(old(input)@) == Some((a.0, final(input)@)),
                Err(e) => spec_parse_alg_hash(old(input)@) is None && (e is InvalidData || e is Internal),
            },
    {
        let v = read_u16(input)?;
        if is_hash_alg_value(v) {
            Ok(TpmiAlgHash(v))
        } else {
            Err(Error::conversion())
        }
    }
}

/// A TPM2B payload of at most `max` bytes at the front of `s`.
pub open spec fn spec_parse_tpm2b_max(s: Seq<u8>, max: nat) -> Option<(Seq<u8>, Seq<u8>)> {
    match spec_read_tpm2b(s) {
        Some((data, rest)) => if data.len() <= max {
            Some((data, rest))
        } else {
            None
        },
        None => None,
    }
}

/// A digest (`TPM2B_DIGEST`).
#[derive(Debug, Clone)]
pub struct Tpm2bDigest {
    pub buffer: Vec<u8>,
}

impl View for Tpm2bDigest {
    type V = Seq<u8>;

    open spec fn view(&self) -> Seq<u8> {
        self.buffer@
    }
}

impl Tpm2bDigest {
    /// The most bytes that the buffer may hold.
    pub const MAX_BYTES: usize = 64;

    pub open spec fn wf(&self) -> bool {
        self.buffer@.len() <= 64
    }

    /// The empty buffer.
    pub fn empty() -> (b: Tpm2bDigest)
        ensures
            b@ == Seq::<u8>::empty(),
    {
        Tpm2bDigest { buffer: Vec::new() }
    }

    /// A buffer holding `bytes`; fails where they are too long.
    pub fn from_bytes(bytes: &[u8]) -> (r: Result<Tpm2bDigest, Error>)
        ensures
            match r {
                Ok(b) => bytes@.len() <= 64 && b@ == bytes@,
                Err(e) => bytes@.len() > 64 && e == (Error::TooLong { name: "Tpm2bDigest", max: 64 }),
            },
    {
        if bytes.len() > 64 {
            return Err(Error::TooLong { name: "Tpm2bDigest", max: 64 });
        }
        Ok(Tpm2bDigest { buffer: slice_to_vec(bytes) })
    }

    pub fn as_bytes(&self) -> (b: &[u8])
        ensures
            b@ == self@,
    {
        self.buffer.as_slice()
    }

    pub fn size(&self) -> (n: usize)
        ensures
            n == self@.len(),
    {
        self.buffer.len()
    }

    pub fn is_empty(&self) -> (b: bool)
        ensures
            b == (self@.len() == 0),
    {
        self.buffer.len() == 0
    }

    pub fn marshal(&self, buf: &mut Vec<u8>) -> (r: Result<(), Error>)
        ensures
            match r {
                Ok(()) => self@.len() <= 0xffff && final(buf)@ == old(buf)@ + tpm2b_bytes(self@),
                Err(e) => self@.len() > 0xffff && e is Internal && final(buf)@ == old(buf)@,
            },
    {
        marshal_tpm2b(buf, self.buffer.as_slice())
    }

    pub fn unmarshal(input: &mut &[u8]) -> (r: Result<Tpm2bDigest, Error>)
        ensures
            final(input)@.len() <= old(input)@.len(),
            match r {
                Ok(b) => spec_parse_tpm2b_max(old(input)@, 64) == Some((b@, final(input)@)),
                Err(e) => spec_parse_tpm2b_max(old(input)@, 64) is None && e is InvalidData,
            },
    {
        let buffer = read_tpm2b(input)?;
        if buffer.len() > 64 {
            return Err(Error::InvalidData);
        }
        Ok(Tpm2bDigest { buffer })
    }
}

/// A session nonce (`TPM2B_NONCE`).
#[derive(Debug, Clone)]
pub struct Tpm2bNonce {
    pub buffer: Vec<u8>,
}

impl View for Tpm2bNonce {
    type V = Seq<u8>;

    open spec fn view(&self) -> Seq<u8> {
        self.buffer@
    }
}

impl Tpm2bNonce {
    /// The most bytes that the buffer may hold.
    pub const MAX_BYTES: usize = 64;

    pub open spec fn wf(&self) -> bool {
        self.buffer@.len() <= 64
    }

    /// The empty buffer.
    pub fn empty() -> (b: Tpm2bNonce)
        ensures
            b@ == Seq::<u8>::empty(),
    {
        Tpm2bNonce { buffer: Vec::new() }
    }

    /// A buffer holding `bytes`; fails where they are too long.
    pub fn from_bytes(bytes: &[u8]) -> (r: Result<Tpm2bNonce, Error>)
        ensures
            match r {
                Ok(b) => bytes@.len() <= 64 && b@ == bytes@,
                Err(e) => bytes@.len() > 64 && e == (Error::TooLong { name: "Tpm2bNonce", max: 64 }),
            },
    {
        if bytes.len() > 64 {
            return Err(Error::TooLong { name: "Tpm2bNonce", max: 64 });
        }
        Ok(Tpm2bNonce { buffer: slice_to_vec(bytes) })
    }

    pub fn as_bytes(&self) -> (b: &[u8])
        ensures
            b@ == self@,
    {
        self.buffer.as_slice()
    }

    pub fn size(&self) -> (n: usize)
        ensures
            n == self@.len(),
    {
        self.buffer.len()
    }

    pub fn is_empty(&self) -> (b: bool)
        ensures
            b == (self@.len() == 0),
    {
        self.buffer.len() == 0
    }

    pub fn marshal(&self, buf: &mut Vec<u8>) -> (r: Result<(), Error>)
        ensures
            match r {
                Ok(()) => self@.len() <= 0xffff && final(buf)@ == old(buf)@ + tpm2b_bytes(self@),
                Err(e) => self@.len() > 0xffff && e is Internal && final(buf)@ == old(buf)@,
            },
    {
        marshal_tpm2b(buf, self.buffer.as_slice())
    }

    pub fn unmarshal(input: &mut &[u8]) -> (r: Result<Tpm2bNonce, Error>)
        ensures
            final(input)@.len() <= old(input)@.len(),
            match r {
                Ok(b) => spec_parse_tpm2b_max(old(input)@, 64) == Some((b@, final(input)@)),
                Err(e) => spec_parse_tpm2b_max(old(input)@, 64) is None && e is InvalidData,
            },
    {
        let buffer = read_tpm2b(input)?;
        if buffer.len() > 64 {
            return Err(Error::InvalidData);
        }
        Ok(Tpm2bNonce { buffer })
    }
}

/// An authorization value or HMAC (`TPM2B_AUTH`).
#[derive(Debug, Clone)]
pub struct Tpm2bAuth {
    pub buffer: Vec<u8>,
}

impl View for Tpm2bAuth {
    type V = Seq<u8>;

    open spec fn view(&self) -> Seq<u8> {
        self.buffer@
    }
}

impl Tpm2bAuth {
    /// The most bytes that the buffer may hold.
    pub const MAX_BYTES: usize = 64;

    pub open spec fn wf(&self) -> bool {
        self.buffer@.len() <= 64
    }

    /// The empty buffer.
    pub fn empty() -> (b: Tpm2bAuth)
        ensures
            b@ == Seq::<u8>::empty(),
    {
        Tpm2bAuth { buffer: Vec::new() }
    }

    /// A buffer holding `bytes`; fails where they are too long.
    pub fn from_bytes(bytes: &[u8]) -> (r: Result<Tpm2bAuth, Error>)
        ensures
            match r {
                Ok(b) => bytes@.len() <= 64 && b@ == bytes@,
                Err(e) => bytes@.len() > 64 && e == (Error::TooLong { name: "Tpm2bAuth", max: 64 }),
            },
    {
        if bytes.len() > 64 {
            return Err(Error::TooLong { name: "Tpm2bAuth", max: 64 });
        }
        Ok(Tpm2bAuth { buffer: slice_to_vec(bytes) })
    }

    pub fn as_bytes(&self) -> (b: &[u8])
        ensures
            b@ == self@,
    {
        self.buffer.as_slice()
    }

    pub fn size(&self) -> (n: usize)
        ensures
            n == self@.len(),
    {
        self.buffer.len()
    }

    pub fn is_empty(&self) -> (b: bool)
        ensures
            b == (self@.len() == 0),
    {
        self.buffer.len() == 0
    }

    pub fn marshal(&self, buf: &mut Vec<u8>) -> (r: Result<(), Error>)
        ensures
            match r {
                Ok(()) => self@.len() <= 0xffff && final(buf)@ == old(buf)@ + tpm2b_bytes(self@),
                Err(e) => self@.len() > 0xffff && e is Internal && final(buf)@ == old(buf)@,
            },
    {
        marshal_tpm2b(buf, self.buffer.as_slice())
    }

    pub fn unmarshal(input: &mut &[u8]) -> (r: Result<Tpm2bAuth, Error>)
        ensures
            final(input)@.len() <= old(input)@.len(),
            match r {
                Ok(b) => spec_parse_tpm2b_max(old(input)@, 64) == Some((b@, final(input)@)),
                Err(e) => spec_parse_tpm2b_max(old(input)@, 64) is None && e is InvalidData,
            },
    {
        let buffer = read_tpm2b(input)?;
        if buffer.len() > 64 {
            return Err(Error::InvalidData);
        }
        Ok(Tpm2bAuth { buffer })
    }
}

/// Outside data (`TPM2B_DATA`).
#[derive(Debug, Clone)]
pub struct Tpm2bData {
    pub buffer: Vec<u8>,
}

impl View for Tpm2bData {
    type V = Seq<u8>;

    open spec fn view(&self) -> Seq<u8> {
        self.buffer@
    }
}

impl Tpm2bData {
    /// The most bytes that the buffer may hold.
    pub const MAX_BYTES: usize = 66;

    pub open spec fn wf(&self) -> bool {
        self.buffer@.len() <= 66
    }

    /// The empty buffer.
    pub fn empty() -> (b: Tpm2bData)
        ensures
            b@ == Seq::<u8>::empty(),
    {
        Tpm2bData { buffer: Vec::new() }
    }

    /// A buffer holding `bytes`; fails where they are too long.
    pub fn from_bytes(bytes: &[u8]) -> (r: Result<Tpm2bData, Error>)
        ensures
            match r {
                Ok(b) => bytes@.len() <= 66 && b@ == bytes@,
                Err(e) => bytes@.len() > 66 && e == (Error::TooLong { name: "Tpm2bData", max: 66 }),
            },
    {
        if bytes.len() > 66 {
            return Err(Error::TooLong { name: "Tpm2bData", max: 66 });
        }
        Ok(Tpm2bData { buffer: slice_to_vec(bytes) })
    }

    pub fn as_bytes(&self) -> (b: &[u8])
        ensures
            b@ == self@,
    {
        self.buffer.as_slice()
    }

    pub fn size(&self) -> (n: usize)
        ensures
            n == self@.len(),
    {
        self.buffer.len()
    }

    pub fn is_empty(&self) -> (b: bool)
        ensures
            b == (self@.len() == 0),
    {
        self.buffer.len() == 0
    }

    pub fn marshal(&self, buf: &mut Vec<u8>) -> (r: Result<(), Error>)
        ensures
            match r {
                Ok(()) => self@.len() <= 0xffff && final(buf)@ == old(buf)@ + tpm2b_bytes(self@),
                Err(e) => self@.len() > 0xffff && e is Internal && final(buf)@ == old(buf)@,
            },
    {
        marshal_tpm2b(buf, self.buffer.as_slice())
    }

    pub fn unmarshal(input: &mut &[u8]) -> (r: Result<Tpm2bData, Error>)
        ensures
            final(input)@.len() <= old(input)@.len(),
            match r {
                Ok(b) => spec_parse_tpm2b_max(old(input)@, 66) == Some((b@, final(input)@)),
                Err(e) => spec_parse_tpm2b_max(old(input)@, 66) is None && e is InvalidData,
            },
    {
        let buffer = read_tpm2b(input)?;
        if buffer.len() > 66 {
            return Err(Error::InvalidData);
        }
        Ok(Tpm2bData { buffer })
    }
}

/// The name of an entity (`TPM2B_NAME`).
#[derive(Debug, Clone)]
pub struct Tpm2bName {
    pub buffer: Vec<u8>,
}

impl View for Tpm2bName {
    type V = Seq<u8>;

    open spec fn view(&self) -> Seq<u8> {
        self.buffer@
    }
}

impl Tpm2bName {
    /// The most bytes that the buffer may hold.
    pub const MAX_BYTES: usize = 66;

    pub open spec fn wf(&self) -> bool {
        self.buffer@.len() <= 66
    }

    /// The empty buffer.
    pub fn empty() -> (b: Tpm2bName)
        ensures
            b@ == Seq::<u8>::empty(),
    {
        Tpm2bName { buffer: Vec::new() }
    }

    /// A buffer holding `bytes`; fails where they are too long.
    pub fn from_bytes(bytes: &[u8]) -> (r: Result<Tpm2bName, Error>)
        ensures
            match r {
                Ok(b) => bytes@.len() <= 66 && b@ == bytes@,
                Err(e) => bytes@.len() > 66 && e == (Error::TooLong { name: "Tpm2bName", max: 66 }),
            },
    {
        if bytes.len() > 66 {
            return Err(Error::TooLong { name: "Tpm2bName", max: 66 });
        }
        Ok(Tpm2bName { buffer: slice_to_vec(bytes) })
    }

    pub fn as_bytes(&self) -> (b: &[u8])
        ensures
            b@ == self@,
    {
        self.buffer.as_slice()
    }

    pub fn size(&self) -> (n: usize)
        ensures
            n == self@.len(),
    {
        self.buffer.len()
    }

    pub fn is_empty(&self) -> (b: bool)
        ensures
            b == (self@.len() == 0),
    {
        self.buffer.len() == 0
    }

    pub fn marshal(&self, buf: &mut Vec<u8>) -> (r: Result<(), Error>)
        ensures
            match r {
                Ok(()) => self@.len() <= 0xffff && final(buf)@ == old(buf)@ + tpm2b_bytes(self@),
                Err(e) => self@.len() > 0xffff && e is Internal && final(buf)@ == old(buf)@,
            },
    {
        marshal_tpm2b(buf, self.buffer.as_slice())
    }

    pub fn unmarshal(input: &mut &[u8]) -> (r: Result<Tpm2bName, Error>)
        ensures
            final(input)@.len() <= old(input)@.len(),
            match r {
                Ok(b) => spec_parse_tpm2b_max(old(input)@, 66) == Some((b@, final(input)@)),
                Err(e) => spec_parse_tpm2b_max(old(input)@, 66) is None && e is InvalidData,
            },
    {
        let buffer = read_tpm2b(input)?;
        if buffer.len() > 66 {
            return Err(Error::InvalidData);
        }
        Ok(Tpm2bName { buffer })
    }
}

/// A private area blob (`TPM2B_PRIVATE`).
#[derive(Debug, Clone)]
pub struct Tpm2bPrivate {
    pub buffer: Vec<u8>,
}

impl View for Tpm2bPrivate {
    type V = Seq<u8>;

    open spec fn view(&self) -> Seq<u8> {
        self.buffer@
    }
}

impl Tpm2bPrivate {
    /// The most bytes that the buffer may hold.
    pub const MAX_BYTES: usize = 65535;

    pub open spec fn wf(&self) -> bool {
        self.buffer@.len() <= 65535
    }

    /// The empty buffer.
    pub fn empty() -> (b: Tpm2bPrivate)
        ensures
            b@ == Seq::<u8>::empty(),
    {
        Tpm2bPrivate { buffer: Vec::new() }
    }

    /// A buffer holding `bytes`; fails where they are too long.
    pub fn from_bytes(bytes: &[u8]) -> (r: Result<Tpm2bPrivate, Error>)
        ensures
            match r {
                Ok(b) => bytes@.len() <= 65535 && b@ == bytes@,
                Err(e) => bytes@.len() > 65535 && e == (Error::TooLong { name: "Tpm2bPrivate", max: 65535 }),
            },
    {
        if bytes.len() > 65535 {
            return Err(Error::TooLong { name: "Tpm2bPrivate", max: 65535 });
        }
        Ok(Tpm2bPrivate { buffer: slice_to_vec(bytes) })
    }

    pub fn as_bytes(&self) -> (b: &[u8])
        ensures
            b@ == self@,
    {
        self.buffer.as_slice()
    }

    pub fn size(&self) -> (n: usize)
        ensures
            n == self@.len(),
    {
        self.buffer.len()
    }

    pub fn is_empty(&self) -> (b: bool)
        ensures
            b == (self@.len() == 0),
    {
        self.buffer.len() == 0
    }

    pub fn marshal(&self, buf: &mut Vec<u8>) -> (r: Result<(), Error>)
        ensures
            match r {
                Ok(()) => self@.len() <= 0xffff && final(buf)@ == old(buf)@ + tpm2b_bytes(self@),
                Err(e) => self@.len() > 0xffff && e is Internal && final(buf)@ == old(buf)@,
            },
    {
        marshal_tpm2b(buf, self.buffer.as_slice())
    }

    pub fn unmarshal(input: &mut &[u8]) -> (r: Result<Tpm2bPrivate, Error>)
        ensures
            final(input)@.len() <= old(input)@.len(),
            match r {
                Ok(b) => spec_parse_tpm2b_max(old(input)@, 65535) == Some((b@, final(input)@)),
                Err(e) => spec_parse_tpm2b_max(old(input)@, 65535) is None && e is InvalidData,
            },
    {
        let buffer = read_tpm2b(input)?;
        if buffer.len() > 65535 {
            return Err(Error::InvalidData);
        }
        Ok(Tpm2bPrivate { buffer })
    }
}

/// A marshaled public area (`TPM2B_PUBLIC`).
#[derive(Debug, Clone)]
pub struct Tpm2bPublic {
    pub buffer: Vec<u8>,
}

impl View for Tpm2bPublic {
    type V = Seq<u8>;

    open spec fn view(&self) -> Seq<u8> {
        self.buffer@
    }
}

impl Tpm2bPublic {
    /// The most bytes that the buffer may hold.
    pub const MAX_BYTES: usize = 65535;

    pub open spec fn wf(&self) -> bool {
        self.buffer@.len() <= 65535
    }

    /// The empty buffer.
    pub fn empty() -> (b: Tpm2bPublic)
        ensures
            b@ == Seq::<u8>::empty(),
    {
        Tpm2bPublic { buffer: Vec::new() }
    }

    /// A buffer holding `bytes`; fails where they are too long.
    pub fn from_bytes(bytes: &[u8]) -> (r: Result<Tpm2bPublic, Error>)
        ensures
            match r {
                Ok(b) => bytes@.len() <= 65535 && b@ == bytes@,
                Err(e) => bytes@.len() > 65535 && e == (Error::TooLong { name: "Tpm2bPublic", max: 65535 }),
            },
    {
        if bytes.len() > 65535 {
            return Err(Error::TooLong { name: "Tpm2bPublic", max: 65535 });
        }
        Ok(Tpm2bPublic { buffer: slice_to_vec(bytes) })
    }

    pub fn as_bytes(&self) -> (b: &[u8])
        ensures
            b@ == self@,
    {
        self.buffer.as_slice()
    }

    pub fn size(&self) -> (n: usize)
        ensures
            n == self@.len(),
    {
        self.buffer.len()
    }

    pub fn is_empty(&self) -> (b: bool)
        ensures
            b == (self@.len() == 0),
    {
        self.buffer.len() == 0
    }

    pub fn marshal(&self, buf: &mut Vec<u8>) -> (r: Result<(), Error>)
        ensures
            match r {
                Ok(()) => self@.len() <= 0xffff && final(buf)@ == old(buf)@ + tpm2b_bytes(self@),
                Err(e) => self@.len() > 0xffff && e is Internal && final(buf)@ == old(buf)@,
            },
    {
        marshal_tpm2b(buf, self.buffer.as_slice())
    }

    pub fn unmarshal(input: &mut &[u8]) -> (r: Result<Tpm2bPublic, Error>)
        ensures
            final(input)@.len() <= old(input)@.len(),
            match r {
                Ok(b) => spec_parse_tpm2b_max(old(input)@, 65535) == Some((b@, final(input)@)),
                Err(e) => spec_parse_tpm2b_max(old(input)@, 65535) is None && e is InvalidData,
            },
    {
        let buffer = read_tpm2b(input)?;
        if buffer.len() > 65535 {
            return Err(Error::InvalidData);
        }
        Ok(Tpm2bPublic { buffer })
    }
}

/// An RSA public key or cipher text (`TPM2B_PUBLIC_KEY_RSA`).
#[derive(Debug, Clone)]
pub struct Tpm2bPublicKeyRsa {
    pub buffer: Vec<u8>,
}

impl View for Tpm2bPublicKeyRsa {
    type V = Seq<u8>;

    open spec fn view(&self) -> Seq<u8> {
        self.buffer@
    }
}

impl Tpm2bPublicKeyRsa {
    /// The most bytes that the buffer may hold.
    pub const MAX_BYTES: usize = 512;

    pub open spec fn wf(&self) -> bool {
        self.buffer@.len() <= 512
    }

    /// The empty buffer.
    pub fn empty() -> (b: Tpm2bPublicKeyRsa)
        ensures
            b@ == Seq::<u8>::empty(),
    {
        Tpm2bPublicKeyRsa { buffer: Vec::new() }
    }

    /// A buffer holding `bytes`; fails where they are too long.
    pub fn from_bytes(bytes: &[u8]) -> (r: Result<Tpm2bPublicKeyRsa, Error>)
        ensures
            match r {
                Ok(b) => bytes@.len() <= 512 && b@ == bytes@,
                Err(e) => bytes@.len() > 512 && e == (Error::TooLong { name: "Tpm2bPublicKeyRsa", max: 512 }),
            },
    {
        if bytes.len() > 512 {
            return Err(Error::TooLong { name: "Tpm2bPublicKeyRsa", max: 512 });
        }
        Ok(Tpm2bPublicKeyRsa { buffer: slice_to_vec(bytes) })
    }

    pub fn as_bytes(&self) -> (b: &[u8])
        ensures
            b@ == self@,
    {
        self.buffer.as_slice()
    }

    pub fn size(&self) -> (n: usize)
        ensures
            n == self@.len(),
    {
        self.buffer.len()
    }

    pub fn is_empty(&self) -> (b: bool)
        ensures
            b == (self@.len() == 0),
    {
        self.buffer.len() == 0
    }

    pub fn marshal(&self, buf: &mut Vec<u8>) -> (r: Result<(), Error>)
        ensures
            match r {
                Ok(()) => self@.len() <= 0xffff && final(buf)@ == old(buf)@ + tpm2b_bytes(self@),
                Err(e) => self@.len() > 0xffff && e is Internal && final(buf)@ == old(buf)@,
            },
    {
        marshal_tpm2b(buf, self.buffer.as_slice())
    }

    pub fn unmarshal(input: &mut &[u8]) -> (r: Result<Tpm2bPublicKeyRsa, Error>)
        ensures
            final(input)@.len() <= old(input)@.len(),
            match r {
                Ok(b) => spec_parse_tpm2b_max(old(input)@, 512) == Some((b@, final(input)@)),
                Err(e) => spec_parse_tpm2b_max(old(input)@, 512) is None && e is InvalidData,
            },
    {
        let buffer = read_tpm2b(input)?;
        if buffer.len() > 512 {
            return Err(Error::InvalidData);
        }
        Ok(Tpm2bPublicKeyRsa { buffer })
    }
}

/// Sensitive data of a created object (`TPM2B_SENSITIVE_DATA`).
#[derive(Debug, Clone)]
pub struct Tpm2bSensitiveData {
    pub buffer: Vec<u8>,
}

impl View for Tpm2bSensitiveData {
    type V = Seq<u8>;

    open spec fn view(&self) -> Seq<u8> {
        self.buffer@
    }
}

impl Tpm2bSensitiveData {
    /// The most bytes that the buffer may hold.
    pub const MAX_BYTES: usize = 128;

    pub open spec fn wf(&self) -> bool {
        self.buffer@.len() <= 128
    }

    /// The empty buffer.
    pub fn empty() -> (b: Tpm2bSensitiveData)
        ensures
            b@ == Seq::<u8>::empty(),
    {
        Tpm2bSensitiveData { buffer: Vec::new() }
    }

    /// A buffer holding `bytes`; fails where they are too long.
    pub fn from_bytes(bytes: &[u8]) -> (r: Result<Tpm2bSensitiveData, Error>)
        ensures
            match r {
                Ok(b) => bytes@.len() <= 128 && b@ == bytes@,
                Err(e) => bytes@.len() > 128 && e == (Error::TooLong { name: "Tpm2bSensitiveData", max: 128 }),
            },
    {
        if bytes.len() > 128 {
            return Err(Error::TooLong { name: "Tpm2bSensitiveData", max: 128 });
        }
        Ok(Tpm2bSensitiveData { buffer: slice_to_vec(bytes) })
    }

    pub fn as_bytes(&self) -> (b: &[u8])
        ensures
            b@ == self@,
    {
        self.buffer.as_slice()
    }

    pub fn size(&self) -> (n: usize)
        ensures
            n == self@.len(),
    {
        self.buffer.len()
    }

    pub fn is_empty(&self) -> (b: bool)
        ensures
            b == (self@.len() == 0),
    {
        self.buffer.len() == 0
    }

    pub fn marshal(&self, buf: &mut Vec<u8>) -> (r: Result<(), Error>)
        ensures
            match r {
                Ok(()) => self@.len() <= 0xffff && final(buf)@ == old(buf)@ + tpm2b_bytes(self@),
                Err(e) => self@.len() > 0xffff && e is Internal && final(buf)@ == old(buf)@,
            },
    {
        marshal_tpm2b(buf, self.buffer.as_slice())
    }

    pub fn unmarshal(input: &mut &[u8]) -> (r: Result<Tpm2bSensitiveData, Error>)
        ensures
            final(input)@.len() <= old(input)@.len(),
            match r {
                Ok(b) => spec_parse_tpm2b_max(old(input)@, 128) == Some((b@, final(input)@)),
                Err(e) => spec_parse_tpm2b_max(old(input)@, 128) is None && e is InvalidData,
            },
    {
        let buffer = read_tpm2b(input)?;
        if buffer.len() > 128 {
            return Err(Error::InvalidData);
        }
        Ok(Tpm2bSensitiveData { buffer })
    }
}

/// An encrypted secret (`TPM2B_ENCRYPTED_SECRET`).
#[derive(Debug, Clone)]
pub struct Tpm2bEncryptedSecret {
    pub buffer: Vec<u8>,
}

impl View for Tpm2bEncryptedSecret {
    type V = Seq<u8>;

    open spec fn view(&self) -> Seq<u8> {
        self.buffer@
    }
}

impl Tpm2bEncryptedSecret {
    /// The most bytes that the buffer may hold.
    pub const MAX_BYTES: usize = 512;

    pub open spec fn wf(&self) -> bool {
        self.buffer@.len() <= 512
    }

    /// The empty buffer.
    pub fn empty() -> (b: Tpm2bEncryptedSecret)
        ensures
            b@ == Seq::<u8>::empty(),
    {
        Tpm2bEncryptedSecret { buffer: Vec::new() }
    }

    /// A buffer holding `bytes`; fails where they are too long.
    pub fn from_bytes(bytes: &[u8]) -> (r: Result<Tpm2bEncryptedSecret, Error>)
        ensures
            match r {
                Ok(b) => bytes@.len() <= 512 && b@ == bytes@,
                Err(e) => bytes@.len() > 512 && e == (Error::TooLong { name: "Tpm2bEncryptedSecret", max: 512 }),
            },
    {
        if bytes.len() > 512 {
            return Err(Error::TooLong { name: "Tpm2bEncryptedSecret", max: 512 });
        }
        Ok(Tpm2bEncryptedSecret { buffer: slice_to_vec(bytes) })
    }

    pub fn as_bytes(&self) -> (b: &[u8])
        ensures
            b@ == self@,
    {
        self.buffer.as_slice()
    }

    pub fn size(&self) -> (n: usize)
        ensures
            n == self@.len(),
    {
        self.buffer.len()
    }

    pub fn is_empty(&self) -> (b: bool)
        ensures
            b == (self@.len() == 0),
    {
        self.buffer.len() == 0
    }

    pub fn marshal(&self, buf: &mut Vec<u8>) -> (r: Result<(), Error>)
        ensures
            match r {
                Ok(()) => self@.len() <= 0xffff && final(buf)@ == old(buf)@ + tpm2b_bytes(self@),
                Err(e) => self@.len() > 0xffff && e is Internal && final(buf)@ == old(buf)@,
            },
    {
        marshal_tpm2b(buf, self.buffer.as_slice())
    }

    pub fn unmarshal(input: &mut &[u8]) -> (r: Result<Tpm2bEncryptedSecret, Error>)
        ensures
            final(input)@.len() <= old(input)@.len(),
            match r {
                Ok(b) => spec_parse_tpm2b_max(old(input)@, 512) == Some((b@, final(input)@)),
                Err(e) => spec_parse_tpm2b_max(old(input)@, 512) is None && e is InvalidData,
            },
    {
        let buffer = read_tpm2b(input)?;
        if buffer.len() > 512 {
            return Err(Error::InvalidData);
        }
        Ok(Tpm2bEncryptedSecret { buffer })
    }
}

/// The most digests that a digest list may hold.
pub const TPML_DIGEST_MAX_COUNT: usize = 8;

/// A list of digests (`TPML_DIGEST`).
#[derive(Debug, Clone)]
pub struct TpmlDigest {
    pub digests: Vec<Tpm2bDigest>,
}

pub open spec fn digest_views(ds: Seq<Tpm2bDigest>) -> Seq<Seq<u8>> {
    ds.map_values(|d: Tpm2bDigest| d@)
}

impl View for TpmlDigest {
    type V = Seq<Seq<u8>>;

    open spec fn view(&self) -> Seq<Seq<u8>> {
        digest_views(self.digests@)
    }
}

/// Whether a list of digests may be marshaled as a `TPML_DIGEST`.
pub open spec fn digest_list_wf(ds: Seq<Seq<u8>>) -> bool {
    &&& ds.len() <= TPML_DIGEST_MAX_COUNT
    &&& forall|i: int| 0 <= i < ds.len() ==> #[trigger] ds[i].len() <= 64
}

/// Reads one digest of a `TPML_DIGEST`.
pub open spec fn digest_item() -> spec_fn(Seq<u8>) -> Option<(Seq<u8>, Seq<u8>)> {
    |t: Seq<u8>| spec_parse_tpm2b_max(t, 64)
}

/// A `TPML_DIGEST` at the front of `s`.
pub open spec fn spec_parse_digest_list(s: Seq<u8>) -> Option<(Seq<Seq<u8>>, Seq<u8>)> {
    match spec_read_u32(s) {
        Some((count, rest)) => if count <= TPML_DIGEST_MAX_COUNT {
            spec_parse_n(rest, count as nat, digest_item())
        } else {
            None
        },
        None => None,
    }
}

/// The bytes of a `TPML_DIGEST`.
pub open spec fn digest_list_bytes(ds: Seq<Seq<u8>>) -> Seq<u8> {
    u32_bytes(ds.len() as u32) + crate::wire::concat_map(ds, |d: Seq<u8>| tpm2b_bytes(d))
}

impl TpmlDigest {
    pub fn default() -> (l: TpmlDigest)
        ensures
            l@ == Seq::<Seq<u8>>::empty(),
    {
        let l = TpmlDigest { digests: Vec::new() };
        assert(l@ =~= Seq::<Seq<u8>>::empty());
        l
    }

    pub fn items(&self) -> (items: &[Tpm2bDigest])
        ensures
            items@ == self.digests@,
    {
        self.digests.as_slice()
    }

    pub fn len(&self) -> (n: usize)
        ensures
            n == self@.len(),
    {
        self.digests.len()
    }

    pub fn marshal(&self, buf: &mut Vec<u8>) -> (r: Result<(), Error>)
        ensures
            match r {
                Ok(()) => digest_list_wf(self@) && final(buf)@ == old(buf)@ + digest_list_bytes(self@),
                Err(e) => !digest_list_wf(self@) && e is Internal,
            },
    {
        let n = self.digests.len();
        if n > TPML_DIGEST_MAX_COUNT {
            return Err(Error::invalid_state("TPML_DIGEST holds too many digests"));
        }
        let ghost start = buf@;
        marshal_u32(buf, n as u32);
        let mut i: usize = 0;
        while i < n
            invariant
                n == self.digests@.len(),
                n <= TPML_DIGEST_MAX_COUNT,
                0 <= i <= n,
                forall|j: int| 0 <= j < i ==> #[trigger] self.digests@[j]@.len() <= 64,
                buf@ == start + u32_bytes(n as u32) + crate::wire::concat_map(
                    digest_views(self.digests@).take(i as int),
                    |d: Seq<u8>| tpm2b_bytes(d),
                ),
            decreases n - i,
        {
            let d = &self.digests[i];
            if d.buffer.len() > 64 {
                assert(self@[i as int] == d@);
                return Err(Error::invalid_state("TPM2B_DIGEST holds too many bytes"));
            }
            let ghost before = buf@;
            let _ = d.marshal(buf);
            let ghost ds = digest_views(self.digests@);
            assert(ds.take(i + 1).drop_last() =~= ds.take(i as int));
            assert(ds.take(i + 1).last() == d@);
            i += 1;
        }
        assert(digest_views(self.digests@).take(n as int) =~= digest_views(self.digests@));
        Ok(())
    }

    pub fn unmarshal(input: &mut &[u8]) -> (r: Result<TpmlDigest, Error>)
        ensures
            final(input)@.len() <= old(input)@.len(),
            match r {
                Ok(l) => spec_parse_digest_list(old(input)@) == Some((l@, final(input)@)),
                Err(e) => spec_parse_digest_list(old(input)@) is None && e is InvalidData,
            },
    {
        let ghost s0 = input@;
        let count = read_u32(input)?;
        if count as usize > TPML_DIGEST_MAX_COUNT {
            return Err(Error::InvalidData);
        }
        let ghost s1 = input@;
        let mut digests: Vec<Tpm2bDigest> = Vec::new();
        let mut i: u32 = 0;
        while i < count
            invariant
                0 <= i <= count,
                count <= TPML_DIGEST_MAX_COUNT,
                spec_read_u32(old(input)@) == Some((count, s1)),
                s1.len() <= old(input)@.len(),
                input@.len() <= s1.len(),
                spec_parse_n(s1, i as nat, digest_item()) == Some((digest_views(digests@), input@)),
            decreases count - i,
        {
            let ghost before = input@;
            let ghost ds = digest_views(digests@);
            match Tpm2bDigest::unmarshal(input) {
                Ok(d) => {
                    digests.push(d);
                    assert(digest_views(digests@) =~= ds.push(d@));
                }
                Err(e) => {
                    proof {
                        lemma_parse_n_fails_after(s1, i as nat, count as nat, digest_item());
                    }
                    return Err(e);
                }
            }
            i += 1;
        }
        Ok(TpmlDigest { digests })
    }
}

/// Once `n` items cannot be read, neither can more.
pub proof fn lemma_parse_n_fails_after<T>(
    s: Seq<u8>,
    n: nat,
    m: nat,
    item: spec_fn(Seq<u8>) -> Option<(T, Seq<u8>)>,
)
    requires
        n < m,
        spec_parse_n(s, n, item) matches Some((_, rest)) ==> item(rest) is None,
    ensures
        spec_parse_n(s, m, item) is None,
    decreases m,
{
    if m > n + 1 {
        lemma_parse_n_fails_after(s, n, (m - 1) as nat, item);
    }
}

} // verus!
