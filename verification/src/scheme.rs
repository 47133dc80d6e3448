//! The RSA decryption scheme and encrypted secret of the commands that wrap
//! keys and start salted sessions.
use vstd::prelude::*;
use vstd::std_specs::convert::TryFromSpecImpl;

use crate::error::Error;
use crate::tpm::{TpmAlgId, TpmiAlgHash, ALG_NULL, ALG_OAEP, ALG_RSAES, ALG_SHA256};
use crate::wire::{marshal_u16, u16_bytes};

verus! {

/// The most bytes that an RSA encrypted secret holds: a 4096-bit modulus.
pub const RSA_SECRET_MAX_BYTES: usize = 512;

/// A hash scheme (`TPMS_SCHEME_HASH`).
#[derive(Debug, Clone, Copy, PartialEq, Eq, Structural)]
pub struct TpmsSchemeHash {
    pub hash_alg: TpmiAlgHash,
}

/// The details of an RSA scheme (`TPMU_RSA_SCHEME`).
#[derive(Debug, Clone, Copy, PartialEq, Eq, Structural)]
pub enum TpmuRsaScheme {
    Oaep(TpmsSchemeHash),
    Null,
}

/// An RSA decryption scheme algorithm (`TPMI_ALG_RSA_DECRYPT`).
#[derive(Debug, Clone, Copy, PartialEq, Eq, Structural)]
pub struct TpmiAlgRsaDecrypt(pub TpmAlgId);

pub open spec fn is_rsa_decrypt_alg(v: u16) -> bool {
    v == ALG_RSAES || v == ALG_OAEP || v == ALG_NULL
}

impl TryFrom<TpmAlgId> for TpmiAlgRsaDecrypt {
    type Error = Error;

    fn try_from(alg: TpmAlgId) -> (r: Result<TpmiAlgRsaDecrypt, Error>) {
        let v = alg.value();
        if v == ALG_RSAES || v == ALG_OAEP || v == ALG_NULL {
            Ok(TpmiAlgRsaDecrypt(alg))
        } else {
            Err(Error::conversion())
        }
    }
}

impl TryFromSpecImpl<TpmAlgId> for TpmiAlgRsaDecrypt {
    open spec fn obeys_try_from_spec() -> bool {
        true
    }

    open spec fn try_from_spec(alg: TpmAlgId) -> Result<TpmiAlgRsaDecrypt, Error> {
        if is_rsa_decrypt_alg(alg.0) {
            Ok(TpmiAlgRsaDecrypt(alg))
        } else {
            Err(Error::Internal)
        }
    }
}

/// An RSA decryption scheme (`TPMT_RSA_DECRYPT`).
#[derive(Debug, Clone, Copy, PartialEq, Eq, Structural)]
pub struct TpmtRsaDecrypt {
    scheme: TpmiAlgRsaDecrypt,
    details: TpmuRsaScheme,
}

/// The bytes of a scheme: its algorithm, then the hash of an OAEP scheme.
pub open spec fn rsa_decrypt_bytes(scheme: u16, details: TpmuRsaScheme) -> Seq<u8> {
    u16_bytes(scheme) + match details {
        TpmuRsaScheme::Oaep(h) => u16_bytes(h.hash_alg.0),
        TpmuRsaScheme::Null => Seq::empty(),
    }
}

impl TpmtRsaDecrypt {
    /// OAEP with SHA-256.
    pub fn oaep() -> (s: TpmtRsaDecrypt)
        ensures
            s.parts_spec() == (
                TpmiAlgRsaDecrypt(TpmAlgId(ALG_OAEP)),
                TpmuRsaScheme::Oaep(TpmsSchemeHash { hash_alg: TpmiAlgHash(ALG_SHA256) }),
            ),
    {
        TpmtRsaDecrypt {
            scheme: TpmiAlgRsaDecrypt(TpmAlgId(ALG_OAEP)),
            details: TpmuRsaScheme::Oaep(TpmsSchemeHash { hash_alg: TpmiAlgHash::sha256() }),
        }
    }

    pub closed spec fn parts_spec(&self) -> (TpmiAlgRsaDecrypt, TpmuRsaScheme) {
        (self.scheme, self.details)
    }

    /// The algorithm and the details.
    pub fn parts(&self) -> (p: (TpmiAlgRsaDecrypt, TpmuRsaScheme))
        ensures
            p == self.parts_spec(),
    {
        (self.scheme, self.details)
    }

    pub fn marshal(&self, buf: &mut Vec<u8>)
        ensures
            final(buf)@ == old(buf)@ + rsa_decrypt_bytes(self.parts_spec().0.0.0, self.parts_spec().1),
    {
        let ghost start = buf@;
        marshal_u16(buf, self.scheme.0.value());
        match self.details {
            TpmuRsaScheme::Oaep(h) => marshal_u16(buf, h.hash_alg.value()),
            TpmuRsaScheme::Null => {},
        }
        assert(buf@ =~= start + rsa_decrypt_bytes(self.parts_spec().0.0.0, self.parts_spec().1));
    }
}

/// An encrypted secret (`TPMU_ENCRYPTED_SECRET`).
#[derive(Debug, Clone)]
pub enum TpmuEncryptedSecret {
    Rsa(Vec<u8>),
}

impl TpmuEncryptedSecret {
    /// An RSA encrypted secret; fails where it is longer than a 4096-bit modulus.
    pub fn rsa(value: Vec<u8>) -> (r: Result<TpmuEncryptedSecret, Error>)
        ensures
            match r {
                Ok(s) => value@.len() <= RSA_SECRET_MAX_BYTES && s.value_spec() == value@,
                Err(e) => value@.len() > RSA_SECRET_MAX_BYTES && e is Internal,
            },
    {
        if value.len() <= RSA_SECRET_MAX_BYTES {
            Ok(TpmuEncryptedSecret::Rsa(value))
        } else {
            Err(Error::invalid_state("RSA encrypted secret exceeds maximum size"))
        }
    }

    pub open spec fn value_spec(&self) -> Seq<u8> {
        match self {
            TpmuEncryptedSecret::Rsa(v) => v@,
        }
    }

    /// The bytes of the secret.
    pub fn value(&self) -> (v: &[u8])
        ensures
            v@ == self.value_spec(),
    {
        match self {
            TpmuEncryptedSecret::Rsa(value) => value.as_slice(),
        }
    }
}

} // verus!
