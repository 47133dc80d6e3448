//! The public area of an object (`TPMT_PUBLIC`), read far enough to check
//! its shape and to take the public modulus of an RSA key.
use vstd::prelude::*;

use crate::error::Error;
use crate::tpm::{Tpm2bPublic, Tpm2bPublicKeyRsa};
use crate::wire::{read_tpm2b, read_u16, read_u32, spec_read_tpm2b, spec_read_u16, spec_read_u32};

verus! {

pub const ALG_RSA: u16 = 0x0001;
pub const ALG_HMAC: u16 = 0x0005;
pub const ALG_KEYEDHASH: u16 = 0x0008;
pub const ALG_XOR: u16 = 0x000A;
pub const ALG_NULL: u16 = 0x0010;
pub const ALG_RSAES: u16 = 0x0015;
pub const ALG_ECDAA: u16 = 0x001A;
pub const ALG_ECC: u16 = 0x0023;
pub const ALG_SYMCIPHER: u16 = 0x0025;

/// The unique field of a public area (`TPMU_PUBLIC_ID`), by the area's type.
#[derive(Debug)]
pub enum PublicUnique {
    /// The public modulus of an RSA key.
    Rsa(Vec<u8>),
    /// The public point of an ECC key.
    Ecc { x: Vec<u8>, y: Vec<u8> },
    /// The digest of a keyed hash object.
    KeyedHash(Vec<u8>),
    /// The digest of a symmetric cipher object.
    SymCipher(Vec<u8>),
}

/// What a unique field holds.
pub ghost enum UniqueModel {
    Rsa(Seq<u8>),
    Ecc(Seq<u8>, Seq<u8>),
    KeyedHash(Seq<u8>),
    SymCipher(Seq<u8>),
}

impl View for PublicUnique {
    type V = UniqueModel;

    open spec fn view(&self) -> UniqueModel {
        match self {
            PublicUnique::Rsa(n) => UniqueModel::Rsa(n@),
            PublicUnique::Ecc { x, y } => UniqueModel::Ecc(x@, y@),
            PublicUnique::KeyedHash(d) => UniqueModel::KeyedHash(d@),
            PublicUnique::SymCipher(d) => UniqueModel::SymCipher(d@),
        }
    }
}

/// What follows a `u16` at the front of `s`.
pub open spec fn after_u16(s: Seq<u8>) -> Option<Seq<u8>> {
    match spec_read_u16(s) {
        Some((_, r)) => Some(r),
        None => None,
    }
}

/// What follows two `u16` at the front of `s`.
pub open spec fn after_two_u16(s: Seq<u8>) -> Option<Seq<u8>> {
    match after_u16(s) {
        Some(r) => after_u16(r),
        None => None,
    }
}

/// What follows a `TPMT_SYM_DEF_OBJECT`: the algorithm; for XOR a hash; for
/// NULL nothing; for a block cipher its key size and mode.
pub open spec fn spec_skip_sym_def(s: Seq<u8>) -> Option<Seq<u8>> {
    match spec_read_u16(s) {
        Some((alg, r)) => if alg == ALG_NULL {
            Some(r)
        } else if alg == ALG_XOR {
            after_u16(r)
        } else {
            after_two_u16(r)
        },
        None => None,
    }
}

/// What follows a scheme that has a hash unless it is NULL or one of
/// `no_hash`, and a counter too where it is `with_count`.
pub open spec fn spec_skip_scheme(s: Seq<u8>, no_hash: u16, with_count: u16) -> Option<Seq<u8>> {
    match spec_read_u16(s) {
        Some((scheme, r)) => if scheme == ALG_NULL || scheme == no_hash {
            Some(r)
        } else if scheme == with_count {
            after_two_u16(r)
        } else {
            after_u16(r)
        },
        None => None,
    }
}

/// The unique field of a public area after its parameters, by type: the
/// modulus of an RSA key, the point of an ECC key (two TPM2B), the digest of
/// a keyed hash or symmetric object; and what follows it.
pub open spec fn spec_parms_and_unique(alg_type: u16, s: Seq<u8>) -> Option<(UniqueModel, Seq<u8>)> {
    if alg_type == ALG_RSA {
        match spec_skip_sym_def(s) {
            Some(r1) => match spec_skip_scheme(r1, ALG_RSAES, 0) {
                Some(r2) => match after_u16(r2) {
                    Some(r3) => match spec_read_u32(r3) {
                        Some((_, r4)) => match spec_read_tpm2b(r4) {
                            Some((n, r5)) => Some((UniqueModel::Rsa(n), r5)),
                            None => None,
                        },
                        None => None,
                    },
                    None => None,
                },
                None => None,
            },
            None => None,
        }
    } else if alg_type == ALG_ECC {
        match spec_skip_sym_def(s) {
            Some(r1) => match spec_skip_scheme(r1, 0, ALG_ECDAA) {
                Some(r2) => match after_u16(r2) {
                    Some(r3) => match spec_skip_scheme(r3, 0, 0) {
                        Some(r4) => match spec_read_tpm2b(r4) {
                            Some((x, r5)) => match spec_read_tpm2b(r5) {
                                Some((y, r6)) => Some((UniqueModel::Ecc(x, y), r6)),
                                None => None,
                            },
                            None => None,
                        },
                        None => None,
                    },
                    None => None,
                },
                None => None,
            },
            None => None,
        }
    } else if alg_type == ALG_KEYEDHASH {
        match spec_read_u16(s) {
            Some((scheme, r1)) => {
                let r2 = if scheme == ALG_NULL {
                    Some(r1)
                } else if scheme == ALG_XOR {
                    after_two_u16(r1)
                } else {
                    after_u16(r1)
                };
                match r2 {
                    Some(r) => match spec_read_tpm2b(r) {
                        Some((d, r3)) => Some((UniqueModel::KeyedHash(d), r3)),
                        None => None,
                    },
                    None => None,
                }
            },
            None => None,
        }
    } else if alg_type == ALG_SYMCIPHER {
        match spec_skip_sym_def(s) {
            Some(r1) => match spec_read_tpm2b(r1) {
                Some((d, r2)) => Some((UniqueModel::SymCipher(d), r2)),
                None => None,
            },
            None => None,
        }
    } else {
        None
    }
}

/// A public area that fills `s` exactly: its type and its unique field.
pub open spec fn spec_parse_public(s: Seq<u8>) -> Option<(u16, UniqueModel)> {
    match spec_read_u16(s) {
        Some((alg_type, r1)) => match after_u16(r1) {
            Some(r2) => match spec_read_u32(r2) {
                Some((_, r3)) => match spec_read_tpm2b(r3) {
                    Some((_, r4)) => match spec_parms_and_unique(alg_type, r4) {
                        Some((unique, r5)) => if r5.len() == 0 {
                            Some((alg_type, unique))
                        } else {
                            None
                        },
                        None => None,
                    },
                    None => None,
                },
                None => None,
            },
            None => None,
        },
        None => None,
    }
}

fn skip_u16(input: &mut &[u8]) -> (r: Result<(), Error>)
    ensures
        match after_u16(old(input)@) {
            Some(rest) => r is Ok && final(input)@ == rest,
            None => r matches Err(e) && e is InvalidData,
        },
{
    read_u16(input)?;
    Ok(())
}

fn skip_sym_def(input: &mut &[u8]) -> (r: Result<(), Error>)
    ensures
        match spec_skip_sym_def(old(input)@) {
            Some(rest) => r is Ok && final(input)@ == rest,
            None => r matches Err(e) && e is InvalidData,
        },
{
    let alg = read_u16(input)?;
    if alg == ALG_NULL {
        Ok(())
    } else if alg == ALG_XOR {
        skip_u16(input)
    } else {
        skip_u16(input)?;
        skip_u16(input)
    }
}

fn skip_scheme(input: &mut &[u8], no_hash: u16, with_count: u16) -> (r: Result<(), Error>)
    ensures
        match spec_skip_scheme(old(input)@, no_hash, with_count) {
            Some(rest) => r is Ok && final(input)@ == rest,
            None => r matches Err(e) && e is InvalidData,
        },
{
    let scheme = read_u16(input)?;
    if scheme == ALG_NULL || scheme == no_hash {
        Ok(())
    } else if scheme == with_count {
        skip_u16(input)?;
        skip_u16(input)
    } else {
        skip_u16(input)
    }
}

fn parms_and_unique(alg_type: u16, input: &mut &[u8]) -> (r: Result<PublicUnique, Error>)
    ensures
        match spec_parms_and_unique(alg_type, old(input)@) {
            Some((unique, rest)) => r matches Ok(u) && u@ == unique && final(input)@ == rest,
            None => r matches Err(e) && e is InvalidData,
        },
{
    if alg_type == ALG_RSA {
        skip_sym_def(input)?;
        skip_scheme(input, ALG_RSAES, 0)?;
        skip_u16(input)?;
        read_u32(input)?;
        Ok(PublicUnique::Rsa(read_tpm2b(input)?))
    } else if alg_type == ALG_ECC {
        skip_sym_def(input)?;
        skip_scheme(input, 0, ALG_ECDAA)?;
        skip_u16(input)?;
        skip_scheme(input, 0, 0)?;
        let x = read_tpm2b(input)?;
        let y = read_tpm2b(input)?;
        Ok(PublicUnique::Ecc { x, y })
    } else if alg_type == ALG_KEYEDHASH {
        let scheme = read_u16(input)?;
        if scheme == ALG_NULL {
        } else if scheme == ALG_XOR {
            skip_u16(input)?;
            skip_u16(input)?;
        } else {
            skip_u16(input)?;
        }
        Ok(PublicUnique::KeyedHash(read_tpm2b(input)?))
    } else if alg_type == ALG_SYMCIPHER {
        skip_sym_def(input)?;
        Ok(PublicUnique::SymCipher(read_tpm2b(input)?))
    } else {
        Err(Error::InvalidData)
    }
}

/// The type and unique field of the public area `bytes`, which must hold a
/// public area and nothing after it; a malformed area is invalid data.
pub fn parse_public_area(bytes: &[u8]) -> (r: Result<(u16, PublicUnique), Error>)
    ensures
        match spec_parse_public(bytes@) {
            Some((t, unique)) => r matches Ok((a, u)) && a == t && u@ == unique,
            None => r matches Err(e) && e is InvalidData,
        },
{
    let mut input = bytes;
    let alg_type = read_u16(&mut input)?;
    skip_u16(&mut input)?;
    read_u32(&mut input)?;
    read_tpm2b(&mut input)?;
    let unique = parms_and_unique(alg_type, &mut input)?;
    if input.len() != 0 {
        return Err(Error::InvalidData);
    }
    Ok((alg_type, unique))
}

impl Tpm2bPublic {
    /// The unique field of the public area; a malformed area is invalid data.
    pub fn unique(&self) -> (r: Result<PublicUnique, Error>)
        ensures
            match spec_parse_public(self@) {
                Some((_, unique)) => r matches Ok(u) && u@ == unique,
                None => r matches Err(e) && e is InvalidData,
            },
    {
        let (_, unique) = parse_public_area(self.buffer.as_slice())?;
        Ok(unique)
    }
}

/// The RSA public modulus of a unique field; another kind of field is an
/// error, and so is a modulus longer than 512 bytes.
pub fn into_rsa_public_unique(unique: PublicUnique) -> (r: Result<Tpm2bPublicKeyRsa, Error>)
    ensures
        match unique@ {
            UniqueModel::Rsa(n) => if n.len() <= 512 {
                r matches Ok(k) && k@ == n
            } else {
                r matches Err(e) && e is TooLong
            },
            _ => r matches Err(e) && e is Internal,
        },
{
    match unique {
        PublicUnique::Rsa(modulus) => Tpm2bPublicKeyRsa::from_bytes(modulus.as_slice()),
        _ => Err(Error::invalid_state("expected RSA public unique")),
    }
}

} // verus!
