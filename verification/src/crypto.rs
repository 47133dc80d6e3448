//! Session cryptography: command and response HMACs, the key derivation of
//! session keys and parameter-encryption keys, and AES-128 in CFB mode.
use vstd::prelude::*;

use aes::cipher::{BlockEncrypt, KeyInit};
use base64::Engine;
use hmac::Mac;
use rand::RngCore;
use sha2::Digest;

use crate::error::Error;
use crate::response::TpmsAuthResponse;
use crate::rc::RC_SUCCESS;
use crate::tpm::{Tpm2bAuth, Tpm2bNonce, TpmCc};
use crate::types::TpmaSession;
use crate::wire::{concat_map, extend_bytes, marshal_u32, marshal_u8, u32_bytes};
use vstd::slice::{slice_subrange, slice_to_vec};

verus! {

/// The block size of AES.
pub const AES_BLOCK_SIZE: usize = 16;
/// The size of a SHA-256 digest and of an HMAC-SHA256 tag.
pub const SHA256_SIZE: usize = 32;
/// The size of the nonces the library picks.
pub const NONCE_SIZE: usize = 32;
/// The number of bits that the key derivations produce.
pub const KDF_BITS: u32 = 256;

/// The SHA-256 digest of `data`.
pub uninterp spec fn spec_sha256(data: Seq<u8>) -> Seq<u8>;

/// The block size of SHA-256, which HMAC pads its key to.
pub const SHA256_BLOCK_SIZE: usize = 64;

/// The key of an HMAC-SHA256 padded to one block: a key longer than a block
/// is hashed first; zeros fill the rest.
pub open spec fn hmac_key_block(key: Seq<u8>) -> Seq<u8> {
    let k = if key.len() > SHA256_BLOCK_SIZE {
        spec_sha256(key)
    } else {
        key
    };
    k + Seq::new((SHA256_BLOCK_SIZE - k.len()) as nat, |i: int| 0u8)
}

/// Each byte of `k` exclusive-or `pad`.
pub open spec fn xor_pad(k: Seq<u8>, pad: u8) -> Seq<u8> {
    Seq::new(k.len(), |i: int| k[i] ^ pad)
}

/// The HMAC-SHA256 tag of `data` under `key` (RFC 2104): the digest of the
/// outer padded key and the digest of the inner padded key and the data.
pub open spec fn spec_hmac_sha256(key: Seq<u8>, data: Seq<u8>) -> Seq<u8> {
    let kb = hmac_key_block(key);
    spec_sha256(xor_pad(kb, 0x5cu8) + spec_sha256(xor_pad(kb, 0x36u8) + data))
}

/// The AES-128 encryption of one block under `key`.
pub uninterp spec fn spec_aes128_encrypt_block(key: Seq<u8>, block: Seq<u8>) -> Seq<u8>;

/// `sha2::Sha256::digest`: the SHA-256 digest of `data`, which is 32 bytes long.
#[verifier::external_body]
fn sha256(data: &[u8]) -> (d: Vec<u8>)
    ensures
        d@ == spec_sha256(data@),
        d@.len() == SHA256_SIZE,
{
    sha2::Sha256::digest(data).to_vec()
}

/// An authorization value as the library keeps it: a value longer than a
/// SHA-256 digest is replaced by its SHA-256 digest, so that it always fits
/// the objects the library makes; a shorter one is kept as it is.
pub open spec fn spec_normalize_auth(value: Seq<u8>) -> Seq<u8> {
    if value.len() > SHA256_SIZE {
        spec_sha256(value)
    } else {
        value
    }
}

impl Tpm2bAuth {
    /// The authorization value `value` as the library keeps it; it never fails.
    pub fn normalize_sha256(value: &[u8]) -> (a: Tpm2bAuth)
        ensures
            a@ == spec_normalize_auth(value@),
            a@.len() <= SHA256_SIZE,
    {
        if value.len() > SHA256_SIZE {
            Tpm2bAuth { buffer: sha256(value) }
        } else {
            Tpm2bAuth { buffer: slice_to_vec(value) }
        }
    }
}

/// The SHA-256 digest of `data`.
pub fn sha256_digest(data: &[u8]) -> (d: Vec<u8>)
    ensures
        d@ == spec_sha256(data@),
        d@.len() == SHA256_SIZE,
{
    sha256(data)
}

/// `hmac::Hmac<Sha256>`: keyed with `key` (`new_from_slice`, which takes keys
/// of any length), fed `data` and finalized, which is the RFC 2104
/// construction that `spec_hmac_sha256` states. The tag is 32 bytes long.
#[verifier::external_body]
fn hmac_sha256(key: &[u8], data: &[u8]) -> (r: Option<Vec<u8>>)
    ensures
        r is Some,
        r.unwrap()@ == spec_hmac_sha256(key@, data@),
        r.unwrap()@.len() == SHA256_SIZE,
{
    match <hmac::Hmac<sha2::Sha256> as Mac>::new_from_slice(key) {
        Ok(mut mac) => {
            mac.update(data);
            Some(mac.finalize().into_bytes().to_vec())
        },
        Err(_) => None,
    }
}

/// `hmac::Mac::verify_slice` on `hmac::Hmac<Sha256>` keyed with `key` and fed
/// `data`: true when `tag` is the whole HMAC tag of `data`, bytes and length.
#[verifier::external_body]
fn hmac_sha256_verify(key: &[u8], data: &[u8], tag: &[u8]) -> (ok: bool)
    ensures
        ok == (tag@ == spec_hmac_sha256(key@, data@)),
{
    match <hmac::Hmac<sha2::Sha256> as Mac>::new_from_slice(key) {
        Ok(mut mac) => {
            mac.update(data);
            match mac.verify_slice(tag) {
                Ok(()) => true,
                Err(_) => false,
            }
        },
        Err(_) => false,
    }
}

/// `aes::Aes128` keyed with the 16 bytes of `key` (`KeyInit::new`) encrypting
/// the 16 bytes of `block` (`BlockEncrypt::encrypt_block`).
#[verifier::external_body]
fn aes128_encrypt_block(key: &[u8], block: &[u8]) -> (out: Vec<u8>)
    requires
        key@.len() == AES_BLOCK_SIZE,
        block@.len() == AES_BLOCK_SIZE,
    ensures
        out@ == spec_aes128_encrypt_block(key@, block@),
        out@.len() == AES_BLOCK_SIZE,
{
    let cipher = aes::Aes128::new(aes::cipher::generic_array::GenericArray::from_slice(key));
    let mut b = aes::cipher::generic_array::GenericArray::clone_from_slice(block);
    cipher.encrypt_block(&mut b);
    b.to_vec()
}

/// `rand::rngs::OsRng::try_fill_bytes`: fills `buf` with bytes from the
/// operating system and tells whether that worked. The bytes are unknown.
#[verifier::external_body]
fn fill_random(buf: &mut [u8]) -> (ok: bool)
    ensures
        final(buf)@.len() == old(buf)@.len(),
{
    match rand::rngs::OsRng.try_fill_bytes(buf) {
        Ok(()) => true,
        Err(_) => false,
    }
}

/// The bytes of `a` combined with those of `b` by exclusive or, as many as `a` has.
pub open spec fn xor_bytes(a: Seq<u8>, b: Seq<u8>) -> Seq<u8> {
    Seq::new(a.len(), |i: int| a[i] ^ b[i])
}

/// The length of the next CFB segment of `p`: a block, or what is left.
pub open spec fn segment_len(p: Seq<u8>) -> int {
    if p.len() < AES_BLOCK_SIZE {
        p.len() as int
    } else {
        AES_BLOCK_SIZE as int
    }
}

/// AES-128 in CFB mode with a full-block segment: each segment of `p` is
/// combined with the encryption of the feedback, which the cipher text then
/// replaces.
pub open spec fn cfb_encrypt(key: Seq<u8>, feedback: Seq<u8>, p: Seq<u8>) -> Seq<u8>
    decreases p.len(),
{
    if p.len() == 0 {
        Seq::empty()
    } else {
        let n = segment_len(p);
        let c = xor_bytes(p.take(n), spec_aes128_encrypt_block(key, feedback));
        c + cfb_encrypt(key, c + feedback.skip(n), p.skip(n))
    }
}

/// The inverse of [`cfb_encrypt`]: the feedback takes the cipher text.
pub open spec fn cfb_decrypt(key: Seq<u8>, feedback: Seq<u8>, c: Seq<u8>) -> Seq<u8>
    decreases c.len(),
{
    if c.len() == 0 {
        Seq::empty()
    } else {
        let n = segment_len(c);
        let m = xor_bytes(c.take(n), spec_aes128_encrypt_block(key, feedback));
        m + cfb_decrypt(key, c.take(n) + feedback.skip(n), c.skip(n))
    }
}

proof fn lemma_xor_twice(a: u8, b: u8)
    ensures
        (a ^ b) ^ b == a,
{
    assert((a ^ b) ^ b == a) by (bit_vector);
}

/// CFB encryption keeps the length of the message.
pub proof fn lemma_cfb_encrypt_len(key: Seq<u8>, feedback: Seq<u8>, p: Seq<u8>)
    ensures
        cfb_encrypt(key, feedback, p).len() == p.len(),
    decreases p.len(),
{
    if p.len() > 0 {
        let n = segment_len(p);
        let c = xor_bytes(p.take(n), spec_aes128_encrypt_block(key, feedback));
        lemma_cfb_encrypt_len(key, c + feedback.skip(n), p.skip(n));
    }
}

/// Decrypting what CFB encryption gives, under the same key and feedback,
/// gives the message back.
pub proof fn lemma_cfb_round_trip(key: Seq<u8>, feedback: Seq<u8>, p: Seq<u8>)
    ensures
        cfb_decrypt(key, feedback, cfb_encrypt(key, feedback, p)) == p,
    decreases p.len(),
{
    if p.len() > 0 {
        let n = segment_len(p);
        let ks = spec_aes128_encrypt_block(key, feedback);
        let c = xor_bytes(p.take(n), ks);
        let fb2 = c + feedback.skip(n);
        let rest = cfb_encrypt(key, fb2, p.skip(n));
        lemma_cfb_encrypt_len(key, fb2, p.skip(n));
        let e = c + rest;
        assert(e.len() == p.len());
        assert(segment_len(e) == n);
        assert(e.take(n) =~= c);
        assert(e.skip(n) =~= rest);
        assert forall|i: int| 0 <= i < n implies #[trigger] xor_bytes(c, ks)[i] == p.take(n)[i] by {
            lemma_xor_twice(p[i], ks[i]);
        }
        assert(xor_bytes(c, ks) =~= p.take(n));
        lemma_cfb_round_trip(key, fb2, p.skip(n));
        assert(p.take(n) + p.skip(n) =~= p);
    }
}



/// A 16-byte key and the feedback register filled with a 16-byte IV; fails
/// where either has another length.
pub fn init_aes_128_cfb(key: &[u8], iv: &[u8]) -> (r: Result<Vec<u8>, Error>)
    ensures
        match r {
            Ok(feedback) => key@.len() == AES_BLOCK_SIZE && iv@.len() == AES_BLOCK_SIZE && feedback@ == iv@,
            Err(e) => !(key@.len() == AES_BLOCK_SIZE && iv@.len() == AES_BLOCK_SIZE) && e is Internal,
        },
{
    if iv.len() != AES_BLOCK_SIZE {
        return Err(Error::invalid_state("AES-CFB IV must be 16 bytes"));
    }
    if key.len() != AES_BLOCK_SIZE {
        return Err(Error::invalid_state("AES-CFB key must be 16 bytes"));
    }
    Ok(slice_to_vec(iv))
}

/// Encrypts `parameter` in place with AES-128-CFB under `key` and `iv`.
pub fn aes_128_cfb_encrypt(key: &[u8], iv: &[u8], parameter: &mut [u8]) -> (r: Result<(), Error>)
    ensures
        match r {
            Ok(()) => key@.len() == AES_BLOCK_SIZE && iv@.len() == AES_BLOCK_SIZE && final(parameter)@
                == cfb_encrypt(key@, iv@, old(parameter)@),
            Err(e) => !(key@.len() == AES_BLOCK_SIZE && iv@.len() == AES_BLOCK_SIZE) && e is Internal
                && final(parameter)@ == old(parameter)@,
        },
{
    let mut feedback = init_aes_128_cfb(key, iv)?;
    let ghost p0 = parameter@;
    let len = parameter.len();
    let mut i: usize = 0;
    assert(parameter@.take(0) =~= Seq::<u8>::empty());
    assert(p0.skip(0) =~= p0);
    while i < len
        invariant
            key@.len() == AES_BLOCK_SIZE,
            iv@.len() == AES_BLOCK_SIZE,
            feedback@.len() == AES_BLOCK_SIZE,
            p0.len() == len,
            parameter@.len() == len,
            i <= len,
            parameter@.skip(i as int) == p0.skip(i as int),
            cfb_encrypt(key@, iv@, p0) == parameter@.take(i as int) + cfb_encrypt(
                key@,
                feedback@,
                p0.skip(i as int),
            ),
        decreases len - i,
    {
        let ghost rest = p0.skip(i as int);
        let ghost before = parameter@;
        let n: usize = if len - i < AES_BLOCK_SIZE { len - i } else { AES_BLOCK_SIZE };
        assert(n == segment_len(rest));
        let key_stream = aes128_encrypt_block(key, feedback.as_slice());
        let mut j: usize = 0;
        while j < n
            invariant
                i + n <= len,
                n <= AES_BLOCK_SIZE,
                key_stream@.len() == AES_BLOCK_SIZE,
                parameter@.len() == len,
                before.len() == len,
                j <= n,
                forall|k: int| 0 <= k < j ==> #[trigger] parameter@[i + k] == before[i + k] ^ key_stream@[k],
                forall|k: int| 0 <= k < len && !(i <= k < i + j) ==> #[trigger] parameter@[k] == before[k],
            decreases n - j,
        {
            let b = parameter[i + j] ^ key_stream[j];
            parameter[i + j] = b;
            j += 1;
        }
        let ghost c = xor_bytes(rest.take(n as int), key_stream@);
        assert(parameter@.subrange(i as int, i + n) =~= c) by {
            assert forall|k: int| 0 <= k < n implies #[trigger] parameter@.subrange(i as int, i + n)[k] == c[k] by {
                assert(parameter@[i + k] == before[i + k] ^ key_stream@[k]);
                assert(before[i + k] == p0[i + k]) by {
                    assert(before.skip(i as int)[k] == p0.skip(i as int)[k]);
                }
            }
        }
        let ghost fb0 = feedback@;
        let ghost mid = parameter@;
        let mut k: usize = 0;
        while k < n
            invariant
                i + n <= len,
                n <= AES_BLOCK_SIZE,
                feedback@.len() == AES_BLOCK_SIZE,
                parameter@.len() == len,
                k <= n,
                forall|m: int| 0 <= m < k ==> #[trigger] feedback@[m] == parameter@[i + m],
                parameter@ == mid,
                forall|m: int| k <= m < AES_BLOCK_SIZE ==> #[trigger] feedback@[m] == fb0[m],
            decreases n - k,
        {
            feedback.set(k, parameter[i + k]);
            k += 1;
        }
        proof {
            assert(feedback@ =~= c + fb0.skip(n as int));
            assert(rest.skip(n as int) =~= p0.skip(i + n));
            assert(parameter@.take(i + n) =~= parameter@.take(i as int) + c) by {
                assert(parameter@.take(i as int) =~= before.take(i as int));
            }
            assert(parameter@.skip(i + n) =~= p0.skip(i + n)) by {
                assert forall|m: int| 0 <= m < len - (i + n) implies #[trigger] parameter@.skip(i + n)[m]
                    == p0.skip(i + n)[m] by {
                    assert(before.skip(i as int)[n + m] == p0.skip(i as int)[n + m]);
                }
            }
        }
        i += n;
    }
    assert(parameter@.take(len as int) =~= parameter@);
    assert(p0.skip(len as int) =~= Seq::<u8>::empty());
    Ok(())
}


/// Decrypts `parameter` in place with AES-128-CFB under `key` and `iv`.
pub fn aes_128_cfb_decrypt(key: &[u8], iv: &[u8], parameter: &mut [u8]) -> (r: Result<(), Error>)
    ensures
        match r {
            Ok(()) => key@.len() == AES_BLOCK_SIZE && iv@.len() == AES_BLOCK_SIZE && final(parameter)@
                == cfb_decrypt(key@, iv@, old(parameter)@),
            Err(e) => !(key@.len() == AES_BLOCK_SIZE && iv@.len() == AES_BLOCK_SIZE) && e is Internal
                && final(parameter)@ == old(parameter)@,
        },
{
    let mut feedback = init_aes_128_cfb(key, iv)?;
    let ghost p0 = parameter@;
    let len = parameter.len();
    let mut i: usize = 0;
    assert(parameter@.take(0) =~= Seq::<u8>::empty());
    assert(p0.skip(0) =~= p0);
    while i < len
        invariant
            key@.len() == AES_BLOCK_SIZE,
            iv@.len() == AES_BLOCK_SIZE,
            feedback@.len() == AES_BLOCK_SIZE,
            p0.len() == len,
            parameter@.len() == len,
            i <= len,
            parameter@.skip(i as int) == p0.skip(i as int),
            cfb_decrypt(key@, iv@, p0) == parameter@.take(i as int) + cfb_decrypt(
                key@,
                feedback@,
                p0.skip(i as int),
            ),
        decreases len - i,
    {
        let ghost rest = p0.skip(i as int);
        let ghost before = parameter@;
        let ghost fb0 = feedback@;
        let n: usize = if len - i < AES_BLOCK_SIZE { len - i } else { AES_BLOCK_SIZE };
        assert(n == segment_len(rest));
        let key_stream = aes128_encrypt_block(key, feedback.as_slice());
        let mut j: usize = 0;
        while j < n
            invariant
                i + n <= len,
                n <= AES_BLOCK_SIZE,
                key_stream@.len() == AES_BLOCK_SIZE,
                parameter@.len() == len,
                before.len() == len,
                feedback@.len() == AES_BLOCK_SIZE,
                j <= n,
                forall|k: int| 0 <= k < j ==> #[trigger] parameter@[i + k] == before[i + k] ^ key_stream@[k],
                forall|k: int| 0 <= k < len && !(i <= k < i + j) ==> #[trigger] parameter@[k] == before[k],
                forall|m: int| 0 <= m < j ==> #[trigger] feedback@[m] == before[i + m],
                forall|m: int| j <= m < AES_BLOCK_SIZE ==> #[trigger] feedback@[m] == fb0[m],
            decreases n - j,
        {
            let cipher_byte = parameter[i + j];
            parameter[i + j] = cipher_byte ^ key_stream[j];
            feedback.set(j, cipher_byte);
            j += 1;
        }
        proof {
            let m = xor_bytes(rest.take(n as int), key_stream@);
            assert forall|k: int| 0 <= k < n implies #[trigger] before[i + k] == p0[i + k] by {
                assert(before.skip(i as int)[k] == p0.skip(i as int)[k]);
            }
            assert forall|k: int| 0 <= k < n implies #[trigger] parameter@.subrange(i as int, i + n)[k] == m[k] by {
                assert(parameter@[i + k] == before[i + k] ^ key_stream@[k]);
                assert(before[i + k] == p0[i + k]);
                assert(rest.take(n as int)[k] == p0[i + k]);
            }
            assert(parameter@.subrange(i as int, i + n) =~= m);
            assert(feedback@ =~= rest.take(n as int) + fb0.skip(n as int));
            assert(rest.skip(n as int) =~= p0.skip(i + n));
            assert(parameter@.take(i + n) =~= parameter@.take(i as int) + m) by {
                assert(parameter@.take(i as int) =~= before.take(i as int));
            }
            assert(parameter@.skip(i + n) =~= p0.skip(i + n)) by {
                assert forall|q: int| 0 <= q < len - (i + n) implies #[trigger] parameter@.skip(i + n)[q]
                    == p0.skip(i + n)[q] by {
                    assert(before.skip(i as int)[n + q] == p0.skip(i as int)[n + q]);
                }
            }
        }
        i += n;
    }
    assert(parameter@.take(len as int) =~= parameter@);
    assert(p0.skip(len as int) =~= Seq::<u8>::empty());
    Ok(())
}

/// The bytes of "CFB" and of "ATH" with their terminating zero, the labels
/// of the key derivations.
pub open spec fn cfb_label() -> Seq<u8> {
    seq![0x43u8, 0x46u8, 0x42u8, 0x00u8]
}

pub open spec fn ath_label() -> Seq<u8> {
    seq![0x41u8, 0x54u8, 0x48u8, 0x00u8]
}

/// The input of one round of the TPM's key derivation (KDFa with SHA-256):
/// the counter 1, the label, the two context values and the number of bits.
pub open spec fn kdfa_input(label: Seq<u8>, context_u: Seq<u8>, context_v: Seq<u8>) -> Seq<u8> {
    u32_bytes(1) + label + context_u + context_v + u32_bytes(KDF_BITS)
}

fn kdfa_message(label: &[u8], context_u: &[u8], context_v: &[u8]) -> (m: Vec<u8>)
    ensures
        m@ == kdfa_input(label@, context_u@, context_v@),
{
    let mut m: Vec<u8> = Vec::new();
    marshal_u32(&mut m, 1);
    extend_bytes(&mut m, label);
    extend_bytes(&mut m, context_u);
    extend_bytes(&mut m, context_v);
    marshal_u32(&mut m, KDF_BITS);
    assert(m@ =~= kdfa_input(label@, context_u@, context_v@));
    m
}

/// The key and IV of parameter encryption, as one 32-byte string: KDFa of the
/// session value with the label "CFB" and the newer and older nonces.
pub fn derive_cfb_key_and_iv(session_value: &[u8], nonce_newer: &[u8], nonce_older: &[u8]) -> (r: Result<
    Vec<u8>,
    Error,
>)
    ensures
        r matches Ok(k) && k@ == spec_hmac_sha256(session_value@, kdfa_input(cfb_label(), nonce_newer@, nonce_older@))
            && k@.len() == SHA256_SIZE,
{
    let label: [u8; 4] = [0x43, 0x46, 0x42, 0x00];
    assert(label@ =~= cfb_label());
    let message = kdfa_message(label.as_slice(), nonce_newer, nonce_older);
    match hmac_sha256(session_value, message.as_slice()) {
        Some(k) => Ok(k),
        None => Err(Error::invalid_state("failed to initialize KDFa HMAC")),
    }
}

/// The session key of a salted session: KDFa of the salt with the label
/// "ATH", the TPM's nonce and the caller's nonce.
pub fn derive_session_key(salt: &[u8], nonce_tpm: &[u8], nonce_caller: &[u8]) -> (r: Result<Vec<u8>, Error>)
    ensures
        r matches Ok(k) && k@ == spec_hmac_sha256(salt@, kdfa_input(ath_label(), nonce_tpm@, nonce_caller@))
            && k@.len() == SHA256_SIZE,
{
    let label: [u8; 4] = [0x41, 0x54, 0x48, 0x00];
    assert(label@ =~= ath_label());
    let message = kdfa_message(label.as_slice(), nonce_tpm, nonce_caller);
    match hmac_sha256(salt, message.as_slice()) {
        Some(k) => Ok(k),
        None => Err(Error::invalid_state("failed to initialize KDFa HMAC")),
    }
}

/// The key of parameter encryption: the first half of the derived bytes.
pub open spec fn cfb_key(session_value: Seq<u8>, nonce_newer: Seq<u8>, nonce_older: Seq<u8>) -> Seq<u8> {
    spec_hmac_sha256(session_value, kdfa_input(cfb_label(), nonce_newer, nonce_older)).take(
        AES_BLOCK_SIZE as int,
    )
}

/// The IV of parameter encryption: the second half of the derived bytes.
pub open spec fn cfb_iv(session_value: Seq<u8>, nonce_newer: Seq<u8>, nonce_older: Seq<u8>) -> Seq<u8> {
    spec_hmac_sha256(session_value, kdfa_input(cfb_label(), nonce_newer, nonce_older)).skip(
        AES_BLOCK_SIZE as int,
    )
}

/// Encrypts a command parameter: the caller's nonce is the newer one, the
/// TPM's the older.
pub fn encrypt_parameter(session_value: &[u8], nonce_newer: &[u8], nonce_older: &[u8], parameter: &mut [u8]) -> (r:
    Result<(), Error>)
    ensures
        r is Ok,
        final(parameter)@ == cfb_encrypt(
            cfb_key(session_value@, nonce_newer@, nonce_older@),
            cfb_iv(session_value@, nonce_newer@, nonce_older@),
            old(parameter)@,
        ),
{
    let key_and_iv = derive_cfb_key_and_iv(session_value, nonce_newer, nonce_older)?;
    let key = slice_subrange(key_and_iv.as_slice(), 0, AES_BLOCK_SIZE);
    let iv = slice_subrange(key_and_iv.as_slice(), AES_BLOCK_SIZE, key_and_iv.len());
    aes_128_cfb_encrypt(key, iv, parameter)
}

/// Decrypts a response parameter: the TPM's nonce is the newer one, the
/// caller's the older.
pub fn decrypt_parameter(session_value: &[u8], nonce_newer: &[u8], nonce_older: &[u8], parameter: &mut [u8]) -> (r:
    Result<(), Error>)
    ensures
        r is Ok,
        final(parameter)@ == cfb_decrypt(
            cfb_key(session_value@, nonce_newer@, nonce_older@),
            cfb_iv(session_value@, nonce_newer@, nonce_older@),
            old(parameter)@,
        ),
{
    let key_and_iv = derive_cfb_key_and_iv(session_value, nonce_newer, nonce_older)?;
    let key = slice_subrange(key_and_iv.as_slice(), 0, AES_BLOCK_SIZE);
    let iv = slice_subrange(key_and_iv.as_slice(), AES_BLOCK_SIZE, key_and_iv.len());
    aes_128_cfb_decrypt(key, iv, parameter)
}

/// What is hashed into a command's cpHash: the command code, the names of its
/// handles and its parameters.
pub open spec fn cp_hash_input(command_code: u32, handle_names: Seq<Seq<u8>>, parameters: Seq<u8>) -> Seq<u8> {
    u32_bytes(command_code) + concat_map(handle_names, name_bytes()) + parameters
}

/// A name as it goes into a hash: its bytes.
pub open spec fn name_bytes() -> spec_fn(Seq<u8>) -> Seq<u8> {
    |name: Seq<u8>| name
}

/// What is hashed into a response's rpHash: the success code, the command
/// code and the response parameters.
pub open spec fn rp_hash_input(command_code: u32, parameters: Seq<u8>) -> Seq<u8> {
    u32_bytes(RC_SUCCESS) + u32_bytes(command_code) + parameters
}

/// What a command's cpHash is computed from.
pub struct CpHashData<'a> {
    pub command_code: TpmCc,
    pub handle_names: &'a [Vec<u8>],
    pub parameters: &'a [u8],
}

/// The names of the handles, as byte sequences.
pub open spec fn names_view(names: Seq<Vec<u8>>) -> Seq<Seq<u8>> {
    names.map_values(|n: Vec<u8>| n@)
}

/// The cpHash of a command: SHA-256 of its code, handle names and parameters.
pub fn compute_cp_hash(cp_hash_data: &CpHashData<'_>) -> (h: Vec<u8>)
    ensures
        h@ == spec_sha256(
            cp_hash_input(
                cp_hash_data.command_code.0,
                names_view(cp_hash_data.handle_names@),
                cp_hash_data.parameters@,
            ),
        ),
        h@.len() == SHA256_SIZE,
{
    let names = cp_hash_data.handle_names;
    let mut message: Vec<u8> = Vec::new();
    cp_hash_data.command_code.marshal(&mut message);
    let mut i: usize = 0;
    while i < names.len()
        invariant
            i <= names@.len(),
            names@ == cp_hash_data.handle_names@,
            message@ == u32_bytes(cp_hash_data.command_code.0) + concat_map(
                names_view(names@).take(i as int),
                name_bytes(),
            ),
        decreases names@.len() - i,
    {
        extend_bytes(&mut message, names[i].as_slice());
        assert(names_view(names@).take(i + 1).drop_last() =~= names_view(names@).take(i as int));
        i += 1;
    }
    assert(names_view(names@).take(i as int) =~= names_view(names@));
    extend_bytes(&mut message, cp_hash_data.parameters);
    sha256(message.as_slice())
}

/// The rpHash of a response: SHA-256 of the success code, the command code
/// and the response parameters.
pub fn compute_rp_hash(command_code: TpmCc, parameters: &[u8]) -> (h: Vec<u8>)
    ensures
        h@ == spec_sha256(rp_hash_input(command_code.0, parameters@)),
        h@.len() == SHA256_SIZE,
{
    let mut message: Vec<u8> = Vec::new();
    marshal_u32(&mut message, RC_SUCCESS);
    command_code.marshal(&mut message);
    extend_bytes(&mut message, parameters);
    sha256(message.as_slice())
}

/// What a command HMAC signs: the cpHash, the caller's nonce, the TPM's nonce
/// and the session attributes.
pub open spec fn command_hmac_input(cp_hash: Seq<u8>, nonce_caller: Seq<u8>, nonce_tpm: Seq<u8>, attributes: u8) -> Seq<u8> {
    cp_hash + nonce_caller + nonce_tpm + seq![attributes]
}

/// What a response HMAC signs: the rpHash, the TPM's nonce, the caller's
/// nonce and the session attributes.
pub open spec fn response_hmac_input(rp_hash: Seq<u8>, nonce_tpm: Seq<u8>, nonce_caller: Seq<u8>, attributes: u8) -> Seq<u8> {
    rp_hash + nonce_tpm + nonce_caller + seq![attributes]
}

/// The HMAC of a command authorization under the session value.
pub fn compute_hmac(
    session_value: &[u8],
    cp_hash_data: &CpHashData<'_>,
    nonce_caller: &[u8],
    nonce_tpm: &[u8],
    attributes: TpmaSession,
) -> (r: Result<Tpm2bAuth, Error>)
    ensures
        r matches Ok(auth) && auth@ == spec_hmac_sha256(
            session_value@,
            command_hmac_input(
                spec_sha256(
                    cp_hash_input(
                        cp_hash_data.command_code.0,
                        names_view(cp_hash_data.handle_names@),
                        cp_hash_data.parameters@,
                    ),
                ),
                nonce_caller@,
                nonce_tpm@,
                attributes.0,
            ),
        ) && auth@.len() == SHA256_SIZE,
{
    let cp_hash = compute_cp_hash(cp_hash_data);
    let mut data: Vec<u8> = Vec::new();
    extend_bytes(&mut data, cp_hash.as_slice());
    extend_bytes(&mut data, nonce_caller);
    extend_bytes(&mut data, nonce_tpm);
    marshal_u8(&mut data, attributes.bits());
    assert(data@ =~= command_hmac_input(cp_hash@, nonce_caller@, nonce_tpm@, attributes.0));
    match hmac_sha256(session_value, data.as_slice()) {
        Some(tag) => Ok(Tpm2bAuth { buffer: tag }),
        None => Err(Error::invalid_state("failed to initialize authorization HMAC")),
    }
}

/// Checks the HMAC of a response authorization under the session value.
pub fn verify_response_hmac(
    session_value: &[u8],
    command_code: TpmCc,
    parameters: &[u8],
    nonce_caller: &[u8],
    auth_response: &TpmsAuthResponse,
) -> (r: Result<(), Error>)
    ensures
        ({
            let expected = spec_hmac_sha256(
                session_value@,
                response_hmac_input(
                    spec_sha256(rp_hash_input(command_code.0, parameters@)),
                    auth_response.nonce@,
                    nonce_caller@,
                    auth_response.session_attributes.0,
                ),
            );
            match r {
                Ok(()) => auth_response.hmac@ == expected,
                Err(e) => auth_response.hmac@ != expected && e is InvalidData,
            }
        }),
{
    let rp_hash = compute_rp_hash(command_code, parameters);
    let mut data: Vec<u8> = Vec::new();
    extend_bytes(&mut data, rp_hash.as_slice());
    extend_bytes(&mut data, auth_response.nonce.as_bytes());
    extend_bytes(&mut data, nonce_caller);
    marshal_u8(&mut data, auth_response.session_attributes.bits());
    assert(data@ =~= response_hmac_input(
        rp_hash@,
        auth_response.nonce@,
        nonce_caller@,
        auth_response.session_attributes.0,
    ));
    if hmac_sha256_verify(session_value, data.as_slice(), auth_response.hmac.as_bytes()) {
        Ok(())
    } else {
        Err(Error::InvalidData)
    }
}

/// A fresh nonce of 32 bytes from the operating system.
pub fn generate_caller_nonce() -> (r: Result<Tpm2bNonce, Error>)
    ensures
        match r {
            Ok(n) => n@.len() == NONCE_SIZE,
            Err(e) => e is Internal,
        },
{
    let mut nonce: Vec<u8> = vec![0u8; NONCE_SIZE];
    if !fill_random(nonce.as_mut_slice()) {
        return Err(Error::Internal);
    }
    Ok(Tpm2bNonce { buffer: nonce })
}


/// The size of the random part of a key identifier.
pub const KEY_ID_BYTES: usize = 16;

/// The URL-safe base64 encoding of `data`, without padding.
pub uninterp spec fn spec_base64_url_no_pad(data: Seq<u8>) -> Seq<char>;

/// `base64::engine::general_purpose::URL_SAFE_NO_PAD.encode`: the URL-safe
/// base64 encoding of `data` without padding, which depends on `data` alone.
#[verifier::external_body]
fn base64_url_no_pad(data: &[u8]) -> (s: String)
    ensures
        s@ == spec_base64_url_no_pad(data@),
{
    base64::engine::general_purpose::URL_SAFE_NO_PAD.encode(data)
}

/// A fresh identifier: 16 bytes from the operating system in URL-safe base64
/// without padding.
pub fn generate_key_id() -> (r: Result<String, Error>)
    ensures
        match r {
            Ok(id) => exists|b: Seq<u8>| b.len() == KEY_ID_BYTES && id@ == #[trigger] spec_base64_url_no_pad(b),
            Err(e) => e is Internal,
        },
{
    let mut bytes: Vec<u8> = vec![0u8; KEY_ID_BYTES];
    if !fill_random(bytes.as_mut_slice()) {
        return Err(Error::Internal);
    }
    let id = base64_url_no_pad(bytes.as_slice());
    assert(bytes@.len() == KEY_ID_BYTES && id@ == spec_base64_url_no_pad(bytes@));
    Ok(id)
}

/// The public exponent of the keys that salt sessions.
pub const DEFAULT_EXPONENT: u32 = 65537;
/// The size of a session salt.
pub const SALT_SIZE: usize = 32;

#[verifier::external_type_specification]
#[verifier::external_body]
pub struct ExRsaPublicKey(rsa::RsaPublicKey);

/// The number that `bytes` write, most significant byte first.
pub open spec fn be_value(bytes: Seq<u8>) -> nat
    decreases bytes.len(),
{
    if bytes.len() == 0 {
        0
    } else {
        (be_value(bytes.drop_last()) * 256 + bytes.last()) as nat
    }
}

/// Whether `rsa::RsaPublicKey::new` accepts the modulus `n` and the exponent
/// `e`: the modulus has at most 4096 bits, is odd and exceeds the exponent,
/// which is odd and lies between 2 and 2^33 - 1.
pub open spec fn rsa_key_accepted(n: nat, e: nat) -> bool {
    &&& n < vstd::arithmetic::power2::pow2(4096)
    &&& e < n
    &&& n % 2 == 1
    &&& e % 2 == 1
    &&& 2 <= e <= 0x1_ffff_ffff
}

/// `rsa::RsaPublicKey::new` with the big-endian modulus `modulus` and the
/// exponent `exponent` (`BigUint::from_bytes_be`, `BigUint::from`): a key
/// exactly where the checks of `RsaPublicKey::new` pass, `None` otherwise.
#[verifier::external_body]
fn rsa_public_key(modulus: &[u8], exponent: u32) -> (r: Option<rsa::RsaPublicKey>)
    ensures
        r is Some <==> rsa_key_accepted(be_value(modulus@), exponent as nat),
{
    match rsa::RsaPublicKey::new(rsa::BigUint::from_bytes_be(modulus), rsa::BigUint::from(exponent)) {
        Ok(key) => Some(key),
        Err(_) => None,
    }
}

#[verifier::external_type_specification]
#[verifier::external_body]
pub struct ExStdRng(rand::rngs::StdRng);

/// `rand::SeedableRng::from_rng` for `rand::rngs::StdRng`, seeded from
/// `rand::rngs::OsRng` through its fallible `try_fill_bytes`: `None` where the
/// operating system gives no random bytes. Nothing is said of the seed.
#[verifier::external_body]
fn os_seeded_rng() -> (r: Option<rand::rngs::StdRng>) {
    <rand::rngs::StdRng as rand::SeedableRng>::from_rng(rand::rngs::OsRng).ok()
}

/// The number of bytes that `n` takes, most significant byte first, without
/// leading zeros: `(bits + 7) / 8`.
pub open spec fn byte_len(n: nat) -> nat
    decreases n,
{
    if n == 0 {
        0
    } else {
        1 + byte_len(n / 256)
    }
}

/// The cipher texts that RSA-OAEP encryption (SHA-256 for the label hash and
/// for MGF1) of `data` under `label` can give with the public key of modulus
/// `modulus` (big-endian) and exponent `exponent`: one for each seed.
pub uninterp spec fn spec_rsa_oaep_ciphertexts(modulus: Seq<u8>, exponent: u32, label: Seq<char>, data: Seq<u8>) -> Set<
    Seq<u8>,
>;

/// `rsa::RsaPublicKey::encrypt` with `rsa::Oaep::new_with_label` over SHA-256
/// and `label`, of `data` under the public key of the big-endian modulus
/// `modulus` and the exponent `exponent` (`RsaPublicKey::new_unchecked` of
/// `BigUint::from_bytes_be` and `BigUint::from`; `encrypt` runs the key checks
/// of `check_public` itself), drawing its seed from `rng`. Where it gives a
/// cipher text, that is one OAEP encryption of `data` under the key and the
/// label, padded to the byte length of the modulus (`uint_to_be_pad` to
/// `size()`); `None` where the crate refuses the key or the message. Which
/// cipher text comes depends on the random seed, and is not said.
#[verifier::external_body]
fn rsa_oaep_encrypt(
    modulus: &[u8],
    exponent: u32,
    rng: &mut rand::rngs::StdRng,
    label: &str,
    data: &[u8],
) -> (r: Option<Vec<u8>>)
    ensures
        r matches Some(c) ==> c@.len() == byte_len(be_value(modulus@)) && spec_rsa_oaep_ciphertexts(
            modulus@,
            exponent,
            label@,
            data@,
        ).contains(c@),
{
    let key = rsa::RsaPublicKey::new_unchecked(rsa::BigUint::from_bytes_be(modulus), rsa::BigUint::from(exponent));
    let padding = rsa::Oaep::new_with_label::<sha2::Sha256, _>(label);
    key.encrypt(rng, padding, data).ok()
}

/// The OAEP label under which a session salt is encrypted to the salt key:
/// "SECRET" with its terminating zero.
pub const SALT_SECRET_LABEL: &'static str = "SECRET\0";

/// The RSA public key of a salt key from the modulus of its public area and
/// the default exponent; fails where `RsaPublicKey::new` refuses the modulus.
pub fn build_rsa_public_key(unique: &crate::tpm::Tpm2bPublicKeyRsa) -> (r: Result<rsa::RsaPublicKey, Error>)
    ensures
        match r {
            Ok(_) => rsa_key_accepted(be_value(unique@), DEFAULT_EXPONENT as nat),
            Err(e) => !rsa_key_accepted(be_value(unique@), DEFAULT_EXPONENT as nat) && e is Internal,
        },
{
    match rsa_public_key(unique.as_bytes(), DEFAULT_EXPONENT) {
        Some(key) => Ok(key),
        None => Err(Error::invalid_state("failed to construct RSA public key")),
    }
}

/// A fresh salt of 32 bytes and its encryption to the salt key of modulus
/// `modulus` and the default exponent: RSA-OAEP with SHA-256 under the label
/// "SECRET" with its terminating zero, the secret as long as the modulus. A
/// modulus that `RsaPublicKey::new` refuses fails; so does a failure of the
/// operating system's randomness or of the encryption.
pub fn generate_encrypted_salt(modulus: &crate::tpm::Tpm2bPublicKeyRsa) -> (r: Result<
    (crate::tpm::Tpm2bEncryptedSecret, Vec<u8>),
    Error,
>)
    ensures
        match r {
            Ok((secret, salt)) => {
                &&& salt@.len() == SALT_SIZE
                &&& rsa_key_accepted(be_value(modulus@), DEFAULT_EXPONENT as nat)
                &&& secret@.len() == byte_len(be_value(modulus@))
                &&& spec_rsa_oaep_ciphertexts(modulus@, DEFAULT_EXPONENT, SALT_SECRET_LABEL@, salt@).contains(secret@)
            },
            Err(e) => e is Internal,
        },
{
    build_rsa_public_key(modulus)?;
    let mut salt: Vec<u8> = vec![0u8; SALT_SIZE];
    if !fill_random(salt.as_mut_slice()) {
        return Err(Error::Internal);
    }
    let mut rng = match os_seeded_rng() {
        Some(rng) => rng,
        None => return Err(Error::Internal),
    };
    let encrypted_salt = match rsa_oaep_encrypt(
        modulus.as_bytes(),
        DEFAULT_EXPONENT,
        &mut rng,
        SALT_SECRET_LABEL,
        salt.as_slice(),
    ) {
        Some(c) => c,
        None => return Err(Error::Internal),
    };
    let secret = crate::scheme::TpmuEncryptedSecret::rsa(encrypted_salt)?;
    let bytes = vstd::slice::slice_to_vec(secret.value());
    Ok((crate::tpm::Tpm2bEncryptedSecret { buffer: bytes }, salt))
}

/// The name of an object from its public area: the name algorithm, which
/// follows the type at the front of the area, then the SHA-256 digest of the
/// area; fails where the area is too short to hold both fields.
pub fn compute_obj_name(public_area: &[u8]) -> (r: Result<crate::tpm::Tpm2bName, Error>)
    ensures
        match r {
            Ok(name) => public_area@.len() >= 4 && name@ == public_area@.subrange(2, 4) + spec_sha256(public_area@),
            Err(e) => public_area@.len() < 4 && e is InvalidData,
        },
{
    if public_area.len() < 4 {
        return Err(Error::InvalidData);
    }
    let digest = sha256(public_area);
    let mut name: Vec<u8> = Vec::new();
    name.push(public_area[2]);
    name.push(public_area[3]);
    extend_bytes(&mut name, digest.as_slice());
    assert(name@ =~= public_area@.subrange(2, 4) + spec_sha256(public_area@));
    Ok(crate::tpm::Tpm2bName { buffer: name })
}

/// That an object's name is the expected one; another name means the store is
/// corrupted.
pub fn validate_obj_name(name: &[u8], expected_name: &[u8]) -> (r: Result<(), Error>)
    ensures
        match r {
            Ok(()) => name@ == expected_name@,
            Err(e) => name@ != expected_name@ && e == Error::CorruptedStore,
        },
{
    if name.len() != expected_name.len() {
        return Err(Error::corrupted_store());
    }
    let mut i: usize = 0;
    while i < name.len()
        invariant
            name@.len() == expected_name@.len(),
            i <= name@.len(),
            forall|j: int| 0 <= j < i ==> name@[j] == expected_name@[j],
        decreases name@.len() - i,
    {
        if name[i] != expected_name[i] {
            return Err(Error::corrupted_store());
        }
        i += 1;
    }
    assert(name@ =~= expected_name@);
    Ok(())
}

/// Encrypting a parameter and decrypting it with the same session value and
/// nonces gives it back.
pub proof fn lemma_parameter_encryption_round_trip(
    session_value: Seq<u8>,
    nonce_newer: Seq<u8>,
    nonce_older: Seq<u8>,
    parameter: Seq<u8>,
)
    ensures
        ({
            let key = cfb_key(session_value, nonce_newer, nonce_older);
            let iv = cfb_iv(session_value, nonce_newer, nonce_older);
            cfb_decrypt(key, iv, cfb_encrypt(key, iv, parameter)) == parameter
        }),
{
    lemma_cfb_round_trip(
        cfb_key(session_value, nonce_newer, nonce_older),
        cfb_iv(session_value, nonce_newer, nonce_older),
        parameter,
    );
}


/// The byte layouts of an authorization session's cryptography (TPM 2.0
/// Part 1, 19.6 and 11.4.10): the cpHash covers the command code, the
/// handles' names and the parameters; the rpHash the success code, the
/// command code and the response parameters; a command HMAC signs the
/// cpHash, the caller's nonce, the TPM's nonce and the attributes, a
/// response HMAC the rpHash, the TPM's nonce, the caller's nonce and the
/// attributes; one round of KDFa hashes the counter 1, the label, the two
/// contexts and 256 bits, with the labels "CFB" and "ATH" each ended by a
/// zero byte; HMAC pads its key with 0x36 inside and 0x5C outside.
pub proof fn law_session_crypto_layouts(
    command_code: u32,
    names: Seq<Seq<u8>>,
    parameters: Seq<u8>,
    digest: Seq<u8>,
    nonce_caller: Seq<u8>,
    nonce_tpm: Seq<u8>,
    attributes: u8,
    label: Seq<u8>,
    context_u: Seq<u8>,
    context_v: Seq<u8>,
    key: Seq<u8>,
)
    ensures
        cp_hash_input(command_code, seq![], parameters) == u32_bytes(command_code) + parameters,
        names.len() == 1 ==> cp_hash_input(command_code, names, parameters) == u32_bytes(command_code) + names[0]
            + parameters,
        names.len() == 2 ==> cp_hash_input(command_code, names, parameters) == u32_bytes(command_code) + names[0]
            + names[1] + parameters,
        rp_hash_input(command_code, parameters) == seq![0u8, 0u8, 0u8, 0u8] + u32_bytes(command_code) + parameters,
        command_hmac_input(digest, nonce_caller, nonce_tpm, attributes) == digest + nonce_caller + nonce_tpm
            + seq![attributes],
        response_hmac_input(digest, nonce_tpm, nonce_caller, attributes) == digest + nonce_tpm + nonce_caller
            + seq![attributes],
        kdfa_input(label, context_u, context_v) == seq![0u8, 0u8, 0u8, 1u8] + label + context_u + context_v
            + seq![0u8, 0u8, 1u8, 0u8],
        cfb_label() == seq![0x43u8, 0x46u8, 0x42u8, 0x00u8],
        ath_label() == seq![0x41u8, 0x54u8, 0x48u8, 0x00u8],
        key.len() <= 64 ==> spec_hmac_sha256(key, parameters) == spec_sha256(
            Seq::new(64, |i: int| (if i < key.len() { key[i] } else { 0u8 }) ^ 0x5cu8) + spec_sha256(
                Seq::new(64, |i: int| (if i < key.len() { key[i] } else { 0u8 }) ^ 0x36u8) + parameters,
            ),
        ),
{
    assert(u32_bytes(0) =~= seq![0u8, 0u8, 0u8, 0u8]);
    assert(u32_bytes(1) =~= seq![0u8, 0u8, 0u8, 1u8]);
    assert(u32_bytes(KDF_BITS) =~= seq![0u8, 0u8, 1u8, 0u8]);
    assert(concat_map(Seq::<Seq<u8>>::empty(), name_bytes()) =~= Seq::<u8>::empty());
    if names.len() == 1 {
        assert(names.drop_last() =~= Seq::<Seq<u8>>::empty());
        assert(concat_map(names, name_bytes()) =~= names[0]);
    }
    if names.len() == 2 {
        let first = names.drop_last();
        assert(first.drop_last() =~= Seq::<Seq<u8>>::empty());
        assert(concat_map(first, name_bytes()) =~= names[0]);
        assert(concat_map(names, name_bytes()) =~= names[0] + names[1]);
    }
    if key.len() <= 64 {
        let kb = hmac_key_block(key);
        assert(xor_pad(kb, 0x5cu8) =~= Seq::new(64, |i: int| (if i < key.len() { key[i] } else { 0u8 }) ^ 0x5cu8));
        assert(xor_pad(kb, 0x36u8) =~= Seq::new(64, |i: int| (if i < key.len() { key[i] } else { 0u8 }) ^ 0x36u8));
    }
}

} // verus!
