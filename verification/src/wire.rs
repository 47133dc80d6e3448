//! Big-endian reading and writing of the TPM wire format.
use vstd::prelude::*;
use vstd::slice::slice_subrange;
use vstd::slice::slice_to_vec;

use crate::error::Error;

verus! {

/// The number of bytes of a TPM2B size field.
pub const TPM2B_SIZE_BYTES: usize = 2;

/// The big-endian value of two bytes.
pub open spec fn spec_be_u16(b0: u8, b1: u8) -> u16 {
    (b0 as int * 256 + b1 as int) as u16
}

/// The big-endian value of four bytes.
pub open spec fn spec_be_u32(b0: u8, b1: u8, b2: u8, b3: u8) -> u32 {
    (((b0 as int * 256 + b1 as int) * 256 + b2 as int) * 256 + b3 as int) as u32
}

/// The big-endian bytes of a `u16`.
pub open spec fn u16_bytes(x: u16) -> Seq<u8> {
    seq![(x / 256) as u8, (x % 256) as u8]
}

/// The big-endian bytes of a `u32`.
pub open spec fn u32_bytes(x: u32) -> Seq<u8> {
    seq![(x / 0x100_0000) as u8, ((x / 0x1_0000) % 256) as u8, ((x / 256) % 256) as u8, (x % 256) as u8]
}

/// A TPM2B: its size as a big-endian `u16`, then its bytes.
pub open spec fn tpm2b_bytes(data: Seq<u8>) -> Seq<u8> {
    u16_bytes(data.len() as u16) + data
}

pub open spec fn spec_read_u8(s: Seq<u8>) -> Option<(u8, Seq<u8>)> {
    if s.len() >= 1 {
        Some((s[0], s.skip(1)))
    } else {
        None
    }
}

pub open spec fn spec_read_u16(s: Seq<u8>) -> Option<(u16, Seq<u8>)> {
    if s.len() >= 2 {
        Some((spec_be_u16(s[0], s[1]), s.skip(2)))
    } else {
        None
    }
}

pub open spec fn spec_read_u32(s: Seq<u8>) -> Option<(u32, Seq<u8>)> {
    if s.len() >= 4 {
        Some((spec_be_u32(s[0], s[1], s[2], s[3]), s.skip(4)))
    } else {
        None
    }
}

/// The first `n` bytes of `s`, and what follows them.
pub open spec fn spec_read_vec(s: Seq<u8>, n: int) -> Option<(Seq<u8>, Seq<u8>)> {
    if 0 <= n <= s.len() {
        Some((s.take(n), s.skip(n)))
    } else {
        None
    }
}

/// A TPM2B at the front of `s`: its payload, and what follows it.
pub open spec fn spec_read_tpm2b(s: Seq<u8>) -> Option<(Seq<u8>, Seq<u8>)> {
    match spec_read_u16(s) {
        Some((size, rest)) => spec_read_vec(rest, size as int),
        None => None,
    }
}

/// The payload of a TPM2B that fills `s` exactly.
pub open spec fn spec_read_tpm2b_exact(s: Seq<u8>) -> Option<Seq<u8>> {
    match spec_read_tpm2b(s) {
        Some((data, rest)) => if rest.len() == 0 {
            Some(data)
        } else {
            None
        },
        None => None,
    }
}

/// `n` items read one after the other by `item`, and what follows them.
pub open spec fn spec_parse_n<T>(
    s: Seq<u8>,
    n: nat,
    item: spec_fn(Seq<u8>) -> Option<(T, Seq<u8>)>,
) -> Option<(Seq<T>, Seq<u8>)>
    decreases n,
{
    if n == 0 {
        Some((Seq::empty(), s))
    } else {
        match spec_parse_n(s, (n - 1) as nat, item) {
            Some((items, rest)) => match item(rest) {
                Some((v, rest2)) => Some((items.push(v), rest2)),
                None => None,
            },
            None => None,
        }
    }
}

/// A TPM list: a `u32` count, then that many items.
pub open spec fn spec_parse_list<T>(
    s: Seq<u8>,
    item: spec_fn(Seq<u8>) -> Option<(T, Seq<u8>)>,
) -> Option<(Seq<T>, Seq<u8>)> {
    match spec_read_u32(s) {
        Some((count, rest)) => spec_parse_n(rest, count as nat, item),
        None => None,
    }
}

/// The encodings of `items`, one after the other.
pub open spec fn concat_map<T>(items: Seq<T>, enc: spec_fn(T) -> Seq<u8>) -> Seq<u8>
    decreases items.len(),
{
    if items.len() == 0 {
        Seq::empty()
    } else {
        concat_map(items.drop_last(), enc) + enc(items.last())
    }
}

/// Where `item` reads back what `enc` writes, `n` items read back their encodings.
pub proof fn lemma_parse_n_concat<T>(
    items: Seq<T>,
    enc: spec_fn(T) -> Seq<u8>,
    item: spec_fn(Seq<u8>) -> Option<(T, Seq<u8>)>,
    rest: Seq<u8>,
)
    requires
        forall|i: int, r: Seq<u8>|
            0 <= i < items.len() ==> #[trigger] item(enc(items[i]) + r) == Some((items[i], r)),
    ensures
        spec_parse_n(concat_map(items, enc) + rest, items.len(), item) == Some((items, rest)),
    decreases items.len(),
{
    if items.len() > 0 {
        let last = items.last();
        let init = items.drop_last();
        let tail = enc(last) + rest;
        assert forall|i: int, r: Seq<u8>| 0 <= i < init.len() implies #[trigger] item(enc(init[i]) + r)
            == Some((init[i], r)) by {
            assert(init[i] == items[i]);
        }
        lemma_parse_n_concat(init, enc, item, tail);
        assert(concat_map(items, enc) + rest =~= concat_map(init, enc) + tail);
        assert(item(enc(items[items.len() - 1]) + rest) == Some((items[items.len() - 1], rest)));
        assert(init.push(last) =~= items);
    }
}

pub proof fn lemma_concat_map_len_at_least<T>(items: Seq<T>, enc: spec_fn(T) -> Seq<u8>)
    requires
        forall|i: int| 0 <= i < items.len() ==> #[trigger] enc(items[i]).len() >= 1,
    ensures
        concat_map(items, enc).len() >= items.len(),
    decreases items.len(),
{
    if items.len() > 0 {
        let init = items.drop_last();
        assert forall|i: int| 0 <= i < init.len() implies #[trigger] enc(init[i]).len() >= 1 by {
            assert(init[i] == items[i]);
        }
        lemma_concat_map_len_at_least(init, enc);
        assert(enc(items[items.len() - 1]).len() >= 1);
    }
}

pub proof fn lemma_u16_bytes_read(x: u16, rest: Seq<u8>)
    ensures
        spec_read_u16(u16_bytes(x) + rest) == Some((x, rest)),
{
    let s = u16_bytes(x) + rest;
    assert(s.skip(2) =~= rest);
}

pub proof fn lemma_u32_bytes_read(x: u32, rest: Seq<u8>)
    ensures
        spec_read_u32(u32_bytes(x) + rest) == Some((x, rest)),
{
    let s = u32_bytes(x) + rest;
    assert(s.skip(4) =~= rest);
}

pub proof fn lemma_u8_read(x: u8, rest: Seq<u8>)
    ensures
        spec_read_u8(seq![x] + rest) == Some((x, rest)),
{
    assert((seq![x] + rest).skip(1) =~= rest);
}

pub proof fn lemma_tpm2b_read(data: Seq<u8>, rest: Seq<u8>)
    requires
        data.len() <= 0xffff,
    ensures
        spec_read_tpm2b(tpm2b_bytes(data) + rest) == Some((data, rest)),
{
    let n = data.len();
    let tail = data + rest;
    let s = tpm2b_bytes(data) + rest;
    lemma_u16_bytes_read(n as u16, tail);
    assert(s =~= u16_bytes(n as u16) + tail);
    assert(spec_read_u16(s) == Some((n as u16, tail)));
    assert((n as u16) as int == n);
    assert(tail.take(n as int) =~= data);
    assert(tail.skip(n as int) =~= rest);
    assert(spec_read_vec(tail, n as int) == Some((data, rest)));
}

pub fn read_u8(input: &mut &[u8]) -> (r: Result<u8, Error>)
    ensures
        final(input)@.len() <= old(input)@.len(),
        match r {
            Ok(v) => spec_read_u8(old(input)@) == Some((v, final(input)@)),
            Err(e) => spec_read_u8(old(input)@) is None && e is InvalidData,
        },
{
    require_len(*input, 1)?;
    let v = input[0];
    *input = slice_subrange(*input, 1, input.len());
    Ok(v)
}

pub fn read_u16(input: &mut &[u8]) -> (r: Result<u16, Error>)
    ensures
        final(input)@.len() <= old(input)@.len(),
        match r {
            Ok(v) => spec_read_u16(old(input)@) == Some((v, final(input)@)),
            Err(e) => spec_read_u16(old(input)@) is None && e is InvalidData,
        },
{
    require_len(*input, 2)?;
    let v: u16 = (input[0] as u16) * 256 + (input[1] as u16);
    *input = slice_subrange(*input, 2, input.len());
    Ok(v)
}

pub fn read_u32(input: &mut &[u8]) -> (r: Result<u32, Error>)
    ensures
        final(input)@.len() <= old(input)@.len(),
        match r {
            Ok(v) => spec_read_u32(old(input)@) == Some((v, final(input)@)),
            Err(e) => spec_read_u32(old(input)@) is None && e is InvalidData,
        },
{
    require_len(*input, 4)?;
    let hi: u32 = (input[0] as u32) * 256 + (input[1] as u32);
    let mid: u32 = hi * 256 + (input[2] as u32);
    let v: u32 = mid * 256 + (input[3] as u32);
    *input = slice_subrange(*input, 4, input.len());
    Ok(v)
}

/// Takes the first `len` bytes of `input`.
pub fn read_vec(input: &mut &[u8], len: usize) -> (r: Result<Vec<u8>, Error>)
    ensures
        final(input)@.len() <= old(input)@.len(),
        match r {
            Ok(v) => spec_read_vec(old(input)@, len as int) == Some((v@, final(input)@)),
            Err(e) => spec_read_vec(old(input)@, len as int) is None && e is InvalidData,
        },
{
    require_len(*input, len)?;
    let v = slice_to_vec(slice_subrange(*input, 0, len));
    *input = slice_subrange(*input, len, input.len());
    Ok(v)
}

/// Takes a TPM2B from the front of `input` and gives its payload.
pub fn read_tpm2b(input: &mut &[u8]) -> (r: Result<Vec<u8>, Error>)
    ensures
        final(input)@.len() <= old(input)@.len(),
        match r {
            Ok(v) => spec_read_tpm2b(old(input)@) == Some((v@, final(input)@)),
            Err(e) => spec_read_tpm2b(old(input)@) is None && e is InvalidData,
        },
{
    let size = read_u16(input)?;
    read_vec(input, size as usize)
}

/// The payload of a TPM2B that fills `input` exactly.
pub fn read_tpm2b_exact(input: &[u8]) -> (r: Result<Vec<u8>, Error>)
    ensures
        match r {
            Ok(v) => spec_read_tpm2b_exact(input@) == Some(v@),
            Err(e) => spec_read_tpm2b_exact(input@) is None && e is InvalidData,
        },
{
    let mut slice = input;
    let bytes = read_tpm2b(&mut slice)?;
    ensure_consumed(slice)?;

    Ok(bytes)
}

pub fn ensure_consumed(input: &[u8]) -> (r: Result<(), Error>)
    ensures
        match r {
            Ok(()) => input@.len() == 0,
            Err(e) => input@.len() != 0 && e is InvalidData,
        },
{
    if input.len() != 0 {
        return Err(Error::InvalidData);
    }

    Ok(())
}

pub fn require_len(bytes: &[u8], required: usize) -> (r: Result<(), Error>)
    ensures
        match r {
            Ok(()) => bytes@.len() >= required,
            Err(e) => bytes@.len() < required && e is InvalidData,
        },
{
    if bytes.len() < required {
        return Err(Error::InvalidData);
    }

    Ok(())
}

pub fn marshal_u8(buf: &mut Vec<u8>, value: u8)
    ensures
        final(buf)@ == old(buf)@.push(value),
{
    buf.push(value);
}

pub fn marshal_u16(buf: &mut Vec<u8>, value: u16)
    ensures
        final(buf)@ == old(buf)@ + u16_bytes(value),
{
    buf.push((value / 256) as u8);
    buf.push((value % 256) as u8);
    assert(buf@ =~= old(buf)@ + u16_bytes(value));
}

pub fn marshal_u32(buf: &mut Vec<u8>, value: u32)
    ensures
        final(buf)@ == old(buf)@ + u32_bytes(value),
{
    buf.push((value / 0x100_0000) as u8);
    buf.push(((value / 0x1_0000) % 256) as u8);
    buf.push(((value / 256) % 256) as u8);
    buf.push((value % 256) as u8);
    assert(buf@ =~= old(buf)@ + u32_bytes(value));
}

/// Appends `bytes` to `buf`.
pub fn extend_bytes(buf: &mut Vec<u8>, bytes: &[u8])
    ensures
        final(buf)@ == old(buf)@ + bytes@,
{
    let mut i: usize = 0;
    while i < bytes.len()
        invariant
            0 <= i <= bytes@.len(),
            buf@ == old(buf)@ + bytes@.take(i as int),
        decreases bytes@.len() - i,
    {
        buf.push(bytes[i]);
        i += 1;
        assert(bytes@.take(i as int) =~= bytes@.take((i - 1) as int).push(bytes@[i - 1]));
    }
    assert(bytes@.take(i as int) =~= bytes@);
}

/// Appends `bytes` as a TPM2B; fails where they do not fit in its `u16` size.
pub fn marshal_tpm2b(buf: &mut Vec<u8>, bytes: &[u8]) -> (r: Result<(), Error>)
    ensures
        match r {
            Ok(()) => bytes@.len() <= 0xffff && final(buf)@ == old(buf)@ + tpm2b_bytes(bytes@),
            Err(e) => bytes@.len() > 0xffff && e is Internal && final(buf)@ == old(buf)@,
        },
{
    if bytes.len() > 0xffff {
        return Err(Error::invalid_state("TPM2B payload exceeds u16::MAX"));
    }
    marshal_u16(buf, bytes.len() as u16);
    extend_bytes(buf, bytes);
    assert(buf@ =~= old(buf)@ + tpm2b_bytes(bytes@));
    Ok(())
}


/// Where the payload of the TPM2B at the front of `s` lies: from the end of
/// its size field to the end of the payload, if `s` is long enough.
pub open spec fn tpm2b_payload_range(s: Seq<u8>) -> Option<(int, int)> {
    if s.len() < TPM2B_SIZE_BYTES {
        None
    } else {
        let end = TPM2B_SIZE_BYTES + spec_be_u16(s[0], s[1]);
        if s.len() < end {
            None
        } else {
            Some((TPM2B_SIZE_BYTES as int, end))
        }
    }
}

/// The payload of the TPM2B at the front of `input`, to be changed in place.
pub fn tpm2b_buffer_mut(input: &mut [u8]) -> (r: Result<&mut [u8], Error>)
    ensures
        match tpm2b_payload_range(old(input)@) {
            Some((start, end)) => r matches Ok(p) && p@ == old(input)@.subrange(start, end) && final(input)@
                == old(input)@.take(start) + final(p)@ + old(input)@.skip(end),
            None => r matches Err(e) && e is InvalidData && final(input)@ == old(input)@,
        },
{
    if input.len() < TPM2B_SIZE_BYTES {
        return Err(Error::InvalidData);
    }
    let size: usize = input[0] as usize * 256 + input[1] as usize;
    let end = TPM2B_SIZE_BYTES + size;
    if input.len() < end {
        return Err(Error::InvalidData);
    }
    let (head, _tail) = input.split_at_mut(end);
    let (_size_field, payload) = head.split_at_mut(TPM2B_SIZE_BYTES);
    Ok(payload)
}

/// The payload of the TPM2B at the front of `input`, to be changed in place;
/// the bytes before the payload and after it stay as they are.
pub fn tpm2b_payload_mut(input: &mut [u8]) -> (r: Result<&mut [u8], Error>)
    ensures
        match tpm2b_payload_range(old(input)@) {
            Some((start, end)) => r matches Ok(p) && p@ == old(input)@.subrange(start, end) && final(input)@
                == old(input)@.take(start) + final(p)@ + old(input)@.skip(end),
            None => r matches Err(e) && e is InvalidData && final(input)@ == old(input)@,
        },
{
    tpm2b_buffer_mut(input)
}

} // verus!
