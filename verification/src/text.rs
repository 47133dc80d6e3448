//! Comparing text by its characters.
use vstd::prelude::*;

verus! {

/// Whether two strings hold the same characters, compared by their UTF-8 bytes.
pub fn str_eq(a: &str, b: &str) -> (r: bool)
    ensures
        r == (a@ == b@),
{
    let ab = a.as_bytes();
    let bb = b.as_bytes();
    proof {
        vstd::utf8::encode_utf8_decode_utf8(a@);
        vstd::utf8::encode_utf8_decode_utf8(b@);
    }
    if ab.len() != bb.len() {
        return false;
    }
    let mut i: usize = 0;
    while i < ab.len()
        invariant
            ab@.len() == bb@.len(),
            ab@ == vstd::utf8::encode_utf8(a@),
            bb@ == vstd::utf8::encode_utf8(b@),
            i <= ab@.len(),
            forall|j: int| 0 <= j < i ==> ab@[j] == bb@[j],
        decreases ab@.len() - i,
    {
        if ab[i] != bb[i] {
            return false;
        }
        i += 1;
    }
    assert(ab@ =~= bb@);
    true
}

/// Whether the UTF-8 bytes of `s` begin with those of `prefix`.
pub fn starts_with(s: &str, prefix: &str) -> (r: bool)
    ensures
        r == vstd::utf8::encode_utf8(prefix@).is_prefix_of(vstd::utf8::encode_utf8(s@)),
{
    let sb = s.as_bytes();
    let pb = prefix.as_bytes();
    if pb.len() > sb.len() {
        return false;
    }
    let mut i: usize = 0;
    while i < pb.len()
        invariant
            pb@.len() <= sb@.len(),
            sb@ == vstd::utf8::encode_utf8(s@),
            pb@ == vstd::utf8::encode_utf8(prefix@),
            i <= pb@.len(),
            forall|j: int| 0 <= j < i ==> pb@[j] == sb@[j],
        decreases pb@.len() - i,
    {
        if pb[i] != sb[i] {
            return false;
        }
        i += 1;
    }
    assert(pb@ =~= sb@.subrange(0, pb@.len() as int));
    true
}

} // verus!
