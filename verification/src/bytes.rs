//! Small verified helpers for byte vectors.

use vstd::prelude::*;

verus! {

/// Returns whether two byte vectors hold the same bytes.
pub fn bytes_eq(a: &Vec<u8>, b: &Vec<u8>) -> (r: bool)
    ensures
        r == (a@ == b@),
{
    if a.len() != b.len() {
        return false;
    }
    let mut i: usize = 0;
    while i < a.len()
        invariant
            i <= a.len(),
            a.len() == b.len(),
            forall|j: int| 0 <= j < i ==> a@[j] == b@[j],
        decreases a.len() - i,
    {
        if a[i] != b[i] {
            return false;
        }
        i = i + 1;
    }
    proof {
        assert(a@ =~= b@);
    }
    true
}

/// Appends all bytes of `src` onto the end of `out`.
pub fn append_bytes(out: &mut Vec<u8>, src: &Vec<u8>)
    ensures
        final(out)@ == old(out)@ + src@,
{
    let mut i: usize = 0;
    while i < src.len()
        invariant
            i <= src.len(),
            out@ == old(out)@ + src@.subrange(0, i as int),
        decreases src.len() - i,
    {
        out.push(src[i]);
        i = i + 1;
        proof {
            assert(out@ =~= old(out)@ + src@.subrange(0, i as int));
        }
    }
    proof {
        assert(out@ =~= old(out)@ + src@);
    }
}

/// Returns whether the bytes of `tag` appear in `b` starting at `at`.
pub fn tag_matches(b: &Vec<u8>, at: usize, tag: &Vec<u8>) -> (r: bool)
    requires
        at + tag@.len() <= b@.len(),
    ensures
        r == (b@.subrange(at as int, at + tag@.len()) == tag@),
{
    let n: usize = b.len();
    let mut i: usize = 0;
    while i < tag.len()
        invariant
            i <= tag@.len(),
            at + tag@.len() <= b@.len(),
            b@.len() == n,
            forall|j: int| 0 <= j < i ==> b@[at + j] == tag@[j],
        decreases tag@.len() - i,
    {
        if b[at + i] != tag[i] {
            proof {
                assert(b@.subrange(at as int, at + tag@.len())[i as int] != tag@[i as int]);
            }
            return false;
        }
        i = i + 1;
    }
    proof {
        assert(b@.subrange(at as int, at + tag@.len()) =~= tag@);
    }
    true
}

/// Returns a fresh vector holding the same bytes as `src`.
pub fn copy_bytes(src: &Vec<u8>) -> (r: Vec<u8>)
    ensures
        r@ == src@,
{
    let mut out: Vec<u8> = Vec::new();
    let mut i: usize = 0;
    while i < src.len()
        invariant
            i <= src.len(),
            out@ == src@.subrange(0, i as int),
        decreases src.len() - i,
    {
        out.push(src[i]);
        i = i + 1;
        proof {
            assert(out@ =~= src@.subrange(0, i as int));
        }
    }
    proof {
        assert(out@ =~= src@);
    }
    out
}

} // verus!
