//! Small helpers on byte vectors used by the id type, the codecs and the
//! key/value store.

use vstd::prelude::*;

verus! {

/// True iff the two vectors hold the same byte sequence.
pub fn bytes_eq(a: &Vec<u8>, b: &Vec<u8>) -> (r: bool)
    ensures
        r == (a@ == b@),
{
    if a.len() != b.len() {
        return false;
    }
    let mut i: usize = 0;
    while i < a.len()
        invariant
            0 <= i <= a@.len(),
            a@.len() == b@.len(),
            forall|j: int| 0 <= j < i ==> a@[j] == b@[j],
        decreases a@.len() - i,
    {
        if a[i] != b[i] {
            return false;
        }
        i = i + 1;
    }
    proof {
        assert(a@ =~= b@);
    }
    true
}

/// Appends every byte of `src` to `dst`.
pub fn push_bytes(dst: &mut Vec<u8>, src: &Vec<u8>)
    ensures
        final(dst)@ == old(dst)@ + src@,
{
    let mut i: usize = 0;
    while i < src.len()
        invariant
            0 <= i <= src@.len(),
            dst@ == old(dst)@ + src@.subrange(0, i as int),
        decreases src@.len() - i,
    {
        dst.push(src[i]);
        proof {
            assert(dst@ =~= old(dst)@ + src@.subrange(0, i + 1));
        }
        i = i + 1;
    }
    proof {
        assert(src@.subrange(0, src@.len() as int) =~= src@);
    }
}

/// Copies `len` bytes of `src` starting at `start` into a fresh vector.
pub fn copy_range(src: &Vec<u8>, start: usize, len: usize) -> (r: Vec<u8>)
    requires
        start + len <= src@.len(),
    ensures
        r@ == src@.subrange(start as int, start as int + len as int),
{
    let mut r: Vec<u8> = Vec::new();
    let n: usize = src.len();
    let mut i: usize = 0;
    while i < len
        invariant
            0 <= i <= len,
            n == src@.len(),
            start + len <= n,
            r@ == src@.subrange(start as int, start as int + i as int),
        decreases len - i,
    {
        r.push(src[start + i]);
        proof {
            assert(r@ =~= src@.subrange(start as int, start as int + i + 1));
        }
        i = i + 1;
    }
    r
}

/// True iff the bytes of `data` starting at `off` are exactly `pat`.
pub fn range_eq(data: &Vec<u8>, off: usize, pat: &Vec<u8>) -> (r: bool)
    requires
        off + pat@.len() <= data@.len(),
    ensures
        r == (data@.subrange(off as int, off as int + pat@.len() as int) == pat@),
{
    let n: usize = data.len();
    let mut i: usize = 0;
    while i < pat.len()
        invariant
            0 <= i <= pat@.len(),
            n == data@.len(),
            off + pat@.len() <= n,
            forall|j: int| 0 <= j < i ==> data@[off + j] == pat@[j],
        decreases pat@.len() - i,
    {
        if data[off + i] != pat[i] {
            proof {
                assert(data@.subrange(off as int, off as int + pat@.len() as int)[i as int]
                    != pat@[i as int]);
            }
            return false;
        }
        i = i + 1;
    }
    proof {
        assert(data@.subrange(off as int, off as int + pat@.len() as int) =~= pat@);
    }
    true
}

} // verus!
