//! Verified helpers over byte buffers: range copies and in-place overwrites.

use vstd::prelude::*;

verus! {

/// `data` with `vals` written over the bytes starting at `at`; everything
/// before and after is kept.
pub open spec fn overwrite(data: Seq<u8>, at: int, vals: Seq<u8>) -> Seq<u8>
    recommends
        0 <= at,
        at + vals.len() <= data.len(),
{
    data.subrange(0, at) + vals + data.subrange(at + vals.len(), data.len() as int)
}

/// Appends `src[from..to]` onto `dst`.
pub fn push_range(dst: &mut Vec<u8>, src: &Vec<u8>, from: usize, to: usize)
    requires
        from <= to <= src@.len(),
        old(dst)@.len() + (to - from) <= usize::MAX,
    ensures
        final(dst)@ == old(dst)@ + src@.subrange(from as int, to as int),
{
    let mut i: usize = from;
    while i < to
        invariant
            from <= i <= to <= src@.len(),
            dst@ == old(dst)@ + src@.subrange(from as int, i as int),
            dst@.len() == old(dst)@.len() + (i - from),
        decreases to - i,
    {
        let b = src[i];
        dst.push(b);
        proof {
            assert(dst@ =~= old(dst)@ + src@.subrange(from as int, i + 1 as int));
        }
        i = i + 1;
    }
}

/// A fresh copy of `src[from..to]`.
pub fn copy_range(src: &Vec<u8>, from: usize, to: usize) -> (r: Vec<u8>)
    requires
        from <= to <= src@.len(),
    ensures
        r@ == src@.subrange(from as int, to as int),
{
    let mut out: Vec<u8> = Vec::new();
    push_range(&mut out, src, from, to);
    proof {
        assert(out@ =~= src@.subrange(from as int, to as int));
    }
    out
}

/// Appends `n` zero bytes onto `dst`.
pub fn push_zeros(dst: &mut Vec<u8>, n: usize)
    requires
        old(dst)@.len() + n <= usize::MAX,
    ensures
        final(dst)@ == old(dst)@ + Seq::new(n as nat, |i: int| 0u8),
{
    let mut i: usize = 0;
    while i < n
        invariant
            0 <= i <= n,
            dst@ == old(dst)@ + Seq::new(i as nat, |j: int| 0u8),
            dst@.len() == old(dst)@.len() + i,
        decreases n - i,
    {
        dst.push(0);
        proof {
            assert(dst@ =~= old(dst)@ + Seq::new((i + 1) as nat, |j: int| 0u8));
        }
        i = i + 1;
    }
    proof {
        assert(dst@ =~= old(dst)@ + Seq::new(n as nat, |j: int| 0u8));
    }
}

/// Writes all of `src` into `dst` starting at `at`, in place.
pub fn write_at(dst: &mut Vec<u8>, at: usize, src: &Vec<u8>)
    requires
        at + src@.len() <= old(dst)@.len(),
    ensures
        final(dst)@ == overwrite(old(dst)@, at as int, src@),
{
    let dst_len = dst.len();
    let mut i: usize = 0;
    while i < src.len()
        invariant
            0 <= i <= src@.len(),
            at + src@.len() <= dst_len,
            at + src@.len() <= dst@.len(),
            dst@.len() == old(dst)@.len(),
            forall|j: int| 0 <= j < i ==> dst@[at + j] == src@[j],
            forall|j: int| 0 <= j < dst@.len() && !(at <= j < at + i) ==> dst@[j] == old(dst)@[j],
        decreases src@.len() - i,
    {
        let b = src[i];
        dst[at + i] = b;
        i = i + 1;
    }
    proof {
        assert(dst@ =~= overwrite(old(dst)@, at as int, src@));
    }
}

} // verus!
