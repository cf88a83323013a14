//! Extraction of fixed-width fields from a byte stream.

use vstd::prelude::*;

verus! {

broadcast use vstd::array::group_array_axioms;

/// Copies the `N` bytes of `src` that start at `off` into an owned
/// fixed-width array, preserving their order.
pub fn bytes_at<const N: usize>(src: &[u8], off: usize) -> (r: [u8; N])
    requires
        off + N <= src@.len(),
    ensures
        r@ == src@.subrange(off as int, off as int + N),
{
    let n: usize = src.len();
    let mut r = [0u8; N];
    let mut i: usize = 0;
    while i < N
        invariant
            off + N <= n == src@.len(),
            i <= N,
            r@.len() == N,
            forall|j: int| 0 <= j < i ==> r@[j] == src@[off + j],
        decreases N - i,
    {
        r[i] = src[off + i];
        i += 1;
    }
    proof {
        assert(r@ =~= src@.subrange(off as int, off as int + N));
    }
    r
}

} // verus!
