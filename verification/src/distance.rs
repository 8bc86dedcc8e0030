//! Exact squared Euclidean distance between integer coordinate vectors.

use vstd::prelude::*;

verus! {

/// Sum of the squared coordinate differences over the first `n` positions.
pub open spec fn sq_dist_prefix(a: Seq<i32>, b: Seq<i32>, n: int) -> int
    decreases n,
{
    if n <= 0 {
        0
    } else {
        sq_dist_prefix(a, b, n - 1) + (a[n - 1] - b[n - 1]) * (a[n - 1] - b[n - 1])
    }
}

/// Squared Euclidean distance between two vectors of equal dimensionality.
pub open spec fn sq_dist(a: Seq<i32>, b: Seq<i32>) -> int {
    sq_dist_prefix(a, b, a.len() as int)
}

/// Computes the exact squared Euclidean distance between `a` and `b`.
/// The widest possible case, `usize::MAX` coordinates that differ by the
/// full `i32` range, still fits in a `u128`, so no overflow is possible.
pub fn euclidean_sq_distance(a: &Vec<i32>, b: &Vec<i32>) -> (r: u128)
    requires
        a@.len() == b@.len(),
    ensures
        r == sq_dist(a@, b@),
{
    let n = a.len();
    let mut acc: u128 = 0;
    let mut i: usize = 0;
    while i < n
        invariant
            n == a@.len(),
            n == b@.len(),
            i <= n,
            acc == sq_dist_prefix(a@, b@, i as int),
            acc <= (i as int) * 0xFFFF_FFFE_0000_0001,
        decreases n - i,
    {
        let d: i64 = (a[i] as i64) - (b[i] as i64);
        proof {
            assert(0 <= d * d <= 0xFFFF_FFFE_0000_0001) by (nonlinear_arith)
                requires
                    -0xFFFF_FFFF <= d <= 0xFFFF_FFFF,
            ;
        }
        let sq: i128 = (d as i128) * (d as i128);
        acc = acc + (sq as u128);
        i = i + 1;
    }
    acc
}

} // verus!
