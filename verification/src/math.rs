//! Small arithmetic lemmas shared by the frame model and the converter.

use vstd::prelude::*;

verus! {

/// The product of two values below `2^32` stays below `2^64`.
pub proof fn lemma_mul_u32_bound(a: int, b: int)
    by (nonlinear_arith)
    requires
        0 <= a < 0x1_0000_0000,
        0 <= b < 0x1_0000_0000,
    ensures
        0 <= a * b < 0x1_0000_0000_0000_0000,
{
}

/// The product of two values below `2^32` and a small factor stays below
/// `2^67`.
pub proof fn lemma_mul3_bound(a: int, b: int, c: int)
    by (nonlinear_arith)
    requires
        0 <= a < 0x1_0000_0000,
        0 <= b < 0x1_0000_0000,
        0 <= c <= 4,
    ensures
        0 <= a * b * c < 0x8_0000_0000_0000_0000,
{
}

/// Multiplication is monotone in its left factor.
pub proof fn lemma_mul_le(a: int, b: int, c: int)
    by (nonlinear_arith)
    requires
        0 <= a <= b,
        0 <= c,
    ensures
        a * c <= b * c,
{
}

/// Multiplication distributes over addition.
pub proof fn lemma_mul_distrib(a: int, b: int, c: int)
    by (nonlinear_arith)
    ensures
        (a + b) * c == a * c + b * c,
{
}

/// Nearest-neighbour index bound: for `t < dst`, the scaled index
/// `t * src / dst` stays below `src`.
pub proof fn lemma_scaled_index_bound(t: int, src: int, dst: int)
    by (nonlinear_arith)
    requires
        0 <= t < dst,
        0 < src,
    ensures
        0 <= (t * src) / dst < src,
{
}

/// Division with a positive divisor is monotone in the dividend.
pub proof fn lemma_div_monotone(a: int, b: int, d: int)
    by (nonlinear_arith)
    requires
        0 <= a <= b,
        0 < d,
    ensures
        a / d <= b / d,
{
}

/// A counter bumped by one, saturating at the top of its range.
pub open spec fn spec_bump(x: u64) -> u64 {
    if x < u64::MAX {
        (x + 1) as u64
    } else {
        x
    }
}

/// Bumps a counter by one, saturating at the top of its range.
pub fn bump(x: u64) -> (r: u64)
    ensures
        r == spec_bump(x),
        r >= x,
{
    if x < u64::MAX {
        x + 1
    } else {
        x
    }
}

/// Recover quotient and remainder from a flat index `q * b + r`.
pub proof fn lemma_flat_index(q: int, r: int, b: int)
    by (nonlinear_arith)
    requires
        0 <= q,
        0 <= r < b,
    ensures
        (q * b + r) / b == q,
        (q * b + r) % b == r,
{
}

} // verus!
