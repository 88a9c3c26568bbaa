//! Integer square roots.

use vstd::prelude::*;

verus! {

/// `r` is the largest integer whose square does not exceed `n`.
pub open spec fn is_floor_sqrt(n: int, r: int) -> bool {
    0 <= r && r * r <= n && n < (r + 1) * (r + 1)
}

/// The square root of `n` rounded down.
pub open spec fn floor_sqrt(n: int) -> int {
    choose|r: int| is_floor_sqrt(n, r)
}

/// The square root of `n` rounded up.
pub open spec fn ceil_sqrt(n: int) -> int {
    let r = floor_sqrt(n);
    if r * r == n {
        r
    } else {
        r + 1
    }
}

/// Squaring is monotonic on the non-negative integers.
pub proof fn lemma_square_monotonic(a: int, b: int)
    requires
        0 <= a <= b,
    ensures
        a * a <= b * b,
{
    assert(a * a <= b * b) by (nonlinear_arith)
        requires
            0 <= a <= b,
    ;
}

/// Every non-negative integer has a rounded-down square root.
pub proof fn lemma_floor_sqrt_exists(n: int) -> (r: int)
    requires
        n >= 0,
    ensures
        is_floor_sqrt(n, r),
    decreases n,
{
    if n == 0 {
        assert(0 * 0 == 0 && (0 + 1) * (0 + 1) == 1) by (nonlinear_arith);
        0
    } else {
        let p = lemma_floor_sqrt_exists(n - 1);
        assert((p + 1 + 1) * (p + 1 + 1) > (p + 1) * (p + 1)) by (nonlinear_arith)
            requires
                p >= 0,
        ;
        if (p + 1) * (p + 1) <= n {
            p + 1
        } else {
            p
        }
    }
}

/// The rounded-down square root is unique, so any witness is `floor_sqrt(n)`.
pub proof fn lemma_floor_sqrt_unique(n: int, r: int)
    requires
        is_floor_sqrt(n, r),
    ensures
        floor_sqrt(n) == r,
{
    let s = floor_sqrt(n);
    assert(is_floor_sqrt(n, s));
    if s < r {
        lemma_square_monotonic(s + 1, r);
    } else if r < s {
        lemma_square_monotonic(r + 1, s);
    }
}

/// The defining bounds of both roots of a non-negative integer.
pub proof fn lemma_sqrt_bounds(n: int)
    requires
        n >= 0,
    ensures
        is_floor_sqrt(n, floor_sqrt(n)),
        0 <= ceil_sqrt(n),
        n <= ceil_sqrt(n) * ceil_sqrt(n),
        floor_sqrt(n) <= ceil_sqrt(n) <= floor_sqrt(n) + 1,
        n == 0 <==> ceil_sqrt(n) == 0,
{
    let r = lemma_floor_sqrt_exists(n);
    lemma_floor_sqrt_unique(n, r);
    assert((r + 1) * (r + 1) >= 1) by (nonlinear_arith)
        requires
            r >= 0,
    ;
    assert(r == 0 ==> r * r == 0) by (nonlinear_arith);
    assert(r > 0 ==> r * r > 0) by (nonlinear_arith);
}

/// Square root of a 128-bit number, rounded down.
pub fn isqrt(n: u128) -> (r: u128)
    ensures
        r as int == floor_sqrt(n as int),
        is_floor_sqrt(n as int, r as int),
        r < 0x1_0000_0000_0000_0000,
{
    let mut lo: u128 = 0;
    let mut hi: u128 = 0x1_0000_0000_0000_0000;
    assert(hi * hi > n) by (nonlinear_arith)
        requires
            hi == 0x1_0000_0000_0000_0000,
            n < 0x1_0000_0000_0000_0000_0000_0000_0000_0000,
    ;
    while hi - lo > 1
        invariant
            lo < hi <= 0x1_0000_0000_0000_0000,
            lo * lo <= n,
            n < hi * hi,
        decreases hi - lo,
    {
        let mid: u128 = lo + (hi - lo) / 2;
        assert(mid * mid < 0x1_0000_0000_0000_0000_0000_0000_0000_0000) by (nonlinear_arith)
            requires
                mid < 0x1_0000_0000_0000_0000,
        ;
        if mid * mid <= n {
            lo = mid;
        } else {
            hi = mid;
        }
    }
    proof {
        assert(hi == lo + 1);
        lemma_floor_sqrt_unique(n as int, lo as int);
    }
    lo
}

/// Square root of a 128-bit number, rounded up.
pub fn isqrt_ceil(n: u128) -> (r: u128)
    ensures
        r as int == ceil_sqrt(n as int),
        r <= 0x1_0000_0000_0000_0000,
{
    let r = isqrt(n);
    assert(r * r < 0x1_0000_0000_0000_0000_0000_0000_0000_0000) by (nonlinear_arith)
        requires
            r < 0x1_0000_0000_0000_0000,
    ;
    if r * r == n {
        r
    } else {
        r + 1
    }
}

/// The rounded-up square root of `n` is the least integer whose square
/// reaches `n`.
pub proof fn lemma_ceil_sqrt_least(n: int, m: int)
    requires
        0 <= n <= m * m,
        0 <= m,
    ensures
        ceil_sqrt(n) <= m,
{
    lemma_sqrt_bounds(n);
    let r = floor_sqrt(n);
    if r >= m + 1 {
        lemma_square_monotonic(m + 1, r);
        assert((m + 1) * (m + 1) > m * m) by (nonlinear_arith)
            requires
                m >= 0,
        ;
    }
    if r * r != n && r >= m {
        lemma_square_monotonic(m, r);
    }
}

} // verus!
