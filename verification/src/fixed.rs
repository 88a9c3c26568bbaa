//! Saturating signed fixed-point numbers with 32 fractional bits.
//!
//! A [`Real`] with raw value `r` stands for the number `r / 2^32`. Sums,
//! products and quotients are rounded toward zero and clamped to the
//! representable range, so that every operation is total and symmetric
//! under negation of its operands' magnitudes.

use vstd::prelude::*;

verus! {

/// Number of bits behind the binary point.
pub const FRACTION_BITS: u32 = 32;

/// Raw value of the number one.
pub const ONE_RAW: i64 = 0x1_0000_0000;

/// The integer `v` clamped to the range of a raw value.
pub open spec fn saturate(v: int) -> int {
    if v < i64::MIN as int {
        i64::MIN as int
    } else if v > i64::MAX as int {
        i64::MAX as int
    } else {
        v
    }
}

/// Quotient of `a` by `b` rounded toward zero, and zero where `b` is zero.
pub open spec fn trunc_div(a: int, b: int) -> int {
    if b == 0 {
        0
    } else if b > 0 {
        if a >= 0 {
            a / b
        } else {
            -((-a) / b)
        }
    } else {
        if a >= 0 {
            -(a / (-b))
        } else {
            (-a) / (-b)
        }
    }
}

/// A fixed-point number; `raw` is the number scaled by `2^32`.
#[derive(Clone, Copy, Debug, PartialEq, Eq, Structural)]
pub struct Real {
    pub raw: i64,
}

impl View for Real {
    type V = int;

    open spec fn view(&self) -> int {
        self.raw as int
    }
}

/// The number whose raw value is `v` clamped to the representable range.
pub open spec fn real_of(v: int) -> Real {
    Real { raw: saturate(v) as i64 }
}

/// The magnitude of a quotient toward zero never exceeds that of the dividend.
pub proof fn lemma_trunc_div_bound(a: int, b: int)
    ensures
        a >= 0 ==> -a <= trunc_div(a, b) <= a,
        a <= 0 ==> a <= trunc_div(a, b) <= -a,
        b > 0 && a >= 0 ==> trunc_div(a, b) >= 0,
        b > 0 && a <= 0 ==> trunc_div(a, b) <= 0,
{
    if b > 0 {
        if a >= 0 {
            assert(0 <= a / b <= a) by (nonlinear_arith)
                requires
                    a >= 0,
                    b > 0,
            ;
        } else {
            assert(0 <= (-a) / b <= -a) by (nonlinear_arith)
                requires
                    -a >= 0,
                    b > 0,
            ;
        }
    } else if b < 0 {
        if a >= 0 {
            assert(0 <= a / (-b) <= a) by (nonlinear_arith)
                requires
                    a >= 0,
                    -b > 0,
            ;
        } else {
            assert(0 <= (-a) / (-b) <= -a) by (nonlinear_arith)
                requires
                    -a >= 0,
                    -b > 0,
            ;
        }
    }
}

/// The product of two raw values fits in 128 bits with room to spare.
pub proof fn lemma_raw_product_bound(a: int, b: int)
    requires
        i64::MIN <= a <= i64::MAX,
        i64::MIN <= b <= i64::MAX,
    ensures
        -0x4000_0000_0000_0000_0000_0000_0000_0000 <= a * b
            <= 0x4000_0000_0000_0000_0000_0000_0000_0000,
{
    assert(-0x4000_0000_0000_0000_0000_0000_0000_0000 <= a * b
        <= 0x4000_0000_0000_0000_0000_0000_0000_0000) by (nonlinear_arith)
        requires
            -0x8000_0000_0000_0000 <= a <= 0x8000_0000_0000_0000,
            -0x8000_0000_0000_0000 <= b <= 0x8000_0000_0000_0000,
    ;
}

pub(crate) fn saturate_wide(v: i128) -> (r: i64)
    ensures
        r as int == saturate(v as int),
{
    if v < i64::MIN as i128 {
        i64::MIN
    } else if v > i64::MAX as i128 {
        i64::MAX
    } else {
        v as i64
    }
}

pub(crate) fn divide_toward_zero(a: i128, b: i128) -> (q: i128)
    requires
        -0x4000_0000_0000_0000_0000_0000_0000_0000 <= a
            <= 0x4000_0000_0000_0000_0000_0000_0000_0000,
        -0x1_0000_0000_0000_0000 <= b <= 0x1_0000_0000_0000_0000,
    ensures
        q as int == trunc_div(a as int, b as int),
{
    proof {
        lemma_trunc_div_bound(a as int, b as int);
    }
    if b == 0 {
        0
    } else if b > 0 {
        a / b
    } else {
        let d: i128 = -b;
        let p: i128 = a / d;
        -p
    }
}

impl Real {
    /// The number zero.
    pub open spec fn spec_zero() -> Real {
        Real { raw: 0 }
    }

    /// The number one.
    pub open spec fn spec_one() -> Real {
        Real { raw: ONE_RAW }
    }

    /// The whole number `v`.
    #[verifier::opaque]
    pub open spec fn spec_from_int(v: i32) -> Real {
        real_of(v as int * ONE_RAW as int)
    }

    /// The fraction `num / den`, rounded toward zero; zero where `den` is zero.
    pub open spec fn spec_from_ratio(num: i32, den: i32) -> Real {
        Real::spec_from_int(num).spec_div(Real::spec_from_int(den))
    }

    /// Saturating sum.
    #[verifier::opaque]
    pub open spec fn spec_add(self, rhs: Real) -> Real {
        real_of(self.raw as int + rhs.raw as int)
    }

    /// Saturating difference.
    #[verifier::opaque]
    pub open spec fn spec_sub(self, rhs: Real) -> Real {
        real_of(self.raw as int - rhs.raw as int)
    }

    /// Saturating negation.
    #[verifier::opaque]
    pub open spec fn spec_neg(self) -> Real {
        real_of(-(self.raw as int))
    }

    /// Saturating product, rounded toward zero.
    #[verifier::opaque]
    pub open spec fn spec_mul(self, rhs: Real) -> Real {
        real_of(trunc_div(self.raw as int * rhs.raw as int, ONE_RAW as int))
    }

    /// Saturating quotient, rounded toward zero; zero where `rhs` is zero.
    #[verifier::opaque]
    pub open spec fn spec_div(self, rhs: Real) -> Real {
        real_of(trunc_div(self.raw as int * ONE_RAW as int, rhs.raw as int))
    }

    /// Reciprocal, with the reciprocal of zero defined as zero.
    pub open spec fn spec_inv(self) -> Real {
        Real::spec_one().spec_div(self)
    }

    /// The larger of two numbers.
    pub open spec fn spec_max(self, rhs: Real) -> Real {
        if self.raw >= rhs.raw {
            self
        } else {
            rhs
        }
    }

    /// The smaller of two numbers.
    pub open spec fn spec_min(self, rhs: Real) -> Real {
        if self.raw <= rhs.raw {
            self
        } else {
            rhs
        }
    }

    /// `self` restricted to the interval from `lo` to `hi`.
    pub open spec fn spec_clamp(self, lo: Real, hi: Real) -> Real {
        if self.raw < lo.raw {
            lo
        } else if self.raw > hi.raw {
            hi
        } else {
            self
        }
    }

    pub fn from_raw(raw: i64) -> (r: Real)
        ensures
            r == (Real { raw }),
    {
        Real { raw }
    }

    pub fn zero() -> (r: Real)
        ensures
            r == Real::spec_zero(),
    {
        Real { raw: 0 }
    }

    pub fn one() -> (r: Real)
        ensures
            r == Real::spec_one(),
    {
        Real { raw: ONE_RAW }
    }

    pub fn from_int(v: i32) -> (r: Real)
        ensures
            r == Real::spec_from_int(v),
    {
        proof {
            reveal(Real::spec_from_int);
        }
        let wide: i128 = (v as i128) * 0x1_0000_0000;
        Real { raw: saturate_wide(wide) }
    }

    pub fn from_ratio(num: i32, den: i32) -> (r: Real)
        ensures
            r == Real::spec_from_ratio(num, den),
    {
        Real::from_int(num).div(Real::from_int(den))
    }

    pub fn add(self, rhs: Real) -> (r: Real)
        ensures
            r == self.spec_add(rhs),
    {
        proof {
            reveal(Real::spec_add);
        }
        Real { raw: saturate_wide(self.raw as i128 + rhs.raw as i128) }
    }

    pub fn sub(self, rhs: Real) -> (r: Real)
        ensures
            r == self.spec_sub(rhs),
    {
        proof {
            reveal(Real::spec_sub);
        }
        Real { raw: saturate_wide(self.raw as i128 - rhs.raw as i128) }
    }

    pub fn neg(self) -> (r: Real)
        ensures
            r == self.spec_neg(),
    {
        proof {
            reveal(Real::spec_neg);
        }
        Real { raw: saturate_wide(-(self.raw as i128)) }
    }

    pub fn mul(self, rhs: Real) -> (r: Real)
        ensures
            r == self.spec_mul(rhs),
    {
        proof {
            reveal(Real::spec_mul);
            lemma_raw_product_bound(self.raw as int, rhs.raw as int);
        }
        let wide: i128 = (self.raw as i128) * (rhs.raw as i128);
        Real { raw: saturate_wide(divide_toward_zero(wide, ONE_RAW as i128)) }
    }

    pub fn div(self, rhs: Real) -> (r: Real)
        ensures
            r == self.spec_div(rhs),
    {
        proof {
            reveal(Real::spec_div);
        }
        let wide: i128 = (self.raw as i128) * 0x1_0000_0000;
        Real { raw: saturate_wide(divide_toward_zero(wide, rhs.raw as i128)) }
    }

    pub fn inv(self) -> (r: Real)
        ensures
            r == self.spec_inv(),
            self@ == 0 ==> r@ == 0,
    {
        proof {
            reveal(Real::spec_div);
        }
        Real::one().div(self)
    }

    pub fn max(self, rhs: Real) -> (r: Real)
        ensures
            r == self.spec_max(rhs),
    {
        if self.raw >= rhs.raw {
            self
        } else {
            rhs
        }
    }

    pub fn min(self, rhs: Real) -> (r: Real)
        ensures
            r == self.spec_min(rhs),
    {
        if self.raw <= rhs.raw {
            self
        } else {
            rhs
        }
    }

    pub fn clamp(self, lo: Real, hi: Real) -> (r: Real)
        ensures
            r == self.spec_clamp(lo, hi),
    {
        if self.raw < lo.raw {
            lo
        } else if self.raw > hi.raw {
            hi
        } else {
            self
        }
    }

    pub fn lt(self, rhs: Real) -> (b: bool)
        ensures
            b == (self@ < rhs@),
    {
        self.raw < rhs.raw
    }

    pub fn gt(self, rhs: Real) -> (b: bool)
        ensures
            b == (self@ > rhs@),
    {
        self.raw > rhs.raw
    }

    pub fn is_zero(self) -> (b: bool)
        ensures
            b == (self@ == 0),
    {
        self.raw == 0
    }
}

/// Adding or subtracting zero changes nothing, and a number minus itself is zero.
pub proof fn lemma_add_sub_zero(a: Real)
    ensures
        a.spec_add(Real::spec_zero()) == a,
        Real::spec_zero().spec_add(a) == a,
        a.spec_sub(Real::spec_zero()) == a,
        a.spec_sub(a) == Real::spec_zero(),
        Real::spec_zero().spec_neg() == Real::spec_zero(),
{
    reveal(Real::spec_add);
    reveal(Real::spec_sub);
    reveal(Real::spec_neg);
}

/// A product with a zero factor is zero.
pub proof fn lemma_mul_zero(a: Real)
    ensures
        a.spec_mul(Real::spec_zero()) == Real::spec_zero(),
        Real::spec_zero().spec_mul(a) == Real::spec_zero(),
{
    reveal(Real::spec_mul);
    assert(a@ * 0 == 0 && 0 * a@ == 0) by (nonlinear_arith);
}

/// The product of two non-negative numbers is non-negative.
pub proof fn lemma_mul_nonnegative(a: Real, b: Real)
    requires
        a@ >= 0,
        b@ >= 0,
    ensures
        a.spec_mul(b)@ >= 0,
{
    reveal(Real::spec_mul);
    assert(a@ * b@ >= 0) by (nonlinear_arith)
        requires
            a@ >= 0,
            b@ >= 0,
    ;
    lemma_trunc_div_bound(a@ * b@, ONE_RAW as int);
}

/// Multiplying by one changes nothing.
pub proof fn lemma_mul_one(a: Real)
    ensures
        a.spec_mul(Real::spec_one()) == a,
        Real::spec_one().spec_mul(a) == a,
{
    reveal(Real::spec_mul);
    let one = ONE_RAW as int;
    assert(a@ * one == one * a@) by (nonlinear_arith);
    if a@ >= 0 {
        assert((a@ * one) / one == a@) by (nonlinear_arith)
            requires
                one == 0x1_0000_0000,
        ;
    } else {
        assert(-(a@ * one) == (-a@) * one) by (nonlinear_arith);
        assert(((-a@) * one) / one == -a@) by (nonlinear_arith)
            requires
                one == 0x1_0000_0000,
        ;
    }
}

/// Multiplying by a non-negative number keeps the order.
pub proof fn lemma_mul_monotonic(a: Real, x: Real, y: Real)
    requires
        a@ >= 0,
        x@ <= y@,
    ensures
        a.spec_mul(x)@ <= a.spec_mul(y)@,
{
    reveal(Real::spec_mul);
    assert(a@ * x@ <= a@ * y@) by (nonlinear_arith)
        requires
            a@ >= 0,
            x@ <= y@,
    ;
}

} // verus!
