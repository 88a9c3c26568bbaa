//! Fixed-point vectors in space and in the tangent plane of a contact.

use vstd::prelude::*;
use crate::fixed::{divide_toward_zero, lemma_add_sub_zero, lemma_mul_zero,
    lemma_raw_product_bound, real_of,
    saturate, saturate_wide, trunc_div, Real};
use crate::root::{ceil_sqrt, floor_sqrt, isqrt, isqrt_ceil, lemma_ceil_sqrt_least,
    lemma_sqrt_bounds};

verus! {

/// A vector, or a point, in three-dimensional space.
#[derive(Clone, Copy, Debug, PartialEq, Eq, Structural)]
pub struct Vector3 {
    pub x: Real,
    pub y: Real,
    pub z: Real,
}

/// A vector in the two-dimensional tangent plane of a contact.
#[derive(Clone, Copy, Debug, PartialEq, Eq, Structural)]
pub struct Vector2 {
    pub x: Real,
    pub y: Real,
}

fn square_wide(a: Real) -> (r: u128)
    ensures
        r as int == a@ * a@,
        r <= 0x4000_0000_0000_0000_0000_0000_0000_0000,
{
    proof {
        lemma_raw_product_bound(a@, a@);
        assert(a@ * a@ >= 0) by (nonlinear_arith);
    }
    let wide: i128 = (a.raw as i128) * (a.raw as i128);
    wide as u128
}

fn saturate_unsigned(v: u128) -> (r: i64)
    ensures
        r as int == saturate(v as int),
{
    if v > i64::MAX as u128 {
        i64::MAX
    } else {
        v as i64
    }
}

impl Vector3 {
    /// The null vector.
    pub open spec fn spec_zero() -> Vector3 {
        Vector3 { x: Real::spec_zero(), y: Real::spec_zero(), z: Real::spec_zero() }
    }

    /// Componentwise sum.
    pub open spec fn spec_add(self, rhs: Vector3) -> Vector3 {
        Vector3 {
            x: self.x.spec_add(rhs.x),
            y: self.y.spec_add(rhs.y),
            z: self.z.spec_add(rhs.z),
        }
    }

    /// Componentwise difference.
    pub open spec fn spec_sub(self, rhs: Vector3) -> Vector3 {
        Vector3 {
            x: self.x.spec_sub(rhs.x),
            y: self.y.spec_sub(rhs.y),
            z: self.z.spec_sub(rhs.z),
        }
    }

    /// The opposite vector.
    pub open spec fn spec_neg(self) -> Vector3 {
        Vector3 { x: self.x.spec_neg(), y: self.y.spec_neg(), z: self.z.spec_neg() }
    }

    /// The vector with every component multiplied by `s`.
    pub open spec fn spec_scale(self, s: Real) -> Vector3 {
        Vector3 { x: self.x.spec_mul(s), y: self.y.spec_mul(s), z: self.z.spec_mul(s) }
    }

    /// The vector with every component divided by `s`.
    pub open spec fn spec_unscale(self, s: Real) -> Vector3 {
        Vector3 { x: self.x.spec_div(s), y: self.y.spec_div(s), z: self.z.spec_div(s) }
    }

    /// Componentwise product.
    pub open spec fn spec_component_mul(self, rhs: Vector3) -> Vector3 {
        Vector3 {
            x: self.x.spec_mul(rhs.x),
            y: self.y.spec_mul(rhs.y),
            z: self.z.spec_mul(rhs.z),
        }
    }

    /// Scalar product, summed from the first component to the last.
    pub open spec fn spec_dot(self, rhs: Vector3) -> Real {
        self.x.spec_mul(rhs.x).spec_add(self.y.spec_mul(rhs.y)).spec_add(self.z.spec_mul(rhs.z))
    }

    /// Vector product.
    pub open spec fn spec_cross(self, rhs: Vector3) -> Vector3 {
        Vector3 {
            x: self.y.spec_mul(rhs.z).spec_sub(self.z.spec_mul(rhs.y)),
            y: self.z.spec_mul(rhs.x).spec_sub(self.x.spec_mul(rhs.z)),
            z: self.x.spec_mul(rhs.y).spec_sub(self.y.spec_mul(rhs.x)),
        }
    }

    /// Sum of the squares of the raw components.
    pub open spec fn spec_norm_squared_raw(self) -> int {
        self.x@ * self.x@ + self.y@ * self.y@ + self.z@ * self.z@
    }

    /// Euclidean length, rounded down.
    pub open spec fn spec_norm(self) -> Real {
        real_of(floor_sqrt(self.spec_norm_squared_raw()))
    }

    /// A vector at right angles to `self`, of unit length where `self` is.
    pub open spec fn spec_orthonormal_vector(self) -> Vector3 {
        let sign = if self.z@ >= 0 {
            Real::spec_one()
        } else {
            Real::spec_one().spec_neg()
        };
        let a = Real::spec_one().spec_neg().spec_div(sign.spec_add(self.z));
        let b = self.x.spec_mul(self.y).spec_mul(a);
        Vector3 { x: b, y: sign.spec_add(self.y.spec_mul(self.y).spec_mul(a)), z: self.y.spec_neg() }
    }

    pub fn new(x: Real, y: Real, z: Real) -> (r: Vector3)
        ensures
            r == (Vector3 { x, y, z }),
    {
        Vector3 { x, y, z }
    }

    pub fn zero() -> (r: Vector3)
        ensures
            r == Vector3::spec_zero(),
    {
        Vector3 { x: Real::zero(), y: Real::zero(), z: Real::zero() }
    }

    pub fn add(self, rhs: Vector3) -> (r: Vector3)
        ensures
            r == self.spec_add(rhs),
    {
        Vector3 { x: self.x.add(rhs.x), y: self.y.add(rhs.y), z: self.z.add(rhs.z) }
    }

    pub fn sub(self, rhs: Vector3) -> (r: Vector3)
        ensures
            r == self.spec_sub(rhs),
    {
        Vector3 { x: self.x.sub(rhs.x), y: self.y.sub(rhs.y), z: self.z.sub(rhs.z) }
    }

    pub fn neg(self) -> (r: Vector3)
        ensures
            r == self.spec_neg(),
    {
        Vector3 { x: self.x.neg(), y: self.y.neg(), z: self.z.neg() }
    }

    pub fn scale(self, s: Real) -> (r: Vector3)
        ensures
            r == self.spec_scale(s),
    {
        Vector3 { x: self.x.mul(s), y: self.y.mul(s), z: self.z.mul(s) }
    }

    pub fn unscale(self, s: Real) -> (r: Vector3)
        ensures
            r == self.spec_unscale(s),
    {
        Vector3 { x: self.x.div(s), y: self.y.div(s), z: self.z.div(s) }
    }

    pub fn component_mul(self, rhs: Vector3) -> (r: Vector3)
        ensures
            r == self.spec_component_mul(rhs),
    {
        Vector3 { x: self.x.mul(rhs.x), y: self.y.mul(rhs.y), z: self.z.mul(rhs.z) }
    }

    pub fn dot(self, rhs: Vector3) -> (r: Real)
        ensures
            r == self.spec_dot(rhs),
    {
        self.x.mul(rhs.x).add(self.y.mul(rhs.y)).add(self.z.mul(rhs.z))
    }

    pub fn cross(self, rhs: Vector3) -> (r: Vector3)
        ensures
            r == self.spec_cross(rhs),
    {
        Vector3 {
            x: self.y.mul(rhs.z).sub(self.z.mul(rhs.y)),
            y: self.z.mul(rhs.x).sub(self.x.mul(rhs.z)),
            z: self.x.mul(rhs.y).sub(self.y.mul(rhs.x)),
        }
    }

    pub fn norm(self) -> (r: Real)
        ensures
            r == self.spec_norm(),
    {
        let sum: u128 = square_wide(self.x) + square_wide(self.y) + square_wide(self.z);
        Real { raw: saturate_unsigned(isqrt(sum)) }
    }

    pub fn orthonormal_vector(self) -> (r: Vector3)
        ensures
            r == self.spec_orthonormal_vector(),
    {
        let sign = if self.z.raw >= 0 {
            Real::one()
        } else {
            Real::one().neg()
        };
        let a = Real::one().neg().div(sign.add(self.z));
        let b = self.x.mul(self.y).mul(a);
        Vector3 { x: b, y: sign.add(self.y.mul(self.y).mul(a)), z: self.y.neg() }
    }
}

impl Vector2 {
    /// The null vector.
    pub open spec fn spec_zero() -> Vector2 {
        Vector2 { x: Real::spec_zero(), y: Real::spec_zero() }
    }

    /// Componentwise sum.
    pub open spec fn spec_add(self, rhs: Vector2) -> Vector2 {
        Vector2 { x: self.x.spec_add(rhs.x), y: self.y.spec_add(rhs.y) }
    }

    /// Componentwise difference.
    pub open spec fn spec_sub(self, rhs: Vector2) -> Vector2 {
        Vector2 { x: self.x.spec_sub(rhs.x), y: self.y.spec_sub(rhs.y) }
    }

    /// Sum of the squares of the raw components.
    pub open spec fn spec_norm_squared_raw(self) -> int {
        self.x@ * self.x@ + self.y@ * self.y@
    }

    /// Whether the Euclidean length of `self` is at most `max`.
    pub open spec fn within(self, max: Real) -> bool {
        max@ >= 0 && self.spec_norm_squared_raw() <= max@ * max@
    }

    /// `self` shortened to a length of at most `max`, keeping its direction:
    /// where the length, rounded up, exceeds `max`, every component is
    /// multiplied by `max` and divided by that length.
    #[verifier::opaque]
    pub open spec fn spec_cap_magnitude(self, max: Real) -> Vector2 {
        let n = ceil_sqrt(self.spec_norm_squared_raw());
        if n > max@ {
            Vector2 {
                x: real_of(trunc_div(self.x@ * max@, n)),
                y: real_of(trunc_div(self.y@ * max@, n)),
            }
        } else {
            self
        }
    }

    pub fn new(x: Real, y: Real) -> (r: Vector2)
        ensures
            r == (Vector2 { x, y }),
    {
        Vector2 { x, y }
    }

    pub fn zero() -> (r: Vector2)
        ensures
            r == Vector2::spec_zero(),
    {
        Vector2 { x: Real::zero(), y: Real::zero() }
    }

    pub fn add(self, rhs: Vector2) -> (r: Vector2)
        ensures
            r == self.spec_add(rhs),
    {
        Vector2 { x: self.x.add(rhs.x), y: self.y.add(rhs.y) }
    }

    pub fn sub(self, rhs: Vector2) -> (r: Vector2)
        ensures
            r == self.spec_sub(rhs),
    {
        Vector2 { x: self.x.sub(rhs.x), y: self.y.sub(rhs.y) }
    }

    pub fn cap_magnitude(self, max: Real) -> (r: Vector2)
        ensures
            r == self.spec_cap_magnitude(max),
            max@ >= 0 ==> r.within(max),
    {
        proof {
            reveal(Vector2::spec_cap_magnitude);
            lemma_cap_magnitude_within(self, max);
        }
        let sum: u128 = square_wide(self.x) + square_wide(self.y);
        let n: i128 = isqrt_ceil(sum) as i128;
        if n > max.raw as i128 {
            proof {
                lemma_raw_product_bound(self.x@, max@);
                lemma_raw_product_bound(self.y@, max@);
            }
            let x = divide_toward_zero((self.x.raw as i128) * (max.raw as i128), n);
            let y = divide_toward_zero((self.y.raw as i128) * (max.raw as i128), n);
            Vector2 { x: Real { raw: saturate_wide(x) }, y: Real { raw: saturate_wide(y) } }
        } else {
            self
        }
    }
}

/// A component scaled by `max / n` is, in magnitude, at most the component
/// times `max` over `n`.
proof fn lemma_scaled_component(x: int, max: int, n: int)
    requires
        0 <= max < n,
        i64::MIN <= x <= i64::MAX,
    ensures
        ({
            let r = trunc_div(x * max, n);
            &&& r * r * (n * n) <= x * x * (max * max)
            &&& i64::MIN <= r <= i64::MAX
        }),
{
    let r = trunc_div(x * max, n);
    let a = if x >= 0 { x } else { -x };
    assert(a * max >= 0) by (nonlinear_arith)
        requires
            a >= 0,
            max >= 0,
    ;
    if x < 0 {
        assert(-(x * max) == a * max) by (nonlinear_arith)
            requires
                a == -x,
        ;
    }
    let q = (a * max) / n;
    assert(0 <= q && q * n <= a * max && q <= a) by (nonlinear_arith)
        requires
            q == (a * max) / n,
            a * max >= 0,
            0 <= max < n,
            a >= 0,
    ;
    assert(r == q || r == -q);
    assert(r * r == q * q) by (nonlinear_arith)
        requires
            r == q || r == -q,
    ;
    assert(x * x == a * a) by (nonlinear_arith)
        requires
            a == x || a == -x,
    ;
    assert((q * n) * (q * n) <= (a * max) * (a * max)) by (nonlinear_arith)
        requires
            0 <= q * n <= a * max,
    ;
    assert((q * n) * (q * n) == q * q * (n * n)) by (nonlinear_arith);
    assert((a * max) * (a * max) == a * a * (max * max)) by (nonlinear_arith);
}

/// Capping to a non-negative length yields a vector of at most that length.
pub proof fn lemma_cap_magnitude_within(v: Vector2, max: Real)
    ensures
        max@ >= 0 ==> v.spec_cap_magnitude(max).within(max),
{
    reveal(Vector2::spec_cap_magnitude);
    if max@ >= 0 {
        let s = v.spec_norm_squared_raw();
        assert(v.x@ * v.x@ >= 0 && v.y@ * v.y@ >= 0) by (nonlinear_arith);
        lemma_sqrt_bounds(s);
        let n = ceil_sqrt(s);
        let m = max@;
        if n > m {
            lemma_scaled_component(v.x@, m, n);
            lemma_scaled_component(v.y@, m, n);
            let rx = trunc_div(v.x@ * m, n);
            let ry = trunc_div(v.y@ * m, n);
            assert(rx * rx + ry * ry <= m * m) by (nonlinear_arith)
                requires
                    rx * rx * (n * n) <= v.x@ * v.x@ * (m * m),
                    ry * ry * (n * n) <= v.y@ * v.y@ * (m * m),
                    v.x@ * v.x@ + v.y@ * v.y@ <= n * n,
                    n > 0,
                    m >= 0,
            ;
        } else {
            crate::root::lemma_square_monotonic(n, m);
        }
    }
}

/// Scaling by zero gives the null vector, and adding the null vector
/// changes nothing.
pub proof fn lemma_vector_zero(v: Vector3)
    ensures
        v.spec_scale(Real::spec_zero()) == Vector3::spec_zero(),
        v.spec_add(Vector3::spec_zero()) == v,
{
    lemma_mul_zero(v.x);
    lemma_mul_zero(v.y);
    lemma_mul_zero(v.z);
    lemma_add_sub_zero(v.x);
    lemma_add_sub_zero(v.y);
    lemma_add_sub_zero(v.z);
}

/// A vector that is already no longer than `max` is left as it is.
pub proof fn lemma_cap_magnitude_identity(v: Vector2, max: Real)
    requires
        v.within(max),
    ensures
        v.spec_cap_magnitude(max) == v,
{
    reveal(Vector2::spec_cap_magnitude);
    assert(v.x@ * v.x@ >= 0 && v.y@ * v.y@ >= 0) by (nonlinear_arith);
    lemma_ceil_sqrt_least(v.spec_norm_squared_raw(), max@);
}

} // verus!
