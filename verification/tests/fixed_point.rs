use contact_solver::fixed::{Real, FRACTION_BITS, ONE_RAW};
use contact_solver::geometry::{AngularInertia, Isometry, Rotation};
use contact_solver::root::{isqrt, isqrt_ceil};
use contact_solver::vector::{Vector2, Vector3};

fn fx(x: f64) -> Real {
    Real::from_raw((x * 4294967296.0).round() as i64)
}

fn vec3(x: f64, y: f64, z: f64) -> Vector3 {
    Vector3::new(fx(x), fx(y), fx(z))
}

#[test]
fn one_has_thirty_two_fraction_bits() {
    assert_eq!(FRACTION_BITS, 32);
    assert_eq!(ONE_RAW, 1i64 << FRACTION_BITS);
    assert_eq!(Real::one().raw, ONE_RAW);
    assert_eq!(Real::zero().raw, 0);
    assert_eq!(Real::from_int(-3).raw, -3 * (1i64 << 32));
    assert_eq!(Real::from_int(i32::MIN).raw, i64::MIN);
}

#[test]
fn ratio_rounds_toward_zero() {
    assert_eq!(Real::from_ratio(1, 3).raw, 1431655765);
    assert_eq!(Real::from_ratio(-1, 3).raw, -1431655765);
    assert_eq!(Real::from_ratio(1, -3).raw, -1431655765);
    assert_eq!(Real::from_ratio(-1, -3).raw, 1431655765);
    assert_eq!(Real::from_ratio(1, 64), fx(0.015625));
    assert_eq!(Real::from_ratio(5, 0), Real::zero());
}

#[test]
fn sums_and_differences_saturate() {
    let max = Real::from_raw(i64::MAX);
    let min = Real::from_raw(i64::MIN);
    assert_eq!(fx(1.5).add(fx(2.25)), fx(3.75));
    assert_eq!(fx(1.5).sub(fx(2.25)), fx(-0.75));
    assert_eq!(max.add(Real::one()), max);
    assert_eq!(min.sub(Real::one()), min);
    assert_eq!(min.neg(), max);
    assert_eq!(max.neg().raw, -i64::MAX);
    assert_eq!(fx(2.5).neg(), fx(-2.5));
}

#[test]
fn products_round_toward_zero_and_saturate() {
    assert_eq!(fx(1.5).mul(fx(2.5)), fx(3.75));
    assert_eq!(fx(-1.5).mul(fx(2.5)), fx(-3.75));
    assert_eq!(fx(-1.5).mul(fx(-2.5)), fx(3.75));
    // The smallest positive number times one half rounds to zero from both sides.
    assert_eq!(Real::from_raw(1).mul(fx(0.5)), Real::zero());
    assert_eq!(Real::from_raw(-1).mul(fx(0.5)), Real::zero());
    assert_eq!(Real::from_raw(3).mul(fx(0.5)).raw, 1);
    assert_eq!(Real::from_raw(-3).mul(fx(0.5)).raw, -1);
    let big = Real::from_int(i32::MAX);
    assert_eq!(big.mul(big).raw, i64::MAX);
    assert_eq!(big.mul(big.neg()).raw, i64::MIN);
    assert_eq!(fx(7.0).mul(Real::zero()), Real::zero());
    assert_eq!(fx(7.25).mul(Real::one()), fx(7.25));
}

#[test]
fn quotients_round_toward_zero_and_division_by_zero_is_zero() {
    assert_eq!(fx(7.0).div(fx(2.0)), fx(3.5));
    assert_eq!(fx(-7.0).div(fx(2.0)), fx(-3.5));
    assert_eq!(fx(7.0).div(fx(-2.0)), fx(-3.5));
    assert_eq!(fx(-7.0).div(fx(-2.0)), fx(3.5));
    assert_eq!(fx(1.0).div(fx(3.0)).raw, 1431655765);
    assert_eq!(fx(-1.0).div(fx(3.0)).raw, -1431655765);
    assert_eq!(fx(7.0).div(Real::zero()), Real::zero());
    assert_eq!(Real::from_int(i32::MAX).div(Real::from_raw(1)).raw, i64::MAX);
}

#[test]
fn inverse_of_zero_is_zero() {
    assert_eq!(Real::zero().inv(), Real::zero());
    assert_eq!(fx(4.0).inv(), fx(0.25));
    assert_eq!(fx(-0.5).inv(), fx(-2.0));
}

#[test]
fn order_and_clamping() {
    assert_eq!(fx(1.0).max(fx(-2.0)), fx(1.0));
    assert_eq!(fx(1.0).min(fx(-2.0)), fx(-2.0));
    assert_eq!(fx(5.0).clamp(fx(-1.0), fx(0.0)), fx(0.0));
    assert_eq!(fx(-5.0).clamp(fx(-1.0), fx(0.0)), fx(-1.0));
    assert_eq!(fx(-0.5).clamp(fx(-1.0), fx(0.0)), fx(-0.5));
    assert!(fx(1.0).lt(fx(2.0)));
    assert!(!fx(2.0).lt(fx(2.0)));
    assert!(fx(3.0).gt(fx(2.0)));
    assert!(Real::zero().is_zero());
    assert!(!Real::from_raw(1).is_zero());
}

#[test]
fn integer_square_roots() {
    assert_eq!(isqrt(0), 0);
    assert_eq!(isqrt(1), 1);
    assert_eq!(isqrt(15), 3);
    assert_eq!(isqrt(16), 4);
    assert_eq!(isqrt(17), 4);
    assert_eq!(isqrt(u128::MAX), (1u128 << 64) - 1);
    assert_eq!(isqrt_ceil(0), 0);
    assert_eq!(isqrt_ceil(15), 4);
    assert_eq!(isqrt_ceil(16), 4);
    assert_eq!(isqrt_ceil(17), 5);
    assert_eq!(isqrt_ceil(u128::MAX), 1u128 << 64);
}

#[test]
fn vector_sums_products_and_norm() {
    let a = vec3(1.0, 2.0, 3.0);
    let b = vec3(-4.0, 0.5, 2.0);
    assert_eq!(a.add(b), vec3(-3.0, 2.5, 5.0));
    assert_eq!(a.sub(b), vec3(5.0, 1.5, 1.0));
    assert_eq!(a.neg(), vec3(-1.0, -2.0, -3.0));
    assert_eq!(a.scale(fx(0.5)), vec3(0.5, 1.0, 1.5));
    assert_eq!(a.unscale(fx(2.0)), vec3(0.5, 1.0, 1.5));
    assert_eq!(a.component_mul(b), vec3(-4.0, 1.0, 6.0));
    assert_eq!(a.dot(b), fx(3.0));
    assert_eq!(vec3(1.0, 0.0, 0.0).cross(vec3(0.0, 1.0, 0.0)), vec3(0.0, 0.0, 1.0));
    assert_eq!(a.cross(b), vec3(2.5, -14.0, 8.5));
    assert_eq!(vec3(3.0, 4.0, 0.0).norm(), fx(5.0));
    assert_eq!(vec3(2.0, 3.0, 6.0).norm(), fx(7.0));
    assert_eq!(Vector3::zero().norm(), Real::zero());
    // The norm of the largest vector does not fit and saturates.
    let max = Real::from_raw(i64::MAX);
    assert_eq!(Vector3::new(max, max, max).norm(), max);
}

#[test]
fn orthonormal_vector_is_at_right_angles() {
    assert_eq!(vec3(0.0, 0.0, 1.0).orthonormal_vector(), vec3(0.0, 1.0, 0.0));
    assert_eq!(vec3(0.0, 0.0, -1.0).orthonormal_vector(), vec3(0.0, -1.0, 0.0));
    assert_eq!(vec3(1.0, 0.0, 0.0).orthonormal_vector(), vec3(0.0, 1.0, 0.0));
    assert_eq!(vec3(0.0, -1.0, 0.0).orthonormal_vector(), vec3(0.0, 0.0, 1.0));
    let n = vec3(0.0, 0.6, 0.8);
    let t = n.orthonormal_vector();
    assert!(n.dot(t).raw.abs() <= 4);
    assert!((t.norm().raw - Real::one().raw).abs() <= 8);
}

#[test]
fn cap_magnitude_scales_into_the_bound() {
    let v = Vector2::new(fx(3.0), fx(4.0));
    assert_eq!(v.cap_magnitude(fx(2.5)), Vector2::new(fx(1.5), fx(2.0)));
    assert_eq!(v.cap_magnitude(fx(5.0)), v);
    assert_eq!(v.cap_magnitude(fx(10.0)), v);
    assert_eq!(v.cap_magnitude(Real::zero()), Vector2::zero());
    assert_eq!(Vector2::zero().cap_magnitude(fx(1.0)), Vector2::zero());
    assert_eq!(Vector2::zero().cap_magnitude(Real::zero()), Vector2::zero());
    // A negative bound turns the vector round, and leaves the null vector null.
    assert_eq!(v.cap_magnitude(fx(-2.5)), Vector2::new(fx(-1.5), fx(-2.0)));
    assert_eq!(Vector2::zero().cap_magnitude(fx(-1.0)), Vector2::zero());
}

#[test]
fn cap_magnitude_never_exceeds_the_bound() {
    let cases = [
        (1i64, 1i64, 1i64),
        (3, 1, 2),
        (i64::MAX, i64::MAX, i64::MAX),
        (i64::MIN, i64::MIN, 12345),
        (-987654321987, 123456789123, 5000000000),
        (7, -9, 11),
        (1 << 40, 1, 1 << 39),
    ];
    for (x, y, max) in cases {
        let r = Vector2::new(Real::from_raw(x), Real::from_raw(y)).cap_magnitude(Real::from_raw(max));
        let len2 = (r.x.raw as i128) * (r.x.raw as i128) + (r.y.raw as i128) * (r.y.raw as i128);
        assert!(len2 <= (max as i128) * (max as i128));
        assert!(r.x.raw.signum() * x.signum() >= 0);
        assert!(r.y.raw.signum() * y.signum() >= 0);
    }
}

#[test]
fn vector2_sums() {
    let a = Vector2::new(fx(1.0), fx(2.0));
    let b = Vector2::new(fx(0.5), fx(-4.0));
    assert_eq!(a.add(b), Vector2::new(fx(1.5), fx(-2.0)));
    assert_eq!(a.sub(b), Vector2::new(fx(0.5), fx(6.0)));
}

#[test]
fn half_turn_about_the_vertical_axis() {
    let half_turn = Rotation { i: fx(0.0), j: fx(0.0), k: fx(1.0), w: fx(0.0) };
    assert_eq!(half_turn.transform_vector(vec3(1.0, 2.0, 3.0)), vec3(-1.0, -2.0, 3.0));
    assert_eq!(half_turn.inverse(), Rotation { i: fx(0.0), j: fx(0.0), k: fx(-1.0), w: fx(0.0) });
    assert_eq!(Rotation::identity().transform_vector(vec3(1.0, 2.0, 3.0)), vec3(1.0, 2.0, 3.0));

    let pose = Isometry { rotation: half_turn, translation: vec3(10.0, 0.0, -1.0) };
    let world = pose.transform_point(vec3(1.0, 2.0, 3.0));
    assert_eq!(world, vec3(9.0, -2.0, 2.0));
    assert_eq!(pose.inverse_transform_point(world), vec3(1.0, 2.0, 3.0));
    assert_eq!(Isometry::identity().transform_point(world), world);
}

#[test]
fn angular_inertia_is_a_symmetric_matrix() {
    let m = AngularInertia {
        m11: fx(1.0),
        m12: fx(2.0),
        m13: fx(3.0),
        m22: fx(4.0),
        m23: fx(5.0),
        m33: fx(6.0),
    };
    assert_eq!(m.transform_vector(vec3(1.0, 0.0, 0.0)), vec3(1.0, 2.0, 3.0));
    assert_eq!(m.transform_vector(vec3(0.0, 1.0, 0.0)), vec3(2.0, 4.0, 5.0));
    assert_eq!(m.transform_vector(vec3(0.0, 0.0, 1.0)), vec3(3.0, 5.0, 6.0));
    assert_eq!(m.transform_vector(vec3(1.0, -1.0, 0.5)), vec3(0.5, 0.5, 1.0));
    assert_eq!(
        AngularInertia::from_diagonal(fx(0.5)).transform_vector(vec3(2.0, 4.0, 6.0)),
        vec3(1.0, 2.0, 3.0)
    );
}
