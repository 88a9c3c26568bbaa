use contact_solver::fixed::Real;
use contact_solver::tangent::{
    compute_tangent_contact_directions, compute_tangent_contact_directions_simd,
    TANGENT_THRESHOLD_RAW,
};
use contact_solver::vector::Vector3;

fn fx(x: f64) -> Real {
    Real::from_raw((x * 4294967296.0).round() as i64)
}

fn vec3(x: f64, y: f64, z: f64) -> Vector3 {
    Vector3::new(fx(x), fx(y), fx(z))
}

#[test]
fn tangent_follows_the_sliding_direction() {
    let dir = vec3(0.0, 0.0, 1.0);
    let t = compute_tangent_contact_directions(&dir, &vec3(3.0, 4.0, 5.0), &Vector3::zero());
    assert_eq!(t[0], Vector3::new(Real::from_raw(2576980377), Real::from_raw(3435973836), fx(0.0)));
    assert_eq!(t[1], Vector3::new(Real::from_raw(-3435973836), Real::from_raw(2576980377), fx(0.0)));
    assert_eq!(t[1], dir.cross(t[0]));
}

#[test]
fn tangent_uses_the_relative_velocity() {
    let dir = vec3(0.0, 1.0, 0.0);
    let t = compute_tangent_contact_directions(&dir, &vec3(1.0, 7.0, 0.0), &vec3(-1.0, 3.0, 0.0));
    assert_eq!(t[0], vec3(1.0, 0.0, 0.0));
    assert_eq!(t[1], vec3(0.0, 0.0, -1.0));
}

#[test]
fn tangent_falls_back_without_sliding() {
    let dir = vec3(-1.0, 0.0, 0.0);
    let t = compute_tangent_contact_directions(&dir, &vec3(1.0, 0.0, 0.0), &vec3(-1.0, 0.0, 0.0));
    assert_eq!(t[0], dir.orthonormal_vector());
    assert_eq!(t[0], vec3(0.0, 1.0, 0.0));
    assert_eq!(t[1], vec3(0.0, 0.0, -1.0));
}

#[test]
fn tangent_threshold_must_be_exceeded() {
    assert_eq!(TANGENT_THRESHOLD_RAW, 429_496);
    let dir = vec3(0.0, 0.0, 1.0);
    let at = Vector3::new(Real::from_raw(TANGENT_THRESHOLD_RAW), fx(0.0), fx(0.0));
    let t = compute_tangent_contact_directions(&dir, &at, &Vector3::zero());
    assert_eq!(t[0], vec3(0.0, 1.0, 0.0));
    let above = Vector3::new(Real::from_raw(TANGENT_THRESHOLD_RAW + 1), fx(0.0), fx(0.0));
    let t = compute_tangent_contact_directions(&dir, &above, &Vector3::zero());
    assert_eq!(t[0], vec3(1.0, 0.0, 0.0));
    assert_eq!(t[1], vec3(0.0, 1.0, 0.0));
}

#[test]
fn batch_tangents_match_single_contacts() {
    let dirs = [vec3(0.0, 0.0, 1.0), vec3(0.0, 1.0, 0.0), vec3(-1.0, 0.0, 0.0), vec3(0.0, 0.6, 0.8)];
    let v1 = [vec3(3.0, 4.0, 5.0), vec3(1.0, 7.0, 0.0), vec3(1.0, 0.0, 0.0), vec3(0.25, -2.0, 1.5)];
    let v2 = [Vector3::zero(), vec3(-1.0, 3.0, 0.0), vec3(-1.0, 0.0, 0.0), vec3(0.0, 0.0, 0.125)];
    let batch = compute_tangent_contact_directions_simd(&dirs, &v1, &v2);
    for lane in 0..4 {
        let single = compute_tangent_contact_directions(&dirs[lane], &v1[lane], &v2[lane]);
        assert_eq!(batch[lane], single);
    }
}
