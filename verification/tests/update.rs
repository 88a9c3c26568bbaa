use contact_solver::body::{IntegrationParameters, SolverBody};
use contact_solver::builder::{ContactPointInfos, TwoBodyConstraintBuilder};
use contact_solver::fixed::Real;
use contact_solver::geometry::{Isometry, Rotation};
use contact_solver::two_body_constraint::TwoBodyConstraint;
use contact_solver::vector::{Vector2, Vector3};

fn fx(x: f64) -> Real {
    Real::from_raw((x * 4294967296.0).round() as i64)
}

fn vec3(x: f64, y: f64, z: f64) -> Vector3 {
    Vector3::new(fx(x), fx(y), fx(z))
}

fn params() -> IntegrationParameters {
    IntegrationParameters {
        dt: fx(0.015625),
        erp: fx(0.25),
        cfm_factor: fx(0.75),
        allowed_linear_error: fx(0.0009765625),
        max_penetration_correction: fx(1000.0),
    }
}

fn at(center: Vector3) -> Isometry {
    Isometry { rotation: Rotation::identity(), translation: center }
}

/// One contact at the origin between a body centered at (0, -1, 0) and a body
/// centered at (0, 1, 0), with the force direction (0, -1, 0).
fn single_contact(dist: f64, restitution_rhs: f64) -> (TwoBodyConstraintBuilder, TwoBodyConstraint) {
    let mut builder = TwoBodyConstraintBuilder::invalid();
    builder.infos[0] = ContactPointInfos {
        tangent_vel: Vector3::zero(),
        local_p1: vec3(0.0, 1.0, 0.0),
        local_p2: vec3(0.0, -1.0, 0.0),
        dist: fx(dist),
        normal_rhs_wo_bias: fx(restitution_rhs),
    };
    let mut constraint = TwoBodyConstraint::invalid();
    constraint.dir1 = vec3(0.0, -1.0, 0.0);
    constraint.tangent1 = vec3(0.0, 0.0, 1.0);
    constraint.num_contacts = 1;
    constraint.solver_vel1 = 0;
    constraint.solver_vel2 = 1;
    (builder, constraint)
}

fn poses() -> (Isometry, Isometry) {
    (at(vec3(0.0, -1.0, 0.0)), at(vec3(0.0, 1.0, 0.0)))
}

#[test]
fn integration_parameters_derive_their_rates() {
    let p = params();
    assert_eq!(p.inv_dt(), fx(64.0));
    assert_eq!(p.erp_inv_dt(), fx(16.0));
    assert_eq!(p.cfm_factor(), fx(0.75));
    let frozen = IntegrationParameters { dt: Real::zero(), ..p };
    assert_eq!(frozen.inv_dt(), Real::zero());
    assert_eq!(frozen.erp_inv_dt(), Real::zero());
}

#[test]
fn update_separated_contact_has_no_bias() {
    let (builder, mut constraint) = single_contact(0.5, 0.0);
    let (p1, p2) = poses();
    let p = params();
    let fast = builder.update_with_positions(&p, p.dt, &p1, &p2, fx(1.0), &mut constraint);
    assert!(!fast);
    let n = &constraint.elements[0].normal_part;
    assert_eq!(n.rhs_wo_bias, fx(32.0));
    assert_eq!(n.rhs, n.rhs_wo_bias);
}

#[test]
fn update_contact_just_beyond_the_slop_has_no_bias() {
    let p = params();
    let dist = Real::from_raw(p.allowed_linear_error.raw + 1);
    let (mut builder, mut constraint) = single_contact(0.0, 0.0);
    builder.infos[0].dist = dist;
    let (p1, p2) = poses();
    builder.update_with_positions(&p, p.dt, &p1, &p2, fx(1.0), &mut constraint);
    let n = &constraint.elements[0].normal_part;
    assert_eq!(n.rhs, n.rhs_wo_bias);
    assert_eq!(n.rhs_wo_bias, dist.mul(fx(64.0)));
}

#[test]
fn update_penetrating_contact_is_corrected() {
    let (builder, mut constraint) = single_contact(-0.5, 0.0);
    let (p1, p2) = poses();
    let p = params();
    builder.update_with_positions(&p, p.dt, &p1, &p2, fx(100.0), &mut constraint);
    let n = &constraint.elements[0].normal_part;
    assert_eq!(n.rhs_wo_bias, Real::zero());
    // 16 * (-0.5 + 1/1024)
    assert_eq!(n.rhs, fx(-7.984375));
}

#[test]
fn update_correction_is_capped() {
    let (builder, mut constraint) = single_contact(-0.5, 0.0);
    let (p1, p2) = poses();
    let p = IntegrationParameters { max_penetration_correction: fx(0.25), ..params() };
    builder.update_with_positions(&p, p.dt, &p1, &p2, fx(100.0), &mut constraint);
    assert_eq!(constraint.elements[0].normal_part.rhs, fx(-4.0));
    let none = IntegrationParameters { max_penetration_correction: Real::zero(), ..params() };
    builder.update_with_positions(&none, none.dt, &p1, &p2, fx(100.0), &mut constraint);
    assert_eq!(constraint.elements[0].normal_part.rhs, Real::zero());
}

#[test]
fn update_penetration_within_the_slop_is_tolerated() {
    let (builder, mut constraint) = single_contact(-0.0009765625, 0.0);
    let (p1, p2) = poses();
    let p = params();
    builder.update_with_positions(&p, p.dt, &p1, &p2, fx(100.0), &mut constraint);
    assert_eq!(constraint.elements[0].normal_part.rhs, Real::zero());
}

#[test]
fn update_adds_the_restitution_term() {
    let (builder, mut constraint) = single_contact(0.25, -3.0);
    let (p1, p2) = poses();
    let p = params();
    builder.update_with_positions(&p, p.dt, &p1, &p2, fx(100.0), &mut constraint);
    let n = &constraint.elements[0].normal_part;
    assert_eq!(n.rhs_wo_bias, fx(13.0));
    assert_eq!(n.rhs, fx(13.0));
}

#[test]
fn update_measures_the_separation_from_the_current_poses() {
    let (builder, mut constraint) = single_contact(0.0, 0.0);
    let p = params();
    // The second body has moved half a unit along the normal, away from the first.
    let p1 = at(vec3(0.0, -1.0, 0.0));
    let p2 = at(vec3(0.0, 1.5, 0.0));
    builder.update_with_positions(&p, p.dt, &p1, &p2, fx(100.0), &mut constraint);
    assert_eq!(constraint.elements[0].normal_part.rhs_wo_bias, fx(32.0));
    // And now a quarter of a unit into it.
    let p2 = at(vec3(0.0, 0.75, 0.0));
    builder.update_with_positions(&p, p.dt, &p1, &p2, fx(100.0), &mut constraint);
    assert_eq!(constraint.elements[0].normal_part.rhs_wo_bias, Real::zero());
    assert_eq!(constraint.elements[0].normal_part.rhs, fx(-3.984375));
}

#[test]
fn update_carries_the_impulse_into_the_total() {
    let (builder, mut constraint) = single_contact(0.0, 0.0);
    constraint.elements[0].normal_part.impulse = fx(2.0);
    constraint.elements[0].normal_part.total_impulse = fx(1.0);
    constraint.elements[0].tangent_part.impulse = Vector2::new(fx(0.5), fx(-0.25));
    constraint.elements[0].tangent_part.total_impulse = Vector2::new(fx(1.0), fx(1.0));
    constraint.elements[1].normal_part.impulse = fx(9.0);
    let (p1, p2) = poses();
    let p = params();
    builder.update_with_positions(&p, p.dt, &p1, &p2, fx(100.0), &mut constraint);
    let e = &constraint.elements[0];
    assert_eq!(e.normal_part.impulse, Real::zero());
    assert_eq!(e.normal_part.total_impulse, fx(3.0));
    assert_eq!(e.tangent_part.impulse, Vector2::zero());
    assert_eq!(e.tangent_part.total_impulse, Vector2::new(fx(1.5), fx(0.75)));
    assert_eq!(e.normal_part.total_impulse(), fx(3.0));
    assert_eq!(e.tangent_part.total_impulse(), Vector2::new(fx(1.5), fx(0.75)));
    // Elements beyond the contacts in use are left alone.
    assert_eq!(constraint.elements[1].normal_part.impulse, fx(9.0));
    assert_eq!(constraint.elements[1].normal_part.total_impulse, Real::zero());
}

#[test]
fn update_tangent_rhs_follows_the_displacement() {
    let (mut builder, mut constraint) = single_contact(0.0, 0.0);
    builder.infos[0].tangent_vel = vec3(0.0, 0.0, 2.0);
    constraint.elements[0].tangent_part.rhs_wo_bias = [fx(1.0), fx(-1.0)];
    let p = params();
    // The first body has slid by an eighth along x.
    let p1 = at(vec3(0.125, -1.0, 0.0));
    let p2 = at(vec3(0.0, 1.0, 0.0));
    builder.update_with_positions(&p, fx(0.0078125), &p1, &p2, fx(100.0), &mut constraint);
    // Tangents (0, 0, 1) and (-1, 0, 0); offset (0.125, 0, 2/128).
    let t = &constraint.elements[0].tangent_part;
    assert_eq!(t.rhs, [fx(2.0), fx(-9.0)]);
    assert_eq!(t.rhs_wo_bias, [fx(1.0), fx(-1.0)]);
}

#[test]
fn update_flags_fast_contacts_and_stops_softening() {
    let (builder, mut constraint) = single_contact(-0.5, 0.0);
    let (p1, p2) = poses();
    let p = IntegrationParameters { max_penetration_correction: fx(0.25), ..params() };
    // The right-hand side is -4, so a step corrects 4/64 = 0.0625.
    let fast = builder.update_with_positions(&p, p.dt, &p1, &p2, fx(0.0625), &mut constraint);
    assert!(fast);
    assert_eq!(constraint.cfm_factor, Real::one());
    // The flag is not sticky: with thicker bodies the softening is back.
    let fast = builder.update_with_positions(&p, p.dt, &p1, &p2, fx(0.125), &mut constraint);
    assert!(!fast);
    assert_eq!(constraint.cfm_factor, fx(0.75));
    let fast = builder.update_with_positions(&p, p.dt, &p1, &p2, fx(0.25), &mut constraint);
    assert!(!fast);
}

#[test]
fn update_one_fast_contact_is_enough() {
    let (mut builder, mut constraint) = single_contact(0.5, 0.0);
    builder.infos[1] = ContactPointInfos { dist: fx(-0.5), ..builder.infos[0] };
    builder.infos[2] = builder.infos[0];
    constraint.num_contacts = 3;
    let (p1, p2) = poses();
    let p = params();
    let fast = builder.update_with_positions(&p, p.dt, &p1, &p2, fx(0.0625), &mut constraint);
    assert!(fast);
    assert_eq!(constraint.cfm_factor, Real::one());
    constraint.num_contacts = 1;
    let fast = builder.update_with_positions(&p, p.dt, &p1, &p2, fx(0.0625), &mut constraint);
    assert!(!fast);
    assert_eq!(constraint.cfm_factor, fx(0.75));
}

#[test]
fn update_reads_the_bodies_at_the_velocity_indices() {
    let (builder, mut constraint) = single_contact(-0.5, 0.0);
    constraint.solver_vel1 = 2;
    constraint.solver_vel2 = 0;
    let (p1, p2) = poses();
    let far = at(vec3(50.0, 50.0, 50.0));
    let bodies = [
        SolverBody { position: p2, ccd_thickness: fx(0.0625) },
        SolverBody { position: far, ccd_thickness: fx(50.0) },
        SolverBody { position: p1, ccd_thickness: fx(0.03125) },
    ];
    let p = IntegrationParameters { max_penetration_correction: fx(0.25), ..params() };
    let fast = builder.update(&p, p.dt, &bodies, &mut constraint);
    let mut direct = single_contact(-0.5, 0.0).1;
    let expected = builder.update_with_positions(&p, p.dt, &p1, &p2, fx(0.09375), &mut direct);
    assert!(fast);
    assert_eq!(fast, expected);
    assert_eq!(constraint.elements[0].normal_part, direct.elements[0].normal_part);
    assert_eq!(constraint.elements[0].normal_part.rhs, fx(-4.0));
    assert_eq!(constraint.cfm_factor, Real::one());
}

#[test]
fn update_without_contacts_only_sets_the_softening() {
    let (builder, mut constraint) = single_contact(-0.5, 0.0);
    constraint.num_contacts = 0;
    let (p1, p2) = poses();
    let p = params();
    let fast = builder.update_with_positions(&p, p.dt, &p1, &p2, Real::zero(), &mut constraint);
    assert!(!fast);
    assert_eq!(constraint.cfm_factor, fx(0.75));
    assert_eq!(constraint.elements[0].normal_part.rhs, Real::zero());
}
