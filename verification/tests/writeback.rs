use contact_solver::body::{RigidBody, RigidBodyHandle, RigidBodySet};
use contact_solver::builder::TwoBodyConstraintBuilder;
use contact_solver::fixed::Real;
use contact_solver::geometry::{AngularInertia, Isometry, Rotation};
use contact_solver::manifold::{
    ContactData, ContactManifold, ContactManifoldData, SolverContact, TrackedContact,
};
use contact_solver::two_body_constraint::TwoBodyConstraint;
use contact_solver::vector::{Vector2, Vector3};

fn fx(x: f64) -> Real {
    Real::from_raw((x * 4294967296.0).round() as i64)
}

fn vec3(x: f64, y: f64, z: f64) -> Vector3 {
    Vector3::new(fx(x), fx(y), fx(z))
}

fn stored(impulse: f64, tx: f64, ty: f64) -> TrackedContact {
    TrackedContact {
        data: ContactData { impulse: fx(impulse), tangent_impulse: Vector2::new(fx(tx), fx(ty)) },
    }
}

fn manifold(points: Vec<TrackedContact>, contacts: Vec<SolverContact>) -> ContactManifold {
    ContactManifold {
        points,
        data: ContactManifoldData {
            rigid_body1: Some(RigidBodyHandle(0)),
            rigid_body2: Some(RigidBodyHandle(1)),
            relative_dominance: 0,
            normal: vec3(0.0, 1.0, 0.0),
            solver_contacts: contacts,
        },
    }
}

fn solved(manifold_id: usize, ids: &[u8]) -> TwoBodyConstraint {
    let mut c = TwoBodyConstraint::invalid();
    c.manifold_id = manifold_id;
    c.num_contacts = ids.len() as u8;
    for (k, id) in ids.iter().enumerate() {
        c.manifold_contact_id[k] = *id;
        c.elements[k].normal_part.impulse = fx(1.0 + k as f64);
        c.elements[k].normal_part.total_impulse = fx(100.0);
        c.elements[k].tangent_part.impulse = Vector2::new(fx(0.5 * k as f64), fx(-0.25));
        c.elements[k].tangent_part.total_impulse = Vector2::new(fx(100.0), fx(100.0));
    }
    c
}

#[test]
fn writeback_matches_contacts_by_identifier() {
    let c = solved(1, &[2, 0]);
    let mut m0 = manifold(vec![stored(9.0, 9.0, 9.0); 3], vec![]);
    let mut m1 = manifold(vec![stored(9.0, 9.0, 9.0); 3], vec![]);
    {
        let mut all = [&mut m0, &mut m1];
        c.writeback_impulses(&mut all);
    }
    assert_eq!(m1.points[2], stored(1.0, 0.0, -0.25));
    assert_eq!(m1.points[0], stored(2.0, 0.5, -0.25));
    assert_eq!(m1.points[1], stored(9.0, 9.0, 9.0));
    assert_eq!(m1.points.len(), 3);
    // The other manifold is not touched.
    assert_eq!(m0.points, vec![stored(9.0, 9.0, 9.0); 3]);
}

#[test]
fn writeback_copies_the_impulse_of_the_substep_only() {
    let c = solved(0, &[0]);
    let mut m = manifold(vec![stored(0.0, 0.0, 0.0)], vec![]);
    c.writeback_into(&mut m);
    // The accumulated impulse of 100 is not what is written.
    assert_eq!(m.points[0], stored(1.0, 0.0, -0.25));
    assert_eq!(m.data.normal, vec3(0.0, 1.0, 0.0));
}

#[test]
fn writeback_last_element_wins_on_a_shared_contact() {
    let c = solved(0, &[1, 1, 0]);
    let mut m = manifold(vec![stored(9.0, 9.0, 9.0); 2], vec![]);
    c.writeback_into(&mut m);
    assert_eq!(m.points[1], stored(2.0, 0.5, -0.25));
    assert_eq!(m.points[0], stored(3.0, 1.0, -0.25));
}

#[test]
fn writeback_without_contacts_changes_nothing() {
    let c = solved(0, &[]);
    let mut m = manifold(vec![stored(9.0, 8.0, 7.0); 2], vec![]);
    c.writeback_into(&mut m);
    assert_eq!(m.points, vec![stored(9.0, 8.0, 7.0); 2]);
}

#[test]
fn writeback_is_a_pure_copy() {
    let c = solved(0, &[3, 1, 2, 0]);
    let mut m = manifold(vec![stored(0.0, 0.0, 0.0); 4], vec![]);
    c.writeback_into(&mut m);
    let once = m.points.clone();
    // Writing the same impulses again changes nothing.
    c.writeback_into(&mut m);
    assert_eq!(m.points, once);
    for k in 0..4 {
        let id = c.manifold_contact_id[k] as usize;
        assert_eq!(m.points[id].data.impulse, c.elements[k].normal_part.impulse);
        assert_eq!(m.points[id].data.tangent_impulse, c.elements[k].tangent_part.impulse);
    }
}

#[test]
fn writeback_round_trip_without_solve() {
    let unit = RigidBody {
        position: Isometry { rotation: Rotation::identity(), translation: Vector3::zero() },
        linvel: Vector3::zero(),
        angvel: Vector3::zero(),
        effective_inv_mass: vec3(1.0, 1.0, 1.0),
        effective_world_inv_inertia_sqrt: AngularInertia::from_diagonal(Real::one()),
        world_com: Vector3::zero(),
        active_set_offset: 0,
    };
    let bodies = RigidBodySet { bodies: vec![unit, RigidBody { active_set_offset: 1, ..unit }] };
    let contacts: Vec<SolverContact> = (0..3u8)
        .map(|id| SolverContact {
            contact_id: 2 - id,
            point: vec3(id as f64, 0.0, 0.0),
            dist: Real::zero(),
            friction: fx(0.5),
            restitution: Real::zero(),
            tangent_velocity: Vector3::zero(),
            bouncy: false,
        })
        .collect();
    // A constraint that was just built holds no impulse, so stored contacts
    // without impulse are left as they are.
    let mut m = manifold(vec![stored(0.0, 0.0, 0.0); 3], contacts);
    let mut builders = [TwoBodyConstraintBuilder::invalid()];
    let mut constraints = [TwoBodyConstraint::invalid()];
    TwoBodyConstraintBuilder::generate(0, &m, &bodies, &mut builders, &mut constraints);
    let before = m.points.clone();
    {
        let mut all = [&mut m];
        constraints[0].writeback_impulses(&mut all);
    }
    assert_eq!(m.points, before);
}
