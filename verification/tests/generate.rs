use contact_solver::body::{RigidBody, RigidBodyHandle, RigidBodySet};
use contact_solver::builder::{ContactPointInfos, TwoBodyConstraintBuilder};
use contact_solver::element::TwoBodyConstraintElement;
use contact_solver::fixed::Real;
use contact_solver::geometry::{AngularInertia, Isometry, Rotation};
use contact_solver::manifold::{
    ContactData, ContactManifold, ContactManifoldData, SolverContact, TrackedContact,
};
use contact_solver::two_body_constraint::TwoBodyConstraint;
use contact_solver::vector::{Vector2, Vector3};

fn fx(x: f64) -> Real {
    Real::from_raw((x * 4294967296.0).round() as i64)
}

fn vec3(x: f64, y: f64, z: f64) -> Vector3 {
    Vector3::new(fx(x), fx(y), fx(z))
}

fn body(center: Vector3, linvel: Vector3, angvel: Vector3, offset: usize) -> RigidBody {
    RigidBody {
        position: Isometry { rotation: Rotation::identity(), translation: center },
        linvel,
        angvel,
        effective_inv_mass: vec3(1.0, 1.0, 1.0),
        effective_world_inv_inertia_sqrt: AngularInertia::from_diagonal(Real::one()),
        world_com: center,
        active_set_offset: offset,
    }
}

fn contact(id: u8, point: Vector3, friction: f64, restitution: f64, bouncy: bool) -> SolverContact {
    SolverContact {
        contact_id: id,
        point,
        dist: fx(-0.125),
        friction: fx(friction),
        restitution: fx(restitution),
        tangent_velocity: Vector3::zero(),
        bouncy,
    }
}

fn manifold(normal: Vector3, contacts: Vec<SolverContact>) -> ContactManifold {
    let stored = TrackedContact {
        data: ContactData { impulse: Real::zero(), tangent_impulse: Vector2::zero() },
    };
    ContactManifold {
        points: vec![stored; 8],
        data: ContactManifoldData {
            rigid_body1: Some(RigidBodyHandle(0)),
            rigid_body2: Some(RigidBodyHandle(1)),
            relative_dominance: 0,
            normal,
            solver_contacts: contacts,
        },
    }
}

fn resting_pair() -> RigidBodySet {
    RigidBodySet {
        bodies: vec![
            body(vec3(0.0, 0.0, 0.0), Vector3::zero(), Vector3::zero(), 3),
            body(vec3(0.0, 2.0, 0.0), Vector3::zero(), Vector3::zero(), 5),
        ],
    }
}

#[test]
fn invalid_sentinels() {
    let c = TwoBodyConstraint::invalid();
    assert_eq!(c.dir1, Vector3::zero());
    assert_eq!(c.tangent1, Vector3::zero());
    assert_eq!(c.im1, Vector3::zero());
    assert_eq!(c.im2, Vector3::zero());
    assert_eq!(c.cfm_factor, Real::zero());
    assert_eq!(c.limit, Real::zero());
    assert_eq!(c.solver_vel1, usize::MAX);
    assert_eq!(c.solver_vel2, usize::MAX);
    assert_eq!(c.manifold_id, usize::MAX);
    assert_eq!(c.manifold_contact_id, [u8::MAX; 4]);
    assert_eq!(c.num_contacts, u8::MAX);
    let zero = TwoBodyConstraintElement::zero();
    for e in c.elements.iter() {
        assert_eq!(e.normal_part, zero.normal_part);
        assert_eq!(e.tangent_part.impulse, Vector2::zero());
        assert_eq!(e.tangent_part.r, [Real::zero(); 3]);
        assert_eq!(e.tangent_part.rhs, [Real::zero(); 2]);
        assert_eq!(e.tangent_part.gcross1, [Vector3::zero(); 2]);
    }
    let b = TwoBodyConstraintBuilder::invalid();
    for info in b.infos.iter() {
        assert_eq!(*info, ContactPointInfos::default());
        assert_eq!(info.dist, Real::zero());
    }
}

#[test]
fn generate_splits_a_manifold_every_four_points() {
    let bodies = resting_pair();
    let contacts = vec![
        contact(7, vec3(0.0, 1.0, 0.0), 0.1, 0.0, false),
        contact(6, vec3(1.0, 1.0, 0.0), 0.2, 0.0, false),
        contact(5, vec3(0.0, 1.0, 1.0), 0.3, 0.0, false),
        contact(4, vec3(1.0, 1.0, 1.0), 0.4, 0.0, false),
        contact(3, vec3(0.5, 1.0, 0.5), 0.5, 0.0, false),
    ];
    let m = manifold(vec3(0.0, 1.0, 0.0), contacts);
    let mut builders = [TwoBodyConstraintBuilder::invalid(); 3];
    let mut constraints = [TwoBodyConstraint::invalid(); 3];
    TwoBodyConstraintBuilder::generate(9, &m, &bodies, &mut builders, &mut constraints);

    assert_eq!(constraints[0].num_contacts, 4);
    assert_eq!(constraints[1].num_contacts, 1);
    assert_eq!(constraints[0].manifold_contact_id, [7, 6, 5, 4]);
    assert_eq!(constraints[1].manifold_contact_id, [3, u8::MAX, u8::MAX, u8::MAX]);
    assert_eq!(constraints[0].limit, fx(0.4));
    assert_eq!(constraints[1].limit, fx(0.5));
    for c in &constraints[..2] {
        assert_eq!(c.manifold_id, 9);
        assert_eq!(c.dir1, vec3(0.0, -1.0, 0.0));
        assert_eq!(c.solver_vel1, 3);
        assert_eq!(c.solver_vel2, 5);
        assert_eq!(c.im1, vec3(1.0, 1.0, 1.0));
        assert_eq!(c.im2, vec3(1.0, 1.0, 1.0));
        // The softening factor is only set by an update.
        assert_eq!(c.cfm_factor, Real::zero());
    }
    assert_eq!(builders[1].infos[0].local_p1, vec3(0.5, 1.0, 0.5));
    assert_eq!(builders[1].infos[0].local_p2, vec3(0.5, -1.0, 0.5));
    assert_eq!(builders[1].infos[1], ContactPointInfos::default());
    // The third slot was not needed and is still the sentinel.
    assert_eq!(constraints[2].num_contacts, u8::MAX);
    assert_eq!(constraints[2].manifold_id, usize::MAX);
}

#[test]
fn generate_of_an_empty_manifold_builds_nothing() {
    let bodies = resting_pair();
    let m = manifold(vec3(0.0, 1.0, 0.0), vec![]);
    let mut builders = [TwoBodyConstraintBuilder::invalid(); 1];
    let mut constraints = [TwoBodyConstraint::invalid(); 1];
    TwoBodyConstraintBuilder::generate(0, &m, &bodies, &mut builders, &mut constraints);
    assert_eq!(constraints[0].num_contacts, u8::MAX);
    let mut none_b: [TwoBodyConstraintBuilder; 0] = [];
    let mut none_c: [TwoBodyConstraint; 0] = [];
    TwoBodyConstraintBuilder::generate(0, &m, &bodies, &mut none_b, &mut none_c);
}

#[test]
fn generate_of_exactly_four_points_builds_one_constraint() {
    let bodies = resting_pair();
    let contacts = vec![
        contact(0, vec3(0.0, 1.0, 0.0), 0.1, 0.0, false),
        contact(1, vec3(1.0, 1.0, 0.0), 0.2, 0.0, false),
        contact(2, vec3(0.0, 1.0, 1.0), 0.3, 0.0, false),
        contact(3, vec3(1.0, 1.0, 1.0), 0.4, 0.0, false),
    ];
    let m = manifold(vec3(0.0, 1.0, 0.0), contacts);
    let mut builders = [TwoBodyConstraintBuilder::invalid(); 1];
    let mut constraints = [TwoBodyConstraint::invalid(); 1];
    TwoBodyConstraintBuilder::generate(0, &m, &bodies, &mut builders, &mut constraints);
    assert_eq!(constraints[0].num_contacts, 4);
    assert_eq!(constraints[0].manifold_contact_id, [0, 1, 2, 3]);
}

#[test]
fn generate_effective_masses_with_lever_arms() {
    let bodies = resting_pair();
    let m = manifold(vec3(0.0, 1.0, 0.0), vec![contact(0, vec3(1.0, 1.0, 0.0), 0.5, 0.0, false)]);
    let mut builders = [TwoBodyConstraintBuilder::invalid()];
    let mut constraints = [TwoBodyConstraint::invalid()];
    TwoBodyConstraintBuilder::generate(0, &m, &bodies, &mut builders, &mut constraints);
    let c = &constraints[0];
    let e = &c.elements[0];

    assert_eq!(e.normal_part.gcross1, vec3(0.0, 0.0, -1.0));
    assert_eq!(e.normal_part.gcross2, vec3(0.0, 0.0, 1.0));
    // 1 / (1 + 1 + 1 + 1): both inverse masses and both angular shares.
    assert_eq!(e.normal_part.r, fx(0.25));
    assert_eq!(e.normal_part.rhs, Real::zero());
    assert_eq!(e.normal_part.rhs_wo_bias, Real::zero());
    assert_eq!(e.normal_part.impulse, Real::zero());
    assert_eq!(e.normal_part.total_impulse, Real::zero());

    // Both bodies are at rest, so the tangents are the fallback frame.
    assert_eq!(c.tangent1, vec3(0.0, 0.0, 1.0));
    assert_eq!(e.tangent_part.gcross1, [vec3(1.0, -1.0, 0.0), vec3(0.0, 0.0, 1.0)]);
    assert_eq!(e.tangent_part.gcross2, [vec3(1.0, 1.0, 0.0), vec3(0.0, 0.0, 1.0)]);
    // Along the tangents the inverse effective mass is stored uninverted,
    // followed by the cross term of the two tangents.
    assert_eq!(e.tangent_part.r, [fx(6.0), fx(4.0), fx(0.0)]);
    assert_eq!(e.tangent_part.impulse, Vector2::zero());
    assert_eq!(e.tangent_part.rhs, [Real::zero(); 2]);
}

#[test]
fn generate_cross_term_couples_the_tangents() {
    let bodies = resting_pair();
    let m = manifold(vec3(0.0, 1.0, 0.0), vec![contact(0, vec3(1.0, 1.0, 1.0), 0.5, 0.0, false)]);
    let mut builders = [TwoBodyConstraintBuilder::invalid()];
    let mut constraints = [TwoBodyConstraint::invalid()];
    TwoBodyConstraintBuilder::generate(0, &m, &bodies, &mut builders, &mut constraints);
    let t = &constraints[0].elements[0].tangent_part;
    // Tangents (0, 0, 1) and (-1, 0, 0); arms (1, 1, 1) and (1, -1, 1).
    assert_eq!(t.gcross1, [vec3(1.0, -1.0, 0.0), vec3(0.0, -1.0, 1.0)]);
    assert_eq!(t.gcross2, [vec3(1.0, 1.0, 0.0), vec3(0.0, 1.0, 1.0)]);
    assert_eq!(t.r, [fx(6.0), fx(6.0), fx(4.0)]);
}

#[test]
fn generate_restitution_only_where_the_contact_rebounds() {
    let bodies = RigidBodySet {
        bodies: vec![
            body(vec3(0.0, 0.0, 0.0), vec3(0.0, 3.0, 0.0), Vector3::zero(), 0),
            body(vec3(0.0, 2.0, 0.0), vec3(0.0, -1.0, 0.0), Vector3::zero(), 1),
        ],
    };
    let contacts = vec![
        contact(0, vec3(0.0, 1.0, 0.0), 0.5, 0.5, true),
        contact(1, vec3(0.0, 1.0, 0.0), 0.5, 0.5, false),
        contact(2, vec3(0.0, 1.0, 0.0), 0.5, 0.0, true),
    ];
    let m = manifold(vec3(0.0, 1.0, 0.0), contacts);
    let mut builders = [TwoBodyConstraintBuilder::invalid()];
    let mut constraints = [TwoBodyConstraint::invalid()];
    TwoBodyConstraintBuilder::generate(0, &m, &bodies, &mut builders, &mut constraints);
    // The bodies close in at speed 4; the force direction points against the normal.
    assert_eq!(builders[0].infos[0].normal_rhs_wo_bias, fx(-2.0));
    assert_eq!(builders[0].infos[1].normal_rhs_wo_bias, Real::zero());
    assert_eq!(builders[0].infos[2].normal_rhs_wo_bias, Real::zero());
    assert_eq!(builders[0].infos[0].dist, fx(-0.125));
}

#[test]
fn generate_restitution_counts_the_spin_of_the_bodies() {
    let bodies = RigidBodySet {
        bodies: vec![
            body(vec3(0.0, 0.0, 0.0), Vector3::zero(), vec3(0.0, 0.0, 2.0), 0),
            body(vec3(0.0, 2.0, 0.0), Vector3::zero(), Vector3::zero(), 1),
        ],
    };
    let m = manifold(vec3(0.0, 1.0, 0.0), vec![contact(0, vec3(1.0, 1.0, 0.0), 0.5, 1.0, true)]);
    let mut builders = [TwoBodyConstraintBuilder::invalid()];
    let mut constraints = [TwoBodyConstraint::invalid()];
    TwoBodyConstraintBuilder::generate(0, &m, &bodies, &mut builders, &mut constraints);
    // The contact point of the first body moves at (-2, 2, 0).
    assert_eq!(builders[0].infos[0].normal_rhs_wo_bias, fx(-2.0));
}

#[test]
fn generate_no_restitution_without_approach() {
    let bodies = RigidBodySet {
        bodies: vec![
            body(vec3(0.0, 0.0, 0.0), vec3(5.0, 1.0, 0.0), Vector3::zero(), 0),
            body(vec3(0.0, 2.0, 0.0), vec3(-3.0, 1.0, 2.0), Vector3::zero(), 1),
        ],
    };
    let with = manifold(vec3(0.0, 1.0, 0.0), vec![contact(0, vec3(0.0, 1.0, 0.0), 0.5, 0.75, true)]);
    let without =
        manifold(vec3(0.0, 1.0, 0.0), vec![contact(0, vec3(0.0, 1.0, 0.0), 0.5, 0.0, false)]);
    let mut builders = [TwoBodyConstraintBuilder::invalid(); 2];
    let mut constraints = [TwoBodyConstraint::invalid(); 2];
    TwoBodyConstraintBuilder::generate(0, &with, &bodies, &mut builders[..1], &mut constraints[..1]);
    TwoBodyConstraintBuilder::generate(0, &without, &bodies, &mut builders[1..], &mut constraints[1..]);
    assert_eq!(builders[0].infos[0].normal_rhs_wo_bias, Real::zero());
    assert_eq!(builders[0].infos[0], builders[1].infos[0]);
}

#[test]
fn generate_keeps_the_anchors_in_body_frames() {
    let half_turn = Rotation { i: fx(0.0), j: fx(0.0), k: fx(1.0), w: fx(0.0) };
    let mut first = body(vec3(1.0, 0.0, 0.0), Vector3::zero(), Vector3::zero(), 0);
    first.position = Isometry { rotation: half_turn, translation: vec3(1.0, 0.0, 0.0) };
    let bodies = RigidBodySet {
        bodies: vec![first, body(vec3(0.0, 2.0, 0.0), Vector3::zero(), Vector3::zero(), 1)],
    };
    let mut c = contact(0, vec3(2.0, 1.0, 3.0), 0.5, 0.0, false);
    c.tangent_velocity = vec3(0.25, 0.0, -0.5);
    let m = manifold(vec3(0.0, 1.0, 0.0), vec![c]);
    let mut builders = [TwoBodyConstraintBuilder::invalid()];
    let mut constraints = [TwoBodyConstraint::invalid()];
    TwoBodyConstraintBuilder::generate(0, &m, &bodies, &mut builders, &mut constraints);
    assert_eq!(builders[0].infos[0].local_p1, vec3(-1.0, -1.0, 3.0));
    assert_eq!(builders[0].infos[0].local_p2, vec3(2.0, -1.0, 3.0));
    assert_eq!(builders[0].infos[0].tangent_vel, vec3(0.25, 0.0, -0.5));
    // Tangents (0, 0, 1) and (-1, 0, 0).
    let t = &constraints[0].elements[0].tangent_part;
    assert_eq!(t.rhs_wo_bias, [fx(-0.5), fx(-0.25)]);
    assert_eq!(t.rhs, [fx(-0.5), fx(-0.25)]);
}

#[test]
fn generate_keeps_the_accumulated_friction_impulse() {
    let bodies = resting_pair();
    let m = manifold(vec3(0.0, 1.0, 0.0), vec![contact(0, vec3(1.0, 1.0, 0.0), 0.5, 0.0, false)]);
    let mut builders = [TwoBodyConstraintBuilder::invalid()];
    let mut constraints = [TwoBodyConstraint::invalid()];
    constraints[0].elements[0].tangent_part.total_impulse = Vector2::new(fx(1.0), fx(2.0));
    constraints[0].elements[0].tangent_part.impulse = Vector2::new(fx(3.0), fx(4.0));
    constraints[0].elements[0].normal_part.total_impulse = fx(5.0);
    constraints[0].elements[1].normal_part.impulse = fx(6.0);
    TwoBodyConstraintBuilder::generate(0, &m, &bodies, &mut builders, &mut constraints);
    let e = &constraints[0].elements[0];
    assert_eq!(e.tangent_part.total_impulse, Vector2::new(fx(1.0), fx(2.0)));
    assert_eq!(e.tangent_part.impulse, Vector2::zero());
    assert_eq!(e.normal_part.total_impulse, Real::zero());
    // Elements beyond the contacts in use are left alone.
    assert_eq!(constraints[0].elements[1].normal_part.impulse, fx(6.0));
}

#[test]
fn generate_aligns_the_tangent_with_sliding() {
    let bodies = RigidBodySet {
        bodies: vec![
            body(vec3(0.0, 0.0, 0.0), vec3(2.0, 0.0, 0.0), Vector3::zero(), 0),
            body(vec3(0.0, 2.0, 0.0), Vector3::zero(), Vector3::zero(), 1),
        ],
    };
    let m = manifold(vec3(0.0, 1.0, 0.0), vec![contact(0, vec3(0.0, 1.0, 0.0), 0.5, 0.0, false)]);
    let mut builders = [TwoBodyConstraintBuilder::invalid()];
    let mut constraints = [TwoBodyConstraint::invalid()];
    TwoBodyConstraintBuilder::generate(0, &m, &bodies, &mut builders, &mut constraints);
    assert_eq!(constraints[0].tangent1, vec3(1.0, 0.0, 0.0));
}

#[test]
fn generate_between_immovable_bodies_has_no_effective_mass() {
    let mut fixed = body(vec3(0.0, 0.0, 0.0), Vector3::zero(), Vector3::zero(), 0);
    fixed.effective_inv_mass = Vector3::zero();
    fixed.effective_world_inv_inertia_sqrt = AngularInertia::from_diagonal(Real::zero());
    let bodies = RigidBodySet {
        bodies: vec![fixed, RigidBody { world_com: vec3(0.0, 2.0, 0.0), active_set_offset: 1, ..fixed }],
    };
    let m = manifold(vec3(0.0, 1.0, 0.0), vec![contact(0, vec3(1.0, 1.0, 0.0), 0.5, 0.0, false)]);
    let mut builders = [TwoBodyConstraintBuilder::invalid()];
    let mut constraints = [TwoBodyConstraint::invalid()];
    TwoBodyConstraintBuilder::generate(0, &m, &bodies, &mut builders, &mut constraints);
    let e = &constraints[0].elements[0];
    // The inverse of a zero denominator is zero, not a division by zero.
    assert_eq!(e.normal_part.r, Real::zero());
    assert_eq!(e.normal_part.gcross1, Vector3::zero());
    assert_eq!(e.tangent_part.r, [Real::zero(); 3]);
}

#[test]
fn rigid_body_set_finds_bodies_by_handle() {
    let bodies = resting_pair();
    assert_eq!(bodies.get(RigidBodyHandle(1)).map(|b| b.active_set_offset), Some(5));
    assert_eq!(bodies.get(RigidBodyHandle(0)).map(|b| b.world_com), Some(Vector3::zero()));
    assert!(bodies.get(RigidBodyHandle(2)).is_none());
}
