use contact_solver::body::{IntegrationParameters, RigidBody, RigidBodyHandle, RigidBodySet, SolverBody, SolverVel};
use contact_solver::builder::TwoBodyConstraintBuilder;
use contact_solver::fixed::Real;
use contact_solver::geometry::{AngularInertia, Isometry, Rotation};
use contact_solver::manifold::{
    ContactData, ContactManifold, ContactManifoldData, SolverContact, TrackedContact,
};
use contact_solver::two_body_constraint::TwoBodyConstraint;
use contact_solver::vector::{Vector2, Vector3};

fn fx(x: f64) -> Real {
    Real::from_raw((x * 4294967296.0).round() as i64)
}

fn to_float(x: Real) -> f64 {
    x.raw as f64 / 4294967296.0
}

fn vec3(x: f64, y: f64, z: f64) -> Vector3 {
    Vector3::new(fx(x), fx(y), fx(z))
}

fn sphere(center: Vector3, linvel: Vector3, offset: usize) -> RigidBody {
    RigidBody {
        position: Isometry { rotation: Rotation::identity(), translation: center },
        linvel,
        angvel: Vector3::zero(),
        effective_inv_mass: vec3(1.0, 1.0, 1.0),
        effective_world_inv_inertia_sqrt: AngularInertia::from_diagonal(Real::one()),
        world_com: center,
        active_set_offset: offset,
    }
}

fn params() -> IntegrationParameters {
    IntegrationParameters {
        dt: Real::from_ratio(1, 64),
        erp: Real::from_ratio(1, 4),
        cfm_factor: Real::from_ratio(3, 4),
        allowed_linear_error: Real::from_ratio(1, 1024),
        max_penetration_correction: Real::from_int(1000),
    }
}

fn head_on_manifold() -> ContactManifold {
    ContactManifold {
        points: vec![TrackedContact {
            data: ContactData { impulse: Real::zero(), tangent_impulse: Vector2::zero() },
        }],
        data: ContactManifoldData {
            rigid_body1: Some(RigidBodyHandle(0)),
            rigid_body2: Some(RigidBodyHandle(1)),
            relative_dominance: 0,
            normal: vec3(1.0, 0.0, 0.0),
            solver_contacts: vec![SolverContact {
                contact_id: 0,
                point: vec3(0.0, 0.0, 0.0),
                dist: Real::zero(),
                friction: Real::zero(),
                restitution: Real::one(),
                tangent_velocity: Vector3::zero(),
                bouncy: true,
            }],
        },
    }
}

#[test]
fn head_on_spheres_rebound_at_full_speed() {
    let bodies = RigidBodySet {
        bodies: vec![
            sphere(vec3(-1.0, 0.0, 0.0), vec3(1.0, 0.0, 0.0), 0),
            sphere(vec3(1.0, 0.0, 0.0), vec3(-1.0, 0.0, 0.0), 1),
        ],
    };
    let manifold = head_on_manifold();
    let mut builders = [TwoBodyConstraintBuilder::invalid()];
    let mut constraints = [TwoBodyConstraint::invalid()];
    TwoBodyConstraintBuilder::generate(0, &manifold, &bodies, &mut builders, &mut constraints);
    assert_eq!(constraints[0].num_contacts, 1);
    assert_eq!(constraints[0].dir1, vec3(-1.0, 0.0, 0.0));
    assert_eq!(constraints[0].elements[0].normal_part.r, fx(0.5));
    assert_eq!(builders[0].infos[0].normal_rhs_wo_bias, fx(-2.0));

    let solver_bodies = [
        SolverBody { position: bodies.bodies[0].position, ccd_thickness: fx(10.0) },
        SolverBody { position: bodies.bodies[1].position, ccd_thickness: fx(10.0) },
    ];
    let p = params();
    let fast = builders[0].update(&p, p.dt, &solver_bodies, &mut constraints[0]);
    assert!(!fast);
    assert_eq!(constraints[0].cfm_factor, p.cfm_factor);
    assert_eq!(constraints[0].elements[0].normal_part.rhs, fx(-2.0));

    constraints[0].remove_cfm_and_bias_from_rhs();
    assert_eq!(constraints[0].cfm_factor, Real::one());

    let mut vels = [
        SolverVel { linear: vec3(1.0, 0.0, 0.0), angular: Vector3::zero() },
        SolverVel { linear: vec3(-1.0, 0.0, 0.0), angular: Vector3::zero() },
    ];
    constraints[0].solve(&mut vels, true, false);

    let normal = manifold.data.normal;
    let separating = vels[1].linear.sub(vels[0].linear).dot(normal);
    assert!((to_float(separating) - 2.0).abs() < 1e-6);
    assert_eq!(constraints[0].elements[0].normal_part.impulse, fx(2.0));
    assert_eq!(constraints[0].elements[0].tangent_part.impulse, Vector2::zero());
    assert_eq!(vels[0].angular, Vector3::zero());
    assert_eq!(vels[1].angular, Vector3::zero());
}
