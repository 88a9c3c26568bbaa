use contact_solver::any_constraint::AnyConstraintMut;
use contact_solver::body::SolverVel;
use contact_solver::dense::DenseVector;
use contact_solver::fixed::Real;
use contact_solver::manifold::{
    ContactData, ContactManifold, ContactManifoldData, TrackedContact,
};
use contact_solver::one_body_constraint::OneBodyConstraint;
use contact_solver::simd_constraint::{OneBodyConstraintSimd, TwoBodyConstraintSimd};
use contact_solver::two_body_constraint::TwoBodyConstraint;
use contact_solver::vector::{Vector2, Vector3};

fn fx(x: f64) -> Real {
    Real::from_raw((x * 4294967296.0).round() as i64)
}

fn vec3(x: f64, y: f64, z: f64) -> Vector3 {
    Vector3::new(fx(x), fx(y), fx(z))
}

fn moving(x: f64, y: f64, z: f64) -> SolverVel {
    SolverVel { linear: vec3(x, y, z), angular: Vector3::zero() }
}

fn contacts(n: u8, vel1: usize, vel2: usize, seed: f64) -> TwoBodyConstraint {
    let mut c = TwoBodyConstraint::invalid();
    c.dir1 = vec3(0.0, -1.0, 0.0);
    c.tangent1 = vec3(0.0, 0.0, 1.0);
    c.im1 = vec3(1.0, 1.0, 1.0);
    c.im2 = vec3(0.5, 0.5, 0.5);
    c.cfm_factor = fx(0.75);
    c.limit = fx(0.5);
    c.solver_vel1 = vel1;
    c.solver_vel2 = vel2;
    c.manifold_id = 0;
    c.num_contacts = n;
    for k in 0..4 {
        c.manifold_contact_id[k] = k as u8;
        c.elements[k].normal_part.r = fx(0.5);
        c.elements[k].normal_part.rhs = fx(-1.0 - seed);
        c.elements[k].normal_part.rhs_wo_bias = fx(-0.5);
        c.elements[k].normal_part.gcross2 = vec3(0.0, 0.0, 0.25 * k as f64);
        c.elements[k].tangent_part.r = [fx(2.0), fx(2.0), fx(0.0)];
        c.elements[k].tangent_part.rhs = [fx(0.5 + seed), fx(-0.25)];
        c.elements[k].tangent_part.rhs_wo_bias = [fx(0.125), fx(0.0)];
    }
    c
}

fn same(a: &TwoBodyConstraint, b: &TwoBodyConstraint) -> bool {
    a.cfm_factor == b.cfm_factor
        && a.num_contacts == b.num_contacts
        && a.solver_vel1 == b.solver_vel1
        && a.solver_vel2 == b.solver_vel2
        && (0..4).all(|k| {
            a.elements[k].normal_part == b.elements[k].normal_part
                && a.elements[k].tangent_part.impulse == b.elements[k].tangent_part.impulse
                && a.elements[k].tangent_part.rhs == b.elements[k].tangent_part.rhs
        })
}

fn start_vels() -> [SolverVel; 8] {
    [
        moving(0.0, 1.0, 0.5),
        moving(0.25, -1.0, 0.0),
        moving(1.0, 2.0, 3.0),
        moving(0.0, -0.5, 0.0),
        moving(-1.0, 0.75, 0.25),
        moving(0.0, 0.0, 0.0),
        moving(2.0, 1.5, -1.0),
        moving(0.5, -2.0, 0.125),
    ]
}

fn empty_manifold(points: usize) -> ContactManifold {
    let stored = TrackedContact {
        data: ContactData { impulse: fx(9.0), tangent_impulse: Vector2::zero() },
    };
    ContactManifold {
        points: vec![stored; points],
        data: ContactManifoldData {
            rigid_body1: None,
            rigid_body2: None,
            relative_dominance: 0,
            normal: vec3(0.0, 1.0, 0.0),
            solver_contacts: vec![],
        },
    }
}

#[test]
fn dispatch_two_bodies_forwards_every_operation() {
    let mut direct = contacts(3, 0, 1, 0.0);
    let mut behind = direct;
    let mut v_direct = start_vels();
    let mut v_behind = start_vels();
    let none = DenseVector::from_vec(vec![]);
    let mut dense = DenseVector::from_vec(vec![fx(1.0), fx(2.0)]);

    direct.solve(&mut v_direct, true, false);
    AnyConstraintMut::TwoBodies(&mut behind).solve_restitution(&none, &mut v_behind, &mut dense);
    assert!(same(&direct, &behind));
    assert_eq!(v_direct, v_behind);

    direct.solve(&mut v_direct, false, true);
    AnyConstraintMut::TwoBodies(&mut behind).solve_friction(&none, &mut v_behind, &mut dense);
    assert!(same(&direct, &behind));
    assert_eq!(v_direct, v_behind);
    assert_ne!(v_direct, start_vels());
    assert_eq!(dense.to_vec(), vec![fx(1.0), fx(2.0)]);

    direct.remove_cfm_and_bias_from_rhs();
    AnyConstraintMut::TwoBodies(&mut behind).remove_bias();
    assert!(same(&direct, &behind));
    assert_eq!(behind.cfm_factor, Real::one());
    assert_eq!(behind.elements[0].normal_part.rhs, fx(-0.5));

    let mut m_direct = empty_manifold(4);
    let mut m_behind = empty_manifold(4);
    direct.writeback_impulses(&mut [&mut m_direct]);
    AnyConstraintMut::TwoBodies(&mut behind).writeback_impulses(&mut [&mut m_behind]);
    assert_eq!(m_direct.points, m_behind.points);
    assert_eq!(m_behind.points[0].data.impulse, behind.elements[0].normal_part.impulse);
    assert_eq!(m_behind.points[3].data.impulse, fx(9.0));
}

#[test]
fn one_body_constraint_moves_the_dynamic_body_only() {
    let mut one = OneBodyConstraint { inner: contacts(1, 5, 1, 0.0) };
    one.inner.cfm_factor = Real::one();
    one.inner.elements[0].normal_part.rhs = Real::zero();
    one.inner.im2 = vec3(1.0, 1.0, 1.0);
    one.inner.elements[0].normal_part.r = fx(1.0);
    let mut vels = [moving(0.0, 3.0, 0.0), moving(0.0, -2.0, 0.0)];
    // The index of the fixed body is never read: it lies outside the buffer.
    one.solve(&mut vels, true, false);
    assert_eq!(one.inner.elements[0].normal_part.impulse, fx(2.0));
    assert_eq!(vels[1], moving(0.0, 0.0, 0.0));
    assert_eq!(vels[0], moving(0.0, 3.0, 0.0));
}

#[test]
fn dispatch_one_body_forwards_every_operation() {
    let mut direct = OneBodyConstraint { inner: contacts(2, usize::MAX, 1, 0.25) };
    let mut behind = direct;
    let mut v_direct = start_vels();
    let mut v_behind = start_vels();
    let none = DenseVector::from_vec(vec![]);
    let mut dense = DenseVector::from_vec(vec![fx(1.0), fx(2.0)]);

    direct.solve(&mut v_direct, true, false);
    AnyConstraintMut::OneBody(&mut behind).solve_restitution(&none, &mut v_behind, &mut dense);
    direct.solve(&mut v_direct, false, true);
    AnyConstraintMut::OneBody(&mut behind).solve_friction(&none, &mut v_behind, &mut dense);
    assert!(same(&direct.inner, &behind.inner));
    assert_eq!(v_direct, v_behind);
    assert_ne!(v_direct[1], start_vels()[1]);
    assert_eq!(v_direct[0], start_vels()[0]);

    direct.remove_cfm_and_bias_from_rhs();
    AnyConstraintMut::OneBody(&mut behind).remove_bias();
    assert!(same(&direct.inner, &behind.inner));
    assert_eq!(behind.inner.cfm_factor, Real::one());

    let mut m_direct = empty_manifold(4);
    let mut m_behind = empty_manifold(4);
    direct.writeback_impulses(&mut [&mut m_direct]);
    AnyConstraintMut::OneBody(&mut behind).writeback_impulses(&mut [&mut m_behind]);
    assert_eq!(m_direct.points, m_behind.points);
    assert_eq!(m_behind.points[1].data.impulse, behind.inner.elements[1].normal_part.impulse);
    let sentinel = OneBodyConstraint::invalid();
    assert_eq!(sentinel.inner.num_contacts, u8::MAX);
}

#[test]
fn batch_of_two_body_constraints_matches_single_solves() {
    let lanes = [
        contacts(1, 0, 1, 0.0),
        contacts(4, 2, 3, 0.5),
        contacts(2, 5, 4, 1.0),
        contacts(3, 6, 7, 0.25),
    ];
    let mut batch = TwoBodyConstraintSimd { lanes };
    let mut single = lanes;
    let mut v_batch = start_vels();
    let mut v_single = start_vels();
    for (normal, friction) in [(true, false), (false, true), (true, true)] {
        batch.solve(&mut v_batch, normal, friction);
        for c in single.iter_mut() {
            c.solve(&mut v_single, normal, friction);
        }
        assert_eq!(v_batch, v_single);
        for lane in 0..4 {
            assert!(same(&batch.lanes[lane], &single[lane]));
        }
    }
    assert_ne!(v_batch, start_vels());
}

#[test]
fn dispatch_batches_forward_every_operation() {
    let lanes = [
        contacts(1, 0, 1, 0.0),
        contacts(4, 2, 3, 0.5),
        contacts(2, 5, 4, 1.0),
        contacts(3, 6, 7, 0.25),
    ];
    let mut direct = TwoBodyConstraintSimd { lanes };
    let mut behind = direct;
    let mut v_direct = start_vels();
    let mut v_behind = start_vels();
    let none = DenseVector::from_vec(vec![]);
    let mut dense = DenseVector::from_vec(vec![fx(1.0), fx(2.0)]);
    direct.solve(&mut v_direct, true, false);
    AnyConstraintMut::SimdTwoBodies(&mut behind).solve_restitution(&none, &mut v_behind, &mut dense);
    direct.solve(&mut v_direct, false, true);
    AnyConstraintMut::SimdTwoBodies(&mut behind).solve_friction(&none, &mut v_behind, &mut dense);
    direct.remove_cfm_and_bias_from_rhs();
    AnyConstraintMut::SimdTwoBodies(&mut behind).remove_bias();
    assert_eq!(v_direct, v_behind);
    for lane in 0..4 {
        assert!(same(&direct.lanes[lane], &behind.lanes[lane]));
        assert_eq!(behind.lanes[lane].cfm_factor, Real::one());
    }

    let one_lanes = lanes.map(|inner| OneBodyConstraint { inner });
    let mut one_direct = OneBodyConstraintSimd { lanes: one_lanes };
    let mut one_behind = one_direct;
    let mut one_single = one_lanes;
    let mut v_direct = start_vels();
    let mut v_behind = start_vels();
    let none = DenseVector::from_vec(vec![]);
    let mut dense = DenseVector::from_vec(vec![fx(1.0), fx(2.0)]);
    let mut v_single = start_vels();
    one_direct.solve(&mut v_direct, true, true);
    AnyConstraintMut::SimdOneBody(&mut one_behind).solve_restitution(&none, &mut v_behind, &mut dense);
    AnyConstraintMut::SimdOneBody(&mut one_behind).solve_friction(&none, &mut v_behind, &mut dense);
    for c in one_single.iter_mut() {
        c.solve(&mut v_single, true, true);
    }
    assert_eq!(v_direct, v_behind);
    assert_eq!(v_direct, v_single);
    one_direct.remove_cfm_and_bias_from_rhs();
    AnyConstraintMut::SimdOneBody(&mut one_behind).remove_bias();
    for lane in 0..4 {
        assert!(same(&one_direct.lanes[lane].inner, &one_behind.lanes[lane].inner));
        assert!(same(&one_direct.lanes[lane].inner, &{
            let mut c = one_single[lane];
            c.remove_cfm_and_bias_from_rhs();
            c.inner
        }));
    }
}

#[test]
fn batch_writeback_reaches_every_lane_manifold() {
    let mut lanes = [
        contacts(1, 0, 1, 0.0),
        contacts(2, 2, 3, 0.5),
        contacts(1, 5, 4, 1.0),
        contacts(0, 6, 7, 0.25),
    ];
    lanes[0].manifold_id = 1;
    lanes[1].manifold_id = 0;
    lanes[2].manifold_id = 1;
    lanes[2].manifold_contact_id[0] = 2;
    lanes[3].manifold_id = 2;
    for (lane, c) in lanes.iter_mut().enumerate() {
        for k in 0..4 {
            c.elements[k].normal_part.impulse = fx(10.0 * lane as f64 + k as f64);
        }
    }
    let batch = TwoBodyConstraintSimd { lanes };
    let mut m0 = empty_manifold(3);
    let mut m1 = empty_manifold(3);
    let mut m2 = empty_manifold(1);
    AnyConstraintMut::SimdTwoBodies(&mut { batch }).writeback_impulses(&mut [&mut m0, &mut m1, &mut m2]);
    let impulses = |m: &ContactManifold| -> Vec<Real> { m.points.iter().map(|p| p.data.impulse).collect() };
    assert_eq!(impulses(&m0), vec![fx(10.0), fx(11.0), fx(9.0)]);
    assert_eq!(impulses(&m1), vec![fx(0.0), fx(9.0), fx(20.0)]);
    assert_eq!(impulses(&m2), vec![fx(9.0)]);

    let one = OneBodyConstraintSimd { lanes: lanes.map(|inner| OneBodyConstraint { inner }) };
    let mut n0 = empty_manifold(3);
    let mut n1 = empty_manifold(3);
    let mut n2 = empty_manifold(1);
    one.writeback_impulses(&mut [&mut n0, &mut n1, &mut n2]);
    assert_eq!(impulses(&n0), impulses(&m0));
    assert_eq!(impulses(&n1), impulses(&m1));
    assert_eq!(impulses(&n2), impulses(&m2));
}
