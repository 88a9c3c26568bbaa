//! The contact constraint between a fixed body and a dynamic one.

use vstd::prelude::*;
use crate::body::SolverVel;
use crate::element::{
    law_friction_cone, law_normal_impulses_nonnegative, spec_friction_sweep, spec_normal_sweep,
    spec_solve_group, spec_tangents, TwoBodyConstraintElement,
};
use crate::fixed::{lemma_add_sub_zero, lemma_mul_zero, Real};
use crate::manifold::ContactManifold;
use crate::two_body_constraint::TwoBodyConstraint;
use crate::vector::{lemma_vector_zero, Vector3};

verus! {

/// The solver's state of the contacts between a body that does not move and
/// a dynamic body. It is kept as a two-body constraint whose first side is
/// never read: the first body has no inverse mass and no velocity, and only
/// the second body's velocity is loaded and stored.
#[derive(Clone, Copy, Debug)]
pub struct OneBodyConstraint {
    pub inner: TwoBodyConstraint,
}

impl OneBodyConstraint {
    /// Whether the number of elements in use fits the constraint.
    pub open spec fn wf(&self) -> bool {
        self.inner.wf()
    }

    /// The elements, the fixed body's velocity and the dynamic body's
    /// velocity after one solve that starts from the velocity `v2`: the
    /// two-body solve against a first body at rest without inverse mass.
    pub open spec fn spec_solve(&self, v2: SolverVel, solve_normal: bool, solve_friction: bool) -> (
        Seq<TwoBodyConstraintElement>,
        SolverVel,
        SolverVel,
    ) {
        spec_solve_group(
            self.inner.cfm_factor,
            self.inner.elements@,
            self.inner.num_contacts as nat,
            self.inner.dir1,
            self.inner.tangent1,
            Vector3::spec_zero(),
            self.inner.im2,
            self.inner.limit,
            SolverVel::spec_zero(),
            v2,
            solve_normal,
            solve_friction,
        )
    }

    /// The sentinel that stands for no constraint.
    pub fn invalid() -> (r: OneBodyConstraint)
        ensures
            r.inner.is_invalid(),
    {
        OneBodyConstraint { inner: TwoBodyConstraint::invalid() }
    }

    /// Solves the constraint once against the velocity of its dynamic body,
    /// read from and stored back into `solver_vels` in place.
    pub fn solve(
        &mut self,
        solver_vels: &mut [SolverVel],
        solve_normal: bool,
        solve_friction: bool,
    )
        requires
            old(self).wf(),
            old(self).inner.solver_vel2 < old(solver_vels)@.len(),
        ensures
            final(self).inner.same_frame(&old(self).inner),
            final(self).inner.elements@ == old(self).spec_solve(
                old(solver_vels)@[old(self).inner.solver_vel2 as int],
                solve_normal,
                solve_friction,
            ).0,
            final(solver_vels)@ == old(solver_vels)@.update(
                old(self).inner.solver_vel2 as int,
                old(self).spec_solve(
                    old(solver_vels)@[old(self).inner.solver_vel2 as int],
                    solve_normal,
                    solve_friction,
                ).2,
            ),
            final(self).inner.solved_admissibly(&old(self).inner, solve_normal, solve_friction),
    {
        let mut solver_vel1 = SolverVel::zero();
        let mut solver_vel2 = solver_vels[self.inner.solver_vel2];
        let dir1 = self.inner.dir1;
        let tangent1 = self.inner.tangent1;
        let im1 = Vector3::zero();
        let im2 = self.inner.im2;
        proof {
            let c = self.inner;
            if c.cfm_factor@ >= 0 && (solve_normal || c.pulls_nowhere()) {
                law_normal_impulses_nonnegative(
                    c.cfm_factor,
                    c.elements@,
                    c.num_contacts as nat,
                    dir1,
                    tangent1,
                    im1,
                    im2,
                    c.limit,
                    solver_vel1,
                    solver_vel2,
                    solve_normal,
                    solve_friction,
                );
                if c.limit@ >= 0 && (solve_normal || solve_friction) {
                    law_friction_cone(
                        c.cfm_factor,
                        c.elements@,
                        c.num_contacts as nat,
                        dir1,
                        tangent1,
                        im1,
                        im2,
                        c.limit,
                        solver_vel1,
                        solver_vel2,
                        solve_normal,
                        solve_friction,
                    );
                }
            }
        }

        TwoBodyConstraintElement::solve_group(
            self.inner.cfm_factor,
            &mut self.inner.elements,
            self.inner.num_contacts as usize,
            &dir1,
            &tangent1,
            &im1,
            &im2,
            self.inner.limit,
            &mut solver_vel1,
            &mut solver_vel2,
            solve_normal,
            solve_friction,
        );

        solver_vels[self.inner.solver_vel2] = solver_vel2;
    }

    /// Copies the impulses of the elements in use into the stored contacts of
    /// the constraint's manifold.
    pub fn writeback_impulses(&self, manifolds_all: &mut [&mut ContactManifold])
        requires
            self.wf(),
            self.inner.manifold_id < old(manifolds_all)@.len(),
            self.inner.contacts_resolve(old(manifolds_all)@[self.inner.manifold_id as int].points@),
        ensures
            final(manifolds_all)@.len() == old(manifolds_all)@.len(),
            forall|i: int|
                0 <= i < old(manifolds_all)@.len() ==> *final(final(manifolds_all)@[i])
                    == *final(old(manifolds_all)@[i]),
            forall|i: int|
                0 <= i < old(manifolds_all)@.len() && i != self.inner.manifold_id
                    ==> *final(manifolds_all)@[i] == *old(manifolds_all)@[i],
            final(manifolds_all)@[self.inner.manifold_id as int].data
                == old(manifolds_all)@[self.inner.manifold_id as int].data,
            final(manifolds_all)@[self.inner.manifold_id as int].points@
                == self.inner.spec_written_back(
                old(manifolds_all)@[self.inner.manifold_id as int].points@,
                self.inner.num_contacts as nat,
            ),
    {
        self.inner.writeback_impulses(manifolds_all);
    }

    /// Switches the softening off and collapses the right-hand side of every
    /// element to its bias-free form.
    pub fn remove_cfm_and_bias_from_rhs(&mut self)
        ensures
            final(self).inner.is_debiased(&old(self).inner),
    {
        self.inner.remove_cfm_and_bias_from_rhs();
    }
}

/// Whether the first `num` elements have no angular effect on the first body.
pub open spec fn spec_anchored(elements: Seq<TwoBodyConstraintElement>, num: nat) -> bool {
    forall|i: int|
        0 <= i < num ==> {
            &&& (#[trigger] elements[i]).normal_part.gcross1 == Vector3::spec_zero()
            &&& elements[i].tangent_part.gcross1[0] == Vector3::spec_zero()
            &&& elements[i].tangent_part.gcross1[1] == Vector3::spec_zero()
        }
}

proof fn lemma_fixed_velocity(dir: Vector3, impulse: Real)
    ensures
        Vector3::spec_zero().spec_add(
            dir.spec_component_mul(Vector3::spec_zero()).spec_scale(impulse),
        ) == Vector3::spec_zero(),
        Vector3::spec_zero().spec_add(Vector3::spec_zero().spec_scale(impulse))
            == Vector3::spec_zero(),
        Vector3::spec_zero().spec_scale(impulse) == Vector3::spec_zero(),
        dir.spec_component_mul(Vector3::spec_zero()).spec_scale(impulse) == Vector3::spec_zero(),
{
    lemma_mul_zero(dir.x);
    lemma_mul_zero(dir.y);
    lemma_mul_zero(dir.z);
    lemma_mul_zero(impulse);
    lemma_add_sub_zero(Real::spec_zero());
    lemma_vector_zero(Vector3::spec_zero());
}

/// The fixed body stays at rest through the sweep over the normal parts and
/// through the sweep over the friction parts.
proof fn lemma_fixed_body_sweeps(
    elements: Seq<TwoBodyConstraintElement>,
    k: nat,
    cfm_factor: Real,
    dir1: Vector3,
    tangents1: [Vector3; 2],
    im2: Vector3,
    limit: Real,
    v2: SolverVel,
)
    requires
        k <= elements.len(),
        spec_anchored(elements, k),
    ensures
        ({
            let after = spec_normal_sweep(
                elements,
                k,
                cfm_factor,
                dir1,
                tangents1,
                Vector3::spec_zero(),
                im2,
                limit,
                SolverVel::spec_zero(),
                v2,
            );
            &&& after.1 == SolverVel::spec_zero()
            &&& after.0.len() == elements.len()
            &&& forall|i: int| k <= i < elements.len() ==> after.0[i] == elements[i]
            &&& forall|i: int|
                0 <= i < elements.len() ==> {
                    &&& (#[trigger] after.0[i]).normal_part.gcross1
                        == elements[i].normal_part.gcross1
                    &&& after.0[i].tangent_part.gcross1 == elements[i].tangent_part.gcross1
                }
        }),
        ({
            let after = spec_friction_sweep(
                elements,
                k,
                tangents1,
                Vector3::spec_zero(),
                im2,
                limit,
                SolverVel::spec_zero(),
                v2,
            );
            &&& after.1 == SolverVel::spec_zero()
            &&& after.0.len() == elements.len()
            &&& forall|i: int| k <= i < elements.len() ==> after.0[i] == elements[i]
        }),
    decreases k,
{
    if k > 0 {
        let j = (k - 1) as nat;
        assert(spec_anchored(elements, j));
        lemma_fixed_body_sweeps(elements, j, cfm_factor, dir1, tangents1, im2, limit, v2);
        let zero = Vector3::spec_zero();
        let rest = SolverVel::spec_zero();
        let e = elements[j as int];
        assert(e.normal_part.gcross1 == zero);

        let prev = spec_normal_sweep(
            elements,
            j,
            cfm_factor,
            dir1,
            tangents1,
            zero,
            im2,
            limit,
            rest,
            v2,
        );
        let n = prev.0[j as int].normal_part.spec_solve(cfm_factor, dir1, zero, im2, rest, prev.2);
        let dn = n.0.impulse.spec_sub(prev.0[j as int].normal_part.impulse);
        lemma_fixed_velocity(dir1, dn);
        assert(n.1 == rest);
        let cone = limit.spec_mul(n.0.impulse);
        let capped = prev.0[j as int].tangent_part.impulse.spec_cap_magnitude(cone);
        let dt = capped.spec_sub(prev.0[j as int].tangent_part.impulse);
        lemma_fixed_velocity(tangents1[0], dt.x);
        lemma_fixed_velocity(tangents1[1], dt.y);

        let fprev = spec_friction_sweep(elements, j, tangents1, zero, im2, limit, rest, v2);
        let part = fprev.0[j as int].tangent_part;
        let solved = part.spec_uncapped_impulse(tangents1, rest, fprev.2).spec_cap_magnitude(
            limit.spec_mul(fprev.0[j as int].normal_part.impulse),
        );
        let df = solved.spec_sub(part.impulse);
        lemma_fixed_velocity(tangents1[0], df.x);
        lemma_fixed_velocity(tangents1[1], df.y);
    }
}

/// The fixed body stays fixed: a solve of a one-body constraint whose
/// elements have no angular effect on the first body leaves the first body
/// at rest.
pub proof fn law_fixed_body_stays_at_rest(
    constraint: OneBodyConstraint,
    v2: SolverVel,
    solve_normal: bool,
    solve_friction: bool,
)
    requires
        constraint.wf(),
        spec_anchored(constraint.inner.elements@, constraint.inner.num_contacts as nat),
    ensures
        constraint.spec_solve(v2, solve_normal, solve_friction).1 == SolverVel::spec_zero(),
{
    let c = constraint.inner;
    let tangents1 = spec_tangents(c.dir1, c.tangent1);
    let n = c.num_contacts as nat;
    lemma_fixed_body_sweeps(c.elements@, n, c.cfm_factor, c.dir1, tangents1, c.im2, c.limit, v2);
    if solve_normal {
        let a = spec_normal_sweep(
            c.elements@,
            n,
            c.cfm_factor,
            c.dir1,
            tangents1,
            Vector3::spec_zero(),
            c.im2,
            c.limit,
            SolverVel::spec_zero(),
            v2,
        );
        assert(spec_anchored(a.0, n)) by {
            assert forall|i: int| 0 <= i < n implies {
                &&& (#[trigger] a.0[i]).normal_part.gcross1 == Vector3::spec_zero()
                &&& a.0[i].tangent_part.gcross1[0] == Vector3::spec_zero()
                &&& a.0[i].tangent_part.gcross1[1] == Vector3::spec_zero()
            } by {
                assert(c.elements@[i].normal_part.gcross1 == Vector3::spec_zero());
            }
        }
        lemma_fixed_body_sweeps(a.0, n, c.cfm_factor, c.dir1, tangents1, c.im2, c.limit, a.2);
    }
}

} // verus!
