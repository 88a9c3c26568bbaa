//! One entry point for every shape of contact constraint.

use vstd::prelude::*;
use crate::body::SolverVel;
use crate::dense::DenseVector;
use crate::fixed::Real;
use crate::generic::{
    spec_solved_admissibly, GenericOneBodyConstraint, GenericTwoBodyConstraint,
};
use crate::manifold::{ContactManifold, TrackedContact};
use crate::one_body_constraint::OneBodyConstraint;
use crate::simd_constraint::{OneBodyConstraintSimd, TwoBodyConstraintSimd};
use crate::tangent::LANES;
use crate::two_body_constraint::TwoBodyConstraint;

verus! {

/// A contact constraint of any shape, borrowed for a change.
pub enum AnyConstraintMut<'a> {
    /// Contacts between a fixed body and a dynamic one.
    OneBody(&'a mut OneBodyConstraint),
    /// Contacts between two dynamic bodies.
    TwoBodies(&'a mut TwoBodyConstraint),
    /// Contacts between a fixed body and a multibody link.
    GenericOneBody(&'a mut GenericOneBodyConstraint),
    /// Contacts between two bodies of which at least one is a multibody link.
    GenericTwoBodies(&'a mut GenericTwoBodyConstraint),
    /// A batch of one-body constraints solved in lockstep.
    SimdOneBody(&'a mut OneBodyConstraintSimd),
    /// A batch of two-body constraints solved in lockstep.
    SimdTwoBodies(&'a mut TwoBodyConstraintSimd),
}

impl<'a> AnyConstraintMut<'a> {
    /// Whether the constraint can be solved: it is well formed, and what it
    /// reads lies in a Jacobian vector of `jacobians` entries, in the
    /// velocity buffer `vels` and in the dense velocities `generic_vels`.
    pub open spec fn solvable(
        &self,
        jacobians: nat,
        vels: Seq<SolverVel>,
        generic_vels: Seq<Real>,
    ) -> bool {
        match *self {
            AnyConstraintMut::OneBody(c) => c.wf() && c.inner.solver_vel2 < vels.len(),
            AnyConstraintMut::TwoBodies(c) => {
                c.wf() && c.solver_vel1 < vels.len() && c.solver_vel2 < vels.len()
            },
            AnyConstraintMut::GenericOneBody(c) => c.solvable(jacobians, generic_vels),
            AnyConstraintMut::GenericTwoBodies(c) => c.solvable(jacobians, vels, generic_vels),
            AnyConstraintMut::SimdOneBody(c) => c.wf() && c.in_range(vels.len()),
            AnyConstraintMut::SimdTwoBodies(c) => c.wf() && c.in_range(vels.len()),
        }
    }

    /// Whether the constraint can write its impulses into `manifolds`: it is
    /// well formed, its manifolds are among them, and every element in use
    /// names a contact that its manifold stores.
    pub open spec fn writable(&self, manifolds: Seq<&mut ContactManifold>) -> bool {
        match *self {
            AnyConstraintMut::OneBody(c) => {
                &&& c.wf()
                &&& c.inner.manifold_id < manifolds.len()
                &&& c.inner.contacts_resolve(manifolds[c.inner.manifold_id as int].points@)
            },
            AnyConstraintMut::TwoBodies(c) => {
                &&& c.wf()
                &&& c.manifold_id < manifolds.len()
                &&& c.contacts_resolve(manifolds[c.manifold_id as int].points@)
            },
            AnyConstraintMut::GenericOneBody(c) => {
                &&& c.inner.wf()
                &&& c.inner.inner.manifold_id < manifolds.len()
                &&& c.inner.inner.contacts_resolve(
                    manifolds[c.inner.inner.manifold_id as int].points@,
                )
            },
            AnyConstraintMut::GenericTwoBodies(c) => {
                &&& c.inner.wf()
                &&& c.inner.manifold_id < manifolds.len()
                &&& c.inner.contacts_resolve(manifolds[c.inner.manifold_id as int].points@)
            },
            AnyConstraintMut::SimdOneBody(c) => c.wf() && c.writable(manifolds),
            AnyConstraintMut::SimdTwoBodies(c) => c.wf() && c.writable(manifolds),
        }
    }

    /// Whether `after` holds what `self` holds with the softening switched
    /// off and every right-hand side bias-free.
    pub open spec fn debiased_to(&self, after: &AnyConstraintMut<'a>) -> bool {
        match (*self, *after) {
            (AnyConstraintMut::OneBody(b), AnyConstraintMut::OneBody(a)) => {
                a.inner.is_debiased(&b.inner)
            },
            (AnyConstraintMut::TwoBodies(b), AnyConstraintMut::TwoBodies(a)) => a.is_debiased(b),
            (AnyConstraintMut::GenericOneBody(b), AnyConstraintMut::GenericOneBody(a)) => {
                &&& a.inner.inner.is_debiased(&b.inner.inner)
                &&& a.j_id == b.j_id
                &&& a.ndofs2 == b.ndofs2
            },
            (AnyConstraintMut::GenericTwoBodies(b), AnyConstraintMut::GenericTwoBodies(a)) => {
                &&& a.inner.is_debiased(&b.inner)
                &&& a.j_id == b.j_id
                &&& a.ndofs1 == b.ndofs1
                &&& a.ndofs2 == b.ndofs2
                &&& a.generic_constraint_mask == b.generic_constraint_mask
            },
            (AnyConstraintMut::SimdOneBody(b), AnyConstraintMut::SimdOneBody(a)) => {
                forall|lane: int|
                    0 <= lane < LANES ==> (#[trigger] a.lanes[lane]).inner.is_debiased(
                        &b.lanes[lane].inner,
                    )
            },
            (AnyConstraintMut::SimdTwoBodies(b), AnyConstraintMut::SimdTwoBodies(a)) => {
                forall|lane: int|
                    0 <= lane < LANES ==> (#[trigger] a.lanes[lane]).is_debiased(&b.lanes[lane])
            },
            _ => false,
        }
    }

    /// Whether `after` holds what `self` holds solved once, and `vels_after`
    /// and `generic_after` hold the velocities that the solve leaves of
    /// `vels` and `generic_vels`. A shape without bodies in reduced
    /// coordinates leaves the dense velocities alone, and a one-body shape
    /// in reduced coordinates the velocity buffer.
    pub open spec fn solved_to(
        &self,
        after: &AnyConstraintMut<'a>,
        jacobians: Seq<Real>,
        vels: Seq<SolverVel>,
        vels_after: Seq<SolverVel>,
        generic_vels: Seq<Real>,
        generic_after: Seq<Real>,
        solve_normal: bool,
        solve_friction: bool,
    ) -> bool {
        match (*self, *after) {
            (AnyConstraintMut::OneBody(b), AnyConstraintMut::OneBody(a)) => {
                let solved = b.spec_solve(
                    vels[b.inner.solver_vel2 as int],
                    solve_normal,
                    solve_friction,
                );
                &&& a.inner.same_frame(&b.inner)
                &&& a.inner.elements@ == solved.0
                &&& vels_after == vels.update(b.inner.solver_vel2 as int, solved.2)
                &&& generic_after == generic_vels
                &&& a.inner.solved_admissibly(&b.inner, solve_normal, solve_friction)
            },
            (AnyConstraintMut::TwoBodies(b), AnyConstraintMut::TwoBodies(a)) => {
                &&& a.same_frame(b)
                &&& a.elements@ == b.spec_solve(
                    vels[b.solver_vel1 as int],
                    vels[b.solver_vel2 as int],
                    solve_normal,
                    solve_friction,
                ).0
                &&& vels_after == b.spec_solved_velocities(vels, solve_normal, solve_friction)
                &&& generic_after == generic_vels
                &&& a.solved_admissibly(b, solve_normal, solve_friction)
            },
            (AnyConstraintMut::GenericOneBody(b), AnyConstraintMut::GenericOneBody(a)) => {
                let solved = b.spec_solve(jacobians, generic_vels, solve_normal, solve_friction);
                &&& a.same_frame(b)
                &&& a.inner.inner.elements@ == solved.0
                &&& vels_after == vels
                &&& generic_after == solved.1.vels
                &&& spec_solved_admissibly(
                    &b.inner.inner,
                    &a.inner.inner,
                    solve_normal,
                    solve_friction,
                )
            },
            (AnyConstraintMut::GenericTwoBodies(b), AnyConstraintMut::GenericTwoBodies(a)) => {
                let solved = b.spec_solve(
                    jacobians,
                    vels,
                    generic_vels,
                    solve_normal,
                    solve_friction,
                );
                &&& a.same_frame(b)
                &&& a.inner.elements@ == solved.0
                &&& vels_after == b.spec_stored(vels, solved.1)
                &&& generic_after == solved.1.vels
                &&& spec_solved_admissibly(&b.inner, &a.inner, solve_normal, solve_friction)
            },
            (AnyConstraintMut::SimdOneBody(b), AnyConstraintMut::SimdOneBody(a)) => {
                &&& forall|lane: int|
                    0 <= lane < LANES ==> {
                        &&& (#[trigger] a.lanes[lane]).inner.same_frame(&b.lanes[lane].inner)
                        &&& a.lanes[lane].inner.solved_admissibly(
                            &b.lanes[lane].inner,
                            solve_normal,
                            solve_friction,
                        )
                    }
                &&& forall|lane: int|
                    0 <= lane < LANES ==> a.lanes[lane].inner.elements@ == (
                    #[trigger] b.spec_lane_solve(lane, vels, solve_normal, solve_friction)).0
                &&& vels_after == b.spec_stored(
                    vels,
                    vels,
                    LANES as nat,
                    solve_normal,
                    solve_friction,
                )
                &&& generic_after == generic_vels
            },
            (AnyConstraintMut::SimdTwoBodies(b), AnyConstraintMut::SimdTwoBodies(a)) => {
                &&& forall|lane: int|
                    0 <= lane < LANES ==> {
                        &&& (#[trigger] a.lanes[lane]).same_frame(&b.lanes[lane])
                        &&& a.lanes[lane].solved_admissibly(
                            &b.lanes[lane],
                            solve_normal,
                            solve_friction,
                        )
                    }
                &&& forall|lane: int|
                    0 <= lane < LANES ==> a.lanes[lane].elements@ == (
                    #[trigger] b.spec_lane_solve(lane, vels, solve_normal, solve_friction)).0
                &&& vels_after == b.spec_solved_velocities(vels, solve_normal, solve_friction)
                &&& generic_after == generic_vels
            },
            _ => false,
        }
    }

    /// Whether `after` holds what `self` holds, unchanged.
    pub open spec fn unchanged_to(&self, after: &AnyConstraintMut<'a>) -> bool {
        match (*self, *after) {
            (AnyConstraintMut::OneBody(b), AnyConstraintMut::OneBody(a)) => *a == *b,
            (AnyConstraintMut::TwoBodies(b), AnyConstraintMut::TwoBodies(a)) => *a == *b,
            (AnyConstraintMut::GenericOneBody(b), AnyConstraintMut::GenericOneBody(a)) => *a == *b,
            (AnyConstraintMut::GenericTwoBodies(b), AnyConstraintMut::GenericTwoBodies(a)) => {
                *a == *b
            },
            (AnyConstraintMut::SimdOneBody(b), AnyConstraintMut::SimdOneBody(a)) => *a == *b,
            (AnyConstraintMut::SimdTwoBodies(b), AnyConstraintMut::SimdTwoBodies(a)) => *a == *b,
            _ => false,
        }
    }

    /// The stored contacts `points` of the manifold `id` once the constraint
    /// has written its impulses back.
    pub open spec fn spec_written_back(&self, id: int, points: Seq<TrackedContact>) -> Seq<
        TrackedContact,
    > {
        match *self {
            AnyConstraintMut::OneBody(c) => if c.inner.manifold_id == id {
                c.inner.spec_written_back(points, c.inner.num_contacts as nat)
            } else {
                points
            },
            AnyConstraintMut::TwoBodies(c) => if c.manifold_id == id {
                c.spec_written_back(points, c.num_contacts as nat)
            } else {
                points
            },
            AnyConstraintMut::GenericOneBody(c) => if c.inner.inner.manifold_id == id {
                c.inner.inner.spec_written_back(points, c.inner.inner.num_contacts as nat)
            } else {
                points
            },
            AnyConstraintMut::GenericTwoBodies(c) => if c.inner.manifold_id == id {
                c.inner.spec_written_back(points, c.inner.num_contacts as nat)
            } else {
                points
            },
            AnyConstraintMut::SimdOneBody(c) => c.spec_written_back(id, points, LANES as nat),
            AnyConstraintMut::SimdTwoBodies(c) => c.spec_written_back(id, points, LANES as nat),
        }
    }

    /// Switches the softening off and collapses every right-hand side to its
    /// bias-free form.
    pub fn remove_bias(&mut self)
        ensures
            old(self).debiased_to(final(self)),
            match (*old(self), *final(self)) {
                (AnyConstraintMut::OneBody(b), AnyConstraintMut::OneBody(a)) => {
                    *final(a) == *final(b)
                },
                (AnyConstraintMut::TwoBodies(b), AnyConstraintMut::TwoBodies(a)) => {
                    *final(a) == *final(b)
                },
                (AnyConstraintMut::GenericOneBody(b), AnyConstraintMut::GenericOneBody(a)) => {
                    *final(a) == *final(b)
                },
                (AnyConstraintMut::GenericTwoBodies(b), AnyConstraintMut::GenericTwoBodies(a)) => {
                    *final(a) == *final(b)
                },
                (AnyConstraintMut::SimdOneBody(b), AnyConstraintMut::SimdOneBody(a)) => {
                    *final(a) == *final(b)
                },
                (AnyConstraintMut::SimdTwoBodies(b), AnyConstraintMut::SimdTwoBodies(a)) => {
                    *final(a) == *final(b)
                },
                _ => false,
            },
    {
        match self {
            AnyConstraintMut::OneBody(c) => c.remove_cfm_and_bias_from_rhs(),
            AnyConstraintMut::TwoBodies(c) => c.remove_cfm_and_bias_from_rhs(),
            AnyConstraintMut::GenericOneBody(c) => c.remove_cfm_and_bias_from_rhs(),
            AnyConstraintMut::GenericTwoBodies(c) => c.remove_cfm_and_bias_from_rhs(),
            AnyConstraintMut::SimdOneBody(c) => c.remove_cfm_and_bias_from_rhs(),
            AnyConstraintMut::SimdTwoBodies(c) => c.remove_cfm_and_bias_from_rhs(),
        }
    }

    /// Solves the normal parts once, as the restitution pass does. The
    /// Jacobians and the dense velocities serve the shapes with bodies in
    /// reduced coordinates only.
    pub fn solve_restitution(
        &mut self,
        generic_jacobians: &DenseVector,
        solver_vels: &mut [SolverVel],
        generic_solver_vels: &mut DenseVector,
    )
        requires
            old(self).solvable(
                generic_jacobians@.len(),
                old(solver_vels)@,
                old(generic_solver_vels)@,
            ),
        ensures
            old(self).solved_to(
                final(self),
                generic_jacobians@,
                old(solver_vels)@,
                final(solver_vels)@,
                old(generic_solver_vels)@,
                final(generic_solver_vels)@,
                true,
                false,
            ),
            match (*old(self), *final(self)) {
                (AnyConstraintMut::OneBody(b), AnyConstraintMut::OneBody(a)) => {
                    *final(a) == *final(b)
                },
                (AnyConstraintMut::TwoBodies(b), AnyConstraintMut::TwoBodies(a)) => {
                    *final(a) == *final(b)
                },
                (AnyConstraintMut::GenericOneBody(b), AnyConstraintMut::GenericOneBody(a)) => {
                    *final(a) == *final(b)
                },
                (AnyConstraintMut::GenericTwoBodies(b), AnyConstraintMut::GenericTwoBodies(a)) => {
                    *final(a) == *final(b)
                },
                (AnyConstraintMut::SimdOneBody(b), AnyConstraintMut::SimdOneBody(a)) => {
                    *final(a) == *final(b)
                },
                (AnyConstraintMut::SimdTwoBodies(b), AnyConstraintMut::SimdTwoBodies(a)) => {
                    *final(a) == *final(b)
                },
                _ => false,
            },
    {
        match self {
            AnyConstraintMut::OneBody(c) => c.solve(solver_vels, true, false),
            AnyConstraintMut::TwoBodies(c) => c.solve(solver_vels, true, false),
            AnyConstraintMut::GenericOneBody(c) => {
                c.solve(generic_jacobians, generic_solver_vels, true, false)
            },
            AnyConstraintMut::GenericTwoBodies(c) => {
                c.solve(generic_jacobians, solver_vels, generic_solver_vels, true, false)
            },
            AnyConstraintMut::SimdOneBody(c) => c.solve(solver_vels, true, false),
            AnyConstraintMut::SimdTwoBodies(c) => c.solve(solver_vels, true, false),
        }
    }

    /// Solves the friction parts once. The Jacobians and the dense velocities
    /// serve the shapes with bodies in reduced coordinates only.
    pub fn solve_friction(
        &mut self,
        generic_jacobians: &DenseVector,
        solver_vels: &mut [SolverVel],
        generic_solver_vels: &mut DenseVector,
    )
        requires
            old(self).solvable(
                generic_jacobians@.len(),
                old(solver_vels)@,
                old(generic_solver_vels)@,
            ),
        ensures
            old(self).solved_to(
                final(self),
                generic_jacobians@,
                old(solver_vels)@,
                final(solver_vels)@,
                old(generic_solver_vels)@,
                final(generic_solver_vels)@,
                false,
                true,
            ),
            match (*old(self), *final(self)) {
                (AnyConstraintMut::OneBody(b), AnyConstraintMut::OneBody(a)) => {
                    *final(a) == *final(b)
                },
                (AnyConstraintMut::TwoBodies(b), AnyConstraintMut::TwoBodies(a)) => {
                    *final(a) == *final(b)
                },
                (AnyConstraintMut::GenericOneBody(b), AnyConstraintMut::GenericOneBody(a)) => {
                    *final(a) == *final(b)
                },
                (AnyConstraintMut::GenericTwoBodies(b), AnyConstraintMut::GenericTwoBodies(a)) => {
                    *final(a) == *final(b)
                },
                (AnyConstraintMut::SimdOneBody(b), AnyConstraintMut::SimdOneBody(a)) => {
                    *final(a) == *final(b)
                },
                (AnyConstraintMut::SimdTwoBodies(b), AnyConstraintMut::SimdTwoBodies(a)) => {
                    *final(a) == *final(b)
                },
                _ => false,
            },
    {
        match self {
            AnyConstraintMut::OneBody(c) => c.solve(solver_vels, false, true),
            AnyConstraintMut::TwoBodies(c) => c.solve(solver_vels, false, true),
            AnyConstraintMut::GenericOneBody(c) => {
                c.solve(generic_jacobians, generic_solver_vels, false, true)
            },
            AnyConstraintMut::GenericTwoBodies(c) => {
                c.solve(generic_jacobians, solver_vels, generic_solver_vels, false, true)
            },
            AnyConstraintMut::SimdOneBody(c) => c.solve(solver_vels, false, true),
            AnyConstraintMut::SimdTwoBodies(c) => c.solve(solver_vels, false, true),
        }
    }

    /// Copies the impulses of the constraint into the stored contacts of its
    /// manifolds.
    pub fn writeback_impulses(&mut self, manifolds_all: &mut [&mut ContactManifold])
        requires
            old(self).writable(old(manifolds_all)@),
        ensures
            old(self).unchanged_to(final(self)),
            match (*old(self), *final(self)) {
                (AnyConstraintMut::OneBody(b), AnyConstraintMut::OneBody(a)) => {
                    *final(a) == *final(b)
                },
                (AnyConstraintMut::TwoBodies(b), AnyConstraintMut::TwoBodies(a)) => {
                    *final(a) == *final(b)
                },
                (AnyConstraintMut::GenericOneBody(b), AnyConstraintMut::GenericOneBody(a)) => {
                    *final(a) == *final(b)
                },
                (AnyConstraintMut::GenericTwoBodies(b), AnyConstraintMut::GenericTwoBodies(a)) => {
                    *final(a) == *final(b)
                },
                (AnyConstraintMut::SimdOneBody(b), AnyConstraintMut::SimdOneBody(a)) => {
                    *final(a) == *final(b)
                },
                (AnyConstraintMut::SimdTwoBodies(b), AnyConstraintMut::SimdTwoBodies(a)) => {
                    *final(a) == *final(b)
                },
                _ => false,
            },
            final(manifolds_all)@.len() == old(manifolds_all)@.len(),
            forall|i: int|
                0 <= i < old(manifolds_all)@.len() ==> *final(final(manifolds_all)@[i])
                    == *final(old(manifolds_all)@[i]),
            forall|i: int|
                0 <= i < old(manifolds_all)@.len() ==> {
                    &&& final(manifolds_all)@[i].data == old(manifolds_all)@[i].data
                    &&& final(manifolds_all)@[i].points@ == old(self).spec_written_back(
                        i,
                        old(manifolds_all)@[i].points@,
                    )
                },
    {
        match self {
            AnyConstraintMut::OneBody(c) => c.writeback_impulses(manifolds_all),
            AnyConstraintMut::TwoBodies(c) => c.writeback_impulses(manifolds_all),
            AnyConstraintMut::GenericOneBody(c) => c.writeback_impulses(manifolds_all),
            AnyConstraintMut::GenericTwoBodies(c) => c.writeback_impulses(manifolds_all),
            AnyConstraintMut::SimdOneBody(c) => c.writeback_impulses(manifolds_all),
            AnyConstraintMut::SimdTwoBodies(c) => c.writeback_impulses(manifolds_all),
        }
    }
}

} // verus!
