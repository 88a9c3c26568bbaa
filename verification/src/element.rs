//! The impulse state of one contact point and the projected-impulse update
//! that solves it.
//!
//! Every contact point carries a normal part, which keeps the bodies from
//! interpenetrating, and a tangent part, which applies Coulomb friction along
//! two directions of the contact plane.

use vstd::prelude::*;
use crate::body::SolverVel;
use crate::fixed::{lemma_add_sub_zero, lemma_mul_nonnegative, lemma_mul_one, lemma_mul_zero, Real};
use crate::manifold::MAX_MANIFOLD_POINTS;
use crate::vector::{
    lemma_cap_magnitude_identity, lemma_cap_magnitude_within, lemma_vector_zero, Vector2, Vector3,
};

verus! {

/// The non-penetration part of one contact point.
#[derive(Clone, Copy, Debug, PartialEq, Eq, Structural)]
pub struct TwoBodyConstraintNormalPart {
    /// Angular effect of a unit impulse on the first body.
    pub gcross1: Vector3,
    /// Angular effect of a unit impulse on the second body.
    pub gcross2: Vector3,
    /// Right-hand side of the impulse equation, stabilization included.
    pub rhs: Real,
    /// Right-hand side without the stabilization bias.
    pub rhs_wo_bias: Real,
    /// Impulse of the current substep.
    pub impulse: Real,
    /// Impulse accumulated over the earlier substeps.
    pub total_impulse: Real,
    /// Effective mass along the normal.
    pub r: Real,
}

/// The friction part of one contact point.
#[derive(Clone, Copy, Debug)]
pub struct TwoBodyConstraintTangentPart {
    /// Angular effect of a unit impulse along each tangent on the first body.
    pub gcross1: [Vector3; 2],
    /// Angular effect of a unit impulse along each tangent on the second body.
    pub gcross2: [Vector3; 2],
    /// Right-hand side along each tangent.
    pub rhs: [Real; 2],
    /// Right-hand side along each tangent without the positional term.
    pub rhs_wo_bias: [Real; 2],
    /// Impulse of the current substep.
    pub impulse: Vector2,
    /// Impulse accumulated over the earlier substeps.
    pub total_impulse: Vector2,
    /// Inverse effective mass along each tangent, then their cross term.
    pub r: [Real; 3],
}

/// The solver's state of one contact point.
#[derive(Clone, Copy, Debug)]
pub struct TwoBodyConstraintElement {
    pub normal_part: TwoBodyConstraintNormalPart,
    pub tangent_part: TwoBodyConstraintTangentPart,
}

/// Velocity of the first body relative to the second along `dir` at a contact
/// whose angular effects are `gcross1` and `gcross2`.
pub open spec fn spec_relative_velocity(
    dir: Vector3,
    gcross1: Vector3,
    gcross2: Vector3,
    v1: SolverVel,
    v2: SolverVel,
) -> Real {
    dir.spec_dot(v1.linear).spec_add(gcross1.spec_dot(v1.angular)).spec_sub(
        dir.spec_dot(v2.linear),
    ).spec_add(gcross2.spec_dot(v2.angular))
}

/// The two friction directions of a contact: `tangent1`, and the vector
/// product of the force direction and `tangent1`.
pub open spec fn spec_tangents(dir1: Vector3, tangent1: Vector3) -> [Vector3; 2] {
    [tangent1, dir1.spec_cross(tangent1)]
}

pub fn relative_velocity(
    dir: &Vector3,
    gcross1: &Vector3,
    gcross2: &Vector3,
    v1: &SolverVel,
    v2: &SolverVel,
) -> (r: Real)
    ensures
        r == spec_relative_velocity(*dir, *gcross1, *gcross2, *v1, *v2),
{
    dir.dot(v1.linear).add(gcross1.dot(v1.angular)).sub(dir.dot(v2.linear)).add(
        gcross2.dot(v2.angular),
    )
}

impl TwoBodyConstraintNormalPart {
    /// The part with every field zero.
    pub open spec fn spec_zero() -> TwoBodyConstraintNormalPart {
        TwoBodyConstraintNormalPart {
            gcross1: Vector3::spec_zero(),
            gcross2: Vector3::spec_zero(),
            rhs: Real::spec_zero(),
            rhs_wo_bias: Real::spec_zero(),
            impulse: Real::spec_zero(),
            total_impulse: Real::spec_zero(),
            r: Real::spec_zero(),
        }
    }

    /// Impulse applied across all the substeps.
    pub open spec fn spec_total_impulse(self) -> Real {
        self.total_impulse.spec_add(self.impulse)
    }

    /// The part with its right-hand side collapsed to the bias-free one.
    pub open spec fn spec_without_bias(self) -> TwoBodyConstraintNormalPart {
        TwoBodyConstraintNormalPart { rhs: self.rhs_wo_bias, ..self }
    }

    /// The impulse after one projection: the old impulse corrected by the
    /// effective mass times the velocity error, kept from pulling, softened.
    pub open spec fn spec_solved_impulse(
        self,
        cfm_factor: Real,
        dir1: Vector3,
        v1: SolverVel,
        v2: SolverVel,
    ) -> Real {
        let dvel = spec_relative_velocity(dir1, self.gcross1, self.gcross2, v1, v2).spec_add(
            self.rhs,
        );
        cfm_factor.spec_mul(
            self.impulse.spec_sub(self.r.spec_mul(dvel)).spec_max(Real::spec_zero()),
        )
    }

    /// One projection of the normal impulse: the part with its new impulse,
    /// and the two velocities with the change of impulse applied.
    pub open spec fn spec_solve(
        self,
        cfm_factor: Real,
        dir1: Vector3,
        im1: Vector3,
        im2: Vector3,
        v1: SolverVel,
        v2: SolverVel,
    ) -> (TwoBodyConstraintNormalPart, SolverVel, SolverVel) {
        let new_impulse = self.spec_solved_impulse(cfm_factor, dir1, v1, v2);
        let dlambda = new_impulse.spec_sub(self.impulse);
        (
            TwoBodyConstraintNormalPart { impulse: new_impulse, ..self },
            SolverVel {
                linear: v1.linear.spec_add(dir1.spec_component_mul(im1).spec_scale(dlambda)),
                angular: v1.angular.spec_add(self.gcross1.spec_scale(dlambda)),
            },
            SolverVel {
                linear: v2.linear.spec_add(
                    dir1.spec_component_mul(im2).spec_scale(dlambda.spec_neg()),
                ),
                angular: v2.angular.spec_add(self.gcross2.spec_scale(dlambda)),
            },
        )
    }

    pub fn zero() -> (r: TwoBodyConstraintNormalPart)
        ensures
            r == TwoBodyConstraintNormalPart::spec_zero(),
    {
        TwoBodyConstraintNormalPart {
            gcross1: Vector3::zero(),
            gcross2: Vector3::zero(),
            rhs: Real::zero(),
            rhs_wo_bias: Real::zero(),
            impulse: Real::zero(),
            total_impulse: Real::zero(),
            r: Real::zero(),
        }
    }

    pub fn total_impulse(&self) -> (r: Real)
        ensures
            r == self.spec_total_impulse(),
    {
        self.total_impulse.add(self.impulse)
    }

    pub fn solve(
        &mut self,
        cfm_factor: Real,
        dir1: &Vector3,
        im1: &Vector3,
        im2: &Vector3,
        solver_vel1: &mut SolverVel,
        solver_vel2: &mut SolverVel,
    )
        ensures
            (*final(self), *final(solver_vel1), *final(solver_vel2)) == old(self).spec_solve(
                cfm_factor,
                *dir1,
                *im1,
                *im2,
                *old(solver_vel1),
                *old(solver_vel2),
            ),
    {
        let dvel = relative_velocity(dir1, &self.gcross1, &self.gcross2, solver_vel1, solver_vel2)
            .add(self.rhs);
        let new_impulse = cfm_factor.mul(self.impulse.sub(self.r.mul(dvel)).max(Real::zero()));
        let dlambda = new_impulse.sub(self.impulse);
        self.impulse = new_impulse;

        solver_vel1.linear = solver_vel1.linear.add(dir1.component_mul(*im1).scale(dlambda));
        solver_vel1.angular = solver_vel1.angular.add(self.gcross1.scale(dlambda));

        solver_vel2.linear = solver_vel2.linear.add(
            dir1.component_mul(*im2).scale(dlambda.neg()),
        );
        solver_vel2.angular = solver_vel2.angular.add(self.gcross2.scale(dlambda));
    }
}

impl TwoBodyConstraintTangentPart {
    /// The part with every field zero.
    pub open spec fn spec_zero() -> TwoBodyConstraintTangentPart {
        TwoBodyConstraintTangentPart {
            gcross1: [Vector3::spec_zero(), Vector3::spec_zero()],
            gcross2: [Vector3::spec_zero(), Vector3::spec_zero()],
            rhs: [Real::spec_zero(), Real::spec_zero()],
            rhs_wo_bias: [Real::spec_zero(), Real::spec_zero()],
            impulse: Vector2::spec_zero(),
            total_impulse: Vector2::spec_zero(),
            r: [Real::spec_zero(), Real::spec_zero(), Real::spec_zero()],
        }
    }

    /// Impulse applied across all the substeps.
    pub open spec fn spec_total_impulse(self) -> Vector2 {
        self.total_impulse.spec_add(self.impulse)
    }

    /// The part with its right-hand side collapsed to the bias-free one.
    pub open spec fn spec_without_bias(self) -> TwoBodyConstraintTangentPart {
        TwoBodyConstraintTangentPart { rhs: self.rhs_wo_bias, ..self }
    }

    /// The part with `new_impulse` in place of its impulse, and the two
    /// velocities with the change of impulse applied along both tangents.
    pub open spec fn spec_with_impulse(
        self,
        tangents1: [Vector3; 2],
        im1: Vector3,
        im2: Vector3,
        new_impulse: Vector2,
        v1: SolverVel,
        v2: SolverVel,
    ) -> (TwoBodyConstraintTangentPart, SolverVel, SolverVel) {
        let dlambda = new_impulse.spec_sub(self.impulse);
        (
            TwoBodyConstraintTangentPart { impulse: new_impulse, ..self },
            SolverVel {
                linear: v1.linear.spec_add(
                    tangents1[0].spec_component_mul(im1).spec_scale(dlambda.x).spec_add(
                        tangents1[1].spec_component_mul(im1).spec_scale(dlambda.y),
                    ),
                ),
                angular: v1.angular.spec_add(
                    self.gcross1[0].spec_scale(dlambda.x).spec_add(
                        self.gcross1[1].spec_scale(dlambda.y),
                    ),
                ),
            },
            SolverVel {
                linear: v2.linear.spec_add(
                    tangents1[0].spec_component_mul(im2).spec_scale(dlambda.x.spec_neg()).spec_add(
                        tangents1[1].spec_component_mul(im2).spec_scale(dlambda.y.spec_neg()),
                    ),
                ),
                angular: v2.angular.spec_add(
                    self.gcross2[0].spec_scale(dlambda.x).spec_add(
                        self.gcross2[1].spec_scale(dlambda.y),
                    ),
                ),
            },
        )
    }

    /// The friction impulse pulled back into the cone of radius `limit`.
    pub open spec fn spec_apply_limit(
        self,
        tangents1: [Vector3; 2],
        im1: Vector3,
        im2: Vector3,
        limit: Real,
        v1: SolverVel,
        v2: SolverVel,
    ) -> (TwoBodyConstraintTangentPart, SolverVel, SolverVel) {
        self.spec_with_impulse(
            tangents1,
            im1,
            im2,
            self.impulse.spec_cap_magnitude(limit),
            v1,
            v2,
        )
    }

    /// The friction impulse before it is capped: the old impulse corrected
    /// against the sliding velocity along both tangents.
    pub open spec fn spec_uncapped_impulse(
        self,
        tangents1: [Vector3; 2],
        v1: SolverVel,
        v2: SolverVel,
    ) -> Vector2 {
        let dvel_0 = spec_relative_velocity(
            tangents1[0],
            self.gcross1[0],
            self.gcross2[0],
            v1,
            v2,
        ).spec_add(self.rhs[0]);
        let dvel_1 = spec_relative_velocity(
            tangents1[1],
            self.gcross1[1],
            self.gcross2[1],
            v1,
            v2,
        ).spec_add(self.rhs[1]);
        let dvel_00 = dvel_0.spec_mul(dvel_0);
        let dvel_11 = dvel_1.spec_mul(dvel_1);
        let dvel_01 = dvel_0.spec_mul(dvel_1);
        let inv_lhs = dvel_00.spec_add(dvel_11).spec_mul(
            dvel_00.spec_mul(self.r[0]).spec_add(dvel_11.spec_mul(self.r[1])).spec_add(
                dvel_01.spec_mul(self.r[2]),
            ).spec_inv(),
        );
        self.impulse.spec_sub(Vector2 { x: inv_lhs.spec_mul(dvel_0), y: inv_lhs.spec_mul(dvel_1) })
    }

    /// One projection of the friction impulse into the cone of radius `limit`.
    pub open spec fn spec_solve(
        self,
        tangents1: [Vector3; 2],
        im1: Vector3,
        im2: Vector3,
        limit: Real,
        v1: SolverVel,
        v2: SolverVel,
    ) -> (TwoBodyConstraintTangentPart, SolverVel, SolverVel) {
        self.spec_with_impulse(
            tangents1,
            im1,
            im2,
            self.spec_uncapped_impulse(tangents1, v1, v2).spec_cap_magnitude(limit),
            v1,
            v2,
        )
    }

    pub fn zero() -> (r: TwoBodyConstraintTangentPart)
        ensures
            r == TwoBodyConstraintTangentPart::spec_zero(),
    {
        let r = TwoBodyConstraintTangentPart {
            gcross1: [Vector3::zero(), Vector3::zero()],
            gcross2: [Vector3::zero(), Vector3::zero()],
            rhs: [Real::zero(), Real::zero()],
            rhs_wo_bias: [Real::zero(), Real::zero()],
            impulse: Vector2::zero(),
            total_impulse: Vector2::zero(),
            r: [Real::zero(), Real::zero(), Real::zero()],
        };
        proof {
            let z = TwoBodyConstraintTangentPart::spec_zero();
            assert(r.gcross1 =~= z.gcross1);
            assert(r.gcross2 =~= z.gcross2);
            assert(r.rhs =~= z.rhs);
            assert(r.rhs_wo_bias =~= z.rhs_wo_bias);
            assert(r.r =~= z.r);
        }
        r
    }

    pub fn total_impulse(&self) -> (r: Vector2)
        ensures
            r == self.spec_total_impulse(),
    {
        self.total_impulse.add(self.impulse)
    }

    fn set_impulse(
        &mut self,
        tangents1: &[Vector3; 2],
        im1: &Vector3,
        im2: &Vector3,
        new_impulse: Vector2,
        solver_vel1: &mut SolverVel,
        solver_vel2: &mut SolverVel,
    )
        ensures
            (*final(self), *final(solver_vel1), *final(solver_vel2)) == old(
                self,
            ).spec_with_impulse(
                *tangents1,
                *im1,
                *im2,
                new_impulse,
                *old(solver_vel1),
                *old(solver_vel2),
            ),
    {
        let dlambda = new_impulse.sub(self.impulse);
        self.impulse = new_impulse;

        solver_vel1.linear = solver_vel1.linear.add(
            tangents1[0].component_mul(*im1).scale(dlambda.x).add(
                tangents1[1].component_mul(*im1).scale(dlambda.y),
            ),
        );
        solver_vel1.angular = solver_vel1.angular.add(
            self.gcross1[0].scale(dlambda.x).add(self.gcross1[1].scale(dlambda.y)),
        );

        solver_vel2.linear = solver_vel2.linear.add(
            tangents1[0].component_mul(*im2).scale(dlambda.x.neg()).add(
                tangents1[1].component_mul(*im2).scale(dlambda.y.neg()),
            ),
        );
        solver_vel2.angular = solver_vel2.angular.add(
            self.gcross2[0].scale(dlambda.x).add(self.gcross2[1].scale(dlambda.y)),
        );
    }

    pub fn apply_limit(
        &mut self,
        tangents1: &[Vector3; 2],
        im1: &Vector3,
        im2: &Vector3,
        limit: Real,
        solver_vel1: &mut SolverVel,
        solver_vel2: &mut SolverVel,
    )
        ensures
            (*final(self), *final(solver_vel1), *final(solver_vel2)) == old(
                self,
            ).spec_apply_limit(
                *tangents1,
                *im1,
                *im2,
                limit,
                *old(solver_vel1),
                *old(solver_vel2),
            ),
            limit@ >= 0 ==> final(self).impulse.within(limit),
    {
        let new_impulse = self.impulse.cap_magnitude(limit);
        self.set_impulse(tangents1, im1, im2, new_impulse, solver_vel1, solver_vel2);
    }

    pub fn solve(
        &mut self,
        tangents1: &[Vector3; 2],
        im1: &Vector3,
        im2: &Vector3,
        limit: Real,
        solver_vel1: &mut SolverVel,
        solver_vel2: &mut SolverVel,
    )
        ensures
            (*final(self), *final(solver_vel1), *final(solver_vel2)) == old(self).spec_solve(
                *tangents1,
                *im1,
                *im2,
                limit,
                *old(solver_vel1),
                *old(solver_vel2),
            ),
            limit@ >= 0 ==> final(self).impulse.within(limit),
    {
        let dvel_0 = relative_velocity(
            &tangents1[0],
            &self.gcross1[0],
            &self.gcross2[0],
            solver_vel1,
            solver_vel2,
        ).add(self.rhs[0]);
        let dvel_1 = relative_velocity(
            &tangents1[1],
            &self.gcross1[1],
            &self.gcross2[1],
            solver_vel1,
            solver_vel2,
        ).add(self.rhs[1]);
        let dvel_00 = dvel_0.mul(dvel_0);
        let dvel_11 = dvel_1.mul(dvel_1);
        let dvel_01 = dvel_0.mul(dvel_1);
        let inv_lhs = dvel_00.add(dvel_11).mul(
            dvel_00.mul(self.r[0]).add(dvel_11.mul(self.r[1])).add(dvel_01.mul(self.r[2])).inv(),
        );
        let delta_impulse = Vector2 { x: inv_lhs.mul(dvel_0), y: inv_lhs.mul(dvel_1) };
        let new_impulse = self.impulse.sub(delta_impulse).cap_magnitude(limit);
        self.set_impulse(tangents1, im1, im2, new_impulse, solver_vel1, solver_vel2);
    }
}

impl TwoBodyConstraintElement {
    /// The element with every field zero.
    pub open spec fn spec_zero() -> TwoBodyConstraintElement {
        TwoBodyConstraintElement {
            normal_part: TwoBodyConstraintNormalPart::spec_zero(),
            tangent_part: TwoBodyConstraintTangentPart::spec_zero(),
        }
    }

    /// The element with both right-hand sides collapsed to the bias-free ones.
    pub open spec fn spec_without_bias(self) -> TwoBodyConstraintElement {
        TwoBodyConstraintElement {
            normal_part: self.normal_part.spec_without_bias(),
            tangent_part: self.tangent_part.spec_without_bias(),
        }
    }

    /// Whether the impulses are physically admissible for the friction
    /// coefficient `limit`: the normal impulse does not pull, and the friction
    /// impulse lies in the cone whose radius is `limit` times the normal impulse.
    pub open spec fn spec_admissible(self, limit: Real) -> bool {
        &&& self.normal_part.impulse@ >= 0
        &&& self.tangent_part.impulse.within(limit.spec_mul(self.normal_part.impulse))
    }

    /// One projection of the normal impulse, after which the friction impulse
    /// is pulled back into the cone that the new normal impulse allows.
    pub open spec fn spec_normal_step(
        self,
        cfm_factor: Real,
        dir1: Vector3,
        tangents1: [Vector3; 2],
        im1: Vector3,
        im2: Vector3,
        limit: Real,
        v1: SolverVel,
        v2: SolverVel,
    ) -> (TwoBodyConstraintElement, SolverVel, SolverVel) {
        let n = self.normal_part.spec_solve(cfm_factor, dir1, im1, im2, v1, v2);
        let t = self.tangent_part.spec_apply_limit(
            tangents1,
            im1,
            im2,
            limit.spec_mul(n.0.impulse),
            n.1,
            n.2,
        );
        (TwoBodyConstraintElement { normal_part: n.0, tangent_part: t.0 }, t.1, t.2)
    }

    /// One projection of the friction impulse into the cone that the current
    /// normal impulse allows.
    pub open spec fn spec_friction_step(
        self,
        tangents1: [Vector3; 2],
        im1: Vector3,
        im2: Vector3,
        limit: Real,
        v1: SolverVel,
        v2: SolverVel,
    ) -> (TwoBodyConstraintElement, SolverVel, SolverVel) {
        let t = self.tangent_part.spec_solve(
            tangents1,
            im1,
            im2,
            limit.spec_mul(self.normal_part.impulse),
            v1,
            v2,
        );
        (TwoBodyConstraintElement { normal_part: self.normal_part, tangent_part: t.0 }, t.1, t.2)
    }

    pub fn zero() -> (r: TwoBodyConstraintElement)
        ensures
            r == TwoBodyConstraintElement::spec_zero(),
    {
        TwoBodyConstraintElement {
            normal_part: TwoBodyConstraintNormalPart::zero(),
            tangent_part: TwoBodyConstraintTangentPart::zero(),
        }
    }

    /// Solves the first `num_contacts` elements in place, one after the
    /// other: the normal parts where `solve_normal` is set, then the friction
    /// parts where `solve_friction` is set. Each projection reads the
    /// velocities that the one before it left.
    pub fn solve_group(
        cfm_factor: Real,
        elements: &mut [TwoBodyConstraintElement; MAX_MANIFOLD_POINTS],
        num_contacts: usize,
        dir1: &Vector3,
        tangent1: &Vector3,
        im1: &Vector3,
        im2: &Vector3,
        limit: Real,
        solver_vel1: &mut SolverVel,
        solver_vel2: &mut SolverVel,
        solve_normal: bool,
        solve_friction: bool,
    )
        requires
            num_contacts <= MAX_MANIFOLD_POINTS,
        ensures
            (final(elements)@, *final(solver_vel1), *final(solver_vel2)) == spec_solve_group(
                cfm_factor,
                old(elements)@,
                num_contacts as nat,
                *dir1,
                *tangent1,
                *im1,
                *im2,
                limit,
                *old(solver_vel1),
                *old(solver_vel2),
                solve_normal,
                solve_friction,
            ),
    {
        let tangents1 = [*tangent1, dir1.cross(*tangent1)];
        assert(tangents1 =~= spec_tangents(*dir1, *tangent1));
        let ghost start = elements@;
        let ghost start1 = *solver_vel1;
        let ghost start2 = *solver_vel2;

        if solve_normal {
            let mut k: usize = 0;
            while k < num_contacts
                invariant
                    k <= num_contacts <= MAX_MANIFOLD_POINTS,
                    (elements@, *solver_vel1, *solver_vel2) == spec_normal_sweep(
                        start,
                        k as nat,
                        cfm_factor,
                        *dir1,
                        tangents1,
                        *im1,
                        *im2,
                        limit,
                        start1,
                        start2,
                    ),
                decreases num_contacts - k,
            {
                let ghost before = elements@;
                let mut element = elements[k];
                element.normal_part.solve(cfm_factor, dir1, im1, im2, solver_vel1, solver_vel2);
                let cone = limit.mul(element.normal_part.impulse);
                element.tangent_part.apply_limit(
                    &tangents1,
                    im1,
                    im2,
                    cone,
                    solver_vel1,
                    solver_vel2,
                );
                elements[k] = element;
                assert(elements@ =~= before.update(k as int, element));
                k += 1;
            }
        }
        let ghost middle = elements@;
        let ghost middle1 = *solver_vel1;
        let ghost middle2 = *solver_vel2;

        if solve_friction {
            let mut k: usize = 0;
            while k < num_contacts
                invariant
                    k <= num_contacts <= MAX_MANIFOLD_POINTS,
                    (elements@, *solver_vel1, *solver_vel2) == spec_friction_sweep(
                        middle,
                        k as nat,
                        tangents1,
                        *im1,
                        *im2,
                        limit,
                        middle1,
                        middle2,
                    ),
                decreases num_contacts - k,
            {
                let ghost before = elements@;
                let mut element = elements[k];
                let cone = limit.mul(element.normal_part.impulse);
                element.tangent_part.solve(&tangents1, im1, im2, cone, solver_vel1, solver_vel2);
                elements[k] = element;
                assert(elements@ =~= before.update(k as int, element));
                k += 1;
            }
        }
    }
}

/// The state after the normal parts of the first `k` elements were solved in
/// order, from the elements and velocities given.
pub open spec fn spec_normal_sweep(
    elements: Seq<TwoBodyConstraintElement>,
    k: nat,
    cfm_factor: Real,
    dir1: Vector3,
    tangents1: [Vector3; 2],
    im1: Vector3,
    im2: Vector3,
    limit: Real,
    v1: SolverVel,
    v2: SolverVel,
) -> (Seq<TwoBodyConstraintElement>, SolverVel, SolverVel)
    decreases k,
{
    if k == 0 {
        (elements, v1, v2)
    } else {
        let prev = spec_normal_sweep(
            elements,
            (k - 1) as nat,
            cfm_factor,
            dir1,
            tangents1,
            im1,
            im2,
            limit,
            v1,
            v2,
        );
        let step = prev.0[k - 1].spec_normal_step(
            cfm_factor,
            dir1,
            tangents1,
            im1,
            im2,
            limit,
            prev.1,
            prev.2,
        );
        (prev.0.update(k - 1, step.0), step.1, step.2)
    }
}

/// The state after the friction parts of the first `k` elements were solved
/// in order, from the elements and velocities given.
pub open spec fn spec_friction_sweep(
    elements: Seq<TwoBodyConstraintElement>,
    k: nat,
    tangents1: [Vector3; 2],
    im1: Vector3,
    im2: Vector3,
    limit: Real,
    v1: SolverVel,
    v2: SolverVel,
) -> (Seq<TwoBodyConstraintElement>, SolverVel, SolverVel)
    decreases k,
{
    if k == 0 {
        (elements, v1, v2)
    } else {
        let prev = spec_friction_sweep(
            elements,
            (k - 1) as nat,
            tangents1,
            im1,
            im2,
            limit,
            v1,
            v2,
        );
        let step = prev.0[k - 1].spec_friction_step(tangents1, im1, im2, limit, prev.1, prev.2);
        (prev.0.update(k - 1, step.0), step.1, step.2)
    }
}

/// The state after one solve of the first `num` elements: the sweep over the
/// normal parts where `solve_normal` is set, followed by the sweep over the
/// friction parts where `solve_friction` is set.
pub open spec fn spec_solve_group(
    cfm_factor: Real,
    elements: Seq<TwoBodyConstraintElement>,
    num: nat,
    dir1: Vector3,
    tangent1: Vector3,
    im1: Vector3,
    im2: Vector3,
    limit: Real,
    v1: SolverVel,
    v2: SolverVel,
    solve_normal: bool,
    solve_friction: bool,
) -> (Seq<TwoBodyConstraintElement>, SolverVel, SolverVel) {
    let tangents1 = spec_tangents(dir1, tangent1);
    let a = if solve_normal {
        spec_normal_sweep(elements, num, cfm_factor, dir1, tangents1, im1, im2, limit, v1, v2)
    } else {
        (elements, v1, v2)
    };
    if solve_friction {
        spec_friction_sweep(a.0, num, tangents1, im1, im2, limit, a.1, a.2)
    } else {
        a
    }
}

/// A sweep over the normal parts keeps the number of elements and leaves the
/// elements from `k` on as they were.
pub proof fn lemma_normal_sweep_frame(
    elements: Seq<TwoBodyConstraintElement>,
    k: nat,
    cfm_factor: Real,
    dir1: Vector3,
    tangents1: [Vector3; 2],
    im1: Vector3,
    im2: Vector3,
    limit: Real,
    v1: SolverVel,
    v2: SolverVel,
)
    requires
        k <= elements.len(),
    ensures
        ({
            let after = spec_normal_sweep(
                elements,
                k,
                cfm_factor,
                dir1,
                tangents1,
                im1,
                im2,
                limit,
                v1,
                v2,
            ).0;
            &&& after.len() == elements.len()
            &&& forall|i: int| k <= i < elements.len() ==> after[i] == elements[i]
        }),
    decreases k,
{
    if k > 0 {
        lemma_normal_sweep_frame(
            elements,
            (k - 1) as nat,
            cfm_factor,
            dir1,
            tangents1,
            im1,
            im2,
            limit,
            v1,
            v2,
        );
    }
}

/// A sweep over the friction parts keeps the number of elements, leaves the
/// elements from `k` on as they were, and changes no normal part.
pub proof fn lemma_friction_sweep_frame(
    elements: Seq<TwoBodyConstraintElement>,
    k: nat,
    tangents1: [Vector3; 2],
    im1: Vector3,
    im2: Vector3,
    limit: Real,
    v1: SolverVel,
    v2: SolverVel,
)
    requires
        k <= elements.len(),
    ensures
        ({
            let after = spec_friction_sweep(elements, k, tangents1, im1, im2, limit, v1, v2).0;
            &&& after.len() == elements.len()
            &&& forall|i: int| k <= i < elements.len() ==> after[i] == elements[i]
            &&& forall|i: int|
                0 <= i < elements.len() ==> after[i].normal_part == elements[i].normal_part
        }),
    decreases k,
{
    if k > 0 {
        lemma_friction_sweep_frame(
            elements,
            (k - 1) as nat,
            tangents1,
            im1,
            im2,
            limit,
            v1,
            v2,
        );
    }
}

/// After a sweep over the normal parts no solved contact pulls, and under a
/// non-negative friction coefficient every solved friction impulse lies in
/// its cone.
pub proof fn lemma_normal_sweep_admissible(
    elements: Seq<TwoBodyConstraintElement>,
    k: nat,
    cfm_factor: Real,
    dir1: Vector3,
    tangents1: [Vector3; 2],
    im1: Vector3,
    im2: Vector3,
    limit: Real,
    v1: SolverVel,
    v2: SolverVel,
)
    requires
        k <= elements.len(),
        cfm_factor@ >= 0,
    ensures
        ({
            let after = spec_normal_sweep(
                elements,
                k,
                cfm_factor,
                dir1,
                tangents1,
                im1,
                im2,
                limit,
                v1,
                v2,
            ).0;
            &&& forall|i: int| 0 <= i < k ==> after[i].normal_part.impulse@ >= 0
            &&& limit@ >= 0 ==> forall|i: int| 0 <= i < k ==> after[i].spec_admissible(limit)
        }),
    decreases k,
{
    if k > 0 {
        let j = (k - 1) as nat;
        lemma_normal_sweep_admissible(
            elements,
            j,
            cfm_factor,
            dir1,
            tangents1,
            im1,
            im2,
            limit,
            v1,
            v2,
        );
        lemma_normal_sweep_frame(elements, j, cfm_factor, dir1, tangents1, im1, im2, limit, v1, v2);
        let prev = spec_normal_sweep(
            elements,
            j,
            cfm_factor,
            dir1,
            tangents1,
            im1,
            im2,
            limit,
            v1,
            v2,
        );
        let part = prev.0[j as int].normal_part;
        let solved = part.spec_solve(cfm_factor, dir1, im1, im2, prev.1, prev.2).0;
        let dvel = spec_relative_velocity(dir1, part.gcross1, part.gcross2, prev.1, prev.2)
            .spec_add(part.rhs);
        lemma_mul_nonnegative(
            cfm_factor,
            part.impulse.spec_sub(part.r.spec_mul(dvel)).spec_max(Real::spec_zero()),
        );
        if limit@ >= 0 {
            lemma_mul_nonnegative(limit, solved.impulse);
            lemma_cap_magnitude_within(
                prev.0[j as int].tangent_part.impulse,
                limit.spec_mul(solved.impulse),
            );
        }
    }
}

/// After a sweep over the friction parts of contacts that do not pull, under
/// a non-negative friction coefficient, every solved friction impulse lies in
/// its cone.
pub proof fn lemma_friction_sweep_admissible(
    elements: Seq<TwoBodyConstraintElement>,
    k: nat,
    tangents1: [Vector3; 2],
    im1: Vector3,
    im2: Vector3,
    limit: Real,
    v1: SolverVel,
    v2: SolverVel,
)
    requires
        k <= elements.len(),
        limit@ >= 0,
        forall|i: int| 0 <= i < k ==> elements[i].normal_part.impulse@ >= 0,
    ensures
        ({
            let after = spec_friction_sweep(elements, k, tangents1, im1, im2, limit, v1, v2).0;
            forall|i: int| 0 <= i < k ==> after[i].spec_admissible(limit)
        }),
    decreases k,
{
    if k > 0 {
        let j = (k - 1) as nat;
        lemma_friction_sweep_admissible(elements, j, tangents1, im1, im2, limit, v1, v2);
        lemma_friction_sweep_frame(elements, j, tangents1, im1, im2, limit, v1, v2);
        let prev = spec_friction_sweep(elements, j, tangents1, im1, im2, limit, v1, v2);
        let element = prev.0[j as int];
        lemma_mul_nonnegative(limit, element.normal_part.impulse);
        lemma_cap_magnitude_within(
            element.tangent_part.spec_uncapped_impulse(tangents1, prev.1, prev.2),
            limit.spec_mul(element.normal_part.impulse),
        );
    }
}

/// No contact pulls after a solve: under a non-negative softening factor,
/// every normal impulse of the first `num` elements is non-negative after a
/// solve that includes the normal parts, and stays non-negative after one
/// that does not.
pub proof fn law_normal_impulses_nonnegative(
    cfm_factor: Real,
    elements: Seq<TwoBodyConstraintElement>,
    num: nat,
    dir1: Vector3,
    tangent1: Vector3,
    im1: Vector3,
    im2: Vector3,
    limit: Real,
    v1: SolverVel,
    v2: SolverVel,
    solve_normal: bool,
    solve_friction: bool,
)
    requires
        num <= elements.len(),
        cfm_factor@ >= 0,
        !solve_normal ==> forall|i: int| 0 <= i < num ==> elements[i].normal_part.impulse@ >= 0,
    ensures
        ({
            let after = spec_solve_group(
                cfm_factor,
                elements,
                num,
                dir1,
                tangent1,
                im1,
                im2,
                limit,
                v1,
                v2,
                solve_normal,
                solve_friction,
            ).0;
            &&& after.len() == elements.len()
            &&& forall|i: int| 0 <= i < num ==> after[i].normal_part.impulse@ >= 0
        }),
{
    let tangents1 = spec_tangents(dir1, tangent1);
    lemma_normal_sweep_admissible(
        elements,
        num,
        cfm_factor,
        dir1,
        tangents1,
        im1,
        im2,
        limit,
        v1,
        v2,
    );
    lemma_normal_sweep_frame(elements, num, cfm_factor, dir1, tangents1, im1, im2, limit, v1, v2);
    let a = if solve_normal {
        spec_normal_sweep(elements, num, cfm_factor, dir1, tangents1, im1, im2, limit, v1, v2)
    } else {
        (elements, v1, v2)
    };
    lemma_friction_sweep_frame(a.0, num, tangents1, im1, im2, limit, a.1, a.2);
}

/// The friction cone holds after a solve: under a non-negative softening
/// factor and friction coefficient, after a solve of the normal parts, of the
/// friction parts or of both, the friction impulse of each of the first `num`
/// elements is no longer than the friction coefficient times the element's
/// normal impulse. Where the normal parts are not solved, the normal impulses
/// must be non-negative beforehand.
pub proof fn law_friction_cone(
    cfm_factor: Real,
    elements: Seq<TwoBodyConstraintElement>,
    num: nat,
    dir1: Vector3,
    tangent1: Vector3,
    im1: Vector3,
    im2: Vector3,
    limit: Real,
    v1: SolverVel,
    v2: SolverVel,
    solve_normal: bool,
    solve_friction: bool,
)
    requires
        num <= elements.len(),
        cfm_factor@ >= 0,
        limit@ >= 0,
        solve_normal || solve_friction,
        !solve_normal ==> forall|i: int| 0 <= i < num ==> elements[i].normal_part.impulse@ >= 0,
    ensures
        ({
            let after = spec_solve_group(
                cfm_factor,
                elements,
                num,
                dir1,
                tangent1,
                im1,
                im2,
                limit,
                v1,
                v2,
                solve_normal,
                solve_friction,
            ).0;
            forall|i: int|
                0 <= i < num ==> after[i].tangent_part.impulse.within(
                    limit.spec_mul(after[i].normal_part.impulse),
                )
        }),
{
    let tangents1 = spec_tangents(dir1, tangent1);
    lemma_normal_sweep_admissible(
        elements,
        num,
        cfm_factor,
        dir1,
        tangents1,
        im1,
        im2,
        limit,
        v1,
        v2,
    );
    lemma_normal_sweep_frame(elements, num, cfm_factor, dir1, tangents1, im1, im2, limit, v1, v2);
    let a = if solve_normal {
        spec_normal_sweep(elements, num, cfm_factor, dir1, tangents1, im1, im2, limit, v1, v2)
    } else {
        (elements, v1, v2)
    };
    if solve_friction {
        lemma_friction_sweep_admissible(a.0, num, tangents1, im1, im2, limit, a.1, a.2);
    }
}

/// A contact at rest under an unsoftened, bias-free solve keeps its normal
/// impulse and leaves both velocities as they are: where the right-hand side
/// is zero, the bodies do not move relative to each other along `dir1`, and
/// the impulse does not pull, one projection changes nothing.
pub proof fn lemma_normal_solve_at_rest(
    part: TwoBodyConstraintNormalPart,
    dir1: Vector3,
    im1: Vector3,
    im2: Vector3,
    v1: SolverVel,
    v2: SolverVel,
)
    requires
        part.rhs == Real::spec_zero(),
        part.impulse@ >= 0,
        spec_relative_velocity(dir1, part.gcross1, part.gcross2, v1, v2) == Real::spec_zero(),
    ensures
        part.spec_solve(Real::spec_one(), dir1, im1, im2, v1, v2) == (part, v1, v2),
{
    let zero = Real::spec_zero();
    lemma_add_sub_zero(zero);
    lemma_mul_zero(part.r);
    lemma_add_sub_zero(part.impulse);
    lemma_mul_one(part.impulse);
    lemma_vector_zero(dir1.spec_component_mul(im1));
    lemma_vector_zero(dir1.spec_component_mul(im2));
    lemma_vector_zero(part.gcross1);
    lemma_vector_zero(part.gcross2);
    lemma_vector_zero(v1.linear);
    lemma_vector_zero(v1.angular);
    lemma_vector_zero(v2.linear);
    lemma_vector_zero(v2.angular);
}

/// A friction impulse that already lies in the cone of radius `limit` is
/// left as it is when the cone is enforced, and so are both velocities.
pub proof fn lemma_apply_limit_within(
    part: TwoBodyConstraintTangentPart,
    tangents1: [Vector3; 2],
    im1: Vector3,
    im2: Vector3,
    limit: Real,
    v1: SolverVel,
    v2: SolverVel,
)
    requires
        part.impulse.within(limit),
    ensures
        part.spec_apply_limit(tangents1, im1, im2, limit, v1, v2) == (part, v1, v2),
{
    lemma_cap_magnitude_identity(part.impulse, limit);
    lemma_add_sub_zero(part.impulse.x);
    lemma_add_sub_zero(part.impulse.y);
    let zero = Real::spec_zero();
    lemma_add_sub_zero(zero);
    lemma_vector_zero(tangents1[0].spec_component_mul(im1));
    lemma_vector_zero(tangents1[1].spec_component_mul(im1));
    lemma_vector_zero(tangents1[0].spec_component_mul(im2));
    lemma_vector_zero(tangents1[1].spec_component_mul(im2));
    lemma_vector_zero(part.gcross1[0]);
    lemma_vector_zero(part.gcross1[1]);
    lemma_vector_zero(part.gcross2[0]);
    lemma_vector_zero(part.gcross2[1]);
    lemma_vector_zero(Vector3::spec_zero());
    lemma_vector_zero(v1.linear);
    lemma_vector_zero(v1.angular);
    lemma_vector_zero(v2.linear);
    lemma_vector_zero(v2.angular);
}

/// Whether the contact `e` is at rest between bodies with the velocities
/// `v1` and `v2`: its right-hand side is zero, the bodies do not move
/// relative to each other along `dir1` at the contact, and its impulses are
/// admissible.
pub open spec fn spec_at_rest(
    e: TwoBodyConstraintElement,
    dir1: Vector3,
    limit: Real,
    v1: SolverVel,
    v2: SolverVel,
) -> bool {
    &&& e.normal_part.rhs == Real::spec_zero()
    &&& e.spec_admissible(limit)
    &&& spec_relative_velocity(dir1, e.normal_part.gcross1, e.normal_part.gcross2, v1, v2)
        == Real::spec_zero()
}

/// A restitution pass over contacts at rest changes nothing: an unsoftened
/// solve of the normal parts alone, over elements whose right-hand sides are
/// zero, between bodies that do not move relative to each other along the
/// normal, leaves every impulse and both velocities as they were.
pub proof fn law_restitution_pass_at_rest(
    elements: Seq<TwoBodyConstraintElement>,
    num: nat,
    dir1: Vector3,
    tangent1: Vector3,
    im1: Vector3,
    im2: Vector3,
    limit: Real,
    v1: SolverVel,
    v2: SolverVel,
)
    requires
        num <= elements.len(),
        forall|i: int| 0 <= i < num ==> spec_at_rest(#[trigger] elements[i], dir1, limit, v1, v2),
    ensures
        spec_solve_group(
            Real::spec_one(),
            elements,
            num,
            dir1,
            tangent1,
            im1,
            im2,
            limit,
            v1,
            v2,
            true,
            false,
        ) == (elements, v1, v2),
    decreases num,
{
    let tangents1 = spec_tangents(dir1, tangent1);
    if num > 0 {
        let j = (num - 1) as nat;
        law_restitution_pass_at_rest(elements, j, dir1, tangent1, im1, im2, limit, v1, v2);
        let e = elements[j as int];
        assert(spec_at_rest(e, dir1, limit, v1, v2));
        lemma_normal_solve_at_rest(e.normal_part, dir1, im1, im2, v1, v2);
        lemma_apply_limit_within(
            e.tangent_part,
            tangents1,
            im1,
            im2,
            limit.spec_mul(e.normal_part.impulse),
            v1,
            v2,
        );
        assert(elements.update(j as int, e) =~= elements);
    }
}

} // verus!
