//! Contact constraints with bodies in reduced coordinates.
//!
//! A body that is a link of a multibody keeps its velocity as a run of
//! degrees of freedom in a dense vector shared by all such bodies. For every
//! direction of a contact the Jacobian vector holds, for each side in turn,
//! the row that maps those degrees of freedom to the velocity along the
//! direction, followed by the row that maps an impulse along the direction
//! to a change of the degrees of freedom. A rigid side has no rows.

use vstd::prelude::*;
use crate::body::SolverVel;
use crate::dense::{dense_get, dense_len, dense_set, DenseVector};
use crate::element::{
    spec_tangents, TwoBodyConstraintElement, TwoBodyConstraintNormalPart,
    TwoBodyConstraintTangentPart,
};
use crate::fixed::{lemma_mul_nonnegative, Real};
use crate::manifold::{ContactManifold, MAX_MANIFOLD_POINTS};
use crate::one_body_constraint::OneBodyConstraint;
use crate::two_body_constraint::TwoBodyConstraint;
use crate::vector::{Vector2, Vector3};

verus! {

/// The scalar product of `n` entries of `a` from `ai` on with `n` entries of
/// `b` from `bi` on, summed from the first to the last.
pub open spec fn spec_dot_rows(a: Seq<Real>, ai: int, b: Seq<Real>, bi: int, n: nat) -> Real
    decreases n,
{
    if n == 0 {
        Real::spec_zero()
    } else {
        spec_dot_rows(a, ai, b, bi, (n - 1) as nat).spec_add(
            a[ai + n - 1].spec_mul(b[bi + n - 1]),
        )
    }
}

/// `y` with `alpha` times `n` entries of `x` from `xi` on added to its `n`
/// entries from `yi` on.
pub open spec fn spec_axpy_rows(
    y: Seq<Real>,
    yi: int,
    alpha: Real,
    x: Seq<Real>,
    xi: int,
    n: nat,
) -> Seq<Real>
    decreases n,
{
    if n == 0 {
        y
    } else {
        let before = spec_axpy_rows(y, yi, alpha, x, xi, (n - 1) as nat);
        before.update(yi + n - 1, before[yi + n - 1].spec_add(alpha.spec_mul(x[xi + n - 1])))
    }
}

pub fn dot_rows(a: &DenseVector, ai: usize, b: &DenseVector, bi: usize, n: usize) -> (r: Real)
    requires
        ai + n <= a@.len(),
        bi + n <= b@.len(),
    ensures
        r == spec_dot_rows(a@, ai as int, b@, bi as int, n as nat),
{
    // The lengths fit a machine word, and with them every index below.
    let _ = dense_len(a);
    let _ = dense_len(b);
    let mut sum = Real::zero();
    let mut i: usize = 0;
    while i < n
        invariant
            i <= n,
            ai + n <= a@.len() <= usize::MAX,
            bi + n <= b@.len() <= usize::MAX,
            sum == spec_dot_rows(a@, ai as int, b@, bi as int, i as nat),
        decreases n - i,
    {
        sum = sum.add(dense_get(a, ai + i).mul(dense_get(b, bi + i)));
        i += 1;
    }
    sum
}

pub fn axpy_rows(y: &mut DenseVector, yi: usize, alpha: Real, x: &DenseVector, xi: usize, n: usize)
    requires
        yi + n <= old(y)@.len(),
        xi + n <= x@.len(),
    ensures
        final(y)@ == spec_axpy_rows(old(y)@, yi as int, alpha, x@, xi as int, n as nat),
        final(y)@.len() == old(y)@.len(),
{
    // The lengths fit a machine word, and with them every index below.
    let _ = dense_len(y);
    let _ = dense_len(x);
    let mut i: usize = 0;
    while i < n
        invariant
            i <= n,
            y@.len() == old(y)@.len(),
            yi + n <= y@.len() <= usize::MAX,
            xi + n <= x@.len() <= usize::MAX,
            y@ == spec_axpy_rows(old(y)@, yi as int, alpha, x@, xi as int, i as nat),
        decreases n - i,
    {
        let updated = dense_get(y, yi + i).add(alpha.mul(dense_get(x, xi + i)));
        dense_set(y, yi + i, updated);
        i += 1;
    }
}

/// The velocity of one side of a constraint while it is solved: that of a
/// rigid body, or the place in the dense vector where the degrees of freedom
/// of a multibody link start.
#[derive(Clone, Copy, Debug, PartialEq, Eq, Structural)]
pub enum GenericRhs {
    SolverVel(SolverVel),
    GenericId(usize),
}

impl GenericRhs {
    /// Whether the rows and degrees of freedom that this side reads lie in
    /// the Jacobian vector and in the dense velocity vector.
    pub open spec fn in_bounds(self, j_id: int, ndofs: int, jacobians: nat, vels: nat) -> bool {
        match self {
            GenericRhs::SolverVel(_) => true,
            GenericRhs::GenericId(id) => {
                0 <= j_id && 0 <= ndofs && j_id + 2 * ndofs <= jacobians && id + ndofs <= vels
            },
        }
    }

    /// The velocity of this side along a direction: for a rigid body, from
    /// `dir` and `gcross`; for a link, the row at `j_id` times its degrees of
    /// freedom.
    pub open spec fn spec_dvel(
        self,
        j_id: int,
        ndofs: nat,
        jacobians: Seq<Real>,
        dir: Vector3,
        gcross: Vector3,
        vels: Seq<Real>,
    ) -> Real {
        match self {
            GenericRhs::SolverVel(v) => dir.spec_dot(v.linear).spec_add(gcross.spec_dot(v.angular)),
            GenericRhs::GenericId(id) => spec_dot_rows(jacobians, j_id, vels, id as int, ndofs),
        }
    }

    /// This side and the dense velocities after `impulse` was applied along
    /// a direction: to a rigid body through its inverse mass and `gcross`;
    /// to a link by the row behind the one at `j_id`.
    pub open spec fn spec_apply_impulse(
        self,
        j_id: int,
        ndofs: nat,
        impulse: Real,
        jacobians: Seq<Real>,
        dir: Vector3,
        gcross: Vector3,
        vels: Seq<Real>,
        inv_mass: Vector3,
    ) -> (GenericRhs, Seq<Real>) {
        match self {
            GenericRhs::SolverVel(v) => (
                GenericRhs::SolverVel(
                    SolverVel {
                        linear: v.linear.spec_add(
                            dir.spec_component_mul(inv_mass).spec_scale(impulse),
                        ),
                        angular: v.angular.spec_add(gcross.spec_scale(impulse)),
                    },
                ),
                vels,
            ),
            GenericRhs::GenericId(id) => (
                self,
                spec_axpy_rows(vels, id as int, impulse, jacobians, j_id + ndofs, ndofs),
            ),
        }
    }

    pub fn dvel(
        &self,
        j_id: usize,
        ndofs: usize,
        jacobians: &DenseVector,
        dir: &Vector3,
        gcross: &Vector3,
        vels: &DenseVector,
    ) -> (r: Real)
        requires
            self.in_bounds(j_id as int, ndofs as int, jacobians@.len(), vels@.len()),
        ensures
            r == self.spec_dvel(j_id as int, ndofs as nat, jacobians@, *dir, *gcross, vels@),
    {
        match self {
            GenericRhs::SolverVel(v) => dir.dot(v.linear).add(gcross.dot(v.angular)),
            GenericRhs::GenericId(id) => dot_rows(jacobians, j_id, vels, *id, ndofs),
        }
    }

    pub fn apply_impulse(
        &mut self,
        j_id: usize,
        ndofs: usize,
        impulse: Real,
        jacobians: &DenseVector,
        dir: &Vector3,
        gcross: &Vector3,
        vels: &mut DenseVector,
        inv_mass: &Vector3,
    )
        requires
            old(self).in_bounds(j_id as int, ndofs as int, jacobians@.len(), old(vels)@.len()),
        ensures
            (*final(self), final(vels)@) == old(self).spec_apply_impulse(
                j_id as int,
                ndofs as nat,
                impulse,
                jacobians@,
                *dir,
                *gcross,
                old(vels)@,
                *inv_mass,
            ),
            final(vels)@.len() == old(vels)@.len(),
            (*final(self) is GenericId) == (*old(self) is GenericId),
            *final(self) is GenericId ==> *final(self) == *old(self),
    {
        match self {
            GenericRhs::SolverVel(v) => {
                let moved = SolverVel {
                    linear: v.linear.add(dir.component_mul(*inv_mass).scale(impulse)),
                    angular: v.angular.add(gcross.scale(impulse)),
                };
                *self = GenericRhs::SolverVel(moved);
            },
            GenericRhs::GenericId(id) => {
                // The rows lie in the vector, so their offsets fit a machine word.
                let _ = dense_len(jacobians);
                axpy_rows(vels, *id, impulse, jacobians, j_id + ndofs, ndofs);
            },
        }
    }
}

/// Number of Jacobian entries that one direction of a contact takes: two
/// rows for each side.
pub open spec fn spec_block(ndofs1: nat, ndofs2: nat) -> nat {
    2 * (ndofs1 + ndofs2)
}

/// The state of a solve with sides in reduced coordinates: the two sides and
/// the dense velocities.
pub struct GenericState {
    pub side1: GenericRhs,
    pub side2: GenericRhs,
    pub vels: Seq<Real>,
}

/// One projection of the normal impulse of `part`, whose rows start at `j_id`.
pub open spec fn spec_generic_normal_solve(
    part: TwoBodyConstraintNormalPart,
    cfm_factor: Real,
    j_id: int,
    jacobians: Seq<Real>,
    dir1: Vector3,
    im1: Vector3,
    im2: Vector3,
    ndofs1: nat,
    ndofs2: nat,
    state: GenericState,
) -> (TwoBodyConstraintNormalPart, GenericState) {
    let j_id2 = j_id + 2 * ndofs1;
    let dvel = state.side1.spec_dvel(j_id, ndofs1, jacobians, dir1, part.gcross1, state.vels)
        .spec_add(
        state.side2.spec_dvel(
            j_id2,
            ndofs2,
            jacobians,
            dir1.spec_neg(),
            part.gcross2,
            state.vels,
        ),
    ).spec_add(part.rhs);
    let new_impulse = cfm_factor.spec_mul(
        part.impulse.spec_sub(part.r.spec_mul(dvel)).spec_max(Real::spec_zero()),
    );
    let dlambda = new_impulse.spec_sub(part.impulse);
    let a = state.side1.spec_apply_impulse(
        j_id,
        ndofs1,
        dlambda,
        jacobians,
        dir1,
        part.gcross1,
        state.vels,
        im1,
    );
    let b = state.side2.spec_apply_impulse(
        j_id2,
        ndofs2,
        dlambda,
        jacobians,
        dir1.spec_neg(),
        part.gcross2,
        a.1,
        im2,
    );
    (
        TwoBodyConstraintNormalPart { impulse: new_impulse, ..part },
        GenericState { side1: a.0, side2: b.0, vels: b.1 },
    )
}

/// The friction impulse of `part` before it is capped: along each tangent
/// the old impulse corrected by the effective mass times the sliding
/// velocity.
pub open spec fn spec_generic_uncapped_impulse(
    part: TwoBodyConstraintTangentPart,
    j_id: int,
    jacobians: Seq<Real>,
    tangents1: [Vector3; 2],
    ndofs1: nat,
    ndofs2: nat,
    state: GenericState,
) -> Vector2 {
    let j_id2 = j_id + 2 * ndofs1;
    let j_step = spec_block(ndofs1, ndofs2) as int;
    let dvel_0 = state.side1.spec_dvel(
        j_id,
        ndofs1,
        jacobians,
        tangents1[0],
        part.gcross1[0],
        state.vels,
    ).spec_add(
        state.side2.spec_dvel(
            j_id2,
            ndofs2,
            jacobians,
            tangents1[0].spec_neg(),
            part.gcross2[0],
            state.vels,
        ),
    ).spec_add(part.rhs[0]);
    let dvel_1 = state.side1.spec_dvel(
        j_id + j_step,
        ndofs1,
        jacobians,
        tangents1[1],
        part.gcross1[1],
        state.vels,
    ).spec_add(
        state.side2.spec_dvel(
            j_id2 + j_step,
            ndofs2,
            jacobians,
            tangents1[1].spec_neg(),
            part.gcross2[1],
            state.vels,
        ),
    ).spec_add(part.rhs[1]);
    Vector2 {
        x: part.impulse.x.spec_sub(part.r[0].spec_mul(dvel_0)),
        y: part.impulse.y.spec_sub(part.r[1].spec_mul(dvel_1)),
    }
}

/// One projection of the friction impulse of `part`, whose rows start at
/// `j_id`, into the cone of radius `limit`.
pub open spec fn spec_generic_tangent_solve(
    part: TwoBodyConstraintTangentPart,
    j_id: int,
    jacobians: Seq<Real>,
    tangents1: [Vector3; 2],
    im1: Vector3,
    im2: Vector3,
    ndofs1: nat,
    ndofs2: nat,
    limit: Real,
    state: GenericState,
) -> (TwoBodyConstraintTangentPart, GenericState) {
    let j_id2 = j_id + 2 * ndofs1;
    let j_step = spec_block(ndofs1, ndofs2) as int;
    let new_impulse = spec_generic_uncapped_impulse(
        part,
        j_id,
        jacobians,
        tangents1,
        ndofs1,
        ndofs2,
        state,
    ).spec_cap_magnitude(limit);
    let dlambda = new_impulse.spec_sub(part.impulse);
    let a = state.side1.spec_apply_impulse(
        j_id,
        ndofs1,
        dlambda.x,
        jacobians,
        tangents1[0],
        part.gcross1[0],
        state.vels,
        im1,
    );
    let b = a.0.spec_apply_impulse(
        j_id + j_step,
        ndofs1,
        dlambda.y,
        jacobians,
        tangents1[1],
        part.gcross1[1],
        a.1,
        im1,
    );
    let c = state.side2.spec_apply_impulse(
        j_id2,
        ndofs2,
        dlambda.x,
        jacobians,
        tangents1[0].spec_neg(),
        part.gcross2[0],
        b.1,
        im2,
    );
    let d = c.0.spec_apply_impulse(
        j_id2 + j_step,
        ndofs2,
        dlambda.y,
        jacobians,
        tangents1[1].spec_neg(),
        part.gcross2[1],
        c.1,
        im2,
    );
    (
        TwoBodyConstraintTangentPart { impulse: new_impulse, ..part },
        GenericState { side1: b.0, side2: d.0, vels: d.1 },
    )
}

/// Whether both sides of `state` can read and write the block of rows that
/// starts at `j_id`.
pub open spec fn spec_block_in_bounds(
    state: GenericState,
    j_id: int,
    ndofs1: nat,
    ndofs2: nat,
    jacobians: nat,
) -> bool {
    &&& 0 <= j_id
    &&& j_id + spec_block(ndofs1, ndofs2) <= jacobians
    &&& state.side1 is GenericId ==> state.side1->GenericId_0 + ndofs1 <= state.vels.len()
    &&& state.side2 is GenericId ==> state.side2->GenericId_0 + ndofs2 <= state.vels.len()
}

pub fn generic_normal_solve(
    part: &mut TwoBodyConstraintNormalPart,
    cfm_factor: Real,
    j_id: usize,
    jacobians: &DenseVector,
    dir1: &Vector3,
    im1: &Vector3,
    im2: &Vector3,
    ndofs1: usize,
    ndofs2: usize,
    side1: &mut GenericRhs,
    side2: &mut GenericRhs,
    vels: &mut DenseVector,
)
    requires
        spec_block_in_bounds(
            GenericState { side1: *old(side1), side2: *old(side2), vels: old(vels)@ },
            j_id as int,
            ndofs1 as nat,
            ndofs2 as nat,
            jacobians@.len(),
        ),
    ensures
        (*final(part), GenericState { side1: *final(side1), side2: *final(side2), vels: final(vels)@ })
            == spec_generic_normal_solve(
            *old(part),
            cfm_factor,
            j_id as int,
            jacobians@,
            *dir1,
            *im1,
            *im2,
            ndofs1 as nat,
            ndofs2 as nat,
            GenericState { side1: *old(side1), side2: *old(side2), vels: old(vels)@ },
        ),
        final(vels)@.len() == old(vels)@.len(),
        (*final(side1) is GenericId) == (*old(side1) is GenericId),
        (*final(side2) is GenericId) == (*old(side2) is GenericId),
        *final(side1) is GenericId ==> *final(side1) == *old(side1),
        *final(side2) is GenericId ==> *final(side2) == *old(side2),
        cfm_factor@ >= 0 ==> final(part).impulse@ >= 0,
{
    // The rows lie in the vector, so their offsets fit a machine word.
    let _ = dense_len(jacobians);
    let j_id2 = j_id + 2 * ndofs1;
    let neg_dir1 = dir1.neg();
    let dvel = side1.dvel(j_id, ndofs1, jacobians, dir1, &part.gcross1, vels).add(
        side2.dvel(j_id2, ndofs2, jacobians, &neg_dir1, &part.gcross2, vels),
    ).add(part.rhs);
    let positive = part.impulse.sub(part.r.mul(dvel)).max(Real::zero());
    proof {
        if cfm_factor@ >= 0 {
            lemma_mul_nonnegative(cfm_factor, positive);
        }
    }
    let new_impulse = cfm_factor.mul(positive);
    let dlambda = new_impulse.sub(part.impulse);
    part.impulse = new_impulse;
    side1.apply_impulse(j_id, ndofs1, dlambda, jacobians, dir1, &part.gcross1, vels, im1);
    side2.apply_impulse(j_id2, ndofs2, dlambda, jacobians, &neg_dir1, &part.gcross2, vels, im2);
}

pub fn generic_tangent_solve(
    part: &mut TwoBodyConstraintTangentPart,
    j_id: usize,
    jacobians: &DenseVector,
    tangents1: &[Vector3; 2],
    im1: &Vector3,
    im2: &Vector3,
    ndofs1: usize,
    ndofs2: usize,
    limit: Real,
    side1: &mut GenericRhs,
    side2: &mut GenericRhs,
    vels: &mut DenseVector,
)
    requires
        spec_block_in_bounds(
            GenericState { side1: *old(side1), side2: *old(side2), vels: old(vels)@ },
            j_id as int,
            ndofs1 as nat,
            ndofs2 as nat,
            jacobians@.len(),
        ),
        spec_block_in_bounds(
            GenericState { side1: *old(side1), side2: *old(side2), vels: old(vels)@ },
            j_id + spec_block(ndofs1 as nat, ndofs2 as nat),
            ndofs1 as nat,
            ndofs2 as nat,
            jacobians@.len(),
        ),
    ensures
        (*final(part), GenericState { side1: *final(side1), side2: *final(side2), vels: final(vels)@ })
            == spec_generic_tangent_solve(
            *old(part),
            j_id as int,
            jacobians@,
            *tangents1,
            *im1,
            *im2,
            ndofs1 as nat,
            ndofs2 as nat,
            limit,
            GenericState { side1: *old(side1), side2: *old(side2), vels: old(vels)@ },
        ),
        final(vels)@.len() == old(vels)@.len(),
        (*final(side1) is GenericId) == (*old(side1) is GenericId),
        (*final(side2) is GenericId) == (*old(side2) is GenericId),
        *final(side1) is GenericId ==> *final(side1) == *old(side1),
        *final(side2) is GenericId ==> *final(side2) == *old(side2),
        limit@ >= 0 ==> final(part).impulse.within(limit),
{
    // The rows lie in the vector, so their offsets fit a machine word.
    let _ = dense_len(jacobians);
    let j_id2 = j_id + 2 * ndofs1;
    let j_step = 2 * (ndofs1 + ndofs2);
    let neg_tangent0 = tangents1[0].neg();
    let neg_tangent1 = tangents1[1].neg();
    let dvel_0 = side1.dvel(j_id, ndofs1, jacobians, &tangents1[0], &part.gcross1[0], vels).add(
        side2.dvel(j_id2, ndofs2, jacobians, &neg_tangent0, &part.gcross2[0], vels),
    ).add(part.rhs[0]);
    let dvel_1 = side1.dvel(
        j_id + j_step,
        ndofs1,
        jacobians,
        &tangents1[1],
        &part.gcross1[1],
        vels,
    ).add(
        side2.dvel(j_id2 + j_step, ndofs2, jacobians, &neg_tangent1, &part.gcross2[1], vels),
    ).add(part.rhs[1]);
    let uncapped = Vector2 {
        x: part.impulse.x.sub(part.r[0].mul(dvel_0)),
        y: part.impulse.y.sub(part.r[1].mul(dvel_1)),
    };
    let new_impulse = uncapped.cap_magnitude(limit);
    let dlambda = new_impulse.sub(part.impulse);
    part.impulse = new_impulse;
    side1.apply_impulse(
        j_id,
        ndofs1,
        dlambda.x,
        jacobians,
        &tangents1[0],
        &part.gcross1[0],
        vels,
        im1,
    );
    side1.apply_impulse(
        j_id + j_step,
        ndofs1,
        dlambda.y,
        jacobians,
        &tangents1[1],
        &part.gcross1[1],
        vels,
        im1,
    );
    side2.apply_impulse(
        j_id2,
        ndofs2,
        dlambda.x,
        jacobians,
        &neg_tangent0,
        &part.gcross2[0],
        vels,
        im2,
    );
    side2.apply_impulse(
        j_id2 + j_step,
        ndofs2,
        dlambda.y,
        jacobians,
        &neg_tangent1,
        &part.gcross2[1],
        vels,
        im2,
    );
}

/// Number of Jacobian entries that one contact point takes: a block for the
/// normal and one for each tangent.
pub open spec fn spec_stride(ndofs1: nat, ndofs2: nat) -> nat {
    3 * spec_block(ndofs1, ndofs2)
}

/// The state after the normal parts of the first `k` elements were solved
/// in order; the rows of the element `i` start at `j_id` plus `i` strides.
pub open spec fn spec_generic_normal_sweep(
    elements: Seq<TwoBodyConstraintElement>,
    k: nat,
    cfm_factor: Real,
    j_id: int,
    jacobians: Seq<Real>,
    dir1: Vector3,
    im1: Vector3,
    im2: Vector3,
    ndofs1: nat,
    ndofs2: nat,
    state: GenericState,
) -> (Seq<TwoBodyConstraintElement>, GenericState)
    decreases k,
{
    if k == 0 {
        (elements, state)
    } else {
        let prev = spec_generic_normal_sweep(
            elements,
            (k - 1) as nat,
            cfm_factor,
            j_id,
            jacobians,
            dir1,
            im1,
            im2,
            ndofs1,
            ndofs2,
            state,
        );
        let step = spec_generic_normal_solve(
            prev.0[k - 1].normal_part,
            cfm_factor,
            j_id + (k - 1) * spec_stride(ndofs1, ndofs2),
            jacobians,
            dir1,
            im1,
            im2,
            ndofs1,
            ndofs2,
            prev.1,
        );
        (
            prev.0.update(
                k - 1,
                TwoBodyConstraintElement { normal_part: step.0, ..prev.0[k - 1] },
            ),
            step.1,
        )
    }
}

/// The state after the friction parts of the first `k` elements were solved
/// in order, each into the cone that its normal impulse allows; the tangent
/// rows of an element follow its normal rows.
pub open spec fn spec_generic_friction_sweep(
    elements: Seq<TwoBodyConstraintElement>,
    k: nat,
    j_id: int,
    jacobians: Seq<Real>,
    tangents1: [Vector3; 2],
    im1: Vector3,
    im2: Vector3,
    limit: Real,
    ndofs1: nat,
    ndofs2: nat,
    state: GenericState,
) -> (Seq<TwoBodyConstraintElement>, GenericState)
    decreases k,
{
    if k == 0 {
        (elements, state)
    } else {
        let prev = spec_generic_friction_sweep(
            elements,
            (k - 1) as nat,
            j_id,
            jacobians,
            tangents1,
            im1,
            im2,
            limit,
            ndofs1,
            ndofs2,
            state,
        );
        let step = spec_generic_tangent_solve(
            prev.0[k - 1].tangent_part,
            j_id + (k - 1) * spec_stride(ndofs1, ndofs2) + spec_block(ndofs1, ndofs2),
            jacobians,
            tangents1,
            im1,
            im2,
            ndofs1,
            ndofs2,
            limit.spec_mul(prev.0[k - 1].normal_part.impulse),
            prev.1,
        );
        (
            prev.0.update(
                k - 1,
                TwoBodyConstraintElement { tangent_part: step.0, ..prev.0[k - 1] },
            ),
            step.1,
        )
    }
}

/// The state after one solve of the first `num` elements: the sweep over the
/// normal parts where `solve_normal` is set, followed by the sweep over the
/// friction parts where `solve_friction` is set.
pub open spec fn spec_generic_solve_group(
    cfm_factor: Real,
    elements: Seq<TwoBodyConstraintElement>,
    num: nat,
    jacobians: Seq<Real>,
    dir1: Vector3,
    tangent1: Vector3,
    im1: Vector3,
    im2: Vector3,
    limit: Real,
    ndofs1: nat,
    ndofs2: nat,
    j_id: int,
    state: GenericState,
    solve_normal: bool,
    solve_friction: bool,
) -> (Seq<TwoBodyConstraintElement>, GenericState) {
    let a = if solve_normal {
        spec_generic_normal_sweep(
            elements,
            num,
            cfm_factor,
            j_id,
            jacobians,
            dir1,
            im1,
            im2,
            ndofs1,
            ndofs2,
            state,
        )
    } else {
        (elements, state)
    };
    if solve_friction {
        spec_generic_friction_sweep(
            a.0,
            num,
            j_id,
            jacobians,
            spec_tangents(dir1, tangent1),
            im1,
            im2,
            limit,
            ndofs1,
            ndofs2,
            a.1,
        )
    } else {
        a
    }
}

/// Whether none of the first `num` elements pulls the bodies together.
pub open spec fn spec_pulls_nowhere(elements: Seq<TwoBodyConstraintElement>, num: nat) -> bool {
    forall|i: int| 0 <= i < num ==> (#[trigger] elements[i]).normal_part.impulse@ >= 0
}

/// Whether a solve of `num` elements whose rows start at `j_id` stays inside
/// the Jacobian vector and the dense velocities.
pub open spec fn spec_group_in_bounds(
    state: GenericState,
    num: nat,
    j_id: int,
    ndofs1: nat,
    ndofs2: nat,
    jacobians: nat,
) -> bool {
    &&& 0 <= j_id
    &&& j_id + num * spec_stride(ndofs1, ndofs2) <= jacobians
    &&& state.side1 is GenericId ==> state.side1->GenericId_0 + ndofs1 <= state.vels.len()
    &&& state.side2 is GenericId ==> state.side2->GenericId_0 + ndofs2 <= state.vels.len()
}

proof fn lemma_rows_of_element(k: int, num: int, stride: int)
    requires
        0 <= k < num,
        0 <= stride,
    ensures
        (k + 1) * stride == k * stride + stride,
        0 <= k * stride,
        (k + 1) * stride <= num * stride,
{
    assert((k + 1) * stride == k * stride + stride) by (nonlinear_arith);
    assert(0 <= k * stride) by (nonlinear_arith)
        requires
            0 <= k,
            0 <= stride,
    ;
    assert((k + 1) * stride <= num * stride) by (nonlinear_arith)
        requires
            k + 1 <= num,
            0 <= stride,
    ;
}

/// Solves the first `num_contacts` elements in place against sides that may
/// be in reduced coordinates: the normal parts where `solve_normal` is set,
/// then the friction parts where `solve_friction` is set.
pub fn generic_solve_group(
    cfm_factor: Real,
    elements: &mut [TwoBodyConstraintElement; MAX_MANIFOLD_POINTS],
    num_contacts: usize,
    jacobians: &DenseVector,
    dir1: &Vector3,
    tangent1: &Vector3,
    im1: &Vector3,
    im2: &Vector3,
    limit: Real,
    ndofs1: usize,
    ndofs2: usize,
    j_id: usize,
    side1: &mut GenericRhs,
    side2: &mut GenericRhs,
    vels: &mut DenseVector,
    solve_normal: bool,
    solve_friction: bool,
)
    requires
        num_contacts <= MAX_MANIFOLD_POINTS,
        spec_group_in_bounds(
            GenericState { side1: *old(side1), side2: *old(side2), vels: old(vels)@ },
            num_contacts as nat,
            j_id as int,
            ndofs1 as nat,
            ndofs2 as nat,
            jacobians@.len(),
        ),
    ensures
        (final(elements)@, GenericState { side1: *final(side1), side2: *final(side2), vels: final(vels)@ })
            == spec_generic_solve_group(
            cfm_factor,
            old(elements)@,
            num_contacts as nat,
            jacobians@,
            *dir1,
            *tangent1,
            *im1,
            *im2,
            limit,
            ndofs1 as nat,
            ndofs2 as nat,
            j_id as int,
            GenericState { side1: *old(side1), side2: *old(side2), vels: old(vels)@ },
            solve_normal,
            solve_friction,
        ),
        final(vels)@.len() == old(vels)@.len(),
        (*final(side1) is GenericId) == (*old(side1) is GenericId),
        (*final(side2) is GenericId) == (*old(side2) is GenericId),
        cfm_factor@ >= 0 && (solve_normal || spec_pulls_nowhere(old(elements)@, num_contacts as nat))
            ==> spec_pulls_nowhere(final(elements)@, num_contacts as nat),
        cfm_factor@ >= 0 && limit@ >= 0 && solve_friction && (solve_normal || spec_pulls_nowhere(
            old(elements)@,
            num_contacts as nat,
        )) ==> forall|i: int|
            0 <= i < num_contacts ==> (#[trigger] final(elements)@[i]).spec_admissible(limit),
{
    if num_contacts == 0 {
        return ;
    }
    // The rows lie in the vector, so their offsets fit a machine word.
    let _ = dense_len(jacobians);
    proof {
        lemma_rows_of_element(0, num_contacts as int, spec_stride(ndofs1 as nat, ndofs2 as nat) as int);
    }
    let block = 2 * (ndofs1 + ndofs2);
    let stride = 3 * block;
    let tangents1 = [*tangent1, dir1.cross(*tangent1)];
    assert(tangents1 =~= spec_tangents(*dir1, *tangent1));
    let ghost start = elements@;
    let ghost start_state = GenericState { side1: *side1, side2: *side2, vels: vels@ };
    let ghost calm = cfm_factor@ >= 0 && (solve_normal || spec_pulls_nowhere(
        start,
        num_contacts as nat,
    ));

    if solve_normal {
        let mut j: usize = j_id;
        let mut k: usize = 0;
        while k < num_contacts
            invariant
                k <= num_contacts <= MAX_MANIFOLD_POINTS,
                block == spec_block(ndofs1 as nat, ndofs2 as nat),
                stride == spec_stride(ndofs1 as nat, ndofs2 as nat),
                j == j_id + k * stride,
                j_id + num_contacts * stride <= jacobians@.len() <= usize::MAX,
                vels@.len() == start_state.vels.len(),
                (*side1 is GenericId) == (start_state.side1 is GenericId),
                (*side2 is GenericId) == (start_state.side2 is GenericId),
                *side1 is GenericId ==> *side1 == start_state.side1,
                *side2 is GenericId ==> *side2 == start_state.side2,
                start_state.side1 is GenericId ==> start_state.side1->GenericId_0 + ndofs1
                    <= start_state.vels.len(),
                start_state.side2 is GenericId ==> start_state.side2->GenericId_0 + ndofs2
                    <= start_state.vels.len(),
                (elements@, GenericState { side1: *side1, side2: *side2, vels: vels@ })
                    == spec_generic_normal_sweep(
                    start,
                    k as nat,
                    cfm_factor,
                    j_id as int,
                    jacobians@,
                    *dir1,
                    *im1,
                    *im2,
                    ndofs1 as nat,
                    ndofs2 as nat,
                    start_state,
                ),
                cfm_factor@ >= 0 ==> spec_pulls_nowhere(elements@, k as nat),
            decreases num_contacts - k,
        {
            proof {
                lemma_rows_of_element(k as int, num_contacts as int, stride as int);
            }
            let ghost before = elements@;
            let mut element = elements[k];
            generic_normal_solve(
                &mut element.normal_part,
                cfm_factor,
                j,
                jacobians,
                dir1,
                im1,
                im2,
                ndofs1,
                ndofs2,
                side1,
                side2,
                vels,
            );
            elements[k] = element;
            assert(elements@ =~= before.update(k as int, element));
            j += stride;
            k += 1;
        }
    }
    let ghost middle = elements@;
    let ghost middle_state = GenericState { side1: *side1, side2: *side2, vels: vels@ };

    if solve_friction {
        let mut j: usize = j_id;
        let mut k: usize = 0;
        while k < num_contacts
            invariant
                k <= num_contacts <= MAX_MANIFOLD_POINTS,
                block == spec_block(ndofs1 as nat, ndofs2 as nat),
                stride == spec_stride(ndofs1 as nat, ndofs2 as nat),
                j == j_id + k * stride,
                j_id + num_contacts * stride <= jacobians@.len() <= usize::MAX,
                vels@.len() == middle_state.vels.len(),
                (*side1 is GenericId) == (middle_state.side1 is GenericId),
                (*side2 is GenericId) == (middle_state.side2 is GenericId),
                *side1 is GenericId ==> *side1 == middle_state.side1,
                *side2 is GenericId ==> *side2 == middle_state.side2,
                middle_state.side1 is GenericId ==> middle_state.side1->GenericId_0 + ndofs1
                    <= middle_state.vels.len(),
                middle_state.side2 is GenericId ==> middle_state.side2->GenericId_0 + ndofs2
                    <= middle_state.vels.len(),
                (elements@, GenericState { side1: *side1, side2: *side2, vels: vels@ })
                    == spec_generic_friction_sweep(
                    middle,
                    k as nat,
                    j_id as int,
                    jacobians@,
                    tangents1,
                    *im1,
                    *im2,
                    limit,
                    ndofs1 as nat,
                    ndofs2 as nat,
                    middle_state,
                ),
                middle.len() == MAX_MANIFOLD_POINTS,
                forall|i: int|
                    0 <= i < MAX_MANIFOLD_POINTS ==> (#[trigger] elements@[i]).normal_part
                        == middle[i].normal_part,
                calm ==> spec_pulls_nowhere(middle, num_contacts as nat),
                calm && limit@ >= 0 ==> forall|i: int|
                    0 <= i < k ==> (#[trigger] elements@[i]).spec_admissible(limit),
            decreases num_contacts - k,
        {
            proof {
                lemma_rows_of_element(k as int, num_contacts as int, stride as int);
            }
            let ghost before = elements@;
            let mut element = elements[k];
            let cone = limit.mul(element.normal_part.impulse);
            proof {
                assert(before[k as int].normal_part == middle[k as int].normal_part);
                if calm && limit@ >= 0 {
                    assert(middle[k as int].normal_part.impulse@ >= 0);
                    lemma_mul_nonnegative(limit, element.normal_part.impulse);
                }
            }
            generic_tangent_solve(
                &mut element.tangent_part,
                j + block,
                jacobians,
                &tangents1,
                im1,
                im2,
                ndofs1,
                ndofs2,
                cone,
                side1,
                side2,
                vels,
            );
            elements[k] = element;
            assert(elements@ =~= before.update(k as int, element));
            j += stride;
            k += 1;
        }
    }
}

/// Whether a solve that led from `before` to `after` left admissible
/// impulses. Under a non-negative softening factor no contact pulls after a
/// solve that includes the normal parts, or after any solve that started
/// without a pulling contact. Under a non-negative friction coefficient as
/// well, every friction impulse then lies in its cone once the friction
/// parts are solved.
pub open spec fn spec_solved_admissibly(
    before: &TwoBodyConstraint,
    after: &TwoBodyConstraint,
    solve_normal: bool,
    solve_friction: bool,
) -> bool {
    &&& before.cfm_factor@ >= 0 && (solve_normal || before.pulls_nowhere())
        ==> after.pulls_nowhere()
    &&& before.cfm_factor@ >= 0 && before.limit@ >= 0 && solve_friction && (solve_normal
        || before.pulls_nowhere()) ==> after.within_cone()
}

/// The contact constraint between two bodies of which at least one is a
/// multibody link. The elements are those of a two-body constraint; for a
/// side in reduced coordinates the velocity index of `inner` is the place
/// where the link's degrees of freedom start in the dense velocities.
#[derive(Clone, Copy, Debug)]
pub struct GenericTwoBodyConstraint {
    pub inner: TwoBodyConstraint,
    /// Place in the Jacobian vector where the rows of the constraint start.
    pub j_id: usize,
    /// Degrees of freedom of the first side; zero for a rigid body.
    pub ndofs1: usize,
    /// Degrees of freedom of the second side; zero for a rigid body.
    pub ndofs2: usize,
    /// The first bit is set where the first side is in reduced coordinates,
    /// the second bit where the second side is.
    pub generic_constraint_mask: u8,
}

/// The contact constraint between a fixed body and a multibody link.
#[derive(Clone, Copy, Debug)]
pub struct GenericOneBodyConstraint {
    pub inner: OneBodyConstraint,
    /// Place in the Jacobian vector where the rows of the constraint start.
    pub j_id: usize,
    /// Degrees of freedom of the link.
    pub ndofs2: usize,
}

impl GenericTwoBodyConstraint {
    /// The first side as a solve finds it.
    pub open spec fn spec_side1(&self, vels: Seq<SolverVel>) -> GenericRhs {
        if self.generic_constraint_mask & 0b01 == 0 {
            GenericRhs::SolverVel(vels[self.inner.solver_vel1 as int])
        } else {
            GenericRhs::GenericId(self.inner.solver_vel1)
        }
    }

    /// The second side as a solve finds it.
    pub open spec fn spec_side2(&self, vels: Seq<SolverVel>) -> GenericRhs {
        if self.generic_constraint_mask & 0b10 == 0 {
            GenericRhs::SolverVel(vels[self.inner.solver_vel2 as int])
        } else {
            GenericRhs::GenericId(self.inner.solver_vel2)
        }
    }

    /// The sides and dense velocities as a solve finds them.
    pub open spec fn spec_state(&self, vels: Seq<SolverVel>, generic_vels: Seq<Real>) -> GenericState {
        GenericState {
            side1: self.spec_side1(vels),
            side2: self.spec_side2(vels),
            vels: generic_vels,
        }
    }

    /// Whether the constraint can be solved: it is well formed, a rigid side
    /// has its velocity in a buffer of `vels` velocities, and the rows and
    /// degrees of freedom that it reads lie in a Jacobian vector of
    /// `jacobians` entries and in `generic_vels` dense velocities.
    pub open spec fn solvable(&self, jacobians: nat, vels: Seq<SolverVel>, generic_vels: Seq<Real>) -> bool {
        &&& self.inner.wf()
        &&& self.spec_side1(vels) is SolverVel ==> self.inner.solver_vel1 < vels.len()
        &&& self.spec_side2(vels) is SolverVel ==> self.inner.solver_vel2 < vels.len()
        &&& spec_group_in_bounds(
            self.spec_state(vels, generic_vels),
            self.inner.num_contacts as nat,
            self.j_id as int,
            self.ndofs1 as nat,
            self.ndofs2 as nat,
            jacobians,
        )
    }

    /// The elements, sides and dense velocities after one solve.
    pub open spec fn spec_solve(
        &self,
        jacobians: Seq<Real>,
        vels: Seq<SolverVel>,
        generic_vels: Seq<Real>,
        solve_normal: bool,
        solve_friction: bool,
    ) -> (Seq<TwoBodyConstraintElement>, GenericState) {
        spec_generic_solve_group(
            self.inner.cfm_factor,
            self.inner.elements@,
            self.inner.num_contacts as nat,
            jacobians,
            self.inner.dir1,
            self.inner.tangent1,
            self.inner.im1,
            self.inner.im2,
            self.inner.limit,
            self.ndofs1 as nat,
            self.ndofs2 as nat,
            self.j_id as int,
            self.spec_state(vels, generic_vels),
            solve_normal,
            solve_friction,
        )
    }

    /// The velocity buffer after the rigid sides of `state` were stored, the
    /// first side before the second.
    pub open spec fn spec_stored(&self, vels: Seq<SolverVel>, state: GenericState) -> Seq<SolverVel> {
        let first = match state.side1 {
            GenericRhs::SolverVel(v) => vels.update(self.inner.solver_vel1 as int, v),
            GenericRhs::GenericId(_) => vels,
        };
        match state.side2 {
            GenericRhs::SolverVel(v) => first.update(self.inner.solver_vel2 as int, v),
            GenericRhs::GenericId(_) => first,
        }
    }

    /// Whether `self` and `other` agree on everything but their elements.
    pub open spec fn same_frame(&self, other: &GenericTwoBodyConstraint) -> bool {
        &&& self.inner.same_frame(&other.inner)
        &&& self.j_id == other.j_id
        &&& self.ndofs1 == other.ndofs1
        &&& self.ndofs2 == other.ndofs2
        &&& self.generic_constraint_mask == other.generic_constraint_mask
    }

    /// Solves the constraint once. A rigid side reads and stores its
    /// velocity in `solver_vels`, a side in reduced coordinates in
    /// `generic_solver_vels`.
    pub fn solve(
        &mut self,
        jacobians: &DenseVector,
        solver_vels: &mut [SolverVel],
        generic_solver_vels: &mut DenseVector,
        solve_normal: bool,
        solve_friction: bool,
    )
        requires
            old(self).solvable(jacobians@.len(), old(solver_vels)@, old(generic_solver_vels)@),
        ensures
            final(self).same_frame(old(self)),
            final(self).inner.elements@ == old(self).spec_solve(
                jacobians@,
                old(solver_vels)@,
                old(generic_solver_vels)@,
                solve_normal,
                solve_friction,
            ).0,
            final(generic_solver_vels)@ == old(self).spec_solve(
                jacobians@,
                old(solver_vels)@,
                old(generic_solver_vels)@,
                solve_normal,
                solve_friction,
            ).1.vels,
            final(solver_vels)@ == old(self).spec_stored(
                old(solver_vels)@,
                old(self).spec_solve(
                    jacobians@,
                    old(solver_vels)@,
                    old(generic_solver_vels)@,
                    solve_normal,
                    solve_friction,
                ).1,
            ),
            spec_solved_admissibly(&old(self).inner, &final(self).inner, solve_normal, solve_friction),
    {
        let mut side1 = if self.generic_constraint_mask & 0b01 == 0 {
            GenericRhs::SolverVel(solver_vels[self.inner.solver_vel1])
        } else {
            GenericRhs::GenericId(self.inner.solver_vel1)
        };
        let mut side2 = if self.generic_constraint_mask & 0b10 == 0 {
            GenericRhs::SolverVel(solver_vels[self.inner.solver_vel2])
        } else {
            GenericRhs::GenericId(self.inner.solver_vel2)
        };
        let dir1 = self.inner.dir1;
        let tangent1 = self.inner.tangent1;
        let im1 = self.inner.im1;
        let im2 = self.inner.im2;
        proof {
            assert(old(self).inner.pulls_nowhere() ==> spec_pulls_nowhere(
                self.inner.elements@,
                self.inner.num_contacts as nat,
            ));
        }

        generic_solve_group(
            self.inner.cfm_factor,
            &mut self.inner.elements,
            self.inner.num_contacts as usize,
            jacobians,
            &dir1,
            &tangent1,
            &im1,
            &im2,
            self.inner.limit,
            self.ndofs1,
            self.ndofs2,
            self.j_id,
            &mut side1,
            &mut side2,
            generic_solver_vels,
            solve_normal,
            solve_friction,
        );
        proof {
            assert(spec_pulls_nowhere(self.inner.elements@, self.inner.num_contacts as nat)
                ==> self.inner.pulls_nowhere());
            assert((forall|i: int|
                0 <= i < self.inner.num_contacts ==> (
                #[trigger] self.inner.elements@[i]).spec_admissible(self.inner.limit))
                ==> self.inner.within_cone());
        }

        match side1 {
            GenericRhs::SolverVel(v) => {
                solver_vels[self.inner.solver_vel1] = v;
            },
            GenericRhs::GenericId(_) => {},
        }
        match side2 {
            GenericRhs::SolverVel(v) => {
                solver_vels[self.inner.solver_vel2] = v;
            },
            GenericRhs::GenericId(_) => {},
        }
    }

    /// Copies the impulses of the elements in use into the stored contacts of
    /// `manifold`, each into the contact that its identifier names.
    pub fn writeback_impulses(&self, manifolds_all: &mut [&mut ContactManifold])
        requires
            self.inner.wf(),
            self.inner.manifold_id < old(manifolds_all)@.len(),
            self.inner.contacts_resolve(old(manifolds_all)@[self.inner.manifold_id as int].points@),
        ensures
            final(manifolds_all)@.len() == old(manifolds_all)@.len(),
            forall|i: int|
                0 <= i < old(manifolds_all)@.len() ==> *final(final(manifolds_all)@[i])
                    == *final(old(manifolds_all)@[i]),
            forall|i: int|
                0 <= i < old(manifolds_all)@.len() && i != self.inner.manifold_id
                    ==> *final(manifolds_all)@[i] == *old(manifolds_all)@[i],
            final(manifolds_all)@[self.inner.manifold_id as int].data
                == old(manifolds_all)@[self.inner.manifold_id as int].data,
            final(manifolds_all)@[self.inner.manifold_id as int].points@
                == self.inner.spec_written_back(
                old(manifolds_all)@[self.inner.manifold_id as int].points@,
                self.inner.num_contacts as nat,
            ),
    {
        self.inner.writeback_impulses(manifolds_all);
    }

    /// Switches the softening off and collapses the right-hand side of every
    /// element to its bias-free form.
    pub fn remove_cfm_and_bias_from_rhs(&mut self)
        ensures
            final(self).inner.is_debiased(&old(self).inner),
            final(self).j_id == old(self).j_id,
            final(self).ndofs1 == old(self).ndofs1,
            final(self).ndofs2 == old(self).ndofs2,
            final(self).generic_constraint_mask == old(self).generic_constraint_mask,
    {
        self.inner.remove_cfm_and_bias_from_rhs();
    }
}

impl GenericOneBodyConstraint {
    /// The sides and dense velocities as a solve finds them: a first body at
    /// rest, and the link.
    pub open spec fn spec_state(&self, generic_vels: Seq<Real>) -> GenericState {
        GenericState {
            side1: GenericRhs::SolverVel(SolverVel::spec_zero()),
            side2: GenericRhs::GenericId(self.inner.inner.solver_vel2),
            vels: generic_vels,
        }
    }

    /// Whether the constraint can be solved: it is well formed, and the rows
    /// and degrees of freedom that it reads lie in a Jacobian vector of
    /// `jacobians` entries and in `generic_vels`.
    pub open spec fn solvable(&self, jacobians: nat, generic_vels: Seq<Real>) -> bool {
        &&& self.inner.wf()
        &&& spec_group_in_bounds(
            self.spec_state(generic_vels),
            self.inner.inner.num_contacts as nat,
            self.j_id as int,
            0,
            self.ndofs2 as nat,
            jacobians,
        )
    }

    /// The elements, sides and dense velocities after one solve: the solve
    /// of a two-body constraint against a first body at rest without inverse
    /// mass and without rows.
    pub open spec fn spec_solve(
        &self,
        jacobians: Seq<Real>,
        generic_vels: Seq<Real>,
        solve_normal: bool,
        solve_friction: bool,
    ) -> (Seq<TwoBodyConstraintElement>, GenericState) {
        spec_generic_solve_group(
            self.inner.inner.cfm_factor,
            self.inner.inner.elements@,
            self.inner.inner.num_contacts as nat,
            jacobians,
            self.inner.inner.dir1,
            self.inner.inner.tangent1,
            Vector3::spec_zero(),
            self.inner.inner.im2,
            self.inner.inner.limit,
            0,
            self.ndofs2 as nat,
            self.j_id as int,
            self.spec_state(generic_vels),
            solve_normal,
            solve_friction,
        )
    }

    /// Whether `self` and `other` agree on everything but their elements.
    pub open spec fn same_frame(&self, other: &GenericOneBodyConstraint) -> bool {
        &&& self.inner.inner.same_frame(&other.inner.inner)
        &&& self.j_id == other.j_id
        &&& self.ndofs2 == other.ndofs2
    }

    /// Solves the constraint once against the degrees of freedom of its link
    /// in `generic_solver_vels`.
    pub fn solve(
        &mut self,
        jacobians: &DenseVector,
        generic_solver_vels: &mut DenseVector,
        solve_normal: bool,
        solve_friction: bool,
    )
        requires
            old(self).solvable(jacobians@.len(), old(generic_solver_vels)@),
        ensures
            final(self).same_frame(old(self)),
            final(self).inner.inner.elements@ == old(self).spec_solve(
                jacobians@,
                old(generic_solver_vels)@,
                solve_normal,
                solve_friction,
            ).0,
            final(generic_solver_vels)@ == old(self).spec_solve(
                jacobians@,
                old(generic_solver_vels)@,
                solve_normal,
                solve_friction,
            ).1.vels,
            spec_solved_admissibly(
                &old(self).inner.inner,
                &final(self).inner.inner,
                solve_normal,
                solve_friction,
            ),
    {
        proof {
            assert(old(self).inner.inner.pulls_nowhere() ==> spec_pulls_nowhere(
                self.inner.inner.elements@,
                self.inner.inner.num_contacts as nat,
            ));
        }
        let mut side1 = GenericRhs::SolverVel(SolverVel::zero());
        let mut side2 = GenericRhs::GenericId(self.inner.inner.solver_vel2);
        let dir1 = self.inner.inner.dir1;
        let tangent1 = self.inner.inner.tangent1;
        let im1 = Vector3::zero();
        let im2 = self.inner.inner.im2;
        generic_solve_group(
            self.inner.inner.cfm_factor,
            &mut self.inner.inner.elements,
            self.inner.inner.num_contacts as usize,
            jacobians,
            &dir1,
            &tangent1,
            &im1,
            &im2,
            self.inner.inner.limit,
            0,
            self.ndofs2,
            self.j_id,
            &mut side1,
            &mut side2,
            generic_solver_vels,
            solve_normal,
            solve_friction,
        );
        proof {
            let c = self.inner.inner;
            assert(spec_pulls_nowhere(c.elements@, c.num_contacts as nat) ==> c.pulls_nowhere());
            assert((forall|i: int|
                0 <= i < c.num_contacts ==> (#[trigger] c.elements@[i]).spec_admissible(c.limit))
                ==> c.within_cone());
        }
    }

    /// Copies the impulses of the elements in use into the stored contacts of
    /// the constraint's manifold.
    pub fn writeback_impulses(&self, manifolds_all: &mut [&mut ContactManifold])
        requires
            self.inner.wf(),
            self.inner.inner.manifold_id < old(manifolds_all)@.len(),
            self.inner.inner.contacts_resolve(
                old(manifolds_all)@[self.inner.inner.manifold_id as int].points@,
            ),
        ensures
            final(manifolds_all)@.len() == old(manifolds_all)@.len(),
            forall|i: int|
                0 <= i < old(manifolds_all)@.len() ==> *final(final(manifolds_all)@[i])
                    == *final(old(manifolds_all)@[i]),
            forall|i: int|
                0 <= i < old(manifolds_all)@.len() && i != self.inner.inner.manifold_id
                    ==> *final(manifolds_all)@[i] == *old(manifolds_all)@[i],
            final(manifolds_all)@[self.inner.inner.manifold_id as int].data
                == old(manifolds_all)@[self.inner.inner.manifold_id as int].data,
            final(manifolds_all)@[self.inner.inner.manifold_id as int].points@
                == self.inner.inner.spec_written_back(
                old(manifolds_all)@[self.inner.inner.manifold_id as int].points@,
                self.inner.inner.num_contacts as nat,
            ),
    {
        self.inner.writeback_impulses(manifolds_all);
    }

    /// Switches the softening off and collapses the right-hand side of every
    /// element to its bias-free form.
    pub fn remove_cfm_and_bias_from_rhs(&mut self)
        ensures
            final(self).inner.inner.is_debiased(&old(self).inner.inner),
            final(self).j_id == old(self).j_id,
            final(self).ndofs2 == old(self).ndofs2,
    {
        self.inner.remove_cfm_and_bias_from_rhs();
    }
}

} // verus!
