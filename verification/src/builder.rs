//! How the constraint between two dynamic bodies is built from a manifold,
//! and how it is refreshed every substep from the current poses.

use vstd::prelude::*;
use crate::body::{IntegrationParameters, RigidBody, RigidBodySet, SolverBody};
use crate::element::{
    spec_tangents, TwoBodyConstraintElement, TwoBodyConstraintNormalPart,
    TwoBodyConstraintTangentPart,
};
use crate::fixed::{lemma_add_sub_zero, lemma_mul_monotonic, lemma_mul_zero, Real};
use crate::geometry::{AngularInertia, Isometry};
use crate::manifold::{
    ContactData, ContactManifold, ContactManifoldIndex, SolverContact, TrackedContact,
    MAX_MANIFOLD_POINTS,
};
use crate::tangent::{compute_tangent_contact_directions, spec_compute_tangent_contact_directions};
use crate::two_body_constraint::{law_writeback_round_trip, TwoBodyConstraint};
use crate::vector::{Vector2, Vector3};

verus! {

/// Raw value of one half.
pub const HALF_RAW: i64 = 0x8000_0000;

/// What a constraint keeps of one contact point between two rebuilds, so
/// that a substep can refresh it without the manifold.
#[derive(Clone, Copy, Debug, PartialEq, Eq, Structural)]
pub struct ContactPointInfos {
    /// Velocity of the surface of the first body at the contact.
    pub tangent_vel: Vector3,
    /// The contact point in the frame of the first body.
    pub local_p1: Vector3,
    /// The contact point in the frame of the second body.
    pub local_p2: Vector3,
    /// Separation along the normal when the constraint was built.
    pub dist: Real,
    /// What restitution adds to the right-hand side of the normal part.
    pub normal_rhs_wo_bias: Real,
}

/// What is kept of the contact points of one constraint between two rebuilds.
#[derive(Clone, Copy, Debug)]
pub struct TwoBodyConstraintBuilder {
    pub infos: [ContactPointInfos; MAX_MANIFOLD_POINTS],
}

/// Angular effect, on a body with inverse inertia root `ii_sqrt`, of a unit
/// impulse along `dir` applied at the arm `dp` from its center of mass.
pub open spec fn spec_angular_effect(ii_sqrt: AngularInertia, dp: Vector3, dir: Vector3) -> Vector3 {
    ii_sqrt.spec_transform_vector(dp.spec_cross(dir))
}

/// Inverse of the effective mass that two bodies oppose to an impulse along
/// `dir`: the linear share of both, and the angular share of each.
pub open spec fn spec_inverse_effective_mass(
    dir: Vector3,
    imsum: Vector3,
    gcross1: Vector3,
    gcross2: Vector3,
) -> Real {
    dir.spec_dot(imsum.spec_component_mul(dir)).spec_add(gcross1.spec_dot(gcross1)).spec_add(
        gcross2.spec_dot(gcross2),
    )
}

/// Velocity, at the arm `dp` from its center of mass, of a point of `rb`.
pub open spec fn spec_point_velocity(rb: RigidBody, dp: Vector3) -> Vector3 {
    rb.linvel.spec_add(rb.angvel.spec_cross(dp))
}

/// Velocity of the first body relative to the second at `point`, along
/// `force_dir1`.
pub open spec fn spec_approach_velocity(
    point: SolverContact,
    rb1: RigidBody,
    rb2: RigidBody,
    force_dir1: Vector3,
) -> Real {
    let vel1 = spec_point_velocity(rb1, point.point.spec_sub(rb1.world_com));
    let vel2 = spec_point_velocity(rb2, point.point.spec_sub(rb2.world_com));
    vel1.spec_sub(vel2).spec_dot(force_dir1)
}

/// What restitution adds to the right-hand side of the normal part: the
/// approach velocity scaled by the restitution coefficient where the contact
/// rebounds, and zero where it does not.
pub open spec fn spec_restitution_rhs(
    point: SolverContact,
    rb1: RigidBody,
    rb2: RigidBody,
    force_dir1: Vector3,
) -> Real {
    if point.bouncy {
        point.restitution.spec_mul(spec_approach_velocity(point, rb1, rb2, force_dir1))
    } else {
        Real::spec_zero()
    }
}

/// The normal part that is built for `point`: the angular effects on both
/// bodies, the effective mass along `force_dir1`, and no impulse yet.
pub open spec fn spec_built_normal_part(
    point: SolverContact,
    rb1: RigidBody,
    rb2: RigidBody,
    force_dir1: Vector3,
) -> TwoBodyConstraintNormalPart {
    let dp1 = point.point.spec_sub(rb1.world_com);
    let dp2 = point.point.spec_sub(rb2.world_com);
    let gcross1 = spec_angular_effect(rb1.effective_world_inv_inertia_sqrt, dp1, force_dir1);
    let gcross2 = spec_angular_effect(
        rb2.effective_world_inv_inertia_sqrt,
        dp2,
        force_dir1.spec_neg(),
    );
    let imsum = rb1.effective_inv_mass.spec_add(rb2.effective_inv_mass);
    TwoBodyConstraintNormalPart {
        gcross1,
        gcross2,
        rhs: Real::spec_zero(),
        rhs_wo_bias: Real::spec_zero(),
        impulse: Real::spec_zero(),
        total_impulse: Real::spec_zero(),
        r: spec_inverse_effective_mass(force_dir1, imsum, gcross1, gcross2).spec_inv(),
    }
}

/// The friction part that is built for `point` over `before`: the angular
/// effects and inverse effective mass along each tangent, their cross term,
/// the tangent velocity of the surface as right-hand side, and no impulse
/// yet. The impulse accumulated in `before` is kept.
pub open spec fn spec_built_tangent_part(
    before: TwoBodyConstraintTangentPart,
    point: SolverContact,
    rb1: RigidBody,
    rb2: RigidBody,
    tangents1: [Vector3; 2],
) -> TwoBodyConstraintTangentPart {
    let dp1 = point.point.spec_sub(rb1.world_com);
    let dp2 = point.point.spec_sub(rb2.world_com);
    let imsum = rb1.effective_inv_mass.spec_add(rb2.effective_inv_mass);
    let g10 = spec_angular_effect(rb1.effective_world_inv_inertia_sqrt, dp1, tangents1[0]);
    let g20 = spec_angular_effect(
        rb2.effective_world_inv_inertia_sqrt,
        dp2,
        tangents1[0].spec_neg(),
    );
    let g11 = spec_angular_effect(rb1.effective_world_inv_inertia_sqrt, dp1, tangents1[1]);
    let g21 = spec_angular_effect(
        rb2.effective_world_inv_inertia_sqrt,
        dp2,
        tangents1[1].spec_neg(),
    );
    let rhs0 = point.tangent_velocity.spec_dot(tangents1[0]);
    let rhs1 = point.tangent_velocity.spec_dot(tangents1[1]);
    TwoBodyConstraintTangentPart {
        gcross1: [g10, g11],
        gcross2: [g20, g21],
        rhs: [rhs0, rhs1],
        rhs_wo_bias: [rhs0, rhs1],
        impulse: Vector2::spec_zero(),
        total_impulse: before.total_impulse,
        r: [
            spec_inverse_effective_mass(tangents1[0], imsum, g10, g20),
            spec_inverse_effective_mass(tangents1[1], imsum, g11, g21),
            Real::spec_from_int(2).spec_mul(g10.spec_dot(g11).spec_add(g20.spec_dot(g21))),
        ],
    }
}

/// What is kept of `point` for the substeps: the contact in the frame of
/// each body, the surface velocity, the separation, and what restitution
/// adds to the right-hand side.
pub open spec fn spec_built_infos(
    point: SolverContact,
    rb1: RigidBody,
    rb2: RigidBody,
    force_dir1: Vector3,
) -> ContactPointInfos {
    ContactPointInfos {
        tangent_vel: point.tangent_velocity,
        local_p1: rb1.position.spec_inverse_transform_point(point.point),
        local_p2: rb2.position.spec_inverse_transform_point(point.point),
        dist: point.dist,
        normal_rhs_wo_bias: spec_restitution_rhs(point, rb1, rb2, force_dir1),
    }
}

fn angular_effect(ii_sqrt: &AngularInertia, dp: Vector3, dir: Vector3) -> (r: Vector3)
    ensures
        r == spec_angular_effect(*ii_sqrt, dp, dir),
{
    ii_sqrt.transform_vector(dp.cross(dir))
}

fn inverse_effective_mass(dir: Vector3, imsum: Vector3, gcross1: Vector3, gcross2: Vector3) -> (r:
    Real)
    ensures
        r == spec_inverse_effective_mass(dir, imsum, gcross1, gcross2),
{
    dir.dot(imsum.component_mul(dir)).add(gcross1.dot(gcross1)).add(gcross2.dot(gcross2))
}

fn build_normal_part(point: &SolverContact, rb1: &RigidBody, rb2: &RigidBody, force_dir1: Vector3)
    -> (r: TwoBodyConstraintNormalPart)
    ensures
        r == spec_built_normal_part(*point, *rb1, *rb2, force_dir1),
{
    let dp1 = point.point.sub(rb1.world_com);
    let dp2 = point.point.sub(rb2.world_com);
    let gcross1 = angular_effect(&rb1.effective_world_inv_inertia_sqrt, dp1, force_dir1);
    let gcross2 = angular_effect(&rb2.effective_world_inv_inertia_sqrt, dp2, force_dir1.neg());
    let imsum = rb1.effective_inv_mass.add(rb2.effective_inv_mass);
    let projected_mass = inverse_effective_mass(force_dir1, imsum, gcross1, gcross2).inv();
    TwoBodyConstraintNormalPart {
        gcross1,
        gcross2,
        rhs: Real::zero(),
        rhs_wo_bias: Real::zero(),
        impulse: Real::zero(),
        total_impulse: Real::zero(),
        r: projected_mass,
    }
}

fn build_tangent_part(
    before: &TwoBodyConstraintTangentPart,
    point: &SolverContact,
    rb1: &RigidBody,
    rb2: &RigidBody,
    tangents1: &[Vector3; 2],
) -> (r: TwoBodyConstraintTangentPart)
    ensures
        r == spec_built_tangent_part(*before, *point, *rb1, *rb2, *tangents1),
{
    let dp1 = point.point.sub(rb1.world_com);
    let dp2 = point.point.sub(rb2.world_com);
    let imsum = rb1.effective_inv_mass.add(rb2.effective_inv_mass);
    let g10 = angular_effect(&rb1.effective_world_inv_inertia_sqrt, dp1, tangents1[0]);
    let g20 = angular_effect(&rb2.effective_world_inv_inertia_sqrt, dp2, tangents1[0].neg());
    let g11 = angular_effect(&rb1.effective_world_inv_inertia_sqrt, dp1, tangents1[1]);
    let g21 = angular_effect(&rb2.effective_world_inv_inertia_sqrt, dp2, tangents1[1].neg());
    let rhs0 = point.tangent_velocity.dot(tangents1[0]);
    let rhs1 = point.tangent_velocity.dot(tangents1[1]);
    let r = TwoBodyConstraintTangentPart {
        gcross1: [g10, g11],
        gcross2: [g20, g21],
        rhs: [rhs0, rhs1],
        rhs_wo_bias: [rhs0, rhs1],
        impulse: Vector2::zero(),
        total_impulse: before.total_impulse,
        r: [
            inverse_effective_mass(tangents1[0], imsum, g10, g20),
            inverse_effective_mass(tangents1[1], imsum, g11, g21),
            Real::from_int(2).mul(g10.dot(g11).add(g20.dot(g21))),
        ],
    };
    proof {
        let s = spec_built_tangent_part(*before, *point, *rb1, *rb2, *tangents1);
        assert(r.gcross1 =~= s.gcross1);
        assert(r.gcross2 =~= s.gcross2);
        assert(r.rhs =~= s.rhs);
        assert(r.rhs_wo_bias =~= s.rhs_wo_bias);
        assert(r.r =~= s.r);
    }
    r
}

fn build_infos(point: &SolverContact, rb1: &RigidBody, rb2: &RigidBody, force_dir1: Vector3) -> (r:
    ContactPointInfos)
    ensures
        r == spec_built_infos(*point, *rb1, *rb2, force_dir1),
{
    let dp1 = point.point.sub(rb1.world_com);
    let dp2 = point.point.sub(rb2.world_com);
    let vel1 = rb1.linvel.add(rb1.angvel.cross(dp1));
    let vel2 = rb2.linvel.add(rb2.angvel.cross(dp2));
    let normal_rhs_wo_bias = if point.is_bouncy() {
        point.restitution.mul(vel1.sub(vel2).dot(force_dir1))
    } else {
        Real::zero()
    };
    ContactPointInfos {
        tangent_vel: point.tangent_velocity,
        local_p1: rb1.position.inverse_transform_point(point.point),
        local_p2: rb2.position.inverse_transform_point(point.point),
        dist: point.dist,
        normal_rhs_wo_bias,
    }
}

impl ContactPointInfos {
    /// The record with every field zero.
    pub open spec fn spec_default() -> ContactPointInfos {
        ContactPointInfos {
            tangent_vel: Vector3::spec_zero(),
            local_p1: Vector3::spec_zero(),
            local_p2: Vector3::spec_zero(),
            dist: Real::spec_zero(),
            normal_rhs_wo_bias: Real::spec_zero(),
        }
    }
}

impl Default for ContactPointInfos {
    fn default() -> (r: ContactPointInfos)
        ensures
            r == ContactPointInfos::spec_default(),
    {
        ContactPointInfos {
            tangent_vel: Vector3::zero(),
            local_p1: Vector3::zero(),
            local_p2: Vector3::zero(),
            dist: Real::zero(),
            normal_rhs_wo_bias: Real::zero(),
        }
    }
}

/// Number of constraints that a manifold with `len` contact points is split
/// into.
pub open spec fn spec_chunk_count(len: nat) -> nat {
    ((len + 3) / 4) as nat
}

/// Number of contact points that the constraint `l` of a manifold with `len`
/// contact points holds.
pub open spec fn spec_chunk_len(len: nat, l: nat) -> nat {
    if len - 4 * l >= 4 {
        4
    } else {
        (len - 4 * l) as nat
    }
}

/// The contact `info` as the current poses place it: the first body's anchor,
/// advanced by the surface velocity over `solved_dt`, minus the second body's.
pub open spec fn spec_contact_offset(
    info: ContactPointInfos,
    solved_dt: Real,
    rb1_pos: Isometry,
    rb2_pos: Isometry,
) -> Vector3 {
    rb1_pos.spec_transform_point(info.local_p1).spec_add(info.tangent_vel.spec_scale(solved_dt))
        .spec_sub(rb2_pos.spec_transform_point(info.local_p2))
}

/// The separation of the contact `info` along `dir1` as the current poses
/// place it.
pub open spec fn spec_separation(
    info: ContactPointInfos,
    solved_dt: Real,
    rb1_pos: Isometry,
    rb2_pos: Isometry,
    dir1: Vector3,
) -> Real {
    info.dist.spec_add(spec_contact_offset(info, solved_dt, rb1_pos, rb2_pos).spec_dot(dir1))
}

/// The stabilization bias for the separation `dist`: the error-reduction
/// rate times the penetration beyond the allowed slop, which is kept between
/// the largest correction and zero.
pub open spec fn spec_bias_term(params: IntegrationParameters, dist: Real) -> Real {
    params.spec_erp_inv_dt().spec_mul(
        dist.spec_add(params.allowed_linear_error).spec_clamp(
            params.max_penetration_correction.spec_neg(),
            Real::spec_zero(),
        ),
    )
}

/// The bias-free right-hand side of the normal part for the separation
/// `dist`: what restitution adds, and the speed at which a remaining gap
/// would close in one step.
pub open spec fn spec_normal_rhs_wo_bias(
    info: ContactPointInfos,
    params: IntegrationParameters,
    dist: Real,
) -> Real {
    info.normal_rhs_wo_bias.spec_add(dist.spec_max(Real::spec_zero()).spec_mul(params.spec_inv_dt()))
}

/// Whether a contact with the right-hand side `rhs` is fast: the correction
/// that it predicts over the whole step exceeds half the thickness that
/// continuous collision detection grants the two bodies.
pub open spec fn spec_is_fast(params: IntegrationParameters, rhs: Real, ccd_thickness: Real) -> bool {
    rhs.spec_neg().spec_mul(params.dt)@ > ccd_thickness.spec_mul(Real { raw: HALF_RAW })@
}

/// The element `e` refreshed for a substep from the current poses: new
/// right-hand sides, the impulse of the last substep moved into the
/// accumulated impulse, and the impulse of this substep at zero.
pub open spec fn spec_updated_element(
    e: TwoBodyConstraintElement,
    info: ContactPointInfos,
    params: IntegrationParameters,
    solved_dt: Real,
    rb1_pos: Isometry,
    rb2_pos: Isometry,
    dir1: Vector3,
    tangent1: Vector3,
) -> TwoBodyConstraintElement {
    let offset = spec_contact_offset(info, solved_dt, rb1_pos, rb2_pos);
    let dist = spec_separation(info, solved_dt, rb1_pos, rb2_pos, dir1);
    let rhs_wo_bias = spec_normal_rhs_wo_bias(info, params, dist);
    let tangents1 = spec_tangents(dir1, tangent1);
    let inv_dt = params.spec_inv_dt();
    TwoBodyConstraintElement {
        normal_part: TwoBodyConstraintNormalPart {
            rhs_wo_bias,
            rhs: rhs_wo_bias.spec_add(spec_bias_term(params, dist)),
            total_impulse: e.normal_part.total_impulse.spec_add(e.normal_part.impulse),
            impulse: Real::spec_zero(),
            ..e.normal_part
        },
        tangent_part: TwoBodyConstraintTangentPart {
            total_impulse: e.tangent_part.total_impulse.spec_add(e.tangent_part.impulse),
            impulse: Vector2::spec_zero(),
            rhs: [
                e.tangent_part.rhs_wo_bias[0].spec_add(
                    offset.spec_dot(tangents1[0]).spec_mul(inv_dt),
                ),
                e.tangent_part.rhs_wo_bias[1].spec_add(
                    offset.spec_dot(tangents1[1]).spec_mul(inv_dt),
                ),
            ],
            ..e.tangent_part
        },
    }
}

fn update_element(
    e: &TwoBodyConstraintElement,
    info: &ContactPointInfos,
    params: &IntegrationParameters,
    solved_dt: Real,
    rb1_pos: &Isometry,
    rb2_pos: &Isometry,
    dir1: Vector3,
    tangents1: &[Vector3; 2],
) -> (r: TwoBodyConstraintElement)
    ensures
        tangents1[1] == dir1.spec_cross(tangents1[0]) ==> r == spec_updated_element(
            *e,
            *info,
            *params,
            solved_dt,
            *rb1_pos,
            *rb2_pos,
            dir1,
            tangents1[0],
        ),
{
    let inv_dt = params.inv_dt();
    let erp_inv_dt = params.erp_inv_dt();
    // The surface velocity stands for the first body's surface moving on its own.
    let p1 = rb1_pos.transform_point(info.local_p1).add(info.tangent_vel.scale(solved_dt));
    let p2 = rb2_pos.transform_point(info.local_p2);
    let offset = p1.sub(p2);
    let dist = info.dist.add(offset.dot(dir1));

    let rhs_wo_bias = info.normal_rhs_wo_bias.add(dist.max(Real::zero()).mul(inv_dt));
    let rhs_bias = erp_inv_dt.mul(
        dist.add(params.allowed_linear_error).clamp(
            params.max_penetration_correction.neg(),
            Real::zero(),
        ),
    );
    let r = TwoBodyConstraintElement {
        normal_part: TwoBodyConstraintNormalPart {
            rhs_wo_bias,
            rhs: rhs_wo_bias.add(rhs_bias),
            total_impulse: e.normal_part.total_impulse.add(e.normal_part.impulse),
            impulse: Real::zero(),
            ..e.normal_part
        },
        tangent_part: TwoBodyConstraintTangentPart {
            total_impulse: e.tangent_part.total_impulse.add(e.tangent_part.impulse),
            impulse: Vector2::zero(),
            rhs: [
                e.tangent_part.rhs_wo_bias[0].add(offset.dot(tangents1[0]).mul(inv_dt)),
                e.tangent_part.rhs_wo_bias[1].add(offset.dot(tangents1[1]).mul(inv_dt)),
            ],
            ..e.tangent_part
        },
    };
    proof {
        if tangents1[1] == dir1.spec_cross(tangents1[0]) {
            assert(*tangents1 =~= spec_tangents(dir1, tangents1[0]));
            let s = spec_updated_element(
                *e,
                *info,
                *params,
                solved_dt,
                *rb1_pos,
                *rb2_pos,
                dir1,
                tangents1[0],
            );
            assert(r.tangent_part.rhs =~= s.tangent_part.rhs);
        }
    }
    r
}

impl TwoBodyConstraintBuilder {
    /// Whether the contact `k` of `constraint` is fast once refreshed.
    pub open spec fn spec_point_is_fast(
        &self,
        k: int,
        params: IntegrationParameters,
        solved_dt: Real,
        rb1_pos: Isometry,
        rb2_pos: Isometry,
        ccd_thickness: Real,
        constraint: &TwoBodyConstraint,
    ) -> bool {
        spec_is_fast(
            params,
            spec_updated_element(
                constraint.elements[k],
                self.infos[k],
                params,
                solved_dt,
                rb1_pos,
                rb2_pos,
                constraint.dir1,
                constraint.tangent1,
            ).normal_part.rhs,
            ccd_thickness,
        )
    }

    /// Whether any contact in use of `constraint` is fast once refreshed.
    pub open spec fn spec_is_fast_contact(
        &self,
        params: IntegrationParameters,
        solved_dt: Real,
        rb1_pos: Isometry,
        rb2_pos: Isometry,
        ccd_thickness: Real,
        constraint: &TwoBodyConstraint,
    ) -> bool {
        exists|k: int|
            0 <= k < constraint.num_contacts && #[trigger] self.spec_point_is_fast(
                k,
                params,
                solved_dt,
                rb1_pos,
                rb2_pos,
                ccd_thickness,
                constraint,
            )
    }

    /// Whether `after` is `before` refreshed for a substep: every element in
    /// use refreshed from the current poses, and the softening taken from
    /// the parameters, or switched off where a contact is fast.
    pub open spec fn spec_updated(
        &self,
        params: IntegrationParameters,
        solved_dt: Real,
        rb1_pos: Isometry,
        rb2_pos: Isometry,
        ccd_thickness: Real,
        before: &TwoBodyConstraint,
        after: &TwoBodyConstraint,
    ) -> bool {
        &&& after.same_frame(
            &TwoBodyConstraint {
                cfm_factor: if self.spec_is_fast_contact(
                    params,
                    solved_dt,
                    rb1_pos,
                    rb2_pos,
                    ccd_thickness,
                    before,
                ) {
                    Real::spec_one()
                } else {
                    params.cfm_factor
                },
                ..*before
            },
        )
        &&& forall|k: int|
            0 <= k < before.num_contacts ==> after.elements[k] == spec_updated_element(
                before.elements[k],
                self.infos[k],
                params,
                solved_dt,
                rb1_pos,
                rb2_pos,
                before.dir1,
                before.tangent1,
            )
        &&& forall|k: int|
            before.num_contacts <= k < MAX_MANIFOLD_POINTS ==> after.elements[k]
                == before.elements[k]
    }

    /// Whether `after_b` and `after_c` are what is built, over `before_b` and
    /// `before_c`, for the constraint `l` of `manifold` between the bodies
    /// `rb1` and `rb2`: the frame of the contact, the bodies' inverse masses
    /// and velocity indices, and for each of its contact points the element,
    /// the contact's identifier and what is kept for the substeps. The
    /// friction coefficient is that of the last point. What lies beyond the
    /// points in use is left as it was, and so is the softening factor.
    pub open spec fn spec_generated(
        manifold_id: ContactManifoldIndex,
        manifold: &ContactManifold,
        rb1: RigidBody,
        rb2: RigidBody,
        l: nat,
        before_b: &TwoBodyConstraintBuilder,
        after_b: &TwoBodyConstraintBuilder,
        before_c: &TwoBodyConstraint,
        after_c: &TwoBodyConstraint,
    ) -> bool {
        let points = manifold.data.solver_contacts@;
        let base = 4 * l;
        let n = spec_chunk_len(points.len(), l);
        let force_dir1 = manifold.data.normal.spec_neg();
        let tangents1 = spec_compute_tangent_contact_directions(force_dir1, rb1.linvel, rb2.linvel);
        &&& after_c.dir1 == force_dir1
        &&& after_c.tangent1 == tangents1[0]
        &&& after_c.im1 == rb1.effective_inv_mass
        &&& after_c.im2 == rb2.effective_inv_mass
        &&& after_c.cfm_factor == before_c.cfm_factor
        &&& after_c.limit == points[base + n - 1].friction
        &&& after_c.solver_vel1 == rb1.active_set_offset
        &&& after_c.solver_vel2 == rb2.active_set_offset
        &&& after_c.manifold_id == manifold_id
        &&& after_c.num_contacts == n
        &&& forall|k: int|
            0 <= k < n ==> #[trigger] TwoBodyConstraintBuilder::spec_point_generated(
                k,
                points[base + k],
                rb1,
                rb2,
                force_dir1,
                tangents1,
                before_c,
                after_b,
                after_c,
            )
        &&& forall|k: int|
            n <= k < MAX_MANIFOLD_POINTS ==> #[trigger] TwoBodyConstraintBuilder::spec_point_kept(
                k,
                before_b,
                after_b,
                before_c,
                after_c,
            )
    }

    /// Whether the slot `k` of `after_b` and `after_c` holds what is built
    /// for `point`: its identifier, its element, and what is kept of it.
    pub open spec fn spec_point_generated(
        k: int,
        point: SolverContact,
        rb1: RigidBody,
        rb2: RigidBody,
        force_dir1: Vector3,
        tangents1: [Vector3; 2],
        before_c: &TwoBodyConstraint,
        after_b: &TwoBodyConstraintBuilder,
        after_c: &TwoBodyConstraint,
    ) -> bool {
        &&& after_c.manifold_contact_id[k] == point.contact_id
        &&& after_c.elements[k].normal_part == spec_built_normal_part(point, rb1, rb2, force_dir1)
        &&& after_c.elements[k].tangent_part == spec_built_tangent_part(
            before_c.elements[k].tangent_part,
            point,
            rb1,
            rb2,
            tangents1,
        )
        &&& after_b.infos[k] == spec_built_infos(point, rb1, rb2, force_dir1)
    }

    /// Whether the slot `k` is in `after_b` and `after_c` what it was before.
    pub open spec fn spec_point_kept(
        k: int,
        before_b: &TwoBodyConstraintBuilder,
        after_b: &TwoBodyConstraintBuilder,
        before_c: &TwoBodyConstraint,
        after_c: &TwoBodyConstraint,
    ) -> bool {
        &&& after_c.manifold_contact_id[k] == before_c.manifold_contact_id[k]
        &&& after_c.elements[k] == before_c.elements[k]
        &&& after_b.infos[k] == before_b.infos[k]
    }

    /// The builder that stands for no constraint: every record zero.
    pub fn invalid() -> (r: TwoBodyConstraintBuilder)
        ensures
            forall|k: int|
                0 <= k < MAX_MANIFOLD_POINTS ==> r.infos[k] == ContactPointInfos::spec_default(),
    {
        let info = ContactPointInfos::default();
        TwoBodyConstraintBuilder { infos: [info; MAX_MANIFOLD_POINTS] }
    }

    #[verifier::loop_isolation(false)]
    fn generate_chunk(
        manifold_id: ContactManifoldIndex,
        manifold: &ContactManifold,
        rb1: &RigidBody,
        rb2: &RigidBody,
        force_dir1: Vector3,
        tangents1: &[Vector3; 2],
        l: usize,
        builder: &mut TwoBodyConstraintBuilder,
        constraint: &mut TwoBodyConstraint,
    )
        requires
            4 * l < manifold.data.solver_contacts@.len(),
            force_dir1 == manifold.data.normal.spec_neg(),
            *tangents1 == spec_compute_tangent_contact_directions(
                force_dir1,
                rb1.linvel,
                rb2.linvel,
            ),
        ensures
            TwoBodyConstraintBuilder::spec_generated(
                manifold_id,
                manifold,
                *rb1,
                *rb2,
                l as nat,
                old(builder),
                final(builder),
                old(constraint),
                final(constraint),
            ),
    {
        let len = manifold.data.solver_contacts.len();
        let base = 4 * l;
        let num = if len - base >= MAX_MANIFOLD_POINTS {
            MAX_MANIFOLD_POINTS
        } else {
            len - base
        };
        constraint.dir1 = force_dir1;
        constraint.im1 = rb1.effective_inv_mass;
        constraint.im2 = rb2.effective_inv_mass;
        constraint.solver_vel1 = rb1.active_set_offset;
        constraint.solver_vel2 = rb2.active_set_offset;
        constraint.manifold_id = manifold_id;
        constraint.num_contacts = num as u8;
        constraint.tangent1 = tangents1[0];

        let mut k: usize = 0;
        while k < num
            invariant
                k <= num,
                constraint.dir1 == force_dir1,
                constraint.tangent1 == tangents1[0],
                constraint.im1 == rb1.effective_inv_mass,
                constraint.im2 == rb2.effective_inv_mass,
                constraint.cfm_factor == old(constraint).cfm_factor,
                constraint.solver_vel1 == rb1.active_set_offset,
                constraint.solver_vel2 == rb2.active_set_offset,
                constraint.manifold_id == manifold_id,
                constraint.num_contacts == num,
                k > 0 ==> constraint.limit == manifold.data.solver_contacts@[base + k - 1].friction,
                forall|i: int|
                    0 <= i < k ==> #[trigger] TwoBodyConstraintBuilder::spec_point_generated(
                        i,
                        manifold.data.solver_contacts@[base + i],
                        *rb1,
                        *rb2,
                        force_dir1,
                        *tangents1,
                        old(constraint),
                        builder,
                        constraint,
                    ),
                forall|i: int|
                    k <= i < MAX_MANIFOLD_POINTS
                        ==> #[trigger] TwoBodyConstraintBuilder::spec_point_kept(
                        i,
                        old(builder),
                        builder,
                        old(constraint),
                        constraint,
                    ),
            decreases num - k,
        {
            let manifold_point = &manifold.data.solver_contacts[base + k];
            let ghost before_b = *builder;
            let ghost before_c = *constraint;

            constraint.limit = manifold_point.friction;
            constraint.manifold_contact_id[k] = manifold_point.contact_id;

            let normal_part = build_normal_part(manifold_point, rb1, rb2, force_dir1);
            let tangent_part = build_tangent_part(
                &constraint.elements[k].tangent_part,
                manifold_point,
                rb1,
                rb2,
                tangents1,
            );
            constraint.elements[k].normal_part = normal_part;
            constraint.elements[k].tangent_part = tangent_part;

            builder.infos[k] = build_infos(manifold_point, rb1, rb2, force_dir1);
            proof {
                let ghost done = k as int;
                assert(TwoBodyConstraintBuilder::spec_point_kept(
                    done,
                    old(builder),
                    &before_b,
                    old(constraint),
                    &before_c,
                ));
                assert forall|i: int| 0 <= i < done implies #[trigger]
                    TwoBodyConstraintBuilder::spec_point_generated(
                    i,
                    manifold.data.solver_contacts@[base + i],
                    *rb1,
                    *rb2,
                    force_dir1,
                    *tangents1,
                    old(constraint),
                    builder,
                    constraint,
                ) by {
                    assert(TwoBodyConstraintBuilder::spec_point_generated(
                        i,
                        manifold.data.solver_contacts@[base + i],
                        *rb1,
                        *rb2,
                        force_dir1,
                        *tangents1,
                        old(constraint),
                        &before_b,
                        &before_c,
                    ));
                }
                assert forall|i: int| done < i < MAX_MANIFOLD_POINTS implies #[trigger]
                    TwoBodyConstraintBuilder::spec_point_kept(
                    i,
                    old(builder),
                    builder,
                    old(constraint),
                    constraint,
                ) by {
                    assert(TwoBodyConstraintBuilder::spec_point_kept(
                        i,
                        old(builder),
                        &before_b,
                        old(constraint),
                        &before_c,
                    ));
                }
            }
            k += 1;
        }
    }

    /// Builds the constraints of `manifold`, one for every four of its
    /// contact points, into the first entries of `out_constraints`, and what
    /// is kept of the points for the substeps into those of `out_builders`.
    pub fn generate(
        manifold_id: ContactManifoldIndex,
        manifold: &ContactManifold,
        bodies: &RigidBodySet,
        out_builders: &mut [TwoBodyConstraintBuilder],
        out_constraints: &mut [TwoBodyConstraint],
    )
        requires
            manifold.data.relative_dominance == 0,
            manifold.data.rigid_body1 is Some,
            manifold.data.rigid_body2 is Some,
            bodies.contains(manifold.data.rigid_body1->0),
            bodies.contains(manifold.data.rigid_body2->0),
            spec_chunk_count(manifold.data.solver_contacts@.len()) <= old(out_builders)@.len(),
            spec_chunk_count(manifold.data.solver_contacts@.len()) <= old(out_constraints)@.len(),
        ensures
            final(out_builders)@.len() == old(out_builders)@.len(),
            final(out_constraints)@.len() == old(out_constraints)@.len(),
            forall|l: int|
                0 <= l < spec_chunk_count(manifold.data.solver_contacts@.len())
                    ==> TwoBodyConstraintBuilder::spec_generated(
                    manifold_id,
                    manifold,
                    bodies.spec_get(manifold.data.rigid_body1->0),
                    bodies.spec_get(manifold.data.rigid_body2->0),
                    l as nat,
                    &old(out_builders)@[l],
                    &final(out_builders)@[l],
                    &old(out_constraints)@[l],
                    &final(out_constraints)@[l],
                ),
            forall|l: int|
                spec_chunk_count(manifold.data.solver_contacts@.len()) <= l < old(
                    out_builders,
                )@.len() ==> final(out_builders)@[l] == old(out_builders)@[l],
            forall|l: int|
                spec_chunk_count(manifold.data.solver_contacts@.len()) <= l < old(
                    out_constraints,
                )@.len() ==> final(out_constraints)@[l] == old(out_constraints)@[l],
    {
        let handle1 = manifold.data.rigid_body1.unwrap();
        let handle2 = manifold.data.rigid_body2.unwrap();

        let rb1 = &bodies.bodies[handle1.0];
        let rb2 = &bodies.bodies[handle2.0];
        let force_dir1 = manifold.data.normal.neg();
        let tangents1 = compute_tangent_contact_directions(&force_dir1, &rb1.linvel, &rb2.linvel);

        let len = manifold.data.solver_contacts.len();
        let mut l: usize = 0;
        while l < len / 4 || (l == len / 4 && len % 4 != 0)
            invariant
                l <= spec_chunk_count(len as nat),
                len == manifold.data.solver_contacts@.len(),
                spec_chunk_count(len as nat) <= out_builders@.len(),
                spec_chunk_count(len as nat) <= out_constraints@.len(),
                out_builders@.len() == old(out_builders)@.len(),
                out_constraints@.len() == old(out_constraints)@.len(),
                *rb1 == bodies.spec_get(manifold.data.rigid_body1->0),
                *rb2 == bodies.spec_get(manifold.data.rigid_body2->0),
                force_dir1 == manifold.data.normal.spec_neg(),
                tangents1 == spec_compute_tangent_contact_directions(
                    force_dir1,
                    rb1.linvel,
                    rb2.linvel,
                ),
                forall|i: int|
                    0 <= i < l ==> TwoBodyConstraintBuilder::spec_generated(
                        manifold_id,
                        manifold,
                        *rb1,
                        *rb2,
                        i as nat,
                        &old(out_builders)@[i],
                        &out_builders@[i],
                        &old(out_constraints)@[i],
                        &out_constraints@[i],
                    ),
                forall|i: int|
                    l <= i < out_builders@.len() ==> out_builders@[i] == old(out_builders)@[i],
                forall|i: int|
                    l <= i < out_constraints@.len() ==> out_constraints@[i] == old(
                        out_constraints,
                    )@[i],
            decreases spec_chunk_count(len as nat) - l,
        {
            TwoBodyConstraintBuilder::generate_chunk(
                manifold_id,
                manifold,
                rb1,
                rb2,
                force_dir1,
                &tangents1,
                l,
                &mut out_builders[l],
                &mut out_constraints[l],
            );
            l += 1;
        }
    }

    /// Refreshes `constraint` for a substep from the current poses of its two
    /// bodies, found in `bodies` at the constraint's velocity indices, and
    /// tells whether one of its contacts is fast.
    pub fn update(
        &self,
        params: &IntegrationParameters,
        solved_dt: Real,
        bodies: &[SolverBody],
        constraint: &mut TwoBodyConstraint,
    ) -> (is_fast_contact: bool)
        requires
            old(constraint).wf(),
            old(constraint).solver_vel1 < bodies@.len(),
            old(constraint).solver_vel2 < bodies@.len(),
            params.max_penetration_correction@ >= 0,
        ensures
            self.spec_updated(
                *params,
                solved_dt,
                bodies@[old(constraint).solver_vel1 as int].position,
                bodies@[old(constraint).solver_vel2 as int].position,
                bodies@[old(constraint).solver_vel1 as int].ccd_thickness.spec_add(
                    bodies@[old(constraint).solver_vel2 as int].ccd_thickness,
                ),
                old(constraint),
                final(constraint),
            ),
            is_fast_contact == self.spec_is_fast_contact(
                *params,
                solved_dt,
                bodies@[old(constraint).solver_vel1 as int].position,
                bodies@[old(constraint).solver_vel2 as int].position,
                bodies@[old(constraint).solver_vel1 as int].ccd_thickness.spec_add(
                    bodies@[old(constraint).solver_vel2 as int].ccd_thickness,
                ),
                old(constraint),
            ),
    {
        let rb1 = &bodies[constraint.solver_vel1];
        let rb2 = &bodies[constraint.solver_vel2];
        let ccd_thickness = rb1.ccd_thickness.add(rb2.ccd_thickness);
        self.update_with_positions(
            params,
            solved_dt,
            &rb1.position,
            &rb2.position,
            ccd_thickness,
            constraint,
        )
    }

    /// Refreshes `constraint` for a substep from the poses given, and tells
    /// whether one of its contacts is fast.
    pub fn update_with_positions(
        &self,
        params: &IntegrationParameters,
        solved_dt: Real,
        rb1_pos: &Isometry,
        rb2_pos: &Isometry,
        ccd_thickness: Real,
        constraint: &mut TwoBodyConstraint,
    ) -> (is_fast_contact: bool)
        requires
            old(constraint).wf(),
            params.max_penetration_correction@ >= 0,
        ensures
            self.spec_updated(
                *params,
                solved_dt,
                *rb1_pos,
                *rb2_pos,
                ccd_thickness,
                old(constraint),
                final(constraint),
            ),
            is_fast_contact == self.spec_is_fast_contact(
                *params,
                solved_dt,
                *rb1_pos,
                *rb2_pos,
                ccd_thickness,
                old(constraint),
            ),
    {
        let cfm_factor = params.cfm_factor();
        let num = constraint.num_contacts as usize;
        let dir1 = constraint.dir1;
        let tangents1 = [constraint.tangent1, constraint.dir1.cross(constraint.tangent1)];
        let half_thickness = ccd_thickness.mul(Real { raw: HALF_RAW });
        let mut is_fast_contact = false;

        let mut k: usize = 0;
        while k < num
            invariant
                k <= num == old(constraint).num_contacts <= MAX_MANIFOLD_POINTS,
                constraint.same_frame(old(constraint)),
                dir1 == constraint.dir1,
                tangents1[0] == constraint.tangent1,
                tangents1[1] == dir1.spec_cross(tangents1[0]),
                half_thickness == ccd_thickness.spec_mul(Real { raw: HALF_RAW }),
                is_fast_contact == (exists|i: int|
                    0 <= i < k && #[trigger] self.spec_point_is_fast(
                        i,
                        *params,
                        solved_dt,
                        *rb1_pos,
                        *rb2_pos,
                        ccd_thickness,
                        old(constraint),
                    )),
                forall|i: int|
                    0 <= i < k ==> constraint.elements[i] == spec_updated_element(
                        old(constraint).elements[i],
                        self.infos[i],
                        *params,
                        solved_dt,
                        *rb1_pos,
                        *rb2_pos,
                        dir1,
                        tangents1[0],
                    ),
                forall|i: int|
                    k <= i < MAX_MANIFOLD_POINTS ==> constraint.elements[i] == old(
                        constraint,
                    ).elements[i],
            decreases num - k,
        {
            let element = update_element(
                &constraint.elements[k],
                &self.infos[k],
                params,
                solved_dt,
                rb1_pos,
                rb2_pos,
                dir1,
                &tangents1,
            );
            let fast = element.normal_part.rhs.neg().mul(params.dt).gt(half_thickness);
            assert(fast == self.spec_point_is_fast(
                k as int,
                *params,
                solved_dt,
                *rb1_pos,
                *rb2_pos,
                ccd_thickness,
                old(constraint),
            ));
            is_fast_contact = is_fast_contact || fast;
            constraint.elements[k] = element;
            k += 1;
        }

        constraint.cfm_factor = if is_fast_contact {
            Real::one()
        } else {
            cfm_factor
        };
        is_fast_contact
    }
}

/// Separating contacts generate no bias: under a non-negative slop and a
/// non-negative largest correction, a contact whose separation exceeds the
/// slop has a bias of exactly zero.
pub proof fn law_separated_contact_has_no_bias(params: IntegrationParameters, dist: Real)
    requires
        params.allowed_linear_error@ >= 0,
        params.max_penetration_correction@ >= 0,
        dist@ > params.allowed_linear_error@,
    ensures
        spec_bias_term(params, dist) == Real::spec_zero(),
{
    reveal(Real::spec_add);
    reveal(Real::spec_neg);
    lemma_mul_zero(params.spec_erp_inv_dt());
}

/// A refreshed element whose contact is separated by more than the slop has
/// the same right-hand side with and without bias.
pub proof fn law_separated_contact_is_unbiased(
    e: TwoBodyConstraintElement,
    info: ContactPointInfos,
    params: IntegrationParameters,
    solved_dt: Real,
    rb1_pos: Isometry,
    rb2_pos: Isometry,
    dir1: Vector3,
    tangent1: Vector3,
)
    requires
        params.allowed_linear_error@ >= 0,
        params.max_penetration_correction@ >= 0,
        spec_separation(info, solved_dt, rb1_pos, rb2_pos, dir1)@ > params.allowed_linear_error@,
    ensures
        ({
            let refreshed = spec_updated_element(
                e,
                info,
                params,
                solved_dt,
                rb1_pos,
                rb2_pos,
                dir1,
                tangent1,
            );
            refreshed.normal_part.rhs == refreshed.normal_part.rhs_wo_bias
        }),
{
    let dist = spec_separation(info, solved_dt, rb1_pos, rb2_pos, dir1);
    law_separated_contact_has_no_bias(params, dist);
    lemma_add_sub_zero(spec_normal_rhs_wo_bias(info, params, dist));
}

/// Restitution adds nothing where the bodies do not approach: at a contact
/// where the relative velocity along the normal is zero, what restitution
/// adds to the right-hand side is zero whatever the restitution coefficient,
/// as it is at a contact that does not rebound.
pub proof fn law_no_approach_no_restitution(
    point: SolverContact,
    rb1: RigidBody,
    rb2: RigidBody,
    force_dir1: Vector3,
)
    requires
        spec_approach_velocity(point, rb1, rb2, force_dir1) == Real::spec_zero(),
    ensures
        spec_restitution_rhs(point, rb1, rb2, force_dir1) == Real::spec_zero(),
        spec_built_infos(point, rb1, rb2, force_dir1) == spec_built_infos(
            SolverContact { restitution: Real::spec_zero(), bouncy: false, ..point },
            rb1,
            rb2,
            force_dir1,
        ),
{
    lemma_mul_zero(point.restitution);
}

/// Without a restitution term a contact that is touching or overlapping has
/// a bias-free right-hand side of zero.
pub proof fn law_touching_contact_rhs(
    info: ContactPointInfos,
    params: IntegrationParameters,
    dist: Real,
)
    requires
        info.normal_rhs_wo_bias == Real::spec_zero(),
        dist@ <= 0,
    ensures
        spec_normal_rhs_wo_bias(info, params, dist) == Real::spec_zero(),
{
    lemma_mul_zero(params.spec_inv_dt());
    lemma_add_sub_zero(Real::spec_zero());
}

/// Building and writing back without a solve in between changes no stored
/// impulse that was zero: a constraint that was just built holds no impulse,
/// and writing back copies what the constraint holds.
pub proof fn law_build_then_writeback(
    manifold_id: ContactManifoldIndex,
    manifold: &ContactManifold,
    rb1: RigidBody,
    rb2: RigidBody,
    l: nat,
    before_b: &TwoBodyConstraintBuilder,
    after_b: &TwoBodyConstraintBuilder,
    before_c: &TwoBodyConstraint,
    after_c: &TwoBodyConstraint,
    points: Seq<TrackedContact>,
)
    requires
        4 * l < manifold.data.solver_contacts@.len(),
        TwoBodyConstraintBuilder::spec_generated(
            manifold_id,
            manifold,
            rb1,
            rb2,
            l,
            before_b,
            after_b,
            before_c,
            after_c,
        ),
        after_c.contacts_resolve(points),
        forall|k: int|
            0 <= k < after_c.num_contacts ==> points[after_c.manifold_contact_id[k] as int].data
                == (ContactData { impulse: Real::spec_zero(), tangent_impulse: Vector2::spec_zero() }),
    ensures
        after_c.spec_written_back(points, after_c.num_contacts as nat) == points,
{
    let n = after_c.num_contacts as nat;
    let all = manifold.data.solver_contacts@;
    let force_dir1 = manifold.data.normal.spec_neg();
    let tangents1 = spec_compute_tangent_contact_directions(force_dir1, rb1.linvel, rb2.linvel);
    assert forall|j: int| 0 <= j < n implies points[after_c.manifold_contact_id[j] as int].data
        == #[trigger] after_c.spec_contact_data(j) by {
        assert(TwoBodyConstraintBuilder::spec_point_generated(
            j,
            all[4 * l + j],
            rb1,
            rb2,
            force_dir1,
            tangents1,
            before_c,
            after_b,
            after_c,
        ));
    }
    law_writeback_round_trip(*after_c, points, n);
}

/// The bias only corrects penetration, and never faster than allowed:
/// under a non-negative error-reduction rate and a non-negative largest
/// correction, the bias is at most zero and at least the rate times the
/// largest correction, negated.
pub proof fn law_bias_is_bounded(params: IntegrationParameters, dist: Real)
    requires
        params.spec_erp_inv_dt()@ >= 0,
        params.max_penetration_correction@ >= 0,
    ensures
        spec_bias_term(params, dist)@ <= 0,
        spec_bias_term(params, dist)@ >= params.spec_erp_inv_dt().spec_mul(
            params.max_penetration_correction.spec_neg(),
        )@,
{
    let rate = params.spec_erp_inv_dt();
    let lowest = params.max_penetration_correction.spec_neg();
    let clamped = dist.spec_add(params.allowed_linear_error).spec_clamp(lowest, Real::spec_zero());
    assert(lowest@ <= 0) by {
        reveal(Real::spec_neg);
    }
    lemma_mul_monotonic(rate, clamped, Real::spec_zero());
    lemma_mul_monotonic(rate, lowest, clamped);
    lemma_mul_zero(rate);
}

} // verus!
