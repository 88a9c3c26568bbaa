//! The friction directions of a contact.

use vstd::prelude::*;
use crate::vector::Vector3;

verus! {

/// Raw value of the sliding speed, one ten-thousandth, that the tangent
/// frame must exceed to be aligned with the sliding direction.
pub const TANGENT_THRESHOLD_RAW: i64 = 429_496;

/// Number of contacts whose tangent frames are computed in lockstep.
pub const LANES: usize = 4;

/// The part of the relative linear velocity of two bodies that lies in the
/// plane at right angles to `force_dir1`.
pub open spec fn spec_tangent_relative_linvel(
    force_dir1: Vector3,
    linvel1: Vector3,
    linvel2: Vector3,
) -> Vector3 {
    let relative_linvel = linvel1.spec_sub(linvel2);
    relative_linvel.spec_sub(force_dir1.spec_scale(force_dir1.spec_dot(relative_linvel)))
}

/// The friction frame of a contact. The first tangent is the direction of
/// sliding where the sliding speed exceeds the threshold, and a fallback at
/// right angles to `force_dir1` where it does not; the second is the vector
/// product of `force_dir1` and the first.
pub open spec fn spec_compute_tangent_contact_directions(
    force_dir1: Vector3,
    linvel1: Vector3,
    linvel2: Vector3,
) -> [Vector3; 2] {
    let sliding = spec_tangent_relative_linvel(force_dir1, linvel1, linvel2);
    let norm = sliding.spec_norm();
    let tangent1 = if norm@ > TANGENT_THRESHOLD_RAW {
        sliding.spec_unscale(norm)
    } else {
        force_dir1.spec_orthonormal_vector()
    };
    [tangent1, force_dir1.spec_cross(tangent1)]
}

/// Computes the friction frame of one contact from the direction of the
/// contact force on the first body and the linear velocities of both bodies.
pub fn compute_tangent_contact_directions(
    force_dir1: &Vector3,
    linvel1: &Vector3,
    linvel2: &Vector3,
) -> (r: [Vector3; 2])
    ensures
        r == spec_compute_tangent_contact_directions(*force_dir1, *linvel1, *linvel2),
        r[1] == force_dir1.spec_cross(r[0]),
{
    let relative_linvel = linvel1.sub(*linvel2);
    let sliding = relative_linvel.sub(force_dir1.scale(force_dir1.dot(relative_linvel)));
    let norm = sliding.norm();
    let tangent1 = if norm.raw > TANGENT_THRESHOLD_RAW {
        sliding.unscale(norm)
    } else {
        force_dir1.orthonormal_vector()
    };
    let r = [tangent1, force_dir1.cross(tangent1)];
    assert(r =~= spec_compute_tangent_contact_directions(*force_dir1, *linvel1, *linvel2));
    r
}

/// Computes the friction frames of a batch of independent contacts. Every
/// lane gets the frame that the single-contact computation gives it.
pub fn compute_tangent_contact_directions_simd(
    force_dir1: &[Vector3; LANES],
    linvel1: &[Vector3; LANES],
    linvel2: &[Vector3; LANES],
) -> (r: [[Vector3; 2]; LANES])
    ensures
        forall|lane: int|
            0 <= lane < LANES ==> r[lane] == spec_compute_tangent_contact_directions(
                force_dir1[lane],
                linvel1[lane],
                linvel2[lane],
            ),
{
    let zero = [Vector3::zero(), Vector3::zero()];
    let mut r = [zero; LANES];
    let mut lane: usize = 0;
    while lane < LANES
        invariant
            lane <= LANES,
            forall|i: int|
                0 <= i < lane ==> r[i] == spec_compute_tangent_contact_directions(
                    force_dir1[i],
                    linvel1[i],
                    linvel2[i],
                ),
        decreases LANES - lane,
    {
        r[lane] = compute_tangent_contact_directions(
            &force_dir1[lane],
            &linvel1[lane],
            &linvel2[lane],
        );
        lane += 1;
    }
    r
}

} // verus!
