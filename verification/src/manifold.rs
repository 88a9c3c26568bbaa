//! The contact manifolds that collision detection hands to the solver.

use vstd::prelude::*;
use crate::body::RigidBodyHandle;
use crate::fixed::Real;
use crate::vector::{Vector2, Vector3};

verus! {

/// Largest number of contact points that one constraint holds.
pub const MAX_MANIFOLD_POINTS: usize = 4;

/// Index of a manifold in the array of all manifolds.
pub type ContactManifoldIndex = usize;

/// One contact point, prepared for the solver.
#[derive(Clone, Copy, Debug)]
pub struct SolverContact {
    /// Index of the contact among the manifold's stored points.
    pub contact_id: u8,
    /// World position of the contact.
    pub point: Vector3,
    /// Separation along the normal; negative where the shapes overlap.
    pub dist: Real,
    /// Combined friction coefficient.
    pub friction: Real,
    /// Combined restitution coefficient.
    pub restitution: Real,
    /// Velocity of the surface of the first body at the contact.
    pub tangent_velocity: Vector3,
    /// Whether the contact rebounds.
    pub bouncy: bool,
}

impl SolverContact {
    pub fn is_bouncy(&self) -> (b: bool)
        ensures
            b == self.bouncy,
    {
        self.bouncy
    }
}

/// The impulses that the solver found for one stored contact.
#[derive(Clone, Copy, Debug, PartialEq, Eq, Structural)]
pub struct ContactData {
    pub impulse: Real,
    pub tangent_impulse: Vector2,
}

/// One contact stored in a manifold from step to step.
#[derive(Clone, Copy, Debug, PartialEq, Eq, Structural)]
pub struct TrackedContact {
    pub data: ContactData,
}

/// What the solver reads of a manifold.
pub struct ContactManifoldData {
    pub rigid_body1: Option<RigidBodyHandle>,
    pub rigid_body2: Option<RigidBodyHandle>,
    /// Zero where neither body dominates the other.
    pub relative_dominance: i16,
    /// Unit normal of the contact, from the first body to the second.
    pub normal: Vector3,
    pub solver_contacts: Vec<SolverContact>,
}

/// The contacts between two shapes.
pub struct ContactManifold {
    pub points: Vec<TrackedContact>,
    pub data: ContactManifoldData,
}

} // verus!
