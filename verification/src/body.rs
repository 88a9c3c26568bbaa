//! What the solver reads of the rigid bodies, and the velocities it writes.

use vstd::prelude::*;
use crate::fixed::Real;
use crate::geometry::{AngularInertia, Isometry};
use crate::vector::Vector3;

verus! {

/// Index of a body in a [`RigidBodySet`].
#[derive(Clone, Copy, Debug, PartialEq, Eq, Structural)]
pub struct RigidBodyHandle(pub usize);

/// The state of one rigid body at the start of a step.
#[derive(Clone, Copy, Debug)]
pub struct RigidBody {
    /// World pose of the body.
    pub position: Isometry,
    /// Linear velocity of the center of mass.
    pub linvel: Vector3,
    /// Angular velocity.
    pub angvel: Vector3,
    /// Inverse mass along each world axis.
    pub effective_inv_mass: Vector3,
    /// Square root of the inverse inertia, in world space.
    pub effective_world_inv_inertia_sqrt: AngularInertia,
    /// Center of mass, in world space.
    pub world_com: Vector3,
    /// Index of the body's velocity in the solver's velocity buffer.
    pub active_set_offset: usize,
}

/// The bodies of a simulation, found by handle.
pub struct RigidBodySet {
    pub bodies: Vec<RigidBody>,
}

impl RigidBodySet {
    /// Whether `handle` names a body of the set.
    pub open spec fn contains(&self, handle: RigidBodyHandle) -> bool {
        handle.0 < self.bodies@.len()
    }

    /// The body that `handle` names.
    pub open spec fn spec_get(&self, handle: RigidBodyHandle) -> RigidBody {
        self.bodies@[handle.0 as int]
    }

    pub fn get(&self, handle: RigidBodyHandle) -> (r: Option<&RigidBody>)
        ensures
            self.contains(handle) ==> r == Some(&self.spec_get(handle)),
            !self.contains(handle) ==> r.is_none(),
    {
        if handle.0 < self.bodies.len() {
            Some(&self.bodies[handle.0])
        } else {
            None
        }
    }
}

/// What a substep reads of a body: its current pose and the thickness that
/// continuous collision detection grants it.
#[derive(Clone, Copy, Debug)]
pub struct SolverBody {
    pub position: Isometry,
    pub ccd_thickness: Real,
}

/// The velocity of one body while the constraints are solved.
#[derive(Clone, Copy, Debug, PartialEq, Eq, Structural)]
pub struct SolverVel {
    pub linear: Vector3,
    pub angular: Vector3,
}

impl SolverVel {
    /// A body at rest.
    pub open spec fn spec_zero() -> SolverVel {
        SolverVel { linear: Vector3::spec_zero(), angular: Vector3::spec_zero() }
    }

    pub fn zero() -> (r: SolverVel)
        ensures
            r == SolverVel::spec_zero(),
    {
        SolverVel { linear: Vector3::zero(), angular: Vector3::zero() }
    }
}

/// The parameters of the time integration that the contact solver reads.
#[derive(Clone, Copy, Debug)]
pub struct IntegrationParameters {
    /// Length of the time step.
    pub dt: Real,
    /// Fraction of the positional error that one step corrects.
    pub erp: Real,
    /// Factor that softens the normal impulses; one leaves them unsoftened.
    pub cfm_factor: Real,
    /// Penetration that is tolerated without correction.
    pub allowed_linear_error: Real,
    /// Largest penetration that one step corrects.
    pub max_penetration_correction: Real,
}

impl IntegrationParameters {
    /// Inverse of the time step, zero for a step of length zero.
    pub open spec fn spec_inv_dt(&self) -> Real {
        self.dt.spec_inv()
    }

    /// Error-reduction rate per unit of time.
    pub open spec fn spec_erp_inv_dt(&self) -> Real {
        self.erp.spec_mul(self.spec_inv_dt())
    }

    pub fn inv_dt(&self) -> (r: Real)
        ensures
            r == self.spec_inv_dt(),
    {
        self.dt.inv()
    }

    pub fn erp_inv_dt(&self) -> (r: Real)
        ensures
            r == self.spec_erp_inv_dt(),
    {
        self.erp.mul(self.inv_dt())
    }

    pub fn cfm_factor(&self) -> (r: Real)
        ensures
            r == self.cfm_factor,
    {
        self.cfm_factor
    }
}

} // verus!
