//! The contact constraint between two dynamic bodies: how it is solved, how
//! its bias is removed, and how its impulses are written back.

use vstd::prelude::*;
use crate::body::SolverVel;
use crate::element::{
    law_friction_cone, law_normal_impulses_nonnegative, law_restitution_pass_at_rest,
    spec_at_rest, spec_solve_group, TwoBodyConstraintElement,
};
use crate::fixed::Real;
use crate::manifold::{
    ContactData, ContactManifold, ContactManifoldIndex, TrackedContact, MAX_MANIFOLD_POINTS,
};
use crate::vector::Vector3;

verus! {

/// The solver's state of the contacts of one manifold, for up to
/// [`MAX_MANIFOLD_POINTS`] of its points.
#[derive(Clone, Copy, Debug)]
pub struct TwoBodyConstraint {
    /// Direction of the non-penetration force on the first body.
    pub dir1: Vector3,
    /// The first of the two friction directions.
    pub tangent1: Vector3,
    /// Inverse mass of the first body along each axis.
    pub im1: Vector3,
    /// Inverse mass of the second body along each axis.
    pub im2: Vector3,
    /// Softening factor of the normal impulses; one leaves them unsoftened.
    pub cfm_factor: Real,
    /// Friction coefficient.
    pub limit: Real,
    /// Index of the first body's velocity in the solver's velocity buffer.
    pub solver_vel1: usize,
    /// Index of the second body's velocity in the solver's velocity buffer.
    pub solver_vel2: usize,
    /// Index of the manifold that the contacts come from.
    pub manifold_id: ContactManifoldIndex,
    /// For each element, the index of its contact among the manifold's points.
    pub manifold_contact_id: [u8; MAX_MANIFOLD_POINTS],
    /// Number of elements in use.
    pub num_contacts: u8,
    pub elements: [TwoBodyConstraintElement; MAX_MANIFOLD_POINTS],
}

impl TwoBodyConstraint {
    /// Whether the number of elements in use fits the constraint.
    pub open spec fn wf(&self) -> bool {
        self.num_contacts <= MAX_MANIFOLD_POINTS
    }

    /// Whether `self` and `other` agree on everything but their elements.
    pub open spec fn same_frame(&self, other: &TwoBodyConstraint) -> bool {
        &&& self.dir1 == other.dir1
        &&& self.tangent1 == other.tangent1
        &&& self.im1 == other.im1
        &&& self.im2 == other.im2
        &&& self.cfm_factor == other.cfm_factor
        &&& self.limit == other.limit
        &&& self.solver_vel1 == other.solver_vel1
        &&& self.solver_vel2 == other.solver_vel2
        &&& self.manifold_id == other.manifold_id
        &&& self.manifold_contact_id == other.manifold_contact_id
        &&& self.num_contacts == other.num_contacts
    }

    /// Whether `self` is the sentinel that stands for no constraint: indices
    /// and counts at their largest values, everything else zero.
    pub open spec fn is_invalid(&self) -> bool {
        &&& self.dir1 == Vector3::spec_zero()
        &&& self.tangent1 == Vector3::spec_zero()
        &&& self.im1 == Vector3::spec_zero()
        &&& self.im2 == Vector3::spec_zero()
        &&& self.cfm_factor == Real::spec_zero()
        &&& self.limit == Real::spec_zero()
        &&& self.solver_vel1 == usize::MAX
        &&& self.solver_vel2 == usize::MAX
        &&& self.manifold_id == usize::MAX
        &&& self.num_contacts == u8::MAX
        &&& forall|k: int|
            0 <= k < MAX_MANIFOLD_POINTS ==> {
                &&& self.manifold_contact_id[k] == u8::MAX
                &&& self.elements[k] == TwoBodyConstraintElement::spec_zero()
            }
    }

    /// Whether `self` is `before` with the softening switched off and the
    /// right-hand side of every element collapsed to its bias-free form.
    pub open spec fn is_debiased(&self, before: &TwoBodyConstraint) -> bool {
        &&& self.dir1 == before.dir1
        &&& self.tangent1 == before.tangent1
        &&& self.im1 == before.im1
        &&& self.im2 == before.im2
        &&& self.cfm_factor == Real::spec_one()
        &&& self.limit == before.limit
        &&& self.solver_vel1 == before.solver_vel1
        &&& self.solver_vel2 == before.solver_vel2
        &&& self.manifold_id == before.manifold_id
        &&& self.manifold_contact_id == before.manifold_contact_id
        &&& self.num_contacts == before.num_contacts
        &&& forall|k: int|
            0 <= k < MAX_MANIFOLD_POINTS ==> self.elements[k]
                == before.elements[k].spec_without_bias()
    }

    /// The elements and the two bodies' velocities after one solve that
    /// starts from the velocities `v1` and `v2`.
    pub open spec fn spec_solve(
        &self,
        v1: SolverVel,
        v2: SolverVel,
        solve_normal: bool,
        solve_friction: bool,
    ) -> (Seq<TwoBodyConstraintElement>, SolverVel, SolverVel) {
        spec_solve_group(
            self.cfm_factor,
            self.elements@,
            self.num_contacts as nat,
            self.dir1,
            self.tangent1,
            self.im1,
            self.im2,
            self.limit,
            v1,
            v2,
            solve_normal,
            solve_friction,
        )
    }

    /// The velocity buffer after one solve: the first body's new velocity is
    /// stored, then the second body's.
    pub open spec fn spec_solved_velocities(
        &self,
        vels: Seq<SolverVel>,
        solve_normal: bool,
        solve_friction: bool,
    ) -> Seq<SolverVel> {
        let s = self.spec_solve(
            vels[self.solver_vel1 as int],
            vels[self.solver_vel2 as int],
            solve_normal,
            solve_friction,
        );
        vels.update(self.solver_vel1 as int, s.1).update(self.solver_vel2 as int, s.2)
    }

    /// The impulses that the element `k` hands to its stored contact.
    pub open spec fn spec_contact_data(&self, k: int) -> ContactData {
        ContactData {
            impulse: self.elements[k].normal_part.impulse,
            tangent_impulse: self.elements[k].tangent_part.impulse,
        }
    }

    /// The stored contacts after the impulses of the first `k` elements were
    /// copied into them, each into the contact that its identifier names.
    pub open spec fn spec_written_back(
        &self,
        points: Seq<TrackedContact>,
        k: nat,
    ) -> Seq<TrackedContact>
        decreases k,
    {
        if k == 0 {
            points
        } else {
            self.spec_written_back(points, (k - 1) as nat).update(
                self.manifold_contact_id[k - 1] as int,
                TrackedContact { data: self.spec_contact_data(k - 1) },
            )
        }
    }

    /// Whether every element in use names a contact that `points` holds.
    pub open spec fn contacts_resolve(&self, points: Seq<TrackedContact>) -> bool {
        forall|k: int| 0 <= k < self.num_contacts ==> self.manifold_contact_id[k] < points.len()
    }

    /// The sentinel that stands for no constraint. It is not well formed, and
    /// is only ever overwritten.
    pub fn invalid() -> (r: TwoBodyConstraint)
        ensures
            r.is_invalid(),
    {
        let id: u8 = u8::MAX;
        let element = TwoBodyConstraintElement::zero();
        TwoBodyConstraint {
            dir1: Vector3::zero(),
            tangent1: Vector3::zero(),
            im1: Vector3::zero(),
            im2: Vector3::zero(),
            cfm_factor: Real::zero(),
            limit: Real::zero(),
            solver_vel1: usize::MAX,
            solver_vel2: usize::MAX,
            manifold_id: usize::MAX,
            manifold_contact_id: [id; MAX_MANIFOLD_POINTS],
            num_contacts: u8::MAX,
            elements: [element; MAX_MANIFOLD_POINTS],
        }
    }

    /// Solves the constraint once against the velocities of its two bodies,
    /// read from and stored back into `solver_vels` in place, so that the
    /// next constraint that shares a body sees what this one left. The
    /// normal parts are solved where `solve_normal` is set, the friction
    /// parts where `solve_friction` is set.
    pub fn solve(
        &mut self,
        solver_vels: &mut [SolverVel],
        solve_normal: bool,
        solve_friction: bool,
    )
        requires
            old(self).wf(),
            old(self).solver_vel1 < old(solver_vels)@.len(),
            old(self).solver_vel2 < old(solver_vels)@.len(),
        ensures
            final(self).same_frame(old(self)),
            final(self).elements@ == old(self).spec_solve(
                old(solver_vels)@[old(self).solver_vel1 as int],
                old(solver_vels)@[old(self).solver_vel2 as int],
                solve_normal,
                solve_friction,
            ).0,
            final(solver_vels)@ == old(self).spec_solved_velocities(
                old(solver_vels)@,
                solve_normal,
                solve_friction,
            ),
            final(self).solved_admissibly(old(self), solve_normal, solve_friction),
    {
        let mut solver_vel1 = solver_vels[self.solver_vel1];
        let mut solver_vel2 = solver_vels[self.solver_vel2];
        let dir1 = self.dir1;
        let tangent1 = self.tangent1;
        let im1 = self.im1;
        let im2 = self.im2;
        proof {
            if self.cfm_factor@ >= 0 && (solve_normal || self.pulls_nowhere()) {
                law_normal_impulses_nonnegative(
                    self.cfm_factor,
                    self.elements@,
                    self.num_contacts as nat,
                    dir1,
                    tangent1,
                    im1,
                    im2,
                    self.limit,
                    solver_vel1,
                    solver_vel2,
                    solve_normal,
                    solve_friction,
                );
                if self.limit@ >= 0 && (solve_normal || solve_friction) {
                    law_friction_cone(
                        self.cfm_factor,
                        self.elements@,
                        self.num_contacts as nat,
                        dir1,
                        tangent1,
                        im1,
                        im2,
                        self.limit,
                        solver_vel1,
                        solver_vel2,
                        solve_normal,
                        solve_friction,
                    );
                }
            }
        }

        TwoBodyConstraintElement::solve_group(
            self.cfm_factor,
            &mut self.elements,
            self.num_contacts as usize,
            &dir1,
            &tangent1,
            &im1,
            &im2,
            self.limit,
            &mut solver_vel1,
            &mut solver_vel2,
            solve_normal,
            solve_friction,
        );

        solver_vels[self.solver_vel1] = solver_vel1;
        solver_vels[self.solver_vel2] = solver_vel2;
    }

    /// Whether a solve that led from `before` to `self` left admissible
    /// impulses. Under a non-negative softening factor no contact pulls after
    /// a solve that includes the normal parts, or after any solve that
    /// started without a pulling contact. Under a non-negative friction
    /// coefficient as well, every friction impulse then lies in its cone,
    /// unless nothing was solved.
    pub open spec fn solved_admissibly(
        &self,
        before: &TwoBodyConstraint,
        solve_normal: bool,
        solve_friction: bool,
    ) -> bool {
        &&& before.cfm_factor@ >= 0 && (solve_normal || before.pulls_nowhere())
            ==> self.pulls_nowhere()
        &&& before.cfm_factor@ >= 0 && before.limit@ >= 0 && (solve_normal || (solve_friction
            && before.pulls_nowhere())) ==> self.within_cone()
    }

    /// Whether no contact in use pulls the bodies together.
    pub open spec fn pulls_nowhere(&self) -> bool {
        forall|k: int| 0 <= k < self.num_contacts ==> self.elements[k].normal_part.impulse@ >= 0
    }

    /// Whether the friction impulse of every contact in use is no longer
    /// than the friction coefficient times the contact's normal impulse.
    pub open spec fn within_cone(&self) -> bool {
        forall|k: int|
            0 <= k < self.num_contacts ==> self.elements[k].tangent_part.impulse.within(
                self.limit.spec_mul(self.elements[k].normal_part.impulse),
            )
    }

    /// Copies the impulses of the elements in use into the stored contacts of
    /// the constraint's manifold, each into the contact that its identifier
    /// names. Nothing is recomputed, and nothing else is touched.
    pub fn writeback_impulses(&self, manifolds_all: &mut [&mut ContactManifold])
        requires
            self.wf(),
            self.manifold_id < old(manifolds_all)@.len(),
            self.contacts_resolve(old(manifolds_all)@[self.manifold_id as int].points@),
        ensures
            final(manifolds_all)@.len() == old(manifolds_all)@.len(),
            forall|i: int|
                0 <= i < old(manifolds_all)@.len() ==> *final(final(manifolds_all)@[i])
                    == *final(old(manifolds_all)@[i]),
            forall|i: int|
                0 <= i < old(manifolds_all)@.len() && i != self.manifold_id
                    ==> *final(manifolds_all)@[i] == *old(manifolds_all)@[i],
            final(manifolds_all)@[self.manifold_id as int].data
                == old(manifolds_all)@[self.manifold_id as int].data,
            final(manifolds_all)@[self.manifold_id as int].points@ == self.spec_written_back(
                old(manifolds_all)@[self.manifold_id as int].points@,
                self.num_contacts as nat,
            ),
    {
        self.writeback_into(manifolds_all[self.manifold_id]);
    }

    /// Copies the impulses of the elements in use into the stored contacts of
    /// `manifold`, each into the contact that its identifier names.
    pub fn writeback_into(&self, manifold: &mut ContactManifold)
        requires
            self.wf(),
            self.contacts_resolve(old(manifold).points@),
        ensures
            final(manifold).data == old(manifold).data,
            final(manifold).points@ == self.spec_written_back(
                old(manifold).points@,
                self.num_contacts as nat,
            ),
    {
        let ghost start = manifold.points@;
        let num = self.num_contacts as usize;
        let mut k: usize = 0;
        while k < num
            invariant
                k <= num == self.num_contacts <= MAX_MANIFOLD_POINTS,
                self.contacts_resolve(start),
                manifold.data == old(manifold).data,
                manifold.points@.len() == start.len(),
                manifold.points@ == self.spec_written_back(start, k as nat),
            decreases num - k,
        {
            let contact_id = self.manifold_contact_id[k];
            let ghost before = manifold.points@;
            manifold.points[contact_id as usize].data.impulse = self.elements[k].normal_part.impulse;
            manifold.points[contact_id as usize].data.tangent_impulse =
                self.elements[k].tangent_part.impulse;
            assert(manifold.points@ =~= before.update(
                contact_id as int,
                TrackedContact { data: self.spec_contact_data(k as int) },
            ));
            k += 1;
        }
    }

    /// Switches the softening off and collapses the right-hand side of every
    /// element, in use or not, to its bias-free form. The impulses are left
    /// as they are: a solve that follows starts from the impulse of the
    /// substep, not from the accumulated one.
    pub fn remove_cfm_and_bias_from_rhs(&mut self)
        ensures
            final(self).is_debiased(old(self)),
    {
        self.cfm_factor = Real::one();
        let mut k: usize = 0;
        while k < MAX_MANIFOLD_POINTS
            invariant
                k <= MAX_MANIFOLD_POINTS,
                self.same_frame(&TwoBodyConstraint { cfm_factor: Real::spec_one(), ..*old(self) }),
                forall|i: int|
                    0 <= i < k ==> self.elements[i] == old(self).elements[i].spec_without_bias(),
                forall|i: int| k <= i < MAX_MANIFOLD_POINTS ==> self.elements[i] == old(self).elements[i],
            decreases MAX_MANIFOLD_POINTS - k,
        {
            self.elements[k].normal_part.rhs = self.elements[k].normal_part.rhs_wo_bias;
            self.elements[k].tangent_part.rhs = self.elements[k].tangent_part.rhs_wo_bias;
            k += 1;
        }
    }
}

/// Removing the bias twice in a row gives what removing it once gives.
pub proof fn law_debias_idempotent(
    start: TwoBodyConstraint,
    once: TwoBodyConstraint,
    twice: TwoBodyConstraint,
)
    requires
        once.is_debiased(&start),
        twice.is_debiased(&once),
    ensures
        twice == once,
{
    assert(twice.elements =~= once.elements);
}

/// Restitution pass isolation: once the bias is removed, a solve of the
/// normal parts alone changes neither the elements nor the velocities of a
/// constraint whose contacts are at rest, whatever their restitution
/// coefficients were.
pub proof fn law_restitution_pass_isolation(
    constraint: TwoBodyConstraint,
    debiased: TwoBodyConstraint,
    v1: SolverVel,
    v2: SolverVel,
)
    requires
        constraint.wf(),
        debiased.is_debiased(&constraint),
        forall|k: int|
            0 <= k < constraint.num_contacts ==> spec_at_rest(
                #[trigger] constraint.elements[k].spec_without_bias(),
                constraint.dir1,
                constraint.limit,
                v1,
                v2,
            ),
    ensures
        debiased.spec_solve(v1, v2, true, false) == (debiased.elements@, v1, v2),
{
    assert forall|i: int| 0 <= i < debiased.num_contacts implies spec_at_rest(
        #[trigger] debiased.elements@[i],
        debiased.dir1,
        debiased.limit,
        v1,
        v2,
    ) by {
        assert(debiased.elements[i] == constraint.elements[i].spec_without_bias());
    }
    law_restitution_pass_at_rest(
        debiased.elements@,
        debiased.num_contacts as nat,
        debiased.dir1,
        debiased.tangent1,
        debiased.im1,
        debiased.im2,
        debiased.limit,
        v1,
        v2,
    );
}

/// Writing back keeps the number of stored contacts and touches only the
/// contacts that the elements in use name.
pub proof fn lemma_written_back_frame(
    constraint: TwoBodyConstraint,
    points: Seq<TrackedContact>,
    k: nat,
)
    requires
        k <= constraint.num_contacts <= MAX_MANIFOLD_POINTS,
        constraint.contacts_resolve(points),
    ensures
        constraint.spec_written_back(points, k).len() == points.len(),
        forall|i: int|
            0 <= i < points.len() && (forall|j: int|
                0 <= j < k ==> constraint.manifold_contact_id[j] != i)
                ==> constraint.spec_written_back(points, k)[i] == points[i],
    decreases k,
{
    if k > 0 {
        lemma_written_back_frame(constraint, points, (k - 1) as nat);
    }
}

/// Writing back is a pure copy: afterwards the contact that an element names
/// holds that element's impulses as they are, unless a later element names
/// the same contact.
pub proof fn law_writeback_copies(
    constraint: TwoBodyConstraint,
    points: Seq<TrackedContact>,
    k: nat,
    e: int,
)
    requires
        k <= constraint.num_contacts <= MAX_MANIFOLD_POINTS,
        constraint.contacts_resolve(points),
        0 <= e < k,
        forall|j: int|
            e < j < k ==> constraint.manifold_contact_id[j] != constraint.manifold_contact_id[e],
    ensures
        constraint.spec_written_back(points, k)[constraint.manifold_contact_id[e] as int].data
            == constraint.spec_contact_data(e),
    decreases k,
{
    lemma_written_back_frame(constraint, points, (k - 1) as nat);
    if e < k - 1 {
        law_writeback_copies(constraint, points, (k - 1) as nat, e);
    }
}

/// Writeback round trip: where the stored contacts already hold the
/// impulses of the elements that name them, as they do when nothing was
/// solved since the impulses were last exchanged, writing back changes
/// nothing.
pub proof fn law_writeback_round_trip(
    constraint: TwoBodyConstraint,
    points: Seq<TrackedContact>,
    k: nat,
)
    requires
        k <= constraint.num_contacts <= MAX_MANIFOLD_POINTS,
        constraint.contacts_resolve(points),
        forall|j: int|
            0 <= j < k ==> points[constraint.manifold_contact_id[j] as int].data
                == #[trigger] constraint.spec_contact_data(j),
    ensures
        constraint.spec_written_back(points, k) == points,
    decreases k,
{
    if k > 0 {
        law_writeback_round_trip(constraint, points, (k - 1) as nat);
        let id = constraint.manifold_contact_id[k - 1] as int;
        assert(points[id].data == constraint.spec_contact_data(k - 1));
        assert(points.update(id, TrackedContact { data: constraint.spec_contact_data(k - 1) })
            =~= points);
    }
}

} // verus!
