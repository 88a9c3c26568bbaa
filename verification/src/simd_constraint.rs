//! Batches of independent contact constraints that are solved in lockstep.

use vstd::prelude::*;
use crate::body::SolverVel;
use crate::element::{
    law_friction_cone, law_normal_impulses_nonnegative, TwoBodyConstraintElement,
};
use crate::manifold::ContactManifold;
use crate::one_body_constraint::OneBodyConstraint;
use crate::tangent::LANES;
use crate::two_body_constraint::TwoBodyConstraint;
use crate::vector::Vector3;

verus! {

/// A batch of two-body constraints, one per lane. A solve loads the
/// velocities of all lanes, solves every lane, and stores the velocities of
/// all lanes.
#[derive(Clone, Copy, Debug)]
pub struct TwoBodyConstraintSimd {
    pub lanes: [TwoBodyConstraint; LANES],
}

impl TwoBodyConstraintSimd {
    /// Whether every lane is well formed.
    pub open spec fn wf(&self) -> bool {
        forall|lane: int| 0 <= lane < LANES ==> (#[trigger] self.lanes[lane]).wf()
    }

    /// Whether the bodies of every lane have their velocities in a buffer of
    /// `len` velocities.
    pub open spec fn in_range(&self, len: nat) -> bool {
        forall|lane: int|
            0 <= lane < LANES ==> (#[trigger] self.lanes[lane]).solver_vel1 < len
                && self.lanes[lane].solver_vel2 < len
    }

    /// Whether no body of one lane is a body of another lane.
    pub open spec fn independent(&self) -> bool {
        forall|a: int, b: int|
            0 <= a < LANES && 0 <= b < LANES && a != b ==> {
                &&& (#[trigger] self.lanes[a]).solver_vel1 != (#[trigger] self.lanes[b]).solver_vel1
                &&& self.lanes[a].solver_vel1 != self.lanes[b].solver_vel2
                &&& self.lanes[a].solver_vel2 != self.lanes[b].solver_vel2
            }
    }

    /// What the solve of the lane `lane` gives from the velocities that
    /// `vels` holds for its bodies.
    pub open spec fn spec_lane_solve(
        &self,
        lane: int,
        vels: Seq<SolverVel>,
        solve_normal: bool,
        solve_friction: bool,
    ) -> (Seq<TwoBodyConstraintElement>, SolverVel, SolverVel) {
        self.lanes[lane].spec_solve(
            vels[self.lanes[lane].solver_vel1 as int],
            vels[self.lanes[lane].solver_vel2 as int],
            solve_normal,
            solve_friction,
        )
    }

    /// The buffer `into` after the first `k` lanes stored the velocities of
    /// their first bodies, as solved from `vels`.
    pub open spec fn spec_stored_first(
        &self,
        into: Seq<SolverVel>,
        vels: Seq<SolverVel>,
        k: nat,
        solve_normal: bool,
        solve_friction: bool,
    ) -> Seq<SolverVel>
        decreases k,
    {
        if k == 0 {
            into
        } else {
            self.spec_stored_first(into, vels, (k - 1) as nat, solve_normal, solve_friction).update(
                self.lanes[k - 1].solver_vel1 as int,
                self.spec_lane_solve(k - 1, vels, solve_normal, solve_friction).1,
            )
        }
    }

    /// The buffer `into` after the first `k` lanes stored the velocities of
    /// their second bodies, as solved from `vels`.
    pub open spec fn spec_stored_second(
        &self,
        into: Seq<SolverVel>,
        vels: Seq<SolverVel>,
        k: nat,
        solve_normal: bool,
        solve_friction: bool,
    ) -> Seq<SolverVel>
        decreases k,
    {
        if k == 0 {
            into
        } else {
            self.spec_stored_second(
                into,
                vels,
                (k - 1) as nat,
                solve_normal,
                solve_friction,
            ).update(
                self.lanes[k - 1].solver_vel2 as int,
                self.spec_lane_solve(k - 1, vels, solve_normal, solve_friction).2,
            )
        }
    }

    /// The velocity buffer after one solve of the batch: every lane is
    /// solved from the velocities that `vels` holds, then the first bodies'
    /// velocities are stored lane by lane, then the second bodies'.
    pub open spec fn spec_solved_velocities(
        &self,
        vels: Seq<SolverVel>,
        solve_normal: bool,
        solve_friction: bool,
    ) -> Seq<SolverVel> {
        self.spec_stored_second(
            self.spec_stored_first(vels, vels, LANES as nat, solve_normal, solve_friction),
            vels,
            LANES as nat,
            solve_normal,
            solve_friction,
        )
    }

    /// The velocity buffer after the first `k` lanes were solved one after
    /// the other as single constraints, each from what the one before left.
    pub open spec fn spec_solved_one_by_one(
        &self,
        vels: Seq<SolverVel>,
        k: nat,
        solve_normal: bool,
        solve_friction: bool,
    ) -> Seq<SolverVel>
        decreases k,
    {
        if k == 0 {
            vels
        } else {
            self.lanes[k - 1].spec_solved_velocities(
                self.spec_solved_one_by_one(vels, (k - 1) as nat, solve_normal, solve_friction),
                solve_normal,
                solve_friction,
            )
        }
    }

    /// Whether every lane can write its impulses into `manifolds`: its
    /// manifold is among them, and every element in use names a contact that
    /// the manifold stores.
    pub open spec fn writable(&self, manifolds: Seq<&mut ContactManifold>) -> bool {
        forall|lane: int|
            0 <= lane < LANES ==> {
                &&& (#[trigger] self.lanes[lane]).manifold_id < manifolds.len()
                &&& self.lanes[lane].contacts_resolve(
                    manifolds[self.lanes[lane].manifold_id as int].points@,
                )
            }
    }

    /// Solves every lane once against the velocities of its two bodies.
    pub fn solve(
        &mut self,
        solver_vels: &mut [SolverVel],
        solve_normal: bool,
        solve_friction: bool,
    )
        requires
            old(self).wf(),
            old(self).in_range(old(solver_vels)@.len()),
        ensures
            forall|lane: int|
                0 <= lane < LANES ==> {
                    &&& (#[trigger] final(self).lanes[lane]).same_frame(&old(self).lanes[lane])
                    &&& final(self).lanes[lane].solved_admissibly(
                        &old(self).lanes[lane],
                        solve_normal,
                        solve_friction,
                    )
                },
            forall|lane: int|
                0 <= lane < LANES ==> final(self).lanes[lane].elements@ == (#[trigger] old(
                    self,
                ).spec_lane_solve(lane, old(solver_vels)@, solve_normal, solve_friction)).0,
            final(solver_vels)@ == old(self).spec_solved_velocities(
                old(solver_vels)@,
                solve_normal,
                solve_friction,
            ),
    {
        let ghost start = solver_vels@;
        let zero = SolverVel::zero();
        let mut vel1 = [zero; LANES];
        let mut vel2 = [zero; LANES];

        let mut lane: usize = 0;
        while lane < LANES
            invariant
                lane <= LANES,
                old(self).wf(),
                old(self).in_range(start.len()),
                solver_vels@ == start,
                forall|i: int| lane <= i < LANES ==> self.lanes[i] == old(self).lanes[i],
                forall|i: int|
                    0 <= i < lane ==> {
                        &&& (#[trigger] self.lanes[i]).same_frame(&old(self).lanes[i])
                        &&& self.lanes[i].solved_admissibly(
                            &old(self).lanes[i],
                            solve_normal,
                            solve_friction,
                        )
                    },
                forall|i: int|
                    0 <= i < lane ==> (self.lanes[i].elements@, vel1[i], vel2[i]) == (
                    #[trigger] old(self).spec_lane_solve(i, start, solve_normal, solve_friction)),
            decreases LANES - lane,
        {
            assert(old(self).lanes[lane as int].wf());
            let mut constraint = self.lanes[lane];
            let mut solver_vel1 = solver_vels[constraint.solver_vel1];
            let mut solver_vel2 = solver_vels[constraint.solver_vel2];
            let dir1 = constraint.dir1;
            let tangent1 = constraint.tangent1;
            let im1 = constraint.im1;
            let im2 = constraint.im2;
            proof {
                lemma_solved_admissibly(
                    constraint,
                    im1,
                    solver_vel1,
                    solver_vel2,
                    solve_normal,
                    solve_friction,
                );
            }
            TwoBodyConstraintElement::solve_group(
                constraint.cfm_factor,
                &mut constraint.elements,
                constraint.num_contacts as usize,
                &dir1,
                &tangent1,
                &im1,
                &im2,
                constraint.limit,
                &mut solver_vel1,
                &mut solver_vel2,
                solve_normal,
                solve_friction,
            );
            self.lanes[lane] = constraint;
            vel1[lane] = solver_vel1;
            vel2[lane] = solver_vel2;
            lane += 1;
        }

        let mut lane: usize = 0;
        while lane < LANES
            invariant
                lane <= LANES,
                old(self).in_range(start.len()),
                solver_vels@.len() == start.len(),
                forall|i: int|
                    0 <= i < LANES ==> {
                        &&& (#[trigger] self.lanes[i]).same_frame(&old(self).lanes[i])
                        &&& self.lanes[i].solved_admissibly(
                            &old(self).lanes[i],
                            solve_normal,
                            solve_friction,
                        )
                    },
                forall|i: int|
                    0 <= i < LANES ==> (self.lanes[i].elements@, vel1[i], vel2[i]) == (
                    #[trigger] old(self).spec_lane_solve(i, start, solve_normal, solve_friction)),
                solver_vels@ == old(self).spec_stored_first(
                    start,
                    start,
                    lane as nat,
                    solve_normal,
                    solve_friction,
                ),
            decreases LANES - lane,
        {
            assert(self.lanes[lane as int].same_frame(&old(self).lanes[lane as int]));
            assert(old(self).lanes[lane as int].solver_vel1 < start.len());
            solver_vels[self.lanes[lane].solver_vel1] = vel1[lane];
            lane += 1;
        }

        let ghost middle = solver_vels@;
        let mut lane: usize = 0;
        while lane < LANES
            invariant
                lane <= LANES,
                old(self).in_range(start.len()),
                solver_vels@.len() == start.len(),
                forall|i: int|
                    0 <= i < LANES ==> {
                        &&& (#[trigger] self.lanes[i]).same_frame(&old(self).lanes[i])
                        &&& self.lanes[i].solved_admissibly(
                            &old(self).lanes[i],
                            solve_normal,
                            solve_friction,
                        )
                    },
                forall|i: int|
                    0 <= i < LANES ==> (self.lanes[i].elements@, vel1[i], vel2[i]) == (
                    #[trigger] old(self).spec_lane_solve(i, start, solve_normal, solve_friction)),
                solver_vels@ == old(self).spec_stored_second(
                    middle,
                    start,
                    lane as nat,
                    solve_normal,
                    solve_friction,
                ),
            decreases LANES - lane,
        {
            assert(self.lanes[lane as int].same_frame(&old(self).lanes[lane as int]));
            assert(old(self).lanes[lane as int].solver_vel2 < start.len());
            solver_vels[self.lanes[lane].solver_vel2] = vel2[lane];
            lane += 1;
        }
    }

    /// Copies the impulses of every lane into the stored contacts of the
    /// lane's manifold, lane by lane.
    pub fn writeback_impulses(&self, manifolds_all: &mut [&mut ContactManifold])
        requires
            self.wf(),
            self.writable(old(manifolds_all)@),
        ensures
            final(manifolds_all)@.len() == old(manifolds_all)@.len(),
            forall|i: int|
                0 <= i < old(manifolds_all)@.len() ==> *final(final(manifolds_all)@[i])
                    == *final(old(manifolds_all)@[i]),
            forall|i: int|
                0 <= i < old(manifolds_all)@.len() ==> {
                    &&& final(manifolds_all)@[i].data == old(manifolds_all)@[i].data
                    &&& final(manifolds_all)@[i].points@ == self.spec_written_back(
                        i,
                        old(manifolds_all)@[i].points@,
                        LANES as nat,
                    )
                },
    {
        let mut lane: usize = 0;
        while lane < LANES
            invariant
                lane <= LANES,
                self.wf(),
                manifolds_all@.len() == old(manifolds_all)@.len(),
                self.writable(old(manifolds_all)@),
                forall|i: int|
                    0 <= i < manifolds_all@.len() ==> *final(manifolds_all@[i])
                        == *final(old(manifolds_all)@[i]),
                forall|i: int|
                    0 <= i < manifolds_all@.len() ==> {
                        &&& manifolds_all@[i].data == old(manifolds_all)@[i].data
                        &&& manifolds_all@[i].points@.len() == old(manifolds_all)@[i].points@.len()
                        &&& manifolds_all@[i].points@ == self.spec_written_back(
                            i,
                            old(manifolds_all)@[i].points@,
                            lane as nat,
                        )
                    },
            decreases LANES - lane,
        {
            let ghost id = self.lanes[lane as int].manifold_id as int;
            assert(self.lanes[lane as int].wf());
            assert(self.lanes[lane as int].contacts_resolve(old(manifolds_all)@[id].points@));
            assert(manifolds_all@[id].points@.len() == old(manifolds_all)@[id].points@.len());
            self.lanes[lane].writeback_impulses(manifolds_all);
            proof {
                crate::two_body_constraint::lemma_written_back_frame(
                    self.lanes[lane as int],
                    self.spec_written_back(id, old(manifolds_all)@[id].points@, lane as nat),
                    self.lanes[lane as int].num_contacts as nat,
                );
            }
            lane += 1;
        }
    }

    /// The stored contacts `points` of the manifold `id` after the first `k`
    /// lanes wrote their impulses back: every lane that belongs to the
    /// manifold copies its impulses, in the order of the lanes.
    pub open spec fn spec_written_back(
        &self,
        id: int,
        points: Seq<crate::manifold::TrackedContact>,
        k: nat,
    ) -> Seq<crate::manifold::TrackedContact>
        decreases k,
    {
        if k == 0 {
            points
        } else {
            let before = self.spec_written_back(id, points, (k - 1) as nat);
            if self.lanes[k - 1].manifold_id == id {
                self.lanes[k - 1].spec_written_back(before, self.lanes[k - 1].num_contacts as nat)
            } else {
                before
            }
        }
    }

    /// Switches the softening off in every lane and collapses every
    /// right-hand side to its bias-free form.
    pub fn remove_cfm_and_bias_from_rhs(&mut self)
        ensures
            forall|lane: int|
                0 <= lane < LANES ==> (#[trigger] final(self).lanes[lane]).is_debiased(
                    &old(self).lanes[lane],
                ),
    {
        let mut lane: usize = 0;
        while lane < LANES
            invariant
                lane <= LANES,
                forall|i: int|
                    0 <= i < lane ==> (#[trigger] self.lanes[i]).is_debiased(&old(self).lanes[i]),
                forall|i: int| lane <= i < LANES ==> self.lanes[i] == old(self).lanes[i],
            decreases LANES - lane,
        {
            let mut constraint = self.lanes[lane];
            constraint.remove_cfm_and_bias_from_rhs();
            self.lanes[lane] = constraint;
            lane += 1;
        }
    }
}

/// Whether no body of the first `k` lanes of `batch` has the index `j`.
pub open spec fn spec_untouched(batch: TwoBodyConstraintSimd, j: int, k: nat) -> bool {
    forall|lane: int|
        0 <= lane < k ==> (#[trigger] batch.lanes[lane]).solver_vel1 != j
            && batch.lanes[lane].solver_vel2 != j
}

/// What solving the first `k` lanes of independent constraints one by one
/// leaves in the velocity buffer: each of their bodies has the velocity that
/// its lane's solve gives from the velocities at the start, and every other
/// velocity is as it was.
pub proof fn lemma_solved_one_by_one(
    batch: TwoBodyConstraintSimd,
    vels: Seq<SolverVel>,
    k: nat,
    solve_normal: bool,
    solve_friction: bool,
)
    requires
        k <= LANES,
        batch.in_range(vels.len()),
        batch.independent(),
    ensures
        ({
            let after = batch.spec_solved_one_by_one(vels, k, solve_normal, solve_friction);
            &&& after.len() == vels.len()
            &&& forall|j: int|
                0 <= j < vels.len() && spec_untouched(batch, j, k) ==> after[j] == vels[j]
            &&& forall|lane: int|
                0 <= lane < k ==> {
                    let solved = #[trigger] batch.spec_lane_solve(
                        lane,
                        vels,
                        solve_normal,
                        solve_friction,
                    );
                    &&& after[batch.lanes[lane].solver_vel2 as int] == solved.2
                    &&& batch.lanes[lane].solver_vel1 != batch.lanes[lane].solver_vel2
                        ==> after[batch.lanes[lane].solver_vel1 as int] == solved.1
                }
        }),
    decreases k,
{
    if k > 0 {
        let last = (k - 1) as int;
        lemma_solved_one_by_one(batch, vels, (k - 1) as nat, solve_normal, solve_friction);
        let before = batch.spec_solved_one_by_one(
            vels,
            (k - 1) as nat,
            solve_normal,
            solve_friction,
        );
        let c = batch.lanes[last];
        assert(spec_untouched(batch, c.solver_vel1 as int, (k - 1) as nat)) by {
            assert forall|lane: int| 0 <= lane < k - 1 implies (#[trigger] batch.lanes[lane]).solver_vel1
                != c.solver_vel1 && batch.lanes[lane].solver_vel2 != c.solver_vel1 by {
                assert(batch.lanes[lane].solver_vel1 != batch.lanes[last].solver_vel1);
                assert(batch.lanes[last].solver_vel1 != batch.lanes[lane].solver_vel2);
            }
        }
        assert(spec_untouched(batch, c.solver_vel2 as int, (k - 1) as nat)) by {
            assert forall|lane: int| 0 <= lane < k - 1 implies (#[trigger] batch.lanes[lane]).solver_vel1
                != c.solver_vel2 && batch.lanes[lane].solver_vel2 != c.solver_vel2 by {
                assert(batch.lanes[lane].solver_vel1 != batch.lanes[last].solver_vel2);
                assert(batch.lanes[lane].solver_vel2 != batch.lanes[last].solver_vel2);
            }
        }
        let after = batch.spec_solved_one_by_one(vels, k, solve_normal, solve_friction);
        assert forall|j: int| 0 <= j < vels.len() && spec_untouched(batch, j, k) implies after[j]
            == vels[j] by {
            assert(batch.lanes[last].solver_vel1 != j);
            assert(spec_untouched(batch, j, (k - 1) as nat));
        }
        assert forall|lane: int| 0 <= lane < k implies ({
            let solved = #[trigger] batch.spec_lane_solve(lane, vels, solve_normal, solve_friction);
            &&& after[batch.lanes[lane].solver_vel2 as int] == solved.2
            &&& batch.lanes[lane].solver_vel1 != batch.lanes[lane].solver_vel2
                ==> after[batch.lanes[lane].solver_vel1 as int] == solved.1
        }) by {
            if lane < last {
                assert(batch.lanes[lane].solver_vel1 != batch.lanes[last].solver_vel1);
                assert(batch.lanes[lane].solver_vel1 != batch.lanes[last].solver_vel2);
                assert(batch.lanes[last].solver_vel1 != batch.lanes[lane].solver_vel2);
                assert(batch.lanes[lane].solver_vel2 != batch.lanes[last].solver_vel2);
            }
        }
    }
}

/// What the stores of a batch of independent constraints leave in the
/// velocity buffer after the first `k` lanes stored their first bodies'
/// velocities, and after they stored their second bodies' on top of `into`.
pub proof fn lemma_stored(
    batch: TwoBodyConstraintSimd,
    into: Seq<SolverVel>,
    vels: Seq<SolverVel>,
    k: nat,
    solve_normal: bool,
    solve_friction: bool,
)
    requires
        k <= LANES,
        into.len() == vels.len(),
        batch.in_range(vels.len()),
        batch.independent(),
    ensures
        ({
            let first = batch.spec_stored_first(into, vels, k, solve_normal, solve_friction);
            let second = batch.spec_stored_second(into, vels, k, solve_normal, solve_friction);
            &&& first.len() == vels.len()
            &&& second.len() == vels.len()
            &&& forall|j: int|
                0 <= j < vels.len() && (forall|lane: int|
                    0 <= lane < k ==> (#[trigger] batch.lanes[lane]).solver_vel1 != j)
                    ==> first[j] == into[j]
            &&& forall|j: int|
                0 <= j < vels.len() && (forall|lane: int|
                    0 <= lane < k ==> (#[trigger] batch.lanes[lane]).solver_vel2 != j)
                    ==> second[j] == into[j]
            &&& forall|lane: int|
                0 <= lane < k ==> {
                    let solved = #[trigger] batch.spec_lane_solve(
                        lane,
                        vels,
                        solve_normal,
                        solve_friction,
                    );
                    &&& first[batch.lanes[lane].solver_vel1 as int] == solved.1
                    &&& second[batch.lanes[lane].solver_vel2 as int] == solved.2
                }
        }),
    decreases k,
{
    if k > 0 {
        let last = (k - 1) as int;
        lemma_stored(batch, into, vels, (k - 1) as nat, solve_normal, solve_friction);
        let first = batch.spec_stored_first(into, vels, k, solve_normal, solve_friction);
        let second = batch.spec_stored_second(into, vels, k, solve_normal, solve_friction);
        assert forall|lane: int| 0 <= lane < k implies ({
            let solved = #[trigger] batch.spec_lane_solve(lane, vels, solve_normal, solve_friction);
            &&& first[batch.lanes[lane].solver_vel1 as int] == solved.1
            &&& second[batch.lanes[lane].solver_vel2 as int] == solved.2
        }) by {
            if lane < last {
                assert(batch.lanes[lane].solver_vel1 != batch.lanes[last].solver_vel1);
                assert(batch.lanes[lane].solver_vel2 != batch.lanes[last].solver_vel2);
            }
        }
    }
}

/// Batch equivalence: for constraints that share no body, solving the batch
/// gives every lane the elements and velocities that solving it as a single
/// constraint gives, and leaves the velocity buffer as solving the lanes one
/// by one leaves it.
pub proof fn law_batch_equivalence(
    batch: TwoBodyConstraintSimd,
    vels: Seq<SolverVel>,
    solve_normal: bool,
    solve_friction: bool,
)
    requires
        batch.in_range(vels.len()),
        batch.independent(),
    ensures
        batch.spec_solved_velocities(vels, solve_normal, solve_friction)
            == batch.spec_solved_one_by_one(vels, LANES as nat, solve_normal, solve_friction),
        forall|lane: int|
            0 <= lane < LANES ==> #[trigger] batch.spec_lane_solve(
                lane,
                vels,
                solve_normal,
                solve_friction,
            ) == batch.lanes[lane].spec_solve(
                batch.spec_solved_one_by_one(vels, lane as nat, solve_normal, solve_friction)[batch.lanes[lane].solver_vel1 as int],
                batch.spec_solved_one_by_one(vels, lane as nat, solve_normal, solve_friction)[batch.lanes[lane].solver_vel2 as int],
                solve_normal,
                solve_friction,
            ),
{
    let n = LANES as nat;
    let first = batch.spec_stored_first(vels, vels, n, solve_normal, solve_friction);
    let batched = batch.spec_solved_velocities(vels, solve_normal, solve_friction);
    let single = batch.spec_solved_one_by_one(vels, n, solve_normal, solve_friction);
    lemma_stored(batch, vels, vels, n, solve_normal, solve_friction);
    lemma_stored(batch, first, vels, n, solve_normal, solve_friction);
    lemma_solved_one_by_one(batch, vels, n, solve_normal, solve_friction);
    assert forall|j: int| 0 <= j < vels.len() implies batched[j] == single[j] by {
        if exists|lane: int| 0 <= lane < n && (#[trigger] batch.lanes[lane]).solver_vel2 == j {
            let lane = choose|lane: int|
                0 <= lane < n && (#[trigger] batch.lanes[lane]).solver_vel2 == j;
            let solved = batch.spec_lane_solve(lane, vels, solve_normal, solve_friction);
            assert(batched[j] == solved.2);
            assert(single[j] == solved.2);
        } else if exists|lane: int|
            0 <= lane < n && (#[trigger] batch.lanes[lane]).solver_vel1 == j {
            let lane = choose|lane: int|
                0 <= lane < n && (#[trigger] batch.lanes[lane]).solver_vel1 == j;
            let solved = batch.spec_lane_solve(lane, vels, solve_normal, solve_friction);
            assert(batched[j] == first[j]);
            assert(first[j] == solved.1);
            assert(single[j] == solved.1);
        } else {
            assert(spec_untouched(batch, j, n));
            assert(batched[j] == first[j]);
            assert(first[j] == vels[j]);
        }
    }
    assert(batched =~= single);
    assert forall|lane: int| 0 <= lane < LANES implies #[trigger] batch.spec_lane_solve(
        lane,
        vels,
        solve_normal,
        solve_friction,
    ) == batch.lanes[lane].spec_solve(
        batch.spec_solved_one_by_one(vels, lane as nat, solve_normal, solve_friction)[batch.lanes[lane].solver_vel1 as int],
        batch.spec_solved_one_by_one(vels, lane as nat, solve_normal, solve_friction)[batch.lanes[lane].solver_vel2 as int],
        solve_normal,
        solve_friction,
    ) by {
        lemma_solved_one_by_one(batch, vels, lane as nat, solve_normal, solve_friction);
        let c = batch.lanes[lane];
        assert(spec_untouched(batch, c.solver_vel1 as int, lane as nat)) by {
            assert forall|l: int| 0 <= l < lane implies (#[trigger] batch.lanes[l]).solver_vel1
                != c.solver_vel1 && batch.lanes[l].solver_vel2 != c.solver_vel1 by {
                assert(batch.lanes[l].solver_vel1 != batch.lanes[lane].solver_vel1);
                assert(batch.lanes[lane].solver_vel1 != batch.lanes[l].solver_vel2);
            }
        }
        assert(spec_untouched(batch, c.solver_vel2 as int, lane as nat)) by {
            assert forall|l: int| 0 <= l < lane implies (#[trigger] batch.lanes[l]).solver_vel1
                != c.solver_vel2 && batch.lanes[l].solver_vel2 != c.solver_vel2 by {
                assert(batch.lanes[l].solver_vel1 != batch.lanes[lane].solver_vel2);
                assert(batch.lanes[l].solver_vel2 != batch.lanes[lane].solver_vel2);
            }
        }
    }
}

/// A batch of one-body constraints, one per lane.
#[derive(Clone, Copy, Debug)]
pub struct OneBodyConstraintSimd {
    pub lanes: [OneBodyConstraint; LANES],
}

impl OneBodyConstraintSimd {
    /// Whether every lane is well formed.
    pub open spec fn wf(&self) -> bool {
        forall|lane: int| 0 <= lane < LANES ==> (#[trigger] self.lanes[lane]).wf()
    }

    /// Whether the dynamic body of every lane has its velocity in a buffer
    /// of `len` velocities.
    pub open spec fn in_range(&self, len: nat) -> bool {
        forall|lane: int| 0 <= lane < LANES ==> (#[trigger] self.lanes[lane]).inner.solver_vel2 < len
    }

    /// Whether every lane can write its impulses into `manifolds`.
    pub open spec fn writable(&self, manifolds: Seq<&mut ContactManifold>) -> bool {
        forall|lane: int|
            0 <= lane < LANES ==> {
                &&& (#[trigger] self.lanes[lane]).inner.manifold_id < manifolds.len()
                &&& self.lanes[lane].inner.contacts_resolve(
                    manifolds[self.lanes[lane].inner.manifold_id as int].points@,
                )
            }
    }

    /// What the solve of the lane `lane` gives from the velocity that `vels`
    /// holds for its dynamic body.
    pub open spec fn spec_lane_solve(
        &self,
        lane: int,
        vels: Seq<SolverVel>,
        solve_normal: bool,
        solve_friction: bool,
    ) -> (Seq<TwoBodyConstraintElement>, SolverVel, SolverVel) {
        self.lanes[lane].spec_solve(
            vels[self.lanes[lane].inner.solver_vel2 as int],
            solve_normal,
            solve_friction,
        )
    }

    /// The buffer `into` after the first `k` lanes stored the velocities of
    /// their dynamic bodies, as solved from `vels`.
    pub open spec fn spec_stored(
        &self,
        into: Seq<SolverVel>,
        vels: Seq<SolverVel>,
        k: nat,
        solve_normal: bool,
        solve_friction: bool,
    ) -> Seq<SolverVel>
        decreases k,
    {
        if k == 0 {
            into
        } else {
            self.spec_stored(into, vels, (k - 1) as nat, solve_normal, solve_friction).update(
                self.lanes[k - 1].inner.solver_vel2 as int,
                self.spec_lane_solve(k - 1, vels, solve_normal, solve_friction).2,
            )
        }
    }

    /// The stored contacts `points` of the manifold `id` after the first `k`
    /// lanes wrote their impulses back, in the order of the lanes.
    pub open spec fn spec_written_back(
        &self,
        id: int,
        points: Seq<crate::manifold::TrackedContact>,
        k: nat,
    ) -> Seq<crate::manifold::TrackedContact>
        decreases k,
    {
        if k == 0 {
            points
        } else {
            let before = self.spec_written_back(id, points, (k - 1) as nat);
            if self.lanes[k - 1].inner.manifold_id == id {
                self.lanes[k - 1].inner.spec_written_back(
                    before,
                    self.lanes[k - 1].inner.num_contacts as nat,
                )
            } else {
                before
            }
        }
    }

    /// Solves every lane once against the velocity of its dynamic body.
    pub fn solve(
        &mut self,
        solver_vels: &mut [SolverVel],
        solve_normal: bool,
        solve_friction: bool,
    )
        requires
            old(self).wf(),
            old(self).in_range(old(solver_vels)@.len()),
        ensures
            forall|lane: int|
                0 <= lane < LANES ==> {
                    &&& (#[trigger] final(self).lanes[lane]).inner.same_frame(
                        &old(self).lanes[lane].inner,
                    )
                    &&& final(self).lanes[lane].inner.solved_admissibly(
                        &old(self).lanes[lane].inner,
                        solve_normal,
                        solve_friction,
                    )
                },
            forall|lane: int|
                0 <= lane < LANES ==> final(self).lanes[lane].inner.elements@ == (#[trigger] old(
                    self,
                ).spec_lane_solve(lane, old(solver_vels)@, solve_normal, solve_friction)).0,
            final(solver_vels)@ == old(self).spec_stored(
                old(solver_vels)@,
                old(solver_vels)@,
                LANES as nat,
                solve_normal,
                solve_friction,
            ),
    {
        let ghost start = solver_vels@;
        let zero = SolverVel::zero();
        let mut vel2 = [zero; LANES];

        let mut lane: usize = 0;
        while lane < LANES
            invariant
                lane <= LANES,
                old(self).wf(),
                old(self).in_range(start.len()),
                solver_vels@ == start,
                forall|i: int| lane <= i < LANES ==> self.lanes[i] == old(self).lanes[i],
                forall|i: int|
                    0 <= i < lane ==> {
                        &&& (#[trigger] self.lanes[i]).inner.same_frame(&old(self).lanes[i].inner)
                        &&& self.lanes[i].inner.solved_admissibly(
                            &old(self).lanes[i].inner,
                            solve_normal,
                            solve_friction,
                        )
                    },
                forall|i: int|
                    0 <= i < lane ==> {
                        let solved = #[trigger] old(self).spec_lane_solve(
                            i,
                            start,
                            solve_normal,
                            solve_friction,
                        );
                        self.lanes[i].inner.elements@ == solved.0 && vel2[i] == solved.2
                    },
            decreases LANES - lane,
        {
            assert(old(self).lanes[lane as int].wf());
            let mut constraint = self.lanes[lane];
            let mut solver_vel1 = SolverVel::zero();
            let mut solver_vel2 = solver_vels[constraint.inner.solver_vel2];
            let dir1 = constraint.inner.dir1;
            let tangent1 = constraint.inner.tangent1;
            let im1 = Vector3::zero();
            let im2 = constraint.inner.im2;
            proof {
                lemma_solved_admissibly(
                    constraint.inner,
                    im1,
                    solver_vel1,
                    solver_vel2,
                    solve_normal,
                    solve_friction,
                );
            }
            TwoBodyConstraintElement::solve_group(
                constraint.inner.cfm_factor,
                &mut constraint.inner.elements,
                constraint.inner.num_contacts as usize,
                &dir1,
                &tangent1,
                &im1,
                &im2,
                constraint.inner.limit,
                &mut solver_vel1,
                &mut solver_vel2,
                solve_normal,
                solve_friction,
            );
            self.lanes[lane] = constraint;
            vel2[lane] = solver_vel2;
            lane += 1;
        }

        let mut lane: usize = 0;
        while lane < LANES
            invariant
                lane <= LANES,
                old(self).in_range(start.len()),
                solver_vels@.len() == start.len(),
                forall|i: int|
                    0 <= i < LANES ==> {
                        &&& (#[trigger] self.lanes[i]).inner.same_frame(&old(self).lanes[i].inner)
                        &&& self.lanes[i].inner.solved_admissibly(
                            &old(self).lanes[i].inner,
                            solve_normal,
                            solve_friction,
                        )
                    },
                forall|i: int|
                    0 <= i < LANES ==> {
                        let solved = #[trigger] old(self).spec_lane_solve(
                            i,
                            start,
                            solve_normal,
                            solve_friction,
                        );
                        self.lanes[i].inner.elements@ == solved.0 && vel2[i] == solved.2
                    },
                solver_vels@ == old(self).spec_stored(
                    start,
                    start,
                    lane as nat,
                    solve_normal,
                    solve_friction,
                ),
            decreases LANES - lane,
        {
            assert(self.lanes[lane as int].inner.same_frame(&old(self).lanes[lane as int].inner));
            assert(old(self).lanes[lane as int].inner.solver_vel2 < start.len());
            solver_vels[self.lanes[lane].inner.solver_vel2] = vel2[lane];
            lane += 1;
        }
    }

    /// Copies the impulses of every lane into the stored contacts of the
    /// lane's manifold, lane by lane.
    pub fn writeback_impulses(&self, manifolds_all: &mut [&mut ContactManifold])
        requires
            self.wf(),
            self.writable(old(manifolds_all)@),
        ensures
            final(manifolds_all)@.len() == old(manifolds_all)@.len(),
            forall|i: int|
                0 <= i < old(manifolds_all)@.len() ==> *final(final(manifolds_all)@[i])
                    == *final(old(manifolds_all)@[i]),
            forall|i: int|
                0 <= i < old(manifolds_all)@.len() ==> {
                    &&& final(manifolds_all)@[i].data == old(manifolds_all)@[i].data
                    &&& final(manifolds_all)@[i].points@ == self.spec_written_back(
                        i,
                        old(manifolds_all)@[i].points@,
                        LANES as nat,
                    )
                },
    {
        let mut lane: usize = 0;
        while lane < LANES
            invariant
                lane <= LANES,
                self.wf(),
                manifolds_all@.len() == old(manifolds_all)@.len(),
                self.writable(old(manifolds_all)@),
                forall|i: int|
                    0 <= i < manifolds_all@.len() ==> *final(manifolds_all@[i])
                        == *final(old(manifolds_all)@[i]),
                forall|i: int|
                    0 <= i < manifolds_all@.len() ==> {
                        &&& manifolds_all@[i].data == old(manifolds_all)@[i].data
                        &&& manifolds_all@[i].points@.len() == old(manifolds_all)@[i].points@.len()
                        &&& manifolds_all@[i].points@ == self.spec_written_back(
                            i,
                            old(manifolds_all)@[i].points@,
                            lane as nat,
                        )
                    },
            decreases LANES - lane,
        {
            let ghost id = self.lanes[lane as int].inner.manifold_id as int;
            assert(self.lanes[lane as int].wf());
            assert(self.lanes[lane as int].inner.contacts_resolve(
                old(manifolds_all)@[id].points@,
            ));
            assert(manifolds_all@[id].points@.len() == old(manifolds_all)@[id].points@.len());
            self.lanes[lane].writeback_impulses(manifolds_all);
            proof {
                crate::two_body_constraint::lemma_written_back_frame(
                    self.lanes[lane as int].inner,
                    self.spec_written_back(id, old(manifolds_all)@[id].points@, lane as nat),
                    self.lanes[lane as int].inner.num_contacts as nat,
                );
            }
            lane += 1;
        }
    }

    /// Switches the softening off in every lane and collapses every
    /// right-hand side to its bias-free form.
    pub fn remove_cfm_and_bias_from_rhs(&mut self)
        ensures
            forall|lane: int|
                0 <= lane < LANES ==> (#[trigger] final(self).lanes[lane]).inner.is_debiased(
                    &old(self).lanes[lane].inner,
                ),
    {
        let mut lane: usize = 0;
        while lane < LANES
            invariant
                lane <= LANES,
                forall|i: int|
                    0 <= i < lane ==> (#[trigger] self.lanes[i]).inner.is_debiased(
                        &old(self).lanes[i].inner,
                    ),
                forall|i: int| lane <= i < LANES ==> self.lanes[i] == old(self).lanes[i],
            decreases LANES - lane,
        {
            let mut constraint = self.lanes[lane];
            constraint.remove_cfm_and_bias_from_rhs();
            self.lanes[lane] = constraint;
            lane += 1;
        }
    }
}

/// What the solve of the elements of `c` gives, with `im1` as the inverse
/// mass of the first body, is admissible in the sense of
/// [`TwoBodyConstraint::solved_admissibly`].
proof fn lemma_solved_admissibly(
    c: TwoBodyConstraint,
    im1: Vector3,
    v1: SolverVel,
    v2: SolverVel,
    solve_normal: bool,
    solve_friction: bool,
)
    requires
        c.wf(),
    ensures
        ({
            let after = crate::element::spec_solve_group(
                c.cfm_factor,
                c.elements@,
                c.num_contacts as nat,
                c.dir1,
                c.tangent1,
                im1,
                c.im2,
                c.limit,
                v1,
                v2,
                solve_normal,
                solve_friction,
            ).0;
            forall|after_c: TwoBodyConstraint|
                after_c.same_frame(&c) && after_c.elements@ == after
                    ==> #[trigger] after_c.solved_admissibly(&c, solve_normal, solve_friction)
        }),
{
    if c.cfm_factor@ >= 0 && (solve_normal || c.pulls_nowhere()) {
        law_normal_impulses_nonnegative(
            c.cfm_factor,
            c.elements@,
            c.num_contacts as nat,
            c.dir1,
            c.tangent1,
            im1,
            c.im2,
            c.limit,
            v1,
            v2,
            solve_normal,
            solve_friction,
        );
        if c.limit@ >= 0 && (solve_normal || solve_friction) {
            law_friction_cone(
                c.cfm_factor,
                c.elements@,
                c.num_contacts as nat,
                c.dir1,
                c.tangent1,
                im1,
                c.im2,
                c.limit,
                v1,
                v2,
                solve_normal,
                solve_friction,
            );
        }
    }
}

impl OneBodyConstraintSimd {
    /// Whether no two lanes share their dynamic body.
    pub open spec fn independent(&self) -> bool {
        forall|a: int, b: int|
            0 <= a < LANES && 0 <= b < LANES && a != b ==> (
            #[trigger] self.lanes[a]).inner.solver_vel2 != (
            #[trigger] self.lanes[b]).inner.solver_vel2
    }

    /// The velocity buffer after the first `k` lanes were solved one after
    /// the other as single constraints, each from what the one before left.
    pub open spec fn spec_solved_one_by_one(
        &self,
        vels: Seq<SolverVel>,
        k: nat,
        solve_normal: bool,
        solve_friction: bool,
    ) -> Seq<SolverVel>
        decreases k,
    {
        if k == 0 {
            vels
        } else {
            let before = self.spec_solved_one_by_one(
                vels,
                (k - 1) as nat,
                solve_normal,
                solve_friction,
            );
            before.update(
                self.lanes[k - 1].inner.solver_vel2 as int,
                self.lanes[k - 1].spec_solve(
                    before[self.lanes[k - 1].inner.solver_vel2 as int],
                    solve_normal,
                    solve_friction,
                ).2,
            )
        }
    }
}

/// Batch equivalence for one-body constraints: where no two lanes share
/// their dynamic body, the first `k` lanes of the batch leave the velocity
/// buffer as solving them one by one leaves it.
pub proof fn law_one_body_batch_equivalence(
    batch: OneBodyConstraintSimd,
    vels: Seq<SolverVel>,
    k: nat,
    solve_normal: bool,
    solve_friction: bool,
)
    requires
        k <= LANES,
        batch.in_range(vels.len()),
        batch.independent(),
    ensures
        batch.spec_stored(vels, vels, k, solve_normal, solve_friction)
            == batch.spec_solved_one_by_one(vels, k, solve_normal, solve_friction),
        batch.spec_stored(vels, vels, k, solve_normal, solve_friction).len() == vels.len(),
        forall|j: int|
            0 <= j < vels.len() && (forall|lane: int|
                0 <= lane < k ==> (#[trigger] batch.lanes[lane]).inner.solver_vel2 != j)
                ==> batch.spec_stored(vels, vels, k, solve_normal, solve_friction)[j] == vels[j],
    decreases k,
{
    if k > 0 {
        let last = (k - 1) as int;
        law_one_body_batch_equivalence(batch, vels, (k - 1) as nat, solve_normal, solve_friction);
        assert forall|lane: int| 0 <= lane < k - 1 implies (
        #[trigger] batch.lanes[lane]).inner.solver_vel2 != batch.lanes[last].inner.solver_vel2 by {
            assert(batch.lanes[lane].inner.solver_vel2 != batch.lanes[last].inner.solver_vel2);
        }
    }
}

} // verus!
