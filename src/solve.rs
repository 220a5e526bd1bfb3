use vstd::prelude::*;

use crate::chain::ChainShape;

verus! {

/// Upper bound on correction iterations in one solve. A chain that has not
/// come within tolerance by then is left where the last iteration put it.
pub const MAX_ITERATIONS: usize = 100000;

/// How a move request is served, given whether its target lies within reach.
#[derive(Debug, Clone, Copy, PartialEq, Eq, Structural)]
pub enum MovePlan {
    /// The target is out of reach and no approximation was asked for: the
    /// chain is left untouched and no iteration is reported.
    Stay,
    /// The target is out of reach: solve for the point at full reach in the
    /// target's direction, so that the chain stretches towards it.
    Extend,
    /// The target is within reach: solve for it as given.
    Reach,
}

pub open spec fn move_plan(reachable: bool, try_to_reach: bool) -> MovePlan {
    if reachable {
        MovePlan::Reach
    } else if try_to_reach {
        MovePlan::Extend
    } else {
        MovePlan::Stay
    }
}

/// Chooses how to serve a move request.
pub fn plan_move(reachable: bool, try_to_reach: bool) -> (r: MovePlan)
    ensures
        r == move_plan(reachable, try_to_reach),
        r == MovePlan::Reach <==> reachable,
        r == MovePlan::Stay <==> !reachable && !try_to_reach,
{
    if reachable {
        MovePlan::Reach
    } else if try_to_reach {
        MovePlan::Extend
    } else {
        MovePlan::Stay
    }
}

/// One repositioning inside a sweep: joint `moved` is put on the line
/// towards joint `anchor`, at the rest length of link `link` from it.
#[derive(Debug, Clone, Copy, PartialEq, Eq, Structural)]
pub struct LinkUpdate {
    pub moved: usize,
    pub anchor: usize,
    pub link: usize,
}

/// The `k`-th update of the backward sweep of a chain whose end effector has
/// index `last`: it walks from the joint before the effector down to the root,
/// each joint following its already placed neighbour on the effector side.
pub open spec fn backward_update(last: int, k: int) -> LinkUpdate {
    LinkUpdate { moved: (last - 1 - k) as usize, anchor: (last - k) as usize, link: (last - 1 - k) as usize }
}

/// The `k`-th update of the forward sweep: it walks from the joint after the
/// root up to the end effector, each joint following its already placed
/// neighbour on the root side.
pub open spec fn forward_update(k: int) -> LinkUpdate {
    LinkUpdate { moved: (k + 1) as usize, anchor: k as usize, link: k as usize }
}

impl ChainShape {
    /// The order of the backward sweep, which follows pinning the end
    /// effector onto the target.
    pub fn backward_pass(&self) -> (r: Vec<LinkUpdate>)
        ensures
            r@.len() == self@ - 1,
            forall|k: int| 0 <= k < r@.len() ==> #[trigger] r@[k] == backward_update(self@ - 1, k),
    {
        let last: usize = self.effector();
        let mut r: Vec<LinkUpdate> = Vec::new();
        let mut i: usize = last;
        while i > 0
            invariant
                last == self@ - 1,
                i <= last,
                r@.len() == last - i,
                forall|k: int| 0 <= k < r@.len() ==> #[trigger] r@[k] == backward_update(last as int, k),
            decreases i,
        {
            r.push(LinkUpdate { moved: i - 1, anchor: i, link: i - 1 });
            i = i - 1;
        }
        r
    }

    /// The order of the forward sweep, which follows putting the root back
    /// where it stood.
    pub fn forward_pass(&self) -> (r: Vec<LinkUpdate>)
        ensures
            r@.len() == self@ - 1,
            forall|k: int| 0 <= k < r@.len() ==> #[trigger] r@[k] == forward_update(k),
    {
        let last: usize = self.effector();
        let mut r: Vec<LinkUpdate> = Vec::new();
        let mut i: usize = 0;
        while i < last
            invariant
                last == self@ - 1,
                i <= last,
                r@.len() == i,
                forall|k: int| 0 <= k < r@.len() ==> #[trigger] r@[k] == forward_update(k),
            decreases last - i,
        {
            r.push(LinkUpdate { moved: i + 1, anchor: i, link: i });
            i = i + 1;
        }
        r
    }
}

/// What the correction loop does next.
#[derive(Debug, Clone, Copy, PartialEq, Eq, Structural)]
pub enum SolveStep {
    /// The end effector lies within tolerance of the target after this many
    /// iterations: stop and report them.
    Converged(usize),
    /// The iteration bound was reached first: stop, report it and leave the
    /// chain as it stands.
    GaveUp(usize),
    /// Run one more iteration (a backward and a forward sweep); this is its
    /// number, counting from one.
    Correct(usize),
}

pub open spec fn solve_step_spec(done: usize, within_tolerance: bool) -> SolveStep {
    if within_tolerance {
        SolveStep::Converged(done)
    } else if done >= MAX_ITERATIONS {
        SolveStep::GaveUp(done)
    } else {
        SolveStep::Correct((done + 1) as usize)
    }
}

/// Decides the next step of the correction loop after `done` iterations,
/// given whether the end effector is now within tolerance of the target.
pub fn solve_step(done: usize, within_tolerance: bool) -> (r: SolveStep)
    requires
        done <= MAX_ITERATIONS,
    ensures
        r == solve_step_spec(done, within_tolerance),
        r matches SolveStep::Converged(n) ==> within_tolerance && n == done,
        r matches SolveStep::Correct(n) ==> !within_tolerance && n == done + 1 && n
            <= MAX_ITERATIONS,
        r matches SolveStep::GaveUp(n) ==> !within_tolerance && n == MAX_ITERATIONS,
{
    if within_tolerance {
        SolveStep::Converged(done)
    } else if done >= MAX_ITERATIONS {
        SolveStep::GaveUp(done)
    } else {
        SolveStep::Correct(done + 1)
    }
}

/// Solving again for a target that the end effector already lies within
/// tolerance of stops at once: no sweep runs, so no joint moves, and zero
/// iterations are reported.
pub proof fn reached_target_is_left_alone()
    ensures
        solve_step_spec(0, true) == SolveStep::Converged(0),
{
}

/// Every solve ends: each iteration raises the count by one, and the loop
/// stops at the bound if not before, so at most `MAX_ITERATIONS` sweeps run.
/// When it stops short of the bound the end effector lies within tolerance.
pub proof fn correction_loop_ends(done: usize, within_tolerance: bool)
    requires
        done <= MAX_ITERATIONS,
    ensures
        solve_step_spec(done, within_tolerance) matches SolveStep::Correct(n) ==> done < n
            <= MAX_ITERATIONS,
        solve_step_spec(done, within_tolerance) matches SolveStep::Converged(n) ==> within_tolerance,
        done == MAX_ITERATIONS ==> !(solve_step_spec(done, within_tolerance) is Correct),
{
}

} // verus!
