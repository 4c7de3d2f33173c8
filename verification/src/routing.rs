//! The routing policy: a pure, deterministic rule mapping a job to the
//! engine instance that should run it.

use vstd::prelude::*;
use crate::job::Job;

verus! {

/// A handle naming one of the scheduler's shared engine instances.
#[derive(Clone, Copy, Debug, PartialEq, Eq, Structural)]
pub enum EngineId {
    Small,
    Large,
    Python,
}

/// The table-driven rule that selects an engine per job.  A policy is fixed
/// for a whole batch and consults nothing but the job itself.
#[derive(Clone, Copy, Debug, PartialEq, Eq, Structural)]
pub enum RoutingPolicy {
    /// Every job goes to the one named engine.
    AllTo(EngineId),
    /// Jobs with an odd identity go to `odd`, the rest to `even`.
    ByParity { odd: EngineId, even: EngineId },
}

/// Which engine a policy selects for a job.
pub open spec fn spec_route(policy: RoutingPolicy, job: Job) -> EngineId {
    match policy {
        RoutingPolicy::AllTo(e) => e,
        RoutingPolicy::ByParity { odd, even } => if job.id % 2 == 1 {
            odd
        } else {
            even
        },
    }
}

/// Selects which shared engine instance should run `job`: a pure function
/// of the policy and the job alone, with no side effects.
pub fn route(policy: RoutingPolicy, job: &Job) -> (r: EngineId)
    ensures
        r == spec_route(policy, *job),
{
    match policy {
        RoutingPolicy::AllTo(e) => e,
        RoutingPolicy::ByParity { odd, even } => {
            if job.id % 2 == 1 {
                odd
            } else {
                even
            }
        },
    }
}

/// Law: routing is deterministic — the policy selects the same engine for
/// identical jobs, however often it is consulted.
pub proof fn lemma_route_deterministic(policy: RoutingPolicy, j1: Job, j2: Job)
    requires
        j1 == j2,
    ensures
        spec_route(policy, j1) == spec_route(policy, j2),
{
}

} // verus!
