//! The scheduler: owns the job queue, drives dispatch-then-join semantics
//! for one closed batch, and tracks exactly one outcome per job.
//!
//! The dispatch loop's decisions live here: [`Scheduler::dispatch_next`]
//! removes one job, builds its request and routes it; the machinery around
//! the library launches the engine call as an independent unit of concurrent
//! work and, when that unit resolves — normally or by crashing — hands the
//! outcome back to [`Scheduler::record_outcome`].  The well-formedness
//! invariant [`Scheduler::wf`] is the batch's conservation law: every
//! dispatched job is either still pending or reported, so nothing is lost
//! and nothing is counted twice.

use vstd::prelude::*;
use vstd::multiset::Multiset;
use crate::job::{Job, JobState};
use crate::request::{
    BlastEngineError, BlastExecutionRequest, BlastInput, BlastParameters, BlastResult,
};
use crate::routing::{route, spec_route, EngineId, RoutingPolicy};

verus! {

broadcast use vstd::seq_lib::group_to_multiset_ensures, vstd::multiset::group_multiset_axioms;

/// The one outcome of a dispatched job's unit of work.
#[derive(Debug, PartialEq)]
pub enum JobOutcome {
    /// The engine produced a result.
    Completed(BlastResult),
    /// The engine returned a typed failure: a normal, expected outcome that
    /// is reported against this job alone.
    Failed(BlastEngineError),
    /// The unit of work crashed before the engine call could answer; the
    /// job's outcome is indeterminate.
    Crashed,
}

/// A completed result is filed under the job it answers.
pub open spec fn outcome_attributed(job_id: u64, outcome: JobOutcome) -> bool {
    outcome matches JobOutcome::Completed(res) ==> res.job_id == job_id
}

/// One line of the batch report: a job and how its unit of work ended.
#[derive(Debug, PartialEq)]
pub struct JobReport {
    /// The dispatched job this outcome belongs to.
    pub job_id: u64,
    /// How its unit of work ended.
    pub outcome: JobOutcome,
}

/// Everything one dispatch hands to the unit of concurrent work: the job
/// (now `Running`), its freshly built request, and the engine the routing
/// policy selected — reported so the selection is auditable.
#[derive(Debug)]
pub struct LaunchCommand {
    /// The dispatched job, consumed from the queue.
    pub job: Job,
    /// The request built from it.
    pub request: BlastExecutionRequest,
    /// The engine instance that should run it.
    pub engine: EngineId,
}

/// The ids of a job sequence, as requests carry them.
pub open spec fn spec_job_ids(jobs: Seq<Job>) -> Seq<u64> {
    jobs.map_values(|j: Job| j.id as u64)
}

/// The order in which a batch is dispatched: the last submitted job first.
/// This removal rule is a documented choice, fixed by the job sequence
/// alone.
pub open spec fn spec_dispatch_order(jobs: Seq<Job>) -> Seq<u64> {
    spec_job_ids(jobs).reverse()
}

/// A closed-batch scheduler.  Construct it with the whole batch; no job can
/// be added afterwards.
pub struct Scheduler {
    /// Jobs not yet dispatched.  Dispatch removes from the back.
    pub queue: Vec<Job>,
    /// Ids of dispatched jobs whose outcome has not been recorded yet: the
    /// outstanding-work ledger, one slot per recorded join handle.
    pub pending: Vec<u64>,
    /// One line per resolved job.
    pub report: Vec<JobReport>,
    /// The routing rule for this batch.
    pub policy: RoutingPolicy,
    /// The batch as submitted, for the conservation law.
    pub batch: Ghost<Seq<Job>>,
}

impl Scheduler {
    /// How many jobs have been dispatched so far.
    pub open spec fn dispatched_count(self) -> int {
        self.batch@.len() - self.queue@.len()
    }

    /// The ids dispatched so far, in dispatch order.
    pub open spec fn dispatched_ids(self) -> Seq<u64> {
        spec_dispatch_order(self.batch@).take(self.dispatched_count())
    }

    /// The ids the report holds, in recording order.
    pub open spec fn report_ids(self) -> Seq<u64> {
        self.report@.map_values(|e: JobReport| e.job_id)
    }

    /// The conservation law: the remaining queue is the untouched front of
    /// the batch, and every dispatched job is accounted for exactly once —
    /// still pending or reported — with every recorded result attributed to
    /// its own job.
    pub open spec fn wf(self) -> bool {
        &&& self.queue@.len() <= self.batch@.len()
        &&& self.queue@ == self.batch@.take(self.queue@.len() as int)
        &&& self.pending@.to_multiset().add(self.report_ids().to_multiset())
            == self.dispatched_ids().to_multiset()
        &&& forall|k: int|
            0 <= k < self.report@.len() ==> #[trigger] outcome_attributed(
                self.report@[k].job_id,
                self.report@[k].outcome,
            )
    }

    /// Takes ownership of a finite batch of jobs and a routing policy.  The
    /// outstanding-work ledger and the report start empty.
    pub fn with_policy(jobs: Vec<Job>, policy: RoutingPolicy) -> (s: Scheduler)
        ensures
            s.wf(),
            s.queue@ == jobs@,
            s.pending@.len() == 0,
            s.report@.len() == 0,
            s.batch@ == jobs@,
            s.policy == policy,
    {
        let ghost b = jobs@;
        let s = Scheduler {
            queue: jobs,
            pending: Vec::new(),
            report: Vec::new(),
            policy,
            batch: Ghost(b),
        };
        proof {
            assert(s.queue@ =~= s.batch@.take(s.queue@.len() as int));
            assert(s.dispatched_ids() =~= Seq::<u64>::empty());
            assert(s.pending@.to_multiset().add(s.report_ids().to_multiset())
                =~= s.dispatched_ids().to_multiset());
        }
        s
    }

    /// Takes ownership of a finite batch of jobs, routing every job to the
    /// Python backend as deployed.
    pub fn new(jobs: Vec<Job>) -> (s: Scheduler)
        ensures
            s.wf(),
            s.queue@ == jobs@,
            s.pending@.len() == 0,
            s.report@.len() == 0,
            s.batch@ == jobs@,
            s.policy == RoutingPolicy::AllTo(EngineId::Python),
    {
        Self::with_policy(jobs, RoutingPolicy::AllTo(EngineId::Python))
    }

    /// Removes one job from the queue, marks it running, builds its request
    /// and routes it.  Returns `None` exactly when the queue is empty —
    /// dispatching is then finished.  The launch command must be handed to
    /// an independently progressing unit of work, and its handle recorded,
    /// before the next call.
    pub fn dispatch_next(&mut self) -> (r: Option<LaunchCommand>)
        requires
            old(self).wf(),
        ensures
            final(self).wf(),
            final(self).policy == old(self).policy,
            final(self).batch == old(self).batch,
            final(self).report == old(self).report,
            (old(self).queue@.len() == 0 ==> r is None && *final(self) == *old(self)),
            (old(self).queue@.len() > 0 ==> ({
                let j = old(self).queue@.last();
                &&& r matches Some(cmd)
                &&& cmd.job == (Job { state: JobState::Running, ..j })
                &&& cmd.request.job_id == j.id as u64
                &&& cmd.request.blast_type == j.program
                &&& (cmd.request.input matches BlastInput::FilePath(p) && p == j.input_path)
                &&& cmd.request.parameters == BlastParameters
                &&& cmd.engine == spec_route(old(self).policy, j)
                &&& final(self).queue@ == old(self).queue@.take(old(self).queue@.len() - 1)
                &&& final(self).pending@ == old(self).pending@.push(j.id as u64)
            })),
    {
        if self.queue.len() == 0 {
            return None;
        }
        let job = self.queue.pop().unwrap();
        let mut job = job;
        job.state = JobState::Running;
        let request = BlastExecutionRequest {
            job_id: job.id as u64,
            blast_type: job.program,
            input: BlastInput::FilePath(job.input_path.clone()),
            parameters: BlastParameters,
        };
        let engine = route(self.policy, &job);
        self.pending.push(job.id as u64);
        proof {
            let b = self.batch@;
            let q0 = old(self).queue@;
            let n = q0.len() as int;
            let c0 = old(self).dispatched_count();
            let x = q0.last().id as u64;
            assert(self.queue@ =~= b.take(n - 1));
            assert(spec_job_ids(b).len() == b.len());
            assert(spec_dispatch_order(b)[c0] == spec_job_ids(b)[b.len() - 1 - c0]);
            assert(b.len() - 1 - c0 == n - 1);
            assert(q0[n - 1] == b[n - 1]);
            assert(spec_dispatch_order(b)[c0] == x);
            assert(self.dispatched_ids() =~= old(self).dispatched_ids().push(x));
            assert(self.dispatched_ids().to_multiset()
                =~= old(self).dispatched_ids().to_multiset().insert(x));
            assert(self.pending@.to_multiset() =~= old(self).pending@.to_multiset().insert(x));
            assert(self.pending@.to_multiset().add(self.report_ids().to_multiset())
                =~= self.dispatched_ids().to_multiset());
        }
        Some(LaunchCommand { job, request, engine })
    }

    /// Whether the "finished dispatching" milestone is reached: the queue is
    /// empty, though outcomes may still be outstanding.
    pub fn finished_dispatching(&self) -> (r: bool)
        ensures
            r == (self.queue@.len() == 0),
    {
        self.queue.len() == 0
    }

    /// Whether the batch is complete: everything dispatched and every
    /// outcome recorded.
    pub fn finished(&self) -> (r: bool)
        ensures
            r == (self.queue@.len() == 0 && self.pending@.len() == 0),
    {
        self.queue.len() == 0 && self.pending.len() == 0
    }

    /// Looks up a job id in the outstanding-work ledger.
    fn find_pending(&self, job_id: u64) -> (r: Option<usize>)
        ensures
            (r matches Some(i) ==> i < self.pending@.len() && self.pending@[i as int] == job_id),
            r is Some <==> self.pending@.contains(job_id),
    {
        let mut i: usize = 0;
        while i < self.pending.len()
            invariant
                i <= self.pending@.len(),
                forall|k: int| 0 <= k < i ==> self.pending@[k] != job_id,
            decreases self.pending@.len() - i,
        {
            if self.pending[i] == job_id {
                proof {
                    assert(self.pending@.contains(job_id)) by {
                        assert(self.pending@[i as int] == job_id);
                    }
                }
                return Some(i);
            }
            i = i + 1;
        }
        proof {
            assert(!self.pending@.contains(job_id)) by {
                assert(forall|k: int| 0 <= k < self.pending@.len() ==> self.pending@[k] != job_id);
            }
        }
        None
    }

    /// The terminal operation: consumes the scheduler once the batch is
    /// complete — everything dispatched, every outcome recorded — and hands
    /// back the report.  It holds exactly one outcome per submitted job.
    pub fn into_report(self) -> (r: Vec<JobReport>)
        requires
            self.wf(),
            self.queue@.len() == 0,
            self.pending@.len() == 0,
        ensures
            r@ == self.report@,
            r@.len() == self.batch@.len(),
            r@.map_values(|e: JobReport| e.job_id).to_multiset() == spec_job_ids(
                self.batch@,
            ).to_multiset(),
    {
        proof {
            lemma_batch_accounting(self);
        }
        self.report
    }

    /// Records the one outcome of a dispatched job's unit of work and
    /// retires its ledger slot.  Returns false — and changes nothing — if
    /// `job_id` is not outstanding, so no job can ever produce two
    /// outcomes.  Recording touches no other job's standing: every other
    /// pending slot and every earlier report line is left exactly as it
    /// was.
    pub fn record_outcome(&mut self, job_id: u64, outcome: JobOutcome) -> (r: bool)
        requires
            old(self).wf(),
            outcome_attributed(job_id, outcome),
        ensures
            final(self).wf(),
            r == old(self).pending@.contains(job_id),
            (!r ==> *final(self) == *old(self)),
            (r ==> final(self).report@ == old(self).report@.push(
                JobReport { job_id, outcome },
            )),
            (r ==> final(self).pending@.to_multiset() == old(self).pending@.to_multiset().remove(
                job_id,
            )),
            (r ==> final(self).pending@.len() == old(self).pending@.len() - 1),
            (r ==> forall|y: u64|
                y != job_id ==> (final(self).pending@.contains(y) <==> old(
                    self,
                ).pending@.contains(y))),
            final(self).queue == old(self).queue,
            final(self).batch == old(self).batch,
            final(self).policy == old(self).policy,
    {
        match self.find_pending(job_id) {
            None => false,
            Some(i) => {
                let ghost p0 = self.pending@;
                let ghost r0 = self.report@;
                let _ = self.pending.remove(i);
                self.report.push(JobReport { job_id, outcome });
                proof {
                    assert(p0[i as int] == job_id);
                    assert(p0.to_multiset().count(job_id) > 0);
                    assert(self.pending@.to_multiset() =~= p0.to_multiset().remove(job_id));
                    assert(self.report_ids() =~= old(self).report_ids().push(job_id));
                    assert(self.report_ids().to_multiset() =~= old(
                        self,
                    ).report_ids().to_multiset().insert(job_id));
                    assert(self.pending@.to_multiset().add(self.report_ids().to_multiset())
                        =~= self.dispatched_ids().to_multiset()) by {
                        assert(forall|y: u64|
                            #![trigger self.pending@.to_multiset().count(y)]
                            self.pending@.to_multiset().count(y) + self.report_ids().to_multiset().count(y)
                                == p0.to_multiset().count(y) + old(
                                self,
                            ).report_ids().to_multiset().count(y));
                    }
                    assert forall|k: int| 0 <= k < self.report@.len() implies
                        #[trigger] outcome_attributed(
                        self.report@[k].job_id,
                        self.report@[k].outcome,
                    ) by {
                        if k < r0.len() {
                            assert(self.report@[k] == r0[k]);
                            assert(outcome_attributed(r0[k].job_id, r0[k].outcome));
                        } else {
                            assert(self.report@[k] == (JobReport { job_id, outcome }));
                        }
                    }
                    assert forall|y: u64| y != job_id implies (self.pending@.contains(y)
                        <==> p0.contains(y)) by {
                        assert(self.pending@.to_multiset().count(y) == p0.to_multiset().count(y));
                    }
                }
                true
            },
        }
    }
}

/// Law: when dispatching is finished and no outcome is outstanding, the
/// report holds exactly one outcome per submitted job — none lost, none
/// duplicated.
pub proof fn lemma_batch_accounting(s: Scheduler)
    requires
        s.wf(),
        s.queue@.len() == 0,
        s.pending@.len() == 0,
    ensures
        s.report@.len() == s.batch@.len(),
        s.report_ids().to_multiset() == spec_job_ids(s.batch@).to_multiset(),
{
    assert(s.dispatched_ids() =~= spec_dispatch_order(s.batch@));
    assert(s.pending@ =~= Seq::<u64>::empty());
    assert(s.pending@.to_multiset() =~= Multiset::<u64>::empty());
    assert(s.report_ids().to_multiset() =~= s.dispatched_ids().to_multiset());
    spec_job_ids(s.batch@).lemma_reverse_to_multiset();
    assert(s.report_ids().to_multiset() == spec_job_ids(s.batch@).to_multiset());
    assert(s.report_ids().len() == s.report_ids().to_multiset().len());
    assert(spec_job_ids(s.batch@).len() == spec_job_ids(s.batch@).to_multiset().len());
    assert(s.report@.len() == s.report_ids().len());
    assert(spec_job_ids(s.batch@).len() == s.batch@.len());
}

/// Law: the dispatch order of a batch is fully determined by the submitted
/// job sequence — the removal rule takes the last remaining job first, so a
/// fixed input sequence is dispatched in its exact reverse, reproducibly.
pub proof fn lemma_dispatch_order_deterministic(jobs1: Seq<Job>, jobs2: Seq<Job>)
    requires
        jobs1 == jobs2,
    ensures
        spec_dispatch_order(jobs1) == spec_dispatch_order(jobs2),
        spec_dispatch_order(jobs1).len() == jobs1.len(),
        forall|i: int|
            0 <= i < jobs1.len() ==> spec_dispatch_order(jobs1)[i] == jobs1[jobs1.len() - 1
                - i].id as u64,
{
}

/// Law: every recorded result is attributed to the job it was recorded for —
/// a result carrying job id X is never filed under another job, however many
/// units of work resolve concurrently.
pub proof fn lemma_report_attribution(s: Scheduler)
    requires
        s.wf(),
    ensures
        forall|k: int|
            0 <= k < s.report@.len() ==> (#[trigger] s.report@[k].outcome matches
                JobOutcome::Completed(res) ==> res.job_id == s.report@[k].job_id),
{
    assert forall|k: int|
        0 <= k < s.report@.len() implies (#[trigger] s.report@[k].outcome matches
        JobOutcome::Completed(res) ==> res.job_id == s.report@[k].job_id) by {
        assert(outcome_attributed(s.report@[k].job_id, s.report@[k].outcome));
    }
}

/// Law: recording one job's outcome — a crash included — cannot affect any
/// sibling job: every other outstanding job stays outstanding, and every
/// line already reported is untouched.
pub proof fn lemma_outcome_isolation(
    pre: Scheduler,
    post: Scheduler,
    job_id: u64,
    outcome: JobOutcome,
)
    requires
        pre.pending@.contains(job_id),
        post.report@ == pre.report@.push(JobReport { job_id, outcome }),
        post.pending@.to_multiset() == pre.pending@.to_multiset().remove(job_id),
    ensures
        forall|y: u64|
            y != job_id && pre.pending@.contains(y) ==> #[trigger] post.pending@.contains(y),
        forall|k: int| 0 <= k < pre.report@.len() ==> post.report@[k] == pre.report@[k],
        post.report@.len() == pre.report@.len() + 1,
{
    assert forall|y: u64| y != job_id && pre.pending@.contains(y) implies
        #[trigger] post.pending@.contains(y) by {
        assert(pre.pending@.to_multiset().count(y) > 0);
        assert(post.pending@.to_multiset().count(y) == pre.pending@.to_multiset().count(y));
    }
}

} // verus!
