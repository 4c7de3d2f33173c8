use blast_scheduler::job::{BlastType, Job, JobState};
use blast_scheduler::request::{BlastEngineError, BlastInput, BlastResult, ResultOutput, ResultStatus};
use blast_scheduler::routing::{route, EngineId, RoutingPolicy};
use blast_scheduler::scheduler::{JobOutcome, Scheduler};

fn mk_job(id: u32) -> Job {
    Job {
        id,
        name: format!("job {}", id),
        schedule: 0,
        state: JobState::Queued,
        input_path: format!("/data/in_{}.fa", id),
        database: "nt".to_string(),
        output_path: String::new(),
        program: BlastType::BlastN,
    }
}

#[test]
fn empty_batch_finishes_immediately() {
    let mut s = Scheduler::new(vec![]);
    assert!(s.finished_dispatching());
    assert!(s.dispatch_next().is_none());
    assert!(s.finished_dispatching());
    assert!(s.finished());
    assert_eq!(s.report.len(), 0);
}

#[test]
fn dispatch_order_is_reverse_of_submission() {
    let mut s = Scheduler::new(vec![mk_job(1), mk_job(2), mk_job(3)]);
    let mut order = Vec::new();
    while let Some(cmd) = s.dispatch_next() {
        order.push(cmd.request.job_id);
    }
    assert_eq!(order, vec![3, 2, 1]);
    assert!(s.finished_dispatching());
}

#[test]
fn dispatch_order_is_reproducible() {
    let policy = RoutingPolicy::ByParity { odd: EngineId::Small, even: EngineId::Large };
    let mut first = Vec::new();
    let mut second = Vec::new();
    for run in [&mut first, &mut second] {
        let mut s = Scheduler::with_policy(vec![mk_job(5), mk_job(8), mk_job(2), mk_job(11)], policy);
        while let Some(cmd) = s.dispatch_next() {
            run.push((cmd.request.job_id, cmd.engine));
        }
    }
    assert_eq!(first, second);
    assert_eq!(
        first,
        vec![
            (11, EngineId::Small),
            (2, EngineId::Large),
            (8, EngineId::Large),
            (5, EngineId::Small),
        ]
    );
}

#[test]
fn dispatched_job_is_marked_running() {
    let mut s = Scheduler::new(vec![mk_job(4)]);
    let cmd = s.dispatch_next().unwrap();
    assert_eq!(cmd.job.state, JobState::Running);
    assert_eq!(cmd.job.id, 4);
    assert_eq!(cmd.request.job_id, 4);
    assert_eq!(cmd.request.input, BlastInput::FilePath("/data/in_4.fa".to_string()));
    assert_eq!(cmd.engine, EngineId::Python);
}

#[test]
fn routing_is_deterministic_for_identical_jobs() {
    let policy = RoutingPolicy::ByParity { odd: EngineId::Python, even: EngineId::Small };
    let job = mk_job(7);
    let first = route(policy, &job);
    let second = route(policy, &job);
    assert_eq!(first, second);
    assert_eq!(first, EngineId::Python);
    assert_eq!(route(policy, &mk_job(10)), EngineId::Small);
}

#[test]
fn every_job_gets_exactly_one_outcome() {
    let mut s = Scheduler::new(vec![mk_job(1), mk_job(2), mk_job(3)]);
    let mut dispatched = Vec::new();
    while let Some(cmd) = s.dispatch_next() {
        dispatched.push(cmd.request.job_id);
    }
    for id in &dispatched {
        assert!(s.record_outcome(*id, JobOutcome::Crashed));
    }
    assert!(s.finished());
    assert_eq!(s.report.len(), 3);
    let mut reported: Vec<u64> = s.report.iter().map(|e| e.job_id).collect();
    reported.sort();
    assert_eq!(reported, vec![1, 2, 3]);
}

#[test]
fn unknown_or_repeated_outcome_is_rejected() {
    let mut s = Scheduler::new(vec![mk_job(1)]);
    assert!(!s.record_outcome(1, JobOutcome::Crashed));
    let cmd = s.dispatch_next().unwrap();
    assert!(!s.record_outcome(99, JobOutcome::Crashed));
    assert!(s.record_outcome(cmd.request.job_id, JobOutcome::Crashed));
    assert!(!s.record_outcome(cmd.request.job_id, JobOutcome::Crashed));
    assert_eq!(s.report.len(), 1);
}

#[test]
fn crash_of_one_job_leaves_siblings_untouched() {
    let mut s = Scheduler::new(vec![mk_job(1), mk_job(2), mk_job(3)]);
    while s.dispatch_next().is_some() {}
    assert!(s.record_outcome(2, JobOutcome::Crashed));
    assert!(s.record_outcome(
        1,
        JobOutcome::Completed(BlastResult {
            job_id: 1,
            status: ResultStatus::Success,
            output: ResultOutput::FilePath("/out/a".to_string()),
        })
    ));
    assert!(s.record_outcome(
        3,
        JobOutcome::Completed(BlastResult {
            job_id: 3,
            status: ResultStatus::Success,
            output: ResultOutput::FilePath("/out/b".to_string()),
        })
    ));
    assert!(s.finished());
    assert_eq!(s.report.len(), 3);
    let crashed: Vec<u64> = s
        .report
        .iter()
        .filter(|e| matches!(e.outcome, JobOutcome::Crashed))
        .map(|e| e.job_id)
        .collect();
    assert_eq!(crashed, vec![2]);
}

#[test]
fn completed_batch_hands_out_one_outcome_per_job() {
    let mut s = Scheduler::new(vec![mk_job(10), mk_job(11)]);
    let mut ids = Vec::new();
    while let Some(cmd) = s.dispatch_next() {
        ids.push(cmd.request.job_id);
    }
    for id in ids {
        assert!(s.record_outcome(id, JobOutcome::Crashed));
    }
    assert!(s.finished());
    let report = s.into_report();
    let mut reported: Vec<u64> = report.iter().map(|e| e.job_id).collect();
    reported.sort();
    assert_eq!(reported, vec![10, 11]);
}

#[test]
fn parity_batch_reports_expected_outcomes() {
    // Jobs 1 and 3 route to an always-succeeding engine, job 2 to an engine
    // that always fails its run.
    let policy = RoutingPolicy::ByParity { odd: EngineId::Small, even: EngineId::Large };
    let mut s = Scheduler::with_policy(vec![mk_job(1), mk_job(2), mk_job(3)], policy);
    let mut launches = Vec::new();
    while let Some(cmd) = s.dispatch_next() {
        launches.push(cmd);
    }
    assert!(s.finished_dispatching());
    for cmd in launches {
        let outcome = match cmd.engine {
            EngineId::Small => JobOutcome::Completed(BlastResult {
                job_id: cmd.request.job_id,
                status: ResultStatus::Success,
                output: ResultOutput::FilePath(format!("/out/small_result_{}.txt", cmd.request.job_id)),
            }),
            _ => JobOutcome::Failed(BlastEngineError::ExecutionFailed("Engine failed".to_string())),
        };
        assert!(s.record_outcome(cmd.request.job_id, outcome));
    }
    assert!(s.finished());
    assert_eq!(s.report.len(), 3);
    for entry in &s.report {
        match entry.job_id {
            1 | 3 => match &entry.outcome {
                JobOutcome::Completed(res) => {
                    assert_eq!(res.job_id, entry.job_id);
                    assert_eq!(res.status, ResultStatus::Success);
                }
                other => panic!("job {} should have succeeded, got {:?}", entry.job_id, other),
            },
            2 => assert!(matches!(
                entry.outcome,
                JobOutcome::Failed(BlastEngineError::ExecutionFailed(_))
            )),
            other => panic!("unexpected job id {}", other),
        }
    }
}
