use blast_scheduler::engines::{
    BlastEngine, EngineAction, EngineContext, EngineEvent, LargeDummyEngine, PythonBlastEngine,
    RustProcessEngine, SmallDummyEngine,
};
use blast_scheduler::job::BlastType;
use blast_scheduler::request::{
    BlastEngineError, BlastExecutionRequest, BlastInput, BlastParameters, ResultOutput,
    ResultStatus,
};

fn file_request(job_id: u64, path: &str) -> BlastExecutionRequest {
    BlastExecutionRequest {
        job_id,
        blast_type: BlastType::BlastN,
        input: BlastInput::FilePath(path.to_string()),
        parameters: BlastParameters,
    }
}

fn raw_request(job_id: u64) -> BlastExecutionRequest {
    BlastExecutionRequest {
        job_id,
        blast_type: BlastType::BlastN,
        input: BlastInput::RawBytes(vec![0x41, 0x43, 0x47, 0x54]),
        parameters: BlastParameters,
    }
}

fn ctx(input_exists: bool) -> EngineContext {
    EngineContext { input_exists, output_dir: "/out".to_string() }
}

#[test]
fn engine_names() {
    assert_eq!(SmallDummyEngine.name(), "SmallDummyEngine");
    assert_eq!(LargeDummyEngine.name(), "LargeDummyEngine");
    assert_eq!(RustProcessEngine.name(), "RUST engine");
    assert_eq!(PythonBlastEngine.name(), "Python BLAST Engine");
}

#[test]
fn blast_type_program_names() {
    assert_eq!(BlastType::BlastN.to_string(), "blastn");
    assert_eq!(BlastType::BlastP.to_string(), "blastp");
    assert_eq!(BlastType::BlastX.to_string(), "blastx");
    assert_eq!(BlastType::TBlastN.to_string(), "tblastn");
    assert_eq!(BlastType::TBlastX.to_string(), "tblastx");
}

#[test]
fn small_dummy_plans_its_report() {
    let task = SmallDummyEngine.begin(file_request(5, "/data/in.fa"), &ctx(true)).unwrap();
    assert_eq!(task.job_id, 5);
    match task.action {
        EngineAction::WriteFile { path, content } => {
            assert_eq!(path, "/out/small_result_5.txt");
            assert_eq!(content, "Dummy BLAST result\nJob ID: 5\n");
        }
        other => panic!("unexpected action {:?}", other),
    }
}

#[test]
fn dummy_engines_accept_raw_bytes() {
    let task = LargeDummyEngine.begin(raw_request(12), &ctx(false)).unwrap();
    assert_eq!(task.job_id, 12);
    match task.action {
        EngineAction::WriteFile { path, content } => {
            assert_eq!(path, "/out/large_result_12.txt");
            assert_eq!(content, "Dummy BLAST result\nJob ID: 12\n");
        }
        other => panic!("unexpected action {:?}", other),
    }
}

#[test]
fn dummy_finish_reports_write_failure() {
    let r = SmallDummyEngine.finish(
        5,
        EngineEvent::WriteFailed("disk full".to_string()),
        "/out/small_result_5.txt".to_string(),
    );
    assert_eq!(r, Err(BlastEngineError::ExecutionFailed("disk full".to_string())));
}

#[test]
fn dummy_finish_success_carries_job_and_artifact() {
    let res = SmallDummyEngine
        .finish(
            5,
            EngineEvent::Finished { success: true, detail: String::new() },
            "/out/small_result_5.txt".to_string(),
        )
        .unwrap();
    assert_eq!(res.job_id, 5);
    assert_eq!(res.status, ResultStatus::Success);
    assert_eq!(res.output, ResultOutput::FilePath("/out/small_result_5.txt".to_string()));
}

#[test]
fn rust_engine_rejects_raw_bytes() {
    let r = RustProcessEngine.begin(raw_request(3), &ctx(true));
    assert_eq!(
        r,
        Err(BlastEngineError::InvalidInput("RUST engine requires file input".to_string()))
    );
}

#[test]
fn rust_engine_plans_the_process_run() {
    let task = RustProcessEngine.begin(file_request(42, "/data/seq.fa"), &ctx(false)).unwrap();
    assert_eq!(task.job_id, 42);
    match task.action {
        EngineAction::RunProcess { job_id_arg, input_path, output_path } => {
            assert_eq!(job_id_arg, "42");
            assert_eq!(input_path, "/data/seq.fa");
            assert_eq!(output_path, "/out/rust_engine_42.txt");
        }
        other => panic!("unexpected action {:?}", other),
    }
}

#[test]
fn rust_engine_finish_messages() {
    let e = RustProcessEngine;
    assert_eq!(
        e.finish(1, EngineEvent::LaunchFailed("no cargo".to_string()), String::new()),
        Err(BlastEngineError::ExecutionFailed("Spawn failed: no cargo".to_string()))
    );
    assert_eq!(
        e.finish(
            1,
            EngineEvent::Finished { success: false, detail: "exit 2".to_string() },
            String::new()
        ),
        Err(BlastEngineError::ExecutionFailed("Engine failed".to_string()))
    );
    assert_eq!(
        e.finish(1, EngineEvent::WriteFailed("read-only".to_string()), String::new()),
        Err(BlastEngineError::ExecutionFailed("Write failed: read-only".to_string()))
    );
    assert_eq!(
        e.finish(1, EngineEvent::SetupFailed("Cannot determine app root".to_string()), String::new()),
        Err(BlastEngineError::ExecutionFailed("Cannot determine app root".to_string()))
    );
}

#[test]
fn python_engine_rejects_raw_bytes() {
    let r = PythonBlastEngine.begin(raw_request(9), &ctx(true));
    assert_eq!(
        r,
        Err(BlastEngineError::InvalidInput("Python engine requires file input".to_string()))
    );
}

#[test]
fn python_engine_rejects_missing_input_file() {
    let r = PythonBlastEngine.begin(file_request(9, "/data/gone.fa"), &ctx(false));
    assert_eq!(
        r,
        Err(BlastEngineError::InvalidInput(
            "Input file does not exist: /data/gone.fa".to_string()
        ))
    );
}

#[test]
fn python_engine_plans_the_service_call() {
    let req = BlastExecutionRequest {
        job_id: 7,
        blast_type: BlastType::TBlastX,
        input: BlastInput::FilePath("/data/in.fa".to_string()),
        parameters: BlastParameters,
    };
    let task = PythonBlastEngine.begin(req, &ctx(true)).unwrap();
    assert_eq!(task.job_id, 7);
    match task.action {
        EngineAction::HttpPost { file_form, blast_type_form, url, output_path } => {
            assert_eq!(file_form, "file=@/data/in.fa");
            assert_eq!(blast_type_form, "blastType=tblastx");
            assert_eq!(url, "http://127.0.0.1:5001/run_blast");
            assert_eq!(output_path, "/out/python_blast_7.xml");
        }
        other => panic!("unexpected action {:?}", other),
    }
}

#[test]
fn python_engine_finish_messages() {
    let e = PythonBlastEngine;
    assert_eq!(
        e.finish(7, EngineEvent::LaunchFailed("connection refused".to_string()), String::new()),
        Err(BlastEngineError::ExecutionFailed(
            "Failed to call Python API: connection refused".to_string()
        ))
    );
    assert_eq!(
        e.finish(
            7,
            EngineEvent::Finished { success: false, detail: "curl: (7)".to_string() },
            String::new()
        ),
        Err(BlastEngineError::ExecutionFailed("Python API call failed: curl: (7)".to_string()))
    );
    let res = e
        .finish(
            7,
            EngineEvent::Finished { success: true, detail: String::new() },
            "/out/python_blast_7.xml".to_string(),
        )
        .unwrap();
    assert_eq!(res.job_id, 7);
    assert_eq!(res.status, ResultStatus::Success);
    assert_eq!(res.output, ResultOutput::FilePath("/out/python_blast_7.xml".to_string()));
}

#[test]
fn results_are_attributed_to_their_own_request() {
    let e = SmallDummyEngine;
    let first = e.begin(file_request(1, "/data/a.fa"), &ctx(true)).unwrap();
    let second = e.begin(file_request(2, "/data/b.fa"), &ctx(true)).unwrap();
    let r1 = e
        .finish(
            first.job_id,
            EngineEvent::Finished { success: true, detail: String::new() },
            "/out/small_result_1.txt".to_string(),
        )
        .unwrap();
    let r2 = e
        .finish(
            second.job_id,
            EngineEvent::Finished { success: true, detail: String::new() },
            "/out/small_result_2.txt".to_string(),
        )
        .unwrap();
    assert_eq!(r1.job_id, 1);
    assert_eq!(r2.job_id, 2);
}
