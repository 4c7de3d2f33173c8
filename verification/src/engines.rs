//! The engine contract and the backend variants that satisfy it.
//!
//! An engine is a capability: given an execution request it produces exactly
//! one result or one typed failure.  Every decision an engine makes is here
//! and verified; the outside work a backend needs (writing a file, running a
//! subprocess, posting to a search service) is described by an [`EngineTask`]
//! that the surrounding process machinery performs, reporting what happened
//! back as an [`EngineEvent`].  An engine call is therefore two decisions:
//! [`BlastEngine::begin`] validates the request and plans the action, and
//! [`BlastEngine::finish`] turns the action's terminal event into the call's
//! one outcome.
//!
//! Engines hold no mutable state, so one shared instance may serve many
//! concurrently dispatched jobs: each call's outcome is a function of that
//! call's own arguments alone.

use vstd::prelude::*;
use crate::decimal::{decimal, push_decimal};
use crate::request::{
    BlastEngineError, BlastExecutionRequest, BlastInput, BlastResult, ResultOutput, ResultStatus,
};

verus! {

/// What the process machinery must tell an engine before the call: facts
/// only it can observe.
pub struct EngineContext {
    /// Whether the file named by a file-path input exists.
    pub input_exists: bool,
    /// The directory produced artifacts are placed in.
    pub output_dir: String,
}

/// The one outside action an engine call asks for.  Every string argument is
/// computed here, so the machinery performing the action has nothing to
/// decide.
#[derive(Debug, PartialEq)]
pub struct EngineTask {
    /// The job this action serves.
    pub job_id: u64,
    /// What to do.
    pub action: EngineAction,
}

/// The kinds of outside work a backend may ask for.
#[derive(Debug, PartialEq)]
pub enum EngineAction {
    /// Write `content` at `path`: the dummy backends' whole computation.
    WriteFile { path: String, content: String },
    /// Run the standalone search process with these arguments and store what
    /// it prints at `output_path`.
    RunProcess { job_id_arg: String, input_path: String, output_path: String },
    /// Post the input file to the search service at `url` and store the
    /// reply at `output_path`.
    HttpPost { file_form: String, blast_type_form: String, url: String, output_path: String },
}

/// How a planned action ended, reported back by the machinery that ran it.
#[derive(Debug, PartialEq)]
pub enum EngineEvent {
    /// Preparing the call failed before the action could start; the message
    /// says why.
    SetupFailed(String),
    /// The action could not be launched at all.
    LaunchFailed(String),
    /// The action ran to an exit; on failure `detail` carries its error
    /// text.
    Finished { success: bool, detail: String },
    /// The action succeeded but storing its artifact failed.
    WriteFailed(String),
}

/// The engine capability: validate and plan a request, then turn the
/// action's terminal event into exactly one outcome.
///
/// The contract every backend satisfies: input the engine cannot service is
/// rejected with [`BlastEngineError::InvalidInput`] rather than silently
/// degraded; a call succeeds exactly when its action finished successfully;
/// and a successful result always carries the `job_id` of the request it
/// answers — results from many concurrent calls on one shared instance can
/// never be cross-attributed.
pub trait BlastEngine {
    /// The human-readable name of this backend.
    spec fn spec_name(&self) -> Seq<char>;

    /// Which inputs this backend can service.
    spec fn spec_accepts(&self, input: BlastInput, input_exists: bool) -> bool;

    /// This backend's exact planning decision.
    spec fn begin_ens(
        &self,
        request: BlastExecutionRequest,
        ctx: EngineContext,
        r: Result<EngineTask, BlastEngineError>,
    ) -> bool;

    /// This backend's exact outcome decision.
    spec fn finish_ens(
        &self,
        job_id: u64,
        event: EngineEvent,
        output_path: Seq<char>,
        r: Result<BlastResult, BlastEngineError>,
    ) -> bool;

    /// Reports a human-readable backend name.
    fn name(&self) -> (r: &'static str)
        ensures
            r@ == self.spec_name(),
    ;

    /// Validates the request and plans the one outside action that will
    /// serve it.
    fn begin(&self, request: BlastExecutionRequest, ctx: &EngineContext) -> (r: Result<
        EngineTask,
        BlastEngineError,
    >)
        ensures
            self.begin_ens(request, *ctx, r),
            r is Ok <==> self.spec_accepts(request.input, ctx.input_exists),
            (r matches Ok(task) ==> task.job_id == request.job_id),
            (r matches Err(e) ==> e is InvalidInput),
    ;

    /// Turns the terminal event of the planned action into the call's one
    /// outcome, attributed to `job_id`.
    fn finish(&self, job_id: u64, event: EngineEvent, output_path: String) -> (r: Result<
        BlastResult,
        BlastEngineError,
    >)
        ensures
            self.finish_ens(job_id, event, output_path@, r),
            r is Ok <==> (event matches EngineEvent::Finished { success: true, .. }),
            (r matches Ok(res) ==> res.job_id == job_id && res.status is Success
                && (res.output matches ResultOutput::FilePath(p) && p@ == output_path@)),
    ;

    /// Obligation on every backend: whatever its outcome decision says for a
    /// call, a successful result answers that call's own job.
    proof fn finish_attributes(
        &self,
        job_id: u64,
        event: EngineEvent,
        output_path: Seq<char>,
        r: Result<BlastResult, BlastEngineError>,
    )
        requires
            self.finish_ens(job_id, event, output_path, r),
        ensures
            (r matches Ok(res) ==> res.job_id == job_id),
    ;
}

/// Law: an engine instance invoked concurrently by K jobs produces K
/// independent, correctly-attributed outcomes.  Each outcome satisfies the
/// engine's outcome decision for its own call's arguments alone — the
/// engine holds no mutable state a sibling call could disturb — so every
/// successful result carries its own call's job id and pairings can never
/// cross.
pub proof fn lemma_concurrent_attribution<E: BlastEngine>(
    e: &E,
    job_ids: Seq<u64>,
    events: Seq<EngineEvent>,
    output_paths: Seq<Seq<char>>,
    outcomes: Seq<Result<BlastResult, BlastEngineError>>,
)
    requires
        outcomes.len() == job_ids.len(),
        events.len() == job_ids.len(),
        output_paths.len() == job_ids.len(),
        forall|i: int|
            0 <= i < job_ids.len() ==> #[trigger] e.finish_ens(
                job_ids[i],
                events[i],
                output_paths[i],
                outcomes[i],
            ),
    ensures
        forall|i: int|
            0 <= i < job_ids.len() ==> (#[trigger] outcomes[i] matches Ok(res) ==> res.job_id
                == job_ids[i]),
{
    assert forall|i: int|
        0 <= i < job_ids.len() implies (#[trigger] outcomes[i] matches Ok(res) ==> res.job_id
        == job_ids[i]) by {
        e.finish_attributes(job_ids[i], events[i], output_paths[i], outcomes[i]);
    }
}

/// Prefixes a message, as the failure reports below phrase themselves.
fn prefixed(prefix: &str, msg: &str) -> (r: String)
    ensures
        r@ == prefix@ + msg@,
{
    let mut s = String::from_str(prefix);
    s.append(msg);
    s
}

/// An in-process stub backend that "computes" a fixed small report.
pub struct SmallDummyEngine;

/// An in-process stub backend like [`SmallDummyEngine`], kept as a second
/// routing target.
pub struct LargeDummyEngine;

/// A backend that runs the standalone search process on the input file.
pub struct RustProcessEngine;

/// A backend that posts the input file to the Python search service.
pub struct PythonBlastEngine;

impl SmallDummyEngine {
    /// Where this backend's artifact for a job goes.
    pub open spec fn spec_output_path(dir: Seq<char>, job_id: u64) -> Seq<char> {
        dir + "/small_result_"@ + decimal(job_id as nat) + ".txt"@
    }

    /// What this backend's artifact for a job says.
    pub open spec fn spec_content(job_id: u64) -> Seq<char> {
        "Dummy BLAST result\nJob ID: "@ + decimal(job_id as nat) + "\n"@
    }
}

impl LargeDummyEngine {
    /// Where this backend's artifact for a job goes.
    pub open spec fn spec_output_path(dir: Seq<char>, job_id: u64) -> Seq<char> {
        dir + "/large_result_"@ + decimal(job_id as nat) + ".txt"@
    }

    /// What this backend's artifact for a job says.
    pub open spec fn spec_content(job_id: u64) -> Seq<char> {
        "Dummy BLAST result\nJob ID: "@ + decimal(job_id as nat) + "\n"@
    }
}

impl RustProcessEngine {
    /// Where this backend's artifact for a job goes.
    pub open spec fn spec_output_path(dir: Seq<char>, job_id: u64) -> Seq<char> {
        dir + "/rust_engine_"@ + decimal(job_id as nat) + ".txt"@
    }
}

impl PythonBlastEngine {
    /// Where this backend's artifact for a job goes.
    pub open spec fn spec_output_path(dir: Seq<char>, job_id: u64) -> Seq<char> {
        dir + "/python_blast_"@ + decimal(job_id as nat) + ".xml"@
    }
}

impl BlastEngine for SmallDummyEngine {
    open spec fn spec_name(&self) -> Seq<char> {
        "SmallDummyEngine"@
    }

    open spec fn spec_accepts(&self, input: BlastInput, input_exists: bool) -> bool {
        true
    }

    open spec fn begin_ens(
        &self,
        request: BlastExecutionRequest,
        ctx: EngineContext,
        r: Result<EngineTask, BlastEngineError>,
    ) -> bool {
        &&& r matches Ok(task)
        &&& task.job_id == request.job_id
        &&& task.action matches EngineAction::WriteFile { path, content }
        &&& path@ == Self::spec_output_path(ctx.output_dir@, request.job_id)
        &&& content@ == Self::spec_content(request.job_id)
    }

    open spec fn finish_ens(
        &self,
        job_id: u64,
        event: EngineEvent,
        output_path: Seq<char>,
        r: Result<BlastResult, BlastEngineError>,
    ) -> bool {
        dummy_finish_ens(job_id, event, output_path, r)
    }

    fn name(&self) -> (r: &'static str) {
        "SmallDummyEngine"
    }

    fn begin(&self, request: BlastExecutionRequest, ctx: &EngineContext) -> (r: Result<
        EngineTask,
        BlastEngineError,
    >) {
        let job_id = request.job_id;
        let mut path = String::new();
        path.append(ctx.output_dir.as_str());
        path.append("/small_result_");
        push_decimal(&mut path, job_id);
        path.append(".txt");
        let mut content = String::new();
        content.append("Dummy BLAST result\nJob ID: ");
        push_decimal(&mut content, job_id);
        content.append("\n");
        proof {
            assert(path@ =~= Self::spec_output_path(ctx.output_dir@, job_id));
            assert(content@ =~= Self::spec_content(job_id));
        }
        Ok(EngineTask { job_id, action: EngineAction::WriteFile { path, content } })
    }

    fn finish(&self, job_id: u64, event: EngineEvent, output_path: String) -> (r: Result<
        BlastResult,
        BlastEngineError,
    >) {
        dummy_finish(job_id, event, output_path)
    }

    proof fn finish_attributes(
        &self,
        job_id: u64,
        event: EngineEvent,
        output_path: Seq<char>,
        r: Result<BlastResult, BlastEngineError>,
    ) {
    }
}

impl BlastEngine for LargeDummyEngine {
    open spec fn spec_name(&self) -> Seq<char> {
        "LargeDummyEngine"@
    }

    open spec fn spec_accepts(&self, input: BlastInput, input_exists: bool) -> bool {
        true
    }

    open spec fn begin_ens(
        &self,
        request: BlastExecutionRequest,
        ctx: EngineContext,
        r: Result<EngineTask, BlastEngineError>,
    ) -> bool {
        &&& r matches Ok(task)
        &&& task.job_id == request.job_id
        &&& task.action matches EngineAction::WriteFile { path, content }
        &&& path@ == Self::spec_output_path(ctx.output_dir@, request.job_id)
        &&& content@ == Self::spec_content(request.job_id)
    }

    open spec fn finish_ens(
        &self,
        job_id: u64,
        event: EngineEvent,
        output_path: Seq<char>,
        r: Result<BlastResult, BlastEngineError>,
    ) -> bool {
        dummy_finish_ens(job_id, event, output_path, r)
    }

    fn name(&self) -> (r: &'static str) {
        "LargeDummyEngine"
    }

    fn begin(&self, request: BlastExecutionRequest, ctx: &EngineContext) -> (r: Result<
        EngineTask,
        BlastEngineError,
    >) {
        let job_id = request.job_id;
        let mut path = String::new();
        path.append(ctx.output_dir.as_str());
        path.append("/large_result_");
        push_decimal(&mut path, job_id);
        path.append(".txt");
        let mut content = String::new();
        content.append("Dummy BLAST result\nJob ID: ");
        push_decimal(&mut content, job_id);
        content.append("\n");
        proof {
            assert(path@ =~= Self::spec_output_path(ctx.output_dir@, job_id));
            assert(content@ =~= Self::spec_content(job_id));
        }
        Ok(EngineTask { job_id, action: EngineAction::WriteFile { path, content } })
    }

    fn finish(&self, job_id: u64, event: EngineEvent, output_path: String) -> (r: Result<
        BlastResult,
        BlastEngineError,
    >) {
        dummy_finish(job_id, event, output_path)
    }

    proof fn finish_attributes(
        &self,
        job_id: u64,
        event: EngineEvent,
        output_path: Seq<char>,
        r: Result<BlastResult, BlastEngineError>,
    ) {
    }
}

/// The outcome decision both stub backends share: any failure event is an
/// execution failure carrying the event's own message.
pub open spec fn dummy_finish_ens(
    job_id: u64,
    event: EngineEvent,
    output_path: Seq<char>,
    r: Result<BlastResult, BlastEngineError>,
) -> bool {
    match event {
        EngineEvent::Finished { success, detail } => {
            if success {
                &&& r matches Ok(res)
                &&& res.job_id == job_id
                &&& res.status is Success
                &&& res.output matches ResultOutput::FilePath(p)
                &&& p@ == output_path
            } else {
                &&& r matches Err(BlastEngineError::ExecutionFailed(m))
                &&& m@ == detail@
            }
        },
        EngineEvent::SetupFailed(m0) => {
            &&& r matches Err(BlastEngineError::ExecutionFailed(m))
            &&& m@ == m0@
        },
        EngineEvent::LaunchFailed(m0) => {
            &&& r matches Err(BlastEngineError::ExecutionFailed(m))
            &&& m@ == m0@
        },
        EngineEvent::WriteFailed(m0) => {
            &&& r matches Err(BlastEngineError::ExecutionFailed(m))
            &&& m@ == m0@
        },
    }
}

/// The shared stub-backend outcome decision.
fn dummy_finish(job_id: u64, event: EngineEvent, output_path: String) -> (r: Result<
    BlastResult,
    BlastEngineError,
>)
    ensures
        dummy_finish_ens(job_id, event, output_path@, r),
        r is Ok <==> (event matches EngineEvent::Finished { success: true, .. }),
        (r matches Ok(res) ==> res.job_id == job_id && res.status is Success && (
        res.output matches ResultOutput::FilePath(p) && p@ == output_path@)),
{
    match event {
        EngineEvent::Finished { success, detail } => {
            if success {
                Ok(
                    BlastResult {
                        job_id,
                        status: ResultStatus::Success,
                        output: ResultOutput::FilePath(output_path),
                    },
                )
            } else {
                Err(BlastEngineError::ExecutionFailed(detail))
            }
        },
        EngineEvent::SetupFailed(m) => Err(BlastEngineError::ExecutionFailed(m)),
        EngineEvent::LaunchFailed(m) => Err(BlastEngineError::ExecutionFailed(m)),
        EngineEvent::WriteFailed(m) => Err(BlastEngineError::ExecutionFailed(m)),
    }
}

impl BlastEngine for RustProcessEngine {
    open spec fn spec_name(&self) -> Seq<char> {
        "RUST engine"@
    }

    open spec fn spec_accepts(&self, input: BlastInput, input_exists: bool) -> bool {
        input is FilePath
    }

    open spec fn begin_ens(
        &self,
        request: BlastExecutionRequest,
        ctx: EngineContext,
        r: Result<EngineTask, BlastEngineError>,
    ) -> bool {
        match request.input {
            BlastInput::FilePath(p) => {
                &&& r matches Ok(task)
                &&& task.job_id == request.job_id
                &&& task.action matches EngineAction::RunProcess {
                    job_id_arg,
                    input_path,
                    output_path,
                }
                &&& job_id_arg@ == decimal(request.job_id as nat)
                &&& input_path == p
                &&& output_path@ == Self::spec_output_path(ctx.output_dir@, request.job_id)
            },
            BlastInput::RawBytes(_) => {
                &&& r matches Err(BlastEngineError::InvalidInput(m))
                &&& m@ == "RUST engine requires file input"@
            },
        }
    }

    open spec fn finish_ens(
        &self,
        job_id: u64,
        event: EngineEvent,
        output_path: Seq<char>,
        r: Result<BlastResult, BlastEngineError>,
    ) -> bool {
        match event {
            EngineEvent::Finished { success, detail } => {
                if success {
                    &&& r matches Ok(res)
                    &&& res.job_id == job_id
                    &&& res.status is Success
                    &&& res.output matches ResultOutput::FilePath(p)
                    &&& p@ == output_path
                } else {
                    &&& r matches Err(BlastEngineError::ExecutionFailed(m))
                    &&& m@ == "Engine failed"@
                }
            },
            EngineEvent::SetupFailed(m0) => {
                &&& r matches Err(BlastEngineError::ExecutionFailed(m))
                &&& m@ == m0@
            },
            EngineEvent::LaunchFailed(m0) => {
                &&& r matches Err(BlastEngineError::ExecutionFailed(m))
                &&& m@ == "Spawn failed: "@ + m0@
            },
            EngineEvent::WriteFailed(m0) => {
                &&& r matches Err(BlastEngineError::ExecutionFailed(m))
                &&& m@ == "Write failed: "@ + m0@
            },
        }
    }

    fn name(&self) -> (r: &'static str) {
        "RUST engine"
    }

    fn begin(&self, request: BlastExecutionRequest, ctx: &EngineContext) -> (r: Result<
        EngineTask,
        BlastEngineError,
    >) {
        let BlastExecutionRequest { job_id, blast_type: _, input, parameters: _ } = request;
        match input {
            BlastInput::FilePath(p) => {
                let job_id_arg = crate::decimal::u64_to_decimal(job_id);
                let mut output_path = String::new();
                output_path.append(ctx.output_dir.as_str());
                output_path.append("/rust_engine_");
                push_decimal(&mut output_path, job_id);
                output_path.append(".txt");
                proof {
                    assert(output_path@ =~= Self::spec_output_path(ctx.output_dir@, job_id));
                }
                Ok(
                    EngineTask {
                        job_id,
                        action: EngineAction::RunProcess {
                            job_id_arg,
                            input_path: p,
                            output_path,
                        },
                    },
                )
            },
            BlastInput::RawBytes(_) => {
                Err(
                    BlastEngineError::InvalidInput(
                        String::from_str("RUST engine requires file input"),
                    ),
                )
            },
        }
    }

    fn finish(&self, job_id: u64, event: EngineEvent, output_path: String) -> (r: Result<
        BlastResult,
        BlastEngineError,
    >) {
        match event {
            EngineEvent::Finished { success, detail: _ } => {
                if success {
                    Ok(
                        BlastResult {
                            job_id,
                            status: ResultStatus::Success,
                            output: ResultOutput::FilePath(output_path),
                        },
                    )
                } else {
                    Err(BlastEngineError::ExecutionFailed(String::from_str("Engine failed")))
                }
            },
            EngineEvent::SetupFailed(m) => Err(BlastEngineError::ExecutionFailed(m)),
            EngineEvent::LaunchFailed(m) => {
                Err(BlastEngineError::ExecutionFailed(prefixed("Spawn failed: ", m.as_str())))
            },
            EngineEvent::WriteFailed(m) => {
                Err(BlastEngineError::ExecutionFailed(prefixed("Write failed: ", m.as_str())))
            },
        }
    }

    proof fn finish_attributes(
        &self,
        job_id: u64,
        event: EngineEvent,
        output_path: Seq<char>,
        r: Result<BlastResult, BlastEngineError>,
    ) {
    }
}

impl BlastEngine for PythonBlastEngine {
    open spec fn spec_name(&self) -> Seq<char> {
        "Python BLAST Engine"@
    }

    open spec fn spec_accepts(&self, input: BlastInput, input_exists: bool) -> bool {
        input is FilePath && input_exists
    }

    open spec fn begin_ens(
        &self,
        request: BlastExecutionRequest,
        ctx: EngineContext,
        r: Result<EngineTask, BlastEngineError>,
    ) -> bool {
        match request.input {
            BlastInput::FilePath(p) => {
                if ctx.input_exists {
                    &&& r matches Ok(task)
                    &&& task.job_id == request.job_id
                    &&& task.action matches EngineAction::HttpPost {
                        file_form,
                        blast_type_form,
                        url,
                        output_path,
                    }
                    &&& file_form@ == "file=@"@ + p@
                    &&& blast_type_form@ == "blastType="@ + request.blast_type.spec_name()
                    &&& url@ == "http://127.0.0.1:5001/run_blast"@
                    &&& output_path@ == Self::spec_output_path(ctx.output_dir@, request.job_id)
                } else {
                    &&& r matches Err(BlastEngineError::InvalidInput(m))
                    &&& m@ == "Input file does not exist: "@ + p@
                }
            },
            BlastInput::RawBytes(_) => {
                &&& r matches Err(BlastEngineError::InvalidInput(m))
                &&& m@ == "Python engine requires file input"@
            },
        }
    }

    open spec fn finish_ens(
        &self,
        job_id: u64,
        event: EngineEvent,
        output_path: Seq<char>,
        r: Result<BlastResult, BlastEngineError>,
    ) -> bool {
        match event {
            EngineEvent::Finished { success, detail } => {
                if success {
                    &&& r matches Ok(res)
                    &&& res.job_id == job_id
                    &&& res.status is Success
                    &&& res.output matches ResultOutput::FilePath(p)
                    &&& p@ == output_path
                } else {
                    &&& r matches Err(BlastEngineError::ExecutionFailed(m))
                    &&& m@ == "Python API call failed: "@ + detail@
                }
            },
            EngineEvent::SetupFailed(m0) => {
                &&& r matches Err(BlastEngineError::ExecutionFailed(m))
                &&& m@ == m0@
            },
            EngineEvent::LaunchFailed(m0) => {
                &&& r matches Err(BlastEngineError::ExecutionFailed(m))
                &&& m@ == "Failed to call Python API: "@ + m0@
            },
            EngineEvent::WriteFailed(m0) => {
                &&& r matches Err(BlastEngineError::ExecutionFailed(m))
                &&& m@ == m0@
            },
        }
    }

    fn name(&self) -> (r: &'static str) {
        "Python BLAST Engine"
    }

    fn begin(&self, request: BlastExecutionRequest, ctx: &EngineContext) -> (r: Result<
        EngineTask,
        BlastEngineError,
    >) {
        let BlastExecutionRequest { job_id, blast_type, input, parameters: _ } = request;
        match input {
            BlastInput::FilePath(p) => {
                if ctx.input_exists {
                    let mut file_form = String::from_str("file=@");
                    file_form.append(p.as_str());
                    let mut blast_type_form = String::from_str("blastType=");
                    blast_type_form.append(blast_type.to_string());
                    let url = String::from_str("http://127.0.0.1:5001/run_blast");
                    let mut output_path = String::new();
                    output_path.append(ctx.output_dir.as_str());
                    output_path.append("/python_blast_");
                    push_decimal(&mut output_path, job_id);
                    output_path.append(".xml");
                    proof {
                        assert(output_path@ =~= Self::spec_output_path(ctx.output_dir@, job_id));
                    }
                    Ok(
                        EngineTask {
                            job_id,
                            action: EngineAction::HttpPost {
                                file_form,
                                blast_type_form,
                                url,
                                output_path,
                            },
                        },
                    )
                } else {
                    Err(
                        BlastEngineError::InvalidInput(
                            prefixed("Input file does not exist: ", p.as_str()),
                        ),
                    )
                }
            },
            BlastInput::RawBytes(_) => {
                Err(
                    BlastEngineError::InvalidInput(
                        String::from_str("Python engine requires file input"),
                    ),
                )
            },
        }
    }

    fn finish(&self, job_id: u64, event: EngineEvent, output_path: String) -> (r: Result<
        BlastResult,
        BlastEngineError,
    >) {
        match event {
            EngineEvent::Finished { success, detail } => {
                if success {
                    Ok(
                        BlastResult {
                            job_id,
                            status: ResultStatus::Success,
                            output: ResultOutput::FilePath(output_path),
                        },
                    )
                } else {
                    Err(
                        BlastEngineError::ExecutionFailed(
                            prefixed("Python API call failed: ", detail.as_str()),
                        ),
                    )
                }
            },
            EngineEvent::SetupFailed(m) => Err(BlastEngineError::ExecutionFailed(m)),
            EngineEvent::LaunchFailed(m) => {
                Err(
                    BlastEngineError::ExecutionFailed(
                        prefixed("Failed to call Python API: ", m.as_str()),
                    ),
                )
            },
            EngineEvent::WriteFailed(m) => Err(BlastEngineError::ExecutionFailed(m)),
        }
    }

    proof fn finish_attributes(
        &self,
        job_id: u64,
        event: EngineEvent,
        output_path: Seq<char>,
        r: Result<BlastResult, BlastEngineError>,
    ) {
    }
}

} // verus!
