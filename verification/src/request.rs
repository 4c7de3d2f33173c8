//! The immutable payload handed to an engine and the structured outcome
//! handed back.

use vstd::prelude::*;
use crate::job::BlastType;

verus! {

/// The sequence data an engine is asked to search with: either a reference
/// to a file or the raw bytes themselves.
#[derive(Debug, PartialEq)]
pub enum BlastInput {
    FilePath(String),
    RawBytes(Vec<u8>),
}

/// Extension point for future search flags; currently empty.
#[derive(Debug, PartialEq)]
pub struct BlastParameters;

/// The engine-agnostic execution payload, built fresh per dispatch from a
/// job and never mutated after construction.
#[derive(Debug, PartialEq)]
pub struct BlastExecutionRequest {
    /// Stable reference back to the originating job.
    pub job_id: u64,
    /// Which search variant to run.
    pub blast_type: BlastType,
    /// The sequence data to search with.
    pub input: BlastInput,
    /// Open-ended extension point for future flags.
    pub parameters: BlastParameters,
}

/// Whether an engine's computation succeeded.
#[derive(Clone, Copy, Debug, PartialEq, Eq, Structural)]
pub enum ResultStatus {
    Success,
    Failed,
}

/// A reference to the artifact an engine produced.
#[derive(Debug, PartialEq)]
pub enum ResultOutput {
    FilePath(String),
}

/// The outcome an engine hands back on success: produced exactly once per
/// dispatched job and never mutated afterward.
#[derive(Debug, PartialEq)]
pub struct BlastResult {
    /// The `job_id` of the request this result answers.
    pub job_id: u64,
    /// Whether the computation succeeded.
    pub status: ResultStatus,
    /// The produced artifact.
    pub output: ResultOutput,
}

/// The closed taxonomy of engine failures, returned instead of a result.
#[derive(Debug, PartialEq)]
pub enum BlastEngineError {
    /// The request's input shape is unsupported by this engine, or a
    /// referenced input file is absent.
    InvalidInput(String),
    /// A search-type or parameter combination this engine cannot perform.
    UnsupportedFormat,
    /// The required reference database is missing or unreachable.
    DatabaseUnavailable,
    /// The underlying computation started but did not complete successfully.
    ExecutionFailed(String),
    /// The call did not complete within an allotted bound (reserved).
    Timeout,
}

} // verus!
