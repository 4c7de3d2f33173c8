//! The unit of requested work: a job with identity, routing metadata and
//! lifecycle state.

use vstd::prelude::*;

verus! {

/// Which sequence-search variant a job asks for.
#[derive(Clone, Copy, Debug, PartialEq, Eq, Structural)]
pub enum BlastType {
    BlastN,
    BlastP,
    BlastX,
    TBlastN,
    TBlastX,
}

impl BlastType {
    /// The lower-case program name of this search variant.
    pub open spec fn spec_name(self) -> Seq<char> {
        match self {
            BlastType::BlastN => "blastn"@,
            BlastType::BlastP => "blastp"@,
            BlastType::BlastX => "blastx"@,
            BlastType::TBlastN => "tblastn"@,
            BlastType::TBlastX => "tblastx"@,
        }
    }

    /// Renders the search variant as the program name the backends expect.
    pub fn to_string(&self) -> (r: &'static str)
        ensures
            r@ == self.spec_name(),
    {
        match self {
            BlastType::BlastN => "blastn",
            BlastType::BlastP => "blastp",
            BlastType::BlastX => "blastx",
            BlastType::TBlastN => "tblastn",
            BlastType::TBlastX => "tblastx",
        }
    }
}

/// Lifecycle state of a job.
///
/// `Queued -> Running` happens at the moment of dispatch; `Running ->
/// Completed` when the job's unit of work has resolved.  Failure is carried
/// in the outcome, not in the job: there is no failed state here.
#[derive(Clone, Copy, Debug, PartialEq, Eq, Structural)]
pub enum JobState {
    Queued,
    Running,
    Completed,
}

/// One unit of requested work.
///
/// Jobs are fully populated by the caller before the batch starts; the
/// scheduler takes exclusive ownership of them for the duration of a run and
/// consumes each one the instant it is dispatched.  The `input_path` is
/// opaque to the scheduler, and `schedule` (a duration in seconds) is
/// reserved for future timing use.
#[derive(Debug)]
pub struct Job {
    /// Identity, unique within a batch.
    pub id: u32,
    /// Display name.
    pub name: String,
    /// Reserved duration in seconds; not currently load-bearing.
    pub schedule: u64,
    /// Lifecycle state.
    pub state: JobState,
    /// Location of the sequence data to search with.
    pub input_path: String,
    /// Which reference database to search against.
    pub database: String,
    /// Where a produced artifact should end up; filled in by an engine.
    pub output_path: String,
    /// Which search variant to run.
    pub program: BlastType,
}

} // verus!
