//! A closed-batch scheduler for bioinformatics sequence-search jobs.
//!
//! A caller hands a finite batch of [`job::Job`]s to the
//! [`scheduler::Scheduler`], which dispatches each job to one of several
//! interchangeable execution backends ("engines") and tracks one outcome per
//! job.  The dispatch decisions, the engine contract, the routing policy and
//! the per-job bookkeeping live here and are verified; the surrounding
//! process machinery (task spawning, subprocess and HTTP calls, file I/O)
//! performs the actions this library decides on and reports their outcomes
//! back as plain events.

pub mod decimal;
pub mod engines;
pub mod job;
pub mod replies;
pub mod request;
pub mod routing;
pub mod scheduler;
