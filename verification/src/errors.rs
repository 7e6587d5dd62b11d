//! Error taxonomy of the pool.
//!
//! Admission errors (`JobSendError`, `ShuttingDown`) are returned
//! synchronously to a submitter and are recoverable by it. Lifecycle errors
//! (`ShutdownTimeout`, `ThreadJoinError`) are returned to whoever asked for
//! the shutdown. A job's own failure (`JobError`) is never surfaced to the
//! submitter: the worker that ran the job reports it to a diagnostics sink
//! and moves on.

use vstd::prelude::*;
use vstd::string::StringExecFns;

verus! {

/// An error of the pool itself: either a submission that was not accepted,
/// or a shutdown that could not be completed cleanly.
#[derive(Debug)]
pub enum ThreadPoolError {
    /// The channel's receive side vanished while the pool was not shutting
    /// down: no worker is left to take the job. Seeing this signals a bug.
    JobSendError,
    /// The pool has begun shutting down and accepts no new work.
    ShuttingDown,
    /// The shutdown deadline was exceeded before every worker was joined.
    ShutdownTimeout,
    /// A worker's thread could not be joined (it panicked); the message
    /// identifies the worker.
    ThreadJoinError(String),
}

/// A failure produced by a job's own body while a worker ran it.
#[derive(Debug)]
pub enum JobError {
    /// The job reported the contained description of its failure.
    ExecutionError(String),
}

impl ThreadPoolError {
    /// The spec-level text of [`ThreadPoolError::message`].
    pub open spec fn spec_message(self) -> Seq<char> {
        match self {
            ThreadPoolError::JobSendError => "Failed to send job to worker thread"@,
            ThreadPoolError::ShuttingDown => "Thread pool is shutting down"@,
            ThreadPoolError::ShutdownTimeout => "Timeout while waiting for threads to finish"@,
            ThreadPoolError::ThreadJoinError(detail) => (
                "Failed to join worker thread: "@ + detail@
            ),
        }
    }

    /// A human-readable description of the error.
    pub fn message(&self) -> (m: String)
        ensures
            m@ == self.spec_message(),
    {
        match self {
            ThreadPoolError::JobSendError => String::from_str(
                "Failed to send job to worker thread",
            ),
            ThreadPoolError::ShuttingDown => String::from_str("Thread pool is shutting down"),
            ThreadPoolError::ShutdownTimeout => String::from_str(
                "Timeout while waiting for threads to finish",
            ),
            ThreadPoolError::ThreadJoinError(detail) => {
                let mut m = String::from_str("Failed to join worker thread: ");
                m.append(detail.as_str());
                m
            },
        }
    }
}

impl JobError {
    /// The spec-level text of [`JobError::message`].
    pub open spec fn spec_message(self) -> Seq<char> {
        match self {
            JobError::ExecutionError(detail) => "Job execution failed: "@ + detail@,
        }
    }

    /// A human-readable description of the failure.
    pub fn message(&self) -> (m: String)
        ensures
            m@ == self.spec_message(),
    {
        match self {
            JobError::ExecutionError(detail) => {
                let mut m = String::from_str("Job execution failed: ");
                m.append(detail.as_str());
                m
            },
        }
    }
}

} // verus!
