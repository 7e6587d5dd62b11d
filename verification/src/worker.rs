//! The worker's polling state machine.
//!
//! A worker is one long-lived thread that loops: attempt a timed receive on
//! the job channel, run the job it got, re-check the shared shutdown flag on
//! every timeout. The loop's blocking calls (the timed receive, running the
//! job) happen outside the verified core; every decision the loop takes in
//! between is [`worker_step`], a total function from the worker's state and
//! the observed event to the next state and the action to perform.

use vstd::prelude::*;

verus! {

/// The lifecycle state of one worker.
#[derive(Clone, Copy, Debug, PartialEq, Eq, Structural)]
pub enum WorkerState {
    /// Claiming and running jobs.
    Running,
    /// Noticed shutdown while holding a job; finishes that job, then stops.
    Draining,
    /// The thread function has returned (or must now return); terminal. The
    /// pool still has to join the thread to reclaim it.
    Stopped,
}

/// What a worker observed at the top of its loop.
#[derive(Clone, Copy, Debug, PartialEq, Eq, Structural)]
pub enum WorkerEvent {
    /// The timed receive handed over a job.
    JobReceived,
    /// The job the worker was holding has finished (its own failure included:
    /// a job's failure is reported and never stops the worker).
    JobFinished,
    /// The timed receive elapsed with nothing to do.
    TimedOut,
    /// The channel is closed and drained: no job will ever arrive again.
    Disconnected,
}

/// What the loop around the state machine must do next.
#[derive(Clone, Copy, Debug, PartialEq, Eq, Structural)]
pub enum WorkerAction {
    /// Run the job just received, then report `JobFinished`.
    RunJob,
    /// Block in the timed receive again.
    Poll,
    /// Leave the loop: the thread function returns.
    Exit,
}

/// The transition function of the worker. `shutdown_seen` is the value of the
/// shared shutdown flag as read for this step; the flag is monotonic, so a
/// `true` here stays `true`.
pub open spec fn spec_worker_step(state: WorkerState, event: WorkerEvent, shutdown_seen: bool) -> (
    WorkerState,
    WorkerAction,
) {
    match state {
        WorkerState::Stopped => (WorkerState::Stopped, WorkerAction::Exit),
        WorkerState::Running => match event {
            // A claimed job always runs: it must not be lost. Seeing the
            // shutdown flag at the same time only means this job is the last.
            WorkerEvent::JobReceived => if shutdown_seen {
                (WorkerState::Draining, WorkerAction::RunJob)
            } else {
                (WorkerState::Running, WorkerAction::RunJob)
            },
            WorkerEvent::JobFinished => if shutdown_seen {
                (WorkerState::Stopped, WorkerAction::Exit)
            } else {
                (WorkerState::Running, WorkerAction::Poll)
            },
            // On a timeout the worker re-checks the flag: this bounds the
            // latency between "shutdown requested" and "worker notices" by
            // one poll interval without busy-waiting.
            WorkerEvent::TimedOut => if shutdown_seen {
                (WorkerState::Stopped, WorkerAction::Exit)
            } else {
                (WorkerState::Running, WorkerAction::Poll)
            },
            WorkerEvent::Disconnected => (WorkerState::Stopped, WorkerAction::Exit),
        },
        WorkerState::Draining => match event {
            WorkerEvent::JobReceived => (WorkerState::Draining, WorkerAction::RunJob),
            _ => (WorkerState::Stopped, WorkerAction::Exit),
        },
    }
}

/// One step of the worker loop: from the current state and the observed
/// event to the next state and the action to perform.
pub fn worker_step(state: WorkerState, event: WorkerEvent, shutdown_seen: bool) -> (r: (
    WorkerState,
    WorkerAction,
))
    ensures
        r == spec_worker_step(state, event, shutdown_seen),
{
    match state {
        WorkerState::Stopped => (WorkerState::Stopped, WorkerAction::Exit),
        WorkerState::Running => match event {
            WorkerEvent::JobReceived => if shutdown_seen {
                (WorkerState::Draining, WorkerAction::RunJob)
            } else {
                (WorkerState::Running, WorkerAction::RunJob)
            },
            WorkerEvent::JobFinished | WorkerEvent::TimedOut => if shutdown_seen {
                (WorkerState::Stopped, WorkerAction::Exit)
            } else {
                (WorkerState::Running, WorkerAction::Poll)
            },
            WorkerEvent::Disconnected => (WorkerState::Stopped, WorkerAction::Exit),
        },
        WorkerState::Draining => match event {
            WorkerEvent::JobReceived => (WorkerState::Draining, WorkerAction::RunJob),
            _ => (WorkerState::Stopped, WorkerAction::Exit),
        },
    }
}

/// Classifies the outcome of one timed receive on the job channel: a ticket
/// is a received job, an empty poll is a timeout.
pub fn poll_event(received: Option<u64>) -> (e: WorkerEvent)
    ensures
        e == (if received is Some {
            WorkerEvent::JobReceived
        } else {
            WorkerEvent::TimedOut
        }),
{
    match received {
        Some(_) => WorkerEvent::JobReceived,
        None => WorkerEvent::TimedOut,
    }
}

/// `Stopped` is terminal: no event, with or without the shutdown flag, ever
/// leaves it, and the loop is told to exit.
pub proof fn lemma_stopped_is_terminal(event: WorkerEvent, shutdown_seen: bool)
    ensures
        spec_worker_step(WorkerState::Stopped, event, shutdown_seen) == (
        WorkerState::Stopped,
        WorkerAction::Exit,
        ),
{
}

/// The loop exits exactly when the machine has reached `Stopped`: a worker
/// thread never returns early and never lingers once stopped.
pub proof fn lemma_exit_iff_stopped(state: WorkerState, event: WorkerEvent, shutdown_seen: bool)
    ensures
        spec_worker_step(state, event, shutdown_seen).1 == WorkerAction::Exit <==> spec_worker_step(
            state,
            event,
            shutdown_seen,
        ).0 == WorkerState::Stopped,
{
}

/// A worker runs a job only in direct response to receiving one, and one at
/// a time: every `RunJob` is answered by a `JobFinished` before the worker
/// polls again, so a worker is a single-threaded consumer.
pub proof fn lemma_run_only_on_receipt(state: WorkerState, event: WorkerEvent, shutdown_seen: bool)
    ensures
        spec_worker_step(state, event, shutdown_seen).1 == WorkerAction::RunJob ==> (event
            == WorkerEvent::JobReceived && state != WorkerState::Stopped),
{
}

/// A worker never spins hot: when a poll comes back empty it either blocks
/// in the next timed receive or exits, it never re-runs work.
pub proof fn lemma_no_busy_wait(state: WorkerState, shutdown_seen: bool)
    ensures
        spec_worker_step(state, WorkerEvent::TimedOut, shutdown_seen).1 != WorkerAction::RunJob,
{
}

/// Once the shutdown flag is seen, the worker stops within one step unless it
/// is holding a job, and then right after finishing it: shutdown is noticed
/// within a bounded number of poll cycles.
pub proof fn lemma_shutdown_noticed(state: WorkerState, event: WorkerEvent)
    ensures
        event != WorkerEvent::JobReceived ==> spec_worker_step(state, event, true).0
            == WorkerState::Stopped,
        spec_worker_step(state, event, true).0 != WorkerState::Stopped ==> spec_worker_step(
            state,
            event,
            true,
        ).1 == WorkerAction::RunJob,
{
}

} // verus!
