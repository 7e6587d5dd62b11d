use thread_pool_rs::worker::{poll_event, worker_step, WorkerAction, WorkerEvent, WorkerState};

#[test]
fn running_worker_runs_received_jobs() {
    assert_eq!(
        worker_step(WorkerState::Running, WorkerEvent::JobReceived, false),
        (WorkerState::Running, WorkerAction::RunJob)
    );
}

#[test]
fn running_worker_polls_when_idle() {
    assert_eq!(
        worker_step(WorkerState::Running, WorkerEvent::TimedOut, false),
        (WorkerState::Running, WorkerAction::Poll)
    );
    assert_eq!(
        worker_step(WorkerState::Running, WorkerEvent::JobFinished, false),
        (WorkerState::Running, WorkerAction::Poll)
    );
}

#[test]
fn timeout_with_shutdown_flag_stops_the_worker() {
    assert_eq!(
        worker_step(WorkerState::Running, WorkerEvent::TimedOut, true),
        (WorkerState::Stopped, WorkerAction::Exit)
    );
}

#[test]
fn job_in_hand_drains_before_stopping() {
    // A job claimed together with the shutdown flag still runs...
    assert_eq!(
        worker_step(WorkerState::Running, WorkerEvent::JobReceived, true),
        (WorkerState::Draining, WorkerAction::RunJob)
    );
    // ...and once it finishes, the worker stops.
    assert_eq!(
        worker_step(WorkerState::Draining, WorkerEvent::JobFinished, true),
        (WorkerState::Stopped, WorkerAction::Exit)
    );
}

#[test]
fn disconnected_channel_stops_the_worker() {
    assert_eq!(
        worker_step(WorkerState::Running, WorkerEvent::Disconnected, false),
        (WorkerState::Stopped, WorkerAction::Exit)
    );
    assert_eq!(
        worker_step(WorkerState::Running, WorkerEvent::Disconnected, true),
        (WorkerState::Stopped, WorkerAction::Exit)
    );
}

#[test]
fn stopped_is_terminal() {
    for event in [
        WorkerEvent::JobReceived,
        WorkerEvent::JobFinished,
        WorkerEvent::TimedOut,
        WorkerEvent::Disconnected,
    ] {
        for flag in [false, true] {
            assert_eq!(
                worker_step(WorkerState::Stopped, event, flag),
                (WorkerState::Stopped, WorkerAction::Exit)
            );
        }
    }
}

#[test]
fn a_failed_job_does_not_stop_the_worker() {
    // A job's failure is reported, not propagated: the step after a finished
    // job (failed or not) keeps the worker running while no shutdown is seen.
    assert_eq!(
        worker_step(WorkerState::Running, WorkerEvent::JobFinished, false),
        (WorkerState::Running, WorkerAction::Poll)
    );
}

#[test]
fn poll_outcomes_classify() {
    assert_eq!(poll_event(Some(4)), WorkerEvent::JobReceived);
    assert_eq!(poll_event(None), WorkerEvent::TimedOut);
}
