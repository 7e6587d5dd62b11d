use thread_pool_rs::errors::ThreadPoolError;
use thread_pool_rs::shutdown::{
    join_error_message, join_step, remaining_budget, shutdown_verdict, u64_to_dec, verdict_result,
    ShutdownVerdict,
};

#[test]
fn budget_saturates_at_zero() {
    assert_eq!(remaining_budget(500, 0), 500);
    assert_eq!(remaining_budget(500, 499), 1);
    assert_eq!(remaining_budget(500, 500), 0);
    assert_eq!(remaining_budget(500, 8000), 0);
    assert_eq!(remaining_budget(0, 0), 0);
}

#[test]
fn join_step_decides_in_protocol_order() {
    // Budget exhausted: time out before attempting the join.
    assert_eq!(join_step(100, 100, true, 0), Some(ShutdownVerdict::TimedOut));
    // Budget exhausted and the join would have failed: the timeout wins.
    assert_eq!(join_step(100, 250, false, 0), Some(ShutdownVerdict::TimedOut));
    // Budget left but the worker's thread panicked.
    assert_eq!(
        join_step(100, 40, false, 3),
        Some(ShutdownVerdict::JoinFailed(3))
    );
    // Budget left and the join succeeded: go on to the next worker.
    assert_eq!(join_step(100, 40, true, 3), None);
}

#[test]
fn clean_run_completes() {
    let elapsed = vec![10, 20, 30, 40];
    let joined = vec![true, true, true, true];
    assert_eq!(
        shutdown_verdict(500, &elapsed, &joined, 45),
        ShutdownVerdict::Completed
    );
}

#[test]
fn deadline_mid_join_times_out() {
    // The third worker came up for joining only after the deadline.
    let elapsed = vec![10, 80, 120];
    let joined = vec![true, true, true];
    assert_eq!(
        shutdown_verdict(100, &elapsed, &joined, 130),
        ShutdownVerdict::TimedOut
    );
}

#[test]
fn deadline_at_final_check_times_out() {
    // Every join fit its budget, but the deadline was past at the end.
    let elapsed = vec![10, 90];
    let joined = vec![true, true];
    assert_eq!(
        shutdown_verdict(100, &elapsed, &joined, 101),
        ShutdownVerdict::TimedOut
    );
}

#[test]
fn panicked_worker_is_identified() {
    let elapsed = vec![10, 20, 30];
    let joined = vec![true, false, true];
    assert_eq!(
        shutdown_verdict(100, &elapsed, &joined, 35),
        ShutdownVerdict::JoinFailed(1)
    );
}

#[test]
fn earlier_timeout_wins_over_later_join_failure() {
    let elapsed = vec![100, 110];
    let joined = vec![true, false];
    assert_eq!(
        shutdown_verdict(100, &elapsed, &joined, 120),
        ShutdownVerdict::TimedOut
    );
}

#[test]
fn no_workers_just_checks_the_deadline() {
    let elapsed: Vec<u64> = vec![];
    let joined: Vec<bool> = vec![];
    assert_eq!(
        shutdown_verdict(100, &elapsed, &joined, 5),
        ShutdownVerdict::Completed
    );
    assert_eq!(
        shutdown_verdict(100, &elapsed, &joined, 101),
        ShutdownVerdict::TimedOut
    );
}

#[test]
fn verdicts_map_to_results() {
    assert!(verdict_result(&ShutdownVerdict::Completed).is_ok());
    assert!(matches!(
        verdict_result(&ShutdownVerdict::TimedOut),
        Err(ThreadPoolError::ShutdownTimeout)
    ));
    match verdict_result(&ShutdownVerdict::JoinFailed(7)) {
        Err(ThreadPoolError::ThreadJoinError(m)) => {
            assert_eq!(m, "Worker 7 failed to join");
        }
        other => panic!("expected a join error, got {:?}", other),
    }
}

#[test]
fn join_error_message_names_the_worker() {
    assert_eq!(join_error_message(0), "Worker 0 failed to join");
    assert_eq!(join_error_message(12), "Worker 12 failed to join");
}

#[test]
fn decimal_rendering_is_exact() {
    assert_eq!(u64_to_dec(0), "0");
    assert_eq!(u64_to_dec(9), "9");
    assert_eq!(u64_to_dec(10), "10");
    assert_eq!(u64_to_dec(207), "207");
    assert_eq!(u64_to_dec(18446744073709551615), "18446744073709551615");
}
