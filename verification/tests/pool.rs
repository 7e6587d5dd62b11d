use thread_pool_rs::channel::JobChannel;
use thread_pool_rs::errors::ThreadPoolError;
use thread_pool_rs::pool::{admission_error, submit_ticket, Admission, PoolCore};

#[test]
fn fresh_pool_is_idle() {
    let p = PoolCore::new(3);
    assert_eq!(p.size(), 3);
    assert_eq!(p.capacity(), 6);
    assert_eq!(p.live_workers(), 3);
    assert!(!p.is_shutting_down());
    assert_eq!(p.submitted(), 0);
    assert_eq!(p.queued_len(), 0);
    assert_eq!(p.claimed_len(), 0);
    assert_eq!(p.completed_len(), 0);
    assert!(p.drained());
}

#[test]
fn tickets_are_issued_in_order() {
    let mut p = PoolCore::new(2);
    assert_eq!(p.try_submit(), Admission::Accepted(0));
    assert_eq!(p.try_submit(), Admission::Accepted(1));
    assert_eq!(p.try_submit(), Admission::Accepted(2));
    assert_eq!(p.submitted(), 3);
    assert_eq!(p.queued_len(), 3);
}

#[test]
fn each_ticket_is_delivered_exactly_once() {
    let mut p = PoolCore::new(3);
    for t in 0..5 {
        assert_eq!(p.try_submit(), Admission::Accepted(t));
    }
    // Workers claim in FIFO order; each ticket comes out once.
    let mut seen = Vec::new();
    while let Some(t) = p.claim() {
        assert!(!seen.contains(&t));
        seen.push(t);
        p.complete(t);
    }
    assert_eq!(seen, vec![0, 1, 2, 3, 4]);
    assert_eq!(p.completed_len(), 5);
    assert_eq!(p.queued_len(), 0);
    assert_eq!(p.claimed_len(), 0);
    // Nothing is delivered twice: the queue is exhausted.
    assert_eq!(p.claim(), None);
}

#[test]
fn saturation_applies_backpressure() {
    let mut p = PoolCore::new(1);
    assert_eq!(p.try_submit(), Admission::Accepted(0));
    assert_eq!(p.try_submit(), Admission::Accepted(1));
    // The queue holds 2 x size tickets: the next submission must wait.
    assert_eq!(p.try_submit(), Admission::Saturated);
    assert_eq!(p.queued_len(), 2);
    assert_eq!(p.submitted(), 2);
    // A worker making room lets a retry through.
    let t = p.claim().unwrap();
    assert_eq!(t, 0);
    assert_eq!(p.try_submit(), Admission::Accepted(2));
    assert_eq!(p.try_submit(), Admission::Saturated);
}

#[test]
fn shutdown_rejects_new_work() {
    let mut p = PoolCore::new(2);
    assert_eq!(p.try_submit(), Admission::Accepted(0));
    p.begin_shutdown();
    assert!(p.is_shutting_down());
    // Even while workers are still draining, a late submission is refused.
    assert_eq!(p.try_submit(), Admission::Rejected);
    assert_eq!(p.submitted(), 1);
    assert_eq!(p.queued_len(), 1);
}

#[test]
fn shutdown_is_monotonic() {
    let mut p = PoolCore::new(1);
    p.begin_shutdown();
    p.begin_shutdown();
    assert!(p.is_shutting_down());
    assert_eq!(p.try_submit(), Admission::Rejected);
}

#[test]
fn no_loss_on_drain() {
    let mut p = PoolCore::new(2);
    for t in 0..4 {
        assert_eq!(p.try_submit(), Admission::Accepted(t));
    }
    p.begin_shutdown();
    // Everything accepted before the shutdown still runs.
    assert!(!p.drained());
    while let Some(t) = p.claim() {
        p.complete(t);
    }
    assert!(p.drained());
    assert_eq!(p.completed_len(), 4);
}

#[test]
fn dead_pool_fails_submissions() {
    let mut p = PoolCore::new(1);
    p.worker_stopped();
    assert_eq!(p.live_workers(), 0);
    // Not shutting down, but nobody is left to receive: a bug is signalled.
    assert_eq!(p.try_submit(), Admission::Failed);
}

#[test]
fn admission_over_the_real_channel() {
    let channel = JobChannel::new(1);
    assert_eq!(
        submit_ticket(&channel, false, true, 0),
        Admission::Accepted(0)
    );
    assert_eq!(
        submit_ticket(&channel, false, true, 1),
        Admission::Accepted(1)
    );
    assert_eq!(submit_ticket(&channel, false, true, 2), Admission::Saturated);
    // A closing pool refuses before touching the channel.
    assert_eq!(submit_ticket(&channel, true, true, 2), Admission::Rejected);
    // A pool with no live worker fails the submission.
    assert_eq!(submit_ticket(&channel, false, false, 2), Admission::Failed);
    // The rejected and failed tickets were never enqueued.
    assert_eq!(channel.try_recv(), Some(0));
    assert_eq!(channel.try_recv(), Some(1));
    assert_eq!(channel.try_recv(), None);
}

#[test]
fn admission_outcomes_map_to_errors() {
    assert!(admission_error(&Admission::Accepted(0)).is_none());
    assert!(admission_error(&Admission::Saturated).is_none());
    assert!(matches!(
        admission_error(&Admission::Rejected),
        Some(ThreadPoolError::ShuttingDown)
    ));
    assert!(matches!(
        admission_error(&Admission::Failed),
        Some(ThreadPoolError::JobSendError)
    ));
}
