//! The job channel: the bounded hand-off structure between submitters and
//! workers.
//!
//! Accepted jobs travel as *tickets* (a `u64` issued at admission, unique
//! within a pool); the unverified rim keeps the job bodies keyed by ticket,
//! since a job body is an arbitrary closure that the verified core cannot
//! hold. The transport is `crossbeam_queue::ArrayQueue`, a lock-free bounded
//! multi-producer multi-consumer FIFO queue. It is shared across threads, so
//! the contracts here state only what holds of every outcome of a call; the
//! decisions taken on those outcomes are verified functions in [`crate::pool`]
//! and [`crate::worker`].

use vstd::prelude::*;

verus! {

/// Declares crossbeam's bounded lock-free queue so that it can stand in
/// fields and signatures; its values stay opaque here.
#[verifier::external_type_specification]
#[verifier::external_body]
#[verifier::reject_recursive_types(T)]
pub struct ExArrayQueue<T>(crossbeam_queue::ArrayQueue<T>);

/// The capacity a ticket queue was created with. The queue's contents get no
/// such name: the queue is shared across threads, and what a call finds in it
/// depends on what the other side has done in the meantime.
pub uninterp spec fn ticket_queue_bound(q: crossbeam_queue::ArrayQueue<u64>) -> nat;

/// Relies on crossbeam_queue::ArrayQueue::new: allocates a bounded queue of
/// exactly the given capacity. It panics when the capacity is zero or so
/// large that the internal stamp arithmetic would overflow; the requires
/// leaves both out.
#[verifier::external_body]
fn new_ticket_queue(cap: usize) -> (q: crossbeam_queue::ArrayQueue<u64>)
    requires
        1 <= cap <= usize::MAX / 4,
    ensures
        ticket_queue_bound(q) == cap,
{
    crossbeam_queue::ArrayQueue::new(cap)
}

/// Relies on crossbeam_queue::ArrayQueue::push: the value is enqueued, or
/// handed back as `Err` exactly when the queue was full at the time of the
/// call. Which of the two happens depends on concurrent consumers, so no
/// more is stated.
#[verifier::external_body]
fn ticket_queue_push(q: &crossbeam_queue::ArrayQueue<u64>, ticket: u64) -> (r: Result<(), u64>)
    ensures
        r matches Err(t) ==> t == ticket,
{
    q.push(ticket)
}

/// Relies on crossbeam_queue::ArrayQueue::pop: returns the oldest element, or
/// `None` when the queue was empty at the time of the call. Concurrent
/// producers decide which, so nothing is stated of the outcome.
#[verifier::external_body]
fn ticket_queue_pop(q: &crossbeam_queue::ArrayQueue<u64>) -> (r: Option<u64>) {
    q.pop()
}

/// Relies on crossbeam_queue::ArrayQueue::capacity: returns the capacity the
/// queue was created with.
#[verifier::external_body]
fn ticket_queue_capacity(q: &crossbeam_queue::ArrayQueue<u64>) -> (c: usize)
    ensures
        c == ticket_queue_bound(*q),
{
    q.capacity()
}

/// Relies on crossbeam_queue::ArrayQueue::len: returns a momentary element
/// count, which never exceeds the capacity.
#[verifier::external_body]
fn ticket_queue_len(q: &crossbeam_queue::ArrayQueue<u64>) -> (n: usize)
    ensures
        n <= ticket_queue_bound(*q),
{
    q.len()
}

/// The bounded ticket channel of one pool. Its capacity is fixed at
/// construction to twice the pool size: that bound is the pool's only
/// admission-control mechanism, so a saturated channel is what submitters
/// feel as backpressure.
pub struct JobChannel {
    queue: crossbeam_queue::ArrayQueue<u64>,
}

impl JobChannel {
    /// The capacity this channel was created with.
    pub closed spec fn bound(self) -> nat {
        ticket_queue_bound(self.queue)
    }

    /// Creates the channel of a pool of `pool_size` workers, bounded to
    /// `2 * pool_size` tickets.
    pub fn new(pool_size: usize) -> (c: JobChannel)
        requires
            1 <= pool_size <= usize::MAX / 8,
        ensures
            c.bound() == 2 * pool_size,
    {
        JobChannel { queue: new_ticket_queue(2 * pool_size) }
    }

    /// Attempts to enqueue a ticket; hands it back exactly when the channel
    /// was saturated at the time of the call.
    pub fn try_send(&self, ticket: u64) -> (r: Result<(), u64>)
        ensures
            r matches Err(t) ==> t == ticket,
    {
        ticket_queue_push(&self.queue, ticket)
    }

    /// Attempts to dequeue the oldest ticket; `None` means the channel was
    /// empty at the time of the call (a normal poll outcome, not an error).
    pub fn try_recv(&self) -> (r: Option<u64>) {
        ticket_queue_pop(&self.queue)
    }

    /// The channel's capacity.
    pub fn capacity(&self) -> (c: usize)
        ensures
            c == self.bound(),
    {
        ticket_queue_capacity(&self.queue)
    }

    /// A momentary count of queued tickets; never exceeds the capacity.
    pub fn len(&self) -> (n: usize)
        ensures
            n <= self.bound(),
    {
        ticket_queue_len(&self.queue)
    }
}

} // verus!
