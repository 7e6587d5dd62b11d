//! The pool's admission and lifecycle accounting.
//!
//! [`PoolCore`] is the authoritative book-keeping of one pool, advanced one
//! linearized step at a time: a submission is admitted (or refused), a worker
//! claims the oldest queued ticket, a worker completes a claimed ticket, the
//! pool begins shutting down, a worker stops. Its well-formedness invariant
//! [`PoolCore::wf`] carries the pool's central promises: every accepted
//! ticket sits in exactly one of the queued / claimed / completed buckets
//! (exactly-once delivery), and the queue never grows past twice the pool
//! size (backpressure).
//!
//! [`submit_ticket`] is the admission path over the real bounded channel: it
//! is the decision half of the original submit operation, with the channel
//! push behind its per-outcome contract.

use vstd::prelude::*;

use crate::channel::JobChannel;
use crate::errors::ThreadPoolError;

verus! {

broadcast use
    vstd::seq_lib::group_to_multiset_ensures,
    vstd::multiset::group_multiset_axioms,
    vstd::multiset::group_multiset_properties,
;

/// The outcome of one admission decision.
#[derive(Clone, Copy, Debug, PartialEq, Eq, Structural)]
pub enum Admission {
    /// The job was accepted under the contained ticket: the pool now owes its
    /// eventual execution by exactly one worker.
    Accepted(u64),
    /// The channel is at its bound: the submitter must wait and retry. This
    /// is the backpressure a saturated pool applies; nothing was enqueued.
    Saturated,
    /// The pool is shutting down and takes no new work.
    Rejected,
    /// No worker is left alive to receive work, although the pool is not
    /// shutting down; seeing this signals a bug.
    Failed,
}

/// The linearized book-keeping of one pool.
pub struct PoolCore {
    size: usize,
    shutting_down: bool,
    sender_closed: bool,
    live_workers: usize,
    next_ticket: u64,
    queued: Vec<u64>,
    claimed: Vec<u64>,
    completed: Vec<u64>,
}

impl PoolCore {
    /// The number of workers the pool was built with.
    pub closed spec fn spec_size(self) -> usize {
        self.size
    }

    /// Whether shutdown has begun. Monotonic: no step ever unsets it.
    pub closed spec fn spec_shutting_down(self) -> bool {
        self.shutting_down
    }

    /// Whether the send end of the channel has been dropped. Set together
    /// with the shutdown flag: the flag is never observed unset while the
    /// sender is already gone.
    pub closed spec fn spec_sender_closed(self) -> bool {
        self.sender_closed
    }

    /// How many workers have not yet stopped.
    pub closed spec fn spec_live_workers(self) -> usize {
        self.live_workers
    }

    /// How many jobs have been accepted so far; ticket `t` was accepted
    /// exactly when `t < spec_submitted()`.
    pub closed spec fn spec_submitted(self) -> u64 {
        self.next_ticket
    }

    /// Accepted tickets not yet claimed by any worker, oldest first.
    pub closed spec fn spec_queued(self) -> Seq<u64> {
        self.queued@
    }

    /// Tickets claimed by a worker and still running.
    pub closed spec fn spec_claimed(self) -> Seq<u64> {
        self.claimed@
    }

    /// Tickets whose job has finished, in order of completion.
    pub closed spec fn spec_completed(self) -> Seq<u64> {
        self.completed@
    }

    /// The channel bound: twice the pool size.
    pub open spec fn spec_capacity(self) -> int {
        2 * self.spec_size()
    }

    /// In how many places the ticket `t` is held: queued, claimed and
    /// completed occurrences combined.
    pub open spec fn ticket_count(self, t: u64) -> nat {
        self.spec_queued().to_multiset().count(t) + self.spec_claimed().to_multiset().count(t)
            + self.spec_completed().to_multiset().count(t)
    }

    /// Well-formedness: the pool has at least one worker and not more than
    /// fit the arithmetic; the queue respects the backpressure bound; the
    /// sender is only ever dropped after the shutdown flag is set; and every
    /// accepted ticket is held in exactly one place — never duplicated,
    /// never silently dropped — while unissued tickets are held nowhere.
    pub open spec fn wf(self) -> bool {
        &&& 1 <= self.spec_size() <= usize::MAX / 8
        &&& self.spec_live_workers() <= self.spec_size()
        &&& (self.spec_sender_closed() ==> self.spec_shutting_down())
        &&& self.spec_queued().len() <= self.spec_capacity()
        &&& forall|t: u64|
            #[trigger] self.ticket_count(t) == (if t < self.spec_submitted() {
                1nat
            } else {
                0nat
            })
    }

    /// Builds the book-keeping of a fresh pool of `size` workers. A pool of
    /// zero workers is a programmer error and is excluded outright.
    pub fn new(size: usize) -> (p: PoolCore)
        requires
            1 <= size <= usize::MAX / 8,
        ensures
            p.wf(),
            p.spec_size() == size,
            p.spec_live_workers() == size,
            !p.spec_shutting_down(),
            !p.spec_sender_closed(),
            p.spec_submitted() == 0,
            p.spec_queued() == Seq::<u64>::empty(),
            p.spec_claimed() == Seq::<u64>::empty(),
            p.spec_completed() == Seq::<u64>::empty(),
    {
        let p = PoolCore {
            size,
            shutting_down: false,
            sender_closed: false,
            live_workers: size,
            next_ticket: 0,
            queued: Vec::new(),
            claimed: Vec::new(),
            completed: Vec::new(),
        };
        proof {
            assert forall|t: u64| #[trigger] p.ticket_count(t) == 0nat by {
                assert(!p.spec_queued().contains(t));
                assert(!p.spec_claimed().contains(t));
                assert(!p.spec_completed().contains(t));
            }
        }
        p
    }

    /// One admission decision, in the order the shutdown protocol fixes:
    /// a pool that is shutting down rejects; a pool whose receive side has
    /// vanished fails; a saturated pool pushes back; otherwise the job is
    /// accepted under the next ticket and queued.
    pub fn try_submit(&mut self) -> (r: Admission)
        requires
            old(self).wf(),
            old(self).spec_submitted() < u64::MAX,
        ensures
            final(self).wf(),
            r is Rejected <==> old(self).spec_shutting_down(),
            r is Failed <==> (!old(self).spec_shutting_down() && old(self).spec_live_workers()
                == 0),
            r is Saturated <==> (!old(self).spec_shutting_down() && old(self).spec_live_workers()
                > 0 && old(self).spec_queued().len() == old(self).spec_capacity()),
            r is Accepted <==> (!old(self).spec_shutting_down() && old(self).spec_live_workers()
                > 0 && old(self).spec_queued().len() < old(self).spec_capacity()),
            r is Accepted ==> r == Admission::Accepted(old(self).spec_submitted())
                && final(self).spec_submitted() == old(self).spec_submitted() + 1
                && final(self).spec_queued() == old(self).spec_queued().push(
                old(self).spec_submitted(),
            ),
            !(r is Accepted) ==> *final(self) == *old(self),
            final(self).spec_size() == old(self).spec_size(),
            final(self).spec_shutting_down() == old(self).spec_shutting_down(),
            final(self).spec_sender_closed() == old(self).spec_sender_closed(),
            final(self).spec_live_workers() == old(self).spec_live_workers(),
            final(self).spec_claimed() == old(self).spec_claimed(),
            final(self).spec_completed() == old(self).spec_completed(),
    {
        if self.shutting_down {
            Admission::Rejected
        } else if self.live_workers == 0 {
            Admission::Failed
        } else if self.queued.len() >= 2 * self.size {
            Admission::Saturated
        } else {
            let ticket = self.next_ticket;
            self.queued.push(ticket);
            self.next_ticket = ticket + 1;
            proof {
                let prev = *old(self);
                assert(self.spec_queued() == prev.spec_queued().push(ticket));
                assert(self.spec_queued().to_multiset() =~= prev.spec_queued().to_multiset().insert(
                    ticket,
                ));
                assert forall|t: u64|
                    #[trigger] self.ticket_count(t) == (if t < self.spec_submitted() {
                        1nat
                    } else {
                        0nat
                    }) by {
                    assert(prev.ticket_count(t) == (if t < prev.spec_submitted() {
                        1nat
                    } else {
                        0nat
                    }));
                    if t == ticket {
                        assert(self.spec_queued().to_multiset().count(t) == prev.spec_queued().to_multiset().count(
                            t,
                        ) + 1);
                    } else {
                        assert(self.spec_queued().to_multiset().count(t) == prev.spec_queued().to_multiset().count(
                            t,
                        ));
                    }
                }
            }
            Admission::Accepted(ticket)
        }
    }

    /// A worker claims the oldest queued ticket, if there is one: the ticket
    /// moves from the queue into the claimed bucket, so it is delivered to
    /// exactly the one worker that took it.
    pub fn claim(&mut self) -> (r: Option<u64>)
        requires
            old(self).wf(),
        ensures
            final(self).wf(),
            old(self).spec_queued().len() == 0 ==> r is None && *final(self) == *old(self),
            old(self).spec_queued().len() > 0 ==> {
                &&& r == Some(old(self).spec_queued()[0])
                &&& final(self).spec_queued() == old(self).spec_queued().drop_first()
                &&& final(self).spec_claimed() == old(self).spec_claimed().push(
                    old(self).spec_queued()[0],
                )
                &&& final(self).spec_claimed().contains(old(self).spec_queued()[0])
            },
            final(self).spec_size() == old(self).spec_size(),
            final(self).spec_shutting_down() == old(self).spec_shutting_down(),
            final(self).spec_sender_closed() == old(self).spec_sender_closed(),
            final(self).spec_live_workers() == old(self).spec_live_workers(),
            final(self).spec_submitted() == old(self).spec_submitted(),
            final(self).spec_completed() == old(self).spec_completed(),
    {
        if self.queued.len() == 0 {
            None
        } else {
            let ticket = self.queued.remove(0);
            self.claimed.push(ticket);
            proof {
                let prev = *old(self);
                assert(self.spec_queued() == prev.spec_queued().remove(0));
                assert(self.spec_queued().to_multiset() == prev.spec_queued().to_multiset().remove(
                    ticket,
                ));
                assert(self.spec_claimed().to_multiset() =~= prev.spec_claimed().to_multiset().insert(
                    ticket,
                ));
                assert(self.spec_queued() =~= prev.spec_queued().drop_first());
                assert(self.spec_claimed()[self.spec_claimed().len() - 1] == ticket);
                assert forall|t: u64|
                    #[trigger] self.ticket_count(t) == (if t < self.spec_submitted() {
                        1nat
                    } else {
                        0nat
                    }) by {
                    assert(prev.ticket_count(t) == (if t < prev.spec_submitted() {
                        1nat
                    } else {
                        0nat
                    }));
                    assert(prev.spec_queued().to_multiset().count(ticket) > 0);
                }
            }
            Some(ticket)
        }
    }

    /// A worker reports the claimed ticket whose job has just finished: the
    /// ticket moves from the claimed bucket into the completed one. A job's
    /// own failure still completes its ticket — failures are reported to the
    /// diagnostics sink, never back into the pool's accounting.
    pub fn complete(&mut self, ticket: u64)
        requires
            old(self).wf(),
            old(self).spec_claimed().contains(ticket),
        ensures
            final(self).wf(),
            final(self).spec_completed() == old(self).spec_completed().push(ticket),
            final(self).spec_claimed().to_multiset() == old(self).spec_claimed().to_multiset().remove(
                ticket,
            ),
            final(self).spec_claimed().len() == old(self).spec_claimed().len() - 1,
            final(self).spec_size() == old(self).spec_size(),
            final(self).spec_shutting_down() == old(self).spec_shutting_down(),
            final(self).spec_sender_closed() == old(self).spec_sender_closed(),
            final(self).spec_live_workers() == old(self).spec_live_workers(),
            final(self).spec_submitted() == old(self).spec_submitted(),
            final(self).spec_queued() == old(self).spec_queued(),
    {
        let ghost prev = *old(self);
        let n = self.claimed.len();
        let mut i: usize = 0;
        while self.claimed[i] != ticket
            invariant
                *self == prev,
                n == prev.spec_claimed().len(),
                exists|k: int| i <= k < n && prev.spec_claimed()[k] == ticket,
            decreases n - i,
        {
            proof {
                let k = choose|k: int| i <= k < n && prev.spec_claimed()[k] == ticket;
                assert(i + 1 <= k);
            }
            i = i + 1;
        }
        self.claimed.remove(i);
        self.completed.push(ticket);
        proof {
            assert(self.spec_claimed() == prev.spec_claimed().remove(i as int));
            assert(prev.spec_claimed().remove(i as int).to_multiset() == prev.spec_claimed().to_multiset().remove(
                prev.spec_claimed()[i as int],
            ));
            assert(self.spec_claimed().to_multiset() == prev.spec_claimed().to_multiset().remove(
                ticket,
            ));
            assert(self.spec_completed().to_multiset() =~= prev.spec_completed().to_multiset().insert(
                ticket,
            ));
            assert forall|t: u64|
                #[trigger] self.ticket_count(t) == (if t < self.spec_submitted() {
                    1nat
                } else {
                    0nat
                }) by {
                assert(prev.ticket_count(t) == (if t < prev.spec_submitted() {
                    1nat
                } else {
                    0nat
                }));
                assert(prev.spec_claimed().to_multiset().count(ticket) > 0);
            }
        }
    }

    /// Begins the shutdown: the flag is set and the send end of the channel
    /// is dropped, in that order, as one step — the total order the protocol
    /// fixes, so a submitter can never find the channel gone while the flag
    /// still reads "running". Everything queued or claimed stays owed.
    /// A second call changes nothing: the flag is monotonic.
    pub fn begin_shutdown(&mut self)
        requires
            old(self).wf(),
        ensures
            final(self).wf(),
            final(self).spec_shutting_down(),
            final(self).spec_sender_closed(),
            final(self).spec_size() == old(self).spec_size(),
            final(self).spec_live_workers() == old(self).spec_live_workers(),
            final(self).spec_submitted() == old(self).spec_submitted(),
            final(self).spec_queued() == old(self).spec_queued(),
            final(self).spec_claimed() == old(self).spec_claimed(),
            final(self).spec_completed() == old(self).spec_completed(),
    {
        self.shutting_down = true;
        self.sender_closed = true;
        proof {
            assert forall|t: u64|
                #[trigger] self.ticket_count(t) == old(self).ticket_count(t) by {}
        }
    }

    /// A worker's thread function has returned and the pool accounted for it.
    pub fn worker_stopped(&mut self)
        requires
            old(self).wf(),
            old(self).spec_live_workers() > 0,
        ensures
            final(self).wf(),
            final(self).spec_live_workers() == old(self).spec_live_workers() - 1,
            final(self).spec_size() == old(self).spec_size(),
            final(self).spec_shutting_down() == old(self).spec_shutting_down(),
            final(self).spec_sender_closed() == old(self).spec_sender_closed(),
            final(self).spec_submitted() == old(self).spec_submitted(),
            final(self).spec_queued() == old(self).spec_queued(),
            final(self).spec_claimed() == old(self).spec_claimed(),
            final(self).spec_completed() == old(self).spec_completed(),
    {
        self.live_workers = self.live_workers - 1;
        proof {
            assert forall|t: u64|
                #[trigger] self.ticket_count(t) == old(self).ticket_count(t) by {}
        }
    }

    /// Whether every accepted job has been run: nothing queued, nothing still
    /// in a worker's hands. This is the condition a successful shutdown must
    /// reach before its deadline.
    pub fn drained(&self) -> (r: bool)
        ensures
            r == (self.spec_queued().len() == 0 && self.spec_claimed().len() == 0),
    {
        self.queued.len() == 0 && self.claimed.len() == 0
    }

    /// The number of workers the pool was built with.
    pub fn size(&self) -> (n: usize)
        ensures
            n == self.spec_size(),
    {
        self.size
    }

    /// The channel bound this pool's backpressure holds the queue to.
    pub fn capacity(&self) -> (c: usize)
        requires
            self.wf(),
        ensures
            c == self.spec_capacity(),
    {
        2 * self.size
    }

    /// Whether shutdown has begun.
    pub fn is_shutting_down(&self) -> (b: bool)
        ensures
            b == self.spec_shutting_down(),
    {
        self.shutting_down
    }

    /// How many jobs have been accepted so far.
    pub fn submitted(&self) -> (n: u64)
        ensures
            n == self.spec_submitted(),
    {
        self.next_ticket
    }

    /// How many accepted jobs no worker has claimed yet.
    pub fn queued_len(&self) -> (n: usize)
        ensures
            n == self.spec_queued().len(),
    {
        self.queued.len()
    }

    /// How many jobs are in a worker's hands right now.
    pub fn claimed_len(&self) -> (n: usize)
        ensures
            n == self.spec_claimed().len(),
    {
        self.claimed.len()
    }

    /// How many jobs have finished.
    pub fn completed_len(&self) -> (n: usize)
        ensures
            n == self.spec_completed().len(),
    {
        self.completed.len()
    }

    /// How many workers have not yet stopped.
    pub fn live_workers(&self) -> (n: usize)
        ensures
            n == self.spec_live_workers(),
    {
        self.live_workers
    }
}

/// The decision half of one submission over the real bounded channel: the
/// caller reads the shared shutdown flag and whether any worker is still
/// alive, and this function takes the admission decision and performs the
/// ticket push, classifying every outcome. Nothing is pushed once shutdown
/// has begun, so no job is ever silently accepted into a closing pool.
pub fn submit_ticket(
    channel: &JobChannel,
    shutting_down: bool,
    workers_alive: bool,
    ticket: u64,
) -> (r: Admission)
    ensures
        r is Rejected <==> shutting_down,
        r is Failed <==> (!shutting_down && !workers_alive),
        !shutting_down && workers_alive ==> (r == Admission::Accepted(ticket) || r is Saturated),
{
    if shutting_down {
        Admission::Rejected
    } else if !workers_alive {
        Admission::Failed
    } else {
        match channel.try_send(ticket) {
            Ok(_) => Admission::Accepted(ticket),
            Err(_) => Admission::Saturated,
        }
    }
}

/// What a submitter is handed for each admission outcome. Saturation is no
/// error: the submitter blocks until a worker makes room, which is the
/// backpressure contract; only a closing pool or a dead one refuses.
pub fn admission_error(r: &Admission) -> (e: Option<ThreadPoolError>)
    ensures
        match r {
            Admission::Accepted(_) => e is None,
            Admission::Saturated => e is None,
            Admission::Rejected => e == Some(ThreadPoolError::ShuttingDown),
            Admission::Failed => e == Some(ThreadPoolError::JobSendError),
        },
{
    match r {
        Admission::Accepted(_) => None,
        Admission::Saturated => None,
        Admission::Rejected => Some(ThreadPoolError::ShuttingDown),
        Admission::Failed => Some(ThreadPoolError::JobSendError),
    }
}

/// Law (exactly-once delivery): in a well-formed pool, every accepted ticket
/// is held in exactly one place — still queued, claimed by exactly one
/// worker, or completed — and a ticket never issued is held nowhere. Since
/// every step of the pool preserves well-formedness, an accepted job is never
/// duplicated and never silently dropped.
pub proof fn lemma_exactly_once(p: PoolCore)
    requires
        p.wf(),
    ensures
        forall|t: u64| t < p.spec_submitted() ==> #[trigger] p.ticket_count(t) == 1,
        forall|t: u64| t >= p.spec_submitted() ==> #[trigger] p.ticket_count(t) == 0,
{
}

/// Law (backpressure): a well-formed pool never holds more than twice its
/// size in unclaimed work, so memory is bounded and a submitter past that
/// bound is made to wait rather than being absorbed.
pub proof fn lemma_backpressure(p: PoolCore)
    requires
        p.wf(),
    ensures
        p.spec_queued().len() <= 2 * p.spec_size(),
{
}

/// Law (no loss on shutdown): once a pool is drained — nothing queued,
/// nothing in a worker's hands — every ticket ever accepted has been
/// completed, each exactly once, and nothing else has. A shutdown that
/// reports success reaches exactly this state, so no job accepted before the
/// shutdown is lost by it.
pub proof fn lemma_no_loss_when_drained(p: PoolCore)
    requires
        p.wf(),
        p.spec_queued().len() == 0,
        p.spec_claimed().len() == 0,
    ensures
        forall|t: u64|
            t < p.spec_submitted() ==> #[trigger] p.spec_completed().to_multiset().count(t) == 1,
        forall|t: u64| t < p.spec_submitted() ==> #[trigger] p.spec_completed().contains(t),
        forall|t: u64| #[trigger] p.spec_completed().contains(t) ==> t < p.spec_submitted(),
{
    assert(p.spec_queued() =~= Seq::<u64>::empty());
    assert(p.spec_claimed() =~= Seq::<u64>::empty());
    assert forall|t: u64| #[trigger] p.spec_completed().to_multiset().count(t) == p.ticket_count(
        t,
    ) by {
        assert(!p.spec_queued().contains(t));
        assert(!p.spec_claimed().contains(t));
    }
    assert forall|t: u64|
        t < p.spec_submitted() implies #[trigger] p.spec_completed().contains(t) by {
        assert(p.ticket_count(t) == 1);
    }
    assert forall|t: u64|
        #[trigger] p.spec_completed().contains(t) implies t < p.spec_submitted() by {
        if t >= p.spec_submitted() {
            assert(p.ticket_count(t) == 0);
        }
    }
}

} // verus!
