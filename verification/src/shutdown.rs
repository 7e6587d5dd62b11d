//! The shutdown protocol's deadline accounting.
//!
//! A graceful shutdown sets the shared flag, drops the send end of the
//! channel, and then joins every worker, budgeting one caller-supplied
//! timeout across all the joins: whenever the deadline is found exhausted
//! before a worker has been joined, the shutdown gives up with a timeout
//! rather than blocking further (the remaining threads keep running — there
//! is no safe way to kill a thread mid-job). All times here are integral
//! milliseconds; the clock readings themselves come from the unverified rim,
//! every decision taken on them is verified here.

use vstd::prelude::*;
use vstd::string::StringExecFns;

use crate::errors::ThreadPoolError;

verus! {

/// How one shutdown ended.
#[derive(Clone, Copy, Debug, PartialEq, Eq, Structural)]
pub enum ShutdownVerdict {
    /// Every worker was joined within the deadline: all jobs accepted before
    /// the shutdown have run.
    Completed,
    /// The deadline was exhausted with workers still running.
    TimedOut,
    /// The worker with the contained index could not be joined: its thread
    /// panicked.
    JoinFailed(usize),
}

/// What is left of the deadline after `elapsed_ms` have passed: never less
/// than zero.
pub open spec fn spec_remaining(timeout_ms: u64, elapsed_ms: u64) -> u64 {
    if elapsed_ms >= timeout_ms {
        0u64
    } else {
        (timeout_ms - elapsed_ms) as u64
    }
}

/// The part of the deadline still available, saturating at zero.
pub fn remaining_budget(timeout_ms: u64, elapsed_ms: u64) -> (r: u64)
    ensures
        r == spec_remaining(timeout_ms, elapsed_ms),
{
    if elapsed_ms >= timeout_ms {
        0
    } else {
        timeout_ms - elapsed_ms
    }
}

/// The decision taken for one worker in the join loop: an exhausted budget
/// ends the shutdown with a timeout before the join is even attempted; a
/// join that failed ends it identifying the worker; otherwise the loop goes
/// on to the next worker.
pub fn join_step(timeout_ms: u64, elapsed_ms: u64, joined: bool, worker_index: usize) -> (r:
    Option<ShutdownVerdict>)
    ensures
        spec_remaining(timeout_ms, elapsed_ms) == 0 ==> r == Some(ShutdownVerdict::TimedOut),
        spec_remaining(timeout_ms, elapsed_ms) != 0 && !joined ==> r == Some(
            ShutdownVerdict::JoinFailed(worker_index),
        ),
        spec_remaining(timeout_ms, elapsed_ms) != 0 && joined ==> r is None,
{
    let remaining = remaining_budget(timeout_ms, elapsed_ms);
    if remaining == 0 {
        Some(ShutdownVerdict::TimedOut)
    } else if !joined {
        Some(ShutdownVerdict::JoinFailed(worker_index))
    } else {
        None
    }
}

/// The verdict reached by scanning the join loop's observations from worker
/// `i` on: `elapsed[j]` is the time already spent when worker `j` came up for
/// joining, `joined[j]` whether its join succeeded.
pub open spec fn spec_verdict_from(
    timeout_ms: u64,
    elapsed: Seq<u64>,
    joined: Seq<bool>,
    i: int,
) -> ShutdownVerdict
    decreases elapsed.len() - i,
{
    if i < 0 || i >= elapsed.len() {
        ShutdownVerdict::Completed
    } else if spec_remaining(timeout_ms, elapsed[i]) == 0 {
        ShutdownVerdict::TimedOut
    } else if !joined[i] {
        ShutdownVerdict::JoinFailed(i as usize)
    } else {
        spec_verdict_from(timeout_ms, elapsed, joined, i + 1)
    }
}

/// The verdict of a whole shutdown: the join loop's verdict, except that a
/// run whose joins all succeeded still times out when the deadline was
/// already past at the final check.
pub open spec fn spec_shutdown_verdict(
    timeout_ms: u64,
    elapsed: Seq<u64>,
    joined: Seq<bool>,
    final_elapsed_ms: u64,
) -> ShutdownVerdict {
    let scan = spec_verdict_from(timeout_ms, elapsed, joined, 0);
    if scan == ShutdownVerdict::Completed && final_elapsed_ms > timeout_ms {
        ShutdownVerdict::TimedOut
    } else {
        scan
    }
}

/// Replays a shutdown's observations — the elapsed time found before each
/// join and each join's success — into the verdict the protocol reaches:
/// the first exhausted budget or failed join decides, in worker order, and a
/// clean run is still held against the deadline once more at the end.
pub fn shutdown_verdict(
    timeout_ms: u64,
    elapsed: &Vec<u64>,
    joined: &Vec<bool>,
    final_elapsed_ms: u64,
) -> (r: ShutdownVerdict)
    requires
        elapsed@.len() == joined@.len(),
    ensures
        r == spec_shutdown_verdict(timeout_ms, elapsed@, joined@, final_elapsed_ms),
{
    let n = elapsed.len();
    let mut i: usize = 0;
    while i < n
        invariant
            n == elapsed@.len(),
            elapsed@.len() == joined@.len(),
            i <= n,
            spec_verdict_from(timeout_ms, elapsed@, joined@, 0) == spec_verdict_from(
                timeout_ms,
                elapsed@,
                joined@,
                i as int,
            ),
        decreases n - i,
    {
        let remaining = remaining_budget(timeout_ms, elapsed[i]);
        if remaining == 0 {
            return ShutdownVerdict::TimedOut;
        }
        if !joined[i] {
            return ShutdownVerdict::JoinFailed(i);
        }
        i = i + 1;
    }
    if final_elapsed_ms > timeout_ms {
        ShutdownVerdict::TimedOut
    } else {
        ShutdownVerdict::Completed
    }
}

/// Law: a shutdown reports success exactly when every worker came up for
/// joining with budget to spare, every join succeeded, and the deadline also
/// held at the final check — so "success" cannot be reported while any
/// accepted work was abandoned behind a still-running worker.
pub proof fn lemma_completed_iff_within_budget(
    timeout_ms: u64,
    elapsed: Seq<u64>,
    joined: Seq<bool>,
    final_elapsed_ms: u64,
)
    requires
        elapsed.len() == joined.len(),
    ensures
        spec_shutdown_verdict(timeout_ms, elapsed, joined, final_elapsed_ms)
            == ShutdownVerdict::Completed <==> (final_elapsed_ms <= timeout_ms && forall|i: int|
            0 <= i < elapsed.len() ==> #[trigger] elapsed[i] < timeout_ms && joined[i]),
{
    lemma_scan_completed(timeout_ms, elapsed, joined, 0);
}

proof fn lemma_scan_completed(timeout_ms: u64, elapsed: Seq<u64>, joined: Seq<bool>, i: int)
    requires
        elapsed.len() == joined.len(),
        0 <= i <= elapsed.len(),
    ensures
        spec_verdict_from(timeout_ms, elapsed, joined, i) == ShutdownVerdict::Completed <==> forall|
            j: int,
        | i <= j < elapsed.len() ==> #[trigger] elapsed[j] < timeout_ms && joined[j],
    decreases elapsed.len() - i,
{
    if i < elapsed.len() {
        lemma_scan_completed(timeout_ms, elapsed, joined, i + 1);
    }
}

/// Law (the timeout is honored): when no join fails but some worker comes up
/// for joining only after the deadline has already passed — workers stuck in
/// long jobs — the shutdown reports a timeout, it does not wait for the rest.
pub proof fn lemma_timeout_honored(
    timeout_ms: u64,
    elapsed: Seq<u64>,
    joined: Seq<bool>,
    final_elapsed_ms: u64,
)
    requires
        elapsed.len() == joined.len(),
        forall|i: int| 0 <= i < joined.len() ==> #[trigger] joined[i],
        exists|i: int| 0 <= i < elapsed.len() && #[trigger] elapsed[i] >= timeout_ms,
    ensures
        spec_shutdown_verdict(timeout_ms, elapsed, joined, final_elapsed_ms)
            == ShutdownVerdict::TimedOut,
{
    lemma_scan_completed(timeout_ms, elapsed, joined, 0);
    lemma_scan_all_joined(timeout_ms, elapsed, joined, 0);
}

proof fn lemma_scan_all_joined(timeout_ms: u64, elapsed: Seq<u64>, joined: Seq<bool>, i: int)
    requires
        elapsed.len() == joined.len(),
        0 <= i <= elapsed.len(),
        forall|j: int| 0 <= j < joined.len() ==> #[trigger] joined[j],
    ensures
        !(spec_verdict_from(timeout_ms, elapsed, joined, i) is JoinFailed),
    decreases elapsed.len() - i,
{
    if i < elapsed.len() {
        lemma_scan_all_joined(timeout_ms, elapsed, joined, i + 1);
    }
}

/// The decimal digit character for a value below ten.
pub open spec fn spec_digit_char(d: u64) -> char {
    if d == 0 {
        '0'
    } else if d == 1 {
        '1'
    } else if d == 2 {
        '2'
    } else if d == 3 {
        '3'
    } else if d == 4 {
        '4'
    } else if d == 5 {
        '5'
    } else if d == 6 {
        '6'
    } else if d == 7 {
        '7'
    } else if d == 8 {
        '8'
    } else {
        '9'
    }
}

/// The decimal rendering of `n`, most significant digit first, no leading
/// zeros (a lone zero for zero).
pub open spec fn spec_dec(n: u64) -> Seq<char>
    decreases n,
{
    if n < 10 {
        seq![spec_digit_char(n)]
    } else {
        spec_dec((n / 10) as u64) + seq![spec_digit_char(n % 10)]
    }
}

fn digit_str(d: u64) -> (s: &'static str)
    requires
        d < 10,
    ensures
        s@ == seq![spec_digit_char(d)],
{
    proof {
        reveal_strlit("0");
        reveal_strlit("1");
        reveal_strlit("2");
        reveal_strlit("3");
        reveal_strlit("4");
        reveal_strlit("5");
        reveal_strlit("6");
        reveal_strlit("7");
        reveal_strlit("8");
        reveal_strlit("9");
    }
    if d == 0 {
        proof {
            assert("0"@ =~= seq![spec_digit_char(0)]);
        }
        "0"
    } else if d == 1 {
        proof {
            assert("1"@ =~= seq![spec_digit_char(1)]);
        }
        "1"
    } else if d == 2 {
        proof {
            assert("2"@ =~= seq![spec_digit_char(2)]);
        }
        "2"
    } else if d == 3 {
        proof {
            assert("3"@ =~= seq![spec_digit_char(3)]);
        }
        "3"
    } else if d == 4 {
        proof {
            assert("4"@ =~= seq![spec_digit_char(4)]);
        }
        "4"
    } else if d == 5 {
        proof {
            assert("5"@ =~= seq![spec_digit_char(5)]);
        }
        "5"
    } else if d == 6 {
        proof {
            assert("6"@ =~= seq![spec_digit_char(6)]);
        }
        "6"
    } else if d == 7 {
        proof {
            assert("7"@ =~= seq![spec_digit_char(7)]);
        }
        "7"
    } else if d == 8 {
        proof {
            assert("8"@ =~= seq![spec_digit_char(8)]);
        }
        "8"
    } else {
        proof {
            assert("9"@ =~= seq![spec_digit_char(9)]);
        }
        "9"
    }
}

/// Renders `n` in decimal.
pub fn u64_to_dec(n: u64) -> (s: String)
    ensures
        s@ == spec_dec(n),
    decreases n,
{
    if n < 10 {
        String::from_str(digit_str(n))
    } else {
        let mut s = u64_to_dec(n / 10);
        s.append(digit_str(n % 10));
        proof {
            assert(s@ =~= spec_dec(n));
        }
        s
    }
}

/// The text carried by a join failure, identifying the worker.
pub open spec fn spec_join_error_message(worker_index: usize) -> Seq<char> {
    "Worker "@ + spec_dec(worker_index as u64) + " failed to join"@
}

/// Builds the join-failure text for one worker.
pub fn join_error_message(worker_index: usize) -> (m: String)
    ensures
        m@ == spec_join_error_message(worker_index),
{
    let mut m = String::from_str("Worker ");
    let dec = u64_to_dec(worker_index as u64);
    m.append(dec.as_str());
    m.append(" failed to join");
    proof {
        assert(m@ =~= spec_join_error_message(worker_index));
    }
    m
}

/// What the caller of a shutdown is handed for each verdict.
pub fn verdict_result(v: &ShutdownVerdict) -> (r: Result<(), ThreadPoolError>)
    ensures
        match v {
            ShutdownVerdict::Completed => r is Ok,
            ShutdownVerdict::TimedOut => r == Err::<(), ThreadPoolError>(
                ThreadPoolError::ShutdownTimeout,
            ),
            ShutdownVerdict::JoinFailed(w) => (r matches Err(e) && e matches
                ThreadPoolError::ThreadJoinError(m) && m@ == spec_join_error_message(*w)),
        },
{
    match v {
        ShutdownVerdict::Completed => Ok(()),
        ShutdownVerdict::TimedOut => Err(ThreadPoolError::ShutdownTimeout),
        ShutdownVerdict::JoinFailed(w) => Err(
            ThreadPoolError::ThreadJoinError(join_error_message(*w)),
        ),
    }
}

} // verus!
