//! A bounded worker pool: a fixed set of long-lived worker threads consuming
//! jobs from a shared bounded queue, with a timeout-bounded graceful shutdown.
//!
//! This crate is the verified coordination core of such a pool. It provides:
//! the pool's admission and lifecycle accounting ([`pool`]), the worker's
//! polling state machine ([`worker`]), the shutdown deadline budgeting and
//! join verdicts ([`shutdown`]), the bounded ticket channel that carries
//! accepted jobs to workers ([`channel`]), and the error taxonomy
//! ([`errors`]). The thread, lock and I/O plumbing around this core is
//! deliberately unverified and lives outside the library; every decision it
//! has to make is a verified function in here.

pub mod channel;
pub mod errors;
pub mod pool;
pub mod shutdown;
pub mod worker;
