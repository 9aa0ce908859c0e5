//! A minimal asynchronous task-offload library: a fixed-size worker pool
//! accepts closures, runs them off the calling thread, and hands the caller a
//! one-shot handle on which the result can later be awaited.
//!
//! The blocking discipline is: a task running on a pool thread must never
//! block waiting on work submitted to the same pool. Submission is always
//! fire-and-forget; only code outside the pool's execution context may call
//! [`Waiter::wait`].

pub mod channel;
pub mod pool;
pub mod worker;

pub use channel::{WaitError, Waiter};
pub use pool::WorkerPool;
pub use worker::Worker;
