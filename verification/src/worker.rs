//! The caller-facing facade: submit a computation, get a [`Waiter`] back.

use vstd::prelude::*;

use crate::channel::Waiter;
use crate::pool::WorkerPool;

verus! {

broadcast use vstd::string::to_string_from_display_ensures_for_str;

/// A cheap handle for offloading computations onto the process-wide pool.
#[derive(Clone)]
pub struct Worker {
    pool: WorkerPool,
}

impl Worker {
    /// Constructs a facade handle over the process-wide pool, initializing
    /// that pool on its first use.
    pub fn new() -> (w: Worker)
        ensures
            w.pool_wf(),
    {
        Worker { pool: WorkerPool::global() }
    }

    /// The pool this handle submits to satisfies the pool invariant.
    pub closed spec fn pool_wf(self) -> bool {
        self.pool.wf()
    }

    /// Submits `f` for asynchronous execution and returns immediately,
    /// without blocking; the returned handle, when awaited, yields exactly a
    /// value `f` itself can produce. `f` is invoked at most once.
    ///
    /// The returned [`Waiter`] must only be awaited from a context that is
    /// not itself executing inside the pool: a task may freely call `compute`
    /// to submit nested work, but must hand the nested handle out rather
    /// than block on it.
    pub fn compute<F, R>(&self, f: F) -> (w: Waiter<R>)
        where
            F: FnOnce() -> R + Send + 'static,
            R: Send + 'static,
        requires
            f.requires(()),
        ensures
            w.resolves_with(f),
    {
        self.pool.submit(f)
    }
}

/// For every closure `f`: a handle whose task is `f` can only yield results
/// of `f` itself, so what a successful wait on `Worker::compute(f)`'s handle
/// returns is a value satisfying `f`'s postcondition.
pub proof fn lemma_computed_wait_yields_closure_result<F: FnOnce() -> R, R>(
    w: Waiter<R>,
    f: F,
    got: R,
)
    requires
        w.resolves_with(f),
        w.predicate(got),
    ensures
        f.ensures((), got),
{
}

/// A small sample computation worth offloading.
pub fn do_something() -> (r: String)
    ensures
        r@ == "I did something"@,
{
    "I did something".to_string()
}

} // verus!
