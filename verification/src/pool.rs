//! The bounded set of execution threads that runs submitted tasks.
//!
//! A [`WorkerPool`] either owns a dedicated set of threads, sized at creation,
//! or stands for the lazily initialized process-wide pool. Submission is
//! fire-and-forget and never blocks the submitter; results travel through the
//! one-shot handoff of [`crate::channel`].

use vstd::prelude::*;

use crate::channel::{OneShotSender, Waiter};

verus! {

/// Verus declaration of rayon's thread pool type.
#[verifier::external_type_specification]
#[verifier::external_body]
pub struct ExThreadPool(rayon::ThreadPool);

/// A bounded set of execution threads. Invariant: at least one thread.
///
/// Cloning the handle shares the same threads. Tasks run in whatever order
/// the scheduler picks; nothing is guaranteed about the order of independent
/// tasks, only that each submitted task eventually runs to completion.
#[derive(Clone)]
pub struct WorkerPool {
    dedicated: Option<std::sync::Arc<rayon::ThreadPool>>,
    threads: usize,
}

/// The largest thread count a dedicated pool can be built with: rayon's own
/// soft cap on a pool's size.
pub const MAX_POOL_THREADS: usize = 255;

/// Builds a dedicated pool of exactly `threads` OS threads, or reports `None`
/// when the operating system refuses to start them.
///
/// Relies on `rayon::ThreadPoolBuilder`: `num_threads(threads)` with
/// `threads` between 1 and rayon's soft cap of 255 makes `build` start
/// exactly that many worker threads (above the cap rayon would silently
/// build fewer, so such counts are excluded here). The installed panic
/// handler discards the payload of a panicking task, so a panic neither
/// takes the pool's thread down nor aborts the process; the task's handoff
/// producer is dropped unsent, and its waiter reports the broken channel.
#[verifier::external_body]
fn build_pool(threads: usize) -> (r: Option<std::sync::Arc<rayon::ThreadPool>>)
    requires
        1 <= threads <= MAX_POOL_THREADS,
{
    let built = rayon::ThreadPoolBuilder::new()
        .num_threads(threads)
        .panic_handler(|_| {})
        .build();
    match built {
        Ok(pool) => Some(std::sync::Arc::new(pool)),
        Err(_) => None,
    }
}

/// Schedules `op` on one of a dedicated pool's threads and returns at once.
///
/// Relies on `rayon::ThreadPool::spawn`: the closure is queued for execution
/// on a pool thread, runs exactly once, and the submitter is not blocked.
#[verifier::external_body]
fn dedicated_spawn<F: FnOnce() + Send + 'static>(pool: &std::sync::Arc<rayon::ThreadPool>, op: F)
    requires
        op.requires(()),
{
    pool.spawn(op);
}

/// Schedules `op` on the calling thread's pool — the process-wide pool,
/// unless the caller is itself a worker thread of a dedicated pool — and
/// returns at once.
///
/// Relies on `rayon::spawn`: the closure is queued on the calling thread's
/// registry (the lazily initialized global one when the caller is not a pool
/// thread), runs exactly once, and the submitter is not blocked.
#[verifier::external_body]
fn global_spawn<F: FnOnce() + Send + 'static>(op: F)
    requires
        op.requires(()),
{
    rayon::spawn(op);
}

/// Reports the thread count of the calling thread's pool — the process-wide
/// pool, unless the caller is itself a worker thread of a dedicated pool —
/// initializing the process-wide pool if this is its first use.
///
/// Relies on `rayon::current_num_threads`: every registry, the global one
/// included, holds at least one thread.
#[verifier::external_body]
fn global_pool_threads() -> (r: usize)
    ensures
        r >= 1,
{
    rayon::current_num_threads()
}

/// Initializes the process-wide pool, if no code has done so yet, with a
/// panic handler that discards the payload of a panicking task, and with
/// exactly `threads` threads when `threads > 0` (0 leaves the sizing to
/// rayon's default). Reports whether this call performed the initialization;
/// when it did not, the pool keeps whatever configuration its initializer
/// gave it.
///
/// Relies on `rayon::ThreadPoolBuilder::build_global`: it builds the global
/// registry once, returning an error (and changing nothing) when that
/// registry already exists; `num_threads(0)` means automatic sizing.
#[verifier::external_body]
fn init_global_pool(threads: usize) -> (r: bool) {
    rayon::ThreadPoolBuilder::new()
        .num_threads(threads)
        .panic_handler(|_| {})
        .build_global()
        .is_ok()
}

/// Reports the host's number of available hardware execution units.
///
/// Relies on `num_cpus::get`, which always returns at least 1.
#[verifier::external_body]
fn detected_cpus() -> (r: usize)
    ensures
        r >= 1,
{
    num_cpus::get()
}

impl WorkerPool {
    /// The number of threads this pool runs tasks on.
    pub closed spec fn thread_count(self) -> usize {
        self.threads
    }

    /// The pool invariant: it has at least one execution thread.
    pub open spec fn wf(self) -> bool {
        self.thread_count() >= 1
    }

    /// Builds a dedicated pool of exactly `threads` execution threads —
    /// capped at [`MAX_POOL_THREADS`], rayon's limit on a pool's size.
    /// Reports `None` only when the operating system refuses to start the
    /// threads.
    pub fn new(threads: usize) -> (r: Option<WorkerPool>)
        requires
            threads >= 1,
        ensures
            r matches Some(p) ==> p.wf() && p.thread_count() == (
            if threads <= MAX_POOL_THREADS {
                threads
            } else {
                MAX_POOL_THREADS
            }),
    {
        let capped = if threads <= MAX_POOL_THREADS {
            threads
        } else {
            MAX_POOL_THREADS
        };
        match build_pool(capped) {
            Some(pool) => Some(WorkerPool { dedicated: Some(pool), threads: capped }),
            None => None,
        }
    }

    /// Builds a dedicated pool sized to the host's detected hardware
    /// concurrency. Reports `None` only when the operating system refuses to
    /// start the threads.
    pub fn with_default_size() -> (r: Option<WorkerPool>)
        ensures
            r matches Some(p) ==> p.wf(),
    {
        let threads = detected_cpus();
        WorkerPool::new(threads)
    }

    /// A handle to the process-wide pool, which is initialized lazily, on
    /// first use, and lives until process exit. When this library performs
    /// that first initialization, it installs the panic handler that keeps a
    /// panicking task from taking the process down; if other code initialized
    /// the pool first, without such a handler, a panicking task there aborts
    /// the process, as rayon does by default.
    pub fn global() -> (r: WorkerPool)
        ensures
            r.wf(),
    {
        init_global_pool(0);
        let threads = global_pool_threads();
        WorkerPool { dedicated: None, threads }
    }

    /// Sizes the process-wide pool from a configuration value, if that pool
    /// has not been initialized yet, installing the same panic handler as
    /// [`WorkerPool::global`]. Reports whether the configuration took
    /// effect: once the pool exists, its size is fixed for the life of the
    /// process, and a later call changes nothing.
    pub fn configure_global(threads: usize) -> (r: bool)
        requires
            threads >= 1,
    {
        init_global_pool(threads)
    }

    /// The number of threads this pool runs tasks on.
    pub fn threads(&self) -> (r: usize)
        ensures
            r == self.thread_count(),
    {
        self.threads
    }

    /// Schedules `op` for execution on one of this pool's threads, without
    /// blocking: the call returns immediately, fire-and-forget. `op` runs
    /// exactly once, possibly concurrently with other tasks and out of
    /// submission order.
    ///
    /// It is safe to call `spawn` from a task already running on this pool;
    /// only blocking on such nested work from a pool thread is not.
    pub fn spawn<F: FnOnce() + Send + 'static>(&self, op: F)
        requires
            op.requires(()),
    {
        match &self.dedicated {
            Some(pool) => dedicated_spawn(pool, op),
            None => global_spawn(op),
        }
    }

    /// Submits `f` for asynchronous execution and immediately returns the
    /// handle its result can be awaited on: every value the handle can yield
    /// is a result `f` itself can produce.
    ///
    /// `f` runs exactly once, on one of this pool's threads. If it panics,
    /// the pool and other tasks are unaffected and the handle's
    /// [`Waiter::wait`] reports a broken channel instead of the value. This
    /// isolation holds for every pool this library initializes; for the
    /// process-wide pool, see the caveat on [`WorkerPool::global`].
    pub fn submit<F, R>(&self, f: F) -> (w: Waiter<R>)
        where
            F: FnOnce() -> R + Send + 'static,
            R: Send + 'static,
        requires
            f.requires(()),
        ensures
            w.resolves_with(f),
    {
        let (sender, waiter) = crate::channel::channel_for(&f);
        self.spawn(move || crate::channel::run_task(f, sender));
        waiter
    }
}

} // verus!
