use std::sync::atomic::{AtomicBool, Ordering};
use std::sync::Arc;
use std::time::{Duration, Instant};

use multicore::{WaitError, Waiter, Worker, WorkerPool};

/// Blocks the calling thread for `ms` milliseconds without spinning, by
/// waiting with a timeout on a channel nothing ever sends on.
fn sleep_ms(ms: u64) {
    let (_tx, rx) = crossbeam_channel::bounded::<()>(1);
    let _ = rx.recv_timeout(Duration::from_millis(ms));
}

#[test]
fn resolved_handle_yields_value() {
    let w = Waiter::done(5);
    assert_eq!(w.wait(), Ok(5));
}

#[test]
fn resolved_handle_yields_owned_value() {
    let w = Waiter::done(String::from("already here"));
    assert_eq!(w.wait(), Ok(String::from("already here")));
}

#[test]
fn resolved_handle_is_immediate() {
    let start = Instant::now();
    let w = Waiter::done(7_u64);
    assert_eq!(w.wait(), Ok(7_u64));
    assert!(start.elapsed() < Duration::from_millis(250));
}

#[test]
fn computed_value_matches_closure() {
    let worker = Worker::new();
    let w = worker.compute(|| 40 + 2);
    assert_eq!(w.wait(), Ok(42));
}

#[test]
fn computed_string_matches_closure() {
    let worker = Worker::new();
    let w = worker.compute(|| format!("{}-{}", "a", 1));
    assert_eq!(w.wait(), Ok(String::from("a-1")));
}

#[test]
fn compute_returns_before_the_result_exists() {
    let worker = Worker::new();
    let start = Instant::now();
    let w = worker.compute(|| {
        sleep_ms(300);
        11
    });
    assert!(start.elapsed() < Duration::from_millis(250));
    assert_eq!(w.wait(), Ok(11));
}

#[test]
fn sample_computation_offloads() {
    let worker = Worker::new();
    let w = worker.compute(multicore::worker::do_something);
    assert_eq!(w.wait(), Ok(String::from("I did something")));
}

#[test]
fn pool_of_n_runs_n_tasks_without_cross_delivery() {
    let pool = WorkerPool::new(4).expect("the pool threads should start");
    assert_eq!(pool.threads(), 4);
    let waiters: Vec<Waiter<usize>> = (0..4)
        .map(|i| {
            pool.submit(move || {
                sleep_ms(20);
                i * i
            })
        })
        .collect();
    for (i, w) in waiters.into_iter().enumerate() {
        assert_eq!(w.wait(), Ok(i * i));
    }
}

#[test]
fn default_sized_pool_has_a_thread_and_works() {
    let pool = WorkerPool::with_default_size().expect("the pool threads should start");
    assert!(pool.threads() >= 1);
    let w = pool.submit(|| 2 + 2);
    assert_eq!(w.wait(), Ok(4));
}

#[test]
fn oversized_pool_request_is_capped() {
    // The operating system may refuse to start this many threads; when it
    // does not, the stored count is the capped one, never the request.
    if let Some(pool) = WorkerPool::new(300) {
        assert_eq!(pool.threads(), 255);
        let w = pool.submit(|| 1 + 1);
        assert_eq!(w.wait(), Ok(2));
    }
}

#[test]
fn panicking_task_breaks_only_its_own_channel() {
    let pool = WorkerPool::new(2).expect("the pool threads should start");
    let accompanying = pool.submit(|| {
        sleep_ms(30);
        "fine"
    });
    let doomed: Waiter<i32> = pool.submit(|| panic!("task failure"));
    assert_eq!(doomed.wait(), Err(WaitError::ChannelBroken));
    assert_eq!(accompanying.wait(), Ok("fine"));
    let after = pool.submit(|| 3);
    assert_eq!(after.wait(), Ok(3));
}

#[test]
fn facade_panicking_task_breaks_only_its_own_channel() {
    let worker = Worker::new();
    let accompanying = worker.compute(|| {
        sleep_ms(30);
        "fine"
    });
    let doomed: Waiter<i32> = worker.compute(|| panic!("task failure"));
    assert_eq!(doomed.wait(), Err(WaitError::ChannelBroken));
    assert_eq!(accompanying.wait(), Ok("fine"));
    let after = worker.compute(|| 3);
    assert_eq!(after.wait(), Ok(3));
}

#[test]
fn configured_global_pool_keeps_its_size() {
    let took_effect = WorkerPool::configure_global(3);
    let pool = WorkerPool::global();
    if took_effect {
        assert_eq!(pool.threads(), 3);
    }
    assert!(pool.threads() >= 1);
    let w = pool.submit(|| 6 * 7);
    assert_eq!(w.wait(), Ok(42));
}

#[test]
fn dropped_waiter_leaves_pool_usable_and_task_runs() {
    let pool = WorkerPool::new(1).expect("the pool threads should start");
    let ran = Arc::new(AtomicBool::new(false));
    let ran_in_task = Arc::clone(&ran);
    let w = pool.submit(move || {
        sleep_ms(30);
        ran_in_task.store(true, Ordering::SeqCst);
        9
    });
    drop(w);
    let deadline = Instant::now() + Duration::from_secs(5);
    while !ran.load(Ordering::SeqCst) {
        assert!(Instant::now() < deadline, "the task never ran to completion");
        sleep_ms(5);
    }
    let after = pool.submit(|| 12);
    assert_eq!(after.wait(), Ok(12));
}

#[test]
fn nested_submission_awaited_outside_does_not_deadlock() {
    let pool = WorkerPool::new(1).expect("the pool threads should start");
    assert_eq!(pool.threads(), 1);
    let inner_pool = pool.clone();
    let outer = pool.submit(move || inner_pool.submit(|| 21 * 2));
    let inner = outer.wait().expect("the outer task completes");
    assert_eq!(inner.wait(), Ok(42));
}

#[test]
fn two_threads_overlap_three_tasks() {
    let pool = WorkerPool::new(2).expect("the pool threads should start");
    let start = Instant::now();
    let waiters: Vec<Waiter<usize>> = (0..3)
        .map(|i| {
            pool.submit(move || {
                sleep_ms(50);
                i
            })
        })
        .collect();
    let mut results: Vec<Result<usize, WaitError>> = Vec::new();
    for w in waiters.into_iter().rev() {
        results.push(w.wait());
    }
    let elapsed = start.elapsed();
    assert_eq!(results, vec![Ok(2), Ok(1), Ok(0)]);
    assert!(
        elapsed >= Duration::from_millis(95),
        "three 50ms tasks cannot finish on two threads in {:?}",
        elapsed
    );
    assert!(
        elapsed < Duration::from_millis(150),
        "two of the tasks should have run concurrently, not one after another; took {:?}",
        elapsed
    );
}
