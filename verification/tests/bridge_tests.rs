use async_bridge::{Bridge, JoinFailure, RuntimeConfig, DEFAULT_BLOCKING_BUDGET, DEFAULT_WORKER_THREADS};
use std::sync::Arc;
use std::time::{Duration, Instant};

/// Keeps the calling thread busy for the given time; used where a computation
/// must take a while.
fn busy_wait(d: Duration) {
    let start = Instant::now();
    while start.elapsed() < d {
        std::hint::spin_loop();
    }
}

#[test]
fn default_config_values() {
    let c = RuntimeConfig::default();
    assert_eq!(c.num_worker_threads, DEFAULT_WORKER_THREADS);
    assert_eq!(c.num_blocking, DEFAULT_BLOCKING_BUDGET);
    assert_eq!(c.num_worker_threads, 4);
    assert_eq!(c.num_blocking, 3);
}

#[test]
fn explicit_config_values() {
    let c = RuntimeConfig::new(2, 1);
    assert_eq!(c.num_worker_threads, 2);
    assert_eq!(c.num_blocking, 1);
}

#[test]
fn bridge_is_well_formed_after_new() {
    let b = Bridge::new(RuntimeConfig::default());
    assert!(b.is_well_formed());
}

#[test]
fn run_async_returns_computation_result() {
    // The concrete blocking-bridge scenario: () -> 2 * 21 on the primary
    // thread, with no active context, returns 42.
    let b = Bridge::new(RuntimeConfig::default());
    let r = b.run_async(|| 2 * 21);
    assert_eq!(r, 42);
}

#[test]
fn run_async_is_functionally_transparent() {
    // The bridge hands back exactly what the computation returns: a value
    // computed from captured state, not a default or an echo of the input.
    let b = Bridge::new(RuntimeConfig::default());
    let base: u64 = 1000;
    let r = b.run_async(move || base + 729);
    assert_eq!(r, 1729);
    let s = b.run_async(|| String::from("bridged"));
    assert_eq!(s, "bridged");
}

#[test]
fn fallback_is_reused_across_calls() {
    // All callers that take the no-active-context path observe the same
    // fallback executor instance: the accessor hands out one runtime.
    let b = Bridge::new(RuntimeConfig::default());
    let r = b.run_async(|| 2 * 21);
    assert_eq!(r, 42);
    let r = b.run_async(|| 2 * 21);
    assert_eq!(r, 42);
    assert!(std::ptr::eq(b.fallback(), b.fallback()));
}

#[test]
fn run_async_inside_spawned_computation_reuses_executor() {
    // A computation spawned on the fallback pool runs on a worker thread,
    // where a context is active: a nested blocking-bridge call from there
    // routes to that context and still returns 42, without deadlocking the
    // pool.
    let b = Arc::new(Bridge::new(RuntimeConfig::default()));
    let inner = b.clone();
    let h = b.spawn_async(move || inner.run_async(|| 2 * 21));
    assert_eq!(b.handle_await(h), Ok(42));
    assert!(std::ptr::eq(b.fallback(), b.fallback()));
}

#[test]
fn spawn_returns_before_computation_finishes() {
    let b = Bridge::new(RuntimeConfig::default());
    let start = Instant::now();
    let h = b.spawn_async(|| {
        busy_wait(Duration::from_millis(1000));
        42
    });
    assert!(start.elapsed() < Duration::from_millis(1000));
    let r = b.handle_await(h);
    assert_eq!(r, Ok(42));
}

#[test]
fn join_after_slow_computation_waits_and_yields_value() {
    // Spawn a computation that takes 1000ms and then returns 42; join right
    // away: the join blocks until the outcome exists and yields 42.
    let b = Bridge::new(RuntimeConfig::default());
    let start = Instant::now();
    let h = b.spawn_async(|| {
        busy_wait(Duration::from_millis(1000));
        42
    });
    let before_join = Instant::now();
    let r = b.handle_await(h);
    assert_eq!(r, Ok(42));
    assert!(start.elapsed() >= Duration::from_millis(1000));
    assert!(before_join.elapsed() >= Duration::from_millis(900));
}

#[test]
fn join_on_panicking_computation_yields_failure() {
    // A panic inside the spawned computation surfaces as a typed failure,
    // never as an unhandled fault in the joining caller.
    let b = Bridge::new(RuntimeConfig::default());
    let h = b.spawn_async(|| -> u64 { panic!("computation failed on purpose") });
    let r = b.handle_await(h);
    assert_eq!(r, Err(JoinFailure::Panicked));
}

#[test]
fn join_failure_describe() {
    assert_eq!(JoinFailure::Panicked.describe(), "the spawned computation panicked");
    assert_eq!(JoinFailure::Cancelled.describe(), "the spawned computation was cancelled");
}

#[test]
fn diagnostics_do_not_change_results() {
    // Toggling the diagnostics flag changes no return value of the bridges.
    let mut b = Bridge::new(RuntimeConfig::default());
    let quiet = b.run_async(|| 7 * 6);
    b.set_console_logging(true);
    let loud = b.run_async(|| 7 * 6);
    let h = b.spawn_async(|| 7 * 6);
    let joined_loud = b.handle_await(h);
    b.set_console_logging(false);
    let quiet_again = b.run_async(|| 7 * 6);
    let h = b.spawn_async(|| 7 * 6);
    let joined_quiet = b.handle_await(h);
    assert_eq!(quiet, 42);
    assert_eq!(loud, 42);
    assert_eq!(quiet_again, 42);
    assert_eq!(joined_loud, Ok(42));
    assert_eq!(joined_quiet, Ok(42));
}

#[test]
fn active_context_run_async() {
    // From a worker of an already-running runtime, the probe finds the active
    // context and the blocking bridge still returns the computation's value.
    let rt = tokio::runtime::Builder::new_multi_thread()
        .worker_threads(2)
        .enable_all()
        .build()
        .unwrap();
    let bridge = Arc::new(Bridge::new(RuntimeConfig::default()));
    let b = bridge.clone();
    let task = rt.spawn(std::future::poll_fn(move |_cx| {
        std::task::Poll::Ready(b.run_async(|| 6 * 7))
    }));
    let v = rt.block_on(task).unwrap();
    assert_eq!(v, 42);
}

#[test]
fn active_context_spawn_and_join() {
    // Spawn and join from a worker of an already-running runtime: the spawn
    // bridge routes to that context and the join still yields the value.
    let rt = tokio::runtime::Builder::new_multi_thread()
        .worker_threads(2)
        .enable_all()
        .build()
        .unwrap();
    let bridge = Arc::new(Bridge::new(RuntimeConfig::default()));
    let b = bridge.clone();
    let task = rt.spawn(std::future::poll_fn(move |_cx| {
        let h = b.spawn_async(|| 21 + 21);
        std::task::Poll::Ready(b.handle_await(h))
    }));
    let r = rt.block_on(task).unwrap();
    assert_eq!(r, Ok(42));
}

#[test]
fn spawned_computations_run_concurrently() {
    // Several spawned computations all complete and each joins to its own
    // value: outcomes are not mixed up between handles.
    let b = Bridge::new(RuntimeConfig::default());
    let mut handles = Vec::new();
    for i in 0..6u64 {
        handles.push(b.spawn_async(move || i * i));
    }
    let mut i = 0u64;
    for h in handles {
        assert_eq!(b.handle_await(h), Ok(i * i));
        i += 1;
    }
}
