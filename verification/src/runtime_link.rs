//! The trusted boundary to the outside executor.
//!
//! Everything the bridge needs from tokio and from `std::sync::OnceLock`
//! stands here: declarations of the outside types, and thin wrappers whose
//! contracts state what the outside calls do. Nothing else in the crate makes
//! an outside call.

use vstd::prelude::*;
use std::io::Write;
use crate::outcome::OutcomeHandle;

verus! {

#[verifier::external_type_specification]
#[verifier::external_body]
pub struct ExRuntime(tokio::runtime::Runtime);

#[verifier::external_type_specification]
#[verifier::external_body]
pub struct ExHandle(tokio::runtime::Handle);

#[verifier::external_type_specification]
#[verifier::external_body]
#[verifier::reject_recursive_types(T)]
pub struct ExJoinHandle<T>(tokio::task::JoinHandle<T>);

#[verifier::external_type_specification]
#[verifier::external_body]
pub struct ExJoinError(tokio::task::JoinError);

#[verifier::external_type_specification]
#[verifier::external_body]
#[verifier::reject_recursive_types(T)]
pub struct ExOnceLock<T>(std::sync::OnceLock<T>);

/// Relies on tokio::runtime::Handle::try_current: yields a handle to the
/// runtime active on the calling thread, or nothing when none is active.
/// The call never panics, allocates nothing beyond the handle copy, and has
/// no side effect. Whether a context is active depends on the calling
/// thread's environment, so nothing is promised of the outcome.
#[verifier::external_body]
pub(crate) fn probe_context() -> Option<tokio::runtime::Handle> {
    tokio::runtime::Handle::try_current().ok()
}

/// Relies on tokio::runtime::Builder (new_multi_thread, enable_all,
/// worker_threads, thread_name, build): builds a multi-threaded runtime with
/// `workers` worker threads. `worker_threads` panics on a count of zero,
/// which the precondition rules out. Should the operating system refuse the
/// pool's threads, `build` fails and this call aborts the process:
/// construction failure is fatal, since without an executor no bridge
/// operation can proceed.
#[verifier::external_body]
pub(crate) fn build_runtime(workers: usize) -> (rt: tokio::runtime::Runtime)
    requires
        1 <= workers,
{
    tokio::runtime::Builder::new_multi_thread()
        .enable_all()
        .worker_threads(workers)
        .thread_name("async-bridge fallback")
        .build()
        .expect("async_bridge: the fallback runtime could not be built")
}

/// Relies on std::sync::OnceLock::new: an empty cell, not yet initialized.
#[verifier::external_body]
pub(crate) fn runtime_cell_new() -> std::sync::OnceLock<tokio::runtime::Runtime> {
    std::sync::OnceLock::new()
}

/// Relies on std::sync::OnceLock::get_or_init: the first caller (one among
/// any number of concurrent first callers) runs the initializer exactly once;
/// every other caller blocks until it finishes; and every caller, now and
/// later, is handed a reference to that same, single value. The initializer
/// here is the crate's own `construct_fallback`, which is verified.
#[verifier::external_body]
pub(crate) fn runtime_cell_get_or_init<'a>(
    cell: &'a std::sync::OnceLock<tokio::runtime::Runtime>,
    workers: usize,
    log: bool,
) -> (rt: &'a tokio::runtime::Runtime)
    requires
        1 <= workers,
{
    cell.get_or_init(|| crate::bridge::Bridge::construct_fallback(workers, log))
}

/// Relies on tokio::runtime::Runtime::block_on and std::future::poll_fn:
/// drives a future on the calling thread until it completes and returns its
/// output. The future here does nothing but call `action` once and yield its
/// result, so the result is a value that `action` could return. Must not be
/// called from inside an asynchronous context (`block_on` panics there); the
/// bridge calls it only when the probe found none.
#[verifier::external_body]
pub(crate) fn block_on_runtime<T, F: FnOnce() -> T>(
    rt: &tokio::runtime::Runtime,
    action: F,
) -> (r: T)
    requires
        call_requires(action, ()),
    ensures
        call_ensures(action, (), r),
{
    let mut action = Some(action);
    rt.block_on(std::future::poll_fn(move |_cx| {
        std::task::Poll::Ready((action.take().unwrap())())
    }))
}

/// Relies on tokio::task::block_in_place and tokio::runtime::Handle::block_on,
/// combined as tokio's documentation shows for re-entering the context of a
/// multi-thread runtime: the calling thread first yields its worker slot (so
/// the pool is not starved by the blocking wait), then drives the future —
/// which does nothing but call `action` once — to completion and returns its
/// output. `block_in_place` panics on a current-thread runtime, which cannot
/// give up a worker slot: the bridge is for pools.
#[verifier::external_body]
pub(crate) fn block_on_context<T, F: FnOnce() -> T>(
    ctx: &tokio::runtime::Handle,
    action: F,
) -> (r: T)
    requires
        call_requires(action, ()),
    ensures
        call_ensures(action, (), r),
{
    let ctx = ctx.clone();
    let mut action = Some(action);
    tokio::task::block_in_place(move || {
        ctx.block_on(std::future::poll_fn(move |_cx| {
            std::task::Poll::Ready((action.take().unwrap())())
        }))
    })
}

/// Relies on tokio::runtime::Runtime::spawn and std::future::poll_fn: the
/// future — which does nothing but call `action` once and yield its result —
/// starts running concurrently on the runtime's pool right away, and the
/// call returns the task without waiting for it. The task, when awaited,
/// yields `action`'s output, or a JoinError when `action` panicked or the
/// task was cancelled. Nothing can be stated here of the opaque task; the
/// outcome handle built from it records `action`'s postcondition, and the
/// await wrappers below state the connection.
#[verifier::external_body]
pub(crate) fn spawn_on_runtime<T: Send + 'static, F: FnOnce() -> T + Send + 'static>(
    rt: &tokio::runtime::Runtime,
    action: F,
) -> tokio::task::JoinHandle<T> {
    let mut action = Some(action);
    rt.spawn(std::future::poll_fn(move |_cx| {
        std::task::Poll::Ready((action.take().unwrap())())
    }))
}

/// Relies on tokio::runtime::Handle::spawn: as `spawn_on_runtime`, but on an
/// already-active context instead of the fallback runtime.
#[verifier::external_body]
pub(crate) fn spawn_on_context<T: Send + 'static, F: FnOnce() -> T + Send + 'static>(
    ctx: &tokio::runtime::Handle,
    action: F,
) -> tokio::task::JoinHandle<T> {
    let mut action = Some(action);
    ctx.spawn(std::future::poll_fn(move |_cx| {
        std::task::Poll::Ready((action.take().unwrap())())
    }))
}

/// Relies on tokio::runtime::Runtime::block_on and on JoinHandle's Future
/// impl: awaiting the task blocks until it finishes, then yields `Ok` with
/// the spawned computation's output, or `Err` with a JoinError when the
/// computation panicked or was cancelled. The handle's ghost postcondition is
/// the postcondition of the closure its task runs — `spawn_async` is the one
/// place that builds a handle, and it records exactly that — so an `Ok` value
/// is a value the handle resolves to. Must not be called from inside an
/// asynchronous context.
#[verifier::external_body]
pub(crate) fn await_on_runtime<T: Send + 'static>(
    rt: &tokio::runtime::Runtime,
    handle: OutcomeHandle<T>,
) -> (r: Result<T, tokio::task::JoinError>)
    ensures
        r matches Ok(v) ==> handle.resolves_to(v),
{
    rt.block_on(handle.task)
}

/// Relies on tokio::task::block_in_place and tokio::runtime::Handle::block_on,
/// as in `block_on_context`, awaiting the task as in `await_on_runtime`: the
/// calling thread yields its worker slot, blocks until the task finishes, and
/// gets the spawned computation's output — a value the handle resolves to —
/// or a JoinError.
#[verifier::external_body]
pub(crate) fn await_on_context<T: Send + 'static>(
    ctx: &tokio::runtime::Handle,
    handle: OutcomeHandle<T>,
) -> (r: Result<T, tokio::task::JoinError>)
    ensures
        r matches Ok(v) ==> handle.resolves_to(v),
{
    let ctx = ctx.clone();
    tokio::task::block_in_place(move || ctx.block_on(handle.task))
}

/// Relies on tokio::task::JoinError::is_panic and on JoinError's shape: a
/// join error is caused either by a panic inside the task or by the task
/// being cancelled — there is no third case — so an error that is not a panic
/// is a cancellation.
#[verifier::external_body]
pub(crate) fn classify_join_error(err: &tokio::task::JoinError) -> crate::outcome::JoinFailure {
    if err.is_panic() {
        crate::outcome::JoinFailure::Panicked
    } else {
        crate::outcome::JoinFailure::Cancelled
    }
}

/// Relies on std::io::Stdout and writeln: prints one line on standard output.
/// Diagnostic only; no caller's contract depends on it.
#[verifier::external_body]
pub(crate) fn emit_line(line: &str) {
    let mut out = std::io::stdout();
    let _ = writeln!(out, "{}", line);
}

/// Relies on writeln and JoinError's Debug impl: prints one user-facing line
/// on standard output naming the join failure. Diagnostic only.
#[verifier::external_body]
pub(crate) fn report_join_failure(err: &tokio::task::JoinError) {
    let mut out = std::io::stdout();
    let _ = writeln!(out, "handle_await: failed with error {:?}", err);
}

} // verus!
