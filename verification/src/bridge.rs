//! The dual-mode execution bridge.
//!
//! Every entry point first probes for an asynchronous execution context on
//! the calling thread. A hit routes the computation to that context; a miss
//! routes it to the bridge's fallback executor, built lazily and at most
//! once. The diagnostics flag gates an optional report line and nothing else:
//! no contract here depends on it.

use vstd::prelude::*;
use crate::config::RuntimeConfig;
use crate::outcome::{JoinFailure, OutcomeHandle};
use crate::runtime_link::{
    await_on_context, await_on_runtime, block_on_context, block_on_runtime, build_runtime,
    classify_join_error, emit_line, probe_context, report_join_failure, runtime_cell_get_or_init,
    runtime_cell_new, spawn_on_context, spawn_on_runtime,
};

verus! {

/// The bridge between synchronous callers and asynchronous execution.
///
/// It owns the process-wide mutable state: the lazily built fallback
/// executor, the configuration that executor is built from (consumed exactly
/// once, at construction), and the diagnostics flag.
pub struct Bridge {
    /// Consumed exactly once, when the fallback executor is first needed.
    config: RuntimeConfig,
    /// Gates the diagnostic report lines; affects no result.
    logging: bool,
    /// The fallback executor's cell: empty until the first caller that finds
    /// no active context, then holding the one runtime for good.
    fallback_cell: std::sync::OnceLock<tokio::runtime::Runtime>,
}

impl Bridge {
    /// A bridge is well-formed when its configuration can build a pool.
    pub closed spec fn wf(self) -> bool {
        self.config.wf()
    }

    /// The configuration the fallback executor is (or will be) built from.
    pub closed spec fn config_spec(self) -> RuntimeConfig {
        self.config
    }

    /// Whether diagnostic reporting is enabled.
    pub closed spec fn logging_enabled(self) -> bool {
        self.logging
    }

    /// The state of the fallback executor's cell. The bridges' result
    /// contracts never depend on it changing hands: only lazy construction
    /// fills it, once.
    pub closed spec fn fallback_state(self) -> std::sync::OnceLock<tokio::runtime::Runtime> {
        self.fallback_cell
    }

    /// Builds a bridge with the given configuration. No executor is built
    /// yet: the fallback executor is constructed lazily, by the first bridge
    /// call that finds no active context. Diagnostics start disabled.
    pub fn new(config: RuntimeConfig) -> (b: Bridge)
        requires
            config.wf(),
        ensures
            b.wf(),
            b.config_spec() == config,
            !b.logging_enabled(),
    {
        Bridge { config, logging: false, fallback_cell: runtime_cell_new() }
    }

    /// Runtime check for well-formedness, for callers outside verified code.
    pub fn is_well_formed(&self) -> (b: bool)
        ensures
            b == self.wf(),
    {
        1 <= self.config.num_worker_threads
    }

    /// Whether diagnostic reporting is currently enabled.
    pub fn console_logging(&self) -> (v: bool)
        ensures
            v == self.logging_enabled(),
    {
        self.logging
    }

    /// Turns diagnostic reporting on or off.
    ///
    /// Observability is side-channel only: the toggle changes the flag and
    /// nothing else — configuration and executor state stay as they were —
    /// and the result contracts of `run_async`, `spawn_async` and
    /// `handle_await` do not mention the flag.
    pub fn set_console_logging(&mut self, value: bool)
        ensures
            final(self).logging_enabled() == value,
            final(self).config_spec() == old(self).config_spec(),
            final(self).fallback_state() == old(self).fallback_state(),
            final(self).wf() == old(self).wf(),
    {
        self.logging = value;
    }

    /// Builds the fallback runtime; runs at most once per bridge, inside the
    /// cell's initializer. Emits the construction diagnostic exactly then, if
    /// logging is enabled at that instant.
    pub(crate) fn construct_fallback(workers: usize, log: bool) -> (rt: tokio::runtime::Runtime)
        requires
            1 <= workers,
    {
        if log {
            emit_line("ASYNC_BRIDGE: starting the fallback runtime");
        }
        build_runtime(workers)
    }

    /// The fallback executor, built on first use and the same instance ever
    /// after: every caller that takes the no-active-context path observes
    /// this one runtime.
    pub fn fallback(&self) -> &tokio::runtime::Runtime
        requires
            self.wf(),
    {
        runtime_cell_get_or_init(&self.fallback_cell, self.config.num_worker_threads, self.logging)
    }

    /// The blocking bridge: runs `action` to completion and returns its
    /// result synchronously.
    ///
    /// When an execution context is active on the calling thread, the
    /// computation is driven on that context while the calling thread yields
    /// its worker slot, so the context's pool is not starved by the blocking
    /// wait. Otherwise the fallback executor drives it. Either way the result
    /// is exactly a value `action` could return when called directly: the
    /// bridge transforms nothing.
    pub fn run_async<T, F: FnOnce() -> T>(&self, action: F) -> (r: T)
        requires
            self.wf(),
            call_requires(action, ()),
        ensures
            call_ensures(action, (), r),
    {
        match probe_context() {
            Some(ctx) => {
                if self.logging {
                    emit_line("ASYNC_BRIDGE-run_async: blocking in place on the active context");
                }
                block_on_context(&ctx, action)
            },
            None => {
                if self.logging {
                    emit_line("ASYNC_BRIDGE-run_async: no active context, using the fallback runtime");
                }
                block_on_runtime(self.fallback(), action)
            },
        }
    }

    /// The spawn bridge: launches `action` concurrently and returns a handle
    /// to its eventual outcome without waiting.
    ///
    /// Routing is as in `run_async`: an active context if the probe finds
    /// one, the fallback executor otherwise. The computation starts running
    /// independently of the caller's subsequent control flow. The returned
    /// handle resolves exactly to the values `action` could return, so a
    /// later join yields one of them.
    pub fn spawn_async<T: Send + 'static, F: FnOnce() -> T + Send + 'static>(
        &self,
        action: F,
    ) -> (h: OutcomeHandle<T>)
        requires
            self.wf(),
            call_requires(action, ()),
        ensures
            forall|v: T| #[trigger] h.resolves_to(v) <==> call_ensures(action, (), v),
    {
        let ghost_post: Ghost<spec_fn(T) -> bool> = Ghost(|v: T| call_ensures(action, (), v));
        let task = match probe_context() {
            Some(ctx) => {
                if self.logging {
                    emit_line("ASYNC_BRIDGE-spawn_async: launching on the active context");
                }
                spawn_on_context(&ctx, action)
            },
            None => {
                if self.logging {
                    emit_line("ASYNC_BRIDGE-spawn_async: no active context, using the fallback runtime");
                }
                spawn_on_runtime(self.fallback(), action)
            },
        };
        OutcomeHandle::from_task(task, ghost_post)
    }

    /// The join adapter: blocks until the spawned computation behind `handle`
    /// has an outcome, and converts failure into a reported error.
    ///
    /// On success the computation's value is returned: a value the handle
    /// resolves to, hence one the spawned computation could itself have
    /// returned. On failure — the computation panicked or its task was
    /// cancelled — the failure is reported once on the diagnostic channel
    /// (unconditionally: this report is user-facing, not gated by the
    /// logging flag) and returned as a typed `JoinFailure`, never re-raised.
    pub fn handle_await<T: Send + 'static>(&self, handle: OutcomeHandle<T>) -> (r: Result<
        T,
        JoinFailure,
    >)
        requires
            self.wf(),
        ensures
            r matches Ok(v) ==> handle.resolves_to(v),
    {
        if self.logging {
            emit_line("ASYNC_BRIDGE-handle_await: awaiting a spawned outcome");
        }
        let outcome = match probe_context() {
            Some(ctx) => await_on_context(&ctx, handle),
            None => await_on_runtime(self.fallback(), handle),
        };
        match outcome {
            Ok(value) => Ok(value),
            Err(err) => {
                report_join_failure(&err);
                Err(classify_join_error(&err))
            },
        }
    }
}

/// Law: joining is sound for spawned values. If a handle was spawned from
/// `action` — so it resolves exactly to the values `action`'s postcondition
/// allows, as `spawn_async` ensures — and a join on it yielded `Ok(v)` — a
/// value the handle resolves to, as `handle_await` ensures — then `v` is a
/// value `action` could have returned when called directly.
pub proof fn lemma_spawn_join_sound<T, F: FnOnce() -> T>(
    action: F,
    handle: OutcomeHandle<T>,
    r: Result<T, JoinFailure>,
)
    requires
        forall|v: T| #[trigger] handle.resolves_to(v) <==> call_ensures(action, (), v),
        r matches Ok(v) ==> handle.resolves_to(v),
    ensures
        r matches Ok(v) ==> call_ensures(action, (), v),
{
}

} // verus!
