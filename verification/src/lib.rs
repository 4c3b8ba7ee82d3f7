//! A bridge between synchronous call sites and asynchronous computations.
//!
//! Synchronous code can run a computation to completion (`run_async`), launch
//! it concurrently (`spawn_async`), and later collect its outcome
//! (`handle_await`) without knowing whether an asynchronous execution context
//! is already active on the calling thread. Every entry point probes for an
//! active context and routes to it when one is found; otherwise it routes to a
//! process-wide fallback executor that is built lazily, at most once.

mod bridge;
mod config;
mod outcome;
mod runtime_link;

pub use bridge::Bridge;
pub use bridge::lemma_spawn_join_sound;
pub use config::RuntimeConfig;
pub use config::DEFAULT_WORKER_THREADS;
pub use config::DEFAULT_BLOCKING_BUDGET;
pub use outcome::JoinFailure;
pub use outcome::OutcomeHandle;
