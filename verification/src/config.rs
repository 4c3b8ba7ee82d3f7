use vstd::prelude::*;

verus! {

/// Worker-thread count used when a fallback executor is built with the
/// default configuration.
pub const DEFAULT_WORKER_THREADS: usize = 4;

/// Advisory budget for threads that may block at the same time. It is
/// recorded at construction but not enforced anywhere: a documented,
/// currently inactive knob.
pub const DEFAULT_BLOCKING_BUDGET: usize = 3;

/// Immutable configuration consumed exactly once, when the fallback executor
/// is constructed. Changing a configuration value after that point has no
/// effect, because construction has already happened.
#[derive(Clone, Copy, Debug, PartialEq, Eq, Structural)]
pub struct RuntimeConfig {
    /// Number of worker threads of the fallback executor's pool.
    pub num_worker_threads: usize,
    /// Advisory number of calls that may block at the same time; recorded
    /// only, never enforced.
    pub num_blocking: usize,
}

impl RuntimeConfig {
    /// A configuration can build a pool only if it asks for at least one
    /// worker thread.
    pub open spec fn wf(self) -> bool {
        1 <= self.num_worker_threads
    }

    /// Builds a configuration from an explicit worker-thread count and
    /// blocking budget.
    pub fn new(num_worker_threads: usize, num_blocking: usize) -> (c: RuntimeConfig)
        requires
            1 <= num_worker_threads,
        ensures
            c.num_worker_threads == num_worker_threads,
            c.num_blocking == num_blocking,
            c.wf(),
    {
        RuntimeConfig { num_worker_threads, num_blocking }
    }
}

impl Default for RuntimeConfig {
    /// The default configuration: four worker threads and an advisory
    /// blocking budget of three.
    fn default() -> (c: RuntimeConfig)
        ensures
            c.num_worker_threads == DEFAULT_WORKER_THREADS,
            c.num_blocking == DEFAULT_BLOCKING_BUDGET,
            c.wf(),
    {
        RuntimeConfig {
            num_worker_threads: DEFAULT_WORKER_THREADS,
            num_blocking: DEFAULT_BLOCKING_BUDGET,
        }
    }
}

} // verus!
