use vstd::prelude::*;

verus! {

/// Why joining a spawned computation failed: the computation panicked while
/// running, or its task was cancelled before it could finish.
#[derive(Clone, Copy, Debug, PartialEq, Eq, Structural)]
pub enum JoinFailure {
    /// The spawned computation panicked.
    Panicked,
    /// The spawned computation's task was cancelled (or its pool shut down)
    /// before the computation finished.
    Cancelled,
}

impl JoinFailure {
    /// A short, user-facing description of the failure.
    pub fn describe(&self) -> (s: &'static str)
        ensures
            self is Panicked ==> s@ == "the spawned computation panicked"@,
            self is Cancelled ==> s@ == "the spawned computation was cancelled"@,
    {
        match self {
            JoinFailure::Panicked => "the spawned computation panicked",
            JoinFailure::Cancelled => "the spawned computation was cancelled",
        }
    }
}

/// A caller-held reference to a computation that is running concurrently.
///
/// The handle stands for an eventual outcome: pending at first, then either
/// the computation's value or a failure. It is produced by the spawn bridge
/// and consumed exactly once by a join.
///
/// The ghost `post` records which values the spawned computation could return:
/// exactly the values its own postcondition allows. A value joined from the
/// handle is always one of these.
#[verifier::reject_recursive_types(T)]
pub struct OutcomeHandle<T> {
    /// The running task that will produce the outcome.
    pub(crate) task: tokio::task::JoinHandle<T>,
    /// The postcondition of the computation this handle was spawned from.
    pub(crate) post: Ghost<spec_fn(T) -> bool>,
}

impl<T> OutcomeHandle<T> {
    /// Holds of `v` when the computation behind this handle could have
    /// returned `v`: joining the handle yields `Ok` only with such a value.
    pub closed spec fn resolves_to(self, v: T) -> bool {
        (self.post@)(v)
    }

    /// Wraps a freshly spawned task, recording the postcondition of the
    /// computation that task runs. The spawn bridge is the only caller, and
    /// hands in exactly that computation's postcondition: the await wrappers'
    /// contracts rest on this.
    pub(crate) fn from_task(
        task: tokio::task::JoinHandle<T>,
        post: Ghost<spec_fn(T) -> bool>,
    ) -> (h: Self)
        ensures
            forall|v: T| #[trigger] h.resolves_to(v) <==> (post@)(v),
    {
        OutcomeHandle { task, post }
    }
}

} // verus!
