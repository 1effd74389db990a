//! The handle of a scheduled task, as the synchronization primitives see it.
use vstd::prelude::*;

verus! {

/// A task of the runtime: the handle by which an executor finds and resumes a
/// suspended future.
///
/// The primitives of this crate only store tasks, hand them back and tell
/// `local` tasks (bound to the thread that created them) from `shared` ones.
#[derive(PartialEq, Eq, Debug, Structural)]
pub struct Task {
    id: u64,
    is_local: bool,
}

impl Task {
    /// Creates the handle of the task `id`.
    pub fn new(id: u64, is_local: bool) -> (t: Self)
        ensures
            t.spec_id() == id,
            t.spec_is_local() == is_local,
    {
        Task { id, is_local }
    }

    /// The identifier of the task.
    pub closed spec fn spec_id(&self) -> u64 {
        self.id
    }

    /// Whether the task is bound to the thread that created it.
    pub closed spec fn spec_is_local(&self) -> bool {
        self.is_local
    }

    /// Returns the identifier of the task.
    pub fn id(&self) -> (r: u64)
        ensures
            r == self.spec_id(),
    {
        self.id
    }

    /// Returns `true` if the task is bound to the thread that created it.
    pub fn is_local(&self) -> (r: bool)
        ensures
            r == self.spec_is_local(),
    {
        self.is_local
    }
}

} // verus!
