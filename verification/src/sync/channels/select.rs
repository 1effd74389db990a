//! The task of a `select` over channels, shared by its branches: the first
//! branch that acquires it resolves the select and gets the task to wake.
use crate::runtime::Task;
use std::sync::Arc;
use vstd::prelude::*;
use vstd::rwlock::RwLockPredicate;

verus! {

/// The shared state of a select: its task until a branch acquires it, and the
/// branch that did.
pub struct SelectState {
    task: Option<Task>,
    resolved_branch_id: Option<usize>,
}

/// What acquiring a select for branch `branch` does to its state, in sequence:
/// a select that is not resolved gives its task to the branch and is resolved by
/// it; a resolved select stays as it is and gives nothing.
pub open spec fn select_take(state: SelectState, branch: usize) -> (SelectState, Option<Task>) {
    match state.spec_task() {
        Some(task) => (SelectState::resolved_by(branch), Some(task)),
        None => (state, None),
    }
}

/// A select is resolved by at most one of its branches: along any run of
/// acquisitions of one select by its branches, at most one of them gets the
/// select's task; once it did, the select stays resolved by that branch, and the
/// first acquisition of a select that was not resolved is the one that gets it.
pub proof fn lemma_select_resolved_at_most_once(
    states: Seq<SelectState>,
    branches: Seq<usize>,
    results: Seq<Option<Task>>,
)
    requires
        states.len() == results.len() + 1,
        branches.len() == results.len(),
        forall|i: int|
            0 <= i < results.len() ==> (states[i + 1], #[trigger] results[i]) == select_take(
                states[i],
                branches[i],
            ),
    ensures
        forall|i: int, j: int|
            0 <= i < j < results.len() && #[trigger] results[i] is Some ==> #[trigger] results[j] is None,
        forall|i: int, j: int|
            0 <= i < results.len() && i < j < states.len() && #[trigger] results[i] is Some
                ==> #[trigger] states[j].spec_resolved_branch_id() == Some(branches[i]),
        states[0].spec_task() is Some && results.len() > 0 ==> results[0] == states[0].spec_task(),
{
    assert forall|i: int, j: int|
        0 <= i < results.len() && i < j < states.len() && #[trigger] results[i] is Some
            implies #[trigger] states[j].spec_resolved_branch_id() == Some(branches[i]) by {
        lemma_select_stays_resolved(states, branches, results, i, j);
    }
    assert forall|i: int, j: int|
        0 <= i < j < results.len() && #[trigger] results[i] is Some implies #[trigger] results[j] is None by {
        lemma_select_stays_resolved(states, branches, results, i, j);
    }
}

/// After the acquisition `i` got the task, every later state of the run is
/// resolved by its branch.
proof fn lemma_select_stays_resolved(
    states: Seq<SelectState>,
    branches: Seq<usize>,
    results: Seq<Option<Task>>,
    i: int,
    j: int,
)
    requires
        states.len() == results.len() + 1,
        branches.len() == results.len(),
        forall|k: int|
            0 <= k < results.len() ==> (states[k + 1], #[trigger] results[k]) == select_take(
                states[k],
                branches[k],
            ),
        0 <= i < results.len(),
        i < j < states.len(),
        results[i] is Some,
    ensures
        states[j].spec_resolved_branch_id() == Some(branches[i]),
        states[j].spec_task() is None,
    decreases j - i,
{
    if j == i + 1 {
        let _ = results[i];
    } else {
        lemma_select_stays_resolved(states, branches, results, i, j - 1);
        let _ = results[j - 1];
    }
}

impl SelectState {
    /// The select's task, while no branch has resolved it.
    pub closed spec fn spec_task(&self) -> Option<Task> {
        self.task
    }

    /// The branch that resolved the select, once one did.
    pub closed spec fn spec_resolved_branch_id(&self) -> Option<usize> {
        self.resolved_branch_id
    }

    /// The state of a select resolved by branch `branch`.
    pub closed spec fn resolved_by(branch: usize) -> SelectState {
        SelectState { task: None, resolved_branch_id: Some(branch) }
    }

    /// Gives the select's task to branch `branch` if no branch has resolved the
    /// select, which is then resolved by it; does nothing otherwise.
    pub fn take_for_branch(&mut self, branch: usize) -> (r: Option<Task>)
        ensures
            (*final(self), r) == select_take(*old(self), branch),
    {
        match self.task.take() {
            Some(task) => {
                self.resolved_branch_id = Some(branch);
                Some(task)
            },
            None => None,
        }
    }
}

/// The invariant of a [`SelectState`]: the task is there exactly while no branch
/// has resolved the select, and it is the select's own task.
pub struct SelectStateIsConsistent {
    /// The identifier of the select's task.
    pub select_id: u64,
}

/// The task of a select state is there exactly while no branch has resolved the
/// select, and it is the task `select_id`.
pub closed spec fn select_state_consistent(state: SelectState, select_id: u64) -> bool {
    &&& (state.task is None <==> state.resolved_branch_id is Some)
    &&& (state.task matches Some(t) ==> t.spec_id() == select_id)
}

impl RwLockPredicate<SelectState> for SelectStateIsConsistent {
    open spec fn inv(self, state: SelectState) -> bool {
        select_state_consistent(state, self.select_id)
    }
}

/// The task of a select, shared by all of its branches.
pub struct TaskInSelect {
    id: u64,
    is_local: bool,
    inner: Arc<vstd::rwlock::RwLock<SelectState, SelectStateIsConsistent>>,
}

/// One branch of a select: the shared task and the number of the branch.
pub struct TaskInSelectBranch {
    task_in_select: TaskInSelect,
    associated_branch_id: usize,
}

/// The outcome of acquiring the selects of two branches together.
pub enum TwoAcquisition {
    /// Both selects were acquired: the task of this branch's select, then the
    /// other's. Each select is resolved by its branch.
    Acquired(Task, Task),
    /// The other select was acquired before, this one was not; nothing changed.
    OtherAcquired,
    /// This branch's select was acquired before; nothing changed.
    ThisAcquired,
    /// Both branches belong to the same select, which cannot meet itself; nothing changed.
    SameSelect,
}

impl TaskInSelect {
    /// The identifier of the select (that of its task).
    pub closed spec fn select_id(&self) -> u64 {
        self.id
    }

    /// Whether the select's task is `local`.
    pub closed spec fn spec_is_local(&self) -> bool {
        self.is_local
    }

    /// Well-formedness: the shared state belongs to this select.
    pub closed spec fn wf(&self) -> bool {
        self.inner.pred() == SelectStateIsConsistent { select_id: self.id }
    }

    /// Creates the shared state of a select for its task.
    pub fn acquire_for_task(task: Task) -> (s: Self)
        ensures
            s.wf(),
            s.select_id() == task.spec_id(),
            s.spec_is_local() == task.spec_is_local(),
    {
        let id = task.id();
        let is_local = task.is_local();
        let state = SelectState { task: Some(task), resolved_branch_id: None };
        let lock = vstd::rwlock::RwLock::new(state, Ghost(SelectStateIsConsistent { select_id: id }));
        TaskInSelect { id, is_local, inner: Arc::new(lock) }
    }

    /// Returns the identifier of the select.
    pub fn id(&self) -> (r: u64)
        ensures
            r == self.select_id(),
    {
        self.id
    }

    /// Returns the branch that resolved the select, if one did.
    pub fn resolved_branch_id(&self) -> Option<usize> {
        let handle = self.inner.acquire_read();
        let r = handle.borrow().resolved_branch_id;
        handle.release_read();
        r
    }

    /// Returns `true` if a branch has acquired the select.
    pub fn is_acquired(&self) -> bool {
        let handle = self.inner.acquire_read();
        let r = handle.borrow().task.is_none();
        handle.release_read();
        r
    }
}

impl Clone for TaskInSelect {
    fn clone(&self) -> (r: Self)
        ensures
            r == *self,
    {
        TaskInSelect { id: self.id, is_local: self.is_local, inner: self.inner.clone() }
    }
}

impl TaskInSelectBranch {
    /// The select of this branch.
    pub closed spec fn task_in_select(&self) -> TaskInSelect {
        self.task_in_select
    }

    /// The number of this branch.
    pub closed spec fn branch_id(&self) -> usize {
        self.associated_branch_id
    }

    /// The identifier of the select of this branch.
    pub open spec fn select_id(&self) -> u64 {
        self.task_in_select().select_id()
    }

    /// Well-formedness: the select is well formed.
    pub open spec fn wf(&self) -> bool {
        self.task_in_select().wf()
    }

    /// Creates the branch `associated_branch_id` of a select.
    pub fn new(task_in_select: TaskInSelect, associated_branch_id: usize) -> (b: Self)
        ensures
            b.task_in_select() == task_in_select,
            b.branch_id() == associated_branch_id,
    {
        TaskInSelectBranch { task_in_select, associated_branch_id }
    }

    /// Returns the identifier of the select of this branch.
    pub fn select_task_id(&self) -> (r: u64)
        ensures
            r == self.select_id(),
    {
        self.task_in_select.id
    }

    /// Returns `true` if the select's task is `local`.
    pub fn is_local(&self) -> (r: bool)
        ensures
            r == self.task_in_select().spec_is_local(),
    {
        self.task_in_select.is_local
    }

    /// Returns `true` if a branch has acquired the select.
    pub fn is_acquired(&self) -> bool {
        self.task_in_select.is_acquired()
    }

    /// Acquires the select for this branch if no branch has: the select is then
    /// resolved by this branch and its task is returned, once and for all.
    pub fn acquire_once(&self) -> (r: Option<Task>)
        requires
            self.wf(),
        ensures
            r matches Some(t) ==> t.spec_id() == self.select_id(),
    {
        let (mut state, handle) = self.task_in_select.inner.acquire_write();
        let r = state.take_for_branch(self.associated_branch_id);
        handle.release_write(state);
        r
    }

    /// Acquires this branch's select and the other branch's select together, or
    /// neither: this branch's select is looked at first. The shared states are locked in
    /// the order of the selects' identifiers.
    pub fn try_acquire_two(&self, other: &TaskInSelectBranch) -> (r: TwoAcquisition)
        requires
            self.wf(),
            other.wf(),
        ensures
            r matches TwoAcquisition::Acquired(t, o) ==> t.spec_id() == self.select_id()
                && o.spec_id() == other.select_id(),
            r == TwoAcquisition::SameSelect <==> self.select_id() == other.select_id(),
    {
        let this_id = self.task_in_select.id;
        let other_id = other.task_in_select.id;
        if this_id == other_id {
            return TwoAcquisition::SameSelect;
        }
        if this_id < other_id {
            let (mut this_state, this_handle) = self.task_in_select.inner.acquire_write();
            let (mut other_state, other_handle) = other.task_in_select.inner.acquire_write();
            let r = Self::acquire_both(
                &mut this_state,
                self.associated_branch_id,
                &mut other_state,
                other.associated_branch_id,
                Ghost(this_id),
                Ghost(other_id),
            );
            other_handle.release_write(other_state);
            this_handle.release_write(this_state);
            r
        } else {
            let (mut other_state, other_handle) = other.task_in_select.inner.acquire_write();
            let (mut this_state, this_handle) = self.task_in_select.inner.acquire_write();
            let r = Self::acquire_both(
                &mut this_state,
                self.associated_branch_id,
                &mut other_state,
                other.associated_branch_id,
                Ghost(this_id),
                Ghost(other_id),
            );
            this_handle.release_write(this_state);
            other_handle.release_write(other_state);
            r
        }
    }

    /// Acquires two locked select states together, or neither.
    fn acquire_both(
        this_state: &mut SelectState,
        this_branch: usize,
        other_state: &mut SelectState,
        other_branch: usize,
        Ghost(this_id): Ghost<u64>,
        Ghost(other_id): Ghost<u64>,
    ) -> (r: TwoAcquisition)
        requires
            (SelectStateIsConsistent { select_id: this_id }).inv(*old(this_state)),
            (SelectStateIsConsistent { select_id: other_id }).inv(*old(other_state)),
        ensures
            (SelectStateIsConsistent { select_id: this_id }).inv(*final(this_state)),
            (SelectStateIsConsistent { select_id: other_id }).inv(*final(other_state)),
            r matches TwoAcquisition::Acquired(t, o) ==> t.spec_id() == this_id && o.spec_id()
                == other_id,
            old(this_state).task is None ==> r == TwoAcquisition::ThisAcquired
                && *final(this_state) == *old(this_state) && *final(other_state) == *old(other_state),
            old(this_state).task is Some && old(other_state).task is None ==> r
                == TwoAcquisition::OtherAcquired && *final(this_state) == *old(this_state)
                && *final(other_state) == *old(other_state),
            old(other_state).task is Some && old(this_state).task is Some ==> {
                &&& r == TwoAcquisition::Acquired(
                    old(this_state).task->Some_0,
                    old(other_state).task->Some_0,
                )
                &&& *final(this_state) == (SelectState {
                    task: None,
                    resolved_branch_id: Some(this_branch),
                })
                &&& *final(other_state) == (SelectState {
                    task: None,
                    resolved_branch_id: Some(other_branch),
                })
            },
    {
        if this_state.task.is_none() {
            return TwoAcquisition::ThisAcquired;
        }
        if other_state.task.is_none() {
            return TwoAcquisition::OtherAcquired;
        }
        match (this_state.take_for_branch(this_branch), other_state.take_for_branch(other_branch)) {
            (Some(this_task), Some(other_task)) => TwoAcquisition::Acquired(this_task, other_task),
            _ => {
                assert(false);
                TwoAcquisition::OtherAcquired
            },
        }
    }
}

impl Clone for TaskInSelectBranch {
    fn clone(&self) -> (r: Self)
        ensures
            r == *self,
    {
        TaskInSelectBranch {
            task_in_select: self.task_in_select.clone(),
            associated_branch_id: self.associated_branch_id,
        }
    }
}

} // verus!
