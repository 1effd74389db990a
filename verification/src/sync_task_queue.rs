//! This module contains the [`SyncTaskList`].
use crate::runtime::Task;
use crate::utils::spin_lock::AnyValue;
use std::collections::VecDeque;
use vstd::prelude::*;

verus! {

/// `SyncTaskList` is a list of tasks that can be shared between threads.
///
/// It is meant for futures of your own that park `shared` tasks. The list is kept
/// under a spin lock; since other threads may change it between two calls, the
/// contracts state what each call does to the caller's own values.
pub struct SyncTaskList {
    inner: vstd::rwlock::RwLock<Vec<Task>, AnyValue>,
}

/// Takes the first task of a list, or returns `None` if the list is empty.
pub fn pop_first_task(tasks: &mut Vec<Task>) -> (r: Option<Task>)
    ensures
        old(tasks)@.len() == 0 ==> r is None && final(tasks)@ == old(tasks)@,
        old(tasks)@.len() > 0 ==> r == Some(old(tasks)@[0]) && final(tasks)@ == old(tasks)@.drop_first(),
{
    if tasks.len() > 0 {
        Some(tasks.remove(0))
    } else {
        None
    }
}

/// Moves every task of `list` to the end of `tasks`, in list order; `list` ends
/// empty.
pub fn move_all_tasks(list: &mut Vec<Task>, tasks: &mut Vec<Task>)
    ensures
        final(tasks)@ == old(tasks)@ + old(list)@,
        final(list)@ == Seq::<Task>::empty(),
{
    tasks.append(list);
}

/// Moves the first tasks of `list` to the back of `other_list`, in list order:
/// as many as the list holds, but never more than `limit`.
pub fn move_batch(list: &mut Vec<Task>, other_list: &mut VecDeque<Task>, limit: usize)
    ensures
        ({
            let n = if old(list)@.len() < limit { old(list)@.len() as int } else { limit as int };
            &&& final(other_list)@ == old(other_list)@ + old(list)@.take(n)
            &&& final(list)@ == old(list)@.skip(n)
        }),
{
    let number_of_elems = if list.len() < limit {
        list.len()
    } else {
        limit
    };
    let ghost whole = list@;
    let rest = list.split_off(number_of_elems);
    let ghost start = other_list@;
    let mut taken: usize = 0;
    while list.len() > 0
        invariant
            list@.len() + taken == number_of_elems,
            number_of_elems <= whole.len(),
            list@ == whole.subrange(taken as int, number_of_elems as int),
            other_list@ == start + whole.take(taken as int),
        decreases list@.len(),
    {
        let task = list.remove(0);
        other_list.push_back(task);
        taken = taken + 1;
        assert(list@ =~= whole.subrange(taken as int, number_of_elems as int));
        assert(other_list@ =~= start + whole.take(taken as int));
    }
    *list = rest;
    assert(list@ =~= whole.skip(number_of_elems as int));
}

impl SyncTaskList {
    /// Creates a new, empty `SyncTaskList`.
    pub fn new() -> (l: Self) {
        SyncTaskList { inner: vstd::rwlock::RwLock::new(Vec::new(), Ghost(AnyValue)) }
    }

    /// Pushes a task at the end of the list.
    pub fn push(&self, task: Task) {
        let (mut tasks, handle) = self.inner.acquire_write();
        tasks.push(task);
        handle.release_write(tasks);
    }

    /// Pops the first task from the list (see [`pop_first_task`]), or returns
    /// `None` if the list is empty.
    pub fn pop(&self) -> Option<Task> {
        let (mut tasks, handle) = self.inner.acquire_write();
        let task = pop_first_task(&mut tasks);
        handle.release_write(tasks);
        task
    }

    /// Takes all tasks of the list and appends them to `tasks`, in list order
    /// (see [`move_all_tasks`]).
    pub fn pop_all_in(&self, tasks: &mut Vec<Task>)
        ensures
            final(tasks)@.len() >= old(tasks)@.len(),
            final(tasks)@.subrange(0, old(tasks)@.len() as int) == old(tasks)@,
    {
        let (mut all, handle) = self.inner.acquire_write();
        let ghost before = tasks@;
        move_all_tasks(&mut all, tasks);
        assert(tasks@.subrange(0, before.len() as int) =~= before);
        handle.release_write(all);
    }

    /// Takes tasks from the front of the list, in list order, and appends them to
    /// `other_list`: as many as the list holds, but never more than `limit` (see
    /// [`move_batch`]).
    pub fn take_batch(&self, other_list: &mut VecDeque<Task>, limit: usize)
        ensures
            old(other_list)@.len() <= final(other_list)@.len() <= old(other_list)@.len() + limit,
            final(other_list)@.subrange(0, old(other_list)@.len() as int) == old(other_list)@,
    {
        let (mut tasks, handle) = self.inner.acquire_write();
        let ghost before = other_list@;
        move_batch(&mut tasks, other_list, limit);
        assert(other_list@.subrange(0, before.len() as int) =~= before);
        handle.release_write(tasks);
    }
}

impl Default for SyncTaskList {
    fn default() -> (l: Self) {
        Self::new()
    }
}

} // verus!
