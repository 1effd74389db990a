//! This module contains the [`LockFreeTaskStack`].
use crate::runtime::Task;
use crate::utils::spin_lock::AnyValue;
use vstd::prelude::*;

verus! {

/// A stack of tasks that can be shared between threads: the task pushed last is
/// popped first.
///
/// The stack is kept under a short spin lock. Since other threads may change it
/// between two calls, the contracts state what each call does to the caller's own
/// values.
pub struct LockFreeTaskStack {
    inner: vstd::rwlock::RwLock<Vec<Task>, AnyValue>,
}

/// Takes the task on top of a stack (the last one of the list), or returns
/// `None` if the stack is empty.
pub fn pop_top_task(tasks: &mut Vec<Task>) -> (r: Option<Task>)
    ensures
        old(tasks)@.len() == 0 ==> r is None && final(tasks)@ == old(tasks)@,
        old(tasks)@.len() > 0 ==> r == Some(old(tasks)@.last()) && final(tasks)@ == old(tasks)@.drop_last(),
{
    tasks.pop()
}

/// Pops every task of a stack, from the top down, and returns them in that
/// order; the stack ends empty.
pub fn pop_all_tasks(tasks: &mut Vec<Task>) -> (popped: Vec<Task>)
    ensures
        popped@ == old(tasks)@.reverse(),
        final(tasks)@ == Seq::<Task>::empty(),
{
    let ghost whole = tasks@;
    let mut popped: Vec<Task> = Vec::new();
    while tasks.len() > 0
        invariant
            whole.len() >= tasks@.len(),
            tasks@ == whole.subrange(0, tasks@.len() as int),
            popped@ == whole.subrange(tasks@.len() as int, whole.len() as int).reverse(),
        decreases tasks@.len(),
    {
        match tasks.pop() {
            Some(task) => popped.push(task),
            None => {},
        }
        assert(whole.subrange(tasks@.len() as int, whole.len() as int).reverse() =~= popped@);
    }
    assert(popped@ =~= whole.reverse());
    popped
}

impl LockFreeTaskStack {
    /// Creates a new, empty stack.
    pub fn new() -> (s: Self) {
        LockFreeTaskStack { inner: vstd::rwlock::RwLock::new(Vec::new(), Ghost(AnyValue)) }
    }

    /// Pushes a task on top of the stack.
    pub fn push(&self, task: Task) {
        let (mut tasks, handle) = self.inner.acquire_write();
        tasks.push(task);
        handle.release_write(tasks);
    }

    /// Returns `true` if the stack held no task when it was looked at.
    pub fn is_empty(&self) -> bool {
        let handle = self.inner.acquire_read();
        let empty = handle.borrow().len() == 0;
        handle.release_read();
        empty
    }

    /// Pops the task on top of the stack (see [`pop_top_task`]), or returns
    /// `None` if the stack is empty.
    pub fn try_pop(&self) -> Option<Task> {
        let (mut tasks, handle) = self.inner.acquire_write();
        let task = pop_top_task(&mut tasks);
        handle.release_write(tasks);
        task
    }

    /// Pops every task of the stack, from the top down, and drops them (see
    /// [`pop_all_tasks`]).
    pub fn clear(&self) {
        let (mut tasks, handle) = self.inner.acquire_write();
        let _ = pop_all_tasks(&mut tasks);
        handle.release_write(tasks);
    }
}

impl Default for LockFreeTaskStack {
    fn default() -> (s: Self) {
        Self::new()
    }
}

} // verus!
