//! This module contains the [`WaitGroup`].
use crate::runtime::Task;
use vstd::prelude::*;
use crate::utils::spin_lock::AnyValue;

verus! {

/// The state of a wait group: the counter and the tasks that wait for it to
/// reach 0.
pub struct WaitGroupInner {
    counter: usize,
    waiting_tasks: Vec<Task>,
}

/// What [`WaitGroup::wait`] did with the task.
pub enum WaitOutcome {
    /// The counter was 0: the task need not wait and is given back.
    Ready(Task),
    /// The task was parked until the counter reaches 0.
    Parked,
}

/// What [`WaitGroupInner::wait`] does, stated over the state before and after it.
pub open spec fn wait_outcome(before: WaitGroupInner, after: WaitGroupInner, task: Task, r: WaitOutcome) -> bool {
    &&& after.counter() == before.counter()
    &&& before.counter() == 0 ==> r == WaitOutcome::Ready(task) && after.waiting() == before.waiting()
    &&& before.counter() > 0 ==> r == WaitOutcome::Parked && after.waiting() == before.waiting().push(task)
}

/// A task goes on past a wait group only when its counter is 0: a wait returns
/// `Ready` exactly when the counter is 0, and then with the waiting task itself;
/// otherwise the task waits, last among the waiting tasks, and the counter stays.
pub proof fn lemma_wait_only_at_zero(before: WaitGroupInner, after: WaitGroupInner, task: Task, r: WaitOutcome)
    requires
        wait_outcome(before, after, task, r),
    ensures
        (r is Ready) <==> before.counter() == 0,
        r matches WaitOutcome::Ready(t) ==> t == task,
        r is Parked ==> after.waiting().len() == before.waiting().len() + 1 && after.waiting().last()
            == task && after.counter() == before.counter(),
{
}

impl WaitGroupInner {
    /// The counter.
    pub closed spec fn counter(&self) -> nat {
        self.counter as nat
    }

    /// The waiting tasks, in the order they came.
    pub closed spec fn waiting(&self) -> Seq<Task> {
        self.waiting_tasks@
    }

    /// Well-formedness: tasks wait only while the counter is above 0.
    pub open spec fn wf(&self) -> bool {
        self.waiting().len() > 0 ==> self.counter() > 0
    }

    /// Creates the state of a wait group with the given counter.
    pub fn new(count: usize) -> (w: Self)
        ensures
            w.wf(),
            w.counter() == count,
            w.waiting() == Seq::<Task>::empty(),
    {
        WaitGroupInner { counter: count, waiting_tasks: Vec::new() }
    }

    /// Returns the counter.
    pub fn count(&self) -> (r: usize)
        ensures
            r == self.counter(),
    {
        self.counter
    }

    /// Adds `count` to the counter, unless the sum does not fit in a `usize`;
    /// returns whether it was added.
    pub fn add(&mut self, count: usize) -> (added: bool)
        ensures
            old(self).wf() ==> final(self).wf(),
            added == (old(self).counter() + count <= usize::MAX),
            added ==> final(self).counter() == old(self).counter() + count,
            !added ==> final(self).counter() == old(self).counter(),
            final(self).waiting() == old(self).waiting(),
    {
        if self.counter > usize::MAX - count {
            return false;
        }
        self.counter = self.counter + count;
        true
    }

    /// Takes 1 from the counter and returns the new counter together with the
    /// tasks to wake: all waiting tasks when the counter reaches 0, none otherwise.
    /// A counter that is already 0 is left alone.
    pub fn done(&mut self) -> (r: (usize, Vec<Task>))
        ensures
            old(self).wf() ==> final(self).wf(),
            old(self).counter() == 0 ==> r.0 == 0 && r.1@ == Seq::<Task>::empty() && *final(self) == *old(self),
            old(self).counter() == 1 ==> r.0 == 0 && r.1@ == old(self).waiting() && final(self).counter() == 0 && final(self).waiting() == Seq::<Task>::empty(),
            old(self).counter() > 1 ==> r.0 == old(self).counter() - 1 && r.1@ == Seq::<Task>::empty()
                && final(self).counter() == old(self).counter() - 1 && final(self).waiting() == old(self).waiting(),
    {
        if self.counter == 0 {
            return (0, Vec::new());
        }
        let mut woken: Vec<Task> = Vec::new();
        if self.counter == 1 {
            std::mem::swap(&mut woken, &mut self.waiting_tasks);
        }
        self.counter = self.counter - 1;
        (self.counter, woken)
    }

    /// Parks `task` until the counter reaches 0, or gives it back if it is 0.
    pub fn wait(&mut self, task: Task) -> (r: WaitOutcome)
        ensures
            old(self).wf() ==> final(self).wf(),
            final(self).counter() == old(self).counter(),
            old(self).counter() == 0 ==> r == WaitOutcome::Ready(task) && final(self).waiting()
                == old(self).waiting(),
            old(self).counter() > 0 ==> r == WaitOutcome::Parked && final(self).waiting() == old(self).waiting().push(task),
            wait_outcome(*old(self), *final(self), task, r),
    {
        if self.counter > 0 {
            self.waiting_tasks.push(task);
            WaitOutcome::Parked
        } else {
            WaitOutcome::Ready(task)
        }
    }

    /// Sets the counter; the waiting tasks stay.
    pub fn set(&mut self, count: usize)
        ensures
            old(self).wf() && (old(self).waiting().len() > 0 ==> count > 0) ==> final(self).wf(),
            final(self).counter() == count,
            final(self).waiting() == old(self).waiting(),
    {
        self.counter = count;
    }
}



/// `WaitGroup` lets tasks wait until a number of other tasks are done, even when
/// they run on different threads.
///
/// The state ([`WaitGroupInner`]) is kept under a short spin lock; the contracts of
/// its methods state what each operation does.
pub struct WaitGroup {
    inner: vstd::rwlock::RwLock<WaitGroupInner, AnyValue>,
}

impl WaitGroup {
    /// Creates a new `WaitGroup` with the specified count.
    pub fn new_with_count(count: usize) -> (w: Self) {
        WaitGroup {
            inner: vstd::rwlock::RwLock::new(WaitGroupInner::new(count), Ghost(AnyValue)),
        }
    }

    /// Creates a new `WaitGroup` with the count 0.
    pub fn new() -> (w: Self) {
        Self::new_with_count(0)
    }

    /// Sets the count. It needs a unique reference, so no task waits meanwhile.
    pub fn set_mut(&mut self, count: usize) {
        let (mut inner, handle) = self.inner.acquire_write();
        inner.set(count);
        handle.release_write(inner);
    }

    /// Adds `count` to the counter; returns `false`, leaving it alone, if the sum
    /// does not fit in a `usize`.
    pub fn add(&self, count: usize) -> bool {
        let (mut inner, handle) = self.inner.acquire_write();
        let added = inner.add(count);
        handle.release_write(inner);
        added
    }

    /// Adds 1 to the counter; returns `false`, leaving it alone, on overflow.
    pub fn inc(&self) -> bool {
        self.add(1)
    }

    /// Returns the counter as it was when it was looked at.
    pub fn count(&self) -> usize {
        let handle = self.inner.acquire_read();
        let count = handle.borrow().count();
        handle.release_read();
        count
    }

    /// Takes 1 from the counter and returns the new counter with the tasks to
    /// wake: all waiting tasks when the counter reaches 0.
    pub fn done(&self) -> (usize, Vec<Task>) {
        let (mut inner, handle) = self.inner.acquire_write();
        let r = inner.done();
        handle.release_write(inner);
        r
    }

    /// Parks `task` until the counter reaches 0, or gives it back if it is 0.
    pub fn wait(&self, task: Task) -> (r: WaitOutcome)
        ensures
            r matches WaitOutcome::Ready(t) ==> t == task,
            exists|before: WaitGroupInner, after: WaitGroupInner| #[trigger] wait_outcome(before, after, task, r),
    {
        let (mut inner, handle) = self.inner.acquire_write();
        let ghost before = inner;
        let r = inner.wait(task);
        assert(wait_outcome(before, inner, task, r));
        handle.release_write(inner);
        r
    }
}

impl Default for WaitGroup {
    fn default() -> (w: Self) {
        Self::new()
    }
}

} // verus!
