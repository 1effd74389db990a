//! The tasks waiting on a condition variable and what its notifications do
//! with them.
use crate::runtime::Task;
use vstd::prelude::*;

verus! {

/// The tasks that wait on a condition variable, in the order they came.
///
/// A task waits with the mutex of the condition variable released. A
/// notification is made with the mutex locked, and the lock is not given back:
/// it passes to the task that the notification wakes.
pub struct CondVarWaitList {
    tasks: Vec<Task>,
}

/// What [`CondVarWaitList::notify_all`] does with the waiting tasks.
pub struct NotifyAll {
    /// The task that is woken now, holding the mutex.
    pub woken: Task,
    /// The other tasks, subscribed to the mutex in this order: each is woken by a
    /// later unlock.
    pub subscribed: Vec<Task>,
}

impl CondVarWaitList {
    /// The waiting tasks, oldest first.
    pub closed spec fn waiting(&self) -> Seq<Task> {
        self.tasks@
    }

    /// Creates a list with no waiting task.
    pub fn new() -> (l: Self)
        ensures
            l.waiting() == Seq::<Task>::empty(),
    {
        CondVarWaitList { tasks: Vec::new() }
    }

    /// Returns the number of waiting tasks.
    pub fn len(&self) -> (r: usize)
        ensures
            r == self.waiting().len(),
    {
        self.tasks.len()
    }

    /// Parks `task` until a notification.
    pub fn wait(&mut self, task: Task)
        ensures
            final(self).waiting() == old(self).waiting().push(task),
    {
        self.tasks.push(task);
    }

    /// Wakes one task, the one that came last, which takes over the locked
    /// mutex. Returns `None`, with the mutex to be unlocked by the caller, when no
    /// task waits.
    pub fn notify_one(&mut self) -> (r: Option<Task>)
        ensures
            old(self).waiting().len() == 0 ==> r is None && final(self).waiting() == old(self).waiting(),
            old(self).waiting().len() > 0 ==> r == Some(old(self).waiting().last()) && final(self).waiting() == old(self).waiting().drop_last(),
    {
        self.tasks.pop()
    }

    /// Wakes every waiting task: the one that came last is woken now with the
    /// locked mutex, and the others, from the most recent to the oldest, are
    /// subscribed to the mutex. Returns `None`, with the mutex to be unlocked by
    /// the caller, when no task waits.
    pub fn notify_all(&mut self) -> (r: Option<NotifyAll>)
        ensures
            final(self).waiting() == Seq::<Task>::empty(),
            old(self).waiting().len() == 0 <==> r is None,
            r matches Some(n) ==> n.woken == old(self).waiting().last() && n.subscribed@ == old(self).waiting().drop_last().reverse(),
            r matches Some(n) ==> seq![n.woken] + n.subscribed@ == old(self).waiting().reverse(),
    {
        let ghost waiting = self.tasks@;
        let woken = match self.tasks.pop() {
            Some(task) => task,
            None => {
                return None;
            },
        };
        let ghost rest = self.tasks@;
        let mut subscribed: Vec<Task> = Vec::new();
        while self.tasks.len() > 0
            invariant
                rest.len() >= self.tasks@.len(),
                self.tasks@ == rest.subrange(0, self.tasks@.len() as int),
                subscribed@ == rest.subrange(self.tasks@.len() as int, rest.len() as int).reverse(),
            decreases self.tasks@.len(),
        {
            match self.tasks.pop() {
                Some(task) => subscribed.push(task),
                None => {},
            }
            assert(rest.subrange(self.tasks@.len() as int, rest.len() as int).reverse()
                =~= subscribed@);
        }
        assert(subscribed@ =~= rest.reverse());
        assert(seq![woken] + subscribed@ =~= waiting.reverse());
        Some(NotifyAll { woken, subscribed })
    }
}

/// What a future that waits for a notification, or for a mutex it subscribed
/// to, does when it is polled.
#[derive(PartialEq, Eq, Copy, Clone, Debug, Structural)]
pub enum WaitPoll {
    /// The first poll: the task joins the wait list (or subscribes to the
    /// mutex), the mutex is released, and the future is pending.
    Park,
    /// A later poll, after the task was woken holding the mutex: the future is
    /// ready with the mutex's guard.
    Resume,
}

/// Decides what a waiting future does when it is polled, from whether it was
/// polled before.
pub fn wait_poll_step(was_polled: bool) -> (s: WaitPoll)
    ensures
        !was_polled ==> s == WaitPoll::Park,
        was_polled ==> s == WaitPoll::Resume,
{
    if was_polled {
        WaitPoll::Resume
    } else {
        WaitPoll::Park
    }
}

impl Default for CondVarWaitList {
    fn default() -> (l: Self)
        ensures
            l.waiting() == Seq::<Task>::empty(),
    {
        Self::new()
    }
}

/// A notification wakes every waiting task once: what [`CondVarWaitList::notify_all`]
/// wakes and subscribes is, counted with repetition, what waited.
pub proof fn lemma_notify_all_wakes_each_once(waiting: Seq<Task>, woken: Task, subscribed: Seq<Task>)
    requires
        seq![woken] + subscribed == waiting.reverse(),
    ensures
        (seq![woken] + subscribed).to_multiset() == waiting.to_multiset(),
        subscribed.len() + 1 == waiting.len(),
{
    waiting.lemma_reverse_to_multiset();
    assert(waiting.reverse().len() == waiting.len());
    assert((seq![woken] + subscribed).len() == subscribed.len() + 1);
}

} // verus!
