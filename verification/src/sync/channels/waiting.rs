//! The queue of tasks that wait on a channel: senders or receivers, never both.
use crate::runtime::Task;
use crate::sync::channels::select::TaskInSelectBranch;
use std::collections::VecDeque;
use vstd::prelude::*;

verus! {

/// Which kind of tasks a [`SenderReceiverQueue`] holds.
#[derive(PartialEq, Eq, Copy, Clone, Debug, Structural)]
pub enum SenderReceiverQueueOption {
    /// No task waits.
    Empty,
    /// Senders wait.
    Sender,
    /// Receivers wait.
    Receiver,
}

/// A task that waits on a channel.
pub enum WaitingTask<T> {
    /// A sender, with the value it offers.
    Sender(Task, T),
    /// A receiver, waiting for a value.
    Receiver(Task),
    /// A sending branch of a select, with the value it offers; it is served only
    /// if its select can still be acquired.
    SelectSender(TaskInSelectBranch, T),
    /// A receiving branch of a select; it is served only if its select can still
    /// be acquired.
    SelectReceiver(TaskInSelectBranch),
}

/// The entry is a sender or a sending select branch.
pub open spec fn is_sender_entry<T>(w: WaitingTask<T>) -> bool {
    w is Sender || w is SelectSender
}

/// The entry is a receiver or a receiving select branch.
pub open spec fn is_receiver_entry<T>(w: WaitingTask<T>) -> bool {
    w is Receiver || w is SelectReceiver
}

/// The entry is a plain sender or receiver, not a select branch.
pub open spec fn is_plain_entry<T>(w: WaitingTask<T>) -> bool {
    w is Sender || w is Receiver
}

/// The entry is a select branch whose select is well formed, or a plain task.
pub open spec fn entry_wf<T>(w: WaitingTask<T>) -> bool {
    match w {
        WaitingTask::SelectSender(b, _) => b.wf(),
        WaitingTask::SelectReceiver(b) => b.wf(),
        _ => true,
    }
}

/// The value that a sender entry offers.
pub open spec fn offered_value<T>(w: WaitingTask<T>) -> T
    recommends
        is_sender_entry(w),
{
    match w {
        WaitingTask::Sender(_, v) => v,
        WaitingTask::SelectSender(_, v) => v,
        _ => arbitrary(),
    }
}

/// `task` is the task that the entry stands for: the waiting task itself, or the
/// task of the entry's select.
pub open spec fn entry_task_is<T>(w: WaitingTask<T>, task: Task) -> bool {
    match w {
        WaitingTask::Sender(t, _) => task == t,
        WaitingTask::Receiver(t) => task == t,
        WaitingTask::SelectSender(b, _) => task.spec_id() == b.select_id(),
        WaitingTask::SelectReceiver(b) => task.spec_id() == b.select_id(),
    }
}

/// The first `k` entries are select branches (whose selects were found resolved
/// elsewhere and which were dropped).
pub open spec fn select_prefix<T>(ws: Seq<WaitingTask<T>>, k: int) -> bool {
    forall|j: int| 0 <= j < k ==> (#[trigger] ws[j] is SelectSender || ws[j] is SelectReceiver)
}

/// How many entries were dropped before the one that was served, when `after`
/// is what remains of `before`.
pub open spec fn dropped_before_served<T>(before: Seq<WaitingTask<T>>, after: Seq<WaitingTask<T>>) -> int {
    before.len() - after.len() - 1
}

/// `after` is what remains of `before` once some entries of resolved selects were
/// dropped and the next entry was served.
pub open spec fn served_entry<T>(before: Seq<WaitingTask<T>>, after: Seq<WaitingTask<T>>) -> bool {
    let k = dropped_before_served(before, after);
    &&& 0 <= k < before.len()
    &&& select_prefix(before, k)
    &&& after == before.skip(k + 1)
}

/// `after` is what remains of `before` once the entries at its front whose
/// selects were found resolved elsewhere were dropped.
pub open spec fn dropped_resolved<T>(before: Seq<WaitingTask<T>>, after: Seq<WaitingTask<T>>) -> bool {
    let k = before.len() - after.len();
    &&& 0 <= k <= before.len()
    &&& select_prefix(before, k)
    &&& after == before.skip(k)
}

/// `after` is what remains of `before` once the entries at its front whose
/// selects were found resolved elsewhere were dropped and the next entry, which
/// could not be served, was queued again at the back.
pub open spec fn requeued_entry<T>(before: Seq<WaitingTask<T>>, after: Seq<WaitingTask<T>>) -> bool {
    let k = before.len() - after.len();
    &&& 0 <= k < before.len()
    &&& select_prefix(before, k)
    &&& after == before.skip(k + 1).push(before[k])
}

/// The identifier of the task of a waiting entry.
pub open spec fn waiting_task_id<T>(w: WaitingTask<T>) -> u64 {
    match w {
        WaitingTask::Sender(t, _) => t.spec_id(),
        WaitingTask::Receiver(t) => t.spec_id(),
        WaitingTask::SelectSender(b, _) => b.select_id(),
        WaitingTask::SelectReceiver(b) => b.select_id(),
    }
}

/// A first-in first-out queue of the tasks that wait on a channel. At any time it
/// holds only senders or only receivers.
pub struct SenderReceiverQueue<T> {
    deque: VecDeque<WaitingTask<T>>,
    state: SenderReceiverQueueOption,
}

impl<T> View for SenderReceiverQueue<T> {
    type V = Seq<WaitingTask<T>>;

    /// The waiting tasks, first come first.
    closed spec fn view(&self) -> Seq<WaitingTask<T>> {
        self.deque@
    }
}

impl<T> SenderReceiverQueue<T> {
    /// The kind of tasks that wait.
    pub closed spec fn spec_option(&self) -> SenderReceiverQueueOption {
        self.state
    }

    /// Well-formedness: the kind agrees with the tasks.
    pub open spec fn wf(&self) -> bool {
        &&& (self.spec_option() == SenderReceiverQueueOption::Empty <==> self@.len() == 0)
        &&& (self.spec_option() == SenderReceiverQueueOption::Sender ==> forall|i: int|
            0 <= i < self@.len() ==> is_sender_entry(#[trigger] self@[i]))
        &&& (self.spec_option() == SenderReceiverQueueOption::Receiver ==> forall|i: int|
            0 <= i < self@.len() ==> is_receiver_entry(#[trigger] self@[i]))
        &&& forall|i: int| 0 <= i < self@.len() ==> entry_wf(#[trigger] self@[i])
    }

    /// Creates an empty queue.
    pub fn new() -> (q: Self)
        ensures
            q.wf(),
            q@ == Seq::<WaitingTask<T>>::empty(),
            q.spec_option() == SenderReceiverQueueOption::Empty,
    {
        SenderReceiverQueue { deque: VecDeque::new(), state: SenderReceiverQueueOption::Empty }
    }

    /// Returns the kind of tasks that wait.
    pub fn option(&self) -> (r: SenderReceiverQueueOption)
        ensures
            r == self.spec_option(),
    {
        self.state
    }

    /// Returns the number of waiting tasks.
    pub fn len(&self) -> (r: usize)
        ensures
            r == self@.len(),
    {
        self.deque.len()
    }

    /// Returns `true` if no task waits.
    pub fn is_empty(&self) -> (r: bool)
        ensures
            r == (self@.len() == 0),
    {
        self.deque.len() == 0
    }

    /// Appends a waiting sender entry. No receiver may wait.
    pub fn push_sender(&mut self, entry: WaitingTask<T>)
        requires
            old(self).wf(),
            old(self).spec_option() != SenderReceiverQueueOption::Receiver,
            is_sender_entry(entry),
            entry_wf(entry),
        ensures
            final(self).wf(),
            final(self).spec_option() == SenderReceiverQueueOption::Sender,
            final(self)@ == old(self)@.push(entry),
    {
        self.state = SenderReceiverQueueOption::Sender;
        self.deque.push_back(entry);
    }

    /// Appends a waiting receiver entry. No sender may wait.
    pub fn push_receiver(&mut self, entry: WaitingTask<T>)
        requires
            old(self).wf(),
            old(self).spec_option() != SenderReceiverQueueOption::Sender,
            is_receiver_entry(entry),
            entry_wf(entry),
        ensures
            final(self).wf(),
            final(self).spec_option() == SenderReceiverQueueOption::Receiver,
            final(self)@ == old(self)@.push(entry),
    {
        self.state = SenderReceiverQueueOption::Receiver;
        self.deque.push_back(entry);
    }

    /// Removes the first waiting task; the kind becomes `Empty` with the last one.
    fn pop_front(&mut self) -> (r: WaitingTask<T>)
        requires
            old(self).wf(),
            old(self)@.len() > 0,
        ensures
            final(self).wf(),
            r == old(self)@[0],
            entry_wf(r),
            final(self)@ == old(self)@.drop_first(),
            final(self)@.len() > 0 ==> final(self).spec_option() == old(self).spec_option(),
    {
        let r = match self.deque.pop_front() {
            Some(r) => r,
            None => {
                assert(false);
                WaitingTask::Receiver(Task::new(0, false))
            },
        };
        if self.deque.len() == 0 {
            self.state = SenderReceiverQueueOption::Empty;
        }
        assert forall|i: int| 0 <= i < self@.len() implies self@[i] == old(self)@[i + 1] by {}
        r
    }

    /// Removes the first waiting sender entry and returns it, if senders wait.
    pub fn pop_sender(&mut self) -> (r: Option<WaitingTask<T>>)
        requires
            old(self).wf(),
        ensures
            final(self).wf(),
            old(self).spec_option() == SenderReceiverQueueOption::Sender ==> {
                &&& r == Some(old(self)@[0])
                &&& is_sender_entry(old(self)@[0])
                &&& entry_wf(old(self)@[0])
                &&& final(self)@ == old(self)@.drop_first()
                &&& (final(self)@.len() > 0 ==> final(self).spec_option()
                    == SenderReceiverQueueOption::Sender)
            },
            old(self).spec_option() != SenderReceiverQueueOption::Sender ==> r is None && *final(self) == *old(self),
    {
        if self.state == SenderReceiverQueueOption::Sender {
            assert(is_sender_entry(self@[0]));
            Some(self.pop_front())
        } else {
            None
        }
    }

    /// Removes the first waiting receiver entry and returns it, if receivers wait.
    pub fn pop_receiver(&mut self) -> (r: Option<WaitingTask<T>>)
        requires
            old(self).wf(),
        ensures
            final(self).wf(),
            old(self).spec_option() == SenderReceiverQueueOption::Receiver ==> {
                &&& r == Some(old(self)@[0])
                &&& is_receiver_entry(old(self)@[0])
                &&& entry_wf(old(self)@[0])
                &&& final(self)@ == old(self)@.drop_first()
                &&& (final(self)@.len() > 0 ==> final(self).spec_option()
                    == SenderReceiverQueueOption::Receiver)
            },
            old(self).spec_option() != SenderReceiverQueueOption::Receiver ==> r is None && *final(self) == *old(self),
    {
        if self.state == SenderReceiverQueueOption::Receiver {
            assert(is_receiver_entry(self@[0]));
            Some(self.pop_front())
        } else {
            None
        }
    }

    /// Removes all waiting tasks and returns them, first come first.
    pub fn take_all(&mut self) -> (r: Vec<WaitingTask<T>>)
        requires
            old(self).wf(),
        ensures
            final(self).wf(),
            r@ == old(self)@,
            forall|i: int| 0 <= i < r@.len() ==> entry_wf(#[trigger] r@[i]),
            final(self)@ == Seq::<WaitingTask<T>>::empty(),
            final(self).spec_option() == SenderReceiverQueueOption::Empty,
    {
        let mut all: Vec<WaitingTask<T>> = Vec::new();
        let ghost start = self.deque@;
        while self.deque.len() > 0
            invariant
                all@ + self.deque@ == start,
            decreases self.deque@.len(),
        {
            let ghost before = self.deque@;
            match self.deque.pop_front() {
                Some(task) => {
                    all.push(task);
                    assert(all@ + self.deque@ =~= start);
                },
                None => {},
            }
        }
        assert(all@ =~= start);
        self.state = SenderReceiverQueueOption::Empty;
        all
    }

    /// Removes the first waiting entry of the task `id` and returns it, if the task
    /// waits; the queue is unchanged otherwise.
    pub fn remove_task(&mut self, id: u64) -> (r: Option<WaitingTask<T>>)
        requires
            old(self).wf(),
        ensures
            final(self).wf(),
            r is None <==> forall|i: int| 0 <= i < old(self)@.len() ==> waiting_task_id(
                #[trigger] old(self)@[i],
            ) != id,
            r is None ==> final(self)@ == old(self)@ && final(self).spec_option() == old(self).spec_option(),
            r is Some ==> exists|i: int|
                0 <= i < old(self)@.len() && waiting_task_id(old(self)@[i]) == id && (forall|j: int|
                    0 <= j < i ==> waiting_task_id(#[trigger] old(self)@[j]) != id) && r == Some(
                    old(self)@[i],
                ) && final(self)@ == old(self)@.remove(i),
            final(self)@.len() > 0 ==> final(self).spec_option() == old(self).spec_option(),
    {
        let mut i: usize = 0;
        let len = self.deque.len();
        while i < len
            invariant
                i <= len,
                len == self@.len(),
                self == old(self),
                self.wf(),
                forall|j: int| 0 <= j < i ==> waiting_task_id(#[trigger] self@[j]) != id,
            decreases len - i,
        {
            let found = match &self.deque[i] {
                WaitingTask::Sender(t, _) => t.id() == id,
                WaitingTask::Receiver(t) => t.id() == id,
                WaitingTask::SelectSender(b, _) => b.select_task_id() == id,
                WaitingTask::SelectReceiver(b) => b.select_task_id() == id,
            };
            if found {
                let ghost before = self@;
                let r = self.deque.remove(i);
                if self.deque.len() == 0 {
                    self.state = SenderReceiverQueueOption::Empty;
                }
                assert forall|k: int| 0 <= k < self@.len() implies self@[k] == (if k < i {
                    before[k]
                } else {
                    before[k + 1]
                }) by {}
                assert forall|k: int| 0 <= k < self@.len() implies entry_wf(#[trigger] self@[k]) by {
                    if k < i {
                        assert(entry_wf(before[k]));
                    } else {
                        assert(entry_wf(before[k + 1]));
                    }
                }
                if self.state == SenderReceiverQueueOption::Sender {
                    assert forall|k: int| 0 <= k < self@.len() implies is_sender_entry(#[trigger] self@[k]) by {
                        if k < i {
                            assert(is_sender_entry(before[k]));
                        } else {
                            assert(is_sender_entry(before[k + 1]));
                        }
                    }
                }
                if self.state == SenderReceiverQueueOption::Receiver {
                    assert forall|k: int| 0 <= k < self@.len() implies is_receiver_entry(#[trigger] self@[k]) by {
                        if k < i {
                            assert(is_receiver_entry(before[k]));
                        } else {
                            assert(is_receiver_entry(before[k + 1]));
                        }
                    }
                }
                return r;
            }
            i = i + 1;
        }
        None
    }

    /// Pops receiver entries until one can be served: a plain receiver, or a
    /// select branch whose select this call acquires. Entries of selects resolved
    /// elsewhere are dropped. Returns the task to hand the value to.
    pub fn pop_live_receiver(&mut self) -> (r: Option<Task>)
        requires
            old(self).wf(),
        ensures
            final(self).wf(),
            old(self).spec_option() != SenderReceiverQueueOption::Receiver ==> r is None && *final(self) == *old(self),
            old(self).spec_option() == SenderReceiverQueueOption::Receiver ==> (r matches Some(t)
                ==> served_entry(old(self)@, final(self)@) && entry_task_is(
                old(self)@[dropped_before_served(old(self)@, final(self)@)],
                t,
            )) && (r is None ==> final(self)@ == Seq::<WaitingTask<T>>::empty() && select_prefix(
                old(self)@,
                old(self)@.len() as int,
            )),
            final(self)@.len() > 0 ==> final(self).spec_option() == old(self).spec_option(),
    {
        let ghost start = self@;
        let ghost mut k: int = 0;
        while self.state == SenderReceiverQueueOption::Receiver
            invariant
                self.wf(),
                old(self).wf(),
                start == old(self)@,
                0 <= k <= start.len(),
                select_prefix(start, k),
                self@ == start.skip(k),
                old(self).spec_option() == SenderReceiverQueueOption::Receiver || (k == 0
                    && *self == *old(self)),
                self@.len() > 0 ==> self.spec_option() == old(self).spec_option(),
            decreases self@.len(),
        {
            let entry = match self.pop_receiver() {
                Some(entry) => entry,
                None => {
                    assert(false);
                    return None;
                },
            };
            assert(entry == start[k]);
            match entry {
                WaitingTask::Receiver(task) => {
                    assert(self@ =~= start.skip(k + 1));
                    return Some(task);
                },
                WaitingTask::SelectReceiver(branch) => {
                    match branch.acquire_once() {
                        Some(task) => {
                            assert(self@ =~= start.skip(k + 1));
                            return Some(task);
                        },
                        None => {
                            proof {
                                k = k + 1;
                            }
                            assert(self@ =~= start.skip(k));
                        },
                    }
                },
                _ => {
                    assert(false);
                },
            }
        }
        proof {
            if old(self).spec_option() == SenderReceiverQueueOption::Receiver {
                assert(self@.len() == 0);
                assert(k == start.len());
            }
        }
        None
    }

    /// Pops sender entries until one can be served: a plain sender, or a select
    /// branch whose select this call acquires. Entries of selects resolved
    /// elsewhere are dropped with their values. Returns the task to wake and the
    /// value it offered.
    pub fn pop_live_sender(&mut self) -> (r: Option<(Task, T)>)
        requires
            old(self).wf(),
        ensures
            final(self).wf(),
            old(self).spec_option() != SenderReceiverQueueOption::Sender ==> r is None && *final(self) == *old(self),
            old(self).spec_option() == SenderReceiverQueueOption::Sender ==> (r matches Some((t, v))
                ==> served_entry(old(self)@, final(self)@) && entry_task_is(
                old(self)@[dropped_before_served(old(self)@, final(self)@)],
                t,
            ) && v == offered_value(old(self)@[dropped_before_served(old(self)@, final(self)@)]))
                && (r is None ==> final(self)@ == Seq::<WaitingTask<T>>::empty() && select_prefix(
                old(self)@,
                old(self)@.len() as int,
            )),
            final(self)@.len() > 0 ==> final(self).spec_option() == old(self).spec_option(),
    {
        let ghost start = self@;
        let ghost mut k: int = 0;
        while self.state == SenderReceiverQueueOption::Sender
            invariant
                self.wf(),
                old(self).wf(),
                start == old(self)@,
                0 <= k <= start.len(),
                select_prefix(start, k),
                self@ == start.skip(k),
                old(self).spec_option() == SenderReceiverQueueOption::Sender || (k == 0
                    && *self == *old(self)),
                self@.len() > 0 ==> self.spec_option() == old(self).spec_option(),
            decreases self@.len(),
        {
            let entry = match self.pop_sender() {
                Some(entry) => entry,
                None => {
                    assert(false);
                    return None;
                },
            };
            assert(entry == start[k]);
            match entry {
                WaitingTask::Sender(task, value) => {
                    assert(self@ =~= start.skip(k + 1));
                    return Some((task, value));
                },
                WaitingTask::SelectSender(branch, value) => {
                    match branch.acquire_once() {
                        Some(task) => {
                            assert(self@ =~= start.skip(k + 1));
                            return Some((task, value));
                        },
                        None => {
                            proof {
                                k = k + 1;
                            }
                            assert(self@ =~= start.skip(k));
                        },
                    }
                },
                _ => {
                    assert(false);
                },
            }
        }
        proof {
            if old(self).spec_option() == SenderReceiverQueueOption::Sender {
                assert(self@.len() == 0);
                assert(k == start.len());
            }
        }
        None
    }
}

} // verus!
