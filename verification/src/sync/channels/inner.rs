//! The state of a channel and what sending, receiving and closing do to it.
use crate::runtime::Task;
use crate::sync::channels::errors::{TryRecvErr, TrySendErr};
use crate::sync::channels::select::{TaskInSelectBranch, TwoAcquisition};
use crate::sync::channels::state::SelectNonBlockingBranchResult;
use crate::sync::channels::waiting::{
    dropped_before_served, dropped_resolved, entry_task_is, entry_wf, is_plain_entry, is_receiver_entry, is_sender_entry, offered_value, requeued_entry, select_prefix, served_entry,
    waiting_task_id, SenderReceiverQueue, SenderReceiverQueueOption, WaitingTask,
};
use std::collections::VecDeque;
use vstd::prelude::*;

verus! {

/// Where a sent value went.
pub enum SendOutcome<T> {
    /// It was stored in the channel.
    Stored,
    /// It was handed to the receiver that waited first; the receiver is to be
    /// woken with it.
    HandedTo(Task, T),
}

/// What subscribing a sending select branch to a channel did.
pub enum SelectSendResult<T> {
    /// The branch resolved its select: the value was stored or handed to a
    /// receiver. The select's task is given to be woken.
    Sent(SendOutcome<T>, Task),
    /// The channel is closed and the branch resolved its select with the close:
    /// the select's task and the value are given back.
    Closed(Task, T),
    /// The select was resolved before (or the receiver met belongs to the same
    /// select): the value comes back and nothing was stored or handed over.
    AlreadyAcquired(T),
    /// The channel is full: the branch waits in it with the value.
    NotReady,
}

/// What subscribing a receiving select branch to a channel did.
pub enum SelectRecvResult<T> {
    /// The branch resolved its select and received a value. The select's task is
    /// given to be woken.
    Received(Received<T>, Task),
    /// The channel is closed and the branch resolved its select with the close.
    Closed(Task),
    /// The select was resolved before (or the sender met belongs to the same
    /// select): nothing was received.
    AlreadyAcquired,
    /// Nothing can be received: the branch waits in the channel.
    NotReady,
}

impl<T> SelectSendResult<T> {
    /// The kind of the result.
    pub fn result(&self) -> (r: SelectNonBlockingBranchResult)
        ensures
            (self is Sent || self is Closed) <==> r == SelectNonBlockingBranchResult::Success,
            self is AlreadyAcquired <==> r == SelectNonBlockingBranchResult::AlreadyAcquired,
            self is NotReady <==> r == SelectNonBlockingBranchResult::NotReady,
    {
        match self {
            SelectSendResult::Sent(_, _) => SelectNonBlockingBranchResult::Success,
            SelectSendResult::Closed(_, _) => SelectNonBlockingBranchResult::Success,
            SelectSendResult::AlreadyAcquired(_) => SelectNonBlockingBranchResult::AlreadyAcquired,
            SelectSendResult::NotReady => SelectNonBlockingBranchResult::NotReady,
        }
    }
}

impl<T> SelectRecvResult<T> {
    /// The kind of the result.
    pub fn result(&self) -> (r: SelectNonBlockingBranchResult)
        ensures
            (self is Received || self is Closed) <==> r == SelectNonBlockingBranchResult::Success,
            self is AlreadyAcquired <==> r == SelectNonBlockingBranchResult::AlreadyAcquired,
            self is NotReady <==> r == SelectNonBlockingBranchResult::NotReady,
    {
        match self {
            SelectRecvResult::Received(_, _) => SelectNonBlockingBranchResult::Success,
            SelectRecvResult::Closed(_) => SelectNonBlockingBranchResult::Success,
            SelectRecvResult::AlreadyAcquired => SelectNonBlockingBranchResult::AlreadyAcquired,
            SelectRecvResult::NotReady => SelectNonBlockingBranchResult::NotReady,
        }
    }
}

/// A received value, and the sender to wake if one was waiting.
pub struct Received<T> {
    /// The value received.
    pub value: T,
    /// The sender whose value was taken into the channel (or handed over) and
    /// which is to be woken.
    pub woken_sender: Option<Task>,
}

/// The outcome of a send that may wait.
pub enum SendAttempt<T> {
    /// The value was stored or handed to a receiver; the sending task is given back.
    Done(SendOutcome<T>, Task),
    /// The channel is full: the task was parked with its value, to be woken when a
    /// receiver takes the value or the channel closes.
    Parked,
    /// The channel is closed: the value and the task are given back.
    Closed(T, Task),
}

/// The outcome of a receive that may wait.
pub enum RecvAttempt<T> {
    /// A value was received; the receiving task is given back.
    Done(Received<T>, Task),
    /// Nothing could be received: the task was parked, to be woken with a value
    /// or by the close of the channel.
    Parked,
    /// The channel is closed: the task is given back.
    Closed(Task),
}

/// A send that may wait and found no receiver to serve: the value is stored if
/// there is room; otherwise the task is parked with its value behind the waiting
/// tasks.
pub open spec fn stored_or_parked<T>(
    storage: Seq<T>,
    after: Seq<T>,
    waiting: Seq<WaitingTask<T>>,
    after_waiting: Seq<WaitingTask<T>>,
    capacity: nat,
    value: T,
    task: Task,
    r: SendAttempt<T>,
) -> bool {
    if storage.len() < capacity {
        r == SendAttempt::Done(SendOutcome::<T>::Stored, task) && after == storage.push(value)
            && after_waiting == waiting
    } else {
        r == SendAttempt::<T>::Parked && after == storage && after_waiting == waiting.push(
            WaitingTask::Sender(task, value),
        )
    }
}

/// A receive that may wait and found no sender to serve: the oldest stored value
/// is taken; with nothing stored the task is parked behind the waiting tasks.
pub open spec fn taken_or_parked<T>(
    storage: Seq<T>,
    after: Seq<T>,
    waiting: Seq<WaitingTask<T>>,
    after_waiting: Seq<WaitingTask<T>>,
    task: Task,
    r: RecvAttempt<T>,
) -> bool {
    if storage.len() == 0 {
        r == RecvAttempt::<T>::Parked && after == storage && after_waiting == waiting.push(
            WaitingTask::Receiver(task),
        )
    } else {
        r == RecvAttempt::Done(Received { value: storage[0], woken_sender: None }, task) && after
            == storage.drop_first() && after_waiting == waiting
    }
}

/// A send that found no receiver to serve: the value is stored if there is room,
/// and refused as `Full` otherwise.
pub open spec fn stored_or_full<T>(
    before: Seq<T>,
    after: Seq<T>,
    capacity: nat,
    value: T,
    r: Result<SendOutcome<T>, TrySendErr<T>>,
) -> bool {
    if before.len() < capacity {
        r == Ok::<SendOutcome<T>, TrySendErr<T>>(SendOutcome::Stored) && after == before.push(value)
    } else {
        r == Err::<SendOutcome<T>, TrySendErr<T>>(TrySendErr::Full(value)) && after == before
    }
}

/// A receive that found no sender to serve: the oldest stored value is taken, or
/// the channel is `Empty`.
pub open spec fn taken_or_empty<T>(before: Seq<T>, after: Seq<T>, r: Result<Received<T>, TryRecvErr>) -> bool {
    if before.len() == 0 {
        r == Err::<Received<T>, TryRecvErr>(TryRecvErr::Empty) && after == before
    } else {
        r == Ok::<Received<T>, TryRecvErr>(Received { value: before[0], woken_sender: None })
            && after == before.drop_first()
    }
}

/// The receive succeeded and woke a sender.
pub open spec fn woke_sender<T>(r: Result<Received<T>, TryRecvErr>) -> bool {
    r is Ok && r->Ok_0.woken_sender is Some
}

/// A receive that served a sender offering `offered`: with nothing stored the
/// offered value is received; otherwise the oldest stored value is received and
/// the offered one is stored behind the rest.
pub open spec fn moved_in<T>(before: Seq<T>, after: Seq<T>, received: T, offered: T) -> bool {
    if before.len() == 0 {
        received == offered && after == before
    } else {
        received == before[0] && after == before.drop_first().push(offered)
    }
}

/// The state of a channel: the stored values, the capacity, whether it is closed,
/// and the tasks that wait on it.
pub struct ChannelInner<T> {
    storage: VecDeque<T>,
    capacity: usize,
    is_closed: bool,
    waiters: SenderReceiverQueue<T>,
}

impl<T> ChannelInner<T> {
    /// The stored values, oldest first.
    pub closed spec fn storage(&self) -> Seq<T> {
        self.storage@
    }

    /// The capacity.
    pub closed spec fn capacity(&self) -> nat {
        self.capacity as nat
    }

    /// Whether the channel is closed.
    pub closed spec fn closed(&self) -> bool {
        self.is_closed
    }

    /// The waiting tasks, first come first.
    pub closed spec fn waiting(&self) -> Seq<WaitingTask<T>> {
        self.waiters@
    }

    /// The kind of the waiting tasks.
    pub closed spec fn waiting_kind(&self) -> SenderReceiverQueueOption {
        self.waiters.spec_option()
    }

    /// Well-formedness: at most `capacity` values are stored; receivers wait only
    /// while nothing is stored, senders only while the storage is full; nobody
    /// waits on a closed channel.
    pub closed spec fn wf(&self) -> bool {
        &&& self.waiters.wf()
        &&& self.storage@.len() <= self.capacity
        &&& (self.waiters.spec_option() == SenderReceiverQueueOption::Receiver
            ==> self.storage@.len() == 0)
        &&& (self.waiters.spec_option() == SenderReceiverQueueOption::Sender
            ==> self.storage@.len() == self.capacity)
        &&& (self.is_closed ==> self.waiters.spec_option() == SenderReceiverQueueOption::Empty)
    }

    /// Creates an open, empty channel of the given capacity.
    pub fn new(capacity: usize) -> (c: Self)
        ensures
            c.wf(),
            c.storage() == Seq::<T>::empty(),
            c.capacity() == capacity,
            !c.closed(),
            c.waiting() == Seq::<WaitingTask<T>>::empty(),
    {
        ChannelInner {
            storage: VecDeque::new(),
            capacity,
            is_closed: false,
            waiters: SenderReceiverQueue::new(),
        }
    }

    /// Returns the number of stored values, the number of waiting receivers and
    /// the number of waiting senders; at most one of the last two is not 0.
    pub fn fullness_state(&self) -> (r: (usize, usize, usize))
        requires
            self.wf(),
        ensures
            r.0 == self.storage().len(),
            r.1 == (if self.waiting_kind() == SenderReceiverQueueOption::Receiver {
                self.waiting().len()
            } else {
                0
            }),
            r.2 == (if self.waiting_kind() == SenderReceiverQueueOption::Sender {
                self.waiting().len()
            } else {
                0
            }),
            r.1 == 0 || r.2 == 0,
    {
        let waiting = self.waiters.len();
        match self.waiters.option() {
            SenderReceiverQueueOption::Receiver => (self.storage.len(), waiting, 0),
            SenderReceiverQueueOption::Sender => (self.storage.len(), 0, waiting),
            SenderReceiverQueueOption::Empty => (self.storage.len(), 0, 0),
        }
    }

    /// Returns `true` if the channel is closed.
    pub fn is_closed(&self) -> (r: bool)
        ensures
            r == self.closed(),
    {
        self.is_closed
    }

    /// Sends without waiting: a closed channel refuses the value; otherwise the
    /// first receiver that can be served gets it (a plain receiver, or a select
    /// branch whose select is acquired; branches of selects resolved elsewhere are
    /// dropped); otherwise it is stored unless the channel is full.
    pub fn try_send(&mut self, value: T) -> (r: Result<SendOutcome<T>, TrySendErr<T>>)
        requires
            old(self).wf(),
        ensures
            final(self).wf(),
            final(self).capacity() == old(self).capacity(),
            final(self).closed() == old(self).closed(),
            final(self).waiting() == old(self).waiting() ==> final(self).waiting_kind() == old(self).waiting_kind(),
            old(self).closed() ==> r == Err::<SendOutcome<T>, TrySendErr<T>>(
                TrySendErr::Closed(value),
            ) && final(self).storage() == old(self).storage() && final(self).waiting() == old(self).waiting(),
            !old(self).closed() && old(self).waiting_kind() != SenderReceiverQueueOption::Receiver
                ==> final(self).waiting() == old(self).waiting() && stored_or_full(
                old(self).storage(),
                final(self).storage(),
                old(self).capacity(),
                value,
                r,
            ),
            !old(self).closed() && old(self).waiting_kind() == SenderReceiverQueueOption::Receiver
                ==> (r matches Ok(SendOutcome::HandedTo(t, v)) ==> v == value && served_entry(
                old(self).waiting(),
                final(self).waiting(),
            ) && entry_task_is(
                old(self).waiting()[dropped_before_served(old(self).waiting(), final(self).waiting())],
                t,
            ) && final(self).storage() == old(self).storage()) && (!(r matches Ok(
                SendOutcome::HandedTo(_, _),
            )) ==> final(self).waiting() == Seq::<WaitingTask<T>>::empty() && select_prefix(
                old(self).waiting(),
                old(self).waiting().len() as int,
            ) && stored_or_full(old(self).storage(), final(self).storage(), old(self).capacity(), value, r)),
    {
        if self.is_closed {
            return Err(TrySendErr::Closed(value));
        }
        match self.waiters.pop_live_receiver() {
            Some(receiver) => {
                return Ok(SendOutcome::HandedTo(receiver, value));
            },
            None => {},
        }
        if self.storage.len() >= self.capacity {
            return Err(TrySendErr::Full(value));
        }
        self.storage.push_back(value);
        Ok(SendOutcome::Stored)
    }

    /// Sends `value` for `task`, waiting if need be: a closed channel gives both
    /// back; otherwise the first receiver that can be served gets the value (as
    /// in [`try_send`](ChannelInner::try_send)), or else the value is stored if
    /// there is room, or else the task is parked with its value.
    pub fn send(&mut self, value: T, task: Task) -> (r: SendAttempt<T>)
        requires
            old(self).wf(),
        ensures
            final(self).wf(),
            final(self).capacity() == old(self).capacity(),
            final(self).closed() == old(self).closed(),
            (r is Closed) <==> old(self).closed(),
            old(self).closed() ==> r == SendAttempt::Closed(value, task) && final(self).storage()
                == old(self).storage() && final(self).waiting() == old(self).waiting(),
            !old(self).closed() && old(self).waiting_kind() != SenderReceiverQueueOption::Receiver
                ==> stored_or_parked(
                old(self).storage(),
                final(self).storage(),
                old(self).waiting(),
                final(self).waiting(),
                old(self).capacity(),
                value,
                task,
                r,
            ),
            !old(self).closed() && old(self).waiting_kind() == SenderReceiverQueueOption::Receiver
                ==> (r matches SendAttempt::Done(SendOutcome::HandedTo(t, v), own) ==> own == task
                && v == value && served_entry(old(self).waiting(), final(self).waiting())
                && entry_task_is(
                old(self).waiting()[dropped_before_served(old(self).waiting(), final(self).waiting())],
                t,
            ) && final(self).storage() == old(self).storage()) && (!(r matches SendAttempt::Done(
                SendOutcome::HandedTo(_, _),
                _,
            )) ==> select_prefix(old(self).waiting(), old(self).waiting().len() as int)
                && stored_or_parked(
                old(self).storage(),
                final(self).storage(),
                Seq::<WaitingTask<T>>::empty(),
                final(self).waiting(),
                old(self).capacity(),
                value,
                task,
                r,
            )),
            send_outcome(*old(self), *final(self), value, task, r),
    {
        match self.try_send(value) {
            Ok(outcome) => SendAttempt::Done(outcome, task),
            Err(TrySendErr::Closed(value)) => SendAttempt::Closed(value, task),
            Err(TrySendErr::Full(value)) => {
                proof {
                    lemma_channel_invariants(*self);
                }
                self.park_sender(task, value);
                SendAttempt::Parked
            },
            Err(TrySendErr::Locked(value)) => {
                assert(false);
                SendAttempt::Closed(value, task)
            },
        }
    }

    /// Receives for `task`, waiting if need be: a closed channel gives the task
    /// back; otherwise a value is received as in
    /// [`try_recv`](ChannelInner::try_recv), or else the task is parked.
    pub fn recv(&mut self, task: Task) -> (r: RecvAttempt<T>)
        requires
            old(self).wf(),
        ensures
            final(self).wf(),
            final(self).capacity() == old(self).capacity(),
            final(self).closed() == old(self).closed(),
            (r is Closed) <==> old(self).closed(),
            old(self).closed() ==> r == RecvAttempt::<T>::Closed(task) && final(self).storage()
                == old(self).storage() && final(self).waiting() == old(self).waiting(),
            !old(self).closed() && old(self).waiting_kind() != SenderReceiverQueueOption::Sender
                ==> taken_or_parked(
                old(self).storage(),
                final(self).storage(),
                old(self).waiting(),
                final(self).waiting(),
                task,
                r,
            ),
            !old(self).closed() && old(self).waiting_kind() == SenderReceiverQueueOption::Sender
                ==> (r matches RecvAttempt::Done(received, own) ==> (received.woken_sender is Some
                ==> own == task && served_entry(old(self).waiting(), final(self).waiting())
                && entry_task_is(
                old(self).waiting()[dropped_before_served(old(self).waiting(), final(self).waiting())],
                received.woken_sender->Some_0,
            ) && moved_in(
                old(self).storage(),
                final(self).storage(),
                received.value,
                offered_value(
                    old(self).waiting()[dropped_before_served(old(self).waiting(), final(self).waiting())],
                ),
            ))) && (!(r matches RecvAttempt::Done(received, _) && received.woken_sender is Some)
                ==> select_prefix(old(self).waiting(), old(self).waiting().len() as int)
                && taken_or_parked(
                old(self).storage(),
                final(self).storage(),
                Seq::<WaitingTask<T>>::empty(),
                final(self).waiting(),
                task,
                r,
            )),
            recv_outcome(*old(self), *final(self), task, r),
    {
        match self.try_recv() {
            Ok(received) => RecvAttempt::Done(received, task),
            Err(TryRecvErr::Closed) => RecvAttempt::Closed(task),
            Err(TryRecvErr::Empty) => {
                proof {
                    lemma_channel_invariants(*self);
                }
                self.park_receiver(task);
                RecvAttempt::Parked
            },
            Err(TryRecvErr::Locked) => {
                assert(false);
                RecvAttempt::Closed(task)
            },
        }
    }

    /// Parks a sender with its value: the channel must be open and full.
    pub fn park_sender(&mut self, task: Task, value: T)
        requires
            old(self).wf(),
            !old(self).closed(),
            old(self).waiting_kind() != SenderReceiverQueueOption::Receiver,
            old(self).storage().len() >= old(self).capacity(),
        ensures
            final(self).wf(),
            final(self).capacity() == old(self).capacity(),
            final(self).closed() == old(self).closed(),
            final(self).storage() == old(self).storage(),
            final(self).waiting() == old(self).waiting().push(WaitingTask::Sender(task, value)),
            final(self).waiting_kind() == SenderReceiverQueueOption::Sender,
    {
        self.waiters.push_sender(WaitingTask::Sender(task, value));
    }

    /// Receives without waiting: a closed channel refuses; otherwise the oldest
    /// stored value is taken and the first sender that can be served moves its
    /// value into the storage; with nothing stored the value comes straight from
    /// the first sender that can be served, and without one the channel is empty.
    /// Branches of selects resolved elsewhere are dropped on the way.
    pub fn try_recv(&mut self) -> (r: Result<Received<T>, TryRecvErr>)
        requires
            old(self).wf(),
        ensures
            final(self).wf(),
            final(self).capacity() == old(self).capacity(),
            final(self).closed() == old(self).closed(),
            final(self).waiting() == old(self).waiting() ==> final(self).waiting_kind() == old(self).waiting_kind(),
            old(self).closed() ==> r == Err::<Received<T>, TryRecvErr>(TryRecvErr::Closed)
                && final(self).storage() == old(self).storage() && final(self).waiting() == old(self).waiting(),
            !old(self).closed() && old(self).waiting_kind() != SenderReceiverQueueOption::Sender
                ==> final(self).waiting() == old(self).waiting() && taken_or_empty(
                old(self).storage(),
                final(self).storage(),
                r,
            ),
            !old(self).closed() && old(self).waiting_kind() == SenderReceiverQueueOption::Sender
                ==> (woke_sender(r) ==> served_entry(
                old(self).waiting(),
                final(self).waiting(),
            ) && entry_task_is(
                old(self).waiting()[dropped_before_served(old(self).waiting(), final(self).waiting())],
                r->Ok_0.woken_sender->Some_0,
            ) && moved_in(
                old(self).storage(),
                final(self).storage(),
                r->Ok_0.value,
                offered_value(
                    old(self).waiting()[dropped_before_served(old(self).waiting(), final(self).waiting())],
                ),
            )) && (!woke_sender(r) ==> final(self).waiting()
                == Seq::<WaitingTask<T>>::empty() && select_prefix(
                old(self).waiting(),
                old(self).waiting().len() as int,
            ) && taken_or_empty(old(self).storage(), final(self).storage(), r)),
    {
        if self.is_closed {
            return Err(TryRecvErr::Closed);
        }
        if self.storage.len() == 0 {
            return match self.waiters.pop_live_sender() {
                Some((sender, value)) => Ok(Received { value, woken_sender: Some(sender) }),
                None => Err(TryRecvErr::Empty),
            };
        }
        let value = match self.storage.pop_front() {
            Some(value) => value,
            None => {
                assert(false);
                return Err(TryRecvErr::Empty);
            },
        };
        let woken_sender = match self.waiters.pop_live_sender() {
            Some((sender, moved)) => {
                self.storage.push_back(moved);
                Some(sender)
            },
            None => None,
        };
        Ok(Received { value, woken_sender })
    }

    /// Parks a receiver: the channel must be open, hold no value, and have no
    /// waiting sender.
    pub fn park_receiver(&mut self, task: Task)
        requires
            old(self).wf(),
            !old(self).closed(),
            old(self).waiting_kind() != SenderReceiverQueueOption::Sender,
            old(self).storage().len() == 0,
        ensures
            final(self).wf(),
            final(self).capacity() == old(self).capacity(),
            final(self).closed() == old(self).closed(),
            final(self).storage() == old(self).storage(),
            final(self).waiting() == old(self).waiting().push(WaitingTask::Receiver(task)),
            final(self).waiting_kind() == SenderReceiverQueueOption::Receiver,
    {
        self.waiters.push_receiver(WaitingTask::Receiver(task));
    }

    /// Subscribes a sending select branch with its value: on a closed channel the
    /// branch resolves its select with the close; otherwise the first receiver
    /// that can be served takes the value if the branch resolves its select
    /// together with it (receivers of selects resolved elsewhere are dropped; a
    /// receiver met while this select is resolved goes back to the end of the
    /// queue); with no receiver the value is stored if there is room and the
    /// select is resolved, and the branch waits in a full channel.
    pub fn send_or_subscribe(&mut self, branch: TaskInSelectBranch, value: T) -> (r:
        SelectSendResult<T>)
        requires
            old(self).wf(),
            branch.wf(),
        ensures
            final(self).wf(),
            final(self).capacity() == old(self).capacity(),
            final(self).closed() == old(self).closed(),
            old(self).closed() ==> final(self).storage() == old(self).storage() && final(
                self).waiting() == old(self).waiting() && (r is Closed || r is AlreadyAcquired),
            r matches SelectSendResult::Closed(own, v) ==> v == value && own.spec_id()
                == branch.select_id(),
            r matches SelectSendResult::AlreadyAcquired(v) ==> v == value && final(self).storage()
                == old(self).storage(),
            r matches SelectSendResult::Sent(SendOutcome::HandedTo(t, v), own) ==> v == value
                && own.spec_id() == branch.select_id() && final(self).storage() == old(
                self).storage() && served_entry(old(self).waiting(), final(self).waiting())
                && entry_task_is(
                old(self).waiting()[dropped_before_served(old(self).waiting(), final(self).waiting())],
                t,
            ),
            r matches SelectSendResult::Sent(SendOutcome::Stored, own) ==> own.spec_id()
                == branch.select_id() && final(self).storage() == old(self).storage().push(value)
                && dropped_resolved(old(self).waiting(), final(self).waiting()),
            !old(self).closed() && r is AlreadyAcquired ==> requeued_entry(
                old(self).waiting(),
                final(self).waiting(),
            ) || dropped_resolved(old(self).waiting(), final(self).waiting()),
            r is NotReady ==> final(self).storage() == old(self).storage() && final(
                self).waiting().len() > 0 && final(self).waiting().last() == WaitingTask::SelectSender(
                branch,
                value,
            ) && dropped_resolved(old(self).waiting(), final(self).waiting().drop_last()),
            !old(self).closed() && old(self).waiting_kind() != SenderReceiverQueueOption::Receiver
                && old(self).storage().len() >= old(self).capacity() ==> r is NotReady && final(
                self).waiting() == old(self).waiting().push(WaitingTask::SelectSender(branch, value)),
            r is NotReady ==> !old(self).closed() && old(self).storage().len() >= old(self).capacity(),
            !old(self).closed() && old(self).waiting_kind() != SenderReceiverQueueOption::Receiver
                && old(self).storage().len() < old(self).capacity() ==> (r matches SelectSendResult::Sent(
                SendOutcome::Stored,
                _,
            )) || r is AlreadyAcquired,
            subscribed_send_outcome(*old(self), *final(self), branch, value, r),
    {
        if self.is_closed {
            return match branch.acquire_once() {
                Some(own) => SelectSendResult::Closed(own, value),
                None => SelectSendResult::AlreadyAcquired(value),
            };
        }
        let ghost start = self.waiting();
        let ghost mut k: int = 0;
        while self.waiters.option() == SenderReceiverQueueOption::Receiver
            invariant
                self.wf(),
                !self.is_closed,
                !old(self).is_closed,
                self.capacity == old(self).capacity,
                self.storage@ == old(self).storage@,
                branch.wf(),
                start == old(self).waiting(),
                0 <= k <= start.len(),
                select_prefix(start, k),
                self.waiting() == start.skip(k),
                old(self).waiting_kind() != SenderReceiverQueueOption::Receiver ==> k == 0
                    && self.waiting_kind() == old(self).waiting_kind(),
            decreases self.waiters@.len(),
        {
            let entry = match self.waiters.pop_receiver() {
                Some(entry) => entry,
                None => {
                    assert(false);
                    return SelectSendResult::AlreadyAcquired(value);
                },
            };
            assert(entry == start[k]);
            assert(self.waiting() =~= start.skip(k + 1));
            match entry {
                WaitingTask::Receiver(task) => {
                    match branch.acquire_once() {
                        Some(own) => {
                            return SelectSendResult::Sent(SendOutcome::HandedTo(task, value), own);
                        },
                        None => {
                            self.waiters.push_receiver(WaitingTask::Receiver(task));
                            assert(self.waiting() =~= start.skip(k + 1).push(start[k]));
                            return SelectSendResult::AlreadyAcquired(value);
                        },
                    }
                },
                WaitingTask::SelectReceiver(other) => {
                    match branch.try_acquire_two(&other) {
                        TwoAcquisition::Acquired(own, task) => {
                            return SelectSendResult::Sent(SendOutcome::HandedTo(task, value), own);
                        },
                        TwoAcquisition::OtherAcquired => {
                            proof {
                                k = k + 1;
                            }
                        },
                        _ => {
                            self.waiters.push_receiver(WaitingTask::SelectReceiver(other));
                            assert(self.waiting() =~= start.skip(k + 1).push(start[k]));
                            return SelectSendResult::AlreadyAcquired(value);
                        },
                    }
                },
                _ => {
                    assert(false);
                },
            }
        }
        if self.storage.len() >= self.capacity {
            self.waiters.push_sender(WaitingTask::SelectSender(branch, value));
            assert(self.waiting().drop_last() =~= start.skip(k));
            proof {
                if old(self).waiting_kind() != SenderReceiverQueueOption::Receiver {
                    assert(start.skip(0) =~= start);
                }
            }
            return SelectSendResult::NotReady;
        }
        match branch.acquire_once() {
            Some(own) => {
                self.storage.push_back(value);
                SelectSendResult::Sent(SendOutcome::Stored, own)
            },
            None => SelectSendResult::AlreadyAcquired(value),
        }
    }

    /// Subscribes a receiving select branch: on a closed channel the branch
    /// resolves its select with the close; with nothing stored, the first sender
    /// that can be served hands over its value if the branch resolves its select
    /// together with it (senders of selects resolved elsewhere are dropped; a
    /// sender met while this select is resolved goes back to the end of the
    /// queue), and the branch waits otherwise; with values stored, the branch
    /// resolves its select and takes the oldest one, and the first sender that can
    /// be served moves its value into the storage.
    pub fn recv_or_subscribe(&mut self, branch: TaskInSelectBranch) -> (r: SelectRecvResult<T>)
        requires
            old(self).wf(),
            branch.wf(),
        ensures
            final(self).wf(),
            final(self).capacity() == old(self).capacity(),
            final(self).closed() == old(self).closed(),
            old(self).closed() ==> final(self).storage() == old(self).storage() && final(
                self).waiting() == old(self).waiting() && (r is Closed || r is AlreadyAcquired),
            r matches SelectRecvResult::Closed(own) ==> own.spec_id() == branch.select_id(),
            r matches SelectRecvResult::Received(received, own) ==> own.spec_id()
                == branch.select_id() && (old(self).storage().len() > 0 ==> received.value == old(
                self).storage()[0]),
            r is AlreadyAcquired ==> final(self).storage() == old(self).storage(),
            r is NotReady ==> final(self).storage() == old(self).storage() && final(
                self).waiting().len() > 0 && final(self).waiting().last()
                == WaitingTask::<T>::SelectReceiver(branch),
            !old(self).closed() && old(self).storage().len() == 0 && old(self).waiting_kind()
                != SenderReceiverQueueOption::Sender ==> r is NotReady && final(self).waiting()
                == old(self).waiting().push(WaitingTask::SelectReceiver(branch)),
            !old(self).closed() && old(self).storage().len() > 0 ==> (r is Received
                || r is AlreadyAcquired),
            !old(self).closed() && old(self).storage().len() > 0 && r is AlreadyAcquired
                ==> final(self).waiting() == old(self).waiting(),
            !old(self).closed() && old(self).storage().len() == 0 && r is AlreadyAcquired
                ==> requeued_entry(old(self).waiting(), final(self).waiting()),
            !old(self).closed() && old(self).storage().len() == 0 && r is NotReady
                ==> dropped_resolved(old(self).waiting(), final(self).waiting().drop_last()),
            !old(self).closed() && old(self).storage().len() == 0 ==> (r matches SelectRecvResult::Received(received, _)
                ==> received.woken_sender is Some && served_entry(old(self).waiting(), final(self).waiting())
                && entry_task_is(
                old(self).waiting()[dropped_before_served(old(self).waiting(), final(self).waiting())],
                received.woken_sender->Some_0,
            ) && received.value == offered_value(
                old(self).waiting()[dropped_before_served(old(self).waiting(), final(self).waiting())],
            )),
            !old(self).closed() && old(self).storage().len() > 0 ==> (r matches SelectRecvResult::Received(received, _)
                ==> (received.woken_sender is None ==> final(self).storage() == old(
                self).storage().drop_first()) && (received.woken_sender matches Some(sender)
                ==> served_entry(old(self).waiting(), final(self).waiting()) && entry_task_is(
                old(self).waiting()[dropped_before_served(old(self).waiting(), final(self).waiting())],
                sender,
            ) && final(self).storage() == old(self).storage().drop_first().push(
                offered_value(
                    old(self).waiting()[dropped_before_served(
                        old(self).waiting(),
                        final(self).waiting(),
                    )],
                ),
            ))),
    {
        if self.is_closed {
            return match branch.acquire_once() {
                Some(own) => SelectRecvResult::Closed(own),
                None => SelectRecvResult::AlreadyAcquired,
            };
        }
        if self.storage.len() == 0 {
            let ghost start = self.waiting();
            let ghost mut k: int = 0;
            while self.waiters.option() == SenderReceiverQueueOption::Sender
                invariant
                    self.wf(),
                    !self.is_closed,
                    !old(self).is_closed,
                    self.capacity == old(self).capacity,
                    self.storage@ == old(self).storage@,
                    self.storage@.len() == 0,
                    branch.wf(),
                    start == old(self).waiting(),
                    0 <= k <= start.len(),
                    select_prefix(start, k),
                    self.waiting() == start.skip(k),
                    old(self).waiting_kind() != SenderReceiverQueueOption::Sender ==> k == 0
                        && self.waiting_kind() == old(self).waiting_kind(),
                decreases self.waiters@.len(),
            {
                let entry = match self.waiters.pop_sender() {
                    Some(entry) => entry,
                    None => {
                        assert(false);
                        return SelectRecvResult::AlreadyAcquired;
                    },
                };
                assert(entry == start[k]);
                assert(self.waiting() =~= start.skip(k + 1));
                match entry {
                    WaitingTask::Sender(task, value) => {
                        match branch.acquire_once() {
                            Some(own) => {
                                return SelectRecvResult::Received(
                                    Received { value, woken_sender: Some(task) },
                                    own,
                                );
                            },
                            None => {
                                self.waiters.push_sender(WaitingTask::Sender(task, value));
                                assert(self.waiting() =~= start.skip(k + 1).push(start[k]));
                                return SelectRecvResult::AlreadyAcquired;
                            },
                        }
                    },
                    WaitingTask::SelectSender(other, value) => {
                        match branch.try_acquire_two(&other) {
                            TwoAcquisition::Acquired(own, task) => {
                                return SelectRecvResult::Received(
                                    Received { value, woken_sender: Some(task) },
                                    own,
                                );
                            },
                            TwoAcquisition::OtherAcquired => {
                                proof {
                                    k = k + 1;
                                }
                            },
                            _ => {
                                self.waiters.push_sender(WaitingTask::SelectSender(other, value));
                                assert(self.waiting() =~= start.skip(k + 1).push(start[k]));
                                return SelectRecvResult::AlreadyAcquired;
                            },
                        }
                    },
                    _ => {
                        assert(false);
                    },
                }
            }
            self.waiters.push_receiver(WaitingTask::SelectReceiver(branch));
            assert(self.waiting().drop_last() =~= start.skip(k));
            proof {
                if old(self).waiting_kind() != SenderReceiverQueueOption::Sender {
                    assert(start.skip(0) =~= start);
                }
            }
            return SelectRecvResult::NotReady;
        }
        match branch.acquire_once() {
            Some(own) => {
                let value = match self.storage.pop_front() {
                    Some(value) => value,
                    None => {
                        assert(false);
                        return SelectRecvResult::AlreadyAcquired;
                    },
                };
                let woken_sender = match self.waiters.pop_live_sender() {
                    Some((sender, moved)) => {
                        self.storage.push_back(moved);
                        Some(sender)
                    },
                    None => None,
                };
                SelectRecvResult::Received(Received { value, woken_sender }, own)
            },
            None => SelectRecvResult::AlreadyAcquired,
        }
    }

    /// Takes the waiting task `id` out of the channel, as when its deadline has
    /// passed: a waiting sender comes back with its value. Returns `None` if the
    /// task does not wait (it was served or woken by the close already).
    pub fn cancel_waiting(&mut self, id: u64) -> (r: Option<WaitingTask<T>>)
        requires
            old(self).wf(),
        ensures
            final(self).wf(),
            final(self).capacity() == old(self).capacity(),
            final(self).closed() == old(self).closed(),
            final(self).storage() == old(self).storage(),
            r is None <==> forall|i: int| 0 <= i < old(self).waiting().len() ==> waiting_task_id(
                #[trigger] old(self).waiting()[i],
            ) != id,
            r is None ==> final(self).waiting() == old(self).waiting(),
            r is Some ==> exists|i: int|
                0 <= i < old(self).waiting().len() && waiting_task_id(old(self).waiting()[i]) == id
                    && (forall|j: int|
                    0 <= j < i ==> waiting_task_id(#[trigger] old(self).waiting()[j]) != id) && r
                    == Some(old(self).waiting()[i]) && final(self).waiting() == old(
                    self).waiting().remove(i),
    {
        let ghost before = self.waiters@;
        assert(before == old(self).waiting());
        let r = self.waiters.remove_task(id);
        assert(self.waiting() == self.waiters@);
        r
    }

    /// Closes the channel and returns the waiting tasks to be woken by the close,
    /// first come first; waiting senders get their values back. A select branch is
    /// woken only if this call acquires its select, as the plain task of the select.
    pub fn close(&mut self) -> (woken: Vec<WaitingTask<T>>)
        requires
            old(self).wf(),
        ensures
            final(self).wf(),
            final(self).closed(),
            final(self).capacity() == old(self).capacity(),
            final(self).storage() == old(self).storage(),
            final(self).waiting() == Seq::<WaitingTask<T>>::empty(),
            woken@.len() <= old(self).waiting().len(),
            forall|i: int| 0 <= i < woken@.len() ==> is_plain_entry(#[trigger] woken@[i]),
            (forall|i: int| 0 <= i < old(self).waiting().len() ==> is_plain_entry(
                #[trigger] old(self).waiting()[i],
            )) ==> woken@ == old(self).waiting(),
    {
        self.is_closed = true;
        let mut rest = self.waiters.take_all();
        let ghost start = rest@;
        let mut woken: Vec<WaitingTask<T>> = Vec::new();
        while rest.len() > 0
            invariant
                woken@.len() + rest@.len() <= start.len(),
                rest@ == start.skip(start.len() - rest@.len()),
                forall|i: int| 0 <= i < woken@.len() ==> is_plain_entry(#[trigger] woken@[i]),
                (forall|i: int| 0 <= i < start.len() ==> is_plain_entry(#[trigger] start[i]))
                    ==> woken@ + rest@ == start,
                forall|i: int| 0 <= i < start.len() ==> entry_wf(#[trigger] start[i]),
            decreases rest@.len(),
        {
            let ghost before = rest@;
            let entry = rest.remove(0);
            assert(before == seq![entry] + rest@);
            assert(rest@ =~= start.skip(start.len() - rest@.len()));
            assert(entry == start[start.len() - before.len()]);
            assert(entry_wf(entry));
            match entry {
                WaitingTask::SelectSender(branch, value) => {
                    match branch.acquire_once() {
                        Some(task) => woken.push(WaitingTask::Sender(task, value)),
                        None => {},
                    }
                },
                WaitingTask::SelectReceiver(branch) => {
                    match branch.acquire_once() {
                        Some(task) => woken.push(WaitingTask::Receiver(task)),
                        None => {},
                    }
                },
                plain => {
                    let ghost w = woken@;
                    woken.push(plain);
                    assert(woken@ + rest@ =~= w + before);
                },
            }
        }
        assert(rest@.len() == 0);
        proof {
            if forall|i: int| 0 <= i < start.len() ==> is_plain_entry(#[trigger] start[i]) {
                assert(woken@ =~= woken@ + rest@);
            }
        }
        woken
    }
}

/// What [`ChannelInner::send`] does, stated over the state before and after it.
pub open spec fn send_outcome<T>(
    before: ChannelInner<T>,
    after: ChannelInner<T>,
    value: T,
    task: Task,
    r: SendAttempt<T>,
) -> bool {
    &&& after.wf()
    &&& after.capacity() == before.capacity()
    &&& after.closed() == before.closed()
    &&& (r is Closed) <==> before.closed()
    &&& before.closed() ==> r == SendAttempt::Closed(value, task) && after.storage()
        == before.storage() && after.waiting() == before.waiting()
    &&& !before.closed() && before.waiting_kind() != SenderReceiverQueueOption::Receiver
        ==> stored_or_parked(
        before.storage(),
        after.storage(),
        before.waiting(),
        after.waiting(),
        before.capacity(),
        value,
        task,
        r,
    )
    &&& !before.closed() && before.waiting_kind() == SenderReceiverQueueOption::Receiver ==> {
        &&& r matches SendAttempt::Done(SendOutcome::HandedTo(t, v), own) ==> own == task && v
            == value && served_entry(before.waiting(), after.waiting()) && entry_task_is(
            before.waiting()[dropped_before_served(before.waiting(), after.waiting())],
            t,
        ) && after.storage() == before.storage()
        &&& !(r matches SendAttempt::Done(SendOutcome::HandedTo(_, _), _)) ==> select_prefix(
            before.waiting(),
            before.waiting().len() as int,
        ) && stored_or_parked(
            before.storage(),
            after.storage(),
            Seq::<WaitingTask<T>>::empty(),
            after.waiting(),
            before.capacity(),
            value,
            task,
            r,
        )
    }
}

/// What [`ChannelInner::recv`] does, stated over the state before and after it.
pub open spec fn recv_outcome<T>(
    before: ChannelInner<T>,
    after: ChannelInner<T>,
    task: Task,
    r: RecvAttempt<T>,
) -> bool {
    &&& after.wf()
    &&& after.capacity() == before.capacity()
    &&& after.closed() == before.closed()
    &&& (r is Closed) <==> before.closed()
    &&& before.closed() ==> r == RecvAttempt::<T>::Closed(task) && after.storage()
        == before.storage() && after.waiting() == before.waiting()
    &&& !before.closed() && before.waiting_kind() != SenderReceiverQueueOption::Sender
        ==> taken_or_parked(
        before.storage(),
        after.storage(),
        before.waiting(),
        after.waiting(),
        task,
        r,
    )
    &&& !before.closed() && before.waiting_kind() == SenderReceiverQueueOption::Sender ==> {
        &&& r matches RecvAttempt::Done(received, own) ==> (received.woken_sender is Some ==> own
            == task && served_entry(before.waiting(), after.waiting()) && entry_task_is(
            before.waiting()[dropped_before_served(before.waiting(), after.waiting())],
            received.woken_sender->Some_0,
        ) && moved_in(
            before.storage(),
            after.storage(),
            received.value,
            offered_value(before.waiting()[dropped_before_served(before.waiting(), after.waiting())]),
        ))
        &&& !(r matches RecvAttempt::Done(received, _) && received.woken_sender is Some)
            ==> select_prefix(before.waiting(), before.waiting().len() as int) && taken_or_parked(
            before.storage(),
            after.storage(),
            Seq::<WaitingTask<T>>::empty(),
            after.waiting(),
            task,
            r,
        )
    }
}

/// What [`ChannelInner::send_or_subscribe`] does to the stored values and what it
/// returns, stated over the state before and after it.
pub open spec fn subscribed_send_outcome<T>(
    before: ChannelInner<T>,
    after: ChannelInner<T>,
    branch: TaskInSelectBranch,
    value: T,
    r: SelectSendResult<T>,
) -> bool {
    &&& after.wf()
    &&& after.capacity() == before.capacity()
    &&& after.closed() == before.closed()
    &&& before.closed() ==> r is Closed || r is AlreadyAcquired
    &&& r matches SelectSendResult::Closed(own, v) ==> v == value && own.spec_id() == branch.select_id()
    &&& r matches SelectSendResult::AlreadyAcquired(v) ==> v == value && after.storage()
        == before.storage()
    &&& r matches SelectSendResult::Sent(SendOutcome::HandedTo(_, v), own) ==> v == value
        && own.spec_id() == branch.select_id() && after.storage() == before.storage()
    &&& r matches SelectSendResult::Sent(SendOutcome::Stored, own) ==> own.spec_id()
        == branch.select_id() && after.storage() == before.storage().push(value)
    &&& r is NotReady ==> !before.closed() && before.storage().len() >= before.capacity()
        && after.storage() == before.storage() && after.waiting().len() > 0
        && after.waiting().last() == WaitingTask::SelectSender(branch, value)
    &&& !before.closed() && before.waiting_kind() != SenderReceiverQueueOption::Receiver
        && before.storage().len() < before.capacity() ==> (r matches SelectSendResult::Sent(
        SendOutcome::Stored,
        _,
    )) || r is AlreadyAcquired
}

/// A sending select branch waits only in a full channel: on an open channel with
/// room and no waiting receiver, it either resolves its select, storing the
/// value behind the others and returning the select's task, or finds the select
/// resolved elsewhere and gets the value back, the storage unchanged.
pub proof fn lemma_subscribed_send_waits_only_when_full<T>(
    before: ChannelInner<T>,
    after: ChannelInner<T>,
    branch: TaskInSelectBranch,
    value: T,
    r: SelectSendResult<T>,
)
    requires
        before.wf(),
        subscribed_send_outcome(before, after, branch, value, r),
    ensures
        r is NotReady ==> before.storage().len() >= before.capacity(),
        !before.closed() && before.waiting_kind() != SenderReceiverQueueOption::Receiver
            && before.storage().len() < before.capacity() ==> {
            ||| r matches SelectSendResult::Sent(SendOutcome::Stored, own) && own.spec_id()
                == branch.select_id() && after.storage() == before.storage().push(value)
            ||| r matches SelectSendResult::AlreadyAcquired(v) && v == value && after.storage()
                == before.storage()
        },
{
}

/// A send that may wait never loses its value and parks only when it must: on a
/// closed channel it gives the value and the task back; on an open channel with
/// no waiting receiver and room it completes with the value stored behind the
/// others; it parks only on a full channel, and then with its task and value
/// last in the queue and the storage unchanged; a send that completes gives its
/// own task back.
pub proof fn lemma_send_parks_only_when_full<T>(
    before: ChannelInner<T>,
    after: ChannelInner<T>,
    value: T,
    task: Task,
    r: SendAttempt<T>,
)
    requires
        before.wf(),
        send_outcome(before, after, value, task, r),
    ensures
        (r is Closed) <==> before.closed(),
        r matches SendAttempt::Closed(v, t) ==> v == value && t == task,
        r matches SendAttempt::Done(_, t) ==> t == task,
        !before.closed() && before.waiting_kind() != SenderReceiverQueueOption::Receiver
            && before.storage().len() < before.capacity() ==> r == SendAttempt::Done(
            SendOutcome::<T>::Stored,
            task,
        ) && after.storage() == before.storage().push(value) && after.waiting() == before.waiting(),
        r is Parked ==> before.storage().len() >= before.capacity() && after.storage()
            == before.storage() && after.waiting().len() > 0 && after.waiting().last()
            == WaitingTask::Sender(task, value),
        r matches SendAttempt::Done(SendOutcome::Stored, _) ==> after.storage() == before.storage().push(
            value,
        ),
{
}

/// A receive that may wait serves the first waiting sender: when a plain sender
/// waits first in the queue, the receive completes, names that sender as the
/// one to wake, and the sender leaves the queue; its value is received when
/// nothing was stored, and otherwise the oldest stored value is received and the
/// sender's value is stored behind the rest. A receive parks only when nothing
/// is stored, with its task last in the queue.
pub proof fn lemma_recv_wakes_the_first_sender<T>(
    before: ChannelInner<T>,
    after: ChannelInner<T>,
    task: Task,
    r: RecvAttempt<T>,
)
    requires
        before.wf(),
        recv_outcome(before, after, task, r),
    ensures
        (r is Closed) <==> before.closed(),
        r matches RecvAttempt::Closed(t) ==> t == task,
        r matches RecvAttempt::Done(_, t) ==> t == task,
        r is Parked ==> before.storage().len() == 0 && after.storage() == before.storage()
            && after.waiting().len() > 0 && after.waiting().last() == WaitingTask::<T>::Receiver(task),
        !before.closed() && before.waiting().len() > 0 ==> (before.waiting()[0] matches WaitingTask::Sender(
            sender,
            offered,
        ) ==> {
            &&& r matches RecvAttempt::Done(received, _)
            &&& received.woken_sender == Some(sender)
            &&& after.waiting() == before.waiting().drop_first()
            &&& before.storage().len() == 0 ==> received.value == offered && after.storage()
                == before.storage()
            &&& before.storage().len() > 0 ==> received.value == before.storage()[0]
                && after.storage() == before.storage().drop_first().push(offered)
        }),
{
    lemma_channel_invariants(before);
    if !before.closed() && before.waiting().len() > 0 {
        if before.waiting()[0] is Sender {
            assert(is_sender_entry(before.waiting()[0]));
            assert(before.waiting_kind() == SenderReceiverQueueOption::Sender);
            if r matches RecvAttempt::Done(received, _) && received.woken_sender is Some {
                let k = dropped_before_served(before.waiting(), after.waiting());
                if k > 0 {
                    assert(select_prefix(before.waiting(), k));
                    assert(before.waiting()[0] is SelectSender || before.waiting()[0] is SelectReceiver);
                }
                assert(k == 0);
                assert(after.waiting() =~= before.waiting().drop_first());
            } else {
                assert(select_prefix(before.waiting(), before.waiting().len() as int));
                assert(before.waiting()[0] is SelectSender || before.waiting()[0] is SelectReceiver);
            }
        }
    }
}

/// What every well-formed channel state satisfies, which each operation keeps:
/// at most `capacity` values are stored; receivers wait only while nothing is
/// stored and senders only while the storage is full; the waiting tasks are all
/// senders or all receivers; nobody waits on a closed channel.
pub proof fn lemma_channel_invariants<T>(c: ChannelInner<T>)
    requires
        c.wf(),
    ensures
        c.storage().len() <= c.capacity(),
        c.waiting_kind() == SenderReceiverQueueOption::Receiver ==> c.storage().len() == 0,
        c.waiting_kind() == SenderReceiverQueueOption::Sender ==> c.storage().len() == c.capacity(),
        c.waiting_kind() == SenderReceiverQueueOption::Empty <==> c.waiting().len() == 0,
        c.waiting_kind() == SenderReceiverQueueOption::Sender ==> forall|i: int|
            0 <= i < c.waiting().len() ==> is_sender_entry(#[trigger] c.waiting()[i]),
        c.waiting_kind() == SenderReceiverQueueOption::Receiver ==> forall|i: int|
            0 <= i < c.waiting().len() ==> is_receiver_entry(#[trigger] c.waiting()[i]),
        c.closed() ==> c.waiting().len() == 0,
{
}

/// What one operation of a run did to the values of a channel, as the contracts
/// of [`ChannelInner::try_send`] and [`ChannelInner::try_recv`] describe it.
pub enum ChannelStep<T> {
    /// A send stored the value.
    Stored(T),
    /// A receive took the oldest stored value.
    Taken(T),
    /// A receive took the oldest stored value (the first), and the value of the
    /// waiting sender it served (the second) was stored behind the rest.
    TakenMovingIn(T, T),
    /// With nothing stored, the value went straight from a sender to a receiver.
    HandedOver(T),
}

/// The values that entered the channel along a run, in order.
pub open spec fn sent_values<T>(ops: Seq<ChannelStep<T>>) -> Seq<T>
    decreases ops.len(),
{
    if ops.len() == 0 {
        Seq::empty()
    } else {
        let earlier = sent_values(ops.drop_last());
        match ops.last() {
            ChannelStep::Stored(v) => earlier.push(v),
            ChannelStep::Taken(_) => earlier,
            ChannelStep::TakenMovingIn(_, w) => earlier.push(w),
            ChannelStep::HandedOver(v) => earlier.push(v),
        }
    }
}

/// The values that were received along a run, in order.
pub open spec fn received_values<T>(ops: Seq<ChannelStep<T>>) -> Seq<T>
    decreases ops.len(),
{
    if ops.len() == 0 {
        Seq::empty()
    } else {
        let earlier = received_values(ops.drop_last());
        match ops.last() {
            ChannelStep::Stored(_) => earlier,
            ChannelStep::Taken(v) => earlier.push(v),
            ChannelStep::TakenMovingIn(v, _) => earlier.push(v),
            ChannelStep::HandedOver(v) => earlier.push(v),
        }
    }
}

/// The stored values go from `before` to `after` as the step says, in the terms
/// of the contracts of `try_send` ([`stored_or_full`]) and `try_recv`
/// ([`taken_or_empty`], [`moved_in`]).
pub open spec fn step_holds<T>(before: Seq<T>, after: Seq<T>, capacity: nat, op: ChannelStep<T>) -> bool {
    match op {
        ChannelStep::Stored(v) => stored_or_full(
            before,
            after,
            capacity,
            v,
            Ok::<SendOutcome<T>, TrySendErr<T>>(SendOutcome::Stored),
        ),
        ChannelStep::Taken(v) => taken_or_empty(
            before,
            after,
            Ok::<Received<T>, TryRecvErr>(Received { value: v, woken_sender: None }),
        ),
        ChannelStep::TakenMovingIn(v, w) => before.len() > 0 && moved_in(before, after, v, w),
        ChannelStep::HandedOver(v) => before.len() == 0 && moved_in(before, after, v, v),
    }
}

/// Values leave a channel in the order they entered it, each once: along any run
/// of sends and receives from an empty channel, the values received are the
/// first of the values sent, in the same order, and the channel holds the rest.
pub proof fn lemma_channel_fifo<T>(states: Seq<Seq<T>>, ops: Seq<ChannelStep<T>>, capacity: nat)
    requires
        states.len() == ops.len() + 1,
        states[0] == Seq::<T>::empty(),
        forall|i: int| 0 <= i < ops.len() ==> step_holds(#[trigger] states[i], states[i + 1], capacity, ops[i]),
    ensures
        received_values(ops).len() <= sent_values(ops).len(),
        received_values(ops) == sent_values(ops).take(received_values(ops).len() as int),
        states.last() == sent_values(ops).skip(received_values(ops).len() as int),
{
    lemma_channel_run_prefix(states, ops, capacity, ops.len() as int);
    assert(ops.take(ops.len() as int) =~= ops);
}

/// The order law of [`lemma_channel_fifo`] for the first `n` steps of the run.
proof fn lemma_channel_run_prefix<T>(states: Seq<Seq<T>>, ops: Seq<ChannelStep<T>>, capacity: nat, n: int)
    requires
        states.len() == ops.len() + 1,
        states[0] == Seq::<T>::empty(),
        forall|i: int| 0 <= i < ops.len() ==> step_holds(#[trigger] states[i], states[i + 1], capacity, ops[i]),
        0 <= n <= ops.len(),
    ensures
        received_values(ops.take(n)).len() <= sent_values(ops.take(n)).len(),
        received_values(ops.take(n)) == sent_values(ops.take(n)).take(
            received_values(ops.take(n)).len() as int,
        ),
        states[n] == sent_values(ops.take(n)).skip(received_values(ops.take(n)).len() as int),
    decreases n,
{
    if n == 0 {
        assert(ops.take(0) =~= Seq::<ChannelStep<T>>::empty());
        assert(sent_values(ops.take(0)) =~= Seq::<T>::empty());
    } else {
        lemma_channel_run_prefix(states, ops, capacity, n - 1);
        let prefix = ops.take(n);
        assert(prefix.drop_last() =~= ops.take(n - 1));
        assert(prefix.last() == ops[n - 1]);
        let sent = sent_values(ops.take(n - 1));
        let recv = received_values(ops.take(n - 1));
        let r = recv.len() as int;
        let before = states[n - 1];
        let after = states[n];
        assert(step_holds(before, after, capacity, ops[n - 1]));
        match ops[n - 1] {
            ChannelStep::Stored(v) => {
                assert(after == before.push(v));
                assert(sent.skip(r).push(v) =~= sent.push(v).skip(r));
                assert(sent.take(r) =~= sent.push(v).take(r));
            },
            ChannelStep::Taken(v) => {
                assert(before.len() > 0);
                assert(v == sent[r]);
                assert(after =~= sent.skip(r + 1));
                assert(recv.push(v) =~= sent.take(r + 1));
            },
            ChannelStep::TakenMovingIn(v, w) => {
                assert(v == sent[r]);
                assert(after =~= sent.push(w).skip(r + 1));
                assert(recv.push(v) =~= sent.push(w).take(r + 1));
            },
            ChannelStep::HandedOver(v) => {
                assert(sent.len() == r);
                assert(after =~= sent.push(v).skip(r + 1));
                assert(recv.push(v) =~= sent.push(v).take(r + 1));
            },
        }
    }
}

} // verus!
