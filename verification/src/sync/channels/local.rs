//! A channel for tasks of one thread: [`LocalChannel`], [`LocalSender`] and [`LocalReceiver`].
use crate::runtime::Task;
use crate::sync::channels::errors::{TryRecvErr, TrySendErr};
use crate::sync::channels::inner::{
    lemma_channel_invariants, recv_outcome, send_outcome, subscribed_send_outcome, ChannelInner, Received, RecvAttempt, SelectRecvResult, SelectSendResult, SendAttempt,
    SendOutcome,
};
use crate::sync::channels::select::TaskInSelectBranch;
use crate::sync::channels::waiting::{
    is_plain_entry, waiting_task_id, SenderReceiverQueueOption, WaitingTask,
};
use vstd::prelude::*;
use vstd::rwlock::RwLockPredicate;

verus! {

/// The invariant of the state kept in a channel: it is well formed and keeps
/// the capacity that the channel was made with.
pub struct InnerIsWellFormed {
    /// The capacity of the channel.
    pub capacity: usize,
}

impl<T> RwLockPredicate<ChannelInner<T>> for InnerIsWellFormed {
    open spec fn inv(self, inner: ChannelInner<T>) -> bool {
        inner.wf() && inner.capacity() == self.capacity
    }
}

/// `r` is what [`ChannelInner::send`] gives on some well-formed state of a
/// channel of capacity `capacity`.
pub open spec fn send_result_possible<T>(capacity: nat, value: T, task: Task, r: SendAttempt<T>) -> bool {
    exists|before: ChannelInner<T>, after: ChannelInner<T>|
        before.wf() && before.capacity() == capacity && #[trigger] send_outcome(before, after, value, task, r)
}

/// `r` is what [`ChannelInner::recv`] gives on some well-formed state of a
/// channel of capacity `capacity`.
pub open spec fn recv_result_possible<T>(capacity: nat, task: Task, r: RecvAttempt<T>) -> bool {
    exists|before: ChannelInner<T>, after: ChannelInner<T>|
        before.wf() && before.capacity() == capacity && #[trigger] recv_outcome(before, after, task, r)
}

/// `r` is what [`ChannelInner::send_or_subscribe`] gives on some well-formed
/// state of a channel of capacity `capacity`.
pub open spec fn subscribed_send_result_possible<T>(
    capacity: nat,
    branch: TaskInSelectBranch,
    value: T,
    r: SelectSendResult<T>,
) -> bool {
    exists|before: ChannelInner<T>, after: ChannelInner<T>|
        before.wf() && before.capacity() == capacity && #[trigger] subscribed_send_outcome(
            before,
            after,
            branch,
            value,
            r,
        )
}

/// Sends `value` for `task` on the channel state behind `lock` (see
/// [`ChannelInner::send`]).
pub fn send_on<T>(
    lock: &vstd::rwlock::RwLock<ChannelInner<T>, InnerIsWellFormed>,
    value: T,
    task: Task,
) -> (r: SendAttempt<T>)
    ensures
        r matches SendAttempt::Done(_, t) ==> t == task,
        r matches SendAttempt::Closed(v, t) ==> v == value && t == task,
        send_result_possible(lock.pred().capacity as nat, value, task, r),
{
    let (mut inner, handle) = lock.acquire_write();
    let ghost before = inner;
    let r = inner.send(value, task);
    assert(send_outcome(before, inner, value, task, r));
    handle.release_write(inner);
    r
}

/// Receives for `task` on the channel state behind `lock` (see
/// [`ChannelInner::recv`]).
pub fn recv_on<T>(lock: &vstd::rwlock::RwLock<ChannelInner<T>, InnerIsWellFormed>, task: Task) -> (r:
    RecvAttempt<T>)
    ensures
        r matches RecvAttempt::Done(_, t) ==> t == task,
        r matches RecvAttempt::Closed(t) ==> t == task,
        recv_result_possible(lock.pred().capacity as nat, task, r),
{
    let (mut inner, handle) = lock.acquire_write();
    let ghost before = inner;
    let r = inner.recv(task);
    assert(recv_outcome(before, inner, task, r));
    handle.release_write(inner);
    r
}

/// Sends without waiting on the channel state behind `lock`.
pub fn try_send_on<T>(lock: &vstd::rwlock::RwLock<ChannelInner<T>, InnerIsWellFormed>, value: T) -> (r:
    Result<SendOutcome<T>, TrySendErr<T>>)
    ensures
        r matches Err(TrySendErr::Full(v)) ==> v == value,
        r matches Err(TrySendErr::Closed(v)) ==> v == value,
        r matches Ok(SendOutcome::HandedTo(_, v)) ==> v == value,
        !(r matches Err(TrySendErr::Locked(_))),
{
    let (mut inner, handle) = lock.acquire_write();
    let r = inner.try_send(value);
    handle.release_write(inner);
    r
}

/// Receives without waiting on the channel state behind `lock`.
pub fn try_recv_on<T>(lock: &vstd::rwlock::RwLock<ChannelInner<T>, InnerIsWellFormed>) -> (r: Result<
    Received<T>,
    TryRecvErr,
>)
    ensures
        r != Err::<Received<T>, TryRecvErr>(TryRecvErr::Locked),
{
    let (mut inner, handle) = lock.acquire_write();
    let r = inner.try_recv();
    handle.release_write(inner);
    r
}

/// Subscribes a sending select branch on the channel state behind `lock`.
pub fn send_or_subscribe_on<T>(
    lock: &vstd::rwlock::RwLock<ChannelInner<T>, InnerIsWellFormed>,
    branch: TaskInSelectBranch,
    value: T,
) -> (r: SelectSendResult<T>)
    requires
        branch.wf(),
    ensures
        r matches SelectSendResult::AlreadyAcquired(v) ==> v == value,
        r matches SelectSendResult::Closed(own, v) ==> v == value && own.spec_id() == branch.select_id(),
        r matches SelectSendResult::Sent(_, own) ==> own.spec_id() == branch.select_id(),
        subscribed_send_result_possible(lock.pred().capacity as nat, branch, value, r),
{
    let (mut inner, handle) = lock.acquire_write();
    let ghost before = inner;
    let r = inner.send_or_subscribe(branch, value);
    assert(subscribed_send_outcome(before, inner, branch, value, r));
    handle.release_write(inner);
    r
}

/// Subscribes a receiving select branch on the channel state behind `lock`.
pub fn recv_or_subscribe_on<T>(
    lock: &vstd::rwlock::RwLock<ChannelInner<T>, InnerIsWellFormed>,
    branch: TaskInSelectBranch,
) -> (r: SelectRecvResult<T>)
    requires
        branch.wf(),
    ensures
        r matches SelectRecvResult::Closed(own) ==> own.spec_id() == branch.select_id(),
        r matches SelectRecvResult::Received(_, own) ==> own.spec_id() == branch.select_id(),
{
    let (mut inner, handle) = lock.acquire_write();
    let r = inner.recv_or_subscribe(branch);
    handle.release_write(inner);
    r
}

/// Takes the waiting task `id` out of the channel state behind `lock`.
pub fn cancel_on<T>(lock: &vstd::rwlock::RwLock<ChannelInner<T>, InnerIsWellFormed>, id: u64) -> (r:
    Option<WaitingTask<T>>)
    ensures
        r matches Some(w) ==> waiting_task_id(w) == id,
{
    let (mut inner, handle) = lock.acquire_write();
    let r = inner.cancel_waiting(id);
    handle.release_write(inner);
    r
}

/// Closes the channel state behind `lock` and returns the tasks that waited.
pub fn close_on<T>(lock: &vstd::rwlock::RwLock<ChannelInner<T>, InnerIsWellFormed>) -> (woken: Vec<
    WaitingTask<T>,
>)
    ensures
        forall|i: int| 0 <= i < woken@.len() ==> is_plain_entry(#[trigger] woken@[i]),
{
    let (mut inner, handle) = lock.acquire_write();
    let woken = inner.close();
    handle.release_write(inner);
    woken
}

/// A channel between the tasks of one thread.
///
/// Values are stored up to the capacity; a full channel parks senders and an
/// empty one parks receivers. Every operation returns the tasks it wakes.
pub struct LocalChannel<T> {
    inner: vstd::rwlock::RwLock<ChannelInner<T>, InnerIsWellFormed>,
}

/// The sending side of a [`LocalChannel`].
pub struct LocalSender<'channel, T> {
    channel: &'channel LocalChannel<T>,
}

/// The receiving side of a [`LocalChannel`].
pub struct LocalReceiver<'channel, T> {
    channel: &'channel LocalChannel<T>,
}

impl<T> LocalChannel<T> {
    /// The number of values that the channel stores at most.
    pub closed spec fn capacity(&self) -> nat {
        self.inner.pred().capacity as nat
    }

    /// Creates a channel that stores up to `capacity` values.
    pub fn bounded(capacity: usize) -> (c: Self)
        ensures
            c.capacity() == capacity,
    {
        LocalChannel {
            inner: vstd::rwlock::RwLock::new(
                ChannelInner::new(capacity),
                Ghost(InnerIsWellFormed { capacity }),
            ),
        }
    }

    /// Creates a channel that stores up to `usize::MAX` values.
    pub fn unbounded() -> (c: Self)
        ensures
            c.capacity() == usize::MAX,
    {
        Self::bounded(usize::MAX)
    }

    /// Returns a sender and a receiver of this channel.
    pub fn split(&self) -> (r: (LocalSender<'_, T>, LocalReceiver<'_, T>))
        ensures
            r.0.channel() == self,
            r.1.channel() == self,
    {
        (LocalSender { channel: self }, LocalReceiver { channel: self })
    }

    /// Sends `value` for `task`, parking the task if the channel is full.
    pub fn send(&self, value: T, task: Task) -> (r: SendAttempt<T>)
        ensures
            r matches SendAttempt::Done(_, t) ==> t == task,
            r matches SendAttempt::Closed(v, t) ==> v == value && t == task,
            send_result_possible(self.capacity(), value, task, r),
    {
        send_on(&self.inner, value, task)
    }

    /// Sends `value` without waiting.
    pub fn try_send(&self, value: T) -> (r: Result<SendOutcome<T>, TrySendErr<T>>)
        ensures
            r matches Err(TrySendErr::Full(v)) ==> v == value,
            r matches Err(TrySendErr::Closed(v)) ==> v == value,
            r matches Ok(SendOutcome::HandedTo(_, v)) ==> v == value,
            !(r matches Err(TrySendErr::Locked(_))),
    {
        try_send_on(&self.inner, value)
    }

    /// Receives for `task`, parking the task if nothing can be received.
    pub fn recv(&self, task: Task) -> (r: RecvAttempt<T>)
        ensures
            r matches RecvAttempt::Done(_, t) ==> t == task,
            r matches RecvAttempt::Closed(t) ==> t == task,
            recv_result_possible(self.capacity(), task, r),
    {
        recv_on(&self.inner, task)
    }

    /// Receives without waiting.
    pub fn try_recv(&self) -> (r: Result<Received<T>, TryRecvErr>)
        ensures
            r != Err::<Received<T>, TryRecvErr>(TryRecvErr::Locked),
    {
        try_recv_on(&self.inner)
    }

    /// Subscribes a sending select branch with its value (see
    /// [`ChannelInner::send_or_subscribe`]).
    pub fn send_or_subscribe(&self, branch: TaskInSelectBranch, value: T) -> (r: SelectSendResult<T>)
        requires
            branch.wf(),
        ensures
            r matches SelectSendResult::AlreadyAcquired(v) ==> v == value,
            r matches SelectSendResult::Closed(own, v) ==> v == value && own.spec_id()
                == branch.select_id(),
            r matches SelectSendResult::Sent(_, own) ==> own.spec_id() == branch.select_id(),
            subscribed_send_result_possible(self.capacity(), branch, value, r),
    {
        send_or_subscribe_on(&self.inner, branch, value)
    }

    /// Subscribes a receiving select branch (see [`ChannelInner::recv_or_subscribe`]).
    pub fn recv_or_subscribe(&self, branch: TaskInSelectBranch) -> (r: SelectRecvResult<T>)
        requires
            branch.wf(),
        ensures
            r matches SelectRecvResult::Closed(own) ==> own.spec_id() == branch.select_id(),
            r matches SelectRecvResult::Received(_, own) ==> own.spec_id() == branch.select_id(),
    {
        recv_or_subscribe_on(&self.inner, branch)
    }

    /// Takes the waiting task `id` out of the channel, as when its deadline has
    /// passed; a waiting sender comes back with its value. Returns `None` if the
    /// task no longer waits.
    pub fn cancel_waiting(&self, id: u64) -> (r: Option<WaitingTask<T>>)
        ensures
            r matches Some(w) ==> waiting_task_id(w) == id,
    {
        cancel_on(&self.inner, id)
    }

    /// Closes the channel and returns the tasks that waited on it.
    pub fn close(&self) -> (woken: Vec<WaitingTask<T>>)
        ensures
            forall|i: int| 0 <= i < woken@.len() ==> is_plain_entry(#[trigger] woken@[i]),
    {
        close_on(&self.inner)
    }
}

impl<'channel, T> LocalSender<'channel, T> {
    /// The channel of this sender.
    pub closed spec fn channel(&self) -> &'channel LocalChannel<T> {
        self.channel
    }

    /// Sends `value` for `task`, parking the task if the channel is full.
    pub fn send(&self, value: T, task: Task) -> (r: SendAttempt<T>)
        ensures
            r matches SendAttempt::Done(_, t) ==> t == task,
            r matches SendAttempt::Closed(v, t) ==> v == value && t == task,
            send_result_possible(self.channel().capacity(), value, task, r),
    {
        self.channel.send(value, task)
    }

    /// Sends `value` without waiting.
    pub fn try_send(&self, value: T) -> (r: Result<SendOutcome<T>, TrySendErr<T>>)
        ensures
            r matches Err(TrySendErr::Full(v)) ==> v == value,
            r matches Err(TrySendErr::Closed(v)) ==> v == value,
            r matches Ok(SendOutcome::HandedTo(_, v)) ==> v == value,
            !(r matches Err(TrySendErr::Locked(_))),
    {
        self.channel.try_send(value)
    }

    /// Subscribes a sending select branch with its value.
    pub fn send_or_subscribe(&self, branch: TaskInSelectBranch, value: T) -> (r: SelectSendResult<T>)
        requires
            branch.wf(),
        ensures
            r matches SelectSendResult::AlreadyAcquired(v) ==> v == value,
            r matches SelectSendResult::Closed(own, v) ==> v == value && own.spec_id()
                == branch.select_id(),
            r matches SelectSendResult::Sent(_, own) ==> own.spec_id() == branch.select_id(),
            subscribed_send_result_possible(self.channel().capacity(), branch, value, r),
    {
        self.channel.send_or_subscribe(branch, value)
    }

    /// Closes the channel and returns the tasks that waited on it.
    pub fn sender_close(&self) -> (woken: Vec<WaitingTask<T>>)
        ensures
            forall|i: int| 0 <= i < woken@.len() ==> is_plain_entry(#[trigger] woken@[i]),
    {
        self.channel.close()
    }
}

impl<'channel, T> LocalReceiver<'channel, T> {
    /// The channel of this receiver.
    pub closed spec fn channel(&self) -> &'channel LocalChannel<T> {
        self.channel
    }

    /// Receives for `task`, parking the task if nothing can be received.
    pub fn recv(&self, task: Task) -> (r: RecvAttempt<T>)
        ensures
            r matches RecvAttempt::Done(_, t) ==> t == task,
            r matches RecvAttempt::Closed(t) ==> t == task,
            recv_result_possible(self.channel().capacity(), task, r),
    {
        self.channel.recv(task)
    }

    /// Receives without waiting.
    pub fn try_recv(&self) -> (r: Result<Received<T>, TryRecvErr>)
        ensures
            r != Err::<Received<T>, TryRecvErr>(TryRecvErr::Locked),
    {
        self.channel.try_recv()
    }

    /// Subscribes a receiving select branch.
    pub fn recv_or_subscribe(&self, branch: TaskInSelectBranch) -> (r: SelectRecvResult<T>)
        requires
            branch.wf(),
        ensures
            r matches SelectRecvResult::Closed(own) ==> own.spec_id() == branch.select_id(),
            r matches SelectRecvResult::Received(_, own) ==> own.spec_id() == branch.select_id(),
    {
        self.channel.recv_or_subscribe(branch)
    }

    /// Closes the channel and returns the tasks that waited on it.
    pub fn receiver_close(&self) -> (woken: Vec<WaitingTask<T>>)
        ensures
            forall|i: int| 0 <= i < woken@.len() ==> is_plain_entry(#[trigger] woken@[i]),
    {
        self.channel.close()
    }
}

} // verus!
