//! A channel for tasks of any thread: [`Channel`].
use crate::runtime::Task;
use crate::sync::channels::errors::{TryRecvErr, TrySendErr};
use crate::sync::channels::inner::{
    lemma_channel_invariants, ChannelInner, Received, RecvAttempt, SelectRecvResult, SelectSendResult, SendAttempt,
    SendOutcome,
};
use crate::sync::channels::select::TaskInSelectBranch;
use crate::sync::channels::local::{
    cancel_on, close_on, recv_on, recv_or_subscribe_on, send_or_subscribe_on, send_on, try_recv_on, try_send_on,
    recv_result_possible, send_result_possible, subscribed_send_result_possible, InnerIsWellFormed,
};
use crate::sync::channels::waiting::{is_plain_entry, waiting_task_id, WaitingTask};
use crate::utils::never_wait_lock::lock_taken;
use std::sync::atomic::AtomicBool;
use std::sync::atomic::Ordering;
use vstd::prelude::*;

verus! {

/// A channel between tasks that may run on different threads.
///
/// Values are stored up to the capacity; a full channel parks senders and an
/// empty one parks receivers. Every operation returns the tasks it wakes.
///
/// The state is kept under a lock. `busy` is raised while an operation uses the
/// state or waits for it: the operations that never wait
/// ([`try_send`](Channel::try_send), [`try_recv`](Channel::try_recv)) take it
/// themselves, or give up with `Locked` when it is raised.
pub struct Channel<T> {
    inner: vstd::rwlock::RwLock<ChannelInner<T>, InnerIsWellFormed>,
    busy: AtomicBool,
}

impl<T> Channel<T> {
    /// The number of values that the channel stores at most.
    pub closed spec fn capacity(&self) -> nat {
        self.inner.pred().capacity as nat
    }

    /// Creates a channel that stores up to `capacity` values.
    pub fn bounded(capacity: usize) -> (c: Self)
        ensures
            c.capacity() == capacity,
    {
        Channel {
            inner: vstd::rwlock::RwLock::new(
                ChannelInner::new(capacity),
                Ghost(InnerIsWellFormed { capacity }),
            ),
            busy: AtomicBool::new(false),
        }
    }

    /// Creates a channel that stores up to `usize::MAX` values.
    pub fn unbounded() -> (c: Self)
        ensures
            c.capacity() == usize::MAX,
    {
        Self::bounded(usize::MAX)
    }

    /// Returns the number of stored values, the number of waiting receivers and the
    /// number of waiting senders, as they were when the channel was looked at; at
    /// most one of the last two is not 0, and no more values are stored than the
    /// capacity.
    pub fn fullness_state(&self) -> (r: (usize, usize, usize))
        ensures
            r.0 <= self.capacity(),
            r.1 == 0 || r.2 == 0,
    {
        let handle = self.inner.acquire_read();
        proof {
            lemma_channel_invariants(handle.view());
        }
        let r = handle.borrow().fullness_state();
        handle.release_read();
        r
    }

    /// Sends `value` for `task`, parking the task if the channel is full.
    pub fn send(&self, value: T, task: Task) -> (r: SendAttempt<T>)
        ensures
            r matches SendAttempt::Done(_, t) ==> t == task,
            r matches SendAttempt::Closed(v, t) ==> v == value && t == task,
            send_result_possible(self.capacity(), value, task, r),
    {
        self.busy.store(true, Ordering::Release);
        let r = send_on(&self.inner, value, task);
        self.busy.store(false, Ordering::Release);
        r
    }

    /// Sends `value` without waiting; gives it back as `Locked` when another
    /// operation uses the channel's state at the moment.
    pub fn try_send(&self, value: T) -> (r: Result<SendOutcome<T>, TrySendErr<T>>)
        ensures
            r matches Err(TrySendErr::Full(v)) ==> v == value,
            r matches Err(TrySendErr::Closed(v)) ==> v == value,
            r matches Ok(SendOutcome::HandedTo(_, v)) ==> v == value,
            r matches Err(TrySendErr::Locked(v)) ==> v == value,
    {
        if !lock_taken(self.busy.compare_exchange(false, true, Ordering::Acquire, Ordering::Relaxed)) {
            return Err(TrySendErr::Locked(value));
        }
        let r = try_send_on(&self.inner, value);
        self.busy.store(false, Ordering::Release);
        r
    }

    /// Receives for `task`, parking the task if nothing can be received.
    pub fn recv(&self, task: Task) -> (r: RecvAttempt<T>)
        ensures
            r matches RecvAttempt::Done(_, t) ==> t == task,
            r matches RecvAttempt::Closed(t) ==> t == task,
            recv_result_possible(self.capacity(), task, r),
    {
        self.busy.store(true, Ordering::Release);
        let r = recv_on(&self.inner, task);
        self.busy.store(false, Ordering::Release);
        r
    }

    /// Receives without waiting; returns `Locked` when another operation uses the
    /// channel's state at the moment.
    pub fn try_recv(&self) -> (r: Result<Received<T>, TryRecvErr>) {
        if !lock_taken(self.busy.compare_exchange(false, true, Ordering::Acquire, Ordering::Relaxed)) {
            return Err(TryRecvErr::Locked);
        }
        let r = try_recv_on(&self.inner);
        self.busy.store(false, Ordering::Release);
        r
    }

    /// Subscribes a sending select branch with its value (see
    /// [`ChannelInner::send_or_subscribe`]).
    pub fn send_or_subscribe(&self, branch: TaskInSelectBranch, value: T) -> (r: SelectSendResult<T>)
        requires
            branch.wf(),
        ensures
            r matches SelectSendResult::AlreadyAcquired(v) ==> v == value,
            r matches SelectSendResult::Closed(own, v) ==> v == value && own.spec_id()
                == branch.select_id(),
            r matches SelectSendResult::Sent(_, own) ==> own.spec_id() == branch.select_id(),
            subscribed_send_result_possible(self.capacity(), branch, value, r),
    {
        self.busy.store(true, Ordering::Release);
        let r = send_or_subscribe_on(&self.inner, branch, value);
        self.busy.store(false, Ordering::Release);
        r
    }

    /// Subscribes a receiving select branch (see [`ChannelInner::recv_or_subscribe`]).
    pub fn recv_or_subscribe(&self, branch: TaskInSelectBranch) -> (r: SelectRecvResult<T>)
        requires
            branch.wf(),
        ensures
            r matches SelectRecvResult::Closed(own) ==> own.spec_id() == branch.select_id(),
            r matches SelectRecvResult::Received(_, own) ==> own.spec_id() == branch.select_id(),
    {
        self.busy.store(true, Ordering::Release);
        let r = recv_or_subscribe_on(&self.inner, branch);
        self.busy.store(false, Ordering::Release);
        r
    }

    /// Takes the waiting task `id` out of the channel, as when its deadline has
    /// passed; a waiting sender comes back with its value. Returns `None` if the
    /// task no longer waits.
    pub fn cancel_waiting(&self, id: u64) -> (r: Option<WaitingTask<T>>)
        ensures
            r matches Some(w) ==> waiting_task_id(w) == id,
    {
        self.busy.store(true, Ordering::Release);
        let r = cancel_on(&self.inner, id);
        self.busy.store(false, Ordering::Release);
        r
    }

    /// Closes the channel and returns the tasks that waited on it.
    pub fn close(&self) -> (woken: Vec<WaitingTask<T>>)
        ensures
            forall|i: int| 0 <= i < woken@.len() ==> is_plain_entry(#[trigger] woken@[i]),
    {
        self.busy.store(true, Ordering::Release);
        let r = close_on(&self.inner);
        self.busy.store(false, Ordering::Release);
        r
    }
}

} // verus!
