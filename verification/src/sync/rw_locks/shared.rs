//! This module provides the asynchronous read-write lock [`RWLock`] and its guards.
use crate::runtime::Task;
use crate::sync::rw_locks::lock_status::LockStatus;
use crate::sync::rw_locks::protocol::{Arrival, RWLockCore};
use crate::utils::spin_lock::AnyValue;
use vstd::prelude::*;
use vstd::rwlock::{ReadHandle, RwLockPredicate, WriteHandle};

verus! {

/// The invariant of the protocol state kept in an [`RWLock`]: it is well formed.
pub struct CoreIsWellFormed;

impl RwLockPredicate<RWLockCore> for CoreIsWellFormed {
    open spec fn inv(self, core: RWLockCore) -> bool {
        core.wf()
    }
}

/// An asynchronous reader-writer lock (e.g. [`std::sync::RwLock`]) for tasks that
/// may run on different threads.
///
/// Any number of readers or at most one writer hold it at a time. A task that
/// cannot have it at once is parked in the lock, and the unlock that hands the
/// lock over returns the tasks to wake. The protocol ([`RWLockCore`]) is kept
/// under a short spin lock; the value sits in a cell of its own that the holders
/// of the protocol's lock open.
pub struct RWLock<T> {
    core: vstd::rwlock::RwLock<RWLockCore, CoreIsWellFormed>,
    value: vstd::rwlock::RwLock<T, AnyValue>,
}

/// Shared read access to the value of an [`RWLock`].
///
/// It must be given back with [`ReadLockGuard::unlock`].
pub struct ReadLockGuard<'rw_lock, T> {
    rw_lock: &'rw_lock RWLock<T>,
    handle: ReadHandle<'rw_lock, T, AnyValue>,
}

/// Exclusive write access to the value of an [`RWLock`].
///
/// It must be given back with [`WriteLockGuard::unlock`].
pub struct WriteLockGuard<'rw_lock, T> {
    rw_lock: &'rw_lock RWLock<T>,
    value: T,
    handle: WriteHandle<'rw_lock, T, AnyValue>,
}

/// The outcome of asking an [`RWLock`] for read access for a task.
pub enum ReadAttempt<'rw_lock, T> {
    /// The task holds read access now; its handle is given back.
    Acquired(ReadLockGuard<'rw_lock, T>, Task),
    /// The task was parked; an unlock will return it to be woken with read access.
    Parked,
    /// Too many readers are counted; nothing changed and the task is given back.
    Refused(Task),
}

/// The outcome of asking an [`RWLock`] for write access for a task.
pub enum WriteAttempt<'rw_lock, T> {
    /// The task holds write access now; its handle is given back.
    Acquired(WriteLockGuard<'rw_lock, T>, Task),
    /// The task was parked; an unlock will return it to be woken with write access.
    Parked,
    /// Too many writers are counted; nothing changed and the task is given back.
    Refused(Task),
}

impl<T> RWLock<T> {
    /// Creates a new unlocked [`RWLock`] that protects `value`.
    pub fn new(value: T) -> (l: Self) {
        let core = vstd::rwlock::RwLock::new(RWLockCore::new(), Ghost(CoreIsWellFormed));
        let value = vstd::rwlock::RwLock::new(value, Ghost(AnyValue));
        RWLock { core, value }
    }

    /// Returns the current status of the lock.
    pub fn get_lock_status(&self) -> LockStatus {
        let handle = self.core.acquire_read();
        let status = handle.borrow().lock_status();
        handle.release_read();
        status
    }

    /// Opens the value for writing, for a task that holds write access.
    fn open_for_write(&self) -> (g: WriteLockGuard<'_, T>)
        ensures
            g.rw_lock() == self,
    {
        let (value, handle) = self.value.acquire_write();
        WriteLockGuard { rw_lock: self, value, handle }
    }

    /// Opens the value for reading, for a task that holds read access.
    fn open_for_read(&self) -> (g: ReadLockGuard<'_, T>)
        ensures
            g.rw_lock() == self,
    {
        let handle = self.value.acquire_read();
        ReadLockGuard { rw_lock: self, handle }
    }

    /// Takes write access if nobody holds the lock or waits for it.
    pub fn try_write(&self) -> (r: Option<WriteLockGuard<'_, T>>)
        ensures
            r matches Some(g) ==> g.rw_lock() == self,
    {
        let (mut core, handle) = self.core.acquire_write();
        let acquired = core.try_write();
        handle.release_write(core);
        if acquired {
            Some(self.open_for_write())
        } else {
            None
        }
    }

    /// Takes read access unless the lock is in write mode.
    pub fn try_read(&self) -> (r: Option<ReadLockGuard<'_, T>>)
        ensures
            r matches Some(g) ==> g.rw_lock() == self,
    {
        let (mut core, handle) = self.core.acquire_write();
        let acquired = core.try_read();
        handle.release_write(core);
        if acquired {
            Some(self.open_for_read())
        } else {
            None
        }
    }

    /// Asks for write access for `task`: it is taken at once if nobody holds the
    /// lock or waits for it, and the task is parked otherwise.
    pub fn write(&self, task: Task) -> (r: WriteAttempt<'_, T>)
        ensures
            r matches WriteAttempt::Acquired(g, t) ==> g.rw_lock() == self && t == task,
            r matches WriteAttempt::Refused(t) ==> t == task,
    {
        let (mut core, handle) = self.core.acquire_write();
        let arrival = core.writer_arrives(task);
        handle.release_write(core);
        match arrival {
            Arrival::Acquired(task) => WriteAttempt::Acquired(self.open_for_write(), task),
            Arrival::Parked => WriteAttempt::Parked,
            Arrival::Refused(task) => WriteAttempt::Refused(task),
        }
    }

    /// Asks for read access for `task`: it is taken at once in read mode, and the
    /// task is parked while the lock is in write mode.
    pub fn read(&self, task: Task) -> (r: ReadAttempt<'_, T>)
        ensures
            r matches ReadAttempt::Acquired(g, t) ==> g.rw_lock() == self && t == task,
            r matches ReadAttempt::Refused(t) ==> t == task,
    {
        let (mut core, handle) = self.core.acquire_write();
        let arrival = core.reader_arrives(task);
        handle.release_write(core);
        match arrival {
            Arrival::Acquired(task) => ReadAttempt::Acquired(self.open_for_read(), task),
            Arrival::Parked => ReadAttempt::Parked,
            Arrival::Refused(task) => ReadAttempt::Refused(task),
        }
    }

    /// Returns the write guard of a task that an unlock handed write access to.
    pub fn get_write_locked(&self) -> (g: WriteLockGuard<'_, T>)
        ensures
            g.rw_lock() == self,
    {
        self.open_for_write()
    }

    /// Returns the read guard of a task that an unlock handed read access to.
    pub fn get_read_locked(&self) -> (g: ReadLockGuard<'_, T>)
        ensures
            g.rw_lock() == self,
    {
        self.open_for_read()
    }

    /// Gives back read access: when the last reader leaves while writers wait,
    /// the writer to wake is returned.
    fn read_unlock(&self) -> Option<Task> {
        let (mut core, handle) = self.core.acquire_write();
        let woken = match core.lock_status() {
            LockStatus::ReadLocked(readers) => if readers > 0 {
                core.read_unlock()
            } else {
                None
            },
            _ => None,
        };
        handle.release_write(core);
        woken
    }

    /// Gives back write access and returns the tasks that the lock was handed to.
    fn write_unlock(&self) -> Vec<Task> {
        let (mut core, handle) = self.core.acquire_write();
        let woken = match core.lock_status() {
            LockStatus::WriteLocked => core.write_unlock(),
            _ => Vec::new(),
        };
        handle.release_write(core);
        woken
    }
}

impl<'rw_lock, T> ReadLockGuard<'rw_lock, T> {
    /// The lock that this guard belongs to.
    pub closed spec fn rw_lock(&self) -> &'rw_lock RWLock<T> {
        self.rw_lock
    }

    /// Returns the lock that this guard belongs to.
    pub fn get_rw_lock(&self) -> (r: &'rw_lock RWLock<T>)
        ensures
            r == self.rw_lock(),
    {
        self.rw_lock
    }

    /// The protected value, which stays the same while the guard is held.
    pub closed spec fn spec_value(&self) -> T {
        self.handle.view()
    }

    /// Returns the protected value.
    pub fn value(&self) -> (r: &T)
        ensures
            *r == self.spec_value(),
    {
        self.handle.borrow()
    }

    /// Gives read access back. When this was the last reader and writers wait,
    /// the lock is handed to a writer, which is returned to be woken.
    pub fn unlock(self) -> Option<Task> {
        let ReadLockGuard { rw_lock, handle } = self;
        handle.release_read();
        rw_lock.read_unlock()
    }
}

impl<'rw_lock, T> WriteLockGuard<'rw_lock, T> {
    /// The lock that this guard belongs to.
    pub closed spec fn rw_lock(&self) -> &'rw_lock RWLock<T> {
        self.rw_lock
    }

    /// The protected value as it is now.
    pub closed spec fn spec_value(&self) -> T {
        self.value
    }

    /// Returns the lock that this guard belongs to.
    pub fn get_rw_lock(&self) -> (r: &'rw_lock RWLock<T>)
        ensures
            r == self.rw_lock(),
    {
        self.rw_lock
    }

    /// Returns the protected value.
    pub fn value(&self) -> (r: &T)
        ensures
            *r == self.spec_value(),
    {
        &self.value
    }

    /// Replaces the protected value and returns the one it held.
    pub fn replace(&mut self, value: T) -> (prev: T)
        ensures
            prev == old(self).spec_value(),
            final(self).spec_value() == value,
            final(self).rw_lock() == old(self).rw_lock(),
    {
        let mut prev = value;
        std::mem::swap(&mut self.value, &mut prev);
        prev
    }

    /// Gives write access back, together with the value as it is now, and returns
    /// the tasks that the lock was handed to.
    pub fn unlock(self) -> Vec<Task> {
        let WriteLockGuard { rw_lock, value, handle } = self;
        handle.release_write(value);
        rw_lock.write_unlock()
    }
}

} // verus!
