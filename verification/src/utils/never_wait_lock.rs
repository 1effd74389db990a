//! This module contains the [`NeverWaitLock`].
use crate::utils::preempt::short_preempt;
use crate::utils::spin_lock::AnyValue;
use std::sync::atomic::AtomicBool;
use std::sync::atomic::Ordering;
use vstd::prelude::*;
use vstd::rwlock::WriteHandle;

verus! {

/// A lock that never waits: [`try_lock`](NeverWaitLock::try_lock) either takes
/// it at once or returns `None`.
///
/// Whoever wins the flag `is_locked` holds the lock; the value sits in a cell
/// that only the holder opens, so opening it never has to wait either.
pub struct NeverWaitLock<T> {
    is_locked: AtomicBool,
    value: vstd::rwlock::RwLock<T, AnyValue>,
}

/// Exclusive access to the value of a [`NeverWaitLock`].
///
/// It must be given back with [`NeverWaitLockGuard::unlock`]; a guard that is
/// dropped otherwise leaves the lock locked.
pub struct NeverWaitLockGuard<'never_wait_lock, T> {
    never_wait_lock: &'never_wait_lock NeverWaitLock<T>,
    value: T,
    handle: WriteHandle<'never_wait_lock, T, AnyValue>,
}

/// What a try-lock does to the flag of a [`NeverWaitLock`], in sequence: the
/// flag is set afterwards, and the lock was taken if it was not set before.
pub open spec fn try_lock_step(locked: bool) -> (bool, bool) {
    (true, !locked)
}

/// Once taken, a [`NeverWaitLock`] is not taken again until it is unlocked (which
/// clears the flag); after an unlock, the next try takes it.
pub proof fn lemma_never_wait_lock_excludes(locked: bool)
    ensures
        !try_lock_step(try_lock_step(locked).0).1,
        try_lock_step(false).1,
{
}

/// Whether a try-lock took the lock, from the outcome of the exchange of an
/// unset flag for a set one (see [`try_lock_step`]).
pub fn lock_taken(exchanged: Result<bool, bool>) -> (taken: bool)
    ensures
        taken <==> exchanged is Ok,
{
    match exchanged {
        Ok(_) => true,
        Err(_) => false,
    }
}

impl<T> NeverWaitLock<T> {
    /// Creates a new unlocked `NeverWaitLock` with the given value.
    pub fn new(value: T) -> (l: Self) {
        NeverWaitLock {
            is_locked: AtomicBool::new(false),
            value: vstd::rwlock::RwLock::new(value, Ghost(AnyValue)),
        }
    }

    /// Returns a guard if the lock was unlocked, `None` if it was locked.
    pub fn try_lock(&self) -> (r: Option<NeverWaitLockGuard<'_, T>>)
        ensures
            r matches Some(g) ==> g.lock() == self,
    {
        let exchanged = self.is_locked.compare_exchange(
            false,
            true,
            Ordering::Acquire,
            Ordering::Relaxed,
        );
        if lock_taken(exchanged) {
            let (value, handle) = self.value.acquire_write();
            Some(NeverWaitLockGuard { never_wait_lock: self, value, handle })
        } else {
            None
        }
    }

    /// Like [`try_lock`](NeverWaitLock::try_lock), but after a failed attempt it
    /// waits a very short time and tries once more.
    pub fn try_lock_with_preemption(&self) -> (r: Option<NeverWaitLockGuard<'_, T>>)
        ensures
            r matches Some(g) ==> g.lock() == self,
    {
        if let Some(guard) = self.try_lock() {
            return Some(guard);
        }
        short_preempt();
        self.try_lock()
    }
}

impl<'never_wait_lock, T> NeverWaitLockGuard<'never_wait_lock, T> {
    /// The lock that this guard holds.
    pub closed spec fn lock(&self) -> &'never_wait_lock NeverWaitLock<T> {
        self.never_wait_lock
    }

    /// The protected value as it is now.
    pub closed spec fn spec_value(&self) -> T {
        self.value
    }

    /// Returns the lock that this guard holds.
    pub fn never_wait_lock(&self) -> (r: &'never_wait_lock NeverWaitLock<T>)
        ensures
            r == self.lock(),
    {
        self.never_wait_lock
    }

    /// Returns the protected value.
    pub fn value(&self) -> (r: &T)
        ensures
            *r == self.spec_value(),
    {
        &self.value
    }

    /// Returns the protected value for changing it in place.
    pub fn value_mut(&mut self) -> (r: &mut T)
        ensures
            *r == old(self).spec_value(),
            final(self).spec_value() == *final(r),
            final(self).lock() == old(self).lock(),
    {
        &mut self.value
    }

    /// Replaces the protected value and returns the one it held.
    pub fn replace(&mut self, value: T) -> (prev: T)
        ensures
            prev == old(self).spec_value(),
            final(self).spec_value() == value,
            final(self).lock() == old(self).lock(),
    {
        let mut prev = value;
        std::mem::swap(&mut self.value, &mut prev);
        prev
    }

    /// Unlocks the lock, which keeps the value as it is now.
    pub fn unlock(self) {
        let NeverWaitLockGuard { never_wait_lock, value, handle } = self;
        handle.release_write(value);
        never_wait_lock.is_locked.store(false, Ordering::Release);
    }
}

} // verus!
