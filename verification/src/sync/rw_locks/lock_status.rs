//! This module contains [`LockStatus`].
use vstd::prelude::*;

verus! {

/// The status of a read-write lock.
#[derive(PartialEq, Eq, Copy, Clone, Debug, Structural)]
pub enum LockStatus {
    /// Nobody holds the lock.
    Unlocked,
    /// The lock is held for writing.
    WriteLocked,
    /// The lock is in read mode; the number is that of the readers counted in it.
    ReadLocked(usize),
}

} // verus!
