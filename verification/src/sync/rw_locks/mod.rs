//! An asynchronous read-write lock (e.g. [`std::sync::RwLock`]).
pub mod lock_status;
pub mod protocol;
pub mod shared;
pub mod state;

pub use lock_status::LockStatus;
pub use shared::{RWLock, ReadAttempt, ReadLockGuard, WriteAttempt, WriteLockGuard};
