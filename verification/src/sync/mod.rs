//! Synchronization primitives.
pub mod channels;
pub mod cond_vars;
pub mod onces;
pub mod rw_locks;
pub mod wait_groups;

pub use onces::{CallOnceResult, Once, OnceState};
