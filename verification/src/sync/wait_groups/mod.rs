//! Wait groups: waiting until a number of tasks are done.
pub mod shared;

pub use shared::{WaitGroup, WaitGroupInner, WaitOutcome};
