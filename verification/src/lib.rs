//! Synchronization primitives and task containers of an asynchronous runtime,
//! with their behaviour stated and proved.
pub mod runtime;
pub mod sync;
pub mod sync_task_queue;
pub mod test;
pub mod utils;

pub use runtime::Task;
pub use sync_task_queue::SyncTaskList;
