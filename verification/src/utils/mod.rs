//! Utilities that can't be attached to any other module.
pub mod array_deque;
pub mod backoff;
pub mod extend_vec_deque_by_task_slice;
pub mod hints;
pub mod lock_free_task_stack;
pub mod never_wait_lock;
pub mod preempt;
pub mod seg_task_queue;
pub mod shuffle;
pub mod spin_lock;

pub use array_deque::ArrayDeque;
pub use backoff::{Backoff, PreemptKind};
pub use extend_vec_deque_by_task_slice::extend_vec_deque_by_task_slice;
pub use hints::{assert_hint, likely, unlikely};
pub use lock_free_task_stack::LockFreeTaskStack;
pub use never_wait_lock::{NeverWaitLock, NeverWaitLockGuard};
pub use preempt::short_preempt;
pub use seg_task_queue::SegTaskQueue;
pub use shuffle::{shuffle, ShuffleRng};
