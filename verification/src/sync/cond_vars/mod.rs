//! Condition variables: the tasks that wait on them and what a notification wakes.
pub mod wait_list;

pub use wait_list::{wait_poll_step, CondVarWaitList, NotifyAll, WaitPoll};
