//! Channels: queues of values between tasks, with waiting senders and receivers.
pub mod errors;
pub mod inner;
pub mod local;
pub mod select;
pub mod shared;
pub mod state;
pub mod waiting;

pub use errors::{RecvErr, SendErr, TryRecvErr, TrySendErr};
pub use inner::{ChannelInner, Received, RecvAttempt, SelectRecvResult, SelectSendResult, SendAttempt, SendOutcome};
pub use local::{LocalChannel, LocalReceiver, LocalSender};
pub use select::{TaskInSelect, TaskInSelectBranch, TwoAcquisition};
pub use shared::Channel;
pub use state::{woken_recv_result, woken_send_result, CallState, SelectNonBlockingBranchResult};
pub use waiting::{SenderReceiverQueue, SenderReceiverQueueOption, WaitingTask};
