//! The state of a send or receive call that may wait.
use crate::sync::channels::errors::{RecvErr, SendErr};
use vstd::prelude::*;

verus! {

/// `CallState` is the state of a send or receive call.
#[derive(PartialEq, Eq, Copy, Clone, Debug, Structural)]
pub enum CallState {
    /// Default state: the call has not waited.
    FirstCall,
    /// The call waited, and the other side completed it.
    WokenToReturnReady,
    /// The call waited, and the channel was closed.
    WokenByClose,
}

impl CallState {
    /// Returns whether the state is [`CallState::WokenByClose`].
    pub fn is_closed(&self) -> (r: bool)
        ensures
            r == (*self == CallState::WokenByClose),
    {
        match self {
            CallState::WokenByClose => true,
            _ => false,
        }
    }
}

/// What a send call that waited returns once it is woken: `Ok` when a receiver
/// took its value, its value back as `Closed` when the channel was closed, and
/// `None` while the call has not waited (it then acts on the channel itself).
pub fn woken_send_result<T>(state: CallState, value: T) -> (r: Option<Result<(), SendErr<T>>>)
    ensures
        state == CallState::FirstCall ==> r is None,
        state == CallState::WokenToReturnReady ==> r == Some(Ok::<(), SendErr<T>>(())),
        state == CallState::WokenByClose ==> r == Some(Err::<(), SendErr<T>>(SendErr::Closed(value))),
{
    match state {
        CallState::FirstCall => None,
        CallState::WokenToReturnReady => Some(Ok(())),
        CallState::WokenByClose => Some(Err(SendErr::Closed(value))),
    }
}

/// What a receive call that waited returns once it is woken: `Ok` when a sender
/// handed it a value, `Closed` when the channel was closed, and `None` while the
/// call has not waited.
pub fn woken_recv_result(state: CallState) -> (r: Option<Result<(), RecvErr>>)
    ensures
        state == CallState::FirstCall ==> r is None,
        state == CallState::WokenToReturnReady ==> r == Some(Ok::<(), RecvErr>(())),
        state == CallState::WokenByClose ==> r == Some(Err::<(), RecvErr>(RecvErr::Closed)),
{
    match state {
        CallState::FirstCall => None,
        CallState::WokenToReturnReady => Some(Ok(())),
        CallState::WokenByClose => Some(Err(RecvErr::Closed)),
    }
}

/// Result of subscribing a `select` branch to a channel.
#[derive(PartialEq, Eq, Copy, Clone, Debug, Structural)]
pub enum SelectNonBlockingBranchResult {
    /// The branch was acquired and the value was sent or received.
    Success,
    /// The branch was already acquired; the channel was not changed.
    AlreadyAcquired,
    /// The channel is not ready yet and the branch was subscribed to it.
    NotReady,
}

} // verus!
