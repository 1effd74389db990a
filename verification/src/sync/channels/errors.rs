//! The errors of channel operations.
use vstd::prelude::*;

verus! {

/// An error of an asynchronous send operation.
pub enum SendErr<T> {
    /// The channel was closed before the value could be sent; the value is given back.
    Closed(T),
}

/// An error of a non-blocking send attempt.
pub enum TrySendErr<T> {
    /// The channel is full. Contains the value that could not be sent.
    Full(T),
    /// The channel is locked, indicating temporary unavailability.
    /// Contains the value that could not be sent.
    Locked(T),
    /// The channel is closed. Contains the value that could not be sent.
    Closed(T),
}

/// An error of an asynchronous receive operation.
#[derive(PartialEq, Eq, Copy, Clone, Debug, Structural)]
pub enum RecvErr {
    /// The channel is closed, and no more values can be received.
    Closed,
}

/// An error of a non-blocking receive attempt.
#[derive(PartialEq, Eq, Copy, Clone, Debug, Structural)]
pub enum TryRecvErr {
    /// The channel is empty; no values are currently available.
    Empty,
    /// The channel is locked, indicating temporary unavailability.
    Locked,
    /// The channel is closed, and no more values can be received.
    Closed,
}

impl<T> SendErr<T> {
    /// Returns the name of the error, without the value it carries.
    pub fn name(&self) -> (r: &'static str)
        ensures
            r@ == "SendErr::Closed"@,
    {
        match self {
            SendErr::Closed(_) => "SendErr::Closed",
        }
    }

    /// Takes back the value that could not be sent.
    pub fn into_value(self) -> (r: T)
        ensures
            self matches SendErr::Closed(v) && r == v,
    {
        match self {
            SendErr::Closed(v) => v,
        }
    }
}

impl<T> TrySendErr<T> {
    /// Returns the name of the error, without the value it carries.
    pub fn name(&self) -> (r: &'static str)
        ensures
            match self {
                TrySendErr::Full(_) => r@ == "TrySendErr::Full"@,
                TrySendErr::Locked(_) => r@ == "TrySendErr::Locked"@,
                TrySendErr::Closed(_) => r@ == "TrySendErr::Closed"@,
            },
    {
        match self {
            TrySendErr::Full(_) => "TrySendErr::Full",
            TrySendErr::Locked(_) => "TrySendErr::Locked",
            TrySendErr::Closed(_) => "TrySendErr::Closed",
        }
    }

    /// Takes back the value that could not be sent.
    pub fn into_value(self) -> (r: T)
        ensures
            match self {
                TrySendErr::Full(v) => r == v,
                TrySendErr::Locked(v) => r == v,
                TrySendErr::Closed(v) => r == v,
            },
    {
        match self {
            TrySendErr::Full(v) => v,
            TrySendErr::Locked(v) => v,
            TrySendErr::Closed(v) => v,
        }
    }
}

impl RecvErr {
    /// Returns the name of the error.
    pub fn name(&self) -> (r: &'static str)
        ensures
            r@ == "RecvErr::Closed"@,
    {
        match self {
            RecvErr::Closed => "RecvErr::Closed",
        }
    }
}

impl TryRecvErr {
    /// Returns the name of the error.
    pub fn name(&self) -> (r: &'static str)
        ensures
            match self {
                TryRecvErr::Empty => r@ == "TryRecvErr::Empty"@,
                TryRecvErr::Locked => r@ == "TryRecvErr::Locked"@,
                TryRecvErr::Closed => r@ == "TryRecvErr::Closed"@,
            },
    {
        match self {
            TryRecvErr::Empty => "TryRecvErr::Empty",
            TryRecvErr::Locked => "TryRecvErr::Locked",
            TryRecvErr::Closed => "TryRecvErr::Closed",
        }
    }
}

} // verus!
