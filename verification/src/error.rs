//! Failure values of the channel: every send failure owns the message that
//! was not delivered, so that nothing is lost on any path.

use vstd::prelude::*;

verus! {

/// Why a non-suspending receive handed out no message.
#[derive(Debug)]
pub enum TryRecvError {
    /// The queue is open and holds no message at the moment.
    Empty,
    /// The queue is closed and drained: no message will ever arrive.
    Disconnected,
}

/// Why a message was not delivered. Each variant owns the undelivered message.
#[derive(Debug)]
pub enum SendError<T> {
    /// The route points outside the set of consumers.
    NoConsumer(T),
    /// The target queue is closed: its receiver closed it or was dropped.
    ChannelClosed(T),
    /// The target queue is bounded and holds as many messages as it may.
    ChannelFull(T),
    /// The hash of the key does not fit the index type of this platform.
    FailedToComputeRouteID(T),
}

impl<T> SendError<T> {
    /// The message that the failed send gives back to its caller.
    pub open spec fn message(self) -> T {
        match self {
            SendError::NoConsumer(m) => m,
            SendError::ChannelClosed(m) => m,
            SendError::ChannelFull(m) => m,
            SendError::FailedToComputeRouteID(m) => m,
        }
    }
}

} // verus!
