//! The life of one consumer queue, as its receiver knows it.
//!
//! A queue starts open. It is closed for sending when its receiver closes it
//! or when the last sender is gone; what it still holds can be drained. Once
//! it has reported that it is closed and empty it stays so for ever.

use vstd::prelude::*;

verus! {

/// What a receiver knows of its queue.
///
/// The receiver learns that the senders are gone only when the queue reports
/// its end, so `Open` says that this receiver has neither closed the queue
/// nor seen its end.
#[derive(Clone, Copy, Debug, PartialEq, Eq, Structural)]
pub enum QueueState {
    /// The receiver has not closed the queue and has not seen its end.
    Open,
    /// The receiver has closed the queue; buffered messages can still be
    /// drained.
    Draining,
    /// The queue has reported that it is closed and empty.
    Closed,
}

impl QueueState {
    /// How far the queue is in its life; it never goes back.
    pub open spec fn rank(self) -> nat {
        match self {
            QueueState::Open => 0,
            QueueState::Draining => 1,
            QueueState::Closed => 2,
        }
    }

    /// The state after the receiver has closed the queue.
    pub open spec fn after_close(self) -> QueueState {
        match self {
            QueueState::Open => QueueState::Draining,
            QueueState::Draining => QueueState::Draining,
            QueueState::Closed => QueueState::Closed,
        }
    }

    /// The state after one receive operation; `ended` says that the
    /// operation reported the end of the queue.
    pub open spec fn after_receive(self, ended: bool) -> QueueState {
        if ended {
            QueueState::Closed
        } else {
            self
        }
    }

    /// Whether the queue has reported its end.
    pub fn is_closed(self) -> (closed: bool)
        ensures
            closed == (self == QueueState::Closed),
    {
        match self {
            QueueState::Closed => true,
            _ => false,
        }
    }

    /// Takes note that the receiver has closed the queue.
    pub fn close(self) -> (next: QueueState)
        ensures
            next == self.after_close(),
    {
        match self {
            QueueState::Open => QueueState::Draining,
            other => other,
        }
    }

    /// Takes note of the outcome of one receive operation.
    pub fn receive(self, ended: bool) -> (next: QueueState)
        ensures
            next == self.after_receive(ended),
    {
        if ended {
            QueueState::Closed
        } else {
            self
        }
    }
}

/// `Closed` is terminal: no close and no receive leads out of it.
pub proof fn closed_is_terminal(ended: bool)
    ensures
        QueueState::Closed.after_close() == QueueState::Closed,
        QueueState::Closed.after_receive(ended) == QueueState::Closed,
{
}

/// A queue never goes back in its life: each step keeps or raises its rank.
pub proof fn state_never_goes_back(state: QueueState, ended: bool)
    ensures
        state.rank() <= state.after_close().rank(),
        state.rank() <= state.after_receive(ended).rank(),
{
}

/// Closing twice is closing once.
pub proof fn close_is_idempotent(state: QueueState)
    ensures
        state.after_close().after_close() == state.after_close(),
{
}

/// Closing does not end a queue: what it holds remains to be drained, and
/// only a receive that reports the end leads to `Closed`.
pub proof fn close_keeps_queue_drainable(state: QueueState)
    requires
        state != QueueState::Closed,
    ensures
        state.after_close() == QueueState::Draining,
        state.after_close().after_receive(false) == QueueState::Draining,
        state.after_close().after_receive(true) == QueueState::Closed,
{
}

} // verus!
