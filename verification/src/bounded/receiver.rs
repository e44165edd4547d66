//! The receiving handle of one consumer of a bounded sticky channel.

use vstd::prelude::*;
use core::task::Context;
use core::task::Poll;
use tokio::sync::mpsc::Receiver as QueueReceiver;
use crate::bounded::queue::queue_close;
use crate::bounded::queue::queue_poll_recv;
use crate::bounded::queue::queue_poll_recv_many;
use crate::bounded::queue::queue_try_recv;
use crate::error::TryRecvError;
use crate::lifecycle::QueueState;

verus! {

/// Receives the messages of one consumer. It owns the receiving end of that
/// consumer's queue and keeps track of the queue's life.
#[verifier::reject_recursive_types(T)]
pub struct Receiver<T> {
    receiver: QueueReceiver<T>,
    state: QueueState,
}

impl<T> Receiver<T> {
    /// What this receiver knows of its queue.
    pub closed spec fn spec_state(&self) -> QueueState {
        self.state
    }

    /// A receiver for the receiving end of a new queue.
    pub(crate) fn new(receiver: QueueReceiver<T>) -> (r: Self)
        ensures
            r.spec_state() == QueueState::Open,
    {
        Receiver { receiver, state: QueueState::Open }
    }

    /// What this receiver knows of its queue.
    #[verifier::when_used_as_spec(spec_state)]
    pub fn state(&self) -> (state: QueueState)
        ensures
            state == self.spec_state(),
    {
        self.state
    }

    /// Polls for the next message.
    ///
    /// `Ready(Some(..))` hands out a message and `Ready(None)` reports the
    /// end of the queue; `Pending` hands out nothing and leaves what the
    /// receiver knows of its queue as it was. Once `Ready(None)` was
    /// returned, every later call returns it.
    pub fn poll_recv(&mut self, cx: &mut Context<'_>) -> (polled: Poll<Option<T>>)
        ensures
            old(self).state() == QueueState::Closed ==> polled == Poll::Ready(None::<T>),
            final(self).state() == old(self).state().after_receive(
                polled == Poll::Ready(None::<T>),
            ),
    {
        if self.state.is_closed() {
            return Poll::Ready(None);
        }
        let polled = queue_poll_recv(&mut self.receiver, cx);
        match polled {
            Poll::Ready(None) => {
                self.state = self.state.receive(true);
                Poll::Ready(None)
            },
            other => other,
        }
    }

    /// Polls for up to `limit` messages and appends them to `buffer`.
    ///
    /// With a `limit` of zero the call returns `Ready(0)` at once and
    /// touches neither the queue nor `buffer`. Otherwise `Ready(count)` says
    /// that `count` messages, at most `limit`, were appended to `buffer`,
    /// and a `count` of zero reports the end of the queue; `Pending` leaves
    /// `buffer` and what the receiver knows of its queue as they were. Once
    /// the end of the queue was reported, every later call returns
    /// `Ready(0)`.
    pub fn poll_recv_many(&mut self, cx: &mut Context<'_>, buffer: &mut Vec<T>, limit: usize) -> (polled:
        Poll<usize>)
        ensures
            limit == 0 || old(self).state() == QueueState::Closed ==> polled == Poll::Ready(0usize)
                && final(buffer)@ == old(buffer)@,
            polled matches Poll::Ready(count) ==> count <= limit && final(buffer)@.len() == old(
                buffer,
            )@.len() + count && final(buffer)@.take(old(buffer)@.len() as int) == old(buffer)@,
            polled is Pending ==> final(buffer)@ == old(buffer)@,
            final(self).state() == old(self).state().after_receive(
                limit > 0 && polled == Poll::Ready(0usize),
            ),
    {
        if limit == 0 || self.state.is_closed() {
            return Poll::Ready(0);
        }
        let polled = queue_poll_recv_many(&mut self.receiver, cx, buffer, limit);
        match polled {
            Poll::Ready(count) => {
                if count == 0 {
                    self.state = self.state.receive(true);
                }
                Poll::Ready(count)
            },
            Poll::Pending => Poll::Pending,
        }
    }

    /// Takes the next message if one is buffered, without ever waiting.
    ///
    /// `Disconnected` reports the end of the queue; `Empty` hands out nothing
    /// and leaves what the receiver knows of its queue as it was. Once
    /// `Disconnected` was returned, every later call returns it.
    pub fn try_recv(&mut self) -> (taken: Result<T, TryRecvError>)
        ensures
            old(self).state() == QueueState::Closed ==> taken == Err::<T, TryRecvError>(
                TryRecvError::Disconnected,
            ),
            final(self).state() == old(self).state().after_receive(
                taken == Err::<T, TryRecvError>(TryRecvError::Disconnected),
            ),
    {
        if self.state.is_closed() {
            return Err(TryRecvError::Disconnected);
        }
        let taken = queue_try_recv(&mut self.receiver);
        match taken {
            Err(TryRecvError::Disconnected) => {
                self.state = self.state.receive(true);
                Err(TryRecvError::Disconnected)
            },
            other => other,
        }
    }

    /// Closes the queue for sending. What it holds stays and can be drained.
    pub fn close(&mut self)
        ensures
            final(self).state() == old(self).state().after_close(),
    {
        queue_close(&mut self.receiver);
        self.state = self.state.close();
    }
}

} // verus!
