//! The bounded queue of one consumer: tokio's bounded `mpsc` channel.
//!
//! The queue is shared between tasks, so nothing is stated here of what it
//! holds: a contract says only what is true of a call whatever other tasks
//! do meanwhile.

use vstd::prelude::*;
use core::task::Context;
use core::task::Poll;
use tokio::sync::mpsc::error::TryRecvError as QueueTryRecvError;
use tokio::sync::mpsc::error::TrySendError as QueueTrySendError;
use tokio::sync::mpsc::Receiver as QueueReceiver;
use tokio::sync::mpsc::Sender as QueueSender;
use crate::error::SendError;
use crate::error::TryRecvError;

verus! {

/// `tokio::sync::mpsc::Sender`: the sending end of a bounded queue.
#[verifier::external_type_specification]
#[verifier::external_body]
#[verifier::reject_recursive_types(T)]
pub struct ExQueueSender<T>(QueueSender<T>);

/// `tokio::sync::mpsc::Receiver`: the receiving end of a bounded queue.
#[verifier::external_type_specification]
#[verifier::external_body]
#[verifier::reject_recursive_types(T)]
pub struct ExQueueReceiver<T>(QueueReceiver<T>);

/// The largest capacity that a bounded queue can be made with.
pub const MAX_QUEUE_CAPACITY: usize = usize::MAX / 8;

/// `tokio::sync::mpsc::channel`: a new bounded queue with room for
/// `capacity` messages, as its two ends. It panics on a capacity of zero
/// and on one above its semaphore's limit, which `requires` leaves out.
#[verifier::external_body]
pub(crate) fn bounded_queue<T>(capacity: usize) -> (QueueSender<T>, QueueReceiver<T>)
    requires
        0 < capacity <= MAX_QUEUE_CAPACITY,
{
    tokio::sync::mpsc::channel(capacity)
}

/// `Sender::try_send`: hands `message` to the queue without waiting. On
/// failure the queue gives the same message back, as full or as closed.
#[verifier::external_body]
pub(crate) fn queue_try_send<T>(sender: &QueueSender<T>, message: T) -> (sent: Result<
    (),
    SendError<T>,
>)
    ensures
        sent matches Err(e) ==> e == SendError::ChannelFull(message) || e
            == SendError::ChannelClosed(message),
{
    match sender.try_send(message) {
        Ok(()) => Ok(()),
        Err(QueueTrySendError::Full(m)) => Err(SendError::ChannelFull(m)),
        Err(QueueTrySendError::Closed(m)) => Err(SendError::ChannelClosed(m)),
    }
}

/// `Sender::is_closed`: whether the receiver has closed the queue or was
/// dropped, at the moment of the call.
#[verifier::external_body]
pub(crate) fn queue_is_closed<T>(sender: &QueueSender<T>) -> bool {
    sender.is_closed()
}

/// `Receiver::poll_recv`: the next message, the end of the queue, or
/// `Pending` with the task's waker registered.
#[verifier::external_body]
pub(crate) fn queue_poll_recv<T>(receiver: &mut QueueReceiver<T>, cx: &mut Context<'_>) -> Poll<
    Option<T>,
> {
    receiver.poll_recv(cx)
}

/// `Receiver::poll_recv_many`: appends up to `limit` messages to `buffer`
/// and returns their number. Messages are only ever appended, and `Pending`
/// leaves `buffer` as it was.
#[verifier::external_body]
pub(crate) fn queue_poll_recv_many<T>(
    receiver: &mut QueueReceiver<T>,
    cx: &mut Context<'_>,
    buffer: &mut Vec<T>,
    limit: usize,
) -> (polled: Poll<usize>)
    ensures
        polled matches Poll::Ready(count) ==> count <= limit && final(buffer)@.len() == old(
            buffer,
        )@.len() + count && final(buffer)@.take(old(buffer)@.len() as int) == old(buffer)@,
        polled is Pending ==> final(buffer)@ == old(buffer)@,
{
    receiver.poll_recv_many(cx, buffer, limit)
}

/// `Receiver::try_recv`: the next message if one is buffered, else whether
/// the queue is merely empty or closed and drained.
#[verifier::external_body]
pub(crate) fn queue_try_recv<T>(receiver: &mut QueueReceiver<T>) -> Result<T, TryRecvError> {
    match receiver.try_recv() {
        Ok(message) => Ok(message),
        Err(QueueTryRecvError::Empty) => Err(TryRecvError::Empty),
        Err(QueueTryRecvError::Disconnected) => Err(TryRecvError::Disconnected),
    }
}

/// `Receiver::close`: closes the queue for sending; what it holds stays.
#[verifier::external_body]
pub(crate) fn queue_close<T>(receiver: &mut QueueReceiver<T>) {
    receiver.close()
}

} // verus!
