//! The unbounded queue of one consumer: tokio's unbounded `mpsc` channel.
//!
//! The queue is shared between tasks, so nothing is stated here of what it
//! holds: a contract says only what is true of a call whatever other tasks
//! do meanwhile.

use vstd::prelude::*;
use core::task::Context;
use core::task::Poll;
use tokio::sync::mpsc::error::SendError as QueueSendError;
use tokio::sync::mpsc::error::TryRecvError as QueueTryRecvError;
use tokio::sync::mpsc::UnboundedReceiver as QueueReceiver;
use tokio::sync::mpsc::UnboundedSender as QueueSender;
use crate::error::TryRecvError;

verus! {

/// `tokio::sync::mpsc::UnboundedSender`: the sending end of an unbounded
/// queue.
#[verifier::external_type_specification]
#[verifier::external_body]
#[verifier::reject_recursive_types(T)]
pub struct ExQueueSender<T>(QueueSender<T>);

/// `tokio::sync::mpsc::UnboundedReceiver`: the receiving end of an unbounded
/// queue.
#[verifier::external_type_specification]
#[verifier::external_body]
#[verifier::reject_recursive_types(T)]
pub struct ExQueueReceiver<T>(QueueReceiver<T>);

/// `tokio::sync::mpsc::unbounded_channel`: a new unbounded queue, as its two
/// ends.
#[verifier::external_body]
pub(crate) fn unbounded_queue<T>() -> (QueueSender<T>, QueueReceiver<T>) {
    tokio::sync::mpsc::unbounded_channel()
}

/// `UnboundedSender::send`: hands `message` to the queue; it never waits.
/// On failure the queue is closed and gives the same message back.
#[verifier::external_body]
pub(crate) fn queue_send<T>(sender: &QueueSender<T>, message: T) -> (sent: Result<(), T>)
    ensures
        sent matches Err(m) ==> m == message,
{
    match sender.send(message) {
        Ok(()) => Ok(()),
        Err(QueueSendError(m)) => Err(m),
    }
}

/// `UnboundedReceiver::poll_recv`: the next message, the end of the queue,
/// or `Pending` with the task's waker registered.
#[verifier::external_body]
pub(crate) fn queue_poll_recv<T>(receiver: &mut QueueReceiver<T>, cx: &mut Context<'_>) -> Poll<
    Option<T>,
> {
    receiver.poll_recv(cx)
}

/// `UnboundedReceiver::poll_recv_many`: appends up to `limit` messages to
/// `buffer` and returns their number. Messages are only ever appended, and
/// `Pending` leaves `buffer` as it was.
#[verifier::external_body]
pub(crate) fn queue_poll_recv_many<T>(
    receiver: &mut QueueReceiver<T>,
    cx: &mut Context<'_>,
    buffer: &mut Vec<T>,
    limit: usize,
) -> (polled: Poll<usize>)
    ensures
        polled matches Poll::Ready(count) ==> count <= limit && final(buffer)@.len() == old(
            buffer,
        )@.len() + count && final(buffer)@.take(old(buffer)@.len() as int) == old(buffer)@,
        polled is Pending ==> final(buffer)@ == old(buffer)@,
{
    receiver.poll_recv_many(cx, buffer, limit)
}

/// `UnboundedReceiver::try_recv`: the next message if one is buffered, else
/// whether the queue is merely empty or closed and drained.
#[verifier::external_body]
pub(crate) fn queue_try_recv<T>(receiver: &mut QueueReceiver<T>) -> Result<T, TryRecvError> {
    match receiver.try_recv() {
        Ok(message) => Ok(message),
        Err(QueueTryRecvError::Empty) => Err(TryRecvError::Empty),
        Err(QueueTryRecvError::Disconnected) => Err(TryRecvError::Disconnected),
    }
}

/// `UnboundedReceiver::close`: closes the queue for sending; what it holds
/// stays.
#[verifier::external_body]
pub(crate) fn queue_close<T>(receiver: &mut QueueReceiver<T>) {
    receiver.close()
}

} // verus!
