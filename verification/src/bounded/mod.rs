//! The bounded sticky channel: each consumer's queue holds a limited number
//! of messages, and a full queue pushes back on its senders.

pub mod queue;
pub mod receiver;
pub mod sender;

pub use crate::bounded::queue::MAX_QUEUE_CAPACITY;
pub use crate::bounded::receiver::Receiver;
pub use crate::route::finish_send;
pub use crate::bounded::sender::refuse_without_room;
pub use crate::bounded::sender::SendPlan;
pub use crate::bounded::sender::Sender;

use vstd::prelude::*;
use core::hash::BuildHasher;
use core::hash::Hash;
use std::hash::RandomState;
use crate::bounded::queue::bounded_queue;
use crate::lifecycle::QueueState;
use crate::route::random_state;

verus! {

/// Builds a bounded sticky channel for `num_consumers` consumers, with room
/// for `capacity` messages in each queue and a hash strategy with fresh
/// random keys.
///
/// The receivers come in the order of their consumer index.
pub fn sticky_channel<ID, T>(num_consumers: usize, capacity: usize) -> (channel: (
    Sender<ID, T, RandomState>,
    Vec<Receiver<T>>,
)) where ID: Hash
    requires
        num_consumers > 0,
        capacity <= MAX_QUEUE_CAPACITY,
    ensures
        channel.0.consumer_count() == num_consumers,
        channel.0.capacity() == capacity,
        channel.1@.len() == num_consumers,
        forall|i: int| 0 <= i < num_consumers ==> (#[trigger] channel.1@[i]).state() == QueueState::Open,
{
    sticky_channel_with_hasher(num_consumers, capacity, random_state())
}

/// Builds a bounded sticky channel for `num_consumers` consumers, with room
/// for `capacity` messages in each queue and the given hash strategy.
///
/// Each consumer gets a queue of its own, and the receivers come in the
/// order of their consumer index. A capacity of zero is the most
/// restrictive: no queue ever takes a message.
pub fn sticky_channel_with_hasher<ID, T, S>(num_consumers: usize, capacity: usize, build_hasher: S) -> (channel:
    (Sender<ID, T, S>, Vec<Receiver<T>>)) where ID: Hash, S: BuildHasher
    requires
        num_consumers > 0,
        capacity <= MAX_QUEUE_CAPACITY,
    ensures
        channel.0.consumer_count() == num_consumers,
        channel.0.capacity() == capacity,
        channel.0.hasher() == build_hasher,
        channel.1@.len() == num_consumers,
        forall|i: int| 0 <= i < num_consumers ==> (#[trigger] channel.1@[i]).state() == QueueState::Open,
{
    // The queue primitive wants room for one message at least; a queue of a
    // channel without room is never handed one.
    let room: usize = if capacity == 0 {
        1
    } else {
        capacity
    };
    let mut receivers: Vec<Receiver<T>> = Vec::with_capacity(num_consumers);
    let mut consumers = Vec::with_capacity(num_consumers);
    for index in 0..num_consumers
        invariant
            0 < room <= MAX_QUEUE_CAPACITY,
            consumers@.len() == index,
            receivers@.len() == index,
            forall|i: int| 0 <= i < index ==> (#[trigger] receivers@[i]).state() == QueueState::Open,
    {
        let (tx, rx) = bounded_queue(room);
        consumers.push(tx);
        receivers.push(Receiver::new(rx));
    }
    (Sender::new(consumers, build_hasher, capacity), receivers)
}

} // verus!
