//! The unbounded sticky channel: each consumer's queue takes every message,
//! and its backlog grows with memory alone.

pub mod queue;
pub mod receiver;
pub mod sender;

pub use crate::unbounded::receiver::UnboundedReceiver;
pub use crate::unbounded::sender::UnboundedSender;

use vstd::prelude::*;
use core::hash::BuildHasher;
use core::hash::Hash;
use std::hash::RandomState;
use crate::lifecycle::QueueState;
use crate::route::random_state;
use crate::unbounded::queue::unbounded_queue;

verus! {

/// Builds an unbounded sticky channel for `num_consumers` consumers, with a
/// hash strategy with fresh random keys.
///
/// The receivers come in the order of their consumer index.
pub fn unbounded_sticky_channel<ID, T>(num_consumers: usize) -> (channel: (
    UnboundedSender<ID, T, RandomState>,
    Vec<UnboundedReceiver<T>>,
)) where ID: Hash
    requires
        num_consumers > 0,
    ensures
        channel.0.consumer_count() == num_consumers,
        channel.1@.len() == num_consumers,
        forall|i: int| 0 <= i < num_consumers ==> (#[trigger] channel.1@[i]).state() == QueueState::Open,
{
    unbounded_sticky_channel_with_hasher(num_consumers, random_state())
}

/// Builds an unbounded sticky channel for `num_consumers` consumers, with
/// the given hash strategy.
///
/// Each consumer gets a queue of its own, and the receivers come in the
/// order of their consumer index.
pub fn unbounded_sticky_channel_with_hasher<ID, T, S>(num_consumers: usize, build_hasher: S) -> (channel:
    (UnboundedSender<ID, T, S>, Vec<UnboundedReceiver<T>>)) where ID: Hash, S: BuildHasher
    requires
        num_consumers > 0,
    ensures
        channel.0.consumer_count() == num_consumers,
        channel.0.hasher() == build_hasher,
        channel.1@.len() == num_consumers,
        forall|i: int| 0 <= i < num_consumers ==> (#[trigger] channel.1@[i]).state() == QueueState::Open,
{
    let mut receivers: Vec<UnboundedReceiver<T>> = Vec::with_capacity(num_consumers);
    let mut consumers = Vec::with_capacity(num_consumers);
    for index in 0..num_consumers
        invariant
            consumers@.len() == index,
            receivers@.len() == index,
            forall|i: int| 0 <= i < index ==> (#[trigger] receivers@[i]).state() == QueueState::Open,
    {
        let (tx, rx) = unbounded_queue();
        consumers.push(tx);
        receivers.push(UnboundedReceiver::new(rx));
    }
    (UnboundedSender::new(consumers, build_hasher), receivers)
}

} // verus!
