//! The sending handle of a bounded sticky channel.

use vstd::prelude::*;
use core::hash::BuildHasher;
use core::hash::Hash;
use core::marker::PhantomData;
use core::num::TryFromIntError;
use std::sync::Arc;
use tokio::sync::mpsc::Sender as QueueSender;
use crate::bounded::queue::queue_is_closed;
use crate::bounded::queue::queue_try_send;
use crate::error::SendError;
use crate::route::compute_route_id;
use crate::route::route_index;
use crate::route::route_of_hash;
use crate::route::select_consumer;
use crate::route::selection;
use crate::shared::share;

verus! {

/// What a suspending send does with a message whose consumer is known.
#[derive(Debug)]
pub enum SendPlan<T> {
    /// Hand the message to the queue of the consumer at this index, waiting
    /// for room where the queue is full.
    Enqueue(usize, T),
    /// The queue of the consumer at this index never has room: wait until it
    /// is closed, then give the message back as `ChannelClosed`.
    AwaitClose(usize, T),
}

/// The plan for a message whose consumer has been selected, on queues of the
/// given capacity: a queue with room for nothing never takes a message.
pub open spec fn plan_for<T>(target: Result<(usize, T), SendError<T>>, capacity: usize) -> Result<
    SendPlan<T>,
    SendError<T>,
> {
    match target {
        Ok((index, message)) => if capacity > 0 {
            Ok(SendPlan::Enqueue(index, message))
        } else {
            Ok(SendPlan::AwaitClose(index, message))
        },
        Err(e) => Err(e),
    }
}

impl<T> SendPlan<T> {
    /// The consumer that the plan names.
    pub open spec fn consumer(self) -> usize {
        match self {
            SendPlan::Enqueue(index, _) => index,
            SendPlan::AwaitClose(index, _) => index,
        }
    }

    /// The message that the plan carries.
    pub open spec fn message(self) -> T {
        match self {
            SendPlan::Enqueue(_, message) => message,
            SendPlan::AwaitClose(_, message) => message,
        }
    }
}

/// Planning loses no message and moves none: the plan carries the message
/// to the consumer that was selected, and a failure passes on unchanged.
pub proof fn plan_keeps_message<T>(target: Result<(usize, T), SendError<T>>, capacity: usize)
    ensures
        match target {
            Ok((index, message)) => plan_for(target, capacity) matches Ok(plan) && plan.consumer()
                == index && plan.message() == message,
            Err(e) => plan_for(target, capacity) == Err::<SendPlan<T>, SendError<T>>(e),
        },
        capacity == 0 ==> !(plan_for(target, capacity) matches Ok(SendPlan::Enqueue(_, _))),
        capacity > 0 ==> !(plan_for(target, capacity) matches Ok(SendPlan::AwaitClose(_, _))),
{
}

/// The answer of a queue with room for nothing to a send that does not
/// wait: the message comes back as `ChannelClosed` where the queue is closed,
/// and as `ChannelFull` where it is open.
pub fn refuse_without_room<T>(closed: bool, message: T) -> (sent: Result<(), SendError<T>>)
    ensures
        sent == Err::<(), SendError<T>>(
            if closed {
                SendError::ChannelClosed(message)
            } else {
                SendError::ChannelFull(message)
            },
        ),
{
    if closed {
        Err(SendError::ChannelClosed(message))
    } else {
        Err(SendError::ChannelFull(message))
    }
}

/// What all clones of one sender share: the sending ends of the queues, the
/// hash strategy and the capacity. Nothing of it changes once it is built.
#[verifier::reject_recursive_types(T)]
struct Shared<T, S> {
    consumers: Vec<QueueSender<T>>,
    build_hasher: S,
    capacity: usize,
}

/// Sends messages to the consumers of a bounded sticky channel. Clones share
/// the queues, and a queue stays open for sending while one clone lives.
#[verifier::reject_recursive_types(T)]
pub struct Sender<ID, T, S> {
    shared: Arc<Shared<T, S>>,
    _phantom: PhantomData<ID>,
}

impl<ID, T, S> Clone for Sender<ID, T, S> {
    /// Another handle on the same queues, with the same hash strategy.
    fn clone(&self) -> (sender: Self)
        ensures
            sender == *self,
    {
        proof {
            use_type_invariant(self);
        }
        Sender { shared: share(&self.shared), _phantom: PhantomData }
    }
}

impl<ID, T, S> Sender<ID, T, S> {
    #[verifier::type_invariant]
    spec fn has_consumers(self) -> bool {
        self.shared.consumers@.len() > 0
    }

    /// The sending ends of the consumers' queues, by consumer index.
    pub closed spec fn endpoints(&self) -> Seq<QueueSender<T>> {
        self.shared.consumers@
    }

    /// How many messages each queue may hold.
    pub closed spec fn spec_capacity(&self) -> usize {
        self.shared.capacity
    }

    /// The hash strategy that keys are routed with.
    pub closed spec fn hasher(&self) -> S {
        self.shared.build_hasher
    }

    /// The number of consumers.
    pub open spec fn spec_consumer_count(&self) -> usize {
        self.endpoints().len() as usize
    }

    /// A sender over the sending ends of the consumers' queues.
    pub(crate) fn new(consumers: Vec<QueueSender<T>>, build_hasher: S, capacity: usize) -> (sender:
        Self)
        requires
            consumers@.len() > 0,
        ensures
            sender.endpoints() == consumers@,
            sender.spec_capacity() == capacity,
            sender.hasher() == build_hasher,
    {
        Sender {
            shared: Arc::new(Shared { consumers, build_hasher, capacity }),
            _phantom: PhantomData,
        }
    }

    /// The number of consumers; there is at least one.
    #[verifier::when_used_as_spec(spec_consumer_count)]
    pub fn consumer_count(&self) -> (count: usize)
        ensures
            count == self.spec_consumer_count(),
            count > 0,
    {
        proof {
            use_type_invariant(self);
        }
        self.shared.consumers.len()
    }

    /// How many messages each queue may hold.
    #[verifier::when_used_as_spec(spec_capacity)]
    pub fn capacity(&self) -> (capacity: usize)
        ensures
            capacity == self.spec_capacity(),
    {
        self.shared.capacity
    }

    /// The sending end of the queue of the consumer at `index`, if there is
    /// such a consumer.
    pub fn endpoint(&self, index: usize) -> (endpoint: Option<&QueueSender<T>>)
        ensures
            endpoint is Some <==> index < self.consumer_count(),
            endpoint matches Some(sender) ==> *sender == self.endpoints()[index as int],
    {
        if index < self.shared.consumers.len() {
            Some(&self.shared.consumers[index])
        } else {
            None
        }
    }

    /// What is handed to a queue for a message whose route has been
    /// computed, and to which queue: the message itself, to the sending end
    /// of the consumer at the route's index. Where there is no such
    /// consumer, or no route, the message comes back with the reason.
    pub fn target(&self, route: Result<usize, TryFromIntError>, message: T) -> (target: Result<
        (&QueueSender<T>, T),
        SendError<T>,
    >)
        ensures
            match selection(route_index(route), self.consumer_count(), message) {
                Ok((index, m)) => target matches Ok((endpoint, carried)) && *endpoint
                    == self.endpoints()[index as int] && carried == m,
                Err(e) => target matches Err(back) && back == e,
            },
    {
        match select_consumer(route, self.shared.consumers.len(), message) {
            Ok((index, message)) => Ok((&self.shared.consumers[index], message)),
            Err(e) => Err(e),
        }
    }

    /// Plans the delivery of a message whose route has been computed.
    pub fn plan_routed(&self, route: Result<usize, TryFromIntError>, message: T) -> (plan: Result<
        SendPlan<T>,
        SendError<T>,
    >)
        ensures
            plan == plan_for(
                selection(route_index(route), self.consumer_count(), message),
                self.capacity(),
            ),
    {
        match select_consumer(route, self.shared.consumers.len(), message) {
            Ok((index, message)) => if self.shared.capacity > 0 {
                Ok(SendPlan::Enqueue(index, message))
            } else {
                Ok(SendPlan::AwaitClose(index, message))
            },
            Err(e) => Err(e),
        }
    }

    /// Sends a message whose route has been computed, without ever waiting:
    /// to the consumer at the route's index, where there is one.
    ///
    /// A failed route gives the message back as `FailedToComputeRouteID`, an
    /// index outside the consumers as `NoConsumer`, a queue without room as
    /// `ChannelFull` and a closed queue as `ChannelClosed`. A queue with
    /// room for nothing never takes a message.
    pub fn try_send_routed(&self, route: Result<usize, TryFromIntError>, message: T) -> (sent:
        Result<(), SendError<T>>)
        ensures
            match plan_for(
                selection(route_index(route), self.consumer_count(), message),
                self.capacity(),
            ) {
                Ok(SendPlan::Enqueue(_, _)) => sent is Ok || sent == Err::<(), SendError<T>>(
                    SendError::ChannelFull(message),
                ) || sent == Err::<(), SendError<T>>(SendError::ChannelClosed(message)),
                Ok(SendPlan::AwaitClose(_, _)) => sent == Err::<(), SendError<T>>(
                    SendError::ChannelFull(message),
                ) || sent == Err::<(), SendError<T>>(SendError::ChannelClosed(message)),
                Err(e) => sent == Err::<(), SendError<T>>(e),
            },
    {
        match self.target(route, message) {
            Ok((endpoint, message)) => if self.shared.capacity > 0 {
                queue_try_send(endpoint, message)
            } else {
                refuse_without_room(queue_is_closed(endpoint), message)
            },
            Err(e) => Err(e),
        }
    }
}

impl<ID, T, S> Sender<ID, T, S> where ID: Hash, S: BuildHasher {
    /// Routes a key among the consumers of this channel.
    pub fn route(&self, id: &ID) -> (route: Result<usize, TryFromIntError>)
        ensures
            exists|hash: u64|
                route_index(route) == #[trigger] route_of_hash(hash, self.consumer_count()),
            route matches Ok(index) ==> index < self.consumer_count(),
            u64::MAX <= usize::MAX ==> route is Ok,
    {
        compute_route_id(id, self.consumer_count(), &self.shared.build_hasher)
    }

    /// Plans the delivery of a message: routes its key and says what a
    /// suspending send has to do. The plan always names a consumer of this
    /// channel and carries the message; a failure gives the message back.
    pub fn plan_send(&self, id: &ID, message: T) -> (plan: Result<SendPlan<T>, SendError<T>>)
        ensures
            match plan {
                Ok(SendPlan::Enqueue(index, m)) => index < self.consumer_count() && m == message
                    && self.capacity() > 0,
                Ok(SendPlan::AwaitClose(index, m)) => index < self.consumer_count() && m
                    == message && self.capacity() == 0,
                Err(e) => e == SendError::FailedToComputeRouteID(message) && usize::MAX < u64::MAX,
            },
    {
        let route = self.route(id);
        self.plan_routed(route, message)
    }

    /// Sends a message to the consumer that its key is routed to, without
    /// ever waiting.
    ///
    /// On failure the message comes back: as `ChannelFull` where the queue
    /// has no room, as `ChannelClosed` where it is closed, and as
    /// `FailedToComputeRouteID` where the key's hash does not fit the index
    /// type. A queue with room for nothing never takes a message.
    pub fn try_send(&self, id: &ID, message: T) -> (sent: Result<(), SendError<T>>)
        ensures
            sent matches Err(e) ==> e == SendError::ChannelFull(message) || e
                == SendError::ChannelClosed(message) || (e == SendError::FailedToComputeRouteID(
                message,
            ) && usize::MAX < u64::MAX),
            self.capacity() == 0 ==> sent is Err,
    {
        let route = self.route(id);
        self.try_send_routed(route, message)
    }
}

/// A sender and a clone of it send alike: they have the same queues, the same
/// capacity and the same hash strategy, so equal hashes lead both to the
/// same plan and to the same sending end.
pub proof fn clones_send_alike<ID, T, S>(
    sender: Sender<ID, T, S>,
    clone: Sender<ID, T, S>,
    hash1: u64,
    hash2: u64,
    message: T,
)
    requires
        clone == sender,
        hash1 == hash2,
    ensures
        clone.endpoints() == sender.endpoints(),
        clone.hasher() == sender.hasher(),
        clone.spec_capacity() == sender.spec_capacity(),
        plan_for(
            selection(
                route_of_hash(hash1, clone.spec_consumer_count()),
                clone.spec_consumer_count(),
                message,
            ),
            clone.spec_capacity(),
        ) == plan_for(
            selection(
                route_of_hash(hash2, sender.spec_consumer_count()),
                sender.spec_consumer_count(),
                message,
            ),
            sender.spec_capacity(),
        ),
{
}

} // verus!
