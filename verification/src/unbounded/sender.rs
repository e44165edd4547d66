//! The sending handle of an unbounded sticky channel.

use vstd::prelude::*;
use core::hash::BuildHasher;
use core::hash::Hash;
use core::marker::PhantomData;
use core::num::TryFromIntError;
use std::sync::Arc;
use tokio::sync::mpsc::UnboundedSender as QueueSender;
use crate::error::SendError;
use crate::route::compute_route_id;
use crate::route::finish_send;
use crate::route::route_index;
use crate::route::route_of_hash;
use crate::route::select_consumer;
use crate::route::selection;
use crate::shared::share;
use crate::unbounded::queue::queue_send;

verus! {

/// What all clones of one sender share: the sending ends of the queues and
/// the hash strategy. Nothing of it changes once it is built.
#[verifier::reject_recursive_types(T)]
struct Shared<T, S> {
    consumers: Vec<QueueSender<T>>,
    build_hasher: S,
}

/// Sends messages to the consumers of an unbounded sticky channel. Clones
/// share the queues, and a queue stays open for sending while one clone
/// lives.
#[verifier::reject_recursive_types(T)]
pub struct UnboundedSender<ID, T, S> {
    shared: Arc<Shared<T, S>>,
    _phantom: PhantomData<ID>,
}

impl<ID, T, S> Clone for UnboundedSender<ID, T, S> {
    /// Another handle on the same queues, with the same hash strategy.
    fn clone(&self) -> (sender: Self)
        ensures
            sender == *self,
    {
        proof {
            use_type_invariant(self);
        }
        UnboundedSender { shared: share(&self.shared), _phantom: PhantomData }
    }
}

impl<ID, T, S> UnboundedSender<ID, T, S> {
    #[verifier::type_invariant]
    spec fn has_consumers(self) -> bool {
        self.shared.consumers@.len() > 0
    }

    /// The sending ends of the consumers' queues, by consumer index.
    pub closed spec fn endpoints(&self) -> Seq<QueueSender<T>> {
        self.shared.consumers@
    }

    /// The hash strategy that keys are routed with.
    pub closed spec fn hasher(&self) -> S {
        self.shared.build_hasher
    }

    /// The number of consumers.
    pub open spec fn spec_consumer_count(&self) -> usize {
        self.endpoints().len() as usize
    }

    /// A sender over the sending ends of the consumers' queues.
    pub(crate) fn new(consumers: Vec<QueueSender<T>>, build_hasher: S) -> (sender: Self)
        requires
            consumers@.len() > 0,
        ensures
            sender.endpoints() == consumers@,
            sender.hasher() == build_hasher,
    {
        UnboundedSender {
            shared: Arc::new(Shared { consumers, build_hasher }),
            _phantom: PhantomData,
        }
    }

    /// The number of consumers; there is at least one.
    #[verifier::when_used_as_spec(spec_consumer_count)]
    pub fn consumer_count(&self) -> (count: usize)
        ensures
            count == self.spec_consumer_count(),
            count > 0,
    {
        proof {
            use_type_invariant(self);
        }
        self.shared.consumers.len()
    }

    /// What is handed to a queue for a message whose route has been
    /// computed, and to which queue: the message itself, to the sending end
    /// of the consumer at the route's index. Where there is no such
    /// consumer, or no route, the message comes back with the reason.
    pub fn target(&self, route: Result<usize, TryFromIntError>, message: T) -> (target: Result<
        (&QueueSender<T>, T),
        SendError<T>,
    >)
        ensures
            match selection(route_index(route), self.consumer_count(), message) {
                Ok((index, m)) => target matches Ok((endpoint, carried)) && *endpoint
                    == self.endpoints()[index as int] && carried == m,
                Err(e) => target matches Err(back) && back == e,
            },
    {
        match select_consumer(route, self.shared.consumers.len(), message) {
            Ok((index, message)) => Ok((&self.shared.consumers[index], message)),
            Err(e) => Err(e),
        }
    }

    /// Sends a message whose route has been computed: to the consumer at the
    /// route's index, where there is one.
    ///
    /// A failed route gives the message back as `FailedToComputeRouteID`, an
    /// index outside the consumers as `NoConsumer`, and a closed queue as
    /// `ChannelClosed`.
    pub fn send_routed(&self, route: Result<usize, TryFromIntError>, message: T) -> (sent: Result<
        (),
        SendError<T>,
    >)
        ensures
            match selection(route_index(route), self.consumer_count(), message) {
                Ok(_) => sent is Ok || sent == Err::<(), SendError<T>>(
                    SendError::ChannelClosed(message),
                ),
                Err(e) => sent == Err::<(), SendError<T>>(e),
            },
    {
        match self.target(route, message) {
            Ok((endpoint, message)) => finish_send(queue_send(endpoint, message)),
            Err(e) => Err(e),
        }
    }
}

impl<ID, T, S> UnboundedSender<ID, T, S> where ID: Hash, S: BuildHasher {
    /// Routes a key among the consumers of this channel.
    pub fn route(&self, id: &ID) -> (route: Result<usize, TryFromIntError>)
        ensures
            exists|hash: u64|
                route_index(route) == #[trigger] route_of_hash(hash, self.consumer_count()),
            route matches Ok(index) ==> index < self.consumer_count(),
            u64::MAX <= usize::MAX ==> route is Ok,
    {
        compute_route_id(id, self.consumer_count(), &self.shared.build_hasher)
    }

    /// Sends a message to the consumer that its key is routed to. It never
    /// waits: the queue has room for every message.
    ///
    /// On failure the message comes back: as `ChannelClosed` where the queue
    /// is closed, and as `FailedToComputeRouteID` where the key's hash does
    /// not fit the index type.
    pub fn send(&self, id: &ID, message: T) -> (sent: Result<(), SendError<T>>)
        ensures
            sent matches Err(e) ==> e == SendError::ChannelClosed(message) || (e
                == SendError::FailedToComputeRouteID(message) && usize::MAX < u64::MAX),
    {
        let route = self.route(id);
        self.send_routed(route, message)
    }
}

/// A sender and a clone of it send alike: they have the same queues and the
/// same hash strategy, so equal hashes lead both to the same consumer.
pub proof fn clones_send_alike<ID, T, S>(
    sender: UnboundedSender<ID, T, S>,
    clone: UnboundedSender<ID, T, S>,
    hash1: u64,
    hash2: u64,
    message: T,
)
    requires
        clone == sender,
        hash1 == hash2,
    ensures
        clone.endpoints() == sender.endpoints(),
        clone.hasher() == sender.hasher(),
        selection(
            route_of_hash(hash1, clone.spec_consumer_count()),
            clone.spec_consumer_count(),
            message,
        ) == selection(
            route_of_hash(hash2, sender.spec_consumer_count()),
            sender.spec_consumer_count(),
            message,
        ),
{
}

} // verus!
