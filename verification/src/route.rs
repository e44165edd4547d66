//! The routing function: from the hash of a key to the index of a consumer.
//!
//! A key is hashed by the strategy that the channel was built with; the hash
//! is then reduced to the index type and taken modulo the number of
//! consumers. The reduction is checked: a hash that does not fit the index
//! type is a routing failure, never a truncated index.

use vstd::prelude::*;
use core::hash::BuildHasher;
use core::hash::Hash;
use core::num::TryFromIntError;
use std::hash::RandomState;
use crate::error::SendError;

verus! {

/// The consumer that a hash is routed to among `num_consumers`, or `None`
/// where the hash does not fit the index type.
pub open spec fn route_of_hash(hash: u64, num_consumers: usize) -> Option<usize> {
    if hash <= usize::MAX {
        Some((hash as int % num_consumers as int) as usize)
    } else {
        None
    }
}

/// The index that a computed route holds, if it holds one.
pub open spec fn route_index(route: Result<usize, TryFromIntError>) -> Option<usize> {
    match route {
        Ok(index) => Some(index),
        Err(_) => None,
    }
}

/// What becomes of a message once its route is known: it goes to the
/// consumer at the route's index, or it comes back with the reason.
pub open spec fn selection<T>(route: Option<usize>, num_consumers: usize, message: T) -> Result<
    (usize, T),
    SendError<T>,
> {
    match route {
        None => Err(SendError::FailedToComputeRouteID(message)),
        Some(index) => if index < num_consumers {
            Ok((index, message))
        } else {
            Err(SendError::NoConsumer(message))
        },
    }
}

/// `BuildHasher::hash_one` of std: the 64-bit hash of `id` under
/// `build_hasher`. Nothing is claimed of the value.
#[verifier::external_body]
fn hash_one<ID: Hash, S: BuildHasher>(build_hasher: &S, id: ID) -> u64 {
    build_hasher.hash_one(id)
}

/// `RandomState::new` of std: a hash strategy with fresh random keys.
#[verifier::external_body]
pub(crate) fn random_state() -> RandomState {
    RandomState::new()
}

/// Routes a hash: reduces it to the index type and takes it modulo the
/// number of consumers.
pub fn route_for_hash(hash: u64, num_consumers: usize) -> (route: Result<usize, TryFromIntError>)
    requires
        num_consumers > 0,
    ensures
        route_index(route) == route_of_hash(hash, num_consumers),
{
    match usize::try_from(hash) {
        Ok(index) => Ok(index % num_consumers),
        Err(e) => Err(e),
    }
}

/// Routes a key: hashes it with `build_hasher` and routes the hash.
///
/// Whatever the strategy returns, the result is the route of that one hash:
/// an index below `num_consumers`, or a failure, which can only occur where
/// the index type is narrower than 64 bits.
pub fn compute_route_id<ID, S>(id: ID, num_consumers: usize, build_hasher: &S) -> (route: Result<
    usize,
    TryFromIntError,
>) where ID: Hash, S: BuildHasher
    requires
        num_consumers > 0,
    ensures
        exists|hash: u64| route_index(route) == #[trigger] route_of_hash(hash, num_consumers),
        route matches Ok(index) ==> index < num_consumers,
        u64::MAX <= usize::MAX ==> route is Ok,
{
    let hash = hash_one(build_hasher, id);
    let route = route_for_hash(hash, num_consumers);
    proof {
        route_in_range(hash, num_consumers);
    }
    route
}

/// Decides where a message goes once its route has been computed.
pub fn select_consumer<T>(
    route: Result<usize, TryFromIntError>,
    num_consumers: usize,
    message: T,
) -> (target: Result<(usize, T), SendError<T>>)
    ensures
        target == selection(route_index(route), num_consumers, message),
{
    match route {
        Ok(index) => if index < num_consumers {
            Ok((index, message))
        } else {
            Err(SendError::NoConsumer(message))
        },
        Err(_) => Err(SendError::FailedToComputeRouteID(message)),
    }
}

/// The result of a send that waits for room or needs none, from what the
/// queue made of the message: such a queue hands a message back only where
/// it is closed.
pub fn finish_send<T>(outcome: Result<(), T>) -> (sent: Result<(), SendError<T>>)
    ensures
        sent == (match outcome {
            Ok(()) => Ok::<(), SendError<T>>(()),
            Err(message) => Err::<(), SendError<T>>(SendError::ChannelClosed(message)),
        }),
{
    match outcome {
        Ok(()) => Ok(()),
        Err(message) => Err(SendError::ChannelClosed(message)),
    }
}

/// Routing is a function of the hash and of the number of consumers alone:
/// equal hashes are routed alike.
pub proof fn route_is_deterministic(hash1: u64, hash2: u64, num_consumers: usize)
    requires
        hash1 == hash2,
    ensures
        route_of_hash(hash1, num_consumers) == route_of_hash(hash2, num_consumers),
{
}

/// A route, where there is one, is the index of a consumer.
pub proof fn route_in_range(hash: u64, num_consumers: usize)
    requires
        num_consumers > 0,
    ensures
        route_of_hash(hash, num_consumers) matches Some(index) ==> index < num_consumers,
        route_of_hash(hash, num_consumers) is None <==> hash > usize::MAX,
{
}

/// Selecting a consumer loses no message: the message goes on to the
/// consumer unchanged, or it comes back in the failure.
pub proof fn selection_keeps_message<T>(route: Option<usize>, num_consumers: usize, message: T)
    ensures
        match selection(route, num_consumers, message) {
            Ok((index, m)) => route == Some(index) && index < num_consumers && m == message,
            Err(e) => e.message() == message,
        },
{
}

/// A message whose route was computed among at least one consumer is never
/// left without a consumer.
pub proof fn routed_message_has_consumer<T>(hash: u64, num_consumers: usize, message: T)
    requires
        num_consumers > 0,
    ensures
        selection(route_of_hash(hash, num_consumers), num_consumers, message) == (
        match route_of_hash(hash, num_consumers) {
            Some(index) => Ok((index, message)),
            None => Err(SendError::FailedToComputeRouteID(message)),
        }),
{
    route_in_range(hash, num_consumers);
}

} // verus!
