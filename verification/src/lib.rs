//! Sticky channels: messages that carry the same key always reach the same
//! consumer.
//!
//! A channel is built once for a fixed number of consumers. Each consumer
//! has a queue of its own; the sender hashes the key of a message, reduces
//! the hash to the index of a consumer and hands the message to that
//! consumer's queue. Messages of one key therefore arrive at one receiver,
//! in the order in which they were sent.
//!
//! - [`route`] holds the routing function and what becomes of a message
//!   once its route is known.
//! - [`bounded`] and [`unbounded`] hold the two kinds of channel: with
//!   queues of a limited capacity, which push back on their senders, and
//!   with queues that take every message.
//! - [`lifecycle`] holds the life of a queue as its receiver sees it.
//! - [`error`] holds the failures; a failed send always gives the message
//!   back.
//!
//! The queues themselves are tokio's `mpsc` channels. They are shared
//! between tasks, so the contracts here speak of what the handles decide and
//! keep track of, not of what a queue holds at a given moment. Operations
//! that would suspend are offered as polls.

pub mod bounded;
pub mod error;
pub mod lifecycle;
pub mod route;
pub mod shared;
pub mod task;
pub mod unbounded;

pub use crate::bounded::sticky_channel;
pub use crate::bounded::sticky_channel_with_hasher;
pub use crate::bounded::Receiver;
pub use crate::bounded::SendPlan;
pub use crate::bounded::Sender;
pub use crate::bounded::MAX_QUEUE_CAPACITY;
pub use crate::error::SendError;
pub use crate::error::TryRecvError;
pub use crate::lifecycle::QueueState;
pub use crate::route::compute_route_id;
pub use crate::unbounded::unbounded_sticky_channel;
pub use crate::unbounded::unbounded_sticky_channel_with_hasher;
pub use crate::unbounded::UnboundedReceiver;
pub use crate::unbounded::UnboundedSender;
