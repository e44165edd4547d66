//! The types of std through which a receive operation is polled.

use vstd::prelude::*;
use core::task::Context;
use core::task::Poll;

verus! {

/// `core::task::Context`: carries the waker of the task that polls. Its
/// contents are not looked at here.
#[verifier::external_type_specification]
#[verifier::external_body]
pub struct ExContext<'a>(Context<'a>);

/// `core::task::Poll`: `Ready` with a value, or `Pending`.
#[verifier::external_type_specification]
pub struct ExPoll<T>(Poll<T>);

} // verus!
