//! Shared ownership of what the clones of a sender have in common.

use vstd::prelude::*;
use std::sync::Arc;

verus! {

/// `Arc::clone` of std: another pointer to the same value.
#[verifier::external_body]
pub(crate) fn share<T>(shared: &Arc<T>) -> (other: Arc<T>)
    ensures
        other == *shared,
{
    Arc::clone(shared)
}

} // verus!
