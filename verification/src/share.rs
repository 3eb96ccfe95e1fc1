//! Shared values.

use std::sync::Arc;
use vstd::prelude::*;

verus! {

/// `Arc::clone`, taken on trust: the result is claimed to be one more pointer to the
/// same shared value.
#[verifier::external_body]
pub(crate) fn share<T>(shared: &Arc<T>) -> (r: Arc<T>)
    ensures
        r == *shared,
{
    Arc::clone(shared)
}

} // verus!
