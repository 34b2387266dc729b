//! The Fluvio client handle, carried through the library as an opaque value.

use vstd::prelude::*;
use std::sync::Arc;

verus! {

/// `fluvio::Fluvio`, the cluster client, held opaque.
#[verifier::external_type_specification]
#[verifier::external_body]
pub struct ExFluvio(fluvio::Fluvio);

/// `Arc::clone`: a new pointer to the same allocation, so the clone is the
/// same value.
#[verifier::external_body]
pub(crate) fn share<T>(a: &Arc<T>) -> (r: Arc<T>)
    ensures
        r == *a,
{
    Arc::clone(a)
}

} // verus!
