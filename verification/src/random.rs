//! The source of chance.

use vstd::prelude::*;

verus! {

/// Calls `rand::random::<usize>()`, which asks the thread-local generator of
/// the `rand` crate for a `usize`. Nothing is claimed of the number: any value
/// may come back, and two calls may differ. The generator panics when the
/// system has no entropy to seed it with; no argument of the caller's can
/// prevent that.
#[verifier::external_body]
pub(crate) fn random_index() -> usize {
    rand::random::<usize>()
}

} // verus!
