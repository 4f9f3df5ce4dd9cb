//! A trait that keeps the set of access markers closed.

use vstd::prelude::*;

verus! {

/// Implemented only by the access markers of this crate.
pub trait SealAccess {}

} // verus!
