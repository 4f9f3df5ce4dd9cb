//! Traits that keep the sets of primitive PODs and paddings closed.

use vstd::prelude::*;

verus! {

/// Implemented only by the paddings of this crate.
pub trait SealPrimPad {}

/// Implemented only by the primitive PODs of this crate.
pub trait SealPrimPod {}

} // verus!
