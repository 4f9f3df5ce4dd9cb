//! Errors that come of reading PODs.

use vstd::prelude::*;

verus! {

/// An error that can occur when decoding a POD or building one of its values.
#[derive(Debug, Clone, Copy, PartialEq, Eq, Structural, Hash)]
#[non_exhaustive]
pub enum PodError {
    /// There are too few bytes for what was to be read.
    InsufficientSpace,
    /// A header holds a kind other than the one expected.
    InvalidKind,
    /// A size is out of the bounds that the protocol allows, or does not fit
    /// the kind of its POD.
    InvalidSize,
    /// A string has no NUL terminator.
    NotNulTerminated,
    /// A string has a NUL before its last byte.
    InteriorNul {
        /// Where the first NUL is.
        position: usize,
    },
}

/// An error that can occur when parsing a POD.
#[derive(Debug, Clone, Copy, PartialEq, Eq, Structural, Hash)]
#[non_exhaustive]
pub enum ParsePodError {
    /// There is insufficient space to parse the buffer.
    InsufficientSpace,
    /// We encountered an unexpected value.
    UnexpectedValue,
    /// Some other, not yet named error.
    Other,
}

/// The largest size, in bytes, of the body of a POD that this crate accepts.
///
/// It is a multiple of sixteen, so that it is a whole number of elements of
/// every primitive kind, and of eight, so that aligning a size that does not
/// exceed it to eight bytes does not exceed it either.
pub const MAX_SIZE: u32 = 0x7fff_fff0;

} // verus!
