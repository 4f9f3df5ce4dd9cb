//! The SPA 32-bit floating point number, held by its bits.

use vstd::prelude::*;

use crate::mem::{AsBytes, AsBytesMut};
use crate::pod::codec::{
    lemma_u32_le_bytes_roundtrip, lemma_u32_le_roundtrip, read_u32_le, spec_u32_from_le,
    spec_u32_to_le, write_u32_le,
};
use crate::pod::header::lemma_align8_of_primitive_sizes;
use crate::pod::kind::SpaKind;
use crate::pod::primitive::{PrimPad, PrimPod};
use crate::pod::sealed::SealPrimPod;

verus! {

/// A SPA 32-bit IEEE-754 single precision floating point number, held by its
/// bits (those of `f32::to_bits`), which are what a POD carries.
///
/// Comparing and printing it as a number is left to whoever turns the bits
/// into an `f32`.
#[derive(Clone, Copy)]
pub struct SpaFloat(pub u32);

impl Default for SpaFloat {
    /// Positive zero, whose bits are all zero.
    fn default() -> (r: SpaFloat)
        ensures
            r.0 == 0,
    {
        SpaFloat(0)
    }
}

impl SealPrimPod for SpaFloat {}

impl AsBytes for SpaFloat {
    open spec fn spec_bytes(&self) -> Seq<u8> {
        spec_u32_to_le(self.0)
    }

    fn to_bytes(&self) -> (r: Vec<u8>) {
        let mut r = Vec::new();
        write_u32_le(&mut r, self.0);
        r
    }
}

impl AsBytesMut for SpaFloat {
    fn write_bytes(&mut self, bytes: &[u8]) {
        proof {
            SpaFloat::lemma_value_roundtrip(*self);
            assert(bytes@.subrange(0, 4) =~= bytes@);
            SpaFloat::lemma_bytes_roundtrip(bytes@);
        }
        *self = SpaFloat::decode(bytes, 0);
    }
}

impl PrimPod for SpaFloat {
    type Padding = [u8; 4];

    open spec fn spec_kind() -> SpaKind {
        SpaKind::Float
    }

    open spec fn spec_size() -> nat {
        4
    }

    open spec fn spec_decode(b: Seq<u8>) -> SpaFloat {
        SpaFloat(spec_u32_from_le(b))
    }

    fn spa_kind() -> (r: SpaKind) {
        SpaKind::Float
    }

    open spec fn spec_default() -> SpaFloat {
        SpaFloat(0)
    }

    fn default_value() -> (r: SpaFloat) {
        SpaFloat(0)
    }

    fn decode(bytes: &[u8], off: usize) -> (r: SpaFloat) {
        SpaFloat(read_u32_le(bytes, off))
    }

    proof fn lemma_layout() {
        lemma_align8_of_primitive_sizes();
        assert(<[u8; 4] as PrimPad>::spec_len() == 4);
    }

    proof fn lemma_value_roundtrip(v: SpaFloat) {
        lemma_u32_le_roundtrip(v.0, Seq::<u8>::empty());
        assert(v.spec_bytes() + Seq::<u8>::empty() =~= v.spec_bytes());
    }

    proof fn lemma_bytes_roundtrip(b: Seq<u8>) {
        lemma_u32_le_bytes_roundtrip(b);
        assert(b.subrange(0, 4) =~= b);
    }
}

} // verus!
