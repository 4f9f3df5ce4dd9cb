//! The SPA 64-bit floating point number, held by its bits.

use vstd::prelude::*;

use crate::mem::{AsBytes, AsBytesMut};
use crate::pod::codec::{
    lemma_u64_le_bytes_roundtrip, lemma_u64_le_roundtrip, read_u64_le, spec_u64_from_le,
    spec_u64_to_le, write_u64_le,
};
use crate::pod::header::lemma_align8_of_primitive_sizes;
use crate::pod::kind::SpaKind;
use crate::pod::primitive::{PrimPad, PrimPod};
use crate::pod::sealed::SealPrimPod;

verus! {

/// A SPA 64-bit IEEE-754 double precision floating point number, held by its
/// bits (those of `f64::to_bits`), which are what a POD carries.
///
/// Comparing and printing it as a number is left to whoever turns the bits
/// into an `f64`.
#[derive(Clone, Copy)]
pub struct SpaDouble(pub u64);

impl Default for SpaDouble {
    /// Positive zero, whose bits are all zero.
    fn default() -> (r: SpaDouble)
        ensures
            r.0 == 0,
    {
        SpaDouble(0)
    }
}

impl SealPrimPod for SpaDouble {}

impl AsBytes for SpaDouble {
    open spec fn spec_bytes(&self) -> Seq<u8> {
        spec_u64_to_le(self.0)
    }

    fn to_bytes(&self) -> (r: Vec<u8>) {
        let mut r = Vec::new();
        write_u64_le(&mut r, self.0);
        r
    }
}

impl AsBytesMut for SpaDouble {
    fn write_bytes(&mut self, bytes: &[u8]) {
        proof {
            SpaDouble::lemma_value_roundtrip(*self);
            assert(bytes@.subrange(0, 8) =~= bytes@);
            SpaDouble::lemma_bytes_roundtrip(bytes@);
        }
        *self = SpaDouble::decode(bytes, 0);
    }
}

impl PrimPod for SpaDouble {
    type Padding = [u8; 0];

    open spec fn spec_kind() -> SpaKind {
        SpaKind::Double
    }

    open spec fn spec_size() -> nat {
        8
    }

    open spec fn spec_decode(b: Seq<u8>) -> SpaDouble {
        SpaDouble(spec_u64_from_le(b))
    }

    fn spa_kind() -> (r: SpaKind) {
        SpaKind::Double
    }

    open spec fn spec_default() -> SpaDouble {
        SpaDouble(0)
    }

    fn default_value() -> (r: SpaDouble) {
        SpaDouble(0)
    }

    fn decode(bytes: &[u8], off: usize) -> (r: SpaDouble) {
        SpaDouble(read_u64_le(bytes, off))
    }

    proof fn lemma_layout() {
        lemma_align8_of_primitive_sizes();
        assert(<[u8; 0] as PrimPad>::spec_len() == 0);
    }

    proof fn lemma_value_roundtrip(v: SpaDouble) {
        lemma_u64_le_roundtrip(v.0, Seq::<u8>::empty());
        assert(v.spec_bytes() + Seq::<u8>::empty() =~= v.spec_bytes());
    }

    proof fn lemma_bytes_roundtrip(b: Seq<u8>) {
        lemma_u64_le_bytes_roundtrip(b);
        assert(b.subrange(0, 8) =~= b);
    }
}

} // verus!
