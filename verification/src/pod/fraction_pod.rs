//! The wire representation of the SPA fraction, and its conversions.

use vstd::prelude::*;
use vstd::std_specs::convert::FromSpecImpl;

use crate::mem::{AsBytes, AsBytesMut};
use crate::pod::codec::{
    lemma_u32_le_bytes_roundtrip, read_u32_le, spec_u32_from_le, spec_u32_to_le, write_u32_le,
};
use crate::pod::header::{lemma_align8_of_primitive_sizes, lemma_header_roundtrip, SpaHeader};
use crate::pod::fraction::SpaFraction;
use crate::pod::kind::SpaKind;
use crate::pod::primitive::{PrimPad, PrimPod};
use crate::pod::sealed::SealPrimPod;

verus! {

impl Default for SpaFraction {
    fn default() -> (r: SpaFraction)
        ensures
            r.numer == 0 && r.denom == 0,
    {
        SpaFraction { numer: 0, denom: 0 }
    }
}

impl From<(u32, u32)> for SpaFraction {
    fn from(value: (u32, u32)) -> (r: SpaFraction) {
        SpaFraction { numer: value.0, denom: value.1 }
    }
}

impl FromSpecImpl<(u32, u32)> for SpaFraction {
    open spec fn obeys_from_spec() -> bool {
        true
    }

    open spec fn from_spec(value: (u32, u32)) -> SpaFraction {
        SpaFraction { numer: value.0, denom: value.1 }
    }
}

impl From<SpaFraction> for (u32, u32) {
    fn from(value: SpaFraction) -> (r: (u32, u32)) {
        (value.numer, value.denom)
    }
}

impl FromSpecImpl<SpaFraction> for (u32, u32) {
    open spec fn obeys_from_spec() -> bool {
        true
    }

    open spec fn from_spec(value: SpaFraction) -> (u32, u32) {
        (value.numer, value.denom)
    }
}

impl From<[u32; 2]> for SpaFraction {
    fn from(value: [u32; 2]) -> (r: SpaFraction) {
        SpaFraction { numer: value[0], denom: value[1] }
    }
}

impl FromSpecImpl<[u32; 2]> for SpaFraction {
    open spec fn obeys_from_spec() -> bool {
        true
    }

    open spec fn from_spec(value: [u32; 2]) -> SpaFraction {
        SpaFraction { numer: value[0], denom: value[1] }
    }
}

impl From<SpaFraction> for [u32; 2] {
    fn from(value: SpaFraction) -> (r: [u32; 2]) {
        [value.numer, value.denom]
    }
}

impl FromSpecImpl<SpaFraction> for [u32; 2] {
    open spec fn obeys_from_spec() -> bool {
        true
    }

    open spec fn from_spec(value: SpaFraction) -> [u32; 2] {
        [value.numer, value.denom]
    }
}

impl SealPrimPod for SpaFraction {}

impl AsBytes for SpaFraction {
    open spec fn spec_bytes(&self) -> Seq<u8> {
        spec_u32_to_le(self.numer) + spec_u32_to_le(self.denom)
    }

    fn to_bytes(&self) -> (r: Vec<u8>) {
        let mut r = Vec::new();
        write_u32_le(&mut r, self.numer);
        write_u32_le(&mut r, self.denom);
        assert(r@ =~= self.spec_bytes());
        r
    }
}

impl AsBytesMut for SpaFraction {
    fn write_bytes(&mut self, bytes: &[u8]) {
        proof {
            SpaFraction::lemma_value_roundtrip(*self);
            assert(bytes@.subrange(0, 8) =~= bytes@);
            SpaFraction::lemma_bytes_roundtrip(bytes@);
        }
        *self = SpaFraction::decode(bytes, 0);
    }
}

impl PrimPod for SpaFraction {
    type Padding = [u8; 0];

    open spec fn spec_kind() -> SpaKind {
        SpaKind::Fraction
    }

    open spec fn spec_size() -> nat {
        8
    }

    open spec fn spec_decode(b: Seq<u8>) -> SpaFraction {
        SpaFraction { numer: spec_u32_from_le(b), denom: spec_u32_from_le(b.subrange(4, 8)) }
    }

    fn spa_kind() -> (r: SpaKind) {
        SpaKind::Fraction
    }

    open spec fn spec_default() -> SpaFraction {
        SpaFraction { numer: 0, denom: 0 }
    }

    fn default_value() -> (r: SpaFraction) {
        SpaFraction { numer: 0, denom: 0 }
    }

    fn decode(bytes: &[u8], off: usize) -> (r: SpaFraction) {
        let _len = bytes.len();
        let x = read_u32_le(bytes, off);
        let y = read_u32_le(bytes, off + 4);
        proof {
            let c = bytes@.subrange(off as int, off + 8);
            assert(c.subrange(0, 4) =~= bytes@.subrange(off as int, off + 4));
            assert(c.subrange(4, 8) =~= bytes@.subrange(off + 4, off + 8));
        }
        SpaFraction { numer: x, denom: y }
    }

    proof fn lemma_layout() {
        lemma_align8_of_primitive_sizes();
        assert(<[u8; 0] as PrimPad>::spec_len() == 0);
    }

    proof fn lemma_value_roundtrip(v: SpaFraction) {
        let h = SpaHeader { size: v.numer, kind: v.denom };
        lemma_header_roundtrip(h, Seq::<u8>::empty());
        assert(h.spec_bytes() + Seq::<u8>::empty() =~= v.spec_bytes());
    }

    proof fn lemma_bytes_roundtrip(b: Seq<u8>) {
        lemma_u32_le_bytes_roundtrip(b);
        lemma_u32_le_bytes_roundtrip(b.subrange(4, 8));
        assert(b.subrange(4, 8).subrange(0, 4) =~= b.subrange(4, 8));
        assert(b =~= b.subrange(0, 4) + b.subrange(4, 8));
    }
}

} // verus!
