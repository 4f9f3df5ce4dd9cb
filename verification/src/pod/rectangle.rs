//! The SPA rectangle.

use vstd::prelude::*;
use vstd::std_specs::convert::FromSpecImpl;

use crate::mem::{AsBytes, AsBytesMut};
use crate::pod::codec::{
    lemma_u32_le_bytes_roundtrip, read_u32_le, spec_u32_from_le, spec_u32_to_le, write_u32_le,
};
use crate::pod::header::{lemma_align8_of_primitive_sizes, lemma_header_roundtrip, SpaHeader};
use crate::pod::kind::SpaKind;
use crate::pod::primitive::{PrimPad, PrimPod};
use crate::pod::sealed::SealPrimPod;

verus! {

/// A SPA Rectangle.
#[derive(Debug, Clone, Copy, Hash)]
pub struct SpaRectangle {
    /// The width of the rectangle.
    pub width: u32,
    /// The height of the rectangle.
    pub height: u32,
}

impl PartialEq for SpaRectangle {
    fn eq(&self, other: &Self) -> (r: bool) {
        self.width == other.width && self.height == other.height
    }
}

impl vstd::std_specs::cmp::PartialEqSpecImpl for SpaRectangle {
    open spec fn obeys_eq_spec() -> bool {
        true
    }

    open spec fn eq_spec(&self, other: &Self) -> bool {
        self.width == other.width && self.height == other.height
    }
}

impl Eq for SpaRectangle {}

impl Default for SpaRectangle {
    fn default() -> (r: SpaRectangle)
        ensures
            r.width == 0 && r.height == 0,
    {
        SpaRectangle { width: 0, height: 0 }
    }
}

impl From<(u32, u32)> for SpaRectangle {
    fn from(value: (u32, u32)) -> (r: SpaRectangle) {
        SpaRectangle { width: value.0, height: value.1 }
    }
}

impl FromSpecImpl<(u32, u32)> for SpaRectangle {
    open spec fn obeys_from_spec() -> bool {
        true
    }

    open spec fn from_spec(value: (u32, u32)) -> SpaRectangle {
        SpaRectangle { width: value.0, height: value.1 }
    }
}

impl From<SpaRectangle> for (u32, u32) {
    fn from(value: SpaRectangle) -> (r: (u32, u32)) {
        (value.width, value.height)
    }
}

impl FromSpecImpl<SpaRectangle> for (u32, u32) {
    open spec fn obeys_from_spec() -> bool {
        true
    }

    open spec fn from_spec(value: SpaRectangle) -> (u32, u32) {
        (value.width, value.height)
    }
}

impl From<[u32; 2]> for SpaRectangle {
    fn from(value: [u32; 2]) -> (r: SpaRectangle) {
        SpaRectangle { width: value[0], height: value[1] }
    }
}

impl FromSpecImpl<[u32; 2]> for SpaRectangle {
    open spec fn obeys_from_spec() -> bool {
        true
    }

    open spec fn from_spec(value: [u32; 2]) -> SpaRectangle {
        SpaRectangle { width: value[0], height: value[1] }
    }
}

impl From<SpaRectangle> for [u32; 2] {
    fn from(value: SpaRectangle) -> (r: [u32; 2]) {
        [value.width, value.height]
    }
}

impl FromSpecImpl<SpaRectangle> for [u32; 2] {
    open spec fn obeys_from_spec() -> bool {
        true
    }

    open spec fn from_spec(value: SpaRectangle) -> [u32; 2] {
        [value.width, value.height]
    }
}

impl SealPrimPod for SpaRectangle {}

impl AsBytes for SpaRectangle {
    open spec fn spec_bytes(&self) -> Seq<u8> {
        spec_u32_to_le(self.width) + spec_u32_to_le(self.height)
    }

    fn to_bytes(&self) -> (r: Vec<u8>) {
        let mut r = Vec::new();
        write_u32_le(&mut r, self.width);
        write_u32_le(&mut r, self.height);
        assert(r@ =~= self.spec_bytes());
        r
    }
}

impl AsBytesMut for SpaRectangle {
    fn write_bytes(&mut self, bytes: &[u8]) {
        proof {
            SpaRectangle::lemma_value_roundtrip(*self);
            assert(bytes@.subrange(0, 8) =~= bytes@);
            SpaRectangle::lemma_bytes_roundtrip(bytes@);
        }
        *self = SpaRectangle::decode(bytes, 0);
    }
}

impl PrimPod for SpaRectangle {
    type Padding = [u8; 0];

    open spec fn spec_kind() -> SpaKind {
        SpaKind::Rectangle
    }

    open spec fn spec_size() -> nat {
        8
    }

    open spec fn spec_decode(b: Seq<u8>) -> SpaRectangle {
        SpaRectangle { width: spec_u32_from_le(b), height: spec_u32_from_le(b.subrange(4, 8)) }
    }

    fn spa_kind() -> (r: SpaKind) {
        SpaKind::Rectangle
    }

    open spec fn spec_default() -> SpaRectangle {
        SpaRectangle { width: 0, height: 0 }
    }

    fn default_value() -> (r: SpaRectangle) {
        SpaRectangle { width: 0, height: 0 }
    }

    fn decode(bytes: &[u8], off: usize) -> (r: SpaRectangle) {
        let _len = bytes.len();
        let x = read_u32_le(bytes, off);
        let y = read_u32_le(bytes, off + 4);
        proof {
            let c = bytes@.subrange(off as int, off + 8);
            assert(c.subrange(0, 4) =~= bytes@.subrange(off as int, off + 4));
            assert(c.subrange(4, 8) =~= bytes@.subrange(off + 4, off + 8));
        }
        SpaRectangle { width: x, height: y }
    }

    proof fn lemma_layout() {
        lemma_align8_of_primitive_sizes();
        assert(<[u8; 0] as PrimPad>::spec_len() == 0);
    }

    proof fn lemma_value_roundtrip(v: SpaRectangle) {
        let h = SpaHeader { size: v.width, kind: v.height };
        lemma_header_roundtrip(h, Seq::<u8>::empty());
        assert(h.spec_bytes() + Seq::<u8>::empty() =~= v.spec_bytes());
    }

    proof fn lemma_bytes_roundtrip(b: Seq<u8>) {
        lemma_u32_le_bytes_roundtrip(b);
        lemma_u32_le_bytes_roundtrip(b.subrange(4, 8));
        assert(b.subrange(4, 8).subrange(0, 4) =~= b.subrange(4, 8));
        assert(b =~= b.subrange(0, 4) + b.subrange(4, 8));
    }
}

} // verus!
