//! The SPA pointer.

use vstd::prelude::*;

use crate::mem::{AsBytes, AsBytesMut};
use crate::pod::codec::{
    lemma_u32_le_bytes_roundtrip, lemma_u32_le_roundtrip, lemma_u64_le_bytes_roundtrip,
    lemma_u64_le_roundtrip, read_u32_le, read_u64_le, spec_u32_from_le, spec_u32_to_le,
    spec_u64_from_le, spec_u64_to_le, write_u32_le, write_u64_le,
};
use crate::pod::header::lemma_align8_of_primitive_sizes;
use crate::pod::kind::SpaKind;
use crate::pod::primitive::{PrimPad, PrimPod};
use crate::pod::sealed::SealPrimPod;

verus! {

/// A SPA Pointer: what it points to, and the address.
///
/// A pointer POD is always sixteen bytes: the kind, four padding bytes, and
/// eight bytes that hold the address (on 32-bit platforms, the address and
/// four more padding bytes, which are the high half of `data`).
#[derive(Clone, Copy, Debug)]
pub struct SpaPointer {
    /// The kind of what this pointer points to.
    pub kind: u32,
    /// Padding bytes after the `kind` field. They are zero in a well formed POD.
    pub kind_padding: [u8; 4],
    /// The address the pointer holds. It may be null (zero).
    pub data: u64,
}

impl SpaPointer {
    /// Get the [`SpaKind`] for what this pointer allegedly points to, if it is
    /// valid.
    pub fn spa_kind(&self) -> (r: Option<SpaKind>)
        ensures
            r == SpaKind::spec_from_u32(self.kind),
    {
        SpaKind::from_u32(self.kind)
    }

    /// Create a new [`SpaPointer`] given an address and the [`SpaKind`] of what
    /// it points to. A null pointer points to [`SpaKind::Nil`], and a non-null
    /// one to anything else.
    pub fn new(kind: SpaKind, data: u64) -> (r: SpaPointer)
        requires
            (data == 0) == (kind == SpaKind::Nil),
        ensures
            r.kind == kind.value(),
            r.kind_padding@ == seq![0u8, 0u8, 0u8, 0u8],
            r.data == data,
    {
        let r = SpaPointer { kind: kind.as_u32(), kind_padding: [0, 0, 0, 0], data };
        assert(r.kind_padding@ =~= seq![0u8, 0u8, 0u8, 0u8]);
        r
    }
}

impl Default for SpaPointer {
    fn default() -> (r: SpaPointer)
        ensures
            r.kind == SpaKind::Nil.value(),
            r.kind_padding@ == seq![0u8, 0u8, 0u8, 0u8],
            r.data == 0,
    {
        SpaPointer::new(SpaKind::Nil, 0)
    }
}

impl SealPrimPod for SpaPointer {}

impl AsBytes for SpaPointer {
    open spec fn spec_bytes(&self) -> Seq<u8> {
        spec_u32_to_le(self.kind) + self.kind_padding@ + spec_u64_to_le(self.data)
    }

    fn to_bytes(&self) -> (r: Vec<u8>) {
        let mut r = Vec::new();
        write_u32_le(&mut r, self.kind);
        let mut p = self.kind_padding.to_bytes();
        r.append(&mut p);
        write_u64_le(&mut r, self.data);
        assert(r@ =~= self.spec_bytes());
        r
    }
}

impl AsBytesMut for SpaPointer {
    fn write_bytes(&mut self, bytes: &[u8]) {
        proof {
            SpaPointer::lemma_value_roundtrip(*self);
            assert(bytes@.subrange(0, 16) =~= bytes@);
            SpaPointer::lemma_bytes_roundtrip(bytes@);
        }
        *self = SpaPointer::decode(bytes, 0);
    }
}

impl PrimPod for SpaPointer {
    type Padding = [u8; 0];

    open spec fn spec_kind() -> SpaKind {
        SpaKind::Pointer
    }

    open spec fn spec_size() -> nat {
        16
    }

    open spec fn spec_decode(b: Seq<u8>) -> SpaPointer {
        SpaPointer {
            kind: spec_u32_from_le(b),
            kind_padding: [b[4], b[5], b[6], b[7]],
            data: spec_u64_from_le(b.subrange(8, 16)),
        }
    }

    fn spa_kind() -> (r: SpaKind) {
        SpaKind::Pointer
    }

    open spec fn spec_default() -> SpaPointer {
        SpaPointer { kind: 1, kind_padding: [0u8, 0u8, 0u8, 0u8], data: 0 }
    }

    fn default_value() -> (r: SpaPointer) {
        let r = SpaPointer::default();
        assert(r.kind_padding =~= [0u8, 0u8, 0u8, 0u8]);
        r
    }

    fn decode(bytes: &[u8], off: usize) -> (r: SpaPointer) {
        let _len = bytes.len();
        let kind = read_u32_le(bytes, off);
        let kind_padding = [bytes[off + 4], bytes[off + 5], bytes[off + 6], bytes[off + 7]];
        let data = read_u64_le(bytes, off + 8);
        proof {
            let c = bytes@.subrange(off as int, off + 16);
            assert(c.subrange(0, 4) =~= bytes@.subrange(off as int, off + 4));
            assert(c.subrange(8, 16) =~= bytes@.subrange(off + 8, off + 16));
        }
        SpaPointer { kind, kind_padding, data }
    }

    proof fn lemma_layout() {
        lemma_align8_of_primitive_sizes();
        assert(<[u8; 0] as PrimPad>::spec_len() == 0);
    }

    proof fn lemma_value_roundtrip(v: SpaPointer) {
        let b = v.spec_bytes();
        lemma_u32_le_roundtrip(v.kind, v.kind_padding@ + spec_u64_to_le(v.data));
        assert(b =~= spec_u32_to_le(v.kind) + (v.kind_padding@ + spec_u64_to_le(v.data)));
        lemma_u64_le_roundtrip(v.data, Seq::<u8>::empty());
        assert(b.subrange(8, 16) =~= spec_u64_to_le(v.data) + Seq::<u8>::empty());
        let d = SpaPointer::spec_decode(b);
        assert(d.kind_padding =~= v.kind_padding);
    }

    proof fn lemma_bytes_roundtrip(b: Seq<u8>) {
        lemma_u32_le_bytes_roundtrip(b);
        lemma_u64_le_bytes_roundtrip(b.subrange(8, 16));
        assert(b.subrange(8, 16).subrange(0, 8) =~= b.subrange(8, 16));
        let d = SpaPointer::spec_decode(b);
        assert(d.kind_padding@ =~= b.subrange(4, 8));
        assert(b =~= b.subrange(0, 4) + b.subrange(4, 8) + b.subrange(8, 16));
    }
}

} // verus!
