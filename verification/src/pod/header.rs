//! The header at the start of every SPA POD.

use vstd::prelude::*;

use crate::mem::{AsBytes, AsBytesMut};
use crate::pod::codec::{
    lemma_u32_le_bytes_roundtrip, lemma_u32_le_roundtrip, read_u32_le, spec_u32_from_le,
    spec_u32_to_le, write_u32_le,
};
use crate::pod::kind::SpaKind;

verus! {

/// `x` rounded up to a multiple of eight.
pub open spec fn spec_align8(x: int) -> int {
    (x + 7) / 8 * 8
}

/// `x` rounded up to a multiple of eight, if that still fits a `u32`.
pub open spec fn spec_checked_align8(x: u32) -> Option<u32> {
    if spec_align8(x as int) <= u32::MAX {
        Some(spec_align8(x as int) as u32)
    } else {
        None
    }
}

/// The aligned sizes of the primitive kinds.
pub proof fn lemma_align8_of_primitive_sizes()
    ensures
        spec_align8(0) == 0,
        spec_align8(4) == 8,
        spec_align8(8) == 8,
        spec_align8(16) == 16,
{
    assert(spec_align8(0) == 0);
    assert(spec_align8(4) == 8);
    assert(spec_align8(8) == 8);
    assert(spec_align8(16) == 16);
}

/// Round `x` up to the next multiple of eight, if that fits a `u32`.
pub fn checked_align8(x: u32) -> (r: Option<u32>)
    ensures
        r == spec_checked_align8(x),
        r is None <==> x > 0xffff_fff8,
        r matches Some(s) ==> s % 8 == 0 && x <= s < x + 8,
{
    if x > 0xffff_fff8 {
        None
    } else {
        Some((x + 7) / 8 * 8)
    }
}

/// A header that is at the start of every SPA POD, storing the size of the payload,
/// and what kind of POD it is.
#[derive(Debug, Clone, Copy, PartialEq, Eq, Structural, PartialOrd, Ord, Hash)]
pub struct SpaHeader {
    /// The size of the POD, excluding this header, in bytes, excluding padding.
    ///
    /// This is not the stride of the POD: the stride is the size aligned up to a
    /// multiple of eight (see [`SpaHeader::stride`]).
    pub size: u32,
    /// The kind of POD this header represents. Any `u32` may stand here; use
    /// [`SpaHeader::spa_kind`] to learn whether it is a valid kind.
    pub kind: u32,
}

impl SpaHeader {
    /// The header that the first eight bytes of `b` stand for.
    pub open spec fn spec_parse(b: Seq<u8>) -> SpaHeader {
        SpaHeader { size: spec_u32_from_le(b), kind: spec_u32_from_le(b.subrange(4, 8)) }
    }

    /// A `SpaHeader` corresponding to the `None` POD type ([`SpaKind::Nil`]).
    ///
    /// This is the default value.
    pub fn none() -> (r: SpaHeader)
        ensures
            r.size == 0,
            r.kind == SpaKind::Nil.value(),
    {
        SpaHeader { size: 0, kind: SpaKind::Nil.as_u32() }
    }

    /// Create a [`SpaHeader`] for a given [`SpaKind`], given it's a primitive
    /// [`SpaKind`]: its size is the constant size of the kind.
    pub fn from_spa_kind(spa_kind: SpaKind) -> (r: Option<SpaHeader>)
        ensures
            r is Some <==> spa_kind.size_of_kind() is Some,
            r matches Some(h) ==> h.kind == spa_kind.value() && Some(h.size)
                == spa_kind.size_of_kind(),
    {
        match spa_kind.expected_size() {
            Some(size) => Some(SpaHeader { kind: spa_kind.as_u32(), size }),
            None => None,
        }
    }

    /// Get the [`SpaKind`] of this header, if it is valid.
    pub fn spa_kind(&self) -> (r: Option<SpaKind>)
        ensures
            r is Some <==> 1 <= self.kind <= 20,
            r matches Some(k) ==> k.value() == self.kind,
    {
        SpaKind::from_u32(self.kind)
    }

    /// Returns the expected size for this header: that of its kind, if the
    /// kind is valid and primitive.
    pub fn expected_size(&self) -> (r: Option<u32>)
        ensures
            r == (match SpaKind::spec_from_u32(self.kind) {
                Some(k) => k.size_of_kind(),
                None => None,
            }),
    {
        match self.spa_kind() {
            Some(spa_kind) => spa_kind.expected_size(),
            None => None,
        }
    }

    /// Calculate the stride of the POD this header represents, aligning the
    /// size to 8-byte boundaries.
    pub fn stride(&self) -> (r: Option<u32>)
        ensures
            r == spec_checked_align8(self.size),
    {
        checked_align8(self.size)
    }

    /// Calculate the expected stride of the POD this represents: its expected
    /// size aligned to 8-byte boundaries.
    pub fn expected_stride(&self) -> (r: Option<u32>)
        ensures
            r == (match SpaKind::spec_from_u32(self.kind) {
                Some(k) => match k.size_of_kind() {
                    Some(s) => spec_checked_align8(s),
                    None => None,
                },
                None => None,
            }),
    {
        match self.expected_size() {
            Some(size) => checked_align8(size),
            None => None,
        }
    }

    /// Parse a [`SpaHeader`] from the front of `bytes`, returning it with the
    /// bytes that follow it.
    ///
    /// Returns `None` if there are fewer than eight bytes.
    pub fn split_bytes(bytes: &[u8]) -> (r: Option<(SpaHeader, &[u8])>)
        ensures
            r is Some <==> bytes@.len() >= 8,
            r matches Some((h, rest)) ==> h == SpaHeader::spec_parse(bytes@) && rest@
                == bytes@.skip(8),
    {
        if bytes.len() < 8 {
            None
        } else {
            let size = read_u32_le(bytes, 0);
            let kind = read_u32_le(bytes, 4);
            let rest = vstd::slice::slice_subrange(bytes, 8, bytes.len());
            proof {
                assert(rest@ =~= bytes@.skip(8));
                assert(spec_u32_from_le(bytes@.subrange(0, 4)) == spec_u32_from_le(bytes@));
            }
            Some((SpaHeader { size, kind }, rest))
        }
    }

    /// Parse a [`SpaHeader`] from the front of `bytes`.
    ///
    /// Returns `None` if there are fewer than eight bytes.
    pub fn from_bytes(bytes: &[u8]) -> (r: Option<SpaHeader>)
        ensures
            r is Some <==> bytes@.len() >= 8,
            r matches Some(h) ==> h == SpaHeader::spec_parse(bytes@),
    {
        match SpaHeader::split_bytes(bytes) {
            Some((header, _)) => Some(header),
            None => None,
        }
    }

    /// Parse a [`SpaHeader`] in place from the front of `bytes`, returning a
    /// mutable view of it with the bytes that follow it.
    ///
    /// Returns `None` if there are fewer than eight bytes. What is written
    /// through the view lands on the first eight bytes of `bytes`, and what
    /// is written through the rest lands after them.
    pub fn split_bytes_mut(bytes: &mut [u8]) -> (r: Option<(SpaHeaderMut<'_>, &mut [u8])>)
        ensures
            r is Some <==> old(bytes)@.len() >= 8,
            r matches Some((h, rest)) ==> h.wf() && h@ == SpaHeader::spec_parse(old(bytes)@)
                && h.bytes@ == old(bytes)@.subrange(0, 8) && rest@ == old(bytes)@.skip(8)
                && final(bytes)@ == final(h.bytes)@ + final(rest)@,
            r is None ==> final(bytes)@ == old(bytes)@,
    {
        if bytes.len() < 8 {
            None
        } else {
            let ghost b = bytes@;
            let (head, rest) = bytes.split_at_mut(8);
            proof {
                assert(rest@ =~= b.skip(8));
                assert(head@.subrange(0, 4) =~= b.subrange(0, 4));
                assert(head@.subrange(4, 8) =~= b.subrange(4, 8));
            }
            Some((SpaHeaderMut { bytes: head }, rest))
        }
    }

    /// Parse a [`SpaHeader`] in place from the front of `bytes`, returning a
    /// mutable view of it.
    ///
    /// Returns `None` if there are fewer than eight bytes. What is written
    /// through the view lands on the first eight bytes of `bytes`; the others
    /// stay as they were.
    pub fn from_bytes_mut(bytes: &mut [u8]) -> (r: Option<SpaHeaderMut<'_>>)
        ensures
            r is Some <==> old(bytes)@.len() >= 8,
            r matches Some(h) ==> h.wf() && h@ == SpaHeader::spec_parse(old(bytes)@) && h.bytes@
                == old(bytes)@.subrange(0, 8) && final(bytes)@ == final(h.bytes)@ + old(
                bytes,
            )@.skip(8),
            r is None ==> final(bytes)@ == old(bytes)@,
    {
        match SpaHeader::split_bytes_mut(bytes) {
            Some((header, _)) => Some(header),
            None => None,
        }
    }
}

impl Default for SpaHeader {
    fn default() -> (r: SpaHeader)
        ensures
            r.size == 0,
            r.kind == SpaKind::Nil.value(),
    {
        SpaHeader::none()
    }
}

impl AsBytes for SpaHeader {
    open spec fn spec_bytes(&self) -> Seq<u8> {
        spec_u32_to_le(self.size) + spec_u32_to_le(self.kind)
    }

    fn to_bytes(&self) -> (r: Vec<u8>) {
        let mut r = Vec::new();
        write_u32_le(&mut r, self.size);
        write_u32_le(&mut r, self.kind);
        assert(r@ =~= self.spec_bytes());
        r
    }
}

impl AsBytesMut for SpaHeader {
    fn write_bytes(&mut self, bytes: &[u8]) {
        proof {
            lemma_u32_le_roundtrip(self.size, spec_u32_to_le(self.kind));
            lemma_u32_le_roundtrip(self.kind, Seq::<u8>::empty());
        }
        let h = SpaHeader { size: read_u32_le(bytes, 0), kind: read_u32_le(bytes, 4) };
        *self = h;
        proof {
            lemma_u32_le_bytes_roundtrip(bytes@.subrange(0, 4));
            lemma_u32_le_bytes_roundtrip(bytes@.subrange(4, 8));
            assert(bytes@.subrange(0, 4).subrange(0, 4) =~= bytes@.subrange(0, 4));
            assert(bytes@.subrange(4, 8).subrange(0, 4) =~= bytes@.subrange(4, 8));
            assert(bytes@ =~= bytes@.subrange(0, 4) + bytes@.subrange(4, 8));
        }
    }
}

/// A mutable view of a [`SpaHeader`] that lies in a byte buffer: its eight
/// bytes.
pub struct SpaHeaderMut<'a> {
    /// The bytes of the header.
    pub bytes: &'a mut [u8],
}

impl<'a> View for SpaHeaderMut<'a> {
    type V = SpaHeader;

    open spec fn view(&self) -> SpaHeader {
        SpaHeader::spec_parse(self.bytes@)
    }
}

impl<'a> SpaHeaderMut<'a> {
    /// The view holds exactly the eight bytes of a header.
    pub open spec fn wf(&self) -> bool {
        self.bytes@.len() == 8
    }

    /// The header that the bytes stand for.
    pub fn get(&self) -> (r: SpaHeader)
        requires
            self.wf(),
        ensures
            r == self@,
    {
        SpaHeader::from_bytes(&*self.bytes).unwrap()
    }

    /// Overwrite the bytes with those of `header`. The view keeps writing to
    /// the same buffer: what it holds when it is done is what the buffer
    /// gets.
    pub fn set(&mut self, header: SpaHeader)
        requires
            old(self).wf(),
        ensures
            final(self).wf(),
            final(self).bytes@ == header.spec_bytes(),
            final(self)@ == header,
            final(final(self).bytes)@ == final(old(self).bytes)@,
    {
        let b = header.to_bytes();
        proof {
            lemma_header_roundtrip(header, Seq::<u8>::empty());
        }
        let mut k: usize = 0;
        while k < 8
            invariant
                k <= 8,
                old(self).bytes@.len() == 8,
                b@ == header.spec_bytes(),
                b@.len() == 8,
                final(self.bytes)@ == final(old(self).bytes)@,
                self.bytes@ == b@.subrange(0, k as int) + old(self).bytes@.skip(k as int),
            decreases 8 - k,
        {
            self.bytes[k] = b[k];
            k = k + 1;
            assert(self.bytes@ =~= b@.subrange(0, k as int) + old(self).bytes@.skip(k as int));
        }
        proof {
            assert(self.bytes@ =~= header.spec_bytes() + Seq::<u8>::empty());
        }
    }
}

/// The bytes of a header, followed by anything, parse back to that header and
/// leave exactly what followed.
pub proof fn lemma_header_roundtrip(h: SpaHeader, rest: Seq<u8>)
    ensures
        h.spec_bytes().len() == 8,
        SpaHeader::spec_parse(h.spec_bytes() + rest) == h,
        (h.spec_bytes() + rest).skip(8) == rest,
{
    let b = h.spec_bytes() + rest;
    lemma_u32_le_roundtrip(h.size, spec_u32_to_le(h.kind) + rest);
    assert(b =~= spec_u32_to_le(h.size) + (spec_u32_to_le(h.kind) + rest));
    lemma_u32_le_roundtrip(h.kind, Seq::<u8>::empty());
    assert(b.subrange(4, 8) =~= spec_u32_to_le(h.kind) + Seq::<u8>::empty());
    assert(b.skip(8) =~= rest);
}

} // verus!
