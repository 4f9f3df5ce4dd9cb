//! Arrays of primitive PODs.

use core::marker::PhantomData;

use vstd::prelude::*;

use crate::mem::AsBytes;
use crate::pod::codec::read_u32_le;
use crate::pod::error::{PodError, MAX_SIZE};
use crate::pod::header::{checked_align8, lemma_header_roundtrip, spec_align8, SpaHeader};
use crate::pod::kind::SpaKind;
use crate::pod::primitive::{AsPrimPod, PrimPod};

verus! {

/// The largest number of elements of `P` that a [`SpaSlice`] may hold: as many
/// as fit in [`MAX_SIZE`] bytes, or `u32::MAX` for zero-sized primitives.
pub open spec fn spec_max_len<P: PrimPod>() -> nat {
    if P::spec_size() == 0 {
        u32::MAX as nat
    } else {
        (MAX_SIZE / (P::spec_size() as u32)) as nat
    }
}

/// A slice of the largest length allowed still fits in [`MAX_SIZE`] bytes.
pub proof fn lemma_max_len_fits_max_size<P: PrimPod>()
    ensures
        spec_max_len::<P>() * P::spec_size() <= MAX_SIZE,
        spec_max_len::<P>() <= u32::MAX,
{
    P::lemma_layout();
    lemma_max_len_fits::<P>();
    if P::spec_size() != 0 {
        let d = P::spec_size() as u32;
        assert((MAX_SIZE / d) * d <= MAX_SIZE) by (nonlinear_arith)
            requires
                d > 0,
        ;
    }
}

/// The value of `P` whose bytes are the `i`-th chunk of `P::spec_size()` bytes
/// after `start` in `b`.
pub open spec fn spec_element_at<P: PrimPod>(b: Seq<u8>, start: int, i: int) -> P {
    P::spec_decode(
        b.subrange(start + i * P::spec_size(), start + i * P::spec_size() + P::spec_size()),
    )
}

/// What decoding an array of `P` from the front of `b` gives: its elements and
/// where the bytes after it start, or the error.
///
/// An array POD is a header of kind `Array`, whose size counts the element
/// header and the elements, then the header of the elements (their kind and
/// size), then the elements, padded to a multiple of eight bytes.
pub open spec fn spec_decode_array<P: PrimPod>(b: Seq<u8>) -> Result<(Seq<P>, int), PodError> {
    if b.len() < 16 {
        Err(PodError::InsufficientSpace)
    } else {
        let pod = SpaHeader::spec_parse(b);
        let elem = SpaHeader::spec_parse(b.subrange(8, 16));
        let size = P::spec_size();
        if pod.kind != SpaKind::Array.value() || elem.kind != P::spec_kind().value() {
            Err(PodError::InvalidKind)
        } else if pod.size > MAX_SIZE || elem.size != size {
            Err(PodError::InvalidSize)
        } else if pod.size < 8 {
            Err(PodError::InvalidSize)
        } else {
            let array_size = pod.size - 8;
            if (size == 0 && array_size != 0) || (size != 0 && array_size % (size as int) != 0) {
                Err(PodError::InvalidSize)
            } else {
                let len: int = if size == 0 {
                    0
                } else {
                    array_size / (size as int)
                };
                let padded = spec_align8(array_size);
                if b.len() - 16 < padded {
                    Err(PodError::InsufficientSpace)
                } else {
                    Ok((Seq::new(len as nat, |i: int| spec_element_at::<P>(b, 16, i)), 16 + padded))
                }
            }
        }
    }
}

/// The bytes of the elements of `s`, one after the other.
pub open spec fn spec_prims_bytes<P: PrimPod>(s: Seq<P>) -> Seq<u8>
    decreases s.len(),
{
    if s.len() == 0 {
        Seq::empty()
    } else {
        spec_prims_bytes(s.drop_last()) + s.last().spec_bytes()
    }
}

/// The bytes of `s` are its elements' bytes, each `P::spec_size()` long, at
/// consecutive offsets.
pub proof fn lemma_prims_bytes<P: PrimPod>(s: Seq<P>)
    ensures
        spec_prims_bytes(s).len() == s.len() * P::spec_size(),
        forall|i: int|
            0 <= i < s.len() ==> spec_prims_bytes(s).subrange(
                i * P::spec_size(),
                i * P::spec_size() + P::spec_size(),
            ) == (#[trigger] s[i]).spec_bytes(),
    decreases s.len(),
{
    let size = P::spec_size() as int;
    if s.len() == 0 {
        assert(s.len() * P::spec_size() == 0);
    } else {
        let init = s.drop_last();
        lemma_prims_bytes(init);
        P::lemma_value_roundtrip(s.last());
        let b = spec_prims_bytes(s);
        let n = s.len() as int;
        assert(init.len() * size + size == n * size) by (nonlinear_arith)
            requires
                init.len() == n - 1,
        ;
        assert forall|i: int| 0 <= i < s.len() implies b.subrange(i * size, i * size + size)
            == (#[trigger] s[i]).spec_bytes() by {
            if i < n - 1 {
                lemma_chunk_in_bounds(i, n - 1, size);
                assert(b.subrange(i * size, i * size + size) =~= spec_prims_bytes(init).subrange(
                    i * size,
                    i * size + size,
                ));
                assert(init[i] == s[i]);
            } else {
                assert(i * size == init.len() * size);
                assert(b.subrange(i * size, i * size + size) =~= s.last().spec_bytes());
            }
        }
    }
}

/// The headers of an array POD that holds the elements `s`, then the elements,
/// then `pad` (the padding to eight bytes), then `rest`.
pub open spec fn spec_array_pod_bytes<P: PrimPod>(s: Seq<P>, pad: Seq<u8>, rest: Seq<u8>) -> Seq<
    u8,
> {
    let pod = SpaHeader {
        size: (8 + s.len() * P::spec_size()) as u32,
        kind: SpaKind::Array.value(),
    };
    let elem = SpaHeader { size: P::spec_size() as u32, kind: P::spec_kind().value() };
    pod.spec_bytes() + elem.spec_bytes() + spec_prims_bytes(s) + pad + rest
}

/// Decoding an array POD gives back the elements it was written with, and
/// leaves the bytes that follow it untouched: the headers of the array and of
/// its elements, the elements' bytes and a padding to a multiple of eight
/// bytes decode to exactly those elements, followed by `rest`.
///
/// An array of zero-sized elements carries no length, so for those the law
/// holds of the empty array only.
pub proof fn lemma_array_roundtrip<P: PrimPod>(s: Seq<P>, pad: Seq<u8>, rest: Seq<u8>)
    requires
        P::spec_size() > 0 || s.len() == 0,
        8 + s.len() * P::spec_size() <= MAX_SIZE,
        pad.len() == spec_align8((s.len() * P::spec_size()) as int) - s.len() * P::spec_size(),
    ensures
        spec_decode_array::<P>(spec_array_pod_bytes(s, pad, rest)) == Ok::<(Seq<P>, int), PodError>(
            (s, 16 + spec_align8((s.len() * P::spec_size()) as int)),
        ),
        spec_array_pod_bytes(s, pad, rest).skip(16 + spec_align8((s.len() * P::spec_size()) as int))
            == rest,
{
    P::lemma_layout();
    let size = P::spec_size() as int;
    let len = s.len() as int;
    let array_size = len * size;
    let pod = SpaHeader { size: (8 + array_size) as u32, kind: SpaKind::Array.value() };
    let elem = SpaHeader { size: size as u32, kind: P::spec_kind().value() };
    let body = spec_prims_bytes(s);
    let tail = elem.spec_bytes() + body + pad + rest;
    let b = spec_array_pod_bytes(s, pad, rest);
    lemma_prims_bytes(s);
    assert(b =~= pod.spec_bytes() + tail);
    lemma_header_roundtrip(pod, tail);
    lemma_header_roundtrip(elem, Seq::<u8>::empty());
    assert(b.subrange(8, 16) =~= elem.spec_bytes() + Seq::<u8>::empty());
    assert(0 <= array_size) by (nonlinear_arith)
        requires
            array_size == len * size,
            0 <= len,
            0 <= size,
    ;
    if size > 0 {
        assert(array_size % size == 0 && array_size / size == len) by (nonlinear_arith)
            requires
                size > 0,
                array_size == len * size,
                0 <= len,
        ;
    }
    let padded = spec_align8(array_size);
    assert(b.len() == 16 + array_size + pad.len() + rest.len());
    let elems = Seq::new(len as nat, |i: int| spec_element_at::<P>(b, 16, i));
    assert forall|i: int| 0 <= i < len implies #[trigger] elems[i] == s[i] by {
        lemma_chunk_in_bounds(i, len, size);
        assert(b.subrange(16 + i * size, 16 + i * size + size) =~= body.subrange(
            i * size,
            i * size + size,
        ));
        P::lemma_value_roundtrip(s[i]);
    }
    assert(elems =~= s);
    assert(b.skip(16 + padded) =~= rest);
}

/// What a successful decoding of an array of `P` says of its bytes: the POD
/// header is of kind `Array` and within [`MAX_SIZE`], the element header
/// names exactly `P`'s kind and size, the POD's size counts the element
/// header and the elements, the array with its padding lies within the
/// buffer, and each element is the value whose bytes stand at its place. So
/// a buffer whose headers name another kind is refused with
/// [`PodError::InvalidKind`], whatever the sizes of the two kinds.
pub proof fn lemma_decode_array_accepts<P: PrimPod>(b: Seq<u8>)
    ensures
        b.len() >= 16 && SpaHeader::spec_parse(b).kind != SpaKind::Array.value()
            ==> spec_decode_array::<P>(b) == Err::<(Seq<P>, int), PodError>(PodError::InvalidKind),
        b.len() >= 16 && SpaHeader::spec_parse(b.subrange(8, 16)).kind != P::spec_kind().value()
            ==> spec_decode_array::<P>(b) == Err::<(Seq<P>, int), PodError>(PodError::InvalidKind),
        spec_decode_array::<P>(b) matches Ok((elems, end)) ==> {
            let pod = SpaHeader::spec_parse(b);
            let elem = SpaHeader::spec_parse(b.subrange(8, 16));
            let size = P::spec_size() as int;
            &&& pod.kind == SpaKind::Array.value()
            &&& elem.kind == P::spec_kind().value()
            &&& elem.size == size
            &&& pod.size <= MAX_SIZE
            &&& pod.size == 8 + elems.len() * size
            &&& end == 16 + spec_align8(elems.len() * size)
            &&& end <= b.len()
            &&& forall|i: int|
                0 <= i < elems.len() ==> (#[trigger] elems[i]).spec_bytes() == b.subrange(
                    16 + i * size,
                    16 + i * size + size,
                )
        },
{
    P::lemma_layout();
    if spec_decode_array::<P>(b) is Ok {
        let elems = spec_decode_array::<P>(b)->Ok_0.0;
        let size = P::spec_size() as int;
        let pod = SpaHeader::spec_parse(b);
        let array_size = pod.size - 8;
        let len = elems.len() as int;
        if size > 0 {
            assert(len * size == array_size) by (nonlinear_arith)
                requires
                    size > 0,
                    array_size % size == 0,
                    len == array_size / size,
            ;
        }
        assert forall|i: int| 0 <= i < elems.len() implies (#[trigger] elems[i]).spec_bytes()
            == b.subrange(16 + i * size, 16 + i * size + size) by {
            lemma_chunk_in_bounds(i, len, size);
            P::lemma_bytes_roundtrip(b.subrange(16 + i * size, 16 + i * size + size));
        }
    }
}

/// A slice of SPA POD primitives.
///
/// Its size in bytes never exceeds [`MAX_SIZE`], so its length never exceeds
/// [`SpaSlice::max_len`].
pub struct SpaSlice<P: PrimPod> {
    prims: Vec<P>,
}

impl<P: PrimPod> View for SpaSlice<P> {
    type V = Seq<P>;

    closed spec fn view(&self) -> Seq<P> {
        self.prims@
    }
}

/// The maximum length of a slice fits a `u32`.
proof fn lemma_max_len_fits<P: PrimPod>()
    ensures
        spec_max_len::<P>() <= u32::MAX,
{
    P::lemma_layout();
    if P::spec_size() != 0 {
        let d = P::spec_size() as u32;
        assert(MAX_SIZE / d <= MAX_SIZE) by (nonlinear_arith)
            requires
                d > 0,
        ;
    }
}

proof fn lemma_chunk_in_bounds(i: int, len: int, size: int)
    requires
        0 <= i < len,
        0 <= size,
    ensures
        i * size + size == (i + 1) * size,
        (i + 1) * size <= len * size,
        0 <= i * size,
{
    assert(i * size + size == (i + 1) * size) by (nonlinear_arith);
    assert((i + 1) * size <= len * size) by (nonlinear_arith)
        requires
            i + 1 <= len,
            0 <= size,
    ;
    assert(0 <= i * size) by (nonlinear_arith)
        requires
            0 <= i,
            0 <= size,
    ;
}

impl<P: PrimPod> SpaSlice<P> {
    /// Its length stays within [`SpaSlice::max_len`].
    #[verifier::type_invariant]
    closed spec fn wf(&self) -> bool {
        self.prims@.len() <= spec_max_len::<P>()
    }

    /// The maximum length of this kind of slice.
    pub fn max_len() -> (r: u32)
        ensures
            r == spec_max_len::<P>(),
    {
        let size = P::size();
        if size == 0 {
            u32::MAX
        } else {
            MAX_SIZE / size
        }
    }

    /// An empty [`SpaSlice`].
    pub fn empty() -> (r: Self)
        ensures
            r@ == Seq::<P>::empty(),
    {
        SpaSlice { prims: Vec::new() }
    }

    /// Returns the length of this slice, as a `u32`.
    pub fn len(&self) -> (r: u32)
        ensures
            r == self@.len(),
            r <= spec_max_len::<P>(),
    {
        proof {
            use_type_invariant(self);
            lemma_max_len_fits::<P>();
        }
        self.prims.len() as u32
    }

    /// Returns whether this slice is empty.
    pub fn is_empty(&self) -> (r: bool)
        ensures
            r == (self@.len() == 0),
    {
        self.len() == 0
    }

    /// Borrow the underlying slice of primitives.
    pub fn as_prims(&self) -> (r: &[P])
        ensures
            r@ == self@,
    {
        self.prims.as_slice()
    }

    /// Replace the element at `index` with `value`.
    pub fn set(&mut self, index: usize, value: P)
        requires
            index < old(self)@.len(),
        ensures
            final(self)@ == old(self)@.update(index as int, value),
    {
        proof {
            use_type_invariant(&*self);
        }
        let mut prims: Vec<P> = Vec::new();
        core::mem::swap(&mut prims, &mut self.prims);
        prims.set(index, value);
        self.prims = prims;
    }

    /// The element at `index`.
    pub fn index(&self, index: usize) -> (r: &P)
        requires
            index < self@.len(),
        ensures
            *r == self@[index as int],
    {
        &self.prims[index]
    }

    /// The elements from `start` up to, but not including, `end`, as a slice
    /// of their own.
    pub fn index_range(&self, start: usize, end: usize) -> (r: Self)
        requires
            start <= end <= self@.len(),
        ensures
            r@ == self@.subrange(start as int, end as int),
    {
        proof {
            use_type_invariant(self);
        }
        let mut v: Vec<P> = Vec::new();
        let mut i: usize = start;
        while i < end
            invariant
                start <= i <= end <= self@.len(),
                self@.len() <= spec_max_len::<P>(),
                v@ == self@.subrange(start as int, i as int),
            decreases end - i,
        {
            v.push(self.prims[i]);
            i = i + 1;
            assert(v@ =~= self@.subrange(start as int, i as int));
        }
        SpaSlice { prims: v }
    }

    /// Attempt to construct a [`SpaSlice`] from a slice of things that can be
    /// treated as primitives.
    ///
    /// Returns [`PodError::InvalidSize`] if the slice is longer than
    /// [`SpaSlice::max_len`], so not representable in the PipeWire protocol.
    pub fn from_prims<T: AsPrimPod<P>>(prims: &[T]) -> (r: Result<Self, PodError>)
        ensures
            r is Ok <==> prims@.len() <= spec_max_len::<P>(),
            r is Err ==> r == Err::<Self, PodError>(PodError::InvalidSize),
            r matches Ok(s) ==> s@.len() == prims@.len() && forall|i: int|
                0 <= i < prims@.len() ==> (#[trigger] s@[i]).spec_bytes()
                    == prims@[i].spec_bytes(),
    {
        if prims.len() > SpaSlice::<P>::max_len() as usize {
            return Err(PodError::InvalidSize);
        }
        let mut v: Vec<P> = Vec::new();
        let mut i: usize = 0;
        while i < prims.len()
            invariant
                i <= prims@.len(),
                prims@.len() <= spec_max_len::<P>(),
                v@.len() == i,
                forall|j: int| 0 <= j < i ==> (#[trigger] v@[j]).spec_bytes() == prims@[j].spec_bytes(),
            decreases prims@.len() - i,
        {
            v.push(prims[i].to_prim());
            i = i + 1;
        }
        Ok(SpaSlice { prims: v })
    }

    /// Check the headers of an array of `P` at the front of `bytes`, giving its
    /// length and the size of its padded body, or the error of
    /// [`spec_decode_array`].
    fn check_array(bytes: &[u8]) -> (r: Result<(u32, u32), PodError>)
        ensures
            match spec_decode_array::<P>(bytes@) {
                Ok((elems, end)) => r matches Ok((len, padded)) && len == elems.len() && end == 16
                    + padded && len * P::spec_size() <= padded && 16 + padded <= bytes@.len()
                    && len * P::spec_size() <= MAX_SIZE && padded == spec_align8(
                    (len * P::spec_size()) as int,
                ) && len <= spec_max_len::<P>(),
                Err(e) => r == Err::<(u32, u32), PodError>(e),
            },
    {
        let n = bytes.len();
        if n < 16 {
            return Err(PodError::InsufficientSpace);
        }
        let pod_size = read_u32_le(bytes, 0);
        let pod_kind = read_u32_le(bytes, 4);
        let elem_size = read_u32_le(bytes, 8);
        let elem_kind = read_u32_le(bytes, 12);
        proof {
            assert(bytes@.subrange(8, 16).subrange(0, 4) =~= bytes@.subrange(8, 12));
            assert(bytes@.subrange(8, 16).subrange(4, 8) =~= bytes@.subrange(12, 16));
        }
        let size = P::size();
        if pod_kind != SpaKind::Array.as_u32() || elem_kind != P::kind() {
            return Err(PodError::InvalidKind);
        } else if pod_size > MAX_SIZE || elem_size != size {
            return Err(PodError::InvalidSize);
        }
        if pod_size < 8 {
            return Err(PodError::InvalidSize);
        }
        let array_size = pod_size - 8;
        let len: u32 = if size == 0 {
            if array_size == 0 {
                0
            } else {
                return Err(PodError::InvalidSize);
            }
        } else {
            if array_size % size == 0 {
                array_size / size
            } else {
                return Err(PodError::InvalidSize);
            }
        };
        let padded = checked_align8(array_size).unwrap();
        if n - 16 < padded as usize {
            return Err(PodError::InsufficientSpace);
        }
        proof {
            if size != 0 {
                assert(len * size == array_size) by (nonlinear_arith)
                    requires
                        size > 0,
                        array_size % size == 0,
                        len == array_size / size,
                ;
                assert(len <= MAX_SIZE / size) by (nonlinear_arith)
                    requires
                        size > 0,
                        len == array_size / size,
                        array_size <= MAX_SIZE,
                ;
            }
        }
        Ok((len, padded))
    }

    /// Attempt to decode an array of `P` from the front of `bytes`, returning
    /// it with the bytes that follow it (its padding excluded).
    ///
    /// The errors are those of [`spec_decode_array`]: too few bytes give
    /// [`PodError::InsufficientSpace`], a header of the wrong kind
    /// [`PodError::InvalidKind`], and a size that exceeds [`MAX_SIZE`], does
    /// not match the element size, or is not a whole number of elements,
    /// [`PodError::InvalidSize`].
    pub fn decode(bytes: &[u8]) -> (r: Result<(Self, &[u8]), PodError>)
        ensures
            match spec_decode_array::<P>(bytes@) {
                Ok((elems, end)) => r matches Ok((s, rest)) && s@ == elems && rest@ == bytes@.skip(
                    end,
                ),
                Err(e) => r == Err::<(Self, &[u8]), PodError>(e),
            },
    {
        let n = bytes.len();
        let (len, padded) = match Self::check_array(bytes) {
            Ok(v) => v,
            Err(e) => return Err(e),
        };
        let size = P::size();
        let ghost array_size = len * size;
        let ghost elems = Seq::new(len as nat, |i: int| spec_element_at::<P>(bytes@, 16, i));
        let mut v: Vec<P> = Vec::new();
        let mut i: u32 = 0;
        let mut off: usize = 16;
        while i < len
            invariant
                n == bytes@.len(),
                size == P::spec_size(),
                i <= len,
                len * size == array_size,
                16 + array_size <= n,
                off == 16 + i * size,
                v@.len() == i,
                forall|j: int| 0 <= j < i ==> v@[j] == #[trigger] elems[j],
                elems == Seq::new(len as nat, |k: int| spec_element_at::<P>(bytes@, 16, k)),
            decreases len - i,
        {
            proof {
                lemma_chunk_in_bounds(i as int, len as int, size as int);
            }
            let e = P::decode(bytes, off);
            v.push(e);
            off = off + size as usize;
            i = i + 1;
        }
        proof {
            assert(v@ =~= elems);
            if size == 0 {
                assert(len == 0);
            }
        }
        let rest = vstd::slice::slice_subrange(bytes, 16 + padded as usize, n);
        proof {
            assert(rest@ =~= bytes@.skip(16 + padded));
        }
        Ok((SpaSlice { prims: v }, rest))
    }

    /// Attempt to decode an array of `P` from the front of `bytes` in place,
    /// returning a mutable view of its elements with the bytes that follow it
    /// (its padding excluded).
    ///
    /// The checks and errors are those of [`SpaSlice::decode`]. What is
    /// written through the view lands on the elements' bytes in `bytes`, and
    /// what is written through the rest lands after the array; the headers
    /// and the padding stay as they were.
    pub fn decode_mut(bytes: &mut [u8]) -> (r: Result<(SpaSliceMut<'_, P>, &mut [u8]), PodError>)
        ensures
            match spec_decode_array::<P>(old(bytes)@) {
                Ok((elems, end)) => {
                    let body_end: int = (16 + elems.len() * P::spec_size()) as int;
                    r matches Ok((s, rest)) && s.wf() && s@ == elems
                        && s.body@ == old(bytes)@.subrange(16, body_end)
                        && rest@ == old(bytes)@.skip(end)
                        && final(bytes)@ == old(bytes)@.subrange(0, 16) + final(s.body)@
                            + old(bytes)@.subrange(body_end, end) + final(rest)@
                },
                Err(e) => r matches Err(x) && x == e && final(bytes)@ == old(bytes)@,
            },
    {
        let (len, padded) = match Self::check_array(&*bytes) {
            Ok(v) => v,
            Err(e) => return Err(e),
        };
        let size = P::size();
        let array_size = (len as usize) * (size as usize);
        let ghost b = bytes@;
        let (head, after_head) = bytes.split_at_mut(16);
        let (body, after_body) = after_head.split_at_mut(array_size);
        let (pad, rest) = after_body.split_at_mut(padded as usize - array_size);
        proof {
            assert(final(head)@ == b.subrange(0, 16));
            assert(final(pad)@ == b.subrange(16 + array_size, 16 + padded));
            assert(rest@ =~= b.skip(16 + padded));
            assert(body@ =~= b.subrange(16, 16 + array_size));
        }
        let s = SpaSliceMut { body, len, marker: PhantomData };
        proof {
            let elems = spec_decode_array::<P>(b)->Ok_0.0;
            assert forall|i: int| 0 <= i < len implies #[trigger] s@[i] == elems[i] by {
                lemma_chunk_in_bounds(i, len as int, size as int);
                assert(s.body@.subrange(0 + i * size, 0 + i * size + size) =~= b.subrange(
                    16 + i * size,
                    16 + i * size + size,
                ));
            }
            assert(s@ =~= elems);
        }
        Ok((s, rest))
    }
}

impl<P: PrimPod> AsBytes for SpaSlice<P> {
    open spec fn spec_bytes(&self) -> Seq<u8> {
        spec_prims_bytes(self@)
    }

    fn to_bytes(&self) -> (r: Vec<u8>) {
        let mut r: Vec<u8> = Vec::new();
        let mut i: usize = 0;
        while i < self.prims.len()
            invariant
                i <= self.prims@.len(),
                r@ == spec_prims_bytes(self.prims@.subrange(0, i as int)),
            decreases self.prims@.len() - i,
        {
            let mut b = self.prims[i].to_bytes();
            r.append(&mut b);
            proof {
                let t = self.prims@.subrange(0, i + 1);
                assert(t.drop_last() =~= self.prims@.subrange(0, i as int));
            }
            i = i + 1;
        }
        proof {
            assert(self.prims@.subrange(0, i as int) =~= self.prims@);
        }
        r
    }
}

impl<P: PrimPod> Default for SpaSlice<P> {
    fn default() -> (r: Self)
        ensures
            r@ == Seq::<P>::empty(),
    {
        SpaSlice::empty()
    }
}

/// A mutable view of an array of `P` that lies in a byte buffer: the bytes of
/// its elements, one after the other.
pub struct SpaSliceMut<'a, P: PrimPod> {
    /// The bytes of the elements.
    pub body: &'a mut [u8],
    /// The number of elements.
    pub len: u32,
    /// The type of the elements.
    pub marker: PhantomData<P>,
}

impl<'a, P: PrimPod> View for SpaSliceMut<'a, P> {
    type V = Seq<P>;

    open spec fn view(&self) -> Seq<P> {
        Seq::new(self.len as nat, |i: int| spec_element_at::<P>(self.body@, 0, i))
    }
}

impl<'a, P: PrimPod> SpaSliceMut<'a, P> {
    /// The body holds exactly `len` elements, and no more than a
    /// [`SpaSlice`] may hold.
    pub open spec fn wf(&self) -> bool {
        &&& self.body@.len() == self.len * P::spec_size()
        &&& self.len <= spec_max_len::<P>()
    }

    /// Returns the number of elements.
    pub fn len(&self) -> (r: u32)
        ensures
            r == self.len,
    {
        self.len
    }

    /// Returns whether there are no elements.
    pub fn is_empty(&self) -> (r: bool)
        ensures
            r == (self.len == 0),
    {
        self.len == 0
    }

    /// The element at `index`.
    pub fn index(&self, index: u32) -> (r: P)
        requires
            self.wf(),
            index < self.len,
        ensures
            r == self@[index as int],
    {
        let size = P::size();
        proof {
            lemma_chunk_in_bounds(index as int, self.len as int, size as int);
        }
        let i = index as usize;
        let sz = size as usize;
        let n = self.body.len();
        assert(i * sz <= n);
        let off = i * sz;
        let r = P::decode(&*self.body, off);
        proof {
            assert(self.body@.subrange(off as int, off + size) =~= self.body@.subrange(
                0 + index * size,
                0 + index * size + size,
            ));
        }
        r
    }

    /// A copy of the elements, as a [`SpaSlice`].
    pub fn to_slice(&self) -> (r: SpaSlice<P>)
        requires
            self.wf(),
        ensures
            r@ == self@,
    {
        let mut v: Vec<P> = Vec::new();
        let mut i: u32 = 0;
        while i < self.len
            invariant
                self.wf(),
                i <= self.len,
                v@ == self@.subrange(0, i as int),
            decreases self.len - i,
        {
            let e = self.index(i);
            v.push(e);
            i = i + 1;
            assert(v@ =~= self@.subrange(0, i as int));
        }
        assert(v@ =~= self@);
        SpaSlice { prims: v }
    }

    /// Replace the element at `index` with `value`, writing its bytes in
    /// place. The view keeps writing to the same buffer: what its body holds
    /// when it is done is what the buffer gets.
    pub fn set(&mut self, index: u32, value: P)
        requires
            old(self).wf(),
            index < old(self).len,
        ensures
            final(self).wf(),
            final(self).len == old(self).len,
            final(final(self).body)@ == final(old(self).body)@,
            final(self)@ == old(self)@.update(index as int, value),
            final(self).body@ == old(self).body@.subrange(0, index * P::spec_size())
                + value.spec_bytes() + old(self).body@.skip((index + 1) * P::spec_size()),
    {
        let size = P::size();
        let ghost old_body = self.body@;
        let ghost len = self.len as int;
        proof {
            lemma_chunk_in_bounds(index as int, len, size as int);
            P::lemma_value_roundtrip(value);
        }
        let i = index as usize;
        let sz = size as usize;
        let n = self.body.len();
        assert(i * sz + sz <= n);
        let off = i * sz;
        let bytes = value.to_bytes();
        let mut k: usize = 0;
        while k < sz
            invariant
                k <= sz,
                sz == size,
                off + sz <= n,
                n == old_body.len(),
                bytes@ == value.spec_bytes(),
                bytes@.len() == sz,
                self.len == old(self).len,
                final(self.body)@ == final(old(self).body)@,
                self.body@ == old_body.subrange(0, off as int) + bytes@.subrange(0, k as int)
                    + old_body.skip(off + k),
            decreases sz - k,
        {
            self.body[off + k] = bytes[k];
            k = k + 1;
            assert(self.body@ =~= old_body.subrange(0, off as int) + bytes@.subrange(0, k as int)
                + old_body.skip(off + k));
        }
        proof {
            assert(bytes@.subrange(0, sz as int) =~= bytes@);
            assert(off + sz == (index + 1) * size);
            let nb = self.body@;
            assert forall|j: int| 0 <= j < len implies #[trigger] self@[j] == old(self)@.update(
                index as int,
                value,
            )[j] by {
                lemma_chunk_in_bounds(j, len, size as int);
                if j == index {
                    assert(nb.subrange(0 + j * size, 0 + j * size + size) =~= value.spec_bytes());
                } else if j < index {
                    assert((j + 1) * size <= index * size) by (nonlinear_arith)
                        requires
                            j + 1 <= index,
                            0 <= size,
                    ;
                    assert(nb.subrange(0 + j * size, 0 + j * size + size) =~= old_body.subrange(
                        0 + j * size,
                        0 + j * size + size,
                    ));
                } else {
                    assert((index + 1) * size <= j * size) by (nonlinear_arith)
                        requires
                            index + 1 <= j,
                            0 <= size,
                    ;
                    assert(nb.subrange(0 + j * size, 0 + j * size + size) =~= old_body.subrange(
                        0 + j * size,
                        0 + j * size + size,
                    ));
                }
            }
            assert(self@ =~= old(self)@.update(index as int, value));
        }
    }
}

} // verus!
