//! Primitive PODs: those with a constant size, and their bodies.

use vstd::prelude::*;

use crate::mem::{AsBytes, AsBytesMut};
use crate::pod::header::{checked_align8, spec_align8};
use crate::pod::kind::SpaKind;
use crate::pod::sealed::{SealPrimPad, SealPrimPod};

verus! {

/// The padding that follows the value of a primitive POD in its body: no
/// bytes, or four.
pub trait PrimPad: Sized + Copy + AsBytes + AsBytesMut + SealPrimPad {
    /// The number of bytes of this padding.
    spec fn spec_len() -> nat;

    /// A padding of zero bytes only.
    fn zeroed() -> (r: Self)
        ensures
            r.spec_bytes() == Seq::new(Self::spec_len(), |i: int| 0u8),
    ;

    /// The bytes of every padding are as many as [`PrimPad::spec_len`] says,
    /// and that is zero or four.
    proof fn lemma_len(p: Self)
        ensures
            p.spec_bytes().len() == Self::spec_len(),
            Self::spec_len() == 0 || Self::spec_len() == 4,
    ;
}

impl SealPrimPad for [u8; 0] {}

impl SealPrimPad for [u8; 4] {}

impl AsBytes for [u8; 0] {
    open spec fn spec_bytes(&self) -> Seq<u8> {
        self@
    }

    fn to_bytes(&self) -> (r: Vec<u8>) {
        let r = Vec::new();
        assert(r@ =~= self@);
        r
    }
}

impl AsBytesMut for [u8; 0] {
    fn write_bytes(&mut self, bytes: &[u8]) {
        assert(self@ =~= bytes@);
    }
}

impl AsBytes for [u8; 4] {
    open spec fn spec_bytes(&self) -> Seq<u8> {
        self@
    }

    fn to_bytes(&self) -> (r: Vec<u8>) {
        let mut r = Vec::new();
        r.push(self[0]);
        r.push(self[1]);
        r.push(self[2]);
        r.push(self[3]);
        assert(r@ =~= self@);
        r
    }
}

impl AsBytesMut for [u8; 4] {
    fn write_bytes(&mut self, bytes: &[u8]) {
        *self = [bytes[0], bytes[1], bytes[2], bytes[3]];
        assert(self@ =~= bytes@);
    }
}

impl PrimPad for [u8; 0] {
    open spec fn spec_len() -> nat {
        0
    }

    fn zeroed() -> (r: Self) {
        let r: [u8; 0] = [];
        assert(r@ =~= Seq::new(0, |i: int| 0u8));
        r
    }

    proof fn lemma_len(p: Self) {
    }
}

impl PrimPad for [u8; 4] {
    open spec fn spec_len() -> nat {
        4
    }

    fn zeroed() -> (r: Self) {
        let r: [u8; 4] = [0, 0, 0, 0];
        assert(r@ =~= Seq::new(4, |i: int| 0u8));
        r
    }

    proof fn lemma_len(p: Self) {
    }
}

/// The constant size of the primitive POD `P`.
pub open spec fn spec_prim_size<P: PrimPod>() -> nat {
    P::spec_size()
}

/// A trait for POD types that are considered primitive. Primitive PODs are
/// those with a size that is a constant of their kind, and a fixed stride.
///
/// Every byte pattern of the right length is a value of a primitive POD, and
/// its bytes read back as that value.
pub trait PrimPod: Sized + Copy + AsBytes + AsBytesMut + SealPrimPod {
    /// The tail padding for this type.
    type Padding: PrimPad;

    /// The [`SpaKind`] for this type.
    spec fn spec_kind() -> SpaKind;

    /// The constant size of this type: that of its kind.
    spec fn spec_size() -> nat;

    /// The value that a sequence of [`spec_prim_size`] bytes stands for.
    spec fn spec_decode(b: Seq<u8>) -> Self;

    /// The [`SpaKind`] for this type.
    fn spa_kind() -> (r: SpaKind)
        ensures
            r == Self::spec_kind(),
    ;

    /// The default value for this type.
    spec fn spec_default() -> Self;

    /// The default value for this type.
    fn default_value() -> (r: Self)
        ensures
            r == Self::spec_default(),
    ;

    /// Read the value that stands at `off` in `bytes`.
    fn decode(bytes: &[u8], off: usize) -> (r: Self)
        requires
            off + Self::spec_size() <= bytes@.len(),
        ensures
            r == Self::spec_decode(bytes@.subrange(off as int, off + Self::spec_size())),
    ;

    /// The kind of every primitive POD is primitive, its padding takes the
    /// value to a multiple of eight bytes, and its values have as many bytes
    /// as its kind says.
    proof fn lemma_layout()
        ensures
            Self::spec_size() <= 16,
            Self::spec_kind().size_of_kind() == Some(Self::spec_size() as u32),
            Self::spec_size() + Self::Padding::spec_len() == spec_align8(
                Self::spec_size() as int,
            ),
    ;

    /// The bytes of a value read back as that value.
    proof fn lemma_value_roundtrip(v: Self)
        ensures
            v.spec_bytes().len() == Self::spec_size(),
            Self::spec_decode(v.spec_bytes()) == v,
    ;

    /// Every sequence of the right length stands for a value, and that value
    /// has those bytes.
    proof fn lemma_bytes_roundtrip(b: Seq<u8>)
        requires
            b.len() == Self::spec_size(),
        ensures
            Self::spec_decode(b).spec_bytes() == b,
    ;

    /// The [`SpaKind`] of this type, as a `u32`.
    fn kind() -> (r: u32)
        ensures
            r == Self::spec_kind().value(),
    {
        Self::spa_kind().as_u32()
    }

    /// The size of this type.
    fn size() -> (r: u32)
        ensures
            r == Self::spec_size(),
    {
        proof {
            Self::lemma_layout();
        }
        Self::spa_kind().expected_size().unwrap()
    }

    /// The size of this type with its padding.
    fn stride() -> (r: u32)
        ensures
            r == spec_align8(Self::spec_size() as int),
    {
        proof {
            Self::lemma_layout();
        }
        checked_align8(Self::size()).unwrap()
    }

    /// The size of the padding.
    fn padding_size() -> (r: u32)
        ensures
            r == Self::Padding::spec_len(),
    {
        proof {
            Self::lemma_layout();
        }
        Self::stride() - Self::size()
    }
}

/// Another name for [`PrimPod`]: PODs of a constant size and stride.
pub trait BasicPod: PrimPod {}

impl<P: PrimPod> BasicPod for P {}

/// Another name for [`PrimPad`]: the paddings of basic PODs.
pub trait BasicPad: PrimPad {}

impl<P: PrimPad> BasicPad for P {}

/// Another name for [`PrimBody`]: a basic POD without its header.
pub type BasicBody<P> = PrimBody<P>;

/// The size, stride and padding of a primitive POD.
pub struct PrimLayout {
    /// The size of the primitive, in bytes, without padding. This is the size
    /// found in headers.
    pub size: u32,
    /// The size of the primitive, rounded up to a multiple of eight.
    pub stride: u32,
    /// The difference between the size and the stride.
    pub padding: u32,
}

impl PrimLayout {
    /// The layout of the primitive POD `P`.
    ///
    /// Its size is the constant size of its kind, its stride that size aligned
    /// to eight, and the padding the difference, which is the length of
    /// `P::Padding`. The only (size, padding) pairs are (0, 0), (4, 4), (8, 0)
    /// and (16, 0).
    pub fn of<P: PrimPod>() -> (r: PrimLayout)
        ensures
            r.size == spec_prim_size::<P>(),
            r.stride == spec_align8(r.size as int),
            r.padding == r.stride - r.size,
            r.padding == P::Padding::spec_len(),
            r.stride % 8 == 0,
            r.size % 4 == 0,
            r.padding <= 4,
            (r.size == 0 && r.padding == 0) || (r.size == 4 && r.padding == 4) || (r.size == 8
                && r.padding == 0) || (r.size == 16 && r.padding == 0),
    {
        proof {
            P::lemma_layout();
        }
        PrimLayout { size: P::size(), stride: P::stride(), padding: P::padding_size() }
    }
}

impl SpaKind {
    /// Gets the [`SpaKind`] for a given primitive POD.
    pub fn of<P: PrimPod>() -> (r: SpaKind)
        ensures
            r == P::spec_kind(),
    {
        P::spa_kind()
    }
}

/// A primitive SPA POD without the header, but containing the padding.
///
/// This is used as the body of primitive PODs of `P`, or as the elements of an
/// array of `P`.
pub struct PrimBody<P: PrimPod> {
    /// The actual value of the body.
    pub value: P,
    /// The padding of the body.
    pub padding: P::Padding,
}

impl<P: PrimPod> PrimBody<P> {
    /// Create a new [`PrimBody`] given some value, with zeroed padding.
    pub fn new(value: P) -> (r: PrimBody<P>)
        ensures
            r.value == value,
            r.padding.spec_bytes() == Seq::new(P::Padding::spec_len(), |i: int| 0u8),
    {
        PrimBody { value, padding: P::Padding::zeroed() }
    }

    /// Get a reference to the corresponding value and padding.
    pub fn split(&self) -> (r: (&P, &P::Padding))
        ensures
            *r.0 == self.value,
            *r.1 == self.padding,
    {
        (&self.value, &self.padding)
    }

    /// Get a mutable reference to the corresponding value and padding.
    pub fn split_mut(&mut self) -> (r: (&mut P, &mut P::Padding))
        ensures
            *r.0 == old(self).value,
            *r.1 == old(self).padding,
            final(self).value == *final(r.0),
            final(self).padding == *final(r.1),
    {
        (&mut self.value, &mut self.padding)
    }

    /// Get a reference to the underlying value.
    pub fn as_value(&self) -> (r: &P)
        ensures
            *r == self.value,
    {
        &self.value
    }

    /// Get a mutable reference to the underlying value.
    pub fn as_value_mut(&mut self) -> (r: &mut P)
        ensures
            *r == old(self).value,
            final(self).value == *final(r),
            final(self).padding == old(self).padding,
    {
        &mut self.value
    }

    /// Get a reference to the underlying padding.
    pub fn as_padding(&self) -> (r: &P::Padding)
        ensures
            *r == self.padding,
    {
        &self.padding
    }

    /// Get a mutable reference to the underlying padding.
    pub fn as_padding_mut(&mut self) -> (r: &mut P::Padding)
        ensures
            *r == old(self).padding,
            final(self).padding == *final(r),
            final(self).value == old(self).value,
    {
        &mut self.padding
    }

    /// A body holding the default value for `P` and zeroed padding.
    pub fn default_body() -> (r: PrimBody<P>)
        ensures
            r.padding.spec_bytes() == Seq::new(P::Padding::spec_len(), |i: int| 0u8),
    {
        PrimBody::new(P::default_value())
    }
}

impl<P: PrimPod> AsBytes for PrimBody<P> {
    open spec fn spec_bytes(&self) -> Seq<u8> {
        self.value.spec_bytes() + self.padding.spec_bytes()
    }

    fn to_bytes(&self) -> (r: Vec<u8>) {
        let mut r = self.value.to_bytes();
        let mut p = self.padding.to_bytes();
        r.append(&mut p);
        r
    }
}

/// Types that can be read as some primitive POD: their bytes are those of a
/// value of `P`.
pub trait AsPrimPod<P: PrimPod>: AsBytes {
    /// The value of `P` with the same bytes as `self`.
    fn to_prim(&self) -> (r: P)
        ensures
            r.spec_bytes() == self.spec_bytes(),
    ;
}

impl<P: PrimPod> AsPrimPod<P> for P {
    fn to_prim(&self) -> (r: P) {
        *self
    }
}

/// Types that can be overwritten by some primitive POD: every value of `P`
/// has the bytes of some value of `Self`.
pub trait AsPrimPodMut<P: PrimPod>: AsBytesMut {
    /// Overwrite `self` with the bytes of `p`.
    fn write_prim(&mut self, p: P)
        ensures
            final(self).spec_bytes() == p.spec_bytes(),
    ;
}

impl<P: PrimPod> AsPrimPodMut<P> for P {
    fn write_prim(&mut self, p: P) {
        *self = p;
    }
}

} // verus!
