//! Bytes, and the byte representation of values.

use vstd::prelude::*;

use crate::pod::codec::{
    lemma_u32_le_bytes_roundtrip, lemma_u32_le_roundtrip, read_u32_le, spec_u32_to_le,
    write_u32_le,
};

verus! {

/// A byte of a POD buffer.
#[derive(Clone, Copy, Debug, PartialEq, Eq, Structural, Hash, Default)]
pub struct Byte(u8);

impl Byte {
    /// Create a [`Byte`] holding `value`.
    pub fn new(value: u8) -> (r: Byte)
        ensures
            r.get() == value,
    {
        Byte(value)
    }

    /// The value of this byte.
    #[verifier::when_used_as_spec(spec_get)]
    pub fn get(self) -> (r: u8)
        ensures
            r == self.spec_get(),
    {
        self.0
    }

    /// The value of this byte.
    pub closed spec fn spec_get(self) -> u8 {
        self.0
    }
}

/// Types whose value can be read as a sequence of bytes: the bytes that stand
/// for the value in its wire representation.
pub trait AsBytes {
    /// The bytes that stand for `self`.
    spec fn spec_bytes(&self) -> Seq<u8>;

    /// The bytes that stand for `self`.
    fn to_bytes(&self) -> (r: Vec<u8>)
        ensures
            r@ == self.spec_bytes(),
    ;
}

/// Types of which every byte pattern of the right length is a valid value, so
/// that their bytes can be overwritten freely.
pub trait AsBytesMut: AsBytes {
    /// Overwrite the bytes of `self` with `bytes`.
    fn write_bytes(&mut self, bytes: &[u8])
        requires
            bytes@.len() == old(self).spec_bytes().len(),
        ensures
            final(self).spec_bytes() == bytes@,
    ;
}

/// Get the bytes that stand for some value.
pub fn as_bytes<T: AsBytes>(val: &T) -> (r: Vec<u8>)
    ensures
        r@ == val.spec_bytes(),
{
    val.to_bytes()
}

impl AsBytes for Byte {
    open spec fn spec_bytes(&self) -> Seq<u8> {
        seq![self.spec_get()]
    }

    fn to_bytes(&self) -> (r: Vec<u8>) {
        let mut r = Vec::new();
        r.push(self.0);
        assert(r@ =~= seq![self.spec_get()]);
        r
    }
}

impl AsBytesMut for Byte {
    fn write_bytes(&mut self, bytes: &[u8]) {
        self.0 = bytes[0];
        assert(self.spec_bytes() =~= bytes@);
    }
}

impl AsBytes for u8 {
    open spec fn spec_bytes(&self) -> Seq<u8> {
        seq![*self]
    }

    fn to_bytes(&self) -> (r: Vec<u8>) {
        let mut r = Vec::new();
        r.push(*self);
        assert(r@ =~= seq![*self]);
        r
    }
}

impl AsBytesMut for u8 {
    fn write_bytes(&mut self, bytes: &[u8]) {
        *self = bytes[0];
        assert(self.spec_bytes() =~= bytes@);
    }
}

impl AsBytes for i32 {
    open spec fn spec_bytes(&self) -> Seq<u8> {
        spec_u32_to_le(*self as u32)
    }

    fn to_bytes(&self) -> (r: Vec<u8>) {
        let mut r = Vec::new();
        write_u32_le(&mut r, *self as u32);
        r
    }
}

impl AsBytesMut for i32 {
    fn write_bytes(&mut self, bytes: &[u8]) {
        proof {
            lemma_u32_le_roundtrip(*self as u32, Seq::<u8>::empty());
            assert(self.spec_bytes() + Seq::<u8>::empty() =~= self.spec_bytes());
            lemma_u32_le_bytes_roundtrip(bytes@);
            assert(bytes@.subrange(0, 4) =~= bytes@);
        }
        let x = read_u32_le(bytes, 0);
        assert((x as i32) as u32 == x) by (bit_vector);
        *self = x as i32;
    }
}

impl AsBytes for u32 {
    open spec fn spec_bytes(&self) -> Seq<u8> {
        spec_u32_to_le(*self)
    }

    fn to_bytes(&self) -> (r: Vec<u8>) {
        let mut r = Vec::new();
        write_u32_le(&mut r, *self);
        r
    }
}

impl AsBytesMut for u32 {
    fn write_bytes(&mut self, bytes: &[u8]) {
        proof {
            lemma_u32_le_roundtrip(*self, Seq::<u8>::empty());
            assert(self.spec_bytes() + Seq::<u8>::empty() =~= self.spec_bytes());
            lemma_u32_le_bytes_roundtrip(bytes@);
            assert(bytes@.subrange(0, 4) =~= bytes@);
        }
        *self = read_u32_le(bytes, 0);
    }
}

} // verus!
