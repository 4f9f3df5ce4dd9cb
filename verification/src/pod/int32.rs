//! The SPA 32-bit signed integer.

use vstd::prelude::*;
use vstd::std_specs::convert::{FromSpecImpl, TryFromSpec, TryFromSpecImpl};

use crate::mem::{AsBytes, AsBytesMut};
use crate::pod::codec::{
    lemma_u32_le_bytes_roundtrip, lemma_u32_le_roundtrip, read_u32_le, spec_u32_from_le,
    spec_u32_to_le, write_u32_le,
};
use crate::pod::header::lemma_align8_of_primitive_sizes;
use crate::pod::kind::SpaKind;
use crate::pod::primitive::{PrimPad, PrimPod};
use crate::pod::sealed::SealPrimPod;

verus! {

/// A SPA 32-bit signed integer.
#[derive(Debug, Clone, Copy, PartialEq, Eq, Structural, PartialOrd, Ord, Hash)]
pub struct SpaInt(pub i32);

impl Default for SpaInt {
    fn default() -> (r: SpaInt)
        ensures
            r.0 == 0,
    {
        SpaInt(0)
    }
}

impl From<i32> for SpaInt {
    fn from(value: i32) -> (r: SpaInt) {
        SpaInt(value)
    }
}

impl FromSpecImpl<i32> for SpaInt {
    open spec fn obeys_from_spec() -> bool {
        true
    }

    open spec fn from_spec(value: i32) -> SpaInt {
        SpaInt(value)
    }
}

impl From<SpaInt> for i32 {
    fn from(value: SpaInt) -> (r: i32) {
        value.0
    }
}

impl FromSpecImpl<SpaInt> for i32 {
    open spec fn obeys_from_spec() -> bool {
        true
    }

    open spec fn from_spec(value: SpaInt) -> i32 {
        value.0
    }
}

impl TryFrom<isize> for SpaInt {
    type Error = core::num::TryFromIntError;

    fn try_from(value: isize) -> (r: Result<SpaInt, core::num::TryFromIntError>) {
        match <i32 as TryFrom<_>>::try_from(value) {
            Ok(v) => Ok(SpaInt(v)),
            Err(e) => Err(e),
        }
    }
}

impl TryFromSpecImpl<isize> for SpaInt {
    open spec fn obeys_try_from_spec() -> bool {
        true
    }

    open spec fn try_from_spec(value: isize) -> Result<SpaInt, core::num::TryFromIntError> {
        match <i32 as TryFromSpec<_>>::try_from_spec(value) {
            Ok(v) => Ok(SpaInt(v)),
            Err(e) => Err(e),
        }
    }
}

impl From<SpaInt> for isize {
    fn from(value: SpaInt) -> (r: isize) {
        value.0 as isize
    }
}

impl FromSpecImpl<SpaInt> for isize {
    open spec fn obeys_from_spec() -> bool {
        true
    }

    open spec fn from_spec(value: SpaInt) -> isize {
        value.0 as isize
    }
}

impl SealPrimPod for SpaInt {}

impl AsBytes for SpaInt {
    open spec fn spec_bytes(&self) -> Seq<u8> {
        spec_u32_to_le(self.0 as u32)
    }

    fn to_bytes(&self) -> (r: Vec<u8>) {
        let mut r = Vec::new();
        write_u32_le(&mut r, self.0 as u32);
        r
    }
}

impl AsBytesMut for SpaInt {
    fn write_bytes(&mut self, bytes: &[u8]) {
        proof {
            SpaInt::lemma_value_roundtrip(*self);
            assert(bytes@.subrange(0, 4) =~= bytes@);
            SpaInt::lemma_bytes_roundtrip(bytes@);
        }
        *self = SpaInt::decode(bytes, 0);
    }
}

impl PrimPod for SpaInt {
    type Padding = [u8; 4];

    open spec fn spec_kind() -> SpaKind {
        SpaKind::Int
    }

    open spec fn spec_size() -> nat {
        4
    }

    open spec fn spec_decode(b: Seq<u8>) -> SpaInt {
        SpaInt(spec_u32_from_le(b) as i32)
    }

    fn spa_kind() -> (r: SpaKind) {
        SpaKind::Int
    }

    open spec fn spec_default() -> SpaInt {
        SpaInt(0)
    }

    fn default_value() -> (r: SpaInt) {
        SpaInt(0)
    }

    fn decode(bytes: &[u8], off: usize) -> (r: SpaInt) {
        SpaInt(read_u32_le(bytes, off) as i32)
    }

    proof fn lemma_layout() {
        lemma_align8_of_primitive_sizes();
        assert(<[u8; 4] as PrimPad>::spec_len() == 4);
    }

    proof fn lemma_value_roundtrip(v: SpaInt) {
        lemma_u32_le_roundtrip(v.0 as u32, Seq::<u8>::empty());
        assert(v.spec_bytes() + Seq::<u8>::empty() =~= v.spec_bytes());
        let x = v.0;
        assert((x as u32) as i32 == x) by (bit_vector);
    }

    proof fn lemma_bytes_roundtrip(b: Seq<u8>) {
        lemma_u32_le_bytes_roundtrip(b);
        let x = spec_u32_from_le(b);
        assert((x as i32) as u32 == x) by (bit_vector);
        assert(b.subrange(0, 4) =~= b);
    }
}

} // verus!
