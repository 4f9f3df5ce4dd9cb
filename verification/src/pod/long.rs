//! The SPA 64-bit signed integer.

use vstd::prelude::*;
use vstd::std_specs::convert::{FromSpecImpl, TryFromSpec, TryFromSpecImpl};

use crate::mem::{AsBytes, AsBytesMut};
use crate::pod::codec::{
    lemma_u64_le_bytes_roundtrip, lemma_u64_le_roundtrip, read_u64_le, spec_u64_from_le,
    spec_u64_to_le, write_u64_le,
};
use crate::pod::header::lemma_align8_of_primitive_sizes;
use crate::pod::kind::SpaKind;
use crate::pod::primitive::{PrimPad, PrimPod};
use crate::pod::sealed::SealPrimPod;

verus! {

/// A SPA 64-bit signed integer.
#[derive(Debug, Clone, Copy, PartialEq, Eq, Structural, PartialOrd, Ord, Hash)]
pub struct SpaLong(pub i64);

impl Default for SpaLong {
    fn default() -> (r: SpaLong)
        ensures
            r.0 == 0,
    {
        SpaLong(0)
    }
}

impl From<i64> for SpaLong {
    fn from(value: i64) -> (r: SpaLong) {
        SpaLong(value)
    }
}

impl FromSpecImpl<i64> for SpaLong {
    open spec fn obeys_from_spec() -> bool {
        true
    }

    open spec fn from_spec(value: i64) -> SpaLong {
        SpaLong(value)
    }
}

impl From<SpaLong> for i64 {
    fn from(value: SpaLong) -> (r: i64) {
        value.0
    }
}

impl FromSpecImpl<SpaLong> for i64 {
    open spec fn obeys_from_spec() -> bool {
        true
    }

    open spec fn from_spec(value: SpaLong) -> i64 {
        value.0
    }
}

impl TryFrom<isize> for SpaLong {
    type Error = core::num::TryFromIntError;

    fn try_from(value: isize) -> (r: Result<SpaLong, core::num::TryFromIntError>) {
        match <i64 as TryFrom<_>>::try_from(value) {
            Ok(v) => Ok(SpaLong(v)),
            Err(e) => Err(e),
        }
    }
}

impl TryFromSpecImpl<isize> for SpaLong {
    open spec fn obeys_try_from_spec() -> bool {
        true
    }

    open spec fn try_from_spec(value: isize) -> Result<SpaLong, core::num::TryFromIntError> {
        match <i64 as TryFromSpec<_>>::try_from_spec(value) {
            Ok(v) => Ok(SpaLong(v)),
            Err(e) => Err(e),
        }
    }
}

impl TryFrom<SpaLong> for isize {
    type Error = core::num::TryFromIntError;

    fn try_from(value: SpaLong) -> (r: Result<isize, core::num::TryFromIntError>) {
        match <isize as TryFrom<_>>::try_from(value.0) {
            Ok(v) => Ok(v),
            Err(e) => Err(e),
        }
    }
}

impl TryFromSpecImpl<SpaLong> for isize {
    open spec fn obeys_try_from_spec() -> bool {
        true
    }

    open spec fn try_from_spec(value: SpaLong) -> Result<isize, core::num::TryFromIntError> {
        match <isize as TryFromSpec<_>>::try_from_spec(value.0) {
            Ok(v) => Ok(v),
            Err(e) => Err(e),
        }
    }
}

impl SealPrimPod for SpaLong {}

impl AsBytes for SpaLong {
    open spec fn spec_bytes(&self) -> Seq<u8> {
        spec_u64_to_le(self.0 as u64)
    }

    fn to_bytes(&self) -> (r: Vec<u8>) {
        let mut r = Vec::new();
        write_u64_le(&mut r, self.0 as u64);
        r
    }
}

impl AsBytesMut for SpaLong {
    fn write_bytes(&mut self, bytes: &[u8]) {
        proof {
            SpaLong::lemma_value_roundtrip(*self);
            assert(bytes@.subrange(0, 8) =~= bytes@);
            SpaLong::lemma_bytes_roundtrip(bytes@);
        }
        *self = SpaLong::decode(bytes, 0);
    }
}

impl PrimPod for SpaLong {
    type Padding = [u8; 0];

    open spec fn spec_kind() -> SpaKind {
        SpaKind::Long
    }

    open spec fn spec_size() -> nat {
        8
    }

    open spec fn spec_decode(b: Seq<u8>) -> SpaLong {
        SpaLong(spec_u64_from_le(b) as i64)
    }

    fn spa_kind() -> (r: SpaKind) {
        SpaKind::Long
    }

    open spec fn spec_default() -> SpaLong {
        SpaLong(0)
    }

    fn default_value() -> (r: SpaLong) {
        SpaLong::default()
    }

    fn decode(bytes: &[u8], off: usize) -> (r: SpaLong) {
        SpaLong(read_u64_le(bytes, off) as i64)
    }

    proof fn lemma_layout() {
        lemma_align8_of_primitive_sizes();
        assert(<[u8; 0] as PrimPad>::spec_len() == 0);
    }

    proof fn lemma_value_roundtrip(v: SpaLong) {
        lemma_u64_le_roundtrip(v.0 as u64, Seq::<u8>::empty());
        assert(v.spec_bytes() + Seq::<u8>::empty() =~= v.spec_bytes());
        let x = v.0;
        assert((x as u64) as i64 == x) by (bit_vector);
    }

    proof fn lemma_bytes_roundtrip(b: Seq<u8>) {
        lemma_u64_le_bytes_roundtrip(b);
        let x = spec_u64_from_le(b);
        assert((x as i64) as u64 == x) by (bit_vector);
        assert(b.subrange(0, 8) =~= b);
    }
}

} // verus!
