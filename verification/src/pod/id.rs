//! The SPA id.

use vstd::prelude::*;
use vstd::std_specs::convert::{FromSpecImpl, TryFromSpec, TryFromSpecImpl};

use crate::mem::{AsBytes, AsBytesMut};
use crate::pod::codec::{
    lemma_u32_le_bytes_roundtrip, lemma_u32_le_roundtrip, read_u32_le, spec_u32_from_le,
    spec_u32_to_le, write_u32_le,
};
use crate::pod::header::lemma_align8_of_primitive_sizes;
use crate::pod::kind::SpaKind;
use crate::pod::primitive::{PrimPad, PrimPod};
use crate::pod::sealed::SealPrimPod;

verus! {

/// A SPA id, without the padding: an enumerated value that indexes some table.
#[derive(Debug, Clone, Copy, PartialEq, Eq, Structural, PartialOrd, Ord, Hash)]
pub struct SpaId(pub u32);

impl Default for SpaId {
    fn default() -> (r: SpaId)
        ensures
            r.0 == 0,
    {
        SpaId(0)
    }
}

impl From<u32> for SpaId {
    fn from(value: u32) -> (r: SpaId) {
        SpaId(value)
    }
}

impl FromSpecImpl<u32> for SpaId {
    open spec fn obeys_from_spec() -> bool {
        true
    }

    open spec fn from_spec(value: u32) -> SpaId {
        SpaId(value)
    }
}

impl From<SpaId> for u32 {
    fn from(value: SpaId) -> (r: u32) {
        value.0
    }
}

impl FromSpecImpl<SpaId> for u32 {
    open spec fn obeys_from_spec() -> bool {
        true
    }

    open spec fn from_spec(value: SpaId) -> u32 {
        value.0
    }
}

impl TryFrom<usize> for SpaId {
    type Error = core::num::TryFromIntError;

    fn try_from(value: usize) -> (r: Result<SpaId, core::num::TryFromIntError>) {
        match <u32 as TryFrom<_>>::try_from(value) {
            Ok(v) => Ok(SpaId(v)),
            Err(e) => Err(e),
        }
    }
}

impl TryFromSpecImpl<usize> for SpaId {
    open spec fn obeys_try_from_spec() -> bool {
        true
    }

    open spec fn try_from_spec(value: usize) -> Result<SpaId, core::num::TryFromIntError> {
        match <u32 as TryFromSpec<_>>::try_from_spec(value) {
            Ok(v) => Ok(SpaId(v)),
            Err(e) => Err(e),
        }
    }
}

impl From<SpaId> for usize {
    fn from(value: SpaId) -> (r: usize) {
        value.0 as usize
    }
}

impl FromSpecImpl<SpaId> for usize {
    open spec fn obeys_from_spec() -> bool {
        true
    }

    open spec fn from_spec(value: SpaId) -> usize {
        value.0 as usize
    }
}

impl SealPrimPod for SpaId {}

impl AsBytes for SpaId {
    open spec fn spec_bytes(&self) -> Seq<u8> {
        spec_u32_to_le(self.0)
    }

    fn to_bytes(&self) -> (r: Vec<u8>) {
        let mut r = Vec::new();
        write_u32_le(&mut r, self.0);
        r
    }
}

impl AsBytesMut for SpaId {
    fn write_bytes(&mut self, bytes: &[u8]) {
        proof {
            SpaId::lemma_value_roundtrip(*self);
            assert(bytes@.subrange(0, 4) =~= bytes@);
            SpaId::lemma_bytes_roundtrip(bytes@);
        }
        *self = SpaId::decode(bytes, 0);
    }
}

impl PrimPod for SpaId {
    type Padding = [u8; 4];

    open spec fn spec_kind() -> SpaKind {
        SpaKind::Id
    }

    open spec fn spec_size() -> nat {
        4
    }

    open spec fn spec_decode(b: Seq<u8>) -> SpaId {
        SpaId(spec_u32_from_le(b))
    }

    fn spa_kind() -> (r: SpaKind) {
        SpaKind::Id
    }

    open spec fn spec_default() -> SpaId {
        SpaId(0)
    }

    fn default_value() -> (r: SpaId) {
        SpaId(0)
    }

    fn decode(bytes: &[u8], off: usize) -> (r: SpaId) {
        SpaId(read_u32_le(bytes, off))
    }

    proof fn lemma_layout() {
        lemma_align8_of_primitive_sizes();
        assert(<[u8; 4] as PrimPad>::spec_len() == 4);
    }

    proof fn lemma_value_roundtrip(v: SpaId) {
        lemma_u32_le_roundtrip(v.0, Seq::<u8>::empty());
        assert(v.spec_bytes() + Seq::<u8>::empty() =~= v.spec_bytes());
    }

    proof fn lemma_bytes_roundtrip(b: Seq<u8>) {
        lemma_u32_le_bytes_roundtrip(b);
        assert(b.subrange(0, 4) =~= b);
    }
}

} // verus!
