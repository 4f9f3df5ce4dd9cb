//! The SPA file descriptor.

use vstd::prelude::*;
use vstd::std_specs::convert::{FromSpecImpl, TryFromSpec, TryFromSpecImpl};

use crate::mem::{AsBytes, AsBytesMut};
use crate::pod::codec::{
    lemma_u64_le_bytes_roundtrip, lemma_u64_le_roundtrip, read_u64_le, spec_u64_from_le,
    spec_u64_to_le, write_u64_le,
};
use crate::pod::header::lemma_align8_of_primitive_sizes;
use crate::pod::kind::SpaKind;
use crate::pod::primitive::{PrimPad, PrimPod};
use crate::pod::sealed::SealPrimPod;

verus! {

/// A SPA file descriptor (that in some contexts is an index to a file
/// descriptor). It is 64-bit, though unixes define file descriptors to be
/// 32-bit.
#[derive(Debug, Clone, Copy, PartialEq, Eq, Structural, PartialOrd, Ord, Hash)]
pub struct SpaFd(pub i64);

impl SpaFd {
    /// An invalid file descriptor (`-1`).
    pub fn invalid() -> (r: SpaFd)
        ensures
            r.0 == -1,
    {
        SpaFd(-1)
    }
}

/// The [`SpaFd`] of a raw file descriptor, which always fits.
pub fn into_spa_fd(fd: i32) -> (r: SpaFd)
    ensures
        r.0 == fd,
{
    SpaFd(fd as i64)
}

impl Default for SpaFd {
    fn default() -> (r: SpaFd)
        ensures
            r.0 == -1,
    {
        SpaFd(-1)
    }
}

impl From<i32> for SpaFd {
    fn from(value: i32) -> (r: SpaFd) {
        SpaFd(value as i64)
    }
}

impl FromSpecImpl<i32> for SpaFd {
    open spec fn obeys_from_spec() -> bool {
        true
    }

    open spec fn from_spec(value: i32) -> SpaFd {
        SpaFd(value as i64)
    }
}

impl TryFrom<SpaFd> for i32 {
    type Error = core::num::TryFromIntError;

    fn try_from(value: SpaFd) -> (r: Result<i32, core::num::TryFromIntError>) {
        match <i32 as TryFrom<_>>::try_from(value.0) {
            Ok(v) => Ok(v),
            Err(e) => Err(e),
        }
    }
}

impl TryFromSpecImpl<SpaFd> for i32 {
    open spec fn obeys_try_from_spec() -> bool {
        true
    }

    open spec fn try_from_spec(value: SpaFd) -> Result<i32, core::num::TryFromIntError> {
        match <i32 as TryFromSpec<_>>::try_from_spec(value.0) {
            Ok(v) => Ok(v),
            Err(e) => Err(e),
        }
    }
}

impl From<u32> for SpaFd {
    fn from(value: u32) -> (r: SpaFd) {
        SpaFd(value as i64)
    }
}

impl FromSpecImpl<u32> for SpaFd {
    open spec fn obeys_from_spec() -> bool {
        true
    }

    open spec fn from_spec(value: u32) -> SpaFd {
        SpaFd(value as i64)
    }
}

impl TryFrom<SpaFd> for u32 {
    type Error = core::num::TryFromIntError;

    fn try_from(value: SpaFd) -> (r: Result<u32, core::num::TryFromIntError>) {
        match <u32 as TryFrom<_>>::try_from(value.0) {
            Ok(v) => Ok(v),
            Err(e) => Err(e),
        }
    }
}

impl TryFromSpecImpl<SpaFd> for u32 {
    open spec fn obeys_try_from_spec() -> bool {
        true
    }

    open spec fn try_from_spec(value: SpaFd) -> Result<u32, core::num::TryFromIntError> {
        match <u32 as TryFromSpec<_>>::try_from_spec(value.0) {
            Ok(v) => Ok(v),
            Err(e) => Err(e),
        }
    }
}

impl From<i64> for SpaFd {
    fn from(value: i64) -> (r: SpaFd) {
        SpaFd(value)
    }
}

impl FromSpecImpl<i64> for SpaFd {
    open spec fn obeys_from_spec() -> bool {
        true
    }

    open spec fn from_spec(value: i64) -> SpaFd {
        SpaFd(value)
    }
}

impl From<SpaFd> for i64 {
    fn from(value: SpaFd) -> (r: i64) {
        value.0
    }
}

impl FromSpecImpl<SpaFd> for i64 {
    open spec fn obeys_from_spec() -> bool {
        true
    }

    open spec fn from_spec(value: SpaFd) -> i64 {
        value.0
    }
}

/// Calls `i64::try_from` on a `u64`, which, as its documentation says,
/// succeeds exactly when the value fits an `i64`, and then keeps it. A
/// `TryFromIntError` holds no data, so its error is the one value of that type
/// that vstd's specifications of the other integer conversions name.
#[verifier::external_body]
fn i64_try_from_u64(value: u64) -> (r: Result<i64, core::num::TryFromIntError>)
    ensures
        r == (if value <= i64::MAX {
            Ok::<i64, core::num::TryFromIntError>(value as i64)
        } else {
            Err(arbitrary())
        }),
{
    i64::try_from(value)
}

impl TryFrom<u64> for SpaFd {
    type Error = core::num::TryFromIntError;

    fn try_from(value: u64) -> (r: Result<SpaFd, core::num::TryFromIntError>) {
        match i64_try_from_u64(value) {
            Ok(v) => Ok(SpaFd(v)),
            Err(e) => Err(e),
        }
    }
}

impl TryFromSpecImpl<u64> for SpaFd {
    open spec fn obeys_try_from_spec() -> bool {
        true
    }

    open spec fn try_from_spec(value: u64) -> Result<SpaFd, core::num::TryFromIntError> {
        if value <= i64::MAX {
            Ok(SpaFd(value as i64))
        } else {
            Err(arbitrary())
        }
    }
}

impl TryFrom<SpaFd> for u64 {
    type Error = core::num::TryFromIntError;

    fn try_from(value: SpaFd) -> (r: Result<u64, core::num::TryFromIntError>) {
        match <u64 as TryFrom<_>>::try_from(value.0) {
            Ok(v) => Ok(v),
            Err(e) => Err(e),
        }
    }
}

impl TryFromSpecImpl<SpaFd> for u64 {
    open spec fn obeys_try_from_spec() -> bool {
        true
    }

    open spec fn try_from_spec(value: SpaFd) -> Result<u64, core::num::TryFromIntError> {
        match <u64 as TryFromSpec<_>>::try_from_spec(value.0) {
            Ok(v) => Ok(v),
            Err(e) => Err(e),
        }
    }
}

impl TryFrom<isize> for SpaFd {
    type Error = core::num::TryFromIntError;

    fn try_from(value: isize) -> (r: Result<SpaFd, core::num::TryFromIntError>) {
        match <i64 as TryFrom<_>>::try_from(value) {
            Ok(v) => Ok(SpaFd(v)),
            Err(e) => Err(e),
        }
    }
}

impl TryFromSpecImpl<isize> for SpaFd {
    open spec fn obeys_try_from_spec() -> bool {
        true
    }

    open spec fn try_from_spec(value: isize) -> Result<SpaFd, core::num::TryFromIntError> {
        match <i64 as TryFromSpec<_>>::try_from_spec(value) {
            Ok(v) => Ok(SpaFd(v)),
            Err(e) => Err(e),
        }
    }
}

impl TryFrom<SpaFd> for isize {
    type Error = core::num::TryFromIntError;

    fn try_from(value: SpaFd) -> (r: Result<isize, core::num::TryFromIntError>) {
        match <isize as TryFrom<_>>::try_from(value.0) {
            Ok(v) => Ok(v),
            Err(e) => Err(e),
        }
    }
}

impl TryFromSpecImpl<SpaFd> for isize {
    open spec fn obeys_try_from_spec() -> bool {
        true
    }

    open spec fn try_from_spec(value: SpaFd) -> Result<isize, core::num::TryFromIntError> {
        match <isize as TryFromSpec<_>>::try_from_spec(value.0) {
            Ok(v) => Ok(v),
            Err(e) => Err(e),
        }
    }
}

impl TryFrom<usize> for SpaFd {
    type Error = core::num::TryFromIntError;

    fn try_from(value: usize) -> (r: Result<SpaFd, core::num::TryFromIntError>) {
        match <i64 as TryFrom<_>>::try_from(value) {
            Ok(v) => Ok(SpaFd(v)),
            Err(e) => Err(e),
        }
    }
}

impl TryFromSpecImpl<usize> for SpaFd {
    open spec fn obeys_try_from_spec() -> bool {
        true
    }

    open spec fn try_from_spec(value: usize) -> Result<SpaFd, core::num::TryFromIntError> {
        match <i64 as TryFromSpec<_>>::try_from_spec(value) {
            Ok(v) => Ok(SpaFd(v)),
            Err(e) => Err(e),
        }
    }
}

impl TryFrom<SpaFd> for usize {
    type Error = core::num::TryFromIntError;

    fn try_from(value: SpaFd) -> (r: Result<usize, core::num::TryFromIntError>) {
        match <usize as TryFrom<_>>::try_from(value.0) {
            Ok(v) => Ok(v),
            Err(e) => Err(e),
        }
    }
}

impl TryFromSpecImpl<SpaFd> for usize {
    open spec fn obeys_try_from_spec() -> bool {
        true
    }

    open spec fn try_from_spec(value: SpaFd) -> Result<usize, core::num::TryFromIntError> {
        match <usize as TryFromSpec<_>>::try_from_spec(value.0) {
            Ok(v) => Ok(v),
            Err(e) => Err(e),
        }
    }
}

impl SealPrimPod for SpaFd {}

impl AsBytes for SpaFd {
    open spec fn spec_bytes(&self) -> Seq<u8> {
        spec_u64_to_le(self.0 as u64)
    }

    fn to_bytes(&self) -> (r: Vec<u8>) {
        let mut r = Vec::new();
        write_u64_le(&mut r, self.0 as u64);
        r
    }
}

impl AsBytesMut for SpaFd {
    fn write_bytes(&mut self, bytes: &[u8]) {
        proof {
            SpaFd::lemma_value_roundtrip(*self);
            assert(bytes@.subrange(0, 8) =~= bytes@);
            SpaFd::lemma_bytes_roundtrip(bytes@);
        }
        *self = SpaFd::decode(bytes, 0);
    }
}

impl PrimPod for SpaFd {
    type Padding = [u8; 0];

    open spec fn spec_kind() -> SpaKind {
        SpaKind::Fd
    }

    open spec fn spec_size() -> nat {
        8
    }

    open spec fn spec_decode(b: Seq<u8>) -> SpaFd {
        SpaFd(spec_u64_from_le(b) as i64)
    }

    fn spa_kind() -> (r: SpaKind) {
        SpaKind::Fd
    }

    open spec fn spec_default() -> SpaFd {
        SpaFd(-1i64)
    }

    fn default_value() -> (r: SpaFd) {
        SpaFd::default()
    }

    fn decode(bytes: &[u8], off: usize) -> (r: SpaFd) {
        SpaFd(read_u64_le(bytes, off) as i64)
    }

    proof fn lemma_layout() {
        lemma_align8_of_primitive_sizes();
        assert(<[u8; 0] as PrimPad>::spec_len() == 0);
    }

    proof fn lemma_value_roundtrip(v: SpaFd) {
        lemma_u64_le_roundtrip(v.0 as u64, Seq::<u8>::empty());
        assert(v.spec_bytes() + Seq::<u8>::empty() =~= v.spec_bytes());
        let x = v.0;
        assert((x as u64) as i64 == x) by (bit_vector);
    }

    proof fn lemma_bytes_roundtrip(b: Seq<u8>) {
        lemma_u64_le_bytes_roundtrip(b);
        let x = spec_u64_from_le(b);
        assert((x as i64) as u64 == x) by (bit_vector);
        assert(b.subrange(0, 8) =~= b);
    }
}

} // verus!
