//! The SPA boolean.

use core::cmp::Ordering;

use vstd::prelude::*;
use vstd::std_specs::cmp::{PartialEqSpecImpl, PartialOrdSpecImpl};
use vstd::std_specs::ops::{
    BitAndSpec, BitAndSpecImpl, BitOrSpec, BitOrSpecImpl, BitXorSpec, BitXorSpecImpl, NotSpec,
    NotSpecImpl,
};

use crate::mem::{AsBytes, AsBytesMut};
use crate::pod::codec::{
    lemma_u32_le_bytes_roundtrip, lemma_u32_le_roundtrip, read_u32_le, spec_u32_from_le,
    spec_u32_to_le, write_u32_le,
};
use crate::pod::header::lemma_align8_of_primitive_sizes;
use crate::pod::kind::SpaKind;
use crate::pod::primitive::{AsPrimPod, AsPrimPodMut, PrimPad, PrimPod};
use crate::pod::sealed::SealPrimPod;

verus! {

/// A SPA Boolean, without the padding.
///
/// It wraps an `i32`, where `0` is `false`, and any other value (`1`, `2`,
/// `-1`, ...) is `true`. There is no canonical representation of `true`; it
/// is usually `1`, but it very well may not be.
#[derive(Clone, Copy, Debug)]
pub struct SpaBool(pub i32);

impl SpaBool {
    /// The `bool` this value stands for.
    pub open spec fn spec_as_bool(self) -> bool {
        self.0 != 0
    }

    /// Create a [`SpaBool`] from a `bool`: `1` for `true`, `0` for `false`.
    pub fn new(b: bool) -> (r: SpaBool)
        ensures
            r.0 == (if b { 1i32 } else { 0i32 }),
            r.spec_as_bool() == b,
    {
        if b {
            SpaBool(1)
        } else {
            SpaBool(0)
        }
    }

    /// Cast this [`SpaBool`] to a `bool`: whether it is nonzero.
    #[verifier::when_used_as_spec(spec_as_bool)]
    pub fn as_bool(self) -> (r: bool)
        ensures
            r == (self.0 != 0),
    {
        self.0 != 0
    }
}

impl SpaBool {
    /// Cast this [`SpaBool`] to a reference to a `bool`.
    pub fn as_bool_ref(self) -> (r: &'static bool)
        ensures
            *r == (self.0 != 0),
    {
        if self.as_bool() {
            &true
        } else {
            &false
        }
    }
}

/// Borrowed as the `bool` it stands for.
impl AsRef<bool> for SpaBool {
    fn as_ref(&self) -> (r: &bool)
        ensures
            *r == self.spec_as_bool(),
    {
        self.as_bool_ref()
    }
}

impl Default for SpaBool {
    fn default() -> (r: SpaBool)
        ensures
            r.0 == 0,
    {
        SpaBool(0)
    }
}

impl PartialEq for SpaBool {
    fn eq(&self, other: &Self) -> (r: bool) {
        self.as_bool() == other.as_bool()
    }
}

impl PartialEqSpecImpl for SpaBool {
    open spec fn obeys_eq_spec() -> bool {
        true
    }

    open spec fn eq_spec(&self, other: &Self) -> bool {
        self.spec_as_bool() == other.spec_as_bool()
    }
}

impl Eq for SpaBool {}

/// How `a` compares with `b`, `false` being less than `true`.
pub open spec fn bool_order(a: bool, b: bool) -> Ordering {
    if a == b {
        Ordering::Equal
    } else if !a {
        Ordering::Less
    } else {
        Ordering::Greater
    }
}

/// How `a` compares with `b`, `false` being less than `true`.
fn compare_bools(a: bool, b: bool) -> (r: Ordering)
    ensures
        r == bool_order(a, b),
{
    if a == b {
        Ordering::Equal
    } else if !a {
        Ordering::Less
    } else {
        Ordering::Greater
    }
}

/// Ordered as the `bool`s they stand for.
impl PartialOrd for SpaBool {
    fn partial_cmp(&self, other: &Self) -> (r: Option<Ordering>) {
        Some(compare_bools(self.as_bool(), other.as_bool()))
    }
}

impl PartialOrdSpecImpl for SpaBool {
    open spec fn obeys_partial_cmp_spec() -> bool {
        true
    }

    open spec fn partial_cmp_spec(&self, other: &Self) -> Option<Ordering> {
        Some(bool_order(self.spec_as_bool(), other.spec_as_bool()))
    }
}

impl PartialEq<bool> for SpaBool {
    fn eq(&self, other: &bool) -> (r: bool) {
        self.as_bool() == *other
    }
}

impl PartialEqSpecImpl<bool> for SpaBool {
    open spec fn obeys_eq_spec() -> bool {
        true
    }

    open spec fn eq_spec(&self, other: &bool) -> bool {
        self.spec_as_bool() == *other
    }
}

impl PartialEq<SpaBool> for bool {
    fn eq(&self, other: &SpaBool) -> (r: bool) {
        *self == other.as_bool()
    }
}

impl PartialEqSpecImpl<SpaBool> for bool {
    open spec fn obeys_eq_spec() -> bool {
        true
    }

    open spec fn eq_spec(&self, other: &SpaBool) -> bool {
        *self == other.spec_as_bool()
    }
}

impl PartialOrd<bool> for SpaBool {
    fn partial_cmp(&self, other: &bool) -> (r: Option<Ordering>) {
        Some(compare_bools(self.as_bool(), *other))
    }
}

impl PartialOrdSpecImpl<bool> for SpaBool {
    open spec fn obeys_partial_cmp_spec() -> bool {
        true
    }

    open spec fn partial_cmp_spec(&self, other: &bool) -> Option<Ordering> {
        Some(bool_order(self.spec_as_bool(), *other))
    }
}

impl PartialOrd<SpaBool> for bool {
    fn partial_cmp(&self, other: &SpaBool) -> (r: Option<Ordering>) {
        Some(compare_bools(*self, other.as_bool()))
    }
}

impl PartialOrdSpecImpl<SpaBool> for bool {
    open spec fn obeys_partial_cmp_spec() -> bool {
        true
    }

    open spec fn partial_cmp_spec(&self, other: &SpaBool) -> Option<Ordering> {
        Some(bool_order(*self, other.spec_as_bool()))
    }
}

/// This is a logical operation, not a bitwise one.
impl core::ops::Not for SpaBool {
    type Output = SpaBool;

    fn not(self) -> (r: SpaBool)
        ensures
            r.spec_as_bool() == !self.spec_as_bool(),
    {
        SpaBool::new(!self.as_bool())
    }
}

impl NotSpecImpl for SpaBool {
    open spec fn obeys_not_spec() -> bool {
        true
    }

    open spec fn not_req(self) -> bool {
        true
    }

    open spec fn not_spec(self) -> SpaBool {
        if self.spec_as_bool() {
            SpaBool(0)
        } else {
            SpaBool(1)
        }
    }
}

/// This is a logical operation, not a bitwise one.
impl core::ops::BitAnd for SpaBool {
    type Output = SpaBool;

    fn bitand(self, rhs: SpaBool) -> (r: SpaBool)
        ensures
            r.spec_as_bool() == (self.spec_as_bool() && rhs.spec_as_bool()),
    {
        SpaBool::new(self.as_bool() && rhs.as_bool())
    }
}

impl BitAndSpecImpl for SpaBool {
    open spec fn obeys_bitand_spec() -> bool {
        true
    }

    open spec fn bitand_req(self, rhs: SpaBool) -> bool {
        true
    }

    open spec fn bitand_spec(self, rhs: SpaBool) -> SpaBool {
        if self.spec_as_bool() && rhs.spec_as_bool() {
            SpaBool(1)
        } else {
            SpaBool(0)
        }
    }
}

/// This is a logical operation, not a bitwise one.
impl core::ops::BitOr for SpaBool {
    type Output = SpaBool;

    fn bitor(self, rhs: SpaBool) -> (r: SpaBool)
        ensures
            r.spec_as_bool() == (self.spec_as_bool() || rhs.spec_as_bool()),
    {
        SpaBool::new(self.as_bool() || rhs.as_bool())
    }
}

impl BitOrSpecImpl for SpaBool {
    open spec fn obeys_bitor_spec() -> bool {
        true
    }

    open spec fn bitor_req(self, rhs: SpaBool) -> bool {
        true
    }

    open spec fn bitor_spec(self, rhs: SpaBool) -> SpaBool {
        if self.spec_as_bool() || rhs.spec_as_bool() {
            SpaBool(1)
        } else {
            SpaBool(0)
        }
    }
}

/// This is a logical operation, not a bitwise one.
impl core::ops::BitXor for SpaBool {
    type Output = SpaBool;

    fn bitxor(self, rhs: SpaBool) -> (r: SpaBool)
        ensures
            r.spec_as_bool() == (self.spec_as_bool() != rhs.spec_as_bool()),
    {
        SpaBool::new(self.as_bool() != rhs.as_bool())
    }
}

impl BitXorSpecImpl for SpaBool {
    open spec fn obeys_bitxor_spec() -> bool {
        true
    }

    open spec fn bitxor_req(self, rhs: SpaBool) -> bool {
        true
    }

    open spec fn bitxor_spec(self, rhs: SpaBool) -> SpaBool {
        if self.spec_as_bool() != rhs.spec_as_bool() {
            SpaBool(1)
        } else {
            SpaBool(0)
        }
    }
}

/// The operators on [`SpaBool`] are the logical ones on the `bool`s that the
/// operands stand for, whatever nonzero value stands for `true`, and their
/// results are the canonical `0` or `1`.
pub proof fn lemma_bool_ops_logical(a: SpaBool, b: SpaBool)
    ensures
        ({
            let not = NotSpec::not_spec(a);
            let and = BitAndSpec::bitand_spec(a, b);
            let or = BitOrSpec::bitor_spec(a, b);
            let xor = BitXorSpec::bitxor_spec(a, b);
            &&& not.spec_as_bool() == !a.spec_as_bool()
            &&& and.spec_as_bool() == (a.spec_as_bool() && b.spec_as_bool())
            &&& or.spec_as_bool() == (a.spec_as_bool() || b.spec_as_bool())
            &&& xor.spec_as_bool() == (a.spec_as_bool() != b.spec_as_bool())
            &&& (not.0 == 0 || not.0 == 1)
            &&& (and.0 == 0 || and.0 == 1)
            &&& (or.0 == 0 || or.0 == 1)
            &&& (xor.0 == 0 || xor.0 == 1)
        }),
{
}

impl From<bool> for SpaBool {
    fn from(value: bool) -> (r: SpaBool) {
        SpaBool::new(value)
    }
}

impl vstd::std_specs::convert::FromSpecImpl<bool> for SpaBool {
    open spec fn obeys_from_spec() -> bool {
        true
    }

    open spec fn from_spec(v: bool) -> SpaBool {
        if v {
            SpaBool(1)
        } else {
            SpaBool(0)
        }
    }
}

impl From<SpaBool> for bool {
    fn from(value: SpaBool) -> (r: bool) {
        value.as_bool()
    }
}

impl vstd::std_specs::convert::FromSpecImpl<SpaBool> for bool {
    open spec fn obeys_from_spec() -> bool {
        true
    }

    open spec fn from_spec(v: SpaBool) -> bool {
        v.spec_as_bool()
    }
}

impl From<i32> for SpaBool {
    fn from(value: i32) -> (r: SpaBool) {
        SpaBool(value)
    }
}

impl vstd::std_specs::convert::FromSpecImpl<i32> for SpaBool {
    open spec fn obeys_from_spec() -> bool {
        true
    }

    open spec fn from_spec(v: i32) -> SpaBool {
        SpaBool(v)
    }
}

impl From<SpaBool> for i32 {
    fn from(value: SpaBool) -> (r: i32) {
        value.0
    }
}

impl vstd::std_specs::convert::FromSpecImpl<SpaBool> for i32 {
    open spec fn obeys_from_spec() -> bool {
        true
    }

    open spec fn from_spec(v: SpaBool) -> i32 {
        v.0
    }
}

impl From<u32> for SpaBool {
    fn from(value: u32) -> (r: SpaBool) {
        SpaBool(value as i32)
    }
}

impl vstd::std_specs::convert::FromSpecImpl<u32> for SpaBool {
    open spec fn obeys_from_spec() -> bool {
        true
    }

    open spec fn from_spec(v: u32) -> SpaBool {
        SpaBool(v as i32)
    }
}

impl From<SpaBool> for u32 {
    fn from(value: SpaBool) -> (r: u32) {
        value.0 as u32
    }
}

impl vstd::std_specs::convert::FromSpecImpl<SpaBool> for u32 {
    open spec fn obeys_from_spec() -> bool {
        true
    }

    open spec fn from_spec(v: SpaBool) -> u32 {
        v.0 as u32
    }
}

impl SealPrimPod for SpaBool {}

impl AsBytes for SpaBool {
    open spec fn spec_bytes(&self) -> Seq<u8> {
        spec_u32_to_le(self.0 as u32)
    }

    fn to_bytes(&self) -> (r: Vec<u8>) {
        let mut r = Vec::new();
        write_u32_le(&mut r, self.0 as u32);
        assert(r@ =~= self.spec_bytes());
        r
    }
}

impl AsBytesMut for SpaBool {
    fn write_bytes(&mut self, bytes: &[u8]) {
        proof {
            lemma_u32_le_roundtrip(self.0 as u32, Seq::<u8>::empty());
            assert(self.spec_bytes() + Seq::<u8>::empty() =~= self.spec_bytes());
        }
        *self = SpaBool::decode(bytes, 0);
        proof {
            assert(bytes@.subrange(0, 4) =~= bytes@);
            SpaBool::lemma_bytes_roundtrip(bytes@);
        }
    }
}

impl PrimPod for SpaBool {
    type Padding = [u8; 4];

    open spec fn spec_kind() -> SpaKind {
        SpaKind::Bool
    }

    open spec fn spec_size() -> nat {
        4
    }

    open spec fn spec_decode(b: Seq<u8>) -> SpaBool {
        SpaBool(spec_u32_from_le(b) as i32)
    }

    fn spa_kind() -> (r: SpaKind) {
        SpaKind::Bool
    }

    open spec fn spec_default() -> SpaBool {
        SpaBool(0)
    }

    fn default_value() -> (r: SpaBool) {
        SpaBool(0)
    }

    fn decode(bytes: &[u8], off: usize) -> (r: SpaBool) {
        SpaBool(read_u32_le(bytes, off) as i32)
    }

    proof fn lemma_layout() {
        lemma_align8_of_primitive_sizes();
        assert(<[u8; 4] as PrimPad>::spec_len() == 4);
        assert(SpaBool::spec_size() == 4);
    }

    proof fn lemma_value_roundtrip(v: SpaBool) {
        lemma_u32_le_roundtrip(v.0 as u32, Seq::<u8>::empty());
        assert(v.spec_bytes() + Seq::<u8>::empty() =~= v.spec_bytes());
        let x = v.0;
        assert((x as u32) as i32 == x) by (bit_vector);
    }

    proof fn lemma_bytes_roundtrip(b: Seq<u8>) {
        lemma_u32_le_bytes_roundtrip(b);
        let x = spec_u32_from_le(b);
        assert((x as i32) as u32 == x) by (bit_vector);
        assert(b.subrange(0, 4) =~= b);
    }
}

// A `SpaBool` is a 32-bit value.
impl AsPrimPod<SpaBool> for i32 {
    fn to_prim(&self) -> (r: SpaBool) {
        SpaBool(*self)
    }
}

impl AsPrimPodMut<SpaBool> for i32 {
    fn write_prim(&mut self, p: SpaBool) {
        *self = p.0;
    }
}

impl AsPrimPod<SpaBool> for u32 {
    fn to_prim(&self) -> (r: SpaBool) {
        let x = *self;
        assert((x as i32) as u32 == x) by (bit_vector);
        SpaBool(x as i32)
    }
}

impl AsPrimPodMut<SpaBool> for u32 {
    fn write_prim(&mut self, p: SpaBool) {
        *self = p.0 as u32;
    }
}

} // verus!
