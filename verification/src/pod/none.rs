//! The SPA `None` value.

use core::marker::PhantomData;

use vstd::prelude::*;
use vstd::std_specs::convert::FromSpecImpl;

use crate::mem::{AsBytes, AsBytesMut};
use crate::pod::header::lemma_align8_of_primitive_sizes;
use crate::pod::kind::SpaKind;
use crate::pod::primitive::{PrimPad, PrimPod};
use crate::pod::sealed::SealPrimPod;

verus! {

/// A SPA POD `None` value, which indicates the absence of something: it is
/// semantically an `Option<T>` that is always `None`, and it has no bytes.
pub struct SpaNone<T> {
    marker: PhantomData<T>,
}

impl<T> SpaNone<T> {
    /// Create a [`SpaNone`].
    pub fn new() -> (r: SpaNone<T>) {
        SpaNone { marker: PhantomData }
    }

    /// Create a new [`SpaNone`] from an `Option`: `None` becomes a
    /// [`SpaNone`], and the value of `Some` is handed back as the error.
    pub fn from_option(option: Option<T>) -> (r: Result<SpaNone<T>, T>)
        ensures
            option is None <==> r is Ok,
            option matches Some(v) ==> r matches Err(e) && e == v,
    {
        match option {
            Some(v) => Err(v),
            None => Ok(SpaNone::new()),
        }
    }

    /// Consume this value and turn it into an `Option`, which is always `None`.
    pub fn get(self) -> (r: Option<T>)
        ensures
            r is None,
    {
        None
    }

    /// Get a reference to the underlying value, which is always `None`.
    pub fn as_ref(&self) -> (r: Option<&T>)
        ensures
            r is None,
    {
        None
    }

    /// Get a mutable reference to the underlying value, which is always `None`.
    pub fn as_mut(&mut self) -> (r: Option<&mut T>)
        ensures
            r is None,
    {
        None
    }

    /// Cast this [`SpaNone`] to another kind of [`SpaNone`].
    pub fn cast<U>(self) -> (r: SpaNone<U>) {
        SpaNone::new()
    }
}

impl<T> Clone for SpaNone<T> {
    fn clone(&self) -> (r: Self) {
        SpaNone::new()
    }
}

impl<T> Copy for SpaNone<T> {}

impl<T> Default for SpaNone<T> {
    fn default() -> (r: Self) {
        SpaNone::new()
    }
}

impl<T> PartialEq for SpaNone<T> {
    fn eq(&self, other: &Self) -> (r: bool) {
        true
    }
}

impl<T> vstd::std_specs::cmp::PartialEqSpecImpl for SpaNone<T> {
    open spec fn obeys_eq_spec() -> bool {
        true
    }

    open spec fn eq_spec(&self, other: &Self) -> bool {
        true
    }
}

impl<T> Eq for SpaNone<T> {}

impl<T> From<SpaNone<T>> for Option<T> {
    fn from(value: SpaNone<T>) -> (r: Option<T>) {
        value.get()
    }
}

impl<T> FromSpecImpl<SpaNone<T>> for Option<T> {
    open spec fn obeys_from_spec() -> bool {
        true
    }

    open spec fn from_spec(value: SpaNone<T>) -> Option<T> {
        None
    }
}

impl<T> SealPrimPod for SpaNone<T> {}

impl<T> AsBytes for SpaNone<T> {
    open spec fn spec_bytes(&self) -> Seq<u8> {
        Seq::empty()
    }

    fn to_bytes(&self) -> (r: Vec<u8>) {
        Vec::new()
    }
}

impl<T> AsBytesMut for SpaNone<T> {
    fn write_bytes(&mut self, bytes: &[u8]) {
        assert(bytes@ =~= Seq::<u8>::empty());
    }
}

impl<T> PrimPod for SpaNone<T> {
    type Padding = [u8; 0];

    open spec fn spec_kind() -> SpaKind {
        SpaKind::Nil
    }

    open spec fn spec_size() -> nat {
        0
    }

    closed spec fn spec_decode(b: Seq<u8>) -> SpaNone<T> {
        SpaNone { marker: PhantomData }
    }

    fn spa_kind() -> (r: SpaKind) {
        SpaKind::Nil
    }

    closed spec fn spec_default() -> SpaNone<T> {
        SpaNone { marker: PhantomData }
    }

    fn default_value() -> (r: SpaNone<T>) {
        SpaNone::new()
    }

    fn decode(bytes: &[u8], off: usize) -> (r: SpaNone<T>) {
        SpaNone::new()
    }

    proof fn lemma_layout() {
        lemma_align8_of_primitive_sizes();
        assert(<[u8; 0] as PrimPad>::spec_len() == 0);
    }

    proof fn lemma_value_roundtrip(v: SpaNone<T>) {
    }

    proof fn lemma_bytes_roundtrip(b: Seq<u8>) {
        assert(b =~= Seq::<u8>::empty());
    }
}

} // verus!
