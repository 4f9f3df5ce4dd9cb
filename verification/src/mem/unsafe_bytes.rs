//! Access rights on the byte representation of a value.

use core::marker::PhantomData;

use vstd::prelude::*;

use crate::mem::byte::{AsBytes, AsBytesMut};
use crate::mem::sealed::SealAccess;

verus! {

/// The possible [`Access`] kinds.
#[derive(Debug, Clone, Copy, PartialEq, Eq, Structural, Hash, Default)]
pub enum AccessKind {
    /// It is safe to read the bytes of a shared reference.
    Read,
    /// It is safe to write the bytes of an exclusive reference.
    Write,
    /// It is safe to read the bytes of a shared or exclusive reference, and to
    /// write the bytes of an exclusive reference.
    #[default]
    ReadWrite,
}

impl AccessKind {
    /// Returns whether this access kind indicates readability.
    pub fn can_read(self) -> (r: bool)
        ensures
            r == (self is Read || self is ReadWrite),
    {
        match self {
            AccessKind::Read | AccessKind::ReadWrite => true,
            AccessKind::Write => false,
        }
    }

    /// Returns whether this access kind indicates writability.
    pub fn can_write(self) -> (r: bool)
        ensures
            r == (self is Write || self is ReadWrite),
    {
        match self {
            AccessKind::Write | AccessKind::ReadWrite => true,
            AccessKind::Read => false,
        }
    }
}

/// A marker of the access rights an [`UnsafeBytes`] has.
pub trait Access: Copy + SealAccess {
    /// The kind of access this marker grants.
    spec fn spec_access_kind() -> AccessKind;

    /// The marker value.
    fn access() -> Self;

    /// The kind of access this marker grants.
    fn kind() -> (r: AccessKind)
        ensures
            r == Self::spec_access_kind(),
    ;
}

/// Some [`Access`] that contains the [`Access`] `A`.
pub trait Has<A: Access>: Access {}

impl<A: Access> Has<A> for A {}

/// Some [`Access`] that can be safely used on some `T`.
pub trait CanAccess<T>: Access {}

/// An [`Access`] that indicates it is safe to read the bytes of something.
#[derive(Debug, Clone, Copy, PartialEq, Eq, Structural, PartialOrd, Ord, Hash, Default)]
pub struct Read;

/// An [`Access`] that indicates it is safe to write the bytes of something.
#[derive(Debug, Clone, Copy, PartialEq, Eq, Structural, PartialOrd, Ord, Hash, Default)]
pub struct Write;

/// An [`Access`] that indicates it is safe to read and write the bytes of
/// something.
#[derive(Debug, Clone, Copy, PartialEq, Eq, Structural, PartialOrd, Ord, Hash, Default)]
pub struct ReadWrite;

impl SealAccess for Read {}

impl SealAccess for Write {}

impl SealAccess for ReadWrite {}

impl Access for Read {
    open spec fn spec_access_kind() -> AccessKind {
        AccessKind::Read
    }

    fn access() -> Read {
        Read
    }

    fn kind() -> (r: AccessKind) {
        AccessKind::Read
    }
}

impl Access for Write {
    open spec fn spec_access_kind() -> AccessKind {
        AccessKind::Write
    }

    fn access() -> Write {
        Write
    }

    fn kind() -> (r: AccessKind) {
        AccessKind::Write
    }
}

impl Access for ReadWrite {
    open spec fn spec_access_kind() -> AccessKind {
        AccessKind::ReadWrite
    }

    fn access() -> ReadWrite {
        ReadWrite
    }

    fn kind() -> (r: AccessKind) {
        AccessKind::ReadWrite
    }
}

impl Has<Read> for ReadWrite {}

impl Has<Write> for ReadWrite {}

impl<T: AsBytes> CanAccess<T> for Read {}

impl<T: AsBytesMut> CanAccess<T> for Write {}

impl<T: AsBytesMut> CanAccess<T> for ReadWrite {}

/// A wrapper for some `T` whose bytes may be read, written or both,
/// according to the [`Access`] `A`:
///
/// - [`Read`]: it is [`AsBytes`].
/// - [`Write`] and [`ReadWrite`]: it is [`AsBytes`] and [`AsBytesMut`].
pub struct UnsafeBytes<T, A: Access = ReadWrite> {
    marker: PhantomData<A>,
    val: T,
}

impl<T, A: Access> UnsafeBytes<T, A> {
    /// The wrapped value.
    pub closed spec fn value(&self) -> T {
        self.val
    }

    /// Wrap `val`, which `A` can access.
    pub fn new(val: T) -> (r: UnsafeBytes<T, A>)
        where
            A: CanAccess<T>,
        ensures
            r.value() == val,
    {
        UnsafeBytes { marker: PhantomData, val }
    }

    /// Get a reference to the wrapped value.
    pub fn as_ref(&self) -> (r: &T)
        ensures
            *r == self.value(),
    {
        &self.val
    }

    /// Get a mutable reference to the wrapped value.
    pub fn as_mut(&mut self) -> (r: &mut T)
        ensures
            *r == old(self).value(),
            final(self).value() == *final(r),
    {
        &mut self.val
    }

    /// Unwrap the value.
    pub fn into_inner(self) -> (r: T)
        ensures
            r == self.value(),
    {
        self.val
    }

    /// Get the bytes of the wrapped value.
    pub fn as_bytes(&self) -> (r: Vec<u8>)
        where
            A: Has<Read>,
            T: AsBytes,
        ensures
            r@ == self.value().spec_bytes(),
    {
        self.val.to_bytes()
    }

    /// Overwrite the bytes of the wrapped value.
    pub fn as_bytes_mut(&mut self, bytes: &[u8])
        where
            A: Has<Write>,
            T: AsBytesMut,
        requires
            bytes@.len() == old(self).value().spec_bytes().len(),
        ensures
            final(self).value().spec_bytes() == bytes@,
    {
        self.val.write_bytes(bytes)
    }
}

} // verus!
