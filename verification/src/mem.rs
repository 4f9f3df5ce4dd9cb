//! Byte-level views of values.

mod byte;
mod sealed;
mod unsafe_bytes;

pub use byte::{as_bytes, AsBytes, AsBytesMut, Byte};
pub use sealed::SealAccess;
pub use unsafe_bytes::{Access, AccessKind, CanAccess, Has, Read, ReadWrite, UnsafeBytes, Write};
