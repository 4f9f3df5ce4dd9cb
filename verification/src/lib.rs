//! Types and tools for the wire representation of SPA PODs, the values that
//! PipeWire exchanges in its native protocol.
//!
//! Every POD starts with an eight byte header (its size and its kind) and its
//! body is padded to a multiple of eight bytes. This crate reads and writes
//! those representations with contracts that state exactly which bytes stand
//! for which value.

pub mod mem;
pub mod pod;
