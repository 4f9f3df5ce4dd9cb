//! Little-endian encoding and decoding of the integers that make up PODs.
//!
//! PODs hold integers in the byte order of the machine that writes them. This
//! crate reads and writes them little-endian, the order of the x86 and ARM
//! machines that PipeWire commonly runs on.

use vstd::prelude::*;

verus! {

/// The `u32` whose little-endian encoding is the first four bytes of `b`.
pub open spec fn spec_u32_from_le(b: Seq<u8>) -> u32 {
    (b[0] + 0x100 * b[1] + 0x1_0000 * b[2] + 0x100_0000 * b[3]) as u32
}

/// The little-endian encoding of `x`.
pub open spec fn spec_u32_to_le(x: u32) -> Seq<u8> {
    seq![
        (x % 0x100) as u8,
        ((x / 0x100) % 0x100) as u8,
        ((x / 0x1_0000) % 0x100) as u8,
        (x / 0x100_0000) as u8,
    ]
}

/// The `u64` whose little-endian encoding is the first eight bytes of `b`.
pub open spec fn spec_u64_from_le(b: Seq<u8>) -> u64 {
    (spec_u32_from_le(b) + 0x1_0000_0000 * spec_u32_from_le(b.subrange(4, 8))) as u64
}

/// The little-endian encoding of `x`.
pub open spec fn spec_u64_to_le(x: u64) -> Seq<u8> {
    spec_u32_to_le((x % 0x1_0000_0000) as u32) + spec_u32_to_le((x / 0x1_0000_0000) as u32)
}

/// Decoding an encoded `u32` gives it back, whatever follows the encoding.
pub proof fn lemma_u32_le_roundtrip(x: u32, rest: Seq<u8>)
    ensures
        spec_u32_to_le(x).len() == 4,
        spec_u32_from_le(spec_u32_to_le(x) + rest) == x,
{
    let b = spec_u32_to_le(x) + rest;
    assert(b[0] == (x % 0x100) as u8);
    assert(b[1] == ((x / 0x100) % 0x100) as u8);
    assert(b[2] == ((x / 0x1_0000) % 0x100) as u8);
    assert(b[3] == (x / 0x100_0000) as u8);
}

/// The four bytes of a `u32` are its base-256 digits.
proof fn lemma_u32_digits(b0: u8, b1: u8, b2: u8, b3: u8)
    ensures
        ({
            let x = b0 + 0x100 * b1 + 0x1_0000 * b2 + 0x100_0000 * b3;
            &&& 0 <= x <= u32::MAX
            &&& x % 0x100 == b0
            &&& (x / 0x100) % 0x100 == b1
            &&& (x / 0x1_0000) % 0x100 == b2
            &&& x / 0x100_0000 == b3
        }),
{
    let x = b0 + 0x100 * b1 + 0x1_0000 * b2 + 0x100_0000 * b3;
    assert(x / 0x100 == b1 + 0x100 * b2 + 0x1_0000 * b3) by (nonlinear_arith)
        requires
            x == b0 + 0x100 * b1 + 0x1_0000 * b2 + 0x100_0000 * b3,
            0 <= b0 < 0x100,
    ;
    assert(x / 0x1_0000 == b2 + 0x100 * b3) by (nonlinear_arith)
        requires
            x == b0 + 0x100 * b1 + 0x1_0000 * b2 + 0x100_0000 * b3,
            0 <= b0 < 0x100,
            0 <= b1 < 0x100,
    ;
    assert(x / 0x100_0000 == b3) by (nonlinear_arith)
        requires
            x == b0 + 0x100 * b1 + 0x1_0000 * b2 + 0x100_0000 * b3,
            0 <= b0 < 0x100,
            0 <= b1 < 0x100,
            0 <= b2 < 0x100,
    ;
}

/// Encoding a decoded `u32` gives back the four bytes it was read from.
pub proof fn lemma_u32_le_bytes_roundtrip(b: Seq<u8>)
    requires
        b.len() >= 4,
    ensures
        spec_u32_to_le(spec_u32_from_le(b)) == b.subrange(0, 4),
{
    let (b0, b1, b2, b3) = (b[0], b[1], b[2], b[3]);
    let x = spec_u32_from_le(b);
    lemma_u32_digits(b0, b1, b2, b3);
    assert(spec_u32_to_le(x) =~= b.subrange(0, 4));
}

/// Decoding an encoded `u64` gives it back, whatever follows the encoding.
pub proof fn lemma_u64_le_roundtrip(x: u64, rest: Seq<u8>)
    ensures
        spec_u64_to_le(x).len() == 8,
        spec_u64_from_le(spec_u64_to_le(x) + rest) == x,
{
    let lo = (x % 0x1_0000_0000) as u32;
    let hi = (x / 0x1_0000_0000) as u32;
    let b = spec_u64_to_le(x) + rest;
    lemma_u32_le_roundtrip(lo, spec_u32_to_le(hi) + rest);
    assert(b =~= spec_u32_to_le(lo) + (spec_u32_to_le(hi) + rest));
    lemma_u32_le_roundtrip(hi, rest);
    assert(b.subrange(4, 8) =~= spec_u32_to_le(hi) + Seq::<u8>::empty());
    lemma_u32_le_roundtrip(hi, Seq::<u8>::empty());
}

/// Encoding a decoded `u64` gives back the eight bytes it was read from.
pub proof fn lemma_u64_le_bytes_roundtrip(b: Seq<u8>)
    requires
        b.len() >= 8,
    ensures
        spec_u64_to_le(spec_u64_from_le(b)) == b.subrange(0, 8),
{
    let lo = spec_u32_from_le(b);
    let hi = spec_u32_from_le(b.subrange(4, 8));
    let x = spec_u64_from_le(b);
    assert(x % 0x1_0000_0000 == lo);
    assert(x / 0x1_0000_0000 == hi);
    lemma_u32_le_bytes_roundtrip(b);
    lemma_u32_le_bytes_roundtrip(b.subrange(4, 8));
    assert(spec_u64_to_le(x) =~= b.subrange(0, 8));
}

/// Reads the little-endian `u32` that starts at `off`.
pub fn read_u32_le(bytes: &[u8], off: usize) -> (r: u32)
    requires
        off + 4 <= bytes@.len(),
    ensures
        r == spec_u32_from_le(bytes@.subrange(off as int, off + 4)),
{
    let b0 = bytes[off] as u32;
    let b1 = bytes[off + 1] as u32;
    let b2 = bytes[off + 2] as u32;
    let b3 = bytes[off + 3] as u32;
    b0 + 0x100 * b1 + 0x1_0000 * b2 + 0x100_0000 * b3
}

/// Reads the little-endian `u64` that starts at `off`.
pub fn read_u64_le(bytes: &[u8], off: usize) -> (r: u64)
    requires
        off + 8 <= bytes@.len(),
    ensures
        r == spec_u64_from_le(bytes@.subrange(off as int, off + 8)),
{
    let _len = bytes.len();
    let lo = read_u32_le(bytes, off) as u64;
    let hi = read_u32_le(bytes, off + 4) as u64;
    assert(bytes@.subrange(off as int, off + 8).subrange(4, 8) =~= bytes@.subrange(
        off + 4,
        off + 8,
    ));
    assert(bytes@.subrange(off as int, off + 8).subrange(0, 4) =~= bytes@.subrange(
        off as int,
        off + 4,
    ));
    lo + 0x1_0000_0000 * hi
}

/// Appends the little-endian encoding of `x`.
pub fn write_u32_le(out: &mut Vec<u8>, x: u32)
    ensures
        final(out)@ == old(out)@ + spec_u32_to_le(x),
{
    out.push((x % 0x100) as u8);
    out.push(((x / 0x100) % 0x100) as u8);
    out.push(((x / 0x1_0000) % 0x100) as u8);
    out.push((x / 0x100_0000) as u8);
    assert(out@ =~= old(out)@ + spec_u32_to_le(x));
}

/// Appends the little-endian encoding of `x`.
pub fn write_u64_le(out: &mut Vec<u8>, x: u64)
    ensures
        final(out)@ == old(out)@ + spec_u64_to_le(x),
{
    write_u32_le(out, (x % 0x1_0000_0000) as u32);
    write_u32_le(out, (x / 0x1_0000_0000) as u32);
    assert(out@ =~= old(out)@ + spec_u64_to_le(x));
}

} // verus!
