//! Little-endian layout of the fixed-width integers of a bitmap file header.

use vstd::prelude::*;

verus! {

/// The two bytes of `x`, least significant first.
pub open spec fn le_u16(x: u16) -> Seq<u8> {
    seq![(x % 256) as u8, (x / 256) as u8]
}

/// The four bytes of `x`, least significant first. Proofs that need the
/// bytes themselves reveal the definition; most need only the two lemmas
/// below.
#[verifier::opaque]
pub open spec fn le_u32(x: u32) -> Seq<u8> {
    seq![
        (x % 256) as u8,
        (x / 256 % 256) as u8,
        (x / 65536 % 256) as u8,
        (x / 16777216) as u8,
    ]
}

/// The number whose little-endian layout is the four bytes of `bytes` from `at` on.
pub open spec fn le_u32_at(bytes: Seq<u8>, at: int) -> int
    recommends
        0 <= at,
        at + 4 <= bytes.len(),
{
    bytes[at] + 256 * bytes[at + 1] + 65536 * bytes[at + 2] + 16777216 * bytes[at + 3]
}

/// The number whose little-endian layout is the two bytes of `bytes` from `at` on.
pub open spec fn le_u16_at(bytes: Seq<u8>, at: int) -> int
    recommends
        0 <= at,
        at + 2 <= bytes.len(),
{
    bytes[at] + 256 * bytes[at + 1]
}

/// Reading back what `le_u32` laid out gives the number again.
pub proof fn lemma_le_u32_value(x: u32)
    ensures
        le_u32(x).len() == 4,
        le_u32_at(le_u32(x), 0) == x,
{
    reveal(le_u32);
}

/// The base-256 digits of a number below 2^32 are found again by division.
proof fn lemma_digits(b0: int, b1: int, b2: int, b3: int)
    requires
        0 <= b0 < 256,
        0 <= b1 < 256,
        0 <= b2 < 256,
        0 <= b3 < 256,
    ensures
        0 <= b0 + 256 * b1 + 65536 * b2 + 16777216 * b3 <= u32::MAX,
        (b0 + 256 * b1 + 65536 * b2 + 16777216 * b3) % 256 == b0,
        (b0 + 256 * b1 + 65536 * b2 + 16777216 * b3) / 256 % 256 == b1,
        (b0 + 256 * b1 + 65536 * b2 + 16777216 * b3) / 65536 % 256 == b2,
        (b0 + 256 * b1 + 65536 * b2 + 16777216 * b3) / 16777216 == b3,
{
    let v = b0 + 256 * b1 + 65536 * b2 + 16777216 * b3;
    let t1 = b1 + 256 * b2 + 65536 * b3;
    let t2 = b2 + 256 * b3;
    assert(v == b0 + 256 * t1);
    assert(v / 256 == t1 && v % 256 == b0);
    assert(t1 == b1 + 256 * t2);
    assert(t1 % 256 == b1);
    assert(v == (b0 + 256 * b1) + 65536 * t2);
    assert(v / 65536 == t2);
    assert(t2 % 256 == b2);
    assert(v == (b0 + 256 * b1 + 65536 * b2) + 16777216 * b3);
    assert(v / 16777216 == b3);
}

/// Laying out the number read from four bytes gives those bytes again.
pub proof fn lemma_le_u32_layout(bytes: Seq<u8>, at: int)
    requires
        0 <= at,
        at + 4 <= bytes.len(),
    ensures
        0 <= le_u32_at(bytes, at) <= u32::MAX,
        le_u32(le_u32_at(bytes, at) as u32) == bytes.subrange(at, at + 4),
{
    reveal(le_u32);
    lemma_digits(bytes[at] as int, bytes[at + 1] as int, bytes[at + 2] as int, bytes[at + 3] as int);
    assert(le_u32(le_u32_at(bytes, at) as u32) =~= bytes.subrange(at, at + 4));
}

/// Appends the two bytes of `x` to `out`, least significant first.
pub fn push_le_u16(out: &mut Vec<u8>, x: u16)
    ensures
        final(out)@ == old(out)@ + le_u16(x),
{
    out.push((x % 256) as u8);
    out.push((x / 256) as u8);
    assert(out@ =~= old(out)@ + le_u16(x));
}

/// Appends the four bytes of `x` to `out`, least significant first.
pub fn push_le_u32(out: &mut Vec<u8>, x: u32)
    ensures
        final(out)@ == old(out)@ + le_u32(x),
{
    out.push((x % 256) as u8);
    out.push((x / 256 % 256) as u8);
    out.push((x / 65536 % 256) as u8);
    out.push((x / 16777216) as u8);
    proof {
        reveal(le_u32);
    }
    assert(out@ =~= old(out)@ + le_u32(x));
}

/// Reads the two bytes of `bytes` from `at` on as a little-endian number.
pub fn read_le_u16(bytes: &[u8], at: usize) -> (x: u16)
    requires
        at + 2 <= bytes@.len(),
    ensures
        x == le_u16_at(bytes@, at as int),
{
    let b0: u16 = bytes[at] as u16;
    let b1: u16 = bytes[at + 1] as u16;
    b0 + 256 * b1
}

/// Reads the four bytes of `bytes` from `at` on as a little-endian number.
pub fn read_le_u32(bytes: &[u8], at: usize) -> (x: u32)
    requires
        at + 4 <= bytes@.len(),
    ensures
        x == le_u32_at(bytes@, at as int),
{
    let b0: u32 = bytes[at] as u32;
    let b1: u32 = bytes[at + 1] as u32;
    let b2: u32 = bytes[at + 2] as u32;
    let b3: u32 = bytes[at + 3] as u32;
    b0 + 256 * b1 + 65536 * b2 + 16777216 * b3
}

} // verus!
