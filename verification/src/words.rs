//! 32-bit word arithmetic and big-endian byte/word conversions used by the
//! padder, the block scheduler and the compressor.

use vstd::prelude::*;

verus! {

/// The value of `x` reduced modulo 2^32, as a 32-bit word.
pub open spec fn w32(x: int) -> u32 {
    (x % 0x1_0000_0000) as u32
}

/// Circular left rotation of a 32-bit word by `n` bits (bit 31 wraps to bit 0).
pub open spec fn spec_rotl(x: u32, n: u32) -> u32 {
    (x << n) | (x >> ((32 - n) as u32))
}

/// Rotate a 32-bit word left by `n` bits, `0 < n < 32`.
pub fn rotl(x: u32, n: u32) -> (r: u32)
    requires
        0 < n < 32,
    ensures
        r == spec_rotl(x, n),
{
    (x << n) | (x >> (32 - n))
}

/// The 32-bit word read big-endian from four bytes (`b0` most significant).
pub open spec fn word_be(b0: u8, b1: u8, b2: u8, b3: u8) -> u32 {
    ((b0 as u32) << 24) | ((b1 as u32) << 16) | ((b2 as u32) << 8) | (b3 as u32)
}

/// Assemble four bytes into a 32-bit word, big-endian.
pub fn word_from_be_bytes(b0: u8, b1: u8, b2: u8, b3: u8) -> (r: u32)
    ensures
        r == word_be(b0, b1, b2, b3),
{
    ((b0 as u32) << 24) | ((b1 as u32) << 16) | ((b2 as u32) << 8) | (b3 as u32)
}

/// Byte `i` (0 = most significant) of the big-endian rendering of `x`.
pub open spec fn be64_byte(x: u64, i: int) -> u8 {
    (x >> ((56 - 8 * i) as u64)) as u8
}

/// The eight bytes of `x`, big-endian.
pub open spec fn spec_be64(x: u64) -> Seq<u8> {
    Seq::new(8, |i: int| be64_byte(x, i))
}

/// The value of eight bytes interpreted as a big-endian unsigned integer.
pub open spec fn be64_value(s: Seq<u8>) -> int
    recommends
        s.len() == 8,
{
    s[0] * 0x100_0000_0000_0000 + s[1] * 0x1_0000_0000_0000 + s[2] * 0x100_0000_0000
        + s[3] * 0x1_0000_0000 + s[4] * 0x100_0000 + s[5] * 0x1_0000 + s[6] * 0x100 + s[7]
}

/// Reading back the big-endian bytes of `x` yields `x` again.
pub proof fn lemma_be64_value(x: u64)
    ensures
        be64_value(spec_be64(x)) == x,
{
    assert(((x >> 56) as u8) * 0x100_0000_0000_0000 + ((x >> 48) as u8) * 0x1_0000_0000_0000 + ((
    x >> 40) as u8) * 0x100_0000_0000 + ((x >> 32) as u8) * 0x1_0000_0000 + ((x >> 24) as u8)
        * 0x100_0000 + ((x >> 16) as u8) * 0x1_0000 + ((x >> 8) as u8) * 0x100 + ((
    x >> 0) as u8) == x) by (bit_vector);
    assert(spec_be64(x)[0] == (x >> 56) as u8);
    assert(spec_be64(x)[1] == (x >> 48) as u8);
    assert(spec_be64(x)[2] == (x >> 40) as u8);
    assert(spec_be64(x)[3] == (x >> 32) as u8);
    assert(spec_be64(x)[4] == (x >> 24) as u8);
    assert(spec_be64(x)[5] == (x >> 16) as u8);
    assert(spec_be64(x)[6] == (x >> 8) as u8);
    assert(spec_be64(x)[7] == (x >> 0) as u8);
}

} // verus!
