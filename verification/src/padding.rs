//! The padder: extends a message to a positive multiple of 64 bytes by
//! appending `0x80`, zero fill, and the original bit length as eight
//! big-endian bytes.

use vstd::prelude::*;

use crate::words::{be64_byte, be64_value, lemma_be64_value, spec_be64};

verus! {

/// How many zero bytes the padder inserts after the `0x80` byte so that the
/// padded length (including the 8-byte length field) is a multiple of 64.
pub open spec fn spec_zero_count(len: nat) -> nat {
    ((64 - ((len + 9) % 64)) % 64) as nat
}

/// The padded form of `m`: the message, one `0x80` byte, zero fill, and the
/// bit length of `m` as eight big-endian bytes.
pub open spec fn spec_pad(m: Seq<u8>) -> Seq<u8> {
    m + seq![0x80u8] + Seq::new(spec_zero_count(m.len()), |i: int| 0u8) + spec_be64(
        (8 * m.len()) as u64,
    )
}

/// The padded length is a positive multiple of 64, so strictly above the
/// message length.
pub proof fn lemma_pad_block_aligned(m: Seq<u8>)
    ensures
        spec_pad(m).len() % 64 == 0,
        spec_pad(m).len() > m.len(),
{
    let len = m.len();
    let rem = (len + 9) % 64;
    assert(len + 9 == 64 * ((len + 9) / 64) + rem);
    if rem == 0 {
        assert(spec_zero_count(len) == 0);
    } else {
        assert(spec_zero_count(len) == 64 - rem);
    }
    assert(spec_pad(m).len() == len + 9 + spec_zero_count(len));
}

/// The last eight bytes of the padded form, read big-endian, are the bit
/// length of the message.
pub proof fn lemma_pad_length_field(m: Seq<u8>)
    requires
        8 * m.len() <= u64::MAX,
    ensures
        be64_value(spec_pad(m).subrange(spec_pad(m).len() - 8, spec_pad(m).len() as int)) == 8
            * m.len(),
{
    let p = spec_pad(m);
    let tail = p.subrange(p.len() - 8, p.len() as int);
    assert(tail =~= spec_be64((8 * m.len()) as u64));
    lemma_be64_value((8 * m.len()) as u64);
}

/// The eight bytes of `number`, big-endian (most significant byte first).
pub fn cut_in_bytes(number: u64) -> (r: Vec<u8>)
    ensures
        r@ == spec_be64(number),
{
    let mut result: Vec<u8> = Vec::new();
    let mut i: usize = 0;
    while i < 8
        invariant
            i <= 8,
            result@.len() == i,
            forall|j: int| 0 <= j < i ==> result@[j] == be64_byte(number, j),
        decreases 8 - i,
    {
        let shift: u64 = 56 - 8 * (i as u64);
        let b: u8 = #[verifier::truncate] ((number >> shift) as u8);
        result.push(b);
        i += 1;
    }
    assert(result@ =~= spec_be64(number));
    result
}

/// Pad `m` per the SHA-1 rule: append `0x80`, then zeros, then the original
/// bit length as eight big-endian bytes, reaching a positive multiple of 64
/// bytes. The caller guarantees the bit length fits in 64 bits.
pub fn pad(m: Vec<u8>) -> (r: Vec<u8>)
    requires
        8 * m@.len() <= u64::MAX,
    ensures
        r@ == spec_pad(m@),
        r@.len() % 64 == 0,
        r@.len() > m@.len(),
        be64_value(r@.subrange(r@.len() - 8, r@.len() as int)) == 8 * m@.len(),
{
    let ghost m0 = m@;
    let bits_len: u64 = (m.len() as u64) * 8;
    let mut bytes = m;
    // a single 1 bit, byte-aligned, directly after the message
    bytes.push(0x80);
    let nbr_zero_bytes: u64 = (64 - (((bytes.len() - 1) as u64 + 9) % 64)) % 64;
    assert(nbr_zero_bytes == spec_zero_count(m0.len()));
    let mut pushed: u64 = 0;
    while pushed < nbr_zero_bytes
        invariant
            pushed <= nbr_zero_bytes,
            nbr_zero_bytes == spec_zero_count(m0.len()),
            bytes@ == m0 + seq![0x80u8] + Seq::new(pushed as nat, |i: int| 0u8),
        decreases nbr_zero_bytes - pushed,
    {
        bytes.push(0);
        pushed += 1;
        assert(bytes@ =~= m0 + seq![0x80u8] + Seq::new(pushed as nat, |i: int| 0u8));
    }
    // the original message's length in bits, on 64 bits
    let mut tail = cut_in_bytes(bits_len);
    bytes.append(&mut tail);
    assert(bytes@ =~= spec_pad(m0)) by {
        assert(bits_len == (8 * m0.len()) as u64);
    }
    proof {
        lemma_pad_block_aligned(m0);
        lemma_pad_length_field(m0);
    }
    bytes
}

} // verus!
