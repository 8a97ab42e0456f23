use sha1_core::compress::ResultSha1;
use sha1_core::padding::{cut_in_bytes, pad};
use sha1_core::schedule::Chunk;
use sha1_core::sha1;

fn digest_hex(d: &ResultSha1) -> String {
    format!("{:08x}{:08x}{:08x}{:08x}{:08x}", d.a, d.b, d.c, d.d, d.e)
}

fn digest_of(m: &[u8]) -> ResultSha1 {
    sha1(m.to_vec())
}

fn bits_differing(x: &ResultSha1, y: &ResultSha1) -> u32 {
    (x.a ^ y.a).count_ones() + (x.b ^ y.b).count_ones() + (x.c ^ y.c).count_ones()
        + (x.d ^ y.d).count_ones() + (x.e ^ y.e).count_ones()
}

#[test]
fn kat_empty() {
    assert_eq!(
        digest_hex(&digest_of(b"")),
        "da39a3ee5e6b4b0d3255bfef95601890afd80709"
    );
}

#[test]
fn kat_abc() {
    assert_eq!(
        digest_hex(&digest_of(b"abc")),
        "a9993e364706816aba3e25717850c26c9cd0d89d"
    );
}

#[test]
fn kat_quick_brown_fox() {
    assert_eq!(
        digest_hex(&digest_of(b"The quick brown fox jumps over the lazy dog")),
        "2fd4e1c67a2d28fced849ee1bb76e7391b93eb12"
    );
}

#[test]
fn kat_56_byte_boundary() {
    // exactly at the padding boundary: the padder must emit two 64-byte blocks
    let m = b"abcdbcdecdefdefgefghfghighijhijkijkljklmklmnlmnomnopnopq";
    assert_eq!(m.len(), 56);
    assert_eq!(pad(m.to_vec()).len(), 128);
    assert_eq!(
        digest_hex(&digest_of(m)),
        "84983e441c3bd26ebaae4aa1f95129e5e54670f1"
    );
}

#[test]
fn digest_is_deterministic() {
    let m = b"determinism check".to_vec();
    let d1 = sha1(m.clone());
    let d2 = sha1(m);
    assert_eq!(d1, d2);
}

#[test]
fn pad_empty_message() {
    let padded = pad(Vec::new());
    assert_eq!(padded.len(), 64);
    assert_eq!(padded[0], 0x80);
    assert!(padded[1..].iter().all(|&b| b == 0));
}

#[test]
fn pad_appends_one_bit_then_zeros() {
    let padded = pad(b"abc".to_vec());
    assert_eq!(padded.len(), 64);
    assert_eq!(&padded[..3], b"abc");
    assert_eq!(padded[3], 0x80);
    assert!(padded[4..56].iter().all(|&b| b == 0));
}

#[test]
fn pad_length_is_multiple_of_64_and_longer() {
    for n in [0usize, 1, 54, 55, 56, 57, 63, 64, 65, 119, 120, 128, 1000] {
        let m = vec![0xabu8; n];
        let padded = pad(m);
        assert_eq!(padded.len() % 64, 0);
        assert!(padded.len() > n);
    }
}

#[test]
fn pad_boundary_lengths() {
    // 55 bytes still fit one block; 56 spill into a second one
    assert_eq!(pad(vec![0u8; 55]).len(), 64);
    assert_eq!(pad(vec![0u8; 56]).len(), 128);
    assert_eq!(pad(vec![0u8; 63]).len(), 128);
    assert_eq!(pad(vec![0u8; 64]).len(), 128);
}

#[test]
fn pad_length_field_is_big_endian_bit_count() {
    for n in [0usize, 3, 55, 56, 64, 300] {
        let m = vec![0x5au8; n];
        let padded = pad(m);
        let tail = &padded[padded.len() - 8..];
        let mut value: u64 = 0;
        for &b in tail {
            value = (value << 8) | b as u64;
        }
        assert_eq!(value, n as u64 * 8);
    }
}

#[test]
fn cut_in_bytes_zero() {
    assert_eq!(cut_in_bytes(0), vec![0u8; 8]);
}

#[test]
fn cut_in_bytes_ascending() {
    assert_eq!(
        cut_in_bytes(0x0102030405060708),
        vec![1, 2, 3, 4, 5, 6, 7, 8]
    );
}

#[test]
fn cut_in_bytes_max() {
    assert_eq!(cut_in_bytes(u64::MAX), vec![0xffu8; 8]);
}

#[test]
fn cut_in_bytes_bit_count_of_three_bytes() {
    assert_eq!(cut_in_bytes(24), vec![0, 0, 0, 0, 0, 0, 0, 24]);
}

#[test]
fn from_bytes_chunk_count() {
    assert_eq!(Chunk::from_bytes(vec![0u8; 64]).len(), 1);
    assert_eq!(Chunk::from_bytes(vec![0u8; 128]).len(), 2);
    assert_eq!(Chunk::from_bytes(Vec::new()).len(), 0);
}

#[test]
fn from_bytes_reads_words_big_endian() {
    let mut block = vec![0u8; 64];
    block[0] = 0x01;
    block[1] = 0x02;
    block[2] = 0x03;
    block[3] = 0x04;
    block[60] = 0xaa;
    block[63] = 0x55;
    let chunks = Chunk::from_bytes(block);
    assert_eq!(chunks.len(), 1);
    assert_eq!(chunks[0].data.len(), 80);
    assert_eq!(chunks[0].data[0], 0x01020304);
    assert_eq!(chunks[0].data[15], 0xaa000055);
}

#[test]
fn schedule_recurrence_matches_hand_computation() {
    let padded = pad(b"abc".to_vec());
    let chunks = Chunk::from_bytes(padded);
    assert_eq!(chunks.len(), 1);
    let w = &chunks[0].data;
    for i in 16..80 {
        let expected = (w[i - 3] ^ w[i - 8] ^ w[i - 14] ^ w[i - 16]).rotate_left(1);
        assert_eq!(w[i], expected);
    }
}

#[test]
fn new_stores_the_five_words() {
    let r = ResultSha1::new(1, 2, 3, 4, 5);
    assert_eq!(r.a, 1);
    assert_eq!(r.b, 2);
    assert_eq!(r.c, 3);
    assert_eq!(r.d, 4);
    assert_eq!(r.e, 5);
}

#[test]
fn add_assign_wraps_modulo_two_to_the_32() {
    let mut r = ResultSha1::new(0xffffffff, 0x80000000, 1, 0, 0xfffffffe);
    r.add_assign(ResultSha1::new(1, 0x80000000, 2, 0, 3));
    assert_eq!(r.a, 0);
    assert_eq!(r.b, 0);
    assert_eq!(r.c, 3);
    assert_eq!(r.d, 0);
    assert_eq!(r.e, 1);
}

#[test]
fn single_bit_flips_avalanche() {
    let base = b"The quick brown fox jumps over the lazy dog".to_vec();
    let d0 = sha1(base.clone());
    let mut total: u32 = 0;
    let mut trials: u32 = 0;
    for byte_idx in [0usize, 7, 19, 42] {
        for bit in 0..8 {
            let mut m = base.clone();
            m[byte_idx] ^= 1 << bit;
            let d = sha1(m);
            let diff = bits_differing(&d0, &d);
            // every single-bit flip must change the digest, and on average
            // roughly half of the 160 output bits change
            assert!(diff > 0);
            total += diff;
            trials += 1;
        }
    }
    let average = total / trials;
    assert!((60..=100).contains(&average));
}

#[test]
fn suite_messages_do_not_collide() {
    let messages: Vec<Vec<u8>> = vec![
        b"".to_vec(),
        b"abc".to_vec(),
        b"abd".to_vec(),
        b"The quick brown fox jumps over the lazy dog".to_vec(),
        b"The quick brown fox jumps over the lazy cog".to_vec(),
        b"abcdbcdecdefdefgefghfghighijhijkijkljklmklmnlmnomnopnopq".to_vec(),
        vec![0u8; 55],
        vec![0u8; 56],
        vec![0u8; 64],
    ];
    let digests: Vec<String> = messages
        .iter()
        .map(|m| digest_hex(&sha1(m.clone())))
        .collect();
    for i in 0..digests.len() {
        for j in 0..digests.len() {
            if i != j {
                assert_ne!(digests[i], digests[j]);
            }
        }
    }
}
