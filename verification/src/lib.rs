//! SHA-1 message digest: padding, block scheduling, and the 80-round
//! compression function, producing a 160-bit digest as five 32-bit words.

pub mod compress;
pub mod padding;
pub mod schedule;
pub mod words;

use vstd::prelude::*;

use crate::compress::{
    main_operation_sha1, spec_add_state, spec_rounds, ResultSha1, H0, H1, H2, H3, H4,
};
use crate::padding::{pad, spec_pad};
use crate::schedule::{spec_schedule, Chunk};

verus! {

/// The fixed registers every digest computation starts from.
pub open spec fn spec_initial_state() -> ResultSha1 {
    ResultSha1 { a: H0, b: H1, c: H2, d: H3, e: H4 }
}

/// One block's contribution: run the 80 rounds over the block's schedule and
/// add the result, word-wise modulo 2^32, to the incoming state.
pub open spec fn spec_block_step(s: ResultSha1, block: Seq<u8>) -> ResultSha1 {
    spec_add_state(s, spec_rounds(spec_schedule(block), s, 80))
}

/// The state after compressing the first `n` 64-byte blocks of `padded`,
/// starting from `s`; the state threads through the blocks in order.
pub open spec fn spec_fold_blocks(padded: Seq<u8>, s: ResultSha1, n: int) -> ResultSha1
    decreases n,
{
    if n <= 0 {
        s
    } else {
        spec_block_step(spec_fold_blocks(padded, s, n - 1), padded.subrange(64 * (n - 1), 64 * n))
    }
}

/// The SHA-1 digest of `m`, as five 32-bit words: pad, then fold the
/// compression function over the 64-byte blocks from the fixed initial state.
pub open spec fn spec_digest(m: Seq<u8>) -> ResultSha1 {
    spec_fold_blocks(spec_pad(m), spec_initial_state(), spec_pad(m).len() as int / 64)
}

/// Compute the SHA-1 digest of `m`. The caller guarantees the bit length of
/// `m` fits in 64 bits (no message at or above 2^61 bytes).
pub fn sha1(m: Vec<u8>) -> (digest: ResultSha1)
    requires
        8 * m@.len() <= u64::MAX,
    ensures
        digest == spec_digest(m@),
{
    let ghost m0 = m@;
    let bytes = pad(m);
    let ghost padded = bytes@;
    let chunks = Chunk::from_bytes(bytes);
    let mut result = ResultSha1::new(H0, H1, H2, H3, H4);
    let mut idx: usize = 0;
    while idx < chunks.len()
        invariant
            idx <= chunks@.len(),
            chunks@.len() == padded.len() / 64,
            forall|k: int|
                0 <= k < chunks@.len() ==> (#[trigger] chunks@[k]).wf() && chunks@[k].data@
                    == spec_schedule(padded.subrange(64 * k, 64 * k + 64)),
            result == spec_fold_blocks(padded, spec_initial_state(), idx as int),
        decreases chunks@.len() - idx,
    {
        let increment = main_operation_sha1(&chunks[idx], result);
        result.add_assign(increment);
        idx += 1;
        assert(result == spec_block_step(
            spec_fold_blocks(padded, spec_initial_state(), idx - 1),
            padded.subrange(64 * (idx - 1), 64 * idx),
        ));
    }
    proof {
        assert(padded == spec_pad(m0));
    }
    result
}

/// The digest is a deterministic function of the message alone: any two
/// digests of the same message are equal.
pub proof fn lemma_digest_deterministic(m: Seq<u8>, d1: ResultSha1, d2: ResultSha1)
    requires
        d1 == spec_digest(m),
        d2 == spec_digest(m),
    ensures
        d1 == d2,
{
}

} // verus!
