//! The block scheduler: partitions the padded bytes into 64-byte blocks and
//! expands each block's 16 big-endian words into an 80-word message schedule.

use vstd::prelude::*;

use crate::words::{rotl, spec_rotl, word_be, word_from_be_bytes};

verus! {

/// The 16 words read big-endian from a 64-byte block.
pub open spec fn spec_words16(block: Seq<u8>) -> Seq<u32> {
    Seq::new(16, |i: int| word_be(block[4 * i], block[4 * i + 1], block[4 * i + 2], block[4 * i + 3]))
}

/// Word `i` of the message schedule built from the 16 block words `ws`:
/// the block word itself below 16, and above that the rotate-by-one
/// recurrence over words 3, 8, 14 and 16 places back.
pub open spec fn spec_sched_word(ws: Seq<u32>, i: int) -> u32
    decreases i,
{
    if i < 16 {
        ws[i]
    } else {
        spec_rotl(
            spec_sched_word(ws, i - 3) ^ spec_sched_word(ws, i - 8) ^ spec_sched_word(ws, i - 14)
                ^ spec_sched_word(ws, i - 16),
            1,
        )
    }
}

/// The full 80-word schedule of a 64-byte block.
pub open spec fn spec_schedule(block: Seq<u8>) -> Seq<u32> {
    Seq::new(80, |i: int| spec_sched_word(spec_words16(block), i))
}

/// One block's 80-word message schedule.
pub struct Chunk {
    pub data: Vec<u32>,
}

impl Chunk {
    /// A chunk ready for compression holds exactly 80 words.
    pub open spec fn wf(self) -> bool {
        self.data@.len() == 80
    }

    /// Extend the 16 block words to the 80-word schedule via the rotate-by-one
    /// recurrence.
    pub fn extend_chunk(&mut self)
        requires
            old(self).data@.len() == 16,
        ensures
            final(self).wf(),
            final(self).data@ == Seq::new(80, |i: int| spec_sched_word(old(self).data@, i)),
    {
        let ghost ws = self.data@;
        let mut i: usize = 16;
        while i < 80
            invariant
                16 <= i <= 80,
                ws.len() == 16,
                self.data@.len() == i,
                forall|j: int| 0 <= j < i ==> self.data@[j] == spec_sched_word(ws, j),
            decreases 80 - i,
        {
            let w = rotl(
                self.data[i - 3] ^ self.data[i - 8] ^ self.data[i - 14] ^ self.data[i - 16],
                1,
            );
            proof {
                let ii = i as int;
                assert(spec_sched_word(ws, ii) == spec_rotl(
                    spec_sched_word(ws, ii - 3) ^ spec_sched_word(ws, ii - 8) ^ spec_sched_word(
                        ws,
                        ii - 14,
                    ) ^ spec_sched_word(ws, ii - 16),
                    1,
                ));
                assert(w == spec_sched_word(ws, ii));
            }
            self.data.push(w);
            i += 1;
        }
        assert(self.data@ =~= Seq::new(80, |i: int| spec_sched_word(ws, i)));
    }

    /// Split the padded bytes into 64-byte blocks, in order, and build each
    /// block's 80-word schedule. The padder guarantees the length is a
    /// multiple of 64.
    pub fn from_bytes(data: Vec<u8>) -> (result: Vec<Chunk>)
        requires
            data@.len() % 64 == 0,
        ensures
            result@.len() == data@.len() / 64,
            forall|k: int|
                0 <= k < result@.len() ==> (#[trigger] result@[k]).wf() && result@[k].data@
                    == spec_schedule(data@.subrange(64 * k, 64 * k + 64)),
    {
        let ghost n = data@.len() as int / 64;
        proof {
            assert(data@.len() == 64 * n);
        }
        let mut result: Vec<Chunk> = Vec::new();
        let mut chunk_start_idx: usize = 0;
        while chunk_start_idx < data.len()
            invariant
                data@.len() == 64 * n,
                chunk_start_idx == 64 * result@.len(),
                chunk_start_idx <= data@.len(),
                forall|k: int|
                    0 <= k < result@.len() ==> (#[trigger] result@[k]).wf() && result@[k].data@
                        == spec_schedule(data@.subrange(64 * k, 64 * k + 64)),
            decreases data@.len() - chunk_start_idx,
        {
            let ghost k = result@.len() as int;
            let ghost block = data@.subrange(64 * k, 64 * k + 64);
            assert(chunk_start_idx + 64 <= data@.len());
            // the 16 words of 32 bits, big-endian, of this 64-byte window
            let mut words: Vec<u32> = Vec::new();
            let mut i: usize = 0;
            while i < 16
                invariant
                    i <= 16,
                    words@.len() == i,
                    chunk_start_idx == 64 * k,
                    chunk_start_idx + 64 <= data@.len(),
                    block == data@.subrange(64 * k, 64 * k + 64),
                    forall|j: int| 0 <= j < i ==> words@[j] == spec_words16(block)[j],
                decreases 16 - i,
            {
                let w = word_from_be_bytes(
                    data[chunk_start_idx + 4 * i],
                    data[chunk_start_idx + 4 * i + 1],
                    data[chunk_start_idx + 4 * i + 2],
                    data[chunk_start_idx + 4 * i + 3],
                );
                proof {
                    assert(block[4 * i] == data@[64 * k + 4 * i]);
                    assert(block[4 * i + 1] == data@[64 * k + 4 * i + 1]);
                    assert(block[4 * i + 2] == data@[64 * k + 4 * i + 2]);
                    assert(block[4 * i + 3] == data@[64 * k + 4 * i + 3]);
                }
                words.push(w);
                i += 1;
            }
            assert(words@ =~= spec_words16(block));
            let mut chunk = Chunk { data: words };
            chunk.extend_chunk();
            assert(chunk.data@ =~= spec_schedule(block));
            result.push(chunk);
            chunk_start_idx += 64;
        }
        proof {
            assert(result@.len() == n);
        }
        result
    }
}

} // verus!
