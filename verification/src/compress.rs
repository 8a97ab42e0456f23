//! The compressor: five 32-bit working registers advanced by the 80-round
//! mixing function, all arithmetic wrapping modulo 2^32.

use vstd::prelude::*;

use crate::schedule::Chunk;
use crate::words::{rotl, spec_rotl, w32};

verus! {

/// Fixed initial value of register `a`.
pub const H0: u32 = 0x67452301;

/// Fixed initial value of register `b`.
pub const H1: u32 = 0xEFCDAB89;

/// Fixed initial value of register `c`.
pub const H2: u32 = 0x98BADCFE;

/// Fixed initial value of register `d`.
pub const H3: u32 = 0x10325476;

/// Fixed initial value of register `e`.
pub const H4: u32 = 0xC3D2E1F0;

/// The five 32-bit working registers; after the last block they are the
/// digest, concatenated in order `a`, `b`, `c`, `d`, `e`.
#[derive(Clone, Copy, PartialEq, Eq, Structural, Debug)]
pub struct ResultSha1 {
    pub a: u32,
    pub b: u32,
    pub c: u32,
    pub d: u32,
    pub e: u32,
}

/// The element-wise sum of two register states, each word modulo 2^32.
pub open spec fn spec_add_state(x: ResultSha1, y: ResultSha1) -> ResultSha1 {
    ResultSha1 {
        a: w32(x.a + y.a),
        b: w32(x.b + y.b),
        c: w32(x.c + y.c),
        d: w32(x.d + y.d),
        e: w32(x.e + y.e),
    }
}

/// The round function `f` for round `i`: choice below 20, parity in 20..40
/// and from 60 up, majority in 40..60.
pub open spec fn spec_f(i: int, b: u32, c: u32, d: u32) -> u32 {
    if i < 20 {
        (b & c) | ((!b) & d)
    } else if i < 40 {
        b ^ c ^ d
    } else if i < 60 {
        (b & c) | (b & d) | (c & d)
    } else {
        b ^ c ^ d
    }
}

/// The round constant `k` for round `i`.
pub open spec fn spec_k(i: int) -> u32 {
    if i < 20 {
        0x5A827999
    } else if i < 40 {
        0x6ED9EBA1
    } else if i < 60 {
        0x8F1BBCDC
    } else {
        0xCA62C1D6
    }
}

/// One compression round: mix schedule word `w` into the registers at round
/// `i` and shift them.
pub open spec fn spec_step(s: ResultSha1, w: u32, i: int) -> ResultSha1 {
    ResultSha1 {
        a: w32(spec_rotl(s.a, 5) + spec_f(i, s.b, s.c, s.d) + s.e + spec_k(i) + w),
        b: s.a,
        c: spec_rotl(s.b, 30),
        d: s.c,
        e: s.d,
    }
}

/// The registers after the first `n` rounds over schedule `sched`, starting
/// from `s`.
pub open spec fn spec_rounds(sched: Seq<u32>, s: ResultSha1, n: int) -> ResultSha1
    decreases n,
{
    if n <= 0 {
        s
    } else {
        spec_step(spec_rounds(sched, s, n - 1), sched[n - 1], n - 1)
    }
}

/// Sum of two words modulo 2^32 (wraparound, never a trapping overflow).
fn add32(x: u32, y: u32) -> (r: u32)
    ensures
        r == w32(x + y),
{
    (((x as u64) + (y as u64)) % 0x1_0000_0000) as u32
}

impl ResultSha1 {
    /// A register state from its five words.
    pub fn new(a: u32, b: u32, c: u32, d: u32, e: u32) -> (r: ResultSha1)
        ensures
            r == (ResultSha1 { a, b, c, d, e }),
    {
        ResultSha1 { a, b, c, d, e }
    }

    /// Add another state into this one, each word modulo 2^32: the chaining
    /// step that applies a block's increment to the running total.
    pub fn add_assign(&mut self, rhs: ResultSha1)
        ensures
            *final(self) == spec_add_state(*old(self), rhs),
    {
        self.a = add32(self.a, rhs.a);
        self.b = add32(self.b, rhs.b);
        self.c = add32(self.c, rhs.c);
        self.d = add32(self.d, rhs.d);
        self.e = add32(self.e, rhs.e);
    }
}

/// Run the 80 compression rounds of one chunk's schedule over the incoming
/// registers `r`, returning the raw round output (the caller adds it to `r`
/// as the block's increment).
pub fn main_operation_sha1(chunk: &Chunk, r: ResultSha1) -> (res: ResultSha1)
    requires
        chunk.wf(),
    ensures
        res == spec_rounds(chunk.data@, r, 80),
{
    let mut s = r;
    let mut i: usize = 0;
    while i < 80
        invariant
            i <= 80,
            chunk.wf(),
            s == spec_rounds(chunk.data@, r, i as int),
        decreases 80 - i,
    {
        let f: u32;
        let k: u32;
        if i <= 19 {
            f = (s.b & s.c) | ((!s.b) & s.d);
            k = 0x5A827999;
        } else if i <= 39 {
            f = s.b ^ s.c ^ s.d;
            k = 0x6ED9EBA1;
        } else if i <= 59 {
            f = (s.b & s.c) | (s.b & s.d) | (s.c & s.d);
            k = 0x8F1BBCDC;
        } else {
            f = s.b ^ s.c ^ s.d;
            k = 0xCA62C1D6;
        }
        let tmp_sum: u64 = (rotl(s.a, 5) as u64) + (f as u64) + (s.e as u64) + (k as u64) + (
        chunk.data[i] as u64);
        let tmp: u32 = (tmp_sum % 0x1_0000_0000) as u32;
        s = ResultSha1 { a: tmp, b: s.a, c: rotl(s.b, 30), d: s.c, e: s.d };
        i += 1;
        assert(s == spec_step(spec_rounds(chunk.data@, r, i - 1), chunk.data@[i - 1], i - 1));
    }
    s
}

} // verus!
