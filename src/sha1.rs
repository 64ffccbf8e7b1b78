use vstd::prelude::*;
use crate::caps::HWCAP_SHA1;
use crate::chain::fold_blocks;
use crate::words::{add32, be32_at, load_be32, rotl32, rotl32_exec};

verus! {

/// Word `t` of the SHA-1 message schedule of block `m`.
pub open spec fn sha1_schedule(m: Seq<u8>, t: int) -> u32
    decreases t,
{
    if t < 16 {
        be32_at(m, t)
    } else {
        rotl32(
            sha1_schedule(m, t - 3) ^ sha1_schedule(m, t - 8) ^ sha1_schedule(m, t - 14)
                ^ sha1_schedule(m, t - 16),
            1,
        )
    }
}

/// The round function of step `t`.
pub open spec fn sha1_f(t: int, b: u32, c: u32, d: u32) -> u32 {
    if t < 20 {
        (b & c) | (!b & d)
    } else if t < 40 {
        b ^ c ^ d
    } else if t < 60 {
        (b & c) | (b & d) | (c & d)
    } else {
        b ^ c ^ d
    }
}

/// The additive constant of step `t`.
pub open spec fn sha1_k(t: int) -> u32 {
    if t < 20 {
        0x5a827999
    } else if t < 40 {
        0x6ed9eba1
    } else if t < 60 {
        0x8f1bbcdc
    } else {
        0xca62c1d6
    }
}

/// Step `t` of SHA-1 on the working variables `(a, b, c, d, e)`.
pub open spec fn sha1_step(v: (u32, u32, u32, u32, u32), m: Seq<u8>, t: int) -> (
    u32,
    u32,
    u32,
    u32,
    u32,
) {
    let (a, b, c, d, e) = v;
    let temp = add32(
        add32(add32(add32(rotl32(a, 5), sha1_f(t, b, c, d)), e), sha1_k(t)),
        sha1_schedule(m, t),
    );
    (temp, a, rotl32(b, 30), c, d)
}

/// The working variables after the first `n` steps.
pub open spec fn sha1_steps(v: (u32, u32, u32, u32, u32), m: Seq<u8>, n: nat) -> (
    u32,
    u32,
    u32,
    u32,
    u32,
)
    decreases n,
{
    if n == 0 {
        v
    } else {
        sha1_step(sha1_steps(v, m, (n - 1) as nat), m, n - 1)
    }
}

/// The SHA-1 compression function: 80 steps, then the input state is added
/// word by word.
pub open spec fn sha1_block(s: Seq<u32>, m: Seq<u8>) -> Seq<u32> {
    let (a, b, c, d, e) = sha1_steps((s[0], s[1], s[2], s[3], s[4]), m, 80);
    seq![add32(s[0], a), add32(s[1], b), add32(s[2], c), add32(s[3], d), add32(s[4], e)]
}

/// The SHA-1 compression function as a step of a block fold.
pub open spec fn sha1_compression() -> spec_fn(Seq<u32>, [u8; 64]) -> Seq<u32> {
    |s: Seq<u32>, m: [u8; 64]| sha1_block(s, m@)
}

fn schedule(block: &[u8; 64]) -> (w: Vec<u32>)
    ensures
        w@.len() == 80,
        forall|t: int| 0 <= t < 80 ==> w@[t] == #[trigger] sha1_schedule(block@, t),
{
    let mut w: Vec<u32> = Vec::new();
    let mut t: usize = 0;
    while t < 80
        invariant
            t <= 80,
            w@.len() == t,
            forall|j: int| 0 <= j < t ==> w@[j] == #[trigger] sha1_schedule(block@, j),
        decreases 80 - t,
    {
        let x = if t < 16 {
            load_be32(block, t)
        } else {
            assert(w@[t - 3] == sha1_schedule(block@, t - 3));
            assert(w@[t - 8] == sha1_schedule(block@, t - 8));
            assert(w@[t - 14] == sha1_schedule(block@, t - 14));
            assert(w@[t - 16] == sha1_schedule(block@, t - 16));
            rotl32_exec(w[t - 3] ^ w[t - 8] ^ w[t - 14] ^ w[t - 16], 1)
        };
        assert(x == sha1_schedule(block@, t as int));
        w.push(x);
        t = t + 1;
    }
    w
}

fn compress_block(state: &mut [u32; 5], block: &[u8; 64])
    ensures
        final(state)@ == sha1_block(old(state)@, block@),
{
    let w = schedule(block);
    let ghost s0 = state@;
    let ghost v0 = (s0[0], s0[1], s0[2], s0[3], s0[4]);
    let mut a: u32 = state[0];
    let mut b: u32 = state[1];
    let mut c: u32 = state[2];
    let mut d: u32 = state[3];
    let mut e: u32 = state[4];
    let mut t: usize = 0;
    while t < 80
        invariant
            0 <= t <= 80,
            state@ == s0,
            w@.len() == 80,
            forall|j: int| 0 <= j < 80 ==> w@[j] == #[trigger] sha1_schedule(block@, j),
            (a, b, c, d, e) == sha1_steps(v0, block@, t as nat),
        decreases 80 - t,
    {
        let (f, k): (u32, u32) = if t < 20 {
            ((b & c) | (!b & d), 0x5a827999)
        } else if t < 40 {
            (b ^ c ^ d, 0x6ed9eba1)
        } else if t < 60 {
            ((b & c) | (b & d) | (c & d), 0x8f1bbcdc)
        } else {
            (b ^ c ^ d, 0xca62c1d6)
        };
        let temp = rotl32_exec(a, 5).wrapping_add(f).wrapping_add(e).wrapping_add(k).wrapping_add(
            w[t],
        );
        e = d;
        d = c;
        c = rotl32_exec(b, 30);
        b = a;
        a = temp;
        t = t + 1;
    }
    state[0] = state[0].wrapping_add(a);
    state[1] = state[1].wrapping_add(b);
    state[2] = state[2].wrapping_add(c);
    state[3] = state[3].wrapping_add(d);
    state[4] = state[4].wrapping_add(e);
    assert(state@ =~= sha1_block(s0, block@));
}

/// SHA-1 compression over a sequence of blocks: `state` ends as the fold of
/// every block, in order, through the compression function; no blocks leave
/// it unchanged.
pub fn compress(state: &mut [u32; 5], blocks: &[[u8; 64]])
    ensures
        final(state)@ == fold_blocks(sha1_compression(), old(state)@, blocks@),
        blocks@.len() == 0 ==> final(state)@ == old(state)@,
{
    let ghost s0 = state@;
    let mut i: usize = 0;
    while i < blocks.len()
        invariant
            0 <= i <= blocks@.len(),
            state@ == fold_blocks(sha1_compression(), s0, blocks@.subrange(0, i as int)),
        decreases blocks@.len() - i,
    {
        compress_block(state, &blocks[i]);
        proof {
            let pre = blocks@.subrange(0, i as int + 1);
            assert(pre.drop_last() =~= blocks@.subrange(0, i as int));
            assert(pre.last() == blocks@[i as int]);
        }
        i = i + 1;
    }
    assert(blocks@.subrange(0, blocks@.len() as int) =~= blocks@);
}

/// Whether an AArch64 `AT_HWCAP` mask reports the SHA-1 instructions.
pub fn sha1_supported(hwcap: u64) -> (r: bool)
    ensures
        r == (hwcap & HWCAP_SHA1 != 0),
{
    hwcap & HWCAP_SHA1 != 0
}

} // verus!
