use vstd::prelude::*;
use crate::chain::fold_blocks;
use crate::words::{add32, le32_at, load_le32, rotl32, rotl32_exec};

verus! {

/// The MD5 additive constants, one per step.
pub open spec fn md5_k() -> Seq<u32> {
    seq![
        0xd76aa478u32, 0xe8c7b756, 0x242070db, 0xc1bdceee, 0xf57c0faf, 0x4787c62a, 0xa8304613, 0xfd469501,
        0x698098d8, 0x8b44f7af, 0xffff5bb1, 0x895cd7be, 0x6b901122, 0xfd987193, 0xa679438e, 0x49b40821,
        0xf61e2562, 0xc040b340, 0x265e5a51, 0xe9b6c7aa, 0xd62f105d, 0x02441453, 0xd8a1e681, 0xe7d3fbc8,
        0x21e1cde6, 0xc33707d6, 0xf4d50d87, 0x455a14ed, 0xa9e3e905, 0xfcefa3f8, 0x676f02d9, 0x8d2a4c8a,
        0xfffa3942, 0x8771f681, 0x6d9d6122, 0xfde5380c, 0xa4beea44, 0x4bdecfa9, 0xf6bb4b60, 0xbebfbc70,
        0x289b7ec6, 0xeaa127fa, 0xd4ef3085, 0x04881d05, 0xd9d4d039, 0xe6db99e5, 0x1fa27cf8, 0xc4ac5665,
        0xf4292244, 0x432aff97, 0xab9423a7, 0xfc93a039, 0x655b59c3, 0x8f0ccc92, 0xffeff47d, 0x85845dd1,
        0x6fa87e4f, 0xfe2ce6e0, 0xa3014314, 0x4e0811a1, 0xf7537e82, 0xbd3af235, 0x2ad7d2bb, 0xeb86d391,
    ]
}

/// The rotation amount of step `i`.
pub open spec fn md5_shift(i: int) -> u32 {
    if i < 16 {
        seq![7u32, 12, 17, 22][i % 4]
    } else if i < 32 {
        seq![5u32, 9, 14, 20][i % 4]
    } else if i < 48 {
        seq![4u32, 11, 16, 23][i % 4]
    } else {
        seq![6u32, 10, 15, 21][i % 4]
    }
}

/// The auxiliary function of step `i`: F, G, H or I.
pub open spec fn md5_aux(i: int, b: u32, c: u32, d: u32) -> u32 {
    if i < 16 {
        (b & c) | (!b & d)
    } else if i < 32 {
        (b & d) | (c & !d)
    } else if i < 48 {
        b ^ c ^ d
    } else {
        c ^ (b | !d)
    }
}

/// The message word that step `i` reads.
pub open spec fn md5_word_index(i: int) -> int {
    if i < 16 {
        i
    } else if i < 32 {
        (5 * i + 1) % 16
    } else if i < 48 {
        (3 * i + 5) % 16
    } else {
        (7 * i) % 16
    }
}

/// Step `i` of MD5 on the working variables `(a, b, c, d)` and block `m`.
pub open spec fn md5_step(v: (u32, u32, u32, u32), m: Seq<u8>, i: int) -> (u32, u32, u32, u32) {
    let (a, b, c, d) = v;
    let f = add32(add32(add32(md5_aux(i, b, c, d), a), md5_k()[i]), le32_at(m, md5_word_index(i)));
    (d, add32(b, rotl32(f, md5_shift(i))), b, c)
}

/// The working variables after the first `n` steps.
pub open spec fn md5_steps(v: (u32, u32, u32, u32), m: Seq<u8>, n: nat) -> (u32, u32, u32, u32)
    decreases n,
{
    if n == 0 {
        v
    } else {
        md5_step(md5_steps(v, m, (n - 1) as nat), m, n - 1)
    }
}

/// The MD5 compression function: 64 steps, then the input state is added
/// word by word.
pub open spec fn md5_block(s: Seq<u32>, m: Seq<u8>) -> Seq<u32> {
    let (a, b, c, d) = md5_steps((s[0], s[1], s[2], s[3]), m, 64);
    seq![add32(s[0], a), add32(s[1], b), add32(s[2], c), add32(s[3], d)]
}

/// The MD5 compression function as a step of a block fold.
pub open spec fn md5_compression() -> spec_fn(Seq<u32>, [u8; 64]) -> Seq<u32> {
    |s: Seq<u32>, m: [u8; 64]| md5_block(s, m@)
}

fn compress_block(state: &mut [u32; 4], block: &[u8; 64])
    ensures
        final(state)@ == md5_block(old(state)@, block@),
{
    let k: [u32; 64] = [
        0xd76aa478, 0xe8c7b756, 0x242070db, 0xc1bdceee, 0xf57c0faf, 0x4787c62a, 0xa8304613, 0xfd469501,
        0x698098d8, 0x8b44f7af, 0xffff5bb1, 0x895cd7be, 0x6b901122, 0xfd987193, 0xa679438e, 0x49b40821,
        0xf61e2562, 0xc040b340, 0x265e5a51, 0xe9b6c7aa, 0xd62f105d, 0x02441453, 0xd8a1e681, 0xe7d3fbc8,
        0x21e1cde6, 0xc33707d6, 0xf4d50d87, 0x455a14ed, 0xa9e3e905, 0xfcefa3f8, 0x676f02d9, 0x8d2a4c8a,
        0xfffa3942, 0x8771f681, 0x6d9d6122, 0xfde5380c, 0xa4beea44, 0x4bdecfa9, 0xf6bb4b60, 0xbebfbc70,
        0x289b7ec6, 0xeaa127fa, 0xd4ef3085, 0x04881d05, 0xd9d4d039, 0xe6db99e5, 0x1fa27cf8, 0xc4ac5665,
        0xf4292244, 0x432aff97, 0xab9423a7, 0xfc93a039, 0x655b59c3, 0x8f0ccc92, 0xffeff47d, 0x85845dd1,
        0x6fa87e4f, 0xfe2ce6e0, 0xa3014314, 0x4e0811a1, 0xf7537e82, 0xbd3af235, 0x2ad7d2bb, 0xeb86d391,
    ];
    let shifts: [u32; 16] = [7, 12, 17, 22, 5, 9, 14, 20, 4, 11, 16, 23, 6, 10, 15, 21];
    assert(k@ =~= md5_k());
    let ghost s0 = state@;
    let ghost v0 = (s0[0], s0[1], s0[2], s0[3]);
    let mut a: u32 = state[0];
    let mut b: u32 = state[1];
    let mut c: u32 = state[2];
    let mut d: u32 = state[3];
    let mut i: usize = 0;
    while i < 64
        invariant
            0 <= i <= 64,
            state@ == s0,
            k@ == md5_k(),
            shifts@ == seq![7u32, 12, 17, 22, 5, 9, 14, 20, 4, 11, 16, 23, 6, 10, 15, 21],
            (a, b, c, d) == md5_steps(v0, block@, i as nat),
        decreases 64 - i,
    {
        let aux: u32 = if i < 16 {
            (b & c) | (!b & d)
        } else if i < 32 {
            (b & d) | (c & !d)
        } else if i < 48 {
            b ^ c ^ d
        } else {
            c ^ (b | !d)
        };
        let g: usize = if i < 16 {
            i
        } else if i < 32 {
            (5 * i + 1) % 16
        } else if i < 48 {
            (3 * i + 5) % 16
        } else {
            (7 * i) % 16
        };
        let sh: u32 = shifts[4 * (i / 16) + i % 4];
        assert(sh == md5_shift(i as int));
        let f = aux.wrapping_add(a).wrapping_add(k[i]).wrapping_add(load_le32(block, g));
        let nb = b.wrapping_add(rotl32_exec(f, sh));
        a = d;
        d = c;
        c = b;
        b = nb;
        i = i + 1;
    }
    state[0] = state[0].wrapping_add(a);
    state[1] = state[1].wrapping_add(b);
    state[2] = state[2].wrapping_add(c);
    state[3] = state[3].wrapping_add(d);
    assert(state@ =~= md5_block(s0, block@));
}

/// MD5 compression over a sequence of blocks: `state` ends as the fold of
/// every block, in order, through the compression function; no blocks leave
/// it unchanged.
pub fn compress(state: &mut [u32; 4], blocks: &[[u8; 64]])
    ensures
        final(state)@ == fold_blocks(md5_compression(), old(state)@, blocks@),
        blocks@.len() == 0 ==> final(state)@ == old(state)@,
{
    let ghost s0 = state@;
    let mut i: usize = 0;
    while i < blocks.len()
        invariant
            0 <= i <= blocks@.len(),
            state@ == fold_blocks(md5_compression(), s0, blocks@.subrange(0, i as int)),
        decreases blocks@.len() - i,
    {
        compress_block(state, &blocks[i]);
        proof {
            let pre = blocks@.subrange(0, i as int + 1);
            assert(pre.drop_last() =~= blocks@.subrange(0, i as int));
            assert(pre.last() == blocks@[i as int]);
        }
        i = i + 1;
    }
    assert(blocks@.subrange(0, blocks@.len() as int) =~= blocks@);
}

} // verus!
