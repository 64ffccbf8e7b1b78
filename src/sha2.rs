use vstd::prelude::*;
use crate::caps::HWCAP_SHA2;
use crate::chain::fold_blocks;
use crate::words::{
    add32, add64, be32_at, be64_at, load_be32, load_be64, rotr32, rotr32_exec, rotr64, rotr64_exec,
};

verus! {

/// The SHA-256 additive constants, one per step.
pub open spec fn k256() -> Seq<u32> {
    seq![
        0x428a2f98u32, 0x71374491, 0xb5c0fbcf, 0xe9b5dba5, 0x3956c25b, 0x59f111f1, 0x923f82a4, 0xab1c5ed5,
        0xd807aa98, 0x12835b01, 0x243185be, 0x550c7dc3, 0x72be5d74, 0x80deb1fe, 0x9bdc06a7, 0xc19bf174,
        0xe49b69c1, 0xefbe4786, 0x0fc19dc6, 0x240ca1cc, 0x2de92c6f, 0x4a7484aa, 0x5cb0a9dc, 0x76f988da,
        0x983e5152, 0xa831c66d, 0xb00327c8, 0xbf597fc7, 0xc6e00bf3, 0xd5a79147, 0x06ca6351, 0x14292967,
        0x27b70a85, 0x2e1b2138, 0x4d2c6dfc, 0x53380d13, 0x650a7354, 0x766a0abb, 0x81c2c92e, 0x92722c85,
        0xa2bfe8a1, 0xa81a664b, 0xc24b8b70, 0xc76c51a3, 0xd192e819, 0xd6990624, 0xf40e3585, 0x106aa070,
        0x19a4c116, 0x1e376c08, 0x2748774c, 0x34b0bcb5, 0x391c0cb3, 0x4ed8aa4a, 0x5b9cca4f, 0x682e6ff3,
        0x748f82ee, 0x78a5636f, 0x84c87814, 0x8cc70208, 0x90befffa, 0xa4506ceb, 0xbef9a3f7, 0xc67178f2,
    ]
}

/// The function Σ0 of SHA-256, on the first working variable.
pub open spec fn big_sigma0_256(x: u32) -> u32 {
    rotr32(x, 2) ^ rotr32(x, 13) ^ rotr32(x, 22)
}

/// The function Σ1 of SHA-256, on the fifth working variable.
pub open spec fn big_sigma1_256(x: u32) -> u32 {
    rotr32(x, 6) ^ rotr32(x, 11) ^ rotr32(x, 25)
}

/// The function σ0 of the SHA-256 message schedule.
pub open spec fn small_sigma0_256(x: u32) -> u32 {
    rotr32(x, 7) ^ rotr32(x, 18) ^ (x >> 3u32)
}

/// The function σ1 of the SHA-256 message schedule.
pub open spec fn small_sigma1_256(x: u32) -> u32 {
    rotr32(x, 17) ^ rotr32(x, 19) ^ (x >> 10u32)
}

/// The eight working variables of SHA-256.
pub type Vars256 = (u32, u32, u32, u32, u32, u32, u32, u32);

/// Word `t` of the SHA-256 message schedule of block `m`.
pub open spec fn schedule_256(m: Seq<u8>, t: int) -> u32
    decreases t,
{
    if t < 16 {
        be32_at(m, t)
    } else {
        let s1 = small_sigma1_256(schedule_256(m, t - 2));
        let s0 = small_sigma0_256(schedule_256(m, t - 15));
        add32(add32(add32(s1, schedule_256(m, t - 7)), s0), schedule_256(m, t - 16))
    }
}

/// Step `t` of SHA-256 on the working variables `(a, b, c, d, e, f, g, h)`.
pub open spec fn step_256(v: Vars256, m: Seq<u8>, t: int) -> Vars256 {
    let (a, b, c, d, e, f, g, h) = v;
    let ch = (e & f) ^ (!e & g);
    let maj = (a & b) ^ (a & c) ^ (b & c);
    let t1 = add32(
        add32(add32(add32(h, big_sigma1_256(e)), ch), k256()[t]),
        schedule_256(m, t),
    );
    let t2 = add32(big_sigma0_256(a), maj);
    (add32(t1, t2), a, b, c, add32(d, t1), e, f, g)
}

/// The working variables after the first `n` steps.
pub open spec fn steps_256(v: Vars256, m: Seq<u8>, n: nat) -> Vars256
    decreases n,
{
    if n == 0 {
        v
    } else {
        step_256(steps_256(v, m, (n - 1) as nat), m, n - 1)
    }
}

/// The SHA-256 compression function: 64 steps, then the input state is
/// added word by word.
pub open spec fn block_256(s: Seq<u32>, m: Seq<u8>) -> Seq<u32> {
    let v0 = (s[0], s[1], s[2], s[3], s[4], s[5], s[6], s[7]);
    let (a, b, c, d, e, f, g, h) = steps_256(v0, m, 64);
    seq![
        add32(s[0], a), add32(s[1], b), add32(s[2], c), add32(s[3], d),
        add32(s[4], e), add32(s[5], f), add32(s[6], g), add32(s[7], h),
    ]
}

/// The SHA-256 compression function as a step of a block fold.
pub open spec fn compression_256() -> spec_fn(Seq<u32>, [u8; 64]) -> Seq<u32> {
    |s: Seq<u32>, m: [u8; 64]| block_256(s, m@)
}

fn schedule_exec_256(block: &[u8; 64]) -> (w: Vec<u32>)
    ensures
        w@.len() == 64,
        forall|t: int| 0 <= t < 64 ==> w@[t] == #[trigger] schedule_256(block@, t),
{
    let mut w: Vec<u32> = Vec::new();
    let mut t: usize = 0;
    while t < 64
        invariant
            t <= 64,
            w@.len() == t,
            forall|j: int| 0 <= j < t ==> w@[j] == #[trigger] schedule_256(block@, j),
        decreases 64 - t,
    {
        let x = if t < 16 {
            load_be32(block, t)
        } else {
            assert(w@[t - 2] == schedule_256(block@, t - 2));
            assert(w@[t - 7] == schedule_256(block@, t - 7));
            assert(w@[t - 15] == schedule_256(block@, t - 15));
            assert(w@[t - 16] == schedule_256(block@, t - 16));
            let x2 = w[t - 2];
            let x15 = w[t - 15];
            let s1 = rotr32_exec(x2, 17) ^ rotr32_exec(x2, 19) ^ (x2 >> 10u32);
            let s0 = rotr32_exec(x15, 7) ^ rotr32_exec(x15, 18) ^ (x15 >> 3u32);
            s1.wrapping_add(w[t - 7]).wrapping_add(s0).wrapping_add(w[t - 16])
        };
        assert(x == schedule_256(block@, t as int));
        w.push(x);
        t = t + 1;
    }
    w
}

fn compress_block_256(state: &mut [u32; 8], block: &[u8; 64])
    ensures
        final(state)@ == block_256(old(state)@, block@),
{
    let k: [u32; 64] = [
        0x428a2f98, 0x71374491, 0xb5c0fbcf, 0xe9b5dba5, 0x3956c25b, 0x59f111f1, 0x923f82a4, 0xab1c5ed5,
        0xd807aa98, 0x12835b01, 0x243185be, 0x550c7dc3, 0x72be5d74, 0x80deb1fe, 0x9bdc06a7, 0xc19bf174,
        0xe49b69c1, 0xefbe4786, 0x0fc19dc6, 0x240ca1cc, 0x2de92c6f, 0x4a7484aa, 0x5cb0a9dc, 0x76f988da,
        0x983e5152, 0xa831c66d, 0xb00327c8, 0xbf597fc7, 0xc6e00bf3, 0xd5a79147, 0x06ca6351, 0x14292967,
        0x27b70a85, 0x2e1b2138, 0x4d2c6dfc, 0x53380d13, 0x650a7354, 0x766a0abb, 0x81c2c92e, 0x92722c85,
        0xa2bfe8a1, 0xa81a664b, 0xc24b8b70, 0xc76c51a3, 0xd192e819, 0xd6990624, 0xf40e3585, 0x106aa070,
        0x19a4c116, 0x1e376c08, 0x2748774c, 0x34b0bcb5, 0x391c0cb3, 0x4ed8aa4a, 0x5b9cca4f, 0x682e6ff3,
        0x748f82ee, 0x78a5636f, 0x84c87814, 0x8cc70208, 0x90befffa, 0xa4506ceb, 0xbef9a3f7, 0xc67178f2,
    ];
    assert(k@ =~= k256());
    let w = schedule_exec_256(block);
    let ghost s0 = state@;
    let ghost v0 = (s0[0], s0[1], s0[2], s0[3], s0[4], s0[5], s0[6], s0[7]);
    let mut a: u32 = state[0];
    let mut b: u32 = state[1];
    let mut c: u32 = state[2];
    let mut d: u32 = state[3];
    let mut e: u32 = state[4];
    let mut f: u32 = state[5];
    let mut g: u32 = state[6];
    let mut h: u32 = state[7];
    let mut t: usize = 0;
    while t < 64
        invariant
            0 <= t <= 64,
            state@ == s0,
            k@ == k256(),
            w@.len() == 64,
            forall|j: int| 0 <= j < 64 ==> w@[j] == #[trigger] schedule_256(block@, j),
            (a, b, c, d, e, f, g, h) == steps_256(v0, block@, t as nat),
        decreases 64 - t,
    {
        let ch = (e & f) ^ (!e & g);
        let maj = (a & b) ^ (a & c) ^ (b & c);
        let bs1 = rotr32_exec(e, 6) ^ rotr32_exec(e, 11) ^ rotr32_exec(e, 25);
        let bs0 = rotr32_exec(a, 2) ^ rotr32_exec(a, 13) ^ rotr32_exec(a, 22);
        let t1 = h.wrapping_add(bs1).wrapping_add(ch).wrapping_add(k[t]).wrapping_add(w[t]);
        let t2 = bs0.wrapping_add(maj);
        h = g;
        g = f;
        f = e;
        e = d.wrapping_add(t1);
        d = c;
        c = b;
        b = a;
        a = t1.wrapping_add(t2);
        t = t + 1;
    }
    state[0] = state[0].wrapping_add(a);
    state[1] = state[1].wrapping_add(b);
    state[2] = state[2].wrapping_add(c);
    state[3] = state[3].wrapping_add(d);
    state[4] = state[4].wrapping_add(e);
    state[5] = state[5].wrapping_add(f);
    state[6] = state[6].wrapping_add(g);
    state[7] = state[7].wrapping_add(h);
    assert(state@ =~= block_256(s0, block@));
}

/// SHA-256 compression over a sequence of blocks: `state` ends as the fold
/// of every block, in order, through the compression function; no blocks
/// leave it unchanged.
pub fn compress256(state: &mut [u32; 8], blocks: &[[u8; 64]])
    ensures
        final(state)@ == fold_blocks(compression_256(), old(state)@, blocks@),
        blocks@.len() == 0 ==> final(state)@ == old(state)@,
{
    let ghost s0 = state@;
    let mut i: usize = 0;
    while i < blocks.len()
        invariant
            0 <= i <= blocks@.len(),
            state@ == fold_blocks(compression_256(), s0, blocks@.subrange(0, i as int)),
        decreases blocks@.len() - i,
    {
        compress_block_256(state, &blocks[i]);
        proof {
            let pre = blocks@.subrange(0, i as int + 1);
            assert(pre.drop_last() =~= blocks@.subrange(0, i as int));
            assert(pre.last() == blocks@[i as int]);
        }
        i = i + 1;
    }
    assert(blocks@.subrange(0, blocks@.len() as int) =~= blocks@);
}

/// The SHA-512 additive constants, one per step.
pub open spec fn k512() -> Seq<u64> {
    seq![
        0x428a2f98d728ae22u64, 0x7137449123ef65cd, 0xb5c0fbcfec4d3b2f, 0xe9b5dba58189dbbc,
        0x3956c25bf348b538, 0x59f111f1b605d019, 0x923f82a4af194f9b, 0xab1c5ed5da6d8118,
        0xd807aa98a3030242, 0x12835b0145706fbe, 0x243185be4ee4b28c, 0x550c7dc3d5ffb4e2,
        0x72be5d74f27b896f, 0x80deb1fe3b1696b1, 0x9bdc06a725c71235, 0xc19bf174cf692694,
        0xe49b69c19ef14ad2, 0xefbe4786384f25e3, 0x0fc19dc68b8cd5b5, 0x240ca1cc77ac9c65,
        0x2de92c6f592b0275, 0x4a7484aa6ea6e483, 0x5cb0a9dcbd41fbd4, 0x76f988da831153b5,
        0x983e5152ee66dfab, 0xa831c66d2db43210, 0xb00327c898fb213f, 0xbf597fc7beef0ee4,
        0xc6e00bf33da88fc2, 0xd5a79147930aa725, 0x06ca6351e003826f, 0x142929670a0e6e70,
        0x27b70a8546d22ffc, 0x2e1b21385c26c926, 0x4d2c6dfc5ac42aed, 0x53380d139d95b3df,
        0x650a73548baf63de, 0x766a0abb3c77b2a8, 0x81c2c92e47edaee6, 0x92722c851482353b,
        0xa2bfe8a14cf10364, 0xa81a664bbc423001, 0xc24b8b70d0f89791, 0xc76c51a30654be30,
        0xd192e819d6ef5218, 0xd69906245565a910, 0xf40e35855771202a, 0x106aa07032bbd1b8,
        0x19a4c116b8d2d0c8, 0x1e376c085141ab53, 0x2748774cdf8eeb99, 0x34b0bcb5e19b48a8,
        0x391c0cb3c5c95a63, 0x4ed8aa4ae3418acb, 0x5b9cca4f7763e373, 0x682e6ff3d6b2b8a3,
        0x748f82ee5defb2fc, 0x78a5636f43172f60, 0x84c87814a1f0ab72, 0x8cc702081a6439ec,
        0x90befffa23631e28, 0xa4506cebde82bde9, 0xbef9a3f7b2c67915, 0xc67178f2e372532b,
        0xca273eceea26619c, 0xd186b8c721c0c207, 0xeada7dd6cde0eb1e, 0xf57d4f7fee6ed178,
        0x06f067aa72176fba, 0x0a637dc5a2c898a6, 0x113f9804bef90dae, 0x1b710b35131c471b,
        0x28db77f523047d84, 0x32caab7b40c72493, 0x3c9ebe0a15c9bebc, 0x431d67c49c100d4c,
        0x4cc5d4becb3e42b6, 0x597f299cfc657e2a, 0x5fcb6fab3ad6faec, 0x6c44198c4a475817,
    ]
}

/// The function Σ0 of SHA-512, on the first working variable.
pub open spec fn big_sigma0_512(x: u64) -> u64 {
    rotr64(x, 28) ^ rotr64(x, 34) ^ rotr64(x, 39)
}

/// The function Σ1 of SHA-512, on the fifth working variable.
pub open spec fn big_sigma1_512(x: u64) -> u64 {
    rotr64(x, 14) ^ rotr64(x, 18) ^ rotr64(x, 41)
}

/// The function σ0 of the SHA-512 message schedule.
pub open spec fn small_sigma0_512(x: u64) -> u64 {
    rotr64(x, 1) ^ rotr64(x, 8) ^ (x >> 7u64)
}

/// The function σ1 of the SHA-512 message schedule.
pub open spec fn small_sigma1_512(x: u64) -> u64 {
    rotr64(x, 19) ^ rotr64(x, 61) ^ (x >> 6u64)
}

/// The eight working variables of SHA-512.
pub type Vars512 = (u64, u64, u64, u64, u64, u64, u64, u64);

/// Word `t` of the SHA-512 message schedule of block `m`.
pub open spec fn schedule_512(m: Seq<u8>, t: int) -> u64
    decreases t,
{
    if t < 16 {
        be64_at(m, t)
    } else {
        let s1 = small_sigma1_512(schedule_512(m, t - 2));
        let s0 = small_sigma0_512(schedule_512(m, t - 15));
        add64(add64(add64(s1, schedule_512(m, t - 7)), s0), schedule_512(m, t - 16))
    }
}

/// Step `t` of SHA-512 on the working variables `(a, b, c, d, e, f, g, h)`.
pub open spec fn step_512(v: Vars512, m: Seq<u8>, t: int) -> Vars512 {
    let (a, b, c, d, e, f, g, h) = v;
    let ch = (e & f) ^ (!e & g);
    let maj = (a & b) ^ (a & c) ^ (b & c);
    let t1 = add64(
        add64(add64(add64(h, big_sigma1_512(e)), ch), k512()[t]),
        schedule_512(m, t),
    );
    let t2 = add64(big_sigma0_512(a), maj);
    (add64(t1, t2), a, b, c, add64(d, t1), e, f, g)
}

/// The working variables after the first `n` steps.
pub open spec fn steps_512(v: Vars512, m: Seq<u8>, n: nat) -> Vars512
    decreases n,
{
    if n == 0 {
        v
    } else {
        step_512(steps_512(v, m, (n - 1) as nat), m, n - 1)
    }
}

/// The SHA-512 compression function: 80 steps, then the input state is
/// added word by word.
pub open spec fn block_512(s: Seq<u64>, m: Seq<u8>) -> Seq<u64> {
    let v0 = (s[0], s[1], s[2], s[3], s[4], s[5], s[6], s[7]);
    let (a, b, c, d, e, f, g, h) = steps_512(v0, m, 80);
    seq![
        add64(s[0], a), add64(s[1], b), add64(s[2], c), add64(s[3], d),
        add64(s[4], e), add64(s[5], f), add64(s[6], g), add64(s[7], h),
    ]
}

/// The SHA-512 compression function as a step of a block fold.
pub open spec fn compression_512() -> spec_fn(Seq<u64>, [u8; 128]) -> Seq<u64> {
    |s: Seq<u64>, m: [u8; 128]| block_512(s, m@)
}

fn schedule_exec_512(block: &[u8; 128]) -> (w: Vec<u64>)
    ensures
        w@.len() == 80,
        forall|t: int| 0 <= t < 80 ==> w@[t] == #[trigger] schedule_512(block@, t),
{
    let mut w: Vec<u64> = Vec::new();
    let mut t: usize = 0;
    while t < 80
        invariant
            t <= 80,
            w@.len() == t,
            forall|j: int| 0 <= j < t ==> w@[j] == #[trigger] schedule_512(block@, j),
        decreases 80 - t,
    {
        let x = if t < 16 {
            load_be64(block, t)
        } else {
            assert(w@[t - 2] == schedule_512(block@, t - 2));
            assert(w@[t - 7] == schedule_512(block@, t - 7));
            assert(w@[t - 15] == schedule_512(block@, t - 15));
            assert(w@[t - 16] == schedule_512(block@, t - 16));
            let x2 = w[t - 2];
            let x15 = w[t - 15];
            let s1 = rotr64_exec(x2, 19) ^ rotr64_exec(x2, 61) ^ (x2 >> 6u64);
            let s0 = rotr64_exec(x15, 1) ^ rotr64_exec(x15, 8) ^ (x15 >> 7u64);
            s1.wrapping_add(w[t - 7]).wrapping_add(s0).wrapping_add(w[t - 16])
        };
        assert(x == schedule_512(block@, t as int));
        w.push(x);
        t = t + 1;
    }
    w
}

fn compress_block_512(state: &mut [u64; 8], block: &[u8; 128])
    ensures
        final(state)@ == block_512(old(state)@, block@),
{
    let k: [u64; 80] = [
        0x428a2f98d728ae22, 0x7137449123ef65cd, 0xb5c0fbcfec4d3b2f, 0xe9b5dba58189dbbc,
        0x3956c25bf348b538, 0x59f111f1b605d019, 0x923f82a4af194f9b, 0xab1c5ed5da6d8118,
        0xd807aa98a3030242, 0x12835b0145706fbe, 0x243185be4ee4b28c, 0x550c7dc3d5ffb4e2,
        0x72be5d74f27b896f, 0x80deb1fe3b1696b1, 0x9bdc06a725c71235, 0xc19bf174cf692694,
        0xe49b69c19ef14ad2, 0xefbe4786384f25e3, 0x0fc19dc68b8cd5b5, 0x240ca1cc77ac9c65,
        0x2de92c6f592b0275, 0x4a7484aa6ea6e483, 0x5cb0a9dcbd41fbd4, 0x76f988da831153b5,
        0x983e5152ee66dfab, 0xa831c66d2db43210, 0xb00327c898fb213f, 0xbf597fc7beef0ee4,
        0xc6e00bf33da88fc2, 0xd5a79147930aa725, 0x06ca6351e003826f, 0x142929670a0e6e70,
        0x27b70a8546d22ffc, 0x2e1b21385c26c926, 0x4d2c6dfc5ac42aed, 0x53380d139d95b3df,
        0x650a73548baf63de, 0x766a0abb3c77b2a8, 0x81c2c92e47edaee6, 0x92722c851482353b,
        0xa2bfe8a14cf10364, 0xa81a664bbc423001, 0xc24b8b70d0f89791, 0xc76c51a30654be30,
        0xd192e819d6ef5218, 0xd69906245565a910, 0xf40e35855771202a, 0x106aa07032bbd1b8,
        0x19a4c116b8d2d0c8, 0x1e376c085141ab53, 0x2748774cdf8eeb99, 0x34b0bcb5e19b48a8,
        0x391c0cb3c5c95a63, 0x4ed8aa4ae3418acb, 0x5b9cca4f7763e373, 0x682e6ff3d6b2b8a3,
        0x748f82ee5defb2fc, 0x78a5636f43172f60, 0x84c87814a1f0ab72, 0x8cc702081a6439ec,
        0x90befffa23631e28, 0xa4506cebde82bde9, 0xbef9a3f7b2c67915, 0xc67178f2e372532b,
        0xca273eceea26619c, 0xd186b8c721c0c207, 0xeada7dd6cde0eb1e, 0xf57d4f7fee6ed178,
        0x06f067aa72176fba, 0x0a637dc5a2c898a6, 0x113f9804bef90dae, 0x1b710b35131c471b,
        0x28db77f523047d84, 0x32caab7b40c72493, 0x3c9ebe0a15c9bebc, 0x431d67c49c100d4c,
        0x4cc5d4becb3e42b6, 0x597f299cfc657e2a, 0x5fcb6fab3ad6faec, 0x6c44198c4a475817,
    ];
    assert(k@ =~= k512());
    let w = schedule_exec_512(block);
    let ghost s0 = state@;
    let ghost v0 = (s0[0], s0[1], s0[2], s0[3], s0[4], s0[5], s0[6], s0[7]);
    let mut a: u64 = state[0];
    let mut b: u64 = state[1];
    let mut c: u64 = state[2];
    let mut d: u64 = state[3];
    let mut e: u64 = state[4];
    let mut f: u64 = state[5];
    let mut g: u64 = state[6];
    let mut h: u64 = state[7];
    let mut t: usize = 0;
    while t < 80
        invariant
            0 <= t <= 80,
            state@ == s0,
            k@ == k512(),
            w@.len() == 80,
            forall|j: int| 0 <= j < 80 ==> w@[j] == #[trigger] schedule_512(block@, j),
            (a, b, c, d, e, f, g, h) == steps_512(v0, block@, t as nat),
        decreases 80 - t,
    {
        let ch = (e & f) ^ (!e & g);
        let maj = (a & b) ^ (a & c) ^ (b & c);
        let bs1 = rotr64_exec(e, 14) ^ rotr64_exec(e, 18) ^ rotr64_exec(e, 41);
        let bs0 = rotr64_exec(a, 28) ^ rotr64_exec(a, 34) ^ rotr64_exec(a, 39);
        let t1 = h.wrapping_add(bs1).wrapping_add(ch).wrapping_add(k[t]).wrapping_add(w[t]);
        let t2 = bs0.wrapping_add(maj);
        h = g;
        g = f;
        f = e;
        e = d.wrapping_add(t1);
        d = c;
        c = b;
        b = a;
        a = t1.wrapping_add(t2);
        t = t + 1;
    }
    state[0] = state[0].wrapping_add(a);
    state[1] = state[1].wrapping_add(b);
    state[2] = state[2].wrapping_add(c);
    state[3] = state[3].wrapping_add(d);
    state[4] = state[4].wrapping_add(e);
    state[5] = state[5].wrapping_add(f);
    state[6] = state[6].wrapping_add(g);
    state[7] = state[7].wrapping_add(h);
    assert(state@ =~= block_512(s0, block@));
}

/// SHA-512 compression over a sequence of blocks: `state` ends as the fold
/// of every block, in order, through the compression function; no blocks
/// leave it unchanged.
pub fn compress512(state: &mut [u64; 8], blocks: &[[u8; 128]])
    ensures
        final(state)@ == fold_blocks(compression_512(), old(state)@, blocks@),
        blocks@.len() == 0 ==> final(state)@ == old(state)@,
{
    let ghost s0 = state@;
    let mut i: usize = 0;
    while i < blocks.len()
        invariant
            0 <= i <= blocks@.len(),
            state@ == fold_blocks(compression_512(), s0, blocks@.subrange(0, i as int)),
        decreases blocks@.len() - i,
    {
        compress_block_512(state, &blocks[i]);
        proof {
            let pre = blocks@.subrange(0, i as int + 1);
            assert(pre.drop_last() =~= blocks@.subrange(0, i as int));
            assert(pre.last() == blocks@[i as int]);
        }
        i = i + 1;
    }
    assert(blocks@.subrange(0, blocks@.len() as int) =~= blocks@);
}

/// Whether an AArch64 `AT_HWCAP` mask reports the SHA-256 instructions.
pub fn sha1_supported(hwcap: u64) -> (r: bool)
    ensures
        r == (hwcap & HWCAP_SHA2 != 0),
{
    hwcap & HWCAP_SHA2 != 0
}

} // verus!
