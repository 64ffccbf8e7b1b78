use vstd::prelude::*;
use crate::chain::fold_blocks;

verus! {

/// The mini-box E of the Whirlpool S-box.
pub open spec fn mini_e() -> Seq<u8> {
    seq![0x1u8, 0xb, 0x9, 0xc, 0xd, 0x6, 0xf, 0x3, 0xe, 0x8, 0x7, 0x4, 0xa, 0x2, 0x5, 0x0]
}

/// The inverse of the mini-box E.
pub open spec fn mini_e_inv() -> Seq<u8> {
    seq![0xfu8, 0x0, 0xd, 0x7, 0xb, 0xe, 0x5, 0xa, 0x9, 0x2, 0xc, 0x1, 0x3, 0x4, 0x8, 0x6]
}

/// The mini-box R of the Whirlpool S-box.
pub open spec fn mini_r() -> Seq<u8> {
    seq![0x7u8, 0xc, 0xb, 0xd, 0xe, 0x4, 0x9, 0xf, 0x6, 0x3, 0x8, 0xa, 0x2, 0x5, 0x1, 0x0]
}

/// The Whirlpool S-box, built from the mini-boxes E, E^-1 and R.
pub open spec fn sbox(x: u8) -> u8 {
    let a = mini_e()[(x >> 4u8) as int];
    let b = mini_e_inv()[(x & 0xf) as int];
    let r = mini_r()[(a ^ b) as int];
    (mini_e()[(a ^ r) as int] << 4u8) | mini_e_inv()[(b ^ r) as int]
}

/// Multiplication by x in GF(2^8) modulo x^8 + x^4 + x^3 + x^2 + 1.
pub open spec fn xtime(x: u8) -> u8 {
    if x & 0x80 != 0 {
        (x << 1u8) ^ 0x1d
    } else {
        x << 1u8
    }
}

/// Multiplication in GF(2^8) by one of the coefficients of the diffusion
/// matrix: 1, 2, 4, 5, 8 or 9.
pub open spec fn gf_mul(x: u8, c: u8) -> u8 {
    let x2 = xtime(x);
    let x4 = xtime(x2);
    let x8 = xtime(x4);
    if c == 1 {
        x
    } else if c == 2 {
        x2
    } else if c == 4 {
        x4
    } else if c == 5 {
        x4 ^ x
    } else if c == 8 {
        x8
    } else {
        x8 ^ x
    }
}

/// Entry `d` (mod 8) of the first row of the circulant diffusion matrix.
pub open spec fn circulant(d: int) -> u8 {
    seq![1u8, 1, 4, 1, 8, 5, 2, 9][d % 8]
}

/// The non-linear layer: the S-box on every byte of the 8x8 matrix.
pub open spec fn gamma(a: Seq<u8>) -> Seq<u8> {
    Seq::new(64, |p: int| sbox(a[p]))
}

/// The cyclical permutation: column `j` moves down by `j` rows.
pub open spec fn pi(a: Seq<u8>) -> Seq<u8> {
    Seq::new(64, |p: int| a[8 * ((p / 8 - p % 8) % 8) + p % 8])
}

/// Entry `(i, j)` of the matrix product of `a` with the diffusion matrix.
pub open spec fn theta_at(a: Seq<u8>, i: int, j: int) -> u8 {
    gf_mul(a[8 * i + 0], circulant(j - 0)) ^ gf_mul(a[8 * i + 1], circulant(j - 1)) ^ gf_mul(a[8 * i + 2], circulant(j - 2)) ^ gf_mul(a[8 * i + 3], circulant(j - 3)) ^ gf_mul(a[8 * i + 4], circulant(j - 4)) ^ gf_mul(a[8 * i + 5], circulant(j - 5)) ^ gf_mul(a[8 * i + 6], circulant(j - 6)) ^ gf_mul(a[8 * i + 7], circulant(j - 7))
}

/// The linear diffusion layer: each row times the circulant matrix.
pub open spec fn theta(a: Seq<u8>) -> Seq<u8> {
    Seq::new(64, |p: int| theta_at(a, p / 8, p % 8))
}

/// Byte-wise exclusive or of two matrices.
pub open spec fn xor_bytes(a: Seq<u8>, b: Seq<u8>) -> Seq<u8> {
    Seq::new(64, |p: int| a[p] ^ b[p])
}

/// One round with round key `k`: key addition after diffusion, permutation
/// and substitution.
pub open spec fn rho(k: Seq<u8>, a: Seq<u8>) -> Seq<u8> {
    xor_bytes(theta(pi(gamma(a))), k)
}

/// The round constant of round `r`, `1 <= r <= 10`: its first row holds
/// eight consecutive S-box entries, the other rows are zero.
pub open spec fn round_constant(r: int) -> Seq<u8> {
    Seq::new(64, |p: int| if p < 8 { sbox((8 * (r - 1) + p) as u8) } else { 0u8 })
}

/// Key and cipher state after the first `n` rounds, from key `k` and the
/// keyed input `s`.
pub open spec fn rounds(k: Seq<u8>, s: Seq<u8>, n: nat) -> (Seq<u8>, Seq<u8>)
    decreases n,
{
    if n == 0 {
        (k, s)
    } else {
        let (kp, sp) = rounds(k, s, (n - 1) as nat);
        let kn = rho(round_constant(n as int), kp);
        (kn, rho(kn, sp))
    }
}

/// The state words laid out as the 8x8 byte matrix: row `i` holds the
/// little-endian bytes of word `i`.
pub open spec fn state_bytes(s: Seq<u64>) -> Seq<u8> {
    Seq::new(64, |p: int| ((s[p / 8] >> ((8 * (p % 8)) as u64)) & 0xff) as u8)
}

/// The little-endian 64-bit word at word index `i` of `b`.
pub open spec fn le64_at(b: Seq<u8>, i: int) -> u64 {
    (b[8 * i] as u64) | ((b[8 * i + 1] as u64) << 8u64) | ((b[8 * i + 2] as u64) << 16u64) | ((b[8
        * i + 3] as u64) << 24u64) | ((b[8 * i + 4] as u64) << 32u64) | ((b[8 * i + 5] as u64)
        << 40u64) | ((b[8 * i + 6] as u64) << 48u64) | ((b[8 * i + 7] as u64) << 56u64)
}

/// The Whirlpool compression function (Miyaguchi-Preneel over the block
/// cipher W): ten rounds keyed from the state, then the result is combined
/// with the state and the block.
#[verifier::opaque]
pub open spec fn whirlpool_block(s: Seq<u64>, m: Seq<u8>) -> Seq<u64> {
    let h = state_bytes(s);
    let (k, c) = rounds(h, xor_bytes(m, h), 10);
    let out = xor_bytes(xor_bytes(c, h), m);
    Seq::new(8, |i: int| le64_at(out, i))
}

/// The Whirlpool compression function as a step of a block fold.
pub open spec fn whirlpool_compression() -> spec_fn(Seq<u64>, [u8; 64]) -> Seq<u64> {
    |s: Seq<u64>, m: [u8; 64]| whirlpool_block(s, m@)
}

fn sbox_exec(x: u8) -> (r: u8)
    ensures
        r == sbox(x),
{
    let e: [u8; 16] = [0x1, 0xb, 0x9, 0xc, 0xd, 0x6, 0xf, 0x3, 0xe, 0x8, 0x7, 0x4, 0xa, 0x2, 0x5, 0x0];
    let ei: [u8; 16] = [0xf, 0x0, 0xd, 0x7, 0xb, 0xe, 0x5, 0xa, 0x9, 0x2, 0xc, 0x1, 0x3, 0x4, 0x8, 0x6];
    let rr: [u8; 16] = [0x7, 0xc, 0xb, 0xd, 0xe, 0x4, 0x9, 0xf, 0x6, 0x3, 0x8, 0xa, 0x2, 0x5, 0x1, 0x0];
    assert(e@ =~= mini_e());
    assert(ei@ =~= mini_e_inv());
    assert(rr@ =~= mini_r());
    assert((x >> 4u8) < 16u8) by (bit_vector);
    assert((x & 0xf) < 16u8) by (bit_vector);
    let a = e[(x >> 4u8) as usize];
    let b = ei[(x & 0xf) as usize];
    assert(a < 16 && b < 16);
    assert(a < 16u8 && b < 16u8 ==> (a ^ b) < 16u8) by (bit_vector);
    let r = rr[(a ^ b) as usize];
    assert(r < 16);
    assert(a < 16u8 && r < 16u8 ==> (a ^ r) < 16u8) by (bit_vector);
    assert(b < 16u8 && r < 16u8 ==> (b ^ r) < 16u8) by (bit_vector);
    (e[(a ^ r) as usize] << 4u8) | ei[(b ^ r) as usize]
}

fn xtime_exec(x: u8) -> (r: u8)
    ensures
        r == xtime(x),
{
    if x & 0x80 != 0 {
        (x << 1u8) ^ 0x1d
    } else {
        x << 1u8
    }
}

fn gf_mul_exec(x: u8, c: u8) -> (r: u8)
    ensures
        r == gf_mul(x, c),
{
    let x2 = xtime_exec(x);
    let x4 = xtime_exec(x2);
    let x8 = xtime_exec(x4);
    if c == 1 {
        x
    } else if c == 2 {
        x2
    } else if c == 4 {
        x4
    } else if c == 5 {
        x4 ^ x
    } else if c == 8 {
        x8
    } else {
        x8 ^ x
    }
}

fn product_term(a: &[u8; 64], circ: &[u8; 8], i: usize, j: usize, t: usize) -> (r: u8)
    requires
        i < 8,
        j < 8,
        t < 8,
        circ@ == seq![1u8, 1, 4, 1, 8, 5, 2, 9],
    ensures
        r == gf_mul(pi(gamma(a@))[8 * i + t], circulant(j - t)),
{
    let src = 8 * ((i + 8 - t) % 8) + t;
    proof {
        let q = 8 * i + t;
        assert(q / 8 == i as int && q % 8 == t as int);
        assert((i - t) % 8 == (i + 8 - t) % 8);
        assert((j - t) % 8 == (j + 8 - t) % 8);
        assert(pi(gamma(a@))[q] == gamma(a@)[src as int]);
    }
    gf_mul_exec(sbox_exec(a[src]), circ[(j + 8 - t) % 8])
}

fn rho_exec(k: &[u8; 64], a: &[u8; 64]) -> (r: [u8; 64])
    ensures
        r@ == rho(k@, a@),
{
    let circ: [u8; 8] = [1, 1, 4, 1, 8, 5, 2, 9];
    assert(circ@ =~= seq![1u8, 1, 4, 1, 8, 5, 2, 9]);
    let mut r: [u8; 64] = [0u8; 64];
    let mut p: usize = 0;
    while p < 64
        invariant
            p <= 64,
            circ@ == seq![1u8, 1, 4, 1, 8, 5, 2, 9],
            forall|q: int| 0 <= q < p ==> r@[q] == #[trigger] rho(k@, a@)[q],
        decreases 64 - p,
    {
        let i = p / 8;
        let j = p % 8;
        let v = product_term(a, &circ, i, j, 0) ^ product_term(a, &circ, i, j, 1) ^ product_term(
            a,
            &circ,
            i,
            j,
            2,
        ) ^ product_term(a, &circ, i, j, 3) ^ product_term(a, &circ, i, j, 4) ^ product_term(
            a,
            &circ,
            i,
            j,
            5,
        ) ^ product_term(a, &circ, i, j, 6) ^ product_term(a, &circ, i, j, 7);
        proof {
            let pg = pi(gamma(a@));
            assert(theta(pg)[p as int] == theta_at(pg, i as int, j as int));
            assert(v == theta_at(pg, i as int, j as int));
        }
        r[p] = v ^ k[p];
        p = p + 1;
    }
    assert(r@ =~= rho(k@, a@));
    r
}

fn round_constant_exec(rnd: usize) -> (r: [u8; 64])
    requires
        1 <= rnd <= 10,
    ensures
        r@ == round_constant(rnd as int),
{
    let mut r: [u8; 64] = [0u8; 64];
    let mut p: usize = 0;
    while p < 8
        invariant
            p <= 8,
            1 <= rnd <= 10,
            forall|q: int| 0 <= q < p ==> r@[q] == #[trigger] round_constant(rnd as int)[q],
            forall|q: int| 8 <= q < 64 ==> r@[q] == 0,
        decreases 8 - p,
    {
        r[p] = sbox_exec((8 * (rnd - 1) + p) as u8);
        p = p + 1;
    }
    assert(r@ =~= round_constant(rnd as int));
    r
}

fn xor_exec(a: &[u8; 64], b: &[u8; 64]) -> (r: [u8; 64])
    ensures
        r@ == xor_bytes(a@, b@),
{
    let mut r: [u8; 64] = [0u8; 64];
    let mut p: usize = 0;
    while p < 64
        invariant
            p <= 64,
            forall|q: int| 0 <= q < p ==> r@[q] == #[trigger] xor_bytes(a@, b@)[q],
        decreases 64 - p,
    {
        r[p] = a[p] ^ b[p];
        p = p + 1;
    }
    assert(r@ =~= xor_bytes(a@, b@));
    r
}

fn state_bytes_exec(state: &[u64; 8]) -> (r: [u8; 64])
    ensures
        r@ == state_bytes(state@),
{
    let mut r: [u8; 64] = [0u8; 64];
    let mut p: usize = 0;
    while p < 64
        invariant
            p <= 64,
            forall|q: int| 0 <= q < p ==> r@[q] == #[trigger] state_bytes(state@)[q],
        decreases 64 - p,
    {
        r[p] = ((state[p / 8] >> ((8 * (p % 8)) as u64)) & 0xff) as u8;
        p = p + 1;
    }
    assert(r@ =~= state_bytes(state@));
    r
}

fn compress_block(state: &mut [u64; 8], block: &[u8; 64])
    ensures
        final(state)@ == whirlpool_block(old(state)@, block@),
{
    let ghost s0 = state@;
    let h = state_bytes_exec(state);
    let mut k = h;
    let mut c = xor_exec(block, &h);
    let mut rnd: usize = 1;
    while rnd <= 10
        invariant
            1 <= rnd <= 11,
            h@ == state_bytes(s0),
            (k@, c@) == rounds(h@, xor_bytes(block@, h@), (rnd - 1) as nat),
        decreases 11 - rnd,
    {
        let rc = round_constant_exec(rnd);
        k = rho_exec(&rc, &k);
        c = rho_exec(&k, &c);
        rnd = rnd + 1;
    }
    let out = xor_exec(&xor_exec(&c, &h), block);
    let mut i: usize = 0;
    while i < 8
        invariant
            i <= 8,
            forall|j: int| 0 <= j < i ==> state@[j] == #[trigger] le64_at(out@, j),
        decreases 8 - i,
    {
        state[i] = (out[8 * i] as u64) | ((out[8 * i + 1] as u64) << 8u64) | ((out[8 * i + 2] as u64)
            << 16u64) | ((out[8 * i + 3] as u64) << 24u64) | ((out[8 * i + 4] as u64) << 32u64) | ((
        out[8 * i + 5] as u64) << 40u64) | ((out[8 * i + 6] as u64) << 48u64) | ((out[8 * i
            + 7] as u64) << 56u64);
        i = i + 1;
    }
    reveal(whirlpool_block);
    assert(state@ =~= whirlpool_block(s0, block@));
}

/// Whirlpool compression over a sequence of blocks: `state` ends as the fold
/// of every block, in order, through the compression function; no blocks
/// leave it unchanged.
pub fn compress(state: &mut [u64; 8], blocks: &[[u8; 64]])
    ensures
        final(state)@ == fold_blocks(whirlpool_compression(), old(state)@, blocks@),
        blocks@.len() == 0 ==> final(state)@ == old(state)@,
{
    let ghost s0 = state@;
    let mut i: usize = 0;
    while i < blocks.len()
        invariant
            0 <= i <= blocks@.len(),
            state@ == fold_blocks(whirlpool_compression(), s0, blocks@.subrange(0, i as int)),
        decreases blocks@.len() - i,
    {
        compress_block(state, &blocks[i]);
        proof {
            let pre = blocks@.subrange(0, i as int + 1);
            assert(pre.drop_last() =~= blocks@.subrange(0, i as int));
            assert(pre.last() == blocks@[i as int]);
        }
        i = i + 1;
    }
    assert(blocks@.subrange(0, blocks@.len() as int) =~= blocks@);
}

} // verus!
