use hash_kernels::md5;
use hash_kernels::sha1;
use hash_kernels::sha2;
use hash_kernels::whirlpool;

const MD5_IV: [u32; 4] = [0x67452301, 0xefcdab89, 0x98badcfe, 0x10325476];
const SHA1_IV: [u32; 5] = [0x67452301, 0xefcdab89, 0x98badcfe, 0x10325476, 0xc3d2e1f0];
const SHA256_IV: [u32; 8] = [
    0x6a09e667, 0xbb67ae85, 0x3c6ef372, 0xa54ff53a, 0x510e527f, 0x9b05688c, 0x1f83d9ab, 0x5be0cd19,
];
const SHA512_IV: [u64; 8] = [
    0x6a09e667f3bcc908,
    0xbb67ae8584caa73b,
    0x3c6ef372fe94f82b,
    0xa54ff53a5f1d36f1,
    0x510e527fade682d1,
    0x9b05688c2b3e6c1f,
    0x1f83d9abfb41bd6b,
    0x5be0cd19137e2179,
];

fn hex(bytes: &[u8]) -> String {
    bytes.iter().map(|b| format!("{:02x}", b)).collect()
}

fn le_hex32(words: &[u32]) -> String {
    hex(&words.iter().flat_map(|w| w.to_le_bytes()).collect::<Vec<u8>>())
}

fn be_hex32(words: &[u32]) -> String {
    hex(&words.iter().flat_map(|w| w.to_be_bytes()).collect::<Vec<u8>>())
}

fn be_hex64(words: &[u64]) -> String {
    hex(&words.iter().flat_map(|w| w.to_be_bytes()).collect::<Vec<u8>>())
}

fn le_hex64(words: &[u64]) -> String {
    hex(&words.iter().flat_map(|w| w.to_le_bytes()).collect::<Vec<u8>>())
}

/// "abc" padded into one 64-byte block, with its bit length big-endian.
fn abc_block_be() -> [u8; 64] {
    let mut b = [0u8; 64];
    b[0] = b'a';
    b[1] = b'b';
    b[2] = b'c';
    b[3] = 0x80;
    b[63] = 24;
    b
}

fn sample_blocks() -> [[u8; 64]; 3] {
    let mut blocks = [[0u8; 64]; 3];
    for (n, block) in blocks.iter_mut().enumerate() {
        for (i, byte) in block.iter_mut().enumerate() {
            *byte = (i * 7 + n * 31 + 1) as u8;
        }
    }
    blocks
}

fn sample_blocks_128() -> [[u8; 128]; 3] {
    let mut blocks = [[0u8; 128]; 3];
    for (n, block) in blocks.iter_mut().enumerate() {
        for (i, byte) in block.iter_mut().enumerate() {
            *byte = (i * 13 + n * 17 + 5) as u8;
        }
    }
    blocks
}

#[test]
fn md5_empty_message_digest() {
    let mut state = MD5_IV;
    let mut block = [0u8; 64];
    block[0] = 0x80;
    md5::compress(&mut state, &[block]);
    assert_eq!(le_hex32(&state), "d41d8cd98f00b204e9800998ecf8427e");
}

#[test]
fn md5_abc_digest() {
    let mut state = MD5_IV;
    let mut block = [0u8; 64];
    block[0] = b'a';
    block[1] = b'b';
    block[2] = b'c';
    block[3] = 0x80;
    block[56] = 24;
    md5::compress(&mut state, &[block]);
    assert_eq!(le_hex32(&state), "900150983cd24fb0d6963f7d28e17f72");
}

#[test]
fn sha1_abc_digest() {
    let mut state = SHA1_IV;
    sha1::compress(&mut state, &[abc_block_be()]);
    assert_eq!(be_hex32(&state), "a9993e364706816aba3e25717850c26c9cd0d89d");
}

#[test]
fn sha256_abc_digest() {
    let mut state = SHA256_IV;
    sha2::compress256(&mut state, &[abc_block_be()]);
    assert_eq!(
        be_hex32(&state),
        "ba7816bf8f01cfea414140de5dae2223b00361a396177a9cb410ff61f20015ad"
    );
}

#[test]
fn sha512_abc_digest() {
    let mut state = SHA512_IV;
    let mut block = [0u8; 128];
    block[0] = b'a';
    block[1] = b'b';
    block[2] = b'c';
    block[3] = 0x80;
    block[127] = 24;
    sha2::compress512(&mut state, &[block]);
    assert_eq!(
        be_hex64(&state),
        "ddaf35a193617abacc417349ae20413112e6fa4e89a97ea20a9eeee64b55d39a\
         2192992a274fc1a836ba3c23a3feebbd454d4423643ce80e2a9ac94fa54ca49f"
    );
}

#[test]
fn whirlpool_empty_message_digest() {
    let mut state = [0u64; 8];
    let mut block = [0u8; 64];
    block[0] = 0x80;
    whirlpool::compress(&mut state, &[block]);
    assert_eq!(
        le_hex64(&state),
        "19fa61d75522a4669b44e39c1d2e1726c530232130d407f89afee0964997f7a7\
         3e83be698b288febcf88e3e03c4f0757ea8964e59b63d93708b138cc42a66eb3"
    );
}

#[test]
fn empty_block_list_leaves_every_state_unchanged() {
    let mut m = [1u32, 2, 3, 4];
    md5::compress(&mut m, &[]);
    assert_eq!(m, [1, 2, 3, 4]);
    let mut s1 = [5u32, 6, 7, 8, 9];
    sha1::compress(&mut s1, &[]);
    assert_eq!(s1, [5, 6, 7, 8, 9]);
    let mut s256 = SHA256_IV;
    sha2::compress256(&mut s256, &[]);
    assert_eq!(s256, SHA256_IV);
    let mut s512 = SHA512_IV;
    sha2::compress512(&mut s512, &[]);
    assert_eq!(s512, SHA512_IV);
    let mut w = [11u64, 12, 13, 14, 15, 16, 17, 18];
    whirlpool::compress(&mut w, &[]);
    assert_eq!(w, [11, 12, 13, 14, 15, 16, 17, 18]);
}

#[test]
fn md5_one_call_equals_three_calls() {
    let blocks = sample_blocks();
    let mut once = MD5_IV;
    md5::compress(&mut once, &blocks);
    let mut step = MD5_IV;
    for b in blocks.iter() {
        md5::compress(&mut step, &[*b]);
    }
    assert_eq!(once, step);
    assert_ne!(once, MD5_IV);
}

#[test]
fn sha1_one_call_equals_three_calls() {
    let blocks = sample_blocks();
    let mut once = SHA1_IV;
    sha1::compress(&mut once, &blocks);
    let mut step = SHA1_IV;
    for b in blocks.iter() {
        sha1::compress(&mut step, &[*b]);
    }
    assert_eq!(once, step);
    assert_ne!(once, SHA1_IV);
}

#[test]
fn sha256_one_call_equals_three_calls() {
    let blocks = sample_blocks();
    let mut once = SHA256_IV;
    sha2::compress256(&mut once, &blocks);
    let mut step = SHA256_IV;
    for b in blocks.iter() {
        sha2::compress256(&mut step, &[*b]);
    }
    assert_eq!(once, step);
    assert_ne!(once, SHA256_IV);
}

#[test]
fn sha512_one_call_equals_three_calls() {
    let blocks = sample_blocks_128();
    let mut once = SHA512_IV;
    sha2::compress512(&mut once, &blocks);
    let mut step = SHA512_IV;
    for b in blocks.iter() {
        sha2::compress512(&mut step, &[*b]);
    }
    assert_eq!(once, step);
    assert_ne!(once, SHA512_IV);
}

#[test]
fn whirlpool_one_call_equals_three_calls() {
    let blocks = sample_blocks();
    let mut once = [0u64; 8];
    whirlpool::compress(&mut once, &blocks);
    let mut step = [0u64; 8];
    for b in blocks.iter() {
        whirlpool::compress(&mut step, &[*b]);
    }
    assert_eq!(once, step);
    assert_ne!(once, [0u64; 8]);
}

#[test]
fn order_of_blocks_matters() {
    let blocks = sample_blocks();
    let mut forward = SHA256_IV;
    sha2::compress256(&mut forward, &[blocks[0], blocks[1]]);
    let mut backward = SHA256_IV;
    sha2::compress256(&mut backward, &[blocks[1], blocks[0]]);
    assert_ne!(forward, backward);
}

#[test]
fn zero_state_zero_block_is_deterministic() {
    let mut a = [0u32; 8];
    let mut b = [0u32; 8];
    sha2::compress256(&mut a, &[[0u8; 64]]);
    sha2::compress256(&mut b, &[[0u8; 64]]);
    assert_eq!(a, b);
    assert_ne!(a, [0u32; 8]);
}
