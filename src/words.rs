use vstd::prelude::*;

verus! {

/// Addition of 32-bit words modulo 2^32.
pub open spec fn add32(a: u32, b: u32) -> u32 {
    vstd::wrapping::u32_specs::wrapping_add(a, b)
}

/// Addition of 64-bit words modulo 2^64.
pub open spec fn add64(a: u64, b: u64) -> u64 {
    vstd::wrapping::u64_specs::wrapping_add(a, b)
}

/// Left rotation of a 32-bit word by `n` bits, `0 < n < 32`.
pub open spec fn rotl32(x: u32, n: u32) -> u32 {
    (x << n) | (x >> ((32 - n) as u32))
}

/// Right rotation of a 32-bit word by `n` bits, `0 < n < 32`.
pub open spec fn rotr32(x: u32, n: u32) -> u32 {
    (x >> n) | (x << ((32 - n) as u32))
}

/// Right rotation of a 64-bit word by `n` bits, `0 < n < 64`.
pub open spec fn rotr64(x: u64, n: u64) -> u64 {
    (x >> n) | (x << ((64 - n) as u64))
}

/// The little-endian 32-bit word at word index `i` of `b`.
pub open spec fn le32_at(b: Seq<u8>, i: int) -> u32 {
    (b[4 * i] as u32) | ((b[4 * i + 1] as u32) << 8u32) | ((b[4 * i + 2] as u32) << 16u32) | ((
    b[4 * i + 3] as u32) << 24u32)
}

/// The big-endian 32-bit word at word index `i` of `b`.
pub open spec fn be32_at(b: Seq<u8>, i: int) -> u32 {
    ((b[4 * i] as u32) << 24u32) | ((b[4 * i + 1] as u32) << 16u32) | ((b[4 * i + 2] as u32)
        << 8u32) | (b[4 * i + 3] as u32)
}

/// The big-endian 64-bit word at word index `i` of `b`.
pub open spec fn be64_at(b: Seq<u8>, i: int) -> u64 {
    ((b[8 * i] as u64) << 56u64) | ((b[8 * i + 1] as u64) << 48u64) | ((b[8 * i + 2] as u64)
        << 40u64) | ((b[8 * i + 3] as u64) << 32u64) | ((b[8 * i + 4] as u64) << 24u64) | ((b[8
        * i + 5] as u64) << 16u64) | ((b[8 * i + 6] as u64) << 8u64) | (b[8 * i + 7] as u64)
}

pub fn rotl32_exec(x: u32, n: u32) -> (r: u32)
    requires
        0 < n < 32,
    ensures
        r == rotl32(x, n),
{
    (x << n) | (x >> (32 - n))
}

pub fn rotr32_exec(x: u32, n: u32) -> (r: u32)
    requires
        0 < n < 32,
    ensures
        r == rotr32(x, n),
{
    (x >> n) | (x << (32 - n))
}

pub fn rotr64_exec(x: u64, n: u64) -> (r: u64)
    requires
        0 < n < 64,
    ensures
        r == rotr64(x, n),
{
    (x >> n) | (x << (64 - n))
}

pub fn load_le32(b: &[u8; 64], i: usize) -> (r: u32)
    requires
        i < 16,
    ensures
        r == le32_at(b@, i as int),
{
    (b[4 * i] as u32) | ((b[4 * i + 1] as u32) << 8u32) | ((b[4 * i + 2] as u32) << 16u32) | ((b[4
        * i + 3] as u32) << 24u32)
}

pub fn load_be32(b: &[u8; 64], i: usize) -> (r: u32)
    requires
        i < 16,
    ensures
        r == be32_at(b@, i as int),
{
    ((b[4 * i] as u32) << 24u32) | ((b[4 * i + 1] as u32) << 16u32) | ((b[4 * i + 2] as u32)
        << 8u32) | (b[4 * i + 3] as u32)
}

pub fn load_be64(b: &[u8; 128], i: usize) -> (r: u64)
    requires
        i < 16,
    ensures
        r == be64_at(b@, i as int),
{
    ((b[8 * i] as u64) << 56u64) | ((b[8 * i + 1] as u64) << 48u64) | ((b[8 * i + 2] as u64)
        << 40u64) | ((b[8 * i + 3] as u64) << 32u64) | ((b[8 * i + 4] as u64) << 24u64) | ((b[8
        * i + 5] as u64) << 16u64) | ((b[8 * i + 6] as u64) << 8u64) | (b[8 * i + 7] as u64)
}

} // verus!
