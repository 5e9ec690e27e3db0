//! The 128-bit MurmurHash3 (x64_128).
use crate::murmur64::{read_le64, word64_le};
use vstd::prelude::*;

verus! {

/// First word multiplier.
pub const C1: u64 = 0x87c3_7b91_1142_53d5;

/// Second word multiplier.
pub const C2: u64 = 0x4cf5_ad43_2745_937f;

/// Constant added to the first half after each block.
pub const C3: u64 = 0x52dc_e729;

/// Constant added to the second half after each block.
pub const C4: u64 = 0x3849_5ab5;

/// Circular left rotation of a 64-bit word by `r` bits, `0 < r < 64`.
pub open spec fn rotl64(x: u64, r: u64) -> u64 {
    (x << r) | (x >> ((64 - r) as u64))
}

/// The premix of the first word of a block.
pub open spec fn mix_k1(k: u64) -> u64 {
    rotl64(k.wrapping_mul(C1), 31).wrapping_mul(C2)
}

/// The premix of the second word of a block.
pub open spec fn mix_k2(k: u64) -> u64 {
    rotl64(k.wrapping_mul(C2), 33).wrapping_mul(C1)
}

/// One 16-byte block `(k1, k2)` folded into the state `(h1, h2)`.
pub open spec fn block_step(h: (u64, u64), k1: u64, k2: u64) -> (u64, u64) {
    let h1 = rotl64(h.0 ^ mix_k1(k1), 27).wrapping_add(h.1).wrapping_mul(5).wrapping_add(C3);
    let h2 = rotl64(h.1 ^ mix_k2(k2), 31).wrapping_add(h1).wrapping_mul(5).wrapping_add(C4);
    (h1, h2)
}

/// The state after the first `n` complete 16-byte blocks of `s`.
pub open spec fn blocks_hash128(s: Seq<u8>, seed: u32, n: nat) -> (u64, u64)
    decreases n,
{
    if n == 0 {
        (seed as u64, seed as u64)
    } else {
        block_step(
            blocks_hash128(s, seed, (n - 1) as nat),
            word64_le(s, 2 * (n - 1)),
            word64_le(s, 2 * (n - 1) + 1),
        )
    }
}

/// The partial second word: tail bytes 8 to 14.
pub open spec fn tail_k2(s: Seq<u8>) -> u64 {
    let r = s.len() % 16;
    let b = s.len() - r;
    let k0 = 0u64;
    let k14 = if r >= 15 { k0 ^ ((s[b + 14] as u64) << 48u64) } else { k0 };
    let k13 = if r >= 14 { k14 ^ ((s[b + 13] as u64) << 40u64) } else { k14 };
    let k12 = if r >= 13 { k13 ^ ((s[b + 12] as u64) << 32u64) } else { k13 };
    let k11 = if r >= 12 { k12 ^ ((s[b + 11] as u64) << 24u64) } else { k12 };
    let k10 = if r >= 11 { k11 ^ ((s[b + 10] as u64) << 16u64) } else { k11 };
    let k9 = if r >= 10 { k10 ^ ((s[b + 9] as u64) << 8u64) } else { k10 };
    k9 ^ (s[b + 8] as u64)
}

/// The partial first word: tail bytes 0 to 7.
pub open spec fn tail_k1(s: Seq<u8>) -> u64 {
    let r = s.len() % 16;
    let b = s.len() - r;
    let k0 = 0u64;
    let k7 = if r >= 8 { k0 ^ ((s[b + 7] as u64) << 56u64) } else { k0 };
    let k6 = if r >= 7 { k7 ^ ((s[b + 6] as u64) << 48u64) } else { k7 };
    let k5 = if r >= 6 { k6 ^ ((s[b + 5] as u64) << 40u64) } else { k6 };
    let k4 = if r >= 5 { k5 ^ ((s[b + 4] as u64) << 32u64) } else { k5 };
    let k3 = if r >= 4 { k4 ^ ((s[b + 3] as u64) << 24u64) } else { k4 };
    let k2 = if r >= 3 { k3 ^ ((s[b + 2] as u64) << 16u64) } else { k3 };
    let k1 = if r >= 2 { k2 ^ ((s[b + 1] as u64) << 8u64) } else { k2 };
    k1 ^ (s[b] as u64)
}

/// The fold of the 0 to 15 bytes after the last complete block.
pub open spec fn tail_hash128(h: (u64, u64), s: Seq<u8>) -> (u64, u64) {
    let r = s.len() % 16;
    if r == 0 {
        h
    } else {
        let h2 = if r >= 9 { h.1 ^ mix_k2(tail_k2(s)) } else { h.1 };
        (h.0 ^ mix_k1(tail_k1(s)), h2)
    }
}

/// The 64-bit avalanche mix.
pub open spec fn fmix64_spec(k: u64) -> u64 {
    let t1 = k ^ (k >> 33u64);
    let t2 = t1.wrapping_mul(0xff51_afd7_ed55_8ccd);
    let t3 = t2 ^ (t2 >> 33u64);
    let t4 = t3.wrapping_mul(0xc4ce_b9fe_1a85_ec53);
    t4 ^ (t4 >> 33u64)
}

/// The finalization of the state into the 128-bit result, second half high.
pub open spec fn finalize128(h: (u64, u64), len: u64) -> u128 {
    let a1 = h.0 ^ len;
    let a2 = h.1 ^ len;
    let b1 = a1.wrapping_add(a2);
    let b2 = a2.wrapping_add(b1);
    let c1 = fmix64_spec(b1);
    let c2 = fmix64_spec(b2);
    let d1 = c1.wrapping_add(c2);
    let d2 = c2.wrapping_add(d1);
    ((d2 as u128) << 64u128) | (d1 as u128)
}

/// MurmurHash3 x64_128 of `s` under `seed`.
pub open spec fn murmur3_128(s: Seq<u8>, seed: u32) -> u128 {
    finalize128(
        tail_hash128(blocks_hash128(s, seed, s.len() / 16), s),
        (s.len() % 0x1_0000_0000_0000_0000) as u64,
    )
}

/// Rotates `x` left by `r` bits.
fn rotate_left64(x: u64, r: u64) -> (res: u64)
    requires
        0 < r < 64,
    ensures
        res == rotl64(x, r),
{
    (x << r) | (x >> (64 - r))
}

/// The 64-bit avalanche mix.
pub fn fmix64(k: u64) -> (res: u64)
    ensures
        res == fmix64_spec(k),
{
    let t1 = k ^ (k >> 33);
    let t2 = t1.wrapping_mul(0xff51_afd7_ed55_8ccd);
    let t3 = t2 ^ (t2 >> 33);
    let t4 = t3.wrapping_mul(0xc4ce_b9fe_1a85_ec53);
    t4 ^ (t4 >> 33)
}

/// Reads the partial second word of the tail.
fn read_tail_k2(bytes: &[u8]) -> (k: u64)
    requires
        bytes@.len() % 16 >= 9,
    ensures
        k == tail_k2(bytes@),
{
    let len = bytes.len();
    let r = len % 16;
    let b = len - r;
    let mut k: u64 = 0;
    if r >= 15 {
        k = k ^ ((bytes[b + 14] as u64) << 48);
    }
    if r >= 14 {
        k = k ^ ((bytes[b + 13] as u64) << 40);
    }
    if r >= 13 {
        k = k ^ ((bytes[b + 12] as u64) << 32);
    }
    if r >= 12 {
        k = k ^ ((bytes[b + 11] as u64) << 24);
    }
    if r >= 11 {
        k = k ^ ((bytes[b + 10] as u64) << 16);
    }
    if r >= 10 {
        k = k ^ ((bytes[b + 9] as u64) << 8);
    }
    k ^ (bytes[b + 8] as u64)
}

/// Reads the partial first word of the tail.
fn read_tail_k1(bytes: &[u8]) -> (k: u64)
    requires
        bytes@.len() % 16 >= 1,
    ensures
        k == tail_k1(bytes@),
{
    let len = bytes.len();
    let r = len % 16;
    let b = len - r;
    let mut k: u64 = 0;
    if r >= 8 {
        k = k ^ ((bytes[b + 7] as u64) << 56);
    }
    if r >= 7 {
        k = k ^ ((bytes[b + 6] as u64) << 48);
    }
    if r >= 6 {
        k = k ^ ((bytes[b + 5] as u64) << 40);
    }
    if r >= 5 {
        k = k ^ ((bytes[b + 4] as u64) << 32);
    }
    if r >= 4 {
        k = k ^ ((bytes[b + 3] as u64) << 24);
    }
    if r >= 3 {
        k = k ^ ((bytes[b + 2] as u64) << 16);
    }
    if r >= 2 {
        k = k ^ ((bytes[b + 1] as u64) << 8);
    }
    k ^ (bytes[b] as u64)
}

/// Computes the 128-bit MurmurHash3 (x64_128) of `bytes` under `seed`.
pub fn murmurhash3_128_with_seed(bytes: &[u8], seed: u32) -> (res: u128)
    ensures
        res == murmur3_128(bytes@, seed),
{
    let len = bytes.len();
    let mut h1: u64 = seed as u64;
    let mut h2: u64 = seed as u64;
    let mut p: usize = 0;
    while len - p >= 16
        invariant
            len == bytes@.len(),
            p <= len,
            p % 16 == 0,
            (h1, h2) == blocks_hash128(bytes@, seed, (p / 16) as nat),
        decreases len - p,
    {
        assert((p + 16) / 16 == p / 16 + 1 && p / 8 == 2 * (p / 16) && (p + 8) / 8 == 2 * (p / 16) + 1);
        let k1 = read_le64(bytes, p);
        let k2 = read_le64(bytes, p + 8);
        h1 = h1 ^ rotate_left64(k1.wrapping_mul(C1), 31).wrapping_mul(C2);
        h1 = rotate_left64(h1, 27).wrapping_add(h2).wrapping_mul(5).wrapping_add(C3);
        h2 = h2 ^ rotate_left64(k2.wrapping_mul(C2), 33).wrapping_mul(C1);
        h2 = rotate_left64(h2, 31).wrapping_add(h1).wrapping_mul(5).wrapping_add(C4);
        p = p + 16;
    }
    assert(p / 16 == len / 16);
    let r = len % 16;
    if r != 0 {
        if r >= 9 {
            h2 = h2 ^ rotate_left64(read_tail_k2(bytes).wrapping_mul(C2), 33).wrapping_mul(C1);
        }
        h1 = h1 ^ rotate_left64(read_tail_k1(bytes).wrapping_mul(C1), 31).wrapping_mul(C2);
    }
    assert(len as int % 0x1_0000_0000_0000_0000 == len);
    let n = len as u64;
    h1 = h1 ^ n;
    h2 = h2 ^ n;
    h1 = h1.wrapping_add(h2);
    h2 = h2.wrapping_add(h1);
    h1 = fmix64(h1);
    h2 = fmix64(h2);
    h1 = h1.wrapping_add(h2);
    h2 = h2.wrapping_add(h1);
    ((h2 as u128) << 64) | (h1 as u128)
}

/// Computes the 128-bit MurmurHash3 of `bytes` with seed 0.
pub fn murmurhash3_128(bytes: &[u8]) -> (res: u128)
    ensures
        res == murmur3_128(bytes@, 0),
{
    murmurhash3_128_with_seed(bytes, 0)
}

} // verus!
