//! Lane-parallel kernels. The per-block premix is independent from block to
//! block, so it runs on a whole register of 32-bit lanes at once; the fold
//! into the running hash is a serial chain and visits the lanes one by one,
//! in byte order. A 128-bit register holds four lanes, a 256-bit one eight.
use crate::murmur32::{
    block_word, blocks_hash, finish, fold, fold_block, mix_k, murmur3_32, premix, read_block,
    rotate_left32, rotl32, C1, C2,
};
use vstd::prelude::*;

verus! {

/// Folds `ks` into `h` in order, first element first.
pub open spec fn fold_seq(h: u32, ks: Seq<u32>) -> u32
    decreases ks.len(),
{
    if ks.len() == 0 {
        h
    } else {
        fold_block(fold_seq(h, ks.drop_last()), ks.last())
    }
}

/// The premixed words of the `m` complete blocks of `s` from block `n` on.
pub open spec fn premixed_blocks(s: Seq<u8>, n: int, m: nat) -> Seq<u32> {
    Seq::new(m, |j: int| mix_k(block_word(s, n + j)))
}

/// The words of the `m` complete blocks of `s` from block `n` on.
pub open spec fn block_words(s: Seq<u8>, n: int, m: nat) -> Seq<u32> {
    Seq::new(m, |j: int| block_word(s, n + j))
}

/// Folding `m` more blocks one at a time is folding their premixed words in order.
pub proof fn lemma_blocks_hash_extend(s: Seq<u8>, seed: u32, n: nat, m: nat)
    ensures
        blocks_hash(s, seed, n + m) == fold_seq(blocks_hash(s, seed, n), premixed_blocks(s, n as int, m)),
    decreases m,
{
    if m > 0 {
        lemma_blocks_hash_extend(s, seed, n, (m - 1) as nat);
        assert(premixed_blocks(s, n as int, m).drop_last() =~= premixed_blocks(s, n as int, (m - 1) as nat));
    }
}

/// Folds the lanes of a register into `h`, lowest lane first.
pub fn fold_lanes(h: u32, lanes: &[u32]) -> (res: u32)
    ensures
        res == fold_seq(h, lanes@),
{
    let mut acc = h;
    let mut i: usize = 0;
    while i < lanes.len()
        invariant
            i <= lanes@.len(),
            acc == fold_seq(h, lanes@.take(i as int)),
        decreases lanes@.len() - i,
    {
        assert(lanes@.take(i + 1).drop_last() =~= lanes@.take(i as int));
        acc = fold(acc, lanes[i]);
        i = i + 1;
    }
    assert(lanes@.take(i as int) =~= lanes@);
    acc
}

/// Loads four consecutive blocks from byte `p` into a 128-bit register.
pub fn load_x4(bytes: &[u8], p: usize) -> (v: [u32; 4])
    requires
        p % 4 == 0,
        p + 16 <= bytes@.len(),
    ensures
        v@ == block_words(bytes@, p as int / 4, 4),
{
    assert(bytes@.len() == bytes.len());
    let k0 = read_block(bytes, p);
    let k1 = read_block(bytes, p + 4);
    let k2 = read_block(bytes, p + 8);
    let k3 = read_block(bytes, p + 12);
    let v = [k0, k1, k2, k3];
    assert(v@ =~= block_words(bytes@, p as int / 4, 4));
    v
}

/// Lane-wise wrapping multiplication of a 128-bit register by `c`.
pub fn mullo_x4(v: [u32; 4], c: u32) -> (r: [u32; 4])
    ensures
        forall|j: int| 0 <= j < 4 ==> r[j] == v[j].wrapping_mul(c),
{
    [v[0].wrapping_mul(c), v[1].wrapping_mul(c), v[2].wrapping_mul(c), v[3].wrapping_mul(c)]
}

/// Lane-wise left rotation of a 128-bit register by 15 bits.
pub fn rotl15_x4(v: [u32; 4]) -> (r: [u32; 4])
    ensures
        forall|j: int| 0 <= j < 4 ==> r[j] == rotl32(v[j], 15),
{
    [
        rotate_left32(v[0], 15),
        rotate_left32(v[1], 15),
        rotate_left32(v[2], 15),
        rotate_left32(v[3], 15),
    ]
}

/// The premix of every lane of a 128-bit register.
pub fn premix_x4(v: [u32; 4]) -> (r: [u32; 4])
    ensures
        r@ == v@.map_values(|k: u32| mix_k(k)),
{
    let r = mullo_x4(rotl15_x4(mullo_x4(v, C1)), C2);
    assert(r@ =~= v@.map_values(|k: u32| mix_k(k)));
    r
}

/// Premixes the four blocks from byte `p` and folds them into `h`.
fn step_x4(h: u32, bytes: &[u8], p: usize, Ghost(seed): Ghost<u32>) -> (res: u32)
    requires
        p % 4 == 0,
        p + 16 <= bytes@.len(),
        h == blocks_hash(bytes@, seed, (p / 4) as nat),
    ensures
        res == blocks_hash(bytes@, seed, ((p + 16) / 4) as nat),
{
    let v = premix_x4(load_x4(bytes, p));
    proof {
        lemma_blocks_hash_extend(bytes@, seed, (p / 4) as nat, 4);
        assert((p + 16) / 4 == p / 4 + 4);
        assert(v@ =~= premixed_blocks(bytes@, p as int / 4, 4));
    }
    fold_lanes(h, v.as_slice())
}

/// One 32-byte step: two 128-bit registers from byte `p`.
fn step_x4_32(h: u32, bytes: &[u8], p: usize, Ghost(seed): Ghost<u32>) -> (res: u32)
    requires
        p % 4 == 0,
        p + 32 <= bytes@.len(),
        h == blocks_hash(bytes@, seed, (p / 4) as nat),
    ensures
        res == blocks_hash(bytes@, seed, ((p + 32) / 4) as nat),
{
    assert(bytes@.len() == bytes.len());
    let h1 = step_x4(h, bytes, p, Ghost(seed));
    step_x4(h1, bytes, p + 16, Ghost(seed))
}

/// One 64-byte step: four 128-bit registers from byte `p`.
fn step_x4_64(h: u32, bytes: &[u8], p: usize, Ghost(seed): Ghost<u32>) -> (res: u32)
    requires
        p % 4 == 0,
        p + 64 <= bytes@.len(),
        h == blocks_hash(bytes@, seed, (p / 4) as nat),
    ensures
        res == blocks_hash(bytes@, seed, ((p + 64) / 4) as nat),
{
    assert(bytes@.len() == bytes.len());
    let h1 = step_x4_32(h, bytes, p, Ghost(seed));
    step_x4_32(h1, bytes, p + 32, Ghost(seed))
}

/// The 128-bit kernel: 64-byte steps of four registers, then 32-byte steps
/// of two, then single blocks, then the tail.
pub fn vec128_murmurhash3_32(bytes: &[u8], seed: u32) -> (res: u32)
    ensures
        res == murmur3_32(bytes@, seed),
{
    let len = bytes.len();
    let mut h = seed;
    let mut p: usize = 0;
    while len - p >= 64
        invariant
            len == bytes@.len(),
            p <= len,
            p % 4 == 0,
            h == blocks_hash(bytes@, seed, (p / 4) as nat),
        decreases len - p,
    {
        h = step_x4_64(h, bytes, p, Ghost(seed));
        p = p + 64;
    }
    while len - p >= 32
        invariant
            len == bytes@.len(),
            p <= len,
            p % 4 == 0,
            h == blocks_hash(bytes@, seed, (p / 4) as nat),
        decreases len - p,
    {
        h = step_x4_32(h, bytes, p, Ghost(seed));
        p = p + 32;
    }
    while len - p >= 4
        invariant
            len == bytes@.len(),
            p <= len,
            p % 4 == 0,
            h == blocks_hash(bytes@, seed, (p / 4) as nat),
        decreases len - p,
    {
        h = fold(h, premix(read_block(bytes, p)));
        p = p + 4;
    }
    assert(p / 4 == len / 4);
    finish(h, bytes)
}

/// Loads eight consecutive blocks from byte `p` into a 256-bit register.
pub fn load_x8(bytes: &[u8], p: usize) -> (v: [u32; 8])
    requires
        p % 4 == 0,
        p + 32 <= bytes@.len(),
    ensures
        v@ == block_words(bytes@, p as int / 4, 8),
{
    assert(bytes@.len() == bytes.len());
    let k0 = read_block(bytes, p);
    let k1 = read_block(bytes, p + 4);
    let k2 = read_block(bytes, p + 8);
    let k3 = read_block(bytes, p + 12);
    let k4 = read_block(bytes, p + 16);
    let k5 = read_block(bytes, p + 20);
    let k6 = read_block(bytes, p + 24);
    let k7 = read_block(bytes, p + 28);
    let v = [k0, k1, k2, k3, k4, k5, k6, k7];
    assert(v@ =~= block_words(bytes@, p as int / 4, 8));
    v
}

/// Lane-wise wrapping multiplication of a 256-bit register by `c`.
pub fn mullo_x8(v: [u32; 8], c: u32) -> (r: [u32; 8])
    ensures
        forall|j: int| 0 <= j < 8 ==> r[j] == v[j].wrapping_mul(c),
{
    [
        v[0].wrapping_mul(c),
        v[1].wrapping_mul(c),
        v[2].wrapping_mul(c),
        v[3].wrapping_mul(c),
        v[4].wrapping_mul(c),
        v[5].wrapping_mul(c),
        v[6].wrapping_mul(c),
        v[7].wrapping_mul(c),
    ]
}

/// Lane-wise left rotation of a 256-bit register by 15 bits.
pub fn rotl15_x8(v: [u32; 8]) -> (r: [u32; 8])
    ensures
        forall|j: int| 0 <= j < 8 ==> r[j] == rotl32(v[j], 15),
{
    [
        rotate_left32(v[0], 15),
        rotate_left32(v[1], 15),
        rotate_left32(v[2], 15),
        rotate_left32(v[3], 15),
        rotate_left32(v[4], 15),
        rotate_left32(v[5], 15),
        rotate_left32(v[6], 15),
        rotate_left32(v[7], 15),
    ]
}

/// The premix of every lane of a 256-bit register.
pub fn premix_x8(v: [u32; 8]) -> (r: [u32; 8])
    ensures
        r@ == v@.map_values(|k: u32| mix_k(k)),
{
    let r = mullo_x8(rotl15_x8(mullo_x8(v, C1)), C2);
    assert(r@ =~= v@.map_values(|k: u32| mix_k(k)));
    r
}

/// Premixes the eight blocks from byte `p` and folds them into `h`.
fn step_x8(h: u32, bytes: &[u8], p: usize, Ghost(seed): Ghost<u32>) -> (res: u32)
    requires
        p % 4 == 0,
        p + 32 <= bytes@.len(),
        h == blocks_hash(bytes@, seed, (p / 4) as nat),
    ensures
        res == blocks_hash(bytes@, seed, ((p + 32) / 4) as nat),
{
    let v = premix_x8(load_x8(bytes, p));
    proof {
        lemma_blocks_hash_extend(bytes@, seed, (p / 4) as nat, 8);
        assert((p + 32) / 4 == p / 4 + 8);
        assert(v@ =~= premixed_blocks(bytes@, p as int / 4, 8));
    }
    fold_lanes(h, v.as_slice())
}

/// One 64-byte step: two 256-bit registers from byte `p`.
fn step_x8_64(h: u32, bytes: &[u8], p: usize, Ghost(seed): Ghost<u32>) -> (res: u32)
    requires
        p % 4 == 0,
        p + 64 <= bytes@.len(),
        h == blocks_hash(bytes@, seed, (p / 4) as nat),
    ensures
        res == blocks_hash(bytes@, seed, ((p + 64) / 4) as nat),
{
    assert(bytes@.len() == bytes.len());
    let h1 = step_x8(h, bytes, p, Ghost(seed));
    step_x8(h1, bytes, p + 32, Ghost(seed))
}

/// One 128-byte step: four 256-bit registers from byte `p`.
fn step_x8_128(h: u32, bytes: &[u8], p: usize, Ghost(seed): Ghost<u32>) -> (res: u32)
    requires
        p % 4 == 0,
        p + 128 <= bytes@.len(),
        h == blocks_hash(bytes@, seed, (p / 4) as nat),
    ensures
        res == blocks_hash(bytes@, seed, ((p + 128) / 4) as nat),
{
    assert(bytes@.len() == bytes.len());
    let h1 = step_x8_64(h, bytes, p, Ghost(seed));
    step_x8_64(h1, bytes, p + 64, Ghost(seed))
}

/// The 256-bit kernel: 128-byte steps of four registers, then 32-byte steps
/// of one, then single blocks, then the tail.
pub fn vec256_murmurhash3_32(bytes: &[u8], seed: u32) -> (res: u32)
    ensures
        res == murmur3_32(bytes@, seed),
{
    let len = bytes.len();
    let mut h = seed;
    let mut p: usize = 0;
    while len - p >= 128
        invariant
            len == bytes@.len(),
            p <= len,
            p % 4 == 0,
            h == blocks_hash(bytes@, seed, (p / 4) as nat),
        decreases len - p,
    {
        h = step_x8_128(h, bytes, p, Ghost(seed));
        p = p + 128;
    }
    while len - p >= 32
        invariant
            len == bytes@.len(),
            p <= len,
            p % 4 == 0,
            h == blocks_hash(bytes@, seed, (p / 4) as nat),
        decreases len - p,
    {
        h = step_x8(h, bytes, p, Ghost(seed));
        p = p + 32;
    }
    while len - p >= 4
        invariant
            len == bytes@.len(),
            p <= len,
            p % 4 == 0,
            h == blocks_hash(bytes@, seed, (p / 4) as nat),
        decreases len - p,
    {
        h = fold(h, premix(read_block(bytes, p)));
        p = p + 4;
    }
    assert(p / 4 == len / 4);
    finish(h, bytes)
}

} // verus!
