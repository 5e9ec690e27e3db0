//! The 32-bit MurmurHash3 (x86_32): its mathematical definition and the
//! portable kernel that every other kernel is measured against.
use vstd::prelude::*;

verus! {

/// First block multiplier.
pub const C1: u32 = 0xcc9e_2d51;

/// Second block multiplier.
pub const C2: u32 = 0x1b87_3593;

/// Constant added after each full-block fold.
pub const FOLD_ADD: u32 = 0xe654_6b64;

/// Circular left rotation of a 32-bit word by `r` bits, `0 < r < 32`.
pub open spec fn rotl32(x: u32, r: u32) -> u32 {
    (x << r) | (x >> ((32 - r) as u32))
}

/// The per-block premix: `rotl(k * C1, 15) * C2`, all modulo 2^32.
pub open spec fn mix_k(k: u32) -> u32 {
    rotl32(k.wrapping_mul(C1), 15).wrapping_mul(C2)
}

/// The serial fold of one premixed full block into the running hash.
pub open spec fn fold_block(h: u32, k: u32) -> u32 {
    rotl32(h ^ k, 13).wrapping_mul(5).wrapping_add(FOLD_ADD)
}

/// Four bytes read as a little-endian word.
pub open spec fn word_le(b0: u8, b1: u8, b2: u8, b3: u8) -> u32 {
    (b0 as u32) | ((b1 as u32) << 8u32) | ((b2 as u32) << 16u32) | ((b3 as u32) << 24u32)
}

/// The `i`-th complete 4-byte block of `s` as a little-endian word.
pub open spec fn block_word(s: Seq<u8>, i: int) -> u32 {
    word_le(s[4 * i], s[4 * i + 1], s[4 * i + 2], s[4 * i + 3])
}

/// The running hash after folding the first `n` complete blocks of `s`.
pub open spec fn blocks_hash(s: Seq<u8>, seed: u32, n: nat) -> u32
    decreases n,
{
    if n == 0 {
        seed
    } else {
        fold_block(blocks_hash(s, seed, (n - 1) as nat), mix_k(block_word(s, n - 1)))
    }
}

/// The partial word built from the 0 to 3 bytes after the last complete block.
pub open spec fn tail_word(s: Seq<u8>) -> u32 {
    let base = s.len() - s.len() % 4;
    let r = s.len() % 4;
    let k2: u32 = if r == 3 { (s[base + 2] as u32) << 16u32 } else { 0 };
    let k1: u32 = if r >= 2 { k2 ^ ((s[base + 1] as u32) << 8u32) } else { k2 };
    if r >= 1 { k1 ^ (s[base] as u32) } else { k1 }
}

/// The tail fold: a plain XOR of the premixed partial word, if any bytes remain.
pub open spec fn fold_tail(h: u32, s: Seq<u8>) -> u32 {
    if s.len() % 4 == 0 { h } else { h ^ mix_k(tail_word(s)) }
}

/// The avalanche mix applied last.
pub open spec fn fmix32(h: u32) -> u32 {
    let h1 = h ^ (h >> 16u32);
    let h2 = h1.wrapping_mul(0x85eb_ca6b);
    let h3 = h2 ^ (h2 >> 13u32);
    let h4 = h3.wrapping_mul(0xc2b2_ae35);
    h4 ^ (h4 >> 16u32)
}

/// The input length as it enters the hash: modulo 2^32.
pub open spec fn len32(s: Seq<u8>) -> u32 {
    (s.len() % 0x1_0000_0000) as u32
}

/// MurmurHash3 x86_32 of `s` under `seed`.
pub open spec fn murmur3_32(s: Seq<u8>, seed: u32) -> u32 {
    fmix32(fold_tail(blocks_hash(s, seed, s.len() / 4), s) ^ len32(s))
}

/// Rotates `x` left by `r` bits.
pub fn rotate_left32(x: u32, r: u32) -> (res: u32)
    requires
        0 < r < 32,
    ensures
        res == rotl32(x, r),
{
    (x << r) | (x >> (32 - r))
}

/// The per-block premix of one word.
pub fn premix(k: u32) -> (res: u32)
    ensures
        res == mix_k(k),
{
    rotate_left32(k.wrapping_mul(C1), 15).wrapping_mul(C2)
}

/// Folds one premixed full block into the running hash.
pub fn fold(h: u32, k: u32) -> (res: u32)
    ensures
        res == fold_block(h, k),
{
    rotate_left32(h ^ k, 13).wrapping_mul(5).wrapping_add(FOLD_ADD)
}

/// The avalanche mix.
pub fn scramble(h: u32) -> (res: u32)
    ensures
        res == fmix32(h),
{
    let h1 = h ^ (h >> 16);
    let h2 = h1.wrapping_mul(0x85eb_ca6b);
    let h3 = h2 ^ (h2 >> 13);
    let h4 = h3.wrapping_mul(0xc2b2_ae35);
    h4 ^ (h4 >> 16)
}

/// Reads the complete block that starts at byte `p` as a little-endian word.
pub fn read_block(bytes: &[u8], p: usize) -> (k: u32)
    requires
        p % 4 == 0,
        p + 4 <= bytes@.len(),
    ensures
        k == block_word(bytes@, p as int / 4),
{
    assert(4 * (p / 4) == p);
    (bytes[p] as u32) | ((bytes[p + 1] as u32) << 8) | ((bytes[p + 2] as u32) << 16) | ((
    bytes[p + 3] as u32) << 24)
}

/// The input length modulo 2^32.
pub fn length32(bytes: &[u8]) -> (res: u32)
    ensures
        res == len32(bytes@),
{
    ((bytes.len() as u64) % 0x1_0000_0000) as u32
}

/// The partial word of the 1 to 3 bytes after the last complete block.
pub fn read_tail(bytes: &[u8]) -> (k: u32)
    requires
        bytes@.len() % 4 != 0,
    ensures
        k == tail_word(bytes@),
{
    let len = bytes.len();
    let r = len % 4;
    let base = len - r;
    let mut k: u32 = if r == 3 {
        (bytes[base + 2] as u32) << 16
    } else {
        0
    };
    if r >= 2 {
        k = k ^ ((bytes[base + 1] as u32) << 8);
    }
    k ^ (bytes[base] as u32)
}

/// Everything after the complete blocks: the tail fold, the length and the
/// avalanche. `h` is the running hash after all complete blocks.
pub fn finish(h: u32, bytes: &[u8]) -> (res: u32)
    ensures
        res == fmix32(fold_tail(h, bytes@) ^ len32(bytes@)),
{
    let h1 = if bytes.len() % 4 != 0 {
        h ^ premix(read_tail(bytes))
    } else {
        h
    };
    scramble(h1 ^ length32(bytes))
}

/// The portable kernel: MurmurHash3 x86_32 one 4-byte block at a time.
pub fn portable_murmurhash3_32(bytes: &[u8], seed: u32) -> (res: u32)
    ensures
        res == murmur3_32(bytes@, seed),
{
    let len = bytes.len();
    let mut h = seed;
    let mut p: usize = 0;
    while len - p >= 4
        invariant
            len == bytes@.len(),
            p <= len,
            p % 4 == 0,
            h == blocks_hash(bytes@, seed, (p / 4) as nat),
        decreases len - p,
    {
        h = fold(h, premix(read_block(bytes, p)));
        p = p + 4;
    }
    finish(h, bytes)
}

proof fn lemma_xorshift16_inverse(x: u32)
    by (bit_vector)
    ensures
        (x ^ (x >> 16u32)) ^ ((x ^ (x >> 16u32)) >> 16u32) == x,
{
}

proof fn lemma_xorshift13_inverse(x: u32)
    by (bit_vector)
    ensures
        (x ^ (x >> 13u32)) ^ ((x ^ (x >> 13u32)) >> 13u32) ^ ((x ^ (x >> 13u32)) >> 26u32) == x,
{
}

proof fn lemma_fmix_multipliers_invertible(x: u32)
    by (bit_vector)
    ensures
        x.wrapping_mul(0x85eb_ca6b).wrapping_mul(0xa5cb_9243) == x,
        x.wrapping_mul(0xc2b2_ae35).wrapping_mul(0x7ed1_b41d) == x,
{
}

/// The avalanche mix is a bijection on 32-bit words.
pub proof fn lemma_fmix32_injective(a: u32, b: u32)
    requires
        fmix32(a) == fmix32(b),
    ensures
        a == b,
{
    let a1 = a ^ (a >> 16u32);
    let a2 = a1.wrapping_mul(0x85eb_ca6b);
    let a3 = a2 ^ (a2 >> 13u32);
    let a4 = a3.wrapping_mul(0xc2b2_ae35);
    let b1 = b ^ (b >> 16u32);
    let b2 = b1.wrapping_mul(0x85eb_ca6b);
    let b3 = b2 ^ (b2 >> 13u32);
    let b4 = b3.wrapping_mul(0xc2b2_ae35);
    lemma_xorshift16_inverse(a4);
    lemma_xorshift16_inverse(b4);
    assert(a4 == b4);
    lemma_fmix_multipliers_invertible(a3);
    lemma_fmix_multipliers_invertible(b3);
    assert(a3 == b3);
    lemma_xorshift13_inverse(a2);
    lemma_xorshift13_inverse(b2);
    assert(a2 == b2);
    lemma_fmix_multipliers_invertible(a1);
    lemma_fmix_multipliers_invertible(b1);
    assert(a1 == b1);
    lemma_xorshift16_inverse(a);
    lemma_xorshift16_inverse(b);
}

/// Folding the same block into two different running hashes keeps them different.
pub proof fn lemma_fold_block_injective(a: u32, b: u32, k: u32)
    requires
        fold_block(a, k) == fold_block(b, k),
    ensures
        a == b,
{
    assert(fold_block(a, k) == fold_block(b, k) ==> a == b) by (bit_vector);
}

/// Different seeds give different running hashes after any number of blocks.
pub proof fn lemma_blocks_hash_injective(s: Seq<u8>, x: u32, y: u32, n: nat)
    requires
        blocks_hash(s, x, n) == blocks_hash(s, y, n),
    ensures
        x == y,
    decreases n,
{
    if n > 0 {
        let k = mix_k(block_word(s, n - 1));
        lemma_fold_block_injective(
            blocks_hash(s, x, (n - 1) as nat),
            blocks_hash(s, y, (n - 1) as nat),
            k,
        );
        lemma_blocks_hash_injective(s, x, y, (n - 1) as nat);
    }
}

/// The empty input under seed 0 hashes to 0.
pub proof fn lemma_empty_input_zero_seed()
    ensures
        murmur3_32(Seq::<u8>::empty(), 0) == 0,
{
    let s = Seq::<u8>::empty();
    assert(blocks_hash(s, 0, 0) == 0);
    assert(len32(s) == 0);
    assert(fmix32(0u32 ^ 0u32) == 0) by (bit_vector);
}

/// The hash is a function of the input and the seed alone: equal inputs under
/// equal seeds hash equal.
pub proof fn lemma_hash_deterministic(a: Seq<u8>, b: Seq<u8>, seed: u32)
    requires
        a == b,
    ensures
        murmur3_32(a, seed) == murmur3_32(b, seed),
{
}

/// For a fixed input, the hash is a bijection of the seed: two different seeds
/// never give the same hash.
pub proof fn lemma_seed_injective(s: Seq<u8>, x: u32, y: u32)
    requires
        x != y,
    ensures
        murmur3_32(s, x) != murmur3_32(s, y),
{
    if murmur3_32(s, x) == murmur3_32(s, y) {
        let n = s.len() / 4;
        let hx = blocks_hash(s, x, n);
        let hy = blocks_hash(s, y, n);
        let t = if s.len() % 4 == 0 { 0u32 } else { mix_k(tail_word(s)) };
        let l = len32(s);
        assert(fold_tail(hx, s) == if s.len() % 4 == 0 { hx } else { hx ^ t });
        assert(fold_tail(hy, s) == if s.len() % 4 == 0 { hy } else { hy ^ t });
        lemma_fmix32_injective(fold_tail(hx, s) ^ l, fold_tail(hy, s) ^ l);
        let fx = fold_tail(hx, s);
        let fy = fold_tail(hy, s);
        assert((fx ^ l) == (fy ^ l) ==> fx == fy) by (bit_vector);
        if s.len() % 4 != 0 {
            assert((hx ^ t) == (hy ^ t) ==> hx == hy) by (bit_vector);
        }
        lemma_blocks_hash_injective(s, x, y, n);
    }
}

/// The running hash over the first `n` blocks depends on the first `4 * n` bytes alone.
pub proof fn lemma_blocks_hash_prefix(s: Seq<u8>, t: Seq<u8>, seed: u32, n: nat)
    requires
        4 * n <= s.len(),
        4 * n <= t.len(),
        forall|i: int| 0 <= i < 4 * n ==> s[i] == t[i],
    ensures
        blocks_hash(s, seed, n) == blocks_hash(t, seed, n),
    decreases n,
{
    if n > 0 {
        let p = 4 * (n - 1);
        assert(s[p] == t[p] && s[p + 1] == t[p + 1] && s[p + 2] == t[p + 2] && s[p + 3] == t[p + 3]);
        lemma_blocks_hash_prefix(s, t, seed, (n - 1) as nat);
    }
}

/// Appending a zero byte to an input whose length is not 3 modulo 4 changes
/// its hash: the blocks and the tail word stay the same, only the length differs.
pub proof fn lemma_append_zero_changes_hash(s: Seq<u8>, seed: u32)
    requires
        s.len() % 4 != 3,
    ensures
        murmur3_32(s.push(0u8), seed) != murmur3_32(s, seed),
{
    let t = s.push(0u8);
    let n = s.len() / 4;
    assert(t.len() / 4 == n);
    lemma_blocks_hash_prefix(t, s, seed, n);
    let h = blocks_hash(s, seed, n);
    let base = s.len() - s.len() % 4;
    assert(t[s.len() as int] == 0u8);
    if s.len() % 4 == 0 {
        assert(tail_word(t) == 0u32 ^ (0u8 as u32));
        assert(mix_k(0u32 ^ (0u8 as u32)) == 0) by (bit_vector);
        assert(h ^ 0u32 == h) by (bit_vector);
        assert(fold_tail(h, t) == fold_tail(h, s));
    } else if s.len() % 4 == 1 {
        let b0 = s[base] as u32;
        assert(tail_word(s) == 0u32 ^ b0);
        assert(tail_word(t) == (0u32 ^ ((0u8 as u32) << 8u32)) ^ b0);
        assert((0u32 ^ ((0u8 as u32) << 8u32)) ^ b0 == 0u32 ^ b0) by (bit_vector);
    } else {
        let b0 = s[base] as u32;
        let b1 = s[base + 1] as u32;
        assert(tail_word(s) == (0u32 ^ (b1 << 8u32)) ^ b0);
        assert(tail_word(t) == (((0u8 as u32) << 16u32) ^ (b1 << 8u32)) ^ b0);
        assert((((0u8 as u32) << 16u32) ^ (b1 << 8u32)) ^ b0 == (0u32 ^ (b1 << 8u32)) ^ b0)
            by (bit_vector);
    }
    let f = fold_tail(h, s);
    let l1 = len32(t);
    let l0 = len32(s);
    assert(l1 != l0);
    if murmur3_32(t, seed) == murmur3_32(s, seed) {
        lemma_fmix32_injective(f ^ l1, f ^ l0);
        assert((f ^ l1) == (f ^ l0) ==> l1 == l0) by (bit_vector);
    }
}

} // verus!
