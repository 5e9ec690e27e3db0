//! The 64-bit MurmurHash2 (MurmurHash64A).
use vstd::prelude::*;

verus! {

/// The multiplier used throughout.
pub const M: u64 = 0xc6a4_a793_5bd1_e995;

/// The `i`-th complete 8-byte word of `s`, little-endian.
pub open spec fn word64_le(s: Seq<u8>, i: int) -> u64 {
    let p = 8 * i;
    (s[p] as u64) | ((s[p + 1] as u64) << 8u64) | ((s[p + 2] as u64) << 16u64) | ((s[p + 3] as u64)
        << 24u64) | ((s[p + 4] as u64) << 32u64) | ((s[p + 5] as u64) << 40u64) | ((s[p + 6] as u64)
        << 48u64) | ((s[p + 7] as u64) << 56u64)
}

/// The input length modulo 2^64.
pub open spec fn len64(s: Seq<u8>) -> u64 {
    (s.len() % 0x1_0000_0000_0000_0000) as u64
}

/// The premix of one word: multiply, xor-shift by 47, multiply.
pub open spec fn mix64(k: u64) -> u64 {
    let k1 = k.wrapping_mul(M);
    (k1 ^ (k1 >> 47u64)).wrapping_mul(M)
}

/// The running hash after the first `n` complete words of `s`.
pub open spec fn words_hash64(s: Seq<u8>, seed: u64, n: nat) -> u64
    decreases n,
{
    if n == 0 {
        seed ^ len64(s).wrapping_mul(M)
    } else {
        (words_hash64(s, seed, (n - 1) as nat) ^ mix64(word64_le(s, n - 1))).wrapping_mul(M)
    }
}

/// The fold of the 0 to 7 bytes after the last complete word.
pub open spec fn tail_hash64(h: u64, s: Seq<u8>) -> u64 {
    let r = s.len() % 8;
    let b = s.len() - r;
    let h6 = if r == 7 { h ^ ((s[b + 6] as u64) << 48u64) } else { h };
    let h5 = if r >= 6 { h6 ^ ((s[b + 5] as u64) << 40u64) } else { h6 };
    let h4 = if r >= 5 { h5 ^ ((s[b + 4] as u64) << 32u64) } else { h5 };
    let h3 = if r >= 4 { h4 ^ ((s[b + 3] as u64) << 24u64) } else { h4 };
    let h2 = if r >= 3 { h3 ^ ((s[b + 2] as u64) << 16u64) } else { h3 };
    let h1 = if r >= 2 { h2 ^ ((s[b + 1] as u64) << 8u64) } else { h2 };
    if r >= 1 { (h1 ^ (s[b] as u64)).wrapping_mul(M) } else { h }
}

/// The final mix.
pub open spec fn final_mix64(h: u64) -> u64 {
    let h1 = h ^ (h >> 47u64);
    let h2 = h1.wrapping_mul(M);
    h2 ^ (h2 >> 47u64)
}

/// MurmurHash64A of `s` under `seed`.
pub open spec fn murmur2_64(s: Seq<u8>, seed: u64) -> u64 {
    final_mix64(tail_hash64(words_hash64(s, seed, s.len() / 8), s))
}

/// Reads the complete 8-byte word that starts at byte `p`, little-endian.
pub fn read_le64(bytes: &[u8], p: usize) -> (k: u64)
    requires
        p % 8 == 0,
        p + 8 <= bytes@.len(),
    ensures
        k == word64_le(bytes@, p as int / 8),
{
    assert(8 * (p as int / 8) == p);
    (bytes[p] as u64) | ((bytes[p + 1] as u64) << 8) | ((bytes[p + 2] as u64) << 16) | ((bytes[p
        + 3] as u64) << 24) | ((bytes[p + 4] as u64) << 32) | ((bytes[p + 5] as u64) << 40) | ((
    bytes[p + 6] as u64) << 48) | ((bytes[p + 7] as u64) << 56)
}

/// Folds the word at byte `p` into `h`.
fn step64(h: u64, bytes: &[u8], p: usize, Ghost(seed): Ghost<u64>) -> (res: u64)
    requires
        p % 8 == 0,
        p + 8 <= bytes@.len(),
        h == words_hash64(bytes@, seed, (p / 8) as nat),
    ensures
        res == words_hash64(bytes@, seed, ((p + 8) / 8) as nat),
{
    assert((p + 8) / 8 == p / 8 + 1);
    let k = read_le64(bytes, p).wrapping_mul(M);
    (h ^ (k ^ (k >> 47)).wrapping_mul(M)).wrapping_mul(M)
}

/// Folds the 0 to 7 bytes after the last complete word into `h`.
fn fold_tail64(h: u64, bytes: &[u8]) -> (res: u64)
    ensures
        res == tail_hash64(h, bytes@),
{
    let len = bytes.len();
    let r = len % 8;
    let b = len - r;
    let mut g = h;
    if r == 7 {
        g = g ^ ((bytes[b + 6] as u64) << 48);
    }
    if r >= 6 {
        g = g ^ ((bytes[b + 5] as u64) << 40);
    }
    if r >= 5 {
        g = g ^ ((bytes[b + 4] as u64) << 32);
    }
    if r >= 4 {
        g = g ^ ((bytes[b + 3] as u64) << 24);
    }
    if r >= 3 {
        g = g ^ ((bytes[b + 2] as u64) << 16);
    }
    if r >= 2 {
        g = g ^ ((bytes[b + 1] as u64) << 8);
    }
    if r >= 1 {
        (g ^ (bytes[b] as u64)).wrapping_mul(M)
    } else {
        h
    }
}

/// Computes the 64-bit MurmurHash2 (MurmurHash64A) of `bytes` under `seed`.
pub fn murmurhash2_64_with_seed(bytes: &[u8], seed: u64) -> (res: u64)
    ensures
        res == murmur2_64(bytes@, seed),
{
    let len = bytes.len();
    assert(len as int % 0x1_0000_0000_0000_0000 == len);
    let mut h = seed ^ (len as u64).wrapping_mul(M);
    let mut p: usize = 0;
    while len - p >= 32
        invariant
            len == bytes@.len(),
            p <= len,
            p % 8 == 0,
            h == words_hash64(bytes@, seed, (p / 8) as nat),
        decreases len - p,
    {
        h = step64(h, bytes, p, Ghost(seed));
        h = step64(h, bytes, p + 8, Ghost(seed));
        h = step64(h, bytes, p + 16, Ghost(seed));
        h = step64(h, bytes, p + 24, Ghost(seed));
        p = p + 32;
    }
    while len - p >= 8
        invariant
            len == bytes@.len(),
            p <= len,
            p % 8 == 0,
            h == words_hash64(bytes@, seed, (p / 8) as nat),
        decreases len - p,
    {
        h = step64(h, bytes, p, Ghost(seed));
        p = p + 8;
    }
    assert(p / 8 == len / 8);
    let g = fold_tail64(h, bytes);
    let g1 = g ^ (g >> 47);
    let g2 = g1.wrapping_mul(M);
    g2 ^ (g2 >> 47)
}

/// Computes the 64-bit MurmurHash2 of `bytes` with seed 0.
pub fn murmurhash2_64(bytes: &[u8]) -> (res: u64)
    ensures
        res == murmur2_64(bytes@, 0),
{
    murmurhash2_64_with_seed(bytes, 0)
}

proof fn lemma_mul_m_invertible(x: u64)
    by (bit_vector)
    ensures
        x.wrapping_mul(M).wrapping_mul(0x5f7a_0ea7_e59b_19bd) == x,
{
}

proof fn lemma_xorshift47_inverse(x: u64)
    by (bit_vector)
    ensures
        (x ^ (x >> 47u64)) ^ ((x ^ (x >> 47u64)) >> 47u64) == x,
{
}

proof fn lemma_xor_injective64(a: u64, b: u64, c: u64)
    by (bit_vector)
    requires
        a ^ c == b ^ c,
    ensures
        a == b,
{
}

/// The final mix is a bijection on 64-bit words.
pub proof fn lemma_final_mix64_injective(a: u64, b: u64)
    requires
        final_mix64(a) == final_mix64(b),
    ensures
        a == b,
{
    let a2 = (a ^ (a >> 47u64)).wrapping_mul(M);
    let b2 = (b ^ (b >> 47u64)).wrapping_mul(M);
    lemma_xorshift47_inverse(a2);
    lemma_xorshift47_inverse(b2);
    lemma_mul_m_invertible(a ^ (a >> 47u64));
    lemma_mul_m_invertible(b ^ (b >> 47u64));
    lemma_xorshift47_inverse(a);
    lemma_xorshift47_inverse(b);
}

/// The tail fold is a bijection of the running hash.
pub proof fn lemma_tail_hash64_injective(a: u64, b: u64, s: Seq<u8>)
    requires
        tail_hash64(a, s) == tail_hash64(b, s),
    ensures
        a == b,
{
    let r = s.len() % 8;
    if r >= 1 {
        let bs = s.len() - r;
        let c6: u64 = if r == 7 { (s[bs + 6] as u64) << 48u64 } else { 0 };
        let c5: u64 = if r >= 6 { (s[bs + 5] as u64) << 40u64 } else { 0 };
        let c4: u64 = if r >= 5 { (s[bs + 4] as u64) << 32u64 } else { 0 };
        let c3: u64 = if r >= 4 { (s[bs + 3] as u64) << 24u64 } else { 0 };
        let c2: u64 = if r >= 3 { (s[bs + 2] as u64) << 16u64 } else { 0 };
        let c1: u64 = if r >= 2 { (s[bs + 1] as u64) << 8u64 } else { 0 };
        let c0: u64 = s[bs] as u64;
        assert(forall|x: u64| #![trigger (x ^ 0u64)] (x ^ 0u64) == x) by {
            assert(forall|x: u64| #![trigger (x ^ 0u64)] (x ^ 0u64) == x) by (bit_vector);
        }
        let a6 = a ^ c6;
        let a5 = a6 ^ c5;
        let a4 = a5 ^ c4;
        let a3 = a4 ^ c3;
        let a2 = a3 ^ c2;
        let a1 = a2 ^ c1;
        let b6 = b ^ c6;
        let b5 = b6 ^ c5;
        let b4 = b5 ^ c4;
        let b3 = b4 ^ c3;
        let b2 = b3 ^ c2;
        let b1 = b2 ^ c1;
        assert(tail_hash64(a, s) == (a1 ^ c0).wrapping_mul(M));
        assert(tail_hash64(b, s) == (b1 ^ c0).wrapping_mul(M));
        lemma_mul_m_invertible(a1 ^ c0);
        lemma_mul_m_invertible(b1 ^ c0);
        lemma_xor_injective64(a1, b1, c0);
        lemma_xor_injective64(a2, b2, c1);
        lemma_xor_injective64(a3, b3, c2);
        lemma_xor_injective64(a4, b4, c3);
        lemma_xor_injective64(a5, b5, c4);
        lemma_xor_injective64(a6, b6, c5);
        lemma_xor_injective64(a, b, c6);
    }
}

/// Different seeds give different running hashes after any number of words.
pub proof fn lemma_words_hash64_injective(s: Seq<u8>, x: u64, y: u64, n: nat)
    requires
        words_hash64(s, x, n) == words_hash64(s, y, n),
    ensures
        x == y,
    decreases n,
{
    if n == 0 {
        lemma_xor_injective64(x, y, len64(s).wrapping_mul(M));
    } else {
        let k = mix64(word64_le(s, n - 1));
        let hx = words_hash64(s, x, (n - 1) as nat);
        let hy = words_hash64(s, y, (n - 1) as nat);
        lemma_mul_m_invertible(hx ^ k);
        lemma_mul_m_invertible(hy ^ k);
        lemma_xor_injective64(hx, hy, k);
        lemma_words_hash64_injective(s, x, y, (n - 1) as nat);
    }
}

/// For a fixed input, the 64-bit hash is a bijection of the seed: two
/// different seeds never give the same hash.
pub proof fn lemma_seed_injective64(s: Seq<u8>, x: u64, y: u64)
    requires
        x != y,
    ensures
        murmur2_64(s, x) != murmur2_64(s, y),
{
    if murmur2_64(s, x) == murmur2_64(s, y) {
        let n = s.len() / 8;
        let hx = words_hash64(s, x, n);
        let hy = words_hash64(s, y, n);
        lemma_final_mix64_injective(tail_hash64(hx, s), tail_hash64(hy, s));
        lemma_tail_hash64_injective(hx, hy, s);
        lemma_words_hash64_injective(s, x, y, n);
    }
}

} // verus!
