use murmurhash3::{murmurhash3_32_with_seed, Murmur3Hasher};
use std::hash::Hasher;

#[test]
fn use_in_hashmap() {
    let mut hasher = Murmur3Hasher::default();
    hasher.write_i16(0x1234);
    hasher.write_i16(0x1234);
    hasher.write_i16(0x1234);
    let op = hasher.finish();
    assert_eq!(op, 0x3c09ef02u64);
}

#[test]
fn hasher_buffers_then_hashes_under_seed() {
    let mut hasher = Murmur3Hasher::new_with_seed(0x9747_b28c);
    hasher.write(b"The quick brown ");
    hasher.write(b"fox jumps over the lazy dog");
    let whole = b"The quick brown fox jumps over the lazy dog";
    assert_eq!(
        hasher.finish(),
        murmurhash3_32_with_seed(whole, 0x9747_b28c) as u64
    );
    assert_eq!(hasher.finish(), 0x2fa826cd);
}

#[test]
fn hasher_new_is_seed_zero_and_empty() {
    let hasher = Murmur3Hasher::new();
    assert_eq!(hasher.finish(), 0);
    let mut seeded = Murmur3Hasher::new_with_seed(1);
    assert_eq!(seeded.finish(), murmurhash3_32_with_seed(b"", 1) as u64);
    seeded.write(b"");
    assert_eq!(seeded.finish(), 0x514e_28b7);
}
