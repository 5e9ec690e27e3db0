use murmurhash3::{
    murmurhash3_32, murmurhash3_32_with_seed, select_kernel, Capabilities, Dispatcher, Kernel,
    Murmur3Hasher,
};
use std::hash::Hasher;

const ALL_KERNELS: [Kernel; 4] = [Kernel::Portable, Kernel::Sse2, Kernel::Avx2, Kernel::Neon];

fn sample(len: usize) -> Vec<u8> {
    (0..len).map(|i| (i.wrapping_mul(31).wrapping_add(7) % 251) as u8).collect()
}

fn vectors() -> Vec<Vec<u8>> {
    vec![
        b"".to_vec(),
        b"1".to_vec(),
        b"12".to_vec(),
        b"123".to_vec(),
        b"1234".to_vec(),
        b"The quick brown fox jumps over the lazy dog".to_vec(),
        sample(64),
        sample(200),
    ]
}

#[test]
fn every_kernel_hashes_empty_input_to_zero() {
    for k in ALL_KERNELS {
        assert_eq!(k.hash(b"", 0), 0);
    }
}

#[test]
fn kernels_agree_on_every_length_and_seed() {
    let seeds = [0u32, 1, 0x9747_b28c, 0x7fff_ffff, 0x8000_0000, u32::MAX];
    for len in 0..300 {
        let data = sample(len);
        for seed in seeds {
            let expected = Kernel::Portable.hash(&data, seed);
            for k in ALL_KERNELS {
                assert_eq!(k.hash(&data, seed), expected, "len {} seed {}", len, seed);
            }
        }
    }
}

#[test]
fn hashing_is_deterministic() {
    let data = sample(137);
    for k in ALL_KERNELS {
        assert_eq!(k.hash(&data, 42), k.hash(&data, 42));
    }
    assert_eq!(murmurhash3_32(&data), murmurhash3_32(&data));
}

#[test]
fn different_seeds_give_different_hashes() {
    let data = sample(45);
    let mut seen = std::collections::HashSet::new();
    for seed in 0u32..2000 {
        assert!(seen.insert(murmurhash3_32_with_seed(&data, seed)));
    }
    assert_ne!(
        murmurhash3_32_with_seed(b"", 0),
        murmurhash3_32_with_seed(b"", 1)
    );
}

#[test]
fn appending_a_byte_changes_the_hash() {
    let mut changed = 0;
    let mut trials = 0;
    for len in 0..100 {
        let base = sample(len);
        let h = murmurhash3_32(&base);
        for b in [0u8, 1, 0x55, 0xff] {
            let mut longer = base.clone();
            longer.push(b);
            trials += 1;
            if murmurhash3_32(&longer) != h {
                changed += 1;
            }
        }
    }
    assert_eq!(changed, trials);
    assert_ne!(murmurhash3_32(b"\0"), murmurhash3_32(b""));
}

#[test]
fn literal_vectors() {
    assert_eq!(murmurhash3_32_with_seed(b"1", 0), 2484513939);
    assert_eq!(murmurhash3_32_with_seed(b"12", 0), 4191350549);
    assert_eq!(murmurhash3_32_with_seed(b"123", 0), 2662625771);
    assert_eq!(murmurhash3_32_with_seed(b"1234", 0), 1914461635);
    assert_eq!(
        murmurhash3_32_with_seed(b"The quick brown fox jumps over the lazy dog", 0),
        776992547
    );
    assert_eq!(murmurhash3_32(b"1234"), 1914461635);
}

#[test]
fn seeded_literal_vectors() {
    assert_eq!(murmurhash3_32_with_seed(b"", 1), 0x514e_28b7);
    assert_eq!(murmurhash3_32_with_seed(b"", 0xffff_ffff), 0x81f1_6f39);
    assert_eq!(murmurhash3_32_with_seed(b"\0\0\0\0", 0), 0x2362_f9de);
    assert_eq!(murmurhash3_32_with_seed(b"Hello, world!", 0x9747_b28c), 0x2488_4cba);
}

#[test]
fn avx_kernel_matches_literal_vectors() {
    assert_eq!(Kernel::Avx2.hash(b"", 0), 0);
    assert_eq!(Kernel::Avx2.hash(b"123", 0), 2662625771);
    assert_eq!(
        Kernel::Avx2.hash(
            b"Rust high performace utilities for YUV format handling and conversion.",
            0
        ),
        937425919
    );
}

#[test]
fn hasher_after_writes_matches_whole_buffer() {
    let mut split = Murmur3Hasher::new_with_seed(7);
    split.write(b"abc");
    split.write(b"");
    split.write(b"defgh");
    let mut whole = Murmur3Hasher::new_with_seed(7);
    whole.write(b"abcdefgh");
    assert_eq!(split.finish(), whole.finish());
    assert_eq!(split.finish(), split.finish());
    assert_eq!(split.finish() >> 32, 0);
}

#[test]
fn selection_prefers_the_most_advanced_supported_tier() {
    let none = Capabilities::none();
    let x86 = Capabilities { sse2: true, avx2: true, neon: false };
    let base = Capabilities { sse2: true, avx2: false, neon: false };
    let arm = Capabilities { sse2: false, avx2: false, neon: true };
    assert_eq!(select_kernel(none, x86), Kernel::Portable);
    assert_eq!(select_kernel(x86, none), Kernel::Portable);
    assert_eq!(select_kernel(x86, x86), Kernel::Avx2);
    assert_eq!(select_kernel(base, x86), Kernel::Sse2);
    assert_eq!(select_kernel(x86, base), Kernel::Sse2);
    assert_eq!(select_kernel(arm, arm), Kernel::Neon);
    assert_eq!(select_kernel(arm, x86), Kernel::Portable);
}

#[test]
fn forced_tiers_match_the_reference() {
    let none = Capabilities::none();
    let x86 = Capabilities { sse2: true, avx2: true, neon: false };
    let mut base_only = Dispatcher::new();
    assert_eq!(base_only.resolve(none, x86), Kernel::Portable);
    let mut advanced = Dispatcher::new();
    assert_eq!(advanced.resolve(x86, x86), Kernel::Avx2);
    for v in vectors() {
        for seed in [0u32, 0x9747_b28c] {
            let reference = Kernel::Portable.hash(&v, seed);
            assert_eq!(base_only.hash(&v, seed), reference);
            assert_eq!(advanced.hash(&v, seed), reference);
        }
    }
}

#[test]
fn resolution_happens_once() {
    let none = Capabilities::none();
    let x86 = Capabilities { sse2: true, avx2: true, neon: false };
    let mut d = Dispatcher::new();
    assert_eq!(d.resolve(x86, x86), Kernel::Avx2);
    assert_eq!(d.resolve(none, none), Kernel::Avx2);
    let mut f = Dispatcher::forced(Kernel::Neon);
    assert_eq!(f.resolve(x86, x86), Kernel::Neon);
    assert_eq!(Dispatcher::new().hash(b"1234", 0), 1914461635);
}
