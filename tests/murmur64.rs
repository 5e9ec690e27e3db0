use murmurhash3::murmurhash2_64_with_seed;

#[test]
fn generic64_test_empty_string() {
    assert_eq!(murmurhash2_64_with_seed("".as_bytes(), 0), 0);
}

#[test]
fn generic64_test_tail_lengths() {
    assert_eq!(
        murmurhash2_64_with_seed("1".as_bytes(), 0),
        746762829127501960
    );
    assert_eq!(
        murmurhash2_64_with_seed("12".as_bytes(), 0),
        17086341747085514672
    );
    assert_eq!(
        murmurhash2_64_with_seed("123".as_bytes(), 0),
        12856370151437683476
    );
    assert_eq!(
        murmurhash2_64_with_seed("1234".as_bytes(), 0),
        10572085188814244945
    );
}

#[test]
fn generic64_test_large_data() {
    assert_eq!(
        murmurhash2_64_with_seed(
            "Rust high performace utilities for YUV format handling and conversion.".as_bytes(),
            0
        ),
        8586007052130510318
    );
    assert_eq!(
        murmurhash2_64_with_seed("432432 gfdsafgsd 32432 fds".as_bytes(), 0),
        12905733955589511660
    );
    assert_eq!(murmurhash2_64_with_seed("MurmurHash2 (32-bit, x86)—The original version; contains a flaw that weakens collision in some cases.[9]MurmurHash2A (32-bit, x86)—A fixed variant using Merkle–Damgård construction. Slightly slower.".as_bytes(), 0), 12740723412636160583);
}

#[test]
fn murmur64_different_seeds_differ() {
    let data = "432432 gfdsafgsd 32432 fds".as_bytes();
    let mut seen = std::collections::HashSet::new();
    for seed in 0u64..500 {
        assert!(seen.insert(murmurhash2_64_with_seed(data, seed)));
    }
}
