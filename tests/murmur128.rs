use murmurhash3::{murmurhash3_128, murmurhash3_128_with_seed};

#[test]
fn generic128_test_empty_string() {
    assert_eq!(murmurhash3_128_with_seed("".as_bytes(), 0), 0);
}

#[test]
fn generic128_test_tail_lengths() {
    assert_eq!(
        murmurhash3_128_with_seed("1".as_bytes(), 0),
        196948598568201132170845188519190297713
    );
    assert_eq!(
        murmurhash3_128_with_seed("12".as_bytes(), 0),
        181809175275681735127740556873700736405
    );
    assert_eq!(
        murmurhash3_128_with_seed("123".as_bytes(), 0),
        88386560642490731012209186590589091690
    );
    assert_eq!(
        murmurhash3_128_with_seed("1234".as_bytes(), 0),
        69278461145226992474103256931126732724
    );
}

#[test]
fn generic128_test_large_data() {
    assert_eq!(
        murmurhash3_128(
            "Rust high performace utilities for YUV format handling and conversion.".as_bytes(),
        ),
        54181677952575170241362728818992244552
    );
    assert_eq!(
        murmurhash3_128("432432 gfdsafgsd 32432 fds".as_bytes()),
        71745777201048077136648467711053708943
    );
    assert_eq!(murmurhash3_128("MurmurHash2 (32-bit, x86)—The original version; contains a flaw that weakens collision in some cases.[9]MurmurHash2A (32-bit, x86)—A fixed variant using Merkle–Damgård construction. Slightly slower.".as_bytes()), 285565187209700280420403743997782857281);
}
