use murmurhash3::Kernel;

fn sse_murmurhash3_32(bytes: &[u8], seed: u32) -> u32 {
    Kernel::Sse2.hash(bytes, seed)
}

fn neon_murmurhash3_32(bytes: &[u8], seed: u32) -> u32 {
    Kernel::Neon.hash(bytes, seed)
}

#[test]
fn hu32_test_empty_string() {
    assert_eq!(neon_murmurhash3_32("".as_bytes(), 0), 0);
}

#[test]
fn hu32_test_tail_lengths() {
    assert_eq!(neon_murmurhash3_32("1".as_bytes(), 0), 2484513939);
    assert_eq!(neon_murmurhash3_32("12".as_bytes(), 0), 4191350549);
    assert_eq!(neon_murmurhash3_32("123".as_bytes(), 0), 2662625771);
    assert_eq!(neon_murmurhash3_32("1234".as_bytes(), 0), 1914461635);
}

#[test]
fn hu32_test_large_data() {
    assert_eq!(
        neon_murmurhash3_32("The quick brown fox jumps over the lazy dog".as_bytes(), 0),
        776992547
    );
    assert_eq!(
        neon_murmurhash3_32(
            "Rust high performace utilities for YUV format handling and conversion.".as_bytes(),
            0
        ),
        937425919
    );
    assert_eq!(
        neon_murmurhash3_32("432432 gfdsafgsd 32432 fds".as_bytes(), 0),
        948823384
    );
    assert_eq!(neon_murmurhash3_32("MurmurHash2 (32-bit, x86)—The original version; contains a flaw that weakens collision in some cases.[9]
MurmurHash2A (32-bit, x86)—A fixed variant using Merkle–Damgård construction. Slightly slower.
CMurmurHash2A (32-bit, x86)—MurmurHash2A, but works incrementally.
MurmurHashNeutral2 (32-bit, x86)—Slower, but endian- and alignment-neutral.
MurmurHashAligned2 (32-bit, x86)—Slower, but does aligned reads (safer on some platforms).
MurmurHash64A (64-bit, x64)—The original 64-bit version. Optimized for 64-bit arithmetic.
MurmurHash64B (64-bit, x86)—A 64-bit version optimized for 32-bit platforms. It is not a true 64-bit hash due to insufficient mixing of the stripes.[10]
".as_bytes(), 0), 1959355408);
}

#[test]
fn sse_kernel_empty_string() {
    assert_eq!(sse_murmurhash3_32("".as_bytes(), 0), 0);
}

#[test]
fn sse_kernel_tail_lengths() {
    assert_eq!(sse_murmurhash3_32("1".as_bytes(), 0), 2484513939);
    assert_eq!(sse_murmurhash3_32("12".as_bytes(), 0), 4191350549);
    assert_eq!(sse_murmurhash3_32("123".as_bytes(), 0), 2662625771);
    assert_eq!(sse_murmurhash3_32("1234".as_bytes(), 0), 1914461635);
}

#[test]
fn sse_kernel_large_data() {
    assert_eq!(
        sse_murmurhash3_32("The quick brown fox jumps over the lazy dog".as_bytes(), 0),
        776992547
    );
    assert_eq!(
        sse_murmurhash3_32(
            "Rust high performace utilities for YUV format handling and conversion."
                .as_bytes(),
            0
        ),
        937425919
    );
    assert_eq!(
        sse_murmurhash3_32("432432 gfdsafgsd 32432 fds".as_bytes(), 0),
        948823384
    );
    assert_eq!(sse_murmurhash3_32("MurmurHash2 (32-bit, x86)—The original version; contains a flaw that weakens collision in some cases.[9]
MurmurHash2A (32-bit, x86)—A fixed variant using Merkle–Damgård construction. Slightly slower.
CMurmurHash2A (32-bit, x86)—MurmurHash2A, but works incrementally.
MurmurHashNeutral2 (32-bit, x86)—Slower, but endian- and alignment-neutral.
MurmurHashAligned2 (32-bit, x86)—Slower, but does aligned reads (safer on some platforms).
MurmurHash64A (64-bit, x64)—The original 64-bit version. Optimized for 64-bit arithmetic.
MurmurHash64B (64-bit, x86)—A 64-bit version optimized for 32-bit platforms. It is not a true 64-bit hash due to insufficient mixing of the stripes.[10]
".as_bytes(), 0), 1959355408);
}
