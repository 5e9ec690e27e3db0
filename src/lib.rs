//! MurmurHash fingerprints of byte sequences: the 32-bit MurmurHash3 (x86_32)
//! with a portable kernel and lane-parallel kernels behind a capability
//! dispatcher, plus the 64-bit MurmurHash2 and the 128-bit MurmurHash3 (x64).
pub mod dispatch;
pub mod hasher;
pub mod lanes;
pub mod murmur128;
pub mod murmur32;
pub mod murmur64;

pub use dispatch::{
    murmurhash3_32, murmurhash3_32_with_seed, select_kernel, Capabilities, Dispatcher, Kernel,
};
pub use hasher::Murmur3Hasher;
pub use murmur128::{murmurhash3_128, murmurhash3_128_with_seed};
pub use murmur64::{murmurhash2_64, murmurhash2_64_with_seed};
