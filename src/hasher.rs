//! A streaming adapter: it buffers what is written and hashes the whole
//! buffer with the 32-bit MurmurHash3 when asked for the result.
use crate::dispatch::murmurhash3_32_with_seed;
use crate::murmur32::murmur3_32;
use vstd::prelude::*;

verus! {

/// Buffers written bytes; `finish` is the 32-bit MurmurHash3 of all of them,
/// widened to 64 bits.
pub struct Murmur3Hasher {
    seed: u32,
    bytes: Vec<u8>,
}

impl Murmur3Hasher {
    /// The seed the result is computed under.
    pub closed spec fn seed(&self) -> u32 {
        self.seed
    }

    /// Everything written so far, in order.
    pub closed spec fn buffered(&self) -> Seq<u8> {
        self.bytes@
    }

    /// A hasher with seed 0 and nothing written.
    pub fn new() -> (h: Murmur3Hasher)
        ensures
            h.seed() == 0,
            h.buffered() == Seq::<u8>::empty(),
    {
        Murmur3Hasher::new_with_seed(0)
    }

    /// A hasher with the given seed and nothing written.
    pub fn new_with_seed(seed: u32) -> (h: Murmur3Hasher)
        ensures
            h.seed() == seed,
            h.buffered() == Seq::<u8>::empty(),
    {
        Murmur3Hasher { seed, bytes: Vec::new() }
    }

    /// Appends `bytes` to the buffer.
    pub fn append(&mut self, bytes: &[u8])
        ensures
            final(self).seed() == old(self).seed(),
            final(self).buffered() == old(self).buffered() + bytes@,
    {
        let mut i: usize = 0;
        while i < bytes.len()
            invariant
                i <= bytes@.len(),
                self.seed == old(self).seed,
                self.bytes@ == old(self).bytes@ + bytes@.take(i as int),
            decreases bytes@.len() - i,
        {
            self.bytes.push(bytes[i]);
            i = i + 1;
            assert(self.bytes@ =~= old(self).bytes@ + bytes@.take(i as int));
        }
        assert(bytes@.take(i as int) =~= bytes@);
    }

    /// The 32-bit MurmurHash3 of the buffer under the seed, widened.
    pub fn digest(&self) -> (r: u64)
        ensures
            r == murmur3_32(self.buffered(), self.seed()) as u64,
    {
        murmurhash3_32_with_seed(self.bytes.as_slice(), self.seed) as u64
    }
}

impl Default for Murmur3Hasher {
    fn default() -> (h: Murmur3Hasher)
        ensures
            h.seed() == 0,
            h.buffered() == Seq::<u8>::empty(),
    {
        Murmur3Hasher::new()
    }
}

impl std::hash::Hasher for Murmur3Hasher {
    fn finish(&self) -> (r: u64)
        ensures
            r == murmur3_32(self.buffered(), self.seed()) as u64,
    {
        self.digest()
    }

    fn write(&mut self, bytes: &[u8])
        ensures
            final(self).seed() == old(self).seed(),
            final(self).buffered() == old(self).buffered() + bytes@,
    {
        self.append(bytes)
    }
}

} // verus!
