//! Choosing a kernel for the 32-bit hash from the vector tiers that the CPU
//! supports and the build includes, and the public 32-bit entry points.
use crate::lanes::{vec128_murmurhash3_32, vec256_murmurhash3_32};
use crate::murmur32::{murmur3_32, portable_murmurhash3_32};
use vstd::prelude::*;

verus! {

/// A set of vector tiers: those the CPU supports, or those a build includes.
#[derive(Clone, Copy, Debug, PartialEq, Eq, Structural)]
pub struct Capabilities {
    /// The x86 baseline 128-bit tier.
    pub sse2: bool,
    /// The x86 advanced 256-bit tier.
    pub avx2: bool,
    /// The ARM 128-bit tier.
    pub neon: bool,
}

impl Capabilities {
    /// The empty set: only the portable kernel can run.
    pub fn none() -> (c: Capabilities)
        ensures
            !c.sse2 && !c.avx2 && !c.neon,
    {
        Capabilities { sse2: false, avx2: false, neon: false }
    }
}

/// One implementation of the 32-bit hash.
#[derive(Clone, Copy, Debug, PartialEq, Eq, Structural)]
pub enum Kernel {
    /// One 4-byte block at a time.
    Portable,
    /// Four-lane registers, for the x86 baseline tier.
    Sse2,
    /// Eight-lane registers, for the x86 advanced tier.
    Avx2,
    /// Four-lane registers, for the ARM tier.
    Neon,
}

impl Kernel {
    /// Whether this kernel may run on a CPU with the tiers `cpu`.
    pub open spec fn runs_on(self, cpu: Capabilities) -> bool {
        match self {
            Kernel::Portable => true,
            Kernel::Sse2 => cpu.sse2,
            Kernel::Avx2 => cpu.avx2,
            Kernel::Neon => cpu.neon,
        }
    }

    /// Whether this kernel is part of a build that includes the tiers `built`.
    pub open spec fn built_in(self, built: Capabilities) -> bool {
        self.runs_on(built)
    }

    /// Hashes `bytes` under `seed` with this kernel. Every kernel returns the
    /// same value: MurmurHash3 x86_32.
    pub fn hash(&self, bytes: &[u8], seed: u32) -> (res: u32)
        ensures
            res == murmur3_32(bytes@, seed),
    {
        match self {
            Kernel::Portable => portable_murmurhash3_32(bytes, seed),
            Kernel::Sse2 => vec128_murmurhash3_32(bytes, seed),
            Kernel::Avx2 => vec256_murmurhash3_32(bytes, seed),
            Kernel::Neon => vec128_murmurhash3_32(bytes, seed),
        }
    }
}

/// The kernel chosen for a CPU with the tiers `cpu` in a build with the tiers
/// `built`: the ARM tier where present, else the most advanced x86 tier
/// present, else the portable kernel.
pub open spec fn preferred_kernel(cpu: Capabilities, built: Capabilities) -> Kernel {
    if built.neon && cpu.neon {
        Kernel::Neon
    } else if built.avx2 && cpu.avx2 {
        Kernel::Avx2
    } else if built.sse2 && cpu.sse2 {
        Kernel::Sse2
    } else {
        Kernel::Portable
    }
}

/// Picks the kernel for a CPU with the tiers `cpu` in a build with the tiers
/// `built`. The result always runs on that CPU and is part of that build.
pub fn select_kernel(cpu: Capabilities, built: Capabilities) -> (k: Kernel)
    ensures
        k == preferred_kernel(cpu, built),
        k.runs_on(cpu),
        k.built_in(built),
{
    if built.neon && cpu.neon {
        Kernel::Neon
    } else if built.avx2 && cpu.avx2 {
        Kernel::Avx2
    } else if built.sse2 && cpu.sse2 {
        Kernel::Sse2
    } else {
        Kernel::Portable
    }
}

/// A kernel selection that is made once and then kept.
pub struct Dispatcher {
    selected: Option<Kernel>,
}

impl Dispatcher {
    /// The kernel selected so far, if any.
    pub closed spec fn selection(&self) -> Option<Kernel> {
        self.selected
    }

    /// A dispatcher that has not selected yet.
    pub fn new() -> (d: Dispatcher)
        ensures
            d.selection() == None::<Kernel>,
    {
        Dispatcher { selected: None }
    }

    /// A dispatcher whose selection is fixed to `kernel` from the start.
    pub fn forced(kernel: Kernel) -> (d: Dispatcher)
        ensures
            d.selection() == Some(kernel),
    {
        Dispatcher { selected: Some(kernel) }
    }

    /// The selected kernel: the one kept from before if there is one, else the
    /// preferred kernel for `cpu` and `built`, which is then kept.
    pub fn resolve(&mut self, cpu: Capabilities, built: Capabilities) -> (k: Kernel)
        ensures
            old(self).selection() is Some ==> k == old(self).selection()->0,
            old(self).selection() is None ==> k == preferred_kernel(cpu, built),
            final(self).selection() == Some(k),
    {
        match self.selected {
            Some(k) => k,
            None => {
                let k = select_kernel(cpu, built);
                self.selected = Some(k);
                k
            },
        }
    }

    /// Hashes `bytes` under `seed` with the selected kernel, or with the
    /// portable kernel while none is selected.
    pub fn hash(&self, bytes: &[u8], seed: u32) -> (res: u32)
        ensures
            res == murmur3_32(bytes@, seed),
    {
        match self.selected {
            Some(k) => k.hash(bytes, seed),
            None => Kernel::Portable.hash(bytes, seed),
        }
    }
}

/// Computes the 32-bit MurmurHash3 (x86_32) of `bytes` under `seed`. Every
/// kernel returns this value; this entry point makes no capability probe and
/// runs the portable kernel.
pub fn murmurhash3_32_with_seed(bytes: &[u8], seed: u32) -> (res: u32)
    ensures
        res == murmur3_32(bytes@, seed),
{
    Kernel::Portable.hash(bytes, seed)
}

/// Computes the 32-bit MurmurHash3 of `bytes` with seed 0.
pub fn murmurhash3_32(bytes: &[u8]) -> (res: u32)
    ensures
        res == murmur3_32(bytes@, 0),
{
    murmurhash3_32_with_seed(bytes, 0)
}

} // verus!
