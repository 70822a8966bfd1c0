//! Non-cryptographic pseudo-random number generators with 64-bit outputs,
//! a common `Random` contract, and a per-thread set of lazily seeded instances.

pub mod bits;
pub mod entropy;
pub mod families;
pub mod lcg128;
pub mod per_thread;
pub mod random;

pub use entropy::SeedError;
pub use families::{Mwc256XXA64, RomuJr, RomuTrio, Splitmix64, Tylo64, Wyrand, Xoshiro256plusplus};
pub use lcg128::{Lehmer64, Pcg64, Pcg64Fast};
pub use per_thread::{
    lehmer64_seed, lehmer64_u64, mwc256xxa64_seed, mwc256xxa64_u64, pcg64_seed, pcg64_u64,
    pcg64fast_seed, pcg64fast_u64, romu_jr_seed, romu_jr_u64, romu_trio_seed, romu_trio_u64,
    splitmix64_seed, splitmix64_u64, tylo64_seed, tylo64_u64, wyrand_seed, wyrand_u64,
    xoshiro256plusplus_seed, xoshiro256plusplus_u64, PerThread, ThreadRngs,
};
pub use random::{host_is_little_endian, FillBytes, Random};
