//! One lazily seeded instance of each family per thread.
//!
//! A thread owns one `ThreadRngs` value; the free functions below route each
//! call to that value's instance of the family they name. An instance starts
//! in its placeholder state and is seeded on first use.
use vstd::prelude::*;
use crate::entropy::SeedError;
use crate::families::{Mwc256XXA64, RomuJr, RomuTrio, Splitmix64, Tylo64, Wyrand, Xoshiro256plusplus};
use crate::lcg128::{Lehmer64, Pcg64, Pcg64Fast};
use crate::random::Random;

verus! {

/// One family's instance for one thread, with whether it has been seeded yet.
#[derive(Debug, PartialEq, Eq)]
pub struct PerThread<G> {
    pub rng: G,
    pub seeded: bool,
}

impl<G: Random> PerThread<G> {
    /// A seeded instance has its odd words odd.
    pub open spec fn wf(self) -> bool {
        self.seeded ==> self.rng.odd_words_odd()
    }

    /// What a reseed may do: on success the instance is seeded and every word
    /// that seeding forces odd is odd; on failure nothing changes.
    pub open spec fn reseeded(self, after: Self, r: Result<(), SeedError>) -> bool {
        &&& r is Ok ==> after.seeded && after.rng.seeded_form() && after.rng.odd_words_odd()
        &&& r is Err ==> after == self
    }

    /// What drawing one output does: a seeded instance advances once and
    /// returns its next output; an unseeded one is first seeded from fresh
    /// entropy (nothing changes if that fails), then advances once.
    pub open spec fn drew(self, after: Self, r: Result<u64, SeedError>) -> bool {
        if self.seeded {
            &&& r == Ok::<u64, SeedError>(self.rng.next_output())
            &&& after == (PerThread { rng: self.rng.next_state(), seeded: true })
        } else {
            &&& r is Err ==> after == self
            &&& r matches Ok(v) ==> after.seeded && exists|s: G|
                s.seeded_form() && s.odd_words_odd() && v == s.next_output() && after.rng == #[trigger] s.next_state()
        }
    }

    /// An unseeded instance in its placeholder state.
    pub fn new() -> (r: Self)
        ensures
            !r.seeded,
            r.rng.is_placeholder(),
            r.wf(),
    {
        PerThread { rng: G::placeholder(), seeded: false }
    }

    /// Reseeds the instance from fresh entropy.
    pub fn reseed(&mut self) -> (r: Result<(), SeedError>)
        ensures
            old(self).reseeded(*final(self), r),
            old(self).wf() ==> final(self).wf(),
    {
        self.rng.seed()?;
        self.seeded = true;
        Ok(())
    }

    /// Draws the next output, seeding the instance first if it never was.
    pub fn next_u64(&mut self) -> (r: Result<u64, SeedError>)
        ensures
            old(self).drew(*final(self), r),
            old(self).wf() ==> final(self).wf(),
    {
        if !self.seeded {
            self.reseed()?;
        }
        let ghost s = self.rng;
        let v = self.rng.u64();
        proof {
            if s.odd_words_odd() {
                s.lemma_next_keeps_odd_words();
            }
        }
        Ok(v)
    }
}

/// The per-thread instances of every family.
#[derive(Debug, PartialEq, Eq)]
pub struct ThreadRngs {
    pub tylo64: PerThread<Tylo64>,
    pub romu_jr: PerThread<RomuJr>,
    pub romu_trio: PerThread<RomuTrio>,
    pub lehmer64: PerThread<Lehmer64>,
    pub mwc256xxa64: PerThread<Mwc256XXA64>,
    pub wyrand: PerThread<Wyrand>,
    pub splitmix64: PerThread<Splitmix64>,
    pub xoshiro256plusplus: PerThread<Xoshiro256plusplus>,
    pub pcg64: PerThread<Pcg64>,
    pub pcg64fast: PerThread<Pcg64Fast>,
}

impl ThreadRngs {
    /// Every seeded instance has its odd words odd.
    pub open spec fn wf(self) -> bool {
        &&& self.tylo64.wf()
        &&& self.romu_jr.wf()
        &&& self.romu_trio.wf()
        &&& self.lehmer64.wf()
        &&& self.mwc256xxa64.wf()
        &&& self.wyrand.wf()
        &&& self.splitmix64.wf()
        &&& self.xoshiro256plusplus.wf()
        &&& self.pcg64.wf()
        &&& self.pcg64fast.wf()
    }

    /// Every instance unseeded, in its placeholder state.
    pub fn new() -> (r: Self)
        ensures
            r.wf(),
            !r.tylo64.seeded && r.tylo64.rng.is_placeholder(),
            !r.romu_jr.seeded && r.romu_jr.rng.is_placeholder(),
            !r.romu_trio.seeded && r.romu_trio.rng.is_placeholder(),
            !r.lehmer64.seeded && r.lehmer64.rng.is_placeholder(),
            !r.mwc256xxa64.seeded && r.mwc256xxa64.rng.is_placeholder(),
            !r.wyrand.seeded && r.wyrand.rng.is_placeholder(),
            !r.splitmix64.seeded && r.splitmix64.rng.is_placeholder(),
            !r.xoshiro256plusplus.seeded && r.xoshiro256plusplus.rng.is_placeholder(),
            !r.pcg64.seeded && r.pcg64.rng.is_placeholder(),
            !r.pcg64fast.seeded && r.pcg64fast.rng.is_placeholder(),
    {
        ThreadRngs {
            tylo64: PerThread::new(),
            romu_jr: PerThread::new(),
            romu_trio: PerThread::new(),
            lehmer64: PerThread::new(),
            mwc256xxa64: PerThread::new(),
            wyrand: PerThread::new(),
            splitmix64: PerThread::new(),
            xoshiro256plusplus: PerThread::new(),
            pcg64: PerThread::new(),
            pcg64fast: PerThread::new(),
        }
    }
}

/// Reseeds this thread's Tylo64; no other instance changes.
pub fn tylo64_seed(rngs: &mut ThreadRngs) -> (r: Result<(), SeedError>)
    ensures
        old(rngs).tylo64.reseeded(final(rngs).tylo64, r),
        *final(rngs) == (ThreadRngs { tylo64: final(rngs).tylo64, ..*old(rngs) }),
        old(rngs).wf() ==> final(rngs).wf(),
{
    rngs.tylo64.reseed()
}

/// Draws the next output of this thread's Tylo64, seeding it on first use; no
/// other instance changes.
pub fn tylo64_u64(rngs: &mut ThreadRngs) -> (r: Result<u64, SeedError>)
    ensures
        old(rngs).tylo64.drew(final(rngs).tylo64, r),
        *final(rngs) == (ThreadRngs { tylo64: final(rngs).tylo64, ..*old(rngs) }),
        old(rngs).wf() ==> final(rngs).wf(),
{
    rngs.tylo64.next_u64()
}

/// Reseeds this thread's RomuJr; no other instance changes.
pub fn romu_jr_seed(rngs: &mut ThreadRngs) -> (r: Result<(), SeedError>)
    ensures
        old(rngs).romu_jr.reseeded(final(rngs).romu_jr, r),
        *final(rngs) == (ThreadRngs { romu_jr: final(rngs).romu_jr, ..*old(rngs) }),
        old(rngs).wf() ==> final(rngs).wf(),
{
    rngs.romu_jr.reseed()
}

/// Draws the next output of this thread's RomuJr, seeding it on first use; no
/// other instance changes.
pub fn romu_jr_u64(rngs: &mut ThreadRngs) -> (r: Result<u64, SeedError>)
    ensures
        old(rngs).romu_jr.drew(final(rngs).romu_jr, r),
        *final(rngs) == (ThreadRngs { romu_jr: final(rngs).romu_jr, ..*old(rngs) }),
        old(rngs).wf() ==> final(rngs).wf(),
{
    rngs.romu_jr.next_u64()
}

/// Reseeds this thread's RomuTrio; no other instance changes.
pub fn romu_trio_seed(rngs: &mut ThreadRngs) -> (r: Result<(), SeedError>)
    ensures
        old(rngs).romu_trio.reseeded(final(rngs).romu_trio, r),
        *final(rngs) == (ThreadRngs { romu_trio: final(rngs).romu_trio, ..*old(rngs) }),
        old(rngs).wf() ==> final(rngs).wf(),
{
    rngs.romu_trio.reseed()
}

/// Draws the next output of this thread's RomuTrio, seeding it on first use; no
/// other instance changes.
pub fn romu_trio_u64(rngs: &mut ThreadRngs) -> (r: Result<u64, SeedError>)
    ensures
        old(rngs).romu_trio.drew(final(rngs).romu_trio, r),
        *final(rngs) == (ThreadRngs { romu_trio: final(rngs).romu_trio, ..*old(rngs) }),
        old(rngs).wf() ==> final(rngs).wf(),
{
    rngs.romu_trio.next_u64()
}

/// Reseeds this thread's Lehmer64; no other instance changes.
pub fn lehmer64_seed(rngs: &mut ThreadRngs) -> (r: Result<(), SeedError>)
    ensures
        old(rngs).lehmer64.reseeded(final(rngs).lehmer64, r),
        *final(rngs) == (ThreadRngs { lehmer64: final(rngs).lehmer64, ..*old(rngs) }),
        old(rngs).wf() ==> final(rngs).wf(),
{
    rngs.lehmer64.reseed()
}

/// Draws the next output of this thread's Lehmer64, seeding it on first use; no
/// other instance changes.
pub fn lehmer64_u64(rngs: &mut ThreadRngs) -> (r: Result<u64, SeedError>)
    ensures
        old(rngs).lehmer64.drew(final(rngs).lehmer64, r),
        *final(rngs) == (ThreadRngs { lehmer64: final(rngs).lehmer64, ..*old(rngs) }),
        old(rngs).wf() ==> final(rngs).wf(),
{
    rngs.lehmer64.next_u64()
}

/// Reseeds this thread's Mwc256XXA64; no other instance changes.
pub fn mwc256xxa64_seed(rngs: &mut ThreadRngs) -> (r: Result<(), SeedError>)
    ensures
        old(rngs).mwc256xxa64.reseeded(final(rngs).mwc256xxa64, r),
        *final(rngs) == (ThreadRngs { mwc256xxa64: final(rngs).mwc256xxa64, ..*old(rngs) }),
        old(rngs).wf() ==> final(rngs).wf(),
{
    rngs.mwc256xxa64.reseed()
}

/// Draws the next output of this thread's Mwc256XXA64, seeding it on first use; no
/// other instance changes.
pub fn mwc256xxa64_u64(rngs: &mut ThreadRngs) -> (r: Result<u64, SeedError>)
    ensures
        old(rngs).mwc256xxa64.drew(final(rngs).mwc256xxa64, r),
        *final(rngs) == (ThreadRngs { mwc256xxa64: final(rngs).mwc256xxa64, ..*old(rngs) }),
        old(rngs).wf() ==> final(rngs).wf(),
{
    rngs.mwc256xxa64.next_u64()
}

/// Reseeds this thread's Wyrand; no other instance changes.
pub fn wyrand_seed(rngs: &mut ThreadRngs) -> (r: Result<(), SeedError>)
    ensures
        old(rngs).wyrand.reseeded(final(rngs).wyrand, r),
        *final(rngs) == (ThreadRngs { wyrand: final(rngs).wyrand, ..*old(rngs) }),
        old(rngs).wf() ==> final(rngs).wf(),
{
    rngs.wyrand.reseed()
}

/// Draws the next output of this thread's Wyrand, seeding it on first use; no
/// other instance changes.
pub fn wyrand_u64(rngs: &mut ThreadRngs) -> (r: Result<u64, SeedError>)
    ensures
        old(rngs).wyrand.drew(final(rngs).wyrand, r),
        *final(rngs) == (ThreadRngs { wyrand: final(rngs).wyrand, ..*old(rngs) }),
        old(rngs).wf() ==> final(rngs).wf(),
{
    rngs.wyrand.next_u64()
}

/// Reseeds this thread's Splitmix64; no other instance changes.
pub fn splitmix64_seed(rngs: &mut ThreadRngs) -> (r: Result<(), SeedError>)
    ensures
        old(rngs).splitmix64.reseeded(final(rngs).splitmix64, r),
        *final(rngs) == (ThreadRngs { splitmix64: final(rngs).splitmix64, ..*old(rngs) }),
        old(rngs).wf() ==> final(rngs).wf(),
{
    rngs.splitmix64.reseed()
}

/// Draws the next output of this thread's Splitmix64, seeding it on first use; no
/// other instance changes.
pub fn splitmix64_u64(rngs: &mut ThreadRngs) -> (r: Result<u64, SeedError>)
    ensures
        old(rngs).splitmix64.drew(final(rngs).splitmix64, r),
        *final(rngs) == (ThreadRngs { splitmix64: final(rngs).splitmix64, ..*old(rngs) }),
        old(rngs).wf() ==> final(rngs).wf(),
{
    rngs.splitmix64.next_u64()
}

/// Reseeds this thread's Xoshiro256plusplus; no other instance changes.
pub fn xoshiro256plusplus_seed(rngs: &mut ThreadRngs) -> (r: Result<(), SeedError>)
    ensures
        old(rngs).xoshiro256plusplus.reseeded(final(rngs).xoshiro256plusplus, r),
        *final(rngs) == (ThreadRngs { xoshiro256plusplus: final(rngs).xoshiro256plusplus, ..*old(rngs) }),
        old(rngs).wf() ==> final(rngs).wf(),
{
    rngs.xoshiro256plusplus.reseed()
}

/// Draws the next output of this thread's Xoshiro256plusplus, seeding it on first use; no
/// other instance changes.
pub fn xoshiro256plusplus_u64(rngs: &mut ThreadRngs) -> (r: Result<u64, SeedError>)
    ensures
        old(rngs).xoshiro256plusplus.drew(final(rngs).xoshiro256plusplus, r),
        *final(rngs) == (ThreadRngs { xoshiro256plusplus: final(rngs).xoshiro256plusplus, ..*old(rngs) }),
        old(rngs).wf() ==> final(rngs).wf(),
{
    rngs.xoshiro256plusplus.next_u64()
}

/// Reseeds this thread's Pcg64; no other instance changes.
pub fn pcg64_seed(rngs: &mut ThreadRngs) -> (r: Result<(), SeedError>)
    ensures
        old(rngs).pcg64.reseeded(final(rngs).pcg64, r),
        *final(rngs) == (ThreadRngs { pcg64: final(rngs).pcg64, ..*old(rngs) }),
        old(rngs).wf() ==> final(rngs).wf(),
{
    rngs.pcg64.reseed()
}

/// Draws the next output of this thread's Pcg64, seeding it on first use; no
/// other instance changes.
pub fn pcg64_u64(rngs: &mut ThreadRngs) -> (r: Result<u64, SeedError>)
    ensures
        old(rngs).pcg64.drew(final(rngs).pcg64, r),
        *final(rngs) == (ThreadRngs { pcg64: final(rngs).pcg64, ..*old(rngs) }),
        old(rngs).wf() ==> final(rngs).wf(),
{
    rngs.pcg64.next_u64()
}

/// Reseeds this thread's Pcg64Fast; no other instance changes.
pub fn pcg64fast_seed(rngs: &mut ThreadRngs) -> (r: Result<(), SeedError>)
    ensures
        old(rngs).pcg64fast.reseeded(final(rngs).pcg64fast, r),
        *final(rngs) == (ThreadRngs { pcg64fast: final(rngs).pcg64fast, ..*old(rngs) }),
        old(rngs).wf() ==> final(rngs).wf(),
{
    rngs.pcg64fast.reseed()
}

/// Draws the next output of this thread's Pcg64Fast, seeding it on first use; no
/// other instance changes.
pub fn pcg64fast_u64(rngs: &mut ThreadRngs) -> (r: Result<u64, SeedError>)
    ensures
        old(rngs).pcg64fast.drew(final(rngs).pcg64fast, r),
        *final(rngs) == (ThreadRngs { pcg64fast: final(rngs).pcg64fast, ..*old(rngs) }),
        old(rngs).wf() ==> final(rngs).wf(),
{
    rngs.pcg64fast.next_u64()
}

} // verus!
