//! The generator families built on a 128-bit congruential state.
use vstd::prelude::*;
use crate::bits::{lemma_odd_times_odd_u128, rotr, rotr64};
use crate::entropy::{compose128, get_seed, join128, SeedError};
use crate::random::Random;

verus! {

/// The multiplier of Lehmer64.
pub const LEHMER_MUL: u128 = 0xDA942042E4DD58B5;

/// The multiplier of both PCG families.
pub const PCG_MUL: u128 = 0x2360ED051FC65DA44385DF649FCCF645;

/// The XSL-RR output of a PCG state: the two halves xor-ed, rotated right by
/// the top six bits.
pub open spec fn xsl_rr(s: u128) -> u64 {
    rotr64(((s >> 64u128) as u64) ^ (s as u64), (s >> 122u128) as u64)
}

fn xsl_rr_output(s: u128) -> (r: u64)
    ensures
        r == xsl_rr(s),
{
    let rot = (s >> 122u128) as u64;
    assert(s >> 122u128 < 64u128) by (bit_vector);
    let xsl = ((s >> 64u128) as u64) ^ (s as u64);
    rotr(xsl, rot)
}

/// Joining two words and setting the lowest bit gives an odd word.
proof fn lemma_joined_odd(hi: u64, lo: u64)
    ensures
        (join128(hi, lo) | 1) % 2 == 1,
{
    let v = join128(hi, lo);
    assert((v | 1u128) % 2 == 1) by (bit_vector);
}

/// Lehmer64: a 128-bit multiplicative congruential state; the output is its
/// high half before the advance.
#[derive(Debug, Clone, Copy, PartialEq, Eq, Structural)]
pub struct Lehmer64 {
    pub state: u128,
}

impl Lehmer64 {
    /// The state made from two raw entropy words (high, then low), forced odd.
    pub fn from_seed_words(hi: u64, lo: u64) -> (r: Self)
        ensures
            r.state == join128(hi, lo) | 1,
            r.state % 2 == 1,
    {
        proof {
            lemma_joined_odd(hi, lo);
        }
        Lehmer64 { state: compose128(hi, lo) | 1 }
    }
}

impl Random for Lehmer64 {
    open spec fn next_state(self) -> Self {
        Lehmer64 { state: self.state.wrapping_mul(LEHMER_MUL) }
    }

    open spec fn next_output(self) -> u64 {
        (self.state >> 64u128) as u64
    }

    open spec fn odd_words_odd(self) -> bool {
        self.state % 2 == 1
    }

    open spec fn seeded_form(self) -> bool {
        self.state % 2 == 1
    }

    open spec fn is_placeholder(self) -> bool {
        self.state == 3
    }

    proof fn lemma_next_keeps_odd_words(self) {
        lemma_odd_times_odd_u128(self.state, LEHMER_MUL);
    }

    fn placeholder() -> (r: Self) {
        let r = Lehmer64 { state: 3 };
        assert(r.is_placeholder());
        r
    }

    fn u64(&mut self) -> (r: u64) {
        let s = self.state;
        self.state = self.state.wrapping_mul(LEHMER_MUL);
        (s >> 64u128) as u64
    }

    fn seed(&mut self) -> (r: Result<(), SeedError>) {
        let hi = get_seed()?;
        let lo = get_seed()?;
        *self = Self::from_seed_words(hi, lo);
        Ok(())
    }
}

/// Pcg64: a 128-bit linear congruential state with an odd increment, and the
/// XSL-RR output.
#[derive(Debug, Clone, Copy, PartialEq, Eq, Structural)]
pub struct Pcg64 {
    pub state: u128,
    pub inc: u128,
}

impl Pcg64 {
    /// The state made from four raw entropy words in drawing order (state
    /// high, state low, increment high, increment low), both halves forced odd.
    pub fn from_seed_words(state_hi: u64, state_lo: u64, inc_hi: u64, inc_lo: u64) -> (r: Self)
        ensures
            r.state == join128(state_hi, state_lo) | 1,
            r.inc == join128(inc_hi, inc_lo) | 1,
            r.state % 2 == 1,
            r.inc % 2 == 1,
    {
        proof {
            lemma_joined_odd(state_hi, state_lo);
            lemma_joined_odd(inc_hi, inc_lo);
        }
        Pcg64 { state: compose128(state_hi, state_lo) | 1, inc: compose128(inc_hi, inc_lo) | 1 }
    }
}

impl Random for Pcg64 {
    open spec fn next_state(self) -> Self {
        Pcg64 { state: self.state.wrapping_mul(PCG_MUL).wrapping_add(self.inc), inc: self.inc }
    }

    open spec fn next_output(self) -> u64 {
        xsl_rr(self.state)
    }

    open spec fn odd_words_odd(self) -> bool {
        self.inc % 2 == 1
    }

    open spec fn seeded_form(self) -> bool {
        self.state % 2 == 1 && self.inc % 2 == 1
    }

    open spec fn is_placeholder(self) -> bool {
        self.state == 3 && self.inc == 3
    }

    proof fn lemma_next_keeps_odd_words(self) {
    }

    fn placeholder() -> (r: Self) {
        let r = Pcg64 { state: 3, inc: 3 };
        assert(r.is_placeholder());
        r
    }

    fn u64(&mut self) -> (r: u64) {
        let s = self.state;
        self.state = self.state.wrapping_mul(PCG_MUL).wrapping_add(self.inc);
        xsl_rr_output(s)
    }

    fn seed(&mut self) -> (r: Result<(), SeedError>) {
        let state_hi = get_seed()?;
        let state_lo = get_seed()?;
        let inc_hi = get_seed()?;
        let inc_lo = get_seed()?;
        *self = Self::from_seed_words(state_hi, state_lo, inc_hi, inc_lo);
        Ok(())
    }
}

/// Pcg64Fast: the multiplicative variant of Pcg64, with no increment.
#[derive(Debug, Clone, Copy, PartialEq, Eq, Structural)]
pub struct Pcg64Fast {
    pub state: u128,
}

impl Pcg64Fast {
    /// The state made from two raw entropy words (high, then low), forced odd.
    pub fn from_seed_words(hi: u64, lo: u64) -> (r: Self)
        ensures
            r.state == join128(hi, lo) | 1,
            r.state % 2 == 1,
    {
        proof {
            lemma_joined_odd(hi, lo);
        }
        Pcg64Fast { state: compose128(hi, lo) | 1 }
    }
}

impl Random for Pcg64Fast {
    open spec fn next_state(self) -> Self {
        Pcg64Fast { state: self.state.wrapping_mul(PCG_MUL) }
    }

    open spec fn next_output(self) -> u64 {
        xsl_rr(self.state)
    }

    open spec fn odd_words_odd(self) -> bool {
        self.state % 2 == 1
    }

    open spec fn seeded_form(self) -> bool {
        self.state % 2 == 1
    }

    open spec fn is_placeholder(self) -> bool {
        self.state == 3
    }

    proof fn lemma_next_keeps_odd_words(self) {
        lemma_odd_times_odd_u128(self.state, PCG_MUL);
    }

    fn placeholder() -> (r: Self) {
        let r = Pcg64Fast { state: 3 };
        assert(r.is_placeholder());
        r
    }

    fn u64(&mut self) -> (r: u64) {
        let s = self.state;
        self.state = self.state.wrapping_mul(PCG_MUL);
        xsl_rr_output(s)
    }

    fn seed(&mut self) -> (r: Result<(), SeedError>) {
        let hi = get_seed()?;
        let lo = get_seed()?;
        *self = Self::from_seed_words(hi, lo);
        Ok(())
    }
}

} // verus!
