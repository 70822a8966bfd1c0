//! The generator families whose state is made of 64-bit words.
use vstd::prelude::*;
use crate::bits::{
    lemma_or_one_odd, lemma_rotl_cancels, lemma_wrapping_mul_cancels, lemma_xorshift_cancels, rotl,
    rotl64,
};
use crate::entropy::{get_seed, SeedError};
use crate::random::{advance, nth_output, outputs, Random};

verus! {

/// The multiplier shared by the two Romu families.
pub const ROMU_MUL: u64 = 15241094284759029579;

/// Splitmix64: one 64-bit word, advanced by a Weyl increment and mixed on output.
#[derive(Debug, Clone, Copy, PartialEq, Eq, Structural)]
pub struct Splitmix64 {
    pub state: u64,
}

pub open spec fn splitmix64_mix(x: u64) -> u64 {
    let x = (x ^ (x >> 30u64)).wrapping_mul(0xBF58476D1CE4E5B9);
    let x = (x ^ (x >> 27u64)).wrapping_mul(0x94D049BB133111EB);
    x ^ (x >> 31u64)
}

impl Splitmix64 {
    /// The state made from one raw entropy word, forced odd.
    pub fn from_seed_words(w: u64) -> (r: Self)
        ensures
            r.state == w | 1,
    {
        Splitmix64 { state: w | 1 }
    }
}

impl Random for Splitmix64 {
    open spec fn next_state(self) -> Self {
        Splitmix64 { state: self.state.wrapping_add(0x9E3779B97F4A7C15) }
    }

    open spec fn next_output(self) -> u64 {
        splitmix64_mix(self.state)
    }

    open spec fn odd_words_odd(self) -> bool {
        true
    }

    open spec fn seeded_form(self) -> bool {
        self.state % 2 == 1
    }

    open spec fn is_placeholder(self) -> bool {
        self.state == 3
    }

    proof fn lemma_next_keeps_odd_words(self) {
    }

    fn placeholder() -> (r: Self) {
        let r = Splitmix64 { state: 3 };
        assert(r.is_placeholder());
        r
    }

    fn u64(&mut self) -> (r: u64) {
        let mut x = self.state;
        self.state = self.state.wrapping_add(0x9E3779B97F4A7C15);
        x = (x ^ (x >> 30u64)).wrapping_mul(0xBF58476D1CE4E5B9);
        x = (x ^ (x >> 27u64)).wrapping_mul(0x94D049BB133111EB);
        x ^ (x >> 31u64)
    }

    fn seed(&mut self) -> (r: Result<(), SeedError>) {
        let w = get_seed()?;
        *self = Self::from_seed_words(w);
        proof {
            lemma_or_one_odd(w);
        }
        Ok(())
    }
}

/// Wyrand: one 64-bit word, advanced by a Weyl increment; the output folds a
/// 128-bit product.
#[derive(Debug, Clone, Copy, PartialEq, Eq, Structural)]
pub struct Wyrand {
    pub state: u64,
}

pub open spec fn wyrand_mix(s: u64) -> u64 {
    let c = ((s ^ 0xE7037ED1A0B428DB) as int * s as int) as u128;
    ((c >> 64u128) ^ c) as u64
}

impl Wyrand {
    /// The state made from one raw entropy word, forced odd.
    pub fn from_seed_words(w: u64) -> (r: Self)
        ensures
            r.state == w | 1,
    {
        Wyrand { state: w | 1 }
    }
}

impl Random for Wyrand {
    open spec fn next_state(self) -> Self {
        Wyrand { state: self.state.wrapping_add(0xA0761D6478BD642F) }
    }

    open spec fn next_output(self) -> u64 {
        wyrand_mix(self.state)
    }

    open spec fn odd_words_odd(self) -> bool {
        true
    }

    open spec fn seeded_form(self) -> bool {
        self.state % 2 == 1
    }

    open spec fn is_placeholder(self) -> bool {
        self.state == 3
    }

    proof fn lemma_next_keeps_odd_words(self) {
    }

    fn placeholder() -> (r: Self) {
        let r = Wyrand { state: 3 };
        assert(r.is_placeholder());
        r
    }

    fn u64(&mut self) -> (r: u64) {
        let s = self.state;
        self.state = self.state.wrapping_add(0xA0761D6478BD642F);
        let a = s ^ 0xE7037ED1A0B428DB;
        assert(a as int * s as int <= 0xffff_ffff_ffff_ffffint * 0xffff_ffff_ffff_ffffint) by (nonlinear_arith)
            requires
                a <= 0xffff_ffff_ffff_ffffu64,
                s <= 0xffff_ffff_ffff_ffffu64,
        ;
        let c: u128 = a as u128 * s as u128;
        ((c >> 64u128) ^ c) as u64
    }

    fn seed(&mut self) -> (r: Result<(), SeedError>) {
        let w = get_seed()?;
        *self = Self::from_seed_words(w);
        proof {
            lemma_or_one_odd(w);
        }
        Ok(())
    }
}

/// Tylo64: four 64-bit words; `k` is an odd Weyl increment.
#[derive(Debug, Clone, Copy, PartialEq, Eq, Structural)]
pub struct Tylo64 {
    pub a: u64,
    pub b: u64,
    pub w: u64,
    pub k: u64,
}

impl Tylo64 {
    /// The state made from raw entropy words, in the order they are drawn:
    /// an even `k` is moved down to the odd word below it, the others are forced odd.
    pub fn from_seed_words(k: u64, a: u64, b: u64, w: u64) -> (r: Self)
        ensures
            r.k == (if k % 2 == 0 { k.wrapping_sub(1) } else { k }),
            r.a == a | 1,
            r.b == b | 1,
            r.w == w | 1,
    {
        let k = if k % 2 == 0 { k.wrapping_sub(1) } else { k };
        Tylo64 { a: a | 1, b: b | 1, w: w | 1, k }
    }
}

impl Random for Tylo64 {
    open spec fn next_state(self) -> Self {
        let b = self.b;
        let w = self.w.wrapping_add(self.k);
        let out = self.a ^ w;
        Tylo64 {
            a: b.wrapping_add(b << 3u64) ^ (b >> 11u64),
            b: rotl64(b, 24).wrapping_add(out),
            w,
            k: self.k,
        }
    }

    open spec fn next_output(self) -> u64 {
        self.a ^ self.w.wrapping_add(self.k)
    }

    open spec fn odd_words_odd(self) -> bool {
        self.k % 2 == 1
    }

    open spec fn seeded_form(self) -> bool {
        self.a % 2 == 1 && self.b % 2 == 1 && self.w % 2 == 1 && self.k % 2 == 1
    }

    open spec fn is_placeholder(self) -> bool {
        self.a == 3 && self.b == 3 && self.w == 3 && self.k == 3
    }

    proof fn lemma_next_keeps_odd_words(self) {
    }

    fn placeholder() -> (r: Self) {
        let r = Tylo64 { a: 3, b: 3, w: 3, k: 3 };
        assert(r.is_placeholder());
        r
    }

    fn u64(&mut self) -> (r: u64) {
        let b = self.b;
        self.w = self.w.wrapping_add(self.k);
        let out = self.a ^ self.w;
        self.a = b.wrapping_add(b << 3u64) ^ (b >> 11u64);
        self.b = rotl(b, 24).wrapping_add(out);
        out
    }

    fn seed(&mut self) -> (r: Result<(), SeedError>) {
        let k = get_seed()?;
        let a = get_seed()?;
        let b = get_seed()?;
        let w = get_seed()?;
        *self = Self::from_seed_words(k, a, b, w);
        proof {
            let kk = k.wrapping_sub(1);
            assert(k % 2 == 0 ==> kk % 2 == 1);
            lemma_or_one_odd(a);
            lemma_or_one_odd(b);
            lemma_or_one_odd(w);
        }
        Ok(())
    }
}

/// RomuJr: two 64-bit words, a multiply and a rotate per advance.
#[derive(Debug, Clone, Copy, PartialEq, Eq, Structural)]
pub struct RomuJr {
    pub x: u64,
    pub y: u64,
}

impl RomuJr {
    /// The state made from raw entropy words in drawing order, each forced odd.
    pub fn from_seed_words(x: u64, y: u64) -> (r: Self)
        ensures
            r.x == x | 1,
            r.y == y | 1,
    {
        RomuJr { x: x | 1, y: y | 1 }
    }
}

impl Random for RomuJr {
    open spec fn next_state(self) -> Self {
        RomuJr {
            x: ROMU_MUL.wrapping_mul(self.y),
            y: rotl64(self.y.wrapping_sub(self.x), 27),
        }
    }

    open spec fn next_output(self) -> u64 {
        self.x
    }

    open spec fn odd_words_odd(self) -> bool {
        true
    }

    open spec fn seeded_form(self) -> bool {
        self.x % 2 == 1 && self.y % 2 == 1
    }

    open spec fn is_placeholder(self) -> bool {
        self.x == 3 && self.y == 3
    }

    proof fn lemma_next_keeps_odd_words(self) {
    }

    fn placeholder() -> (r: Self) {
        let r = RomuJr { x: 3, y: 3 };
        assert(r.is_placeholder());
        r
    }

    fn u64(&mut self) -> (r: u64) {
        let xp = self.x;
        self.x = ROMU_MUL.wrapping_mul(self.y);
        self.y = self.y.wrapping_sub(xp);
        self.y = rotl(self.y, 27);
        xp
    }

    fn seed(&mut self) -> (r: Result<(), SeedError>) {
        let x = get_seed()?;
        let y = get_seed()?;
        *self = Self::from_seed_words(x, y);
        proof {
            lemma_or_one_odd(x);
            lemma_or_one_odd(y);
        }
        Ok(())
    }
}

/// RomuTrio: three 64-bit words, a multiply and two rotates per advance.
#[derive(Debug, Clone, Copy, PartialEq, Eq, Structural)]
pub struct RomuTrio {
    pub x: u64,
    pub y: u64,
    pub z: u64,
}

impl RomuTrio {
    /// The state made from raw entropy words in drawing order, each forced odd.
    pub fn from_seed_words(x: u64, y: u64, z: u64) -> (r: Self)
        ensures
            r.x == x | 1,
            r.y == y | 1,
            r.z == z | 1,
    {
        RomuTrio { x: x | 1, y: y | 1, z: z | 1 }
    }
}

impl Random for RomuTrio {
    open spec fn next_state(self) -> Self {
        RomuTrio {
            x: ROMU_MUL.wrapping_mul(self.z),
            y: rotl64(self.y.wrapping_sub(self.x), 12),
            z: rotl64(self.z.wrapping_sub(self.y), 44),
        }
    }

    open spec fn next_output(self) -> u64 {
        self.x
    }

    open spec fn odd_words_odd(self) -> bool {
        true
    }

    open spec fn seeded_form(self) -> bool {
        self.x % 2 == 1 && self.y % 2 == 1 && self.z % 2 == 1
    }

    open spec fn is_placeholder(self) -> bool {
        self.x == 3 && self.y == 3 && self.z == 3
    }

    proof fn lemma_next_keeps_odd_words(self) {
    }

    fn placeholder() -> (r: Self) {
        let r = RomuTrio { x: 3, y: 3, z: 3 };
        assert(r.is_placeholder());
        r
    }

    fn u64(&mut self) -> (r: u64) {
        let xp = self.x;
        let yp = self.y;
        let zp = self.z;
        self.x = ROMU_MUL.wrapping_mul(zp);
        self.y = rotl(yp.wrapping_sub(xp), 12);
        self.z = rotl(zp.wrapping_sub(yp), 44);
        xp
    }

    fn seed(&mut self) -> (r: Result<(), SeedError>) {
        let x = get_seed()?;
        let y = get_seed()?;
        let z = get_seed()?;
        *self = Self::from_seed_words(x, y, z);
        proof {
            lemma_or_one_odd(x);
            lemma_or_one_odd(y);
            lemma_or_one_odd(z);
        }
        Ok(())
    }
}

/// Xoshiro256++: four 64-bit words of xor-shift-rotate state.
#[derive(Debug, Clone, Copy, PartialEq, Eq, Structural)]
pub struct Xoshiro256plusplus {
    pub s0: u64,
    pub s1: u64,
    pub s2: u64,
    pub s3: u64,
}

impl Xoshiro256plusplus {
    /// The state made from raw entropy words in drawing order, each forced odd.
    pub fn from_seed_words(s0: u64, s1: u64, s2: u64, s3: u64) -> (r: Self)
        ensures
            r.s0 == s0 | 1,
            r.s1 == s1 | 1,
            r.s2 == s2 | 1,
            r.s3 == s3 | 1,
    {
        Xoshiro256plusplus { s0: s0 | 1, s1: s1 | 1, s2: s2 | 1, s3: s3 | 1 }
    }
}

impl Random for Xoshiro256plusplus {
    open spec fn next_state(self) -> Self {
        let s2 = self.s2 ^ self.s0;
        let s3 = self.s3 ^ self.s1;
        let s1 = self.s1 ^ s2;
        let s0 = self.s0 ^ s3;
        Xoshiro256plusplus { s0, s1, s2: s2 ^ (self.s0 << 17u64), s3: rotl64(s3, 45) }
    }

    open spec fn next_output(self) -> u64 {
        rotl64(self.s0.wrapping_add(self.s3), 23).wrapping_add(self.s0)
    }

    open spec fn odd_words_odd(self) -> bool {
        true
    }

    open spec fn seeded_form(self) -> bool {
        self.s0 % 2 == 1 && self.s1 % 2 == 1 && self.s2 % 2 == 1 && self.s3 % 2 == 1
    }

    open spec fn is_placeholder(self) -> bool {
        self.s0 == 3 && self.s1 == 3 && self.s2 == 3 && self.s3 == 3
    }

    proof fn lemma_next_keeps_odd_words(self) {
    }

    fn placeholder() -> (r: Self) {
        let r = Xoshiro256plusplus { s0: 3, s1: 3, s2: 3, s3: 3 };
        assert(r.is_placeholder());
        r
    }

    fn u64(&mut self) -> (r: u64) {
        let result = rotl(self.s0.wrapping_add(self.s3), 23).wrapping_add(self.s0);
        let t = self.s0 << 17u64;
        self.s2 = self.s2 ^ self.s0;
        self.s3 = self.s3 ^ self.s1;
        self.s1 = self.s1 ^ self.s2;
        self.s0 = self.s0 ^ self.s3;
        self.s2 = self.s2 ^ t;
        self.s3 = rotl(self.s3, 45);
        result
    }

    fn seed(&mut self) -> (r: Result<(), SeedError>) {
        let s0 = get_seed()?;
        let s1 = get_seed()?;
        let s2 = get_seed()?;
        let s3 = get_seed()?;
        *self = Self::from_seed_words(s0, s1, s2, s3);
        proof {
            lemma_or_one_odd(s0);
            lemma_or_one_odd(s1);
            lemma_or_one_odd(s2);
            lemma_or_one_odd(s3);
        }
        Ok(())
    }
}

/// Mwc256XXA64: multiply-with-carry over three 64-bit lags and a carry word.
#[derive(Debug, Clone, Copy, PartialEq, Eq, Structural)]
pub struct Mwc256XXA64 {
    pub x1: u64,
    pub x2: u64,
    pub x3: u64,
    pub c: u64,
}

/// The full 128-bit product of the oldest lag and the multiplier.
pub open spec fn mwc_product(x3: u64) -> u128 {
    (x3 as int * 0xDEB344657C0AF413int) as u128
}

impl Mwc256XXA64 {
    /// The state made from raw entropy words in drawing order, each forced odd.
    pub fn from_seed_words(x1: u64, x2: u64, x3: u64, c: u64) -> (r: Self)
        ensures
            r.x1 == x1 | 1,
            r.x2 == x2 | 1,
            r.x3 == x3 | 1,
            r.c == c | 1,
    {
        Mwc256XXA64 { x1: x1 | 1, x2: x2 | 1, x3: x3 | 1, c: c | 1 }
    }
}

impl Random for Mwc256XXA64 {
    open spec fn next_state(self) -> Self {
        let t = mwc_product(self.x3);
        let low = t as u64;
        let high = (t >> 64u128) as u64;
        let carry: u64 = if low as int + self.c as int > u64::MAX { 1 } else { 0 };
        Mwc256XXA64 {
            x1: low.wrapping_add(self.c),
            x2: self.x1,
            x3: self.x2,
            c: high.wrapping_add(carry),
        }
    }

    open spec fn next_output(self) -> u64 {
        let high = (mwc_product(self.x3) >> 64u128) as u64;
        (self.x3 ^ self.x2).wrapping_add(self.x1 ^ high)
    }

    open spec fn odd_words_odd(self) -> bool {
        true
    }

    open spec fn seeded_form(self) -> bool {
        self.x1 % 2 == 1 && self.x2 % 2 == 1 && self.x3 % 2 == 1 && self.c % 2 == 1
    }

    open spec fn is_placeholder(self) -> bool {
        self.x1 == 3 && self.x2 == 3 && self.x3 == 3 && self.c == 3
    }

    proof fn lemma_next_keeps_odd_words(self) {
    }

    fn placeholder() -> (r: Self) {
        let r = Mwc256XXA64 { x1: 3, x2: 3, x3: 3, c: 3 };
        assert(r.is_placeholder());
        r
    }

    fn u64(&mut self) -> (r: u64) {
        let x3 = self.x3;
        assert(x3 as int * 0xDEB344657C0AF413int <= 0xffff_ffff_ffff_ffffint * 0xDEB344657C0AF413int) by (nonlinear_arith)
            requires
                x3 <= 0xffff_ffff_ffff_ffffu64,
        ;
        let t: u128 = x3 as u128 * 0xDEB344657C0AF413u128;
        let low = t as u64;
        let high = (t >> 64u128) as u64;
        let result = (self.x3 ^ self.x2).wrapping_add(self.x1 ^ high);
        let x1 = low.wrapping_add(self.c);
        let carry: u64 = if x1 < low { 1 } else { 0 };
        self.x3 = self.x2;
        self.x2 = self.x1;
        self.x1 = x1;
        self.c = high.wrapping_add(carry);
        result
    }

    fn seed(&mut self) -> (r: Result<(), SeedError>) {
        let x1 = get_seed()?;
        let x2 = get_seed()?;
        let x3 = get_seed()?;
        let c = get_seed()?;
        *self = Self::from_seed_words(x1, x2, x3, c);
        proof {
            lemma_or_one_odd(x1);
            lemma_or_one_odd(x2);
            lemma_or_one_odd(x3);
            lemma_or_one_odd(c);
        }
        Ok(())
    }
}

/// Splitmix64's output mix loses nothing: distinct words mix to distinct outputs.
pub proof fn lemma_splitmix64_mix_injective(a: u64, b: u64)
    requires
        splitmix64_mix(a) == splitmix64_mix(b),
    ensures
        a == b,
{
    let a1 = (a ^ (a >> 30u64)).wrapping_mul(0xBF58476D1CE4E5B9);
    let b1 = (b ^ (b >> 30u64)).wrapping_mul(0xBF58476D1CE4E5B9);
    let a2 = (a1 ^ (a1 >> 27u64)).wrapping_mul(0x94D049BB133111EB);
    let b2 = (b1 ^ (b1 >> 27u64)).wrapping_mul(0x94D049BB133111EB);
    lemma_xorshift_cancels(a2, b2, 31);
    assert((0x94D049BB133111EBint * 0x319642B2D24D8EC3int) % 0x1_0000_0000_0000_0000int == 1);
    lemma_wrapping_mul_cancels(0x94D049BB133111EB, 0x319642B2D24D8EC3, a1 ^ (a1 >> 27u64), b1 ^ (b1 >> 27u64));
    lemma_xorshift_cancels(a1, b1, 27);
    assert((0xBF58476D1CE4E5B9int * 0x96DE1B173F119089int) % 0x1_0000_0000_0000_0000int == 1);
    lemma_wrapping_mul_cancels(0xBF58476D1CE4E5B9, 0x96DE1B173F119089, a ^ (a >> 30u64), b ^ (b >> 30u64));
    lemma_xorshift_cancels(a, b, 30);
}

/// Two Splitmix64 generators in different states differ at their first output.
pub proof fn lemma_splitmix64_distinct_states_distinct_streams(g1: Splitmix64, g2: Splitmix64)
    requires
        g1 != g2,
    ensures
        outputs(g1, 1) != outputs(g2, 1),
{
    if outputs(g1, 1) == outputs(g2, 1) {
        assert(outputs(g1, 1)[0] == outputs(g2, 1)[0]);
        assert(nth_output(g1, 0) == g1.next_output());
        assert(nth_output(g2, 0) == g2.next_output());
        lemma_splitmix64_mix_injective(g1.state, g2.state);
    }
}

/// The inverse of the Romu multiplier modulo 2^64.
proof fn lemma_romu_mul_invertible()
    ensures
        (ROMU_MUL as int * 0x43D68ED20CD1FA63int) % 0x1_0000_0000_0000_0000int == 1,
{
    assert((15241094284759029579int * 0x43D68ED20CD1FA63int) % 0x1_0000_0000_0000_0000int == 1);
}

/// Two RomuJr generators in different states differ within their first two outputs.
pub proof fn lemma_romu_jr_distinct_states_distinct_streams(g1: RomuJr, g2: RomuJr)
    requires
        g1 != g2,
    ensures
        outputs(g1, 2) != outputs(g2, 2),
{
    if outputs(g1, 2) == outputs(g2, 2) {
        reveal_with_fuel(advance, 2);
        assert(outputs(g1, 2)[0] == outputs(g2, 2)[0]);
        assert(outputs(g1, 2)[1] == outputs(g2, 2)[1]);
        assert(nth_output(g1, 1) == g1.next_state().next_output());
        assert(nth_output(g2, 1) == g2.next_state().next_output());
        lemma_romu_mul_invertible();
        lemma_wrapping_mul_cancels(ROMU_MUL, 0x43D68ED20CD1FA63, g1.y, g2.y);
    }
}

/// Two RomuTrio generators in different states differ within their first three outputs.
pub proof fn lemma_romu_trio_distinct_states_distinct_streams(g1: RomuTrio, g2: RomuTrio)
    requires
        g1 != g2,
    ensures
        outputs(g1, 3) != outputs(g2, 3),
{
    if outputs(g1, 3) == outputs(g2, 3) {
        reveal_with_fuel(advance, 3);
        assert(outputs(g1, 3)[0] == outputs(g2, 3)[0]);
        assert(outputs(g1, 3)[1] == outputs(g2, 3)[1]);
        assert(outputs(g1, 3)[2] == outputs(g2, 3)[2]);
        assert(nth_output(g1, 1) == g1.next_state().next_output());
        assert(nth_output(g2, 1) == g2.next_state().next_output());
        assert(nth_output(g1, 2) == g1.next_state().next_state().next_output());
        assert(nth_output(g2, 2) == g2.next_state().next_state().next_output());
        lemma_romu_mul_invertible();
        lemma_wrapping_mul_cancels(ROMU_MUL, 0x43D68ED20CD1FA63, g1.z, g2.z);
        lemma_wrapping_mul_cancels(ROMU_MUL, 0x43D68ED20CD1FA63, g1.next_state().z, g2.next_state().z);
        lemma_rotl_cancels(g1.z.wrapping_sub(g1.y), g2.z.wrapping_sub(g2.y), 44);
    }
}

} // verus!
