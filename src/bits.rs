//! Rotations and parity facts shared by the generator families.
use vstd::prelude::*;
use vstd::arithmetic::div_mod::{lemma_mod_mod, lemma_mul_mod_noop, lemma_mul_mod_noop_left};

verus! {

/// `x` rotated left by `k` bits, for `0 < k < 64`.
pub open spec fn rotl64(x: u64, k: u64) -> u64 {
    (x << k) | (x >> ((64 - k) as u64))
}

/// `x` rotated right by `r` bits, for `r < 64`.
pub open spec fn rotr64(x: u64, r: u64) -> u64 {
    if r == 0 {
        x
    } else {
        (x >> r) | (x << ((64 - r) as u64))
    }
}

pub fn rotl(x: u64, k: u64) -> (r: u64)
    requires
        0 < k < 64,
    ensures
        r == rotl64(x, k),
{
    (x << k) | (x >> (64 - k))
}

pub fn rotr(x: u64, r: u64) -> (out: u64)
    requires
        r < 64,
    ensures
        out == rotr64(x, r),
{
    if r == 0 {
        x
    } else {
        (x >> r) | (x << (64 - r))
    }
}

/// Setting the lowest bit makes a word odd.
pub proof fn lemma_or_one_odd(w: u64)
    ensures
        (w | 1) % 2 == 1,
{
    assert((w | 1u64) % 2 == 1) by (bit_vector);
}

/// The product of two odd 128-bit words, taken modulo 2^128, is odd.
pub proof fn lemma_odd_times_odd_u128(s: u128, m: u128)
    requires
        s % 2 == 1,
        m % 2 == 1,
    ensures
        s.wrapping_mul(m) % 2 == 1,
{
    let p = s as int * m as int;
    lemma_mul_mod_noop(s as int, m as int, 2);
    lemma_mod_mod(p, 2, 0x8000_0000_0000_0000_0000_0000_0000_0000int);
    assert(2 * 0x8000_0000_0000_0000_0000_0000_0000_0000int == 0x1_0000_0000_0000_0000_0000_0000_0000_0000int);
}

/// Multiplying modulo 2^64 by a word that has an inverse `c_inv` loses
/// nothing: equal products come from equal factors.
pub proof fn lemma_wrapping_mul_cancels(c: u64, c_inv: u64, y1: u64, y2: u64)
    requires
        (c as int * c_inv as int) % 0x1_0000_0000_0000_0000int == 1,
        c.wrapping_mul(y1) == c.wrapping_mul(y2),
    ensures
        y1 == y2,
{
    lemma_wrapping_mul_undone(c, c_inv, y1);
    lemma_wrapping_mul_undone(c, c_inv, y2);
}

/// `y` is recovered from `c * y` (modulo 2^64) by multiplying by `c_inv`.
proof fn lemma_wrapping_mul_undone(c: u64, c_inv: u64, y: u64)
    requires
        (c as int * c_inv as int) % 0x1_0000_0000_0000_0000int == 1,
    ensures
        (c.wrapping_mul(y) as int * c_inv as int) % 0x1_0000_0000_0000_0000int == y as int,
{
    let m = 0x1_0000_0000_0000_0000int;
    let cy = c as int * y as int;
    assert(c.wrapping_mul(y) as int == cy % m);
    lemma_mul_mod_noop_left(cy, c_inv as int, m);
    assert(cy * c_inv as int == y as int * (c as int * c_inv as int)) by (nonlinear_arith)
        requires
            cy == c as int * y as int,
    ;
    lemma_mul_mod_noop(y as int, c as int * c_inv as int, m);
    assert((y as int) % m == y as int);
}

/// A rotation loses nothing: equal rotations come from equal words.
pub proof fn lemma_rotl_cancels(x1: u64, x2: u64, k: u64)
    requires
        0 < k < 64,
        rotl64(x1, k) == rotl64(x2, k),
    ensures
        x1 == x2,
{
    assert(x1 == x2) by (bit_vector)
        requires
            0 < k < 64,
            (x1 << k) | (x1 >> ((64 - k) as u64)) == (x2 << k) | (x2 >> ((64 - k) as u64)),
    ;
}

/// An xor with a right shift of itself loses nothing.
pub proof fn lemma_xorshift_cancels(x1: u64, x2: u64, k: u64)
    requires
        0 < k < 64,
        x1 ^ (x1 >> k) == x2 ^ (x2 >> k),
    ensures
        x1 == x2,
{
    assert(x1 == x2) by (bit_vector)
        requires
            0 < k < 64,
            x1 ^ (x1 >> k) == x2 ^ (x2 >> k),
    ;
}

} // verus!
