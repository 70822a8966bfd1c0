//! The contract shared by every generator family.
use vstd::prelude::*;
use crate::entropy::SeedError;

verus! {

/// A generator: a small state that yields one 64-bit output per advance.
pub trait Random: Sized {
    /// The state after one advance.
    spec fn next_state(self) -> Self;

    /// The output produced by one advance from this state.
    spec fn next_output(self) -> u64;

    /// Every state word that the family requires to be odd is odd.
    spec fn odd_words_odd(self) -> bool;

    /// Every word that seeding forces odd is odd: the form of any state
    /// that seeding produces.
    spec fn seeded_form(self) -> bool;

    /// Every word holds the placeholder constant.
    spec fn is_placeholder(self) -> bool;

    /// Advancing never breaks the family's oddness requirement.
    proof fn lemma_next_keeps_odd_words(self)
        requires
            self.odd_words_odd(),
        ensures
            self.next_state().odd_words_odd(),
    ;

    /// Advances the state and returns the next output.
    fn u64(&mut self) -> (r: u64)
        ensures
            r == old(self).next_output(),
            *final(self) == old(self).next_state(),
    ;

    /// A generator in its placeholder state: every word set to a non-zero
    /// constant, to be seeded before any output is drawn.
    fn placeholder() -> (r: Self)
        ensures
            r.is_placeholder(),
    ;

    /// A generator built in its placeholder state and then seeded.
    fn new() -> (r: Result<Self, SeedError>)
        ensures
            r matches Ok(g) ==> g.seeded_form() && g.odd_words_odd(),
    {
        let mut g = Self::placeholder();
        match g.seed() {
            Ok(()) => Ok(g),
            Err(e) => Err(e),
        }
    }

    /// Replaces the state by fresh entropy; on failure the state is untouched.
    fn seed(&mut self) -> (r: Result<(), SeedError>)
        ensures
            r is Ok ==> final(self).seeded_form() && final(self).odd_words_odd(),
            r is Err ==> *final(self) == *old(self),
    ;
}

/// Filling a byte buffer from a generator's outputs.
pub trait FillBytes: Random {
    /// Fills `slice` from successive outputs, with the given byte order for
    /// whole 8-byte chunks; each trailing byte takes the low byte of one more output.
    fn fill_bytes_ordered(&mut self, slice: &mut [u8], little_endian: bool)
        ensures
            final(slice)@ == fill_image(*old(self), old(slice)@.len(), little_endian),
            *final(self) == advance(*old(self), fill_advances(old(slice)@.len())),
    {
        let ghost g0 = *self;
        let len = slice.len();
        let chunks = len / 8;
        let mut j: usize = 0;
        while j < chunks
            invariant
                len == old(slice)@.len(),
                slice@.len() == len,
                chunks == len / 8,
                j <= chunks,
                *self == advance(g0, j as nat),
                forall|i: int| 0 <= i < 8 * j ==> slice@[i] == fill_byte(g0, len as nat, little_endian, i),
            decreases chunks - j,
        {
            let x = self.u64();
            let base = 8 * j;
            let mut k: usize = 0;
            while k < 8
                invariant
                    slice@.len() == len,
                    chunks == len / 8,
                    j < chunks,
                    base == 8 * j,
                    k <= 8,
                    x == nth_output(g0, j as nat),
                    forall|i: int| 0 <= i < 8 * j ==> slice@[i] == fill_byte(g0, len as nat, little_endian, i),
                    forall|i: int| 8 * j <= i < 8 * j + k ==> slice@[i] == ne_byte(x, i - 8 * j, little_endian),
                decreases 8 - k,
            {
                let shift: u64 = if little_endian { 8 * k as u64 } else { 8 * (7 - k as u64) };
                slice[base + k] = ((x >> shift) & 0xff) as u8;
                k = k + 1;
            }
            assert forall|i: int| 0 <= i < 8 * (j + 1) implies slice@[i] == fill_byte(g0, len as nat, little_endian, i) by {
                if i >= 8 * j {
                    assert(i / 8 == j as int);
                    assert(i % 8 == i - 8 * j);
                }
            }
            j = j + 1;
        }
        let rest = len % 8;
        let mut t: usize = 0;
        while t < rest
            invariant
                len == old(slice)@.len(),
                slice@.len() == len,
                chunks == len / 8,
                rest == len % 8,
                8 * chunks + rest == len,
                t <= rest,
                *self == advance(g0, (chunks + t) as nat),
                forall|i: int| 0 <= i < 8 * chunks + t ==> slice@[i] == fill_byte(g0, len as nat, little_endian, i),
            decreases rest - t,
        {
            let x = self.u64();
            slice[8 * chunks + t] = x as u8;
            t = t + 1;
        }
        assert(slice@ =~= fill_image(g0, len as nat, little_endian));
    }

    /// Fills `slice` from successive outputs in the host's native byte order.
    fn fill_bytes(&mut self, slice: &mut [u8])
        ensures
            final(slice)@ == fill_image(*old(self), old(slice)@.len(), true)
                || final(slice)@ == fill_image(*old(self), old(slice)@.len(), false),
            *final(self) == advance(*old(self), fill_advances(old(slice)@.len())),
    {
        let little_endian = host_is_little_endian();
        self.fill_bytes_ordered(slice, little_endian);
    }
}

impl<G: Random> FillBytes for G {
}

/// The state after `n` advances.
pub open spec fn advance<G: Random>(g: G, n: nat) -> G
    decreases n,
{
    if n == 0 {
        g
    } else {
        advance(g, (n - 1) as nat).next_state()
    }
}

/// The output of the advance numbered `n` (from zero).
pub open spec fn nth_output<G: Random>(g: G, n: nat) -> u64 {
    advance(g, n).next_output()
}

/// The first `n` outputs.
pub open spec fn outputs<G: Random>(g: G, n: nat) -> Seq<u64> {
    Seq::new(n, |i: int| nth_output(g, i as nat))
}

/// Byte `k` (0 to 7) of the 8-byte encoding of `x` in the given order.
pub open spec fn ne_byte(x: u64, k: int, little_endian: bool) -> u8 {
    let shift = if little_endian { 8 * k } else { 8 * (7 - k) };
    ((x >> (shift as u64)) & 0xff) as u8
}

/// How many advances a fill of `len` bytes makes: one per whole chunk and
/// one per trailing byte.
pub open spec fn fill_advances(len: nat) -> nat {
    len / 8 + len % 8
}

/// Byte `i` of a fill of `len` bytes from state `g`.
pub open spec fn fill_byte<G: Random>(g: G, len: nat, little_endian: bool, i: int) -> u8 {
    let chunks = len / 8;
    if i < 8 * chunks {
        ne_byte(nth_output(g, (i / 8) as nat), i % 8, little_endian)
    } else {
        nth_output(g, (chunks + (i - 8 * chunks)) as nat) as u8
    }
}

/// The bytes a fill of `len` bytes from state `g` writes.
pub open spec fn fill_image<G: Random>(g: G, len: nat, little_endian: bool) -> Seq<u8> {
    Seq::new(len, |i: int| fill_byte(g, len, little_endian, i))
}

/// Relies on u64::to_ne_bytes: the memory representation of `x`, which is its
/// little-endian or its big-endian encoding.
#[verifier::external_body]
fn ne_bytes(x: u64) -> (r: [u8; 8])
    ensures
        (forall|k: int| 0 <= k < 8 ==> r@[k] == ne_byte(x, k, true))
            || (forall|k: int| 0 <= k < 8 ==> r@[k] == ne_byte(x, k, false)),
{
    x.to_ne_bytes()
}

/// Whether the host stores integers least significant byte first.
pub fn host_is_little_endian() -> (r: bool) {
    let probe = ne_bytes(1);
    probe[0] == 1
}

/// Two generators in the same state produce the same outputs and reach the
/// same state, however many advances are made.
pub proof fn lemma_outputs_determined_by_state<G: Random>(a: G, b: G, n: nat)
    requires
        a == b,
    ensures
        outputs(a, n) == outputs(b, n),
        advance(a, n) == advance(b, n),
{
}

/// A state whose odd words are odd keeps them odd after any number of advances.
pub proof fn lemma_odd_words_stay_odd<G: Random>(g: G, n: nat)
    requires
        g.odd_words_odd(),
    ensures
        advance(g, n).odd_words_odd(),
    decreases n,
{
    if n > 0 {
        lemma_odd_words_stay_odd(g, (n - 1) as nat);
        advance(g, (n - 1) as nat).lemma_next_keeps_odd_words();
    }
}

/// A fill of `len` bytes writes exactly `len` bytes, and its first
/// `8 * (len / 8)` bytes are the encodings of the first `len / 8` outputs,
/// one after another.
pub proof fn lemma_fill_chunks_are_outputs<G: Random>(g: G, len: nat, little_endian: bool)
    ensures
        fill_image(g, len, little_endian).len() == len,
        forall|j: int, k: int|
            0 <= j < len / 8 && 0 <= k < 8 ==> #[trigger] fill_image(g, len, little_endian)[8 * j + k]
                == ne_byte(outputs(g, len / 8)[j], k, little_endian),
{
    assert forall|j: int, k: int|
        0 <= j < len / 8 && 0 <= k < 8 implies #[trigger] fill_image(g, len, little_endian)[8 * j + k]
            == ne_byte(outputs(g, len / 8)[j], k, little_endian) by {
        assert((8 * j + k) / 8 == j);
        assert((8 * j + k) % 8 == k);
    }
}

} // verus!
