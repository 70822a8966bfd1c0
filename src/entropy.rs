//! Drawing seed words from the operating system's entropy source.
use vstd::prelude::*;

verus! {

#[verifier::external_type_specification]
#[verifier::external_body]
pub struct ExGetrandomError(getrandom::Error);

/// The one failure of this library: the OS entropy source could not be read.
#[derive(Debug, Clone, Copy, PartialEq, Eq, Structural)]
pub enum SeedError {
    EntropyUnavailable,
}

/// Relies on getrandom::getrandom: fills an 8-byte buffer with OS entropy
/// (or reports an error), read as a native-endian `u64`. Nothing is promised
/// of the value.
#[verifier::external_body]
fn os_entropy_u64() -> (r: Result<u64, getrandom::Error>) {
    let mut buffer = [0u8; 8];
    getrandom::getrandom(&mut buffer).map(|()| u64::from_ne_bytes(buffer))
}

/// One fresh 64-bit word of OS entropy.
pub(crate) fn get_seed() -> (r: Result<u64, SeedError>) {
    match os_entropy_u64() {
        Ok(v) => Ok(v),
        Err(_) => Err(SeedError::EntropyUnavailable),
    }
}

/// The 128-bit word whose high half is `hi` and low half is `lo`.
pub open spec fn join128(hi: u64, lo: u64) -> u128 {
    (hi as int * 0x1_0000_0000_0000_0000int + lo as int) as u128
}

/// Builds `(hi << 64) + lo`.
pub fn compose128(hi: u64, lo: u64) -> (r: u128)
    ensures
        r == join128(hi, lo),
        r >> 64u128 == hi as u128,
        r as u64 == lo,
{
    let h: u128 = (hi as u128) << 64u128;
    assert(h == hi as int * 0x1_0000_0000_0000_0000int) by {
        assert((hi as u128) << 64u128 == (hi as u128) * 0x1_0000_0000_0000_0000u128) by (bit_vector)
            requires hi as u128 <= 0xffff_ffff_ffff_ffffu128;
    }
    let r = h + lo as u128;
    assert(r >> 64u128 == hi as u128 && r as u64 == lo) by (bit_vector)
        requires r == ((hi as u128) << 64u128) + lo as u128, hi as u128 <= 0xffff_ffff_ffff_ffffu128, lo as u128 <= 0xffff_ffff_ffff_ffffu128;
    r
}

} // verus!
