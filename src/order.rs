//! Order keys for binary32 scalars.
//!
//! A binary32 value is carried into the library as the unsigned integer
//! `order_key(value.to_bits())`. For every value that is not a NaN, keys
//! compare as the values do, except that `-0.0` sorts just below `+0.0`: the
//! key is the IEEE-754 total order written as an unsigned integer.

use vstd::prelude::*;

verus! {

/// Bit 31 of the pattern holds the sign.
pub const SIGN_BIT: u32 = 0x8000_0000;

/// The pattern carries a negative sign.
pub open spec fn sign_negative(bits: u32) -> bool {
    bits >= SIGN_BIT
}

/// Exponent and fraction of the pattern read together as one integer: for
/// values of one sign it grows with the magnitude of the value.
pub open spec fn magnitude(bits: u32) -> int {
    (bits % SIGN_BIT) as int
}

/// The key of a pattern: negative values below every non-negative one,
/// larger magnitudes further from the middle.
pub open spec fn key_of(bits: u32) -> int {
    if sign_negative(bits) {
        (SIGN_BIT - 1) - magnitude(bits)
    } else {
        SIGN_BIT + magnitude(bits)
    }
}

/// IEEE-754 total order on patterns: `a` stands strictly before `b`.
pub open spec fn precedes(a: u32, b: u32) -> bool {
    if sign_negative(a) != sign_negative(b) {
        sign_negative(a)
    } else if sign_negative(a) {
        magnitude(a) > magnitude(b)
    } else {
        magnitude(a) < magnitude(b)
    }
}

/// The order key of a binary32 bit pattern.
pub fn order_key(bits: u32) -> (k: u32)
    ensures
        k == key_of(bits),
{
    if bits >= SIGN_BIT {
        u32::MAX - bits
    } else {
        bits + SIGN_BIT
    }
}

/// Keys order patterns as the total order does, and distinct patterns get
/// distinct keys.
pub proof fn lemma_key_order(a: u32, b: u32)
    ensures
        key_of(a) < key_of(b) <==> precedes(a, b),
        key_of(a) == key_of(b) <==> a == b,
        0 <= key_of(a) <= u32::MAX,
{
}

} // verus!
