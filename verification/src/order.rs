//! Order keys for IEEE 754 binary64 bit patterns.
//!
//! A finite float is stored as a sign bit over a magnitude, and among values
//! of one sign a larger magnitude pattern is a larger magnitude. Flipping the
//! sign bit of a nonnegative pattern, and every bit of a negative one, gives an
//! unsigned key whose order is the order of the values (for patterns other
//! than NaN, and with the two zeros apart). The agents compare scores through
//! these keys.

use vstd::prelude::*;

verus! {

/// The sign bit of a binary64 pattern.
pub const SIGN_BIT: u64 = 0x8000_0000_0000_0000;

/// The key of a bit pattern: nonnegative patterns move above all negative
/// ones, and negative patterns are reversed.
pub open spec fn key_of(bits: u64) -> u64 {
    if bits < SIGN_BIT {
        (bits + SIGN_BIT) as u64
    } else {
        (u64::MAX - bits) as u64
    }
}

/// The order key of the binary64 pattern `bits`.
pub fn order_key(bits: u64) -> (k: u64)
    ensures
        k == key_of(bits),
{
    if bits < SIGN_BIT {
        bits + SIGN_BIT
    } else {
        u64::MAX - bits
    }
}

/// Distinct patterns have distinct keys.
pub proof fn lemma_key_injective(a: u64, b: u64)
    requires
        key_of(a) == key_of(b),
    ensures
        a == b,
{
}

/// Every pattern with the sign bit clear (a nonnegative value) has a greater
/// key than every pattern with it set (a negative value).
pub proof fn lemma_key_sign(nonneg: u64, neg: u64)
    requires
        nonneg < SIGN_BIT,
        neg >= SIGN_BIT,
    ensures
        key_of(neg) < key_of(nonneg),
{
}

/// Among patterns with the sign bit clear, keys follow the patterns; among
/// patterns with it set, keys follow the patterns in reverse.
pub proof fn lemma_key_within_sign(a: u64, b: u64)
    ensures
        a < SIGN_BIT && b < SIGN_BIT ==> (a < b <==> key_of(a) < key_of(b)),
        a >= SIGN_BIT && b >= SIGN_BIT ==> (a < b <==> key_of(b) < key_of(a)),
{
}

} // verus!
