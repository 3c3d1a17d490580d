//! Order keys of IEEE-754 double-precision numbers.
//!
//! The key of a number `x` that is not NaN is its bit pattern with the sign
//! bit flipped when `x` is positive, or with every bit flipped when `x` is
//! negative; `-0.0` takes the key of `+0.0`.  For two such numbers
//! `x < y` holds exactly when `key(x) < key(y)`, and `x == y` exactly when the
//! keys are equal.  A NaN has no key: where a value may be NaN the library
//! takes an `Option<u64>`, with `None` for NaN.
use vstd::prelude::*;

verus! {

/// The bit that separates keys of negative numbers (below it) from keys of
/// positive numbers (at or above it).
pub const SIGN_BIT: u64 = 0x8000_0000_0000_0000;

/// Key of `0.0`.
pub const ZERO_KEY: u64 = 0x8000_0000_0000_0000;

/// Key of `+∞`.
pub const INFINITY_KEY: u64 = 0xfff0_0000_0000_0000;

/// Key of the absolute value of the number whose key is `key`.
pub open spec fn spec_magnitude(key: u64) -> u64 {
    if key < SIGN_BIT {
        !key
    } else {
        key
    }
}

/// Key of the absolute value of the number whose key is `key`: negating a
/// negative number flips every bit of its key.
pub fn magnitude(key: u64) -> (m: u64)
    ensures
        m == spec_magnitude(key),
        m >= ZERO_KEY,
        key < SIGN_BIT ==> m == !key,
        key >= SIGN_BIT ==> m == key,
{
    assert(key < 0x8000_0000_0000_0000u64 ==> !key >= 0x8000_0000_0000_0000u64) by (bit_vector);
    if key < SIGN_BIT {
        !key
    } else {
        key
    }
}

/// Taking the magnitude twice changes nothing more, and the magnitude of a
/// non-negative key is the key itself.
pub proof fn lemma_magnitude_idempotent(key: u64)
    ensures
        spec_magnitude(spec_magnitude(key)) == spec_magnitude(key),
        key >= ZERO_KEY ==> spec_magnitude(key) == key,
{
    assert(key < 0x8000_0000_0000_0000u64 ==> !key >= 0x8000_0000_0000_0000u64) by (bit_vector);
}

/// A number and its negation (whose key is the bitwise complement of its
/// key) have the same magnitude.
pub proof fn lemma_magnitude_of_negation(key: u64)
    ensures
        spec_magnitude(!key) == spec_magnitude(key),
{
    assert(key < 0x8000_0000_0000_0000u64 ==> !key >= 0x8000_0000_0000_0000u64) by (bit_vector);
    assert(key >= 0x8000_0000_0000_0000u64 ==> !key < 0x8000_0000_0000_0000u64) by (bit_vector);
    assert(!(!key) == key) by (bit_vector);
}

/// The magnitude grows strictly with the absolute value: among negative
/// numbers the lower one has the greater magnitude, among non-negative
/// numbers the higher one.
pub proof fn lemma_magnitude_strictly_monotone(a: u64, b: u64)
    requires
        a < b,
    ensures
        b < SIGN_BIT ==> spec_magnitude(a) > spec_magnitude(b),
        a >= SIGN_BIT ==> spec_magnitude(a) < spec_magnitude(b),
{
    assert(a < b && b < 0x8000_0000_0000_0000u64 ==> !a > !b) by (bit_vector);
}

/// Only zero has the magnitude of zero: every other number, negative or
/// positive, is larger in absolute value.  (`SIGN_BIT - 1` is the key that
/// `-0.0` would have.)
pub proof fn lemma_magnitude_zero_only_at_zero(key: u64)
    ensures
        spec_magnitude(key) >= ZERO_KEY,
        spec_magnitude(key) == ZERO_KEY <==> (key == ZERO_KEY || key == SIGN_BIT - 1),
{
    assert(key < 0x8000_0000_0000_0000u64 ==> !key >= 0x8000_0000_0000_0000u64) by (bit_vector);
    assert(key < 0x8000_0000_0000_0000u64 ==> (!key == 0x8000_0000_0000_0000u64 <==> key
        == 0x7fff_ffff_ffff_ffffu64)) by (bit_vector);
}

} // verus!
