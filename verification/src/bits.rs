//! Ordering of IEEE 754 double bit patterns.
//!
//! The engine stores every floating-point quantity as its raw bit pattern
//! (`u64`).  Comparisons between such quantities go through [`fkey`], the
//! standard total-order key for doubles: flip all bits of a negative value,
//! flip only the sign bit of a non-negative one.  On bit patterns of ordinary
//! (non-NaN) doubles, unsigned comparison of the keys agrees with the
//! floating-point order; the key is injective on all bit patterns.

use vstd::prelude::*;

verus! {

/// The most significant bit of a 64-bit word: the sign bit of a double.
pub const SIGN_BIT: u64 = 0x8000_0000_0000_0000;

/// Total-order key of a double bit pattern: negative values (sign bit set)
/// have all bits flipped, non-negative values only the sign bit, so that
/// unsigned comparison of keys matches the floating-point order.
pub open spec fn spec_fkey(bits: u64) -> u64 {
    if bits & SIGN_BIT == SIGN_BIT {
        !bits
    } else {
        bits | SIGN_BIT
    }
}

/// Executable form of [`spec_fkey`].
pub fn fkey(bits: u64) -> (key: u64)
    ensures
        key == spec_fkey(bits),
{
    if bits & SIGN_BIT == SIGN_BIT {
        !bits
    } else {
        bits | SIGN_BIT
    }
}

/// The key mapping is injective: distinct bit patterns get distinct keys, so
/// comparing keys never conflates two different stored values.
pub proof fn lemma_fkey_injective(a: u64, b: u64)
    requires
        spec_fkey(a) == spec_fkey(b),
    ensures
        a == b,
{
    assert((if a & SIGN_BIT == SIGN_BIT {
        !a
    } else {
        a | SIGN_BIT
    }) == (if b & SIGN_BIT == SIGN_BIT {
        !b
    } else {
        b | SIGN_BIT
    }) ==> a == b) by (bit_vector);
}

/// The bit pattern of the double `0.0` is the zero word; its key has only the
/// sign bit set.  The engine uses the zero word as the all-zero mass fallback.
pub proof fn lemma_fkey_zero()
    ensures
        spec_fkey(0) == SIGN_BIT,
{
    assert(0u64 & 0x8000_0000_0000_0000 != 0x8000_0000_0000_0000) by (bit_vector);
    assert((0u64 | 0x8000_0000_0000_0000) == 0x8000_0000_0000_0000) by (bit_vector);
}

} // verus!
