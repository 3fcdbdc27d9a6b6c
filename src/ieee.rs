//! IEEE-754 binary64 values seen through their bit patterns (`f64::to_bits`).
use vstd::prelude::*;

verus! {

/// Clears the sign bit of a bit pattern.
pub const MAGNITUDE_MASK: u64 = 0x7fff_ffff_ffff_ffff;

/// Bit pattern of positive infinity; every larger magnitude is a NaN.
pub const INFINITY: u64 = 0x7ff0_0000_0000_0000;

/// Smallest bit pattern whose sign bit is set.
pub const SIGN_BIT: u64 = 0x8000_0000_0000_0000;

/// The bit pattern of `|x|`: `f64::abs` clears the sign bit and keeps the rest.
pub open spec fn magnitude(b: u64) -> u64 {
    b & MAGNITUDE_MASK
}

pub open spec fn is_nan(b: u64) -> bool {
    magnitude(b) > INFINITY
}

pub open spec fn is_negative(b: u64) -> bool {
    b >= SIGN_BIT
}

/// IEEE-754 `a < b` on the doubles with bit patterns `a` and `b`: false
/// where either is a NaN, and false between the two zeros; otherwise a
/// negative value lies below a non-negative one, non-negative values order
/// as their magnitudes, negative values in the reverse order.
pub open spec fn less(a: u64, b: u64) -> bool {
    if is_nan(a) || is_nan(b) {
        false
    } else if magnitude(a) == 0 && magnitude(b) == 0 {
        false
    } else if is_negative(a) != is_negative(b) {
        is_negative(a)
    } else if is_negative(a) {
        magnitude(b) < magnitude(a)
    } else {
        magnitude(a) < magnitude(b)
    }
}

/// Between two positive finite doubles, `<` is the order of the bit patterns.
pub proof fn lemma_strictly_between(lo: u64, x: u64, hi: u64)
    requires
        0 < lo < hi < INFINITY,
    ensures
        (less(lo, x) && less(x, hi)) == (lo < x && x < hi),
{
    assert(lo & MAGNITUDE_MASK == lo) by (bit_vector)
        requires
            lo < 0x7ff0_0000_0000_0000u64,
    ;
    assert(hi & MAGNITUDE_MASK == hi) by (bit_vector)
        requires
            hi < 0x7ff0_0000_0000_0000u64,
    ;
    assert(x < SIGN_BIT ==> x & MAGNITUDE_MASK == x) by (bit_vector);
    assert(x >= SIGN_BIT ==> x & MAGNITUDE_MASK < SIGN_BIT) by (bit_vector);
}

} // verus!
