//! Prices as IEEE-754 double-precision values, modelled by their bit
//! patterns.
//!
//! A price is carried as the raw 64 bits of a double. Everything the
//! candle logic asks of a price — is it finite, and how does it compare
//! to another price — is a pure function of those bits, so it can be
//! implemented and specified exactly over `u64`:
//!
//! * a value is a NaN iff its magnitude (the 63 low bits) exceeds the
//!   magnitude of infinity, and finite iff it is below it;
//! * comparisons between non-NaN values follow a sign-magnitude order,
//!   under which the two zeroes are equal and any comparison with a NaN
//!   is false.

use vstd::prelude::*;

verus! {

/// Mask selecting the magnitude of a bit pattern: everything but the sign.
pub const MAGNITUDE_MASK: u64 = 0x7FFF_FFFF_FFFF_FFFF;

/// Magnitude of the bit pattern of positive infinity: exponent bits all
/// set, fraction zero. A larger magnitude is a NaN, a smaller one is
/// finite.
pub const INFINITY_MAGNITUDE: u64 = 0x7FF0_0000_0000_0000;

/// The sign bit.
pub const SIGN_BIT: u64 = 0x8000_0000_0000_0000;

/// The magnitude of a bit pattern: its exponent and fraction bits.
pub open spec fn magnitude(bits: u64) -> u64 {
    bits & MAGNITUDE_MASK
}

/// Whether the sign bit of a pattern is set.
pub open spec fn sign_negative(bits: u64) -> bool {
    bits >= SIGN_BIT
}

/// Whether a bit pattern denotes a NaN.
pub open spec fn nan_bits(bits: u64) -> bool {
    magnitude(bits) > INFINITY_MAGNITUDE
}

/// Whether a bit pattern denotes a finite value (neither NaN nor an
/// infinity).
pub open spec fn finite_bits(bits: u64) -> bool {
    magnitude(bits) < INFINITY_MAGNITUDE
}

/// The position of a non-NaN pattern in the order of doubles: its
/// magnitude, negated when the sign bit is set. Both zeroes map to 0;
/// the infinities map to the extremes. Double comparison of non-NaN
/// values is exactly comparison of these keys.
pub open spec fn order_key(bits: u64) -> int {
    if sign_negative(bits) {
        -(magnitude(bits) as int)
    } else {
        magnitude(bits) as int
    }
}

/// Strict `<` on doubles given by their bit patterns: false whenever
/// either side is a NaN, otherwise the order of the keys.
pub open spec fn lt_bits(a: u64, b: u64) -> bool {
    &&& !nan_bits(a)
    &&& !nan_bits(b)
    &&& order_key(a) < order_key(b)
}

/// A double-precision price, held as its raw bit pattern
/// (`f64::to_bits` / `f64::from_bits`).
///
/// Note that the derived `==` compares bit patterns, not doubles: it
/// tells the two zeroes apart and does not treat NaN as unequal to
/// itself. The float comparison is [`Price::lt`].
#[derive(Clone, Copy, Debug, PartialEq, Eq, Structural)]
pub struct Price {
    pub bits: u64,
}

impl Price {
    /// Wraps a bit pattern as a price.
    pub fn from_bits(bits: u64) -> (p: Price)
        ensures
            p.bits == bits,
    {
        Price { bits }
    }

    /// Whether the price is a finite double.
    pub fn is_finite(&self) -> (r: bool)
        ensures
            r == finite_bits(self.bits),
    {
        self.bits & MAGNITUDE_MASK < INFINITY_MAGNITUDE
    }

    /// Whether the price is a NaN.
    pub fn is_nan(&self) -> (r: bool)
        ensures
            r == nan_bits(self.bits),
    {
        self.bits & MAGNITUDE_MASK > INFINITY_MAGNITUDE
    }

    /// Strict `<` with double semantics: false whenever either side is
    /// a NaN; the two zeroes are equal.
    pub fn lt(&self, other: &Price) -> (r: bool)
        ensures
            r == lt_bits(self.bits, other.bits),
    {
        if self.is_nan() || other.is_nan() {
            false
        } else {
            let neg_a = self.bits >= SIGN_BIT;
            let neg_b = other.bits >= SIGN_BIT;
            let mag_a = self.bits & MAGNITUDE_MASK;
            let mag_b = other.bits & MAGNITUDE_MASK;
            if neg_a && neg_b {
                mag_b < mag_a
            } else if neg_a {
                mag_a != 0 || mag_b != 0
            } else if neg_b {
                false
            } else {
                mag_a < mag_b
            }
        }
    }
}

} // verus!
