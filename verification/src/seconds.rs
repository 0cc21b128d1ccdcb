//! Time and scalar values held as IEEE-754 bit patterns.
//!
//! A [`Seconds`] is the bit pattern of a binary64 number of seconds, a
//! [`Scalar`] the bit pattern of a binary32 value (opacity, volume, scale).
//! This module orders binary64 patterns exactly as IEEE-754 compares the
//! numbers they encode: NaN is unordered, `-0` equals `+0`, and otherwise the
//! order follows the sign and the magnitude bits.

use vstd::prelude::*;

verus! {

/// The sign bit of a binary64 pattern.
pub const SIGN_BIT: u64 = 0x8000_0000_0000_0000;

/// The pattern of positive infinity; magnitudes above it are NaN.
pub const INFINITY_BITS: u64 = 0x7FF0_0000_0000_0000;

/// The pattern of negative infinity.
pub const NEG_INFINITY_BITS: u64 = 0xFFF0_0000_0000_0000;

/// Magnitude bits of a binary64 pattern (the pattern without its sign bit).
pub open spec fn magnitude(bits: u64) -> int {
    if bits >= SIGN_BIT {
        bits - SIGN_BIT
    } else {
        bits as int
    }
}

/// Whether a binary64 pattern encodes NaN.
pub open spec fn nan_bits(bits: u64) -> bool {
    magnitude(bits) > INFINITY_BITS
}

/// An integer that orders non-NaN binary64 patterns as the numbers they
/// encode; both zeros map to 0.
pub open spec fn order_key(bits: u64) -> int {
    if bits >= SIGN_BIT {
        -magnitude(bits)
    } else {
        magnitude(bits)
    }
}

/// A number of seconds, held as the bit pattern of a binary64 value.
#[derive(Clone, Copy, Debug, PartialEq, Eq, Structural)]
pub struct Seconds {
    pub bits: u64,
}

/// A binary32 value (opacity, volume, scale factor, pivot coordinate),
/// held as its bit pattern.
#[derive(Clone, Copy, Debug, PartialEq, Eq, Structural)]
pub struct Scalar {
    pub bits: u32,
}

impl Seconds {
    /// Whether the value is NaN.
    pub open spec fn nan(self) -> bool {
        nan_bits(self.bits)
    }

    /// IEEE `self <= other`: false when either side is NaN.
    pub open spec fn at_most(self, other: Seconds) -> bool {
        !self.nan() && !other.nan() && order_key(self.bits) <= order_key(other.bits)
    }

    /// IEEE `self < other`: false when either side is NaN.
    pub open spec fn below(self, other: Seconds) -> bool {
        !self.nan() && !other.nan() && order_key(self.bits) < order_key(other.bits)
    }

    /// The smaller of two values, the other one where one is NaN; of two
    /// equal values (such as the two zeros), `self`.
    pub open spec fn min_of(self, other: Seconds) -> Seconds {
        if self.nan() {
            other
        } else if other.nan() {
            self
        } else if other.below(self) {
            other
        } else {
            self
        }
    }

    /// The larger of two values, the other one where one is NaN; of two
    /// equal values, `self`.
    pub open spec fn max_of(self, other: Seconds) -> Seconds {
        if self.nan() {
            other
        } else if other.nan() {
            self
        } else if self.below(other) {
            other
        } else {
            self
        }
    }

    /// `self` limited to `[lo, hi]`; a NaN `self` stays as it is.
    pub open spec fn clamped(self, lo: Seconds, hi: Seconds) -> Seconds {
        if self.below(lo) {
            lo
        } else if hi.below(self) {
            hi
        } else {
            self
        }
    }

    /// Wraps a binary64 bit pattern.
    pub fn from_bits(bits: u64) -> (r: Seconds)
        ensures
            r.bits == bits,
    {
        Seconds { bits }
    }

    /// Positive zero.
    pub fn zero() -> (r: Seconds)
        ensures
            r.bits == 0,
    {
        Seconds { bits: 0 }
    }

    /// Positive infinity.
    pub fn infinity() -> (r: Seconds)
        ensures
            r.bits == INFINITY_BITS,
    {
        Seconds { bits: INFINITY_BITS }
    }

    /// Negative infinity.
    pub fn neg_infinity() -> (r: Seconds)
        ensures
            r.bits == NEG_INFINITY_BITS,
    {
        Seconds { bits: NEG_INFINITY_BITS }
    }

    /// Whether the value is NaN.
    pub fn is_nan(&self) -> (r: bool)
        ensures
            r == self.nan(),
    {
        let m: u64 = if self.bits >= SIGN_BIT {
            self.bits - SIGN_BIT
        } else {
            self.bits
        };
        m > INFINITY_BITS
    }

    /// IEEE `self <= other`.
    pub fn le(&self, other: &Seconds) -> (r: bool)
        ensures
            r == self.at_most(*other),
    {
        if self.is_nan() || other.is_nan() {
            return false;
        }
        let a: u64 = self.bits;
        let b: u64 = other.bits;
        if a < SIGN_BIT && b < SIGN_BIT {
            a <= b
        } else if a >= SIGN_BIT && b >= SIGN_BIT {
            b - SIGN_BIT <= a - SIGN_BIT
        } else if a >= SIGN_BIT {
            true
        } else {
            a == 0 && b == SIGN_BIT
        }
    }

    /// IEEE `self < other`.
    pub fn lt(&self, other: &Seconds) -> (r: bool)
        ensures
            r == self.below(*other),
    {
        if self.is_nan() || other.is_nan() {
            return false;
        }
        let a: u64 = self.bits;
        let b: u64 = other.bits;
        if a < SIGN_BIT && b < SIGN_BIT {
            a < b
        } else if a >= SIGN_BIT && b >= SIGN_BIT {
            b - SIGN_BIT < a - SIGN_BIT
        } else if a >= SIGN_BIT {
            !(a == SIGN_BIT && b == 0)
        } else {
            false
        }
    }

    /// The smaller of two values (see [`Seconds::min_of`]).
    pub fn min(self, other: Seconds) -> (r: Seconds)
        ensures
            r == self.min_of(other),
    {
        if self.is_nan() {
            other
        } else if other.is_nan() {
            self
        } else if other.lt(&self) {
            other
        } else {
            self
        }
    }

    /// The larger of two values (see [`Seconds::max_of`]).
    pub fn max(self, other: Seconds) -> (r: Seconds)
        ensures
            r == self.max_of(other),
    {
        if self.is_nan() {
            other
        } else if other.is_nan() {
            self
        } else if self.lt(&other) {
            other
        } else {
            self
        }
    }

    /// `self` limited to `[lo, hi]`, as binary64 `clamp` does.
    pub fn clamp(self, lo: Seconds, hi: Seconds) -> (r: Seconds)
        requires
            lo.at_most(hi),
        ensures
            r == self.clamped(lo, hi),
    {
        if self.lt(&lo) {
            lo
        } else if hi.lt(&self) {
            hi
        } else {
            self
        }
    }
}

impl Scalar {
    /// Wraps a binary32 bit pattern.
    pub fn from_bits(bits: u32) -> (r: Scalar)
        ensures
            r.bits == bits,
    {
        Scalar { bits }
    }
}

/// Clamping a value that is not NaN to a range whose bounds are ordered
/// gives a value inside the range, and leaves a value already inside the
/// range as it is.
pub proof fn law_clamped_within(t: Seconds, lo: Seconds, hi: Seconds)
    requires
        lo.at_most(hi),
        !t.nan(),
    ensures
        lo.at_most(t.clamped(lo, hi)),
        t.clamped(lo, hi).at_most(hi),
        lo.at_most(t) && t.at_most(hi) ==> t.clamped(lo, hi) == t,
{
}

} // verus!
