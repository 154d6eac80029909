//! Single-precision numbers as bit patterns.
//!
//! The engine speaks in 32-bit floating point. The library never computes
//! with such numbers; it only stores them and asks whether two of them are
//! the same number. Both are done on the IEEE 754 binary32 encoding: one sign
//! bit, eight exponent bits, twenty-three fraction bits.

use vstd::prelude::*;

verus! {

/// The encoding with the sign bit cleared, up to and including which every
/// pattern stands for a number or an infinity. Above it lie the NaNs.
pub const INFINITY_BITS: u32 = 0x7f80_0000;

/// The sign bit of the encoding.
pub const SIGN_BIT: u32 = 0x8000_0000;

/// A single-precision number, held as its IEEE 754 binary32 encoding.
///
/// The derived `==` compares encodings. It tells `0.0` from `-0.0` and finds
/// a NaN equal to itself; [`Scalar::same_number`] is the comparison that the
/// numbers themselves have.
#[derive(Clone, Copy, Debug, PartialEq, Eq, Structural)]
pub struct Scalar {
    pub bits: u32,
}

impl Scalar {
    /// The encoding without its sign bit.
    pub open spec fn magnitude(self) -> int {
        if self.bits >= SIGN_BIT {
            self.bits - SIGN_BIT
        } else {
            self.bits as int
        }
    }

    /// Whether the encoding is one of the NaNs: all exponent bits set and a
    /// fraction that is not zero.
    pub open spec fn nan(self) -> bool {
        self.magnitude() > INFINITY_BITS
    }

    /// Whether the encoding is one of the two zeros.
    pub open spec fn zero(self) -> bool {
        self.magnitude() == 0
    }

    /// Numeric equality as IEEE 754 defines it: a NaN equals nothing, the two
    /// zeros equal each other, and every other number has one encoding.
    pub open spec fn same(self, other: Scalar) -> bool {
        &&& !self.nan()
        &&& !other.nan()
        &&& (self.bits == other.bits || (self.zero() && other.zero()))
    }

    /// The number with the given encoding.
    pub fn from_bits(bits: u32) -> (s: Scalar)
        ensures
            s.bits == bits,
    {
        Scalar { bits }
    }

    /// The encoding of the number.
    pub fn to_bits(&self) -> (bits: u32)
        ensures
            bits == self.bits,
    {
        self.bits
    }

    fn abs_bits(&self) -> (m: u32)
        ensures
            m == self.magnitude(),
    {
        if self.bits >= SIGN_BIT {
            self.bits - SIGN_BIT
        } else {
            self.bits
        }
    }

    /// Whether the number is a NaN.
    pub fn is_nan(&self) -> (r: bool)
        ensures
            r == self.nan(),
    {
        self.abs_bits() > INFINITY_BITS
    }

    /// Whether the number is `0.0` or `-0.0`.
    pub fn is_zero(&self) -> (r: bool)
        ensures
            r == self.zero(),
    {
        self.abs_bits() == 0
    }

    /// Whether the two are the same number.
    pub fn same_number(&self, other: &Scalar) -> (r: bool)
        ensures
            r == self.same(*other),
    {
        if self.is_nan() || other.is_nan() {
            false
        } else {
            self.bits == other.bits || (self.is_zero() && other.is_zero())
        }
    }
}

/// Being the same number is an equality on everything but the NaNs: it holds
/// both ways round, carries over a middle term, and holds of a number and
/// itself exactly where the number is no NaN. Numbers with one encoding are
/// the same number.
pub proof fn same_is_an_equality_off_nan(a: Scalar, b: Scalar, c: Scalar)
    ensures
        a.same(b) == b.same(a),
        a.same(b) && b.same(c) ==> a.same(c),
        a.same(a) == !a.nan(),
        a == b && !a.nan() ==> a.same(b),
        a.same(b) ==> a == b || (a.zero() && b.zero()),
{
}

} // verus!
