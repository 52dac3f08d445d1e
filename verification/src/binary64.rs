//! Binary64 (IEEE 754 double precision) values held by their bit pattern,
//! with the ordering comparisons that configuration rules need.
use vstd::prelude::*;

verus! {

/// The bit that carries the sign of a binary64 value.
pub const SIGN_BIT: u64 = 0x8000_0000_0000_0000;

/// The bit pattern of positive infinity: all exponent bits set, zero fraction.
pub const INFINITY_BITS: u64 = 0x7FF0_0000_0000_0000;

/// The bit pattern of `1.0`.
pub const ONE_BITS: u64 = 0x3FF0_0000_0000_0000;

/// A binary64 floating-point number, represented by its IEEE 754 encoding.
#[derive(Clone, Copy, Debug, PartialEq, Eq, Structural)]
pub struct Binary64 {
    pub bits: u64,
}

/// Whether the sign bit of `bits` is set.
pub open spec fn sign_set(bits: u64) -> bool {
    bits >= SIGN_BIT
}

/// The encoding with the sign bit cleared (the absolute value's encoding).
pub open spec fn magnitude(bits: u64) -> int {
    if sign_set(bits) {
        bits - SIGN_BIT
    } else {
        bits as int
    }
}

/// NaN: all exponent bits set and a non-zero fraction.
pub open spec fn is_nan_bits(bits: u64) -> bool {
    magnitude(bits) > INFINITY_BITS
}

/// For a value that is not NaN, an integer that orders values as the reals
/// (and the infinities) they denote: on non-negative values the encoding
/// grows with the value, on negative ones it grows with the absolute value.
/// Both zeros get the key 0.
pub open spec fn order_key(bits: u64) -> int {
    if sign_set(bits) {
        -magnitude(bits)
    } else {
        magnitude(bits)
    }
}

/// IEEE 754 `a <= b`: false when either side is NaN.
pub open spec fn le_bits(a: u64, b: u64) -> bool {
    !is_nan_bits(a) && !is_nan_bits(b) && order_key(a) <= order_key(b)
}

/// IEEE 754 `a < b`: false when either side is NaN.
pub open spec fn lt_bits(a: u64, b: u64) -> bool {
    !is_nan_bits(a) && !is_nan_bits(b) && order_key(a) < order_key(b)
}

impl Binary64 {
    /// The value with the given encoding.
    pub fn from_bits(bits: u64) -> (r: Self)
        ensures
            r.bits == bits,
    {
        Binary64 { bits }
    }

    /// Positive zero.
    pub fn zero() -> (r: Self)
        ensures
            r.bits == 0,
    {
        Binary64 { bits: 0 }
    }

    /// One.
    pub fn one() -> (r: Self)
        ensures
            r.bits == ONE_BITS,
    {
        Binary64 { bits: ONE_BITS }
    }

    /// Whether the value is NaN.
    pub fn is_nan(&self) -> (r: bool)
        ensures
            r == is_nan_bits(self.bits),
    {
        let m = if self.bits >= SIGN_BIT { self.bits - SIGN_BIT } else { self.bits };
        m > INFINITY_BITS
    }

    /// IEEE 754 `self <= other`.
    pub fn le(&self, other: &Binary64) -> (r: bool)
        ensures
            r == le_bits(self.bits, other.bits),
    {
        if self.is_nan() || other.is_nan() {
            return false;
        }
        let a_neg = self.bits >= SIGN_BIT;
        let b_neg = other.bits >= SIGN_BIT;
        let a_mag = if a_neg { self.bits - SIGN_BIT } else { self.bits };
        let b_mag = if b_neg { other.bits - SIGN_BIT } else { other.bits };
        if a_neg && b_neg {
            b_mag <= a_mag
        } else if a_neg {
            true
        } else if b_neg {
            a_mag == 0 && b_mag == 0
        } else {
            a_mag <= b_mag
        }
    }

    /// IEEE 754 `self < other`.
    pub fn lt(&self, other: &Binary64) -> (r: bool)
        ensures
            r == lt_bits(self.bits, other.bits),
    {
        self.le(other) && !other.le(self)
    }

    /// Whether `0.0 <= self <= 1.0`.
    pub fn in_unit_interval(&self) -> (r: bool)
        ensures
            r == (le_bits(0, self.bits) && le_bits(self.bits, ONE_BITS)),
    {
        let zero = Binary64::zero();
        let one = Binary64::one();
        zero.le(self) && self.le(&one)
    }
}


/// A NaN on either side makes `<=` false.
pub proof fn nan_is_unordered(a: u64, b: u64)
    requires
        is_nan_bits(a) || is_nan_bits(b),
    ensures
        !le_bits(a, b),
{
}

/// Positive and negative zero compare equal.
pub proof fn zeros_compare_equal()
    ensures
        le_bits(0, SIGN_BIT),
        le_bits(SIGN_BIT, 0),
{
}

/// On values that are not NaN, `<=` is reflexive, total and transitive.
pub proof fn le_orders_numbers(a: u64, b: u64, c: u64)
    requires
        !is_nan_bits(a),
        !is_nan_bits(b),
        !is_nan_bits(c),
    ensures
        le_bits(a, a),
        le_bits(a, b) || le_bits(b, a),
        le_bits(a, b) && le_bits(b, c) ==> le_bits(a, c),
{
}

} // verus!
