//! Exact fractions for vertex components.

use vstd::prelude::*;

verus! {

/// The factor by which a value is scaled before two values are compared
/// for approximate equality.
pub const QUANTUM_SCALE: u64 = 1_000_000;

/// The fraction `num / den`.
///
/// A vertex component (a position, a light level, a texture coordinate)
/// is carried as the fraction it stands for. Two scalars are equal when
/// both fields are equal; fractions are never reduced. A scalar with a
/// zero denominator stands for no finite value.
#[derive(Clone, Copy, Debug, PartialEq, Eq, Structural)]
pub struct Scalar {
    pub num: i64,
    pub den: u64,
}

/// `v` kept within the range of a signed 32-bit integer.
pub open spec fn clamp_i32(v: int) -> int {
    if v > i32::MAX {
        i32::MAX as int
    } else if v < i32::MIN {
        i32::MIN as int
    } else {
        v
    }
}

impl Scalar {
    /// The integer `value`.
    pub fn whole(value: i64) -> (r: Scalar)
        ensures
            r == (Scalar { num: value, den: 1 }),
    {
        Scalar { num: value, den: 1 }
    }

    /// The fraction `num / den`.
    pub fn ratio(num: i64, den: u64) -> (r: Scalar)
        ensures
            r == (Scalar { num, den }),
    {
        Scalar { num, den }
    }

    /// Whether the scalar stands for a finite value.
    pub open spec fn is_finite(self) -> bool {
        self.den > 0
    }

    /// The value scaled by [`QUANTUM_SCALE`] and cut off towards zero,
    /// kept within the signed 32-bit range: what lies behind the sixth
    /// decimal place is dropped, for a negative value as for a positive
    /// one. Without a denominator the quantum is the end of that range on
    /// the side of the numerator's sign, and zero for `0 / 0`.
    pub open spec fn quantum(self) -> int {
        if self.den == 0 {
            if self.num > 0 {
                i32::MAX as int
            } else if self.num < 0 {
                i32::MIN as int
            } else {
                0
            }
        } else if self.num < 0 {
            clamp_i32(-(((-self.num) * QUANTUM_SCALE) / (self.den as int)))
        } else {
            clamp_i32((self.num * QUANTUM_SCALE) / (self.den as int))
        }
    }

    /// Computes [`Scalar::quantum`].
    pub fn quantized(&self) -> (r: i32)
        ensures
            r == self.quantum(),
    {
        if self.den == 0 {
            if self.num > 0 {
                i32::MAX
            } else if self.num < 0 {
                i32::MIN
            } else {
                0
            }
        } else if self.num >= 0 {
            let scaled: u128 = (self.num as u128) * (QUANTUM_SCALE as u128);
            let q: u128 = scaled / (self.den as u128);
            if q > 2147483647 {
                i32::MAX
            } else {
                q as i32
            }
        } else {
            let magnitude: u128 = (-(self.num as i128)) as u128;
            let scaled: u128 = magnitude * (QUANTUM_SCALE as u128);
            let d: u128 = self.den as u128;
            let q: u128 = scaled / d;
            if q > 2147483648 {
                i32::MIN
            } else {
                (-(q as i64)) as i32
            }
        }
    }
}

/// Whether two scalars agree once scaled and cut off towards zero: the
/// test by which a texture coordinate is recognised as one of the bounds
/// of its rectangle.
pub fn quantized_eq(value_1: Scalar, value_2: Scalar) -> (r: bool)
    ensures
        r == (value_1.quantum() == value_2.quantum()),
{
    value_1.quantized() == value_2.quantized()
}

} // verus!
