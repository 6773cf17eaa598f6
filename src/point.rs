//! Pointer positions.
use vstd::prelude::*;

verus! {

/// Whether `b`, read as an IEEE 754 single-precision number, is a NaN:
/// all exponent bits set and a nonzero fraction.
pub open spec fn is_nan_bits(b: u32) -> bool {
    (b & 0x7f80_0000u32) == 0x7f80_0000u32 && (b & 0x007f_ffffu32) != 0
}

/// Whether `b`, read as an IEEE 754 single-precision number, is `+0.0` or `-0.0`.
pub open spec fn is_zero_bits(b: u32) -> bool {
    (b & 0x7fff_ffffu32) == 0
}

/// Equality of two single-precision numbers given by their bit patterns:
/// a NaN equals nothing, the two zeros are equal, and otherwise the bits must agree.
pub open spec fn coordinates_equal(a: u32, b: u32) -> bool {
    &&& !is_nan_bits(a)
    &&& !is_nan_bits(b)
    &&& (a == b || (is_zero_bits(a) && is_zero_bits(b)))
}

/// A pointer position. Each coordinate is a single-precision floating-point
/// number, held as its IEEE 754 bit pattern.
#[derive(Debug, Clone, Copy)]
pub struct Point {
    pub x_bits: u32,
    pub y_bits: u32,
}

impl Point {
    /// Whether the two positions are coordinate-equal, with floating-point
    /// equality on each coordinate and no tolerance.
    pub open spec fn spec_same(self, other: Point) -> bool {
        coordinates_equal(self.x_bits, other.x_bits) && coordinates_equal(self.y_bits, other.y_bits)
    }

    /// The position whose coordinates have the given bit patterns.
    pub fn from_bits(x_bits: u32, y_bits: u32) -> (r: Point)
        ensures
            r.x_bits == x_bits,
            r.y_bits == y_bits,
    {
        Point { x_bits, y_bits }
    }

    /// Exact coordinate equality, as `==` on the two floating-point coordinates.
    pub fn same_position(&self, other: &Point) -> (r: bool)
        ensures
            r == self.spec_same(*other),
    {
        coordinate_eq(self.x_bits, other.x_bits) && coordinate_eq(self.y_bits, other.y_bits)
    }
}

fn is_nan(b: u32) -> (r: bool)
    ensures
        r == is_nan_bits(b),
{
    (b & 0x7f80_0000u32) == 0x7f80_0000u32 && (b & 0x007f_ffffu32) != 0
}

fn coordinate_eq(a: u32, b: u32) -> (r: bool)
    ensures
        r == coordinates_equal(a, b),
{
    if is_nan(a) || is_nan(b) {
        false
    } else {
        a == b || ((a & 0x7fff_ffffu32) == 0 && (b & 0x7fff_ffffu32) == 0)
    }
}

} // verus!
