//! A two-dimensional point whose coordinates are IEEE-754 binary64 bit patterns.
use vstd::prelude::*;
use crate::value::GeoError;

verus! {

/// Count of the mantissa's values: the mantissa fills the low 52 bits.
pub const MANTISSA_SPAN: u64 = 0x10_0000_0000_0000;

/// The bit of the sign.
pub const SIGN_BIT: u64 = 0x8000_0000_0000_0000;

/// The biased exponent of a binary64 number, all bits set.
pub const EXPONENT_ALL_ONES: u64 = 2047;

/// The biased exponent field of a binary64 bit pattern.
pub open spec fn exponent_of(b: u64) -> u64 {
    (b / MANTISSA_SPAN) % 2048
}

/// A bit pattern that encodes a NaN: exponent all ones, mantissa not zero.
pub open spec fn is_nan_bits(b: u64) -> bool {
    exponent_of(b) == EXPONENT_ALL_ONES && b % MANTISSA_SPAN != 0
}

/// A bit pattern that encodes `+0.0` or `-0.0`.
pub open spec fn is_zero_bits(b: u64) -> bool {
    b % SIGN_BIT == 0
}

/// Floating equality of two binary64 numbers given by their bit patterns:
/// NaN equals nothing, the two zeros are equal, and otherwise the bits decide.
pub open spec fn coord_eq(a: u64, b: u64) -> bool {
    &&& !is_nan_bits(a)
    &&& !is_nan_bits(b)
    &&& (a == b || (is_zero_bits(a) && is_zero_bits(b)))
}

/// Floating equality of two coordinates given by their bit patterns.
pub fn coord_equal(a: u64, b: u64) -> (r: bool)
    ensures
        r == coord_eq(a, b),
{
    let a_nan = (a / MANTISSA_SPAN) % 2048 == EXPONENT_ALL_ONES && a % MANTISSA_SPAN != 0;
    let b_nan = (b / MANTISSA_SPAN) % 2048 == EXPONENT_ALL_ONES && b % MANTISSA_SPAN != 0;
    !a_nan && !b_nan && (a == b || (a % SIGN_BIT == 0 && b % SIGN_BIT == 0))
}

/// Geo point, represented by its x and y coordinates (ordinal 0 and 1), each
/// held as the bit pattern of a binary64 float.
///
/// Hashing goes over the two bit patterns, so `+0.0` and `-0.0` hash apart
/// although they compare equal.
#[derive(Clone, Copy, Debug, Hash)]
pub struct Point(pub [u64; 2]);

impl Point {
    /// The x coordinate's bits.
    pub open spec fn x(&self) -> u64 {
        self.0[0]
    }

    /// The y coordinate's bits.
    pub open spec fn y(&self) -> u64 {
        self.0[1]
    }

    /// Floating equality of two points, coordinate by coordinate.
    pub open spec fn same_as(&self, o: &Point) -> bool {
        coord_eq(self.x(), o.x()) && coord_eq(self.y(), o.y())
    }

    /// A point from the bit patterns of its coordinates.
    pub fn new(x: u64, y: u64) -> (r: Point)
        ensures
            r.x() == x,
            r.y() == y,
    {
        Point([x, y])
    }

    /// The coordinate of ordinal 0 (x) or 1 (y); any other ordinal is an error.
    pub fn index(&self, index: u8) -> (r: Result<u64, GeoError>)
        ensures
            index == 0 ==> r == Ok::<u64, GeoError>(self.x()),
            index == 1 ==> r == Ok::<u64, GeoError>(self.y()),
            index > 1 ==> r == Err::<u64, GeoError>(GeoError::IndexOutOfRange(index)),
    {
        if index < 2 {
            Ok(self.0[index as usize])
        } else {
            Err(GeoError::IndexOutOfRange(index))
        }
    }

    /// Both coordinates, x first.
    pub fn as_ref(&self) -> (r: &[u64; 2])
        ensures
            r[0] == self.x(),
            r[1] == self.y(),
    {
        &self.0
    }
}

impl PartialEq for Point {
    fn eq(&self, o: &Point) -> (r: bool) {
        coord_equal(self.0[0], o.0[0]) && coord_equal(self.0[1], o.0[1])
    }
}

impl vstd::std_specs::cmp::PartialEqSpecImpl for Point {
    open spec fn obeys_eq_spec() -> bool {
        true
    }

    open spec fn eq_spec(&self, o: &Point) -> bool {
        self.same_as(o)
    }
}

impl Default for Point {
    /// The point `(0,0)`, both coordinates `+0.0`.
    fn default() -> (r: Point)
        ensures
            r.x() == 0 && r.y() == 0,
    {
        Point([0, 0])
    }
}

} // verus!
