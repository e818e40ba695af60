//! Points of user space.

use vstd::prelude::*;
use vstd::std_specs::cmp::PartialEqSpecImpl;

use crate::float_bits::{
    below_zero, float_eq, is_nan, spec_below_zero, spec_float_eq, spec_is_nan, NAN_BITS, ZERO_BITS,
};

verus! {

/// A point in user space. Each coordinate is held as the IEEE-754 binary32 bit
/// pattern of its value (what `f32::to_bits` gives), so that the library can
/// reason about the comparisons it makes on coordinates.
#[derive(Debug, Clone, Copy)]
pub struct Point {
    pub x: u32,
    pub y: u32,
}

/// Two points compare equal when both coordinates compare equal as floats.
pub open spec fn spec_point_eq(a: Point, b: Point) -> bool {
    spec_float_eq(a.x, b.x) && spec_float_eq(a.y, b.y)
}

/// A point is "no point" when one of its coordinates is NaN.
pub open spec fn spec_has_nan(p: Point) -> bool {
    spec_is_nan(p.x) || spec_is_nan(p.y)
}

/// A point lies outside the drawable quadrant when a coordinate is below zero.
pub open spec fn spec_has_negative(p: Point) -> bool {
    spec_below_zero(p.x) || spec_below_zero(p.y)
}

impl Point {
    /// The origin, (0.0, 0.0).
    pub fn origin() -> (p: Point)
        ensures
            p.x == ZERO_BITS,
            p.y == ZERO_BITS,
    {
        Point { x: ZERO_BITS, y: ZERO_BITS }
    }

    /// The point with the given coordinates.
    pub fn new(x: u32, y: u32) -> (p: Point)
        ensures
            p.x == x,
            p.y == y,
    {
        Point { x, y }
    }

    /// The point that stands for "no current point": both coordinates NaN.
    pub fn none() -> (p: Point)
        ensures
            p.x == NAN_BITS,
            p.y == NAN_BITS,
            spec_has_nan(p),
    {
        Point { x: NAN_BITS, y: NAN_BITS }
    }

    /// Whether one of the coordinates is NaN.
    pub fn has_nan(&self) -> (res: bool)
        ensures
            res == spec_has_nan(*self),
    {
        is_nan(self.x) || is_nan(self.y)
    }

    /// Whether one of the coordinates is below zero.
    pub fn has_negative(&self) -> (res: bool)
        ensures
            res == spec_has_negative(*self),
    {
        below_zero(self.x) || below_zero(self.y)
    }
}

impl PartialEq for Point {
    fn eq(&self, other: &Point) -> (res: bool) {
        float_eq(self.x, other.x) && float_eq(self.y, other.y)
    }
}

impl PartialEqSpecImpl for Point {
    open spec fn obeys_eq_spec() -> bool {
        true
    }

    open spec fn eq_spec(&self, other: &Point) -> bool {
        spec_point_eq(*self, *other)
    }
}

} // verus!
