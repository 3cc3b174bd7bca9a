//! Exact nonnegative rational values.
//!
//! The rendering pipeline carries continuous quantities (angles in degrees,
//! unit-interval color dimensions) as exact fractions of unsigned integers
//! instead of floating-point numbers, so that every later stage has a
//! complete arithmetic specification.

use vstd::prelude::*;

verus! {

/// Denominator of values that were rounded to a fixed micro-unit grid
/// (one millionth).
pub const MICRO: u64 = 1_000_000;

/// Largest denominator the color converters accept; keeps all intermediate
/// products inside 128-bit arithmetic.  Every denominator the pipeline
/// produces (micro units, or a bucket count) is far below it.
pub const DENOMINATOR_LIMIT: u64 = 4_294_967_296;

/// An exact nonnegative rational number `num / den`.
#[derive(Debug, Clone, Copy, PartialEq, Eq, Structural)]
pub struct Ratio {
    pub num: u64,
    pub den: u64,
}

impl Ratio {
    /// A ratio is well formed when its denominator is positive.
    pub open spec fn wf(self) -> bool {
        self.den >= 1
    }

    /// The value is at most the integer `bound`.
    pub open spec fn spec_at_most(self, bound: int) -> bool {
        self.num <= bound * self.den
    }

    pub fn new(num: u64, den: u64) -> (r: Ratio)
        requires
            den >= 1,
        ensures
            r == (Ratio { num, den }),
    {
        Ratio { num, den }
    }

    /// Value expressed in micro units (denominator [`MICRO`]).
    pub fn from_micro(micro: u64) -> (r: Ratio)
        ensures
            r == (Ratio { num: micro, den: MICRO as u64 }),
    {
        Ratio { num: micro, den: MICRO }
    }
}

/// `maximum - value`, as an exact ratio over the same denominator.  Used to
/// mirror a value around the top of its range.
pub open spec fn spec_ratio_complement(maximum: u64, value: Ratio) -> Ratio {
    Ratio { num: (maximum * value.den - value.num) as u64, den: value.den }
}

} // verus!
