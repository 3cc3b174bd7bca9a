//! Ring selection: which concentric generator ring owns a point at a given
//! distance from the wheel center, and the normalized position of the point
//! within that ring.
//!
//! All rings of one wheel share the same radial thickness
//! `diameter / (2 * ring_count)`.  Working with the squared distance keeps
//! the ring test exact: distance `< bound` holds iff
//! `4 * ring_count^2 * distance^2 < ((ring + 1) * diameter)^2`.  The
//! variable dimension `(distance - inner_bound) / ring_size`, a value in
//! `[0, 1)`, is rounded down onto the micro grid through the integer square
//! root.

use vstd::prelude::*;

use crate::math::isqrt_u128;
use crate::ratio::{Ratio, MICRO};

verus! {

/// Largest wheel image side length the renderer accepts; keeps the squared
/// ring bounds inside 128-bit arithmetic.
pub const MAX_IMAGE_SIZE: u32 = 1048576;

/// Largest squared center distance a pixel of such an image can have:
/// `2 * MAX_IMAGE_SIZE^2`.
pub const MAX_DISTANCE_SQUARED: u64 = 2199023255552;

/// The greatest `r` with `r * r <= n`, as a specification value.
pub open spec fn spec_isqrt(n: int) -> int {
    choose|r: int| 0 <= r && #[trigger] (r * r) <= n && (r + 1) * (r + 1) > n
}

/// Any `r` that brackets `n` between consecutive squares is the integer
/// square root.
pub proof fn lemma_isqrt_is(n: int, r: int)
    requires
        0 <= r,
        r * r <= n,
        (r + 1) * (r + 1) > n,
    ensures
        spec_isqrt(n) == r,
{
    assert(exists|q: int| 0 <= q && #[trigger] (q * q) <= n && (q + 1) * (q + 1) > n) by {
        assert(0 <= r && (r * r) <= n && (r + 1) * (r + 1) > n);
    };
    let q = spec_isqrt(n);
    assert(0 <= q && (q * q) <= n && (q + 1) * (q + 1) > n);
    if q < r {
        assert((q + 1) * (q + 1) <= r * r) by (nonlinear_arith)
            requires
                0 <= q,
                q < r,
        ;
    }
    if q > r {
        assert((r + 1) * (r + 1) <= q * q) by (nonlinear_arith)
            requires
                0 <= r,
                r < q,
        ;
    }
}

/// The selected ring and the position within it.  The ring is given as an
/// index into the wheel's generator list, innermost ring first.
#[derive(Debug, Clone, Copy, PartialEq, Eq, Structural)]
pub struct PixelGeneratorAndVariableDimension {
    pub pixel_generator_index: usize,
    pub variable_dimension: Ratio,
}

/// First ring at index `i` or beyond whose outer bound lies strictly beyond
/// the distance `sqrt(n)`; `None` when no ring does.
pub open spec fn spec_ring_index(n: int, diameter: int, rings: int, i: int) -> Option<int>
    decreases rings - i,
{
    if i >= rings {
        None
    } else if 4 * rings * rings * n < ((i + 1) * diameter) * ((i + 1) * diameter) {
        Some(i)
    } else {
        spec_ring_index(n, diameter, rings, i + 1)
    }
}

/// The ring owning squared distance `n`, walking from the innermost ring
/// outward.
pub open spec fn spec_select_ring(n: int, diameter: int, rings: int) -> Option<int> {
    spec_ring_index(n, diameter, rings, 0)
}

/// Micro-unit floor of `(distance - ring_inner_bound) / ring_size` for ring
/// `i`: `(floor(2 * rings * sqrt(n) * 10^6) - i * 10^6 * diameter) / diameter`.
pub open spec fn spec_variable_dimension(n: int, diameter: int, rings: int, i: int) -> int {
    (spec_isqrt((4 * rings * rings * n) * 1000000000000) - (i * 1000000) * diameter) / diameter
}

/// Select the generator ring owning a point at squared distance
/// `distance_squared` from the center, together with the micro-rounded
/// position of the point within that ring.  Returns `None` exactly when the
/// point lies on or beyond the outer bound of the outermost ring.
pub fn get_pixel_generator_and_variable_dimension(
    ring_count: u32,
    wheel_diameter: u32,
    distance_squared: u64,
) -> (r: Option<PixelGeneratorAndVariableDimension>)
    requires
        1 <= ring_count,
        2 * ring_count <= wheel_diameter,
        wheel_diameter <= MAX_IMAGE_SIZE,
        distance_squared <= MAX_DISTANCE_SQUARED,
    ensures
        (r is None) <==> (spec_select_ring(
            distance_squared as int,
            wheel_diameter as int,
            ring_count as int,
        ) is None),
        r is Some ==> spec_select_ring(
            distance_squared as int,
            wheel_diameter as int,
            ring_count as int,
        ) == Some(r->Some_0.pixel_generator_index as int),
        r is Some ==> r->Some_0.variable_dimension == (Ratio {
            num: spec_variable_dimension(
                distance_squared as int,
                wheel_diameter as int,
                ring_count as int,
                r->Some_0.pixel_generator_index as int,
            ) as u64,
            den: MICRO as u64,
        }),
        r is Some ==> r->Some_0.variable_dimension.num < 1000000,
        r is Some ==> r->Some_0.pixel_generator_index < ring_count,
{
    let n: u128 = distance_squared as u128;
    let rings: u128 = ring_count as u128;
    let w: u128 = wheel_diameter as u128;

    proof {
        assert(4 * (rings as int) * (rings as int) * (n as int) <= 0x800000000000000000000
            && 4 * (rings as int) * (rings as int) <= 0x40000000000000 && 4 * (rings as int) * (
        rings as int) >= 4) by (nonlinear_arith)
            requires
                1 <= rings <= 1048576,
                n <= 2199023255552,
        ;
    }
    let lhs: u128 = 4 * rings * rings * n;

    let mut i: u32 = 0;
    while i < ring_count
        invariant
            i <= ring_count,
            rings == ring_count as int,
            w == wheel_diameter as int,
            n == distance_squared as int,
            lhs == 4 * (rings as int) * (rings as int) * (n as int),
            lhs <= 0x800000000000000000000,
            1 <= ring_count,
            2 * ring_count <= wheel_diameter,
            wheel_diameter <= MAX_IMAGE_SIZE,
            spec_ring_index(n as int, w as int, rings as int, 0) == spec_ring_index(
                n as int,
                w as int,
                rings as int,
                i as int,
            ),
            i > 0 ==> ((i as int) * (w as int)) * ((i as int) * (w as int)) <= lhs as int,
        decreases ring_count - i,
    {
        proof {
            assert(((i as int) + 1) * (w as int) <= 0x10000000000 && ((i as int) + 1) * (w as int)
                >= 0 && (((i as int) + 1) * (w as int)) * (((i as int) + 1) * (w as int))
                <= 0x100000000000000000000) by (nonlinear_arith)
                requires
                    0 <= i < 1048576,
                    1 <= w <= 1048576,
            ;
        }
        let bound: u128 = ((i as u128) + 1) * w;
        let rhs: u128 = bound * bound;
        if lhs < rhs {
            return Some(found_ring(i, ring_count, wheel_diameter, distance_squared, lhs, n, rings, w));
        }
        i = i + 1;
    }
    None
}

/// Compute the variable dimension once the owning ring is known.
fn found_ring(
    i: u32,
    ring_count: u32,
    wheel_diameter: u32,
    distance_squared: u64,
    lhs: u128,
    n: u128,
    rings: u128,
    w: u128,
) -> (r: PixelGeneratorAndVariableDimension)
    requires
        i < ring_count,
        rings == ring_count as int,
        w == wheel_diameter as int,
        n == distance_squared as int,
        lhs == 4 * (rings as int) * (rings as int) * (n as int),
        lhs <= 0x800000000000000000000,
        1 <= ring_count,
        2 * ring_count <= wheel_diameter,
        wheel_diameter <= MAX_IMAGE_SIZE,
        lhs < (((i as int) + 1) * (w as int)) * (((i as int) + 1) * (w as int)),
        i > 0 ==> ((i as int) * (w as int)) * ((i as int) * (w as int)) <= lhs as int,
    ensures
        r.pixel_generator_index == i as int,
        r.variable_dimension == (Ratio {
            num: spec_variable_dimension(n as int, w as int, rings as int, i as int) as u64,
            den: MICRO as u64,
        }),
        r.variable_dimension.num < 1000000,
{
    proof {
        assert((lhs as int) * 1000000000000 <= 0x800000000000000000000 * 1000000000000)
            by (nonlinear_arith)
            requires
                lhs <= 0x800000000000000000000u128,
        ;
    }
    let big: u128 = lhs * 1000000000000;
    let s: u128 = isqrt_u128(big);
    proof {
        lemma_isqrt_is(big as int, s as int);
        assert(((i as int) * 1000000) * (w as int) <= 0x2000000000000000) by (nonlinear_arith)
            requires
                0 <= i <= 1048576,
                1 <= w <= 1048576,
        ;
    }
    let sub: u128 = ((i as u128) * 1000000) * w;
    proof {
        // sub * sub <= big, so sub <= s.
        assert((sub as int) * (sub as int) <= (lhs as int) * 1000000000000) by (nonlinear_arith)
            requires
                sub == ((i as int) * 1000000) * (w as int),
                i > 0 ==> ((i as int) * (w as int)) * ((i as int) * (w as int)) <= lhs as int,
                i >= 0,
                w >= 1,
                lhs >= 0,
        ;
        assert(sub <= s) by (nonlinear_arith)
            requires
                (sub as int) * (sub as int) <= big as int,
                (s as int) * (s as int) <= big as int,
                ((s as int) + 1) * ((s as int) + 1) > big as int,
                sub >= 0,
                s >= 0,
        ;
        // big < (1000000 * (i + 1) * w)^2, so s < 1000000 * (i + 1) * w.
        assert((s as int) < (((i as int) + 1) * 1000000) * (w as int)) by (nonlinear_arith)
            requires
                (s as int) * (s as int) <= big as int,
                big == (lhs as int) * 1000000000000,
                lhs < (((i as int) + 1) * (w as int)) * (((i as int) + 1) * (w as int)),
                s >= 0,
                i >= 0,
                w >= 1,
                lhs >= 0,
        ;
        assert((s as int) - (sub as int) < (w as int) * 1000000) by (nonlinear_arith)
            requires
                (s as int) < (((i as int) + 1) * 1000000) * (w as int),
                sub == ((i as int) * 1000000) * (w as int),
                w >= 1,
        ;
    }
    proof {
        vstd::arithmetic::div_mod::lemma_multiply_divide_lt(
            (s - sub) as int,
            w as int,
            1000000int,
        );
    }
    let q: u128 = (s - sub) / w;
    PixelGeneratorAndVariableDimension {
        pixel_generator_index: i as usize,
        variable_dimension: Ratio { num: q as u64, den: MICRO },
    }
}

} // verus!
