//! Angle of a pixel around the wheel center.
//!
//! Angle 0 points straight up and angles grow clockwise, so `(0, -d)` maps
//! to 0 degrees, `(d, 0)` to 90, `(0, d)` to 180 and `(-d, 0)` to 270.  The
//! result is reduced modulo 360 degrees.  Octant reduction feeds the
//! fixed-point arctangent kernel, which is exact on the axes and diagonals.

use vstd::prelude::*;

use crate::math::{atan_micro_deg, spec_atan_micro_deg};

verus! {

/// Largest centered coordinate offset the angle computation accepts.
pub const MAX_COORDINATE_OFFSET: i64 = 0x80000000;

/// Slope of the minor leg over the major leg, in micro units.
pub open spec fn spec_slope_micro(minor: int, major: int) -> int {
    (minor * 1000000) / major
}

/// The angle, in micro-degrees in `[0, 360)`, of the offset `(dx, dy)` from
/// the wheel center, measured clockwise from straight up.  The center itself
/// maps to 180 degrees.
pub open spec fn spec_angle_micro_deg(dx: int, dy: int) -> int {
    let ax = if dx < 0 {
        -dx
    } else {
        dx
    };
    let ay = if dy < 0 {
        -dy
    } else {
        dy
    };
    let raw = if ax == 0 && ay == 0 {
        180000000
    } else if dx >= 0 && dy <= 0 {
        if ax <= ay {
            spec_atan_micro_deg(spec_slope_micro(ax, ay))
        } else {
            90000000 - spec_atan_micro_deg(spec_slope_micro(ay, ax))
        }
    } else if dx >= 0 {
        if ay <= ax {
            90000000 + spec_atan_micro_deg(spec_slope_micro(ay, ax))
        } else {
            180000000 - spec_atan_micro_deg(spec_slope_micro(ax, ay))
        }
    } else if dy >= 0 {
        if ax <= ay {
            180000000 + spec_atan_micro_deg(spec_slope_micro(ax, ay))
        } else {
            270000000 - spec_atan_micro_deg(spec_slope_micro(ay, ax))
        }
    } else {
        if ay <= ax {
            270000000 + spec_atan_micro_deg(spec_slope_micro(ay, ax))
        } else {
            360000000 - spec_atan_micro_deg(spec_slope_micro(ax, ay))
        }
    };
    raw % 360000000
}

/// Micro slope of the shorter leg over the longer one, always in `[0, 1]`.
fn slope_micro(minor: u64, major: u64) -> (r: u64)
    requires
        1 <= major,
        minor <= major,
        minor <= 0x80000000,
    ensures
        r == spec_slope_micro(minor as int, major as int),
        r <= 1000000,
{
    proof {
        vstd::arithmetic::mul::lemma_mul_inequality(minor as int, major as int, 1000000);
        vstd::arithmetic::div_mod::lemma_div_is_ordered(
            (minor as int) * 1000000,
            (major as int) * 1000000,
            major as int,
        );
        vstd::arithmetic::div_mod::lemma_div_multiples_vanish(1000000, major as int);
        assert((minor as int) * 1000000 == 1000000 * (minor as int)) by (nonlinear_arith);
        assert((major as int) * 1000000 == 1000000 * (major as int)) by (nonlinear_arith);
    }
    (minor * 1000000) / major
}

/// Angle, in micro-degrees in `[0, 360)`, of `(relative_x, relative_y)`
/// around the center `(center_x, center_y)`: zero straight up, clockwise.
pub fn get_angle_degrees(center_x: i64, center_y: i64, relative_x: i64, relative_y: i64) -> (r:
    u64)
    requires
        -MAX_COORDINATE_OFFSET <= relative_x - center_x <= MAX_COORDINATE_OFFSET,
        -MAX_COORDINATE_OFFSET <= relative_y - center_y <= MAX_COORDINATE_OFFSET,
    ensures
        r == spec_angle_micro_deg(relative_x - center_x, relative_y - center_y),
        r < 360000000,
{
    let dx = relative_x - center_x;
    let dy = relative_y - center_y;
    let ax: u64 = if dx < 0 {
        (-dx) as u64
    } else {
        dx as u64
    };
    let ay: u64 = if dy < 0 {
        (-dy) as u64
    } else {
        dy as u64
    };
    let raw: u64 = if ax == 0 && ay == 0 {
        180000000
    } else if dx >= 0 && dy <= 0 {
        if ax <= ay {
            atan_micro_deg(slope_micro(ax, ay))
        } else {
            90000000 - atan_micro_deg(slope_micro(ay, ax))
        }
    } else if dx >= 0 {
        if ay <= ax {
            90000000 + atan_micro_deg(slope_micro(ay, ax))
        } else {
            180000000 - atan_micro_deg(slope_micro(ax, ay))
        }
    } else if dy >= 0 {
        if ax <= ay {
            180000000 + atan_micro_deg(slope_micro(ax, ay))
        } else {
            270000000 - atan_micro_deg(slope_micro(ay, ax))
        }
    } else {
        if ay <= ax {
            270000000 + atan_micro_deg(slope_micro(ay, ax))
        } else {
            360000000 - atan_micro_deg(slope_micro(ax, ay))
        }
    };
    raw % 360000000
}

} // verus!
