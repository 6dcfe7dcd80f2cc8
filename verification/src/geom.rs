//! Signed font-unit arithmetic and the basic geometric types.
//!
//! All coordinates are signed font design units held in `i64`. To keep every
//! geometric operation total, additions and subtractions saturate at the `i64`
//! range instead of overflowing; for any realistically sized input the
//! saturation point is never reached and the operations are exact.

use vstd::prelude::*;

verus! {

/// Saturation of a mathematical integer into the `i64` range.
pub open spec fn sat(v: int) -> int {
    if v > i64::MAX as int {
        i64::MAX as int
    } else if v < i64::MIN as int {
        i64::MIN as int
    } else {
        v
    }
}

/// Truncating (toward zero) halving, the exec counterpart of which is `div2`.
pub open spec fn half(v: int) -> int {
    if v >= 0 {
        v / 2
    } else {
        -((-v) / 2)
    }
}

/// Scaling by a percentage, truncating toward zero.
pub open spec fn scaled_spec(v: int, percent: int) -> int {
    if v >= 0 {
        sat(v * percent / 100)
    } else {
        sat(-((-v) * percent / 100))
    }
}

/// Saturating addition.
pub fn sadd(a: i64, b: i64) -> (r: i64)
    ensures
        r as int == sat(a + b),
{
    match a.checked_add(b) {
        Some(v) => v,
        None => {
            if b > 0 {
                i64::MAX
            } else {
                i64::MIN
            }
        },
    }
}

/// Saturating subtraction.
pub fn ssub(a: i64, b: i64) -> (r: i64)
    ensures
        r as int == sat(a - b),
{
    match a.checked_sub(b) {
        Some(v) => v,
        None => {
            if b < 0 {
                i64::MAX
            } else {
                i64::MIN
            }
        },
    }
}

/// Truncating halving.
pub fn div2(v: i64) -> (r: i64)
    ensures
        r as int == half(v as int),
{
    if v >= 0 {
        ((v as u64) / 2) as i64
    } else {
        let m: u128 = (-(v as i128)) as u128;
        (-((m / 2) as i128)) as i64
    }
}

/// Scale a font-unit value by a percentage, truncating toward zero.
pub fn scale_value(v: i64, percent: u32) -> (r: i64)
    requires
        percent <= 100,
    ensures
        r as int == scaled_spec(v as int, percent as int),
{
    if v >= 0 {
        let vu: u128 = v as u128;
        proof {
            assert(vu * (percent as u128) <= vu * 100 && vu * (percent as u128) / 100 <= vu)
                by (nonlinear_arith)
                requires
                    percent <= 100,
            ;
        }
        let p: u128 = vu * (percent as u128) / 100;
        p as i64
    } else {
        let m: u128 = (-(v as i128)) as u128;
        proof {
            assert(m * (percent as u128) <= m * 100 && m * (percent as u128) / 100 <= m)
                by (nonlinear_arith)
                requires
                    percent <= 100,
            ;
        }
        let p: u128 = m * (percent as u128) / 100;
        (-(p as i128)) as i64
    }
}

/// Divide a non-negative size by a percentage scale (the inverse of
/// `scale_value` up to truncation), saturating at `u64::MAX`.
pub fn unscale_size(v: u64, percent: u32) -> (r: u64)
    requires
        1 <= percent,
    ensures
        r as int == sat_u64(v as int * 100 / percent as int),
{
    let p: u128 = (v as u128) * 100 / (percent as u128);
    if p > u64::MAX as u128 {
        u64::MAX
    } else {
        p as u64
    }
}

/// Saturation of a non-negative mathematical integer into the `u64` range.
pub open spec fn sat_u64(v: int) -> int {
    if v > u64::MAX as int {
        u64::MAX as int
    } else {
        v
    }
}

/// Maximum of two font-unit values.
pub fn imax(a: i64, b: i64) -> (r: i64)
    ensures
        r == if a >= b { a } else { b },
{
    if a >= b {
        a
    } else {
        b
    }
}

/// Minimum of two font-unit values.
pub fn imin(a: i64, b: i64) -> (r: i64)
    ensures
        r == if a <= b { a } else { b },
{
    if a <= b {
        a
    } else {
        b
    }
}

/// A position in font units. `x` grows rightward; `y` grows downward, so a
/// negative `y` is above the baseline.
#[derive(Clone, Copy, Debug, PartialEq, Eq, Structural)]
pub struct Point {
    pub x: i64,
    pub y: i64,
}

impl Point {
    pub open spec fn zero_spec() -> Point {
        Point { x: 0, y: 0 }
    }

    pub fn zero() -> (r: Point)
        ensures
            r == Point::zero_spec(),
    {
        Point { x: 0, y: 0 }
    }
}

/// Horizontal and vertical bounds of a box, relative to the box's own origin:
/// `ascent` extends upward from the baseline, `descent` downward, and the
/// horizontal span runs from `left_side_bearing` to `left_side_bearing + width`.
#[derive(Clone, Copy, Debug, PartialEq, Eq, Structural)]
pub struct Extents {
    pub left_side_bearing: i64,
    pub width: i64,
    pub ascent: i64,
    pub descent: i64,
}

impl Extents {
    pub open spec fn zero_spec() -> Extents {
        Extents { left_side_bearing: 0, width: 0, ascent: 0, descent: 0 }
    }

    pub fn zero() -> (r: Extents)
        ensures
            r == Extents::zero_spec(),
    {
        Extents { left_side_bearing: 0, width: 0, ascent: 0, descent: 0 }
    }

    pub open spec fn height_spec(self) -> int {
        sat(self.ascent + self.descent)
    }

    /// Total vertical span.
    pub fn height(&self) -> (r: i64)
        ensures
            r as int == self.height_spec(),
    {
        sadd(self.ascent, self.descent)
    }

    pub open spec fn right_edge_spec(self) -> int {
        sat(self.left_side_bearing + self.width)
    }

    /// Rightmost horizontal coordinate.
    pub fn right_edge(&self) -> (r: i64)
        ensures
            r as int == self.right_edge_spec(),
    {
        sadd(self.left_side_bearing, self.width)
    }

    pub open spec fn center_spec(self) -> int {
        sat(self.left_side_bearing + half(self.width as int))
    }

    /// Horizontal midpoint.
    pub fn center(&self) -> (r: i64)
        ensures
            r as int == self.center_spec(),
    {
        sadd(self.left_side_bearing, div2(self.width))
    }
}

} // verus!
