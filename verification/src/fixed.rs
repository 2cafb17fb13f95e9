//! Fixed-point conventions shared by the whole engine.
//!
//! Every length is a whole number of sub-units, [`UNIT`] of them to one world
//! unit (or to one pixel for window sizes). Every rate is counted per second,
//! and elapsed time is a whole number of ticks, [`TICKS_PER_SECOND`] of them
//! to one second. Whenever a quotient is not whole it is rounded toward zero,
//! so that motion to the left mirrors motion to the right exactly.

use vstd::prelude::*;

verus! {

/// Number of sub-units in one world unit (or in one pixel).
pub const UNIT: i32 = 1000;

/// Number of time ticks in one second; one tick is a microsecond.
pub const TICKS_PER_SECOND: i64 = 1_000_000;

/// A point or a vector of the plane, as the contracts see it.
pub struct Point {
    pub x: int,
    pub y: int,
}

/// A point or a vector of the plane, in sub-units.
#[derive(Clone, Copy, Debug, PartialEq, Eq, Structural)]
pub struct Vec2 {
    pub x: i32,
    pub y: i32,
}

impl View for Vec2 {
    type V = Point;

    open spec fn view(&self) -> Point {
        Point { x: self.x as int, y: self.y as int }
    }
}

impl Vec2 {
    /// The vector with both components zero.
    pub fn zero() -> (v: Vec2)
        ensures
            v@ == origin(),
    {
        Vec2 { x: 0, y: 0 }
    }
}

/// The centre of the arena.
pub open spec fn origin() -> Point {
    Point { x: 0, y: 0 }
}

/// Squared Euclidean length of a vector.
pub open spec fn norm_squared(v: Point) -> int {
    v.x * v.x + v.y * v.y
}

/// Absolute value.
pub open spec fn magnitude(x: int) -> int {
    if x < 0 {
        -x
    } else {
        x
    }
}

/// The value of the interval `[lo, hi]` that is nearest to `x`. Where the
/// interval is empty, this is `lo` for an `x` below `lo` and `hi` for every
/// other `x`.
pub open spec fn clamped(x: int, lo: int, hi: int) -> int
    recommends
        lo <= hi,
{
    if x < lo {
        lo
    } else if x > hi {
        hi
    } else {
        x
    }
}

/// Quotient of `a` by a positive `b`, rounded toward zero.
pub open spec fn div_toward_zero(a: int, b: int) -> int
    recommends
        b > 0,
{
    if a >= 0 {
        a / b
    } else {
        -((-a) / b)
    }
}

/// Change that a quantity moving at `rate` per second undergoes in `ticks`
/// ticks, rounded toward zero.
pub open spec fn travel(rate: int, ticks: int) -> int {
    div_toward_zero(rate * ticks, TICKS_PER_SECOND as int)
}

/// Whether `x` can be stored as a coordinate.
pub open spec fn representable(x: int) -> bool {
    i32::MIN <= x <= i32::MAX
}

/// Clamps `x` to the interval `[lo, hi]`.
pub fn clamp(x: i64, lo: i64, hi: i64) -> (r: i64)
    ensures
        r == clamped(x as int, lo as int, hi as int),
        lo <= hi ==> lo <= r <= hi,
        r == x || r == lo || r == hi,
{
    if x < lo {
        lo
    } else if x > hi {
        hi
    } else {
        x
    }
}

/// Computes how far a quantity moving at `rate` per second gets in `ticks`
/// ticks.
pub fn advance(rate: i32, ticks: u32) -> (d: i64)
    ensures
        d == travel(rate as int, ticks as int),
        magnitude(d as int) < 0x1000_0000_0000,
        rate >= 0 ==> d >= 0,
        rate <= 0 ==> d <= 0,
{
    let r: i64 = rate as i64;
    let t: i64 = ticks as i64;
    proof {
        lemma_product_bounds(r as int, t as int);
    }
    let product: i64 = r * t;
    let d: i64 = product / TICKS_PER_SECOND;
    proof {
        lemma_travel_is_shorter(rate as int, ticks as int);
    }
    d
}

/// The product of a 32-bit rate and a 32-bit tick count fits in 64 bits.
proof fn lemma_product_bounds(r: int, t: int)
    by (nonlinear_arith)
    requires
        -0x8000_0000 <= r <= 0x7fff_ffff,
        0 <= t <= 0xffff_ffff,
    ensures
        -0x8000_0000 * 0xffff_ffff <= r * t <= 0x7fff_ffff * 0xffff_ffff,
{
}

/// Rounding toward zero never lengthens a step, and a step keeps the
/// direction of its rate.
pub proof fn lemma_travel_is_shorter(rate: int, ticks: int)
    requires
        ticks >= 0,
    ensures
        magnitude(travel(rate, ticks)) <= magnitude(rate) * ticks,
        rate >= 0 ==> travel(rate, ticks) >= 0,
        rate <= 0 ==> travel(rate, ticks) <= 0,
        travel(-rate, ticks) == -travel(rate, ticks),
{
    let p = rate * ticks;
    assert(magnitude(p) == magnitude(rate) * ticks && (rate >= 0 ==> p >= 0) && (rate <= 0 ==> p
        <= 0) && (-rate) * ticks == -p) by (nonlinear_arith)
        requires
            p == rate * ticks,
            ticks >= 0,
    ;
    let m = magnitude(p);
    assert(0 <= m / 1_000_000 <= m) by (nonlinear_arith)
        requires
            m >= 0,
    ;
}

} // verus!
