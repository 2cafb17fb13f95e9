//! The constant-speed rule: a velocity is brought to a target speed without
//! turning it.
//!
//! A component of the result is the whole part of `c * target / |v|`, where
//! `c` is the component's length and `|v|` the Euclidean length of the
//! velocity. The contracts say so without a square root: the whole part of
//! `c * target / sqrt(n)` is the greatest `k` with `k * k * n <= (c * target)^2`.
//!
//! Rounding alone would let a component that is small next to the other one
//! vanish, and the ball would lose its course on that axis. So a component
//! that is not zero is given one sub-unit where its whole part is zero,
//! provided the target is two sub-units or more; the result is then still no
//! longer than the target.

use crate::fixed::{magnitude, norm_squared, Point, Vec2};
use vstd::prelude::*;

verus! {

/// The square of a number.
pub open spec fn square(x: int) -> int {
    x * x
}

/// `k` is the whole part of `length * target / sqrt(norm)`.
pub open spec fn is_scaled_length(k: int, length: int, norm: int, target: int) -> bool {
    &&& 0 <= k
    &&& square(k) * norm <= square(length * target)
    &&& square(length * target) < square(k + 1) * norm
}

/// The whole part of `length * target / sqrt(norm)`, for a positive `norm`.
pub open spec fn scaled_length(length: int, norm: int, target: int) -> int {
    choose|k: int| is_scaled_length(k, length, norm, target)
}

/// Length of a component of length `length` once the velocity has been
/// brought to `target`: the whole part of `length * target / sqrt(norm)`,
/// and one sub-unit instead where that whole part is zero though the
/// component is not, for a target of two sub-units or more.
pub open spec fn restored_length(length: int, norm: int, target: int) -> int {
    let whole = scaled_length(length, norm, target);
    if whole == 0 && length > 0 && target >= 2 {
        1
    } else {
        whole
    }
}

/// `k` if `like` is not negative, and `-k` if it is.
pub open spec fn with_sign_of(k: int, like: int) -> int {
    if like < 0 {
        -k
    } else {
        k
    }
}

/// The velocity `v` brought to the speed `target`: each component keeps its
/// sign, and its length is scaled by `target / |v|` and rounded toward zero,
/// but not to zero where the target is two sub-units or more. A velocity of
/// zero has no direction and stays zero.
pub open spec fn at_speed(v: Point, target: int) -> Point {
    if v.x == 0 && v.y == 0 {
        v
    } else {
        Point {
            x: with_sign_of(restored_length(magnitude(v.x), norm_squared(v), target), v.x),
            y: with_sign_of(restored_length(magnitude(v.y), norm_squared(v), target), v.y),
        }
    }
}

/// The speed of `v` is `target` to within one sub-unit on each axis: `v` is
/// no longer than `target`, and would be longer with one sub-unit more on
/// both components.
pub open spec fn is_near_speed(v: Point, target: int) -> bool {
    &&& norm_squared(v) <= square(target)
    &&& square(target) < square(magnitude(v.x) + 1) + square(magnitude(v.y) + 1)
}

proof fn lemma_square_grows(a: int, b: int)
    by (nonlinear_arith)
    requires
        0 <= a <= b,
    ensures
        a * a <= b * b,
        a < b ==> a * a < b * b,
        0 <= a * a,
{
}

proof fn lemma_multiple_grows(a: int, b: int, n: int)
    by (nonlinear_arith)
    requires
        n > 0,
    ensures
        a <= b ==> a * n <= b * n,
        a < b ==> a * n < b * n,
        a * n <= b * n ==> a <= b,
        a * n < b * n ==> a < b,
{
}

proof fn lemma_square_of_product(a: int, t: int)
    by (nonlinear_arith)
    ensures
        (a * t) * (a * t) == (a * a) * (t * t),
        0 <= (a * t) * (a * t),
        magnitude(a) * magnitude(a) == a * a,
{
}

/// At most one number is the whole part of `length * target / sqrt(norm)`.
pub proof fn lemma_scaled_length_unique(k1: int, k2: int, length: int, norm: int, target: int)
    requires
        norm > 0,
        is_scaled_length(k1, length, norm, target),
        is_scaled_length(k2, length, norm, target),
    ensures
        k1 == k2,
{
    if k1 < k2 {
        lemma_square_grows(k1 + 1, k2);
        lemma_multiple_grows(square(k1 + 1), square(k2), norm);
    } else if k2 < k1 {
        lemma_square_grows(k2 + 1, k1);
        lemma_multiple_grows(square(k2 + 1), square(k1), norm);
    }
}

/// Walks up from `k` to the whole part of `length * target / sqrt(norm)`.
proof fn lemma_scaled_length_from(k: int, length: int, norm: int, target: int) -> (r: int)
    requires
        norm > 0,
        0 <= k,
        square(k) * norm <= square(length * target),
    ensures
        is_scaled_length(r, length, norm, target),
    decreases square(length * target) - square(k) * norm,
{
    if square(length * target) < square(k + 1) * norm {
        k
    } else {
        lemma_square_grows(k, k + 1);
        lemma_multiple_grows(square(k), square(k + 1), norm);
        lemma_scaled_length_from(k + 1, length, norm, target)
    }
}

/// For a positive `norm` the whole part of `length * target / sqrt(norm)`
/// exists, so `scaled_length` is that number.
pub proof fn lemma_scaled_length_exists(length: int, norm: int, target: int)
    requires
        norm > 0,
    ensures
        is_scaled_length(scaled_length(length, norm, target), length, norm, target),
{
    lemma_square_of_product(length, target);
    assert(square(0) * norm == 0) by (nonlinear_arith);
    let k = lemma_scaled_length_from(0, length, norm, target);
}

/// Whatever passes for the whole part of `length * target / sqrt(norm)` is
/// `scaled_length`.
pub proof fn lemma_scaled_length_is(k: int, length: int, norm: int, target: int)
    requires
        norm > 0,
        is_scaled_length(k, length, norm, target),
    ensures
        scaled_length(length, norm, target) == k,
{
    lemma_scaled_length_unique(
        k,
        scaled_length(length, norm, target),
        length,
        norm,
        target,
    );
}

/// Where the whole part of one component is zero though the component is
/// not, the other component leaves room for one sub-unit.
proof fn lemma_room_for_one(a: int, b: int, n: int, target: int, ka: int, kb: int)
    requires
        target >= 2,
        a > 0,
        b >= 0,
        n == a * a + b * b,
        is_scaled_length(ka, a, n, target),
        is_scaled_length(kb, b, n, target),
        ka == 0,
    ensures
        b > 0 ==> kb > 0,
        kb < target,
        1 + square(kb) <= square(target),
{
    let tt = square(target);
    lemma_square_of_product(a, target);
    lemma_square_of_product(b, target);
    lemma_square_grows(2, target);
    assert(a * a > 0 && b * b >= 0) by (nonlinear_arith)
        requires
            a > 0,
    ;
    assert(square(1) * n == n) by (nonlinear_arith);
    assert(square(a * target) + square(b * target) == tt * n) by (nonlinear_arith)
        requires
            square(a * target) == (a * a) * (target * target),
            square(b * target) == (b * b) * (target * target),
            n == a * a + b * b,
            tt == target * target,
    ;
    if kb == 0 && b > 0 {
        assert(2 * n == n + n);
        lemma_multiple_grows(tt, 2, n);
    }
    if kb >= target {
        lemma_square_grows(target, kb);
        lemma_multiple_grows(tt, square(kb), n);
        assert((b * b) * tt == tt * (b * b)) by (nonlinear_arith);
        lemma_multiple_grows(n, b * b, tt);
        assert(n * tt == tt * n) by (nonlinear_arith);
    }
    lemma_square_grows(kb, target - 1);
    assert((target - 1) * (target - 1) + 1 <= target * target) by (nonlinear_arith)
        requires
            target >= 2,
    ;
}

/// A velocity brought to a target speed has that speed to within one
/// sub-unit on each axis and points the way it did. For a target of two
/// sub-units or more no component vanishes that was not zero before.
pub proof fn lemma_at_speed_is_near_target(v: Point, target: int)
    requires
        target >= 0,
        v.x != 0 || v.y != 0,
    ensures
        is_near_speed(at_speed(v, target), target),
        v.x >= 0 ==> at_speed(v, target).x >= 0,
        v.x <= 0 ==> at_speed(v, target).x <= 0,
        v.y >= 0 ==> at_speed(v, target).y >= 0,
        v.y <= 0 ==> at_speed(v, target).y <= 0,
        magnitude(at_speed(v, target).x) <= target,
        magnitude(at_speed(v, target).y) <= target,
        target >= 2 && v.x > 0 ==> at_speed(v, target).x > 0,
        target >= 2 && v.x < 0 ==> at_speed(v, target).x < 0,
        target >= 2 && v.y > 0 ==> at_speed(v, target).y > 0,
        target >= 2 && v.y < 0 ==> at_speed(v, target).y < 0,
{
    let a = magnitude(v.x);
    let b = magnitude(v.y);
    let n = norm_squared(v);
    lemma_square_of_product(v.x, target);
    lemma_square_of_product(v.y, target);
    lemma_square_of_product(a, target);
    lemma_square_of_product(b, target);
    assert(n == a * a + b * b);
    assert(a * a >= 0 && b * b >= 0 && (a > 0 ==> a * a > 0) && (b > 0 ==> b * b > 0))
        by (nonlinear_arith);
    assert(n > 0);
    lemma_scaled_length_exists(a, n, target);
    lemma_scaled_length_exists(b, n, target);
    let kx = scaled_length(a, n, target);
    let ky = scaled_length(b, n, target);
    let rx = restored_length(a, n, target);
    let ry = restored_length(b, n, target);
    let r = at_speed(v, target);
    assert(magnitude(r.x) == rx && magnitude(r.y) == ry);
    lemma_square_of_product(r.x, 1);
    lemma_square_of_product(r.y, 1);
    assert(norm_squared(r) == square(rx) + square(ry));
    let tt = square(target);
    assert(square(a * target) + square(b * target) == n * tt) by (nonlinear_arith)
        requires
            square(a * target) == (a * a) * (target * target),
            square(b * target) == (b * b) * (target * target),
            n == a * a + b * b,
            tt == target * target,
    ;
    assert((square(kx) + square(ky)) * n == square(kx) * n + square(ky) * n)
        by (nonlinear_arith);
    assert((square(kx + 1) + square(ky + 1)) * n == square(kx + 1) * n + square(ky + 1) * n)
        by (nonlinear_arith);
    assert(n * tt == tt * n) by (nonlinear_arith);
    lemma_multiple_grows(square(kx) + square(ky), tt, n);
    lemma_multiple_grows(tt, square(kx + 1) + square(ky + 1), n);
    assert(square(kx) >= 0 && square(ky) >= 0) by (nonlinear_arith);
    if a == 0 && kx > 0 {
        lemma_square_grows(0, kx);
        lemma_multiple_grows(0, square(kx), n);
    }
    if b == 0 && ky > 0 {
        lemma_square_grows(0, ky);
        lemma_multiple_grows(0, square(ky), n);
    }
    if kx > target {
        lemma_square_grows(target, kx);
    }
    if ky > target {
        lemma_square_grows(target, ky);
    }
    // The whole parts are near the target; one sub-unit more on a component
    // keeps the result below it and can only help the upper bound.
    lemma_square_grows(kx + 1, rx + 1);
    lemma_square_grows(ky + 1, ry + 1);
    if rx != kx {
        lemma_room_for_one(a, b, n, target, kx, ky);
        assert(square(1) == 1) by (nonlinear_arith);
    }
    if ry != ky {
        lemma_room_for_one(b, a, n, target, ky, kx);
        assert(square(1) == 1) by (nonlinear_arith);
    }
}

/// Bounds that keep the search below within 128 bits.
proof fn lemma_search_bounds(length: int, norm: int, target: int, k: int)
    by (nonlinear_arith)
    requires
        0 <= length < 0x1_0000_0000,
        0 <= target < 0x8000_0000,
        0 < norm <= 0x2_0000_0000_0000_0000,
        0 <= k <= target,
    ensures
        length * target < 0x8000_0000_0000_0000,
        (length * target) * (length * target) < 0x4000_0000_0000_0000_0000_0000_0000_0000,
        k * k < 0x4000_0000_0000_0000,
        (k * k) * norm < 0x8000_0000_0000_0000_0000_0000_0000_0000,
{
}

/// The search below starts from true bounds: zero is not too large, and
/// `target + 1` is.
proof fn lemma_search_start(length: int, norm: int, target: int)
    requires
        0 <= length,
        0 <= target,
        length * length <= norm,
        0 < norm,
    ensures
        square(0) * norm <= square(length * target),
        square(length * target) < square(target + 1) * norm,
{
    lemma_square_of_product(length, target);
    assert(square(0) * norm == 0) by (nonlinear_arith);
    let tt = target * target;
    assert(0 <= tt < square(target + 1)) by (nonlinear_arith)
        requires
            0 <= target,
            tt == target * target,
    ;
    assert((length * length) * tt <= norm * tt) by (nonlinear_arith)
        requires
            length * length <= norm,
            0 <= tt,
    ;
    assert(norm * tt < square(target + 1) * norm) by (nonlinear_arith)
        requires
            tt < square(target + 1),
            0 < norm,
    ;
}

/// Computes the whole part of `length * target / sqrt(norm)` by bisection.
fn scale_length(length: u64, norm: u128, target: u64) -> (k: u64)
    requires
        length < 0x1_0000_0000,
        target < 0x8000_0000,
        0 < norm <= 0x2_0000_0000_0000_0000,
        length * length <= norm,
    ensures
        k == scaled_length(length as int, norm as int, target as int),
        k <= target,
{
    proof {
        lemma_search_bounds(length as int, norm as int, target as int, 0);
        lemma_search_start(length as int, norm as int, target as int);
    }
    let reach: u128 = (length as u128) * (target as u128);
    let goal: u128 = reach * reach;
    let mut lo: u64 = 0;
    let mut hi: u64 = target + 1;
    while hi - lo > 1
        invariant
            lo < hi <= target + 1,
            length < 0x1_0000_0000,
            target < 0x8000_0000,
            0 < norm <= 0x2_0000_0000_0000_0000,
            goal == square(length * target),
            square(lo as int) * norm <= goal,
            goal < square(hi as int) * norm,
        decreases hi - lo,
    {
        let mid: u64 = lo + (hi - lo) / 2;
        proof {
            lemma_search_bounds(length as int, norm as int, target as int, mid as int);
        }
        let mid_square: u128 = (mid as u128) * (mid as u128);
        if mid_square * norm <= goal {
            lo = mid;
        } else {
            hi = mid;
        }
    }
    proof {
        lemma_scaled_length_is(lo as int, length as int, norm as int, target as int);
    }
    lo
}

/// Brings the velocity `(x, y)` to the speed `target`.
pub(crate) fn rescale(x: i64, y: i64, target: i32) -> (r: Vec2)
    requires
        -0x1_0000_0000 < x < 0x1_0000_0000,
        -0x1_0000_0000 < y < 0x1_0000_0000,
        target >= 0,
    ensures
        r@ == at_speed(Point { x: x as int, y: y as int }, target as int),
        magnitude(r.x as int) <= target,
        magnitude(r.y as int) <= target,
{
    if x == 0 && y == 0 {
        return Vec2 { x: 0, y: 0 };
    }
    let a: u64 = if x < 0 {
        (-x) as u64
    } else {
        x as u64
    };
    let b: u64 = if y < 0 {
        (-y) as u64
    } else {
        y as u64
    };
    proof {
        lemma_square_of_product(x as int, 1);
        lemma_square_of_product(y as int, 1);
        assert(a * a < 0x1_0000_0000_0000_0000 && b * b < 0x1_0000_0000_0000_0000 && a * a >= 0
            && b * b >= 0 && (a > 0 ==> a * a > 0) && (b > 0 ==> b * b > 0)) by (nonlinear_arith)
            requires
                a < 0x1_0000_0000,
                b < 0x1_0000_0000,
        ;
    }
    let norm: u128 = (a as u128) * (a as u128) + (b as u128) * (b as u128);
    let whole_x: u64 = scale_length(a, norm, target as u64);
    let whole_y: u64 = scale_length(b, norm, target as u64);
    let kx: u64 = if whole_x == 0 && a > 0 && target >= 2 {
        1
    } else {
        whole_x
    };
    let ky: u64 = if whole_y == 0 && b > 0 && target >= 2 {
        1
    } else {
        whole_y
    };
    Vec2 {
        x: if x < 0 {
            -(kx as i32)
        } else {
            kx as i32
        },
        y: if y < 0 {
            -(ky as i32)
        } else {
            ky as i32
        },
    }
}

/// Brings a velocity to the speed `target` without turning it. A velocity of
/// zero is returned as it is.
pub fn keep_speed(velocity: Vec2, target: i32) -> (r: Vec2)
    requires
        target >= 0,
    ensures
        r@ == at_speed(velocity@, target as int),
        velocity.x != 0 || velocity.y != 0 ==> is_near_speed(r@, target as int),
        target >= 2 && velocity.x > 0 ==> r.x > 0,
        target >= 2 && velocity.x < 0 ==> r.x < 0,
        target >= 2 && velocity.y > 0 ==> r.y > 0,
        target >= 2 && velocity.y < 0 ==> r.y < 0,
{
    proof {
        if velocity.x != 0 || velocity.y != 0 {
            lemma_at_speed_is_near_target(velocity@, target as int);
        }
    }
    rescale(velocity.x as i64, velocity.y as i64, target)
}

} // verus!
