//! A paddle without inertia: it moves at full speed while a key is held and
//! stands still otherwise.

use crate::fixed::{advance, clamp, clamped, travel, Point, Vec2};
use crate::game::paddle::{direction, leftmost, read_direction, rightmost};
use crate::viewport::{WindowViewport, DEFAULT_VIRTUAL_HEIGHT, DEFAULT_VIRTUAL_WIDTH};
use vstd::prelude::*;

verus! {

/// Height at which this paddle moves.
pub const PADDLE_START_Y: i32 = 0;

/// Width of this paddle: half the default virtual width.
pub const PADDLE_WIDTH: i32 = 640_000;

/// Height of this paddle: half the default virtual height.
pub const PADDLE_HEIGHT: i32 = 360_000;

/// Speed of this paddle, per second.
pub const PADDLE_SPEED: i32 = 650_000;

/// The paddle: where its centre is.
#[derive(Clone, Copy, Debug, PartialEq, Eq)]
pub struct Paddle {
    pub position: Vec2,
}

impl View for Paddle {
    type V = Point;

    open spec fn view(&self) -> Point {
        self.position@
    }
}

/// The paddle in the middle of its track.
pub fn create_paddle() -> (paddle: Paddle)
    ensures
        paddle@ == (Point { x: 0, y: PADDLE_START_Y as int }),
{
    Paddle { position: Vec2 { x: 0, y: PADDLE_START_Y } }
}

/// This paddle is half as wide and half as high as the default virtual
/// resolution.
pub proof fn lemma_default_paddle()
    ensures
        PADDLE_WIDTH == DEFAULT_VIRTUAL_WIDTH / 2,
        PADDLE_HEIGHT == DEFAULT_VIRTUAL_HEIGHT / 2,
{
}

/// The paddle's centre after one tick of `ticks` microseconds: it moves at
/// full speed in the direction asked for and is put back inside the arena.
pub open spec fn stepped(paddle: Point, direction: int, half_world_width: int, ticks: int) -> Point {
    Point {
        x: clamped(
            paddle.x + travel(direction * PADDLE_SPEED, ticks),
            leftmost(half_world_width, PADDLE_WIDTH / 2),
            rightmost(half_world_width, PADDLE_WIDTH / 2),
        ),
        y: paddle.y,
    }
}

/// Moves the paddle through one tick of `ticks` microseconds, with the left
/// and right keys held or not. A paddle that fits into the arena is inside
/// it afterwards; in an arena narrower than the paddle it is put on the
/// nearer of the two limits.
pub fn paddle_movement_system(
    left: bool,
    right: bool,
    ticks: u32,
    viewport: &WindowViewport,
    paddle: &mut Paddle,
)
    requires
        viewport.half_width >= 0,
    ensures
        final(paddle)@ == stepped(
            old(paddle)@,
            direction(left, right),
            viewport.half_width as int,
            ticks as int,
        ),
        PADDLE_WIDTH / 2 <= viewport.half_width ==> leftmost(
            viewport.half_width as int,
            PADDLE_WIDTH / 2,
        ) <= final(paddle).position.x <= rightmost(viewport.half_width as int, PADDLE_WIDTH / 2),
{
    let direction = read_direction(left, right);
    let velocity: i32 = if direction > 0 {
        PADDLE_SPEED
    } else if direction < 0 {
        -PADDLE_SPEED
    } else {
        0
    };
    let moved: i64 = paddle.position.x as i64 + advance(velocity, ticks);
    let half_paddle_width: i64 = (PADDLE_WIDTH / 2) as i64;
    let lo: i64 = -(viewport.half_width as i64) + half_paddle_width;
    let hi: i64 = viewport.half_width as i64 - half_paddle_width;
    let placed: i64 = clamp(moved, lo, hi);
    paddle.position.x = placed as i32;
}

} // verus!
