//! The paddle controller: held keys become an acceleration, released keys a
//! deceleration, and the paddle never leaves the arena.

use crate::fixed::{advance, clamp, clamped, magnitude, travel, Point, Vec2};
use crate::viewport::{WindowViewport, DEFAULT_VIRTUAL_HEIGHT, DEFAULT_VIRTUAL_WIDTH};
use vstd::prelude::*;

verus! {

/// Acceleration of the paddle in the default setup, per second squared.
pub const PADDLE_ACCELERATION: i32 = 2_500_000;

/// Width of the paddle in the default setup: a tenth of the default
/// virtual width.
pub const PADDLE_WIDTH: i32 = 128_000;

/// Height of the paddle in the default setup: a fortieth of the default
/// virtual height.
pub const PADDLE_HEIGHT: i32 = 18_000;

/// Greatest speed of the paddle in the default setup, per second.
pub const PADDLE_SPEED: i32 = 750_000;

/// Height at which the paddle moves in the default setup: twice its own
/// height above the bottom of the default virtual resolution.
pub const PADDLE_START_Y: i32 = -324_000;

/// The paddle as the contracts see it.
pub struct PaddleModel {
    pub position: Point,
    pub velocity: int,
}

/// The paddle: where its centre is and how fast it moves along the x axis.
#[derive(Clone, Copy, Debug, PartialEq, Eq)]
pub struct Paddle {
    pub position: Vec2,
    pub velocity: i32,
}

impl View for Paddle {
    type V = PaddleModel;

    open spec fn view(&self) -> PaddleModel {
        PaddleModel { position: self.position@, velocity: self.velocity as int }
    }
}

/// What a session fixes about its paddle.
#[derive(Clone, Copy, Debug, PartialEq, Eq)]
pub struct PaddleConfig {
    /// Half of the paddle's width.
    pub half_width: i32,
    /// Half of the paddle's height.
    pub half_height: i32,
    /// Rate at which the velocity grows under input and shrinks without.
    pub acceleration: i32,
    /// Greatest speed that input can bring the paddle to.
    pub max_speed: i32,
}

impl PaddleConfig {
    /// No entry is negative.
    pub open spec fn valid(self) -> bool {
        &&& self.half_width >= 0
        &&& self.half_height >= 0
        &&& self.acceleration >= 0
        &&& self.max_speed >= 0
    }

    /// Tells whether the configuration is valid.
    pub fn check(&self) -> (b: bool)
        ensures
            b == self.valid(),
    {
        self.half_width >= 0 && self.half_height >= 0 && self.acceleration >= 0 && self.max_speed
            >= 0
    }
}

impl Default for PaddleConfig {
    fn default() -> (r: Self)
        ensures
            r.valid(),
            r.half_width == PADDLE_WIDTH / 2,
            r.half_height == PADDLE_HEIGHT / 2,
            r.acceleration == PADDLE_ACCELERATION,
            r.max_speed == PADDLE_SPEED,
    {
        PaddleConfig {
            half_width: PADDLE_WIDTH / 2,
            half_height: PADDLE_HEIGHT / 2,
            acceleration: PADDLE_ACCELERATION,
            max_speed: PADDLE_SPEED,
        }
    }
}

/// The paddle at rest in the middle of its track.
pub fn create_paddle() -> (paddle: Paddle)
    ensures
        paddle@ == (PaddleModel { position: Point { x: 0, y: PADDLE_START_Y as int }, velocity: 0 }),
{
    Paddle { position: Vec2 { x: 0, y: PADDLE_START_Y }, velocity: 0 }
}

/// The direction that the two keys ask for: -1 for left, 1 for right, and 0
/// where neither or both are held.
pub open spec fn direction(left: bool, right: bool) -> int {
    (if right {
        1int
    } else {
        0int
    }) - (if left {
        1int
    } else {
        0int
    })
}

/// Velocity after one tick without input: it moves toward zero by `change`
/// and stops at zero instead of passing it.
pub open spec fn slowed(velocity: int, change: int) -> int {
    if magnitude(velocity) <= change {
        0
    } else if velocity > 0 {
        velocity - change
    } else {
        velocity + change
    }
}

/// Velocity after one tick: under input it changes by `change` in the
/// direction asked for and is clamped to the greatest speed; without input
/// it slows down.
pub open spec fn next_velocity(velocity: int, direction: int, change: int, max_speed: int) -> int {
    if direction > 0 {
        clamped(velocity + change, -max_speed, max_speed)
    } else if direction < 0 {
        clamped(velocity - change, -max_speed, max_speed)
    } else {
        slowed(velocity, change)
    }
}

/// The leftmost place that the paddle's centre may take.
pub open spec fn leftmost(half_world_width: int, half_paddle_width: int) -> int {
    -half_world_width + half_paddle_width
}

/// The rightmost place that the paddle's centre may take.
pub open spec fn rightmost(half_world_width: int, half_paddle_width: int) -> int {
    half_world_width - half_paddle_width
}

/// The paddle after one tick of `ticks` microseconds: first the velocity
/// changes, then the paddle moves by the new velocity, then it is put back
/// between the leftmost and the rightmost place. Where the paddle is wider
/// than the arena the leftmost place lies right of the rightmost one; the
/// paddle is then put on the leftmost place if it is left of it, and on the
/// rightmost place otherwise.
pub open spec fn stepped(
    paddle: PaddleModel,
    direction: int,
    half_world_width: int,
    config: PaddleConfig,
    ticks: int,
) -> PaddleModel {
    let velocity = next_velocity(
        paddle.velocity,
        direction,
        travel(config.acceleration as int, ticks),
        config.max_speed as int,
    );
    PaddleModel {
        position: Point {
            x: clamped(
                paddle.position.x + travel(velocity, ticks),
                leftmost(half_world_width, config.half_width as int),
                rightmost(half_world_width, config.half_width as int),
            ),
            y: paddle.position.y,
        },
        velocity,
    }
}

/// Reduces the two keys to a direction.
pub fn read_direction(left: bool, right: bool) -> (d: i8)
    ensures
        d == direction(left, right),
{
    let mut d: i8 = 0;
    if left {
        d = d - 1;
    }
    if right {
        d = d + 1;
    }
    d
}

/// Moves the paddle through one tick of `ticks` microseconds, with the left
/// and right keys held or not.
///
/// A paddle that fits into the arena is inside it afterwards. For a paddle
/// wider than the arena there is no such place: the velocity follows the
/// same rule, and the paddle is put on the nearer of the two limits.
pub fn paddle_movement_system(
    left: bool,
    right: bool,
    ticks: u32,
    viewport: &WindowViewport,
    config: &PaddleConfig,
    paddle: &mut Paddle,
)
    requires
        config.valid(),
        viewport.half_width >= 0,
    ensures
        final(paddle)@ == stepped(
            old(paddle)@,
            direction(left, right),
            viewport.half_width as int,
            *config,
            ticks as int,
        ),
        final(paddle).velocity == next_velocity(
            old(paddle).velocity as int,
            direction(left, right),
            travel(config.acceleration as int, ticks as int),
            config.max_speed as int,
        ),
        config.half_width <= viewport.half_width ==> leftmost(
            viewport.half_width as int,
            config.half_width as int,
        ) <= final(paddle).position.x <= rightmost(
            viewport.half_width as int,
            config.half_width as int,
        ),
{
    let direction = read_direction(left, right);
    let change: i64 = advance(config.acceleration, ticks);
    let max_speed: i64 = config.max_speed as i64;
    let old_velocity: i64 = paddle.velocity as i64;
    let velocity: i64 = if direction > 0 {
        clamp(old_velocity + change, -max_speed, max_speed)
    } else if direction < 0 {
        clamp(old_velocity - change, -max_speed, max_speed)
    } else if old_velocity <= change && -old_velocity <= change {
        0
    } else if old_velocity > 0 {
        old_velocity - change
    } else {
        old_velocity + change
    };
    paddle.velocity = velocity as i32;
    let moved: i64 = paddle.position.x as i64 + advance(paddle.velocity, ticks);
    let lo: i64 = -(viewport.half_width as i64) + config.half_width as i64;
    let hi: i64 = viewport.half_width as i64 - config.half_width as i64;
    let placed: i64 = clamp(moved, lo, hi);
    paddle.position.x = placed as i32;
}

/// The default paddle is a tenth of the default virtual width wide and a
/// fortieth of the default virtual height high, and it moves twice its own
/// height above the bottom of the default virtual resolution.
pub proof fn lemma_default_paddle()
    ensures
        PADDLE_WIDTH == DEFAULT_VIRTUAL_WIDTH / 10,
        PADDLE_HEIGHT == DEFAULT_VIRTUAL_HEIGHT / 40,
        PADDLE_START_Y == -(DEFAULT_VIRTUAL_HEIGHT / 2) + 2 * PADDLE_HEIGHT,
{
}

/// Velocity after `steps` ticks without input, each of which changes it by
/// `change`.
pub open spec fn coasted(velocity: int, change: int, steps: nat) -> int
    decreases steps,
{
    if steps == 0 {
        velocity
    } else {
        slowed(coasted(velocity, change, (steps - 1) as nat), change)
    }
}

/// After a tick a paddle that fits into the arena is inside it, whatever
/// its velocity was, however long the tick and whatever the input.
pub proof fn lemma_paddle_stays_in_arena(
    paddle: PaddleModel,
    direction: int,
    half_world_width: int,
    config: PaddleConfig,
    ticks: int,
)
    requires
        config.half_width <= half_world_width,
    ensures
        leftmost(half_world_width, config.half_width as int) <= stepped(
            paddle,
            direction,
            half_world_width,
            config,
            ticks,
        ).position.x <= rightmost(half_world_width, config.half_width as int),
{
}

/// Under input the speed never exceeds the greatest speed.
pub proof fn lemma_input_respects_max_speed(
    velocity: int,
    direction: int,
    change: int,
    max_speed: int,
)
    requires
        direction != 0,
        max_speed >= 0,
    ensures
        magnitude(next_velocity(velocity, direction, change, max_speed)) <= max_speed,
{
}

/// Without input the paddle never speeds up and never turns round: its
/// velocity stays on its side of zero and gets no farther from it. It is
/// zero exactly where the speed was no more than the tick's change, and
/// otherwise the speed has shrunk by that change.
pub proof fn lemma_coasting_slows_down(velocity: int, change: int, max_speed: int)
    requires
        change >= 0,
    ensures
        next_velocity(velocity, 0, change, max_speed) == slowed(velocity, change),
        magnitude(slowed(velocity, change)) <= magnitude(velocity),
        velocity >= 0 ==> slowed(velocity, change) >= 0,
        velocity <= 0 ==> slowed(velocity, change) <= 0,
        change > 0 && velocity != 0 ==> magnitude(slowed(velocity, change)) < magnitude(velocity),
        slowed(velocity, change) == 0 <==> magnitude(velocity) <= change,
        magnitude(velocity) > change ==> magnitude(slowed(velocity, change)) == magnitude(velocity)
            - change,
{
}

/// Without input the speed after `steps` ticks is the speed at the start
/// less `steps` times `change`, or zero where that would be negative.
pub proof fn lemma_coasting_speed(velocity: int, change: int, steps: nat)
    requires
        change >= 0,
    ensures
        magnitude(coasted(velocity, change, steps)) == if magnitude(velocity) <= steps * change {
            0
        } else {
            magnitude(velocity) - steps * change
        },
        velocity >= 0 ==> coasted(velocity, change, steps) >= 0,
        velocity <= 0 ==> coasted(velocity, change, steps) <= 0,
    decreases steps,
{
    if steps > 0 {
        let before = (steps - 1) as nat;
        lemma_coasting_speed(velocity, change, before);
        assert(steps * change == before * change + change) by (nonlinear_arith)
            requires
                before == steps - 1,
        ;
        assert(before * change >= 0) by (nonlinear_arith)
            requires
                before >= 0,
                change >= 0,
        ;
    }
}

/// Without input the paddle comes to rest, at exactly zero, as soon as the
/// ticks gone by make up for its speed, and it stays at rest from then on.
pub proof fn lemma_coasting_comes_to_rest(velocity: int, change: int, steps: nat)
    requires
        change >= 0,
        steps * change >= magnitude(velocity),
    ensures
        coasted(velocity, change, steps) == 0,
        coasted(velocity, change, steps + 1) == 0,
{
    lemma_coasting_speed(velocity, change, steps);
}

} // verus!
