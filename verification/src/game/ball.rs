//! The ball: how it moves, how it keeps its speed, how it comes off the
//! walls and the paddle, and how it starts again after falling out.
//!
//! Two ways of resolving collisions are offered. The reflecting one needs
//! no solver: [`integrate`] moves the ball, [`ball_reflection_system`] turns
//! it round at the edges of the arena and [`ball_paddle_reflection_system`]
//! at the paddle. The other one leaves the motion to a rigid-body solver:
//! [`ball_physics_system`] keeps the speed constant, puts a ball that has
//! crossed an edge back on it, and restarts a ball that has fallen out at
//! the bottom, while [`ball_paddle_collision_system`] answers the solver's
//! contact events. [`resolve_collisions`] runs either of the two.

use crate::chance::coin_flip;
use crate::fixed::{
    advance,
    div_toward_zero,
    magnitude,
    norm_squared,
    origin,
    representable,
    travel,
    Point,
    Vec2,
};
use crate::game::paddle::{Paddle, PaddleConfig, PADDLE_HEIGHT, PADDLE_SPEED};
use crate::game::speed::{at_speed, is_near_speed, lemma_at_speed_is_near_target, rescale, square};
use crate::viewport::WindowViewport;
use vstd::prelude::*;

verus! {

/// Speed of the ball in the default setup: three quarters of the paddle's
/// greatest speed.
pub const BALL_SPEED: i32 = 562_500;

/// Radius of the ball in the default setup: half the paddle's height.
pub const BALL_RADIUS: i32 = 9_000;

/// Share of the paddle's velocity that a strike gives to the ball, as the
/// fraction `PADDLE_INFLUENCE_NUMERATOR / PADDLE_INFLUENCE_DENOMINATOR`.
pub const PADDLE_INFLUENCE_NUMERATOR: i64 = 3;

pub const PADDLE_INFLUENCE_DENOMINATOR: i64 = 10;

/// The ball as the contracts see it.
pub struct BallModel {
    pub position: Point,
    pub velocity: Point,
}

/// The ball: where its centre is and how it moves.
#[derive(Clone, Copy, Debug, PartialEq, Eq)]
pub struct Ball {
    pub position: Vec2,
    pub velocity: Vec2,
}

impl View for Ball {
    type V = BallModel;

    open spec fn view(&self) -> BallModel {
        BallModel { position: self.position@, velocity: self.velocity@ }
    }
}

/// What a session fixes about its ball.
#[derive(Clone, Copy, Debug, PartialEq, Eq)]
pub struct BallConfig {
    /// Radius of the ball.
    pub radius: i32,
    /// Speed that the ball is kept at.
    pub target_speed: i32,
}

impl BallConfig {
    /// No entry is negative.
    pub open spec fn valid(self) -> bool {
        self.radius >= 0 && self.target_speed >= 0
    }

    /// Tells whether the configuration is valid.
    pub fn check(&self) -> (b: bool)
        ensures
            b == self.valid(),
    {
        self.radius >= 0 && self.target_speed >= 0
    }
}

impl Default for BallConfig {
    fn default() -> (r: Self)
        ensures
            r.valid(),
            r.radius == BALL_RADIUS,
            r.target_speed == BALL_SPEED,
    {
        BallConfig { radius: BALL_RADIUS, target_speed: BALL_SPEED }
    }
}

/// A kind of body that can take part in a collision.
#[derive(Clone, Copy, Debug, PartialEq, Eq)]
pub enum Body {
    Ball,
    Paddle,
    Wall,
    /// A body that could not be told.
    Unknown,
}

/// A notification of the rigid-body solver: two bodies have started, or
/// have stopped, touching.
#[derive(Clone, Copy, Debug, PartialEq, Eq)]
pub enum CollisionEvent {
    Started(Body, Body),
    Stopped(Body, Body),
}

/// The way in which collisions are resolved, chosen once for a session.
#[derive(Clone, Copy, Debug, PartialEq, Eq)]
pub enum CollisionStrategy {
    /// Velocities change sign at the edges of the arena and at the paddle,
    /// which counts as one more wall; the ball is not moved.
    Reflection,
    /// A rigid-body solver moves the ball and reports contacts; the ball is
    /// put back on the edge it has crossed, restarts when it has fallen out,
    /// and is bent by the paddle.
    Dynamics,
}

/// The vector `(x, y)` with each component kept or negated.
pub open spec fn signed_pair(x: int, y: int, keep_x: bool, keep_y: bool) -> Point {
    Point {
        x: if keep_x {
            x
        } else {
            -x
        },
        y: if keep_y {
            y
        } else {
            -y
        },
    }
}

/// `v` is one of the four diagonals `(±speed, ±speed)`.
pub open spec fn is_diagonal(v: Point, speed: int) -> bool {
    magnitude(v.x) == magnitude(speed) && magnitude(v.y) == magnitude(speed)
}

/// The ball after `ticks` microseconds of free motion.
pub open spec fn integrated(ball: BallModel, ticks: int) -> BallModel {
    BallModel {
        position: Point {
            x: ball.position.x + travel(ball.velocity.x, ticks),
            y: ball.position.y + travel(ball.velocity.y, ticks),
        },
        velocity: ball.velocity,
    }
}

/// The ball touches or has crossed the left or the right edge.
pub open spec fn at_side_edge(ball: BallModel, half_width: int, radius: int) -> bool {
    ball.position.x - radius <= -half_width || ball.position.x + radius >= half_width
}

/// The ball touches or has crossed the top or the bottom edge.
pub open spec fn at_level_edge(ball: BallModel, half_height: int, radius: int) -> bool {
    ball.position.y - radius <= -half_height || ball.position.y + radius >= half_height
}

/// The ball after the reflecting resolver: at a side edge the horizontal
/// velocity changes sign, at the top or bottom edge the vertical one does,
/// and the ball stays where it is.
pub open spec fn reflected(
    ball: BallModel,
    half_width: int,
    half_height: int,
    radius: int,
) -> BallModel {
    BallModel {
        position: ball.position,
        velocity: Point {
            x: if at_side_edge(ball, half_width, radius) {
                -ball.velocity.x
            } else {
                ball.velocity.x
            },
            y: if at_level_edge(ball, half_height, radius) {
                -ball.velocity.y
            } else {
                ball.velocity.y
            },
        },
    }
}

/// The bounding box of the ball meets the bounding box of the paddle.
pub open spec fn touches_paddle(
    ball: BallModel,
    radius: int,
    paddle: Point,
    paddle_config: PaddleConfig,
) -> bool {
    &&& ball.position.x + radius >= paddle.x - paddle_config.half_width
    &&& ball.position.x - radius <= paddle.x + paddle_config.half_width
    &&& ball.position.y + radius >= paddle.y - paddle_config.half_height
    &&& ball.position.y - radius <= paddle.y + paddle_config.half_height
}

/// The ball after the reflecting resolver has tried the paddle: a ball that
/// touches the paddle has its vertical velocity negated, as at the top or
/// bottom edge, and the ball stays where it is.
pub open spec fn reflected_off_paddle(
    ball: BallModel,
    radius: int,
    paddle: Point,
    paddle_config: PaddleConfig,
) -> BallModel {
    if touches_paddle(ball, radius, paddle, paddle_config) {
        BallModel {
            position: ball.position,
            velocity: Point { x: ball.velocity.x, y: -ball.velocity.y },
        }
    } else {
        ball
    }
}

/// A ball that has reached the left edge while moving left is put on the
/// edge and sent right.
pub open spec fn bounced_left(ball: BallModel, half_width: int, radius: int) -> BallModel {
    if ball.position.x - radius <= -half_width && ball.velocity.x < 0 {
        BallModel {
            position: Point { x: -half_width + radius, y: ball.position.y },
            velocity: Point { x: -ball.velocity.x, y: ball.velocity.y },
        }
    } else {
        ball
    }
}

/// A ball that has reached the right edge while moving right is put on the
/// edge and sent left.
pub open spec fn bounced_right(ball: BallModel, half_width: int, radius: int) -> BallModel {
    if ball.position.x + radius >= half_width && ball.velocity.x > 0 {
        BallModel {
            position: Point { x: half_width - radius, y: ball.position.y },
            velocity: Point { x: -ball.velocity.x, y: ball.velocity.y },
        }
    } else {
        ball
    }
}

/// A ball that has reached the top edge while moving up is put on the edge
/// and sent down.
pub open spec fn bounced_top(ball: BallModel, half_height: int, radius: int) -> BallModel {
    if ball.position.y + radius >= half_height && ball.velocity.y > 0 {
        BallModel {
            position: Point { x: ball.position.x, y: half_height - radius },
            velocity: Point { x: ball.velocity.x, y: -ball.velocity.y },
        }
    } else {
        ball
    }
}

/// The ball after its speed has been restored and the left, right and top
/// edges have been tried, in this order.
pub open spec fn bounced_off_walls(
    ball: BallModel,
    half_width: int,
    half_height: int,
    config: BallConfig,
) -> BallModel {
    let paced = BallModel {
        position: ball.position,
        velocity: at_speed(ball.velocity, config.target_speed as int),
    };
    bounced_top(
        bounced_right(
            bounced_left(paced, half_width, config.radius as int),
            half_width,
            config.radius as int,
        ),
        half_height,
        config.radius as int,
    )
}

/// The ball touches or has crossed the bottom edge, which no wall closes.
pub open spec fn has_fallen(ball: BallModel, half_height: int, radius: int) -> bool {
    ball.position.y - radius <= -half_height
}

/// Two bodies have started touching, and they are the ball and the paddle,
/// in either order.
pub open spec fn is_ball_paddle_contact(event: CollisionEvent) -> bool {
    event == CollisionEvent::Started(Body::Ball, Body::Paddle) || event == CollisionEvent::Started(
        Body::Paddle,
        Body::Ball,
    )
}

/// What the paddle's velocity adds to the ball's horizontal velocity.
pub open spec fn influence(paddle_velocity: int) -> int {
    div_toward_zero(
        paddle_velocity * PADDLE_INFLUENCE_NUMERATOR,
        PADDLE_INFLUENCE_DENOMINATOR as int,
    )
}

/// Velocity of the ball after the paddle has struck it: the paddle's
/// influence is added, a downward motion is turned upward, and the speed is
/// restored.
pub open spec fn struck(v: Point, paddle_velocity: int, target: int) -> Point {
    at_speed(Point { x: v.x + influence(paddle_velocity), y: magnitude(v.y) }, target)
}

/// Velocity of the ball after a sequence of events, of which every contact
/// of ball and paddle strikes the ball and every other one is passed over.
pub open spec fn after_events(
    events: Seq<CollisionEvent>,
    v: Point,
    paddle_velocity: int,
    target: int,
) -> Point
    decreases events.len(),
{
    if events.len() == 0 {
        v
    } else {
        let before = after_events(events.drop_last(), v, paddle_velocity, target);
        if is_ball_paddle_contact(events.last()) {
            struck(before, paddle_velocity, target)
        } else {
            before
        }
    }
}

/// `after` is what the dynamics resolver makes of `before`: the wall step
/// first, with a restart on some diagonal where the ball has fallen out,
/// and then the events of the tick.
pub open spec fn is_dynamics_outcome(
    after: BallModel,
    before: BallModel,
    half_width: int,
    half_height: int,
    config: BallConfig,
    events: Seq<CollisionEvent>,
    paddle_velocity: int,
) -> bool {
    let target = config.target_speed as int;
    let bounced = bounced_off_walls(before, half_width, half_height, config);
    if has_fallen(bounced, half_height, config.radius as int) {
        exists|keep_x: bool, keep_y: bool|
            after == (BallModel {
                position: origin(),
                velocity: after_events(
                    events,
                    #[trigger] signed_pair(target, target, keep_x, keep_y),
                    paddle_velocity,
                    target,
                ),
            })
    } else {
        after == (BallModel {
            position: bounced.position,
            velocity: after_events(events, bounced.velocity, paddle_velocity, target),
        })
    }
}

/// Builds the vector `(x, y)` with each component kept or negated.
pub fn choose_signs(x: i32, y: i32, keep_x: bool, keep_y: bool) -> (v: Vec2)
    requires
        x > i32::MIN,
        y > i32::MIN,
    ensures
        v@ == signed_pair(x as int, y as int, keep_x, keep_y),
{
    Vec2 {
        x: if keep_x {
            x
        } else {
            -x
        },
        y: if keep_y {
            y
        } else {
            -y
        },
    }
}

/// Gives each component of `vector` the length asked for and a sign drawn by
/// a fair coin, one toss per axis. Whatever the coins show, the lengths are
/// those asked for, so a length other than zero gives a component other
/// than zero.
pub fn randomize_velocity(vector: &mut Vec2, x: i32, y: i32)
    requires
        x > i32::MIN,
        y > i32::MIN,
    ensures
        exists|keep_x: bool, keep_y: bool|
            final(vector)@ == #[trigger] signed_pair(x as int, y as int, keep_x, keep_y),
        magnitude(final(vector).x as int) == magnitude(x as int),
        magnitude(final(vector).y as int) == magnitude(y as int),
        norm_squared(final(vector)@) == x * x + y * y,
        x != 0 ==> final(vector).x != 0,
        y != 0 ==> final(vector).y != 0,
{
    let keep_x = coin_flip();
    let keep_y = coin_flip();
    proof {
        lemma_signs_do_not_change_speed(Point { x: x as int, y: y as int }, keep_x, keep_y, 0);
    }
    *vector = choose_signs(x, y, keep_x, keep_y);
}

/// A ball at the centre of the arena, moving along one of the four
/// diagonals drawn at random.
pub fn create_ball(config: &BallConfig) -> (ball: Ball)
    requires
        config.valid(),
    ensures
        ball.position@ == origin(),
        is_diagonal(ball.velocity@, config.target_speed as int),
        norm_squared(ball.velocity@) == 2 * square(config.target_speed as int),
{
    let mut initial_velocity = Vec2::zero();
    randomize_velocity(&mut initial_velocity, config.target_speed, config.target_speed);
    Ball { position: Vec2::zero(), velocity: initial_velocity }
}

/// Moves the ball by its velocity for `ticks` microseconds. The place it
/// comes to must be one that can be stored.
pub fn integrate(ball: &mut Ball, ticks: u32)
    requires
        representable(old(ball).position.x + travel(old(ball).velocity.x as int, ticks as int)),
        representable(old(ball).position.y + travel(old(ball).velocity.y as int, ticks as int)),
    ensures
        final(ball)@ == integrated(old(ball)@, ticks as int),
{
    let x: i64 = ball.position.x as i64 + advance(ball.velocity.x, ticks);
    let y: i64 = ball.position.y as i64 + advance(ball.velocity.y, ticks);
    ball.position = Vec2 { x: x as i32, y: y as i32 };
}

/// Resolves collisions by reflection: a ball at a side edge has its
/// horizontal velocity negated, a ball at the top or bottom edge its
/// vertical one. The ball is not moved.
pub fn ball_reflection_system(viewport: &WindowViewport, ball: &mut Ball, config: &BallConfig)
    requires
        old(ball).velocity.x > i32::MIN,
        old(ball).velocity.y > i32::MIN,
    ensures
        final(ball)@ == reflected(
            old(ball)@,
            viewport.half_width as int,
            viewport.half_height as int,
            config.radius as int,
        ),
        norm_squared(final(ball).velocity@) == norm_squared(old(ball).velocity@),
{
    proof {
        lemma_reflection_preserves_speed(
            ball@,
            viewport.half_width as int,
            viewport.half_height as int,
            config.radius as int,
        );
    }
    let x: i64 = ball.position.x as i64;
    let y: i64 = ball.position.y as i64;
    let radius: i64 = config.radius as i64;
    let half_width: i64 = viewport.half_width as i64;
    let half_height: i64 = viewport.half_height as i64;
    let mut velocity = ball.velocity;
    if x - radius <= -half_width || x + radius >= half_width {
        velocity.x = -velocity.x;
    }
    if y - radius <= -half_height || y + radius >= half_height {
        velocity.y = -velocity.y;
    }
    ball.velocity = velocity;
}

/// Resolves the contact of ball and paddle by reflection: a ball whose
/// bounding box meets the paddle's has its vertical velocity negated. The
/// ball is not moved, and the paddle's velocity plays no part.
pub fn ball_paddle_reflection_system(
    ball: &mut Ball,
    paddle: &Paddle,
    paddle_config: &PaddleConfig,
    config: &BallConfig,
)
    requires
        old(ball).velocity.y > i32::MIN,
    ensures
        final(ball)@ == reflected_off_paddle(
            old(ball)@,
            config.radius as int,
            paddle.position@,
            *paddle_config,
        ),
        norm_squared(final(ball).velocity@) == norm_squared(old(ball).velocity@),
{
    proof {
        lemma_square_of_negation(ball.velocity.y as int);
    }
    let x: i64 = ball.position.x as i64;
    let y: i64 = ball.position.y as i64;
    let radius: i64 = config.radius as i64;
    let paddle_x: i64 = paddle.position.x as i64;
    let paddle_y: i64 = paddle.position.y as i64;
    let half_width: i64 = paddle_config.half_width as i64;
    let half_height: i64 = paddle_config.half_height as i64;
    if x + radius >= paddle_x - half_width && x - radius <= paddle_x + half_width && y + radius
        >= paddle_y - half_height && y - radius <= paddle_y + half_height {
        ball.velocity.y = -ball.velocity.y;
    }
}

/// Keeps the ball at its speed and inside the arena, and restarts it when
/// it has fallen out.
///
/// The speed is restored first. Then a ball that has reached the left, the
/// right or the top edge while still moving outward is put back on that
/// edge and turned round. A ball that has reached the bottom edge is put at
/// the centre of the arena and sent along one of the four diagonals, drawn
/// at random.
pub fn ball_physics_system(viewport: &WindowViewport, ball: &mut Ball, config: &BallConfig)
    requires
        viewport.half_width >= 0,
        viewport.half_height >= 0,
        config.valid(),
    ensures
        ({
            let bounced = bounced_off_walls(
                old(ball)@,
                viewport.half_width as int,
                viewport.half_height as int,
                *config,
            );
            if has_fallen(bounced, viewport.half_height as int, config.radius as int) {
                &&& final(ball).position@ == origin()
                &&& is_diagonal(final(ball).velocity@, config.target_speed as int)
            } else {
                &&& final(ball)@ == bounced
                &&& old(ball).velocity.x != 0 || old(ball).velocity.y != 0 ==> is_near_speed(
                    final(ball).velocity@,
                    config.target_speed as int,
                )
            }
        }),
{
    proof {
        if ball.velocity.x != 0 || ball.velocity.y != 0 {
            lemma_wall_bounces_keep_speed(
                ball@,
                viewport.half_width as int,
                viewport.half_height as int,
                *config,
            );
        }
    }
    let radius: i64 = config.radius as i64;
    let half_width: i64 = viewport.half_width as i64;
    let half_height: i64 = viewport.half_height as i64;
    let mut velocity = rescale(ball.velocity.x as i64, ball.velocity.y as i64, config.target_speed);
    let mut x: i64 = ball.position.x as i64;
    let mut y: i64 = ball.position.y as i64;
    if x - radius <= -half_width && velocity.x < 0 {
        velocity.x = -velocity.x;
        x = -half_width + radius;
    }
    if x + radius >= half_width && velocity.x > 0 {
        velocity.x = -velocity.x;
        x = half_width - radius;
    }
    if y + radius >= half_height && velocity.y > 0 {
        velocity.y = -velocity.y;
        y = half_height - radius;
    }
    if y - radius <= -half_height {
        randomize_velocity(&mut velocity, config.target_speed, config.target_speed);
        ball.position = Vec2::zero();
        ball.velocity = velocity;
    } else {
        ball.position = Vec2 { x: x as i32, y: y as i32 };
        ball.velocity = velocity;
    }
}

/// Tells whether an event is the start of a contact of ball and paddle.
pub fn is_contact(event: &CollisionEvent) -> (b: bool)
    ensures
        b == is_ball_paddle_contact(*event),
{
    match event {
        CollisionEvent::Started(Body::Ball, Body::Paddle) => true,
        CollisionEvent::Started(Body::Paddle, Body::Ball) => true,
        _ => false,
    }
}

/// Computes the ball's velocity after the paddle has struck it.
pub fn strike(velocity: Vec2, paddle_velocity: i32, target: i32) -> (r: Vec2)
    requires
        target >= 0,
    ensures
        r@ == struck(velocity@, paddle_velocity as int, target as int),
        r.y >= 0,
        target >= 2 && velocity.y != 0 ==> r.y > 0,
        velocity.x + influence(paddle_velocity as int) != 0 || velocity.y != 0 ==> is_near_speed(
            r@,
            target as int,
        ),
{
    proof {
        if velocity.x + influence(paddle_velocity as int) != 0 || velocity.y != 0 {
            lemma_strike_keeps_speed(velocity@, paddle_velocity as int, target as int);
        }
    }
    let push: i64 = (paddle_velocity as i64 * PADDLE_INFLUENCE_NUMERATOR)
        / PADDLE_INFLUENCE_DENOMINATOR;
    let x: i64 = velocity.x as i64 + push;
    let y: i64 = if velocity.y < 0 {
        -(velocity.y as i64)
    } else {
        velocity.y as i64
    };
    rescale(x, y, target)
}

/// Answers the contact events of one tick, in the order given: at every
/// start of a contact of ball and paddle the ball takes over a share of the
/// paddle's velocity, is sent upward and is brought back to its speed.
/// Every other event is passed over.
pub fn ball_paddle_collision_system(
    collision_events: &Vec<CollisionEvent>,
    ball: &mut Ball,
    paddle: &Paddle,
    config: &BallConfig,
)
    requires
        config.valid(),
    ensures
        final(ball).position == old(ball).position,
        final(ball).velocity@ == after_events(
            collision_events@,
            old(ball).velocity@,
            paddle.velocity as int,
            config.target_speed as int,
        ),
{
    let ghost start = ball.velocity@;
    let ghost place = ball.position;
    let mut i: usize = 0;
    while i < collision_events.len()
        invariant
            i <= collision_events.len(),
            config.valid(),
            ball.position == place,
            ball.velocity@ == after_events(
                collision_events@.take(i as int),
                start,
                paddle.velocity as int,
                config.target_speed as int,
            ),
        decreases collision_events.len() - i,
    {
        let event = collision_events[i];
        proof {
            assert(collision_events@.take(i + 1).drop_last() =~= collision_events@.take(i as int));
        }
        if is_contact(&event) {
            ball.velocity = strike(ball.velocity, paddle.velocity, config.target_speed);
        }
        i += 1;
    }
    proof {
        assert(collision_events@.take(i as int) =~= collision_events@);
    }
}

/// Resolves the collisions of one tick in the way that `strategy` names.
///
/// By reflection the ball only changes the signs of its velocity, first at
/// the edges of the arena and then at the paddle; the events are not looked
/// at. By dynamics the wall step comes first and the contact events of the
/// tick are answered after it; the paddle's size is not looked at.
pub fn resolve_collisions(
    strategy: CollisionStrategy,
    viewport: &WindowViewport,
    collision_events: &Vec<CollisionEvent>,
    ball: &mut Ball,
    paddle: &Paddle,
    paddle_config: &PaddleConfig,
    config: &BallConfig,
)
    requires
        viewport.half_width >= 0,
        viewport.half_height >= 0,
        config.valid(),
        strategy is Reflection ==> old(ball).velocity.x > i32::MIN && old(ball).velocity.y
            > i32::MIN,
    ensures
        match strategy {
            CollisionStrategy::Reflection => final(ball)@ == reflected_off_paddle(
                reflected(
                    old(ball)@,
                    viewport.half_width as int,
                    viewport.half_height as int,
                    config.radius as int,
                ),
                config.radius as int,
                paddle.position@,
                *paddle_config,
            ),
            CollisionStrategy::Dynamics => is_dynamics_outcome(
                final(ball)@,
                old(ball)@,
                viewport.half_width as int,
                viewport.half_height as int,
                *config,
                collision_events@,
                paddle.velocity as int,
            ),
        },
{
    match strategy {
        CollisionStrategy::Reflection => {
            ball_reflection_system(viewport, ball, config);
            ball_paddle_reflection_system(ball, paddle, paddle_config, config);
        },
        CollisionStrategy::Dynamics => {
            ball_physics_system(viewport, ball, config);
            proof {
                let target = config.target_speed as int;
                let v = ball.velocity@;
                if is_diagonal(v, target) {
                    assert(v == signed_pair(target, target, v.x == target, v.y == target));
                }
            }
            ball_paddle_collision_system(collision_events, ball, paddle, config);
        },
    }
}

/// The default ball moves at three quarters of the paddle's greatest
/// speed, and its radius is half the paddle's height.
pub proof fn lemma_default_ball()
    ensures
        4 * BALL_SPEED == 3 * PADDLE_SPEED,
        BALL_RADIUS == PADDLE_HEIGHT / 2,
{
}

proof fn lemma_square_of_negation(x: int)
    by (nonlinear_arith)
    ensures
        (-x) * (-x) == x * x,
        magnitude(x) * magnitude(x) == x * x,
{
}

/// Turning a velocity round on either axis changes neither its length nor
/// the length of a component.
pub proof fn lemma_signs_do_not_change_speed(v: Point, keep_x: bool, keep_y: bool, target: int)
    ensures
        norm_squared(signed_pair(v.x, v.y, keep_x, keep_y)) == norm_squared(v),
        is_near_speed(signed_pair(v.x, v.y, keep_x, keep_y), target) == is_near_speed(v, target),
{
    lemma_square_of_negation(v.x);
    lemma_square_of_negation(v.y);
}

/// The reflecting resolver changes signs and nothing else: the ball stays
/// where it is and keeps its speed exactly. A ball at or beyond the left or
/// the right edge has its horizontal velocity negated, whichever way it
/// moves, and a ball at neither keeps it.
pub proof fn lemma_reflection_preserves_speed(
    ball: BallModel,
    half_width: int,
    half_height: int,
    radius: int,
)
    ensures
        ({
            let after = reflected(ball, half_width, half_height, radius);
            &&& after.position == ball.position
            &&& norm_squared(after.velocity) == norm_squared(ball.velocity)
            &&& ball.position.x - radius <= -half_width ==> after.velocity.x == -ball.velocity.x
            &&& ball.position.x + radius >= half_width ==> after.velocity.x == -ball.velocity.x
            &&& !at_side_edge(ball, half_width, radius) ==> after.velocity.x == ball.velocity.x
            &&& at_level_edge(ball, half_height, radius) ==> after.velocity.y == -ball.velocity.y
            &&& !at_level_edge(ball, half_height, radius) ==> after.velocity.y == ball.velocity.y
        }),
{
    lemma_square_of_negation(ball.velocity.x);
    lemma_square_of_negation(ball.velocity.y);
}

/// Reflection off the paddle changes one sign and nothing else: the ball
/// stays where it is and keeps its speed exactly.
pub proof fn lemma_paddle_reflection_preserves_speed(
    ball: BallModel,
    radius: int,
    paddle: Point,
    paddle_config: PaddleConfig,
)
    ensures
        ({
            let after = reflected_off_paddle(ball, radius, paddle, paddle_config);
            &&& after.position == ball.position
            &&& after.velocity.x == ball.velocity.x
            &&& norm_squared(after.velocity) == norm_squared(ball.velocity)
            &&& touches_paddle(ball, radius, paddle, paddle_config) ==> after.velocity.y
                == -ball.velocity.y
        }),
{
    lemma_square_of_negation(ball.velocity.y);
}

/// A moving ball leaves the wall step with the target speed, to within one
/// sub-unit on each axis, whichever edges it has come off.
pub proof fn lemma_wall_bounces_keep_speed(
    ball: BallModel,
    half_width: int,
    half_height: int,
    config: BallConfig,
)
    requires
        config.valid(),
        ball.velocity.x != 0 || ball.velocity.y != 0,
    ensures
        is_near_speed(
            bounced_off_walls(ball, half_width, half_height, config).velocity,
            config.target_speed as int,
        ),
{
    let target = config.target_speed as int;
    let radius = config.radius as int;
    let paced = BallModel { position: ball.position, velocity: at_speed(ball.velocity, target) };
    lemma_at_speed_is_near_target(ball.velocity, target);
    let first = bounced_left(paced, half_width, radius);
    lemma_signs_do_not_change_speed(paced.velocity, first.velocity == paced.velocity, true, target);
    let second = bounced_right(first, half_width, radius);
    lemma_signs_do_not_change_speed(first.velocity, second.velocity == first.velocity, true, target);
    let third = bounced_top(second, half_height, radius);
    lemma_signs_do_not_change_speed(second.velocity, true, third.velocity == second.velocity, target);
}

/// After the wall step the ball is not beyond the left, the right or the
/// top edge while still moving outward, provided the arena is wider than
/// the ball.
pub proof fn lemma_wall_bounces_turn_the_ball_inward(
    ball: BallModel,
    half_width: int,
    half_height: int,
    config: BallConfig,
)
    requires
        config.valid(),
        config.radius < half_width,
    ensures
        ({
            let after = bounced_off_walls(ball, half_width, half_height, config);
            &&& after.position.x - config.radius <= -half_width ==> after.velocity.x >= 0
            &&& after.position.x + config.radius >= half_width ==> after.velocity.x <= 0
            &&& after.position.y + config.radius >= half_height ==> after.velocity.y <= 0
        }),
{
}

/// A ball in play, clear of every edge, stays where it is and keeps its
/// course through the wall step: its velocity is brought to the target
/// speed and nothing else happens to it. For a target of two sub-units or
/// more it still moves the same way on each axis.
pub proof fn lemma_ball_in_play_keeps_course(
    ball: BallModel,
    half_width: int,
    half_height: int,
    config: BallConfig,
)
    requires
        -half_width < ball.position.x - config.radius,
        ball.position.x + config.radius < half_width,
        ball.position.y + config.radius < half_height,
        -half_height < ball.position.y - config.radius,
    ensures
        ({
            let after = bounced_off_walls(ball, half_width, half_height, config);
            &&& after.position == ball.position
            &&& after.velocity == at_speed(ball.velocity, config.target_speed as int)
            &&& !has_fallen(after, half_height, config.radius as int)
            &&& config.target_speed >= 2 ==> {
                &&& ball.velocity.x > 0 <==> after.velocity.x > 0
                &&& ball.velocity.x < 0 <==> after.velocity.x < 0
                &&& ball.velocity.y > 0 <==> after.velocity.y > 0
                &&& ball.velocity.y < 0 <==> after.velocity.y < 0
            }
        }),
{
    if config.target_speed >= 2 && (ball.velocity.x != 0 || ball.velocity.y != 0) {
        lemma_at_speed_is_near_target(ball.velocity, config.target_speed as int);
    }
}

/// A ball that the paddle strikes leaves with the target speed, to within
/// one sub-unit on each axis, and never downward; for a target of two
/// sub-units or more a ball that came in rising or falling leaves rising.
/// The speed needs the ball to be moving once the paddle's influence is
/// added: a ball that moves level and whose horizontal velocity the
/// influence cancels comes to rest.
pub proof fn lemma_strike_keeps_speed(v: Point, paddle_velocity: int, target: int)
    requires
        target >= 0,
        v.x + influence(paddle_velocity) != 0 || v.y != 0,
    ensures
        is_near_speed(struck(v, paddle_velocity, target), target),
        struck(v, paddle_velocity, target).y >= 0,
        target >= 2 && v.y != 0 ==> struck(v, paddle_velocity, target).y > 0,
{
    lemma_at_speed_is_near_target(
        Point { x: v.x + influence(paddle_velocity), y: magnitude(v.y) },
        target,
    );
}

/// Whether an event is a contact of ball and paddle does not depend on the
/// order in which the two bodies are named.
pub proof fn lemma_contact_is_symmetric(first: Body, second: Body)
    ensures
        is_ball_paddle_contact(CollisionEvent::Started(first, second)) == is_ball_paddle_contact(
            CollisionEvent::Started(second, first),
        ),
        !is_ball_paddle_contact(CollisionEvent::Stopped(first, second)),
{
}

/// A single start of a contact of ball and paddle strikes the ball once,
/// in whichever order the two bodies are named.
pub proof fn lemma_single_contact_strikes(
    event: CollisionEvent,
    v: Point,
    paddle_velocity: int,
    target: int,
)
    requires
        is_ball_paddle_contact(event),
    ensures
        after_events(seq![event], v, paddle_velocity, target) == struck(
            v,
            paddle_velocity,
            target,
        ),
{
    let events = seq![event];
    assert(events.len() == 1);
    assert(events.last() == event);
    assert(events.drop_last().len() == 0);
    reveal_with_fuel(after_events, 2);
}

/// Events among which there is no start of a contact of ball and paddle
/// leave the ball's velocity as it was.
pub proof fn lemma_other_events_are_passed_over(
    events: Seq<CollisionEvent>,
    v: Point,
    paddle_velocity: int,
    target: int,
)
    requires
        forall|i: int| 0 <= i < events.len() ==> !is_ball_paddle_contact(#[trigger] events[i]),
    ensures
        after_events(events, v, paddle_velocity, target) == v,
    decreases events.len(),
{
    if events.len() > 0 {
        lemma_other_events_are_passed_over(events.drop_last(), v, paddle_velocity, target);
    }
}

/// A ball that restarts on a diagonal of a speed other than zero moves on
/// both axes, and its Euclidean speed is that speed times the square root
/// of two.
pub proof fn lemma_diagonal_moves_on_both_axes(v: Point, speed: int)
    requires
        is_diagonal(v, speed),
        speed != 0,
    ensures
        v.x != 0,
        v.y != 0,
        norm_squared(v) == 2 * square(speed),
{
    lemma_square_of_negation(v.x);
    lemma_square_of_negation(v.y);
    lemma_square_of_negation(speed);
}

} // verus!
