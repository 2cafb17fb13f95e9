use pong::game::paddle::{
    create_paddle, paddle_movement_system, read_direction, Paddle, PaddleConfig,
    PADDLE_ACCELERATION, PADDLE_HEIGHT, PADDLE_SPEED, PADDLE_START_Y, PADDLE_WIDTH,
};
use pong::fixed::Vec2;
use pong::viewport::{WindowViewport, DEFAULT_VIRTUAL_HEIGHT, DEFAULT_VIRTUAL_WIDTH};

const TICK: u32 = 20_000;

fn paddle_at(x: i32, velocity: i32) -> Paddle {
    Paddle { position: Vec2 { x, y: PADDLE_START_Y }, velocity }
}

fn step(paddle: &mut Paddle, left: bool, right: bool, ticks: u32) {
    paddle_movement_system(
        left,
        right,
        ticks,
        &WindowViewport::default(),
        &PaddleConfig::default(),
        paddle,
    );
}

#[test]
fn paddle_starts_at_rest_in_the_middle() {
    let paddle = create_paddle();
    assert_eq!(paddle, Paddle { position: Vec2 { x: 0, y: -324_000 }, velocity: 0 });
    assert_eq!(PADDLE_START_Y, -324_000);
    assert_eq!((PADDLE_WIDTH, PADDLE_HEIGHT), (128_000, 18_000));
    assert_eq!(PADDLE_WIDTH, DEFAULT_VIRTUAL_WIDTH / 10);
    assert_eq!(PADDLE_HEIGHT, DEFAULT_VIRTUAL_HEIGHT / 40);
    assert_eq!(PADDLE_START_Y, -DEFAULT_VIRTUAL_HEIGHT / 2 + PADDLE_HEIGHT * 2);
}

#[test]
fn default_paddle_configuration() {
    let config = PaddleConfig::default();
    assert_eq!(config.half_width, 64_000);
    assert_eq!(config.half_height, 9_000);
    assert_eq!(config.acceleration, PADDLE_ACCELERATION);
    assert_eq!(config.acceleration, 2_500_000);
    assert_eq!(config.max_speed, PADDLE_SPEED);
    assert_eq!(config.max_speed, 750_000);
    assert!(config.check());
    assert!(!PaddleConfig { half_width: -1, ..config }.check());
    assert!(!PaddleConfig { half_height: -1, ..config }.check());
    assert!(!PaddleConfig { acceleration: -1, ..config }.check());
    assert!(!PaddleConfig { max_speed: -1, ..config }.check());
}

#[test]
fn keys_reduce_to_a_direction() {
    assert_eq!(read_direction(false, false), 0);
    assert_eq!(read_direction(true, false), -1);
    assert_eq!(read_direction(false, true), 1);
    assert_eq!(read_direction(true, true), 0);
}

#[test]
fn first_tick_to_the_right_from_rest() {
    let mut paddle = create_paddle();
    step(&mut paddle, false, true, TICK);
    assert_eq!(paddle.velocity, 50_000);
    assert_eq!(paddle.position.x, 1_000);
    assert_eq!(paddle.position.y, PADDLE_START_Y);
    let velocity = f64::from(paddle.velocity) / 1000.0;
    let advanced = f64::from(paddle.position.x) / 1000.0;
    assert_eq!(velocity, 50.0);
    assert_eq!(advanced, 1.0);
}

#[test]
fn first_tick_to_the_left_mirrors_the_right() {
    let mut paddle = create_paddle();
    step(&mut paddle, true, false, TICK);
    assert_eq!(paddle.velocity, -50_000);
    assert_eq!(paddle.position.x, -1_000);
}

#[test]
fn velocity_builds_up_tick_by_tick() {
    let mut paddle = create_paddle();
    step(&mut paddle, false, true, TICK);
    step(&mut paddle, false, true, TICK);
    assert_eq!(paddle.velocity, 100_000);
    assert_eq!(paddle.position.x, 3_000);
    step(&mut paddle, false, true, TICK);
    assert_eq!(paddle.velocity, 150_000);
    assert_eq!(paddle.position.x, 6_000);
}

#[test]
fn velocity_is_clamped_to_the_greatest_speed() {
    let mut paddle = paddle_at(0, 740_000);
    step(&mut paddle, false, true, TICK);
    assert_eq!(paddle.velocity, 750_000);
    assert_eq!(paddle.position.x, 15_000);
    let mut paddle = paddle_at(0, -740_000);
    step(&mut paddle, true, false, TICK);
    assert_eq!(paddle.velocity, -750_000);
    assert_eq!(paddle.position.x, -15_000);
    let mut paddle = paddle_at(0, 2_000_000);
    step(&mut paddle, true, false, TICK);
    assert_eq!(paddle.velocity, 750_000);
}

#[test]
fn input_against_the_motion_brakes() {
    let mut paddle = paddle_at(0, 120_000);
    step(&mut paddle, true, false, TICK);
    assert_eq!(paddle.velocity, 70_000);
    assert_eq!(paddle.position.x, 1_400);
}

#[test]
fn both_keys_count_as_no_input() {
    let mut both = paddle_at(10_000, 120_000);
    let mut neither = paddle_at(10_000, 120_000);
    step(&mut both, true, true, TICK);
    step(&mut neither, false, false, TICK);
    assert_eq!(both, neither);
    assert_eq!(both.velocity, 70_000);
}

#[test]
fn without_input_the_paddle_slows_down_and_stops_at_zero() {
    let mut paddle = paddle_at(0, 120_000);
    step(&mut paddle, false, false, TICK);
    assert_eq!((paddle.velocity, paddle.position.x), (70_000, 1_400));
    step(&mut paddle, false, false, TICK);
    assert_eq!((paddle.velocity, paddle.position.x), (20_000, 1_800));
    step(&mut paddle, false, false, TICK);
    assert_eq!((paddle.velocity, paddle.position.x), (0, 1_800));
    step(&mut paddle, false, false, TICK);
    assert_eq!((paddle.velocity, paddle.position.x), (0, 1_800));
}

#[test]
fn without_input_a_leftward_paddle_stops_at_zero_too() {
    let mut paddle = paddle_at(0, -120_000);
    step(&mut paddle, false, false, TICK);
    assert_eq!((paddle.velocity, paddle.position.x), (-70_000, -1_400));
    step(&mut paddle, false, false, TICK);
    assert_eq!((paddle.velocity, paddle.position.x), (-20_000, -1_800));
    step(&mut paddle, false, false, TICK);
    assert_eq!((paddle.velocity, paddle.position.x), (0, -1_800));
}

#[test]
fn speed_equal_to_the_change_snaps_to_zero() {
    let mut paddle = paddle_at(0, 50_000);
    step(&mut paddle, false, false, TICK);
    assert_eq!(paddle.velocity, 0);
    let mut paddle = paddle_at(0, 50_001);
    step(&mut paddle, false, false, TICK);
    assert_eq!(paddle.velocity, 1);
}

#[test]
fn coasting_speed_never_grows_and_never_changes_side() {
    for start in [750_000, 333_333, 1, -1, -749_999, i32::MAX, i32::MIN] {
        let mut paddle = paddle_at(0, start);
        let mut previous = i64::from(start).abs();
        let mut ticks = 0;
        while paddle.velocity != 0 {
            step(&mut paddle, false, false, TICK);
            let speed = i64::from(paddle.velocity).abs();
            assert!(speed < previous);
            assert!(paddle.velocity == 0 || (paddle.velocity > 0) == (start > 0));
            previous = speed;
            ticks += 1;
        }
        assert_eq!(ticks, (i64::from(start).abs() + 49_999) / 50_000);
    }
}

#[test]
fn coasting_is_not_limited_by_the_greatest_speed() {
    let mut paddle = paddle_at(0, 2_000_000);
    step(&mut paddle, false, false, TICK);
    assert_eq!(paddle.velocity, 1_950_000);
}

#[test]
fn paddle_is_kept_inside_the_arena() {
    let mut paddle = paddle_at(895_000, 750_000);
    step(&mut paddle, false, true, TICK);
    assert_eq!(paddle.velocity, 750_000);
    assert_eq!(paddle.position.x, 896_000);
    let mut paddle = paddle_at(-895_000, -750_000);
    step(&mut paddle, true, false, TICK);
    assert_eq!(paddle.position.x, -896_000);
}

#[test]
fn paddle_outside_the_arena_is_brought_back() {
    let mut paddle = paddle_at(i32::MAX, 0);
    step(&mut paddle, false, false, TICK);
    assert_eq!(paddle.position.x, 896_000);
    let mut paddle = paddle_at(i32::MIN, 0);
    step(&mut paddle, false, false, 0);
    assert_eq!(paddle.position.x, -896_000);
}

#[test]
fn paddle_stays_inside_for_any_velocity_tick_and_input() {
    let viewport = WindowViewport::default();
    let config = PaddleConfig::default();
    for x in [i32::MIN, -896_001, -5, 0, 896_000, i32::MAX] {
        for velocity in [i32::MIN, -750_000, -1, 0, 1, 750_000, i32::MAX] {
            for ticks in [0, 1, TICK, 1_000_000, u32::MAX] {
                for (left, right) in [(false, false), (true, false), (false, true), (true, true)] {
                    let mut paddle = paddle_at(x, velocity);
                    paddle_movement_system(left, right, ticks, &viewport, &config, &mut paddle);
                    assert!(-896_000 <= paddle.position.x && paddle.position.x <= 896_000);
                    assert_eq!(paddle.position.y, PADDLE_START_Y);
                }
            }
        }
    }
}

#[test]
fn paddle_as_wide_as_the_arena_cannot_move() {
    let viewport = WindowViewport::default();
    let config = PaddleConfig { half_width: 960_000, ..PaddleConfig::default() };
    let mut paddle = paddle_at(0, 0);
    paddle_movement_system(false, true, TICK, &viewport, &config, &mut paddle);
    assert_eq!(paddle.velocity, 50_000);
    assert_eq!(paddle.position.x, 0);
}

#[test]
fn a_tick_of_no_length_changes_nothing_inside_the_arena() {
    let mut paddle = paddle_at(123, 456);
    step(&mut paddle, false, true, 0);
    assert_eq!(paddle, paddle_at(123, 456));
    step(&mut paddle, false, false, 0);
    assert_eq!(paddle, paddle_at(123, 456));
    step(&mut paddle, true, false, 0);
    assert_eq!(paddle, paddle_at(123, 456));
}

#[test]
fn other_configurations_are_honoured() {
    let viewport = WindowViewport::default();
    let config = PaddleConfig {
        half_width: 10_000,
        half_height: 2_000,
        acceleration: 1_000_000,
        max_speed: 30_000,
    };
    let mut paddle = paddle_at(0, 0);
    paddle_movement_system(false, true, 10_000, &viewport, &config, &mut paddle);
    assert_eq!((paddle.velocity, paddle.position.x), (10_000, 100));
    paddle_movement_system(false, true, 50_000, &viewport, &config, &mut paddle);
    assert_eq!((paddle.velocity, paddle.position.x), (30_000, 1_600));
}

#[test]
fn paddle_in_an_arena_narrower_than_itself_still_steps() {
    let viewport = WindowViewport::default();
    let config = PaddleConfig { half_width: 1_000_000, ..PaddleConfig::default() };
    let mut paddle = paddle_at(0, 0);
    paddle_movement_system(false, true, TICK, &viewport, &config, &mut paddle);
    assert_eq!(paddle.velocity, 50_000);
    assert_eq!(paddle.position.x, 40_000);
    paddle_movement_system(false, true, TICK, &viewport, &config, &mut paddle);
    assert_eq!(paddle.velocity, 100_000);
    assert_eq!(paddle.position.x, -40_000);
    let mut paddle = paddle_at(-500_000, 0);
    paddle_movement_system(false, false, TICK, &viewport, &config, &mut paddle);
    assert_eq!(paddle, paddle_at(40_000, 0));
}

#[test]
fn velocity_rule_does_not_depend_on_the_arena() {
    let narrow = WindowViewport {
        half_width: 10_000,
        half_height: 10_000,
        pixel_width: 20_000,
        pixel_height: 20_000,
        scale: pong::viewport::Scale { numerator: 1, denominator: 1 },
    };
    let config = PaddleConfig::default();
    for start in [750_000, 120_000, 50_000, -1, -333_333] {
        let mut inside = paddle_at(0, start);
        let mut outside = paddle_at(0, start);
        for _ in 0..20 {
            let before = outside.velocity;
            step(&mut inside, false, false, TICK);
            paddle_movement_system(false, false, TICK, &narrow, &config, &mut outside);
            assert_eq!(outside.velocity, inside.velocity);
            assert!(outside.velocity.abs() <= before.abs());
            assert!(i64::from(outside.velocity) * i64::from(before) >= 0);
            assert_eq!(outside.velocity == 0, before.abs() <= 50_000);
        }
        assert_eq!(outside.velocity, 0);
    }
}

#[test]
fn arena_without_width_is_accepted() {
    let viewport = WindowViewport {
        half_width: 0,
        half_height: 0,
        pixel_width: 1,
        pixel_height: 1,
        scale: pong::viewport::Scale { numerator: 1, denominator: 1 },
    };
    let mut paddle = paddle_at(5, 120_000);
    paddle_movement_system(true, true, TICK, &viewport, &PaddleConfig::default(), &mut paddle);
    assert_eq!(paddle.velocity, 70_000);
    assert_eq!(paddle.position.x, 64_000);
}
