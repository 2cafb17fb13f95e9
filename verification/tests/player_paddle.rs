use pong::fixed::Vec2;
use pong::player::paddle::{
    create_paddle, paddle_movement_system, Paddle, PADDLE_HEIGHT, PADDLE_SPEED, PADDLE_START_Y,
    PADDLE_WIDTH,
};
use pong::viewport::{WindowViewport, DEFAULT_VIRTUAL_HEIGHT, DEFAULT_VIRTUAL_WIDTH};

#[test]
fn plain_paddle_starts_in_the_middle() {
    assert_eq!(create_paddle(), Paddle { position: Vec2 { x: 0, y: 0 } });
    assert_eq!(PADDLE_START_Y, 0);
    assert_eq!((PADDLE_WIDTH, PADDLE_HEIGHT, PADDLE_SPEED), (640_000, 360_000, 650_000));
    assert_eq!(PADDLE_WIDTH, DEFAULT_VIRTUAL_WIDTH / 2);
    assert_eq!(PADDLE_HEIGHT, DEFAULT_VIRTUAL_HEIGHT / 2);
}

#[test]
fn plain_paddle_moves_at_full_speed_while_a_key_is_held() {
    let viewport = WindowViewport::default();
    let mut paddle = create_paddle();
    paddle_movement_system(false, true, 20_000, &viewport, &mut paddle);
    assert_eq!(paddle.position, Vec2 { x: 13_000, y: 0 });
    paddle_movement_system(true, false, 40_000, &viewport, &mut paddle);
    assert_eq!(paddle.position, Vec2 { x: -13_000, y: 0 });
}

#[test]
fn plain_paddle_stands_still_without_input() {
    let viewport = WindowViewport::default();
    let mut paddle = Paddle { position: Vec2 { x: 77, y: 5 } };
    paddle_movement_system(false, false, 1_000_000, &viewport, &mut paddle);
    assert_eq!(paddle.position, Vec2 { x: 77, y: 5 });
    paddle_movement_system(true, true, 1_000_000, &viewport, &mut paddle);
    assert_eq!(paddle.position, Vec2 { x: 77, y: 5 });
}

#[test]
fn plain_paddle_is_kept_inside_the_arena() {
    let viewport = WindowViewport::default();
    let mut paddle = create_paddle();
    paddle_movement_system(false, true, 1_000_000, &viewport, &mut paddle);
    assert_eq!(paddle.position.x, 640_000);
    paddle_movement_system(true, false, u32::MAX, &viewport, &mut paddle);
    assert_eq!(paddle.position.x, -640_000);
    let mut far = Paddle { position: Vec2 { x: i32::MAX, y: 0 } };
    paddle_movement_system(false, false, 0, &viewport, &mut far);
    assert_eq!(far.position.x, 640_000);
}

#[test]
fn plain_paddle_in_an_arena_narrower_than_itself_still_steps() {
    let narrow = WindowViewport {
        half_width: 100_000,
        half_height: 100_000,
        pixel_width: 200_000,
        pixel_height: 200_000,
        scale: pong::viewport::Scale { numerator: 1, denominator: 1 },
    };
    let mut paddle = create_paddle();
    paddle_movement_system(false, true, 20_000, &narrow, &mut paddle);
    assert_eq!(paddle.position.x, 220_000);
    paddle_movement_system(false, false, 20_000, &narrow, &mut paddle);
    assert_eq!(paddle.position.x, -220_000);
}
