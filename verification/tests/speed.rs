use pong::fixed::Vec2;
use pong::game::speed::keep_speed;

fn length(v: Vec2) -> f64 {
    (f64::from(v.x).powi(2) + f64::from(v.y).powi(2)).sqrt()
}

#[test]
fn speed_is_restored_along_the_same_direction() {
    assert_eq!(keep_speed(Vec2 { x: 3_000, y: 4_000 }, 5_000), Vec2 { x: 3_000, y: 4_000 });
    assert_eq!(keep_speed(Vec2 { x: 3_000, y: 4_000 }, 562_500), Vec2 { x: 337_500, y: 450_000 });
    assert_eq!(keep_speed(Vec2 { x: -3, y: 4 }, 10), Vec2 { x: -6, y: 8 });
    assert_eq!(keep_speed(Vec2 { x: 3, y: -4 }, 10), Vec2 { x: 6, y: -8 });
    assert_eq!(keep_speed(Vec2 { x: -600, y: -800 }, 5), Vec2 { x: -3, y: -4 });
}

#[test]
fn components_are_rounded_toward_zero() {
    assert_eq!(keep_speed(Vec2 { x: 1, y: 1 }, 10), Vec2 { x: 7, y: 7 });
    assert_eq!(keep_speed(Vec2 { x: -1, y: -1 }, 10), Vec2 { x: -7, y: -7 });
    assert_eq!(keep_speed(Vec2 { x: 87, y: -1 }, 562_500), Vec2 { x: 562_462, y: -6_465 });
    assert_eq!(
        keep_speed(Vec2 { x: 123_456, y: -654_321 }, 562_500),
        Vec2 { x: 104_291, y: -552_747 }
    );
    assert_eq!(keep_speed(Vec2 { x: 7, y: 1_000 }, 600), Vec2 { x: 4, y: 599 });
}

#[test]
fn axis_aligned_velocity_takes_the_target_exactly() {
    assert_eq!(keep_speed(Vec2 { x: 0, y: -5 }, 7), Vec2 { x: 0, y: -7 });
    assert_eq!(keep_speed(Vec2 { x: 5, y: 0 }, 7), Vec2 { x: 7, y: 0 });
    assert_eq!(keep_speed(Vec2 { x: 0, y: i32::MIN }, i32::MAX), Vec2 { x: 0, y: -i32::MAX });
}

#[test]
fn velocity_of_zero_is_left_alone() {
    assert_eq!(keep_speed(Vec2 { x: 0, y: 0 }, 562_500), Vec2 { x: 0, y: 0 });
    assert_eq!(keep_speed(Vec2 { x: 0, y: 0 }, 0), Vec2 { x: 0, y: 0 });
}

#[test]
fn target_of_zero_stops_the_ball() {
    assert_eq!(keep_speed(Vec2 { x: 1, y: 0 }, 0), Vec2 { x: 0, y: 0 });
    assert_eq!(keep_speed(Vec2 { x: -9, y: 12 }, 0), Vec2 { x: 0, y: 0 });
}

#[test]
fn largest_velocities_are_handled() {
    assert_eq!(
        keep_speed(Vec2 { x: i32::MIN, y: i32::MIN }, i32::MAX),
        Vec2 { x: -1_518_500_249, y: -1_518_500_249 }
    );
    assert_eq!(
        keep_speed(Vec2 { x: i32::MAX, y: i32::MIN }, i32::MAX),
        Vec2 { x: 1_518_500_248, y: -1_518_500_249 }
    );
}

#[test]
fn restored_speed_is_within_a_sub_unit_per_axis_of_the_target() {
    let target = 562_500;
    for x in [-1_000_000, -4_321, -1, 0, 1, 17, 250_000, i32::MAX] {
        for y in [i32::MIN, -999, -1, 1, 3, 562_500] {
            let v = keep_speed(Vec2 { x, y }, target);
            let (vx, vy) = (i64::from(v.x), i64::from(v.y));
            let goal = i64::from(target) * i64::from(target);
            assert!(vx * vx + vy * vy <= goal);
            assert!((vx.abs() + 1).pow(2) + (vy.abs() + 1).pow(2) > goal);
            assert!((length(v) - f64::from(target)).abs() < 1.5);
            assert!(x.signum() * v.x.signum() >= 0 && y.signum() * v.y.signum() >= 0);
        }
    }
}

#[test]
fn small_component_does_not_vanish() {
    assert_eq!(keep_speed(Vec2 { x: 1, y: 1_000_000 }, 600), Vec2 { x: 1, y: 599 });
    assert_eq!(keep_speed(Vec2 { x: 1_000_000, y: 1 }, 562_500), Vec2 { x: 562_499, y: 1 });
    assert_eq!(keep_speed(Vec2 { x: -1, y: 1_000_000 }, 562_500), Vec2 { x: -1, y: 562_499 });
    assert_eq!(keep_speed(Vec2 { x: 1, y: -1_000_000 }, 562_500), Vec2 { x: 1, y: -562_499 });
    assert_eq!(
        keep_speed(Vec2 { x: i32::MAX, y: 1 }, i32::MAX),
        Vec2 { x: i32::MAX - 1, y: 1 }
    );
    assert_eq!(keep_speed(Vec2 { x: i32::MIN, y: -1 }, 2), Vec2 { x: -1, y: -1 });
    assert_eq!(keep_speed(Vec2 { x: 1, y: 1_000 }, 2), Vec2 { x: 1, y: 1 });
    assert_eq!(keep_speed(Vec2 { x: 1, y: 1 }, 2), Vec2 { x: 1, y: 1 });
}

#[test]
fn target_below_two_leaves_no_room_for_a_small_component() {
    assert_eq!(keep_speed(Vec2 { x: 1, y: 1 }, 1), Vec2 { x: 0, y: 0 });
    assert_eq!(keep_speed(Vec2 { x: 3, y: 4 }, 1), Vec2 { x: 0, y: 0 });
    assert_eq!(keep_speed(Vec2 { x: 0, y: -4 }, 1), Vec2 { x: 0, y: -1 });
}

#[test]
fn every_sign_is_kept_for_a_target_of_two_or_more() {
    for target in [2, 3, 600, 562_500, i32::MAX] {
        for x in [i32::MIN, -1_000_000, -1, 0, 1, 5, i32::MAX] {
            for y in [i32::MIN, -7, -1, 0, 1, 1_000_000, i32::MAX] {
                let v = keep_speed(Vec2 { x, y }, target);
                assert_eq!(v.x.signum(), x.signum());
                assert_eq!(v.y.signum(), y.signum());
                let goal = i64::from(target) * i64::from(target);
                assert!(i64::from(v.x).pow(2) + i64::from(v.y).pow(2) <= goal);
            }
        }
    }
}
