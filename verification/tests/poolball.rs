use poolballs::poolball::{BallType, Poolball, BALL_MASS, BALL_RADIUS};
use poolballs::vec2::Vec2;

/// World units to fixed-point micro-units.
fn fx(v: f64) -> i64 {
    (v * 1_000_000.0).round() as i64
}

fn point(x: f64, y: f64) -> Vec2 {
    Vec2::new(fx(x), fx(y))
}

#[test]
fn test_update() {
    let mut ball = Poolball::new(point(0.0, 0.0), BallType::Red);
    ball.set_velocity(point(1.0, 1.0));
    ball.update(fx(1.0));
    assert_eq!(ball.position, point(1.0, 1.0));
}

#[test]
fn test_update_velocity() {
    let mut ball = Poolball::new(point(0.0, 0.0), BallType::Red);
    ball.update_velocity(point(1.0, 1.0), fx(1.0));
    assert_eq!(ball.velocity, point(1.0, 1.0));
}

#[test]
fn test_set_velocity() {
    let mut ball = Poolball::new(point(0.0, 0.0), BallType::Red);
    let new_velocity = point(1.0, 1.0);
    ball.set_velocity(new_velocity);
    assert_eq!(ball.velocity, new_velocity);
}

#[test]
fn test_is_stationary() {
    let mut ball = Poolball::new(point(0.0, 0.0), BallType::Red);
    assert!(ball.is_stationary());
    ball.set_velocity(point(1.0, 1.0));
    assert!(!ball.is_stationary());
}

#[test]
fn test_poolball_new_fields() {
    let ball = Poolball::new(point(0.25, -0.5), BallType::Blue);
    assert_eq!(ball.position, point(0.25, -0.5));
    assert_eq!(ball.velocity, point(0.0, 0.0));
    assert_eq!(ball.mass, BALL_MASS);
    assert_eq!(ball.mass, fx(0.1));
    assert_eq!(ball.radius, BALL_RADIUS);
    assert_eq!(ball.radius, fx(0.01));
    assert_eq!(ball.ball_type, BallType::Blue);
}

#[test]
fn test_update_fractional_time() {
    let mut ball = Poolball::new(point(1.0, 2.0), BallType::White);
    ball.set_velocity(point(2.0, -4.0));
    ball.update(fx(0.5));
    assert_eq!(ball.position, point(2.0, 0.0));
    assert_eq!(ball.velocity, point(2.0, -4.0));
}

#[test]
fn test_update_truncates_toward_zero() {
    // One micro-unit of velocity over half a time unit is half a micro-unit
    // of displacement, which truncates to zero, from either side.
    let mut ball = Poolball::new(point(0.0, 0.0), BallType::Red);
    ball.set_velocity(Vec2::new(1, -1));
    ball.update(fx(0.5));
    assert_eq!(ball.position, Vec2::new(0, 0));
}

#[test]
fn test_acceleration_accumulates() {
    let mut ball = Poolball::new(point(0.0, 0.0), BallType::Red);
    ball.update_velocity(point(1.0, 1.0), fx(1.0));
    assert_eq!(ball.velocity, point(1.0, 1.0));
    ball.update_velocity(point(1.0, 1.0), fx(1.0));
    assert_eq!(ball.velocity, point(2.0, 2.0));
}

#[test]
fn test_accumulation_order_independent() {
    let first = point(0.5, -1.0);
    let second = point(-2.25, 3.0);
    let delta_time = fx(0.5);

    let mut one_way = Poolball::new(point(0.0, 0.0), BallType::Red);
    one_way.update_velocity(first, delta_time);
    one_way.update_velocity(second, delta_time);

    let mut other_way = Poolball::new(point(0.0, 0.0), BallType::Red);
    other_way.update_velocity(second, delta_time);
    other_way.update_velocity(first, delta_time);

    assert_eq!(one_way, other_way);
    assert_eq!(one_way.velocity, point(-0.875, 1.0));
}

#[test]
fn test_stationary_again_after_zero_velocity() {
    let mut ball = Poolball::new(point(0.0, 0.0), BallType::Red);
    ball.set_velocity(point(1.0, 1.0));
    assert!(!ball.is_stationary());
    ball.set_velocity(point(0.0, 0.0));
    assert!(ball.is_stationary());
}

#[test]
fn test_stationary_read_idempotent() {
    let mut ball = Poolball::new(point(0.0, 0.0), BallType::Red);
    ball.set_velocity(point(0.0, 3.5));
    let first = ball.is_stationary();
    let second = ball.is_stationary();
    assert_eq!(first, second);
    assert!(!first);
}
