//! The moving body of the sandbox: a circular poolball with a position, a
//! velocity, a fixed mass and radius, and a purely descriptive colour tag.
//!
//! A ball owns its own kinematic state. Each simulation tick first
//! accumulates gravitational contributions into the velocity with
//! [`Poolball::update_velocity`] (once per attractor), then advances the
//! position once with [`Poolball::update`]: a semi-implicit Euler step.

use vstd::prelude::*;

use crate::fixed::{fx_mul, product_fits, scaled_product};
use crate::vec2::Vec2;

verus! {

/// Mass given to every new ball: one tenth of a world unit.
pub const BALL_MASS: i64 = 100_000;

/// Radius given to every new ball: one hundredth of a world unit.
pub const BALL_RADIUS: i64 = 10_000;

/// Descriptive category of a ball. It only matters to a rendering layer;
/// the physics makes no difference between the variants.
#[derive(Clone, Copy, Debug, PartialEq, Eq, Structural)]
pub enum BallType {
    White,
    Red,
    Blue,
}

/// A circular body with kinematic state, in fixed-point micro-units.
#[derive(Clone, Copy, Debug, PartialEq, Eq, Structural)]
pub struct Poolball {
    pub position: Vec2,
    pub radius: i64,
    pub mass: i64,
    pub velocity: Vec2,
    pub ball_type: BallType,
}

/// The ball that [`Poolball::new`] builds: the given position and tag, the
/// fixed default mass and radius, and a velocity of exactly zero.
pub open spec fn fresh_ball(position: Vec2, ball_type: BallType) -> Poolball {
    Poolball {
        position,
        radius: BALL_RADIUS,
        mass: BALL_MASS,
        velocity: Vec2 { x: 0i64, y: 0i64 },
        ball_type,
    }
}

/// `ball` with its velocity overwritten by `velocity`.
pub open spec fn with_velocity(ball: Poolball, velocity: Vec2) -> Poolball {
    Poolball { velocity, ..ball }
}

/// Whether one integration step of `ball` over `delta_time` stays within the
/// `i64` range: each displacement component is representable, and so is each
/// new position component.
pub open spec fn update_fits(ball: Poolball, delta_time: int) -> bool {
    &&& product_fits(ball.velocity.x as int, delta_time)
    &&& product_fits(ball.velocity.y as int, delta_time)
    &&& i64::MIN <= ball.position.x + scaled_product(ball.velocity.x as int, delta_time)
        <= i64::MAX
    &&& i64::MIN <= ball.position.y + scaled_product(ball.velocity.y as int, delta_time)
        <= i64::MAX
}

/// `ball` after one integration step over `delta_time`:
/// `position + velocity * delta_time`, velocity and the rest unchanged.
pub open spec fn integrated(ball: Poolball, delta_time: int) -> Poolball {
    Poolball {
        position: Vec2 {
            x: (ball.position.x + scaled_product(ball.velocity.x as int, delta_time)) as i64,
            y: (ball.position.y + scaled_product(ball.velocity.y as int, delta_time)) as i64,
        },
        ..ball
    }
}

/// Whether accelerating `ball` by `acceleration` over `delta_time` stays
/// within the `i64` range, component by component.
pub open spec fn accelerate_fits(ball: Poolball, acceleration: Vec2, delta_time: int) -> bool {
    &&& product_fits(acceleration.x as int, delta_time)
    &&& product_fits(acceleration.y as int, delta_time)
    &&& i64::MIN <= ball.velocity.x + scaled_product(acceleration.x as int, delta_time)
        <= i64::MAX
    &&& i64::MIN <= ball.velocity.y + scaled_product(acceleration.y as int, delta_time)
        <= i64::MAX
}

/// `ball` after one acceleration contribution over `delta_time`:
/// `velocity + acceleration * delta_time`, position and the rest unchanged.
pub open spec fn accelerated(ball: Poolball, acceleration: Vec2, delta_time: int) -> Poolball {
    Poolball {
        velocity: Vec2 {
            x: (ball.velocity.x + scaled_product(acceleration.x as int, delta_time)) as i64,
            y: (ball.velocity.y + scaled_product(acceleration.y as int, delta_time)) as i64,
        },
        ..ball
    }
}

/// Whether `ball` is exactly at rest: its velocity is the zero vector, with
/// no tolerance.
pub open spec fn stationary(ball: Poolball) -> bool {
    ball.velocity.is_zero()
}

impl Poolball {
    /// Creates a new ball at `position` with the given tag, the default mass
    /// and radius, and zero initial velocity.
    pub fn new(position: Vec2, ball_type: BallType) -> (ball: Poolball)
        ensures
            ball == fresh_ball(position, ball_type),
    {
        Poolball {
            position,
            radius: BALL_RADIUS,
            mass: BALL_MASS,
            velocity: Vec2 { x: 0, y: 0 },
            ball_type,
        }
    }

    /// Advances the position by `velocity * delta_time`. Nothing bounds the
    /// resulting position: a ball may leave any visible area.
    pub fn update(&mut self, delta_time: i64)
        requires
            update_fits(*old(self), delta_time as int),
        ensures
            *final(self) == integrated(*old(self), delta_time as int),
    {
        let dx: i64 = fx_mul(self.velocity.x, delta_time);
        let dy: i64 = fx_mul(self.velocity.y, delta_time);
        self.position.x = self.position.x + dx;
        self.position.y = self.position.y + dy;
    }

    /// Adds `acceleration * delta_time` to the velocity. Calling this once
    /// per attractor before a single [`Poolball::update`] accumulates all
    /// gravitational contributions of one tick.
    pub fn update_velocity(&mut self, acceleration: Vec2, delta_time: i64)
        requires
            accelerate_fits(*old(self), acceleration, delta_time as int),
        ensures
            *final(self) == accelerated(*old(self), acceleration, delta_time as int),
    {
        let dvx: i64 = fx_mul(acceleration.x, delta_time);
        let dvy: i64 = fx_mul(acceleration.y, delta_time);
        self.velocity.x = self.velocity.x + dvx;
        self.velocity.y = self.velocity.y + dvy;
    }

    /// Overwrites the velocity with `new_velocity`.
    pub fn set_velocity(&mut self, new_velocity: Vec2)
        ensures
            *final(self) == with_velocity(*old(self), new_velocity),
    {
        self.velocity = new_velocity;
    }

    /// Returns true exactly when the ball is at rest (velocity equal to the
    /// zero vector; no epsilon).
    pub fn is_stationary(&self) -> (r: bool)
        ensures
            r == stationary(*self),
    {
        self.velocity.x == 0 && self.velocity.y == 0
    }
}

/// Position integration linearity: one integration step translates the
/// position by exactly `velocity * delta_time` (the fixed-point product,
/// exact whenever `velocity * delta_time` is a whole number of micro-units —
/// in particular over one whole time unit) and leaves the velocity and
/// every other field unchanged.
pub proof fn lemma_integration_linear(ball: Poolball, delta_time: int)
    requires
        update_fits(ball, delta_time),
    ensures
        integrated(ball, delta_time).position.x == ball.position.x + scaled_product(
            ball.velocity.x as int,
            delta_time,
        ),
        integrated(ball, delta_time).position.y == ball.position.y + scaled_product(
            ball.velocity.y as int,
            delta_time,
        ),
        delta_time == crate::fixed::SCALE ==> integrated(ball, delta_time).position.x
            == ball.position.x + ball.velocity.x,
        delta_time == crate::fixed::SCALE ==> integrated(ball, delta_time).position.y
            == ball.position.y + ball.velocity.y,
        integrated(ball, delta_time).velocity == ball.velocity,
        integrated(ball, delta_time).radius == ball.radius,
        integrated(ball, delta_time).mass == ball.mass,
        integrated(ball, delta_time).ball_type == ball.ball_type,
{
    crate::fixed::lemma_scaled_product_unit(ball.velocity.x as int);
    crate::fixed::lemma_scaled_product_unit(ball.velocity.y as int);
}

/// Stationarity: a newly created ball is at rest, and a ball whose velocity
/// was just overwritten is at rest exactly when the written velocity is the
/// zero vector (exact equality, no tolerance).
pub proof fn lemma_stationarity(position: Vec2, ball_type: BallType, ball: Poolball, velocity: Vec2)
    ensures
        stationary(fresh_ball(position, ball_type)),
        stationary(with_velocity(ball, velocity)) <==> velocity.is_zero(),
{
}

/// Idempotence of the stationarity read: the result is a function of the
/// current velocity alone, so two reads without an intervening mutation
/// agree.
pub proof fn lemma_stationary_read_idempotent(ball: Poolball, first: bool, second: bool)
    requires
        first == stationary(ball),
        second == stationary(ball),
    ensures
        first == second,
{
}

/// Order-independence of multi-attractor accumulation: two acceleration
/// contributions applied over the same `delta_time` commute — either order
/// leaves the ball in the same state.
pub proof fn lemma_accumulation_order_independent(
    ball: Poolball,
    first: Vec2,
    second: Vec2,
    delta_time: int,
)
    requires
        accelerate_fits(ball, first, delta_time),
        accelerate_fits(ball, second, delta_time),
        accelerate_fits(accelerated(ball, first, delta_time), second, delta_time),
        accelerate_fits(accelerated(ball, second, delta_time), first, delta_time),
    ensures
        accelerated(accelerated(ball, first, delta_time), second, delta_time) == accelerated(
            accelerated(ball, second, delta_time),
            first,
            delta_time,
        ),
{
}

} // verus!
