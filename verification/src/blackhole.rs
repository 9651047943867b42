//! The gravity source of the sandbox: a blackhole fixed at one position,
//! with a mass, a deadly core radius and a larger influence radius
//! ("reach"). A blackhole keeps no state about the balls; every query is a
//! pure function of the current positions.

use vstd::arithmetic::div_mod::lemma_div_pos_is_pos;
use vstd::prelude::*;

use crate::fixed::trunc_div;
use crate::poolball::Poolball;
use crate::vec2::{dist_sq, lemma_square_lt_iff, Vec2};

verus! {

/// Gravitational constant, in micro-units: one whole world unit.
pub const GRAVITY: i64 = 1_000_000;

/// Largest coordinate or radius magnitude, in micro-units, that the
/// proximity and gravity queries accept: squares and sums of squares of
/// values up to twice this bound stay far inside the `i128` range.
pub const COORD_LIMIT: i64 = 1_000_000_000_000_000;

/// Whether one fixed-point scalar lies within [`COORD_LIMIT`].
pub open spec fn in_coord_range(v: int) -> bool {
    -(COORD_LIMIT as int) <= v <= COORD_LIMIT as int
}

/// A fixed gravity source. `radius` bounds the deadly zone around
/// `position`; gravity is felt out to `reach` (`radius <= reach` is the
/// intended shape of a blackhole, assumed rather than enforced, as is the
/// positivity of all three scalars).
#[derive(Clone, Copy, Debug, PartialEq, Eq, Structural)]
pub struct Blackhole {
    pub position: Vec2,
    pub mass: i64,
    pub radius: i64,
    pub reach: i64,
}

/// The destruction predicate: the ball's center lies strictly closer to the
/// blackhole's center than the sum of the two radii. Stated over squared
/// distances, which compare exactly like distances (see
/// [`lemma_spagettified_iff_distance_below`]); tangency does not destroy.
pub open spec fn spagettified(hole: Blackhole, ball: Poolball) -> bool {
    center_dist_sq(hole, ball) < (hole.radius + ball.radius) * (hole.radius + ball.radius)
}

/// Squared distance between the centers of `hole` and `ball`, in squared
/// micro-units.
pub open spec fn center_dist_sq(hole: Blackhole, ball: Poolball) -> int {
    dist_sq(
        hole.position.x as int,
        hole.position.y as int,
        ball.position.x as int,
        ball.position.y as int,
    )
}

/// Whether every scalar that the proximity test squares lies within
/// [`COORD_LIMIT`].
pub open spec fn proximity_in_range(hole: Blackhole, ball: Poolball) -> bool {
    &&& in_coord_range(hole.position.x as int)
    &&& in_coord_range(hole.position.y as int)
    &&& in_coord_range(ball.position.x as int)
    &&& in_coord_range(ball.position.y as int)
    &&& in_coord_range(hole.radius as int)
    &&& in_coord_range(ball.radius as int)
}

/// The x component of the gravitational acceleration that `hole` exerts on
/// `ball`: `GRAVITY * mass * (hole.position - ball.position) / d²`, which
/// pulls toward the hole with a magnitude of `GRAVITY * mass / d` — it
/// attenuates inversely with the center distance `d`. Zero at or beyond
/// `reach`, and zero for coincident centers, where no direction exists.
pub open spec fn gravity_accel_x(hole: Blackhole, ball: Poolball) -> int {
    let d2 = center_dist_sq(hole, ball);
    if d2 == 0 || d2 >= hole.reach * hole.reach {
        0
    } else {
        trunc_div(GRAVITY * hole.mass * (hole.position.x - ball.position.x), d2)
    }
}

/// The y component of the gravitational acceleration; see
/// [`gravity_accel_x`].
pub open spec fn gravity_accel_y(hole: Blackhole, ball: Poolball) -> int {
    let d2 = center_dist_sq(hole, ball);
    if d2 == 0 || d2 >= hole.reach * hole.reach {
        0
    } else {
        trunc_div(GRAVITY * hole.mass * (hole.position.y - ball.position.y), d2)
    }
}

/// Whether both components of the gravitational acceleration have a
/// magnitude representable as an `i64`.
pub open spec fn gravity_fits(hole: Blackhole, ball: Poolball) -> bool {
    &&& -(i64::MAX as int) <= gravity_accel_x(hole, ball) <= i64::MAX as int
    &&& -(i64::MAX as int) <= gravity_accel_y(hole, ball) <= i64::MAX as int
}

/// Whether every scalar that the gravity computation multiplies lies within
/// [`COORD_LIMIT`].
pub open spec fn gravity_in_range(hole: Blackhole, ball: Poolball) -> bool {
    &&& in_coord_range(hole.position.x as int)
    &&& in_coord_range(hole.position.y as int)
    &&& in_coord_range(ball.position.x as int)
    &&& in_coord_range(ball.position.y as int)
    &&& in_coord_range(hole.mass as int)
    &&& in_coord_range(hole.reach as int)
}

impl Blackhole {
    /// Creates a new blackhole with the given position, mass, deadly radius
    /// and gravity reach, stored verbatim.
    pub fn new(position: Vec2, mass: i64, radius: i64, reach: i64) -> (hole: Blackhole)
        ensures
            hole == (Blackhole { position, mass, radius, reach }),
    {
        Blackhole { position, mass, radius, reach }
    }

    /// Returns true exactly when `ball` is within the deadly range of this
    /// blackhole: distance between the centers strictly below
    /// `self.radius + ball.radius`.
    pub fn is_spagettified(&self, ball: &Poolball) -> (r: bool)
        requires
            proximity_in_range(*self, *ball),
        ensures
            r == spagettified(*self, *ball),
    {
        let dx: i128 = self.position.x as i128 - ball.position.x as i128;
        let dy: i128 = self.position.y as i128 - ball.position.y as i128;
        let rsum: i128 = self.radius as i128 + ball.radius as i128;
        proof {
            lemma_square_within_coord_limit(dx as int);
            lemma_square_within_coord_limit(dy as int);
            lemma_square_within_coord_limit(rsum as int);
        }
        let d2: i128 = dx * dx + dy * dy;
        let rr: i128 = rsum * rsum;
        d2 < rr
    }

    /// Gravitational acceleration that this blackhole exerts on `ball`, as
    /// stated by [`gravity_accel_x`] and [`gravity_accel_y`]: pulling
    /// toward the hole, attenuating inversely with distance, zero at or
    /// beyond `reach`. Returns `None` exactly when a component's magnitude
    /// is not representable, which takes an extreme mass next to a tiny
    /// center distance; the zero vector of an out-of-reach ball is always
    /// representable.
    pub fn gravity_acceleration(&self, ball: &Poolball) -> (r: Option<Vec2>)
        requires
            gravity_in_range(*self, *ball),
        ensures
            match r {
                Some(a) => gravity_fits(*self, *ball) && a.x == gravity_accel_x(*self, *ball)
                    && a.y == gravity_accel_y(*self, *ball),
                None => !gravity_fits(*self, *ball),
            },
    {
        let dx: i128 = self.position.x as i128 - ball.position.x as i128;
        let dy: i128 = self.position.y as i128 - ball.position.y as i128;
        proof {
            lemma_square_within_coord_limit(dx as int);
            lemma_square_within_coord_limit(dy as int);
            lemma_square_within_coord_limit(self.reach as int);
        }
        let d2: i128 = dx * dx + dy * dy;
        let rr: i128 = (self.reach as i128) * (self.reach as i128);
        if d2 == 0 || d2 >= rr {
            return Some(Vec2::new(0, 0));
        }
        proof {
            lemma_gravity_numerator_bound(self.mass as int, dx as int);
            lemma_gravity_numerator_bound(self.mass as int, dy as int);
        }
        let gm: i128 = (GRAVITY as i128) * (self.mass as i128);
        let nx: i128 = gm * dx;
        let ny: i128 = gm * dy;
        let qx: u128 = if nx >= 0 {
            (nx as u128) / (d2 as u128)
        } else {
            ((-nx) as u128) / (d2 as u128)
        };
        let qy: u128 = if ny >= 0 {
            (ny as u128) / (d2 as u128)
        } else {
            ((-ny) as u128) / (d2 as u128)
        };
        if qx > i64::MAX as u128 || qy > i64::MAX as u128 {
            return None;
        }
        let ax: i64 = if nx >= 0 {
            qx as i64
        } else {
            -(qx as i64)
        };
        let ay: i64 = if ny >= 0 {
            qy as i64
        } else {
            -(qy as i64)
        };
        Some(Vec2::new(ax, ay))
    }
}

/// Destruction threshold, strict inequality: whenever `distance` is the
/// exact Euclidean distance between the two centers (its square equals the
/// squared distance), the ball is spagettified exactly when
/// `distance < hole.radius + ball.radius`. In particular a ball at distance
/// equal to the sum of the radii, or beyond it, is not destroyed.
pub proof fn lemma_spagettified_iff_distance_below(hole: Blackhole, ball: Poolball, distance: int)
    requires
        distance >= 0,
        hole.radius + ball.radius >= 0,
        distance * distance == center_dist_sq(hole, ball),
    ensures
        spagettified(hole, ball) <==> distance < hole.radius + ball.radius,
{
    lemma_square_lt_iff(distance, hole.radius + ball.radius);
}

/// Gravity is attractive: for a blackhole of non-negative mass, each
/// component of the acceleration has the sign of the displacement from the
/// ball toward the hole (or is zero).
pub proof fn lemma_gravity_pulls_toward(hole: Blackhole, ball: Poolball)
    requires
        hole.mass >= 0,
    ensures
        hole.position.x - ball.position.x >= 0 ==> gravity_accel_x(hole, ball) >= 0,
        hole.position.x - ball.position.x <= 0 ==> gravity_accel_x(hole, ball) <= 0,
        hole.position.y - ball.position.y >= 0 ==> gravity_accel_y(hole, ball) >= 0,
        hole.position.y - ball.position.y <= 0 ==> gravity_accel_y(hole, ball) <= 0,
{
    let d2 = center_dist_sq(hole, ball);
    assert(d2 >= 0) by {
        let ddx = hole.position.x - ball.position.x;
        let ddy = hole.position.y - ball.position.y;
        assert(ddx * ddx >= 0) by (nonlinear_arith);
        assert(ddy * ddy >= 0) by (nonlinear_arith);
    }
    if d2 != 0 && d2 < hole.reach * hole.reach {
        lemma_signed_attraction_component(hole.mass as int, hole.position.x - ball.position.x, d2);
        lemma_signed_attraction_component(hole.mass as int, hole.position.y - ball.position.y, d2);
    }
}

/// Idempotence of the destruction read: the result is a function of the
/// current fields alone, so two reads without an intervening mutation agree.
pub proof fn lemma_destruction_read_idempotent(
    hole: Blackhole,
    ball: Poolball,
    first: bool,
    second: bool,
)
    requires
        first == spagettified(hole, ball),
        second == spagettified(hole, ball),
    ensures
        first == second,
{
}

/// The square of a scalar of magnitude at most `2 * COORD_LIMIT` stays far
/// inside the `i128` range.
proof fn lemma_square_within_coord_limit(v: int)
    requires
        -2_000_000_000_000_000 <= v <= 2_000_000_000_000_000,
    ensures
        0 <= v * v <= 4_000_000_000_000_000_000_000_000_000_000,
{
    assert(0 <= v * v <= 4_000_000_000_000_000_000_000_000_000_000) by (nonlinear_arith)
        requires
            -2_000_000_000_000_000 <= v <= 2_000_000_000_000_000,
    ;
}

/// Bounds on the gravity numerator `GRAVITY * mass * delta` for scalars
/// within [`COORD_LIMIT`]: every partial product stays far inside the
/// `i128` range.
proof fn lemma_gravity_numerator_bound(mass: int, delta: int)
    requires
        -1_000_000_000_000_000 <= mass <= 1_000_000_000_000_000,
        -2_000_000_000_000_000 <= delta <= 2_000_000_000_000_000,
    ensures
        -1_000_000_000_000_000_000_000 <= 1_000_000 * mass <= 1_000_000_000_000_000_000_000,
        -2_000_000_000_000_000_000_000_000_000_000_000_000 <= (1_000_000 * mass) * delta
            <= 2_000_000_000_000_000_000_000_000_000_000_000_000,
{
    assert(-1_000_000_000_000_000_000_000 <= 1_000_000 * mass
        <= 1_000_000_000_000_000_000_000) by (nonlinear_arith)
        requires
            -1_000_000_000_000_000 <= mass <= 1_000_000_000_000_000,
    ;
    assert(-2_000_000_000_000_000_000_000_000_000_000_000_000 <= (1_000_000 * mass) * delta
        <= 2_000_000_000_000_000_000_000_000_000_000_000_000) by (nonlinear_arith)
        requires
            -1_000_000_000_000_000_000_000 <= 1_000_000 * mass <= 1_000_000_000_000_000_000_000,
            -2_000_000_000_000_000 <= delta <= 2_000_000_000_000_000,
    ;
}

/// One component of the attraction: `GRAVITY * mass * delta / d2` carries
/// the sign of `delta` when the mass is non-negative and `d2` positive.
proof fn lemma_signed_attraction_component(mass: int, delta: int, d2: int)
    requires
        mass >= 0,
        d2 > 0,
    ensures
        delta >= 0 ==> trunc_div(GRAVITY * mass * delta, d2) >= 0,
        delta <= 0 ==> trunc_div(GRAVITY * mass * delta, d2) <= 0,
{
    let n = GRAVITY * mass * delta;
    if delta >= 0 {
        assert(n >= 0) by (nonlinear_arith)
            requires
                n == 1_000_000 * mass * delta,
                mass >= 0,
                delta >= 0,
        ;
        lemma_div_pos_is_pos(n, d2);
    } else {
        assert(n <= 0) by (nonlinear_arith)
            requires
                n == 1_000_000 * mass * delta,
                mass >= 0,
                delta <= 0,
        ;
        lemma_div_pos_is_pos(-n, d2);
    }
}

} // verus!
