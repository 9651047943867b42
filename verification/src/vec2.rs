//! Plain 2D vectors and points in fixed-point micro-units.

use vstd::prelude::*;

verus! {

/// A 2D vector (or point) whose components are fixed-point scalars in
/// micro-units, as described in [`crate::fixed`].
#[derive(Clone, Copy, Debug, PartialEq, Eq, Structural)]
pub struct Vec2 {
    pub x: i64,
    pub y: i64,
}

impl Vec2 {
    /// Builds the vector with the given components.
    pub fn new(x: i64, y: i64) -> (v: Vec2)
        ensures
            v == (Vec2 { x, y }),
    {
        Vec2 { x, y }
    }

    /// The zero vector.
    pub fn zero() -> (v: Vec2)
        ensures
            v == (Vec2 { x: 0i64, y: 0i64 }),
    {
        Vec2 { x: 0, y: 0 }
    }

    /// Whether this is exactly the zero vector.
    pub open spec fn is_zero(self) -> bool {
        self.x == 0 && self.y == 0
    }
}

/// Squared Euclidean distance between the points `(ax, ay)` and `(bx, by)`,
/// in squared micro-units.
pub open spec fn dist_sq(ax: int, ay: int, bx: int, by: int) -> int {
    (ax - bx) * (ax - bx) + (ay - by) * (ay - by)
}

/// For non-negative lengths, comparing squares is the same as comparing the
/// lengths themselves: `a * a < b * b` exactly when `a < b`.
pub proof fn lemma_square_lt_iff(a: int, b: int)
    requires
        a >= 0,
        b >= 0,
    ensures
        (a * a < b * b) <==> (a < b),
{
    assert((a * a < b * b) <==> (a < b)) by (nonlinear_arith)
        requires
            a >= 0,
            b >= 0,
    ;
}

} // verus!
