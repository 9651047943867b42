//! Fixed-point scalars.
//!
//! Every physical quantity in this crate (coordinates, velocities,
//! accelerations, radii, masses, time steps) is an `i64` holding a number of
//! micro-units: one world unit is [`SCALE`] micro-units. Products of two
//! such scalars are rescaled with a division that truncates toward zero;
//! [`scaled_product`] is the mathematical definition and [`fx_mul`] the
//! executable form, proved exact whenever the result is representable.

use vstd::prelude::*;

verus! {

/// Number of micro-units in one world unit.
pub const SCALE: i64 = 1_000_000;

/// Integer division truncated toward zero (the rounding used by the
/// fixed-point product), defined for a positive divisor.
pub open spec fn trunc_div(p: int, q: int) -> int {
    if p >= 0 {
        p / q
    } else {
        -((-p) / q)
    }
}

/// Product of two fixed-point scalars, rescaled back to micro-units.
pub open spec fn scaled_product(a: int, b: int) -> int {
    trunc_div(a * b, SCALE as int)
}

/// Whether the rescaled product of two `i64` fixed-point scalars is itself
/// representable as an `i64`.
pub open spec fn product_fits(a: int, b: int) -> bool {
    i64::MIN <= scaled_product(a, b) <= i64::MAX
}

/// Fixed-point multiplication: `a * b` in micro-units, truncated toward zero.
pub fn fx_mul(a: i64, b: i64) -> (r: i64)
    requires
        product_fits(a as int, b as int),
    ensures
        r == scaled_product(a as int, b as int),
{
    proof {
        lemma_i64_product_in_i128(a as int, b as int);
    }
    let p: i128 = (a as i128) * (b as i128);
    if p >= 0 {
        let q: i128 = p / (SCALE as i128);
        q as i64
    } else {
        let q: i128 = (-p) / (SCALE as i128);
        (-q) as i64
    }
}

/// The product of two `i64` values always fits in an `i128`.
proof fn lemma_i64_product_in_i128(a: int, b: int)
    requires
        i64::MIN <= a <= i64::MAX,
        i64::MIN <= b <= i64::MAX,
    ensures
        -0x4000_0000_0000_0000_0000_0000_0000_0000 <= a * b
            <= 0x4000_0000_0000_0000_0000_0000_0000_0000,
{
    assert(-0x4000_0000_0000_0000_0000_0000_0000_0000 <= a * b
        <= 0x4000_0000_0000_0000_0000_0000_0000_0000) by (nonlinear_arith)
        requires
            -0x8000_0000_0000_0000 <= a <= 0x7fff_ffff_ffff_ffff,
            -0x8000_0000_0000_0000 <= b <= 0x7fff_ffff_ffff_ffff,
    ;
}

/// Multiplying by one whole world unit (`SCALE` micro-units) is exact:
/// the rescaled product of `a` and `SCALE` is `a` itself.
pub proof fn lemma_scaled_product_unit(a: int)
    ensures
        scaled_product(a, SCALE as int) == a,
{
    assert(a * (SCALE as int) == a * 1_000_000) by (nonlinear_arith);
    if a >= 0 {
        assert((a * 1_000_000) / 1_000_000 == a) by (nonlinear_arith);
    } else {
        assert(-(a * 1_000_000) == (-a) * 1_000_000) by (nonlinear_arith);
        assert(((-a) * 1_000_000) / 1_000_000 == -a) by (nonlinear_arith);
    }
}

} // verus!
