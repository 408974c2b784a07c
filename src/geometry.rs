//! Fixed-point world arithmetic.
//!
//! Distances are measured in thousandths of a pixel, velocities in thousandths
//! of a pixel per second, accelerations in thousandths of a pixel per second
//! squared, and times in microseconds.
use vstd::prelude::*;

verus! {

/// Thousandths of a pixel in one pixel.
pub const UNITS_PER_PIXEL: i64 = 1000;

/// Microseconds in one second.
pub const MICROS_PER_SECOND: i64 = 1_000_000;

/// Largest magnitude of a position or velocity component of the player or
/// camera, and of a configured tunable.
pub const WORLD_LIMIT: i64 = 1_000_000_000_000;

/// Largest magnitude of a coordinate or size of level geometry.
pub const LEVEL_LIMIT: i64 = 100_000_000_000;

/// A point or extent in world space.
#[derive(Clone, Copy, Debug, PartialEq, Eq, Structural)]
pub struct Vec2 {
    pub x: i64,
    pub y: i64,
}

impl Vec2 {
    pub open spec fn in_world(self) -> bool {
        &&& -WORLD_LIMIT <= self.x <= WORLD_LIMIT
        &&& -WORLD_LIMIT <= self.y <= WORLD_LIMIT
    }

    pub fn zero() -> (r: Vec2)
        ensures
            r == (Vec2 { x: 0, y: 0 }),
    {
        Vec2 { x: 0, y: 0 }
    }
}

/// Clamps a value into `[-WORLD_LIMIT, WORLD_LIMIT]`.
pub open spec fn clamp_world(v: int) -> int {
    if v < -WORLD_LIMIT {
        -WORLD_LIMIT as int
    } else if v > WORLD_LIMIT {
        WORLD_LIMIT as int
    } else {
        v
    }
}

/// Integer division rounding toward zero, for a positive divisor.
pub open spec fn trunc_div(a: int, d: int) -> int {
    if a >= 0 {
        a / d
    } else {
        -((-a) / d)
    }
}

/// `|a|`.
pub open spec fn abs(a: int) -> int {
    if a < 0 {
        -a
    } else {
        a
    }
}

/// The sign of `a`: `-1`, `0` or `1`.
pub open spec fn sign(a: int) -> int {
    if a < 0 {
        -1
    } else if a > 0 {
        1
    } else {
        0
    }
}

pub open spec fn min(a: int, b: int) -> int {
    if a <= b {
        a
    } else {
        b
    }
}

pub open spec fn max(a: int, b: int) -> int {
    if a >= b {
        a
    } else {
        b
    }
}

/// Moves `current` toward `target` by at most `max_delta`, never past it.
/// A negative `max_delta` moves nothing.
pub open spec fn approach_spec(current: int, target: int, max_delta: int) -> int {
    if max_delta <= 0 {
        current
    } else if current < target {
        min(current + max_delta, target)
    } else {
        max(current - max_delta, target)
    }
}

pub proof fn lemma_trunc_div_bounds(a: int, d: int)
    requires
        d > 0,
    ensures
        abs(trunc_div(a, d)) <= abs(a),
        abs(trunc_div(a, d)) * d <= abs(a),
        a >= 0 ==> trunc_div(a, d) >= 0,
        a <= 0 ==> trunc_div(a, d) <= 0,
{
    if a >= 0 {
        assert(0 <= a / d <= a) by (nonlinear_arith)
            requires
                a >= 0,
                d > 0,
        ;
        assert((a / d) * d <= a) by (nonlinear_arith)
            requires
                a >= 0,
                d > 0,
        ;
    } else {
        let b = -a;
        assert(0 <= b / d <= b) by (nonlinear_arith)
            requires
                b >= 0,
                d > 0,
        ;
        assert((b / d) * d <= b) by (nonlinear_arith)
            requires
                b >= 0,
                d > 0,
        ;
    }
}

/// `|a * b| <= 2^126` whenever both factors fit in an `i64`.
pub proof fn lemma_i64_product_fits(a: int, b: int)
    requires
        i64::MIN <= a <= i64::MAX,
        i64::MIN <= b <= i64::MAX,
    ensures
        i128::MIN < a * b < i128::MAX,
{
    assert(abs(a) <= 0x8000_0000_0000_0000);
    assert(abs(b) <= 0x8000_0000_0000_0000);
    assert(abs(a * b) == abs(a) * abs(b)) by (nonlinear_arith);
    assert(abs(a) * abs(b) <= 0x8000_0000_0000_0000 * 0x8000_0000_0000_0000) by (nonlinear_arith)
        requires
            0 <= abs(a) <= 0x8000_0000_0000_0000,
            0 <= abs(b) <= 0x8000_0000_0000_0000,
    ;
}

/// `trunc_div(v * m, d)`, computed without overflow.
pub fn mul_div(v: i64, m: i64, d: i64) -> (r: i128)
    requires
        d > 0,
    ensures
        r == trunc_div(v * m, d as int),
        abs(r as int) <= abs(v * m),
        abs(r as int) * d <= abs(v * m),
{
    proof {
        lemma_i64_product_fits(v as int, m as int);
        lemma_trunc_div_bounds(v * m, d as int);
    }
    let p: i128 = v as i128 * m as i128;
    if p >= 0 {
        p / (d as i128)
    } else {
        let q: i128 = (-p) / (d as i128);
        -q
    }
}

/// Clamps a value into `[-WORLD_LIMIT, WORLD_LIMIT]`.
pub fn clamp_to_world(v: i128) -> (r: i64)
    ensures
        r == clamp_world(v as int),
{
    if v < -(WORLD_LIMIT as i128) {
        -WORLD_LIMIT
    } else if v > WORLD_LIMIT as i128 {
        WORLD_LIMIT
    } else {
        v as i64
    }
}

/// Moves `current` toward `target` by at most `max_delta` without overshooting.
pub fn approach(current: i64, target: i64, max_delta: i64) -> (r: i64)
    ensures
        r == approach_spec(current as int, target as int, max_delta as int),
        min(current as int, target as int) <= r <= max(current as int, target as int),
{
    if max_delta <= 0 {
        current
    } else if current < target {
        let room: i128 = target as i128 - current as i128;
        if (max_delta as i128) < room {
            current + max_delta
        } else {
            target
        }
    } else {
        let room: i128 = current as i128 - target as i128;
        if (max_delta as i128) < room {
            current - max_delta
        } else {
            target
        }
    }
}

} // verus!
