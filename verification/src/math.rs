//! Fixed-point vectors and the scaled product used by the physics steps.
//!
//! Coordinates and speeds are `i64` values in milli-units; durations are
//! `u32` values in milliseconds.  Advancing a coordinate by a speed over a
//! duration multiplies the two and divides by [`SCALE`], truncating toward
//! zero.

use vstd::prelude::*;

verus! {

/// Milli-units per world unit, and milliseconds per second.
pub const SCALE: i64 = 1000;

/// Largest speed magnitude (milli-units per second) the physics steps accept.
pub const SPEED_LIMIT: i64 = 1_000_000_000_000;

/// Largest coordinate magnitude (milli-units) the physics steps accept.
pub const COORD_LIMIT: i64 = 1_000_000_000_000_000;

/// Largest time step (milliseconds) the physics steps accept.
pub const DT_LIMIT: u32 = 1_000_000;

/// A planar vector in milli-units.
#[derive(Clone, Copy, Debug, PartialEq, Eq, Structural)]
pub struct Vec2 {
    pub x: i64,
    pub y: i64,
}

/// A spatial vector in milli-units; the simulation is planar, so `z` stays 0.
#[derive(Clone, Copy, Debug, PartialEq, Eq, Structural)]
pub struct Vec3 {
    pub x: i64,
    pub y: i64,
    pub z: i64,
}

/// Distance covered at speed `v` (milli-units per second) over `dt`
/// milliseconds: `v * dt / SCALE`, truncated toward zero.
pub open spec fn displacement(v: int, dt: int) -> int {
    if v >= 0 {
        (v * dt) / (SCALE as int)
    } else {
        -(((-v) * dt) / (SCALE as int))
    }
}

/// The scaled product stays within `bound * d` when its factors are bounded.
pub proof fn lemma_displacement_bound(v: int, dt: int, bound: int, d: int)
    requires
        -bound <= v <= bound,
        0 <= dt <= d,
        0 <= bound,
    ensures
        -(bound * d) <= displacement(v, dt) <= bound * d,
        dt == 0 ==> displacement(v, dt) == 0,
        v >= 0 ==> displacement(v, dt) >= 0,
{
    if v >= 0 {
        assert(0 <= v * dt <= bound * d) by (nonlinear_arith)
            requires
                0 <= v <= bound,
                0 <= dt <= d,
        ;
        assert(0 <= (v * dt) / 1000 <= v * dt) by (nonlinear_arith)
            requires
                0 <= v * dt,
        ;
    } else {
        assert(0 <= (-v) * dt <= bound * d) by (nonlinear_arith)
            requires
                0 < -v <= bound,
                0 <= dt <= d,
        ;
        assert(0 <= ((-v) * dt) / 1000 <= (-v) * dt) by (nonlinear_arith)
            requires
                0 <= (-v) * dt,
        ;
    }
    if dt == 0 {
        assert(v * dt == 0 && (-v) * dt == 0) by (nonlinear_arith)
            requires
                dt == 0,
        ;
    }
}

/// Computes [`displacement`] on machine integers.
pub fn scale_step(v: i64, dt: u32) -> (r: i64)
    requires
        -SPEED_LIMIT <= v <= SPEED_LIMIT,
        dt <= DT_LIMIT,
    ensures
        r == displacement(v as int, dt as int),
        -(SPEED_LIMIT * DT_LIMIT) <= r <= SPEED_LIMIT * DT_LIMIT,
{
    proof {
        lemma_displacement_bound(v as int, dt as int, SPEED_LIMIT as int, DT_LIMIT as int);
    }
    let dt64: i64 = dt as i64;
    if v >= 0 {
        assert(0 <= v * dt64 <= SPEED_LIMIT * DT_LIMIT) by (nonlinear_arith)
            requires
                0 <= v <= SPEED_LIMIT,
                0 <= dt64 <= DT_LIMIT,
        ;
        (v * dt64) / SCALE
    } else {
        assert(0 <= (-v) * dt64 <= SPEED_LIMIT * DT_LIMIT) by (nonlinear_arith)
            requires
                -SPEED_LIMIT <= v < 0,
                0 <= dt64 <= DT_LIMIT,
        ;
        -(((-v) * dt64) / SCALE)
    }
}

} // verus!
