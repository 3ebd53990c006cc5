//! Runtime-tunable simulation parameters.
//!
//! A host editor may overwrite any field between ticks; the physics steps
//! read a fresh snapshot each tick.  Out-of-range values are clamped
//! defensively when a snapshot is built, since there is no error channel
//! back to the editor.

use vstd::prelude::*;
use crate::math::Vec2;

verus! {

/// Largest gravity magnitude (milli-units per second squared) a
/// configuration can hold: 1000 world units per second squared.
pub const GRAVITY_LIMIT: i64 = 1_000_000;

/// Largest particle radius (milli-units) a configuration can hold:
/// 100 world units.
pub const RADIUS_LIMIT: i64 = 100_000;

/// Largest bounding-box half-extent (milli-units) a configuration can hold:
/// one million world units.
pub const EXTENT_LIMIT: i64 = 1_000_000_000;

/// Tunable simulation parameters, in milli-units.
#[derive(Clone, Copy, Debug, PartialEq, Eq, Structural)]
pub struct Configuration {
    /// Acceleration magnitude applied along the negative vertical axis,
    /// in milli-units per second squared.
    pub gravity: i64,
    /// Particle radius used for the wall-contact offset, in milli-units.
    pub particle_radius: i64,
    /// Half-width and half-height of the rectangular play area,
    /// in milli-units.
    pub bounding_half_extents: Vec2,
}

/// `v` clamped to `[lo, hi]`.
pub open spec fn clamped(v: int, lo: int, hi: int) -> int {
    if v < lo {
        lo
    } else if v > hi {
        hi
    } else {
        v
    }
}

/// Clamps `v` to `[lo, hi]`.
pub fn clamp(v: i64, lo: i64, hi: i64) -> (r: i64)
    requires
        lo <= hi,
    ensures
        r == clamped(v as int, lo as int, hi as int),
{
    if v < lo {
        lo
    } else if v > hi {
        hi
    } else {
        v
    }
}

impl Configuration {
    /// Every field is non-negative and within its configurable range.
    pub open spec fn wf(self) -> bool {
        &&& 0 <= self.gravity <= GRAVITY_LIMIT
        &&& 0 <= self.particle_radius <= RADIUS_LIMIT
        &&& 0 <= self.bounding_half_extents.x <= EXTENT_LIMIT
        &&& 0 <= self.bounding_half_extents.y <= EXTENT_LIMIT
    }

    /// Builds a snapshot from raw editor values, clamping each field to its
    /// configurable range.
    pub fn new(gravity: i64, particle_radius: i64, half_extent_x: i64, half_extent_y: i64) -> (c:
        Configuration)
        ensures
            c.wf(),
            c.gravity == clamped(gravity as int, 0, GRAVITY_LIMIT as int),
            c.particle_radius == clamped(particle_radius as int, 0, RADIUS_LIMIT as int),
            c.bounding_half_extents.x == clamped(half_extent_x as int, 0, EXTENT_LIMIT as int),
            c.bounding_half_extents.y == clamped(half_extent_y as int, 0, EXTENT_LIMIT as int),
    {
        Configuration {
            gravity: clamp(gravity, 0, GRAVITY_LIMIT),
            particle_radius: clamp(particle_radius, 0, RADIUS_LIMIT),
            bounding_half_extents: Vec2 {
                x: clamp(half_extent_x, 0, EXTENT_LIMIT),
                y: clamp(half_extent_y, 0, EXTENT_LIMIT),
            },
        }
    }

    /// The lower boundary plane for wall contact: the particle reflects once
    /// its vertical position falls strictly below
    /// `-(half_height - radius / 2)`.
    pub open spec fn lower_boundary(self) -> int {
        -(self.bounding_half_extents.y - self.particle_radius / 2)
    }
}

impl Default for Configuration {
    /// The startup snapshot: no gravity, a 10-unit particle, and a
    /// 700 x 400 unit half-extent play area.
    fn default() -> (c: Configuration)
        ensures
            c.wf(),
            c.gravity == 0,
            c.particle_radius == 10_000,
            c.bounding_half_extents == (Vec2 { x: 700_000, y: 400_000 }),
    {
        Configuration {
            gravity: 0,
            particle_radius: 10_000,
            bounding_half_extents: Vec2 { x: 700_000, y: 400_000 },
        }
    }
}

} // verus!
