//! Per-particle kinematic state and the three physics steps.
//!
//! Each fixed tick runs, in order: the integrator ([`apply_velocity`]), the
//! gravity accumulator ([`apply_gravity`]), and the wall reflector
//! ([`resolve_collisions`]).  The integrator therefore always uses the
//! velocity computed at the end of the previous tick, so the position lags
//! gravity by exactly one tick — a deliberate ordering choice, kept as is.

use vstd::prelude::*;
use crate::config::Configuration;
use crate::config::GRAVITY_LIMIT;
use crate::math::COORD_LIMIT;
use crate::math::DT_LIMIT;
use crate::math::SPEED_LIMIT;
use crate::math::Vec3;
use crate::math::displacement;
use crate::math::lemma_displacement_bound;
use crate::math::scale_step;

verus! {

/// Kinematic state of one particle.  The simulation is planar: both `z`
/// components stay 0 under every step that starts with `z == 0`.
#[derive(Clone, Copy, Debug, PartialEq, Eq, Structural)]
pub struct Particle {
    /// Position in milli-units.
    pub position: Vec3,
    /// Velocity in milli-units per second.
    pub velocity: Vec3,
}

/// Every component of `v` has magnitude at most `limit`.
pub open spec fn vec_within(v: Vec3, limit: int) -> bool {
    &&& -limit <= v.x <= limit
    &&& -limit <= v.y <= limit
    &&& -limit <= v.z <= limit
}

/// The particle's position crosses the lower boundary plane, so the wall
/// reflector will invert its vertical velocity.
pub open spec fn crosses_lower_boundary(p: Particle, config: Configuration) -> bool {
    p.position.y < config.lower_boundary()
}

impl Particle {
    /// A particle at rest at the origin, as spawned at startup.
    pub fn at_origin() -> (p: Particle)
        ensures
            p.position == (Vec3 { x: 0, y: 0, z: 0 }),
            p.velocity == (Vec3 { x: 0, y: 0, z: 0 }),
    {
        Particle {
            position: Vec3 { x: 0, y: 0, z: 0 },
            velocity: Vec3 { x: 0, y: 0, z: 0 },
        }
    }
}

/// Integrator: advances the position by `velocity * dt`, leaving the
/// velocity untouched.  Holds for any gravity setting, since the integrator
/// never reads the configuration.
pub fn apply_velocity(p: &mut Particle, dt: u32)
    requires
        vec_within(old(p).position, COORD_LIMIT as int),
        vec_within(old(p).velocity, SPEED_LIMIT as int),
        dt <= DT_LIMIT,
    ensures
        final(p).position.x == old(p).position.x + displacement(old(p).velocity.x as int, dt as int),
        final(p).position.y == old(p).position.y + displacement(old(p).velocity.y as int, dt as int),
        final(p).position.z == old(p).position.z + displacement(old(p).velocity.z as int, dt as int),
        final(p).velocity == old(p).velocity,
{
    let dx = scale_step(p.velocity.x, dt);
    let dy = scale_step(p.velocity.y, dt);
    let dz = scale_step(p.velocity.z, dt);
    p.position.x = p.position.x + dx;
    p.position.y = p.position.y + dy;
    p.position.z = p.position.z + dz;
}

/// Gravity accumulator: decreases the vertical velocity by
/// `gravity * dt`, leaving the horizontal velocity and the position
/// untouched.
pub fn apply_gravity(p: &mut Particle, config: &Configuration, dt: u32)
    requires
        config.wf(),
        vec_within(old(p).velocity, SPEED_LIMIT as int),
        dt <= DT_LIMIT,
    ensures
        final(p).velocity.y == old(p).velocity.y - displacement(config.gravity as int, dt as int),
        final(p).velocity.x == old(p).velocity.x,
        final(p).velocity.z == old(p).velocity.z,
        final(p).position == old(p).position,
{
    let dv = scale_step(config.gravity, dt);
    proof {
        lemma_displacement_bound(
            config.gravity as int,
            dt as int,
            GRAVITY_LIMIT as int,
            DT_LIMIT as int,
        );
    }
    p.velocity.y = p.velocity.y - dv;
}

/// Wall reflector: inverts the vertical velocity exactly when the position
/// lies strictly below the lower boundary plane.  A particle inside the
/// boundary keeps its velocity unchanged, whatever that velocity is.  Only
/// the lower wall is collided against; the other three walls are visual
/// only, faithfully to the modeled sandbox.  The reflection is a lossless
/// sign flip (restitution 1), and the position is never altered.
pub fn resolve_collisions(p: &mut Particle, config: &Configuration)
    requires
        config.wf(),
        old(p).velocity.y > i64::MIN,
    ensures
        final(p).position == old(p).position,
        final(p).velocity.x == old(p).velocity.x,
        final(p).velocity.z == old(p).velocity.z,
        crosses_lower_boundary(*old(p), *config) ==> final(p).velocity.y == -old(p).velocity.y,
        !crosses_lower_boundary(*old(p), *config) ==> final(p).velocity.y == old(p).velocity.y,
{
    let half_radius: i64 = config.particle_radius / 2;
    let boundary: i64 = -(config.bounding_half_extents.y - half_radius);
    if p.position.y < boundary {
        p.velocity.y = -p.velocity.y;
    }
}

/// One fixed tick: integrator, then gravity accumulator, then wall
/// reflector, in the strict scheduling order of the sandbox.
pub fn fixed_tick(p: &mut Particle, config: &Configuration, dt: u32)
    requires
        config.wf(),
        vec_within(old(p).position, COORD_LIMIT as int),
        vec_within(old(p).velocity, SPEED_LIMIT as int),
        dt <= DT_LIMIT,
    ensures
        final(p).position.x == old(p).position.x + displacement(old(p).velocity.x as int, dt as int),
        final(p).position.y == old(p).position.y + displacement(old(p).velocity.y as int, dt as int),
        final(p).position.z == old(p).position.z + displacement(old(p).velocity.z as int, dt as int),
        final(p).velocity.x == old(p).velocity.x,
        final(p).velocity.z == old(p).velocity.z,
        ({
            let fallen = old(p).velocity.y - displacement(config.gravity as int, dt as int);
            if final(p).position.y < config.lower_boundary() {
                final(p).velocity.y == -fallen
            } else {
                final(p).velocity.y == fallen
            }
        }),
{
    apply_velocity(p, dt);
    apply_gravity(p, config, dt);
    proof {
        lemma_displacement_bound(
            config.gravity as int,
            dt as int,
            GRAVITY_LIMIT as int,
            DT_LIMIT as int,
        );
    }
    resolve_collisions(p, config);
}

} // verus!
