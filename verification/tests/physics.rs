// Tests for the particle physics steps: integrator, gravity accumulator,
// wall reflector, and the composed fixed tick.
//
// All quantities are fixed-point: milli-units for lengths, milli-units per
// second for speeds, milliseconds for time steps.

use particle_sandbox::config::Configuration;
use particle_sandbox::math::scale_step;
use particle_sandbox::particle::Particle;
use particle_sandbox::particle::apply_gravity;
use particle_sandbox::particle::apply_velocity;
use particle_sandbox::particle::fixed_tick;
use particle_sandbox::particle::resolve_collisions;

fn particle(px: i64, py: i64, vx: i64, vy: i64) -> Particle {
    let mut p = Particle::at_origin();
    p.position.x = px;
    p.position.y = py;
    p.velocity.x = vx;
    p.velocity.y = vy;
    p
}

// A 700 x 400 unit half-extent box with a 30-unit particle, the boundary
// setup used throughout the reflection tests.
fn reflection_config() -> Configuration {
    Configuration::new(0, 30_000, 700_000, 400_000)
}

#[test]
fn integrator_advances_position_by_velocity_times_dt() {
    // 3 units/s right, 4 units/s down, over half a second.
    let mut p = particle(1_000, 2_000, 3_000, -4_000);
    apply_velocity(&mut p, 500);
    assert_eq!(p.position.x, 2_500);
    assert_eq!(p.position.y, 0);
    assert_eq!(p.position.z, 0);
    assert_eq!(p.velocity.x, 3_000);
    assert_eq!(p.velocity.y, -4_000);
}

#[test]
fn integrator_is_exact_under_zero_gravity_tick() {
    // With zero gravity a whole fixed tick moves the particle by exactly
    // velocity * dt and leaves the velocity alone.
    let config = Configuration::new(0, 10_000, 700_000, 400_000);
    let mut p = particle(0, 0, 7_000, 9_000);
    fixed_tick(&mut p, &config, 250);
    assert_eq!(p.position.x, 1_750);
    assert_eq!(p.position.y, 2_250);
    assert_eq!(p.velocity.x, 7_000);
    assert_eq!(p.velocity.y, 9_000);
}

#[test]
fn integrator_with_zero_dt_is_a_no_op() {
    let mut p = particle(5_000, -6_000, 1_000, 2_000);
    let before = p;
    apply_velocity(&mut p, 0);
    assert_eq!(p, before);
}

#[test]
fn gravity_decreases_vertical_velocity_only() {
    // gravity 100 units/s^2 over 20 ms removes exactly 2 milli-units/s.
    let config = Configuration::new(100_000, 10_000, 700_000, 400_000);
    let mut p = particle(0, 0, 3_000, 5_000);
    apply_gravity(&mut p, &config, 20);
    assert_eq!(p.velocity.y, 3_000);
    assert_eq!(p.velocity.x, 3_000);
    assert_eq!(p.velocity.z, 0);
    assert_eq!(p.position.y, 0);
}

#[test]
fn gravity_with_zero_gravity_changes_nothing() {
    let config = Configuration::new(0, 10_000, 700_000, 400_000);
    let mut p = particle(0, 0, 3_000, 5_000);
    let before = p;
    apply_gravity(&mut p, &config, 1_000);
    assert_eq!(p, before);
}

#[test]
fn reflection_triggers_below_lower_boundary() {
    // Boundary sits at -(400 - 30/2) = -385 units; -390 is past it.
    let config = reflection_config();
    let mut p = particle(0, -390_000, 0, -50_000);
    resolve_collisions(&mut p, &config);
    assert_eq!(p.velocity.y, 50_000);
    assert_eq!(p.velocity.x, 0);
    assert_eq!(p.position.y, -390_000);
}

#[test]
fn no_reflection_inside_bounds() {
    // -300 units is well inside the -385 unit boundary: no velocity is
    // flipped, whatever the velocity.
    let config = reflection_config();
    for vy in [-50_000i64, -1, 0, 1, 50_000] {
        let mut p = particle(0, -300_000, 12_345, vy);
        resolve_collisions(&mut p, &config);
        assert_eq!(p.velocity.y, vy);
        assert_eq!(p.velocity.x, 12_345);
    }
}

#[test]
fn no_reflection_exactly_on_boundary() {
    // The test is strict: sitting exactly on the plane does not reflect.
    let config = reflection_config();
    let mut p = particle(0, -385_000, 0, -10_000);
    resolve_collisions(&mut p, &config);
    assert_eq!(p.velocity.y, -10_000);
}

#[test]
fn scale_step_truncates_toward_zero() {
    assert_eq!(scale_step(1_500, 1), 1);
    assert_eq!(scale_step(-1_500, 1), -1);
    assert_eq!(scale_step(999, 1), 0);
    assert_eq!(scale_step(-999, 1), 0);
    assert_eq!(scale_step(0, 1_000), 0);
    assert_eq!(scale_step(2_000, 500), 1_000);
}

#[test]
fn falling_particle_bounces_with_conserved_magnitude() {
    // gravity 100 units/s^2, start at rest at the origin, half-height 400,
    // radius 30, fixed dt = 20 ms.  The particle first reflects once its
    // fall distance passes 385 units (400 - 15), at 2.8 s ~ sqrt(2*385/100),
    // and each bounce is a lossless sign flip.
    let config = Configuration::new(100_000, 30_000, 700_000, 400_000);
    let mut p = particle(0, 0, 0, 0);
    let mut bounce_steps: Vec<u32> = Vec::new();
    let mut bounce_speeds: Vec<i64> = Vec::new();
    for step in 1..=800u32 {
        let vy_before = p.velocity.y;
        fixed_tick(&mut p, &config, 20);
        // Gravity removes exactly 2 milli-units/s of vertical speed per
        // tick; anything else must be a reflection.
        let fallen = vy_before - 2_000;
        if p.velocity.y == fallen {
            continue;
        }
        // Restitution 1: the flip conserves the magnitude exactly.
        assert_eq!(p.velocity.y, -fallen);
        assert!(fallen < 0, "only a falling particle reflects here");
        // The reflection happens past the lower boundary plane.
        assert!(p.position.y < -385_000);
        bounce_steps.push(step);
        bounce_speeds.push(p.velocity.y);
    }
    assert!(bounce_steps.len() >= 3);
    // First reflection at step 140, i.e. t = 2.8 s.
    assert_eq!(bounce_steps[0], 140);
    assert_eq!(bounce_speeds[0], 280_000);
    // Across consecutive bounces the impact speed is conserved up to a
    // single gravity increment (the flip itself is exactly lossless; the
    // discrete schedule applies gravity once more before each flip).
    for w in bounce_speeds.windows(2) {
        assert!((w[1] - w[0]).abs() <= 2_000);
    }
}

#[test]
fn configuration_clamps_out_of_range_values() {
    let c = Configuration::new(-5, 200_000, -1, 2_000_000_000);
    assert_eq!(c.gravity, 0);
    assert_eq!(c.particle_radius, 100_000);
    assert_eq!(c.bounding_half_extents.x, 0);
    assert_eq!(c.bounding_half_extents.y, 1_000_000_000);
}

#[test]
fn configuration_default_matches_startup_values() {
    let c = Configuration::default();
    assert_eq!(c.gravity, 0);
    assert_eq!(c.particle_radius, 10_000);
    assert_eq!(c.bounding_half_extents.x, 700_000);
    assert_eq!(c.bounding_half_extents.y, 400_000);
}
