//! The per-tick systems on concrete body sets.

use mel0n::body::SimBody;
use mel0n::collision::apply_collisions;
use mel0n::config::Config;
use mel0n::physics::{apply_friction, apply_gravity, integrate_position};
use mel0n::tick;
use mel0n::vec2::Vec2Fx;
use mel0n::wall::constrain_objects;

fn resting_fruit(x: i64, y: i64) -> SimBody {
    SimBody::fruit(Vec2Fx { x, y }, 15360)
}

#[test]
fn gravity_adds_one_step() {
    let cfg = Config::standard();
    let mut bodies = vec![resting_fruit(96000, 0)];
    apply_gravity(&mut bodies, &cfg);
    assert_eq!(bodies[0].forces.y, 384); // 0.4
    assert_eq!(bodies[0].forces.x, 0);
    assert_eq!(bodies[0].velocity, Vec2Fx { x: 0, y: 0 });
}

#[test]
fn gravity_skips_bodies_without_gravity() {
    let cfg = Config::standard();
    let mut b = resting_fruit(96000, 0);
    b.has_gravity = false;
    let mut bodies = vec![b];
    apply_gravity(&mut bodies, &cfg);
    assert_eq!(bodies[0].forces.y, 0);
}

#[test]
fn gravity_approaches_cap_monotonically() {
    // Iterating the gravity step alone must approach the 20.0 force cap
    // monotonically and never overshoot it.
    let cfg = Config::standard();
    let mut bodies = vec![resting_fruit(96000, 0)];
    let mut previous: i64 = 0;
    for _ in 0..60 {
        apply_gravity(&mut bodies, &cfg);
        let fy = bodies[0].forces.y;
        assert!(fy >= previous);
        assert!(fy <= 19200);
        previous = fy;
    }
    // 60 steps of 0.4 would be 24.0; the accumulator sits exactly at the cap.
    assert_eq!(bodies[0].forces.y, 19200);
}

#[test]
fn friction_scales_both_axes() {
    let cfg = Config::standard();
    let mut b = resting_fruit(96000, 0);
    b.forces = Vec2Fx { x: 1000, y: -2000 };
    let mut bodies = vec![b];
    apply_friction(&mut bodies, &cfg);
    // 0.9 * 1000 = 900 and 0.9 * -2000 = -1800, exactly.
    assert_eq!(bodies[0].forces, Vec2Fx { x: 900, y: -1800 });
}

#[test]
fn integrator_clears_forces_and_moves() {
    let cfg = Config::standard();
    let mut b = resting_fruit(96000, 48000);
    b.forces = Vec2Fx { x: 960, y: 384 };
    b.velocity = Vec2Fx { x: 4800, y: 0 };
    let mut bodies = vec![b];
    integrate_position(&mut bodies, &cfg);
    // Semi-implicit Euler: the force joins the velocity first.
    assert_eq!(bodies[0].velocity, Vec2Fx { x: 5760, y: 384 });
    // position += velocity * (1/60): 5760/60 = 96, 384/60 = 6.4 -> 6.
    assert_eq!(bodies[0].position, Vec2Fx { x: 96096, y: 48006 });
    // The accumulator is exactly zero afterwards, whatever it held.
    assert_eq!(bodies[0].forces, Vec2Fx { x: 0, y: 0 });
}

#[test]
fn integrator_clears_forces_for_every_body() {
    let cfg = Config::standard();
    let mut a = resting_fruit(60000, 0);
    a.forces = Vec2Fx { x: -123456, y: 654321 };
    let mut b = resting_fruit(90000, 5000);
    b.forces = Vec2Fx { x: 7, y: -9 };
    let mut bodies = vec![a, b];
    integrate_position(&mut bodies, &cfg);
    for body in &bodies {
        assert_eq!(body.forces, Vec2Fx { x: 0, y: 0 });
    }
}

#[test]
fn moving_apart_pair_is_skipped() {
    let cfg = Config::standard();
    // Two overlapping fruits whose relative velocity points along the
    // separation: the resolver must leave the velocities untouched.
    let mut a = resting_fruit(96000, 48000);
    a.velocity = Vec2Fx { x: -4800, y: 0 };
    let mut b = resting_fruit(96000 + 9600, 48000);
    b.velocity = Vec2Fx { x: 4800, y: 0 };
    let mut bodies = vec![a, b];
    let events = apply_collisions(&mut bodies, &cfg);
    assert_eq!(bodies[0].velocity, Vec2Fx { x: -4800, y: 0 });
    assert_eq!(bodies[1].velocity, Vec2Fx { x: 4800, y: 0 });
    // The overlap is still counted, but nothing is emitted.
    assert_eq!(bodies[0].collided, 1);
    assert_eq!(bodies[1].collided, 1);
    assert_eq!(events.len(), 0);
}

#[test]
fn approaching_pair_is_resolved() {
    let cfg = Config::standard();
    let mut a = resting_fruit(96000, 48000);
    a.velocity = Vec2Fx { x: 4800, y: 0 };
    let mut b = resting_fruit(96000 + 9600, 48000);
    b.velocity = Vec2Fx { x: -4800, y: 0 };
    let mut bodies = vec![a, b];
    let events = apply_collisions(&mut bodies, &cfg);
    // One event per body, with opposite impulses and the shared mass.
    assert_eq!(events.len(), 2);
    assert_eq!(events[0].pos, Vec2Fx { x: 96000, y: 48000 });
    assert_eq!(events[1].pos, Vec2Fx { x: 96000 + 9600, y: 48000 });
    assert_eq!(events[0].imp.x, -events[1].imp.x);
    assert_eq!(events[0].imp.y, -events[1].imp.y);
    assert_ne!(events[0].imp.x, 0);
    assert_eq!(events[0].mass, 15360);
    assert_eq!(bodies[0].collided, 1);
    assert_eq!(bodies[1].collided, 1);
    // The velocities changed: a is pushed back to the left.
    assert!(bodies[0].velocity.x < 4800);
    assert!(bodies[1].velocity.x > -4800);
}

#[test]
fn coincident_centers_are_skipped() {
    let cfg = Config::standard();
    let mut a = resting_fruit(96000, 48000);
    a.velocity = Vec2Fx { x: 960, y: 0 };
    let b = resting_fruit(96000, 48000);
    let mut bodies = vec![a, b];
    let events = apply_collisions(&mut bodies, &cfg);
    // Degenerate geometry: the overlap counts, nothing else happens.
    assert_eq!(bodies[0].collided, 1);
    assert_eq!(bodies[1].collided, 1);
    assert_eq!(bodies[0].velocity, Vec2Fx { x: 960, y: 0 });
    assert_eq!(bodies[1].velocity, Vec2Fx { x: 0, y: 0 });
    assert_eq!(events.len(), 0);
}

#[test]
fn static_bodies_do_not_collide() {
    let cfg = Config::standard();
    let mut a = resting_fruit(96000, 48000);
    a.is_dynamic_collider = false;
    let b = resting_fruit(96000, 48000);
    let mut bodies = vec![a, b];
    let events = apply_collisions(&mut bodies, &cfg);
    assert_eq!(bodies[0].collided, 0);
    assert_eq!(bodies[1].collided, 0);
    assert_eq!(events.len(), 0);
}

#[test]
fn containment_from_wild_positions() {
    let cfg = Config::standard();
    // Far left, far right, far below: all clamped into the arena.
    let far = vec![
        resting_fruit(-4000000, 0),
        resting_fruit(4000000000, 0),
        resting_fruit(96000, 3000000000),
    ];
    let mut bodies = far;
    constrain_objects(&mut bodies, &cfg);
    for b in &bodies {
        assert!(b.position.x >= 59520);
        assert!(b.position.x <= 170880 - 15360);
        assert!(b.position.y <= 141120 - 15360);
    }
    assert_eq!(bodies[0].position.x, 59520);
    assert_eq!(bodies[1].position.x, 155520);
    assert_eq!(bodies[2].position.y, 125760);
}

#[test]
fn bounce_flips_only_the_violating_axis() {
    let cfg = Config::standard();
    // Driven out on the left with incoming vx = -5.0: the x velocity
    // becomes -0.2 * -5.0 = +1.0, the y velocity is untouched.
    let mut b = resting_fruit(10000, 48000);
    b.velocity = Vec2Fx { x: -4800, y: 777 };
    let mut bodies = vec![b];
    constrain_objects(&mut bodies, &cfg);
    assert_eq!(bodies[0].velocity.x, 960);
    assert_eq!(bodies[0].velocity.y, 777);
    assert_eq!(bodies[0].position.x, 59520);
}

#[test]
fn in_bounds_body_is_untouched() {
    let cfg = Config::standard();
    let mut b = resting_fruit(96000, 48000);
    b.velocity = Vec2Fx { x: 123, y: -456 };
    let mut bodies = vec![b];
    constrain_objects(&mut bodies, &cfg);
    assert_eq!(bodies[0].position, Vec2Fx { x: 96000, y: 48000 });
    assert_eq!(bodies[0].velocity, Vec2Fx { x: 123, y: -456 });
}

#[test]
fn above_the_arena_is_allowed() {
    let cfg = Config::standard();
    // There is deliberately no upper clamp on y: a body twenty thousand
    // units up is left exactly where it is, velocity included.
    let mut b = resting_fruit(96000, -20000000);
    b.velocity = Vec2Fx { x: 0, y: -100 };
    let mut bodies = vec![b];
    constrain_objects(&mut bodies, &cfg);
    assert_eq!(bodies[0].position.y, -20000000);
    assert_eq!(bodies[0].velocity.y, -100);
}

#[test]
fn bias_is_carried_along_the_normal() {
    let cfg = Config::standard();
    // Two fruits stacked vertically, approaching: the contact normal is
    // (0, 1), so the penetration bias must move them apart vertically
    // and leave the horizontal velocities at exactly zero.
    let mut a = resting_fruit(96000, 48000);
    a.velocity = Vec2Fx { x: 0, y: 4800 };
    let mut b = resting_fruit(96000, 48000 + 9600);
    b.velocity = Vec2Fx { x: 0, y: -4800 };
    let mut bodies = vec![a, b];
    let events = apply_collisions(&mut bodies, &cfg);
    assert_eq!(events.len(), 2);
    assert_eq!(bodies[0].velocity, Vec2Fx { x: 0, y: 960 });
    assert_eq!(bodies[1].velocity, Vec2Fx { x: 0, y: -960 });
}

#[test]
fn host_guards_mirror_the_preconditions() {
    let cfg = Config::standard();
    assert!(cfg.is_valid());
    let mut broken = cfg;
    broken.left_wall = broken.right_wall;
    assert!(!broken.is_valid());
    assert!(mel0n::wall::body_fits_arena(&resting_fruit(96000, 0), &cfg));
    // A body wider than the arena cannot be clamped into it.
    let too_wide = SimBody::fruit(Vec2Fx { x: 96000, y: 0 }, 200000);
    assert!(!mel0n::wall::body_fits_arena(&too_wide, &cfg));
}

#[test]
fn tick_runs_the_pipeline_in_order() {
    let cfg = Config::standard();
    let mut bodies = vec![resting_fruit(96000, 48000)];
    let events = tick(&mut bodies, &cfg);
    // Gravity adds 0.4, friction damps it to 0.36 (345.6 truncated to
    // 345), the integrator turns it into velocity and moves the body by
    // 345/60 = 5.75, truncated to 5; the accumulator ends empty.
    assert_eq!(events.len(), 0);
    assert_eq!(bodies[0].forces, Vec2Fx { x: 0, y: 0 });
    assert_eq!(bodies[0].velocity, Vec2Fx { x: 0, y: 345 });
    assert_eq!(bodies[0].position, Vec2Fx { x: 96000, y: 48005 });
}

#[test]
fn falling_fruit_comes_to_rest_on_the_floor() {
    let cfg = Config::standard();
    let mut bodies = vec![resting_fruit(96000, 48000)];
    for _ in 0..600 {
        tick(&mut bodies, &cfg);
    }
    // After ten simulated seconds the fruit sits on the bottom bound.
    assert_eq!(bodies[0].position.y, 141120 - 15360);
    assert_eq!(bodies[0].position.x, 96000);
}

#[test]
fn pipeline_supports_other_tick_rates() {
    // The same world at 64 Hz: dt = 1/64 s is exactly representable.
    let mut cfg = Config::standard();
    cfg.dt = 15;
    let mut bodies = vec![resting_fruit(96000, 48000)];
    tick(&mut bodies, &cfg);
    // Gravity then friction give 345 as at 60 Hz; the step moves the
    // body by 345 * 15 / 960 = 5.39.., truncated to 5.
    assert_eq!(bodies[0].velocity, Vec2Fx { x: 0, y: 345 });
    assert_eq!(bodies[0].position, Vec2Fx { x: 96000, y: 48005 });
    assert_eq!(bodies[0].forces, Vec2Fx { x: 0, y: 0 });
}
