//! Wall construction, the bounding helpers, and the arithmetic core.

use mel0n::body::{Collider, Diameter};
use mel0n::collision::{aabb2d, bounding_circle};
use mel0n::config::Config;
use mel0n::fx::{add_sat, clamp64, div_fx, isqrt, mul_fx, sub_sat, SCALE};
use mel0n::vec2::Vec2Fx;
use mel0n::wall::{add_walls, Wall, WallLocation};

#[test]
fn walls_are_built_once_for_each_side() {
    let cfg = Config::standard();
    let walls = add_walls(&cfg);
    assert_eq!(walls.len(), 4);
    // Left wall: centered at x = 62, half a unit thick, spanning the
    // arena height (147) plus the thickness, halved.
    assert_eq!(walls[0].position, Vec2Fx { x: 59520, y: 0 });
    assert_eq!(walls[0].collider.half_size, Vec2Fx { x: 480, y: 71040 });
    // Right wall.
    assert_eq!(walls[1].position, Vec2Fx { x: 170880, y: 0 });
    assert_eq!(walls[1].collider.half_size, Vec2Fx { x: 480, y: 71040 });
    // Bottom wall: spanning the arena width (116) plus the thickness.
    assert_eq!(walls[2].position, Vec2Fx { x: 0, y: 141120 });
    assert_eq!(walls[2].collider.half_size, Vec2Fx { x: 56160, y: 480 });
    // Top wall.
    assert_eq!(walls[3].position, Vec2Fx { x: 0, y: 0 });
    assert_eq!(walls[3].collider.half_size, Vec2Fx { x: 56160, y: 480 });
}

#[test]
fn single_wall_matches_its_location() {
    let cfg = Config::standard();
    let wall = Wall::new(WallLocation::Bottom, &cfg);
    assert_eq!(wall.position, WallLocation::Bottom.position(&cfg));
    assert_eq!(wall.position, Vec2Fx { x: 0, y: 141120 });
    let size = WallLocation::Bottom.size(&cfg);
    assert_eq!(size, Vec2Fx { x: 112320, y: 960 });
}

#[test]
fn bounding_circle_offsets_center_by_radius() {
    // A 16-unit fruit at (100, 30): radius 8, center at (108, 38).
    let c = bounding_circle(Diameter(15360), Vec2Fx { x: 96000, y: 28800 });
    assert_eq!(c.radius, 7680);
    assert_eq!(c.center, Vec2Fx { x: 103680, y: 36480 });
}

#[test]
fn overlap_is_distance_against_radius_sum() {
    let a = bounding_circle(Diameter(15360), Vec2Fx { x: 0, y: 0 });
    // 15.9 units apart on x: overlapping.
    let b = bounding_circle(Diameter(15360), Vec2Fx { x: 15264, y: 0 });
    assert!(a.intersects(&b));
    // 16.1 units apart: not overlapping.
    let c = bounding_circle(Diameter(15360), Vec2Fx { x: 15456, y: 0 });
    assert!(!a.intersects(&c));
    // Exactly touching counts as overlap.
    let d = bounding_circle(Diameter(15360), Vec2Fx { x: 15360, y: 0 });
    assert!(a.intersects(&d));
}

#[test]
fn aabb_spans_the_collider() {
    let bb = aabb2d(
        Vec2Fx { x: 1000, y: 2000 },
        &Collider { half_size: Vec2Fx { x: 480, y: 71040 } },
    );
    assert_eq!(bb.min, Vec2Fx { x: 1000, y: 2000 });
    assert_eq!(bb.max, Vec2Fx { x: 1960, y: 144080 });
}

#[test]
fn fixed_point_products_truncate_towards_zero() {
    assert_eq!(SCALE, 960);
    // 0.9 * 0.4 = 0.36: 345.6 raw, truncated to 345.
    assert_eq!(mul_fx(864, 384), 345);
    // The negative product truncates towards zero, not towards -infinity.
    assert_eq!(mul_fx(-864, 384), -345);
    // -0.2 * -5.0 = +1.0 exactly.
    assert_eq!(mul_fx(-192, -4800), 960);
}

#[test]
fn fixed_point_quotients_truncate_towards_zero() {
    // 1.0 / 3.0 = 0.333..: 320 raw.
    assert_eq!(div_fx(960, 2880), 320);
    assert_eq!(div_fx(-960, 2880), -320);
    // 40.0 / 16.0 = 2.5.
    assert_eq!(div_fx(38400, 15360), 2400);
}

#[test]
fn saturation_stops_at_the_symmetric_bound() {
    assert_eq!(add_sat(i64::MAX, 1), i64::MAX);
    assert_eq!(add_sat(i64::MAX, -1), i64::MAX - 1);
    assert_eq!(sub_sat(-i64::MAX, 5), -i64::MAX);
    assert_eq!(add_sat(5, 7), 12);
}

#[test]
fn clamping_is_exact() {
    assert_eq!(clamp64(5, 0, 10), 5);
    assert_eq!(clamp64(-5, 0, 10), 0);
    assert_eq!(clamp64(15, 0, 10), 10);
}

#[test]
fn integer_square_roots_are_exact_floors() {
    assert_eq!(isqrt(0), 0);
    assert_eq!(isqrt(1), 1);
    assert_eq!(isqrt(3), 1);
    assert_eq!(isqrt(4), 2);
    assert_eq!(isqrt(15360 * 15360), 15360);
    assert_eq!(isqrt(15360 * 15360 + 1), 15360);
    assert_eq!(isqrt(u64::MAX), 4294967295);
}

#[test]
fn standard_config_is_the_reference_tuning() {
    let cfg = Config::standard();
    assert_eq!(cfg.gravity_step, 384);
    assert_eq!(cfg.force_cap, 19200);
    assert_eq!(cfg.friction, 864);
    assert_eq!(cfg.mass, 15360);
    assert_eq!(cfg.inverse_mass, 60);
    assert_eq!(cfg.elasticity, 672);
    assert_eq!(cfg.left_wall, 59520);
    assert_eq!(cfg.right_wall, 170880);
    assert_eq!(cfg.bottom_wall, 141120);
    assert_eq!(cfg.top_wall, 0);
    assert_eq!(cfg.wall_thickness, 960);
    assert_eq!(cfg.bias_factor, 192);
    assert_eq!(cfg.bounce_factor, -192);
    assert_eq!(cfg.dt, 16);
}
