//! The resolver's conservation behavior on concrete contacts.

use mel0n::fx::{add_sat, div_fx, sub_sat, SCALE};
use mel0n::physics::{resolve_collision, Body, Contact};
use mel0n::vec2::Vec2Fx;

// 20.0 units/s.
const V: i64 = 19200;

#[test]
pub fn conservation_of_energy() {
    let mass: i64 = 960; // 1.0
    let a = Body {
        restitution: SCALE,
        velocity: Vec2Fx { x: V, y: 0 },
        inverse_mass: 960, // 1 / 1.0
    };
    let b = Body {
        restitution: SCALE,
        velocity: Vec2Fx { x: -V, y: 0 },
        inverse_mass: 960,
    };
    let contact = Contact { normal: Vec2Fx { x: SCALE, y: 0 }, a, b };

    let lhs = (a.velocity.x - b.velocity.x).abs();

    let impulse = resolve_collision(contact);
    let ax = add_sat(a.velocity.x, div_fx(impulse.x, mass));
    let ay = add_sat(a.velocity.y, div_fx(impulse.y, mass));
    let bx = sub_sat(b.velocity.x, div_fx(impulse.x, mass));
    let by = sub_sat(b.velocity.y, div_fx(impulse.y, mass));

    assert_eq!(ax, -V);
    assert_eq!(bx, V);
    assert_eq!((ay, by), (0, 0));

    // Exact, not merely approximate, conservation of the relative speed.
    let rhs = (ax - bx).abs();
    assert_eq!(lhs, rhs);
}

#[test]
pub fn conservation_of_energy_with_mass() {
    let mass: i64 = 15360; // 16.0
    let a = Body {
        restitution: SCALE,
        velocity: Vec2Fx { x: V, y: 0 },
        inverse_mass: 60, // 1 / 16.0
    };
    let b = Body {
        restitution: SCALE,
        velocity: Vec2Fx { x: -V, y: 0 },
        inverse_mass: 60,
    };
    let contact = Contact { normal: Vec2Fx { x: SCALE, y: 0 }, a, b };

    let lhs = (a.velocity.x - b.velocity.x).abs();

    let impulse = resolve_collision(contact);
    let ax = add_sat(a.velocity.x, div_fx(impulse.x, mass));
    let bx = sub_sat(b.velocity.x, div_fx(impulse.x, mass));

    assert_eq!(ax, -V);
    assert_eq!(bx, V);

    let rhs = (ax - bx).abs();
    assert_eq!(lhs, rhs);
}

#[test]
pub fn inelastic_collision_standstill() {
    let a = Body {
        restitution: 0,
        velocity: Vec2Fx { x: V, y: 0 },
        inverse_mass: 960, // 1.0
    };
    let b = Body {
        restitution: 0,
        velocity: Vec2Fx { x: -V, y: 0 },
        inverse_mass: 960,
    };
    let contact = Contact { normal: Vec2Fx { x: SCALE, y: 0 }, a, b };

    let impulse = resolve_collision(contact);
    let ax = add_sat(a.velocity.x, impulse.x);
    let ay = add_sat(a.velocity.y, impulse.y);
    let bx = sub_sat(b.velocity.x, impulse.x);
    let by = sub_sat(b.velocity.y, impulse.y);

    assert_eq!((ax, ay), (0, 0));
    assert_eq!((bx, by), (0, 0));
}

#[test]
fn resolver_impulse_exact_value() {
    // Head-on at 20 units/s each, restitution 1, mass 1: the impulse is
    // -(1 + 1) * 40 / 2 = -40 units of momentum along the normal.
    let a = Body {
        restitution: SCALE,
        velocity: Vec2Fx { x: V, y: 0 },
        inverse_mass: 960,
    };
    let b = Body {
        restitution: SCALE,
        velocity: Vec2Fx { x: -V, y: 0 },
        inverse_mass: 960,
    };
    let impulse = resolve_collision(Contact { normal: Vec2Fx { x: SCALE, y: 0 }, a, b });
    assert_eq!(impulse.x, -38400); // -40.0
    assert_eq!(impulse.y, 0);
}
