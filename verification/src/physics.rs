//! The per-tick force sources and the integrator.
//!
//! Each system walks the body set once and rewrites each body
//! independently; the contracts give the new body set as a map of a
//! per-body step function over the old one.

use vstd::prelude::*;

use crate::body::SimBody;
use crate::config::Config;
use crate::fx::{
    add_sat, add_sat_spec, clamp64, clamp64_spec, div_fx, div_fx_spec, min64, min64_spec, mul_fx,
    mul_fx_spec, neg_sat, neg_sat_spec, SCALE,
};
use crate::vec2::{v2, v2_add_spec, v2_dot_spec, v2_scale_spec, v2_sub_spec, Vec2Fx};

verus! {

/// One body after the gravity source ran: a gravity-affected body gets
/// `gravity_step` added to the vertical component of its force
/// accumulator, which is then clamped to `[-force_cap, force_cap]`; any
/// other body is untouched.
pub open spec fn gravity_body(b: SimBody, cfg: Config) -> SimBody {
    if b.has_gravity {
        SimBody {
            forces: Vec2Fx {
                x: b.forces.x,
                y: clamp64_spec(
                    add_sat_spec(b.forces.y, cfg.gravity_step),
                    neg_sat_spec(cfg.force_cap),
                    cfg.force_cap,
                ),
            },
            ..b
        }
    } else {
        b
    }
}

/// The whole body set after the gravity source ran.
pub open spec fn gravity_all(s: Seq<SimBody>, cfg: Config) -> Seq<SimBody> {
    s.map_values(|b: SimBody| gravity_body(b, cfg))
}

/// One body after the friction source ran: both components of its force
/// accumulator are scaled by the friction factor.
pub open spec fn friction_body(b: SimBody, cfg: Config) -> SimBody {
    SimBody { forces: v2_scale_spec(b.forces, cfg.friction), ..b }
}

/// The whole body set after the friction source ran.
pub open spec fn friction_all(s: Seq<SimBody>, cfg: Config) -> Seq<SimBody> {
    s.map_values(|b: SimBody| friction_body(b, cfg))
}

/// One body after the integrator ran (semi-implicit Euler): the pending
/// force joins the velocity as an acceleration, the updated velocity moves
/// the position by `velocity * dt`, and the force accumulator is cleared.
pub open spec fn integrate_body(b: SimBody, cfg: Config) -> SimBody {
    let vel = v2_add_spec(b.velocity, b.forces);
    SimBody {
        position: v2_add_spec(b.position, v2_scale_spec(vel, cfg.dt)),
        velocity: vel,
        forces: v2(0, 0),
        ..b
    }
}

/// The whole body set after the integrator ran.
pub open spec fn integrate_all(s: Seq<SimBody>, cfg: Config) -> Seq<SimBody> {
    s.map_values(|b: SimBody| integrate_body(b, cfg))
}

/// Adds the per-tick gravity contribution to every gravity-affected body
/// and caps the accumulated vertical force.
pub fn apply_gravity(bodies: &mut Vec<SimBody>, cfg: &Config)
    requires
        cfg.valid(),
    ensures
        final(bodies)@ == gravity_all(old(bodies)@, *cfg),
{
    let n = bodies.len();
    let mut i: usize = 0;
    while i < n
        invariant
            cfg.valid(),
            i <= n,
            bodies@.len() == n,
            old(bodies)@.len() == n,
            forall|k: int| 0 <= k < i ==> bodies@[k] == gravity_body(old(bodies)@[k], *cfg),
            forall|k: int| i <= k < n ==> bodies@[k] == old(bodies)@[k],
        decreases n - i,
    {
        let b = bodies[i];
        if b.has_gravity {
            let fy = clamp64(
                add_sat(b.forces.y, cfg.gravity_step),
                neg_sat(cfg.force_cap),
                cfg.force_cap,
            );
            bodies[i] = SimBody { forces: Vec2Fx { x: b.forces.x, y: fy }, ..b };
        }
        i += 1;
    }
    proof {
        assert(bodies@ =~= gravity_all(old(bodies)@, *cfg));
    }
}

/// Damps the pending force of every body by the friction factor.
pub fn apply_friction(bodies: &mut Vec<SimBody>, cfg: &Config)
    requires
        cfg.valid(),
    ensures
        final(bodies)@ == friction_all(old(bodies)@, *cfg),
{
    let n = bodies.len();
    let mut i: usize = 0;
    while i < n
        invariant
            i <= n,
            bodies@.len() == n,
            old(bodies)@.len() == n,
            forall|k: int| 0 <= k < i ==> bodies@[k] == friction_body(old(bodies)@[k], *cfg),
            forall|k: int| i <= k < n ==> bodies@[k] == old(bodies)@[k],
        decreases n - i,
    {
        let b = bodies[i];
        let forces = Vec2Fx {
            x: mul_fx(b.forces.x, cfg.friction),
            y: mul_fx(b.forces.y, cfg.friction),
        };
        bodies[i] = SimBody { forces, ..b };
        i += 1;
    }
    proof {
        assert(bodies@ =~= friction_all(old(bodies)@, *cfg));
    }
}

/// Integrates every body one fixed tick: `velocity += forces`,
/// `position += velocity * dt`, and the force accumulator is reset to
/// zero.
pub fn integrate_position(bodies: &mut Vec<SimBody>, cfg: &Config)
    requires
        cfg.valid(),
    ensures
        final(bodies)@ == integrate_all(old(bodies)@, *cfg),
        forall|k: int|
            0 <= k < final(bodies)@.len() ==> #[trigger] final(bodies)@[k].forces == v2(0, 0),
{
    let n = bodies.len();
    let mut i: usize = 0;
    while i < n
        invariant
            i <= n,
            bodies@.len() == n,
            old(bodies)@.len() == n,
            forall|k: int| 0 <= k < i ==> bodies@[k] == integrate_body(old(bodies)@[k], *cfg),
            forall|k: int| i <= k < n ==> bodies@[k] == old(bodies)@[k],
        decreases n - i,
    {
        let b = bodies[i];
        let vel = b.velocity.plus(b.forces);
        let position = b.position.plus(vel.scaled(cfg.dt));
        bodies[i] = SimBody { position, velocity: vel, forces: Vec2Fx { x: 0, y: 0 }, ..b };
        i += 1;
    }
    proof {
        assert(bodies@ =~= integrate_all(old(bodies)@, *cfg));
    }
}

/// The resolver's view of one body in a contact: what the impulse formula
/// reads.
#[derive(Clone, Copy, PartialEq, Eq, Structural, Debug)]
pub struct Body {
    /// Coefficient of restitution in [0, 1].
    pub restitution: i64,
    /// Velocity at the time of contact.
    pub velocity: Vec2Fx,
    /// Reciprocal of the body's mass.
    pub inverse_mass: i64,
}

/// A transient contact between two overlapping bodies: the unit collision
/// normal (pointing from `a` towards `b`) and the two bodies' resolver
/// views.  It exists only while one pair is resolved.
#[derive(Clone, Copy, PartialEq, Eq, Structural, Debug)]
pub struct Contact {
    pub normal: Vec2Fx,
    pub a: Body,
    pub b: Body,
}

/// Whether `n` is a unit vector up to the precision of the fixed-point
/// normalization: its squared length is within 4 raw steps of `SCALE`.
pub open spec fn nearly_unit(n: Vec2Fx) -> bool {
    (SCALE - 4) * (SCALE - 4) <= n.x * n.x + n.y * n.y <= (SCALE + 4) * (SCALE + 4)
}

/// Whether `n` passes the defensive unit check.
pub fn is_nearly_unit(n: Vec2Fx) -> (r: bool)
    ensures
        r == nearly_unit(n),
{
    if n.x < -2000 || n.x > 2000 || n.y < -2000 || n.y > 2000 {
        proof {
            if n.x < -2000 || n.x > 2000 {
                assert(n.x * n.x > (SCALE + 4) * (SCALE + 4)) by (nonlinear_arith)
                    requires
                        n.x < -2000 || n.x > 2000,
                        SCALE == 960,
                ;
                assert(n.y * n.y >= 0) by (nonlinear_arith);
            } else {
                assert(n.y * n.y > (SCALE + 4) * (SCALE + 4)) by (nonlinear_arith)
                    requires
                        n.y < -2000 || n.y > 2000,
                        SCALE == 960,
                ;
                assert(n.x * n.x >= 0) by (nonlinear_arith);
            }
        }
        false
    } else {
        proof {
            assert(0 <= n.x * n.x <= 2000 * 2000 && 0 <= n.y * n.y <= 2000 * 2000)
                by (nonlinear_arith)
                requires
                    -2000 <= n.x <= 2000,
                    -2000 <= n.y <= 2000,
            ;
        }
        proof {
            assert((SCALE - 4) * (SCALE - 4) == 913936 && (SCALE + 4) * (SCALE + 4) == 929296)
                by (nonlinear_arith)
                requires
                    SCALE == 960,
            ;
        }
        let s: i64 = n.x * n.x + n.y * n.y;
        913936 <= s && s <= 929296
    }
}

/// The scalar impulse magnitude of resolving `c`: with `e` the smaller
/// restitution, `-(1 + e) * dot(v_a - v_b, normal) / (w_a + w_b)`.
pub open spec fn resolve_mag_spec(c: Contact) -> i64 {
    let e = min64_spec(c.a.restitution, c.b.restitution);
    let rel = v2_sub_spec(c.a.velocity, c.b.velocity);
    let along = v2_dot_spec(rel, c.normal);
    let t = mul_fx_spec(add_sat_spec(SCALE, e), along);
    let wsum = add_sat_spec(c.a.inverse_mass, c.b.inverse_mass);
    div_fx_spec(neg_sat_spec(t), wsum)
}

/// The impulse produced by resolving `c`: the magnitude of
/// [`resolve_mag_spec`], carried along the normal.
pub open spec fn resolve_spec(c: Contact) -> Vec2Fx {
    v2_scale_spec(c.normal, resolve_mag_spec(c))
}

/// The scalar impulse magnitude of one contact.  The caller splits it
/// along the normal, together with any positional-correction bias.
pub fn resolve_magnitude(contact: Contact) -> (mag: i64)
    requires
        nearly_unit(contact.normal),
        0 <= min64_spec(contact.a.restitution, contact.b.restitution) <= SCALE,
        add_sat_spec(contact.a.inverse_mass, contact.b.inverse_mass) > 0,
    ensures
        mag == resolve_mag_spec(contact),
{
    let a = contact.a;
    let b = contact.b;
    // Elasticity (coefficient of restitution).
    let e = min64(a.restitution, b.restitution);
    let rel_v = a.velocity.minus(b.velocity);
    let along = rel_v.dot(contact.normal);
    let t = mul_fx(add_sat(SCALE, e), along);
    let wsum = add_sat(a.inverse_mass, b.inverse_mass);
    div_fx(neg_sat(t), wsum)
}

/// Linear impulse resolution of one contact.
///
/// With equal masses and restitution 1 the returned impulse exactly swaps
/// the two velocities' components along the normal; with restitution 0 it
/// cancels them (see the conservation laws in [`crate::laws`]).
pub fn resolve_collision(contact: Contact) -> (impulse: Vec2Fx)
    requires
        nearly_unit(contact.normal),
        0 <= min64_spec(contact.a.restitution, contact.b.restitution) <= SCALE,
        add_sat_spec(contact.a.inverse_mass, contact.b.inverse_mass) > 0,
    ensures
        impulse == resolve_spec(contact),
{
    let impulse_mag = resolve_magnitude(contact);
    let impulse_dir = contact.normal;
    impulse_dir.scaled(impulse_mag)
}

} // verus!
