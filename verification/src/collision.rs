//! Collision detection and resolution over the whole body set.
//!
//! Every unordered pair of dynamic colliders is tested for circle-circle
//! overlap and, where it overlaps, resolved once per tick, in a fixed
//! lexicographic pair order (resolution is order-sensitive when more than
//! two bodies overlap at once).  The contract gives the outcome as a
//! recursive fold, [`collide_from`], of the single-pair step
//! [`pair_result`] over that pair order.

use vstd::prelude::*;

use crate::body::{Collider, Diameter, SimBody};
use crate::config::Config;
use crate::fx::{
    abs_sat, abs_sat_spec, add_sat, add_sat_spec, div_fx, div_fx_spec, div_trunc, div_trunc_spec,
    dot_is_positive, isqrt, isqrt_spec, mul_fx, mul_fx_spec, sat64, sub_sat, sub_sat_spec,
};
use crate::physics::{
    is_nearly_unit, nearly_unit, resolve_mag_spec, resolve_magnitude, resolve_spec, Body, Contact,
};
use crate::vec2::{v2_add_spec, v2_neg_spec, v2_sub_spec, Vec2Fx};

verus! {

/// The bounding circle of a dynamic body: its radius is half the
/// diameter, and its center sits at the body's position offset by the
/// radius on both axes.
#[derive(Clone, Copy, PartialEq, Eq, Structural, Debug)]
pub struct BoundingCircle {
    pub center: Vec2Fx,
    pub radius: i64,
}

/// An axis-aligned bounding box, by its two corners.
#[derive(Clone, Copy, PartialEq, Eq, Structural, Debug)]
pub struct Aabb2d {
    pub min: Vec2Fx,
    pub max: Vec2Fx,
}

/// One visualization event per body per resolved contact: the body's
/// position, its signed impulse, and the shared body mass.  A pure side
/// channel for the host; never read back by the physics core.
#[derive(Clone, Copy, PartialEq, Eq, Structural, Debug)]
pub struct ImpulseGizmoEvent {
    pub pos: Vec2Fx,
    pub imp: Vec2Fx,
    pub mass: i64,
}

pub open spec fn bounding_circle_spec(diameter: i64, translation: Vec2Fx) -> BoundingCircle {
    let r = div_trunc_spec(diameter, 2);
    BoundingCircle {
        center: Vec2Fx { x: add_sat_spec(translation.x, r), y: add_sat_spec(translation.y, r) },
        radius: r,
    }
}

/// The bounding circle of a body with the given diameter at the given
/// position.
pub fn bounding_circle(diameter: Diameter, translation: Vec2Fx) -> (c: BoundingCircle)
    ensures
        c == bounding_circle_spec(diameter.0, translation),
{
    let r = div_trunc(diameter.0, 2);
    BoundingCircle {
        center: Vec2Fx { x: add_sat(translation.x, r), y: add_sat(translation.y, r) },
        radius: r,
    }
}

pub open spec fn aabb2d_spec(translation: Vec2Fx, collider: Collider) -> Aabb2d {
    let center = v2_add_spec(translation, collider.half_size);
    Aabb2d {
        min: v2_sub_spec(center, collider.half_size),
        max: v2_add_spec(center, collider.half_size),
    }
}

/// The axis-aligned bounding box of a wall: its center sits at the wall's
/// position offset by the half extent.
pub fn aabb2d(translation: Vec2Fx, collider: &Collider) -> (bb: Aabb2d)
    ensures
        bb == aabb2d_spec(translation, *collider),
{
    let center = translation.plus(collider.half_size);
    Aabb2d { min: center.minus(collider.half_size), max: center.plus(collider.half_size) }
}

/// Circle-circle intersection: the distance between the centers is at
/// most the sum of the radii (compared by squares).
pub open spec fn circles_intersect(a: BoundingCircle, b: BoundingCircle) -> bool {
    let dx = sat64(b.center.x - a.center.x);
    let dy = sat64(b.center.y - a.center.y);
    let rs = sat64(a.radius + b.radius);
    dx * dx + dy * dy <= rs * rs
}

proof fn lemma_square_sum_fits(a: int, b: int)
    requires
        -i64::MAX <= a <= i64::MAX,
        -i64::MAX <= b <= i64::MAX,
    ensures
        0 <= a * a,
        0 <= b * b,
        a * a + b * b <= i128::MAX,
{
    assert(0 <= a * a && 0 <= b * b && a * a + b * b <= i128::MAX) by (nonlinear_arith)
        requires
            -i64::MAX <= a <= i64::MAX,
            -i64::MAX <= b <= i64::MAX,
    ;
}

impl BoundingCircle {
    /// Whether this circle and `other` overlap.
    pub fn intersects(&self, other: &BoundingCircle) -> (r: bool)
        ensures
            r == circles_intersect(*self, *other),
    {
        let dx = sub_sat(other.center.x, self.center.x);
        let dy = sub_sat(other.center.y, self.center.y);
        let rs = add_sat(self.radius, other.radius);
        proof {
            lemma_square_sum_fits(dx as int, dy as int);
            lemma_square_sum_fits(rs as int, rs as int);
        }
        let d2: i128 = (dx as i128) * (dx as i128) + (dy as i128) * (dy as i128);
        let r2: i128 = (rs as i128) * (rs as i128);
        d2 <= r2
    }
}

/// The length of the separation vector `(dx, dy)`: the integer square
/// root of the squared length, which is first clipped into the i64 range.
pub open spec fn sep_len_spec(dx: i64, dy: i64) -> i64 {
    let d2 = dx * dx + dy * dy;
    let clipped = if d2 > i64::MAX { i64::MAX as int } else { d2 };
    isqrt_spec(clipped as nat) as i64
}

proof fn lemma_isqrt_small(r: nat)
    requires
        r * r <= i64::MAX,
    ensures
        r <= 3037000499,
{
    if r > 3037000499 {
        assert(r * r > i64::MAX) by (nonlinear_arith)
            requires
                r > 3037000499,
        ;
    }
}

/// The length of the separation vector `(dx, dy)`.
pub fn sep_len(dx: i64, dy: i64) -> (len: i64)
    requires
        -i64::MAX <= dx,
        -i64::MAX <= dy,
    ensures
        len == sep_len_spec(dx, dy),
        0 <= len <= 3037000499,
{
    proof {
        lemma_square_sum_fits(dx as int, dy as int);
    }
    let d2: i128 = (dx as i128) * (dx as i128) + (dy as i128) * (dy as i128);
    let clipped: u64 = if d2 > i64::MAX as i128 {
        i64::MAX as u64
    } else {
        d2 as u64
    };
    let len = isqrt(clipped);
    proof {
        lemma_isqrt_small(len as nat);
    }
    len as i64
}

/// A collision counter bumped by one more resolved contact (the counter
/// holds at its maximum rather than wrapping).
pub open spec fn bump_count(c: u32) -> u32 {
    if c < u32::MAX {
        (c + 1) as u32
    } else {
        c
    }
}

/// The body set and the emitted events after the detector examined the
/// (ordered) index pair `(i, j)`:
///
/// - a pair that is out of range, not two distinct dynamic colliders, or
///   whose bounding circles do not overlap is left untouched;
/// - an overlapping pair has both collision counters bumped, and then
///   - a pair with coincident centers, or whose computed normal fails the
///     defensive unit check, is skipped (degenerate geometry);
///   - a pair already moving apart (`dot(v_b - v_a, p_b - p_a) > 0`) is
///     skipped, so that a separating pair is not re-resolved inward;
///   - otherwise the scalar impulse magnitude of [`resolve_mag_spec`],
///     with the penetration bias `(bias_factor / dt) * |penetration|`
///     added to it, is carried along the unit normal, mass-normalized,
///     and applied to both velocities (added to `a`, subtracted from
///     `b`); one event per body is emitted, carrying the unbiased
///     impulse.
pub open spec fn pair_result(s: Seq<SimBody>, i: int, j: int, cfg: Config) -> (Seq<SimBody>, Seq<
    ImpulseGizmoEvent,
>) {
    let none = Seq::<ImpulseGizmoEvent>::empty();
    if !(0 <= i < s.len() && 0 <= j < s.len() && i != j) {
        (s, none)
    } else {
        let a = s[i];
        let b = s[j];
        if !(a.is_dynamic_collider && b.is_dynamic_collider) {
            (s, none)
        } else if !circles_intersect(
            bounding_circle_spec(a.diameter, a.position),
            bounding_circle_spec(b.diameter, b.position),
        ) {
            (s, none)
        } else {
            let a1 = SimBody { collided: bump_count(a.collided), ..a };
            let b1 = SimBody { collided: bump_count(b.collided), ..b };
            let s1 = s.update(i, a1).update(j, b1);
            let dx = sub_sat_spec(b.position.x, a.position.x);
            let dy = sub_sat_spec(b.position.y, a.position.y);
            let len = sep_len_spec(dx, dy);
            if len == 0 {
                (s1, none)
            } else {
                let normal = Vec2Fx { x: div_fx_spec(dx, len), y: div_fx_spec(dy, len) };
                if !nearly_unit(normal) {
                    (s1, none)
                } else {
                    let rel = v2_sub_spec(b.velocity, a.velocity);
                    let sep = v2_sub_spec(b.position, a.position);
                    if rel.x * sep.x + rel.y * sep.y > 0 {
                        (s1, none)
                    } else {
                        let contact = Contact {
                            normal,
                            a: Body {
                                restitution: cfg.elasticity,
                                velocity: a.velocity,
                                inverse_mass: cfg.inverse_mass,
                            },
                            b: Body {
                                restitution: cfg.elasticity,
                                velocity: b.velocity,
                                inverse_mass: cfg.inverse_mass,
                            },
                        };
                        let mag = resolve_mag_spec(contact);
                        let impulse = resolve_spec(contact);
                        let mid = div_trunc_spec(add_sat_spec(a.diameter, b.diameter), 2);
                        let pen = sub_sat_spec(len, mid);
                        let bias = mul_fx_spec(div_fx_spec(cfg.bias_factor, cfg.dt), abs_sat_spec(pen));
                        let total = add_sat_spec(mag, bias);
                        let delta = Vec2Fx {
                            x: div_fx_spec(mul_fx_spec(normal.x, total), cfg.mass),
                            y: div_fx_spec(mul_fx_spec(normal.y, total), cfg.mass),
                        };
                        let a2 = SimBody { velocity: v2_add_spec(a.velocity, delta), ..a1 };
                        let b2 = SimBody { velocity: v2_sub_spec(b.velocity, delta), ..b1 };
                        (
                            s.update(i, a2).update(j, b2),
                            seq![
                                ImpulseGizmoEvent { pos: a.position, imp: impulse, mass: cfg.mass },
                                ImpulseGizmoEvent {
                                    pos: b.position,
                                    imp: v2_neg_spec(impulse),
                                    mass: cfg.mass,
                                },
                            ],
                        )
                    }
                }
            }
        }
    }
}

/// The body set and events after all ordered pairs from `(i, j)` onward
/// (in lexicographic order, up to `n` exclusive) have been examined.
pub open spec fn collide_from(s: Seq<SimBody>, i: int, j: int, n: int, cfg: Config) -> (Seq<
    SimBody,
>, Seq<ImpulseGizmoEvent>)
    decreases n - i, n + 1 - j,
{
    if !(0 <= i && i < n && i + 1 <= j <= n) {
        (s, Seq::<ImpulseGizmoEvent>::empty())
    } else if j == n {
        collide_from(s, i + 1, i + 2, n, cfg)
    } else {
        let pr = pair_result(s, i, j, cfg);
        let rest = collide_from(pr.0, i, j + 1, n, cfg);
        (rest.0, pr.1 + rest.1)
    }
}

/// The body set and events after every unordered pair of bodies has been
/// examined once, in lexicographic index order.
pub open spec fn collide_all(s: Seq<SimBody>, cfg: Config) -> (Seq<SimBody>, Seq<
    ImpulseGizmoEvent,
>) {
    collide_from(s, 0, 1, s.len() as int, cfg)
}

/// Examines the single pair `(i, j)`: detects overlap, counts the
/// collision, and resolves it unless the pair is degenerate or already
/// separating.
fn collide_pair(
    bodies: &mut Vec<SimBody>,
    i: usize,
    j: usize,
    events: &mut Vec<ImpulseGizmoEvent>,
    cfg: &Config,
)
    requires
        cfg.valid(),
        i < old(bodies)@.len(),
        j < old(bodies)@.len(),
        i != j,
    ensures
        final(bodies)@ == pair_result(old(bodies)@, i as int, j as int, *cfg).0,
        final(events)@ == old(events)@ + pair_result(old(bodies)@, i as int, j as int, *cfg).1,
{
    let ghost target = pair_result(old(bodies)@, i as int, j as int, *cfg);
    let a = bodies[i];
    let b = bodies[j];
    if !(a.is_dynamic_collider && b.is_dynamic_collider) {
        proof {
            assert(final(events)@ =~= old(events)@ + target.1);
        }
        return ;
    }
    let a_bound = bounding_circle(Diameter(a.diameter), a.position);
    let b_bound = bounding_circle(Diameter(b.diameter), b.position);
    if !a_bound.intersects(&b_bound) {
        proof {
            assert(final(events)@ =~= old(events)@ + target.1);
        }
        return ;
    }
    let a1 = SimBody {
        collided: if a.collided < u32::MAX {
            a.collided + 1
        } else {
            a.collided
        },
        ..a
    };
    let b1 = SimBody {
        collided: if b.collided < u32::MAX {
            b.collided + 1
        } else {
            b.collided
        },
        ..b
    };
    bodies[i] = a1;
    bodies[j] = b1;
    let dx = sub_sat(b.position.x, a.position.x);
    let dy = sub_sat(b.position.y, a.position.y);
    let len = sep_len(dx, dy);
    if len == 0 {
        proof {
            assert(final(events)@ =~= old(events)@ + target.1);
        }
        return ;
    }
    let normal = Vec2Fx { x: div_fx(dx, len), y: div_fx(dy, len) };
    if !is_nearly_unit(normal) {
        proof {
            assert(final(events)@ =~= old(events)@ + target.1);
        }
        return ;
    }
    let rel = b.velocity.minus(a.velocity);
    let sep = b.position.minus(a.position);
    // Stop "bouncing inwards": a pair already moving apart is skipped.
    if dot_is_positive(rel.x, rel.y, sep.x, sep.y) {
        proof {
            assert(final(events)@ =~= old(events)@ + target.1);
        }
        return ;
    }
    let contact = Contact {
        normal,
        a: Body { restitution: cfg.elasticity, velocity: a.velocity, inverse_mass: cfg.inverse_mass },
        b: Body { restitution: cfg.elasticity, velocity: b.velocity, inverse_mass: cfg.inverse_mass },
    };
    let impulse_mag = resolve_magnitude(contact);
    let impulse = contact.normal.scaled(impulse_mag);
    // Baumgarte stabilization: the positional correction joins the
    // impulse magnitude before the split, so the same normal direction
    // carries both.
    let mid = div_trunc(add_sat(a.diameter, b.diameter), 2);
    let pen = sub_sat(len, mid);
    let bias = mul_fx(div_fx(cfg.bias_factor, cfg.dt), abs_sat(pen));
    events.push(ImpulseGizmoEvent { pos: a.position, imp: impulse, mass: cfg.mass });
    events.push(ImpulseGizmoEvent { pos: b.position, imp: impulse.negated(), mass: cfg.mass });
    let total = add_sat(impulse_mag, bias);
    let delta = Vec2Fx {
        x: div_fx(mul_fx(contact.normal.x, total), cfg.mass),
        y: div_fx(mul_fx(contact.normal.y, total), cfg.mass),
    };
    bodies[i] = SimBody { velocity: a.velocity.plus(delta), ..a1 };
    bodies[j] = SimBody { velocity: b.velocity.minus(delta), ..b1 };
    proof {
        assert(final(bodies)@ =~= target.0);
        assert(final(events)@ =~= old(events)@ + target.1);
    }
}

/// Whether two bodies agree on everything the collision pass leaves
/// untouched: position, pending forces, diameter and capability flags
/// (only velocities and collision counters change).
pub open spec fn same_shape(a: SimBody, b: SimBody) -> bool {
    &&& a.position == b.position
    &&& a.forces == b.forces
    &&& a.diameter == b.diameter
    &&& a.has_gravity == b.has_gravity
    &&& a.is_dynamic_collider == b.is_dynamic_collider
}

/// Examining one pair changes at most the velocities and collision
/// counters of the two bodies.
pub proof fn lemma_pair_result_shape(s: Seq<SimBody>, i: int, j: int, cfg: Config)
    ensures
        pair_result(s, i, j, cfg).0.len() == s.len(),
        forall|k: int|
            0 <= k < s.len() ==> same_shape(#[trigger] pair_result(s, i, j, cfg).0[k], s[k]),
{
    let r = pair_result(s, i, j, cfg).0;
    assert forall|k: int| 0 <= k < s.len() implies same_shape(#[trigger] r[k], s[k]) by {
        if k != i && k != j {
            assert(r[k] == s[k]);
        }
    }
}

/// The whole collision pass changes at most velocities and collision
/// counters.
pub proof fn lemma_collide_from_shape(s: Seq<SimBody>, i: int, j: int, n: int, cfg: Config)
    ensures
        collide_from(s, i, j, n, cfg).0.len() == s.len(),
        forall|k: int|
            0 <= k < s.len() ==> same_shape(#[trigger] collide_from(s, i, j, n, cfg).0[k], s[k]),
    decreases n - i, n + 1 - j,
{
    if !(0 <= i && i < n && i + 1 <= j <= n) {
    } else if j == n {
        lemma_collide_from_shape(s, i + 1, i + 2, n, cfg);
    } else {
        let s1 = pair_result(s, i, j, cfg).0;
        lemma_pair_result_shape(s, i, j, cfg);
        lemma_collide_from_shape(s1, i, j + 1, n, cfg);
        let r = collide_from(s, i, j, n, cfg).0;
        assert forall|k: int| 0 <= k < s.len() implies same_shape(#[trigger] r[k], s[k]) by {
            assert(same_shape(r[k], s1[k]));
            assert(same_shape(s1[k], s[k]));
        }
    }
}

/// Detects and resolves every overlapping pair of dynamic colliders once,
/// in lexicographic pair order, and returns the visualization events in
/// emission order.
pub fn apply_collisions(bodies: &mut Vec<SimBody>, cfg: &Config) -> (events: Vec<
    ImpulseGizmoEvent,
>)
    requires
        cfg.valid(),
    ensures
        final(bodies)@ == collide_all(old(bodies)@, *cfg).0,
        events@ == collide_all(old(bodies)@, *cfg).1,
{
    let n = bodies.len();
    let mut events: Vec<ImpulseGizmoEvent> = Vec::new();
    let ghost target = collide_all(old(bodies)@, *cfg);
    let mut i: usize = 0;
    while i < n
        invariant
            cfg.valid(),
            i <= n,
            bodies@.len() == n,
            collide_from(bodies@, i as int, i + 1, n as int, *cfg).0 == target.0,
            events@ + collide_from(bodies@, i as int, i + 1, n as int, *cfg).1 == target.1,
        decreases n - i,
    {
        let mut j = i + 1;
        while j < n
            invariant
                cfg.valid(),
                i < n,
                i + 1 <= j <= n,
                bodies@.len() == n,
                collide_from(bodies@, i as int, j as int, n as int, *cfg).0 == target.0,
                events@ + collide_from(bodies@, i as int, j as int, n as int, *cfg).1 == target.1,
            decreases n - j,
        {
            collide_pair(bodies, i, j, &mut events, cfg);
            j += 1;
        }
        i += 1;
    }
    proof {
        assert(events@ + collide_from(bodies@, n as int, n + 1, n as int, *cfg).1 =~= events@);
    }
    events
}

} // verus!
