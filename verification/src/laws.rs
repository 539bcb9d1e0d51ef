//! The laws of the simulation, proved once and for all inputs.
//!
//! The per-system contracts pin every computed value down exactly; the
//! proof functions here state the physical laws that follow from them:
//! impulse exchange conserves relative speed for elastic equal-mass
//! contacts, annihilates it for inelastic ones, a separating pair is
//! never resolved, and the accumulated gravity force never escapes its
//! cap.  (Boundary containment and the bounce sign flip are stated
//! directly on [`crate::wall::constrain_objects`], and the force
//! accumulator reset on [`crate::physics::integrate_position`].)

use vstd::prelude::*;

use vstd::arithmetic::div_mod::{lemma_div_multiples_vanish, lemma_fundamental_div_mod};

use crate::body::SimBody;
use crate::collision::{
    bounding_circle_spec, bump_count, circles_intersect, pair_result, ImpulseGizmoEvent,
};
use crate::config::Config;
use crate::fx::{
    add_sat_spec, div_fx_spec, iabs, neg_sat_spec, sub_sat_spec, trunc_div, SCALE,
};
use crate::physics::{gravity_body, resolve_spec, Body, Contact};
use crate::vec2::{v2, v2_sub_spec};

verus! {

/// Truncating division of an exact multiple is exact: `(m * d) / d == m`
/// for positive `d`.
pub proof fn lemma_trunc_div_exact(m: int, d: int)
    requires
        d > 0,
    ensures
        trunc_div(m * d, d) == m,
{
    if m * d >= 0 {
        lemma_div_multiples_vanish(m, d);
        assert(m * d == d * m) by (nonlinear_arith);
    } else {
        lemma_div_multiples_vanish(-m, d);
        assert(-(m * d) == d * (-m)) by (nonlinear_arith);
    }
}

/// **Elastic, equal-mass exchange.**  Two bodies with restitution 1 and
/// equal inverse mass `w`, moving head-on along the x axis with
/// velocities `(+v, 0)` and `(-v, 0)`, resolved through the unit normal
/// `(1, 0)`: applying the impulse (mass-normalized by `m`, the mass whose
/// reciprocal `w` is) swaps the two velocities exactly, so the relative
/// speed `|v_a - v_b|` is conserved.
///
/// The divisibility premise keeps the fixed-point quotients exact; it
/// holds in particular whenever `w` divides `2 * SCALE` (so for every
/// velocity at mass 1 or mass 16).
pub proof fn lemma_elastic_equal_mass_exchange(v: i64, w: i64, m: i64)
    requires
        1 <= w,
        1 <= m,
        (w as int) * (m as int) == (SCALE as int) * (SCALE as int),
        -1000000000000 <= v <= 1000000000000,
        (2 * (v as int) * (SCALE as int)) % (w as int) == 0,
    ensures
        ({
            let a = Body { restitution: SCALE, velocity: v2(v, 0), inverse_mass: w };
            let b = Body {
                restitution: SCALE,
                velocity: v2(neg_sat_spec(v), 0),
                inverse_mass: w,
            };
            let imp = resolve_spec(Contact { normal: v2(SCALE, 0), a, b });
            let va2 = add_sat_spec(v, div_fx_spec(imp.x, m));
            let vb2 = sub_sat_spec(neg_sat_spec(v), div_fx_spec(imp.x, m));
            &&& imp.y == 0
            &&& va2 as int == -(v as int)
            &&& vb2 as int == v as int
            &&& iabs(va2 - vb2) == iabs(a.velocity.x - b.velocity.x)
        }),
{
    let s = SCALE as int;
    let vv = v as int;
    let ww = w as int;
    let mm = m as int;
    assert(ww <= s * s) by (nonlinear_arith)
        requires
            ww * mm == s * s,
            1 <= mm,
            1 <= ww,
    ;
    let a = Body { restitution: SCALE, velocity: v2(v, 0), inverse_mass: w };
    let b = Body { restitution: SCALE, velocity: v2(neg_sat_spec(v), 0), inverse_mass: w };
    let c = Contact { normal: v2(SCALE, 0), a, b };
    assert(b.velocity.x as int == -vv);
    let rel = v2_sub_spec(a.velocity, b.velocity);
    assert(rel.x as int == 2 * vv && rel.y == 0);
    // The component of the relative velocity along the normal.
    assert(2 * vv * s == (2 * vv) * s) by (nonlinear_arith);
    lemma_trunc_div_exact(2 * vv, s);
    // (1 + e) with e = 1: doubling.
    assert(1920 * (2 * vv) == (4 * vv) * s) by (nonlinear_arith)
        requires
            s == 960,
    ;
    lemma_trunc_div_exact(4 * vv, s);
    // The exact quotient q = 2 v SCALE / w.
    let q = (2 * vv * s) / ww;
    lemma_fundamental_div_mod(2 * vv * s, ww);
    assert(q * ww == 2 * vv * s) by (nonlinear_arith)
        requires
            2 * vv * s == ww * q + (2 * vv * s) % ww,
            (2 * vv * s) % ww == 0,
    ;
    assert(-1920000000000000 <= q <= 1920000000000000) by (nonlinear_arith)
        requires
            q * ww == 2 * vv * s,
            1 <= ww,
            s == 960,
            -1000000000000 <= vv <= 1000000000000,
    ;
    // The impulse magnitude is -q: -(4 v SCALE) = (-q) * (2 w).
    assert((-(4 * vv)) * s == (-q) * (2 * ww)) by (nonlinear_arith)
        requires
            q * ww == 2 * vv * s,
    ;
    lemma_trunc_div_exact(-q, 2 * ww);
    // The impulse along the unit normal keeps the magnitude.
    assert((-q) * s == -q * s) by (nonlinear_arith);
    lemma_trunc_div_exact(-q, s);
    let imp = resolve_spec(c);
    assert(imp.x as int == -q);
    assert(imp.y == 0) by {
        lemma_trunc_div_exact(0, s);
        assert(0int * (imp.x as int) == 0 * s) by (nonlinear_arith);
    }
    // Mass-normalizing: q * SCALE == 2 v m, so the velocity change is 2 v.
    assert(q * s == 2 * vv * mm) by (nonlinear_arith)
        requires
            q * ww == 2 * vv * s,
            ww * mm == s * s,
            s == 960,
    ;
    assert((-q) * s == (-(2 * vv)) * mm) by (nonlinear_arith)
        requires
            q * s == 2 * vv * mm,
    ;
    lemma_trunc_div_exact(-(2 * vv), mm);
}

/// **Inelastic standstill.**  The same head-on, equal-mass setup with
/// restitution 0: applying the impulse brings both bodies exactly to
/// rest.
///
/// The divisibility premise keeps the fixed-point quotients exact; it
/// holds in particular whenever `w` divides `SCALE`.
pub proof fn lemma_inelastic_standstill(v: i64, w: i64, m: i64)
    requires
        1 <= w,
        1 <= m,
        (w as int) * (m as int) == (SCALE as int) * (SCALE as int),
        -1000000000000 <= v <= 1000000000000,
        ((v as int) * (SCALE as int)) % (w as int) == 0,
    ensures
        ({
            let a = Body { restitution: 0, velocity: v2(v, 0), inverse_mass: w };
            let b = Body { restitution: 0, velocity: v2(neg_sat_spec(v), 0), inverse_mass: w };
            let imp = resolve_spec(Contact { normal: v2(SCALE, 0), a, b });
            let va2 = add_sat_spec(v, div_fx_spec(imp.x, m));
            let vb2 = sub_sat_spec(neg_sat_spec(v), div_fx_spec(imp.x, m));
            &&& imp.y == 0
            &&& va2 == 0
            &&& vb2 == 0
        }),
{
    let s = SCALE as int;
    let vv = v as int;
    let ww = w as int;
    let mm = m as int;
    assert(ww <= s * s) by (nonlinear_arith)
        requires
            ww * mm == s * s,
            1 <= mm,
            1 <= ww,
    ;
    let a = Body { restitution: 0, velocity: v2(v, 0), inverse_mass: w };
    let b = Body { restitution: 0, velocity: v2(neg_sat_spec(v), 0), inverse_mass: w };
    let c = Contact { normal: v2(SCALE, 0), a, b };
    let rel = v2_sub_spec(a.velocity, b.velocity);
    assert(rel.x as int == 2 * vv && rel.y == 0);
    assert(2 * vv * s == (2 * vv) * s) by (nonlinear_arith);
    lemma_trunc_div_exact(2 * vv, s);
    // (1 + e) with e = 0: the factor is SCALE itself.
    assert(960 * (2 * vv) == (2 * vv) * s) by (nonlinear_arith)
        requires
            s == 960,
    ;
    // The exact quotient q = v SCALE / w.
    let q = (vv * s) / ww;
    lemma_fundamental_div_mod(vv * s, ww);
    assert(q * ww == vv * s) by (nonlinear_arith)
        requires
            vv * s == ww * q + (vv * s) % ww,
            (vv * s) % ww == 0,
    ;
    assert(-960000000000000 <= q <= 960000000000000) by (nonlinear_arith)
        requires
            q * ww == vv * s,
            1 <= ww,
            s == 960,
            -1000000000000 <= vv <= 1000000000000,
    ;
    assert((-(2 * vv)) * s == (-q) * (2 * ww)) by (nonlinear_arith)
        requires
            q * ww == vv * s,
    ;
    lemma_trunc_div_exact(-q, 2 * ww);
    assert((-q) * s == -q * s) by (nonlinear_arith);
    lemma_trunc_div_exact(-q, s);
    let imp = resolve_spec(c);
    assert(imp.x as int == -q);
    assert(imp.y == 0) by {
        lemma_trunc_div_exact(0, s);
        assert(0int * (imp.x as int) == 0 * s) by (nonlinear_arith);
    }
    assert(q * s == vv * mm) by (nonlinear_arith)
        requires
            q * ww == vv * s,
            ww * mm == s * s,
            s == 960,
    ;
    assert((-q) * s == (-vv) * mm) by (nonlinear_arith)
        requires
            q * s == vv * mm,
    ;
    lemma_trunc_div_exact(-vv, mm);
}

/// **Moving-apart skip.**  Two overlapping dynamic bodies whose relative
/// velocity points along their separation (`dot(v_b - v_a, p_b - p_a)
/// > 0`) are already separating: the resolver leaves both velocities and
/// positions unchanged and emits no event; only the collision counters
/// are bumped.
pub proof fn lemma_moving_apart_skip(s: Seq<SimBody>, i: int, j: int, cfg: Config)
    requires
        0 <= i < s.len(),
        0 <= j < s.len(),
        i != j,
        s[i].is_dynamic_collider,
        s[j].is_dynamic_collider,
        circles_intersect(
            bounding_circle_spec(s[i].diameter, s[i].position),
            bounding_circle_spec(s[j].diameter, s[j].position),
        ),
        ({
            let rel = v2_sub_spec(s[j].velocity, s[i].velocity);
            let sep = v2_sub_spec(s[j].position, s[i].position);
            rel.x * sep.x + rel.y * sep.y > 0
        }),
    ensures
        pair_result(s, i, j, cfg).1 == Seq::<ImpulseGizmoEvent>::empty(),
        pair_result(s, i, j, cfg).0[i].velocity == s[i].velocity,
        pair_result(s, i, j, cfg).0[j].velocity == s[j].velocity,
        pair_result(s, i, j, cfg).0[i].position == s[i].position,
        pair_result(s, i, j, cfg).0[j].position == s[j].position,
        pair_result(s, i, j, cfg).0[i].collided == bump_count(s[i].collided),
        pair_result(s, i, j, cfg).0[j].collided == bump_count(s[j].collided),
{
}

/// **Gravity cap.**  One gravity step adds `gravity_step` to the
/// accumulated vertical force but never lets its magnitude exceed
/// `force_cap`: from any state the result is within the cap, and from a
/// state within the cap the force grows monotonically towards the cap
/// and stops exactly at it, without overshoot.
pub proof fn lemma_gravity_cap(b: SimBody, cfg: Config)
    requires
        cfg.valid(),
        b.has_gravity,
    ensures
        ({
            let fy2 = gravity_body(b, cfg).forces.y;
            &&& iabs(fy2 as int) <= cfg.force_cap
            &&& (-cfg.force_cap <= b.forces.y <= cfg.force_cap ==> fy2 >= b.forces.y)
            &&& (-cfg.force_cap <= b.forces.y && b.forces.y + cfg.gravity_step <= cfg.force_cap
                ==> fy2 == b.forces.y + cfg.gravity_step)
            &&& (b.forces.y + cfg.gravity_step > cfg.force_cap ==> fy2 == cfg.force_cap)
        }),
{
}

} // verus!
