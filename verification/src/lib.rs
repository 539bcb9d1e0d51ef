//! A deterministic, fixed-timestep 2D rigid-body physics core for a
//! falling/merging-spheres style game: force accumulation, semi-implicit
//! Euler integration, exhaustive circle-circle collision detection,
//! impulse-based collision resolution with penetration correction, and
//! static arena boundary constraints.
//!
//! All state is kept in exact fixed-point arithmetic (see [`fx`]), so every
//! step of the simulation is specified and verified bit for bit.

pub mod body;
pub mod collision;
pub mod config;
pub mod fx;
pub mod laws;
pub mod physics;
pub mod vec2;
pub mod wall;

use vstd::prelude::*;

use crate::body::SimBody;
use crate::collision::{
    collide_all, lemma_collide_from_shape, apply_collisions, same_shape, ImpulseGizmoEvent,
};
use crate::config::Config;
use crate::physics::{
    apply_friction, apply_gravity, friction_all, friction_body, gravity_all, gravity_body,
    integrate_all, integrate_body, integrate_position,
};
use crate::wall::{constrain_all, constrain_objects, fits_arena};

verus! {

/// The body set and the emitted visualization events after one fixed
/// simulation tick, in the pipeline's strict order: gravity, friction,
/// integration, collision detection and resolution, boundary constraints.
pub open spec fn tick_spec(s: Seq<SimBody>, cfg: Config) -> (Seq<SimBody>, Seq<ImpulseGizmoEvent>) {
    let after_forces = friction_all(gravity_all(s, cfg), cfg);
    let after_integration = integrate_all(after_forces, cfg);
    let collided = collide_all(after_integration, cfg);
    (constrain_all(collided.0, cfg), collided.1)
}

/// Runs one fixed simulation tick over the whole body set.
///
/// The order is a correctness requirement: forces must be applied and
/// cleared before integration, collision response must read integrated
/// positions, and the boundary clamp runs last so that it overrides any
/// velocity the resolver just produced.
pub fn tick(bodies: &mut Vec<SimBody>, cfg: &Config) -> (events: Vec<ImpulseGizmoEvent>)
    requires
        cfg.valid(),
        forall|k: int|
            0 <= k < old(bodies)@.len() && old(bodies)@[k].is_dynamic_collider
                ==> fits_arena(#[trigger] old(bodies)@[k], *cfg),
    ensures
        final(bodies)@ == tick_spec(old(bodies)@, *cfg).0,
        events@ == tick_spec(old(bodies)@, *cfg).1,
{
    apply_gravity(bodies, cfg);
    apply_friction(bodies, cfg);
    integrate_position(bodies, cfg);
    let events = apply_collisions(bodies, cfg);
    proof {
        let s0 = old(bodies)@;
        let s3 = integrate_all(friction_all(gravity_all(s0, *cfg), *cfg), *cfg);
        lemma_collide_from_shape(s3, 0, 1, s3.len() as int, *cfg);
        assert forall|k: int|
            0 <= k < bodies@.len() && bodies@[k].is_dynamic_collider implies fits_arena(
            #[trigger] bodies@[k],
            *cfg,
        ) by {
            assert(same_shape(bodies@[k], s3[k]));
            assert(s3[k] == integrate_body(
                friction_body(gravity_body(s0[k], *cfg), *cfg),
                *cfg,
            ));
            assert(bodies@[k].diameter == s0[k].diameter);
            assert(bodies@[k].is_dynamic_collider == s0[k].is_dynamic_collider);
        }
    }
    constrain_objects(bodies, cfg);
    events
}

} // verus!
