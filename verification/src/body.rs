//! The simulated bodies.
//!
//! The host owns the set of bodies and hands it to the physics core once
//! per fixed tick as a flat vector; the core never creates or destroys a
//! body, it only reads and writes the fields below.

use vstd::prelude::*;

use crate::vec2::{v2, Vec2Fx};

verus! {

/// The collision diameter of a dynamic body.
#[derive(Clone, Copy, PartialEq, Eq, Structural, Debug)]
pub struct Diameter(pub i64);

/// An axis-aligned box half-extent, as carried by the static walls.
#[derive(Clone, Copy, PartialEq, Eq, Structural, Debug)]
pub struct Collider {
    pub half_size: Vec2Fx,
}

/// One simulated body: its kinematic state, its pending-force accumulator,
/// its collision shape and its capability flags.
#[derive(Clone, Copy, PartialEq, Eq, Structural, Debug)]
pub struct SimBody {
    /// World-space position (y grows downward).
    pub position: Vec2Fx,
    /// Velocity in units per second.
    pub velocity: Vec2Fx,
    /// Pending net force for the current tick; zeroed by the integrator.
    pub forces: Vec2Fx,
    /// Collision diameter; meaningful only on dynamic colliders.
    pub diameter: i64,
    /// How many resolved collisions have involved this body.  Owned by the
    /// collision resolver; never reset by the physics core.
    pub collided: u32,
    /// Whether the per-tick gravity contribution applies to this body.
    pub has_gravity: bool,
    /// Whether this body takes part in collision detection, resolution and
    /// boundary constraints.
    pub is_dynamic_collider: bool,
}

impl SimBody {
    /// A freshly dropped fruit: at rest at `position`, opted into gravity
    /// and collisions, with an empty force accumulator and no collisions
    /// counted yet.
    pub fn fruit(position: Vec2Fx, diameter: i64) -> (b: SimBody)
        ensures
            b == (SimBody {
                position,
                velocity: v2(0, 0),
                forces: v2(0, 0),
                diameter,
                collided: 0,
                has_gravity: true,
                is_dynamic_collider: true,
            }),
    {
        SimBody {
            position,
            velocity: Vec2Fx { x: 0, y: 0 },
            forces: Vec2Fx { x: 0, y: 0 },
            diameter,
            collided: 0,
            has_gravity: true,
            is_dynamic_collider: true,
        }
    }
}

} // verus!
