//! The static arena walls and the boundary constraint system.
//!
//! Four walls are built once at world setup from the configured arena
//! bounds.  The constraint system runs last in the tick and is
//! authoritative: it clamps every dynamic body back into the arena
//! (sideways and from below; there is deliberately no upper bound on y)
//! and applies a lossy bounce to any velocity component that drove its
//! body out of bounds.

use vstd::prelude::*;

use crate::body::{Collider, SimBody};
use crate::config::Config;
use crate::fx::{
    add_sat, add_sat_spec, clamp64, clamp64_spec, div_trunc, div_trunc_spec, min64, min64_spec,
    mul_fx, mul_fx_spec, sub_sat, sub_sat_spec,
};
use crate::vec2::{v2, Vec2Fx};

verus! {

/// Which side of the arena a wall sits on.
#[derive(Clone, Copy, PartialEq, Eq, Structural, Debug)]
pub enum WallLocation {
    Left,
    Right,
    Bottom,
    Top,
}

/// A static wall: never integrated, never force-accumulating.
#[derive(Clone, Copy, PartialEq, Eq, Structural, Debug)]
pub struct Wall {
    /// The center of the wall.
    pub position: Vec2Fx,
    /// Its axis-aligned half extent.
    pub collider: Collider,
}

impl WallLocation {
    /// Location of the *center* of the wall.
    pub open spec fn position_spec(self, cfg: Config) -> Vec2Fx {
        match self {
            WallLocation::Left => v2(cfg.left_wall, 0),
            WallLocation::Right => v2(cfg.right_wall, 0),
            WallLocation::Bottom => v2(0, cfg.bottom_wall),
            WallLocation::Top => v2(0, cfg.top_wall),
        }
    }

    /// Location of the *center* of the wall.
    pub fn position(&self, cfg: &Config) -> (p: Vec2Fx)
        ensures
            p == self.position_spec(*cfg),
    {
        match self {
            WallLocation::Left => Vec2Fx { x: cfg.left_wall, y: 0 },
            WallLocation::Right => Vec2Fx { x: cfg.right_wall, y: 0 },
            WallLocation::Bottom => Vec2Fx { x: 0, y: cfg.bottom_wall },
            WallLocation::Top => Vec2Fx { x: 0, y: cfg.top_wall },
        }
    }

    /// (x, y) dimensions of the wall: a side wall spans the arena height,
    /// a top or bottom wall the arena width, each padded by the wall
    /// thickness.
    pub open spec fn size_spec(self, cfg: Config) -> Vec2Fx {
        let arena_height = sub_sat_spec(cfg.bottom_wall, cfg.top_wall);
        let arena_width = sub_sat_spec(cfg.right_wall, cfg.left_wall);
        match self {
            WallLocation::Left | WallLocation::Right => Vec2Fx {
                x: cfg.wall_thickness,
                y: add_sat_spec(arena_height, cfg.wall_thickness),
            },
            WallLocation::Bottom | WallLocation::Top => Vec2Fx {
                x: add_sat_spec(arena_width, cfg.wall_thickness),
                y: cfg.wall_thickness,
            },
        }
    }

    /// (x, y) dimensions of the wall.  A valid configuration has strictly
    /// positive arena dimensions, so both components are positive.
    pub fn size(&self, cfg: &Config) -> (sz: Vec2Fx)
        requires
            cfg.valid(),
        ensures
            sz == self.size_spec(*cfg),
            sz.x > 0 && sz.y > 0,
    {
        let arena_height = sub_sat(cfg.bottom_wall, cfg.top_wall);
        let arena_width = sub_sat(cfg.right_wall, cfg.left_wall);
        match self {
            WallLocation::Left | WallLocation::Right => Vec2Fx {
                x: cfg.wall_thickness,
                y: add_sat(arena_height, cfg.wall_thickness),
            },
            WallLocation::Bottom | WallLocation::Top => Vec2Fx {
                x: add_sat(arena_width, cfg.wall_thickness),
                y: cfg.wall_thickness,
            },
        }
    }
}

/// The wall on the given side: centered per [`WallLocation::position_spec`]
/// with half of [`WallLocation::size_spec`] as its half extent.
pub open spec fn wall_spec(location: WallLocation, cfg: Config) -> Wall {
    let size = location.size_spec(cfg);
    Wall {
        position: location.position_spec(cfg),
        collider: Collider {
            half_size: Vec2Fx { x: div_trunc_spec(size.x, 2), y: div_trunc_spec(size.y, 2) },
        },
    }
}

impl Wall {
    /// Builds the wall for one side of the arena.
    pub fn new(location: WallLocation, cfg: &Config) -> (w: Wall)
        requires
            cfg.valid(),
        ensures
            w == wall_spec(location, *cfg),
    {
        let size = location.size(cfg);
        Wall {
            position: location.position(cfg),
            collider: Collider {
                half_size: Vec2Fx { x: div_trunc(size.x, 2), y: div_trunc(size.y, 2) },
            },
        }
    }
}

/// Builds the four arena walls, once, at world setup.
pub fn add_walls(cfg: &Config) -> (walls: Vec<Wall>)
    requires
        cfg.valid(),
    ensures
        walls@ == seq![
            wall_spec(WallLocation::Left, *cfg),
            wall_spec(WallLocation::Right, *cfg),
            wall_spec(WallLocation::Bottom, *cfg),
            wall_spec(WallLocation::Top, *cfg),
        ],
{
    let mut walls: Vec<Wall> = Vec::new();
    walls.push(Wall::new(WallLocation::Left, cfg));
    walls.push(Wall::new(WallLocation::Right, cfg));
    walls.push(Wall::new(WallLocation::Bottom, cfg));
    walls.push(Wall::new(WallLocation::Top, cfg));
    proof {
        assert(walls@ =~= seq![
            wall_spec(WallLocation::Left, *cfg),
            wall_spec(WallLocation::Right, *cfg),
            wall_spec(WallLocation::Bottom, *cfg),
            wall_spec(WallLocation::Top, *cfg),
        ]);
    }
    walls
}

/// Whether the boundary clamps are well defined for `b` under `cfg`: the
/// body fits between the left and right walls.
pub open spec fn fits_arena(b: SimBody, cfg: Config) -> bool {
    cfg.left_wall <= sub_sat_spec(cfg.right_wall, b.diameter)
}

/// Whether `b` fits the arena (the executable mirror of [`fits_arena`],
/// for a host that must establish it before running the pipeline).
pub fn body_fits_arena(b: &SimBody, cfg: &Config) -> (r: bool)
    ensures
        r == fits_arena(*b, *cfg),
{
    cfg.left_wall <= sub_sat(cfg.right_wall, b.diameter)
}

/// One dynamic body after the boundary constraint ran: the position is
/// clamped into the arena (x into `[left_wall, right_wall - diameter]`,
/// y from above only into `(-inf, bottom_wall - diameter]` — a body may
/// rise arbitrarily high), and each velocity component whose pre-clamp
/// position violated its bound is scaled by the lossy bounce factor.  A
/// non-dynamic body is untouched.
pub open spec fn constrain_body(b: SimBody, cfg: Config) -> SimBody
    recommends
        fits_arena(b, cfg) || !b.is_dynamic_collider,
{
    if !b.is_dynamic_collider {
        b
    } else {
        let hi_x = sub_sat_spec(cfg.right_wall, b.diameter);
        let hi_y = sub_sat_spec(cfg.bottom_wall, b.diameter);
        let cx = clamp64_spec(b.position.x, cfg.left_wall, hi_x);
        let cy = min64_spec(b.position.y, hi_y);
        let vx = if b.position.x != cx {
            mul_fx_spec(b.velocity.x, cfg.bounce_factor)
        } else {
            b.velocity.x
        };
        let vy = if b.position.y != cy {
            mul_fx_spec(b.velocity.y, cfg.bounce_factor)
        } else {
            b.velocity.y
        };
        SimBody {
            position: Vec2Fx { x: cx, y: cy },
            velocity: Vec2Fx { x: vx, y: vy },
            ..b
        }
    }
}

/// The whole body set after the boundary constraint ran.
pub open spec fn constrain_all(s: Seq<SimBody>, cfg: Config) -> Seq<SimBody> {
    s.map_values(|b: SimBody| constrain_body(b, cfg))
}

/// Clamps every dynamic body into the arena and reflects, with energy
/// loss, each velocity component that would have violated a bound.
///
/// Containment holds for every input position, however far out of range;
/// the bounce is decided by the *pre-clamp* position, axis by axis.
pub fn constrain_objects(bodies: &mut Vec<SimBody>, cfg: &Config)
    requires
        cfg.valid(),
        forall|k: int|
            0 <= k < old(bodies)@.len() && old(bodies)@[k].is_dynamic_collider
                ==> fits_arena(#[trigger] old(bodies)@[k], *cfg),
    ensures
        final(bodies)@ == constrain_all(old(bodies)@, *cfg),
        // Boundary containment: afterwards every dynamic body sits inside
        // the arena on x, and above the bottom limit on y.
        forall|k: int|
            0 <= k < old(bodies)@.len() && old(bodies)@[k].is_dynamic_collider ==> {
                let b = #[trigger] final(bodies)@[k];
                &&& cfg.left_wall <= b.position.x
                &&& b.position.x <= sub_sat_spec(cfg.right_wall, b.diameter)
                &&& b.position.y <= sub_sat_spec(cfg.bottom_wall, b.diameter)
            },
        // Bounce sign flip: exactly the axes that were out of bounds have
        // their velocity scaled by the bounce factor.
        forall|k: int|
            0 <= k < old(bodies)@.len() && old(bodies)@[k].is_dynamic_collider ==> {
                let b = #[trigger] old(bodies)@[k];
                let out_x = b.position.x < cfg.left_wall || b.position.x > sub_sat_spec(
                    cfg.right_wall,
                    b.diameter,
                );
                let out_y = b.position.y > sub_sat_spec(cfg.bottom_wall, b.diameter);
                &&& final(bodies)@[k].velocity.x == if out_x {
                    mul_fx_spec(b.velocity.x, cfg.bounce_factor)
                } else {
                    b.velocity.x
                }
                &&& final(bodies)@[k].velocity.y == if out_y {
                    mul_fx_spec(b.velocity.y, cfg.bounce_factor)
                } else {
                    b.velocity.y
                }
            },
{
    let n = bodies.len();
    let mut i: usize = 0;
    while i < n
        invariant
            cfg.valid(),
            i <= n,
            bodies@.len() == n,
            old(bodies)@.len() == n,
            forall|k: int|
                0 <= k < n && old(bodies)@[k].is_dynamic_collider
                    ==> fits_arena(#[trigger] old(bodies)@[k], *cfg),
            forall|k: int| 0 <= k < i ==> bodies@[k] == constrain_body(old(bodies)@[k], *cfg),
            forall|k: int| i <= k < n ==> bodies@[k] == old(bodies)@[k],
        decreases n - i,
    {
        let b = bodies[i];
        if b.is_dynamic_collider {
            let hi_x = sub_sat(cfg.right_wall, b.diameter);
            let hi_y = sub_sat(cfg.bottom_wall, b.diameter);
            let cx = clamp64(b.position.x, cfg.left_wall, hi_x);
            let cy = min64(b.position.y, hi_y);
            let vx = if b.position.x != cx {
                mul_fx(b.velocity.x, cfg.bounce_factor)
            } else {
                b.velocity.x
            };
            let vy = if b.position.y != cy {
                mul_fx(b.velocity.y, cfg.bounce_factor)
            } else {
                b.velocity.y
            };
            bodies[i] = SimBody {
                position: Vec2Fx { x: cx, y: cy },
                velocity: Vec2Fx { x: vx, y: vy },
                ..b
            };
        }
        i += 1;
    }
    proof {
        assert(bodies@ =~= constrain_all(old(bodies)@, *cfg));
    }
}

} // verus!
