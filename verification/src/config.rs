//! The simulation's configuration: every tuning constant of the physics
//! core, fixed at startup and threaded immutably through each system.

use vstd::prelude::*;

use crate::fx::SCALE;

verus! {

/// All tuning constants of the simulation, as fixed-point values.
///
/// An invalid configuration (`!valid()`) is a startup fault: no system
/// accepts one.
#[derive(Clone, Copy, PartialEq, Eq, Structural, Debug)]
pub struct Config {
    /// Downward force added per tick to every gravity-affected body.
    pub gravity_step: i64,
    /// Cap on the magnitude of the accumulated vertical force (a force
    /// cap, not a speed cap).
    pub force_cap: i64,
    /// Factor in (0, 1] that scales every pending force each tick.
    pub friction: i64,
    /// The uniform body mass.
    pub mass: i64,
    /// The uniform inverse body mass.
    pub inverse_mass: i64,
    /// Coefficient of restitution in [0, 1].
    pub elasticity: i64,
    /// x coordinate bodies are clamped to on the left.
    pub left_wall: i64,
    /// x coordinate of the right wall's center.
    pub right_wall: i64,
    /// y coordinate of the bottom wall's center (y grows downward).
    pub bottom_wall: i64,
    /// y coordinate of the top wall's center.
    pub top_wall: i64,
    /// Thickness used when building the four wall bodies.
    pub wall_thickness: i64,
    /// Fraction of the penetration depth corrected per tick.
    pub bias_factor: i64,
    /// Factor applied to a velocity component that drove its body out of
    /// bounds (negative: a lossy bounce).
    pub bounce_factor: i64,
    /// The fixed tick length in seconds.
    pub dt: i64,
}

impl Config {
    /// A well-formed configuration: positive tick and mass terms, a
    /// restitution and friction in range, and a non-empty arena.
    pub open spec fn valid(self) -> bool {
        &&& 1 <= self.dt
        &&& 0 <= self.gravity_step <= self.force_cap
        &&& 0 < self.friction <= SCALE
        &&& 0 <= self.elasticity <= SCALE
        &&& 1 <= self.mass
        &&& 1 <= self.inverse_mass
        &&& self.left_wall < self.right_wall
        &&& self.top_wall < self.bottom_wall
        &&& 0 < self.wall_thickness
        &&& -SCALE <= self.bounce_factor <= SCALE
        &&& 0 <= self.bias_factor <= SCALE
    }

    /// Whether this configuration is well formed (the executable mirror
    /// of [`Config::valid`], for a host that must establish it once at
    /// startup).
    pub fn is_valid(&self) -> (r: bool)
        ensures
            r == self.valid(),
    {
        1 <= self.dt && 0 <= self.gravity_step && self.gravity_step <= self.force_cap && 0
            < self.friction && self.friction <= SCALE && 0 <= self.elasticity && self.elasticity
            <= SCALE && 1 <= self.mass && 1 <= self.inverse_mass && self.left_wall
            < self.right_wall && self.top_wall < self.bottom_wall && 0 < self.wall_thickness
            && -SCALE <= self.bounce_factor && self.bounce_factor <= SCALE && 0
            <= self.bias_factor && self.bias_factor <= SCALE
    }

    /// The reference configuration: gravity 0.4/tick capped at 20, friction
    /// 0.9, mass 16, restitution 0.7, the 62..178 x 0..147 arena with
    /// 1-unit walls, a 0.2 penetration bias, a -0.2 boundary bounce, and a
    /// 60 Hz tick.
    pub fn standard() -> (c: Config)
        ensures
            c == (Config {
                gravity_step: 384,
                force_cap: 19200,
                friction: 864,
                mass: 15360,
                inverse_mass: 60,
                elasticity: 672,
                left_wall: 59520,
                right_wall: 170880,
                bottom_wall: 141120,
                top_wall: 0,
                wall_thickness: 960,
                bias_factor: 192,
                bounce_factor: -192i64,
                dt: 16,
            }),
            c.valid(),
    {
        Config {
            gravity_step: 384,  // 0.4
            force_cap: 19200,  // 20.0
            friction: 864,  // 0.9
            mass: 15360,  // 16.0
            inverse_mass: 60,  // 1/16
            elasticity: 672,  // 0.7
            left_wall: 59520,  // 62.0
            right_wall: 170880,  // 179.0 less the wall thickness
            bottom_wall: 141120,  // 148.0 less the wall thickness
            top_wall: 0,
            wall_thickness: 960,  // 1.0
            bias_factor: 192,  // 0.2
            bounce_factor: -192,  // -0.2
            dt: 16,  // 1/60 s
        }
    }
}

} // verus!
