//! Two-component fixed-point vectors.

use vstd::prelude::*;

use crate::fx::{
    add_sat, add_sat_spec, dot_fx, dot_fx_spec, mul_fx, mul_fx_spec, neg_sat, neg_sat_spec,
    sub_sat, sub_sat_spec,
};

verus! {

/// A 2D vector of fixed-point coordinates.
#[derive(Clone, Copy, PartialEq, Eq, Structural, Debug)]
pub struct Vec2Fx {
    pub x: i64,
    pub y: i64,
}

pub open spec fn v2(x: i64, y: i64) -> Vec2Fx {
    Vec2Fx { x, y }
}

pub open spec fn v2_add_spec(a: Vec2Fx, b: Vec2Fx) -> Vec2Fx {
    Vec2Fx { x: add_sat_spec(a.x, b.x), y: add_sat_spec(a.y, b.y) }
}

pub open spec fn v2_sub_spec(a: Vec2Fx, b: Vec2Fx) -> Vec2Fx {
    Vec2Fx { x: sub_sat_spec(a.x, b.x), y: sub_sat_spec(a.y, b.y) }
}

pub open spec fn v2_neg_spec(a: Vec2Fx) -> Vec2Fx {
    Vec2Fx { x: neg_sat_spec(a.x), y: neg_sat_spec(a.y) }
}

/// Each component scaled by the fixed-point factor `k`.
pub open spec fn v2_scale_spec(a: Vec2Fx, k: i64) -> Vec2Fx {
    Vec2Fx { x: mul_fx_spec(a.x, k), y: mul_fx_spec(a.y, k) }
}

pub open spec fn v2_dot_spec(a: Vec2Fx, b: Vec2Fx) -> i64 {
    dot_fx_spec(a.x, a.y, b.x, b.y)
}

impl Vec2Fx {
    /// The zero vector.
    pub fn zero() -> (r: Vec2Fx)
        ensures
            r == v2(0, 0),
    {
        Vec2Fx { x: 0, y: 0 }
    }

    /// Componentwise saturating sum.
    pub fn plus(self, o: Vec2Fx) -> (r: Vec2Fx)
        ensures
            r == v2_add_spec(self, o),
    {
        Vec2Fx { x: add_sat(self.x, o.x), y: add_sat(self.y, o.y) }
    }

    /// Componentwise saturating difference.
    pub fn minus(self, o: Vec2Fx) -> (r: Vec2Fx)
        ensures
            r == v2_sub_spec(self, o),
    {
        Vec2Fx { x: sub_sat(self.x, o.x), y: sub_sat(self.y, o.y) }
    }

    /// Componentwise saturating negation.
    pub fn negated(self) -> (r: Vec2Fx)
        ensures
            r == v2_neg_spec(self),
    {
        Vec2Fx { x: neg_sat(self.x), y: neg_sat(self.y) }
    }

    /// Both components scaled by the fixed-point factor `k`.
    pub fn scaled(self, k: i64) -> (r: Vec2Fx)
        ensures
            r == v2_scale_spec(self, k),
    {
        Vec2Fx { x: mul_fx(self.x, k), y: mul_fx(self.y, k) }
    }

    /// Fixed-point dot product.
    pub fn dot(self, o: Vec2Fx) -> (r: i64)
        ensures
            r == v2_dot_spec(self, o),
    {
        dot_fx(self.x, self.y, o.x, o.y)
    }
}

} // verus!
