//! Two-dimensional fixed-point vectors.

use crate::fx::{
    fx_add, fx_lerp, fx_mul, fx_sub, fx_wf, spec_fx_add, spec_fx_lerp, spec_fx_mul, spec_fx_sub,
    Fx,
};
use vstd::prelude::*;

verus! {

/// A 2D vector of fixed-point coordinates.
#[derive(Clone, Copy, PartialEq, Eq, Structural, Debug)]
pub struct Vec2 {
    pub x: Fx,
    pub y: Fx,
}

/// Both coordinates are well-formed fixed-point values.
pub open spec fn v2_wf(v: Vec2) -> bool {
    fx_wf(v.x as int) && fx_wf(v.y as int)
}

impl Vec2 {
    /// Build a vector from its coordinates.
    pub fn new(x: Fx, y: Fx) -> (r: Vec2)
        ensures
            r.x == x && r.y == y,
    {
        Vec2 { x, y }
    }

    /// The zero vector.
    pub fn zero() -> (r: Vec2)
        ensures
            r.x == 0 && r.y == 0,
    {
        Vec2 { x: 0, y: 0 }
    }

    /// Componentwise saturating addition.
    pub fn add(self, o: Vec2) -> (r: Vec2)
        ensures
            r.x == spec_fx_add(self.x as int, o.x as int),
            r.y == spec_fx_add(self.y as int, o.y as int),
            v2_wf(r),
    {
        Vec2 { x: fx_add(self.x, o.x), y: fx_add(self.y, o.y) }
    }

    /// Componentwise saturating subtraction.
    pub fn sub(self, o: Vec2) -> (r: Vec2)
        ensures
            r.x == spec_fx_sub(self.x as int, o.x as int),
            r.y == spec_fx_sub(self.y as int, o.y as int),
            v2_wf(r),
    {
        Vec2 { x: fx_sub(self.x, o.x), y: fx_sub(self.y, o.y) }
    }

    /// Scale both coordinates by a fixed-point factor.
    pub fn scale(self, t: Fx) -> (r: Vec2)
        ensures
            r.x == spec_fx_mul(self.x as int, t as int),
            r.y == spec_fx_mul(self.y as int, t as int),
            v2_wf(r),
    {
        Vec2 { x: fx_mul(self.x, t), y: fx_mul(self.y, t) }
    }

    /// Componentwise linear interpolation toward `o` by factor `t`.
    pub fn lerp(self, o: Vec2, t: Fx) -> (r: Vec2)
        ensures
            r.x == spec_fx_lerp(self.x as int, o.x as int, t as int),
            r.y == spec_fx_lerp(self.y as int, o.y as int, t as int),
            v2_wf(r),
    {
        Vec2 { x: fx_lerp(self.x, o.x, t), y: fx_lerp(self.y, o.y, t) }
    }
}

/// Squared distance between two points, exact over the integers.
pub open spec fn spec_dist_sq(ax: int, ay: int, bx: int, by: int) -> int {
    (ax - bx) * (ax - bx) + (ay - by) * (ay - by)
}

/// Squared distance between two well-formed points.
pub fn dist_sq(a: Vec2, b: Vec2) -> (r: u128)
    requires
        v2_wf(a),
        v2_wf(b),
    ensures
        r == spec_dist_sq(a.x as int, a.y as int, b.x as int, b.y as int),
{
    let dx: i128 = a.x as i128 - b.x as i128;
    let dy: i128 = a.y as i128 - b.y as i128;
    proof {
        assert(dx * dx <= 0x4_0000_0000_0000_0000_0000_0000_0000 && dx * dx >= 0)
            by (nonlinear_arith)
            requires
                -0x200_0000_0000_0000 <= dx <= 0x200_0000_0000_0000,
        ;
        assert(dy * dy <= 0x4_0000_0000_0000_0000_0000_0000_0000 && dy * dy >= 0)
            by (nonlinear_arith)
            requires
                -0x200_0000_0000_0000 <= dy <= 0x200_0000_0000_0000,
        ;
    }
    let q: i128 = dx * dx + dy * dy;
    q as u128
}

} // verus!
