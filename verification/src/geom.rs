//! Collision predicates between a circle (the player) and the hazard shapes:
//! circles, axis-aligned and rotated rectangles, capsules, and annular arcs.
//!
//! Boundary convention: every test is inclusive (touching counts as a
//! collision). The circle/axis-aligned-rectangle test classifies the circle
//! center into one of nine regions and picks the cheapest exact test for that
//! region; it is proved equal to the closest-point characterization
//! [`spec_collide_ca`].

use crate::fx::{clip, fx_add, fx_mul, fx_wf, isqrt, spec_fx_add, spec_fx_lerp, spec_fx_mul, tdiv,
    Fx, FX_MAX, FX_ONE};
use crate::vec2::{dist_sq, spec_dist_sq, v2_wf, Vec2};
use vstd::arithmetic::div_mod::lemma_multiply_divide_le;
use vstd::math::abs;
use vstd::prelude::*;

verus! {

/// A rotation held as its cosine and sine, in fixed-point units.
#[derive(Clone, Copy, PartialEq, Eq, Structural, Debug)]
pub struct Rot {
    pub c: Fx,
    pub s: Fx,
}

/// A well-formed rotation has cosine and sine of magnitude at most one.
pub open spec fn rot_wf(r: Rot) -> bool {
    -FX_ONE <= r.c <= FX_ONE && -FX_ONE <= r.s <= FX_ONE
}

impl Rot {
    /// The identity rotation.
    pub fn identity() -> (r: Rot)
        ensures
            r.c == FX_ONE && r.s == 0,
            rot_wf(r),
    {
        Rot { c: FX_ONE, s: 0 }
    }

    /// The inverse rotation (negated angle).
    pub fn neg(self) -> (r: Rot)
        requires
            rot_wf(self),
        ensures
            r.c == self.c && r.s == -self.s,
            rot_wf(r),
    {
        Rot { c: self.c, s: -self.s }
    }
}

/// The x coordinate of a vector rotated by `(c, s)`.
pub open spec fn spec_rot_x(c: int, s: int, x: int, y: int) -> int {
    spec_fx_add(spec_fx_mul(c, x), spec_fx_mul(s, y))
}

/// The y coordinate of a vector rotated by `(c, s)`.
pub open spec fn spec_rot_y(c: int, s: int, x: int, y: int) -> int {
    spec_fx_add(spec_fx_mul(-s, x), spec_fx_mul(c, y))
}

/// Rotate a vector around the origin.
pub fn rotate(v: Vec2, rot: Rot) -> (r: Vec2)
    requires
        rot_wf(rot),
    ensures
        r.x == spec_rot_x(rot.c as int, rot.s as int, v.x as int, v.y as int),
        r.y == spec_rot_y(rot.c as int, rot.s as int, v.x as int, v.y as int),
        v2_wf(r),
{
    Vec2 {
        x: fx_add(fx_mul(rot.c, v.x), fx_mul(rot.s, v.y)),
        y: fx_add(fx_mul(-rot.s, v.x), fx_mul(rot.c, v.y)),
    }
}

/// The x coordinate of `v` rotated about the pivot `(ax, ay)`.
pub open spec fn spec_rot_around_x(c: int, s: int, x: int, y: int, ax: int, ay: int) -> int {
    spec_fx_add(spec_rot_x(c, s, clip(x - ax), clip(y - ay)), ax)
}

/// The y coordinate of `v` rotated about the pivot `(ax, ay)`.
pub open spec fn spec_rot_around_y(c: int, s: int, x: int, y: int, ax: int, ay: int) -> int {
    spec_fx_add(spec_rot_y(c, s, clip(x - ax), clip(y - ay)), ay)
}

/// Rotate a point about a pivot.
pub fn rotate_around(v: Vec2, around: Vec2, rot: Rot) -> (r: Vec2)
    requires
        rot_wf(rot),
        v2_wf(around),
    ensures
        r.x == spec_rot_around_x(
            rot.c as int, rot.s as int, v.x as int, v.y as int,
            around.x as int, around.y as int,
        ),
        r.y == spec_rot_around_y(
            rot.c as int, rot.s as int, v.x as int, v.y as int,
            around.x as int, around.y as int,
        ),
        v2_wf(r),
{
    rotate(v.sub(around), rot).add(around)
}

/// Whether two circles touch or overlap: squared center distance at most the
/// squared sum of the radii.
pub open spec fn spec_collide_cc(
    p1x: int, p1y: int, r1: int, p2x: int, p2y: int, r2: int,
) -> bool {
    spec_dist_sq(p1x, p1y, p2x, p2y) <= (r1 + r2) * (r1 + r2)
}

/// Squared-magnitude comparison: `dx*dx + dy*dy <= r*r`, exact.
fn sq_le(dx: i64, dy: i64, r: i64) -> (res: bool)
    requires
        -8 * FX_MAX <= dx <= 8 * FX_MAX,
        -8 * FX_MAX <= dy <= 8 * FX_MAX,
        -8 * FX_MAX <= r <= 8 * FX_MAX,
    ensures
        res == (dx * dx + dy * dy <= r * r),
{
    proof {
        assert(forall|a: int| -8 * FX_MAX <= a <= 8 * FX_MAX
            ==> 0 <= #[trigger] (a * a) <= 0x400_0000_0000_0000_0000_0000_0000_0000)
            by (nonlinear_arith);
    }
    let d2: i128 = dx as i128 * dx as i128 + dy as i128 * dy as i128;
    let r2: i128 = r as i128 * r as i128;
    d2 <= r2
}

/// Circle vs circle. No division or square roots.
pub fn collide_cc(pos1: Vec2, rad1: Fx, pos2: Vec2, rad2: Fx) -> (res: bool)
    requires
        v2_wf(pos1),
        v2_wf(pos2),
        fx_wf(rad1 as int),
        fx_wf(rad2 as int),
    ensures
        res == spec_collide_cc(
            pos1.x as int, pos1.y as int, rad1 as int,
            pos2.x as int, pos2.y as int, rad2 as int,
        ),
{
    sq_le(pos1.x - pos2.x, pos1.y - pos2.y, rad1 + rad2)
}

/// Whether a filled circle touches a hollow circle (annulus): inside the outer
/// radius but not strictly inside the inner one.
pub open spec fn spec_collide_chc(
    cx: int, cy: int, crad: int, hx: int, hy: int, hrad: int, hradin: int,
) -> bool {
    spec_collide_cc(cx, cy, crad, hx, hy, hrad)
        && !spec_collide_cc(cx, cy, -crad, hx, hy, hradin)
}

/// Hollow circle vs filled circle.
pub fn collide_chc(cpos: Vec2, crad: Fx, hpos: Vec2, hrad: Fx, hradin: Fx) -> (res: bool)
    requires
        v2_wf(cpos),
        v2_wf(hpos),
        fx_wf(crad as int),
        fx_wf(hrad as int),
        fx_wf(hradin as int),
    ensures
        res == spec_collide_chc(
            cpos.x as int, cpos.y as int, crad as int,
            hpos.x as int, hpos.y as int, hrad as int, hradin as int,
        ),
{
    collide_cc(cpos, crad, hpos, hrad) && !collide_cc(cpos, -crad, hpos, hradin)
}

/// Clamp a coordinate into an interval.
pub open spec fn spec_clamp(v: int, lo: int, hi: int) -> int {
    if v < lo {
        lo
    } else if v > hi {
        hi
    } else {
        v
    }
}

/// Whether a circle touches an axis-aligned rectangle: the closest point of
/// the rectangle to the circle center lies within the radius.
pub open spec fn spec_collide_ca(
    rx: int, ry: int, w: int, h: int, cx: int, cy: int, rad: int,
) -> bool {
    let px = spec_clamp(cx, rx, rx + w);
    let py = spec_clamp(cy, ry, ry + h);
    spec_dist_sq(px, py, cx, cy) <= rad * rad
}

/// The nine-region formulation of the circle/axis-aligned-rectangle test:
/// corners compare squared distance to the corner, edges use a half-plane,
/// the interior always collides.
pub open spec fn spec_ca_regions(
    rx: int, ry: int, w: int, h: int, cx: int, cy: int, rad: int,
) -> bool {
    if cx <= rx {
        if cy <= ry {
            (rx - cx) * (rx - cx) + (ry - cy) * (ry - cy) <= rad * rad
        } else if cy < ry + h {
            cx >= rx - rad
        } else {
            (rx - cx) * (rx - cx) + (ry + h - cy) * (ry + h - cy) <= rad * rad
        }
    } else if cx < rx + w {
        if cy <= ry {
            cy >= ry - rad
        } else if cy < ry + h {
            true
        } else {
            cy <= ry + h + rad
        }
    } else {
        if cy <= ry {
            (rx + w - cx) * (rx + w - cx) + (ry - cy) * (ry - cy) <= rad * rad
        } else if cy < ry + h {
            cx <= rx + w + rad
        } else {
            (rx + w - cx) * (rx + w - cx) + (ry + h - cy) * (ry + h - cy) <= rad * rad
        }
    }
}

/// For nonnegative sizes and radius, the nine-region classification agrees
/// with the closest-point characterization.
pub proof fn lemma_ca_regions_eq(rx: int, ry: int, w: int, h: int, cx: int, cy: int, rad: int)
    requires
        w >= 0,
        h >= 0,
        rad >= 0,
    ensures
        spec_collide_ca(rx, ry, w, h, cx, cy, rad) == spec_ca_regions(
            rx, ry, w, h, cx, cy, rad,
        ),
{
    let px = spec_clamp(cx, rx, rx + w);
    let py = spec_clamp(cy, ry, ry + h);
    assert(((px - cx) * (px - cx) + (py - cy) * (py - cy) <= rad * rad) == spec_ca_regions(
        rx, ry, w, h, cx, cy, rad,
    )) by (nonlinear_arith)
        requires
            w >= 0,
            h >= 0,
            rad >= 0,
            px == (if cx < rx { rx } else if cx > rx + w { rx + w } else { cx }),
            py == (if cy < ry { ry } else if cy > ry + h { ry + h } else { cy }),
            spec_ca_regions(rx, ry, w, h, cx, cy, rad) == (if cx <= rx {
                if cy <= ry {
                    (rx - cx) * (rx - cx) + (ry - cy) * (ry - cy) <= rad * rad
                } else if cy < ry + h {
                    cx >= rx - rad
                } else {
                    (rx - cx) * (rx - cx) + (ry + h - cy) * (ry + h - cy) <= rad * rad
                }
            } else if cx < rx + w {
                if cy <= ry {
                    cy >= ry - rad
                } else if cy < ry + h {
                    true
                } else {
                    cy <= ry + h + rad
                }
            } else {
                if cy <= ry {
                    (rx + w - cx) * (rx + w - cx) + (ry - cy) * (ry - cy) <= rad * rad
                } else if cy < ry + h {
                    cx <= rx + w + rad
                } else {
                    (rx + w - cx) * (rx + w - cx) + (ry + h - cy) * (ry + h - cy) <= rad * rad
                }
            }),
    ;
}

/// Circle vs axis-aligned rectangle, by nine-region classification: corner
/// regions use the squared distance to the corner, edge regions a half-plane
/// test, and the interior always collides.
pub fn collide_ca(rpos: Vec2, rsize: Vec2, cpos: Vec2, rad: Fx) -> (res: bool)
    requires
        v2_wf(rpos),
        v2_wf(cpos),
        0 <= rsize.x <= 4 * FX_MAX,
        0 <= rsize.y <= 4 * FX_MAX,
        0 <= rad <= FX_MAX,
    ensures
        res == spec_collide_ca(
            rpos.x as int, rpos.y as int, rsize.x as int, rsize.y as int,
            cpos.x as int, cpos.y as int, rad as int,
        ),
{
    let right: i64 = rpos.x + rsize.x;
    let bottom: i64 = rpos.y + rsize.y;
    let res: bool = if cpos.x <= rpos.x {
        if cpos.y <= rpos.y {
            // top-left corner region
            sq_le(rpos.x - cpos.x, rpos.y - cpos.y, rad)
        } else if cpos.y < bottom {
            // center-left edge region
            cpos.x >= rpos.x - rad
        } else {
            // bottom-left corner region
            sq_le(rpos.x - cpos.x, bottom - cpos.y, rad)
        }
    } else if cpos.x < right {
        if cpos.y <= rpos.y {
            // top-center edge region
            cpos.y >= rpos.y - rad
        } else if cpos.y < bottom {
            // interior
            true
        } else {
            // bottom-center edge region
            cpos.y <= bottom + rad
        }
    } else {
        if cpos.y <= rpos.y {
            // top-right corner region
            sq_le(right - cpos.x, rpos.y - cpos.y, rad)
        } else if cpos.y < bottom {
            // center-right edge region
            cpos.x <= right + rad
        } else {
            // bottom-right corner region
            sq_le(right - cpos.x, bottom - cpos.y, rad)
        }
    };
    assert(res == spec_ca_regions(
        rpos.x as int, rpos.y as int, rsize.x as int, rsize.y as int,
        cpos.x as int, cpos.y as int, rad as int,
    ));
    proof {
        lemma_ca_regions_eq(
            rpos.x as int, rpos.y as int, rsize.x as int, rsize.y as int,
            cpos.x as int, cpos.y as int, rad as int,
        );
    }
    res
}

/// Circle vs rotated rectangle: carry the circle center into the rectangle's
/// unrotated frame (rotating about the rectangle's corner), then delegate to
/// the axis-aligned test.
pub open spec fn spec_collide_cr(
    ccx: int, ccy: int, w: int, h: int, c: int, s: int, px: int, py: int, rad: int,
) -> bool {
    let ax = spec_fx_add(spec_rot_x(c, -s, spec_fx_mul(w, -500), spec_fx_mul(h, -500)), ccx);
    let ay = spec_fx_add(spec_rot_y(c, -s, spec_fx_mul(w, -500), spec_fx_mul(h, -500)), ccy);
    let qx = spec_rot_around_x(c, s, px, py, ax, ay);
    let qy = spec_rot_around_y(c, s, px, py, ax, ay);
    spec_collide_ca(ax, ay, w, h, qx, qy, rad)
}

/// Circle vs rotated rectangle.
pub fn collide_cr(rcenter: Vec2, rsize: Vec2, rot: Rot, cpos: Vec2, rad: Fx) -> (res: bool)
    requires
        v2_wf(rcenter),
        rot_wf(rot),
        v2_wf(cpos),
        0 <= rsize.x <= 4 * FX_MAX,
        0 <= rsize.y <= 4 * FX_MAX,
        0 <= rad <= FX_MAX,
    ensures
        res == spec_collide_cr(
            rcenter.x as int, rcenter.y as int, rsize.x as int, rsize.y as int,
            rot.c as int, rot.s as int, cpos.x as int, cpos.y as int, rad as int,
        ),
{
    let around = rotate(rsize.scale(-500), rot.neg()).add(rcenter);
    let new_cpos = rotate_around(cpos, around, rot);
    collide_ca(around, rsize, new_cpos, rad)
}


/// `r` is the integer square root of `n`.
pub open spec fn is_sqrt_of(n: int, r: int) -> bool {
    0 <= r && r * r <= n && n < (r + 1) * (r + 1)
}

/// The integer square root of a nonnegative integer.
pub open spec fn spec_isqrt(n: int) -> int {
    choose|r: int| is_sqrt_of(n, r)
}

/// Any witness of [`is_sqrt_of`] is the integer square root.
pub proof fn lemma_isqrt_unique(n: int, r: int)
    requires
        is_sqrt_of(n, r),
    ensures
        r == spec_isqrt(n),
{
    assert(exists|x: int| is_sqrt_of(n, x)) by {
        assert(is_sqrt_of(n, r));
    };
    let q = spec_isqrt(n);
    assert(is_sqrt_of(n, q));
    assert(r == q) by (nonlinear_arith)
        requires
            0 <= r,
            r * r <= n,
            n < (r + 1) * (r + 1),
            0 <= q,
            q * q <= n,
            n < (q + 1) * (q + 1),
    ;
}

/// The fixed-point length of the segment from `a` to `b`: the integer square
/// root of the squared coordinate distance (the scale cancels).
pub open spec fn spec_seg_len(ax: int, ay: int, bx: int, by: int) -> int {
    spec_isqrt(spec_dist_sq(ax, ay, bx, by))
}

/// Cosine of the segment direction (x component of the unit vector).
pub open spec fn spec_seg_cos(ax: int, ay: int, bx: int, by: int) -> int {
    let len = spec_seg_len(ax, ay, bx, by);
    if len == 0 {
        FX_ONE as int
    } else {
        tdiv((bx - ax) * FX_ONE, len)
    }
}

/// Sine of the segment direction (y component of the unit vector).
pub open spec fn spec_seg_sin(ax: int, ay: int, bx: int, by: int) -> int {
    let len = spec_seg_len(ax, ay, bx, by);
    if len == 0 {
        0
    } else {
        tdiv((by - ay) * FX_ONE, len)
    }
}

/// Signed truncating division of `d * FX_ONE` by positive `len`, with the
/// quotient magnitude bounded by `FX_ONE` whenever `abs(d) <= len`.
fn unit_component(d: i64, len: i64) -> (r: i64)
    requires
        0 < len,
        -len <= d <= len,
        len <= 0x800_0000_0000_0000,
    ensures
        r == tdiv(d * FX_ONE, len as int),
        -FX_ONE <= r <= FX_ONE,
{
    let num: u128 = if d >= 0 {
        d as u128 * 1000
    } else {
        (-(d as i128)) as u128 * 1000
    };
    let q: u128 = num / (len as u128);
    proof {
        assert(num == abs(d as int * 1000));
        assert(num <= (len as int) * 1000) by (nonlinear_arith)
            requires
                num == abs(d as int * 1000),
                -len <= d <= len,
                0 < len,
        ;
        lemma_multiply_divide_le(num as int, len as int, 1000);
    }
    if d >= 0 {
        q as i64
    } else {
        -(q as i64)
    }
}

/// Convert a thick line segment into an equivalent rotated-rectangle
/// descriptor: center at the midpoint, size (length, thickness), rotation the
/// segment's direction.
pub fn rectify_line(start: Vec2, end: Vec2, thickness: Fx) -> (r: (Vec2, Vec2, Rot))
    requires
        v2_wf(start),
        v2_wf(end),
        fx_wf(thickness as int),
    ensures
        r.0.x == spec_fx_lerp(start.x as int, end.x as int, 500),
        r.0.y == spec_fx_lerp(start.y as int, end.y as int, 500),
        r.1.x == spec_seg_len(start.x as int, start.y as int, end.x as int, end.y as int),
        r.1.y == thickness,
        r.2.c == spec_seg_cos(start.x as int, start.y as int, end.x as int, end.y as int),
        r.2.s == spec_seg_sin(start.x as int, start.y as int, end.x as int, end.y as int),
        0 <= r.1.x <= 4 * FX_MAX,
        v2_wf(r.0),
        rot_wf(r.2),
{
    let center = start.lerp(end, 500);
    let n: u128 = dist_sq(start, end);
    proof {
        assert(n <= 0x8_0000_0000_0000_0000_0000_0000_0000) by (nonlinear_arith)
            requires
                n as int == (start.x as int - end.x as int) * (start.x as int - end.x as int) + (
                start.y as int - end.y as int) * (start.y as int - end.y as int),
                -FX_MAX <= start.x as int <= FX_MAX,
                -FX_MAX <= start.y as int <= FX_MAX,
                -FX_MAX <= end.x as int <= FX_MAX,
                -FX_MAX <= end.y as int <= FX_MAX,
        ;
    }
    let len64: u64 = isqrt(n);
    proof {
        lemma_isqrt_unique(n as int, len64 as int);
        assert(len64 < 0x400_0000_0000_0000) by (nonlinear_arith)
            requires
                (len64 as int) * (len64 as int) <= n,
                n <= 0x8_0000_0000_0000_0000_0000_0000_0000,
                0 <= len64 as int,
        ;
    }
    let len: i64 = len64 as i64;
    let dx: i64 = end.x - start.x;
    let dy: i64 = end.y - start.y;
    let rot: Rot = if len == 0 {
        Rot { c: FX_ONE, s: 0 }
    } else {
        proof {
            let sdx = start.x as int - end.x as int;
            let sdy = start.y as int - end.y as int;
            assert(-(len as int) <= sdx <= len as int && -(len as int) <= sdy <= len as int)
                by (nonlinear_arith)
                requires
                    n == sdx * sdx + sdy * sdy,
                    (len as int) * (len as int) <= n,
                    n < ((len as int) + 1) * ((len as int) + 1),
                    0 < len,
            ;
        }
        Rot { c: unit_component(dx, len), s: unit_component(dy, len) }
    };
    (center, Vec2 { x: len, y: thickness }, rot)
}

/// Whether a circle touches a capsule (a thick segment): rectify the segment
/// to a zero-width rotated rectangle and inflate the circle by the capsule
/// radius.
pub open spec fn spec_collide_capsule(
    ax: int, ay: int, bx: int, by: int, rad: int, ox: int, oy: int, orad: int,
) -> bool {
    spec_collide_cr(
        spec_fx_lerp(ax, bx, 500),
        spec_fx_lerp(ay, by, 500),
        spec_seg_len(ax, ay, bx, by),
        0,
        spec_seg_cos(ax, ay, bx, by),
        spec_seg_sin(ax, ay, bx, by),
        ox,
        oy,
        clip(rad + orad),
    )
}

/// Circle vs capsule from `p1` to `p2` with radius `rad`.
pub fn collide_capsule(p1: Vec2, p2: Vec2, rad: Fx, other: Vec2, other_rad: Fx) -> (res: bool)
    requires
        v2_wf(p1),
        v2_wf(p2),
        v2_wf(other),
        0 <= rad <= FX_MAX,
        0 <= other_rad <= FX_MAX,
    ensures
        res == spec_collide_capsule(
            p1.x as int, p1.y as int, p2.x as int, p2.y as int, rad as int,
            other.x as int, other.y as int, other_rad as int,
        ),
{
    let (c, s, r) = rectify_line(p1, p2, 0);
    collide_cr(c, s, r, other, fx_add(other_rad, rad))
}

/// Whether a circle touches an annular arc: inside the annulus, and on the
/// inner side of both bounding half-planes given by the arc's two angles.
pub open spec fn spec_collide_circ_arc(
    cx: int, cy: int, crad: int, ax: int, ay: int, radout: int, radin: int,
    c1: int, s1: int, c2: int, s2: int,
) -> bool {
    spec_collide_chc(cx, cy, crad, ax, ay, radout, radin)
        && spec_rot_around_y(c1, s1, cx, cy, ax, ay) >= ay - crad
        && spec_rot_around_y(c2, s2, cx, cy, ax, ay) <= ay - crad
}

/// Circle vs annular arc between the rotations `ang1` and `ang2`.
pub fn collide_circ_arc(
    cpos: Vec2, crad: Fx, apos: Vec2, aradout: Fx, aradin: Fx, ang1: Rot, ang2: Rot,
) -> (res: bool)
    requires
        v2_wf(cpos),
        v2_wf(apos),
        fx_wf(crad as int),
        fx_wf(aradout as int),
        fx_wf(aradin as int),
        rot_wf(ang1),
        rot_wf(ang2),
    ensures
        res == spec_collide_circ_arc(
            cpos.x as int, cpos.y as int, crad as int, apos.x as int, apos.y as int,
            aradout as int, aradin as int, ang1.c as int, ang1.s as int,
            ang2.c as int, ang2.s as int,
        ),
{
    collide_chc(cpos, crad, apos, aradout, aradin)
        && rotate_around(cpos, apos, ang1).y >= apos.y - crad
        && rotate_around(cpos, apos, ang2).y <= apos.y - crad
}

/// Multiplying by the fixed-point one is the identity on well-formed values.
pub proof fn lemma_fx_mul_one(x: int)
    requires
        fx_wf(x),
    ensures
        spec_fx_mul(FX_ONE as int, x) == x,
{
    vstd::arithmetic::div_mod::lemma_div_multiples_vanish(abs(x) as int, FX_ONE as int);
    assert(abs(FX_ONE as int * x) == FX_ONE * abs(x)) by (nonlinear_arith);
    assert(tdiv(FX_ONE as int * x, FX_ONE as int) == x);
}

/// Multiplying by zero gives zero.
pub proof fn lemma_fx_mul_zero(x: int)
    ensures
        spec_fx_mul(0, x) == 0,
{
    assert(0 * x == 0) by (nonlinear_arith);
    assert(abs(0int) / (abs(FX_ONE as int)) == 0);
}

/// With the identity rotation, the rotated-rectangle test is exactly the
/// axis-aligned test against the rectangle whose corner sits half a size
/// above and left of the center: a zero rotation is a no-op transform.
pub proof fn lemma_cr_rotation_zero(
    rcx: int, rcy: int, w: int, h: int, px: int, py: int, rad: int,
)
    requires
        -0x40_0000_0000_0000 <= rcx <= 0x40_0000_0000_0000,
        -0x40_0000_0000_0000 <= rcy <= 0x40_0000_0000_0000,
        0 <= w <= 0x40_0000_0000_0000,
        0 <= h <= 0x40_0000_0000_0000,
        -0x40_0000_0000_0000 <= px <= 0x40_0000_0000_0000,
        -0x40_0000_0000_0000 <= py <= 0x40_0000_0000_0000,
        0 <= rad <= 0x40_0000_0000_0000,
    ensures
        spec_collide_cr(rcx, rcy, w, h, FX_ONE as int, 0, px, py, rad) == spec_collide_ca(
            rcx + spec_fx_mul(w, -500),
            rcy + spec_fx_mul(h, -500),
            w,
            h,
            px,
            py,
            rad,
        ),
{
    let wm = spec_fx_mul(w, -500);
    let hm = spec_fx_mul(h, -500);
    assert(-0x20_0000_0000_0000 <= wm <= 0 && -0x20_0000_0000_0000 <= hm <= 0)
        by (nonlinear_arith)
        requires
            0 <= w <= 0x40_0000_0000_0000,
            0 <= h <= 0x40_0000_0000_0000,
            wm == spec_fx_mul(w, -500),
            hm == spec_fx_mul(h, -500),
            forall|a: int, b: int| #[trigger] spec_fx_mul(a, b) == clip(tdiv(a * b, 1000)),
    ;
    lemma_fx_mul_one(clip(wm));
    lemma_fx_mul_one(clip(hm));
    lemma_fx_mul_zero(clip(wm));
    lemma_fx_mul_zero(clip(hm));
    let ax = spec_fx_add(spec_rot_x(FX_ONE as int, 0, wm, hm), rcx);
    let ay = spec_fx_add(spec_rot_y(FX_ONE as int, 0, wm, hm), rcy);
    lemma_fx_mul_one(wm);
    lemma_fx_mul_one(hm);
    lemma_fx_mul_zero(wm);
    lemma_fx_mul_zero(hm);
    assert(spec_fx_mul(-0, wm) == 0) by {
        lemma_fx_mul_zero(wm);
    };
    assert(ax == rcx + wm);
    assert(ay == rcy + hm);
    lemma_fx_mul_one(clip(px - ax));
    lemma_fx_mul_one(clip(py - ay));
    lemma_fx_mul_zero(clip(px - ax));
    lemma_fx_mul_zero(clip(py - ay));
    assert(spec_rot_around_x(FX_ONE as int, 0, px, py, ax, ay) == px);
    assert(spec_rot_around_y(FX_ONE as int, 0, px, py, ax, ay) == py);
}

} // verus!
