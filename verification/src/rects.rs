//! The rectangle hazards: a rectangle at a fixed rotation with entry and
//! exit size easing, and a spinning rectangle.

use crate::color::{mix, Color};
use crate::fx::{
    fx_add, fx_cos, fx_div, fx_mul, fx_sin, fx_sub, fx_wf, spec_cos, spec_fx_add, spec_fx_div,
    spec_fx_lerp, spec_fx_mul, spec_fx_sub, spec_sin, Fx, FX_ONE,
};
use crate::geom::{collide_cr, rot_wf, spec_collide_cr, Rot};
use crate::lasers::white;
use crate::obstacles::{RotatableRect, RotatingRect};
use crate::player::{player_wf, Player};
use crate::vec2::{v2_wf, Vec2};
use vstd::prelude::*;

verus! {

/// A well-formed rotatable rectangle: center and size in range, nonnegative
/// size, a positive grow window, a well-formed rotation.
pub open spec fn rrect_wf(r: RotatableRect) -> bool {
    v2_wf(r.center) && v2_wf(r.size) && r.size.x >= 0 && r.size.y >= 0 && r.grow_time > 0
        && rot_wf(r.rot)
}

/// The size easing factor: oversized and settling inside the grow window
/// after the warning phase (when oversize is allowed), shrinking to vanish
/// inside the grow window before death, and one in between.
pub open spec fn spec_rrect_factor(
    warning_time: int, show_time: int, grow_time: int, current_time: int, allow_oversize: bool,
) -> int {
    let total = spec_fx_add(warning_time, show_time);
    if allow_oversize && warning_time <= current_time <= spec_fx_add(warning_time, grow_time) {
        spec_fx_add(spec_fx_div(spec_fx_sub(current_time, warning_time), -grow_time), 2 * FX_ONE)
    } else if current_time >= spec_fx_sub(total, grow_time) {
        spec_fx_sub(
            spec_fx_div(spec_fx_sub(spec_fx_sub(current_time, total), grow_time), -grow_time),
            FX_ONE as int,
        )
    } else {
        FX_ONE as int
    }
}

/// The animated size: the configured size scaled by the easing factor.
pub open spec fn spec_rrect_size(r: RotatableRect, allow_oversize: bool) -> (int, int) {
    let f = spec_rrect_factor(
        r.warning_time as int, r.show_time as int, r.grow_time as int, r.current_time as int,
        allow_oversize,
    );
    (spec_fx_mul(r.size.x as int, f), spec_fx_mul(r.size.y as int, f))
}

/// Whether the rectangle touches the player: only at or after the warning
/// phase ends, with the animated (never oversized) size clamped at zero.
pub open spec fn spec_rrect_collides(r: RotatableRect, p: Player) -> bool {
    let sz = spec_rrect_size(r, false);
    let w = if sz.0 < 0 { 0 } else { sz.0 };
    let h = if sz.1 < 0 { 0 } else { sz.1 };
    r.current_time >= r.warning_time && spec_collide_cr(
        r.center.x as int, r.center.y as int, w, h, r.rot.c as int, r.rot.s as int,
        p.pos.x as int, p.pos.y as int, p.rad as int,
    )
}

impl RotatableRect {
    /// The animated size; `allow_oversize` lets the entry easing overshoot
    /// the configured size.
    pub fn size(&self, allow_oversize: bool) -> (sz: Vec2)
        requires
            self.grow_time > 0,
        ensures
            (sz.x as int, sz.y as int) == spec_rrect_size(*self, allow_oversize),
            v2_wf(sz),
    {
        let total = fx_add(self.warning_time, self.show_time);
        let f: Fx = if allow_oversize && self.warning_time <= self.current_time
            && self.current_time <= fx_add(self.warning_time, self.grow_time) {
            fx_add(fx_div(fx_sub(self.current_time, self.warning_time), -self.grow_time),
                2 * FX_ONE)
        } else if self.current_time >= fx_sub(total, self.grow_time) {
            fx_sub(
                fx_div(fx_sub(fx_sub(self.current_time, total), self.grow_time), -self.grow_time),
                FX_ONE,
            )
        } else {
            FX_ONE
        };
        Vec2 { x: fx_mul(self.size.x, f), y: fx_mul(self.size.y, f) }
    }

    /// The flash mix: white fading to the normal color inside the grow
    /// window after the warning phase ends.
    pub fn color(&self, normal: Color) -> (c: Color)
        requires
            self.grow_time > 0,
        ensures
            (c.r as int, c.g as int, c.b as int, c.a as int) == (if self.warning_time
                <= self.current_time <= spec_fx_add(self.warning_time as int, self.grow_time as int) {
                let by = spec_fx_div(
                    spec_fx_sub(self.current_time as int, self.warning_time as int),
                    self.grow_time as int,
                );
                (
                    spec_fx_lerp(FX_ONE as int, normal.r as int, by),
                    spec_fx_lerp(FX_ONE as int, normal.g as int, by),
                    spec_fx_lerp(FX_ONE as int, normal.b as int, by),
                    spec_fx_lerp(FX_ONE as int, normal.a as int, by),
                )
            } else {
                (normal.r as int, normal.g as int, normal.b as int, normal.a as int)
            }),
    {
        if self.warning_time <= self.current_time
            && self.current_time <= fx_add(self.warning_time, self.grow_time) {
            mix(white(), normal, fx_div(fx_sub(self.current_time, self.warning_time),
                self.grow_time))
        } else {
            normal
        }
    }

    /// Advance the local clock.
    pub fn update(&mut self, beat_dt: Fx)
        ensures
            *final(self) == (RotatableRect {
                current_time: spec_fx_add(old(self).current_time as int, beat_dt as int) as i64,
                ..*old(self)
            }),
    {
        self.current_time = fx_add(self.current_time, beat_dt);
    }

    /// Whether the rectangle touches the player.
    pub fn collides(&self, player: Player) -> (res: bool)
        requires
            rrect_wf(*self),
            player_wf(player),
        ensures
            res == spec_rrect_collides(*self, player),
    {
        self.current_time >= self.warning_time && {
            let sz = self.size(false);
            let sz = Vec2 {
                x: if sz.x < 0 { 0 } else { sz.x },
                y: if sz.y < 0 { 0 } else { sz.y },
            };
            collide_cr(self.center, sz, self.rot, player.pos, player.rad)
        }
    }

    /// Whether the rectangle's lifetime (warning plus show) is over.
    pub fn should_kill(&self) -> (res: bool)
        ensures
            res == (self.current_time >= spec_fx_add(
                self.show_time as int, self.warning_time as int)),
    {
        self.current_time >= fx_add(self.show_time, self.warning_time)
    }
}

/// A well-formed rotating rectangle: center and size in range, nonnegative
/// size, a positive grow window.
pub open spec fn spinrect_wf(r: RotatingRect) -> bool {
    v2_wf(r.center) && v2_wf(r.size) && r.size.x >= 0 && r.size.y >= 0 && r.grow_time > 0
}

/// The shrink-to-vanish easing factor of the spinning rectangle.
pub open spec fn spec_spinrect_factor(r: RotatingRect) -> int {
    let total = spec_fx_add(r.warning_time as int, r.show_time as int);
    if r.current_time >= spec_fx_sub(total, r.grow_time as int) {
        spec_fx_sub(
            spec_fx_div(
                spec_fx_sub(spec_fx_sub(r.current_time as int, total), r.grow_time as int),
                -r.grow_time as int,
            ),
            FX_ONE as int,
        )
    } else {
        FX_ONE as int
    }
}

/// The current rotation in turns: the base rotation advancing linearly at
/// the configured turns-per-beat rate since the warning phase ended.
pub open spec fn spec_spinrect_rot(r: RotatingRect) -> int {
    spec_fx_add(
        r.rot as int,
        spec_fx_mul(spec_fx_sub(r.current_time as int, r.warning_time as int), r.rpb as int),
    )
}

/// Whether the spinning rectangle touches the player: only at or after the
/// warning phase ends, against the negated current rotation (the collider's
/// rotation convention is inverted relative to the visual one).
pub open spec fn spec_spinrect_collides(r: RotatingRect, p: Player) -> bool {
    let f = spec_spinrect_factor(r);
    let w0 = spec_fx_mul(r.size.x as int, f);
    let h0 = spec_fx_mul(r.size.y as int, f);
    let w = if w0 < 0 { 0 } else { w0 };
    let h = if h0 < 0 { 0 } else { h0 };
    let a = -spec_spinrect_rot(r);
    r.current_time >= r.warning_time && spec_collide_cr(
        r.center.x as int, r.center.y as int, w, h, spec_cos(a), spec_sin(a),
        p.pos.x as int, p.pos.y as int, p.rad as int,
    )
}

impl RotatingRect {
    /// The animated size.
    pub fn size(&self) -> (sz: Vec2)
        requires
            self.grow_time > 0,
        ensures
            sz.x as int == spec_fx_mul(self.size.x as int, spec_spinrect_factor(*self)),
            sz.y as int == spec_fx_mul(self.size.y as int, spec_spinrect_factor(*self)),
            v2_wf(sz),
    {
        let total = fx_add(self.warning_time, self.show_time);
        let f: Fx = if self.current_time >= fx_sub(total, self.grow_time) {
            fx_sub(
                fx_div(fx_sub(fx_sub(self.current_time, total), self.grow_time), -self.grow_time),
                FX_ONE,
            )
        } else {
            FX_ONE
        };
        Vec2 { x: fx_mul(self.size.x, f), y: fx_mul(self.size.y, f) }
    }

    /// The flash mix: white fading to the normal color inside the grow
    /// window after the warning phase ends.
    pub fn color(&self, normal: Color) -> (c: Color)
        requires
            self.grow_time > 0,
        ensures
            (c.r as int, c.g as int, c.b as int, c.a as int) == (if self.warning_time
                <= self.current_time <= spec_fx_add(self.warning_time as int, self.grow_time as int) {
                let by = spec_fx_div(
                    spec_fx_sub(self.current_time as int, self.warning_time as int),
                    self.grow_time as int,
                );
                (
                    spec_fx_lerp(FX_ONE as int, normal.r as int, by),
                    spec_fx_lerp(FX_ONE as int, normal.g as int, by),
                    spec_fx_lerp(FX_ONE as int, normal.b as int, by),
                    spec_fx_lerp(FX_ONE as int, normal.a as int, by),
                )
            } else {
                (normal.r as int, normal.g as int, normal.b as int, normal.a as int)
            }),
    {
        if self.warning_time <= self.current_time
            && self.current_time <= fx_add(self.warning_time, self.grow_time) {
            mix(white(), normal, fx_div(fx_sub(self.current_time, self.warning_time),
                self.grow_time))
        } else {
            normal
        }
    }

    /// The current rotation in turns.
    pub fn rot(&self) -> (r: Fx)
        ensures
            r == spec_spinrect_rot(*self),
            fx_wf(r as int),
    {
        fx_add(self.rot, fx_mul(fx_sub(self.current_time, self.warning_time), self.rpb))
    }

    /// Advance the local clock.
    pub fn update(&mut self, beat_dt: Fx)
        ensures
            *final(self) == (RotatingRect {
                current_time: spec_fx_add(old(self).current_time as int, beat_dt as int) as i64,
                ..*old(self)
            }),
    {
        self.current_time = fx_add(self.current_time, beat_dt);
    }

    /// Whether the spinning rectangle touches the player.
    pub fn collides(&self, player: Player) -> (res: bool)
        requires
            spinrect_wf(*self),
            player_wf(player),
        ensures
            res == spec_spinrect_collides(*self, player),
    {
        self.current_time >= self.warning_time && {
            let sz = self.size();
            let sz = Vec2 {
                x: if sz.x < 0 { 0 } else { sz.x },
                y: if sz.y < 0 { 0 } else { sz.y },
            };
            let a = -self.rot();
            let rot = Rot { c: fx_cos(a), s: fx_sin(a) };
            collide_cr(self.center, sz, rot, player.pos, player.rad)
        }
    }

    /// Whether the rectangle's lifetime (warning plus show) is over.
    pub fn should_kill(&self) -> (res: bool)
        ensures
            res == (self.current_time >= spec_fx_add(
                self.show_time as int, self.warning_time as int)),
    {
        self.current_time >= fx_add(self.show_time, self.warning_time)
    }
}

} // verus!
