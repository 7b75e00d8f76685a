//! The two beam hazards: a laser whose thickness grows in and out, and a
//! laser whose endpoint slams across the screen.

use crate::accum::{accum_same_but_effects, UpdateAccumulator};
use crate::color::{mix, Color};
use crate::fx::{
    fx_add, fx_div, fx_mul, fx_sub, fx_wf, spec_fx_add, spec_fx_div, spec_fx_lerp, spec_fx_mul,
    spec_fx_sub, Fx, FX_ONE,
};
use crate::geom::{collide_cr, spec_collide_cr, spec_seg_cos, spec_seg_len, spec_seg_sin};
use crate::obstacles::{GrowLaser, SlamLaser};
use crate::player::{player_wf, Player};
use crate::vec2::{v2_wf, Vec2};
use vstd::prelude::*;

verus! {

/// The flash-white color used while a hazard fades in.
pub fn white() -> (c: Color)
    ensures
        c == (Color { r: FX_ONE, g: FX_ONE, b: FX_ONE, a: FX_ONE }),
{
    Color { r: FX_ONE, g: FX_ONE, b: FX_ONE, a: FX_ONE }
}

/// A well-formed growing laser: endpoints in range, a positive grow window.
pub open spec fn glaser_wf(l: GrowLaser) -> bool {
    v2_wf(l.start) && v2_wf(l.end) && l.grow_time > 0 && fx_wf(l.thickness as int)
}

/// The animated thickness: a linear ramp from zero inside the grow window
/// after the warning phase, a mirrored linear ramp back to zero inside the
/// grow window before death, and the configured thickness in between.
pub open spec fn spec_glaser_thick(l: GrowLaser) -> int {
    let total = spec_fx_add(l.warning_time as int, l.show_time as int);
    if l.warning_time <= l.current_time
        <= spec_fx_add(l.warning_time as int, l.grow_time as int) {
        spec_fx_div(
            spec_fx_mul(l.thickness as int, spec_fx_sub(l.current_time as int, l.warning_time as int)),
            l.grow_time as int,
        )
    } else if l.current_time > spec_fx_sub(total, l.grow_time as int) {
        spec_fx_div(
            spec_fx_mul(l.thickness as int, spec_fx_sub(total, l.current_time as int)),
            l.grow_time as int,
        )
    } else {
        l.thickness as int
    }
}

/// Whether the laser touches the player: only at or after the warning phase
/// ends, as a capsule-like rotated rectangle of the animated thickness
/// (clamped to zero when the ramp-out undershoots).
pub open spec fn spec_glaser_collides(l: GrowLaser, p: Player) -> bool {
    let th = spec_glaser_thick(l);
    let thc = if th < 0 { 0 } else { th };
    l.current_time >= l.warning_time && spec_collide_cr(
        spec_fx_lerp(l.start.x as int, l.end.x as int, 500),
        spec_fx_lerp(l.start.y as int, l.end.y as int, 500),
        spec_seg_len(l.start.x as int, l.start.y as int, l.end.x as int, l.end.y as int),
        thc,
        spec_seg_cos(l.start.x as int, l.start.y as int, l.end.x as int, l.end.y as int),
        spec_seg_sin(l.start.x as int, l.start.y as int, l.end.x as int, l.end.y as int),
        p.pos.x as int,
        p.pos.y as int,
        p.rad as int,
    )
}

impl GrowLaser {
    /// Build a growing laser with the default grow window and fade.
    pub fn new(start: Vec2, end: Vec2, thickness: Fx, warning_time: Fx, show_time: Fx, jerk: Vec2)
        -> (r: GrowLaser)
        ensures
            r == (GrowLaser {
                start,
                end,
                thickness,
                warning_time,
                show_time,
                jerk,
                current_time: 0,
                shown: false,
                grow_time: 250,
                fade_opacity: 500,
                fade_in: warning_time,
            }),
    {
        GrowLaser {
            start,
            end,
            thickness,
            warning_time,
            show_time,
            jerk,
            current_time: 0,
            shown: false,
            grow_time: 250,
            fade_opacity: 500,
            fade_in: warning_time,
        }
    }

    /// Replace the fade opacity.
    pub fn fade_opacity(self, fade_opacity: Fx) -> (r: GrowLaser)
        ensures
            r == (GrowLaser { fade_opacity, ..self }),
    {
        GrowLaser { fade_opacity, ..self }
    }

    /// Replace the fade-in window.
    pub fn fade_in(self, fade_in: Fx) -> (r: GrowLaser)
        ensures
            r == (GrowLaser { fade_in, ..self }),
    {
        GrowLaser { fade_in, ..self }
    }

    /// Replace the grow window.
    pub fn grow_time(self, new_time: Fx) -> (r: GrowLaser)
        ensures
            r == (GrowLaser { grow_time: new_time, ..self }),
    {
        GrowLaser { grow_time: new_time, ..self }
    }

    /// The animated thickness.
    pub fn thick(&self) -> (r: Fx)
        requires
            glaser_wf(*self),
        ensures
            r == spec_glaser_thick(*self),
            fx_wf(r as int),
    {
        let total = fx_add(self.warning_time, self.show_time);
        if self.warning_time <= self.current_time
            && self.current_time <= fx_add(self.warning_time, self.grow_time) {
            fx_div(fx_mul(self.thickness, fx_sub(self.current_time, self.warning_time)),
                self.grow_time)
        } else if self.current_time > fx_sub(total, self.grow_time) {
            fx_div(fx_mul(self.thickness, fx_sub(total, self.current_time)), self.grow_time)
        } else {
            self.thickness
        }
    }

    /// Advance the local clock; on crossing the warning boundary, stage the
    /// camera jerk exactly once (guarded by the `shown` flag).
    pub fn update(&mut self, acc: &mut UpdateAccumulator, beat_dt: Fx)
        ensures
            *final(self) == (GrowLaser {
                current_time: spec_fx_add(old(self).current_time as int, beat_dt as int) as i64,
                shown: old(self).shown || spec_fx_add(old(self).current_time as int, beat_dt as int)
                    >= old(self).warning_time,
                ..*old(self)
            }),
            ({
                let fired = !old(self).shown && spec_fx_add(
                    old(self).current_time as int, beat_dt as int) >= old(self).warning_time;
                (fired ==> final(acc).jerk.x == spec_fx_add(
                    old(acc).jerk.x as int, old(self).jerk.x as int) && final(acc).jerk.y
                    == spec_fx_add(old(acc).jerk.y as int, old(self).jerk.y as int)) && (!fired
                    ==> final(acc).jerk == old(acc).jerk)
            }),
            final(acc).obstacles_to_add@ == old(acc).obstacles_to_add@,
            final(acc).shake == old(acc).shake,
            accum_same_but_effects(*final(acc), *old(acc)),
    {
        self.current_time = fx_add(self.current_time, beat_dt);
        if !self.shown && self.current_time >= self.warning_time {
            acc.jerk(self.jerk);
            self.shown = true;
        }
    }

    /// Whether the laser touches the player.
    pub fn collides(&self, player: Player) -> (res: bool)
        requires
            glaser_wf(*self),
            player_wf(player),
        ensures
            res == spec_glaser_collides(*self, player),
    {
        self.current_time >= self.warning_time && {
            let th = self.thick();
            let th = if th < 0 { 0 } else { th };
            let (center, size, rot) = crate::geom::rectify_line(self.start, self.end, th);
            collide_cr(center, size, rot, player.pos, player.rad)
        }
    }

    /// Whether the laser's lifetime (warning plus show) is over.
    pub fn should_kill(&self) -> (res: bool)
        ensures
            res == (self.current_time >= spec_fx_add(
                self.warning_time as int, self.show_time as int)),
    {
        self.current_time >= fx_add(self.warning_time, self.show_time)
    }
}

/// A well-formed slamming laser: endpoints in range, positive warning and
/// leave windows, nonnegative thickness.
pub open spec fn slaser_wf(l: SlamLaser) -> bool {
    v2_wf(l.start) && v2_wf(l.end) && l.warning_time > 0 && l.leave_time > 0 && l.thickness >= 0
        && fx_wf(l.thickness as int)
}

/// The slam interpolation factor: ramps to the anticipation during the
/// warning phase, holds one during the show phase, and eases out
/// quadratically during the leave window.
pub open spec fn spec_slaser_slam(l: SlamLaser) -> int {
    let total = spec_fx_add(l.warning_time as int, l.show_time as int);
    if l.current_time < l.warning_time {
        spec_fx_mul(
            spec_fx_div(l.current_time as int, l.warning_time as int),
            l.anticipation as int,
        )
    } else if l.current_time > spec_fx_sub(total, l.leave_time as int) {
        let q = spec_fx_div(
            spec_fx_sub(l.current_time as int, spec_fx_sub(total, l.leave_time as int)),
            l.leave_time as int,
        );
        spec_fx_add(-spec_fx_mul(q, q), FX_ONE as int)
    } else {
        FX_ONE as int
    }
}

/// Whether the slamming laser touches the player: only at or after the
/// warning phase ends, as the rotated rectangle from the start to the
/// slam-interpolated endpoint.
pub open spec fn spec_slaser_collides(l: SlamLaser, p: Player) -> bool {
    let ex = spec_fx_lerp(l.start.x as int, l.end.x as int, spec_slaser_slam(l)) as i64;
    let ey = spec_fx_lerp(l.start.y as int, l.end.y as int, spec_slaser_slam(l)) as i64;
    l.current_time >= l.warning_time && spec_collide_cr(
        spec_fx_lerp(l.start.x as int, ex as int, 500),
        spec_fx_lerp(l.start.y as int, ey as int, 500),
        spec_seg_len(l.start.x as int, l.start.y as int, ex as int, ey as int),
        l.thickness as int,
        spec_seg_cos(l.start.x as int, l.start.y as int, ex as int, ey as int),
        spec_seg_sin(l.start.x as int, l.start.y as int, ex as int, ey as int),
        p.pos.x as int,
        p.pos.y as int,
        p.rad as int,
    )
}

impl SlamLaser {
    /// Build a slamming laser with the default leave window.
    pub fn new(
        start: Vec2, end: Vec2, thickness: Fx, warning_time: Fx, show_time: Fx, anticipation: Fx,
        jerk: Vec2, shake: Fx,
    ) -> (r: SlamLaser)
        ensures
            r == (SlamLaser {
                start,
                end,
                thickness,
                warning_time,
                show_time,
                jerk,
                shake,
                current_time: 0,
                shown: false,
                anticipation,
                leave_time: 2000,
            }),
    {
        SlamLaser {
            start,
            end,
            thickness,
            warning_time,
            show_time,
            jerk,
            shake,
            current_time: 0,
            shown: false,
            anticipation,
            leave_time: 2000,
        }
    }

    /// Replace the leave window.
    pub fn leave_time(self, new_time: Fx) -> (r: SlamLaser)
        ensures
            r == (SlamLaser { leave_time: new_time, ..self }),
    {
        SlamLaser { leave_time: new_time, ..self }
    }

    /// The flash mix: white fading to the normal color for half a beat after
    /// the warning phase ends.
    pub fn color(&self, normal: Color) -> (c: Color)
        ensures
            (c.r as int, c.g as int, c.b as int, c.a as int) == (if self.warning_time
                <= self.current_time <= spec_fx_add(self.warning_time as int, 500) {
                let by = spec_fx_div(
                    spec_fx_sub(self.current_time as int, self.warning_time as int), 500);
                (
                    spec_fx_lerp(FX_ONE as int, normal.r as int, by),
                    spec_fx_lerp(FX_ONE as int, normal.g as int, by),
                    spec_fx_lerp(FX_ONE as int, normal.b as int, by),
                    spec_fx_lerp(FX_ONE as int, normal.a as int, by),
                )
            } else {
                (normal.r as int, normal.g as int, normal.b as int, normal.a as int)
            }),
    {
        if self.warning_time <= self.current_time
            && self.current_time <= fx_add(self.warning_time, 500) {
            mix(white(), normal, fx_div(fx_sub(self.current_time, self.warning_time), 500))
        } else {
            normal
        }
    }

    /// The slam interpolation factor.
    pub fn slam(&self) -> (r: Fx)
        requires
            slaser_wf(*self),
        ensures
            r == spec_slaser_slam(*self),
    {
        let total = fx_add(self.warning_time, self.show_time);
        if self.current_time < self.warning_time {
            fx_mul(fx_div(self.current_time, self.warning_time), self.anticipation)
        } else if self.current_time > fx_sub(total, self.leave_time) {
            let q = fx_div(
                fx_sub(self.current_time, fx_sub(total, self.leave_time)),
                self.leave_time,
            );
            fx_add(-fx_mul(q, q), FX_ONE)
        } else {
            FX_ONE
        }
    }

    /// Advance the local clock; on crossing the warning boundary, stage the
    /// camera jerk and shake exactly once (guarded by the `shown` flag).
    pub fn update(&mut self, acc: &mut UpdateAccumulator, beat_dt: Fx)
        ensures
            *final(self) == (SlamLaser {
                current_time: spec_fx_add(old(self).current_time as int, beat_dt as int) as i64,
                shown: old(self).shown || spec_fx_add(old(self).current_time as int, beat_dt as int)
                    >= old(self).warning_time,
                ..*old(self)
            }),
            ({
                let fired = !old(self).shown && spec_fx_add(
                    old(self).current_time as int, beat_dt as int) >= old(self).warning_time;
                (fired ==> final(acc).jerk.x == spec_fx_add(
                    old(acc).jerk.x as int, old(self).jerk.x as int) && final(acc).jerk.y
                    == spec_fx_add(old(acc).jerk.y as int, old(self).jerk.y as int) && final(
                    acc).shake == spec_fx_add(old(acc).shake as int, old(self).shake as int)) && (
                !fired ==> final(acc).jerk == old(acc).jerk && final(acc).shake == old(acc).shake)
            }),
            final(acc).obstacles_to_add@ == old(acc).obstacles_to_add@,
            accum_same_but_effects(*final(acc), *old(acc)),
    {
        self.current_time = fx_add(self.current_time, beat_dt);
        if !self.shown && self.current_time >= self.warning_time {
            acc.jerk(self.jerk);
            acc.shake(self.shake);
            self.shown = true;
        }
    }

    /// Whether the slamming laser touches the player.
    pub fn collides(&self, player: Player) -> (res: bool)
        requires
            slaser_wf(*self),
            player_wf(player),
        ensures
            res == spec_slaser_collides(*self, player),
    {
        self.current_time >= self.warning_time && {
            let end = self.start.lerp(self.end, self.slam());
            let (center, size, rot) = crate::geom::rectify_line(self.start, end, self.thickness);
            collide_cr(center, size, rot, player.pos, player.rad)
        }
    }

    /// Whether the laser's lifetime (warning plus show) is over.
    pub fn should_kill(&self) -> (res: bool)
        ensures
            res == (self.current_time >= spec_fx_add(
                self.warning_time as int, self.show_time as int)),
    {
        self.current_time >= fx_add(self.warning_time, self.show_time)
    }
}


/// The growing laser after one update, as its `update` contract states it.
pub open spec fn spec_glaser_step(l: GrowLaser, bdt: int) -> GrowLaser {
    GrowLaser {
        current_time: spec_fx_add(l.current_time as int, bdt) as i64,
        shown: l.shown || spec_fx_add(l.current_time as int, bdt) >= l.warning_time,
        ..l
    }
}

/// Whether one update of the growing laser fires the warning-crossing jerk.
pub open spec fn spec_glaser_fires(l: GrowLaser, bdt: int) -> bool {
    !l.shown && spec_fx_add(l.current_time as int, bdt) >= l.warning_time
}

/// The warning-crossing side effect of a growing laser fires exactly once:
/// once an update has fired it (or the laser was already shown), no later
/// update fires it again, across any number of update calls.
pub proof fn lemma_glaser_fires_once(l: GrowLaser, d1: int, d2: int)
    requires
        spec_glaser_fires(l, d1) || l.shown,
    ensures
        !spec_glaser_fires(spec_glaser_step(l, d1), d2),
{
}

/// The slamming laser after one update, as its `update` contract states it.
pub open spec fn spec_slaser_step(l: SlamLaser, bdt: int) -> SlamLaser {
    SlamLaser {
        current_time: spec_fx_add(l.current_time as int, bdt) as i64,
        shown: l.shown || spec_fx_add(l.current_time as int, bdt) >= l.warning_time,
        ..l
    }
}

/// Whether one update of the slamming laser fires the warning-crossing
/// jerk and shake.
pub open spec fn spec_slaser_fires(l: SlamLaser, bdt: int) -> bool {
    !l.shown && spec_fx_add(l.current_time as int, bdt) >= l.warning_time
}

/// The warning-crossing side effect of a slamming laser fires exactly once
/// across any number of update calls.
pub proof fn lemma_slaser_fires_once(l: SlamLaser, d1: int, d2: int)
    requires
        spec_slaser_fires(l, d1) || l.shown,
    ensures
        !spec_slaser_fires(spec_slaser_step(l, d1), d2),
{
}

} // verus!
