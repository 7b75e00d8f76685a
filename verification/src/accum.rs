//! The per-frame staging buffer: obstacle update, kill, and choreography
//! callbacks write their side effects here instead of mutating the session
//! during iteration; the session merges the buffer after the sweep.

use crate::color::{Color, ColorFn};
use crate::fx::{fx_add, spec_fx_add, Fx};
use crate::obstacles::{Obst, Obstacle};
use crate::vec2::Vec2;
use vstd::prelude::*;

verus! {

/// Extra arguments handed to spawners: a step index, a position, a velocity,
/// a radius, and the staging time.
#[derive(Clone, Copy, PartialEq, Eq, Structural, Debug)]
pub struct ModifyArgs {
    pub step: usize,
    pub pos: Vec2,
    pub vel: Vec2,
    pub rad: Fx,
    pub time: Fx,
}

impl ModifyArgs {
    /// Arguments with the given time and zeroed everything else.
    pub fn new(time: Fx) -> (r: ModifyArgs)
        ensures
            r.time == time,
            r.step == 0,
            r.pos.x == 0 && r.pos.y == 0,
            r.vel.x == 0 && r.vel.y == 0,
            r.rad == 0,
    {
        ModifyArgs {
            step: 0,
            pos: Vec2 { x: 0, y: 0 },
            vel: Vec2 { x: 0, y: 0 },
            rad: 0,
            time,
        }
    }

    /// Replace the step index.
    pub fn step(self, step: usize) -> (r: ModifyArgs)
        ensures
            r == (ModifyArgs { step, ..self }),
    {
        ModifyArgs { step, ..self }
    }

    /// Replace the position.
    pub fn pos(self, pos: Vec2) -> (r: ModifyArgs)
        ensures
            r == (ModifyArgs { pos, ..self }),
    {
        ModifyArgs { pos, ..self }
    }

    /// Replace the velocity.
    pub fn vel(self, vel: Vec2) -> (r: ModifyArgs)
        ensures
            r == (ModifyArgs { vel, ..self }),
    {
        ModifyArgs { vel, ..self }
    }

    /// Replace the radius.
    pub fn rad(self, rad: Fx) -> (r: ModifyArgs)
        ensures
            r == (ModifyArgs { rad, ..self }),
    {
        ModifyArgs { rad, ..self }
    }
}

/// A deferred whole-session mutation, applied after the obstacle sweep.
#[derive(Clone, Copy, PartialEq, Eq, Structural, Debug)]
pub enum SessionMod {
    /// Install a time-varying foreground color function.
    SetFgFn(ColorFn),
    /// Install a time-varying background color function.
    SetBgFn(ColorFn),
}

/// The staging buffer for one frame's side effects.
#[derive(Debug)]
pub struct UpdateAccumulator {
    pub obstacles_to_add: Vec<Obst>,
    pub mods: Vec<SessionMod>,
    pub jerk: Vec2,
    pub bg: Option<Color>,
    pub fg: Option<Color>,
    pub float_amp: Option<Fx>,
    pub shake: Fx,
    pub time: Fx,
}

/// The two accumulators agree on everything but the staged obstacle list.
pub open spec fn accum_same_but_obsts(a: UpdateAccumulator, b: UpdateAccumulator) -> bool {
    a.mods@ == b.mods@ && a.jerk == b.jerk && a.bg == b.bg && a.fg == b.fg
        && a.float_amp == b.float_amp && a.shake == b.shake && a.time == b.time
}

/// The two accumulators agree on everything but the staged obstacle list,
/// the camera jerk and the camera shake.
pub open spec fn accum_same_but_effects(a: UpdateAccumulator, b: UpdateAccumulator) -> bool {
    a.mods@ == b.mods@ && a.bg == b.bg && a.fg == b.fg && a.float_amp == b.float_amp
        && a.time == b.time
}

impl UpdateAccumulator {
    /// A fresh, empty accumulator at time zero.
    pub fn new() -> (r: UpdateAccumulator)
        ensures
            r.obstacles_to_add@.len() == 0,
            r.mods@.len() == 0,
            r.jerk.x == 0 && r.jerk.y == 0,
            r.bg is None,
            r.fg is None,
            r.float_amp is None,
            r.shake == 0,
            r.time == 0,
    {
        UpdateAccumulator {
            obstacles_to_add: Vec::new(),
            mods: Vec::new(),
            jerk: Vec2 { x: 0, y: 0 },
            bg: None,
            fg: None,
            float_amp: None,
            shake: 0,
            time: 0,
        }
    }

    /// The staging time: the beat-time context of the work in progress.
    pub fn time(&self) -> (t: Fx)
        ensures
            t == self.time,
    {
        self.time
    }

    /// Stage a hazard for spawning after the sweep.
    pub fn obst(&mut self, o: Obstacle)
        ensures
            final(self).obstacles_to_add@ == old(self).obstacles_to_add@.push(
                Obst { obstacle: o, marked_for_removal: false },
            ),
            accum_same_but_obsts(*final(self), *old(self)),
    {
        self.obstacles_to_add.push(Obst { obstacle: o, marked_for_removal: false });
    }

    /// Stage an existing hazard handle for spawning after the sweep.
    pub fn obstacle(&mut self, o: Obst)
        ensures
            final(self).obstacles_to_add@ == old(self).obstacles_to_add@.push(o),
            accum_same_but_obsts(*final(self), *old(self)),
    {
        self.obstacles_to_add.push(o);
    }

    /// Add a camera jerk impulse (additive, saturating).
    pub fn jerk(&mut self, jerk: Vec2)
        ensures
            final(self).jerk.x == spec_fx_add(old(self).jerk.x as int, jerk.x as int),
            final(self).jerk.y == spec_fx_add(old(self).jerk.y as int, jerk.y as int),
            final(self).obstacles_to_add@ == old(self).obstacles_to_add@,
            final(self).shake == old(self).shake,
            accum_same_but_effects(*final(self), *old(self)),
    {
        self.jerk = self.jerk.add(jerk);
    }

    /// Add camera shake (additive, saturating).
    pub fn shake(&mut self, shake: Fx)
        ensures
            final(self).shake == spec_fx_add(old(self).shake as int, shake as int),
            final(self).obstacles_to_add@ == old(self).obstacles_to_add@,
            final(self).jerk == old(self).jerk,
            accum_same_but_effects(*final(self), *old(self)),
    {
        self.shake = fx_add(self.shake, shake);
    }

    /// Override the background with a flat color (last write wins).
    pub fn bg(&mut self, bg: Color)
        ensures
            *final(self) == (UpdateAccumulator { bg: Some(bg), ..*old(self) }),
    {
        self.bg = Some(bg);
    }

    /// Override the foreground with a flat color (last write wins).
    pub fn fg(&mut self, fg: Color)
        ensures
            *final(self) == (UpdateAccumulator { fg: Some(fg), ..*old(self) }),
    {
        self.fg = Some(fg);
    }

    /// Defer installing a time-varying background color function.
    pub fn bg_raw(&mut self, bg: ColorFn)
        ensures
            final(self).mods@ == old(self).mods@.push(SessionMod::SetBgFn(bg)),
            final(self).obstacles_to_add@ == old(self).obstacles_to_add@,
            final(self).jerk == old(self).jerk,
            final(self).bg == old(self).bg,
            final(self).fg == old(self).fg,
            final(self).float_amp == old(self).float_amp,
            final(self).shake == old(self).shake,
            final(self).time == old(self).time,
    {
        self.mods.push(SessionMod::SetBgFn(bg));
    }

    /// Defer installing a time-varying foreground color function.
    pub fn fg_raw(&mut self, fg: ColorFn)
        ensures
            final(self).mods@ == old(self).mods@.push(SessionMod::SetFgFn(fg)),
            final(self).obstacles_to_add@ == old(self).obstacles_to_add@,
            final(self).jerk == old(self).jerk,
            final(self).bg == old(self).bg,
            final(self).fg == old(self).fg,
            final(self).float_amp == old(self).float_amp,
            final(self).shake == old(self).shake,
            final(self).time == old(self).time,
    {
        self.mods.push(SessionMod::SetFgFn(fg));
    }

    /// Override the ambient float amplitude (last write wins).
    pub fn float_amp(&mut self, amp: Fx)
        ensures
            *final(self) == (UpdateAccumulator { float_amp: Some(amp), ..*old(self) }),
    {
        self.float_amp = Some(amp);
    }

    /// Defer a whole-session mutation until after the sweep.
    pub fn sm(&mut self, m: SessionMod)
        ensures
            final(self).mods@ == old(self).mods@.push(m),
            final(self).obstacles_to_add@ == old(self).obstacles_to_add@,
            final(self).jerk == old(self).jerk,
            final(self).bg == old(self).bg,
            final(self).fg == old(self).fg,
            final(self).float_amp == old(self).float_amp,
            final(self).shake == old(self).shake,
            final(self).time == old(self).time,
    {
        self.mods.push(m);
    }
}

} // verus!
