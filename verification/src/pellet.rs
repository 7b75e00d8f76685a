//! The projectile hazard: linear motion, dying outside the inflated screen.

use crate::fx::{fx_wf, spec_fx_add, spec_fx_mul, Fx};
use crate::geom::{collide_cc, spec_collide_cc};
use crate::obstacles::Pellet;
use crate::player::{player_wf, Player};
use crate::vec2::{v2_wf, Vec2};
use vstd::prelude::*;

verus! {

/// A well-formed pellet: coordinates in range, nonnegative radius.
pub open spec fn pellet_wf(p: Pellet) -> bool {
    v2_wf(p.pos) && v2_wf(p.vel) && fx_wf(p.rad as int) && p.rad >= 0
}

/// The pellet after one update: position advanced by `vel * beat_dt`.
pub open spec fn spec_pellet_step(p: Pellet, bdt: int) -> Pellet {
    Pellet {
        pos: Vec2 {
            x: spec_fx_add(p.pos.x as int, spec_fx_mul(p.vel.x as int, bdt)) as i64,
            y: spec_fx_add(p.pos.y as int, spec_fx_mul(p.vel.y as int, bdt)) as i64,
        },
        ..p
    }
}

/// Whether the pellet touches the player: circle vs circle.
pub open spec fn spec_pellet_collides(p: Pellet, player: Player) -> bool {
    spec_collide_cc(
        p.pos.x as int, p.pos.y as int, p.rad as int,
        player.pos.x as int, player.pos.y as int, player.rad as int,
    )
}

/// Whether the pellet has left the screen inflated by its radius.
pub open spec fn spec_pellet_dead(p: Pellet, screen: Vec2) -> bool {
    p.pos.x < -p.rad || p.pos.x > screen.x || p.pos.y < -p.rad || p.pos.y > screen.y
}

impl Pellet {
    /// Build a pellet.
    pub fn new(pos: Vec2, vel: Vec2, rad: Fx) -> (r: Pellet)
        ensures
            r == (Pellet { pos, vel, rad }),
    {
        Pellet { pos, vel, rad }
    }

    /// Advance the pellet along its velocity by the elapsed beats.
    pub fn update(&mut self, beat_dt: Fx)
        ensures
            *final(self) == spec_pellet_step(*old(self), beat_dt as int),
            pellet_wf(*old(self)) ==> pellet_wf(*final(self)),
    {
        self.pos = self.pos.add(self.vel.scale(beat_dt));
    }

    /// Whether the pellet touches the player.
    pub fn collides(&self, player: Player) -> (res: bool)
        requires
            pellet_wf(*self),
            player_wf(player),
        ensures
            res == spec_pellet_collides(*self, player),
    {
        collide_cc(self.pos, self.rad, player.pos, player.rad)
    }

    /// Whether the pellet is outside the screen inflated by its radius.
    pub fn should_kill(&self, screen: Vec2) -> (res: bool)
        requires
            pellet_wf(*self),
            v2_wf(screen),
        ensures
            res == spec_pellet_dead(*self, screen),
    {
        self.pos.x < -self.rad || self.pos.x > screen.x || self.pos.y < -self.rad
            || self.pos.y > screen.y
    }
}

} // verus!
