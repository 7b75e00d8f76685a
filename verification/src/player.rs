//! The player avatar: a circle with a movement speed, a dash timer and an
//! invulnerability timer.

use crate::fx::{fx_wf, Fx};
use crate::vec2::{v2_wf, Vec2};
use vstd::prelude::*;

verus! {

/// The player: position, radius, speed in pixels per second, and the two
/// countdown timers (dash and invulnerability seconds).
#[derive(Clone, Copy, PartialEq, Eq, Structural, Debug)]
pub struct Player {
    pub pos: Vec2,
    pub rad: Fx,
    pub pps: Fx,
    pub dash: Fx,
    pub isecs: Fx,
}

/// A well-formed player: all fields in fixed-point range, radius nonnegative.
pub open spec fn player_wf(p: Player) -> bool {
    v2_wf(p.pos) && fx_wf(p.rad as int) && fx_wf(p.pps as int) && fx_wf(p.dash as int) && fx_wf(
        p.isecs as int,
    ) && p.rad >= 0
}

impl Player {
    /// A fresh player at the given position with the default radius and
    /// speed, with no dash and no invulnerability.
    pub fn new(pos: Vec2) -> (p: Player)
        requires
            v2_wf(pos),
        ensures
            p.pos == pos,
            p.rad == 5000,
            p.pps == 100000,
            p.dash == 0,
            p.isecs == 0,
            player_wf(p),
    {
        Player { pos, rad: 5000, pps: 100000, dash: 0, isecs: 0 }
    }
}

} // verus!
