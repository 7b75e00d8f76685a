//! The detonator hazard: eases from a start point toward a target by a
//! reciprocal curve, grows while alive, and detonates into a radially even
//! ring of projectiles on death.

use crate::accum::{accum_same_but_obsts, ModifyArgs, UpdateAccumulator};
use crate::fx::{
    fx_add, fx_cos, fx_div, fx_mul, fx_sin, spec_cos, spec_fx_add, spec_fx_div,
    spec_fx_mul, spec_fx_sub, spec_sin, Fx, FX_ONE,
};
use crate::geom::{collide_cc, spec_collide_cc};
use crate::obstacles::{Bomb, Spawner};
use crate::player::{player_wf, Player};
use crate::spawner::{spawner_wf, spec_spawned};
use crate::vec2::{v2_wf, Vec2};
use vstd::prelude::*;

verus! {

/// A well-formed bomb: points in range, a nonnegative clock and easing
/// rate (so the easing denominator stays positive), a bounded ring count,
/// and a well-formed child spawner.
pub open spec fn bomb_wf(b: Bomb) -> bool {
    v2_wf(b.start) && v2_wf(b.target) && b.time >= 0 && b.snappiness >= 0 && b.pellets <= 1000000
        && 0 <= b.pellet_rad <= crate::fx::FX_MAX && spawner_wf(b.spawner)
}

/// The bomb's position: the start-to-target gap shrunk by the reciprocal
/// easing `1 / (time * snappiness + 1)`, placed at the target plus an
/// offset. It approaches but never exactly reaches the target.
pub open spec fn spec_bomb_pos(b: Bomb, ox: int, oy: int) -> (int, int) {
    let denom = spec_fx_add(spec_fx_mul(b.time as int, b.snappiness as int), FX_ONE as int);
    (
        spec_fx_add(
            spec_fx_add(
                spec_fx_div(spec_fx_sub(b.start.x as int, b.target.x as int), denom),
                b.target.x as int,
            ),
            ox,
        ),
        spec_fx_add(
            spec_fx_add(
                spec_fx_div(spec_fx_sub(b.start.y as int, b.target.y as int), denom),
                b.target.y as int,
            ),
            oy,
        ),
    )
}

/// Whether the bomb touches the player: a circle whose radius grows
/// linearly with the local clock.
pub open spec fn spec_bomb_collides(b: Bomb, p: Player) -> bool {
    let pos = spec_bomb_pos(b, 0, 0);
    spec_collide_cc(
        pos.0, pos.1, spec_fx_mul(b.rad as int, b.time as int),
        p.pos.x as int, p.pos.y as int, p.rad as int,
    )
}

/// The ring angle of the `i`-th of `n` pellets, in fixed-point turns.
pub open spec fn spec_ring_angle(i: int, n: int) -> int {
    (i * (FX_ONE as int)) / n
}

/// The velocity of the `i`-th ring pellet: the unit direction at the ring
/// angle (x from sine, y from cosine) scaled by the pellet speed.
pub open spec fn spec_ring_vel(b: Bomb, i: int) -> (int, int) {
    let a = spec_ring_angle(i, b.pellets as int);
    (
        spec_fx_mul(spec_sin(a), b.pellet_vel as int),
        spec_fx_mul(spec_cos(a), b.pellet_vel as int),
    )
}

/// The spawn arguments of the `i`-th ring pellet at detonation.
pub open spec fn spec_ring_args(b: Bomb, i: int, time: Fx) -> ModifyArgs {
    let pos = spec_bomb_pos(b, 0, 0);
    let vel = spec_ring_vel(b, i);
    ModifyArgs {
        step: 0,
        pos: Vec2 { x: pos.0 as i64, y: pos.1 as i64 },
        vel: Vec2 { x: vel.0 as i64, y: vel.1 as i64 },
        rad: b.pellet_rad,
        time,
    }
}

impl Bomb {
    /// Build a bomb; the easing rate and the growth rate are derived from
    /// the lifetime.
    pub fn new(
        start: Vec2, target: Vec2, lifetime: Fx, pellets: usize, pellet_vel: Fx, pellet_rad: Fx,
        spawner: Spawner,
    ) -> (r: Bomb)
        requires
            lifetime > 0,
        ensures
            r == (Bomb {
                start,
                target,
                time: 0,
                life: lifetime,
                pellets,
                pellet_vel,
                pellet_rad,
                snappiness: spec_fx_div(20 * FX_ONE, lifetime as int) as i64,
                rad: spec_fx_div(30 * FX_ONE, lifetime as int) as i64,
                spawner,
            }),
            r.snappiness >= 0,
    {
        Bomb {
            start,
            target,
            time: 0,
            life: lifetime,
            pellets,
            pellet_vel,
            pellet_rad,
            snappiness: fx_div(20 * FX_ONE, lifetime),
            rad: fx_div(30 * FX_ONE, lifetime),
            spawner,
        }
    }

    /// The bomb's position, displaced by a camera offset.
    pub fn pos(&self, offset: Vec2) -> (r: Vec2)
        requires
            bomb_wf(*self),
        ensures
            (r.x as int, r.y as int) == spec_bomb_pos(*self, offset.x as int, offset.y as int),
            v2_wf(r),
    {
        let denom = fx_add(fx_mul(self.time, self.snappiness), FX_ONE);
        let d = self.start.sub(self.target);
        Vec2 {
            x: fx_add(fx_add(fx_div(d.x, denom), self.target.x), offset.x),
            y: fx_add(fx_add(fx_div(d.y, denom), self.target.y), offset.y),
        }
    }

    /// Advance the local clock.
    pub fn update(&mut self, beat_dt: Fx)
        requires
            beat_dt >= 0,
        ensures
            *final(self) == (Bomb {
                time: spec_fx_add(old(self).time as int, beat_dt as int) as i64,
                ..*old(self)
            }),
            bomb_wf(*old(self)) ==> bomb_wf(*final(self)),
    {
        self.time = fx_add(self.time, beat_dt);
    }

    /// Whether the bomb touches the player.
    pub fn collides(&self, player: Player) -> (res: bool)
        requires
            bomb_wf(*self),
            player_wf(player),
        ensures
            res == spec_bomb_collides(*self, player),
    {
        let p = self.pos(Vec2 { x: 0, y: 0 });
        collide_cc(p, fx_mul(self.rad, self.time), player.pos, player.rad)
    }

    /// Whether the bomb's lifetime is over.
    pub fn should_kill(&self) -> (res: bool)
        ensures
            res == (self.time >= self.life),
    {
        self.time >= self.life
    }

    /// Detonate: run the child spawner once per pellet, handing it the
    /// bomb's position and a velocity on the radially even ring.
    pub fn kill(&self, acc: &mut UpdateAccumulator, screen: Vec2)
        requires
            bomb_wf(*self),
            v2_wf(screen),
        ensures
            final(acc).obstacles_to_add@.len() == old(acc).obstacles_to_add@.len()
                + self.pellets as int,
            final(acc).obstacles_to_add@.subrange(0, old(acc).obstacles_to_add@.len() as int)
                == old(acc).obstacles_to_add@,
            forall|j: int|
                0 <= j < self.pellets as int ==> spec_spawned(
                    self.spawner,
                    spec_ring_args(*self, j, old(acc).time),
                    screen,
                    #[trigger] final(acc).obstacles_to_add@[old(acc).obstacles_to_add@.len() + j],
                ),
            forall|j: int|
                old(acc).obstacles_to_add@.len() <= j < final(acc).obstacles_to_add@.len()
                    ==> crate::obstacles::obst_wf(#[trigger] final(acc).obstacles_to_add@[j]),
            accum_same_but_obsts(*final(acc), *old(acc)),
    {
        let pos = self.pos(Vec2 { x: 0, y: 0 });
        let n = self.pellets;
        let mut i: usize = 0;
        while i < n
            invariant
                i <= n,
                n <= 1000000,
                bomb_wf(*self),
                n == self.pellets,
                v2_wf(screen),
                (pos.x as int, pos.y as int) == spec_bomb_pos(*self, 0, 0),
                acc.obstacles_to_add@.len() == old(acc).obstacles_to_add@.len() + i,
                acc.obstacles_to_add@.subrange(0, old(acc).obstacles_to_add@.len() as int) == old(
                    acc).obstacles_to_add@,
                forall|j: int|
                    0 <= j < i ==> spec_spawned(
                        self.spawner,
                        spec_ring_args(*self, j, old(acc).time),
                        screen,
                        #[trigger] acc.obstacles_to_add@[old(acc).obstacles_to_add@.len() + j],
                    ),
                forall|j: int|
                    old(acc).obstacles_to_add@.len() <= j < acc.obstacles_to_add@.len()
                        ==> crate::obstacles::obst_wf(#[trigger] acc.obstacles_to_add@[j]),
                accum_same_but_obsts(*acc, *old(acc)),
            decreases n - i,
        {
            let num: u64 = (i as u64) * 1000;
            let ang: Fx = (num / (n as u64)) as i64;
            let vel = Vec2 {
                x: fx_mul(fx_sin(ang), self.pellet_vel),
                y: fx_mul(fx_cos(ang), self.pellet_vel),
            };
            let args = ModifyArgs { step: 0, pos, vel, rad: self.pellet_rad, time: acc.time() };
            proof {
                assert(args == spec_ring_args(*self, i as int, old(acc).time));
            }
            let ghost pre = acc.obstacles_to_add@;
            self.spawner.run(acc, args, screen);
            proof {
                let cur = acc.obstacles_to_add@;
                assert forall|m: int| 0 <= m < pre.len() implies cur[m] == pre[m] by {
                    assert(cur.subrange(0, pre.len() as int)[m] == cur[m]);
                }
                assert(acc.obstacles_to_add@.subrange(0, old(acc).obstacles_to_add@.len() as int)
                    =~= old(acc).obstacles_to_add@);
                assert(cur[pre.len() as int] == cur.last());
            }
            i += 1;
        }
    }
}

} // verus!
