//! The periodic emitter: accumulates elapsed beats and invokes its child
//! spawner once per configured interval, looping (not branching) so that a
//! lag spike longer than several intervals drops no spawns.

use crate::accum::{accum_same_but_obsts, ModifyArgs, UpdateAccumulator};
use crate::fx::{fx_add, spec_fx_add, Fx};
use crate::obstacles::{Periodic, Spawner};
use crate::player::Player;
use crate::spawner::{spawner_wf, spec_spawned};
use crate::utils::{inc_sat, spec_step_inc};
use crate::vec2::{v2_wf, Vec2};
use vstd::prelude::*;

verus! {

/// A well-formed periodic emitter: a positive interval (divided into the
/// accumulated time) and a well-formed child spawner.
pub open spec fn periodic_wf(p: Periodic) -> bool {
    p.interval > 0 && spawner_wf(p.modifier)
}

/// How many times the emitter fires when its accumulated time reaches `t0`:
/// one per whole interval.
pub open spec fn spec_fire_count(t0: int, interval: int) -> int
    recommends
        interval > 0,
{
    if t0 >= 0 {
        t0 / interval
    } else {
        0
    }
}

/// The accumulated remainder after firing.
pub open spec fn spec_fire_rest(t0: int, interval: int) -> int
    recommends
        interval > 0,
{
    if t0 >= 0 {
        t0 % interval
    } else {
        t0
    }
}

/// The spawn arguments handed to the child spawner at step `s`.
pub open spec fn spec_periodic_args(s: int, time: Fx) -> ModifyArgs {
    ModifyArgs {
        step: s as usize,
        pos: Vec2 { x: 0, y: 0 },
        vel: Vec2 { x: 0, y: 0 },
        rad: 0,
        time,
    }
}

impl Periodic {
    /// Build a periodic emitter.
    pub fn new(steps: usize, interval: Fx, modifier: Spawner) -> (r: Periodic)
        ensures
            r == (Periodic { modifier, time_mod: 0, time_div: 0, interval, max_steps: steps }),
    {
        Periodic { modifier, time_mod: 0, time_div: 0, interval, max_steps: steps }
    }

    /// Accumulate the elapsed beats and fire the child spawner once per
    /// whole interval, passing consecutive step indices; the remainder
    /// stays accumulated.
    pub fn update(&mut self, acc: &mut UpdateAccumulator, screen: Vec2, beat_dt: Fx)
        requires
            periodic_wf(*old(self)),
            v2_wf(screen),
        ensures
            ({
                let t0 = spec_fx_add(old(self).time_mod as int, beat_dt as int);
                let iv = old(self).interval as int;
                let k = spec_fire_count(t0, iv);
                final(self).time_mod as int == spec_fire_rest(t0, iv) && final(self).time_div as int
                    == spec_step_inc(old(self).time_div as int, k) && final(self).modifier == old(
                    self).modifier && final(self).interval == old(self).interval && final(
                self).max_steps == old(self).max_steps && final(acc).obstacles_to_add@.len() == old(
                    acc).obstacles_to_add@.len() + k && final(acc).obstacles_to_add@.subrange(
                    0, old(acc).obstacles_to_add@.len() as int) == old(acc).obstacles_to_add@ && (
                forall|j: int|
                    0 <= j < k ==> spec_spawned(
                        old(self).modifier,
                        spec_periodic_args(
                            spec_step_inc(old(self).time_div as int, j), old(acc).time),
                        screen,
                        #[trigger] final(acc).obstacles_to_add@[old(acc).obstacles_to_add@.len()
                            + j],
                    ))
            }),
            forall|j: int|
                old(acc).obstacles_to_add@.len() <= j < final(acc).obstacles_to_add@.len()
                    ==> crate::obstacles::obst_wf(#[trigger] final(acc).obstacles_to_add@[j]),
            accum_same_but_obsts(*final(acc), *old(acc)),
    {
        let ghost t0 = spec_fx_add(old(self).time_mod as int, beat_dt as int);
        let ghost iv = old(self).interval as int;
        let ghost len0 = old(acc).obstacles_to_add@.len() as int;
        self.time_mod = fx_add(self.time_mod, beat_dt);
        let ghost mut fired: int = 0;
        while self.time_mod >= self.interval
            invariant
                periodic_wf(*self),
                v2_wf(screen),
                self.modifier == old(self).modifier,
                self.interval == old(self).interval,
                self.max_steps == old(self).max_steps,
                iv == self.interval as int,
                len0 == old(acc).obstacles_to_add@.len(),
                0 <= fired,
                self.time_mod as int == t0 - fired * iv,
                fired > 0 ==> t0 >= 0 && self.time_mod >= 0,
                self.time_div as int == spec_step_inc(old(self).time_div as int, fired),
                acc.obstacles_to_add@.len() == len0 + fired,
                forall|i: int|
                    0 <= i < len0 ==> #[trigger] acc.obstacles_to_add@[i] == old(
                        acc).obstacles_to_add@[i],
                forall|j: int|
                    0 <= j < fired ==> spec_spawned(
                        old(self).modifier,
                        spec_periodic_args(
                            spec_step_inc(old(self).time_div as int, j), old(acc).time),
                        screen,
                        #[trigger] acc.obstacles_to_add@[len0 + j],
                    ),
                forall|j: int|
                    len0 <= j < acc.obstacles_to_add@.len() ==> crate::obstacles::obst_wf(
                        #[trigger] acc.obstacles_to_add@[j]),
                accum_same_but_obsts(*acc, *old(acc)),
            decreases self.time_mod,
        {
            let ghost pre = acc.obstacles_to_add@;
            let args = ModifyArgs {
                step: self.time_div,
                pos: Vec2 { x: 0, y: 0 },
                vel: Vec2 { x: 0, y: 0 },
                rad: 0,
                time: acc.time(),
            };
            self.modifier.run(acc, args, screen);
            self.time_mod = self.time_mod - self.interval;
            self.time_div = inc_sat(self.time_div);
            proof {
                let cur = acc.obstacles_to_add@;
                assert forall|i: int| 0 <= i < len0 + fired implies cur[i] == pre[i] by {
                    assert(cur.subrange(0, len0 + fired)[i] == cur[i]);
                }
                assert(cur[len0 + fired] == cur.last());
                assert(args == spec_periodic_args(
                    spec_step_inc(old(self).time_div as int, fired), old(acc).time));
                assert(spec_spawned(
                    old(self).modifier,
                    spec_periodic_args(spec_step_inc(old(self).time_div as int, fired),
                        old(acc).time),
                    screen,
                    cur[len0 + fired],
                ));
                assert((fired + 1) * iv == fired * iv + iv) by (nonlinear_arith);
                let tm1 = self.time_mod as int;
                assert(tm1 == (t0 - fired * iv) - iv);
                fired = fired + 1int;
                assert(self.time_mod as int == t0 - fired * iv);
                assert forall|j: int| 0 <= j < fired implies spec_spawned(
                    old(self).modifier,
                    spec_periodic_args(spec_step_inc(old(self).time_div as int, j), old(acc).time),
                    screen,
                    acc.obstacles_to_add@[len0 + j],
                ) by {
                    if j < fired - 1 {
                        assert(cur[len0 + j] == pre[len0 + j]);
                    } else {
                        assert(cur[len0 + j] == cur.last());
                    }
                }
            }
        }
        proof {
            assert(acc.obstacles_to_add@.subrange(0, len0) =~= old(acc).obstacles_to_add@);
            let k = spec_fire_count(t0, iv);
            if t0 >= 0 {
                vstd::arithmetic::div_mod::lemma_fundamental_div_mod_converse(
                    t0, iv, fired, t0 - fired * iv,
                );
            } else {
                assert(fired == 0);
            }
            assert(fired == k);
        }
    }

    /// The emitter never collides with the player.
    pub fn collides(&self, _player: Player) -> (res: bool)
        ensures
            res == false,
    {
        false
    }

    /// Whether the configured number of steps has been reached.
    pub fn should_kill(&self) -> (res: bool)
        ensures
            res == (self.time_div >= self.max_steps),
    {
        self.time_div >= self.max_steps
    }
}

} // verus!
