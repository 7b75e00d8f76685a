//! The live play-through state and its per-frame update: drain due
//! choreography events, move the player, decay the camera, update every
//! hazard, sweep collisions (one hit per frame at most), sweep lifecycles,
//! and merge the staged effects back in.

use crate::accum::{SessionMod, UpdateAccumulator};
use crate::color::{Color, ColorFn};
use crate::events::{
    actions_wf, due_prefix, events_wf, run_actions, spec_fired_impulse, Action, Event,
};
use crate::fx::{fx_add, fx_mul, fx_sub, spec_fx_add, spec_fx_mul, spec_fx_sub, Fx, FX_ONE};
use crate::obstacles::{
    obst_wf, spec_obstacle_collides, spec_obstacle_dead, spec_obstacle_stepped, Obst, Obstacle,
};
use crate::player::{player_wf, Player};
use crate::utils::{sort_by_time, sorted_by_time};
use crate::vec2::{v2_wf, Vec2};
use vstd::prelude::*;

verus! {

/// The sentinel trigger time meaning "fire on the very first check".
pub const TIME_IMMEDIATE: i64 = -0x100_0000_0000_0000;

/// One frame's worth of player input, as plain values.
#[derive(Clone, Copy, PartialEq, Eq, Structural, Debug)]
pub struct InputState {
    pub up: bool,
    pub down: bool,
    pub left: bool,
    pub right: bool,
    pub dash: bool,
    pub abort: bool,
}

/// The live state of one play-through.
#[derive(Debug)]
pub struct LevelState {
    pub events: Vec<Event>,
    pub obsts: Vec<Obst>,
    pub time: Fx,
    pub player: Player,
    pub hits_left: usize,
    pub fg_color: ColorFn,
    pub bg_color: ColorFn,
    pub cam_jerk: Vec2,
    pub cam_shake: Fx,
    pub cam_float: Fx,
    pub screen: Vec2,
    pub bpm: Fx,
    pub speed: Fx,
}

/// Every hazard handle in the list is well-formed.
pub open spec fn obsts_all_wf(s: Seq<Obst>) -> bool {
    forall|i: int| 0 <= i < s.len() ==> obst_wf(#[trigger] s[i])
}

/// A well-formed session: player, screen, tempo and every held hazard and
/// event in range.
pub open spec fn session_wf(s: LevelState) -> bool {
    player_wf(s.player) && v2_wf(s.screen) && s.screen.x >= 0 && s.screen.y >= 0 && s.bpm >= 0
        && s.speed >= 0 && obsts_all_wf(s.obsts@) && events_wf(s.events@)
}

/// The default foreground color: a warm pink.
pub open spec fn spec_default_fg() -> ColorFn {
    ColorFn::Flat(Color { r: FX_ONE, g: 0, b: 500, a: FX_ONE })
}

/// The default background color: black.
pub open spec fn spec_default_bg() -> ColorFn {
    ColorFn::Flat(Color { r: 0, g: 0, b: 0, a: FX_ONE })
}

/// The player after input and timer decay: speed picked from the dash
/// state, timers counted down, position moved one speed-step per pressed
/// direction, and a fresh dash started on the trigger.
pub open spec fn spec_player_step(p: Player, input: InputState, ft: int) -> Player {
    let pps: int = if p.dash > 0 {
        800 * FX_ONE
    } else {
        300 * FX_ONE
    };
    let dash1: int = if p.dash > 0 {
        spec_fx_sub(p.dash as int, ft)
    } else {
        p.dash as int
    };
    let isecs1: int = if p.isecs > 0 {
        spec_fx_sub(p.isecs as int, ft)
    } else {
        p.isecs as int
    };
    let step: int = spec_fx_mul(pps, ft);
    let y1: int = if input.up {
        spec_fx_sub(p.pos.y as int, step)
    } else {
        p.pos.y as int
    };
    let y2: int = if input.down {
        spec_fx_add(y1, step)
    } else {
        y1
    };
    let x1: int = if input.left {
        spec_fx_sub(p.pos.x as int, step)
    } else {
        p.pos.x as int
    };
    let x2: int = if input.right {
        spec_fx_add(x1, step)
    } else {
        x1
    };
    let dash2: int = if dash1 <= 0 && input.dash {
        300
    } else {
        dash1
    };
    Player {
        pos: Vec2 { x: x2 as i64, y: y2 as i64 },
        rad: p.rad,
        pps: pps as i64,
        dash: dash2 as i64,
        isecs: isecs1 as i64,
    }
}

/// The tempo-scaled beat delta of one frame: the wall-clock delta over
/// sixty, times the tempo, times the playback speed.
pub open spec fn spec_beat_delta(ft: int, bpm: int, speed: int) -> int {
    spec_fx_mul(spec_fx_mul(crate::fx::spec_fx_div(ft, 60 * FX_ONE), bpm), speed)
}

/// A hazard leaves this frame: manually flagged, or its lifetime is over.
pub open spec fn spec_obst_gone(o: Obst, screen: Vec2) -> bool {
    o.marked_for_removal || spec_obstacle_dead(o.obstacle, screen)
}

/// The lifecycle sweep's result, scanning from `i`: a flagged-or-dead
/// hazard is replaced by the last and the list shortened (swap-and-pop,
/// so survivors may change order), otherwise the scan moves on.
pub open spec fn spec_sweep(s: Seq<Obst>, i: int, screen: Vec2) -> Seq<Obst>
    decreases s.len() - i,
{
    if i < 0 || i >= s.len() {
        s
    } else if spec_obst_gone(s[i], screen) {
        spec_sweep(s.update(i, s.last()).drop_last(), i, screen)
    } else {
        spec_sweep(s, i + 1, screen)
    }
}

/// Whether any hazard in the list touches the player.
pub open spec fn spec_any_collides(s: Seq<Obst>, p: Player, screen: Vec2) -> bool {
    exists|j: int|
        0 <= j < s.len() && spec_obstacle_collides((#[trigger] s[j]).obstacle, p, screen)
}

/// The camera jerk the first `i` hazards stage during one update sweep:
/// each beam crossing its warning boundary adds its jerk, in list order.
pub open spec fn spec_upd_jerk(obs: Seq<Obst>, i: int, bdt: int, j: (int, int)) -> (int, int)
    decreases i,
{
    if i <= 0 {
        j
    } else {
        let prev = spec_upd_jerk(obs, i - 1, bdt, j);
        match obs[i - 1].obstacle {
            Obstacle::GrowLaser(l) => if crate::lasers::spec_glaser_fires(l, bdt) {
                (
                    spec_fx_add(prev.0, l.jerk.x as int),
                    spec_fx_add(prev.1, l.jerk.y as int),
                )
            } else {
                prev
            },
            Obstacle::SlamLaser(l) => if crate::lasers::spec_slaser_fires(l, bdt) {
                (
                    spec_fx_add(prev.0, l.jerk.x as int),
                    spec_fx_add(prev.1, l.jerk.y as int),
                )
            } else {
                prev
            },
            _ => prev,
        }
    }
}

impl LevelState {
    /// A fresh session on the given screen at the given tempo: no events,
    /// no hazards, the player centered, three hit points, default colors.
    pub fn new(screen: Vec2, bpm: Fx, speed: Fx) -> (s: LevelState)
        requires
            v2_wf(screen),
            screen.x >= 0,
            screen.y >= 0,
            bpm >= 0,
            speed >= 0,
        ensures
            s.events@.len() == 0,
            s.obsts@.len() == 0,
            s.time == 0,
            s.player.pos.x as int == spec_fx_mul(screen.x as int, 500),
            s.player.pos.y as int == spec_fx_mul(screen.y as int, 500),
            s.player.rad == 5000 && s.player.dash == 0 && s.player.isecs == 0,
            s.hits_left == 3,
            s.fg_color == spec_default_fg(),
            s.bg_color == spec_default_bg(),
            s.cam_jerk.x == 0 && s.cam_jerk.y == 0 && s.cam_shake == 0 && s.cam_float == 0,
            s.screen == screen && s.bpm == bpm && s.speed == speed,
            session_wf(s),
    {
        let center = Vec2 { x: fx_mul(screen.x, 500), y: fx_mul(screen.y, 500) };
        LevelState {
            events: Vec::new(),
            obsts: Vec::new(),
            time: 0,
            player: Player::new(center),
            hits_left: 3,
            fg_color: ColorFn::Flat(Color { r: FX_ONE, g: 0, b: 500, a: FX_ONE }),
            bg_color: ColorFn::Flat(Color { r: 0, g: 0, b: 0, a: FX_ONE }),
            cam_jerk: Vec2 { x: 0, y: 0 },
            cam_shake: 0,
            cam_float: 0,
            screen,
            bpm,
            speed,
        }
    }

    /// Discard the play-through: clear events, hazards, timers, camera
    /// state and colors, recenter the player and restore the hit points.
    pub fn reset(&mut self)
        requires
            session_wf(*old(self)),
        ensures
            final(self).events@.len() == 0,
            final(self).obsts@.len() == 0,
            final(self).time == 0,
            final(self).hits_left == 3,
            final(self).fg_color == spec_default_fg(),
            final(self).bg_color == spec_default_bg(),
            final(self).cam_jerk.x == 0 && final(self).cam_jerk.y == 0 && final(self).cam_shake
                == 0 && final(self).cam_float == 0,
            final(self).screen == old(self).screen && final(self).bpm == old(self).bpm && final(
            self).speed == old(self).speed,
            session_wf(*final(self)),
    {
        let fresh = LevelState::new(self.screen, self.bpm, self.speed);
        *self = fresh;
    }

    /// Schedule one event.
    pub fn add_event(&mut self, e: Event)
        ensures
            final(self).events@ == old(self).events@.push(e),
            *final(self) == (LevelState { events: final(self).events, ..*old(self) }),
    {
        self.events.push(e);
    }

    /// Schedule actions at a beat-time.
    pub fn event(&mut self, time: Fx, actions: Vec<Action>)
        ensures
            final(self).events@ == old(self).events@.push((time, actions)),
            *final(self) == (LevelState { events: final(self).events, ..*old(self) }),
    {
        self.events.push((time, actions));
    }

    /// Schedule actions to fire unconditionally on the first check.
    pub fn instantly(&mut self, actions: Vec<Action>)
        ensures
            final(self).events@ == old(self).events@.push((TIME_IMMEDIATE, actions)),
            *final(self) == (LevelState { events: final(self).events, ..*old(self) }),
    {
        self.events.push((TIME_IMMEDIATE, actions));
    }

    /// Schedule a batch of events.
    pub fn add_events(&mut self, events: Vec<Event>)
        ensures
            final(self).events@ == old(self).events@ + events@,
            *final(self) == (LevelState { events: final(self).events, ..*old(self) }),
    {
        let mut evs = events;
        self.events.append(&mut evs);
    }

    /// Drop every pending event.
    pub fn clear_events(&mut self)
        ensures
            final(self).events@.len() == 0,
            *final(self) == (LevelState { events: final(self).events, ..*old(self) }),
    {
        self.events.clear();
    }

    /// Add a hazard handle directly.
    pub fn add_obst(&mut self, o: Obst)
        ensures
            final(self).obsts@ == old(self).obsts@.push(o),
            *final(self) == (LevelState { obsts: final(self).obsts, ..*old(self) }),
    {
        self.obsts.push(o);
    }

    /// Add a hazard directly, not yet flagged for removal.
    pub fn add_obstacle(&mut self, o: Obstacle)
        ensures
            final(self).obsts@ == old(self).obsts@.push(
                Obst { obstacle: o, marked_for_removal: false },
            ),
            *final(self) == (LevelState { obsts: final(self).obsts, ..*old(self) }),
    {
        self.obsts.push(Obst { obstacle: o, marked_for_removal: false });
    }

    /// Sort the schedule ascending by trigger time. Call once after
    /// bulk-loading a level and before the update loop; an already sorted
    /// schedule is left exactly as it is.
    pub fn sort(&mut self)
        requires
            session_wf(*old(self)),
        ensures
            sorted_by_time(final(self).events@),
            final(self).events@.to_multiset() == old(self).events@.to_multiset(),
            sorted_by_time(old(self).events@) ==> final(self).events@ == old(self).events@,
            *final(self) == (LevelState { events: final(self).events, ..*old(self) }),
            session_wf(*final(self)),
    {
        sort_by_time(&mut self.events);
        proof {
            broadcast use vstd::seq_lib::group_to_multiset_ensures;

            let a = self.events@;
            let b = old(self).events@;
            assert forall|i: int| 0 <= i < a.len() implies actions_wf((#[trigger] a[i]).1@) by {
                assert(a.to_multiset().count(a[i]) > 0) by {
                    assert(a.contains(a[i]));
                }
                assert(b.to_multiset().count(a[i]) > 0);
                assert(b.contains(a[i]));
                let j = choose|j: int| 0 <= j < b.len() && b[j] == a[i];
                assert(actions_wf(b[j].1@));
            }
        }
    }

    /// Cut out every pending event whose trigger time lies strictly before
    /// `time`: used when starting playback partway through a track, so
    /// stale choreography does not fire en masse.
    pub fn snip(&mut self, time: Fx)
        requires
            session_wf(*old(self)),
        ensures
            final(self).events@ == old(self).events@.filter(|e: Event| e.0 >= time),
            *final(self) == (LevelState { events: final(self).events, ..*old(self) }),
            session_wf(*final(self)),
    {
        let ghost orig = self.events@;
        let mut kept: Vec<Event> = Vec::new();
        let ghost mut done: int = 0;
        while self.events.len() > 0
            invariant
                0 <= done <= orig.len(),
                self.events@ == orig.skip(done),
                kept@ == orig.subrange(0, done).filter(|e: Event| e.0 >= time),
                events_wf(orig),
                events_wf(kept@),
                *self == (LevelState { events: self.events, ..*old(self) }),
            decreases self.events@.len(),
        {
            let e = self.events.remove(0);
            proof {
                assert(e == orig[done]);
            }
            let ghost kpre = kept@;
            let keep = e.0 >= time;
            if keep {
                kept.push(e);
            }
            proof {
                reveal(Seq::filter);
                let sub1 = orig.subrange(0, done + 1);
                assert(sub1.drop_last() =~= orig.subrange(0, done));
                assert(sub1.last() == orig[done]);
                assert(kept@ =~= sub1.filter(|e: Event| e.0 >= time));
                assert(self.events@ =~= orig.skip(done + 1));
                done = done + 1;
            }
        }
        proof {
            assert(orig.subrange(0, orig.len() as int) =~= orig);
        }
        self.events = kept;
    }

    /// One frame of the session, given the polled beat clock and the wall
    /// clock frame delta. An abort resets the session. Otherwise: every due
    /// event fires (front run of the schedule), the player moves by the
    /// input, the camera decays, every hazard updates by the tempo-scaled
    /// beat delta, at most one hit is taken however many hazards touch the
    /// player, dead or flagged hazards run their terminal action and leave,
    /// and the staged effects merge in.
    #[verifier::rlimit(100)]
    pub fn update(&mut self, mus_time: Fx, frame_time: Fx, input: InputState)
        requires
            session_wf(*old(self)),
            frame_time >= 0,
        ensures
            session_wf(*final(self)),
            final(self).screen == old(self).screen && final(self).bpm == old(self).bpm && final(
            self).speed == old(self).speed,
            input.abort ==> final(self).events@.len() == 0 && final(self).obsts@.len() == 0
                && final(self).time == 0 && final(self).hits_left == 3,
            !input.abort ==> ({
                let dt = spec_beat_delta(
                    frame_time as int, old(self).bpm as int, old(self).speed as int);
                let stepped = spec_player_step(old(self).player, input, frame_time as int);
                &&& final(self).time == mus_time
                &&& exists|n: int|
                    {
                        &&& due_prefix(old(self).events@, mus_time, n)
                        &&& final(self).events@ == old(self).events@.skip(n)
                        &&& ({
                            let imp = spec_fired_impulse(
                                old(self).events@, n, (0int, 0int, 0int, Option::<Fx>::None));
                            let jtot = spec_upd_jerk(
                                old(self).obsts@, old(self).obsts@.len() as int, dt,
                                (imp.0, imp.1),
                            );
                            &&& final(self).cam_jerk.x as int == spec_fx_add(
                                spec_fx_mul(old(self).cam_jerk.x as int, 800), jtot.0)
                            &&& final(self).cam_jerk.y as int == spec_fx_add(
                                spec_fx_mul(old(self).cam_jerk.y as int, 800), jtot.1)
                            &&& final(self).cam_float == (match imp.3 {
                                Some(f) => f,
                                None => old(self).cam_float,
                            })
                        })
                        &&& (n == 0 ==> final(self).fg_color == old(self).fg_color && final(
                        self).bg_color == old(self).bg_color)
                    }
                &&& exists|sh: int|
                    final(self).cam_shake as int == spec_fx_add(
                        spec_fx_mul(old(self).cam_shake as int, 950), sh)
                &&& exists|upd: Seq<Obst>, staged: Seq<Obst>|
                    {
                        &&& upd.len() == old(self).obsts@.len()
                        &&& (forall|j: int|
                            0 <= j < upd.len() ==> spec_obstacle_stepped(
                                (#[trigger] old(self).obsts@[j]).obstacle, upd[j].obstacle, dt)
                                && upd[j].marked_for_removal == old(
                            self).obsts@[j].marked_for_removal)
                        &&& final(self).obsts@ == spec_sweep(upd, 0, old(self).screen) + staged
                        &&& (forall|j: int|
                            0 <= j < staged.len() ==> obst_wf(#[trigger] staged[j]))
                        &&& ({
                            let vulnerable = stepped.dash <= 0 && stepped.isecs <= 0;
                            let touched = spec_any_collides(upd, stepped, old(self).screen);
                            &&& (vulnerable && touched ==> final(self).player.isecs == 2000
                                && final(self).hits_left as int == (if old(self).hits_left > 0 {
                                old(self).hits_left - 1
                            } else {
                                0int
                            }))
                            &&& (!(vulnerable && touched) ==> final(self).player.isecs
                                == stepped.isecs && final(self).hits_left == old(self).hits_left)
                        })
                    }
                &&& old(self).hits_left - 1 <= final(self).hits_left <= old(self).hits_left
                &&& final(self).player.pos == stepped.pos && final(self).player.rad == stepped.rad
                    && final(self).player.pps == stepped.pps && final(self).player.dash
                    == stepped.dash
            }),
    {
        if input.abort {
            self.reset();
            return ;
        }
        self.time = mus_time;
        let screen = self.screen;
        let mut accum = UpdateAccumulator::new();

        // Step 3: drain every due event, in schedule order.
        let ghost evs0 = self.events@;
        let ghost mut drained: int = 0;
        while self.events.len() > 0 && self.events[0].0 <= mus_time
            invariant
                v2_wf(screen),
                0 <= drained <= evs0.len(),
                self.events@ == evs0.skip(drained),
                forall|k: int| 0 <= k < drained ==> (#[trigger] evs0[k]).0 <= mus_time,
                events_wf(evs0),
                *self == (LevelState { events: self.events, time: mus_time, ..*old(self) }),
                (accum.jerk.x as int, accum.jerk.y as int, accum.shake as int, accum.float_amp)
                    == spec_fired_impulse(
                    evs0, drained, (0int, 0int, 0int, Option::<Fx>::None)),
                drained == 0 ==> accum.fg is None && accum.bg is None && accum.mods@.len() == 0,
                forall|j: int|
                    0 <= j < accum.obstacles_to_add@.len() ==> obst_wf(
                        #[trigger] accum.obstacles_to_add@[j]),
            decreases self.events@.len(),
        {
            let e = self.events.remove(0);
            proof {
                assert(e == evs0[drained]);
            }
            accum.time = e.0;
            let ghost pre = accum.obstacles_to_add@;
            run_actions(e.1, &mut accum, screen);
            proof {
                let cur = accum.obstacles_to_add@;
                assert forall|m: int| 0 <= m < pre.len() implies cur[m] == pre[m] by {
                    assert(cur.subrange(0, pre.len() as int)[m] == cur[m]);
                }
                assert(self.events@ =~= evs0.skip(drained + 1));
                assert((accum.jerk.x as int, accum.jerk.y as int, accum.shake as int,
                accum.float_amp) == spec_fired_impulse(
                    evs0, drained + 1, (0int, 0int, 0int, Option::<Fx>::None)));
                drained = drained + 1;
            }
        }
        proof {
            if drained < evs0.len() {
                assert(self.events@[0] == evs0.skip(drained)[0]);
            }
            assert(due_prefix(evs0, mus_time, drained));
        }
        let ghost imp = (
            accum.jerk.x as int,
            accum.jerk.y as int,
            accum.shake as int,
            accum.float_amp,
        );
        let ghost afg = accum.fg;
        let ghost abg = accum.bg;
        let ghost amods = accum.mods@;

        // Step 4: player input and timer decay.
        if self.player.dash > 0 {
            self.player.pps = 800 * FX_ONE;
            self.player.dash = fx_sub(self.player.dash, frame_time);
        } else {
            self.player.pps = 300 * FX_ONE;
        }
        if self.player.isecs > 0 {
            self.player.isecs = fx_sub(self.player.isecs, frame_time);
        }
        let step = fx_mul(self.player.pps, frame_time);
        if input.up {
            self.player.pos.y = fx_sub(self.player.pos.y, step);
        }
        if input.down {
            self.player.pos.y = fx_add(self.player.pos.y, step);
        }
        if input.left {
            self.player.pos.x = fx_sub(self.player.pos.x, step);
        }
        if input.right {
            self.player.pos.x = fx_add(self.player.pos.x, step);
        }
        if self.player.dash <= 0 && input.dash {
            self.player.dash = 300;
        }
        proof {
            assert(self.player == spec_player_step(old(self).player, input, frame_time as int));
        }
        let ghost stepped = self.player;

        // Step 5: camera decay.
        self.cam_jerk = Vec2 { x: fx_mul(self.cam_jerk.x, 800), y: fx_mul(self.cam_jerk.y, 800) };
        self.cam_shake = fx_mul(self.cam_shake, 950);
        let ghost decayed_jerk = self.cam_jerk;
        let ghost decayed_shake = self.cam_shake;

        accum.time = self.time;

        // Step 6: update every hazard by the tempo-scaled beat delta.
        let dt = fx_mul(fx_mul(crate::fx::fx_div(frame_time, 60 * FX_ONE), self.bpm), self.speed);
        proof {
            crate::fx::lemma_fx_div_nonneg(frame_time as int, 60 * FX_ONE);
            crate::fx::lemma_fx_mul_nonneg(
                crate::fx::spec_fx_div(frame_time as int, 60 * FX_ONE), self.bpm as int);
            crate::fx::lemma_fx_mul_nonneg(
                crate::fx::spec_fx_mul(
                    crate::fx::spec_fx_div(frame_time as int, 60 * FX_ONE), self.bpm as int),
                self.speed as int,
            );
        }
        let mut i: usize = 0;
        while i < self.obsts.len()
            invariant
                v2_wf(screen),
                screen.x >= 0,
                screen.y >= 0,
                dt >= 0,
                i <= self.obsts@.len(),
                self.obsts@.len() == old(self).obsts@.len(),
                obsts_all_wf(self.obsts@),
                self.events@ == evs0.skip(drained),
                self.player == stepped,
                player_wf(self.player),
                self.cam_jerk == decayed_jerk,
                self.cam_shake == decayed_shake,
                forall|j: int|
                    0 <= j < i ==> spec_obstacle_stepped(
                        (#[trigger] old(self).obsts@[j]).obstacle, self.obsts@[j].obstacle,
                        dt as int,
                    ) && self.obsts@[j].marked_for_removal == old(
                        self).obsts@[j].marked_for_removal,
                forall|j: int|
                    i <= j < self.obsts@.len() ==> #[trigger] self.obsts@[j] == old(
                        self).obsts@[j],
                (accum.jerk.x as int, accum.jerk.y as int) == spec_upd_jerk(
                    old(self).obsts@, i as int, dt as int, (imp.0, imp.1)),
                accum.float_amp == imp.3,
                accum.fg == afg,
                accum.bg == abg,
                accum.mods@ == amods,
                *self == (LevelState {
                    events: self.events,
                    obsts: self.obsts,
                    time: mus_time,
                    player: self.player,
                    cam_jerk: self.cam_jerk,
                    cam_shake: self.cam_shake,
                    ..*old(self)
                }),
                forall|j: int|
                    0 <= j < accum.obstacles_to_add@.len() ==> obst_wf(
                        #[trigger] accum.obstacles_to_add@[j]),
            decreases self.obsts@.len() - i,
        {
            let ghost obsts_pre = self.obsts@;
            let mut o = self.obsts.remove(i);
            proof {
                assert(o == old(self).obsts@[i as int]);
            }
            let ghost pre = accum.obstacles_to_add@;
            o.obstacle.update(&mut accum, screen, frame_time, dt);
            proof {
                let cur = accum.obstacles_to_add@;
                assert forall|m: int| 0 <= m < pre.len() implies cur[m] == pre[m] by {
                    assert(cur.subrange(0, pre.len() as int)[m] == cur[m]);
                }
                assert((accum.jerk.x as int, accum.jerk.y as int) == spec_upd_jerk(
                    old(self).obsts@, i + 1, dt as int, (imp.0, imp.1)));
            }
            self.obsts.insert(i, o);
            proof {
                assert(self.obsts@ =~= obsts_pre.update(i as int, o));
            }
            i += 1;
        }
        let ghost upd = self.obsts@;
        let ghost jtot = spec_upd_jerk(
            old(self).obsts@, old(self).obsts@.len() as int, dt as int, (imp.0, imp.1));

        // Step 7: collision sweep. The check-all-then-apply-once rule: every
        // hazard is tested against the pre-sweep vulnerability, and at most
        // one hit is charged per frame however many hazards touch.
        let vulnerable = self.player.dash <= 0 && self.player.isecs <= 0;
        let mut hit = false;
        let mut k: usize = 0;
        while k < self.obsts.len()
            invariant
                v2_wf(screen),
                k <= self.obsts@.len(),
                obsts_all_wf(self.obsts@),
                player_wf(self.player),
                hit == exists|j: int|
                    0 <= j < k && spec_obstacle_collides(
                        (#[trigger] self.obsts@[j]).obstacle, self.player, screen),
            decreases self.obsts@.len() - k,
        {
            if self.obsts[k].obstacle.collides(self.player, screen) {
                hit = true;
            }
            k += 1;
        }
        proof {
            assert(hit == spec_any_collides(upd, stepped, screen));
        }
        if vulnerable && hit {
            self.player.isecs = 2000;
            if self.hits_left > 0 {
                self.hits_left = self.hits_left - 1;
            }
        }
        let ghost player_s = self.player;
        let ghost hits_s = self.hits_left;
        proof {
            assert(vulnerable == (stepped.dash <= 0 && stepped.isecs <= 0));
            assert(vulnerable && hit ==> player_s.isecs == 2000 && hits_s as int == (
            if old(self).hits_left > 0 {
                old(self).hits_left - 1
            } else {
                0int
            }));
            assert(!(vulnerable && hit) ==> player_s == stepped && hits_s == old(self).hits_left);
        }

        // Step 8: lifecycle sweep. A flagged or finished hazard runs its
        // terminal action once, then leaves by swap-and-pop.
        let mut idx: usize = 0;
        while idx < self.obsts.len()
            invariant
                v2_wf(screen),
                idx <= self.obsts@.len(),
                obsts_all_wf(self.obsts@),
                self.events@ == evs0.skip(drained),
                player_wf(self.player),
                self.player == player_s,
                self.hits_left == hits_s,
                self.cam_jerk == decayed_jerk,
                self.cam_shake == decayed_shake,
                spec_sweep(self.obsts@, idx as int, screen) == spec_sweep(upd, 0, screen),
                (accum.jerk.x as int, accum.jerk.y as int) == jtot,
                accum.float_amp == imp.3,
                accum.fg == afg,
                accum.bg == abg,
                accum.mods@ == amods,
                *self == (LevelState {
                    events: self.events,
                    obsts: self.obsts,
                    time: mus_time,
                    player: self.player,
                    hits_left: self.hits_left,
                    cam_jerk: self.cam_jerk,
                    cam_shake: self.cam_shake,
                    ..*old(self)
                }),
                forall|j: int|
                    0 <= j < accum.obstacles_to_add@.len() ==> obst_wf(
                        #[trigger] accum.obstacles_to_add@[j]),
            decreases self.obsts@.len() - idx,
        {
            let ghost pre_obsts = self.obsts@;
            let marked = self.obsts[idx].marked_for_removal;
            let dead = self.obsts[idx].obstacle.should_kill(screen);
            if marked || dead {
                let o = self.obsts.swap_remove(idx);
                proof {
                    assert(spec_obst_gone(pre_obsts[idx as int], screen));
                    assert(self.obsts@ == pre_obsts.update(
                        idx as int, pre_obsts.last()).drop_last());
                    assert(spec_sweep(pre_obsts, idx as int, screen) == spec_sweep(
                        self.obsts@, idx as int, screen));
                }
                let ghost pre = accum.obstacles_to_add@;
                o.obstacle.kill(&mut accum, screen);
                proof {
                    let cur = accum.obstacles_to_add@;
                    assert forall|m: int| 0 <= m < pre.len() implies cur[m] == pre[m] by {
                        assert(cur.subrange(0, pre.len() as int)[m] == cur[m]);
                    }
                }
            } else {
                proof {
                    assert(!spec_obst_gone(pre_obsts[idx as int], screen));
                    assert(spec_sweep(pre_obsts, idx as int, screen) == spec_sweep(
                        pre_obsts, idx + 1, screen));
                }
                idx += 1;
            }
        }
        proof {
            assert(self.obsts@ == spec_sweep(upd, 0, screen));
        }

        // Step 9: merge the staged effects into the session.
        let ghost kept = self.obsts@;
        let ghost staged = accum.obstacles_to_add@;
        self.obsts.append(&mut accum.obstacles_to_add);
        proof {
            assert forall|j: int| 0 <= j < self.obsts@.len() implies obst_wf(
                #[trigger] self.obsts@[j]) by {
                if j < kept.len() {
                    assert(self.obsts@[j] == kept[j]);
                } else {
                    assert(self.obsts@[j] == staged[j - kept.len()]);
                }
            }
        }
        self.cam_jerk = self.cam_jerk.add(accum.jerk);
        self.cam_shake = fx_add(self.cam_shake, accum.shake);
        match accum.fg {
            Some(c) => {
                self.fg_color = ColorFn::Flat(c);
            },
            None => {},
        }
        match accum.bg {
            Some(c) => {
                self.bg_color = ColorFn::Flat(c);
            },
            None => {},
        }
        match accum.float_amp {
            Some(f) => {
                self.cam_float = f;
            },
            None => {},
        }
        let ghost before_mods = *self;
        let mut mods = accum.mods;
        let ghost mut done_mods: int = 0;
        while mods.len() > 0
            invariant
                0 <= done_mods <= amods.len(),
                mods@ == amods.skip(done_mods),
                done_mods == 0 ==> *self == before_mods,
                *self == (LevelState {
                    fg_color: self.fg_color,
                    bg_color: self.bg_color,
                    ..before_mods
                }),
            decreases mods@.len(),
        {
            match mods.remove(0) {
                SessionMod::SetFgFn(c) => {
                    self.fg_color = c;
                },
                SessionMod::SetBgFn(c) => {
                    self.bg_color = c;
                },
            }
            proof {
                assert(mods@ =~= amods.skip(done_mods + 1));
                done_mods = done_mods + 1;
            }
        }
        proof {
            assert forall|m: int| 0 <= m < self.events@.len() implies actions_wf(
                (#[trigger] self.events@[m]).1@) by {
                assert(self.events@[m] == evs0[drained + m]);
            }
            let dt_s = spec_beat_delta(
                frame_time as int, old(self).bpm as int, old(self).speed as int);
            assert(dt as int == dt_s);
            assert(self.cam_jerk.x as int == spec_fx_add(
                spec_fx_mul(old(self).cam_jerk.x as int, 800), jtot.0));
            assert(self.cam_jerk.y as int == spec_fx_add(
                spec_fx_mul(old(self).cam_jerk.y as int, 800), jtot.1));
            assert(exists|sh: int|
                self.cam_shake as int == spec_fx_add(
                    spec_fx_mul(old(self).cam_shake as int, 950), sh)) by {
                assert(self.cam_shake as int == spec_fx_add(
                    spec_fx_mul(old(self).cam_shake as int, 950), accum.shake as int));
            };
            assert(drained == 0 ==> self.fg_color == old(self).fg_color && self.bg_color == old(
                self).bg_color);
            assert(exists|n: int|
                {
                    &&& due_prefix(old(self).events@, mus_time, n)
                    &&& self.events@ == old(self).events@.skip(n)
                    &&& ({
                        let imp2 = spec_fired_impulse(
                            old(self).events@, n, (0int, 0int, 0int, Option::<Fx>::None));
                        let jtot2 = spec_upd_jerk(
                            old(self).obsts@, old(self).obsts@.len() as int, dt_s,
                            (imp2.0, imp2.1),
                        );
                        &&& self.cam_jerk.x as int == spec_fx_add(
                            spec_fx_mul(old(self).cam_jerk.x as int, 800), jtot2.0)
                        &&& self.cam_jerk.y as int == spec_fx_add(
                            spec_fx_mul(old(self).cam_jerk.y as int, 800), jtot2.1)
                        &&& self.cam_float == (match imp2.3 {
                            Some(f) => f,
                            None => old(self).cam_float,
                        })
                    })
                    &&& (n == 0 ==> self.fg_color == old(self).fg_color && self.bg_color == old(
                    self).bg_color)
                }) by {
                assert(spec_fired_impulse(
                    old(self).events@, drained, (0int, 0int, 0int, Option::<Fx>::None)) == imp);
            };
            assert(exists|updw: Seq<Obst>, stagedw: Seq<Obst>|
                {
                    &&& updw.len() == old(self).obsts@.len()
                    &&& (forall|j: int|
                        0 <= j < updw.len() ==> spec_obstacle_stepped(
                            (#[trigger] old(self).obsts@[j]).obstacle, updw[j].obstacle, dt_s)
                            && updw[j].marked_for_removal == old(
                        self).obsts@[j].marked_for_removal)
                    &&& self.obsts@ == spec_sweep(updw, 0, old(self).screen) + stagedw
                    &&& (forall|j: int|
                        0 <= j < stagedw.len() ==> obst_wf(#[trigger] stagedw[j]))
                    &&& ({
                        let vul = stepped.dash <= 0 && stepped.isecs <= 0;
                        let touched = spec_any_collides(updw, stepped, old(self).screen);
                        &&& (vul && touched ==> self.player.isecs == 2000
                            && self.hits_left as int == (if old(self).hits_left > 0 {
                            old(self).hits_left - 1
                        } else {
                            0int
                        }))
                        &&& (!(vul && touched) ==> self.player.isecs == stepped.isecs
                            && self.hits_left == old(self).hits_left)
                    })
                }) by {
                assert(self.obsts@ == spec_sweep(upd, 0, old(self).screen) + staged);
            };
        }
    }
}

} // verus!
