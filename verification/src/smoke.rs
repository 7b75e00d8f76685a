//! The procedural-path hazard: its position is a deterministic function of
//! elapsed time (value noise plus a phase-shifted circle), and it carries a
//! mini-scheduler of typed sub-events dispatched in ascending time order,
//! relative to the end of its own warning phase.

use crate::accum::{accum_same_but_effects, UpdateAccumulator};
use crate::color::{acmul, mix, Color};
use crate::fx::{
    fx_add, fx_cos, fx_div, fx_mul, fx_sin, fx_sub, spec_cos, spec_fx_add, spec_fx_div,
    spec_fx_mul, spec_fx_sub, spec_sin, Fx, FX_ONE,
};
use crate::geom::{collide_cc, spec_collide_cc};
use crate::lasers::white;
use crate::noise::{noise, spec_noise};
use crate::obstacles::{Obst, Obstacle, Pellet, PelletSpinner, SlamLaser, Smoke, SmokeEvent};
use crate::player::{player_wf, Player};
use crate::spawner::spec_step_fx;
use crate::utils::sorted_by_time;
use crate::vec2::{v2_wf, Vec2};
use vstd::prelude::*;

verus! {

/// A well-formed sub-event: ring counts bounded, spinner rates positive.
pub open spec fn smoke_ev_wf(e: SmokeEvent) -> bool {
    match e {
        SmokeEvent::Pulse => true,
        SmokeEvent::SPulse(_) => true,
        SmokeEvent::Lasers { count, phase } => count <= 1000000,
        SmokeEvent::Pellets { count, speed, rad, phase } => count <= 1000000 && 0 <= rad <= crate::fx::FX_MAX,
        SmokeEvent::Spinner { count, speed, rad, phase, ppb } => ppb > 0 && count <= 1000000 && 0 <= rad <= crate::fx::FX_MAX,
    }
}

/// A well-formed procedural hazard: a positive leave window and well-formed
/// pending sub-events.
pub open spec fn smoke_wf(s: Smoke) -> bool {
    s.leave_time > 0 && (forall|i: int|
        0 <= i < s.events@.len() ==> smoke_ev_wf((#[trigger] s.events@[i]).1)) && (forall|i: int|
        0 <= i < s.spinners@.len() ==> (#[trigger] s.spinners@[i]).max <= 1000000 && 0 <= (
        #[trigger] s.spinners@[i]).rad <= crate::fx::FX_MAX)
}

/// The ring angle `i / n` of a turn, shifted by a phase, in turns.
pub open spec fn spec_ring_phase(i: int, n: int, phase: int) -> int
    recommends
        n > 0,
{
    spec_fx_add((i * (FX_ONE as int)) / n, phase)
}

fn ring_phase(i: usize, n: usize, phase: Fx) -> (r: Fx)
    requires
        0 < n,
        i <= n,
        n <= 1000000,
    ensures
        r == spec_ring_phase(i as int, n as int, phase as int),
{
    let num: u64 = (i as u64) * 1000;
    fx_add((num / (n as u64)) as i64, phase)
}

/// The hazard's position at a local time: value noise and its mirror, half
/// strength, plus a unit circle at 1.25 times the displacement frequency,
/// all scaled by the amplitude and centered on the screen.
pub open spec fn spec_smoke_pos(s: Smoke, time: int, screen: Vec2) -> (int, int) {
    let nt = spec_fx_mul(time, s.disp_freq as int);
    let n1 = spec_noise(nt);
    let n2 = spec_noise(-nt);
    let arg = spec_fx_add(spec_fx_mul(spec_fx_mul(time, 1250), s.disp_freq as int),
        s.disp_phase as int);
    (
        spec_fx_add(
            spec_fx_mul(spec_fx_add(spec_fx_mul(n1, 500), spec_sin(arg)), s.disp_amp as int),
            spec_fx_mul(screen.x as int, 500),
        ),
        spec_fx_add(
            spec_fx_mul(spec_fx_add(spec_fx_mul(n2, 500), spec_cos(arg)), s.disp_amp as int),
            spec_fx_mul(screen.y as int, 500),
        ),
    )
}

/// The animated radius: the base radius inflated by the pulse, shrinking
/// during the leave window at the end of the show phase.
pub open spec fn spec_smoke_size(s: Smoke) -> int {
    let base = spec_fx_mul(s.rad as int, spec_fx_add(s.pulse as int, FX_ONE as int));
    if spec_fx_sub(s.time as int, s.warning_time as int) > spec_fx_sub(
        s.show_time as int, s.leave_time as int) {
        spec_fx_mul(
            base,
            spec_fx_div(
                spec_fx_sub(spec_fx_add(s.warning_time as int, s.show_time as int), s.time as int),
                s.leave_time as int,
            ),
        )
    } else {
        base
    }
}

/// Whether the hazard touches the player: circle vs circle at the animated
/// size.
pub open spec fn spec_smoke_collides(s: Smoke, screen: Vec2, p: Player) -> bool {
    let pos = spec_smoke_pos(s, s.time as int, screen);
    spec_collide_cc(
        pos.0, pos.1, spec_smoke_size(s), p.pos.x as int, p.pos.y as int, p.rad as int,
    )
}

/// A sub-event is due once the local clock, measured from the end of the
/// warning phase, has reached its trigger time.
pub open spec fn spec_smoke_due(e: (Fx, SmokeEvent), tw: int) -> bool {
    tw >= e.0
}

/// Whether a sub-event flashes the hazard (a pulse of either kind).
pub open spec fn spec_is_pulse(e: SmokeEvent) -> bool {
    match e {
        SmokeEvent::Pulse => true,
        SmokeEvent::SPulse(_) => true,
        _ => false,
    }
}

/// The `i`-th laser of a ring sub-event: a slamming laser from the hazard's
/// position one beat ahead, aimed along the ring direction, 1250 units
/// long, with one-beat warning and show windows and a half-beat leave.
#[verifier::opaque]
pub open spec fn spec_smoke_ring_laser(s: Smoke, screen: Vec2, count: int, phase: Fx, i: int)
    -> Obst {
    let start = spec_smoke_pos(s, spec_fx_add(s.time as int, FX_ONE as int), screen);
    let a = spec_ring_phase(i, count, phase as int);
    let ex = spec_fx_add(start.0, spec_fx_mul(spec_cos(a), 1250000));
    let ey = spec_fx_add(start.1, spec_fx_mul(spec_sin(a), 1250000));
    Obst {
        obstacle: Obstacle::SlamLaser(
            SlamLaser {
                start: Vec2 { x: start.0 as i64, y: start.1 as i64 },
                end: Vec2 { x: ex as i64, y: ey as i64 },
                thickness: 20000,
                warning_time: FX_ONE,
                show_time: FX_ONE,
                current_time: 0,
                leave_time: 500,
                anticipation: 50,
                shown: false,
                jerk: Vec2 { x: 0, y: 0 },
                shake: 0,
            },
        ),
        marked_for_removal: false,
    }
}

/// The `i`-th pellet of a ring sub-event: spawned on the hazard's rim along
/// the ring direction, flying outward at the configured speed.
#[verifier::opaque]
pub open spec fn spec_smoke_ring_pellet(
    s: Smoke, screen: Vec2, count: int, speed: Fx, rad: Fx, phase: Fx, i: int,
) -> Obst {
    let start = spec_smoke_pos(s, s.time as int, screen);
    let a = spec_ring_phase(i, count, phase as int);
    let dx = spec_cos(a);
    let dy = spec_sin(a);
    let off = spec_fx_sub(s.rad as int, rad as int);
    Obst {
        obstacle: Obstacle::Pellet(
            Pellet {
                pos: Vec2 {
                    x: spec_fx_add(start.0, spec_fx_mul(dx, off)) as i64,
                    y: spec_fx_add(start.1, spec_fx_mul(dy, off)) as i64,
                },
                vel: Vec2 {
                    x: spec_fx_mul(dx, speed as int) as i64,
                    y: spec_fx_mul(dy, speed as int) as i64,
                },
                rad,
            },
        ),
        marked_for_removal: false,
    }
}

/// The pellet a spinner emits at its current (already advanced) count.
pub open spec fn spec_spinner_pellet(sp: PelletSpinner, cur_pos: Vec2, cur_rad: Fx) -> Obst {
    let a = spec_ring_phase(sp.count as int, sp.max as int, sp.phase as int);
    let dx = spec_cos(a);
    let dy = spec_sin(a);
    let off = spec_fx_sub(cur_rad as int, sp.rad as int);
    Obst {
        obstacle: Obstacle::Pellet(
            Pellet {
                pos: Vec2 {
                    x: spec_fx_add(cur_pos.x as int, spec_fx_mul(dx, off)) as i64,
                    y: spec_fx_add(cur_pos.y as int, spec_fx_mul(dy, off)) as i64,
                },
                vel: Vec2 {
                    x: spec_fx_mul(dx, sp.speed as int) as i64,
                    y: spec_fx_mul(dy, sp.speed as int) as i64,
                },
                rad: sp.rad,
            },
        ),
        marked_for_removal: false,
    }
}


/// Stage the ring of slamming lasers of a `Lasers` sub-event.
#[verifier::rlimit(100)]
fn stage_ring_lasers(s: &Smoke, count: usize, phase: Fx, acc: &mut UpdateAccumulator, screen: Vec2)
    requires
        count <= 1000000,
        v2_wf(screen),
    ensures
        final(acc).obstacles_to_add@.len() == old(acc).obstacles_to_add@.len() + count,
        final(acc).obstacles_to_add@.subrange(0, old(acc).obstacles_to_add@.len() as int) == old(
            acc).obstacles_to_add@,
        forall|j: int|
            0 <= j < count ==> #[trigger] final(acc).obstacles_to_add@[old(
                acc).obstacles_to_add@.len() + j] == spec_smoke_ring_laser(
                *s, screen, count as int, phase, j),
        forall|j: int|
            old(acc).obstacles_to_add@.len() <= j < final(acc).obstacles_to_add@.len()
                ==> crate::obstacles::obst_wf(#[trigger] final(acc).obstacles_to_add@[j]),
        final(acc).jerk == old(acc).jerk,
        final(acc).shake == old(acc).shake,
        accum_same_but_effects(*final(acc), *old(acc)),
{
    let start = s.trackpos(fx_add(s.time, FX_ONE), screen);
    let mut i: usize = 0;
    while i < count
        invariant
            i <= count,
            count <= 1000000,
            v2_wf(start),
            (start.x as int, start.y as int) == spec_smoke_pos(
                *s, spec_fx_add(s.time as int, FX_ONE as int), screen),
            acc.obstacles_to_add@.len() == old(acc).obstacles_to_add@.len() + i,
            acc.obstacles_to_add@.subrange(0, old(acc).obstacles_to_add@.len() as int) == old(
                acc).obstacles_to_add@,
            forall|j: int|
                old(acc).obstacles_to_add@.len() <= j < acc.obstacles_to_add@.len()
                    ==> crate::obstacles::obst_wf(#[trigger] acc.obstacles_to_add@[j]),
            forall|j: int|
                0 <= j < i ==> #[trigger] acc.obstacles_to_add@[old(acc).obstacles_to_add@.len()
                    + j] == spec_smoke_ring_laser(*s, screen, count as int, phase, j),
            acc.jerk == old(acc).jerk,
            acc.shake == old(acc).shake,
            accum_same_but_effects(*acc, *old(acc)),
        decreases count - i,
    {
        let a = ring_phase(i, count, phase);
        let dir = Vec2 { x: fx_cos(a), y: fx_sin(a) };
        let l = SlamLaser::new(
            start,
            start.add(dir.scale(1250000)),
            20000,
            FX_ONE,
            FX_ONE,
            50,
            Vec2 { x: 0, y: 0 },
            0,
        ).leave_time(500);
        acc.obst(Obstacle::SlamLaser(l));
        proof {
            assert(acc.obstacles_to_add@.subrange(0, old(acc).obstacles_to_add@.len() as int)
                =~= old(acc).obstacles_to_add@);
            assert(crate::obstacles::obst_wf(acc.obstacles_to_add@.last()));
            assert(acc.obstacles_to_add@.last() == spec_smoke_ring_laser(
                *s, screen, count as int, phase, i as int)) by {
                reveal(spec_smoke_ring_laser);
            };
        }
        i += 1;
    }
}

/// Stage the ring of pellets of a `Pellets` sub-event.
#[verifier::rlimit(100)]
fn stage_ring_pellets(
    s: &Smoke, count: usize, speed: Fx, rad: Fx, phase: Fx, acc: &mut UpdateAccumulator,
    screen: Vec2,
)
    requires
        count <= 1000000,
        0 <= rad <= crate::fx::FX_MAX,
        v2_wf(screen),
    ensures
        final(acc).obstacles_to_add@.len() == old(acc).obstacles_to_add@.len() + count,
        final(acc).obstacles_to_add@.subrange(0, old(acc).obstacles_to_add@.len() as int) == old(
            acc).obstacles_to_add@,
        forall|j: int|
            0 <= j < count ==> #[trigger] final(acc).obstacles_to_add@[old(
                acc).obstacles_to_add@.len() + j] == spec_smoke_ring_pellet(
                *s, screen, count as int, speed, rad, phase, j),
        forall|j: int|
            old(acc).obstacles_to_add@.len() <= j < final(acc).obstacles_to_add@.len()
                ==> crate::obstacles::obst_wf(#[trigger] final(acc).obstacles_to_add@[j]),
        final(acc).jerk == old(acc).jerk,
        final(acc).shake == old(acc).shake,
        accum_same_but_effects(*final(acc), *old(acc)),
{
    let start = s.trackpos(s.time, screen);
    let mut i: usize = 0;
    while i < count
        invariant
            i <= count,
            count <= 1000000,
            v2_wf(start),
            0 <= rad <= crate::fx::FX_MAX,
            (start.x as int, start.y as int) == spec_smoke_pos(*s, s.time as int, screen),
            acc.obstacles_to_add@.len() == old(acc).obstacles_to_add@.len() + i,
            acc.obstacles_to_add@.subrange(0, old(acc).obstacles_to_add@.len() as int) == old(
                acc).obstacles_to_add@,
            forall|j: int|
                old(acc).obstacles_to_add@.len() <= j < acc.obstacles_to_add@.len()
                    ==> crate::obstacles::obst_wf(#[trigger] acc.obstacles_to_add@[j]),
            forall|j: int|
                0 <= j < i ==> #[trigger] acc.obstacles_to_add@[old(acc).obstacles_to_add@.len()
                    + j] == spec_smoke_ring_pellet(*s, screen, count as int, speed, rad, phase, j),
            acc.jerk == old(acc).jerk,
            acc.shake == old(acc).shake,
            accum_same_but_effects(*acc, *old(acc)),
        decreases count - i,
    {
        let a = ring_phase(i, count, phase);
        let dir = Vec2 { x: fx_cos(a), y: fx_sin(a) };
        let p = Pellet {
            pos: start.add(dir.scale(fx_sub(s.rad, rad))),
            vel: dir.scale(speed),
            rad,
        };
        acc.obst(Obstacle::Pellet(p));
        proof {
            assert(acc.obstacles_to_add@.subrange(0, old(acc).obstacles_to_add@.len() as int)
                =~= old(acc).obstacles_to_add@);
            assert(crate::obstacles::obst_wf(acc.obstacles_to_add@.last()));
            assert(acc.obstacles_to_add@.last() == spec_smoke_ring_pellet(
                *s, screen, count as int, speed, rad, phase, i as int)) by {
                reveal(spec_smoke_ring_pellet);
            };
        }
        i += 1;
    }
}

impl Smoke {

    /// A fresh hazard with the default path, size and phase windows.
    pub fn new() -> (s: Smoke)
        ensures
            s.disp_amp == 75000 && s.disp_freq == 1000 && s.time == 0 && s.rad == 20000 && s.pulse
                == 0 && s.warning_time == 1000 && s.show_time == 32000 && s.leave_time == 250
                && s.disp_phase == 0 && s.events@.len() == 0 && s.spinners@.len() == 0,
            smoke_wf(s),
    {
        Smoke {
            disp_amp: 75000,
            disp_freq: 1000,
            time: 0,
            rad: 20000,
            pulse: 0,
            warning_time: 1000,
            show_time: 32000,
            leave_time: 250,
            disp_phase: 0,
            events: Vec::new(),
            spinners: Vec::new(),
        }
    }

    /// Replace the displacement amplitude.
    pub fn disp_amp(self, disp_amp: Fx) -> (r: Smoke)
        ensures
            r == (Smoke { disp_amp, ..self }),
    {
        Smoke { disp_amp, ..self }
    }

    /// Replace the displacement frequency.
    pub fn disp_freq(self, disp_freq: Fx) -> (r: Smoke)
        ensures
            r == (Smoke { disp_freq, ..self }),
    {
        Smoke { disp_freq, ..self }
    }

    /// Replace the displacement phase.
    pub fn disp_phase(self, disp_phase: Fx) -> (r: Smoke)
        ensures
            r == (Smoke { disp_phase, ..self }),
    {
        Smoke { disp_phase, ..self }
    }

    /// Replace the leave window.
    pub fn leave_time(self, leave_time: Fx) -> (r: Smoke)
        ensures
            r == (Smoke { leave_time, ..self }),
    {
        Smoke { leave_time, ..self }
    }

    /// Replace the warning window.
    pub fn warning_time(self, warning_time: Fx) -> (r: Smoke)
        ensures
            r == (Smoke { warning_time, ..self }),
    {
        Smoke { warning_time, ..self }
    }

    /// Replace the show window.
    pub fn show_time(self, show_time: Fx) -> (r: Smoke)
        ensures
            r == (Smoke { show_time, ..self }),
    {
        Smoke { show_time, ..self }
    }

    /// Append sub-events to the schedule.
    pub fn smevs(self, events: Vec<(Fx, SmokeEvent)>) -> (r: Smoke)
        ensures
            r.events@ == self.events@ + events@,
            r == (Smoke { events: r.events, ..self }),
    {
        let mut s = self;
        let mut evs = events;
        s.events.append(&mut evs);
        s
    }

    /// Sort the pending sub-events by trigger time; call once after building
    /// the schedule.
    pub fn sort(self) -> (r: Smoke)
        ensures
            sorted_by_time(r.events@),
            r.events@.to_multiset() == self.events@.to_multiset(),
            sorted_by_time(self.events@) ==> r.events@ == self.events@,
            r == (Smoke { events: r.events, ..self }),
    {
        let mut s = self;
        crate::utils::sort_by_time(&mut s.events);
        s
    }

    /// The hazard's position at a local time.
    pub fn trackpos(&self, time: Fx, screen: Vec2) -> (r: Vec2)
        ensures
            (r.x as int, r.y as int) == spec_smoke_pos(*self, time as int, screen),
            v2_wf(r),
    {
        let nt = fx_mul(time, self.disp_freq);
        let n1 = noise(nt);
        let n2 = noise(-nt);
        let arg = fx_add(fx_mul(fx_mul(time, 1250), self.disp_freq), self.disp_phase);
        Vec2 {
            x: fx_add(
                fx_mul(fx_add(fx_mul(n1, 500), fx_sin(arg)), self.disp_amp),
                fx_mul(screen.x, 500),
            ),
            y: fx_add(
                fx_mul(fx_add(fx_mul(n2, 500), fx_cos(arg)), self.disp_amp),
                fx_mul(screen.y, 500),
            ),
        }
    }

    /// The animated radius.
    pub fn size(&self) -> (r: Fx)
        requires
            self.leave_time > 0,
        ensures
            r == spec_smoke_size(*self),
    {
        let base = fx_mul(self.rad, fx_add(self.pulse, FX_ONE));
        if fx_sub(self.time, self.warning_time) > fx_sub(self.show_time, self.leave_time) {
            fx_mul(
                base,
                fx_div(fx_sub(fx_add(self.warning_time, self.show_time), self.time),
                    self.leave_time),
            )
        } else {
            base
        }
    }

    /// The draw color: faded in during the warning phase, flashed toward
    /// white by the pulse afterwards.
    pub fn color(&self, base: Color) -> (c: Color)
        requires
            self.warning_time != 0,
        ensures
            self.time < self.warning_time ==> (c.r == base.r && c.g == base.g && c.b == base.b
                && c.a as int == spec_fx_mul(
                base.a as int,
                spec_fx_mul(spec_fx_div(self.time as int, self.warning_time as int), 500),
            )),
            self.time >= self.warning_time ==> (c.r as int, c.g as int, c.b as int, c.a as int)
                == (
                crate::fx::spec_fx_lerp(base.r as int, FX_ONE as int, self.pulse as int),
                crate::fx::spec_fx_lerp(base.g as int, FX_ONE as int, self.pulse as int),
                crate::fx::spec_fx_lerp(base.b as int, FX_ONE as int, self.pulse as int),
                crate::fx::spec_fx_lerp(base.a as int, FX_ONE as int, self.pulse as int),
            ),
    {
        if self.time < self.warning_time {
            acmul(base, fx_mul(fx_div(self.time, self.warning_time), 500))
        } else {
            mix(base, white(), self.pulse)
        }
    }

    /// Dispatch one sub-event: flash and shake, or stage a ring of lasers,
    /// a ring of pellets, or a new pellet spinner. Leaves the schedule, the
    /// clock and the timing windows untouched.
    #[verifier::rlimit(100)]
    pub fn employ(&mut self, ev: SmokeEvent, acc: &mut UpdateAccumulator, screen: Vec2)
        requires
            smoke_ev_wf(ev),
            v2_wf(screen),
        ensures
            final(self).events@ == old(self).events@,
            final(self).time == old(self).time,
            final(self).warning_time == old(self).warning_time,
            final(self).show_time == old(self).show_time,
            final(self).leave_time == old(self).leave_time,
            final(self).rad == old(self).rad,
            final(self).disp_amp == old(self).disp_amp,
            final(self).disp_freq == old(self).disp_freq,
            final(self).disp_phase == old(self).disp_phase,
            final(self).pulse == (if spec_is_pulse(ev) {
                FX_ONE as i64
            } else {
                old(self).pulse
            }),
            spec_is_pulse(ev) ==> final(self).spinners@ == old(self).spinners@,
            (ev matches SmokeEvent::Spinner { count, speed, rad, phase, ppb } ==> final(
                self).spinners@ == old(self).spinners@.push(
                PelletSpinner {
                    count: 0,
                    max: count,
                    phase,
                    period: spec_fx_div(FX_ONE as int, ppb as int) as i64,
                    start_time: old(self).time,
                    rad,
                    speed,
                },
            )),
            (ev matches SmokeEvent::Lasers { count, phase } ==> final(self).spinners@ == old(
                self).spinners@),
            (ev matches SmokeEvent::Pellets { count, speed, rad, phase } ==> final(self).spinners@
                == old(self).spinners@),
            final(acc).obstacles_to_add@.len() >= old(acc).obstacles_to_add@.len(),
            final(acc).obstacles_to_add@.subrange(0, old(acc).obstacles_to_add@.len() as int)
                == old(acc).obstacles_to_add@,
            forall|j: int|
                old(acc).obstacles_to_add@.len() <= j < final(acc).obstacles_to_add@.len()
                    ==> crate::obstacles::obst_wf(#[trigger] final(acc).obstacles_to_add@[j]),
            final(acc).jerk == old(acc).jerk,
            accum_same_but_effects(*final(acc), *old(acc)),
            (ev matches SmokeEvent::Pulse ==> final(acc).obstacles_to_add@ == old(
                acc).obstacles_to_add@ && final(acc).shake as int == spec_fx_add(
                old(acc).shake as int, 10000)),
            (ev matches SmokeEvent::SPulse(strength) ==> final(acc).obstacles_to_add@ == old(
                acc).obstacles_to_add@ && final(acc).shake as int == spec_fx_add(
                old(acc).shake as int, strength as int)),
            (ev matches SmokeEvent::Lasers { count, phase } ==> final(
                acc).obstacles_to_add@.len() == old(acc).obstacles_to_add@.len() + count && final(
                acc).shake == old(acc).shake && (forall|j: int|
                0 <= j < count ==> #[trigger] final(acc).obstacles_to_add@[old(
                    acc).obstacles_to_add@.len() + j] == spec_smoke_ring_laser(
                    *old(self), screen, count as int, phase, j))),
            (ev matches SmokeEvent::Pellets { count, speed, rad, phase } ==> final(
                acc).obstacles_to_add@.len() == old(acc).obstacles_to_add@.len() + count && final(
                acc).shake == old(acc).shake && (forall|j: int|
                0 <= j < count ==> #[trigger] final(acc).obstacles_to_add@[old(
                    acc).obstacles_to_add@.len() + j] == spec_smoke_ring_pellet(
                    *old(self), screen, count as int, speed, rad, phase, j))),
            (ev matches SmokeEvent::Spinner { count, speed, rad, phase, ppb } ==> *final(acc)
                == *old(acc)),
    {
        match ev {
            SmokeEvent::Pulse => {
                self.pulse = FX_ONE;
                acc.shake(10000);
                proof {
                    assert(acc.obstacles_to_add@.subrange(
                        0, old(acc).obstacles_to_add@.len() as int) =~= old(
                        acc).obstacles_to_add@);
                }
            },
            SmokeEvent::SPulse(strength) => {
                self.pulse = FX_ONE;
                acc.shake(strength);
                proof {
                    assert(acc.obstacles_to_add@.subrange(
                        0, old(acc).obstacles_to_add@.len() as int) =~= old(
                        acc).obstacles_to_add@);
                }
            },
            SmokeEvent::Lasers { count, phase } => {
                stage_ring_lasers(self, count, phase, acc, screen);
            },
            SmokeEvent::Pellets { count, speed, rad, phase } => {
                stage_ring_pellets(self, count, speed, rad, phase, acc, screen);
            },
            SmokeEvent::Spinner { count, speed, rad, phase, ppb } => {
                self.spinners.push(
                    PelletSpinner {
                        count: 0,
                        max: count,
                        phase,
                        period: fx_div(FX_ONE, ppb),
                        start_time: self.time,
                        rad,
                        speed,
                    },
                );
                proof {
                    assert(acc.obstacles_to_add@.subrange(
                        0, old(acc).obstacles_to_add@.len() as int) =~= old(
                        acc).obstacles_to_add@);
                }
            },
        }
    }

    /// Whether the hazard touches the player.
    pub fn collides(&self, player: Player, screen: Vec2) -> (res: bool)
        requires
            smoke_wf(*self),
            player_wf(player),
        ensures
            res == spec_smoke_collides(*self, screen, player),
    {
        let pos = self.trackpos(self.time, screen);
        collide_cc(pos, self.size(), player.pos, player.rad)
    }

    /// Whether the hazard's lifetime (warning plus show) is over.
    pub fn should_kill(&self) -> (res: bool)
        ensures
            res == (self.time > spec_fx_add(self.warning_time as int, self.show_time as int)),
    {
        self.time > fx_add(self.warning_time, self.show_time)
    }

    /// Advance the local clock, decay the pulse, dispatch every due
    /// sub-event in ascending order, then step each pellet spinner and drop
    /// the finished ones.
    pub fn update(&mut self, acc: &mut UpdateAccumulator, screen: Vec2, beat_dt: Fx)
        requires
            smoke_wf(*old(self)),
            v2_wf(screen),
        ensures
            ({
                let t1 = spec_fx_add(old(self).time as int, beat_dt as int);
                let tw = spec_fx_sub(t1, old(self).warning_time as int);
                exists|n: int|
                    {
                        &&& 0 <= n <= old(self).events@.len()
                        &&& final(self).events@ == old(self).events@.skip(n)
                        &&& (forall|k: int|
                            0 <= k < n ==> spec_smoke_due(#[trigger] old(self).events@[k], tw))
                        &&& (n < old(self).events@.len() ==> !spec_smoke_due(
                            old(self).events@[n], tw))
                        &&& ((exists|k: int|
                            0 <= k < n && spec_is_pulse((#[trigger] old(self).events@[k]).1))
                            ==> final(self).pulse == FX_ONE)
                        &&& ((forall|k: int|
                            0 <= k < n ==> !spec_is_pulse((#[trigger] old(self).events@[k]).1))
                            ==> final(self).pulse == spec_fx_mul(old(self).pulse as int, 975))
                    }
            }),
            final(self).time as int == spec_fx_add(old(self).time as int, beat_dt as int),
            final(self).warning_time == old(self).warning_time,
            final(self).show_time == old(self).show_time,
            final(self).leave_time == old(self).leave_time,
            final(self).rad == old(self).rad,
            final(self).disp_amp == old(self).disp_amp,
            final(self).disp_freq == old(self).disp_freq,
            final(self).disp_phase == old(self).disp_phase,
            smoke_wf(*final(self)),
            final(acc).obstacles_to_add@.len() >= old(acc).obstacles_to_add@.len(),
            final(acc).obstacles_to_add@.subrange(0, old(acc).obstacles_to_add@.len() as int)
                == old(acc).obstacles_to_add@,
            forall|j: int|
                old(acc).obstacles_to_add@.len() <= j < final(acc).obstacles_to_add@.len()
                    ==> crate::obstacles::obst_wf(#[trigger] final(acc).obstacles_to_add@[j]),
            final(acc).jerk == old(acc).jerk,
            accum_same_but_effects(*final(acc), *old(acc)),
    {
        self.time = fx_add(self.time, beat_dt);
        self.pulse = fx_mul(self.pulse, 975);
        let ghost evs0 = self.events@;
        let ghost tw = spec_fx_sub(self.time as int, self.warning_time as int);
        let ghost decayed = self.pulse as int;
        let ghost mut drained: int = 0;
        let ghost t1 = self.time as int;
        let ghost base = *self;
        while self.events.len() > 0 && fx_sub(self.time, self.warning_time) >= self.events[0].0
            invariant
                v2_wf(screen),
                0 <= drained <= evs0.len(),
                self.events@ == evs0.skip(drained),
                forall|k: int| 0 <= k < drained ==> spec_smoke_due(#[trigger] evs0[k], tw),
                tw == spec_fx_sub(self.time as int, self.warning_time as int),
                self.time == base.time && self.warning_time == base.warning_time
                    && self.show_time == base.show_time && self.leave_time == base.leave_time
                    && self.rad == base.rad && self.disp_amp == base.disp_amp && self.disp_freq
                    == base.disp_freq && self.disp_phase == base.disp_phase,
                t1 == self.time as int,
                smoke_wf(*self),
                forall|i: int| 0 <= i < evs0.len() ==> smoke_ev_wf((#[trigger] evs0[i]).1),
                (exists|k: int| 0 <= k < drained && spec_is_pulse((#[trigger] evs0[k]).1))
                    ==> self.pulse == FX_ONE,
                (forall|k: int| 0 <= k < drained ==> !spec_is_pulse((#[trigger] evs0[k]).1))
                    ==> self.pulse as int == decayed,
                acc.obstacles_to_add@.len() >= old(acc).obstacles_to_add@.len(),
                acc.obstacles_to_add@.subrange(0, old(acc).obstacles_to_add@.len() as int) == old(
                    acc).obstacles_to_add@,
                forall|j: int|
                    old(acc).obstacles_to_add@.len() <= j < acc.obstacles_to_add@.len()
                        ==> crate::obstacles::obst_wf(#[trigger] acc.obstacles_to_add@[j]),
                acc.jerk == old(acc).jerk,
                accum_same_but_effects(*acc, *old(acc)),
            decreases self.events@.len(),
        {
            let e = self.events[0];
            let ghost pre = acc.obstacles_to_add@;
            proof {
                assert(e == evs0[drained]);
            }
            self.employ(e.1, acc, screen);
            self.events.remove(0);
            proof {
                let cur = acc.obstacles_to_add@;
                assert forall|m: int| 0 <= m < pre.len() implies cur[m] == pre[m] by {
                    assert(cur.subrange(0, pre.len() as int)[m] == cur[m]);
                }
                assert(self.events@ =~= evs0.skip(drained + 1));
                assert(acc.obstacles_to_add@.subrange(0, old(acc).obstacles_to_add@.len() as int)
                    =~= old(acc).obstacles_to_add@);
                drained = drained + 1;
            }
        }
        proof {
            if drained < evs0.len() {
                assert(self.events@[0] == evs0.skip(drained)[0]);
            }
        }
        let mut i: usize = 0;
        let pos = self.trackpos(self.time, screen);
        let rad = self.rad;
        while i < self.spinners.len()
            invariant
                v2_wf(screen),
                v2_wf(pos),
                i <= self.spinners@.len(),
                self.events@ == evs0.skip(drained),
                0 <= drained <= evs0.len(),
                forall|k: int| 0 <= k < drained ==> spec_smoke_due(#[trigger] evs0[k], tw),
                drained < evs0.len() ==> !spec_smoke_due(evs0[drained], tw),
                tw == spec_fx_sub(self.time as int, self.warning_time as int),
                self.time == base.time && self.warning_time == base.warning_time
                    && self.show_time == base.show_time && self.leave_time == base.leave_time
                    && self.rad == base.rad && self.disp_amp == base.disp_amp && self.disp_freq
                    == base.disp_freq && self.disp_phase == base.disp_phase,
                t1 == self.time as int,
                smoke_wf(*self),
                (exists|k: int| 0 <= k < drained && spec_is_pulse((#[trigger] evs0[k]).1))
                    ==> self.pulse == FX_ONE,
                (forall|k: int| 0 <= k < drained ==> !spec_is_pulse((#[trigger] evs0[k]).1))
                    ==> self.pulse as int == decayed,
                acc.obstacles_to_add@.len() >= old(acc).obstacles_to_add@.len(),
                acc.obstacles_to_add@.subrange(0, old(acc).obstacles_to_add@.len() as int) == old(
                    acc).obstacles_to_add@,
                forall|j: int|
                    old(acc).obstacles_to_add@.len() <= j < acc.obstacles_to_add@.len()
                        ==> crate::obstacles::obst_wf(#[trigger] acc.obstacles_to_add@[j]),
                acc.jerk == old(acc).jerk,
                accum_same_but_effects(*acc, *old(acc)),
            decreases self.spinners@.len() - i,
        {
            let time = self.time;
            let ghost pre = acc.obstacles_to_add@;
            let mut sp = self.spinners.remove(i);
            let done = sp.run(time, pos, rad, acc);
            proof {
                let cur = acc.obstacles_to_add@;
                assert forall|m: int| 0 <= m < pre.len() implies cur[m] == pre[m] by {
                    assert(cur.subrange(0, pre.len() as int)[m] == cur[m]);
                }
                assert(acc.obstacles_to_add@.subrange(0, old(acc).obstacles_to_add@.len() as int)
                    =~= old(acc).obstacles_to_add@);
            }
            if !done {
                self.spinners.insert(i, sp);
                i += 1;
            }
        }
    }
}

impl PelletSpinner {
    /// Step the spinner at the hazard's current time and position: emit the
    /// next ring pellet when its staggered moment has come, and report
    /// whether the spinner is finished.
    pub fn run(&mut self, time: Fx, cur_pos: Vec2, cur_rad: Fx, acc: &mut UpdateAccumulator)
        -> (done: bool)
        requires
            v2_wf(cur_pos),
            old(self).max <= 1000000,
            0 <= old(self).rad <= crate::fx::FX_MAX,
        ensures
            forall|j: int|
                old(acc).obstacles_to_add@.len() <= j < final(acc).obstacles_to_add@.len()
                    ==> crate::obstacles::obst_wf(#[trigger] final(acc).obstacles_to_add@[j]),
            ({
                let fires = time >= spec_fx_add(
                    old(self).start_time as int,
                    spec_fx_mul(old(self).period as int, spec_step_fx(old(self).count as int)),
                ) && old(self).count < old(self).max;
                (fires ==> final(self).count == old(self).count + 1 && final(
                acc).obstacles_to_add@ == old(acc).obstacles_to_add@.push(
                    spec_spinner_pellet(*final(self), cur_pos, cur_rad),
                )) && (!fires ==> *final(self) == *old(self) && final(acc).obstacles_to_add@
                    == old(acc).obstacles_to_add@)
            }),
            final(self).max == old(self).max && final(self).phase == old(self).phase && final(
            self).period == old(self).period && final(self).start_time == old(self).start_time
                && final(self).rad == old(self).rad && final(self).speed == old(self).speed,
            done == (final(self).count >= final(self).max),
            final(acc).obstacles_to_add@.subrange(0, old(acc).obstacles_to_add@.len() as int)
                == old(acc).obstacles_to_add@,
            final(acc).jerk == old(acc).jerk,
            final(acc).shake == old(acc).shake,
            accum_same_but_effects(*final(acc), *old(acc)),
    {
        if time >= fx_add(self.start_time, fx_mul(self.period, crate::spawner::step_fx(self.count))) && self.count < self.max {
            self.count = self.count + 1;
            let a = ring_phase(self.count, self.max, self.phase);
            let circ = Vec2 { x: fx_cos(a), y: fx_sin(a) };
            let p = Pellet {
                pos: cur_pos.add(circ.scale(fx_sub(cur_rad, self.rad))),
                vel: circ.scale(self.speed),
                rad: self.rad,
            };
            acc.obst(Obstacle::Pellet(p));
            proof {
                assert(acc.obstacles_to_add@.subrange(0, old(acc).obstacles_to_add@.len() as int)
                    =~= old(acc).obstacles_to_add@);
                assert(acc.obstacles_to_add@.last() == spec_spinner_pellet(
                    *self, cur_pos, cur_rad));
            }
        }
        self.count >= self.max
    }
}

} // verus!
