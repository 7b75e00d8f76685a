//! The closed set of hazard variants and the handle that owns one.
//!
//! The engine dispatches over this enum for update, collision, lifecycle and
//! death behavior; choreography builds one hazard and clones it many times,
//! so `Clone` here is written by hand and proved to preserve the value.

use crate::fx::Fx;
use crate::geom::Rot;
use crate::utils::copy_vec;
use crate::vec2::Vec2;
use vstd::prelude::*;

verus! {

/// A child spawn behavior: what a periodic emitter, a bomb's death, or a
/// fired choreography event creates, given the step and position arguments.
#[derive(Clone, Copy, PartialEq, Eq, Structural, Debug)]
pub enum Spawner {
    /// Spawn one pellet at the argument position, velocity and radius.
    Pellet,
    /// A trail of rotatable rectangles placed linearly by step index.
    RectTrail {
        rect_life: Fx,
        warning_time: Fx,
        grow_time: Fx,
        start: Vec2,
        delta: Vec2,
        scale: Vec2,
        rot: Rot,
    },
    /// A bomb easing in from the right screen edge at a random height.
    BombSide { pellets: usize, pellet_vel: Fx, pellet_rad: Fx, bomb_life: Fx },
    /// A horizontal laser across the screen at a random height.
    HorLaser { warning_time: Fx, show_time: Fx, thickness: Fx, jerk: Fx },
    /// A vertical laser across the screen at a random horizontal position.
    VertLaser { warning_time: Fx, show_time: Fx, thickness: Fx, jerk: Fx },
    /// A coin flip between the horizontal and the vertical laser.
    RandLaser { warning_time: Fx, show_time: Fx, thickness: Fx, jerk: Fx },
}

/// A projectile moving in a straight line, dying off-screen.
#[derive(Clone, Copy, PartialEq, Eq, Structural, Debug)]
pub struct Pellet {
    pub pos: Vec2,
    pub vel: Vec2,
    pub rad: Fx,
}

/// A detonator easing toward a target, spawning a ring of pellets on death.
#[derive(Clone, Copy, PartialEq, Eq, Structural, Debug)]
pub struct Bomb {
    pub start: Vec2,
    pub target: Vec2,
    pub time: Fx,
    pub life: Fx,
    pub pellets: usize,
    pub pellet_vel: Fx,
    pub pellet_rad: Fx,
    pub snappiness: Fx,
    pub rad: Fx,
    pub spawner: Spawner,
}

/// A beam whose thickness ramps in and out around its dangerous phase.
#[derive(Clone, Copy, PartialEq, Eq, Structural, Debug)]
pub struct GrowLaser {
    pub start: Vec2,
    pub end: Vec2,
    pub thickness: Fx,
    pub warning_time: Fx,
    pub show_time: Fx,
    pub current_time: Fx,
    pub grow_time: Fx,
    pub shown: bool,
    pub jerk: Vec2,
    pub fade_in: Fx,
    pub fade_opacity: Fx,
}

/// A beam whose endpoint slams from the start toward the end.
#[derive(Clone, Copy, PartialEq, Eq, Structural, Debug)]
pub struct SlamLaser {
    pub start: Vec2,
    pub end: Vec2,
    pub thickness: Fx,
    pub warning_time: Fx,
    pub show_time: Fx,
    pub current_time: Fx,
    pub leave_time: Fx,
    pub anticipation: Fx,
    pub shown: bool,
    pub jerk: Vec2,
    pub shake: Fx,
}

/// Invokes a child spawner once per interval of elapsed beats, looping to
/// catch up after lag, until a configured number of steps.
#[derive(Clone, Copy, PartialEq, Eq, Structural, Debug)]
pub struct Periodic {
    pub modifier: Spawner,
    pub time_mod: Fx,
    pub time_div: usize,
    pub interval: Fx,
    pub max_steps: usize,
}

/// A rectangle at a fixed rotation with oversize-then-settle easing.
#[derive(Clone, Copy, PartialEq, Eq, Structural, Debug)]
pub struct RotatableRect {
    pub center: Vec2,
    pub size: Vec2,
    pub rot: Rot,
    pub warning_time: Fx,
    pub show_time: Fx,
    pub current_time: Fx,
    pub grow_time: Fx,
}

/// A rectangle spinning at a configured rate of turns per beat.
#[derive(Clone, Copy, PartialEq, Eq, Structural, Debug)]
pub struct RotatingRect {
    pub center: Vec2,
    pub size: Vec2,
    pub rot: Fx,
    pub warning_time: Fx,
    pub show_time: Fx,
    pub current_time: Fx,
    pub grow_time: Fx,
    pub rpb: Fx,
}

/// A typed sub-event of the procedural-path hazard.
#[derive(Clone, Copy, PartialEq, Eq, Structural, Debug)]
pub enum SmokeEvent {
    /// Flash and shake with the default strength.
    Pulse,
    /// Flash and shake with the given strength.
    SPulse(Fx),
    /// A ring of slamming lasers from the hazard's position.
    Lasers { count: usize, phase: Fx },
    /// A ring of pellets from the hazard's position.
    Pellets { count: usize, speed: Fx, rad: Fx, phase: Fx },
    /// A spinner staggering pellet emission over many beats.
    Spinner { count: usize, speed: Fx, rad: Fx, phase: Fx, ppb: Fx },
}

/// A staggered ring emitter owned by the procedural-path hazard.
#[derive(Clone, Copy, PartialEq, Eq, Structural, Debug)]
pub struct PelletSpinner {
    pub count: usize,
    pub max: usize,
    pub phase: Fx,
    pub period: Fx,
    pub start_time: Fx,
    pub rad: Fx,
    pub speed: Fx,
}

/// A hazard whose position is a procedural function of elapsed time, with a
/// mini-scheduler of typed sub-events local to the hazard.
#[derive(Debug)]
pub struct Smoke {
    pub disp_amp: Fx,
    pub disp_freq: Fx,
    pub time: Fx,
    pub rad: Fx,
    pub pulse: Fx,
    pub warning_time: Fx,
    pub show_time: Fx,
    pub leave_time: Fx,
    pub disp_phase: Fx,
    pub events: Vec<(Fx, SmokeEvent)>,
    pub spinners: Vec<PelletSpinner>,
}

/// A cellular-automaton hazard: a 2D boolean grid evolved by configurable
/// Moore-neighborhood birth/survival rules, spawning one rectangle per live
/// cell each tick.
#[derive(Debug)]
pub struct GolGrid {
    pub width: usize,
    pub height: usize,
    pub cells: Vec<bool>,
    pub born: [bool; 9],
    pub stay: [bool; 9],
    pub ticks: usize,
    pub max: usize,
    pub period: Fx,
    pub time: Fx,
    pub warning_time: Fx,
    pub first_warning_time: Fx,
}

/// A hazard: one of the closed set of variants.
#[derive(Debug)]
pub enum Obstacle {
    Pellet(Pellet),
    Bomb(Bomb),
    GrowLaser(GrowLaser),
    SlamLaser(SlamLaser),
    Periodic(Periodic),
    RotatableRect(RotatableRect),
    RotatingRect(RotatingRect),
    Smoke(Smoke),
    GolGrid(GolGrid),
}

/// A hazard handle: the variant plus a manual-removal flag.
#[derive(Debug)]
pub struct Obst {
    pub obstacle: Obstacle,
    pub marked_for_removal: bool,
}

impl Obst {
    /// Wrap a hazard, not yet flagged for removal.
    pub fn new(obstacle: Obstacle) -> (r: Obst)
        ensures
            r.obstacle == obstacle,
            !r.marked_for_removal,
    {
        Obst { obstacle, marked_for_removal: false }
    }
}

/// Structural equivalence of procedural-path hazards: equal fields, with
/// the event and spinner lists compared by contents.
pub open spec fn smoke_eqv(a: Smoke, b: Smoke) -> bool {
    a.disp_amp == b.disp_amp && a.disp_freq == b.disp_freq && a.time == b.time && a.rad == b.rad
        && a.pulse == b.pulse && a.warning_time == b.warning_time && a.show_time == b.show_time
        && a.leave_time == b.leave_time && a.disp_phase == b.disp_phase && a.events@ == b.events@
        && a.spinners@ == b.spinners@
}

/// Structural equivalence of cellular-automaton hazards: equal fields, with
/// the cell list compared by contents.
pub open spec fn gol_eqv(a: GolGrid, b: GolGrid) -> bool {
    a.width == b.width && a.height == b.height && a.cells@ == b.cells@ && a.born == b.born
        && a.stay == b.stay && a.ticks == b.ticks && a.max == b.max && a.period == b.period
        && a.time == b.time && a.warning_time == b.warning_time
        && a.first_warning_time == b.first_warning_time
}

/// Structural equivalence of hazards: the same variant with equivalent data.
pub open spec fn obstacle_eqv(a: Obstacle, b: Obstacle) -> bool {
    match (a, b) {
        (Obstacle::Pellet(x), Obstacle::Pellet(y)) => x == y,
        (Obstacle::Bomb(x), Obstacle::Bomb(y)) => x == y,
        (Obstacle::GrowLaser(x), Obstacle::GrowLaser(y)) => x == y,
        (Obstacle::SlamLaser(x), Obstacle::SlamLaser(y)) => x == y,
        (Obstacle::Periodic(x), Obstacle::Periodic(y)) => x == y,
        (Obstacle::RotatableRect(x), Obstacle::RotatableRect(y)) => x == y,
        (Obstacle::RotatingRect(x), Obstacle::RotatingRect(y)) => x == y,
        (Obstacle::Smoke(x), Obstacle::Smoke(y)) => smoke_eqv(x, y),
        (Obstacle::GolGrid(x), Obstacle::GolGrid(y)) => gol_eqv(x, y),
        _ => false,
    }
}

/// Structural equivalence of hazard handles.
pub open spec fn obst_eqv(a: Obst, b: Obst) -> bool {
    obstacle_eqv(a.obstacle, b.obstacle) && a.marked_for_removal == b.marked_for_removal
}

/// Structural equivalence of two hazard handle lists, elementwise.
pub open spec fn obsts_eqv(a: Seq<Obst>, b: Seq<Obst>) -> bool {
    a.len() == b.len() && forall|i: int| 0 <= i < a.len() ==> obst_eqv(a[i], b[i])
}

impl Clone for Smoke {
    /// Deep-clones the hazard; the copy is structurally equivalent.
    fn clone(&self) -> (res: Self)
        ensures
            smoke_eqv(res, *self),
    {
        let events = copy_vec(&self.events);
        let spinners = copy_vec(&self.spinners);
        Smoke {
            disp_amp: self.disp_amp,
            disp_freq: self.disp_freq,
            time: self.time,
            rad: self.rad,
            pulse: self.pulse,
            warning_time: self.warning_time,
            show_time: self.show_time,
            leave_time: self.leave_time,
            disp_phase: self.disp_phase,
            events,
            spinners,
        }
    }
}

impl Clone for GolGrid {
    /// Deep-clones the grid; the copy is structurally equivalent.
    fn clone(&self) -> (res: Self)
        ensures
            gol_eqv(res, *self),
    {
        let cells = copy_vec(&self.cells);
        GolGrid {
            width: self.width,
            height: self.height,
            cells,
            born: self.born,
            stay: self.stay,
            ticks: self.ticks,
            max: self.max,
            period: self.period,
            time: self.time,
            warning_time: self.warning_time,
            first_warning_time: self.first_warning_time,
        }
    }
}

impl Clone for Obstacle {
    /// Deep-clones the hazard; the copy is structurally equivalent.
    fn clone(&self) -> (res: Self)
        ensures
            obstacle_eqv(res, *self),
    {
        match self {
            Obstacle::Pellet(o) => Obstacle::Pellet(*o),
            Obstacle::Bomb(o) => Obstacle::Bomb(*o),
            Obstacle::GrowLaser(o) => Obstacle::GrowLaser(*o),
            Obstacle::SlamLaser(o) => Obstacle::SlamLaser(*o),
            Obstacle::Periodic(o) => Obstacle::Periodic(*o),
            Obstacle::RotatableRect(o) => Obstacle::RotatableRect(*o),
            Obstacle::RotatingRect(o) => Obstacle::RotatingRect(*o),
            Obstacle::Smoke(o) => Obstacle::Smoke(o.clone()),
            Obstacle::GolGrid(o) => Obstacle::GolGrid(o.clone()),
        }
    }
}

impl Clone for Obst {
    /// Deep-clones the handle; the copy is structurally equivalent.
    fn clone(&self) -> (res: Self)
        ensures
            obst_eqv(res, *self),
    {
        Obst { obstacle: self.obstacle.clone(), marked_for_removal: self.marked_for_removal }
    }
}

/// Deep-clone a list of hazard handles; the copy is elementwise equivalent.
pub fn clone_obsts(v: &Vec<Obst>) -> (res: Vec<Obst>)
    ensures
        obsts_eqv(res@, v@),
{
    let mut res: Vec<Obst> = Vec::new();
    let mut i: usize = 0;
    while i < v.len()
        invariant
            i <= v@.len(),
            res@.len() == i,
            forall|k: int| 0 <= k < i ==> obst_eqv(res@[k], v@[k]),
        decreases v@.len() - i,
    {
        res.push(v[i].clone());
        i += 1;
    }
    res
}


/// A well-formed hazard: the variant's own well-formedness condition.
pub open spec fn obstacle_wf(o: Obstacle) -> bool {
    match o {
        Obstacle::Pellet(p) => crate::pellet::pellet_wf(p),
        Obstacle::Bomb(b) => crate::bomb::bomb_wf(b),
        Obstacle::GrowLaser(l) => crate::lasers::glaser_wf(l),
        Obstacle::SlamLaser(l) => crate::lasers::slaser_wf(l),
        Obstacle::Periodic(p) => crate::periodic::periodic_wf(p),
        Obstacle::RotatableRect(r) => crate::rects::rrect_wf(r),
        Obstacle::RotatingRect(r) => crate::rects::spinrect_wf(r),
        Obstacle::Smoke(s) => crate::smoke::smoke_wf(s),
        Obstacle::GolGrid(g) => crate::gol::gol_wf(g),
    }
}

/// A well-formed hazard handle.
pub open spec fn obst_wf(o: Obst) -> bool {
    obstacle_wf(o.obstacle)
}

/// Whether the hazard, in its current state, touches the player.
pub open spec fn spec_obstacle_collides(o: Obstacle, p: crate::player::Player, screen: Vec2)
    -> bool {
    match o {
        Obstacle::Pellet(x) => crate::pellet::spec_pellet_collides(x, p),
        Obstacle::Bomb(x) => crate::bomb::spec_bomb_collides(x, p),
        Obstacle::GrowLaser(x) => crate::lasers::spec_glaser_collides(x, p),
        Obstacle::SlamLaser(x) => crate::lasers::spec_slaser_collides(x, p),
        Obstacle::Periodic(x) => false,
        Obstacle::RotatableRect(x) => crate::rects::spec_rrect_collides(x, p),
        Obstacle::RotatingRect(x) => crate::rects::spec_spinrect_collides(x, p),
        Obstacle::Smoke(x) => crate::smoke::spec_smoke_collides(x, screen, p),
        Obstacle::GolGrid(x) => false,
    }
}

/// Whether the hazard's lifetime is over and it should be removed.
pub open spec fn spec_obstacle_dead(o: Obstacle, screen: Vec2) -> bool {
    match o {
        Obstacle::Pellet(x) => crate::pellet::spec_pellet_dead(x, screen),
        Obstacle::Bomb(x) => x.time >= x.life,
        Obstacle::GrowLaser(x) => x.current_time as int >= crate::fx::spec_fx_add(
            x.warning_time as int, x.show_time as int),
        Obstacle::SlamLaser(x) => x.current_time as int >= crate::fx::spec_fx_add(
            x.warning_time as int, x.show_time as int),
        Obstacle::Periodic(x) => x.time_div >= x.max_steps,
        Obstacle::RotatableRect(x) => x.current_time as int >= crate::fx::spec_fx_add(
            x.show_time as int, x.warning_time as int),
        Obstacle::RotatingRect(x) => x.current_time as int >= crate::fx::spec_fx_add(
            x.show_time as int, x.warning_time as int),
        Obstacle::Smoke(x) => x.time as int > crate::fx::spec_fx_add(
            x.warning_time as int, x.show_time as int),
        Obstacle::GolGrid(x) => x.ticks >= x.max,
    }
}

/// How one update step relates a hazard's state to its successor: exact
/// for every variant (the procedural hazard's drain count is the unique
/// maximal due front run of its sub-event queue).
pub open spec fn spec_obstacle_stepped(o0: Obstacle, o1: Obstacle, bdt: int) -> bool {
    match o0 {
        Obstacle::Pellet(o) => o1 == Obstacle::Pellet(crate::pellet::spec_pellet_step(o, bdt)),
        Obstacle::Bomb(o) => o1 == Obstacle::Bomb(
            Bomb { time: crate::fx::spec_fx_add(o.time as int, bdt) as i64, ..o },
        ),
        Obstacle::GrowLaser(o) => o1 == Obstacle::GrowLaser(
            crate::lasers::spec_glaser_step(o, bdt),
        ),
        Obstacle::SlamLaser(o) => o1 == Obstacle::SlamLaser(
            crate::lasers::spec_slaser_step(o, bdt),
        ),
        Obstacle::Periodic(o) => o1 matches Obstacle::Periodic(p1) && ({
            let t0 = crate::fx::spec_fx_add(o.time_mod as int, bdt);
            let iv = o.interval as int;
            let k = crate::periodic::spec_fire_count(t0, iv);
            p1.time_mod as int == crate::periodic::spec_fire_rest(t0, iv) && p1.time_div as int
                == crate::utils::spec_step_inc(o.time_div as int, k) && p1.modifier == o.modifier
                && p1.interval == o.interval && p1.max_steps == o.max_steps
        }),
        Obstacle::RotatableRect(o) => o1 == Obstacle::RotatableRect(
            RotatableRect {
                current_time: crate::fx::spec_fx_add(o.current_time as int, bdt) as i64,
                ..o
            },
        ),
        Obstacle::RotatingRect(o) => o1 == Obstacle::RotatingRect(
            RotatingRect {
                current_time: crate::fx::spec_fx_add(o.current_time as int, bdt) as i64,
                ..o
            },
        ),
        Obstacle::Smoke(o) => o1 matches Obstacle::Smoke(s1) && ({
            let t1 = crate::fx::spec_fx_add(o.time as int, bdt);
            let tw = crate::fx::spec_fx_sub(t1, o.warning_time as int);
            s1.time as int == t1 && s1.warning_time == o.warning_time && s1.show_time
                == o.show_time && s1.leave_time == o.leave_time && s1.rad == o.rad && s1.disp_amp
                == o.disp_amp && s1.disp_freq == o.disp_freq && s1.disp_phase == o.disp_phase && (
            exists|n: int|
                {
                    &&& 0 <= n <= o.events@.len()
                    &&& s1.events@ == o.events@.skip(n)
                    &&& (forall|k: int|
                        0 <= k < n ==> crate::smoke::spec_smoke_due(#[trigger] o.events@[k], tw))
                    &&& (n < o.events@.len() ==> !crate::smoke::spec_smoke_due(o.events@[n], tw))
                })
        }),
        Obstacle::GolGrid(o) => o1 matches Obstacle::GolGrid(g1) && ({
            let fires = o.ticks == 0 || crate::fx::spec_fx_add(o.time as int, bdt)
                > crate::fx::spec_fx_sub(
                crate::fx::spec_fx_add(
                    crate::fx::spec_fx_mul(
                        o.period as int, crate::spawner::spec_step_fx(o.ticks as int)),
                    o.first_warning_time as int,
                ),
                o.warning_time as int,
            );
            g1.time as int == crate::fx::spec_fx_add(o.time as int, bdt) && g1.width == o.width
                && g1.height == o.height && g1.born == o.born && g1.stay == o.stay && g1.max
                == o.max && g1.period == o.period && g1.warning_time == o.warning_time
                && g1.first_warning_time == o.first_warning_time && (fires ==> g1.ticks as int
                == crate::utils::spec_step_inc(o.ticks as int, 1) && (forall|k: int|
                0 <= k < o.cells@.len() ==> #[trigger] g1.cells@[k] == crate::gol::spec_gol_next(
                    o, k % (o.width as int), k / (o.width as int)))) && (!fires ==> g1.ticks
                == o.ticks && g1.cells@ == o.cells@)
        }),
    }
}

impl Obstacle {
    /// Advance the hazard by one frame: its own timers in beats, staging
    /// any side effects (spawns, camera impulses) into the accumulator.
    pub fn update(
        &mut self, acc: &mut crate::accum::UpdateAccumulator, screen: Vec2, frame_dt: Fx,
        beat_dt: Fx,
    )
        requires
            obstacle_wf(*old(self)),
            crate::vec2::v2_wf(screen),
            screen.x >= 0,
            screen.y >= 0,
            beat_dt >= 0,
        ensures
            obstacle_wf(*final(self)),
            final(acc).obstacles_to_add@.len() >= old(acc).obstacles_to_add@.len(),
            final(acc).obstacles_to_add@.subrange(0, old(acc).obstacles_to_add@.len() as int)
                == old(acc).obstacles_to_add@,
            forall|j: int|
                old(acc).obstacles_to_add@.len() <= j < final(acc).obstacles_to_add@.len()
                    ==> obst_wf(#[trigger] final(acc).obstacles_to_add@[j]),
            crate::accum::accum_same_but_effects(*final(acc), *old(acc)),
            spec_obstacle_stepped(*old(self), *final(self), beat_dt as int),
            (match *old(self) {
                Obstacle::Pellet(o) => *final(self) == Obstacle::Pellet(
                    crate::pellet::spec_pellet_step(o, beat_dt as int),
                ) && *final(acc) == *old(acc),
                Obstacle::Bomb(o) => *final(self) == Obstacle::Bomb(
                    Bomb {
                        time: crate::fx::spec_fx_add(o.time as int, beat_dt as int) as i64,
                        ..o
                    },
                ) && *final(acc) == *old(acc),
                Obstacle::GrowLaser(o) => *final(self) == Obstacle::GrowLaser(
                    crate::lasers::spec_glaser_step(o, beat_dt as int),
                ) && final(acc).obstacles_to_add@ == old(acc).obstacles_to_add@ && final(
                acc).shake == old(acc).shake && (crate::lasers::spec_glaser_fires(
                    o, beat_dt as int) ==> final(acc).jerk.x as int == crate::fx::spec_fx_add(
                    old(acc).jerk.x as int, o.jerk.x as int) && final(acc).jerk.y as int
                    == crate::fx::spec_fx_add(old(acc).jerk.y as int, o.jerk.y as int)) && (
                !crate::lasers::spec_glaser_fires(o, beat_dt as int) ==> final(acc).jerk == old(
                    acc).jerk),
                Obstacle::SlamLaser(o) => *final(self) == Obstacle::SlamLaser(
                    crate::lasers::spec_slaser_step(o, beat_dt as int),
                ) && final(acc).obstacles_to_add@ == old(acc).obstacles_to_add@ && (
                crate::lasers::spec_slaser_fires(o, beat_dt as int) ==> final(
                    acc).jerk.x as int == crate::fx::spec_fx_add(
                    old(acc).jerk.x as int, o.jerk.x as int) && final(acc).jerk.y as int
                    == crate::fx::spec_fx_add(old(acc).jerk.y as int, o.jerk.y as int) && final(
                acc).shake as int == crate::fx::spec_fx_add(
                    old(acc).shake as int, o.shake as int)) && (!crate::lasers::spec_slaser_fires(
                    o, beat_dt as int) ==> final(acc).jerk == old(acc).jerk && final(acc).shake
                    == old(acc).shake),
                Obstacle::Periodic(o) => *final(self) matches Obstacle::Periodic(p1) && ({
                    let t0 = crate::fx::spec_fx_add(o.time_mod as int, beat_dt as int);
                    let iv = o.interval as int;
                    let k = crate::periodic::spec_fire_count(t0, iv);
                    p1.time_mod as int == crate::periodic::spec_fire_rest(t0, iv)
                        && p1.time_div as int == crate::utils::spec_step_inc(o.time_div as int, k)
                        && p1.modifier == o.modifier && p1.interval == o.interval && p1.max_steps
                        == o.max_steps && final(acc).jerk == old(acc).jerk && final(acc).shake
                        == old(acc).shake && final(acc).obstacles_to_add@.len() == old(
                        acc).obstacles_to_add@.len() + k && (forall|j: int|
                        0 <= j < k ==> crate::spawner::spec_spawned(
                            o.modifier,
                            crate::periodic::spec_periodic_args(
                                crate::utils::spec_step_inc(o.time_div as int, j), old(acc).time),
                            screen,
                            #[trigger] final(acc).obstacles_to_add@[old(
                                acc).obstacles_to_add@.len() + j],
                        ))
                }),
                Obstacle::RotatableRect(o) => *final(self) == Obstacle::RotatableRect(
                    RotatableRect {
                        current_time: crate::fx::spec_fx_add(
                            o.current_time as int, beat_dt as int) as i64,
                        ..o
                    },
                ) && *final(acc) == *old(acc),
                Obstacle::RotatingRect(o) => *final(self) == Obstacle::RotatingRect(
                    RotatingRect {
                        current_time: crate::fx::spec_fx_add(
                            o.current_time as int, beat_dt as int) as i64,
                        ..o
                    },
                ) && *final(acc) == *old(acc),
                Obstacle::Smoke(o) => *final(self) matches Obstacle::Smoke(s1) && ({
                    let t1 = crate::fx::spec_fx_add(o.time as int, beat_dt as int);
                    let tw = crate::fx::spec_fx_sub(t1, o.warning_time as int);
                    s1.time as int == t1 && s1.warning_time == o.warning_time && s1.show_time
                        == o.show_time && s1.leave_time == o.leave_time && s1.rad == o.rad
                        && s1.disp_amp == o.disp_amp && s1.disp_freq == o.disp_freq
                        && s1.disp_phase == o.disp_phase && final(acc).jerk == old(acc).jerk && (
                    exists|n: int|
                        {
                            &&& 0 <= n <= o.events@.len()
                            &&& s1.events@ == o.events@.skip(n)
                            &&& (forall|k: int|
                                0 <= k < n ==> crate::smoke::spec_smoke_due(
                                    #[trigger] o.events@[k], tw))
                            &&& (n < o.events@.len() ==> !crate::smoke::spec_smoke_due(
                                o.events@[n], tw))
                            &&& ((exists|k: int|
                                0 <= k < n && crate::smoke::spec_is_pulse(
                                    (#[trigger] o.events@[k]).1)) ==> s1.pulse == 1000)
                            &&& ((forall|k: int|
                                0 <= k < n ==> !crate::smoke::spec_is_pulse(
                                    (#[trigger] o.events@[k]).1)) ==> s1.pulse as int
                                == crate::fx::spec_fx_mul(o.pulse as int, 975))
                        })
                }),
                Obstacle::GolGrid(o) => *final(self) matches Obstacle::GolGrid(g1) && ({
                    let fires = o.ticks == 0 || crate::fx::spec_fx_add(
                        o.time as int, beat_dt as int) > crate::fx::spec_fx_sub(
                        crate::fx::spec_fx_add(
                            crate::fx::spec_fx_mul(
                                o.period as int, crate::spawner::spec_step_fx(o.ticks as int)),
                            o.first_warning_time as int,
                        ),
                        o.warning_time as int,
                    );
                    let warning = if o.ticks == 0 {
                        o.first_warning_time
                    } else {
                        o.warning_time
                    };
                    final(acc).jerk == old(acc).jerk && final(acc).shake == old(acc).shake
                        && g1.time as int == crate::fx::spec_fx_add(o.time as int, beat_dt as int)
                        && g1.width == o.width && g1.height == o.height && g1.born == o.born
                        && g1.stay == o.stay && g1.max == o.max && g1.period == o.period
                        && g1.warning_time == o.warning_time && g1.first_warning_time
                        == o.first_warning_time && (fires ==> g1.ticks as int
                        == crate::utils::spec_step_inc(o.ticks as int, 1) && (forall|k: int|
                        0 <= k < o.cells@.len() ==> #[trigger] g1.cells@[k]
                            == crate::gol::spec_gol_next(
                            o, k % (o.width as int), k / (o.width as int))) && final(
                    acc).obstacles_to_add@.len() == old(acc).obstacles_to_add@.len()
                        + crate::gol::spec_live_count(g1.cells@, g1.cells@.len() as int) && (
                    forall|j: int|
                        old(acc).obstacles_to_add@.len() <= j < final(acc).obstacles_to_add@.len()
                            ==> crate::gol::spec_gol_spawned(
                            g1, screen, warning, #[trigger] final(acc).obstacles_to_add@[j]))) && (
                    !fires
                        ==> g1.ticks == o.ticks && g1.cells@ == o.cells@ && final(
                    acc).obstacles_to_add@ == old(acc).obstacles_to_add@)
                }),
            }),
    {
        let ghost len0 = acc.obstacles_to_add@.len() as int;
        match self {
            Obstacle::Pellet(o) => o.update(beat_dt),
            Obstacle::Bomb(o) => o.update(beat_dt),
            Obstacle::GrowLaser(o) => o.update(acc, beat_dt),
            Obstacle::SlamLaser(o) => o.update(acc, beat_dt),
            Obstacle::Periodic(o) => o.update(acc, screen, beat_dt),
            Obstacle::RotatableRect(o) => o.update(beat_dt),
            Obstacle::RotatingRect(o) => o.update(beat_dt),
            Obstacle::Smoke(o) => o.update(acc, screen, beat_dt),
            Obstacle::GolGrid(o) => o.update(acc, screen, beat_dt),
        }
        proof {
            assert(acc.obstacles_to_add@.subrange(0, len0) =~= old(acc).obstacles_to_add@);
        }
    }

    /// Whether the hazard, in its current state, touches the player.
    pub fn collides(&self, player: crate::player::Player, screen: Vec2) -> (res: bool)
        requires
            obstacle_wf(*self),
            crate::player::player_wf(player),
            crate::vec2::v2_wf(screen),
        ensures
            res == spec_obstacle_collides(*self, player, screen),
    {
        match self {
            Obstacle::Pellet(o) => o.collides(player),
            Obstacle::Bomb(o) => o.collides(player),
            Obstacle::GrowLaser(o) => o.collides(player),
            Obstacle::SlamLaser(o) => o.collides(player),
            Obstacle::Periodic(o) => o.collides(player),
            Obstacle::RotatableRect(o) => o.collides(player),
            Obstacle::RotatingRect(o) => o.collides(player),
            Obstacle::Smoke(o) => o.collides(player, screen),
            Obstacle::GolGrid(o) => o.collides(player),
        }
    }

    /// Whether the hazard's lifetime is over.
    pub fn should_kill(&self, screen: Vec2) -> (res: bool)
        requires
            obstacle_wf(*self),
            crate::vec2::v2_wf(screen),
        ensures
            res == spec_obstacle_dead(*self, screen),
    {
        match self {
            Obstacle::Pellet(o) => o.should_kill(screen),
            Obstacle::Bomb(o) => o.should_kill(),
            Obstacle::GrowLaser(o) => o.should_kill(),
            Obstacle::SlamLaser(o) => o.should_kill(),
            Obstacle::Periodic(o) => o.should_kill(),
            Obstacle::RotatableRect(o) => o.should_kill(),
            Obstacle::RotatingRect(o) => o.should_kill(),
            Obstacle::Smoke(o) => o.should_kill(),
            Obstacle::GolGrid(o) => o.should_kill(),
        }
    }

    /// The terminal action before the hazard is dropped: a bomb detonates
    /// into its ring; every other variant does nothing.
    pub fn kill(&self, acc: &mut crate::accum::UpdateAccumulator, screen: Vec2)
        requires
            obstacle_wf(*self),
            crate::vec2::v2_wf(screen),
        ensures
            final(acc).obstacles_to_add@.len() >= old(acc).obstacles_to_add@.len(),
            final(acc).obstacles_to_add@.subrange(0, old(acc).obstacles_to_add@.len() as int)
                == old(acc).obstacles_to_add@,
            forall|j: int|
                old(acc).obstacles_to_add@.len() <= j < final(acc).obstacles_to_add@.len()
                    ==> obst_wf(#[trigger] final(acc).obstacles_to_add@[j]),
            crate::accum::accum_same_but_obsts(*final(acc), *old(acc)),
            !(*self is Bomb) ==> *final(acc) == *old(acc),
            (match *self {
                Obstacle::Bomb(b) => final(acc).obstacles_to_add@.len() == old(
                    acc).obstacles_to_add@.len() + b.pellets as int && (forall|j: int|
                    0 <= j < b.pellets as int ==> crate::spawner::spec_spawned(
                        b.spawner,
                        crate::bomb::spec_ring_args(b, j, old(acc).time),
                        screen,
                        #[trigger] final(acc).obstacles_to_add@[old(acc).obstacles_to_add@.len()
                            + j],
                    )),
                _ => true,
            }),
    {
        match self {
            Obstacle::Bomb(o) => o.kill(acc, screen),
            _ => {
                proof {
                    assert(acc.obstacles_to_add@.subrange(
                        0, old(acc).obstacles_to_add@.len() as int) =~= old(
                        acc).obstacles_to_add@);
                }
            },
        }
    }
}

} // verus!
