//! Running a child spawner: the closed set of spawn behaviors used by
//! periodic emitters, bomb deaths, and fired choreography events.

use crate::accum::{accum_same_but_obsts, ModifyArgs, UpdateAccumulator};
use crate::fx::{clip, fx_sub, fx_wf, spec_fx_add, spec_fx_div, spec_fx_mul, spec_fx_sub, Fx,
    FX_MAX, FX_ONE};
use crate::obstacles::{Bomb, GrowLaser, Obst, Obstacle, Pellet, RotatableRect, Spawner};
use crate::rng::rand_fx;
use crate::vec2::{v2_wf, Vec2};
use vstd::prelude::*;

verus! {

/// A well-formed spawner: windows positive where they are divided by,
/// magnitudes in fixed-point range, pellet counts bounded.
pub open spec fn spawner_wf(s: Spawner) -> bool {
    match s {
        Spawner::Pellet => true,
        Spawner::RectTrail { rect_life, warning_time, grow_time, start, delta, scale, rot } => {
            grow_time > 0 && v2_wf(start) && v2_wf(delta) && v2_wf(scale) && scale.x >= 0
                && scale.y >= 0 && crate::geom::rot_wf(rot)
        },
        Spawner::BombSide { pellets, pellet_vel, pellet_rad, bomb_life } => {
            bomb_life > 0 && pellets <= 1000000 && 0 <= pellet_rad <= crate::fx::FX_MAX
        },
        Spawner::HorLaser { warning_time, show_time, thickness, jerk } => fx_wf(jerk as int)
            && fx_wf(thickness as int),
        Spawner::VertLaser { warning_time, show_time, thickness, jerk } => fx_wf(jerk as int)
            && fx_wf(thickness as int),
        Spawner::RandLaser { warning_time, show_time, thickness, jerk } => fx_wf(jerk as int)
            && fx_wf(thickness as int),
    }
}

/// The step index as a saturating fixed-point value.
pub open spec fn spec_step_fx(step: int) -> int {
    clip(step * (FX_ONE as int))
}

/// The step index as a saturating fixed-point value.
pub fn step_fx(step: usize) -> (r: Fx)
    ensures
        r == spec_step_fx(step as int),
{
    if step as u64 >= 72057594037928 {
        proof {
            assert(step * 1000 >= 72057594037928000) by (nonlinear_arith)
                requires
                    step >= 72057594037928int,
            ;
        }
        FX_MAX
    } else {
        (step as i64) * 1000
    }
}

/// What a horizontal laser spawner creates: a screen-wide growing laser at
/// some height within the screen, with a horizontal jerk within the
/// configured magnitude.
pub open spec fn spec_spawned_hor(
    warning_time: Fx, show_time: Fx, thickness: Fx, jerk: Fx, screen: Vec2, o: Obst,
) -> bool {
    match o.obstacle {
        Obstacle::GrowLaser(l) => {
            !o.marked_for_removal && l.start.x == -100000 && l.end.x as int == spec_fx_add(
                screen.x as int, 100000) && l.start.y == l.end.y && (screen.y > 0 ==> 0 <= l.start.y
                < screen.y) && (screen.y <= 0 ==> l.start.y == 0) && l.thickness == thickness
                && l.warning_time == warning_time && l.show_time == show_time && l.current_time == 0
                && !l.shown && l.grow_time == 250 && l.fade_opacity == 500 && l.fade_in
                == warning_time && l.jerk.y == 0 && (jerk > -jerk ==> -jerk <= l.jerk.x < jerk) && (
            jerk <= -jerk ==> l.jerk.x == -jerk)
        },
        _ => false,
    }
}

/// What a vertical laser spawner creates.
pub open spec fn spec_spawned_vert(
    warning_time: Fx, show_time: Fx, thickness: Fx, jerk: Fx, screen: Vec2, o: Obst,
) -> bool {
    match o.obstacle {
        Obstacle::GrowLaser(l) => {
            !o.marked_for_removal && l.start.y == -100000 && l.end.y as int == spec_fx_add(
                screen.y as int, 100000) && l.start.x == l.end.x && (screen.x > 0 ==> 0 <= l.start.x
                < screen.x) && (screen.x <= 0 ==> l.start.x == 0) && l.thickness == thickness
                && l.warning_time == warning_time && l.show_time == show_time && l.current_time == 0
                && !l.shown && l.grow_time == 250 && l.fade_opacity == 500 && l.fade_in
                == warning_time && l.jerk.x == 0 && (jerk > -jerk ==> -jerk <= l.jerk.y < jerk) && (
            jerk <= -jerk ==> l.jerk.y == -jerk)
        },
        _ => false,
    }
}

/// What one run of a spawner stages: exact for the deterministic spawners,
/// bounded for those that place their hazard randomly.
pub open spec fn spec_spawned(s: Spawner, args: ModifyArgs, screen: Vec2, o: Obst) -> bool {
    match s {
        Spawner::Pellet => o == (Obst {
            obstacle: Obstacle::Pellet(Pellet { pos: args.pos, vel: args.vel, rad: args.rad }),
            marked_for_removal: false,
        }),
        Spawner::RectTrail { rect_life, warning_time, grow_time, start, delta, scale, rot } => {
            let fac = spec_fx_sub(spec_step_fx(args.step as int), FX_ONE as int);
            o == (Obst {
                obstacle: Obstacle::RotatableRect(
                    RotatableRect {
                        center: Vec2 {
                            x: spec_fx_add(start.x as int, spec_fx_mul(delta.x as int, fac)) as i64,
                            y: spec_fx_add(start.y as int, spec_fx_mul(delta.y as int, fac)) as i64,
                        },
                        size: scale,
                        rot,
                        warning_time,
                        show_time: rect_life,
                        current_time: 0,
                        grow_time,
                    },
                ),
                marked_for_removal: false,
            })
        },
        Spawner::BombSide { pellets, pellet_vel, pellet_rad, bomb_life } => {
            match o.obstacle {
                Obstacle::Bomb(b) => {
                    !o.marked_for_removal && b.start.x == screen.x && b.target.x as int
                        == spec_fx_sub(screen.x as int, 100000) && (screen.y > 0 ==> 0 <= b.start.y
                        < screen.y && 0 <= b.target.y < screen.y) && (screen.y <= 0 ==> b.start.y
                        == 0 && b.target.y == 0) && b.time == 0 && b.life == bomb_life && b.pellets
                        == pellets && b.pellet_vel == pellet_vel && b.pellet_rad == pellet_rad
                        && b.snappiness as int == spec_fx_div(20 * FX_ONE, bomb_life as int)
                        && b.rad as int == spec_fx_div(30 * FX_ONE, bomb_life as int) && b.spawner
                        == Spawner::Pellet
                },
                _ => false,
            }
        },
        Spawner::HorLaser { warning_time, show_time, thickness, jerk } => spec_spawned_hor(
            warning_time, show_time, thickness, jerk, screen, o,
        ),
        Spawner::VertLaser { warning_time, show_time, thickness, jerk } => spec_spawned_vert(
            warning_time, show_time, thickness, jerk, screen, o,
        ),
        Spawner::RandLaser { warning_time, show_time, thickness, jerk } => spec_spawned_hor(
            warning_time, show_time, thickness, jerk, screen, o,
        ) || spec_spawned_vert(warning_time, show_time, thickness, jerk, screen, o),
    }
}

fn run_hor(
    warning_time: Fx, show_time: Fx, thickness: Fx, jerk: Fx, acc: &mut UpdateAccumulator,
    screen: Vec2,
)
    requires
        fx_wf(jerk as int),
        fx_wf(thickness as int),
        v2_wf(screen),
    ensures
        final(acc).obstacles_to_add@.len() == old(acc).obstacles_to_add@.len() + 1,
        final(acc).obstacles_to_add@.subrange(0, old(acc).obstacles_to_add@.len() as int) == old(
            acc).obstacles_to_add@,
        crate::obstacles::obst_wf(final(acc).obstacles_to_add@.last()),
        spec_spawned_hor(
            warning_time, show_time, thickness, jerk, screen,
            final(acc).obstacles_to_add@.last(),
        ),
        accum_same_but_obsts(*final(acc), *old(acc)),
{
    let y = rand_fx(0, screen.y);
    let l = GrowLaser::new(
        Vec2 { x: -100000, y },
        Vec2 { x: crate::fx::fx_add(screen.x, 100000), y },
        thickness,
        warning_time,
        show_time,
        Vec2 { x: rand_fx(-jerk, jerk), y: 0 },
    );
    acc.obst(Obstacle::GrowLaser(l));
    proof {
        assert(final(acc).obstacles_to_add@.subrange(0, old(acc).obstacles_to_add@.len() as int)
            =~= old(acc).obstacles_to_add@);
    }
}

fn run_vert(
    warning_time: Fx, show_time: Fx, thickness: Fx, jerk: Fx, acc: &mut UpdateAccumulator,
    screen: Vec2,
)
    requires
        fx_wf(jerk as int),
        fx_wf(thickness as int),
        v2_wf(screen),
    ensures
        final(acc).obstacles_to_add@.len() == old(acc).obstacles_to_add@.len() + 1,
        final(acc).obstacles_to_add@.subrange(0, old(acc).obstacles_to_add@.len() as int) == old(
            acc).obstacles_to_add@,
        crate::obstacles::obst_wf(final(acc).obstacles_to_add@.last()),
        spec_spawned_vert(
            warning_time, show_time, thickness, jerk, screen,
            final(acc).obstacles_to_add@.last(),
        ),
        accum_same_but_obsts(*final(acc), *old(acc)),
{
    let x = rand_fx(0, screen.x);
    let l = GrowLaser::new(
        Vec2 { x, y: -100000 },
        Vec2 { x, y: crate::fx::fx_add(screen.y, 100000) },
        thickness,
        warning_time,
        show_time,
        Vec2 { x: 0, y: rand_fx(-jerk, jerk) },
    );
    acc.obst(Obstacle::GrowLaser(l));
    proof {
        assert(final(acc).obstacles_to_add@.subrange(0, old(acc).obstacles_to_add@.len() as int)
            =~= old(acc).obstacles_to_add@);
    }
}

impl Spawner {
    /// Run the spawner once: stages exactly one hazard described by
    /// [`spec_spawned`].
    pub fn run(&self, acc: &mut UpdateAccumulator, args: ModifyArgs, screen: Vec2)
        requires
            spawner_wf(*self),
            v2_wf(screen),
            v2_wf(args.pos),
            v2_wf(args.vel),
            0 <= args.rad <= crate::fx::FX_MAX,
        ensures
            final(acc).obstacles_to_add@.len() == old(acc).obstacles_to_add@.len() + 1,
            final(acc).obstacles_to_add@.subrange(0, old(acc).obstacles_to_add@.len() as int)
                == old(acc).obstacles_to_add@,
            spec_spawned(*self, args, screen, final(acc).obstacles_to_add@.last()),
            crate::obstacles::obst_wf(final(acc).obstacles_to_add@.last()),
            accum_same_but_obsts(*final(acc), *old(acc)),
    {
        match *self {
            Spawner::Pellet => {
                acc.obst(Obstacle::Pellet(Pellet { pos: args.pos, vel: args.vel, rad: args.rad }));
                proof {
                    assert(final(acc).obstacles_to_add@.subrange(
                        0, old(acc).obstacles_to_add@.len() as int) =~= old(
                        acc).obstacles_to_add@);
                }
            },
            Spawner::RectTrail { rect_life, warning_time, grow_time, start, delta, scale, rot } => {
                let fac = fx_sub(step_fx(args.step), FX_ONE);
                let center = start.add(delta.scale(fac));
                acc.obst(Obstacle::RotatableRect(
                    RotatableRect {
                        center,
                        size: scale,
                        rot,
                        warning_time,
                        show_time: rect_life,
                        current_time: 0,
                        grow_time,
                    },
                ));
                proof {
                    assert(final(acc).obstacles_to_add@.subrange(
                        0, old(acc).obstacles_to_add@.len() as int) =~= old(
                        acc).obstacles_to_add@);
                }
            },
            Spawner::BombSide { pellets, pellet_vel, pellet_rad, bomb_life } => {
                let y = rand_fx(0, screen.y);
                let ty = rand_fx(0, screen.y);
                let b = Bomb::new(
                    Vec2 { x: screen.x, y },
                    Vec2 { x: fx_sub(screen.x, 100000), y: ty },
                    bomb_life,
                    pellets,
                    pellet_vel,
                    pellet_rad,
                    Spawner::Pellet,
                );
                acc.obst(Obstacle::Bomb(b));
                proof {
                    assert(final(acc).obstacles_to_add@.subrange(
                        0, old(acc).obstacles_to_add@.len() as int) =~= old(
                        acc).obstacles_to_add@);
                }
            },
            Spawner::HorLaser { warning_time, show_time, thickness, jerk } => {
                run_hor(warning_time, show_time, thickness, jerk, acc, screen);
            },
            Spawner::VertLaser { warning_time, show_time, thickness, jerk } => {
                run_vert(warning_time, show_time, thickness, jerk, acc, screen);
            },
            Spawner::RandLaser { warning_time, show_time, thickness, jerk } => {
                if crate::rng::rand_bool() {
                    run_hor(warning_time, show_time, thickness, jerk, acc, screen);
                } else {
                    run_vert(warning_time, show_time, thickness, jerk, acc, screen);
                }
            },
        }
    }
}

} // verus!
