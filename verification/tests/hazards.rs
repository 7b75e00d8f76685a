use epar_core::accum::UpdateAccumulator;
use epar_core::fx::FX_ONE;
use epar_core::obstacles::{Bomb, GolGrid, GrowLaser, Obstacle, Pellet, Periodic, Smoke,
    SmokeEvent, Spawner};
use epar_core::player::Player;
use epar_core::vec2::Vec2;

fn v(x: i64, y: i64) -> Vec2 {
    Vec2 { x, y }
}

fn screen() -> Vec2 {
    v(1600000, 900000)
}

fn player_at(x: i64, y: i64) -> Player {
    Player { pos: v(x, y), rad: 5000, pps: 100000, dash: 0, isecs: 0 }
}

#[test]
fn laser_lifecycle_phases() {
    // warning 2 beats, show 4 beats.
    let mut l = GrowLaser::new(v(0, 0), v(100000, 0), 10000, 2000, 4000, v(0, 0));
    let mut acc = UpdateAccumulator::new();
    let p = player_at(50000, 0);

    l.update(&mut acc, 1999);
    assert!(!l.collides(p));
    assert!(!l.should_kill());

    l.update(&mut acc, 1);
    assert!(l.collides(p));
    assert!(!l.should_kill());

    l.update(&mut acc, 3999);
    assert!(!l.should_kill());
    l.update(&mut acc, 1);
    assert!(l.should_kill());
}

#[test]
fn laser_thickness_ramps_linearly_to_zero() {
    // warning 2, show 4, grow window 0.25, thickness 10.
    let mut l = GrowLaser::new(v(0, 0), v(100000, 0), 10000, 2000, 4000, v(0, 0));
    let mut acc = UpdateAccumulator::new();
    // ramp-in starts at zero and reaches full thickness.
    l.update(&mut acc, 2000);
    assert_eq!(l.thick(), 0);
    l.update(&mut acc, 250);
    assert_eq!(l.thick(), 10000);
    // constant in the middle.
    l.update(&mut acc, 2000);
    assert_eq!(l.thick(), 10000);
    // the ramp-out mirrors the ramp-in and ends at zero at the last instant.
    l.update(&mut acc, 1500);
    assert_eq!(l.thick(), 10000);
    l.update(&mut acc, 1);
    assert_eq!(l.thick(), 9960);
    l.update(&mut acc, 124);
    assert_eq!(l.thick(), 5000);
    l.update(&mut acc, 125);
    assert_eq!(l.thick(), 0);
    assert!(l.should_kill());
}

#[test]
fn laser_warning_jerk_fires_exactly_once() {
    let mut l = GrowLaser::new(v(0, 0), v(100000, 0), 10000, 2000, 4000, v(7000, 0));
    let mut acc = UpdateAccumulator::new();

    l.update(&mut acc, 500);
    assert_eq!(acc.jerk.x, 0);
    l.update(&mut acc, 1500);
    assert_eq!(acc.jerk.x, 7000);
    l.update(&mut acc, 500);
    l.update(&mut acc, 500);
    assert_eq!(acc.jerk.x, 7000);
}

#[test]
fn periodic_catches_up_after_lag() {
    // interval 0.1 beats; a single update of 0.45 beats fires 4 times and
    // keeps remainder 0.05.
    let mut p = Periodic::new(100, 100, Spawner::Pellet);
    let mut acc = UpdateAccumulator::new();
    p.update(&mut acc, screen(), 450);
    assert_eq!(acc.obstacles_to_add.len(), 4);
    assert_eq!(p.time_mod, 50);
    assert_eq!(p.time_div, 4);

    p.update(&mut acc, screen(), 40);
    assert_eq!(acc.obstacles_to_add.len(), 4);
    assert_eq!(p.time_mod, 90);

    p.update(&mut acc, screen(), 10);
    assert_eq!(acc.obstacles_to_add.len(), 5);
    assert_eq!(p.time_mod, 0);
}

#[test]
fn periodic_dies_at_step_limit() {
    let mut p = Periodic::new(2, 100, Spawner::Pellet);
    let mut acc = UpdateAccumulator::new();
    assert!(!p.should_kill());
    p.update(&mut acc, screen(), 200);
    assert!(p.should_kill());
}

#[test]
fn detonator_ring_is_radially_even() {
    let b = Bomb::new(v(0, 0), v(0, 0), 2000, 4, 200000, 5000, Spawner::Pellet);
    let mut acc = UpdateAccumulator::new();
    b.kill(&mut acc, screen());
    assert_eq!(acc.obstacles_to_add.len(), 4);
    let mut vels: Vec<(i64, i64)> = Vec::new();
    for o in &acc.obstacles_to_add {
        match &o.obstacle {
            Obstacle::Pellet(p) => {
                assert_eq!(p.rad, 5000);
                vels.push((p.vel.x, p.vel.y));
            },
            _ => panic!("ring spawned a non-pellet"),
        }
    }
    // four cardinal directions at equal speed.
    assert_eq!(vels, vec![(0, 200000), (200000, 0), (0, -200000), (-200000, 0)]);
}

#[test]
fn detonator_eases_toward_target() {
    let mut b = Bomb::new(v(0, 0), v(100000, 0), 2000, 4, 200000, 5000, Spawner::Pellet);
    let p0 = b.pos(v(0, 0));
    assert_eq!(p0, v(0, 0));
    b.update(1000);
    let p1 = b.pos(v(0, 0));
    // the gap shrinks but never fully closes.
    assert!(p1.x > 0 && p1.x < 100000);
    assert!(!b.should_kill());
    b.update(1000);
    assert!(b.should_kill());
}

#[test]
fn pellet_flies_and_dies_off_screen() {
    let mut p = Pellet::new(v(0, 0), v(100000, 0), 5000);
    p.update(1000);
    assert_eq!(p.pos, v(100000, 0));
    assert!(!p.should_kill(screen()));
    p.update(1000000);
    assert!(p.should_kill(screen()));
}

#[test]
fn smoke_mini_scheduler_fires_due_events() {
    let mut s = Smoke::new().show_time(8000).smevs(vec![(0, SmokeEvent::Pulse)]).sort();
    let mut acc = UpdateAccumulator::new();
    // warning is 1 beat; after 0.5 beats the pulse is not yet due.
    s.update(&mut acc, screen(), 500);
    assert_eq!(s.events.len(), 1);
    assert_eq!(acc.shake, 0);
    // crossing the warning makes the time-zero pulse due.
    s.update(&mut acc, screen(), 500);
    assert_eq!(s.events.len(), 0);
    assert_eq!(s.pulse, FX_ONE);
    assert_eq!(acc.shake, 10000);
}

#[test]
fn smoke_ring_spawns_count() {
    let mut s = Smoke::new().smevs(vec![(
        0,
        SmokeEvent::Pellets { count: 6, speed: 100000, rad: 4000, phase: 0 },
    )]).sort();
    let mut acc = UpdateAccumulator::new();
    s.update(&mut acc, screen(), 1000);
    assert_eq!(acc.obstacles_to_add.len(), 6);
}

#[test]
fn automaton_blinker_oscillates() {
    // the classic rules: born on 3 neighbors, stay on 2 or 3.
    let mut cells = vec![false; 25];
    cells[2 + 1 * 5] = true;
    cells[2 + 2 * 5] = true;
    cells[2 + 3 * 5] = true;
    let mut g = GolGrid {
        width: 5,
        height: 5,
        cells,
        born: [false, false, false, true, false, false, false, false, false],
        stay: [false, false, true, true, false, false, false, false, false],
        ticks: 0,
        max: 10,
        period: 1000,
        time: 0,
        warning_time: 0,
        first_warning_time: 1000,
    };
    g.tick();
    // the vertical blinker flips horizontal.
    assert!(g.get(1, 2) && g.get(2, 2) && g.get(3, 2));
    assert!(!g.get(2, 1) && !g.get(2, 3));
    g.tick();
    // and back.
    assert!(g.get(2, 1) && g.get(2, 2) && g.get(2, 3));
    assert!(!g.get(1, 2) && !g.get(3, 2));
}

#[test]
fn automaton_spawns_one_rect_per_live_cell() {
    let mut cells = vec![false; 25];
    cells[2 + 1 * 5] = true;
    cells[2 + 2 * 5] = true;
    cells[2 + 3 * 5] = true;
    let mut g = GolGrid {
        width: 5,
        height: 5,
        cells,
        born: [false, false, false, true, false, false, false, false, false],
        stay: [false, false, true, true, false, false, false, false, false],
        ticks: 0,
        max: 10,
        period: 1000,
        time: 0,
        warning_time: 0,
        first_warning_time: 1000,
    };
    let mut acc = UpdateAccumulator::new();
    // the first update always ticks; the blinker has 3 live cells after it.
    g.update(&mut acc, screen(), 100);
    assert_eq!(g.ticks, 1);
    assert_eq!(acc.obstacles_to_add.len(), 3);
    for o in &acc.obstacles_to_add {
        assert!(matches!(o.obstacle, Obstacle::RotatableRect(_)));
    }
}
