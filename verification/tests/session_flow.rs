use epar_core::color::{Color, ColorFn};
use epar_core::events::Action;
use epar_core::fx::FX_ONE;
use epar_core::obstacles::{Obst, Obstacle, Pellet};
use epar_core::session::{InputState, LevelState};
use epar_core::vec2::Vec2;

fn v(x: i64, y: i64) -> Vec2 {
    Vec2 { x, y }
}

fn screen() -> Vec2 {
    v(1600000, 900000)
}

fn no_input() -> InputState {
    InputState { up: false, down: false, left: false, right: false, dash: false, abort: false }
}

/// With 10 beats per minute at full speed, a 6-second frame is exactly one
/// beat of hazard time.
fn one_beat_session() -> LevelState {
    LevelState::new(screen(), 10000, 1000)
}

#[test]
fn end_to_end_projectile_flight() {
    let mut s = one_beat_session();
    s.add_event((0, vec![Action::SpawnOne(Obst::new(Obstacle::Pellet(Pellet {
        pos: v(0, 0),
        vel: v(100000, 0),
        rad: 5000,
    })))]));
    s.sort();

    // advance the clock to beat 0: the event fires and the projectile is in.
    s.update(0, 0, no_input());
    assert_eq!(s.obsts.len(), 1);

    // one beat of flight moves it to (100, 0).
    s.update(1000, 6000, no_input());
    assert_eq!(s.obsts.len(), 1);
    match &s.obsts[0].obstacle {
        Obstacle::Pellet(p) => {
            assert_eq!(p.pos, v(100000, 0));
            assert_eq!(p.vel, v(100000, 0));
        },
        _ => panic!("expected the projectile"),
    }

    // twenty more beats carry it past the inflated screen edge: gone.
    s.update(21000, 120000, no_input());
    assert_eq!(s.obsts.len(), 0);
}

#[test]
fn at_most_one_hit_per_frame() {
    let mut s = one_beat_session();
    let center = v(800000, 450000);
    // two overlapping hazards sit exactly on the player.
    s.add_obstacle(Obstacle::Pellet(Pellet { pos: center, vel: v(0, 0), rad: 5000 }));
    s.add_obstacle(Obstacle::Pellet(Pellet { pos: center, vel: v(0, 0), rad: 5000 }));
    assert_eq!(s.hits_left, 3);

    s.update(0, 0, no_input());
    // one hit charged, not two, and the invulnerability window opened.
    assert_eq!(s.hits_left, 2);
    assert_eq!(s.player.isecs, 2000);

    // while invulnerable no further hit lands.
    s.update(0, 0, no_input());
    assert_eq!(s.hits_left, 2);
}

#[test]
fn player_moves_by_input() {
    let mut s = one_beat_session();
    let x0 = s.player.pos.x;
    let y0 = s.player.pos.y;
    let input = InputState { up: false, down: true, left: false, right: true, dash: false,
        abort: false };
    // one second at the base 300 pixels per second.
    s.update(0, 1000, input);
    assert_eq!(s.player.pos.x, x0 + 300000);
    assert_eq!(s.player.pos.y, y0 + 300000);
    assert_eq!(s.player.pps, 300 * FX_ONE);
}

#[test]
fn dash_speeds_up_and_expires() {
    let mut s = one_beat_session();
    let input_dash = InputState { up: false, down: false, left: false, right: false, dash: true,
        abort: false };
    s.update(0, 0, input_dash);
    assert_eq!(s.player.dash, 300);
    // the next frame runs at dash speed and counts the timer down.
    s.update(0, 100, no_input());
    assert_eq!(s.player.pps, 800 * FX_ONE);
    assert_eq!(s.player.dash, 200);
    s.update(0, 300, no_input());
    s.update(0, 100, no_input());
    assert_eq!(s.player.pps, 300 * FX_ONE);
}

#[test]
fn abort_resets_the_session() {
    let mut s = one_beat_session();
    s.add_event((5000, Vec::new()));
    s.add_obstacle(Obstacle::Pellet(Pellet { pos: v(0, 0), vel: v(0, 0), rad: 1000 }));
    let abort = InputState { up: false, down: false, left: false, right: false, dash: false,
        abort: true };
    s.update(7000, 100, abort);
    assert_eq!(s.events.len(), 0);
    assert_eq!(s.obsts.len(), 0);
    assert_eq!(s.time, 0);
    assert_eq!(s.hits_left, 3);
}

#[test]
fn color_override_applies_after_sweep() {
    let mut s = one_beat_session();
    let orange = Color { r: FX_ONE, g: 600, b: 0, a: FX_ONE };
    s.add_event((0, vec![Action::SetFg(orange), Action::SetFloat(20000)]));
    s.sort();
    s.update(0, 0, no_input());
    assert_eq!(s.fg_color, ColorFn::Flat(orange));
    assert_eq!(s.cam_float, 20000);
}

#[test]
fn camera_impulses_decay() {
    let mut s = one_beat_session();
    s.add_event((0, vec![Action::Jerk(v(10000, 0)), Action::Shake(1000)]));
    s.sort();
    s.update(0, 0, no_input());
    assert_eq!(s.cam_jerk.x, 10000);
    assert_eq!(s.cam_shake, 1000);
    // the next frame decays both by their fixed factors.
    s.update(0, 0, no_input());
    assert_eq!(s.cam_jerk.x, 8000);
    assert_eq!(s.cam_shake, 950);
}
