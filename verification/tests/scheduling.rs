use epar_core::events::{Action, Event};
use epar_core::generators::{clone_offset, ez, offset, remove, rep_off, repeat_periodic, tev_rep};
use epar_core::levels_meta::EparLevel;
use epar_core::obstacles::{Obst, Obstacle, Pellet};
use epar_core::session::{InputState, LevelState};
use epar_core::vec2::Vec2;

fn v(x: i64, y: i64) -> Vec2 {
    Vec2 { x, y }
}

fn screen() -> Vec2 {
    v(1600000, 900000)
}

fn no_input() -> InputState {
    InputState { up: false, down: false, left: false, right: false, dash: false, abort: false }
}

fn spawn_marker(rad: i64) -> Vec<Action> {
    vec![Action::SpawnOne(Obst::new(Obstacle::Pellet(Pellet {
        pos: v(0, 0),
        vel: v(0, 0),
        rad,
    })))]
}

fn marker_rad(o: &Obst) -> i64 {
    match &o.obstacle {
        Obstacle::Pellet(p) => p.rad,
        _ => panic!("marker is not a pellet"),
    }
}

#[test]
fn snip_keeps_only_later_events() {
    // snip(6) on times [1, 5, 10] leaves exactly [10].
    let mut s = LevelState::new(screen(), 10000, 1000);
    s.add_event((1000, Vec::new()));
    s.add_event((5000, Vec::new()));
    s.add_event((10000, Vec::new()));
    s.snip(6000);
    assert_eq!(s.events.len(), 1);
    assert_eq!(s.events[0].0, 10000);
}

#[test]
fn snip_keeps_boundary_events() {
    let mut s = LevelState::new(screen(), 10000, 1000);
    s.add_event((5000, Vec::new()));
    s.snip(5000);
    assert_eq!(s.events.len(), 1);
}

#[test]
fn sort_orders_and_is_idempotent() {
    let mut s = LevelState::new(screen(), 10000, 1000);
    s.add_event((5000, Vec::new()));
    s.add_event((1000, Vec::new()));
    s.add_event((3000, Vec::new()));
    s.sort();
    let times: Vec<i64> = s.events.iter().map(|e| e.0).collect();
    assert_eq!(times, vec![1000, 3000, 5000]);
    // sorting an already sorted schedule is a no-op.
    s.sort();
    let again: Vec<i64> = s.events.iter().map(|e| e.0).collect();
    assert_eq!(again, vec![1000, 3000, 5000]);
}

#[test]
fn drain_fires_due_prefix_in_order_across_frames() {
    // entries at beats 1, 2, 3; draining at 2 then 3 fires 1 and 2 first,
    // in ascending order, then 3 — the same as draining once at 3.
    let mut s = LevelState::new(screen(), 10000, 1000);
    s.add_event((2000, spawn_marker(2)));
    s.add_event((1000, spawn_marker(1)));
    s.add_event((3000, spawn_marker(3)));
    s.sort();

    s.update(2000, 0, no_input());
    assert_eq!(s.events.len(), 1);
    assert_eq!(s.obsts.len(), 2);
    assert_eq!(marker_rad(&s.obsts[0]), 1);
    assert_eq!(marker_rad(&s.obsts[1]), 2);

    s.update(3000, 0, no_input());
    assert_eq!(s.events.len(), 0);
    assert_eq!(s.obsts.len(), 3);
    assert_eq!(marker_rad(&s.obsts[2]), 3);
}

#[test]
fn drain_leaves_future_events_untouched() {
    let mut s = LevelState::new(screen(), 10000, 1000);
    s.add_event((1000, Vec::new()));
    s.add_event((9000, spawn_marker(9)));
    s.sort();
    s.update(5000, 0, no_input());
    assert_eq!(s.events.len(), 1);
    assert_eq!(s.events[0].0, 9000);
    assert_eq!(s.obsts.len(), 0);
}

#[test]
fn immediate_events_fire_on_first_check() {
    let mut s = LevelState::new(screen(), 10000, 1000);
    s.instantly(spawn_marker(7));
    s.sort();
    s.update(0, 0, no_input());
    assert_eq!(s.obsts.len(), 1);
    assert_eq!(marker_rad(&s.obsts[0]), 7);
}

#[test]
fn generator_shapes() {
    let evs: Vec<Event> = vec![(0, Vec::new()), (100, Vec::new())];
    let rep = tev_rep(evs, 3, 50);
    let times: Vec<i64> = rep.iter().map(|e| e.0).collect();
    assert_eq!(times, vec![0, 100, 50, 150, 100, 200]);

    let r = rep_off(vec![0, 10], 2, 5);
    assert_eq!(r, vec![0, 10, 5, 15]);

    let p = repeat_periodic(&Vec::new(), 3, 7, 20);
    let times: Vec<i64> = p.iter().map(|e| e.0).collect();
    assert_eq!(times, vec![7, 27, 47]);

    let shifted = clone_offset(&vec![(5, Vec::new()), (6, Vec::new())], 100);
    let times: Vec<i64> = shifted.iter().map(|e| e.0).collect();
    assert_eq!(times, vec![105, 106]);

    let moved = offset(vec![(5, Vec::new())], -3);
    assert_eq!(moved[0].0, 2);

    let zeroed = ez(vec![(5, Vec::new()), (9, Vec::new())]);
    assert!(zeroed.iter().all(|e| e.0 == 0));

    let cut = remove(vec![(1, Vec::new()), (5, Vec::new()), (9, Vec::new())], 2, 6);
    let times: Vec<i64> = cut.iter().map(|e| e.0).collect();
    assert_eq!(times, vec![1, 9]);
}

#[test]
fn level_catalog() {
    assert_eq!(EparLevel::all().len(), 9);
    assert_eq!(EparLevel::Smoke.name(), "Smoke");
    assert_eq!(
        EparLevel::MoonlightSonata.name(),
        "Moonlight Sonata (Meganeko Remix, Final Drop)"
    );
    assert!(EparLevel::MoonlightSonata.finished());
    assert!(EparLevel::Kocmoc.finished());
    assert!(!EparLevel::Inferno.finished());
    assert!(!EparLevel::Firestarter.finished());
}
