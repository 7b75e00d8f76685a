//! Scheduled choreography: an event is a beat-time paired with a list of
//! actions; firing an event stages its actions into the accumulator. Also
//! holds the drain-ordering lemmas for the timeline scheduler.

use crate::accum::{ModifyArgs, UpdateAccumulator};
use crate::color::{Color, ColorFn};
use crate::fx::Fx;
use crate::obstacles::{clone_obsts, obst_eqv, obst_wf, obsts_eqv, Obst};
use crate::obstacles::Spawner;
use crate::spawner::spawner_wf;
use crate::utils::sorted_by_time;
use crate::vec2::{v2_wf, Vec2};
use vstd::prelude::*;

verus! {

/// One choreography effect: spawn hazards, run a spawner, or adjust the
/// camera and colors.
#[derive(Debug)]
pub enum Action {
    /// Spawn one hazard handle.
    SpawnOne(Obst),
    /// Spawn a list of hazard handles.
    SpawnMany(Vec<Obst>),
    /// Run a child spawner once.
    Run(Spawner),
    /// Override the foreground with a flat color.
    SetFg(Color),
    /// Override the background with a flat color.
    SetBg(Color),
    /// Install a time-varying foreground color function.
    SetFgFn(ColorFn),
    /// Install a time-varying background color function.
    SetBgFn(ColorFn),
    /// Override the ambient float amplitude.
    SetFloat(Fx),
    /// Add a camera jerk impulse.
    Jerk(Vec2),
    /// Add camera shake.
    Shake(Fx),
}

/// A scheduled event: a beat-time and the actions fired at that time.
pub type Event = (Fx, Vec<Action>);

/// A well-formed action: spawned hazards and spawners are well-formed.
pub open spec fn action_wf(a: Action) -> bool {
    match a {
        Action::SpawnOne(o) => obst_wf(o),
        Action::SpawnMany(v) => forall|i: int| 0 <= i < v@.len() ==> obst_wf(#[trigger] v@[i]),
        Action::Run(s) => spawner_wf(s),
        _ => true,
    }
}

/// Every action in the list is well-formed.
pub open spec fn actions_wf(s: Seq<Action>) -> bool {
    forall|i: int| 0 <= i < s.len() ==> action_wf(#[trigger] s[i])
}

/// Every event's actions are well-formed.
pub open spec fn events_wf(s: Seq<Event>) -> bool {
    forall|i: int| 0 <= i < s.len() ==> actions_wf((#[trigger] s[i]).1@)
}

/// Structural equivalence of actions: equal up to hazard-list contents.
pub open spec fn action_eqv(a: Action, b: Action) -> bool {
    match (a, b) {
        (Action::SpawnOne(x), Action::SpawnOne(y)) => obst_eqv(x, y),
        (Action::SpawnMany(x), Action::SpawnMany(y)) => obsts_eqv(x@, y@),
        (Action::Run(x), Action::Run(y)) => x == y,
        (Action::SetFg(x), Action::SetFg(y)) => x == y,
        (Action::SetBg(x), Action::SetBg(y)) => x == y,
        (Action::SetFgFn(x), Action::SetFgFn(y)) => x == y,
        (Action::SetBgFn(x), Action::SetBgFn(y)) => x == y,
        (Action::SetFloat(x), Action::SetFloat(y)) => x == y,
        (Action::Jerk(x), Action::Jerk(y)) => x == y,
        (Action::Shake(x), Action::Shake(y)) => x == y,
        _ => false,
    }
}

/// Elementwise structural equivalence of action lists.
pub open spec fn actions_eqv(a: Seq<Action>, b: Seq<Action>) -> bool {
    a.len() == b.len() && forall|i: int| 0 <= i < a.len() ==> action_eqv(a[i], b[i])
}

/// Structural equivalence of events: equal times, equivalent actions.
pub open spec fn event_eqv(a: Event, b: Event) -> bool {
    a.0 == b.0 && actions_eqv(a.1@, b.1@)
}

/// Elementwise structural equivalence of event lists.
pub open spec fn events_eqv(a: Seq<Event>, b: Seq<Event>) -> bool {
    a.len() == b.len() && forall|i: int| 0 <= i < a.len() ==> event_eqv(a[i], b[i])
}

impl Clone for Action {
    /// Deep-clones the action; the copy is structurally equivalent.
    fn clone(&self) -> (res: Self)
        ensures
            action_eqv(res, *self),
    {
        match self {
            Action::SpawnOne(o) => Action::SpawnOne(o.clone()),
            Action::SpawnMany(v) => Action::SpawnMany(clone_obsts(v)),
            Action::Run(s) => Action::Run(*s),
            Action::SetFg(c) => Action::SetFg(*c),
            Action::SetBg(c) => Action::SetBg(*c),
            Action::SetFgFn(c) => Action::SetFgFn(*c),
            Action::SetBgFn(c) => Action::SetBgFn(*c),
            Action::SetFloat(f) => Action::SetFloat(*f),
            Action::Jerk(v) => Action::Jerk(*v),
            Action::Shake(f) => Action::Shake(*f),
        }
    }
}

/// Deep-clone a list of actions; the copy is elementwise equivalent and
/// stays well-formed.
pub fn clone_actions(v: &Vec<Action>) -> (res: Vec<Action>)
    ensures
        actions_eqv(res@, v@),
        actions_wf(v@) ==> actions_wf(res@),
{
    let mut res: Vec<Action> = Vec::new();
    let mut i: usize = 0;
    while i < v.len()
        invariant
            i <= v@.len(),
            res@.len() == i,
            forall|k: int| 0 <= k < i ==> action_eqv(res@[k], v@[k]),
        decreases v@.len() - i,
    {
        res.push(v[i].clone());
        i += 1;
    }
    proof {
        if actions_wf(v@) {
            assert forall|k: int| 0 <= k < res@.len() implies action_wf(#[trigger] res@[k]) by {
                lemma_action_eqv_wf(res@[k], v@[k]);
            }
        }
    }
    res
}

/// Deep-clone an event; the copy is structurally equivalent and stays
/// well-formed.
pub fn clone_event(e: &Event) -> (res: Event)
    ensures
        event_eqv(res, *e),
        actions_wf(e.1@) ==> actions_wf(res.1@),
{
    (e.0, clone_actions(&e.1))
}

/// Deep-clone a list of events; the copy is elementwise equivalent and
/// stays well-formed.
pub fn clone_events(v: &Vec<Event>) -> (res: Vec<Event>)
    ensures
        events_eqv(res@, v@),
        events_wf(v@) ==> events_wf(res@),
{
    let mut res: Vec<Event> = Vec::new();
    let mut i: usize = 0;
    while i < v.len()
        invariant
            i <= v@.len(),
            res@.len() == i,
            forall|k: int| 0 <= k < i ==> event_eqv(res@[k], v@[k]),
            forall|k: int|
                0 <= k < i ==> (actions_wf(v@[k].1@) ==> actions_wf((#[trigger] res@[k]).1@)),
        decreases v@.len() - i,
    {
        res.push(clone_event(&v[i]));
        i += 1;
    }
    res
}

/// Equivalent actions are equally well-formed.
pub proof fn lemma_action_eqv_wf(a: Action, b: Action)
    requires
        action_eqv(a, b),
        action_wf(b),
    ensures
        action_wf(a),
{
    match (a, b) {
        (Action::SpawnOne(x), Action::SpawnOne(y)) => {
            lemma_obst_eqv_wf(x, y);
        },
        (Action::SpawnMany(x), Action::SpawnMany(y)) => {
            assert forall|i: int| 0 <= i < x@.len() implies obst_wf(#[trigger] x@[i]) by {
                lemma_obst_eqv_wf(x@[i], y@[i]);
            }
        },
        _ => {},
    }
}

/// Equivalent hazards are equally well-formed.
pub proof fn lemma_obst_eqv_wf(a: Obst, b: Obst)
    requires
        obst_eqv(a, b),
        obst_wf(b),
    ensures
        obst_wf(a),
{
}

/// The camera-impulse and float effect of one action on the staging
/// buffer: jerk and shake add saturating, a float override is last-write-
/// wins, and every other action leaves these four alone.
pub open spec fn spec_action_impulse(a: Action, st: (int, int, int, Option<Fx>)) -> (
    int,
    int,
    int,
    Option<Fx>,
) {
    match a {
        Action::Jerk(v) => (
            crate::fx::spec_fx_add(st.0, v.x as int),
            crate::fx::spec_fx_add(st.1, v.y as int),
            st.2,
            st.3,
        ),
        Action::Shake(f) => (st.0, st.1, crate::fx::spec_fx_add(st.2, f as int), st.3),
        Action::SetFloat(f) => (st.0, st.1, st.2, Some(f)),
        _ => st,
    }
}

/// The camera-impulse and float effect of an action list, in order.
pub open spec fn spec_actions_impulse(acts: Seq<Action>, st: (int, int, int, Option<Fx>)) -> (
    int,
    int,
    int,
    Option<Fx>,
)
    decreases acts.len(),
{
    if acts.len() == 0 {
        st
    } else {
        spec_actions_impulse(acts.skip(1), spec_action_impulse(acts[0], st))
    }
}

/// The camera-impulse and float effect of firing the first `n` events.
pub open spec fn spec_fired_impulse(evs: Seq<Event>, n: int, st: (int, int, int, Option<Fx>)) -> (
    int,
    int,
    int,
    Option<Fx>,
)
    decreases n,
{
    if n <= 0 {
        st
    } else {
        spec_actions_impulse(evs[n - 1].1@, spec_fired_impulse(evs, n - 1, st))
    }
}

/// Fire one action into the accumulator.
pub fn run_action(a: Action, acc: &mut UpdateAccumulator, screen: Vec2)
    requires
        action_wf(a),
        v2_wf(screen),
    ensures
        final(acc).obstacles_to_add@.len() >= old(acc).obstacles_to_add@.len(),
        final(acc).obstacles_to_add@.subrange(0, old(acc).obstacles_to_add@.len() as int) == old(
            acc).obstacles_to_add@,
        forall|j: int|
            old(acc).obstacles_to_add@.len() <= j < final(acc).obstacles_to_add@.len() ==> obst_wf(
                #[trigger] final(acc).obstacles_to_add@[j]),
        final(acc).time == old(acc).time,
        (final(acc).jerk.x as int, final(acc).jerk.y as int, final(acc).shake as int, final(
        acc).float_amp) == spec_action_impulse(
            a,
            (old(acc).jerk.x as int, old(acc).jerk.y as int, old(acc).shake as int, old(
            acc).float_amp),
        ),
        (a matches Action::SpawnOne(o) ==> final(acc).obstacles_to_add@ == old(
            acc).obstacles_to_add@.push(o)),
        (a matches Action::SpawnMany(v) ==> final(acc).obstacles_to_add@ == old(
            acc).obstacles_to_add@ + v@),
        (a matches Action::Run(s) ==> final(acc).obstacles_to_add@.len() == old(
            acc).obstacles_to_add@.len() + 1 && crate::spawner::spec_spawned(
            s,
            ModifyArgs {
                step: 0,
                pos: Vec2 { x: 0, y: 0 },
                vel: Vec2 { x: 0, y: 0 },
                rad: 0,
                time: old(acc).time,
            },
            screen,
            final(acc).obstacles_to_add@.last(),
        )),
        (a matches Action::SetFg(c) ==> *final(acc) == (UpdateAccumulator {
            fg: Some(c),
            ..*old(acc)
        })),
        (a matches Action::SetBg(c) ==> *final(acc) == (UpdateAccumulator {
            bg: Some(c),
            ..*old(acc)
        })),
        (a matches Action::SetFgFn(c) ==> final(acc).mods@ == old(acc).mods@.push(
            crate::accum::SessionMod::SetFgFn(c))),
        (a matches Action::SetBgFn(c) ==> final(acc).mods@ == old(acc).mods@.push(
            crate::accum::SessionMod::SetBgFn(c))),
        (a matches Action::SetFloat(f) ==> *final(acc) == (UpdateAccumulator {
            float_amp: Some(f),
            ..*old(acc)
        })),
        (a matches Action::Jerk(v) ==> final(acc).jerk.x == crate::fx::spec_fx_add(
            old(acc).jerk.x as int, v.x as int) && final(acc).jerk.y == crate::fx::spec_fx_add(
            old(acc).jerk.y as int, v.y as int)),
        (a matches Action::Shake(f) ==> final(acc).shake == crate::fx::spec_fx_add(
            old(acc).shake as int, f as int)),
{
    let ghost len0 = acc.obstacles_to_add@.len() as int;
    match a {
        Action::SpawnOne(o) => acc.obstacle(o),
        Action::SpawnMany(v) => {
            let mut v = v;
            let ghost orig = v@;
            let vlen = v.len();
            proof {
                assert(orig.len() == vlen as int);
            }
            let mut i: usize = 0;
            while v.len() > 0
                invariant
                    i + v@.len() == orig.len(),
                    orig.len() <= usize::MAX,
                    v@ == orig.skip(i as int),
                    forall|k: int| 0 <= k < orig.len() ==> obst_wf(#[trigger] orig[k]),
                    acc.obstacles_to_add@ == old(acc).obstacles_to_add@ + orig.subrange(
                        0, i as int),
                    crate::accum::accum_same_but_obsts(*acc, *old(acc)),
                decreases v@.len(),
            {
                let o = v.remove(0);
                proof {
                    assert(o == orig[i as int]);
                }
                acc.obstacle(o);
                proof {
                    assert(v@ =~= orig.skip(i + 1));
                    assert(acc.obstacles_to_add@ =~= old(acc).obstacles_to_add@ + orig.subrange(
                        0, i + 1));
                }
                i += 1;
            }
            proof {
                assert(orig.subrange(0, orig.len() as int) =~= orig);
                assert(acc.obstacles_to_add@ =~= old(acc).obstacles_to_add@ + orig);
            }
        },
        Action::Run(s) => {
            let args = ModifyArgs::new(acc.time());
            s.run(acc, args, screen);
        },
        Action::SetFg(c) => acc.fg(c),
        Action::SetBg(c) => acc.bg(c),
        Action::SetFgFn(c) => acc.fg_raw(c),
        Action::SetBgFn(c) => acc.bg_raw(c),
        Action::SetFloat(f) => acc.float_amp(f),
        Action::Jerk(v) => acc.jerk(v),
        Action::Shake(f) => acc.shake(f),
    }
    proof {
        assert(acc.obstacles_to_add@.subrange(0, len0) =~= old(acc).obstacles_to_add@);
    }
}

/// Fire a list of actions in order.
pub fn run_actions(list: Vec<Action>, acc: &mut UpdateAccumulator, screen: Vec2)
    requires
        actions_wf(list@),
        v2_wf(screen),
    ensures
        final(acc).obstacles_to_add@.len() >= old(acc).obstacles_to_add@.len(),
        final(acc).obstacles_to_add@.subrange(0, old(acc).obstacles_to_add@.len() as int) == old(
            acc).obstacles_to_add@,
        forall|j: int|
            old(acc).obstacles_to_add@.len() <= j < final(acc).obstacles_to_add@.len() ==> obst_wf(
                #[trigger] final(acc).obstacles_to_add@[j]),
        final(acc).time == old(acc).time,
        (final(acc).jerk.x as int, final(acc).jerk.y as int, final(acc).shake as int, final(
        acc).float_amp) == spec_actions_impulse(
            list@,
            (old(acc).jerk.x as int, old(acc).jerk.y as int, old(acc).shake as int, old(
            acc).float_amp),
        ),
{
    let mut list = list;
    let ghost orig = list@;
    let ghost st0 = (old(acc).jerk.x as int, old(acc).jerk.y as int, old(acc).shake as int, old(
        acc).float_amp);
    let ghost mut done: int = 0;
    while list.len() > 0
        invariant
            v2_wf(screen),
            done + list@.len() == orig.len(),
            list@ == orig.skip(done),
            0 <= done,
            actions_wf(orig),
            acc.obstacles_to_add@.len() >= old(acc).obstacles_to_add@.len(),
            acc.obstacles_to_add@.subrange(0, old(acc).obstacles_to_add@.len() as int) == old(
                acc).obstacles_to_add@,
            forall|j: int|
                old(acc).obstacles_to_add@.len() <= j < acc.obstacles_to_add@.len() ==> obst_wf(
                    #[trigger] acc.obstacles_to_add@[j]),
            acc.time == old(acc).time,
            spec_actions_impulse(
                list@,
                (acc.jerk.x as int, acc.jerk.y as int, acc.shake as int, acc.float_amp),
            ) == spec_actions_impulse(orig, st0),
        decreases list@.len(),
    {
        let a = list.remove(0);
        proof {
            assert(a == orig[done]);
        }
        let ghost pre = acc.obstacles_to_add@;
        let ghost rest = list@;
        let ghost tup = (acc.jerk.x as int, acc.jerk.y as int, acc.shake as int, acc.float_amp);
        run_action(a, acc, screen);
        proof {
            let cur = acc.obstacles_to_add@;
            assert forall|m: int| 0 <= m < pre.len() implies cur[m] == pre[m] by {
                assert(cur.subrange(0, pre.len() as int)[m] == cur[m]);
            }
            assert(cur.subrange(0, old(acc).obstacles_to_add@.len() as int) =~= old(
                acc).obstacles_to_add@);
            assert(list@ =~= orig.skip(done + 1));
            assert(orig.skip(done).skip(1) =~= orig.skip(done + 1));
            assert(orig.skip(done)[0] == a);
            assert(spec_actions_impulse(orig.skip(done), tup) == spec_actions_impulse(
                orig.skip(done + 1), spec_action_impulse(a, tup)));
            done = done + 1;
        }
    }
}

/// `n` is the length of the maximal front run of entries due at clock `t`.
pub open spec fn due_prefix<T>(s: Seq<(i64, T)>, t: i64, n: int) -> bool {
    0 <= n <= s.len() && (forall|k: int| 0 <= k < n ==> (#[trigger] s[k]).0 <= t) && (n < s.len()
        ==> s[n].0 > t)
}

/// For a sorted schedule, the drained front run at clock `t` is exactly the
/// set of entries due at `t`: an entry fires if and only if its time has
/// come, and the fired entries stand in ascending time order.
pub proof fn lemma_due_prefix_exact<T>(s: Seq<(i64, T)>, t: i64, n: int)
    requires
        sorted_by_time(s),
        due_prefix(s, t, n),
    ensures
        forall|k: int| 0 <= k < s.len() ==> (((#[trigger] s[k]).0 <= t) <==> k < n),
{
    assert forall|k: int| 0 <= k < s.len() implies (((#[trigger] s[k]).0 <= t) <==> k < n) by {
        if k >= n && n < s.len() {
            assert(s[n].0 <= s[k].0 || k == n);
        }
    }
}

/// Draining a sorted schedule at clock `t1` and then at a later clock `t2`
/// fires, in total and in order, exactly what draining once at `t2` would
/// fire, and leaves the same remainder — however the drain is split across
/// frames.
pub proof fn lemma_drain_split<T>(s: Seq<(i64, T)>, t1: i64, t2: i64, n1: int, n2: int)
    requires
        sorted_by_time(s),
        t1 <= t2,
        due_prefix(s, t1, n1),
        due_prefix(s.skip(n1), t2, n2),
    ensures
        due_prefix(s, t2, n1 + n2),
        s.skip(n1).skip(n2) == s.skip(n1 + n2),
        sorted_by_time(s.skip(n1)),
{
    assert forall|k: int| 0 <= k < n1 + n2 implies (#[trigger] s[k]).0 <= t2 by {
        if k < n1 {
            assert(s[k].0 <= t1);
        } else {
            assert(s.skip(n1)[k - n1].0 <= t2);
        }
    }
    if n1 + n2 < s.len() {
        assert(s[n1 + n2].0 == s.skip(n1)[n2].0);
    }
    assert(s.skip(n1).skip(n2) =~= s.skip(n1 + n2));
    assert forall|i: int, j: int| 0 <= i < j < s.skip(n1).len() implies (#[trigger] s.skip(n1)[i]).0
        <= (#[trigger] s.skip(n1)[j]).0 by {
        assert(s[n1 + i].0 <= s[n1 + j].0);
    }
}

} // verus!
