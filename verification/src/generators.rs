//! Builders that repeat and reshape choreography events: used by level
//! content to turn one templated event into many.

use crate::events::{actions_eqv, clone_actions, Action, Event};
use crate::fx::{fx_add, spec_fx_add, spec_fx_mul, Fx};
use crate::spawner::{spec_step_fx, step_fx};
use vstd::prelude::*;

verus! {

/// A time shifted `k` times by `off`, with each shift saturating.
pub open spec fn spec_iter_shift(t: int, off: int, k: nat) -> int
    decreases k,
{
    if k == 0 {
        t
    } else {
        spec_fx_add(spec_iter_shift(t, off, (k - 1) as nat), off)
    }
}

/// `count` repetitions of one action list, at `offset + i * spacing`.
pub fn repeat_periodic(actions: &Vec<Action>, count: usize, offset: Fx, spacing: Fx) -> (r: Vec<
    Event,
>)
    ensures
        r@.len() == count,
        forall|i: int|
            0 <= i < count ==> (#[trigger] r@[i]).0 as int == spec_fx_add(
                spec_fx_mul(spec_step_fx(i), spacing as int), offset as int),
        forall|i: int| 0 <= i < count ==> actions_eqv((#[trigger] r@[i]).1@, actions@),
{
    let mut r: Vec<Event> = Vec::new();
    let mut i: usize = 0;
    while i < count
        invariant
            i <= count,
            r@.len() == i,
            forall|k: int|
                0 <= k < i ==> (#[trigger] r@[k]).0 as int == spec_fx_add(
                    spec_fx_mul(spec_step_fx(k), spacing as int), offset as int),
            forall|k: int| 0 <= k < i ==> actions_eqv((#[trigger] r@[k]).1@, actions@),
        decreases count - i,
    {
        let t = fx_add(crate::fx::fx_mul(step_fx(i), spacing), offset);
        r.push((t, clone_actions(actions)));
        i += 1;
    }
    r
}

/// Clones of the events, shifted by `offset`.
pub fn clone_offset(events: &Vec<Event>, offset: Fx) -> (r: Vec<Event>)
    ensures
        r@.len() == events@.len(),
        forall|i: int|
            0 <= i < events@.len() ==> (#[trigger] r@[i]).0 as int == spec_fx_add(
                events@[i].0 as int, offset as int),
        forall|i: int|
            0 <= i < events@.len() ==> actions_eqv((#[trigger] r@[i]).1@, events@[i].1@),
{
    let mut r: Vec<Event> = Vec::new();
    let mut i: usize = 0;
    while i < events.len()
        invariant
            i <= events@.len(),
            r@.len() == i,
            forall|k: int|
                0 <= k < i ==> (#[trigger] r@[k]).0 as int == spec_fx_add(
                    events@[k].0 as int, offset as int),
            forall|k: int| 0 <= k < i ==> actions_eqv((#[trigger] r@[k]).1@, events@[k].1@),
        decreases events@.len() - i,
    {
        r.push((fx_add(events[i].0, offset), clone_actions(&events[i].1)));
        i += 1;
    }
    r
}

/// The events with every trigger time shifted by `off` (payloads moved).
pub fn offset(events: Vec<Event>, off: Fx) -> (r: Vec<Event>)
    ensures
        r@.len() == events@.len(),
        forall|i: int|
            0 <= i < events@.len() ==> (#[trigger] r@[i]).0 as int == spec_fx_add(
                events@[i].0 as int, off as int) && r@[i].1 == events@[i].1,
{
    let mut src = events;
    let ghost orig = src@;
    let mut r: Vec<Event> = Vec::new();
    let ghost mut done: int = 0;
    while src.len() > 0
        invariant
            0 <= done <= orig.len(),
            src@ == orig.skip(done),
            r@.len() == done,
            forall|k: int|
                0 <= k < done ==> (#[trigger] r@[k]).0 as int == spec_fx_add(
                    orig[k].0 as int, off as int) && r@[k].1 == orig[k].1,
        decreases src@.len(),
    {
        let e = src.remove(0);
        proof {
            assert(e == orig[done]);
        }
        r.push((fx_add(e.0, off), e.1));
        proof {
            assert(src@ =~= orig.skip(done + 1));
            done = done + 1;
        }
    }
    r
}

/// The events with every trigger time zeroed (payloads moved).
pub fn ez(events: Vec<Event>) -> (r: Vec<Event>)
    ensures
        r@.len() == events@.len(),
        forall|i: int|
            0 <= i < events@.len() ==> (#[trigger] r@[i]).0 == 0 && r@[i].1 == events@[i].1,
{
    let mut src = events;
    let ghost orig = src@;
    let mut r: Vec<Event> = Vec::new();
    let ghost mut done: int = 0;
    while src.len() > 0
        invariant
            0 <= done <= orig.len(),
            src@ == orig.skip(done),
            r@.len() == done,
            forall|k: int| 0 <= k < done ==> (#[trigger] r@[k]).0 == 0 && r@[k].1 == orig[k].1,
        decreases src@.len(),
    {
        let e = src.remove(0);
        proof {
            assert(e == orig[done]);
        }
        r.push((0, e.1));
        proof {
            assert(src@ =~= orig.skip(done + 1));
            done = done + 1;
        }
    }
    r
}

/// The events whose trigger times lie outside the closed range
/// `[from, to]` (payloads moved).
pub fn remove(events: Vec<Event>, from: Fx, to: Fx) -> (r: Vec<Event>)
    ensures
        r@ == events@.filter(|e: Event| !(from <= e.0 <= to)),
{
    let mut src = events;
    let ghost orig = src@;
    let mut r: Vec<Event> = Vec::new();
    let ghost mut done: int = 0;
    while src.len() > 0
        invariant
            0 <= done <= orig.len(),
            src@ == orig.skip(done),
            r@ == orig.subrange(0, done).filter(|e: Event| !(from <= e.0 <= to)),
        decreases src@.len(),
    {
        let e = src.remove(0);
        proof {
            assert(e == orig[done]);
        }
        if !(from <= e.0 && e.0 <= to) {
            r.push(e);
        }
        proof {
            reveal(Seq::filter);
            let sub1 = orig.subrange(0, done + 1);
            assert(sub1.drop_last() =~= orig.subrange(0, done));
            assert(sub1.last() == orig[done]);
            assert(r@ =~= sub1.filter(|e: Event| !(from <= e.0 <= to)));
            assert(src@ =~= orig.skip(done + 1));
            done = done + 1;
        }
    }
    proof {
        assert(orig.subrange(0, orig.len() as int) =~= orig);
    }
    r
}

/// Repeat an event list `times` times, each block's trigger times shifted
/// one more saturating `spacing` step than the last: the anonymous event
/// repeater choreography builds long phrases with.
pub fn tev_rep(ev: Vec<Event>, times: usize, spacing: Fx) -> (r: Vec<Event>)
    requires
        ev@.len() * times <= usize::MAX,
    ensures
        r@.len() == ev@.len() * times,
        forall|k: int, i: int|
            0 <= k < times && 0 <= i < ev@.len() ==> {
                &&& (#[trigger] r@[k * ev@.len() + i]).0 as int == spec_iter_shift(
                    ev@[i].0 as int, spacing as int, k as nat)
                &&& actions_eqv(r@[k * ev@.len() + i].1@, ev@[i].1@)
            },
{
    let n = ev.len();
    let mut r: Vec<Event> = Vec::new();
    if n == 0 {
        proof {
            assert(ev@.len() * times == 0) by (nonlinear_arith)
                requires
                    ev@.len() == 0,
            ;
        }
        return r;
    }
    let mut k: usize = 0;
    while k < times
        invariant
            0 < n == ev@.len(),
            k <= times,
            ev@.len() * times <= usize::MAX,
            r@.len() == k * n,
            forall|b: int, i: int|
                0 <= b < k && 0 <= i < n ==> {
                    &&& (#[trigger] r@[b * n + i]).0 as int == spec_iter_shift(
                        ev@[i].0 as int, spacing as int, b as nat)
                    &&& actions_eqv(r@[b * n + i].1@, ev@[i].1@)
                },
        decreases times - k,
    {
        proof {
            assert((k + 1) * n <= times * n && k * n + n == (k + 1) * n && k * n >= 0)
                by (nonlinear_arith)
                requires
                    0 <= k < times,
                    n > 0,
            ;
            assert(times * n <= usize::MAX) by (nonlinear_arith)
                requires
                    ev@.len() * times <= usize::MAX,
                    n == ev@.len(),
            ;
        }
        let mut i: usize = 0;
        while i < n
            invariant
                0 < n == ev@.len(),
                i <= n,
                k < times,
                k * n + n <= usize::MAX,
                k * n >= 0,
                r@.len() == k * n + i,
                forall|b: int, j: int|
                    0 <= b < k && 0 <= j < n ==> {
                        &&& (#[trigger] r@[b * n + j]).0 as int == spec_iter_shift(
                            ev@[j].0 as int, spacing as int, b as nat)
                        &&& actions_eqv(r@[b * n + j].1@, ev@[j].1@)
                    },
                forall|j: int|
                    0 <= j < i ==> {
                        &&& (#[trigger] r@[k * n + j]).0 as int == spec_iter_shift(
                            ev@[j].0 as int, spacing as int, k as nat)
                        &&& actions_eqv(r@[k * n + j].1@, ev@[j].1@)
                    },
            decreases n - i,
        {
            let mut t = ev[i].0;
            let mut s: usize = 0;
            while s < k
                invariant
                    s <= k,
                    t as int == spec_iter_shift(ev@[i as int].0 as int, spacing as int, s as nat),
                decreases k - s,
            {
                t = fx_add(t, spacing);
                s += 1;
            }
            let ghost pre = r@;
            r.push((t, clone_actions(&ev[i].1)));
            proof {
                assert forall|b: int, j: int|
                    0 <= b < k && 0 <= j < n implies (#[trigger] r@[b * n + j]).0 as int
                    == spec_iter_shift(ev@[j].0 as int, spacing as int, b as nat) && actions_eqv(
                    r@[b * n + j].1@, ev@[j].1@) by {
                    assert(0 <= b * n + j < k * n) by (nonlinear_arith)
                        requires
                            0 <= b < k,
                            0 <= j < n,
                    ;
                    assert(r@[b * n + j] == pre[b * n + j]);
                    assert(pre[b * n + j].0 as int == spec_iter_shift(
                        ev@[j].0 as int, spacing as int, b as nat) && actions_eqv(
                        pre[b * n + j].1@, ev@[j].1@));
                }
            }
            i += 1;
        }
        k += 1;
    }
    proof {
        assert(times * ev@.len() == ev@.len() * times) by (nonlinear_arith);
    }
    r
}

/// Repeat a list of times `count` times, each round shifted one more
/// saturating `offset` step than the last.
pub fn rep_off(src: Vec<Fx>, count: usize, offset: Fx) -> (r: Vec<Fx>)
    requires
        src@.len() * count <= usize::MAX,
    ensures
        r@.len() == src@.len() * count,
        forall|k: int, i: int|
            0 <= k < count && 0 <= i < src@.len() ==> (#[trigger] r@[k * src@.len() + i]) as int
                == spec_iter_shift(src@[i] as int, offset as int, k as nat),
{
    let n = src.len();
    let mut r: Vec<Fx> = Vec::new();
    if n == 0 {
        proof {
            assert(src@.len() * count == 0) by (nonlinear_arith)
                requires
                    src@.len() == 0,
            ;
        }
        return r;
    }
    let mut k: usize = 0;
    while k < count
        invariant
            0 < n == src@.len(),
            k <= count,
            src@.len() * count <= usize::MAX,
            r@.len() == k * n,
            forall|b: int, i: int|
                0 <= b < k && 0 <= i < n ==> (#[trigger] r@[b * n + i]) as int == spec_iter_shift(
                    src@[i] as int, offset as int, b as nat),
        decreases count - k,
    {
        proof {
            assert((k + 1) * n <= count * n && k * n + n == (k + 1) * n && k * n >= 0)
                by (nonlinear_arith)
                requires
                    0 <= k < count,
                    n > 0,
            ;
            assert(count * n <= usize::MAX) by (nonlinear_arith)
                requires
                    src@.len() * count <= usize::MAX,
                    n == src@.len(),
            ;
        }
        let mut i: usize = 0;
        while i < n
            invariant
                0 < n == src@.len(),
                i <= n,
                k < count,
                k * n + n <= usize::MAX,
                k * n >= 0,
                r@.len() == k * n + i,
                forall|b: int, j: int|
                    0 <= b < k && 0 <= j < n ==> (#[trigger] r@[b * n + j]) as int
                        == spec_iter_shift(src@[j] as int, offset as int, b as nat),
                forall|j: int|
                    0 <= j < i ==> (#[trigger] r@[k * n + j]) as int == spec_iter_shift(
                        src@[j] as int, offset as int, k as nat),
            decreases n - i,
        {
            let mut t = src[i];
            let mut s: usize = 0;
            while s < k
                invariant
                    s <= k,
                    t as int == spec_iter_shift(src@[i as int] as int, offset as int, s as nat),
                decreases k - s,
            {
                t = fx_add(t, offset);
                s += 1;
            }
            let ghost pre = r@;
            r.push(t);
            proof {
                assert forall|b: int, j: int|
                    0 <= b < k && 0 <= j < n implies (#[trigger] r@[b * n + j]) as int
                    == spec_iter_shift(src@[j] as int, offset as int, b as nat) by {
                    assert(0 <= b * n + j < k * n) by (nonlinear_arith)
                        requires
                            0 <= b < k,
                            0 <= j < n,
                    ;
                    assert(r@[b * n + j] == pre[b * n + j]);
                    assert(pre[b * n + j] as int == spec_iter_shift(
                        src@[j] as int, offset as int, b as nat));
                }
            }
            i += 1;
        }
        k += 1;
    }
    proof {
        assert(count * src@.len() == src@.len() * count) by (nonlinear_arith);
    }
    r
}

/// Repeat events `amount` times with a growing offset: like [`tev_rep`],
/// but cloning whole blocks in round order.
pub fn repeat_events(events: &Vec<Event>, amount: usize, off: Fx) -> (r: Vec<Event>)
    requires
        events@.len() * amount <= usize::MAX,
    ensures
        r@.len() == events@.len() * amount,
        forall|k: int, i: int|
            0 <= k < amount && 0 <= i < events@.len() ==> {
                &&& (#[trigger] r@[k * events@.len() + i]).0 as int == spec_iter_shift(
                    events@[i].0 as int, off as int, k as nat)
                &&& actions_eqv(r@[k * events@.len() + i].1@, events@[i].1@)
            },
{
    let mut base: Vec<Event> = Vec::new();
    let mut i: usize = 0;
    while i < events.len()
        invariant
            i <= events@.len(),
            base@.len() == i,
            forall|k: int|
                0 <= k < i ==> (#[trigger] base@[k]).0 == events@[k].0 && actions_eqv(
                    base@[k].1@, events@[k].1@),
        decreases events@.len() - i,
    {
        base.push((events[i].0, clone_actions(&events[i].1)));
        i += 1;
    }
    let ghost eqv_base = base@;
    let r = tev_rep(base, amount, off);
    proof {
        assert forall|k: int, i: int|
            0 <= k < amount && 0 <= i < events@.len() implies (#[trigger] r@[k * events@.len()
            + i]).0 as int == spec_iter_shift(events@[i].0 as int, off as int, k as nat)
            && actions_eqv(r@[k * events@.len() + i].1@, events@[i].1@) by {
            assert(r@[k * eqv_base.len() + i].0 as int == spec_iter_shift(
                eqv_base[i].0 as int, off as int, k as nat));
            assert(actions_eqv(r@[k * eqv_base.len() + i].1@, eqv_base[i].1@));
            lemma_actions_eqv_trans(r@[k * events@.len() + i].1@, eqv_base[i].1@, events@[i].1@);
        }
    }
    r
}

/// Elementwise action equivalence is transitive.
proof fn lemma_actions_eqv_trans(a: Seq<Action>, b: Seq<Action>, c: Seq<Action>)
    requires
        actions_eqv(a, b),
        actions_eqv(b, c),
    ensures
        actions_eqv(a, c),
{
    assert forall|i: int| 0 <= i < a.len() implies crate::events::action_eqv(a[i], c[i]) by {
        lemma_action_eqv_trans(a[i], b[i], c[i]);
    }
}

/// Action equivalence is transitive.
proof fn lemma_action_eqv_trans(a: Action, b: Action, c: Action)
    requires
        crate::events::action_eqv(a, b),
        crate::events::action_eqv(b, c),
    ensures
        crate::events::action_eqv(a, c),
{
}

} // verus!
