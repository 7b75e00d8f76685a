//! The cellular-automaton hazard: a 2D boolean grid (out-of-bounds counts
//! as dead) evolved by configurable Moore-neighborhood birth/survival rule
//! tables, spawning one rectangle hazard per live cell each tick.

use crate::accum::{accum_same_but_obsts, UpdateAccumulator};
use crate::fx::{fx_add, fx_div, fx_mul, fx_sub, spec_fx_add, spec_fx_div, spec_fx_mul,
    spec_fx_sub, Fx, FX_ONE};
use crate::geom::Rot;
use crate::obstacles::{GolGrid, Obst, Obstacle, RotatableRect};
use crate::player::Player;
use crate::rng::rand_fx;
use crate::spawner::{spec_step_fx, step_fx};
use crate::utils::{inc_sat, spec_step_inc};
use crate::vec2::{v2_wf, Vec2};
use vstd::prelude::*;

verus! {

/// A well-formed grid: positive, bounded dimensions, and exactly one cell
/// per grid position.
pub open spec fn gol_wf(g: GolGrid) -> bool {
    1 <= g.width <= 1000 && 1 <= g.height <= 1000 && g.cells@.len() == g.width * g.height
        && g.period > 0
}

/// The cell at `(x, y)`: dead outside the grid bounds.
pub open spec fn spec_gol_get(g: GolGrid, x: int, y: int) -> bool {
    if x < 0 || y < 0 || x >= g.width || y >= g.height {
        false
    } else {
        g.cells@[y * g.width + x]
    }
}

/// The number of live Moore neighbors of `(x, y)`.
pub open spec fn spec_gol_neighbors(g: GolGrid, x: int, y: int) -> int {
    (if spec_gol_get(g, x - 1, y - 1) { 1int } else { 0int })
        + (if spec_gol_get(g, x, y - 1) { 1int } else { 0int })
        + (if spec_gol_get(g, x + 1, y - 1) { 1int } else { 0int })
        + (if spec_gol_get(g, x - 1, y) { 1int } else { 0int })
        + (if spec_gol_get(g, x + 1, y) { 1int } else { 0int })
        + (if spec_gol_get(g, x - 1, y + 1) { 1int } else { 0int })
        + (if spec_gol_get(g, x, y + 1) { 1int } else { 0int })
        + (if spec_gol_get(g, x + 1, y + 1) { 1int } else { 0int })
}

/// The number of live cells among the first `n` of the grid.
pub open spec fn spec_live_count(s: Seq<bool>, n: int) -> int
    decreases n,
{
    if n <= 0 {
        0
    } else {
        spec_live_count(s, n - 1) + if s[n - 1] {
            1int
        } else {
            0int
        }
    }
}

/// The live count of a prefix is between zero and the prefix length.
pub proof fn lemma_live_count_bounds(s: Seq<bool>, n: int)
    ensures
        0 <= spec_live_count(s, n),
        n >= 0 ==> spec_live_count(s, n) <= n,
    decreases n,
{
    if n > 0 {
        lemma_live_count_bounds(s, n - 1);
    }
}

/// The size of one grid cell on screen.
pub open spec fn spec_gol_cell(g: GolGrid, screen: Vec2) -> (int, int) {
    (
        spec_fx_div(screen.x as int, spec_step_fx(g.width as int)),
        spec_fx_div(screen.y as int, spec_step_fx(g.height as int)),
    )
}

/// What one automaton tick stages per live cell: a rectangle hazard sized
/// to a grid cell and centered on some cell of the grid, axis-aligned, with
/// the tick's warning window, a show window of one and a quarter periods,
/// and a grow window of a quarter period.
pub open spec fn spec_gol_spawned(g: GolGrid, screen: Vec2, warning: Fx, o: Obst) -> bool {
    match o.obstacle {
        Obstacle::RotatableRect(r) => {
            let cell = spec_gol_cell(g, screen);
            !o.marked_for_removal && r.rot == (Rot { c: FX_ONE, s: 0 }) && r.warning_time
                == warning && r.show_time as int == spec_fx_mul(g.period as int, 1250)
                && r.current_time == 0 && r.grow_time as int == spec_fx_div(g.period as int, 4)
                && (r.size.x as int, r.size.y as int) == cell && (exists|cx: int, cy: int|
                0 <= cx < g.width && 0 <= cy < g.height && spec_gol_get(g, cx, cy)
                    && r.center.x as int == spec_fx_add(
                    spec_fx_mul(spec_step_fx(cx), cell.0),
                    spec_fx_div(cell.0 as int, 2),
                ) && r.center.y as int == spec_fx_add(
                    spec_fx_mul(spec_step_fx(cy), cell.1),
                    spec_fx_div(cell.1 as int, 2),
                ))
        },
        _ => false,
    }
}

/// Whether the cell at `(x, y)` is alive after one tick: the survival table
/// decides for live cells, the birth table for dead ones, each indexed by
/// the live neighbor count.
pub open spec fn spec_gol_next(g: GolGrid, x: int, y: int) -> bool {
    if spec_gol_get(g, x, y) {
        g.stay@[spec_gol_neighbors(g, x, y)]
    } else {
        g.born@[spec_gol_neighbors(g, x, y)]
    }
}

impl GolGrid {
    /// The default grid: 32 by 18 dead cells, rules close to the classic
    /// birth-on-3 / survive-on-2-or-3, one tick per beat, 32 ticks.
    pub fn new() -> (g: GolGrid)
        ensures
            g.width == 32 && g.height == 18,
            g.cells@.len() == 576,
            forall|i: int| 0 <= i < 576 ==> !(#[trigger] g.cells@[i]),
            g.born@ == seq![false, false, false, true, false, false, true, false, false],
            g.stay@ == seq![false, false, true, true, false, false, false, true, false],
            g.ticks == 0 && g.max == 32 && g.period == FX_ONE && g.time == 0 && g.warning_time
                == 0 && g.first_warning_time == FX_ONE,
            gol_wf(g),
    {
        let mut cells: Vec<bool> = Vec::new();
        let mut i: usize = 0;
        while i < 576
            invariant
                i <= 576,
                cells@.len() == i,
                forall|k: int| 0 <= k < i ==> !(#[trigger] cells@[k]),
            decreases 576 - i,
        {
            cells.push(false);
            i += 1;
        }
        let g = GolGrid {
            width: 32,
            height: 18,
            cells,
            born: [false, false, false, true, false, false, true, false, false],
            stay: [false, false, true, true, false, false, false, true, false],
            ticks: 0,
            max: 32,
            period: FX_ONE,
            time: 0,
            warning_time: 0,
            first_warning_time: FX_ONE,
        };
        proof {
            assert(g.born@ =~= seq![false, false, false, true, false, false, true, false, false]);
            assert(g.stay@ =~= seq![false, false, true, true, false, false, false, true, false]);
        }
        g
    }

    /// Replace the tick limit.
    pub fn max(self, max: usize) -> (r: GolGrid)
        ensures
            r == (GolGrid { max, ..self }),
    {
        GolGrid { max, ..self }
    }

    /// Replace the tick period.
    pub fn period(self, period: Fx) -> (r: GolGrid)
        ensures
            r == (GolGrid { period, ..self }),
    {
        GolGrid { period, ..self }
    }

    /// Replace the warning window of spawned rectangles.
    pub fn warning_time(self, warning_time: Fx) -> (r: GolGrid)
        ensures
            r == (GolGrid { warning_time, ..self }),
    {
        GolGrid { warning_time, ..self }
    }

    /// Replace the warning window of the first tick's rectangles.
    pub fn first_warning_time(self, first_warning_time: Fx) -> (r: GolGrid)
        ensures
            r == (GolGrid { first_warning_time, ..self }),
    {
        GolGrid { first_warning_time, ..self }
    }

    /// Resize the grid, keeping the cell prefix and padding with dead cells.
    pub fn dims(self, w: usize, h: usize) -> (r: GolGrid)
        requires
            1 <= w <= 1000,
            1 <= h <= 1000,
            self.period > 0,
        ensures
            r.width == w && r.height == h,
            r.cells@.len() == w * h,
            gol_wf(r),
            r.born == self.born && r.stay == self.stay && r.ticks == self.ticks && r.max
                == self.max && r.period == self.period && r.time == self.time && r.warning_time
                == self.warning_time && r.first_warning_time == self.first_warning_time,
    {
        let mut g = self;
        proof {
            assert(w * h <= 1000000) by (nonlinear_arith)
                requires
                    w <= 1000 && h <= 1000,
            ;
            assert(w * h >= 1) by (nonlinear_arith)
                requires
                    w >= 1 && h >= 1,
            ;
        }
        crate::utils::adjust(&mut g.cells, w * h, false);
        g.width = w;
        g.height = h;
        g
    }

    /// Set `count` random cells alive (a cell may be drawn twice).
    pub fn populate(self, count: usize) -> (r: GolGrid)
        requires
            gol_wf(self),
        ensures
            gol_wf(r),
            r.width == self.width && r.height == self.height && r.cells@.len()
                == self.cells@.len(),
            r.born == self.born && r.stay == self.stay && r.ticks == self.ticks && r.max
                == self.max && r.period == self.period && r.time == self.time && r.warning_time
                == self.warning_time && r.first_warning_time == self.first_warning_time,
    {
        let mut g = self;
        let len = g.cells.len();
        proof {
            assert(1 <= len <= 1000000) by (nonlinear_arith)
                requires
                    len == g.width * g.height,
                    1 <= g.width <= 1000,
                    1 <= g.height <= 1000,
            ;
        }
        let mut i: usize = 0;
        while i < count
            invariant
                gol_wf(g),
                len == g.cells@.len(),
                1 <= len <= 1000000,
                g.width == self.width && g.height == self.height,
                g.born == self.born && g.stay == self.stay && g.ticks == self.ticks && g.max
                    == self.max && g.period == self.period && g.time == self.time
                    && g.warning_time == self.warning_time && g.first_warning_time
                    == self.first_warning_time,
            decreases count - i,
        {
            let idx = rand_fx(0, len as i64) as usize;
            let ghost pre = g.cells@;
            g.cells.remove(idx);
            g.cells.insert(idx, true);
            proof {
                assert(g.cells@.len() == pre.len());
            }
            i += 1;
        }
        g
    }

    /// The cell at `(x, y)`, dead outside the grid.
    pub fn get(&self, x: i64, y: i64) -> (r: bool)
        requires
            gol_wf(*self),
        ensures
            r == spec_gol_get(*self, x as int, y as int),
    {
        if x < 0 || y < 0 || x >= self.width as i64 || y >= self.height as i64 {
            false
        } else {
            proof {
                assert((y as int) * self.width + x < self.width * self.height && (y as int)
                    * self.width + x >= 0 && (y as int) * self.width <= 1000000)
                    by (nonlinear_arith)
                    requires
                        0 <= x < self.width as int,
                        0 <= y < self.height as int,
                        1 <= self.width as int <= 1000,
                        self.height as int <= 1000,
                ;
            }
            self.cells[(y as usize) * self.width + (x as usize)]
        }
    }

    /// The live neighbor count of `(x, y)`.
    pub fn neighbors(&self, x: i64, y: i64) -> (r: usize)
        requires
            gol_wf(*self),
            -1000000 < x < 1000000,
            -1000000 < y < 1000000,
        ensures
            r == spec_gol_neighbors(*self, x as int, y as int),
            r <= 8,
    {
        let mut count: usize = 0;
        if self.get(x - 1, y - 1) {
            count += 1;
        }
        if self.get(x, y - 1) {
            count += 1;
        }
        if self.get(x + 1, y - 1) {
            count += 1;
        }
        if self.get(x - 1, y) {
            count += 1;
        }
        if self.get(x + 1, y) {
            count += 1;
        }
        if self.get(x - 1, y + 1) {
            count += 1;
        }
        if self.get(x, y + 1) {
            count += 1;
        }
        if self.get(x + 1, y + 1) {
            count += 1;
        }
        count
    }

    /// Whether the cell at `(x, y)` is alive after one tick.
    pub fn get_next(&self, x: i64, y: i64) -> (r: bool)
        requires
            gol_wf(*self),
            -1000000 < x < 1000000,
            -1000000 < y < 1000000,
        ensures
            r == spec_gol_next(*self, x as int, y as int),
    {
        let n = self.neighbors(x, y);
        if self.get(x, y) {
            self.stay[n]
        } else {
            self.born[n]
        }
    }

    /// Evolve the whole grid by one step of the rule tables and advance the
    /// tick counter.
    pub fn tick(&mut self)
        requires
            gol_wf(*old(self)),
        ensures
            gol_wf(*final(self)),
            final(self).cells@.len() == old(self).cells@.len(),
            forall|k: int|
                0 <= k < old(self).cells@.len() ==> #[trigger] final(self).cells@[k]
                    == spec_gol_next(
                    *old(self), k % (old(self).width as int), k / (old(self).width as int)),
            final(self).ticks as int == spec_step_inc(old(self).ticks as int, 1),
            final(self).width == old(self).width && final(self).height == old(self).height
                && final(self).born == old(self).born && final(self).stay == old(self).stay
                && final(self).max == old(self).max && final(self).period == old(self).period
                && final(self).time == old(self).time && final(self).warning_time == old(
            self).warning_time && final(self).first_warning_time == old(self).first_warning_time,
    {
        self.ticks = inc_sat(self.ticks);
        let len = self.cells.len();
        let w = self.width;
        let mut new: Vec<bool> = Vec::new();
        let mut idx: usize = 0;
        while idx < len
            invariant
                gol_wf(*self),
                w == self.width,
                len == self.cells@.len(),
                idx <= len,
                new@.len() == idx,
                forall|k: int|
                    0 <= k < idx ==> #[trigger] new@[k] == spec_gol_next(
                        *self, k % (w as int), k / (w as int)),
            decreases len - idx,
        {
            let x = idx % w;
            let y = idx / w;
            proof {
                vstd::arithmetic::div_mod::lemma_mod_bound(idx as int, w as int);
                vstd::arithmetic::div_mod::lemma_multiply_divide_lt(
                    idx as int, w as int, self.height as int);
                assert(idx < self.height * w) by (nonlinear_arith)
                    requires
                        idx < len,
                        len == self.width * self.height,
                        w == self.width,
                        1 <= self.width,
                ;
            }
            new.push(self.get_next(x as i64, y as i64));
            idx += 1;
        }
        self.cells = new;
    }

    /// The grid itself never collides with the player; its spawned
    /// rectangles do.
    pub fn collides(&self, _player: Player) -> (res: bool)
        ensures
            res == false,
    {
        false
    }

    /// Whether the configured number of ticks has been reached.
    pub fn should_kill(&self) -> (res: bool)
        ensures
            res == (self.ticks >= self.max),
    {
        self.ticks >= self.max
    }

    /// Advance the local clock; on the first update and then once per
    /// period, evolve the grid and stage one rectangle hazard per live
    /// cell, sized to a grid cell.
    #[verifier::rlimit(100)]
    pub fn update(&mut self, acc: &mut UpdateAccumulator, screen: Vec2, beat_dt: Fx)
        requires
            gol_wf(*old(self)),
            v2_wf(screen),
            screen.x >= 0,
            screen.y >= 0,
        ensures
            gol_wf(*final(self)),
            final(self).time as int == spec_fx_add(old(self).time as int, beat_dt as int),
            final(self).width == old(self).width && final(self).height == old(self).height
                && final(self).born == old(self).born && final(self).stay == old(self).stay
                && final(self).max == old(self).max && final(self).period == old(self).period
                && final(self).warning_time == old(self).warning_time && final(
            self).first_warning_time == old(self).first_warning_time,
            ({
                let fires = old(self).ticks == 0 || spec_fx_add(
                    old(self).time as int, beat_dt as int) > spec_fx_sub(
                    spec_fx_add(
                        spec_fx_mul(old(self).period as int, spec_step_fx(old(self).ticks as int)),
                        old(self).first_warning_time as int,
                    ),
                    old(self).warning_time as int,
                );
                let warning = if old(self).ticks == 0 {
                    old(self).first_warning_time
                } else {
                    old(self).warning_time
                };
                (fires ==> final(self).ticks as int == spec_step_inc(old(self).ticks as int, 1)
                    && (forall|k: int|
                    0 <= k < old(self).cells@.len() ==> #[trigger] final(self).cells@[k]
                        == spec_gol_next(
                        *old(self), k % (old(self).width as int), k / (old(self).width as int)))
                    && final(acc).obstacles_to_add@.len() == old(acc).obstacles_to_add@.len()
                    + spec_live_count(final(self).cells@, final(self).cells@.len() as int) && (
                forall|j: int|
                    old(acc).obstacles_to_add@.len() <= j < final(acc).obstacles_to_add@.len()
                        ==> spec_gol_spawned(
                        *final(self), screen, warning,
                        #[trigger] final(acc).obstacles_to_add@[j])))
                    && (!fires ==> final(self).ticks == old(self).ticks && final(self).cells@
                    == old(self).cells@ && final(acc).obstacles_to_add@ == old(
                acc).obstacles_to_add@)
            }),
            final(acc).obstacles_to_add@.len() >= old(acc).obstacles_to_add@.len(),
            final(acc).obstacles_to_add@.subrange(0, old(acc).obstacles_to_add@.len() as int)
                == old(acc).obstacles_to_add@,
            forall|j: int|
                old(acc).obstacles_to_add@.len() <= j < final(acc).obstacles_to_add@.len()
                    ==> crate::obstacles::obst_wf(#[trigger] final(acc).obstacles_to_add@[j]),
            accum_same_but_obsts(*final(acc), *old(acc)),
    {
        self.time = fx_add(self.time, beat_dt);
        let first = self.ticks == 0;
        let threshold = fx_sub(
            fx_add(fx_mul(self.period, step_fx(self.ticks)), self.first_warning_time),
            self.warning_time,
        );
        if first || self.time > threshold {
            self.tick();
            let w = self.width;
            let h = self.height;
            let pfac = Vec2 { x: fx_div(screen.x, step_fx(w)), y: fx_div(screen.y, step_fx(h)) };
            let half = Vec2 { x: fx_div(pfac.x, 2), y: fx_div(pfac.y, 2) };
            let warning = if first {
                self.first_warning_time
            } else {
                self.warning_time
            };
            let show = fx_mul(self.period, 1250);
            let grow = fx_div(self.period, 4);
            proof {
                let p1000 = (self.period as int) * 1000;
                assert(vstd::math::abs(p1000) == p1000);
                vstd::arithmetic::div_mod::lemma_div_is_ordered(1000, p1000, 4);
                assert(crate::fx::tdiv(p1000, 4) >= 250);
                assert(grow > 0);
            }
            let len = self.cells.len();
            let ghost cur_grid = *self;
            let mut idx: usize = 0;
            while idx < len
                invariant
                    gol_wf(*self),
                    v2_wf(screen),
                    w == self.width,
                    h == self.height,
                    len == self.cells@.len(),
                    idx <= len,
                    *self == cur_grid,
                    show as int == spec_fx_mul(self.period as int, 1250),
                    grow as int == spec_fx_div(self.period as int, 4),
                    acc.obstacles_to_add@.len() == old(acc).obstacles_to_add@.len()
                        + spec_live_count(self.cells@, idx as int),
                    forall|i: int|
                        0 <= i < old(acc).obstacles_to_add@.len()
                            ==> #[trigger] acc.obstacles_to_add@[i] == old(
                            acc).obstacles_to_add@[i],
                    forall|j: int|
                        old(acc).obstacles_to_add@.len() <= j < acc.obstacles_to_add@.len()
                            ==> crate::obstacles::obst_wf(#[trigger] acc.obstacles_to_add@[j]),
                    forall|j: int|
                        old(acc).obstacles_to_add@.len() <= j < acc.obstacles_to_add@.len()
                            ==> spec_gol_spawned(
                            *self, screen, warning, #[trigger] acc.obstacles_to_add@[j]),
                    (pfac.x as int, pfac.y as int) == spec_gol_cell(*self, screen),
                    (half.x as int, half.y as int) == (
                        spec_fx_div(pfac.x as int, 2),
                        spec_fx_div(pfac.y as int, 2),
                    ),
                    v2_wf(pfac) && pfac.x >= 0 && pfac.y >= 0,
                    grow > 0,
                    accum_same_but_obsts(*acc, *old(acc)),
                decreases len - idx,
            {
                let x = idx % w;
                let y = idx / w;
                proof {
                    vstd::arithmetic::div_mod::lemma_mod_bound(idx as int, w as int);
                    vstd::arithmetic::div_mod::lemma_multiply_divide_lt(
                        idx as int, w as int, h as int);
                    assert(idx < h * w) by (nonlinear_arith)
                        requires
                            idx < len,
                            len == self.width * self.height,
                            w == self.width,
                            h == self.height,
                            1 <= self.width,
                    ;
                }
                let live = self.get(x as i64, y as i64);
                proof {
                    vstd::arithmetic::div_mod::lemma_fundamental_div_mod(idx as int, w as int);
                    assert((idx as int) / (w as int) * (w as int) == (w as int) * ((idx as int) / (
                    w as int))) by (nonlinear_arith);
                    assert(((idx as int) / (w as int)) * (w as int) + (idx as int) % (w as int)
                        == idx as int);
                    assert(live == self.cells@[idx as int]);
                }
                let ghost pre = acc.obstacles_to_add@;
                if live {
                    let center = Vec2 {
                        x: fx_add(fx_mul(step_fx(x), pfac.x), half.x),
                        y: fx_add(fx_mul(step_fx(y), pfac.y), half.y),
                    };
                    acc.obst(
                        Obstacle::RotatableRect(
                            RotatableRect {
                                center,
                                size: pfac,
                                rot: Rot { c: FX_ONE, s: 0 },
                                warning_time: warning,
                                show_time: show,
                                current_time: 0,
                                grow_time: grow,
                            },
                        ),
                    );
                }
                proof {
                    let cur = acc.obstacles_to_add@;
                    assert(forall|i: int| 0 <= i < pre.len() ==> #[trigger] cur[i] == pre[i]);
                    if live {
                        assert(spec_gol_get(*self, x as int, y as int));
                        assert(spec_gol_spawned(*self, screen, warning, cur.last()));
                    }
                    lemma_live_count_bounds(self.cells@, idx as int);
                    assert(spec_live_count(self.cells@, idx + 1) == spec_live_count(
                        self.cells@, idx as int) + (if self.cells@[idx as int] {
                        1int
                    } else {
                        0int
                    }));
                }
                idx += 1;
            }
        }
        proof {
            lemma_live_count_bounds(self.cells@, self.cells@.len() as int);
            assert(acc.obstacles_to_add@.subrange(0, old(acc).obstacles_to_add@.len() as int)
                =~= old(acc).obstacles_to_add@);
        }
    }
}

} // verus!
