//! Exact rates over a player's own keyboard shortcuts.
//!
//! Some players bind keys to *absolute* rates (pressing `2` sets exactly 2×)
//! beside their relative step keys. Pressing the nearest absolute key and then
//! the step key a known number of times lands on a known rate without ever
//! reading the player back.

use vstd::prelude::*;
use crate::rate::{clamp_int, clamp_u32, dist, max_int};

verus! {

/// The keys a player uses for its own rate control (`up`/`down` step, `reset`).
#[derive(Debug, Clone, PartialEq)]
pub struct KeyBindings {
    pub up: String,
    pub down: String,
    pub reset: String,
}

/// An absolute rate key: after pressing `key` the rate is exactly `rate`.
#[derive(Debug, Clone, PartialEq)]
pub struct RateAnchor {
    pub key: String,
    pub rate: u32,
}

/// The rate grid spanned by a player's shortcut keys.
#[derive(Debug, Clone, PartialEq)]
pub struct KeyRateGrid {
    pub anchors: Vec<RateAnchor>,
    /// How much one press of the step keys changes the rate.
    pub step: u32,
    /// The player's own limits; targets outside are brought to the nearest end.
    pub min: u32,
    pub max: u32,
    /// Smallest pause between two step presses, in milliseconds.
    pub step_gap_ms: u64,
}

/// The keys to press for one exact rate change, and the rate they produce.
#[derive(Debug, Clone, PartialEq)]
pub struct KeyPlan {
    /// The absolute key pressed first.
    pub anchor: String,
    /// The step key pressed afterwards (`up` or `down`).
    pub step_key: String,
    pub steps: u32,
    pub rate: u32,
    pub gap_ms: u64,
}

/// The mathematical content of a [`KeyPlan`].
pub struct KeyPlanView {
    pub anchor: Seq<char>,
    pub step_key: Seq<char>,
    pub steps: int,
    pub rate: int,
    pub gap_ms: int,
}

impl View for KeyPlan {
    type V = KeyPlanView;

    open spec fn view(&self) -> KeyPlanView {
        KeyPlanView {
            anchor: self.anchor@,
            step_key: self.step_key@,
            steps: self.steps as int,
            rate: self.rate as int,
            gap_ms: self.gap_ms as int,
        }
    }
}

/// Gap used for custom grids that give none: one notch wider than the
/// threshold measured on the slowest known player.
pub fn default_step_gap_ms() -> (r: u64)
    ensures
        r == 150,
{
    150
}

/// At most this many key presses per exact rate change.
pub const MAX_KEYS: u32 = 12;

/// A rate in whole grid steps, rounded to the nearest step (halves up).
pub open spec fn grid_units(rate: int, step: int) -> int {
    (2 * rate + step) / (2 * step)
}

/// Ordering of anchor candidates: nearer to the target first, then lower rate.
pub open spec fn anchor_better(d1: int, u1: int, d2: int, u2: int) -> bool {
    d1 < d2 || (d1 == d2 && u1 < u2)
}

/// The target of a plan, in grid units: clamped to the grid's limits, then
/// rounded to the grid.
pub open spec fn plan_want(g: KeyRateGrid, target: int) -> int {
    grid_units(clamp_int(target, g.min as int, g.max as int), g.step as int)
}

pub open spec fn anchor_units(g: KeyRateGrid, i: int) -> int {
    grid_units(g.anchors@[i].rate as int, g.step as int)
}

/// Index of the first anchor among the first `n` that is nearest to `want`
/// (ties: lower rate; then the earlier anchor).
pub open spec fn best_anchor(g: KeyRateGrid, want: int, n: int) -> int
    decreases n,
{
    if n <= 1 {
        0
    } else {
        let b = best_anchor(g, want, n - 1);
        if anchor_better(
            dist(anchor_units(g, n - 1), want),
            anchor_units(g, n - 1),
            dist(anchor_units(g, b), want),
            anchor_units(g, b),
        ) {
            n - 1
        } else {
            b
        }
    }
}

/// What [`KeyRateGrid::plan`] produces, if anything.
pub open spec fn plan_spec(g: KeyRateGrid, keys: KeyBindings, target: int) -> Option<KeyPlanView> {
    if g.step == 0 || g.anchors@.len() == 0 {
        None
    } else {
        let want = plan_want(g, target);
        let b = best_anchor(g, want, g.anchors@.len() as int);
        let from = anchor_units(g, b);
        let steps = dist(from, want);
        if steps + 1 > MAX_KEYS {
            None
        } else {
            Some(
                KeyPlanView {
                    anchor: g.anchors@[b].key@,
                    step_key: if want >= from {
                        keys.up@
                    } else {
                        keys.down@
                    },
                    steps,
                    rate: want * g.step,
                    gap_ms: g.step_gap_ms as int,
                },
            )
        }
    }
}

/// Whether a grid can be used at all: a positive step needs ordered limits, and
/// rates stay inside `u32`.
pub open spec fn grid_ok(g: KeyRateGrid) -> bool {
    &&& (g.step > 0 ==> g.min <= g.max)
    &&& g.max as int + g.step as int <= u32::MAX
}

/// Whether a grid meets what planning and stepping need (see [`grid_ok`]).
pub fn grid_usable(g: &KeyRateGrid) -> (r: bool)
    ensures
        r == grid_ok(*g),
{
    (g.step == 0 || g.min <= g.max) && (g.max as u64) + (g.step as u64) <= u32::MAX as u64
}

fn units_of(rate: u32, step: u32) -> (u: u64)
    requires
        step > 0,
    ensures
        u == grid_units(rate as int, step as int),
{
    (2 * (rate as u64) + (step as u64)) / (2 * (step as u64))
}

fn absdiff(a: u64, b: u64) -> (d: u64)
    ensures
        d == dist(a as int, b as int),
{
    if a >= b {
        a - b
    } else {
        b - a
    }
}

proof fn lemma_units_bound(rate: int, step: int)
    requires
        step > 0,
        rate >= 0,
    ensures
        0 <= grid_units(rate, step),
        grid_units(rate, step) * step <= rate + step,
{
    let q = grid_units(rate, step);
    assert(q * (2 * step) <= 2 * rate + step && q >= 0) by (nonlinear_arith)
        requires
            q == (2 * rate + step) / (2 * step),
            step > 0,
            rate >= 0,
    ;
    assert(q * step <= rate + step) by (nonlinear_arith)
        requires
            q * (2 * step) <= 2 * rate + step,
            step > 0,
    ;
}

proof fn lemma_units_small(rate: int, step: int)
    requires
        0 < step <= u32::MAX,
        0 <= rate <= u32::MAX,
    ensures
        0 <= grid_units(rate, step) <= 0x2_0000_0000,
{
    let q = grid_units(rate, step);
    assert(q * (2 * step) <= 2 * rate + step && q >= 0) by (nonlinear_arith)
        requires
            q == (2 * rate + step) / (2 * step),
            step > 0,
            rate >= 0,
    ;
    assert(2 * q <= q * (2 * step)) by (nonlinear_arith)
        requires
            q >= 0,
            step >= 1,
    ;
}

proof fn lemma_best_anchor_range(g: KeyRateGrid, want: int, n: int)
    requires
        1 <= n,
    ensures
        0 <= best_anchor(g, want, n) < n,
    decreases n,
{
    if n > 1 {
        lemma_best_anchor_range(g, want, n - 1);
    }
}

/// Grid units a relative step of `step` moves: the step rounded to whole grid
/// steps, at least one.
pub open spec fn step_moves(step: int, grid_step: int) -> int {
    max_int(1, grid_units(step, grid_step))
}

/// Unclamped rate after one hotkey step from `from` in direction `dir`.
pub open spec fn step_raw(g: KeyRateGrid, from: int, step: int, dir: int) -> int {
    let start = grid_units(clamp_int(from, g.min as int, g.max as int), g.step as int);
    let moves = step_moves(step, g.step as int);
    (if dir < 0 {
        start - moves
    } else {
        start + moves
    }) * g.step
}

/// What [`KeyRateGrid::step_target`] returns.
pub open spec fn step_target_spec(g: KeyRateGrid, from: int, step: int, dir: int) -> Option<int> {
    if g.step == 0 {
        None
    } else {
        Some(clamp_int(step_raw(g, from, step, dir), g.min as int, g.max as int))
    }
}

proof fn lemma_best_anchor_min(g: KeyRateGrid, want: int, n: int, j: int)
    requires
        1 <= n,
        0 <= j < n,
    ensures
        !anchor_better(
            dist(anchor_units(g, j), want),
            anchor_units(g, j),
            dist(anchor_units(g, best_anchor(g, want, n)), want),
            anchor_units(g, best_anchor(g, want, n)),
        ),
    decreases n,
{
    if n > 1 && j < n - 1 {
        lemma_best_anchor_min(g, want, n - 1, j);
    }
}

/// The plan starts from a nearest anchor: no anchor of the grid lies closer
/// (in grid steps) to the target than the one the plan presses first.
pub proof fn law_plan_nearest_anchor(g: KeyRateGrid, keys: KeyBindings, target: int, j: int)
    requires
        plan_spec(g, keys, target) is Some,
        0 <= j < g.anchors@.len(),
    ensures
        ({
            let want = plan_want(g, target);
            let b = best_anchor(g, want, g.anchors@.len() as int);
            &&& plan_spec(g, keys, target)->0.anchor == g.anchors@[b].key@
            &&& dist(anchor_units(g, b), want) <= dist(anchor_units(g, j), want)
        }),
{
    let want = plan_want(g, target);
    lemma_best_anchor_min(g, want, g.anchors@.len() as int, j);
}

/// A plan lands exactly on its rate: pressing the anchor and then moving
/// `steps` grid steps towards the target ends on `rate`, which is the clamped
/// target rounded to the grid; and a plan never needs more than
/// [`MAX_KEYS`] presses.
pub proof fn law_plan_lands_on_its_rate(g: KeyRateGrid, keys: KeyBindings, target: int)
    requires
        plan_spec(g, keys, target) is Some,
    ensures
        ({
            let p = plan_spec(g, keys, target)->0;
            let want = plan_want(g, target);
            let from = anchor_units(g, best_anchor(g, want, g.anchors@.len() as int));
            &&& p.steps + 1 <= MAX_KEYS
            &&& p.rate == want * g.step
            &&& (if want >= from {
                from + p.steps
            } else {
                from - p.steps
            }) == want
        }),
{
}

/// When the grid's limits lie on the grid, every planned rate lies within them.
pub proof fn law_plan_within_limits(g: KeyRateGrid, keys: KeyBindings, target: int)
    requires
        plan_spec(g, keys, target) is Some,
        g.min <= g.max,
        g.min % g.step == 0,
        g.max % g.step == 0,
    ensures
        g.min <= plan_spec(g, keys, target)->0.rate <= g.max,
{
    let s = g.step as int;
    let c = clamp_int(target, g.min as int, g.max as int);
    let a = g.min as int / s;
    let b = g.max as int / s;
    let q = grid_units(c, s);
    assert(a * s == g.min && b * s == g.max) by (nonlinear_arith)
        requires
            g.min as int % s == 0,
            g.max as int % s == 0,
            s > 0,
            a == g.min as int / s,
            b == g.max as int / s,
    ;
    assert(a <= q <= b) by (nonlinear_arith)
        requires
            q == (2 * c + s) / (2 * s),
            a * s <= c <= b * s,
            s > 0,
    ;
    assert(a * s <= q * s <= b * s) by (nonlinear_arith)
        requires
            a <= q <= b,
            s > 0,
    ;
}

/// Asking for the rate of an anchor (on the grid and within the limits) needs
/// no step presses: the plan lands on exactly that rate.
pub proof fn law_anchor_needs_no_steps(g: KeyRateGrid, keys: KeyBindings, i: int)
    requires
        g.step > 0,
        0 <= i < g.anchors@.len(),
        g.anchors@[i].rate % g.step == 0,
        g.min <= g.anchors@[i].rate <= g.max,
    ensures
        plan_spec(g, keys, g.anchors@[i].rate as int) is Some,
        plan_spec(g, keys, g.anchors@[i].rate as int)->0.steps == 0,
        plan_spec(g, keys, g.anchors@[i].rate as int)->0.rate == g.anchors@[i].rate,
{
    let r = g.anchors@[i].rate as int;
    let s = g.step as int;
    let k = r / s;
    assert(k * s == r) by (nonlinear_arith)
        requires
            r % s == 0,
            s > 0,
            k == r / s,
    ;
    assert(grid_units(r, s) == k) by (nonlinear_arith)
        requires
            k * s == r,
            s > 0,
    ;
    let n = g.anchors@.len() as int;
    lemma_best_anchor_min(g, k, n, i);
    lemma_best_anchor_range(g, k, n);
}

/// One hotkey step always lands within the grid's limits, and moves by at least
/// one whole grid step unless a limit stops it.
pub proof fn law_step_target_moves(g: KeyRateGrid, from: int, step: int, dir: int)
    requires
        g.step > 0,
        g.min <= g.max,
        step >= 0,
    ensures
        ({
            let v = step_target_spec(g, from, step, dir)->0;
            let start = grid_units(clamp_int(from, g.min as int, g.max as int), g.step as int);
            let raw = step_raw(g, from, step, dir);
            &&& g.min <= v <= g.max
            &&& (g.min <= raw <= g.max ==> v == raw && v != start * g.step)
            &&& (dir < 0 ==> raw <= (start - 1) * g.step)
            &&& (dir >= 0 ==> raw >= (start + 1) * g.step)
        }),
{
    let s = g.step as int;
    let start = grid_units(clamp_int(from, g.min as int, g.max as int), s);
    let moves = step_moves(step, s);
    assert(moves >= 1);
    assert((start - moves) * s <= (start - 1) * s) by (nonlinear_arith)
        requires
            moves >= 1,
            s > 0,
    ;
    assert((start + moves) * s >= (start + 1) * s) by (nonlinear_arith)
        requires
            moves >= 1,
            s > 0,
    ;
    assert((start - 1) * s < start * s && (start + 1) * s > start * s) by (nonlinear_arith)
        requires
            s > 0,
    ;
}

impl KeyRateGrid {
    /// Target rate → key plan. The target is first brought into
    /// `[min, max]`, then rounded to the `step` grid. Returns `None` when the
    /// grid has no anchor, a zero step, or the plan would need more than
    /// [`MAX_KEYS`] presses.
    pub fn plan(&self, keys: &KeyBindings, target: u32) -> (r: Option<KeyPlan>)
        requires
            grid_ok(*self),
        ensures
            r matches Some(p) ==> plan_spec(*self, *keys, target as int) == Some(p@),
            r is None ==> plan_spec(*self, *keys, target as int) is None,
    {
        if self.step == 0 {
            return None;
        }
        let t = clamp_u32(target, self.min, self.max);
        let want = units_of(t, self.step);
        let n = self.anchors.len();
        if n == 0 {
            return None;
        }
        let ghost g = *self;
        let ghost wantg = want as int;
        let mut best: usize = 0;
        let mut best_u = units_of(self.anchors[0].rate, self.step);
        let mut best_d = absdiff(best_u, want);
        let mut i: usize = 1;
        while i < n
            invariant
                g == *self,
                n == self.anchors@.len(),
                self.step > 0,
                wantg == want as int,
                1 <= i <= n,
                best == best_anchor(g, wantg, i as int),
                best < n,
                best_u == anchor_units(g, best as int),
                best_d == dist(best_u as int, wantg),
            decreases n - i,
        {
            let u = units_of(self.anchors[i].rate, self.step);
            let d = absdiff(u, want);
            if d < best_d || (d == best_d && u < best_u) {
                best = i;
                best_u = u;
                best_d = d;
            }
            i = i + 1;
        }
        if best_d + 1 > MAX_KEYS as u64 {
            return None;
        }
        proof {
            lemma_units_bound(t as int, self.step as int);
        }
        let step_key = if want >= best_u {
            keys.up.clone()
        } else {
            keys.down.clone()
        };
        let rate = (want * (self.step as u64)) as u32;
        Some(
            KeyPlan {
                anchor: self.anchors[best].key.clone(),
                step_key,
                steps: best_d as u32,
                rate,
                gap_ms: self.step_gap_ms,
            },
        )
    }
}

impl KeyRateGrid {
    /// Target of one hotkey step: the current rate moved by a whole number of
    /// grid steps (the hotkey step rounded to the grid, at least one), then
    /// brought into `[min, max]`. `None` for a zero grid step.
    pub fn step_target(&self, from: u32, step: u32, dir: i32) -> (r: Option<u32>)
        requires
            grid_ok(*self),
        ensures
            r matches Some(v) ==> step_target_spec(*self, from as int, step as int, dir as int)
                == Some(v as int),
            r is None ==> step_target_spec(*self, from as int, step as int, dir as int) is None,
    {
        if self.step == 0 {
            return None;
        }
        let gs = self.step;
        let mut moves = units_of(step, gs);
        if moves < 1 {
            moves = 1;
        }
        let start = units_of(clamp_u32(from, self.min, self.max), gs);
        proof {
            lemma_units_small(step as int, gs as int);
            lemma_units_small(clamp_int(from as int, self.min as int, self.max as int), gs as int);
        }
        let units: i128 = if dir < 0 {
            start as i128 - moves as i128
        } else {
            start as i128 + moves as i128
        };
        proof {
            assert(-0x2_0000_0000 <= units <= 0x4_0000_0000);
            assert(-0x2_0000_0000 * (gs as int) <= units * (gs as int) <= 0x4_0000_0000 * (gs as int))
                by (nonlinear_arith)
                requires
                    -0x2_0000_0000 <= units <= 0x4_0000_0000,
                    gs >= 0,
            ;
        }
        let raw: i128 = units * (gs as i128);
        let lo = self.min as i128;
        let hi = self.max as i128;
        let v = if raw < lo {
            lo
        } else if raw > hi {
            hi
        } else {
            raw
        };
        Some(v as u32)
    }
}

} // verus!
