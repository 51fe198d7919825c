//! Rate ladders: fixed sets of exact rates a control channel can set in one
//! message (ascending). Arbitrary targets snap to the nearest rung; hotkeys walk
//! one rung at a time.

use vstd::prelude::*;
use crate::rate::dist;

verus! {

/// Index of the first rung among the first `n` nearest to `target`.
pub open spec fn nearest_rung(l: Seq<u32>, target: int, n: int) -> int
    decreases n,
{
    if n <= 1 {
        0
    } else {
        let b = nearest_rung(l, target, n - 1);
        if dist(l[n - 1] as int, target) < dist(l[b] as int, target) {
            n - 1
        } else {
            b
        }
    }
}

/// What [`snap_to_ladder`] returns.
pub open spec fn snap_spec(l: Seq<u32>, target: int) -> Option<u32> {
    if l.len() == 0 {
        None
    } else {
        Some(l[nearest_rung(l, target, l.len() as int)])
    }
}

proof fn lemma_nearest_rung(l: Seq<u32>, target: int, n: int, j: int)
    requires
        1 <= n <= l.len(),
        0 <= j < n,
    ensures
        0 <= nearest_rung(l, target, n) < n,
        dist(l[nearest_rung(l, target, n)] as int, target) <= dist(l[j] as int, target),
    decreases n,
{
    if n > 1 {
        if j < n - 1 {
            lemma_nearest_rung(l, target, n - 1, j);
        } else {
            lemma_nearest_rung(l, target, n - 1, 0);
        }
    }
}

/// Nearest rung to `target`; of two equally near rungs the earlier one (on an
/// ascending ladder: the lower rate), so one target always lands on the same
/// rung. `None` only for an empty ladder.
pub fn snap_to_ladder(ladder: &[u32], target: u32) -> (r: Option<u32>)
    ensures
        r == snap_spec(ladder@, target as int),
{
    let n = ladder.len();
    if n == 0 {
        return None;
    }
    let mut best: usize = 0;
    let mut i: usize = 1;
    while i < n
        invariant
            n == ladder@.len(),
            1 <= i <= n,
            best == nearest_rung(ladder@, target as int, i as int),
            best < i,
        decreases n - i,
    {
        let cand = ladder[i];
        let cur = ladder[best];
        let dc = if cand >= target {
            cand - target
        } else {
            target - cand
        };
        let db = if cur >= target {
            cur - target
        } else {
            target - cur
        };
        if dc < db {
            best = i;
        }
        i = i + 1;
    }
    Some(ladder[best])
}

/// A snapped rate is a rung of the ladder, and no rung lies nearer the target.
pub proof fn law_snap_is_nearest_rung(l: Seq<u32>, target: int, j: int)
    requires
        0 <= j < l.len(),
    ensures
        snap_spec(l, target) is Some,
        l.contains(snap_spec(l, target)->0),
        dist(snap_spec(l, target)->0 as int, target) <= dist(l[j] as int, target),
{
    lemma_nearest_rung(l, target, l.len() as int, j);
    let b = nearest_rung(l, target, l.len() as int);
    assert(l[b] == snap_spec(l, target)->0);
}

/// Index of the first rung at or after `i` strictly above `from`.
pub open spec fn first_above(l: Seq<u32>, from: int, i: int) -> Option<int>
    decreases l.len() - i,
{
    if i >= l.len() || i < 0 {
        None
    } else if l[i] > from {
        Some(i)
    } else {
        first_above(l, from, i + 1)
    }
}

/// Index of the last rung before `n` strictly below `from`.
pub open spec fn last_below(l: Seq<u32>, from: int, n: int) -> Option<int>
    decreases n,
{
    if n <= 0 {
        None
    } else if l[n - 1] < from {
        Some(n - 1)
    } else {
        last_below(l, from, n - 1)
    }
}

/// The rung one hotkey press moves to from `from`: upwards the first rung
/// above it, downwards the last rung below it; past the end of the ladder the
/// end rung itself.
pub open spec fn ladder_step_spec(l: Seq<u32>, from: int, dir: int) -> Option<u32> {
    if dir == 0 || l.len() == 0 {
        None
    } else if dir > 0 {
        match first_above(l, from, 0) {
            Some(i) => Some(l[i]),
            None => Some(l.last()),
        }
    } else {
        match last_below(l, from, l.len() as int) {
            Some(i) => Some(l[i]),
            None => Some(l[0]),
        }
    }
}

proof fn lemma_first_above_bounds(l: Seq<u32>, from: int, i: int)
    requires
        0 <= i,
    ensures
        first_above(l, from, i) matches Some(k) ==> i <= k < l.len() && l[k] > from && forall|
            m: int,
        |
            i <= m < k ==> l[m] <= from,
        first_above(l, from, i) is None ==> forall|m: int| i <= m < l.len() ==> l[m] <= from,
    decreases l.len() - i,
{
    if i < l.len() && l[i] <= from {
        lemma_first_above_bounds(l, from, i + 1);
    }
}

proof fn lemma_last_below_bounds(l: Seq<u32>, from: int, n: int)
    requires
        n <= l.len(),
    ensures
        last_below(l, from, n) matches Some(k) ==> 0 <= k < n && l[k] < from && forall|m: int|
            k < m < n ==> l[m] >= from,
        last_below(l, from, n) is None ==> forall|m: int| 0 <= m < n ==> l[m] >= from,
    decreases n,
{
    if n > 0 && l[n - 1] >= from {
        lemma_last_below_bounds(l, from, n - 1);
    }
}

pub open spec fn strictly_ascending(l: Seq<u32>) -> bool {
    forall|i: int, j: int| 0 <= i < j < l.len() ==> l[i] < l[j]
}

/// On an ascending ladder, a hotkey press from a rung moves exactly one rung:
/// up to the next one and down to the previous one; at either end it stays.
pub proof fn law_ladder_walks_one_rung(l: Seq<u32>, i: int)
    requires
        strictly_ascending(l),
        0 <= i < l.len(),
    ensures
        ladder_step_spec(l, l[i] as int, 1) == Some(
            if i + 1 < l.len() {
                l[i + 1]
            } else {
                l[i]
            },
        ),
        ladder_step_spec(l, l[i] as int, -1) == Some(
            if i > 0 {
                l[i - 1]
            } else {
                l[i]
            },
        ),
{
    lemma_first_above_bounds(l, l[i] as int, 0);
    lemma_last_below_bounds(l, l[i] as int, l.len() as int);
    if i + 1 < l.len() {
        assert(l[i + 1] > l[i]);
    }
    if i > 0 {
        assert(l[i - 1] < l[i]);
    }
}

/// A hotkey press on a ladder always lands on one of its rungs.
pub proof fn law_ladder_step_stays_on_ladder(l: Seq<u32>, from: int, dir: int)
    requires
        dir != 0,
        l.len() > 0,
    ensures
        ladder_step_spec(l, from, dir) is Some,
        l.contains(ladder_step_spec(l, from, dir)->0),
{
    lemma_first_above_bounds(l, from, 0);
    lemma_last_below_bounds(l, from, l.len() as int);
    if dir > 0 {
        match first_above(l, from, 0) {
            Some(i) => assert(l[i] == ladder_step_spec(l, from, dir)->0),
            None => assert(l[l.len() - 1] == ladder_step_spec(l, from, dir)->0),
        }
    } else {
        match last_below(l, from, l.len() as int) {
            Some(i) => assert(l[i] == ladder_step_spec(l, from, dir)->0),
            None => assert(l[0] == ladder_step_spec(l, from, dir)->0),
        }
    }
}

/// One hotkey press along a ladder (`dir`: `+1` up, `-1` down); `None` for
/// `dir == 0` or an empty ladder.
pub fn ladder_step(ladder: &[u32], from: u32, dir: i32) -> (r: Option<u32>)
    ensures
        r == ladder_step_spec(ladder@, from as int, dir as int),
{
    let n = ladder.len();
    if dir == 0 || n == 0 {
        return None;
    }
    proof {
        lemma_first_above_bounds(ladder@, from as int, 0);
        lemma_last_below_bounds(ladder@, from as int, n as int);
    }
    if dir > 0 {
        let mut i: usize = 0;
        while i < n
            invariant
                n == ladder@.len(),
                dir > 0,
                i <= n,
                first_above(ladder@, from as int, 0) == first_above(ladder@, from as int, i as int),
            decreases n - i,
        {
            if ladder[i] > from {
                return Some(ladder[i]);
            }
            i = i + 1;
        }
        Some(ladder[n - 1])
    } else {
        let mut k: usize = n;
        while k > 0
            invariant
                n == ladder@.len(),
                dir < 0,
                k <= n,
                last_below(ladder@, from as int, n as int) == last_below(
                    ladder@,
                    from as int,
                    k as int,
                ),
            decreases k,
        {
            if ladder[k - 1] < from {
                return Some(ladder[k - 1]);
            }
            k = k - 1;
        }
        Some(ladder[0])
    }
}

} // verus!
