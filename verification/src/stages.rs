//! The stage calculator: which interval of an ordered list of boundaries a
//! point in time falls into.
//!
//! With boundaries `t1 < t2 < ... < tn`, stage `0` lasts until just before
//! `t1`, stage `k` from `tk` until just before the next boundary, and stage `n`
//! from `tn` on. A boundary belongs to the stage that begins at it.

use vstd::prelude::*;

verus! {

/// Whether each boundary is strictly greater than the one before it.
pub open spec fn strictly_increasing(boundaries: Seq<u64>) -> bool {
    forall|i: int, j: int| 0 <= i < j < boundaries.len() ==> boundaries[i] < boundaries[j]
}

/// The index of the first boundary at or after `from` that `now` falls
/// before; the number of boundaries where there is none.
pub open spec fn stage_from(now: u64, boundaries: Seq<u64>, from: int) -> int
    decreases boundaries.len() - from,
{
    if from < 0 || from >= boundaries.len() || now < boundaries[from] {
        from
    } else {
        stage_from(now, boundaries, from + 1)
    }
}

/// The stage that `now` falls into: the index of the first boundary that `now`
/// falls before, or the number of boundaries once the last one has passed.
pub open spec fn stage_index(now: u64, boundaries: Seq<u64>) -> int {
    stage_from(now, boundaries, 0)
}

/// What the search for the stage finds: every boundary before the stage has
/// been reached, and the boundary of the stage, if any, has not.
pub proof fn lemma_stage_from(now: u64, boundaries: Seq<u64>, from: int)
    requires
        0 <= from <= boundaries.len(),
    ensures
        ({
            let k = stage_from(now, boundaries, from);
            &&& from <= k <= boundaries.len()
            &&& k < boundaries.len() ==> now < boundaries[k]
            &&& forall|j: int| from <= j < k ==> boundaries[j] <= now
        }),
    decreases boundaries.len() - from,
{
    if from < boundaries.len() && now >= boundaries[from] {
        lemma_stage_from(now, boundaries, from + 1);
    }
}

/// With strictly increasing boundaries, the stage of `now` is `k` exactly if
/// `now` has reached the boundary before stage `k`, if there is one, and has
/// not reached the boundary that ends it, if there is one.
pub proof fn lemma_stage_is_interval(now: u64, boundaries: Seq<u64>, k: int)
    requires
        strictly_increasing(boundaries),
        0 <= k <= boundaries.len(),
    ensures
        stage_index(now, boundaries) == k <==> {
            &&& k > 0 ==> boundaries[k - 1] <= now
            &&& k < boundaries.len() ==> now < boundaries[k]
        },
{
    lemma_stage_from(now, boundaries, 0);
    let s = stage_index(now, boundaries);
    if s < k {
        assert(boundaries[s] <= boundaries[k - 1]);
    }
    if s > k {
        assert(boundaries[k] <= now);
    }
}

/// At each boundary the stage changes: just before boundary `k` the stage is
/// `k`, at the boundary it is `k + 1`, and just after it the stage is still
/// `k + 1` unless the next boundary follows immediately.
pub proof fn lemma_stage_at_boundary(boundaries: Seq<u64>, k: int)
    requires
        strictly_increasing(boundaries),
        0 <= k < boundaries.len(),
    ensures
        boundaries[k] > 0 ==> stage_index((boundaries[k] - 1) as u64, boundaries) == k,
        stage_index(boundaries[k], boundaries) == k + 1,
        boundaries[k] < u64::MAX && (k + 1 < boundaries.len() ==> boundaries[k] + 1
            < boundaries[k + 1]) ==> stage_index((boundaries[k] + 1) as u64, boundaries) == k + 1,
{
    if boundaries[k] > 0 {
        if k > 0 {
            assert(boundaries[k - 1] < boundaries[k]);
        }
        lemma_stage_is_interval((boundaries[k] - 1) as u64, boundaries, k);
    }
    if k + 1 < boundaries.len() {
        assert(boundaries[k] < boundaries[k + 1]);
    }
    lemma_stage_is_interval(boundaries[k], boundaries, k + 1);
    if boundaries[k] < u64::MAX {
        lemma_stage_is_interval((boundaries[k] + 1) as u64, boundaries, k + 1);
    }
}

/// The stage never goes back as time goes on.
pub proof fn lemma_stage_monotonic(earlier: u64, later: u64, boundaries: Seq<u64>)
    requires
        earlier <= later,
    ensures
        stage_index(earlier, boundaries) <= stage_index(later, boundaries),
{
    lemma_stage_from(earlier, boundaries, 0);
    lemma_stage_from(later, boundaries, 0);
    let a = stage_index(earlier, boundaries);
    let b = stage_index(later, boundaries);
    if b < a {
        assert(boundaries[b] <= earlier);
    }
}

/// Computes the stage that `now` falls into.
pub fn stage_of(now: u64, boundaries: &Vec<u64>) -> (stage: usize)
    ensures
        stage == stage_index(now, boundaries@),
        stage <= boundaries@.len(),
        stage < boundaries@.len() ==> now < boundaries@[stage as int],
        forall|j: int| 0 <= j < stage ==> boundaries@[j] <= now,
{
    let mut i: usize = 0;
    while i < boundaries.len() && now >= boundaries[i]
        invariant
            i <= boundaries@.len(),
            stage_index(now, boundaries@) == stage_from(now, boundaries@, i as int),
            forall|j: int| 0 <= j < i ==> boundaries@[j] <= now,
        decreases boundaries@.len() - i,
    {
        i += 1;
    }
    i
}

/// Whether the boundaries are strictly increasing.
pub fn is_strictly_increasing(boundaries: &Vec<u64>) -> (yes: bool)
    ensures
        yes == strictly_increasing(boundaries@),
{
    let mut i: usize = 1;
    while i < boundaries.len()
        invariant
            1 <= i,
            forall|a: int, b: int| 0 <= a < b < i && b < boundaries@.len() ==> boundaries@[a]
                < boundaries@[b],
        decreases boundaries@.len() - i,
    {
        if boundaries[i - 1] >= boundaries[i] {
            return false;
        }
        proof {
            assert forall|a: int, b: int| 0 <= a < b < i + 1 && b < boundaries@.len() implies boundaries@[a]
                < boundaries@[b] by {
                if b == i && a < i - 1 {
                    assert(boundaries@[a] < boundaries@[i - 1]);
                }
            }
        }
        i += 1;
    }
    true
}

} // verus!
