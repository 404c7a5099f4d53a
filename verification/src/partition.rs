//! Partitioning of the dataset item index range over population workers.
//!
//! Dataset population is parallelized: the item range `[0, count)` is split
//! into one contiguous sub-range per worker, sized `count / thread_count`,
//! with the final worker additionally absorbing the remainder
//! `count % thread_count`.  [`partition_ranges`] computes that plan, and
//! [`lemma_partition_exact_cover`] proves that the plan covers every item
//! index exactly once — no gaps, no overlaps — which is what makes it safe
//! to hand each worker disjoint write access to its sub-range.

use vstd::arithmetic::div_mod::lemma_fundamental_div_mod;
use vstd::arithmetic::div_mod::lemma_mod_bound;
use vstd::prelude::*;

verus! {

/// Item index `k` lies inside the range `rg` = (start, length).
pub open spec fn in_range(rg: (u64, u64), k: int) -> bool {
    rg.0 <= k < rg.0 + rg.1
}

/// Some range of the plan contains item index `k`.
pub open spec fn plan_covers(r: Seq<(u64, u64)>, k: int) -> bool {
    exists|i: int| 0 <= i < r.len() && #[trigger] in_range(r[i], k)
}

/// The shape of a population plan for `count` items over `r.len()` workers:
/// the first range starts at zero, each further range starts where the
/// previous one ended, and the last range ends at `count`.
pub open spec fn plan_wf(r: Seq<(u64, u64)>, count: u64) -> bool {
    &&& r.len() >= 1
    &&& r[0].0 == 0
    &&& (forall|i: int| 1 <= i < r.len() ==> (#[trigger] r[i]).0 == r[i - 1].0 + r[i - 1].1)
    &&& r[r.len() - 1].0 + r[r.len() - 1].1 == count
}

/// The population plan itself: one `(start, length)` range per worker.
/// Every worker gets `count / thread_count` items, and the last worker
/// additionally absorbs the `count % thread_count` remainder, so the ranges
/// tile `[0, count)` exactly; when `thread_count <= count`, no range is
/// empty.
pub fn partition_ranges(count: u64, thread_count: u8) -> (r: Vec<(u64, u64)>)
    requires
        thread_count >= 1,
    ensures
        r@.len() == thread_count as int,
        plan_wf(r@, count),
        forall|i: int|
            0 <= i < r@.len() - 1 ==> (#[trigger] r@[i]).1 == count as int / thread_count as int,
        r@[r@.len() - 1].1 == count as int / thread_count as int + count as int % thread_count
            as int,
        count >= thread_count ==> forall|i: int| 0 <= i < r@.len() ==> (#[trigger] r@[i]).1 >= 1,
{
    let tc: u64 = thread_count as u64;
    let per: u64 = count / tc;
    let rem: u64 = count % tc;
    proof {
        lemma_fundamental_div_mod(count as int, tc as int);
    }
    let mut r: Vec<(u64, u64)> = Vec::new();
    let mut start: u64 = 0;
    let mut i: u8 = 0;
    while i < thread_count
        invariant
            0 <= i <= thread_count,
            thread_count >= 1,
            tc == thread_count as u64,
            per == count as int / tc as int,
            rem == count as int % tc as int,
            count == tc * per + rem,
            r@.len() == i as int,
            i < thread_count ==> start == i as int * per,
            i == thread_count ==> start == count,
            r@.len() >= 1 ==> r@[0].0 == 0,
            forall|j: int| 1 <= j < r@.len() ==> (#[trigger] r@[j]).0 == r@[j - 1].0 + r@[j - 1].1,
            forall|j: int| 0 <= j < r@.len() - 1 ==> (#[trigger] r@[j]).1 == per,
            r@.len() >= 1 && i < thread_count ==> r@[r@.len() - 1].1 == per,
            i == thread_count ==> r@[r@.len() - 1].1 == per + rem,
            r@.len() >= 1 ==> r@[r@.len() - 1].0 + r@[r@.len() - 1].1 == start,
        decreases thread_count - i,
    {
        proof {
            assert((i as int + 1) * per == i as int * per + per) by (nonlinear_arith);
            assert(i as int + 1 <= tc as int ==> (i as int + 1) * per <= tc as int * per)
                by (nonlinear_arith)
                requires
                    per >= 0,
            ;
        }
        let len: u64 = if i == thread_count - 1 {
            per + rem
        } else {
            per
        };
        let ghost pre = r@;
        r.push((start, len));
        proof {
            assert(r@ =~= pre.push((start, len)));
            assert(r@[i as int] == ((start, len)));
        }
        start = start + len;
        i = i + 1;
    }
    proof {
        if count >= thread_count {
            assert(per >= 1) by {
                lemma_mod_bound(count as int, tc as int);
                if per < 1 {
                    assert(tc * per <= 0) by (nonlinear_arith)
                        requires
                            per <= 0,
                            tc >= 1,
                    ;
                }
            }
        }
    }
    r
}

/// Within a well-formed plan, an earlier range ends no later than a later
/// range starts, and every range ends within the plan's total extent.
proof fn lemma_plan_ordered(r: Seq<(u64, u64)>, count: u64, i: int, j: int)
    requires
        plan_wf(r, count),
        0 <= i <= j < r.len(),
    ensures
        r[i].0 + r[i].1 <= r[j].0 + r[j].1,
        i < j ==> r[i].0 + r[i].1 <= r[j].0,
    decreases j - i,
{
    if i < j {
        lemma_plan_ordered(r, count, i, j - 1);
    }
}

/// Every item index below the end of range `j` is covered by some range of
/// the plan with index at most `j`.
proof fn lemma_plan_covers_prefix(r: Seq<(u64, u64)>, count: u64, j: int)
    requires
        plan_wf(r, count),
        0 <= j < r.len(),
    ensures
        forall|k: int| 0 <= k < r[j].0 + r[j].1 ==> plan_covers(r, k),
    decreases j,
{
    if j == 0 {
        assert forall|k: int| 0 <= k < r[0].0 + r[0].1 implies plan_covers(r, k) by {
            assert(in_range(r[0], k));
        }
    } else {
        lemma_plan_covers_prefix(r, count, j - 1);
        assert forall|k: int| 0 <= k < r[j].0 + r[j].1 implies plan_covers(r, k) by {
            if k >= r[j].0 {
                assert(in_range(r[j], k));
            } else {
                assert(k < r[j - 1].0 + r[j - 1].1);
            }
        }
    }
}

/// Law: a well-formed population plan for `count` items covers exactly the
/// item indices `[0, count)`, and no index is covered by two different
/// ranges — the union of all worker ranges is `[0, count)`, each item
/// exactly once.
pub proof fn lemma_partition_exact_cover(r: Seq<(u64, u64)>, count: u64)
    requires
        plan_wf(r, count),
    ensures
        forall|k: int| 0 <= k < count ==> plan_covers(r, k),
        forall|k: int| plan_covers(r, k) ==> 0 <= k < count,
        forall|i: int, j: int, k: int|
            0 <= i < r.len() && 0 <= j < r.len() && i != j ==> !(#[trigger] in_range(r[i], k)
                && #[trigger] in_range(r[j], k)),
{
    let last = r.len() - 1;
    lemma_plan_covers_prefix(r, count, last);
    assert forall|k: int| plan_covers(r, k) implies 0 <= k < count by {
        let i = choose|i: int| 0 <= i < r.len() && #[trigger] in_range(r[i], k);
        lemma_plan_ordered(r, count, i, last);
    }
    assert forall|i: int, j: int, k: int|
        0 <= i < r.len() && 0 <= j < r.len() && i != j implies !(#[trigger] in_range(r[i], k)
        && #[trigger] in_range(r[j], k)) by {
        if in_range(r[i], k) && in_range(r[j], k) {
            if i < j {
                lemma_plan_ordered(r, count, i, j);
            } else {
                lemma_plan_ordered(r, count, j, i);
            }
        }
    }
}

} // verus!
