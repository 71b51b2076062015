//! What the engine concludes from the persisted heights before it resumes,
//! and how long it waits for the database.

use vstd::prelude::*;
use crate::error::IngestError;

verus! {

/// The lowest and the top persisted height and the sum of all of them, as
/// one aggregate query returns them.
#[derive(Debug, Copy, Clone, PartialEq, Eq)]
pub struct HeightSummary {
    pub lowest: u64,
    pub top: u64,
    pub sum: u64,
}

/// The sum of the integers from `lo` to `hi`, both included; zero where
/// `hi < lo`.
pub open spec fn range_sum(lo: int, hi: int) -> int
    decreases hi - lo + 1,
{
    if hi < lo {
        0
    } else {
        range_sum(lo, hi - 1) + hi
    }
}

/// The stored sum is the sum of the range from the lowest to the top height.
pub open spec fn consistent(summary: HeightSummary) -> bool {
    range_sum(summary.lowest as int, summary.top as int) == summary.sum
}

/// Twice the sum of a range is the sum of its ends times its length.
pub proof fn lemma_range_sum_closed_form(lo: int, hi: int)
    requires
        lo <= hi + 1,
    ensures
        2 * range_sum(lo, hi) == (lo + hi) * (hi - lo + 1),
    decreases hi - lo + 1,
{
    if hi < lo {
        assert((lo + hi) * (hi - lo + 1) == 0) by (nonlinear_arith)
            requires
                hi - lo + 1 == 0,
        ;
    } else {
        lemma_range_sum_closed_form(lo, hi - 1);
        assert((lo + hi) * (hi - lo + 1) == (lo + hi - 1) * (hi - lo) + 2 * hi)
            by (nonlinear_arith);
    }
}

/// The sum of the range from `lowest` to `top`.
pub fn sum_of_range(lowest: u64, top: u64) -> (total: u128)
    ensures
        total == range_sum(lowest as int, top as int),
{
    if top < lowest {
        return 0;
    }
    let count: u128 = (top - lowest) as u128 + 1;
    let ends: u128 = lowest as u128 + top as u128;
    proof {
        lemma_range_sum_closed_form(lowest as int, top as int);
    }
    if count % 2 == 0 {
        let half: u128 = count / 2;
        assert(half * ends <= 0x8000_0000_0000_0000 * 0x1_ffff_ffff_ffff_fffe) by (nonlinear_arith)
            requires
                0 <= half <= 0x8000_0000_0000_0000,
                0 <= ends <= 0x1_ffff_ffff_ffff_fffe,
        ;
        assert(2 * (half * ends) == ends * count) by (nonlinear_arith)
            requires
                count == 2 * half,
        ;
        half * ends
    } else {
        let half: u128 = ends / 2;
        assert(ends % 2 == 0);
        assert(count * half <= 0x1_0000_0000_0000_0000 * 0xffff_ffff_ffff_ffff) by (nonlinear_arith)
            requires
                0 <= count <= 0x1_0000_0000_0000_0000,
                0 <= half <= 0xffff_ffff_ffff_ffff,
        ;
        assert(2 * (count * half) == ends * count) by (nonlinear_arith)
            requires
                ends == 2 * half,
        ;
        count * half
    }
}

/// What the consistency check answers for a summary of the persisted heights.
pub open spec fn toprec_spec(summary: Option<HeightSummary>) -> Result<Option<u64>, IngestError> {
    match summary {
        None => Ok(None),
        Some(s) => if consistent(s) {
            Ok(Some(s.top))
        } else {
            Err(
                IngestError::InconsistentHeights {
                    expected: range_sum(s.lowest as int, s.top as int) as u128,
                    stored: s.sum,
                },
            )
        },
    }
}

/// The consistency check that runs once before catch-up. With no persisted
/// height there is no top height. Otherwise the sum of the range from the
/// lowest to the top height is computed anew and held against the stored
/// sum: the top height is returned where they agree, and the mismatch is an
/// error.
pub fn toprec(summary: Option<HeightSummary>) -> (r: Result<Option<u64>, IngestError>)
    ensures
        r == toprec_spec(summary),
{
    match summary {
        None => Ok(None),
        Some(s) => {
            let expected = sum_of_range(s.lowest, s.top);
            if expected == s.sum as u128 {
                Ok(Some(s.top))
            } else {
                Err(IngestError::InconsistentHeights { expected: expected, stored: s.sum })
            }
        },
    }
}

/// The lowest persisted height where it is not zero, which is unusual but
/// not an error.
pub fn unusual_lowest(summary: Option<HeightSummary>) -> (lowest: Option<u64>)
    ensures
        lowest == match summary {
            Some(s) => if s.lowest != 0 {
                Some(s.lowest)
            } else {
                None
            },
            None => None,
        },
{
    match summary {
        Some(s) => if s.lowest != 0 {
            Some(s.lowest)
        } else {
            None
        },
        None => None,
    }
}

// ---------------------------------------------------------------------
// What the sum identity proves
// ---------------------------------------------------------------------

/// Heights as storage lists them: keyed by height, so none occurs twice,
/// here in increasing order.
pub open spec fn strictly_increasing(heights: Seq<nat>) -> bool {
    forall|i: int, j: int| 0 <= i < j < heights.len() ==> heights[i] < heights[j]
}

/// The sum of all heights.
pub open spec fn total(heights: Seq<nat>) -> nat
    decreases heights.len(),
{
    if heights.len() == 0 {
        0
    } else {
        total(heights.drop_last()) + heights.last()
    }
}

/// Every height from the first to the last is there.
pub open spec fn gapless(heights: Seq<nat>) -> bool {
    forall|i: int| 0 <= i < heights.len() ==> #[trigger] heights[i] == heights[0] + i
}

/// The summary that the aggregate query returns for these heights.
pub open spec fn summarizes(summary: HeightSummary, heights: Seq<nat>) -> bool {
    &&& heights.len() > 0
    &&& summary.lowest == heights.first()
    &&& summary.top == heights.last()
    &&& summary.sum == total(heights)
}

/// Extending a range of natural numbers upwards never lowers its sum, and
/// raises it where the range grows.
pub proof fn lemma_range_sum_grows(lo: int, a: int, b: int)
    requires
        0 <= lo <= a <= b,
    ensures
        range_sum(lo, a) <= range_sum(lo, b),
        a < b ==> range_sum(lo, a) < range_sum(lo, b),
    decreases b - a,
{
    if a < b {
        lemma_range_sum_grows(lo, a, b - 1);
    }
}

/// Distinct heights between a lowest and a top one add up to at most the
/// sum of that range, and to exactly that sum only if none is missing.
pub proof fn lemma_total_bounded_by_range(heights: Seq<nat>)
    requires
        heights.len() > 0,
        strictly_increasing(heights),
    ensures
        total(heights) <= range_sum(heights.first() as int, heights.last() as int),
        total(heights) == range_sum(heights.first() as int, heights.last() as int) <==> gapless(
            heights,
        ),
    decreases heights.len(),
{
    let lo = heights.first() as int;
    let hi = heights.last() as int;
    if heights.len() == 1 {
        assert(heights.drop_last().len() == 0);
        assert(total(heights.drop_last()) == 0);
        assert(range_sum(lo, lo - 1) == 0);
    } else {
        let rest = heights.drop_last();
        let below = rest.last() as int;
        assert(rest.first() == heights[0]);
        assert(rest.last() == heights[heights.len() - 2]);
        assert(forall|i: int| 0 <= i < rest.len() ==> rest[i] == heights[i]);
        assert(lo <= below) by {
            if rest.len() > 1 {
                assert(heights[0] < heights[heights.len() - 2]);
            }
        }
        assert(below < hi);
        lemma_total_bounded_by_range(rest);
        lemma_range_sum_grows(lo, below, hi - 1);
        if gapless(heights) {
            assert(gapless(rest));
            assert(heights[heights.len() - 2] == heights[0] + (heights.len() - 2));
            assert(heights[heights.len() - 1] == heights[0] + (heights.len() - 1));
        }
        if gapless(rest) && below == hi - 1 {
            assert forall|i: int| 0 <= i < heights.len() implies #[trigger] heights[i]
                == heights[0] + i by {
                if i < rest.len() {
                    assert(rest[i] == rest[0] + i);
                } else {
                    assert(rest[rest.len() - 1] == rest[0] + (rest.len() - 1));
                }
            }
        }
    }
}

/// Where storage keeps one block per height, the consistency check accepts
/// the summary of the persisted heights if and only if every height from the
/// lowest to the top one is persisted.
pub proof fn lemma_consistent_iff_gapless(summary: HeightSummary, heights: Seq<nat>)
    requires
        strictly_increasing(heights),
        summarizes(summary, heights),
    ensures
        consistent(summary) <==> gapless(heights),
        toprec_spec(Some(summary)) == Ok::<Option<u64>, IngestError>(Some(summary.top)) <==> gapless(
            heights,
        ),
{
    lemma_total_bounded_by_range(heights);
}

} // verus!
