//! A block table held as a value: the built-in table, or one loaded from
//! elsewhere and validated before use.
//!
//! A [`BlockIndex`] owns a vector of ranges.  [`BlockIndex::from_ranges`]
//! accepts a vector only after checking, row by row, that the table is
//! well formed (ordered bounds, sorted, disjoint); a malformed table is
//! rejected with a [`TableError`] naming the first offending row, since a
//! corrupt table would silently return wrong block attributions.

use vstd::prelude::*;

use crate::ranges::{resolves_to, wf_ranges, BlockRange};
use crate::ranges::{in_block, lemma_adjacent_disjoint_implies_wf};
use crate::table::{block_table, lemma_table_wf, table};

verus! {

/// Why a vector of ranges was rejected as a block table.  Each variant
/// names the first row, in scan order, at which the table is malformed.
#[derive(Clone, Copy, Debug, PartialEq, Eq, Structural)]
pub enum TableError {
    /// The row's bounds are inverted: its `low` exceeds its `high`.
    InvertedBounds(usize),
    /// The row does not end strictly before the next row begins, so the
    /// table is unsorted, overlapping, or duplicated at this row.
    OutOfOrder(usize),
}

/// Row `i` of `s` has ordered bounds.
pub open spec fn row_ok(s: Seq<BlockRange>, i: int) -> bool {
    s[i].low <= s[i].high
}

/// Row `i` of `s` ends strictly before the next row begins, when a next
/// row exists.
pub open spec fn pair_ok(s: Seq<BlockRange>, i: int) -> bool {
    i + 1 < s.len() ==> s[i].high < s[i + 1].low
}

/// No row before `i` is malformed.
pub open spec fn clean_before(s: Seq<BlockRange>, i: int) -> bool {
    forall|k: int|
        #![trigger row_ok(s, k)]
        #![trigger pair_ok(s, k)]
        0 <= k < i ==> row_ok(s, k) && pair_ok(s, k)
}

/// A validated block table: sorted ascending and pairwise disjoint, as
/// [`crate::ranges::wf_ranges`] of its view states.
pub struct BlockIndex {
    ranges: Vec<BlockRange>,
}

impl View for BlockIndex {
    type V = Seq<BlockRange>;

    closed spec fn view(&self) -> Seq<BlockRange> {
        self.ranges@
    }
}

impl BlockIndex {
    /// The table behind this index is well formed.
    pub open spec fn wf(&self) -> bool {
        wf_ranges(self@)
    }

    /// Accepts `ranges` as a block table if and only if it is well formed;
    /// otherwise reports the first malformed row, preferring the bounds
    /// check of a row to the order check against its successor.
    pub fn from_ranges(ranges: Vec<BlockRange>) -> (r: Result<BlockIndex, TableError>)
        ensures
            r is Ok <==> wf_ranges(ranges@),
            match r {
                Ok(idx) => idx@ == ranges@ && idx.wf(),
                Err(TableError::InvertedBounds(i)) => i < ranges@.len() && !row_ok(
                    ranges@,
                    i as int,
                ) && clean_before(ranges@, i as int),
                Err(TableError::OutOfOrder(i)) => i + 1 < ranges@.len() && row_ok(
                    ranges@,
                    i as int,
                ) && !pair_ok(ranges@, i as int) && clean_before(ranges@, i as int),
            },
    {
        let n = ranges.len();
        let mut i: usize = 0;
        while i < n
            invariant
                n == ranges@.len(),
                i <= n,
                clean_before(ranges@, i as int),
            decreases n - i,
        {
            let b = ranges[i];
            if b.high < b.low {
                return Err(TableError::InvertedBounds(i));
            }
            if i + 1 < n {
                let next = ranges[i + 1];
                if next.low <= b.high {
                    return Err(TableError::OutOfOrder(i));
                }
            }
            proof {
                assert(row_ok(ranges@, i as int));
                assert(pair_ok(ranges@, i as int));
                assert(clean_before(ranges@, i as int + 1));
            }
            i = i + 1;
        }
        proof {
            assert forall|k: int| 0 <= k < ranges@.len() implies (#[trigger] ranges@[k]).low
                <= ranges@[k].high by {
                assert(row_ok(ranges@, k));
            }
            assert forall|k: int, j: int|
                0 <= k && k + 1 == j && j < ranges@.len() implies (#[trigger] ranges@[k]).high < (
            #[trigger] ranges@[j]).low by {
                assert(pair_ok(ranges@, k));
            }
            lemma_adjacent_disjoint_implies_wf(ranges@);
        }
        Ok(BlockIndex { ranges })
    }

    /// The built-in Unicode block table as an index.
    pub fn builtin() -> (r: BlockIndex)
        ensures
            r@ == table(),
            r.wf(),
    {
        proof {
            lemma_table_wf();
        }
        BlockIndex { ranges: block_table() }
    }

    /// Number of ranges in the table.
    pub fn len(&self) -> (n: usize)
        ensures
            n == self@.len(),
    {
        self.ranges.len()
    }

    /// The range at row `i` of the table.
    pub fn get(&self, i: usize) -> (b: BlockRange)
        requires
            i < self@.len(),
        ensures
            b == self@[i as int],
    {
        self.ranges[i]
    }

    /// The row index of the range containing `c`, or `None` when no range
    /// of this table contains it.  Binary search over the sorted table.
    pub fn find(&self, c: u32) -> (r: Option<usize>)
        requires
            self.wf(),
        ensures
            resolves_to(self@, c, r),
    {
        let mut lo: usize = 0;
        let mut hi: usize = self.ranges.len();
        while lo < hi
            invariant
                lo <= hi <= self@.len(),
                self.wf(),
                forall|j: int|
                    0 <= j < self@.len() && #[trigger] in_block(self@[j], c) ==> lo <= j < hi,
            decreases hi - lo,
        {
            let mid = lo + (hi - lo) / 2;
            let b = self.ranges[mid];
            if b.high < c {
                lo = mid + 1;
            } else if c < b.low {
                hi = mid;
            } else {
                return Some(mid);
            }
        }
        None
    }
}

} // verus!
