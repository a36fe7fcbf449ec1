//! Binary-search lookup from a code point to its block in the built-in
//! table, and the laws that hold of it.

use vstd::prelude::*;

use crate::ranges::{in_block, resolves_to, resolves_to_block, wf_ranges, BlockRange};
use crate::ranges::{lemma_gap_unassigned, lemma_match_unique};
use crate::table::{block_at, entry, table, BLOCK_COUNT};
use crate::table::lemma_table_wf;

verus! {

/// The index of the built-in block that contains `c`, or `None` when no
/// block does: for unassigned gaps, for the surrogate range, and for values
/// beyond the codespace.  Binary search over the sorted table.
pub fn find_block_index(c: u32) -> (r: Option<usize>)
    ensures
        resolves_to(table(), c, r),
{
    proof {
        lemma_table_wf();
    }
    let mut lo: usize = 0;
    let mut hi: usize = BLOCK_COUNT;
    while lo < hi
        invariant
            lo <= hi <= BLOCK_COUNT,
            wf_ranges(table()),
            forall|j: int|
                0 <= j < table().len() && #[trigger] in_block(table()[j], c) ==> lo <= j < hi,
        decreases hi - lo,
    {
        let mid = lo + (hi - lo) / 2;
        let b = entry(mid);
        proof {
            assert(table()[mid as int] == block_at(mid as int));
        }
        if b.high < c {
            lo = mid + 1;
        } else if c < b.low {
            hi = mid;
        } else {
            return Some(mid);
        }
    }
    None
}

/// The built-in block that contains `c`, or `None` when no block does.
pub fn find_block(c: u32) -> (r: Option<BlockRange>)
    ensures
        resolves_to_block(table(), c, r),
{
    match find_block_index(c) {
        Some(i) => {
            let b = entry(i);
            proof {
                assert(in_block(table()[i as int], c));
            }
            Some(b)
        },
        None => None,
    }
}

/// Anything that stands for a single code point and can be asked for the
/// index of the built-in block containing it.
pub trait CharBlock: Sized {
    /// The code point this value stands for.
    spec fn code_point(self) -> u32;

    /// The index into the built-in table of the block containing this code
    /// point, or `None` when no block contains it.
    fn char_block(self) -> (r: Option<usize>)
        ensures
            resolves_to(table(), self.code_point(), r),
    ;
}

impl CharBlock for u32 {
    open spec fn code_point(self) -> u32 {
        self
    }

    fn char_block(self) -> (r: Option<usize>) {
        find_block_index(self)
    }
}

impl CharBlock for char {
    open spec fn code_point(self) -> u32 {
        self as u32
    }

    fn char_block(self) -> (r: Option<usize>) {
        find_block_index(self as u32)
    }
}

/// Every code point up to 0x7F resolves to the first block of the table,
/// "Basic Latin".
pub proof fn lemma_basic_latin(c: u32, r: Option<BlockRange>)
    requires
        c <= 0x7F,
        resolves_to_block(table(), c, r),
    ensures
        r is Some,
        r.unwrap().name == "Basic Latin",
{
    lemma_table_wf();
    assert(in_block(table()[0], c));
    match r {
        Some(b) => {
            let i = choose|i: int|
                0 <= i < table().len() && table()[i] == b && #[trigger] in_block(table()[i], c);
            lemma_match_unique(table(), c, i, 0);
        },
        None => {
            assert(!in_block(table()[0], c));
        },
    }
}

/// A code point that falls strictly between two neighbouring rows of the
/// built-in table is in no block at all.
pub proof fn lemma_table_gap_unassigned(k: int, c: u32)
    requires
        0 <= k,
        k + 1 < table().len(),
        table()[k].high < c,
        c < table()[k + 1].low,
    ensures
        resolves_to(table(), c, None),
{
    lemma_table_wf();
    lemma_gap_unassigned(table(), k, c);
}

/// Surrogate code points are deliberately absent from the table: every
/// lookup in the range 0xD800 to 0xDFFF resolves to `None`.
pub proof fn lemma_surrogates_unassigned(c: u32, r: Option<BlockRange>)
    requires
        0xD800 <= c <= 0xDFFF,
        resolves_to_block(table(), c, r),
    ensures
        r is None,
{
    assert(table()[148].high == 0xD7FF);
    assert(table()[149].low == 0xE000);
    lemma_table_gap_unassigned(148, c);
    match r {
        Some(b) => {
            let i = choose|i: int|
                0 <= i < table().len() && table()[i] == b && #[trigger] in_block(table()[i], c);
            assert(!in_block(table()[i], c));
        },
        None => {},
    }
}

/// A block lookup is a pure function of its input: any two results that the
/// contract of [`find_block`] admits for the same code point are identical.
pub proof fn lemma_find_block_deterministic(
    c: u32,
    r1: Option<BlockRange>,
    r2: Option<BlockRange>,
)
    requires
        resolves_to_block(table(), c, r1),
        resolves_to_block(table(), c, r2),
    ensures
        r1 == r2,
{
    lemma_table_wf();
    match (r1, r2) {
        (Some(b1), Some(b2)) => {
            let i1 = choose|i: int|
                0 <= i < table().len() && table()[i] == b1 && #[trigger] in_block(table()[i], c);
            let i2 = choose|i: int|
                0 <= i < table().len() && table()[i] == b2 && #[trigger] in_block(table()[i], c);
            lemma_match_unique(table(), c, i1, i2);
        },
        (Some(b1), None) => {
            let i1 = choose|i: int|
                0 <= i < table().len() && table()[i] == b1 && #[trigger] in_block(table()[i], c);
            assert(!in_block(table()[i1], c));
        },
        (None, Some(b2)) => {
            let i2 = choose|i: int|
                0 <= i < table().len() && table()[i] == b2 && #[trigger] in_block(table()[i], c);
            assert(!in_block(table()[i2], c));
        },
        (None, None) => {},
    }
}

/// Monotonicity of [`find_block`]: when two code points both resolve, the
/// block of the smaller code point starts no later than the block of the
/// larger one.
pub proof fn lemma_find_block_monotone(c1: u32, c2: u32, b1: BlockRange, b2: BlockRange)
    requires
        c1 < c2,
        resolves_to_block(table(), c1, Some(b1)),
        resolves_to_block(table(), c2, Some(b2)),
    ensures
        b1.low <= b2.low,
{
    lemma_table_wf();
    let i1 = choose|i: int|
        0 <= i < table().len() && table()[i] == b1 && #[trigger] in_block(table()[i], c1);
    let i2 = choose|i: int|
        0 <= i < table().len() && table()[i] == b2 && #[trigger] in_block(table()[i], c2);
    crate::ranges::lemma_lookup_monotone(table(), c1, c2, i1, i2);
}

} // verus!
