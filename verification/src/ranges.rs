//! Block ranges and the properties a block table must satisfy.
//!
//! A block table is a sequence of [`BlockRange`] values that is sorted
//! ascending by `low` and whose ranges are pairwise disjoint.  Everything
//! here is generic over such sequences; the built-in Unicode table lives in
//! [`crate::table`].

use vstd::prelude::*;

verus! {

/// One contiguous, named interval of the Unicode codespace, with the
/// inclusive bounds `[low, high]` and informational metadata.
#[derive(Clone, Copy, Debug)]
pub struct BlockRange {
    /// Inclusive lower bound of the interval, as a code point.
    pub low: u32,
    /// Inclusive upper bound of the interval, as a code point.
    pub high: u32,
    /// Human-readable block name, e.g. "Basic Latin".
    pub name: &'static str,
    /// Number of code points in the block (informational).
    pub code_points: u32,
    /// Number of assigned characters in the block (informational).
    pub assigned: u32,
    /// Free-text description of script membership (informational).
    pub scripts: &'static str,
}

/// The code point `c` lies inside the inclusive interval of `b`.
pub open spec fn in_block(b: BlockRange, c: u32) -> bool {
    b.low <= c && c <= b.high
}

/// Every range of `s` has ordered bounds: `low <= high`.
pub open spec fn bounds_ok(s: Seq<BlockRange>) -> bool {
    forall|i: int| 0 <= i < s.len() ==> (#[trigger] s[i]).low <= s[i].high
}

/// Each range of `s` ends strictly before the next one begins.
pub open spec fn adjacent_disjoint(s: Seq<BlockRange>) -> bool {
    forall|i: int, j: int|
        0 <= i && i + 1 == j && j < s.len() ==> (#[trigger] s[i]).high < (#[trigger] s[j]).low
}

/// Any earlier range of `s` ends strictly before any later one begins.
/// This is the transitive closure of [`adjacent_disjoint`]; it is the form
/// a binary search needs, since it relates indices that are far apart.
pub open spec fn strictly_separated(s: Seq<BlockRange>) -> bool {
    forall|i: int, j: int|
        0 <= i < j < s.len() ==> (#[trigger] s[i]).high < (#[trigger] s[j]).low
}

/// A well-formed block table: ordered bounds, sorted ascending, and
/// pairwise disjoint ranges.
pub open spec fn wf_ranges(s: Seq<BlockRange>) -> bool {
    bounds_ok(s) && strictly_separated(s)
}

/// What a lookup of `c` in the table `s` must return: the index of a range
/// that contains `c`, or `None` when no range of `s` contains `c`.
pub open spec fn resolves_to(s: Seq<BlockRange>, c: u32, r: Option<usize>) -> bool {
    match r {
        Some(i) => i < s.len() && in_block(s[i as int], c),
        None => forall|j: int| 0 <= j < s.len() ==> !#[trigger] in_block(s[j], c),
    }
}

/// What a lookup of `c` in the table `s` must return when it hands back the
/// range itself rather than its index.
pub open spec fn resolves_to_block(s: Seq<BlockRange>, c: u32, r: Option<BlockRange>) -> bool {
    match r {
        Some(b) => exists|i: int| 0 <= i < s.len() && s[i] == b && #[trigger] in_block(s[i], c),
        None => forall|j: int| 0 <= j < s.len() ==> !#[trigger] in_block(s[j], c),
    }
}

/// Separation between any two indices follows from separation between
/// neighbours, by walking from `i` to `j`.
proof fn lemma_span(s: Seq<BlockRange>, i: int, j: int)
    requires
        bounds_ok(s),
        adjacent_disjoint(s),
        0 <= i < j < s.len(),
    ensures
        s[i].high < s[j].low,
    decreases j - i,
{
    if i + 1 < j {
        lemma_span(s, i, j - 1);
        assert(s[j - 1].high < s[j].low);
    }
}

/// A table whose neighbouring ranges are disjoint and whose bounds are
/// ordered is well formed.
pub proof fn lemma_adjacent_disjoint_implies_wf(s: Seq<BlockRange>)
    requires
        bounds_ok(s),
        adjacent_disjoint(s),
    ensures
        wf_ranges(s),
{
    assert forall|i: int, j: int| 0 <= i < j < s.len() implies (#[trigger] s[i]).high < (
    #[trigger] s[j]).low by {
        lemma_span(s, i, j);
    }
}

/// In a well-formed table, at most one range contains any given code point.
pub proof fn lemma_match_unique(s: Seq<BlockRange>, c: u32, i: int, j: int)
    requires
        wf_ranges(s),
        0 <= i < s.len(),
        0 <= j < s.len(),
        in_block(s[i], c),
        in_block(s[j], c),
    ensures
        i == j,
{
    if i < j {
        assert(s[i].high < s[j].low);
    }
    if j < i {
        assert(s[j].high < s[i].low);
    }
}

/// Gap correctness: a code point that falls strictly between two
/// neighbouring ranges of a well-formed table is contained in no range at
/// all, so a lookup must return `None`.
pub proof fn lemma_gap_unassigned(s: Seq<BlockRange>, k: int, c: u32)
    requires
        wf_ranges(s),
        0 <= k,
        k + 1 < s.len(),
        s[k].high < c,
        c < s[k + 1].low,
    ensures
        resolves_to(s, c, None),
{
    assert forall|j: int| 0 <= j < s.len() implies !#[trigger] in_block(s[j], c) by {
        if j < k {
            assert(s[j].high < s[k].low);
        }
        if k + 1 < j {
            assert(s[k + 1].high < s[j].low);
        }
    }
}

/// A lookup in a well-formed table is deterministic: any two results for
/// the same code point are equal.  In particular, calling a lookup twice
/// with the same input yields identical results.
pub proof fn lemma_lookup_deterministic(
    s: Seq<BlockRange>,
    c: u32,
    r1: Option<usize>,
    r2: Option<usize>,
)
    requires
        wf_ranges(s),
        resolves_to(s, c, r1),
        resolves_to(s, c, r2),
    ensures
        r1 == r2,
{
    match (r1, r2) {
        (Some(i), Some(j)) => {
            lemma_match_unique(s, c, i as int, j as int);
        },
        (Some(i), None) => {
            assert(in_block(s[i as int], c));
        },
        (None, Some(j)) => {
            assert(in_block(s[j as int], c));
        },
        (None, None) => {},
    }
}

/// Monotonicity: when two code points both resolve, the range of the
/// smaller code point starts no later than the range of the larger one.
pub proof fn lemma_lookup_monotone(s: Seq<BlockRange>, c1: u32, c2: u32, i1: int, i2: int)
    requires
        wf_ranges(s),
        c1 < c2,
        0 <= i1 < s.len(),
        0 <= i2 < s.len(),
        in_block(s[i1], c1),
        in_block(s[i2], c2),
    ensures
        s[i1].low <= s[i2].low,
{
    if i2 < i1 {
        assert(s[i2].high < s[i1].low);
    }
    if i1 < i2 {
        assert(s[i1].high < s[i2].low);
        assert(s[i1].low <= s[i1].high);
    }
}

} // verus!
