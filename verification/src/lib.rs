//! Lookup from Unicode code points to the named block that contains them.
//!
//! The Unicode Standard groups code points into named blocks: contiguous,
//! non-overlapping intervals such as "Basic Latin" or "CJK Unified
//! Ideographs".  This crate carries the block list as a built-in, sorted
//! table and answers, by binary search, which block (if any) contains a
//! given code point.  Code points that fall in a gap between blocks, in the
//! surrogate range, or beyond the codespace resolve to "not found"; that is
//! a normal negative result, not an error.

pub mod index;
pub mod lookup;
pub mod ranges;
pub mod table;
