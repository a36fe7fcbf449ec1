use unicode_blocks::index::{BlockIndex, TableError};
use unicode_blocks::ranges::BlockRange;
use unicode_blocks::table::block_table;

fn range(low: u32, high: u32, name: &'static str) -> BlockRange {
    BlockRange { low, high, name, code_points: 0, assigned: 0, scripts: "" }
}

#[test]
fn builtin_index_matches_the_table() {
    let idx = BlockIndex::builtin();
    let table = block_table();
    assert_eq!(idx.len(), table.len());
    for (i, b) in table.iter().enumerate() {
        let got = idx.get(i);
        assert_eq!(got.low, b.low);
        assert_eq!(got.high, b.high);
        assert_eq!(got.name, b.name);
    }
}

#[test]
fn builtin_index_finds_blocks() {
    let idx = BlockIndex::builtin();
    assert_eq!(idx.find(0x41), Some(0));
    assert_eq!(idx.find(0x4E00), Some(120));
    assert_eq!(idx.find(0xD800), None);
    assert_eq!(idx.find(0x110000), None);
    assert_eq!(idx.find(0x10FFFF), Some(idx.len() - 1));
}

#[test]
fn well_formed_tables_are_accepted() {
    assert!(BlockIndex::from_ranges(Vec::new()).is_ok());
    assert!(BlockIndex::from_ranges(block_table()).is_ok());
    let small = vec![range(0, 10, "a"), range(12, 12, "b"), range(20, 30, "c")];
    let idx = BlockIndex::from_ranges(small).unwrap();
    assert_eq!(idx.find(5), Some(0));
    assert_eq!(idx.find(11), None);
    assert_eq!(idx.find(12), Some(1));
    assert_eq!(idx.find(31), None);
}

#[test]
fn inverted_bounds_are_rejected() {
    let bad = vec![range(0, 10, "a"), range(30, 20, "b")];
    assert!(matches!(BlockIndex::from_ranges(bad), Err(TableError::InvertedBounds(1))));
}

#[test]
fn unsorted_tables_are_rejected() {
    let bad = vec![range(20, 30, "a"), range(0, 10, "b")];
    assert!(matches!(BlockIndex::from_ranges(bad), Err(TableError::OutOfOrder(0))));
}

#[test]
fn overlapping_tables_are_rejected() {
    let bad = vec![range(0, 10, "a"), range(10, 20, "b")];
    assert!(matches!(BlockIndex::from_ranges(bad), Err(TableError::OutOfOrder(0))));
}

#[test]
fn first_offending_row_is_reported() {
    let bad = vec![range(0, 10, "a"), range(12, 11, "b"), range(5, 4, "c")];
    assert!(matches!(BlockIndex::from_ranges(bad), Err(TableError::InvertedBounds(1))));
    let bad2 = vec![range(0, 10, "a"), range(12, 13, "b"), range(13, 14, "c"), range(1, 0, "d")];
    assert!(matches!(BlockIndex::from_ranges(bad2), Err(TableError::OutOfOrder(1))));
}
