use unicode_blocks::lookup::{find_block, find_block_index, CharBlock};
use unicode_blocks::table::{block_table, entry, BLOCK_COUNT};

#[test]
fn basic_latin_whole_range() {
    for c in 0x0000u32..=0x007F {
        let b = find_block(c).unwrap();
        assert_eq!(b.name, "Basic Latin");
        assert_eq!(b.low, 0x0000);
        assert_eq!(b.high, 0x007F);
        assert_eq!(find_block_index(c), Some(0));
    }
}

#[test]
fn surrogates_resolve_to_not_found() {
    for c in 0xD800u32..=0xDFFF {
        assert!(find_block(c).is_none());
        assert!(find_block_index(c).is_none());
        assert!(c.char_block().is_none());
    }
}

#[test]
fn last_code_point_is_supplementary_private_use_b() {
    let b = find_block(0x10FFFF).unwrap();
    assert_eq!(b.name, "Supplementary Private Use Area-B");
    assert_eq!(b.low, 0x100000);
    assert_eq!(b.high, 0x10FFFF);
    assert_eq!(find_block_index(0x10FFFF), Some(BLOCK_COUNT - 1));
}

#[test]
fn cjk_unified_ideographs() {
    let b = find_block(0x4E00).unwrap();
    assert_eq!(b.name, "CJK Unified Ideographs");
    assert_eq!(b.low, 0x4E00);
    assert_eq!(b.high, 0x9FFF);
}

#[test]
fn beyond_codespace_resolves_to_not_found() {
    assert!(find_block(0x110000).is_none());
    assert!(find_block(u32::MAX).is_none());
}

#[test]
fn every_row_is_found_at_its_bounds() {
    let table = block_table();
    for (i, b) in table.iter().enumerate() {
        assert_eq!(find_block_index(b.low), Some(i));
        assert_eq!(find_block_index(b.high), Some(i));
        let mid = b.low + (b.high - b.low) / 2;
        assert_eq!(find_block_index(mid), Some(i));
        let found = find_block(b.low).unwrap();
        assert_eq!(found.name, b.name);
    }
}

#[test]
fn every_gap_resolves_to_not_found() {
    let table = block_table();
    for w in table.windows(2) {
        let (r1, r2) = (&w[0], &w[1]);
        assert!(r1.high < r2.low);
        if r1.high + 1 < r2.low {
            assert!(find_block(r1.high + 1).is_none());
            assert!(find_block(r2.low - 1).is_none());
            let mid = r1.high + 1 + (r2.low - 1 - r1.high - 1) / 2;
            assert!(find_block(mid).is_none());
        }
    }
    assert!(find_block(table[0].low.wrapping_sub(1)).is_none() || table[0].low == 0);
}

#[test]
fn lookup_is_idempotent() {
    let samples = [0x0u32, 0x41, 0x7F, 0x80, 0x2FE0, 0x4E00, 0xD800, 0xE000, 0x10FFFF, 0x110000];
    for &c in samples.iter() {
        let first = find_block(c);
        let second = find_block(c);
        match (first, second) {
            (Some(a), Some(b)) => {
                assert_eq!(a.low, b.low);
                assert_eq!(a.high, b.high);
                assert_eq!(a.name, b.name);
            },
            (None, None) => {},
            _ => panic!("two lookups of one code point disagreed"),
        }
        assert_eq!(find_block_index(c), find_block_index(c));
    }
}

#[test]
fn lookup_is_monotone() {
    let mut last_low: Option<u32> = None;
    let mut c: u32 = 0;
    while c <= 0x110000 {
        if let Some(b) = find_block(c) {
            if let Some(prev) = last_low {
                assert!(prev <= b.low);
            }
            last_low = Some(b.low);
        }
        c += 0x1F;
    }
}

#[test]
fn char_and_u32_lookups_agree() {
    assert_eq!('A'.char_block(), Some(0));
    assert_eq!('A'.char_block(), 0x41u32.char_block());
    assert_eq!('\u{4E00}'.char_block(), 0x4E00u32.char_block());
    assert_eq!('\u{10FFFF}'.char_block(), Some(BLOCK_COUNT - 1));
}

#[test]
fn row_metadata_is_carried() {
    let b = entry(0);
    assert_eq!(b.code_points, 128);
    assert_eq!(b.assigned, 128);
    assert_eq!(b.scripts, "Latin (52 characters), Common (76 characters)");
    let greek = find_block(0x0370).unwrap();
    assert_eq!(greek.name, "Greek and Coptic");
    assert_eq!(greek.code_points, 144);
    assert_eq!(greek.assigned, 135);
}

#[test]
fn table_is_sorted_and_disjoint() {
    let table = block_table();
    assert_eq!(table.len(), BLOCK_COUNT);
    assert_eq!(BLOCK_COUNT, 317);
    for b in table.iter() {
        assert!(b.low <= b.high);
        assert!(!b.name.is_empty());
    }
    for w in table.windows(2) {
        assert!(w[0].high < w[1].low);
    }
}
