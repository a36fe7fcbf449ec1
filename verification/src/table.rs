//! The built-in Unicode block table.
//!
//! The data is the Unicode block list: 317 named ranges, sorted ascending
//! by their lower bound and pairwise disjoint.  The three surrogate ranges
//! (high surrogates, high private use surrogates, low surrogates,
//! 0xD800-0xDFFF altogether) are deliberately absent, so surrogate code
//! points resolve to "not found"; callers rely on that.
//!
//! The table exists twice, once as specification data ([`block_at`]) and
//! once as executable data ([`entry`]); the contract of [`entry`] ties the
//! two together.  Both are split into a few segments only to keep each
//! solver query small.

use vstd::prelude::*;

use crate::ranges::{BlockRange, wf_ranges};
use crate::ranges::lemma_adjacent_disjoint_implies_wf;

verus! {

/// Number of ranges in the built-in table.
pub const BLOCK_COUNT: usize = 317;

/// Rows 0 to 63 of the built-in table, by row index.
pub open spec fn block_seg0(i: int) -> BlockRange {
    if i == 0 {
        BlockRange { low: 0x0000, high: 0x007F, name: "Basic Latin", code_points: 128, assigned: 128, scripts: "Latin (52 characters), Common (76 characters)" }
    } else if i == 1 {
        BlockRange { low: 0x0080, high: 0x00FF, name: "Latin-1 Supplement", code_points: 128, assigned: 128, scripts: "Latin (64 characters), Common (64 characters)" }
    } else if i == 2 {
        BlockRange { low: 0x0100, high: 0x017F, name: "Latin Extended-A", code_points: 128, assigned: 128, scripts: "Latin" }
    } else if i == 3 {
        BlockRange { low: 0x0180, high: 0x024F, name: "Latin Extended-B", code_points: 208, assigned: 208, scripts: "Latin" }
    } else if i == 4 {
        BlockRange { low: 0x0250, high: 0x02AF, name: "IPA Extensions", code_points: 96, assigned: 96, scripts: "Latin" }
    } else if i == 5 {
        BlockRange { low: 0x02B0, high: 0x02FF, name: "Spacing Modifier Letters", code_points: 80, assigned: 80, scripts: "Bopomofo (2 characters), Latin (14 characters), Common (64 characters)" }
    } else if i == 6 {
        BlockRange { low: 0x0300, high: 0x036F, name: "Combining Diacritical Marks", code_points: 112, assigned: 112, scripts: "Inherited" }
    } else if i == 7 {
        BlockRange { low: 0x0370, high: 0x03FF, name: "Greek and Coptic", code_points: 144, assigned: 135, scripts: "Coptic (14 characters), Greek (117 characters), Common (4 characters)" }
    } else if i == 8 {
        BlockRange { low: 0x0400, high: 0x04FF, name: "Cyrillic", code_points: 256, assigned: 256, scripts: "Cyrillic (254 characters), Inherited (2 characters)" }
    } else if i == 9 {
        BlockRange { low: 0x0500, high: 0x052F, name: "Cyrillic Supplement", code_points: 48, assigned: 48, scripts: "Cyrillic" }
    } else if i == 10 {
        BlockRange { low: 0x0530, high: 0x058F, name: "Armenian", code_points: 96, assigned: 91, scripts: "Armenian" }
    } else if i == 11 {
        BlockRange { low: 0x0590, high: 0x05FF, name: "Hebrew", code_points: 112, assigned: 88, scripts: "Hebrew" }
    } else if i == 12 {
        BlockRange { low: 0x0600, high: 0x06FF, name: "Arabic", code_points: 256, assigned: 256, scripts: "Arabic (238 characters), Common (6 characters), Inherited (12 characters)" }
    } else if i == 13 {
        BlockRange { low: 0x0700, high: 0x074F, name: "Syriac", code_points: 80, assigned: 77, scripts: "Syriac" }
    } else if i == 14 {
        BlockRange { low: 0x0750, high: 0x077F, name: "Arabic Supplement", code_points: 48, assigned: 48, scripts: "Arabic" }
    } else if i == 15 {
        BlockRange { low: 0x0780, high: 0x07BF, name: "Thaana", code_points: 64, assigned: 50, scripts: "Thaana" }
    } else if i == 16 {
        BlockRange { low: 0x07C0, high: 0x07FF, name: "NKo", code_points: 64, assigned: 62, scripts: "Nko" }
    } else if i == 17 {
        BlockRange { low: 0x0800, high: 0x083F, name: "Samaritan", code_points: 64, assigned: 61, scripts: "Samaritan" }
    } else if i == 18 {
        BlockRange { low: 0x0840, high: 0x085F, name: "Mandaic", code_points: 32, assigned: 29, scripts: "Mandaic" }
    } else if i == 19 {
        BlockRange { low: 0x0860, high: 0x086F, name: "Syriac Supplement", code_points: 16, assigned: 11, scripts: "Syriac" }
    } else if i == 20 {
        BlockRange { low: 0x0870, high: 0x089F, name: "Arabic Extended-B", code_points: 48, assigned: 41, scripts: "Arabic" }
    } else if i == 21 {
        BlockRange { low: 0x08A0, high: 0x08FF, name: "Arabic Extended-A", code_points: 96, assigned: 96, scripts: "Arabic (95 characters), Common (1 character)" }
    } else if i == 22 {
        BlockRange { low: 0x0900, high: 0x097F, name: "Devanagari", code_points: 128, assigned: 128, scripts: "Devanagari (122 characters), Common (2 characters), Inherited (4 characters)" }
    } else if i == 23 {
        BlockRange { low: 0x0980, high: 0x09FF, name: "Bengali", code_points: 128, assigned: 96, scripts: "Bengali" }
    } else if i == 24 {
        BlockRange { low: 0x0A00, high: 0x0A7F, name: "Gurmukhi", code_points: 128, assigned: 80, scripts: "Gurmukhi" }
    } else if i == 25 {
        BlockRange { low: 0x0A80, high: 0x0AFF, name: "Gujarati", code_points: 128, assigned: 91, scripts: "Gujarati" }
    } else if i == 26 {
        BlockRange { low: 0x0B00, high: 0x0B7F, name: "Oriya", code_points: 128, assigned: 91, scripts: "Oriya" }
    } else if i == 27 {
        BlockRange { low: 0x0B80, high: 0x0BFF, name: "Tamil", code_points: 128, assigned: 72, scripts: "Tamil" }
    } else if i == 28 {
        BlockRange { low: 0x0C00, high: 0x0C7F, name: "Telugu", code_points: 128, assigned: 100, scripts: "Telugu" }
    } else if i == 29 {
        BlockRange { low: 0x0C80, high: 0x0CFF, name: "Kannada", code_points: 128, assigned: 90, scripts: "Kannada" }
    } else if i == 30 {
        BlockRange { low: 0x0D00, high: 0x0D7F, name: "Malayalam", code_points: 128, assigned: 118, scripts: "Malayalam" }
    } else if i == 31 {
        BlockRange { low: 0x0D80, high: 0x0DFF, name: "Sinhala", code_points: 128, assigned: 91, scripts: "Sinhala" }
    } else if i == 32 {
        BlockRange { low: 0x0E00, high: 0x0E7F, name: "Thai", code_points: 128, assigned: 87, scripts: "Thai (86 characters), Common (1 character)" }
    } else if i == 33 {
        BlockRange { low: 0x0E80, high: 0x0EFF, name: "Lao", code_points: 128, assigned: 82, scripts: "Lao" }
    } else if i == 34 {
        BlockRange { low: 0x0F00, high: 0x0FFF, name: "Tibetan", code_points: 256, assigned: 211, scripts: "Tibetan (207 characters), Common (4 characters)" }
    } else if i == 35 {
        BlockRange { low: 0x1000, high: 0x109F, name: "Myanmar", code_points: 160, assigned: 160, scripts: "Myanmar" }
    } else if i == 36 {
        BlockRange { low: 0x10A0, high: 0x10FF, name: "Georgian", code_points: 96, assigned: 88, scripts: "Georgian (87 characters), Common (1 character)" }
    } else if i == 37 {
        BlockRange { low: 0x1100, high: 0x11FF, name: "Hangul Jamo", code_points: 256, assigned: 256, scripts: "Hangul" }
    } else if i == 38 {
        BlockRange { low: 0x1200, high: 0x137F, name: "Ethiopic", code_points: 384, assigned: 358, scripts: "Ethiopic" }
    } else if i == 39 {
        BlockRange { low: 0x1380, high: 0x139F, name: "Ethiopic Supplement", code_points: 32, assigned: 26, scripts: "Ethiopic" }
    } else if i == 40 {
        BlockRange { low: 0x13A0, high: 0x13FF, name: "Cherokee", code_points: 96, assigned: 92, scripts: "Cherokee" }
    } else if i == 41 {
        BlockRange { low: 0x1400, high: 0x167F, name: "Unified Canadian Aboriginal Syllabics", code_points: 640, assigned: 640, scripts: "Canadian Aboriginal" }
    } else if i == 42 {
        BlockRange { low: 0x1680, high: 0x169F, name: "Ogham", code_points: 32, assigned: 29, scripts: "Ogham" }
    } else if i == 43 {
        BlockRange { low: 0x16A0, high: 0x16FF, name: "Runic", code_points: 96, assigned: 89, scripts: "Runic (86 characters), Common (3 characters)" }
    } else if i == 44 {
        BlockRange { low: 0x1700, high: 0x171F, name: "Tagalog", code_points: 32, assigned: 23, scripts: "Tagalog" }
    } else if i == 45 {
        BlockRange { low: 0x1720, high: 0x173F, name: "Hanunoo", code_points: 32, assigned: 23, scripts: "Hanunoo (21 characters), Common (2 characters)" }
    } else if i == 46 {
        BlockRange { low: 0x1740, high: 0x175F, name: "Buhid", code_points: 32, assigned: 20, scripts: "Buhid" }
    } else if i == 47 {
        BlockRange { low: 0x1760, high: 0x177F, name: "Tagbanwa", code_points: 32, assigned: 18, scripts: "Tagbanwa" }
    } else if i == 48 {
        BlockRange { low: 0x1780, high: 0x17FF, name: "Khmer", code_points: 128, assigned: 114, scripts: "Khmer" }
    } else if i == 49 {
        BlockRange { low: 0x1800, high: 0x18AF, name: "Mongolian", code_points: 176, assigned: 158, scripts: "Mongolian (155 characters), Common (3 characters)" }
    } else if i == 50 {
        BlockRange { low: 0x18B0, high: 0x18FF, name: "Unified Canadian Aboriginal Syllabics Extended", code_points: 80, assigned: 70, scripts: "Canadian Aboriginal" }
    } else if i == 51 {
        BlockRange { low: 0x1900, high: 0x194F, name: "Limbu", code_points: 80, assigned: 68, scripts: "Limbu" }
    } else if i == 52 {
        BlockRange { low: 0x1950, high: 0x197F, name: "Tai Le", code_points: 48, assigned: 35, scripts: "Tai Le" }
    } else if i == 53 {
        BlockRange { low: 0x1980, high: 0x19DF, name: "New Tai Lue", code_points: 96, assigned: 83, scripts: "New Tai Lue" }
    } else if i == 54 {
        BlockRange { low: 0x19E0, high: 0x19FF, name: "Khmer Symbols", code_points: 32, assigned: 32, scripts: "Khmer" }
    } else if i == 55 {
        BlockRange { low: 0x1A00, high: 0x1A1F, name: "Buginese", code_points: 32, assigned: 30, scripts: "Buginese" }
    } else if i == 56 {
        BlockRange { low: 0x1A20, high: 0x1AAF, name: "Tai Tham", code_points: 144, assigned: 127, scripts: "Tai Tham" }
    } else if i == 57 {
        BlockRange { low: 0x1AB0, high: 0x1AFF, name: "Combining Diacritical Marks Extended", code_points: 80, assigned: 31, scripts: "Inherited" }
    } else if i == 58 {
        BlockRange { low: 0x1B00, high: 0x1B7F, name: "Balinese", code_points: 128, assigned: 124, scripts: "Balinese" }
    } else if i == 59 {
        BlockRange { low: 0x1B80, high: 0x1BBF, name: "Sundanese", code_points: 64, assigned: 64, scripts: "Sundanese" }
    } else if i == 60 {
        BlockRange { low: 0x1BC0, high: 0x1BFF, name: "Batak", code_points: 64, assigned: 56, scripts: "Batak" }
    } else if i == 61 {
        BlockRange { low: 0x1C00, high: 0x1C4F, name: "Lepcha", code_points: 80, assigned: 74, scripts: "Lepcha" }
    } else if i == 62 {
        BlockRange { low: 0x1C50, high: 0x1C7F, name: "Ol Chiki", code_points: 48, assigned: 48, scripts: "Ol Chiki" }
    } else {
        BlockRange { low: 0x1C80, high: 0x1C8F, name: "Cyrillic Extended-C", code_points: 16, assigned: 9, scripts: "Cyrillic" }
    }
}

/// Rows 64 to 127 of the built-in table, by row index.
pub open spec fn block_seg1(i: int) -> BlockRange {
    if i == 64 {
        BlockRange { low: 0x1C90, high: 0x1CBF, name: "Georgian Extended", code_points: 48, assigned: 46, scripts: "Georgian" }
    } else if i == 65 {
        BlockRange { low: 0x1CC0, high: 0x1CCF, name: "Sundanese Supplement", code_points: 16, assigned: 8, scripts: "Sundanese" }
    } else if i == 66 {
        BlockRange { low: 0x1CD0, high: 0x1CFF, name: "Vedic Extensions", code_points: 48, assigned: 43, scripts: "Common (16 characters), Inherited (27 characters)" }
    } else if i == 67 {
        BlockRange { low: 0x1D00, high: 0x1D7F, name: "Phonetic Extensions", code_points: 128, assigned: 128, scripts: "Cyrillic (2 characters), Greek (15 characters), Latin (111 characters)" }
    } else if i == 68 {
        BlockRange { low: 0x1D80, high: 0x1DBF, name: "Phonetic Extensions Supplement", code_points: 64, assigned: 64, scripts: "Greek (1 character), Latin (63 characters)" }
    } else if i == 69 {
        BlockRange { low: 0x1DC0, high: 0x1DFF, name: "Combining Diacritical Marks Supplement", code_points: 64, assigned: 64, scripts: "Inherited" }
    } else if i == 70 {
        BlockRange { low: 0x1E00, high: 0x1EFF, name: "Latin Extended Additional", code_points: 256, assigned: 256, scripts: "Latin" }
    } else if i == 71 {
        BlockRange { low: 0x1F00, high: 0x1FFF, name: "Greek Extended", code_points: 256, assigned: 233, scripts: "Greek" }
    } else if i == 72 {
        BlockRange { low: 0x2000, high: 0x206F, name: "General Punctuation", code_points: 112, assigned: 111, scripts: "Common (109 characters), Inherited (2 characters)" }
    } else if i == 73 {
        BlockRange { low: 0x2070, high: 0x209F, name: "Superscripts and Subscripts", code_points: 48, assigned: 42, scripts: "Latin (15 characters), Common (27 characters)" }
    } else if i == 74 {
        BlockRange { low: 0x20A0, high: 0x20CF, name: "Currency Symbols", code_points: 48, assigned: 33, scripts: "Common" }
    } else if i == 75 {
        BlockRange { low: 0x20D0, high: 0x20FF, name: "Combining Diacritical Marks for Symbols", code_points: 48, assigned: 33, scripts: "Inherited" }
    } else if i == 76 {
        BlockRange { low: 0x2100, high: 0x214F, name: "Letterlike Symbols", code_points: 80, assigned: 80, scripts: "Greek (1 character), Latin (4 characters), Common (75 characters)" }
    } else if i == 77 {
        BlockRange { low: 0x2150, high: 0x218F, name: "Number Forms", code_points: 64, assigned: 60, scripts: "Latin (41 characters), Common (19 characters)" }
    } else if i == 78 {
        BlockRange { low: 0x2190, high: 0x21FF, name: "Arrows", code_points: 112, assigned: 112, scripts: "Common" }
    } else if i == 79 {
        BlockRange { low: 0x2200, high: 0x22FF, name: "Mathematical Operators", code_points: 256, assigned: 256, scripts: "Common" }
    } else if i == 80 {
        BlockRange { low: 0x2300, high: 0x23FF, name: "Miscellaneous Technical", code_points: 256, assigned: 256, scripts: "Common" }
    } else if i == 81 {
        BlockRange { low: 0x2400, high: 0x243F, name: "Control Pictures", code_points: 64, assigned: 39, scripts: "Common" }
    } else if i == 82 {
        BlockRange { low: 0x2440, high: 0x245F, name: "Optical Character Recognition", code_points: 32, assigned: 11, scripts: "Common" }
    } else if i == 83 {
        BlockRange { low: 0x2460, high: 0x24FF, name: "Enclosed Alphanumerics", code_points: 160, assigned: 160, scripts: "Common" }
    } else if i == 84 {
        BlockRange { low: 0x2500, high: 0x257F, name: "Box Drawing", code_points: 128, assigned: 128, scripts: "Common" }
    } else if i == 85 {
        BlockRange { low: 0x2580, high: 0x259F, name: "Block Elements", code_points: 32, assigned: 32, scripts: "Common" }
    } else if i == 86 {
        BlockRange { low: 0x25A0, high: 0x25FF, name: "Geometric Shapes", code_points: 96, assigned: 96, scripts: "Common" }
    } else if i == 87 {
        BlockRange { low: 0x2600, high: 0x26FF, name: "Miscellaneous Symbols", code_points: 256, assigned: 256, scripts: "Common" }
    } else if i == 88 {
        BlockRange { low: 0x2700, high: 0x27BF, name: "Dingbats", code_points: 192, assigned: 192, scripts: "Common" }
    } else if i == 89 {
        BlockRange { low: 0x27C0, high: 0x27EF, name: "Miscellaneous Mathematical Symbols-A", code_points: 48, assigned: 48, scripts: "Common" }
    } else if i == 90 {
        BlockRange { low: 0x27F0, high: 0x27FF, name: "Supplemental Arrows-A", code_points: 16, assigned: 16, scripts: "Common" }
    } else if i == 91 {
        BlockRange { low: 0x2800, high: 0x28FF, name: "Braille Patterns", code_points: 256, assigned: 256, scripts: "Braille" }
    } else if i == 92 {
        BlockRange { low: 0x2900, high: 0x297F, name: "Supplemental Arrows-B", code_points: 128, assigned: 128, scripts: "Common" }
    } else if i == 93 {
        BlockRange { low: 0x2980, high: 0x29FF, name: "Miscellaneous Mathematical Symbols-B", code_points: 128, assigned: 128, scripts: "Common" }
    } else if i == 94 {
        BlockRange { low: 0x2A00, high: 0x2AFF, name: "Supplemental Mathematical Operators", code_points: 256, assigned: 256, scripts: "Common" }
    } else if i == 95 {
        BlockRange { low: 0x2B00, high: 0x2BFF, name: "Miscellaneous Symbols and Arrows", code_points: 256, assigned: 253, scripts: "Common" }
    } else if i == 96 {
        BlockRange { low: 0x2C00, high: 0x2C5F, name: "Glagolitic", code_points: 96, assigned: 96, scripts: "Glagolitic" }
    } else if i == 97 {
        BlockRange { low: 0x2C60, high: 0x2C7F, name: "Latin Extended-C", code_points: 32, assigned: 32, scripts: "Latin" }
    } else if i == 98 {
        BlockRange { low: 0x2C80, high: 0x2CFF, name: "Coptic", code_points: 128, assigned: 123, scripts: "Coptic" }
    } else if i == 99 {
        BlockRange { low: 0x2D00, high: 0x2D2F, name: "Georgian Supplement", code_points: 48, assigned: 40, scripts: "Georgian" }
    } else if i == 100 {
        BlockRange { low: 0x2D30, high: 0x2D7F, name: "Tifinagh", code_points: 80, assigned: 59, scripts: "Tifinagh" }
    } else if i == 101 {
        BlockRange { low: 0x2D80, high: 0x2DDF, name: "Ethiopic Extended", code_points: 96, assigned: 79, scripts: "Ethiopic" }
    } else if i == 102 {
        BlockRange { low: 0x2DE0, high: 0x2DFF, name: "Cyrillic Extended-A", code_points: 32, assigned: 32, scripts: "Cyrillic" }
    } else if i == 103 {
        BlockRange { low: 0x2E00, high: 0x2E7F, name: "Supplemental Punctuation", code_points: 128, assigned: 94, scripts: "Common" }
    } else if i == 104 {
        BlockRange { low: 0x2E80, high: 0x2EFF, name: "CJK Radicals Supplement", code_points: 128, assigned: 115, scripts: "Han" }
    } else if i == 105 {
        BlockRange { low: 0x2F00, high: 0x2FDF, name: "Kangxi Radicals", code_points: 224, assigned: 214, scripts: "Han" }
    } else if i == 106 {
        BlockRange { low: 0x2FF0, high: 0x2FFF, name: "Ideographic Description Characters", code_points: 16, assigned: 12, scripts: "Common" }
    } else if i == 107 {
        BlockRange { low: 0x3000, high: 0x303F, name: "CJK Symbols and Punctuation", code_points: 64, assigned: 64, scripts: "Han (15 characters), Hangul (2 characters), Common (43 characters), Inherited (4 characters)" }
    } else if i == 108 {
        BlockRange { low: 0x3040, high: 0x309F, name: "Hiragana", code_points: 96, assigned: 93, scripts: "Hiragana (89 characters), Common (2 characters), Inherited (2 characters)" }
    } else if i == 109 {
        BlockRange { low: 0x30A0, high: 0x30FF, name: "Katakana", code_points: 96, assigned: 96, scripts: "Katakana (93 characters), Common (3 characters)" }
    } else if i == 110 {
        BlockRange { low: 0x3100, high: 0x312F, name: "Bopomofo", code_points: 48, assigned: 43, scripts: "Bopomofo" }
    } else if i == 111 {
        BlockRange { low: 0x3130, high: 0x318F, name: "Hangul Compatibility Jamo", code_points: 96, assigned: 94, scripts: "Hangul" }
    } else if i == 112 {
        BlockRange { low: 0x3190, high: 0x319F, name: "Kanbun", code_points: 16, assigned: 16, scripts: "Common" }
    } else if i == 113 {
        BlockRange { low: 0x31A0, high: 0x31BF, name: "Bopomofo Extended", code_points: 32, assigned: 32, scripts: "Bopomofo" }
    } else if i == 114 {
        BlockRange { low: 0x31C0, high: 0x31EF, name: "CJK Strokes", code_points: 48, assigned: 36, scripts: "Common" }
    } else if i == 115 {
        BlockRange { low: 0x31F0, high: 0x31FF, name: "Katakana Phonetic Extensions", code_points: 16, assigned: 16, scripts: "Katakana" }
    } else if i == 116 {
        BlockRange { low: 0x3200, high: 0x32FF, name: "Enclosed CJK Letters and Months", code_points: 256, assigned: 255, scripts: "Hangul (62 characters), Katakana (47 characters), Common (146 characters)" }
    } else if i == 117 {
        BlockRange { low: 0x3300, high: 0x33FF, name: "CJK Compatibility", code_points: 256, assigned: 256, scripts: "Katakana (88 characters), Common (168 characters)" }
    } else if i == 118 {
        BlockRange { low: 0x3400, high: 0x4DBF, name: "CJK Unified Ideographs Extension A", code_points: 6592, assigned: 6592, scripts: "Han" }
    } else if i == 119 {
        BlockRange { low: 0x4DC0, high: 0x4DFF, name: "Yijing Hexagram Symbols", code_points: 64, assigned: 64, scripts: "Common" }
    } else if i == 120 {
        BlockRange { low: 0x4E00, high: 0x9FFF, name: "CJK Unified Ideographs", code_points: 20992, assigned: 20992, scripts: "Han" }
    } else if i == 121 {
        BlockRange { low: 0xA000, high: 0xA48F, name: "Yi Syllables", code_points: 1168, assigned: 1165, scripts: "Yi" }
    } else if i == 122 {
        BlockRange { low: 0xA490, high: 0xA4CF, name: "Yi Radicals", code_points: 64, assigned: 55, scripts: "Yi" }
    } else if i == 123 {
        BlockRange { low: 0xA4D0, high: 0xA4FF, name: "Lisu", code_points: 48, assigned: 48, scripts: "Lisu" }
    } else if i == 124 {
        BlockRange { low: 0xA500, high: 0xA63F, name: "Vai", code_points: 320, assigned: 300, scripts: "Vai" }
    } else if i == 125 {
        BlockRange { low: 0xA640, high: 0xA69F, name: "Cyrillic Extended-B", code_points: 96, assigned: 96, scripts: "Cyrillic" }
    } else if i == 126 {
        BlockRange { low: 0xA6A0, high: 0xA6FF, name: "Bamum", code_points: 96, assigned: 88, scripts: "Bamum" }
    } else {
        BlockRange { low: 0xA700, high: 0xA71F, name: "Modifier Tone Letters", code_points: 32, assigned: 32, scripts: "Common" }
    }
}

/// Rows 128 to 191 of the built-in table, by row index.
pub open spec fn block_seg2(i: int) -> BlockRange {
    if i == 128 {
        BlockRange { low: 0xA720, high: 0xA7FF, name: "Latin Extended-D", code_points: 224, assigned: 193, scripts: "Latin (188 characters), Common (5 characters)" }
    } else if i == 129 {
        BlockRange { low: 0xA800, high: 0xA82F, name: "Syloti Nagri", code_points: 48, assigned: 45, scripts: "Syloti Nagri" }
    } else if i == 130 {
        BlockRange { low: 0xA830, high: 0xA83F, name: "Common Indic Number Forms", code_points: 16, assigned: 10, scripts: "Common" }
    } else if i == 131 {
        BlockRange { low: 0xA840, high: 0xA87F, name: "Phags-pa", code_points: 64, assigned: 56, scripts: "Phags Pa" }
    } else if i == 132 {
        BlockRange { low: 0xA880, high: 0xA8DF, name: "Saurashtra", code_points: 96, assigned: 82, scripts: "Saurashtra" }
    } else if i == 133 {
        BlockRange { low: 0xA8E0, high: 0xA8FF, name: "Devanagari Extended", code_points: 32, assigned: 32, scripts: "Devanagari" }
    } else if i == 134 {
        BlockRange { low: 0xA900, high: 0xA92F, name: "Kayah Li", code_points: 48, assigned: 48, scripts: "Kayah Li (47 characters), Common (1 character)" }
    } else if i == 135 {
        BlockRange { low: 0xA930, high: 0xA95F, name: "Rejang", code_points: 48, assigned: 37, scripts: "Rejang" }
    } else if i == 136 {
        BlockRange { low: 0xA960, high: 0xA97F, name: "Hangul Jamo Extended-A", code_points: 32, assigned: 29, scripts: "Hangul" }
    } else if i == 137 {
        BlockRange { low: 0xA980, high: 0xA9DF, name: "Javanese", code_points: 96, assigned: 91, scripts: "Javanese (90 characters), Common (1 character)" }
    } else if i == 138 {
        BlockRange { low: 0xA9E0, high: 0xA9FF, name: "Myanmar Extended-B", code_points: 32, assigned: 31, scripts: "Myanmar" }
    } else if i == 139 {
        BlockRange { low: 0xAA00, high: 0xAA5F, name: "Cham", code_points: 96, assigned: 83, scripts: "Cham" }
    } else if i == 140 {
        BlockRange { low: 0xAA60, high: 0xAA7F, name: "Myanmar Extended-A", code_points: 32, assigned: 32, scripts: "Myanmar" }
    } else if i == 141 {
        BlockRange { low: 0xAA80, high: 0xAADF, name: "Tai Viet", code_points: 96, assigned: 72, scripts: "Tai Viet" }
    } else if i == 142 {
        BlockRange { low: 0xAAE0, high: 0xAAFF, name: "Meetei Mayek Extensions", code_points: 32, assigned: 23, scripts: "Meetei Mayek" }
    } else if i == 143 {
        BlockRange { low: 0xAB00, high: 0xAB2F, name: "Ethiopic Extended-A", code_points: 48, assigned: 32, scripts: "Ethiopic" }
    } else if i == 144 {
        BlockRange { low: 0xAB30, high: 0xAB6F, name: "Latin Extended-E", code_points: 64, assigned: 60, scripts: "Latin (56 characters), Greek (1 character), Common (3 characters)" }
    } else if i == 145 {
        BlockRange { low: 0xAB70, high: 0xABBF, name: "Cherokee Supplement", code_points: 80, assigned: 80, scripts: "Cherokee" }
    } else if i == 146 {
        BlockRange { low: 0xABC0, high: 0xABFF, name: "Meetei Mayek", code_points: 64, assigned: 56, scripts: "Meetei Mayek" }
    } else if i == 147 {
        BlockRange { low: 0xAC00, high: 0xD7AF, name: "Hangul Syllables", code_points: 11184, assigned: 11172, scripts: "Hangul" }
    } else if i == 148 {
        BlockRange { low: 0xD7B0, high: 0xD7FF, name: "Hangul Jamo Extended-B", code_points: 80, assigned: 72, scripts: "Hangul" }
    } else if i == 149 {
        BlockRange { low: 0xE000, high: 0xF8FF, name: "Private Use Area", code_points: 6400, assigned: 6400, scripts: "Unknown" }
    } else if i == 150 {
        BlockRange { low: 0xF900, high: 0xFAFF, name: "CJK Compatibility Ideographs", code_points: 512, assigned: 472, scripts: "Han" }
    } else if i == 151 {
        BlockRange { low: 0xFB00, high: 0xFB4F, name: "Alphabetic Presentation Forms", code_points: 80, assigned: 58, scripts: "Armenian (5 characters), Hebrew (46 characters), Latin (7 characters)" }
    } else if i == 152 {
        BlockRange { low: 0xFB50, high: 0xFDFF, name: "Arabic Presentation Forms-A", code_points: 688, assigned: 631, scripts: "Arabic (629 characters), Common (2 characters)" }
    } else if i == 153 {
        BlockRange { low: 0xFE00, high: 0xFE0F, name: "Variation Selectors", code_points: 16, assigned: 16, scripts: "Inherited" }
    } else if i == 154 {
        BlockRange { low: 0xFE10, high: 0xFE1F, name: "Vertical Forms", code_points: 16, assigned: 10, scripts: "Common" }
    } else if i == 155 {
        BlockRange { low: 0xFE20, high: 0xFE2F, name: "Combining Half Marks", code_points: 16, assigned: 16, scripts: "Cyrillic (2 characters), Inherited (14 characters)" }
    } else if i == 156 {
        BlockRange { low: 0xFE30, high: 0xFE4F, name: "CJK Compatibility Forms", code_points: 32, assigned: 32, scripts: "Common" }
    } else if i == 157 {
        BlockRange { low: 0xFE50, high: 0xFE6F, name: "Small Form Variants", code_points: 32, assigned: 26, scripts: "Common" }
    } else if i == 158 {
        BlockRange { low: 0xFE70, high: 0xFEFF, name: "Arabic Presentation Forms-B", code_points: 144, assigned: 141, scripts: "Arabic (140 characters), Common (1 character)" }
    } else if i == 159 {
        BlockRange { low: 0xFF00, high: 0xFFEF, name: "Halfwidth and Fullwidth Forms", code_points: 240, assigned: 225, scripts: "Hangul (52 characters), Katakana (55 characters), Latin (52 characters), Common (66 characters)" }
    } else if i == 160 {
        BlockRange { low: 0xFFF0, high: 0xFFFF, name: "Specials", code_points: 16, assigned: 5, scripts: "Common" }
    } else if i == 161 {
        BlockRange { low: 0x10000, high: 0x1007F, name: "Linear B Syllabary", code_points: 128, assigned: 88, scripts: "Linear B" }
    } else if i == 162 {
        BlockRange { low: 0x10080, high: 0x100FF, name: "Linear B Ideograms", code_points: 128, assigned: 123, scripts: "Linear B" }
    } else if i == 163 {
        BlockRange { low: 0x10100, high: 0x1013F, name: "Aegean Numbers", code_points: 64, assigned: 57, scripts: "Common" }
    } else if i == 164 {
        BlockRange { low: 0x10140, high: 0x1018F, name: "Ancient Greek Numbers", code_points: 80, assigned: 79, scripts: "Greek" }
    } else if i == 165 {
        BlockRange { low: 0x10190, high: 0x101CF, name: "Ancient Symbols", code_points: 64, assigned: 14, scripts: "Greek (1 character), Common (13 characters)" }
    } else if i == 166 {
        BlockRange { low: 0x101D0, high: 0x101FF, name: "Phaistos Disc", code_points: 48, assigned: 46, scripts: "Common (45 characters), Inherited (1 character)" }
    } else if i == 167 {
        BlockRange { low: 0x10280, high: 0x1029F, name: "Lycian", code_points: 32, assigned: 29, scripts: "Lycian" }
    } else if i == 168 {
        BlockRange { low: 0x102A0, high: 0x102DF, name: "Carian", code_points: 64, assigned: 49, scripts: "Carian" }
    } else if i == 169 {
        BlockRange { low: 0x102E0, high: 0x102FF, name: "Coptic Epact Numbers", code_points: 32, assigned: 28, scripts: "Common (27 characters), Inherited (1 character)" }
    } else if i == 170 {
        BlockRange { low: 0x10300, high: 0x1032F, name: "Old Italic", code_points: 48, assigned: 39, scripts: "Old Italic" }
    } else if i == 171 {
        BlockRange { low: 0x10330, high: 0x1034F, name: "Gothic", code_points: 32, assigned: 27, scripts: "Gothic" }
    } else if i == 172 {
        BlockRange { low: 0x10350, high: 0x1037F, name: "Old Permic", code_points: 48, assigned: 43, scripts: "Old Permic" }
    } else if i == 173 {
        BlockRange { low: 0x10380, high: 0x1039F, name: "Ugaritic", code_points: 32, assigned: 31, scripts: "Ugaritic" }
    } else if i == 174 {
        BlockRange { low: 0x103A0, high: 0x103DF, name: "Old Persian", code_points: 64, assigned: 50, scripts: "Old Persian" }
    } else if i == 175 {
        BlockRange { low: 0x10400, high: 0x1044F, name: "Deseret", code_points: 80, assigned: 80, scripts: "Deseret" }
    } else if i == 176 {
        BlockRange { low: 0x10450, high: 0x1047F, name: "Shavian", code_points: 48, assigned: 48, scripts: "Shavian" }
    } else if i == 177 {
        BlockRange { low: 0x10480, high: 0x104AF, name: "Osmanya", code_points: 48, assigned: 40, scripts: "Osmanya" }
    } else if i == 178 {
        BlockRange { low: 0x104B0, high: 0x104FF, name: "Osage", code_points: 80, assigned: 72, scripts: "Osage" }
    } else if i == 179 {
        BlockRange { low: 0x10500, high: 0x1052F, name: "Elbasan", code_points: 48, assigned: 40, scripts: "Elbasan" }
    } else if i == 180 {
        BlockRange { low: 0x10530, high: 0x1056F, name: "Caucasian Albanian", code_points: 64, assigned: 53, scripts: "Caucasian Albanian" }
    } else if i == 181 {
        BlockRange { low: 0x10570, high: 0x105BF, name: "Vithkuqi", code_points: 80, assigned: 70, scripts: "Vithkuqi" }
    } else if i == 182 {
        BlockRange { low: 0x10600, high: 0x1077F, name: "Linear A", code_points: 384, assigned: 341, scripts: "Linear A" }
    } else if i == 183 {
        BlockRange { low: 0x10780, high: 0x107BF, name: "Latin Extended-F", code_points: 64, assigned: 57, scripts: "Latin" }
    } else if i == 184 {
        BlockRange { low: 0x10800, high: 0x1083F, name: "Cypriot Syllabary", code_points: 64, assigned: 55, scripts: "Cypriot" }
    } else if i == 185 {
        BlockRange { low: 0x10840, high: 0x1085F, name: "Imperial Aramaic", code_points: 32, assigned: 31, scripts: "Imperial Aramaic" }
    } else if i == 186 {
        BlockRange { low: 0x10860, high: 0x1087F, name: "Palmyrene", code_points: 32, assigned: 32, scripts: "Palmyrene" }
    } else if i == 187 {
        BlockRange { low: 0x10880, high: 0x108AF, name: "Nabataean", code_points: 48, assigned: 40, scripts: "Nabataean" }
    } else if i == 188 {
        BlockRange { low: 0x108E0, high: 0x108FF, name: "Hatran", code_points: 32, assigned: 26, scripts: "Hatran" }
    } else if i == 189 {
        BlockRange { low: 0x10900, high: 0x1091F, name: "Phoenician", code_points: 32, assigned: 29, scripts: "Phoenician" }
    } else if i == 190 {
        BlockRange { low: 0x10920, high: 0x1093F, name: "Lydian", code_points: 32, assigned: 27, scripts: "Lydian" }
    } else {
        BlockRange { low: 0x10980, high: 0x1099F, name: "Meroitic Hieroglyphs", code_points: 32, assigned: 32, scripts: "Meroitic Hieroglyphs" }
    }
}

/// Rows 192 to 255 of the built-in table, by row index.
pub open spec fn block_seg3(i: int) -> BlockRange {
    if i == 192 {
        BlockRange { low: 0x109A0, high: 0x109FF, name: "Meroitic Cursive", code_points: 96, assigned: 90, scripts: "Meroitic Cursive" }
    } else if i == 193 {
        BlockRange { low: 0x10A00, high: 0x10A5F, name: "Kharoshthi", code_points: 96, assigned: 68, scripts: "Kharoshthi" }
    } else if i == 194 {
        BlockRange { low: 0x10A60, high: 0x10A7F, name: "Old South Arabian", code_points: 32, assigned: 32, scripts: "Old South Arabian" }
    } else if i == 195 {
        BlockRange { low: 0x10A80, high: 0x10A9F, name: "Old North Arabian", code_points: 32, assigned: 32, scripts: "Old North Arabian" }
    } else if i == 196 {
        BlockRange { low: 0x10AC0, high: 0x10AFF, name: "Manichaean", code_points: 64, assigned: 51, scripts: "Manichaean" }
    } else if i == 197 {
        BlockRange { low: 0x10B00, high: 0x10B3F, name: "Avestan", code_points: 64, assigned: 61, scripts: "Avestan" }
    } else if i == 198 {
        BlockRange { low: 0x10B40, high: 0x10B5F, name: "Inscriptional Parthian", code_points: 32, assigned: 30, scripts: "Inscriptional Parthian" }
    } else if i == 199 {
        BlockRange { low: 0x10B60, high: 0x10B7F, name: "Inscriptional Pahlavi", code_points: 32, assigned: 27, scripts: "Inscriptional Pahlavi" }
    } else if i == 200 {
        BlockRange { low: 0x10B80, high: 0x10BAF, name: "Psalter Pahlavi", code_points: 48, assigned: 29, scripts: "Psalter Pahlavi" }
    } else if i == 201 {
        BlockRange { low: 0x10C00, high: 0x10C4F, name: "Old Turkic", code_points: 80, assigned: 73, scripts: "Old Turkic" }
    } else if i == 202 {
        BlockRange { low: 0x10C80, high: 0x10CFF, name: "Old Hungarian", code_points: 128, assigned: 108, scripts: "Old Hungarian" }
    } else if i == 203 {
        BlockRange { low: 0x10D00, high: 0x10D3F, name: "Hanifi Rohingya", code_points: 64, assigned: 50, scripts: "Hanifi Rohingya" }
    } else if i == 204 {
        BlockRange { low: 0x10E60, high: 0x10E7F, name: "Rumi Numeral Symbols", code_points: 32, assigned: 31, scripts: "Arabic" }
    } else if i == 205 {
        BlockRange { low: 0x10E80, high: 0x10EBF, name: "Yezidi", code_points: 64, assigned: 47, scripts: "Yezidi" }
    } else if i == 206 {
        BlockRange { low: 0x10F00, high: 0x10F2F, name: "Old Sogdian", code_points: 48, assigned: 40, scripts: "Old Sogdian" }
    } else if i == 207 {
        BlockRange { low: 0x10F30, high: 0x10F6F, name: "Sogdian", code_points: 64, assigned: 42, scripts: "Sogdian" }
    } else if i == 208 {
        BlockRange { low: 0x10F70, high: 0x10FAF, name: "Old Uyghur", code_points: 64, assigned: 26, scripts: "Old Uyghur" }
    } else if i == 209 {
        BlockRange { low: 0x10FB0, high: 0x10FDF, name: "Chorasmian", code_points: 48, assigned: 28, scripts: "Chorasmian" }
    } else if i == 210 {
        BlockRange { low: 0x10FE0, high: 0x10FFF, name: "Elymaic", code_points: 32, assigned: 23, scripts: "Elymaic" }
    } else if i == 211 {
        BlockRange { low: 0x11000, high: 0x1107F, name: "Brahmi", code_points: 128, assigned: 115, scripts: "Brahmi" }
    } else if i == 212 {
        BlockRange { low: 0x11080, high: 0x110CF, name: "Kaithi", code_points: 80, assigned: 68, scripts: "Kaithi" }
    } else if i == 213 {
        BlockRange { low: 0x110D0, high: 0x110FF, name: "Sora Sompeng", code_points: 48, assigned: 35, scripts: "Sora Sompeng" }
    } else if i == 214 {
        BlockRange { low: 0x11100, high: 0x1114F, name: "Chakma", code_points: 80, assigned: 71, scripts: "Chakma" }
    } else if i == 215 {
        BlockRange { low: 0x11150, high: 0x1117F, name: "Mahajani", code_points: 48, assigned: 39, scripts: "Mahajani" }
    } else if i == 216 {
        BlockRange { low: 0x11180, high: 0x111DF, name: "Sharada", code_points: 96, assigned: 96, scripts: "Sharada" }
    } else if i == 217 {
        BlockRange { low: 0x111E0, high: 0x111FF, name: "Sinhala Archaic Numbers", code_points: 32, assigned: 20, scripts: "Sinhala" }
    } else if i == 218 {
        BlockRange { low: 0x11200, high: 0x1124F, name: "Khojki", code_points: 80, assigned: 62, scripts: "Khojki" }
    } else if i == 219 {
        BlockRange { low: 0x11280, high: 0x112AF, name: "Multani", code_points: 48, assigned: 38, scripts: "Multani" }
    } else if i == 220 {
        BlockRange { low: 0x112B0, high: 0x112FF, name: "Khudawadi", code_points: 80, assigned: 69, scripts: "Khudawadi" }
    } else if i == 221 {
        BlockRange { low: 0x11300, high: 0x1137F, name: "Grantha", code_points: 128, assigned: 86, scripts: "Grantha (85 characters), Inherited (1 character)" }
    } else if i == 222 {
        BlockRange { low: 0x11400, high: 0x1147F, name: "Newa", code_points: 128, assigned: 97, scripts: "Newa" }
    } else if i == 223 {
        BlockRange { low: 0x11480, high: 0x114DF, name: "Tirhuta", code_points: 96, assigned: 82, scripts: "Tirhuta" }
    } else if i == 224 {
        BlockRange { low: 0x11580, high: 0x115FF, name: "Siddham", code_points: 128, assigned: 92, scripts: "Siddham" }
    } else if i == 225 {
        BlockRange { low: 0x11600, high: 0x1165F, name: "Modi", code_points: 96, assigned: 79, scripts: "Modi" }
    } else if i == 226 {
        BlockRange { low: 0x11660, high: 0x1167F, name: "Mongolian Supplement", code_points: 32, assigned: 13, scripts: "Mongolian" }
    } else if i == 227 {
        BlockRange { low: 0x11680, high: 0x116CF, name: "Takri", code_points: 80, assigned: 68, scripts: "Takri" }
    } else if i == 228 {
        BlockRange { low: 0x11700, high: 0x1174F, name: "Ahom", code_points: 80, assigned: 65, scripts: "Ahom" }
    } else if i == 229 {
        BlockRange { low: 0x11800, high: 0x1184F, name: "Dogra", code_points: 80, assigned: 60, scripts: "Dogra" }
    } else if i == 230 {
        BlockRange { low: 0x118A0, high: 0x118FF, name: "Warang Citi", code_points: 96, assigned: 84, scripts: "Warang Citi" }
    } else if i == 231 {
        BlockRange { low: 0x11900, high: 0x1195F, name: "Dives Akuru", code_points: 96, assigned: 72, scripts: "Dives Akuru" }
    } else if i == 232 {
        BlockRange { low: 0x119A0, high: 0x119FF, name: "Nandinagari", code_points: 96, assigned: 65, scripts: "Nandinagari" }
    } else if i == 233 {
        BlockRange { low: 0x11A00, high: 0x11A4F, name: "Zanabazar Square", code_points: 80, assigned: 72, scripts: "Zanabazar Square" }
    } else if i == 234 {
        BlockRange { low: 0x11A50, high: 0x11AAF, name: "Soyombo", code_points: 96, assigned: 83, scripts: "Soyombo" }
    } else if i == 235 {
        BlockRange { low: 0x11AB0, high: 0x11ABF, name: "Unified Canadian Aboriginal Syllabics Extended-A", code_points: 16, assigned: 16, scripts: "Canadian Aboriginal" }
    } else if i == 236 {
        BlockRange { low: 0x11AC0, high: 0x11AFF, name: "Pau Cin Hau", code_points: 64, assigned: 57, scripts: "Pau Cin Hau" }
    } else if i == 237 {
        BlockRange { low: 0x11C00, high: 0x11C6F, name: "Bhaiksuki", code_points: 112, assigned: 97, scripts: "Bhaiksuki" }
    } else if i == 238 {
        BlockRange { low: 0x11C70, high: 0x11CBF, name: "Marchen", code_points: 80, assigned: 68, scripts: "Marchen" }
    } else if i == 239 {
        BlockRange { low: 0x11D00, high: 0x11D5F, name: "Masaram Gondi", code_points: 96, assigned: 75, scripts: "Masaram Gondi" }
    } else if i == 240 {
        BlockRange { low: 0x11D60, high: 0x11DAF, name: "Gunjala Gondi", code_points: 80, assigned: 63, scripts: "Gunjala Gondi" }
    } else if i == 241 {
        BlockRange { low: 0x11EE0, high: 0x11EFF, name: "Makasar", code_points: 32, assigned: 25, scripts: "Makasar" }
    } else if i == 242 {
        BlockRange { low: 0x11FB0, high: 0x11FBF, name: "Lisu Supplement", code_points: 16, assigned: 1, scripts: "Lisu" }
    } else if i == 243 {
        BlockRange { low: 0x11FC0, high: 0x11FFF, name: "Tamil Supplement", code_points: 64, assigned: 51, scripts: "Tamil" }
    } else if i == 244 {
        BlockRange { low: 0x12000, high: 0x123FF, name: "Cuneiform", code_points: 1024, assigned: 922, scripts: "Cuneiform" }
    } else if i == 245 {
        BlockRange { low: 0x12400, high: 0x1247F, name: "Cuneiform Numbers and Punctuation", code_points: 128, assigned: 116, scripts: "Cuneiform" }
    } else if i == 246 {
        BlockRange { low: 0x12480, high: 0x1254F, name: "Early Dynastic Cuneiform", code_points: 208, assigned: 196, scripts: "Cuneiform" }
    } else if i == 247 {
        BlockRange { low: 0x12F90, high: 0x12FFF, name: "Cypro-Minoan", code_points: 112, assigned: 99, scripts: "Cypro Minoan" }
    } else if i == 248 {
        BlockRange { low: 0x13000, high: 0x1342F, name: "Egyptian Hieroglyphs", code_points: 1072, assigned: 1071, scripts: "Egyptian Hieroglyphs" }
    } else if i == 249 {
        BlockRange { low: 0x13430, high: 0x1343F, name: "Egyptian Hieroglyph Format Controls", code_points: 16, assigned: 9, scripts: "Egyptian Hieroglyphs" }
    } else if i == 250 {
        BlockRange { low: 0x14400, high: 0x1467F, name: "Anatolian Hieroglyphs", code_points: 640, assigned: 583, scripts: "Anatolian Hieroglyphs" }
    } else if i == 251 {
        BlockRange { low: 0x16800, high: 0x16A3F, name: "Bamum Supplement", code_points: 576, assigned: 569, scripts: "Bamum" }
    } else if i == 252 {
        BlockRange { low: 0x16A40, high: 0x16A6F, name: "Mro", code_points: 48, assigned: 43, scripts: "Mro" }
    } else if i == 253 {
        BlockRange { low: 0x16A70, high: 0x16ACF, name: "Tangsa", code_points: 96, assigned: 89, scripts: "Tangsa" }
    } else if i == 254 {
        BlockRange { low: 0x16AD0, high: 0x16AFF, name: "Bassa Vah", code_points: 48, assigned: 36, scripts: "Bassa Vah" }
    } else {
        BlockRange { low: 0x16B00, high: 0x16B8F, name: "Pahawh Hmong", code_points: 144, assigned: 127, scripts: "Pahawh Hmong" }
    }
}

/// Rows 256 to 316 of the built-in table, by row index.
pub open spec fn block_seg4(i: int) -> BlockRange {
    if i == 256 {
        BlockRange { low: 0x16E40, high: 0x16E9F, name: "Medefaidrin", code_points: 96, assigned: 91, scripts: "Medefaidrin" }
    } else if i == 257 {
        BlockRange { low: 0x16F00, high: 0x16F9F, name: "Miao", code_points: 160, assigned: 149, scripts: "Miao" }
    } else if i == 258 {
        BlockRange { low: 0x16FE0, high: 0x16FFF, name: "Ideographic Symbols and Punctuation", code_points: 32, assigned: 7, scripts: "Han (4 characters), Khitan Small Script (1 character), Nushu (1 character), Tangut (1 character)" }
    } else if i == 259 {
        BlockRange { low: 0x17000, high: 0x187FF, name: "Tangut", code_points: 6144, assigned: 6136, scripts: "Tangut" }
    } else if i == 260 {
        BlockRange { low: 0x18800, high: 0x18AFF, name: "Tangut Components", code_points: 768, assigned: 768, scripts: "Tangut" }
    } else if i == 261 {
        BlockRange { low: 0x18B00, high: 0x18CFF, name: "Khitan Small Script", code_points: 512, assigned: 470, scripts: "Khitan Small Script" }
    } else if i == 262 {
        BlockRange { low: 0x18D00, high: 0x18D7F, name: "Tangut Supplement", code_points: 128, assigned: 9, scripts: "Tangut" }
    } else if i == 263 {
        BlockRange { low: 0x1AFF0, high: 0x1AFFF, name: "Kana Extended-B", code_points: 16, assigned: 13, scripts: "Katakana" }
    } else if i == 264 {
        BlockRange { low: 0x1B000, high: 0x1B0FF, name: "Kana Supplement", code_points: 256, assigned: 256, scripts: "Hiragana (255 characters), Katakana (1 character)" }
    } else if i == 265 {
        BlockRange { low: 0x1B100, high: 0x1B12F, name: "Kana Extended-A", code_points: 48, assigned: 35, scripts: "Hiragana (32 characters), Katakana (3 characters)" }
    } else if i == 266 {
        BlockRange { low: 0x1B130, high: 0x1B16F, name: "Small Kana Extension", code_points: 64, assigned: 7, scripts: "Hiragana (3 characters), Katakana (4 characters)" }
    } else if i == 267 {
        BlockRange { low: 0x1B170, high: 0x1B2FF, name: "Nushu", code_points: 400, assigned: 396, scripts: "Nüshu" }
    } else if i == 268 {
        BlockRange { low: 0x1BC00, high: 0x1BC9F, name: "Duployan", code_points: 160, assigned: 143, scripts: "Duployan" }
    } else if i == 269 {
        BlockRange { low: 0x1BCA0, high: 0x1BCAF, name: "Shorthand Format Controls", code_points: 16, assigned: 4, scripts: "Common" }
    } else if i == 270 {
        BlockRange { low: 0x1CF00, high: 0x1CFCF, name: "Znamenny Musical Notation", code_points: 208, assigned: 185, scripts: "Common (116 characters), Inherited (69 characters)" }
    } else if i == 271 {
        BlockRange { low: 0x1D000, high: 0x1D0FF, name: "Byzantine Musical Symbols", code_points: 256, assigned: 246, scripts: "Common" }
    } else if i == 272 {
        BlockRange { low: 0x1D100, high: 0x1D1FF, name: "Musical Symbols", code_points: 256, assigned: 233, scripts: "Common (211 characters), Inherited (22 characters)" }
    } else if i == 273 {
        BlockRange { low: 0x1D200, high: 0x1D24F, name: "Ancient Greek Musical Notation", code_points: 80, assigned: 70, scripts: "Greek" }
    } else if i == 274 {
        BlockRange { low: 0x1D2E0, high: 0x1D2FF, name: "Mayan Numerals", code_points: 32, assigned: 20, scripts: "Common" }
    } else if i == 275 {
        BlockRange { low: 0x1D300, high: 0x1D35F, name: "Tai Xuan Jing Symbols", code_points: 96, assigned: 87, scripts: "Common" }
    } else if i == 276 {
        BlockRange { low: 0x1D360, high: 0x1D37F, name: "Counting Rod Numerals", code_points: 32, assigned: 25, scripts: "Common" }
    } else if i == 277 {
        BlockRange { low: 0x1D400, high: 0x1D7FF, name: "Mathematical Alphanumeric Symbols", code_points: 1024, assigned: 996, scripts: "Common" }
    } else if i == 278 {
        BlockRange { low: 0x1D800, high: 0x1DAAF, name: "Sutton SignWriting", code_points: 688, assigned: 672, scripts: "SignWriting" }
    } else if i == 279 {
        BlockRange { low: 0x1DF00, high: 0x1DFFF, name: "Latin Extended-G", code_points: 256, assigned: 31, scripts: "Latin" }
    } else if i == 280 {
        BlockRange { low: 0x1E000, high: 0x1E02F, name: "Glagolitic Supplement", code_points: 48, assigned: 38, scripts: "Glagolitic" }
    } else if i == 281 {
        BlockRange { low: 0x1E100, high: 0x1E14F, name: "Nyiakeng Puachue Hmong", code_points: 80, assigned: 71, scripts: "Nyiakeng Puachue Hmong" }
    } else if i == 282 {
        BlockRange { low: 0x1E290, high: 0x1E2BF, name: "Toto", code_points: 48, assigned: 31, scripts: "Toto" }
    } else if i == 283 {
        BlockRange { low: 0x1E2C0, high: 0x1E2FF, name: "Wancho", code_points: 64, assigned: 59, scripts: "Wancho" }
    } else if i == 284 {
        BlockRange { low: 0x1E7E0, high: 0x1E7FF, name: "Ethiopic Extended-B", code_points: 32, assigned: 28, scripts: "Ethiopic" }
    } else if i == 285 {
        BlockRange { low: 0x1E800, high: 0x1E8DF, name: "Mende Kikakui", code_points: 224, assigned: 213, scripts: "Mende Kikakui" }
    } else if i == 286 {
        BlockRange { low: 0x1E900, high: 0x1E95F, name: "Adlam", code_points: 96, assigned: 88, scripts: "Adlam" }
    } else if i == 287 {
        BlockRange { low: 0x1EC70, high: 0x1ECBF, name: "Indic Siyaq Numbers", code_points: 80, assigned: 68, scripts: "Common" }
    } else if i == 288 {
        BlockRange { low: 0x1ED00, high: 0x1ED4F, name: "Ottoman Siyaq Numbers", code_points: 80, assigned: 61, scripts: "Common" }
    } else if i == 289 {
        BlockRange { low: 0x1EE00, high: 0x1EEFF, name: "Arabic Mathematical Alphabetic Symbols", code_points: 256, assigned: 143, scripts: "Arabic" }
    } else if i == 290 {
        BlockRange { low: 0x1F000, high: 0x1F02F, name: "Mahjong Tiles", code_points: 48, assigned: 44, scripts: "Common" }
    } else if i == 291 {
        BlockRange { low: 0x1F030, high: 0x1F09F, name: "Domino Tiles", code_points: 112, assigned: 100, scripts: "Common" }
    } else if i == 292 {
        BlockRange { low: 0x1F0A0, high: 0x1F0FF, name: "Playing Cards", code_points: 96, assigned: 82, scripts: "Common" }
    } else if i == 293 {
        BlockRange { low: 0x1F100, high: 0x1F1FF, name: "Enclosed Alphanumeric Supplement", code_points: 256, assigned: 200, scripts: "Common" }
    } else if i == 294 {
        BlockRange { low: 0x1F200, high: 0x1F2FF, name: "Enclosed Ideographic Supplement", code_points: 256, assigned: 64, scripts: "Hiragana (1 character), Common (63 characters)" }
    } else if i == 295 {
        BlockRange { low: 0x1F300, high: 0x1F5FF, name: "Miscellaneous Symbols and Pictographs", code_points: 768, assigned: 768, scripts: "Common" }
    } else if i == 296 {
        BlockRange { low: 0x1F600, high: 0x1F64F, name: "Emoticons", code_points: 80, assigned: 80, scripts: "Common" }
    } else if i == 297 {
        BlockRange { low: 0x1F650, high: 0x1F67F, name: "Ornamental Dingbats", code_points: 48, assigned: 48, scripts: "Common" }
    } else if i == 298 {
        BlockRange { low: 0x1F680, high: 0x1F6FF, name: "Transport and Map Symbols", code_points: 128, assigned: 117, scripts: "Common" }
    } else if i == 299 {
        BlockRange { low: 0x1F700, high: 0x1F77F, name: "Alchemical Symbols", code_points: 128, assigned: 116, scripts: "Common" }
    } else if i == 300 {
        BlockRange { low: 0x1F780, high: 0x1F7FF, name: "Geometric Shapes Extended", code_points: 128, assigned: 102, scripts: "Common" }
    } else if i == 301 {
        BlockRange { low: 0x1F800, high: 0x1F8FF, name: "Supplemental Arrows-C", code_points: 256, assigned: 150, scripts: "Common" }
    } else if i == 302 {
        BlockRange { low: 0x1F900, high: 0x1F9FF, name: "Supplemental Symbols and Pictographs", code_points: 256, assigned: 256, scripts: "Common" }
    } else if i == 303 {
        BlockRange { low: 0x1FA00, high: 0x1FA6F, name: "Chess Symbols", code_points: 112, assigned: 98, scripts: "Common" }
    } else if i == 304 {
        BlockRange { low: 0x1FA70, high: 0x1FAFF, name: "Symbols and Pictographs Extended-A", code_points: 144, assigned: 88, scripts: "Common" }
    } else if i == 305 {
        BlockRange { low: 0x1FB00, high: 0x1FBFF, name: "Symbols for Legacy Computing", code_points: 256, assigned: 212, scripts: "Common" }
    } else if i == 306 {
        BlockRange { low: 0x20000, high: 0x2A6DF, name: "CJK Unified Ideographs Extension B", code_points: 42720, assigned: 42720, scripts: "Han" }
    } else if i == 307 {
        BlockRange { low: 0x2A700, high: 0x2B73F, name: "CJK Unified Ideographs Extension C", code_points: 4160, assigned: 4153, scripts: "Han" }
    } else if i == 308 {
        BlockRange { low: 0x2B740, high: 0x2B81F, name: "CJK Unified Ideographs Extension D", code_points: 224, assigned: 222, scripts: "Han" }
    } else if i == 309 {
        BlockRange { low: 0x2B820, high: 0x2CEAF, name: "CJK Unified Ideographs Extension E", code_points: 5776, assigned: 5762, scripts: "Han" }
    } else if i == 310 {
        BlockRange { low: 0x2CEB0, high: 0x2EBEF, name: "CJK Unified Ideographs Extension F", code_points: 7488, assigned: 7473, scripts: "Han" }
    } else if i == 311 {
        BlockRange { low: 0x2F800, high: 0x2FA1F, name: "CJK Compatibility Ideographs Supplement", code_points: 544, assigned: 542, scripts: "Han" }
    } else if i == 312 {
        BlockRange { low: 0x30000, high: 0x3134F, name: "CJK Unified Ideographs Extension G", code_points: 4944, assigned: 4939, scripts: "Han" }
    } else if i == 313 {
        BlockRange { low: 0xE0000, high: 0xE007F, name: "Tags", code_points: 128, assigned: 97, scripts: "Common" }
    } else if i == 314 {
        BlockRange { low: 0xE0100, high: 0xE01EF, name: "Variation Selectors Supplement", code_points: 240, assigned: 240, scripts: "Inherited" }
    } else if i == 315 {
        BlockRange { low: 0xF0000, high: 0xFFFFF, name: "Supplementary Private Use Area-A", code_points: 65536, assigned: 65534, scripts: "Unknown" }
    } else {
        BlockRange { low: 0x100000, high: 0x10FFFF, name: "Supplementary Private Use Area-B", code_points: 65536, assigned: 65534, scripts: "Unknown" }
    }
}

/// Row `i` of the built-in table, as specification data.
pub open spec fn block_at(i: int) -> BlockRange {
    if i < 64 {
        block_seg0(i)
    } else if i < 128 {
        block_seg1(i)
    } else if i < 192 {
        block_seg2(i)
    } else if i < 256 {
        block_seg3(i)
    } else {
        block_seg4(i)
    }
}

/// The built-in table as a sequence.
pub open spec fn table() -> Seq<BlockRange> {
    Seq::new(BLOCK_COUNT as nat, |i: int| block_at(i))
}

fn entry_seg0(i: usize) -> (r: BlockRange)
    requires
        0 <= i < 64,
    ensures
        r == block_seg0(i as int),
{
    match i {
        0 => BlockRange { low: 0x0000, high: 0x007F, name: "Basic Latin", code_points: 128, assigned: 128, scripts: "Latin (52 characters), Common (76 characters)" },
        1 => BlockRange { low: 0x0080, high: 0x00FF, name: "Latin-1 Supplement", code_points: 128, assigned: 128, scripts: "Latin (64 characters), Common (64 characters)" },
        2 => BlockRange { low: 0x0100, high: 0x017F, name: "Latin Extended-A", code_points: 128, assigned: 128, scripts: "Latin" },
        3 => BlockRange { low: 0x0180, high: 0x024F, name: "Latin Extended-B", code_points: 208, assigned: 208, scripts: "Latin" },
        4 => BlockRange { low: 0x0250, high: 0x02AF, name: "IPA Extensions", code_points: 96, assigned: 96, scripts: "Latin" },
        5 => BlockRange { low: 0x02B0, high: 0x02FF, name: "Spacing Modifier Letters", code_points: 80, assigned: 80, scripts: "Bopomofo (2 characters), Latin (14 characters), Common (64 characters)" },
        6 => BlockRange { low: 0x0300, high: 0x036F, name: "Combining Diacritical Marks", code_points: 112, assigned: 112, scripts: "Inherited" },
        7 => BlockRange { low: 0x0370, high: 0x03FF, name: "Greek and Coptic", code_points: 144, assigned: 135, scripts: "Coptic (14 characters), Greek (117 characters), Common (4 characters)" },
        8 => BlockRange { low: 0x0400, high: 0x04FF, name: "Cyrillic", code_points: 256, assigned: 256, scripts: "Cyrillic (254 characters), Inherited (2 characters)" },
        9 => BlockRange { low: 0x0500, high: 0x052F, name: "Cyrillic Supplement", code_points: 48, assigned: 48, scripts: "Cyrillic" },
        10 => BlockRange { low: 0x0530, high: 0x058F, name: "Armenian", code_points: 96, assigned: 91, scripts: "Armenian" },
        11 => BlockRange { low: 0x0590, high: 0x05FF, name: "Hebrew", code_points: 112, assigned: 88, scripts: "Hebrew" },
        12 => BlockRange { low: 0x0600, high: 0x06FF, name: "Arabic", code_points: 256, assigned: 256, scripts: "Arabic (238 characters), Common (6 characters), Inherited (12 characters)" },
        13 => BlockRange { low: 0x0700, high: 0x074F, name: "Syriac", code_points: 80, assigned: 77, scripts: "Syriac" },
        14 => BlockRange { low: 0x0750, high: 0x077F, name: "Arabic Supplement", code_points: 48, assigned: 48, scripts: "Arabic" },
        15 => BlockRange { low: 0x0780, high: 0x07BF, name: "Thaana", code_points: 64, assigned: 50, scripts: "Thaana" },
        16 => BlockRange { low: 0x07C0, high: 0x07FF, name: "NKo", code_points: 64, assigned: 62, scripts: "Nko" },
        17 => BlockRange { low: 0x0800, high: 0x083F, name: "Samaritan", code_points: 64, assigned: 61, scripts: "Samaritan" },
        18 => BlockRange { low: 0x0840, high: 0x085F, name: "Mandaic", code_points: 32, assigned: 29, scripts: "Mandaic" },
        19 => BlockRange { low: 0x0860, high: 0x086F, name: "Syriac Supplement", code_points: 16, assigned: 11, scripts: "Syriac" },
        20 => BlockRange { low: 0x0870, high: 0x089F, name: "Arabic Extended-B", code_points: 48, assigned: 41, scripts: "Arabic" },
        21 => BlockRange { low: 0x08A0, high: 0x08FF, name: "Arabic Extended-A", code_points: 96, assigned: 96, scripts: "Arabic (95 characters), Common (1 character)" },
        22 => BlockRange { low: 0x0900, high: 0x097F, name: "Devanagari", code_points: 128, assigned: 128, scripts: "Devanagari (122 characters), Common (2 characters), Inherited (4 characters)" },
        23 => BlockRange { low: 0x0980, high: 0x09FF, name: "Bengali", code_points: 128, assigned: 96, scripts: "Bengali" },
        24 => BlockRange { low: 0x0A00, high: 0x0A7F, name: "Gurmukhi", code_points: 128, assigned: 80, scripts: "Gurmukhi" },
        25 => BlockRange { low: 0x0A80, high: 0x0AFF, name: "Gujarati", code_points: 128, assigned: 91, scripts: "Gujarati" },
        26 => BlockRange { low: 0x0B00, high: 0x0B7F, name: "Oriya", code_points: 128, assigned: 91, scripts: "Oriya" },
        27 => BlockRange { low: 0x0B80, high: 0x0BFF, name: "Tamil", code_points: 128, assigned: 72, scripts: "Tamil" },
        28 => BlockRange { low: 0x0C00, high: 0x0C7F, name: "Telugu", code_points: 128, assigned: 100, scripts: "Telugu" },
        29 => BlockRange { low: 0x0C80, high: 0x0CFF, name: "Kannada", code_points: 128, assigned: 90, scripts: "Kannada" },
        30 => BlockRange { low: 0x0D00, high: 0x0D7F, name: "Malayalam", code_points: 128, assigned: 118, scripts: "Malayalam" },
        31 => BlockRange { low: 0x0D80, high: 0x0DFF, name: "Sinhala", code_points: 128, assigned: 91, scripts: "Sinhala" },
        32 => BlockRange { low: 0x0E00, high: 0x0E7F, name: "Thai", code_points: 128, assigned: 87, scripts: "Thai (86 characters), Common (1 character)" },
        33 => BlockRange { low: 0x0E80, high: 0x0EFF, name: "Lao", code_points: 128, assigned: 82, scripts: "Lao" },
        34 => BlockRange { low: 0x0F00, high: 0x0FFF, name: "Tibetan", code_points: 256, assigned: 211, scripts: "Tibetan (207 characters), Common (4 characters)" },
        35 => BlockRange { low: 0x1000, high: 0x109F, name: "Myanmar", code_points: 160, assigned: 160, scripts: "Myanmar" },
        36 => BlockRange { low: 0x10A0, high: 0x10FF, name: "Georgian", code_points: 96, assigned: 88, scripts: "Georgian (87 characters), Common (1 character)" },
        37 => BlockRange { low: 0x1100, high: 0x11FF, name: "Hangul Jamo", code_points: 256, assigned: 256, scripts: "Hangul" },
        38 => BlockRange { low: 0x1200, high: 0x137F, name: "Ethiopic", code_points: 384, assigned: 358, scripts: "Ethiopic" },
        39 => BlockRange { low: 0x1380, high: 0x139F, name: "Ethiopic Supplement", code_points: 32, assigned: 26, scripts: "Ethiopic" },
        40 => BlockRange { low: 0x13A0, high: 0x13FF, name: "Cherokee", code_points: 96, assigned: 92, scripts: "Cherokee" },
        41 => BlockRange { low: 0x1400, high: 0x167F, name: "Unified Canadian Aboriginal Syllabics", code_points: 640, assigned: 640, scripts: "Canadian Aboriginal" },
        42 => BlockRange { low: 0x1680, high: 0x169F, name: "Ogham", code_points: 32, assigned: 29, scripts: "Ogham" },
        43 => BlockRange { low: 0x16A0, high: 0x16FF, name: "Runic", code_points: 96, assigned: 89, scripts: "Runic (86 characters), Common (3 characters)" },
        44 => BlockRange { low: 0x1700, high: 0x171F, name: "Tagalog", code_points: 32, assigned: 23, scripts: "Tagalog" },
        45 => BlockRange { low: 0x1720, high: 0x173F, name: "Hanunoo", code_points: 32, assigned: 23, scripts: "Hanunoo (21 characters), Common (2 characters)" },
        46 => BlockRange { low: 0x1740, high: 0x175F, name: "Buhid", code_points: 32, assigned: 20, scripts: "Buhid" },
        47 => BlockRange { low: 0x1760, high: 0x177F, name: "Tagbanwa", code_points: 32, assigned: 18, scripts: "Tagbanwa" },
        48 => BlockRange { low: 0x1780, high: 0x17FF, name: "Khmer", code_points: 128, assigned: 114, scripts: "Khmer" },
        49 => BlockRange { low: 0x1800, high: 0x18AF, name: "Mongolian", code_points: 176, assigned: 158, scripts: "Mongolian (155 characters), Common (3 characters)" },
        50 => BlockRange { low: 0x18B0, high: 0x18FF, name: "Unified Canadian Aboriginal Syllabics Extended", code_points: 80, assigned: 70, scripts: "Canadian Aboriginal" },
        51 => BlockRange { low: 0x1900, high: 0x194F, name: "Limbu", code_points: 80, assigned: 68, scripts: "Limbu" },
        52 => BlockRange { low: 0x1950, high: 0x197F, name: "Tai Le", code_points: 48, assigned: 35, scripts: "Tai Le" },
        53 => BlockRange { low: 0x1980, high: 0x19DF, name: "New Tai Lue", code_points: 96, assigned: 83, scripts: "New Tai Lue" },
        54 => BlockRange { low: 0x19E0, high: 0x19FF, name: "Khmer Symbols", code_points: 32, assigned: 32, scripts: "Khmer" },
        55 => BlockRange { low: 0x1A00, high: 0x1A1F, name: "Buginese", code_points: 32, assigned: 30, scripts: "Buginese" },
        56 => BlockRange { low: 0x1A20, high: 0x1AAF, name: "Tai Tham", code_points: 144, assigned: 127, scripts: "Tai Tham" },
        57 => BlockRange { low: 0x1AB0, high: 0x1AFF, name: "Combining Diacritical Marks Extended", code_points: 80, assigned: 31, scripts: "Inherited" },
        58 => BlockRange { low: 0x1B00, high: 0x1B7F, name: "Balinese", code_points: 128, assigned: 124, scripts: "Balinese" },
        59 => BlockRange { low: 0x1B80, high: 0x1BBF, name: "Sundanese", code_points: 64, assigned: 64, scripts: "Sundanese" },
        60 => BlockRange { low: 0x1BC0, high: 0x1BFF, name: "Batak", code_points: 64, assigned: 56, scripts: "Batak" },
        61 => BlockRange { low: 0x1C00, high: 0x1C4F, name: "Lepcha", code_points: 80, assigned: 74, scripts: "Lepcha" },
        62 => BlockRange { low: 0x1C50, high: 0x1C7F, name: "Ol Chiki", code_points: 48, assigned: 48, scripts: "Ol Chiki" },
        _ => BlockRange { low: 0x1C80, high: 0x1C8F, name: "Cyrillic Extended-C", code_points: 16, assigned: 9, scripts: "Cyrillic" },
    }
}

fn entry_seg1(i: usize) -> (r: BlockRange)
    requires
        64 <= i < 128,
    ensures
        r == block_seg1(i as int),
{
    match i {
        64 => BlockRange { low: 0x1C90, high: 0x1CBF, name: "Georgian Extended", code_points: 48, assigned: 46, scripts: "Georgian" },
        65 => BlockRange { low: 0x1CC0, high: 0x1CCF, name: "Sundanese Supplement", code_points: 16, assigned: 8, scripts: "Sundanese" },
        66 => BlockRange { low: 0x1CD0, high: 0x1CFF, name: "Vedic Extensions", code_points: 48, assigned: 43, scripts: "Common (16 characters), Inherited (27 characters)" },
        67 => BlockRange { low: 0x1D00, high: 0x1D7F, name: "Phonetic Extensions", code_points: 128, assigned: 128, scripts: "Cyrillic (2 characters), Greek (15 characters), Latin (111 characters)" },
        68 => BlockRange { low: 0x1D80, high: 0x1DBF, name: "Phonetic Extensions Supplement", code_points: 64, assigned: 64, scripts: "Greek (1 character), Latin (63 characters)" },
        69 => BlockRange { low: 0x1DC0, high: 0x1DFF, name: "Combining Diacritical Marks Supplement", code_points: 64, assigned: 64, scripts: "Inherited" },
        70 => BlockRange { low: 0x1E00, high: 0x1EFF, name: "Latin Extended Additional", code_points: 256, assigned: 256, scripts: "Latin" },
        71 => BlockRange { low: 0x1F00, high: 0x1FFF, name: "Greek Extended", code_points: 256, assigned: 233, scripts: "Greek" },
        72 => BlockRange { low: 0x2000, high: 0x206F, name: "General Punctuation", code_points: 112, assigned: 111, scripts: "Common (109 characters), Inherited (2 characters)" },
        73 => BlockRange { low: 0x2070, high: 0x209F, name: "Superscripts and Subscripts", code_points: 48, assigned: 42, scripts: "Latin (15 characters), Common (27 characters)" },
        74 => BlockRange { low: 0x20A0, high: 0x20CF, name: "Currency Symbols", code_points: 48, assigned: 33, scripts: "Common" },
        75 => BlockRange { low: 0x20D0, high: 0x20FF, name: "Combining Diacritical Marks for Symbols", code_points: 48, assigned: 33, scripts: "Inherited" },
        76 => BlockRange { low: 0x2100, high: 0x214F, name: "Letterlike Symbols", code_points: 80, assigned: 80, scripts: "Greek (1 character), Latin (4 characters), Common (75 characters)" },
        77 => BlockRange { low: 0x2150, high: 0x218F, name: "Number Forms", code_points: 64, assigned: 60, scripts: "Latin (41 characters), Common (19 characters)" },
        78 => BlockRange { low: 0x2190, high: 0x21FF, name: "Arrows", code_points: 112, assigned: 112, scripts: "Common" },
        79 => BlockRange { low: 0x2200, high: 0x22FF, name: "Mathematical Operators", code_points: 256, assigned: 256, scripts: "Common" },
        80 => BlockRange { low: 0x2300, high: 0x23FF, name: "Miscellaneous Technical", code_points: 256, assigned: 256, scripts: "Common" },
        81 => BlockRange { low: 0x2400, high: 0x243F, name: "Control Pictures", code_points: 64, assigned: 39, scripts: "Common" },
        82 => BlockRange { low: 0x2440, high: 0x245F, name: "Optical Character Recognition", code_points: 32, assigned: 11, scripts: "Common" },
        83 => BlockRange { low: 0x2460, high: 0x24FF, name: "Enclosed Alphanumerics", code_points: 160, assigned: 160, scripts: "Common" },
        84 => BlockRange { low: 0x2500, high: 0x257F, name: "Box Drawing", code_points: 128, assigned: 128, scripts: "Common" },
        85 => BlockRange { low: 0x2580, high: 0x259F, name: "Block Elements", code_points: 32, assigned: 32, scripts: "Common" },
        86 => BlockRange { low: 0x25A0, high: 0x25FF, name: "Geometric Shapes", code_points: 96, assigned: 96, scripts: "Common" },
        87 => BlockRange { low: 0x2600, high: 0x26FF, name: "Miscellaneous Symbols", code_points: 256, assigned: 256, scripts: "Common" },
        88 => BlockRange { low: 0x2700, high: 0x27BF, name: "Dingbats", code_points: 192, assigned: 192, scripts: "Common" },
        89 => BlockRange { low: 0x27C0, high: 0x27EF, name: "Miscellaneous Mathematical Symbols-A", code_points: 48, assigned: 48, scripts: "Common" },
        90 => BlockRange { low: 0x27F0, high: 0x27FF, name: "Supplemental Arrows-A", code_points: 16, assigned: 16, scripts: "Common" },
        91 => BlockRange { low: 0x2800, high: 0x28FF, name: "Braille Patterns", code_points: 256, assigned: 256, scripts: "Braille" },
        92 => BlockRange { low: 0x2900, high: 0x297F, name: "Supplemental Arrows-B", code_points: 128, assigned: 128, scripts: "Common" },
        93 => BlockRange { low: 0x2980, high: 0x29FF, name: "Miscellaneous Mathematical Symbols-B", code_points: 128, assigned: 128, scripts: "Common" },
        94 => BlockRange { low: 0x2A00, high: 0x2AFF, name: "Supplemental Mathematical Operators", code_points: 256, assigned: 256, scripts: "Common" },
        95 => BlockRange { low: 0x2B00, high: 0x2BFF, name: "Miscellaneous Symbols and Arrows", code_points: 256, assigned: 253, scripts: "Common" },
        96 => BlockRange { low: 0x2C00, high: 0x2C5F, name: "Glagolitic", code_points: 96, assigned: 96, scripts: "Glagolitic" },
        97 => BlockRange { low: 0x2C60, high: 0x2C7F, name: "Latin Extended-C", code_points: 32, assigned: 32, scripts: "Latin" },
        98 => BlockRange { low: 0x2C80, high: 0x2CFF, name: "Coptic", code_points: 128, assigned: 123, scripts: "Coptic" },
        99 => BlockRange { low: 0x2D00, high: 0x2D2F, name: "Georgian Supplement", code_points: 48, assigned: 40, scripts: "Georgian" },
        100 => BlockRange { low: 0x2D30, high: 0x2D7F, name: "Tifinagh", code_points: 80, assigned: 59, scripts: "Tifinagh" },
        101 => BlockRange { low: 0x2D80, high: 0x2DDF, name: "Ethiopic Extended", code_points: 96, assigned: 79, scripts: "Ethiopic" },
        102 => BlockRange { low: 0x2DE0, high: 0x2DFF, name: "Cyrillic Extended-A", code_points: 32, assigned: 32, scripts: "Cyrillic" },
        103 => BlockRange { low: 0x2E00, high: 0x2E7F, name: "Supplemental Punctuation", code_points: 128, assigned: 94, scripts: "Common" },
        104 => BlockRange { low: 0x2E80, high: 0x2EFF, name: "CJK Radicals Supplement", code_points: 128, assigned: 115, scripts: "Han" },
        105 => BlockRange { low: 0x2F00, high: 0x2FDF, name: "Kangxi Radicals", code_points: 224, assigned: 214, scripts: "Han" },
        106 => BlockRange { low: 0x2FF0, high: 0x2FFF, name: "Ideographic Description Characters", code_points: 16, assigned: 12, scripts: "Common" },
        107 => BlockRange { low: 0x3000, high: 0x303F, name: "CJK Symbols and Punctuation", code_points: 64, assigned: 64, scripts: "Han (15 characters), Hangul (2 characters), Common (43 characters), Inherited (4 characters)" },
        108 => BlockRange { low: 0x3040, high: 0x309F, name: "Hiragana", code_points: 96, assigned: 93, scripts: "Hiragana (89 characters), Common (2 characters), Inherited (2 characters)" },
        109 => BlockRange { low: 0x30A0, high: 0x30FF, name: "Katakana", code_points: 96, assigned: 96, scripts: "Katakana (93 characters), Common (3 characters)" },
        110 => BlockRange { low: 0x3100, high: 0x312F, name: "Bopomofo", code_points: 48, assigned: 43, scripts: "Bopomofo" },
        111 => BlockRange { low: 0x3130, high: 0x318F, name: "Hangul Compatibility Jamo", code_points: 96, assigned: 94, scripts: "Hangul" },
        112 => BlockRange { low: 0x3190, high: 0x319F, name: "Kanbun", code_points: 16, assigned: 16, scripts: "Common" },
        113 => BlockRange { low: 0x31A0, high: 0x31BF, name: "Bopomofo Extended", code_points: 32, assigned: 32, scripts: "Bopomofo" },
        114 => BlockRange { low: 0x31C0, high: 0x31EF, name: "CJK Strokes", code_points: 48, assigned: 36, scripts: "Common" },
        115 => BlockRange { low: 0x31F0, high: 0x31FF, name: "Katakana Phonetic Extensions", code_points: 16, assigned: 16, scripts: "Katakana" },
        116 => BlockRange { low: 0x3200, high: 0x32FF, name: "Enclosed CJK Letters and Months", code_points: 256, assigned: 255, scripts: "Hangul (62 characters), Katakana (47 characters), Common (146 characters)" },
        117 => BlockRange { low: 0x3300, high: 0x33FF, name: "CJK Compatibility", code_points: 256, assigned: 256, scripts: "Katakana (88 characters), Common (168 characters)" },
        118 => BlockRange { low: 0x3400, high: 0x4DBF, name: "CJK Unified Ideographs Extension A", code_points: 6592, assigned: 6592, scripts: "Han" },
        119 => BlockRange { low: 0x4DC0, high: 0x4DFF, name: "Yijing Hexagram Symbols", code_points: 64, assigned: 64, scripts: "Common" },
        120 => BlockRange { low: 0x4E00, high: 0x9FFF, name: "CJK Unified Ideographs", code_points: 20992, assigned: 20992, scripts: "Han" },
        121 => BlockRange { low: 0xA000, high: 0xA48F, name: "Yi Syllables", code_points: 1168, assigned: 1165, scripts: "Yi" },
        122 => BlockRange { low: 0xA490, high: 0xA4CF, name: "Yi Radicals", code_points: 64, assigned: 55, scripts: "Yi" },
        123 => BlockRange { low: 0xA4D0, high: 0xA4FF, name: "Lisu", code_points: 48, assigned: 48, scripts: "Lisu" },
        124 => BlockRange { low: 0xA500, high: 0xA63F, name: "Vai", code_points: 320, assigned: 300, scripts: "Vai" },
        125 => BlockRange { low: 0xA640, high: 0xA69F, name: "Cyrillic Extended-B", code_points: 96, assigned: 96, scripts: "Cyrillic" },
        126 => BlockRange { low: 0xA6A0, high: 0xA6FF, name: "Bamum", code_points: 96, assigned: 88, scripts: "Bamum" },
        _ => BlockRange { low: 0xA700, high: 0xA71F, name: "Modifier Tone Letters", code_points: 32, assigned: 32, scripts: "Common" },
    }
}

fn entry_seg2(i: usize) -> (r: BlockRange)
    requires
        128 <= i < 192,
    ensures
        r == block_seg2(i as int),
{
    match i {
        128 => BlockRange { low: 0xA720, high: 0xA7FF, name: "Latin Extended-D", code_points: 224, assigned: 193, scripts: "Latin (188 characters), Common (5 characters)" },
        129 => BlockRange { low: 0xA800, high: 0xA82F, name: "Syloti Nagri", code_points: 48, assigned: 45, scripts: "Syloti Nagri" },
        130 => BlockRange { low: 0xA830, high: 0xA83F, name: "Common Indic Number Forms", code_points: 16, assigned: 10, scripts: "Common" },
        131 => BlockRange { low: 0xA840, high: 0xA87F, name: "Phags-pa", code_points: 64, assigned: 56, scripts: "Phags Pa" },
        132 => BlockRange { low: 0xA880, high: 0xA8DF, name: "Saurashtra", code_points: 96, assigned: 82, scripts: "Saurashtra" },
        133 => BlockRange { low: 0xA8E0, high: 0xA8FF, name: "Devanagari Extended", code_points: 32, assigned: 32, scripts: "Devanagari" },
        134 => BlockRange { low: 0xA900, high: 0xA92F, name: "Kayah Li", code_points: 48, assigned: 48, scripts: "Kayah Li (47 characters), Common (1 character)" },
        135 => BlockRange { low: 0xA930, high: 0xA95F, name: "Rejang", code_points: 48, assigned: 37, scripts: "Rejang" },
        136 => BlockRange { low: 0xA960, high: 0xA97F, name: "Hangul Jamo Extended-A", code_points: 32, assigned: 29, scripts: "Hangul" },
        137 => BlockRange { low: 0xA980, high: 0xA9DF, name: "Javanese", code_points: 96, assigned: 91, scripts: "Javanese (90 characters), Common (1 character)" },
        138 => BlockRange { low: 0xA9E0, high: 0xA9FF, name: "Myanmar Extended-B", code_points: 32, assigned: 31, scripts: "Myanmar" },
        139 => BlockRange { low: 0xAA00, high: 0xAA5F, name: "Cham", code_points: 96, assigned: 83, scripts: "Cham" },
        140 => BlockRange { low: 0xAA60, high: 0xAA7F, name: "Myanmar Extended-A", code_points: 32, assigned: 32, scripts: "Myanmar" },
        141 => BlockRange { low: 0xAA80, high: 0xAADF, name: "Tai Viet", code_points: 96, assigned: 72, scripts: "Tai Viet" },
        142 => BlockRange { low: 0xAAE0, high: 0xAAFF, name: "Meetei Mayek Extensions", code_points: 32, assigned: 23, scripts: "Meetei Mayek" },
        143 => BlockRange { low: 0xAB00, high: 0xAB2F, name: "Ethiopic Extended-A", code_points: 48, assigned: 32, scripts: "Ethiopic" },
        144 => BlockRange { low: 0xAB30, high: 0xAB6F, name: "Latin Extended-E", code_points: 64, assigned: 60, scripts: "Latin (56 characters), Greek (1 character), Common (3 characters)" },
        145 => BlockRange { low: 0xAB70, high: 0xABBF, name: "Cherokee Supplement", code_points: 80, assigned: 80, scripts: "Cherokee" },
        146 => BlockRange { low: 0xABC0, high: 0xABFF, name: "Meetei Mayek", code_points: 64, assigned: 56, scripts: "Meetei Mayek" },
        147 => BlockRange { low: 0xAC00, high: 0xD7AF, name: "Hangul Syllables", code_points: 11184, assigned: 11172, scripts: "Hangul" },
        148 => BlockRange { low: 0xD7B0, high: 0xD7FF, name: "Hangul Jamo Extended-B", code_points: 80, assigned: 72, scripts: "Hangul" },
        149 => BlockRange { low: 0xE000, high: 0xF8FF, name: "Private Use Area", code_points: 6400, assigned: 6400, scripts: "Unknown" },
        150 => BlockRange { low: 0xF900, high: 0xFAFF, name: "CJK Compatibility Ideographs", code_points: 512, assigned: 472, scripts: "Han" },
        151 => BlockRange { low: 0xFB00, high: 0xFB4F, name: "Alphabetic Presentation Forms", code_points: 80, assigned: 58, scripts: "Armenian (5 characters), Hebrew (46 characters), Latin (7 characters)" },
        152 => BlockRange { low: 0xFB50, high: 0xFDFF, name: "Arabic Presentation Forms-A", code_points: 688, assigned: 631, scripts: "Arabic (629 characters), Common (2 characters)" },
        153 => BlockRange { low: 0xFE00, high: 0xFE0F, name: "Variation Selectors", code_points: 16, assigned: 16, scripts: "Inherited" },
        154 => BlockRange { low: 0xFE10, high: 0xFE1F, name: "Vertical Forms", code_points: 16, assigned: 10, scripts: "Common" },
        155 => BlockRange { low: 0xFE20, high: 0xFE2F, name: "Combining Half Marks", code_points: 16, assigned: 16, scripts: "Cyrillic (2 characters), Inherited (14 characters)" },
        156 => BlockRange { low: 0xFE30, high: 0xFE4F, name: "CJK Compatibility Forms", code_points: 32, assigned: 32, scripts: "Common" },
        157 => BlockRange { low: 0xFE50, high: 0xFE6F, name: "Small Form Variants", code_points: 32, assigned: 26, scripts: "Common" },
        158 => BlockRange { low: 0xFE70, high: 0xFEFF, name: "Arabic Presentation Forms-B", code_points: 144, assigned: 141, scripts: "Arabic (140 characters), Common (1 character)" },
        159 => BlockRange { low: 0xFF00, high: 0xFFEF, name: "Halfwidth and Fullwidth Forms", code_points: 240, assigned: 225, scripts: "Hangul (52 characters), Katakana (55 characters), Latin (52 characters), Common (66 characters)" },
        160 => BlockRange { low: 0xFFF0, high: 0xFFFF, name: "Specials", code_points: 16, assigned: 5, scripts: "Common" },
        161 => BlockRange { low: 0x10000, high: 0x1007F, name: "Linear B Syllabary", code_points: 128, assigned: 88, scripts: "Linear B" },
        162 => BlockRange { low: 0x10080, high: 0x100FF, name: "Linear B Ideograms", code_points: 128, assigned: 123, scripts: "Linear B" },
        163 => BlockRange { low: 0x10100, high: 0x1013F, name: "Aegean Numbers", code_points: 64, assigned: 57, scripts: "Common" },
        164 => BlockRange { low: 0x10140, high: 0x1018F, name: "Ancient Greek Numbers", code_points: 80, assigned: 79, scripts: "Greek" },
        165 => BlockRange { low: 0x10190, high: 0x101CF, name: "Ancient Symbols", code_points: 64, assigned: 14, scripts: "Greek (1 character), Common (13 characters)" },
        166 => BlockRange { low: 0x101D0, high: 0x101FF, name: "Phaistos Disc", code_points: 48, assigned: 46, scripts: "Common (45 characters), Inherited (1 character)" },
        167 => BlockRange { low: 0x10280, high: 0x1029F, name: "Lycian", code_points: 32, assigned: 29, scripts: "Lycian" },
        168 => BlockRange { low: 0x102A0, high: 0x102DF, name: "Carian", code_points: 64, assigned: 49, scripts: "Carian" },
        169 => BlockRange { low: 0x102E0, high: 0x102FF, name: "Coptic Epact Numbers", code_points: 32, assigned: 28, scripts: "Common (27 characters), Inherited (1 character)" },
        170 => BlockRange { low: 0x10300, high: 0x1032F, name: "Old Italic", code_points: 48, assigned: 39, scripts: "Old Italic" },
        171 => BlockRange { low: 0x10330, high: 0x1034F, name: "Gothic", code_points: 32, assigned: 27, scripts: "Gothic" },
        172 => BlockRange { low: 0x10350, high: 0x1037F, name: "Old Permic", code_points: 48, assigned: 43, scripts: "Old Permic" },
        173 => BlockRange { low: 0x10380, high: 0x1039F, name: "Ugaritic", code_points: 32, assigned: 31, scripts: "Ugaritic" },
        174 => BlockRange { low: 0x103A0, high: 0x103DF, name: "Old Persian", code_points: 64, assigned: 50, scripts: "Old Persian" },
        175 => BlockRange { low: 0x10400, high: 0x1044F, name: "Deseret", code_points: 80, assigned: 80, scripts: "Deseret" },
        176 => BlockRange { low: 0x10450, high: 0x1047F, name: "Shavian", code_points: 48, assigned: 48, scripts: "Shavian" },
        177 => BlockRange { low: 0x10480, high: 0x104AF, name: "Osmanya", code_points: 48, assigned: 40, scripts: "Osmanya" },
        178 => BlockRange { low: 0x104B0, high: 0x104FF, name: "Osage", code_points: 80, assigned: 72, scripts: "Osage" },
        179 => BlockRange { low: 0x10500, high: 0x1052F, name: "Elbasan", code_points: 48, assigned: 40, scripts: "Elbasan" },
        180 => BlockRange { low: 0x10530, high: 0x1056F, name: "Caucasian Albanian", code_points: 64, assigned: 53, scripts: "Caucasian Albanian" },
        181 => BlockRange { low: 0x10570, high: 0x105BF, name: "Vithkuqi", code_points: 80, assigned: 70, scripts: "Vithkuqi" },
        182 => BlockRange { low: 0x10600, high: 0x1077F, name: "Linear A", code_points: 384, assigned: 341, scripts: "Linear A" },
        183 => BlockRange { low: 0x10780, high: 0x107BF, name: "Latin Extended-F", code_points: 64, assigned: 57, scripts: "Latin" },
        184 => BlockRange { low: 0x10800, high: 0x1083F, name: "Cypriot Syllabary", code_points: 64, assigned: 55, scripts: "Cypriot" },
        185 => BlockRange { low: 0x10840, high: 0x1085F, name: "Imperial Aramaic", code_points: 32, assigned: 31, scripts: "Imperial Aramaic" },
        186 => BlockRange { low: 0x10860, high: 0x1087F, name: "Palmyrene", code_points: 32, assigned: 32, scripts: "Palmyrene" },
        187 => BlockRange { low: 0x10880, high: 0x108AF, name: "Nabataean", code_points: 48, assigned: 40, scripts: "Nabataean" },
        188 => BlockRange { low: 0x108E0, high: 0x108FF, name: "Hatran", code_points: 32, assigned: 26, scripts: "Hatran" },
        189 => BlockRange { low: 0x10900, high: 0x1091F, name: "Phoenician", code_points: 32, assigned: 29, scripts: "Phoenician" },
        190 => BlockRange { low: 0x10920, high: 0x1093F, name: "Lydian", code_points: 32, assigned: 27, scripts: "Lydian" },
        _ => BlockRange { low: 0x10980, high: 0x1099F, name: "Meroitic Hieroglyphs", code_points: 32, assigned: 32, scripts: "Meroitic Hieroglyphs" },
    }
}

fn entry_seg3(i: usize) -> (r: BlockRange)
    requires
        192 <= i < 256,
    ensures
        r == block_seg3(i as int),
{
    match i {
        192 => BlockRange { low: 0x109A0, high: 0x109FF, name: "Meroitic Cursive", code_points: 96, assigned: 90, scripts: "Meroitic Cursive" },
        193 => BlockRange { low: 0x10A00, high: 0x10A5F, name: "Kharoshthi", code_points: 96, assigned: 68, scripts: "Kharoshthi" },
        194 => BlockRange { low: 0x10A60, high: 0x10A7F, name: "Old South Arabian", code_points: 32, assigned: 32, scripts: "Old South Arabian" },
        195 => BlockRange { low: 0x10A80, high: 0x10A9F, name: "Old North Arabian", code_points: 32, assigned: 32, scripts: "Old North Arabian" },
        196 => BlockRange { low: 0x10AC0, high: 0x10AFF, name: "Manichaean", code_points: 64, assigned: 51, scripts: "Manichaean" },
        197 => BlockRange { low: 0x10B00, high: 0x10B3F, name: "Avestan", code_points: 64, assigned: 61, scripts: "Avestan" },
        198 => BlockRange { low: 0x10B40, high: 0x10B5F, name: "Inscriptional Parthian", code_points: 32, assigned: 30, scripts: "Inscriptional Parthian" },
        199 => BlockRange { low: 0x10B60, high: 0x10B7F, name: "Inscriptional Pahlavi", code_points: 32, assigned: 27, scripts: "Inscriptional Pahlavi" },
        200 => BlockRange { low: 0x10B80, high: 0x10BAF, name: "Psalter Pahlavi", code_points: 48, assigned: 29, scripts: "Psalter Pahlavi" },
        201 => BlockRange { low: 0x10C00, high: 0x10C4F, name: "Old Turkic", code_points: 80, assigned: 73, scripts: "Old Turkic" },
        202 => BlockRange { low: 0x10C80, high: 0x10CFF, name: "Old Hungarian", code_points: 128, assigned: 108, scripts: "Old Hungarian" },
        203 => BlockRange { low: 0x10D00, high: 0x10D3F, name: "Hanifi Rohingya", code_points: 64, assigned: 50, scripts: "Hanifi Rohingya" },
        204 => BlockRange { low: 0x10E60, high: 0x10E7F, name: "Rumi Numeral Symbols", code_points: 32, assigned: 31, scripts: "Arabic" },
        205 => BlockRange { low: 0x10E80, high: 0x10EBF, name: "Yezidi", code_points: 64, assigned: 47, scripts: "Yezidi" },
        206 => BlockRange { low: 0x10F00, high: 0x10F2F, name: "Old Sogdian", code_points: 48, assigned: 40, scripts: "Old Sogdian" },
        207 => BlockRange { low: 0x10F30, high: 0x10F6F, name: "Sogdian", code_points: 64, assigned: 42, scripts: "Sogdian" },
        208 => BlockRange { low: 0x10F70, high: 0x10FAF, name: "Old Uyghur", code_points: 64, assigned: 26, scripts: "Old Uyghur" },
        209 => BlockRange { low: 0x10FB0, high: 0x10FDF, name: "Chorasmian", code_points: 48, assigned: 28, scripts: "Chorasmian" },
        210 => BlockRange { low: 0x10FE0, high: 0x10FFF, name: "Elymaic", code_points: 32, assigned: 23, scripts: "Elymaic" },
        211 => BlockRange { low: 0x11000, high: 0x1107F, name: "Brahmi", code_points: 128, assigned: 115, scripts: "Brahmi" },
        212 => BlockRange { low: 0x11080, high: 0x110CF, name: "Kaithi", code_points: 80, assigned: 68, scripts: "Kaithi" },
        213 => BlockRange { low: 0x110D0, high: 0x110FF, name: "Sora Sompeng", code_points: 48, assigned: 35, scripts: "Sora Sompeng" },
        214 => BlockRange { low: 0x11100, high: 0x1114F, name: "Chakma", code_points: 80, assigned: 71, scripts: "Chakma" },
        215 => BlockRange { low: 0x11150, high: 0x1117F, name: "Mahajani", code_points: 48, assigned: 39, scripts: "Mahajani" },
        216 => BlockRange { low: 0x11180, high: 0x111DF, name: "Sharada", code_points: 96, assigned: 96, scripts: "Sharada" },
        217 => BlockRange { low: 0x111E0, high: 0x111FF, name: "Sinhala Archaic Numbers", code_points: 32, assigned: 20, scripts: "Sinhala" },
        218 => BlockRange { low: 0x11200, high: 0x1124F, name: "Khojki", code_points: 80, assigned: 62, scripts: "Khojki" },
        219 => BlockRange { low: 0x11280, high: 0x112AF, name: "Multani", code_points: 48, assigned: 38, scripts: "Multani" },
        220 => BlockRange { low: 0x112B0, high: 0x112FF, name: "Khudawadi", code_points: 80, assigned: 69, scripts: "Khudawadi" },
        221 => BlockRange { low: 0x11300, high: 0x1137F, name: "Grantha", code_points: 128, assigned: 86, scripts: "Grantha (85 characters), Inherited (1 character)" },
        222 => BlockRange { low: 0x11400, high: 0x1147F, name: "Newa", code_points: 128, assigned: 97, scripts: "Newa" },
        223 => BlockRange { low: 0x11480, high: 0x114DF, name: "Tirhuta", code_points: 96, assigned: 82, scripts: "Tirhuta" },
        224 => BlockRange { low: 0x11580, high: 0x115FF, name: "Siddham", code_points: 128, assigned: 92, scripts: "Siddham" },
        225 => BlockRange { low: 0x11600, high: 0x1165F, name: "Modi", code_points: 96, assigned: 79, scripts: "Modi" },
        226 => BlockRange { low: 0x11660, high: 0x1167F, name: "Mongolian Supplement", code_points: 32, assigned: 13, scripts: "Mongolian" },
        227 => BlockRange { low: 0x11680, high: 0x116CF, name: "Takri", code_points: 80, assigned: 68, scripts: "Takri" },
        228 => BlockRange { low: 0x11700, high: 0x1174F, name: "Ahom", code_points: 80, assigned: 65, scripts: "Ahom" },
        229 => BlockRange { low: 0x11800, high: 0x1184F, name: "Dogra", code_points: 80, assigned: 60, scripts: "Dogra" },
        230 => BlockRange { low: 0x118A0, high: 0x118FF, name: "Warang Citi", code_points: 96, assigned: 84, scripts: "Warang Citi" },
        231 => BlockRange { low: 0x11900, high: 0x1195F, name: "Dives Akuru", code_points: 96, assigned: 72, scripts: "Dives Akuru" },
        232 => BlockRange { low: 0x119A0, high: 0x119FF, name: "Nandinagari", code_points: 96, assigned: 65, scripts: "Nandinagari" },
        233 => BlockRange { low: 0x11A00, high: 0x11A4F, name: "Zanabazar Square", code_points: 80, assigned: 72, scripts: "Zanabazar Square" },
        234 => BlockRange { low: 0x11A50, high: 0x11AAF, name: "Soyombo", code_points: 96, assigned: 83, scripts: "Soyombo" },
        235 => BlockRange { low: 0x11AB0, high: 0x11ABF, name: "Unified Canadian Aboriginal Syllabics Extended-A", code_points: 16, assigned: 16, scripts: "Canadian Aboriginal" },
        236 => BlockRange { low: 0x11AC0, high: 0x11AFF, name: "Pau Cin Hau", code_points: 64, assigned: 57, scripts: "Pau Cin Hau" },
        237 => BlockRange { low: 0x11C00, high: 0x11C6F, name: "Bhaiksuki", code_points: 112, assigned: 97, scripts: "Bhaiksuki" },
        238 => BlockRange { low: 0x11C70, high: 0x11CBF, name: "Marchen", code_points: 80, assigned: 68, scripts: "Marchen" },
        239 => BlockRange { low: 0x11D00, high: 0x11D5F, name: "Masaram Gondi", code_points: 96, assigned: 75, scripts: "Masaram Gondi" },
        240 => BlockRange { low: 0x11D60, high: 0x11DAF, name: "Gunjala Gondi", code_points: 80, assigned: 63, scripts: "Gunjala Gondi" },
        241 => BlockRange { low: 0x11EE0, high: 0x11EFF, name: "Makasar", code_points: 32, assigned: 25, scripts: "Makasar" },
        242 => BlockRange { low: 0x11FB0, high: 0x11FBF, name: "Lisu Supplement", code_points: 16, assigned: 1, scripts: "Lisu" },
        243 => BlockRange { low: 0x11FC0, high: 0x11FFF, name: "Tamil Supplement", code_points: 64, assigned: 51, scripts: "Tamil" },
        244 => BlockRange { low: 0x12000, high: 0x123FF, name: "Cuneiform", code_points: 1024, assigned: 922, scripts: "Cuneiform" },
        245 => BlockRange { low: 0x12400, high: 0x1247F, name: "Cuneiform Numbers and Punctuation", code_points: 128, assigned: 116, scripts: "Cuneiform" },
        246 => BlockRange { low: 0x12480, high: 0x1254F, name: "Early Dynastic Cuneiform", code_points: 208, assigned: 196, scripts: "Cuneiform" },
        247 => BlockRange { low: 0x12F90, high: 0x12FFF, name: "Cypro-Minoan", code_points: 112, assigned: 99, scripts: "Cypro Minoan" },
        248 => BlockRange { low: 0x13000, high: 0x1342F, name: "Egyptian Hieroglyphs", code_points: 1072, assigned: 1071, scripts: "Egyptian Hieroglyphs" },
        249 => BlockRange { low: 0x13430, high: 0x1343F, name: "Egyptian Hieroglyph Format Controls", code_points: 16, assigned: 9, scripts: "Egyptian Hieroglyphs" },
        250 => BlockRange { low: 0x14400, high: 0x1467F, name: "Anatolian Hieroglyphs", code_points: 640, assigned: 583, scripts: "Anatolian Hieroglyphs" },
        251 => BlockRange { low: 0x16800, high: 0x16A3F, name: "Bamum Supplement", code_points: 576, assigned: 569, scripts: "Bamum" },
        252 => BlockRange { low: 0x16A40, high: 0x16A6F, name: "Mro", code_points: 48, assigned: 43, scripts: "Mro" },
        253 => BlockRange { low: 0x16A70, high: 0x16ACF, name: "Tangsa", code_points: 96, assigned: 89, scripts: "Tangsa" },
        254 => BlockRange { low: 0x16AD0, high: 0x16AFF, name: "Bassa Vah", code_points: 48, assigned: 36, scripts: "Bassa Vah" },
        _ => BlockRange { low: 0x16B00, high: 0x16B8F, name: "Pahawh Hmong", code_points: 144, assigned: 127, scripts: "Pahawh Hmong" },
    }
}

fn entry_seg4(i: usize) -> (r: BlockRange)
    requires
        256 <= i < 317,
    ensures
        r == block_seg4(i as int),
{
    match i {
        256 => BlockRange { low: 0x16E40, high: 0x16E9F, name: "Medefaidrin", code_points: 96, assigned: 91, scripts: "Medefaidrin" },
        257 => BlockRange { low: 0x16F00, high: 0x16F9F, name: "Miao", code_points: 160, assigned: 149, scripts: "Miao" },
        258 => BlockRange { low: 0x16FE0, high: 0x16FFF, name: "Ideographic Symbols and Punctuation", code_points: 32, assigned: 7, scripts: "Han (4 characters), Khitan Small Script (1 character), Nushu (1 character), Tangut (1 character)" },
        259 => BlockRange { low: 0x17000, high: 0x187FF, name: "Tangut", code_points: 6144, assigned: 6136, scripts: "Tangut" },
        260 => BlockRange { low: 0x18800, high: 0x18AFF, name: "Tangut Components", code_points: 768, assigned: 768, scripts: "Tangut" },
        261 => BlockRange { low: 0x18B00, high: 0x18CFF, name: "Khitan Small Script", code_points: 512, assigned: 470, scripts: "Khitan Small Script" },
        262 => BlockRange { low: 0x18D00, high: 0x18D7F, name: "Tangut Supplement", code_points: 128, assigned: 9, scripts: "Tangut" },
        263 => BlockRange { low: 0x1AFF0, high: 0x1AFFF, name: "Kana Extended-B", code_points: 16, assigned: 13, scripts: "Katakana" },
        264 => BlockRange { low: 0x1B000, high: 0x1B0FF, name: "Kana Supplement", code_points: 256, assigned: 256, scripts: "Hiragana (255 characters), Katakana (1 character)" },
        265 => BlockRange { low: 0x1B100, high: 0x1B12F, name: "Kana Extended-A", code_points: 48, assigned: 35, scripts: "Hiragana (32 characters), Katakana (3 characters)" },
        266 => BlockRange { low: 0x1B130, high: 0x1B16F, name: "Small Kana Extension", code_points: 64, assigned: 7, scripts: "Hiragana (3 characters), Katakana (4 characters)" },
        267 => BlockRange { low: 0x1B170, high: 0x1B2FF, name: "Nushu", code_points: 400, assigned: 396, scripts: "Nüshu" },
        268 => BlockRange { low: 0x1BC00, high: 0x1BC9F, name: "Duployan", code_points: 160, assigned: 143, scripts: "Duployan" },
        269 => BlockRange { low: 0x1BCA0, high: 0x1BCAF, name: "Shorthand Format Controls", code_points: 16, assigned: 4, scripts: "Common" },
        270 => BlockRange { low: 0x1CF00, high: 0x1CFCF, name: "Znamenny Musical Notation", code_points: 208, assigned: 185, scripts: "Common (116 characters), Inherited (69 characters)" },
        271 => BlockRange { low: 0x1D000, high: 0x1D0FF, name: "Byzantine Musical Symbols", code_points: 256, assigned: 246, scripts: "Common" },
        272 => BlockRange { low: 0x1D100, high: 0x1D1FF, name: "Musical Symbols", code_points: 256, assigned: 233, scripts: "Common (211 characters), Inherited (22 characters)" },
        273 => BlockRange { low: 0x1D200, high: 0x1D24F, name: "Ancient Greek Musical Notation", code_points: 80, assigned: 70, scripts: "Greek" },
        274 => BlockRange { low: 0x1D2E0, high: 0x1D2FF, name: "Mayan Numerals", code_points: 32, assigned: 20, scripts: "Common" },
        275 => BlockRange { low: 0x1D300, high: 0x1D35F, name: "Tai Xuan Jing Symbols", code_points: 96, assigned: 87, scripts: "Common" },
        276 => BlockRange { low: 0x1D360, high: 0x1D37F, name: "Counting Rod Numerals", code_points: 32, assigned: 25, scripts: "Common" },
        277 => BlockRange { low: 0x1D400, high: 0x1D7FF, name: "Mathematical Alphanumeric Symbols", code_points: 1024, assigned: 996, scripts: "Common" },
        278 => BlockRange { low: 0x1D800, high: 0x1DAAF, name: "Sutton SignWriting", code_points: 688, assigned: 672, scripts: "SignWriting" },
        279 => BlockRange { low: 0x1DF00, high: 0x1DFFF, name: "Latin Extended-G", code_points: 256, assigned: 31, scripts: "Latin" },
        280 => BlockRange { low: 0x1E000, high: 0x1E02F, name: "Glagolitic Supplement", code_points: 48, assigned: 38, scripts: "Glagolitic" },
        281 => BlockRange { low: 0x1E100, high: 0x1E14F, name: "Nyiakeng Puachue Hmong", code_points: 80, assigned: 71, scripts: "Nyiakeng Puachue Hmong" },
        282 => BlockRange { low: 0x1E290, high: 0x1E2BF, name: "Toto", code_points: 48, assigned: 31, scripts: "Toto" },
        283 => BlockRange { low: 0x1E2C0, high: 0x1E2FF, name: "Wancho", code_points: 64, assigned: 59, scripts: "Wancho" },
        284 => BlockRange { low: 0x1E7E0, high: 0x1E7FF, name: "Ethiopic Extended-B", code_points: 32, assigned: 28, scripts: "Ethiopic" },
        285 => BlockRange { low: 0x1E800, high: 0x1E8DF, name: "Mende Kikakui", code_points: 224, assigned: 213, scripts: "Mende Kikakui" },
        286 => BlockRange { low: 0x1E900, high: 0x1E95F, name: "Adlam", code_points: 96, assigned: 88, scripts: "Adlam" },
        287 => BlockRange { low: 0x1EC70, high: 0x1ECBF, name: "Indic Siyaq Numbers", code_points: 80, assigned: 68, scripts: "Common" },
        288 => BlockRange { low: 0x1ED00, high: 0x1ED4F, name: "Ottoman Siyaq Numbers", code_points: 80, assigned: 61, scripts: "Common" },
        289 => BlockRange { low: 0x1EE00, high: 0x1EEFF, name: "Arabic Mathematical Alphabetic Symbols", code_points: 256, assigned: 143, scripts: "Arabic" },
        290 => BlockRange { low: 0x1F000, high: 0x1F02F, name: "Mahjong Tiles", code_points: 48, assigned: 44, scripts: "Common" },
        291 => BlockRange { low: 0x1F030, high: 0x1F09F, name: "Domino Tiles", code_points: 112, assigned: 100, scripts: "Common" },
        292 => BlockRange { low: 0x1F0A0, high: 0x1F0FF, name: "Playing Cards", code_points: 96, assigned: 82, scripts: "Common" },
        293 => BlockRange { low: 0x1F100, high: 0x1F1FF, name: "Enclosed Alphanumeric Supplement", code_points: 256, assigned: 200, scripts: "Common" },
        294 => BlockRange { low: 0x1F200, high: 0x1F2FF, name: "Enclosed Ideographic Supplement", code_points: 256, assigned: 64, scripts: "Hiragana (1 character), Common (63 characters)" },
        295 => BlockRange { low: 0x1F300, high: 0x1F5FF, name: "Miscellaneous Symbols and Pictographs", code_points: 768, assigned: 768, scripts: "Common" },
        296 => BlockRange { low: 0x1F600, high: 0x1F64F, name: "Emoticons", code_points: 80, assigned: 80, scripts: "Common" },
        297 => BlockRange { low: 0x1F650, high: 0x1F67F, name: "Ornamental Dingbats", code_points: 48, assigned: 48, scripts: "Common" },
        298 => BlockRange { low: 0x1F680, high: 0x1F6FF, name: "Transport and Map Symbols", code_points: 128, assigned: 117, scripts: "Common" },
        299 => BlockRange { low: 0x1F700, high: 0x1F77F, name: "Alchemical Symbols", code_points: 128, assigned: 116, scripts: "Common" },
        300 => BlockRange { low: 0x1F780, high: 0x1F7FF, name: "Geometric Shapes Extended", code_points: 128, assigned: 102, scripts: "Common" },
        301 => BlockRange { low: 0x1F800, high: 0x1F8FF, name: "Supplemental Arrows-C", code_points: 256, assigned: 150, scripts: "Common" },
        302 => BlockRange { low: 0x1F900, high: 0x1F9FF, name: "Supplemental Symbols and Pictographs", code_points: 256, assigned: 256, scripts: "Common" },
        303 => BlockRange { low: 0x1FA00, high: 0x1FA6F, name: "Chess Symbols", code_points: 112, assigned: 98, scripts: "Common" },
        304 => BlockRange { low: 0x1FA70, high: 0x1FAFF, name: "Symbols and Pictographs Extended-A", code_points: 144, assigned: 88, scripts: "Common" },
        305 => BlockRange { low: 0x1FB00, high: 0x1FBFF, name: "Symbols for Legacy Computing", code_points: 256, assigned: 212, scripts: "Common" },
        306 => BlockRange { low: 0x20000, high: 0x2A6DF, name: "CJK Unified Ideographs Extension B", code_points: 42720, assigned: 42720, scripts: "Han" },
        307 => BlockRange { low: 0x2A700, high: 0x2B73F, name: "CJK Unified Ideographs Extension C", code_points: 4160, assigned: 4153, scripts: "Han" },
        308 => BlockRange { low: 0x2B740, high: 0x2B81F, name: "CJK Unified Ideographs Extension D", code_points: 224, assigned: 222, scripts: "Han" },
        309 => BlockRange { low: 0x2B820, high: 0x2CEAF, name: "CJK Unified Ideographs Extension E", code_points: 5776, assigned: 5762, scripts: "Han" },
        310 => BlockRange { low: 0x2CEB0, high: 0x2EBEF, name: "CJK Unified Ideographs Extension F", code_points: 7488, assigned: 7473, scripts: "Han" },
        311 => BlockRange { low: 0x2F800, high: 0x2FA1F, name: "CJK Compatibility Ideographs Supplement", code_points: 544, assigned: 542, scripts: "Han" },
        312 => BlockRange { low: 0x30000, high: 0x3134F, name: "CJK Unified Ideographs Extension G", code_points: 4944, assigned: 4939, scripts: "Han" },
        313 => BlockRange { low: 0xE0000, high: 0xE007F, name: "Tags", code_points: 128, assigned: 97, scripts: "Common" },
        314 => BlockRange { low: 0xE0100, high: 0xE01EF, name: "Variation Selectors Supplement", code_points: 240, assigned: 240, scripts: "Inherited" },
        315 => BlockRange { low: 0xF0000, high: 0xFFFFF, name: "Supplementary Private Use Area-A", code_points: 65536, assigned: 65534, scripts: "Unknown" },
        _ => BlockRange { low: 0x100000, high: 0x10FFFF, name: "Supplementary Private Use Area-B", code_points: 65536, assigned: 65534, scripts: "Unknown" },
    }
}

/// Row `i` of the built-in table.
pub fn entry(i: usize) -> (r: BlockRange)
    requires
        i < BLOCK_COUNT,
    ensures
        r == block_at(i as int),
{
    if i < 64 {
        entry_seg0(i)
    } else if i < 128 {
        entry_seg1(i)
    } else if i < 192 {
        entry_seg2(i)
    } else if i < 256 {
        entry_seg3(i)
    } else {
        entry_seg4(i)
    }
}

/// The whole built-in table as a vector, row by row.
pub fn block_table() -> (v: Vec<BlockRange>)
    ensures
        v@ == table(),
{
    let mut v: Vec<BlockRange> = Vec::new();
    let mut i: usize = 0;
    while i < BLOCK_COUNT
        invariant
            i <= BLOCK_COUNT,
            v@.len() == i as int,
            forall|j: int| 0 <= j < i as int ==> v@[j] == block_at(j),
        decreases BLOCK_COUNT - i,
    {
        v.push(entry(i));
        i = i + 1;
    }
    proof {
        assert(v@ =~= table());
    }
    v
}

/// The built-in table is well formed: every range has ordered bounds, and
/// the ranges are sorted ascending and pairwise disjoint.
#[verifier::rlimit(100)]
pub proof fn lemma_table_wf()
    ensures
        wf_ranges(table()),
{
    assert forall|i: int| 0 <= i < table().len() implies (#[trigger] table()[i]).low
        <= table()[i].high by {
        assert(block_at(i).low <= block_at(i).high);
    }
    assert forall|i: int, j: int| 0 <= i && i + 1 == j && j < table().len() implies (
    #[trigger] table()[i]).high < (#[trigger] table()[j]).low by {
        assert(block_at(i).high < block_at(i + 1).low);
    }
    lemma_adjacent_disjoint_implies_wf(table());
}

} // verus!
