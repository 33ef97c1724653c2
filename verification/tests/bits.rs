//! Fields of a word: cutting, placing, reading and writing.

use prussia::bits::{extract, insert, mask, place};

#[test]
fn mask_keeps_the_lowest_bits() {
    assert_eq!(mask(0xFFFF, 4), 0xF);
    assert_eq!(mask(0x1234_5678_9ABC_DEF0, 16), 0xDEF0);
    assert_eq!(mask(0x1FF, 8), 0xFF);
    assert_eq!(mask(5, 1), 1);
    assert_eq!(mask(4, 1), 0);
}

#[test]
fn mask_of_width_zero_is_zero() {
    assert_eq!(mask(u64::MAX, 0), 0);
}

#[test]
fn mask_of_the_whole_width_keeps_everything() {
    assert_eq!(mask(0x1234_5678_9ABC_DEF0, 64), 0x1234_5678_9ABC_DEF0);
    assert_eq!(mask(u64::MAX, 63), 0x7FFF_FFFF_FFFF_FFFF);
    assert_eq!(mask(u64::MAX, 1000), u64::MAX);
}

#[test]
fn masking_twice_is_masking_once() {
    let values = [0u64, 1, 0xFF, 0x100, 0xDEAD_BEEF, 0x8000_0000_0000_0000, u64::MAX];
    for v in values {
        for width in 0..70u64 {
            assert_eq!(mask(mask(v, width), width), mask(v, width));
        }
    }
}

#[test]
fn place_moves_the_cut_value_to_its_offset() {
    assert_eq!(place(0xFFFF, 8, 4), 0xF00);
    assert_eq!(place(1, 63, 1), 0x8000_0000_0000_0000);
    assert_eq!(place(0xAB, 56, 8), 0xAB00_0000_0000_0000);
    assert_eq!(place(0x1FF, 0, 8), 0xFF);
}

#[test]
fn place_loses_what_goes_past_the_top() {
    assert_eq!(place(0xFF, 60, 8), 0xF000_0000_0000_0000);
    assert_eq!(place(0xFF, 64, 8), 0);
    assert_eq!(place(0xFF, 200, 8), 0);
}

#[test]
fn extract_reads_a_field() {
    assert_eq!(extract(0x1234_5678_9ABC_DEF0, 4, 8), 0xEF);
    assert_eq!(extract(0x1234_5678_9ABC_DEF0, 0, 64), 0x1234_5678_9ABC_DEF0);
    assert_eq!(extract(0x1234_5678_9ABC_DEF0, 60, 4), 0x1);
    assert_eq!(extract(0x8000_0000_0000_0000, 63, 1), 1);
}

#[test]
fn extract_past_the_top_reads_zero() {
    assert_eq!(extract(u64::MAX, 64, 8), 0);
    assert_eq!(extract(u64::MAX, 60, 8), 0xF);
}

#[test]
fn insert_replaces_one_field() {
    assert_eq!(insert(0xFFFF_FFFF_FFFF_FFFF, 0, 8, 8), 0xFFFF_FFFF_FFFF_00FF);
    assert_eq!(insert(0, 0xAB, 8, 8), 0xAB00);
    assert_eq!(insert(0x1111_1111_1111_1111, 0xF, 60, 4), 0xF111_1111_1111_1111);
}

#[test]
fn insert_cuts_the_value_to_the_field() {
    assert_eq!(insert(0, 0x1FF, 8, 8), 0xFF00);
    assert_eq!(insert(0x0001_0000, 0xFFFF_FFFF, 8, 8), 0x0001_FF00);
}

#[test]
fn insert_past_the_top_changes_nothing() {
    assert_eq!(insert(0x1234, 0xFF, 64, 8), 0x1234);
}

#[test]
fn a_written_field_reads_back_cut_to_its_width() {
    let words = [0u64, u64::MAX, 0x1234_5678_9ABC_DEF0];
    let values = [0u64, 1, 0x7F, 0x80, 0xFFFF, u64::MAX];
    for word in words {
        for v in values {
            for (offset, width) in [(0u64, 1u64), (3, 7), (15, 1), (32, 32), (47, 11), (60, 4)] {
                let written = insert(word, v, offset, width);
                assert_eq!(extract(written, offset, width), mask(v, width));
            }
        }
    }
}

#[test]
fn writing_a_field_keeps_the_fields_beside_it() {
    let word = 0x1234_5678_9ABC_DEF0;
    let written = insert(word, u64::MAX, 16, 16);
    assert_eq!(extract(written, 0, 16), extract(word, 0, 16));
    assert_eq!(extract(written, 32, 32), extract(word, 32, 32));
    assert_eq!(written, 0x1234_5678_FFFF_DEF0);
}

#[test]
fn writing_back_what_a_field_holds_changes_nothing() {
    let word = 0x1234_5678_9ABC_DEF0;
    assert_eq!(insert(word, extract(word, 20, 9), 20, 9), word);
}
