use sextant_fractal::sextant::{sextant_from_bits, sextant_size};
use std::collections::HashSet;

fn glyph_of_pattern(pattern: u32) -> char {
    sextant_from_bits(
        pattern & 1 != 0,
        pattern & 2 != 0,
        pattern & 4 != 0,
        pattern & 8 != 0,
        pattern & 16 != 0,
        pattern & 32 != 0,
    )
}

#[test]
fn empty_block_is_a_space() {
    assert_eq!(sextant_from_bits(false, false, false, false, false, false), ' ');
}

#[test]
fn full_block_is_the_full_block_element() {
    assert_eq!(sextant_from_bits(true, true, true, true, true, true), '\u{2588}');
}

#[test]
fn left_column_is_the_left_half_block() {
    assert_eq!(sextant_from_bits(true, false, true, false, true, false), '\u{258C}');
    assert_eq!(glyph_of_pattern(0b010101), '\u{258C}');
}

#[test]
fn right_column_is_the_right_half_block() {
    assert_eq!(sextant_from_bits(false, true, false, true, false, true), '\u{2590}');
    assert_eq!(glyph_of_pattern(0b101010), '\u{2590}');
}

#[test]
fn patterns_below_the_left_half_block_sit_at_their_number() {
    for pattern in 1u32..0b010101 {
        let expected = char::from_u32(0x1FB00 - 1 + pattern).unwrap();
        assert_eq!(glyph_of_pattern(pattern), expected);
    }
    assert_eq!(glyph_of_pattern(1), '\u{1FB00}');
    assert_eq!(glyph_of_pattern(0b010100), '\u{1FB13}');
}

#[test]
fn patterns_between_the_half_blocks_sit_one_lower() {
    for pattern in 0b010110u32..0b101010 {
        let expected = char::from_u32(0x1FB00 - 2 + pattern).unwrap();
        assert_eq!(glyph_of_pattern(pattern), expected);
    }
    assert_eq!(glyph_of_pattern(0b010110), '\u{1FB14}');
    assert_eq!(glyph_of_pattern(0b101001), '\u{1FB27}');
}

#[test]
fn patterns_above_the_right_half_block_sit_two_lower() {
    for pattern in 0b101011u32..0b111111 {
        let expected = char::from_u32(0x1FB00 - 3 + pattern).unwrap();
        assert_eq!(glyph_of_pattern(pattern), expected);
    }
    assert_eq!(glyph_of_pattern(0b101011), '\u{1FB28}');
    assert_eq!(glyph_of_pattern(0b111110), '\u{1FB3B}');
}

#[test]
fn all_sixty_four_blocks_have_their_own_glyph() {
    let mut seen = HashSet::new();
    for pattern in 0u32..64 {
        assert!(seen.insert(glyph_of_pattern(pattern)));
    }
    assert_eq!(seen.len(), 64);
}

#[test]
fn sextant_glyphs_fill_the_sextant_range() {
    let mut in_range = 0;
    for pattern in 0u32..64 {
        let code = glyph_of_pattern(pattern) as u32;
        if (0x1FB00..=0x1FB3B).contains(&code) {
            in_range += 1;
        }
    }
    assert_eq!(in_range, 60);
}

#[test]
fn sextant_size_doubles_columns_and_triples_rows() {
    assert_eq!(sextant_size((80, 24)), (160, 72));
    assert_eq!(sextant_size((0, 0)), (0, 0));
    assert_eq!(sextant_size((1, 1)), (2, 3));
    assert_eq!(sextant_size((u16::MAX, u16::MAX)), (131070, 196605));
}
