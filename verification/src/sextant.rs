//! Folding a block of two by three pixels into one display character.
//!
//! A terminal cell is split into six sub-cells, two across and three down.
//! The six pixels of a block are packed into a pattern number, and every
//! pattern is drawn by its own character: a space, one of the three classic
//! block elements, or one of the sixty characters of the Unicode sextant
//! range that starts at U+1FB00.

use vstd::prelude::*;

verus! {

/// Pattern with the three pixels of the left column lit, which the left
/// half block, U+258C, draws.
pub const PATTERN_LEFT_HALF: u32 = 0b010101;

/// Pattern with the three pixels of the right column lit, which the right
/// half block, U+2590, draws.
pub const PATTERN_RIGHT_HALF: u32 = 0b101010;

/// Pattern that the full block, U+2588, draws: all six pixels lit.
pub const PATTERN_FULL: u32 = 0b111111;

/// Code point of the first character of the sextant range.
pub const SEXTANT_BASE: u32 = 0x1FB00;

/// The six pixels of a block as a number below 64: the top left pixel is
/// bit 0, then top right, middle left, middle right, bottom left, and the
/// bottom right pixel is bit 5.
pub open spec fn sextant_pattern(
    top_left: bool,
    top_right: bool,
    middle_left: bool,
    middle_right: bool,
    bottom_left: bool,
    bottom_right: bool,
) -> nat {
    (if top_left { 1nat } else { 0nat })
        + (if top_right { 2nat } else { 0nat })
        + (if middle_left { 4nat } else { 0nat })
        + (if middle_right { 8nat } else { 0nat })
        + (if bottom_left { 16nat } else { 0nat })
        + (if bottom_right { 32nat } else { 0nat })
}

/// Code point of the character that draws `pattern`.
///
/// Pattern 0 is a space, pattern `0b010101` (the left column) the left
/// half block, pattern `0b101010` (the right column) the right half block
/// and pattern `0b111111` the full block. The sextant range has no place
/// for these four, so it is dense in the remaining sixty: pattern 1 is its
/// first character, a pattern above `0b010101` sits one place lower than
/// its number, and a pattern above `0b101010` two places lower.
pub open spec fn sextant_code(pattern: nat) -> nat {
    if pattern == 0 {
        0x20
    } else if pattern == 0b010101 {
        0x258C
    } else if pattern == 0b101010 {
        0x2590
    } else if pattern == 0b111111 {
        0x2588
    } else if pattern < 0b010101 {
        (0x1FB00 - 1 + pattern) as nat
    } else if pattern < 0b101010 {
        (0x1FB00 - 2 + pattern) as nat
    } else {
        (0x1FB00 - 3 + pattern) as nat
    }
}

/// The character that draws `pattern`.
pub open spec fn sextant_glyph(pattern: nat) -> char {
    sextant_code(pattern) as char
}

/// Whether `code` is a Unicode scalar value.
pub open spec fn is_scalar_value(code: u32) -> bool {
    code <= 0xD7FF || (0xE000 <= code && code <= 0x10FFFF)
}

/// `char::from_u32` of the standard library: the character with the code
/// point `code` when `code` is a Unicode scalar value, and `None` for a
/// surrogate or a number above U+10FFFF.
#[verifier::external_body]
fn char_from_code(code: u32) -> (c: Option<char>)
    ensures
        c == (if is_scalar_value(code) {
            Some(code as char)
        } else {
            None::<char>
        }),
{
    char::from_u32(code)
}

/// The character that draws a block of six pixels.
pub fn sextant_from_bits(
    top_left: bool,
    top_right: bool,
    middle_left: bool,
    middle_right: bool,
    bottom_left: bool,
    bottom_right: bool,
) -> (glyph: char)
    ensures
        glyph == sextant_glyph(
            sextant_pattern(
                top_left,
                top_right,
                middle_left,
                middle_right,
                bottom_left,
                bottom_right,
            ),
        ),
{
    let mut pattern: u32 = 0;
    if top_left {
        pattern = pattern + 1;
    }
    if top_right {
        pattern = pattern + 2;
    }
    if middle_left {
        pattern = pattern + 4;
    }
    if middle_right {
        pattern = pattern + 8;
    }
    if bottom_left {
        pattern = pattern + 16;
    }
    if bottom_right {
        pattern = pattern + 32;
    }
    if pattern == 0 {
        return ' ';
    }
    if pattern == PATTERN_LEFT_HALF {
        return '\u{258C}';
    }
    if pattern == PATTERN_RIGHT_HALF {
        return '\u{2590}';
    }
    if pattern == PATTERN_FULL {
        return '\u{2588}';
    }
    let skipped: u32 = if pattern < PATTERN_LEFT_HALF {
        0
    } else if pattern < PATTERN_RIGHT_HALF {
        1
    } else {
        2
    };
    let code: u32 = SEXTANT_BASE - 1 + pattern - skipped;
    char_from_code(code).unwrap()
}

/// Size of the pixel grid that a terminal of `term_size` (columns, rows)
/// displays: every cell shows two pixels across and three pixels down.
pub fn sextant_size(term_size: (u16, u16)) -> (bit_size: (usize, usize))
    ensures
        bit_size.0 == 2 * term_size.0,
        bit_size.1 == 3 * term_size.1,
{
    (term_size.0 as usize * 2, term_size.1 as usize * 3)
}

/// Two blocks with the same pattern are the same block.
pub proof fn lemma_pattern_injective(a: (bool, bool, bool, bool, bool, bool), b: (
    bool,
    bool,
    bool,
    bool,
    bool,
    bool,
))
    requires
        sextant_pattern(a.0, a.1, a.2, a.3, a.4, a.5) == sextant_pattern(
            b.0,
            b.1,
            b.2,
            b.3,
            b.4,
            b.5,
        ),
    ensures
        a == b,
{
}

/// Every pattern below 64 has a glyph whose code point is a Unicode scalar
/// value, and the glyph is that code point read as a character.
pub proof fn lemma_glyph_code(pattern: nat)
    requires
        pattern < 64,
    ensures
        sextant_code(pattern) <= 0x1FB3B,
        is_scalar_value(sextant_code(pattern) as u32),
        sextant_glyph(pattern) as nat == sextant_code(pattern),
{
}

/// Different patterns below 64 are drawn by different characters.
pub proof fn lemma_glyphs_distinct(p: nat, q: nat)
    requires
        p < 64,
        q < 64,
        p != q,
    ensures
        sextant_glyph(p) != sextant_glyph(q),
{
    lemma_glyph_code(p);
    lemma_glyph_code(q);
}

/// Different blocks of six pixels are drawn by different characters.
pub proof fn lemma_blocks_distinct(a: (bool, bool, bool, bool, bool, bool), b: (
    bool,
    bool,
    bool,
    bool,
    bool,
    bool,
))
    requires
        a != b,
    ensures
        sextant_glyph(sextant_pattern(a.0, a.1, a.2, a.3, a.4, a.5)) != sextant_glyph(
            sextant_pattern(b.0, b.1, b.2, b.3, b.4, b.5),
        ),
{
    let p = sextant_pattern(a.0, a.1, a.2, a.3, a.4, a.5);
    let q = sextant_pattern(b.0, b.1, b.2, b.3, b.4, b.5);
    if p == q {
        lemma_pattern_injective(a, b);
    }
    lemma_glyphs_distinct(p, q);
}

} // verus!
