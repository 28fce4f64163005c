//! The drawing surface of a terminal session: a pixel grid sized to the
//! terminal, the characters that display it, and whatever the session
//! remembers between events.

use crate::bits2d::{Bits2d, GridView};
use crate::sextant::{sextant_from_bits, sextant_glyph, sextant_pattern, sextant_size};
use vstd::prelude::*;

verus! {

/// Whether the pixel in column `x` of row `y` is lit; a position outside
/// the grid counts as unlit.
pub open spec fn lit(g: GridView, x: int, y: int) -> bool {
    g.get(x, y) == Some(true)
}

/// The character shown in the terminal cell at `column` and `row`: the glyph
/// of the block of pixels whose top left corner is in column `2 * column` of
/// row `3 * row`.
pub open spec fn cell_glyph(g: GridView, column: int, row: int) -> char {
    sextant_glyph(
        sextant_pattern(
            lit(g, 2 * column, 3 * row),
            lit(g, 2 * column + 1, 3 * row),
            lit(g, 2 * column, 3 * row + 1),
            lit(g, 2 * column + 1, 3 * row + 1),
            lit(g, 2 * column, 3 * row + 2),
            lit(g, 2 * column + 1, 3 * row + 2),
        ),
    )
}

/// A pixel grid together with the size of the terminal that shows it and
/// the memory of the session.
pub struct Handler<T> {
    pub bits: Bits2d,
    pub term_width: u16,
    pub term_height: u16,
    pub memory: T,
}

impl<T> Handler<T> {
    /// The grid holds two columns of pixels for each terminal column and
    /// three rows of pixels for each terminal row.
    pub open spec fn wf(&self) -> bool {
        &&& self.bits.wf()
        &&& self.bits@.width == 2 * self.term_width
        &&& self.bits@.height == 3 * self.term_height
    }

    /// The surface of a terminal of `term_width` columns and `term_height`
    /// rows, with no pixel lit. The number of pixels has to fit in `usize`,
    /// which it always does where `usize` has 64 bits.
    pub fn new(term_width: u16, term_height: u16, memory: T) -> (handler: Self)
        requires
            (2 * term_width) * (3 * term_height) <= usize::MAX,
        ensures
            handler.wf(),
            handler.term_width == term_width,
            handler.term_height == term_height,
            handler.bits@ == GridView::blank(2 * term_width as nat, 3 * term_height as nat),
            handler.memory == memory,
    {
        let (sextant_width, sextant_height) = sextant_size((term_width, term_height));
        Handler { bits: Bits2d::new(sextant_width, sextant_height), term_width, term_height, memory }
    }

    /// Follows a change of the terminal's size: the grid takes the
    /// dimensions that the new size asks for, and bits that it gains are
    /// unlit.
    pub fn resize(&mut self, new_term_width: u16, new_term_height: u16)
        requires
            old(self).bits.wf(),
            (2 * new_term_width) * (3 * new_term_height) <= usize::MAX,
        ensures
            final(self).wf(),
            final(self).term_width == new_term_width,
            final(self).term_height == new_term_height,
            final(self).bits@ == old(self).bits@.resized(
                2 * new_term_width as nat,
                3 * new_term_height as nat,
                false,
            ),
            final(self).memory == old(self).memory,
    {
        let (new_bit_width, new_bit_height) = sextant_size((new_term_width, new_term_height));
        self.term_width = new_term_width;
        self.term_height = new_term_height;
        self.bits.resize(new_bit_width, new_bit_height, false);
    }

    /// The character that the terminal cell at `column` and `row` shows.
    pub fn glyph_at(&self, column: u16, row: u16) -> (glyph: char)
        requires
            self.wf(),
            column < self.term_width,
            row < self.term_height,
        ensures
            glyph == cell_glyph(self.bits@, column as int, row as int),
    {
        let anchor_bit_x: usize = column as usize * 2;
        let anchor_bit_y: usize = row as usize * 3;
        let top_left = self.get_bit(anchor_bit_x, anchor_bit_y).unwrap();
        let top_right = self.get_bit(anchor_bit_x + 1, anchor_bit_y).unwrap();
        let middle_left = self.get_bit(anchor_bit_x, anchor_bit_y + 1).unwrap();
        let middle_right = self.get_bit(anchor_bit_x + 1, anchor_bit_y + 1).unwrap();
        let bottom_left = self.get_bit(anchor_bit_x, anchor_bit_y + 2).unwrap();
        let bottom_right = self.get_bit(anchor_bit_x + 1, anchor_bit_y + 2).unwrap();
        sextant_from_bits(
            top_left,
            top_right,
            middle_left,
            middle_right,
            bottom_left,
            bottom_right,
        )
    }

    /// The characters that display the grid: one line for each terminal
    /// row, from the top, and in each line one character for each terminal
    /// column, from the left.
    pub fn render_bits(&self) -> (lines: Vec<Vec<char>>)
        requires
            self.wf(),
        ensures
            lines@.len() == self.term_height,
            forall|row: int| 0 <= row < self.term_height ==> (#[trigger] lines@[row])@.len() == self.term_width,
            forall|row: int, column: int|
                0 <= row < self.term_height && 0 <= column < self.term_width ==> lines@[row]@[column]
                    == cell_glyph(self.bits@, column, row),
    {
        let mut lines: Vec<Vec<char>> = Vec::new();
        let mut row: u16 = 0;
        while row < self.term_height
            invariant
                self.wf(),
                row <= self.term_height,
                lines@.len() == row,
                forall|r: int| 0 <= r < row ==> (#[trigger] lines@[r])@.len() == self.term_width,
                forall|r: int, c: int|
                    0 <= r < row && 0 <= c < self.term_width ==> lines@[r]@[c] == cell_glyph(
                        self.bits@,
                        c,
                        r,
                    ),
            decreases self.term_height - row,
        {
            let mut line: Vec<char> = Vec::new();
            let mut column: u16 = 0;
            while column < self.term_width
                invariant
                    self.wf(),
                    row < self.term_height,
                    column <= self.term_width,
                    line@.len() == column,
                    forall|c: int|
                        0 <= c < column ==> line@[c] == cell_glyph(self.bits@, c, row as int),
                decreases self.term_width - column,
            {
                let glyph = self.glyph_at(column, row);
                line.push(glyph);
                column = column + 1;
            }
            lines.push(line);
            row = row + 1;
        }
        lines
    }

    /// The pixel in column `x` of row `y`, or `None` when the grid has no
    /// such pixel.
    pub fn get_bit(&self, x: usize, y: usize) -> (bit: Option<bool>)
        requires
            self.bits.wf(),
        ensures
            bit == self.bits@.get(x as int, y as int),
    {
        self.bits.get(x, y)
    }

    /// Writes `b` to the pixel in column `x` of row `y`.
    pub fn set_bit(&mut self, x: usize, y: usize, b: bool)
        requires
            old(self).bits.wf(),
            old(self).bits@.in_bounds(x as int, y as int),
        ensures
            final(self).bits.wf(),
            final(self).bits@ == old(self).bits@.set(x as int, y as int, b),
            final(self).term_width == old(self).term_width,
            final(self).term_height == old(self).term_height,
            final(self).memory == old(self).memory,
    {
        self.bits.set(x, y, b);
    }

    /// Turns every pixel off.
    pub fn set_bits_all_zero(&mut self)
        requires
            old(self).bits.wf(),
        ensures
            final(self).bits.wf(),
            final(self).bits@ == old(self).bits@.filled(false),
            final(self).term_width == old(self).term_width,
            final(self).term_height == old(self).term_height,
            final(self).memory == old(self).memory,
    {
        self.bits.set_all_zero();
    }

    /// Turns every pixel on.
    pub fn set_bits_all_one(&mut self)
        requires
            old(self).bits.wf(),
        ensures
            final(self).bits.wf(),
            final(self).bits@ == old(self).bits@.filled(true),
            final(self).term_width == old(self).term_width,
            final(self).term_height == old(self).term_height,
            final(self).memory == old(self).memory,
    {
        self.bits.set_all_one();
    }

    /// Number of pixel columns.
    pub fn bit_width(&self) -> (width: usize)
        ensures
            width == self.bits@.width,
    {
        self.bits.width()
    }

    /// Number of pixel rows.
    pub fn bit_height(&self) -> (height: usize)
        ensures
            height == self.bits@.height,
    {
        self.bits.height()
    }

    /// Number of pixels.
    pub fn bit_area(&self) -> (area: usize)
        ensures
            area == self.bits@.bits.len(),
            self.bits.wf() ==> area == self.bits@.width * self.bits@.height,
    {
        self.bits.area()
    }
}

} // verus!
