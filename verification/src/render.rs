//! Filling the grid from membership results.
//!
//! A point that stays inside the set is drawn as background, so the grid
//! receives the negation of each result: a pixel is lit exactly when its
//! point escaped.

use crate::bits2d::{
    lemma_get_after_set, lemma_grid_is_its_pixels, lemma_index_in_area, Bits2d, GridView,
};
use vstd::prelude::*;

verus! {

impl GridView {
    /// The grid after row `y` was painted with `inside`: the bits of the
    /// row are the negated results, the other bits are as before.
    pub open spec fn painted_row(self, y: int, inside: Seq<bool>) -> GridView {
        GridView {
            bits: Seq::new(
                self.bits.len(),
                |i: int|
                    if y * self.width <= i < y * self.width + self.width {
                        !inside[i - y * self.width]
                    } else {
                        self.bits[i]
                    },
            ),
            ..self
        }
    }

    /// The grid after every row was painted: the bit at index `i` is the
    /// negated result of column `i % width` in row `i / width`.
    pub open spec fn painted(self, inside: Seq<Seq<bool>>) -> GridView {
        GridView {
            bits: Seq::new(
                self.bits.len(),
                |i: int| !inside[i / (self.width as int)][i % (self.width as int)],
            ),
            ..self
        }
    }
}

/// The results of a frame, row by row, as plain sequences.
pub open spec fn rows_of(inside: Seq<Vec<bool>>) -> Seq<Seq<bool>> {
    Seq::new(inside.len(), |y: int| inside[y]@)
}

/// What a painted row shows: in the row the negated results, everywhere
/// else what the grid showed before.
pub proof fn lemma_painted_row_pixels(g: GridView, y: int, inside: Seq<bool>, x2: int, y2: int)
    requires
        g.wf(),
        0 <= y < g.height,
        inside.len() == g.width,
    ensures
        g.painted_row(y, inside).wf(),
        g.painted_row(y, inside).width == g.width,
        g.painted_row(y, inside).height == g.height,
        g.painted_row(y, inside).get(x2, y2) == (if y2 == y && 0 <= x2 < g.width {
            Some(!inside[x2])
        } else {
            g.get(x2, y2)
        }),
{
    if g.in_bounds(x2, y2) {
        lemma_index_in_area(g.width, g.height, x2, y2);
        let w = g.width as int;
        if y2 < y {
            assert((y2 + 1) * w <= y * w) by (nonlinear_arith)
                requires
                    y2 + 1 <= y,
                    0 <= w,
            ;
            assert((y2 + 1) * w == y2 * w + w) by (nonlinear_arith);
        } else if y2 > y {
            assert((y + 1) * w <= y2 * w) by (nonlinear_arith)
                requires
                    y + 1 <= y2,
                    0 <= w,
            ;
            assert((y + 1) * w == y * w + w) by (nonlinear_arith);
        }
    }
}

/// What a painted grid shows: at every pixel the negated result of its
/// column and row.
pub proof fn lemma_painted_pixels(g: GridView, inside: Seq<Seq<bool>>, x: int, y: int)
    requires
        g.wf(),
        g.in_bounds(x, y),
    ensures
        g.painted(inside).wf(),
        g.painted(inside).width == g.width,
        g.painted(inside).height == g.height,
        g.painted(inside).get(x, y) == Some(!inside[y][x]),
{
    lemma_index_in_area(g.width, g.height, x, y);
    vstd::arithmetic::div_mod::lemma_fundamental_div_mod_converse(
        y * g.width + x,
        g.width as int,
        y,
        x,
    );
}

impl Bits2d {
    /// Writes one row of results: the pixel in column `x` of row `y` is lit
    /// exactly when `inside[x]` is false. The other rows are left as they
    /// are.
    pub fn paint_row(&mut self, y: usize, inside: &Vec<bool>)
        requires
            old(self).wf(),
            y < old(self)@.height,
            inside@.len() == old(self)@.width,
        ensures
            final(self).wf(),
            final(self)@ == old(self)@.painted_row(y as int, inside@),
            forall|x: int|
                0 <= x < old(self)@.width ==> #[trigger] final(self)@.get(x, y as int) == Some(
                    !inside@[x],
                ),
            forall|x2: int, y2: int|
                y2 != y ==> #[trigger] final(self)@.get(x2, y2) == old(self)@.get(x2, y2),
    {
        let ghost before = self@;
        let width: usize = self.width();
        let mut x: usize = 0;
        while x < width
            invariant
                self.wf(),
                self@.width == before.width,
                self@.height == before.height,
                width == before.width,
                y < before.height,
                inside@.len() == before.width,
                x <= width,
                forall|x1: int|
                    0 <= x1 < x ==> #[trigger] self@.get(x1, y as int) == Some(!inside@[x1]),
                forall|x2: int, y2: int|
                    y2 != y ==> #[trigger] self@.get(x2, y2) == before.get(x2, y2),
            decreases width - x,
        {
            let ghost previous = self@;
            let b: bool = !inside[x];
            self.set(x, y, b);
            proof {
                assert forall|x1: int| 0 <= x1 < x + 1 implies #[trigger] self@.get(x1, y as int)
                    == Some(!inside@[x1]) by {
                    lemma_get_after_set(previous, x as int, y as int, b, x1, y as int);
                }
                assert forall|x2: int, y2: int| y2 != y implies #[trigger] self@.get(x2, y2)
                    == before.get(x2, y2) by {
                    lemma_get_after_set(previous, x as int, y as int, b, x2, y2);
                }
            }
            x = x + 1;
        }
        proof {
            let painted = before.painted_row(y as int, inside@);
            lemma_painted_row_pixels(before, y as int, inside@, 0, 0);
            assert forall|x2: int, y2: int| self@.in_bounds(x2, y2) implies #[trigger] self@.get(
                x2,
                y2,
            ) == painted.get(x2, y2) by {
                lemma_painted_row_pixels(before, y as int, inside@, x2, y2);
            }
            lemma_grid_is_its_pixels(self@, painted);
        }
    }

    /// Writes the results of a whole frame: the pixel in column `x` of row
    /// `y` is lit exactly when `inside[y][x]` is false. Nothing of what the
    /// grid showed before is left.
    pub fn paint(&mut self, inside: &Vec<Vec<bool>>)
        requires
            old(self).wf(),
            inside@.len() == old(self)@.height,
            forall|y: int| 0 <= y < inside@.len() ==> (#[trigger] inside@[y])@.len() == old(self)@.width,
        ensures
            final(self).wf(),
            final(self)@ == old(self)@.painted(rows_of(inside@)),
            forall|x: int, y: int|
                old(self)@.in_bounds(x, y) ==> #[trigger] final(self)@.get(x, y) == Some(
                    !inside@[y]@[x],
                ),
    {
        let ghost before = self@;
        let height: usize = self.height();
        let mut y: usize = 0;
        while y < height
            invariant
                self.wf(),
                self@.width == before.width,
                self@.height == before.height,
                height == before.height,
                inside@.len() == before.height,
                forall|y1: int|
                    0 <= y1 < inside@.len() ==> (#[trigger] inside@[y1])@.len() == before.width,
                y <= height,
                forall|x: int, y1: int|
                    0 <= x < before.width && 0 <= y1 < y ==> #[trigger] self@.get(x, y1) == Some(
                        !inside@[y1]@[x],
                    ),
            decreases height - y,
        {
            let ghost previous = self@;
            self.paint_row(y, &inside[y]);
            proof {
                assert forall|x: int, y1: int| 0 <= x < before.width && 0 <= y1 < y + 1 implies #[trigger] self@.get(
                    x,
                    y1,
                ) == Some(!inside@[y1]@[x]) by {
                    if y1 < y {
                        assert(self@.get(x, y1) == previous.get(x, y1));
                    } else {
                        assert(self@.get(x, y as int) == Some(!inside@[y as int]@[x]));
                    }
                }
            }
            y = y + 1;
        }
        proof {
            let painted = before.painted(rows_of(inside@));
            assert(painted.width == before.width && painted.height == before.height);
            assert(painted.wf());
            assert forall|x: int, y1: int| self@.in_bounds(x, y1) implies #[trigger] self@.get(
                x,
                y1,
            ) == painted.get(x, y1) by {
                lemma_painted_pixels(before, rows_of(inside@), x, y1);
            }
            lemma_grid_is_its_pixels(self@, painted);
        }
    }
}

} // verus!
