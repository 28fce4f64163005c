//! A bi-level pixel grid packed into a vector of bits.
//!
//! The pixel in column `x` of row `y` is the bit at index `y * width + x`.

use crate::bit_store::{
    bits_fill, bits_from_elem, bits_get, bits_grow, bits_len, bits_of, bits_set, bits_truncate,
};
use bit_vec::BitVec;
use vstd::prelude::*;

verus! {

/// What a grid is to its callers: its two dimensions and its bits, row
/// after row.
pub struct GridView {
    pub width: nat,
    pub height: nat,
    pub bits: Seq<bool>,
}

impl GridView {
    /// The grid holds exactly one bit for each pixel.
    pub open spec fn wf(self) -> bool {
        self.bits.len() == self.width * self.height
    }

    /// Whether column `x` of row `y` is a pixel of the grid.
    pub open spec fn in_bounds(self, x: int, y: int) -> bool {
        0 <= x < self.width && 0 <= y < self.height
    }

    /// Index of the bit that holds the pixel in column `x` of row `y`.
    pub open spec fn index(self, x: int, y: int) -> int {
        y * self.width + x
    }

    /// The pixel in column `x` of row `y`, or `None` outside the grid.
    pub open spec fn get(self, x: int, y: int) -> Option<bool> {
        if self.in_bounds(x, y) {
            Some(self.bits[self.index(x, y)])
        } else {
            None
        }
    }

    /// The grid with the pixel in column `x` of row `y` replaced by `b`.
    pub open spec fn set(self, x: int, y: int, b: bool) -> GridView {
        GridView { bits: self.bits.update(self.index(x, y), b), ..self }
    }

    /// The grid with every bit replaced by `b`.
    pub open spec fn filled(self, b: bool) -> GridView {
        GridView { bits: Seq::new(self.bits.len(), |i: int| b), ..self }
    }

    /// A grid of the given dimensions with no pixel lit.
    pub open spec fn blank(width: nat, height: nat) -> GridView {
        GridView { width, height, bits: Seq::new(width * height, |i: int| false) }
    }

    /// The grid after a change of dimensions. The bits are not rearranged:
    /// a smaller grid keeps the leading bits, a larger grid keeps all of
    /// them and gains copies of `fill` at the end.
    pub open spec fn resized(self, width: nat, height: nat, fill: bool) -> GridView {
        let area = width * height;
        GridView {
            width,
            height,
            bits: if area < self.bits.len() {
                self.bits.subrange(0, area as int)
            } else {
                self.bits + Seq::new((area - self.bits.len()) as nat, |i: int| fill)
            },
        }
    }
}

/// A pixel inside a grid of `width` by `height` has an index below the
/// grid's area.
pub proof fn lemma_index_in_area(width: nat, height: nat, x: int, y: int)
    requires
        0 <= x < width,
        0 <= y < height,
    ensures
        0 <= y * width + x < width * height,
{
    assert(0 <= y * width) by (nonlinear_arith)
        requires
            0 <= y,
            0 <= width,
    ;
    assert((y + 1) * width <= height * width) by (nonlinear_arith)
        requires
            y + 1 <= height,
            0 <= width,
    ;
    assert((y + 1) * width == y * width + width) by (nonlinear_arith);
    assert(height * width == width * height) by (nonlinear_arith);
}

/// Two pixels of a row-major grid that share an index are the same pixel.
pub proof fn lemma_index_injective(width: nat, x1: int, y1: int, x2: int, y2: int)
    requires
        0 <= x1 < width,
        0 <= x2 < width,
        y1 * width + x1 == y2 * width + x2,
    ensures
        x1 == x2,
        y1 == y2,
{
    if y1 < y2 {
        assert((y1 + 1) * width <= y2 * width) by (nonlinear_arith)
            requires
                y1 + 1 <= y2,
                0 <= width,
        ;
        assert((y1 + 1) * width == y1 * width + width) by (nonlinear_arith);
    } else if y2 < y1 {
        assert((y2 + 1) * width <= y1 * width) by (nonlinear_arith)
            requires
                y2 + 1 <= y1,
                0 <= width,
        ;
        assert((y2 + 1) * width == y2 * width + width) by (nonlinear_arith);
    }
}

/// Every bit of a grid is a pixel: an index below the area is the index of
/// the pixel in column `i % width` of row `i / width`.
pub proof fn lemma_index_is_pixel(width: nat, height: nat, i: int)
    requires
        0 <= i < width * height,
    ensures
        width > 0,
        0 <= i % (width as int) < width,
        0 <= i / (width as int) < height,
        (i / (width as int)) * width + i % (width as int) == i,
{
    let w = width as int;
    if w == 0 {
        assert(width * height == 0) by (nonlinear_arith)
            requires
                width == 0,
        ;
    }
    vstd::arithmetic::div_mod::lemma_fundamental_div_mod(i, w);
    vstd::arithmetic::div_mod::lemma_mod_bound(i, w);
    let q = i / w;
    assert(w * q == q * w) by (nonlinear_arith);
    if q < 0 {
        assert(q * w <= -w) by (nonlinear_arith)
            requires
                q <= -1,
                w > 0,
        ;
    }
    if q >= height {
        assert(q * w >= height * w) by (nonlinear_arith)
            requires
                q >= height,
                w > 0,
        ;
        assert(height * w == width * height) by (nonlinear_arith)
            requires
                w == width,
        ;
    }
}

/// A grid is what its pixels are: two grids of the same dimensions that
/// show the same value at every pixel are the same grid.
pub proof fn lemma_grid_is_its_pixels(a: GridView, b: GridView)
    requires
        a.wf(),
        b.wf(),
        a.width == b.width,
        a.height == b.height,
        forall|x: int, y: int| a.in_bounds(x, y) ==> #[trigger] a.get(x, y) == b.get(x, y),
    ensures
        a == b,
{
    assert forall|i: int| 0 <= i < a.bits.len() implies a.bits[i] == b.bits[i] by {
        lemma_index_is_pixel(a.width, a.height, i);
        let x = i % (a.width as int);
        let y = i / (a.width as int);
        assert(a.in_bounds(x, y));
        assert(a.get(x, y) == b.get(x, y));
        assert(a.index(x, y) == i);
        assert(b.index(x, y) == i);
    }
    assert(a.bits =~= b.bits);
}

/// Writing a pixel changes that pixel and no other: the written pixel reads
/// back as the value written, and every other position reads as before.
pub proof fn lemma_get_after_set(g: GridView, x: int, y: int, b: bool, x2: int, y2: int)
    requires
        g.wf(),
        g.in_bounds(x, y),
    ensures
        g.set(x, y, b).wf(),
        g.set(x, y, b).width == g.width,
        g.set(x, y, b).height == g.height,
        g.set(x, y, b).get(x, y) == Some(b),
        (x2, y2) != (x, y) ==> g.set(x, y, b).get(x2, y2) == g.get(x2, y2),
{
    lemma_index_in_area(g.width, g.height, x, y);
    if g.in_bounds(x2, y2) {
        lemma_index_in_area(g.width, g.height, x2, y2);
        if g.index(x2, y2) == g.index(x, y) {
            lemma_index_injective(g.width, x, y, x2, y2);
        }
    }
}

/// After every bit was replaced by `b`, every pixel of the grid reads as
/// `b`.
pub proof fn lemma_get_after_fill(g: GridView, b: bool, x: int, y: int)
    requires
        g.wf(),
    ensures
        g.filled(b).wf(),
        g.filled(b).width == g.width,
        g.filled(b).height == g.height,
        g.filled(b).get(x, y) == (if g.in_bounds(x, y) {
            Some(b)
        } else {
            None::<bool>
        }),
{
    if g.in_bounds(x, y) {
        lemma_index_in_area(g.width, g.height, x, y);
    }
}

/// Every pixel of a blank grid reads as unlit.
pub proof fn lemma_get_blank(width: nat, height: nat, x: int, y: int)
    ensures
        GridView::blank(width, height).wf(),
        GridView::blank(width, height).get(x, y) == (if 0 <= x < width && 0 <= y < height {
            Some(false)
        } else {
            None::<bool>
        }),
{
    if 0 <= x < width && 0 <= y < height {
        lemma_index_in_area(width, height, x, y);
    }
}

/// After a change of dimensions a grid holds exactly one bit for each pixel
/// of the new dimensions, whether it grew or shrank and whatever it held
/// before.
pub proof fn lemma_resized_area(g: GridView, width: nat, height: nat, fill: bool)
    ensures
        g.resized(width, height, fill).width == width,
        g.resized(width, height, fill).height == height,
        g.resized(width, height, fill).bits.len() == width * height,
        g.resized(width, height, fill).wf(),
{
}

/// A width by height grid of bi-level pixels.
pub struct Bits2d {
    width: usize,
    height: usize,
    bv: BitVec<u32>,
}

impl View for Bits2d {
    type V = GridView;

    closed spec fn view(&self) -> GridView {
        GridView {
            width: self.width as nat,
            height: self.height as nat,
            bits: bits_of(self.bv),
        }
    }
}

impl Bits2d {
    /// The invariant of the type: one bit for each pixel, and a number of
    /// pixels that the machine can count.
    pub open spec fn wf(&self) -> bool {
        self@.wf() && self@.bits.len() <= usize::MAX
    }

    /// A grid of the given dimensions with no pixel lit.
    pub fn new(width: usize, height: usize) -> (grid: Bits2d)
        requires
            width * height <= usize::MAX,
        ensures
            grid.wf(),
            grid@ == GridView::blank(width as nat, height as nat),
            forall|x: int, y: int|
                0 <= x < width && 0 <= y < height ==> #[trigger] grid@.get(x, y) == Some(false),
    {
        proof {
            assert forall|x: int, y: int| 0 <= x < width && 0 <= y < height implies #[trigger] GridView::blank(
                width as nat,
                height as nat,
            ).get(x, y) == Some(false) by {
                lemma_get_blank(width as nat, height as nat, x, y);
            }
        }
        Bits2d { width, height, bv: bits_from_elem(width * height, false) }
    }

    /// The pixel in column `x` of row `y`, or `None` when the grid has no
    /// such pixel.
    pub fn get(&self, x: usize, y: usize) -> (bit: Option<bool>)
        requires
            self.wf(),
        ensures
            bit == self@.get(x as int, y as int),
    {
        if x < self.width && y < self.height {
            proof {
                lemma_index_in_area(self.width as nat, self.height as nat, x as int, y as int);
            }
            bits_get(&self.bv, y * self.width + x)
        } else {
            None
        }
    }

    /// Writes `b` to the pixel in column `x` of row `y`.
    pub fn set(&mut self, x: usize, y: usize, b: bool)
        requires
            old(self).wf(),
            old(self)@.in_bounds(x as int, y as int),
        ensures
            final(self).wf(),
            final(self)@ == old(self)@.set(x as int, y as int, b),
            final(self)@.get(x as int, y as int) == Some(b),
            forall|x2: int, y2: int|
                (x2, y2) != (x as int, y as int) ==> #[trigger] final(self)@.get(x2, y2) == old(
                    self,
                )@.get(x2, y2),
    {
        proof {
            lemma_index_in_area(self.width as nat, self.height as nat, x as int, y as int);
            assert forall|x2: int, y2: int| (x2, y2) != (x as int, y as int) implies #[trigger] self@.set(
                x as int,
                y as int,
                b,
            ).get(x2, y2) == self@.get(x2, y2) by {
                lemma_get_after_set(self@, x as int, y as int, b, x2, y2);
            }
            lemma_get_after_set(self@, x as int, y as int, b, 0, 0);
        }
        bits_set(&mut self.bv, y * self.width + x, b);
    }

    /// Turns every pixel off.
    pub fn set_all_zero(&mut self)
        requires
            old(self).wf(),
        ensures
            final(self).wf(),
            final(self)@ == old(self)@.filled(false),
            forall|x: int, y: int|
                old(self)@.in_bounds(x, y) ==> #[trigger] final(self)@.get(x, y) == Some(false),
    {
        proof {
            assert forall|x: int, y: int| self@.in_bounds(x, y) implies #[trigger] self@.filled(
                false,
            ).get(x, y) == Some(false) by {
                lemma_get_after_fill(self@, false, x, y);
            }
        }
        bits_fill(&mut self.bv, false);
    }

    /// Turns every pixel on.
    pub fn set_all_one(&mut self)
        requires
            old(self).wf(),
        ensures
            final(self).wf(),
            final(self)@ == old(self)@.filled(true),
            forall|x: int, y: int|
                old(self)@.in_bounds(x, y) ==> #[trigger] final(self)@.get(x, y) == Some(true),
    {
        proof {
            assert forall|x: int, y: int| self@.in_bounds(x, y) implies #[trigger] self@.filled(
                true,
            ).get(x, y) == Some(true) by {
                lemma_get_after_fill(self@, true, x, y);
            }
        }
        bits_fill(&mut self.bv, true);
    }

    /// Changes the dimensions of the grid. The bits are not rearranged, so
    /// the pixels mean little afterwards: write all of them before reading
    /// any.
    pub fn resize(&mut self, width: usize, height: usize, new_bit_if_growing: bool)
        requires
            old(self).wf(),
            width * height <= usize::MAX,
        ensures
            final(self).wf(),
            final(self)@ == old(self)@.resized(width as nat, height as nat, new_bit_if_growing),
            final(self)@.width == width,
            final(self)@.height == height,
            final(self)@.bits.len() == width * height,
    {
        self.width = width;
        self.height = height;
        let product: usize = width * height;
        let len: usize = bits_len(&self.bv);
        if product < len {
            bits_truncate(&mut self.bv, product);
        } else if product > len {
            bits_grow(&mut self.bv, product - len, new_bit_if_growing);
        } else {
            assert(bits_of(self.bv) =~= bits_of(self.bv) + Seq::new(0, |i: int| new_bit_if_growing));
        }
    }

    /// Number of columns.
    pub fn width(&self) -> (width: usize)
        ensures
            width == self@.width,
    {
        self.width
    }

    /// Number of rows.
    pub fn height(&self) -> (height: usize)
        ensures
            height == self@.height,
    {
        self.height
    }

    /// Number of pixels.
    pub fn area(&self) -> (area: usize)
        ensures
            area == self@.bits.len(),
            self.wf() ==> area == self@.width * self@.height,
    {
        bits_len(&self.bv)
    }
}

} // verus!
