//! A two-dimensional array stored as one contiguous row-major sequence of
//! cells, addressed by `(x, y)` through width-driven coordinate arithmetic.

use vstd::prelude::*;
use vstd::arithmetic::div_mod::{lemma_fundamental_div_mod, lemma_mod_bound};
use vstd::arithmetic::mul::lemma_mul_is_commutative;
use crate::geometry::CanvasSize;

verus! {

/// Holds of any value that `T::default()` is allowed to return: the value
/// satisfies the contract of the type's `Default` implementation.
pub open spec fn is_default_value<T: Default>(v: T) -> bool {
    call_ensures(T::default, (), v)
}

/// The flat storage index of the cell at `(x, y)` in a grid of the given
/// width.
pub open spec fn flat_index(width: int, x: int, y: int) -> int {
    y * width + x
}

/// The `(x, y)` coordinate of the cell stored at flat index `i` in a grid of
/// the given width.
pub open spec fn coord_of(width: int, i: int) -> (int, int) {
    (i % width, i / width)
}

/// Law: decoding a flat index into a coordinate and re-deriving the flat
/// index (`y * width + x`) returns the original index.
pub proof fn lemma_index_coord_roundtrip(width: int, i: int)
    requires
        0 < width,
        0 <= i,
    ensures
        flat_index(width, coord_of(width, i).0, coord_of(width, i).1) == i,
{
    lemma_fundamental_div_mod(i, width);
    lemma_mul_is_commutative(width, i / width);
}

/// Distinct in-range coordinates occupy distinct flat indices; equivalently,
/// a flat index determines its coordinate.
pub proof fn lemma_flat_index_injective(width: int, x1: int, y1: int, x2: int, y2: int)
    requires
        0 <= x1 < width,
        0 <= x2 < width,
        0 <= y1,
        0 <= y2,
        flat_index(width, x1, y1) == flat_index(width, x2, y2),
    ensures
        x1 == x2,
        y1 == y2,
{
    let i = flat_index(width, x1, y1);
    lemma_fundamental_div_mod(i, width);
    lemma_mod_bound(i, width);
    assert(y1 * width + x1 == y2 * width + x2);
    assert((y1 - y2) * width == x2 - x1) by (nonlinear_arith)
        requires
            y1 * width + x1 == y2 * width + x2,
    ;
    assert(-width < x2 - x1 < width);
    assert(y1 == y2) by (nonlinear_arith)
        requires
            (y1 - y2) * width == x2 - x1,
            -width < x2 - x1 < width,
            0 < width,
    ;
}

/// The flat index of an in-range `u16` coordinate fits even a 32-bit
/// machine word.
proof fn lemma_flat_index_fits(x: int, y: int, w: int)
    requires
        0 <= x <= 0xffff,
        0 <= y <= 0xffff,
        0 <= w <= 0xffff,
    ensures
        0 <= y * w + x < 0x1_0000_0000,
{
    assert(y * w <= 0xffff * 0xffff) by (nonlinear_arith)
        requires
            0 <= y <= 0xffff,
            0 <= w <= 0xffff,
    ;
}

/// A fixed-capacity two-dimensional array of `T`, stored as one contiguous
/// sequence of `width * height` cells. The view is the flat cell sequence in
/// row-major order; the width drives all coordinate arithmetic.
pub struct Array2D<T> {
    cells: Vec<T>,
    width: u16,
}

impl<T> View for Array2D<T> {
    type V = Seq<T>;

    closed spec fn view(&self) -> Seq<T> {
        self.cells@
    }
}

impl<T: Default> Array2D<T> {
    /// Allocates a `width * height` grid, every cell holding the value the
    /// cell type's `Default` implementation produces.
    pub fn new(width: u16, height: u16) -> (g: Self)
        ensures
            g@.len() == width * height,
            g.spec_width() == width,
            forall|i: int| 0 <= i < g@.len() ==> is_default_value(#[trigger] g@[i]),
    {
        proof {
            lemma_flat_index_fits(0, width as int, height as int);
        }
        let area: usize = (width as usize) * (height as usize);
        let mut cells: Vec<T> = Vec::with_capacity(area);
        let mut i: usize = 0;
        while i < area
            invariant
                i <= area,
                cells@.len() == i,
                forall|j: int| 0 <= j < i ==> is_default_value(#[trigger] cells@[j]),
            decreases area - i,
        {
            cells.push(T::default());
            i = i + 1;
        }
        Self { cells, width }
    }
}

impl<T> Array2D<T> {
    /// The width the storage is currently interpreted at.
    pub closed spec fn spec_width(&self) -> u16 {
        self.width
    }

    /// Reinterprets an existing flat cell sequence as a grid of the given
    /// width, without moving any data.
    pub fn from_parts(cells: Vec<T>, width: u16) -> (g: Self)
        ensures
            g@ == cells@,
            g.spec_width() == width,
    {
        Self { cells, width }
    }

    /// The total number of cells.
    pub fn len(&self) -> (n: usize)
        ensures
            n == self@.len(),
    {
        self.cells.len()
    }

    /// The cells in flat row-major order.
    pub fn slice(&self) -> (s: &[T])
        ensures
            s@ == self@,
    {
        self.cells.as_slice()
    }

    /// The cells in flat row-major order, for in-place mutation. Writes
    /// through the returned slice cannot change the number of cells.
    pub fn mut_slice(&mut self) -> (s: &mut [T])
        ensures
            s@ == old(self)@,
            final(s)@ == final(self)@,
            final(self).spec_width() == old(self).spec_width(),
    {
        self.cells.as_mut_slice()
    }

    /// Decodes a flat index into the `(x, y)` coordinate it addresses, as
    /// `(i % width, i / width)`.
    pub fn index_to_coord(&self, i: usize) -> (r: (u16, u16))
        requires
            0 < self.spec_width(),
            i < self@.len(),
            i as int / self.spec_width() as int <= u16::MAX,
        ensures
            (r.0 as int, r.1 as int) == coord_of(self.spec_width() as int, i as int),
            flat_index(self.spec_width() as int, r.0 as int, r.1 as int) == i,
    {
        let w = self.width as usize;
        let x = i % w;
        let y = i / w;
        proof {
            lemma_mod_bound(i as int, w as int);
            lemma_index_coord_roundtrip(w as int, i as int);
        }
        (x as u16, y as u16)
    }

    /// The grid's dimensions, derived as `(width, len() / width)`.
    pub fn sides(&self) -> (s: CanvasSize)
        requires
            0 < self.spec_width(),
            self@.len() as int / self.spec_width() as int <= u16::MAX,
        ensures
            s.width == self.spec_width(),
            s.height as int == self@.len() as int / self.spec_width() as int,
    {
        let h = self.cells.len() / (self.width as usize);
        CanvasSize { width: self.width, height: h as u16 }
    }

    /// Reassigns the width the storage is interpreted at, without moving
    /// data. The caller is responsible for keeping the total length
    /// compatible with the new width; no validation is performed.
    pub fn set_width(&mut self, width: u16)
        ensures
            final(self)@ == old(self)@,
            final(self).spec_width() == width,
    {
        self.width = width;
    }

    /// Reads the cell at `(x, y)`.
    pub fn get(&self, x: u16, y: u16) -> (r: &T)
        requires
            x < self.spec_width(),
            flat_index(self.spec_width() as int, x as int, y as int) < self@.len(),
        ensures
            *r == self@[flat_index(self.spec_width() as int, x as int, y as int)],
    {
        proof {
            lemma_flat_index_fits(x as int, y as int, self.spec_width() as int);
        }
        let i: usize = (y as usize) * (self.width as usize) + (x as usize);
        &self.cells[i]
    }

    /// Borrows the cell at `(x, y)` for writing; the grid afterwards holds
    /// whatever value the caller leaves in the borrow, and no other cell
    /// changes.
    pub fn get_mut(&mut self, x: u16, y: u16) -> (r: &mut T)
        requires
            x < old(self).spec_width(),
            flat_index(old(self).spec_width() as int, x as int, y as int) < old(self)@.len(),
        ensures
            *r == old(self)@[flat_index(old(self).spec_width() as int, x as int, y as int)],
            final(self)@ == old(self)@.update(
                flat_index(old(self).spec_width() as int, x as int, y as int),
                *final(r),
            ),
            final(self).spec_width() == old(self).spec_width(),
    {
        proof {
            lemma_flat_index_fits(x as int, y as int, old(self).spec_width() as int);
        }
        let i: usize = (y as usize) * (self.width as usize) + (x as usize);
        &mut self.cells[i]
    }
}

} // verus!
