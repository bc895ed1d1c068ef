//! The canvas: a grid of `(CharID, Attribute)` cells coupled with a charset
//! and a list of cursors, together with the fluent builder that constructs
//! canvases from a charset.

use vstd::prelude::*;
use vstd::pervasive::VecAdditionalExecFns;
use vstd::arithmetic::div_mod::{
    lemma_div_multiples_vanish, lemma_fundamental_div_mod, lemma_fundamental_div_mod_converse,
    lemma_mod_bound, lemma_multiply_divide_lt,
};
use vstd::arithmetic::mul::lemma_mul_is_commutative;
use crate::array2d::{coord_of, flat_index, is_default_value, lemma_flat_index_injective, Array2D};
use crate::charset::{CharID, Charset};
use crate::geometry::{CanvasPos, CanvasSize};

verus! {

/// A bounded position tracker on a canvas, optionally remembering an origin
/// (e.g. for drag-select). The canvas that owns the cursor keeps `bounds`
/// equal to its own size; the cursor itself performs no clamping, so a
/// stored position may lie outside the bounds if the owner shrinks.
#[derive(Clone, Copy)]
pub struct Cursor {
    origin: Option<CanvasPos>,
    position: CanvasPos,
    bounds: CanvasSize,
}

impl Cursor {
    /// The origin a consumer may have set; never set by the canvas itself.
    pub closed spec fn spec_origin(&self) -> Option<CanvasPos> {
        self.origin
    }

    /// The position the cursor marks.
    pub closed spec fn spec_position(&self) -> CanvasPos {
        self.position
    }

    /// The size of the canvas the cursor belongs to, as of the last resize.
    pub closed spec fn spec_bounds(&self) -> CanvasSize {
        self.bounds
    }

    pub(crate) fn new(position: CanvasPos, width_bound: u16, height_bound: u16) -> (c: Cursor)
        ensures
            c.spec_position() == position,
            c.spec_origin() is None,
            c.spec_bounds() == (CanvasSize { width: width_bound, height: height_bound }),
    {
        Cursor {
            origin: None,
            position,
            bounds: CanvasSize { width: width_bound, height: height_bound },
        }
    }

    pub fn position(&self) -> (p: CanvasPos)
        ensures
            p == self.spec_position(),
    {
        self.position
    }

    /// The bounds the owning canvas last assigned.
    pub fn bounds(&self) -> (b: CanvasSize)
        ensures
            b == self.spec_bounds(),
    {
        self.bounds
    }

    /// The origin, if a consumer has set one.
    pub fn origin(&self) -> (o: Option<CanvasPos>)
        ensures
            o == self.spec_origin(),
    {
        self.origin
    }
}

/// One cell as handed to a renderer: its coordinate, the item its id
/// resolves to, and its attribute.
pub type Cell<'a, T, A> = (u16, u16, T, &'a A);

/// A sized grid of `(CharID, Attribute)` cells paired with one charset and a
/// list of cursors. Produced through `CanvasBuilder`.
pub struct Canvas<C, A = ()> {
    /// The full grid of items.
    data: Array2D<(CharID, A)>,
    /// Resolves the stored ids; decouples the backend from what is rendered.
    charset: C,
    /// A canvas may have several cursors, e.g. one per selection on a
    /// picker canvas.
    cursors: Vec<Cursor>,
}

impl<C, A> Canvas<C, A> {
    /// The cells in flat row-major order.
    pub closed spec fn spec_cells(&self) -> Seq<(CharID, A)> {
        self.data@
    }

    /// The width the grid is interpreted at.
    pub closed spec fn spec_width(&self) -> u16 {
        self.data.spec_width()
    }

    /// The charset the canvas resolves ids through.
    pub closed spec fn spec_charset(&self) -> C {
        self.charset
    }

    /// The cursors, in construction order.
    pub closed spec fn spec_cursors(&self) -> Seq<Cursor> {
        self.cursors@
    }

    /// The height, derived from the cell count and the width.
    pub open spec fn spec_height(&self) -> int {
        if self.spec_width() == 0 {
            0
        } else {
            self.spec_cells().len() as int / self.spec_width() as int
        }
    }

    /// The current dimensions.
    pub open spec fn spec_size(&self) -> CanvasSize {
        CanvasSize { width: self.spec_width(), height: self.spec_height() as u16 }
    }

    /// The grid's dimensions are consistent: the cell count is exactly
    /// width times height, and the height fits the size type.
    pub open spec fn grid_wf(&self) -> bool {
        &&& self.spec_cells().len() == self.spec_width() * self.spec_height()
        &&& self.spec_height() <= u16::MAX
    }

    /// Every cursor's bounds equal the canvas's current size.
    pub open spec fn cursors_consistent(&self) -> bool {
        forall|i: int|
            0 <= i < self.spec_cursors().len()
                ==> (#[trigger] self.spec_cursors()[i]).spec_bounds() == self.spec_size()
    }

    /// The canvas invariant: a consistent grid whose cursors all carry the
    /// canvas's size as their bounds.
    pub open spec fn wf(&self) -> bool {
        self.grid_wf() && self.cursors_consistent()
    }
}

impl<T, C: Charset<Item = T>, A> Canvas<C, A> {
    /// The total number of cells.
    pub fn len(&self) -> (n: usize)
        ensures
            n == self.spec_cells().len(),
    {
        self.data.len()
    }

    /// The cells in flat row-major order.
    pub fn iter(&self) -> (s: &[(CharID, A)])
        ensures
            s@ == self.spec_cells(),
    {
        self.data.slice()
    }

    /// The cells in flat row-major order, for in-place mutation. Writes
    /// through the returned slice cannot change the number of cells; the
    /// charset and the cursors are untouched.
    pub fn iter_mut(&mut self) -> (s: &mut [(CharID, A)])
        ensures
            s@ == old(self).spec_cells(),
            final(self).spec_cells() == final(s)@,
            final(self).spec_width() == old(self).spec_width(),
            final(self).spec_charset() == old(self).spec_charset(),
            final(self).spec_cursors() == old(self).spec_cursors(),
    {
        self.data.mut_slice()
    }

    /// Reads the cell at `(x, y)`.
    pub fn get(&self, x: u16, y: u16) -> (r: &(CharID, A))
        requires
            x < self.spec_width(),
            flat_index(self.spec_width() as int, x as int, y as int) < self.spec_cells().len(),
        ensures
            *r == self.spec_cells()[flat_index(self.spec_width() as int, x as int, y as int)],
    {
        self.data.get(x, y)
    }

    /// Borrows the cell at `(x, y)` for writing; afterwards that cell holds
    /// whatever the caller left in the borrow and every other cell, the
    /// charset and the cursors are unchanged.
    pub fn get_mut(&mut self, x: u16, y: u16) -> (r: &mut (CharID, A))
        requires
            x < old(self).spec_width(),
            flat_index(old(self).spec_width() as int, x as int, y as int)
                < old(self).spec_cells().len(),
        ensures
            *r == old(self).spec_cells()[flat_index(
                old(self).spec_width() as int,
                x as int,
                y as int,
            )],
            final(self).spec_cells() == old(self).spec_cells().update(
                flat_index(old(self).spec_width() as int, x as int, y as int),
                *final(r),
            ),
            final(self).spec_width() == old(self).spec_width(),
            final(self).spec_charset() == old(self).spec_charset(),
            final(self).spec_cursors() == old(self).spec_cursors(),
    {
        self.data.get_mut(x, y)
    }

    /// The charset the canvas resolves ids through.
    pub fn charset(&self) -> (c: &C)
        ensures
            *c == self.spec_charset(),
    {
        &self.charset
    }

    /// The current dimensions, derived as `(width, len() / width)`.
    pub fn size(&self) -> (s: CanvasSize)
        requires
            self.grid_wf(),
            0 < self.spec_width(),
        ensures
            s == self.spec_size(),
    {
        self.data.sides()
    }

    /// Sets the new size, reinterpreting the same cells at the new width,
    /// and updates the bounds of every cursor to the new size. Positions and
    /// origins of cursors are left untouched, even if a position now lies
    /// outside the new bounds.
    pub fn set_size(&mut self, new_size: CanvasSize)
        requires
            old(self).grid_wf(),
            new_size.spec_area() == old(self).spec_cells().len(),
            new_size.width == 0 ==> new_size.height == 0,
        ensures
            final(self).spec_cells() == old(self).spec_cells(),
            final(self).spec_charset() == old(self).spec_charset(),
            final(self).spec_width() == new_size.width,
            final(self).spec_size() == new_size,
            final(self).spec_cursors().len() == old(self).spec_cursors().len(),
            forall|i: int|
                0 <= i < old(self).spec_cursors().len() ==> {
                    let c = #[trigger] final(self).spec_cursors()[i];
                    &&& c.spec_position() == old(self).spec_cursors()[i].spec_position()
                    &&& c.spec_origin() == old(self).spec_cursors()[i].spec_origin()
                    &&& c.spec_bounds() == new_size
                },
            final(self).wf(),
    {
        self.data.set_width(new_size.width);
        proof {
            if new_size.width > 0 {
                lemma_mul_is_commutative(new_size.width as int, new_size.height as int);
                lemma_div_multiples_vanish(new_size.height as int, new_size.width as int);
            }
        }
        let mut i: usize = 0;
        while i < self.cursors.len()
            invariant
                i <= self.cursors.len(),
                self.cursors.len() == old(self).spec_cursors().len(),
                self.data@ == old(self).spec_cells(),
                self.data.spec_width() == new_size.width,
                self.charset == old(self).spec_charset(),
                forall|j: int|
                    0 <= j < i ==> {
                        let c = #[trigger] self.cursors@[j];
                        &&& c.spec_position() == old(self).spec_cursors()[j].spec_position()
                        &&& c.spec_origin() == old(self).spec_cursors()[j].spec_origin()
                        &&& c.spec_bounds() == new_size
                    },
                forall|j: int|
                    i <= j < self.cursors.len()
                        ==> #[trigger] self.cursors@[j] == old(self).spec_cursors()[j],
            decreases self.cursors.len() - i,
        {
            let mut c = self.cursors[i];
            c.bounds = new_size;
            self.cursors.set(i, c);
            i = i + 1;
        }
    }

    /// The cursors on the grid, in construction order.
    pub fn cursors(&self) -> (r: &[Cursor])
        ensures
            r@ == self.spec_cursors(),
    {
        self.cursors.as_slice()
    }

    /// Returns the cells in row-major order, each with its coordinate, the
    /// item its id resolves to, and its attribute. This is the one
    /// operation a rendering collaborator calls every frame. Every stored
    /// id must be resolvable by the charset.
    pub fn cells<'a>(&'a self) -> (r: Vec<Cell<'a, T, A>>)
        requires
            self.grid_wf(),
            forall|k: int|
                0 <= k < self.spec_cells().len()
                    ==> (#[trigger] self.spec_cells()[k]).0 < self.spec_charset().spec_len(),
        ensures
            r@.len() == self.spec_cells().len(),
            forall|k: int|
                0 <= k < r@.len() ==> {
                    let cell = #[trigger] r@[k];
                    &&& (cell.0 as int, cell.1 as int) == coord_of(self.spec_width() as int, k)
                    &&& cell.2 == self.spec_charset().spec_get_char(self.spec_cells()[k].0)
                    &&& *cell.3 == self.spec_cells()[k].1
                },
    {
        let mut r: Vec<Cell<'a, T, A>> = Vec::new();
        let s = self.data.slice();
        let len = self.data.len();
        let mut k: usize = 0;
        while k < len
            invariant
                k <= len,
                len == self.spec_cells().len(),
                self.grid_wf(),
                forall|j: int|
                    0 <= j < self.spec_cells().len()
                        ==> (#[trigger] self.spec_cells()[j]).0 < self.spec_charset().spec_len(),
                s@ == self.spec_cells(),
                r@.len() == k,
                forall|j: int|
                    0 <= j < k ==> {
                        let cell = #[trigger] r@[j];
                        &&& (cell.0 as int, cell.1 as int) == coord_of(
                            self.spec_width() as int,
                            j,
                        )
                        &&& cell.2 == self.spec_charset().spec_get_char(self.spec_cells()[j].0)
                        &&& *cell.3 == self.spec_cells()[j].1
                    },
            decreases len - k,
        {
            proof {
                lemma_multiply_divide_lt(
                    k as int,
                    self.spec_width() as int,
                    self.spec_height(),
                );
            }
            let (x, y) = self.data.index_to_coord(k);
            let cell = &s[k];
            let item = self.charset.get_char(cell.0);
            r.push((x, y, item, &cell.1));
            k = k + 1;
        }
        r
    }
}

/// The shape `CanvasBuilder::init` leaves a builder in: the default size is
/// one row wide enough to show every character of the charset, with no
/// cursors and no seeded cells yet.
pub open spec fn init_shape<C: Charset, A>(charset: C, b: CanvasBuilder<C, A>) -> bool {
    &&& b.spec_size() == (CanvasSize { width: charset.spec_len(), height: 1 })
    &&& b.spec_charset() == charset
    &&& b.spec_cursor_positions() == Seq::<CanvasPos>::empty()
    &&& b.spec_default_cells() is None
}

/// The id `char_cascade` seeds at flat index `i`: the index itself, clamped
/// to 0 once the index exceeds the charset's count.
pub open spec fn cascade_id<C: Charset>(charset: C, i: int) -> int {
    if i < charset.spec_len() {
        i
    } else {
        0
    }
}

/// The shape `char_cascade` leaves a builder in: every flat cell index is
/// seeded as its own id, clamped to 0 once the index exceeds the charset's
/// count.
pub open spec fn cascade_seeded<C: Charset, A>(b: CanvasBuilder<C, A>) -> bool {
    match b.spec_default_cells() {
        Some(cs) => {
            &&& cs.len() == b.spec_size().spec_area()
            &&& forall|i: int|
                0 <= i < cs.len() ==> (#[trigger] cs[i]).0 == cascade_id(b.spec_charset(), i)
        },
        None => false,
    }
}

/// How a built canvas relates to the builder it came from: the grid takes
/// the builder's dimensions and seeded cells (or default values), the
/// charset is carried over, and the cursors stand at the requested
/// positions (falling back to a single cursor at the top-left corner), each
/// bounded by the canvas size.
pub open spec fn built_from<C: Charset, A: Default>(
    b: CanvasBuilder<C, A>,
    c: Canvas<C, A>,
) -> bool {
    let w = b.spec_size().width;
    let h = b.spec_size().height;
    let ps = if b.spec_cursor_positions().len() == 0 {
        seq![CanvasPos { x: 0, y: 0 }]
    } else {
        b.spec_cursor_positions()
    };
    &&& c.spec_width() == w
    &&& c.spec_cells().len() == w * h
    &&& c.spec_charset() == b.spec_charset()
    &&& match b.spec_default_cells() {
        Some(cs) => c.spec_cells() == cs,
        None => forall|i: int|
            0 <= i < c.spec_cells().len() ==> is_default_value(#[trigger] c.spec_cells()[i]),
    }
    &&& c.spec_cursors().len() == ps.len()
    &&& forall|i: int|
        0 <= i < ps.len() ==> {
            let cur = #[trigger] c.spec_cursors()[i];
            &&& cur.spec_position() == ps[i]
            &&& cur.spec_origin() is None
            &&& cur.spec_bounds() == (CanvasSize { width: w, height: h })
        }
}

/// A fluent, staged construction protocol for canvases: derives sensible
/// defaults (size, cursor placement, initial cell contents) from the
/// charset, all of which can be overridden before `build`.
pub struct CanvasBuilder<C, A = ()> {
    size: CanvasSize,
    charset: C,
    cursor_positions: Vec<CanvasPos>,
    default_cells: Option<Vec<(CharID, A)>>,
}

impl<C, A> CanvasBuilder<C, A> {
    /// The dimensions the canvas will be built with.
    pub closed spec fn spec_size(&self) -> CanvasSize {
        self.size
    }

    /// The charset the canvas will own.
    pub closed spec fn spec_charset(&self) -> C {
        self.charset
    }

    /// The cursor seed positions pushed so far.
    pub closed spec fn spec_cursor_positions(&self) -> Seq<CanvasPos> {
        self.cursor_positions@
    }

    /// The seeded initial cells, if a generator has run.
    pub closed spec fn spec_default_cells(&self) -> Option<Seq<(CharID, A)>> {
        match self.default_cells {
            Some(ref v) => Some(v@),
            None => None,
        }
    }
}

impl<T, C: Charset<Item = T>, A: Default> CanvasBuilder<C, A> {
    /// Starts a builder over the given charset. The default size is one row
    /// wide enough to show every character of the set, a sensible default
    /// for picker canvases.
    pub fn init(charset: C) -> (b: Self)
        ensures
            init_shape(charset, b),
    {
        let len = charset.len();
        Self {
            size: CanvasSize { width: len, height: 1 },
            cursor_positions: Vec::new(),
            charset,
            default_cells: None,
        }
    }

    /// Specifies the dimensions of the canvas.
    pub fn size(self, size: CanvasSize) -> (b: Self)
        ensures
            b.spec_size() == size,
            b.spec_charset() == self.spec_charset(),
            b.spec_cursor_positions() == self.spec_cursor_positions(),
            b.spec_default_cells() == self.spec_default_cells(),
    {
        Self {
            size,
            charset: self.charset,
            cursor_positions: self.cursor_positions,
            default_cells: self.default_cells,
        }
    }

    /// Overrides the canvas width.
    pub fn width(self, width: u16) -> (b: Self)
        ensures
            b.spec_size() == (CanvasSize { width, height: self.spec_size().height }),
            b.spec_charset() == self.spec_charset(),
            b.spec_cursor_positions() == self.spec_cursor_positions(),
            b.spec_default_cells() == self.spec_default_cells(),
    {
        Self {
            size: CanvasSize { width, height: self.size.height },
            charset: self.charset,
            cursor_positions: self.cursor_positions,
            default_cells: self.default_cells,
        }
    }

    /// Overrides the canvas height.
    pub fn height(self, height: u16) -> (b: Self)
        ensures
            b.spec_size() == (CanvasSize { width: self.spec_size().width, height }),
            b.spec_charset() == self.spec_charset(),
            b.spec_cursor_positions() == self.spec_cursor_positions(),
            b.spec_default_cells() == self.spec_default_cells(),
    {
        Self {
            size: CanvasSize { width: self.size.width, height },
            charset: self.charset,
            cursor_positions: self.cursor_positions,
            default_cells: self.default_cells,
        }
    }

    /// Pushes a cursor seed position onto the canvas; may be called several
    /// times for multi-cursor canvases.
    pub fn cursor_position(self, x: u16, y: u16) -> (b: Self)
        ensures
            b.spec_cursor_positions() == self.spec_cursor_positions().push(
                CanvasPos { x, y },
            ),
            b.spec_size() == self.spec_size(),
            b.spec_charset() == self.spec_charset(),
            b.spec_default_cells() == self.spec_default_cells(),
    {
        let mut cursor_positions = self.cursor_positions;
        cursor_positions.push(CanvasPos { x, y });
        Self {
            size: self.size,
            charset: self.charset,
            cursor_positions,
            default_cells: self.default_cells,
        }
    }

    /// Uses a generator function to create the default members of the grid:
    /// the generator runs once per flat cell index, in order.
    pub fn default_cells<F: Fn(CharID, &C) -> (CharID, A)>(self, func: F) -> (b: Self)
        requires
            self.spec_size().spec_area() <= u16::MAX,
            forall|id: CharID|
                id < self.spec_size().spec_area() ==> call_requires(
                    func,
                    (id, &self.spec_charset()),
                ),
        ensures
            b.spec_size() == self.spec_size(),
            b.spec_charset() == self.spec_charset(),
            b.spec_cursor_positions() == self.spec_cursor_positions(),
            match b.spec_default_cells() {
                Some(cs) => {
                    &&& cs.len() == self.spec_size().spec_area()
                    &&& forall|i: int|
                        0 <= i < cs.len() ==> call_ensures(
                            func,
                            ((i as u16), &self.spec_charset()),
                            #[trigger] cs[i],
                        )
                },
                None => false,
            },
    {
        let area: usize = (self.size.width as usize) * (self.size.height as usize);
        let mut cs: Vec<(CharID, A)> = Vec::new();
        let mut id: usize = 0;
        while id < area
            invariant
                id <= area,
                area == self.spec_size().spec_area(),
                area <= u16::MAX,
                forall|id2: CharID|
                    id2 < area ==> call_requires(func, (id2, &self.spec_charset())),
                cs@.len() == id,
                forall|j: int|
                    0 <= j < id ==> call_ensures(
                        func,
                        ((j as u16), &self.spec_charset()),
                        #[trigger] cs@[j],
                    ),
            decreases area - id,
        {
            proof {
                assert(call_requires(func, ((id as u16), &self.spec_charset())));
                assert(self.spec_charset() == self.charset);
            }
            let cell = func(id as u16, &self.charset);
            cs.push(cell);
            id = id + 1;
        }
        Self {
            size: self.size,
            charset: self.charset,
            cursor_positions: self.cursor_positions,
            default_cells: Some(cs),
        }
    }

    /// Seeds the cells so that each flat index is its own id — one cell per
    /// character of the charset, in order — clamped to 0 once the index
    /// exceeds the charset's count. Attributes take their default value.
    pub fn char_cascade(self) -> (b: Self)
        requires
            self.spec_size().spec_area() <= u16::MAX,
        ensures
            b.spec_size() == self.spec_size(),
            b.spec_charset() == self.spec_charset(),
            b.spec_cursor_positions() == self.spec_cursor_positions(),
            cascade_seeded(b),
            match b.spec_default_cells() {
                Some(cs) => forall|i: int|
                    0 <= i < cs.len() ==> is_default_value((#[trigger] cs[i]).1),
                None => false,
            },
    {
        let seed = |id: CharID, c: &C| -> (r: (CharID, A))
            ensures
                r.0 == cascade_id(*c, id as int),
                is_default_value(r.1),
            {
                let picked = if id < c.len() {
                    id
                } else {
                    0
                };
                (picked, A::default())
            };
        let b = self.default_cells(seed);
        proof {
            let cs = b.spec_default_cells()->Some_0;
            assert forall|i: int|
                0 <= i < cs.len() implies (#[trigger] cs[i]).0 == cascade_id(
                b.spec_charset(),
                i,
            ) && is_default_value(cs[i].1) by {
                assert(0 <= i <= u16::MAX);
            }
        }
        b
    }

    /// Finalizes the configuration: materializes the cursors (exactly one
    /// cursor at the top-left corner if none was requested) and the cells
    /// (seeded ones if a generator ran, default values otherwise), and
    /// returns an owned canvas.
    pub fn build(self) -> (c: Canvas<C, A>)
        requires
            match self.spec_default_cells() {
                Some(cs) => cs.len() == self.spec_size().spec_area(),
                None => true,
            },
        ensures
            built_from(self, c),
            c.grid_wf(),
            self.spec_size().width > 0 || self.spec_size().height == 0 ==> c.wf(),
    {
        let width = self.size.width;
        let height = self.size.height;
        let mut positions = self.cursor_positions;
        if positions.len() == 0 {
            positions.push(CanvasPos { x: 0, y: 0 });
        }
        let ghost ps = positions@;
        let mut cursors: Vec<Cursor> = Vec::new();
        let mut i: usize = 0;
        while i < positions.len()
            invariant
                i <= positions.len(),
                positions@ == ps,
                cursors@.len() == i,
                forall|j: int|
                    0 <= j < i ==> {
                        let cur = #[trigger] cursors@[j];
                        &&& cur.spec_position() == ps[j]
                        &&& cur.spec_origin() is None
                        &&& cur.spec_bounds() == (CanvasSize { width, height })
                    },
            decreases positions.len() - i,
        {
            cursors.push(Cursor::new(positions[i], width, height));
            i = i + 1;
        }
        let data = match self.default_cells {
            Some(cells) => Array2D::from_parts(cells, width),
            None => Array2D::new(width, height),
        };
        let c = Canvas { data, charset: self.charset, cursors };
        proof {
            if width > 0 {
                lemma_mul_is_commutative(width as int, height as int);
                lemma_div_multiples_vanish(height as int, width as int);
            }
        }
        c
    }
}

impl<T, C: Charset<Item = T>> CanvasBuilder<C, ()> {
    /// Finalizes a builder whose cells carry no attributes.
    pub fn build_no_attrs(self) -> (c: Canvas<C, ()>)
        requires
            match self.spec_default_cells() {
                Some(cs) => cs.len() == self.spec_size().spec_area(),
                None => true,
            },
        ensures
            built_from(self, c),
            c.grid_wf(),
            self.spec_size().width > 0 || self.spec_size().height == 0 ==> c.wf(),
    {
        self.build()
    }
}

/// Law: writing one cell and reading it back returns exactly the written
/// value, and every other cell is unchanged.
pub proof fn lemma_write_read_locality<C, A>(
    pre: Canvas<C, A>,
    post: Canvas<C, A>,
    x: u16,
    y: u16,
    v: (CharID, A),
)
    requires
        x < pre.spec_width(),
        flat_index(pre.spec_width() as int, x as int, y as int) < pre.spec_cells().len(),
        post.spec_width() == pre.spec_width(),
        post.spec_cells() == pre.spec_cells().update(
            flat_index(pre.spec_width() as int, x as int, y as int),
            v,
        ),
    ensures
        post.spec_cells()[flat_index(post.spec_width() as int, x as int, y as int)] == v,
        forall|x2: u16, y2: u16|
            #![trigger flat_index(pre.spec_width() as int, x2 as int, y2 as int)]
            x2 < pre.spec_width() && flat_index(pre.spec_width() as int, x2 as int, y2 as int)
                < pre.spec_cells().len() && !(x2 == x && y2 == y)
                ==> post.spec_cells()[flat_index(pre.spec_width() as int, x2 as int, y2 as int)]
                == pre.spec_cells()[flat_index(pre.spec_width() as int, x2 as int, y2 as int)],
{
    let w = pre.spec_width() as int;
    assert forall|x2: u16, y2: u16|
        x2 < pre.spec_width() && flat_index(w, x2 as int, y2 as int) < pre.spec_cells().len()
            && !(x2 == x && y2 == y) implies post.spec_cells()[flat_index(
        w,
        x2 as int,
        y2 as int,
    )] == pre.spec_cells()[flat_index(w, x2 as int, y2 as int)] by {
        if flat_index(w, x2 as int, y2 as int) == flat_index(w, x as int, y as int) {
            lemma_flat_index_injective(w, x2 as int, y2 as int, x as int, y as int);
        }
    }
}

/// Law: cells are enumerated in row-major order. Within a row the `x`
/// coordinate advances by exactly one at the same `y`; at the end of a row —
/// every `width` items — the enumeration wraps to `x == 0` on row `y + 1`.
pub proof fn lemma_cells_row_major(width: int, k: int)
    requires
        0 < width,
        0 <= k,
    ensures
        ({
            let (x1, y1) = coord_of(width, k);
            let (x2, y2) = coord_of(width, k + 1);
            &&& (x1 + 1 < width ==> y2 == y1 && x2 == x1 + 1)
            &&& (x1 + 1 == width ==> y2 == y1 + 1 && x2 == 0)
        }),
{
    let q = k / width;
    let r = k % width;
    lemma_fundamental_div_mod(k, width);
    lemma_mod_bound(k, width);
    if r + 1 < width {
        lemma_fundamental_div_mod_converse(k + 1, width, q, r + 1);
    } else {
        assert(k + 1 == (q + 1) * width + 0) by (nonlinear_arith)
            requires
                k == width * q + r,
                r + 1 == width,
        ;
        lemma_fundamental_div_mod_converse(k + 1, width, q + 1, 0);
    }
}

/// Law: a canvas built from `init(charset)` with no further builder calls
/// has size `(charset.len(), 1)` and exactly one cursor at `(0, 0)`. (A
/// charset that resolves no ids at all is excluded: the empty canvas it
/// yields has no well-defined height.)
pub proof fn lemma_default_build<C: Charset, A: Default>(
    charset: C,
    b: CanvasBuilder<C, A>,
    c: Canvas<C, A>,
)
    requires
        init_shape(charset, b),
        built_from(b, c),
        charset.spec_len() > 0,
    ensures
        c.spec_size() == (CanvasSize { width: charset.spec_len(), height: 1 }),
        c.spec_cursors().len() == 1,
        c.spec_cursors()[0].spec_position() == (CanvasPos { x: 0, y: 0 }),
        c.spec_cursors()[0].spec_origin() is None,
{
    let w = charset.spec_len() as int;
    assert(c.spec_cells().len() == w);
    lemma_div_multiples_vanish(1, w);
    assert(c.spec_height() == 1);
}

/// Law: `char_cascade` over a charset of length `N` on an `N`-by-one canvas
/// gives every cell the id equal to its own flat index.
pub proof fn lemma_char_cascade_identity<C: Charset, A: Default>(
    b: CanvasBuilder<C, A>,
    c: Canvas<C, A>,
)
    requires
        cascade_seeded(b),
        built_from(b, c),
        b.spec_size().width == b.spec_charset().spec_len(),
        b.spec_size().height == 1,
    ensures
        c.spec_cells().len() == b.spec_charset().spec_len(),
        forall|i: int|
            0 <= i < c.spec_cells().len() ==> (#[trigger] c.spec_cells()[i]).0 == i,
{
}

} // verus!
