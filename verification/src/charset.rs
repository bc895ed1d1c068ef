//! The charset capability: a mapping from a small integer identifier to a
//! domain-specific glyph value, decoupling what the grid stores from what it
//! renders as.

use vstd::prelude::*;
use crate::geometry::CanvasSize;

verus! {

/// The identifier a grid cell stores. It is meaningless without a `Charset`
/// to resolve it.
pub type CharID = u16;

/// Keeps track of characters for drawing textmode art. A charset resolves a
/// `CharID` to a domain-specific item and reports how many distinct ids it
/// resolves. Charsets are value-like and cheaply duplicable; an
/// implementation backed by an expensive resource should share that resource
/// internally by reference-counted, read-only ownership.
pub trait Charset: Clone {
    /// Data to be returned when providing a `CharID`.
    type Item;

    /// The number of distinct ids this set resolves.
    spec fn spec_len(&self) -> u16;

    /// The item that a given id resolves to.
    spec fn spec_get_char(&self, id: CharID) -> Self::Item;

    /// Return the character corresponding to the id. Resolution is owed for
    /// every id below `len()`; asking for a larger id is a programmer error
    /// and is excluded here rather than answered.
    fn get_char(&self, id: CharID) -> (r: Self::Item)
        requires
            id < self.spec_len(),
        ensures
            r == self.spec_get_char(id),
    ;

    /// Returns the number of characters in this set.
    fn len(&self) -> (n: u16)
        ensures
            n == self.spec_len(),
    ;
}

/// A charset that can also report the pixel size of one of its characters,
/// which a rendering collaborator needs to size drawing surfaces.
pub trait GuiCharset: Charset {
    /// The pixel size of a single character of the set.
    spec fn spec_char_size(&self) -> CanvasSize;

    /// Return the size of a character in the set in pixels.
    fn get_char_size(&self) -> (s: CanvasSize)
        ensures
            s == self.spec_char_size(),
    ;
}

/// The pixel size of the off-screen surface that fits a whole canvas: the
/// size of one character scaled by the canvas's dimensions in cells.
pub fn render_surface_size(char_size: CanvasSize, canvas_size: CanvasSize) -> (r: (u32, u32))
    ensures
        r.0 == char_size.width * canvas_size.width,
        r.1 == char_size.height * canvas_size.height,
{
    proof {
        assert(char_size.width * canvas_size.width <= 0xffff * 0xffff) by (nonlinear_arith)
            requires
                char_size.width <= 0xffff,
                canvas_size.width <= 0xffff,
        ;
        assert(char_size.height * canvas_size.height <= 0xffff * 0xffff) by (nonlinear_arith)
            requires
                char_size.height <= 0xffff,
                canvas_size.height <= 0xffff,
        ;
    }
    (
        (char_size.width as u32) * (canvas_size.width as u32),
        (char_size.height as u32) * (canvas_size.height as u32),
    )
}

} // verus!
