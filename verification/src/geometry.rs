//! Plain two-dimensional coordinate and size values used throughout the
//! canvas model.

use vstd::prelude::*;

verus! {

/// An unsigned position of a cell on a canvas.
#[derive(Clone, Copy, Debug, PartialEq, Eq, Structural)]
pub struct CanvasPos {
    pub x: u16,
    pub y: u16,
}

/// The width and height of a grid or canvas, measured in cells.
#[derive(Clone, Copy, Debug, PartialEq, Eq, Structural)]
pub struct CanvasSize {
    pub width: u16,
    pub height: u16,
}

impl CanvasSize {
    /// The number of cells a grid of this size holds.
    pub open spec fn spec_area(&self) -> int {
        self.width * self.height
    }
}

/// A signed two-dimensional displacement, e.g. of a cursor.
#[derive(Clone, Copy, Debug, PartialEq, Eq, Structural)]
pub struct Delta {
    pub x: i32,
    pub y: i32,
}

/// A signed screen position at which a frame is placed.
#[derive(Clone, Copy, Debug, PartialEq, Eq, Structural)]
pub struct ScreenPos {
    pub x: i32,
    pub y: i32,
}

} // verus!
