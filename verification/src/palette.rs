//! A palette charset: resolves each id to a flat color, for canvases whose
//! "characters" are colored squares (e.g. a color picker).

use vstd::prelude::*;
use crate::charset::{CharID, Charset, GuiCharset};
use crate::geometry::CanvasSize;

verus! {

/// A flat color with an alpha channel.
#[derive(Clone, Copy, Debug, PartialEq, Eq, Structural)]
pub struct Rgba {
    pub r: u8,
    pub g: u8,
    pub b: u8,
    pub a: u8,
}

/// A charset whose items are colors, together with the pixel size one color
/// square is drawn at.
pub struct Palette {
    colors: Vec<Rgba>,
    char_size: CanvasSize,
}

impl Clone for Palette {
    /// Palettes are cheaply duplicable: the copy resolves the same ids to
    /// the same colors.
    fn clone(&self) -> (r: Self)
        ensures
            r.spec_colors() == self.spec_colors(),
            r.spec_char_size() == self.spec_char_size(),
    {
        proof {
            use_type_invariant(self);
        }
        let colors = self.colors.clone();
        proof {
            assert(colors@ =~= self.colors@);
        }
        Palette { colors, char_size: self.char_size }
    }
}

impl Palette {
    /// Every id a palette resolves must fit the 16-bit id space.
    #[verifier::type_invariant]
    closed spec fn type_inv(&self) -> bool {
        self.colors@.len() <= u16::MAX
    }

    /// The colors this palette resolves ids to, in id order.
    pub closed spec fn spec_colors(&self) -> Seq<Rgba> {
        self.colors@
    }

    /// Builds a palette from a list of colors and the pixel size to draw one
    /// color square at.
    pub fn from_colors(colors: Vec<Rgba>, char_size: CanvasSize) -> (p: Self)
        requires
            colors@.len() <= u16::MAX,
        ensures
            p.spec_colors() == colors@,
            p.spec_char_size() == char_size,
            p.spec_len() == colors@.len(),
            forall|id: CharID| id < colors@.len() ==> p.spec_get_char(id) == colors@[id as int],
    {
        Self { colors, char_size }
    }
}

impl Charset for Palette {
    type Item = Rgba;

    closed spec fn spec_len(&self) -> u16 {
        self.colors@.len() as u16
    }

    closed spec fn spec_get_char(&self, id: CharID) -> Rgba {
        self.colors@[id as int]
    }

    fn get_char(&self, id: CharID) -> (r: Rgba) {
        proof {
            use_type_invariant(self);
        }
        self.colors[id as usize]
    }

    fn len(&self) -> (n: u16) {
        proof {
            use_type_invariant(self);
        }
        self.colors.len() as u16
    }
}

impl GuiCharset for Palette {
    closed spec fn spec_char_size(&self) -> CanvasSize {
        self.char_size
    }

    fn get_char_size(&self) -> (s: CanvasSize) {
        self.char_size
    }
}

/// The sixteen colors of the PICO-8 palette, in id order.
pub open spec fn pico8_colors() -> Seq<Rgba> {
    seq![
        (Rgba { r: 0, g: 0, b: 0, a: 255 }),
        (Rgba { r: 29, g: 43, b: 83, a: 255 }),
        (Rgba { r: 126, g: 37, b: 83, a: 255 }),
        (Rgba { r: 0, g: 135, b: 81, a: 255 }),
        (Rgba { r: 171, g: 82, b: 54, a: 255 }),
        (Rgba { r: 95, g: 87, b: 79, a: 255 }),
        (Rgba { r: 194, g: 195, b: 199, a: 255 }),
        (Rgba { r: 255, g: 241, b: 232, a: 255 }),
        (Rgba { r: 255, g: 0, b: 77, a: 255 }),
        (Rgba { r: 255, g: 163, b: 0, a: 255 }),
        (Rgba { r: 255, g: 236, b: 39, a: 255 }),
        (Rgba { r: 0, g: 228, b: 54, a: 255 }),
        (Rgba { r: 41, g: 173, b: 255, a: 255 }),
        (Rgba { r: 131, g: 118, b: 156, a: 255 }),
        (Rgba { r: 255, g: 119, b: 168, a: 255 }),
        (Rgba { r: 255, g: 204, b: 170, a: 255 }),
    ]
}

/// Builds the PICO-8 color list.
pub fn pico8() -> (v: Vec<Rgba>)
    ensures
        v@ == pico8_colors(),
{
    let mut v: Vec<Rgba> = Vec::new();
    v.push(Rgba { r: 0, g: 0, b: 0, a: 255 });
    v.push(Rgba { r: 29, g: 43, b: 83, a: 255 });
    v.push(Rgba { r: 126, g: 37, b: 83, a: 255 });
    v.push(Rgba { r: 0, g: 135, b: 81, a: 255 });
    v.push(Rgba { r: 171, g: 82, b: 54, a: 255 });
    v.push(Rgba { r: 95, g: 87, b: 79, a: 255 });
    v.push(Rgba { r: 194, g: 195, b: 199, a: 255 });
    v.push(Rgba { r: 255, g: 241, b: 232, a: 255 });
    v.push(Rgba { r: 255, g: 0, b: 77, a: 255 });
    v.push(Rgba { r: 255, g: 163, b: 0, a: 255 });
    v.push(Rgba { r: 255, g: 236, b: 39, a: 255 });
    v.push(Rgba { r: 0, g: 228, b: 54, a: 255 });
    v.push(Rgba { r: 41, g: 173, b: 255, a: 255 });
    v.push(Rgba { r: 131, g: 118, b: 156, a: 255 });
    v.push(Rgba { r: 255, g: 119, b: 168, a: 255 });
    v.push(Rgba { r: 255, g: 204, b: 170, a: 255 });
    proof {
        assert(v@ =~= pico8_colors());
    }
    v
}

impl Default for Palette {
    /// The default palette is PICO-8, drawn at eight-by-eight pixels per
    /// square.
    fn default() -> (p: Self)
        ensures
            p.spec_colors() == pico8_colors(),
            p.spec_len() == 16,
            forall|id: CharID| id < 16 ==> p.spec_get_char(id) == pico8_colors()[id as int],
            p.spec_char_size() == (CanvasSize { width: 8, height: 8 }),
    {
        let p = Palette::from_colors(pico8(), CanvasSize { width: 8, height: 8 });
        proof {
            assert(p.spec_len() == 16);
        }
        p
    }
}

} // verus!
