use std::collections::HashMap;

use sadie::canvas::CanvasBuilder;
use sadie::charset::{CharID, Charset, GuiCharset};
use sadie::charset::render_surface_size;
use sadie::geometry::CanvasSize;
use sadie::palette::{pico8, Palette, Rgba};

#[derive(Clone)]
struct MockCharset<T> {
    map: HashMap<CharID, T>,
}

#[derive(Clone)]
enum Flowers {
    Dandelion,
    Rose,
    Peony,
    Mums,
}

impl<T: Clone> Charset for MockCharset<T> {
    type Item = T;

    // the spec items exist in the compiled trait too; outside the verified
    // crate they mirror the executable methods and are never called
    fn spec_len(&self) -> u16 {
        self.map.len() as u16
    }

    fn spec_get_char(&self, id: CharID) -> Self::Item {
        self.map.get(&id).unwrap().clone()
    }

    fn get_char(&self, id: CharID) -> Self::Item {
        self.map.get(&id).unwrap().clone()
    }

    fn len(&self) -> u16 {
        self.map.len() as u16
    }
}

fn flowers_map() -> HashMap<CharID, Flowers> {
    HashMap::from([
        (0, Flowers::Dandelion),
        (1, Flowers::Rose),
        (2, Flowers::Peony),
        (3, Flowers::Mums),
    ])
}

#[derive(Debug, Clone, Eq, PartialEq)]
enum Soil {
    Brown,
    Green,
}

impl Default for Soil {
    fn default() -> Self {
        Soil::Brown
    }
}

type Cell = (u16, Soil);

#[test]
fn canvas_putting_in_attributes() {
    let mut canvas = CanvasBuilder::<MockCharset<Flowers>, Soil>::init(MockCharset {
        map: flowers_map(),
    })
    .size(CanvasSize { width: 8, height: 8 })
    .build();

    assert_eq!(
        canvas.iter().iter().collect::<Vec<&Cell>>(),
        vec![(0, Soil::Brown); 8 * 8].iter().collect::<Vec<&Cell>>()
    );

    canvas.get_mut(4, 4).1 = Soil::Green;
    assert_eq!(canvas.get(4, 4), &(0, Soil::Green));
}

#[derive(Debug, Clone, Eq, PartialEq)]
enum ModelSoil {
    Brown,
    #[allow(dead_code)]
    Black,
    Green,
}

impl Default for ModelSoil {
    fn default() -> Self {
        ModelSoil::Brown
    }
}

type ModelCell = (u16, ModelSoil);

#[test]
fn model_putting_in_attributes() {
    let mut canvas = CanvasBuilder::<MockCharset<Flowers>, ModelSoil>::init(MockCharset {
        map: flowers_map(),
    })
    .size(CanvasSize { width: 8, height: 8 })
    .build();

    assert_eq!(
        canvas.iter().iter().collect::<Vec<&ModelCell>>(),
        vec![(0, ModelSoil::Brown); 8 * 8].iter().collect::<Vec<&ModelCell>>()
    );

    canvas.get_mut(4, 4).1 = ModelSoil::Green;
    assert_eq!(canvas.get(4, 4), &(0, ModelSoil::Green));
}

#[test]
fn builder_default_size_and_cursor() {
    let canvas = CanvasBuilder::<Palette, ()>::init(Palette::default()).build();
    let size = canvas.size();
    assert_eq!((size.width, size.height), (16, 1));
    let cursors = canvas.cursors();
    assert_eq!(cursors.len(), 1);
    let p = cursors[0].position();
    assert_eq!((p.x, p.y), (0, 0));
    assert_eq!(cursors[0].origin(), None);
    let b = cursors[0].bounds();
    assert_eq!((b.width, b.height), (16, 1));
}

#[test]
fn char_cascade_assigns_indices() {
    let canvas = CanvasBuilder::<Palette, ()>::init(Palette::default())
        .char_cascade()
        .build();
    assert_eq!(canvas.len(), 16);
    for (i, cell) in canvas.iter().iter().enumerate() {
        assert_eq!(cell.0 as usize, i);
    }
}

#[test]
fn char_cascade_clamps_past_charset() {
    let canvas = CanvasBuilder::<Palette, ()>::init(Palette::default())
        .size(CanvasSize { width: 20, height: 1 })
        .char_cascade()
        .build();
    assert_eq!(canvas.len(), 20);
    for (i, cell) in canvas.iter().iter().enumerate() {
        if i < 16 {
            assert_eq!(cell.0 as usize, i);
        } else {
            assert_eq!(cell.0, 0);
        }
    }
}

#[test]
fn cells_row_major_order() {
    let canvas = CanvasBuilder::<Palette, ()>::init(Palette::default())
        .size(CanvasSize { width: 4, height: 2 })
        .char_cascade()
        .build();
    let cells = canvas.cells();
    assert_eq!(cells.len(), 8);
    for (k, cell) in cells.iter().enumerate() {
        assert_eq!(cell.0 as usize, k % 4);
        assert_eq!(cell.1 as usize, k / 4);
    }
    for k in 0..cells.len() - 1 {
        let (x1, y1) = (cells[k].0, cells[k].1);
        let (x2, y2) = (cells[k + 1].0, cells[k + 1].1);
        if (k + 1) % 4 == 0 {
            assert_eq!((x2, y2), (0, y1 + 1));
        } else {
            assert_eq!((x2, y2), (x1 + 1, y1));
        }
    }
}

#[test]
fn cells_resolve_through_charset() {
    let canvas = CanvasBuilder::<Palette, ()>::init(Palette::default())
        .char_cascade()
        .build();
    let colors = pico8();
    let cells = canvas.cells();
    for (k, cell) in cells.iter().enumerate() {
        assert_eq!(cell.2, colors[k]);
    }
    assert_eq!(cells[2].2, Rgba { r: 126, g: 37, b: 83, a: 255 });
}

#[test]
fn set_size_updates_every_cursor_bounds() {
    let mut canvas = CanvasBuilder::<Palette, ()>::init(Palette::default())
        .size(CanvasSize { width: 8, height: 8 })
        .cursor_position(3, 3)
        .cursor_position(7, 0)
        .build();
    canvas.set_size(CanvasSize { width: 4, height: 16 });
    let size = canvas.size();
    assert_eq!((size.width, size.height), (4, 16));
    let cursors = canvas.cursors();
    assert_eq!(cursors.len(), 2);
    for c in cursors {
        let b = c.bounds();
        assert_eq!((b.width, b.height), (4, 16));
    }
    // positions are not re-clamped, even if one now lies out of bounds
    let p = cursors[1].position();
    assert_eq!((p.x, p.y), (7, 0));
}

#[test]
fn builder_width_height_overrides() {
    let canvas = CanvasBuilder::<Palette, ()>::init(Palette::default())
        .width(4)
        .height(3)
        .build();
    let size = canvas.size();
    assert_eq!((size.width, size.height), (4, 3));
    assert_eq!(canvas.len(), 12);
}

#[test]
fn default_cells_generator_runs_per_index() {
    let canvas = CanvasBuilder::<Palette, u8>::init(Palette::default())
        .size(CanvasSize { width: 3, height: 2 })
        .default_cells(|id, _c| (id * 2, 5u8))
        .build();
    for (i, cell) in canvas.iter().iter().enumerate() {
        assert_eq!(cell.0 as usize, i * 2);
        assert_eq!(cell.1, 5);
    }
}

#[test]
fn iter_mut_writes_through() {
    let mut canvas = CanvasBuilder::<Palette, ()>::init(Palette::default()).build();
    for (i, cell) in canvas.iter_mut().iter_mut().enumerate() {
        cell.0 = (15 - i) as u16;
    }
    for (i, cell) in canvas.iter().iter().enumerate() {
        assert_eq!(cell.0 as usize, 15 - i);
    }
}

#[test]
fn charset_accessor_returns_the_charset() {
    let canvas = CanvasBuilder::<Palette, ()>::init(Palette::default()).build();
    assert_eq!(canvas.charset().len(), 16);
    let cs = canvas.charset().get_char_size();
    assert_eq!((cs.width, cs.height), (8, 8));
}

#[test]
fn palette_default_is_pico8() {
    let p = Palette::default();
    assert_eq!(p.len(), 16);
    assert_eq!(p.get_char(0), Rgba { r: 0, g: 0, b: 0, a: 255 });
    assert_eq!(p.get_char(8), Rgba { r: 255, g: 0, b: 77, a: 255 });
    let q = p.clone();
    assert_eq!(q.len(), 16);
    assert_eq!(q.get_char(15), Rgba { r: 255, g: 204, b: 170, a: 255 });
}

#[test]
fn palette_from_colors() {
    let p = Palette::from_colors(
        vec![Rgba { r: 1, g: 2, b: 3, a: 4 }, Rgba { r: 5, g: 6, b: 7, a: 8 }],
        CanvasSize { width: 2, height: 2 },
    );
    assert_eq!(p.len(), 2);
    assert_eq!(p.get_char(1), Rgba { r: 5, g: 6, b: 7, a: 8 });
    let cs = p.get_char_size();
    assert_eq!((cs.width, cs.height), (2, 2));
}

#[test]
fn zero_sized_canvas_iterates_empty() {
    let canvas = CanvasBuilder::<Palette, ()>::init(Palette::default())
        .size(CanvasSize { width: 0, height: 0 })
        .build();
    assert_eq!(canvas.len(), 0);
    assert!(canvas.iter().is_empty());
    assert!(canvas.cells().is_empty());
    assert_eq!(canvas.cursors().len(), 1);
}

#[test]
fn empty_charset_gives_an_empty_default_canvas() {
    let canvas = CanvasBuilder::<MockCharset<Flowers>, ()>::init(MockCharset {
        map: HashMap::new(),
    })
    .build();
    assert_eq!(canvas.len(), 0);
    assert!(canvas.iter().is_empty());
    assert_eq!(canvas.cursors().len(), 1);
}

#[test]
fn render_surface_scales_by_char_size() {
    let r = render_surface_size(
        CanvasSize { width: 8, height: 8 },
        CanvasSize { width: 12, height: 8 },
    );
    assert_eq!(r, (96, 64));
}
