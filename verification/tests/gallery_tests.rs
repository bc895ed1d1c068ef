use sadie::gallery::{FrameRegistry, Gallery};
use sadie::geometry::ScreenPos;

#[derive(Debug, Clone, PartialEq, Eq)]
enum TestVariant {
    Picker(u16),
    Drawing(u16),
}

#[test]
fn registering_yields_increasing_identifiers() {
    let mut g = FrameRegistry::new();
    let a = g.add(TestVariant::Drawing(0));
    let b = g.add(TestVariant::Picker(1));
    let c = g.add(TestVariant::Picker(2));
    assert!(a < b && b < c);
    assert_eq!((a, b, c), (1, 2, 3));
}

#[test]
fn unknown_identifier_is_not_found() {
    let mut g = FrameRegistry::new();
    assert!(g.get_canvas(1).is_none());
    let id = g.add(TestVariant::Drawing(7));
    assert!(g.get_canvas(id + 1).is_none());
    assert!(g.get_canvas(99).is_none());
    assert!(g.get_canvas(id).is_some());
}

#[test]
fn get_canvas_returns_what_was_registered() {
    let mut g = FrameRegistry::new();
    let a = g.add(TestVariant::Drawing(4));
    let b = g.add(TestVariant::Picker(9));
    assert_eq!(g.get_canvas(a), Some(&TestVariant::Drawing(4)));
    assert_eq!(g.get_canvas(b), Some(&TestVariant::Picker(9)));
}

#[test]
fn all_ids_lists_every_registration() {
    let mut g = FrameRegistry::new();
    let a = g.add(TestVariant::Drawing(0));
    let b = g.add(TestVariant::Picker(1));
    assert_eq!(g.all_ids(), vec![a, b]);
}

#[test]
fn get_all_canvases_pairs_ids_with_contents() {
    let mut g = FrameRegistry::new();
    let a = g.add(TestVariant::Drawing(0));
    let b = g.add(TestVariant::Picker(1));
    let all = g.get_all_canvases();
    assert_eq!(all.len(), 2);
    assert_eq!(all[0], (a, &TestVariant::Drawing(0)));
    assert_eq!(all[1], (b, &TestVariant::Picker(1)));
}

#[test]
fn frames_start_at_zero_and_can_be_repositioned() {
    let mut g = FrameRegistry::new();
    let id = g.add(TestVariant::Picker(3));
    let f = g.get_frame(id).unwrap();
    assert_eq!((f.position.x, f.position.y), (0, 0));
    assert_eq!(f.contents, TestVariant::Picker(3));
    assert!(g.set_position(id, ScreenPos { x: 0, y: 200 }));
    let f = g.get_frame(id).unwrap();
    assert_eq!((f.position.x, f.position.y), (0, 200));
    assert_eq!(f.contents, TestVariant::Picker(3));
    assert!(!g.set_position(42, ScreenPos { x: 1, y: 1 }));
}
