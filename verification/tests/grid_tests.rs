use sadie::array2d::Array2D;

#[derive(Debug, Eq, PartialEq)]
enum MockType {
    A,
    B,
}

impl Default for MockType {
    fn default() -> Self {
        MockType::A
    }
}

#[test]
fn manipulation() {
    let mut a = Array2D::<MockType>::new(2, 2);
    assert_eq!(a.len(), 4);
    assert_eq!(*a.get(0, 0), MockType::A);
    *a.get_mut(0, 0) = MockType::B;
    assert_eq!(*a.get(0, 0), MockType::B);
}

#[test]
fn new_fills_with_defaults() {
    let g = Array2D::<u16>::new(3, 2);
    assert_eq!(g.len(), 6);
    for cell in g.slice() {
        assert_eq!(*cell, 0);
    }
    let empty = Array2D::<u16>::new(0, 5);
    assert_eq!(empty.len(), 0);
}

#[test]
fn index_to_coord_round_trip() {
    let g = Array2D::<u8>::new(4, 3);
    for i in 0..g.len() {
        let (x, y) = g.index_to_coord(i);
        assert_eq!((y as usize) * 4 + (x as usize), i);
    }
    assert_eq!(g.index_to_coord(7), (3, 1));
    assert_eq!(g.index_to_coord(0), (0, 0));
    assert_eq!(g.index_to_coord(11), (3, 2));
}

#[test]
fn sides_and_set_width() {
    let mut g = Array2D::<u8>::new(4, 4);
    let s = g.sides();
    assert_eq!((s.width, s.height), (4, 4));
    g.set_width(2);
    let s = g.sides();
    assert_eq!((s.width, s.height), (2, 8));
    assert_eq!(g.len(), 16);
}

#[test]
fn from_parts_reinterprets() {
    let g = Array2D::from_parts(vec![1u8, 2, 3, 4, 5, 6], 3);
    assert_eq!(g.len(), 6);
    assert_eq!(*g.get(2, 1), 6);
    assert_eq!(g.slice(), &[1, 2, 3, 4, 5, 6]);
}

#[test]
fn write_is_local() {
    let mut g = Array2D::<u8>::new(3, 3);
    *g.get_mut(1, 2) = 9;
    for i in 0..g.len() {
        let (x, y) = g.index_to_coord(i);
        if (x, y) == (1, 2) {
            assert_eq!(*g.get(x, y), 9);
        } else {
            assert_eq!(*g.get(x, y), 0);
        }
    }
}

#[test]
fn mut_slice_writes_through() {
    let mut g = Array2D::<u8>::new(2, 2);
    let s = g.mut_slice();
    s[3] = 7;
    assert_eq!(*g.get(1, 1), 7);
}
