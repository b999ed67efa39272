use wlte::{Bounds, CellMetrics, Position, Size};

fn boxed<T>(x: T, y: T, w: T, h: T) -> Bounds<T> {
    Bounds { pos: Position { x, y }, size: Size { w, h } }
}

#[test]
fn edges_of_a_box() {
    let b = boxed(3u32, 5, 40, 20);
    assert_eq!(b.left(), 3);
    assert_eq!(b.top(), 5);
    assert_eq!(b.right(), 43);
    assert_eq!(b.bottom(), 25);
}

#[test]
fn edges_of_a_box_with_negative_corner() {
    let b = boxed(-30i64, -7, 10, 7);
    assert_eq!(b.left(), -30);
    assert_eq!(b.top(), -7);
    assert_eq!(b.right(), -20);
    assert_eq!(b.bottom(), 0);
}

#[test]
fn edges_of_an_empty_box_coincide() {
    let b = boxed(9u32, 4, 0, 0);
    assert_eq!(b.left(), b.right());
    assert_eq!(b.top(), b.bottom());
}

#[test]
fn cell_metrics_need_both_sides() {
    assert!(CellMetrics::new(0, 16).is_none());
    assert!(CellMetrics::new(8, 0).is_none());
    assert!(CellMetrics::new(0, 0).is_none());
    let cell = CellMetrics::new(8, 16).unwrap();
    assert_eq!(cell.width(), 8);
    assert_eq!(cell.height(), 16);
}

#[test]
fn whole_cells_in_an_area() {
    let cell = CellMetrics::new(8, 16).unwrap();
    assert_eq!(cell.cells_in(Size { w: 400, h: 160 }), Size { w: 50, h: 10 });
    assert_eq!(cell.cells_in(Size { w: 407, h: 175 }), Size { w: 50, h: 10 });
    assert_eq!(cell.cells_in(Size { w: 7, h: 15 }), Size { w: 0, h: 0 });
    assert_eq!(cell.cells_in(Size { w: 0, h: 0 }), Size { w: 0, h: 0 });
}

#[test]
fn box_of_a_cell() {
    let cell = CellMetrics::new(8, 16).unwrap();
    assert_eq!(cell.cell_bounds(0, 0), boxed(0, 0, 8, 16));
    assert_eq!(cell.cell_bounds(9, 3), boxed(24, 144, 8, 16));
}

#[test]
fn box_of_a_cell_beyond_the_pixel_range() {
    let cell = CellMetrics::new(u32::MAX, u32::MAX).unwrap();
    let far = cell.cell_bounds(usize::MAX, usize::MAX);
    assert_eq!(far.pos, Position { x: i64::MAX, y: i64::MAX });
    assert_eq!(far.size, Size { w: u32::MAX as i64, h: u32::MAX as i64 });
}

#[test]
fn nearest_pixel() {
    assert_eq!(wlte::base::pixel::saturate(0), 0);
    assert_eq!(wlte::base::pixel::saturate(-12345), -12345);
    assert_eq!(wlte::base::pixel::saturate(i64::MAX as i128), i64::MAX);
    assert_eq!(wlte::base::pixel::saturate(i64::MAX as i128 + 1), i64::MAX);
    assert_eq!(wlte::base::pixel::saturate(i64::MIN as i128), i64::MIN);
    assert_eq!(wlte::base::pixel::saturate(i64::MIN as i128 - 1), i64::MIN);
    assert_eq!(wlte::base::pixel::saturate(i128::MAX), i64::MAX);
    assert_eq!(wlte::base::pixel::saturate(i128::MIN), i64::MIN);
}
