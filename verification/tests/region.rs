use glazier::kurbo::Rect;
use glazier::region::Region;

const UNIT: i64 = 65536;

fn rect(x0: i64, y0: i64, x1: i64, y1: i64) -> Rect {
    Rect::new(x0 * UNIT, y0 * UNIT, x1 * UNIT, y1 * UNIT)
}

#[test]
fn empty_region_has_no_rectangles() {
    let r = Region::empty();
    assert!(r.is_empty());
    assert!(r.rects().is_empty());
    assert_eq!(Region::default(), r);
}

#[test]
fn add_rect_keeps_order_and_skips_empty_rectangles() {
    let mut r = Region::empty();
    r.add_rect(rect(0, 0, 2, 2));
    r.add_rect(rect(5, 5, 5, 9));
    r.add_rect(rect(1, 1, 3, 3));
    assert_eq!(r.rects(), &vec![rect(0, 0, 2, 2), rect(1, 1, 3, 3)]);
    assert!(!r.is_empty());
}

#[test]
fn clear_and_take_empty_the_region() {
    let mut r = Region::empty();
    r.add_rect(rect(0, 0, 2, 2));
    let taken = r.take();
    assert_eq!(taken.rects(), &vec![rect(0, 0, 2, 2)]);
    assert!(r.is_empty());
    r.add_rect(rect(0, 0, 1, 1));
    r.clear();
    assert!(r.is_empty());
}

#[test]
fn clipping_cuts_to_bounds_and_drops_what_lies_outside() {
    let mut r = Region::empty();
    r.add_rect(rect(-5, -5, 5, 5));
    r.add_rect(rect(20, 20, 30, 30));
    r.add_rect(rect(8, 2, 12, 4));
    let clipped = r.clipped(&rect(0, 0, 10, 10));
    assert_eq!(clipped.rects(), &vec![rect(0, 0, 5, 5), rect(8, 2, 10, 4)]);
    assert_eq!(r.rects().len(), 3);
    assert!(r.clipped(&rect(100, 100, 101, 101)).is_empty());
}
