use fluss::region::Region;
use kurbo::{Rect, Vec2};

#[test]
fn zero_area_rects_are_not_added() {
    let mut r = Region::empty();
    assert!(r.is_empty());
    r.add_rect(Rect::new(0.0, 0.0, 0.0, 5.0));
    assert!(r.is_empty());
    r.add_rect(Rect::new(0.0, 0.0, 1.0, 1.0));
    assert_eq!(r.rects().len(), 1);
}

#[test]
fn set_rect_and_clear() {
    let mut r = Region::from_rect(Rect::new(0.0, 0.0, 1.0, 1.0));
    r.set_rect(Rect::new(2.0, 2.0, 3.0, 3.0));
    assert_eq!(r.rects(), &[Rect::new(2.0, 2.0, 3.0, 3.0)]);
    r.clear();
    assert!(r.is_empty());
}

#[test]
fn union_appends_rects_and_bounding_box_covers_them() {
    let mut r = Region::from_rect(Rect::new(0.0, 0.0, 1.0, 1.0));
    assert_eq!(r.bounding_box(), Rect::new(0.0, 0.0, 1.0, 1.0));
    let other = Region::from(Rect::new(4.0, 4.0, 5.0, 6.0));
    r.union_with(&other);
    assert_eq!(r.rects(), &[Rect::new(0.0, 0.0, 1.0, 1.0), Rect::new(4.0, 4.0, 5.0, 6.0)]);
    assert_eq!(r.bounding_box(), Rect::new(0.0, 0.0, 5.0, 6.0));
    assert_eq!(Region::empty().bounding_box(), Rect::default());
}

#[test]
fn intersects_only_overlapping_rects() {
    let r = Region::from_rect(Rect::new(0.0, 0.0, 2.0, 2.0));
    assert!(r.intersects(Rect::new(1.0, 1.0, 3.0, 3.0)));
    assert!(!r.intersects(Rect::new(5.0, 5.0, 6.0, 6.0)));
    assert!(!Region::empty().intersects(Rect::new(0.0, 0.0, 1.0, 1.0)));
}

#[test]
fn translation_moves_every_rect() {
    let mut r = Region::from_rect(Rect::new(0.0, 0.0, 1.0, 1.0));
    r += Vec2::new(2.0, 3.0);
    assert_eq!(r.rects(), &[Rect::new(2.0, 3.0, 3.0, 4.0)]);
    r -= Vec2::new(2.0, 3.0);
    assert_eq!(r.rects(), &[Rect::new(0.0, 0.0, 1.0, 1.0)]);
}

#[test]
fn a_region_from_a_zero_area_rect_is_empty() {
    assert!(Region::from_rect(Rect::new(1.0, 1.0, 1.0, 4.0)).is_empty());
    assert!(Region::from(Rect::ZERO).is_empty());
    assert_eq!(Region::from(Rect::new(0.0, 0.0, 1.0, 1.0)).rects().len(), 1);
}
