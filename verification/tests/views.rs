use fluss::view_id::ViewId;
use fluss::views::{Touches, MAX_TOUCHES};

#[test]
fn a_tap_fires_when_the_touch_ends_on_the_view_that_took_it() {
    let mut t = Touches::new();
    let v = ViewId { id: 7 };
    let w = ViewId { id: 8 };
    assert_eq!(t.owner(0), ViewId::default());
    t.tap_begin(0, v, true);
    assert_eq!(t.owner(0), v);
    assert!(!t.tap_end(0, w));
    assert_eq!(t.owner(0), v);
    assert!(t.tap_end(0, v));
    assert_eq!(t.owner(0), ViewId::default());
    assert!(!t.tap_end(0, v));
}

#[test]
fn a_touch_that_missed_is_not_taken() {
    let mut t = Touches::new();
    let v = ViewId { id: 3 };
    t.tap_begin(MAX_TOUCHES - 1, v, false);
    assert_eq!(t.owner(MAX_TOUCHES - 1), ViewId::default());
    assert!(!t.tap_end(MAX_TOUCHES - 1, v));
}
