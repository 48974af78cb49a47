use fluss::drawer_state::{
    fallback_monospace_font, fallback_serif_font, DrawerError, DrawerState, FontId, PaintId,
};

#[test]
fn fallback_fonts() {
    assert_eq!(fallback_serif_font(), FontId { id: 0 });
    assert_eq!(fallback_monospace_font(), FontId { id: 1 });
}

#[test]
fn fast_paints_are_found_until_clear() {
    let mut d: DrawerState<&str, &str> = DrawerState::new();
    let p0 = d.create_fast_paint("red").unwrap();
    let p1 = d.create_fast_paint("blue").unwrap();
    assert_eq!(p0, PaintId { id: 0, is_static: false });
    assert_eq!(p1, PaintId { id: 1, is_static: false });
    assert_eq!(d.get_paint(p0), Ok(&"red"));
    assert_eq!(d.get_paint(p1), Ok(&"blue"));
    d.clear();
    assert_eq!(d.get_paint(p0), Err(DrawerError::NoPaint(p0)));
    let p2 = d.create_fast_paint("green").unwrap();
    assert_eq!(p2, PaintId { id: 2, is_static: false });
}

#[test]
fn static_paints_survive_clear_and_can_be_removed() {
    let mut d: DrawerState<&str, &str> = DrawerState::new();
    let s0 = d.create_static_paint("grey").unwrap();
    assert_eq!(s0, PaintId { id: 0, is_static: true });
    d.clear();
    assert_eq!(d.get_paint(s0), Ok(&"grey"));
    assert_eq!(d.remove_static_paint(s0), Ok(()));
    assert_eq!(d.get_paint(s0), Err(DrawerError::NoPaint(s0)));
    assert_eq!(d.remove_static_paint(s0), Err(DrawerError::NoPaint(s0)));
}

#[test]
fn static_paint_is_stored_under_the_fast_paint_count() {
    let mut d: DrawerState<&str, &str> = DrawerState::new();
    d.create_fast_paint("red").unwrap();
    let s0 = d.create_static_paint("grey").unwrap();
    assert_eq!(s0, PaintId { id: 0, is_static: true });
    assert_eq!(d.get_paint(s0), Err(DrawerError::NoPaint(s0)));
    assert_eq!(d.get_paint(PaintId { id: 1, is_static: true }), Ok(&"grey"));
}

#[test]
fn fonts_are_created_found_and_removed() {
    let mut d: DrawerState<&str, &str> = DrawerState::new();
    let f0 = d.create_font("serif").unwrap();
    let f1 = d.create_font("mono").unwrap();
    assert_eq!(f0, FontId { id: 0 });
    assert_eq!(f1, FontId { id: 1 });
    assert_eq!(d.get_font(f1), Ok(&"mono"));
    assert_eq!(d.remove_font(f0), Ok(()));
    assert_eq!(d.get_font(f0), Err(DrawerError::NoFont(f0)));
    assert_eq!(d.remove_font(f0), Err(DrawerError::NoFont(f0)));
    assert_eq!(d.get_font(FontId { id: 7 }), Err(DrawerError::NoFont(FontId { id: 7 })));
}
