use fluss::layout::{retain_views, LayoutMap};
use fluss::ui_state::Context;
use fluss::view_id::ViewId;
use kurbo::{Rect, Vec2};

#[test]
fn a_layout_is_read_back_after_it_is_stored() {
    let mut m = LayoutMap::new();
    let a = Rect::new(0.0, 0.0, 10.0, 20.0);
    let b = Rect::new(5.0, 5.0, 6.0, 6.0);
    m.update_layout(&vec![0, 1], a);
    m.update_layout(&vec![0, 2], b);
    assert_eq!(m.get_layout(&vec![0, 1]), a);
    assert_eq!(m.get_layout(&vec![0, 2]), b);
    m.update_layout(&vec![0, 1], b);
    assert_eq!(m.get_layout(&vec![0, 1]), b);
}

#[test]
fn a_view_never_laid_out_gets_the_default_rect() {
    let m = LayoutMap::new();
    assert_eq!(m.get_layout(&vec![3]), Rect::default());
}

#[test]
fn retain_layouts_keeps_only_kept_views() {
    let mut m = LayoutMap::new();
    let mut cx = Context::new();
    let a = Rect::new(0.0, 0.0, 1.0, 1.0);
    let b = Rect::new(0.0, 0.0, 2.0, 2.0);
    let id_a = cx.view_id(&vec![1]);
    m.update_layout(&vec![1], a);
    m.update_layout(&vec![2], b);
    m.retain_layouts(&mut cx, &vec![id_a]);
    assert_eq!(m.get_layout(&vec![1]), a);
    assert_eq!(m.get_layout(&vec![2]), Rect::default());
    // The path laid out without an id got one, after the first.
    assert_eq!(cx.view_id(&vec![1]), id_a);
    assert_eq!(cx.view_id(&vec![2]).id, id_a.id + 1);
}

#[test]
fn set_layout_offset_moves_the_rect_keeping_its_size() {
    let mut m = LayoutMap::new();
    m.update_layout(&vec![1], Rect::new(0.0, 0.0, 4.0, 3.0));
    m.set_layout_offset(&vec![1], Vec2::new(10.0, 20.0));
    assert_eq!(m.get_layout(&vec![1]), Rect::new(10.0, 20.0, 14.0, 23.0));
    m.set_layout_offset(&vec![2], Vec2::new(1.0, 2.0));
    assert_eq!(m.get_layout(&vec![2]), Rect::new(1.0, 2.0, 1.0, 2.0));
}

#[test]
fn retain_views_drops_state_and_layout_of_views_gone() {
    let mut cx = Context::new();
    let mut m = LayoutMap::new();
    let a = cx.view_id(&vec![0]);
    let b = cx.view_id(&vec![0, 0]);
    cx.init_state(a);
    cx.init_state(b);
    m.update_layout(&vec![0], Rect::new(0.0, 0.0, 1.0, 1.0));
    m.update_layout(&vec![0, 0], Rect::new(0.0, 0.0, 2.0, 2.0));
    retain_views(&mut cx, &mut m, &vec![a]);
    assert!(cx.has_state_exec(a));
    assert!(!cx.has_state_exec(b));
    assert_eq!(m.get_layout(&vec![0]), Rect::new(0.0, 0.0, 1.0, 1.0));
    assert_eq!(m.get_layout(&vec![0, 0]), Rect::default());
    assert_eq!(cx.view_id(&vec![0, 0]), b);
    assert_ne!(a, ViewId { id: 99 });
}
