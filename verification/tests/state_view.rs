use fluss::dependencies::Dependencies;
use fluss::layout::LayoutMap;
use fluss::region::Region;
use fluss::state_view::{begin_layout, end_layout, mark_dirty};
use fluss::ui_state::Context;
use fluss::view_id::ViewId;
use kurbo::{Rect, Vec2};

#[test]
fn a_stateful_view_is_laid_out_again_only_after_a_dependency_changed() {
    let mut cx = Context::new();
    let mut deps = Dependencies::new();
    let mut layouts = LayoutMap::new();
    let path = vec![0];
    let id = cx.view_id(&path);
    let child = ViewId { id: 42 };
    cx.init_state(child);

    assert!(begin_layout(&mut cx, &mut deps, id));
    assert!(cx.has_state_exec(id));
    assert_eq!(deps.id_stack(), vec![id]);
    end_layout(&mut deps, &mut layouts, &path, id, &vec![child], Rect::new(0.0, 0.0, 3.0, 4.0));
    assert_eq!(deps.id_stack(), vec![]);
    assert_eq!(layouts.get_layout(&path), Rect::new(0.0, 0.0, 3.0, 4.0));

    // Nothing changed: the stored layout stands.
    assert!(!begin_layout(&mut cx, &mut deps, id));
    assert_eq!(deps.id_stack(), vec![]);

    // The child's state changed: the layout is computed again.
    cx.mark_written(child);
    assert!(begin_layout(&mut cx, &mut deps, id));
}

#[test]
fn a_changed_view_adds_its_moved_rect_to_the_dirty_region() {
    let mut cx = Context::new();
    let mut layouts = LayoutMap::new();
    let mut region = Region::empty();
    let path = vec![0, 1];
    let id = ViewId { id: 7 };
    layouts.update_layout(&path, Rect::new(0.0, 0.0, 2.0, 2.0));

    // Unchanged: nothing is added and the child is visited.
    assert!(mark_dirty(&mut cx, &layouts, &mut region, &path, id, Vec2::new(1.0, 1.0)));
    assert!(region.is_empty());
    assert!(cx.has_state_exec(id));

    cx.mark_written(id);
    assert!(!mark_dirty(&mut cx, &layouts, &mut region, &path, id, Vec2::new(1.0, 1.0)));
    assert_eq!(region.rects(), &[Rect::new(1.0, 1.0, 3.0, 3.0)]);
}
