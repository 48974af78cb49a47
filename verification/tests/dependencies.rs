use fluss::dependencies::Dependencies;
use fluss::ui_state::Context;
use fluss::view_id::ViewId;

#[test]
fn views_without_dependencies_need_layout() {
    let deps = Dependencies::new();
    let cx = Context::new();
    assert!(deps.needs_layout(&cx, ViewId { id: 1 }));
}

#[test]
fn layout_is_needed_when_a_dependency_changed() {
    let mut deps = Dependencies::new();
    let mut cx = Context::new();
    let v = ViewId { id: 1 };
    let s = ViewId { id: 2 };
    let t = ViewId { id: 3 };
    cx.init_state(s);
    cx.init_state(t);
    deps.set_deps(v, vec![s, t]);
    assert!(!deps.needs_layout(&cx, v));
    cx.mark_written(t);
    assert!(deps.needs_layout(&cx, v));
    cx.clear_dirty();
    assert!(!deps.needs_layout(&cx, v));
    deps.set_deps(v, vec![]);
    cx.mark_written(s);
    assert!(!deps.needs_layout(&cx, v));
    deps.clear();
    assert!(deps.needs_layout(&cx, v));
}

#[test]
fn the_id_stack_pushes_and_pops() {
    let mut deps = Dependencies::new();
    deps.pop_id();
    assert_eq!(deps.id_stack(), vec![]);
    deps.push_id(ViewId { id: 4 });
    deps.push_id(ViewId { id: 5 });
    assert_eq!(deps.id_stack(), vec![ViewId { id: 4 }, ViewId { id: 5 }]);
    deps.pop_id();
    assert_eq!(deps.id_stack(), vec![ViewId { id: 4 }]);
}

#[test]
fn finishing_a_layout_records_the_stack_and_the_child_views() {
    let mut deps = Dependencies::new();
    let outer = ViewId { id: 1 };
    let inner = ViewId { id: 2 };
    let child = ViewId { id: 3 };
    let mut cx = Context::new();
    cx.init_state(outer);
    cx.init_state(inner);
    cx.init_state(child);
    deps.push_id(outer);
    deps.push_id(inner);
    deps.finish_layout(inner, &vec![child]);
    assert_eq!(deps.id_stack(), vec![outer]);
    // The inner view depends on the outer one, itself and its child.
    assert!(!deps.needs_layout(&cx, inner));
    cx.mark_written(outer);
    assert!(deps.needs_layout(&cx, inner));
    cx.clear_dirty();
    cx.mark_written(child);
    assert!(deps.needs_layout(&cx, inner));
    deps.finish_layout(outer, &vec![]);
    assert_eq!(deps.id_stack(), vec![]);
    cx.clear_dirty();
    cx.mark_written(inner);
    assert!(!deps.needs_layout(&cx, outer));
}
