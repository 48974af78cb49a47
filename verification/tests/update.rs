use fluss::dependencies::Dependencies;
use fluss::ui_state::Context;
use fluss::update::begin_update;
use fluss::view_id::ViewId;

#[test]
fn an_update_cleans_up_only_after_a_change_and_a_resize_forgets_dependencies() {
    let mut cx = Context::new();
    let mut deps = Dependencies::new();
    let v = ViewId { id: 1 };
    let s = ViewId { id: 2 };
    cx.init_state(s);
    deps.set_deps(v, vec![s]);

    assert!(!begin_update(&cx, &mut deps, false));
    assert!(!deps.needs_layout(&cx, v));

    cx.mark_written(s);
    assert!(begin_update(&cx, &mut deps, false));
    cx.clear_dirty();

    assert!(!begin_update(&cx, &mut deps, true));
    assert!(deps.needs_layout(&cx, v));
}
