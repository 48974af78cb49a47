use fluss::ui_state::Context;
use fluss::view_id::ViewId;

#[test]
fn a_path_keeps_its_id_and_new_paths_get_new_ids() {
    let mut cx = Context::new();
    let a = cx.view_id(&vec![1, 2]);
    let b = cx.view_id(&vec![1, 3]);
    let a2 = cx.view_id(&vec![1, 2]);
    assert_eq!(a, ViewId { id: 0 });
    assert_eq!(b, ViewId { id: 1 });
    assert_eq!(a2, a);
    let c = cx.view_id(&vec![]);
    assert_eq!(c, ViewId { id: 2 });
}

#[test]
fn state_is_created_once() {
    let mut cx = Context::new();
    let id = ViewId { id: 5 };
    assert!(!cx.has_state_exec(id));
    assert!(cx.init_state(id));
    assert!(cx.has_state_exec(id));
    assert!(!cx.init_state(id));
    assert!(!cx.is_state_dirty(id));
}

#[test]
fn writes_mark_state_and_tree_dirty_until_cleared() {
    let mut cx = Context::new();
    let id = ViewId { id: 1 };
    let other = ViewId { id: 2 };
    cx.init_state(id);
    cx.init_state(other);
    assert!(!cx.dirty());
    cx.mark_written(id);
    assert!(cx.dirty());
    assert!(cx.is_state_dirty(id));
    assert!(!cx.is_state_dirty(other));
    cx.clear_dirty();
    assert!(!cx.dirty());
    assert!(!cx.is_state_dirty(id));
    assert!(cx.has_state_exec(id));
}

#[test]
fn writes_while_recording_is_off_leave_the_tree_clean() {
    let mut cx = Context::new();
    let id = ViewId { id: 3 };
    cx.init_state(id);
    cx.set_dirty_enabled(false);
    cx.mark_written(id);
    assert!(!cx.dirty());
    assert!(cx.is_state_dirty(id));
    cx.set_dirty_enabled(true);
    cx.set_dirty();
    assert!(cx.dirty());
}

#[test]
fn set_state_replaces_with_an_unchanged_state() {
    let mut cx = Context::new();
    let id = ViewId { id: 4 };
    cx.set_state(id);
    assert!(cx.has_state_exec(id));
    cx.mark_written(id);
    cx.set_state(id);
    assert!(!cx.is_state_dirty(id));
}

#[test]
fn retain_states_drops_the_others() {
    let mut cx = Context::new();
    let a = ViewId { id: 1 };
    let b = ViewId { id: 2 };
    let c = ViewId { id: 3 };
    cx.init_state(a);
    cx.init_state(b);
    cx.init_state(c);
    cx.mark_written(c);
    cx.retain_states(&vec![c, a]);
    assert!(cx.has_state_exec(a));
    assert!(!cx.has_state_exec(b));
    assert!(cx.has_state_exec(c));
    assert!(cx.is_state_dirty(c));
}

#[test]
fn contains_id_finds_ids() {
    let ids = vec![ViewId { id: 1 }, ViewId { id: 9 }];
    assert!(fluss::ui_state::contains_id(&ids, ViewId { id: 9 }));
    assert!(!fluss::ui_state::contains_id(&ids, ViewId { id: 2 }));
}
