use fluss::binding::{Lens, MapBinding, StateHandle};
use fluss::view_id::ViewId;

#[derive(Clone, Default)]
struct MyState {
    x: i32,
}

#[derive(Clone, Copy)]
struct MyLens {}

impl Lens<MyState, i32> for MyLens {
    fn focus<'a>(&self, data: &'a MyState) -> &'a i32 {
        &data.x
    }

    fn focus_mut<'a>(&self, data: &'a mut MyState) -> &'a mut i32 {
        &mut data.x
    }
}

#[test]
fn test_lens() {
    let mut s = MyState { x: 0 };
    *MyLens {}.focus_mut(&mut s) = 42;
    assert_eq!(*MyLens {}.focus(&s), 42);
}

#[test]
fn state_handle_keeps_its_view_id() {
    let h: StateHandle<MyState> = StateHandle::new(ViewId { id: 7 });
    assert_eq!(h.id(), ViewId { id: 7 });
    let copy = h;
    assert_eq!(copy.id(), ViewId { id: 7 });
}

#[test]
fn map_binding_builds_from_binding_and_lens() {
    let h: StateHandle<MyState> = StateHandle::new(ViewId::default());
    let _m: MapBinding<StateHandle<MyState>, MyLens, i32, MyState> = MapBinding::new(h, MyLens {});
}
