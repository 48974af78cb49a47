use fluss::app_core::{Context, ViewId};
use fluss::changed::Changed;
use fluss::events::KeyboardModifiers;
use fluss::legacy_events::{Event, MouseButton};
use kurbo::{Point, Vec2};

#[test]
fn new_ids_count_up_from_one() {
    let mut cx = Context::new();
    assert_eq!(cx.new_id(), ViewId(1));
    assert_eq!(cx.new_id(), ViewId(2));
    assert_eq!(cx.new_id(), ViewId(3));
}

#[test]
fn changed_tells_whether_something_changed() {
    assert!(Changed::Changed.is_changed());
    assert!(!Changed::Unchanged.is_changed());
}

#[test]
fn no_modifier_is_held_at_first() {
    let m = KeyboardModifiers::new();
    assert!(!m.shift && !m.control && !m.alt && !m.command);
}

#[test]
fn offset_moves_mouse_positions_only() {
    let e = Event::MousePress { button: MouseButton::Left, position: Point::new(1.0, 2.0) };
    match e.offset(Vec2::new(10.0, 20.0)) {
        Event::MousePress { button, position } => {
            assert_eq!(button, MouseButton::Left);
            assert_eq!(position, Point::new(11.0, 22.0));
        }
        _ => panic!("wrong variant"),
    }
    let e = Event::CursorMove { position: Point::new(0.0, 0.0), delta: Vec2::new(1.0, 1.0) };
    match e.offset(Vec2::new(-1.0, 3.0)) {
        Event::CursorMove { position, delta } => {
            assert_eq!(position, Point::new(-1.0, 3.0));
            assert_eq!(delta, Vec2::new(1.0, 1.0));
        }
        _ => panic!("wrong variant"),
    }
    match Event::Focused(true).offset(Vec2::new(1.0, 1.0)) {
        Event::Focused(f) => assert!(f),
        _ => panic!("wrong variant"),
    }
    let file = std::path::PathBuf::from("a.txt");
    let e = Event::DroppedFile { file: file.clone(), position: Point::new(4.0, 4.0) };
    match e.offset(Vec2::new(1.0, 1.0)) {
        Event::DroppedFile { file: f, position } => {
            assert_eq!(f, file);
            assert_eq!(position, Point::new(4.0, 4.0));
        }
        _ => panic!("wrong variant"),
    }
}
