use fluss::event_loop::{
    application_step, AppDecision,
    cursor_action, mouse_button_of, mouse_step, touch_kind_of, CursorAction, FrameClock,
    LoopAction, LoopState, MouseLoopAction, PointerButton, TouchKind, TouchPhase, WindowInput,
};
use fluss::events::{KeyboardModifiers, MouseButton};

#[test]
fn buttons_translate() {
    assert_eq!(mouse_button_of(PointerButton::Left), Some(MouseButton::Left));
    assert_eq!(mouse_button_of(PointerButton::Right), Some(MouseButton::Right));
    assert_eq!(mouse_button_of(PointerButton::Middle), Some(MouseButton::Center));
    assert_eq!(mouse_button_of(PointerButton::Back), None);
    assert_eq!(mouse_button_of(PointerButton::Other(7)), None);
}

#[test]
fn cancelled_touches_end() {
    assert_eq!(touch_kind_of(TouchPhase::Started), TouchKind::Begin);
    assert_eq!(touch_kind_of(TouchPhase::Moved), TouchKind::Move);
    assert_eq!(touch_kind_of(TouchPhase::Ended), TouchKind::End);
    assert_eq!(touch_kind_of(TouchPhase::Cancelled), TouchKind::End);
}

#[test]
fn mouse_press_begins_and_release_ends_touch() {
    let mut st = LoopState::new();
    assert_eq!(st.mouse_button, None);
    let a = st.step(WindowInput::MouseInput { pressed: true, button: PointerButton::Left });
    assert_eq!(a, LoopAction::SendTouch(TouchKind::Begin));
    assert_eq!(st.mouse_button, Some(MouseButton::Left));
    let a = st.step(WindowInput::CursorMoved);
    assert_eq!(a, LoopAction::MoveCursor);
    assert_eq!(st.mouse_button, Some(MouseButton::Left));
    let a = st.step(WindowInput::MouseInput { pressed: false, button: PointerButton::Left });
    assert_eq!(a, LoopAction::SendTouch(TouchKind::End));
    assert_eq!(st.mouse_button, None);
}

#[test]
fn loop_actions_for_window_events() {
    let mut st = LoopState::new();
    assert_eq!(st.step(WindowInput::CloseRequested), LoopAction::Exit);
    assert_eq!(st.step(WindowInput::UserEvent), LoopAction::RunWorkQueue);
    assert_eq!(st.step(WindowInput::Resized), LoopAction::Resize);
    assert_eq!(st.step(WindowInput::RedrawRequested), LoopAction::Redraw);
    assert_eq!(st.step(WindowInput::MouseMotion), LoopAction::SendMotion);
    assert_eq!(st.step(WindowInput::KeyboardInput), LoopAction::Nothing);
    assert_eq!(st.step(WindowInput::Other), LoopAction::Nothing);
    assert_eq!(
        st.step(WindowInput::Touch { phase: TouchPhase::Cancelled }),
        LoopAction::SendTouch(TouchKind::End)
    );
}

#[test]
fn modifier_changes_are_remembered() {
    let mut st = LoopState::new();
    let m = KeyboardModifiers { shift: true, control: false, alt: true, command: false };
    assert_eq!(st.step(WindowInput::ModifiersChanged(m)), LoopAction::Nothing);
    assert_eq!(st.key_mods, m);
    st.step(WindowInput::Resized);
    assert_eq!(st.key_mods, m);
}

#[test]
fn mouse_loop_sends_known_buttons_only() {
    let mut mods = KeyboardModifiers::new();
    assert_eq!(
        mouse_step(&mut mods, WindowInput::MouseInput { pressed: true, button: PointerButton::Right }),
        MouseLoopAction::SendButton { pressed: true, button: MouseButton::Right }
    );
    assert_eq!(
        mouse_step(&mut mods, WindowInput::MouseInput { pressed: false, button: PointerButton::Forward }),
        MouseLoopAction::Nothing
    );
    assert_eq!(mouse_step(&mut mods, WindowInput::CursorMoved), MouseLoopAction::TrackCursor);
    let m = KeyboardModifiers { shift: false, control: true, alt: false, command: true };
    assert_eq!(mouse_step(&mut mods, WindowInput::ModifiersChanged(m)), MouseLoopAction::Nothing);
    assert_eq!(mods, m);
}

#[test]
fn cursor_grabbed_and_released_on_change_only() {
    let mut prev = false;
    assert_eq!(cursor_action(true, &mut prev), CursorAction::Grab);
    assert!(prev);
    assert_eq!(cursor_action(true, &mut prev), CursorAction::Keep);
    assert_eq!(cursor_action(false, &mut prev), CursorAction::Release);
    assert!(!prev);
    assert_eq!(cursor_action(false, &mut prev), CursorAction::Keep);
}

#[test]
fn frames_are_due_after_one_period() {
    let mut c = FrameClock::new(1_000, 16);
    assert_eq!(c.wake_time(), 1_016);
    assert!(!c.tick(1_010));
    assert!(!c.tick(1_016));
    assert!(c.tick(1_017));
    assert_eq!(c.previous_frame_start, 1_017);
    assert_eq!(c.wake_time(), 1_033);
    // A time before the last frame counts as no time elapsed.
    assert!(!c.tick(5));
    assert_eq!(c.previous_frame_start, 1_017);
}

#[test]
fn application_loop_exits_resizes_and_draws() {
    let mut c = FrameClock::new(100, 10);
    assert_eq!(application_step(&mut c, WindowInput::CloseRequested, 500), AppDecision::Exit);
    assert_eq!(c.previous_frame_start, 100);
    assert_eq!(
        application_step(&mut c, WindowInput::Resized, 105),
        AppDecision::Proceed { resize: true, draw: false }
    );
    assert_eq!(
        application_step(&mut c, WindowInput::RedrawRequested, 106),
        AppDecision::Proceed { resize: false, draw: true }
    );
    assert_eq!(c.previous_frame_start, 100);
    assert_eq!(
        application_step(&mut c, WindowInput::Other, 111),
        AppDecision::Proceed { resize: false, draw: true }
    );
    assert_eq!(c.previous_frame_start, 111);
    assert_eq!(
        application_step(&mut c, WindowInput::CursorMoved, 112),
        AppDecision::Proceed { resize: false, draw: false }
    );
}
