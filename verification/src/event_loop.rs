//! The decisions of the window event loop: what each window event does to
//! the toolkit's state, which view event it becomes, when to draw, and when
//! to grab or release the cursor.
//!
//! The host runs the loop: it turns each windowing-system event into a
//! [`WindowInput`], asks [`LoopState::step`] what to do, performs the
//! returned [`LoopAction`] (computing positions, which are floating point),
//! and asks the [`FrameClock`] whether a frame is due.

use vstd::prelude::*;
use crate::events::{KeyboardModifiers, MouseButton};

verus! {

/// The mouse buttons a windowing system reports.
#[derive(Copy, Clone, Debug, PartialEq, Eq, Structural)]
pub enum PointerButton {
    Left,
    Right,
    Middle,
    Back,
    Forward,
    Other(u16),
}

/// The phases of a touch.
#[derive(Copy, Clone, Debug, PartialEq, Eq, Structural)]
pub enum TouchPhase {
    Started,
    Moved,
    Ended,
    Cancelled,
}

/// What the event loop reads of a windowing-system event.
#[derive(Copy, Clone, Debug, PartialEq, Eq, Structural)]
pub enum WindowInput {
    /// The window's close button was pressed.
    CloseRequested,
    /// The window changed size.
    Resized,
    /// A mouse button was pressed (`pressed`) or released.
    MouseInput { pressed: bool, button: PointerButton },
    /// A touch changed phase (on the window the loop drives).
    Touch { phase: TouchPhase },
    /// The cursor moved within the window.
    CursorMoved,
    /// A key was pressed or released.
    KeyboardInput,
    /// The keyboard modifiers changed.
    ModifiersChanged(KeyboardModifiers),
    /// The window must be redrawn.
    RedrawRequested,
    /// Work was queued for the loop by `on_main`.
    UserEvent,
    /// The mouse moved (raw device motion).
    MouseMotion,
    /// Any other event.
    Other,
}

/// Which touch event a view receives, at the position the host computes.
#[derive(Copy, Clone, Debug, PartialEq, Eq, Structural)]
pub enum TouchKind {
    Begin,
    Move,
    End,
}

/// What the host does for one window event.
#[derive(Copy, Clone, Debug, PartialEq, Eq, Structural)]
pub enum LoopAction {
    /// Leave the event loop.
    Exit,
    /// Run the work queued by `on_main`.
    RunWorkQueue,
    /// Resize the drawing surface and ask for a redraw.
    Resize,
    /// Send touch event `kind` (touch 0) to the view tree: at the mouse
    /// position, or at the touch's position for touch input.
    SendTouch(TouchKind),
    /// Take the new cursor position and send a move (touch 0) from the old
    /// one to it.
    MoveCursor,
    /// Send a move (touch 0) by the raw mouse motion, with y flipped.
    SendMotion,
    /// Read the window's size and scale again, and draw a frame.
    Redraw,
    /// Nothing.
    Nothing,
}

/// The event loop's own state.
pub struct LoopState {
    /// The pressed mouse button, when a known one is pressed.
    pub mouse_button: Option<MouseButton>,
    /// The keyboard modifiers held.
    pub key_mods: KeyboardModifiers,
}

/// The toolkit's name for a pressed windowing-system button, if it knows it.
pub open spec fn known_button(b: PointerButton) -> Option<MouseButton> {
    match b {
        PointerButton::Left => Some(MouseButton::Left),
        PointerButton::Right => Some(MouseButton::Right),
        PointerButton::Middle => Some(MouseButton::Center),
        _ => None,
    }
}

/// The touch event a touch phase becomes: cancelled touches end.
pub open spec fn touch_kind(p: TouchPhase) -> TouchKind {
    match p {
        TouchPhase::Started => TouchKind::Begin,
        TouchPhase::Moved => TouchKind::Move,
        TouchPhase::Ended => TouchKind::End,
        TouchPhase::Cancelled => TouchKind::End,
    }
}

/// Translates a windowing-system button into the toolkit's, if it knows it.
pub fn mouse_button_of(b: PointerButton) -> (r: Option<MouseButton>)
    ensures
        r == known_button(b),
{
    match b {
        PointerButton::Left => Some(MouseButton::Left),
        PointerButton::Right => Some(MouseButton::Right),
        PointerButton::Middle => Some(MouseButton::Center),
        _ => None,
    }
}

/// The touch event a touch phase becomes.
pub fn touch_kind_of(p: TouchPhase) -> (r: TouchKind)
    ensures
        r == touch_kind(p),
{
    match p {
        TouchPhase::Started => TouchKind::Begin,
        TouchPhase::Moved => TouchKind::Move,
        TouchPhase::Ended => TouchKind::End,
        TouchPhase::Cancelled => TouchKind::End,
    }
}

impl LoopState {
    /// No button pressed, no modifier held.
    pub fn new() -> (r: Self)
        ensures
            (r.mouse_button is None),
            r.key_mods == (KeyboardModifiers { shift: false, control: false, alt: false, command: false }),
    {
        LoopState { mouse_button: None, key_mods: KeyboardModifiers::new() }
    }

    /// What the touch-driven loop does for one window event: a mouse press
    /// begins touch 0 and remembers the button, a release ends it and
    /// forgets the button, cursor and mouse motion move it, touches map
    /// phase by phase, modifier changes are remembered.
    pub fn step(&mut self, input: WindowInput) -> (r: LoopAction)
        ensures
            r == match input {
                WindowInput::CloseRequested => LoopAction::Exit,
                WindowInput::UserEvent => LoopAction::RunWorkQueue,
                WindowInput::Resized => LoopAction::Resize,
                WindowInput::MouseInput { pressed, .. } => LoopAction::SendTouch(
                    if pressed { TouchKind::Begin } else { TouchKind::End },
                ),
                WindowInput::Touch { phase } => LoopAction::SendTouch(touch_kind(phase)),
                WindowInput::CursorMoved => LoopAction::MoveCursor,
                WindowInput::MouseMotion => LoopAction::SendMotion,
                WindowInput::RedrawRequested => LoopAction::Redraw,
                _ => LoopAction::Nothing,
            },
            final(self).mouse_button == match input {
                WindowInput::MouseInput { pressed, button } => if pressed {
                    known_button(button)
                } else {
                    None
                },
                _ => old(self).mouse_button,
            },
            final(self).key_mods == match input {
                WindowInput::ModifiersChanged(m) => m,
                _ => old(self).key_mods,
            },
    {
        match input {
            WindowInput::CloseRequested => LoopAction::Exit,
            WindowInput::UserEvent => LoopAction::RunWorkQueue,
            WindowInput::Resized => LoopAction::Resize,
            WindowInput::MouseInput { pressed, button } => {
                if pressed {
                    self.mouse_button = mouse_button_of(button);
                    LoopAction::SendTouch(TouchKind::Begin)
                } else {
                    self.mouse_button = None;
                    LoopAction::SendTouch(TouchKind::End)
                }
            },
            WindowInput::Touch { phase } => LoopAction::SendTouch(touch_kind_of(phase)),
            WindowInput::CursorMoved => LoopAction::MoveCursor,
            WindowInput::KeyboardInput => LoopAction::Nothing,
            WindowInput::ModifiersChanged(m) => {
                self.key_mods = m;
                LoopAction::Nothing
            },
            WindowInput::RedrawRequested => LoopAction::Redraw,
            WindowInput::MouseMotion => LoopAction::SendMotion,
            WindowInput::Other => LoopAction::Nothing,
        }
    }
}

/// What the mouse-driven loop (press and release events, no touches) does
/// for one window event.
#[derive(Copy, Clone, Debug, PartialEq, Eq, Structural)]
pub enum MouseLoopAction {
    /// Leave the event loop.
    Exit,
    /// Run the work queued by `on_main`.
    RunWorkQueue,
    /// Resize the drawing surface and ask for a redraw.
    Resize,
    /// Send a press (`true`) or release of `button` at the mouse position.
    SendButton { pressed: bool, button: MouseButton },
    /// Remember the new cursor position; no event is sent.
    TrackCursor,
    /// Send a cursor move by the raw mouse motion, with y flipped.
    SendMotion,
    /// Draw a frame.
    Redraw,
    /// Nothing.
    Nothing,
}

/// What the mouse-driven loop does for one window event: presses and
/// releases of known buttons become button events (others are dropped),
/// cursor moves only update the position, modifier changes are remembered.
pub fn mouse_step(key_mods: &mut KeyboardModifiers, input: WindowInput) -> (r: MouseLoopAction)
    ensures
        r == match input {
            WindowInput::CloseRequested => MouseLoopAction::Exit,
            WindowInput::UserEvent => MouseLoopAction::RunWorkQueue,
            WindowInput::Resized => MouseLoopAction::Resize,
            WindowInput::MouseInput { pressed, button } => match known_button(button) {
                Some(b) => MouseLoopAction::SendButton { pressed, button: b },
                None => MouseLoopAction::Nothing,
            },
            WindowInput::CursorMoved => MouseLoopAction::TrackCursor,
            WindowInput::MouseMotion => MouseLoopAction::SendMotion,
            WindowInput::RedrawRequested => MouseLoopAction::Redraw,
            _ => MouseLoopAction::Nothing,
        },
        *final(key_mods) == match input {
            WindowInput::ModifiersChanged(m) => m,
            _ => *old(key_mods),
        },
{
    match input {
        WindowInput::CloseRequested => MouseLoopAction::Exit,
        WindowInput::UserEvent => MouseLoopAction::RunWorkQueue,
        WindowInput::Resized => MouseLoopAction::Resize,
        WindowInput::MouseInput { pressed, button } => match mouse_button_of(button) {
            Some(b) => MouseLoopAction::SendButton { pressed, button: b },
            None => MouseLoopAction::Nothing,
        },
        WindowInput::CursorMoved => MouseLoopAction::TrackCursor,
        WindowInput::ModifiersChanged(m) => {
            *key_mods = m;
            MouseLoopAction::Nothing
        },
        WindowInput::RedrawRequested => MouseLoopAction::Redraw,
        WindowInput::MouseMotion => MouseLoopAction::SendMotion,
        _ => MouseLoopAction::Nothing,
    }
}

/// What to do with the cursor after an event was processed.
#[derive(Copy, Clone, Debug, PartialEq, Eq, Structural)]
pub enum CursorAction {
    /// Lock (or else confine) the cursor and hide it.
    Grab,
    /// Free the cursor and show it.
    Release,
    /// Leave the cursor as it is.
    Keep,
}

/// After an event was processed: the cursor is grabbed when a view asked for
/// it and it was not grabbed, released when no view asks for it any more and
/// it was grabbed; the current request is remembered for the next event.
pub fn cursor_action(grab_cursor: bool, prev_grab_cursor: &mut bool) -> (r: CursorAction)
    ensures
        r == (if grab_cursor && !*old(prev_grab_cursor) {
            CursorAction::Grab
        } else if !grab_cursor && *old(prev_grab_cursor) {
            CursorAction::Release
        } else {
            CursorAction::Keep
        }),
        *final(prev_grab_cursor) == grab_cursor,
{
    let r = if grab_cursor && !*prev_grab_cursor {
        CursorAction::Grab
    } else if !grab_cursor && *prev_grab_cursor {
        CursorAction::Release
    } else {
        CursorAction::Keep
    };
    *prev_grab_cursor = grab_cursor;
    r
}

/// Decides when frames are drawn: a frame is due once more than one frame
/// period has passed since the last frame started. Times are nanoseconds
/// since the loop started.
pub struct FrameClock {
    /// When the last frame started.
    pub previous_frame_start: u64,
    /// The length of a frame.
    pub frame_duration: u64,
}

impl FrameClock {
    /// A clock whose last frame started at `now`.
    pub fn new(now: u64, frame_duration: u64) -> (r: Self)
        ensures
            r.previous_frame_start == now,
            r.frame_duration == frame_duration,
    {
        FrameClock { previous_frame_start: now, frame_duration }
    }

    /// At `frame_start`, whether a frame is due by the clock; if so, the
    /// frame starts now. The time elapsed saturates at zero for a
    /// `frame_start` before the last frame's.
    pub fn tick(&mut self, frame_start: u64) -> (due: bool)
        ensures
            due == (frame_start > old(self).previous_frame_start && frame_start
                - old(self).previous_frame_start > old(self).frame_duration),
            final(self).previous_frame_start == (if due {
                frame_start
            } else {
                old(self).previous_frame_start
            }),
            final(self).frame_duration == old(self).frame_duration,
    {
        let elapsed = if frame_start > self.previous_frame_start {
            frame_start - self.previous_frame_start
        } else {
            0
        };
        if elapsed > self.frame_duration {
            self.previous_frame_start = frame_start;
            true
        } else {
            false
        }
    }

    /// When the loop should wake up next: one frame period after the last
    /// frame started.
    pub fn wake_time(&self) -> (r: u64)
        requires
            self.previous_frame_start + self.frame_duration <= u64::MAX,
        ensures
            r == self.previous_frame_start + self.frame_duration,
    {
        self.previous_frame_start + self.frame_duration
    }
}

/// What the application loop does for one event.
#[derive(Copy, Clone, Debug, PartialEq, Eq, Structural)]
pub enum AppDecision {
    /// Leave the event loop, drawing nothing.
    Exit,
    /// Go on: resize the drawing surface first when `resize`, then draw a
    /// frame when `draw`; then sleep until the clock's wake time.
    Proceed { resize: bool, draw: bool },
}

/// What the application loop does for `input` arriving at `frame_start`: a
/// close request ends the loop; otherwise a resize resizes the surface, and
/// a frame is drawn when one was requested or the clock says one is due (the
/// clock is consulted on every event that does not end the loop).
pub fn application_step(clock: &mut FrameClock, input: WindowInput, frame_start: u64) -> (r: AppDecision)
    ensures
        input == WindowInput::CloseRequested ==> r == AppDecision::Exit && *final(clock) == *old(clock),
        input != WindowInput::CloseRequested ==> {
            let due = frame_start > old(clock).previous_frame_start && frame_start
                - old(clock).previous_frame_start > old(clock).frame_duration;
            &&& r == (AppDecision::Proceed {
                resize: input == WindowInput::Resized,
                draw: input == WindowInput::RedrawRequested || due,
            })
            &&& final(clock).previous_frame_start == (if due {
                frame_start
            } else {
                old(clock).previous_frame_start
            })
            &&& final(clock).frame_duration == old(clock).frame_duration
        },
{
    let mut resize = false;
    let mut redraw = false;
    match input {
        WindowInput::CloseRequested => {
            return AppDecision::Exit;
        },
        WindowInput::Resized => {
            resize = true;
        },
        WindowInput::RedrawRequested => {
            redraw = true;
        },
        _ => {},
    }
    let due = clock.tick(frame_start);
    AppDecision::Proceed { resize, draw: redraw || due }
}

/// Once a frame is drawn at `t`, no other frame is due before a whole
/// frame period has passed.
pub proof fn lemma_frames_spaced(c0: FrameClock, c1: FrameClock, t: u64, u: u64)
    requires
        c1.previous_frame_start == t,
        c1.frame_duration == c0.frame_duration,
        t <= u,
        u - t <= c0.frame_duration,
    ensures
        !(u > c1.previous_frame_start && u - c1.previous_frame_start > c1.frame_duration),
{
}

} // verus!
