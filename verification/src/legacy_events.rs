//! The event set of the first generation of the toolkit, which also reports
//! files dragged onto the window.

use vstd::prelude::*;
use crate::geometry::{point_moved, translate_point};

verus! {

/// A filesystem path (`std::path::PathBuf`), carried through opaquely.
#[verifier::external_type_specification]
#[verifier::external_body]
pub struct ExPathBuf(std::path::PathBuf);

/// `PathBuf::clone` returns a copy of the path.
pub assume_specification[ <std::path::PathBuf as Clone>::clone ](p: &std::path::PathBuf) -> (r: std::path::PathBuf)
    ensures
        r == *p,
;

/// Represents logical key name
#[derive(Copy, Clone, Debug, PartialEq, Eq, Structural)]
pub enum Key {
    F1,
    F2,
    F3,
    F4,
    F5,
    F6,
    F7,
    F8,
    F9,
    F10,
    F11,
    F12,
    Escape,
    Insert,
    PrintSc,
    Delete,
    Home,
    End,
    PgUp,
    PgDown,
    Tilda,
    Tab,
    Caps,
    LShift,
    RShift,
    LCtrl,
    RCtrl,
    /// Synonimes: Mod4, Logo, Win, Cmd
    Super,
    /// Synonimes: LOption
    LAlt,
    /// Synonimes: ROption
    RAlt,
    ArrowLeft,
    ArrowRight,
    ArrowUp,
    ArrowDown,
    /// Synonimes: Enter
    Return,
    Backspace,
    Space,
    Num1,
    Num2,
    Num3,
    Num4,
    Num5,
    Num6,
    Num7,
    Num8,
    Num9,
    Num0,
    Minus,
    Equal,
    KeyA,
    KeyB,
    KeyC,
    KeyD,
    KeyE,
    KeyF,
    KeyG,
    KeyH,
    KeyI,
    KeyJ,
    KeyK,
    KeyL,
    KeyM,
    KeyN,
    KeyO,
    KeyP,
    KeyQ,
    KeyR,
    KeyS,
    KeyT,
    KeyU,
    KeyV,
    KeyW,
    KeyX,
    KeyY,
    KeyZ,
    BracketOpen,
    BracketClose,
    BraceOpen,
    BraceClose,
    Point,
    Comma,
    Semicolon,
    Quote,
    Slash,
    Backslash,
}

/// User interface event.
#[derive(Clone, Debug)]
pub enum Event {
    /// Touch event, or mouse down.
    MousePress { button: MouseButton, position: kurbo::Point },
    /// Touch moved or mouse moved while down.
    CursorMove { position: kurbo::Point, delta: kurbo::Vec2 },
    /// Touch went up or mouse button released.
    MouseUnpress { button: MouseButton, position: kurbo::Point },
    Key(Key, Option<char>),
    /// A file has been dropped into the window.
    ///
    /// When the user drops multiple files at once, this event will be emitted for each file
    /// separately.
    DroppedFile { file: std::path::PathBuf, position: kurbo::Point },
    /// A file is being hovered over the window.
    ///
    /// When the user hovers multiple files at once, this event will be emitted for each file
    /// separately.
    HoveredFile { file: std::path::PathBuf, position: kurbo::Point },
    /// A file was hovered, but has exited the window.
    ///
    /// There will be a single `HoveredFileCancelled` event triggered even if multiple files were
    /// hovered.
    HoveredFileCancelled,
    /// The window gained or lost focus.
    ///
    /// The parameter is true if the view has gained focus, and false if it has lost focus.
    Focused(bool),
    CursorEntered,
    CursorLeft,
    /// No event.
    NoEvent,
}

impl Event {
    /// The same event seen from a frame shifted by `offset`: the positions of
    /// mouse presses, releases and moves are translated; every other event,
    /// dropped and hovered files included, is returned unchanged.
    pub fn offset(&self, offset: kurbo::Vec2) -> (r: Event)
        ensures
            r == match *self {
                Event::MousePress { button, position } => Event::MousePress {
                    button,
                    position: point_moved(position, offset),
                },
                Event::CursorMove { position, delta } => Event::CursorMove {
                    position: point_moved(position, offset),
                    delta,
                },
                Event::MouseUnpress { button, position } => Event::MouseUnpress {
                    button,
                    position: point_moved(position, offset),
                },
                _ => *self,
            },
    {
        match self {
            Event::MousePress { button, position } => Event::MousePress {
                button: *button,
                position: translate_point(*position, offset),
            },
            Event::CursorMove { position, delta } => Event::CursorMove {
                position: translate_point(*position, offset),
                delta: *delta,
            },
            Event::MouseUnpress { button, position } => Event::MouseUnpress {
                button: *button,
                position: translate_point(*position, offset),
            },
            Event::Key(k, c) => Event::Key(*k, *c),
            Event::DroppedFile { file, position } => Event::DroppedFile {
                file: file.clone(),
                position: *position,
            },
            Event::HoveredFile { file, position } => Event::HoveredFile {
                file: file.clone(),
                position: *position,
            },
            Event::HoveredFileCancelled => Event::HoveredFileCancelled,
            Event::Focused(f) => Event::Focused(*f),
            Event::CursorEntered => Event::CursorEntered,
            Event::CursorLeft => Event::CursorLeft,
            Event::NoEvent => Event::NoEvent,
        }
    }
}

/// Mouse buttons.
#[derive(Copy, Clone, Debug, PartialEq, Eq, Structural)]
pub enum MouseButton {
    Left,
    Right,
    Center,
}

/// Keyboard modifiers state.
#[derive(Copy, Clone, Debug, Default, PartialEq, Eq, Structural)]
pub struct KeyboardModifiers {
    pub shift: bool,
    pub control: bool,
    pub alt: bool,
    pub command: bool,
}

} // verus!
