//! Input events delivered to views.

use vstd::prelude::*;
use crate::keys::Key;

verus! {

/// Describes [input method](https://en.wikipedia.org/wiki/Input_method) events.
///
/// This is also called a "composition event". A sequence of key presses
/// composes one character (an accent and a letter, or pinyin with a
/// candidate box): `Preedit` reports the text being composed, `Commit` the
/// text to insert.
#[derive(Debug, Clone, PartialEq, Eq, Hash)]
pub enum Ime {
    /// Notifies when a new composing text should be set at the cursor position.
    ///
    /// The value represents a pair of the preedit string and the cursor begin position and end
    /// position. When it's `None`, the cursor should be hidden. When `String` is an empty string
    /// this indicates that preedit was cleared.
    ///
    /// The cursor position is byte-wise indexed.
    Preedit(String, Option<(usize, usize)>),
    /// Notifies when text should be inserted into the editor widget.
    ///
    /// Right before this event an empty `Preedit` event is sent.
    Commit(String),
}

/// User interface events.
#[derive(Clone, Debug)]
pub enum Event {
    /// A mouse button was pressed at a position.
    MousePress { button: MouseButton, position: kurbo::Point },
    /// The cursor moved, by `delta`, to a position.
    CursorMove { position: kurbo::Point, delta: kurbo::Vec2 },
    /// A mouse button was released at a position.
    MouseUnpress { button: MouseButton, position: kurbo::Point },
    /// A key was pressed, with the character it produces, if any.
    KeyPress(Key, Option<char>),
    /// A key was released, with the character it produces, if any.
    KeyUnpress(Key, Option<char>),
    /// An input method event.
    Ime(Ime),
    /// The window gained (`true`) or lost (`false`) the focus.
    Focused(bool),
    /// The cursor entered the window.
    CursorEntered,
    /// The cursor left the window.
    CursorLeft,
    /// No event.
    NoEvent,
}

/// Mouse buttons.
#[derive(Copy, Clone, Debug, PartialEq, Eq, Structural)]
pub enum MouseButton {
    Left,
    Right,
    Center,
    Other(usize),
}

/// Keyboard modifiers state.
#[derive(Copy, Clone, Debug, Default, PartialEq, Eq, Structural)]
pub struct KeyboardModifiers {
    pub shift: bool,
    pub control: bool,
    pub alt: bool,
    pub command: bool,
}

impl KeyboardModifiers {
    /// No modifier held.
    pub fn new() -> (r: Self)
        ensures
            !r.shift && !r.control && !r.alt && !r.command,
    {
        Self { shift: false, control: false, alt: false, command: false }
    }
}

} // verus!
