//! Application-level actions and menu commands.

use vstd::prelude::*;
use crate::events::KeyboardModifiers;
use crate::keys::Key;

verus! {

/// What a view asks the application to do.
#[derive(Clone, Debug, PartialEq, Eq)]
pub enum ApplicationAction {
    /// Set the window's title.
    ChangeTitle(String),
    /// Enter (`true`) or leave full-screen mode.
    ChangeFullscreen(bool),
}

/// A keyboard shortcut: a key with the modifiers held.
#[derive(Copy, Clone, Debug, PartialEq, Eq, Structural)]
pub struct HotKey {
    pub mods: KeyboardModifiers,
    pub key: Key,
}

/// A menu command: its path in the menu bar and its shortcut, if any.
#[derive(Clone, Debug, PartialEq, Eq)]
pub struct CommandInfo {
    pub path: String,
    pub key: Option<HotKey>,
}

} // verus!
