//! Logical keys and the physical key codes they are read from.

use vstd::prelude::*;

verus! {

/// Represents a logical key name.
#[derive(Copy, Clone, Debug, PartialEq, Eq, Structural, Hash)]
pub enum Key {
    /// <kbd>`</kbd> on a US keyboard. This is also called a backtick or grave.
    /// This is the <kbd>半角</kbd>/<kbd>全角</kbd>/<kbd>漢字</kbd>
    /// (hankaku/zenkaku/kanji) key on Japanese keyboards
    Backquote,
    /// Used for both the US <kbd>\\</kbd> (on the 101-key layout) and also for the key
    /// located between the <kbd>"</kbd> and <kbd>Enter</kbd> keys on row C of the 102-,
    /// 104- and 106-key layouts.
    /// Labeled <kbd>#</kbd> on a UK (102) keyboard.
    Backslash,
    /// <kbd>[</kbd> on a US keyboard.
    BracketLeft,
    /// <kbd>]</kbd> on a US keyboard.
    BracketRight,
    /// <kbd>,</kbd> on a US keyboard.
    Comma,
    /// <kbd>0</kbd> on a US keyboard.
    Digit0,
    /// <kbd>1</kbd> on a US keyboard.
    Digit1,
    /// <kbd>2</kbd> on a US keyboard.
    Digit2,
    /// <kbd>3</kbd> on a US keyboard.
    Digit3,
    /// <kbd>4</kbd> on a US keyboard.
    Digit4,
    /// <kbd>5</kbd> on a US keyboard.
    Digit5,
    /// <kbd>6</kbd> on a US keyboard.
    Digit6,
    /// <kbd>7</kbd> on a US keyboard.
    Digit7,
    /// <kbd>8</kbd> on a US keyboard.
    Digit8,
    /// <kbd>9</kbd> on a US keyboard.
    Digit9,
    /// <kbd>=</kbd> on a US keyboard.
    Equal,
    /// <kbd>a</kbd> on a US keyboard.
    /// Labeled <kbd>q</kbd> on an AZERTY (e.g., French) keyboard.
    KeyA,
    /// <kbd>b</kbd> on a US keyboard.
    KeyB,
    /// <kbd>c</kbd> on a US keyboard.
    KeyC,
    /// <kbd>d</kbd> on a US keyboard.
    KeyD,
    /// <kbd>e</kbd> on a US keyboard.
    KeyE,
    /// <kbd>f</kbd> on a US keyboard.
    KeyF,
    /// <kbd>g</kbd> on a US keyboard.
    KeyG,
    /// <kbd>h</kbd> on a US keyboard.
    KeyH,
    /// <kbd>i</kbd> on a US keyboard.
    KeyI,
    /// <kbd>j</kbd> on a US keyboard.
    KeyJ,
    /// <kbd>k</kbd> on a US keyboard.
    KeyK,
    /// <kbd>l</kbd> on a US keyboard.
    KeyL,
    /// <kbd>m</kbd> on a US keyboard.
    KeyM,
    /// <kbd>n</kbd> on a US keyboard.
    KeyN,
    /// <kbd>o</kbd> on a US keyboard.
    KeyO,
    /// <kbd>p</kbd> on a US keyboard.
    KeyP,
    /// <kbd>q</kbd> on a US keyboard.
    /// Labeled <kbd>a</kbd> on an AZERTY (e.g., French) keyboard.
    KeyQ,
    /// <kbd>r</kbd> on a US keyboard.
    KeyR,
    /// <kbd>s</kbd> on a US keyboard.
    KeyS,
    /// <kbd>t</kbd> on a US keyboard.
    KeyT,
    /// <kbd>u</kbd> on a US keyboard.
    KeyU,
    /// <kbd>v</kbd> on a US keyboard.
    KeyV,
    /// <kbd>w</kbd> on a US keyboard.
    /// Labeled <kbd>z</kbd> on an AZERTY (e.g., French) keyboard.
    KeyW,
    /// <kbd>x</kbd> on a US keyboard.
    KeyX,
    /// <kbd>y</kbd> on a US keyboard.
    /// Labeled <kbd>z</kbd> on a QWERTZ (e.g., German) keyboard.
    KeyY,
    /// <kbd>z</kbd> on a US keyboard.
    /// Labeled <kbd>w</kbd> on an AZERTY (e.g., French) keyboard, and <kbd>y</kbd> on a
    /// QWERTZ (e.g., German) keyboard.
    KeyZ,
    /// <kbd>-</kbd> on a US keyboard.
    Minus,
    /// <kbd>.</kbd> on a US keyboard.
    Period,
    /// <kbd>'</kbd> on a US keyboard.
    Quote,
    /// <kbd>;</kbd> on a US keyboard.
    Semicolon,
    /// <kbd>/</kbd> on a US keyboard.
    Slash,
    /// <kbd>Alt</kbd>, <kbd>Option</kbd>, or <kbd>⌥</kbd>.
    AltLeft,
    /// <kbd>Alt</kbd>, <kbd>Option</kbd>, or <kbd>⌥</kbd>.
    /// This is labeled <kbd>AltGr</kbd> on many keyboard layouts.
    AltRight,
    /// <kbd>Backspace</kbd> or <kbd>⌫</kbd>.
    /// Labeled <kbd>Delete</kbd> on Apple keyboards.
    Backspace,
    /// <kbd>CapsLock</kbd> or <kbd>⇪</kbd>
    CapsLock,
    /// The application context menu key, which is typically found between the right
    /// <kbd>Super</kbd> key and the right <kbd>Control</kbd> key.
    ContextMenu,
    /// <kbd>Control</kbd> or <kbd>⌃</kbd>
    ControlLeft,
    /// <kbd>Control</kbd> or <kbd>⌃</kbd>
    ControlRight,
    /// <kbd>Enter</kbd> or <kbd>↵</kbd>. Labeled <kbd>Return</kbd> on Apple keyboards.
    Enter,
    /// The Windows, <kbd>⌘</kbd>, <kbd>Command</kbd>, or other OS symbol key.
    SuperLeft,
    /// The Windows, <kbd>⌘</kbd>, <kbd>Command</kbd>, or other OS symbol key.
    SuperRight,
    /// <kbd>Shift</kbd> or <kbd>⇧</kbd>
    ShiftLeft,
    /// <kbd>Shift</kbd> or <kbd>⇧</kbd>
    ShiftRight,
    /// <kbd> </kbd> (space)
    Space,
    /// <kbd>Tab</kbd> or <kbd>⇥</kbd>
    Tab,
    /// Japanese: <kbd>変</kbd> (henkan)
    Convert,
    /// <kbd>⌦</kbd>. The forward delete key.
    /// Note that on Apple keyboards, the key labelled <kbd>Delete</kbd> on the main part of
    /// the keyboard is encoded as [`Backspace`].
    ///
    /// [`Backspace`]: Self::Backspace
    Delete,
    /// <kbd>Page Down</kbd>, <kbd>End</kbd>, or <kbd>↘</kbd>
    End,
    /// <kbd>Help</kbd>. Not present on standard PC keyboards.
    Help,
    /// <kbd>Home</kbd> or <kbd>↖</kbd>
    Home,
    /// <kbd>Insert</kbd> or <kbd>Ins</kbd>. Not present on Apple keyboards.
    Insert,
    /// <kbd>Page Down</kbd>, <kbd>PgDn</kbd>, or <kbd>⇟</kbd>
    PageDown,
    /// <kbd>Page Up</kbd>, <kbd>PgUp</kbd>, or <kbd>⇞</kbd>
    PageUp,
    /// <kbd>↓</kbd>
    ArrowDown,
    /// <kbd>←</kbd>
    ArrowLeft,
    /// <kbd>→</kbd>
    ArrowRight,
    /// <kbd>↑</kbd>
    ArrowUp,
    /// On the Mac, this is used for the numpad <kbd>Clear</kbd> key.
    NumLock,
    /// <kbd>0 Ins</kbd> on a keyboard. <kbd>0</kbd> on a phone or remote control
    Numpad0,
    /// <kbd>1 End</kbd> on a keyboard. <kbd>1</kbd> or <kbd>1 QZ</kbd> on a phone or remote control
    Numpad1,
    /// <kbd>2 ↓</kbd> on a keyboard. <kbd>2 ABC</kbd> on a phone or remote control
    Numpad2,
    /// <kbd>3 PgDn</kbd> on a keyboard. <kbd>3 DEF</kbd> on a phone or remote control
    Numpad3,
    /// <kbd>4 ←</kbd> on a keyboard. <kbd>4 GHI</kbd> on a phone or remote control
    Numpad4,
    /// <kbd>5</kbd> on a keyboard. <kbd>5 JKL</kbd> on a phone or remote control
    Numpad5,
    /// <kbd>6 →</kbd> on a keyboard. <kbd>6 MNO</kbd> on a phone or remote control
    Numpad6,
    /// <kbd>7 Home</kbd> on a keyboard. <kbd>7 PQRS</kbd> or <kbd>7 PRS</kbd> on a phone
    /// or remote control
    Numpad7,
    /// <kbd>8 ↑</kbd> on a keyboard. <kbd>8 TUV</kbd> on a phone or remote control
    Numpad8,
    /// <kbd>9 PgUp</kbd> on a keyboard. <kbd>9 WXYZ</kbd> or <kbd>9 WXY</kbd> on a phone
    /// or remote control
    Numpad9,
    /// <kbd>+</kbd>
    NumpadAdd,
    /// Found on the Microsoft Natural Keyboard.
    NumpadBackspace,
    /// <kbd>C</kbd> or <kbd>A</kbd> (All Clear). Also for use with numpads that have a
    /// <kbd>Clear</kbd> key that is separate from the <kbd>NumLock</kbd> key. On the Mac, the
    /// numpad <kbd>Clear</kbd> key is encoded as [`NumLock`].
    ///
    /// [`NumLock`]: Self::NumLock
    NumpadClear,
    /// <kbd>C</kbd> (Clear Entry)
    NumpadClearEntry,
    /// <kbd>,</kbd> (thousands separator). For locales where the thousands separator
    /// is a "." (e.g., Brazil), this key may generate a <kbd>.</kbd>.
    NumpadComma,
    /// <kbd>. Del</kbd>. For locales where the decimal separator is "," (e.g.,
    /// Brazil), this key may generate a <kbd>,</kbd>.
    NumpadDecimal,
    /// <kbd>/</kbd>
    NumpadDivide,
    NumpadEnter,
    /// <kbd>=</kbd>
    NumpadEqual,
    /// <kbd>#</kbd> on a phone or remote control device. This key is typically found
    /// below the <kbd>9</kbd> key and to the right of the <kbd>0</kbd> key.
    NumpadHash,
    /// <kbd>M</kbd> Add current entry to the value stored in memory.
    NumpadMemoryAdd,
    /// <kbd>M</kbd> Clear the value stored in memory.
    NumpadMemoryClear,
    /// <kbd>M</kbd> Replace the current entry with the value stored in memory.
    NumpadMemoryRecall,
    /// <kbd>M</kbd> Replace the value stored in memory with the current entry.
    NumpadMemoryStore,
    /// <kbd>M</kbd> Subtract current entry from the value stored in memory.
    NumpadMemorySubtract,
    /// <kbd>*</kbd> on a keyboard. For use with numpads that provide mathematical
    /// operations (<kbd>+</kbd>, <kbd>-</kbd> <kbd>*</kbd> and <kbd>/</kbd>).
    ///
    /// Use `NumpadStar` for the <kbd>*</kbd> key on phones and remote controls.
    NumpadMultiply,
    /// <kbd>(</kbd> Found on the Microsoft Natural Keyboard.
    NumpadParenLeft,
    /// <kbd>)</kbd> Found on the Microsoft Natural Keyboard.
    NumpadParenRight,
    /// <kbd>*</kbd> on a phone or remote control device.
    ///
    /// This key is typically found below the <kbd>7</kbd> key and to the left of
    /// the <kbd>0</kbd> key.
    ///
    /// Use <kbd>"NumpadMultiply"</kbd> for the <kbd>*</kbd> key on
    /// numeric keypads.
    NumpadStar,
    /// <kbd>-</kbd>
    NumpadSubtract,
    /// <kbd>Esc</kbd> or <kbd>⎋</kbd>
    Escape,
    /// <kbd>Fn</kbd> This is typically a hardware key that does not generate a separate code.
    Fn,
    /// <kbd>FLock</kbd> or <kbd>FnLock</kbd>. Function Lock key. Found on the Microsoft
    /// Natural Keyboard.
    FnLock,
    /// <kbd>PrtScr SysRq</kbd> or <kbd>Print Screen</kbd>
    PrintScreen,
    /// <kbd>Scroll Lock</kbd>
    ScrollLock,
    /// <kbd>Pause Break</kbd>
    Pause,
    /// Some laptops place this key to the left of the <kbd>↑</kbd> key.
    ///
    /// This also the "back" button (triangle) on Android.
    BrowserBack,
    BrowserFavorites,
    /// Some laptops place this key to the right of the <kbd>↑</kbd> key.
    BrowserForward,
    /// The "home" button on Android.
    BrowserHome,
    BrowserRefresh,
    BrowserSearch,
    BrowserStop,
    MediaPlayPause,
    MediaSelect,
    MediaStop,
    MediaTrackNext,
    MediaTrackPrevious,
    /// This key is placed in the function section on some Apple keyboards, replacing the
    /// <kbd>Eject</kbd> key.
    Power,
    Sleep,
    AudioVolumeDown,
    AudioVolumeMute,
    AudioVolumeUp,
    WakeUp,
    Abort,
    Resume,
    Suspend,
    /// Found on Sun’s USB keyboard.
    Again,
    /// Found on Sun’s USB keyboard.
    Copy,
    /// Found on Sun’s USB keyboard.
    Cut,
    /// Found on Sun’s USB keyboard.
    Find,
    /// Found on Sun’s USB keyboard.
    Open,
    /// Found on Sun’s USB keyboard.
    Paste,
    /// Found on Sun’s USB keyboard.
    Props,
    /// Found on Sun’s USB keyboard.
    Select,
    /// Found on Sun’s USB keyboard.
    Undo,
    /// General-purpose function key.
    /// Usually found at the top of the keyboard.
    F1,
    /// General-purpose function key.
    /// Usually found at the top of the keyboard.
    F2,
    /// General-purpose function key.
    /// Usually found at the top of the keyboard.
    F3,
    /// General-purpose function key.
    /// Usually found at the top of the keyboard.
    F4,
    /// General-purpose function key.
    /// Usually found at the top of the keyboard.
    F5,
    /// General-purpose function key.
    /// Usually found at the top of the keyboard.
    F6,
    /// General-purpose function key.
    /// Usually found at the top of the keyboard.
    F7,
    /// General-purpose function key.
    /// Usually found at the top of the keyboard.
    F8,
    /// General-purpose function key.
    /// Usually found at the top of the keyboard.
    F9,
    /// General-purpose function key.
    /// Usually found at the top of the keyboard.
    F10,
    /// General-purpose function key.
    /// Usually found at the top of the keyboard.
    F11,
    /// General-purpose function key.
    /// Usually found at the top of the keyboard.
    F12,
}

/// A physical key position, as reported by the windowing system, named
/// after the key at that position on a US keyboard.
#[derive(Copy, Clone, Debug, PartialEq, Eq, Structural, Hash)]
pub enum KeyCode {
    Backquote,
    Backslash,
    BracketLeft,
    BracketRight,
    Comma,
    Digit0,
    Digit1,
    Digit2,
    Digit3,
    Digit4,
    Digit5,
    Digit6,
    Digit7,
    Digit8,
    Digit9,
    Equal,
    IntlBackslash,
    IntlRo,
    IntlYen,
    KeyA,
    KeyB,
    KeyC,
    KeyD,
    KeyE,
    KeyF,
    KeyG,
    KeyH,
    KeyI,
    KeyJ,
    KeyK,
    KeyL,
    KeyM,
    KeyN,
    KeyO,
    KeyP,
    KeyQ,
    KeyR,
    KeyS,
    KeyT,
    KeyU,
    KeyV,
    KeyW,
    KeyX,
    KeyY,
    KeyZ,
    Minus,
    Period,
    Quote,
    Semicolon,
    Slash,
    AltLeft,
    AltRight,
    Backspace,
    CapsLock,
    ContextMenu,
    ControlLeft,
    ControlRight,
    Enter,
    SuperLeft,
    SuperRight,
    ShiftLeft,
    ShiftRight,
    Space,
    Tab,
    Convert,
    KanaMode,
    Lang1,
    Lang2,
    Lang3,
    Lang4,
    Lang5,
    NonConvert,
    Delete,
    End,
    Help,
    Home,
    Insert,
    PageDown,
    PageUp,
    ArrowDown,
    ArrowLeft,
    ArrowRight,
    ArrowUp,
    NumLock,
    Numpad0,
    Numpad1,
    Numpad2,
    Numpad3,
    Numpad4,
    Numpad5,
    Numpad6,
    Numpad7,
    Numpad8,
    Numpad9,
    NumpadAdd,
    NumpadBackspace,
    NumpadClear,
    NumpadClearEntry,
    NumpadComma,
    NumpadDecimal,
    NumpadDivide,
    NumpadEnter,
    NumpadEqual,
    NumpadHash,
    NumpadMemoryAdd,
    NumpadMemoryClear,
    NumpadMemoryRecall,
    NumpadMemoryStore,
    NumpadMemorySubtract,
    NumpadMultiply,
    NumpadParenLeft,
    NumpadParenRight,
    NumpadStar,
    NumpadSubtract,
    Escape,
    Fn,
    FnLock,
    PrintScreen,
    ScrollLock,
    Pause,
    BrowserBack,
    BrowserFavorites,
    BrowserForward,
    BrowserHome,
    BrowserRefresh,
    BrowserSearch,
    BrowserStop,
    Eject,
    LaunchApp1,
    LaunchApp2,
    LaunchMail,
    MediaPlayPause,
    MediaSelect,
    MediaStop,
    MediaTrackNext,
    MediaTrackPrevious,
    Power,
    Sleep,
    AudioVolumeDown,
    AudioVolumeMute,
    AudioVolumeUp,
    WakeUp,
    Meta,
    Hyper,
    Turbo,
    Abort,
    Resume,
    Suspend,
    Again,
    Copy,
    Cut,
    Find,
    Open,
    Paste,
    Props,
    Select,
    Undo,
    Hiragana,
    Katakana,
    F1,
    F2,
    F3,
    F4,
    F5,
    F6,
    F7,
    F8,
    F9,
    F10,
    F11,
    F12,
    F13,
    F14,
    F15,
    F16,
    F17,
    F18,
    F19,
    F20,
    F21,
    F22,
    F23,
    F24,
    F25,
    F26,
    F27,
    F28,
    F29,
    F30,
    F31,
    F32,
    F33,
    F34,
    F35,
}

/// The code of the physical key that bears the same name as `k`.
pub open spec fn code_of_key(k: Key) -> KeyCode {
    match k {
        Key::Backquote => KeyCode::Backquote,
        Key::Backslash => KeyCode::Backslash,
        Key::BracketLeft => KeyCode::BracketLeft,
        Key::BracketRight => KeyCode::BracketRight,
        Key::Comma => KeyCode::Comma,
        Key::Digit0 => KeyCode::Digit0,
        Key::Digit1 => KeyCode::Digit1,
        Key::Digit2 => KeyCode::Digit2,
        Key::Digit3 => KeyCode::Digit3,
        Key::Digit4 => KeyCode::Digit4,
        Key::Digit5 => KeyCode::Digit5,
        Key::Digit6 => KeyCode::Digit6,
        Key::Digit7 => KeyCode::Digit7,
        Key::Digit8 => KeyCode::Digit8,
        Key::Digit9 => KeyCode::Digit9,
        Key::Equal => KeyCode::Equal,
        Key::KeyA => KeyCode::KeyA,
        Key::KeyB => KeyCode::KeyB,
        Key::KeyC => KeyCode::KeyC,
        Key::KeyD => KeyCode::KeyD,
        Key::KeyE => KeyCode::KeyE,
        Key::KeyF => KeyCode::KeyF,
        Key::KeyG => KeyCode::KeyG,
        Key::KeyH => KeyCode::KeyH,
        Key::KeyI => KeyCode::KeyI,
        Key::KeyJ => KeyCode::KeyJ,
        Key::KeyK => KeyCode::KeyK,
        Key::KeyL => KeyCode::KeyL,
        Key::KeyM => KeyCode::KeyM,
        Key::KeyN => KeyCode::KeyN,
        Key::KeyO => KeyCode::KeyO,
        Key::KeyP => KeyCode::KeyP,
        Key::KeyQ => KeyCode::KeyQ,
        Key::KeyR => KeyCode::KeyR,
        Key::KeyS => KeyCode::KeyS,
        Key::KeyT => KeyCode::KeyT,
        Key::KeyU => KeyCode::KeyU,
        Key::KeyV => KeyCode::KeyV,
        Key::KeyW => KeyCode::KeyW,
        Key::KeyX => KeyCode::KeyX,
        Key::KeyY => KeyCode::KeyY,
        Key::KeyZ => KeyCode::KeyZ,
        Key::Minus => KeyCode::Minus,
        Key::Period => KeyCode::Period,
        Key::Quote => KeyCode::Quote,
        Key::Semicolon => KeyCode::Semicolon,
        Key::Slash => KeyCode::Slash,
        Key::AltLeft => KeyCode::AltLeft,
        Key::AltRight => KeyCode::AltRight,
        Key::Backspace => KeyCode::Backspace,
        Key::CapsLock => KeyCode::CapsLock,
        Key::ContextMenu => KeyCode::ContextMenu,
        Key::ControlLeft => KeyCode::ControlLeft,
        Key::ControlRight => KeyCode::ControlRight,
        Key::Enter => KeyCode::Enter,
        Key::SuperLeft => KeyCode::SuperLeft,
        Key::SuperRight => KeyCode::SuperRight,
        Key::ShiftLeft => KeyCode::ShiftLeft,
        Key::ShiftRight => KeyCode::ShiftRight,
        Key::Space => KeyCode::Space,
        Key::Tab => KeyCode::Tab,
        Key::Convert => KeyCode::Convert,
        Key::Delete => KeyCode::Delete,
        Key::End => KeyCode::End,
        Key::Help => KeyCode::Help,
        Key::Home => KeyCode::Home,
        Key::Insert => KeyCode::Insert,
        Key::PageDown => KeyCode::PageDown,
        Key::PageUp => KeyCode::PageUp,
        Key::ArrowDown => KeyCode::ArrowDown,
        Key::ArrowLeft => KeyCode::ArrowLeft,
        Key::ArrowRight => KeyCode::ArrowRight,
        Key::ArrowUp => KeyCode::ArrowUp,
        Key::NumLock => KeyCode::NumLock,
        Key::Numpad0 => KeyCode::Numpad0,
        Key::Numpad1 => KeyCode::Numpad1,
        Key::Numpad2 => KeyCode::Numpad2,
        Key::Numpad3 => KeyCode::Numpad3,
        Key::Numpad4 => KeyCode::Numpad4,
        Key::Numpad5 => KeyCode::Numpad5,
        Key::Numpad6 => KeyCode::Numpad6,
        Key::Numpad7 => KeyCode::Numpad7,
        Key::Numpad8 => KeyCode::Numpad8,
        Key::Numpad9 => KeyCode::Numpad9,
        Key::NumpadAdd => KeyCode::NumpadAdd,
        Key::NumpadBackspace => KeyCode::NumpadBackspace,
        Key::NumpadClear => KeyCode::NumpadClear,
        Key::NumpadClearEntry => KeyCode::NumpadClearEntry,
        Key::NumpadComma => KeyCode::NumpadComma,
        Key::NumpadDecimal => KeyCode::NumpadDecimal,
        Key::NumpadDivide => KeyCode::NumpadDivide,
        Key::NumpadEnter => KeyCode::NumpadEnter,
        Key::NumpadEqual => KeyCode::NumpadEqual,
        Key::NumpadHash => KeyCode::NumpadHash,
        Key::NumpadMemoryAdd => KeyCode::NumpadMemoryAdd,
        Key::NumpadMemoryClear => KeyCode::NumpadMemoryClear,
        Key::NumpadMemoryRecall => KeyCode::NumpadMemoryRecall,
        Key::NumpadMemoryStore => KeyCode::NumpadMemoryStore,
        Key::NumpadMemorySubtract => KeyCode::NumpadMemorySubtract,
        Key::NumpadMultiply => KeyCode::NumpadMultiply,
        Key::NumpadParenLeft => KeyCode::NumpadParenLeft,
        Key::NumpadParenRight => KeyCode::NumpadParenRight,
        Key::NumpadStar => KeyCode::NumpadStar,
        Key::NumpadSubtract => KeyCode::NumpadSubtract,
        Key::Escape => KeyCode::Escape,
        Key::Fn => KeyCode::Fn,
        Key::FnLock => KeyCode::FnLock,
        Key::PrintScreen => KeyCode::PrintScreen,
        Key::ScrollLock => KeyCode::ScrollLock,
        Key::Pause => KeyCode::Pause,
        Key::BrowserBack => KeyCode::BrowserBack,
        Key::BrowserFavorites => KeyCode::BrowserFavorites,
        Key::BrowserForward => KeyCode::BrowserForward,
        Key::BrowserHome => KeyCode::BrowserHome,
        Key::BrowserRefresh => KeyCode::BrowserRefresh,
        Key::BrowserSearch => KeyCode::BrowserSearch,
        Key::BrowserStop => KeyCode::BrowserStop,
        Key::MediaPlayPause => KeyCode::MediaPlayPause,
        Key::MediaSelect => KeyCode::MediaSelect,
        Key::MediaStop => KeyCode::MediaStop,
        Key::MediaTrackNext => KeyCode::MediaTrackNext,
        Key::MediaTrackPrevious => KeyCode::MediaTrackPrevious,
        Key::Power => KeyCode::Power,
        Key::Sleep => KeyCode::Sleep,
        Key::AudioVolumeDown => KeyCode::AudioVolumeDown,
        Key::AudioVolumeMute => KeyCode::AudioVolumeMute,
        Key::AudioVolumeUp => KeyCode::AudioVolumeUp,
        Key::WakeUp => KeyCode::WakeUp,
        Key::Abort => KeyCode::Abort,
        Key::Resume => KeyCode::Resume,
        Key::Suspend => KeyCode::Suspend,
        Key::Again => KeyCode::Again,
        Key::Copy => KeyCode::Copy,
        Key::Cut => KeyCode::Cut,
        Key::Find => KeyCode::Find,
        Key::Open => KeyCode::Open,
        Key::Paste => KeyCode::Paste,
        Key::Props => KeyCode::Props,
        Key::Select => KeyCode::Select,
        Key::Undo => KeyCode::Undo,
        Key::F1 => KeyCode::F1,
        Key::F2 => KeyCode::F2,
        Key::F3 => KeyCode::F3,
        Key::F4 => KeyCode::F4,
        Key::F5 => KeyCode::F5,
        Key::F6 => KeyCode::F6,
        Key::F7 => KeyCode::F7,
        Key::F8 => KeyCode::F8,
        Key::F9 => KeyCode::F9,
        Key::F10 => KeyCode::F10,
        Key::F11 => KeyCode::F11,
        Key::F12 => KeyCode::F12,
    }
}

/// The logical key that bears the same name as the code `c`, if there is one.
pub open spec fn key_named(c: KeyCode) -> Option<Key> {
    match c {
        KeyCode::Backquote => Some(Key::Backquote),
        KeyCode::Backslash => Some(Key::Backslash),
        KeyCode::BracketLeft => Some(Key::BracketLeft),
        KeyCode::BracketRight => Some(Key::BracketRight),
        KeyCode::Comma => Some(Key::Comma),
        KeyCode::Digit0 => Some(Key::Digit0),
        KeyCode::Digit1 => Some(Key::Digit1),
        KeyCode::Digit2 => Some(Key::Digit2),
        KeyCode::Digit3 => Some(Key::Digit3),
        KeyCode::Digit4 => Some(Key::Digit4),
        KeyCode::Digit5 => Some(Key::Digit5),
        KeyCode::Digit6 => Some(Key::Digit6),
        KeyCode::Digit7 => Some(Key::Digit7),
        KeyCode::Digit8 => Some(Key::Digit8),
        KeyCode::Digit9 => Some(Key::Digit9),
        KeyCode::Equal => Some(Key::Equal),
        KeyCode::KeyA => Some(Key::KeyA),
        KeyCode::KeyB => Some(Key::KeyB),
        KeyCode::KeyC => Some(Key::KeyC),
        KeyCode::KeyD => Some(Key::KeyD),
        KeyCode::KeyE => Some(Key::KeyE),
        KeyCode::KeyF => Some(Key::KeyF),
        KeyCode::KeyG => Some(Key::KeyG),
        KeyCode::KeyH => Some(Key::KeyH),
        KeyCode::KeyI => Some(Key::KeyI),
        KeyCode::KeyJ => Some(Key::KeyJ),
        KeyCode::KeyK => Some(Key::KeyK),
        KeyCode::KeyL => Some(Key::KeyL),
        KeyCode::KeyM => Some(Key::KeyM),
        KeyCode::KeyN => Some(Key::KeyN),
        KeyCode::KeyO => Some(Key::KeyO),
        KeyCode::KeyP => Some(Key::KeyP),
        KeyCode::KeyQ => Some(Key::KeyQ),
        KeyCode::KeyR => Some(Key::KeyR),
        KeyCode::KeyS => Some(Key::KeyS),
        KeyCode::KeyT => Some(Key::KeyT),
        KeyCode::KeyU => Some(Key::KeyU),
        KeyCode::KeyV => Some(Key::KeyV),
        KeyCode::KeyW => Some(Key::KeyW),
        KeyCode::KeyX => Some(Key::KeyX),
        KeyCode::KeyY => Some(Key::KeyY),
        KeyCode::KeyZ => Some(Key::KeyZ),
        KeyCode::Minus => Some(Key::Minus),
        KeyCode::Period => Some(Key::Period),
        KeyCode::Quote => Some(Key::Quote),
        KeyCode::Semicolon => Some(Key::Semicolon),
        KeyCode::Slash => Some(Key::Slash),
        KeyCode::AltLeft => Some(Key::AltLeft),
        KeyCode::AltRight => Some(Key::AltRight),
        KeyCode::Backspace => Some(Key::Backspace),
        KeyCode::CapsLock => Some(Key::CapsLock),
        KeyCode::ContextMenu => Some(Key::ContextMenu),
        KeyCode::ControlLeft => Some(Key::ControlLeft),
        KeyCode::ControlRight => Some(Key::ControlRight),
        KeyCode::Enter => Some(Key::Enter),
        KeyCode::SuperLeft => Some(Key::SuperLeft),
        KeyCode::SuperRight => Some(Key::SuperRight),
        KeyCode::ShiftLeft => Some(Key::ShiftLeft),
        KeyCode::ShiftRight => Some(Key::ShiftRight),
        KeyCode::Space => Some(Key::Space),
        KeyCode::Tab => Some(Key::Tab),
        KeyCode::Convert => Some(Key::Convert),
        KeyCode::Delete => Some(Key::Delete),
        KeyCode::End => Some(Key::End),
        KeyCode::Help => Some(Key::Help),
        KeyCode::Home => Some(Key::Home),
        KeyCode::Insert => Some(Key::Insert),
        KeyCode::PageDown => Some(Key::PageDown),
        KeyCode::PageUp => Some(Key::PageUp),
        KeyCode::ArrowDown => Some(Key::ArrowDown),
        KeyCode::ArrowLeft => Some(Key::ArrowLeft),
        KeyCode::ArrowRight => Some(Key::ArrowRight),
        KeyCode::ArrowUp => Some(Key::ArrowUp),
        KeyCode::NumLock => Some(Key::NumLock),
        KeyCode::Numpad0 => Some(Key::Numpad0),
        KeyCode::Numpad1 => Some(Key::Numpad1),
        KeyCode::Numpad2 => Some(Key::Numpad2),
        KeyCode::Numpad3 => Some(Key::Numpad3),
        KeyCode::Numpad4 => Some(Key::Numpad4),
        KeyCode::Numpad5 => Some(Key::Numpad5),
        KeyCode::Numpad6 => Some(Key::Numpad6),
        KeyCode::Numpad7 => Some(Key::Numpad7),
        KeyCode::Numpad8 => Some(Key::Numpad8),
        KeyCode::Numpad9 => Some(Key::Numpad9),
        KeyCode::NumpadAdd => Some(Key::NumpadAdd),
        KeyCode::NumpadBackspace => Some(Key::NumpadBackspace),
        KeyCode::NumpadClear => Some(Key::NumpadClear),
        KeyCode::NumpadClearEntry => Some(Key::NumpadClearEntry),
        KeyCode::NumpadComma => Some(Key::NumpadComma),
        KeyCode::NumpadDecimal => Some(Key::NumpadDecimal),
        KeyCode::NumpadDivide => Some(Key::NumpadDivide),
        KeyCode::NumpadEnter => Some(Key::NumpadEnter),
        KeyCode::NumpadEqual => Some(Key::NumpadEqual),
        KeyCode::NumpadHash => Some(Key::NumpadHash),
        KeyCode::NumpadMemoryAdd => Some(Key::NumpadMemoryAdd),
        KeyCode::NumpadMemoryClear => Some(Key::NumpadMemoryClear),
        KeyCode::NumpadMemoryRecall => Some(Key::NumpadMemoryRecall),
        KeyCode::NumpadMemoryStore => Some(Key::NumpadMemoryStore),
        KeyCode::NumpadMemorySubtract => Some(Key::NumpadMemorySubtract),
        KeyCode::NumpadMultiply => Some(Key::NumpadMultiply),
        KeyCode::NumpadParenLeft => Some(Key::NumpadParenLeft),
        KeyCode::NumpadParenRight => Some(Key::NumpadParenRight),
        KeyCode::NumpadStar => Some(Key::NumpadStar),
        KeyCode::NumpadSubtract => Some(Key::NumpadSubtract),
        KeyCode::Escape => Some(Key::Escape),
        KeyCode::Fn => Some(Key::Fn),
        KeyCode::FnLock => Some(Key::FnLock),
        KeyCode::PrintScreen => Some(Key::PrintScreen),
        KeyCode::ScrollLock => Some(Key::ScrollLock),
        KeyCode::Pause => Some(Key::Pause),
        KeyCode::BrowserBack => Some(Key::BrowserBack),
        KeyCode::BrowserFavorites => Some(Key::BrowserFavorites),
        KeyCode::BrowserForward => Some(Key::BrowserForward),
        KeyCode::BrowserHome => Some(Key::BrowserHome),
        KeyCode::BrowserRefresh => Some(Key::BrowserRefresh),
        KeyCode::BrowserSearch => Some(Key::BrowserSearch),
        KeyCode::BrowserStop => Some(Key::BrowserStop),
        KeyCode::MediaPlayPause => Some(Key::MediaPlayPause),
        KeyCode::MediaSelect => Some(Key::MediaSelect),
        KeyCode::MediaStop => Some(Key::MediaStop),
        KeyCode::MediaTrackNext => Some(Key::MediaTrackNext),
        KeyCode::MediaTrackPrevious => Some(Key::MediaTrackPrevious),
        KeyCode::Power => Some(Key::Power),
        KeyCode::Sleep => Some(Key::Sleep),
        KeyCode::AudioVolumeDown => Some(Key::AudioVolumeDown),
        KeyCode::AudioVolumeMute => Some(Key::AudioVolumeMute),
        KeyCode::AudioVolumeUp => Some(Key::AudioVolumeUp),
        KeyCode::WakeUp => Some(Key::WakeUp),
        KeyCode::Abort => Some(Key::Abort),
        KeyCode::Resume => Some(Key::Resume),
        KeyCode::Suspend => Some(Key::Suspend),
        KeyCode::Again => Some(Key::Again),
        KeyCode::Copy => Some(Key::Copy),
        KeyCode::Cut => Some(Key::Cut),
        KeyCode::Find => Some(Key::Find),
        KeyCode::Open => Some(Key::Open),
        KeyCode::Paste => Some(Key::Paste),
        KeyCode::Props => Some(Key::Props),
        KeyCode::Select => Some(Key::Select),
        KeyCode::Undo => Some(Key::Undo),
        KeyCode::F1 => Some(Key::F1),
        KeyCode::F2 => Some(Key::F2),
        KeyCode::F3 => Some(Key::F3),
        KeyCode::F4 => Some(Key::F4),
        KeyCode::F5 => Some(Key::F5),
        KeyCode::F6 => Some(Key::F6),
        KeyCode::F7 => Some(Key::F7),
        KeyCode::F8 => Some(Key::F8),
        KeyCode::F9 => Some(Key::F9),
        KeyCode::F10 => Some(Key::F10),
        KeyCode::F11 => Some(Key::F11),
        KeyCode::F12 => Some(Key::F12),
        _ => None,
    }
}

/// The codes of the keys next to the shift keys on international layouts,
/// which produce the backslash key.
pub open spec fn is_intl_backslash(c: KeyCode) -> bool {
    c == KeyCode::IntlBackslash || c == KeyCode::IntlRo || c == KeyCode::IntlYen
}

/// The logical key read from a physical key code: the key of the same name,
/// with the international backslash positions read as the backslash key.
pub open spec fn key_from_code(c: KeyCode) -> Option<Key> {
    if is_intl_backslash(c) {
        Some(Key::Backslash)
    } else {
        key_named(c)
    }
}

/// Every logical key is named by exactly one code: reading the code of a key
/// gives the key back.
pub proof fn lemma_key_code_round_trip(k: Key)
    ensures
        key_named(code_of_key(k)) == Some(k),
        key_from_code(code_of_key(k)) == Some(k),
{
}

/// `key_named` only ever names a key after its own code.
pub proof fn lemma_key_named_inverse(c: KeyCode)
    ensures
        key_named(c) matches Some(k) ==> code_of_key(k) == c,
{
}

/// Two keys with the same code are the same key.
pub proof fn lemma_code_of_key_injective(k1: Key, k2: Key)
    ensures
        code_of_key(k1) == code_of_key(k2) ==> k1 == k2,
{
    lemma_key_code_round_trip(k1);
    lemma_key_code_round_trip(k2);
}

/// The name of a logical key, as written in its variant.
pub open spec fn key_name(k: Key) -> Seq<char> {
    match k {
        Key::Backquote => "Backquote"@,
        Key::Backslash => "Backslash"@,
        Key::BracketLeft => "BracketLeft"@,
        Key::BracketRight => "BracketRight"@,
        Key::Comma => "Comma"@,
        Key::Digit0 => "Digit0"@,
        Key::Digit1 => "Digit1"@,
        Key::Digit2 => "Digit2"@,
        Key::Digit3 => "Digit3"@,
        Key::Digit4 => "Digit4"@,
        Key::Digit5 => "Digit5"@,
        Key::Digit6 => "Digit6"@,
        Key::Digit7 => "Digit7"@,
        Key::Digit8 => "Digit8"@,
        Key::Digit9 => "Digit9"@,
        Key::Equal => "Equal"@,
        Key::KeyA => "KeyA"@,
        Key::KeyB => "KeyB"@,
        Key::KeyC => "KeyC"@,
        Key::KeyD => "KeyD"@,
        Key::KeyE => "KeyE"@,
        Key::KeyF => "KeyF"@,
        Key::KeyG => "KeyG"@,
        Key::KeyH => "KeyH"@,
        Key::KeyI => "KeyI"@,
        Key::KeyJ => "KeyJ"@,
        Key::KeyK => "KeyK"@,
        Key::KeyL => "KeyL"@,
        Key::KeyM => "KeyM"@,
        Key::KeyN => "KeyN"@,
        Key::KeyO => "KeyO"@,
        Key::KeyP => "KeyP"@,
        Key::KeyQ => "KeyQ"@,
        Key::KeyR => "KeyR"@,
        Key::KeyS => "KeyS"@,
        Key::KeyT => "KeyT"@,
        Key::KeyU => "KeyU"@,
        Key::KeyV => "KeyV"@,
        Key::KeyW => "KeyW"@,
        Key::KeyX => "KeyX"@,
        Key::KeyY => "KeyY"@,
        Key::KeyZ => "KeyZ"@,
        Key::Minus => "Minus"@,
        Key::Period => "Period"@,
        Key::Quote => "Quote"@,
        Key::Semicolon => "Semicolon"@,
        Key::Slash => "Slash"@,
        Key::AltLeft => "AltLeft"@,
        Key::AltRight => "AltRight"@,
        Key::Backspace => "Backspace"@,
        Key::CapsLock => "CapsLock"@,
        Key::ContextMenu => "ContextMenu"@,
        Key::ControlLeft => "ControlLeft"@,
        Key::ControlRight => "ControlRight"@,
        Key::Enter => "Enter"@,
        Key::SuperLeft => "SuperLeft"@,
        Key::SuperRight => "SuperRight"@,
        Key::ShiftLeft => "ShiftLeft"@,
        Key::ShiftRight => "ShiftRight"@,
        Key::Space => "Space"@,
        Key::Tab => "Tab"@,
        Key::Convert => "Convert"@,
        Key::Delete => "Delete"@,
        Key::End => "End"@,
        Key::Help => "Help"@,
        Key::Home => "Home"@,
        Key::Insert => "Insert"@,
        Key::PageDown => "PageDown"@,
        Key::PageUp => "PageUp"@,
        Key::ArrowDown => "ArrowDown"@,
        Key::ArrowLeft => "ArrowLeft"@,
        Key::ArrowRight => "ArrowRight"@,
        Key::ArrowUp => "ArrowUp"@,
        Key::NumLock => "NumLock"@,
        Key::Numpad0 => "Numpad0"@,
        Key::Numpad1 => "Numpad1"@,
        Key::Numpad2 => "Numpad2"@,
        Key::Numpad3 => "Numpad3"@,
        Key::Numpad4 => "Numpad4"@,
        Key::Numpad5 => "Numpad5"@,
        Key::Numpad6 => "Numpad6"@,
        Key::Numpad7 => "Numpad7"@,
        Key::Numpad8 => "Numpad8"@,
        Key::Numpad9 => "Numpad9"@,
        Key::NumpadAdd => "NumpadAdd"@,
        Key::NumpadBackspace => "NumpadBackspace"@,
        Key::NumpadClear => "NumpadClear"@,
        Key::NumpadClearEntry => "NumpadClearEntry"@,
        Key::NumpadComma => "NumpadComma"@,
        Key::NumpadDecimal => "NumpadDecimal"@,
        Key::NumpadDivide => "NumpadDivide"@,
        Key::NumpadEnter => "NumpadEnter"@,
        Key::NumpadEqual => "NumpadEqual"@,
        Key::NumpadHash => "NumpadHash"@,
        Key::NumpadMemoryAdd => "NumpadMemoryAdd"@,
        Key::NumpadMemoryClear => "NumpadMemoryClear"@,
        Key::NumpadMemoryRecall => "NumpadMemoryRecall"@,
        Key::NumpadMemoryStore => "NumpadMemoryStore"@,
        Key::NumpadMemorySubtract => "NumpadMemorySubtract"@,
        Key::NumpadMultiply => "NumpadMultiply"@,
        Key::NumpadParenLeft => "NumpadParenLeft"@,
        Key::NumpadParenRight => "NumpadParenRight"@,
        Key::NumpadStar => "NumpadStar"@,
        Key::NumpadSubtract => "NumpadSubtract"@,
        Key::Escape => "Escape"@,
        Key::Fn => "Fn"@,
        Key::FnLock => "FnLock"@,
        Key::PrintScreen => "PrintScreen"@,
        Key::ScrollLock => "ScrollLock"@,
        Key::Pause => "Pause"@,
        Key::BrowserBack => "BrowserBack"@,
        Key::BrowserFavorites => "BrowserFavorites"@,
        Key::BrowserForward => "BrowserForward"@,
        Key::BrowserHome => "BrowserHome"@,
        Key::BrowserRefresh => "BrowserRefresh"@,
        Key::BrowserSearch => "BrowserSearch"@,
        Key::BrowserStop => "BrowserStop"@,
        Key::MediaPlayPause => "MediaPlayPause"@,
        Key::MediaSelect => "MediaSelect"@,
        Key::MediaStop => "MediaStop"@,
        Key::MediaTrackNext => "MediaTrackNext"@,
        Key::MediaTrackPrevious => "MediaTrackPrevious"@,
        Key::Power => "Power"@,
        Key::Sleep => "Sleep"@,
        Key::AudioVolumeDown => "AudioVolumeDown"@,
        Key::AudioVolumeMute => "AudioVolumeMute"@,
        Key::AudioVolumeUp => "AudioVolumeUp"@,
        Key::WakeUp => "WakeUp"@,
        Key::Abort => "Abort"@,
        Key::Resume => "Resume"@,
        Key::Suspend => "Suspend"@,
        Key::Again => "Again"@,
        Key::Copy => "Copy"@,
        Key::Cut => "Cut"@,
        Key::Find => "Find"@,
        Key::Open => "Open"@,
        Key::Paste => "Paste"@,
        Key::Props => "Props"@,
        Key::Select => "Select"@,
        Key::Undo => "Undo"@,
        Key::F1 => "F1"@,
        Key::F2 => "F2"@,
        Key::F3 => "F3"@,
        Key::F4 => "F4"@,
        Key::F5 => "F5"@,
        Key::F6 => "F6"@,
        Key::F7 => "F7"@,
        Key::F8 => "F8"@,
        Key::F9 => "F9"@,
        Key::F10 => "F10"@,
        Key::F11 => "F11"@,
        Key::F12 => "F12"@,
    }
}

/// The name of a physical key code, as written in its variant.
pub open spec fn key_code_name(c: KeyCode) -> Seq<char> {
    match c {
        KeyCode::Backquote => "Backquote"@,
        KeyCode::Backslash => "Backslash"@,
        KeyCode::BracketLeft => "BracketLeft"@,
        KeyCode::BracketRight => "BracketRight"@,
        KeyCode::Comma => "Comma"@,
        KeyCode::Digit0 => "Digit0"@,
        KeyCode::Digit1 => "Digit1"@,
        KeyCode::Digit2 => "Digit2"@,
        KeyCode::Digit3 => "Digit3"@,
        KeyCode::Digit4 => "Digit4"@,
        KeyCode::Digit5 => "Digit5"@,
        KeyCode::Digit6 => "Digit6"@,
        KeyCode::Digit7 => "Digit7"@,
        KeyCode::Digit8 => "Digit8"@,
        KeyCode::Digit9 => "Digit9"@,
        KeyCode::Equal => "Equal"@,
        KeyCode::IntlBackslash => "IntlBackslash"@,
        KeyCode::IntlRo => "IntlRo"@,
        KeyCode::IntlYen => "IntlYen"@,
        KeyCode::KeyA => "KeyA"@,
        KeyCode::KeyB => "KeyB"@,
        KeyCode::KeyC => "KeyC"@,
        KeyCode::KeyD => "KeyD"@,
        KeyCode::KeyE => "KeyE"@,
        KeyCode::KeyF => "KeyF"@,
        KeyCode::KeyG => "KeyG"@,
        KeyCode::KeyH => "KeyH"@,
        KeyCode::KeyI => "KeyI"@,
        KeyCode::KeyJ => "KeyJ"@,
        KeyCode::KeyK => "KeyK"@,
        KeyCode::KeyL => "KeyL"@,
        KeyCode::KeyM => "KeyM"@,
        KeyCode::KeyN => "KeyN"@,
        KeyCode::KeyO => "KeyO"@,
        KeyCode::KeyP => "KeyP"@,
        KeyCode::KeyQ => "KeyQ"@,
        KeyCode::KeyR => "KeyR"@,
        KeyCode::KeyS => "KeyS"@,
        KeyCode::KeyT => "KeyT"@,
        KeyCode::KeyU => "KeyU"@,
        KeyCode::KeyV => "KeyV"@,
        KeyCode::KeyW => "KeyW"@,
        KeyCode::KeyX => "KeyX"@,
        KeyCode::KeyY => "KeyY"@,
        KeyCode::KeyZ => "KeyZ"@,
        KeyCode::Minus => "Minus"@,
        KeyCode::Period => "Period"@,
        KeyCode::Quote => "Quote"@,
        KeyCode::Semicolon => "Semicolon"@,
        KeyCode::Slash => "Slash"@,
        KeyCode::AltLeft => "AltLeft"@,
        KeyCode::AltRight => "AltRight"@,
        KeyCode::Backspace => "Backspace"@,
        KeyCode::CapsLock => "CapsLock"@,
        KeyCode::ContextMenu => "ContextMenu"@,
        KeyCode::ControlLeft => "ControlLeft"@,
        KeyCode::ControlRight => "ControlRight"@,
        KeyCode::Enter => "Enter"@,
        KeyCode::SuperLeft => "SuperLeft"@,
        KeyCode::SuperRight => "SuperRight"@,
        KeyCode::ShiftLeft => "ShiftLeft"@,
        KeyCode::ShiftRight => "ShiftRight"@,
        KeyCode::Space => "Space"@,
        KeyCode::Tab => "Tab"@,
        KeyCode::Convert => "Convert"@,
        KeyCode::KanaMode => "KanaMode"@,
        KeyCode::Lang1 => "Lang1"@,
        KeyCode::Lang2 => "Lang2"@,
        KeyCode::Lang3 => "Lang3"@,
        KeyCode::Lang4 => "Lang4"@,
        KeyCode::Lang5 => "Lang5"@,
        KeyCode::NonConvert => "NonConvert"@,
        KeyCode::Delete => "Delete"@,
        KeyCode::End => "End"@,
        KeyCode::Help => "Help"@,
        KeyCode::Home => "Home"@,
        KeyCode::Insert => "Insert"@,
        KeyCode::PageDown => "PageDown"@,
        KeyCode::PageUp => "PageUp"@,
        KeyCode::ArrowDown => "ArrowDown"@,
        KeyCode::ArrowLeft => "ArrowLeft"@,
        KeyCode::ArrowRight => "ArrowRight"@,
        KeyCode::ArrowUp => "ArrowUp"@,
        KeyCode::NumLock => "NumLock"@,
        KeyCode::Numpad0 => "Numpad0"@,
        KeyCode::Numpad1 => "Numpad1"@,
        KeyCode::Numpad2 => "Numpad2"@,
        KeyCode::Numpad3 => "Numpad3"@,
        KeyCode::Numpad4 => "Numpad4"@,
        KeyCode::Numpad5 => "Numpad5"@,
        KeyCode::Numpad6 => "Numpad6"@,
        KeyCode::Numpad7 => "Numpad7"@,
        KeyCode::Numpad8 => "Numpad8"@,
        KeyCode::Numpad9 => "Numpad9"@,
        KeyCode::NumpadAdd => "NumpadAdd"@,
        KeyCode::NumpadBackspace => "NumpadBackspace"@,
        KeyCode::NumpadClear => "NumpadClear"@,
        KeyCode::NumpadClearEntry => "NumpadClearEntry"@,
        KeyCode::NumpadComma => "NumpadComma"@,
        KeyCode::NumpadDecimal => "NumpadDecimal"@,
        KeyCode::NumpadDivide => "NumpadDivide"@,
        KeyCode::NumpadEnter => "NumpadEnter"@,
        KeyCode::NumpadEqual => "NumpadEqual"@,
        KeyCode::NumpadHash => "NumpadHash"@,
        KeyCode::NumpadMemoryAdd => "NumpadMemoryAdd"@,
        KeyCode::NumpadMemoryClear => "NumpadMemoryClear"@,
        KeyCode::NumpadMemoryRecall => "NumpadMemoryRecall"@,
        KeyCode::NumpadMemoryStore => "NumpadMemoryStore"@,
        KeyCode::NumpadMemorySubtract => "NumpadMemorySubtract"@,
        KeyCode::NumpadMultiply => "NumpadMultiply"@,
        KeyCode::NumpadParenLeft => "NumpadParenLeft"@,
        KeyCode::NumpadParenRight => "NumpadParenRight"@,
        KeyCode::NumpadStar => "NumpadStar"@,
        KeyCode::NumpadSubtract => "NumpadSubtract"@,
        KeyCode::Escape => "Escape"@,
        KeyCode::Fn => "Fn"@,
        KeyCode::FnLock => "FnLock"@,
        KeyCode::PrintScreen => "PrintScreen"@,
        KeyCode::ScrollLock => "ScrollLock"@,
        KeyCode::Pause => "Pause"@,
        KeyCode::BrowserBack => "BrowserBack"@,
        KeyCode::BrowserFavorites => "BrowserFavorites"@,
        KeyCode::BrowserForward => "BrowserForward"@,
        KeyCode::BrowserHome => "BrowserHome"@,
        KeyCode::BrowserRefresh => "BrowserRefresh"@,
        KeyCode::BrowserSearch => "BrowserSearch"@,
        KeyCode::BrowserStop => "BrowserStop"@,
        KeyCode::Eject => "Eject"@,
        KeyCode::LaunchApp1 => "LaunchApp1"@,
        KeyCode::LaunchApp2 => "LaunchApp2"@,
        KeyCode::LaunchMail => "LaunchMail"@,
        KeyCode::MediaPlayPause => "MediaPlayPause"@,
        KeyCode::MediaSelect => "MediaSelect"@,
        KeyCode::MediaStop => "MediaStop"@,
        KeyCode::MediaTrackNext => "MediaTrackNext"@,
        KeyCode::MediaTrackPrevious => "MediaTrackPrevious"@,
        KeyCode::Power => "Power"@,
        KeyCode::Sleep => "Sleep"@,
        KeyCode::AudioVolumeDown => "AudioVolumeDown"@,
        KeyCode::AudioVolumeMute => "AudioVolumeMute"@,
        KeyCode::AudioVolumeUp => "AudioVolumeUp"@,
        KeyCode::WakeUp => "WakeUp"@,
        KeyCode::Meta => "Meta"@,
        KeyCode::Hyper => "Hyper"@,
        KeyCode::Turbo => "Turbo"@,
        KeyCode::Abort => "Abort"@,
        KeyCode::Resume => "Resume"@,
        KeyCode::Suspend => "Suspend"@,
        KeyCode::Again => "Again"@,
        KeyCode::Copy => "Copy"@,
        KeyCode::Cut => "Cut"@,
        KeyCode::Find => "Find"@,
        KeyCode::Open => "Open"@,
        KeyCode::Paste => "Paste"@,
        KeyCode::Props => "Props"@,
        KeyCode::Select => "Select"@,
        KeyCode::Undo => "Undo"@,
        KeyCode::Hiragana => "Hiragana"@,
        KeyCode::Katakana => "Katakana"@,
        KeyCode::F1 => "F1"@,
        KeyCode::F2 => "F2"@,
        KeyCode::F3 => "F3"@,
        KeyCode::F4 => "F4"@,
        KeyCode::F5 => "F5"@,
        KeyCode::F6 => "F6"@,
        KeyCode::F7 => "F7"@,
        KeyCode::F8 => "F8"@,
        KeyCode::F9 => "F9"@,
        KeyCode::F10 => "F10"@,
        KeyCode::F11 => "F11"@,
        KeyCode::F12 => "F12"@,
        KeyCode::F13 => "F13"@,
        KeyCode::F14 => "F14"@,
        KeyCode::F15 => "F15"@,
        KeyCode::F16 => "F16"@,
        KeyCode::F17 => "F17"@,
        KeyCode::F18 => "F18"@,
        KeyCode::F19 => "F19"@,
        KeyCode::F20 => "F20"@,
        KeyCode::F21 => "F21"@,
        KeyCode::F22 => "F22"@,
        KeyCode::F23 => "F23"@,
        KeyCode::F24 => "F24"@,
        KeyCode::F25 => "F25"@,
        KeyCode::F26 => "F26"@,
        KeyCode::F27 => "F27"@,
        KeyCode::F28 => "F28"@,
        KeyCode::F29 => "F29"@,
        KeyCode::F30 => "F30"@,
        KeyCode::F31 => "F31"@,
        KeyCode::F32 => "F32"@,
        KeyCode::F33 => "F33"@,
        KeyCode::F34 => "F34"@,
        KeyCode::F35 => "F35"@,
    }
}

/// A physical key code is read as the logical key of the same name; the
/// only exceptions are the international backslash positions, which are
/// read as the backslash key.
pub proof fn lemma_key_keeps_its_name(c: KeyCode)
    ensures
        key_from_code(c) matches Some(k) ==> key_name(k) == key_code_name(c) || ((c == KeyCode::IntlBackslash
            || c == KeyCode::IntlRo || c == KeyCode::IntlYen) && k == Key::Backslash),
{
}

impl Key {
    /// Translates a physical key code into a logical key; codes that have no
    /// logical key give `None`.
    pub fn from_winit_key(origin: KeyCode) -> (r: Option<Key>)
        ensures
            r == key_from_code(origin),
    {
        match origin {
            KeyCode::Backquote => Some(Key::Backquote),
            KeyCode::Backslash => Some(Key::Backslash),
            KeyCode::BracketLeft => Some(Key::BracketLeft),
            KeyCode::BracketRight => Some(Key::BracketRight),
            KeyCode::Comma => Some(Key::Comma),
            KeyCode::Digit0 => Some(Key::Digit0),
            KeyCode::Digit1 => Some(Key::Digit1),
            KeyCode::Digit2 => Some(Key::Digit2),
            KeyCode::Digit3 => Some(Key::Digit3),
            KeyCode::Digit4 => Some(Key::Digit4),
            KeyCode::Digit5 => Some(Key::Digit5),
            KeyCode::Digit6 => Some(Key::Digit6),
            KeyCode::Digit7 => Some(Key::Digit7),
            KeyCode::Digit8 => Some(Key::Digit8),
            KeyCode::Digit9 => Some(Key::Digit9),
            KeyCode::Equal => Some(Key::Equal),
            KeyCode::IntlBackslash => Some(Key::Backslash),
            KeyCode::IntlRo => Some(Key::Backslash),
            KeyCode::IntlYen => Some(Key::Backslash),
            KeyCode::KeyA => Some(Key::KeyA),
            KeyCode::KeyB => Some(Key::KeyB),
            KeyCode::KeyC => Some(Key::KeyC),
            KeyCode::KeyD => Some(Key::KeyD),
            KeyCode::KeyE => Some(Key::KeyE),
            KeyCode::KeyF => Some(Key::KeyF),
            KeyCode::KeyG => Some(Key::KeyG),
            KeyCode::KeyH => Some(Key::KeyH),
            KeyCode::KeyI => Some(Key::KeyI),
            KeyCode::KeyJ => Some(Key::KeyJ),
            KeyCode::KeyK => Some(Key::KeyK),
            KeyCode::KeyL => Some(Key::KeyL),
            KeyCode::KeyM => Some(Key::KeyM),
            KeyCode::KeyN => Some(Key::KeyN),
            KeyCode::KeyO => Some(Key::KeyO),
            KeyCode::KeyP => Some(Key::KeyP),
            KeyCode::KeyQ => Some(Key::KeyQ),
            KeyCode::KeyR => Some(Key::KeyR),
            KeyCode::KeyS => Some(Key::KeyS),
            KeyCode::KeyT => Some(Key::KeyT),
            KeyCode::KeyU => Some(Key::KeyU),
            KeyCode::KeyV => Some(Key::KeyV),
            KeyCode::KeyW => Some(Key::KeyW),
            KeyCode::KeyX => Some(Key::KeyX),
            KeyCode::KeyY => Some(Key::KeyY),
            KeyCode::KeyZ => Some(Key::KeyZ),
            KeyCode::Minus => Some(Key::Minus),
            KeyCode::Period => Some(Key::Period),
            KeyCode::Quote => Some(Key::Quote),
            KeyCode::Semicolon => Some(Key::Semicolon),
            KeyCode::Slash => Some(Key::Slash),
            KeyCode::AltLeft => Some(Key::AltLeft),
            KeyCode::AltRight => Some(Key::AltRight),
            KeyCode::Backspace => Some(Key::Backspace),
            KeyCode::CapsLock => Some(Key::CapsLock),
            KeyCode::ContextMenu => Some(Key::ContextMenu),
            KeyCode::ControlLeft => Some(Key::ControlLeft),
            KeyCode::ControlRight => Some(Key::ControlRight),
            KeyCode::Enter => Some(Key::Enter),
            KeyCode::SuperLeft => Some(Key::SuperLeft),
            KeyCode::SuperRight => Some(Key::SuperRight),
            KeyCode::ShiftLeft => Some(Key::ShiftLeft),
            KeyCode::ShiftRight => Some(Key::ShiftRight),
            KeyCode::Space => Some(Key::Space),
            KeyCode::Tab => Some(Key::Tab),
            KeyCode::Convert => Some(Key::Convert),
            KeyCode::Delete => Some(Key::Delete),
            KeyCode::End => Some(Key::End),
            KeyCode::Help => Some(Key::Help),
            KeyCode::Home => Some(Key::Home),
            KeyCode::Insert => Some(Key::Insert),
            KeyCode::PageDown => Some(Key::PageDown),
            KeyCode::PageUp => Some(Key::PageUp),
            KeyCode::ArrowDown => Some(Key::ArrowDown),
            KeyCode::ArrowLeft => Some(Key::ArrowLeft),
            KeyCode::ArrowRight => Some(Key::ArrowRight),
            KeyCode::ArrowUp => Some(Key::ArrowUp),
            KeyCode::NumLock => Some(Key::NumLock),
            KeyCode::Numpad0 => Some(Key::Numpad0),
            KeyCode::Numpad1 => Some(Key::Numpad1),
            KeyCode::Numpad2 => Some(Key::Numpad2),
            KeyCode::Numpad3 => Some(Key::Numpad3),
            KeyCode::Numpad4 => Some(Key::Numpad4),
            KeyCode::Numpad5 => Some(Key::Numpad5),
            KeyCode::Numpad6 => Some(Key::Numpad6),
            KeyCode::Numpad7 => Some(Key::Numpad7),
            KeyCode::Numpad8 => Some(Key::Numpad8),
            KeyCode::Numpad9 => Some(Key::Numpad9),
            KeyCode::NumpadAdd => Some(Key::NumpadAdd),
            KeyCode::NumpadBackspace => Some(Key::NumpadBackspace),
            KeyCode::NumpadClear => Some(Key::NumpadClear),
            KeyCode::NumpadClearEntry => Some(Key::NumpadClearEntry),
            KeyCode::NumpadComma => Some(Key::NumpadComma),
            KeyCode::NumpadDecimal => Some(Key::NumpadDecimal),
            KeyCode::NumpadDivide => Some(Key::NumpadDivide),
            KeyCode::NumpadEnter => Some(Key::NumpadEnter),
            KeyCode::NumpadEqual => Some(Key::NumpadEqual),
            KeyCode::NumpadHash => Some(Key::NumpadHash),
            KeyCode::NumpadMemoryAdd => Some(Key::NumpadMemoryAdd),
            KeyCode::NumpadMemoryClear => Some(Key::NumpadMemoryClear),
            KeyCode::NumpadMemoryRecall => Some(Key::NumpadMemoryRecall),
            KeyCode::NumpadMemoryStore => Some(Key::NumpadMemoryStore),
            KeyCode::NumpadMemorySubtract => Some(Key::NumpadMemorySubtract),
            KeyCode::NumpadMultiply => Some(Key::NumpadMultiply),
            KeyCode::NumpadParenLeft => Some(Key::NumpadParenLeft),
            KeyCode::NumpadParenRight => Some(Key::NumpadParenRight),
            KeyCode::NumpadStar => Some(Key::NumpadStar),
            KeyCode::NumpadSubtract => Some(Key::NumpadSubtract),
            KeyCode::Escape => Some(Key::Escape),
            KeyCode::Fn => Some(Key::Fn),
            KeyCode::FnLock => Some(Key::FnLock),
            KeyCode::PrintScreen => Some(Key::PrintScreen),
            KeyCode::ScrollLock => Some(Key::ScrollLock),
            KeyCode::Pause => Some(Key::Pause),
            KeyCode::BrowserBack => Some(Key::BrowserBack),
            KeyCode::BrowserFavorites => Some(Key::BrowserFavorites),
            KeyCode::BrowserForward => Some(Key::BrowserForward),
            KeyCode::BrowserHome => Some(Key::BrowserHome),
            KeyCode::BrowserRefresh => Some(Key::BrowserRefresh),
            KeyCode::BrowserSearch => Some(Key::BrowserSearch),
            KeyCode::BrowserStop => Some(Key::BrowserStop),
            KeyCode::MediaPlayPause => Some(Key::MediaPlayPause),
            KeyCode::MediaSelect => Some(Key::MediaSelect),
            KeyCode::MediaStop => Some(Key::MediaStop),
            KeyCode::MediaTrackNext => Some(Key::MediaTrackNext),
            KeyCode::MediaTrackPrevious => Some(Key::MediaTrackPrevious),
            KeyCode::Power => Some(Key::Power),
            KeyCode::Sleep => Some(Key::Sleep),
            KeyCode::AudioVolumeDown => Some(Key::AudioVolumeDown),
            KeyCode::AudioVolumeMute => Some(Key::AudioVolumeMute),
            KeyCode::AudioVolumeUp => Some(Key::AudioVolumeUp),
            KeyCode::WakeUp => Some(Key::WakeUp),
            KeyCode::Abort => Some(Key::Abort),
            KeyCode::Resume => Some(Key::Resume),
            KeyCode::Suspend => Some(Key::Suspend),
            KeyCode::Again => Some(Key::Again),
            KeyCode::Copy => Some(Key::Copy),
            KeyCode::Cut => Some(Key::Cut),
            KeyCode::Find => Some(Key::Find),
            KeyCode::Open => Some(Key::Open),
            KeyCode::Paste => Some(Key::Paste),
            KeyCode::Props => Some(Key::Props),
            KeyCode::Select => Some(Key::Select),
            KeyCode::Undo => Some(Key::Undo),
            KeyCode::F1 => Some(Key::F1),
            KeyCode::F2 => Some(Key::F2),
            KeyCode::F3 => Some(Key::F3),
            KeyCode::F4 => Some(Key::F4),
            KeyCode::F5 => Some(Key::F5),
            KeyCode::F6 => Some(Key::F6),
            KeyCode::F7 => Some(Key::F7),
            KeyCode::F8 => Some(Key::F8),
            KeyCode::F9 => Some(Key::F9),
            KeyCode::F10 => Some(Key::F10),
            KeyCode::F11 => Some(Key::F11),
            KeyCode::F12 => Some(Key::F12),
            _ => None,
        }
    }
}

} // verus!
