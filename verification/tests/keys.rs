use fluss::keys::{Key, KeyCode};

#[test]
fn letter_codes_become_letter_keys() {
    assert_eq!(Key::from_winit_key(KeyCode::KeyA), Some(Key::KeyA));
    assert_eq!(Key::from_winit_key(KeyCode::Backslash), Some(Key::Backslash));
    assert_eq!(Key::from_winit_key(KeyCode::F12), Some(Key::F12));
}

#[test]
fn international_backslash_codes_become_backslash() {
    assert_eq!(Key::from_winit_key(KeyCode::IntlBackslash), Some(Key::Backslash));
    assert_eq!(Key::from_winit_key(KeyCode::IntlRo), Some(Key::Backslash));
    assert_eq!(Key::from_winit_key(KeyCode::IntlYen), Some(Key::Backslash));
}

#[test]
fn codes_without_a_key_give_none() {
    assert_eq!(Key::from_winit_key(KeyCode::F13), None);
}
