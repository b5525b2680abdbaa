use arch_wizard::keys::{event_for_key, Key, QUIT_KEY, THEME_KEY};
use arch_wizard::session::InputEvent;

#[test]
fn command_keys() {
    assert_eq!(QUIT_KEY, '~');
    assert_eq!(THEME_KEY, '*');
    assert_eq!(event_for_key(Key::Char('~')), Some(InputEvent::Quit));
    assert_eq!(event_for_key(Key::Char('*')), Some(InputEvent::ThemeCycle));
}

#[test]
fn navigation_keys() {
    assert_eq!(event_for_key(Key::Enter), Some(InputEvent::Confirm));
    assert_eq!(event_for_key(Key::Up), Some(InputEvent::MoveUp));
    assert_eq!(event_for_key(Key::Down), Some(InputEvent::MoveDown));
    assert_eq!(event_for_key(Key::Backspace), Some(InputEvent::Backspace));
}

#[test]
fn other_characters_are_typed() {
    for c in ['a', 'Z', '0', ' ', '-', '/', 'é', '\u{7f}'] {
        assert_eq!(event_for_key(Key::Char(c)), Some(InputEvent::Char(c)));
    }
}

#[test]
fn unbound_keys_are_ignored() {
    assert_eq!(event_for_key(Key::Other), None);
}
