//! Key bindings: which key stands for which input event.

use crate::session::InputEvent;
use vstd::prelude::*;

verus! {

/// The key that quits the session.
pub const QUIT_KEY: char = '~';

/// The key that switches to the next theme.
pub const THEME_KEY: char = '*';

/// A key press as the front end reports it.
#[derive(Clone, Copy, Debug, PartialEq, Eq, Structural)]
pub enum Key {
    Char(char),
    Enter,
    Backspace,
    Up,
    Down,
    /// Any key the wizard has no use for.
    Other,
}

/// The event a key stands for. The two command keys are taken out of the
/// characters, so they can never be typed into a buffer; keys without a
/// binding stand for no event.
pub open spec fn spec_event_for_key(key: Key) -> Option<InputEvent> {
    match key {
        Key::Char(c) => if c == THEME_KEY {
            Some(InputEvent::ThemeCycle)
        } else if c == QUIT_KEY {
            Some(InputEvent::Quit)
        } else {
            Some(InputEvent::Char(c))
        },
        Key::Enter => Some(InputEvent::Confirm),
        Key::Backspace => Some(InputEvent::Backspace),
        Key::Up => Some(InputEvent::MoveUp),
        Key::Down => Some(InputEvent::MoveDown),
        Key::Other => None,
    }
}

/// Maps a key press to the event it stands for, or to `None` for a
/// key that is to be ignored.
#[verifier::when_used_as_spec(spec_event_for_key)]
pub fn event_for_key(key: Key) -> (event: Option<InputEvent>)
    ensures
        event == spec_event_for_key(key),
{
    match key {
        Key::Char(c) => {
            if c == THEME_KEY {
                Some(InputEvent::ThemeCycle)
            } else if c == QUIT_KEY {
                Some(InputEvent::Quit)
            } else {
                Some(InputEvent::Char(c))
            }
        },
        Key::Enter => Some(InputEvent::Confirm),
        Key::Backspace => Some(InputEvent::Backspace),
        Key::Up => Some(InputEvent::MoveUp),
        Key::Down => Some(InputEvent::MoveDown),
        Key::Other => None,
    }
}

} // verus!
