use vstd::prelude::*;
use crate::parser::key::Key;

verus! {

/// The logical key of a keyboard event, as far as the editor reads it.
#[derive(Debug, Clone, PartialEq, Eq)]
pub enum LogicalKey {
    /// A key that types text.
    Character(String),
    Escape,
    Enter,
    Backspace,
    /// Any other key.
    Other,
}

/// `char::to_ascii_lowercase`: `A`..`Z` become `a`..`z`, every other
/// character stays.
pub open spec fn ascii_lowercase(c: char) -> char {
    if 'A' <= c && c <= 'Z' {
        ((c as int) + 32) as char
    } else {
        c
    }
}

/// Lower-cases an ASCII letter.
pub fn to_ascii_lowercase(c: char) -> (r: char)
    ensures
        r == ascii_lowercase(c),
{
    if 'A' <= c && c <= 'Z' {
        ((c as u8) + 32) as char
    } else {
        c
    }
}

/// The key a keyboard event gives the editor: a character key gives its
/// first character (as `Ctrl`, lower-cased, while Control is held);
/// Escape, Enter and Backspace give their keys; a release, an empty
/// character or any other key gives none.
pub open spec fn key_of_event(pressed: bool, logical: LogicalKey, ctrl_pressed: bool) -> Option<Key> {
    if !pressed {
        None
    } else {
        match logical {
            LogicalKey::Character(text) => if text@.len() == 0 {
                None
            } else if ctrl_pressed {
                Some(Key::Ctrl(ascii_lowercase(text@[0])))
            } else {
                Some(Key::Char(text@[0]))
            },
            LogicalKey::Escape => Some(Key::Esc),
            LogicalKey::Enter => Some(Key::Enter),
            LogicalKey::Backspace => Some(Key::Backspace),
            LogicalKey::Other => None,
        }
    }
}

/// Translates a keyboard event into the key the editor reads.
pub fn translate_key_event(pressed: bool, logical: &LogicalKey, ctrl_pressed: bool) -> (r: Option<Key>)
    ensures
        r == key_of_event(pressed, *logical, ctrl_pressed),
{
    if !pressed {
        return None;
    }
    match logical {
        LogicalKey::Character(text) => {
            let s = text.as_str();
            if s.unicode_len() == 0 {
                None
            } else {
                let c = s.get_char(0);
                if ctrl_pressed {
                    Some(Key::Ctrl(to_ascii_lowercase(c)))
                } else {
                    Some(Key::Char(c))
                }
            }
        },
        LogicalKey::Escape => Some(Key::Esc),
        LogicalKey::Enter => Some(Key::Enter),
        LogicalKey::Backspace => Some(Key::Backspace),
        LogicalKey::Other => None,
    }
}

} // verus!

verus! {

/// A key release never gives the editor a key, whatever the key and the
/// Control state: each keystroke is delivered once, on its press.
pub proof fn law_release_gives_no_key(logical: LogicalKey, ctrl_pressed: bool)
    ensures
        key_of_event(false, logical, ctrl_pressed) is None,
{
}

} // verus!
