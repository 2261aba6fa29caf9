//! Key events and the process-wide key-binding configuration.
//!
//! The host's terminal backend delivers raw input events; this module models
//! the part of them that the popup reads: a key code plus a modifier bitmask.
//! The binding configuration supplies the two chords the popup consults
//! ("exit popup" and "enter/confirm"); it is read-only and matched by
//! exact equality of code and modifiers.

use vstd::prelude::*;

verus! {

/// The key codes the popup distinguishes. Keys outside this set are mapped
/// by the host to `Null`, which still flows through the popup unchanged.
#[derive(Clone, Copy, Debug, PartialEq, Eq, Structural)]
pub enum KeyCode {
    Char(char),
    F(u8),
    Enter,
    Esc,
    Backspace,
    Tab,
    Delete,
    Insert,
    Up,
    Down,
    Left,
    Right,
    Home,
    End,
    PageUp,
    PageDown,
    Null,
}

/// A key press: a code together with a bitmask of held modifiers
/// (shift, control, alt, ... as the host's backend encodes them).
#[derive(Clone, Copy, Debug, PartialEq, Eq, Structural)]
pub struct KeyEvent {
    pub code: KeyCode,
    pub modifiers: u8,
}

/// A raw input event as the popup sees it: a key press, or anything else
/// (mouse, resize, paste, focus), which the popup never consumes.
#[derive(Clone, Copy, Debug, PartialEq, Eq, Structural)]
pub enum Event {
    Key(KeyEvent),
    Other,
}

/// The two bindings the popup queries from the process-wide configuration.
#[derive(Clone, Copy, Debug, PartialEq, Eq, Structural)]
pub struct KeyConfig {
    pub exit_popup: KeyEvent,
    pub enter: KeyEvent,
}

/// Does a pressed key match a configured binding exactly?
pub fn key_match(key: &KeyEvent, binding: KeyEvent) -> (r: bool)
    ensures
        r == (*key == binding),
{
    key.code == binding.code && key.modifiers == binding.modifiers
}

} // verus!
