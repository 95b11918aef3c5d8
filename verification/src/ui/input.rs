//! Terminal input, as the user interface reads it.

use vstd::prelude::*;

verus! {

/// The keys that the interface reacts to; every other key is `Other`.
#[derive(Clone, Copy, Debug, PartialEq, Eq, Structural)]
pub enum KeyCode {
    Up,
    Down,
    Left,
    Right,
    Home,
    End,
    Tab,
    BackTab,
    Enter,
    /// A function key, by its number.
    F(u8),
    /// A key that types a character.
    Char(char),
    Other,
}

/// Whether a key went down, repeats while held, or came up.
#[derive(Clone, Copy, Debug, PartialEq, Eq, Structural)]
pub enum KeyEventKind {
    Press,
    Repeat,
    Release,
}

/// The Shift modifier, as a bit of `KeyEvent::modifiers`.
pub const SHIFT: u8 = 0b0000_0001;

/// The Control modifier, as a bit of `KeyEvent::modifiers`.
pub const CONTROL: u8 = 0b0000_0010;

/// The Alt modifier, as a bit of `KeyEvent::modifiers`.
pub const ALT: u8 = 0b0000_0100;

/// A key event: the key, what happened to it, and the modifier keys held, one
/// bit each.
#[derive(Clone, Copy, Debug, PartialEq, Eq, Structural)]
pub struct KeyEvent {
    pub code: KeyCode,
    pub kind: KeyEventKind,
    pub modifiers: u8,
}

/// An event of the terminal.
#[derive(Clone, Copy, Debug, PartialEq, Eq, Structural)]
pub enum InputEvent {
    /// A key event.
    Key(KeyEvent),
    /// The terminal was resized to so many columns and rows.
    Resize(u16, u16),
    /// Any other event (focus, mouse, paste).
    Other,
}

/// The key that went down in `event`, if it is a key press.
pub open spec fn pressed(event: InputEvent) -> Option<KeyCode> {
    match event {
        InputEvent::Key(key) => if key.kind == KeyEventKind::Press {
            Some(key.code)
        } else {
            None
        },
        _ => None,
    }
}

/// The key that went down in `event`, if it is a key press.
pub fn key_press(event: &InputEvent) -> (r: Option<KeyCode>)
    ensures
        r == pressed(*event),
{
    match event {
        InputEvent::Key(key) => match key.kind {
            KeyEventKind::Press => Some(key.code),
            _ => None,
        },
        _ => None,
    }
}

/// Ctrl+C: a press of `c` with the Control modifier and no other.
pub open spec fn spec_is_ctrl_c(event: KeyEvent) -> bool {
    &&& event.kind == KeyEventKind::Press
    &&& event.code == KeyCode::Char('c')
    &&& event.modifiers == CONTROL
}

/// Whether `event` is Ctrl+C: a press of `c` with the Control modifier held
/// and no other modifier.
pub fn is_ctrl_c(event: KeyEvent) -> (r: bool)
    ensures
        r == spec_is_ctrl_c(event),
{
    let press = match event.kind {
        KeyEventKind::Press => true,
        _ => false,
    };
    let c = match event.code {
        KeyCode::Char(ch) => ch == 'c',
        _ => false,
    };
    let control = event.modifiers & CONTROL == CONTROL;
    let only_control = event.modifiers & !CONTROL == 0;
    proof {
        let m = event.modifiers;
        assert((m & CONTROL == CONTROL && m & !CONTROL == 0) <==> m == CONTROL) by (bit_vector);
    }
    press && c && control && only_control
}

} // verus!
