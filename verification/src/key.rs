//! Key events, and how they are read off what a terminal reports.

use crossterm::event::KeyModifiers;
use vstd::prelude::*;

verus! {

/// One input token of the line editor.
#[derive(Clone, Copy, Debug, PartialEq, Eq, Structural)]
pub enum KeyEvent {
    /// A character to insert at the cursor.
    Char(char),
    /// Submit the line.
    Enter,
    /// Remove the character before the cursor.
    Backspace,
    /// Remove the character at the cursor.
    Delete,
    /// Move the cursor one character to the left.
    ArrowLeft,
    /// Move the cursor one character to the right.
    ArrowRight,
    /// Move the cursor to the start of the line.
    Home,
    /// Move the cursor to the end of the line.
    End,
    /// Give up the line.
    Interrupt,
    /// Anything else; it changes nothing.
    Other,
}

/// The key that a terminal names in a key press, as far as the editor tells
/// keys apart.
#[derive(Clone, Copy, Debug, PartialEq, Eq, Structural)]
pub enum KeyCode {
    Char(char),
    Enter,
    Backspace,
    Delete,
    Left,
    Right,
    Home,
    End,
    /// Every key the editor has no use for.
    Other,
}

/// A key press as the terminal reports it: the key, and the modifier keys
/// held with it as a bit set (shift is bit 0, control bit 1, alt bit 2).
#[derive(Clone, Copy, Debug, PartialEq, Eq, Structural)]
pub struct KeyPress {
    pub code: KeyCode,
    pub modifiers: u8,
}

/// The bit of the control key in a modifier set.
pub const CONTROL: u8 = 0x02;

/// Whether the modifier set holds the control key.
pub open spec fn control_held(modifiers: u8) -> bool {
    (modifiers & CONTROL) == CONTROL
}

/// The key event that a key press stands for. Control with `c` interrupts;
/// every other character is typed, whatever is held with it.
pub open spec fn spec_interpret(press: KeyPress) -> KeyEvent {
    match press.code {
        KeyCode::Enter => KeyEvent::Enter,
        KeyCode::Backspace => KeyEvent::Backspace,
        KeyCode::Delete => KeyEvent::Delete,
        KeyCode::Left => KeyEvent::ArrowLeft,
        KeyCode::Right => KeyEvent::ArrowRight,
        KeyCode::Home => KeyEvent::Home,
        KeyCode::End => KeyEvent::End,
        KeyCode::Char(c) => if c == 'c' && control_held(press.modifiers) {
            KeyEvent::Interrupt
        } else {
            KeyEvent::Char(c)
        },
        KeyCode::Other => KeyEvent::Other,
    }
}

/// Trusted: `crossterm::event::KeyModifiers::contains`, asked whether the
/// modifier set with the bit pattern `modifiers` contains
/// `KeyModifiers::CONTROL`. The set is made by `from_bits_retain`, which
/// keeps every bit; `contains` holds when all bits of its argument are set,
/// and `CONTROL` is the single bit `0b0000_0010`.
#[verifier::external_body]
fn holds_control(modifiers: u8) -> (held: bool)
    ensures
        held == control_held(modifiers),
{
    KeyModifiers::from_bits_retain(modifiers).contains(KeyModifiers::CONTROL)
}

/// Reads a key press as a key event.
pub fn interpret(press: KeyPress) -> (event: KeyEvent)
    ensures
        event == spec_interpret(press),
{
    match press.code {
        KeyCode::Enter => KeyEvent::Enter,
        KeyCode::Backspace => KeyEvent::Backspace,
        KeyCode::Delete => KeyEvent::Delete,
        KeyCode::Left => KeyEvent::ArrowLeft,
        KeyCode::Right => KeyEvent::ArrowRight,
        KeyCode::Home => KeyEvent::Home,
        KeyCode::End => KeyEvent::End,
        KeyCode::Char(c) => {
            if c == 'c' && holds_control(press.modifiers) {
                KeyEvent::Interrupt
            } else {
                KeyEvent::Char(c)
            }
        },
        KeyCode::Other => KeyEvent::Other,
    }
}

} // verus!
