//! Input events and the editing actions that keys are bound to.

use vstd::prelude::*;

verus! {

/// A direction with a number of steps.
#[derive(Clone, Copy, Debug, PartialEq, Eq, Hash, Structural)]
pub enum Direction {
    Up(u16),
    Down(u16),
    Left(u16),
    Right(u16),
}

/// The lines that a vertical direction stands for: negative upwards,
/// positive downwards, none for a horizontal direction.
pub open spec fn vertical_steps(d: Direction) -> int {
    match d {
        Direction::Up(n) => -(n as int),
        Direction::Down(n) => n as int,
        _ => 0,
    }
}

/// An editing action. The key table maps a chord in a mode to one of these,
/// and `action::apply` carries it out.
#[derive(Clone, Copy, Debug, PartialEq, Eq, Hash, Structural)]
pub enum EditorEvent {
    /// Move the cursor, one line or column per step.
    Cursor(Direction),
    /// Scroll the viewport (first direction) and move the cursor's screen
    /// row (second direction).
    Scroll(Direction, Direction),
    /// Enter Normal mode and drop the pending command line.
    ModeNormal,
    /// Enter Command mode with an empty command line.
    ModeCommand,
    /// Enter Insert mode.
    ModeInsert,
    /// Stop the editor.
    Quit,
    /// Insert a character at the cursor.
    Insert(char),
    /// Insert spaces for one tab stop at the cursor.
    Indent,
    /// Break the line at the cursor.
    NewLine,
    /// Delete the character left of the cursor, or join with the line above.
    Backspace,
    /// Append a character to the command line.
    CommandPush(char),
    /// Drop the last character of the command line.
    CommandPop,
    /// Run the command line.
    CommandRun,
}

/// An event read from the terminal.
#[derive(Clone, Copy, Debug, PartialEq, Eq, Hash, Structural)]
pub enum Event {
    Key(KeyEvent),
    Mouse,
    Resize(u16, u16),
}

/// A key chord: a key code with a modifier.
#[derive(Clone, Copy, Debug, PartialEq, Eq, Hash, Structural)]
pub struct KeyEvent {
    pub code: KeyCode,
    pub modifier: KeyModifier,
}

impl KeyEvent {
    pub fn new(code: KeyCode, modifier: KeyModifier) -> (k: Self)
        ensures
            k.code == code,
            k.modifier == modifier,
    {
        Self { code, modifier }
    }
}

/// The key of a chord.
#[derive(Clone, Copy, Debug, PartialEq, Eq, Hash, Structural)]
pub enum KeyCode {
    Backspace,
    Enter,
    Left,
    Right,
    Up,
    Down,
    Home,
    End,
    PageUp,
    PageDown,
    Tab,
    BackTab,
    Delete,
    Insert,
    F(u8),
    Char(char),
    Null,
    Esc,
}

/// The modifier of a chord: the one key held with it, or none.
#[derive(Clone, Copy, Debug, PartialEq, Eq, Hash, Structural)]
pub enum KeyModifier {
    Shift,
    Alt,
    Control,
    NONE,
}

/// Bit of the shift key in a terminal's modifier set.
pub const SHIFT_BIT: u8 = 1;

/// Bit of the control key in a terminal's modifier set.
pub const CONTROL_BIT: u8 = 2;

/// Bit of the alt key in a terminal's modifier set.
pub const ALT_BIT: u8 = 4;

impl KeyModifier {
    /// The modifier of a chord whose modifier set is `bits`: the one key
    /// that is held, and `NONE` for an empty set or for several keys at once.
    pub fn from_bits(bits: u8) -> (m: Self)
        ensures
            m == if bits == SHIFT_BIT {
                KeyModifier::Shift
            } else if bits == CONTROL_BIT {
                KeyModifier::Control
            } else if bits == ALT_BIT {
                KeyModifier::Alt
            } else {
                KeyModifier::NONE
            },
    {
        if bits == SHIFT_BIT {
            KeyModifier::Shift
        } else if bits == CONTROL_BIT {
            KeyModifier::Control
        } else if bits == ALT_BIT {
            KeyModifier::Alt
        } else {
            KeyModifier::NONE
        }
    }
}

} // verus!
