//! The keyboard controls.

use vstd::prelude::*;

verus! {

/// A key press, reduced to what the controls tell apart.
#[derive(Clone, Copy, Debug, PartialEq, Eq)]
pub enum Key {
    Char(char),
    Left,
    Right,
    Up,
    Down,
    Other,
}

/// What a key press asks for.
#[derive(Clone, Copy, Debug, PartialEq, Eq)]
pub enum Operation {
    /// Leave the program.
    Quit,
    /// File the clipboard text under the active tab.
    Paste,
    /// Put the selected command on the clipboard.
    Copy,
    /// Delete the selected command.
    Delete,
    /// Go to the "Home" tab.
    JumpHome,
    /// Go one tab to the left.
    TabLeft,
    /// Go one tab to the right.
    TabRight,
    /// Select the row above.
    RowUp,
    /// Select the row below.
    RowDown,
    /// The key has no meaning.
    Ignore,
}

/// The operation bound to each key.
pub open spec fn binding(key: Key) -> Operation {
    match key {
        Key::Char(c) => if c == 'q' {
            Operation::Quit
        } else if c == 'p' {
            Operation::Paste
        } else if c == 'c' {
            Operation::Copy
        } else if c == 'd' {
            Operation::Delete
        } else if c == 'h' {
            Operation::JumpHome
        } else {
            Operation::Ignore
        },
        Key::Left => Operation::TabLeft,
        Key::Right => Operation::TabRight,
        Key::Up => Operation::RowUp,
        Key::Down => Operation::RowDown,
        Key::Other => Operation::Ignore,
    }
}

/// Looks up the operation bound to `key`.
pub fn operation_for(key: Key) -> (op: Operation)
    ensures
        op == binding(key),
{
    match key {
        Key::Char(c) => {
            if c == 'q' {
                Operation::Quit
            } else if c == 'p' {
                Operation::Paste
            } else if c == 'c' {
                Operation::Copy
            } else if c == 'd' {
                Operation::Delete
            } else if c == 'h' {
                Operation::JumpHome
            } else {
                Operation::Ignore
            }
        },
        Key::Left => Operation::TabLeft,
        Key::Right => Operation::TabRight,
        Key::Up => Operation::RowUp,
        Key::Down => Operation::RowDown,
        Key::Other => Operation::Ignore,
    }
}

} // verus!
