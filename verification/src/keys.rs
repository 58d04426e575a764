//! What the terminal delivers: keys and other events.

use vstd::prelude::*;
use crate::cursor::Direction;

verus! {

/// A key of the keyboard.
#[derive(Clone, Copy, Debug, PartialEq, Eq, Structural)]
pub enum Key {
    /// A key that types a character.
    Char(char),
    Up,
    Down,
    Left,
    Right,
    Enter,
    Backspace,
    Esc,
    /// Any key the editor has no use for.
    Other,
}

/// An event of the terminal.
#[derive(Clone, Copy, Debug, PartialEq, Eq, Structural)]
pub enum Event {
    /// A key was pressed.
    Key(Key),
    /// Anything else: the mouse, a resize, a paste.
    Other,
}

/// The direction in which `key` moves the cursor in normal mode: the arrow
/// keys, and `k`, `j`, `h`, `l` for up, down, left, right.
pub open spec fn direction_of(key: Key) -> Option<Direction> {
    if key == Key::Up || key == Key::Char('k') {
        Some(Direction::Up)
    } else if key == Key::Down || key == Key::Char('j') {
        Some(Direction::Down)
    } else if key == Key::Left || key == Key::Char('h') {
        Some(Direction::Left)
    } else if key == Key::Right || key == Key::Char('l') {
        Some(Direction::Right)
    } else {
        None
    }
}

} // verus!
