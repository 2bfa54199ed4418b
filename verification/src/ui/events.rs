//! What the terminal reports, reduced to what the front end decides on.

use vstd::prelude::*;

verus! {

/// A key press, by the keys that mean something to the front end.
#[derive(Debug, Clone, Copy, PartialEq, Eq)]
pub enum Key {
    Char(char),
    Enter,
    Esc,
    Backspace,
    Tab,
    Up,
    Down,
    /// Any other key.
    Other,
}

/// An event of the terminal.
#[derive(Debug, Clone, Copy, PartialEq, Eq)]
pub enum AppEvent {
    Key(Key),
    Mouse,
    Tick,
    /// The terminal was resized to this width and height.
    Resize(u16, u16),
}

} // verus!
