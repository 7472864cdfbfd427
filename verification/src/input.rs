//! Discrete key presses as the editor sees them, decoupled from any terminal
//! backend: a key, possibly with a modifier.

use vstd::prelude::*;

verus! {

/// One of the four edge / movement directions.
#[derive(Clone, Copy, PartialEq, Eq, Structural, Debug)]
pub enum Direction {
    Left,
    Right,
    Up,
    Down,
}

/// A decoded key.
#[derive(Clone, Copy, PartialEq, Eq, Structural, Debug)]
pub enum Key {
    Esc,
    Tab,
    Insert,
    Delete,
    Home,
    End,
    Enter,
    Backspace,
    PageUp,
    PageDown,
    Direction(Direction),
    Glyph(char),
}

/// A modifier held together with a key.
#[derive(Clone, Copy, PartialEq, Eq, Structural, Debug)]
pub enum Modifier {
    Control,
    Shift,
    Alt,
    Super,
}

/// A single key press: a key plus an optional modifier.
#[derive(Clone, Copy, PartialEq, Eq, Debug)]
pub struct Press {
    pub key: Key,
    pub modifier: Option<Modifier>,
}

impl Press {
    /// Pack a key and an optional modifier into a press.
    pub fn new(key: Key, modifier: Option<Modifier>) -> (p: Press)
        ensures
            p == (Press { key, modifier }),
    {
        Press { key, modifier }
    }
}

} // verus!
