//! Keys pressed in the terminal panels.
use vstd::prelude::*;

verus! {

/// A key the terminal panels react to; every other key is `Other`.
#[derive(Clone, Copy, Debug, PartialEq, Eq, Structural)]
pub enum Key {
    Char(char),
    Esc,
    Up,
    Down,
    Left,
    Right,
    Enter,
    Backspace,
    Other,
}

/// What a panel's loop does after a key: go on, or stop.
#[derive(Clone, Copy, Debug, PartialEq, Eq, Structural)]
pub enum Flow {
    Continue,
    Quit,
}

/// Whether a key quits the newer panels: `q` or Escape.
pub open spec fn is_quit_key(k: Key) -> bool {
    k == Key::Char('q') || k == Key::Esc
}

/// `is_quit_key`, computed.
pub fn quits(k: Key) -> (r: bool)
    ensures
        r == is_quit_key(k),
{
    match k {
        Key::Char(c) => c == 'q',
        Key::Esc => true,
        _ => false,
    }
}

} // verus!
