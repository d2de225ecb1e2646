//! Key presses, as far as the timer cares about them.

use vstd::prelude::*;

verus! {

/// A key press handed over by whatever reads the keyboard.
#[derive(Clone, Copy, Debug, PartialEq, Eq, Structural)]
pub enum Key {
    /// The return key.
    Enter,
    /// A printable character.
    Char(char),
    /// Deletes the character before the cursor.
    Backspace,
    /// The escape key.
    Esc,
    /// The tabulator key.
    Tab,
    /// The tabulator key with shift held.
    BackTab,
    /// Cursor up.
    Up,
    /// Cursor down.
    Down,
    /// Any key that has no meaning here.
    Other,
}

} // verus!
