//! Key events the editor core reacts to.
//!
//! The terminal layer translates whatever its input source reports into
//! this enum; the core never sees the terminal's own event types.

use vstd::prelude::*;

verus! {

/// One key event, as delivered by the terminal collaborator.
#[derive(Clone, Copy, PartialEq, Eq, Structural, Debug)]
pub enum Key {
    /// A printable character.
    Char(char),
    Enter,
    Backspace,
    Tab,
    Esc,
    Up,
    Down,
    Left,
    Right,
    /// Ctrl plus a letter, e.g. Ctrl('s').
    Ctrl(char),
}

} // verus!
