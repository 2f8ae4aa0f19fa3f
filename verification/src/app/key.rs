use vstd::prelude::*;

verus! {

/// A key the terminal reports, as far as the dialogs tell keys apart.
#[derive(Debug, Clone, Copy, PartialEq, Eq, Structural)]
pub enum Key {
    Char(char),
    Up,
    Down,
    Left,
    Right,
    Enter,
    Esc,
    /// any other key
    Other,
}

} // verus!
