use vstd::prelude::*;

verus! {

/// One discrete occurrence read from the terminal's input stream, reduced to
/// what the render loop decides on.
#[derive(Clone, Copy, Debug, PartialEq, Eq, Structural)]
pub enum InputEvent {
    /// A key press whose key code is a character.
    KeyChar(char),
    /// A key press of any other key (arrows, function keys, Enter, ...).
    OtherKey,
    /// Any event that is not a key press (mouse, resize, focus, paste).
    NonKey,
}

/// The character whose key press ends the render loop.
pub const QUIT_CHAR: char = 'q';

impl InputEvent {
    /// Whether this event asks the loop to stop: exactly a key press of `q`.
    pub open spec fn is_quit_spec(self) -> bool {
        self == InputEvent::KeyChar(QUIT_CHAR)
    }

    pub fn is_quit(&self) -> (r: bool)
        ensures
            r == self.is_quit_spec(),
    {
        match self {
            InputEvent::KeyChar(c) => *c == QUIT_CHAR,
            _ => false,
        }
    }
}

} // verus!
