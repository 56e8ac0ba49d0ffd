use vstd::prelude::*;

verus! {

/// The key of a keystroke, as far as the stages tell keys apart.
#[derive(Clone, Copy, Debug, PartialEq, Eq, Structural)]
pub enum KeyCode {
    Char(char),
    Backspace,
    Enter,
    Other,
}

/// A keystroke: its key, and whether Control was held.
#[derive(Clone, Copy, Debug, PartialEq, Eq, Structural)]
pub struct KeyEvent {
    pub code: KeyCode,
    pub control: bool,
}

/// An input event: a keystroke, or anything else the terminal reports.
#[derive(Clone, Copy, Debug, PartialEq, Eq, Structural)]
pub enum Event {
    Key(KeyEvent),
    Other,
}

impl KeyEvent {
    /// Ctrl+C, which ends the program from any stage.
    pub open spec fn is_interrupt(self) -> bool {
        self.control && self.code == KeyCode::Char('c')
    }

    pub fn interrupts(&self) -> (r: bool)
        ensures
            r == self.is_interrupt(),
    {
        self.control && match self.code {
            KeyCode::Char(c) => c == 'c',
            _ => false,
        }
    }
}

} // verus!
