//! The mode of the editors' keys: whether a key is a command on the text or
//! is text itself.
//!
//! What a key does to the text of an editor is not told here. It is told
//! here what the mode is after the key, given what the key has brought
//! about.
use vstd::prelude::*;
use crate::events::Key;
use crate::events::KeyKind;
use crate::events::KeyPress;

verus! {

/// What the keys of an editor mean.
#[derive(Debug, Clone, Copy, PartialEq, Eq, Structural)]
pub enum Mode {
    /// Keys are commands.
    Normal,
    /// Keys are text.
    Insert,
    /// Keys are commands on the text that is marked.
    Visual,
    /// Keys say how far the command of the given key reaches.
    Operator(char),
}

/// What a key has brought about in an editor.
#[derive(Debug, Clone, Copy)]
pub enum Transition {
    /// Nothing to take note of.
    Nop,
    /// The mode to go on in.
    Mode(Mode),
    /// A key that waits for the next one.
    Pending(KeyPress),
    /// The wish to leave.
    Quit,
}

/// The mode of an editor's keys, and the key that waits for the next.
#[derive(Debug, Clone, Copy)]
pub struct Vim {
    pub mode: Mode,
    pub pending: KeyPress,
}

/// The key that stands for none waiting.
pub open spec fn no_key() -> KeyPress {
    KeyPress { key: Key::Other, kind: KeyKind::Press, ctrl: false, other_modifiers: false }
}

impl Vim {
    /// The given mode with no key waiting.
    pub open spec fn in_mode(mode: Mode) -> Vim {
        Vim { mode, pending: no_key() }
    }

    /// The mode and the waiting key after a key has brought about
    /// `transition`: a new mode is gone into with no key waiting; a key that
    /// waits does so in the mode there was; anything else leaves the mode
    /// with no key waiting.
    pub open spec fn after(self, transition: Transition) -> Vim {
        match transition {
            Transition::Mode(mode) => Vim::in_mode(mode),
            Transition::Pending(key) => Vim { mode: self.mode, pending: key },
            _ => Vim::in_mode(self.mode),
        }
    }

    /// The given mode with no key waiting.
    pub fn new(mode: Mode) -> (vim: Vim)
        ensures
            vim == Vim::in_mode(mode),
    {
        Vim {
            mode,
            pending: KeyPress {
                key: Key::Other,
                kind: KeyKind::Press,
                ctrl: false,
                other_modifiers: false,
            },
        }
    }

    /// The same mode with the given key waiting.
    pub fn with_pending(self, pending: KeyPress) -> (vim: Vim)
        ensures
            vim == (Vim { mode: self.mode, pending }),
    {
        Vim { mode: self.mode, pending }
    }

    /// Whether keys are commands.
    pub fn is_normal(&self) -> (is: bool)
        ensures
            is == (self.mode == Mode::Normal),
    {
        self.mode == Mode::Normal
    }

    /// Whether keys are text.
    pub fn is_insert(&self) -> (is: bool)
        ensures
            is == (self.mode == Mode::Insert),
    {
        self.mode == Mode::Insert
    }
}

} // verus!
