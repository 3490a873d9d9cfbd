//! Text input: what a client reports about its text fields, and the state
//! of key composition.

use vstd::prelude::*;

verus! {

/// What a client reports about a text field.
#[derive(Clone, Copy, Debug, PartialEq, Eq, Structural)]
pub enum Event {
    /// The layout of the text changed.
    LayoutChanged,
    /// The selection changed.
    SelectionChanged,
    /// The text changed without the input method's doing.
    Reset,
}

/// Whether a sequence of keys is being composed into one character.
#[derive(Clone, Copy, Debug, PartialEq, Eq, Structural)]
pub struct KeyEventsState {
    composing: bool,
}

impl KeyEventsState {
    /// Whether a composition is under way.
    pub closed spec fn spec_is_composing(self) -> bool {
        self.composing
    }

    /// The state in which nothing is being composed.
    pub fn new() -> (s: KeyEventsState)
        ensures
            !s.spec_is_composing(),
    {
        KeyEventsState { composing: false }
    }

    /// Whether a composition is under way.
    pub fn is_composing(&self) -> (b: bool)
        ensures
            b == self.spec_is_composing(),
    {
        self.composing
    }

    /// Records whether the last key fed to a text field left a composition
    /// under way.
    pub fn set_composing(&mut self, composing: bool)
        ensures
            final(self).spec_is_composing() == composing,
    {
        self.composing = composing;
    }

    /// Ends the composition that is under way, if one is. Returns whether
    /// one was.
    pub fn cancel_composing(&mut self) -> (was: bool)
        ensures
            was == old(self).spec_is_composing(),
            !final(self).spec_is_composing(),
    {
        let was = self.composing;
        self.composing = false;
        was
    }
}

} // verus!
