//! Keyboard events and modifier keys.

use vstd::prelude::*;

verus! {

/// Whether a key went down or up.
#[derive(Clone, Copy, Debug, PartialEq, Eq, Structural)]
pub enum KeyState {
    Down,
    Up,
}

/// The modifier keys that are held or locked.
#[derive(Clone, Copy, Debug, PartialEq, Eq, Structural)]
pub struct Modifiers {
    pub shift: bool,
    pub control: bool,
    pub alt: bool,
    pub meta: bool,
    pub alt_graph: bool,
    pub caps_lock: bool,
    pub num_lock: bool,
    pub scroll_lock: bool,
}

impl Modifiers {
    /// No modifier.
    pub open spec fn spec_empty() -> Modifiers {
        Modifiers {
            shift: false,
            control: false,
            alt: false,
            meta: false,
            alt_graph: false,
            caps_lock: false,
            num_lock: false,
            scroll_lock: false,
        }
    }

    /// No modifier.
    pub fn empty() -> (m: Modifiers)
        ensures
            m == Modifiers::spec_empty(),
    {
        Modifiers {
            shift: false,
            control: false,
            alt: false,
            meta: false,
            alt_graph: false,
            caps_lock: false,
            num_lock: false,
            scroll_lock: false,
        }
    }

    /// Whether the shift key is held.
    pub fn shift(&self) -> (b: bool)
        ensures
            b == self.shift,
    {
        self.shift
    }
}

impl Default for Modifiers {
    fn default() -> (m: Modifiers)
        ensures
            m == Modifiers::spec_empty(),
    {
        Modifiers::empty()
    }
}

/// A key press or release: the hardware code of the key, the symbol that the
/// keyboard layout resolves it to, the direction, and whether the press
/// repeats a key that is held.
#[derive(Clone, Copy, Debug, PartialEq, Eq, Structural)]
pub struct KeyEvent {
    pub scancode: u32,
    pub keysym: u32,
    pub state: KeyState,
    pub repeat: bool,
}

} // verus!
