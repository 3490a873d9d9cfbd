//! Pointer events: mouse, pen, eraser and touch.

use vstd::prelude::*;
use crate::keyboard::Modifiers;
use crate::kurbo::{Point, Size, Vec2};

verus! {

/// A button of a pointing device.
#[derive(Clone, Copy, Debug, PartialEq, Eq, Hash, Structural)]
pub enum PointerButton {
    /// No button.
    NoButton,
    /// The primary button, usually the left one.
    Primary,
    /// The secondary button, usually the right one.
    Secondary,
    /// The auxiliary button, usually the wheel.
    Auxiliary,
    /// The first extra button, usually "back".
    X1,
    /// The second extra button, usually "forward".
    X2,
}

/// The set of buttons that are held.
#[derive(Clone, Copy, Debug, PartialEq, Eq, Structural)]
pub struct PointerButtons {
    pub primary: bool,
    pub secondary: bool,
    pub auxiliary: bool,
    pub x1: bool,
    pub x2: bool,
}

impl PointerButtons {
    /// The empty set.
    pub open spec fn spec_new() -> PointerButtons {
        PointerButtons { primary: false, secondary: false, auxiliary: false, x1: false, x2: false }
    }

    /// Whether `button` is in the set. `NoButton` never is.
    pub open spec fn spec_contains(self, button: PointerButton) -> bool {
        match button {
            PointerButton::NoButton => false,
            PointerButton::Primary => self.primary,
            PointerButton::Secondary => self.secondary,
            PointerButton::Auxiliary => self.auxiliary,
            PointerButton::X1 => self.x1,
            PointerButton::X2 => self.x2,
        }
    }

    /// The set with `button` put in or taken out. `NoButton` changes nothing.
    pub open spec fn spec_set(self, button: PointerButton, held: bool) -> PointerButtons {
        match button {
            PointerButton::NoButton => self,
            PointerButton::Primary => PointerButtons { primary: held, ..self },
            PointerButton::Secondary => PointerButtons { secondary: held, ..self },
            PointerButton::Auxiliary => PointerButtons { auxiliary: held, ..self },
            PointerButton::X1 => PointerButtons { x1: held, ..self },
            PointerButton::X2 => PointerButtons { x2: held, ..self },
        }
    }

    /// The empty set.
    pub fn new() -> (b: PointerButtons)
        ensures
            b == PointerButtons::spec_new(),
    {
        PointerButtons { primary: false, secondary: false, auxiliary: false, x1: false, x2: false }
    }

    /// Whether `button` is in the set.
    pub fn contains(&self, button: PointerButton) -> (b: bool)
        ensures
            b == self.spec_contains(button),
    {
        match button {
            PointerButton::NoButton => false,
            PointerButton::Primary => self.primary,
            PointerButton::Secondary => self.secondary,
            PointerButton::Auxiliary => self.auxiliary,
            PointerButton::X1 => self.x1,
            PointerButton::X2 => self.x2,
        }
    }

    /// Puts `button` into the set.
    pub fn insert(&mut self, button: PointerButton)
        ensures
            *final(self) == old(self).spec_set(button, true),
    {
        match button {
            PointerButton::NoButton => {},
            PointerButton::Primary => {
                self.primary = true;
            },
            PointerButton::Secondary => {
                self.secondary = true;
            },
            PointerButton::Auxiliary => {
                self.auxiliary = true;
            },
            PointerButton::X1 => {
                self.x1 = true;
            },
            PointerButton::X2 => {
                self.x2 = true;
            },
        }
    }

    /// The set with `button` in it.
    pub fn with(self, button: PointerButton) -> (b: PointerButtons)
        ensures
            b == self.spec_set(button, true),
    {
        let mut b = self;
        b.insert(button);
        b
    }

    /// The set without `button`.
    pub fn without(self, button: PointerButton) -> (b: PointerButtons)
        ensures
            b == self.spec_set(button, false),
    {
        match button {
            PointerButton::NoButton => self,
            PointerButton::Primary => PointerButtons { primary: false, ..self },
            PointerButton::Secondary => PointerButtons { secondary: false, ..self },
            PointerButton::Auxiliary => PointerButtons { auxiliary: false, ..self },
            PointerButton::X1 => PointerButtons { x1: false, ..self },
            PointerButton::X2 => PointerButtons { x2: false, ..self },
        }
    }
}

/// Names one pointer among those that are active at a time.
#[derive(Clone, Copy, Debug, PartialEq, Eq, Hash, Structural)]
pub struct PointerId(pub u64);

/// What a mouse adds to a pointer event.
#[derive(Clone, Copy, Debug, PartialEq, Eq, Structural)]
pub struct MouseInfo {
    /// How far the wheel turned, in pixels.
    pub wheel_delta: Vec2,
}

/// What a pen adds to a pointer event. Pressures are fixed-point fractions
/// between zero and one, angles fixed-point degrees.
#[derive(Clone, Copy, Debug, PartialEq, Eq, Structural)]
pub struct PenInfo {
    pub pressure: i64,
    pub tangential_pressure: i64,
    pub tilt_x: i64,
    pub tilt_y: i64,
    pub twist: i64,
}

/// What a touch contact adds to a pointer event.
#[derive(Clone, Copy, Debug, PartialEq, Eq, Structural)]
pub struct TouchInfo {
    pub contact_geometry: Size,
    pub pressure: i64,
}

/// The kind of device behind a pointer event.
#[derive(Clone, Copy, Debug, PartialEq, Eq, Structural)]
pub enum PointerType {
    Mouse(MouseInfo),
    Pen(PenInfo),
    Eraser(PenInfo),
    Touch(TouchInfo),
}

impl PointerType {
    /// A mouse whose wheel did not turn.
    pub open spec fn spec_plain_mouse() -> PointerType {
        PointerType::Mouse(MouseInfo { wheel_delta: Vec2 { x: 0, y: 0 } })
    }

    /// A mouse whose wheel did not turn.
    pub fn plain_mouse() -> (t: PointerType)
        ensures
            t == PointerType::spec_plain_mouse(),
    {
        PointerType::Mouse(MouseInfo { wheel_delta: Vec2 { x: 0, y: 0 } })
    }
}

/// A pointer going down, up, over or out of a window, or a wheel turning.
#[derive(Clone, Copy, Debug, PartialEq, Eq, Structural)]
pub struct PointerEvent {
    pub pointer_id: PointerId,
    pub is_primary: bool,
    pub pointer_type: PointerType,
    /// The position in device-independent pixels.
    pub pos: Point,
    /// The buttons held after the event.
    pub buttons: PointerButtons,
    pub modifiers: Modifiers,
    /// The button that caused the event, if a button did.
    pub button: PointerButton,
    /// Whether the event also gave the window the focus.
    pub focus: bool,
    /// The number of clicks in a row, for a button going down.
    pub count: u8,
}

} // verus!
