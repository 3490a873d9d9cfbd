//! The X11 events that the event loop understands, as plain values.

use vstd::prelude::*;
use crate::backend::x11::pointer::AxisValues;

verus! {

/// A part of a window was exposed. Coordinates count whole device pixels.
#[derive(Clone, Copy, Debug, PartialEq, Eq, Structural)]
pub struct ExposeEvent {
    pub window: u32,
    pub x: u16,
    pub y: u16,
    pub width: u16,
    pub height: u16,
    /// The number of expose events that follow for the same window.
    pub count: u16,
}

/// A key went down or up. `keysym` is the symbol that the keyboard layout
/// in force gives the key.
#[derive(Clone, Copy, Debug, PartialEq, Eq, Structural)]
pub struct KeyPressEvent {
    pub event: u32,
    pub detail: u8,
    pub keysym: u32,
    pub time: u32,
}

/// The modifier masks of an input event.
#[derive(Clone, Copy, Debug, PartialEq, Eq, Structural)]
pub struct ModifierInfo {
    pub base: u32,
    pub latched: u32,
    pub locked: u32,
    pub effective: u32,
}

/// The modifier and layout state of the keyboard.
#[derive(Clone, Copy, Debug, PartialEq, Eq, Structural)]
pub struct ActiveModifiers {
    pub base_mods: u32,
    pub latched_mods: u32,
    pub locked_mods: u32,
    pub base_layout: u32,
    pub latched_layout: u32,
    pub locked_layout: u32,
}

/// A button or motion event of the input extension. Positions are device
/// pixels in 16.16 fixed point.
#[derive(Clone, Copy, Debug, PartialEq, Eq, Structural)]
pub struct ButtonPressEvent {
    pub event: u32,
    pub deviceid: u16,
    pub sourceid: u16,
    pub detail: u32,
    pub event_x: i32,
    pub event_y: i32,
    pub mods: ModifierInfo,
    pub axisvalues: AxisValues,
    pub time: u32,
}

/// A touch event of the input extension. `detail` names the contact.
#[derive(Clone, Copy, Debug, PartialEq, Eq, Structural)]
pub struct TouchBeginEvent {
    pub event: u32,
    pub deviceid: u16,
    pub sourceid: u16,
    pub detail: u32,
    pub event_x: i32,
    pub event_y: i32,
    pub mods: ModifierInfo,
    pub flags: u32,
    pub time: u32,
}

/// The pointer left a window.
#[derive(Clone, Copy, Debug, PartialEq, Eq, Structural)]
pub struct LeaveNotifyEvent {
    pub event: u32,
    pub time: u32,
}

/// The name of a message type or protocol, as far as the loop tells them apart.
#[derive(Clone, Copy, Debug, PartialEq, Eq, Structural)]
pub enum Atom {
    WmProtocols,
    WmDeleteWindow,
    Other(u32),
}

/// A message from another client, usually the window manager.
#[derive(Clone, Copy, Debug, PartialEq, Eq, Structural)]
pub struct ClientMessageEvent {
    pub window: u32,
    pub type_: Atom,
    pub format: u8,
    /// The first item of the data, read as a 32-bit item.
    pub protocol: Atom,
}

/// A window was destroyed.
#[derive(Clone, Copy, Debug, PartialEq, Eq, Structural)]
pub struct DestroyNotifyEvent {
    pub window: u32,
}

/// The geometry of a window changed. Sizes count whole device pixels.
#[derive(Clone, Copy, Debug, PartialEq, Eq, Structural)]
pub struct ConfigureNotifyEvent {
    pub window: u32,
    pub width: u16,
    pub height: u16,
}

/// A window gained or lost the focus.
#[derive(Clone, Copy, Debug, PartialEq, Eq, Structural)]
pub struct FocusEvent {
    pub event: u32,
}

/// An event about a selection: it was lost, asked for, or a property used
/// to hand it over changed.
#[derive(Clone, Copy, Debug, PartialEq, Eq, Structural)]
pub struct SelectionEvent {
    pub time: u32,
    pub selection: u32,
}

/// Why the server says that an input device changed.
#[derive(Clone, Copy, Debug, PartialEq, Eq, Structural)]
pub enum ChangeReason {
    SlaveSwitch,
    DeviceChange,
}

/// What an event says.
#[derive(Clone, Copy, Debug, PartialEq, Eq, Structural)]
pub enum EventKind {
    Expose(ExposeEvent),
    KeyPress(KeyPressEvent),
    KeyRelease(KeyPressEvent),
    /// A press of a core pointer button; only its time is of interest.
    ButtonPress(u32),
    /// A release of a core pointer button; only its time is of interest.
    ButtonRelease(u32),
    /// A motion of the core pointer; only its time is of interest.
    MotionNotify(u32),
    /// The pointer entered a window; only the time is of interest.
    EnterNotify(u32),
    XkbStateNotify(ActiveModifiers),
    XinputHierarchy,
    XinputDeviceChanged(ChangeReason),
    XinputButtonPress(ButtonPressEvent),
    XinputButtonRelease(ButtonPressEvent),
    XinputMotion(ButtonPressEvent),
    XinputTouchBegin(TouchBeginEvent),
    XinputTouchUpdate(TouchBeginEvent),
    XinputTouchEnd(TouchBeginEvent),
    LeaveNotify(LeaveNotifyEvent),
    ClientMessage(ClientMessageEvent),
    DestroyNotify(DestroyNotifyEvent),
    ConfigureNotify(ConfigureNotifyEvent),
    SelectionClear(SelectionEvent),
    SelectionRequest(SelectionEvent),
    PropertyNotify(SelectionEvent),
    FocusIn(FocusEvent),
    FocusOut(FocusEvent),
    /// The server reports that a request failed, with this error code.
    Error(u8),
    /// Anything else.
    Other,
}

/// An event as the loop takes it from the connection.
#[derive(Clone, Copy, Debug, PartialEq, Eq, Structural)]
pub struct Event {
    /// Whether the server made the event itself, rather than passing on what
    /// another client sent.
    pub server_generated: bool,
    pub kind: EventKind,
}

impl EventKind {
    /// The server time that the event carries, if it carries one that the
    /// loop keeps.
    pub open spec fn spec_time(self) -> Option<u32> {
        match self {
            EventKind::KeyPress(ev) => Some(ev.time),
            EventKind::KeyRelease(ev) => Some(ev.time),
            EventKind::ButtonPress(t) => Some(t),
            EventKind::ButtonRelease(t) => Some(t),
            EventKind::MotionNotify(t) => Some(t),
            EventKind::EnterNotify(t) => Some(t),
            EventKind::LeaveNotify(ev) => Some(ev.time),
            EventKind::PropertyNotify(ev) => Some(ev.time),
            _ => None,
        }
    }

    /// The server time that the event carries, if it carries one that the
    /// loop keeps.
    pub fn time(&self) -> (t: Option<u32>)
        ensures
            t == self.spec_time(),
    {
        match self {
            EventKind::KeyPress(ev) => Some(ev.time),
            EventKind::KeyRelease(ev) => Some(ev.time),
            EventKind::ButtonPress(t) => Some(*t),
            EventKind::ButtonRelease(t) => Some(*t),
            EventKind::MotionNotify(t) => Some(*t),
            EventKind::EnterNotify(t) => Some(*t),
            EventKind::LeaveNotify(ev) => Some(ev.time),
            EventKind::PropertyNotify(ev) => Some(ev.time),
            _ => None,
        }
    }

    /// The window that the event is for, if the loop routes it to a window.
    pub open spec fn spec_target(self) -> Option<u32> {
        match self {
            EventKind::Expose(ev) => Some(ev.window),
            EventKind::KeyPress(ev) => Some(ev.event),
            EventKind::KeyRelease(ev) => Some(ev.event),
            EventKind::XinputButtonPress(ev) => Some(ev.event),
            EventKind::XinputButtonRelease(ev) => Some(ev.event),
            EventKind::XinputMotion(ev) => Some(ev.event),
            EventKind::XinputTouchBegin(ev) => Some(ev.event),
            EventKind::XinputTouchUpdate(ev) => Some(ev.event),
            EventKind::XinputTouchEnd(ev) => Some(ev.event),
            EventKind::LeaveNotify(ev) => Some(ev.event),
            EventKind::ClientMessage(ev) => Some(ev.window),
            EventKind::DestroyNotify(ev) => Some(ev.window),
            EventKind::ConfigureNotify(ev) => Some(ev.window),
            EventKind::FocusIn(ev) => Some(ev.event),
            EventKind::FocusOut(ev) => Some(ev.event),
            _ => None,
        }
    }

    /// The window that the event is for, if the loop routes it to a window.
    pub fn target(&self) -> (w: Option<u32>)
        ensures
            w == self.spec_target(),
    {
        match self {
            EventKind::Expose(ev) => Some(ev.window),
            EventKind::KeyPress(ev) => Some(ev.event),
            EventKind::KeyRelease(ev) => Some(ev.event),
            EventKind::XinputButtonPress(ev) => Some(ev.event),
            EventKind::XinputButtonRelease(ev) => Some(ev.event),
            EventKind::XinputMotion(ev) => Some(ev.event),
            EventKind::XinputTouchBegin(ev) => Some(ev.event),
            EventKind::XinputTouchUpdate(ev) => Some(ev.event),
            EventKind::XinputTouchEnd(ev) => Some(ev.event),
            EventKind::LeaveNotify(ev) => Some(ev.event),
            EventKind::ClientMessage(ev) => Some(ev.window),
            EventKind::DestroyNotify(ev) => Some(ev.window),
            EventKind::ConfigureNotify(ev) => Some(ev.window),
            EventKind::FocusIn(ev) => Some(ev.event),
            EventKind::FocusOut(ev) => Some(ev.event),
            _ => None,
        }
    }
}

} // verus!
