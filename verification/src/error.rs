//! What can go wrong while an event is handled.

use vstd::prelude::*;

verus! {

/// Why an event could not be handled. None of these stops the loop: the
/// event is dropped and the next one is taken up.
#[derive(Clone, Copy, Debug, PartialEq, Eq, Structural)]
pub enum Error {
    /// No window with this id is registered; it may just have been destroyed.
    NoWindow(u32),
    /// A wheel event carried a button code that is no wheel.
    UnexpectedWheelButton(u32),
    /// The server reported that a request failed, with this error code.
    Request(u8),
    /// The handle is not attached to a window.
    WindowDropped,
    /// The display has no screen with this number.
    InvalidScreen(usize),
    /// The screen does not list the visual of its root window.
    NoVisual,
    /// Reading the pipe that wakes the loop failed, with this error number.
    IdlePipe(i32),
    /// Waiting for the connection failed, with this error number. This one
    /// ends the loop.
    Poll(i32),
}

} // verus!
