//! Mouse cursors.

use vstd::prelude::*;
use crate::kurbo::Point;

verus! {

/// A cursor that a backend made on request.
#[derive(Clone, Debug, PartialEq, Eq)]
pub enum CustomCursor {
    X11(crate::backend::x11::window::CustomCursor),
    Web(crate::backend::web::window::CustomCursor),
}

/// The shape of the mouse cursor over a window.
#[derive(Clone, Debug, PartialEq, Eq)]
pub enum Cursor {
    Arrow,
    IBeam,
    Pointer,
    Crosshair,
    OpenHand,
    NotAllowed,
    ResizeLeftRight,
    ResizeUpDown,
    Custom(CustomCursor),
}

/// What a custom cursor is to be made from: the size of its image in whole
/// pixels and the place of its hot spot in the image.
#[derive(Clone, Copy, Debug, PartialEq, Eq, Structural)]
pub struct CursorDesc {
    pub width: u32,
    pub height: u32,
    pub hot: Point,
}

} // verus!
