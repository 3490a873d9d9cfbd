//! X11 windows: per-window state, the normalization of input events, and
//! the requests that a window sends to the server.

use vstd::prelude::*;
use vstd::std_specs::cmp::PartialEqSpecImpl;
use vstd::string::{StrSliceExecFns, StringSliceAdditionalSpecFns};
use crate::backend::x11::event::{
    Atom, ButtonPressEvent, ClientMessageEvent, ConfigureNotifyEvent, ExposeEvent, ModifierInfo,
    TouchBeginEvent,
};
use crate::backend::x11::application::{Application, ApplicationView, Screen, Visualtype};
use crate::backend::x11::masks::{
    button_mask_1, button_mask_2, button_mask_3, mod_mask_1, mod_mask_2, mod_mask_4, mod_mask_control,
    mod_mask_lock, mod_mask_shift, touch_emulating_pointer,
};
use crate::backend::x11::pointer::{DeviceInfo, DeviceKind, DeviceType, spec_tilt, tilt};
use crate::fixed::{UNIT, clamp_i64};
use crate::handler::{Delivery, DeliveryView, HandlerCall, HandlerGateway, spec_deliver};
use crate::keyboard::{KeyEvent, KeyState, Modifiers};
use crate::kurbo::{Point, Rect, Size, Vec2};
use crate::mouse::{Cursor, CustomCursor as AnyCustomCursor};
use crate::pointer::{
    MouseInfo, PenInfo, PointerButton, PointerButtons, PointerEvent, PointerId, PointerType,
    TouchInfo,
};
use crate::region::{Region, cells_of, clip_rects, lemma_cells_of_push};
use crate::scale::{Scale, ScaledArea};
use crate::text::KeyEventsState;
use crate::time::Instant;
use crate::timer::{Timer, TimerQueue, due_count, sorted};
use crate::dialog::FileDialogOptions;
use crate::mouse::CursorDesc;
use crate::window::{
    Counter, FileDialogToken, IdleCallback, IdleToken, TextFieldToken, TimerToken, WindowLevel,
};

verus! {

/// A cursor that the server made for a client.
#[derive(Clone, Copy, Debug, PartialEq, Eq, Structural)]
pub struct CustomCursor(pub u32);

/// The number of whole units in `v`, rounded toward zero.
pub open spec fn whole_units(v: int) -> int {
    if v >= 0 {
        v / (UNIT as int)
    } else {
        -((-v) / (UNIT as int))
    }
}

/// `v` limited to the range from `lo` to `hi`.
pub open spec fn clamp(v: int, lo: int, hi: int) -> int {
    if v < lo {
        lo
    } else if v > hi {
        hi
    } else {
        v
    }
}

/// The whole units of a fixed-point length as a signed 32-bit number,
/// saturating.
pub fn to_i32(v: i64) -> (r: i32)
    ensures
        r == clamp(whole_units(v as int), i32::MIN as int, i32::MAX as int),
{
    let q: i64 = if v >= 0 {
        v / 65536
    } else if v == i64::MIN {
        -0x8000_0000_0000
    } else {
        -((-v) / 65536)
    };
    if q < -0x8000_0000 {
        i32::MIN
    } else if q > 0x7fff_ffff {
        i32::MAX
    } else {
        q as i32
    }
}

/// The whole units of a fixed-point length as an unsigned 32-bit number,
/// saturating.
pub fn to_u32(v: i64) -> (r: u32)
    ensures
        r == clamp(whole_units(v as int), 0, u32::MAX as int),
{
    if v < 0 {
        0
    } else {
        let q: i64 = v / 65536;
        if q > 0xffff_ffff {
            u32::MAX
        } else {
            q as u32
        }
    }
}

/// The whole units of a fixed-point length as an unsigned 16-bit number,
/// saturating.
pub fn to_u16(v: i64) -> (r: u16)
    ensures
        r == clamp(whole_units(v as int), 0, u16::MAX as int),
{
    if v < 0 {
        0
    } else {
        let q: i64 = v / 65536;
        if q > 0xffff {
            u16::MAX
        } else {
            q as u16
        }
    }
}

/// A size in whole device pixels.
#[derive(Clone, Copy, Debug, PartialEq, Eq, Structural)]
pub struct PixelSize {
    pub width: i32,
    pub height: i32,
}

/// The size limits that a window announces to the window manager.
#[derive(Clone, Copy, Debug, PartialEq, Eq, Structural)]
pub struct SizeHints {
    pub min_size: Option<PixelSize>,
    pub max_size: Option<PixelSize>,
}

/// The whole device pixels of `size`, each limited to the signed 32-bit range.
pub open spec fn spec_pixel_size(size: Size) -> PixelSize {
    PixelSize {
        width: clamp(whole_units(size.width as int), i32::MIN as int, i32::MAX as int) as i32,
        height: clamp(whole_units(size.height as int), i32::MIN as int, i32::MAX as int) as i32,
    }
}

/// The whole device pixels of `size`.
pub fn pixel_size(size: Size) -> (p: PixelSize)
    ensures
        p == spec_pixel_size(size),
{
    PixelSize { width: to_i32(size.width), height: to_i32(size.height) }
}

/// The size limits of a window: a resizable window may not go below
/// `min_size`; one that is not keeps exactly `size`.
pub open spec fn spec_size_hints(resizable: bool, size: Size, min_size: Size) -> SizeHints {
    if resizable {
        SizeHints { min_size: Some(spec_pixel_size(min_size)), max_size: None }
    } else {
        SizeHints { min_size: Some(spec_pixel_size(size)), max_size: Some(spec_pixel_size(size)) }
    }
}

/// The size limits of a window of `size` device pixels.
pub fn size_hints(resizable: bool, size: Size, min_size: Size) -> (h: SizeHints)
    ensures
        h == spec_size_hints(resizable, size, min_size),
{
    if resizable {
        SizeHints { min_size: Some(pixel_size(min_size)), max_size: None }
    } else {
        let fixed = pixel_size(size);
        SizeHints { min_size: Some(fixed), max_size: Some(fixed) }
    }
}

/// The button that a button code of the server stands for. The codes 4 to 7
/// stand for the wheel and give no button, as does every unknown code.
pub open spec fn spec_pointer_button(button: u32) -> PointerButton {
    if button == 1 {
        PointerButton::Primary
    } else if button == 2 {
        PointerButton::Auxiliary
    } else if button == 3 {
        PointerButton::Secondary
    } else if button == 8 {
        PointerButton::X1
    } else if button == 9 {
        PointerButton::X2
    } else {
        PointerButton::NoButton
    }
}

/// The button that a button code of the server stands for.
pub fn pointer_button(button: u32) -> (b: PointerButton)
    ensures
        b == spec_pointer_button(button),
{
    match button {
        0 => PointerButton::NoButton,
        1 => PointerButton::Primary,
        2 => PointerButton::Auxiliary,
        3 => PointerButton::Secondary,
        4..=7 => PointerButton::NoButton,
        8 => PointerButton::X1,
        9 => PointerButton::X2,
        _ => PointerButton::NoButton,
    }
}

/// The bit of the first pointer button in a key and button mask.
pub const BUTTON_MASK_1: u16 = 0x0100;

/// The bit of the second pointer button in a key and button mask.
pub const BUTTON_MASK_2: u16 = 0x0200;

/// The bit of the third pointer button in a key and button mask.
pub const BUTTON_MASK_3: u16 = 0x0400;

/// The bit of the shift key in a key and button mask.
pub const MOD_MASK_SHIFT: u16 = 0x0001;

/// The bit of the caps lock in a key and button mask.
pub const MOD_MASK_LOCK: u16 = 0x0002;

/// The bit of the control key in a key and button mask.
pub const MOD_MASK_CONTROL: u16 = 0x0004;

/// The bit of the first modifier, by custom the alt key.
pub const MOD_MASK_1: u16 = 0x0008;

/// The bit of the second modifier, by custom the num lock.
pub const MOD_MASK_2: u16 = 0x0010;

/// The bit of the fourth modifier, by custom the meta key.
pub const MOD_MASK_4: u16 = 0x0040;

/// The bit by which a touch event says that it also moves the pointer.
pub const TOUCH_EMULATING_POINTER: u32 = 0x0002_0000;

/// The buttons that a key and button mask of the server reports as held.
/// The mask has no usable bits for the extra buttons.
pub open spec fn spec_pointer_buttons(mods: u16) -> PointerButtons {
    PointerButtons {
        primary: mods & BUTTON_MASK_1 != 0,
        auxiliary: mods & BUTTON_MASK_2 != 0,
        secondary: mods & BUTTON_MASK_3 != 0,
        x1: false,
        x2: false,
    }
}

/// The buttons that a key and button mask of the server reports as held.
pub fn pointer_buttons(mods: u16) -> (b: PointerButtons)
    ensures
        b == spec_pointer_buttons(mods),
{
    let mut buttons = PointerButtons::new();
    if mods & button_mask_1() != 0 {
        buttons.insert(PointerButton::Primary);
    }
    if mods & button_mask_2() != 0 {
        buttons.insert(PointerButton::Auxiliary);
    }
    if mods & button_mask_3() != 0 {
        buttons.insert(PointerButton::Secondary);
    }
    buttons
}

/// The modifiers that a key and button mask of the server reports.
pub open spec fn spec_key_mods(mods: u16) -> Modifiers {
    Modifiers {
        shift: mods & MOD_MASK_SHIFT != 0,
        control: mods & MOD_MASK_CONTROL != 0,
        alt: mods & MOD_MASK_1 != 0,
        num_lock: mods & MOD_MASK_2 != 0,
        meta: mods & MOD_MASK_4 != 0,
        caps_lock: mods & MOD_MASK_LOCK != 0,
        alt_graph: false,
        scroll_lock: false,
    }
}

/// The modifiers that a key and button mask of the server reports.
pub fn key_mods(mods: u16) -> (m: Modifiers)
    ensures
        m == spec_key_mods(mods),
{
    Modifiers {
        shift: mods & mod_mask_shift() != 0,
        control: mods & mod_mask_control() != 0,
        alt: mods & mod_mask_1() != 0,
        num_lock: mods & mod_mask_2() != 0,
        meta: mods & mod_mask_4() != 0,
        caps_lock: mods & mod_mask_lock() != 0,
        alt_graph: false,
        scroll_lock: false,
    }
}

/// The key and button mask of an input event: the low sixteen bits of the
/// base, locked and latched modifiers together.
pub open spec fn spec_effective_mask(mods: ModifierInfo) -> u16 {
    ((mods.base | mods.locked | mods.latched) & 0xffff) as u16
}

/// The key and button mask of an input event.
pub fn effective_mask(mods: ModifierInfo) -> (m: u16)
    ensures
        m == spec_effective_mask(mods),
{
    let all: u32 = mods.base | mods.locked | mods.latched;
    let low: u32 = all & 0xffff;
    assert(low <= 0xffff) by (bit_vector)
        requires
            low == all & 0xffff,
    ;
    low as u16
}

/// The id of a touch contact: the id of the device in the low half, the
/// number of the contact in the high half.
pub open spec fn spec_touch_pointer_id(sourceid: u16, detail: u32) -> u64 {
    (sourceid as u64) | ((detail as u64) << 32)
}

/// The id of a touch contact.
pub fn touch_pointer_id(sourceid: u16, detail: u32) -> (id: PointerId)
    ensures
        id.0 == spec_touch_pointer_id(sourceid, detail),
{
    PointerId((sourceid as u64) | ((detail as u64) << 32))
}

/// Two contacts get the same id only if they are the same contact of the
/// same device.
pub proof fn lemma_touch_pointer_id_injective(s1: u16, d1: u32, s2: u16, d2: u32)
    requires
        spec_touch_pointer_id(s1, d1) == spec_touch_pointer_id(s2, d2),
    ensures
        s1 == s2,
        d1 == d2,
{
    assert(((s1 as u64) | ((d1 as u64) << 32)) == ((s2 as u64) | ((d2 as u64) << 32)) ==> s1 == s2
        && d1 == d2) by (bit_vector);
}

/// What a turn of the wheel becomes: a wheel delta in pixels, 120 per
/// notch. The codes 4 and 5 turn the wheel up and down, or left and right
/// while shift is held; 6 and 7 turn it left and right. No other code is a
/// wheel.
pub open spec fn spec_wheel_delta(detail: u32, shift: bool) -> Option<Vec2> {
    let notch = 120 * UNIT;
    if detail == 4 {
        Some(if shift { Vec2 { x: (-notch) as i64, y: 0 } } else { Vec2 { x: 0, y: (-notch) as i64 } })
    } else if detail == 5 {
        Some(if shift { Vec2 { x: notch as i64, y: 0 } } else { Vec2 { x: 0, y: notch as i64 } })
    } else if detail == 6 {
        Some(Vec2 { x: (-notch) as i64, y: 0 })
    } else if detail == 7 {
        Some(Vec2 { x: notch as i64, y: 0 })
    } else {
        None
    }
}

/// What a turn of the wheel becomes.
pub fn wheel_delta(detail: u32, shift: bool) -> (d: Option<Vec2>)
    ensures
        d == spec_wheel_delta(detail, shift),
{
    let notch: i64 = 120 * 65536;
    match detail {
        4 => Some(if shift { Vec2 { x: -notch, y: 0 } } else { Vec2 { x: 0, y: -notch } }),
        5 => Some(if shift { Vec2 { x: notch, y: 0 } } else { Vec2 { x: 0, y: notch } }),
        6 => Some(Vec2 { x: -notch, y: 0 }),
        7 => Some(Vec2 { x: notch, y: 0 }),
        _ => None,
    }
}


/// A piece of deferred work of a window.
#[derive(Clone, Copy, Debug, PartialEq, Eq, Structural)]
pub enum IdleKind {
    /// A callback that the embedding program keeps.
    Callback(IdleCallback),
    /// Work that the client named by a token.
    Token(IdleToken),
    /// A frame is to be drawn.
    Redraw,
}

/// The name under which a window title is stored.
#[derive(Clone, Copy, Debug, PartialEq, Eq, Structural)]
pub enum NameProperty {
    /// The classic name, of type string.
    WmName,
    /// The name in UTF-8.
    NetWmName,
}

/// The role that a window announces to the window manager.
#[derive(Clone, Copy, Debug, PartialEq, Eq, Structural)]
pub enum WindowType {
    Normal,
    Tooltip,
    Dialog,
    DropdownMenu,
}

/// The state in which a window asks to be shown first.
#[derive(Clone, Copy, Debug, PartialEq, Eq, Structural)]
pub enum InitialState {
    Normal,
    Iconic,
}

/// A request to the server on behalf of a window. `B` is what holds the
/// bytes of a name or a class.
#[derive(Clone, Debug, PartialEq, Eq)]
pub enum RequestOf<B> {
    /// Make an input-only window of one pixel that gets structure events.
    CreateEventWindow { window: u32, parent: u32 },
    CreateColormap { colormap: u32, root: u32, visual: u32 },
    CreateWindow {
        depth: u8,
        window: u32,
        parent: u32,
        x: i16,
        y: i16,
        width: u16,
        height: u16,
        visual: u32,
        /// The colormap and border pixel of a window with its own visual.
        colormap: Option<u32>,
        border_pixel: Option<u32>,
    },
    EnablePointers(u32),
    FreeColormap(u32),
    SetPid { window: u32, pid: u32 },
    SetClass { window: u32, class: B },
    /// Announce that the window takes part in the close protocol.
    SetProtocols(u32),
    SetNormalHints { window: u32, hints: SizeHints },
    SetHints { window: u32, initial_state: Option<InitialState> },
    SetWindowType { window: u32, window_type: WindowType },
    /// Keep the window manager from placing and decorating the window.
    SetOverrideRedirect(u32),
    SetName { window: u32, property: NameProperty, name: B },
    MapWindow(u32),
    DestroyWindow(u32),
    Move { window: u32, x: i32, y: i32 },
    Resize { window: u32, width: u32, height: u32 },
    Raise(u32),
    SetInputFocus(u32),
    SetCursor { window: u32, cursor: u32 },
}

/// A request as the library hands it out.
pub type Request = RequestOf<Vec<u8>>;

/// A request as the contracts see it.
pub type RequestView = RequestOf<Seq<u8>>;

impl View for RequestOf<Vec<u8>> {
    type V = RequestOf<Seq<u8>>;

    open spec fn view(&self) -> RequestOf<Seq<u8>> {
        match *self {
            RequestOf::CreateEventWindow { window, parent } => RequestOf::CreateEventWindow { window, parent },
            RequestOf::CreateColormap { colormap, root, visual } => RequestOf::CreateColormap {
                colormap,
                root,
                visual,
            },
            RequestOf::CreateWindow {
                depth,
                window,
                parent,
                x,
                y,
                width,
                height,
                visual,
                colormap,
                border_pixel,
            } => RequestOf::CreateWindow {
                depth,
                window,
                parent,
                x,
                y,
                width,
                height,
                visual,
                colormap,
                border_pixel,
            },
            RequestOf::EnablePointers(w) => RequestOf::EnablePointers(w),
            RequestOf::FreeColormap(c) => RequestOf::FreeColormap(c),
            RequestOf::SetPid { window, pid } => RequestOf::SetPid { window, pid },
            RequestOf::SetClass { window, class } => RequestOf::SetClass { window, class: class@ },
            RequestOf::SetProtocols(w) => RequestOf::SetProtocols(w),
            RequestOf::SetNormalHints { window, hints } => RequestOf::SetNormalHints { window, hints },
            RequestOf::SetHints { window, initial_state } => RequestOf::SetHints { window, initial_state },
            RequestOf::SetWindowType { window, window_type } => RequestOf::SetWindowType {
                window,
                window_type,
            },
            RequestOf::SetOverrideRedirect(w) => RequestOf::SetOverrideRedirect(w),
            RequestOf::SetName { window, property, name } => RequestOf::SetName {
                window,
                property,
                name: name@,
            },
            RequestOf::MapWindow(w) => RequestOf::MapWindow(w),
            RequestOf::DestroyWindow(w) => RequestOf::DestroyWindow(w),
            RequestOf::Move { window, x, y } => RequestOf::Move { window, x, y },
            RequestOf::Resize { window, width, height } => RequestOf::Resize { window, width, height },
            RequestOf::Raise(w) => RequestOf::Raise(w),
            RequestOf::SetInputFocus(w) => RequestOf::SetInputFocus(w),
            RequestOf::SetCursor { window, cursor } => RequestOf::SetCursor { window, cursor },
        }
    }
}

/// The views of `requests`, in order.
pub open spec fn request_views(requests: Seq<Request>) -> Seq<RequestView> {
    Seq::new(requests.len(), |i: int| requests[i]@)
}

/// The two requests that give the window `id` the title `title`: first
/// under the classic name, then under the one in UTF-8.
pub open spec fn title_requests(id: u32, title: Seq<u8>) -> Seq<RequestView> {
    seq![
        RequestOf::SetName { window: id, property: NameProperty::WmName, name: title },
        RequestOf::SetName { window: id, property: NameProperty::NetWmName, name: title },
    ]
}

/// The cursors that the server loaded for the standard shapes.
#[derive(Clone, Copy, Debug, PartialEq, Eq, Structural)]
pub struct Cursors {
    pub default: Option<u32>,
    pub text: Option<u32>,
    pub pointer: Option<u32>,
    pub crosshair: Option<u32>,
    pub not_allowed: Option<u32>,
    pub row_resize: Option<u32>,
    pub col_resize: Option<u32>,
}

/// The server's cursor for a cursor shape, if it has one. There is none
/// for an open hand, nor for a custom cursor of another backend.
pub open spec fn spec_cursor_id(cursors: Cursors, cursor: Cursor) -> Option<u32> {
    match cursor {
        Cursor::Arrow => cursors.default,
        Cursor::IBeam => cursors.text,
        Cursor::Pointer => cursors.pointer,
        Cursor::Crosshair => cursors.crosshair,
        Cursor::OpenHand => None,
        Cursor::NotAllowed => cursors.not_allowed,
        Cursor::ResizeLeftRight => cursors.col_resize,
        Cursor::ResizeUpDown => cursors.row_resize,
        Cursor::Custom(AnyCustomCursor::X11(c)) => Some(c.0),
        Cursor::Custom(AnyCustomCursor::Web(_)) => None,
    }
}

/// The server's cursor for a cursor shape, if it has one.
pub fn cursor_id(cursors: &Cursors, cursor: &Cursor) -> (id: Option<u32>)
    ensures
        id == spec_cursor_id(*cursors, *cursor),
{
    match cursor {
        Cursor::Arrow => cursors.default,
        Cursor::IBeam => cursors.text,
        Cursor::Pointer => cursors.pointer,
        Cursor::Crosshair => cursors.crosshair,
        Cursor::OpenHand => None,
        Cursor::NotAllowed => cursors.not_allowed,
        Cursor::ResizeLeftRight => cursors.col_resize,
        Cursor::ResizeUpDown => cursors.row_resize,
        Cursor::Custom(AnyCustomCursor::X11(c)) => Some(c.0),
        Cursor::Custom(AnyCustomCursor::Web(_)) => None,
    }
}

/// The state of a window as the contracts see it.
#[verifier::ext_equal]
pub struct WindowView {
    pub id: u32,
    pub scale: Scale,
    pub area: ScaledArea,
    /// The least size of the window, in device pixels.
    pub min_size: Size,
    /// Whether the server has been asked to destroy the window.
    pub destroyed: bool,
    /// The rectangles that became invalid since the last paint.
    pub invalid: Seq<Rect>,
    /// The pending timers in firing order.
    pub timers: Seq<Timer>,
    /// The deferred work in the order in which it was handed in.
    pub idle: Seq<IdleKind>,
    /// The text field that the client wants to have the focus.
    pub next_text_field: Option<TextFieldToken>,
    /// The text field that keys are composed into.
    pub active_text_field: Option<TextFieldToken>,
    pub need_to_reset_compose: bool,
    pub parent: Option<u32>,
    /// Whether an activation of the client runs.
    pub handler_active: bool,
}

/// An X11 window.
#[derive(Clone, Debug, PartialEq, Eq)]
pub struct Window {
    id: u32,
    area: ScaledArea,
    scale: Scale,
    min_size: Size,
    destroyed: bool,
    invalid: Region,
    timer_queue: TimerQueue,
    idle_queue: Vec<IdleKind>,
    next_text_field: Option<TextFieldToken>,
    active_text_field: Option<TextFieldToken>,
    need_to_reset_compose: bool,
    parent: Option<u32>,
    gateway: HandlerGateway,
}

impl View for Window {
    type V = WindowView;

    closed spec fn view(&self) -> WindowView {
        WindowView {
            id: self.id,
            scale: self.scale,
            area: self.area,
            min_size: self.min_size,
            destroyed: self.destroyed,
            invalid: self.invalid.spec_rects(),
            timers: self.timer_queue@,
            idle: self.idle_queue@,
            next_text_field: self.next_text_field,
            active_text_field: self.active_text_field,
            need_to_reset_compose: self.need_to_reset_compose,
            parent: self.parent,
            handler_active: self.gateway.spec_is_active(),
        }
    }
}

impl WindowView {
    /// The scale is usable and the timers are in firing order.
    pub open spec fn wf(self) -> bool {
        self.scale.wf() && sorted(self.timers)
    }

    /// The rectangle of whole device pixels around `rect`, in
    /// device-independent pixels: what an invalidation of `rect` adds.
    pub open spec fn snapped(self, rect: Rect) -> Rect {
        rect.spec_to_px(self.scale).spec_expand().spec_to_dp(self.scale)
    }

    /// The state after `rect` became invalid.
    pub open spec fn add_invalid_rect(self, rect: Rect) -> WindowView {
        let r = self.snapped(rect);
        WindowView { invalid: if r.spec_is_empty() { self.invalid } else { self.invalid.push(r) }, ..self }
    }

    /// The state after a piece of deferred work was handed in.
    pub open spec fn add_idle(self, kind: IdleKind) -> WindowView {
        WindowView { idle: self.idle.push(kind), ..self }
    }

    /// The state after an activation was tried for `calls`.
    pub open spec fn entered(self) -> WindowView {
        WindowView { handler_active: true, ..self }
    }

    /// The bounds of the window in device-independent pixels.
    pub open spec fn bounds(self) -> Rect {
        self.area.spec_size_dp().spec_to_rect()
    }
}

/// The calls that deferred work gives rise to: one for each callback and
/// each token, in order; redraw marks call nothing by themselves.
pub open spec fn idle_calls(idle: Seq<IdleKind>) -> Seq<HandlerCall>
    decreases idle.len(),
{
    if idle.len() == 0 {
        Seq::empty()
    } else {
        let head = idle_calls(idle.drop_last());
        match idle.last() {
            IdleKind::Callback(c) => head.push(HandlerCall::IdleCallback(c)),
            IdleKind::Token(t) => head.push(HandlerCall::Idle(t)),
            IdleKind::Redraw => head,
        }
    }
}

/// Whether deferred work holds a redraw mark.
pub open spec fn has_redraw(idle: Seq<IdleKind>) -> bool {
    exists|i: int| 0 <= i < idle.len() && idle[i] == IdleKind::Redraw
}

/// The calls for timers that fire: one for each, in order.
pub open spec fn timer_calls(timers: Seq<Timer>) -> Seq<HandlerCall> {
    Seq::new(timers.len(), |i: int| HandlerCall::Timer(timers[i].token))
}

/// What an idle run of a window asks for.
#[derive(Clone, Debug, PartialEq, Eq)]
pub struct IdleRun {
    /// The calls for the deferred work.
    pub delivery: Delivery,
    /// Whether a frame is to be drawn once the calls are done.
    pub needs_redraw: bool,
}

impl Window {
    /// The scale is usable and the timers are in firing order.
    pub open spec fn wf(&self) -> bool {
        self@.wf()
    }

    /// A window of `size_px` device pixels that has nothing pending.
    pub fn new(id: u32, size_px: Size, scale: Scale, min_size: Size, parent: Option<u32>) -> (w: Window)
        requires
            scale.wf(),
        ensures
            w.wf(),
            w@ == (WindowView {
                id,
                scale,
                area: ScaledArea::spec_from_px(size_px, scale),
                min_size,
                destroyed: false,
                invalid: Seq::empty(),
                timers: Seq::empty(),
                idle: Seq::empty(),
                next_text_field: None,
                active_text_field: None,
                need_to_reset_compose: false,
                parent,
                handler_active: false,
            }),
    {
        Window {
            id,
            area: ScaledArea::from_px(size_px, scale),
            scale,
            min_size,
            destroyed: false,
            invalid: Region::empty(),
            timer_queue: TimerQueue::new(),
            idle_queue: Vec::new(),
            next_text_field: None,
            active_text_field: None,
            need_to_reset_compose: false,
            parent,
            gateway: HandlerGateway::new(),
        }
    }

    /// Whether the scale is usable and the timers are in firing order.
    pub fn is_well_formed(&self) -> (b: bool)
        ensures
            b == self.wf(),
    {
        self.scale.x() > 0 && self.scale.y() > 0 && self.timer_queue.is_well_formed()
    }

    /// The id of the window.
    pub fn id(&self) -> (id: u32)
        ensures
            id == self@.id,
    {
        self.id
    }

    /// The parent of the window, if it has one.
    pub fn parent(&self) -> (p: Option<u32>)
        ensures
            p == self@.parent,
    {
        self.parent
    }

    /// Whether the server has been asked to destroy the window.
    pub fn destroyed(&self) -> (b: bool)
        ensures
            b == self@.destroyed,
    {
        self.destroyed
    }

    /// The area of the window.
    pub fn size(&self) -> (a: ScaledArea)
        ensures
            a == self@.area,
    {
        self.area
    }

    /// The scale of the window.
    pub fn get_scale(&self) -> (s: Scale)
        ensures
            s == self@.scale,
    {
        self.scale
    }

    /// Whether an activation of the client runs.
    pub fn handler_active(&self) -> (b: bool)
        ensures
            b == self@.handler_active,
    {
        self.gateway.is_active()
    }

    /// The one way by which calls reach the client: they are passed on, and
    /// an activation starts for them, unless an activation runs already; then
    /// they are dropped.
    pub fn with_handler(&mut self, calls: Vec<HandlerCall>) -> (d: Delivery)
        ensures
            d@ == spec_deliver(old(self)@.handler_active, calls@),
            final(self)@ == old(self)@.entered(),
    {
        self.gateway.deliver(calls)
    }

    /// Ends the activation of the client: the calls of the last delivery
    /// have been made.
    pub fn handler_done(&mut self)
        ensures
            final(self)@ == (WindowView { handler_active: false, ..old(self)@ }),
    {
        self.gateway.leave();
    }

    /// Tells the client that the window exists, and its scale and size.
    pub fn connect(&mut self) -> (d: Delivery)
        ensures
            d@ == spec_deliver(
                old(self)@.handler_active,
                seq![
                    HandlerCall::Connect,
                    HandlerCall::Scale(old(self)@.scale),
                    HandlerCall::Size(old(self)@.area.spec_size_dp()),
                ],
            ),
            final(self)@ == old(self)@.entered(),
    {
        let mut calls: Vec<HandlerCall> = Vec::new();
        calls.push(HandlerCall::Connect);
        calls.push(HandlerCall::Scale(self.scale));
        calls.push(HandlerCall::Size(self.area.size_dp()));
        assert(calls@ =~= seq![
            HandlerCall::Connect,
            HandlerCall::Scale(self@.scale),
            HandlerCall::Size(self@.area.spec_size_dp()),
        ]);
        self.with_handler(calls)
    }

    /// Starts the destruction of the window: the first call asks the server
    /// to destroy it, every later one does nothing.
    pub fn destroy(&mut self) -> (r: Option<Request>)
        ensures
            final(self)@ == (WindowView { destroyed: true, ..old(self)@ }),
            r == if old(self)@.destroyed {
                None
            } else {
                Some(Request::DestroyWindow(old(self)@.id))
            },
    {
        if !self.destroyed {
            self.destroyed = true;
            Some(Request::DestroyWindow(self.id))
        } else {
            None
        }
    }

    /// Closes the window, which destroys it.
    pub fn close(&mut self) -> (r: Option<Request>)
        ensures
            final(self)@ == (WindowView { destroyed: true, ..old(self)@ }),
            r == if old(self)@.destroyed {
                None
            } else {
                Some(Request::DestroyWindow(old(self)@.id))
            },
    {
        self.destroy()
    }

    /// Asks the server to show the window, unless it is being destroyed.
    pub fn show(&self) -> (r: Option<Request>)
        ensures
            r == if self@.destroyed {
                None
            } else {
                Some(Request::MapWindow(self@.id))
            },
    {
        if !self.destroyed {
            Some(Request::MapWindow(self.id))
        } else {
            None
        }
    }

    /// Announces whether the size of the window may change, unless the
    /// window is being destroyed.
    pub fn resizable(&self, resizable: bool) -> (r: Option<Request>)
        ensures
            r == if self@.destroyed {
                None
            } else {
                Some(
                    Request::SetNormalHints {
                        window: self@.id,
                        hints: spec_size_hints(resizable, self@.area.spec_size_px(), self@.min_size),
                    },
                )
            },
    {
        if self.destroyed {
            None
        } else {
            Some(
                Request::SetNormalHints {
                    window: self.id,
                    hints: size_hints(resizable, self.area.size_px(), self.min_size),
                },
            )
        }
    }

    /// Showing or hiding the title bar is not available on this backend:
    /// nothing is asked of the server.
    pub fn show_titlebar(&self, _show_titlebar: bool) -> (r: Option<Request>)
        ensures
            r is None,
    {
        None
    }

    /// The position of the window relative to its parent, in
    /// device-independent pixels, from the position in device pixels that
    /// the server gave for it; the origin where the server gave none.
    pub fn get_position(&self, reply: Option<Point>, parent_origin: Vec2) -> (p: Point)
        requires
            self.wf(),
        ensures
            p == match reply {
                Some(px) => px.spec_to_dp(self@.scale).spec_translate_back(parent_origin),
                None => Point { x: 0, y: 0 },
            },
    {
        match reply {
            Some(px) => px.to_dp(self.scale).translate_back(parent_origin),
            None => Point::origin(),
        }
    }

    /// Moves the window to `pos`, which is relative to its parent and in
    /// device-independent pixels, unless the window is being destroyed.
    pub fn set_position(&self, pos: Point, parent_origin: Vec2) -> (r: Option<Request>)
        ensures
            r == if self@.destroyed {
                None
            } else {
                let px = pos.spec_translate(parent_origin).spec_to_px(self@.scale).spec_expand();
                Some(
                    Request::Move {
                        window: self@.id,
                        x: clamp(whole_units(px.x as int), i32::MIN as int, i32::MAX as int) as i32,
                        y: clamp(whole_units(px.y as int), i32::MIN as int, i32::MAX as int) as i32,
                    },
                )
            },
    {
        if self.destroyed {
            None
        } else {
            let px = pos.translate(parent_origin).to_px(self.scale).expand();
            Some(Request::Move { window: self.id, x: to_i32(px.x), y: to_i32(px.y) })
        }
    }

    /// Gives the window the size `size`, in device-independent pixels,
    /// unless the window is being destroyed.
    pub fn set_size(&self, size: Size) -> (r: Option<Request>)
        ensures
            r == if self@.destroyed {
                None
            } else {
                let px = size.spec_to_px(self@.scale).spec_expand();
                Some(
                    Request::Resize {
                        window: self@.id,
                        width: clamp(whole_units(px.width as int), 0, u32::MAX as int) as u32,
                        height: clamp(whole_units(px.height as int), 0, u32::MAX as int) as u32,
                    },
                )
            },
    {
        if self.destroyed {
            None
        } else {
            let px = size.to_px(self.scale).expand();
            Some(Request::Resize { window: self.id, width: to_u32(px.width), height: to_u32(px.height) })
        }
    }

    /// Raises the window above the others and gives it the focus, unless it
    /// is being destroyed.
    pub fn bring_to_front_and_focus(&self) -> (r: Vec<Request>)
        ensures
            r@ == if self@.destroyed {
                Seq::<Request>::empty()
            } else {
                seq![Request::Raise(self@.id), Request::SetInputFocus(self@.id)]
            },
    {
        let mut r: Vec<Request> = Vec::new();
        if !self.destroyed {
            r.push(Request::Raise(self.id));
            r.push(Request::SetInputFocus(self.id));
        }
        r
    }

    /// Gives the window the title `title`, under both names by which window
    /// managers look for it, unless the window is being destroyed.
    pub fn set_title(&self, title: &str) -> (r: Vec<Request>)
        ensures
            request_views(r@) == if self@.destroyed {
                Seq::<RequestView>::empty()
            } else {
                title_requests(self@.id, title.spec_bytes())
            },
    {
        let mut r: Vec<Request> = Vec::new();
        if !self.destroyed {
            r.push(
                Request::SetName { window: self.id, property: NameProperty::WmName, name: title.as_bytes_vec() },
            );
            r.push(
                Request::SetName {
                    window: self.id,
                    property: NameProperty::NetWmName,
                    name: title.as_bytes_vec(),
                },
            );
        }
        r
    }

    /// Shows `cursor` over the window, unless the server has no cursor for
    /// it or the window is being destroyed.
    pub fn set_cursor(&self, cursor: &Cursor, cursors: &Cursors) -> (r: Option<Request>)
        ensures
            r == match spec_cursor_id(*cursors, *cursor) {
                Some(c) if !self@.destroyed => Some(Request::SetCursor { window: self@.id, cursor: c }),
                _ => None,
            },
    {
        match cursor_id(cursors, cursor) {
            Some(c) => {
                if self.destroyed {
                    None
                } else {
                    Some(Request::SetCursor { window: self.id, cursor: c })
                }
            },
            None => None,
        }
    }

    /// Window menus are not available on this backend: nothing changes.
    pub fn set_menu(&self) {
    }

    /// Marks the whole device pixels around `rect` as invalid. `rect` is in
    /// device-independent pixels.
    pub fn add_invalid_rect(&mut self, rect: Rect)
        requires
            old(self).wf(),
        ensures
            final(self)@ == old(self)@.add_invalid_rect(rect),
            cells_of(final(self)@.invalid) =~= cells_of(old(self)@.invalid).union(
                old(self)@.snapped(rect).cells(),
            ),
            final(self).wf(),
    {
        let r = rect.to_px(self.scale).expand().to_dp(self.scale);
        self.invalid.add_rect(r);
    }

    /// Hands in a piece of deferred work. Returns whether the loop must be
    /// woken: it must when, and only when, no other work was waiting.
    pub fn add_idle(&mut self, kind: IdleKind) -> (wake: bool)
        ensures
            final(self)@ == old(self)@.add_idle(kind),
            wake == (old(self)@.idle.len() == 0),
    {
        let wake = self.idle_queue.len() == 0;
        self.idle_queue.push(kind);
        wake
    }

    /// Asks for a frame to be drawn at the next idle run. Returns whether
    /// the loop must be woken.
    pub fn request_anim_frame(&mut self) -> (wake: bool)
        ensures
            final(self)@ == old(self)@.add_idle(IdleKind::Redraw),
            wake == (old(self)@.idle.len() == 0),
    {
        self.add_idle(IdleKind::Redraw)
    }

    /// Marks the whole window as invalid and asks for a frame. Returns
    /// whether the loop must be woken.
    pub fn invalidate(&mut self) -> (wake: bool)
        requires
            old(self).wf(),
        ensures
            final(self)@ == old(self)@.add_invalid_rect(old(self)@.bounds()).add_idle(IdleKind::Redraw),
            wake == (old(self)@.idle.len() == 0),
            final(self).wf(),
    {
        let rect = self.area.size_dp().to_rect();
        self.add_invalid_rect(rect);
        self.request_anim_frame()
    }

    /// Marks `rect` as invalid and asks for a frame. Returns whether the
    /// loop must be woken.
    pub fn invalidate_rect(&mut self, rect: Rect) -> (wake: bool)
        requires
            old(self).wf(),
        ensures
            final(self)@ == old(self)@.add_invalid_rect(rect).add_idle(IdleKind::Redraw),
            cells_of(final(self)@.invalid) =~= cells_of(old(self)@.invalid).union(
                old(self)@.snapped(rect).cells(),
            ),
            wake == (old(self)@.idle.len() == 0),
            final(self).wf(),
    {
        self.add_invalid_rect(rect);
        self.request_anim_frame()
    }
}

/// The rectangle that an expose event names, in device pixels.
pub open spec fn spec_expose_rect(expose: ExposeEvent) -> Rect {
    Rect {
        x0: (expose.x * UNIT) as i64,
        y0: (expose.y * UNIT) as i64,
        x1: ((expose.x + expose.width) * UNIT) as i64,
        y1: ((expose.y + expose.height) * UNIT) as i64,
    }
}

/// The rectangle that an expose event names, in device pixels.
pub fn expose_rect(expose: &ExposeEvent) -> (r: Rect)
    ensures
        r == spec_expose_rect(*expose),
{
    let x: i64 = expose.x as i64;
    let y: i64 = expose.y as i64;
    let w: i64 = expose.width as i64;
    let h: i64 = expose.height as i64;
    Rect { x0: x * 65536, y0: y * 65536, x1: (x + w) * 65536, y1: (y + h) * 65536 }
}

/// What every pointer event of the input extension starts from: a mouse
/// that is not primary, at the position of the event, with the buttons and
/// modifiers that the event reports.
pub open spec fn spec_base_pointer_event(
    scale: Scale,
    x: i32,
    y: i32,
    mods: ModifierInfo,
    detail: u32,
    src_id: u16,
) -> PointerEvent {
    let mask = spec_effective_mask(mods);
    PointerEvent {
        pointer_id: PointerId(src_id as u64),
        is_primary: false,
        pointer_type: PointerType::spec_plain_mouse(),
        pos: (Point { x: x as i64, y: y as i64 }).spec_to_dp(scale),
        buttons: spec_pointer_buttons(mask),
        modifiers: spec_key_mods(mask),
        button: spec_pointer_button(detail),
        focus: false,
        count: 0,
    }
}

/// The pointer event of a touch contact: a touch without geometry or
/// pressure, whose id folds the device and the contact together. The
/// contact that also moves the pointer is primary and holds the primary
/// button.
pub open spec fn spec_pointer_touch_event(scale: Scale, ev: TouchBeginEvent) -> PointerEvent {
    let is_primary = (ev.flags | TOUCH_EMULATING_POINTER) == ev.flags;
    PointerEvent {
        is_primary,
        pointer_type: PointerType::Touch(
            TouchInfo { contact_geometry: Size { width: 0, height: 0 }, pressure: 0 },
        ),
        button: if is_primary {
            PointerButton::Primary
        } else {
            PointerButton::NoButton
        },
        pointer_id: PointerId(spec_touch_pointer_id(ev.sourceid, ev.detail)),
        ..spec_base_pointer_event(scale, ev.event_x, ev.event_y, ev.mods, ev.detail, ev.sourceid)
    }
}

/// What a pen reports with an event of the device `src`: the pressure as a
/// fraction of the calibrated range, and the tilts as read; zero for every
/// axis that the device lacks.
pub open spec fn spec_pen_info(src: DeviceInfo, ev: ButtonPressEvent) -> PenInfo {
    PenInfo {
        pressure: match src.valuators.pressure {
            Some(val) => val.spec_normalize(ev.axisvalues.pressure) as i64,
            None => 0,
        },
        tangential_pressure: 0,
        tilt_x: spec_tilt(src.valuators.x_tilt, ev.axisvalues.x_tilt),
        tilt_y: spec_tilt(src.valuators.y_tilt, ev.axisvalues.y_tilt),
        twist: 0,
    }
}

/// The kind of pointer behind an event from the device `src`: a pen or an
/// eraser with what it reports, and a mouse for everything else and where
/// the device is not known.
pub open spec fn spec_pointer_type(src: Option<DeviceInfo>, ev: ButtonPressEvent) -> PointerType {
    match src {
        Some(d) => match d.device_kind {
            DeviceKind::Pen => PointerType::Pen(spec_pen_info(d, ev)),
            DeviceKind::Eraser => PointerType::Eraser(spec_pen_info(d, ev)),
            DeviceKind::Touch => PointerType::spec_plain_mouse(),
            DeviceKind::Mouse => PointerType::spec_plain_mouse(),
        },
        None => PointerType::spec_plain_mouse(),
    }
}

/// The pointer event of a button or motion event. It is primary if its
/// device is known and is a master pointer.
pub open spec fn spec_pointer_event(
    scale: Scale,
    ev: ButtonPressEvent,
    device: Option<DeviceInfo>,
    src_device: Option<DeviceInfo>,
) -> PointerEvent {
    PointerEvent {
        is_primary: match device {
            Some(d) => d.device_type == DeviceType::MasterPointer,
            None => false,
        },
        pointer_type: spec_pointer_type(src_device, ev),
        ..spec_base_pointer_event(scale, ev.event_x, ev.event_y, ev.mods, ev.detail, ev.sourceid)
    }
}

/// The three calls that clear the composition range of a text field:
/// lock, clear, unlock.
pub open spec fn clear_composition_calls(field: TextFieldToken) -> Seq<HandlerCall> {
    seq![
        HandlerCall::AcquireInputLock(field),
        HandlerCall::ClearCompositionRange(field),
        HandlerCall::ReleaseInputLock(field),
    ]
}

/// The three calls that commit the composition of a text field: lock,
/// commit, unlock.
pub open spec fn commit_composition_calls(field: TextFieldToken) -> Seq<HandlerCall> {
    seq![
        HandlerCall::AcquireInputLock(field),
        HandlerCall::CommitComposition(field),
        HandlerCall::ReleaseInputLock(field),
    ]
}

/// The three calls that feed a key to a text field: lock, feed, unlock.
pub open spec fn compose_key_calls(field: TextFieldToken, event: KeyEvent) -> Seq<HandlerCall> {
    seq![
        HandlerCall::AcquireInputLock(field),
        HandlerCall::ComposeKey(field, event),
        HandlerCall::ReleaseInputLock(field),
    ]
}

/// What a change of the text field in focus makes of a window, of the
/// composition and for the client.
pub struct TextReset {
    pub view: WindowView,
    pub composing: bool,
    pub calls: Seq<HandlerCall>,
}

impl WindowView {
    /// Brings the active text field in line with the one that the client
    /// asked for. Where the two differ, a composition under way is cancelled
    /// and the composition range of the field that was active is cleared;
    /// then the field asked for becomes active. Where a reset was flagged
    /// and a composition is still under way, it is cancelled and the range
    /// of the field asked for is cleared.
    pub open spec fn reset_text_fields(self, composing: bool) -> TextReset {
        let changed = self.next_text_field != self.active_text_field;
        let first: Seq<HandlerCall> = if changed && composing && self.active_text_field is Some {
            clear_composition_calls(self.active_text_field->Some_0)
        } else {
            Seq::empty()
        };
        let composing_mid = composing && !changed;
        let second: Seq<HandlerCall> = if self.need_to_reset_compose && composing_mid
            && self.next_text_field is Some {
            clear_composition_calls(self.next_text_field->Some_0)
        } else {
            Seq::empty()
        };
        TextReset {
            view: WindowView { active_text_field: self.next_text_field, ..self },
            composing: composing_mid && !self.need_to_reset_compose,
            calls: first + second,
        }
    }

    /// The calls that follow a key press which the client left unhandled:
    /// those of the change of text field, and then, where a text field has
    /// the focus, the calls that feed the key to it.
    pub open spec fn key_down_calls(self, composing: bool, event: KeyEvent) -> Seq<HandlerCall> {
        let reset = self.reset_text_fields(composing);
        match self.next_text_field {
            Some(f) => reset.calls + compose_key_calls(f, event),
            None => reset.calls,
        }
    }

    /// The calls of a loss of focus: the notice, and where a text field is
    /// active and a composition under way, the calls that commit it.
    pub open spec fn lost_focus_calls(self, composing: bool) -> Seq<HandlerCall> {
        if self.active_text_field is Some && composing {
            seq![HandlerCall::LostFocus] + commit_composition_calls(self.active_text_field->Some_0)
        } else {
            seq![HandlerCall::LostFocus]
        }
    }

    /// The state after the client gave up the text field `token`.
    pub open spec fn remove_text_field(self, token: TextFieldToken) -> WindowView {
        let hit_next = self.next_text_field == Some(token);
        let hit_active = self.active_text_field == Some(token);
        WindowView {
            next_text_field: if hit_next { None } else { self.next_text_field },
            active_text_field: if hit_active { None } else { self.active_text_field },
            need_to_reset_compose: self.need_to_reset_compose || hit_next || hit_active,
            ..self
        }
    }
}

/// The size that a configure event reports, in device pixels.
pub open spec fn spec_configure_size(event: ConfigureNotifyEvent) -> Size {
    Size { width: (event.width * UNIT) as i64, height: (event.height * UNIT) as i64 }
}

/// The key event of a key press or release that comes from the server.
pub open spec fn spec_key_event(detail: u8, keysym: u32, state: KeyState) -> KeyEvent {
    KeyEvent { scancode: detail as u32, keysym, state, repeat: false }
}

/// Whether a button code of the input extension stands for the wheel.
pub open spec fn spec_is_wheel(detail: u32) -> bool {
    4 <= detail <= 7
}

/// What an event makes of a window, of the composition and for the client.
#[verifier::ext_equal]
pub struct Dispatched {
    /// The window afterwards.
    pub view: WindowView,
    /// The calls for the client.
    pub delivery: DeliveryView,
    /// Whether the loop must be woken.
    pub wake: bool,
    /// Whether a composition is under way afterwards.
    pub composing: bool,
    /// Why the event could not be handled, if it could not.
    pub error: Option<crate::error::Error>,
}

impl WindowView {
    /// The event has nothing to say to the window.
    pub open spec fn untouched(self, composing: bool) -> Dispatched {
        Dispatched { view: self, delivery: DeliveryView::Nothing, wake: false, composing, error: None }
    }

    /// The event has `calls` for the client.
    pub open spec fn delivered(self, calls: Seq<HandlerCall>, composing: bool) -> Dispatched {
        Dispatched {
            view: self.entered(),
            delivery: spec_deliver(self.handler_active, calls),
            wake: false,
            composing,
            error: None,
        }
    }

    /// The window learns of a size in device pixels: where it differs from
    /// the size known, the whole window becomes invalid and the client is
    /// told the size and the scale.
    pub open spec fn size_changed(self, size: Size) -> Dispatched {
        if size == self.area.spec_size_px() {
            self.untouched(false)
        } else {
            let dp = size.spec_to_dp(self.scale);
            (WindowView { area: ScaledArea::spec_from_px(size, self.scale), ..self }).add_invalid_rect(
                dp.spec_to_rect(),
            ).delivered(seq![HandlerCall::Size(dp), HandlerCall::Scale(self.scale)], false)
        }
    }

    /// A part of the window was exposed: it becomes invalid, and with the
    /// last event of a series a frame is asked for.
    pub open spec fn expose(self, ev: ExposeEvent) -> Dispatched {
        let marked = self.add_invalid_rect(spec_expose_rect(ev).spec_to_dp(self.scale));
        if ev.count == 0 {
            Dispatched {
                view: marked.add_idle(IdleKind::Redraw),
                delivery: DeliveryView::Nothing,
                wake: self.idle.len() == 0,
                composing: false,
                error: None,
            }
        } else {
            marked.untouched(false)
        }
    }

    /// A key went down or up. While an activation runs nothing happens. A
    /// key going down is passed on alone; a key going up is followed by the
    /// calls of a change of text field.
    pub open spec fn key_event(self, event: KeyEvent, composing: bool) -> Dispatched {
        if self.handler_active {
            Dispatched { view: self, delivery: DeliveryView::Busy, wake: false, composing, error: None }
        } else if event.state == KeyState::Down {
            self.delivered(seq![HandlerCall::KeyDown(event)], composing)
        } else {
            let reset = self.reset_text_fields(composing);
            reset.view.delivered(seq![HandlerCall::KeyUp(event)] + reset.calls, reset.composing)
        }
    }

    /// The window lost the focus. While an activation runs nothing happens.
    pub open spec fn lost_focus(self, composing: bool) -> Dispatched {
        if self.handler_active {
            Dispatched { view: self, delivery: DeliveryView::Busy, wake: false, composing, error: None }
        } else {
            self.delivered(self.lost_focus_calls(composing), composing && self.active_text_field is None)
        }
    }

    /// A message from the window manager: only a request to close the
    /// window reaches the client.
    pub open spec fn client_message(self, msg: ClientMessageEvent) -> Dispatched {
        if msg.type_ == Atom::WmProtocols && msg.format == 32 && msg.protocol == Atom::WmDeleteWindow {
            self.delivered(seq![HandlerCall::RequestClose], false)
        } else {
            self.untouched(false)
        }
    }

    /// A button of the input extension went down. The codes of the wheel
    /// give a wheel event, every other code a pointer going down.
    pub open spec fn button_press(
        self,
        ev: ButtonPressEvent,
        device: Option<DeviceInfo>,
        src: Option<DeviceInfo>,
    ) -> Dispatched {
        let e = spec_pointer_event(self.scale, ev, device, src);
        if spec_is_wheel(ev.detail) {
            self.delivered(
                seq![
                    HandlerCall::Wheel(
                        PointerEvent {
                            pointer_type: PointerType::Mouse(
                                MouseInfo { wheel_delta: spec_wheel_delta(ev.detail, e.modifiers.shift)->Some_0 },
                            ),
                            button: PointerButton::NoButton,
                            ..e
                        },
                    ),
                ],
                false,
            )
        } else {
            self.delivered(
                seq![
                    HandlerCall::PointerDown(
                        PointerEvent { buttons: e.buttons.spec_set(e.button, true), count: 1, ..e },
                    ),
                ],
                false,
            )
        }
    }

    /// A button of the input extension went up. The codes of the wheel are
    /// ignored, every other code gives a pointer going up.
    pub open spec fn button_release(
        self,
        ev: ButtonPressEvent,
        device: Option<DeviceInfo>,
        src: Option<DeviceInfo>,
    ) -> Dispatched {
        let e = spec_pointer_event(self.scale, ev, device, src);
        if spec_is_wheel(ev.detail) {
            self.untouched(false)
        } else {
            self.delivered(
                seq![HandlerCall::PointerUp(PointerEvent { buttons: e.buttons.spec_set(e.button, false), ..e })],
                false,
            )
        }
    }

    /// What an event for the window makes of it. `device` and `src` are the
    /// devices that an input event names, where the server knows them; the
    /// composition matters to key and focus events only and is otherwise
    /// left as it is.
    pub open spec fn dispatch(
        self,
        kind: crate::backend::x11::event::EventKind,
        device: Option<DeviceInfo>,
        src: Option<DeviceInfo>,
        composing: bool,
    ) -> Dispatched {
        let keep = |d: Dispatched| Dispatched { composing, ..d };
        match kind {
            crate::backend::x11::event::EventKind::Expose(ev) => keep(self.expose(ev)),
            crate::backend::x11::event::EventKind::KeyPress(ev) => self.key_event(
                spec_key_event(ev.detail, ev.keysym, KeyState::Down),
                composing,
            ),
            crate::backend::x11::event::EventKind::KeyRelease(ev) => self.key_event(
                spec_key_event(ev.detail, ev.keysym, KeyState::Up),
                composing,
            ),
            crate::backend::x11::event::EventKind::XinputButtonPress(ev) => keep(
                self.button_press(ev, device, src),
            ),
            crate::backend::x11::event::EventKind::XinputButtonRelease(ev) => keep(
                self.button_release(ev, device, src),
            ),
            crate::backend::x11::event::EventKind::XinputMotion(ev) => self.delivered(
                seq![
                    HandlerCall::PointerMove(
                        PointerEvent {
                            button: PointerButton::NoButton,
                            ..spec_pointer_event(self.scale, ev, device, src)
                        },
                    ),
                ],
                composing,
            ),
            crate::backend::x11::event::EventKind::XinputTouchBegin(ev) => {
                let e = spec_pointer_touch_event(self.scale, ev);
                self.delivered(
                    seq![
                        HandlerCall::PointerDown(PointerEvent { buttons: e.buttons.spec_set(e.button, true), ..e }),
                    ],
                    composing,
                )
            },
            crate::backend::x11::event::EventKind::XinputTouchUpdate(ev) => self.delivered(
                seq![HandlerCall::PointerMove(spec_pointer_touch_event(self.scale, ev))],
                composing,
            ),
            crate::backend::x11::event::EventKind::XinputTouchEnd(ev) => {
                let e = spec_pointer_touch_event(self.scale, ev);
                self.delivered(
                    seq![
                        HandlerCall::PointerMove(PointerEvent { buttons: e.buttons.spec_set(e.button, false), ..e }),
                    ],
                    composing,
                )
            },
            crate::backend::x11::event::EventKind::LeaveNotify(_) => self.delivered(
                seq![HandlerCall::PointerLeave],
                composing,
            ),
            crate::backend::x11::event::EventKind::ClientMessage(ev) => keep(self.client_message(ev)),
            crate::backend::x11::event::EventKind::DestroyNotify(_) => self.delivered(
                seq![HandlerCall::Destroy],
                composing,
            ),
            crate::backend::x11::event::EventKind::ConfigureNotify(ev) => keep(
                self.size_changed(spec_configure_size(ev)),
            ),
            crate::backend::x11::event::EventKind::FocusIn(_) => self.delivered(
                seq![HandlerCall::GotFocus],
                composing,
            ),
            crate::backend::x11::event::EventKind::FocusOut(_) => self.lost_focus(composing),
            _ => self.untouched(composing),
        }
    }
}

impl Window {
    /// Draws a frame: the client is told to prepare, and then to paint what
    /// became invalid since the last frame, as far as it lies inside the
    /// window. Afterwards nothing is invalid. A window that is being
    /// destroyed is not painted and keeps its invalid region.
    pub fn render(&mut self) -> (d: Delivery)
        ensures
            final(self)@ == (WindowView {
                invalid: if old(self)@.destroyed {
                    old(self)@.invalid
                } else {
                    Seq::empty()
                },
                handler_active: true,
                ..old(self)@
            }),
            old(self)@.handler_active ==> d@ == DeliveryView::Busy,
            !old(self)@.handler_active && old(self)@.destroyed ==> d@ == DeliveryView::Calls(
                seq![HandlerCall::PreparePaint],
            ),
            !old(self)@.handler_active && !old(self)@.destroyed ==> (d@ matches DeliveryView::Calls(c)
                && c.len() == 2 && c[0] == HandlerCall::PreparePaint && (c[1] matches HandlerCall::Paint(r)
                && r.spec_rects() == clip_rects(old(self)@.invalid, old(self)@.bounds()) && r.cells()
                =~= cells_of(old(self)@.invalid).intersect(old(self)@.bounds().cells()))),
    {
        let mut calls: Vec<HandlerCall> = Vec::new();
        calls.push(HandlerCall::PreparePaint);
        if self.destroyed {
            assert(calls@ =~= seq![HandlerCall::PreparePaint]);
            return self.with_handler(calls);
        }
        let bounds = self.area.size_dp().to_rect();
        let invalid = self.invalid.take();
        let region = invalid.clipped(&bounds);
        calls.push(HandlerCall::Paint(region));
        self.with_handler(calls)
    }

    /// Draws a frame now.
    pub fn redraw_now(&mut self) -> (d: Delivery)
        ensures
            final(self)@ == (WindowView {
                invalid: if old(self)@.destroyed {
                    old(self)@.invalid
                } else {
                    Seq::empty()
                },
                handler_active: true,
                ..old(self)@
            }),
            old(self)@.handler_active ==> d@ == DeliveryView::Busy,
            !old(self)@.handler_active && old(self)@.destroyed ==> d@ == DeliveryView::Calls(
                seq![HandlerCall::PreparePaint],
            ),
            !old(self)@.handler_active && !old(self)@.destroyed ==> (d@ matches DeliveryView::Calls(c)
                && c.len() == 2 && c[0] == HandlerCall::PreparePaint && (c[1] matches HandlerCall::Paint(r)
                && r.spec_rects() == clip_rects(old(self)@.invalid, old(self)@.bounds()) && r.cells()
                =~= cells_of(old(self)@.invalid).intersect(old(self)@.bounds().cells()))),
    {
        self.render()
    }

    /// Takes note of a new size, in device pixels. If it differs from the
    /// size known, the whole window becomes invalid and the client is told
    /// the new size and the scale; otherwise nothing happens.
    pub fn size_changed(&mut self, size: Size) -> (d: Delivery)
        requires
            old(self).wf(),
        ensures
            final(self).wf(),
            final(self)@ == old(self)@.size_changed(size).view,
            d@ == old(self)@.size_changed(size).delivery,
    {
        let scale = self.scale;
        let known = self.area.size_px();
        if size.width != known.width || size.height != known.height {
            self.area = ScaledArea::from_px(size, scale);
            let dp = size.to_dp(scale);
            self.add_invalid_rect(dp.to_rect());
            let mut calls: Vec<HandlerCall> = Vec::new();
            calls.push(HandlerCall::Size(dp));
            calls.push(HandlerCall::Scale(scale));
            assert(calls@ =~= seq![HandlerCall::Size(dp), HandlerCall::Scale(scale)]);
            self.with_handler(calls)
        } else {
            Delivery::Nothing
        }
    }

    /// Marks the exposed rectangle as invalid; with the last event of a
    /// series a frame is asked for. Returns whether the loop must be woken.
    pub fn handle_expose(&mut self, expose: &ExposeEvent) -> (wake: bool)
        requires
            old(self).wf(),
        ensures
            final(self).wf(),
            final(self)@ == old(self)@.expose(*expose).view,
            wake == old(self)@.expose(*expose).wake,
    {
        let rect = expose_rect(expose).to_dp(self.scale);
        self.add_invalid_rect(rect);
        if expose.count == 0 {
            self.request_anim_frame()
        } else {
            false
        }
    }

    /// What every pointer event of the input extension starts from.
    pub fn base_pointer_event(&self, x: i32, y: i32, mods: ModifierInfo, detail: u32, src_id: u16) -> (e:
        PointerEvent)
        requires
            self.wf(),
        ensures
            e == spec_base_pointer_event(self@.scale, x, y, mods, detail, src_id),
    {
        let mask = effective_mask(mods);
        PointerEvent {
            pointer_id: PointerId(src_id as u64),
            is_primary: false,
            pointer_type: PointerType::plain_mouse(),
            pos: Point::new(x as i64, y as i64).to_dp(self.scale),
            buttons: pointer_buttons(mask),
            modifiers: key_mods(mask),
            button: pointer_button(detail),
            focus: false,
            count: 0,
        }
    }

    /// The pointer event of a touch contact.
    pub fn pointer_touch_event(&self, ev: &TouchBeginEvent) -> (e: PointerEvent)
        requires
            self.wf(),
        ensures
            e == spec_pointer_touch_event(self@.scale, *ev),
    {
        let is_primary = (ev.flags | touch_emulating_pointer()) == ev.flags;
        let base = self.base_pointer_event(ev.event_x, ev.event_y, ev.mods, ev.detail, ev.sourceid);
        PointerEvent {
            is_primary,
            pointer_type: PointerType::Touch(
                TouchInfo { contact_geometry: Size::zero(), pressure: 0 },
            ),
            button: if is_primary {
                PointerButton::Primary
            } else {
                PointerButton::NoButton
            },
            pointer_id: touch_pointer_id(ev.sourceid, ev.detail),
            pos: base.pos,
            buttons: base.buttons,
            modifiers: base.modifiers,
            focus: base.focus,
            count: base.count,
        }
    }

    /// The pointer event of a button or motion event. `device` and
    /// `src_device` are the devices that the event names, where the server
    /// knows them.
    pub fn pointer_event(
        &self,
        ev: &ButtonPressEvent,
        device: Option<DeviceInfo>,
        src_device: Option<DeviceInfo>,
    ) -> (e: PointerEvent)
        requires
            self.wf(),
        ensures
            e == spec_pointer_event(self@.scale, *ev, device, src_device),
    {
        let is_primary = match device {
            Some(d) => match d.device_type {
                DeviceType::MasterPointer => true,
                _ => false,
            },
            None => false,
        };
        let pointer_type = match src_device {
            Some(d) => {
                let pressure: i64 = match d.valuators.pressure {
                    Some(val) => val.normalize(ev.axisvalues.pressure),
                    None => 0,
                };
                let pen_info = PenInfo {
                    pressure,
                    tangential_pressure: 0,
                    tilt_x: tilt(d.valuators.x_tilt, ev.axisvalues.x_tilt),
                    tilt_y: tilt(d.valuators.y_tilt, ev.axisvalues.y_tilt),
                    twist: 0,
                };
                match d.device_kind {
                    DeviceKind::Pen => PointerType::Pen(pen_info),
                    DeviceKind::Eraser => PointerType::Eraser(pen_info),
                    DeviceKind::Touch => PointerType::plain_mouse(),
                    DeviceKind::Mouse => PointerType::plain_mouse(),
                }
            },
            None => PointerType::plain_mouse(),
        };
        let base = self.base_pointer_event(ev.event_x, ev.event_y, ev.mods, ev.detail, ev.sourceid);
        PointerEvent {
            is_primary,
            pointer_type,
            pointer_id: base.pointer_id,
            pos: base.pos,
            buttons: base.buttons,
            modifiers: base.modifiers,
            button: base.button,
            focus: base.focus,
            count: base.count,
        }
    }

    /// A button went down: the client gets the pointer event with the
    /// button among those held and a click count of one.
    pub fn handle_button_press(
        &mut self,
        ev: &ButtonPressEvent,
        device: Option<DeviceInfo>,
        src_device: Option<DeviceInfo>,
    ) -> (d: Delivery)
        requires
            old(self).wf(),
        ensures
            final(self)@ == old(self)@.entered(),
            ({
                let e = spec_pointer_event(old(self)@.scale, *ev, device, src_device);
                d@ == spec_deliver(
                    old(self)@.handler_active,
                    seq![
                        HandlerCall::PointerDown(
                            PointerEvent { buttons: e.buttons.spec_set(e.button, true), count: 1, ..e },
                        ),
                    ],
                )
            }),
    {
        let mut e = self.pointer_event(ev, device, src_device);
        e.buttons = e.buttons.with(e.button);
        e.count = 1;
        self.deliver_one(HandlerCall::PointerDown(e))
    }

    /// A button went up: the client gets the pointer event without the
    /// button among those held.
    pub fn handle_button_release(
        &mut self,
        ev: &ButtonPressEvent,
        device: Option<DeviceInfo>,
        src_device: Option<DeviceInfo>,
    ) -> (d: Delivery)
        requires
            old(self).wf(),
        ensures
            final(self)@ == old(self)@.entered(),
            ({
                let e = spec_pointer_event(old(self)@.scale, *ev, device, src_device);
                d@ == spec_deliver(
                    old(self)@.handler_active,
                    seq![
                        HandlerCall::PointerUp(PointerEvent { buttons: e.buttons.spec_set(e.button, false), ..e }),
                    ],
                )
            }),
    {
        let mut e = self.pointer_event(ev, device, src_device);
        e.buttons = e.buttons.without(e.button);
        self.deliver_one(HandlerCall::PointerUp(e))
    }

    /// A touch began: the client gets a pointer going down, with the button
    /// of the contact among those held.
    pub fn handle_touch_begin(&mut self, ev: &TouchBeginEvent) -> (d: Delivery)
        requires
            old(self).wf(),
        ensures
            final(self)@ == old(self)@.entered(),
            ({
                let e = spec_pointer_touch_event(old(self)@.scale, *ev);
                d@ == spec_deliver(
                    old(self)@.handler_active,
                    seq![
                        HandlerCall::PointerDown(PointerEvent { buttons: e.buttons.spec_set(e.button, true), ..e }),
                    ],
                )
            }),
    {
        let mut e = self.pointer_touch_event(ev);
        e.buttons = e.buttons.with(e.button);
        self.deliver_one(HandlerCall::PointerDown(e))
    }

    /// A touch moved: the client gets a pointer moving.
    pub fn handle_touch_update(&mut self, ev: &TouchBeginEvent) -> (d: Delivery)
        requires
            old(self).wf(),
        ensures
            final(self)@ == old(self)@.entered(),
            d@ == spec_deliver(
                old(self)@.handler_active,
                seq![HandlerCall::PointerMove(spec_pointer_touch_event(old(self)@.scale, *ev))],
            ),
    {
        let e = self.pointer_touch_event(ev);
        self.deliver_one(HandlerCall::PointerMove(e))
    }

    /// A touch ended: the client gets a pointer moving, without the button
    /// of the contact among those held.
    pub fn handle_touch_end(&mut self, ev: &TouchBeginEvent) -> (d: Delivery)
        requires
            old(self).wf(),
        ensures
            final(self)@ == old(self)@.entered(),
            ({
                let e = spec_pointer_touch_event(old(self)@.scale, *ev);
                d@ == spec_deliver(
                    old(self)@.handler_active,
                    seq![
                        HandlerCall::PointerMove(PointerEvent { buttons: e.buttons.spec_set(e.button, false), ..e }),
                    ],
                )
            }),
    {
        let mut e = self.pointer_touch_event(ev);
        e.buttons = e.buttons.without(e.button);
        self.deliver_one(HandlerCall::PointerMove(e))
    }

    /// The wheel turned: the client gets a wheel event with the delta of
    /// the turn and no button. A button code that is no wheel is an error,
    /// and nothing changes.
    pub fn handle_wheel(
        &mut self,
        ev: &ButtonPressEvent,
        device: Option<DeviceInfo>,
        src_device: Option<DeviceInfo>,
    ) -> (r: Result<Delivery, crate::error::Error>)
        requires
            old(self).wf(),
        ensures
            ({
                let e = spec_pointer_event(old(self)@.scale, *ev, device, src_device);
                match spec_wheel_delta(ev.detail, e.modifiers.shift) {
                    Some(delta) => {
                        &&& r matches Ok(d)
                        &&& d@ == spec_deliver(
                            old(self)@.handler_active,
                            seq![
                                HandlerCall::Wheel(
                                    PointerEvent {
                                        pointer_type: PointerType::Mouse(MouseInfo { wheel_delta: delta }),
                                        button: PointerButton::NoButton,
                                        ..e
                                    },
                                ),
                            ],
                        )
                        &&& final(self)@ == old(self)@.entered()
                    },
                    None => r == Err::<Delivery, crate::error::Error>(
                        crate::error::Error::UnexpectedWheelButton(ev.detail),
                    ) && final(self)@ == old(self)@,
                }
            }),
    {
        let mut e = self.pointer_event(ev, device, src_device);
        match wheel_delta(ev.detail, e.modifiers.shift()) {
            Some(delta) => {
                e.pointer_type = PointerType::Mouse(MouseInfo { wheel_delta: delta });
                e.button = PointerButton::NoButton;
                Ok(self.deliver_one(HandlerCall::Wheel(e)))
            },
            None => Err(crate::error::Error::UnexpectedWheelButton(ev.detail)),
        }
    }

    /// The pointer moved: the client gets the pointer event with no button.
    pub fn handle_motion_notify(
        &mut self,
        ev: &ButtonPressEvent,
        device: Option<DeviceInfo>,
        src_device: Option<DeviceInfo>,
    ) -> (d: Delivery)
        requires
            old(self).wf(),
        ensures
            final(self)@ == old(self)@.entered(),
            ({
                let e = spec_pointer_event(old(self)@.scale, *ev, device, src_device);
                d@ == spec_deliver(
                    old(self)@.handler_active,
                    seq![HandlerCall::PointerMove(PointerEvent { button: PointerButton::NoButton, ..e })],
                )
            }),
    {
        let mut e = self.pointer_event(ev, device, src_device);
        e.button = PointerButton::NoButton;
        self.deliver_one(HandlerCall::PointerMove(e))
    }

    /// The pointer left the window.
    pub fn handle_leave_notify(&mut self) -> (d: Delivery)
        ensures
            final(self)@ == old(self)@.entered(),
            d@ == spec_deliver(old(self)@.handler_active, seq![HandlerCall::PointerLeave]),
    {
        self.deliver_one(HandlerCall::PointerLeave)
    }

    /// The window got the focus.
    pub fn handle_got_focus(&mut self) -> (d: Delivery)
        ensures
            final(self)@ == old(self)@.entered(),
            d@ == spec_deliver(old(self)@.handler_active, seq![HandlerCall::GotFocus]),
    {
        self.deliver_one(HandlerCall::GotFocus)
    }

    /// The window lost the focus. The client is told; a composition under
    /// way in the active text field is committed, not thrown away. While an
    /// activation runs nothing happens at all.
    pub fn handle_lost_focus(&mut self, xkb_state: &mut KeyEventsState) -> (d: Delivery)
        ensures
            final(self)@ == old(self)@.lost_focus(old(xkb_state).spec_is_composing()).view,
            d@ == old(self)@.lost_focus(old(xkb_state).spec_is_composing()).delivery,
            final(xkb_state).spec_is_composing() == old(self)@.lost_focus(
                old(xkb_state).spec_is_composing(),
            ).composing,
    {
        if self.gateway.is_active() {
            return Delivery::Busy;
        }
        let mut calls: Vec<HandlerCall> = Vec::new();
        calls.push(HandlerCall::LostFocus);
        if let Some(field) = self.active_text_field {
            if xkb_state.cancel_composing() {
                calls.push(HandlerCall::AcquireInputLock(field));
                calls.push(HandlerCall::CommitComposition(field));
                calls.push(HandlerCall::ReleaseInputLock(field));
            }
        }
        assert(calls@ =~= old(self)@.lost_focus_calls(old(xkb_state).spec_is_composing()));
        self.with_handler(calls)
    }

    /// A message from the window manager: if it asks to close the window,
    /// the client is told; every other message is ignored.
    pub fn handle_client_message(&mut self, client_message: &ClientMessageEvent) -> (d: Delivery)
        ensures
            final(self)@ == old(self)@.client_message(*client_message).view,
            d@ == old(self)@.client_message(*client_message).delivery,
    {
        let is_protocols = match client_message.type_ {
            Atom::WmProtocols => true,
            _ => false,
        };
        let is_delete = match client_message.protocol {
            Atom::WmDeleteWindow => true,
            _ => false,
        };
        if is_protocols && client_message.format == 32 && is_delete {
            self.deliver_one(HandlerCall::RequestClose)
        } else {
            Delivery::Nothing
        }
    }

    /// The server destroyed the window: the client is told.
    pub fn handle_destroy_notify(&mut self) -> (d: Delivery)
        ensures
            final(self)@ == old(self)@.entered(),
            d@ == spec_deliver(old(self)@.handler_active, seq![HandlerCall::Destroy]),
    {
        self.deliver_one(HandlerCall::Destroy)
    }

    /// The geometry of the window changed: its size is taken note of.
    pub fn handle_configure_notify(&mut self, event: &ConfigureNotifyEvent) -> (d: Delivery)
        requires
            old(self).wf(),
        ensures
            final(self).wf(),
            final(self)@ == old(self)@.size_changed(spec_configure_size(*event)).view,
            d@ == old(self)@.size_changed(spec_configure_size(*event)).delivery,
    {
        let w: i64 = event.width as i64;
        let h: i64 = event.height as i64;
        self.size_changed(Size::new(w * 65536, h * 65536))
    }

    /// Passes one call to the client, unless an activation runs.
    pub fn deliver_one(&mut self, call: HandlerCall) -> (d: Delivery)
        ensures
            final(self)@ == old(self)@.entered(),
            d@ == spec_deliver(old(self)@.handler_active, seq![call]),
    {
        let mut calls: Vec<HandlerCall> = Vec::new();
        calls.push(call);
        assert(calls@ =~= seq![call]);
        self.with_handler(calls)
    }

    /// Brings the active text field in line with the one that the client
    /// asked for, and returns that one with the calls that the change asks
    /// for. It is part of an activation that runs; the calls are made within
    /// that activation.
    pub fn reset_text_fields_if_needed(&mut self, xkb_state: &mut KeyEventsState) -> (r: (
        Option<TextFieldToken>,
        Vec<HandlerCall>,
    ))
        ensures
            r.0 == old(self)@.next_text_field,
            final(self)@ == old(self)@.reset_text_fields(old(xkb_state).spec_is_composing()).view,
            final(xkb_state).spec_is_composing() == old(self)@.reset_text_fields(
                old(xkb_state).spec_is_composing(),
            ).composing,
            r.1@ == old(self)@.reset_text_fields(old(xkb_state).spec_is_composing()).calls,
    {
        let next_field = self.next_text_field;
        let need_to_reset_compose = self.need_to_reset_compose;
        let previous_field = self.active_text_field;
        let mut calls: Vec<HandlerCall> = Vec::new();
        if !same_field(next_field, previous_field) {
            if xkb_state.cancel_composing() {
                if let Some(previous) = previous_field {
                    calls.push(HandlerCall::AcquireInputLock(previous));
                    calls.push(HandlerCall::ClearCompositionRange(previous));
                    calls.push(HandlerCall::ReleaseInputLock(previous));
                }
            }
            self.active_text_field = next_field;
        }
        if need_to_reset_compose && xkb_state.cancel_composing() {
            if let Some(text_field) = next_field {
                calls.push(HandlerCall::AcquireInputLock(text_field));
                calls.push(HandlerCall::ClearCompositionRange(text_field));
                calls.push(HandlerCall::ReleaseInputLock(text_field));
            }
        }
        assert(calls@ =~= old(self)@.reset_text_fields(old(xkb_state).spec_is_composing()).calls);
        (next_field, calls)
    }

    /// A key went down or up. For a key going up the client gets the event
    /// and then the calls of a change of text field. For a key going down
    /// it gets the event alone: what follows depends on whether it handles
    /// the key, see `key_down_unhandled`. While an activation runs nothing
    /// happens at all.
    pub fn handle_key_event(&mut self, event: KeyEvent, xkb_state: &mut KeyEventsState) -> (d: Delivery)
        ensures
            final(self)@ == old(self)@.key_event(event, old(xkb_state).spec_is_composing()).view,
            d@ == old(self)@.key_event(event, old(xkb_state).spec_is_composing()).delivery,
            final(xkb_state).spec_is_composing() == old(self)@.key_event(
                event,
                old(xkb_state).spec_is_composing(),
            ).composing,
    {
        if self.gateway.is_active() {
            return Delivery::Busy;
        }
        let mut calls: Vec<HandlerCall> = Vec::new();
        match event.state {
            KeyState::Down => {
                calls.push(HandlerCall::KeyDown(event));
                assert(calls@ =~= seq![HandlerCall::KeyDown(event)]);
            },
            KeyState::Up => {
                calls.push(HandlerCall::KeyUp(event));
                let (_, mut more) = self.reset_text_fields_if_needed(xkb_state);
                let ghost head = calls@;
                let ghost tail = more@;
                calls.append(&mut more);
                assert(calls@ =~= seq![HandlerCall::KeyUp(event)] + tail);
            },
        }
        self.with_handler(calls)
    }

    /// What follows a key press that the client did not handle: the calls
    /// of a change of text field, and where a text field has the focus, the
    /// calls that feed the key to it. The calls belong to the activation
    /// that the key press started.
    pub fn key_down_unhandled(&mut self, event: KeyEvent, xkb_state: &mut KeyEventsState) -> (calls: Vec<
        HandlerCall,
    >)
        ensures
            calls@ == old(self)@.key_down_calls(old(xkb_state).spec_is_composing(), event),
            final(self)@ == old(self)@.reset_text_fields(old(xkb_state).spec_is_composing()).view,
            final(xkb_state).spec_is_composing() == old(self)@.reset_text_fields(
                old(xkb_state).spec_is_composing(),
            ).composing,
    {
        let (next_field, mut calls) = self.reset_text_fields_if_needed(xkb_state);
        if let Some(field) = next_field {
            let ghost head = calls@;
            calls.push(HandlerCall::AcquireInputLock(field));
            calls.push(HandlerCall::ComposeKey(field, event));
            calls.push(HandlerCall::ReleaseInputLock(field));
            assert(calls@ =~= head + compose_key_calls(field, event));
        }
        calls
    }

    /// The client gave up the text field `token`: it is neither asked for
    /// nor active any longer, and if it was either, a reset is flagged.
    pub fn remove_text_field(&mut self, token: TextFieldToken)
        ensures
            final(self)@ == old(self)@.remove_text_field(token),
    {
        if same_field(self.next_text_field, Some(token)) {
            self.next_text_field = None;
            self.need_to_reset_compose = true;
        }
        if same_field(self.active_text_field, Some(token)) {
            self.active_text_field = None;
            self.need_to_reset_compose = true;
        }
    }

    /// The client asks for `active_field` to have the focus.
    pub fn set_focused_text_field(&mut self, active_field: Option<TextFieldToken>)
        ensures
            final(self)@ == (WindowView { next_text_field: active_field, ..old(self)@ }),
    {
        self.next_text_field = active_field;
    }

    /// The client changed the text field `token`: if it is the active one,
    /// a reset is flagged.
    pub fn update_text_field(&mut self, token: TextFieldToken, _update: crate::text::Event)
        ensures
            final(self)@ == (WindowView {
                need_to_reset_compose: old(self)@.need_to_reset_compose || old(self)@.active_text_field
                    == Some(token),
                ..old(self)@
            }),
    {
        if same_field(self.active_text_field, Some(token)) {
            self.need_to_reset_compose = true;
        }
    }

    /// Runs the deferred work: all that was handed in leaves the queue, and
    /// the client gets one call for each callback and each token, in the
    /// order in which they were handed in. A frame is due afterwards if a
    /// redraw mark was among the work. While an activation runs the work is
    /// dropped and no frame is due.
    pub fn run_idle(&mut self) -> (r: IdleRun)
        ensures
            final(self)@ == old(self)@.run_idle().view,
            r.delivery@ == old(self)@.run_idle().delivery,
            r.needs_redraw == (!old(self)@.handler_active && has_redraw(old(self)@.idle)),
    {
        let mut queue: Vec<IdleKind> = Vec::new();
        std::mem::swap(&mut self.idle_queue, &mut queue);
        if self.gateway.is_active() {
            return IdleRun { delivery: Delivery::Busy, needs_redraw: false };
        }
        let mut needs_redraw = false;
        let mut calls: Vec<HandlerCall> = Vec::new();
        let mut i: usize = 0;
        while i < queue.len()
            invariant
                0 <= i <= queue.len(),
                calls@ == idle_calls(queue@.take(i as int)),
                needs_redraw == has_redraw(queue@.take(i as int)),
            decreases queue.len() - i,
        {
            proof {
                let before = queue@.take(i as int);
                let after = queue@.take(i as int + 1);
                assert(after.drop_last() == before);
                assert(after.last() == queue@[i as int]);
                if has_redraw(before) {
                    let k = choose|k: int| 0 <= k < before.len() && before[k] == IdleKind::Redraw;
                    assert(after[k] == IdleKind::Redraw);
                }
                if has_redraw(after) && queue@[i as int] != IdleKind::Redraw {
                    let k = choose|k: int| 0 <= k < after.len() && after[k] == IdleKind::Redraw;
                    assert(before[k] == IdleKind::Redraw);
                }
                if queue@[i as int] == IdleKind::Redraw {
                    assert(after[i as int] == IdleKind::Redraw);
                }
            }
            match queue[i] {
                IdleKind::Callback(c) => {
                    calls.push(HandlerCall::IdleCallback(c));
                },
                IdleKind::Token(t) => {
                    calls.push(HandlerCall::Idle(t));
                },
                IdleKind::Redraw => {
                    needs_redraw = true;
                },
            }
            i += 1;
        }
        assert(queue@.take(i as int) == queue@);
        let delivery = self.with_handler(calls);
        IdleRun { delivery, needs_redraw }
    }

    /// When the next timer of the window is due, if it has a timer.
    pub fn next_timeout(&self) -> (t: Option<Instant>)
        ensures
            self@.timers.len() == 0 ==> t is None,
            self@.timers.len() > 0 ==> t == Some(self@.timers[0].deadline),
            self.wf() ==> forall|i: int| 0 <= i < self@.timers.len() ==> t->Some_0.nanos <= (
            #[trigger] self@.timers[i]).deadline.nanos,
    {
        match self.timer_queue.peek() {
            Some(timer) => Some(timer.deadline()),
            None => None,
        }
    }

    /// Asks for a timer that fires at `deadline`, and returns the token
    /// that will name it then. The token is fresh from `tokens`. Once
    /// `tokens` is exhausted no timer is set and the token is the invalid one.
    pub fn request_timer(&mut self, deadline: Instant, tokens: &mut Counter) -> (token: TimerToken)
        requires
            old(self).wf(),
        ensures
            final(self).wf(),
            old(tokens).peek() < u64::MAX ==> {
                &&& token == TimerToken(old(tokens).peek())
                &&& final(tokens).peek() == old(tokens).peek() + 1
                &&& final(self)@.timers.len() == old(self)@.timers.len() + 1
                &&& final(self)@ == (WindowView {
                    timers: old(self)@.timers.insert(
                        TimerQueue::insertion_index(old(self)@.timers, deadline),
                        Timer { deadline, token },
                    ),
                    ..old(self)@
                })
            },
            old(tokens).peek() == u64::MAX ==> token == TimerToken(0) && final(self)@ == old(self)@
                && *final(tokens) == *old(tokens),
    {
        match tokens.next() {
            Some(id) => {
                let token = TimerToken(id);
                self.timer_queue.push(Timer::new(deadline, token));
                token
            },
            None => TimerToken::invalid(),
        }
    }

    /// Fires the timers that are due at `now`: they leave the queue, and
    /// the client gets one call for each, in firing order. Timers that are
    /// due later stay. If none is due nothing happens. While an activation
    /// runs the timers that are due are dropped.
    pub fn run_timers(&mut self, now: Instant) -> (d: Delivery)
        requires
            old(self).wf(),
        ensures
            final(self).wf(),
            final(self)@ == old(self)@.run_timers(now).view,
            d@ == old(self)@.run_timers(now).delivery,
            ({
                let n = due_count(old(self)@.timers, now) as int;
                let fired = old(self)@.timers.take(n);
                let rest = old(self)@.timers.skip(n);
                &&& n <= old(self)@.timers.len()
                &&& forall|i: int| 0 <= i < fired.len() ==> (#[trigger] fired[i]).deadline.nanos <= now.nanos
                &&& forall|i: int| 0 <= i < rest.len() ==> (#[trigger] rest[i]).deadline.nanos > now.nanos
                &&& sorted(fired)
            }),
    {
        let ghost before = self@.timers;
        let fired = self.timer_queue.pop_expired(now);
        proof {
            let n = due_count(before, now) as int;
            assert(fired@ =~= before.take(n)) by {
                assert(fired@.len() == n);
                assert forall|i: int| 0 <= i < n implies fired@[i] == before.take(n)[i] by {
                    assert((fired@ + self.timer_queue@)[i] == before[i]);
                }
            }
            assert(self.timer_queue@ =~= before.skip(n)) by {
                assert forall|i: int| 0 <= i < self.timer_queue@.len() implies self.timer_queue@[i]
                    == before.skip(n)[i] by {
                    assert((fired@ + self.timer_queue@)[n + i] == before[n + i]);
                }
            }
        }
        if fired.len() == 0 {
            proof {
                assert(self.timer_queue@ =~= before);
            }
            return Delivery::Nothing;
        }
        let mut calls: Vec<HandlerCall> = Vec::new();
        let mut i: usize = 0;
        while i < fired.len()
            invariant
                0 <= i <= fired.len(),
                calls@.len() == i,
                forall|k: int| 0 <= k < i ==> calls@[k] == HandlerCall::Timer(fired@[k].token),
            decreases fired.len() - i,
        {
            calls.push(HandlerCall::Timer(fired[i].token()));
            i += 1;
        }
        assert(calls@ =~= timer_calls(fired@));
        self.with_handler(calls)
    }
}

/// Whether two optional text fields are the same.
pub fn same_field(a: Option<TextFieldToken>, b: Option<TextFieldToken>) -> (r: bool)
    ensures
        r == (a == b),
{
    match (a, b) {
        (None, None) => true,
        (Some(x), Some(y)) => x.0 == y.0,
        _ => false,
    }
}

impl WindowView {
    /// The timers that are due at `now` fire: they leave the queue and the
    /// client gets one call for each, in firing order. If none is due
    /// nothing happens.
    pub open spec fn run_timers(self, now: Instant) -> Dispatched {
        let n = due_count(self.timers, now) as int;
        if n == 0 {
            self.untouched(false)
        } else {
            (WindowView { timers: self.timers.skip(n), ..self }).delivered(
                timer_calls(self.timers.take(n)),
                false,
            )
        }
    }

    /// The deferred work runs: the queue is emptied and the client gets one
    /// call for each callback and each token, in order.
    pub open spec fn run_idle(self) -> Dispatched {
        (WindowView { idle: Seq::empty(), ..self }).delivered(idle_calls(self.idle), false)
    }
}

impl Window {
    /// Handles an event for the window. `device` and `src_device` are the
    /// devices that an input event names, where the server knows them.
    /// Returns the calls for the client and whether the loop must be woken.
    pub fn dispatch(
        &mut self,
        kind: &crate::backend::x11::event::EventKind,
        device: Option<DeviceInfo>,
        src_device: Option<DeviceInfo>,
        xkb_state: &mut KeyEventsState,
    ) -> (r: (Delivery, bool))
        requires
            old(self).wf(),
        ensures
            final(self).wf(),
            final(self)@ == old(self)@.dispatch(*kind, device, src_device, old(xkb_state).spec_is_composing()).view,
            r.0@ == old(self)@.dispatch(*kind, device, src_device, old(xkb_state).spec_is_composing()).delivery,
            r.1 == old(self)@.dispatch(*kind, device, src_device, old(xkb_state).spec_is_composing()).wake,
            final(xkb_state).spec_is_composing() == old(self)@.dispatch(
                *kind,
                device,
                src_device,
                old(xkb_state).spec_is_composing(),
            ).composing,
    {
        match kind {
            crate::backend::x11::event::EventKind::Expose(ev) => {
                let wake = self.handle_expose(ev);
                (Delivery::Nothing, wake)
            },
            crate::backend::x11::event::EventKind::KeyPress(ev) => {
                let event = KeyEvent {
                    scancode: ev.detail as u32,
                    keysym: ev.keysym,
                    state: KeyState::Down,
                    repeat: false,
                };
                (self.handle_key_event(event, xkb_state), false)
            },
            crate::backend::x11::event::EventKind::KeyRelease(ev) => {
                let event = KeyEvent {
                    scancode: ev.detail as u32,
                    keysym: ev.keysym,
                    state: KeyState::Up,
                    repeat: false,
                };
                (self.handle_key_event(event, xkb_state), false)
            },
            crate::backend::x11::event::EventKind::XinputButtonPress(ev) => {
                if ev.detail >= 4 && ev.detail <= 7 {
                    match self.handle_wheel(ev, device, src_device) {
                        Ok(d) => (d, false),
                        Err(_) => (Delivery::Nothing, false),
                    }
                } else {
                    (self.handle_button_press(ev, device, src_device), false)
                }
            },
            crate::backend::x11::event::EventKind::XinputButtonRelease(ev) => {
                if ev.detail >= 4 && ev.detail <= 7 {
                    (Delivery::Nothing, false)
                } else {
                    (self.handle_button_release(ev, device, src_device), false)
                }
            },
            crate::backend::x11::event::EventKind::XinputMotion(ev) => (
                self.handle_motion_notify(ev, device, src_device),
                false,
            ),
            crate::backend::x11::event::EventKind::XinputTouchBegin(ev) => (self.handle_touch_begin(ev), false),
            crate::backend::x11::event::EventKind::XinputTouchUpdate(ev) => (
                self.handle_touch_update(ev),
                false,
            ),
            crate::backend::x11::event::EventKind::XinputTouchEnd(ev) => (self.handle_touch_end(ev), false),
            crate::backend::x11::event::EventKind::LeaveNotify(_) => (self.handle_leave_notify(), false),
            crate::backend::x11::event::EventKind::ClientMessage(ev) => (self.handle_client_message(ev), false),
            crate::backend::x11::event::EventKind::DestroyNotify(_) => (self.handle_destroy_notify(), false),
            crate::backend::x11::event::EventKind::ConfigureNotify(ev) => (
                self.handle_configure_notify(ev),
                false,
            ),
            crate::backend::x11::event::EventKind::FocusIn(_) => (self.handle_got_focus(), false),
            crate::backend::x11::event::EventKind::FocusOut(_) => (self.handle_lost_focus(xkb_state), false),
            _ => (Delivery::Nothing, false),
        }
    }
}

/// The upper-case form of an ASCII letter; every other byte as it is.
pub open spec fn spec_ascii_uppercase(b: u8) -> u8 {
    if 0x61 <= b <= 0x7a {
        (b - 0x20) as u8
    } else {
        b
    }
}

/// The class of a window from the name of the program: the name, a zero
/// byte, the name with its first letter in upper case, and a zero byte.
pub open spec fn spec_wm_class(name: Seq<u8>) -> Seq<u8> {
    if name.len() == 0 {
        seq![0u8, 0u8]
    } else {
        name + seq![0u8] + seq![spec_ascii_uppercase(name[0])] + name.skip(1) + seq![0u8]
    }
}

/// The class of a window from the name of the program.
pub fn wm_class(name: &Vec<u8>) -> (class: Vec<u8>)
    ensures
        class@ == spec_wm_class(name@),
{
    let mut class: Vec<u8> = Vec::new();
    let mut i: usize = 0;
    while i < name.len()
        invariant
            0 <= i <= name.len(),
            class@ == name@.take(i as int),
        decreases name.len() - i,
    {
        class.push(name[i]);
        assert(name@.take(i as int).push(name@[i as int]) =~= name@.take(i as int + 1));
        i += 1;
    }
    assert(name@.take(i as int) == name@);
    class.push(0);
    if name.len() > 0 {
        let first = name[0];
        let upper: u8 = if 0x61 <= first && first <= 0x7a {
            first - 0x20
        } else {
            first
        };
        class.push(upper);
        let mut k: usize = 1;
        while k < name.len()
            invariant
                1 <= k <= name.len(),
                class@ == name@ + seq![0u8] + seq![spec_ascii_uppercase(name@[0])] + name@.subrange(1, k as int),
            decreases name.len() - k,
        {
            class.push(name[k]);
            assert(name@.subrange(1, k as int).push(name@[k as int]) =~= name@.subrange(1, k as int + 1));
            assert(class@ =~= name@ + seq![0u8] + seq![spec_ascii_uppercase(name@[0])] + name@.subrange(
                1,
                k as int + 1,
            ));
            k += 1;
        }
        assert(name@.subrange(1, k as int) =~= name@.skip(1));
    }
    class.push(0);
    assert(class@ =~= spec_wm_class(name@));
    class
}

/// The whole units of a fixed-point length as a signed 16-bit number,
/// saturating.
pub fn to_i16(v: i64) -> (r: i16)
    ensures
        r == clamp(whole_units(v as int), i16::MIN as int, i16::MAX as int),
{
    let q: i32 = to_i32(v);
    if q < -0x8000 {
        i16::MIN
    } else if q > 0x7fff {
        i16::MAX
    } else {
        q as i16
    }
}

/// How the resolution of the display is known.
#[derive(Clone, Copy, Debug, PartialEq, Eq, Structural)]
pub enum Dpi {
    /// Nothing is configured.
    Unset,
    /// So many dots per inch, in fixed point.
    Value(u32),
    /// Something is configured that is no number.
    Unparsable,
}

/// The scale for a resolution: the resolution over 96 dots per inch, and
/// the identity where the resolution is not known or too small to scale by.
pub open spec fn spec_scale_for(dpi: Dpi) -> Scale {
    match dpi {
        Dpi::Value(d) if d as int / 96 > 0 => Scale { x: (d as int / 96) as u32, y: (d as int / 96) as u32 },
        _ => Scale { x: 65536, y: 65536 },
    }
}

/// The scale for a resolution.
pub fn scale_for(dpi: Dpi) -> (s: Scale)
    ensures
        s.wf(),
        s == spec_scale_for(dpi),
{
    match dpi {
        Dpi::Value(d) => match Scale::from_dpi(d) {
            Some(s) => s,
            None => Scale::identity(),
        },
        _ => Scale::identity(),
    }
}

/// The state in which a window asks to be shown first. A window that is to
/// be maximized starts as a normal one.
pub open spec fn spec_initial_state(state: Option<crate::window::WindowState>) -> Option<InitialState> {
    match state {
        Some(crate::window::WindowState::Maximized) => Some(InitialState::Normal),
        Some(crate::window::WindowState::Minimized) => Some(InitialState::Iconic),
        Some(crate::window::WindowState::Restored) => Some(InitialState::Normal),
        None => None,
    }
}

/// The role that a window of a level announces.
pub open spec fn spec_window_type(level: WindowLevel) -> WindowType {
    match level {
        WindowLevel::AppWindow => WindowType::Normal,
        WindowLevel::Tooltip(_) => WindowType::Tooltip,
        WindowLevel::Modal(_) => WindowType::Dialog,
        WindowLevel::DropDown(_) => WindowType::DropdownMenu,
    }
}

/// What the server and the process gave for a window that is about to be
/// built.
#[derive(Clone, Debug, PartialEq, Eq)]
pub struct BuildEnv {
    /// The id that the server reserved for the window.
    pub id: u32,
    /// The id that the server reserved for a colormap, should the window
    /// need one.
    pub colormap: u32,
    pub dpi: Dpi,
    /// The owner of the compositing manager's selection, as the server
    /// reports it; zero stands for no owner.
    pub compositor_owner: Option<u32>,
    /// The position of the parent window, where the window has a parent.
    pub parent_origin: Vec2,
    /// The id of the process.
    pub pid: i32,
    /// The file name of the program, where the process knows it.
    pub program_name: Option<Vec<u8>>,
}

/// What a window builder holds.
#[verifier::ext_equal]
pub struct WindowBuilderView {
    pub has_handler: bool,
    pub title: Seq<u8>,
    pub transparent: bool,
    pub position: Option<Point>,
    pub size: Size,
    pub min_size: Size,
    pub resizable: bool,
    pub level: WindowLevel,
    pub state: Option<crate::window::WindowState>,
}

/// Collects what a window is to be like, and builds it.
#[derive(Clone, Debug, PartialEq, Eq)]
pub struct WindowBuilder {
    has_handler: bool,
    title: String,
    transparent: bool,
    position: Option<Point>,
    size: Size,
    min_size: Size,
    resizable: bool,
    level: WindowLevel,
    state: Option<crate::window::WindowState>,
}

impl View for WindowBuilder {
    type V = WindowBuilderView;

    closed spec fn view(&self) -> WindowBuilderView {
        WindowBuilderView {
            has_handler: self.has_handler,
            title: vstd::utf8::encode_utf8(self.title@),
            transparent: self.transparent,
            position: self.position,
            size: self.size,
            min_size: self.min_size,
            resizable: self.resizable,
            level: self.level,
            state: self.state,
        }
    }
}

/// The plan of a window: what a builder, an application and the
/// environment determine before any request is sent.
#[derive(Clone, Copy, Debug, PartialEq, Eq, Structural)]
pub struct BuildPlan {
    pub scale: Scale,
    pub size_px: Size,
    pub min_size_px: Size,
    /// The visual with an alpha channel, if the window gets one.
    pub argb: Option<Visualtype>,
    pub visual: u32,
    pub depth: u8,
    pub pos_px: Point,
}

impl WindowBuilderView {
    /// The plan of the window. The window gets a visual with an alpha
    /// channel only if it is to be transparent, the screen has such a
    /// visual and a compositing manager runs.
    pub open spec fn plan(self, app: &Application, env: BuildEnv) -> BuildPlan {
        let scale = spec_scale_for(env.dpi);
        let argb = if self.transparent && env.compositor_owner != Some(0u32) {
            app.spec_argb_visual_type()
        } else {
            None
        };
        let origin = match self.position {
            Some(p) => p,
            None => Point { x: 0, y: 0 },
        };
        BuildPlan {
            scale,
            size_px: self.size.spec_to_px(scale),
            min_size_px: self.min_size.spec_to_px(scale),
            argb,
            visual: match argb {
                Some(v) => v.visual_id,
                None => app.spec_root_visual_type().visual_id,
            },
            depth: if argb is Some {
                32
            } else {
                app.spec_screen().root_depth
            },
            pos_px: origin.spec_translate(env.parent_origin).spec_to_px(scale),
        }
    }

    /// The requests that make the window, in order: a colormap if the
    /// window has its own visual; the window; its pointer events; the
    /// colormap freed again; the process id if it is not negative; the
    /// class if the program name is known.
    pub open spec fn create_requests(self, plan: BuildPlan, app: &Application, env: BuildEnv) -> Seq<
        RequestView,
    > {
        let root = app.spec_screen().root;
        let id = env.id;
        let colormap: Seq<RequestView> = if plan.argb is Some {
            seq![RequestOf::CreateColormap { colormap: env.colormap, root, visual: plan.visual }]
        } else {
            Seq::empty()
        };
        let create: Seq<RequestView> = seq![
            RequestOf::CreateWindow {
                depth: plan.depth,
                window: id,
                parent: root,
                x: clamp(whole_units(plan.pos_px.x as int), i16::MIN as int, i16::MAX as int) as i16,
                y: clamp(whole_units(plan.pos_px.y as int), i16::MIN as int, i16::MAX as int) as i16,
                width: clamp(whole_units(plan.size_px.width as int), 0, u16::MAX as int) as u16,
                height: clamp(whole_units(plan.size_px.height as int), 0, u16::MAX as int) as u16,
                visual: plan.visual,
                colormap: if plan.argb is Some {
                    Some(env.colormap)
                } else {
                    None
                },
                border_pixel: if plan.argb is Some {
                    Some(app.spec_screen().white_pixel)
                } else {
                    None
                },
            },
            RequestOf::EnablePointers(id),
        ];
        let free: Seq<RequestView> = if plan.argb is Some {
            seq![RequestOf::FreeColormap(env.colormap)]
        } else {
            Seq::empty()
        };
        let pid: Seq<RequestView> = if env.pid >= 0 {
            seq![RequestOf::SetPid { window: id, pid: env.pid as u32 }]
        } else {
            Seq::empty()
        };
        let class: Seq<RequestView> = match env.program_name {
            Some(name) => seq![RequestOf::SetClass { window: id, class: spec_wm_class(name@) }],
            None => Seq::empty(),
        };
        colormap + create + free + pid + class
    }

    /// The requests that describe the window to the window manager, in
    /// order: the close protocol; the size limits; the state to start in;
    /// the role; for a window with a parent, the request to keep the window
    /// manager off; the title under both names; the position where one was
    /// set.
    pub open spec fn describe_requests(self, plan: BuildPlan, env: BuildEnv) -> Seq<RequestView> {
        let id = env.id;
        let base: Seq<RequestView> = seq![
            RequestOf::SetProtocols(id),
            RequestOf::SetNormalHints {
                window: id,
                hints: spec_size_hints(self.resizable, plan.size_px, plan.min_size_px),
            },
            RequestOf::SetHints { window: id, initial_state: spec_initial_state(self.state) },
            RequestOf::SetWindowType { window: id, window_type: spec_window_type(self.level) },
        ];
        let redirect: Seq<RequestView> = if self.level.spec_parent() is Some {
            seq![RequestOf::SetOverrideRedirect(id)]
        } else {
            Seq::empty()
        };
        let moves: Seq<RequestView> = match self.position {
            Some(pos) => {
                let px = pos.spec_translate(env.parent_origin).spec_to_px(plan.scale).spec_expand();
                seq![
                    RequestOf::Move {
                        window: id,
                        x: clamp(whole_units(px.x as int), i32::MIN as int, i32::MAX as int) as i32,
                        y: clamp(whole_units(px.y as int), i32::MIN as int, i32::MAX as int) as i32,
                    },
                ]
            },
            None => Seq::empty(),
        };
        base + redirect + title_requests(id, self.title) + moves
    }

    /// The window that is built, before its client is told of it.
    pub open spec fn window(self, plan: BuildPlan, env: BuildEnv) -> WindowView {
        WindowView {
            id: env.id,
            scale: plan.scale,
            area: ScaledArea::spec_from_px(plan.size_px, plan.scale),
            min_size: plan.min_size_px,
            destroyed: false,
            invalid: Seq::empty(),
            timers: Seq::empty(),
            idle: Seq::empty(),
            next_text_field: None,
            active_text_field: None,
            need_to_reset_compose: false,
            parent: self.level.spec_parent(),
            handler_active: false,
        }
    }
}

/// A window that was built: the handle to it, the requests that make it on
/// the server, and the calls that tell the client of it.
#[derive(Clone, Debug, PartialEq, Eq)]
pub struct Built {
    pub handle: WindowHandle,
    pub requests: Vec<Request>,
    pub delivery: Delivery,
}

impl WindowBuilder {
    /// A builder for an application window of 500 by 400
    /// device-independent pixels that may be resized, with the empty
    /// string for a title, and without position or client.
    pub fn new() -> (b: WindowBuilder)
        ensures
            b@ == (WindowBuilderView {
                has_handler: false,
                title: vstd::utf8::encode_utf8(Seq::<char>::empty()),
                transparent: false,
                position: None,
                size: Size { width: (500 * UNIT) as i64, height: (400 * UNIT) as i64 },
                min_size: Size { width: 0, height: 0 },
                resizable: true,
                level: WindowLevel::AppWindow,
                state: None,
            }),
    {
        WindowBuilder {
            has_handler: false,
            title: String::new(),
            transparent: false,
            position: None,
            size: Size::new(500 * 65536, 400 * 65536),
            min_size: Size::new(0, 0),
            resizable: true,
            level: WindowLevel::AppWindow,
            state: None,
        }
    }

    /// Notes that the window has a client. The embedding program keeps the
    /// client itself.
    pub fn handler(self) -> (b: WindowBuilder)
        ensures
            b@ == (WindowBuilderView { has_handler: true, ..self@ }),
    {
        let mut b = self;
        b.has_handler = true;
        b
    }

    /// Sets the size in device-independent pixels. A size without width or
    /// without height becomes one pixel by one pixel: the server accepts no
    /// empty window.
    pub fn size(self, size: Size) -> (b: WindowBuilder)
        ensures
            b@ == (WindowBuilderView {
                size: if size.width == 0 || size.height == 0 {
                    Size { width: UNIT, height: UNIT }
                } else {
                    size
                },
                ..self@
            }),
    {
        let mut b = self;
        b.size = if size.width == 0 || size.height == 0 {
            Size::new(65536, 65536)
        } else {
            size
        };
        b
    }

    /// Sets the least size in device-independent pixels.
    pub fn min_size(self, min_size: Size) -> (b: WindowBuilder)
        ensures
            b@ == (WindowBuilderView { min_size, ..self@ }),
    {
        let mut b = self;
        b.min_size = min_size;
        b
    }

    /// Sets whether the window may be resized.
    pub fn resizable(self, resizable: bool) -> (b: WindowBuilder)
        ensures
            b@ == (WindowBuilderView { resizable, ..self@ }),
    {
        let mut b = self;
        b.resizable = resizable;
        b
    }

    /// Title bars cannot be hidden on this backend: nothing changes.
    pub fn show_titlebar(self, _show_titlebar: bool) -> (b: WindowBuilder)
        ensures
            b@ == self@,
    {
        self
    }

    /// Sets whether the window is to have a transparent background.
    pub fn transparent(self, transparent: bool) -> (b: WindowBuilder)
        ensures
            b@ == (WindowBuilderView { transparent, ..self@ }),
    {
        let mut b = self;
        b.transparent = transparent;
        b
    }

    /// Sets the position, relative to the parent and in device-independent
    /// pixels.
    pub fn position(self, position: Point) -> (b: WindowBuilder)
        ensures
            b@ == (WindowBuilderView { position: Some(position), ..self@ }),
    {
        let mut b = self;
        b.position = Some(position);
        b
    }

    /// Sets the level.
    pub fn level(self, level: WindowLevel) -> (b: WindowBuilder)
        ensures
            b@ == (WindowBuilderView { level, ..self@ }),
    {
        let mut b = self;
        b.level = level;
        b
    }

    /// Sets the state in which the window is shown first.
    pub fn window_state(self, state: crate::window::WindowState) -> (b: WindowBuilder)
        ensures
            b@ == (WindowBuilderView { state: Some(state), ..self@ }),
    {
        let mut b = self;
        b.state = Some(state);
        b
    }

    /// Sets the title.
    pub fn title(self, title: String) -> (b: WindowBuilder)
        ensures
            b@ == (WindowBuilderView { title: vstd::utf8::encode_utf8(title@), ..self@ }),
    {
        let mut b = self;
        b.title = title;
        b
    }

    /// Window menus are not available on this backend: nothing changes.
    pub fn menu(self) -> (b: WindowBuilder)
        ensures
            b@ == self@,
    {
        self
    }

    /// Builds the window: registers it with `app` and returns the handle to
    /// it, the requests that make it on the server, and the calls that tell
    /// the client of it. The requests are those that create the window,
    /// its class where the program name is known, those that describe it,
    /// its title under both names, and its position where one was set.
    pub fn build(self, app: &mut Application, env: BuildEnv) -> (built: Built)
        requires
            self@.has_handler,
            old(app).wf(),
        ensures
            final(app).wf(),
            final(app).same_settings(old(app)),
            ({
                let plan = self@.plan(old(app), env);
                let window = self@.window(plan, env).entered();
                &&& built.handle == (WindowHandle { id: env.id, visual_id: plan.visual, attached: true })
                &&& final(app)@ == (ApplicationView {
                    windows: match crate::backend::x11::application::index_of(old(app)@.windows, env.id) {
                        Some(i) => old(app)@.windows.update(i, window),
                        None => old(app)@.windows.push(window),
                    },
                    ..old(app)@
                })
                &&& built.delivery@ == DeliveryView::Calls(
                    seq![
                        HandlerCall::Connect,
                        HandlerCall::Scale(plan.scale),
                        HandlerCall::Size(plan.size_px.spec_to_dp(plan.scale)),
                    ],
                )
                &&& request_views(built.requests@) == self@.create_requests(plan, old(app), env)
                    + self@.describe_requests(plan, env)
            }),
    {
        let plan = self.plan(app, &env);
        let mut requests = self.create_requests(&plan, app, &env);
        let mut more = self.describe_requests(&plan, &env);
        let ghost head = requests@;
        let ghost tail = more@;
        requests.append(&mut more);
        assert(request_views(requests@) =~= request_views(head) + request_views(tail));
        let mut window = Window::new(env.id, plan.size_px, plan.scale, plan.min_size_px, self.level.parent());
        let handle = WindowHandle { id: env.id, visual_id: plan.visual, attached: true };
        let delivery = window.connect();
        app.add_window(window);
        Built { handle, requests, delivery }
    }

    /// Works out the plan of the window.
    pub fn plan(&self, app: &Application, env: &BuildEnv) -> (plan: BuildPlan)
        ensures
            plan == self@.plan(app, *env),
            plan.scale.wf(),
    {
        let scale = scale_for(env.dpi);
        let argb = if self.transparent {
            app.argb_visual_type(env.compositor_owner)
        } else {
            None
        };
        let origin = match self.position {
            Some(p) => p,
            None => Point::origin(),
        };
        BuildPlan {
            scale,
            size_px: self.size.to_px(scale),
            min_size_px: self.min_size.to_px(scale),
            argb,
            visual: match argb {
                Some(v) => v.visual_id,
                None => app.root_visual_type().visual_id,
            },
            depth: match argb {
                Some(_) => 32,
                None => app.screen().root_depth,
            },
            pos_px: origin.translate(env.parent_origin).to_px(scale),
        }
    }

    /// The requests that make the window.
    pub fn create_requests(&self, plan: &BuildPlan, app: &Application, env: &BuildEnv) -> (requests: Vec<
        Request,
    >)
        ensures
            request_views(requests@) == self@.create_requests(*plan, app, *env),
    {
        let screen = app.screen();
        let id = env.id;
        let transparent = plan.argb.is_some();
        let mut requests: Vec<Request> = Vec::new();
        if transparent {
            requests.push(Request::CreateColormap { colormap: env.colormap, root: screen.root, visual: plan.visual });
        }
        requests.push(
            Request::CreateWindow {
                depth: plan.depth,
                window: id,
                parent: screen.root,
                x: to_i16(plan.pos_px.x),
                y: to_i16(plan.pos_px.y),
                width: to_u16(plan.size_px.width),
                height: to_u16(plan.size_px.height),
                visual: plan.visual,
                colormap: if transparent {
                    Some(env.colormap)
                } else {
                    None
                },
                border_pixel: if transparent {
                    Some(screen.white_pixel)
                } else {
                    None
                },
            },
        );
        requests.push(Request::EnablePointers(id));
        if transparent {
            requests.push(Request::FreeColormap(env.colormap));
        }
        if env.pid >= 0 {
            requests.push(Request::SetPid { window: id, pid: env.pid as u32 });
        }
        match &env.program_name {
            Some(name) => {
                let class = wm_class(name);
                requests.push(Request::SetClass { window: id, class });
            },
            None => {},
        }
        assert(request_views(requests@) =~= self@.create_requests(*plan, app, *env));
        requests
    }

    /// The requests that describe the window to the window manager.
    pub fn describe_requests(&self, plan: &BuildPlan, env: &BuildEnv) -> (requests: Vec<Request>)
        ensures
            request_views(requests@) == self@.describe_requests(*plan, *env),
    {
        let id = env.id;
        let mut requests: Vec<Request> = Vec::new();
        requests.push(Request::SetProtocols(id));
        requests.push(
            Request::SetNormalHints {
                window: id,
                hints: size_hints(self.resizable, plan.size_px, plan.min_size_px),
            },
        );
        let initial_state = match self.state {
            Some(crate::window::WindowState::Maximized) => Some(InitialState::Normal),
            Some(crate::window::WindowState::Minimized) => Some(InitialState::Iconic),
            Some(crate::window::WindowState::Restored) => Some(InitialState::Normal),
            None => None,
        };
        requests.push(Request::SetHints { window: id, initial_state });
        let window_type = match self.level {
            WindowLevel::AppWindow => WindowType::Normal,
            WindowLevel::Tooltip(_) => WindowType::Tooltip,
            WindowLevel::Modal(_) => WindowType::Dialog,
            WindowLevel::DropDown(_) => WindowType::DropdownMenu,
        };
        requests.push(Request::SetWindowType { window: id, window_type });
        if self.level.parent().is_some() {
            requests.push(Request::SetOverrideRedirect(id));
        }
        requests.push(
            Request::SetName {
                window: id,
                property: NameProperty::WmName,
                name: self.title.as_str().as_bytes_vec(),
            },
        );
        requests.push(
            Request::SetName {
                window: id,
                property: NameProperty::NetWmName,
                name: self.title.as_str().as_bytes_vec(),
            },
        );
        match self.position {
            Some(p) => {
                let px = p.translate(env.parent_origin).to_px(plan.scale).expand();
                requests.push(Request::Move { window: id, x: to_i32(px.x), y: to_i32(px.y) });
            },
            None => {},
        }
        assert(request_views(requests@) =~= self@.describe_requests(*plan, *env));
        requests
    }
}

/// Names a window of an application. The handle owns nothing: every
/// operation looks the window up, and does nothing if the handle is not
/// attached or the window is gone.
#[derive(Clone, Copy, Debug)]
pub struct WindowHandle {
    pub id: u32,
    pub visual_id: u32,
    /// Whether the handle was made for a window.
    pub attached: bool,
}

impl PartialEq for WindowHandle {
    fn eq(&self, other: &Self) -> (r: bool) {
        self.id == other.id
    }
}

impl PartialEqSpecImpl for WindowHandle {
    open spec fn obeys_eq_spec() -> bool {
        true
    }

    open spec fn eq_spec(&self, other: &Self) -> bool {
        self.id == other.id
    }
}

impl Eq for WindowHandle {

}

impl Default for WindowHandle {
    fn default() -> (h: WindowHandle)
        ensures
            h == (WindowHandle { id: 0, visual_id: 0, attached: false }),
    {
        WindowHandle { id: 0, visual_id: 0, attached: false }
    }
}

/// How a write to the pipe that wakes the loop ended.
#[derive(Clone, Copy, Debug, PartialEq, Eq, Structural)]
pub enum WriteOutcome {
    /// So many bytes were written.
    Written(usize),
    /// A signal interrupted the write.
    Interrupted,
    /// The pipe is full.
    WouldBlock,
    /// The write failed, with this error number.
    Failed(i32),
}

/// Lets deferred work be handed in for a window.
#[derive(Clone, Copy, Debug, PartialEq, Eq, Structural)]
pub struct IdleHandle {
    pub window: u32,
}

impl IdleHandle {
    /// Whether the wake signal is to be written once more after a write
    /// ended with `outcome`: it is after an interruption and while the pipe
    /// is full, and not after a success or a failure.
    pub fn wake(outcome: WriteOutcome) -> (again: bool)
        ensures
            again == (outcome == WriteOutcome::Interrupted || outcome == WriteOutcome::WouldBlock),
    {
        match outcome {
            WriteOutcome::Interrupted => true,
            WriteOutcome::WouldBlock => true,
            WriteOutcome::Failed(_) => false,
            WriteOutcome::Written(_) => false,
        }
    }

    /// Hands in a piece of deferred work for the window. Returns whether
    /// the loop must be woken: it must when, and only when, no other work
    /// was waiting. Nothing happens if the window is gone.
    pub fn add_idle(&self, app: &mut Application, kind: IdleKind) -> (wake: bool)
        requires
            old(app).wf(),
        ensures
            final(app).wf(),
            final(app).same_settings(old(app)),
            old(app)@.window(self.window) is None ==> !wake && final(app)@ == old(app)@,
            old(app)@.window(self.window) matches Some(w) ==> wake == (w.idle.len() == 0) && final(app)@ == old(
                app,
            )@.with_window(self.window, w.add_idle(kind)),
    {
        match app.find(self.window) {
            Some(i) => app.window_mut(i).add_idle(kind),
            None => false,
        }
    }

    /// Asks for a frame of the window at the next idle run.
    pub fn schedule_redraw(&self, app: &mut Application) -> (wake: bool)
        requires
            old(app).wf(),
        ensures
            final(app).wf(),
            final(app).same_settings(old(app)),
            old(app)@.window(self.window) is None ==> !wake && final(app)@ == old(app)@,
            old(app)@.window(self.window) matches Some(w) ==> wake == (w.idle.len() == 0) && final(app)@ == old(
                app,
            )@.with_window(self.window, w.add_idle(IdleKind::Redraw)),
    {
        self.add_idle(app, IdleKind::Redraw)
    }

    /// Hands in a callback to be run at the next idle run.
    pub fn add_idle_callback(&self, app: &mut Application, callback: IdleCallback) -> (wake: bool)
        requires
            old(app).wf(),
        ensures
            final(app).wf(),
            final(app).same_settings(old(app)),
            old(app)@.window(self.window) is None ==> !wake && final(app)@ == old(app)@,
            old(app)@.window(self.window) matches Some(w) ==> wake == (w.idle.len() == 0) && final(app)@ == old(
                app,
            )@.with_window(self.window, w.add_idle(IdleKind::Callback(callback))),
    {
        self.add_idle(app, IdleKind::Callback(callback))
    }

    /// Hands in a token to be given to the client at the next idle run.
    pub fn add_idle_token(&self, app: &mut Application, token: IdleToken) -> (wake: bool)
        requires
            old(app).wf(),
        ensures
            final(app).wf(),
            final(app).same_settings(old(app)),
            old(app)@.window(self.window) is None ==> !wake && final(app)@ == old(app)@,
            old(app)@.window(self.window) matches Some(w) ==> wake == (w.idle.len() == 0) && final(app)@ == old(
                app,
            )@.with_window(self.window, w.add_idle(IdleKind::Token(token))),
    {
        self.add_idle(app, IdleKind::Token(token))
    }
}

impl WindowHandle {
    /// A handle for the window `id`.
    pub fn new(id: u32, visual_id: u32) -> (h: WindowHandle)
        ensures
            h == (WindowHandle { id, visual_id, attached: true }),
    {
        WindowHandle { id, visual_id, attached: true }
    }

    /// The window that the handle names, if the handle is attached and the
    /// window registered.
    pub open spec fn window_in(self, app: ApplicationView) -> Option<WindowView> {
        if self.attached {
            app.window(self.id)
        } else {
            None
        }
    }

    /// The place of the window in the registry.
    pub fn locate(&self, app: &Application) -> (r: Option<usize>)
        ensures
            r is None <==> self.window_in(app@) is None,
            r matches Some(i) ==> i < app@.windows.len() && crate::backend::x11::application::index_of(
                app@.windows,
                self.id,
            ) == Some(i as int) && self.window_in(app@) == Some(app@.windows[i as int]),
    {
        if self.attached {
            app.find(self.id)
        } else {
            None
        }
    }

    /// Shows the window.
    pub fn show(&self, app: &Application) -> (r: Option<Request>)
        ensures
            r == match self.window_in(app@) {
                Some(w) if !w.destroyed => Some(Request::MapWindow(w.id)),
                _ => None,
            },
    {
        match self.locate(app) {
            Some(i) => match app.window(self.id) {
                Ok(w) => w.show(),
                Err(_) => None,
            },
            None => None,
        }
    }

    /// Closes the window: the server is asked to destroy it, once.
    pub fn close(&self, app: &mut Application) -> (r: Option<Request>)
        requires
            old(app).wf(),
        ensures
            final(app).wf(),
            final(app).same_settings(old(app)),
            self.window_in(old(app)@) is None ==> r is None && final(app)@ == old(app)@,
            self.window_in(old(app)@) matches Some(w) ==> r == (if w.destroyed {
                None
            } else {
                Some(Request::DestroyWindow(w.id))
            }) && final(app)@ == old(app)@.with_window(self.id, WindowView { destroyed: true, ..w }),
    {
        match self.locate(app) {
            Some(i) => app.window_mut(i).close(),
            None => None,
        }
    }

    /// Announces whether the size of the window may change.
    pub fn resizable(&self, app: &Application, resizable: bool) -> (r: Option<Request>)
        ensures
            r == match self.window_in(app@) {
                Some(w) if !w.destroyed => Some(
                    Request::SetNormalHints {
                        window: w.id,
                        hints: spec_size_hints(resizable, w.area.spec_size_px(), w.min_size),
                    },
                ),
                _ => None,
            },
    {
        match self.locate(app) {
            Some(i) => match app.window(self.id) {
                Ok(w) => w.resizable(resizable),
                Err(_) => None,
            },
            None => None,
        }
    }

    /// Title bars cannot be hidden on this backend: nothing is asked.
    pub fn show_titlebar(&self, _app: &Application, _show_titlebar: bool) -> (r: Option<Request>)
        ensures
            r is None,
    {
        None
    }

    /// Moves the window to `position`, relative to its parent.
    pub fn set_position(&self, app: &Application, position: Point, parent_origin: Vec2) -> (r: Option<Request>)
        ensures
            r == match self.window_in(app@) {
                Some(w) if !w.destroyed => {
                    let px = position.spec_translate(parent_origin).spec_to_px(w.scale).spec_expand();
                    Some(
                        Request::Move {
                            window: w.id,
                            x: clamp(whole_units(px.x as int), i32::MIN as int, i32::MAX as int) as i32,
                            y: clamp(whole_units(px.y as int), i32::MIN as int, i32::MAX as int) as i32,
                        },
                    )
                },
                _ => None,
            },
    {
        match self.locate(app) {
            Some(i) => match app.window(self.id) {
                Ok(w) => w.set_position(position, parent_origin),
                Err(_) => None,
            },
            None => None,
        }
    }

    /// The position of the window relative to its parent, from the position
    /// in device pixels that the server gave for it; the origin where the
    /// server gave none or the window is gone.
    pub fn get_position(&self, app: &Application, reply: Option<Point>, parent_origin: Vec2) -> (p: Point)
        requires
            app.wf(),
        ensures
            p == match (self.window_in(app@), reply) {
                (Some(w), Some(px)) => px.spec_to_dp(w.scale).spec_translate_back(parent_origin),
                _ => Point { x: 0, y: 0 },
            },
    {
        match self.locate(app) {
            Some(i) => match app.window(self.id) {
                Ok(w) => w.get_position(reply, parent_origin),
                Err(_) => Point::origin(),
            },
            None => Point::origin(),
        }
    }

    /// The space that decorations take inside the window: none on this
    /// backend.
    pub fn content_insets(&self) -> (i: crate::kurbo::Insets)
        ensures
            i == (crate::kurbo::Insets { x0: 0, y0: 0, x1: 0, y1: 0 }),
    {
        crate::kurbo::Insets::zero()
    }

    /// Gives the window the size `size`.
    pub fn set_size(&self, app: &Application, size: Size) -> (r: Option<Request>)
        ensures
            r == match self.window_in(app@) {
                Some(w) if !w.destroyed => {
                    let px = size.spec_to_px(w.scale).spec_expand();
                    Some(
                        Request::Resize {
                            window: w.id,
                            width: clamp(whole_units(px.width as int), 0, u32::MAX as int) as u32,
                            height: clamp(whole_units(px.height as int), 0, u32::MAX as int) as u32,
                        },
                    )
                },
                _ => None,
            },
    {
        match self.locate(app) {
            Some(i) => match app.window(self.id) {
                Ok(w) => w.set_size(size),
                Err(_) => None,
            },
            None => None,
        }
    }

    /// The size of the window in device-independent pixels; no size where
    /// the window is gone.
    pub fn get_size(&self, app: &Application) -> (s: Size)
        ensures
            s == match self.window_in(app@) {
                Some(w) => w.area.spec_size_dp(),
                None => Size { width: 0, height: 0 },
            },
    {
        match self.locate(app) {
            Some(i) => match app.window(self.id) {
                Ok(w) => w.size().size_dp(),
                Err(_) => Size::zero(),
            },
            None => Size::zero(),
        }
    }

    /// The state of a window cannot be set on this backend: nothing is asked.
    pub fn set_window_state(&self, _state: crate::window::WindowState) -> (r: Option<Request>)
        ensures
            r is None,
    {
        None
    }

    /// The state of a window is not known on this backend: it counts as
    /// restored.
    pub fn get_window_state(&self) -> (s: crate::window::WindowState)
        ensures
            s == crate::window::WindowState::Restored,
    {
        crate::window::WindowState::Restored
    }

    /// Title bars are the window manager's on this backend: nothing is asked.
    pub fn handle_titlebar(&self, _val: bool) -> (r: Option<Request>)
        ensures
            r is None,
    {
        None
    }

    /// Raises the window and gives it the focus.
    pub fn bring_to_front_and_focus(&self, app: &Application) -> (r: Vec<Request>)
        ensures
            r@ == match self.window_in(app@) {
                Some(w) if !w.destroyed => seq![Request::Raise(w.id), Request::SetInputFocus(w.id)],
                _ => Seq::<Request>::empty(),
            },
    {
        match self.locate(app) {
            Some(i) => match app.window(self.id) {
                Ok(w) => w.bring_to_front_and_focus(),
                Err(_) => Vec::new(),
            },
            None => Vec::new(),
        }
    }

    /// Asks for a frame at the next idle run. Returns whether the loop
    /// must be woken.
    pub fn request_anim_frame(&self, app: &mut Application) -> (wake: bool)
        requires
            old(app).wf(),
        ensures
            final(app).wf(),
            final(app).same_settings(old(app)),
            self.window_in(old(app)@) is None ==> !wake && final(app)@ == old(app)@,
            self.window_in(old(app)@) matches Some(w) ==> wake == (w.idle.len() == 0) && final(app)@ == old(
                app,
            )@.with_window(self.id, w.add_idle(IdleKind::Redraw)),
    {
        match self.locate(app) {
            Some(i) => app.window_mut(i).request_anim_frame(),
            None => false,
        }
    }

    /// Marks the whole window as invalid and asks for a frame. Returns
    /// whether the loop must be woken.
    pub fn invalidate(&self, app: &mut Application) -> (wake: bool)
        requires
            old(app).wf(),
        ensures
            final(app).wf(),
            final(app).same_settings(old(app)),
            self.window_in(old(app)@) is None ==> !wake && final(app)@ == old(app)@,
            self.window_in(old(app)@) matches Some(w) ==> wake == (w.idle.len() == 0) && final(app)@ == old(
                app,
            )@.with_window(self.id, w.add_invalid_rect(w.bounds()).add_idle(IdleKind::Redraw)),
    {
        match self.locate(app) {
            Some(i) => {
                proof {
                    assert(app@.windows[i as int].wf());
                }
                app.window_mut(i).invalidate()
            },
            None => false,
        }
    }

    /// Marks `rect` as invalid and asks for a frame. Returns whether the
    /// loop must be woken.
    pub fn invalidate_rect(&self, app: &mut Application, rect: Rect) -> (wake: bool)
        requires
            old(app).wf(),
        ensures
            final(app).wf(),
            final(app).same_settings(old(app)),
            self.window_in(old(app)@) is None ==> !wake && final(app)@ == old(app)@,
            self.window_in(old(app)@) matches Some(w) ==> wake == (w.idle.len() == 0) && final(app)@ == old(
                app,
            )@.with_window(self.id, w.add_invalid_rect(rect).add_idle(IdleKind::Redraw)),
    {
        match self.locate(app) {
            Some(i) => {
                proof {
                    assert(app@.windows[i as int].wf());
                }
                app.window_mut(i).invalidate_rect(rect)
            },
            None => false,
        }
    }

    /// Gives the window the title `title`.
    pub fn set_title(&self, app: &Application, title: &str) -> (r: Vec<Request>)
        ensures
            request_views(r@) == match self.window_in(app@) {
                Some(w) if !w.destroyed => title_requests(w.id, title.spec_bytes()),
                _ => Seq::<RequestView>::empty(),
            },
    {
        match self.locate(app) {
            Some(i) => match app.window(self.id) {
                Ok(w) => w.set_title(title),
                Err(_) => Vec::new(),
            },
            None => Vec::new(),
        }
    }

    /// Window menus are not available on this backend: nothing is asked.
    pub fn set_menu(&self) -> (r: Option<Request>)
        ensures
            r is None,
    {
        None
    }

    /// A fresh token for a text field.
    pub fn add_text_field(&self, app: &mut Application) -> (token: TextFieldToken)
        ensures
            final(app).same_settings(old(app)),
            old(app)@.next_text_field_token < u64::MAX ==> token == TextFieldToken(
                old(app)@.next_text_field_token,
            ) && final(app)@ == (ApplicationView {
                next_text_field_token: (old(app)@.next_text_field_token + 1) as u64,
                ..old(app)@
            }),
            old(app)@.next_text_field_token == u64::MAX ==> token == TextFieldToken(0) && final(app)@ == old(
                app,
            )@,
    {
        app.add_text_field()
    }

    /// The client gave up the text field `token`.
    pub fn remove_text_field(&self, app: &mut Application, token: TextFieldToken)
        requires
            old(app).wf(),
        ensures
            final(app).wf(),
            final(app).same_settings(old(app)),
            final(app)@ == match self.window_in(old(app)@) {
                Some(w) => old(app)@.with_window(self.id, w.remove_text_field(token)),
                None => old(app)@,
            },
    {
        match self.locate(app) {
            Some(i) => {
                app.window_mut(i).remove_text_field(token);
            },
            None => {},
        }
    }

    /// The client asks for `active_field` to have the focus.
    pub fn set_focused_text_field(&self, app: &mut Application, active_field: Option<TextFieldToken>)
        requires
            old(app).wf(),
        ensures
            final(app).wf(),
            final(app).same_settings(old(app)),
            final(app)@ == match self.window_in(old(app)@) {
                Some(w) => old(app)@.with_window(self.id, WindowView { next_text_field: active_field, ..w }),
                None => old(app)@,
            },
    {
        match self.locate(app) {
            Some(i) => {
                app.window_mut(i).set_focused_text_field(active_field);
            },
            None => {},
        }
    }

    /// The client changed the text field `token`.
    pub fn update_text_field(&self, app: &mut Application, token: TextFieldToken, update: crate::text::Event)
        requires
            old(app).wf(),
        ensures
            final(app).wf(),
            final(app).same_settings(old(app)),
            final(app)@ == match self.window_in(old(app)@) {
                Some(w) => old(app)@.with_window(
                    self.id,
                    WindowView {
                        need_to_reset_compose: w.need_to_reset_compose || w.active_text_field == Some(token),
                        ..w
                    },
                ),
                None => old(app)@,
            },
    {
        match self.locate(app) {
            Some(i) => {
                app.window_mut(i).update_text_field(token, update);
            },
            None => {},
        }
    }

    /// Asks for a timer that fires at `deadline`, and returns the token
    /// that will name it. Where the window is gone, or the tokens are used
    /// up, no timer is set and the token is the invalid one.
    pub fn request_timer(&self, app: &mut Application, deadline: Instant) -> (token: TimerToken)
        requires
            old(app).wf(),
        ensures
            final(app).wf(),
            final(app).same_settings(old(app)),
            self.window_in(old(app)@) is None || old(app)@.next_timer_token == u64::MAX ==> token
                == TimerToken(0) && final(app)@ == old(app)@,
            self.window_in(old(app)@) is Some && old(app)@.next_timer_token < u64::MAX ==> {
                let w = self.window_in(old(app)@)->Some_0;
                &&& token == TimerToken(old(app)@.next_timer_token)
                &&& final(app)@ == (ApplicationView {
                    next_timer_token: (old(app)@.next_timer_token + 1) as u64,
                    ..old(app)@.with_window(
                        self.id,
                        WindowView {
                            timers: w.timers.insert(
                                TimerQueue::insertion_index(w.timers, deadline),
                                Timer { deadline, token },
                            ),
                            ..w
                        },
                    )
                })
            },
    {
        if self.attached {
            app.request_timer(self.id, deadline)
        } else {
            TimerToken::invalid()
        }
    }

    /// Shows `cursor` over the window.
    pub fn set_cursor(&self, app: &Application, cursor: &Cursor) -> (r: Option<Request>)
        ensures
            r == match (self.window_in(app@), spec_cursor_id(app.spec_cursors(), *cursor)) {
                (Some(w), Some(c)) if !w.destroyed => Some(Request::SetCursor { window: w.id, cursor: c }),
                _ => None,
            },
    {
        match self.locate(app) {
            Some(i) => match app.window(self.id) {
                Ok(w) => {
                    let cursors = app.cursors();
                    w.set_cursor(cursor, &cursors)
                },
                Err(_) => None,
            },
            None => None,
        }
    }

    /// Makes a cursor from a description. The server must be able to make
    /// cursors; the cursor made is the arrow, whatever the description.
    pub fn make_cursor(&self, app: &Application, _desc: &CursorDesc) -> (c: Option<Cursor>)
        ensures
            c == if self.attached && app.spec_render_argb32_pictformat_cursor() is Some {
                Some(Cursor::Arrow)
            } else {
                None
            },
    {
        if self.attached {
            match app.render_argb32_pictformat_cursor() {
                Some(_) => Some(Cursor::Arrow),
                None => None,
            }
        } else {
            None
        }
    }

    /// Asks for a dialog that opens a file, and returns the token that will
    /// name its answer; `None` where the window is gone.
    pub fn open_file(&self, app: &mut Application, _options: FileDialogOptions) -> (t: Option<FileDialogToken>)
        ensures
            final(app).same_settings(old(app)),
            self.window_in(old(app)@) is None || old(app)@.next_file_dialog_token == u64::MAX ==> t is None
                && final(app)@ == old(app)@,
            self.window_in(old(app)@) is Some && old(app)@.next_file_dialog_token < u64::MAX ==> t == Some(
                FileDialogToken(old(app)@.next_file_dialog_token),
            ) && final(app)@ == (ApplicationView {
                next_file_dialog_token: (old(app)@.next_file_dialog_token + 1) as u64,
                ..old(app)@
            }),
    {
        match self.locate(app) {
            Some(_) => app.next_file_dialog_token(),
            None => None,
        }
    }

    /// Asks for a dialog that saves a file, and returns the token that will
    /// name its answer; `None` where the window is gone.
    pub fn save_as(&self, app: &mut Application, _options: FileDialogOptions) -> (t: Option<FileDialogToken>)
        ensures
            final(app).same_settings(old(app)),
            self.window_in(old(app)@) is None || old(app)@.next_file_dialog_token == u64::MAX ==> t is None
                && final(app)@ == old(app)@,
            self.window_in(old(app)@) is Some && old(app)@.next_file_dialog_token < u64::MAX ==> t == Some(
                FileDialogToken(old(app)@.next_file_dialog_token),
            ) && final(app)@ == (ApplicationView {
                next_file_dialog_token: (old(app)@.next_file_dialog_token + 1) as u64,
                ..old(app)@
            }),
    {
        match self.locate(app) {
            Some(_) => app.next_file_dialog_token(),
            None => None,
        }
    }

    /// Context menus are not available on this backend: nothing is asked.
    pub fn show_context_menu(&self, _pos: Point) -> (r: Option<Request>)
        ensures
            r is None,
    {
        None
    }

    /// The handle by which deferred work is handed in for the window;
    /// `None` where the window is gone.
    pub fn get_idle_handle(&self, app: &Application) -> (h: Option<IdleHandle>)
        ensures
            h == match self.window_in(app@) {
                Some(_) => Some(IdleHandle { window: self.id }),
                None => None,
            },
    {
        match self.locate(app) {
            Some(_) => Some(IdleHandle { window: self.id }),
            None => None,
        }
    }

    /// The scale of the window; the identity where the window is gone.
    pub fn get_scale(&self, app: &Application) -> (r: Result<Scale, crate::error::Error>)
        ensures
            r == Ok::<Scale, crate::error::Error>(
                match self.window_in(app@) {
                    Some(w) => w.scale,
                    None => Scale { x: 65536, y: 65536 },
                },
            ),
    {
        match self.locate(app) {
            Some(i) => match app.window(self.id) {
                Ok(w) => Ok(w.get_scale()),
                Err(_) => Ok(Scale::identity()),
            },
            None => Ok(Scale::identity()),
        }
    }
}

impl WindowView {
    /// The state after each rectangle of `rects` was invalidated in turn.
    pub open spec fn invalidate_all(self, rects: Seq<Rect>) -> WindowView
        decreases rects.len(),
    {
        if rects.len() == 0 {
            self
        } else {
            self.invalidate_all(rects.drop_last()).add_invalid_rect(rects.last()).add_idle(IdleKind::Redraw)
        }
    }

    /// The cells that an invalidation of any rectangle of `rects` marks.
    pub open spec fn marked_by(self, rects: Seq<Rect>) -> Set<(int, int)> {
        Set::new(
            |p: (int, int)| exists|i: int| 0 <= i < rects.len() && self.snapped(#[trigger] rects[i]).contains(p.0, p.1),
        )
    }

    /// The cells that the next frame paints.
    pub open spec fn painted(self) -> Set<(int, int)> {
        cells_of(clip_rects(self.invalid, self.bounds()))
    }

    /// The state after each piece of `kinds` was handed in as deferred work
    /// in turn.
    pub open spec fn add_all(self, kinds: Seq<IdleKind>) -> WindowView
        decreases kinds.len(),
    {
        if kinds.len() == 0 {
            self
        } else {
            self.add_all(kinds.drop_last()).add_idle(kinds.last())
        }
    }

    /// The number of times that the loop is woken while each piece of
    /// `kinds` is handed in as deferred work in turn.
    pub open spec fn wake_count(self, kinds: Seq<IdleKind>) -> nat
        decreases kinds.len(),
    {
        if kinds.len() == 0 {
            0
        } else {
            self.wake_count(kinds.drop_last()) + if self.add_all(kinds.drop_last()).idle.len() == 0 {
                1nat
            } else {
                0nat
            }
        }
    }
}

/// Invalidations change the invalid region and the deferred work only, and
/// after any number of them the invalid region covers what it covered
/// before and what each of them marks.
pub proof fn lemma_invalidate_all(w: WindowView, rects: Seq<Rect>)
    ensures
        w.invalidate_all(rects) == (WindowView {
            invalid: w.invalidate_all(rects).invalid,
            idle: w.invalidate_all(rects).idle,
            ..w
        }),
        cells_of(w.invalidate_all(rects).invalid) =~= cells_of(w.invalid).union(w.marked_by(rects)),
        w.invalidate_all(rects).idle.len() == w.idle.len() + rects.len(),
        idle_calls(w.invalidate_all(rects).idle) == idle_calls(w.idle),
        rects.len() > 0 ==> has_redraw(w.invalidate_all(rects).idle),
    decreases rects.len(),
{
    if rects.len() > 0 {
        let init = rects.drop_last();
        let last = rects.last();
        lemma_invalidate_all(w, init);
        let mid = w.invalidate_all(init);
        let after = w.invalidate_all(rects);
        let r = mid.snapped(last);
        assert(mid.scale == w.scale);
        assert(r == w.snapped(last));
        lemma_cells_of_push(mid.invalid, r);
        assert(cells_of(after.invalid) =~= cells_of(mid.invalid).union(r.cells())) by {
            if r.spec_is_empty() {
                assert(r.cells() =~= Set::<(int, int)>::empty());
            }
        }
        assert forall|p: (int, int)| w.marked_by(rects).contains(p) <==> w.marked_by(init).contains(p)
            || r.contains(p.0, p.1) by {
            if w.marked_by(rects).contains(p) {
                let i = choose|i: int| 0 <= i < rects.len() && w.snapped(#[trigger] rects[i]).contains(p.0, p.1);
                if i < init.len() {
                    assert(init[i] == rects[i]);
                }
            }
            if w.marked_by(init).contains(p) {
                let i = choose|i: int| 0 <= i < init.len() && w.snapped(#[trigger] init[i]).contains(p.0, p.1);
                assert(rects[i] == init[i]);
            }
            if r.contains(p.0, p.1) {
                assert(w.snapped(rects[rects.len() - 1]).contains(p.0, p.1));
            }
        }
        assert(after.idle.drop_last() == mid.idle);
        assert(after.idle[after.idle.len() - 1] == IdleKind::Redraw);
    }
}

/// Whatever rectangles are invalidated after a frame, in whatever order,
/// the next frame paints exactly the cells that they mark as far as they
/// lie inside the window, and any number of them asks for one frame.
pub proof fn lemma_frame_paints_union(w: WindowView, rects: Seq<Rect>)
    requires
        w.invalid.len() == 0,
    ensures
        w.invalidate_all(rects).painted() =~= w.marked_by(rects).intersect(w.bounds().cells()),
        rects.len() > 0 ==> has_redraw(w.invalidate_all(rects).idle),
{
    lemma_invalidate_all(w, rects);
    let after = w.invalidate_all(rects);
    crate::region::lemma_clip_rects_cells(after.invalid, after.bounds());
    assert(cells_of(w.invalid) =~= Set::<(int, int)>::empty());
}

/// Handing in deferred work appends it to the queue and changes nothing else.
pub proof fn lemma_add_all(w: WindowView, kinds: Seq<IdleKind>)
    ensures
        w.add_all(kinds) == (WindowView { idle: w.idle + kinds, ..w }),
    decreases kinds.len(),
{
    if kinds.len() > 0 {
        lemma_add_all(w, kinds.drop_last());
        assert((w.idle + kinds.drop_last()).push(kinds.last()) =~= w.idle + kinds);
    } else {
        assert(w.idle + kinds =~= w.idle);
    }
}

/// However many pieces of deferred work are handed in while none is
/// waiting, the loop is woken exactly once; and the next idle run of a
/// free client takes them all from the queue and yields their calls in the
/// order in which they were handed in.
pub proof fn lemma_idle_adds_wake_once(w: WindowView, kinds: Seq<IdleKind>)
    requires
        w.idle.len() == 0,
        kinds.len() > 0,
    ensures
        w.wake_count(kinds) == 1,
        w.add_all(kinds).idle == kinds,
        w.add_all(kinds).run_idle().view.idle.len() == 0,
        w.add_all(kinds).run_idle().delivery == spec_deliver(w.handler_active, idle_calls(kinds)),
    decreases kinds.len(),
{
    lemma_add_all(w, kinds);
    assert(w.idle + kinds =~= kinds);
    let init = kinds.drop_last();
    lemma_add_all(w, init);
    assert(w.idle + init =~= init);
    if init.len() > 0 {
        lemma_idle_adds_wake_once(w, init);
        assert(w.add_all(init).idle.len() > 0);
    } else {
        assert(w.wake_count(init) == 0);
        assert(w.add_all(init) == w);
    }
}

/// Deferred work without redraw marks yields one call for each piece, in
/// order.
pub proof fn lemma_idle_calls_in_order(kinds: Seq<IdleKind>)
    requires
        !has_redraw(kinds),
    ensures
        idle_calls(kinds).len() == kinds.len(),
        forall|i: int|
            0 <= i < kinds.len() ==> #[trigger] idle_calls(kinds)[i] == match kinds[i] {
                IdleKind::Callback(c) => HandlerCall::IdleCallback(c),
                IdleKind::Token(t) => HandlerCall::Idle(t),
                IdleKind::Redraw => HandlerCall::PreparePaint,
            },
    decreases kinds.len(),
{
    if kinds.len() > 0 {
        let init = kinds.drop_last();
        if has_redraw(init) {
            let k = choose|k: int| 0 <= k < init.len() && init[k] == IdleKind::Redraw;
            assert(kinds[k] == IdleKind::Redraw);
        }
        assert(kinds[kinds.len() - 1] != IdleKind::Redraw);
        lemma_idle_calls_in_order(init);
        assert forall|i: int| 0 <= i < kinds.len() implies #[trigger] idle_calls(kinds)[i] == match kinds[i] {
            IdleKind::Callback(c) => HandlerCall::IdleCallback(c),
            IdleKind::Token(t) => HandlerCall::Idle(t),
            IdleKind::Redraw => HandlerCall::PreparePaint,
        } by {
            if i < init.len() {
                assert(idle_calls(kinds)[i] == idle_calls(init)[i]);
                assert(init[i] == kinds[i]);
            }
        }
    }
}

/// A run of the timers fires exactly the timers that are due, each once
/// and in firing order: the timers fired and the timers left make up the
/// queue as it was, every timer fired is due and none that is left is, and
/// the deadlines of the timers fired never decrease.
pub proof fn lemma_run_timers_exact(w: WindowView, now: Instant)
    requires
        w.wf(),
    ensures
        ({
            let n = due_count(w.timers, now) as int;
            let fired = w.timers.take(n);
            let after = w.run_timers(now);
            &&& 0 <= n <= w.timers.len()
            &&& fired + after.view.timers == w.timers
            &&& forall|i: int| 0 <= i < fired.len() ==> (#[trigger] fired[i]).deadline.nanos <= now.nanos
            &&& forall|i: int|
                0 <= i < after.view.timers.len() ==> (#[trigger] after.view.timers[i]).deadline.nanos > now.nanos
            &&& sorted(fired)
            &&& after.view.wf()
            &&& n > 0 ==> after.delivery == spec_deliver(w.handler_active, timer_calls(fired))
            &&& n == 0 ==> after.delivery == DeliveryView::Nothing
            &&& timer_calls(fired).len() == n
            &&& forall|i: int| 0 <= i < n ==> #[trigger] timer_calls(fired)[i] == HandlerCall::Timer(w.timers[i].token)
        }),
{
    crate::timer::lemma_due_prefix(w.timers, now);
    let n = due_count(w.timers, now) as int;
    let fired = w.timers.take(n);
    let rest = w.timers.skip(n);
    assert(fired + rest =~= w.timers);
    assert forall|i: int| 0 <= i < rest.len() implies (#[trigger] rest[i]).deadline.nanos > now.nanos by {
        assert(rest[i] == w.timers[n + i]);
    }
    assert(sorted(rest)) by {
        assert forall|i: int, j: int| 0 <= i <= j < rest.len() implies rest[i].deadline.nanos
            <= rest[j].deadline.nanos by {
            assert(rest[i] == w.timers[n + i] && rest[j] == w.timers[n + j]);
        }
    }
    if n == 0 {
        assert(rest =~= w.timers);
    }
}

} // verus!
