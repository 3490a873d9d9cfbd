//! Web windows: the one window of a page, the normalization of DOM events,
//! and the requests that the window makes of the page.

use vstd::prelude::*;
use vstd::std_specs::cmp::PartialEqSpecImpl;
use crate::backend::web::wheel::{dom_delta_line, dom_delta_page, dom_delta_pixel};
use crate::fixed::{UNIT, mul_fixed, mul_fixed_exec, mul_whole, mul_whole_exec};
use crate::handler::{Delivery, DeliveryView, HandlerCall, HandlerGateway, spec_deliver};
use crate::keyboard::{KeyEvent, KeyState, Modifiers};
use crate::kurbo::{Insets, Point, Rect, Size, Vec2};
use crate::mouse::{Cursor, CursorDesc};
use crate::pointer::{MouseInfo, PointerButton, PointerButtons, PointerEvent, PointerId, PointerType};
use crate::region::{Region, cells_of, clip_rects};
use crate::scale::{Scale, ScaledArea};
use crate::time::Instant;
use crate::window::{Counter, FileDialogToken, IdleCallback, IdleToken, TextFieldToken, TimerToken};

verus! {

/// Custom cursors are not available in a browser; the type has one value.
#[derive(Clone, Copy, Debug, PartialEq, Eq, Structural)]
pub struct CustomCursor;

/// What can go wrong on the page.
#[derive(Clone, Copy, Debug, PartialEq, Eq, Structural)]
pub enum Error {
    /// The device pixel ratio that the page reports is zero.
    NoScale,
    /// The operation is not available in a browser.
    Unimplemented,
}

/// The modifier keys as a DOM event reports them.
#[derive(Clone, Copy, Debug, PartialEq, Eq, Structural)]
pub struct ModifierState {
    pub shift_key: bool,
    pub alt_key: bool,
    pub ctrl_key: bool,
    pub meta_key: bool,
    pub alt_graph: bool,
    pub caps_lock: bool,
    pub num_lock: bool,
    pub scroll_lock: bool,
}

/// A mouse event of the DOM. Offsets count whole CSS pixels from the
/// corner of the canvas.
#[derive(Clone, Copy, Debug, PartialEq, Eq, Structural)]
pub struct MouseEvent {
    pub button: i16,
    pub buttons: u16,
    pub offset_x: i32,
    pub offset_y: i32,
    pub modifiers: ModifierState,
}

/// A wheel event of the DOM. The deltas are fixed-point numbers in the
/// unit that `delta_mode` names.
#[derive(Clone, Copy, Debug, PartialEq, Eq, Structural)]
pub struct WheelEvent {
    pub mouse: MouseEvent,
    pub delta_mode: u32,
    pub delta_x: i64,
    pub delta_y: i64,
}

/// A keyboard event of the DOM, with the key already told.
#[derive(Clone, Copy, Debug, PartialEq, Eq, Structural)]
pub struct KeyboardEvent {
    pub scancode: u32,
    pub keysym: u32,
    pub repeat: bool,
    pub modifiers: ModifierState,
}

/// The delta mode of a wheel event that counts pixels.
pub const DOM_DELTA_PIXEL: u32 = 0;

/// The delta mode of a wheel event that counts lines.
pub const DOM_DELTA_LINE: u32 = 1;

/// The delta mode of a wheel event that counts pages.
pub const DOM_DELTA_PAGE: u32 = 2;

/// The number of pixels that one line of wheel movement stands for.
pub const LINE_HEIGHT: u16 = 35;

/// The modifiers of a DOM event.
pub open spec fn spec_get_modifiers(m: ModifierState) -> Modifiers {
    Modifiers {
        shift: m.shift_key,
        alt: m.alt_key,
        control: m.ctrl_key,
        meta: m.meta_key,
        alt_graph: m.alt_graph,
        caps_lock: m.caps_lock,
        num_lock: m.num_lock,
        scroll_lock: m.scroll_lock,
    }
}

/// The modifiers of a DOM event.
pub fn get_modifiers(m: ModifierState) -> (r: Modifiers)
    ensures
        r == spec_get_modifiers(m),
{
    Modifiers {
        shift: m.shift_key,
        alt: m.alt_key,
        control: m.ctrl_key,
        meta: m.meta_key,
        alt_graph: m.alt_graph,
        caps_lock: m.caps_lock,
        num_lock: m.num_lock,
        scroll_lock: m.scroll_lock,
    }
}

/// The button that a button number of the DOM stands for, if it stands
/// for one.
pub open spec fn spec_get_button(button: i16) -> Option<PointerButton> {
    if button == 0 {
        Some(PointerButton::Primary)
    } else if button == 1 {
        Some(PointerButton::Auxiliary)
    } else if button == 2 {
        Some(PointerButton::Secondary)
    } else if button == 3 {
        Some(PointerButton::X1)
    } else if button == 4 {
        Some(PointerButton::X2)
    } else {
        None
    }
}

/// The button that a button number of the DOM stands for.
pub fn get_button(button: i16) -> (b: Option<PointerButton>)
    ensures
        b == spec_get_button(button),
{
    match button {
        0 => Some(PointerButton::Primary),
        1 => Some(PointerButton::Auxiliary),
        2 => Some(PointerButton::Secondary),
        3 => Some(PointerButton::X1),
        4 => Some(PointerButton::X2),
        _ => None,
    }
}

/// The buttons that a button mask of the DOM reports as held.
pub open spec fn spec_get_buttons(mask: u16) -> PointerButtons {
    PointerButtons {
        primary: mask & 1 != 0,
        secondary: mask & 2 != 0,
        auxiliary: mask & 4 != 0,
        x1: mask & 8 != 0,
        x2: mask & 16 != 0,
    }
}

/// The buttons that a button mask of the DOM reports as held.
pub fn get_buttons(mask: u16) -> (b: PointerButtons)
    ensures
        b == spec_get_buttons(mask),
{
    PointerButtons {
        primary: mask & 1 != 0,
        secondary: mask & 2 != 0,
        auxiliary: mask & 4 != 0,
        x1: mask & 8 != 0,
        x2: mask & 16 != 0,
    }
}

/// The wheel delta in pixels of a delta in the unit that `delta_mode`
/// names: pixels stay as they are, a line is 35 pixels, and a page is the
/// size of the window. There is none for an unknown mode.
pub open spec fn spec_wheel_delta(delta_mode: u32, dx: i64, dy: i64, size_dp: Size) -> Option<Vec2> {
    if delta_mode == DOM_DELTA_PIXEL {
        Some(Vec2 { x: dx, y: dy })
    } else if delta_mode == DOM_DELTA_LINE {
        Some(
            Vec2 {
                x: mul_whole(dx as int, LINE_HEIGHT as int) as i64,
                y: mul_whole(dy as int, LINE_HEIGHT as int) as i64,
            },
        )
    } else if delta_mode == DOM_DELTA_PAGE {
        Some(
            Vec2 {
                x: mul_fixed(size_dp.width as int, dx as int) as i64,
                y: mul_fixed(size_dp.height as int, dy as int) as i64,
            },
        )
    } else {
        None
    }
}

/// The wheel delta in pixels.
pub fn wheel_delta(delta_mode: u32, dx: i64, dy: i64, size_dp: Size) -> (d: Option<Vec2>)
    ensures
        d == spec_wheel_delta(delta_mode, dx, dy, size_dp),
{
    if delta_mode == dom_delta_pixel() {
        Some(Vec2 { x: dx, y: dy })
    } else if delta_mode == dom_delta_line() {
        Some(Vec2 { x: mul_whole_exec(dx, LINE_HEIGHT), y: mul_whole_exec(dy, LINE_HEIGHT) })
    } else if delta_mode == dom_delta_page() {
        Some(Vec2 { x: mul_fixed_exec(size_dp.width, dx), y: mul_fixed_exec(size_dp.height, dy) })
    } else {
        None
    }
}

/// A wheel delta in pixel mode is passed on as it is; in line mode a whole
/// line along one axis gives 35 pixels along that axis and none along the
/// other; in page mode a whole page along an axis gives the extent of the
/// window along that axis.
pub proof fn lemma_wheel_delta_units(size_dp: Size)
    ensures
        spec_wheel_delta(DOM_DELTA_LINE, UNIT, 0, size_dp) == Some(Vec2 { x: (35 * UNIT) as i64, y: 0 }),
        spec_wheel_delta(DOM_DELTA_LINE, 0, UNIT, size_dp) == Some(Vec2 { x: 0, y: (35 * UNIT) as i64 }),
        spec_wheel_delta(DOM_DELTA_PAGE, UNIT, UNIT, size_dp) == Some(
            Vec2 { x: size_dp.width, y: size_dp.height },
        ),
        spec_wheel_delta(DOM_DELTA_PAGE, 0, 0, size_dp) == Some(Vec2 { x: 0, y: 0 }),
{
    assert((size_dp.width * 65536) / 65536 == size_dp.width);
    assert((size_dp.height * 65536) / 65536 == size_dp.height);
    assert(size_dp.width * 0 == 0);
    assert(size_dp.height * 0 == 0);
}

/// The position of a mouse event, in device-independent pixels.
pub open spec fn spec_position(event: MouseEvent) -> Point {
    Point { x: (event.offset_x * UNIT) as i64, y: (event.offset_y * UNIT) as i64 }
}

/// The pointer event of a mouse event: the one mouse of the page, which is
/// primary, at the place and with the buttons and modifiers of the event.
pub open spec fn spec_mouse_pointer_event(
    event: MouseEvent,
    wheel_delta: Vec2,
    button: PointerButton,
    count: u8,
) -> PointerEvent {
    PointerEvent {
        pointer_id: PointerId(0),
        is_primary: true,
        pointer_type: PointerType::Mouse(MouseInfo { wheel_delta }),
        pos: spec_position(event),
        buttons: spec_get_buttons(event.buttons),
        modifiers: spec_get_modifiers(event.modifiers),
        button,
        focus: false,
        count,
    }
}

/// The pointer event of a mouse event.
pub fn mouse_pointer_event(event: &MouseEvent, wheel_delta: Vec2, button: PointerButton, count: u8) -> (e:
    PointerEvent)
    ensures
        e == spec_mouse_pointer_event(*event, wheel_delta, button, count),
{
    let x: i64 = event.offset_x as i64;
    let y: i64 = event.offset_y as i64;
    PointerEvent {
        pointer_id: PointerId(0),
        is_primary: true,
        pointer_type: PointerType::Mouse(MouseInfo { wheel_delta }),
        pos: Point { x: x * 65536, y: y * 65536 },
        buttons: get_buttons(event.buttons),
        modifiers: get_modifiers(event.modifiers),
        button,
        focus: false,
        count,
    }
}

/// The name of a cursor in a style sheet. A custom cursor shows as the
/// default one.
pub open spec fn spec_cursor_name(cursor: Cursor) -> Seq<char> {
    match cursor {
        Cursor::Arrow => "default"@,
        Cursor::IBeam => "text"@,
        Cursor::Pointer => "pointer"@,
        Cursor::Crosshair => "crosshair"@,
        Cursor::OpenHand => "grab"@,
        Cursor::NotAllowed => "not-allowed"@,
        Cursor::ResizeLeftRight => "ew-resize"@,
        Cursor::ResizeUpDown => "ns-resize"@,
        Cursor::Custom(_) => "default"@,
    }
}

/// The name of a cursor in a style sheet.
pub fn cursor_name(cursor: &Cursor) -> (name: &'static str)
    ensures
        name@ == spec_cursor_name(*cursor),
{
    match cursor {
        Cursor::Arrow => "default",
        Cursor::IBeam => "text",
        Cursor::Pointer => "pointer",
        Cursor::Crosshair => "crosshair",
        Cursor::OpenHand => "grab",
        Cursor::NotAllowed => "not-allowed",
        Cursor::ResizeLeftRight => "ew-resize",
        Cursor::ResizeUpDown => "ns-resize",
        Cursor::Custom(_) => "default",
    }
}

/// The whole milliseconds from `now` to `deadline`, none if the deadline
/// has passed, and limited to what a timeout of the page can hold.
pub open spec fn spec_timer_interval(deadline: Instant, now: Instant) -> i32 {
    if deadline.nanos <= now.nanos {
        0
    } else if (deadline.nanos - now.nanos) / 1_000_000 > i32::MAX {
        i32::MAX
    } else {
        ((deadline.nanos - now.nanos) / 1_000_000) as i32
    }
}

/// The whole milliseconds from `now` to `deadline`.
pub fn timer_interval(deadline: Instant, now: Instant) -> (ms: i32)
    ensures
        ms == spec_timer_interval(deadline, now),
{
    if deadline.nanos <= now.nanos {
        0
    } else {
        let ms: u64 = (deadline.nanos - now.nanos) / 1_000_000;
        if ms > 0x7fff_ffff {
            i32::MAX
        } else {
            ms as i32
        }
    }
}

/// A piece of deferred work of a window.
#[derive(Clone, Copy, Debug, PartialEq, Eq, Structural)]
pub enum IdleKind {
    /// A callback that the embedding program keeps.
    Callback(IdleCallback),
    /// Work that the client named by a token.
    Token(IdleToken),
}

/// What an animation frame is asked for.
#[derive(Clone, Copy, Debug, PartialEq, Eq, Structural)]
pub enum Frame {
    /// Tell the client the scale and the size of the new window.
    Announce,
    /// Draw the window.
    Render,
    /// Run the deferred work.
    Idle,
}

/// The calls that deferred work gives rise to: one for each piece, in order.
pub open spec fn idle_calls(idle: Seq<IdleKind>) -> Seq<HandlerCall> {
    Seq::new(
        idle.len(),
        |i: int|
            match idle[i] {
                IdleKind::Callback(c) => HandlerCall::IdleCallback(c),
                IdleKind::Token(t) => HandlerCall::Idle(t),
            },
    )
}

/// The state of a window as the contracts see it.
#[verifier::ext_equal]
pub struct WindowStateView {
    /// What tells this window from every other.
    pub serial: u64,
    pub scale: Scale,
    pub area: ScaledArea,
    /// The size that the canvas was given in the page, if it was given one.
    pub canvas_size: Option<Size>,
    /// The deferred work in the order in which it was handed in.
    pub idle: Seq<IdleKind>,
    /// The rectangles that became invalid since the last paint.
    pub invalid: Seq<Rect>,
    pub active_text_input: Option<TextFieldToken>,
    /// Whether a frame has been asked for and not been drawn yet.
    pub rendering_soon: bool,
    /// Whether an activation of the client runs.
    pub handler_active: bool,
}

/// The window of a page.
#[derive(Clone, Debug, PartialEq, Eq)]
pub struct WindowState {
    serial: u64,
    scale: Scale,
    area: ScaledArea,
    canvas_size: Option<Size>,
    idle_queue: Vec<IdleKind>,
    invalid: Region,
    active_text_input: Option<TextFieldToken>,
    rendering_soon: bool,
    gateway: HandlerGateway,
}

impl View for WindowState {
    type V = WindowStateView;

    closed spec fn view(&self) -> WindowStateView {
        WindowStateView {
            serial: self.serial,
            scale: self.scale,
            area: self.area,
            canvas_size: self.canvas_size,
            idle: self.idle_queue@,
            invalid: self.invalid.spec_rects(),
            active_text_input: self.active_text_input,
            rendering_soon: self.rendering_soon,
            handler_active: self.gateway.spec_is_active(),
        }
    }
}

/// The size of the canvas in whole device pixels, for the page.
#[derive(Clone, Copy, Debug, PartialEq, Eq, Structural)]
pub struct CanvasSize {
    pub width: u32,
    pub height: u32,
}

/// The whole device pixels of an area, each extent limited to 32 bits.
pub open spec fn spec_canvas_size(area: ScaledArea) -> CanvasSize {
    CanvasSize {
        width: crate::backend::x11::window::clamp(
            crate::backend::x11::window::whole_units(area.size_px.width as int),
            0,
            u32::MAX as int,
        ) as u32,
        height: crate::backend::x11::window::clamp(
            crate::backend::x11::window::whole_units(area.size_px.height as int),
            0,
            u32::MAX as int,
        ) as u32,
    }
}

impl WindowStateView {
    /// The bounds of the window in device-independent pixels.
    pub open spec fn bounds(self) -> Rect {
        self.area.spec_size_dp().spec_to_rect()
    }

    /// The state after an activation was tried.
    pub open spec fn entered(self) -> WindowStateView {
        WindowStateView { handler_active: true, ..self }
    }

    /// The state after `rect` became invalid. A rectangle without cells
    /// changes nothing.
    pub open spec fn add_invalid_rect(self, rect: Rect) -> WindowStateView {
        WindowStateView {
            invalid: if rect.spec_is_empty() {
                self.invalid
            } else {
                self.invalid.push(rect)
            },
            ..self
        }
    }

    /// The state after a frame was asked for.
    pub open spec fn render_soon(self) -> WindowStateView {
        WindowStateView { rendering_soon: true, ..self }
    }
}

impl WindowState {
    /// The scale is usable.
    pub open spec fn wf(&self) -> bool {
        self@.scale.wf()
    }

    /// A window whose canvas takes `size_dp` device-independent pixels on a
    /// page with the device pixel ratio `scale`, with nothing pending.
    pub fn new(serial: u64, size_dp: Size, scale: Scale, canvas_size: Option<Size>) -> (w: WindowState)
        requires
            scale.wf(),
        ensures
            w.wf(),
            w@ == (WindowStateView {
                serial,
                scale,
                area: ScaledArea::spec_from_dp(size_dp, scale),
                canvas_size,
                idle: Seq::empty(),
                invalid: Seq::empty(),
                active_text_input: None,
                rendering_soon: false,
                handler_active: false,
            }),
    {
        WindowState {
            serial,
            scale,
            area: ScaledArea::from_dp(size_dp, scale),
            canvas_size,
            idle_queue: Vec::new(),
            invalid: Region::empty(),
            active_text_input: None,
            rendering_soon: false,
            gateway: HandlerGateway::new(),
        }
    }

    /// The one way by which calls reach the client: they are passed on, and
    /// an activation starts for them, unless an activation runs already; then
    /// they are dropped.
    pub fn with_handler(&mut self, calls: Vec<HandlerCall>) -> (d: Delivery)
        ensures
            d@ == spec_deliver(old(self)@.handler_active, calls@),
            final(self)@ == old(self)@.entered(),
    {
        self.gateway.deliver(calls)
    }

    /// Passes one call to the client, unless an activation runs.
    pub fn deliver_one(&mut self, call: HandlerCall) -> (d: Delivery)
        ensures
            final(self)@ == old(self)@.entered(),
            d@ == spec_deliver(old(self)@.handler_active, seq![call]),
    {
        let mut calls: Vec<HandlerCall> = Vec::new();
        calls.push(call);
        assert(calls@ =~= seq![call]);
        self.with_handler(calls)
    }

    /// Ends the activation of the client: the calls of the last delivery
    /// have been made.
    pub fn handler_done(&mut self)
        ensures
            final(self)@ == (WindowStateView { handler_active: false, ..old(self)@ }),
    {
        self.gateway.leave();
    }

    /// Draws a frame: the client is told to prepare, and then to paint what
    /// became invalid since the last frame, as far as it lies inside the
    /// window. Afterwards nothing is invalid.
    pub fn render(&mut self) -> (d: Delivery)
        ensures
            final(self)@ == (WindowStateView { invalid: Seq::empty(), handler_active: true, ..old(self)@ }),
            old(self)@.handler_active ==> d@ == DeliveryView::Busy,
            !old(self)@.handler_active ==> (d@ matches DeliveryView::Calls(c) && c.len() == 2 && c[0]
                == HandlerCall::PreparePaint && (c[1] matches HandlerCall::Paint(r) && r.spec_rects()
                == clip_rects(old(self)@.invalid, old(self)@.bounds()) && r.cells() =~= cells_of(
                old(self)@.invalid,
            ).intersect(old(self)@.bounds().cells()))),
    {
        let mut calls: Vec<HandlerCall> = Vec::new();
        calls.push(HandlerCall::PreparePaint);
        let bounds = self.area.size_dp().to_rect();
        let invalid = self.invalid.take();
        let region = invalid.clipped(&bounds);
        calls.push(HandlerCall::Paint(region));
        self.with_handler(calls)
    }

    /// The frame that was asked for has come: the window is drawn, and the
    /// next invalidation asks for a frame again.
    pub fn animation_frame(&mut self) -> (d: Delivery)
        ensures
            final(self)@ == (WindowStateView {
                invalid: Seq::empty(),
                handler_active: true,
                rendering_soon: false,
                ..old(self)@
            }),
            old(self)@.handler_active ==> d@ == DeliveryView::Busy,
            !old(self)@.handler_active ==> (d@ matches DeliveryView::Calls(c) && c.len() == 2 && c[0]
                == HandlerCall::PreparePaint && (c[1] matches HandlerCall::Paint(r) && r.spec_rects()
                == clip_rects(old(self)@.invalid, old(self)@.bounds()) && r.cells() =~= cells_of(
                old(self)@.invalid,
            ).intersect(old(self)@.bounds().cells()))),
    {
        self.rendering_soon = false;
        self.render()
    }

    /// Runs the deferred work: all that was handed in leaves the queue, and
    /// the client gets one call for each piece, in the order in which they
    /// were handed in.
    pub fn process_idle_queue(&mut self) -> (d: Delivery)
        ensures
            final(self)@ == (WindowStateView { idle: Seq::empty(), handler_active: true, ..old(self)@ }),
            d@ == spec_deliver(old(self)@.handler_active, idle_calls(old(self)@.idle)),
    {
        let mut queue: Vec<IdleKind> = Vec::new();
        std::mem::swap(&mut self.idle_queue, &mut queue);
        let mut calls: Vec<HandlerCall> = Vec::new();
        let mut i: usize = 0;
        while i < queue.len()
            invariant
                0 <= i <= queue.len(),
                calls@.len() == i,
                forall|k: int| 0 <= k < i ==> calls@[k] == idle_calls(queue@)[k],
            decreases queue.len() - i,
        {
            match queue[i] {
                IdleKind::Callback(c) => {
                    calls.push(HandlerCall::IdleCallback(c));
                },
                IdleKind::Token(t) => {
                    calls.push(HandlerCall::Idle(t));
                },
            }
            i += 1;
        }
        assert(calls@ =~= idle_calls(queue@));
        self.with_handler(calls)
    }

    /// Asks for a frame unless one has been asked for already. Returns
    /// whether the page is to be asked for an animation frame now: any
    /// number of invalidations before a frame ask the page once.
    pub fn request_animation_frame(&mut self) -> (ask: bool)
        ensures
            final(self)@ == old(self)@.render_soon(),
            ask == !old(self)@.rendering_soon,
    {
        if !self.rendering_soon {
            self.rendering_soon = true;
            true
        } else {
            false
        }
    }

    /// The size of the window in CSS pixels and the device pixel ratio: the
    /// size that the canvas was given in the page, or else the inner size
    /// of the page's window.
    pub fn get_window_size_and_dpr(&self, inner_size: Size, dpr: u32) -> (r: (Size, u32))
        ensures
            r.0 == match self@.canvas_size {
                Some(s) => s,
                None => inner_size,
            },
            r.1 == dpr,
    {
        match self.canvas_size {
            Some(s) => (s, dpr),
            None => (inner_size, dpr),
        }
    }

    /// Takes the size and the device pixel ratio that the page reports, and
    /// returns the size that the canvas is to get in device pixels.
    pub fn update_scale_and_area(&mut self, inner_size: Size, dpr: u32) -> (r: Result<CanvasSize, Error>)
        ensures
            dpr == 0 ==> r == Err::<CanvasSize, Error>(Error::NoScale) && final(self)@ == old(self)@,
            dpr > 0 ==> {
                let scale = Scale { x: dpr, y: dpr };
                let css = match old(self)@.canvas_size {
                    Some(s) => s,
                    None => inner_size,
                };
                let area = ScaledArea::spec_from_dp(css, scale);
                &&& final(self)@ == (WindowStateView { scale, area, ..old(self)@ })
                &&& r == Ok::<CanvasSize, Error>(spec_canvas_size(area))
                &&& final(self).wf()
            },
    {
        let (css, dpr) = self.get_window_size_and_dpr(inner_size, dpr);
        match Scale::new(dpr, dpr) {
            Some(scale) => {
                let area = ScaledArea::from_dp(css, scale);
                self.scale = scale;
                self.area = area;
                Ok(canvas_size(&area))
            },
            None => Err(Error::NoScale),
        }
    }
}

/// The size that the canvas gets for an area.
pub fn canvas_size(area: &ScaledArea) -> (c: CanvasSize)
    ensures
        c == spec_canvas_size(*area),
{
    let px = area.size_px();
    CanvasSize {
        width: crate::backend::x11::window::to_u32(px.width),
        height: crate::backend::x11::window::to_u32(px.height),
    }
}

/// What a key press that the client left unhandled asks for: where a text
/// field has the focus, the calls that feed the key to it.
pub open spec fn key_down_calls(field: Option<TextFieldToken>, event: KeyEvent) -> Seq<HandlerCall> {
    match field {
        Some(f) => seq![
            HandlerCall::AcquireInputLock(f),
            HandlerCall::ComposeKey(f, event),
            HandlerCall::ReleaseInputLock(f),
        ],
        None => Seq::empty(),
    }
}

/// The key event of a keyboard event of the DOM.
pub open spec fn spec_key_event(event: KeyboardEvent, state: KeyState) -> KeyEvent {
    KeyEvent { scancode: event.scancode, keysym: event.keysym, state, repeat: event.repeat }
}

impl WindowStateView {
    /// The calls of a wheel event, if its delta mode is known.
    pub open spec fn scroll_calls(self, event: WheelEvent) -> Option<Seq<HandlerCall>> {
        match spec_wheel_delta(event.delta_mode, event.delta_x, event.delta_y, self.area.spec_size_dp()) {
            Some(delta) => Some(
                seq![
                    HandlerCall::Wheel(spec_mouse_pointer_event(event.mouse, delta, PointerButton::NoButton, 0)),
                ],
            ),
            None => None,
        }
    }
}

impl WindowState {
    /// Tells the client the scale and the size of the window; due once,
    /// at the first frame after the window was built.
    pub fn announce(&mut self) -> (d: Delivery)
        ensures
            final(self)@ == old(self)@.entered(),
            d@ == spec_deliver(
                old(self)@.handler_active,
                seq![HandlerCall::Scale(old(self)@.scale), HandlerCall::Size(old(self)@.area.spec_size_dp())],
            ),
    {
        let mut calls: Vec<HandlerCall> = Vec::new();
        calls.push(HandlerCall::Scale(self.scale));
        calls.push(HandlerCall::Size(self.area.size_dp()));
        assert(calls@ =~= seq![
            HandlerCall::Scale(self@.scale),
            HandlerCall::Size(self@.area.spec_size_dp()),
        ]);
        self.with_handler(calls)
    }

    /// A mouse button went down: if it is a button that the library knows,
    /// the client gets a pointer going down, with the click count that the
    /// embedding program worked out; any other button is ignored.
    pub fn mouse_down(&mut self, event: &MouseEvent, count: u8) -> (d: Delivery)
        ensures
            match spec_get_button(event.button) {
                Some(button) => final(self)@ == old(self)@.entered() && d@ == spec_deliver(
                    old(self)@.handler_active,
                    seq![
                        HandlerCall::PointerDown(
                            spec_mouse_pointer_event(*event, Vec2 { x: 0, y: 0 }, button, count),
                        ),
                    ],
                ),
                None => final(self)@ == old(self)@ && d@ == DeliveryView::Nothing,
            },
    {
        match get_button(event.button) {
            Some(button) => {
                let e = mouse_pointer_event(event, Vec2::zero(), button, count);
                self.deliver_one(HandlerCall::PointerDown(e))
            },
            None => Delivery::Nothing,
        }
    }

    /// A mouse button went up: if it is a button that the library knows,
    /// the client gets a pointer going up; any other button is ignored.
    pub fn mouse_up(&mut self, event: &MouseEvent) -> (d: Delivery)
        ensures
            match spec_get_button(event.button) {
                Some(button) => final(self)@ == old(self)@.entered() && d@ == spec_deliver(
                    old(self)@.handler_active,
                    seq![
                        HandlerCall::PointerUp(spec_mouse_pointer_event(*event, Vec2 { x: 0, y: 0 }, button, 0)),
                    ],
                ),
                None => final(self)@ == old(self)@ && d@ == DeliveryView::Nothing,
            },
    {
        match get_button(event.button) {
            Some(button) => {
                let e = mouse_pointer_event(event, Vec2::zero(), button, 0);
                self.deliver_one(HandlerCall::PointerUp(e))
            },
            None => Delivery::Nothing,
        }
    }

    /// The mouse moved: the client gets a pointer moving, with no button.
    pub fn mouse_move(&mut self, event: &MouseEvent) -> (d: Delivery)
        ensures
            final(self)@ == old(self)@.entered(),
            d@ == spec_deliver(
                old(self)@.handler_active,
                seq![
                    HandlerCall::PointerMove(
                        spec_mouse_pointer_event(*event, Vec2 { x: 0, y: 0 }, PointerButton::NoButton, 0),
                    ),
                ],
            ),
    {
        let e = mouse_pointer_event(event, Vec2::zero(), PointerButton::NoButton, 0);
        self.deliver_one(HandlerCall::PointerMove(e))
    }

    /// The wheel turned: the client gets a wheel event with the delta in
    /// pixels. An event with an unknown delta mode is dropped.
    pub fn scroll(&mut self, event: &WheelEvent) -> (d: Delivery)
        ensures
            match old(self)@.scroll_calls(*event) {
                Some(calls) => final(self)@ == old(self)@.entered() && d@ == spec_deliver(
                    old(self)@.handler_active,
                    calls,
                ),
                None => final(self)@ == old(self)@ && d@ == DeliveryView::Nothing,
            },
    {
        match wheel_delta(event.delta_mode, event.delta_x, event.delta_y, self.area.size_dp()) {
            Some(delta) => {
                let e = mouse_pointer_event(&event.mouse, delta, PointerButton::NoButton, 0);
                self.deliver_one(HandlerCall::Wheel(e))
            },
            None => Delivery::Nothing,
        }
    }

    /// The page was resized: the scale and the area are worked out anew,
    /// and the client is told both. Returns the size that the canvas is to
    /// get, with the calls.
    pub fn resize(&mut self, inner_size: Size, dpr: u32) -> (r: Result<(CanvasSize, Delivery), Error>)
        ensures
            dpr == 0 ==> r == Err::<(CanvasSize, Delivery), Error>(Error::NoScale) && final(self)@ == old(
                self,
            )@,
            dpr > 0 ==> {
                let scale = Scale { x: dpr, y: dpr };
                let css = match old(self)@.canvas_size {
                    Some(s) => s,
                    None => inner_size,
                };
                let area = ScaledArea::spec_from_dp(css, scale);
                &&& final(self)@ == (WindowStateView { scale, area, handler_active: true, ..old(self)@ })
                &&& r matches Ok(pair)
                &&& pair.0 == spec_canvas_size(area)
                &&& pair.1@ == spec_deliver(
                    old(self)@.handler_active,
                    seq![HandlerCall::Scale(scale), HandlerCall::Size(area.spec_size_dp())],
                )
            },
    {
        match self.update_scale_and_area(inner_size, dpr) {
            Ok(canvas) => {
                let mut calls: Vec<HandlerCall> = Vec::new();
                calls.push(HandlerCall::Scale(self.scale));
                calls.push(HandlerCall::Size(self.area.size_dp()));
                assert(calls@ =~= seq![
                    HandlerCall::Scale(self@.scale),
                    HandlerCall::Size(self@.area.spec_size_dp()),
                ]);
                let d = self.with_handler(calls);
                Ok((canvas, d))
            },
            Err(e) => Err(e),
        }
    }

    /// A key went up: the client gets the key event.
    pub fn key_up(&mut self, event: &KeyboardEvent) -> (d: Delivery)
        ensures
            final(self)@ == old(self)@.entered(),
            d@ == spec_deliver(
                old(self)@.handler_active,
                seq![HandlerCall::KeyUp(spec_key_event(*event, KeyState::Up))],
            ),
    {
        let e = KeyEvent { scancode: event.scancode, keysym: event.keysym, state: KeyState::Up, repeat: event.repeat };
        self.deliver_one(HandlerCall::KeyUp(e))
    }

    /// A key went down: the client gets the key event. What follows depends
    /// on whether it handles the key, see `key_down_unhandled`.
    pub fn key_down(&mut self, event: &KeyboardEvent) -> (d: Delivery)
        ensures
            final(self)@ == old(self)@.entered(),
            d@ == spec_deliver(
                old(self)@.handler_active,
                seq![HandlerCall::KeyDown(spec_key_event(*event, KeyState::Down))],
            ),
    {
        let e = KeyEvent {
            scancode: event.scancode,
            keysym: event.keysym,
            state: KeyState::Down,
            repeat: event.repeat,
        };
        self.deliver_one(HandlerCall::KeyDown(e))
    }

    /// What follows a key press that the client did not handle: where a
    /// text field has the focus, the calls that feed the key to it. The
    /// calls belong to the activation that the key press started.
    pub fn key_down_unhandled(&self, event: &KeyboardEvent) -> (calls: Vec<HandlerCall>)
        ensures
            calls@ == key_down_calls(self@.active_text_input, spec_key_event(*event, KeyState::Down)),
    {
        let e = KeyEvent {
            scancode: event.scancode,
            keysym: event.keysym,
            state: KeyState::Down,
            repeat: event.repeat,
        };
        let mut calls: Vec<HandlerCall> = Vec::new();
        match self.active_text_input {
            Some(f) => {
                calls.push(HandlerCall::AcquireInputLock(f));
                calls.push(HandlerCall::ComposeKey(f, e));
                calls.push(HandlerCall::ReleaseInputLock(f));
                assert(calls@ =~= key_down_calls(self@.active_text_input, e));
            },
            None => {},
        }
        calls
    }

    /// A timer of the page fired: the client gets the token, unless an
    /// activation runs.
    pub fn timer(&mut self, token: TimerToken) -> (d: Delivery)
        ensures
            final(self)@ == old(self)@.entered(),
            d@ == spec_deliver(old(self)@.handler_active, seq![HandlerCall::Timer(token)]),
    {
        self.deliver_one(HandlerCall::Timer(token))
    }
}

/// What an event listener is put on.
#[derive(Clone, Copy, Debug, PartialEq, Eq, Structural)]
pub enum Target {
    Canvas,
    Window,
}

/// The events of the DOM that a window listens to.
#[derive(Clone, Copy, Debug, PartialEq, Eq, Structural)]
pub enum EventType {
    MouseDown,
    MouseMove,
    MouseUp,
    Resize,
    Wheel,
    KeyUp,
    KeyDown,
}

/// An event listener to put on the page.
#[derive(Clone, Copy, Debug, PartialEq, Eq, Structural)]
pub struct Listener {
    pub target: Target,
    pub event: EventType,
}

/// The name of an event in the DOM.
pub fn event_name(event: EventType) -> (name: &'static str)
    ensures
        name@ == match event {
            EventType::MouseDown => "mousedown"@,
            EventType::MouseMove => "mousemove"@,
            EventType::MouseUp => "mouseup"@,
            EventType::Resize => "resize"@,
            EventType::Wheel => "wheel"@,
            EventType::KeyUp => "keyup"@,
            EventType::KeyDown => "keydown"@,
        },
{
    match event {
        EventType::MouseDown => "mousedown",
        EventType::MouseMove => "mousemove",
        EventType::MouseUp => "mouseup",
        EventType::Resize => "resize",
        EventType::Wheel => "wheel",
        EventType::KeyUp => "keyup",
        EventType::KeyDown => "keydown",
    }
}

/// The listeners of a window, in the order in which they are put on the
/// page: the mouse and the wheel on the canvas, resizing and the keys on
/// the window of the page.
pub open spec fn spec_web_callbacks() -> Seq<Listener> {
    seq![
        Listener { target: Target::Canvas, event: EventType::MouseDown },
        Listener { target: Target::Canvas, event: EventType::MouseMove },
        Listener { target: Target::Canvas, event: EventType::MouseUp },
        Listener { target: Target::Window, event: EventType::Resize },
        Listener { target: Target::Canvas, event: EventType::Wheel },
        Listener { target: Target::Window, event: EventType::KeyUp },
        Listener { target: Target::Window, event: EventType::KeyDown },
    ]
}

/// The listeners of a window.
pub fn setup_web_callbacks() -> (l: Vec<Listener>)
    ensures
        l@ == spec_web_callbacks(),
{
    let mut l: Vec<Listener> = Vec::new();
    l.push(Listener { target: Target::Canvas, event: EventType::MouseDown });
    l.push(Listener { target: Target::Canvas, event: EventType::MouseMove });
    l.push(Listener { target: Target::Canvas, event: EventType::MouseUp });
    l.push(Listener { target: Target::Window, event: EventType::Resize });
    l.push(Listener { target: Target::Canvas, event: EventType::Wheel });
    l.push(Listener { target: Target::Window, event: EventType::KeyUp });
    l.push(Listener { target: Target::Window, event: EventType::KeyDown });
    assert(l@ =~= spec_web_callbacks());
    l
}

/// What the page reports for a window that is about to be built.
#[derive(Clone, Copy, Debug, PartialEq, Eq, Structural)]
pub struct PageEnv {
    /// A number that tells this window from every other.
    pub serial: u64,
    /// The device pixel ratio, in fixed point.
    pub dpr: u32,
    /// The size that the canvas takes on the page, in CSS pixels.
    pub offset_size: Size,
    /// The size that the canvas was given by its attributes, if both its
    /// width and its height are set.
    pub canvas_size: Option<Size>,
}

/// Collects what a window is to be like, and builds it.
#[derive(Clone, Debug, PartialEq, Eq)]
pub struct WindowBuilder {
    has_handler: bool,
    title: String,
    cursor: Cursor,
    has_menu: bool,
}

/// A window that was built: the handle that owns it, what the page is to
/// set up for it, and the call that tells the client of it.
#[derive(Clone, Debug, PartialEq, Eq)]
pub struct Built {
    pub handle: WindowHandle,
    /// The size that the canvas is to get, in device pixels.
    pub canvas: CanvasSize,
    /// The scale that the drawing context is to get.
    pub scale: Scale,
    /// The name of the cursor to show.
    pub cursor: &'static str,
    /// The listeners to put on the page.
    pub listeners: Vec<Listener>,
    /// The frame to ask the page for.
    pub frame: Frame,
    pub delivery: Delivery,
}

impl WindowBuilder {
    /// Whether the window has a client.
    pub closed spec fn spec_has_handler(&self) -> bool {
        self.has_handler
    }

    /// The title.
    pub closed spec fn spec_title(&self) -> Seq<char> {
        self.title@
    }

    /// The cursor.
    pub closed spec fn spec_cursor(&self) -> Cursor {
        self.cursor
    }

    /// Whether the window has a menu.
    pub closed spec fn spec_has_menu(&self) -> bool {
        self.has_menu
    }

    /// A builder for a window without client, title or menu, with the
    /// arrow for a cursor.
    pub fn new() -> (b: WindowBuilder)
        ensures
            !b.spec_has_handler(),
            b.spec_title() == Seq::<char>::empty(),
            b.spec_cursor() == Cursor::Arrow,
            !b.spec_has_menu(),
    {
        WindowBuilder { has_handler: false, title: String::new(), cursor: Cursor::Arrow, has_menu: false }
    }

    /// Notes that the window has a client. The embedding program keeps the
    /// client itself.
    pub fn handler(self) -> (b: WindowBuilder)
        ensures
            b.spec_has_handler(),
            b.spec_title() == self.spec_title(),
            b.spec_cursor() == self.spec_cursor(),
            b.spec_has_menu() == self.spec_has_menu(),
    {
        let mut b = self;
        b.has_handler = true;
        b
    }

    /// The page decides the size of its window: nothing changes.
    pub fn size(self, _size: Size) -> (b: WindowBuilder)
        ensures
            b == self,
    {
        self
    }

    /// The page decides the size of its window: nothing changes.
    pub fn min_size(self, _size: Size) -> (b: WindowBuilder)
        ensures
            b == self,
    {
        self
    }

    /// The page decides the size of its window: nothing changes.
    pub fn resizable(self, _resizable: bool) -> (b: WindowBuilder)
        ensures
            b == self,
    {
        self
    }

    /// A page has no title bar to show or hide: nothing changes.
    pub fn show_titlebar(self, _show_titlebar: bool) -> (b: WindowBuilder)
        ensures
            b == self,
    {
        self
    }

    /// The page decides its background: nothing changes.
    pub fn transparent(self, _transparent: bool) -> (b: WindowBuilder)
        ensures
            b == self,
    {
        self
    }

    /// The page decides where its window is: nothing changes.
    pub fn position(self, _position: Point) -> (b: WindowBuilder)
        ensures
            b == self,
    {
        self
    }

    /// The window of a page has no state to start in: nothing changes.
    pub fn window_state(self, _state: crate::window::WindowState) -> (b: WindowBuilder)
        ensures
            b == self,
    {
        self
    }

    /// The window of a page has one level: nothing changes.
    pub fn level(self, _level: crate::window::WindowLevel) -> (b: WindowBuilder)
        ensures
            b == self,
    {
        self
    }

    /// Sets the title.
    pub fn title(self, title: String) -> (b: WindowBuilder)
        ensures
            b.spec_title() == title@,
            b.spec_has_handler() == self.spec_has_handler(),
            b.spec_cursor() == self.spec_cursor(),
            b.spec_has_menu() == self.spec_has_menu(),
    {
        let mut b = self;
        b.title = title;
        b
    }

    /// Notes that the window has a menu. The embedding program keeps the
    /// menu itself.
    pub fn menu(self) -> (b: WindowBuilder)
        ensures
            b.spec_has_menu(),
            b.spec_title() == self.spec_title(),
            b.spec_cursor() == self.spec_cursor(),
            b.spec_has_handler() == self.spec_has_handler(),
    {
        let mut b = self;
        b.has_menu = true;
        b
    }

    /// Builds the window for the page that `env` describes. It fails, and
    /// builds nothing, if the page reports a device pixel ratio of zero.
    /// The client is told at once that the window exists; the scale and
    /// the size follow with the first frame.
    pub fn build(self, env: PageEnv) -> (r: Result<Built, Error>)
        requires
            self.spec_has_handler(),
        ensures
            env.dpr == 0 ==> r == Err::<Built, Error>(Error::NoScale),
            env.dpr > 0 ==> {
                let scale = Scale { x: env.dpr, y: env.dpr };
                let area = ScaledArea::spec_from_dp(env.offset_size, scale);
                &&& r matches Ok(built)
                &&& built.handle.spec_state() matches Some(state)
                &&& state@ == (WindowStateView {
                    serial: env.serial,
                    scale,
                    area,
                    canvas_size: env.canvas_size,
                    idle: Seq::empty(),
                    invalid: Seq::empty(),
                    active_text_input: None,
                    rendering_soon: false,
                    handler_active: true,
                })
                &&& state.wf()
                &&& built.canvas == spec_canvas_size(area)
                &&& built.cursor@ == spec_cursor_name(self.spec_cursor())
                &&& built.scale == scale
                &&& built.listeners@ == spec_web_callbacks()
                &&& built.frame == Frame::Announce
                &&& built.delivery@ == DeliveryView::Calls(seq![HandlerCall::Connect])
            },
    {
        match Scale::new(env.dpr, env.dpr) {
            None => Err(Error::NoScale),
            Some(scale) => {
                let mut state = WindowState::new(env.serial, env.offset_size, scale, env.canvas_size);
                let canvas = canvas_size(&state.area);
                let cursor = cursor_name(&self.cursor);
                let listeners = setup_web_callbacks();
                let delivery = state.deliver_one(HandlerCall::Connect);
                Ok(
                    Built {
                        handle: WindowHandle { state: Some(state) },
                        canvas,
                        scale,
                        cursor,
                        listeners,
                        frame: Frame::Announce,
                        delivery,
                    },
                )
            },
        }
    }
}

/// Owns the window of a page. A handle without a window stands for a
/// window that is gone: every operation on it does nothing.
#[derive(Clone, Debug)]
pub struct WindowHandle {
    state: Option<WindowState>,
}

impl PartialEq for WindowHandle {
    fn eq(&self, other: &Self) -> (r: bool) {
        match (&self.state, &other.state) {
            (None, None) => true,
            (Some(s), Some(o)) => s.serial == o.serial,
            _ => false,
        }
    }
}

impl PartialEqSpecImpl for WindowHandle {
    open spec fn obeys_eq_spec() -> bool {
        true
    }

    open spec fn eq_spec(&self, other: &Self) -> bool {
        match (self.spec_state(), other.spec_state()) {
            (None, None) => true,
            (Some(s), Some(o)) => s@.serial == o@.serial,
            _ => false,
        }
    }
}

impl Eq for WindowHandle {

}

impl Default for WindowHandle {
    fn default() -> (h: WindowHandle)
        ensures
            h.spec_state() is None,
    {
        WindowHandle { state: None }
    }
}

/// What a timer asks of the page.
#[derive(Clone, Copy, Debug, PartialEq, Eq, Structural)]
pub struct TimerRequest {
    /// The token that names the timer.
    pub token: TimerToken,
    /// The milliseconds after which the page is to fire the timer; `None`
    /// where no timer is to be set.
    pub timeout: Option<i32>,
}

/// Lets deferred work be handed in for the window of a page.
#[derive(Clone, Copy, Debug, PartialEq, Eq, Structural)]
pub struct IdleHandle;

impl WindowHandle {
    /// The window, unless it is gone.
    pub closed spec fn spec_state(&self) -> Option<WindowState> {
        self.state
    }

    /// The view of the window, unless it is gone.
    pub open spec fn view_of(&self) -> Option<WindowStateView> {
        match self.spec_state() {
            Some(s) => Some(s@),
            None => None,
        }
    }

    /// The window is gone, or it is well formed.
    pub open spec fn wf(&self) -> bool {
        self.spec_state() matches Some(s) ==> s.wf()
    }

    /// The window, for the events of the page.
    pub fn state_mut(&mut self) -> (s: Option<&mut WindowState>)
        ensures
            old(self).spec_state() is None ==> s is None && final(self).spec_state() is None,
            old(self).spec_state() matches Some(w) ==> (s matches Some(r) && *r == w && final(self).spec_state()
                == Some(*final(r))),
    {
        self.state.as_mut()
    }

    /// Lets go of the window: the handle stands for a window that is gone.
    pub fn drop_window(&mut self)
        ensures
            final(self).spec_state() is None,
    {
        self.state = None;
    }

    /// Shows the window, which asks for a frame. Returns whether the page
    /// is to be asked for an animation frame now.
    pub fn show(&mut self) -> (ask: bool)
        ensures
            ask == (old(self).view_of() matches Some(w) && !w.rendering_soon),
            final(self).view_of() == match old(self).view_of() {
                Some(w) => Some(w.render_soon()),
                None => None,
            },
    {
        self.render_soon()
    }

    /// The page decides the size of its window: nothing happens.
    pub fn resizable(&self, _resizable: bool) {
    }

    /// A page has no title bar to show or hide: nothing happens.
    pub fn show_titlebar(&self, _show_titlebar: bool) {
    }

    /// The page decides where its window is: nothing happens.
    pub fn set_position(&self, _position: Point) {
    }

    /// The position of the window is its page's affair: it counts as the
    /// origin.
    pub fn get_position(&self) -> (p: Point)
        ensures
            p == (Point { x: 0, y: 0 }),
    {
        Point::origin()
    }

    /// The page decides the size of its window: nothing happens.
    pub fn set_size(&self, _size: Size) {
    }

    /// The size of the window is its page's affair: it counts as empty.
    pub fn get_size(&self) -> (s: Size)
        ensures
            s == (Size { width: 0, height: 0 }),
    {
        Size::zero()
    }

    /// The space that decorations take inside the window: none.
    pub fn content_insets(&self) -> (i: Insets)
        ensures
            i == (Insets { x0: 0, y0: 0, x1: 0, y1: 0 }),
    {
        Insets::zero()
    }

    /// The window of a page has no state to set: nothing happens.
    pub fn set_window_state(&self, _state: crate::window::WindowState) {
    }

    /// The state of the window of a page: it counts as restored.
    pub fn get_window_state(&self) -> (s: crate::window::WindowState)
        ensures
            s == crate::window::WindowState::Restored,
    {
        crate::window::WindowState::Restored
    }

    /// A page has no title bar: nothing happens.
    pub fn handle_titlebar(&self, _val: bool) {
    }

    /// The window of a page cannot be closed from within: nothing happens.
    pub fn close(&self) {
    }

    /// The window of a page cannot be raised from within: nothing happens.
    pub fn bring_to_front_and_focus(&self) {
    }

    /// Asks for a frame. Returns whether the page is to be asked for an
    /// animation frame now.
    pub fn request_anim_frame(&mut self) -> (ask: bool)
        ensures
            ask == (old(self).view_of() matches Some(w) && !w.rendering_soon),
            final(self).view_of() == match old(self).view_of() {
                Some(w) => Some(w.render_soon()),
                None => None,
            },
    {
        self.render_soon()
    }

    /// Marks `rect` as invalid and asks for a frame. Returns whether the
    /// page is to be asked for an animation frame now.
    pub fn invalidate_rect(&mut self, rect: Rect) -> (ask: bool)
        ensures
            ask == (old(self).view_of() matches Some(w) && !w.rendering_soon),
            final(self).view_of() == match old(self).view_of() {
                Some(w) => Some(w.add_invalid_rect(rect).render_soon()),
                None => None,
            },
    {
        match self.state.as_mut() {
            Some(s) => {
                s.invalid.add_rect(rect);
            },
            None => {},
        }
        self.render_soon()
    }

    /// Marks the whole window as invalid and asks for a frame. Returns
    /// whether the page is to be asked for an animation frame now.
    pub fn invalidate(&mut self) -> (ask: bool)
        ensures
            ask == (old(self).view_of() matches Some(w) && !w.rendering_soon),
            final(self).view_of() == match old(self).view_of() {
                Some(w) => Some(w.add_invalid_rect(w.bounds()).render_soon()),
                None => None,
            },
    {
        match self.state.as_mut() {
            Some(s) => {
                let rect = s.area.size_dp().to_rect();
                s.invalid.add_rect(rect);
            },
            None => {},
        }
        self.render_soon()
    }

    /// A fresh token for a text field, from `tokens`; the invalid one once
    /// the tokens are used up.
    pub fn add_text_field(&self, tokens: &mut Counter) -> (token: TextFieldToken)
        ensures
            old(tokens).peek() < u64::MAX ==> token == TextFieldToken(old(tokens).peek()) && final(tokens).peek() == old(tokens).peek() + 1,
            old(tokens).peek() == u64::MAX ==> token == TextFieldToken(0) && *final(tokens) == *old(tokens),
    {
        match tokens.next() {
            Some(id) => TextFieldToken(id),
            None => TextFieldToken::invalid(),
        }
    }

    /// The client gave up the text field `token`: if it has the focus, no
    /// text field has it afterwards.
    pub fn remove_text_field(&mut self, token: TextFieldToken)
        ensures
            final(self).view_of() == match old(self).view_of() {
                Some(w) => Some(
                    WindowStateView {
                        active_text_input: if w.active_text_input == Some(token) {
                            None
                        } else {
                            w.active_text_input
                        },
                        ..w
                    },
                ),
                None => None,
            },
    {
        match self.state.as_mut() {
            Some(s) => {
                let hit = match s.active_text_input {
                    Some(t) => t.0 == token.0,
                    None => false,
                };
                if hit {
                    s.active_text_input = None;
                }
            },
            None => {},
        }
    }

    /// Gives the focus to `active_field`.
    pub fn set_focused_text_field(&mut self, active_field: Option<TextFieldToken>)
        ensures
            final(self).view_of() == match old(self).view_of() {
                Some(w) => Some(WindowStateView { active_text_input: active_field, ..w }),
                None => None,
            },
    {
        match self.state.as_mut() {
            Some(s) => {
                s.active_text_input = active_field;
            },
            None => {},
        }
    }

    /// Changes of a text field need no reaction on this backend: nothing
    /// happens.
    pub fn update_text_field(&self, _token: TextFieldToken, _update: crate::text::Event) {
    }

    /// Asks for a timer that fires at `deadline`. The token is fresh from
    /// `tokens`, or the invalid one once they are used up; the page is
    /// asked for a timeout only if the window is there and the token valid.
    pub fn request_timer(&self, deadline: Instant, now: Instant, tokens: &mut Counter) -> (r: TimerRequest)
        ensures
            old(tokens).peek() < u64::MAX ==> r.token == TimerToken(old(tokens).peek()) && final(tokens).peek() == old(tokens).peek() + 1 && r.timeout == (if self.spec_state() is Some {
                Some(spec_timer_interval(deadline, now))
            } else {
                None
            }),
            old(tokens).peek() == u64::MAX ==> r.token == TimerToken(0) && r.timeout is None && *final(tokens) == *old(tokens),
    {
        let interval = timer_interval(deadline, now);
        match tokens.next() {
            Some(id) => TimerRequest {
                token: TimerToken(id),
                timeout: if self.state.is_some() {
                    Some(interval)
                } else {
                    None
                },
            },
            None => TimerRequest { token: TimerToken::invalid(), timeout: None },
        }
    }

    /// The name of the style that shows `cursor`, for the canvas; `None`
    /// where the window is gone.
    pub fn set_cursor(&mut self, cursor: &Cursor) -> (name: Option<&'static str>)
        ensures
            name is Some == old(self).spec_state() is Some,
            name matches Some(n) ==> n@ == spec_cursor_name(*cursor),
            final(self).spec_state() == old(self).spec_state(),
    {
        if self.state.is_some() {
            Some(cursor_name(cursor))
        } else {
            None
        }
    }

    /// Custom cursors are not available in a browser.
    pub fn make_cursor(&self, _cursor_desc: &CursorDesc) -> (c: Option<Cursor>)
        ensures
            c is None,
    {
        None
    }

    /// File dialogs are not available in a browser.
    pub fn open_file(&mut self, _options: crate::dialog::FileDialogOptions) -> (t: Option<FileDialogToken>)
        ensures
            t is None,
            final(self).spec_state() == old(self).spec_state(),
    {
        None
    }

    /// File dialogs are not available in a browser.
    pub fn save_as(&mut self, _options: crate::dialog::FileDialogOptions) -> (t: Option<FileDialogToken>)
        ensures
            t is None,
            final(self).spec_state() == old(self).spec_state(),
    {
        None
    }

    /// Asks for a frame unless one has been asked for already. Returns
    /// whether the page is to be asked for an animation frame now.
    pub fn render_soon(&mut self) -> (ask: bool)
        ensures
            ask == (old(self).view_of() matches Some(w) && !w.rendering_soon),
            final(self).view_of() == match old(self).view_of() {
                Some(w) => Some(w.render_soon()),
                None => None,
            },
    {
        match self.state.as_mut() {
            Some(s) => s.request_animation_frame(),
            None => false,
        }
    }

    /// File dialogs are not available in a browser.
    pub fn file_dialog(
        &self,
        _ty: crate::dialog::FileDialogType,
        _options: crate::dialog::FileDialogOptions,
    ) -> (r: Result<String, Error>)
        ensures
            r matches Err(e) && e == Error::Unimplemented,
    {
        Err(Error::Unimplemented)
    }

    /// The handle by which deferred work is handed in; `None` where the
    /// window is gone.
    pub fn get_idle_handle(&self) -> (h: Option<IdleHandle>)
        ensures
            h is Some == self.spec_state() is Some,
    {
        if self.state.is_some() {
            Some(IdleHandle)
        } else {
            None
        }
    }

    /// The scale of the window, or the error that the window is gone.
    pub fn get_scale(&self) -> (r: Result<Scale, crate::error::Error>)
        ensures
            r == match self.view_of() {
                Some(w) => Ok::<Scale, crate::error::Error>(w.scale),
                None => Err::<Scale, crate::error::Error>(crate::error::Error::WindowDropped),
            },
    {
        match &self.state {
            Some(s) => Ok(s.scale),
            None => Err(crate::error::Error::WindowDropped),
        }
    }

    /// A page has no menu bar: nothing happens.
    pub fn set_menu(&self) {
    }

    /// A page shows its own context menu: nothing happens.
    pub fn show_context_menu(&self, _pos: Point) {
    }

    /// Whether the canvas is to get `title` for a title: it is while the
    /// window is there.
    pub fn set_title(&self, _title: &str) -> (apply: bool)
        ensures
            apply == self.spec_state() is Some,
    {
        self.state.is_some()
    }
}

impl IdleHandle {
    /// Hands in a piece of deferred work for the window. Returns whether
    /// the page is to be asked for a frame in which the work runs: it is
    /// when, and only when, no other work was waiting.
    pub fn add_idle(&self, window: &mut WindowHandle, kind: IdleKind) -> (ask: bool)
        ensures
            ask == (old(window).view_of() matches Some(w) && w.idle.len() == 0),
            final(window).view_of() == match old(window).view_of() {
                Some(w) => Some(WindowStateView { idle: w.idle.push(kind), ..w }),
                None => None,
            },
    {
        match window.state.as_mut() {
            Some(s) => {
                s.idle_queue.push(kind);
                s.idle_queue.len() == 1
            },
            None => false,
        }
    }

    /// Hands in a callback to be run when the page is idle.
    pub fn add_idle_callback(&self, window: &mut WindowHandle, callback: IdleCallback) -> (ask: bool)
        ensures
            ask == (old(window).view_of() matches Some(w) && w.idle.len() == 0),
            final(window).view_of() == match old(window).view_of() {
                Some(w) => Some(WindowStateView { idle: w.idle.push(IdleKind::Callback(callback)), ..w }),
                None => None,
            },
    {
        self.add_idle(window, IdleKind::Callback(callback))
    }

    /// Hands in a token to be given to the client when the page is idle.
    pub fn add_idle_token(&self, window: &mut WindowHandle, token: IdleToken) -> (ask: bool)
        ensures
            ask == (old(window).view_of() matches Some(w) && w.idle.len() == 0),
            final(window).view_of() == match old(window).view_of() {
                Some(w) => Some(WindowStateView { idle: w.idle.push(IdleKind::Token(token)), ..w }),
                None => None,
            },
    {
        self.add_idle(window, IdleKind::Token(token))
    }
}

} // verus!
