//! The X11 application: the registry of windows, the routing of events,
//! and what the event loop decides between two waits.

use vstd::prelude::*;
use crate::backend::x11::event::{ActiveModifiers, ChangeReason, Event, EventKind, SelectionEvent};
use crate::backend::x11::pointer::{DeviceInfo, PointersState, first_with_id};
use crate::backend::x11::window::{Cursors, IdleRun, Request, Window, WindowView};
use crate::error::Error;
use crate::handler::{Delivery, DeliveryView};
use crate::text::KeyEventsState;
use crate::time::Instant;
use crate::window::Counter;

verus! {

/// A visual of a screen.
#[derive(Clone, Copy, Debug, PartialEq, Eq, Structural)]
pub struct Visualtype {
    pub visual_id: u32,
    pub depth: u8,
}

/// How a picture format stores its pixels.
#[derive(Clone, Copy, Debug, PartialEq, Eq, Structural)]
pub enum PictType {
    Indexed,
    Direct,
}

/// Where the channels of a direct picture format lie in a pixel.
#[derive(Clone, Copy, Debug, PartialEq, Eq, Structural)]
pub struct Directformat {
    pub red_shift: u16,
    pub red_mask: u16,
    pub green_shift: u16,
    pub green_mask: u16,
    pub blue_shift: u16,
    pub blue_mask: u16,
    pub alpha_shift: u16,
    pub alpha_mask: u16,
}

/// A picture format of the render extension.
#[derive(Clone, Copy, Debug, PartialEq, Eq, Structural)]
pub struct Pictforminfo {
    pub id: u32,
    pub type_: PictType,
    pub depth: u8,
    pub direct: Directformat,
}

/// Whether a picture format holds 32-bit pixels with eight bits each of
/// alpha, red, green and blue, in that order from the top.
pub open spec fn spec_is_argb32(format: Pictforminfo) -> bool {
    &&& format.type_ == PictType::Direct
    &&& format.depth == 32
    &&& format.direct.red_shift == 16
    &&& format.direct.red_mask == 0xff
    &&& format.direct.green_shift == 8
    &&& format.direct.green_mask == 0xff
    &&& format.direct.blue_shift == 0
    &&& format.direct.blue_mask == 0xff
    &&& format.direct.alpha_shift == 24
    &&& format.direct.alpha_mask == 0xff
}

/// Whether a picture format holds 32-bit ARGB pixels.
pub fn is_argb32(format: &Pictforminfo) -> (b: bool)
    ensures
        b == spec_is_argb32(*format),
{
    let direct = match format.type_ {
        PictType::Direct => true,
        PictType::Indexed => false,
    };
    direct && format.depth == 32 && format.direct.red_shift == 16 && format.direct.red_mask == 0xff
        && format.direct.green_shift == 8 && format.direct.green_mask == 0xff
        && format.direct.blue_shift == 0 && format.direct.blue_mask == 0xff
        && format.direct.alpha_shift == 24 && format.direct.alpha_mask == 0xff
}

/// The id of the first 32-bit ARGB format of `formats`, if there is one.
pub open spec fn spec_find_argb32(formats: Seq<Pictforminfo>) -> Option<u32>
    decreases formats.len(),
{
    if formats.len() == 0 {
        None
    } else if spec_is_argb32(formats[0]) {
        Some(formats[0].id)
    } else {
        spec_find_argb32(formats.skip(1))
    }
}

/// The id of the first 32-bit ARGB format of `formats`, if there is one.
pub fn find_argb32(formats: &Vec<Pictforminfo>) -> (id: Option<u32>)
    ensures
        id == spec_find_argb32(formats@),
{
    let mut i: usize = 0;
    assert(formats@.skip(0) == formats@);
    while i < formats.len()
        invariant
            0 <= i <= formats.len(),
            spec_find_argb32(formats@) == spec_find_argb32(formats@.skip(i as int)),
        decreases formats.len() - i,
    {
        if is_argb32(&formats[i]) {
            return Some(formats[i].id);
        }
        proof {
            assert(formats@.skip(i as int).skip(1) == formats@.skip(i as int + 1));
        }
        i += 1;
    }
    None
}

/// Whether the render extension in the version that the server answered
/// with can make cursors. `None` stands for a server without the extension.
pub open spec fn spec_render_cursor_supported(version: Option<(u32, u32)>) -> bool {
    match version {
        Some((major, minor)) => major >= 1 || minor >= 5,
        None => false,
    }
}

/// Whether the render extension can make cursors.
pub fn render_cursor_supported(version: Option<(u32, u32)>) -> (b: bool)
    ensures
        b == spec_render_cursor_supported(version),
{
    match version {
        Some((major, minor)) => major >= 1 || minor >= 5,
        None => false,
    }
}

/// A screen of the display.
#[derive(Clone, Copy, Debug, PartialEq, Eq, Structural)]
pub struct Screen {
    pub root: u32,
    pub root_depth: u8,
    pub white_pixel: u32,
    /// The visual of the root window, where the screen lists it.
    pub root_visual: Option<Visualtype>,
    /// A visual with an alpha channel, where the screen has one.
    pub argb_visual: Option<Visualtype>,
}

/// What the connection setup gave: all that an application is made from.
#[derive(Clone, Debug, PartialEq, Eq)]
pub struct Setup {
    pub screens: Vec<Screen>,
    pub screen_num: usize,
    /// The id that the server reserved for the application's own window.
    pub window_id: u32,
    pub cursors: Cursors,
    pub pointers: Vec<DeviceInfo>,
    /// The version of the render extension, where the server has it.
    pub render_version: Option<(u32, u32)>,
    pub pict_formats: Vec<Pictforminfo>,
}

/// Something that the embedding program does for the application as a
/// whole.
#[derive(Clone, Debug, PartialEq, Eq)]
pub enum Action {
    /// Send a request to the server.
    Send(Request),
    /// Ask the server for its input devices anew and hand them in.
    ReloadPointers,
    /// Bring the keyboard state in line with what the server reports.
    UpdateKeyboard(ActiveModifiers),
    /// Let both clipboards see that a selection was lost.
    SelectionClear(SelectionEvent),
    /// Let both clipboards see that a selection was asked for.
    SelectionRequest(SelectionEvent),
    /// Let both clipboards see that a property changed.
    PropertyNotify(SelectionEvent),
    /// Close both ends of the pipe that wakes the loop.
    CloseIdlePipe,
}

/// The requests that end an application: its own window is destroyed and
/// the pipe that wakes the loop is closed.
pub open spec fn finalize_actions(window_id: u32) -> Seq<Action> {
    seq![Action::Send(Request::DestroyWindow(window_id)), Action::CloseIdlePipe]
}

/// What handling one event asks for.
#[derive(Clone, Debug, PartialEq, Eq)]
pub struct Outcome {
    /// Whether the loop is to end.
    pub quit: bool,
    /// The calls for the client of the window that the event was for.
    pub delivery: Delivery,
    /// The window whose client the calls are for, if there are calls.
    pub window: Option<u32>,
    /// Whether the loop must be woken for deferred work.
    pub wake: bool,
    /// What else is to be done, in order.
    pub actions: Vec<Action>,
}

/// An `Outcome` with its lists as sequences.
#[verifier::ext_equal]
pub struct OutcomeView {
    pub quit: bool,
    pub delivery: DeliveryView,
    pub window: Option<u32>,
    pub wake: bool,
    pub actions: Seq<Action>,
}

impl View for Outcome {
    type V = OutcomeView;

    open spec fn view(&self) -> OutcomeView {
        OutcomeView {
            quit: self.quit,
            delivery: self.delivery@,
            window: self.window,
            wake: self.wake,
            actions: self.actions@,
        }
    }
}

impl OutcomeView {
    /// Nothing is to be done.
    pub open spec fn nothing() -> OutcomeView {
        OutcomeView {
            quit: false,
            delivery: DeliveryView::Nothing,
            window: None,
            wake: false,
            actions: Seq::empty(),
        }
    }

    /// `actions` are to be done, and nothing else.
    pub open spec fn only(actions: Seq<Action>) -> OutcomeView {
        OutcomeView { actions, ..OutcomeView::nothing() }
    }
}

/// The state of an application as the contracts see it.
#[verifier::ext_equal]
pub struct ApplicationView {
    /// The registered windows, in the order in which they were added.
    pub windows: Seq<WindowView>,
    /// Whether the application has been asked to quit.
    pub quitting: bool,
    /// The id of the application's own window.
    pub window_id: u32,
    /// The newest server time seen.
    pub timestamp: u32,
    /// Whether a key composition is under way.
    pub composing: bool,
    pub pointers: Seq<DeviceInfo>,
    /// The number of the next timer token.
    pub next_timer_token: u64,
    /// The number of the next text field token.
    pub next_text_field_token: u64,
    /// The number of the next file dialog token.
    pub next_file_dialog_token: u64,
}

/// The place of the window with id `id` in `windows`, if it is there.
pub open spec fn index_of(windows: Seq<WindowView>, id: u32) -> Option<int>
    decreases windows.len(),
{
    if windows.len() == 0 {
        None
    } else if windows.last().id == id {
        Some(windows.len() - 1)
    } else {
        index_of(windows.drop_last(), id)
    }
}

/// Whether no two windows of `windows` have the same id.
pub open spec fn distinct_ids(windows: Seq<WindowView>) -> bool {
    forall|i: int, j: int| 0 <= i < j < windows.len() ==> windows[i].id != windows[j].id
}

/// `index_of` finds a window with the id asked for, and finds one whenever
/// there is one.
pub proof fn lemma_index_of(windows: Seq<WindowView>, id: u32)
    ensures
        index_of(windows, id) matches Some(i) ==> 0 <= i < windows.len() && windows[i].id == id,
        index_of(windows, id) is None ==> forall|k: int| 0 <= k < windows.len() ==> (#[trigger] windows[k]).id
            != id,
    decreases windows.len(),
{
    if windows.len() > 0 && windows.last().id != id {
        lemma_index_of(windows.drop_last(), id);
        assert forall|k: int| 0 <= k < windows.len() && index_of(windows, id) is None implies (
        #[trigger] windows[k]).id != id by {
            if k < windows.len() - 1 {
                assert(windows.drop_last()[k] == windows[k]);
            }
        }
    }
}

/// The earliest deadline among the first timers of `windows`, if any
/// window has a timer.
pub open spec fn earliest_deadline(windows: Seq<WindowView>) -> Option<Instant>
    decreases windows.len(),
{
    if windows.len() == 0 {
        None
    } else {
        let head = earliest_deadline(windows.drop_last());
        let w = windows.last();
        if w.timers.len() == 0 {
            head
        } else {
            match head {
                Some(t) if t.nanos <= w.timers[0].deadline.nanos => Some(t),
                _ => Some(w.timers[0].deadline),
            }
        }
    }
}

/// The earliest deadline is no later than any pending timer of any window,
/// and there is none only if no window has a timer.
pub proof fn lemma_earliest_deadline(windows: Seq<WindowView>)
    requires
        forall|i: int| 0 <= i < windows.len() ==> (#[trigger] windows[i]).wf(),
    ensures
        earliest_deadline(windows) is None <==> forall|i: int|
            0 <= i < windows.len() ==> (#[trigger] windows[i]).timers.len() == 0,
        earliest_deadline(windows) matches Some(t) ==> {
            &&& forall|i: int, k: int|
                0 <= i < windows.len() && 0 <= k < windows[i].timers.len() ==> t.nanos <= (
                #[trigger] windows[i].timers[k]).deadline.nanos
            &&& exists|i: int|
                0 <= i < windows.len() && (#[trigger] windows[i]).timers.len() > 0 && windows[i].timers[0].deadline
                    == t
        },
    decreases windows.len(),
{
    if windows.len() > 0 {
        let init = windows.drop_last();
        let w = windows.last();
        assert forall|i: int| 0 <= i < init.len() implies (#[trigger] init[i]).wf() by {
            assert(init[i] == windows[i]);
        }
        lemma_earliest_deadline(init);
        assert(w == windows[windows.len() - 1]);
        assert(w.wf());
        let e = earliest_deadline(windows);
        if e is None {
            assert forall|i: int| 0 <= i < windows.len() implies (#[trigger] windows[i]).timers.len() == 0 by {
                if i < init.len() {
                    assert(init[i] == windows[i]);
                }
            }
        } else {
            let t = e->Some_0;
            assert forall|i: int, k: int|
                0 <= i < windows.len() && 0 <= k < windows[i].timers.len() implies t.nanos <= (
            #[trigger] windows[i].timers[k]).deadline.nanos by {
                if i < init.len() {
                    assert(init[i] == windows[i]);
                    assert(earliest_deadline(init) is Some);
                } else {
                    assert(windows[i] == w);
                    assert(w.timers[0].deadline.nanos <= w.timers[k].deadline.nanos);
                }
            }
            if w.timers.len() > 0 && e == Some(w.timers[0].deadline) {
                assert(windows[windows.len() - 1].timers.len() > 0);
            } else {
                let i = choose|i: int|
                    0 <= i < init.len() && (#[trigger] init[i]).timers.len() > 0 && init[i].timers[0].deadline
                        == t;
                assert(windows[i] == init[i]);
            }
            assert(exists|i: int|
                0 <= i < windows.len() && (#[trigger] windows[i]).timers.len() > 0 && windows[i].timers[0].deadline
                    == t);
            if forall|i: int| 0 <= i < windows.len() ==> (#[trigger] windows[i]).timers.len() == 0 {
                let i = choose|i: int|
                    0 <= i < windows.len() && (#[trigger] windows[i]).timers.len() > 0
                        && windows[i].timers[0].deadline == t;
                assert(windows[i].timers.len() == 0);
            }
        }
    }
}

/// What handling an event makes of the application, and what it asks for.
#[verifier::ext_equal]
pub struct Handled {
    pub view: ApplicationView,
    pub result: Result<OutcomeView, Error>,
}

impl ApplicationView {
    /// Every window is well formed, no two have the same id, and both
    /// counters are usable.
    pub open spec fn wf(self) -> bool {
        &&& forall|i: int| 0 <= i < self.windows.len() ==> (#[trigger] self.windows[i]).wf()
        &&& distinct_ids(self.windows)
        &&& self.next_timer_token > 0
        &&& self.next_text_field_token > 0
        &&& self.next_file_dialog_token > 0
    }

    /// The window `id`, if it is registered.
    pub open spec fn window(self, id: u32) -> Option<WindowView> {
        match index_of(self.windows, id) {
            Some(i) => Some(self.windows[i]),
            None => None,
        }
    }

    /// The state after the window `id` became `w`; the same state if no
    /// such window is registered.
    pub open spec fn with_window(self, id: u32, w: WindowView) -> ApplicationView {
        match index_of(self.windows, id) {
            Some(i) => ApplicationView { windows: self.windows.update(i, w), ..self },
            None => self,
        }
    }

    /// The state after the time of an event was taken note of: an event
    /// that the server made itself and that carries a time sets the newest
    /// time seen.
    pub open spec fn stamped(self, ev: Event) -> ApplicationView {
        ApplicationView {
            timestamp: if ev.server_generated && ev.kind.spec_time() is Some {
                ev.kind.spec_time()->Some_0
            } else {
                self.timestamp
            },
            ..self
        }
    }

    /// The devices that an input event names: the device itself and the
    /// device that the event came from, where the server knows them.
    pub open spec fn devices_of(self, kind: EventKind) -> (Option<DeviceInfo>, Option<DeviceInfo>) {
        match kind {
            EventKind::XinputButtonPress(ev) => (
                first_with_id(self.pointers, ev.deviceid),
                first_with_id(self.pointers, ev.sourceid),
            ),
            EventKind::XinputButtonRelease(ev) => (
                first_with_id(self.pointers, ev.deviceid),
                first_with_id(self.pointers, ev.sourceid),
            ),
            EventKind::XinputMotion(ev) => (
                first_with_id(self.pointers, ev.deviceid),
                first_with_id(self.pointers, ev.sourceid),
            ),
            _ => (None, None),
        }
    }

    /// An event is passed to the window `id`. If no such window is
    /// registered the event is an error and nothing changes.
    pub open spec fn to_window(self, kind: EventKind, id: u32) -> Handled {
        match index_of(self.windows, id) {
            None => Handled { view: self, result: Err(Error::NoWindow(id)) },
            Some(i) => {
                let devices = self.devices_of(kind);
                let d = self.windows[i].dispatch(kind, devices.0, devices.1, self.composing);
                Handled {
                    view: ApplicationView {
                        windows: self.windows.update(i, d.view),
                        composing: d.composing,
                        ..self
                    },
                    result: Ok(
                        OutcomeView {
                            quit: false,
                            delivery: d.delivery,
                            window: Some(id),
                            wake: d.wake,
                            actions: Seq::empty(),
                        },
                    ),
                }
            },
        }
    }

    /// The server destroyed the window `id`: its client is told and the
    /// window leaves the registry. If it was the last one and the
    /// application has been asked to quit, the application ends.
    pub open spec fn window_destroyed(self, kind: EventKind, id: u32) -> Handled {
        match index_of(self.windows, id) {
            None => Handled { view: self, result: Err(Error::NoWindow(id)) },
            Some(i) => {
                let d = self.windows[i].dispatch(kind, None, None, self.composing);
                let rest = self.windows.remove(i);
                Handled {
                    view: ApplicationView { windows: rest, ..self },
                    result: Ok(
                        OutcomeView {
                            quit: false,
                            delivery: d.delivery,
                            window: Some(id),
                            wake: false,
                            actions: if rest.len() == 0 && self.quitting {
                                finalize_actions(self.window_id)
                            } else {
                                Seq::empty()
                            },
                        },
                    ),
                }
            },
        }
    }

    /// What handling one event makes of the application.
    pub open spec fn handle_event(self, ev: Event) -> Handled {
        let s = self.stamped(ev);
        let done = |o: OutcomeView| Handled { view: s, result: Ok(o) };
        match ev.kind {
            EventKind::XkbStateNotify(m) => done(OutcomeView::only(seq![Action::UpdateKeyboard(m)])),
            EventKind::XinputHierarchy => done(OutcomeView::only(seq![Action::ReloadPointers])),
            EventKind::XinputDeviceChanged(reason) => if reason == ChangeReason::DeviceChange {
                done(OutcomeView::only(seq![Action::ReloadPointers]))
            } else {
                done(OutcomeView::nothing())
            },
            EventKind::SelectionClear(e) => done(OutcomeView::only(seq![Action::SelectionClear(e)])),
            EventKind::SelectionRequest(e) => done(OutcomeView::only(seq![Action::SelectionRequest(e)])),
            EventKind::PropertyNotify(e) => done(OutcomeView::only(seq![Action::PropertyNotify(e)])),
            EventKind::Error(code) => Handled { view: s, result: Err(Error::Request(code)) },
            EventKind::DestroyNotify(e) => if e.window == s.window_id {
                done(OutcomeView { quit: true, ..OutcomeView::nothing() })
            } else {
                s.window_destroyed(ev.kind, e.window)
            },
            EventKind::ConfigureNotify(e) => if e.window == s.window_id {
                done(OutcomeView::nothing())
            } else {
                s.to_window(ev.kind, e.window)
            },
            _ => match ev.kind.spec_target() {
                Some(id) => s.to_window(ev.kind, id),
                None => done(OutcomeView::nothing()),
            },
        }
    }
}

/// An X11 application: its windows and what the loop needs to know
/// between two events.
#[derive(Clone, Debug, PartialEq, Eq)]
pub struct Application {
    windows: Vec<Window>,
    quitting: bool,
    window_id: u32,
    timestamp: u32,
    xkb_state: KeyEventsState,
    pointers: PointersState,
    cursors: Cursors,
    timer_tokens: Counter,
    text_field_tokens: Counter,
    file_dialog_tokens: Counter,
    screen_num: usize,
    screen: Screen,
    root_visual_type: Visualtype,
    argb_visual_type: Option<Visualtype>,
    render_argb32_pictformat_cursor: Option<u32>,
}

/// The views of `windows`, in order.
pub open spec fn views(windows: Seq<Window>) -> Seq<WindowView> {
    Seq::new(windows.len(), |i: int| windows[i]@)
}

impl View for Application {
    type V = ApplicationView;

    closed spec fn view(&self) -> ApplicationView {
        ApplicationView {
            windows: views(self.windows@),
            quitting: self.quitting,
            window_id: self.window_id,
            timestamp: self.timestamp,
            composing: self.xkb_state.spec_is_composing(),
            pointers: self.pointers.spec_devices(),
            next_timer_token: self.timer_tokens.peek(),
            next_text_field_token: self.text_field_tokens.peek(),
            next_file_dialog_token: self.file_dialog_tokens.peek(),
        }
    }
}

impl Application {
    /// Every window is well formed and no two have the same id.
    pub open spec fn wf(&self) -> bool {
        self@.wf()
    }

    /// The cursors that the server loaded.
    pub closed spec fn spec_cursors(&self) -> Cursors {
        self.cursors
    }

    /// The number of the screen in use.
    pub closed spec fn spec_screen_num(&self) -> usize {
        self.screen_num
    }

    /// The screen in use.
    pub closed spec fn spec_screen(&self) -> Screen {
        self.screen
    }

    /// The visual of the root window.
    pub closed spec fn spec_root_visual_type(&self) -> Visualtype {
        self.root_visual_type
    }

    /// The visual with an alpha channel, where the screen has one.
    pub closed spec fn spec_argb_visual_type(&self) -> Option<Visualtype> {
        self.argb_visual_type
    }

    /// The picture format for cursors, where the server can make cursors.
    pub closed spec fn spec_render_argb32_pictformat_cursor(&self) -> Option<u32> {
        self.render_argb32_pictformat_cursor
    }

    /// Whether everything but the windows, the time and the composition is
    /// the same in `self` and `other`.
    pub open spec fn same_settings(&self, other: &Application) -> bool {
        &&& self.spec_cursors() == other.spec_cursors()
        &&& self.spec_screen_num() == other.spec_screen_num()
        &&& self.spec_screen() == other.spec_screen()
        &&& self.spec_root_visual_type() == other.spec_root_visual_type()
        &&& self.spec_argb_visual_type() == other.spec_argb_visual_type()
        &&& self.spec_render_argb32_pictformat_cursor() == other.spec_render_argb32_pictformat_cursor()
    }

    /// The application that a connection setup describes: without windows,
    /// not quitting. It fails if the display lacks the screen asked for, or
    /// if the screen does not list the visual of its root window.
    pub fn new(setup: Setup) -> (r: Result<Application, Error>)
        ensures
            setup.screen_num >= setup.screens@.len() ==> r == Err::<Application, Error>(
                Error::InvalidScreen(setup.screen_num),
            ),
            setup.screen_num < setup.screens@.len() && setup.screens@[setup.screen_num as int].root_visual
                is None ==> r == Err::<Application, Error>(Error::NoVisual),
            setup.screen_num < setup.screens@.len() && setup.screens@[setup.screen_num as int].root_visual
                is Some ==> {
                &&& r matches Ok(app)
                &&& app.wf()
                &&& app@ == (ApplicationView {
                    windows: Seq::empty(),
                    quitting: false,
                    window_id: setup.window_id,
                    timestamp: 0,
                    composing: false,
                    pointers: setup.pointers@,
                    next_timer_token: 1,
                    next_text_field_token: 1,
                    next_file_dialog_token: 1,
                })
                &&& app.spec_cursors() == setup.cursors
                &&& app.spec_screen_num() == setup.screen_num
                &&& app.spec_screen() == setup.screens@[setup.screen_num as int]
                &&& app.spec_root_visual_type() == setup.screens@[setup.screen_num as int].root_visual->Some_0
                &&& app.spec_argb_visual_type() == setup.screens@[setup.screen_num as int].argb_visual
                &&& app.spec_render_argb32_pictformat_cursor() == if spec_render_cursor_supported(
                    setup.render_version,
                ) {
                    spec_find_argb32(setup.pict_formats@)
                } else {
                    None
                }
            },
    {
        if setup.screen_num >= setup.screens.len() {
            return Err(Error::InvalidScreen(setup.screen_num));
        }
        let screen = setup.screens[setup.screen_num];
        let root_visual_type = match screen.root_visual {
            Some(v) => v,
            None => {
                return Err(Error::NoVisual);
            },
        };
        let render_argb32_pictformat_cursor = if render_cursor_supported(setup.render_version) {
            find_argb32(&setup.pict_formats)
        } else {
            None
        };
        let app = Application {
            windows: Vec::new(),
            quitting: false,
            window_id: setup.window_id,
            timestamp: 0,
            xkb_state: KeyEventsState::new(),
            pointers: PointersState::new(setup.pointers),
            cursors: setup.cursors,
            timer_tokens: Counter::new(),
            text_field_tokens: Counter::new(),
            file_dialog_tokens: Counter::new(),
            screen_num: setup.screen_num,
            screen,
            root_visual_type,
            argb_visual_type: screen.argb_visual,
            render_argb32_pictformat_cursor,
        };
        assert(app@.windows =~= Seq::empty());
        Ok(app)
    }

    /// The request that makes the application's own window: an input-only
    /// window of one pixel under the root of `screen`.
    pub fn create_event_window(id: u32, screen: &Screen) -> (r: Request)
        ensures
            r == (Request::CreateEventWindow { window: id, parent: screen.root }),
    {
        Request::CreateEventWindow { window: id, parent: screen.root }
    }

    /// The picture format for cursors, where the server can make cursors.
    pub fn render_argb32_pictformat_cursor(&self) -> (f: Option<u32>)
        ensures
            f == self.spec_render_argb32_pictformat_cursor(),
    {
        self.render_argb32_pictformat_cursor
    }

    /// The number of the screen in use.
    pub fn screen_num(&self) -> (n: usize)
        ensures
            n == self.spec_screen_num(),
    {
        self.screen_num
    }

    /// The screen in use.
    pub fn screen(&self) -> (s: Screen)
        ensures
            s == self.spec_screen(),
    {
        self.screen
    }

    /// The visual of the root window.
    pub fn root_visual_type(&self) -> (v: Visualtype)
        ensures
            v == self.spec_root_visual_type(),
    {
        self.root_visual_type
    }

    /// The cursors that the server loaded.
    pub fn cursors(&self) -> (c: Cursors)
        ensures
            c == self.spec_cursors(),
    {
        self.cursors
    }

    /// The visual for windows with a transparent background. There is none
    /// while no compositing manager runs: `selection_owner` is the owner of
    /// the compositing manager's selection as the server reports it, and
    /// zero stands for no owner.
    pub fn argb_visual_type(&self, selection_owner: Option<u32>) -> (v: Option<Visualtype>)
        ensures
            v == if selection_owner == Some(0u32) {
                None
            } else {
                self.spec_argb_visual_type()
            },
    {
        match selection_owner {
            Some(0) => None,
            _ => self.argb_visual_type,
        }
    }

    /// The device with the given id, where the server knows it.
    pub fn pointer_device(&self, id: u16) -> (d: Option<DeviceInfo>)
        ensures
            d == first_with_id(self@.pointers, id),
    {
        self.pointers.device_info(id)
    }

    /// Takes the devices that the server reported anew.
    pub fn reinitialize_pointers(&mut self, devices: Vec<DeviceInfo>)
        ensures
            final(self)@ == (ApplicationView { pointers: devices@, ..old(self)@ }),
            final(self).same_settings(old(self)),
    {
        self.pointers = PointersState::new(devices);
    }

    /// The newest server time seen.
    pub fn timestamp(&self) -> (t: u32)
        ensures
            t == self@.timestamp,
    {
        self.timestamp
    }

    /// Whether the application has been asked to quit.
    pub fn quitting(&self) -> (b: bool)
        ensures
            b == self@.quitting,
    {
        self.quitting
    }

    /// The number of registered windows.
    pub fn window_count(&self) -> (n: usize)
        ensures
            n == self@.windows.len(),
    {
        self.windows.len()
    }

    /// Records whether the last key fed to a text field left a composition
    /// under way.
    pub fn set_composing(&mut self, composing: bool)
        ensures
            final(self)@ == (ApplicationView { composing, ..old(self)@ }),
            final(self).same_settings(old(self)),
    {
        self.xkb_state.set_composing(composing);
    }

    /// Whether every window is well formed, no two have the same id, and
    /// the counters are usable.
    pub fn is_well_formed(&self) -> (b: bool)
        ensures
            b == self.wf(),
    {
        if self.timer_tokens.is_zero() || self.text_field_tokens.is_zero() || self.file_dialog_tokens.is_zero() {
            return false;
        }
        let n = self.windows.len();
        let mut i: usize = 0;
        while i < n
            invariant
                0 <= i <= n,
                n == self.windows.len(),
                forall|k: int| 0 <= k < i ==> (#[trigger] self@.windows[k]).wf(),
                forall|a: int, b: int| 0 <= a < b < i ==> self@.windows[a].id != self@.windows[b].id,
            decreases n - i,
        {
            assert(self@.windows[i as int] == self.windows@[i as int]@);
            if !self.windows[i].is_well_formed() {
                return false;
            }
            let id = self.windows[i].id();
            let mut k: usize = 0;
            while k < i
                invariant
                    0 <= k <= i < n,
                    n == self.windows.len(),
                    id == self@.windows[i as int].id,
                    forall|a: int| 0 <= a < k ==> (#[trigger] self@.windows[a]).id != id,
                decreases i - k,
            {
                assert(self@.windows[k as int] == self.windows@[k as int]@);
                if self.windows[k].id() == id {
                    return false;
                }
                k += 1;
            }
            i += 1;
        }
        true
    }

    /// The place of the window `id` in the registry, if it is registered.
    pub fn find(&self, id: u32) -> (r: Option<usize>)
        ensures
            r is None <==> index_of(self@.windows, id) is None,
            r matches Some(i) ==> index_of(self@.windows, id) == Some(i as int) && i < self@.windows.len()
                && self@.windows[i as int].id == id,
    {
        let mut i: usize = self.windows.len();
        assert(self@.windows.take(i as int) == self@.windows);
        while i > 0
            invariant
                0 <= i <= self.windows.len(),
                index_of(self@.windows, id) == index_of(self@.windows.take(i as int), id),
            decreases i,
        {
            i -= 1;
            proof {
                assert(self@.windows.take(i as int + 1).drop_last() == self@.windows.take(i as int));
                assert(self@.windows.take(i as int + 1).last() == self@.windows[i as int]);
                assert(self@.windows[i as int] == self.windows@[i as int]@);
            }
            if self.windows[i].id() == id {
                return Some(i);
            }
        }
        None
    }

    /// The window `id`, or the error that no such window is registered.
    pub fn window(&self, id: u32) -> (r: Result<&Window, Error>)
        ensures
            index_of(self@.windows, id) is None ==> r == Err::<&Window, Error>(Error::NoWindow(id)),
            index_of(self@.windows, id) matches Some(i) ==> (r matches Ok(w) && w@ == self@.windows[i]),
    {
        match self.find(id) {
            Some(i) => Ok(&self.windows[i]),
            None => Err(Error::NoWindow(id)),
        }
    }

    /// The window at place `i` of the registry, for changing it.
    pub fn window_mut(&mut self, i: usize) -> (w: &mut Window)
        requires
            i < old(self)@.windows.len(),
        ensures
            w@ == old(self)@.windows[i as int],
            final(self)@ == (ApplicationView {
                windows: old(self)@.windows.update(i as int, final(w)@),
                ..old(self)@
            }),
            final(self).same_settings(old(self)),
    {
        proof {
            assert(old(self)@.windows[i as int] == old(self).windows@[i as int]@);
        }
        let w = &mut self.windows[i];
        proof {
            assert(views(old(self).windows@.update(i as int, *final(w))) =~= old(self)@.windows.update(
                i as int,
                final(w)@,
            ));
        }
        w
    }

    /// Asks for a timer of the window `id` that fires at `deadline`, and
    /// returns the token that will name it. Where no such window is
    /// registered, or the tokens are used up, no timer is set and the token
    /// is the invalid one.
    pub fn request_timer(&mut self, id: u32, deadline: Instant) -> (token: crate::window::TimerToken)
        requires
            old(self).wf(),
        ensures
            final(self).wf(),
            final(self).same_settings(old(self)),
            old(self)@.window(id) is None || old(self)@.next_timer_token == u64::MAX ==> token
                == crate::window::TimerToken(0) && final(self)@ == old(self)@,
            old(self)@.window(id) is Some && old(self)@.next_timer_token < u64::MAX ==> {
                let w = old(self)@.window(id)->Some_0;
                &&& token == crate::window::TimerToken(old(self)@.next_timer_token)
                &&& final(self)@ == (ApplicationView {
                    next_timer_token: (old(self)@.next_timer_token + 1) as u64,
                    ..old(self)@.with_window(
                        id,
                        WindowView {
                            timers: w.timers.insert(
                                crate::timer::TimerQueue::insertion_index(w.timers, deadline),
                                crate::timer::Timer { deadline, token },
                            ),
                            ..w
                        },
                    )
                })
            },
    {
        let ghost s = self@;
        match self.find(id) {
            Some(i) => {
                assert(s.windows[i as int] == self.windows@[i as int]@);
                let token = self.windows[i].request_timer(deadline, &mut self.timer_tokens);
                assert(self@.windows =~= s.windows.update(i as int, self.windows@[i as int]@));
                token
            },
            None => crate::window::TimerToken::invalid(),
        }
    }

    /// A fresh token for a text field; the invalid one once the tokens are
    /// used up.
    pub fn add_text_field(&mut self) -> (token: crate::window::TextFieldToken)
        ensures
            final(self).same_settings(old(self)),
            old(self)@.next_text_field_token < u64::MAX ==> token == crate::window::TextFieldToken(
                old(self)@.next_text_field_token,
            ) && final(self)@ == (ApplicationView {
                next_text_field_token: (old(self)@.next_text_field_token + 1) as u64,
                ..old(self)@
            }),
            old(self)@.next_text_field_token == u64::MAX ==> token == crate::window::TextFieldToken(0)
                && final(self)@ == old(self)@,
    {
        match self.text_field_tokens.next() {
            Some(id) => crate::window::TextFieldToken(id),
            None => crate::window::TextFieldToken::invalid(),
        }
    }

    /// A fresh token for a file dialog, or `None` once the tokens are used up.
    pub fn next_file_dialog_token(&mut self) -> (token: Option<crate::window::FileDialogToken>)
        ensures
            final(self).same_settings(old(self)),
            old(self)@.next_file_dialog_token < u64::MAX ==> token == Some(
                crate::window::FileDialogToken(old(self)@.next_file_dialog_token),
            ) && final(self)@ == (ApplicationView {
                next_file_dialog_token: (old(self)@.next_file_dialog_token + 1) as u64,
                ..old(self)@
            }),
            old(self)@.next_file_dialog_token == u64::MAX ==> token is None && final(self)@ == old(self)@,
    {
        match self.file_dialog_tokens.next() {
            Some(id) => Some(crate::window::FileDialogToken(id)),
            None => None,
        }
    }

    /// What follows a key press that the client of the window `id` did not
    /// handle: the calls of a change of text field, and where a text field
    /// has the focus, the calls that feed the key to it. The calls belong to
    /// the activation that the key press started. Nothing follows if the
    /// window is gone.
    pub fn key_down_unhandled(&mut self, id: u32, event: crate::keyboard::KeyEvent) -> (calls: Vec<
        crate::handler::HandlerCall,
    >)
        requires
            old(self).wf(),
        ensures
            final(self).wf(),
            final(self).same_settings(old(self)),
            old(self)@.window(id) is None ==> calls@.len() == 0 && final(self)@ == old(self)@,
            old(self)@.window(id) matches Some(w) ==> {
                let reset = w.reset_text_fields(old(self)@.composing);
                &&& calls@ == w.key_down_calls(old(self)@.composing, event)
                &&& final(self)@ == (ApplicationView {
                    composing: reset.composing,
                    ..old(self)@.with_window(id, reset.view)
                })
            },
    {
        let ghost s = self@;
        match self.find(id) {
            Some(i) => {
                assert(s.windows[i as int] == self.windows@[i as int]@);
                let calls = self.windows[i].key_down_unhandled(event, &mut self.xkb_state);
                assert(self@.windows =~= s.windows.update(i as int, self.windows@[i as int]@));
                calls
            },
            None => Vec::new(),
        }
    }

    /// Registers `window`. A window with the same id that is registered
    /// already is replaced.
    pub fn add_window(&mut self, window: Window)
        requires
            old(self).wf(),
            window.wf(),
        ensures
            final(self).wf(),
            final(self).same_settings(old(self)),
            final(self)@ == (ApplicationView {
                windows: match index_of(old(self)@.windows, window@.id) {
                    Some(i) => old(self)@.windows.update(i, window@),
                    None => old(self)@.windows.push(window@),
                },
                ..old(self)@
            }),
    {
        proof {
            lemma_index_of(self@.windows, window@.id);
        }
        let ghost before = self@.windows;
        match self.find(window.id()) {
            Some(i) => {
                self.windows.set(i, window);
                assert(self@.windows =~= before.update(i as int, window@));
            },
            None => {
                self.windows.push(window);
                assert(self@.windows =~= before.push(window@));
            },
        }
    }

    /// Takes the window `id` out of the registry, if it is there, and
    /// returns the number of windows left.
    pub fn remove_window(&mut self, id: u32) -> (left: usize)
        requires
            old(self).wf(),
        ensures
            final(self).wf(),
            final(self).same_settings(old(self)),
            final(self)@ == (ApplicationView {
                windows: match index_of(old(self)@.windows, id) {
                    Some(i) => old(self)@.windows.remove(i),
                    None => old(self)@.windows,
                },
                ..old(self)@
            }),
            left == final(self)@.windows.len(),
    {
        let ghost before = self@.windows;
        match self.find(id) {
            Some(i) => {
                let _ = self.windows.remove(i);
                assert(self@.windows =~= before.remove(i as int));
            },
            None => {},
        }
        self.windows.len()
    }

    /// Ends the application: its own window is destroyed and the pipe that
    /// wakes the loop is closed.
    pub fn finalize_quit(&self) -> (actions: Vec<Action>)
        ensures
            actions@ == finalize_actions(self@.window_id),
    {
        let mut actions: Vec<Action> = Vec::new();
        actions.push(Action::Send(Request::DestroyWindow(self.window_id)));
        actions.push(Action::CloseIdlePipe);
        assert(actions@ =~= finalize_actions(self@.window_id));
        actions
    }
}

/// The requests that destroy the windows of `windows` which are not being
/// destroyed yet, in order.
pub open spec fn destroy_actions(windows: Seq<WindowView>) -> Seq<Action>
    decreases windows.len(),
{
    if windows.len() == 0 {
        Seq::empty()
    } else {
        let head = destroy_actions(windows.drop_last());
        if windows.last().destroyed {
            head
        } else {
            head.push(Action::Send(Request::DestroyWindow(windows.last().id)))
        }
    }
}

/// `windows` with every window marked as being destroyed.
pub open spec fn all_destroyed(windows: Seq<WindowView>) -> Seq<WindowView> {
    Seq::new(windows.len(), |i: int| WindowView { destroyed: true, ..windows[i] })
}

/// `windows` after the timers that are due at `now` fired in each.
pub open spec fn timers_run(windows: Seq<WindowView>, now: Instant) -> Seq<WindowView> {
    Seq::new(windows.len(), |i: int| windows[i].run_timers(now).view)
}

/// `windows` after the deferred work of each ran.
pub open spec fn idle_run(windows: Seq<WindowView>) -> Seq<WindowView> {
    Seq::new(windows.len(), |i: int| windows[i].run_idle().view)
}

impl Application {
    /// Handles one event from the server. An event for a window that is
    /// not registered, which happens when events and the destruction of a
    /// window cross, is an error that changes nothing but the newest time
    /// seen; so is an error report of the server. No error ends the loop.
    pub fn handle_event(&mut self, ev: &Event) -> (r: Result<Outcome, Error>)
        requires
            old(self).wf(),
        ensures
            final(self).wf(),
            final(self).same_settings(old(self)),
            final(self)@ == old(self)@.handle_event(*ev).view,
            match old(self)@.handle_event(*ev).result {
                Ok(o) => r matches Ok(out) && out@ == o,
                Err(e) => r == Err::<Outcome, Error>(e),
            },
    {
        if ev.server_generated {
            match ev.kind.time() {
                Some(t) => {
                    self.timestamp = t;
                },
                None => {},
            }
        }
        let ghost s = self@;
        assert(s == old(self)@.stamped(*ev));
        match &ev.kind {
            EventKind::XkbStateNotify(m) => Ok(Application::only(Action::UpdateKeyboard(*m))),
            EventKind::XinputHierarchy => Ok(Application::only(Action::ReloadPointers)),
            EventKind::XinputDeviceChanged(reason) => match reason {
                ChangeReason::DeviceChange => Ok(Application::only(Action::ReloadPointers)),
                ChangeReason::SlaveSwitch => Ok(Application::nothing()),
            },
            EventKind::SelectionClear(e) => Ok(Application::only(Action::SelectionClear(*e))),
            EventKind::SelectionRequest(e) => Ok(Application::only(Action::SelectionRequest(*e))),
            EventKind::PropertyNotify(e) => Ok(Application::only(Action::PropertyNotify(*e))),
            EventKind::Error(code) => Err(Error::Request(*code)),
            EventKind::DestroyNotify(e) => {
                if e.window == self.window_id {
                    let mut out = Application::nothing();
                    out.quit = true;
                    Ok(out)
                } else {
                    match self.find(e.window) {
                        None => Err(Error::NoWindow(e.window)),
                        Some(i) => {
                            let mut w = self.windows.remove(i);
                            let (delivery, _) = w.dispatch(&ev.kind, None, None, &mut self.xkb_state);
                            assert(self@.windows =~= s.windows.remove(i as int));
                            let actions = if self.windows.len() == 0 && self.quitting {
                                self.finalize_quit()
                            } else {
                                Vec::new()
                            };
                            Ok(Outcome { quit: false, delivery, window: Some(e.window), wake: false, actions })
                        },
                    }
                }
            },
            EventKind::ConfigureNotify(e) => {
                if e.window == self.window_id {
                    Ok(Application::nothing())
                } else {
                    self.to_window(&ev.kind, e.window)
                }
            },
            _ => match ev.kind.target() {
                Some(id) => self.to_window(&ev.kind, id),
                None => Ok(Application::nothing()),
            },
        }
    }

    /// Passes an event to the window `id`.
    pub fn to_window(&mut self, kind: &EventKind, id: u32) -> (r: Result<Outcome, Error>)
        requires
            old(self).wf(),
        ensures
            final(self).wf(),
            final(self).same_settings(old(self)),
            final(self)@ == old(self)@.to_window(*kind, id).view,
            match old(self)@.to_window(*kind, id).result {
                Ok(o) => r matches Ok(out) && out@ == o,
                Err(e) => r == Err::<Outcome, Error>(e),
            },
    {
        let ghost s = self@;
        match self.find(id) {
            None => Err(Error::NoWindow(id)),
            Some(i) => {
                let (device, src) = match kind {
                    EventKind::XinputButtonPress(ev) => (
                        self.pointers.device_info(ev.deviceid),
                        self.pointers.device_info(ev.sourceid),
                    ),
                    EventKind::XinputButtonRelease(ev) => (
                        self.pointers.device_info(ev.deviceid),
                        self.pointers.device_info(ev.sourceid),
                    ),
                    EventKind::XinputMotion(ev) => (
                        self.pointers.device_info(ev.deviceid),
                        self.pointers.device_info(ev.sourceid),
                    ),
                    _ => (None, None),
                };
                let ghost before = self.windows@[i as int]@;
                assert(before == s.windows[i as int]);
                let (delivery, wake) = self.windows[i].dispatch(kind, device, src, &mut self.xkb_state);
                proof {
                    Application::lemma_dispatch_keeps_id(before, *kind, device, src, s.composing);
                }
                assert(self@.windows =~= s.windows.update(i as int, self.windows@[i as int]@));
                Ok(Outcome { quit: false, delivery, window: Some(id), wake, actions: Vec::new() })
            },
        }
    }

    /// No event changes the id of a window.
    pub proof fn lemma_dispatch_keeps_id(
        w: WindowView,
        kind: EventKind,
        device: Option<DeviceInfo>,
        src: Option<DeviceInfo>,
        composing: bool,
    )
        ensures
            w.dispatch(kind, device, src, composing).view.id == w.id,
    {
    }

    /// The outcome that asks for nothing.
    pub fn nothing() -> (o: Outcome)
        ensures
            o@ == OutcomeView::nothing(),
    {
        Outcome { quit: false, delivery: Delivery::Nothing, window: None, wake: false, actions: Vec::new() }
    }

    /// The outcome that asks for one action.
    pub fn only(action: Action) -> (o: Outcome)
        ensures
            o@ == OutcomeView::only(seq![action]),
    {
        let mut actions: Vec<Action> = Vec::new();
        actions.push(action);
        assert(actions@ =~= seq![action]);
        Outcome { quit: false, delivery: Delivery::Nothing, window: None, wake: false, actions }
    }

    /// Asks the application to quit. The first call ends the application
    /// at once if it has no windows, and otherwise starts the destruction
    /// of every window; the application then ends when the last window is
    /// gone. Every later call does nothing.
    pub fn quit(&mut self) -> (actions: Vec<Action>)
        requires
            old(self).wf(),
        ensures
            final(self).wf(),
            final(self).same_settings(old(self)),
            old(self)@.quitting ==> actions@.len() == 0 && final(self)@ == old(self)@,
            !old(self)@.quitting && old(self)@.windows.len() == 0 ==> actions@ == finalize_actions(
                old(self)@.window_id,
            ) && final(self)@ == (ApplicationView { quitting: true, ..old(self)@ }),
            !old(self)@.quitting && old(self)@.windows.len() > 0 ==> actions@ == destroy_actions(
                old(self)@.windows,
            ) && final(self)@ == (ApplicationView {
                quitting: true,
                windows: all_destroyed(old(self)@.windows),
                ..old(self)@
            }),
    {
        let mut actions: Vec<Action> = Vec::new();
        if self.quitting {
            return actions;
        }
        self.quitting = true;
        if self.windows.len() == 0 {
            return self.finalize_quit();
        }
        let ghost before = old(self)@.windows;
        let ghost snap = *self;
        let n = self.windows.len();
        let mut i: usize = 0;
        while i < n
            invariant
                0 <= i <= n,
                n == self.windows.len(),
                n == before.len(),
                *self == (Application { windows: self.windows, ..snap }),
                forall|k: int| 0 <= k < i ==> (#[trigger] self.windows@[k])@ == (WindowView {
                    destroyed: true,
                    ..before[k]
                }),
                forall|k: int| i <= k < n ==> (#[trigger] self.windows@[k])@ == before[k],
                actions@ == destroy_actions(before.take(i as int)),
            decreases n - i,
        {
            proof {
                assert(before.take(i as int + 1).drop_last() == before.take(i as int));
                assert(before.take(i as int + 1).last() == before[i as int]);
            }
            match self.windows[i].destroy() {
                Some(r) => {
                    actions.push(Action::Send(r));
                },
                None => {},
            }
            i += 1;
        }
        assert(before.take(n as int) == before);
        assert(self@.windows =~= all_destroyed(before));
        assert(self@.wf()) by {
            assert forall|k: int| 0 <= k < self@.windows.len() implies (#[trigger] self@.windows[k]).wf() by {
                assert(before[k].wf());
            }
        }
        actions
    }

    /// When the next timer of any window is due, if any window has a timer.
    pub fn next_timeout(&self) -> (t: Option<Instant>)
        requires
            self.wf(),
        ensures
            t == earliest_deadline(self@.windows),
    {
        let mut best: Option<Instant> = None;
        let mut i: usize = 0;
        while i < self.windows.len()
            invariant
                0 <= i <= self.windows.len(),
                best == earliest_deadline(self@.windows.take(i as int)),
            decreases self.windows.len() - i,
        {
            proof {
                assert(self@.windows.take(i as int + 1).drop_last() == self@.windows.take(i as int));
                assert(self@.windows.take(i as int + 1).last() == self.windows@[i as int]@);
            }
            match self.windows[i].next_timeout() {
                Some(d) => {
                    best = match best {
                        Some(t) => if t.nanos <= d.nanos {
                            Some(t)
                        } else {
                            Some(d)
                        },
                        None => Some(d),
                    };
                },
                None => {},
            }
            i += 1;
        }
        assert(self@.windows.take(i as int) == self@.windows);
        best
    }

    /// Fires the timers that are due at `now` in every window, in the
    /// order of the registry. Returns, for each window with a timer that
    /// fired, its id and the calls for its client.
    pub fn run_timers(&mut self, now: Instant) -> (r: Vec<(u32, Delivery)>)
        requires
            old(self).wf(),
        ensures
            final(self).wf(),
            final(self).same_settings(old(self)),
            final(self)@ == (ApplicationView { windows: timers_run(old(self)@.windows, now), ..old(self)@ }),
            r@.len() == old(self)@.windows.len(),
            forall|i: int|
                0 <= i < r@.len() ==> (#[trigger] r@[i]).0 == old(self)@.windows[i].id && r@[i].1@ == old(
                    self,
                )@.windows[i].run_timers(now).delivery,
    {
        let ghost before = old(self)@.windows;
        let mut out: Vec<(u32, Delivery)> = Vec::new();
        let ghost snap = *self;
        let n = self.windows.len();
        let mut i: usize = 0;
        assert forall|k: int| 0 <= k < n implies (#[trigger] self.windows@[k]).wf() by {
            assert(self@.windows[k] == self.windows@[k]@);
        }
        while i < n
            invariant
                0 <= i <= n,
                n == self.windows.len(),
                n == before.len(),
                *self == (Application { windows: self.windows, ..snap }),
                forall|k: int| 0 <= k < before.len() ==> (#[trigger] before[k]).wf(),
                forall|k: int| 0 <= k < n ==> (#[trigger] self.windows@[k]).wf(),
                forall|k: int| 0 <= k < n ==> (#[trigger] self.windows@[k])@.id == before[k].id,
                out@.len() == i,
                forall|k: int| 0 <= k < i ==> (#[trigger] self.windows@[k])@ == before[k].run_timers(now).view,
                forall|k: int| i <= k < n ==> (#[trigger] self.windows@[k])@ == before[k],
                forall|k: int|
                    0 <= k < i ==> (#[trigger] out@[k]).0 == before[k].id && out@[k].1@ == before[k].run_timers(
                        now,
                    ).delivery,
            decreases n - i,
        {
            let id = self.windows[i].id();
            let d = self.windows[i].run_timers(now);
            out.push((id, d));
            i += 1;
        }
        assert(self@.windows =~= timers_run(before, now));
        assert(self@.wf()) by {
            assert forall|k: int| 0 <= k < self@.windows.len() implies (#[trigger] self@.windows[k]).wf() by {
                assert(self.windows@[k].wf());
            }
            assert forall|a: int, b: int| 0 <= a < b < self@.windows.len() implies self@.windows[a].id
                != self@.windows[b].id by {
                assert(self.windows@[a]@.id == before[a].id);
                assert(self.windows@[b]@.id == before[b].id);
            }
        }
        out
    }

    /// Runs the deferred work of every window, in the order of the
    /// registry. Returns, for each window, its id and what its idle run
    /// asks for.
    pub fn run_idle(&mut self) -> (r: Vec<(u32, IdleRun)>)
        requires
            old(self).wf(),
        ensures
            final(self).wf(),
            final(self).same_settings(old(self)),
            final(self)@ == (ApplicationView { windows: idle_run(old(self)@.windows), ..old(self)@ }),
            r@.len() == old(self)@.windows.len(),
            forall|i: int|
                0 <= i < r@.len() ==> {
                    &&& (#[trigger] r@[i]).0 == old(self)@.windows[i].id
                    &&& r@[i].1.delivery@ == old(self)@.windows[i].run_idle().delivery
                    &&& r@[i].1.needs_redraw == (!old(self)@.windows[i].handler_active
                        && crate::backend::x11::window::has_redraw(old(self)@.windows[i].idle))
                },
    {
        let ghost before = old(self)@.windows;
        let mut out: Vec<(u32, IdleRun)> = Vec::new();
        let ghost snap = *self;
        let n = self.windows.len();
        let mut i: usize = 0;
        while i < n
            invariant
                0 <= i <= n,
                n == self.windows.len(),
                n == before.len(),
                *self == (Application { windows: self.windows, ..snap }),
                out@.len() == i,
                forall|k: int| 0 <= k < i ==> (#[trigger] self.windows@[k])@ == before[k].run_idle().view,
                forall|k: int| i <= k < n ==> (#[trigger] self.windows@[k])@ == before[k],
                forall|k: int|
                    0 <= k < i ==> {
                        &&& (#[trigger] out@[k]).0 == before[k].id
                        &&& out@[k].1.delivery@ == before[k].run_idle().delivery
                        &&& out@[k].1.needs_redraw == (!before[k].handler_active
                            && crate::backend::x11::window::has_redraw(before[k].idle))
                    },
            decreases n - i,
        {
            let id = self.windows[i].id();
            let run = self.windows[i].run_idle();
            out.push((id, run));
            i += 1;
        }
        assert(self@.windows =~= idle_run(before));
        assert(self@.wf()) by {
            assert forall|k: int| 0 <= k < self@.windows.len() implies (#[trigger] self@.windows[k]).wf() by {
                assert(before[k].wf());
            }
        }
        out
    }
}

/// `a + b`, or the largest instant where that is out of range.
pub open spec fn instant_after(a: Instant, nanos: u64) -> Instant {
    if a.nanos + nanos > u64::MAX {
        Instant { nanos: u64::MAX }
    } else {
        Instant { nanos: (a.nanos + nanos) as u64 }
    }
}

/// The time between two idle runs for a display that refreshes
/// `refresh_rate` times in a thousand seconds: the whole milliseconds of
/// one frame, and sixteen where the rate is not known.
pub open spec fn spec_idle_interval_millis(refresh_rate: Option<u32>) -> u64 {
    match refresh_rate {
        Some(r) => (1_000_000int / (r as int)) as u64,
        None => 16,
    }
}

/// The time between two idle runs, in milliseconds.
pub fn idle_interval_millis(refresh_rate: Option<u32>) -> (ms: u64)
    requires
        refresh_rate != Some(0u32),
    ensures
        ms == spec_idle_interval_millis(refresh_rate),
{
    match refresh_rate {
        Some(r) => 1_000_000u64 / (r as u64),
        None => 16,
    }
}

/// When the loop must wake next at the latest.
#[derive(Clone, Copy, Debug, PartialEq, Eq, Structural)]
pub struct WaitPlan {
    /// When the earliest timer is due, if there is a timer.
    pub next_timeout: Option<Instant>,
    /// When the next idle run is due.
    pub next_idle_time: Instant,
}

/// What is due after the events of one round have been handled.
#[derive(Clone, Copy, Debug, PartialEq, Eq, Structural)]
pub struct Due {
    /// Whether timers are to be fired.
    pub timers: bool,
    /// Whether the wake signal is to be drained and the deferred work run.
    pub idle: bool,
}

/// What the loop keeps from one round to the next: when it last ran the
/// deferred work, and how long it leaves between two such runs. Everything
/// else is worked out anew in every round.
#[derive(Clone, Copy, Debug, PartialEq, Eq, Structural)]
pub struct EventLoop {
    pub last_idle_time: Instant,
    /// The time between two idle runs, in nanoseconds.
    pub interval: u64,
}

impl EventLoop {
    /// A loop that starts at `now`, for a display that refreshes
    /// `refresh_rate` times in a thousand seconds.
    pub fn new(now: Instant, refresh_rate: Option<u32>) -> (l: EventLoop)
        requires
            refresh_rate != Some(0u32),
        ensures
            l.last_idle_time == now,
            l.interval == spec_idle_interval_millis(refresh_rate) * 1_000_000,
    {
        let ms = idle_interval_millis(refresh_rate);
        assert(ms <= 1_000_000) by {
            if refresh_rate is Some {
                crate::fixed::lemma_div_magnitude(1_000_000, refresh_rate->Some_0 as int);
            }
        }
        EventLoop { last_idle_time: now, interval: ms * 1_000_000 }
    }

    /// When the next idle run is due.
    pub fn next_idle_time(&self) -> (t: Instant)
        ensures
            t == instant_after(self.last_idle_time, self.interval),
    {
        match self.last_idle_time.nanos.checked_add(self.interval) {
            Some(n) => Instant { nanos: n },
            None => Instant { nanos: u64::MAX },
        }
    }

    /// Works out when the loop must wake next: at the earliest timer of
    /// any window, and at the next idle run.
    pub fn plan(&self, app: &Application) -> (p: WaitPlan)
        requires
            app.wf(),
        ensures
            p.next_timeout == earliest_deadline(app@.windows),
            p.next_idle_time == instant_after(self.last_idle_time, self.interval),
    {
        WaitPlan { next_timeout: app.next_timeout(), next_idle_time: self.next_idle_time() }
    }

    /// Says what is due at `now`, after the events of the round have been
    /// handled: timers if the earliest deadline of the plan has come, and
    /// an idle run if its time has come. An idle run that is due starts the
    /// time to the next one.
    pub fn after_events(&mut self, plan: &WaitPlan, now: Instant) -> (due: Due)
        ensures
            due.timers == (plan.next_timeout matches Some(t) && t.nanos <= now.nanos),
            due.idle == (now.nanos >= plan.next_idle_time.nanos),
            final(self).interval == old(self).interval,
            final(self).last_idle_time == if due.idle {
                now
            } else {
                old(self).last_idle_time
            },
    {
        let timers = match plan.next_timeout {
            Some(t) => t.nanos <= now.nanos,
            None => false,
        };
        let idle = now.nanos >= plan.next_idle_time.nanos;
        if idle {
            self.last_idle_time = now;
        }
        Due { timers, idle }
    }
}

/// How a wait on the connection and the wake signal ended.
#[derive(Clone, Copy, Debug, PartialEq, Eq, Structural)]
pub enum PollOutcome {
    /// The wait returned. `connection` says whether the server has sent
    /// something, `idle` whether the wake signal was given.
    Returned { connection: bool, idle: bool },
    /// A signal interrupted the wait.
    Interrupted,
    /// The wait failed, with this error number.
    Failed(i32),
}

/// What the loop does next while it waits for something to do.
#[derive(Clone, Copy, Debug, PartialEq, Eq, Structural)]
pub enum PollStep {
    /// Stop waiting.
    Done,
    /// Wait for `timeout` milliseconds, or without limit if `timeout` is
    /// negative, for the connection, and for the wake signal too if
    /// `watch_idle` is set.
    Wait { timeout: i32, watch_idle: bool },
}

/// The wait of the loop between two rounds. It ends when the server has
/// sent something, when a timer is due, or when the wake signal was given
/// and the time of the next idle run has come. Until the wake signal is
/// given the time of the next idle run does not limit the wait.
#[derive(Clone, Copy, Debug, PartialEq, Eq, Structural)]
pub struct PollState {
    pub timer_timeout: Option<Instant>,
    pub idle_timeout: Instant,
    /// The time of the last look at the clock.
    pub now: Instant,
    /// Whether the wake signal was given.
    pub honor_idle_timeout: bool,
    /// Whether the wake signal is still waited for.
    pub watch_idle: bool,
}

/// The whole milliseconds from `now` to the later `deadline`, limited so
/// that one can be added, and then one added: the wait must not end early.
pub open spec fn spec_poll_timeout(deadline: Instant, now: Instant) -> i32 {
    let millis = (deadline.nanos - now.nanos) / 1_000_000;
    if millis > i32::MAX - 1 {
        i32::MAX
    } else {
        (millis + 1) as i32
    }
}

impl PollState {
    /// The earlier of the time of the next idle run and the first timer.
    pub open spec fn earliest_timeout(self) -> Instant {
        match self.timer_timeout {
            Some(t) if t.nanos <= self.idle_timeout.nanos => t,
            _ => self.idle_timeout,
        }
    }

    /// The time that limits the wait, if any does.
    pub open spec fn deadline(self) -> Option<Instant> {
        if self.honor_idle_timeout {
            Some(self.earliest_timeout())
        } else {
            self.timer_timeout
        }
    }

    /// What the loop does next.
    pub open spec fn spec_step(self) -> PollStep {
        match self.deadline() {
            Some(d) => if d.nanos <= self.now.nanos {
                PollStep::Done
            } else {
                PollStep::Wait { timeout: spec_poll_timeout(d, self.now), watch_idle: self.watch_idle }
            },
            None => PollStep::Wait { timeout: -1i32, watch_idle: self.watch_idle },
        }
    }

    /// The state after a wait ended with `outcome` and the clock then
    /// showed `now`, and whether the loop stops waiting; or the error that
    /// ends the loop.
    pub open spec fn spec_record(self, outcome: PollOutcome, now: Instant) -> Result<(PollState, bool), Error> {
        match outcome {
            PollOutcome::Failed(e) => Err(Error::Poll(e)),
            PollOutcome::Interrupted => Ok((PollState { now, ..self }, false)),
            PollOutcome::Returned { connection, idle } => {
                if connection {
                    Ok((self, true))
                } else if self.timer_timeout is Some && now.nanos >= self.timer_timeout->Some_0.nanos {
                    Ok((PollState { now, ..self }, true))
                } else if !self.watch_idle || idle {
                    Ok(
                        (
                            PollState { now, watch_idle: false, honor_idle_timeout: true, ..self },
                            now.nanos >= self.idle_timeout.nanos,
                        ),
                    )
                } else {
                    Ok((PollState { now, ..self }, false))
                }
            },
        }
    }

    /// The wait that starts at `now` for the given plan.
    pub fn new(plan: &WaitPlan, now: Instant) -> (p: PollState)
        ensures
            p == (PollState {
                timer_timeout: plan.next_timeout,
                idle_timeout: plan.next_idle_time,
                now,
                honor_idle_timeout: false,
                watch_idle: true,
            }),
    {
        PollState {
            timer_timeout: plan.next_timeout,
            idle_timeout: plan.next_idle_time,
            now,
            honor_idle_timeout: false,
            watch_idle: true,
        }
    }

    /// What the loop does next. A wait without limit is asked for only
    /// while no timer is pending and the wake signal has not been given;
    /// every other wait lasts a millisecond at least.
    pub fn step(&self) -> (s: PollStep)
        ensures
            s == self.spec_step(),
            s matches PollStep::Wait { timeout, .. } ==> (timeout == -1 <==> self.timer_timeout is None
                && !self.honor_idle_timeout) && (timeout == -1 || timeout >= 1),
    {
        let deadline = if self.honor_idle_timeout {
            match self.timer_timeout {
                Some(t) => if t.nanos <= self.idle_timeout.nanos {
                    Some(t)
                } else {
                    Some(self.idle_timeout)
                },
                None => Some(self.idle_timeout),
            }
        } else {
            self.timer_timeout
        };
        match deadline {
            Some(d) => {
                if d.nanos <= self.now.nanos {
                    PollStep::Done
                } else {
                    let millis: u64 = (d.nanos - self.now.nanos) / 1_000_000;
                    let timeout: i32 = if millis > 0x7fff_fffe {
                        i32::MAX
                    } else {
                        (millis + 1) as i32
                    };
                    PollStep::Wait { timeout, watch_idle: self.watch_idle }
                }
            },
            None => PollStep::Wait { timeout: -1, watch_idle: self.watch_idle },
        }
    }

    /// Takes note of how a wait ended; `now` is the clock after the wait.
    /// Returns whether the loop stops waiting. A wait that failed is the
    /// one error that ends the loop; an interrupted wait is taken up again.
    pub fn record(&mut self, outcome: PollOutcome, now: Instant) -> (r: Result<bool, Error>)
        ensures
            match old(self).spec_record(outcome, now) {
                Ok((state, done)) => r == Ok::<bool, Error>(done) && *final(self) == state,
                Err(e) => r == Err::<bool, Error>(e) && *final(self) == *old(self),
            },
    {
        match outcome {
            PollOutcome::Failed(e) => Err(Error::Poll(e)),
            PollOutcome::Interrupted => {
                self.now = now;
                Ok(false)
            },
            PollOutcome::Returned { connection, idle } => {
                if connection {
                    return Ok(true);
                }
                self.now = now;
                let timer_reached = match self.timer_timeout {
                    Some(t) => now.nanos >= t.nanos,
                    None => false,
                };
                if timer_reached {
                    return Ok(true);
                }
                if !self.watch_idle || idle {
                    self.watch_idle = false;
                    self.honor_idle_timeout = true;
                    return Ok(now.nanos >= self.idle_timeout.nanos);
                }
                Ok(false)
            },
        }
    }
}

/// How a read from the pipe that wakes the loop ended.
#[derive(Clone, Copy, Debug, PartialEq, Eq, Structural)]
pub enum ReadOutcome {
    /// So many bytes were read.
    Read(usize),
    /// A signal interrupted the read.
    Interrupted,
    /// The pipe is empty.
    WouldBlock,
    /// The read failed, with this error number.
    Failed(i32),
}

/// Whether the loop reads the pipe once more after a read ended with
/// `outcome`, or the error that the draining ends with. Reading goes on
/// after bytes were read and after an interruption; it stops when the pipe
/// is empty or closed.
pub open spec fn spec_drain_step(outcome: ReadOutcome) -> Result<bool, Error> {
    match outcome {
        ReadOutcome::Interrupted => Ok(true),
        ReadOutcome::WouldBlock => Ok(false),
        ReadOutcome::Failed(e) => Err(Error::IdlePipe(e)),
        ReadOutcome::Read(n) => Ok(n != 0),
    }
}

/// Whether the loop reads the pipe once more.
pub fn drain_idle_pipe(outcome: ReadOutcome) -> (r: Result<bool, Error>)
    ensures
        r == spec_drain_step(outcome),
{
    match outcome {
        ReadOutcome::Interrupted => Ok(true),
        ReadOutcome::WouldBlock => Ok(false),
        ReadOutcome::Failed(e) => Err(Error::IdlePipe(e)),
        ReadOutcome::Read(n) => Ok(n != 0),
    }
}

/// A handle by which other threads could run code on the thread of the
/// loop. This backend hands none out, so a handle never belongs to a
/// running application.
#[derive(Clone, Copy, Debug, PartialEq, Eq, Structural)]
pub struct AppHandle;

impl AppHandle {
    /// Asks for `callback` to be run on the thread of the loop. A handle of
    /// this backend has no loop to run it on: the callback is handed back,
    /// and nothing will run it.
    pub fn run_on_main(&self, callback: crate::window::IdleCallback) -> (refused: Option<
        crate::window::IdleCallback,
    >)
        ensures
            refused == Some(callback),
    {
        Some(callback)
    }
}

impl Application {
    /// The handle of the application for other threads. This backend has
    /// none.
    pub fn get_handle(&self) -> (h: Option<AppHandle>)
        ensures
            h is None,
    {
        None
    }
}


/// An event for a window that is not registered changes nothing but the
/// newest time seen, and is reported as an error that names the window:
/// the loop drops it and goes on.
pub proof fn lemma_event_for_missing_window(app: ApplicationView, ev: Event)
    requires
        ev.kind.spec_target() is Some,
        index_of(app.windows, ev.kind.spec_target()->Some_0) is None,
        ev.kind.spec_target()->Some_0 != app.window_id,
    ensures
        app.handle_event(ev).view == app.stamped(ev),
        app.handle_event(ev).result == Err::<OutcomeView, Error>(Error::NoWindow(ev.kind.spec_target()->Some_0)),
{
}

/// Once the server has confirmed that a window is destroyed, the window is
/// out of the registry, and every later event for it is dropped as an
/// event for a window that is not registered.
pub proof fn lemma_destroyed_window_is_gone(app: ApplicationView, confirm: Event, later: Event)
    requires
        app.wf(),
        confirm.kind matches EventKind::DestroyNotify(e) && e.window != app.window_id && index_of(
            app.windows,
            e.window,
        ) is Some,
        later.kind.spec_target() == confirm.kind.spec_target(),
    ensures
        ({
            let id = confirm.kind.spec_target()->Some_0;
            let after = app.handle_event(confirm).view;
            &&& index_of(after.windows, id) is None
            &&& after.windows.len() == app.windows.len() - 1
            &&& after.handle_event(later).result == Err::<OutcomeView, Error>(Error::NoWindow(id))
            &&& after.handle_event(later).view == after.stamped(later)
        }),
{
    let id = confirm.kind.spec_target()->Some_0;
    let s = app.stamped(confirm);
    lemma_index_of(s.windows, id);
    let i = index_of(s.windows, id)->Some_0;
    let after = app.handle_event(confirm).view;
    assert(after.windows == s.windows.remove(i));
    lemma_index_of(after.windows, id);
    if index_of(after.windows, id) is Some {
        let k = index_of(after.windows, id)->Some_0;
        if k < i {
            assert(after.windows[k] == s.windows[k]);
            assert(s.windows[k].id != s.windows[i].id);
        } else {
            assert(after.windows[k] == s.windows[k + 1]);
            assert(s.windows[i].id != s.windows[k + 1].id);
        }
    }
    lemma_event_for_missing_window(after, later);
}

/// The loop ends when its own window is destroyed, and only then: that is
/// the one event that asks it to.
pub proof fn lemma_quit_only_on_own_window(app: ApplicationView, ev: Event)
    ensures
        (app.handle_event(ev).result matches Ok(o) && o.quit) <==> (ev.kind matches EventKind::DestroyNotify(e)
            && e.window == app.window_id),
{
}

} // verus!
