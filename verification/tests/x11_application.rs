use glazier::backend::x11::application::{
    find_argb32, is_argb32, render_cursor_supported, Action, AppHandle, Application,
    Directformat, Outcome, PictType, Pictforminfo, Screen, Setup, Visualtype,
};
use glazier::backend::x11::event::{
    ActiveModifiers, Atom, ButtonPressEvent, ChangeReason, ClientMessageEvent, ConfigureNotifyEvent,
    DestroyNotifyEvent, Event, EventKind, ExposeEvent, FocusEvent, KeyPressEvent, LeaveNotifyEvent,
    ModifierInfo, SelectionEvent,
};
use glazier::backend::x11::pointer::{AxisValues, DeviceInfo, DeviceKind, DeviceType, Valuators};
use glazier::backend::x11::window::{
    BuildEnv, Cursors, Dpi, IdleKind, Request, Window, WindowBuilder, WindowHandle,
};
use glazier::error::Error;
use glazier::handler::{Delivery, HandlerCall};
use glazier::keyboard::{KeyEvent, KeyState};
use glazier::kurbo::{Size, Vec2};
use glazier::pointer::{MouseInfo, PointerButton, PointerType};
use glazier::scale::Scale;
use glazier::time::Instant;
use glazier::window::{IdleCallback, TimerToken};

const UNIT: i64 = 65536;

fn screen() -> Screen {
    Screen {
        root: 100,
        root_depth: 24,
        white_pixel: 0xffffff,
        root_visual: Some(Visualtype { visual_id: 33, depth: 24 }),
        argb_visual: Some(Visualtype { visual_id: 77, depth: 32 }),
    }
}

fn cursors() -> Cursors {
    Cursors {
        default: Some(1),
        text: Some(2),
        pointer: Some(3),
        crosshair: None,
        not_allowed: Some(5),
        row_resize: Some(6),
        col_resize: Some(7),
    }
}

fn argb32(id: u32) -> Pictforminfo {
    Pictforminfo {
        id,
        type_: PictType::Direct,
        depth: 32,
        direct: Directformat {
            red_shift: 16,
            red_mask: 0xff,
            green_shift: 8,
            green_mask: 0xff,
            blue_shift: 0,
            blue_mask: 0xff,
            alpha_shift: 24,
            alpha_mask: 0xff,
        },
    }
}

fn setup() -> Setup {
    Setup {
        screens: vec![screen()],
        screen_num: 0,
        window_id: 9,
        cursors: cursors(),
        pointers: vec![DeviceInfo {
            id: 2,
            device_type: DeviceType::MasterPointer,
            device_kind: DeviceKind::Mouse,
            valuators: Valuators { pressure: None, x_tilt: None, y_tilt: None },
        }],
        render_version: Some((0, 11)),
        pict_formats: vec![Pictforminfo { depth: 24, ..argb32(40) }, argb32(41), argb32(42)],
    }
}

fn app() -> Application {
    Application::new(setup()).unwrap()
}

fn window(id: u32) -> Window {
    Window::new(id, Size::new(100 * UNIT, 50 * UNIT), Scale::identity(), Size::zero(), None)
}

fn app_with(ids: &[u32]) -> Application {
    let mut a = app();
    for id in ids {
        a.add_window(window(*id));
    }
    a
}

fn server(kind: EventKind) -> Event {
    Event { server_generated: true, kind }
}

fn nothing() -> Outcome {
    Outcome { quit: false, delivery: Delivery::Nothing, window: None, wake: false, actions: vec![] }
}

fn to(id: u32, delivery: Delivery) -> Outcome {
    Outcome { quit: false, delivery, window: Some(id), wake: false, actions: vec![] }
}

#[test]
fn new_application_checks_the_screen() {
    let a = app();
    assert_eq!(a.window_count(), 0);
    assert!(!a.quitting());
    assert_eq!(a.timestamp(), 0);
    assert_eq!(a.screen_num(), 0);
    assert_eq!(a.screen(), screen());
    assert_eq!(a.root_visual_type(), Visualtype { visual_id: 33, depth: 24 });
    assert_eq!(a.cursors(), cursors());
    assert_eq!(a.render_argb32_pictformat_cursor(), Some(41));
    assert_eq!(a.get_handle(), None);
    let bad = Setup { screen_num: 1, ..setup() };
    assert_eq!(Application::new(bad), Err(Error::InvalidScreen(1)));
    let blind = Setup { screens: vec![Screen { root_visual: None, ..screen() }], ..setup() };
    assert_eq!(Application::new(blind), Err(Error::NoVisual));
    let old = Setup { render_version: Some((0, 4)), ..setup() };
    assert_eq!(Application::new(old).unwrap().render_argb32_pictformat_cursor(), None);
    let none = Setup { render_version: None, ..setup() };
    assert_eq!(Application::new(none).unwrap().render_argb32_pictformat_cursor(), None);
}

#[test]
fn picture_formats_and_render_versions() {
    assert!(is_argb32(&argb32(1)));
    assert!(!is_argb32(&Pictforminfo { type_: PictType::Indexed, ..argb32(1) }));
    let mut f = argb32(1);
    f.direct.alpha_shift = 0;
    assert!(!is_argb32(&f));
    assert_eq!(find_argb32(&vec![]), None);
    assert_eq!(find_argb32(&vec![f]), None);
    assert_eq!(find_argb32(&vec![f, argb32(5), argb32(6)]), Some(5));
    assert!(render_cursor_supported(Some((0, 5))));
    assert!(render_cursor_supported(Some((1, 0))));
    assert!(!render_cursor_supported(Some((0, 4))));
    assert!(!render_cursor_supported(None));
}

#[test]
fn argb_visual_needs_a_compositing_manager() {
    let a = app();
    assert_eq!(a.argb_visual_type(Some(0)), None);
    assert_eq!(a.argb_visual_type(Some(55)), Some(Visualtype { visual_id: 77, depth: 32 }));
    assert_eq!(a.argb_visual_type(None), Some(Visualtype { visual_id: 77, depth: 32 }));
}

#[test]
fn registry_adds_finds_replaces_and_removes() {
    let mut a = app_with(&[10, 20, 30]);
    assert_eq!(a.window_count(), 3);
    assert_eq!(a.find(20), Some(1));
    assert_eq!(a.find(40), None);
    assert_eq!(a.window(20).map(|w| w.id()), Ok(20));
    assert_eq!(a.window(40).map(|w| w.id()), Err(Error::NoWindow(40)));
    let mut other = window(20);
    other.destroy();
    a.add_window(other);
    assert_eq!(a.window_count(), 3);
    assert_eq!(a.window(20).map(|w| w.destroyed()), Ok(true));
    assert_eq!(a.remove_window(10), 2);
    assert_eq!(a.remove_window(10), 2);
    assert_eq!(a.find(20), Some(0));
    assert_eq!(a.remove_window(30), 1);
    assert_eq!(a.remove_window(20), 0);
}

#[test]
fn event_for_a_missing_window_is_a_recoverable_error() {
    let mut a = app_with(&[10]);
    let before = a.clone();
    let kinds = vec![
        EventKind::Expose(ExposeEvent { window: 11, x: 0, y: 0, width: 1, height: 1, count: 0 }),
        EventKind::FocusIn(FocusEvent { event: 11 }),
        EventKind::FocusOut(FocusEvent { event: 11 }),
        EventKind::DestroyNotify(DestroyNotifyEvent { window: 11 }),
        EventKind::ConfigureNotify(ConfigureNotifyEvent { window: 11, width: 5, height: 5 }),
        EventKind::ClientMessage(ClientMessageEvent {
            window: 11,
            type_: Atom::WmProtocols,
            format: 32,
            protocol: Atom::WmDeleteWindow,
        }),
    ];
    for kind in kinds {
        assert_eq!(a.handle_event(&Event { server_generated: false, kind }), Err(Error::NoWindow(11)));
        assert_eq!(a, before);
    }
    // the loop goes on: the next event is handled as usual
    assert_eq!(
        a.handle_event(&server(EventKind::FocusIn(FocusEvent { event: 10 }))),
        Ok(to(10, Delivery::Calls(vec![HandlerCall::GotFocus])))
    );
}

#[test]
fn server_errors_are_reported_and_change_nothing() {
    let mut a = app_with(&[10]);
    let before = a.clone();
    assert_eq!(a.handle_event(&server(EventKind::Error(3))), Err(Error::Request(3)));
    assert_eq!(a, before);
}

#[test]
fn timestamps_follow_server_events() {
    let mut a = app_with(&[10]);
    let key = KeyPressEvent { event: 10, detail: 38, keysym: 0x61, time: 500 };
    a.handle_event(&server(EventKind::KeyPress(key))).unwrap();
    assert_eq!(a.timestamp(), 500);
    a.window_mut(0).handler_done();
    a.handle_event(&Event { server_generated: false, kind: EventKind::MotionNotify(900) }).unwrap();
    assert_eq!(a.timestamp(), 500);
    for (kind, time) in [
        (EventKind::ButtonPress(510), 510),
        (EventKind::ButtonRelease(520), 520),
        (EventKind::MotionNotify(530), 530),
        (EventKind::EnterNotify(540), 540),
        (EventKind::LeaveNotify(LeaveNotifyEvent { event: 10, time: 550 }), 550),
        (EventKind::PropertyNotify(SelectionEvent { time: 560, selection: 1 }), 560),
        (EventKind::KeyRelease(KeyPressEvent { time: 570, ..key }), 570),
        (EventKind::FocusIn(FocusEvent { event: 10 }), 570),
        (EventKind::Other, 570),
    ] {
        let _ = a.handle_event(&server(kind));
        a.window_mut(0).handler_done();
        assert_eq!(a.timestamp(), time);
    }
    // an event for a missing window still sets the time
    let stray = LeaveNotifyEvent { event: 99, time: 600 };
    assert_eq!(a.handle_event(&server(EventKind::LeaveNotify(stray))), Err(Error::NoWindow(99)));
    assert_eq!(a.timestamp(), 600);
}

#[test]
fn application_level_events_become_actions() {
    let mut a = app_with(&[10]);
    let only = |action| Outcome { actions: vec![action], ..nothing() };
    let m = ActiveModifiers {
        base_mods: 1,
        latched_mods: 2,
        locked_mods: 3,
        base_layout: 4,
        latched_layout: 5,
        locked_layout: 6,
    };
    assert_eq!(a.handle_event(&server(EventKind::XkbStateNotify(m))), Ok(only(Action::UpdateKeyboard(m))));
    assert_eq!(a.handle_event(&server(EventKind::XinputHierarchy)), Ok(only(Action::ReloadPointers)));
    assert_eq!(
        a.handle_event(&server(EventKind::XinputDeviceChanged(ChangeReason::DeviceChange))),
        Ok(only(Action::ReloadPointers))
    );
    assert_eq!(
        a.handle_event(&server(EventKind::XinputDeviceChanged(ChangeReason::SlaveSwitch))),
        Ok(nothing())
    );
    let s = SelectionEvent { time: 7, selection: 8 };
    assert_eq!(a.handle_event(&server(EventKind::SelectionClear(s))), Ok(only(Action::SelectionClear(s))));
    assert_eq!(a.handle_event(&server(EventKind::SelectionRequest(s))), Ok(only(Action::SelectionRequest(s))));
    assert_eq!(a.handle_event(&server(EventKind::PropertyNotify(s))), Ok(only(Action::PropertyNotify(s))));
    assert_eq!(a.handle_event(&server(EventKind::Other)), Ok(nothing()));
    assert_eq!(a.handle_event(&server(EventKind::ButtonPress(1))), Ok(nothing()));
}

#[test]
fn events_for_the_own_window_are_special() {
    let mut a = app_with(&[10]);
    assert_eq!(
        a.handle_event(&server(EventKind::ConfigureNotify(ConfigureNotifyEvent {
            window: 9,
            width: 1,
            height: 1
        }))),
        Ok(nothing())
    );
    assert_eq!(
        a.handle_event(&server(EventKind::DestroyNotify(DestroyNotifyEvent { window: 9 }))),
        Ok(Outcome { quit: true, ..nothing() })
    );
    assert_eq!(a.window_count(), 1);
}

#[test]
fn pointer_events_are_routed_with_their_devices() {
    let mut a = app_with(&[10]);
    let ev = ButtonPressEvent {
        event: 10,
        deviceid: 2,
        sourceid: 5,
        detail: 1,
        event_x: 3 << 16,
        event_y: 4 << 16,
        mods: ModifierInfo { base: 0, latched: 0, locked: 0, effective: 0 },
        axisvalues: AxisValues { pressure: None, x_tilt: None, y_tilt: None },
        time: 0,
    };
    assert_eq!(a.pointer_device(2).map(|d| d.device_type), Some(DeviceType::MasterPointer));
    assert_eq!(a.pointer_device(5), None);
    let out = a.handle_event(&server(EventKind::XinputButtonPress(ev))).unwrap();
    match &out.delivery {
        Delivery::Calls(calls) => match &calls[..] {
            [HandlerCall::PointerDown(e)] => {
                assert!(e.is_primary);
                assert_eq!(e.button, PointerButton::Primary);
                assert_eq!(e.count, 1);
                assert!(e.buttons.contains(PointerButton::Primary));
            }
            other => panic!("{:?}", other),
        },
        other => panic!("{:?}", other),
    }
    a.window_mut(0).handler_done();
    // the wheel: a press turns it, the release is ignored
    let wheel = ButtonPressEvent { detail: 4, ..ev };
    let out = a.handle_event(&server(EventKind::XinputButtonPress(wheel))).unwrap();
    match &out.delivery {
        Delivery::Calls(calls) => match &calls[..] {
            [HandlerCall::Wheel(e)] => {
                assert_eq!(e.pointer_type, PointerType::Mouse(MouseInfo { wheel_delta: Vec2::new(0, -120 * UNIT) }));
                assert_eq!(e.button, PointerButton::NoButton);
            }
            other => panic!("{:?}", other),
        },
        other => panic!("{:?}", other),
    }
    a.window_mut(0).handler_done();
    assert_eq!(
        a.handle_event(&server(EventKind::XinputButtonRelease(wheel))),
        Ok(to(10, Delivery::Nothing))
    );
    // after the devices were reloaded the device is no master any more
    a.reinitialize_pointers(vec![]);
    let out = a.handle_event(&server(EventKind::XinputMotion(ev))).unwrap();
    match &out.delivery {
        Delivery::Calls(calls) => match &calls[..] {
            [HandlerCall::PointerMove(e)] => assert!(!e.is_primary),
            other => panic!("{:?}", other),
        },
        other => panic!("{:?}", other),
    }
}

#[test]
fn window_events_reach_the_client() {
    let mut a = app_with(&[10, 20]);
    let close = ClientMessageEvent {
        window: 20,
        type_: Atom::WmProtocols,
        format: 32,
        protocol: Atom::WmDeleteWindow,
    };
    assert_eq!(
        a.handle_event(&server(EventKind::ClientMessage(close))),
        Ok(to(20, Delivery::Calls(vec![HandlerCall::RequestClose])))
    );
    // the client of window 20 is busy; window 10 is not
    assert_eq!(
        a.handle_event(&server(EventKind::FocusIn(FocusEvent { event: 20 }))),
        Ok(to(20, Delivery::Busy))
    );
    assert_eq!(
        a.handle_event(&server(EventKind::LeaveNotify(LeaveNotifyEvent { event: 10, time: 1 }))),
        Ok(to(10, Delivery::Calls(vec![HandlerCall::PointerLeave])))
    );
    a.window_mut(1).handler_done();
    for other in [
        ClientMessageEvent { format: 8, ..close },
        ClientMessageEvent { type_: Atom::Other(4), ..close },
        ClientMessageEvent { protocol: Atom::Other(4), ..close },
    ] {
        assert_eq!(a.handle_event(&server(EventKind::ClientMessage(other))), Ok(to(20, Delivery::Nothing)));
    }
    let key = KeyPressEvent { event: 20, detail: 38, keysym: 0x61, time: 1 };
    let down = KeyEvent { scancode: 38, keysym: 0x61, state: KeyState::Down, repeat: false };
    assert_eq!(
        a.handle_event(&server(EventKind::KeyPress(key))),
        Ok(to(20, Delivery::Calls(vec![HandlerCall::KeyDown(down)])))
    );
}

#[test]
fn expose_and_configure_invalidate() {
    let mut a = app_with(&[10]);
    let expose = ExposeEvent { window: 10, x: 1, y: 2, width: 3, height: 4, count: 1 };
    assert_eq!(a.handle_event(&server(EventKind::Expose(expose))), Ok(to(10, Delivery::Nothing)));
    let last = ExposeEvent { count: 0, ..expose };
    assert_eq!(
        a.handle_event(&server(EventKind::Expose(last))),
        Ok(Outcome { wake: true, ..to(10, Delivery::Nothing) })
    );
    assert_eq!(a.handle_event(&server(EventKind::Expose(last))), Ok(to(10, Delivery::Nothing)));
    let same = ConfigureNotifyEvent { window: 10, width: 100, height: 50 };
    assert_eq!(a.handle_event(&server(EventKind::ConfigureNotify(same))), Ok(to(10, Delivery::Nothing)));
    let grown = ConfigureNotifyEvent { window: 10, width: 200, height: 50 };
    assert_eq!(
        a.handle_event(&server(EventKind::ConfigureNotify(grown))),
        Ok(to(
            10,
            Delivery::Calls(vec![
                HandlerCall::Size(Size::new(200 * UNIT, 50 * UNIT)),
                HandlerCall::Scale(Scale::identity())
            ])
        ))
    );
    assert_eq!(a.window(10).unwrap().size().size_px(), Size::new(200 * UNIT, 50 * UNIT));
}

#[test]
fn destroy_is_two_phase() {
    let mut a = app_with(&[10, 20]);
    let h = WindowHandle::new(10, 33);
    assert_eq!(h.close(&mut a), Some(Request::DestroyWindow(10)));
    assert_eq!(h.close(&mut a), None);
    // the window stays registered until the server confirms
    assert_eq!(a.window_count(), 2);
    assert_eq!(h.show(&a), None);
    let confirm = server(EventKind::DestroyNotify(DestroyNotifyEvent { window: 10 }));
    assert_eq!(a.handle_event(&confirm), Ok(to(10, Delivery::Calls(vec![HandlerCall::Destroy]))));
    assert_eq!(a.window_count(), 1);
    // events that were still queued for the window resolve to an error that the loop logs
    assert_eq!(a.handle_event(&confirm), Err(Error::NoWindow(10)));
    assert_eq!(
        a.handle_event(&server(EventKind::FocusIn(FocusEvent { event: 10 }))),
        Err(Error::NoWindow(10))
    );
    assert_eq!(h.show(&a), None);
    assert!(!h.invalidate(&mut a));
    assert_eq!(h.request_timer(&mut a, Instant::from_nanos(5)), TimerToken::invalid());
}

#[test]
fn quit_destroys_every_window_and_ends_after_the_last() {
    let mut a = app_with(&[10, 20, 30]);
    a.window_mut(1).destroy();
    assert_eq!(
        a.quit(),
        vec![Action::Send(Request::DestroyWindow(10)), Action::Send(Request::DestroyWindow(30))]
    );
    assert!(a.quitting());
    assert_eq!(a.quit(), vec![]);
    let gone = |id| server(EventKind::DestroyNotify(DestroyNotifyEvent { window: id }));
    assert_eq!(a.handle_event(&gone(20)), Ok(to(20, Delivery::Calls(vec![HandlerCall::Destroy]))));
    assert_eq!(a.handle_event(&gone(10)), Ok(to(10, Delivery::Calls(vec![HandlerCall::Destroy]))));
    let last = a.handle_event(&gone(30)).unwrap();
    assert_eq!(last.actions, vec![Action::Send(Request::DestroyWindow(9)), Action::CloseIdlePipe]);
    assert!(!last.quit);
    assert_eq!(a.handle_event(&gone(9)), Ok(Outcome { quit: true, ..nothing() }));
}

#[test]
fn quit_without_windows_ends_at_once() {
    let mut a = app();
    assert_eq!(a.quit(), vec![Action::Send(Request::DestroyWindow(9)), Action::CloseIdlePipe]);
    assert_eq!(a.finalize_quit(), vec![Action::Send(Request::DestroyWindow(9)), Action::CloseIdlePipe]);
    assert_eq!(a.quit(), vec![]);
}

#[test]
fn last_window_gone_without_quit_keeps_the_application() {
    let mut a = app_with(&[10]);
    let out = a.handle_event(&server(EventKind::DestroyNotify(DestroyNotifyEvent { window: 10 }))).unwrap();
    assert_eq!(out.actions, vec![]);
    assert_eq!(a.window_count(), 0);
}

#[test]
fn timers_and_idle_run_over_all_windows() {
    let mut a = app_with(&[10, 20, 30]);
    let at = Instant::from_nanos;
    assert_eq!(a.next_timeout(), None);
    let t1 = a.request_timer(20, at(500));
    let t2 = a.request_timer(10, at(300));
    let t3 = a.request_timer(20, at(100));
    let t4 = a.request_timer(40, at(1));
    assert_eq!((t1, t2, t3, t4), (TimerToken(1), TimerToken(2), TimerToken(3), TimerToken::invalid()));
    assert_eq!(a.next_timeout(), Some(at(100)));
    assert_eq!(
        a.run_timers(at(300)),
        vec![
            (10, Delivery::Calls(vec![HandlerCall::Timer(t2)])),
            (20, Delivery::Calls(vec![HandlerCall::Timer(t3)])),
            (30, Delivery::Nothing),
        ]
    );
    assert_eq!(a.next_timeout(), Some(at(500)));
    a.window_mut(0).handler_done();
    a.window_mut(1).handler_done();
    a.window_mut(2).add_idle(IdleKind::Callback(IdleCallback(4)));
    a.window_mut(0).request_anim_frame();
    let runs = a.run_idle();
    assert_eq!(runs.len(), 3);
    assert_eq!((runs[0].0, runs[1].0, runs[2].0), (10, 20, 30));
    assert!(runs[0].1.needs_redraw);
    assert!(!runs[1].1.needs_redraw);
    assert_eq!(runs[2].1.delivery, Delivery::Calls(vec![HandlerCall::IdleCallback(IdleCallback(4))]));
}

#[test]
fn app_handle_hands_the_callback_back() {
    assert_eq!(AppHandle.run_on_main(IdleCallback(5)), Some(IdleCallback(5)));
}

#[test]
fn create_event_window_request() {
    assert_eq!(
        Application::create_event_window(9, &screen()),
        Request::CreateEventWindow { window: 9, parent: 100 }
    );
}

#[test]
fn built_window_is_registered_and_connected() {
    let mut a = app();
    let env = BuildEnv {
        id: 50,
        colormap: 51,
        dpi: Dpi::Unset,
        compositor_owner: None,
        parent_origin: Vec2::new(0, 0),
        pid: 1234,
        program_name: None,
    };
    let built = WindowBuilder::new().handler().build(&mut a, env);
    assert_eq!(built.handle, WindowHandle::new(50, 33));
    assert_eq!(a.find(50), Some(0));
    assert_eq!(
        built.delivery,
        Delivery::Calls(vec![
            HandlerCall::Connect,
            HandlerCall::Scale(Scale::identity()),
            HandlerCall::Size(Size::new(500 * UNIT, 400 * UNIT)),
        ])
    );
    assert!(a.window(50).unwrap().handler_active());
}

#[test]
fn well_formedness_is_checked_at_run_time() {
    let mut a = app_with(&[10, 20]);
    assert!(a.is_well_formed());
    a.request_timer(10, Instant::from_nanos(5));
    a.request_timer(10, Instant::from_nanos(3));
    assert!(a.is_well_formed());
    assert!(window(3).is_well_formed());
    // two windows with one id break the registry
    *a.window_mut(1) = window(10);
    assert!(!a.is_well_formed());
    *a.window_mut(1) = window(20);
    assert!(a.is_well_formed());
}

#[test]
fn unhandled_key_press_goes_to_the_text_field_of_its_window() {
    let mut a = app_with(&[10, 20]);
    let h = WindowHandle::new(20, 33);
    let field = h.add_text_field(&mut a);
    h.set_focused_text_field(&mut a, Some(field));
    let key = KeyPressEvent { event: 20, detail: 38, keysym: 0x61, time: 1 };
    let down = KeyEvent { scancode: 38, keysym: 0x61, state: KeyState::Down, repeat: false };
    assert_eq!(
        a.handle_event(&server(EventKind::KeyPress(key))),
        Ok(to(20, Delivery::Calls(vec![HandlerCall::KeyDown(down)])))
    );
    assert_eq!(
        a.key_down_unhandled(20, down),
        vec![
            HandlerCall::AcquireInputLock(field),
            HandlerCall::ComposeKey(field, down),
            HandlerCall::ReleaseInputLock(field),
        ]
    );
    a.set_composing(true);
    assert_eq!(a.key_down_unhandled(10, down), vec![]);
    assert_eq!(a.key_down_unhandled(99, down), vec![]);
    // a key going up in the other window changes no field, and the composition goes on
    a.window_mut(1).handler_done();
    let up = KeyEvent { state: KeyState::Up, ..down };
    assert_eq!(
        a.handle_event(&server(EventKind::KeyRelease(KeyPressEvent { event: 10, ..key }))),
        Ok(to(10, Delivery::Calls(vec![HandlerCall::KeyUp(up)])))
    );
}
