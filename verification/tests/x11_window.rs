use glazier::backend::x11::application::{Application, Screen, Setup, Visualtype};
use glazier::backend::x11::window::{
    cursor_id, scale_for, size_hints, wm_class, BuildEnv, Cursors, CustomCursor, Dpi, IdleHandle,
    InitialState, NameProperty, PixelSize, Request, SizeHints, Window, WindowBuilder, WindowHandle,
    WindowType, WriteOutcome,
};
use glazier::dialog::FileDialogOptions;
use glazier::error::Error;
use glazier::handler::{Delivery, HandlerCall};
use glazier::keyboard::{KeyEvent, KeyState};
use glazier::kurbo::{Insets, Point, Rect, Size, Vec2};
use glazier::mouse::{Cursor, CursorDesc, CustomCursor as AnyCursor};
use glazier::scale::Scale;
use glazier::text::{Event as TextEvent, KeyEventsState};
use glazier::time::Instant;
use glazier::window::{
    FileDialogToken, IdleCallback, IdleToken, TextFieldToken, TimerToken, WindowLevel, WindowState,
};

const UNIT: i64 = 65536;

fn cursors() -> Cursors {
    Cursors {
        default: Some(1),
        text: Some(2),
        pointer: Some(3),
        crosshair: None,
        not_allowed: Some(5),
        row_resize: Some(6),
        col_resize: Some(7),
    }
}

fn app() -> Application {
    Application::new(Setup {
        screens: vec![Screen {
            root: 100,
            root_depth: 24,
            white_pixel: 0xffffff,
            root_visual: Some(Visualtype { visual_id: 33, depth: 24 }),
            argb_visual: Some(Visualtype { visual_id: 77, depth: 32 }),
        }],
        screen_num: 0,
        window_id: 9,
        cursors: cursors(),
        pointers: vec![],
        render_version: None,
        pict_formats: vec![],
    })
    .unwrap()
}

fn window() -> Window {
    Window::new(7, Size::new(300 * UNIT, 200 * UNIT), Scale::new(131072, 131072).unwrap(), Size::new(20 * UNIT, 10 * UNIT), Some(3))
}

fn name(window: u32, property: NameProperty, text: &str) -> Request {
    Request::SetName { window, property, name: text.as_bytes().to_vec() }
}

#[test]
fn new_window_has_nothing_pending() {
    let w = window();
    assert_eq!(w.id(), 7);
    assert_eq!(w.parent(), Some(3));
    assert!(!w.destroyed());
    assert!(!w.handler_active());
    assert_eq!(w.size().size_px(), Size::new(300 * UNIT, 200 * UNIT));
    assert_eq!(w.size().size_dp(), Size::new(150 * UNIT, 100 * UNIT));
    assert_eq!(w.get_scale(), Scale::new(131072, 131072).unwrap());
    assert_eq!(w.next_timeout(), None);
}

#[test]
fn size_hints_follow_resizability() {
    let size = Size::new(300 * UNIT + 5, 200 * UNIT);
    let min = Size::new(20 * UNIT, 10 * UNIT);
    assert_eq!(
        size_hints(true, size, min),
        SizeHints { min_size: Some(PixelSize { width: 20, height: 10 }), max_size: None }
    );
    assert_eq!(
        size_hints(false, size, min),
        SizeHints {
            min_size: Some(PixelSize { width: 300, height: 200 }),
            max_size: Some(PixelSize { width: 300, height: 200 })
        }
    );
}

#[test]
fn requests_of_a_live_window() {
    let mut w = window();
    assert_eq!(w.show(), Some(Request::MapWindow(7)));
    assert_eq!(
        w.resizable(false),
        Some(Request::SetNormalHints {
            window: 7,
            hints: size_hints(false, Size::new(300 * UNIT, 200 * UNIT), Size::new(20 * UNIT, 10 * UNIT))
        })
    );
    assert_eq!(w.show_titlebar(true), None);
    // 10.25 + 1 device-independent pixels are 22.5 device pixels, which take 23
    assert_eq!(
        w.set_position(Point::new(10 * UNIT + UNIT / 4, 4 * UNIT), Vec2::new(UNIT, -UNIT)),
        Some(Request::Move { window: 7, x: 23, y: 6 })
    );
    assert_eq!(
        w.set_size(Size::new(10 * UNIT + 1, 5 * UNIT)),
        Some(Request::Resize { window: 7, width: 21, height: 10 })
    );
    assert_eq!(w.set_size(Size::new(-UNIT, 5 * UNIT)), Some(Request::Resize { window: 7, width: 0, height: 10 }));
    assert_eq!(w.bring_to_front_and_focus(), vec![Request::Raise(7), Request::SetInputFocus(7)]);
    assert_eq!(
        w.set_title("héllo"),
        vec![name(7, NameProperty::WmName, "héllo"), name(7, NameProperty::NetWmName, "héllo")]
    );
    assert_eq!(w.set_cursor(&Cursor::IBeam, &cursors()), Some(Request::SetCursor { window: 7, cursor: 2 }));
    assert_eq!(w.set_cursor(&Cursor::Crosshair, &cursors()), None);
    assert_eq!(w.set_cursor(&Cursor::OpenHand, &cursors()), None);
    w.set_menu();
    assert_eq!(w.get_position(Some(Point::new(40 * UNIT, 20 * UNIT)), Vec2::new(5 * UNIT, 0)), Point::new(15 * UNIT, 10 * UNIT));
    assert_eq!(w.get_position(None, Vec2::new(5 * UNIT, 0)), Point::new(0, 0));
    assert_eq!(w.destroy(), Some(Request::DestroyWindow(7)));
}

#[test]
fn no_request_after_destroy() {
    let mut w = window();
    assert_eq!(w.close(), Some(Request::DestroyWindow(7)));
    assert!(w.destroyed());
    assert_eq!(w.destroy(), None);
    assert_eq!(w.close(), None);
    assert_eq!(w.show(), None);
    assert_eq!(w.resizable(true), None);
    assert_eq!(w.set_position(Point::new(0, 0), Vec2::new(0, 0)), None);
    assert_eq!(w.set_size(Size::new(UNIT, UNIT)), None);
    assert_eq!(w.bring_to_front_and_focus(), vec![]);
    assert_eq!(w.set_title("x"), vec![]);
    assert_eq!(w.set_cursor(&Cursor::Arrow, &cursors()), None);
    // inbound events still resolve without a fault
    assert_eq!(w.handle_destroy_notify(), Delivery::Calls(vec![HandlerCall::Destroy]));
}

#[test]
fn cursor_ids() {
    let c = cursors();
    assert_eq!(cursor_id(&c, &Cursor::Arrow), Some(1));
    assert_eq!(cursor_id(&c, &Cursor::IBeam), Some(2));
    assert_eq!(cursor_id(&c, &Cursor::Pointer), Some(3));
    assert_eq!(cursor_id(&c, &Cursor::Crosshair), None);
    assert_eq!(cursor_id(&c, &Cursor::OpenHand), None);
    assert_eq!(cursor_id(&c, &Cursor::NotAllowed), Some(5));
    assert_eq!(cursor_id(&c, &Cursor::ResizeUpDown), Some(6));
    assert_eq!(cursor_id(&c, &Cursor::ResizeLeftRight), Some(7));
    assert_eq!(cursor_id(&c, &Cursor::Custom(AnyCursor::X11(CustomCursor(99)))), Some(99));
    assert_eq!(
        cursor_id(&c, &Cursor::Custom(AnyCursor::Web(glazier::backend::web::window::CustomCursor))),
        None
    );
}

#[test]
fn class_is_name_and_capitalized_name() {
    assert_eq!(wm_class(&b"editor".to_vec()), b"editor\0Editor\0".to_vec());
    assert_eq!(wm_class(&b"Editor".to_vec()), b"Editor\0Editor\0".to_vec());
    assert_eq!(wm_class(&b"9lives".to_vec()), b"9lives\09lives\0".to_vec());
    assert_eq!(wm_class(&b"z".to_vec()), b"z\0Z\0".to_vec());
    assert_eq!(wm_class(&vec![]), vec![0, 0]);
    assert_eq!(wm_class(&vec![0xc3, 0xa9]), vec![0xc3, 0xa9, 0, 0xc3, 0xa9, 0]);
}

#[test]
fn scale_follows_the_resolution() {
    assert_eq!(scale_for(Dpi::Unset), Scale::identity());
    assert_eq!(scale_for(Dpi::Unparsable), Scale::identity());
    assert_eq!(scale_for(Dpi::Value(192 * 65536)), Scale::new(131072, 131072).unwrap());
    assert_eq!(scale_for(Dpi::Value(12)), Scale::identity());
}

fn env() -> BuildEnv {
    BuildEnv {
        id: 50,
        colormap: 51,
        dpi: Dpi::Value(192 * 65536),
        compositor_owner: Some(8),
        parent_origin: Vec2::new(10 * UNIT, 20 * UNIT),
        pid: 1234,
        program_name: Some(b"shell".to_vec()),
    }
}

#[test]
fn builder_defaults_and_setters() {
    let b = WindowBuilder::new();
    assert_eq!(b.clone().size(Size::new(0, 5 * UNIT)), b.clone().size(Size::new(UNIT, UNIT)));
    assert_eq!(b.clone().size(Size::new(5 * UNIT, 0)), b.clone().size(Size::new(UNIT, UNIT)));
    assert_eq!(b.clone().size(Size::new(500 * UNIT, 400 * UNIT)), b);
    assert_eq!(b.clone().show_titlebar(false), b);
    assert_eq!(b.clone().menu(), b);
    assert_eq!(b.clone().resizable(true), b);
    assert_eq!(b.clone().min_size(Size::new(0, 0)), b);
    assert_eq!(b.clone().transparent(false), b);
    assert_eq!(b.clone().level(WindowLevel::AppWindow), b);
    assert_eq!(b.clone().title(String::new()), b);
    assert_ne!(b.clone().handler(), b);
    assert_ne!(b.clone().position(Point::new(0, 0)), b);
    assert_ne!(b.clone().window_state(WindowState::Restored), b);
}

#[test]
fn build_plain_window() {
    let mut a = app();
    let built = WindowBuilder::new()
        .handler()
        .title("Hi".to_string())
        .size(Size::new(100 * UNIT, 50 * UNIT))
        .min_size(Size::new(10 * UNIT, 5 * UNIT))
        .build(&mut a, env());
    assert_eq!(
        built.requests,
        vec![
            Request::CreateWindow {
                depth: 24,
                window: 50,
                parent: 100,
                x: 20,
                y: 40,
                width: 200,
                height: 100,
                visual: 33,
                colormap: None,
                border_pixel: None,
            },
            Request::EnablePointers(50),
            Request::SetPid { window: 50, pid: 1234 },
            Request::SetClass { window: 50, class: b"shell\0Shell\0".to_vec() },
            Request::SetProtocols(50),
            Request::SetNormalHints {
                window: 50,
                hints: SizeHints { min_size: Some(PixelSize { width: 20, height: 10 }), max_size: None }
            },
            Request::SetHints { window: 50, initial_state: None },
            Request::SetWindowType { window: 50, window_type: WindowType::Normal },
            name(50, NameProperty::WmName, "Hi"),
            name(50, NameProperty::NetWmName, "Hi"),
        ]
    );
    assert_eq!(built.handle, WindowHandle::new(50, 33));
    assert_eq!(
        built.delivery,
        Delivery::Calls(vec![
            HandlerCall::Connect,
            HandlerCall::Scale(Scale::new(131072, 131072).unwrap()),
            HandlerCall::Size(Size::new(100 * UNIT, 50 * UNIT)),
        ])
    );
    let w = a.window(50).unwrap();
    assert_eq!(w.parent(), None);
    assert_eq!(w.size().size_px(), Size::new(200 * UNIT, 100 * UNIT));
}

#[test]
fn build_transparent_tooltip() {
    let mut a = app();
    let built = WindowBuilder::new()
        .handler()
        .transparent(true)
        .resizable(false)
        .level(WindowLevel::Tooltip(7))
        .window_state(WindowState::Minimized)
        .position(Point::new(UNIT, 2 * UNIT))
        .build(&mut a, BuildEnv { pid: -1, program_name: None, ..env() });
    assert_eq!(
        built.requests,
        vec![
            Request::CreateColormap { colormap: 51, root: 100, visual: 77 },
            Request::CreateWindow {
                depth: 32,
                window: 50,
                parent: 100,
                x: 22,
                y: 44,
                width: 1000,
                height: 800,
                visual: 77,
                colormap: Some(51),
                border_pixel: Some(0xffffff),
            },
            Request::EnablePointers(50),
            Request::FreeColormap(51),
            Request::SetProtocols(50),
            Request::SetNormalHints {
                window: 50,
                hints: SizeHints {
                    min_size: Some(PixelSize { width: 1000, height: 800 }),
                    max_size: Some(PixelSize { width: 1000, height: 800 })
                }
            },
            Request::SetHints { window: 50, initial_state: Some(InitialState::Iconic) },
            Request::SetWindowType { window: 50, window_type: WindowType::Tooltip },
            Request::SetOverrideRedirect(50),
            name(50, NameProperty::WmName, ""),
            name(50, NameProperty::NetWmName, ""),
            Request::Move { window: 50, x: 22, y: 44 },
        ]
    );
    assert_eq!(built.handle, WindowHandle::new(50, 77));
    assert_eq!(a.window(50).unwrap().parent(), Some(7));
}

#[test]
fn build_without_compositor_is_opaque() {
    let mut a = app();
    let built = WindowBuilder::new()
        .handler()
        .transparent(true)
        .level(WindowLevel::Modal(7))
        .window_state(WindowState::Maximized)
        .build(&mut a, BuildEnv { compositor_owner: Some(0), ..env() });
    assert_eq!(built.handle.visual_id, 33);
    assert!(!built.requests.iter().any(|r| matches!(r, Request::CreateColormap { .. })));
    assert!(built.requests.contains(&Request::SetWindowType { window: 50, window_type: WindowType::Dialog }));
    assert!(built.requests.contains(&Request::SetHints { window: 50, initial_state: Some(InitialState::Normal) }));
    let mut a = app();
    let built = WindowBuilder::new().handler().level(WindowLevel::DropDown(7)).build(&mut a, env());
    assert!(built
        .requests
        .contains(&Request::SetWindowType { window: 50, window_type: WindowType::DropdownMenu }));
}

fn key(state: KeyState) -> KeyEvent {
    KeyEvent { scancode: 38, keysym: 0x61, state, repeat: false }
}

fn clear(f: TextFieldToken) -> Vec<HandlerCall> {
    vec![
        HandlerCall::AcquireInputLock(f),
        HandlerCall::ClearCompositionRange(f),
        HandlerCall::ReleaseInputLock(f),
    ]
}

#[test]
fn key_down_feeds_the_focused_text_field() {
    let mut w = window();
    let mut xkb = KeyEventsState::new();
    let f = TextFieldToken(4);
    assert_eq!(w.handle_key_event(key(KeyState::Down), &mut xkb), Delivery::Calls(vec![HandlerCall::KeyDown(key(KeyState::Down))]));
    // no text field has the focus: nothing follows
    assert_eq!(w.key_down_unhandled(key(KeyState::Down), &mut xkb), vec![]);
    w.handler_done();
    w.set_focused_text_field(Some(f));
    w.handle_key_event(key(KeyState::Down), &mut xkb);
    assert_eq!(
        w.key_down_unhandled(key(KeyState::Down), &mut xkb),
        vec![
            HandlerCall::AcquireInputLock(f),
            HandlerCall::ComposeKey(f, key(KeyState::Down)),
            HandlerCall::ReleaseInputLock(f),
        ]
    );
    // the client is busy with the key: a second key is dropped
    assert_eq!(w.handle_key_event(key(KeyState::Up), &mut xkb), Delivery::Busy);
}

#[test]
fn changing_the_text_field_cancels_the_composition() {
    let mut w = window();
    let mut xkb = KeyEventsState::new();
    let (f, g) = (TextFieldToken(4), TextFieldToken(5));
    w.set_focused_text_field(Some(f));
    assert_eq!(w.reset_text_fields_if_needed(&mut xkb), (Some(f), vec![]));
    xkb.set_composing(true);
    // same field, no reset flagged: the composition goes on
    assert_eq!(w.reset_text_fields_if_needed(&mut xkb), (Some(f), vec![]));
    assert!(xkb.is_composing());
    w.set_focused_text_field(Some(g));
    let mut expected = vec![HandlerCall::KeyUp(key(KeyState::Up))];
    expected.extend(clear(f));
    assert_eq!(w.handle_key_event(key(KeyState::Up), &mut xkb), Delivery::Calls(expected));
    assert!(!xkb.is_composing());
    w.handler_done();
    // the new field is active now
    xkb.set_composing(true);
    w.update_text_field(f, TextEvent::Reset);
    assert_eq!(w.reset_text_fields_if_needed(&mut xkb), (Some(g), vec![]));
    w.update_text_field(g, TextEvent::SelectionChanged);
    assert_eq!(w.reset_text_fields_if_needed(&mut xkb), (Some(g), clear(g)));
    assert!(!xkb.is_composing());
}

#[test]
fn removing_a_text_field_flags_a_reset() {
    let mut w = window();
    let mut xkb = KeyEventsState::new();
    let f = TextFieldToken(4);
    w.set_focused_text_field(Some(f));
    w.reset_text_fields_if_needed(&mut xkb);
    xkb.set_composing(true);
    w.remove_text_field(TextFieldToken(9));
    assert_eq!(w.reset_text_fields_if_needed(&mut xkb), (Some(f), vec![]));
    w.remove_text_field(f);
    // the field is gone: the composition is cancelled, and there is no field to clear
    assert_eq!(w.reset_text_fields_if_needed(&mut xkb), (None, vec![]));
    assert!(!xkb.is_composing());
}

#[test]
fn lost_focus_commits_the_composition() {
    let mut w = window();
    let mut xkb = KeyEventsState::new();
    let f = TextFieldToken(4);
    assert_eq!(w.handle_lost_focus(&mut xkb), Delivery::Calls(vec![HandlerCall::LostFocus]));
    w.handler_done();
    w.set_focused_text_field(Some(f));
    w.reset_text_fields_if_needed(&mut xkb);
    xkb.set_composing(true);
    assert!(matches!(w.handle_got_focus(), Delivery::Calls(_)));
    assert_eq!(w.handle_lost_focus(&mut xkb), Delivery::Busy);
    assert!(xkb.is_composing());
    w.handler_done();
    assert_eq!(
        w.handle_lost_focus(&mut xkb),
        Delivery::Calls(vec![
            HandlerCall::LostFocus,
            HandlerCall::AcquireInputLock(f),
            HandlerCall::CommitComposition(f),
            HandlerCall::ReleaseInputLock(f),
        ])
    );
    assert!(!xkb.is_composing());
    w.handler_done();
    assert_eq!(w.handle_lost_focus(&mut xkb), Delivery::Calls(vec![HandlerCall::LostFocus]));
}

#[test]
fn compose_state_cancels_once() {
    let mut xkb = KeyEventsState::new();
    assert!(!xkb.cancel_composing());
    xkb.set_composing(true);
    assert!(xkb.cancel_composing());
    assert!(!xkb.cancel_composing());
}

#[test]
fn handles_reach_their_window_through_the_application() {
    let mut a = app();
    a.add_window(window());
    let h = WindowHandle::new(7, 33);
    assert_eq!(h.show(&a), Some(Request::MapWindow(7)));
    assert_eq!(h.get_size(&a), Size::new(150 * UNIT, 100 * UNIT));
    assert_eq!(h.get_scale(&a), Ok(Scale::new(131072, 131072).unwrap()));
    assert_eq!(h.get_position(&a, Some(Point::new(40 * UNIT, 20 * UNIT)), Vec2::new(0, 0)), Point::new(20 * UNIT, 10 * UNIT));
    assert_eq!(h.set_position(&a, Point::new(UNIT, UNIT), Vec2::new(0, 0)), Some(Request::Move { window: 7, x: 2, y: 2 }));
    assert_eq!(h.set_size(&a, Size::new(UNIT, UNIT)), Some(Request::Resize { window: 7, width: 2, height: 2 }));
    assert_eq!(h.bring_to_front_and_focus(&a), vec![Request::Raise(7), Request::SetInputFocus(7)]);
    assert_eq!(h.set_title(&a, "t").len(), 2);
    assert_eq!(h.set_cursor(&a, &Cursor::Pointer), Some(Request::SetCursor { window: 7, cursor: 3 }));
    assert!(h.resizable(&a, true).is_some());
    assert_eq!(h.show_titlebar(&a, true), None);
    assert_eq!(h.content_insets(), Insets::zero());
    assert_eq!(h.get_window_state(), WindowState::Restored);
    assert_eq!(h.set_window_state(WindowState::Maximized), None);
    assert_eq!(h.handle_titlebar(true), None);
    assert_eq!(h.set_menu(), None);
    assert_eq!(h.show_context_menu(Point::new(0, 0)), None);
    assert_eq!(h.make_cursor(&a, &CursorDesc { width: 1, height: 1, hot: Point::new(0, 0) }), None);
    assert!(h.request_anim_frame(&mut a));
    assert!(!h.invalidate_rect(&mut a, Rect::new(0, 0, UNIT, UNIT)));
    assert!(!h.invalidate(&mut a));
    assert_eq!(h.request_timer(&mut a, Instant::from_nanos(9)), TimerToken(1));
    assert_eq!(h.add_text_field(&mut a), TextFieldToken(1));
    assert_eq!(h.add_text_field(&mut a), TextFieldToken(2));
    h.set_focused_text_field(&mut a, Some(TextFieldToken(1)));
    h.update_text_field(&mut a, TextFieldToken(1), TextEvent::LayoutChanged);
    h.remove_text_field(&mut a, TextFieldToken(1));
    let options = FileDialogOptions { show_hidden: false, select_directories: false, multi_selection: false };
    assert_eq!(h.open_file(&mut a, options), Some(FileDialogToken(1)));
    assert_eq!(h.save_as(&mut a, options), Some(FileDialogToken(2)));
    let idle = h.get_idle_handle(&a).unwrap();
    assert_eq!(idle, IdleHandle { window: 7 });
    assert!(!idle.add_idle_token(&mut a, IdleToken::new(1)));
    assert!(!idle.add_idle_callback(&mut a, IdleCallback(1)));
    assert!(!idle.schedule_redraw(&mut a));
}

#[test]
fn handles_without_a_window_do_nothing() {
    let mut a = app();
    a.add_window(window());
    let before = a.clone();
    for h in [WindowHandle::default(), WindowHandle::new(8, 33), WindowHandle { attached: false, ..WindowHandle::new(7, 33) }] {
        assert_eq!(h.show(&a), None);
        assert_eq!(h.close(&mut a), None);
        assert_eq!(h.get_size(&a), Size::new(0, 0));
        assert_eq!(h.get_scale(&a), Ok(Scale::identity()));
        assert_eq!(h.get_position(&a, Some(Point::new(5, 5)), Vec2::new(0, 0)), Point::new(0, 0));
        assert_eq!(h.set_position(&a, Point::new(UNIT, UNIT), Vec2::new(0, 0)), None);
        assert_eq!(h.set_size(&a, Size::new(UNIT, UNIT)), None);
        assert_eq!(h.bring_to_front_and_focus(&a), vec![]);
        assert_eq!(h.set_title(&a, "t"), vec![]);
        assert_eq!(h.set_cursor(&a, &Cursor::Pointer), None);
        assert_eq!(h.resizable(&a, true), None);
        assert!(!h.request_anim_frame(&mut a));
        assert!(!h.invalidate_rect(&mut a, Rect::new(0, 0, UNIT, UNIT)));
        assert!(!h.invalidate(&mut a));
        assert_eq!(h.request_timer(&mut a, Instant::from_nanos(9)), TimerToken::invalid());
        h.set_focused_text_field(&mut a, Some(TextFieldToken(1)));
        h.update_text_field(&mut a, TextFieldToken(1), TextEvent::LayoutChanged);
        h.remove_text_field(&mut a, TextFieldToken(1));
        let options = FileDialogOptions { show_hidden: false, select_directories: false, multi_selection: false };
        assert_eq!(h.open_file(&mut a, options), None);
        assert_eq!(h.save_as(&mut a, options), None);
        assert_eq!(h.get_idle_handle(&a), None);
        assert_eq!(a, before);
    }
    let gone = IdleHandle { window: 8 };
    assert!(!gone.add_idle_token(&mut a, IdleToken::new(1)));
    assert_eq!(a, before);
}

#[test]
fn window_handles_compare_by_id() {
    assert_eq!(WindowHandle::new(7, 1), WindowHandle::new(7, 2));
    assert_ne!(WindowHandle::new(7, 1), WindowHandle::new(8, 1));
    assert_eq!(WindowHandle::default(), WindowHandle { id: 0, visual_id: 5, attached: true });
}

#[test]
fn make_cursor_needs_the_render_extension() {
    let mut s = Setup {
        screens: vec![Screen { root: 1, root_depth: 24, white_pixel: 0, root_visual: Some(Visualtype { visual_id: 1, depth: 24 }), argb_visual: None }],
        screen_num: 0,
        window_id: 9,
        cursors: cursors(),
        pointers: vec![],
        render_version: Some((0, 11)),
        pict_formats: vec![],
    };
    let desc = CursorDesc { width: 1, height: 1, hot: Point::new(0, 0) };
    let a = Application::new(s.clone()).unwrap();
    assert_eq!(WindowHandle::new(7, 1).make_cursor(&a, &desc), None);
    s.pict_formats = vec![glazier::backend::x11::application::Pictforminfo {
        id: 4,
        type_: glazier::backend::x11::application::PictType::Direct,
        depth: 32,
        direct: glazier::backend::x11::application::Directformat {
            red_shift: 16,
            red_mask: 0xff,
            green_shift: 8,
            green_mask: 0xff,
            blue_shift: 0,
            blue_mask: 0xff,
            alpha_shift: 24,
            alpha_mask: 0xff,
        },
    }];
    let a = Application::new(s).unwrap();
    assert_eq!(WindowHandle::new(7, 1).make_cursor(&a, &desc), Some(Cursor::Arrow));
    assert_eq!(WindowHandle::default().make_cursor(&a, &desc), None);
}

#[test]
fn wake_is_retried_after_interruptions() {
    assert!(IdleHandle::wake(WriteOutcome::Interrupted));
    assert!(IdleHandle::wake(WriteOutcome::WouldBlock));
    assert!(!IdleHandle::wake(WriteOutcome::Written(1)));
    assert!(!IdleHandle::wake(WriteOutcome::Written(0)));
    assert!(!IdleHandle::wake(WriteOutcome::Failed(9)));
    assert_eq!(Error::IdlePipe(9), Error::IdlePipe(9));
}
