use glazier::backend::x11::event::{ButtonPressEvent, ModifierInfo, TouchBeginEvent};
use glazier::backend::x11::pointer::{
    axis_present, read_axis, tilt, AxisValues, DeviceInfo, DeviceKind, DeviceType, Fp3232, PointersState,
    Valuator, Valuators,
};
use glazier::backend::x11::window::{
    effective_mask, key_mods, pointer_button, pointer_buttons, to_i16, to_i32, to_u16, to_u32,
    touch_pointer_id, wheel_delta, Window, TOUCH_EMULATING_POINTER,
};
use glazier::error::Error;
use glazier::handler::{Delivery, HandlerCall};
use glazier::keyboard::Modifiers;
use glazier::kurbo::{Point, Size, Vec2};
use glazier::pointer::{
    MouseInfo, PenInfo, PointerButton, PointerButtons, PointerEvent, PointerId, PointerType, TouchInfo,
};
use glazier::scale::Scale;

const UNIT: i64 = 65536;

fn window() -> Window {
    Window::new(1, Size::new(100 * UNIT, 50 * UNIT), Scale::new(131072, 131072).unwrap(), Size::zero(), None)
}

fn no_mods() -> ModifierInfo {
    ModifierInfo { base: 0, latched: 0, locked: 0, effective: 0 }
}

fn no_axes() -> AxisValues {
    AxisValues { pressure: None, x_tilt: None, y_tilt: None }
}

fn button(detail: u32) -> ButtonPressEvent {
    ButtonPressEvent {
        event: 1,
        deviceid: 2,
        sourceid: 11,
        detail,
        event_x: 20 << 16,
        event_y: 10 << 16,
        mods: no_mods(),
        axisvalues: no_axes(),
        time: 0,
    }
}

fn mouse(id: u16, device_type: DeviceType) -> DeviceInfo {
    DeviceInfo {
        id,
        device_type,
        device_kind: DeviceKind::Mouse,
        valuators: Valuators { pressure: None, x_tilt: None, y_tilt: None },
    }
}

fn pen(id: u16, kind: DeviceKind) -> DeviceInfo {
    DeviceInfo {
        id,
        device_type: DeviceType::SlavePointer,
        device_kind: kind,
        valuators: Valuators {
            pressure: Some(Valuator { number: 2, min: 0, max: 2048 * UNIT }),
            x_tilt: Some(Valuator { number: 3, min: -64 * UNIT, max: 63 * UNIT }),
            y_tilt: None,
        },
    }
}

#[test]
fn button_codes_map_to_buttons() {
    assert_eq!(pointer_button(0), PointerButton::NoButton);
    assert_eq!(pointer_button(1), PointerButton::Primary);
    assert_eq!(pointer_button(2), PointerButton::Auxiliary);
    assert_eq!(pointer_button(3), PointerButton::Secondary);
    for scroll in 4..=7 {
        assert_eq!(pointer_button(scroll), PointerButton::NoButton);
    }
    assert_eq!(pointer_button(8), PointerButton::X1);
    assert_eq!(pointer_button(9), PointerButton::X2);
    assert_eq!(pointer_button(10), PointerButton::NoButton);
    assert_eq!(pointer_button(u32::MAX), PointerButton::NoButton);
}

#[test]
fn button_masks_map_to_held_buttons() {
    assert_eq!(pointer_buttons(0), PointerButtons::new());
    assert_eq!(pointer_buttons(0x0100), PointerButtons::new().with(PointerButton::Primary));
    assert_eq!(pointer_buttons(0x0200), PointerButtons::new().with(PointerButton::Auxiliary));
    assert_eq!(pointer_buttons(0x0400), PointerButtons::new().with(PointerButton::Secondary));
    // the bits of buttons four and five stand for the wheel
    assert_eq!(pointer_buttons(0x1800), PointerButtons::new());
    let all = pointer_buttons(0xffff);
    assert!(all.contains(PointerButton::Primary));
    assert!(all.contains(PointerButton::Auxiliary));
    assert!(all.contains(PointerButton::Secondary));
    assert!(!all.contains(PointerButton::X1));
    assert!(!all.contains(PointerButton::X2));
    assert!(!all.contains(PointerButton::NoButton));
}

#[test]
fn button_sets_insert_and_remove() {
    let b = PointerButtons::new().with(PointerButton::X1).with(PointerButton::NoButton);
    assert!(b.contains(PointerButton::X1));
    assert_eq!(b.without(PointerButton::X1), PointerButtons::new());
    assert_eq!(b.without(PointerButton::X2), b);
    let mut c = PointerButtons::new();
    c.insert(PointerButton::Secondary);
    assert!(c.contains(PointerButton::Secondary));
}

#[test]
fn modifier_masks_map_to_modifiers() {
    assert_eq!(key_mods(0), Modifiers::empty());
    assert_eq!(key_mods(0x0001), Modifiers { shift: true, ..Modifiers::empty() });
    assert_eq!(key_mods(0x0002), Modifiers { caps_lock: true, ..Modifiers::empty() });
    assert_eq!(key_mods(0x0004), Modifiers { control: true, ..Modifiers::empty() });
    assert_eq!(key_mods(0x0008), Modifiers { alt: true, ..Modifiers::empty() });
    assert_eq!(key_mods(0x0010), Modifiers { num_lock: true, ..Modifiers::empty() });
    assert_eq!(key_mods(0x0020), Modifiers::empty());
    assert_eq!(key_mods(0x0040), Modifiers { meta: true, ..Modifiers::empty() });
    assert_eq!(key_mods(0x0080), Modifiers::empty());
    assert_eq!(key_mods(0x0100), Modifiers::empty());
    assert_eq!(Modifiers::default(), Modifiers::empty());
    assert!(key_mods(0x0005).shift());
}

#[test]
fn effective_mask_joins_the_low_halves() {
    let m = ModifierInfo { base: 0x0001_0001, latched: 0x0004, locked: 0xffff_0100, effective: 0x8000 };
    assert_eq!(effective_mask(m), 0x0105);
}

#[test]
fn wheel_codes_map_to_deltas() {
    let n = 120 * UNIT;
    assert_eq!(wheel_delta(4, false), Some(Vec2::new(0, -n)));
    assert_eq!(wheel_delta(4, true), Some(Vec2::new(-n, 0)));
    assert_eq!(wheel_delta(5, false), Some(Vec2::new(0, n)));
    assert_eq!(wheel_delta(5, true), Some(Vec2::new(n, 0)));
    assert_eq!(wheel_delta(6, false), Some(Vec2::new(-n, 0)));
    assert_eq!(wheel_delta(6, true), Some(Vec2::new(-n, 0)));
    assert_eq!(wheel_delta(7, false), Some(Vec2::new(n, 0)));
    assert_eq!(wheel_delta(3, false), None);
    assert_eq!(wheel_delta(8, true), None);
}

#[test]
fn touch_ids_fold_device_and_contact() {
    assert_eq!(touch_pointer_id(5, 0), PointerId(5));
    assert_eq!(touch_pointer_id(5, 1), PointerId(5 | (1 << 32)));
    assert_eq!(touch_pointer_id(0xffff, 0xffff_ffff), PointerId(0xffff_ffff_0000_ffff));
    assert_ne!(touch_pointer_id(1, 2), touch_pointer_id(2, 1));
}

#[test]
fn whole_unit_casts_saturate() {
    assert_eq!(to_i32(3 * UNIT + 9), 3);
    assert_eq!(to_i32(-3 * UNIT - 9), -3);
    assert_eq!(to_i32(i64::MAX), i32::MAX);
    assert_eq!(to_i32(i64::MIN), i32::MIN);
    assert_eq!(to_i16(40000 * UNIT), i16::MAX);
    assert_eq!(to_i16(-40000 * UNIT), i16::MIN);
    assert_eq!(to_i16(-7 * UNIT), -7);
    assert_eq!(to_u16(-UNIT), 0);
    assert_eq!(to_u16(70000 * UNIT), u16::MAX);
    assert_eq!(to_u16(500 * UNIT + 1), 500);
    assert_eq!(to_u32(-1), 0);
    assert_eq!(to_u32(i64::MAX), u32::MAX);
    assert_eq!(to_u32(9 * UNIT), 9);
}

#[test]
fn valuators_normalize_pressure() {
    let v = Valuator { number: 0, min: 0, max: 2048 };
    assert_eq!(v.normalize(Some(0)), 0);
    assert_eq!(v.normalize(Some(2048)), UNIT);
    assert_eq!(v.normalize(Some(1024)), UNIT / 2);
    assert_eq!(v.normalize(Some(512)), UNIT / 4);
    assert_eq!(v.normalize(None), 0);
    assert_eq!(v.normalize(Some(-5)), 0);
    assert_eq!(v.normalize(Some(5000)), UNIT);
    let shifted = Valuator { number: 0, min: 100, max: 300 };
    assert_eq!(shifted.normalize(Some(150)), UNIT / 4);
    assert_eq!(shifted.normalize(None), 0);
    assert_eq!(Valuator { number: 0, min: 7, max: 7 }.normalize(Some(7)), 0);
    assert_eq!(Valuator { number: 0, min: 9, max: 7 }.normalize(Some(8)), 0);
    assert_eq!(Valuator { number: 0, min: i64::MIN, max: i64::MAX }.normalize(Some(i64::MAX)), UNIT);
    assert_eq!(tilt(Some(v), Some(30)), 30);
    assert_eq!(tilt(Some(v), None), 0);
    assert_eq!(tilt(None, Some(30)), 0);
}

#[test]
fn device_lookup_finds_the_first_with_the_id() {
    let p = PointersState::new(vec![
        mouse(2, DeviceType::MasterPointer),
        pen(11, DeviceKind::Pen),
        mouse(11, DeviceType::SlavePointer),
    ]);
    assert_eq!(p.device_info(2), Some(mouse(2, DeviceType::MasterPointer)));
    assert_eq!(p.device_info(11), Some(pen(11, DeviceKind::Pen)));
    assert_eq!(p.device_info(3), None);
    assert_eq!(PointersState::new(vec![]).device_info(0), None);
}

fn base(w: &Window, ev: &ButtonPressEvent) -> PointerEvent {
    w.base_pointer_event(ev.event_x, ev.event_y, ev.mods, ev.detail, ev.sourceid)
}

#[test]
fn base_pointer_event_scales_the_position() {
    let w = window();
    let mut ev = button(1);
    ev.mods = ModifierInfo { base: 0x0101, latched: 0, locked: 0x0002, effective: 0 };
    assert_eq!(
        base(&w, &ev),
        PointerEvent {
            pointer_id: PointerId(11),
            is_primary: false,
            pointer_type: PointerType::Mouse(MouseInfo { wheel_delta: Vec2::new(0, 0) }),
            pos: Point::new(10 * UNIT, 5 * UNIT),
            buttons: PointerButtons::new().with(PointerButton::Primary),
            modifiers: Modifiers { shift: true, caps_lock: true, ..Modifiers::empty() },
            button: PointerButton::Primary,
            focus: false,
            count: 0,
        }
    );
}

#[test]
fn pointer_event_classifies_the_device() {
    let w = window();
    let mut ev = button(1);
    ev.axisvalues = AxisValues { pressure: Some(512 * UNIT), x_tilt: Some(-3 * UNIT), y_tilt: Some(9 * UNIT) };
    let master = Some(mouse(2, DeviceType::MasterPointer));
    let e = w.pointer_event(&ev, master, Some(pen(11, DeviceKind::Pen)));
    assert!(e.is_primary);
    let info = PenInfo { pressure: UNIT / 4, tangential_pressure: 0, tilt_x: -3 * UNIT, tilt_y: 0, twist: 0 };
    assert_eq!(e.pointer_type, PointerType::Pen(info));
    let e = w.pointer_event(&ev, None, Some(pen(11, DeviceKind::Eraser)));
    assert!(!e.is_primary);
    assert_eq!(e.pointer_type, PointerType::Eraser(info));
    let e = w.pointer_event(&ev, Some(mouse(2, DeviceType::SlavePointer)), Some(pen(11, DeviceKind::Touch)));
    assert!(!e.is_primary);
    assert_eq!(e.pointer_type, PointerType::plain_mouse());
    let e = w.pointer_event(&ev, master, None);
    assert_eq!(e.pointer_type, PointerType::plain_mouse());
    assert_eq!(PointerEvent { is_primary: false, ..e }, base(&w, &ev));
    // a pen without readings is at rest
    let e = w.pointer_event(&button(1), master, Some(pen(11, DeviceKind::Pen)));
    assert_eq!(
        e.pointer_type,
        PointerType::Pen(PenInfo { pressure: 0, tangential_pressure: 0, tilt_x: 0, tilt_y: 0, twist: 0 })
    );
}

#[test]
fn button_press_and_release_adjust_the_held_buttons() {
    let mut w = window();
    let ev = button(3);
    let e = w.pointer_event(&ev, None, None);
    assert_eq!(
        w.handle_button_press(&ev, None, None),
        Delivery::Calls(vec![HandlerCall::PointerDown(PointerEvent {
            buttons: PointerButtons::new().with(PointerButton::Secondary),
            count: 1,
            ..e
        })])
    );
    w.handler_done();
    let mut ev = button(3);
    ev.mods.base = 0x0400 | 0x0100;
    let e = w.pointer_event(&ev, None, None);
    assert_eq!(
        w.handle_button_release(&ev, None, None),
        Delivery::Calls(vec![HandlerCall::PointerUp(PointerEvent {
            buttons: PointerButtons::new().with(PointerButton::Primary),
            ..e
        })])
    );
    w.handler_done();
    assert_eq!(
        w.handle_motion_notify(&ev, None, None),
        Delivery::Calls(vec![HandlerCall::PointerMove(PointerEvent { button: PointerButton::NoButton, ..e })])
    );
}

#[test]
fn wheel_event_carries_the_delta_and_no_button() {
    let mut w = window();
    let mut ev = button(5);
    ev.mods.latched = 1;
    let e = w.pointer_event(&ev, None, None);
    assert_eq!(
        w.handle_wheel(&ev, None, None),
        Ok(Delivery::Calls(vec![HandlerCall::Wheel(PointerEvent {
            pointer_type: PointerType::Mouse(MouseInfo { wheel_delta: Vec2::new(120 * UNIT, 0) }),
            button: PointerButton::NoButton,
            ..e
        })]))
    );
    w.handler_done();
    assert_eq!(w.handle_wheel(&button(1), None, None), Err(Error::UnexpectedWheelButton(1)));
    assert_eq!(w.handle_wheel(&button(8), None, None), Err(Error::UnexpectedWheelButton(8)));
    assert!(!w.handler_active());
}

#[test]
fn touch_events_use_the_composite_id() {
    let mut w = window();
    let ev = TouchBeginEvent {
        event: 1,
        deviceid: 2,
        sourceid: 12,
        detail: 3,
        event_x: 8 << 16,
        event_y: 4 << 16,
        mods: no_mods(),
        flags: TOUCH_EMULATING_POINTER | 1 << 16,
        time: 0,
    };
    let e = w.pointer_touch_event(&ev);
    assert_eq!(
        e,
        PointerEvent {
            pointer_id: PointerId(12 | (3 << 32)),
            is_primary: true,
            pointer_type: PointerType::Touch(TouchInfo { contact_geometry: Size::new(0, 0), pressure: 0 }),
            pos: Point::new(4 * UNIT, 2 * UNIT),
            buttons: PointerButtons::new(),
            modifiers: Modifiers::empty(),
            button: PointerButton::Primary,
            focus: false,
            count: 0,
        }
    );
    let held = PointerButtons::new().with(PointerButton::Primary);
    assert_eq!(
        w.handle_touch_begin(&ev),
        Delivery::Calls(vec![HandlerCall::PointerDown(PointerEvent { buttons: held, ..e })])
    );
    w.handler_done();
    assert_eq!(w.handle_touch_update(&ev), Delivery::Calls(vec![HandlerCall::PointerMove(e)]));
    w.handler_done();
    assert_eq!(w.handle_touch_end(&ev), Delivery::Calls(vec![HandlerCall::PointerMove(e)]));
    w.handler_done();
    let second = TouchBeginEvent { flags: 1 << 16, detail: 4, ..ev };
    let e = w.pointer_touch_event(&second);
    assert!(!e.is_primary);
    assert_eq!(e.button, PointerButton::NoButton);
    assert_eq!(e.pointer_id, PointerId(12 | (4 << 32)));
}

#[test]
fn axis_values_are_read_by_their_place_in_the_mask() {
    let fp = |integral, frac| Fp3232 { integral, frac };
    assert_eq!(fp(3, 0x8000_0000).to_fixed(), 3 * UNIT + UNIT / 2);
    assert_eq!(fp(-1, 0x4000_ffff).to_fixed(), -UNIT + UNIT / 4);
    assert_eq!(fp(i32::MIN, 0).to_fixed(), i32::MIN as i64 * UNIT);
    // axes 0, 2 and 33 have values
    let mask = vec![0b101, 0b10];
    let values = vec![fp(10, 0), fp(20, 0), fp(30, 0)];
    assert!(axis_present(&mask, 0));
    assert!(!axis_present(&mask, 1));
    assert!(axis_present(&mask, 33));
    assert!(!axis_present(&mask, 64));
    assert_eq!(read_axis(&mask, &values, 0), Some(10 * UNIT));
    assert_eq!(read_axis(&mask, &values, 1), None);
    assert_eq!(read_axis(&mask, &values, 2), Some(20 * UNIT));
    assert_eq!(read_axis(&mask, &values, 33), Some(30 * UNIT));
    assert_eq!(read_axis(&mask, &values, 34), None);
    assert_eq!(read_axis(&mask, &values, u16::MAX), None);
    // a value that the event announces and does not carry
    assert_eq!(read_axis(&mask, &vec![fp(10, 0)], 2), None);
    let device = pen(11, DeviceKind::Pen);
    assert_eq!(
        device.read_axes(&vec![0b1100], &vec![fp(512, 0), fp(-3, 0)]),
        AxisValues { pressure: Some(512 * UNIT), x_tilt: Some(-3 * UNIT), y_tilt: None }
    );
    assert_eq!(
        device.read_axes(&vec![0b1000], &vec![fp(7, 0)]),
        AxisValues { pressure: None, x_tilt: Some(7 * UNIT), y_tilt: None }
    );
}
