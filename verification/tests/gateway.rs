use glazier::backend::x11::window::Window;
use glazier::handler::{Delivery, HandlerCall, HandlerGateway};
use glazier::kurbo::Size;
use glazier::scale::Scale;

const UNIT: i64 = 65536;

fn window() -> Window {
    Window::new(1, Size::new(10 * UNIT, 10 * UNIT), Scale::identity(), Size::zero(), None)
}

#[test]
fn gateway_lets_one_activation_in() {
    let mut g = HandlerGateway::new();
    assert!(!g.is_active());
    assert!(g.try_enter());
    assert!(g.is_active());
    assert!(!g.try_enter());
    assert!(!g.try_enter());
    assert!(g.is_active());
    g.leave();
    assert!(!g.is_active());
    assert!(g.try_enter());
}

#[test]
fn gateway_drops_calls_while_active() {
    let mut g = HandlerGateway::new();
    assert_eq!(g.deliver(vec![HandlerCall::GotFocus]), Delivery::Calls(vec![HandlerCall::GotFocus]));
    assert_eq!(g.deliver(vec![HandlerCall::LostFocus]), Delivery::Busy);
    g.leave();
    assert_eq!(g.deliver(vec![]), Delivery::Calls(vec![]));
}

#[test]
fn reentrant_call_into_a_window_is_rejected() {
    let mut w = window();
    assert_eq!(w.handle_got_focus(), Delivery::Calls(vec![HandlerCall::GotFocus]));
    // the client, while it handles the call, causes another event for the window
    assert_eq!(w.handle_leave_notify(), Delivery::Busy);
    assert_eq!(w.handle_destroy_notify(), Delivery::Busy);
    assert_eq!(w.render(), Delivery::Busy);
    assert_eq!(w.connect(), Delivery::Busy);
    w.handler_done();
    assert_eq!(w.handle_leave_notify(), Delivery::Calls(vec![HandlerCall::PointerLeave]));
}

#[test]
fn queue_operations_are_allowed_while_the_client_runs() {
    let mut w = window();
    assert!(matches!(w.handle_got_focus(), Delivery::Calls(_)));
    assert!(w.request_anim_frame());
    assert!(!w.invalidate());
    assert!(w.handler_active());
    w.handler_done();
    assert!(!w.handler_active());
}
