use glazier::backend::web::window::{PageEnv, WindowBuilder as WebBuilder};
use glazier::backend::x11::window::{IdleKind, IdleRun, Window};
use glazier::handler::{Delivery, HandlerCall};
use glazier::kurbo::{Rect, Size};
use glazier::region::Region;
use glazier::scale::Scale;
use glazier::window::{IdleCallback, IdleToken};

const UNIT: i64 = 65536;

fn rect(x0: i64, y0: i64, x1: i64, y1: i64) -> Rect {
    Rect::new(x0 * UNIT, y0 * UNIT, x1 * UNIT, y1 * UNIT)
}

fn window() -> Window {
    Window::new(1, Size::new(100 * UNIT, 50 * UNIT), Scale::identity(), Size::zero(), None)
}

fn painted(d: Delivery) -> Region {
    match d {
        Delivery::Calls(calls) => {
            assert_eq!(calls.len(), 2);
            assert_eq!(calls[0], HandlerCall::PreparePaint);
            match &calls[1] {
                HandlerCall::Paint(r) => r.clone(),
                other => panic!("no paint: {:?}", other),
            }
        }
        other => panic!("no calls: {:?}", other),
    }
}

#[test]
fn render_paints_the_union_of_invalidations_clipped_to_the_window() {
    let mut w = window();
    assert!(w.invalidate_rect(rect(1, 1, 5, 5)));
    assert!(!w.invalidate_rect(rect(90, 40, 120, 60)));
    assert!(!w.invalidate_rect(rect(200, 200, 300, 300)));
    assert!(!w.invalidate_rect(rect(3, 3, 3, 9)));
    let run = w.run_idle();
    assert_eq!(run, IdleRun { delivery: Delivery::Calls(vec![]), needs_redraw: true });
    w.handler_done();
    let region = painted(w.render());
    assert_eq!(region.rects(), &vec![rect(1, 1, 5, 5), rect(90, 40, 100, 50)]);
    w.handler_done();
    // nothing is invalid right after the frame
    assert!(painted(w.render()).is_empty());
}

#[test]
fn invalidation_covers_whole_device_pixels() {
    let scale = Scale::new(131072, 131072).unwrap();
    let mut w = Window::new(1, Size::new(200 * UNIT, 100 * UNIT), scale, Size::zero(), None);
    // a quarter of a device-independent pixel is half a device pixel
    w.invalidate_rect(Rect::new(UNIT / 4, UNIT / 4, UNIT / 2 + 1, UNIT / 2));
    w.handler_done();
    let region = painted(w.render());
    assert_eq!(region.rects(), &vec![Rect::new(0, 0, UNIT, UNIT / 2)]);
}

#[test]
fn invalidate_marks_the_whole_window() {
    let mut w = window();
    w.invalidate();
    let region = painted(w.render());
    assert_eq!(region.rects(), &vec![rect(0, 0, 100, 50)]);
}

#[test]
fn destroyed_window_is_not_painted() {
    let mut w = window();
    w.invalidate();
    w.destroy();
    assert_eq!(w.render(), Delivery::Calls(vec![HandlerCall::PreparePaint]));
    w.handler_done();
    assert_eq!(w.redraw_now(), Delivery::Calls(vec![HandlerCall::PreparePaint]));
}

#[test]
fn idle_adds_wake_once_and_run_in_order() {
    let mut w = window();
    assert!(w.add_idle(IdleKind::Token(IdleToken::new(3))));
    assert!(!w.add_idle(IdleKind::Callback(IdleCallback(9))));
    assert!(!w.add_idle(IdleKind::Token(IdleToken::new(1))));
    assert!(!w.add_idle(IdleKind::Callback(IdleCallback(2))));
    let run = w.run_idle();
    assert_eq!(
        run.delivery,
        Delivery::Calls(vec![
            HandlerCall::Idle(IdleToken::new(3)),
            HandlerCall::IdleCallback(IdleCallback(9)),
            HandlerCall::Idle(IdleToken::new(1)),
            HandlerCall::IdleCallback(IdleCallback(2)),
        ])
    );
    assert!(!run.needs_redraw);
    w.handler_done();
    // the queue is empty again: the next add wakes the loop
    assert_eq!(w.run_idle().delivery, Delivery::Calls(vec![]));
    w.handler_done();
    assert!(w.add_idle(IdleKind::Token(IdleToken::new(4))));
}

#[test]
fn idle_work_is_dropped_while_the_client_is_busy() {
    let mut w = window();
    w.add_idle(IdleKind::Token(IdleToken::new(3)));
    w.request_anim_frame();
    assert!(matches!(w.handle_got_focus(), Delivery::Calls(_)));
    assert_eq!(w.run_idle(), IdleRun { delivery: Delivery::Busy, needs_redraw: false });
    w.handler_done();
    assert_eq!(w.run_idle(), IdleRun { delivery: Delivery::Calls(vec![]), needs_redraw: false });
}

#[test]
fn redraw_marks_ask_for_one_frame() {
    let mut w = window();
    w.request_anim_frame();
    w.add_idle(IdleKind::Token(IdleToken::new(1)));
    w.request_anim_frame();
    let run = w.run_idle();
    assert!(run.needs_redraw);
    assert_eq!(run.delivery, Delivery::Calls(vec![HandlerCall::Idle(IdleToken::new(1))]));
}

#[test]
fn web_invalidations_ask_the_page_for_one_frame() {
    let env = PageEnv { serial: 1, dpr: 65536, offset_size: Size::new(100 * UNIT, 50 * UNIT), canvas_size: None };
    let built = WebBuilder::new().handler().build(env).unwrap();
    let mut handle = built.handle;
    handle.state_mut().unwrap().handler_done();
    assert!(handle.invalidate_rect(rect(1, 1, 2, 2)));
    assert!(!handle.invalidate_rect(rect(5, 5, 200, 200)));
    assert!(!handle.invalidate());
    assert!(!handle.request_anim_frame());
    assert!(!handle.show());
    let region = painted(handle.state_mut().unwrap().animation_frame());
    assert_eq!(region.rects(), &vec![rect(1, 1, 2, 2), rect(5, 5, 100, 50), rect(0, 0, 100, 50)]);
    handle.state_mut().unwrap().handler_done();
    assert!(handle.render_soon());
    assert!(painted(handle.state_mut().unwrap().render()).is_empty());
}
