use glazier::backend::x11::window::Window;
use glazier::handler::{Delivery, HandlerCall};
use glazier::kurbo::Size;
use glazier::scale::Scale;
use glazier::time::Instant;
use glazier::timer::{Timer, TimerQueue};
use glazier::window::{Counter, TimerToken};

const UNIT: i64 = 65536;

fn at(nanos: u64) -> Instant {
    Instant::from_nanos(nanos)
}

fn window() -> Window {
    Window::new(7, Size::new(100 * UNIT, 50 * UNIT), Scale::identity(), Size::zero(), None)
}

#[test]
fn counter_starts_at_one_and_ends_at_the_top() {
    let mut c = Counter::new();
    assert_eq!(c.next(), Some(1));
    assert_eq!(c.next(), Some(2));
    assert_eq!(TimerToken::invalid(), TimerToken(0));
    assert_eq!(TimerToken(9).into_raw(), 9);
}

#[test]
fn queue_orders_by_deadline_and_then_by_arrival() {
    let mut q = TimerQueue::new();
    assert_eq!(q.peek(), None);
    q.push(Timer::new(at(30), TimerToken(1)));
    q.push(Timer::new(at(10), TimerToken(2)));
    q.push(Timer::new(at(30), TimerToken(3)));
    q.push(Timer::new(at(20), TimerToken(4)));
    q.push(Timer::new(at(10), TimerToken(5)));
    assert_eq!(q.len(), 5);
    assert_eq!(q.peek(), Some(Timer::new(at(10), TimerToken(2))));
    let fired = q.pop_expired(at(1000));
    let tokens: Vec<u64> = fired.iter().map(|t| t.token().into_raw()).collect();
    assert_eq!(tokens, vec![2, 5, 4, 1, 3]);
    assert_eq!(q.len(), 0);
}

#[test]
fn pop_expired_takes_exactly_what_is_due() {
    let mut q = TimerQueue::new();
    for (i, d) in [50u64, 10, 40, 20, 30].iter().enumerate() {
        q.push(Timer::new(at(*d), TimerToken(i as u64 + 1)));
    }
    assert!(q.pop_expired(at(9)).is_empty());
    assert_eq!(q.len(), 5);
    let fired = q.pop_expired(at(30));
    let deadlines: Vec<u64> = fired.iter().map(|t| t.deadline().nanos).collect();
    assert_eq!(deadlines, vec![10, 20, 30]);
    assert_eq!(q.len(), 2);
    assert_eq!(q.peek().map(|t| t.deadline().nanos), Some(40));
    assert!(q.pop_expired(at(30)).is_empty());
    let fired = q.pop_expired(at(u64::MAX));
    assert_eq!(fired.len(), 2);
}

#[test]
fn run_timers_fires_due_timers_in_order_and_each_once() {
    let mut w = window();
    let mut tokens = Counter::new();
    let a = w.request_timer(at(300), &mut tokens);
    let b = w.request_timer(at(100), &mut tokens);
    let c = w.request_timer(at(200), &mut tokens);
    let d = w.request_timer(at(100), &mut tokens);
    assert_eq!((a, b, c, d), (TimerToken(1), TimerToken(2), TimerToken(3), TimerToken(4)));
    assert_eq!(w.next_timeout(), Some(at(100)));
    assert_eq!(w.run_timers(at(99)), Delivery::Nothing);
    assert!(!w.handler_active());
    assert_eq!(
        w.run_timers(at(200)),
        Delivery::Calls(vec![HandlerCall::Timer(b), HandlerCall::Timer(d), HandlerCall::Timer(c)])
    );
    assert!(w.handler_active());
    w.handler_done();
    assert_eq!(w.next_timeout(), Some(at(300)));
    assert_eq!(w.run_timers(at(200)), Delivery::Nothing);
    assert_eq!(w.run_timers(at(300)), Delivery::Calls(vec![HandlerCall::Timer(a)]));
    w.handler_done();
    assert_eq!(w.next_timeout(), None);
    assert_eq!(w.run_timers(at(u64::MAX)), Delivery::Nothing);
}

#[test]
fn timers_due_while_the_client_is_busy_are_dropped() {
    let mut w = window();
    let mut tokens = Counter::new();
    w.request_timer(at(5), &mut tokens);
    w.request_timer(at(50), &mut tokens);
    assert!(matches!(w.handle_got_focus(), Delivery::Calls(_)));
    assert_eq!(w.run_timers(at(10)), Delivery::Busy);
    w.handler_done();
    assert_eq!(w.run_timers(at(10)), Delivery::Nothing);
    assert_eq!(w.next_timeout(), Some(at(50)));
}

#[test]
fn queues_built_by_push_are_well_formed() {
    let mut q = TimerQueue::new();
    assert!(q.is_well_formed());
    for d in [5u64, 1, 9, 5, 0, u64::MAX, 7] {
        q.push(Timer::new(at(d), TimerToken(d)));
        assert!(q.is_well_formed());
    }
    q.pop_expired(at(5));
    assert!(q.is_well_formed());
}
