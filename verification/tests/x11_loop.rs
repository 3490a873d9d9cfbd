use glazier::backend::x11::application::{
    drain_idle_pipe, idle_interval_millis, Application, Due, EventLoop, PollOutcome, PollState,
    PollStep, ReadOutcome, Screen, Setup, Visualtype, WaitPlan,
};
use glazier::backend::x11::window::{Cursors, Window};
use glazier::error::Error;
use glazier::kurbo::Size;
use glazier::scale::Scale;
use glazier::time::Instant;

const MS: u64 = 1_000_000;

fn at(ms: u64) -> Instant {
    Instant::from_nanos(ms * MS)
}

fn app() -> Application {
    Application::new(Setup {
        screens: vec![Screen {
            root: 100,
            root_depth: 24,
            white_pixel: 0,
            root_visual: Some(Visualtype { visual_id: 33, depth: 24 }),
            argb_visual: None,
        }],
        screen_num: 0,
        window_id: 9,
        cursors: Cursors {
            default: None,
            text: None,
            pointer: None,
            crosshair: None,
            not_allowed: None,
            row_resize: None,
            col_resize: None,
        },
        pointers: vec![],
        render_version: None,
        pict_formats: vec![],
    })
    .unwrap()
}

#[test]
fn idle_interval_is_one_frame() {
    assert_eq!(idle_interval_millis(None), 16);
    assert_eq!(idle_interval_millis(Some(60_000)), 16);
    assert_eq!(idle_interval_millis(Some(59_940)), 16);
    assert_eq!(idle_interval_millis(Some(144_000)), 6);
    assert_eq!(idle_interval_millis(Some(1)), 1_000_000);
    assert_eq!(idle_interval_millis(Some(u32::MAX)), 0);
}

#[test]
fn plan_takes_the_earliest_timer_and_the_next_idle_time() {
    let mut a = app();
    a.add_window(Window::new(1, Size::new(1, 1), Scale::identity(), Size::zero(), None));
    a.add_window(Window::new(2, Size::new(1, 1), Scale::identity(), Size::zero(), None));
    let l = EventLoop::new(at(100), Some(50_000));
    assert_eq!(l, EventLoop { last_idle_time: at(100), interval: 20 * MS });
    assert_eq!(l.next_idle_time(), at(120));
    assert_eq!(l.plan(&a), WaitPlan { next_timeout: None, next_idle_time: at(120) });
    a.request_timer(2, at(300));
    a.request_timer(1, at(400));
    a.request_timer(2, at(500));
    assert_eq!(l.plan(&a), WaitPlan { next_timeout: Some(at(300)), next_idle_time: at(120) });
    let late = EventLoop { last_idle_time: Instant::from_nanos(u64::MAX - 5), interval: 20 };
    assert_eq!(late.next_idle_time(), Instant::from_nanos(u64::MAX));
}

#[test]
fn after_events_says_what_is_due() {
    let mut l = EventLoop::new(at(100), None);
    let plan = WaitPlan { next_timeout: Some(at(110)), next_idle_time: at(116) };
    assert_eq!(l.after_events(&plan, at(109)), Due { timers: false, idle: false });
    assert_eq!(l.last_idle_time, at(100));
    assert_eq!(l.after_events(&plan, at(110)), Due { timers: true, idle: false });
    assert_eq!(l.after_events(&plan, at(116)), Due { timers: true, idle: true });
    assert_eq!(l.last_idle_time, at(116));
    assert_eq!(l.next_idle_time(), at(132));
    let no_timer = WaitPlan { next_timeout: None, next_idle_time: at(132) };
    assert_eq!(l.after_events(&no_timer, at(1000)), Due { timers: false, idle: true });
    assert_eq!(l.last_idle_time, at(1000));
}

fn wait(timeout: i32, watch_idle: bool) -> PollStep {
    PollStep::Wait { timeout, watch_idle }
}

#[test]
fn poll_waits_without_limit_until_signalled() {
    let plan = WaitPlan { next_timeout: None, next_idle_time: at(116) };
    let mut p = PollState::new(&plan, at(100));
    assert_eq!(p.step(), wait(-1, true));
    // the idle time passes unnoticed while nobody signals
    assert_eq!(p.record(PollOutcome::Interrupted, at(200)), Ok(false));
    assert_eq!(p.step(), wait(-1, true));
    // a return with nothing readable changes nothing
    assert_eq!(p.record(PollOutcome::Returned { connection: false, idle: false }, at(201)), Ok(false));
    assert_eq!(p.step(), wait(-1, true));
    // signalled after the idle time: stop at once
    assert_eq!(p.record(PollOutcome::Returned { connection: false, idle: true }, at(202)), Ok(true));
}

#[test]
fn poll_honours_the_idle_time_once_signalled() {
    let plan = WaitPlan { next_timeout: None, next_idle_time: at(116) };
    let mut p = PollState::new(&plan, at(100));
    assert_eq!(p.record(PollOutcome::Returned { connection: false, idle: true }, at(105)), Ok(false));
    // 11 ms to go, plus one so as not to wake early; the pipe is no longer watched
    assert_eq!(p.step(), wait(12, false));
    assert_eq!(p.record(PollOutcome::Returned { connection: false, idle: false }, at(115)), Ok(false));
    assert_eq!(p.step(), wait(2, false));
    assert_eq!(p.record(PollOutcome::Returned { connection: false, idle: false }, at(116)), Ok(true));
    assert_eq!(p.step(), PollStep::Done);
}

#[test]
fn poll_stops_for_events_and_timers() {
    let plan = WaitPlan { next_timeout: Some(at(150)), next_idle_time: at(116) };
    let mut p = PollState::new(&plan, at(100));
    assert_eq!(p.step(), wait(51, true));
    let before = p;
    assert_eq!(p.record(PollOutcome::Returned { connection: true, idle: true }, at(101)), Ok(true));
    assert_eq!(p, before);
    assert_eq!(p.record(PollOutcome::Returned { connection: false, idle: false }, at(150)), Ok(true));
    let mut p = PollState::new(&plan, at(100));
    // once signalled, the earlier of idle time and timer limits the wait
    assert_eq!(p.record(PollOutcome::Returned { connection: false, idle: true }, at(101)), Ok(false));
    assert_eq!(p.step(), wait(16, false));
    let early = WaitPlan { next_timeout: Some(at(105)), next_idle_time: at(116) };
    let mut p = PollState::new(&early, at(100));
    assert_eq!(p.record(PollOutcome::Returned { connection: false, idle: true }, at(101)), Ok(false));
    assert_eq!(p.step(), wait(5, false));
    // a timer that is due already ends the wait before it starts
    assert_eq!(PollState::new(&early, at(105)).step(), PollStep::Done);
    assert_eq!(PollState::new(&early, at(104)).step(), wait(2, true));
}

#[test]
fn poll_timeouts_are_capped() {
    let far = WaitPlan { next_timeout: Some(Instant::from_nanos(u64::MAX)), next_idle_time: at(116) };
    assert_eq!(PollState::new(&far, at(0)).step(), wait(i32::MAX, true));
    let edge = WaitPlan { next_timeout: Some(at(i32::MAX as u64 - 1)), next_idle_time: at(116) };
    assert_eq!(PollState::new(&edge, at(0)).step(), wait(i32::MAX, true));
    let below = WaitPlan { next_timeout: Some(at(i32::MAX as u64 - 2)), next_idle_time: at(116) };
    assert_eq!(PollState::new(&below, at(0)).step(), wait(i32::MAX - 1, true));
    // less than a millisecond to go still waits one millisecond
    let near = WaitPlan { next_timeout: Some(Instant::from_nanos(5)), next_idle_time: at(116) };
    assert_eq!(PollState::new(&near, at(0)).step(), wait(1, true));
}

#[test]
fn a_failed_wait_is_fatal() {
    let plan = WaitPlan { next_timeout: None, next_idle_time: at(116) };
    let mut p = PollState::new(&plan, at(100));
    let before = p;
    assert_eq!(p.record(PollOutcome::Failed(5), at(101)), Err(Error::Poll(5)));
    assert_eq!(p, before);
}

#[test]
fn draining_reads_until_the_pipe_is_empty() {
    assert_eq!(drain_idle_pipe(ReadOutcome::Read(16)), Ok(true));
    assert_eq!(drain_idle_pipe(ReadOutcome::Read(1)), Ok(true));
    assert_eq!(drain_idle_pipe(ReadOutcome::Interrupted), Ok(true));
    assert_eq!(drain_idle_pipe(ReadOutcome::Read(0)), Ok(false));
    assert_eq!(drain_idle_pipe(ReadOutcome::WouldBlock), Ok(false));
    assert_eq!(drain_idle_pipe(ReadOutcome::Failed(9)), Err(Error::IdlePipe(9)));
}
