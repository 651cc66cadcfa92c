use either::Either;
use framed_dispatch::{
    Action, DispatchItem, Dispatcher, DispatcherError, DispatcherState, Event, Readiness, State,
    Timer, WakeOn, DEFAULT_DISCONNECT,
};

type Frame = Vec<u8>;
type Disp = Dispatcher<(), String, String>;
type Ev = Event<Frame, String, (), String>;
type Act = Action<Frame, String, (), String, String>;

const REQUEST: &[u8] = b"GET /test HTTP/1\r\n\r\n";

fn step(d: &mut Disp, ev: Ev) -> Act {
    assert!(d.accepts(&ev));
    d.poll(ev)
}

fn frame() -> Frame {
    REQUEST.to_vec()
}

/// Polls the readiness of a ready handler and expects a decode request.
fn ready_to_decode(d: &mut Disp) {
    assert!(matches!(step(d, Event::Woken), Action::PollReady));
    assert!(matches!(step(d, Event::Readiness(Readiness::Ready)), Action::Decode));
}

/// From a stopped dispatcher with nothing in flight, runs the shutdown to its end.
fn finish(d: &mut Disp, has_error: bool) -> Result<(), ()> {
    assert_eq!(d.inflight_count(), 0);
    match step(d, Event::Readiness(Readiness::Ready)) {
        Action::PollShutdown(e) => assert_eq!(e, has_error),
        _ => panic!("expected the shutdown hook to be polled"),
    }
    assert!(d.state().shutdown);
    assert_eq!(d.lifecycle_state(), DispatcherState::Shutdown);
    match step(d, Event::ShutdownPolled(true)) {
        Action::Done(res) => res,
        _ => panic!("expected the dispatcher to finish"),
    }
}

#[test]
fn test_basic() {
    // the handler answers a single frame after a delay
    let mut d: Disp = Dispatcher::new(Timer::new(0));
    d.set_read_ready(true);
    ready_to_decode(&mut d);
    match step(&mut d, Event::Decoded(Ok(Some(frame())))) {
        Action::Call(DispatchItem::Item(f)) => assert_eq!(f, REQUEST.to_vec()),
        _ => panic!("expected an inline call on the frame"),
    }
    // still pending after the first poll: counted in flight
    assert!(matches!(step(&mut d, Event::InlinePolled(None)), Action::PollReady));
    assert_eq!(d.inflight_count(), 1);
    d.set_read_ready(false);
    assert!(matches!(
        step(&mut d, Event::Readiness(Readiness::Ready)),
        Action::Suspend(WakeOn::Events)
    ));
    // the response is written back 50 ms later
    assert!(matches!(step(&mut d, Event::InlineReady(Ok(()))), Action::PollReady));
    assert_eq!(d.inflight_count(), 0);
    assert_eq!(d.lifecycle_state(), DispatcherState::Processing);
    assert!(!d.state().shutdown);
}

#[test]
fn test_sink() {
    // after one echoed frame, nothing reaches the handler while no frame is
    // decoded (writes made on the connection directly do not pass through
    // the dispatcher); a close then shuts it down cleanly
    let mut d: Disp = Dispatcher::new(Timer::new(0)).disconnect_timeout(25);
    assert_eq!(d.state().disconnect_timeout, 25);
    assert!(d.is_fresh());
    d.set_read_ready(true);
    ready_to_decode(&mut d);
    assert!(matches!(
        step(&mut d, Event::Decoded(Ok(Some(frame())))),
        Action::Call(DispatchItem::Item(_))
    ));
    assert!(matches!(step(&mut d, Event::InlinePolled(Some(Ok(())))), Action::PollReady));
    d.set_read_ready(false);
    assert!(matches!(
        step(&mut d, Event::Readiness(Readiness::Ready)),
        Action::Suspend(WakeOn::Events)
    ));
    d.stop_requested(None);
    assert!(matches!(step(&mut d, Event::Woken), Action::PollReady));
    assert!(matches!(step(&mut d, Event::Readiness(Readiness::Ready)), Action::PollReady));
    assert_eq!(d.lifecycle_state(), DispatcherState::Stop);
    assert_eq!(finish(&mut d, false), Ok(()));
}

#[test]
fn test_err_in_service() {
    // the handler fails on every item
    let mut d: Disp = Dispatcher::new(Timer::new(0));
    d.set_read_ready(true);
    ready_to_decode(&mut d);
    assert!(matches!(
        step(&mut d, Event::Decoded(Ok(Some(frame())))),
        Action::Call(DispatchItem::Item(_))
    ));
    let failed: Result<(), Either<(), String>> = Err(Either::Left(()));
    assert!(matches!(step(&mut d, Event::InlinePolled(Some(failed))), Action::PollReady));
    // no frame is decoded after the error, though bytes are waiting
    assert!(matches!(step(&mut d, Event::Readiness(Readiness::Ready)), Action::PollReady));
    assert_eq!(d.lifecycle_state(), DispatcherState::Stop);
    assert_eq!(d.timer().deadline(), None);
    assert_eq!(finish(&mut d, true), Err(()));
}

#[test]
fn keepalive_timeout_stops_idle_dispatcher() {
    let mut d: Disp = Dispatcher::new(Timer::new(100));
    assert_eq!(d.timer().deadline(), Some(130));
    d.set_now(130);
    assert!(matches!(step(&mut d, Event::Woken), Action::PollReady));
    assert!(matches!(
        step(&mut d, Event::Readiness(Readiness::Ready)),
        Action::Call(DispatchItem::KeepAliveTimeout)
    ));
    assert_eq!(d.lifecycle_state(), DispatcherState::Stop);
    assert_eq!(d.timer().deadline(), None);
    assert!(matches!(step(&mut d, Event::InlinePolled(Some(Ok(())))), Action::PollReady));
    assert_eq!(finish(&mut d, false), Ok(()));
}

#[test]
fn keepalive_not_expired_before_deadline() {
    let mut d: Disp = Dispatcher::new(Timer::new(100));
    d.set_now(129);
    d.set_read_ready(true);
    ready_to_decode(&mut d);
}

#[test]
fn keepalive_disabled_registers_nothing() {
    let mut d: Disp = Dispatcher::new(Timer::new(100)).keepalive_timeout(0);
    assert_eq!(d.timer().deadline(), None);
    d.set_now(u32::MAX);
    d.set_read_ready(true);
    ready_to_decode(&mut d);
    assert!(matches!(
        step(&mut d, Event::Decoded(Ok(Some(frame())))),
        Action::Call(DispatchItem::Item(_))
    ));
    assert_eq!(d.timer().deadline(), None);
}

#[test]
fn keepalive_timeout_moves_deadline() {
    let d: Disp = Dispatcher::new(Timer::new(100)).keepalive_timeout(5);
    assert_eq!(d.timer().deadline(), Some(105));
}

#[test]
fn decoded_frame_moves_deadline() {
    let mut d: Disp = Dispatcher::new(Timer::new(100));
    d.set_now(110);
    d.set_read_ready(true);
    ready_to_decode(&mut d);
    step(&mut d, Event::Decoded(Ok(Some(frame()))));
    assert_eq!(d.timer().deadline(), Some(140));
}

#[test]
fn decoder_error_stops() {
    let mut d: Disp = Dispatcher::new(Timer::new(0));
    d.set_read_ready(true);
    ready_to_decode(&mut d);
    match step(&mut d, Event::Decoded(Err("bad frame".to_string()))) {
        Action::Call(DispatchItem::DecoderError(e)) => assert_eq!(e, "bad frame"),
        _ => panic!("expected the decoder error to go to the handler"),
    }
    assert_eq!(d.lifecycle_state(), DispatcherState::Stop);
    assert_eq!(d.timer().deadline(), None);
    assert!(matches!(step(&mut d, Event::InlinePolled(Some(Ok(())))), Action::PollReady));
    assert_eq!(finish(&mut d, false), Ok(()));
}

#[test]
fn incomplete_frame_waits_for_more_data() {
    let mut d: Disp = Dispatcher::new(Timer::new(0));
    d.set_read_ready(true);
    ready_to_decode(&mut d);
    assert!(matches!(
        step(&mut d, Event::Decoded(Ok(None))),
        Action::Suspend(WakeOn::MoreData)
    ));
    assert_eq!(d.lifecycle_state(), DispatcherState::Processing);
}

#[test]
fn saturated_handler_pauses_reading() {
    let mut d: Disp = Dispatcher::new(Timer::new(0));
    d.set_read_ready(true);
    assert!(matches!(step(&mut d, Event::Woken), Action::PollReady));
    assert!(matches!(
        step(&mut d, Event::Readiness(Readiness::NotReady)),
        Action::Suspend(WakeOn::ServiceReady)
    ));
    assert!(d.state().read_paused);
    ready_to_decode(&mut d);
    assert!(!d.state().read_paused);
}

#[test]
fn encoder_error_goes_to_handler() {
    let mut d: Disp = Dispatcher::new(Timer::new(0));
    d.set_read_ready(true);
    ready_to_decode(&mut d);
    step(&mut d, Event::Decoded(Ok(Some(frame()))));
    step(&mut d, Event::InlinePolled(None));
    d.set_read_ready(false);
    step(&mut d, Event::Readiness(Readiness::Ready));
    let failed: Result<(), Either<(), String>> = Err(Either::Right("too long".to_string()));
    assert!(matches!(step(&mut d, Event::InlineReady(failed)), Action::PollReady));
    match step(&mut d, Event::Readiness(Readiness::Ready)) {
        Action::Call(DispatchItem::EncoderError(e)) => assert_eq!(e, "too long"),
        _ => panic!("expected the encoder error to go to the handler"),
    }
    assert_eq!(d.lifecycle_state(), DispatcherState::Stop);
}

#[test]
fn io_error_goes_to_handler() {
    let mut d: Disp = Dispatcher::new(Timer::new(0));
    d.stop_requested(Some("reset".to_string()));
    assert!(matches!(step(&mut d, Event::Woken), Action::PollReady));
    match step(&mut d, Event::Readiness(Readiness::Ready)) {
        Action::Call(DispatchItem::IoError(e)) => assert_eq!(e, "reset"),
        _ => panic!("expected the io error to go to the handler"),
    }
    assert_eq!(d.state().io_error, None);
}

#[test]
fn readiness_failure_is_final_result() {
    let mut d: Disp = Dispatcher::new(Timer::new(0));
    assert!(matches!(step(&mut d, Event::Woken), Action::PollReady));
    assert!(matches!(
        step(&mut d, Event::Readiness(Readiness::Failed(()))),
        Action::PollReady
    ));
    assert_eq!(finish(&mut d, true), Err(()));
}

#[test]
fn second_frame_is_detached_and_stop_drains() {
    let mut d: Disp = Dispatcher::new(Timer::new(0));
    d.set_read_ready(true);
    ready_to_decode(&mut d);
    assert!(matches!(
        step(&mut d, Event::Decoded(Ok(Some(b"a".to_vec())))),
        Action::Call(DispatchItem::Item(_))
    ));
    assert!(matches!(step(&mut d, Event::InlinePolled(None)), Action::PollReady));
    assert!(matches!(step(&mut d, Event::Readiness(Readiness::Ready)), Action::Decode));
    match step(&mut d, Event::Decoded(Ok(Some(b"b".to_vec())))) {
        Action::Spawn(DispatchItem::Item(f)) => assert_eq!(f, b"b".to_vec()),
        _ => panic!("expected a detached call on the second frame"),
    }
    assert_eq!(d.inflight_count(), 2);
    assert!(d.has_detached());
    d.stop_requested(None);
    assert!(matches!(step(&mut d, Event::Woken), Action::PollReady));
    assert!(matches!(step(&mut d, Event::Readiness(Readiness::Ready)), Action::PollReady));
    // two calls still in flight: shutdown waits
    assert!(matches!(
        step(&mut d, Event::Readiness(Readiness::Ready)),
        Action::Suspend(WakeOn::Events)
    ));
    assert!(d.handle_result(Ok(())));
    assert!(!d.has_detached());
    assert!(matches!(step(&mut d, Event::InlineReady(Ok(()))), Action::PollReady));
    assert_eq!(finish(&mut d, false), Ok(()));
}

#[test]
fn shutdown_hook_pending_keeps_error() {
    let mut d: Disp = Dispatcher::new(Timer::new(0));
    step(&mut d, Event::Woken);
    step(&mut d, Event::Readiness(Readiness::Failed(())));
    assert!(matches!(step(&mut d, Event::Readiness(Readiness::Ready)), Action::PollShutdown(true)));
    assert!(matches!(
        step(&mut d, Event::ShutdownPolled(false)),
        Action::Suspend(WakeOn::Handler)
    ));
    assert!(matches!(step(&mut d, Event::Woken), Action::PollShutdown(true)));
    assert!(matches!(step(&mut d, Event::ShutdownPolled(true)), Action::Done(Err(()))));
}

#[test]
fn unexpected_event_is_refused() {
    let d: Disp = Dispatcher::new(Timer::new(0));
    let decoded: Ev = Event::Decoded(Ok(None));
    let completed: Ev = Event::InlineReady(Ok(()));
    let woken: Ev = Event::Woken;
    assert!(!d.accepts(&decoded));
    assert!(!d.accepts(&completed));
    assert!(d.accepts(&woken));
}

#[test]
fn unregister_twice_is_noop() {
    let mut t = Timer::new(5);
    t.register(35, 35);
    t.unregister(35);
    assert_eq!(t.deadline(), None);
    t.unregister(35);
    assert_eq!(t.deadline(), None);
    t.register(40, 35);
    t.unregister(35);
    assert_eq!(t.deadline(), Some(40));
}

#[test]
fn first_error_is_kept() {
    let mut d: Disp = Dispatcher::new(Timer::new(0));
    d.set_read_ready(true);
    ready_to_decode(&mut d);
    step(&mut d, Event::Decoded(Ok(Some(frame()))));
    step(&mut d, Event::InlinePolled(None));
    step(&mut d, Event::Readiness(Readiness::Ready));
    assert!(matches!(step(&mut d, Event::Decoded(Ok(Some(frame())))), Action::Spawn(_)));
    d.set_read_ready(false);
    assert!(matches!(step(&mut d, Event::Woken), Action::PollReady));
    step(&mut d, Event::Readiness(Readiness::Ready));
    assert!(d.handle_result(Err(Either::Right("first".to_string()))));
    step(&mut d, Event::InlineReady(Err(Either::Right("second".to_string()))));
    match step(&mut d, Event::Readiness(Readiness::Ready)) {
        Action::Call(DispatchItem::EncoderError(e)) => assert_eq!(e, "first"),
        _ => panic!("expected the first encoder error"),
    }
}

#[test]
fn error_from_either() {
    let e: DispatcherError<u8, String> = DispatcherError::from(Either::Left(7u8));
    assert!(matches!(e, DispatcherError::Service(7)));
    let e: DispatcherError<u8, String> = DispatcherError::from(Either::Right("x".to_string()));
    assert!(matches!(e, DispatcherError::Encoder(ref s) if s == "x"));
}

#[test]
fn new_state_defaults() {
    let s: State<String> = State::new();
    assert_eq!(s.disconnect_timeout, DEFAULT_DISCONNECT);
    assert!(!s.read_ready && !s.dsp_stopped && !s.shutdown);
}

#[test]
fn fresh_until_polled() {
    let mut d: Disp = Dispatcher::new(Timer::new(0));
    assert!(d.is_fresh());
    step(&mut d, Event::Woken);
    assert!(!d.is_fresh());
}
