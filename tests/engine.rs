use foxy_input::engine::{Engine, Phase, WaitOutcome};
use foxy_input::events::{OutputEvent, RawEvent};

#[test]
fn no_sources_still_ready_then_heartbeat() {
    let mut e = Engine::new(1280, 720);
    let ready = e.start(0, 0);
    assert_eq!(
        ready,
        Some(OutputEvent::Ready { mice_count: 0, keyboards_count: 0, screen_width: 1280, screen_height: 720 })
    );
    assert_eq!(e.step(WaitOutcome::TimedOut), vec![OutputEvent::Heartbeat]);
    assert_eq!(e.step(WaitOutcome::TimedOut), vec![OutputEvent::Heartbeat]);
}

#[test]
fn ready_is_emitted_once() {
    let mut e = Engine::new(1920, 1080);
    assert!(e.start(2, 1).is_some());
    assert_eq!(e.phase, Phase::Running);
    assert_eq!(e.start(2, 1), None);
}

#[test]
fn nothing_before_start_or_after_stop() {
    let mut e = Engine::new(1920, 1080);
    assert!(e.step(WaitOutcome::TimedOut).is_empty());
    e.start(1, 1);
    let out = e.step(WaitOutcome::Events(vec![RawEvent::RelativeMotion { dx: 1, dy: 1 }]));
    assert_eq!(out, vec![OutputEvent::Cursor { x: 961, y: 541 }]);
    e.stop();
    assert_eq!(e.phase, Phase::Stopped);
    assert!(e.step(WaitOutcome::TimedOut).is_empty());
    assert!(e.step(WaitOutcome::Events(vec![RawEvent::RelativeMotion { dx: 1, dy: 1 }])).is_empty());
    assert_eq!(e.state.cursor_x, 961);
}
