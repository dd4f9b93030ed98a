use foxy_input::events::{OutputEvent, RawEvent};
use foxy_input::state::{InputState, Rect};

fn cursor(x: i32, y: i32) -> OutputEvent {
    OutputEvent::Cursor { x, y }
}

#[test]
fn new_state_starts_at_centre_unreported() {
    let s = InputState::new(1920, 1080);
    assert_eq!((s.cursor_x, s.cursor_y), (960, 540));
    assert_eq!((s.last_reported_x, s.last_reported_y), (-1, -1));
}

#[test]
fn deltas_always_stay_on_screen() {
    let mut s = InputState::new(800, 600);
    let deltas = [
        (5000, 0),
        (0, 9000),
        (-100000, -100000),
        (i32::MAX, i32::MIN),
        (i32::MIN, i32::MAX),
        (3, -7),
        (799, 599),
    ];
    for (dx, dy) in deltas {
        s.update_cursor(dx, dy);
        assert!(s.cursor_x >= 0 && s.cursor_x < 800);
        assert!(s.cursor_y >= 0 && s.cursor_y < 600);
    }
    assert_eq!((s.cursor_x, s.cursor_y), (799, 599));
}

#[test]
fn zero_delta_reports_only_the_first_time() {
    let mut s = InputState::new(1920, 1080);
    assert!(s.update_cursor(0, 0));
    assert!(!s.update_cursor(0, 0));
    assert!(!s.update_cursor(0, 0));
    assert!(s.update_cursor(1, 0));
    assert!(!s.update_cursor(0, 0));
}

#[test]
fn delta_pinned_at_edge_reports_once() {
    let mut s = InputState::new(800, 600);
    assert!(s.update_cursor(-500, 0));
    assert_eq!((s.cursor_x, s.cursor_y), (0, 300));
    assert!(!s.update_cursor(-10, 0));
    assert_eq!((s.cursor_x, s.cursor_y), (0, 300));
}

#[test]
fn repeated_absolute_position_reports_once() {
    let mut s = InputState::new(1920, 1080);
    assert!(s.apply_absolute(100, 200));
    assert!(!s.apply_absolute(100, 200));
    assert!(!s.apply_absolute(100, 200));
    assert!(s.apply_absolute(101, 200));
}

#[test]
fn absolute_position_is_clamped() {
    let mut s = InputState::new(800, 600);
    assert!(s.apply_absolute(5000, -20));
    assert_eq!((s.cursor_x, s.cursor_y), (799, 0));
    assert_eq!((s.last_reported_x, s.last_reported_y), (799, 0));
}

#[test]
fn scripted_deltas_coalesce_into_one_move() {
    let mut s = InputState::new(1920, 1080);
    let batch = vec![
        RawEvent::RelativeMotion { dx: 3, dy: 0 },
        RawEvent::RelativeMotion { dx: 0, dy: -5 },
        RawEvent::RelativeMotion { dx: 2, dy: 2 },
    ];
    let out = s.process_batch(&batch);
    assert_eq!(out, vec![cursor(965, 537)]);
}

#[test]
fn left_overshoot_clamps_and_emits() {
    let mut s = InputState::new(800, 600);
    assert_eq!((s.cursor_x, s.cursor_y), (400, 300));
    let out = s.process_batch(&vec![RawEvent::RelativeMotion { dx: -500, dy: 0 }]);
    assert_eq!(out, vec![cursor(0, 300)]);
}

#[test]
fn deltas_are_summed_before_clamping() {
    let mut s = InputState::new(800, 600);
    let batch = vec![
        RawEvent::RelativeMotion { dx: -500, dy: 0 },
        RawEvent::RelativeMotion { dx: 450, dy: 0 },
    ];
    let out = s.process_batch(&batch);
    assert_eq!(out, vec![cursor(350, 300)]);
}

#[test]
fn absolute_motion_overrides_earlier_deltas() {
    let mut s = InputState::new(800, 600);
    let batch = vec![
        RawEvent::RelativeMotion { dx: 10, dy: 10 },
        RawEvent::AbsoluteMotion { x: 20, y: 30 },
        RawEvent::RelativeMotion { dx: 1, dy: 1 },
    ];
    assert_eq!(s.process_batch(&batch), vec![cursor(21, 31)]);
}

#[test]
fn batch_without_motion_leaves_cursor() {
    let mut s = InputState::new(800, 600);
    let out = s.process_batch(&vec![]);
    assert!(out.is_empty());
    assert_eq!((s.cursor_x, s.cursor_y), (400, 300));
    assert_eq!((s.last_reported_x, s.last_reported_y), (-1, -1));
}

#[test]
fn batch_back_to_reported_position_is_silent() {
    let mut s = InputState::new(800, 600);
    assert_eq!(s.process_batch(&vec![RawEvent::RelativeMotion { dx: 1, dy: 0 }]), vec![cursor(401, 300)]);
    let out = s.process_batch(&vec![
        RawEvent::RelativeMotion { dx: 5, dy: 0 },
        RawEvent::RelativeMotion { dx: -5, dy: 0 },
    ]);
    assert!(out.is_empty());
}

#[test]
fn rect_contains_edges_inclusive() {
    let r = Rect { x: 10, y: 20, width: 100, height: 50 };
    assert!(r.contains(10, 20));
    assert!(r.contains(110, 70));
    assert!(r.contains(50, 40));
    assert!(!r.contains(9, 20));
    assert!(!r.contains(111, 70));
    assert!(!r.contains(50, 71));
}

#[test]
fn rect_contains_without_overflow() {
    let r = Rect { x: i32::MAX - 1, y: 0, width: 10, height: 10 };
    assert!(r.contains(i32::MAX, 5));
    assert!(!r.contains(i32::MAX - 2, 5));
}

#[test]
fn zero_sum_device_deltas_emit_nothing_on_fresh_state() {
    let mut s = InputState::new(1920, 1080);
    let out = s.process_batch(&vec![
        RawEvent::RelativeMotion { dx: 1, dy: 0 },
        RawEvent::RelativeMotion { dx: -1, dy: 0 },
    ]);
    assert!(out.is_empty());
    assert_eq!((s.cursor_x, s.cursor_y), (960, 540));
    assert_eq!((s.last_reported_x, s.last_reported_y), (-1, -1));
}

#[test]
fn zero_legacy_packet_reports_first_position() {
    let mut s = InputState::new(1920, 1080);
    let out = s.process_batch(&vec![RawEvent::LegacyMotion { dx: 0, dy: 0 }]);
    assert_eq!(out, vec![cursor(960, 540)]);
    let out = s.process_batch(&vec![RawEvent::LegacyMotion { dx: 0, dy: 0 }]);
    assert!(out.is_empty());
}

#[test]
fn absolute_report_at_current_position_reports_first_time() {
    let mut s = InputState::new(800, 600);
    assert_eq!(s.process_batch(&vec![RawEvent::AbsoluteMotion { x: 400, y: 300 }]), vec![cursor(400, 300)]);
    assert!(s.process_batch(&vec![RawEvent::AbsoluteMotion { x: 400, y: 300 }]).is_empty());
}
