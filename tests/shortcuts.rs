use foxy_input::events::{MouseButton, OutputEvent, RawEvent};
use foxy_input::keys::{KeyCode, Transition};
use foxy_input::state::InputState;

fn press(k: KeyCode) -> RawEvent {
    RawEvent::Key { key: Some(k), transition: Transition::Pressed }
}

fn release(k: KeyCode) -> RawEvent {
    RawEvent::Key { key: Some(k), transition: Transition::Released }
}

fn repeat(k: KeyCode) -> RawEvent {
    RawEvent::Key { key: Some(k), transition: Transition::Repeated }
}

fn shortcut(name: &str) -> OutputEvent {
    OutputEvent::Shortcut { name: name.to_string() }
}

#[test]
fn meta_shift_f_fires_toggle_chat_on_each_press() {
    let mut s = InputState::new(1920, 1080);
    assert!(s.process_batch(&vec![press(KeyCode::LeftMeta)]).is_empty());
    assert!(s.process_batch(&vec![press(KeyCode::LeftShift)]).is_empty());
    assert_eq!(
        s.process_batch(&vec![press(KeyCode::F)]),
        vec![shortcut("toggle_chat"), OutputEvent::Activity]
    );
    assert!(s.process_batch(&vec![release(KeyCode::F)]).is_empty());
    assert_eq!(
        s.process_batch(&vec![press(KeyCode::F)]),
        vec![shortcut("toggle_chat"), OutputEvent::Activity]
    );
}

#[test]
fn chord_in_one_batch_applies_modifiers_first() {
    let mut s = InputState::new(1920, 1080);
    let out = s.process_batch(&vec![press(KeyCode::RightMeta), press(KeyCode::RightShift), press(KeyCode::D)]);
    assert_eq!(out, vec![shortcut("toggle_drag"), OutputEvent::Activity]);
}

#[test]
fn modifier_press_is_not_a_trigger() {
    let mut s = InputState::new(1920, 1080);
    s.process_batch(&vec![press(KeyCode::LeftMeta), press(KeyCode::LeftShift)]);
    let out = s.process_batch(&vec![press(KeyCode::RightShift), press(KeyCode::RightMeta)]);
    assert!(out.is_empty());
    assert!(s.is_modifier_held(KeyCode::RightShift));
    assert!(s.is_modifier_held(KeyCode::RightMeta));
}

#[test]
fn repeat_neither_fires_nor_toggles() {
    let mut s = InputState::new(1920, 1080);
    s.process_batch(&vec![press(KeyCode::LeftMeta), press(KeyCode::LeftShift)]);
    assert_eq!(s.process_batch(&vec![press(KeyCode::F)]).len(), 2);
    assert!(s.process_batch(&vec![repeat(KeyCode::F), repeat(KeyCode::F)]).is_empty());
    assert!(s.process_batch(&vec![repeat(KeyCode::LeftMeta)]).is_empty());
    assert!(s.is_modifier_held(KeyCode::LeftMeta));
    s.on_key_transition(KeyCode::LeftAlt, Transition::Repeated);
    assert!(!s.is_modifier_held(KeyCode::LeftAlt));
}

#[test]
fn check_shortcut_accepts_either_side() {
    let mut s = InputState::new(1920, 1080);
    s.on_key_transition(KeyCode::RightMeta, Transition::Pressed);
    s.on_key_transition(KeyCode::LeftShift, Transition::Pressed);
    assert_eq!(s.check_shortcut(KeyCode::F), Some("toggle_chat"));
    assert_eq!(s.check_shortcut(KeyCode::S), Some("toggle_screensaver"));
    assert_eq!(s.check_shortcut(KeyCode::C), Some("center_character"));
    assert_eq!(s.check_shortcut(KeyCode::A), None);
}

#[test]
fn check_shortcut_needs_both_pairs() {
    let mut s = InputState::new(1920, 1080);
    assert_eq!(s.check_shortcut(KeyCode::F), None);
    s.on_key_transition(KeyCode::LeftMeta, Transition::Pressed);
    assert_eq!(s.check_shortcut(KeyCode::F), None);
    s.on_key_transition(KeyCode::LeftCtrl, Transition::Pressed);
    assert_eq!(s.check_shortcut(KeyCode::F), None);
    s.on_key_transition(KeyCode::RightShift, Transition::Pressed);
    assert_eq!(s.check_shortcut(KeyCode::F), Some("toggle_chat"));
    s.on_key_transition(KeyCode::LeftMeta, Transition::Released);
    assert_eq!(s.check_shortcut(KeyCode::F), None);
}

#[test]
fn letter_keys_never_join_the_modifier_set() {
    let mut s = InputState::new(1920, 1080);
    s.on_key_transition(KeyCode::F, Transition::Pressed);
    assert!(!s.is_modifier_held(KeyCode::F));
}

#[test]
fn unmapped_key_press_is_activity() {
    let mut s = InputState::new(1920, 1080);
    let out = s.process_batch(&vec![RawEvent::Key { key: None, transition: Transition::Pressed }]);
    assert_eq!(out, vec![OutputEvent::Activity]);
    let out = s.process_batch(&vec![RawEvent::Key { key: None, transition: Transition::Released }]);
    assert!(out.is_empty());
}

#[test]
fn click_uses_position_after_batch_motion() {
    let mut s = InputState::new(800, 600);
    let out = s.process_batch(&vec![
        RawEvent::Button { button: MouseButton::Left, pressed: true },
        RawEvent::RelativeMotion { dx: 10, dy: -20 },
        RawEvent::Button { button: MouseButton::Left, pressed: false },
        RawEvent::Button { button: MouseButton::Middle, pressed: true },
    ]);
    assert_eq!(
        out,
        vec![
            OutputEvent::Click { button: "left".to_string(), x: 410, y: 280 },
            OutputEvent::Click { button: "middle".to_string(), x: 410, y: 280 },
            OutputEvent::Cursor { x: 410, y: 280 },
        ]
    );
}

#[test]
fn button_names() {
    assert_eq!(MouseButton::Left.name(), "left");
    assert_eq!(MouseButton::Right.name(), "right");
    assert_eq!(MouseButton::Middle.name(), "middle");
}
