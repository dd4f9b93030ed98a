use foxy_input::events::{
    decode_linux_event, decode_mac_flags_changed, decode_raw_keyboard, decode_raw_mouse_buttons, MouseButton, Ps2Decoder, RawEvent, EV_KEY,
    EV_REL,
};
use foxy_input::keys::{map_key_code, map_keycode, map_vkey, KeyCode, Transition};

#[test]
fn linux_key_map() {
    assert_eq!(map_key_code(42), Some(KeyCode::LeftShift));
    assert_eq!(map_key_code(126), Some(KeyCode::RightMeta));
    assert_eq!(map_key_code(33), Some(KeyCode::F));
    assert_eq!(map_key_code(16), None);
}

#[test]
fn mac_key_map() {
    assert_eq!(map_keycode(0x03), Some(KeyCode::F));
    assert_eq!(map_keycode(0x37), Some(KeyCode::LeftMeta));
    assert_eq!(map_keycode(0x3C), Some(KeyCode::RightShift));
    assert_eq!(map_keycode(0x7F), None);
}

#[test]
fn windows_key_map() {
    assert_eq!(map_vkey(0x10), Some(KeyCode::LeftShift));
    assert_eq!(map_vkey(0xA1), Some(KeyCode::RightShift));
    assert_eq!(map_vkey(0x5C), Some(KeyCode::RightMeta));
    assert_eq!(map_vkey(0x46), Some(KeyCode::F));
    assert_eq!(map_vkey(0x47), None);
}

#[test]
fn modifier_classification() {
    assert!(KeyCode::LeftAlt.is_modifier());
    assert!(!KeyCode::F.is_modifier());
    assert!(!KeyCode::Unknown.is_modifier());
}

#[test]
fn linux_relative_axes() {
    assert_eq!(decode_linux_event(EV_REL, 0, -4), Some(RawEvent::RelativeMotion { dx: -4, dy: 0 }));
    assert_eq!(decode_linux_event(EV_REL, 1, 7), Some(RawEvent::RelativeMotion { dx: 0, dy: 7 }));
    assert_eq!(decode_linux_event(EV_REL, 8, 1), None);
    assert_eq!(decode_linux_event(0, 0, 0), None);
}

#[test]
fn linux_keys_and_buttons() {
    assert_eq!(
        decode_linux_event(EV_KEY, 33, 1),
        Some(RawEvent::Key { key: Some(KeyCode::F), transition: Transition::Pressed })
    );
    assert_eq!(
        decode_linux_event(EV_KEY, 33, 2),
        Some(RawEvent::Key { key: Some(KeyCode::F), transition: Transition::Repeated })
    );
    assert_eq!(
        decode_linux_event(EV_KEY, 16, 0),
        Some(RawEvent::Key { key: None, transition: Transition::Released })
    );
    assert_eq!(decode_linux_event(EV_KEY, 33, 5), None);
    assert_eq!(
        decode_linux_event(EV_KEY, 0x111, 1),
        Some(RawEvent::Button { button: MouseButton::Right, pressed: true })
    );
    assert_eq!(decode_linux_event(EV_KEY, 0x110, 2), None);
}

#[test]
fn ps2_packet_motion_and_transitions() {
    let mut d = Ps2Decoder::new();
    assert_eq!(
        d.decode_packet(0x09, 5, 0xFE),
        vec![
            RawEvent::LegacyMotion { dx: 5, dy: 2 },
            RawEvent::Button { button: MouseButton::Left, pressed: true },
        ]
    );
    assert_eq!(d.decode_packet(0x09, 0xFF, 3), vec![RawEvent::LegacyMotion { dx: -1, dy: -3 }]);
    assert_eq!(
        d.decode_packet(0x0E, 0x80, 0x80),
        vec![
            RawEvent::LegacyMotion { dx: -128, dy: 128 },
            RawEvent::Button { button: MouseButton::Left, pressed: false },
            RawEvent::Button { button: MouseButton::Right, pressed: true },
            RawEvent::Button { button: MouseButton::Middle, pressed: true },
        ]
    );
}

#[test]
fn raw_mouse_button_flags() {
    assert_eq!(decode_raw_mouse_buttons(0), vec![]);
    assert_eq!(
        decode_raw_mouse_buttons(0x0001 | 0x0008 | 0x0010),
        vec![
            RawEvent::Button { button: MouseButton::Left, pressed: true },
            RawEvent::Button { button: MouseButton::Right, pressed: false },
            RawEvent::Button { button: MouseButton::Middle, pressed: true },
        ]
    );
}

#[test]
fn raw_keyboard_reports() {
    assert_eq!(
        decode_raw_keyboard(0x5B, 0),
        RawEvent::Key { key: Some(KeyCode::LeftMeta), transition: Transition::Pressed }
    );
    assert_eq!(
        decode_raw_keyboard(0x46, 1),
        RawEvent::Key { key: Some(KeyCode::F), transition: Transition::Released }
    );
}

#[test]
fn mac_flags_changed_reports() {
    assert_eq!(
        decode_mac_flags_changed(0x38, 0x0002_0100),
        Some(RawEvent::Key { key: Some(KeyCode::LeftShift), transition: Transition::Pressed })
    );
    assert_eq!(
        decode_mac_flags_changed(0x36, 0x0002_0000),
        Some(RawEvent::Key { key: Some(KeyCode::RightMeta), transition: Transition::Released })
    );
    assert_eq!(
        decode_mac_flags_changed(0x37, 0x0010_0000),
        Some(RawEvent::Key { key: Some(KeyCode::LeftMeta), transition: Transition::Pressed })
    );
    assert_eq!(decode_mac_flags_changed(0x7F, 0xFFFF_FFFF), None);
}
