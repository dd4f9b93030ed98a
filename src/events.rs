use vstd::prelude::*;
use crate::keys::{
    KeyCode, Transition, linux_key_table, mac_key_table, map_key_code, map_keycode, map_vkey,
    windows_key_table,
};

verus! {

/// A mouse button that can be reported in a click.
#[derive(Debug, Clone, Copy, PartialEq, Eq, Structural)]
pub enum MouseButton {
    Left,
    Right,
    Middle,
}

pub open spec fn button_name(b: MouseButton) -> Seq<char> {
    match b {
        MouseButton::Left => "left"@,
        MouseButton::Right => "right"@,
        MouseButton::Middle => "middle"@,
    }
}

impl MouseButton {
    /// The button's name as the event stream spells it.
    pub fn name(&self) -> (r: String)
        ensures
            r@ == button_name(*self),
    {
        match self {
            MouseButton::Left => {
                proof {
                    reveal_strlit("left");
                }
                "left".to_string()
            },
            MouseButton::Right => {
                proof {
                    reveal_strlit("right");
                }
                "right".to_string()
            },
            MouseButton::Middle => {
                proof {
                    reveal_strlit("middle");
                }
                "middle".to_string()
            },
        }
    }
}

/// One decoded input report, whatever platform it came from.
#[derive(Debug, Clone, Copy, PartialEq, Eq, Structural)]
pub enum RawEvent {
    /// Movement relative to the previous position, from an input device;
    /// the deltas of a batch that sum to zero leave the cursor unsettled.
    RelativeMotion { dx: i32, dy: i32 },
    /// Movement relative to the previous position, from a packet of the
    /// aggregated legacy mouse stream; it settles the cursor even when zero.
    LegacyMotion { dx: i32, dy: i32 },
    /// Movement to a position in screen coordinates.
    AbsoluteMotion { x: i32, y: i32 },
    /// A keyboard key changed; `key` is `None` for keys outside the key table.
    Key { key: Option<KeyCode>, transition: Transition },
    /// A mouse button went down or up.
    Button { button: MouseButton, pressed: bool },
}

/// An event handed to the consumer.
#[derive(Debug, Clone, PartialEq, Eq)]
pub enum OutputEvent {
    Cursor { x: i32, y: i32 },
    Shortcut { name: String },
    Click { button: String, x: i32, y: i32 },
    Heartbeat,
    Ready { mice_count: usize, keyboards_count: usize, screen_width: i32, screen_height: i32 },
    Activity,
}

/// The abstract content of an output event.
pub enum EventView {
    Cursor { x: int, y: int },
    Shortcut { name: Seq<char> },
    Click { button: Seq<char>, x: int, y: int },
    Heartbeat,
    Ready { mice_count: nat, keyboards_count: nat, screen_width: int, screen_height: int },
    Activity,
}

impl View for OutputEvent {
    type V = EventView;

    open spec fn view(&self) -> EventView {
        match self {
            OutputEvent::Cursor { x, y } => EventView::Cursor { x: *x as int, y: *y as int },
            OutputEvent::Shortcut { name } => EventView::Shortcut { name: name@ },
            OutputEvent::Click { button, x, y } => EventView::Click {
                button: button@,
                x: *x as int,
                y: *y as int,
            },
            OutputEvent::Heartbeat => EventView::Heartbeat,
            OutputEvent::Ready { mice_count, keyboards_count, screen_width, screen_height } =>
                EventView::Ready {
                mice_count: *mice_count as nat,
                keyboards_count: *keyboards_count as nat,
                screen_width: *screen_width as int,
                screen_height: *screen_height as int,
            },
            OutputEvent::Activity => EventView::Activity,
        }
    }
}

/// The abstract content of a sequence of output events.
pub open spec fn views(s: Seq<OutputEvent>) -> Seq<EventView> {
    s.map_values(|e: OutputEvent| e@)
}

/// The Linux input-event type of key and button reports.
pub const EV_KEY: u16 = 1;

/// The Linux input-event type of relative-axis reports.
pub const EV_REL: u16 = 2;

/// The meaning of a Linux key-event value: 0 release, 1 press, 2 auto-repeat.
pub open spec fn key_transition(value: i32) -> Option<Transition> {
    if value == 0 {
        Some(Transition::Released)
    } else if value == 1 {
        Some(Transition::Pressed)
    } else if value == 2 {
        Some(Transition::Repeated)
    } else {
        None
    }
}

/// The mouse button that a Linux key code (`BTN_LEFT`, `BTN_RIGHT`, `BTN_MIDDLE`) names.
pub open spec fn linux_button(code: u16) -> Option<MouseButton> {
    if code == 0x110 {
        Some(MouseButton::Left)
    } else if code == 0x111 {
        Some(MouseButton::Right)
    } else if code == 0x112 {
        Some(MouseButton::Middle)
    } else {
        None
    }
}

/// What a Linux `input_event` of the given type, code and value means to the
/// engine; `None` for reports it does not use.
pub open spec fn spec_decode_linux(event_type: u16, code: u16, value: i32) -> Option<RawEvent> {
    if event_type == EV_REL {
        if code == 0 {
            Some(RawEvent::RelativeMotion { dx: value, dy: 0 })
        } else if code == 1 {
            Some(RawEvent::RelativeMotion { dx: 0, dy: value })
        } else {
            None
        }
    } else if event_type == EV_KEY {
        match linux_button(code) {
            Some(b) => if value == 0 || value == 1 {
                Some(RawEvent::Button { button: b, pressed: value == 1 })
            } else {
                None
            },
            None => match key_transition(value) {
                Some(t) => Some(RawEvent::Key { key: linux_key_table(code), transition: t }),
                None => None,
            },
        }
    } else {
        None
    }
}

/// Decodes one Linux `input_event` given by its type, code and value.
pub fn decode_linux_event(event_type: u16, code: u16, value: i32) -> (r: Option<RawEvent>)
    ensures
        r == spec_decode_linux(event_type, code, value),
{
    if event_type == EV_REL {
        if code == 0 {
            Some(RawEvent::RelativeMotion { dx: value, dy: 0 })
        } else if code == 1 {
            Some(RawEvent::RelativeMotion { dx: 0, dy: value })
        } else {
            None
        }
    } else if event_type == EV_KEY {
        let button = if code == 0x110 {
            Some(MouseButton::Left)
        } else if code == 0x111 {
            Some(MouseButton::Right)
        } else if code == 0x112 {
            Some(MouseButton::Middle)
        } else {
            None
        };
        match button {
            Some(b) => if value == 0 || value == 1 {
                Some(RawEvent::Button { button: b, pressed: value == 1 })
            } else {
                None
            },
            None => {
                let t = if value == 0 {
                    Some(Transition::Released)
                } else if value == 1 {
                    Some(Transition::Pressed)
                } else if value == 2 {
                    Some(Transition::Repeated)
                } else {
                    None
                };
                match t {
                    Some(t) => Some(RawEvent::Key { key: map_key_code(code), transition: t }),
                    None => None,
                }
            },
        }
    } else {
        None
    }
}

/// A byte read as a two's-complement signed value.
pub open spec fn signed_byte(b: u8) -> int {
    if b >= 128 {
        b - 256
    } else {
        b as int
    }
}

/// Whether bit `mask` is set in a PS/2 status byte.
pub open spec fn bit_set(status: u8, mask: u8) -> bool {
    status & mask != 0
}

/// The button transitions between two PS/2 button states, in the order left,
/// right, middle.
pub open spec fn ps2_transitions(before: (bool, bool, bool), after: (bool, bool, bool)) -> Seq<
    RawEvent,
> {
    (if before.0 != after.0 {
        seq![RawEvent::Button { button: MouseButton::Left, pressed: after.0 }]
    } else {
        seq![]
    }) + (if before.1 != after.1 {
        seq![RawEvent::Button { button: MouseButton::Right, pressed: after.1 }]
    } else {
        seq![]
    }) + (if before.2 != after.2 {
        seq![RawEvent::Button { button: MouseButton::Middle, pressed: after.2 }]
    } else {
        seq![]
    })
}

/// Decoder for the three-byte packets of the aggregated PS/2 mouse stream.
/// The packets carry button states, so it remembers the last ones to report
/// transitions.
pub struct Ps2Decoder {
    pub left: bool,
    pub right: bool,
    pub middle: bool,
}

impl Ps2Decoder {
    pub open spec fn buttons(&self) -> (bool, bool, bool) {
        (self.left, self.right, self.middle)
    }

    /// A decoder that takes every button to be up.
    pub fn new() -> (r: Ps2Decoder)
        ensures
            r.buttons() == (false, false, false),
    {
        Ps2Decoder { left: false, right: false, middle: false }
    }

    /// Decodes one packet: its movement (the vertical axis points up in PS/2
    /// and down on screen), then each button whose state changed.
    pub fn decode_packet(&mut self, status: u8, raw_dx: u8, raw_dy: u8) -> (r: Vec<RawEvent>)
        ensures
            final(self).buttons() == (
                bit_set(status, 1),
                bit_set(status, 2),
                bit_set(status, 4),
            ),
            r@ == seq![
                RawEvent::LegacyMotion {
                    dx: signed_byte(raw_dx) as i32,
                    dy: (-signed_byte(raw_dy)) as i32,
                },
            ] + ps2_transitions(old(self).buttons(), final(self).buttons()),
    {
        let dx: i32 = if raw_dx >= 128 { raw_dx as i32 - 256 } else { raw_dx as i32 };
        let sy: i32 = if raw_dy >= 128 { raw_dy as i32 - 256 } else { raw_dy as i32 };
        let mut out: Vec<RawEvent> = Vec::new();
        out.push(RawEvent::LegacyMotion { dx, dy: -sy });
        let left = status & 1 != 0;
        let right = status & 2 != 0;
        let middle = status & 4 != 0;
        if left != self.left {
            out.push(RawEvent::Button { button: MouseButton::Left, pressed: left });
        }
        if right != self.right {
            out.push(RawEvent::Button { button: MouseButton::Right, pressed: right });
        }
        if middle != self.middle {
            out.push(RawEvent::Button { button: MouseButton::Middle, pressed: middle });
        }
        let ghost before = old(self).buttons();
        self.left = left;
        self.right = right;
        self.middle = middle;
        assert(out@ =~= seq![
            RawEvent::LegacyMotion {
                dx: signed_byte(raw_dx) as i32,
                dy: (-signed_byte(raw_dy)) as i32,
            },
        ] + ps2_transitions(before, self.buttons()));
        out
    }
}

/// The button reports in a Windows raw-mouse button-flag word, in the order
/// left down, left up, right down, right up, middle down, middle up.
pub open spec fn raw_mouse_buttons(flags: u16) -> Seq<RawEvent> {
    (if flags & 0x0001 != 0 {
        seq![RawEvent::Button { button: MouseButton::Left, pressed: true }]
    } else {
        seq![]
    }) + (if flags & 0x0002 != 0 {
        seq![RawEvent::Button { button: MouseButton::Left, pressed: false }]
    } else {
        seq![]
    }) + (if flags & 0x0004 != 0 {
        seq![RawEvent::Button { button: MouseButton::Right, pressed: true }]
    } else {
        seq![]
    }) + (if flags & 0x0008 != 0 {
        seq![RawEvent::Button { button: MouseButton::Right, pressed: false }]
    } else {
        seq![]
    }) + (if flags & 0x0010 != 0 {
        seq![RawEvent::Button { button: MouseButton::Middle, pressed: true }]
    } else {
        seq![]
    }) + (if flags & 0x0020 != 0 {
        seq![RawEvent::Button { button: MouseButton::Middle, pressed: false }]
    } else {
        seq![]
    })
}

/// Decodes the button-flag word of a Windows raw-mouse report.
pub fn decode_raw_mouse_buttons(flags: u16) -> (r: Vec<RawEvent>)
    ensures
        r@ == raw_mouse_buttons(flags),
{
    let mut out: Vec<RawEvent> = Vec::new();
    if flags & 0x0001 != 0 {
        out.push(RawEvent::Button { button: MouseButton::Left, pressed: true });
    }
    if flags & 0x0002 != 0 {
        out.push(RawEvent::Button { button: MouseButton::Left, pressed: false });
    }
    if flags & 0x0004 != 0 {
        out.push(RawEvent::Button { button: MouseButton::Right, pressed: true });
    }
    if flags & 0x0008 != 0 {
        out.push(RawEvent::Button { button: MouseButton::Right, pressed: false });
    }
    if flags & 0x0010 != 0 {
        out.push(RawEvent::Button { button: MouseButton::Middle, pressed: true });
    }
    if flags & 0x0020 != 0 {
        out.push(RawEvent::Button { button: MouseButton::Middle, pressed: false });
    }
    assert(out@ =~= raw_mouse_buttons(flags));
    out
}

/// Decodes a Windows raw-keyboard report: bit 0 of `flags` marks a release.
pub fn decode_raw_keyboard(vkey: u16, flags: u16) -> (r: RawEvent)
    ensures
        r == (RawEvent::Key {
            key: windows_key_table(vkey),
            transition: if flags & 1 != 0 {
                Transition::Released
            } else {
                Transition::Pressed
            },
        }),
{
    let transition = if flags & 1 != 0 {
        Transition::Released
    } else {
        Transition::Pressed
    };
    RawEvent::Key { key: map_vkey(vkey), transition }
}

/// The macOS event-flag bit that tells whether a modifier of `k`'s kind is
/// down (Shift, Control, Option, Command); 0 for other keys.
pub open spec fn mac_flag_mask(k: KeyCode) -> u64 {
    match k {
        KeyCode::LeftShift | KeyCode::RightShift => 0x0002_0000,
        KeyCode::LeftCtrl | KeyCode::RightCtrl => 0x0004_0000,
        KeyCode::LeftAlt | KeyCode::RightAlt => 0x0008_0000,
        KeyCode::LeftMeta | KeyCode::RightMeta => 0x0010_0000,
        _ => 0,
    }
}

/// Decodes a macOS flags-changed event for key `code`: the key is down when
/// its kind's flag is set in `flags`. Keys outside the key table give `None`.
pub fn decode_mac_flags_changed(code: u16, flags: u64) -> (r: Option<RawEvent>)
    ensures
        r == match mac_key_table(code) {
            Some(k) => Some(
                RawEvent::Key {
                    key: Some(k),
                    transition: if flags & mac_flag_mask(k) != 0 {
                        Transition::Pressed
                    } else {
                        Transition::Released
                    },
                },
            ),
            None => None,
        },
{
    match map_keycode(code) {
        None => None,
        Some(k) => {
            let mask: u64 = match k {
                KeyCode::LeftShift | KeyCode::RightShift => 0x0002_0000,
                KeyCode::LeftCtrl | KeyCode::RightCtrl => 0x0004_0000,
                KeyCode::LeftAlt | KeyCode::RightAlt => 0x0008_0000,
                KeyCode::LeftMeta | KeyCode::RightMeta => 0x0010_0000,
                _ => 0,
            };
            let transition = if flags & mask != 0 {
                Transition::Pressed
            } else {
                Transition::Released
            };
            Some(RawEvent::Key { key: Some(k), transition })
        },
    }
}

} // verus!
