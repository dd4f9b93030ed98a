use vstd::prelude::*;

verus! {

/// Platform-independent key identifiers: the modifier keys and the letter
/// keys that can trigger a shortcut.
#[derive(Debug, Hash, Clone, Copy, PartialEq, Eq, Structural)]
pub enum KeyCode {
    LeftShift,
    RightShift,
    LeftCtrl,
    RightCtrl,
    LeftAlt,
    RightAlt,
    LeftMeta,
    RightMeta,
    F,
    D,
    S,
    C,
    A,
    SKey,
    Unknown,
}

/// How a key changed: a fresh press, a release, or an auto-repeat while held.
#[derive(Debug, Clone, Copy, PartialEq, Eq, Structural)]
pub enum Transition {
    Released,
    Pressed,
    Repeated,
}

pub open spec fn spec_is_modifier(k: KeyCode) -> bool {
    match k {
        KeyCode::LeftShift | KeyCode::RightShift | KeyCode::LeftCtrl | KeyCode::RightCtrl
        | KeyCode::LeftAlt | KeyCode::RightAlt | KeyCode::LeftMeta | KeyCode::RightMeta => true,
        _ => false,
    }
}

/// Position of a modifier key in a held-modifier table (0..8).
pub open spec fn spec_modifier_index(k: KeyCode) -> int {
    match k {
        KeyCode::LeftShift => 0,
        KeyCode::RightShift => 1,
        KeyCode::LeftCtrl => 2,
        KeyCode::RightCtrl => 3,
        KeyCode::LeftAlt => 4,
        KeyCode::RightAlt => 5,
        KeyCode::LeftMeta => 6,
        KeyCode::RightMeta => 7,
        _ => 8,
    }
}

impl KeyCode {
    /// Whether this key is one of the eight modifier keys.
    pub fn is_modifier(&self) -> (r: bool)
        ensures
            r == spec_is_modifier(*self),
    {
        match self {
            KeyCode::LeftShift | KeyCode::RightShift | KeyCode::LeftCtrl | KeyCode::RightCtrl
            | KeyCode::LeftAlt | KeyCode::RightAlt | KeyCode::LeftMeta | KeyCode::RightMeta => true,
            _ => false,
        }
    }

    /// Slot of a modifier key in a held-modifier table; 8 for any other key.
    pub fn modifier_index(&self) -> (r: usize)
        ensures
            r as int == spec_modifier_index(*self),
            spec_is_modifier(*self) <==> r < 8,
    {
        match self {
            KeyCode::LeftShift => 0,
            KeyCode::RightShift => 1,
            KeyCode::LeftCtrl => 2,
            KeyCode::RightCtrl => 3,
            KeyCode::LeftAlt => 4,
            KeyCode::RightAlt => 5,
            KeyCode::LeftMeta => 6,
            KeyCode::RightMeta => 7,
            _ => 8,
        }
    }
}

/// The Linux input-event key codes that the engine recognises.
pub open spec fn linux_key_table(code: u16) -> Option<KeyCode> {
    if code == 42 { Some(KeyCode::LeftShift) }
    else if code == 54 { Some(KeyCode::RightShift) }
    else if code == 29 { Some(KeyCode::LeftCtrl) }
    else if code == 97 { Some(KeyCode::RightCtrl) }
    else if code == 56 { Some(KeyCode::LeftAlt) }
    else if code == 100 { Some(KeyCode::RightAlt) }
    else if code == 125 { Some(KeyCode::LeftMeta) }
    else if code == 126 { Some(KeyCode::RightMeta) }
    else if code == 33 { Some(KeyCode::F) }
    else if code == 32 { Some(KeyCode::D) }
    else if code == 31 { Some(KeyCode::S) }
    else if code == 46 { Some(KeyCode::C) }
    else if code == 30 { Some(KeyCode::A) }
    else { None }
}

/// Maps a Linux input-event key code (`KEY_*`) to a key identifier.
pub fn map_key_code(code: u16) -> (r: Option<KeyCode>)
    ensures
        r == linux_key_table(code),
{
    match code {
        42 => Some(KeyCode::LeftShift),
        54 => Some(KeyCode::RightShift),
        29 => Some(KeyCode::LeftCtrl),
        97 => Some(KeyCode::RightCtrl),
        56 => Some(KeyCode::LeftAlt),
        100 => Some(KeyCode::RightAlt),
        125 => Some(KeyCode::LeftMeta),
        126 => Some(KeyCode::RightMeta),
        33 => Some(KeyCode::F),
        32 => Some(KeyCode::D),
        31 => Some(KeyCode::S),
        46 => Some(KeyCode::C),
        30 => Some(KeyCode::A),
        _ => None,
    }
}

/// The macOS virtual key codes that the engine recognises.
pub open spec fn mac_key_table(code: u16) -> Option<KeyCode> {
    if code == 0x00 { Some(KeyCode::A) }
    else if code == 0x01 { Some(KeyCode::S) }
    else if code == 0x02 { Some(KeyCode::D) }
    else if code == 0x03 { Some(KeyCode::F) }
    else if code == 0x08 { Some(KeyCode::C) }
    else if code == 0x38 { Some(KeyCode::LeftShift) }
    else if code == 0x3C { Some(KeyCode::RightShift) }
    else if code == 0x3B { Some(KeyCode::LeftCtrl) }
    else if code == 0x3E { Some(KeyCode::RightCtrl) }
    else if code == 0x3A { Some(KeyCode::LeftAlt) }
    else if code == 0x3D { Some(KeyCode::RightAlt) }
    else if code == 0x37 { Some(KeyCode::LeftMeta) }
    else if code == 0x36 { Some(KeyCode::RightMeta) }
    else { None }
}

/// Maps a macOS virtual key code (`kVK_*`) to a key identifier.
pub fn map_keycode(code: u16) -> (r: Option<KeyCode>)
    ensures
        r == mac_key_table(code),
{
    match code {
        0x00 => Some(KeyCode::A),
        0x01 => Some(KeyCode::S),
        0x02 => Some(KeyCode::D),
        0x03 => Some(KeyCode::F),
        0x08 => Some(KeyCode::C),
        0x38 => Some(KeyCode::LeftShift),
        0x3C => Some(KeyCode::RightShift),
        0x3B => Some(KeyCode::LeftCtrl),
        0x3E => Some(KeyCode::RightCtrl),
        0x3A => Some(KeyCode::LeftAlt),
        0x3D => Some(KeyCode::RightAlt),
        0x37 => Some(KeyCode::LeftMeta),
        0x36 => Some(KeyCode::RightMeta),
        _ => None,
    }
}

/// The Windows virtual-key codes that the engine recognises. The generic
/// Shift, Control and Menu codes cannot tell the sides apart and count as left.
pub open spec fn windows_key_table(vkey: u16) -> Option<KeyCode> {
    if vkey == 0x10 || vkey == 0xA0 { Some(KeyCode::LeftShift) }
    else if vkey == 0xA1 { Some(KeyCode::RightShift) }
    else if vkey == 0x11 || vkey == 0xA2 { Some(KeyCode::LeftCtrl) }
    else if vkey == 0xA3 { Some(KeyCode::RightCtrl) }
    else if vkey == 0x12 || vkey == 0xA4 { Some(KeyCode::LeftAlt) }
    else if vkey == 0xA5 { Some(KeyCode::RightAlt) }
    else if vkey == 0x5B { Some(KeyCode::LeftMeta) }
    else if vkey == 0x5C { Some(KeyCode::RightMeta) }
    else if vkey == 0x46 { Some(KeyCode::F) }
    else if vkey == 0x44 { Some(KeyCode::D) }
    else if vkey == 0x53 { Some(KeyCode::S) }
    else if vkey == 0x43 { Some(KeyCode::C) }
    else if vkey == 0x41 { Some(KeyCode::A) }
    else { None }
}

/// Maps a Windows virtual-key code (`VK_*`) to a key identifier.
pub fn map_vkey(vkey: u16) -> (r: Option<KeyCode>)
    ensures
        r == windows_key_table(vkey),
{
    match vkey {
        0x10 | 0xA0 => Some(KeyCode::LeftShift),
        0xA1 => Some(KeyCode::RightShift),
        0x11 | 0xA2 => Some(KeyCode::LeftCtrl),
        0xA3 => Some(KeyCode::RightCtrl),
        0x12 | 0xA4 => Some(KeyCode::LeftAlt),
        0xA5 => Some(KeyCode::RightAlt),
        0x5B => Some(KeyCode::LeftMeta),
        0x5C => Some(KeyCode::RightMeta),
        0x46 => Some(KeyCode::F),
        0x44 => Some(KeyCode::D),
        0x53 => Some(KeyCode::S),
        0x43 => Some(KeyCode::C),
        0x41 => Some(KeyCode::A),
        _ => None,
    }
}

} // verus!
