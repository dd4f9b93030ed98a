use vstd::prelude::*;
use crate::keys::{KeyCode, spec_is_modifier, spec_modifier_index};

verus! {

/// A rectangle in screen coordinates.
#[derive(Debug, Clone, Copy, Default, PartialEq, Eq, Structural)]
pub struct Rect {
    pub x: i32,
    pub y: i32,
    pub width: i32,
    pub height: i32,
}

impl Rect {
    /// Whether `(x, y)` lies inside the rectangle, edges included.
    pub open spec fn spec_contains(&self, x: int, y: int) -> bool {
        self.x <= x && x <= self.x + self.width && self.y <= y && y <= self.y + self.height
    }

    /// Checks whether the point `(x, y)` is inside this rectangle, edges included.
    pub fn contains(&self, x: i32, y: i32) -> (r: bool)
        ensures
            r == self.spec_contains(x as int, y as int),
    {
        let right = self.x as i64 + self.width as i64;
        let bottom = self.y as i64 + self.height as i64;
        x >= self.x && x as i64 <= right && y >= self.y && y as i64 <= bottom
    }
}

/// The set of modifier keys currently held down.
pub struct ModifierSet {
    held: Vec<bool>,
}

impl ModifierSet {
    pub closed spec fn wf(&self) -> bool {
        self.held@.len() == 8
    }

    pub closed spec fn view(&self) -> Set<KeyCode> {
        Set::new(|k: KeyCode| spec_is_modifier(k) && self.held@[spec_modifier_index(k)])
    }

    /// An empty set.
    pub fn new() -> (r: ModifierSet)
        ensures
            r.wf(),
            r@ == Set::<KeyCode>::empty(),
    {
        let r = ModifierSet { held: vec![false, false, false, false, false, false, false, false] };
        assert(r@ =~= Set::<KeyCode>::empty());
        r
    }

    /// Only modifier keys are ever held in the set.
    pub proof fn lemma_only_modifiers(&self, k: KeyCode)
        requires
            self@.contains(k),
        ensures
            spec_is_modifier(k),
    {
    }

    /// Whether `k` is currently held.
    pub fn contains(&self, k: KeyCode) -> (r: bool)
        requires
            self.wf(),
        ensures
            r == self@.contains(k),
    {
        let i = k.modifier_index();
        if i < 8 {
            self.held[i]
        } else {
            false
        }
    }

    /// Records that modifier `k` is held.
    pub fn insert(&mut self, k: KeyCode)
        requires
            old(self).wf(),
            spec_is_modifier(k),
        ensures
            final(self).wf(),
            final(self)@ == old(self)@.insert(k),
    {
        let i = k.modifier_index();
        self.held.set(i, true);
        assert(self@ =~= old(self)@.insert(k));
    }

    /// Records that `k` is no longer held.
    pub fn remove(&mut self, k: KeyCode)
        requires
            old(self).wf(),
        ensures
            final(self).wf(),
            final(self)@ == old(self)@.remove(k),
    {
        let i = k.modifier_index();
        if i < 8 {
            self.held.set(i, false);
        }
        assert(self@ =~= old(self)@.remove(k));
    }
}

/// The value `v` limited to the range `lo ..= hi`.
pub open spec fn clamp(v: int, lo: int, hi: int) -> int {
    if v < lo {
        lo
    } else if v > hi {
        hi
    } else {
        v
    }
}

/// Whether either key of a left/right pair is held.
pub open spec fn either_held(mods: Set<KeyCode>, left: KeyCode, right: KeyCode) -> bool {
    mods.contains(left) || mods.contains(right)
}

/// The shortcut table: the name that pressing `trigger` selects while `mods`
/// are held. Each entry asks for Meta and Shift, either side of each.
pub open spec fn shortcut_for(mods: Set<KeyCode>, trigger: KeyCode) -> Option<Seq<char>> {
    if either_held(mods, KeyCode::LeftMeta, KeyCode::RightMeta) && either_held(
        mods,
        KeyCode::LeftShift,
        KeyCode::RightShift,
    ) {
        match trigger {
            KeyCode::F => Some("toggle_chat"@),
            KeyCode::D => Some("toggle_drag"@),
            KeyCode::S => Some("toggle_screensaver"@),
            KeyCode::C => Some("center_character"@),
            _ => None,
        }
    } else {
        None
    }
}

/// Cursor, screen bounds and held modifiers, as tracked by the input thread.
pub struct InputState {
    pub cursor_x: i32,
    pub cursor_y: i32,
    pub screen_width: i32,
    pub screen_height: i32,
    pub held_modifiers: ModifierSet,
    pub last_reported_x: i32,
    pub last_reported_y: i32,
    pub interactive_rects: Vec<Rect>,
}

impl InputState {
    /// The last reported position still holds the "never reported" marker.
    pub open spec fn never_reported(&self) -> bool {
        self.last_reported_x == -1 && self.last_reported_y == -1
    }

    /// Bounds are positive, the cursor lies on screen, and the last reported
    /// position is either the marker or the current position.
    pub open spec fn wf(&self) -> bool {
        &&& self.screen_width > 0
        &&& self.screen_height > 0
        &&& 0 <= self.cursor_x < self.screen_width
        &&& 0 <= self.cursor_y < self.screen_height
        &&& self.held_modifiers.wf()
        &&& (self.never_reported() || (self.last_reported_x == self.cursor_x
            && self.last_reported_y == self.cursor_y))
    }

    /// What a cursor update leaves alone.
    pub open spec fn same_apart_from_cursor(&self, other: &InputState) -> bool {
        &&& self.screen_width == other.screen_width
        &&& self.screen_height == other.screen_height
        &&& self.held_modifiers@ == other.held_modifiers@
        &&& self.interactive_rects@ == other.interactive_rects@
    }

    /// What processing a batch leaves alone.
    pub open spec fn same_apart_from_cursor_and_keys(&self, other: &InputState) -> bool {
        &&& self.screen_width == other.screen_width
        &&& self.screen_height == other.screen_height
        &&& self.interactive_rects@ == other.interactive_rects@
    }

    /// The cursor and the last reported position did not change.
    pub open spec fn cursor_unchanged(&self, other: &InputState) -> bool {
        &&& self.cursor_x == other.cursor_x
        &&& self.cursor_y == other.cursor_y
        &&& self.last_reported_x == other.last_reported_x
        &&& self.last_reported_y == other.last_reported_y
    }

    /// The state after the cursor was moved to `(tx, ty)` before clamping.
    pub open spec fn moved_to(&self, old: &InputState, tx: int, ty: int) -> bool {
        &&& self.cursor_x == clamp(tx, 0, old.screen_width - 1)
        &&& self.cursor_y == clamp(ty, 0, old.screen_height - 1)
        &&& self.last_reported_x == self.cursor_x
        &&& self.last_reported_y == self.cursor_y
    }

    /// Whether a move to `(tx, ty)` gives a position other than the last reported one.
    pub open spec fn move_changes(&self, tx: int, ty: int) -> bool {
        clamp(tx, 0, self.screen_width - 1) != self.last_reported_x || clamp(
            ty,
            0,
            self.screen_height - 1,
        ) != self.last_reported_y
    }

    /// A state for a screen of the given size, with the cursor at its centre
    /// and nothing reported yet.
    pub fn new(screen_width: i32, screen_height: i32) -> (r: InputState)
        requires
            screen_width > 0,
            screen_height > 0,
        ensures
            r.wf(),
            r.cursor_x == screen_width / 2,
            r.cursor_y == screen_height / 2,
            r.screen_width == screen_width,
            r.screen_height == screen_height,
            r.never_reported(),
            r.held_modifiers@ == Set::<KeyCode>::empty(),
            r.interactive_rects@.len() == 0,
    {
        InputState {
            cursor_x: screen_width / 2,
            cursor_y: screen_height / 2,
            screen_width,
            screen_height,
            held_modifiers: ModifierSet::new(),
            last_reported_x: -1,
            last_reported_y: -1,
            interactive_rects: Vec::new(),
        }
    }

    /// Moves the cursor to `(tx, ty)` clamped to the screen, and reports
    /// whether that differs from the last reported position.
    pub(crate) fn settle_cursor(&mut self, tx: i128, ty: i128) -> (changed: bool)
        requires
            old(self).wf(),
        ensures
            final(self).wf(),
            final(self).same_apart_from_cursor(old(self)),
            final(self).moved_to(old(self), tx as int, ty as int),
            changed == old(self).move_changes(tx as int, ty as int),
    {
        let max_x = self.screen_width as i128 - 1;
        let max_y = self.screen_height as i128 - 1;
        let cx: i128 = if tx < 0 { 0 } else if tx > max_x { max_x } else { tx };
        let cy: i128 = if ty < 0 { 0 } else if ty > max_y { max_y } else { ty };
        self.cursor_x = cx as i32;
        self.cursor_y = cy as i32;
        let changed = self.cursor_x != self.last_reported_x || self.cursor_y != self.last_reported_y;
        if changed {
            self.last_reported_x = self.cursor_x;
            self.last_reported_y = self.cursor_y;
        }
        changed
    }

    /// Adds a relative movement to the cursor, clamps it to the screen, and
    /// reports whether the position differs from the last reported one.
    pub fn update_cursor(&mut self, delta_x: i32, delta_y: i32) -> (changed: bool)
        requires
            old(self).wf(),
        ensures
            final(self).wf(),
            final(self).same_apart_from_cursor(old(self)),
            final(self).moved_to(
                old(self),
                old(self).cursor_x + delta_x,
                old(self).cursor_y + delta_y,
            ),
            changed == old(self).move_changes(
                old(self).cursor_x + delta_x,
                old(self).cursor_y + delta_y,
            ),
    {
        self.settle_cursor(
            self.cursor_x as i128 + delta_x as i128,
            self.cursor_y as i128 + delta_y as i128,
        )
    }

    /// Places the cursor at an absolute position, clamped to the screen, and
    /// reports whether it differs from the last reported one.
    pub fn apply_absolute(&mut self, x: i32, y: i32) -> (changed: bool)
        requires
            old(self).wf(),
        ensures
            final(self).wf(),
            final(self).same_apart_from_cursor(old(self)),
            final(self).moved_to(old(self), x as int, y as int),
            changed == old(self).move_changes(x as int, y as int),
    {
        self.settle_cursor(x as i128, y as i128)
    }

    /// Whether modifier `key` is currently held.
    pub fn is_modifier_held(&self, key: KeyCode) -> (r: bool)
        requires
            self.wf(),
        ensures
            r == self.held_modifiers@.contains(key),
    {
        self.held_modifiers.contains(key)
    }

    /// The shortcut that pressing `trigger_key` selects with the modifiers
    /// held now, if any.
    pub fn check_shortcut(&self, trigger_key: KeyCode) -> (r: Option<&'static str>)
        requires
            self.wf(),
        ensures
            match r {
                Some(name) => shortcut_for(self.held_modifiers@, trigger_key) == Some(name@),
                None => shortcut_for(self.held_modifiers@, trigger_key) is None,
            },
    {
        let meta_held = self.is_modifier_held(KeyCode::LeftMeta) || self.is_modifier_held(
            KeyCode::RightMeta,
        );
        let shift_held = self.is_modifier_held(KeyCode::LeftShift) || self.is_modifier_held(
            KeyCode::RightShift,
        );
        if meta_held && shift_held {
            match trigger_key {
                KeyCode::F => {
                    proof {
                        reveal_strlit("toggle_chat");
                    }
                    Some("toggle_chat")
                },
                KeyCode::D => {
                    proof {
                        reveal_strlit("toggle_drag");
                    }
                    Some("toggle_drag")
                },
                KeyCode::S => {
                    proof {
                        reveal_strlit("toggle_screensaver");
                    }
                    Some("toggle_screensaver")
                },
                KeyCode::C => {
                    proof {
                        reveal_strlit("center_character");
                    }
                    Some("center_character")
                },
                _ => None,
            }
        } else {
            None
        }
    }
}

} // verus!
