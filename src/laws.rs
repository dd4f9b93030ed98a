use vstd::prelude::*;
use crate::keys::{KeyCode, Transition, spec_is_modifier};
use crate::events::RawEvent;
use crate::state::{InputState, clamp, either_held, shortcut_for};
use crate::batch::{event_outputs, key_step};

verus! {

/// The cursor after a sequence of relative movements, each added and then
/// clamped to a `width` by `height` screen.
pub open spec fn cursor_after_deltas(x: int, y: int, width: int, height: int, deltas: Seq<(i32, i32)>) -> (int, int)
    decreases deltas.len(),
{
    if deltas.len() == 0 {
        (x, y)
    } else {
        let p = cursor_after_deltas(x, y, width, height, deltas.drop_last());
        (
            clamp(p.0 + deltas.last().0, 0, width - 1),
            clamp(p.1 + deltas.last().1, 0, height - 1),
        )
    }
}

/// However many relative movements are applied, the cursor stays on the
/// screen: `0 <= x < width` and `0 <= y < height`.
pub proof fn lemma_deltas_stay_on_screen(s: InputState, deltas: Seq<(i32, i32)>)
    requires
        s.wf(),
    ensures
        ({
            let p = cursor_after_deltas(
                s.cursor_x as int,
                s.cursor_y as int,
                s.screen_width as int,
                s.screen_height as int,
                deltas,
            );
            0 <= p.0 < s.screen_width && 0 <= p.1 < s.screen_height
        }),
    decreases deltas.len(),
{
    if deltas.len() > 0 {
        lemma_deltas_stay_on_screen(s, deltas.drop_last());
    }
}

/// Each `update_cursor` call extends `cursor_after_deltas` by its movement,
/// so a run of calls from `(x0, y0)` lands where the fold says.
pub proof fn lemma_update_is_delta_step(
    x0: int,
    y0: int,
    deltas: Seq<(i32, i32)>,
    pre: InputState,
    post: InputState,
    dx: i32,
    dy: i32,
)
    requires
        pre.wf(),
        (pre.cursor_x as int, pre.cursor_y as int) == cursor_after_deltas(
            x0,
            y0,
            pre.screen_width as int,
            pre.screen_height as int,
            deltas,
        ),
        post.moved_to(&pre, pre.cursor_x + dx, pre.cursor_y + dy),
    ensures
        (post.cursor_x as int, post.cursor_y as int) == cursor_after_deltas(
            x0,
            y0,
            pre.screen_width as int,
            pre.screen_height as int,
            deltas.push((dx, dy)),
        ),
{
    assert(deltas.push((dx, dy)).drop_last() =~= deltas);
}

/// A zero movement reports a change only while nothing has been reported yet.
pub proof fn lemma_zero_delta_reports_only_first(s: InputState)
    requires
        s.wf(),
    ensures
        s.move_changes(s.cursor_x + 0, s.cursor_y + 0) ==> s.never_reported(),
{
}

/// After an absolute move to `(x, y)`, a second move to the same position
/// reports no change.
pub proof fn lemma_same_absolute_reports_once(pre: InputState, post: InputState, x: i32, y: i32)
    requires
        pre.wf(),
        post.wf(),
        post.same_apart_from_cursor(&pre),
        post.moved_to(&pre, x as int, y as int),
    ensures
        !post.move_changes(x as int, y as int),
{
}

/// Pressing a modifier emits nothing: it only joins the held set that later
/// presses are checked against.
pub proof fn lemma_modifier_press_is_prerequisite(k: KeyCode, mods: Set<KeyCode>, x: int, y: int)
    requires
        spec_is_modifier(k),
    ensures
        event_outputs(RawEvent::Key { key: Some(k), transition: Transition::Pressed }, mods, x, y)
            == Seq::<crate::events::EventView>::empty(),
        key_step(mods, RawEvent::Key { key: Some(k), transition: Transition::Pressed })
            == mods.insert(k),
{
}

/// An auto-repeat emits nothing and leaves the held modifiers alone.
pub proof fn lemma_repeat_is_inert(key: Option<KeyCode>, mods: Set<KeyCode>, x: int, y: int)
    ensures
        event_outputs(RawEvent::Key { key, transition: Transition::Repeated }, mods, x, y)
            == Seq::<crate::events::EventView>::empty(),
        key_step(mods, RawEvent::Key { key, transition: Transition::Repeated }) == mods,
{
}

/// F selects "toggle_chat" exactly when a Meta key (either side) and a Shift
/// key (either side) are held; otherwise it selects nothing.
pub proof fn lemma_toggle_chat_needs_meta_and_shift(mods: Set<KeyCode>)
    ensures
        shortcut_for(mods, KeyCode::F) == (if either_held(mods, KeyCode::LeftMeta, KeyCode::RightMeta)
            && either_held(mods, KeyCode::LeftShift, KeyCode::RightShift) {
            Some("toggle_chat"@)
        } else {
            None
        }),
{
}

} // verus!
