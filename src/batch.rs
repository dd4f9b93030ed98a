use vstd::prelude::*;
use crate::keys::{KeyCode, Transition, spec_is_modifier};
use crate::events::{EventView, OutputEvent, RawEvent, button_name, views};
use crate::state::{InputState, shortcut_for};

verus! {

/// The held-modifier set after one event: a press of a modifier adds it, a
/// release removes it; repeats and every other event leave the set alone.
pub open spec fn key_step(mods: Set<KeyCode>, e: RawEvent) -> Set<KeyCode> {
    match e {
        RawEvent::Key { key: Some(k), transition } => if spec_is_modifier(k) {
            match transition {
                Transition::Pressed => mods.insert(k),
                Transition::Released => mods.remove(k),
                Transition::Repeated => mods,
            }
        } else {
            mods
        },
        _ => mods,
    }
}

/// The held-modifier set after a sequence of events.
pub open spec fn mods_after(events: Seq<RawEvent>, mods: Set<KeyCode>) -> Set<KeyCode>
    decreases events.len(),
{
    if events.len() == 0 {
        mods
    } else {
        key_step(mods_after(events.drop_last(), mods), events.last())
    }
}

/// A report that settles the cursor even when it does not move it: an
/// absolute position, or a packet of the legacy mouse stream.
pub open spec fn is_forced_motion(e: RawEvent) -> bool {
    e is AbsoluteMotion || e is LegacyMotion
}

/// Whether a sequence of events holds a report that settles the cursor
/// whatever it moves.
pub open spec fn has_forced_motion(events: Seq<RawEvent>) -> bool
    decreases events.len(),
{
    if events.len() == 0 {
        false
    } else {
        has_forced_motion(events.drop_last()) || is_forced_motion(events.last())
    }
}

/// Whether a batch settles the cursor when it starts at `(x, y)`: it holds an
/// absolute or legacy-stream report, or its device deltas sum to a non-zero
/// movement.
pub open spec fn settles(events: Seq<RawEvent>, x: int, y: int) -> bool {
    has_forced_motion(events) || motion_target(events, x, y) != (x, y)
}

/// Where the movements of a sequence take the cursor from `(x, y)`, before
/// clamping: relative moves add up, an absolute move overrides what came before.
pub open spec fn motion_target(events: Seq<RawEvent>, x: int, y: int) -> (int, int)
    decreases events.len(),
{
    if events.len() == 0 {
        (x, y)
    } else {
        let p = motion_target(events.drop_last(), x, y);
        match events.last() {
            RawEvent::RelativeMotion { dx, dy } => (p.0 + dx, p.1 + dy),
            RawEvent::LegacyMotion { dx, dy } => (p.0 + dx, p.1 + dy),
            RawEvent::AbsoluteMotion { x: ax, y: ay } => (ax as int, ay as int),
            _ => p,
        }
    }
}

/// What one event emits, given the modifiers held before it and the cursor
/// position: a press of a key that is not a modifier emits its shortcut, if
/// any, then `Activity`; a button press emits a click at the cursor.
pub open spec fn event_outputs(e: RawEvent, mods: Set<KeyCode>, x: int, y: int) -> Seq<EventView> {
    match e {
        RawEvent::Key { key, transition: Transition::Pressed } => match key {
            Some(k) => if spec_is_modifier(k) {
                seq![]
            } else {
                match shortcut_for(mods, k) {
                    Some(name) => seq![EventView::Shortcut { name }, EventView::Activity],
                    None => seq![EventView::Activity],
                }
            },
            None => seq![EventView::Activity],
        },
        RawEvent::Button { button, pressed: true } => seq![
            EventView::Click { button: button_name(button), x, y },
        ],
        _ => seq![],
    }
}

/// What the key and button events of a sequence emit, in order.
pub open spec fn batch_outputs(events: Seq<RawEvent>, mods: Set<KeyCode>, x: int, y: int) -> Seq<
    EventView,
>
    decreases events.len(),
{
    if events.len() == 0 {
        seq![]
    } else {
        batch_outputs(events.drop_last(), mods, x, y) + event_outputs(
            events.last(),
            mods_after(events.drop_last(), mods),
            x,
            y,
        )
    }
}

/// How processing `events` takes the state from `pre` to `post`, emitting `out`.
pub open spec fn batch_post(pre: InputState, post: InputState, events: Seq<RawEvent>, out: Seq<EventView>) -> bool {
    let t = motion_target(events, pre.cursor_x as int, pre.cursor_y as int);
    let moves = settles(events, pre.cursor_x as int, pre.cursor_y as int);
    &&& post.wf()
    &&& post.same_apart_from_cursor_and_keys(&pre)
    &&& post.held_modifiers@ == mods_after(events, pre.held_modifiers@)
    &&& moves ==> post.moved_to(&pre, t.0, t.1)
    &&& !moves ==> post.cursor_unchanged(&pre)
    &&& out == batch_outputs(events, pre.held_modifiers@, post.cursor_x as int, post.cursor_y as int)
        + if moves && pre.move_changes(t.0, t.1) {
        seq![EventView::Cursor { x: post.cursor_x as int, y: post.cursor_y as int }]
    } else {
        seq![]
    }
}

proof fn lemma_views_push(s: Seq<OutputEvent>, e: OutputEvent)
    ensures
        views(s.push(e)) == views(s).push(e@),
{
    assert(views(s.push(e)) =~= views(s).push(e@));
}

proof fn lemma_prefix_step(s: Seq<RawEvent>, i: int)
    requires
        0 <= i < s.len(),
    ensures
        s.subrange(0, i + 1).drop_last() == s.subrange(0, i),
        s.subrange(0, i + 1).last() == s[i],
{
    assert(s.subrange(0, i + 1).drop_last() =~= s.subrange(0, i));
}

impl InputState {
    /// Applies a key change to the held-modifier set.
    pub fn on_key_transition(&mut self, key: KeyCode, transition: Transition)
        requires
            old(self).wf(),
        ensures
            final(self).wf(),
            final(self).cursor_x == old(self).cursor_x,
            final(self).cursor_y == old(self).cursor_y,
            final(self).last_reported_x == old(self).last_reported_x,
            final(self).last_reported_y == old(self).last_reported_y,
            final(self).screen_width == old(self).screen_width,
            final(self).screen_height == old(self).screen_height,
            final(self).interactive_rects@ == old(self).interactive_rects@,
            final(self).held_modifiers@ == key_step(
                old(self).held_modifiers@,
                RawEvent::Key { key: Some(key), transition },
            ),
    {
        if key.is_modifier() {
            match transition {
                Transition::Pressed => self.held_modifiers.insert(key),
                Transition::Released => self.held_modifiers.remove(key),
                Transition::Repeated => {},
            }
        }
    }

    /// Processes the events of one wait cycle. All movement is applied first
    /// (summed, then clamped), so clicks carry the position after the cycle's
    /// movement; key and button events then emit in order; a `Cursor` event
    /// closes the batch when the cycle settled the cursor (see `settles`: device
    /// deltas that sum to zero do not) at a position not yet reported.
    pub fn process_batch(&mut self, events: &Vec<RawEvent>) -> (r: Vec<OutputEvent>)
        requires
            old(self).wf(),
        ensures
            batch_post(*old(self), *final(self), events@, views(r@)),
    {
        let ghost start_x = self.cursor_x as int;
        let ghost start_y = self.cursor_y as int;
        let ghost m0 = self.held_modifiers@;
        let n = events.len();
        let mut tx: i128 = self.cursor_x as i128;
        let mut ty: i128 = self.cursor_y as i128;
        let mut forced = false;
        let mut i: usize = 0;
        while i < n
            invariant
                n == events@.len(),
                0 <= i <= n,
                (tx as int, ty as int) == motion_target(events@.subrange(0, i as int), start_x, start_y),
                forced == has_forced_motion(events@.subrange(0, i as int)),
                -0x8000_0000 * (i + 1) <= tx <= 0x8000_0000 * (i + 1),
                -0x8000_0000 * (i + 1) <= ty <= 0x8000_0000 * (i + 1),
            decreases n - i,
        {
            proof {
                lemma_prefix_step(events@, i as int);
            }
            match events[i] {
                RawEvent::RelativeMotion { dx, dy } => {
                    tx = tx + dx as i128;
                    ty = ty + dy as i128;
                },
                RawEvent::LegacyMotion { dx, dy } => {
                    tx = tx + dx as i128;
                    ty = ty + dy as i128;
                    forced = true;
                },
                RawEvent::AbsoluteMotion { x, y } => {
                    tx = x as i128;
                    ty = y as i128;
                    forced = true;
                },
                _ => {},
            }
            i = i + 1;
        }
        assert(events@.subrange(0, n as int) =~= events@);
        let ghost target = (tx as int, ty as int);
        let changed = if forced || tx != self.cursor_x as i128 || ty != self.cursor_y as i128 {
            self.settle_cursor(tx, ty)
        } else {
            false
        };
        let ghost mid = *self;
        let mut out: Vec<OutputEvent> = Vec::new();
        let mut j: usize = 0;
        while j < n
            invariant
                n == events@.len(),
                0 <= j <= n,
                self.wf(),
                self.cursor_x == mid.cursor_x,
                self.cursor_y == mid.cursor_y,
                self.last_reported_x == mid.last_reported_x,
                self.last_reported_y == mid.last_reported_y,
                self.screen_width == mid.screen_width,
                self.screen_height == mid.screen_height,
                self.interactive_rects@ == mid.interactive_rects@,
                self.held_modifiers@ == mods_after(events@.subrange(0, j as int), m0),
                views(out@) == batch_outputs(
                    events@.subrange(0, j as int),
                    m0,
                    mid.cursor_x as int,
                    mid.cursor_y as int,
                ),
            decreases n - j,
        {
            proof {
                lemma_prefix_step(events@, j as int);
            }
            let e = events[j];
            match e {
                RawEvent::Key { key, transition } => {
                    if let Transition::Pressed = transition {
                        match key {
                            Some(k) => {
                                if !k.is_modifier() {
                                    match self.check_shortcut(k) {
                                        Some(name) => {
                                            let hit = OutputEvent::Shortcut { name: name.to_string() };
                                            proof {
                                                lemma_views_push(out@, hit);
                                            }
                                            out.push(hit);
                                        },
                                        None => {},
                                    }
                                    proof {
                                        lemma_views_push(out@, OutputEvent::Activity);
                                    }
                                    out.push(OutputEvent::Activity);
                                }
                            },
                            None => {
                                proof {
                                    lemma_views_push(out@, OutputEvent::Activity);
                                }
                                out.push(OutputEvent::Activity);
                            },
                        }
                    }
                    if let Some(k) = key {
                        self.on_key_transition(k, transition);
                    }
                },
                RawEvent::Button { button, pressed } => {
                    if pressed {
                        let click = OutputEvent::Click { button: button.name(), x: self.cursor_x, y: self.cursor_y };
                        proof {
                            lemma_views_push(out@, click);
                        }
                        out.push(click);
                    }
                },
                _ => {},
            }
            j = j + 1;
        }
        assert(events@.subrange(0, n as int) =~= events@);
        if changed {
            let moved_event = OutputEvent::Cursor { x: self.cursor_x, y: self.cursor_y };
            proof {
                lemma_views_push(out@, moved_event);
            }
            out.push(moved_event);
        } else {
            assert(views(out@) =~= views(out@) + seq![]);
        }
        assert(target == motion_target(events@, start_x, start_y));
        assert(changed == (settles(events@, start_x, start_y) && old(self).move_changes(target.0, target.1)));
        assert(views(out@) == batch_outputs(events@, m0, self.cursor_x as int, self.cursor_y as int)
        + if changed {
            seq![EventView::Cursor { x: self.cursor_x as int, y: self.cursor_y as int }]
        } else {
            seq![]
        });
        out
    }
}

} // verus!
