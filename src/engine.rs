use vstd::prelude::*;
use crate::events::{EventView, OutputEvent, RawEvent, views};
use crate::state::InputState;
use crate::batch::batch_post;

verus! {

/// Where the engine loop stands.
#[derive(Debug, Clone, Copy, PartialEq, Eq, Structural)]
pub enum Phase {
    /// Constructed; the `Ready` event has not been emitted yet.
    Starting,
    /// Waiting for input and processing it.
    Running,
    /// Cancelled; nothing more is emitted.
    Stopped,
}

/// What one bounded wait for input came back with.
pub enum WaitOutcome {
    /// Nothing became ready before the timeout.
    TimedOut,
    /// The events drained from every ready source, in the order decoded.
    Events(Vec<RawEvent>),
}

/// The decisions of the engine loop: the caller waits for input, hands over
/// what came back, and emits the events that are returned.
pub struct Engine {
    pub state: InputState,
    pub phase: Phase,
}

impl Engine {
    pub open spec fn wf(&self) -> bool {
        self.state.wf()
    }

    /// An engine for a screen of the given size, not started yet.
    pub fn new(screen_width: i32, screen_height: i32) -> (r: Engine)
        requires
            screen_width > 0,
            screen_height > 0,
        ensures
            r.wf(),
            r.phase == Phase::Starting,
            r.state.screen_width == screen_width,
            r.state.screen_height == screen_height,
            r.state.cursor_x == screen_width / 2,
            r.state.cursor_y == screen_height / 2,
            r.state.never_reported(),
            r.state.held_modifiers@ == Set::<crate::keys::KeyCode>::empty(),
    {
        Engine { state: InputState::new(screen_width, screen_height), phase: Phase::Starting }
    }

    /// Starts the loop: the first call emits `Ready` with the source counts
    /// and the screen size; any later call emits nothing.
    pub fn start(&mut self, mice_count: usize, keyboards_count: usize) -> (r: Option<OutputEvent>)
        requires
            old(self).wf(),
        ensures
            final(self).wf(),
            final(self).state == old(self).state,
            old(self).phase == Phase::Starting ==> {
                &&& final(self).phase == Phase::Running
                &&& r is Some
                &&& r->0@ == (EventView::Ready {
                    mice_count: mice_count as nat,
                    keyboards_count: keyboards_count as nat,
                    screen_width: old(self).state.screen_width as int,
                    screen_height: old(self).state.screen_height as int,
                })
            },
            old(self).phase != Phase::Starting ==> final(self).phase == old(self).phase && r is None,
    {
        if let Phase::Starting = self.phase {
            self.phase = Phase::Running;
            Some(
                OutputEvent::Ready {
                    mice_count,
                    keyboards_count,
                    screen_width: self.state.screen_width,
                    screen_height: self.state.screen_height,
                },
            )
        } else {
            None
        }
    }

    /// One cycle of the running loop: a timeout emits `Heartbeat`; a batch of
    /// events is processed as a whole. Outside the running phase nothing
    /// happens.
    pub fn step(&mut self, outcome: WaitOutcome) -> (r: Vec<OutputEvent>)
        requires
            old(self).wf(),
        ensures
            final(self).wf(),
            final(self).phase == old(self).phase,
            old(self).phase != Phase::Running ==> final(self).state == old(self).state && r@.len() == 0,
            old(self).phase == Phase::Running ==> match outcome {
                WaitOutcome::TimedOut => final(self).state == old(self).state && views(r@) == seq![
                    EventView::Heartbeat,
                ],
                WaitOutcome::Events(events) => batch_post(
                    old(self).state,
                    final(self).state,
                    events@,
                    views(r@),
                ),
            },
    {
        if let Phase::Running = self.phase {
            match outcome {
                WaitOutcome::TimedOut => {
                    let mut out: Vec<OutputEvent> = Vec::new();
                    out.push(OutputEvent::Heartbeat);
                    assert(views(out@) =~= seq![EventView::Heartbeat]);
                    out
                },
                WaitOutcome::Events(events) => self.state.process_batch(&events),
            }
        } else {
            Vec::new()
        }
    }

    /// Stops the loop on cancellation.
    pub fn stop(&mut self)
        ensures
            final(self).phase == Phase::Stopped,
            final(self).state == old(self).state,
    {
        self.phase = Phase::Stopped;
    }
}

} // verus!
