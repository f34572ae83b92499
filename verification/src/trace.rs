//! Whole event streams: what a run of events does to a controller.

use vstd::prelude::*;
use crate::controller::{Action, ActionView, ControllerState};
use crate::event::Event;

verus! {

/// The views of a run of actions, one for one.
pub open spec fn action_views(actions: Seq<Action>) -> Seq<ActionView> {
    Seq::new(actions.len(), |i: int| actions[i]@)
}

/// The events of the gesture stream among `events`, in order.
pub open spec fn gesture_events(events: Seq<Event>) -> Seq<Event> {
    events.filter(|event: Event| !event.is_hover())
}

/// The events of the hover stream among `events`, in order.
pub open spec fn hover_events(events: Seq<Event>) -> Seq<Event> {
    events.filter(|event: Event| event.is_hover())
}

impl ControllerState {
    /// The state after the events of `events`, taken in order.
    pub open spec fn run(self, events: Seq<Event>) -> ControllerState
        decreases events.len(),
    {
        if events.len() == 0 {
            self
        } else {
            self.run(events.drop_last()).step(events.last())
        }
    }

    /// What the host is told to do for each event of `events`, in order.
    pub open spec fn reactions(self, events: Seq<Event>) -> Seq<ActionView>
        decreases events.len(),
    {
        if events.len() == 0 {
            Seq::empty()
        } else {
            self.reactions(events.drop_last()).push(
                self.run(events.drop_last()).reaction(events.last()),
            )
        }
    }

    /// How many sessions are open in this state: one or none.
    pub open spec fn open_sessions(self) -> nat {
        if self.drag is Dragging {
            1
        } else {
            0
        }
    }

    /// How many sessions the events of `events` open.
    pub open spec fn sessions_begun(self, events: Seq<Event>) -> nat
        decreases events.len(),
    {
        if events.len() == 0 {
            0
        } else if self.run(events.drop_last()).drag.accepts(events.last()) {
            self.sessions_begun(events.drop_last()) + 1
        } else {
            self.sessions_begun(events.drop_last())
        }
    }

    /// How many sessions the events of `events` close.
    pub open spec fn sessions_ended(self, events: Seq<Event>) -> nat
        decreases events.len(),
    {
        if events.len() == 0 {
            0
        } else if self.run(events.drop_last()).drag.ends_with(events.last()) {
            self.sessions_ended(events.drop_last()) + 1
        } else {
            self.sessions_ended(events.drop_last())
        }
    }
}

} // verus!
