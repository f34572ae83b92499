//! The controller: gesture, hover flag and requested width together.

use vstd::prelude::*;
use crate::drag::{DragSession, DragState};
use crate::event::{Event, Point};
use crate::hover::HoverState;
use crate::trace::action_views;
use crate::width::{SidebarWidthRequest, NATURAL_WIDTH};

verus! {

/// What the host has to do after an event.
#[derive(Clone, Copy, Debug, PartialEq, Eq)]
pub enum Action {
    /// Nothing to do.
    Nothing,
    /// Claim the input sequence, so that no other gesture recogniser
    /// takes the events of the drag that has just begun.
    ClaimSequence,
    /// Set the sidebar's requested width.
    ApplyWidth(SidebarWidthRequest),
    /// Add the hover style to the separator.
    AddHoverStyle,
    /// Remove the hover style from the separator.
    RemoveHoverStyle,
}

/// An [`Action`] with its width as a mathematical integer.
pub enum ActionView {
    Nothing,
    ClaimSequence,
    ApplyWidth(int),
    AddHoverStyle,
    RemoveHoverStyle,
}

impl View for Action {
    type V = ActionView;

    open spec fn view(&self) -> ActionView {
        match *self {
            Action::Nothing => ActionView::Nothing,
            Action::ClaimSequence => ActionView::ClaimSequence,
            Action::ApplyWidth(request) => ActionView::ApplyWidth(request@),
            Action::AddHoverStyle => ActionView::AddHoverStyle,
            Action::RemoveHoverStyle => ActionView::RemoveHoverStyle,
        }
    }
}

/// The controller as a mathematical value: the gesture state, the hover
/// flag, and the width last requested.
pub struct ControllerState {
    pub drag: DragState,
    pub hover: HoverState,
    pub width: int,
}

impl ControllerState {
    /// The state of a new controller: idle, not hovered, natural width.
    pub open spec fn initial() -> ControllerState {
        ControllerState {
            drag: DragState::Idle,
            hover: HoverState::Idle,
            width: NATURAL_WIDTH as int,
        }
    }

    /// The requested width is never below the natural-size sentinel.
    pub open spec fn valid(self) -> bool {
        self.width >= NATURAL_WIDTH
    }

    /// The state after `event`.
    ///
    /// The gesture state and the hover flag each follow their own rule
    /// and do not read one another. The width is replaced when the event
    /// applies one and is otherwise kept.
    pub open spec fn step(self, event: Event) -> ControllerState {
        ControllerState {
            drag: self.drag.after(event),
            hover: self.hover.after(event),
            width: match self.drag.applied_width(event) {
                Some(width) => width,
                None => self.width,
            },
        }
    }

    /// What the host is told to do for `event` in this state.
    pub open spec fn reaction(self, event: Event) -> ActionView {
        if self.drag.accepts(event) {
            ActionView::ClaimSequence
        } else {
            match (self.drag.applied_width(event), event) {
                (Some(width), _) => ActionView::ApplyWidth(width),
                (None, Event::Enter { .. }) => ActionView::AddHoverStyle,
                (None, Event::Leave { .. }) => ActionView::RemoveHoverStyle,
                (None, _) => ActionView::Nothing,
            }
        }
    }
}

/// The drag-to-resize controller of one separator.
///
/// It owns the sidebar's requested width: only [`handle`](Self::handle)
/// changes it, and the host reads it back with [`width`](Self::width).
#[derive(Clone, Copy, Debug, PartialEq, Eq)]
pub struct DragResizeController {
    drag: DragState,
    hover: HoverState,
    width: SidebarWidthRequest,
}

impl View for DragResizeController {
    type V = ControllerState;

    closed spec fn view(&self) -> ControllerState {
        ControllerState { drag: self.drag, hover: self.hover, width: self.width@ }
    }
}

impl DragResizeController {
    #[verifier::type_invariant]
    spec fn width_at_least_natural(self) -> bool {
        self.width@ >= NATURAL_WIDTH
    }

    /// A controller with no drag in progress, the pointer elsewhere, and
    /// the sidebar at its natural width.
    pub fn new() -> (controller: Self)
        ensures
            controller@ == ControllerState::initial(),
    {
        DragResizeController {
            drag: DragState::Idle,
            hover: HoverState::Idle,
            width: SidebarWidthRequest::natural(),
        }
    }

    /// The width last requested.
    pub fn width(&self) -> (request: SidebarWidthRequest)
        ensures
            request@ == self@.width,
            self@.valid(),
    {
        proof {
            use_type_invariant(self);
        }
        self.width
    }

    /// The gesture state.
    pub fn drag_state(&self) -> (drag: DragState)
        ensures
            drag == self@.drag,
    {
        self.drag
    }

    /// The hover flag.
    pub fn hover_state(&self) -> (hover: HoverState)
        ensures
            hover == self@.hover,
    {
        self.hover
    }

    /// Handles a press: opens a session if none is open and the press
    /// has a position.
    fn press(&mut self, start: Option<Point>) -> (action: Action)
        ensures
            final(self)@ == old(self)@.step(Event::Press { start }),
            action@ == old(self)@.reaction(Event::Press { start }),
    {
        proof {
            use_type_invariant(&*self);
        }
        match (self.drag, start) {
            (DragState::Idle, Some(start)) => {
                self.drag = DragState::Dragging(DragSession::begin(start));
                Action::ClaimSequence
            },
            _ => Action::Nothing,
        }
    }

    /// Handles a motion: during a session, records the offset and
    /// requests the width it gives.
    fn motion(&mut self, offset: Option<Point>) -> (action: Action)
        ensures
            final(self)@ == old(self)@.step(Event::Motion { offset }),
            action@ == old(self)@.reaction(Event::Motion { offset }),
    {
        proof {
            use_type_invariant(&*self);
        }
        match (self.drag, offset) {
            (DragState::Dragging(session), Some(offset)) => {
                let request = session.request_at(offset);
                self.drag = DragState::Dragging(session.moved(offset));
                self.width = request;
                Action::ApplyWidth(request)
            },
            _ => Action::Nothing,
        }
    }

    /// Handles the end of a gesture, which a release and a cancellation
    /// bring about alike: closes the session, and requests the final
    /// width if the event reports an offset.
    fn finish(&mut self, offset: Option<Point>) -> (action: Action)
        ensures
            final(self)@ == old(self)@.step(Event::Release { offset }),
            final(self)@ == old(self)@.step(Event::Cancel { offset }),
            action@ == old(self)@.reaction(Event::Release { offset }),
            action@ == old(self)@.reaction(Event::Cancel { offset }),
    {
        proof {
            use_type_invariant(&*self);
        }
        match self.drag {
            DragState::Dragging(session) => {
                self.drag = DragState::Idle;
                match offset {
                    Some(offset) => {
                        let request = session.request_at(offset);
                        self.width = request;
                        Action::ApplyWidth(request)
                    },
                    None => Action::Nothing,
                }
            },
            DragState::Idle => Action::Nothing,
        }
    }

    /// Sets the hover flag and says which way the style has to change.
    fn set_hover(&mut self, hover: HoverState) -> (action: Action)
        ensures
            final(self)@ == (ControllerState { hover, ..old(self)@ }),
            action@ == (match hover {
                HoverState::Hovering => ActionView::AddHoverStyle,
                HoverState::Idle => ActionView::RemoveHoverStyle,
            }),
    {
        proof {
            use_type_invariant(&*self);
        }
        self.hover = hover;
        match hover {
            HoverState::Hovering => Action::AddHoverStyle,
            HoverState::Idle => Action::RemoveHoverStyle,
        }
    }

    /// Handles one event: moves to the next state and says what the host
    /// has to do.
    pub fn handle(&mut self, event: Event) -> (action: Action)
        ensures
            final(self)@ == old(self)@.step(event),
            action@ == old(self)@.reaction(event),
            final(self)@.valid(),
    {
        let action = match event {
            Event::Press { start } => self.press(start),
            Event::Motion { offset } => self.motion(offset),
            Event::Release { offset } => self.finish(offset),
            Event::Cancel { offset } => self.finish(offset),
            Event::Enter { .. } => self.set_hover(HoverState::Hovering),
            Event::Leave { .. } => self.set_hover(HoverState::Idle),
        };
        proof {
            use_type_invariant(&*self);
        }
        action
    }

    /// Handles the events of `events` in order and returns what the host
    /// has to do for each of them.
    pub fn handle_all(&mut self, events: &[Event]) -> (actions: Vec<Action>)
        ensures
            final(self)@ == old(self)@.run(events@),
            actions@.len() == events@.len(),
            action_views(actions@) == old(self)@.reactions(events@),
            final(self)@.valid(),
    {
        let mut actions: Vec<Action> = Vec::new();
        let mut handled: usize = 0;
        proof {
            use_type_invariant(&*self);
        }
        while handled < events.len()
            invariant
                handled <= events.len(),
                actions@.len() == handled,
                self@ == old(self)@.run(events@.take(handled as int)),
                action_views(actions@) == old(self)@.reactions(events@.take(handled as int)),
                self@.valid(),
            decreases events.len() - handled,
        {
            let action = self.handle(events[handled]);
            actions.push(action);
            proof {
                assert(events@.take(handled + 1).drop_last() == events@.take(handled as int));
            }
            handled += 1;
        }
        proof {
            assert(events@.take(handled as int) == events@);
        }
        actions
    }
}

} // verus!
