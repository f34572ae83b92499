//! The drag gesture: one session at a time, from press to release.

use vstd::prelude::*;
use crate::event::{Event, Point};
use crate::width::{dragged_width, SidebarWidthRequest};

verus! {

/// A drag in progress. It lives from the press that starts it to the
/// release or cancellation that ends it.
#[derive(Clone, Copy, Debug, PartialEq, Eq, Structural)]
pub struct DragSession {
    /// Where the pointer went down, in the sidebar's coordinates.
    pub start_x: i32,
    /// How far the pointer has moved from there, as of the last motion.
    pub current_offset_x: i32,
}

impl DragSession {
    /// The session that a press at `start` opens: nothing has moved yet.
    pub open spec fn begun_at(start: Point) -> DragSession {
        DragSession { start_x: start.x, current_offset_x: 0 }
    }

    /// The session after a motion that reports `offset`. The offset
    /// replaces the old one; it is not added to it.
    pub open spec fn moved_to(self, offset: Point) -> DragSession {
        DragSession { start_x: self.start_x, current_offset_x: offset.x }
    }

    /// The width this session asks for when the pointer is at `offset`
    /// from the press. Only the horizontal parts count.
    pub open spec fn width_at(self, offset: Point) -> int {
        dragged_width(self.start_x as int, offset.x as int)
    }

    /// Opens the session for a press at `start`.
    pub fn begin(start: Point) -> (session: Self)
        ensures
            session == Self::begun_at(start),
    {
        DragSession { start_x: start.x, current_offset_x: 0 }
    }

    /// Records a motion to `offset`.
    pub fn moved(self, offset: Point) -> (session: Self)
        ensures
            session == self.moved_to(offset),
    {
        DragSession { start_x: self.start_x, current_offset_x: offset.x }
    }

    /// The width to request when the pointer is at `offset` from the
    /// press.
    pub fn request_at(&self, offset: Point) -> (request: SidebarWidthRequest)
        ensures
            request@ == self.width_at(offset),
    {
        SidebarWidthRequest::from_drag(self.start_x, offset.x)
    }
}

/// The gesture's state: no drag, or exactly one.
#[derive(Clone, Copy, Debug, PartialEq, Eq, Structural)]
pub enum DragState {
    Idle,
    Dragging(DragSession),
}

impl DragState {
    /// Whether `event` opens a session from this state: it is a press
    /// with a start position, and no session is open.
    pub open spec fn accepts(self, event: Event) -> bool {
        self is Idle && event matches Event::Press { start: Some(_) }
    }

    /// Whether `event` closes the session that is open in this state.
    pub open spec fn ends_with(self, event: Event) -> bool {
        self is Dragging && event.ends_drag()
    }

    /// The gesture state after `event`.
    ///
    /// A press with a position opens a session when none is open; a
    /// motion with an offset records it; a release or a cancellation
    /// closes the session, with or without an offset. Everything else
    /// leaves the state as it is: a press during a session, a press
    /// without a position, a motion without an offset, any gesture event
    /// but a press while idle, and the hover events.
    pub open spec fn after(self, event: Event) -> DragState {
        match (self, event) {
            (DragState::Idle, Event::Press { start: Some(start) }) => DragState::Dragging(
                DragSession::begun_at(start),
            ),
            (DragState::Dragging(session), Event::Motion { offset: Some(offset) }) => {
                DragState::Dragging(session.moved_to(offset))
            },
            (DragState::Dragging(_), Event::Release { .. }) => DragState::Idle,
            (DragState::Dragging(_), Event::Cancel { .. }) => DragState::Idle,
            _ => self,
        }
    }

    /// The width that `event` applies in this state, if it applies one:
    /// a motion, a release or a cancellation that carries an offset,
    /// during a session.
    pub open spec fn applied_width(self, event: Event) -> Option<int> {
        match (self, event) {
            (DragState::Dragging(session), Event::Motion { offset: Some(offset) }) => Some(
                session.width_at(offset),
            ),
            (DragState::Dragging(session), Event::Release { offset: Some(offset) }) => Some(
                session.width_at(offset),
            ),
            (DragState::Dragging(session), Event::Cancel { offset: Some(offset) }) => Some(
                session.width_at(offset),
            ),
            _ => None,
        }
    }

    /// Whether a session is open.
    pub fn is_dragging(&self) -> (dragging: bool)
        ensures
            dragging == (*self is Dragging),
    {
        match self {
            DragState::Dragging(_) => true,
            DragState::Idle => false,
        }
    }

    /// The open session, if there is one.
    pub fn session(&self) -> (session: Option<DragSession>)
        ensures
            session == (match *self {
                DragState::Dragging(s) => Some(s),
                DragState::Idle => None,
            }),
    {
        match self {
            DragState::Dragging(s) => Some(*s),
            DragState::Idle => None,
        }
    }
}

} // verus!
