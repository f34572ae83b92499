//! What holds of the controller in every state and over every run of
//! events. Each statement is about the model that the contracts of the
//! executable functions are written in.

use vstd::prelude::*;
use crate::controller::{ActionView, ControllerState};
use crate::drag::{DragSession, DragState};
use crate::event::{Event, Point};
use crate::hover::HoverState;
use crate::trace::{gesture_events, hover_events};
use crate::width::dragged_width;

verus! {

/// The width a drag asks for is the larger of `start_x + offset_x` and
/// -1: the sum itself wherever it is at least -1, and -1 below that.
pub proof fn lemma_dragged_width_is_floored_sum(start_x: int, offset_x: int)
    ensures
        dragged_width(start_x, offset_x) >= -1,
        dragged_width(start_x, offset_x) >= start_x + offset_x,
        dragged_width(start_x, offset_x) == -1 || dragged_width(start_x, offset_x) == start_x
            + offset_x,
        start_x + offset_x >= -1 ==> dragged_width(start_x, offset_x) == start_x + offset_x,
        start_x + offset_x < -1 ==> dragged_width(start_x, offset_x) == -1,
{
}

/// Dragging further to the right never asks for less width.
pub proof fn lemma_dragged_width_is_monotone(start_x: int, near: int, far: int)
    requires
        near <= far,
    ensures
        dragged_width(start_x, near) <= dragged_width(start_x, far),
{
}

/// There is no upper limit: whatever width is named, some offset asks
/// for more.
pub proof fn lemma_dragged_width_has_no_ceiling(start_x: int, limit: int)
    ensures
        dragged_width(start_x, limit + 1 - start_x) > limit,
{
}

/// During a session, every motion that reports an offset applies the
/// larger of `start_x + offset.x` and -1, tells the host to set that
/// width, and records the offset.
pub proof fn lemma_motion_applies_floored_sum(
    state: ControllerState,
    session: DragSession,
    offset: Point,
)
    requires
        state.drag == DragState::Dragging(session),
    ensures
        ({
            let event = Event::Motion { offset: Some(offset) };
            let sum = session.start_x + offset.x;
            let width = if sum >= -1 {
                sum
            } else {
                -1
            };
            &&& state.step(event).width == width
            &&& state.reaction(event) == ActionView::ApplyWidth(width)
            &&& state.step(event).drag == DragState::Dragging(
                DragSession { start_x: session.start_x, current_offset_x: offset.x },
            )
            &&& state.step(event).drag matches DragState::Dragging(now) && state.step(event).width
                == dragged_width(now.start_x as int, now.current_offset_x as int)
        }),
{
}

/// The end of a session computes the final width as a motion would, from
/// the start and the offset that the end reports, whatever the last
/// motion said; then the session is gone.
pub proof fn lemma_end_recomputes_width(
    state: ControllerState,
    session: DragSession,
    offset: Point,
)
    requires
        state.drag == DragState::Dragging(session),
    ensures
        ({
            let width = dragged_width(session.start_x as int, offset.x as int);
            let release = Event::Release { offset: Some(offset) };
            let cancel = Event::Cancel { offset: Some(offset) };
            &&& state.step(release).width == width
            &&& state.step(release).drag == DragState::Idle
            &&& state.reaction(release) == ActionView::ApplyWidth(width)
            &&& state.step(cancel).width == width
            &&& state.step(cancel).drag == DragState::Idle
            &&& state.reaction(cancel) == ActionView::ApplyWidth(width)
        }),
{
}

/// An event without coordinates never changes the width and never tells
/// the host to set one.
pub proof fn lemma_missing_coordinates_keep_width(state: ControllerState, event: Event)
    requires
        match event {
            Event::Press { start } => start is None,
            Event::Motion { offset } => offset is None,
            Event::Release { offset } => offset is None,
            Event::Cancel { offset } => offset is None,
            Event::Enter { position } => position is None,
            Event::Leave { position } => position is None,
        },
    ensures
        state.step(event).width == state.width,
        !(state.reaction(event) is ApplyWidth),
{
}

/// While no session is open, no gesture event but a press with a
/// position does anything at all.
pub proof fn lemma_idle_ignores_gesture_without_press(state: ControllerState, event: Event)
    requires
        state.drag is Idle,
        !event.is_hover(),
        !(event matches Event::Press { start: Some(_) }),
    ensures
        state.step(event) == state,
        state.reaction(event) == ActionView::Nothing,
{
}

/// A session that ends right after its press, with no motion and no
/// offset at its end, leaves the width as it was before the press. From
/// an idle controller the press and the end together change nothing.
pub proof fn lemma_press_then_end_keeps_width(state: ControllerState, start: Option<Point>)
    ensures
        ({
            let pressed = state.step(Event::Press { start });
            let cancelled = pressed.step(Event::Cancel { offset: None });
            let released = pressed.step(Event::Release { offset: None });
            &&& pressed.width == state.width
            &&& cancelled.width == state.width
            &&& released.width == state.width
            &&& cancelled.drag == DragState::Idle
            &&& released.drag == DragState::Idle
            &&& !(state.reaction(Event::Press { start }) is ApplyWidth)
            &&& pressed.reaction(Event::Cancel { offset: None }) == ActionView::Nothing
            &&& pressed.reaction(Event::Release { offset: None }) == ActionView::Nothing
            &&& state.drag is Idle ==> cancelled == state && released == state
        }),
{
}

/// The pointer entering the separator turns the hover style on, and its
/// leaving turns it off again, whether or not a session is open; neither
/// touches the session or the width.
pub proof fn lemma_enter_then_leave_toggles_hover(
    state: ControllerState,
    entered_at: Option<Point>,
    left_at: Option<Point>,
)
    ensures
        ({
            let enter = Event::Enter { position: entered_at };
            let leave = Event::Leave { position: left_at };
            let inside = state.step(enter);
            let outside = inside.step(leave);
            &&& inside.hover == HoverState::Hovering
            &&& state.reaction(enter) == ActionView::AddHoverStyle
            &&& inside.drag == state.drag
            &&& inside.width == state.width
            &&& outside.hover == HoverState::Idle
            &&& inside.reaction(leave) == ActionView::RemoveHoverStyle
            &&& outside.drag == state.drag
            &&& outside.width == state.width
        }),
{
}

/// The hover flag and the gesture do not read one another: the hover
/// flag after an event depends on the hover flag before it and on the
/// event alone, and the session and the width after an event depend on
/// the session and the width before it and on the event alone.
pub proof fn lemma_hover_and_drag_are_independent(
    one: ControllerState,
    other: ControllerState,
    event: Event,
)
    ensures
        one.hover == other.hover ==> one.step(event).hover == other.step(event).hover,
        one.hover == other.hover && event.is_hover() ==> one.reaction(event) == other.reaction(
            event,
        ),
        one.drag == other.drag && one.width == other.width ==> one.step(event).drag
            == other.step(event).drag && one.step(event).width == other.step(event).width,
        one.drag == other.drag && !event.is_hover() ==> one.reaction(event) == other.reaction(
            event,
        ),
        !event.is_hover() ==> one.step(event).hover == one.hover,
        event.is_hover() ==> one.step(event).drag == one.drag && one.step(event).width
            == one.width,
{
}

/// A press during a session is not accepted: it changes nothing, and
/// the host is not told to claim anything.
pub proof fn lemma_press_during_session_is_ignored(state: ControllerState, start: Option<Point>)
    requires
        state.drag is Dragging,
    ensures
        state.step(Event::Press { start }) == state,
        state.reaction(Event::Press { start }) == ActionView::Nothing,
{
}

/// Once a release or a cancellation has ended a session, the next press
/// with a position is accepted: it opens a session of its own at its
/// own start, and the host is told to claim the sequence.
pub proof fn lemma_press_after_end_is_accepted(state: ControllerState, end: Event, start: Point)
    requires
        end.ends_drag(),
    ensures
        ({
            let ended = state.step(end);
            let press = Event::Press { start: Some(start) };
            &&& ended.drag == DragState::Idle
            &&& ended.reaction(press) == ActionView::ClaimSequence
            &&& ended.step(press).drag == DragState::Dragging(
                DragSession { start_x: start.x, current_offset_x: 0 },
            )
            &&& ended.step(press).width == ended.width
        }),
{
}

/// The host is told to claim the input sequence exactly when a session
/// opens.
pub proof fn lemma_claim_marks_session_start(state: ControllerState, event: Event)
    ensures
        state.reaction(event) == ActionView::ClaimSequence <==> state.drag.accepts(event),
        state.drag.accepts(event) <==> state.drag is Idle && state.step(event).drag is Dragging,
        state.drag.ends_with(event) <==> state.drag is Dragging && state.step(event).drag is Idle,
{
}

/// A run of events gives one reaction for each event.
pub proof fn lemma_one_reaction_per_event(state: ControllerState, events: Seq<Event>)
    ensures
        state.reactions(events).len() == events.len(),
        forall|i: int|
            0 <= i < events.len() ==> #[trigger] state.reactions(events)[i] == state.run(
                events.take(i),
            ).reaction(events[i]),
    decreases events.len(),
{
    if events.len() > 0 {
        let before = events.drop_last();
        lemma_one_reaction_per_event(state, before);
        assert forall|i: int| 0 <= i < events.len() implies #[trigger] state.reactions(events)[i]
            == state.run(events.take(i)).reaction(events[i]) by {
            if i < before.len() {
                assert(before.take(i) == events.take(i));
            }
        }
    }
}

/// The width is never below -1: no run of events takes a valid state to
/// one that is not, and no run tells the host to set a width below -1.
pub proof fn lemma_width_never_below_natural(state: ControllerState, events: Seq<Event>)
    ensures
        state.valid() ==> state.run(events).valid(),
        forall|i: int|
            0 <= i < state.reactions(events).len() ==> (#[trigger] state.reactions(events)[i]
                matches ActionView::ApplyWidth(width) ==> width >= -1),
    decreases events.len(),
{
    if events.len() > 0 {
        lemma_width_never_below_natural(state, events.drop_last());
    }
}

/// At most one session is open at any time. Over every run of events
/// the sessions opened, less the sessions closed, plus the one that may
/// have been open at the start, is the number open at the end, which is
/// one or none.
pub proof fn lemma_at_most_one_session(state: ControllerState, events: Seq<Event>)
    ensures
        state.open_sessions() + state.sessions_begun(events) - state.sessions_ended(events)
            == state.run(events).open_sessions(),
        state.run(events).open_sessions() <= 1,
    decreases events.len(),
{
    if events.len() > 0 {
        lemma_at_most_one_session(state, events.drop_last());
    }
}

/// A second press is accepted only after the first session has ended:
/// over a run without a release or a cancellation, a session that is
/// open stays the same session, none is opened, and the host is never
/// told to claim the sequence again.
pub proof fn lemma_no_second_session_before_end(
    state: ControllerState,
    session: DragSession,
    events: Seq<Event>,
)
    requires
        state.drag == DragState::Dragging(session),
        forall|i: int| 0 <= i < events.len() ==> !(#[trigger] events[i]).ends_drag(),
    ensures
        state.run(events).drag matches DragState::Dragging(now) && now.start_x == session.start_x,
        state.sessions_begun(events) == 0,
        state.sessions_ended(events) == 0,
        forall|i: int|
            0 <= i < state.reactions(events).len() ==> #[trigger] state.reactions(events)[i]
                != ActionView::ClaimSequence,
    decreases events.len(),
{
    if events.len() > 0 {
        let before = events.drop_last();
        lemma_no_second_session_before_end(state, session, before);
    }
}

/// Offsets are totals, so nothing accumulates: after any run of events
/// that does not end the session, a motion applies the width that the
/// session's start and that motion's offset give, whatever the motions
/// before it reported.
pub proof fn lemma_width_forgets_earlier_motions(
    state: ControllerState,
    session: DragSession,
    events: Seq<Event>,
    offset: Point,
)
    requires
        state.drag == DragState::Dragging(session),
        forall|i: int| 0 <= i < events.len() ==> !(#[trigger] events[i]).ends_drag(),
    ensures
        state.run(events).step(Event::Motion { offset: Some(offset) }).width == dragged_width(
            session.start_x as int,
            offset.x as int,
        ),
        state.run(events).step(Event::Motion { offset: Some(offset) }).width == state.step(
            Event::Motion { offset: Some(offset) },
        ).width,
{
    lemma_no_second_session_before_end(state, session, events);
}

/// The two streams do not disturb one another however their events
/// interleave: the session and the width after a run are those that the
/// gesture events of the run give alone, and the hover flag is the one
/// that its hover events give alone.
pub proof fn lemma_streams_do_not_interfere(state: ControllerState, events: Seq<Event>)
    ensures
        state.run(events).drag == state.run(gesture_events(events)).drag,
        state.run(events).width == state.run(gesture_events(events)).width,
        state.run(events).hover == state.run(hover_events(events)).hover,
    decreases events.len(),
{
    reveal(Seq::filter);
    if events.len() > 0 {
        let before = events.drop_last();
        let last = events.last();
        lemma_streams_do_not_interfere(state, before);
        if last.is_hover() {
            assert(hover_events(events).drop_last() == hover_events(before));
        } else {
            assert(gesture_events(events).drop_last() == gesture_events(before));
        }
    }
}

} // verus!
