//! Pointer events as the host toolkit reports them.

use vstd::prelude::*;

verus! {

/// A pointer position, or a displacement, in panel-local pixels.
#[derive(Clone, Copy, Debug, PartialEq, Eq, Structural)]
pub struct Point {
    pub x: i32,
    pub y: i32,
}

/// One event of the gesture or hover stream on the separator.
///
/// Coordinates are optional: where the toolkit has none to report, or
/// reports one that is not a pixel position, the event carries `None`.
#[derive(Clone, Copy, Debug, PartialEq, Eq)]
pub enum Event {
    /// The primary button went down on the separator at `start`.
    Press { start: Option<Point> },
    /// The pointer moved; `offset` is the total displacement since the
    /// press, not the step since the last motion.
    Motion { offset: Option<Point> },
    /// The button was released at `offset` from the press.
    Release { offset: Option<Point> },
    /// The toolkit cancelled the gesture.
    Cancel { offset: Option<Point> },
    /// The pointer entered the separator.
    Enter { position: Option<Point> },
    /// The pointer left the separator.
    Leave { position: Option<Point> },
}

impl Event {
    /// Whether the event ends a drag: a release or a cancellation.
    pub open spec fn ends_drag(self) -> bool {
        self is Release || self is Cancel
    }

    /// Whether the event belongs to the hover stream rather than to the
    /// gesture stream.
    pub open spec fn is_hover(self) -> bool {
        self is Enter || self is Leave
    }
}

} // verus!
