//! Hover feedback on the separator.

use vstd::prelude::*;
use crate::event::Event;

verus! {

/// Whether the pointer is over the separator.
#[derive(Clone, Copy, Debug, PartialEq, Eq, Structural)]
pub enum HoverState {
    Idle,
    Hovering,
}

impl HoverState {
    /// The hover state after `event`. It follows the pointer and nothing
    /// else: entering sets it, leaving clears it, and no event of the
    /// gesture stream touches it.
    pub open spec fn after(self, event: Event) -> HoverState {
        match event {
            Event::Enter { .. } => HoverState::Hovering,
            Event::Leave { .. } => HoverState::Idle,
            _ => self,
        }
    }

    /// Whether the separator shows its hover style in this state.
    pub fn is_hovering(&self) -> (hovering: bool)
        ensures
            hovering == (*self == HoverState::Hovering),
    {
        match self {
            HoverState::Hovering => true,
            HoverState::Idle => false,
        }
    }
}

/// The name of the style that the separator carries while hovered.
pub fn hover_style_name() -> (name: &'static str)
    ensures
        name@ == "sidebar-separator-hover"@,
{
    "sidebar-separator-hover"
}

} // verus!
