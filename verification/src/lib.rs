//! Drag-to-resize controller for a sidebar separator.
//!
//! A vertical separator sits between a sidebar and the main content.
//! Dragging it resizes the sidebar; hovering over it highlights it. The
//! [`DragResizeController`] is the logic behind both: the host feeds it
//! the pointer [`Event`]s that its toolkit reports on the separator, and
//! carries out the [`Action`] it gets back for each.
//!
//! The controller touches no toolkit. It is a state machine over plain
//! values, and every transition is stated and proved against the model
//! in [`controller::ControllerState`].

pub mod controller;
pub mod drag;
pub mod event;
pub mod hover;
pub mod theorems;
pub mod trace;
pub mod width;

pub use controller::{Action, DragResizeController};
pub use drag::{DragSession, DragState};
pub use event::{Event, Point};
pub use hover::{hover_style_name, HoverState};
pub use width::{SidebarWidthRequest, NATURAL_WIDTH};
