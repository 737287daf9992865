//! Event handling
//!
//! Input arrives at the [`Manager`] from the toolkit, is routed by the
//! manager's state machines and is delivered to widgets as an [`Event`]
//! through [`Widget::send`].

pub mod configure;
pub mod containers;
pub mod enums;
pub mod events;
pub mod handler;
pub mod manager;
pub mod traversal;
pub mod tree;

pub use configure::{ConfigView, Configuration};
pub use enums::{CursorIcon, Direction, ModifiersState, MouseButton, Popup, VirtualKeyCode};
pub use events::{Command, Event, PanPoint, PressSource, Response};
pub use handler::Widget;
pub use manager::{
    ConfigureManager, GrabMode, GrabsView, Manager, ManagerState, MouseGrab, PanGrab, Pending,
    StateView, TimerEntry, TouchGrab,
};
pub use tree::{WidgetNode, WidgetTree};

use vstd::prelude::*;

verus! {

/// Identifier of a widget within one window, assigned by configuration.
///
/// Identifiers start at [`FIRST_ID`] and are handed out in the order of a
/// depth-first walk, parents before children; `0` is the identifier of a
/// widget that was never configured.
pub type WidgetId = u32;

/// Handle of a window or pop-up, chosen by the toolkit.
pub type WindowId = u32;

/// Name of a channel on which widgets are notified of updates.
pub type UpdateHandle = u64;

/// The first identifier handed out by configuration: that of the root widget.
pub const FIRST_ID: WidgetId = 1;

} // verus!
