//! Event handling core of a retained-mode UI toolkit.
//!
//! The crate turns raw input for one window (pointer, touch, keyboard, timers,
//! update notifications) into semantic events addressed to the widgets of a
//! tree, and owns the interaction state that lives between two events:
//! keyboard focus, pointer and touch grabs, pan gestures, the pop-up stack,
//! accelerator-key layers and scheduled updates.
//!
//! All state is held in [`event::ManagerState`]; all changes go through a
//! short-lived [`event::Manager`] handle. Every function carries a contract
//! over the mathematical view of the state, [`event::StateView`].

pub mod data;
pub mod display;
pub mod draw;
pub mod event;
pub mod geom;
pub mod options;
pub mod toolkit;
pub mod widget;
pub mod window;

pub use data::{ListData, ListDataMut, SharedData, SingleData, SingleDataMut};
pub use display::Text;
pub use draw::ThemeAction;
pub use event::{WidgetId, WindowId};
pub use geom::{Coord, Rect, Size};
pub use options::{Backends, ConfigMode, PowerPreference};
pub use toolkit::{TkAction, TkWindow};
pub use window::CallbackCond;
