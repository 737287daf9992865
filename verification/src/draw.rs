//! Drawing interface: run-time theme adjustment and sizes

pub mod size;
pub mod theme;

pub use size::{SizeRules, Stretch, TextClass, TextDims};
pub use theme::ThemeAction;
