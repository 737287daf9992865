//! Widgets

pub mod button;
pub mod combobox;
pub mod editbox;
pub mod menu;

pub use button::TextButton;
pub use combobox::ComboBox;
pub use editbox::{EditAction, EditBox, LastEdit};
pub use menu::{MenuEntry, MenuToggle};
