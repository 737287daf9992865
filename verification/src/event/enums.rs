//! Plain input vocabulary: buttons, modifiers, keys, cursor icons

use vstd::prelude::*;
use crate::event::WidgetId;

verus! {

/// A button of a mouse
#[derive(Clone, Copy, Debug, PartialEq, Eq, Hash, Structural)]
pub enum MouseButton {
    Left,
    Right,
    Middle,
    /// Any other button, by the number the platform gives it
    Other(u16),
}

/// The modifier keys held down
#[derive(Clone, Copy, Debug, PartialEq, Eq, Hash, Structural)]
pub struct ModifiersState {
    pub shift: bool,
    pub ctrl: bool,
    pub alt: bool,
    pub logo: bool,
}

impl ModifiersState {
    /// No modifier held
    pub open spec fn spec_empty() -> ModifiersState {
        ModifiersState { shift: false, ctrl: false, alt: false, logo: false }
    }

    /// No modifier held
    #[verifier::when_used_as_spec(spec_empty)]
    pub fn empty() -> (m: ModifiersState)
        ensures
            m == ModifiersState::spec_empty(),
    {
        ModifiersState { shift: false, ctrl: false, alt: false, logo: false }
    }

    /// Is a shift key held?
    pub fn shift(&self) -> (b: bool)
        ensures
            b == self.shift,
    {
        self.shift
    }

    /// Is a control key held?
    pub fn ctrl(&self) -> (b: bool)
        ensures
            b == self.ctrl,
    {
        self.ctrl
    }

    /// Is an alt key held?
    pub fn alt(&self) -> (b: bool)
        ensures
            b == self.alt,
    {
        self.alt
    }

    /// Is a logo key held?
    pub fn logo(&self) -> (b: bool)
        ensures
            b == self.logo,
    {
        self.logo
    }

    /// Is no modifier held?
    pub fn is_empty(&self) -> (b: bool)
        ensures
            b == (*self == ModifiersState::spec_empty()),
    {
        !self.shift && !self.ctrl && !self.alt && !self.logo
    }
}

/// The shape of the mouse cursor
#[derive(Clone, Copy, Debug, PartialEq, Eq, Hash, Structural)]
pub enum CursorIcon {
    /// The platform's default cursor
    Default,
    Crosshair,
    Hand,
    Arrow,
    Move,
    Text,
    Wait,
    Help,
    Progress,
    NotAllowed,
    ContextMenu,
    Cell,
    VerticalText,
    Alias,
    Copy,
    NoDrop,
    Grab,
    Grabbing,
    AllScroll,
    ZoomIn,
    ZoomOut,
    EResize,
    NResize,
    NeResize,
    NwResize,
    SResize,
    SeResize,
    SwResize,
    WResize,
    EwResize,
    NsResize,
    NeswResize,
    NwseResize,
    ColResize,
    RowResize,
}

/// The side of its parent on which a pop-up opens
#[derive(Clone, Copy, Debug, PartialEq, Eq, Hash, Structural)]
pub enum Direction {
    Right,
    Down,
    Left,
    Up,
}

/// Description of a pop-up: a part of the widget tree shown in a layer of
/// its own over the window
#[derive(Clone, Copy, Debug, PartialEq, Eq, Structural)]
pub struct Popup {
    /// The widget shown in the pop-up: the root of its content
    pub id: WidgetId,
    /// The widget that opened the pop-up and is told when it closes
    pub parent: WidgetId,
    /// Where the pop-up opens, relative to its parent
    pub direction: Direction,
}

/// Symbolic name of a keyboard key
#[derive(Clone, Copy, Debug, PartialEq, Eq, Hash, Structural)]
pub enum VirtualKeyCode {
    Key1,
    Key2,
    Key3,
    Key4,
    Key5,
    Key6,
    Key7,
    Key8,
    Key9,
    Key0,
    A,
    B,
    C,
    D,
    E,
    F,
    G,
    H,
    I,
    J,
    K,
    L,
    M,
    N,
    O,
    P,
    Q,
    R,
    S,
    T,
    U,
    V,
    W,
    X,
    Y,
    Z,
    Escape,
    F1,
    F2,
    F3,
    F4,
    F5,
    F6,
    F7,
    F8,
    F9,
    F10,
    F11,
    F12,
    Snapshot,
    Scroll,
    Pause,
    Insert,
    Home,
    Delete,
    End,
    PageDown,
    PageUp,
    Left,
    Up,
    Right,
    Down,
    Back,
    Return,
    Space,
    Tab,
    NumpadEnter,
}

impl VirtualKeyCode {
    /// A number for the key, different for different keys: the key under
    /// which accelerator tables store it.
    pub open spec fn spec_code(self) -> u32 {
        match self {
            VirtualKeyCode::Key1 => 0,
            VirtualKeyCode::Key2 => 1,
            VirtualKeyCode::Key3 => 2,
            VirtualKeyCode::Key4 => 3,
            VirtualKeyCode::Key5 => 4,
            VirtualKeyCode::Key6 => 5,
            VirtualKeyCode::Key7 => 6,
            VirtualKeyCode::Key8 => 7,
            VirtualKeyCode::Key9 => 8,
            VirtualKeyCode::Key0 => 9,
            VirtualKeyCode::A => 10,
            VirtualKeyCode::B => 11,
            VirtualKeyCode::C => 12,
            VirtualKeyCode::D => 13,
            VirtualKeyCode::E => 14,
            VirtualKeyCode::F => 15,
            VirtualKeyCode::G => 16,
            VirtualKeyCode::H => 17,
            VirtualKeyCode::I => 18,
            VirtualKeyCode::J => 19,
            VirtualKeyCode::K => 20,
            VirtualKeyCode::L => 21,
            VirtualKeyCode::M => 22,
            VirtualKeyCode::N => 23,
            VirtualKeyCode::O => 24,
            VirtualKeyCode::P => 25,
            VirtualKeyCode::Q => 26,
            VirtualKeyCode::R => 27,
            VirtualKeyCode::S => 28,
            VirtualKeyCode::T => 29,
            VirtualKeyCode::U => 30,
            VirtualKeyCode::V => 31,
            VirtualKeyCode::W => 32,
            VirtualKeyCode::X => 33,
            VirtualKeyCode::Y => 34,
            VirtualKeyCode::Z => 35,
            VirtualKeyCode::Escape => 36,
            VirtualKeyCode::F1 => 37,
            VirtualKeyCode::F2 => 38,
            VirtualKeyCode::F3 => 39,
            VirtualKeyCode::F4 => 40,
            VirtualKeyCode::F5 => 41,
            VirtualKeyCode::F6 => 42,
            VirtualKeyCode::F7 => 43,
            VirtualKeyCode::F8 => 44,
            VirtualKeyCode::F9 => 45,
            VirtualKeyCode::F10 => 46,
            VirtualKeyCode::F11 => 47,
            VirtualKeyCode::F12 => 48,
            VirtualKeyCode::Snapshot => 49,
            VirtualKeyCode::Scroll => 50,
            VirtualKeyCode::Pause => 51,
            VirtualKeyCode::Insert => 52,
            VirtualKeyCode::Home => 53,
            VirtualKeyCode::Delete => 54,
            VirtualKeyCode::End => 55,
            VirtualKeyCode::PageDown => 56,
            VirtualKeyCode::PageUp => 57,
            VirtualKeyCode::Left => 58,
            VirtualKeyCode::Up => 59,
            VirtualKeyCode::Right => 60,
            VirtualKeyCode::Down => 61,
            VirtualKeyCode::Back => 62,
            VirtualKeyCode::Return => 63,
            VirtualKeyCode::Space => 64,
            VirtualKeyCode::Tab => 65,
            VirtualKeyCode::NumpadEnter => 66,
        }
    }

    /// A number for the key, different for different keys.
    #[verifier::when_used_as_spec(spec_code)]
    pub fn code(self) -> (c: u32)
        ensures
            c == self.spec_code(),
    {
        match self {
            VirtualKeyCode::Key1 => 0,
            VirtualKeyCode::Key2 => 1,
            VirtualKeyCode::Key3 => 2,
            VirtualKeyCode::Key4 => 3,
            VirtualKeyCode::Key5 => 4,
            VirtualKeyCode::Key6 => 5,
            VirtualKeyCode::Key7 => 6,
            VirtualKeyCode::Key8 => 7,
            VirtualKeyCode::Key9 => 8,
            VirtualKeyCode::Key0 => 9,
            VirtualKeyCode::A => 10,
            VirtualKeyCode::B => 11,
            VirtualKeyCode::C => 12,
            VirtualKeyCode::D => 13,
            VirtualKeyCode::E => 14,
            VirtualKeyCode::F => 15,
            VirtualKeyCode::G => 16,
            VirtualKeyCode::H => 17,
            VirtualKeyCode::I => 18,
            VirtualKeyCode::J => 19,
            VirtualKeyCode::K => 20,
            VirtualKeyCode::L => 21,
            VirtualKeyCode::M => 22,
            VirtualKeyCode::N => 23,
            VirtualKeyCode::O => 24,
            VirtualKeyCode::P => 25,
            VirtualKeyCode::Q => 26,
            VirtualKeyCode::R => 27,
            VirtualKeyCode::S => 28,
            VirtualKeyCode::T => 29,
            VirtualKeyCode::U => 30,
            VirtualKeyCode::V => 31,
            VirtualKeyCode::W => 32,
            VirtualKeyCode::X => 33,
            VirtualKeyCode::Y => 34,
            VirtualKeyCode::Z => 35,
            VirtualKeyCode::Escape => 36,
            VirtualKeyCode::F1 => 37,
            VirtualKeyCode::F2 => 38,
            VirtualKeyCode::F3 => 39,
            VirtualKeyCode::F4 => 40,
            VirtualKeyCode::F5 => 41,
            VirtualKeyCode::F6 => 42,
            VirtualKeyCode::F7 => 43,
            VirtualKeyCode::F8 => 44,
            VirtualKeyCode::F9 => 45,
            VirtualKeyCode::F10 => 46,
            VirtualKeyCode::F11 => 47,
            VirtualKeyCode::F12 => 48,
            VirtualKeyCode::Snapshot => 49,
            VirtualKeyCode::Scroll => 50,
            VirtualKeyCode::Pause => 51,
            VirtualKeyCode::Insert => 52,
            VirtualKeyCode::Home => 53,
            VirtualKeyCode::Delete => 54,
            VirtualKeyCode::End => 55,
            VirtualKeyCode::PageDown => 56,
            VirtualKeyCode::PageUp => 57,
            VirtualKeyCode::Left => 58,
            VirtualKeyCode::Up => 59,
            VirtualKeyCode::Right => 60,
            VirtualKeyCode::Down => 61,
            VirtualKeyCode::Back => 62,
            VirtualKeyCode::Return => 63,
            VirtualKeyCode::Space => 64,
            VirtualKeyCode::Tab => 65,
            VirtualKeyCode::NumpadEnter => 66,
        }
    }
}

/// Different keys have different codes.
pub proof fn lemma_code_injective(a: VirtualKeyCode, b: VirtualKeyCode)
    ensures
        a.spec_code() == b.spec_code() <==> a == b,
{
}

} // verus!
