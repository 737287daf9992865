//! Events delivered to widgets, and what widgets answer

use vstd::prelude::*;
use crate::event::{GrabMode, ModifiersState, MouseButton, UpdateHandle, VirtualKeyCode, WidgetId, WindowId};
use crate::geom::Coord;
use crate::toolkit::TkAction;

verus! {

/// A command that a key press stands for
#[derive(Clone, Copy, Debug, PartialEq, Eq, Hash, Structural)]
pub enum Command {
    /// Escape key: cancel, give up focus
    Escape,
    /// Return key: confirm
    Return,
    /// Tab key
    Tab,
    /// Move left
    Left,
    /// Move right
    Right,
    /// Move up
    Up,
    /// Move down
    Down,
    /// Go to the start of a line or document
    Home,
    /// Go to the end of a line or document
    End,
    /// Move up a page
    PageUp,
    /// Move down a page
    PageDown,
    /// Toggle insert mode
    Insert,
    /// Delete forwards
    Delete,
    /// Delete backwards
    Backspace,
    /// Take a screen shot
    Snapshot,
    /// Lock scrolling
    ScrollLock,
    /// Pause
    Pause,
    /// Copy to the clipboard
    Copy,
    /// Cut to the clipboard
    Cut,
    /// Paste from the clipboard
    Paste,
    /// Undo the last action
    Undo,
    /// Redo the last undone action
    Redo,
    /// Select all contents
    SelectAll,
}

impl Command {
    /// The command that a key stands for when no modifier but shift is held.
    pub open spec fn spec_new(vkey: VirtualKeyCode) -> Option<Command> {
        match vkey {
            VirtualKeyCode::Escape => Some(Command::Escape),
            VirtualKeyCode::Return => Some(Command::Return),
            VirtualKeyCode::NumpadEnter => Some(Command::Return),
            VirtualKeyCode::Tab => Some(Command::Tab),
            VirtualKeyCode::Left => Some(Command::Left),
            VirtualKeyCode::Right => Some(Command::Right),
            VirtualKeyCode::Up => Some(Command::Up),
            VirtualKeyCode::Down => Some(Command::Down),
            VirtualKeyCode::Home => Some(Command::Home),
            VirtualKeyCode::End => Some(Command::End),
            VirtualKeyCode::PageUp => Some(Command::PageUp),
            VirtualKeyCode::PageDown => Some(Command::PageDown),
            VirtualKeyCode::Insert => Some(Command::Insert),
            VirtualKeyCode::Delete => Some(Command::Delete),
            VirtualKeyCode::Back => Some(Command::Backspace),
            VirtualKeyCode::Snapshot => Some(Command::Snapshot),
            VirtualKeyCode::Scroll => Some(Command::ScrollLock),
            VirtualKeyCode::Pause => Some(Command::Pause),
            _ => None,
        }
    }

    /// The command that a key stands for when no modifier but shift is held,
    /// if it stands for one.
    #[verifier::when_used_as_spec(spec_new)]
    pub fn new(vkey: VirtualKeyCode) -> (c: Option<Command>)
        ensures
            c == Command::spec_new(vkey),
    {
        match vkey {
            VirtualKeyCode::Escape => Some(Command::Escape),
            VirtualKeyCode::Return => Some(Command::Return),
            VirtualKeyCode::NumpadEnter => Some(Command::Return),
            VirtualKeyCode::Tab => Some(Command::Tab),
            VirtualKeyCode::Left => Some(Command::Left),
            VirtualKeyCode::Right => Some(Command::Right),
            VirtualKeyCode::Up => Some(Command::Up),
            VirtualKeyCode::Down => Some(Command::Down),
            VirtualKeyCode::Home => Some(Command::Home),
            VirtualKeyCode::End => Some(Command::End),
            VirtualKeyCode::PageUp => Some(Command::PageUp),
            VirtualKeyCode::PageDown => Some(Command::PageDown),
            VirtualKeyCode::Insert => Some(Command::Insert),
            VirtualKeyCode::Delete => Some(Command::Delete),
            VirtualKeyCode::Back => Some(Command::Backspace),
            VirtualKeyCode::Snapshot => Some(Command::Snapshot),
            VirtualKeyCode::Scroll => Some(Command::ScrollLock),
            VirtualKeyCode::Pause => Some(Command::Pause),
            _ => None,
        }
    }

    /// The command bound to a key with the control key held.
    pub open spec fn spec_with_ctrl(vkey: VirtualKeyCode) -> Option<Command> {
        match vkey {
            VirtualKeyCode::A => Some(Command::SelectAll),
            VirtualKeyCode::C => Some(Command::Copy),
            VirtualKeyCode::V => Some(Command::Paste),
            VirtualKeyCode::X => Some(Command::Cut),
            VirtualKeyCode::Y => Some(Command::Redo),
            VirtualKeyCode::Z => Some(Command::Undo),
            _ => None,
        }
    }

    /// The command bound to a key with the control key held, if one is.
    #[verifier::when_used_as_spec(spec_with_ctrl)]
    pub fn with_ctrl(vkey: VirtualKeyCode) -> (c: Option<Command>)
        ensures
            c == Command::spec_with_ctrl(vkey),
    {
        match vkey {
            VirtualKeyCode::A => Some(Command::SelectAll),
            VirtualKeyCode::C => Some(Command::Copy),
            VirtualKeyCode::V => Some(Command::Paste),
            VirtualKeyCode::X => Some(Command::Cut),
            VirtualKeyCode::Y => Some(Command::Redo),
            VirtualKeyCode::Z => Some(Command::Undo),
            _ => None,
        }
    }

    /// The command that a key press stands for under the given modifiers:
    /// with control alone (shift aside) the control bindings, with no
    /// modifier (shift aside) the plain ones, otherwise none.
    pub open spec fn spec_lookup(modifiers: ModifiersState, vkey: VirtualKeyCode) -> Option<Command> {
        if modifiers.alt || modifiers.logo {
            None
        } else if modifiers.ctrl {
            Command::spec_with_ctrl(vkey)
        } else {
            Command::spec_new(vkey)
        }
    }

    /// The command that a key press stands for under the given modifiers.
    #[verifier::when_used_as_spec(spec_lookup)]
    pub fn lookup(modifiers: ModifiersState, vkey: VirtualKeyCode) -> (c: Option<Command>)
        ensures
            c == Command::spec_lookup(modifiers, vkey),
    {
        if modifiers.alt || modifiers.logo {
            None
        } else if modifiers.ctrl {
            Command::with_ctrl(vkey)
        } else {
            Command::new(vkey)
        }
    }
}

/// Source of a press: a mouse button or a finger
#[derive(Clone, Copy, Debug, PartialEq, Eq, Structural)]
pub enum PressSource {
    /// A mouse button, and how many times it was pressed in quick succession
    Mouse(MouseButton, u32),
    /// A touch, by the identifier the platform gives the finger
    Touch(u64),
}

impl PressSource {
    /// Is the source a touch?
    pub open spec fn spec_is_touch(self) -> bool {
        self is Touch
    }

    /// Is the source a touch?
    #[verifier::when_used_as_spec(spec_is_touch)]
    pub fn is_touch(self) -> (b: bool)
        ensures
            b == self.spec_is_touch(),
    {
        match self {
            PressSource::Mouse(_, _) => false,
            PressSource::Touch(_) => true,
        }
    }
}

/// One contact point of a pan gesture: where it started, and where it is
#[derive(Clone, Copy, Debug, PartialEq, Eq, Structural)]
pub struct PanPoint {
    /// Where the press started
    pub start: Coord,
    /// Where the press is now
    pub current: Coord,
}

/// An event delivered to a widget
#[derive(Clone, Copy, Debug, PartialEq, Eq, Structural)]
pub enum Event {
    /// The widget is activated, as a button by a click
    Activate,
    /// A command from the keyboard, and whether shift was held
    Command(Command, bool),
    /// The widget has lost character focus
    LostCharFocus,
    /// The widget has lost selection focus
    LostSelFocus,
    /// The widget has received navigation focus
    NavFocus,
    /// A character was typed while the widget had character focus
    ReceivedCharacter(char),
    /// A mouse button was pressed or a finger touched the screen
    PressStart { source: PressSource, start_id: Option<WidgetId>, coord: Coord },
    /// A grabbed press moved
    PressMove { source: PressSource, cur_id: Option<WidgetId>, coord: Coord, delta: Coord },
    /// A grabbed press ended
    PressEnd { source: PressSource, end_id: Option<WidgetId>, coord: Coord },
    /// A pan gesture on the widget moved.
    ///
    /// `first` is the gesture's first contact point and `second` its second,
    /// where there is one; together with `mode` they fix the movement,
    /// scaling and rotation that the gesture asks for.
    Pan { mode: GrabMode, first: PanPoint, second: Option<PanPoint> },
    /// A timer set by the widget has fired
    TimerUpdate,
    /// An update handle on which the widget waits was triggered
    HandleUpdate { handle: UpdateHandle, payload: u64 },
    /// A pop-up opened by the widget was closed
    PopupRemoved(WindowId),
    /// The widget is now shown in a pop-up
    NewPopup(WidgetId),
}

/// What a widget answers to an event
#[derive(Clone, Copy, Debug, PartialEq, Eq, Structural)]
pub enum Response {
    /// The event was handled; nothing else is needed
    Handled,
    /// Nobody handled the event
    Unhandled,
    /// The event was handled, and the window must act
    Action(TkAction),
    /// The event was handled, and the widget has a message for its parent
    Msg(u64),
}

} // verus!
