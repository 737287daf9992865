//! Toolkit interface
//!
//! The "toolkit" (or shell) is the layer that talks to the windowing system.
//! The event manager reaches it through the [`TkWindow`] trait and reports
//! what the window must do next as a [`TkAction`].

use vstd::prelude::*;
use crate::event::{CursorIcon, Popup, WindowId};

verus! {

/// Toolkit actions needed after event handling, if any.
///
/// The variants are listed in order of increasing severity: a later action
/// implies everything an earlier one asks for.
#[derive(Debug, Clone, Copy, PartialEq, Eq, Structural)]
pub enum TkAction {
    /// No action needed
    Nothing,
    /// Whole window requires redrawing
    Redraw,
    /// Whole window requires reconfigure *and* redrawing
    Reconfigure,
    /// Window should be closed
    Close,
    /// All windows should close (toolkit exit)
    CloseAll,
}

impl TkAction {
    /// Position of the action in the order
    /// `Nothing < Redraw < Reconfigure < Close < CloseAll`
    pub open spec fn spec_rank(self) -> u8 {
        match self {
            TkAction::Nothing => 0,
            TkAction::Redraw => 1,
            TkAction::Reconfigure => 2,
            TkAction::Close => 3,
            TkAction::CloseAll => 4,
        }
    }

    /// Position of the action in the order
    /// `Nothing < Redraw < Reconfigure < Close < CloseAll`
    #[verifier::when_used_as_spec(spec_rank)]
    pub fn rank(self) -> (r: u8)
        ensures
            r == self.spec_rank(),
    {
        match self {
            TkAction::Nothing => 0,
            TkAction::Redraw => 1,
            TkAction::Reconfigure => 2,
            TkAction::Close => 3,
            TkAction::CloseAll => 4,
        }
    }

    /// The more severe of two actions
    pub open spec fn spec_max(self, other: TkAction) -> TkAction {
        if other.spec_rank() > self.spec_rank() {
            other
        } else {
            self
        }
    }

    /// The more severe of two actions: what the window must do when both are
    /// requested.
    pub fn max(self, other: TkAction) -> (r: TkAction)
        ensures
            r == self.spec_max(other),
    {
        if other.rank() > self.rank() {
            other
        } else {
            self
        }
    }
}

/// Folding with [`TkAction::max`] keeps the most severe request: the result
/// is at least as severe as either argument, is one of them, and the fold is
/// commutative, associative and idempotent.
pub proof fn lemma_action_max_is_join(a: TkAction, b: TkAction, c: TkAction)
    ensures
        a.spec_max(b).spec_rank() >= a.spec_rank(),
        a.spec_max(b).spec_rank() >= b.spec_rank(),
        a.spec_max(b) == a || a.spec_max(b) == b,
        a.spec_max(b) == b.spec_max(a),
        a.spec_max(b).spec_max(c) == a.spec_max(b.spec_max(c)),
        a.spec_max(a) == a,
        a.spec_max(TkAction::Nothing) == a,
{
}

/// A call that the event manager makes on the toolkit's window, with what
/// the toolkit returned where the call returns something.
pub enum ShellCall {
    /// A pop-up was to be opened; the toolkit returned the handle.
    AddPopup(Popup, Option<WindowId>),
    /// The window with this handle was to be closed.
    CloseWindow(WindowId),
    /// The clipboard was read; the toolkit returned this text.
    GetClipboard(Option<Seq<char>>),
    /// This text was to be put on the clipboard.
    SetClipboard(Seq<char>),
    /// The mouse cursor was to get this icon.
    SetCursorIcon(CursorIcon),
}

/// The characters of a text that the toolkit returned, if it returned one.
pub open spec fn text_of(r: Option<String>) -> Option<Seq<char>> {
    match r {
        Some(text) => Some(text@),
        None => None,
    }
}

/// Toolkit-specific window management interface.
///
/// This is implemented by a toolkit on its window handle. The event manager
/// calls it while it handles an event. What a call does to the window is the
/// toolkit's business: each method has a relation between the window before
/// the call and after it, which holds of every toolkit unless the toolkit
/// says more of itself.
pub trait TkWindow: Sized {
    /// What [`TkWindow::add_popup`] does to the window and returns.
    open spec fn popup_added(&self, popup: Popup, after: &Self, r: Option<WindowId>) -> bool {
        true
    }

    /// What [`TkWindow::close_window`] does to the window.
    open spec fn window_closed(&self, id: WindowId, after: &Self) -> bool {
        true
    }

    /// What [`TkWindow::get_clipboard`] does to the window and returns.
    open spec fn clipboard_got(&self, after: &Self, r: Option<Seq<char>>) -> bool {
        true
    }

    /// What [`TkWindow::set_clipboard`] does to the window.
    open spec fn clipboard_set(&self, content: Seq<char>, after: &Self) -> bool {
        true
    }

    /// What [`TkWindow::set_cursor_icon`] does to the window.
    open spec fn cursor_icon_set(&self, icon: CursorIcon, after: &Self) -> bool {
        true
    }

    /// Open a pop-up over the window and return its handle, or `None` where
    /// the toolkit cannot show it.
    fn add_popup(&mut self, popup: Popup) -> (r: Option<WindowId>)
        ensures
            (*old(self)).popup_added(popup, &*final(self), r),
    ;

    /// Close the pop-up or window with the given handle.
    fn close_window(&mut self, id: WindowId)
        ensures
            (*old(self)).window_closed(id, &*final(self)),
    ;

    /// Attempt to get clipboard contents
    ///
    /// In case of failure, paste actions will simply fail.
    fn get_clipboard(&mut self) -> (r: Option<String>)
        ensures
            (*old(self)).clipboard_got(&*final(self), text_of(r)),
    ;

    /// Attempt to set clipboard contents
    fn set_clipboard(&mut self, content: String)
        ensures
            (*old(self)).clipboard_set(content@, &*final(self)),
    ;

    /// Set the mouse cursor
    fn set_cursor_icon(&mut self, icon: CursorIcon)
        ensures
            (*old(self)).cursor_icon_set(icon, &*final(self)),
    ;
}

/// The window of no toolkit: nothing is shown, but book is kept. It gives
/// each pop-up a handle of its own, lists the windows that it was asked to
/// close, keeps a clipboard, and remembers the cursor icon that was set
/// last.
pub struct Headless {
    cursor_icon: CursorIcon,
    clipboard: Option<String>,
    opened: u32,
    closed: Vec<WindowId>,
}

/// The content of a [`Headless`] window
pub struct HeadlessView {
    /// The cursor icon that was set last
    pub cursor_icon: CursorIcon,
    /// The text on the clipboard, if there is one
    pub clipboard: Option<Seq<char>>,
    /// The number of pop-ups that were opened, which is the handle of the
    /// last
    pub opened: u32,
    /// The handles of the windows that were to be closed, in order
    pub closed: Seq<WindowId>,
}

impl View for Headless {
    type V = HeadlessView;

    closed spec fn view(&self) -> HeadlessView {
        HeadlessView {
            cursor_icon: self.cursor_icon,
            clipboard: text_of(self.clipboard),
            opened: self.opened,
            closed: self.closed@,
        }
    }
}

impl Headless {
    /// A window with the default cursor and an empty clipboard, on which
    /// nothing was opened or closed.
    pub fn new() -> (w: Headless)
        ensures
            w@ == (HeadlessView {
                cursor_icon: CursorIcon::Default,
                clipboard: None,
                opened: 0,
                closed: Seq::empty(),
            }),
    {
        Headless {
            cursor_icon: CursorIcon::Default,
            clipboard: None,
            opened: 0,
            closed: Vec::new(),
        }
    }

    /// The cursor icon that was set last.
    pub fn cursor_icon(&self) -> (icon: CursorIcon)
        ensures
            icon == self@.cursor_icon,
    {
        self.cursor_icon
    }

    /// The handles of the windows that were to be closed, in order.
    pub fn closed(&self) -> (closed: &Vec<WindowId>)
        ensures
            closed@ == self@.closed,
    {
        &self.closed
    }
}

impl TkWindow for Headless {
    /// The pop-up gets the next handle, counting from one; once the handles
    /// have run out, none is opened and nothing changes.
    open spec fn popup_added(&self, popup: Popup, after: &Self, r: Option<WindowId>) -> bool {
        if self@.opened < u32::MAX {
            r == Some((self@.opened + 1) as WindowId) && after@ == (HeadlessView {
                opened: (self@.opened + 1) as u32,
                ..self@
            })
        } else {
            r is None && after@ == self@
        }
    }

    /// The handle is put on the list.
    open spec fn window_closed(&self, id: WindowId, after: &Self) -> bool {
        after@ == (HeadlessView { closed: self@.closed.push(id), ..self@ })
    }

    /// The text on the clipboard is returned, and nothing changes.
    open spec fn clipboard_got(&self, after: &Self, r: Option<Seq<char>>) -> bool {
        r == self@.clipboard && after@ == self@
    }

    /// The clipboard holds `content` afterwards.
    open spec fn clipboard_set(&self, content: Seq<char>, after: &Self) -> bool {
        after@ == (HeadlessView { clipboard: Some(content), ..self@ })
    }

    /// The icon is remembered.
    open spec fn cursor_icon_set(&self, icon: CursorIcon, after: &Self) -> bool {
        after@ == (HeadlessView { cursor_icon: icon, ..self@ })
    }

    fn add_popup(&mut self, popup: Popup) -> (r: Option<WindowId>) {
        let _ = popup;
        if self.opened < u32::MAX {
            self.opened = self.opened + 1;
            Some(self.opened)
        } else {
            None
        }
    }

    fn close_window(&mut self, id: WindowId) {
        self.closed.push(id);
    }

    fn get_clipboard(&mut self) -> (r: Option<String>) {
        match &self.clipboard {
            Some(text) => Some(text.as_str().to_owned()),
            None => None,
        }
    }

    fn set_clipboard(&mut self, content: String) {
        self.clipboard = Some(content);
    }

    fn set_cursor_icon(&mut self, icon: CursorIcon) {
        self.cursor_icon = icon;
    }
}

/// The toolkit's window `s0` is asked `call` and is `s1` afterwards.
pub open spec fn shell_told<S: TkWindow>(s0: S, call: ShellCall, s1: S) -> bool {
    match call {
        ShellCall::AddPopup(popup, r) => s0.popup_added(popup, &s1, r),
        ShellCall::CloseWindow(id) => s0.window_closed(id, &s1),
        ShellCall::GetClipboard(r) => s0.clipboard_got(&s1, r),
        ShellCall::SetClipboard(content) => s0.clipboard_set(content, &s1),
        ShellCall::SetCursorIcon(icon) => s0.cursor_icon_set(icon, &s1),
    }
}

/// The toolkit's window `s0` is asked `call`, if there is one, and nothing
/// else, and is `s1` afterwards.
pub open spec fn shell_step<S: TkWindow>(s0: S, call: Option<ShellCall>, s1: S) -> bool {
    match call {
        Some(call) => shell_told(s0, call, s1),
        None => s1 == s0,
    }
}

/// The toolkit's window `s0` is asked `calls` in turn, and nothing else, and
/// is `s1` afterwards.
pub open spec fn shell_calls<S: TkWindow>(s0: S, calls: Seq<ShellCall>, s1: S) -> bool
    decreases calls.len(),
{
    if calls.len() == 0 {
        s1 == s0
    } else {
        exists|sm: S|
            shell_calls(s0, calls.drop_last(), sm) && #[trigger] shell_told(sm, calls.last(), s1)
    }
}

/// The calls of a step: the one call, or none.
pub open spec fn step_calls(call: Option<ShellCall>) -> Seq<ShellCall> {
    match call {
        Some(call) => seq![call],
        None => Seq::empty(),
    }
}

/// A step is a sequence of one call or of none.
pub proof fn lemma_step_calls<S: TkWindow>(s0: S, call: Option<ShellCall>, s1: S)
    requires
        shell_step(s0, call, s1),
    ensures
        shell_calls(s0, step_calls(call), s1),
{
    match call {
        Some(c) => {
            assert(seq![c].drop_last() =~= Seq::<ShellCall>::empty());
            assert(seq![c].last() == c);
            assert(shell_calls(s0, seq![c].drop_last(), s0) && shell_told(s0, seq![c].last(), s1));
        },
        None => {},
    }
}

} // verus!
