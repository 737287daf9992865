//! Text widgets

use vstd::prelude::*;
use crate::event::handler::Widget;
use crate::event::configure::ConfigView;
use crate::event::manager::{ConfigureManager, Manager, ManagerView};
use crate::event::{CursorIcon, Event, Response, WidgetId};
use crate::geom::Coord;
use crate::toolkit::{
    lemma_step_calls, shell_calls, shell_step, step_calls, ShellCall, TkAction, TkWindow,
};

verus! {

broadcast use vstd::string::axiom_spec_iter;

/// The kind of edit that was made last: a run of edits of one kind is
/// undone as one.
#[derive(Clone, Copy, Debug, PartialEq, Eq, Structural)]
pub enum LastEdit {
    /// No edit, or an undo
    Nothing,
    /// A character was typed
    Insert,
    /// A character was deleted backwards
    Backspace,
    /// The text was cleared
    Clear,
    /// Text was pasted
    Paste,
}

/// What came of an event that an [`EditBox`] was sent
#[derive(Clone, Copy, Debug, PartialEq, Eq, Structural)]
pub enum EditAction {
    /// The event is not for an edit box
    Unhandled,
    /// Nothing that a user of the edit box needs to know
    Nothing,
    /// The user has confirmed the text, with the return key
    Activate,
    /// The text may have changed
    Edit,
    /// The edit box has lost the keyboard
    FocusLost,
}

/// Is `c` a control character? Control characters are commands to the edit
/// box, and never become part of the text.
pub open spec fn spec_is_control(c: char) -> bool {
    c < '\u{20}' || ('\u{7f}' <= c && c <= '\u{9f}')
}

/// Is `c` a control character?
#[verifier::when_used_as_spec(spec_is_control)]
pub fn is_control(c: char) -> (r: bool)
    ensures
        r == spec_is_control(c),
{
    c < '\u{20}' || ('\u{7f}' <= c && c <= '\u{9f}')
}

/// The length of the part of `content` before its first control character:
/// the part that is pasted.
pub open spec fn paste_len(content: Seq<char>) -> int
    decreases content.len(),
{
    if content.len() == 0 || spec_is_control(content[0]) {
        0
    } else {
        1 + paste_len(content.skip(1))
    }
}

/// The content of an edit box
pub struct EditView {
    /// The identifier of the edit box; `0` before it is configured
    pub id: WidgetId,
    /// Whether the text can be edited
    pub editable: bool,
    /// Whether the text may have several lines
    pub multi_line: bool,
    /// Whether the content is marked as in error
    pub error_state: bool,
    /// The text
    pub text: Seq<char>,
    /// The text before the last run of edits, for undo
    pub old_state: Option<Seq<char>>,
    /// The kind of edit that was made last
    pub last_edit: LastEdit,
}

impl EditView {
    /// The content at the start of an edit of the given kind: where the
    /// last edit was of another kind, the text is kept for undo.
    pub open spec fn begin(self, kind: LastEdit) -> EditView {
        if self.last_edit != kind {
            EditView { old_state: Some(self.text), last_edit: kind, ..self }
        } else {
            self
        }
    }

    /// The content after the character `c` has been received, where
    /// `clipboard` is what the clipboard holds.
    ///
    /// - A character that is no control character is put at the end of the
    ///   text.
    /// - Backspace takes the last character away, and delete all of them.
    /// - Paste puts the clipboard's content at the end, up to its first
    ///   control character.
    /// - Undo exchanges the text with the text before the last run of edits.
    /// - Every other control character changes nothing, and neither does any
    ///   character while the text cannot be edited.
    pub open spec fn received(self, c: char, clipboard: Option<Seq<char>>) -> EditView {
        if !self.editable {
            self
        } else if !spec_is_control(c) {
            EditView { text: self.text.push(c), ..self.begin(LastEdit::Insert) }
        } else if c == '\u{08}' {
            EditView {
                text: if self.text.len() > 0 {
                    self.text.drop_last()
                } else {
                    self.text
                },
                ..self.begin(LastEdit::Backspace)
            }
        } else if c == '\u{16}' {
            EditView {
                text: match clipboard {
                    Some(content) => self.text + content.take(paste_len(content)),
                    None => self.text,
                },
                ..self.begin(LastEdit::Paste)
            }
        } else if c == '\u{1a}' {
            match self.old_state {
                Some(state) => EditView {
                    text: state,
                    old_state: Some(self.text),
                    last_edit: LastEdit::Nothing,
                    ..self
                },
                None => self,
            }
        } else if c == '\u{7f}' {
            EditView { text: Seq::empty(), ..self.begin(LastEdit::Clear) }
        } else {
            self
        }
    }

    /// What a user of the edit box is told after the character `c` has been
    /// received: nothing while the text cannot be edited, that the text was
    /// confirmed on a carriage return, and that it may have changed on any
    /// other character.
    pub open spec fn received_action(self, c: char) -> EditAction {
        if !self.editable {
            EditAction::Nothing
        } else if c == '\u{0d}' {
            EditAction::Activate
        } else {
            EditAction::Edit
        }
    }
}

/// The characters of a string.
fn chars_of(s: &str) -> (r: Vec<char>)
    ensures
        r@ == s@,
{
    let mut r: Vec<char> = Vec::new();
    for c in it: s.chars()
        invariant
            it.seq() == s@,
            r@ == it.seq().take(it.index() as int),
    {
        r.push(c);
        proof {
            assert(it.seq().take(it.index() + 1) =~= it.seq().take(it.index() as int).push(c));
        }
    }
    proof {
        assert(s@.take(s@.len() as int) =~= s@);
    }
    r
}

/// `String::push`: afterwards the string is the old one with `c` at its end.
#[verifier::external_body]
fn push_char(s: &mut String, c: char)
    ensures
        final(s)@ == old(s)@.push(c),
{
    s.push(c)
}

/// The string of the characters.
fn string_of(chars: &Vec<char>) -> (r: String)
    ensures
        r@ == chars@,
{
    let mut r = String::new();
    let mut i: usize = 0;
    while i < chars.len()
        invariant
            0 <= i <= chars@.len(),
            r@ == chars@.take(i as int),
        decreases chars@.len() - i,
    {
        push_char(&mut r, chars[i]);
        proof {
            assert(chars@.take(i + 1) =~= chars@.take(i as int).push(chars@[i as int]));
        }
        i = i + 1;
    }
    proof {
        assert(chars@.take(chars@.len() as int) =~= chars@);
    }
    r
}

/// An editable, single-line text box.
pub struct EditBox {
    id: WidgetId,
    editable: bool,
    multi_line: bool,
    text: Vec<char>,
    old_state: Option<Vec<char>>,
    last_edit: LastEdit,
    error_state: bool,
}

impl View for EditBox {
    type V = EditView;

    closed spec fn view(&self) -> EditView {
        EditView {
            id: self.id,
            editable: self.editable,
            multi_line: self.multi_line,
            error_state: self.error_state,
            text: self.text@,
            old_state: match self.old_state {
                Some(state) => Some(state@),
                None => None,
            },
            last_edit: self.last_edit,
        }
    }
}

impl EditBox {
    /// Construct an `EditBox` with the given inital `text`.
    pub fn new(text: &str) -> (edit: EditBox)
        ensures
            edit@ == (EditView {
                id: 0,
                editable: true,
                multi_line: false,
                error_state: false,
                text: text@,
                old_state: None,
                last_edit: LastEdit::Nothing,
            }),
    {
        EditBox {
            id: 0,
            editable: true,
            multi_line: false,
            text: chars_of(text),
            old_state: None,
            last_edit: LastEdit::Nothing,
            error_state: false,
        }
    }

    /// Set whether this `EditBox` is editable.
    pub fn editable(self, editable: bool) -> (edit: EditBox)
        ensures
            edit@ == (EditView { editable, ..self@ }),
    {
        let mut edit = self;
        edit.editable = editable;
        edit
    }

    /// Set whether this `EditBox` shows multiple text lines
    pub fn multi_line(self, multi_line: bool) -> (edit: EditBox)
        ensures
            edit@ == (EditView { multi_line, ..self@ }),
    {
        let mut edit = self;
        edit.multi_line = multi_line;
        edit
    }

    /// The identifier of the edit box; `0` before it is configured.
    pub fn id(&self) -> (id: WidgetId)
        ensures
            id == self@.id,
    {
        self.id
    }

    /// Get whether this `EditBox` is editable.
    pub fn is_editable(&self) -> (r: bool)
        ensures
            r == self@.editable,
    {
        self.editable
    }

    /// Set whether this `EditBox` is editable.
    pub fn set_editable(&mut self, editable: bool)
        ensures
            final(self)@ == (EditView { editable, ..old(self)@ }),
    {
        self.editable = editable;
    }

    /// Get whether the input state is erroneous
    pub fn has_error(&self) -> (r: bool)
        ensures
            r == self@.error_state,
    {
        self.error_state
    }

    /// Set the error state
    ///
    /// When true, the input field's background is drawn red.
    pub fn set_error_state(&mut self, error_state: bool)
        ensures
            final(self)@ == (EditView { error_state, ..old(self)@ }),
    {
        self.error_state = error_state;
    }

    /// The text.
    pub fn get_text(&self) -> (text: String)
        ensures
            text@ == self@.text,
    {
        string_of(&self.text)
    }

    /// Replaces the text. The result says what the window must do for the
    /// new text to be seen.
    pub fn set_text(&mut self, text: &str) -> (action: TkAction)
        ensures
            final(self)@ == (EditView { text: text@, ..old(self)@ }),
            action == TkAction::Redraw,
    {
        self.text = chars_of(text);
        TkAction::Redraw
    }

    /// Keeps the text for undo, at the start of an edit of the given kind
    /// that follows one of another kind.
    fn begin(&mut self, kind: LastEdit)
        ensures
            final(self)@ == old(self)@.begin(kind),
    {
        if self.last_edit != kind {
            self.old_state = Some(copy_chars(&self.text));
            self.last_edit = kind;
        }
    }

    /// Handles a character that was received, where `clipboard` is what the
    /// clipboard holds.
    ///
    /// See [`EditView::received`] and [`EditView::received_action`].
    pub fn apply_char(&mut self, c: char, clipboard: Option<&Vec<char>>) -> (action: EditAction)
        ensures
            final(self)@ == old(self)@.received(
                c,
                match clipboard {
                    Some(content) => Some(content@),
                    None => None,
                },
            ),
            action == old(self)@.received_action(c),
    {
        if !self.editable {
            return EditAction::Nothing;
        }
        if !is_control(c) {
            self.begin(LastEdit::Insert);
            self.text.push(c);
        } else if c == '\u{08}' {
            self.begin(LastEdit::Backspace);
            let _ = self.text.pop();
        } else if c == '\u{0d}' {
            return EditAction::Activate;
        } else if c == '\u{16}' {
            self.begin(LastEdit::Paste);
            if let Some(content) = clipboard {
                // We cut the content short on control characters and
                // ignore them (preventing line-breaks and ignoring any
                // actions such as recursive-paste).
                let ghost before = self.text@;
                let mut i: usize = 0;
                proof {
                    assert(content@.skip(0) =~= content@);
                    assert(before + content@.take(0) =~= before);
                }
                while i < content.len() && !is_control(content[i])
                    invariant
                        0 <= i <= content@.len(),
                        self.text@ == before + content@.take(i as int),
                        paste_len(content@) == i + paste_len(content@.skip(i as int)),
                        self@ == (EditView { text: self.text@, ..old(self)@.begin(LastEdit::Paste) }),
                    decreases content@.len() - i,
                {
                    self.text.push(content[i]);
                    proof {
                        assert(content@.skip(i as int).skip(1) =~= content@.skip(i + 1));
                        assert(content@.take(i + 1) =~= content@.take(i as int).push(
                            content@[i as int],
                        ));
                        assert(before + content@.take(i + 1) =~= (before + content@.take(
                            i as int,
                        )).push(content@[i as int]));
                    }
                    i = i + 1;
                }
            }
        } else if c == '\u{1a}' {
            // undo and redo are one: the two texts change places
            if let Some(state) = self.old_state.take() {
                let mut state = state;
                core::mem::swap(&mut state, &mut self.text);
                self.old_state = Some(state);
                self.last_edit = LastEdit::Nothing;
            }
        } else if c == '\u{7f}' {
            self.begin(LastEdit::Clear);
            self.text = Vec::new();
        }
        EditAction::Edit
    }

    /// Handles a character that was received: control characters are
    /// commands, every other character is put at the end of the text.
    ///
    /// Copy and paste go through the clipboard of the toolkit; the rest is
    /// done by [`EditBox::apply_char`]. The window is redrawn where the text
    /// may have changed.
    pub fn received_char<S: TkWindow>(&mut self, mgr: &mut Manager<S>, c: char) -> (action:
        EditAction)
        ensures
            action == old(self)@.received_action(c),
            c != '\u{16}' || !old(self)@.editable ==> final(self)@ == old(self)@.received(c, None),
            exists|call: Option<ShellCall>| #[trigger]
                char_received(old(self)@, c, final(self)@, call) && old(mgr)@.redrawn(
                    action == EditAction::Edit,
                ).told(call, final(mgr)@),
    {
        let ghost mut call: Option<ShellCall> = None;
        let action = if self.editable && c == '\u{03}' {
            // we have no selection yet, so copy everything
            mgr.set_clipboard(string_of(&self.text));
            proof {
                call = Some(ShellCall::SetClipboard(self.text@));
            }
            self.apply_char(c, None)
        } else if self.editable && c == '\u{16}' {
            match mgr.get_clipboard() {
                Some(content) => {
                    let chars = chars_of(content.as_str());
                    let action = self.apply_char(c, Some(&chars));
                    proof {
                        call = Some(ShellCall::GetClipboard(Some(chars@)));
                        assert(self@ == old(self)@.received(c, Some(chars@)));
                    }
                    action
                },
                None => {
                    proof {
                        call = Some(ShellCall::GetClipboard(None));
                    }
                    self.apply_char(c, None)
                },
            }
        } else {
            proof {
                call = None;
            }
            self.apply_char(c, None)
        };
        proof {
            if !(old(self)@.editable && c == '\u{16}') {
                assert(self@ == old(self)@.received(c, None));
            }
            assert(char_received(old(self)@, c, self@, call));
        }
        match action {
            EditAction::Edit => {
                mgr.redraw(self.id);
            },
            _ => {},
        }
        proof {
            assert(old(mgr)@.redrawn(action == EditAction::Edit).told(call, mgr@));
        }
        action
    }

    /// Handles an event that was sent to the edit box; see [`edit_handled`].
    pub fn handle<S: TkWindow>(&mut self, mgr: &mut Manager<S>, event: Event) -> (action: EditAction)
        requires
            old(mgr).wf(),
        ensures
            final(mgr).wf(),
            exists|call: Option<ShellCall>| #[trigger]
                edit_handled(
                    old(self)@,
                    old(self)@.id,
                    old(mgr)@.bare(),
                    event,
                    final(self)@,
                    final(mgr)@.bare(),
                    action,
                    call,
                ) && shell_step(old(mgr).shell(), call, final(mgr).shell()),
    {
        let ghost mut call: Option<ShellCall> = None;
        let action = match event {
            Event::Activate => {
                mgr.request_char_focus(self.id);
                EditAction::Nothing
            },
            Event::LostCharFocus => EditAction::FocusLost,
            Event::ReceivedCharacter(c) => {
                let action = self.received_char(mgr, c);
                proof {
                    call = choose|call: Option<ShellCall>| #[trigger]
                        char_received(old(self)@, c, self@, call) && old(mgr)@.redrawn(
                            action == EditAction::Edit,
                        ).told(call, mgr@);
                }
                action
            },
            _ => EditAction::Unhandled,
        };
        proof {
            assert(edit_handled(
                old(self)@,
                old(self)@.id,
                old(mgr)@.bare(),
                event,
                self@,
                mgr@.bare(),
                action,
                call,
            ));
        }
        action
    }
}

/// What an edit box with the identifier `id` does with an event that it is
/// sent, and what it tells its user.
///
/// - An activation asks for character focus; see
///   [`crate::event::StateView::set_char_focus`].
/// - A character is handled as [`char_received`] says; the window is
///   redrawn where the text may have changed.
/// - The loss of character focus is passed on.
/// - Every other event is not handled.
///
/// The toolkit is asked `call` meanwhile, if that is one: only a character
/// has the edit box ask anything.
pub open spec fn edit_handled(
    edit: EditView,
    id: WidgetId,
    before: ManagerView<()>,
    event: Event,
    after_edit: EditView,
    after: ManagerView<()>,
    action: EditAction,
    call: Option<ShellCall>,
) -> bool {
    match event {
        Event::Activate => {
            &&& action == EditAction::Nothing
            &&& call is None
            &&& after_edit == edit
            &&& after == before.with_state(before.state.set_char_focus(Some(id))).redrawn(
                before.state.nav_focus != Some(id),
            )
        },
        Event::LostCharFocus => action == EditAction::FocusLost && call is None && after_edit
            == edit && after == before,
        Event::ReceivedCharacter(c) => {
            &&& action == edit.received_action(c)
            &&& char_received(edit, c, after_edit, call)
            &&& after == before.redrawn(action == EditAction::Edit)
        },
        _ => action == EditAction::Unhandled && call is None && after_edit == edit && after
            == before,
    }
}

/// What an edit box does with the character `c`, and what it asks of the
/// toolkit meanwhile:
///
/// - An editable box that receives the copy character hands its whole text
///   to the clipboard.
/// - An editable box that receives the paste character reads the clipboard
///   and handles the character as [`EditView::received`] says for what the
///   toolkit returned.
/// - Every other character, and every character that a box receives that
///   is not editable, leaves the clipboard alone: nothing is asked of the
///   toolkit.
pub open spec fn char_received(
    edit: EditView,
    c: char,
    after_edit: EditView,
    call: Option<ShellCall>,
) -> bool {
    if edit.editable && c == '\u{03}' {
        call == Some(ShellCall::SetClipboard(edit.text)) && after_edit == edit.received(c, None)
    } else if edit.editable && c == '\u{16}' {
        exists|clipboard: Option<Seq<char>>|
            call == Some(ShellCall::GetClipboard(clipboard)) && after_edit
                == #[trigger] edit.received(c, clipboard)
    } else {
        call is None && after_edit == edit.received(c, None)
    }
}

/// A copy of a text.
fn copy_chars(text: &Vec<char>) -> (r: Vec<char>)
    ensures
        r@ == text@,
{
    let mut r: Vec<char> = Vec::new();
    let mut i: usize = 0;
    while i < text.len()
        invariant
            0 <= i <= text@.len(),
            r@ == text@.take(i as int),
        decreases text@.len() - i,
    {
        r.push(text[i]);
        proof {
            assert(text@.take(i + 1) =~= text@.take(i as int).push(text@[i as int]));
        }
        i = i + 1;
    }
    proof {
        assert(text@.take(text@.len() as int) =~= text@);
    }
    r
}

/// An edit box is a widget tree of one widget.
impl Widget for EditBox {
    /// The edit box handles an event for itself as [`edit_handled`] says,
    /// and does not handle an event for another widget.
    open spec fn sent(
        &self,
        before: ManagerView<()>,
        id: WidgetId,
        event: Event,
        after_self: &Self,
        after: ManagerView<()>,
        r: Response,
        calls: Seq<ShellCall>,
    ) -> bool {
        if id != self@.id {
            r == Response::Unhandled && after_self@ == self@ && after == before && calls
                == Seq::<ShellCall>::empty()
        } else {
            exists|action: EditAction, call: Option<ShellCall>| #[trigger]
                edit_handled(self@, id, before, event, after_self@, after, action, call) && calls
                    == step_calls(call) && r == (if action == EditAction::Unhandled {
                    Response::Unhandled
                } else {
                    Response::Handled
                })
        }
    }

    /// Where the walk has room for it, the edit box is entered at `depth`
    /// and takes the next identifier, and it is recorded that it can have
    /// navigation focus and asks for the text cursor. Where the walk has no
    /// room, nothing changes.
    open spec fn configured(
        &self,
        walk: ConfigView,
        depth: u32,
        before: ManagerView<()>,
        after_self: &Self,
        after_walk: ConfigView,
        after: ManagerView<()>,
        calls: Seq<ShellCall>,
    ) -> bool {
        &&& calls == Seq::<ShellCall>::empty()
        &&& after == before
        &&& if walk.has_room() {
            &&& after_self@ == (EditView { id: walk.next() as WidgetId, ..self@ })
            &&& after_walk == walk.enter(depth, self@.id).set_props(
                walk.next() as WidgetId,
                true,
                false,
                CursorIcon::Text,
            )
        } else {
            after_self@ == self@ && after_walk == walk
        }
    }

    /// The edit box is at every position.
    open spec fn hit(&self, coord: Coord, r: Option<WidgetId>) -> bool {
        r == Some(self@.id)
    }

    fn send<S: TkWindow>(&mut self, mgr: &mut Manager<S>, id: WidgetId, event: Event) -> (r:
        Response) {
        if id != self.id {
            proof {
                assert((*old(self)).sent(
                    old(mgr)@.bare(),
                    id,
                    event,
                    &*self,
                    mgr@.bare(),
                    Response::Unhandled,
                    Seq::<ShellCall>::empty(),
                ) && shell_calls(old(mgr).shell(), Seq::<ShellCall>::empty(), mgr.shell()));
            }
            return Response::Unhandled;
        }
        let action = self.handle(mgr, event);
        let r = match action {
            EditAction::Unhandled => Response::Unhandled,
            _ => Response::Handled,
        };
        proof {
            let call = choose|call: Option<ShellCall>| #[trigger]
                edit_handled(
                    old(self)@,
                    id,
                    old(mgr)@.bare(),
                    event,
                    self@,
                    mgr@.bare(),
                    action,
                    call,
                ) && shell_step(old(mgr).shell(), call, mgr.shell());
            lemma_step_calls(old(mgr).shell(), call, mgr.shell());
            assert((*old(self)).sent(
                old(mgr)@.bare(),
                id,
                event,
                &*self,
                mgr@.bare(),
                r,
                step_calls(call),
            ) && shell_calls(old(mgr).shell(), step_calls(call), mgr.shell()));
        }
        r
    }

    fn configure<S: TkWindow>(&mut self, cmgr: ConfigureManager<S>) {
        let mut cmgr = cmgr;
        let ghost walk = cmgr.cfg@;
        let ghost before = cmgr.mgr@;
        if cmgr.cfg.check_room() {
            self.id = cmgr.next_id(self.id);
            cmgr.set_props(self.id, true, false, CursorIcon::Text);
        }
        proof {
            assert((*old(self)).configured(
                walk,
                cmgr.depth,
                before.bare(),
                &*self,
                cmgr.cfg@,
                cmgr.mgr@.bare(),
                Seq::<ShellCall>::empty(),
            ) && shell_calls(before.shell, Seq::<ShellCall>::empty(), cmgr.mgr@.shell));
        }
    }

    fn find_id(&self, coord: Coord) -> (r: Option<WidgetId>) {
        let _ = coord;
        Some(self.id)
    }
}

} // verus!
