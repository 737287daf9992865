//! Menu Entries

use vstd::prelude::*;
use crate::event::handler::Widget;
use crate::event::configure::{child_depth, ConfigView};
use crate::event::manager::{ConfigureManager, Manager, ManagerView};
use crate::event::{CursorIcon, Event, Response, WidgetId};
use crate::geom::{Coord, Rect, Size};
use crate::toolkit::{shell_calls, ShellCall, TkAction, TkWindow};

verus! {

/// A standard menu entry
///
/// When the entry is activated, it answers with its message.
pub struct MenuEntry {
    id: WidgetId,
    label: String,
    msg: u64,
}

/// The content of a [`MenuEntry`]
pub struct EntryView {
    /// The identifier of the entry; `0` before it is configured
    pub id: WidgetId,
    /// The label
    pub label: Seq<char>,
    /// The message that the entry answers with when it is activated
    pub msg: u64,
}

impl View for MenuEntry {
    type V = EntryView;

    closed spec fn view(&self) -> EntryView {
        EntryView { id: self.id, label: self.label@, msg: self.msg }
    }
}

impl MenuEntry {
    /// Construct a menu item with a given `label` and `msg`
    ///
    /// The message `msg` is emitted on activation.
    pub fn new(label: &str, msg: u64) -> (entry: MenuEntry)
        ensures
            entry@ == (EntryView { id: 0, label: label@, msg }),
    {
        MenuEntry { id: 0, label: label.to_owned(), msg }
    }

    /// Replace the message value
    pub fn set_msg(&mut self, msg: u64)
        ensures
            final(self)@ == (EntryView { msg, ..old(self)@ }),
    {
        self.msg = msg;
    }

    /// The label.
    pub fn get_text(&self) -> (label: &str)
        ensures
            label@ == self@.label,
    {
        self.label.as_str()
    }

    /// Replaces the label. The result says what the window must do for the
    /// new label to be seen.
    pub fn set_text(&mut self, label: &str) -> (action: TkAction)
        ensures
            final(self)@ == (EntryView { label: label@, ..old(self)@ }),
            action == TkAction::Redraw,
    {
        self.label = label.to_owned();
        TkAction::Redraw
    }

    /// Handles an event that was sent to the entry: an activation is
    /// answered with the entry's message; no other event is handled.
    pub fn handle(&self, event: Event) -> (r: Response)
        ensures
            r == (if event is Activate {
                Response::Msg(self@.msg)
            } else {
                Response::Unhandled
            }),
    {
        match event {
            Event::Activate => Response::Msg(self.msg),
            _ => Response::Unhandled,
        }
    }
}

/// A menu entry is a widget tree of one widget.
impl Widget for MenuEntry {
    /// The entry answers an activation of itself with its message and does
    /// not handle any other event. Nothing changes, and nothing is asked of
    /// the toolkit.
    open spec fn sent(
        &self,
        before: ManagerView<()>,
        id: WidgetId,
        event: Event,
        after_self: &Self,
        after: ManagerView<()>,
        r: Response,
        calls: Seq<ShellCall>,
    ) -> bool {
        &&& after_self@ == self@
        &&& after == before
        &&& calls == Seq::<ShellCall>::empty()
        &&& r == (if id == self@.id && event is Activate {
            Response::Msg(self@.msg)
        } else {
            Response::Unhandled
        })
    }

    fn send<S: TkWindow>(&mut self, mgr: &mut Manager<S>, id: WidgetId, event: Event) -> (r:
        Response)
        ensures
            final(self)@ == old(self)@,
            final(mgr).state() == old(mgr).state(),
            r == (if id == old(self)@.id && event is Activate {
                Response::Msg(old(self)@.msg)
            } else {
                Response::Unhandled
            }),
    {
        let r = if id == self.id {
            self.handle(event)
        } else {
            Response::Unhandled
        };
        proof {
            assert((*old(self)).sent(
                old(mgr)@.bare(),
                id,
                event,
                &*self,
                mgr@.bare(),
                r,
                Seq::<ShellCall>::empty(),
            ) && shell_calls(old(mgr).shell(), Seq::<ShellCall>::empty(), mgr.shell()));
        }
        r
    }

    /// Where the walk has room for it, the entry is entered at `depth` and
    /// takes the next identifier, and it is recorded that it can have
    /// navigation focus and is drawn differently under the pointer. Where the
    /// walk has no room, nothing changes.
    open spec fn configured(
        &self,
        walk: ConfigView,
        depth: u32,
        before: ManagerView<()>,
        after_self: &Self,
        after_walk: ConfigView,
        after: ManagerView<()>,
        calls: Seq<ShellCall>,
    ) -> bool {
        &&& after == before
        &&& calls == Seq::<ShellCall>::empty()
        &&& if walk.has_room() {
            &&& after_self@ == (EntryView { id: walk.next() as WidgetId, ..self@ })
            &&& after_walk == walk.enter(depth, self@.id).set_props(
                walk.next() as WidgetId,
                true,
                true,
                CursorIcon::Default,
            )
        } else {
            after_self@ == self@ && after_walk == walk
        }
    }

    fn configure<S: TkWindow>(&mut self, cmgr: ConfigureManager<S>) {
        let mut cmgr = cmgr;
        let ghost walk = cmgr.cfg@;
        let ghost before = cmgr.mgr@;
        if cmgr.cfg.check_room() {
            self.id = cmgr.next_id(self.id);
            cmgr.set_props(self.id, true, true, CursorIcon::Default);
        }
        proof {
            assert((*old(self)).configured(
                walk,
                cmgr.depth,
                before.bare(),
                &*self,
                cmgr.cfg@,
                cmgr.mgr@.bare(),
                Seq::<ShellCall>::empty(),
            ) && shell_calls(before.shell, Seq::<ShellCall>::empty(), cmgr.mgr@.shell));
        }
    }

    /// The entry is at every position.
    open spec fn hit(&self, coord: Coord, r: Option<WidgetId>) -> bool {
        r == Some(self@.id)
    }

    fn find_id(&self, coord: Coord) -> (r: Option<WidgetId>) {
        let _ = coord;
        Some(self.id)
    }
}

/// A menu entry which can be toggled
///
/// The entry is a check box with a label. When it is activated, the box is
/// checked or cleared, and the entry answers with the new state: `1` for
/// checked, `0` for clear.
pub struct MenuToggle {
    id: WidgetId,
    checkbox: WidgetId,
    rect: Rect,
    label: String,
    state: bool,
}

/// The content of a [`MenuToggle`]
pub struct ToggleView {
    /// The identifier of the entry; `0` before it is configured
    pub id: WidgetId,
    /// The identifier of the check box
    pub checkbox: WidgetId,
    /// The region of the entry
    pub rect: Rect,
    /// The label
    pub label: Seq<char>,
    /// Whether the box is checked
    pub state: bool,
}

impl View for MenuToggle {
    type V = ToggleView;

    closed spec fn view(&self) -> ToggleView {
        ToggleView {
            id: self.id,
            checkbox: self.checkbox,
            rect: self.rect,
            label: self.label@,
            state: self.state,
        }
    }
}

/// The message with which a toggle reports its state.
pub open spec fn toggle_msg(state: bool) -> u64 {
    if state {
        1
    } else {
        0
    }
}

impl MenuToggle {
    /// Construct a togglable menu entry with a given `label`
    pub fn new(label: &str) -> (toggle: MenuToggle)
        ensures
            toggle@ == (ToggleView {
                id: 0,
                checkbox: 0,
                rect: Rect { pos: Coord(0, 0), size: Size(0, 0) },
                label: label@,
                state: false,
            }),
    {
        MenuToggle {
            id: 0,
            checkbox: 0,
            rect: Rect { pos: Coord(0, 0), size: Size(0, 0) },
            label: label.to_owned(),
            state: false,
        }
    }

    /// Set the initial state of the checkbox.
    pub fn state(self, state: bool) -> (toggle: MenuToggle)
        ensures
            toggle@ == (ToggleView { state, ..self@ }),
    {
        let mut toggle = self;
        toggle.state = state;
        toggle
    }

    /// Whether the box is checked.
    pub fn get_bool(&self) -> (state: bool)
        ensures
            state == self@.state,
    {
        self.state
    }

    /// Checks or clears the box. The result says what the window must do
    /// for the change to be seen: nothing where nothing changes.
    pub fn set_bool(&mut self, state: bool) -> (action: TkAction)
        ensures
            final(self)@ == (ToggleView { state, ..old(self)@ }),
            action == (if state == old(self)@.state {
                TkAction::Nothing
            } else {
                TkAction::Redraw
            }),
    {
        if state == self.state {
            TkAction::Nothing
        } else {
            self.state = state;
            TkAction::Redraw
        }
    }

    /// Gives the entry its region of the window.
    pub fn set_rect(&mut self, rect: Rect)
        ensures
            final(self)@ == (ToggleView { rect, ..old(self)@ }),
    {
        self.rect = rect;
    }

    /// Handles an activation: the box changes its state, the window is
    /// redrawn, and the entry answers with the new state.
    pub fn toggle<S: TkWindow>(&mut self, mgr: &mut Manager<S>) -> (r: Response)
        ensures
            final(self)@ == (ToggleView { state: !old(self)@.state, ..old(self)@ }),
            r == Response::Msg(toggle_msg(!old(self)@.state)),
            final(mgr).state() == old(mgr).state(),
            final(mgr).action() == old(mgr).action().spec_max(TkAction::Redraw),
            final(mgr).read_only() == old(mgr).read_only(),
            final(mgr).shell() == old(mgr).shell(),
    {
        self.state = !self.state;
        mgr.redraw(self.checkbox);
        Response::Msg(
            if self.state {
                1
            } else {
                0
            },
        )
    }
}

/// A toggle is a widget tree of two widgets: the entry, and below it the
/// check box. An event for either is the toggle's.
impl Widget for MenuToggle {
    /// An activation of the entry or of its check box changes the state of
    /// the box: the window is redrawn, and the answer is the new state. No
    /// other event is handled. Nothing is asked of the toolkit.
    open spec fn sent(
        &self,
        before: ManagerView<()>,
        id: WidgetId,
        event: Event,
        after_self: &Self,
        after: ManagerView<()>,
        r: Response,
        calls: Seq<ShellCall>,
    ) -> bool {
        &&& calls == Seq::<ShellCall>::empty()
        &&& if (id == self@.id || id == self@.checkbox) && event is Activate {
            &&& r == Response::Msg(toggle_msg(!self@.state))
            &&& after_self@ == (ToggleView { state: !self@.state, ..self@ })
            &&& after == before.redrawn(true)
        } else {
            r == Response::Unhandled && after_self@ == self@ && after == before
        }
    }

    fn send<S: TkWindow>(&mut self, mgr: &mut Manager<S>, id: WidgetId, event: Event) -> (r:
        Response)
        ensures
            final(mgr).state() == old(mgr).state(),
            (id == old(self)@.id || id == old(self)@.checkbox) && event is Activate ==> r
                == Response::Msg(toggle_msg(!old(self)@.state)) && final(self)@ == (ToggleView {
                state: !old(self)@.state,
                ..old(self)@
            }),
            !((id == old(self)@.id || id == old(self)@.checkbox) && event is Activate) ==> r
                == Response::Unhandled && final(self)@ == old(self)@ && final(mgr).action() == old(
                mgr,
            ).action(),
    {
        let activate = match event {
            Event::Activate => true,
            _ => false,
        };
        let r = if (id == self.id || id == self.checkbox) && activate {
            self.toggle(mgr)
        } else {
            Response::Unhandled
        };
        proof {
            assert((*old(self)).sent(
                old(mgr)@.bare(),
                id,
                event,
                &*self,
                mgr@.bare(),
                r,
                Seq::<ShellCall>::empty(),
            ) && shell_calls(old(mgr).shell(), Seq::<ShellCall>::empty(), mgr.shell()));
        }
        r
    }

    /// Where the walk has room, the entry is entered at `depth` and takes
    /// the next identifier; where it still has room, the check box is entered
    /// one level below and takes the identifier after that, and it is recorded
    /// that the box can have navigation focus and is drawn differently under
    /// the pointer. What finds no room stays as it is.
    open spec fn configured(
        &self,
        walk: ConfigView,
        depth: u32,
        before: ManagerView<()>,
        after_self: &Self,
        after_walk: ConfigView,
        after: ManagerView<()>,
        calls: Seq<ShellCall>,
    ) -> bool {
        let id = walk.next() as WidgetId;
        let entered = walk.enter(depth, self@.id).set_props(id, false, false, CursorIcon::Default);
        let checkbox = entered.next() as WidgetId;
        &&& after == before
        &&& calls == Seq::<ShellCall>::empty()
        &&& if !walk.has_room() {
            after_self@ == self@ && after_walk == walk
        } else if !entered.has_room() {
            after_self@ == (ToggleView { id, ..self@ }) && after_walk == entered
        } else {
            &&& after_self@ == (ToggleView { id, checkbox, ..self@ })
            &&& after_walk == entered.enter(child_depth(depth), self@.checkbox).set_props(
                checkbox,
                true,
                true,
                CursorIcon::Default,
            )
        }
    }

    fn configure<S: TkWindow>(&mut self, cmgr: ConfigureManager<S>) {
        let mut cmgr = cmgr;
        let ghost walk = cmgr.cfg@;
        let ghost before = cmgr.mgr@;
        if cmgr.cfg.check_room() {
            self.id = cmgr.next_id(self.id);
            cmgr.set_props(self.id, false, false, CursorIcon::Default);
            let mut inner = cmgr.child();
            if inner.cfg.check_room() {
                self.checkbox = inner.next_id(self.checkbox);
                inner.set_props(self.checkbox, true, true, CursorIcon::Default);
            }
        }
        proof {
            assert((*old(self)).configured(
                walk,
                cmgr.depth,
                before.bare(),
                &*self,
                cmgr.cfg@,
                cmgr.mgr@.bare(),
                Seq::<ShellCall>::empty(),
            ) && shell_calls(before.shell, Seq::<ShellCall>::empty(), cmgr.mgr@.shell));
        }
    }

    /// The check box, for a position within the entry: a press anywhere on
    /// the entry is a press on the box.
    open spec fn hit(&self, coord: Coord, r: Option<WidgetId>) -> bool {
        r == (if self@.rect.spec_contains(coord) {
            Some(self@.checkbox)
        } else {
            None
        })
    }

    fn find_id(&self, coord: Coord) -> (r: Option<WidgetId>) {
        if !self.rect.contains(coord) {
            return None;
        }
        Some(self.checkbox)
    }
}

} // verus!
