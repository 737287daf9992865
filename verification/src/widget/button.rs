//! Push-buttons

use vstd::prelude::*;
use crate::event::handler::Widget;
use crate::event::configure::ConfigView;
use crate::event::manager::{ConfigureManager, Manager, ManagerView};
use crate::event::{CursorIcon, Event, Response, VirtualKeyCode, WidgetId};
use crate::geom::Coord;
use crate::toolkit::{shell_calls, ShellCall, TkWindow};

verus! {

/// A push-button with a text label
///
/// When the button is activated, it answers with its message, for its
/// parent to act on.
pub struct TextButton {
    id: WidgetId,
    keys1: Vec<VirtualKeyCode>,
    label: String,
    msg: Option<u64>,
}

/// The content of a [`TextButton`]
pub struct ButtonView {
    /// The identifier of the button; `0` before it is configured
    pub id: WidgetId,
    /// The accelerator keys of the button
    pub keys: Seq<VirtualKeyCode>,
    /// The label
    pub label: Seq<char>,
    /// The message that the button answers with when it is activated
    pub msg: Option<u64>,
}

impl View for TextButton {
    type V = ButtonView;

    closed spec fn view(&self) -> ButtonView {
        ButtonView { id: self.id, keys: self.keys1@, label: self.label@, msg: self.msg }
    }
}

/// What a button answers to an event: its message to an activation, if it
/// has one; that it has handled an activation, if it has none; and that it
/// has not handled any other event.
pub open spec fn button_response(msg: Option<u64>, event: Event) -> Response {
    if event is Activate {
        match msg {
            Some(m) => Response::Msg(m),
            None => Response::Handled,
        }
    } else {
        Response::Unhandled
    }
}

impl TextButton {
    /// Construct a button with given `label`
    pub fn new(label: &str) -> (button: TextButton)
        ensures
            button@ == (ButtonView { id: 0, keys: Seq::empty(), label: label@, msg: None }),
    {
        TextButton { id: 0, keys1: Vec::new(), label: label.to_owned(), msg: None }
    }

    /// Construct a button with a given `label` and payload `msg`
    ///
    /// On activation the button answers with `msg`.
    pub fn new_msg(label: &str, msg: u64) -> (button: TextButton)
        ensures
            button@ == (ButtonView { id: 0, keys: Seq::empty(), label: label@, msg: Some(msg) }),
    {
        TextButton { id: 0, keys1: Vec::new(), label: label.to_owned(), msg: Some(msg) }
    }

    /// Set the message that the button answers with when it is activated.
    pub fn on_push(self, msg: u64) -> (button: TextButton)
        ensures
            button@ == (ButtonView { msg: Some(msg), ..self@ }),
    {
        let mut button = self;
        button.msg = Some(msg);
        button
    }

    /// Add accelerator keys (chain style)
    ///
    /// The keys replace those that were set before.
    pub fn with_keys(self, keys: &[VirtualKeyCode]) -> (button: TextButton)
        ensures
            button@ == (ButtonView { keys: keys@, ..self@ }),
    {
        let mut button = self;
        let mut keys1: Vec<VirtualKeyCode> = Vec::new();
        let mut i: usize = 0;
        while i < keys.len()
            invariant
                0 <= i <= keys@.len(),
                keys1@ == keys@.take(i as int),
            decreases keys@.len() - i,
        {
            keys1.push(keys[i]);
            proof {
                assert(keys@.take(i + 1) =~= keys@.take(i as int).push(keys@[i as int]));
            }
            i = i + 1;
        }
        proof {
            assert(keys@.take(keys@.len() as int) =~= keys@);
        }
        button.keys1 = keys1;
        button
    }

    /// The identifier of the button; `0` before it is configured.
    pub fn id(&self) -> (id: WidgetId)
        ensures
            id == self@.id,
    {
        self.id
    }

    /// The label of the button.
    pub fn get_str(&self) -> (label: &str)
        ensures
            label@ == self@.label,
    {
        self.label.as_str()
    }

    /// Handles an event that was sent to the button; see
    /// [`button_response`].
    pub fn handle(&self, event: Event) -> (r: Response)
        ensures
            r == button_response(self@.msg, event),
    {
        match event {
            Event::Activate => match self.msg {
                Some(m) => Response::Msg(m),
                None => Response::Handled,
            },
            _ => Response::Unhandled,
        }
    }

    /// Presents the button to a walk over the widget tree, if the walk has
    /// room for it: the button takes its new identifier, says that it can
    /// have navigation focus and is drawn differently under the pointer, and
    /// registers its accelerator keys.
    pub fn configure_in<S: TkWindow>(&mut self, cmgr: &mut ConfigureManager<S>)
        requires
            old(cmgr).cfg.wf(),
            old(cmgr).mgr.wf(),
        ensures
            final(cmgr).cfg.wf(),
            final(cmgr).mgr.wf(),
            final(cmgr).depth == old(cmgr).depth,
            *final(final(cmgr).cfg) == *final(old(cmgr).cfg),
            *final(final(cmgr).mgr) == *final(old(cmgr).mgr),
            button_configured(
                old(self)@,
                old(cmgr).cfg@,
                old(cmgr).depth,
                old(cmgr).mgr@,
                final(self)@,
                final(cmgr).cfg@,
                final(cmgr).mgr@,
            ),
    {
        if cmgr.cfg.check_room() {
            self.id = cmgr.next_id(self.id);
            cmgr.set_props(self.id, true, true, CursorIcon::Default);
            cmgr.mgr().add_accel_keys(self.id, self.keys1.as_slice());
        }
    }
}

/// What the configuration of a button does: where the walk has room for
/// it, the button is entered at `depth` and takes the next identifier, it is
/// recorded that it can have navigation focus and is drawn differently under
/// the pointer, and its accelerator keys are registered. Where the walk has
/// no room, nothing changes.
pub open spec fn button_configured<S>(
    button: ButtonView,
    walk: ConfigView,
    depth: u32,
    before: ManagerView<S>,
    after_button: ButtonView,
    after_walk: ConfigView,
    after: ManagerView<S>,
) -> bool {
    if walk.has_room() {
        let id = walk.next() as WidgetId;
        &&& after_button == (ButtonView { id, ..button })
        &&& after_walk == walk.enter(depth, button.id).set_props(id, true, true, CursorIcon::Default)
        &&& after == before.with_state(before.state.add_accel_keys(id, button.keys))
    } else {
        after_button == button && after_walk == walk && after == before
    }
}

/// A button is a widget tree of one widget.
impl Widget for TextButton {
    /// The button answers an event for itself as [`button_response`] says,
    /// and does not handle an event for another widget. Nothing changes,
    /// and nothing is asked of the toolkit.
    open spec fn sent(
        &self,
        before: ManagerView<()>,
        id: WidgetId,
        event: Event,
        after_self: &Self,
        after: ManagerView<()>,
        r: Response,
        calls: Seq<ShellCall>,
    ) -> bool {
        &&& after_self@ == self@
        &&& after == before
        &&& calls == Seq::<ShellCall>::empty()
        &&& r == (if id == self@.id {
            button_response(self@.msg, event)
        } else {
            Response::Unhandled
        })
    }

    /// See [`button_configured`].
    open spec fn configured(
        &self,
        walk: ConfigView,
        depth: u32,
        before: ManagerView<()>,
        after_self: &Self,
        after_walk: ConfigView,
        after: ManagerView<()>,
        calls: Seq<ShellCall>,
    ) -> bool {
        button_configured(self@, walk, depth, before, after_self@, after_walk, after) && calls
            == Seq::<ShellCall>::empty()
    }

    /// The button is at every position.
    open spec fn hit(&self, coord: Coord, r: Option<WidgetId>) -> bool {
        r == Some(self@.id)
    }

    fn send<S: TkWindow>(&mut self, mgr: &mut Manager<S>, id: WidgetId, event: Event) -> (r:
        Response) {
        let r = if id == self.id {
            self.handle(event)
        } else {
            Response::Unhandled
        };
        proof {
            assert((*old(self)).sent(
                old(mgr)@.bare(),
                id,
                event,
                &*self,
                mgr@.bare(),
                r,
                Seq::<ShellCall>::empty(),
            ) && shell_calls(old(mgr).shell(), Seq::<ShellCall>::empty(), mgr.shell()));
        }
        r
    }

    fn configure<S: TkWindow>(&mut self, cmgr: ConfigureManager<S>) {
        let mut cmgr = cmgr;
        let ghost walk = cmgr.cfg@;
        let ghost before = cmgr.mgr@;
        self.configure_in(&mut cmgr);
        proof {
            assert((*old(self)).configured(
                walk,
                cmgr.depth,
                before.bare(),
                &*self,
                cmgr.cfg@,
                cmgr.mgr@.bare(),
                Seq::<ShellCall>::empty(),
            ) && shell_calls(before.shell, Seq::<ShellCall>::empty(), cmgr.mgr@.shell));
        }
    }

    fn find_id(&self, coord: Coord) -> (r: Option<WidgetId>) {
        let _ = coord;
        Some(self.id)
    }
}

} // verus!
