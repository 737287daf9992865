//! What the manager hands to the widgets, and what it does with the answer
//!
//! Each function that delivers an event is described here by a relation
//! between the widgets and the manager before the call and after it. The
//! relations are built from [`Widget::sent`], which stands for whatever the
//! widgets do with an event, and from the relations of
//! [`crate::toolkit::TkWindow`], which stand for whatever the toolkit does
//! when it is asked for something: a relation says which calls are made, in
//! which order, and that nothing else happens to the toolkit's window.

use vstd::prelude::*;
use crate::event::configure::ConfigView;
use crate::event::handler::{answered, set_up, Widget};
use crate::event::manager::remap::lost_popups;
use crate::event::manager::routing::KeyRoute;
use crate::event::manager::{ManagerView, StateView};
use crate::event::tree::icon_over;
use crate::event::manager::input::{pan_events, pending_event};
use crate::event::manager::routing::{due_widgets, reschedule};
use crate::event::manager::Pending;
use crate::event::{
    Command, Event, MouseButton, PressSource, Response, UpdateHandle, VirtualKeyCode, WidgetId,
    WindowId, FIRST_ID,
};
use crate::geom::Coord;
use crate::toolkit::{shell_calls, shell_step, ShellCall, TkAction, TkWindow};

verus! {

impl<S> ManagerView<S> {
    /// The manager without the toolkit's window.
    pub open spec fn bare(self) -> ManagerView<()> {
        ManagerView { state: self.state, shell: (), action: self.action, read_only: self.read_only }
    }

    /// The manager after a redraw has been asked for, if `redraw` says so.
    pub open spec fn redrawn(self, redraw: bool) -> ManagerView<S> {
        if redraw {
            ManagerView { action: self.action.spec_max(TkAction::Redraw), ..self }
        } else {
            self
        }
    }

    /// The manager after it has taken note of the answer `r` of a widget: an
    /// action that the widget asks for is added to the window's.
    pub open spec fn folded(self, r: Response) -> ManagerView<S> {
        match r {
            Response::Action(action) => ManagerView {
                action: self.action.spec_max(action),
                ..self
            },
            _ => self,
        }
    }

    /// The manager with another state.
    pub open spec fn with_state(self, state: StateView) -> ManagerView<S> {
        ManagerView { state, ..self }
    }

    /// The manager after the mouse pointer has moved to `coord`, over the
    /// widget `hit`; see [`StateView::cursor_moved`]. A change of the hovered
    /// widget may call for a redraw.
    pub open spec fn cursor_moved(self, coord: Coord, hit: Option<WidgetId>) -> ManagerView<S> {
        self.with_state(self.state.cursor_moved(coord, hit)).redrawn(
            self.state.grabs.mouse_grab is None && self.state.hover_redraws(hit),
        )
    }

    /// The manager after the touch `id` has moved to `coord`, over the
    /// widget `hit`; see [`crate::event::GrabsView::touch_moved`].
    pub open spec fn touch_moved(self, id: u64, coord: Coord, hit: Option<WidgetId>)
        -> ManagerView<S> {
        self.with_state(
            StateView { grabs: self.state.grabs.touch_moved(id, coord, hit), ..self.state },
        )
    }

    /// The manager after the window with the handle `id` has been closed;
    /// see [`StateView::close_window`].
    pub open spec fn close_window(self, id: WindowId) -> ManagerView<S> {
        self.with_state(self.state.close_window(id))
    }

    /// The manager after the topmost `n` pop-ups have been closed; see
    /// [`StateView::close_popups`].
    pub open spec fn close_popups(self, n: nat) -> ManagerView<S> {
        self.with_state(self.state.close_popups(n))
    }

    /// The manager after a press of the Tab key: navigation focus has moved
    /// on by one step, backwards while shift is held, or has been given up
    /// where no widget can have it. A change calls for a redraw.
    pub open spec fn tab(self) -> ManagerView<S> {
        let next = self.state.next_nav_focus(self.state.modifiers.shift);
        if next.nav_focus is Some {
            self.with_state(next).redrawn(next.nav_focus != self.state.nav_focus)
        } else {
            self.with_state(self.state.clear_nav_focus()).redrawn(self.state.nav_focus is Some)
        }
    }

    /// The manager after the widget with character focus has answered `r` to
    /// the command `command`: an Escape that it did not handle takes
    /// character focus away.
    pub open spec fn char_key_sent(self, command: Command, r: Response) -> ManagerView<S> {
        if r == Response::Unhandled && command == Command::Escape {
            self.with_state(self.state.set_char_focus(None))
        } else {
            self
        }
    }

    /// The manager after the widget `id` has answered `r` to a key press;
    /// see [`StateView::key_sent`].
    pub open spec fn key_sent(
        self,
        vkey: VirtualKeyCode,
        scancode: u32,
        id: WidgetId,
        is_activate: bool,
        r: Response,
    ) -> ManagerView<S> {
        self.with_state(self.state.key_sent(vkey, scancode, id, is_activate, r)).redrawn(
            self.state.key_sent_redraws(vkey, id, is_activate, r),
        )
    }

    /// The manager after `button` has been released: a press grab that it
    /// holds is ended as [`crate::event::GrabsView::end_mouse_grab`] says,
    /// which calls for a redraw.
    pub open spec fn mouse_released(self, button: MouseButton) -> ManagerView<S> {
        self.with_state(
            StateView { grabs: self.state.grabs.end_mouse_grab(button), ..self.state },
        ).redrawn(self.state.grabs.grabbed_by(button))
    }

    /// The manager after the touch `id` has ended; see
    /// [`crate::event::GrabsView::remove_touch`].
    pub open spec fn touch_removed(self, id: u64) -> ManagerView<S> {
        self.with_state(StateView { grabs: self.state.grabs.remove_touch(id), ..self.state })
    }

    /// The manager after the pan gestures have been settled, to report
    /// their movement; see [`crate::event::GrabsView::settle`].
    pub open spec fn settled(self) -> ManagerView<S> {
        self.with_state(StateView { grabs: self.state.grabs.settle(), ..self.state })
    }

    /// The manager after the notifications that wait have been taken, to
    /// be delivered.
    pub open spec fn notified(self) -> ManagerView<S> {
        self.with_state(StateView { pending: Seq::empty(), ..self.state })
    }

    /// The manager after the updates that are due at `now` have been taken,
    /// to be delivered; see [`reschedule`].
    pub open spec fn resumed(self, now: u64) -> ManagerView<S> {
        self.with_state(
            StateView { time_updates: reschedule(self.state.time_updates, now), ..self.state },
        )
    }

    /// The manager after the widgets that wait on `handle` have been taken,
    /// to be told.
    pub open spec fn triggered(self, handle: UpdateHandle) -> ManagerView<S> {
        self.with_state(
            StateView { handle_updates: self.state.handle_updates.remove(handle), ..self.state },
        )
    }

    /// The manager after the mouse pointer has come over `hit`: the state
    /// is as [`StateView::set_hover`] says where the hovered widget changes,
    /// which may call for a redraw.
    pub open spec fn hovering(self, hit: Option<WidgetId>) -> ManagerView<S> {
        self.with_state(
            if self.state.hover != hit {
                self.state.set_hover(hit)
            } else {
                self.state
            },
        ).redrawn(self.state.hover_redraws(hit))
    }
}

impl<S: TkWindow> ManagerView<S> {
    /// The manager is as `after` once the toolkit has been asked `call`, if
    /// there is one: but for the toolkit's window nothing has changed.
    pub open spec fn told(self, call: Option<ShellCall>, after: ManagerView<S>) -> bool {
        after == (ManagerView { shell: after.shell, ..self }) && shell_step(
            self.shell,
            call,
            after.shell,
        )
    }

    /// The manager is as `after` once the toolkit has been asked `calls` in
    /// turn: but for the toolkit's window nothing has changed.
    pub open spec fn told_all(self, calls: Seq<ShellCall>, after: ManagerView<S>) -> bool {
        after == (ManagerView { shell: after.shell, ..self }) && shell_calls(
            self.shell,
            calls,
            after.shell,
        )
    }
}

impl StateView {
    /// What the toolkit is asked when the mouse pointer comes over `w_id`:
    /// to show the icon that the widget asks for, where the hovered widget
    /// changes, the icon is another than the one shown, and no press grab
    /// holds the cursor.
    pub open spec fn hover_call(self, w_id: Option<WidgetId>) -> Option<ShellCall> {
        match w_id {
            Some(id) => if self.hover != w_id && icon_over(self.tree, id) != self.hover_icon
                && self.grabs.mouse_grab is None {
                Some(ShellCall::SetCursorIcon(icon_over(self.tree, id)))
            } else {
                None
            },
            None => None,
        }
    }

    /// What the toolkit is asked when `button` is released: to show the
    /// icon of the hovered widget again, where the button holds the press
    /// grab.
    pub open spec fn release_call(self, button: MouseButton) -> Option<ShellCall> {
        if self.grabs.grabbed_by(button) {
            Some(ShellCall::SetCursorIcon(self.hover_icon))
        } else {
            None
        }
    }

    /// What the toolkit is asked when the topmost `n` pop-ups are closed: to
    /// close the window of each, topmost first.
    pub open spec fn closing_calls(self, n: nat) -> Seq<ShellCall> {
        Seq::new(
            if n <= self.popups.len() {
                n
            } else {
                self.popups.len()
            },
            |i: int| ShellCall::CloseWindow(self.popups[self.popups.len() - 1 - i].0),
        )
    }

    /// What the toolkit is asked once a widget has answered `r` to a key
    /// press: to close the window of the topmost pop-up, where the key is an
    /// Escape that the widget did not handle.
    pub open spec fn key_sent_call(self, vkey: VirtualKeyCode, r: Response) -> Option<ShellCall> {
        if r == Response::Unhandled && vkey == VirtualKeyCode::Escape && self.popups.len() > 0 {
            Some(ShellCall::CloseWindow(self.popups.last().0))
        } else {
            None
        }
    }

    /// The state after what widgets register while they are configured has
    /// been forgotten: the accelerator keys, the scheduled updates, the
    /// widgets that wait on update handles, and the notifications that wait.
    pub open spec fn reset_registrations(self) -> StateView {
        StateView {
            accel_stack: Seq::empty(),
            accel_layers: Map::empty(),
            time_updates: Seq::empty(),
            handle_updates: Map::empty(),
            pending: Seq::empty(),
            ..self
        }
    }
}

/// What the toolkit is asked when the windows with the handles `windows`
/// are closed: to close each, in turn.
pub open spec fn closing(windows: Seq<WindowId>) -> Seq<ShellCall> {
    Seq::new(windows.len(), |i: int| ShellCall::CloseWindow(windows[i]))
}

/// The manager delivers `event` to the widget `id`: the widgets `w0` are
/// sent the event while the manager is as `before`, and the manager takes
/// note of their answer. Afterwards the widgets are `w1` and the manager is
/// as `after`.
pub open spec fn delivers<W: Widget, S: TkWindow>(
    w0: W,
    before: ManagerView<S>,
    id: WidgetId,
    event: Event,
    w1: W,
    after: ManagerView<S>,
) -> bool {
    exists|mid: ManagerView<S>, r: Response| #[trigger]
        answered(w0, before, id, event, w1, mid, r) && after == mid.folded(r)
}

/// The manager delivers `event` for the widget `id`, but first to the
/// parents of the open pop-ups, topmost first: a parent that does not handle
/// the event has its pop-up closed, and the next is asked; a parent that
/// handles it ends the delivery. Where no parent handles it, or `budget`
/// pop-ups have been closed, the event is delivered to `id`. The toolkit is
/// asked to close the window of each pop-up that is closed.
pub open spec fn popup_first<W: Widget, S: TkWindow>(
    w0: W,
    before: ManagerView<S>,
    id: WidgetId,
    event: Event,
    w1: W,
    after: ManagerView<S>,
    budget: nat,
) -> bool
    decreases budget,
{
    if budget == 0 || before.state.popups.len() == 0 {
        delivers(w0, before, id, event, w1, after)
    } else {
        let top = before.state.popups.last();
        exists|wm: W, mid: ManagerView<S>, r: Response| #[trigger]
            answered(w0, before, top.1.parent, event, wm, mid, r) && (if r == Response::Unhandled {
                exists|closed: ManagerView<S>| #[trigger]
                    mid.folded(r).close_window(top.0).told(
                        Some(ShellCall::CloseWindow(top.0)),
                        closed,
                    ) && popup_first(wm, closed, id, event, w1, after, (budget - 1) as nat)
            } else {
                w1 == wm && after == mid.folded(r)
            })
    }
}

/// The manager delivers `events` in turn, each to its widget as
/// [`delivers`] says: the widgets are `w0` and the manager is as `before`
/// when the first is delivered, and they are `w1` and as `after` once the
/// last has been.
pub open spec fn delivers_each<W: Widget, S: TkWindow>(
    w0: W,
    before: ManagerView<S>,
    events: Seq<(WidgetId, Event)>,
    w1: W,
    after: ManagerView<S>,
) -> bool
    decreases events.len(),
{
    if events.len() == 0 {
        after == before && w1 == w0
    } else {
        exists|wm: W, mid: ManagerView<S>|
            delivers_each(w0, before, events.drop_last(), wm, mid) && #[trigger] delivers(
                wm,
                mid,
                events.last().0,
                events.last().1,
                w1,
                after,
            )
    }
}

/// The one event `event` for each of the widgets `ids`, in order.
pub open spec fn each(ids: Seq<WidgetId>, event: Event) -> Seq<(WidgetId, Event)> {
    Seq::new(ids.len(), |i: int| (ids[i], event))
}

/// The events that carry the notifications `pending`, in order, each with
/// the widget that it goes to; see [`pending_event`].
pub open spec fn notifications(pending: Seq<Pending>) -> Seq<(WidgetId, Event)> {
    Seq::new(pending.len(), |i: int| pending_event(pending[i]))
}

/// Does `ids` hold each member of `set` once, and nothing else?
pub open spec fn holds_each_once(ids: Seq<WidgetId>, set: Set<WidgetId>) -> bool {
    ids.no_duplicates() && forall|id: WidgetId| #[trigger] ids.contains(id) <==> set.contains(id)
}

/// The manager handles a press (`pressed`) or a release of `button`.
///
/// - A press delivers the event that [`StateView::press_start_event`] names
///   to its widget, after the parents of the open pop-ups (see
///   [`popup_first`]); where it names none, nothing changes.
/// - A release delivers the event that [`StateView::press_end_event`] names
///   to its widget, if it names one. Then the press grab is ended (see
///   [`ManagerView::mouse_released`]), and the toolkit is asked to show the
///   cursor icon of the hovered widget again (see
///   [`StateView::release_call`]).
pub open spec fn mouse_input<W: Widget, S: TkWindow>(
    w0: W,
    before: ManagerView<S>,
    button: MouseButton,
    pressed: bool,
    w1: W,
    after: ManagerView<S>,
) -> bool {
    if pressed {
        match before.state.press_start_event(button) {
            Some((id, event)) => popup_first(
                w0,
                before,
                id,
                event,
                w1,
                after,
                before.state.popups.len(),
            ),
            None => after == before && w1 == w0,
        }
    } else {
        exists|mid: ManagerView<S>| #[trigger]
            mid.mouse_released(button).told(mid.state.release_call(button), after) && (
            match before.state.press_end_event(button) {
                Some((id, event)) => delivers(w0, before, id, event, w1, mid),
                None => mid == before && w1 == w0,
            })
    }
}

/// The manager handles the end of the touch `touch_id` at `coord`: the grab
/// of the touch is taken away (see [`ManagerView::touch_removed`]), and the
/// event that [`StateView::touch_end_event`] names is delivered to its
/// widget, if it names one.
pub open spec fn touch_ended_at<W: Widget, S: TkWindow>(
    w0: W,
    before: ManagerView<S>,
    touch_id: u64,
    coord: Coord,
    w1: W,
    after: ManagerView<S>,
) -> bool {
    match before.state.touch_end_event(touch_id, coord) {
        Some((id, event)) => delivers(w0, before.touch_removed(touch_id), id, event, w1, after),
        None => after == before.touch_removed(touch_id) && w1 == w0,
    }
}

/// The manager delivers what has been put off: first the movement of each
/// pan gesture that has moved, in the order of the gestures (see
/// [`pan_events`]), once the gestures have been settled; then the
/// notifications that wait by then, oldest first, once they have been
/// taken. What is put off meanwhile waits on.
pub open spec fn updated<W: Widget, S: TkWindow>(
    w0: W,
    before: ManagerView<S>,
    w1: W,
    after: ManagerView<S>,
) -> bool {
    exists|wm: W, mid: ManagerView<S>| #[trigger]
        delivers_each(
            w0,
            before.settled(),
            pan_events(before.state.grabs.pan_grab),
            wm,
            mid,
        ) && delivers_each(wm, mid.notified(), notifications(mid.state.pending), w1, after)
}

/// The manager resumes at the instant `now`: the updates that are due are
/// taken (see [`ManagerView::resumed`]), and the widget of each is told, in
/// the order in which the updates were scheduled (see [`due_widgets`]).
pub open spec fn timer_updated<W: Widget, S: TkWindow>(
    w0: W,
    before: ManagerView<S>,
    now: u64,
    w1: W,
    after: ManagerView<S>,
) -> bool {
    delivers_each(
        w0,
        before.resumed(now),
        each(due_widgets(before.state.time_updates, now), Event::TimerUpdate),
        w1,
        after,
    )
}

/// The manager triggers the update handle `handle`: the widgets that wait
/// on it are taken (see [`ManagerView::triggered`]), and each of them is
/// told once, with `payload`, in some order.
pub open spec fn handle_updated<W: Widget, S: TkWindow>(
    w0: W,
    before: ManagerView<S>,
    handle: UpdateHandle,
    payload: u64,
    w1: W,
    after: ManagerView<S>,
) -> bool {
    exists|ids: Seq<WidgetId>|
        holds_each_once(ids, before.state.waiting_on(handle)) && #[trigger] delivers_each(
            w0,
            before.triggered(handle),
            each(ids, Event::HandleUpdate { handle, payload }),
            w1,
            after,
        )
}

/// The manager handles a move of the mouse pointer to `coord`: the widgets
/// say which widget is there, the manager takes note of the move (see
/// [`ManagerView::cursor_moved`]) and has the toolkit show the cursor icon
/// of a widget that comes under the pointer (see [`StateView::hover_call`]),
/// and the widget that holds a press grab, if it receives press events, is
/// told of the move.
pub open spec fn pointer_moved<W: Widget, S: TkWindow>(
    w0: W,
    before: ManagerView<S>,
    coord: Coord,
    w1: W,
    after: ManagerView<S>,
) -> bool {
    exists|hit: Option<WidgetId>| #[trigger]
        w0.hit(coord, hit) && exists|moved: ManagerView<S>| #[trigger]
            before.cursor_moved(coord, hit).told(before.state.hover_call(hit), moved) && (
            match before.state.cursor_move_event(coord, hit) {
                Some((id, event)) => delivers(w0, moved, id, event, w1, after),
                None => after == moved && w1 == w0,
            })
}

/// The manager handles a move of the touch `touch_id` to `coord`: the
/// widgets say which widget is there, the manager takes note of the move
/// (see [`ManagerView::touch_moved`]), and the widget that holds the grab of
/// the touch, if it receives press events, is told of the move.
pub open spec fn touch_moved_to<W: Widget, S: TkWindow>(
    w0: W,
    before: ManagerView<S>,
    touch_id: u64,
    coord: Coord,
    w1: W,
    after: ManagerView<S>,
) -> bool {
    exists|hit: Option<WidgetId>| #[trigger]
        w0.hit(coord, hit) && (match before.state.touch_move_event(touch_id, coord, hit) {
            Some((id, event)) => delivers(
                w0,
                before.touch_moved(touch_id, coord, hit),
                id,
                event,
                w1,
                after,
            ),
            None => after == before.touch_moved(touch_id, coord, hit) && w1 == w0,
        })
}

/// The manager handles the start of the touch `touch_id` at `coord`: the
/// widgets say which widget is there, and that widget is told of the press,
/// after the parents of the open pop-ups (see [`popup_first`]). A touch
/// outside every widget changes nothing.
pub open spec fn touch_started<W: Widget, S: TkWindow>(
    w0: W,
    before: ManagerView<S>,
    touch_id: u64,
    coord: Coord,
    w1: W,
    after: ManagerView<S>,
) -> bool {
    exists|hit: Option<WidgetId>| #[trigger]
        w0.hit(coord, hit) && (match hit {
            Some(id) => popup_first(
                w0,
                before,
                id,
                Event::PressStart {
                    source: PressSource::Touch(touch_id),
                    start_id: Some(id),
                    coord,
                },
                w1,
                after,
                before.state.popups.len(),
            ),
            None => after == before && w1 == w0,
        })
}

/// The manager handles the press of the key `vkey` with the scan code
/// `scancode`, as [`StateView::key_route`] routes it:
///
/// - The widget with character focus is sent the command that the key
///   stands for, and its answer is handled as
///   [`ManagerView::char_key_sent`] says; a key that stands for no command
///   changes nothing.
/// - The Tab key moves navigation focus (see [`ManagerView::tab`]), and the
///   widget that receives it is told.
/// - A key that reaches a widget is delivered to it after the pop-ups above
///   its accelerator layer have been closed, and the answer is handled as
///   [`ManagerView::key_sent`] says. The toolkit is asked to close the
///   window of each pop-up that is closed.
/// - A key that is bound nowhere changes nothing.
pub open spec fn key_pressed<W: Widget, S: TkWindow>(
    w0: W,
    before: ManagerView<S>,
    vkey: VirtualKeyCode,
    scancode: u32,
    w1: W,
    after: ManagerView<S>,
) -> bool {
    match before.state.key_route(FIRST_ID, vkey) {
        KeyRoute::CharFocus { id, command } => match command {
            Some(cmd) => exists|mid: ManagerView<S>, r: Response| #[trigger]
                answered(
                    w0,
                    before,
                    id,
                    Event::Command(cmd, before.state.modifiers.shift),
                    w1,
                    mid,
                    r,
                ) && after == mid.folded(r).char_key_sent(cmd, r),
            None => after == before && w1 == w0,
        },
        KeyRoute::Tab => match before.tab().state.nav_focus {
            Some(id) => delivers(w0, before.tab(), id, Event::NavFocus, w1, after),
            None => after == before.tab() && w1 == w0,
        },
        KeyRoute::Dispatch { id, event, close } => exists|
            closed: ManagerView<S>,
            mid: ManagerView<S>,
            r: Response,
        | #[trigger]
            answered(w0, closed, id, event, w1, mid, r) && before.close_popups(
                close as nat,
            ).told_all(before.state.closing_calls(close as nat), closed) && mid.folded(r).key_sent(vkey, scancode, id, event is Activate, r).told(
                mid.state.key_sent_call(vkey, r),
                after,
            ),
        KeyRoute::Unbound => after == before && w1 == w0,
    }
}

/// The manager configures the widgets: it forgets what widgets register
/// (see [`StateView::reset_registrations`]), begins the accelerator layer of
/// the window, and presents the widgets to a new walk. It gives the layer to
/// the root, takes over the tree and the new names that the walk has found
/// (see [`StateView::remapped`]), has the toolkit close the pop-ups that
/// have lost their widget, and hovers the widget that the widgets report
/// under the mouse pointer.
pub open spec fn configures<W: Widget, S: TkWindow>(
    w0: W,
    before: ManagerView<S>,
    w1: W,
    after: ManagerView<S>,
) -> bool {
    exists|walk: ConfigView, mid: ManagerView<S>, hit: Option<WidgetId>|
        #![trigger set_up(
            w0,
            ConfigView::initial(),
            0,
            before.with_state(before.state.reset_registrations().push_accel_layer(false)),
            w1,
            walk,
            mid,
        ), w1.hit(mid.state.last_mouse_coord, hit)]
        {
            &&& set_up(
                w0,
                ConfigView::initial(),
                0,
                before.with_state(before.state.reset_registrations().push_accel_layer(false)),
                w1,
                walk,
                mid,
            )
            &&& walk.wf()
            &&& w1.hit(mid.state.last_mouse_coord, hit)
            &&& exists|named: ManagerView<S>| #[trigger]
                mid.with_state(
                    mid.state.pop_accel_layer(FIRST_ID).remapped(walk.finished(), walk.map),
                ).told_all(closing(lost_popups(mid.state.popups, walk.map)), named)
                    && named.hovering(hit).told(named.state.hover_call(hit), after)
        }
}

/// To deliver no event changes nothing, and to deliver one event in turn is
/// to deliver it.
pub proof fn lemma_delivers_each_short<W: Widget, S: TkWindow>(
    w0: W,
    before: ManagerView<S>,
    id: WidgetId,
    event: Event,
    w1: W,
    after: ManagerView<S>,
)
    ensures
        delivers_each(w0, before, Seq::empty(), w1, after) <==> after == before && w1 == w0,
        delivers_each(w0, before, seq![(id, event)], w1, after) <==> delivers(
            w0,
            before,
            id,
            event,
            w1,
            after,
        ),
{
    reveal_with_fuel(delivers_each, 2);
    let one = seq![(id, event)];
    assert(one.drop_last() =~= Seq::<(WidgetId, Event)>::empty());
    assert(one.last() == (id, event));
    if delivers(w0, before, id, event, w1, after) {
        assert(delivers_each(w0, before, one.drop_last(), w0, before) && delivers(
            w0,
            before,
            one.last().0,
            one.last().1,
            w1,
            after,
        ));
    }
}

/// A key that is bound nowhere, and a key that stands for no command while
/// a widget has character focus, reaches no widget and changes nothing.
pub proof fn lemma_unheard_key_changes_nothing<W: Widget, S: TkWindow>(
    w0: W,
    before: ManagerView<S>,
    vkey: VirtualKeyCode,
    scancode: u32,
    w1: W,
    after: ManagerView<S>,
)
    requires
        key_pressed(w0, before, vkey, scancode, w1, after),
        before.state.key_unheard(vkey),
    ensures
        after == before,
        w1 == w0,
{
}

} // verus!
