//! Event manager: the interface for the toolkit

use vstd::prelude::*;
use std::collections::HashMap;
use crate::event::configure::{ConfigView, Configuration};
use crate::event::containers::{
    pan_get, pan_len, pan_set, pending_new, set_items, touch_get, touch_insert,
};
use crate::event::handler::{set_up, Widget};
use crate::event::manager::dispatch::{
    closing, configures, delivers, delivers_each, each, handle_updated, holds_each_once,
    key_pressed, mouse_input, notifications, pointer_moved, timer_updated, touch_ended_at,
    touch_moved_to, touch_started, updated,
};
use crate::event::manager::input::{
    gesture_settled, lemma_move_pan_point_wf, lemma_settle_wf,
    lemma_touch_moved_wf, pan_events, pending_event,
};
use crate::event::manager::remap::lost_popups;
use crate::event::manager::routing::{
    due_widgets, is_earliest, lemma_reschedule_future, next_due, reschedule, reschedule_entry,
};
use crate::event::manager::{
    ConfigureManager, GrabMode, GrabsView, Manager, ManagerState, PanGrab, Pending, StateView, TimerEntry, TouchGrab,
};
use crate::event::{
    Event, FIRST_ID, ModifiersState, MouseButton, PanPoint, PressSource, UpdateHandle, VirtualKeyCode,
    WidgetId,
};
use crate::geom::Coord;
use crate::toolkit::{shell_calls, shell_step, shell_told, ShellCall, TkAction, TkWindow};

verus! {

broadcast use vstd::std_specs::hash::group_hash_axioms;

/// The instant at which an update that was due at `due` and repeats every
/// `interval` is due next, seen from `now`; `None` where that instant cannot
/// be represented.
pub fn advance_timer(due: u64, interval: u64, now: u64) -> (r: Option<u64>)
    requires
        due <= now,
        interval > 0,
    ensures
        r == (if next_due(due, interval, now) <= u64::MAX {
            Some(next_due(due, interval, now) as u64)
        } else {
            None
        }),
{
    let elapsed = now - due;
    let whole = elapsed / interval;
    proof {
        vstd::arithmetic::div_mod::lemma_fundamental_div_mod(elapsed as int, interval as int);
        vstd::arithmetic::div_mod::lemma_mod_bound(elapsed as int, interval as int);
        assert((whole + 1) * interval == whole * interval + interval) by (nonlinear_arith);
        assert(whole * interval == interval * whole) by (nonlinear_arith);
    }
    let base = whole * interval;
    let next: u128 = due as u128 + base as u128 + interval as u128;
    if next <= u64::MAX as u128 {
        Some(next as u64)
    } else {
        None
    }
}

impl ManagerState {
    /// Moves the contact point that `r` names to `coord`.
    pub(crate) fn move_pan_point(&mut self, r: Option<(usize, usize)>, coord: Coord)
        ensures
            final(self)@ == (StateView {
                grabs: old(self)@.grabs.move_pan_point(r, coord),
                ..old(self)@
            }),
    {
        if let Some((g, s)) = r {
            if g < pan_len(&self.pan_grab) {
                let grab = pan_get(&self.pan_grab, g);
                let point = PanPoint { start: grab.point(s).start, current: coord };
                pan_set(&mut self.pan_grab, g, grab.with_point(s, point));
            }
        }
    }

    /// The earliest instant at which a scheduled update is due; `None`
    /// where none is scheduled.
    pub fn next_resume(&self) -> (r: Option<u64>)
        ensures
            match r {
                Some(t) => is_earliest(self@.time_updates, t),
                None => self@.time_updates.len() == 0,
            },
    {
        if self.time_updates.len() == 0 {
            return None;
        }
        let mut next = self.time_updates[0].due;
        let mut i: usize = 1;
        while i < self.time_updates.len()
            invariant
                1 <= i <= self@.time_updates.len(),
                exists|j: int| 0 <= j < i && (#[trigger] self@.time_updates[j]).due == next,
                forall|j: int| 0 <= j < i ==> next <= (#[trigger] self@.time_updates[j]).due,
            decreases self@.time_updates.len() - i,
        {
            if self.time_updates[i].due < next {
                next = self.time_updates[i].due;
            }
            i = i + 1;
        }
        Some(next)
    }
}

impl<'a, S: TkWindow> Manager<'a, S> {
    /// A handle on `state` for the handling of one event; `shell` is the
    /// toolkit's window.
    pub fn new(state: &'a mut ManagerState, shell: &'a mut S) -> (mgr: Manager<'a, S>)
        ensures
            mgr.state() == old(state)@,
            mgr.shell() == *old(shell),
            mgr.action() == TkAction::Nothing,
            !mgr.read_only(),
    {
        Manager { read_only: false, state, shell, action: TkAction::Nothing }
    }

    /// A handle on `state` that refuses to start grabs: for use while the
    /// window is drawn, when nothing must change under the widgets.
    pub fn new_read_only(state: &'a mut ManagerState, shell: &'a mut S) -> (mgr: Manager<'a, S>)
        ensures
            mgr.state() == old(state)@,
            mgr.shell() == *old(shell),
            mgr.action() == TkAction::Nothing,
            mgr.read_only(),
    {
        Manager { read_only: true, state, shell, action: TkAction::Nothing }
    }

    /// Takes the action that the window must take: the most severe that was
    /// asked for since the last call. Afterwards none is pending.
    pub fn pop_action(&mut self) -> (action: TkAction)
        ensures
            action == old(self).action().spec_max(old(self).state().action),
            final(self).state() == (StateView { action: TkAction::Nothing, ..old(self).state() }),
            final(self).action() == TkAction::Nothing,
            final(self).read_only() == old(self).read_only(),
            final(self).shell() == old(self).shell(),
    {
        let action = self.action.max(self.state.action);
        self.action = TkAction::Nothing;
        self.state.action = TkAction::Nothing;
        action
    }

    /// Takes note of the modifier keys that are held.
    pub fn handle_modifiers(&mut self, modifiers: ModifiersState)
        ensures
            final(self).state() == (StateView { modifiers, ..old(self).state() }),
            final(self).action() == old(self).action(),
            final(self).read_only() == old(self).read_only(),
            final(self).shell() == old(self).shell(),
    {
        self.state.modifiers = modifiers;
    }

    /// Takes note of a move of the mouse pointer to `coord`, over the widget
    /// `hit`, and returns the event that the move delivers, if any, with the
    /// widget that receives it.
    ///
    /// See [`StateView::cursor_moved`] and [`StateView::cursor_move_event`].
    pub fn cursor_moved(&mut self, coord: Coord, hit: Option<WidgetId>) -> (r: Option<
        (WidgetId, Event),
    >)
        requires
            old(self).wf(),
        ensures
            final(self).state() == old(self).state().cursor_moved(coord, hit),
            r == old(self).state().cursor_move_event(coord, hit),
            final(self).action() == (if old(self).state().grabs.mouse_grab is None && old(
                self,
            ).state().hover_redraws(hit) {
                old(self).action().spec_max(TkAction::Redraw)
            } else {
                old(self).action()
            }),
            final(self).read_only() == old(self).read_only(),
            shell_step(old(self).shell(), old(self).state().hover_call(hit), final(self).shell()),
            final(self).wf(),
    {
        let delta = coord.delta(self.state.last_mouse_coord);
        self.state.last_mouse_coord = coord;
        match self.state.mouse_grab {
            Some(grab) => {
                match grab.mode {
                    GrabMode::Grab => {
                        let source = PressSource::Mouse(grab.button, grab.repetitions);
                        Some((grab.start_id, Event::PressMove { source, cur_id: hit, coord, delta }))
                    },
                    _ => {
                        proof {
                            lemma_move_pan_point_wf(old(self).state().grabs, grab.pan_grab, coord);
                        }
                        self.state.move_pan_point(grab.pan_grab, coord);
                        None
                    },
                }
            },
            None => {
                self.set_hover(hit);
                None
            },
        }
    }

    /// Handles a move of the mouse pointer to `coord`.
    pub fn handle_cursor_moved<W: Widget>(&mut self, widget: &mut W, coord: Coord)
        requires
            old(self).wf(),
        ensures
            final(self).wf(),
            pointer_moved(*old(widget), old(self)@, coord, *final(widget), final(self)@),
    {
        let hit = widget.find_id(coord);
        let r = self.cursor_moved(coord, hit);
        let ghost moved = self@;
        if let Some((id, event)) = r {
            self.send_event(widget, id, event);
        }
        proof {
            assert(old(self)@.cursor_moved(coord, hit).told(
                old(self).state().hover_call(hit),
                moved,
            ));
            assert((*old(widget)).hit(coord, hit));
        }
    }

    /// Handles the mouse pointer leaving the window: no widget is hovered
    /// any more, unless a press grab is held.
    pub fn handle_cursor_left(&mut self)
        requires
            old(self).wf(),
        ensures
            final(self).state() == (if old(self).state().grabs.mouse_grab is None && old(
                self,
            ).state().hover is Some {
                old(self).state().set_hover(None)
            } else {
                old(self).state()
            }),
            final(self).action() == (if old(self).state().grabs.mouse_grab is None && old(
                self,
            ).state().hover_redraws(None) {
                old(self).action().spec_max(TkAction::Redraw)
            } else {
                old(self).action()
            }),
            final(self).read_only() == old(self).read_only(),
            final(self).shell() == old(self).shell(),
            final(self).wf(),
    {
        if self.state.mouse_grab.is_none() {
            self.set_hover(None);
        }
    }

    /// The event that a press of `button` delivers, and the widget that
    /// receives it; see [`StateView::press_start_event`].
    pub fn press_start(&self, button: MouseButton) -> (r: Option<(WidgetId, Event)>)
        ensures
            r == self.state().press_start_event(button),
    {
        if self.state.mouse_grab.is_some() {
            return None;
        }
        match self.state.hover {
            Some(id) => Some(
                (
                    id,
                    Event::PressStart {
                        source: PressSource::Mouse(button, 1),
                        start_id: Some(id),
                        coord: self.state.last_mouse_coord,
                    },
                ),
            ),
            None => None,
        }
    }

    /// The event that the release of `button` delivers, and the widget that
    /// receives it; see [`StateView::press_end_event`].
    pub fn press_end(&self, button: MouseButton) -> (r: Option<(WidgetId, Event)>)
        ensures
            r == self.state().press_end_event(button),
    {
        match self.state.mouse_grab {
            Some(grab) => {
                if grab.button != button {
                    return None;
                }
                match grab.mode {
                    GrabMode::Grab => Some(
                        (
                            grab.start_id,
                            Event::PressEnd {
                                source: PressSource::Mouse(grab.button, grab.repetitions),
                                end_id: self.state.hover,
                                coord: self.state.last_mouse_coord,
                            },
                        ),
                    ),
                    _ => None,
                }
            },
            None => None,
        }
    }

    /// Handles a press (`pressed`) or release of a mouse button.
    ///
    /// A press is delivered to the hovered widget, or first to the parents
    /// of the open pop-ups: see [`Manager::send_popup_first`]. A release is
    /// delivered to the widget that holds the press grab, and ends the grab.
    pub fn handle_mouse_input<W: Widget>(&mut self, widget: &mut W, button: MouseButton, pressed: bool)
        requires
            old(self).wf(),
        ensures
            final(self).wf(),
            mouse_input(*old(widget), old(self)@, button, pressed, *final(widget), final(self)@),
    {
        if pressed {
            if let Some((id, event)) = self.press_start(button) {
                self.send_popup_first(widget, id, event);
            }
        } else {
            if let Some((id, event)) = self.press_end(button) {
                self.send_event(widget, id, event);
            }
            let ghost mid = self@;
            self.end_mouse_grab(button);
            proof {
                assert(mid.mouse_released(button).told(mid.state.release_call(button), self@));
            }
        }
    }

    /// Handles the start of a touch at `coord`: the widget there is told of
    /// the press, or first the parents of the open pop-ups.
    pub fn handle_touch_start<W: Widget>(&mut self, widget: &mut W, touch_id: u64, coord: Coord)
        requires
            old(self).wf(),
        ensures
            final(self).wf(),
            touch_started(*old(widget), old(self)@, touch_id, coord, *final(widget), final(self)@),
    {
        let hit = widget.find_id(coord);
        if let Some(id) = hit {
            let source = PressSource::Touch(touch_id);
            self.send_popup_first(widget, id, Event::PressStart { source, start_id: Some(id), coord });
        }
        proof {
            assert((*old(widget)).hit(coord, hit));
        }
    }

    /// Takes note of a move of the touch `touch_id` to `coord`, over the
    /// widget `hit`, and returns the event that the move delivers, if any,
    /// with the widget that receives it.
    ///
    /// See [`GrabsView::touch_moved`] and [`StateView::touch_move_event`].
    pub fn touch_moved(&mut self, touch_id: u64, coord: Coord, hit: Option<WidgetId>) -> (r:
        Option<(WidgetId, Event)>)
        requires
            old(self).wf(),
        ensures
            final(self).state() == (StateView {
                grabs: old(self).state().grabs.touch_moved(touch_id, coord, hit),
                ..old(self).state()
            }),
            r == old(self).state().touch_move_event(touch_id, coord, hit),
            final(self).action() == old(self).action(),
            final(self).read_only() == old(self).read_only(),
            final(self).shell() == old(self).shell(),
            final(self).wf(),
    {
        proof {
            lemma_touch_moved_wf(old(self).state().grabs, touch_id, coord, hit);
        }
        match touch_get(&self.state.touch_grab, touch_id) {
            Some(grab) => {
                let delta = coord.delta(grab.coord);
                let _ = touch_insert(
                    &mut self.state.touch_grab,
                    touch_id,
                    TouchGrab {
                        start_id: grab.start_id,
                        depress: grab.depress,
                        cur_id: hit,
                        coord,
                        mode: grab.mode,
                        pan_grab: grab.pan_grab,
                    },
                );
                match grab.mode {
                    GrabMode::Grab => {
                        let source = PressSource::Touch(touch_id);
                        Some((grab.start_id, Event::PressMove { source, cur_id: hit, coord, delta }))
                    },
                    _ => {
                        self.state.move_pan_point(grab.pan_grab, coord);
                        None
                    },
                }
            },
            None => None,
        }
    }

    /// Handles a move of the touch `touch_id` to `coord`.
    pub fn handle_touch_move<W: Widget>(&mut self, widget: &mut W, touch_id: u64, coord: Coord)
        requires
            old(self).wf(),
        ensures
            final(self).wf(),
            touch_moved_to(*old(widget), old(self)@, touch_id, coord, *final(widget), final(self)@),
    {
        let hit = widget.find_id(coord);
        if let Some((id, event)) = self.touch_moved(touch_id, coord, hit) {
            self.send_event(widget, id, event);
        }
        proof {
            assert((*old(widget)).hit(coord, hit));
        }
    }

    /// Ends the touch `touch_id` at `coord`: its grab is taken away, with the
    /// contact point that it contributed to a pan gesture, and the event
    /// that tells the widget of the end is returned, if one is due.
    ///
    /// See [`GrabsView::remove_touch`] and [`StateView::touch_end_event`].
    pub fn touch_ended(&mut self, touch_id: u64, coord: Coord) -> (r: Option<(WidgetId, Event)>)
        requires
            old(self).wf(),
        ensures
            final(self).state() == (StateView {
                grabs: old(self).state().grabs.remove_touch(touch_id),
                ..old(self).state()
            }),
            r == old(self).state().touch_end_event(touch_id, coord),
            final(self).action() == old(self).action(),
            final(self).read_only() == old(self).read_only(),
            final(self).shell() == old(self).shell(),
            final(self).wf(),
    {
        match self.remove_touch(touch_id) {
            Some(grab) => {
                match grab.mode {
                    GrabMode::Grab => {
                        let source = PressSource::Touch(touch_id);
                        Some((grab.start_id, Event::PressEnd { source, end_id: grab.cur_id, coord }))
                    },
                    _ => None,
                }
            },
            None => None,
        }
    }

    /// Handles the end of the touch `touch_id` at `coord`.
    pub fn handle_touch_end<W: Widget>(&mut self, widget: &mut W, touch_id: u64, coord: Coord)
        requires
            old(self).wf(),
        ensures
            final(self).wf(),
            touch_ended_at(
                *old(widget),
                old(self)@,
                touch_id,
                coord,
                *final(widget),
                final(self)@,
            ),
    {
        if let Some((id, event)) = self.touch_ended(touch_id, coord) {
            self.send_event(widget, id, event);
        }
    }

    /// Handles the press of a key; see [`StateView::key_route`].
    pub fn handle_key_down<W: Widget>(&mut self, widget: &mut W, vkey: VirtualKeyCode, scancode: u32)
        requires
            old(self).wf(),
        ensures
            final(self).wf(),
            key_pressed(*old(widget), old(self)@, vkey, scancode, *final(widget), final(self)@),
    {
        self.start_key_event(widget, vkey, scancode);
    }

    /// Handles the release of the key with the given scan code: the widget
    /// that the key showed as depressed, if any, is released and redrawn.
    pub fn handle_key_up(&mut self, scancode: u32)
        ensures
            final(self).state() == (StateView {
                key_depress: old(self).state().key_depress.remove(scancode),
                ..old(self).state()
            }),
            final(self).action() == (if old(self).state().key_depress.contains_key(scancode) {
                old(self).action().spec_max(TkAction::Redraw)
            } else {
                old(self).action()
            }),
            final(self).read_only() == old(self).read_only(),
            final(self).shell() == old(self).shell(),
    {
        self.end_key_event(scancode);
    }

    /// The widget that receives the typed character `c`, if any; see
    /// [`StateView::char_target`].
    pub fn char_target(&self, c: char) -> (r: Option<WidgetId>)
        ensures
            r == self.state().char_target(c),
    {
        if self.state.char_focus && c != '\u{1b}' {
            self.state.sel_focus
        } else {
            None
        }
    }

    /// Handles a typed character: it goes to the widget with character
    /// focus.
    pub fn handle_char<W: Widget>(&mut self, widget: &mut W, c: char)
        requires
            old(self).wf(),
        ensures
            final(self).wf(),
            match old(self).state().char_target(c) {
                Some(id) => delivers(
                    *old(widget),
                    old(self)@,
                    id,
                    Event::ReceivedCharacter(c),
                    *final(widget),
                    final(self)@,
                ),
                None => final(self)@ == old(self)@ && *final(widget) == *old(widget),
            },
    {
        if let Some(id) = self.char_target(c) {
            self.send_event(widget, id, Event::ReceivedCharacter(c));
        }
    }

    /// Forgets what widgets register while they are configured: the
    /// accelerator keys, the scheduled updates and the widgets that wait on
    /// update handles. The notifications that wait are dropped with them:
    /// they name widgets by identifiers that are about to change.
    pub fn reset_registrations(&mut self)
        ensures
            final(self).state() == old(self).state().reset_registrations(),
            final(self).action() == old(self).action(),
            final(self).read_only() == old(self).read_only(),
            final(self).shell() == old(self).shell(),
    {
        self.state.accel_stack = Vec::new();
        self.state.accel_layers = HashMap::new();
        self.state.time_updates = Vec::new();
        self.state.handle_updates = HashMap::new();
        self.state.pending = pending_new();
        proof {
            assert(self.state@.accel_stack =~= Seq::empty());
            assert(self.state@.accel_layers =~= Map::empty());
            assert(self.state@.handle_updates =~= Map::empty());
        }
    }

    /// Takes over the result of a walk over the widget tree: the tree that
    /// was found, and the new names of the widgets that were known before.
    /// The toolkit is asked to close the pop-ups that have lost their
    /// widget or their parent.
    ///
    /// See [`StateView::remapped`].
    pub fn finish_configure(&mut self, cfg: Configuration)
        requires
            old(self).wf(),
            cfg.wf(),
        ensures
            final(self).state() == old(self).state().remapped(cfg@.finished(), cfg@.map),
            final(self).action() == old(self).action(),
            final(self).read_only() == old(self).read_only(),
            shell_calls(
                old(self).shell(),
                closing(lost_popups(old(self).state().popups, cfg@.map)),
                final(self).shell(),
            ),
            final(self).wf(),
    {
        let (tree, map) = cfg.finish();
        let closed = self.state.apply_remap(tree, &map);
        let ghost calls = closing(closed@);
        proof {
            assert(calls.take(0) =~= Seq::<ShellCall>::empty());
        }
        let mut i: usize = 0;
        while i < closed.len()
            invariant
                self.state() == old(self).state().remapped(cfg@.finished(), cfg@.map),
                self.action() == old(self).action(),
                self.read_only() == old(self).read_only(),
                i <= closed@.len(),
                calls == closing(closed@),
                shell_calls(old(self).shell(), calls.take(i as int), self.shell()),
            decreases closed@.len() - i,
        {
            let ghost shell = *self.shell;
            self.shell.close_window(closed[i]);
            proof {
                let told = calls.take(i + 1);
                assert(told.drop_last() =~= calls.take(i as int));
                assert(shell_calls(old(self).shell(), told.drop_last(), shell) && shell_told(
                    shell,
                    told.last(),
                    *self.shell,
                ));
            }
            i = i + 1;
        }
        proof {
            assert(calls.take(i as int) =~= calls);
        }
    }

    /// Configures the widgets of the window.
    ///
    /// The widgets are numbered anew by a walk over the tree, parents
    /// before children, during which they register their accelerator keys,
    /// timers and update handles again. Afterwards the state names every
    /// widget it knew before by its new identifier (see
    /// [`StateView::remapped`]), and the widget under the mouse pointer is
    /// hovered.
    pub fn configure<W: Widget>(&mut self, widget: &mut W)
        requires
            old(self).wf(),
        ensures
            final(self).wf(),
            configures(*old(widget), old(self)@, *final(widget), final(self)@),
    {
        self.reset_registrations();
        self.push_accel_layer(false);
        let ghost start = self@;
        let mut cfg = Configuration::new();
        widget.configure(ConfigureManager { cfg: &mut cfg, mgr: self, depth: 0 });
        let ghost walk = cfg@;
        let ghost mid = self@;
        self.pop_accel_layer(FIRST_ID);
        self.finish_configure(cfg);
        let ghost named = self@;
        let hit = widget.find_id(self.state.last_mouse_coord);
        self.set_hover(hit);
        proof {
            assert(set_up(*old(widget), ConfigView::initial(), 0, start, *widget, walk, mid));
            assert((*widget).hit(mid.state.last_mouse_coord, hit));
            assert(mid.with_state(
                mid.state.pop_accel_layer(FIRST_ID).remapped(walk.finished(), walk.map),
            ).told_all(closing(lost_popups(mid.state.popups, walk.map)), named));
            assert(named.hovering(hit).told(named.state.hover_call(hit), self@));
            assert(start == old(self)@.with_state(
                old(self)@.state.reset_registrations().push_accel_layer(false),
            ));
            assert(walk.wf());
        }
    }

    /// Delivers `event` to the widget `id`.
    ///
    /// What the widget answers is folded into the window's action.
    pub fn send_event_to<W: Widget>(&mut self, widget: &mut W, id: WidgetId, event: Event)
        requires
            old(self).wf(),
        ensures
            final(self).wf(),
            delivers(*old(widget), old(self)@, id, event, *final(widget), final(self)@),
    {
        self.send_event(widget, id, event);
    }

    /// Takes the reports of movement that are due: one for each pan gesture
    /// with a contact point that has moved since the last call. Afterwards
    /// every contact point starts anew where it is.
    pub fn take_pan_events(&mut self) -> (events: Vec<(WidgetId, Event)>)
        requires
            old(self).wf(),
        ensures
            events@ == pan_events(old(self).state().grabs.pan_grab),
            final(self).state() == (StateView {
                grabs: old(self).state().grabs.settle(),
                ..old(self).state()
            }),
            final(self).action() == old(self).action(),
            final(self).read_only() == old(self).read_only(),
            final(self).shell() == old(self).shell(),
            final(self).wf(),
    {
        let ghost before = self.state@.grabs;
        let mut events: Vec<(WidgetId, Event)> = Vec::new();
        let n = pan_len(&self.state.pan_grab);
        let mut i: usize = 0;
        while i < n
            invariant
                0 <= i <= n,
                n == before.pan_grab.len(),
                self.state().grabs.pan_grab.len() == n,
                forall|j: int|
                    0 <= j < i ==> #[trigger] self.state().grabs.pan_grab[j] == gesture_settled(
                        before.pan_grab[j],
                    ),
                forall|j: int|
                    i <= j < n ==> #[trigger] self.state().grabs.pan_grab[j] == before.pan_grab[j],
                self.state() == (StateView {
                    grabs: GrabsView { pan_grab: self.state().grabs.pan_grab, ..before },
                    ..old(self).state()
                }),
                self.action() == old(self).action(),
                self.read_only() == old(self).read_only(),
                self.shell() == old(self).shell(),
                events@ == pan_events(before.pan_grab.take(i as int)),
            decreases n - i,
        {
            let grab = pan_get(&self.state.pan_grab, i);
            proof {
                assert(before.pan_grab.take(i + 1).drop_last() =~= before.pan_grab.take(i as int));
            }
            let first = grab.coords.0;
            let second = grab.coords.1;
            if (grab.n >= 1 && first.start != first.current) || (grab.n >= 2 && second.start
                != second.current) {
                let event = Event::Pan {
                    mode: grab.mode,
                    first,
                    second: if grab.n >= 2 {
                        Some(second)
                    } else {
                        None
                    },
                };
                events.push((grab.id, event));
            }
            pan_set(
                &mut self.state.pan_grab,
                i,
                PanGrab {
                    id: grab.id,
                    mode: grab.mode,
                    source_is_touch: grab.source_is_touch,
                    n: grab.n,
                    coords: (
                        PanPoint { start: first.current, current: first.current },
                        PanPoint { start: second.current, current: second.current },
                    ),
                },
            );
            i = i + 1;
        }
        proof {
            assert(before.pan_grab.take(n as int) =~= before.pan_grab);
            assert(self.state().grabs.pan_grab =~= before.settle().pan_grab);
            lemma_settle_wf(before);
        }
        events
    }

    /// Takes the notifications that wait to be delivered, oldest first.
    /// Afterwards none waits.
    pub fn take_pending(&mut self) -> (pending: Vec<Pending>)
        ensures
            pending@ == old(self).state().pending,
            final(self).state() == (StateView { pending: Seq::empty(), ..old(self).state() }),
            final(self).action() == old(self).action(),
            final(self).read_only() == old(self).read_only(),
            final(self).shell() == old(self).shell(),
    {
        let pending = self.state.pending();
        self.state.pending = pending_new();
        pending
    }

    /// Delivers what has been put off while an event was handled: the
    /// movement of pan gestures, and the notifications that wait.
    ///
    /// This is called once an event has been handled, and nowhere else: a
    /// widget is never told of a change while it handles an event. What is
    /// put off while these are delivered waits for the next call.
    pub fn update<W: Widget>(&mut self, widget: &mut W)
        requires
            old(self).wf(),
        ensures
            final(self).wf(),
            updated(*old(widget), old(self)@, *final(widget), final(self)@),
    {
        let events = self.take_pan_events();
        self.send_each(widget, &events);
        let ghost wm = *widget;
        let ghost mid = self@;
        let pending = self.take_pending();
        let events = notifications_of(&pending);
        self.send_each(widget, &events);
        proof {
            assert(delivers_each(
                *old(widget),
                old(self)@.settled(),
                pan_events(old(self).state().grabs.pan_grab),
                wm,
                mid,
            ));
        }
    }

    /// Delivers `events` in turn, each to its widget.
    pub fn send_each<W: Widget>(&mut self, widget: &mut W, events: &Vec<(WidgetId, Event)>)
        requires
            old(self).wf(),
        ensures
            final(self).wf(),
            delivers_each(*old(widget), old(self)@, events@, *final(widget), final(self)@),
    {
        let mut i: usize = 0;
        proof {
            assert(events@.take(0) =~= Seq::<(WidgetId, Event)>::empty());
        }
        while i < events.len()
            invariant
                self.wf(),
                i <= events@.len(),
                delivers_each(*old(widget), old(self)@, events@.take(i as int), *widget, self@),
            decreases events@.len() - i,
        {
            let ghost wm = *widget;
            let ghost mid = self@;
            let (id, event) = events[i];
            self.send_event(widget, id, event);
            proof {
                let sent = events@.take(i + 1);
                assert(sent.drop_last() =~= events@.take(i as int));
                assert(sent.last() == events@[i as int]);
                assert(delivers_each(*old(widget), old(self)@, sent.drop_last(), wm, mid)
                    && delivers(wm, mid, sent.last().0, sent.last().1, *widget, self@));
            }
            i = i + 1;
        }
        proof {
            assert(events@.take(i as int) =~= events@);
        }
    }

    /// The earliest instant at which a scheduled update is due; `None`
    /// where none is scheduled.
    pub fn next_resume(&self) -> (r: Option<u64>)
        ensures
            match r {
                Some(t) => is_earliest(self.state().time_updates, t),
                None => self.state().time_updates.len() == 0,
            },
    {
        self.state.next_resume()
    }

    /// Takes the updates that are due when the clock shows `now`, and
    /// returns their widgets in the order in which the updates were
    /// scheduled. An update that repeats is scheduled again; see
    /// [`reschedule_entry`].
    pub fn take_due(&mut self, now: u64) -> (due: Vec<WidgetId>)
        requires
            old(self).wf(),
        ensures
            due@ == due_widgets(old(self).state().time_updates, now),
            final(self).state() == (StateView {
                time_updates: reschedule(old(self).state().time_updates, now),
                ..old(self).state()
            }),
            forall|i: int|
                0 <= i < final(self).state().time_updates.len() ==> (#[trigger] final(self).state().time_updates[i]).due > now,
            final(self).action() == old(self).action(),
            final(self).read_only() == old(self).read_only(),
            final(self).shell() == old(self).shell(),
            final(self).wf(),
    {
        let ghost before = self.state@.time_updates;
        proof {
            lemma_reschedule_future(before, now);
        }
        let mut due: Vec<WidgetId> = Vec::new();
        let mut kept: Vec<TimerEntry> = Vec::new();
        let n = self.state.time_updates.len();
        let mut i: usize = 0;
        while i < n
            invariant
                0 <= i <= n,
                n == before.len(),
                self.state() == old(self).state(),
                self.action() == old(self).action(),
                self.read_only() == old(self).read_only(),
                self.shell() == old(self).shell(),
                before == self.state().time_updates,
                due@ == due_widgets(before.take(i as int), now),
                kept@ == reschedule(before.take(i as int), now),
                forall|j: int| 0 <= j < kept@.len() ==> (#[trigger] kept@[j]).interval != Some(0u64),
                old(self).state().timers_wf(),
            decreases n - i,
        {
            let entry = self.state.time_updates[i];
            proof {
                assert(before.take(i + 1).drop_last() =~= before.take(i as int));
                assert(before[i as int].interval != Some(0u64));
            }
            if entry.due > now {
                kept.push(entry);
            } else {
                due.push(entry.id);
                if let Some(interval) = entry.interval {
                    if let Some(next) = advance_timer(entry.due, interval, now) {
                        kept.push(TimerEntry { due: next, id: entry.id, interval: entry.interval });
                    }
                }
            }
            i = i + 1;
        }
        proof {
            assert(before.take(n as int) =~= before);
        }
        self.state.time_updates = kept;
        due
    }

    /// Resumes at the instant `now`: every update that is due is delivered
    /// to its widget, and those that repeat are scheduled again.
    pub fn update_timer<W: Widget>(&mut self, widget: &mut W, now: u64)
        requires
            old(self).wf(),
        ensures
            final(self).wf(),
            timer_updated(*old(widget), old(self)@, now, *final(widget), final(self)@),
    {
        let due = self.take_due(now);
        let events = events_for(&due, Event::TimerUpdate);
        self.send_each(widget, &events);
    }

    /// Takes the widgets that wait on `handle`: each of them once, in no
    /// stated order. Afterwards none waits on it.
    pub fn take_handle(&mut self, handle: UpdateHandle) -> (waiting: Vec<WidgetId>)
        ensures
            forall|i: int|
                0 <= i < waiting@.len() ==> old(self).state().waiting_on(handle).contains(
                    #[trigger] waiting@[i],
                ),
            forall|i: int, j: int| 0 <= i < j < waiting@.len() ==> waiting@[i] != waiting@[j],
            forall|id: WidgetId| #[trigger]
                old(self).state().waiting_on(handle).contains(id) ==> exists|i: int|
                    0 <= i < waiting@.len() && waiting@[i] == id,
            final(self).state() == (StateView {
                handle_updates: old(self).state().handle_updates.remove(handle),
                ..old(self).state()
            }),
            final(self).action() == old(self).action(),
            final(self).read_only() == old(self).read_only(),
            final(self).shell() == old(self).shell(),
    {
        let ghost before = self.state@;
        let waiting = match self.state.handle_updates.remove(&handle) {
            Some(set) => set_items(&set),
            None => Vec::new(),
        };
        proof {
            assert(self.state@.handle_updates =~= before.handle_updates.remove(handle));
        }
        waiting
    }

    /// Triggers the update handle `handle`: every widget that waits on it
    /// is told once, with `payload`, and waits no longer.
    pub fn update_handle<W: Widget>(&mut self, widget: &mut W, handle: UpdateHandle, payload: u64)
        requires
            old(self).wf(),
        ensures
            final(self).wf(),
            handle_updated(
                *old(widget),
                old(self)@,
                handle,
                payload,
                *final(widget),
                final(self)@,
            ),
    {
        let waiting = self.take_handle(handle);
        let events = events_for(&waiting, Event::HandleUpdate { handle, payload });
        self.send_each(widget, &events);
        proof {
            assert forall|id: WidgetId| #[trigger]
                waiting@.contains(id) <==> old(self).state().waiting_on(handle).contains(id) by {
                if old(self).state().waiting_on(handle).contains(id) {
                    let i = choose|i: int| 0 <= i < waiting@.len() && waiting@[i] == id;
                    assert(waiting@[i] == id);
                }
            }
            assert(holds_each_once(waiting@, old(self).state().waiting_on(handle)));
        }
    }
}

/// The one event `event` for each of the widgets `ids`, in order.
pub fn events_for(ids: &Vec<WidgetId>, event: Event) -> (events: Vec<(WidgetId, Event)>)
    ensures
        events@ == each(ids@, event),
{
    let mut events: Vec<(WidgetId, Event)> = Vec::new();
    let mut i: usize = 0;
    while i < ids.len()
        invariant
            i <= ids@.len(),
            events@ == each(ids@.take(i as int), event),
        decreases ids@.len() - i,
    {
        events.push((ids[i], event));
        proof {
            assert(events@ =~= each(ids@.take(i + 1), event));
        }
        i = i + 1;
    }
    proof {
        assert(ids@.take(i as int) =~= ids@);
    }
    events
}

/// The events that carry the notifications `pending`, in order, each with
/// the widget that it goes to.
pub fn notifications_of(pending: &Vec<Pending>) -> (events: Vec<(WidgetId, Event)>)
    ensures
        events@ == notifications(pending@),
{
    let mut events: Vec<(WidgetId, Event)> = Vec::new();
    let mut i: usize = 0;
    while i < pending.len()
        invariant
            i <= pending@.len(),
            events@ == notifications(pending@.take(i as int)),
        decreases pending@.len() - i,
    {
        events.push(notification(pending[i]));
        proof {
            assert(events@ =~= notifications(pending@.take(i + 1)));
        }
        i = i + 1;
    }
    proof {
        assert(pending@.take(i as int) =~= pending@);
    }
    events
}

/// The widget to which a deferred notification goes, and the event that
/// carries it.
pub fn notification(p: Pending) -> (r: (WidgetId, Event))
    ensures
        r == pending_event(p),
{
    match p {
        Pending::LostCharFocus(id) => (id, Event::LostCharFocus),
        Pending::LostSelFocus(id) => (id, Event::LostSelFocus),
        Pending::PopupRemoved(parent, window) => (parent, Event::PopupRemoved(window)),
        Pending::NewPopup(id) => (id, Event::NewPopup(id)),
    }
}

} // verus!
