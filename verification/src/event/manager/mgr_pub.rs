//! Event manager: the interface for widgets

use vstd::prelude::*;
use std::collections::HashMap;
use crate::event::containers::{
    pending_push, popup_len, popup_pop, popup_push, popup_remove, set_insert, set_new,
    touch_insert,
};
use crate::event::manager::input::lemma_set_depress_wf;
use crate::event::manager::model::{lemma_mouse_grab_added, lemma_touch_grab_added};
use crate::event::manager::routing::{bind_keys, key_among, lemma_bind_keys_step};
use crate::event::manager::{
    same_widget, AccelLayer, GrabMode, Manager, MouseGrab, Pending, StateView,
    TimerEntry, TouchGrab,
};
use crate::event::{
    CursorIcon, Popup, PressSource, UpdateHandle, VirtualKeyCode, WidgetId, WindowId,
};
use crate::geom::Coord;
use crate::toolkit::{
    lemma_action_max_is_join, shell_calls, shell_step, shell_told, text_of, ShellCall, TkAction,
    TkWindow,
};

verus! {

broadcast use vstd::std_specs::hash::group_hash_axioms;

/// What the toolkit is asked when a grab of the press `source` is given: to
/// show the icon `cursor`, where one is named and the press is of the mouse.
pub open spec fn grab_call(source: PressSource, cursor: Option<CursorIcon>) -> Option<ShellCall> {
    match (source, cursor) {
        (PressSource::Mouse(_, _), Some(icon)) => Some(ShellCall::SetCursorIcon(icon)),
        _ => None,
    }
}

impl<'a, S: TkWindow> Manager<'a, S> {
    /// Notify that a widget must be redrawn.
    ///
    /// The whole window is redrawn.
    pub fn redraw(&mut self, id: WidgetId)
        ensures
            final(self).state() == old(self).state(),
            final(self).action() == old(self).action().spec_max(TkAction::Redraw),
            final(self).read_only() == old(self).read_only(),
            final(self).shell() == old(self).shell(),
    {
        let _ = id;
        self.send_action(TkAction::Redraw);
    }

    /// Notify that a toolkit action should happen.
    ///
    /// The window remembers the most severe action that was asked for.
    pub fn send_action(&mut self, action: TkAction)
        ensures
            final(self).state() == old(self).state(),
            final(self).action() == old(self).action().spec_max(action),
            final(self).read_only() == old(self).read_only(),
            final(self).shell() == old(self).shell(),
    {
        self.action = self.action.max(action);
    }

    /// The widget with navigation focus, if any.
    pub fn nav_focus(&self) -> (r: Option<WidgetId>)
        ensures
            r == self.state().nav_focus,
    {
        self.state.nav_focus
    }

    /// Does the widget `id` have character focus?
    pub fn char_focus(&self, id: WidgetId) -> (r: bool)
        ensures
            r == (self.state().char_focus && self.state().sel_focus == Some(id)),
    {
        self.state.char_focus && same_widget(self.state.sel_focus, Some(id))
    }

    /// Gives navigation focus to `id`; the widget is redrawn if it did not
    /// have it.
    pub fn set_nav_focus(&mut self, id: WidgetId)
        ensures
            final(self).state() == old(self).state().set_nav_focus(id),
            final(self).action() == (if old(self).state().nav_focus != Some(id) {
                old(self).action().spec_max(TkAction::Redraw)
            } else {
                old(self).action()
            }),
            final(self).read_only() == old(self).read_only(),
            final(self).shell() == old(self).shell(),
    {
        if !same_widget(self.state.nav_focus, Some(id)) {
            self.redraw(id);
            self.state.nav_focus = Some(id);
        }
    }

    /// Takes navigation focus away; the widget that had it is redrawn.
    pub fn clear_nav_focus(&mut self)
        ensures
            final(self).state() == old(self).state().clear_nav_focus(),
            final(self).action() == (if old(self).state().nav_focus is Some {
                old(self).action().spec_max(TkAction::Redraw)
            } else {
                old(self).action()
            }),
            final(self).read_only() == old(self).read_only(),
            final(self).shell() == old(self).shell(),
    {
        if let Some(id) = self.state.nav_focus {
            self.redraw(id);
        }
        self.state.nav_focus = None;
    }

    /// Sets the widget that receives keyboard commands while no widget has
    /// navigation focus.
    pub fn register_nav_fallback(&mut self, id: WidgetId)
        ensures
            final(self).state() == (StateView {
                nav_fallback: if old(self).state().nav_fallback is Some {
                    old(self).state().nav_fallback
                } else {
                    Some(id)
                },
                ..old(self).state()
            }),
            final(self).action() == old(self).action(),
            final(self).read_only() == old(self).read_only(),
            final(self).shell() == old(self).shell(),
    {
        if self.state.nav_fallback.is_none() {
            self.state.nav_fallback = Some(id);
        }
    }

    /// Moves navigation focus on by one step of Tab traversal: to the next
    /// widget that can have it, or in reverse to the one before, wrapping
    /// around at the ends of the tree.
    ///
    /// Returns `false`, and changes nothing, where no widget can have
    /// navigation focus.
    pub fn next_nav_focus(&mut self, reverse: bool) -> (r: bool)
        requires
            old(self).wf(),
        ensures
            r == old(self).state().next_nav_focus(reverse).nav_focus is Some,
            final(self).state() == (if r {
                old(self).state().next_nav_focus(reverse)
            } else {
                old(self).state()
            }),
            final(self).action() == (if r && old(self).state().next_nav_focus(reverse).nav_focus
                != old(self).state().nav_focus {
                old(self).action().spec_max(TkAction::Redraw)
            } else {
                old(self).action()
            }),
            final(self).read_only() == old(self).read_only(),
            final(self).shell() == old(self).shell(),
            final(self).wf(),
    {
        match self.state.tree.next_nav(self.state.nav_focus, reverse) {
            Some(id) => {
                if !same_widget(self.state.nav_focus, Some(id)) {
                    proof {
                        lemma_action_max_is_join(
                            old(self).action(),
                            TkAction::Redraw,
                            TkAction::Redraw,
                        );
                    }
                    if let Some(old_id) = self.state.nav_focus {
                        self.redraw(old_id);
                    }
                    self.redraw(id);
                    self.state.nav_focus = Some(id);
                }
                true
            },
            None => false,
        }
    }

    /// Asks for character focus: typed characters go to `id` from now on.
    ///
    /// See [`StateView::set_char_focus`].
    pub fn request_char_focus(&mut self, id: WidgetId)
        requires
            old(self).wf(),
        ensures
            final(self).state() == old(self).state().set_char_focus(Some(id)),
            final(self).action() == (if old(self).state().nav_focus != Some(id) {
                old(self).action().spec_max(TkAction::Redraw)
            } else {
                old(self).action()
            }),
            final(self).read_only() == old(self).read_only(),
            final(self).shell() == old(self).shell(),
            final(self).wf(),
    {
        self.set_char_focus(Some(id));
    }

    /// Asks for a grab of the press `source` on the widget `id`: every
    /// later event of the press goes to `id`, as `mode` says.
    ///
    /// Returns whether the grab was given; see [`GrabsView::request_grab`].
    /// A press grab that is given sets the cursor icon `cursor`, if one is
    /// named; the widget is redrawn.
    pub fn request_grab(
        &mut self,
        id: WidgetId,
        source: PressSource,
        coord: Coord,
        mode: GrabMode,
        cursor: Option<CursorIcon>,
    ) -> (r: bool)
        requires
            old(self).wf(),
        ensures
            final(self).state() == (StateView {
                grabs: old(self).state().grabs.request_grab(
                    old(self).read_only(),
                    id,
                    source,
                    coord,
                    mode,
                ).0,
                ..old(self).state()
            }),
            r == old(self).state().grabs.request_grab(
                old(self).read_only(),
                id,
                source,
                coord,
                mode,
            ).1,
            final(self).action() == (if r {
                old(self).action().spec_max(TkAction::Redraw)
            } else {
                old(self).action()
            }),
            final(self).read_only() == old(self).read_only(),
            shell_step(
                old(self).shell(),
                if r {
                    grab_call(source, cursor)
                } else {
                    None
                },
                final(self).shell(),
            ),
            final(self).wf(),
    {
        if self.read_only {
            return false;
        }
        let ghost before = self.state@;
        match source {
            PressSource::Mouse(button, repetitions) => {
                if self.state.mouse_grab.is_some() {
                    return false;
                }
                let pan_grab = match mode {
                    GrabMode::Grab => None,
                    _ => {
                        let r = self.state.set_pan_on(id, mode, false, coord);
                        if r.is_none() {
                            return false;
                        }
                        r
                    },
                };
                let grab = MouseGrab {
                    button,
                    repetitions,
                    start_id: id,
                    depress: Some(id),
                    mode,
                    pan_grab,
                };
                proof {
                    lemma_mouse_grab_added(self.state@.grabs, grab);
                }
                self.state.mouse_grab = Some(grab);
                if let Some(icon) = cursor {
                    self.shell.set_cursor_icon(icon);
                }
            },
            PressSource::Touch(touch_id) => {
                if self.get_touch(touch_id).is_some() {
                    return false;
                }
                let pan_grab = match mode {
                    GrabMode::Grab => None,
                    _ => {
                        let r = self.state.set_pan_on(id, mode, true, coord);
                        if r.is_none() {
                            return false;
                        }
                        r
                    },
                };
                let grab = TouchGrab {
                    start_id: id,
                    depress: Some(id),
                    cur_id: Some(id),
                    coord,
                    mode,
                    pan_grab,
                };
                proof {
                    lemma_touch_grab_added(self.state@.grabs, touch_id, grab);
                }
                let _ = touch_insert(&mut self.state.touch_grab, touch_id, grab);
            },
        }
        self.redraw(id);
        true
    }

    /// Tells the grab of the press `source` which widget to show as
    /// depressed, or that none is; the window is redrawn if that changes.
    /// Returns whether the press holds a grab.
    pub fn set_grab_depress(&mut self, source: PressSource, target: Option<WidgetId>) -> (r: bool)
        requires
            old(self).wf(),
        ensures
            r == (match source {
                PressSource::Mouse(_, _) => old(self).state().grabs.mouse_grab is Some,
                PressSource::Touch(id) => old(self).state().grabs.touch_grab.contains_key(id),
            }),
            final(self).state() == (StateView {
                grabs: old(self).state().grabs.set_depress(source, target),
                ..old(self).state()
            }),
            final(self).action() == (if r && old(self).state().grabs.depressed_by(source)
                != target {
                old(self).action().spec_max(TkAction::Redraw)
            } else {
                old(self).action()
            }),
            final(self).read_only() == old(self).read_only(),
            final(self).shell() == old(self).shell(),
            final(self).wf(),
    {
        proof {
            lemma_set_depress_wf(old(self).state().grabs, source, target);
        }
        match source {
            PressSource::Mouse(_, _) => {
                match self.state.mouse_grab {
                    Some(grab) => {
                        if !same_widget(grab.depress, target) {
                            self.redraw(grab.start_id);
                        }
                        self.state.mouse_grab = Some(
                            MouseGrab {
                                button: grab.button,
                                repetitions: grab.repetitions,
                                start_id: grab.start_id,
                                depress: target,
                                mode: grab.mode,
                                pan_grab: grab.pan_grab,
                            },
                        );
                        true
                    },
                    None => false,
                }
            },
            PressSource::Touch(id) => {
                match self.get_touch(id) {
                    Some(grab) => {
                        if !same_widget(grab.depress, target) {
                            self.redraw(grab.start_id);
                        }
                        let _ = touch_insert(
                            &mut self.state.touch_grab,
                            id,
                            TouchGrab {
                                start_id: grab.start_id,
                                depress: target,
                                cur_id: grab.cur_id,
                                coord: grab.coord,
                                mode: grab.mode,
                                pan_grab: grab.pan_grab,
                            },
                        );
                        true
                    },
                    None => {
                        proof {
                            assert(self.state().grabs.touch_grab =~= old(
                                self,
                            ).state().grabs.touch_grab);
                        }
                        false
                    },
                }
            },
        }
    }

    /// Opens a pop-up.
    ///
    /// The toolkit is asked to show it; where it does, the pop-up goes on
    /// top of the stack, its widget is told once the event in progress has
    /// been handled, and navigation focus is given up. Returns the handle
    /// that the toolkit gave the pop-up.
    pub fn add_popup(&mut self, popup: Popup) -> (r: Option<WindowId>)
        requires
            old(self).wf(),
        ensures
            final(self).state() == (match r {
                Some(id) => old(self).state().add_popup(id, popup),
                None => old(self).state(),
            }),
            final(self).action() == old(self).action(),
            final(self).read_only() == old(self).read_only(),
            shell_told(old(self).shell(), ShellCall::AddPopup(popup, r), final(self).shell()),
            final(self).wf(),
    {
        let r = self.shell.add_popup(popup);
        if let Some(id) = r {
            pending_push(&mut self.state.pending, Pending::NewPopup(popup.id));
            popup_push(&mut self.state.popups, (id, popup));
            self.state.nav_focus = None;
        }
        r
    }

    /// Closes the window or pop-up with the handle `id`.
    ///
    /// A pop-up leaves the stack, and the widget that opened it is told once
    /// the event in progress has been handled. The toolkit is asked to close
    /// the window in either case.
    pub fn close_window(&mut self, id: WindowId)
        requires
            old(self).wf(),
        ensures
            final(self).state() == old(self).state().close_window(id),
            final(self).action() == old(self).action(),
            final(self).read_only() == old(self).read_only(),
            shell_told(old(self).shell(), ShellCall::CloseWindow(id), final(self).shell()),
            final(self).wf(),
    {
        if let Some(i) = self.state.find_popup(id) {
            let popup = popup_remove(&mut self.state.popups, i);
            pending_push(&mut self.state.pending, Pending::PopupRemoved(popup.1.parent, id));
        }
        self.shell.close_window(id);
    }

    /// Closes the topmost `n` pop-ups, topmost first, or all where fewer are
    /// open.
    ///
    /// Each leaves the stack, the toolkit is asked to close it, and the
    /// widget that opened it is told once the event in progress has been
    /// handled.
    pub fn close_popups(&mut self, n: usize)
        requires
            old(self).wf(),
        ensures
            final(self).state() == old(self).state().close_popups(n as nat),
            final(self).action() == old(self).action(),
            final(self).read_only() == old(self).read_only(),
            shell_calls(
                old(self).shell(),
                old(self).state().closing_calls(n as nat),
                final(self).shell(),
            ),
            final(self).wf(),
    {
        let mut left = n;
        let ghost calls = old(self).state().closing_calls(n as nat);
        let ghost open = old(self).state().popups;
        proof {
            assert(calls.take(0) =~= Seq::<ShellCall>::empty());
            assert(open.take(open.len() as int) =~= open);
        }
        while left > 0 && popup_len(&self.state.popups) > 0
            invariant
                self.wf(),
                self.state().close_popups(left as nat) == old(self).state().close_popups(n as nat),
                self.action() == old(self).action(),
                self.read_only() == old(self).read_only(),
                calls == old(self).state().closing_calls(n as nat),
                open == old(self).state().popups,
                left <= n,
                n - left <= open.len(),
                self.state().popups == open.take(open.len() - (n - left)),
                shell_calls(old(self).shell(), calls.take(n - left), self.shell()),
            decreases left,
        {
            let ghost before = self.state@;
            let ghost shell = *self.shell;
            let top = popup_pop(&mut self.state.popups).unwrap();
            pending_push(&mut self.state.pending, Pending::PopupRemoved(top.1.parent, top.0));
            self.shell.close_window(top.0);
            proof {
                assert(self.state@.popups =~= before.popups.drop_last());
                assert(self.state@.popups =~= open.take(open.len() - (n - left) - 1));
                let told = calls.take(n - left + 1);
                assert(told.drop_last() =~= calls.take(n - left));
                assert(told.last() == ShellCall::CloseWindow(top.0));
                assert(shell_calls(old(self).shell(), told.drop_last(), shell) && shell_told(
                    shell,
                    told.last(),
                    *self.shell,
                ));
            }
            left = left - 1;
        }
        proof {
            assert(calls.take(n - left) =~= calls);
        }
    }

    /// Closes the topmost pop-up, if one is open.
    pub fn close_top_popup(&mut self)
        requires
            old(self).wf(),
        ensures
            final(self).state() == old(self).state().close_popups(1),
            final(self).action() == old(self).action(),
            final(self).read_only() == old(self).read_only(),
            shell_step(
                old(self).shell(),
                if old(self).state().popups.len() > 0 {
                    Some(ShellCall::CloseWindow(old(self).state().popups.last().0))
                } else {
                    None
                },
                final(self).shell(),
            ),
            final(self).wf(),
    {
        let ghost before = self.state@;
        if let Some(top) = popup_pop(&mut self.state.popups) {
            pending_push(&mut self.state.pending, Pending::PopupRemoved(top.1.parent, top.0));
            self.shell.close_window(top.0);
            proof {
                assert(self.state@.popups =~= before.popups.drop_last());
            }
        }
        proof {
            reveal_with_fuel(StateView::close_popups, 3);
        }
    }

    /// Begins a new layer of accelerator keys. `alt_bypass` says whether the
    /// keys of the layer work without the alt key held.
    pub fn push_accel_layer(&mut self, alt_bypass: bool)
        ensures
            final(self).state() == old(self).state().push_accel_layer(alt_bypass),
            final(self).action() == old(self).action(),
            final(self).read_only() == old(self).read_only(),
            final(self).shell() == old(self).shell(),
    {
        self.state.accel_stack.push(AccelLayer { alt_bypass, keys: HashMap::new() });
        proof {
            assert(self.state@.accel_stack =~= old(self).state().push_accel_layer(
                alt_bypass,
            ).accel_stack);
        }
    }

    /// Finishes the layer of accelerator keys begun last and gives it to the
    /// widget `id`: the root of the window or the parent of a pop-up.
    pub fn pop_accel_layer(&mut self, id: WidgetId)
        ensures
            final(self).state() == old(self).state().pop_accel_layer(id),
            final(self).action() == old(self).action(),
            final(self).read_only() == old(self).read_only(),
            final(self).shell() == old(self).shell(),
    {
        if let Some(layer) = self.state.accel_stack.pop() {
            self.state.accel_layers.insert(id, layer);
            proof {
                assert(self.state@.accel_stack =~= old(self).state().pop_accel_layer(
                    id,
                ).accel_stack);
                assert(self.state@.accel_layers =~= old(self).state().pop_accel_layer(
                    id,
                ).accel_layers);
            }
        } else {
            proof {
                assert(self.state@.accel_stack =~= old(self).state().accel_stack);
            }
        }
    }

    /// Adds accelerator keys for the widget `id` to the layer begun last.
    ///
    /// A key that the layer binds already keeps its widget.
    pub fn add_accel_keys(&mut self, id: WidgetId, keys: &[VirtualKeyCode])
        ensures
            final(self).state() == old(self).state().add_accel_keys(id, keys@),
            final(self).action() == old(self).action(),
            final(self).read_only() == old(self).read_only(),
            final(self).shell() == old(self).shell(),
    {
        let ghost before = self.state@;
        if let Some(layer) = self.state.accel_stack.pop() {
            let mut layer = layer;
            let ghost bound = layer.keys@;
            let mut i: usize = 0;
            proof {
                if keys@.len() > 0 {
                    lemma_bind_keys_step(bound, id, keys@, 0);
                } else {
                    assert forall|c: u32| !key_among(keys@.take(0), c) by {}
                    assert(bind_keys(bound, id, keys@.take(0)) =~= bound);
                }
            }
            while i < keys.len()
                invariant
                    0 <= i <= keys@.len(),
                    layer.keys@ == bind_keys(bound, id, keys@.take(i as int)),
                    layer.alt_bypass == before.accel_stack.last().alt_bypass,
                decreases keys@.len() - i,
            {
                let code = keys[i].code();
                proof {
                    lemma_bind_keys_step(bound, id, keys@, i as int);
                }
                if !layer.keys.contains_key(&code) {
                    layer.keys.insert(code, id);
                }
                i = i + 1;
            }
            proof {
                assert(keys@.take(keys@.len() as int) =~= keys@);
            }
            self.state.accel_stack.push(layer);
            proof {
                assert(self.state@.accel_stack =~= before.add_accel_keys(id, keys@).accel_stack);
            }
        } else {
            proof {
                assert(self.state@.accel_stack =~= before.accel_stack);
            }
        }
    }

    /// Schedules an update of the widget `id` for the instant `due`; with
    /// an `interval`, the update repeats. An interval of zero does not repeat.
    pub fn update_on_timer(&mut self, due: u64, id: WidgetId, interval: Option<u64>)
        requires
            old(self).wf(),
        ensures
            final(self).state() == old(self).state().update_on_timer(due, id, interval),
            final(self).action() == old(self).action(),
            final(self).read_only() == old(self).read_only(),
            final(self).shell() == old(self).shell(),
            final(self).wf(),
    {
        let interval = match interval {
            Some(0) => None,
            other => other,
        };
        self.state.time_updates.push(TimerEntry { due, id, interval });
    }

    /// Subscribe the widget `id` to updates of `handle`.
    ///
    /// The widget is notified once, when the handle is next triggered.
    pub fn update_on_handle(&mut self, handle: UpdateHandle, id: WidgetId)
        ensures
            final(self).state() == old(self).state().update_on_handle(handle, id),
            final(self).action() == old(self).action(),
            final(self).read_only() == old(self).read_only(),
            final(self).shell() == old(self).shell(),
    {
        let ghost before = self.state@;
        let mut set = match self.state.handle_updates.remove(&handle) {
            Some(set) => set,
            None => set_new(),
        };
        let _ = set_insert(&mut set, id);
        self.state.handle_updates.insert(handle, set);
        proof {
            assert(self.state@.handle_updates =~= before.update_on_handle(
                handle,
                id,
            ).handle_updates);
        }
    }

    /// Attempt to get clipboard contents, from the toolkit.
    pub fn get_clipboard(&mut self) -> (r: Option<String>)
        ensures
            final(self).state() == old(self).state(),
            final(self).action() == old(self).action(),
            final(self).read_only() == old(self).read_only(),
            shell_told(old(self).shell(), ShellCall::GetClipboard(text_of(r)), final(self).shell()),
    {
        self.shell.get_clipboard()
    }

    /// Attempt to set clipboard contents, through the toolkit.
    pub fn set_clipboard(&mut self, content: String)
        ensures
            final(self).state() == old(self).state(),
            final(self).action() == old(self).action(),
            final(self).read_only() == old(self).read_only(),
            shell_told(old(self).shell(), ShellCall::SetClipboard(content@), final(self).shell()),
    {
        self.shell.set_clipboard(content);
    }
}

} // verus!
