//! Focus, pop-ups and key routing, as functions on [`StateView`].

use vstd::prelude::*;
use crate::event::manager::{AccelView, Pending, StateView, TimerEntry};
use crate::event::tree::{has_widget, icon_over, nav_successor, node_of};
use crate::event::{
    Command, Event, Popup, Response, UpdateHandle, VirtualKeyCode, WidgetId, WindowId,
};

verus! {

/// Where a key press goes
#[derive(Clone, Copy, Debug, PartialEq, Eq)]
pub enum KeyRoute {
    /// To the widget with character focus, as the command that the key
    /// stands for, if it stands for one
    CharFocus { id: WidgetId, command: Option<Command> },
    /// To Tab traversal
    Tab,
    /// To the widget `id`, as `event`, after the topmost `close` pop-ups
    /// have been closed
    Dispatch { id: WidgetId, event: Event, close: usize },
    /// Nowhere
    Unbound,
}

/// Does the key activate the widget with navigation focus?
pub open spec fn is_activation_key(vkey: VirtualKeyCode) -> bool {
    vkey == VirtualKeyCode::Space || vkey == VirtualKeyCode::Return || vkey
        == VirtualKeyCode::NumpadEnter
}

/// Does some scan code in `keys` show the widget `id` as depressed?
pub open spec fn depresses(keys: Map<u32, WidgetId>, id: WidgetId) -> bool {
    exists|scancode: u32| #[trigger] keys.contains_key(scancode) && keys[scancode] == id
}

impl StateView {
    /// The state after navigation focus has moved to `id`.
    pub open spec fn set_nav_focus(self, id: WidgetId) -> StateView {
        StateView { nav_focus: Some(id), ..self }
    }

    /// The state after navigation focus has been given up.
    pub open spec fn clear_nav_focus(self) -> StateView {
        StateView { nav_focus: None, ..self }
    }

    /// The state after character focus has been given to `wid`, or taken
    /// from whoever has it (`None`).
    ///
    /// - A widget that receives character focus receives navigation and
    ///   selection focus with it.
    /// - The widget that had selection focus, if it is another one, is told
    ///   that it has lost character focus, where it had it, and that it has
    ///   lost selection focus, where another widget now has it. Both
    ///   notifications wait until the event in progress has been handled.
    pub open spec fn set_char_focus(self, wid: Option<WidgetId>) -> StateView {
        let v = match wid {
            Some(id) => self.set_nav_focus(id),
            None => self,
        };
        if self.sel_focus == wid {
            StateView { char_focus: wid is Some, ..v }
        } else {
            let lost_char = match self.sel_focus {
                Some(old) => if self.char_focus {
                    v.pending.push(Pending::LostCharFocus(old))
                } else {
                    v.pending
                },
                None => v.pending,
            };
            match wid {
                Some(id) => StateView {
                    char_focus: true,
                    sel_focus: Some(id),
                    pending: match self.sel_focus {
                        Some(old) => lost_char.push(Pending::LostSelFocus(old)),
                        None => lost_char,
                    },
                    ..v
                },
                None => StateView { char_focus: false, pending: lost_char, ..v },
            }
        }
    }

    /// The state after the mouse pointer has come over `w_id` (`None`: over
    /// no widget): the hovered widget and the icon it asks for.
    pub open spec fn set_hover(self, w_id: Option<WidgetId>) -> StateView {
        match w_id {
            Some(id) => StateView { hover: w_id, hover_icon: icon_over(self.tree, id), ..self },
            None => StateView { hover: w_id, ..self },
        }
    }

    /// Does a change of the hovered widget to `w_id` call for a redraw? It
    /// does where the widget left or the widget entered is drawn differently
    /// under the pointer.
    pub open spec fn hover_redraws(self, w_id: Option<WidgetId>) -> bool {
        self.hover != w_id && ((self.hover matches Some(id) && has_widget(self.tree, id) && node_of(
            self.tree,
            id,
        ).hover_highlight) || (w_id matches Some(id) && has_widget(self.tree, id) && node_of(
            self.tree,
            id,
        ).hover_highlight))
    }

    /// The index of the first pop-up at or behind `from` with handle `id`.
    pub open spec fn find_popup_from(self, id: WindowId, from: int) -> Option<int>
        decreases self.popups.len() - from,
    {
        if from < 0 || from >= self.popups.len() {
            None
        } else if self.popups[from].0 == id {
            Some(from)
        } else {
            self.find_popup_from(id, from + 1)
        }
    }

    /// The state after the window with handle `id` has been closed: where it
    /// is a pop-up, it leaves the stack, and a notification for the widget
    /// that opened it is queued.
    pub open spec fn close_window(self, id: WindowId) -> StateView {
        match self.find_popup_from(id, 0) {
            Some(i) => StateView {
                popups: self.popups.remove(i),
                pending: self.pending.push(Pending::PopupRemoved(self.popups[i].1.parent, id)),
                ..self
            },
            None => self,
        }
    }

    /// The state after the topmost `n` pop-ups have been closed, topmost
    /// first: each leaves the stack, and a notification for the widget that
    /// opened it is queued.
    pub open spec fn close_popups(self, n: nat) -> StateView
        decreases n,
    {
        if n == 0 || self.popups.len() == 0 {
            self
        } else {
            let top = self.popups.last();
            (StateView {
                popups: self.popups.drop_last(),
                pending: self.pending.push(Pending::PopupRemoved(top.1.parent, top.0)),
                ..self
            }).close_popups((n - 1) as nat)
        }
    }

    /// The state after a pop-up has been opened with the handle `id`.
    pub open spec fn add_popup(self, id: WindowId, popup: Popup) -> StateView {
        StateView {
            popups: self.popups.push((id, popup)),
            pending: self.pending.push(Pending::NewPopup(popup.id)),
            nav_focus: None,
            ..self
        }
    }

    /// The widget that owns the accelerator layer at depth `i`: the parent
    /// of the pop-up `i` below the topmost, or `root` behind the last pop-up.
    pub open spec fn accel_owner(self, root: WidgetId, i: int) -> WidgetId {
        if 0 <= i < self.popups.len() {
            self.popups[self.popups.len() - 1 - i].1.parent
        } else {
            root
        }
    }

    /// The widget that the key with `code` activates in the layer at depth
    /// `i`, if that layer binds the key and may be used: a layer may be used
    /// while alt is held, or if it says so itself.
    pub open spec fn accel_hit(self, root: WidgetId, code: u32, i: int) -> Option<WidgetId> {
        let owner = self.accel_owner(root, i);
        if self.accel_layers.contains_key(owner) && (self.modifiers.alt
            || self.accel_layers[owner].alt_bypass) && self.accel_layers[owner].keys.contains_key(
            code,
        ) {
            Some(self.accel_layers[owner].keys[code])
        } else {
            None
        }
    }

    /// The first layer at depth `from` or deeper in which the key with `code`
    /// activates a widget, and that widget.
    pub open spec fn accel_search(self, root: WidgetId, code: u32, from: int) -> Option<
        (int, WidgetId),
    >
        decreases self.popups.len() + 1 - from,
    {
        if from < 0 || from > self.popups.len() {
            None
        } else {
            match self.accel_hit(root, code, from) {
                Some(target) => Some((from, target)),
                None => self.accel_search(root, code, from + 1),
            }
        }
    }

    /// The widget that a key press reaches directly, and as what event:
    /// unless alt is held, the widget with navigation focus is activated by
    /// space and return and receives the command that any other key stands
    /// for; where no widget has navigation focus, a command goes to the parent
    /// of the topmost pop-up, or else to the navigation fallback.
    pub open spec fn direct_target(self, vkey: VirtualKeyCode) -> Option<(WidgetId, Event)> {
        let command = Command::spec_lookup(self.modifiers, vkey);
        let shift = self.modifiers.shift;
        if self.modifiers.alt {
            None
        } else if self.nav_focus is Some && is_activation_key(vkey) {
            Some((self.nav_focus->0, Event::Activate))
        } else if self.nav_focus is Some && command is Some {
            Some((self.nav_focus->0, Event::Command(command->0, shift)))
        } else if command is Some && self.popups.len() > 0 {
            Some((self.popups.last().1.parent, Event::Command(command->0, shift)))
        } else if command is Some && self.nav_fallback is Some {
            Some((self.nav_fallback->0, Event::Command(command->0, shift)))
        } else {
            None
        }
    }

    /// Where a press of `vkey` goes, in order of priority:
    ///
    /// 1. to the widget with character focus;
    /// 2. the Tab key, to Tab traversal;
    /// 3. to the widget that the key reaches directly
    ///    (see [`StateView::direct_target`]);
    /// 4. to the widget that the key activates in the topmost accelerator
    ///    layer that binds it, from the topmost pop-up down to `root`; the
    ///    pop-ups above that layer are closed.
    pub open spec fn key_route(self, root: WidgetId, vkey: VirtualKeyCode) -> KeyRoute {
        if self.char_focus && self.sel_focus is Some {
            KeyRoute::CharFocus {
                id: self.sel_focus->0,
                command: Command::spec_lookup(self.modifiers, vkey),
            }
        } else if vkey == VirtualKeyCode::Tab {
            KeyRoute::Tab
        } else {
            match self.direct_target(vkey) {
                Some((id, event)) => KeyRoute::Dispatch { id, event, close: 0 },
                None => match self.accel_search(root, vkey.spec_code(), 0) {
                    Some((n, id)) => KeyRoute::Dispatch {
                        id,
                        event: Event::Activate,
                        close: n as usize,
                    },
                    None => KeyRoute::Unbound,
                },
            }
        }
    }

    /// Does a press of `vkey` reach no widget and change nothing? It does
    /// where the key is bound nowhere, and where the widget with character
    /// focus would receive it but the key stands for no command.
    pub open spec fn key_unheard(self, vkey: VirtualKeyCode) -> bool {
        match self.key_route(crate::event::FIRST_ID, vkey) {
            KeyRoute::Unbound => true,
            KeyRoute::CharFocus { command, .. } => command is None,
            _ => false,
        }
    }

    /// Is a widget shown as depressed by some key?
    pub open spec fn key_depresses(self, id: WidgetId) -> bool {
        depresses(self.key_depress, id)
    }

    /// The state after a key press that was delivered to `id` has been
    /// answered with `response`.
    ///
    /// - An Escape key that nobody handled closes the topmost pop-up or,
    ///   where none is open, gives up navigation focus.
    /// - A key that activated the widget shows it as depressed, under the
    ///   key's scan code, unless another key does so already.
    pub open spec fn key_sent(
        self,
        vkey: VirtualKeyCode,
        scancode: u32,
        id: WidgetId,
        is_activate: bool,
        response: Response,
    ) -> StateView {
        let v = if response == Response::Unhandled && vkey == VirtualKeyCode::Escape {
            if self.popups.len() > 0 {
                self.close_popups(1)
            } else {
                self.clear_nav_focus()
            }
        } else {
            self
        };
        if is_activate && !v.key_depresses(id) {
            StateView { key_depress: v.key_depress.insert(scancode, id), ..v }
        } else {
            v
        }
    }

    /// Does the answer to a key press call for a redraw? It does where
    /// navigation focus is given up and where a widget is newly shown as
    /// depressed.
    pub open spec fn key_sent_redraws(
        self,
        vkey: VirtualKeyCode,
        id: WidgetId,
        is_activate: bool,
        response: Response,
    ) -> bool {
        ||| (response == Response::Unhandled && vkey == VirtualKeyCode::Escape
            && self.popups.len() == 0 && self.nav_focus is Some)
        ||| (is_activate && !self.key_depresses(id))
    }

    /// The state after a new layer of accelerator keys has been begun.
    pub open spec fn push_accel_layer(self, alt_bypass: bool) -> StateView {
        StateView {
            accel_stack: self.accel_stack.push(AccelView { alt_bypass, keys: Map::empty() }),
            ..self
        }
    }

    /// The state after the layer of accelerator keys begun last has been
    /// finished and given to the widget `id`; nothing changes where no layer
    /// has been begun.
    pub open spec fn pop_accel_layer(self, id: WidgetId) -> StateView {
        if self.accel_stack.len() > 0 {
            StateView {
                accel_stack: self.accel_stack.drop_last(),
                accel_layers: self.accel_layers.insert(id, self.accel_stack.last()),
                ..self
            }
        } else {
            self
        }
    }

    /// The state after `keys` have been bound to the widget `id` in the
    /// layer begun last; nothing changes where no layer has been begun.
    pub open spec fn add_accel_keys(self, id: WidgetId, keys: Seq<VirtualKeyCode>) -> StateView {
        if self.accel_stack.len() > 0 {
            let layer = self.accel_stack.last();
            StateView {
                accel_stack: self.accel_stack.drop_last().push(
                    AccelView { keys: bind_keys(layer.keys, id, keys), ..layer },
                ),
                ..self
            }
        } else {
            self
        }
    }

    /// The state after an update of the widget `id` has been scheduled for
    /// the instant `due`, to be repeated every `interval` where one is
    /// given. An interval of zero does not repeat.
    pub open spec fn update_on_timer(self, due: u64, id: WidgetId, interval: Option<u64>)
        -> StateView {
        StateView {
            time_updates: self.time_updates.push(
                TimerEntry {
                    due,
                    id,
                    interval: if interval == Some(0u64) {
                        None
                    } else {
                        interval
                    },
                },
            ),
            ..self
        }
    }

    /// The widgets that wait on `handle`.
    pub open spec fn waiting_on(self, handle: UpdateHandle) -> Set<WidgetId> {
        if self.handle_updates.contains_key(handle) {
            self.handle_updates[handle]
        } else {
            Set::empty()
        }
    }

    /// The state after the widget `id` has begun to wait on `handle`.
    pub open spec fn update_on_handle(self, handle: UpdateHandle, id: WidgetId) -> StateView {
        StateView {
            handle_updates: self.handle_updates.insert(handle, self.waiting_on(handle).insert(id)),
            ..self
        }
    }

    /// The state after navigation focus has moved on by one step of Tab
    /// traversal; it is given up where no widget can have it.
    pub open spec fn next_nav_focus(self, reverse: bool) -> StateView {
        StateView { nav_focus: nav_successor(self.tree, self.nav_focus, reverse), ..self }
    }
}

/// The bindings of a layer after `keys` have been bound to `id`: a key that
/// the layer binds already keeps its widget.
pub open spec fn bind_keys(bound: Map<u32, WidgetId>, id: WidgetId, keys: Seq<VirtualKeyCode>)
    -> Map<u32, WidgetId> {
    Map::new(
        |code: u32| bound.contains_key(code) || key_among(keys, code),
        |code: u32|
            if bound.contains_key(code) {
                bound[code]
            } else {
                id
            },
    )
}

/// Is `code` the code of one of `keys`?
pub open spec fn key_among(keys: Seq<VirtualKeyCode>, code: u32) -> bool {
    exists|i: int| 0 <= i < keys.len() && (#[trigger] keys[i]).spec_code() == code
}

/// The instant at which an update that was due at `due` and repeats every
/// `interval` is due next, seen from `now`: the first of the instants `due +
/// interval`, `due + 2 * interval`, ... that lies behind `now`.
pub open spec fn next_due(due: u64, interval: u64, now: u64) -> int {
    due + ((now - due) / (interval as int) + 1) * interval
}

/// What becomes of a scheduled update when the clock shows `now`: one that
/// is not due stays; one that is due and does not repeat goes; one that
/// repeats is due again at the next instant behind `now` (see [`next_due`]),
/// and goes where that instant cannot be represented.
pub open spec fn reschedule_entry(entry: TimerEntry, now: u64) -> Option<TimerEntry> {
    if entry.due > now {
        Some(entry)
    } else {
        match entry.interval {
            Some(interval) => if interval > 0 && next_due(entry.due, interval, now) <= u64::MAX {
                Some(TimerEntry { due: next_due(entry.due, interval, now) as u64, ..entry })
            } else {
                None
            },
            None => None,
        }
    }
}

/// The scheduled updates once the clock shows `now`; see
/// [`reschedule_entry`].
pub open spec fn reschedule(timers: Seq<TimerEntry>, now: u64) -> Seq<TimerEntry>
    decreases timers.len(),
{
    if timers.len() == 0 {
        Seq::empty()
    } else {
        let rest = reschedule(timers.drop_last(), now);
        match reschedule_entry(timers.last(), now) {
            Some(entry) => rest.push(entry),
            None => rest,
        }
    }
}

/// The widgets whose update is due when the clock shows `now`, in the order
/// in which the updates were scheduled.
pub open spec fn due_widgets(timers: Seq<TimerEntry>, now: u64) -> Seq<WidgetId>
    decreases timers.len(),
{
    if timers.len() == 0 {
        Seq::empty()
    } else {
        let rest = due_widgets(timers.drop_last(), now);
        if timers.last().due <= now {
            rest.push(timers.last().id)
        } else {
            rest
        }
    }
}

/// Is `t` the earliest instant at which one of `timers` is due?
pub open spec fn is_earliest(timers: Seq<TimerEntry>, t: u64) -> bool {
    &&& exists|i: int| 0 <= i < timers.len() && (#[trigger] timers[i]).due == t
    &&& forall|i: int| 0 <= i < timers.len() ==> t <= (#[trigger] timers[i]).due
}

/// The instant that [`next_due`] names is the first behind `now` that is a
/// whole number of intervals after `due`: the result of advancing `due` by
/// `interval` until it lies in the future.
pub proof fn lemma_next_due(due: u64, interval: u64, now: u64)
    requires
        due <= now,
        interval > 0,
    ensures
        next_due(due, interval, now) > now,
        next_due(due, interval, now) - interval <= now,
        next_due(due, interval, now) >= due + interval,
        (next_due(due, interval, now) - due) % (interval as int) == 0,
{
    let d = interval as int;
    let x = now - due;
    let q = x / d;
    assert(x == d * q + x % d && 0 <= x % d < d) by {
        vstd::arithmetic::div_mod::lemma_fundamental_div_mod(x, d);
        vstd::arithmetic::div_mod::lemma_mod_bound(x, d);
    }
    assert((q + 1) * d == q * d + d) by (nonlinear_arith);
    assert(q * d == d * q) by (nonlinear_arith);
    assert(q >= 0) by {
        vstd::arithmetic::div_mod::lemma_div_pos_is_pos(x, d);
    }
    assert((q + 1) * d >= d) by (nonlinear_arith)
        requires
            q >= 0,
            d > 0,
    ;
    assert(((q + 1) * d) % d == 0) by {
        vstd::arithmetic::div_mod::lemma_mod_multiples_basic(q + 1, d);
    }
}

/// Binding one more key: the bindings for the first `i + 1` of `keys` are
/// those for the first `i`, with the key at `i` bound to `id` unless it is
/// bound already.
pub proof fn lemma_bind_keys_step(
    bound: Map<u32, WidgetId>,
    id: WidgetId,
    keys: Seq<VirtualKeyCode>,
    i: int,
)
    requires
        0 <= i < keys.len(),
    ensures
        bind_keys(bound, id, keys.take(i + 1)) == (if bind_keys(
            bound,
            id,
            keys.take(i),
        ).contains_key(keys[i].spec_code()) {
            bind_keys(bound, id, keys.take(i))
        } else {
            bind_keys(bound, id, keys.take(i)).insert(keys[i].spec_code(), id)
        }),
        bind_keys(bound, id, keys.take(0)) == bound,
{
    let before = bind_keys(bound, id, keys.take(i));
    let after = bind_keys(bound, id, keys.take(i + 1));
    let code = keys[i].spec_code();
    let step = if before.contains_key(code) {
        before
    } else {
        before.insert(code, id)
    };
    assert forall|c: u32| after.contains_key(c) == step.contains_key(c) by {
        if key_among(keys.take(i + 1), c) {
            let j = choose|j: int|
                0 <= j < keys.take(i + 1).len() && (#[trigger] keys.take(i + 1)[j]).spec_code()
                    == c;
            if j < i {
                assert(keys.take(i)[j].spec_code() == c);
            }
        }
        if key_among(keys.take(i), c) {
            let j = choose|j: int|
                0 <= j < keys.take(i).len() && (#[trigger] keys.take(i)[j]).spec_code() == c;
            assert(keys.take(i + 1)[j].spec_code() == c);
        }
        if c == code {
            assert(keys.take(i + 1)[i].spec_code() == c);
        }
    }
    assert(after =~= step);
    assert forall|c: u32| !key_among(keys.take(0), c) by {}
    assert(bind_keys(bound, id, keys.take(0)) =~= bound);
}

/// Once the clock shows `now`, no scheduled update is due at `now` or
/// before: those that were have fired, and those of them that repeat are
/// due again in the future. Updates that were not due are kept as they were.
pub proof fn lemma_reschedule_future(timers: Seq<TimerEntry>, now: u64)
    ensures
        forall|i: int|
            0 <= i < reschedule(timers, now).len() ==> (#[trigger] reschedule(timers, now)[i]).due
                > now,
        reschedule(timers, now).len() <= timers.len(),
        due_widgets(timers, now).len() <= timers.len(),
        due_widgets(timers, now).len() == 0 ==> reschedule(timers, now) == timers,
    decreases timers.len(),
{
    if timers.len() > 0 {
        let rest = timers.drop_last();
        let last = timers.last();
        lemma_reschedule_future(rest, now);
        if last.due <= now {
            if let Some(interval) = last.interval {
                if interval > 0 {
                    lemma_next_due(last.due, interval, now);
                }
            }
        }
        if due_widgets(timers, now).len() == 0 {
            assert(reschedule(timers, now) =~= timers);
        }
    }
}

/// What the search through the accelerator layers finds is the topmost
/// layer, at depth `from` or deeper, that binds the key and may be used;
/// where it finds none, there is none.
pub proof fn lemma_accel_search(v: StateView, root: WidgetId, code: u32, from: int)
    requires
        0 <= from,
    ensures
        match v.accel_search(root, code, from) {
            Some((n, id)) => {
                &&& from <= n <= v.popups.len()
                &&& v.accel_hit(root, code, n) == Some(id)
                &&& forall|i: int| from <= i < n ==> #[trigger] v.accel_hit(root, code, i) is None
            },
            None => forall|i: int|
                from <= i <= v.popups.len() ==> #[trigger] v.accel_hit(root, code, i) is None,
        },
    decreases v.popups.len() + 1 - from,
{
    if from <= v.popups.len() && v.accel_hit(root, code, from) is None {
        lemma_accel_search(v, root, code, from + 1);
    }
}

/// Closing pop-ups changes the stack of pop-ups and the queue of
/// notifications and nothing else: the topmost `n` pop-ups leave (all, where
/// fewer are open), and the queue grows by one notification for each.
pub proof fn lemma_close_popups(v: StateView, n: nat)
    ensures
        v.close_popups(n) == (StateView {
            popups: v.close_popups(n).popups,
            pending: v.close_popups(n).pending,
            ..v
        }),
        v.close_popups(n).popups == v.popups.take(
            if n <= v.popups.len() {
                v.popups.len() - n
            } else {
                0
            },
        ),
        v.close_popups(n).pending.len() == v.pending.len() + (if n <= v.popups.len() {
            n
        } else {
            v.popups.len()
        }),
    decreases n,
{
    if n == 0 || v.popups.len() == 0 {
        if n == 0 {
            assert(v.popups.take(v.popups.len() as int) =~= v.popups);
        } else {
            assert(v.popups.take(0) =~= v.popups);
        }
    } else {
        let top = v.popups.last();
        let w = StateView {
            popups: v.popups.drop_last(),
            pending: v.pending.push(Pending::PopupRemoved(top.1.parent, top.0)),
            ..v
        };
        lemma_close_popups(w, (n - 1) as nat);
        let m: int = if n <= v.popups.len() {
            v.popups.len() - n
        } else {
            0
        };
        assert(w.popups.take(m) =~= v.popups.take(m));
    }
}

} // verus!
