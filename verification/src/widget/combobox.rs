//! Combobox

use vstd::prelude::*;
use crate::event::handler::Widget;
use crate::event::configure::{child_depth, ConfigView};
use crate::event::manager::{ConfigureManager, Manager, ManagerView};
use crate::event::{CursorIcon, Direction, Event, Popup, Response, WidgetId, WindowId};
use crate::geom::Coord;
use crate::toolkit::{
    lemma_step_calls, shell_calls, shell_step, shell_told, step_calls, ShellCall, TkAction,
    TkWindow,
};
use crate::widget::button::{button_configured, ButtonView, TextButton};

verus! {

/// A pop-up multiple choice menu
///
/// A combobox presents a menu with a fixed set of choices when activated.
/// Each choice has a message, with which the combobox answers when the choice
/// is selected.
pub struct ComboBox {
    id: WidgetId,
    popup: WidgetId,
    choices: Vec<TextButton>,
    messages: Vec<u64>,
    active: usize,
    popup_id: Option<WindowId>,
}

/// The content of a [`ComboBox`]
pub struct ComboView {
    /// The identifier of the combobox; `0` before it is configured
    pub id: WidgetId,
    /// The identifier of the menu that pops up
    pub popup: WidgetId,
    /// The choices, as buttons, in order
    pub choices: Seq<ButtonView>,
    /// The identifiers of the choices, in order: those of `choices`
    pub choice_ids: Seq<WidgetId>,
    /// The labels of the choices, in order: those of `choices`
    pub labels: Seq<Seq<char>>,
    /// The messages of the choices, in order
    pub messages: Seq<u64>,
    /// The position of the choice that is shown
    pub active: int,
    /// The handle of the pop-up, while the menu is shown
    pub popup_id: Option<WindowId>,
}

/// The position of the first choice at or behind `from` with the
/// identifier `id`.
pub open spec fn find_choice_from(ids: Seq<WidgetId>, id: WidgetId, from: int) -> Option<int>
    decreases ids.len() - from,
{
    if from < 0 || from >= ids.len() {
        None
    } else if ids[from] == id {
        Some(from)
    } else {
        find_choice_from(ids, id, from + 1)
    }
}

impl ComboView {
    /// The choice that an event selects: the one that is activated, if it
    /// has a message. An event for the combobox itself selects none.
    pub open spec fn selected(self, id: WidgetId, event: Event) -> Option<int> {
        match find_choice_from(self.choice_ids, id, 0) {
            Some(i) => if id != self.id && event is Activate && i < self.messages.len() {
                Some(i)
            } else {
                None
            },
            None => None,
        }
    }

    /// Does the event open or close the menu? An activation of the combobox
    /// itself does.
    pub open spec fn toggles(self, id: WidgetId, event: Event) -> bool {
        id == self.id && event is Activate
    }

    /// What the toolkit is asked when the combobox is activated and is as
    /// `after` afterwards: to close the menu where it is shown, else to show
    /// it; the toolkit then returns the handle that the combobox keeps.
    pub open spec fn toggle_call(self, after: ComboView) -> ShellCall {
        match self.popup_id {
            Some(window) => ShellCall::CloseWindow(window),
            None => ShellCall::AddPopup(
                Popup { id: self.popup, parent: self.id, direction: Direction::Down },
                after.popup_id,
            ),
        }
    }

    /// What the toolkit is asked when a choice is selected: to close the
    /// menu, where it is shown.
    pub open spec fn select_call(self) -> Option<ShellCall> {
        match self.popup_id {
            Some(window) => Some(ShellCall::CloseWindow(window)),
            None => None,
        }
    }

    /// What the toolkit is asked when the combobox is sent `event` for `id`
    /// and is as `after` afterwards; see [`ComboView::toggle_call`] and
    /// [`ComboView::select_call`]. Another event asks nothing of it.
    pub open spec fn send_call(self, id: WidgetId, event: Event, after: ComboView) -> Option<
        ShellCall,
    > {
        if self.toggles(id, event) {
            Some(self.toggle_call(after))
        } else if self.selected(id, event) is Some {
            self.select_call()
        } else {
            None
        }
    }
}

/// What the configuration of `buttons`, one after the other, makes of them,
/// of the walk and of the manager: each button for which the walk has room
/// is entered at `depth`, takes the next identifier and registers its
/// accelerator keys, as [`button_configured`] says.
pub open spec fn buttons_configured(
    buttons: Seq<ButtonView>,
    walk: ConfigView,
    depth: u32,
    before: ManagerView<()>,
) -> (Seq<ButtonView>, ConfigView, ManagerView<()>)
    decreases buttons.len(),
{
    if buttons.len() == 0 {
        (Seq::empty(), walk, before)
    } else {
        let (done, w, m) = buttons_configured(buttons.drop_last(), walk, depth, before);
        let b = buttons.last();
        if w.has_room() {
            let id = w.next() as WidgetId;
            (
                done.push(ButtonView { id, ..b }),
                w.enter(depth, b.id).set_props(id, true, true, CursorIcon::Default),
                m.with_state(m.state.add_accel_keys(id, b.keys)),
            )
        } else {
            (done.push(b), w, m)
        }
    }
}

impl View for ComboBox {
    type V = ComboView;

    closed spec fn view(&self) -> ComboView {
        ComboView {
            id: self.id,
            popup: self.popup,
            choices: self.choices@.map_values(|b: TextButton| b@),
            choice_ids: self.choices@.map_values(|b: TextButton| b@.id),
            labels: self.choices@.map_values(|b: TextButton| b@.label),
            messages: self.messages@,
            active: self.active as int,
            popup_id: self.popup_id,
        }
    }
}

impl ComboBox {
    /// Construct a combobox with one choice, which is shown.
    pub fn new(label: &str, msg: u64) -> (combo: ComboBox)
        ensures
            combo@ == (ComboView {
                id: 0,
                popup: 0,
                choices: seq![
                    (ButtonView { id: 0, keys: Seq::empty(), label: label@, msg: None }),
                ],
                choice_ids: seq![0u32],
                labels: seq![label@],
                messages: seq![msg],
                active: 0,
                popup_id: None,
            }),
    {
        let mut choices: Vec<TextButton> = Vec::new();
        choices.push(TextButton::new(label));
        let mut messages: Vec<u64> = Vec::new();
        messages.push(msg);
        let combo = ComboBox { id: 0, popup: 0, choices, messages, active: 0, popup_id: None };
        proof {
            assert(combo@.choices =~= seq![
                (ButtonView { id: 0, keys: Seq::empty(), label: label@, msg: None }),
            ]);
            assert(combo@.choice_ids =~= seq![0u32]);
            assert(combo@.labels =~= seq![label@]);
            assert(combo@.messages =~= seq![msg]);
        }
        combo
    }

    /// Add a choice to the combobox, in last position
    ///
    /// The widgets must be configured again.
    pub fn push(&mut self, label: &str, msg: u64) -> (action: TkAction)
        ensures
            final(self)@ == (ComboView {
                choices: old(self)@.choices.push(
                    (ButtonView { id: 0, keys: Seq::empty(), label: label@, msg: None }),
                ),
                choice_ids: old(self)@.choice_ids.push(0),
                labels: old(self)@.labels.push(label@),
                messages: old(self)@.messages.push(msg),
                ..old(self)@
            }),
            action == TkAction::Reconfigure,
    {
        self.messages.push(msg);
        self.choices.push(TextButton::new(label));
        proof {
            assert(self@.choices =~= old(self)@.choices.push(
                (ButtonView { id: 0, keys: Seq::empty(), label: label@, msg: None }),
            ));
            assert(self@.choice_ids =~= old(self)@.choice_ids.push(0));
            assert(self@.labels =~= old(self)@.labels.push(label@));
        }
        TkAction::Reconfigure
    }

    /// The identifier of the combobox; `0` before it is configured.
    pub fn id(&self) -> (id: WidgetId)
        ensures
            id == self@.id,
    {
        self.id
    }

    /// The position of the choice that is shown.
    pub fn active(&self) -> (i: usize)
        ensures
            i == self@.active,
    {
        self.active
    }

    /// The handle of the pop-up, while the menu is shown.
    pub fn popup_id(&self) -> (r: Option<WindowId>)
        ensures
            r == self@.popup_id,
    {
        self.popup_id
    }

    /// Get the text of the active choice; `None` where there is no such
    /// choice.
    pub fn text(&self) -> (r: Option<&str>)
        ensures
            match r {
                Some(label) => self@.active < self@.labels.len() && label@
                    == self@.labels[self@.active],
                None => self@.active >= self@.labels.len(),
            },
    {
        if self.active < self.choices.len() {
            Some(self.choices[self.active].get_str())
        } else {
            None
        }
    }

    /// Looks for the choice with the identifier `id`.
    fn find_choice(&self, id: WidgetId) -> (r: Option<usize>)
        ensures
            match r {
                Some(i) => find_choice_from(self@.choice_ids, id, 0) == Some(i as int) && i
                    < self@.choice_ids.len(),
                None => find_choice_from(self@.choice_ids, id, 0) is None,
            },
    {
        let mut i: usize = 0;
        while i < self.choices.len()
            invariant
                0 <= i <= self@.choice_ids.len(),
                self@.choice_ids.len() == self.choices@.len(),
                find_choice_from(self@.choice_ids, id, 0) == find_choice_from(
                    self@.choice_ids,
                    id,
                    i as int,
                ),
            decreases self.choices@.len() - i,
        {
            if self.choices[i].id() == id {
                return Some(i);
            }
            i = i + 1;
        }
        None
    }

    /// Handles an activation of the combobox: the menu pops up, or goes
    /// away where it is shown.
    pub fn toggle<S: TkWindow>(&mut self, mgr: &mut Manager<S>)
        requires
            old(mgr).wf(),
        ensures
            final(mgr).wf(),
            final(mgr).action() == old(mgr).action(),
            final(mgr).read_only() == old(mgr).read_only(),
            shell_told(old(mgr).shell(), old(self)@.toggle_call(final(self)@), final(mgr).shell()),
            match old(self)@.popup_id {
                Some(window) => final(self)@ == (ComboView { popup_id: None, ..old(self)@ })
                    && final(mgr).state() == old(mgr).state().close_window(window),
                None => final(self)@ == (ComboView { popup_id: final(self)@.popup_id, ..old(self)@ })
                    && final(mgr).state() == (match final(self)@.popup_id {
                    Some(window) => old(mgr).state().add_popup(
                        window,
                        (Popup {
                            id: old(self)@.popup,
                            parent: old(self)@.id,
                            direction: Direction::Down,
                        }),
                    ),
                    None => old(mgr).state(),
                }),
            },
    {
        if let Some(window) = self.popup_id {
            mgr.close_window(window);
            self.popup_id = None;
        } else {
            let popup = Popup { id: self.popup, parent: self.id, direction: Direction::Down };
            self.popup_id = mgr.add_popup(popup);
        }
    }

    /// Handles the selection of the choice at `index`: the choice is shown,
    /// the menu goes away, the window is redrawn, and the combobox answers
    /// with the message of the choice.
    pub fn select<S: TkWindow>(&mut self, mgr: &mut Manager<S>, index: usize) -> (r: Response)
        requires
            old(mgr).wf(),
            index < old(self)@.messages.len(),
        ensures
            final(mgr).wf(),
            final(self)@ == (ComboView { active: index as int, popup_id: None, ..old(self)@ }),
            r == Response::Msg(old(self)@.messages[index as int]),
            final(mgr).state() == (match old(self)@.popup_id {
                Some(window) => old(mgr).state().close_window(window),
                None => old(mgr).state(),
            }),
            final(mgr).action() == old(mgr).action().spec_max(TkAction::Redraw),
            final(mgr).read_only() == old(mgr).read_only(),
            shell_step(old(mgr).shell(), old(self)@.select_call(), final(mgr).shell()),
    {
        self.active = index;
        if let Some(window) = self.popup_id {
            mgr.close_window(window);
            self.popup_id = None;
        }
        mgr.redraw(self.id);
        Response::Msg(self.messages[index])
    }
}

/// What a combobox does with an event that it is sent for the widget `id`,
/// and what it answers.
///
/// - An activation of the combobox itself is handled: the menu is closed
///   where it is shown (see [`crate::event::StateView::close_window`]);
///   else the toolkit is asked to show it, and where it does, the pop-up is
///   added (see [`crate::event::StateView::add_popup`]) and the combobox keeps
///   the handle.
/// - An activation of a choice shows the choice and closes the menu, the
///   window is redrawn, and the answer is the message of the choice.
/// - Every other event is not handled, and nothing changes.
pub open spec fn combo_sent<S>(
    combo: ComboView,
    before: ManagerView<S>,
    id: WidgetId,
    event: Event,
    after_combo: ComboView,
    after: ManagerView<S>,
    r: Response,
) -> bool {
    if combo.toggles(id, event) {
        &&& r == Response::Handled
        &&& match combo.popup_id {
            Some(window) => after_combo == (ComboView { popup_id: None, ..combo }) && after
                == before.with_state(before.state.close_window(window)),
            None => after_combo == (ComboView { popup_id: after_combo.popup_id, ..combo })
                && after == before.with_state(
                match after_combo.popup_id {
                    Some(window) => before.state.add_popup(
                        window,
                        (Popup { id: combo.popup, parent: combo.id, direction: Direction::Down }),
                    ),
                    None => before.state,
                },
            ),
        }
    } else {
        match combo.selected(id, event) {
            Some(i) => {
                &&& r == Response::Msg(combo.messages[i])
                &&& after_combo == (ComboView { active: i, popup_id: None, ..combo })
                &&& after == before.with_state(
                    match combo.popup_id {
                        Some(window) => before.state.close_window(window),
                        None => before.state,
                    },
                ).redrawn(true)
            },
            None => r == Response::Unhandled && after_combo == combo && after == before,
        }
    }
}

/// A combobox is a widget tree: the combobox, below it the menu that pops
/// up, and below that the choices.
impl Widget for ComboBox {
    /// See [`combo_sent`]; what is asked of the toolkit is what
    /// [`ComboView::send_call`] says.
    open spec fn sent(
        &self,
        before: ManagerView<()>,
        id: WidgetId,
        event: Event,
        after_self: &Self,
        after: ManagerView<()>,
        r: Response,
        calls: Seq<ShellCall>,
    ) -> bool {
        combo_sent(self@, before, id, event, after_self@, after, r) && calls == step_calls(
            self@.send_call(id, event, after_self@),
        )
    }

    fn send<S: TkWindow>(&mut self, mgr: &mut Manager<S>, id: WidgetId, event: Event) -> (r:
        Response)
        ensures
            old(self)@.selected(id, event) matches Some(i) ==> r == Response::Msg(
                old(self)@.messages[i],
            ) && final(self)@ == (ComboView { active: i, popup_id: None, ..old(self)@ }),
            old(self)@.selected(id, event) is None && !old(self)@.toggles(id, event) ==> r
                == Response::Unhandled && final(self)@ == old(self)@ && final(mgr).state() == old(
                mgr,
            ).state() && final(mgr).action() == old(mgr).action(),
            old(self)@.selected(id, event) is None && old(self)@.toggles(id, event) ==> r
                == Response::Handled,
            shell_step(
                old(mgr).shell(),
                old(self)@.send_call(id, event, final(self)@),
                final(mgr).shell(),
            ),
    {
        let activate = match event {
            Event::Activate => true,
            _ => false,
        };
        let r = if id == self.id {
            if activate {
                self.toggle(mgr);
                Response::Handled
            } else {
                Response::Unhandled
            }
        } else {
            match self.find_choice(id) {
                Some(index) => {
                    if activate && index < self.messages.len() {
                        self.select(mgr, index)
                    } else {
                        Response::Unhandled
                    }
                },
                None => Response::Unhandled,
            }
        };
        proof {
            let call = old(self)@.send_call(id, event, self@);
            lemma_step_calls(old(mgr).shell(), call, mgr.shell());
            assert((*old(self)).sent(
                old(mgr)@.bare(),
                id,
                event,
                &*self,
                mgr@.bare(),
                r,
                step_calls(call),
            ) && shell_calls(old(mgr).shell(), step_calls(call), mgr.shell()));
        }
        r
    }

    /// Where the walk has room, the combobox is entered at `depth` and
    /// takes the next identifier, and it is recorded that it can have
    /// navigation focus and is drawn differently under the pointer. Where the
    /// walk still has room, the menu is entered one level below and takes
    /// the identifier after that, and the choices are configured one level
    /// below the menu, in order; see [`buttons_configured`]. What finds no
    /// room stays as it is.
    open spec fn configured(
        &self,
        walk: ConfigView,
        depth: u32,
        before: ManagerView<()>,
        after_self: &Self,
        after_walk: ConfigView,
        after: ManagerView<()>,
        calls: Seq<ShellCall>,
    ) -> bool {
        let id = walk.next() as WidgetId;
        let entered = walk.enter(depth, self@.id).set_props(id, true, true, CursorIcon::Default);
        let popup = entered.next() as WidgetId;
        let menu = entered.enter(child_depth(depth), self@.popup);
        let (buttons, done_walk, done) = buttons_configured(
            self@.choices,
            menu,
            child_depth(child_depth(depth)),
            before,
        );
        if calls != Seq::<ShellCall>::empty() {
            false
        } else if !walk.has_room() {
            &&& after_self@ == self@
            &&& after_walk == walk
            &&& after == before
        } else if !entered.has_room() {
            &&& after_self@ == (ComboView { id, ..self@ })
            &&& after_walk == entered
            &&& after == before
        } else {
            &&& after_self@ == (ComboView {
                id,
                popup,
                choices: buttons,
                choice_ids: buttons.map_values(|b: ButtonView| b.id),
                labels: buttons.map_values(|b: ButtonView| b.label),
                ..self@
            })
            &&& after_walk == done_walk
            &&& after == done
        }
    }

    fn configure<S: TkWindow>(&mut self, cmgr: ConfigureManager<S>) {
        let mut cmgr = cmgr;
        let ghost before = cmgr.mgr@.bare();
        let ghost shell = cmgr.mgr@.shell;
        let ghost whole = cmgr.mgr@;
        let ghost first = cmgr.cfg@;
        let ghost depth = cmgr.depth;
        if cmgr.cfg.check_room() {
            self.id = cmgr.next_id(self.id);
            cmgr.set_props(self.id, true, true, CursorIcon::Default);
            let mut menu = cmgr.child();
            if menu.cfg.check_room() {
                self.popup = menu.next_id(self.popup);
                let mut inner = menu.child();
                let ghost walk = *final(inner.cfg);
                let ghost manager = *final(inner.mgr);
                let ghost start = inner.cfg@;
                let ghost choices = self@.choices;
                let ghost id = self.id;
                let ghost popup = self.popup;
                let mut i: usize = 0;
                proof {
                    assert(choices.take(0) =~= Seq::empty());
                    assert(self@.choices.take(0) =~= Seq::empty());
                }
                while i < self.choices.len()
                    invariant
                        inner.cfg.wf(),
                        inner.mgr.wf(),
                        *final(inner.cfg) == walk,
                        *final(inner.mgr) == manager,
                        inner.depth == child_depth(child_depth(depth)),
                        0 <= i <= choices.len(),
                        self.choices@.len() == choices.len(),
                        self@.choices.len() == choices.len(),
                        forall|j: int|
                            i <= j < choices.len() ==> #[trigger] self@.choices[j]
                                == choices[j],
                        inner.mgr@.shell == shell,
                        (self@.choices.take(i as int), inner.cfg@, inner.mgr@.bare())
                            == buttons_configured(
                            choices.take(i as int),
                            start,
                            child_depth(child_depth(depth)),
                            before,
                        ),
                        self.id == id,
                        self.popup == popup,
                        self.messages == old(self).messages,
                        self.active == old(self).active,
                        self.popup_id == old(self).popup_id,
                    decreases choices.len() - i,
                {
                    let ghost earlier = self@.choices;
                    let ghost walk0 = inner.cfg@;
                    let ghost mgr0 = inner.mgr@;
                    let ghost bare0 = inner.mgr@.bare();
                    let ghost depth2 = child_depth(child_depth(depth));
                    self.choices[i].configure_in(&mut inner);
                    proof {
                        let now = self@.choices;
                        assert(now.len() == earlier.len());
                        assert forall|j: int| 0 <= j < now.len() && j != i implies now[j]
                            == earlier[j] by {}
                        assert(earlier[i as int] == choices[i as int]);
                        assert(button_configured(
                            choices[i as int],
                            walk0,
                            depth2,
                            mgr0,
                            now[i as int],
                            inner.cfg@,
                            inner.mgr@,
                        ));
                        assert(choices.take(i + 1).drop_last() =~= choices.take(i as int));
                        assert(choices.take(i + 1).last() == choices[i as int]);
                        assert(now.take(i + 1) =~= earlier.take(i as int).push(now[i as int]));
                        let prev = buttons_configured(choices.take(i as int), start, depth2, before);
                        assert(prev == (earlier.take(i as int), walk0, bare0));
                        let next = buttons_configured(choices.take(i + 1), start, depth2, before);
                        assert(next == (now.take(i + 1), inner.cfg@, inner.mgr@.bare()));
                    }
                    i = i + 1;
                }
                proof {
                    assert(choices.take(choices.len() as int) =~= choices);
                    assert(self@.choices.take(choices.len() as int) =~= self@.choices);
                    assert(self@.choice_ids =~= self@.choices.map_values(
                        |b: ButtonView| b.id,
                    ));
                    assert(self@.labels =~= self@.choices.map_values(
                        |b: ButtonView| b.label,
                    ));
                }
            }
        }
        proof {
            assert((*old(self)).configured(
                first,
                depth,
                whole.bare(),
                &*self,
                cmgr.cfg@,
                cmgr.mgr@.bare(),
                Seq::<ShellCall>::empty(),
            ) && shell_calls(whole.shell, Seq::<ShellCall>::empty(), cmgr.mgr@.shell));
        }
    }

    /// The combobox is at every position.
    open spec fn hit(&self, coord: Coord, r: Option<WidgetId>) -> bool {
        r == Some(self@.id)
    }

    fn find_id(&self, coord: Coord) -> (r: Option<WidgetId>) {
        let _ = coord;
        Some(self.id)
    }
}

} // verus!
