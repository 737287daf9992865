//! Renaming the widgets that the state refers to
//!
//! Configuration gives every widget a new identifier. What the state holds
//! of the widgets it knew before is kept under the new names; what it holds
//! of widgets that are gone is dropped.

use vstd::prelude::*;
use std::collections::HashMap;
use crate::event::containers::{
    key_entries, key_insert, key_pairs, key_remove, pan_get, pan_len, pan_set, popup_get,
    popup_items, popup_len, popup_new, popup_push, touch_pairs, KeyMap,
};
use crate::event::manager::model::lemma_remove_pan_wf;
use crate::event::manager::{
    rewrite_touch_grabs, GrabsView, ManagerState, MouseGrab, PanGrab, StateView, TouchGrab,
};
use crate::event::tree::{tree_wf, WidgetNode, WidgetTree};
use crate::event::{Popup, WidgetId, WindowId};

verus! {

broadcast use vstd::std_specs::hash::group_hash_axioms;

/// The new name of a widget that may be none: none where there was none,
/// and where the widget is gone.
pub open spec fn remap_id(m: Map<WidgetId, WidgetId>, id: Option<WidgetId>) -> Option<WidgetId> {
    match id {
        Some(old) => if m.contains_key(old) {
            Some(m[old])
        } else {
            None
        },
        None => None,
    }
}

/// Does the map give different widgets different new names?
pub open spec fn injective(m: Map<WidgetId, WidgetId>) -> bool {
    forall|k1: WidgetId, k2: WidgetId|
        #![trigger m[k1], m[k2]]
        m.contains_key(k1) && m.contains_key(k2) && m[k1] == m[k2] ==> k1 == k2
}

/// The press grab under the new names.
pub open spec fn renamed_mouse(m: Map<WidgetId, WidgetId>, g: MouseGrab) -> MouseGrab {
    MouseGrab { start_id: m[g.start_id], depress: remap_id(m, g.depress), ..g }
}

/// A touch grab under the new names.
pub open spec fn renamed_touch(m: Map<WidgetId, WidgetId>, t: TouchGrab) -> TouchGrab {
    TouchGrab {
        start_id: m[t.start_id],
        depress: remap_id(m, t.depress),
        cur_id: remap_id(m, t.cur_id),
        ..t
    }
}

/// The pop-ups under the new names: a pop-up whose widget or whose parent
/// is gone is dropped.
pub open spec fn remap_popups(popups: Seq<(WindowId, Popup)>, m: Map<WidgetId, WidgetId>) -> Seq<
    (WindowId, Popup),
>
    decreases popups.len(),
{
    if popups.len() == 0 {
        Seq::empty()
    } else {
        let rest = remap_popups(popups.drop_last(), m);
        let (window, popup) = popups.last();
        if m.contains_key(popup.id) && m.contains_key(popup.parent) {
            rest.push((window, Popup { id: m[popup.id], parent: m[popup.parent], ..popup }))
        } else {
            rest
        }
    }
}

/// The handles of the pop-ups that are dropped under the new names, lowest
/// first: those whose widget or whose parent is gone.
pub open spec fn lost_popups(popups: Seq<(WindowId, Popup)>, m: Map<WidgetId, WidgetId>) -> Seq<
    WindowId,
>
    decreases popups.len(),
{
    if popups.len() == 0 {
        Seq::empty()
    } else {
        let rest = lost_popups(popups.drop_last(), m);
        let (window, popup) = popups.last();
        if m.contains_key(popup.id) && m.contains_key(popup.parent) {
            rest
        } else {
            rest.push(window)
        }
    }
}

impl GrabsView {
    /// The grabs after every gesture at or behind `from` whose widget is
    /// gone has been taken out of the list, each as
    /// [`GrabsView::remove_pan`] says.
    pub open spec fn prune_gestures(self, m: Map<WidgetId, WidgetId>, from: int) -> GrabsView
        decreases self.pan_grab.len() - from,
    {
        if from < 0 || from >= self.pan_grab.len() {
            self
        } else if m.contains_key(self.pan_grab[from].id) {
            self.prune_gestures(m, from + 1)
        } else {
            self.remove_pan(from).prune_gestures(m, from)
        }
    }

    /// The grabs under the new names: a grab that was started by a widget
    /// that is gone is dropped.
    pub open spec fn rename(self, m: Map<WidgetId, WidgetId>) -> GrabsView {
        GrabsView {
            pan_grab: Seq::new(
                self.pan_grab.len(),
                |i: int| PanGrab { id: m[self.pan_grab[i].id], ..self.pan_grab[i] },
            ),
            mouse_grab: match self.mouse_grab {
                Some(g) => if m.contains_key(g.start_id) {
                    Some(renamed_mouse(m, g))
                } else {
                    None
                },
                None => None,
            },
            touch_grab: Map::new(
                |k: u64|
                    self.touch_grab.contains_key(k) && m.contains_key(self.touch_grab[k].start_id),
                |k: u64| renamed_touch(m, self.touch_grab[k]),
            ),
        }
    }

    /// The grabs and gestures after a configuration that has renamed the
    /// widgets as `m` says: gestures on widgets that are gone end, with the
    /// grabs that contributed to them; grabs started by widgets that are
    /// gone end; all others go on under the new names.
    pub open spec fn remapped(self, m: Map<WidgetId, WidgetId>) -> GrabsView {
        self.prune_gestures(m, 0).rename(m)
    }
}

impl StateView {
    /// The state after a configuration that has found the widgets `tree`
    /// and renamed those it knew before as `m` says.
    ///
    /// Every widget that the state names is named anew; a name of a widget
    /// that is gone is dropped, with the grab, gesture, depressed key or
    /// pop-up that it stood for. Character focus ends where the widget that
    /// had it is gone.
    pub open spec fn remapped(self, tree: Seq<WidgetNode>, m: Map<WidgetId, WidgetId>)
        -> StateView {
        StateView {
            char_focus: self.char_focus && remap_id(m, self.sel_focus) is Some,
            sel_focus: remap_id(m, self.sel_focus),
            nav_focus: remap_id(m, self.nav_focus),
            nav_fallback: remap_id(m, self.nav_fallback),
            hover: remap_id(m, self.hover),
            key_depress: Map::new(
                |k: u32| self.key_depress.contains_key(k) && m.contains_key(self.key_depress[k]),
                |k: u32| m[self.key_depress[k]],
            ),
            grabs: self.grabs.remapped(m),
            popups: remap_popups(self.popups, m),
            tree,
            ..self
        }
    }
}

/// Taking out the gestures on widgets that are gone keeps the invariant of
/// grabs and gestures, and leaves only gestures on widgets that are known.
pub proof fn lemma_prune_gestures_wf(v: GrabsView, m: Map<WidgetId, WidgetId>, from: int)
    requires
        v.wf(),
        0 <= from,
        forall|j: int| 0 <= j < from && j < v.pan_grab.len() ==> m.contains_key(
            (#[trigger] v.pan_grab[j]).id,
        ),
    ensures
        v.prune_gestures(m, from).wf(),
        forall|j: int|
            0 <= j < v.prune_gestures(m, from).pan_grab.len() ==> m.contains_key(
                (#[trigger] v.prune_gestures(m, from).pan_grab[j]).id,
            ),
    decreases v.pan_grab.len() - from,
{
    if from < v.pan_grab.len() {
        if m.contains_key(v.pan_grab[from].id) {
            lemma_prune_gestures_wf(v, m, from + 1);
        } else {
            lemma_remove_pan_wf(v, from, None);
            let w = v.remove_pan(from);
            assert forall|j: int| 0 <= j < from && j < w.pan_grab.len() implies m.contains_key(
                (#[trigger] w.pan_grab[j]).id,
            ) by {
                assert(w.pan_grab[j] == v.pan_grab[j]);
            }
            lemma_prune_gestures_wf(w, m, from);
        }
    }
}

/// Renaming keeps the invariant of grabs and gestures, where every gesture
/// is on a widget that is known and different widgets receive different
/// names.
pub proof fn lemma_rename_wf(v: GrabsView, m: Map<WidgetId, WidgetId>)
    requires
        v.wf(),
        injective(m),
        forall|j: int| 0 <= j < v.pan_grab.len() ==> m.contains_key((#[trigger] v.pan_grab[j]).id),
    ensures
        v.rename(m).wf(),
{
    let w = v.rename(m);
    assert forall|g: int| 0 <= g < w.pan_grab.len() implies #[trigger] w.gesture_ok(g) by {
        assert(v.gesture_ok(g));
    }
    assert forall|ga: int, gb: int| 0 <= ga < gb < w.pan_grab.len() implies (
    #[trigger] w.pan_grab[ga]).id != (#[trigger] w.pan_grab[gb]).id by {
        assert(v.pan_grab[ga].id != v.pan_grab[gb].id);
        assert(m.contains_key(v.pan_grab[ga].id));
        assert(m.contains_key(v.pan_grab[gb].id));
        let ida = m[v.pan_grab[ga].id];
        let idb = m[v.pan_grab[gb].id];
    }
    assert forall|k: u64| #[trigger] w.touch_grab.contains_key(k) implies w.ref_ok(
        w.touch_grab[k].pan_grab,
        w.touch_grab[k].mode,
        w.touch_grab[k].start_id,
        true,
    ) by {
        assert(v.touch_grab.contains_key(k));
    }
    assert forall|k1: u64, k2: u64, g: usize, s: usize|
        #[trigger] w.touch_refs(k1, g, s) && #[trigger] w.touch_refs(k2, g, s) implies k1
        == k2 by {
        assert(v.touch_grab.contains_key(k1));
        assert(v.touch_grab.contains_key(k2));
        assert(v.touch_refs(k1, g, s));
        assert(v.touch_refs(k2, g, s));
    }
    assert forall|g: usize, s: usize|
        g < w.pan_grab.len() && s < w.pan_grab[g as int].n implies #[trigger] w.slot_covered(
        g,
        s,
    ) by {
        assert(v.slot_covered(g, s));
        assert(m.contains_key(v.pan_grab[g as int].id));
        if v.mouse_refs(g, s) {
            assert(w.mouse_refs(g, s));
        } else {
            let k = choose|k: u64| v.touch_refs(k, g, s);
            assert(v.touch_grab.contains_key(k));
            assert(w.touch_refs(k, g, s));
        }
    }
}

/// Replaces every depressed key's widget by what `f` makes of it, and takes
/// out those for which `f` gives nothing. `pairs` lists the map, and `edits`
/// holds, for each entry of `pairs`, what `f` makes of it.
fn rewrite_keys(
    m: &mut KeyMap,
    pairs: &Vec<(u32, WidgetId)>,
    edits: &Vec<Option<WidgetId>>,
    Ghost(f): Ghost<spec_fn(WidgetId) -> Option<WidgetId>>,
)
    requires
        forall|i: int|
            0 <= i < pairs@.len() ==> key_entries(*old(m)).contains_key(#[trigger] pairs@[i].0)
                && key_entries(*old(m))[pairs@[i].0] == pairs@[i].1,
        forall|i: int, j: int| 0 <= i < j < pairs@.len() ==> pairs@[i].0 != pairs@[j].0,
        forall|k: u32| #[trigger]
            key_entries(*old(m)).contains_key(k) ==> exists|i: int|
                0 <= i < pairs@.len() && pairs@[i].0 == k,
        edits@.len() == pairs@.len(),
        forall|i: int| 0 <= i < pairs@.len() ==> #[trigger] edits@[i] == f(pairs@[i].1),
    ensures
        forall|k: u32| #[trigger]
            key_entries(*final(m)).contains_key(k) <==> key_entries(*old(m)).contains_key(k) && f(
                key_entries(*old(m))[k],
            ) is Some,
        forall|k: u32| #[trigger]
            key_entries(*final(m)).contains_key(k) ==> Some(key_entries(*final(m))[k]) == f(
                key_entries(*old(m))[k],
            ),
{
    let ghost before = key_entries(*m);
    let ghost target = Map::new(
        |k: u32| before.contains_key(k) && f(before[k]) is Some,
        |k: u32| f(before[k])->0,
    );
    let mut i: usize = 0;
    while i < pairs.len()
        invariant
            0 <= i <= pairs@.len(),
            edits@.len() == pairs@.len(),
            forall|j: int|
                0 <= j < pairs@.len() ==> before.contains_key(#[trigger] pairs@[j].0)
                    && before[pairs@[j].0] == pairs@[j].1,
            forall|a: int, b: int| 0 <= a < b < pairs@.len() ==> pairs@[a].0 != pairs@[b].0,
            forall|j: int| 0 <= j < pairs@.len() ==> #[trigger] edits@[j] == f(pairs@[j].1),
            forall|j: int|
                0 <= j < i ==> (key_entries(*m).contains_key(#[trigger] pairs@[j].0)
                    <==> target.contains_key(pairs@[j].0)) && (target.contains_key(pairs@[j].0)
                    ==> key_entries(*m)[pairs@[j].0] == target[pairs@[j].0]),
            forall|j: int|
                i <= j < pairs@.len() ==> key_entries(*m).contains_key(#[trigger] pairs@[j].0)
                    && key_entries(*m)[pairs@[j].0] == pairs@[j].1,
            forall|k: u32| #[trigger] key_entries(*m).contains_key(k) ==> before.contains_key(k),
            target == Map::new(
                |k: u32| before.contains_key(k) && f(before[k]) is Some,
                |k: u32| f(before[k])->0,
            ),
        decreases pairs@.len() - i,
    {
        let key = pairs[i].0;
        match edits[i] {
            Some(id) => {
                let _ = key_insert(m, key, id);
            },
            None => {
                let _ = key_remove(m, key);
            },
        }
        i = i + 1;
    }
    assert forall|k: u32| key_entries(*m).contains_key(k) == target.contains_key(k) && (
    target.contains_key(k) ==> key_entries(*m)[k] == target[k]) by {
        if before.contains_key(k) {
            let j = choose|j: int| 0 <= j < pairs@.len() && pairs@[j].0 == k;
            assert(key_entries(*m).contains_key(pairs@[j].0) <==> target.contains_key(
                pairs@[j].0,
            ));
        }
    }
}

/// The new name of `id` under `map`, if the widget is still known.
pub fn lookup(map: &HashMap<WidgetId, WidgetId>, id: Option<WidgetId>) -> (r: Option<WidgetId>)
    ensures
        r == remap_id(map@, id),
{
    match id {
        Some(old) => match map.get(&old) {
            Some(new) => Some(*new),
            None => None,
        },
        None => None,
    }
}

impl ManagerState {
    /// Takes out the gestures on widgets that are gone.
    fn prune_gestures(&mut self, map: &HashMap<WidgetId, WidgetId>)
        requires
            old(self)@.grabs.wf(),
        ensures
            final(self)@ == (StateView {
                grabs: old(self)@.grabs.prune_gestures(map@, 0),
                ..old(self)@
            }),
    {
        let mut i: usize = 0;
        while i < pan_len(&self.pan_grab)
            invariant
                self@.grabs.prune_gestures(map@, i as int) == old(self)@.grabs.prune_gestures(
                    map@,
                    0,
                ),
                self@ == (StateView { grabs: self@.grabs, ..old(self)@ }),
            decreases self@.grabs.pan_grab.len() - i,
        {
            let grab = pan_get(&self.pan_grab, i);
            if map.contains_key(&grab.id) {
                i = i + 1;
            } else {
                self.remove_pan(i);
            }
        }
    }

    /// Names the grabs and gestures anew, and drops the grabs that were
    /// started by widgets that are gone.
    fn rename_grabs(&mut self, map: &HashMap<WidgetId, WidgetId>)
        requires
            forall|j: int|
                0 <= j < old(self)@.grabs.pan_grab.len() ==> map@.contains_key(
                    (#[trigger] old(self)@.grabs.pan_grab[j]).id,
                ),
        ensures
            final(self)@ == (StateView { grabs: old(self)@.grabs.rename(map@), ..old(self)@ }),
    {
        let ghost before = self@.grabs;
        let n = pan_len(&self.pan_grab);
        let mut i: usize = 0;
        while i < n
            invariant
                0 <= i <= n,
                n == before.pan_grab.len(),
                self@.grabs.pan_grab.len() == n,
                forall|j: int|
                    0 <= j < n ==> map@.contains_key((#[trigger] before.pan_grab[j]).id),
                forall|j: int|
                    0 <= j < i ==> #[trigger] self@.grabs.pan_grab[j] == (PanGrab {
                        id: map@[before.pan_grab[j].id],
                        ..before.pan_grab[j]
                    }),
                forall|j: int| i <= j < n ==> #[trigger] self@.grabs.pan_grab[j] == before.pan_grab[j],
                self@ == (StateView {
                    grabs: GrabsView { pan_grab: self@.grabs.pan_grab, ..before },
                    ..old(self)@
                }),
            decreases n - i,
        {
            let grab = pan_get(&self.pan_grab, i);
            proof {
                assert(map@.contains_key(before.pan_grab[i as int].id));
            }
            let id = match map.get(&grab.id) {
                Some(new) => *new,
                None => grab.id,
            };
            pan_set(
                &mut self.pan_grab,
                i,
                PanGrab {
                    id,
                    mode: grab.mode,
                    source_is_touch: grab.source_is_touch,
                    n: grab.n,
                    coords: grab.coords,
                },
            );
            i = i + 1;
        }
        if let Some(grab) = self.mouse_grab {
            self.mouse_grab = match map.get(&grab.start_id) {
                Some(new) => Some(
                    MouseGrab {
                        button: grab.button,
                        repetitions: grab.repetitions,
                        start_id: *new,
                        depress: lookup(map, grab.depress),
                        mode: grab.mode,
                        pan_grab: grab.pan_grab,
                    },
                ),
                None => None,
            };
        }
        let pairs = touch_pairs(&self.touch_grab);
        let ghost f = |t: TouchGrab|
            if map@.contains_key(t.start_id) {
                Some(renamed_touch(map@, t))
            } else {
                None
            };
        let mut edits: Vec<Option<TouchGrab>> = Vec::new();
        let mut k: usize = 0;
        while k < pairs.len()
            invariant
                0 <= k <= pairs@.len(),
                edits@.len() == k,
                forall|j: int| 0 <= j < k ==> #[trigger] edits@[j] == f(pairs@[j].1),
                f == (|t: TouchGrab|
                    if map@.contains_key(t.start_id) {
                        Some(renamed_touch(map@, t))
                    } else {
                        None
                    }),
            decreases pairs@.len() - k,
        {
            let grab = pairs[k].1;
            let edit = match map.get(&grab.start_id) {
                Some(new) => Some(
                    TouchGrab {
                        start_id: *new,
                        depress: lookup(map, grab.depress),
                        cur_id: lookup(map, grab.cur_id),
                        coord: grab.coord,
                        mode: grab.mode,
                        pan_grab: grab.pan_grab,
                    },
                ),
                None => None,
            };
            edits.push(edit);
            k = k + 1;
        }
        rewrite_touch_grabs(&mut self.touch_grab, &pairs, &edits, Ghost(f));
        proof {
            assert(self@.grabs.pan_grab =~= before.rename(map@).pan_grab);
            assert(self@.grabs.touch_grab =~= before.rename(map@).touch_grab);
        }
    }

    /// Names the depressed keys' widgets anew, and releases the keys whose
    /// widget is gone.
    fn rename_keys(&mut self, map: &HashMap<WidgetId, WidgetId>)
        ensures
            final(self)@ == (StateView {
                key_depress: Map::new(
                    |k: u32|
                        old(self)@.key_depress.contains_key(k) && map@.contains_key(
                            old(self)@.key_depress[k],
                        ),
                    |k: u32| map@[old(self)@.key_depress[k]],
                ),
                ..old(self)@
            }),
    {
        let ghost before = self@.key_depress;
        let pairs = key_pairs(&self.key_depress);
        let ghost f = |id: WidgetId| remap_id(map@, Some(id));
        let mut edits: Vec<Option<WidgetId>> = Vec::new();
        let mut k: usize = 0;
        while k < pairs.len()
            invariant
                0 <= k <= pairs@.len(),
                edits@.len() == k,
                forall|j: int| 0 <= j < k ==> #[trigger] edits@[j] == f(pairs@[j].1),
                f == (|id: WidgetId| remap_id(map@, Some(id))),
            decreases pairs@.len() - k,
        {
            edits.push(lookup(map, Some(pairs[k].1)));
            k = k + 1;
        }
        rewrite_keys(&mut self.key_depress, &pairs, &edits, Ghost(f));
        proof {
            assert(self@.key_depress =~= Map::new(
                |k: u32| before.contains_key(k) && map@.contains_key(before[k]),
                |k: u32| map@[before[k]],
            ));
        }
    }

    /// Names the pop-ups' widgets anew; the handles of the pop-ups whose
    /// widget or parent is gone are returned, for the toolkit to close them.
    fn rename_popups(&mut self, map: &HashMap<WidgetId, WidgetId>) -> (closed: Vec<WindowId>)
        ensures
            final(self)@ == (StateView {
                popups: remap_popups(old(self)@.popups, map@),
                ..old(self)@
            }),
            closed@ == lost_popups(old(self)@.popups, map@),
    {
        let ghost before = self@.popups;
        let mut kept = popup_new();
        let mut closed: Vec<WindowId> = Vec::new();
        let n = popup_len(&self.popups);
        let mut i: usize = 0;
        while i < n
            invariant
                0 <= i <= n,
                n == before.len(),
                self@ == old(self)@,
                before == self@.popups,
                popup_items(kept) == remap_popups(before.take(i as int), map@),
                closed@ == lost_popups(before.take(i as int), map@),
            decreases n - i,
        {
            let (window, popup) = popup_get(&self.popups, i);
            proof {
                assert(before.take(i + 1).drop_last() =~= before.take(i as int));
            }
            match (lookup(map, Some(popup.id)), lookup(map, Some(popup.parent))) {
                (Some(id), Some(parent)) => {
                    popup_push(
                        &mut kept,
                        (window, Popup { id, parent, direction: popup.direction }),
                    );
                },
                _ => {
                    closed.push(window);
                },
            }
            i = i + 1;
        }
        proof {
            assert(before.take(n as int) =~= before);
        }
        self.popups = kept;
        closed
    }

    /// Takes over the result of a configuration: the widgets `tree`, and
    /// the new names `map` of the widgets that were known before.
    ///
    /// Returns the handles of the pop-ups that have lost their widget or
    /// their parent, for the toolkit to close them. See
    /// [`StateView::remapped`].
    pub(crate) fn apply_remap(&mut self, tree: WidgetTree, map: &HashMap<WidgetId, WidgetId>) -> (closed:
        Vec<WindowId>)
        requires
            old(self)@.wf(),
            tree_wf(tree@),
            injective(map@),
        ensures
            final(self)@ == old(self)@.remapped(tree@, map@),
            final(self)@.wf(),
            closed@ == lost_popups(old(self)@.popups, map@),
    {
        let ghost before = self@;
        proof {
            lemma_prune_gestures_wf(before.grabs, map@, 0);
            lemma_rename_wf(before.grabs.prune_gestures(map@, 0), map@);
        }
        self.prune_gestures(map);
        self.rename_grabs(map);
        self.rename_keys(map);
        let closed = self.rename_popups(map);
        self.sel_focus = lookup(map, self.sel_focus);
        self.char_focus = self.char_focus && self.sel_focus.is_some();
        self.nav_focus = lookup(map, self.nav_focus);
        self.nav_fallback = lookup(map, self.nav_fallback);
        self.hover = lookup(map, self.hover);
        self.tree = tree;
        closed
    }
}

} // verus!
