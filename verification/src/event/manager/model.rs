//! Grabs and pan gestures, as functions on [`GrabsView`].
//!
//! Each transition of the grab and gesture bookkeeping is written here as a
//! spec function from state to state, next to the invariant that the
//! transitions keep. The executable code in the parent module is proved
//! against these functions.

use vstd::prelude::*;
use crate::event::manager::{
    GrabMode, GrabsView, MouseGrab, PanGrab, StateView, TouchGrab, MAX_PAN_GRABS,
};
use crate::event::tree::tree_wf;
use crate::event::{MouseButton, PanPoint, PressSource, WidgetId};
use crate::geom::Coord;

verus! {

/// Does a grab's gesture reference point at gesture `index`?
pub open spec fn refs_gesture(r: Option<(usize, usize)>, index: int) -> bool {
    r matches Some((g, _)) && g == index
}

/// The number of the contact point that a gesture reference names.
pub open spec fn ref_slot(r: Option<(usize, usize)>) -> usize {
    match r {
        Some((_, s)) => s,
        None => 0,
    }
}

/// A grab's gesture reference after gesture `index` has left the list:
/// references behind `index` move down by one.
pub open spec fn shift_ref(r: Option<(usize, usize)>, index: int) -> Option<(usize, usize)> {
    match r {
        Some((g, s)) => if g > index {
            Some(((g - 1) as usize, s))
        } else {
            r
        },
        None => None,
    }
}

/// A grab's gesture reference after contact point `slot` of gesture `gi` has
/// left: within that gesture, points behind `slot` move down by one.
pub open spec fn shift_slot(r: Option<(usize, usize)>, gi: int, slot: int) -> Option<
    (usize, usize),
> {
    match r {
        Some((g, s)) => if g == gi && s > slot {
            Some((g, (s - 1) as usize))
        } else {
            r
        },
        None => None,
    }
}

/// The index of the first gesture at or behind `from` that targets `id`.
pub open spec fn find_gesture_from(pans: Seq<PanGrab>, id: WidgetId, from: int) -> Option<int>
    decreases pans.len() - from,
{
    if from < 0 || from >= pans.len() {
        None
    } else if pans[from].id == id {
        Some(from)
    } else {
        find_gesture_from(pans, id, from + 1)
    }
}

/// The index of the gesture that targets `id`, if there is one.
pub open spec fn find_gesture(pans: Seq<PanGrab>, id: WidgetId) -> Option<int> {
    find_gesture_from(pans, id, 0)
}

/// A gesture that has just begun: one contact point at `coord`.
pub open spec fn new_gesture(id: WidgetId, mode: GrabMode, source_is_touch: bool, coord: Coord)
    -> PanGrab {
    let p = PanPoint { start: coord, current: coord };
    PanGrab { id, mode, source_is_touch, n: 1, coords: (p, p) }
}

impl GrabsView {
    /// Does the press grab contribute contact point `s` of gesture `g`?
    pub open spec fn mouse_refs(self, g: usize, s: usize) -> bool {
        self.mouse_grab matches Some(m) && m.pan_grab == Some((g, s))
    }

    /// Does the touch `k` contribute contact point `s` of gesture `g`?
    pub open spec fn touch_refs(self, k: u64, g: usize, s: usize) -> bool {
        self.touch_grab.contains_key(k) && self.touch_grab[k].pan_grab == Some((g, s))
    }

    /// Does any grab contribute contact point `s` of gesture `g`?
    pub open spec fn slot_covered(self, g: usize, s: usize) -> bool {
        self.mouse_refs(g, s) || exists|k: u64| self.touch_refs(k, g, s)
    }

    /// Does any grab reference gesture `g`?
    pub open spec fn gesture_referenced(self, g: usize) -> bool {
        exists|s: usize| self.slot_covered(g, s)
    }

    /// The gesture at `gi` is well formed by itself: it has one or two
    /// contact points, two only where they are touches, and it delivers pan
    /// events.
    pub open spec fn gesture_ok(self, gi: int) -> bool {
        let g = self.pan_grab[gi];
        &&& 1 <= g.n <= MAX_PAN_GRABS
        &&& (g.source_is_touch || g.n == 1)
        &&& g.mode != GrabMode::Grab
    }

    /// A gesture reference held by a grab is in order: it points at a
    /// contact point of a gesture in the list which has the grab's source
    /// kind and targets the grab's widget. A grab has a reference exactly
    /// when it delivers pan events.
    pub open spec fn ref_ok(
        self,
        r: Option<(usize, usize)>,
        mode: GrabMode,
        start_id: WidgetId,
        is_touch: bool,
    ) -> bool {
        match r {
            Some((g, s)) => {
                &&& mode != GrabMode::Grab
                &&& g < self.pan_grab.len()
                &&& s < self.pan_grab[g as int].n
                &&& self.pan_grab[g as int].source_is_touch == is_touch
                &&& self.pan_grab[g as int].id == start_id
            },
            None => mode == GrabMode::Grab,
        }
    }

    /// The invariant of grabs and gestures, but for one contact point
    /// (`hole`) that no grab contributes: the state between the end of a
    /// grab and the release of its contact point.
    pub open spec fn wf_except(self, hole: Option<(usize, usize)>) -> bool {
        &&& self.pan_grab.len() <= usize::MAX
        &&& forall|gi: int| 0 <= gi < self.pan_grab.len() ==> #[trigger] self.gesture_ok(gi)
        &&& forall|gi: int, gj: int|
            0 <= gi < gj < self.pan_grab.len() ==> (#[trigger] self.pan_grab[gi]).id != (
            #[trigger] self.pan_grab[gj]).id
        &&& self.mouse_grab matches Some(m) ==> self.ref_ok(m.pan_grab, m.mode, m.start_id, false)
        &&& forall|k: u64| #[trigger]
            self.touch_grab.contains_key(k) ==> self.ref_ok(
                self.touch_grab[k].pan_grab,
                self.touch_grab[k].mode,
                self.touch_grab[k].start_id,
                true,
            )
        &&& forall|k1: u64, k2: u64, g: usize, s: usize|
            #[trigger] self.touch_refs(k1, g, s) && #[trigger] self.touch_refs(k2, g, s) ==> k1
                == k2
        &&& forall|g: usize, s: usize|
            g < self.pan_grab.len() && s < self.pan_grab[g as int].n && hole != Some((g, s))
                ==> #[trigger] self.slot_covered(g, s)
        &&& hole matches Some((g, s)) ==> {
            &&& g < self.pan_grab.len()
            &&& s < self.pan_grab[g as int].n
            &&& !self.slot_covered(g, s)
        }
    }

    /// The invariant of grabs and gestures.
    ///
    /// - Every gesture has one or two contact points.
    /// - No two gestures target the same widget.
    /// - Every grab that delivers pan events contributes one contact point of
    ///   one gesture in the list, and no two grabs contribute the same one.
    /// - Every contact point of every gesture is contributed by a grab: a
    ///   gesture is in the list exactly as long as a grab references it.
    pub open spec fn wf(self) -> bool {
        self.wf_except(None)
    }

    /// The state after the gesture at `index` has been taken out of the
    /// list: the grabs that contributed to it are gone, and grabs that
    /// reference a gesture behind `index` reference it at its new place.
    pub open spec fn remove_pan(self, index: int) -> GrabsView {
        GrabsView {
            pan_grab: self.pan_grab.remove(index),
            mouse_grab: match self.mouse_grab {
                Some(m) => if refs_gesture(m.pan_grab, index) {
                    None
                } else {
                    Some(MouseGrab { pan_grab: shift_ref(m.pan_grab, index), ..m })
                },
                None => None,
            },
            touch_grab: Map::new(
                |k: u64|
                    self.touch_grab.contains_key(k) && !refs_gesture(
                        self.touch_grab[k].pan_grab,
                        index,
                    ),
                |k: u64|
                    TouchGrab {
                        pan_grab: shift_ref(self.touch_grab[k].pan_grab, index),
                        ..self.touch_grab[k]
                    },
            ),
            ..self
        }
    }

    /// The gesture at `gi` after its contact point `slot` has left: the
    /// points behind `slot` move down by one.
    pub open spec fn gesture_without(self, gi: int, slot: int) -> PanGrab {
        let g = self.pan_grab[gi];
        if slot == 0 {
            PanGrab { n: (g.n - 1) as usize, coords: (g.coords.1, g.coords.1), ..g }
        } else {
            PanGrab { n: (g.n - 1) as usize, ..g }
        }
    }

    /// The state after contact point `slot` of gesture `gi`, which no grab
    /// contributes any more, has been released: a gesture left without
    /// contact points leaves the list; otherwise its later points, and the
    /// grabs that contribute them, move down by one.
    pub open spec fn release_slot(self, gi: int, slot: int) -> GrabsView {
        if self.pan_grab[gi].n <= 1 {
            self.remove_pan(gi)
        } else {
            GrabsView {
                pan_grab: self.pan_grab.update(gi, self.gesture_without(gi, slot)),
                touch_grab: Map::new(
                    |k: u64| self.touch_grab.contains_key(k),
                    |k: u64|
                        TouchGrab {
                            pan_grab: shift_slot(self.touch_grab[k].pan_grab, gi, slot),
                            ..self.touch_grab[k]
                        },
                ),
                ..self
            }
        }
    }

    /// The state after the contact point that `reference` names has been
    /// released, as [`GrabsView::release_slot`] says. A reference to no
    /// contact point, or to a gesture that the list does not hold, changes
    /// nothing.
    pub open spec fn released(self, reference: Option<(usize, usize)>) -> GrabsView {
        match reference {
            Some((gi, slot)) => if gi < self.pan_grab.len() {
                self.release_slot(gi as int, slot as int)
            } else {
                self
            },
            None => self,
        }
    }

    /// Is the press grab held by `button`?
    pub open spec fn grabbed_by(self, button: MouseButton) -> bool {
        self.mouse_grab matches Some(m) && m.button == button
    }

    /// The state after `button` has been released: the press grab that it
    /// held, if it held one, is gone, and the contact point that the grab
    /// contributed to a pan gesture is released.
    pub open spec fn end_mouse_grab(self, button: MouseButton) -> GrabsView {
        if self.grabbed_by(button) {
            let v = GrabsView { mouse_grab: None, ..self };
            match self.mouse_grab->0.pan_grab {
                Some((g, s)) => v.release_slot(g as int, s as int),
                None => v,
            }
        } else {
            self
        }
    }

    /// The state after the touch `id` has ended: its grab, if it had one,
    /// is gone, and the contact point that the grab contributed to a pan
    /// gesture is released.
    pub open spec fn remove_touch(self, id: u64) -> GrabsView {
        if self.touch_grab.contains_key(id) {
            let v = GrabsView { touch_grab: self.touch_grab.remove(id), ..self };
            match self.touch_grab[id].pan_grab {
                Some((g, s)) => v.release_slot(g as int, s as int),
                None => v,
            }
        } else {
            self
        }
    }

    /// The state after a press on `id` has asked for a grab, and whether it
    /// was given one.
    ///
    /// - A mouse button is refused while the press grab is held: there is
    ///   one press grab at most.
    /// - A touch is refused while it holds a grab already.
    /// - A press that asks for pan events is given a place in a gesture (see
    ///   [`GrabsView::set_pan_on`]), and is refused where the gesture on `id`
    ///   has no room left.
    /// - A handle that is read-only refuses every grab.
    pub open spec fn request_grab(
        self,
        read_only: bool,
        id: WidgetId,
        source: PressSource,
        coord: Coord,
        mode: GrabMode,
    ) -> (GrabsView, bool) {
        let taken = match source {
            PressSource::Mouse(_, _) => self.mouse_grab is Some,
            PressSource::Touch(touch_id) => self.touch_grab.contains_key(touch_id),
        };
        let (w, pan) = if mode != GrabMode::Grab {
            self.set_pan_on(id, mode, source is Touch, coord)
        } else {
            (self, None)
        };
        if read_only || taken || (mode != GrabMode::Grab && pan is None) {
            (self, false)
        } else {
            match source {
                PressSource::Mouse(button, repetitions) => (
                    GrabsView {
                        mouse_grab: Some(
                            MouseGrab {
                                button,
                                repetitions,
                                start_id: id,
                                depress: Some(id),
                                mode,
                                pan_grab: pan,
                            },
                        ),
                        ..w
                    },
                    true,
                ),
                PressSource::Touch(touch_id) => (
                    GrabsView {
                        touch_grab: w.touch_grab.insert(
                            touch_id,
                            TouchGrab {
                                start_id: id,
                                depress: Some(id),
                                cur_id: Some(id),
                                coord,
                                mode,
                                pan_grab: pan,
                            },
                        ),
                        ..w
                    },
                    true,
                ),
            }
        }
    }

    /// The state after a press on `id` has asked for a place in a pan
    /// gesture, and the place it was given.
    ///
    /// - Where no gesture targets `id`, a new one begins.
    /// - Where one does and its contact points are of the other kind (touch
    ///   against mouse), that gesture is taken out first, and a new one begins.
    /// - Where one does and it has room, the press becomes its next contact
    ///   point.
    /// - Where it is full, nothing changes and no place is given.
    pub open spec fn set_pan_on(
        self,
        id: WidgetId,
        mode: GrabMode,
        source_is_touch: bool,
        coord: Coord,
    ) -> (GrabsView, Option<(usize, usize)>) {
        match find_gesture(self.pan_grab, id) {
            Some(gi) => {
                let g = self.pan_grab[gi];
                if g.source_is_touch != source_is_touch {
                    let cleared = self.remove_pan(gi);
                    (
                        GrabsView {
                            pan_grab: cleared.pan_grab.push(
                                new_gesture(id, mode, source_is_touch, coord),
                            ),
                            ..cleared
                        },
                        Some((cleared.pan_grab.len() as usize, 0usize)),
                    )
                } else if g.n < MAX_PAN_GRABS {
                    let p = PanPoint { start: coord, current: coord };
                    (
                        GrabsView {
                            pan_grab: self.pan_grab.update(
                                gi,
                                PanGrab {
                                    n: (g.n + 1) as usize,
                                    ..g.spec_with_point(g.n as int, p)
                                },
                            ),
                            ..self
                        },
                        Some((gi as usize, g.n)),
                    )
                } else {
                    (self, None)
                }
            },
            None => (
                GrabsView {
                    pan_grab: self.pan_grab.push(new_gesture(id, mode, source_is_touch, coord)),
                    ..self
                },
                Some((self.pan_grab.len() as usize, 0usize)),
            ),
        }
    }
}

impl StateView {
    /// The invariant of the focus fields: character focus is held only by
    /// the widget that has selection focus.
    pub open spec fn focus_wf(self) -> bool {
        self.char_focus ==> self.sel_focus is Some
    }

    /// The invariant of the scheduled updates: an update that repeats has an
    /// interval that is not zero.
    pub open spec fn timers_wf(self) -> bool {
        forall|i: int|
            0 <= i < self.time_updates.len() ==> (#[trigger] self.time_updates[i]).interval
                != Some(0u64)
    }

    /// The invariant of the manager's state.
    pub open spec fn wf(self) -> bool {
        &&& self.grabs.wf()
        &&& self.focus_wf()
        &&& self.timers_wf()
        &&& tree_wf(self.tree)
    }
}

/// What `find_gesture_from` finds is the first gesture at or behind `from`
/// that targets `id`; where it finds none, there is none.
pub proof fn lemma_find_gesture_from(pans: Seq<PanGrab>, id: WidgetId, from: int)
    requires
        0 <= from,
    ensures
        match find_gesture_from(pans, id, from) {
            Some(gi) => from <= gi < pans.len() && pans[gi].id == id && forall|j: int|
                from <= j < gi ==> (#[trigger] pans[j]).id != id,
            None => forall|j: int| from <= j < pans.len() ==> (#[trigger] pans[j]).id != id,
        },
    decreases pans.len() - from,
{
    if from < pans.len() && pans[from].id != id {
        lemma_find_gesture_from(pans, id, from + 1);
    }
}

/// Taking a gesture out of the list keeps the invariant of grabs and
/// gestures. Every grab that referenced a gesture behind `index` references
/// the same gesture afterwards, at an index lower by one; the grabs that
/// referenced the gesture itself are gone.
///
/// The invariant may lack one contact point before, if it is the only point
/// of the gesture that leaves.
pub proof fn lemma_remove_pan_wf(v: GrabsView, index: int, hole: Option<(usize, usize)>)
    requires
        v.wf_except(hole),
        0 <= index < v.pan_grab.len(),
        hole matches Some((g, s)) ==> g == index,
    ensures
        v.remove_pan(index).wf(),
        v.remove_pan(index).pan_grab.len() == v.pan_grab.len() - 1,
        forall|k: u64| #[trigger]
            v.remove_pan(index).touch_grab.contains_key(k) <==> v.touch_grab.contains_key(k)
                && !refs_gesture(v.touch_grab[k].pan_grab, index),
        forall|k: u64| #[trigger]
            v.remove_pan(index).touch_grab.contains_key(k) ==> v.remove_pan(
                index,
            ).touch_grab[k].pan_grab == shift_ref(v.touch_grab[k].pan_grab, index),
{
    let w = v.remove_pan(index);
    assert forall|gi: int| 0 <= gi < w.pan_grab.len() implies #[trigger] w.gesture_ok(gi) by {
        if gi < index {
            assert(v.gesture_ok(gi));
        } else {
            assert(v.gesture_ok(gi + 1));
        }
    }
    assert forall|gi: int, gj: int| 0 <= gi < gj < w.pan_grab.len() implies (
    #[trigger] w.pan_grab[gi]).id != (#[trigger] w.pan_grab[gj]).id by {
        let oi = if gi < index { gi } else { gi + 1 };
        let oj = if gj < index { gj } else { gj + 1 };
        assert(v.pan_grab[oi].id != v.pan_grab[oj].id);
    }
    assert forall|k: u64| #[trigger] w.touch_grab.contains_key(k) implies w.ref_ok(
        w.touch_grab[k].pan_grab,
        w.touch_grab[k].mode,
        w.touch_grab[k].start_id,
        true,
    ) by {
        assert(v.touch_grab.contains_key(k));
    }
    assert forall|k1: u64, k2: u64, g: usize, s: usize|
        #[trigger] w.touch_refs(k1, g, s) && #[trigger] w.touch_refs(k2, g, s) implies k1
        == k2 by {
        assert(v.touch_grab.contains_key(k1));
        assert(v.touch_grab.contains_key(k2));
        let og: usize = if g < index { g } else { (g + 1) as usize };
        assert(v.touch_refs(k1, og, s));
        assert(v.touch_refs(k2, og, s));
    }
    assert forall|g: usize, s: usize|
        g < w.pan_grab.len() && s < w.pan_grab[g as int].n implies #[trigger] w.slot_covered(
        g,
        s,
    ) by {
        let og: usize = if g < index { g } else { (g + 1) as usize };
        assert(v.slot_covered(og, s));
        if v.mouse_refs(og, s) {
            assert(w.mouse_refs(g, s));
        } else {
            let k = choose|k: u64| v.touch_refs(k, og, s);
            assert(w.touch_refs(k, g, s));
        }
    }
}

/// Releasing a contact point that no grab contributes any more restores the
/// invariant of grabs and gestures: the gesture either leaves the list, with
/// its last point, or goes on with the points that are left.
pub proof fn lemma_release_slot_wf(v: GrabsView, gi: usize, slot: usize)
    requires
        v.wf_except(Some((gi, slot))),
    ensures
        v.release_slot(gi as int, slot as int).wf(),
{
    let w = v.release_slot(gi as int, slot as int);
    assert(v.gesture_ok(gi as int));
    if v.pan_grab[gi as int].n <= 1 {
        lemma_remove_pan_wf(v, gi as int, Some((gi, slot)));
    } else {
        let other: usize = if slot == 0 { 1 } else { 0 };
        assert forall|g: int| 0 <= g < w.pan_grab.len() implies #[trigger] w.gesture_ok(g) by {
            assert(v.gesture_ok(g));
        }
        assert forall|ga: int, gb: int| 0 <= ga < gb < w.pan_grab.len() implies (
        #[trigger] w.pan_grab[ga]).id != (#[trigger] w.pan_grab[gb]).id by {
            assert(v.pan_grab[ga].id != v.pan_grab[gb].id);
        }
        assert forall|k: u64| #[trigger] w.touch_grab.contains_key(k) implies w.ref_ok(
            w.touch_grab[k].pan_grab,
            w.touch_grab[k].mode,
            w.touch_grab[k].start_id,
            true,
        ) by {
            assert(v.touch_grab.contains_key(k));
            if let Some((g, s)) = v.touch_grab[k].pan_grab {
                if g == gi {
                    assert(v.touch_refs(k, g, s));
                    assert(v.slot_covered(g, s));
                }
            }
        }
        assert forall|k1: u64, k2: u64, g: usize, s: usize|
            #[trigger] w.touch_refs(k1, g, s) && #[trigger] w.touch_refs(k2, g, s) implies k1
            == k2 by {
            assert(v.touch_grab.contains_key(k1));
            assert(v.touch_grab.contains_key(k2));
            if g == gi {
                let s1 = ref_slot(v.touch_grab[k1].pan_grab);
                let s2 = ref_slot(v.touch_grab[k2].pan_grab);
                assert(v.touch_refs(k1, gi, s1));
                assert(v.touch_refs(k2, gi, s2));
                assert(v.slot_covered(gi, s1));
                assert(v.slot_covered(gi, s2));
                assert(s1 == other && s2 == other);
            } else {
                assert(v.touch_refs(k1, g, s));
                assert(v.touch_refs(k2, g, s));
            }
        }
        assert forall|g: usize, s: usize|
            g < w.pan_grab.len() && s < w.pan_grab[g as int].n implies #[trigger] w.slot_covered(
            g,
            s,
        ) by {
            if g == gi {
                assert(v.slot_covered(gi, other));
                let k = choose|k: u64| v.touch_refs(k, gi, other);
                assert(w.touch_refs(k, g, s));
            } else {
                assert(v.slot_covered(g, s));
                if v.mouse_refs(g, s) {
                    assert(w.mouse_refs(g, s));
                } else {
                    let k = choose|k: u64| v.touch_refs(k, g, s);
                    assert(w.touch_refs(k, g, s));
                }
            }
        }
    }
}

/// Giving a press a place in a pan gesture leaves the invariant of grabs and
/// gestures lacking exactly the contact point that was given: it holds again
/// once the grab that contributes the point is recorded.
pub proof fn lemma_set_pan_on_wf(
    v: GrabsView,
    id: WidgetId,
    mode: GrabMode,
    source_is_touch: bool,
    coord: Coord,
)
    requires
        v.wf(),
        mode != GrabMode::Grab,
        !source_is_touch ==> v.mouse_grab is None,
        v.set_pan_on(id, mode, source_is_touch, coord).0.pan_grab.len() <= usize::MAX,
    ensures
        ({
            let (w, r) = v.set_pan_on(id, mode, source_is_touch, coord);
            &&& w.wf_except(r)
            &&& r is None ==> w == v
            &&& r matches Some((g, s)) ==> w.pan_grab[g as int].id == id && w.pan_grab[g as int].source_is_touch
                == source_is_touch
            &&& !source_is_touch ==> w.mouse_grab is None
            &&& forall|k: u64| #[trigger] w.touch_grab.contains_key(k) ==> v.touch_grab.contains_key(k)
        }),
{
    let (w, r) = v.set_pan_on(id, mode, source_is_touch, coord);
    lemma_find_gesture_from(v.pan_grab, id, 0);
    match find_gesture(v.pan_grab, id) {
        Some(gi) => {
            let g = v.pan_grab[gi];
            assert(v.gesture_ok(gi));
            if g.source_is_touch != source_is_touch {
                let c = v.remove_pan(gi);
                lemma_remove_pan_wf(v, gi, None);
                assert forall|j: int| 0 <= j < c.pan_grab.len() implies (
                #[trigger] c.pan_grab[j]).id != id by {
                    if j < gi {
                        assert(v.pan_grab[j].id != v.pan_grab[gi].id);
                    } else {
                        assert(v.pan_grab[gi].id != v.pan_grab[j + 1].id);
                    }
                }
                lemma_push_gesture_wf(c, new_gesture(id, mode, source_is_touch, coord));
            } else if g.n < MAX_PAN_GRABS {
                let gu = gi as usize;
                assert(v.slot_covered(gu, 0));
                if !source_is_touch && !v.mouse_refs(gu, 0) {
                    let k = choose|k: u64| v.touch_refs(k, gu, 0);
                    assert(v.touch_grab.contains_key(k));
                }
                assert forall|j: int| 0 <= j < w.pan_grab.len() implies #[trigger] w.gesture_ok(
                    j,
                ) by {
                    assert(v.gesture_ok(j));
                }
                assert forall|ga: int, gb: int| 0 <= ga < gb < w.pan_grab.len() implies (
                #[trigger] w.pan_grab[ga]).id != (#[trigger] w.pan_grab[gb]).id by {
                    assert(v.pan_grab[ga].id != v.pan_grab[gb].id);
                }
                assert forall|k: u64| #[trigger] w.touch_grab.contains_key(k) implies w.ref_ok(
                    w.touch_grab[k].pan_grab,
                    w.touch_grab[k].mode,
                    w.touch_grab[k].start_id,
                    true,
                ) by {}
                assert forall|k1: u64, k2: u64, a: usize, s: usize|
                    #[trigger] w.touch_refs(k1, a, s) && #[trigger] w.touch_refs(
                        k2,
                        a,
                        s,
                    ) implies k1 == k2 by {
                    assert(v.touch_refs(k1, a, s));
                    assert(v.touch_refs(k2, a, s));
                }
                assert forall|a: usize, s: usize|
                    a < w.pan_grab.len() && s < w.pan_grab[a as int].n && r != Some(
                        (a, s),
                    ) implies #[trigger] w.slot_covered(a, s) by {
                    assert(v.slot_covered(a, s));
                    if !v.mouse_refs(a, s) {
                        let k = choose|k: u64| v.touch_refs(k, a, s);
                        assert(w.touch_refs(k, a, s));
                    }
                }
                assert(!w.slot_covered(gu, g.n)) by {
                    if w.slot_covered(gu, g.n) {
                        if !w.mouse_refs(gu, g.n) {
                            let k = choose|k: u64| w.touch_refs(k, gu, g.n);
                            assert(v.touch_grab.contains_key(k));
                        }
                    }
                }
            }
        },
        None => {
            lemma_push_gesture_wf(v, new_gesture(id, mode, source_is_touch, coord));
        },
    }
}

/// A new gesture with one contact point, put at the end of the list, leaves
/// the invariant lacking that point.
pub proof fn lemma_push_gesture_wf(v: GrabsView, g: PanGrab)
    requires
        v.wf(),
        g.n == 1,
        g.mode != GrabMode::Grab,
        forall|j: int| 0 <= j < v.pan_grab.len() ==> (#[trigger] v.pan_grab[j]).id != g.id,
        v.pan_grab.len() < usize::MAX,
    ensures
        (GrabsView { pan_grab: v.pan_grab.push(g), ..v }).wf_except(
            Some((v.pan_grab.len() as usize, 0usize)),
        ),
{
    let w = GrabsView { pan_grab: v.pan_grab.push(g), ..v };
    let n = v.pan_grab.len() as usize;
    assert forall|j: int| 0 <= j < w.pan_grab.len() implies #[trigger] w.gesture_ok(j) by {
        if j < n {
            assert(v.gesture_ok(j));
        }
    }
    assert forall|ga: int, gb: int| 0 <= ga < gb < w.pan_grab.len() implies (
    #[trigger] w.pan_grab[ga]).id != (#[trigger] w.pan_grab[gb]).id by {
        if gb < n {
            assert(v.pan_grab[ga].id != v.pan_grab[gb].id);
        }
    }
    assert forall|k: u64| #[trigger] w.touch_grab.contains_key(k) implies w.ref_ok(
        w.touch_grab[k].pan_grab,
        w.touch_grab[k].mode,
        w.touch_grab[k].start_id,
        true,
    ) by {}
    assert forall|k1: u64, k2: u64, a: usize, s: usize|
        #[trigger] w.touch_refs(k1, a, s) && #[trigger] w.touch_refs(k2, a, s) implies k1
        == k2 by {
        assert(v.touch_refs(k1, a, s));
        assert(v.touch_refs(k2, a, s));
    }
    assert forall|a: usize, s: usize|
        a < w.pan_grab.len() && s < w.pan_grab[a as int].n && Some((n, 0usize)) != Some(
            (a, s),
        ) implies #[trigger] w.slot_covered(a, s) by {
        assert(v.slot_covered(a, s));
        if !v.mouse_refs(a, s) {
            let k = choose|k: u64| v.touch_refs(k, a, s);
            assert(w.touch_refs(k, a, s));
        }
    }
    assert(!w.slot_covered(n, 0)) by {
        if w.slot_covered(n, 0) {
            if !w.mouse_refs(n, 0) {
                let k = choose|k: u64| w.touch_refs(k, n, 0);
                assert(v.touch_grab.contains_key(k));
            }
        }
    }
}

/// Recording the press grab that contributes the missing contact point
/// completes the invariant of grabs and gestures.
pub proof fn lemma_mouse_grab_added(v: GrabsView, m: MouseGrab)
    requires
        v.wf_except(m.pan_grab),
        v.mouse_grab is None,
        v.ref_ok(m.pan_grab, m.mode, m.start_id, false),
    ensures
        (GrabsView { mouse_grab: Some(m), ..v }).wf(),
{
    let w = GrabsView { mouse_grab: Some(m), ..v };
    assert forall|j: int| 0 <= j < w.pan_grab.len() implies #[trigger] w.gesture_ok(j) by {
        assert(v.gesture_ok(j));
    }
    assert forall|k: u64| #[trigger] w.touch_grab.contains_key(k) implies w.ref_ok(
        w.touch_grab[k].pan_grab,
        w.touch_grab[k].mode,
        w.touch_grab[k].start_id,
        true,
    ) by {}
    assert forall|k1: u64, k2: u64, a: usize, s: usize|
        #[trigger] w.touch_refs(k1, a, s) && #[trigger] w.touch_refs(k2, a, s) implies k1
        == k2 by {
        assert(v.touch_refs(k1, a, s));
        assert(v.touch_refs(k2, a, s));
    }
    assert forall|a: usize, s: usize|
        a < w.pan_grab.len() && s < w.pan_grab[a as int].n implies #[trigger] w.slot_covered(
        a,
        s,
    ) by {
        if m.pan_grab != Some((a, s)) {
            assert(v.slot_covered(a, s));
            if !v.mouse_refs(a, s) {
                let k = choose|k: u64| v.touch_refs(k, a, s);
                assert(w.touch_refs(k, a, s));
            }
        }
    }
}

/// Recording the touch grab that contributes the missing contact point
/// completes the invariant of grabs and gestures.
pub proof fn lemma_touch_grab_added(v: GrabsView, id: u64, t: TouchGrab)
    requires
        v.wf_except(t.pan_grab),
        !v.touch_grab.contains_key(id),
        v.ref_ok(t.pan_grab, t.mode, t.start_id, true),
    ensures
        (GrabsView { touch_grab: v.touch_grab.insert(id, t), ..v }).wf(),
{
    let w = GrabsView { touch_grab: v.touch_grab.insert(id, t), ..v };
    assert forall|j: int| 0 <= j < w.pan_grab.len() implies #[trigger] w.gesture_ok(j) by {
        assert(v.gesture_ok(j));
    }
    assert forall|k: u64| #[trigger] w.touch_grab.contains_key(k) implies w.ref_ok(
        w.touch_grab[k].pan_grab,
        w.touch_grab[k].mode,
        w.touch_grab[k].start_id,
        true,
    ) by {
        if k != id {
            assert(v.touch_grab.contains_key(k));
        }
    }
    assert forall|k1: u64, k2: u64, a: usize, s: usize|
        #[trigger] w.touch_refs(k1, a, s) && #[trigger] w.touch_refs(k2, a, s) implies k1
        == k2 by {
        if k1 != id && k2 != id {
            assert(v.touch_refs(k1, a, s));
            assert(v.touch_refs(k2, a, s));
        } else if k1 != id {
            assert(v.touch_refs(k1, a, s));
            assert(v.slot_covered(a, s));
        } else if k2 != id {
            assert(v.touch_refs(k2, a, s));
            assert(v.slot_covered(a, s));
        }
    }
    assert forall|a: usize, s: usize|
        a < w.pan_grab.len() && s < w.pan_grab[a as int].n implies #[trigger] w.slot_covered(
        a,
        s,
    ) by {
        if t.pan_grab != Some((a, s)) {
            assert(v.slot_covered(a, s));
            if !v.mouse_refs(a, s) {
                let k = choose|k: u64| v.touch_refs(k, a, s);
                assert(w.touch_refs(k, a, s));
            }
        } else {
            assert(w.touch_refs(id, a, s));
        }
    }
}

/// Once the press grab is taken away, the invariant of grabs and gestures
/// lacks exactly the contact point that the grab contributed.
pub proof fn lemma_mouse_grab_taken(v: GrabsView)
    requires
        v.wf(),
        v.mouse_grab is Some,
    ensures
        (GrabsView { mouse_grab: None, ..v }).wf_except(v.mouse_grab->0.pan_grab),
{
    let w = GrabsView { mouse_grab: None, ..v };
    let m = v.mouse_grab->0;
    assert forall|j: int| 0 <= j < w.pan_grab.len() implies #[trigger] w.gesture_ok(j) by {
        assert(v.gesture_ok(j));
    }
    assert forall|k: u64| #[trigger] w.touch_grab.contains_key(k) implies w.ref_ok(
        w.touch_grab[k].pan_grab,
        w.touch_grab[k].mode,
        w.touch_grab[k].start_id,
        true,
    ) by {}
    assert forall|k1: u64, k2: u64, a: usize, s: usize|
        #[trigger] w.touch_refs(k1, a, s) && #[trigger] w.touch_refs(k2, a, s) implies k1
        == k2 by {
        assert(v.touch_refs(k1, a, s));
        assert(v.touch_refs(k2, a, s));
    }
    assert forall|a: usize, s: usize|
        a < w.pan_grab.len() && s < w.pan_grab[a as int].n && m.pan_grab != Some(
            (a, s),
        ) implies #[trigger] w.slot_covered(a, s) by {
        assert(v.slot_covered(a, s));
        let k = choose|k: u64| v.touch_refs(k, a, s);
        assert(w.touch_refs(k, a, s));
    }
    if let Some((g, s)) = m.pan_grab {
        assert(!w.slot_covered(g, s)) by {
            if w.slot_covered(g, s) {
                let k = choose|k: u64| w.touch_refs(k, g, s);
                assert(v.touch_grab.contains_key(k));
            }
        }
    }
}

/// Once a touch grab is taken away, the invariant of grabs and gestures
/// lacks exactly the contact point that the grab contributed.
pub proof fn lemma_touch_grab_taken(v: GrabsView, id: u64)
    requires
        v.wf(),
        v.touch_grab.contains_key(id),
    ensures
        (GrabsView { touch_grab: v.touch_grab.remove(id), ..v }).wf_except(
            v.touch_grab[id].pan_grab,
        ),
{
    let w = GrabsView { touch_grab: v.touch_grab.remove(id), ..v };
    let t = v.touch_grab[id];
    assert forall|j: int| 0 <= j < w.pan_grab.len() implies #[trigger] w.gesture_ok(j) by {
        assert(v.gesture_ok(j));
    }
    assert forall|k: u64| #[trigger] w.touch_grab.contains_key(k) implies w.ref_ok(
        w.touch_grab[k].pan_grab,
        w.touch_grab[k].mode,
        w.touch_grab[k].start_id,
        true,
    ) by {
        assert(v.touch_grab.contains_key(k));
    }
    assert forall|k1: u64, k2: u64, a: usize, s: usize|
        #[trigger] w.touch_refs(k1, a, s) && #[trigger] w.touch_refs(k2, a, s) implies k1
        == k2 by {
        assert(v.touch_refs(k1, a, s));
        assert(v.touch_refs(k2, a, s));
    }
    assert forall|a: usize, s: usize|
        a < w.pan_grab.len() && s < w.pan_grab[a as int].n && t.pan_grab != Some(
            (a, s),
        ) implies #[trigger] w.slot_covered(a, s) by {
        assert(v.slot_covered(a, s));
        if !v.mouse_refs(a, s) {
            let k = choose|k: u64| v.touch_refs(k, a, s);
            assert(v.touch_refs(id, a, s) ==> k == id);
            assert(w.touch_refs(k, a, s));
        }
    }
    if let Some((g, s)) = t.pan_grab {
        assert(v.touch_refs(id, g, s));
        assert(!w.slot_covered(g, s)) by {
            if w.slot_covered(g, s) {
                if w.mouse_refs(g, s) {
                    assert(v.mouse_refs(g, s));
                } else {
                    let k = choose|k: u64| w.touch_refs(k, g, s);
                    assert(v.touch_refs(k, g, s));
                }
            }
        }
    }
}

} // verus!
