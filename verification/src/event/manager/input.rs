//! Pointer, touch and deferred events, as functions on [`StateView`].

use vstd::prelude::*;
use crate::event::manager::{
    GrabMode, GrabsView, MouseGrab, PanGrab, Pending, StateView, TouchGrab,
};
use crate::event::{Event, MouseButton, PanPoint, PressSource, WidgetId};
use crate::geom::Coord;

verus! {

/// The gesture after the contact point in `slot` has moved to `coord`.
pub open spec fn gesture_moved(g: PanGrab, slot: int, coord: Coord) -> PanGrab {
    g.spec_with_point(slot, PanPoint { start: g.spec_point(slot).start, current: coord })
}

/// The gesture after its movement has been reported: every contact point
/// starts anew where it is.
pub open spec fn gesture_settled(g: PanGrab) -> PanGrab {
    PanGrab {
        coords: (
            PanPoint { start: g.coords.0.current, current: g.coords.0.current },
            PanPoint { start: g.coords.1.current, current: g.coords.1.current },
        ),
        ..g
    }
}

/// Has a contact point of the gesture moved since the movement was last
/// reported?
pub open spec fn gesture_has_moved(g: PanGrab) -> bool {
    (g.n >= 1 && g.coords.0.start != g.coords.0.current) || (g.n >= 2 && g.coords.1.start
        != g.coords.1.current)
}

/// The event that reports the movement of a gesture.
pub open spec fn pan_event(g: PanGrab) -> Event {
    Event::Pan {
        mode: g.mode,
        first: g.coords.0,
        second: if g.n >= 2 {
            Some(g.coords.1)
        } else {
            None
        },
    }
}

/// The reports of movement that are due for `pans`: one for each gesture
/// with a contact point that has moved, addressed to the gesture's widget.
pub open spec fn pan_events(pans: Seq<PanGrab>) -> Seq<(WidgetId, Event)>
    decreases pans.len(),
{
    if pans.len() == 0 {
        Seq::empty()
    } else {
        let rest = pan_events(pans.drop_last());
        if gesture_has_moved(pans.last()) {
            rest.push((pans.last().id, pan_event(pans.last())))
        } else {
            rest
        }
    }
}

/// The widget to which a deferred notification goes, and the event that
/// carries it.
pub open spec fn pending_event(p: Pending) -> (WidgetId, Event) {
    match p {
        Pending::LostCharFocus(id) => (id, Event::LostCharFocus),
        Pending::LostSelFocus(id) => (id, Event::LostSelFocus),
        Pending::PopupRemoved(parent, window) => (parent, Event::PopupRemoved(window)),
        Pending::NewPopup(id) => (id, Event::NewPopup(id)),
    }
}

impl GrabsView {
    /// The grabs after the contact point that `r` names has moved to
    /// `coord`; nothing changes where `r` names none.
    pub open spec fn move_pan_point(self, r: Option<(usize, usize)>, coord: Coord) -> GrabsView {
        match r {
            Some((g, s)) => if g < self.pan_grab.len() {
                GrabsView {
                    pan_grab: self.pan_grab.update(
                        g as int,
                        gesture_moved(self.pan_grab[g as int], s as int, coord),
                    ),
                    ..self
                }
            } else {
                self
            },
            None => self,
        }
    }

    /// The grabs after the press `source` has been told to show the widget
    /// `target` as depressed, or none: its grab, if it holds one, records it.
    pub open spec fn set_depress(self, source: PressSource, target: Option<WidgetId>) -> GrabsView {
        match source {
            PressSource::Mouse(_, _) => match self.mouse_grab {
                Some(grab) => GrabsView {
                    mouse_grab: Some(MouseGrab { depress: target, ..grab }),
                    ..self
                },
                None => self,
            },
            PressSource::Touch(id) => if self.touch_grab.contains_key(id) {
                GrabsView {
                    touch_grab: self.touch_grab.insert(
                        id,
                        TouchGrab { depress: target, ..self.touch_grab[id] },
                    ),
                    ..self
                }
            } else {
                self
            },
        }
    }

    /// The widget that the grab of the press `source` shows as depressed.
    pub open spec fn depressed_by(self, source: PressSource) -> Option<WidgetId> {
        match source {
            PressSource::Mouse(_, _) => match self.mouse_grab {
                Some(grab) => grab.depress,
                None => None,
            },
            PressSource::Touch(id) => if self.touch_grab.contains_key(id) {
                self.touch_grab[id].depress
            } else {
                None
            },
        }
    }

    /// Does a grab show the widget `id` as depressed?
    pub open spec fn depresses(self, id: WidgetId) -> bool {
        (self.mouse_grab matches Some(grab) && grab.depress == Some(id)) || exists|k: u64|
            #[trigger] self.touch_grab.contains_key(k) && self.touch_grab[k].depress == Some(id)
    }

    /// The grabs after the movement of every gesture has been reported.
    pub open spec fn settle(self) -> GrabsView {
        GrabsView {
            pan_grab: Seq::new(self.pan_grab.len(), |i: int| gesture_settled(self.pan_grab[i])),
            ..self
        }
    }

    /// The grabs after the touch `id` has moved to `coord`, over the widget
    /// `hit`: its grab records where it is, and a grab that delivers pan
    /// events moves its contact point.
    pub open spec fn touch_moved(self, id: u64, coord: Coord, hit: Option<WidgetId>) -> GrabsView {
        if self.touch_grab.contains_key(id) {
            let t = self.touch_grab[id];
            let v = GrabsView {
                touch_grab: self.touch_grab.insert(id, TouchGrab { coord, cur_id: hit, ..t }),
                ..self
            };
            if t.mode == GrabMode::Grab {
                v
            } else {
                v.move_pan_point(t.pan_grab, coord)
            }
        } else {
            self
        }
    }
}

impl StateView {
    /// The state after the mouse pointer has moved to `coord`, over the
    /// widget `hit`.
    ///
    /// - While a press grab delivers press events, nothing else changes.
    /// - While a press grab delivers pan events, its contact point moves.
    /// - Without a press grab, the widget under the pointer is hovered.
    pub open spec fn cursor_moved(self, coord: Coord, hit: Option<WidgetId>) -> StateView {
        let v = StateView { last_mouse_coord: coord, ..self };
        match self.grabs.mouse_grab {
            Some(grab) => if grab.mode == GrabMode::Grab {
                v
            } else {
                StateView { grabs: self.grabs.move_pan_point(grab.pan_grab, coord), ..v }
            },
            None => if self.hover != hit {
                v.set_hover(hit)
            } else {
                v
            },
        }
    }

    /// The event that a move of the mouse pointer to `coord`, over the
    /// widget `hit`, delivers, and the widget that receives it: while a press
    /// grab delivers press events, the widget that holds the grab is told of
    /// the move.
    pub open spec fn cursor_move_event(self, coord: Coord, hit: Option<WidgetId>) -> Option<
        (WidgetId, Event),
    > {
        match self.grabs.mouse_grab {
            Some(grab) => if grab.mode == GrabMode::Grab {
                Some(
                    (
                        grab.start_id,
                        Event::PressMove {
                            source: PressSource::Mouse(grab.button, grab.repetitions),
                            cur_id: hit,
                            coord,
                            delta: coord.spec_delta(self.last_mouse_coord),
                        },
                    ),
                )
            } else {
                None
            },
            None => None,
        }
    }

    /// The event that a press of `button` delivers, and the widget that
    /// receives it: the hovered widget is told of the press, unless a press
    /// grab is held.
    pub open spec fn press_start_event(self, button: MouseButton) -> Option<(WidgetId, Event)> {
        if self.grabs.mouse_grab is None && self.hover is Some {
            Some(
                (
                    self.hover->0,
                    Event::PressStart {
                        source: PressSource::Mouse(button, 1),
                        start_id: self.hover,
                        coord: self.last_mouse_coord,
                    },
                ),
            )
        } else {
            None
        }
    }

    /// The event that the release of `button` delivers, and the widget that
    /// receives it: the widget that holds the press grab of `button` is told
    /// of the release, where the grab delivers press events.
    pub open spec fn press_end_event(self, button: MouseButton) -> Option<(WidgetId, Event)> {
        match self.grabs.mouse_grab {
            Some(grab) => if grab.button == button && grab.mode == GrabMode::Grab {
                Some(
                    (
                        grab.start_id,
                        Event::PressEnd {
                            source: PressSource::Mouse(grab.button, grab.repetitions),
                            end_id: self.hover,
                            coord: self.last_mouse_coord,
                        },
                    ),
                )
            } else {
                None
            },
            None => None,
        }
    }

    /// The event that a move of the touch `id` to `coord`, over the widget
    /// `hit`, delivers, and the widget that receives it: the widget that
    /// holds the grab of the touch is told of the move, where the grab
    /// delivers press events.
    pub open spec fn touch_move_event(self, id: u64, coord: Coord, hit: Option<WidgetId>)
        -> Option<(WidgetId, Event)> {
        if self.grabs.touch_grab.contains_key(id) && self.grabs.touch_grab[id].mode
            == GrabMode::Grab {
            Some(
                (
                    self.grabs.touch_grab[id].start_id,
                    Event::PressMove {
                        source: PressSource::Touch(id),
                        cur_id: hit,
                        coord,
                        delta: coord.spec_delta(self.grabs.touch_grab[id].coord),
                    },
                ),
            )
        } else {
            None
        }
    }

    /// The event that the end of the touch `id` at `coord` delivers, and the
    /// widget that receives it: the widget that holds the grab of the touch
    /// is told of the end, where the grab delivers press events.
    pub open spec fn touch_end_event(self, id: u64, coord: Coord) -> Option<(WidgetId, Event)> {
        if self.grabs.touch_grab.contains_key(id) && self.grabs.touch_grab[id].mode
            == GrabMode::Grab {
            Some(
                (
                    self.grabs.touch_grab[id].start_id,
                    Event::PressEnd {
                        source: PressSource::Touch(id),
                        end_id: self.grabs.touch_grab[id].cur_id,
                        coord,
                    },
                ),
            )
        } else {
            None
        }
    }

    /// The widget that receives the typed character `c`: the one with
    /// character focus. The escape character is not delivered.
    pub open spec fn char_target(self, c: char) -> Option<WidgetId> {
        if self.char_focus && c != '\u{1b}' {
            self.sel_focus
        } else {
            None
        }
    }
}

/// Moving a contact point keeps the invariant of grabs and gestures.
pub proof fn lemma_move_pan_point_wf(v: GrabsView, r: Option<(usize, usize)>, coord: Coord)
    requires
        v.wf(),
    ensures
        v.move_pan_point(r, coord).wf(),
{
    let w = v.move_pan_point(r, coord);
    lemma_same_shape_wf(v, w);
}

/// Reporting the movement of every gesture keeps the invariant of grabs and
/// gestures.
pub proof fn lemma_settle_wf(v: GrabsView)
    requires
        v.wf(),
    ensures
        v.settle().wf(),
{
    lemma_same_shape_wf(v, v.settle());
}

/// Recording which widget a grab shows as depressed keeps the invariant of
/// grabs and gestures.
pub proof fn lemma_set_depress_wf(v: GrabsView, source: PressSource, target: Option<WidgetId>)
    requires
        v.wf(),
    ensures
        v.set_depress(source, target).wf(),
{
    lemma_same_shape_wf(v, v.set_depress(source, target));
}

/// Recording where a touch is keeps the invariant of grabs and gestures.
pub proof fn lemma_touch_moved_wf(v: GrabsView, id: u64, coord: Coord, hit: Option<WidgetId>)
    requires
        v.wf(),
    ensures
        v.touch_moved(id, coord, hit).wf(),
{
    if v.touch_grab.contains_key(id) {
        let t = v.touch_grab[id];
        let u = GrabsView {
            touch_grab: v.touch_grab.insert(id, TouchGrab { coord, cur_id: hit, ..t }),
            ..v
        };
        lemma_same_shape_wf(v, u);
        if t.mode != GrabMode::Grab {
            lemma_move_pan_point_wf(u, t.pan_grab, coord);
        }
    }
}

/// The invariant of grabs and gestures speaks only of which grabs there
/// are, of what they reference, of the widgets they start at and of the
/// gestures' targets, sources, modes and numbers of contact points. Grabs
/// that agree in all that are well formed together.
pub proof fn lemma_same_shape_wf(v: GrabsView, w: GrabsView)
    requires
        v.wf(),
        w.pan_grab.len() == v.pan_grab.len(),
        forall|g: int|
            0 <= g < v.pan_grab.len() ==> {
                &&& (#[trigger] w.pan_grab[g]).id == v.pan_grab[g].id
                &&& w.pan_grab[g].mode == v.pan_grab[g].mode
                &&& w.pan_grab[g].source_is_touch == v.pan_grab[g].source_is_touch
                &&& w.pan_grab[g].n == v.pan_grab[g].n
            },
        match (v.mouse_grab, w.mouse_grab) {
            (Some(a), Some(b)) => a.pan_grab == b.pan_grab && a.mode == b.mode && a.start_id
                == b.start_id,
            (None, None) => true,
            _ => false,
        },
        forall|k: u64| #[trigger] w.touch_grab.contains_key(k) <==> v.touch_grab.contains_key(k),
        forall|k: u64| #[trigger]
            v.touch_grab.contains_key(k) ==> {
                &&& w.touch_grab[k].pan_grab == v.touch_grab[k].pan_grab
                &&& w.touch_grab[k].mode == v.touch_grab[k].mode
                &&& w.touch_grab[k].start_id == v.touch_grab[k].start_id
            },
    ensures
        w.wf(),
{
    assert forall|g: int| 0 <= g < w.pan_grab.len() implies #[trigger] w.gesture_ok(g) by {
        assert(v.gesture_ok(g));
    }
    assert forall|ga: int, gb: int| 0 <= ga < gb < w.pan_grab.len() implies (
    #[trigger] w.pan_grab[ga]).id != (#[trigger] w.pan_grab[gb]).id by {
        assert(v.pan_grab[ga].id != v.pan_grab[gb].id);
    }
    assert forall|k: u64| #[trigger] w.touch_grab.contains_key(k) implies w.ref_ok(
        w.touch_grab[k].pan_grab,
        w.touch_grab[k].mode,
        w.touch_grab[k].start_id,
        true,
    ) by {
        assert(v.touch_grab.contains_key(k));
    }
    assert forall|k1: u64, k2: u64, g: usize, s: usize|
        #[trigger] w.touch_refs(k1, g, s) && #[trigger] w.touch_refs(k2, g, s) implies k1
        == k2 by {
        assert(v.touch_grab.contains_key(k1));
        assert(v.touch_grab.contains_key(k2));
        assert(v.touch_refs(k1, g, s));
        assert(v.touch_refs(k2, g, s));
    }
    assert forall|g: usize, s: usize|
        g < w.pan_grab.len() && s < w.pan_grab[g as int].n implies #[trigger] w.slot_covered(
        g,
        s,
    ) by {
        assert(v.slot_covered(g, s));
        if !v.mouse_refs(g, s) {
            let k = choose|k: u64| v.touch_refs(k, g, s);
            assert(v.touch_grab.contains_key(k));
            assert(w.touch_refs(k, g, s));
        }
    }
}

} // verus!
