//! What holds of the manager's state whenever it can be observed

use vstd::prelude::*;
use crate::event::manager::model::{lemma_remove_pan_wf, refs_gesture, shift_ref};
use crate::event::manager::{GrabMode, GrabsView, StateView};
use crate::event::{MouseButton, PressSource, WidgetId};
use crate::geom::Coord;

verus! {

/// There is never more than one press grab: while one is held, a mouse
/// button that asks for a grab is refused, and nothing changes.
pub proof fn lemma_single_press_grab(
    v: GrabsView,
    read_only: bool,
    id: WidgetId,
    button: MouseButton,
    repetitions: u32,
    coord: Coord,
    mode: GrabMode,
)
    requires
        v.mouse_grab is Some,
    ensures
        v.request_grab(read_only, id, PressSource::Mouse(button, repetitions), coord, mode) == (
            v,
            false,
        ),
{
}

/// A pan gesture in the list has one or two contact points and is
/// referenced by a grab; and a gesture that a grab references is in the
/// list. So a gesture is absent from the list exactly when no grab
/// references it.
pub proof fn lemma_gesture_points(v: GrabsView, g: usize)
    requires
        v.wf(),
    ensures
        g < v.pan_grab.len() ==> 1 <= v.pan_grab[g as int].n <= 2,
        g < v.pan_grab.len() <==> v.gesture_referenced(g),
{
    if g < v.pan_grab.len() {
        assert(v.gesture_ok(g as int));
        assert(v.slot_covered(g, 0));
    }
    if v.gesture_referenced(g) {
        let s = choose|s: usize| v.slot_covered(g, s);
        if !v.mouse_refs(g, s) {
            let k = choose|k: u64| v.touch_refs(k, g, s);
            assert(v.touch_grab.contains_key(k));
        }
    }
}

/// Taking the gesture at `index` out of the list removes the grabs that
/// referenced it, lowers by one the gesture index of every grab that
/// referenced a gesture behind it, and leaves every other grab as it was;
/// no grab changes in anything but its gesture index. The invariant of grabs
/// and gestures holds afterwards as before.
pub proof fn lemma_remove_pan_shifts(v: GrabsView, index: int)
    requires
        v.wf(),
        0 <= index < v.pan_grab.len(),
    ensures
        v.remove_pan(index).wf(),
        v.remove_pan(index).pan_grab == v.pan_grab.remove(index),
        forall|k: u64| #[trigger]
            v.remove_pan(index).touch_grab.contains_key(k) <==> v.touch_grab.contains_key(k)
                && !refs_gesture(v.touch_grab[k].pan_grab, index),
        forall|k: u64| #[trigger]
            v.remove_pan(index).touch_grab.contains_key(k) ==> {
                let before = v.touch_grab[k];
                let after = v.remove_pan(index).touch_grab[k];
                &&& after.start_id == before.start_id
                &&& after.mode == before.mode
                &&& after.coord == before.coord
                &&& match before.pan_grab {
                    Some((g, s)) => after.pan_grab == (if g > index {
                        Some(((g - 1) as usize, s))
                    } else {
                        Some((g, s))
                    }),
                    None => after.pan_grab is None,
                }
            },
        v.remove_pan(index).mouse_grab is Some <==> v.mouse_grab is Some && !refs_gesture(
            v.mouse_grab->0.pan_grab,
            index,
        ),
        v.remove_pan(index).mouse_grab is Some ==> v.remove_pan(index).mouse_grab->0.pan_grab
            == shift_ref(v.mouse_grab->0.pan_grab, index),
{
    lemma_remove_pan_wf(v, index, None);
}

/// Character focus is held only by the widget with selection focus: where
/// character focus is set, a widget has selection focus. A change of
/// character focus keeps that, and the widget that is given character focus
/// has selection and navigation focus with it.
pub proof fn lemma_char_focus_has_target(v: StateView, wid: Option<WidgetId>)
    requires
        v.focus_wf(),
    ensures
        v.char_focus ==> v.sel_focus is Some,
        v.set_char_focus(wid).focus_wf(),
        v.set_char_focus(wid).char_focus == wid is Some,
        wid is Some ==> v.set_char_focus(wid).sel_focus == wid && v.set_char_focus(
            wid,
        ).nav_focus == wid,
{
}

} // verus!
