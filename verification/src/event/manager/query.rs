//! Event manager: reading the state

use vstd::prelude::*;
use crate::event::containers::{
    key_get, pan_get, pan_len, pending_get, pending_len, popup_get, popup_len, touch_entries,
    touch_get, touch_pairs,
};
use crate::event::manager::{
    same_widget, Manager, ManagerState, MouseGrab, PanGrab, Pending, StateView, TimerEntry, TouchGrab,
};
use crate::event::tree::WidgetTree;
use crate::event::{CursorIcon, ModifiersState, Popup, WidgetId, WindowId};
use crate::geom::Coord;
use crate::toolkit::{TkAction, TkWindow};

verus! {

/// A copy of a vector of plain values.
pub fn copy_vec<T: Copy>(v: &Vec<T>) -> (r: Vec<T>)
    ensures
        r@ == v@,
{
    let mut r: Vec<T> = Vec::new();
    let mut i: usize = 0;
    while i < v.len()
        invariant
            0 <= i <= v@.len(),
            r@ == v@.take(i as int),
        decreases v@.len() - i,
    {
        r.push(v[i]);
        proof {
            assert(v@.take(i + 1) =~= v@.take(i as int).push(v@[i as int]));
        }
        i = i + 1;
    }
    proof {
        assert(v@.take(v@.len() as int) =~= v@);
    }
    r
}

impl ManagerState {
    /// The invariant of the state; see [`StateView::wf`].
    pub open spec fn wf(&self) -> bool {
        self@.wf()
    }

    /// The modifier keys that are held.
    pub fn modifiers(&self) -> (r: ModifiersState)
        ensures
            r == self@.modifiers,
    {
        self.modifiers
    }

    /// Does the widget `id` have character focus?
    pub fn char_focus(&self, id: WidgetId) -> (r: bool)
        ensures
            r == (self@.char_focus && self@.sel_focus == Some(id)),
    {
        match self.sel_focus {
            Some(sel) => self.char_focus && sel == id,
            None => false,
        }
    }

    /// The widget with selection focus, if any.
    pub fn sel_focus(&self) -> (r: Option<WidgetId>)
        ensures
            r == self@.sel_focus,
    {
        self.sel_focus
    }

    /// The widget with navigation focus, if any.
    pub fn nav_focus(&self) -> (r: Option<WidgetId>)
        ensures
            r == self@.nav_focus,
    {
        self.nav_focus
    }

    /// The widget that receives commands while none has navigation focus.
    pub fn nav_fallback(&self) -> (r: Option<WidgetId>)
        ensures
            r == self@.nav_fallback,
    {
        self.nav_fallback
    }

    /// The widget under the mouse pointer, if any.
    pub fn hover(&self) -> (r: Option<WidgetId>)
        ensures
            r == self@.hover,
    {
        self.hover
    }

    /// The cursor icon that the hovered widget asks for.
    pub fn hover_icon(&self) -> (r: CursorIcon)
        ensures
            r == self@.hover_icon,
    {
        self.hover_icon
    }

    /// Where the mouse pointer was last seen.
    pub fn last_mouse_coord(&self) -> (r: Coord)
        ensures
            r == self@.last_mouse_coord,
    {
        self.last_mouse_coord
    }

    /// The press grab, if there is one.
    pub fn mouse_grab(&self) -> (r: Option<MouseGrab>)
        ensures
            r == self@.grabs.mouse_grab,
    {
        self.mouse_grab
    }

    /// The touch grab of the touch `touch_id`, if there is one.
    pub fn touch_grab(&self, touch_id: u64) -> (r: Option<TouchGrab>)
        ensures
            r == (if self@.grabs.touch_grab.contains_key(touch_id) {
                Some(self@.grabs.touch_grab[touch_id])
            } else {
                None
            }),
    {
        touch_get(&self.touch_grab, touch_id)
    }

    /// The number of pan gestures.
    pub fn pan_grab_count(&self) -> (n: usize)
        ensures
            n == self@.grabs.pan_grab.len(),
    {
        pan_len(&self.pan_grab)
    }

    /// The pan gesture at `index`, if there is one.
    pub fn pan_grab(&self, index: usize) -> (r: Option<PanGrab>)
        ensures
            r == (if index < self@.grabs.pan_grab.len() {
                Some(self@.grabs.pan_grab[index as int])
            } else {
                None
            }),
    {
        if index < pan_len(&self.pan_grab) {
            Some(pan_get(&self.pan_grab, index))
        } else {
            None
        }
    }

    /// The widget shown as depressed by the key with the given scan code.
    pub fn key_depress(&self, scancode: u32) -> (r: Option<WidgetId>)
        ensures
            r == (if self@.key_depress.contains_key(scancode) {
                Some(self@.key_depress[scancode])
            } else {
                None
            }),
    {
        key_get(&self.key_depress, scancode)
    }

    /// Is the widget `id` shown as depressed, by a key or by a grab?
    pub fn is_depressed(&self, id: WidgetId) -> (r: bool)
        ensures
            r == (self@.key_depresses(id) || self@.grabs.depresses(id)),
    {
        if self.is_key_depressed(id) {
            return true;
        }
        if let Some(grab) = self.mouse_grab {
            if same_widget(grab.depress, Some(id)) {
                return true;
            }
        }
        let pairs = touch_pairs(&self.touch_grab);
        let mut i: usize = 0;
        while i < pairs.len()
            invariant
                0 <= i <= pairs@.len(),
                forall|j: int| 0 <= j < i ==> (#[trigger] pairs@[j]).1.depress != Some(id),
                forall|j: int|
                    0 <= j < pairs@.len() ==> self@.grabs.touch_grab.contains_key(
                        #[trigger] pairs@[j].0,
                    ) && self@.grabs.touch_grab[pairs@[j].0] == pairs@[j].1,
            decreases pairs@.len() - i,
        {
            if same_widget(pairs[i].1.depress, Some(id)) {
                proof {
                    assert(self@.grabs.touch_grab.contains_key(pairs@[i as int].0));
                }
                return true;
            }
            i = i + 1;
        }
        proof {
            if self@.grabs.depresses(id) {
                let k = choose|k: u64| #[trigger]
                    self@.grabs.touch_grab.contains_key(k) && self@.grabs.touch_grab[k].depress
                        == Some(id);
                assert(touch_entries(self.touch_grab).contains_key(k));
                let j = choose|j: int| 0 <= j < pairs@.len() && pairs@[j].0 == k;
                assert(pairs@[j].1.depress != Some(id));
            }
        }
        false
    }

    /// Is the mouse pointer over the widget `id`?
    pub fn is_hovered(&self, id: WidgetId) -> (r: bool)
        ensures
            r == (self@.grabs.mouse_grab is None && self@.hover == Some(id)),
    {
        self.mouse_grab.is_none() && same_widget(self.hover, Some(id))
    }

    /// Asks for an action of the window, outside the handling of an event.
    /// The window remembers the most severe action that was asked for.
    pub fn send_action(&mut self, action: TkAction)
        ensures
            final(self)@ == (StateView { action: old(self)@.action.spec_max(action), ..old(self)@ }),
    {
        self.action = self.action.max(action);
    }

    /// The open pop-ups, most recently opened last.
    pub fn popups(&self) -> (r: Vec<(WindowId, Popup)>)
        ensures
            r@ == self@.popups,
    {
        let mut r: Vec<(WindowId, Popup)> = Vec::new();
        let n = popup_len(&self.popups);
        let mut i: usize = 0;
        while i < n
            invariant
                0 <= i <= n,
                n == self@.popups.len(),
                r@ == self@.popups.take(i as int),
            decreases n - i,
        {
            r.push(popup_get(&self.popups, i));
            proof {
                assert(self@.popups.take(i + 1) =~= self@.popups.take(i as int).push(
                    self@.popups[i as int],
                ));
            }
            i = i + 1;
        }
        proof {
            assert(self@.popups.take(n as int) =~= self@.popups);
        }
        r
    }

    /// The notifications that wait to be delivered, oldest first.
    pub fn pending(&self) -> (r: Vec<Pending>)
        ensures
            r@ == self@.pending,
    {
        let mut r: Vec<Pending> = Vec::new();
        let n = pending_len(&self.pending);
        let mut i: usize = 0;
        while i < n
            invariant
                0 <= i <= n,
                n == self@.pending.len(),
                r@ == self@.pending.take(i as int),
            decreases n - i,
        {
            r.push(pending_get(&self.pending, i));
            proof {
                assert(self@.pending.take(i + 1) =~= self@.pending.take(i as int).push(
                    self@.pending[i as int],
                ));
            }
            i = i + 1;
        }
        proof {
            assert(self@.pending.take(n as int) =~= self@.pending);
        }
        r
    }

    /// The scheduled updates.
    pub fn time_updates(&self) -> (r: Vec<TimerEntry>)
        ensures
            r@ == self@.time_updates,
    {
        copy_vec(&self.time_updates)
    }

    /// The action that the window must take.
    pub fn action(&self) -> (r: TkAction)
        ensures
            r == self@.action,
    {
        self.action
    }

    /// The widget tree, as the last configuration found it.
    pub fn tree(&self) -> (r: &WidgetTree)
        ensures
            r@ == self@.tree,
    {
        &self.tree
    }
}

impl<'a, S: TkWindow> Manager<'a, S> {
    /// Read access to the state that the handle changes.
    pub fn state_ref(&self) -> (r: &ManagerState)
        ensures
            r@ == self.state(),
    {
        &*self.state
    }

    /// The action that was asked for through this handle and is not yet
    /// taken.
    pub fn pending_action(&self) -> (r: TkAction)
        ensures
            r == self.action(),
    {
        self.action
    }
}

} // verus!
