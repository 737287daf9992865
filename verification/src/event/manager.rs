//! Event manager

use vstd::prelude::*;

pub mod dispatch;
pub mod input;
pub mod laws;
pub mod mgr_pub;
pub mod mgr_shell;
pub mod model;
pub mod query;
pub mod remap;
pub mod routing;

use std::collections::HashMap;
use crate::event::configure::{child_depth, Configuration};
use crate::event::containers::{
    key_entries, key_insert, key_new, key_pairs, key_remove, pan_get, pan_items, pan_len, pan_new,
    pan_push, pan_remove, pan_set, set_members, touch_entries, touch_get, touch_insert, touch_new,
    pending_items, pending_new, pending_push, popup_get, popup_items, popup_len, popup_new,
    touch_pairs, touch_remove, KeyMap, PanList, PendingList, PopupList, TouchMap, WidgetSet,
};
use crate::event::handler::{answered, Widget};
use crate::event::manager::dispatch::{delivers, key_pressed, popup_first};
use crate::event::manager::model::{
    find_gesture, find_gesture_from, lemma_find_gesture_from, lemma_mouse_grab_taken,
    lemma_release_slot_wf, lemma_set_pan_on_wf, lemma_touch_grab_taken, refs_gesture, shift_ref,
    shift_slot,
};
use crate::event::manager::routing::{lemma_close_popups, KeyRoute};
use crate::event::tree::{WidgetNode, WidgetTree};
use crate::event::{
    Command, CursorIcon, Event, ModifiersState, MouseButton, PanPoint, Popup, Response,
    UpdateHandle, VirtualKeyCode, WidgetId, WindowId, FIRST_ID,
};
use crate::geom::Coord;
use crate::toolkit::{
    lemma_action_max_is_join, shell_step, ShellCall, TkAction, TkWindow,
};

verus! {

broadcast use vstd::std_specs::hash::group_hash_axioms;

/// Controls the types of events delivered for a grabbed press
#[derive(Clone, Copy, Debug, PartialEq, Eq, Structural)]
pub enum GrabMode {
    /// Deliver press-move and press-end events for each press
    Grab,
    /// Deliver pan events, with scaling and rotation
    PanFull,
    /// Deliver pan events, with scaling
    PanScale,
    /// Deliver pan events, with rotation
    PanRotate,
    /// Deliver pan events, without scaling or rotation
    PanOnly,
}

/// The most contact points that a pan gesture takes
pub const MAX_PAN_GRABS: usize = 2;

/// The press grab: a mouse button held down over a widget that asked for
/// every event of the press
#[derive(Clone, Copy, Debug, PartialEq, Eq)]
pub struct MouseGrab {
    /// The button that is held
    pub button: MouseButton,
    /// How many times it was pressed in quick succession
    pub repetitions: u32,
    /// The widget that started the grab and receives its events
    pub start_id: WidgetId,
    /// The widget shown as depressed, if any
    pub depress: Option<WidgetId>,
    /// What is delivered for the press
    pub mode: GrabMode,
    /// The pan gesture to which the press contributes, as index into the
    /// list of gestures and number of the contact point within the gesture
    pub pan_grab: Option<(usize, usize)>,
}

/// A touch grab: a finger on the screen over a widget that asked for every
/// event of the touch
#[derive(Clone, Copy, Debug, PartialEq, Eq)]
pub struct TouchGrab {
    /// The widget that started the grab and receives its events
    pub start_id: WidgetId,
    /// The widget shown as depressed, if any
    pub depress: Option<WidgetId>,
    /// The widget under the finger, if any
    pub cur_id: Option<WidgetId>,
    /// Where the finger was last seen
    pub coord: Coord,
    /// What is delivered for the touch
    pub mode: GrabMode,
    /// The pan gesture to which the touch contributes, as index into the
    /// list of gestures and number of the contact point within the gesture
    pub pan_grab: Option<(usize, usize)>,
}

/// A pan gesture: one or two presses on one widget, from which a
/// movement, scaling and rotation are derived
#[derive(Clone, Copy, Debug, PartialEq, Eq)]
pub struct PanGrab {
    /// The widget that the gesture targets
    pub id: WidgetId,
    /// What the gesture delivers
    pub mode: GrabMode,
    /// Whether the contact points are touches (else: the mouse)
    pub source_is_touch: bool,
    /// The number of contact points
    pub n: usize,
    /// The contact points; the first `n` are in use
    pub coords: (PanPoint, PanPoint),
}

impl PanGrab {
    /// The contact point in slot `slot`
    pub open spec fn spec_point(self, slot: int) -> PanPoint {
        if slot == 0 {
            self.coords.0
        } else {
            self.coords.1
        }
    }

    /// The gesture with the contact point in slot `slot` replaced
    pub open spec fn spec_with_point(self, slot: int, p: PanPoint) -> PanGrab {
        if slot == 0 {
            PanGrab { coords: (p, self.coords.1), ..self }
        } else {
            PanGrab { coords: (self.coords.0, p), ..self }
        }
    }

    /// The contact point in slot `slot`
    pub fn point(&self, slot: usize) -> (p: PanPoint)
        ensures
            p == self.spec_point(slot as int),
    {
        if slot == 0 {
            self.coords.0
        } else {
            self.coords.1
        }
    }

    /// The gesture with the contact point in slot `slot` replaced
    pub fn with_point(&self, slot: usize, p: PanPoint) -> (g: PanGrab)
        ensures
            g == self.spec_with_point(slot as int, p),
    {
        if slot == 0 {
            PanGrab {
                id: self.id,
                mode: self.mode,
                source_is_touch: self.source_is_touch,
                n: self.n,
                coords: (p, self.coords.1),
            }
        } else {
            PanGrab {
                id: self.id,
                mode: self.mode,
                source_is_touch: self.source_is_touch,
                n: self.n,
                coords: (self.coords.0, p),
            }
        }
    }
}

/// A notification that waits to be delivered once the event in progress has
/// been handled
#[derive(Clone, Copy, Debug, PartialEq, Eq)]
pub enum Pending {
    /// The widget lost character focus
    LostCharFocus(WidgetId),
    /// The widget lost selection focus
    LostSelFocus(WidgetId),
    /// A pop-up opened by the widget (first) was closed (second: its handle)
    PopupRemoved(WidgetId, WindowId),
    /// The widget is now shown in a pop-up
    NewPopup(WidgetId),
}

/// A scheduled update of a widget
#[derive(Clone, Copy, Debug, PartialEq, Eq)]
pub struct TimerEntry {
    /// The instant at which the update is due
    pub due: u64,
    /// The widget to update
    pub id: WidgetId,
    /// The interval after which the update is due again; `None` for an
    /// update that happens once
    pub interval: Option<u64>,
}

/// A layer of accelerator keys: the keys that activate widgets within one
/// scope, the window or a pop-up
pub struct AccelLayer {
    /// Whether the keys work without the alt key held
    pub alt_bypass: bool,
    /// The widget that each key activates, by the key's code
    pub keys: HashMap<u32, WidgetId>,
}

/// The mathematical content of an [`AccelLayer`]
pub struct AccelView {
    /// Whether the keys work without the alt key held
    pub alt_bypass: bool,
    /// The widget that each key activates, by the key's code
    pub keys: Map<u32, WidgetId>,
}

impl View for AccelLayer {
    type V = AccelView;

    open spec fn view(&self) -> AccelView {
        AccelView { alt_bypass: self.alt_bypass, keys: self.keys@ }
    }
}

/// The grabs and pan gestures of a [`ManagerState`]
pub struct GrabsView {
    /// The press grab, if a mouse button is held and grabbed
    pub mouse_grab: Option<MouseGrab>,
    /// The touch grabs, by touch identifier
    pub touch_grab: Map<u64, TouchGrab>,
    /// The pan gestures
    pub pan_grab: Seq<PanGrab>,
}

/// The mathematical content of a [`ManagerState`]: what every contract of
/// the manager speaks of.
pub struct StateView {
    /// The modifier keys held down
    pub modifiers: ModifiersState,
    /// Whether typed characters go to the widget with selection focus
    pub char_focus: bool,
    /// The widget that receives keyboard commands
    pub sel_focus: Option<WidgetId>,
    /// The widget highlighted by Tab traversal
    pub nav_focus: Option<WidgetId>,
    /// The widget that receives commands when none has navigation focus
    pub nav_fallback: Option<WidgetId>,
    /// The widget under the mouse pointer
    pub hover: Option<WidgetId>,
    /// The cursor icon that the hovered widget asks for
    pub hover_icon: CursorIcon,
    /// The widgets shown as depressed by a key, by the key's scan code
    pub key_depress: Map<u32, WidgetId>,
    /// Where the mouse pointer was last seen
    pub last_mouse_coord: Coord,
    /// The grabs and the pan gestures
    pub grabs: GrabsView,
    /// The accelerator layers under construction, innermost last
    pub accel_stack: Seq<AccelView>,
    /// The finished accelerator layers, by the widget that owns each
    pub accel_layers: Map<WidgetId, AccelView>,
    /// The open pop-ups, most recently opened last
    pub popups: Seq<(WindowId, Popup)>,
    /// The notifications that wait to be delivered, oldest first
    pub pending: Seq<Pending>,
    /// The scheduled updates
    pub time_updates: Seq<TimerEntry>,
    /// The widgets that wait on each update handle
    pub handle_updates: Map<UpdateHandle, Set<WidgetId>>,
    /// The action that the window must take
    pub action: TkAction,
    /// The widget tree, as the last configuration found it
    pub tree: Seq<WidgetNode>,
}

/// Event manager state
///
/// This struct holds the event-handling state of one window. It is created
/// once per window and changed only through a [`Manager`] handle.
pub struct ManagerState {
    modifiers: ModifiersState,
    /// char focus is on same widget as sel_focus; otherwise its value is ignored
    char_focus: bool,
    sel_focus: Option<WidgetId>,
    nav_focus: Option<WidgetId>,
    nav_fallback: Option<WidgetId>,
    hover: Option<WidgetId>,
    hover_icon: CursorIcon,
    key_depress: KeyMap,
    last_mouse_coord: Coord,
    mouse_grab: Option<MouseGrab>,
    touch_grab: TouchMap,
    pan_grab: PanList,
    accel_stack: Vec<AccelLayer>,
    accel_layers: HashMap<WidgetId, AccelLayer>,
    popups: PopupList,
    time_updates: Vec<TimerEntry>,
    handle_updates: HashMap<UpdateHandle, WidgetSet>,
    pending: PendingList,
    action: TkAction,
    tree: WidgetTree,
}

impl View for ManagerState {
    type V = StateView;

    closed spec fn view(&self) -> StateView {
        StateView {
            modifiers: self.modifiers,
            char_focus: self.char_focus,
            sel_focus: self.sel_focus,
            nav_focus: self.nav_focus,
            nav_fallback: self.nav_fallback,
            hover: self.hover,
            hover_icon: self.hover_icon,
            key_depress: key_entries(self.key_depress),
            last_mouse_coord: self.last_mouse_coord,
            grabs: GrabsView {
                mouse_grab: self.mouse_grab,
                touch_grab: touch_entries(self.touch_grab),
                pan_grab: pan_items(self.pan_grab),
            },
            accel_stack: self.accel_stack@.map_values(|l: AccelLayer| l@),
            accel_layers: self.accel_layers@.map_values(|l: AccelLayer| l@),
            popups: popup_items(self.popups),
            pending: pending_items(self.pending),
            time_updates: self.time_updates@,
            handle_updates: self.handle_updates@.map_values(|s: WidgetSet| set_members(s)),
            action: self.action,
            tree: self.tree@,
        }
    }
}

impl StateView {
    /// The state of a window on which nothing has happened yet.
    pub open spec fn initial() -> StateView {
        StateView {
            modifiers: ModifiersState::spec_empty(),
            char_focus: false,
            sel_focus: None,
            nav_focus: None,
            nav_fallback: None,
            hover: None,
            hover_icon: CursorIcon::Default,
            key_depress: Map::empty(),
            last_mouse_coord: Coord(0, 0),
            grabs: GrabsView { mouse_grab: None, touch_grab: Map::empty(), pan_grab: Seq::empty() },
            accel_stack: Seq::empty(),
            accel_layers: Map::empty(),
            popups: Seq::empty(),
            pending: Seq::empty(),
            time_updates: Seq::empty(),
            handle_updates: Map::empty(),
            action: TkAction::Nothing,
            tree: Seq::empty(),
        }
    }
}

/// Replaces every touch grab by what `f` makes of it, and takes out those
/// for which `f` gives nothing. `pairs` lists the map, and `edits` holds, for
/// each entry of `pairs`, what `f` makes of it.
pub(crate) fn rewrite_touch_grabs(
    m: &mut TouchMap,
    pairs: &Vec<(u64, TouchGrab)>,
    edits: &Vec<Option<TouchGrab>>,
    Ghost(f): Ghost<spec_fn(TouchGrab) -> Option<TouchGrab>>,
)
    requires
        forall|i: int|
            0 <= i < pairs@.len() ==> touch_entries(*old(m)).contains_key(#[trigger] pairs@[i].0)
                && touch_entries(*old(m))[pairs@[i].0] == pairs@[i].1,
        forall|i: int, j: int| 0 <= i < j < pairs@.len() ==> pairs@[i].0 != pairs@[j].0,
        forall|k: u64| #[trigger]
            touch_entries(*old(m)).contains_key(k) ==> exists|i: int|
                0 <= i < pairs@.len() && pairs@[i].0 == k,
        edits@.len() == pairs@.len(),
        forall|i: int| 0 <= i < pairs@.len() ==> #[trigger] edits@[i] == f(pairs@[i].1),
    ensures
        forall|k: u64| #[trigger]
            touch_entries(*final(m)).contains_key(k) <==> touch_entries(*old(m)).contains_key(k)
                && f(touch_entries(*old(m))[k]) is Some,
        forall|k: u64| #[trigger]
            touch_entries(*final(m)).contains_key(k) ==> Some(touch_entries(*final(m))[k]) == f(
                touch_entries(*old(m))[k],
            ),
{
    let ghost before = touch_entries(*m);
    let ghost target = Map::new(
        |k: u64| before.contains_key(k) && f(before[k]) is Some,
        |k: u64| f(before[k])->0,
    );
    let mut i: usize = 0;
    while i < pairs.len()
        invariant
            0 <= i <= pairs@.len(),
            edits@.len() == pairs@.len(),
            forall|j: int|
                0 <= j < pairs@.len() ==> before.contains_key(#[trigger] pairs@[j].0)
                    && before[pairs@[j].0] == pairs@[j].1,
            forall|a: int, b: int| 0 <= a < b < pairs@.len() ==> pairs@[a].0 != pairs@[b].0,
            forall|j: int| 0 <= j < pairs@.len() ==> #[trigger] edits@[j] == f(pairs@[j].1),
            forall|j: int|
                0 <= j < i ==> (touch_entries(*m).contains_key(#[trigger] pairs@[j].0)
                    <==> target.contains_key(pairs@[j].0)) && (target.contains_key(pairs@[j].0)
                    ==> touch_entries(*m)[pairs@[j].0] == target[pairs@[j].0]),
            forall|j: int|
                i <= j < pairs@.len() ==> touch_entries(*m).contains_key(#[trigger] pairs@[j].0)
                    && touch_entries(*m)[pairs@[j].0] == pairs@[j].1,
            forall|k: u64| #[trigger] touch_entries(*m).contains_key(k) ==> before.contains_key(k),
            target == Map::new(
                |k: u64| before.contains_key(k) && f(before[k]) is Some,
                |k: u64| f(before[k])->0,
            ),
        decreases pairs@.len() - i,
    {
        let key = pairs[i].0;
        match edits[i] {
            Some(grab) => {
                let _ = touch_insert(m, key, grab);
            },
            None => {
                let _ = touch_remove(m, key);
            },
        }
        i = i + 1;
    }
    assert forall|k: u64| touch_entries(*m).contains_key(k) == target.contains_key(k) && (
    target.contains_key(k) ==> touch_entries(*m)[k] == target[k]) by {
        if before.contains_key(k) {
            let j = choose|j: int| 0 <= j < pairs@.len() && pairs@[j].0 == k;
            assert(touch_entries(*m).contains_key(pairs@[j].0) <==> target.contains_key(
                pairs@[j].0,
            ));
        }
    }
    assert(touch_entries(*m) =~= target);
}

impl ManagerState {
    /// The state of a window on which nothing has happened yet.
    pub fn new() -> (s: ManagerState)
        ensures
            s@ == StateView::initial(),
            s@.wf(),
    {
        let s = ManagerState {
            modifiers: ModifiersState::empty(),
            char_focus: false,
            sel_focus: None,
            nav_focus: None,
            nav_fallback: None,
            hover: None,
            hover_icon: CursorIcon::Default,
            key_depress: key_new(),
            last_mouse_coord: Coord(0, 0),
            mouse_grab: None,
            touch_grab: touch_new(),
            pan_grab: pan_new(),
            accel_stack: Vec::new(),
            accel_layers: HashMap::new(),
            popups: popup_new(),
            time_updates: Vec::new(),
            handle_updates: HashMap::new(),
            pending: pending_new(),
            action: TkAction::Nothing,
            tree: WidgetTree::new(),
        };
        proof {
            assert(s@.accel_stack =~= Seq::empty());
            assert(s@.accel_layers =~= Map::empty());
            assert(s@.handle_updates =~= Map::empty());
        }
        s
    }

    /// Looks for the gesture that targets `id`.
    fn find_pan(&self, id: WidgetId) -> (r: Option<usize>)
        ensures
            match r {
                Some(gi) => find_gesture(self@.grabs.pan_grab, id) == Some(gi as int),
                None => find_gesture(self@.grabs.pan_grab, id) is None,
            },
    {
        let n = pan_len(&self.pan_grab);
        let mut gi: usize = 0;
        while gi < n
            invariant
                0 <= gi <= n,
                n == self@.grabs.pan_grab.len(),
                find_gesture(self@.grabs.pan_grab, id) == find_gesture_from(
                    self@.grabs.pan_grab,
                    id,
                    gi as int,
                ),
            decreases n - gi,
        {
            if pan_get(&self.pan_grab, gi).id == id {
                return Some(gi);
            }
            gi = gi + 1;
        }
        None
    }

    /// Gives a press on `id` a place in a pan gesture: the next contact
    /// point of the gesture that targets `id`, or the first of a new one.
    ///
    /// Returns the place as index of the gesture and number of the contact
    /// point, or `None` where the gesture on `id` has no room left. A gesture
    /// on `id` whose contact points are of the other kind is ended first.
    ///
    /// The grab that contributes the contact point is recorded by the
    /// caller; until then the state lacks it.
    pub(crate) fn set_pan_on(
        &mut self,
        id: WidgetId,
        mode: GrabMode,
        source_is_touch: bool,
        coord: Coord,
    ) -> (r: Option<(usize, usize)>)
        requires
            old(self)@.grabs.wf(),
            mode != GrabMode::Grab,
            !source_is_touch ==> old(self)@.grabs.mouse_grab is None,
        ensures
            final(self)@ == (StateView {
                grabs: old(self)@.grabs.set_pan_on(id, mode, source_is_touch, coord).0,
                ..old(self)@
            }),
            r == old(self)@.grabs.set_pan_on(id, mode, source_is_touch, coord).1,
            final(self)@.grabs.wf_except(r),
            r matches Some((g, s)) ==> final(self)@.grabs.pan_grab[g as int].id == id,
            r matches Some((g, s)) ==> final(self)@.grabs.pan_grab[g as int].source_is_touch
                == source_is_touch,
            r is None ==> final(self)@ == old(self)@,
            !source_is_touch ==> final(self)@.grabs.mouse_grab is None,
            forall|k: u64| #[trigger]
                final(self)@.grabs.touch_grab.contains_key(k) ==> old(
                    self,
                )@.grabs.touch_grab.contains_key(k),
    {
        let ghost before = self@.grabs;
        let point = PanPoint { start: coord, current: coord };
        let fresh = PanGrab { id, mode, source_is_touch, n: 1, coords: (point, point) };
        let r = match self.find_pan(id) {
            Some(gi) => {
                proof {
                    lemma_find_gesture_from(before.pan_grab, id, 0);
                    assert(before.gesture_ok(gi as int));
                }
                let grab = pan_get(&self.pan_grab, gi);
                if grab.source_is_touch != source_is_touch {
                    self.remove_pan(gi);
                    let gj = pan_len(&self.pan_grab);
                    pan_push(&mut self.pan_grab, fresh);
                    Some((gj, 0))
                } else if grab.n < MAX_PAN_GRABS {
                    let index = grab.n;
                    let moved = grab.with_point(index, point);
                    pan_set(
                        &mut self.pan_grab,
                        gi,
                        PanGrab {
                            id: moved.id,
                            mode: moved.mode,
                            source_is_touch: moved.source_is_touch,
                            n: index + 1,
                            coords: moved.coords,
                        },
                    );
                    Some((gi, index))
                } else {
                    None
                }
            },
            None => {
                let gj = pan_len(&self.pan_grab);
                pan_push(&mut self.pan_grab, fresh);
                Some((gj, 0))
            },
        };
        let n = pan_len(&self.pan_grab);
        proof {
            assert(self@.grabs == before.set_pan_on(id, mode, source_is_touch, coord).0);
            lemma_set_pan_on_wf(before, id, mode, source_is_touch, coord);
        }
        r
    }

    /// Takes the gesture at `index` out of the list.
    ///
    /// The grabs that contribute to the gesture end with it, and every grab
    /// that references a gesture behind `index` is moved to that gesture's
    /// new index, which is lower by one.
    pub(crate) fn remove_pan(&mut self, index: usize)
        requires
            index < old(self)@.grabs.pan_grab.len(),
        ensures
            final(self)@ == (StateView {
                grabs: old(self)@.grabs.remove_pan(index as int),
                ..old(self)@
            }),
    {
        let ghost before = self@.grabs;
        let _ = pan_remove(&mut self.pan_grab, index);
        match self.mouse_grab {
            Some(grab) => {
                match grab.pan_grab {
                    Some((gesture, slot)) => {
                        if gesture == index {
                            self.mouse_grab = None;
                        } else if gesture > index {
                            self.mouse_grab = Some(
                                MouseGrab {
                                    button: grab.button,
                                    repetitions: grab.repetitions,
                                    start_id: grab.start_id,
                                    depress: grab.depress,
                                    mode: grab.mode,
                                    pan_grab: Some((gesture - 1, slot)),
                                },
                            );
                        }
                    },
                    None => {},
                }
            },
            None => {},
        }
        let pairs = touch_pairs(&self.touch_grab);
        let ghost f = |t: TouchGrab|
            if refs_gesture(t.pan_grab, index as int) {
                None
            } else {
                Some(TouchGrab { pan_grab: shift_ref(t.pan_grab, index as int), ..t })
            };
        let mut edits: Vec<Option<TouchGrab>> = Vec::new();
        let mut i: usize = 0;
        while i < pairs.len()
            invariant
                0 <= i <= pairs@.len(),
                edits@.len() == i,
                forall|j: int| 0 <= j < i ==> #[trigger] edits@[j] == f(pairs@[j].1),
                f == (|t: TouchGrab|
                    if refs_gesture(t.pan_grab, index as int) {
                        None
                    } else {
                        Some(TouchGrab { pan_grab: shift_ref(t.pan_grab, index as int), ..t })
                    }),
            decreases pairs@.len() - i,
        {
            let grab = pairs[i].1;
            let edit = match grab.pan_grab {
                Some((gesture, slot)) => {
                    if gesture == index {
                        None
                    } else if gesture > index {
                        Some(
                            TouchGrab {
                                start_id: grab.start_id,
                                depress: grab.depress,
                                cur_id: grab.cur_id,
                                coord: grab.coord,
                                mode: grab.mode,
                                pan_grab: Some((gesture - 1, slot)),
                            },
                        )
                    } else {
                        Some(grab)
                    }
                },
                None => Some(grab),
            };
            edits.push(edit);
            i = i + 1;
        }
        rewrite_touch_grabs(&mut self.touch_grab, &pairs, &edits, Ghost(f));
        proof {
            assert(self@.grabs.touch_grab =~= before.remove_pan(index as int).touch_grab);
        }
    }

    /// Releases the contact point that `reference` names, after the grab
    /// that contributed it has ended: contact point `g.1` of the gesture at
    /// `g.0`. Where the grab contributed none, or the list has no gesture at
    /// that index, nothing changes.
    ///
    /// A gesture left without contact points leaves the list. Otherwise the
    /// contact points behind the released one move down by one, and so do
    /// the references of the touch grabs that contribute them.
    pub(crate) fn remove_pan_grab(&mut self, reference: Option<(usize, usize)>)
        ensures
            final(self)@ == (StateView {
                grabs: old(self)@.grabs.released(reference),
                ..old(self)@
            }),
            old(self)@.grabs.wf_except(reference) ==> final(self)@.grabs.wf(),
    {
        let ghost before = self@.grabs;
        let g = match reference {
            Some(g) => g,
            None => {
                return ;
            },
        };
        if g.0 >= pan_len(&self.pan_grab) {
            return ;
        }
        proof {
            if before.wf_except(reference) {
                lemma_release_slot_wf(before, g.0, g.1);
            }
        }
        let grab = pan_get(&self.pan_grab, g.0);
        if grab.n <= 1 {
            self.remove_pan(g.0);
            return ;
        }
        let coords = if g.1 == 0 {
            (grab.coords.1, grab.coords.1)
        } else {
            grab.coords
        };
        pan_set(
            &mut self.pan_grab,
            g.0,
            PanGrab {
                id: grab.id,
                mode: grab.mode,
                source_is_touch: grab.source_is_touch,
                n: grab.n - 1,
                coords,
            },
        );
        let pairs = touch_pairs(&self.touch_grab);
        let ghost f = |t: TouchGrab|
            Some(TouchGrab { pan_grab: shift_slot(t.pan_grab, g.0 as int, g.1 as int), ..t });
        let mut edits: Vec<Option<TouchGrab>> = Vec::new();
        let mut i: usize = 0;
        while i < pairs.len()
            invariant
                0 <= i <= pairs@.len(),
                edits@.len() == i,
                forall|j: int| 0 <= j < i ==> #[trigger] edits@[j] == f(pairs@[j].1),
                f == (|t: TouchGrab|
                    Some(
                        TouchGrab { pan_grab: shift_slot(t.pan_grab, g.0 as int, g.1 as int), ..t },
                    )),
            decreases pairs@.len() - i,
        {
            let grab = pairs[i].1;
            let edit = match grab.pan_grab {
                Some((gesture, slot)) => {
                    if gesture == g.0 && slot > g.1 {
                        TouchGrab {
                            start_id: grab.start_id,
                            depress: grab.depress,
                            cur_id: grab.cur_id,
                            coord: grab.coord,
                            mode: grab.mode,
                            pan_grab: Some((gesture, slot - 1)),
                        }
                    } else {
                        grab
                    }
                },
                None => grab,
            };
            edits.push(Some(edit));
            i = i + 1;
        }
        rewrite_touch_grabs(&mut self.touch_grab, &pairs, &edits, Ghost(f));
        proof {
            assert(self@.grabs.touch_grab =~= before.release_slot(
                g.0 as int,
                g.1 as int,
            ).touch_grab);
        }
    }
}

impl ManagerState {
    /// Is a widget shown as depressed by some key?
    pub fn is_key_depressed(&self, id: WidgetId) -> (r: bool)
        ensures
            r == self@.key_depresses(id),
    {
        let pairs = key_pairs(&self.key_depress);
        let mut i: usize = 0;
        while i < pairs.len()
            invariant
                0 <= i <= pairs@.len(),
                forall|j: int| 0 <= j < i ==> (#[trigger] pairs@[j]).1 != id,
                forall|j: int|
                    0 <= j < pairs@.len() ==> self@.key_depress.contains_key(#[trigger] pairs@[j].0)
                        && self@.key_depress[pairs@[j].0] == pairs@[j].1,
            decreases pairs@.len() - i,
        {
            if pairs[i].1 == id {
                proof {
                    assert(self@.key_depress.contains_key(pairs@[i as int].0));
                }
                return true;
            }
            i = i + 1;
        }
        proof {
            if self@.key_depresses(id) {
                let scancode = choose|scancode: u32| #[trigger]
                    self@.key_depress.contains_key(scancode) && self@.key_depress[scancode] == id;
                assert(self@.key_depress.contains_key(scancode));
                assert(key_entries(self.key_depress).contains_key(scancode));
                let j = choose|j: int| 0 <= j < pairs@.len() && pairs@[j].0 == scancode;
                assert(pairs@[j].1 != id);
            }
        }
        false
    }

    /// Looks for the pop-up with the handle `id`: the first in the stack,
    /// from the bottom.
    pub fn find_popup(&self, id: WindowId) -> (r: Option<usize>)
        ensures
            match r {
                Some(i) => self@.find_popup_from(id, 0) == Some(i as int) && i < self@.popups.len(),
                None => self@.find_popup_from(id, 0) is None,
            },
    {
        let n = popup_len(&self.popups);
        let mut i: usize = 0;
        while i < n
            invariant
                0 <= i <= n,
                n == self@.popups.len(),
                self@.find_popup_from(id, 0) == self@.find_popup_from(id, i as int),
            decreases n - i,
        {
            if popup_get(&self.popups, i).0 == id {
                return Some(i);
            }
            i = i + 1;
        }
        None
    }

    /// Looks for the key with `code` in the accelerator layers, from the
    /// layer of the topmost pop-up's parent down to that of `root`, and
    /// returns the depth of the first layer that binds the key and may be
    /// used, with the widget that the key activates there.
    pub fn find_accel(&self, root: WidgetId, code: u32) -> (r: Option<(usize, WidgetId)>)
        ensures
            match r {
                Some((n, id)) => self@.accel_search(root, code, 0) == Some((n as int, id)),
                None => self@.accel_search(root, code, 0) is None,
            },
    {
        let len = popup_len(&self.popups);
        let mut i: usize = 0;
        while i <= len
            invariant
                0 <= i <= len + 1,
                len == self@.popups.len(),
                self@.accel_search(root, code, 0) == self@.accel_search(root, code, i as int),
            decreases len + 1 - i,
        {
            let owner = if i < len {
                popup_get(&self.popups, len - 1 - i).1.parent
            } else {
                root
            };
            proof {
                assert(owner == self@.accel_owner(root, i as int));
            }
            match self.accel_layers.get(&owner) {
                Some(layer) => {
                    // but only when Alt is held or alt-bypass is enabled:
                    if self.modifiers.alt() || layer.alt_bypass {
                        match layer.keys.get(&code) {
                            Some(id) => {
                                return Some((i, *id));
                            },
                            None => {},
                        }
                    }
                },
                None => {},
            }
            proof {
                assert(self@.accel_hit(root, code, i as int) is None);
                assert(self@.accel_search(root, code, len as int + 1) is None);
            }
            if i == len {
                return None;
            }
            i = i + 1;
        }
        None
    }
}

/// Manager of event-handling and toolkit actions
///
/// A `Manager` is a handle around a [`ManagerState`] and the toolkit's
/// window. One is made for each event that the toolkit hands over, and is
/// dropped when the event has been handled; all changes of the state go
/// through it.
#[must_use]
pub struct Manager<'a, S: TkWindow> {
    read_only: bool,
    state: &'a mut ManagerState,
    shell: &'a mut S,
    action: TkAction,
}

/// The content of a [`Manager`]: the state that the handle changes, the
/// toolkit's window that it calls, and what the handle holds of its own
///
/// `S` is the type of the toolkit's window. Where the window is left out, as
/// in what a widget says of itself, `S` is the unit type.
pub struct ManagerView<S> {
    /// The state that the handle changes
    pub state: StateView,
    /// The toolkit's window
    pub shell: S,
    /// The action that was asked for through the handle
    pub action: TkAction,
    /// Whether the handle refuses to start grabs
    pub read_only: bool,
}

impl<'a, S: TkWindow> View for Manager<'a, S> {
    type V = ManagerView<S>;

    open spec fn view(&self) -> ManagerView<S> {
        ManagerView {
            state: self.state(),
            shell: self.shell(),
            action: self.action(),
            read_only: self.read_only(),
        }
    }
}

/// Helper used during widget configuration
///
/// The handle is passed down the widget tree: each widget takes its new
/// identifier from [`ConfigureManager::next_id`] and passes
/// [`ConfigureManager::child`] to each of its children.
pub struct ConfigureManager<'a, 'b, S: TkWindow> {
    /// The record of the walk
    pub cfg: &'b mut Configuration,
    /// The manager, for what widgets register while they are configured
    pub mgr: &'b mut Manager<'a, S>,
    /// The number of widgets above the widget that holds the handle
    pub depth: u32,
}

impl<'a, S: TkWindow> Manager<'a, S> {
    /// The state that the handle changes.
    pub closed spec fn state(&self) -> StateView {
        self.state@
    }

    /// The action that the window must take because of what was done
    /// through this handle.
    pub closed spec fn action(&self) -> TkAction {
        self.action
    }

    /// Whether the handle refuses to start grabs.
    pub closed spec fn read_only(&self) -> bool {
        self.read_only
    }

    /// The toolkit's window, which the handle calls.
    pub closed spec fn shell(&self) -> S {
        *self.shell
    }

    /// The invariant of the manager: that of its state.
    pub open spec fn wf(&self) -> bool {
        self.state().wf()
    }

    /// Deliver `event` to the widget `id`.
    ///
    /// What the widget answers is folded into the window's action; that
    /// nobody handled the event is not an error.
    pub(crate) fn send_event<W: Widget>(&mut self, widget: &mut W, id: WidgetId, event: Event)
        requires
            old(self).wf(),
        ensures
            final(self).wf(),
            delivers(*old(widget), old(self)@, id, event, *final(widget), final(self)@),
    {
        let response = widget.send(self, id, event);
        let ghost mid = self@;
        self.fold_response(response);
        proof {
            assert(answered(*old(widget), old(self)@, id, event, *widget, mid, response)
                && self@ == mid.folded(response));
        }
    }

    /// Takes note of what a widget answered: an action that it asks for is
    /// added to the window's.
    pub fn fold_response(&mut self, response: Response)
        ensures
            final(self).state() == old(self).state(),
            final(self).read_only() == old(self).read_only(),
            final(self).shell() == old(self).shell(),
            final(self).action() == (match response {
                Response::Action(action) => old(self).action().spec_max(action),
                _ => old(self).action(),
            }),
    {
        match response {
            Response::Action(action) => {
                self.action = self.action.max(action);
            },
            _ => {},
        }
    }

    /// Deliver `event` to the parents of the open pop-ups, topmost first,
    /// closing each pop-up whose parent does not handle it; where none does,
    /// deliver it to `id`.
    ///
    /// No more pop-ups are closed than were open at the start.
    pub(crate) fn send_popup_first<W: Widget>(&mut self, widget: &mut W, id: WidgetId, event: Event)
        requires
            old(self).wf(),
        ensures
            final(self).wf(),
            popup_first(
                *old(widget),
                old(self)@,
                id,
                event,
                *final(widget),
                final(self)@,
                old(self).state().popups.len(),
            ),
    {
        let budget = popup_len(&self.state.popups);
        self.send_popup_chain(widget, id, event, budget);
    }

    /// Deliver `event` as [`Manager::send_popup_first`] does, closing
    /// `budget` pop-ups at most.
    fn send_popup_chain<W: Widget>(
        &mut self,
        widget: &mut W,
        id: WidgetId,
        event: Event,
        budget: usize,
    )
        requires
            old(self).wf(),
        ensures
            final(self).wf(),
            popup_first(
                *old(widget),
                old(self)@,
                id,
                event,
                *final(widget),
                final(self)@,
                budget as nat,
            ),
        decreases budget,
    {
        if budget > 0 && popup_len(&self.state.popups) > 0 {
            let top = popup_get(&self.state.popups, popup_len(&self.state.popups) - 1);
            let response = widget.send(self, top.1.parent, event);
            let ghost mid = self@;
            let ghost wm = *widget;
            self.fold_response(response);
            if !popup_passes(response) {
                proof {
                    assert(answered(
                        *old(widget),
                        old(self)@,
                        top.1.parent,
                        event,
                        wm,
                        mid,
                        response,
                    ));
                }
                return ;
            }
            self.close_window(top.0);
            let ghost closed = self@;
            self.send_popup_chain(widget, id, event, budget - 1);
            proof {
                assert(mid.folded(response).close_window(top.0).told(
                    Some(ShellCall::CloseWindow(top.0)),
                    closed,
                ));
                assert(answered(*old(widget), old(self)@, top.1.parent, event, wm, mid, response));
            }
        } else {
            self.send_event(widget, id, event);
        }
    }

    /// Does the mouse pointer come over another widget?
    ///
    /// The widget left and the widget entered are redrawn if they are drawn
    /// differently under the pointer, and the cursor takes the icon that the
    /// entered widget asks for, unless a press grab holds the cursor.
    pub(crate) fn set_hover(&mut self, w_id: Option<WidgetId>)
        requires
            old(self).wf(),
        ensures
            final(self).state() == (if old(self).state().hover != w_id {
                old(self).state().set_hover(w_id)
            } else {
                old(self).state()
            }),
            final(self).action() == (if old(self).state().hover_redraws(w_id) {
                old(self).action().spec_max(TkAction::Redraw)
            } else {
                old(self).action()
            }),
            final(self).read_only() == old(self).read_only(),
            shell_step(old(self).shell(), old(self).state().hover_call(w_id), final(self).shell()),
            final(self).wf(),
    {
        if !same_widget(self.state.hover, w_id) {
            if let Some(id) = self.state.hover {
                if self.state.tree.hover_highlight(id) {
                    self.redraw(id);
                }
            }
            if let Some(id) = w_id {
                if self.state.tree.hover_highlight(id) {
                    self.redraw(id);
                }
            }
            self.state.hover = w_id;
            if let Some(id) = w_id {
                let icon = self.state.tree.cursor_icon(id);
                if icon != self.state.hover_icon {
                    self.state.hover_icon = icon;
                    if self.state.mouse_grab.is_none() {
                        self.shell.set_cursor_icon(icon);
                    }
                }
            }
        }
    }

    /// The press grab, if there is one.
    pub fn mouse_grab(&self) -> (r: Option<MouseGrab>)
        ensures
            r == self.state().grabs.mouse_grab,
    {
        self.state.mouse_grab
    }

    /// The touch grab of the touch `touch_id`, if there is one.
    pub fn get_touch(&self, touch_id: u64) -> (r: Option<TouchGrab>)
        ensures
            r == (if self.state().grabs.touch_grab.contains_key(touch_id) {
                Some(self.state().grabs.touch_grab[touch_id])
            } else {
                None
            }),
    {
        touch_get(&self.state.touch_grab, touch_id)
    }

    /// Ends the press grab, if it is held by `button`: the cursor takes the
    /// icon of the hovered widget again, the widget that held the grab is
    /// redrawn, and the contact point that the grab contributed to a pan
    /// gesture is released. A grab held by another button stays.
    pub(crate) fn end_mouse_grab(&mut self, button: MouseButton)
        requires
            old(self).wf(),
        ensures
            final(self).state() == (StateView {
                grabs: old(self).state().grabs.end_mouse_grab(button),
                ..old(self).state()
            }),
            final(self).action() == (if old(self).state().grabs.grabbed_by(button) {
                old(self).action().spec_max(TkAction::Redraw)
            } else {
                old(self).action()
            }),
            final(self).read_only() == old(self).read_only(),
            shell_step(
                old(self).shell(),
                old(self).state().release_call(button),
                final(self).shell(),
            ),
            final(self).wf(),
    {
        let ghost before = self.state@.grabs;
        let grab = match self.state.mouse_grab {
            Some(grab) => grab,
            None => {
                return ;
            },
        };
        if grab.button != button {
            return ;
        }
        self.state.mouse_grab = None;
        self.shell.set_cursor_icon(self.state.hover_icon);
        self.redraw(grab.start_id);
        proof {
            lemma_mouse_grab_taken(before);
        }
        self.state.remove_pan_grab(grab.pan_grab);
    }

    /// Takes away the touch grab of the touch `touch_id` and returns it.
    ///
    /// The contact point that the grab contributed to a pan gesture is
    /// released with it.
    pub(crate) fn remove_touch(&mut self, touch_id: u64) -> (r: Option<TouchGrab>)
        requires
            old(self).wf(),
        ensures
            final(self).state() == (StateView {
                grabs: old(self).state().grabs.remove_touch(touch_id),
                ..old(self).state()
            }),
            r == (if old(self).state().grabs.touch_grab.contains_key(touch_id) {
                Some(old(self).state().grabs.touch_grab[touch_id])
            } else {
                None
            }),
            final(self).action() == old(self).action(),
            final(self).read_only() == old(self).read_only(),
            final(self).shell() == old(self).shell(),
            final(self).wf(),
    {
        let ghost before = self.state@.grabs;
        let r = touch_remove(&mut self.state.touch_grab, touch_id);
        match r {
            Some(grab) => {
                proof {
                    lemma_touch_grab_taken(before, touch_id);
                }
                self.state.remove_pan_grab(grab.pan_grab);
            },
            None => {
                proof {
                    assert(self.state@.grabs.touch_grab =~= before.touch_grab);
                }
            },
        }
        r
    }

    /// Gives character focus to `wid`, or takes it from whoever has it.
    ///
    /// See [`StateView::set_char_focus`].
    pub(crate) fn set_char_focus(&mut self, wid: Option<WidgetId>)
        requires
            old(self).wf(),
        ensures
            final(self).state() == old(self).state().set_char_focus(wid),
            final(self).action() == (if wid is Some && old(self).state().nav_focus != wid {
                old(self).action().spec_max(TkAction::Redraw)
            } else {
                old(self).action()
            }),
            final(self).read_only() == old(self).read_only(),
            final(self).shell() == old(self).shell(),
            final(self).wf(),
    {
        if let Some(id) = wid {
            self.set_nav_focus(id);
        }
        if same_widget(self.state.sel_focus, wid) {
            // We cannot lose char focus here
            self.state.char_focus = wid.is_some();
            return ;
        }
        let had_char_focus = self.state.char_focus;
        self.state.char_focus = wid.is_some();
        if let Some(id) = self.state.sel_focus {
            if had_char_focus {
                // If widget has char focus, this is lost
                pending_push(&mut self.state.pending, Pending::LostCharFocus(id));
            }
            if wid.is_none() {
                return ;
            }
            // Selection focus is lost if another widget receives char focus
            pending_push(&mut self.state.pending, Pending::LostSelFocus(id));
        }
        if let Some(id) = wid {
            self.state.sel_focus = Some(id);
        }
    }

    /// Where does a press of `vkey` go? `root` is the root of the widget
    /// tree, which owns the outermost layer of accelerator keys.
    ///
    /// See [`StateView::key_route`].
    pub fn key_route(&self, root: WidgetId, vkey: VirtualKeyCode) -> (r: KeyRoute)
        ensures
            r == self.state().key_route(root, vkey),
    {
        let command = Command::lookup(self.state.modifiers, vkey);
        let shift = self.state.modifiers.shift();
        if self.state.char_focus {
            if let Some(id) = self.state.sel_focus {
                return KeyRoute::CharFocus { id, command };
            }
        }
        if vkey == VirtualKeyCode::Tab {
            return KeyRoute::Tab;
        }
        if !self.state.modifiers.alt() {
            // First priority goes to the widget with nav focus,
            // but only when Alt is not pressed.
            if let Some(nav_id) = self.state.nav_focus {
                if vkey == VirtualKeyCode::Space || vkey == VirtualKeyCode::Return || vkey
                    == VirtualKeyCode::NumpadEnter {
                    return KeyRoute::Dispatch { id: nav_id, event: Event::Activate, close: 0 };
                } else if let Some(cmd) = command {
                    return KeyRoute::Dispatch {
                        id: nav_id,
                        event: Event::Command(cmd, shift),
                        close: 0,
                    };
                }
            }
            // Next priority goes to pop-up widget
            if let Some(cmd) = command {
                let event = Event::Command(cmd, shift);
                let n = popup_len(&self.state.popups);
                if n > 0 {
                    return KeyRoute::Dispatch { id: popup_get(&self.state.popups, n - 1).1.parent, event, close: 0 };
                } else if let Some(id) = self.state.nav_fallback {
                    return KeyRoute::Dispatch { id, event, close: 0 };
                }
            }
        }
        // Next priority goes to accelerator keys when Alt is held or alt_bypass is true
        match self.state.find_accel(root, vkey.code()) {
            Some((n, id)) => KeyRoute::Dispatch { id, event: Event::Activate, close: n },
            None => KeyRoute::Unbound,
        }
    }

    /// Finishes a key press that was delivered to `id` and answered with
    /// `response`.
    ///
    /// - An Escape key that nobody handled closes the topmost pop-up or,
    ///   where none is open, gives up navigation focus.
    /// - A key that activated the widget shows it as depressed until the key
    ///   with the same scan code is released, unless another key does so
    ///   already.
    pub fn key_sent(
        &mut self,
        vkey: VirtualKeyCode,
        scancode: u32,
        id: WidgetId,
        is_activate: bool,
        response: Response,
    )
        requires
            old(self).wf(),
        ensures
            final(self).state() == old(self).state().key_sent(
                vkey,
                scancode,
                id,
                is_activate,
                response,
            ),
            final(self).action() == (if old(self).state().key_sent_redraws(
                vkey,
                id,
                is_activate,
                response,
            ) {
                old(self).action().spec_max(TkAction::Redraw)
            } else {
                old(self).action()
            }),
            final(self).read_only() == old(self).read_only(),
            shell_step(
                old(self).shell(),
                old(self).state().key_sent_call(vkey, response),
                final(self).shell(),
            ),
            final(self).wf(),
    {
        let unhandled = match response {
            Response::Unhandled => true,
            _ => false,
        };
        proof {
            lemma_action_max_is_join(old(self).action(), TkAction::Redraw, TkAction::Redraw);
        }
        if unhandled && vkey == VirtualKeyCode::Escape {
            // When unhandled, the Escape key causes other actions
            if popup_len(&self.state.popups) > 0 {
                self.close_top_popup();
            } else if self.state.nav_focus.is_some() {
                self.clear_nav_focus();
            }
        }
        proof {
            lemma_close_popups(old(self).state(), 1);
        }
        // Activation causes buttons to be visually depressed
        if is_activate {
            if self.state.is_key_depressed(id) {
                return ;
            }
            let _ = key_insert(&mut self.state.key_depress, scancode, id);
            self.redraw(id);
        }
    }

    /// Handles the press of a key.
    ///
    /// The key is routed as [`StateView::key_route`] says, with the root of
    /// the widget tree as owner of the outermost accelerator layer, and
    /// delivered; [`Manager::key_sent`] finishes it.
    pub(crate) fn start_key_event<W: Widget>(
        &mut self,
        widget: &mut W,
        vkey: VirtualKeyCode,
        scancode: u32,
    )
        requires
            old(self).wf(),
        ensures
            final(self).wf(),
            key_pressed(*old(widget), old(self)@, vkey, scancode, *final(widget), final(self)@),
    {
        match self.key_route(FIRST_ID, vkey) {
            KeyRoute::CharFocus { id, command } => {
                if let Some(cmd) = command {
                    let event = Event::Command(cmd, self.state.modifiers.shift());
                    let response = widget.send(self, id, event);
                    let ghost mid = self@;
                    self.fold_response(response);
                    self.char_key_sent(cmd, response);
                    proof {
                        assert(answered(*old(widget), old(self)@, id, event, *widget, mid, response)
                            && self@ == mid.folded(response).char_key_sent(cmd, response));
                    }
                }
            },
            KeyRoute::Tab => {
                let shift = self.state.modifiers.shift();
                if !self.next_nav_focus(shift) {
                    self.clear_nav_focus();
                }
                if let Some(id) = self.state.nav_focus {
                    self.send_event(widget, id, Event::NavFocus);
                }
            },
            KeyRoute::Dispatch { id, event, close } => {
                // If we had to look below the top pop-up, we should close it
                self.close_popups(close);
                let ghost closed = self@;
                let is_activate = match event {
                    Event::Activate => true,
                    _ => false,
                };
                let response = widget.send(self, id, event);
                let ghost mid = self@;
                self.fold_response(response);
                self.key_sent(vkey, scancode, id, is_activate, response);
                proof {
                    assert(old(self)@.close_popups(close as nat).told_all(
                        old(self).state().closing_calls(close as nat),
                        closed,
                    ));
                    assert(mid.folded(response).key_sent(
                        vkey,
                        scancode,
                        id,
                        is_activate,
                        response,
                    ).told(mid.state.key_sent_call(vkey, response), self@));
                    assert(answered(*old(widget), closed, id, event, *widget, mid, response));
                }
            },
            KeyRoute::Unbound => {},
        }
    }

    /// Finishes a command that was delivered to the widget with character
    /// focus and answered with `response`: an Escape that the widget did not
    /// handle takes character focus away.
    pub fn char_key_sent(&mut self, command: Command, response: Response)
        requires
            old(self).wf(),
        ensures
            final(self).state() == (if response == Response::Unhandled && command
                == Command::Escape {
                old(self).state().set_char_focus(None)
            } else {
                old(self).state()
            }),
            final(self).action() == old(self).action(),
            final(self).read_only() == old(self).read_only(),
            final(self).shell() == old(self).shell(),
            final(self).wf(),
    {
        match response {
            Response::Unhandled => {
                match command {
                    Command::Escape => {
                        self.set_char_focus(None);
                    },
                    _ => {},
                }
            },
            _ => {},
        }
    }

    /// Handles the release of the key with the given scan code: the widget
    /// that the key showed as depressed, if any, is released and redrawn.
    ///
    /// The scan code is matched and not the key's name, which may have
    /// changed with the modifiers since the key was pressed.
    pub(crate) fn end_key_event(&mut self, scancode: u32)
        ensures
            final(self).state() == (StateView {
                key_depress: old(self).state().key_depress.remove(scancode),
                ..old(self).state()
            }),
            final(self).action() == (if old(self).state().key_depress.contains_key(scancode) {
                old(self).action().spec_max(TkAction::Redraw)
            } else {
                old(self).action()
            }),
            final(self).read_only() == old(self).read_only(),
            final(self).shell() == old(self).shell(),
    {
        if let Some(id) = key_remove(&mut self.state.key_depress, scancode) {
            self.redraw(id);
        }
    }
}

impl<'a, 'b, S: TkWindow> ConfigureManager<'a, 'b, S> {
    /// The invariant of the handle: that of the walk and of the manager.
    pub open spec fn wf(&self) -> bool {
        self.cfg.wf() && self.mgr.wf()
    }

    /// Reborrow self to pass to a child
    ///
    /// The handle that is returned configures widgets one level deeper. It
    /// works on the same walk and the same manager: what is done through it
    /// is found in `self` once it is dropped.
    pub fn child<'c>(&'c mut self) -> (r: ConfigureManager<'a, 'c, S>)
        ensures
            *r.cfg == *old(self).cfg,
            *r.mgr == *old(self).mgr,
            r.depth == child_depth(old(self).depth),
            *final(self).cfg == *final(r.cfg),
            *final(self).mgr == *final(r.mgr),
            final(self).depth == old(self).depth,
            *final(final(self).cfg) == *final(old(self).cfg),
            *final(final(self).mgr) == *final(old(self).mgr),
    {
        let depth = if self.depth < u32::MAX {
            self.depth + 1
        } else {
            self.depth
        };
        ConfigureManager { cfg: &mut *self.cfg, mgr: &mut *self.mgr, depth }
    }

    /// Get the next [`WidgetId`], without advancing the counter
    pub fn peek_next(&self) -> (id: WidgetId)
        requires
            self.cfg.wf(),
        ensures
            id == old(self.cfg)@.next(),
    {
        self.cfg.peek_next()
    }

    /// Get a new [`WidgetId`] for the widget
    ///
    /// Pass the old ID, even if not yet configured. The widget is entered
    /// into the tree at the depth of this handle; see
    /// [`Configuration::enter`].
    pub fn next_id(&mut self, old_id: WidgetId) -> (id: WidgetId)
        requires
            old(self).cfg.wf(),
            old(self).cfg.has_room(),
        ensures
            id == old(self).cfg@.next(),
            final(self).cfg@.next() == id + 1,
            final(self).cfg@ == old(self).cfg@.enter(old(self).depth, old_id),
            final(self).cfg.wf(),
            *final(self).mgr == *old(self).mgr,
            final(self).depth == old(self).depth,
            *final(final(self).cfg) == *final(old(self).cfg),
            *final(final(self).mgr) == *final(old(self).mgr),
    {
        self.cfg.enter(self.depth, old_id)
    }

    /// Records what event handling reads of the widget `id`; see
    /// [`Configuration::set_props`].
    pub fn set_props(
        &mut self,
        id: WidgetId,
        key_nav: bool,
        hover_highlight: bool,
        cursor_icon: CursorIcon,
    )
        requires
            old(self).cfg.wf(),
        ensures
            final(self).cfg.wf(),
            final(self).cfg@ == old(self).cfg@.set_props(id, key_nav, hover_highlight, cursor_icon),
            *final(self).mgr == *old(self).mgr,
            final(self).depth == old(self).depth,
            *final(final(self).cfg) == *final(old(self).cfg),
            *final(final(self).mgr) == *final(old(self).mgr),
    {
        self.cfg.set_props(id, key_nav, hover_highlight, cursor_icon);
    }

    /// Get access to the wrapped [`Manager`]
    pub fn mgr(&mut self) -> (r: &mut Manager<'a, S>)
        ensures
            *r == *old(self).mgr,
            *final(self).mgr == *final(r),
            *final(self).cfg == *old(self).cfg,
            final(self).depth == old(self).depth,
            *final(final(self).cfg) == *final(old(self).cfg),
            *final(final(self).mgr) == *final(old(self).mgr),
    {
        &mut *self.mgr
    }
}

/// Are the two the same widget, or both none?
pub fn same_widget(a: Option<WidgetId>, b: Option<WidgetId>) -> (r: bool)
    ensures
        r == (a == b),
{
    match (a, b) {
        (Some(x), Some(y)) => x == y,
        (None, None) => true,
        _ => false,
    }
}

/// Does the answer of a pop-up's parent let the event pass on to what lies
/// below the pop-up? It does where the parent did not handle the event.
pub fn popup_passes(response: Response) -> (r: bool)
    ensures
        r == (response == Response::Unhandled),
{
    match response {
        Response::Unhandled => true,
        _ => false,
    }
}

} // verus!
