//! The collections of other crates that hold the manager's grabs.
//!
//! Touch grabs and depressed keys live in a [`linear_map::LinearMap`], the
//! widgets that wait on an update handle in a [`linear_map::set::LinearSet`],
//! and the pan gestures, the open pop-ups and the notifications that wait
//! each in a [`smallvec::SmallVec`]. Verus does not read
//! those crates: what each collection holds is named by a function without a
//! body, and each method that the manager calls has a wrapper whose contract
//! states, over that name, what the method's source does. Nothing in this
//! file is proved.

use vstd::prelude::*;
use linear_map::LinearMap;
use linear_map::set::LinearSet;
use smallvec::SmallVec;
use crate::event::manager::{PanGrab, Pending, TouchGrab};
use crate::event::{Popup, WidgetId, WindowId};

verus! {

#[verifier::external_type_specification]
#[verifier::external_body]
#[verifier::reject_recursive_types(K)]
#[verifier::reject_recursive_types(V)]
pub struct ExLinearMap<K, V>(LinearMap<K, V>);

#[verifier::external_type_specification]
#[verifier::external_body]
#[verifier::reject_recursive_types(T)]
pub struct ExLinearSet<T>(LinearSet<T>);

/// The map that holds the touch grabs, by touch identifier
pub type TouchMap = LinearMap<u64, TouchGrab>;

/// The map that holds the depressed keys, by scan code
pub type KeyMap = LinearMap<u32, WidgetId>;

/// The set of widgets that wait on one update handle
pub type WidgetSet = LinearSet<WidgetId>;

/// The touch grabs that a map holds, by touch identifier.
pub uninterp spec fn touch_entries(m: TouchMap) -> Map<u64, TouchGrab>;

/// The depressed keys that a map holds: scan code to widget.
pub uninterp spec fn key_entries(m: KeyMap) -> Map<u32, WidgetId>;

/// The widgets that a set holds.
pub uninterp spec fn set_members(s: WidgetSet) -> Set<WidgetId>;

/// The list of pan gestures, which press and touch grabs address by index.
///
/// It holds a `SmallVec` with room for four gestures before it allocates.
#[verifier::external_body]
pub struct PanList {
    items: SmallVec<[PanGrab; 4]>,
}

/// The gestures that a list holds, in order.
pub uninterp spec fn pan_items(l: PanList) -> Seq<PanGrab>;

/// The stack of open pop-ups, each with the handle of its window.
///
/// It holds a `SmallVec` with room for sixteen pop-ups before it allocates.
#[verifier::external_body]
pub struct PopupList {
    items: SmallVec<[(WindowId, Popup); 16]>,
}

/// The pop-ups that a stack holds, from the bottom.
pub uninterp spec fn popup_items(l: PopupList) -> Seq<(WindowId, Popup)>;

/// The queue of notifications that wait to be delivered.
///
/// It holds a `SmallVec` with room for eight notifications before it
/// allocates.
#[verifier::external_body]
pub struct PendingList {
    items: SmallVec<[Pending; 8]>,
}

/// The notifications that a queue holds, oldest first.
pub uninterp spec fn pending_items(l: PendingList) -> Seq<Pending>;

/// `LinearMap::new`: a map that holds nothing.
#[verifier::external_body]
pub(crate) fn touch_new() -> (m: TouchMap)
    ensures
        touch_entries(m) == (Map::<u64, TouchGrab>::empty()),
{
    LinearMap::new()
}

/// `LinearMap::get`: the value stored under `id`, copied, or `None` where
/// the map has no such key.
#[verifier::external_body]
pub(crate) fn touch_get(m: &TouchMap, id: u64) -> (r: Option<TouchGrab>)
    ensures
        r == (if touch_entries(*m).contains_key(id) {
            Some(touch_entries(*m)[id])
        } else {
            None
        }),
{
    m.get(&id).copied()
}

/// `LinearMap::insert`: afterwards `id` maps to `grab` and every other key
/// is as before; the value that `id` had is returned.
#[verifier::external_body]
pub(crate) fn touch_insert(m: &mut TouchMap, id: u64, grab: TouchGrab) -> (r:
    Option<TouchGrab>)
    ensures
        touch_entries(*final(m)) == touch_entries(*old(m)).insert(id, grab),
        r == (if touch_entries(*old(m)).contains_key(id) {
            Some(touch_entries(*old(m))[id])
        } else {
            None
        }),
{
    m.insert(id, grab)
}

/// `LinearMap::remove`: afterwards the map has no key `id` and every other
/// key is as before; the value that `id` had is returned.
#[verifier::external_body]
pub(crate) fn touch_remove(m: &mut TouchMap, id: u64) -> (r: Option<TouchGrab>)
    ensures
        touch_entries(*final(m)) == touch_entries(*old(m)).remove(id),
        r == (if touch_entries(*old(m)).contains_key(id) {
            Some(touch_entries(*old(m))[id])
        } else {
            None
        }),
{
    m.remove(&id)
}

/// `LinearMap::iter`, copied out: every entry of the map once. The order is
/// that of the map's storage, of which nothing is stated.
#[verifier::external_body]
pub(crate) fn touch_pairs(m: &TouchMap) -> (r: Vec<(u64, TouchGrab)>)
    ensures
        forall|i: int|
            0 <= i < r@.len() ==> touch_entries(*m).contains_key(#[trigger] r@[i].0)
                && touch_entries(*m)[r@[i].0] == r@[i].1,
        forall|i: int, j: int| 0 <= i < j < r@.len() ==> r@[i].0 != r@[j].0,
        forall|k: u64| #[trigger]
            touch_entries(*m).contains_key(k) ==> exists|i: int|
                0 <= i < r@.len() && r@[i].0 == k,
{
    m.iter().map(|(k, v)| (*k, *v)).collect()
}

/// `LinearMap::new`: a map that holds nothing.
#[verifier::external_body]
pub(crate) fn key_new() -> (m: KeyMap)
    ensures
        key_entries(m) == (Map::<u32, WidgetId>::empty()),
{
    LinearMap::new()
}

/// `LinearMap::insert`: afterwards `scancode` maps to `id` and every other
/// key is as before; the value that `scancode` had is returned.
#[verifier::external_body]
pub(crate) fn key_insert(m: &mut KeyMap, scancode: u32, id: WidgetId) -> (r:
    Option<WidgetId>)
    ensures
        key_entries(*final(m)) == key_entries(*old(m)).insert(scancode, id),
        r == (if key_entries(*old(m)).contains_key(scancode) {
            Some(key_entries(*old(m))[scancode])
        } else {
            None
        }),
{
    m.insert(scancode, id)
}

/// `LinearMap::remove`: afterwards the map has no key `scancode` and every
/// other key is as before; the value that `scancode` had is returned.
#[verifier::external_body]
pub(crate) fn key_remove(m: &mut KeyMap, scancode: u32) -> (r: Option<WidgetId>)
    ensures
        key_entries(*final(m)) == key_entries(*old(m)).remove(scancode),
        r == (if key_entries(*old(m)).contains_key(scancode) {
            Some(key_entries(*old(m))[scancode])
        } else {
            None
        }),
{
    m.remove(&scancode)
}

/// `LinearMap::get`: the value stored under `scancode`, copied, or `None`
/// where the map has no such key.
#[verifier::external_body]
pub(crate) fn key_get(m: &KeyMap, scancode: u32) -> (r: Option<WidgetId>)
    ensures
        r == (if key_entries(*m).contains_key(scancode) {
            Some(key_entries(*m)[scancode])
        } else {
            None
        }),
{
    m.get(&scancode).copied()
}

/// `LinearMap::iter`, copied out: every entry of the map once. The order is
/// that of the map's storage, of which nothing is stated.
#[verifier::external_body]
pub(crate) fn key_pairs(m: &KeyMap) -> (r: Vec<(u32, WidgetId)>)
    ensures
        forall|i: int|
            0 <= i < r@.len() ==> key_entries(*m).contains_key(#[trigger] r@[i].0) && key_entries(
                *m,
            )[r@[i].0] == r@[i].1,
        forall|i: int, j: int| 0 <= i < j < r@.len() ==> r@[i].0 != r@[j].0,
        forall|k: u32| #[trigger]
            key_entries(*m).contains_key(k) ==> exists|i: int| 0 <= i < r@.len() && r@[i].0 == k,
{
    m.iter().map(|(k, v)| (*k, *v)).collect()
}

/// `LinearSet::new`: a set that holds nothing.
#[verifier::external_body]
pub(crate) fn set_new() -> (s: WidgetSet)
    ensures
        set_members(s) == Set::<WidgetId>::empty(),
{
    LinearSet::new()
}

/// `LinearSet::insert`: afterwards the set holds `id` and what it held
/// before; the result says whether `id` is new to it.
#[verifier::external_body]
pub(crate) fn set_insert(s: &mut WidgetSet, id: WidgetId) -> (r: bool)
    ensures
        set_members(*final(s)) == set_members(*old(s)).insert(id),
        r == !set_members(*old(s)).contains(id),
{
    s.insert(id)
}

/// `LinearSet::iter`, copied out: every member of the set once. The order is
/// that of the set's storage, of which nothing is stated.
#[verifier::external_body]
pub(crate) fn set_items(s: &WidgetSet) -> (r: Vec<WidgetId>)
    ensures
        forall|i: int| 0 <= i < r@.len() ==> set_members(*s).contains(#[trigger] r@[i]),
        forall|i: int, j: int| 0 <= i < j < r@.len() ==> r@[i] != r@[j],
        forall|id: WidgetId| #[trigger]
            set_members(*s).contains(id) ==> exists|i: int| 0 <= i < r@.len() && r@[i] == id,
{
    s.iter().copied().collect()
}

/// `SmallVec::new`: a list that holds nothing.
#[verifier::external_body]
pub(crate) fn pan_new() -> (l: PanList)
    ensures
        pan_items(l) == Seq::<PanGrab>::empty(),
{
    PanList { items: SmallVec::new() }
}

/// `SmallVec::len`: the number of gestures in the list.
#[verifier::external_body]
pub(crate) fn pan_len(l: &PanList) -> (n: usize)
    ensures
        n == pan_items(*l).len(),
{
    l.items.len()
}

/// `Index::index` of `SmallVec`, which indexes its slice: the gesture at
/// `index`, copied.
#[verifier::external_body]
pub(crate) fn pan_get(l: &PanList, index: usize) -> (g: PanGrab)
    requires
        index < pan_items(*l).len(),
    ensures
        g == pan_items(*l)[index as int],
{
    l.items[index]
}

/// `IndexMut::index_mut` of `SmallVec`, which indexes its slice, and an
/// assignment through it: afterwards the list holds `g` at `index` and is
/// otherwise as before.
#[verifier::external_body]
pub(crate) fn pan_set(l: &mut PanList, index: usize, g: PanGrab)
    requires
        index < pan_items(*old(l)).len(),
    ensures
        pan_items(*final(l)) == pan_items(*old(l)).update(index as int, g),
{
    l.items[index] = g;
}

/// `SmallVec::push`: afterwards the list is the old one with `g` at its end.
#[verifier::external_body]
pub(crate) fn pan_push(l: &mut PanList, g: PanGrab)
    ensures
        pan_items(*final(l)) == pan_items(*old(l)).push(g),
{
    l.items.push(g)
}

/// `SmallVec::remove`: takes out and returns the gesture at `index`; those
/// behind it move one place towards the front.
#[verifier::external_body]
pub(crate) fn pan_remove(l: &mut PanList, index: usize) -> (g: PanGrab)
    requires
        index < pan_items(*old(l)).len(),
    ensures
        pan_items(*final(l)) == pan_items(*old(l)).remove(index as int),
        g == pan_items(*old(l))[index as int],
{
    l.items.remove(index)
}

/// `SmallVec::new`: a stack that holds nothing.
#[verifier::external_body]
pub(crate) fn popup_new() -> (l: PopupList)
    ensures
        popup_items(l) == Seq::<(WindowId, Popup)>::empty(),
{
    PopupList { items: SmallVec::new() }
}

/// `SmallVec::len`: the number of pop-ups in the stack.
#[verifier::external_body]
pub(crate) fn popup_len(l: &PopupList) -> (n: usize)
    ensures
        n == popup_items(*l).len(),
{
    l.items.len()
}

/// `Index::index` of `SmallVec`, which indexes its slice: the pop-up at
/// `index`, copied.
#[verifier::external_body]
pub(crate) fn popup_get(l: &PopupList, index: usize) -> (p: (WindowId, Popup))
    requires
        index < popup_items(*l).len(),
    ensures
        p == popup_items(*l)[index as int],
{
    l.items[index]
}

/// `SmallVec::push`: afterwards the stack is the old one with `p` on top.
#[verifier::external_body]
pub(crate) fn popup_push(l: &mut PopupList, p: (WindowId, Popup))
    ensures
        popup_items(*final(l)) == popup_items(*old(l)).push(p),
{
    l.items.push(p)
}

/// `SmallVec::pop`: takes the topmost pop-up off the stack and returns it;
/// an empty stack stays as it is and `None` is returned.
#[verifier::external_body]
pub(crate) fn popup_pop(l: &mut PopupList) -> (p: Option<(WindowId, Popup)>)
    ensures
        popup_items(*old(l)).len() == 0 ==> p is None && popup_items(*final(l)) == popup_items(
            *old(l),
        ),
        popup_items(*old(l)).len() > 0 ==> p == Some(popup_items(*old(l)).last()) && popup_items(
            *final(l),
        ) == popup_items(*old(l)).drop_last(),
{
    l.items.pop()
}

/// `SmallVec::remove`: takes out and returns the pop-up at `index`; those
/// above it move down by one.
#[verifier::external_body]
pub(crate) fn popup_remove(l: &mut PopupList, index: usize) -> (p: (WindowId, Popup))
    requires
        index < popup_items(*old(l)).len(),
    ensures
        popup_items(*final(l)) == popup_items(*old(l)).remove(index as int),
        p == popup_items(*old(l))[index as int],
{
    l.items.remove(index)
}

/// `SmallVec::new`: a queue that holds nothing.
#[verifier::external_body]
pub(crate) fn pending_new() -> (l: PendingList)
    ensures
        pending_items(l) == Seq::<Pending>::empty(),
{
    PendingList { items: SmallVec::new() }
}

/// `SmallVec::len`: the number of notifications in the queue.
#[verifier::external_body]
pub(crate) fn pending_len(l: &PendingList) -> (n: usize)
    ensures
        n == pending_items(*l).len(),
{
    l.items.len()
}

/// `Index::index` of `SmallVec`, which indexes its slice: the notification
/// at `index`, copied.
#[verifier::external_body]
pub(crate) fn pending_get(l: &PendingList, index: usize) -> (p: Pending)
    requires
        index < pending_items(*l).len(),
    ensures
        p == pending_items(*l)[index as int],
{
    l.items[index]
}

/// `SmallVec::push`: afterwards the queue is the old one with `p` at its
/// end.
#[verifier::external_body]
pub(crate) fn pending_push(l: &mut PendingList, p: Pending)
    ensures
        pending_items(*final(l)) == pending_items(*old(l)).push(p),
{
    l.items.push(p)
}

} // verus!
