//! Traits for shared data objects
//!
//! These traits are used for "view widgets", enabling views (and editing)
//! over shared data.

use vstd::prelude::*;
use crate::event::UpdateHandle;

verus! {

/// Shared data which may notify of updates
pub trait SharedData {
    /// Get an update handle, if any is used to notify of updates
    ///
    /// If the data supports updates through shared references, then it
    /// should have an update handle for notifying other users of the data of
    /// the update, and return that here. Otherwise, this may simply return
    /// `None`.
    fn update_handle(&self) -> Option<UpdateHandle>;

    /// Update self from an update handle
    ///
    /// Data views which are themselves dependent on other shared data
    /// return the handle on which they wait.
    fn update_self(&self) -> Option<UpdateHandle>;
}

/// Trait for viewable single data items
pub trait SingleData: SharedData {
    type Item;

    /// Get data (clone)
    fn get_cloned(&self) -> Self::Item;

    /// Update data, if supported
    ///
    /// Returns an update handle if an update occurred. Returns `None` if
    /// updates are unsupported.
    fn update(&self, value: Self::Item) -> Option<UpdateHandle>;
}

/// Trait for writable single data items
pub trait SingleDataMut: SingleData {
    /// Set data, given a mutable (unique) reference
    ///
    /// It can be assumed that no synchronisation is required when a mutable
    /// reference can be obtained.
    fn set(&mut self, value: Self::Item);
}

/// Trait for viewable data lists
pub trait ListData: SharedData {
    /// Key type
    type Key;

    /// Item type
    type Item;

    /// Number of data items available
    fn len(&self) -> usize;

    /// Check whether a key has data
    fn contains_key(&self, key: &Self::Key) -> bool;

    /// Get data by key (clone)
    fn get_cloned(&self, key: &Self::Key) -> Option<Self::Item>;

    /// Update data, if supported
    ///
    /// Returns an update handle if an update occurred. Returns `None` if
    /// updates are unsupported.
    fn update(&self, key: &Self::Key, value: Self::Item) -> Option<UpdateHandle>;

    /// The (key, value) pairs from position `start` on, `limit` of them at
    /// most, in a fixed order.
    fn iter_vec_from(&self, start: usize, limit: usize) -> Vec<(Self::Key, Self::Item)>;
}

/// Trait for writable data lists
pub trait ListDataMut: ListData {
    /// Set data for an existing key
    fn set(&mut self, key: &Self::Key, item: Self::Item);
}

/// The number of items that a view of `limit` items at most shows of `len`
/// items, from position `start` on.
pub open spec fn window_len(len: int, start: int, limit: int) -> int {
    if start >= len {
        0
    } else if len - start < limit {
        len - start
    } else {
        limit
    }
}

/// A plain vector is a data list without updates: the keys are the
/// positions.
impl<T: Copy> SharedData for Vec<T> {
    fn update_handle(&self) -> (r: Option<UpdateHandle>)
        ensures
            r is None,
    {
        None
    }

    fn update_self(&self) -> (r: Option<UpdateHandle>)
        ensures
            r is None,
    {
        None
    }
}

impl<T: Copy> ListData for Vec<T> {
    type Key = usize;

    type Item = T;

    fn len(&self) -> (n: usize)
        ensures
            n == self@.len(),
    {
        Vec::len(self)
    }

    fn contains_key(&self, key: &usize) -> (r: bool)
        ensures
            r == (*key < self@.len()),
    {
        *key < Vec::len(self)
    }

    fn get_cloned(&self, key: &usize) -> (r: Option<T>)
        ensures
            r == (if *key < self@.len() {
                Some(self@[*key as int])
            } else {
                None
            }),
    {
        if *key < Vec::len(self) {
            Some(self[*key])
        } else {
            None
        }
    }

    fn update(&self, key: &usize, value: T) -> (r: Option<UpdateHandle>)
        ensures
            r is None,
    {
        let _ = key;
        let _ = value;
        None
    }

    fn iter_vec_from(&self, start: usize, limit: usize) -> (r: Vec<(usize, T)>)
        ensures
            r@.len() == window_len(self@.len() as int, start as int, limit as int),
            forall|i: int|
                0 <= i < r@.len() ==> #[trigger] r@[i] == (
                    (start + i) as usize,
                    self@[start + i],
                ),
    {
        let mut r: Vec<(usize, T)> = Vec::new();
        let n = Vec::len(self);
        let mut i: usize = 0;
        while i < limit && start < n && i < n - start
            invariant
                n == self@.len(),
                0 <= i <= limit,
                start < n ==> i <= n - start,
                r@.len() == (if start < n {
                    i as int
                } else {
                    0
                }),
                forall|j: int|
                    0 <= j < r@.len() ==> #[trigger] r@[j] == ((start + j) as usize, self@[start + j]),
            decreases limit - i,
        {
            r.push((start + i, self[start + i]));
            i = i + 1;
        }
        r
    }
}

impl<T: Copy> ListDataMut for Vec<T> {
    /// Set data for an existing key; a key without data is ignored.
    fn set(&mut self, key: &usize, item: T)
        ensures
            final(self)@ == (if *key < old(self)@.len() {
                old(self)@.update(*key as int, item)
            } else {
                old(self)@
            }),
    {
        if *key < Vec::len(self) {
            vstd::pervasive::VecAdditionalExecFns::set(self, *key, item);
        }
    }
}

} // verus!
