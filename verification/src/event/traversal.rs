//! Tab traversal visits every widget that can have navigation focus
//!
//! The proof counts: the number of widgets that can have navigation focus
//! and come before a widget is the widget's rank, and a step of the
//! traversal leads from a widget to the widget of the next rank, or from the
//! last rank to the first.

use vstd::prelude::*;
use crate::event::tree::{first_nav_in, nav_successor, WidgetNode};
use crate::event::WidgetId;

verus! {

/// Can the widget `id` have navigation focus?
pub open spec fn can_nav(nodes: Seq<WidgetNode>, id: int) -> bool {
    1 <= id <= nodes.len() && nodes[id - 1].key_nav
}

/// The number of widgets before `to` that can have navigation focus.
pub open spec fn nav_count(nodes: Seq<WidgetNode>, to: int) -> nat
    decreases to,
{
    if to <= 1 {
        0
    } else {
        nav_count(nodes, to - 1) + (if can_nav(nodes, to - 1) {
            1nat
        } else {
            0nat
        })
    }
}

/// The number of widgets that can have navigation focus.
pub open spec fn nav_total(nodes: Seq<WidgetNode>) -> nat {
    nav_count(nodes, (nodes.len() + 1) as int)
}

/// The widget that has navigation focus after `k` presses of the Tab key,
/// where `start` had it before.
pub open spec fn tab_steps(nodes: Seq<WidgetNode>, start: WidgetId, k: nat) -> Option<WidgetId>
    decreases k,
{
    if k == 0 {
        Some(start)
    } else {
        nav_successor(nodes, tab_steps(nodes, start, (k - 1) as nat), false)
    }
}

/// The rank that follows `rank` among `total` ranks: the next, or the
/// first after the last.
pub open spec fn next_rank(rank: nat, total: nat) -> nat {
    if rank + 1 < total {
        rank + 1
    } else {
        0
    }
}

/// The rank reached from `rank` in `k` steps, for `k` up to `total`.
pub open spec fn rank_after(rank: nat, k: nat, total: nat) -> nat {
    if rank + k < total {
        rank + k
    } else {
        (rank + k - total) as nat
    }
}

/// What a search for the first widget with navigation focus finds is the
/// first in its range; where it finds none, there is none in the range.
proof fn lemma_first_nav(nodes: Seq<WidgetNode>, from: int, to: int)
    requires
        1 <= from,
        to <= nodes.len() + 1,
        nodes.len() < u32::MAX,
    ensures
        match first_nav_in(nodes, from, to) {
            Some(g) => from <= g < to && can_nav(nodes, g as int) && forall|j: int|
                from <= j < g ==> !can_nav(nodes, j),
            None => forall|j: int| from <= j < to ==> !can_nav(nodes, j),
        },
    decreases to - from,
{
    if from < to && !nodes[from - 1].key_nav {
        lemma_first_nav(nodes, from + 1, to);
    }
}

/// More widgets come before a later place than before an earlier one.
proof fn lemma_count_grows(nodes: Seq<WidgetNode>, a: int, b: int)
    requires
        a <= b,
    ensures
        nav_count(nodes, a) <= nav_count(nodes, b),
    decreases b - a,
{
    if a < b {
        lemma_count_grows(nodes, a, b - 1);
    }
}

/// Across a range without a widget that can have navigation focus, the
/// count stays.
proof fn lemma_count_gap(nodes: Seq<WidgetNode>, a: int, b: int)
    requires
        1 <= a <= b,
        forall|j: int| a <= j < b ==> !can_nav(nodes, j),
    ensures
        nav_count(nodes, b) == nav_count(nodes, a),
    decreases b - a,
{
    if a < b {
        lemma_count_gap(nodes, a, b - 1);
    }
}

/// The rank of a widget that can have navigation focus is below the number
/// of such widgets.
proof fn lemma_rank_bound(nodes: Seq<WidgetNode>, f: int)
    requires
        can_nav(nodes, f),
    ensures
        nav_count(nodes, f) < nav_total(nodes),
{
    assert(nav_count(nodes, f + 1) == nav_count(nodes, f) + 1);
    lemma_count_grows(nodes, f + 1, (nodes.len() + 1) as int);
}

/// Two widgets that can have navigation focus and have the same rank are
/// one widget.
proof fn lemma_rank_names_widget(nodes: Seq<WidgetNode>, f1: int, f2: int)
    requires
        can_nav(nodes, f1),
        can_nav(nodes, f2),
        nav_count(nodes, f1) == nav_count(nodes, f2),
    ensures
        f1 == f2,
{
    if f1 < f2 {
        assert(nav_count(nodes, f1 + 1) == nav_count(nodes, f1) + 1);
        lemma_count_grows(nodes, f1 + 1, f2);
    } else if f2 < f1 {
        assert(nav_count(nodes, f2 + 1) == nav_count(nodes, f2) + 1);
        lemma_count_grows(nodes, f2 + 1, f1);
    }
}

/// One press of the Tab key leads from a widget that can have navigation
/// focus to the widget of the next rank.
proof fn lemma_tab_step(nodes: Seq<WidgetNode>, f: WidgetId)
    requires
        nodes.len() < u32::MAX,
        can_nav(nodes, f as int),
    ensures
        nav_successor(nodes, Some(f), false) is Some,
        can_nav(nodes, nav_successor(nodes, Some(f), false)->0 as int),
        nav_count(nodes, nav_successor(nodes, Some(f), false)->0 as int) == next_rank(
            nav_count(nodes, f as int),
            nav_total(nodes),
        ),
{
    let n = nodes.len() as int;
    lemma_rank_bound(nodes, f as int);
    assert(nav_count(nodes, f + 1) == nav_count(nodes, f as int) + 1);
    lemma_first_nav(nodes, f + 1, n + 1);
    match first_nav_in(nodes, f + 1, n + 1) {
        Some(g) => {
            lemma_count_gap(nodes, f + 1, g as int);
            lemma_rank_bound(nodes, g as int);
        },
        None => {
            lemma_count_gap(nodes, f + 1, n + 1);
            lemma_first_nav(nodes, 1, n + 1);
            let g = first_nav_in(nodes, 1, n + 1)->0;
            lemma_count_gap(nodes, 1, g as int);
        },
    }
}

/// After `k` presses of the Tab key, for `k` up to the number of widgets
/// that can have navigation focus, the focus is on the widget whose rank is
/// `k` behind that of `start`, counted around.
proof fn lemma_tab_steps_rank(nodes: Seq<WidgetNode>, start: WidgetId, k: nat)
    requires
        nodes.len() < u32::MAX,
        can_nav(nodes, start as int),
        k <= nav_total(nodes),
    ensures
        tab_steps(nodes, start, k) is Some,
        can_nav(nodes, tab_steps(nodes, start, k)->0 as int),
        nav_count(nodes, tab_steps(nodes, start, k)->0 as int) == rank_after(
            nav_count(nodes, start as int),
            k,
            nav_total(nodes),
        ),
    decreases k,
{
    lemma_rank_bound(nodes, start as int);
    if k > 0 {
        lemma_tab_steps_rank(nodes, start, (k - 1) as nat);
        lemma_tab_step(nodes, tab_steps(nodes, start, (k - 1) as nat)->0);
    }
}

/// Repeated presses of the Tab key visit every widget that can have
/// navigation focus exactly once before they return to the first.
///
/// Let `total` be the number of widgets that can have navigation focus, and
/// let `start` be one of them. Then
/// - after `total` presses, navigation focus is on `start` again;
/// - every such widget, `target`, has navigation focus after fewer than
///   `total` presses;
/// - no widget has navigation focus twice within the first `total` presses.
pub proof fn lemma_tab_visits_all_once(nodes: Seq<WidgetNode>, start: WidgetId, target: WidgetId)
    requires
        nodes.len() < u32::MAX,
        can_nav(nodes, start as int),
        can_nav(nodes, target as int),
    ensures
        tab_steps(nodes, start, nav_total(nodes)) == Some(start),
        exists|k: nat| k < nav_total(nodes) && #[trigger] tab_steps(nodes, start, k) == Some(target),
        forall|k1: nat, k2: nat|
            k1 < k2 < nav_total(nodes) ==> #[trigger] tab_steps(nodes, start, k1)
                != #[trigger] tab_steps(nodes, start, k2),
{
    let total = nav_total(nodes);
    let r0 = nav_count(nodes, start as int);
    let rt = nav_count(nodes, target as int);
    lemma_rank_bound(nodes, start as int);
    lemma_rank_bound(nodes, target as int);
    // back at the start
    lemma_tab_steps_rank(nodes, start, total);
    lemma_rank_names_widget(nodes, tab_steps(nodes, start, total)->0 as int, start as int);
    // the target is reached
    let k: nat = if rt >= r0 {
        (rt - r0) as nat
    } else {
        (rt + total - r0) as nat
    };
    lemma_tab_steps_rank(nodes, start, k);
    lemma_rank_names_widget(nodes, tab_steps(nodes, start, k)->0 as int, target as int);
    assert(k < total && tab_steps(nodes, start, k) == Some(target));
    // no widget is visited twice
    assert forall|k1: nat, k2: nat| k1 < k2 < total implies #[trigger] tab_steps(nodes, start, k1)
        != #[trigger] tab_steps(nodes, start, k2) by {
        lemma_tab_steps_rank(nodes, start, k1);
        lemma_tab_steps_rank(nodes, start, k2);
    }
}

} // verus!
