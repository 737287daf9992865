//! Numbering the widgets of a window
//!
//! A [`Configuration`] is the record of one walk over the widget tree. Each
//! widget is entered once, at its depth below the root; it receives the next
//! identifier, and with it the widget entered last at the depth above as
//! parent. Entering a widget closes the subtrees of the widgets entered
//! before it at its own depth or deeper.

use vstd::prelude::*;
use std::collections::HashMap;
use crate::event::tree::{
    has_widget, in_subtree, is_ancestor_of, lemma_descendants_are_subtree, node_of, subtree_end,
    tree_node_ok, tree_wf, WidgetNode, WidgetTree,
};
use crate::event::{CursorIcon, WidgetId};

verus! {

broadcast use vstd::std_specs::hash::group_hash_axioms;

/// The mathematical content of a [`Configuration`]
pub struct ConfigView {
    /// The widgets entered so far; the widget `id` is at `id - 1`
    pub nodes: Seq<WidgetNode>,
    /// The widgets whose subtree is still open, outermost first
    pub path: Seq<WidgetId>,
    /// For each identifier that a widget had before, the one it has now
    pub map: Map<WidgetId, WidgetId>,
}

/// The depth below `depth`: that of the children of a widget at `depth`. The
/// count stops at the largest depth that can be told.
pub open spec fn child_depth(depth: u32) -> u32 {
    if depth < u32::MAX {
        (depth + 1) as u32
    } else {
        depth
    }
}

/// One more than the last identifier in the subtree of `id`, where an open
/// subtree reaches up to the next free identifier.
pub open spec fn open_end(nodes: Seq<WidgetNode>, id: WidgetId) -> int {
    subtree_end(nodes, id, (nodes.len() + 1) as int)
}

/// The record of a widget as it is entered.
pub open spec fn entered_node(parent: WidgetId, depth: u32) -> WidgetNode {
    WidgetNode {
        parent,
        depth,
        end: 0,
        key_nav: false,
        hover_highlight: false,
        cursor_icon: CursorIcon::Default,
    }
}

impl ConfigView {
    /// The record of a walk that has not entered any widget.
    pub open spec fn initial() -> ConfigView {
        ConfigView { nodes: Seq::empty(), path: Seq::empty(), map: Map::empty() }
    }

    /// Can another widget be entered? An identifier must be left for it.
    pub open spec fn has_room(self) -> bool {
        self.nodes.len() + 2 < u32::MAX
    }

    /// The record of the walk after what event handling reads of the widget
    /// `id` has been recorded; nothing changes where no widget `id` has been
    /// entered.
    pub open spec fn set_props(
        self,
        id: WidgetId,
        key_nav: bool,
        hover_highlight: bool,
        cursor_icon: CursorIcon,
    ) -> ConfigView {
        if has_widget(self.nodes, id) {
            ConfigView {
                nodes: self.nodes.update(
                    id - 1,
                    WidgetNode {
                        key_nav,
                        hover_highlight,
                        cursor_icon,
                        ..node_of(self.nodes, id)
                    },
                ),
                ..self
            }
        } else {
            self
        }
    }

    /// The identifier that the next widget receives.
    pub open spec fn next(self) -> int {
        (self.nodes.len() + 1) as int
    }

    /// The depth at which a widget presented at `depth` is entered: at most
    /// one below the deepest open widget.
    pub open spec fn enter_depth(self, depth: u32) -> int {
        if depth <= self.path.len() {
            depth as int
        } else {
            self.path.len() as int
        }
    }

    /// The parent that a widget entered at `depth` receives: the open
    /// widget one level above, or none (`0`) at the outermost level.
    pub open spec fn enter_parent(self, depth: u32) -> WidgetId {
        let d = self.enter_depth(depth);
        if d == 0 {
            0
        } else {
            self.path[d - 1]
        }
    }

    /// The records after the subtrees of the open widgets at `depth` or
    /// deeper have been closed before the identifier `end`.
    pub open spec fn closed_from(self, depth: int, end: WidgetId) -> Seq<WidgetNode> {
        Seq::new(
            self.nodes.len(),
            |i: int|
                if self.nodes[i].end == 0 && self.nodes[i].depth >= depth {
                    WidgetNode { end, ..self.nodes[i] }
                } else {
                    self.nodes[i]
                },
        )
    }

    /// The record of the walk after a widget, known before as `old_id`, has
    /// been entered at `depth`.
    pub open spec fn enter(self, depth: u32, old_id: WidgetId) -> ConfigView {
        let d = self.enter_depth(depth);
        let id = self.next() as WidgetId;
        ConfigView {
            nodes: self.closed_from(d, id).push(entered_node(self.enter_parent(depth), d as u32)),
            path: self.path.take(d).push(id),
            map: self.map.insert(old_id, id),
        }
    }

    /// The tree that the walk has found, once it is over: every subtree
    /// still open ends with the last widget.
    pub open spec fn finished(self) -> Seq<WidgetNode> {
        self.closed_from(0, self.next() as WidgetId)
    }

    /// The open widget at level `k` is in order: it is open, at depth `k`,
    /// and its parent is the open widget one level above.
    pub open spec fn path_entry_ok(self, k: int) -> bool {
        let id = self.path[k];
        &&& has_widget(self.nodes, id)
        &&& node_of(self.nodes, id).end == 0
        &&& node_of(self.nodes, id).depth == k
        &&& node_of(self.nodes, id).parent == (if k == 0 {
            0
        } else {
            self.path[k - 1]
        })
    }

    /// The record of the widget `id` is in order: an open widget is the open
    /// widget of its depth, a closed subtree ends behind the widget and
    /// before the next free identifier, and the parent comes before the
    /// widget and holds it in its subtree.
    pub open spec fn node_ok(self, id: WidgetId) -> bool {
        let node = node_of(self.nodes, id);
        &&& node.end == 0 ==> node.depth < self.path.len() && self.path[node.depth as int] == id
        &&& node.end != 0 ==> id < node.end < self.next()
        &&& node.parent < id
        &&& node.parent != 0 ==> id < open_end(self.nodes, node.parent)
    }

    /// Does `b` lie in the subtree, closed or still open, of `a`?
    pub open spec fn holds(self, a: WidgetId, b: WidgetId) -> bool {
        has_widget(self.nodes, a) && has_widget(self.nodes, b) && a < b < open_end(self.nodes, a)
    }

    /// The open widgets form one chain from the outermost level down to the
    /// widget entered last, each the parent of the next.
    pub open spec fn path_wf(self) -> bool {
        &&& self.path.len() <= self.nodes.len()
        &&& forall|k: int| 0 <= k < self.path.len() ==> #[trigger] self.path_entry_ok(k)
        &&& forall|k1: int, k2: int|
            0 <= k1 < k2 < self.path.len() ==> #[trigger] self.path[k1] < #[trigger] self.path[k2]
        &&& (self.nodes.len() > 0 ==> self.path.len() > 0 && self.path.last() == self.nodes.len())
    }

    /// Every record is in order; see [`ConfigView::node_ok`].
    pub open spec fn nodes_wf(self) -> bool {
        forall|id: WidgetId| has_widget(self.nodes, id) ==> #[trigger] self.node_ok(id)
    }

    /// Subtrees nest: a widget within another's subtree has its own subtree
    /// within it, and its parent is that other widget or lies behind it.
    pub open spec fn nesting_wf(self) -> bool {
        forall|a: WidgetId, b: WidgetId| #[trigger]
            self.holds(a, b) ==> {
                &&& open_end(self.nodes, b) <= open_end(self.nodes, a)
                &&& node_of(self.nodes, b).parent >= a
            }
    }

    /// Different old identifiers map to different new ones, all in use.
    pub open spec fn map_wf(self) -> bool {
        &&& forall|k: WidgetId| #[trigger]
            self.map.contains_key(k) ==> has_widget(self.nodes, self.map[k])
        &&& forall|k1: WidgetId, k2: WidgetId|
            #![trigger self.map[k1], self.map[k2]]
            self.map.contains_key(k1) && self.map.contains_key(k2) && self.map[k1] == self.map[k2]
                ==> k1 == k2
    }

    /// The invariant of a walk in progress.
    ///
    /// - The open widgets form one chain from the outermost level down to
    ///   the widget entered last, each the parent of the next.
    /// - A closed subtree ends before the next free identifier.
    /// - A widget's parent comes before it and holds it in its subtree.
    /// - Subtrees nest: a widget within another's subtree has its own
    ///   subtree within it, and its parent is that other widget or lies
    ///   behind it.
    /// - Different old identifiers map to different new ones, all in use.
    pub open spec fn wf(self) -> bool {
        &&& self.nodes.len() + 1 < u32::MAX
        &&& self.path_wf()
        &&& self.nodes_wf()
        &&& self.nesting_wf()
        &&& self.map_wf()
    }
}

/// What entering a widget does to the records of the widgets entered before.
proof fn lemma_enter_nodes(c: ConfigView, depth: u32, old_id: WidgetId, id: WidgetId)
    requires
        c.nodes.len() + 2 < u32::MAX,
        has_widget(c.nodes, id),
    ensures
        has_widget(c.enter(depth, old_id).nodes, id),
        node_of(c.enter(depth, old_id).nodes, id) == (if node_of(c.nodes, id).end == 0 && node_of(
            c.nodes,
            id,
        ).depth >= c.enter_depth(depth) {
            WidgetNode { end: c.next() as WidgetId, ..node_of(c.nodes, id) }
        } else {
            node_of(c.nodes, id)
        }),
        open_end(c.enter(depth, old_id).nodes, id) == (if node_of(c.nodes, id).end == 0 && node_of(
            c.nodes,
            id,
        ).depth < c.enter_depth(depth) {
            c.next() + 1
        } else {
            open_end(c.nodes, id)
        }),
{
}

proof fn lemma_enter_path_wf(c: ConfigView, depth: u32, old_id: WidgetId)
    requires
        c.nodes.len() + 2 < u32::MAX,
        c.path_wf(),
    ensures
        c.enter(depth, old_id).path_wf(),
{
    let e = c.enter(depth, old_id);
    let d = c.enter_depth(depth);
    assert forall|k: int| 0 <= k < e.path.len() implies #[trigger] e.path_entry_ok(k) by {
        if k < d {
            assert(c.path_entry_ok(k));
            lemma_enter_nodes(c, depth, old_id, c.path[k]);
            if k > 0 {
                assert(e.path[k - 1] == c.path[k - 1]);
            }
        } else {
            if d > 0 {
                assert(e.path[d - 1] == c.path[d - 1]);
            }
        }
    }
    assert forall|k1: int, k2: int| 0 <= k1 < k2 < e.path.len() implies #[trigger] e.path[k1]
        < #[trigger] e.path[k2] by {
        assert(c.path_entry_ok(k1));
        if k2 < d {
            assert(c.path[k1] < c.path[k2]);
        }
    }
}

proof fn lemma_enter_nodes_wf(c: ConfigView, depth: u32, old_id: WidgetId)
    requires
        c.nodes.len() + 2 < u32::MAX,
        c.path_wf(),
        c.nodes_wf(),
    ensures
        c.enter(depth, old_id).nodes_wf(),
{
    let e = c.enter(depth, old_id);
    let d = c.enter_depth(depth);
    let j = c.next() as WidgetId;
    assert forall|id: WidgetId| has_widget(e.nodes, id) implies #[trigger] e.node_ok(id) by {
        if id == j {
            if d > 0 {
                assert(c.path_entry_ok(d - 1));
                lemma_enter_nodes(c, depth, old_id, c.path[d - 1]);
            }
        } else {
            assert(has_widget(c.nodes, id));
            assert(c.node_ok(id));
            lemma_enter_nodes(c, depth, old_id, id);
            let p = node_of(c.nodes, id).parent;
            if p != 0 {
                lemma_enter_nodes(c, depth, old_id, p);
            }
        }
    }
}

proof fn lemma_enter_nesting_wf(c: ConfigView, depth: u32, old_id: WidgetId)
    requires
        c.nodes.len() + 2 < u32::MAX,
        c.path_wf(),
        c.nodes_wf(),
        c.nesting_wf(),
    ensures
        c.enter(depth, old_id).nesting_wf(),
{
    let e = c.enter(depth, old_id);
    let d = c.enter_depth(depth);
    let j = c.next() as WidgetId;
    assert forall|a: WidgetId, b: WidgetId| #[trigger] e.holds(a, b) implies {
        &&& open_end(e.nodes, b) <= open_end(e.nodes, a)
        &&& node_of(e.nodes, b).parent >= a
    } by {
        assert(has_widget(c.nodes, a));
        lemma_enter_nodes(c, depth, old_id, a);
        assert(c.node_ok(a));
        let na = node_of(c.nodes, a);
        if b == j {
            // only a widget that stays open holds the new one
            assert(na.end == 0 && na.depth < d);
            assert(c.path[na.depth as int] == a);
            if na.depth < d - 1 {
                assert(c.path[na.depth as int] < c.path[d - 1]);
            }
        } else {
            assert(has_widget(c.nodes, b));
            lemma_enter_nodes(c, depth, old_id, b);
            assert(c.node_ok(b));
            let nb = node_of(c.nodes, b);
            assert(c.holds(a, b));
            if nb.end == 0 && nb.depth < d {
                // b stays open, so a must stay open too
                assert(na.end == 0);
                if na.depth > nb.depth {
                    assert(c.path[nb.depth as int] < c.path[na.depth as int]);
                }
            }
        }
    }
}

proof fn lemma_enter_map_wf(c: ConfigView, depth: u32, old_id: WidgetId)
    requires
        c.nodes.len() + 2 < u32::MAX,
        c.map_wf(),
    ensures
        c.enter(depth, old_id).map_wf(),
{
    let e = c.enter(depth, old_id);
    assert forall|k: WidgetId| #[trigger] e.map.contains_key(k) implies has_widget(
        e.nodes,
        e.map[k],
    ) by {
        if k != old_id {
            assert(c.map.contains_key(k));
        }
    }
    assert forall|k1: WidgetId, k2: WidgetId|
        #![trigger e.map[k1], e.map[k2]]
        e.map.contains_key(k1) && e.map.contains_key(k2) && e.map[k1] == e.map[k2] implies k1
        == k2 by {
        if k1 != old_id {
            assert(c.map.contains_key(k1));
        }
        if k2 != old_id {
            assert(c.map.contains_key(k2));
        }
    }
}

/// Entering a widget keeps the invariant of the walk.
pub proof fn lemma_enter_wf(c: ConfigView, depth: u32, old_id: WidgetId)
    requires
        c.wf(),
        c.nodes.len() + 2 < u32::MAX,
    ensures
        c.enter(depth, old_id).wf(),
{
    lemma_enter_path_wf(c, depth, old_id);
    lemma_enter_nodes_wf(c, depth, old_id);
    lemma_enter_nesting_wf(c, depth, old_id);
    lemma_enter_map_wf(c, depth, old_id);
}

/// The tree that a walk has found is well formed.
pub proof fn lemma_finished_wf(c: ConfigView)
    requires
        c.wf(),
    ensures
        tree_wf(c.finished()),
        c.finished().len() == c.nodes.len(),
{
    let t = c.finished();
    assert forall|id: WidgetId| has_widget(t, id) implies #[trigger] tree_node_ok(t, id) by {
        assert(has_widget(c.nodes, id));
        assert(c.node_ok(id));
        let p = node_of(c.nodes, id).parent;
        if p != 0 {
            assert(has_widget(c.nodes, p));
        }
    }
    assert forall|a: WidgetId, b: WidgetId| #[trigger] in_subtree(t, a, b) implies {
        &&& node_of(t, b).end <= node_of(t, a).end
        &&& node_of(t, b).parent >= a
    } by {
        assert(c.holds(a, b));
    }
}

/// Changing what event handling reads of a widget keeps the invariant of the
/// walk, which does not speak of it.
proof fn lemma_set_props_wf(c: ConfigView, e: ConfigView, id: WidgetId)
    requires
        c.wf(),
        has_widget(c.nodes, id),
        e.path == c.path,
        e.map == c.map,
        e.nodes == c.nodes.update(
            id - 1,
            WidgetNode {
                parent: node_of(c.nodes, id).parent,
                depth: node_of(c.nodes, id).depth,
                end: node_of(c.nodes, id).end,
                ..e.nodes[id - 1]
            },
        ),
    ensures
        e.wf(),
{
    assert forall|w: WidgetId| has_widget(c.nodes, w) implies has_widget(e.nodes, w) && node_of(
        e.nodes,
        w,
    ).parent == node_of(c.nodes, w).parent && node_of(e.nodes, w).end == node_of(c.nodes, w).end
        && node_of(e.nodes, w).depth == node_of(c.nodes, w).depth && open_end(e.nodes, w)
        == open_end(c.nodes, w) by {}
    assert forall|k: int| 0 <= k < e.path.len() implies #[trigger] e.path_entry_ok(k) by {
        assert(c.path_entry_ok(k));
    }
    assert forall|w: WidgetId| has_widget(e.nodes, w) implies #[trigger] e.node_ok(w) by {
        assert(has_widget(c.nodes, w));
        assert(c.node_ok(w));
        let p = node_of(c.nodes, w).parent;
        if p != 0 {
            assert(has_widget(c.nodes, p));
        }
    }
    assert forall|a: WidgetId, b: WidgetId| #[trigger] e.holds(a, b) implies {
        &&& open_end(e.nodes, b) <= open_end(e.nodes, a)
        &&& node_of(e.nodes, b).parent >= a
    } by {
        assert(c.holds(a, b));
    }
    assert forall|k: WidgetId| #[trigger] e.map.contains_key(k) implies has_widget(
        e.nodes,
        e.map[k],
    ) by {
        assert(c.map.contains_key(k));
    }
}

/// In the tree that a walk has found, the widgets below a widget are exactly
/// those entered after it and before its subtree was closed: every widget
/// has a smaller identifier than the widgets below it, and these fill the
/// range up to the end of its subtree.
pub proof fn lemma_walk_numbers_subtrees(c: ConfigView, a: WidgetId, b: WidgetId)
    requires
        c.wf(),
        has_widget(c.nodes, a),
    ensures
        is_ancestor_of(c.finished(), a, b) <==> in_subtree(c.finished(), a, b),
        is_ancestor_of(c.finished(), a, b) ==> a < b,
{
    lemma_finished_wf(c);
    lemma_descendants_are_subtree(c.finished(), a, b);
}

/// Identifiers are given out in order: once a widget has been entered, the
/// next widget receives the identifier after its own, whatever is recorded
/// of a widget in between.
pub proof fn lemma_ids_consecutive(
    c: ConfigView,
    depth: u32,
    old_id: WidgetId,
    id: WidgetId,
    key_nav: bool,
    hover_highlight: bool,
    cursor_icon: CursorIcon,
)
    requires
        c.wf(),
        c.has_room(),
    ensures
        c.enter(depth, old_id).next() == c.next() + 1,
        c.enter(depth, old_id).set_props(id, key_nav, hover_highlight, cursor_icon).next()
            == c.next() + 1,
{
}

/// No open widget lies at the depth of the path's length or deeper: closing
/// from there changes nothing.
proof fn lemma_closed_from_end(c: ConfigView, end: WidgetId)
    requires
        c.nodes.len() + 1 < u32::MAX,
        c.nodes_wf(),
    ensures
        c.closed_from(c.path.len() as int, end) == c.nodes,
{
    assert forall|i: int| 0 <= i < c.nodes.len() implies c.closed_from(c.path.len() as int, end)[i]
        == c.nodes[i] by {
        let id = (i + 1) as WidgetId;
        assert(has_widget(c.nodes, id));
        assert(c.node_ok(id));
    }
    assert(c.closed_from(c.path.len() as int, end) =~= c.nodes);
}

/// Closing the open widget at level `k` turns the records closed from
/// `k + 1` into the records closed from `k`.
proof fn lemma_closed_from_step(c: ConfigView, k: int, end: WidgetId)
    requires
        c.nodes.len() + 1 < u32::MAX,
        c.path_wf(),
        c.nodes_wf(),
        0 <= k < c.path.len(),
    ensures
        c.closed_from(k, end) == c.closed_from(k + 1, end).update(
            c.path[k] - 1,
            WidgetNode { end, ..c.nodes[c.path[k] - 1] },
        ),
        1 <= c.path[k] <= c.nodes.len(),
        c.closed_from(k + 1, end)[c.path[k] - 1] == c.nodes[c.path[k] - 1],
{
    assert(c.path_entry_ok(k));
    let top = c.path[k];
    let u = c.closed_from(k + 1, end).update(top - 1, WidgetNode { end, ..c.nodes[top - 1] });
    assert forall|i: int| 0 <= i < c.nodes.len() implies c.closed_from(k, end)[i] == u[i] by {
        let id = (i + 1) as WidgetId;
        assert(has_widget(c.nodes, id));
        assert(c.node_ok(id));
    }
    assert(c.closed_from(k, end) =~= u);
}

/// The record of one walk over the widget tree
pub struct Configuration {
    nodes: Vec<WidgetNode>,
    path: Vec<WidgetId>,
    map: HashMap<WidgetId, WidgetId>,
}

impl View for Configuration {
    type V = ConfigView;

    closed spec fn view(&self) -> ConfigView {
        ConfigView { nodes: self.nodes@, path: self.path@, map: self.map@ }
    }
}

impl Configuration {
    /// The invariant of a walk in progress; see [`ConfigView::wf`].
    pub open spec fn wf(&self) -> bool {
        self@.wf()
    }

    /// Can another widget be entered? An identifier must be left for it.
    pub open spec fn has_room(&self) -> bool {
        self@.nodes.len() + 2 < u32::MAX
    }

    /// The record of a walk that has not entered any widget.
    pub fn new() -> (c: Configuration)
        ensures
            c@ == ConfigView::initial(),
            c.wf(),
    {
        let c = Configuration { nodes: Vec::new(), path: Vec::new(), map: HashMap::new() };
        proof {
            assert(c@.nodes =~= Seq::empty());
            assert(c@.path =~= Seq::empty());
        }
        c
    }

    /// The identifier that the next widget receives.
    pub fn peek_next(&self) -> (id: WidgetId)
        requires
            self.wf(),
        ensures
            id == self@.next(),
    {
        (self.nodes.len() + 1) as WidgetId
    }

    /// Can another widget be entered?
    pub fn check_room(&self) -> (b: bool)
        ensures
            b == self.has_room(),
    {
        self.nodes.len() < (u32::MAX - 2) as usize
    }

    /// Enters a widget at `depth` below the outermost level and returns its
    /// new identifier. `old_id` is the identifier that the widget had.
    pub fn enter(&mut self, depth: u32, old_id: WidgetId) -> (id: WidgetId)
        requires
            old(self).wf(),
            old(self).has_room(),
        ensures
            final(self)@ == old(self)@.enter(depth, old_id),
            final(self).wf(),
            id == old(self)@.next(),
            final(self)@.next() == id + 1,
    {
        let ghost before = self@;
        let id = (self.nodes.len() + 1) as WidgetId;
        let d: usize = if (depth as usize) <= self.path.len() {
            depth as usize
        } else {
            self.path.len()
        };
        proof {
            lemma_closed_from_end(before, id);
            assert(self.path@ =~= before.path.take(self.path@.len() as int));
        }
        while self.path.len() > d
            invariant
                before.wf(),
                d <= before.path.len(),
                id == before.next(),
                d <= self.path@.len() <= before.path.len(),
                self.path@ == before.path.take(self.path@.len() as int),
                self.nodes@ == before.closed_from(self.path@.len() as int, id),
                self.map@ == before.map,
            decreases self.path@.len(),
        {
            let ghost k = self.path@.len() - 1;
            let top = self.path.pop().unwrap();
            proof {
                assert(top == before.path[k]);
                lemma_closed_from_step(before, k, id);
            }
            let node = self.nodes[(top - 1) as usize];
            self.nodes.set(
                (top - 1) as usize,
                WidgetNode {
                    parent: node.parent,
                    depth: node.depth,
                    end: id,
                    key_nav: node.key_nav,
                    hover_highlight: node.hover_highlight,
                    cursor_icon: node.cursor_icon,
                },
            );
            proof {
                assert(self.path@ =~= before.path.take(k));
            }
        }
        let parent = if d == 0 {
            0
        } else {
            self.path[d - 1]
        };
        self.nodes.push(
            WidgetNode {
                parent,
                depth: d as u32,
                end: 0,
                key_nav: false,
                hover_highlight: false,
                cursor_icon: CursorIcon::Default,
            },
        );
        self.path.push(id);
        self.map.insert(old_id, id);
        proof {
            lemma_enter_wf(before, depth, old_id);
            assert(self@.path =~= before.enter(depth, old_id).path);
            assert(self@.nodes =~= before.enter(depth, old_id).nodes);
        }
        id
    }

    /// Records what event handling reads of the widget `id`: whether it can
    /// have navigation focus, whether it is drawn differently under the
    /// pointer, and its cursor icon. Nothing changes where no widget `id`
    /// has been entered.
    pub fn set_props(
        &mut self,
        id: WidgetId,
        key_nav: bool,
        hover_highlight: bool,
        cursor_icon: CursorIcon,
    )
        requires
            old(self).wf(),
        ensures
            final(self).wf(),
            final(self)@ == old(self)@.set_props(id, key_nav, hover_highlight, cursor_icon),
    {
        let ghost before = self@;
        if id >= 1 && (id as usize) <= self.nodes.len() {
            let node = self.nodes[(id - 1) as usize];
            self.nodes.set(
                (id - 1) as usize,
                WidgetNode {
                    parent: node.parent,
                    depth: node.depth,
                    end: node.end,
                    key_nav,
                    hover_highlight,
                    cursor_icon,
                },
            );
            proof {
                lemma_set_props_wf(before, self@, id);
            }
        }
    }

    /// Ends the walk: closes the subtrees still open and returns the tree
    /// that was found and the map from old identifiers to new ones.
    pub fn finish(self) -> (r: (WidgetTree, HashMap<WidgetId, WidgetId>))
        requires
            self.wf(),
        ensures
            r.0@ == self@.finished(),
            tree_wf(r.0@),
            r.1@ == self@.map,
    {
        let ghost before = self@;
        let id = (self.nodes.len() + 1) as WidgetId;
        let mut nodes = self.nodes;
        let mut path = self.path;
        proof {
            lemma_closed_from_end(before, id);
            assert(path@ =~= before.path.take(path@.len() as int));
        }
        while path.len() > 0
            invariant
                before.wf(),
                id == before.next(),
                path@.len() <= before.path.len(),
                path@ == before.path.take(path@.len() as int),
                nodes@ == before.closed_from(path@.len() as int, id),
            decreases path@.len(),
        {
            let ghost k = path@.len() - 1;
            let top = path.pop().unwrap();
            proof {
                assert(top == before.path[k]);
                lemma_closed_from_step(before, k, id);
            }
            let node = nodes[(top - 1) as usize];
            nodes.set(
                (top - 1) as usize,
                WidgetNode {
                    parent: node.parent,
                    depth: node.depth,
                    end: id,
                    key_nav: node.key_nav,
                    hover_highlight: node.hover_highlight,
                    cursor_icon: node.cursor_icon,
                },
            );
            proof {
                assert(path@ =~= before.path.take(k));
            }
        }
        proof {
            lemma_finished_wf(before);
        }
        (WidgetTree::from_nodes(nodes), self.map)
    }
}

} // verus!
