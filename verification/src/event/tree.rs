//! The widget tree as the manager knows it
//!
//! Configuration numbers the widgets in the order of a depth-first walk,
//! parents first, and records for each widget its parent, the end of its
//! subtree and the properties that event handling reads. The identifier of a
//! widget is its place in that walk, so the widgets below a widget are those
//! whose identifiers lie between its own and the end of its subtree.

use vstd::prelude::*;
use crate::event::{CursorIcon, WidgetId};

verus! {

/// What the manager knows of one widget
#[derive(Clone, Copy, Debug, PartialEq, Eq)]
pub struct WidgetNode {
    /// The widget's parent; `0` for a widget without one
    pub parent: WidgetId,
    /// The number of widgets above the widget, up to the root
    pub depth: u32,
    /// One more than the last identifier in the widget's subtree; `0` while
    /// the subtree is still being configured
    pub end: WidgetId,
    /// Whether the widget can have navigation focus
    pub key_nav: bool,
    /// Whether the widget is drawn differently under the mouse pointer
    pub hover_highlight: bool,
    /// The cursor icon that the widget asks for
    pub cursor_icon: CursorIcon,
}

/// Does the sequence describe the widget `id`?
pub open spec fn has_widget(nodes: Seq<WidgetNode>, id: WidgetId) -> bool {
    1 <= id <= nodes.len()
}

/// The record of the widget `id`.
pub open spec fn node_of(nodes: Seq<WidgetNode>, id: WidgetId) -> WidgetNode {
    nodes[id - 1]
}

/// One more than the last identifier in the subtree of `id`, where a
/// subtree not yet closed reaches up to `next`, the next free identifier.
pub open spec fn subtree_end(nodes: Seq<WidgetNode>, id: WidgetId, next: int) -> int {
    if node_of(nodes, id).end == 0 {
        next
    } else {
        node_of(nodes, id).end as int
    }
}

/// Is `a` the parent of `b`, or the parent of its parent, and so on?
pub open spec fn is_ancestor_of(nodes: Seq<WidgetNode>, a: WidgetId, b: WidgetId) -> bool
    decreases b,
{
    let p = node_of(nodes, b).parent;
    has_widget(nodes, b) && 1 <= p < b && (p == a || is_ancestor_of(nodes, a, p))
}

/// The cursor icon for the pointer over `id`: that of the nearest widget, from
/// `id` up to the root, which asks for one other than the default.
pub open spec fn icon_over(nodes: Seq<WidgetNode>, id: WidgetId) -> CursorIcon
    decreases id,
{
    if !has_widget(nodes, id) {
        CursorIcon::Default
    } else if node_of(nodes, id).cursor_icon != CursorIcon::Default {
        node_of(nodes, id).cursor_icon
    } else if 1 <= node_of(nodes, id).parent < id {
        icon_over(nodes, node_of(nodes, id).parent)
    } else {
        CursorIcon::Default
    }
}

/// Does `b` lie in the subtree of `a`, below `a` itself?
pub open spec fn in_subtree(nodes: Seq<WidgetNode>, a: WidgetId, b: WidgetId) -> bool {
    has_widget(nodes, a) && has_widget(nodes, b) && a < b < node_of(nodes, a).end
}

/// The record of the widget `id` is in order: its subtree ends behind the
/// widget and within the tree, and its parent comes before it and holds it in
/// its subtree.
pub open spec fn tree_node_ok(nodes: Seq<WidgetNode>, id: WidgetId) -> bool {
    let node = node_of(nodes, id);
    &&& id < node.end <= nodes.len() + 1
    &&& node.parent < id
    &&& node.parent != 0 ==> id < node_of(nodes, node.parent).end
}

/// The invariant of a configured tree, whose widgets have the identifiers
/// `1` to `nodes.len()`.
///
/// - The subtree of a widget ends behind the widget and within the tree.
/// - A widget's parent comes before it and holds it in its subtree.
/// - Subtrees nest: a widget within another's subtree has its own subtree
///   within it, and its parent is that other widget or lies behind it.
pub open spec fn tree_wf(nodes: Seq<WidgetNode>) -> bool {
    &&& nodes.len() < u32::MAX
    &&& forall|id: WidgetId| has_widget(nodes, id) ==> #[trigger] tree_node_ok(nodes, id)
    &&& forall|a: WidgetId, b: WidgetId| #[trigger]
        in_subtree(nodes, a, b) ==> {
            &&& node_of(nodes, b).end <= node_of(nodes, a).end
            &&& node_of(nodes, b).parent >= a
        }
}

/// In a configured tree the widgets below a widget are exactly those in its
/// subtree range: `b` has `a` among its parent, its parent's parent and so on,
/// if and only if `a < b` and `b` comes before the end of the subtree of `a`.
///
/// So every widget has a smaller identifier than the widgets below it, and
/// the identifiers of the widgets below it are all those from the one behind
/// its own up to the end of its subtree, without a gap.
pub proof fn lemma_descendants_are_subtree(nodes: Seq<WidgetNode>, a: WidgetId, b: WidgetId)
    requires
        tree_wf(nodes),
        has_widget(nodes, a),
    ensures
        is_ancestor_of(nodes, a, b) <==> in_subtree(nodes, a, b),
        is_ancestor_of(nodes, a, b) ==> a < b,
    decreases b,
{
    if has_widget(nodes, b) {
        let p = node_of(nodes, b).parent;
        assert(tree_node_ok(nodes, b));
        if 1 <= p < b {
            lemma_descendants_are_subtree(nodes, a, p);
            assert(in_subtree(nodes, p, b));
            if p != a && in_subtree(nodes, a, p) {
                assert(node_of(nodes, p).end <= node_of(nodes, a).end);
            }
        }
        if in_subtree(nodes, a, b) {
            assert(node_of(nodes, b).parent >= a);
        }
    }
}

/// The first widget in `from .. to` (by identifier) that can have
/// navigation focus.
pub open spec fn first_nav_in(nodes: Seq<WidgetNode>, from: int, to: int) -> Option<WidgetId>
    decreases to - from,
{
    if from >= to || from < 1 || from > nodes.len() {
        None
    } else if nodes[from - 1].key_nav {
        Some(from as WidgetId)
    } else {
        first_nav_in(nodes, from + 1, to)
    }
}

/// The last widget in `from .. to` (by identifier) that can have navigation
/// focus.
pub open spec fn last_nav_in(nodes: Seq<WidgetNode>, from: int, to: int) -> Option<WidgetId>
    decreases to - from,
{
    if from >= to || to < 2 || to > nodes.len() + 1 {
        None
    } else if nodes[to - 2].key_nav {
        Some((to - 1) as WidgetId)
    } else {
        last_nav_in(nodes, from, to - 1)
    }
}

/// The widget that Tab traversal reaches from `cur`: the next widget behind
/// `cur` that can have navigation focus, or the first one of the tree where
/// none is behind `cur` or there is no `cur`; in reverse the one before, or
/// the last. `None` where no widget can have navigation focus.
pub open spec fn nav_successor(nodes: Seq<WidgetNode>, cur: Option<WidgetId>, reverse: bool)
    -> Option<WidgetId> {
    let n = nodes.len() as int;
    if reverse {
        let before = match cur {
            Some(id) => last_nav_in(nodes, 1, if id <= n { id as int } else { n + 1 }),
            None => None,
        };
        if before is Some {
            before
        } else {
            last_nav_in(nodes, 1, n + 1)
        }
    } else {
        let behind = match cur {
            Some(id) => first_nav_in(nodes, id + 1, n + 1),
            None => None,
        };
        if behind is Some {
            behind
        } else {
            first_nav_in(nodes, 1, n + 1)
        }
    }
}

/// The widgets of one window, as configuration found them
pub struct WidgetTree {
    pub(crate) nodes: Vec<WidgetNode>,
}

impl View for WidgetTree {
    type V = Seq<WidgetNode>;

    closed spec fn view(&self) -> Seq<WidgetNode> {
        self.nodes@
    }
}

impl WidgetTree {
    /// A tree without widgets.
    pub fn new() -> (t: WidgetTree)
        ensures
            t@ == Seq::<WidgetNode>::empty(),
            tree_wf(t@),
    {
        WidgetTree { nodes: Vec::new() }
    }

    /// The tree with the given records.
    pub(crate) fn from_nodes(nodes: Vec<WidgetNode>) -> (t: WidgetTree)
        ensures
            t@ == nodes@,
    {
        WidgetTree { nodes }
    }

    /// The number of widgets.
    pub fn len(&self) -> (n: usize)
        ensures
            n == self@.len(),
    {
        self.nodes.len()
    }

    /// Finds the record of a widget by identifier.
    ///
    /// Returns `None` for an identifier that no widget of the tree has.
    pub fn find(&self, id: WidgetId) -> (r: Option<WidgetNode>)
        ensures
            r == (if has_widget(self@, id) {
                Some(node_of(self@, id))
            } else {
                None
            }),
    {
        if id >= 1 && id as usize <= self.nodes.len() {
            Some(self.nodes[(id - 1) as usize])
        } else {
            None
        }
    }

    /// Is `b` within the subtree of `a`, below `a` itself?
    ///
    /// `false` where the tree has no widget `a` or no widget `b`.
    pub fn is_ancestor(&self, a: WidgetId, b: WidgetId) -> (r: bool)
        ensures
            r == in_subtree(self@, a, b),
    {
        match self.find(a) {
            Some(node) => a < b && b < node.end && b as usize <= self.nodes.len(),
            None => false,
        }
    }

    /// Is the widget drawn differently under the mouse pointer?
    ///
    /// `false` for an identifier that no widget of the tree has.
    pub fn hover_highlight(&self, id: WidgetId) -> (r: bool)
        ensures
            r == (has_widget(self@, id) && node_of(self@, id).hover_highlight),
    {
        match self.find(id) {
            Some(node) => node.hover_highlight,
            None => false,
        }
    }

    /// The cursor icon for the pointer over `id`: that of the nearest
    /// widget, from `id` up to the root, which asks for one other than the
    /// default.
    pub fn cursor_icon(&self, id: WidgetId) -> (icon: CursorIcon)
        ensures
            icon == icon_over(self@, id),
    {
        let mut cur = id;
        loop
            invariant
                icon_over(self@, id) == icon_over(self@, cur),
            decreases cur,
        {
            match self.find(cur) {
                Some(node) => {
                    if node.cursor_icon != CursorIcon::Default {
                        return node.cursor_icon;
                    }
                    if 1 <= node.parent && node.parent < cur {
                        cur = node.parent;
                    } else {
                        return CursorIcon::Default;
                    }
                },
                None => {
                    return CursorIcon::Default;
                },
            }
        }
    }

    /// The first widget with an identifier in `from .. to` that can have
    /// navigation focus.
    fn first_nav(&self, from: usize, to: usize) -> (r: Option<WidgetId>)
        requires
            self@.len() < u32::MAX,
        ensures
            r == first_nav_in(self@, from as int, to as int),
    {
        let mut i = from;
        while i < to && 1 <= i && i <= self.nodes.len()
            invariant
                self@.len() < u32::MAX,
                first_nav_in(self@, from as int, to as int) == first_nav_in(
                    self@,
                    i as int,
                    to as int,
                ),
            decreases to - i,
        {
            if self.nodes[i - 1].key_nav {
                return Some(i as WidgetId);
            }
            i = i + 1;
        }
        None
    }

    /// The last widget with an identifier in `from .. to` that can have
    /// navigation focus.
    fn last_nav(&self, from: usize, to: usize) -> (r: Option<WidgetId>)
        requires
            self@.len() < u32::MAX,
        ensures
            r == last_nav_in(self@, from as int, to as int),
    {
        let mut i = to;
        while from < i && 2 <= i && i - 1 <= self.nodes.len()
            invariant
                self@.len() < u32::MAX,
                last_nav_in(self@, from as int, to as int) == last_nav_in(
                    self@,
                    from as int,
                    i as int,
                ),
            decreases i,
        {
            if self.nodes[i - 2].key_nav {
                return Some((i - 1) as WidgetId);
            }
            i = i - 1;
        }
        None
    }

    /// The widget that Tab traversal reaches from `cur`, forwards or in
    /// reverse; `None` where no widget can have navigation focus.
    pub fn next_nav(&self, cur: Option<WidgetId>, reverse: bool) -> (r: Option<WidgetId>)
        requires
            self@.len() < u32::MAX,
        ensures
            r == nav_successor(self@, cur, reverse),
    {
        let n = self.nodes.len();
        if reverse {
            let before = match cur {
                Some(id) => self.last_nav(
                    1,
                    if id as usize <= n {
                        id as usize
                    } else {
                        n + 1
                    },
                ),
                None => None,
            };
            if before.is_some() {
                before
            } else {
                self.last_nav(1, n + 1)
            }
        } else {
            let behind = match cur {
                Some(id) => if (id as usize) < n {
                    self.first_nav(id as usize + 1, n + 1)
                } else {
                    None
                },
                None => None,
            };
            if behind.is_some() {
                behind
            } else {
                self.first_nav(1, n + 1)
            }
        }
    }
}

} // verus!
