#![allow(dead_code)]
#![allow(unused_imports)]

use kas::event::{
    ConfigureManager, CursorIcon, Direction, Event, GrabMode, Manager, ManagerState,
    ModifiersState, MouseButton, PanPoint, Pending, Popup, PressSource, Response, TimerEntry,
    VirtualKeyCode, Widget, WidgetId, WindowId,
};
use kas::geom::Coord;
use kas::toolkit::{TkAction, TkWindow};

/// A toolkit window that records what it is asked to do.
struct Shell {
    icons: Vec<CursorIcon>,
    closed: Vec<WindowId>,
    next_window: WindowId,
    refuse_popups: bool,
    clipboard: Option<String>,
}

impl Shell {
    fn new() -> Shell {
        Shell {
            icons: Vec::new(),
            closed: Vec::new(),
            next_window: 100,
            refuse_popups: false,
            clipboard: None,
        }
    }
}

impl TkWindow for Shell {
    fn add_popup(&mut self, _popup: Popup) -> Option<WindowId> {
        if self.refuse_popups {
            return None;
        }
        self.next_window += 1;
        Some(self.next_window)
    }

    fn close_window(&mut self, id: WindowId) {
        self.closed.push(id);
    }

    fn get_clipboard(&mut self) -> Option<String> {
        self.clipboard.clone()
    }

    fn set_clipboard(&mut self, content: String) {
        self.clipboard = Some(content);
    }

    fn set_cursor_icon(&mut self, icon: CursorIcon) {
        self.icons.push(icon);
    }
}

/// One widget of a test tree.
#[derive(Clone)]
struct Node {
    id: WidgetId,
    key_nav: bool,
    hover: bool,
    icon: CursorIcon,
    keys: Vec<VirtualKeyCode>,
    children: Vec<Node>,
}

impl Node {
    fn new(children: Vec<Node>) -> Node {
        Node {
            id: 0,
            key_nav: false,
            hover: false,
            icon: CursorIcon::Default,
            keys: Vec::new(),
            children,
        }
    }

    fn leaf() -> Node {
        Node::new(Vec::new())
    }

    fn nav(mut self) -> Node {
        self.key_nav = true;
        self
    }

    fn hover(mut self) -> Node {
        self.hover = true;
        self
    }

    fn icon(mut self, icon: CursorIcon) -> Node {
        self.icon = icon;
        self
    }

    fn key(mut self, key: VirtualKeyCode) -> Node {
        self.keys.push(key);
        self
    }

    fn configure<S: TkWindow>(&mut self, mut cmgr: ConfigureManager<S>) {
        self.id = cmgr.next_id(self.id);
        cmgr.set_props(self.id, self.key_nav, self.hover, self.icon);
        cmgr.mgr().add_accel_keys(self.id, &self.keys);
        for child in &mut self.children {
            child.configure(cmgr.child());
        }
    }
}

/// A widget tree that records every event and behaves as its fields say.
struct Tree {
    root: Node,
    log: Vec<(WidgetId, Event)>,
    /// Widgets that handle what they are sent; all others answer "unhandled"
    handles: Vec<WidgetId>,
    /// The grab that a widget asks for when it is pressed
    grab: Option<GrabMode>,
    /// The cursor icon that a widget asks for with its grab
    grab_icon: Option<CursorIcon>,
    /// Whether a grab that was asked for was given, in order
    grabbed: Vec<bool>,
    /// The widget that asks for character focus when it is activated
    char_focus_on_activate: Option<WidgetId>,
    /// The selection focus as read while an activation was handled
    seen_sel_focus: Vec<Option<WidgetId>>,
    /// The action that a widget asks for when it is activated
    action_on_activate: Option<TkAction>,
    /// The widget that `find_id` reports
    hit: Option<WidgetId>,
}

impl Tree {
    fn new(root: Node) -> Tree {
        Tree {
            root,
            log: Vec::new(),
            handles: Vec::new(),
            grab: None,
            grab_icon: None,
            grabbed: Vec::new(),
            char_focus_on_activate: None,
            seen_sel_focus: Vec::new(),
            action_on_activate: None,
            hit: None,
        }
    }

    /// A root with `count` children that can have navigation focus and are
    /// drawn differently under the pointer: the widgets 2 to `count + 1`.
    fn row(count: u32) -> Tree {
        Tree::new(Node::new((0..count).map(|_| Node::leaf().nav().hover()).collect()))
    }
}

impl Widget for Tree {
    fn send<S: TkWindow>(&mut self, mgr: &mut Manager<S>, id: WidgetId, event: Event) -> Response {
        self.log.push((id, event));
        match event {
            Event::PressStart { source, coord, .. } => {
                if let Some(mode) = self.grab {
                    let given = mgr.request_grab(id, source, coord, mode, self.grab_icon);
                    self.grabbed.push(given);
                }
            }
            Event::Activate => {
                if self.char_focus_on_activate == Some(id) {
                    mgr.request_char_focus(id);
                    self.seen_sel_focus.push(mgr.state_ref().sel_focus());
                }
                if let Some(action) = self.action_on_activate {
                    return Response::Action(action);
                }
            }
            _ => {}
        }
        if self.handles.contains(&id) {
            Response::Handled
        } else {
            Response::Unhandled
        }
    }

    fn configure<S: TkWindow>(&mut self, cmgr: ConfigureManager<S>) {
        self.root.configure(cmgr);
    }

    fn find_id(&self, _coord: Coord) -> Option<WidgetId> {
        self.hit
    }
}

fn mods(shift: bool, ctrl: bool, alt: bool) -> ModifiersState {
    ModifiersState { shift, ctrl, alt, logo: false }
}

use kas::event::{Configuration, WidgetNode, WidgetTree};

fn sample() -> Node {
    // 1: root
    //   2: a (hand)
    //     3: b
    //     4: c (text)
    //   5: d
    Node::new(vec![
        Node::new(vec![Node::leaf().nav(), Node::leaf().icon(CursorIcon::Text).hover()])
            .icon(CursorIcon::Hand),
        Node::leaf().nav().hover(),
    ])
}

#[test]
fn configure_numbers_parents_before_children() {
    let mut state = ManagerState::new();
    let mut shell = Shell::new();
    let mut tree = Tree::new(sample());
    let mut mgr = Manager::new(&mut state, &mut shell);
    mgr.configure(&mut tree);
    assert_eq!(tree.root.id, 1);
    assert_eq!(tree.root.children[0].id, 2);
    assert_eq!(tree.root.children[0].children[0].id, 3);
    assert_eq!(tree.root.children[0].children[1].id, 4);
    assert_eq!(tree.root.children[1].id, 5);

    let found = mgr.state_ref().tree();
    assert_eq!(found.len(), 5);
    let parents: Vec<WidgetId> = (1..=5).map(|id| found.find(id).unwrap().parent).collect();
    assert_eq!(parents, vec![0, 1, 2, 2, 1]);
    let depths: Vec<u32> = (1..=5).map(|id| found.find(id).unwrap().depth).collect();
    assert_eq!(depths, vec![0, 1, 2, 2, 1]);
    // the subtree of a widget is the run of identifiers up to its end
    let ends: Vec<WidgetId> = (1..=5).map(|id| found.find(id).unwrap().end).collect();
    assert_eq!(ends, vec![6, 5, 4, 5, 6]);
    assert!(found.find(3).unwrap().key_nav);
    assert!(!found.find(4).unwrap().key_nav);
}

#[test]
fn ancestors_are_read_off_the_identifiers() {
    let mut state = ManagerState::new();
    let mut shell = Shell::new();
    let mut tree = Tree::new(sample());
    let mut mgr = Manager::new(&mut state, &mut shell);
    mgr.configure(&mut tree);
    let found = mgr.state_ref().tree();
    for b in 2..=5 {
        assert!(found.is_ancestor(1, b));
    }
    assert!(found.is_ancestor(2, 3));
    assert!(found.is_ancestor(2, 4));
    assert!(!found.is_ancestor(2, 5));
    assert!(!found.is_ancestor(3, 4));
    assert!(!found.is_ancestor(2, 2));
    assert!(!found.is_ancestor(3, 2));
    assert!(!found.is_ancestor(5, 6));
    assert!(!found.is_ancestor(0, 1));
    assert!(!found.is_ancestor(1, 6));
}

#[test]
fn lookup_of_unknown_identifier_finds_nothing() {
    let mut state = ManagerState::new();
    let mut shell = Shell::new();
    let mut tree = Tree::new(sample());
    let mut mgr = Manager::new(&mut state, &mut shell);
    mgr.configure(&mut tree);
    let found = mgr.state_ref().tree();
    assert_eq!(found.find(0), None);
    assert_eq!(found.find(6), None);
    assert_eq!(found.find(u32::MAX), None);
    assert!(!found.hover_highlight(0));
    assert!(!found.hover_highlight(6));
    assert_eq!(found.cursor_icon(6), CursorIcon::Default);
    assert_eq!(found.next_nav(Some(77), false), Some(3));
    assert_eq!(found.next_nav(Some(77), true), Some(5));
    let empty = WidgetTree::new();
    assert_eq!(empty.len(), 0);
    assert_eq!(empty.find(1), None);
    assert_eq!(empty.next_nav(None, false), None);
    assert_eq!(empty.next_nav(Some(1), true), None);
}

#[test]
fn cursor_icon_comes_from_nearest_widget_that_names_one() {
    let mut state = ManagerState::new();
    let mut shell = Shell::new();
    let mut tree = Tree::new(sample());
    let mut mgr = Manager::new(&mut state, &mut shell);
    mgr.configure(&mut tree);
    let found = mgr.state_ref().tree();
    assert_eq!(found.cursor_icon(1), CursorIcon::Default);
    assert_eq!(found.cursor_icon(2), CursorIcon::Hand);
    assert_eq!(found.cursor_icon(3), CursorIcon::Hand);
    assert_eq!(found.cursor_icon(4), CursorIcon::Text);
    assert_eq!(found.cursor_icon(5), CursorIcon::Default);
}

#[test]
fn hover_follows_the_pointer() {
    let mut state = ManagerState::new();
    let mut shell = Shell::new();
    let mut tree = Tree::new(sample());
    let mut mgr = Manager::new(&mut state, &mut shell);
    mgr.configure(&mut tree);
    let _ = mgr.pop_action();

    // over b: not highlighted, but its parent's icon shows
    tree.hit = Some(3);
    mgr.handle_cursor_moved(&mut tree, Coord(1, 1));
    assert_eq!(mgr.state_ref().hover(), Some(3));
    assert_eq!(mgr.state_ref().hover_icon(), CursorIcon::Hand);
    assert_eq!(mgr.state_ref().last_mouse_coord(), Coord(1, 1));
    assert_eq!(mgr.pop_action(), TkAction::Nothing);
    // over c: highlighted
    tree.hit = Some(4);
    mgr.handle_cursor_moved(&mut tree, Coord(2, 2));
    assert_eq!(mgr.state_ref().hover_icon(), CursorIcon::Text);
    assert_eq!(mgr.pop_action(), TkAction::Redraw);
    // staying over c changes nothing
    mgr.handle_cursor_moved(&mut tree, Coord(3, 3));
    assert_eq!(mgr.pop_action(), TkAction::Nothing);
    // leaving c for b redraws c
    tree.hit = Some(3);
    mgr.handle_cursor_moved(&mut tree, Coord(4, 4));
    assert_eq!(mgr.pop_action(), TkAction::Redraw);
    // leaving the window: no widget is hovered; the icon stays
    mgr.handle_cursor_left();
    assert_eq!(mgr.state_ref().hover(), None);
    assert_eq!(mgr.state_ref().hover_icon(), CursorIcon::Hand);
    assert_eq!(tree.log, vec![]);
    drop(mgr);
    assert_eq!(shell.icons, vec![CursorIcon::Hand, CursorIcon::Text, CursorIcon::Hand]);
}

#[test]
fn grab_keeps_the_cursor_icon() {
    let mut state = ManagerState::new();
    let mut shell = Shell::new();
    let mut tree = Tree::new(sample());
    let mut mgr = Manager::new(&mut state, &mut shell);
    mgr.configure(&mut tree);
    let source = PressSource::Mouse(MouseButton::Left, 1);
    assert!(mgr.request_grab(5, source, Coord(0, 0), GrabMode::Grab, Some(CursorIcon::Grabbing)));
    tree.hit = Some(4);
    mgr.handle_cursor_moved(&mut tree, Coord(2, 2));
    // the pointer's move goes to the grab, and hover stays
    assert_eq!(mgr.state_ref().hover(), None);
    mgr.handle_cursor_left();
    assert_eq!(mgr.state_ref().hover(), None);
    drop(mgr);
    assert_eq!(shell.icons, vec![CursorIcon::Grabbing]);
}

#[test]
fn reconfigure_renames_what_the_state_holds() {
    let mut state = ManagerState::new();
    let mut shell = Shell::new();
    let mut tree = Tree::new(sample());
    let mut mgr = Manager::new(&mut state, &mut shell);
    mgr.configure(&mut tree);
    // d = 5 holds the focus, a grab, a gesture and a depressed key
    mgr.request_char_focus(5);
    mgr.register_nav_fallback(5);
    assert!(mgr.request_grab(5, PressSource::Touch(1), Coord(1, 1), GrabMode::PanFull, None));
    assert!(mgr.request_grab(
        5,
        PressSource::Mouse(MouseButton::Left, 1),
        Coord(1, 1),
        GrabMode::Grab,
        None
    ));
    tree.handles.push(5);
    mgr.send_event_to(&mut tree, 1, Event::Activate);
    mgr.key_sent(VirtualKeyCode::Space, 57, 5, true, Response::Handled);
    tree.hit = Some(5);
    let window = mgr.add_popup(Popup { id: 5, parent: 2, direction: Direction::Down }).unwrap();
    let other = mgr.add_popup(Popup { id: 3, parent: 5, direction: Direction::Down }).unwrap();

    // b = 3 is taken out of the tree: c and d move up by one
    tree.root.children[0].children.remove(0);
    mgr.configure(&mut tree);
    assert_eq!(tree.root.children[1].id, 4);
    assert_eq!(mgr.state_ref().tree().len(), 4);
    assert!(mgr.char_focus(4));
    assert_eq!(mgr.state_ref().sel_focus(), Some(4));
    assert_eq!(mgr.nav_focus(), None);
    assert_eq!(mgr.state_ref().nav_fallback(), Some(4));
    assert_eq!(mgr.get_touch(1).unwrap().start_id, 4);
    assert_eq!(mgr.get_touch(1).unwrap().cur_id, Some(4));
    assert_eq!(mgr.get_touch(1).unwrap().pan_grab, Some((0, 0)));
    assert_eq!(mgr.state_ref().pan_grab(0).unwrap().id, 4);
    assert_eq!(mgr.mouse_grab().unwrap().start_id, 4);
    assert_eq!(mgr.mouse_grab().unwrap().depress, Some(4));
    assert_eq!(mgr.state_ref().key_depress(57), Some(4));
    // the pop-up on d stays; the one on the widget that is gone is closed
    assert_eq!(
        mgr.state_ref().popups(),
        vec![(window, Popup { id: 4, parent: 2, direction: Direction::Down })]
    );
    drop(mgr);
    assert_eq!(shell.closed, vec![other]);
}

#[test]
fn reconfigure_drops_what_belongs_to_widgets_that_are_gone() {
    let mut state = ManagerState::new();
    let mut shell = Shell::new();
    let mut tree = Tree::new(sample());
    let mut mgr = Manager::new(&mut state, &mut shell);
    mgr.configure(&mut tree);
    mgr.request_char_focus(3);
    assert!(mgr.request_grab(3, PressSource::Touch(1), Coord(1, 1), GrabMode::PanFull, None));
    assert!(mgr.request_grab(4, PressSource::Touch(2), Coord(2, 2), GrabMode::PanFull, None));
    assert!(mgr.request_grab(3, PressSource::Touch(3), Coord(3, 3), GrabMode::Grab, None));
    assert!(mgr.request_grab(
        3,
        PressSource::Mouse(MouseButton::Left, 1),
        Coord(1, 1),
        GrabMode::Grab,
        None
    ));
    mgr.key_sent(VirtualKeyCode::Space, 57, 3, true, Response::Handled);
    mgr.key_sent(VirtualKeyCode::Space, 58, 4, true, Response::Handled);

    // b = 3 is taken out of the tree
    tree.root.children[0].children.remove(0);
    mgr.configure(&mut tree);
    assert_eq!(mgr.state_ref().sel_focus(), None);
    assert!(!mgr.char_focus(3));
    assert_eq!(mgr.nav_focus(), None);
    assert_eq!(mgr.get_touch(1), None);
    assert_eq!(mgr.get_touch(3), None);
    assert_eq!(mgr.mouse_grab(), None);
    assert_eq!(mgr.state_ref().key_depress(57), None);
    // c was 4 and is 3 now
    assert_eq!(mgr.state_ref().key_depress(58), Some(3));
    assert_eq!(mgr.state_ref().pan_grab_count(), 1);
    assert_eq!(mgr.state_ref().pan_grab(0).unwrap().id, 3);
    assert_eq!(mgr.get_touch(2).unwrap().start_id, 3);
    assert_eq!(mgr.get_touch(2).unwrap().pan_grab, Some((0, 0)));
}

#[test]
fn configuration_walk_by_hand() {
    let mut cfg = Configuration::new();
    assert!(cfg.check_room());
    assert_eq!(cfg.peek_next(), 1);
    assert_eq!(cfg.enter(0, 10), 1);
    assert_eq!(cfg.enter(1, 11), 2);
    // a widget presented too deep is entered one below the deepest open one
    assert_eq!(cfg.enter(5, 12), 3);
    assert_eq!(cfg.enter(1, 13), 4);
    assert_eq!(cfg.peek_next(), 5);
    cfg.set_props(3, true, true, CursorIcon::Wait);
    cfg.set_props(9, true, true, CursorIcon::Wait);
    let (tree, map) = cfg.finish();
    assert_eq!(tree.len(), 4);
    let node = |id| tree.find(id).unwrap();
    assert_eq!((node(1).parent, node(1).depth, node(1).end), (0, 0, 5));
    assert_eq!((node(2).parent, node(2).depth, node(2).end), (1, 1, 4));
    assert_eq!((node(3).parent, node(3).depth, node(3).end), (2, 2, 4));
    assert_eq!((node(4).parent, node(4).depth, node(4).end), (1, 1, 5));
    assert_eq!(
        node(3),
        WidgetNode {
            parent: 2,
            depth: 2,
            end: 4,
            key_nav: true,
            hover_highlight: true,
            cursor_icon: CursorIcon::Wait
        }
    );
    assert!(!node(2).key_nav);
    assert_eq!(map.get(&10), Some(&1));
    assert_eq!(map.get(&12), Some(&3));
    assert_eq!(map.get(&1), None);
    assert_eq!(map.len(), 4);
}

#[test]
fn several_roots_form_a_forest() {
    let mut cfg = Configuration::new();
    assert_eq!(cfg.enter(0, 0), 1);
    assert_eq!(cfg.enter(1, 0), 2);
    assert_eq!(cfg.enter(0, 0), 3);
    let (tree, map) = cfg.finish();
    assert_eq!(tree.find(3).unwrap().parent, 0);
    assert_eq!(tree.find(1).unwrap().end, 3);
    assert_eq!(tree.find(3).unwrap().end, 4);
    assert!(!tree.is_ancestor(1, 3));
    // widgets that shared an old name: the last one keeps it
    assert_eq!(map.get(&0), Some(&3));
    assert_eq!(map.len(), 1);
}
