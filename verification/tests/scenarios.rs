#![allow(dead_code)]
#![allow(unused_imports)]

use kas::event::{
    ConfigureManager, CursorIcon, Direction, Event, GrabMode, Manager, ManagerState,
    ModifiersState, MouseButton, PanPoint, Pending, Popup, PressSource, Response, TimerEntry,
    VirtualKeyCode, Widget, WidgetId, WindowId,
};
use kas::geom::Coord;
use kas::toolkit::{TkAction, TkWindow};

/// A toolkit window that records what it is asked to do.
struct Shell {
    icons: Vec<CursorIcon>,
    closed: Vec<WindowId>,
    next_window: WindowId,
    refuse_popups: bool,
    clipboard: Option<String>,
}

impl Shell {
    fn new() -> Shell {
        Shell {
            icons: Vec::new(),
            closed: Vec::new(),
            next_window: 100,
            refuse_popups: false,
            clipboard: None,
        }
    }
}

impl TkWindow for Shell {
    fn add_popup(&mut self, _popup: Popup) -> Option<WindowId> {
        if self.refuse_popups {
            return None;
        }
        self.next_window += 1;
        Some(self.next_window)
    }

    fn close_window(&mut self, id: WindowId) {
        self.closed.push(id);
    }

    fn get_clipboard(&mut self) -> Option<String> {
        self.clipboard.clone()
    }

    fn set_clipboard(&mut self, content: String) {
        self.clipboard = Some(content);
    }

    fn set_cursor_icon(&mut self, icon: CursorIcon) {
        self.icons.push(icon);
    }
}

/// One widget of a test tree.
#[derive(Clone)]
struct Node {
    id: WidgetId,
    key_nav: bool,
    hover: bool,
    icon: CursorIcon,
    keys: Vec<VirtualKeyCode>,
    children: Vec<Node>,
}

impl Node {
    fn new(children: Vec<Node>) -> Node {
        Node {
            id: 0,
            key_nav: false,
            hover: false,
            icon: CursorIcon::Default,
            keys: Vec::new(),
            children,
        }
    }

    fn leaf() -> Node {
        Node::new(Vec::new())
    }

    fn nav(mut self) -> Node {
        self.key_nav = true;
        self
    }

    fn hover(mut self) -> Node {
        self.hover = true;
        self
    }

    fn icon(mut self, icon: CursorIcon) -> Node {
        self.icon = icon;
        self
    }

    fn key(mut self, key: VirtualKeyCode) -> Node {
        self.keys.push(key);
        self
    }

    fn configure<S: TkWindow>(&mut self, mut cmgr: ConfigureManager<S>) {
        self.id = cmgr.next_id(self.id);
        cmgr.set_props(self.id, self.key_nav, self.hover, self.icon);
        cmgr.mgr().add_accel_keys(self.id, &self.keys);
        for child in &mut self.children {
            child.configure(cmgr.child());
        }
    }
}

/// A widget tree that records every event and behaves as its fields say.
struct Tree {
    root: Node,
    log: Vec<(WidgetId, Event)>,
    /// Widgets that handle what they are sent; all others answer "unhandled"
    handles: Vec<WidgetId>,
    /// The grab that a widget asks for when it is pressed
    grab: Option<GrabMode>,
    /// The cursor icon that a widget asks for with its grab
    grab_icon: Option<CursorIcon>,
    /// Whether a grab that was asked for was given, in order
    grabbed: Vec<bool>,
    /// The widget that asks for character focus when it is activated
    char_focus_on_activate: Option<WidgetId>,
    /// The selection focus as read while an activation was handled
    seen_sel_focus: Vec<Option<WidgetId>>,
    /// The action that a widget asks for when it is activated
    action_on_activate: Option<TkAction>,
    /// The widget that `find_id` reports
    hit: Option<WidgetId>,
}

impl Tree {
    fn new(root: Node) -> Tree {
        Tree {
            root,
            log: Vec::new(),
            handles: Vec::new(),
            grab: None,
            grab_icon: None,
            grabbed: Vec::new(),
            char_focus_on_activate: None,
            seen_sel_focus: Vec::new(),
            action_on_activate: None,
            hit: None,
        }
    }

    /// A root with `count` children that can have navigation focus and are
    /// drawn differently under the pointer: the widgets 2 to `count + 1`.
    fn row(count: u32) -> Tree {
        Tree::new(Node::new((0..count).map(|_| Node::leaf().nav().hover()).collect()))
    }
}

impl Widget for Tree {
    fn send<S: TkWindow>(&mut self, mgr: &mut Manager<S>, id: WidgetId, event: Event) -> Response {
        self.log.push((id, event));
        match event {
            Event::PressStart { source, coord, .. } => {
                if let Some(mode) = self.grab {
                    let given = mgr.request_grab(id, source, coord, mode, self.grab_icon);
                    self.grabbed.push(given);
                }
            }
            Event::Activate => {
                if self.char_focus_on_activate == Some(id) {
                    mgr.request_char_focus(id);
                    self.seen_sel_focus.push(mgr.state_ref().sel_focus());
                }
                if let Some(action) = self.action_on_activate {
                    return Response::Action(action);
                }
            }
            _ => {}
        }
        if self.handles.contains(&id) {
            Response::Handled
        } else {
            Response::Unhandled
        }
    }

    fn configure<S: TkWindow>(&mut self, cmgr: ConfigureManager<S>) {
        self.root.configure(cmgr);
    }

    fn find_id(&self, _coord: Coord) -> Option<WidgetId> {
        self.hit
    }
}

fn mods(shift: bool, ctrl: bool, alt: bool) -> ModifiersState {
    ModifiersState { shift, ctrl, alt, logo: false }
}

#[test]
fn accelerator_key_activates_and_depresses() {
    let mut state = ManagerState::new();
    let mut shell = Shell::new();
    let mut tree = Tree::row(8);
    tree.root.children[5].keys.push(VirtualKeyCode::S);
    tree.handles.push(7);
    let mut mgr = Manager::new(&mut state, &mut shell);
    mgr.configure(&mut tree);
    let _ = mgr.pop_action();
    mgr.handle_modifiers(mods(false, false, true));
    assert_eq!(mgr.nav_focus(), None);
    assert_eq!(mgr.state_ref().popups(), vec![]);

    mgr.handle_key_down(&mut tree, VirtualKeyCode::S, 31);
    assert_eq!(tree.log, vec![(7, Event::Activate)]);
    assert_eq!(mgr.state_ref().key_depress(31), Some(7));
    assert!(mgr.state_ref().is_key_depressed(7));
    assert_eq!(mgr.pop_action(), TkAction::Redraw);

    mgr.handle_key_up(31);
    assert_eq!(mgr.state_ref().key_depress(31), None);
    assert!(!mgr.state_ref().is_key_depressed(7));
    assert_eq!(mgr.pop_action(), TkAction::Redraw);
    // releasing a key that depresses nothing changes nothing
    mgr.handle_key_up(31);
    assert_eq!(mgr.pop_action(), TkAction::Nothing);
}

#[test]
fn two_touches_share_one_pan_gesture() {
    let mut state = ManagerState::new();
    let mut shell = Shell::new();
    let mut tree = Tree::row(50);
    tree.grab = Some(GrabMode::PanFull);
    tree.hit = Some(42);
    let mut mgr = Manager::new(&mut state, &mut shell);
    mgr.configure(&mut tree);

    mgr.handle_touch_start(&mut tree, 1, Coord(10, 10));
    mgr.handle_touch_start(&mut tree, 2, Coord(20, 20));
    assert_eq!(tree.grabbed, vec![true, true]);
    assert_eq!(mgr.state_ref().pan_grab_count(), 1);
    let pan = mgr.state_ref().pan_grab(0).unwrap();
    assert_eq!(pan.id, 42);
    assert_eq!(pan.n, 2);
    assert_eq!(pan.mode, GrabMode::PanFull);
    assert!(pan.source_is_touch);
    assert_eq!(mgr.get_touch(1).unwrap().pan_grab, Some((0, 0)));
    assert_eq!(mgr.get_touch(2).unwrap().pan_grab, Some((0, 1)));

    mgr.handle_touch_end(&mut tree, 1, Coord(10, 10));
    assert_eq!(mgr.state_ref().pan_grab_count(), 1);
    let pan = mgr.state_ref().pan_grab(0).unwrap();
    assert_eq!(pan.n, 1);
    // the point that is left has moved down to the first place
    assert_eq!(pan.coords.0.start, Coord(20, 20));
    assert_eq!(mgr.get_touch(1), None);
    assert_eq!(mgr.get_touch(2).unwrap().pan_grab, Some((0, 0)));

    mgr.handle_touch_end(&mut tree, 2, Coord(20, 20));
    assert_eq!(mgr.state_ref().pan_grab_count(), 0);
    assert_eq!(mgr.state_ref().pan_grab(0), None);
    assert_eq!(mgr.get_touch(2), None);
}

#[test]
fn char_focus_moves_and_old_holder_is_told_later() {
    let mut state = ManagerState::new();
    let mut shell = Shell::new();
    let mut tree = Tree::row(5);
    tree.handles.extend([3, 4]);
    let mut mgr = Manager::new(&mut state, &mut shell);
    mgr.configure(&mut tree);
    // X = 3 has selection and character focus
    mgr.request_char_focus(3);
    assert!(mgr.char_focus(3));
    assert_eq!(mgr.state_ref().sel_focus(), Some(3));
    assert_eq!(mgr.state_ref().pending(), vec![]);

    // Y = 4 asks for character focus while it handles an event
    tree.char_focus_on_activate = Some(4);
    mgr.send_event_to(&mut tree, 4, Event::Activate);
    // read while the event was handled: Y is the target already
    assert_eq!(tree.seen_sel_focus, vec![Some(4)]);
    assert!(mgr.char_focus(4));
    assert!(!mgr.char_focus(3));
    assert_eq!(mgr.nav_focus(), Some(4));
    // nothing was delivered to X yet
    assert_eq!(tree.log, vec![(4, Event::Activate)]);
    assert_eq!(
        mgr.state_ref().pending(),
        vec![Pending::LostCharFocus(3), Pending::LostSelFocus(3)]
    );

    mgr.update(&mut tree);
    assert_eq!(
        tree.log,
        vec![(4, Event::Activate), (3, Event::LostCharFocus), (3, Event::LostSelFocus)]
    );
    assert_eq!(mgr.state_ref().pending(), vec![]);
    assert!(mgr.char_focus(4));
}

#[test]
fn accelerator_below_popup_closes_popup_first() {
    let mut state = ManagerState::new();
    let mut shell = Shell::new();
    let mut tree = Tree::row(8);
    tree.root.children[5].keys.push(VirtualKeyCode::S);
    tree.handles.push(7);
    let mut mgr = Manager::new(&mut state, &mut shell);
    mgr.configure(&mut tree);
    // a pop-up opened by widget 3, with a layer of its own that lacks the key
    let window = mgr.add_popup(Popup { id: 5, parent: 3, direction: Direction::Down }).unwrap();
    mgr.push_accel_layer(true);
    mgr.add_accel_keys(6, &[VirtualKeyCode::A]);
    mgr.pop_accel_layer(3);
    mgr.update(&mut tree);
    assert_eq!(tree.log, vec![(5, Event::NewPopup(5))]);
    tree.log.clear();
    mgr.handle_modifiers(mods(false, false, true));

    mgr.handle_key_down(&mut tree, VirtualKeyCode::S, 31);
    // the pop-up is closed before the key is delivered
    assert_eq!(mgr.state_ref().popups(), vec![]);
    assert_eq!(tree.log, vec![(7, Event::Activate)]);
    assert_eq!(mgr.state_ref().pending(), vec![Pending::PopupRemoved(3, window)]);
    mgr.update(&mut tree);
    assert_eq!(tree.log, vec![(7, Event::Activate), (3, Event::PopupRemoved(window))]);
    drop(mgr);
    assert_eq!(shell.closed, vec![window]);
}

#[test]
fn key_bound_in_popup_layer_keeps_popup_open() {
    let mut state = ManagerState::new();
    let mut shell = Shell::new();
    let mut tree = Tree::row(8);
    tree.root.children[5].keys.push(VirtualKeyCode::A);
    let mut mgr = Manager::new(&mut state, &mut shell);
    mgr.configure(&mut tree);
    let window = mgr.add_popup(Popup { id: 5, parent: 3, direction: Direction::Down }).unwrap();
    mgr.push_accel_layer(true);
    mgr.add_accel_keys(6, &[VirtualKeyCode::A]);
    mgr.pop_accel_layer(3);
    mgr.update(&mut tree);
    tree.log.clear();

    // the layer of the pop-up works without alt, and comes first
    mgr.handle_key_down(&mut tree, VirtualKeyCode::A, 30);
    assert_eq!(tree.log, vec![(6, Event::Activate)]);
    assert_eq!(mgr.state_ref().popups().len(), 1);
    assert_eq!(mgr.state_ref().popups()[0].0, window);
}

#[test]
fn second_button_grab_is_refused() {
    let mut state = ManagerState::new();
    let mut shell = Shell::new();
    let mut tree = Tree::row(5);
    let mut mgr = Manager::new(&mut state, &mut shell);
    mgr.configure(&mut tree);
    let left = PressSource::Mouse(MouseButton::Left, 1);
    let right = PressSource::Mouse(MouseButton::Right, 1);
    assert!(mgr.request_grab(2, left, Coord(1, 1), GrabMode::Grab, None));
    let held = mgr.mouse_grab();
    assert!(!mgr.request_grab(3, right, Coord(1, 1), GrabMode::Grab, None));
    assert!(!mgr.request_grab(2, left, Coord(1, 1), GrabMode::PanFull, None));
    assert_eq!(mgr.mouse_grab(), held);
    assert_eq!(held.unwrap().start_id, 2);
    assert_eq!(mgr.state_ref().pan_grab_count(), 0);
}
