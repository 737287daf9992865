#![allow(dead_code)]
#![allow(unused_imports)]

use kas::event::{
    ConfigureManager, CursorIcon, Direction, Event, GrabMode, Manager, ManagerState,
    ModifiersState, MouseButton, PanPoint, Pending, Popup, PressSource, Response, TimerEntry,
    VirtualKeyCode, Widget, WidgetId, WindowId,
};
use kas::geom::Coord;
use kas::toolkit::{TkAction, TkWindow};

/// A toolkit window that records what it is asked to do.
struct Shell {
    icons: Vec<CursorIcon>,
    closed: Vec<WindowId>,
    next_window: WindowId,
    refuse_popups: bool,
    clipboard: Option<String>,
}

impl Shell {
    fn new() -> Shell {
        Shell {
            icons: Vec::new(),
            closed: Vec::new(),
            next_window: 100,
            refuse_popups: false,
            clipboard: None,
        }
    }
}

impl TkWindow for Shell {
    fn add_popup(&mut self, _popup: Popup) -> Option<WindowId> {
        if self.refuse_popups {
            return None;
        }
        self.next_window += 1;
        Some(self.next_window)
    }

    fn close_window(&mut self, id: WindowId) {
        self.closed.push(id);
    }

    fn get_clipboard(&mut self) -> Option<String> {
        self.clipboard.clone()
    }

    fn set_clipboard(&mut self, content: String) {
        self.clipboard = Some(content);
    }

    fn set_cursor_icon(&mut self, icon: CursorIcon) {
        self.icons.push(icon);
    }
}

/// One widget of a test tree.
#[derive(Clone)]
struct Node {
    id: WidgetId,
    key_nav: bool,
    hover: bool,
    icon: CursorIcon,
    keys: Vec<VirtualKeyCode>,
    children: Vec<Node>,
}

impl Node {
    fn new(children: Vec<Node>) -> Node {
        Node {
            id: 0,
            key_nav: false,
            hover: false,
            icon: CursorIcon::Default,
            keys: Vec::new(),
            children,
        }
    }

    fn leaf() -> Node {
        Node::new(Vec::new())
    }

    fn nav(mut self) -> Node {
        self.key_nav = true;
        self
    }

    fn hover(mut self) -> Node {
        self.hover = true;
        self
    }

    fn icon(mut self, icon: CursorIcon) -> Node {
        self.icon = icon;
        self
    }

    fn key(mut self, key: VirtualKeyCode) -> Node {
        self.keys.push(key);
        self
    }

    fn configure<S: TkWindow>(&mut self, mut cmgr: ConfigureManager<S>) {
        self.id = cmgr.next_id(self.id);
        cmgr.set_props(self.id, self.key_nav, self.hover, self.icon);
        cmgr.mgr().add_accel_keys(self.id, &self.keys);
        for child in &mut self.children {
            child.configure(cmgr.child());
        }
    }
}

/// A widget tree that records every event and behaves as its fields say.
struct Tree {
    root: Node,
    log: Vec<(WidgetId, Event)>,
    /// Widgets that handle what they are sent; all others answer "unhandled"
    handles: Vec<WidgetId>,
    /// The grab that a widget asks for when it is pressed
    grab: Option<GrabMode>,
    /// The cursor icon that a widget asks for with its grab
    grab_icon: Option<CursorIcon>,
    /// Whether a grab that was asked for was given, in order
    grabbed: Vec<bool>,
    /// The widget that asks for character focus when it is activated
    char_focus_on_activate: Option<WidgetId>,
    /// The selection focus as read while an activation was handled
    seen_sel_focus: Vec<Option<WidgetId>>,
    /// The action that a widget asks for when it is activated
    action_on_activate: Option<TkAction>,
    /// The widget that `find_id` reports
    hit: Option<WidgetId>,
}

impl Tree {
    fn new(root: Node) -> Tree {
        Tree {
            root,
            log: Vec::new(),
            handles: Vec::new(),
            grab: None,
            grab_icon: None,
            grabbed: Vec::new(),
            char_focus_on_activate: None,
            seen_sel_focus: Vec::new(),
            action_on_activate: None,
            hit: None,
        }
    }

    /// A root with `count` children that can have navigation focus and are
    /// drawn differently under the pointer: the widgets 2 to `count + 1`.
    fn row(count: u32) -> Tree {
        Tree::new(Node::new((0..count).map(|_| Node::leaf().nav().hover()).collect()))
    }
}

impl Widget for Tree {
    fn send<S: TkWindow>(&mut self, mgr: &mut Manager<S>, id: WidgetId, event: Event) -> Response {
        self.log.push((id, event));
        match event {
            Event::PressStart { source, coord, .. } => {
                if let Some(mode) = self.grab {
                    let given = mgr.request_grab(id, source, coord, mode, self.grab_icon);
                    self.grabbed.push(given);
                }
            }
            Event::Activate => {
                if self.char_focus_on_activate == Some(id) {
                    mgr.request_char_focus(id);
                    self.seen_sel_focus.push(mgr.state_ref().sel_focus());
                }
                if let Some(action) = self.action_on_activate {
                    return Response::Action(action);
                }
            }
            _ => {}
        }
        if self.handles.contains(&id) {
            Response::Handled
        } else {
            Response::Unhandled
        }
    }

    fn configure<S: TkWindow>(&mut self, cmgr: ConfigureManager<S>) {
        self.root.configure(cmgr);
    }

    fn find_id(&self, _coord: Coord) -> Option<WidgetId> {
        self.hit
    }
}

fn mods(shift: bool, ctrl: bool, alt: bool) -> ModifiersState {
    ModifiersState { shift, ctrl, alt, logo: false }
}

fn left() -> PressSource {
    PressSource::Mouse(MouseButton::Left, 1)
}

#[test]
fn press_grab_routes_moves_and_ends_on_release() {
    let mut state = ManagerState::new();
    let mut shell = Shell::new();
    let mut tree = Tree::row(4);
    tree.grab = Some(GrabMode::Grab);
    tree.grab_icon = Some(CursorIcon::Grabbing);
    tree.hit = Some(3);
    let mut mgr = Manager::new(&mut state, &mut shell);
    mgr.configure(&mut tree);
    mgr.handle_cursor_moved(&mut tree, Coord(5, 5));
    assert_eq!(mgr.state_ref().hover(), Some(3));

    mgr.handle_mouse_input(&mut tree, MouseButton::Left, true);
    assert_eq!(
        tree.log,
        vec![(3, Event::PressStart { source: left(), start_id: Some(3), coord: Coord(5, 5) })]
    );
    assert_eq!(tree.grabbed, vec![true]);
    let grab = mgr.mouse_grab().unwrap();
    assert_eq!(grab.button, MouseButton::Left);
    assert_eq!(grab.start_id, 3);
    assert_eq!(grab.depress, Some(3));
    assert_eq!(grab.mode, GrabMode::Grab);
    assert_eq!(grab.pan_grab, None);

    // the pointer moves over another widget: the grab still gets the event
    tree.log.clear();
    tree.hit = Some(4);
    mgr.handle_cursor_moved(&mut tree, Coord(8, 3));
    assert_eq!(
        tree.log,
        vec![(
            3,
            Event::PressMove {
                source: left(),
                cur_id: Some(4),
                coord: Coord(8, 3),
                delta: Coord(3, -2)
            }
        )]
    );
    // hover does not follow the pointer while the grab lasts
    assert_eq!(mgr.state_ref().hover(), Some(3));

    tree.log.clear();
    mgr.handle_mouse_input(&mut tree, MouseButton::Left, false);
    assert_eq!(
        tree.log,
        vec![(3, Event::PressEnd { source: left(), end_id: Some(3), coord: Coord(8, 3) })]
    );
    assert_eq!(mgr.mouse_grab(), None);
    drop(mgr);
    // the grab's icon, then the hovered widget's icon again
    assert_eq!(shell.icons, vec![CursorIcon::Grabbing, CursorIcon::Default]);
}

#[test]
fn release_of_other_button_keeps_grab() {
    let mut state = ManagerState::new();
    let mut shell = Shell::new();
    let mut tree = Tree::row(4);
    let mut mgr = Manager::new(&mut state, &mut shell);
    mgr.configure(&mut tree);
    assert!(mgr.request_grab(2, left(), Coord(0, 0), GrabMode::Grab, None));
    let _ = mgr.pop_action();
    mgr.handle_mouse_input(&mut tree, MouseButton::Right, false);
    assert_eq!(mgr.mouse_grab().unwrap().start_id, 2);
    assert_eq!(tree.log, vec![]);
    assert_eq!(mgr.pop_action(), TkAction::Nothing);
    mgr.handle_mouse_input(&mut tree, MouseButton::Left, false);
    assert_eq!(mgr.mouse_grab(), None);
    assert_eq!(mgr.pop_action(), TkAction::Redraw);
}

#[test]
fn press_without_hover_goes_nowhere() {
    let mut state = ManagerState::new();
    let mut shell = Shell::new();
    let mut tree = Tree::row(4);
    tree.grab = Some(GrabMode::Grab);
    let mut mgr = Manager::new(&mut state, &mut shell);
    mgr.configure(&mut tree);
    mgr.handle_mouse_input(&mut tree, MouseButton::Left, true);
    assert_eq!(tree.log, vec![]);
    assert_eq!(mgr.mouse_grab(), None);
    assert_eq!(mgr.press_start(MouseButton::Left), None);
    assert_eq!(mgr.press_end(MouseButton::Left), None);
}

#[test]
fn mouse_pan_gesture_reports_movement_once() {
    let mut state = ManagerState::new();
    let mut shell = Shell::new();
    let mut tree = Tree::row(4);
    tree.grab = Some(GrabMode::PanOnly);
    tree.hit = Some(3);
    let mut mgr = Manager::new(&mut state, &mut shell);
    mgr.configure(&mut tree);
    mgr.handle_cursor_moved(&mut tree, Coord(5, 5));
    mgr.handle_mouse_input(&mut tree, MouseButton::Left, true);
    assert_eq!(mgr.mouse_grab().unwrap().pan_grab, Some((0, 0)));
    let pan = mgr.state_ref().pan_grab(0).unwrap();
    assert_eq!((pan.id, pan.n, pan.source_is_touch, pan.mode), (3, 1, false, GrabMode::PanOnly));
    let at = PanPoint { start: Coord(5, 5), current: Coord(5, 5) };
    assert_eq!(pan.coords.0, at);

    // a gesture that has not moved reports nothing
    tree.log.clear();
    mgr.update(&mut tree);
    assert_eq!(tree.log, vec![]);

    // pan grabs receive no press events, only the movement
    mgr.handle_cursor_moved(&mut tree, Coord(9, 2));
    assert_eq!(tree.log, vec![]);
    let moved = PanPoint { start: Coord(5, 5), current: Coord(9, 2) };
    assert_eq!(mgr.state_ref().pan_grab(0).unwrap().coords.0, moved);
    mgr.update(&mut tree);
    assert_eq!(
        tree.log,
        vec![(3, Event::Pan { mode: GrabMode::PanOnly, first: moved, second: None })]
    );
    // reported once: the point starts anew where it is
    let settled = PanPoint { start: Coord(9, 2), current: Coord(9, 2) };
    assert_eq!(mgr.state_ref().pan_grab(0).unwrap().coords.0, settled);
    tree.log.clear();
    mgr.update(&mut tree);
    assert_eq!(tree.log, vec![]);

    mgr.handle_mouse_input(&mut tree, MouseButton::Left, false);
    assert_eq!(tree.log, vec![]);
    assert_eq!(mgr.mouse_grab(), None);
    assert_eq!(mgr.state_ref().pan_grab_count(), 0);
}

#[test]
fn two_finger_pan_reports_both_points() {
    let mut state = ManagerState::new();
    let mut shell = Shell::new();
    let mut tree = Tree::row(4);
    tree.grab = Some(GrabMode::PanScale);
    tree.hit = Some(2);
    let mut mgr = Manager::new(&mut state, &mut shell);
    mgr.configure(&mut tree);
    mgr.handle_touch_start(&mut tree, 7, Coord(0, 0));
    mgr.handle_touch_start(&mut tree, 8, Coord(10, 0));
    tree.log.clear();
    mgr.handle_touch_move(&mut tree, 8, Coord(20, 0));
    assert_eq!(tree.log, vec![]);
    assert_eq!(mgr.get_touch(8).unwrap().coord, Coord(20, 0));
    assert_eq!(mgr.get_touch(8).unwrap().cur_id, Some(2));
    mgr.update(&mut tree);
    assert_eq!(
        tree.log,
        vec![(
            2,
            Event::Pan {
                mode: GrabMode::PanScale,
                first: PanPoint { start: Coord(0, 0), current: Coord(0, 0) },
                second: Some(PanPoint { start: Coord(10, 0), current: Coord(20, 0) }),
            }
        )]
    );
}

#[test]
fn third_touch_on_full_gesture_is_refused() {
    let mut state = ManagerState::new();
    let mut shell = Shell::new();
    let mut tree = Tree::row(4);
    tree.grab = Some(GrabMode::PanRotate);
    tree.hit = Some(2);
    let mut mgr = Manager::new(&mut state, &mut shell);
    mgr.configure(&mut tree);
    mgr.handle_touch_start(&mut tree, 1, Coord(1, 1));
    mgr.handle_touch_start(&mut tree, 2, Coord(2, 2));
    mgr.handle_touch_start(&mut tree, 3, Coord(3, 3));
    assert_eq!(tree.grabbed, vec![true, true, false]);
    assert_eq!(mgr.state_ref().pan_grab_count(), 1);
    assert_eq!(mgr.state_ref().pan_grab(0).unwrap().n, 2);
    assert_eq!(mgr.get_touch(3), None);
    // a touch that holds a grab already is refused as well
    assert!(!mgr.request_grab(2, PressSource::Touch(1), Coord(1, 1), GrabMode::Grab, None));
    assert_eq!(mgr.get_touch(1).unwrap().mode, GrabMode::PanRotate);
}

#[test]
fn pan_request_of_other_source_ends_old_gesture() {
    let mut state = ManagerState::new();
    let mut shell = Shell::new();
    let mut tree = Tree::row(4);
    let mut mgr = Manager::new(&mut state, &mut shell);
    mgr.configure(&mut tree);
    assert!(mgr.request_grab(3, PressSource::Touch(1), Coord(1, 1), GrabMode::PanFull, None));
    assert!(mgr.request_grab(4, PressSource::Touch(2), Coord(2, 2), GrabMode::PanFull, None));
    assert_eq!(mgr.state_ref().pan_grab_count(), 2);
    // the mouse asks for a pan on the widget that a touch pans already
    assert!(mgr.request_grab(3, left(), Coord(9, 9), GrabMode::PanOnly, None));
    // the touch gesture on 3 is gone, with the grab that contributed to it
    assert_eq!(mgr.get_touch(1), None);
    assert_eq!(mgr.state_ref().pan_grab_count(), 2);
    let first = mgr.state_ref().pan_grab(0).unwrap();
    assert_eq!((first.id, first.source_is_touch), (4, true));
    let second = mgr.state_ref().pan_grab(1).unwrap();
    assert_eq!((second.id, second.source_is_touch, second.n), (3, false, 1));
    assert_eq!(second.mode, GrabMode::PanOnly);
    // the other touch has moved down with its gesture
    assert_eq!(mgr.get_touch(2).unwrap().pan_grab, Some((0, 0)));
    assert_eq!(mgr.mouse_grab().unwrap().pan_grab, Some((1, 0)));
}

#[test]
fn removing_a_gesture_shifts_later_indices() {
    let mut state = ManagerState::new();
    let mut shell = Shell::new();
    let mut tree = Tree::row(4);
    let mut mgr = Manager::new(&mut state, &mut shell);
    mgr.configure(&mut tree);
    assert!(mgr.request_grab(2, PressSource::Touch(1), Coord(1, 1), GrabMode::PanFull, None));
    assert!(mgr.request_grab(3, PressSource::Touch(2), Coord(2, 2), GrabMode::PanFull, None));
    assert!(mgr.request_grab(3, PressSource::Touch(3), Coord(3, 3), GrabMode::PanFull, None));
    assert!(mgr.request_grab(4, left(), Coord(4, 4), GrabMode::PanOnly, None));
    assert!(mgr.request_grab(5, PressSource::Touch(4), Coord(5, 5), GrabMode::Grab, None));
    assert_eq!(mgr.get_touch(1).unwrap().pan_grab, Some((0, 0)));
    assert_eq!(mgr.get_touch(2).unwrap().pan_grab, Some((1, 0)));
    assert_eq!(mgr.get_touch(3).unwrap().pan_grab, Some((1, 1)));
    assert_eq!(mgr.mouse_grab().unwrap().pan_grab, Some((2, 0)));

    let ended = mgr.touch_ended(1, Coord(1, 1));
    assert_eq!(ended, None);
    assert_eq!(mgr.state_ref().pan_grab_count(), 2);
    assert_eq!(mgr.state_ref().pan_grab(0).unwrap().id, 3);
    assert_eq!(mgr.state_ref().pan_grab(1).unwrap().id, 4);
    assert_eq!(mgr.get_touch(2).unwrap().pan_grab, Some((0, 0)));
    assert_eq!(mgr.get_touch(3).unwrap().pan_grab, Some((0, 1)));
    assert_eq!(mgr.mouse_grab().unwrap().pan_grab, Some((1, 0)));
    // a grab without a gesture is left alone
    assert_eq!(mgr.get_touch(4).unwrap().pan_grab, None);

    // the second point of a gesture leaves: the first stays in place
    let _ = mgr.touch_ended(3, Coord(3, 3));
    assert_eq!(mgr.state_ref().pan_grab(0).unwrap().n, 1);
    assert_eq!(mgr.state_ref().pan_grab(0).unwrap().coords.0.start, Coord(2, 2));
    assert_eq!(mgr.get_touch(2).unwrap().pan_grab, Some((0, 0)));
}

#[test]
fn touch_grab_delivers_press_events() {
    let mut state = ManagerState::new();
    let mut shell = Shell::new();
    let mut tree = Tree::row(4);
    tree.grab = Some(GrabMode::Grab);
    tree.hit = Some(2);
    let mut mgr = Manager::new(&mut state, &mut shell);
    mgr.configure(&mut tree);
    let source = PressSource::Touch(11);
    mgr.handle_touch_start(&mut tree, 11, Coord(1, 1));
    tree.hit = Some(3);
    mgr.handle_touch_move(&mut tree, 11, Coord(4, 5));
    tree.hit = None;
    mgr.handle_touch_end(&mut tree, 11, Coord(6, 6));
    assert_eq!(
        tree.log,
        vec![
            (2, Event::PressStart { source, start_id: Some(2), coord: Coord(1, 1) }),
            (
                2,
                Event::PressMove {
                    source,
                    cur_id: Some(3),
                    coord: Coord(4, 5),
                    delta: Coord(3, 4)
                }
            ),
            (2, Event::PressEnd { source, end_id: Some(3), coord: Coord(6, 6) }),
        ]
    );
    assert_eq!(mgr.get_touch(11), None);
    // the end of a touch that holds no grab is not an event
    tree.log.clear();
    mgr.handle_touch_end(&mut tree, 11, Coord(6, 6));
    mgr.handle_touch_move(&mut tree, 12, Coord(6, 6));
    assert_eq!(tree.log, vec![]);
}

#[test]
fn touch_outside_any_widget_is_ignored() {
    let mut state = ManagerState::new();
    let mut shell = Shell::new();
    let mut tree = Tree::row(4);
    tree.grab = Some(GrabMode::Grab);
    tree.hit = None;
    let mut mgr = Manager::new(&mut state, &mut shell);
    mgr.configure(&mut tree);
    mgr.handle_touch_start(&mut tree, 1, Coord(1, 1));
    assert_eq!(tree.log, vec![]);
    assert_eq!(mgr.get_touch(1), None);
}

#[test]
fn press_goes_to_popup_parent_first() {
    let mut state = ManagerState::new();
    let mut shell = Shell::new();
    let mut tree = Tree::row(5);
    tree.hit = Some(4);
    let mut mgr = Manager::new(&mut state, &mut shell);
    mgr.configure(&mut tree);
    mgr.handle_cursor_moved(&mut tree, Coord(1, 1));
    let first = mgr.add_popup(Popup { id: 5, parent: 2, direction: Direction::Down }).unwrap();
    let second = mgr.add_popup(Popup { id: 6, parent: 3, direction: Direction::Right }).unwrap();
    mgr.update(&mut tree);
    tree.log.clear();

    // the parent of the lower pop-up handles the press: only the upper one closes
    tree.handles.push(2);
    mgr.handle_mouse_input(&mut tree, MouseButton::Left, true);
    let press = Event::PressStart { source: left(), start_id: Some(4), coord: Coord(1, 1) };
    assert_eq!(tree.log, vec![(3, press), (2, press)]);
    assert_eq!(mgr.state_ref().popups().len(), 1);
    assert_eq!(mgr.state_ref().popups()[0].0, first);
    assert_eq!(mgr.state_ref().pending(), vec![Pending::PopupRemoved(3, second)]);

    // nobody handles it: all pop-ups close, and the hovered widget is told
    tree.handles.clear();
    tree.log.clear();
    mgr.handle_mouse_input(&mut tree, MouseButton::Left, true);
    assert_eq!(tree.log, vec![(2, press), (4, press)]);
    assert_eq!(mgr.state_ref().popups(), vec![]);
    drop(mgr);
    assert_eq!(shell.closed, vec![second, first]);
}

#[test]
fn read_only_handle_refuses_grabs() {
    let mut state = ManagerState::new();
    let mut shell = Shell::new();
    let mut mgr = Manager::new_read_only(&mut state, &mut shell);
    assert!(!mgr.request_grab(2, left(), Coord(0, 0), GrabMode::Grab, None));
    assert!(!mgr.request_grab(2, PressSource::Touch(1), Coord(0, 0), GrabMode::PanFull, None));
    assert_eq!(mgr.mouse_grab(), None);
    assert_eq!(mgr.get_touch(1), None);
    assert_eq!(mgr.state_ref().pan_grab_count(), 0);
    assert_eq!(mgr.pop_action(), TkAction::Nothing);
}

#[test]
fn grab_asks_for_redraw() {
    let mut state = ManagerState::new();
    let mut shell = Shell::new();
    let mut mgr = Manager::new(&mut state, &mut shell);
    assert_eq!(mgr.pending_action(), TkAction::Nothing);
    assert!(mgr.request_grab(2, PressSource::Touch(1), Coord(0, 0), GrabMode::Grab, None));
    assert_eq!(mgr.pending_action(), TkAction::Redraw);
    assert_eq!(mgr.pop_action(), TkAction::Redraw);
    assert_eq!(mgr.pop_action(), TkAction::Nothing);
}

#[test]
fn grab_shows_a_widget_as_depressed() {
    let mut state = ManagerState::new();
    let mut shell = Shell::new();
    let mut tree = Tree::row(4);
    tree.hit = Some(2);
    let mut mgr = Manager::new(&mut state, &mut shell);
    mgr.configure(&mut tree);
    mgr.handle_cursor_moved(&mut tree, Coord(1, 1));
    assert!(mgr.state_ref().is_hovered(2));
    assert!(!mgr.state_ref().is_hovered(3));
    assert!(mgr.request_grab(2, left(), Coord(1, 1), GrabMode::Grab, None));
    assert!(mgr.request_grab(3, PressSource::Touch(5), Coord(1, 1), GrabMode::Grab, None));
    // hover is not shown while the press grab lasts
    assert!(!mgr.state_ref().is_hovered(2));
    assert!(mgr.state_ref().is_depressed(2));
    assert!(mgr.state_ref().is_depressed(3));
    assert!(!mgr.state_ref().is_depressed(4));
    let _ = mgr.pop_action();

    // the pointer leaves the widget while the button is held
    assert!(mgr.set_grab_depress(left(), None));
    assert!(!mgr.state_ref().is_depressed(2));
    assert_eq!(mgr.mouse_grab().unwrap().depress, None);
    assert_eq!(mgr.pop_action(), TkAction::Redraw);
    assert!(mgr.set_grab_depress(left(), None));
    assert_eq!(mgr.pop_action(), TkAction::Nothing);
    assert!(mgr.set_grab_depress(PressSource::Touch(5), Some(4)));
    assert!(mgr.state_ref().is_depressed(4));
    assert!(!mgr.state_ref().is_depressed(3));
    assert_eq!(mgr.get_touch(5).unwrap().start_id, 3);
    // a press without a grab has nothing to show
    assert!(!mgr.set_grab_depress(PressSource::Touch(6), Some(4)));
    assert_eq!(mgr.get_touch(6), None);
    // a key depresses as well
    mgr.key_sent(VirtualKeyCode::Space, 57, 2, true, Response::Handled);
    assert!(mgr.state_ref().is_depressed(2));
}
