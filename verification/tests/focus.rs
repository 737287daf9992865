#![allow(dead_code)]
#![allow(unused_imports)]

use kas::event::{
    ConfigureManager, CursorIcon, Direction, Event, GrabMode, Manager, ManagerState,
    ModifiersState, MouseButton, PanPoint, Pending, Popup, PressSource, Response, TimerEntry,
    VirtualKeyCode, Widget, WidgetId, WindowId,
};
use kas::geom::Coord;
use kas::toolkit::{TkAction, TkWindow};

/// A toolkit window that records what it is asked to do.
struct Shell {
    icons: Vec<CursorIcon>,
    closed: Vec<WindowId>,
    next_window: WindowId,
    refuse_popups: bool,
    clipboard: Option<String>,
}

impl Shell {
    fn new() -> Shell {
        Shell {
            icons: Vec::new(),
            closed: Vec::new(),
            next_window: 100,
            refuse_popups: false,
            clipboard: None,
        }
    }
}

impl TkWindow for Shell {
    fn add_popup(&mut self, _popup: Popup) -> Option<WindowId> {
        if self.refuse_popups {
            return None;
        }
        self.next_window += 1;
        Some(self.next_window)
    }

    fn close_window(&mut self, id: WindowId) {
        self.closed.push(id);
    }

    fn get_clipboard(&mut self) -> Option<String> {
        self.clipboard.clone()
    }

    fn set_clipboard(&mut self, content: String) {
        self.clipboard = Some(content);
    }

    fn set_cursor_icon(&mut self, icon: CursorIcon) {
        self.icons.push(icon);
    }
}

/// One widget of a test tree.
#[derive(Clone)]
struct Node {
    id: WidgetId,
    key_nav: bool,
    hover: bool,
    icon: CursorIcon,
    keys: Vec<VirtualKeyCode>,
    children: Vec<Node>,
}

impl Node {
    fn new(children: Vec<Node>) -> Node {
        Node {
            id: 0,
            key_nav: false,
            hover: false,
            icon: CursorIcon::Default,
            keys: Vec::new(),
            children,
        }
    }

    fn leaf() -> Node {
        Node::new(Vec::new())
    }

    fn nav(mut self) -> Node {
        self.key_nav = true;
        self
    }

    fn hover(mut self) -> Node {
        self.hover = true;
        self
    }

    fn icon(mut self, icon: CursorIcon) -> Node {
        self.icon = icon;
        self
    }

    fn key(mut self, key: VirtualKeyCode) -> Node {
        self.keys.push(key);
        self
    }

    fn configure<S: TkWindow>(&mut self, mut cmgr: ConfigureManager<S>) {
        self.id = cmgr.next_id(self.id);
        cmgr.set_props(self.id, self.key_nav, self.hover, self.icon);
        cmgr.mgr().add_accel_keys(self.id, &self.keys);
        for child in &mut self.children {
            child.configure(cmgr.child());
        }
    }
}

/// A widget tree that records every event and behaves as its fields say.
struct Tree {
    root: Node,
    log: Vec<(WidgetId, Event)>,
    /// Widgets that handle what they are sent; all others answer "unhandled"
    handles: Vec<WidgetId>,
    /// The grab that a widget asks for when it is pressed
    grab: Option<GrabMode>,
    /// The cursor icon that a widget asks for with its grab
    grab_icon: Option<CursorIcon>,
    /// Whether a grab that was asked for was given, in order
    grabbed: Vec<bool>,
    /// The widget that asks for character focus when it is activated
    char_focus_on_activate: Option<WidgetId>,
    /// The selection focus as read while an activation was handled
    seen_sel_focus: Vec<Option<WidgetId>>,
    /// The action that a widget asks for when it is activated
    action_on_activate: Option<TkAction>,
    /// The widget that `find_id` reports
    hit: Option<WidgetId>,
}

impl Tree {
    fn new(root: Node) -> Tree {
        Tree {
            root,
            log: Vec::new(),
            handles: Vec::new(),
            grab: None,
            grab_icon: None,
            grabbed: Vec::new(),
            char_focus_on_activate: None,
            seen_sel_focus: Vec::new(),
            action_on_activate: None,
            hit: None,
        }
    }

    /// A root with `count` children that can have navigation focus and are
    /// drawn differently under the pointer: the widgets 2 to `count + 1`.
    fn row(count: u32) -> Tree {
        Tree::new(Node::new((0..count).map(|_| Node::leaf().nav().hover()).collect()))
    }
}

impl Widget for Tree {
    fn send<S: TkWindow>(&mut self, mgr: &mut Manager<S>, id: WidgetId, event: Event) -> Response {
        self.log.push((id, event));
        match event {
            Event::PressStart { source, coord, .. } => {
                if let Some(mode) = self.grab {
                    let given = mgr.request_grab(id, source, coord, mode, self.grab_icon);
                    self.grabbed.push(given);
                }
            }
            Event::Activate => {
                if self.char_focus_on_activate == Some(id) {
                    mgr.request_char_focus(id);
                    self.seen_sel_focus.push(mgr.state_ref().sel_focus());
                }
                if let Some(action) = self.action_on_activate {
                    return Response::Action(action);
                }
            }
            _ => {}
        }
        if self.handles.contains(&id) {
            Response::Handled
        } else {
            Response::Unhandled
        }
    }

    fn configure<S: TkWindow>(&mut self, cmgr: ConfigureManager<S>) {
        self.root.configure(cmgr);
    }

    fn find_id(&self, _coord: Coord) -> Option<WidgetId> {
        self.hit
    }
}

fn mods(shift: bool, ctrl: bool, alt: bool) -> ModifiersState {
    ModifiersState { shift, ctrl, alt, logo: false }
}

use kas::event::Command;

fn configured<'a>(state: &'a mut ManagerState, shell: &'a mut Shell, tree: &mut Tree) -> Manager<'a, Shell> {
    let mut mgr = Manager::new(state, shell);
    mgr.configure(tree);
    let _ = mgr.pop_action();
    mgr
}

#[test]
fn tab_visits_every_focusable_widget_in_turn() {
    let mut state = ManagerState::new();
    let mut shell = Shell::new();
    // 1: root, 2: nav, 3: plain, 4: nav, 5: nav (child of 4), 6: plain
    let mut tree = Tree::new(Node::new(vec![
        Node::leaf().nav(),
        Node::leaf(),
        Node::new(vec![Node::leaf().nav()]).nav(),
        Node::leaf(),
    ]));
    let mut mgr = configured(&mut state, &mut shell, &mut tree);
    let mut visited = Vec::new();
    for _ in 0..7 {
        mgr.handle_key_down(&mut tree, VirtualKeyCode::Tab, 15);
        visited.push(mgr.nav_focus());
    }
    assert_eq!(
        visited,
        vec![Some(2), Some(4), Some(5), Some(2), Some(4), Some(5), Some(2)]
    );
    // each step tells the widget that it has the focus
    assert_eq!(tree.log.len(), 7);
    assert_eq!(tree.log[0], (2, Event::NavFocus));
    assert_eq!(tree.log[1], (4, Event::NavFocus));
    assert_eq!(tree.log[2], (5, Event::NavFocus));
    assert_eq!(tree.log[3], (2, Event::NavFocus));
}

#[test]
fn shift_tab_goes_backwards() {
    let mut state = ManagerState::new();
    let mut shell = Shell::new();
    let mut tree = Tree::row(3);
    let mut mgr = configured(&mut state, &mut shell, &mut tree);
    mgr.handle_modifiers(mods(true, false, false));
    let mut visited = Vec::new();
    for _ in 0..4 {
        mgr.handle_key_down(&mut tree, VirtualKeyCode::Tab, 15);
        visited.push(mgr.nav_focus());
    }
    assert_eq!(visited, vec![Some(4), Some(3), Some(2), Some(4)]);
}

#[test]
fn tab_steps_report_whether_focus_was_found() {
    let mut state = ManagerState::new();
    let mut shell = Shell::new();
    let mut tree = Tree::row(2);
    let mut mgr = configured(&mut state, &mut shell, &mut tree);
    assert!(mgr.next_nav_focus(false));
    assert_eq!(mgr.nav_focus(), Some(2));
    assert_eq!(mgr.pop_action(), TkAction::Redraw);
    assert!(mgr.next_nav_focus(true));
    assert_eq!(mgr.nav_focus(), Some(3));
    // a single focusable widget keeps the focus, and nothing is redrawn
    let mut state2 = ManagerState::new();
    let mut shell2 = Shell::new();
    let mut one = Tree::row(1);
    let mut mgr2 = configured(&mut state2, &mut shell2, &mut one);
    assert!(mgr2.next_nav_focus(false));
    let _ = mgr2.pop_action();
    assert!(mgr2.next_nav_focus(false));
    assert_eq!(mgr2.nav_focus(), Some(2));
    assert_eq!(mgr2.pop_action(), TkAction::Nothing);
}

#[test]
fn tab_without_focusable_widget_gives_up_focus() {
    let mut state = ManagerState::new();
    let mut shell = Shell::new();
    let mut tree = Tree::new(Node::new(vec![Node::leaf(), Node::leaf()]));
    let mut mgr = configured(&mut state, &mut shell, &mut tree);
    mgr.set_nav_focus(3);
    assert_eq!(mgr.nav_focus(), Some(3));
    mgr.handle_key_down(&mut tree, VirtualKeyCode::Tab, 15);
    assert_eq!(mgr.nav_focus(), None);
    assert_eq!(tree.log, vec![]);
    assert!(!mgr.next_nav_focus(false));
}

#[test]
fn char_focus_takes_keys_and_characters() {
    let mut state = ManagerState::new();
    let mut shell = Shell::new();
    let mut tree = Tree::row(3);
    tree.handles.push(3);
    let mut mgr = configured(&mut state, &mut shell, &mut tree);
    mgr.request_char_focus(3);
    assert_eq!(mgr.char_target('a'), Some(3));
    assert_eq!(mgr.char_target('\u{1b}'), None);

    mgr.handle_char(&mut tree, 'a');
    mgr.handle_char(&mut tree, '\u{1b}');
    mgr.handle_key_down(&mut tree, VirtualKeyCode::Left, 75);
    // the Tab key does not leave a widget with character focus
    mgr.handle_key_down(&mut tree, VirtualKeyCode::Tab, 15);
    // a key that stands for no command is not delivered as one
    mgr.handle_key_down(&mut tree, VirtualKeyCode::A, 30);
    mgr.handle_modifiers(mods(true, true, false));
    mgr.handle_key_down(&mut tree, VirtualKeyCode::C, 46);
    assert_eq!(
        tree.log,
        vec![
            (3, Event::ReceivedCharacter('a')),
            (3, Event::Command(Command::Left, false)),
            (3, Event::Command(Command::Tab, false)),
            (3, Event::Command(Command::Copy, true)),
        ]
    );
    assert_eq!(mgr.nav_focus(), Some(3));
    assert!(mgr.char_focus(3));
}

#[test]
fn characters_without_char_focus_go_nowhere() {
    let mut state = ManagerState::new();
    let mut shell = Shell::new();
    let mut tree = Tree::row(3);
    let mut mgr = configured(&mut state, &mut shell, &mut tree);
    mgr.handle_char(&mut tree, 'a');
    assert_eq!(tree.log, vec![]);
    assert_eq!(mgr.char_target('a'), None);
}

#[test]
fn unhandled_escape_ends_char_focus() {
    let mut state = ManagerState::new();
    let mut shell = Shell::new();
    let mut tree = Tree::row(3);
    let mut mgr = configured(&mut state, &mut shell, &mut tree);
    mgr.request_char_focus(3);
    mgr.handle_key_down(&mut tree, VirtualKeyCode::Escape, 1);
    assert_eq!(tree.log, vec![(3, Event::Command(Command::Escape, false))]);
    assert!(!mgr.char_focus(3));
    // the widget keeps selection focus, and is told that it lost the other
    assert_eq!(mgr.state_ref().sel_focus(), Some(3));
    assert_eq!(mgr.state_ref().pending(), vec![Pending::LostCharFocus(3)]);
}

#[test]
fn handled_escape_keeps_char_focus() {
    let mut state = ManagerState::new();
    let mut shell = Shell::new();
    let mut tree = Tree::row(3);
    tree.handles.push(3);
    let mut mgr = configured(&mut state, &mut shell, &mut tree);
    mgr.request_char_focus(3);
    mgr.handle_key_down(&mut tree, VirtualKeyCode::Escape, 1);
    assert!(mgr.char_focus(3));
    assert_eq!(mgr.state_ref().pending(), vec![]);
}

#[test]
fn char_focus_request_by_holder_changes_nothing() {
    let mut state = ManagerState::new();
    let mut shell = Shell::new();
    let mut tree = Tree::row(3);
    let mut mgr = configured(&mut state, &mut shell, &mut tree);
    mgr.request_char_focus(3);
    let _ = mgr.pop_action();
    mgr.request_char_focus(3);
    assert!(mgr.char_focus(3));
    assert_eq!(mgr.state_ref().pending(), vec![]);
    assert_eq!(mgr.pop_action(), TkAction::Nothing);
}

#[test]
fn selection_focus_without_char_focus_is_lost_quietly() {
    let mut state = ManagerState::new();
    let mut shell = Shell::new();
    let mut tree = Tree::row(3);
    let mut mgr = configured(&mut state, &mut shell, &mut tree);
    mgr.request_char_focus(3);
    mgr.handle_key_down(&mut tree, VirtualKeyCode::Escape, 1);
    let _ = mgr.take_pending();
    // 3 has selection focus only; 4 takes both
    mgr.request_char_focus(4);
    assert_eq!(mgr.state_ref().pending(), vec![Pending::LostSelFocus(3)]);
    assert!(mgr.char_focus(4));
}

#[test]
fn space_and_return_activate_nav_focus() {
    let mut state = ManagerState::new();
    let mut shell = Shell::new();
    let mut tree = Tree::row(3);
    tree.handles.extend([2, 3]);
    let mut mgr = configured(&mut state, &mut shell, &mut tree);
    mgr.set_nav_focus(3);
    mgr.handle_key_down(&mut tree, VirtualKeyCode::Space, 57);
    assert_eq!(mgr.state_ref().key_depress(57), Some(3));
    mgr.handle_key_down(&mut tree, VirtualKeyCode::Return, 28);
    // the widget is depressed by the first key already
    assert_eq!(mgr.state_ref().key_depress(28), None);
    mgr.handle_key_down(&mut tree, VirtualKeyCode::NumpadEnter, 96);
    mgr.handle_modifiers(mods(true, false, false));
    mgr.handle_key_down(&mut tree, VirtualKeyCode::Down, 80);
    mgr.handle_key_down(&mut tree, VirtualKeyCode::Q, 16);
    assert_eq!(
        tree.log,
        vec![
            (3, Event::Activate),
            (3, Event::Activate),
            (3, Event::Activate),
            (3, Event::Command(Command::Down, true)),
        ]
    );
    mgr.handle_key_up(57);
    assert!(!mgr.state_ref().is_key_depressed(3));
}

#[test]
fn alt_bypasses_nav_focus() {
    let mut state = ManagerState::new();
    let mut shell = Shell::new();
    let mut tree = Tree::row(3);
    let mut mgr = configured(&mut state, &mut shell, &mut tree);
    mgr.set_nav_focus(3);
    mgr.handle_modifiers(mods(false, false, true));
    mgr.handle_key_down(&mut tree, VirtualKeyCode::Space, 57);
    mgr.handle_key_down(&mut tree, VirtualKeyCode::Left, 75);
    assert_eq!(tree.log, vec![]);
    assert_eq!(mgr.state_ref().key_depress(57), None);
}

#[test]
fn commands_go_to_popup_parent_or_fallback() {
    let mut state = ManagerState::new();
    let mut shell = Shell::new();
    let mut tree = Tree::row(4);
    tree.handles.extend([2, 3, 4]);
    let mut mgr = configured(&mut state, &mut shell, &mut tree);
    // nobody to take it
    mgr.handle_key_down(&mut tree, VirtualKeyCode::Left, 75);
    assert_eq!(tree.log, vec![]);
    // the first fallback that registers stays
    mgr.register_nav_fallback(4);
    mgr.register_nav_fallback(5);
    assert_eq!(mgr.state_ref().nav_fallback(), Some(4));
    mgr.handle_key_down(&mut tree, VirtualKeyCode::Left, 75);
    assert_eq!(tree.log, vec![(4, Event::Command(Command::Left, false))]);
    // a pop-up's parent comes before the fallback
    tree.log.clear();
    let _ = mgr.add_popup(Popup { id: 5, parent: 2, direction: Direction::Down });
    let _ = mgr.take_pending();
    mgr.handle_key_down(&mut tree, VirtualKeyCode::Left, 75);
    assert_eq!(tree.log, vec![(2, Event::Command(Command::Left, false))]);
    // navigation focus comes before both
    tree.log.clear();
    mgr.set_nav_focus(3);
    mgr.handle_key_down(&mut tree, VirtualKeyCode::Left, 75);
    assert_eq!(tree.log, vec![(3, Event::Command(Command::Left, false))]);
}

#[test]
fn root_accelerators_need_alt() {
    let mut state = ManagerState::new();
    let mut shell = Shell::new();
    let mut tree = Tree::row(3);
    tree.root.children[1].keys.push(VirtualKeyCode::S);
    let mut mgr = configured(&mut state, &mut shell, &mut tree);
    mgr.handle_key_down(&mut tree, VirtualKeyCode::S, 31);
    assert_eq!(tree.log, vec![]);
    assert_eq!(mgr.state_ref().find_accel(1, VirtualKeyCode::S.code()), None);
    mgr.handle_modifiers(mods(false, false, true));
    assert_eq!(mgr.state_ref().find_accel(1, VirtualKeyCode::S.code()), Some((0, 3)));
    assert_eq!(mgr.state_ref().find_accel(1, VirtualKeyCode::T.code()), None);
    mgr.handle_key_down(&mut tree, VirtualKeyCode::S, 31);
    assert_eq!(tree.log, vec![(3, Event::Activate)]);
}

#[test]
fn first_binding_of_a_key_wins() {
    let mut state = ManagerState::new();
    let mut shell = Shell::new();
    let mut tree = Tree::row(3);
    tree.root.children[0].keys.push(VirtualKeyCode::S);
    tree.root.children[2].keys.extend([VirtualKeyCode::S, VirtualKeyCode::T]);
    let mut mgr = configured(&mut state, &mut shell, &mut tree);
    mgr.handle_modifiers(mods(false, false, true));
    mgr.handle_key_down(&mut tree, VirtualKeyCode::S, 31);
    mgr.handle_key_down(&mut tree, VirtualKeyCode::T, 20);
    assert_eq!(tree.log, vec![(2, Event::Activate), (4, Event::Activate)]);
}

#[test]
fn accel_keys_outside_a_layer_are_dropped() {
    let mut state = ManagerState::new();
    let mut shell = Shell::new();
    let mut mgr = Manager::new(&mut state, &mut shell);
    mgr.add_accel_keys(3, &[VirtualKeyCode::S]);
    mgr.pop_accel_layer(1);
    mgr.handle_modifiers(mods(false, false, true));
    assert_eq!(mgr.state_ref().find_accel(1, VirtualKeyCode::S.code()), None);
}

#[test]
fn unhandled_escape_closes_popup_then_gives_up_focus() {
    let mut state = ManagerState::new();
    let mut shell = Shell::new();
    let mut tree = Tree::row(4);
    let mut mgr = configured(&mut state, &mut shell, &mut tree);
    let lower = mgr.add_popup(Popup { id: 4, parent: 2, direction: Direction::Down }).unwrap();
    let upper = mgr.add_popup(Popup { id: 5, parent: 3, direction: Direction::Down }).unwrap();
    let _ = mgr.take_pending();
    mgr.set_nav_focus(5);
    let _ = mgr.pop_action();

    mgr.handle_key_down(&mut tree, VirtualKeyCode::Escape, 1);
    assert_eq!(mgr.state_ref().popups().len(), 1);
    assert_eq!(mgr.state_ref().popups()[0].0, lower);
    assert_eq!(mgr.state_ref().pending(), vec![Pending::PopupRemoved(3, upper)]);
    assert_eq!(mgr.nav_focus(), Some(5));
    mgr.handle_key_down(&mut tree, VirtualKeyCode::Escape, 1);
    assert_eq!(mgr.state_ref().popups(), vec![]);
    assert_eq!(mgr.nav_focus(), Some(5));
    assert_eq!(mgr.pop_action(), TkAction::Nothing);
    mgr.handle_key_down(&mut tree, VirtualKeyCode::Escape, 1);
    assert_eq!(mgr.nav_focus(), None);
    assert_eq!(mgr.pop_action(), TkAction::Redraw);
}

#[test]
fn opening_a_popup_gives_up_nav_focus() {
    let mut state = ManagerState::new();
    let mut shell = Shell::new();
    let mut tree = Tree::row(4);
    let mut mgr = configured(&mut state, &mut shell, &mut tree);
    mgr.set_nav_focus(2);
    let window = mgr.add_popup(Popup { id: 4, parent: 2, direction: Direction::Up }).unwrap();
    assert_eq!(mgr.nav_focus(), None);
    assert_eq!(
        mgr.state_ref().popups(),
        vec![(window, Popup { id: 4, parent: 2, direction: Direction::Up })]
    );
    assert_eq!(mgr.state_ref().pending(), vec![Pending::NewPopup(4)]);
    // closing a window that is no pop-up changes nothing, but the toolkit is asked
    mgr.close_window(7);
    assert_eq!(mgr.state_ref().popups().len(), 1);
    mgr.close_window(window);
    assert_eq!(mgr.state_ref().popups(), vec![]);
    drop(mgr);
    assert_eq!(shell.closed, vec![7, window]);
}

#[test]
fn refused_popup_changes_nothing() {
    let mut state = ManagerState::new();
    let mut shell = Shell::new();
    shell.refuse_popups = true;
    let mut mgr = Manager::new(&mut state, &mut shell);
    mgr.set_nav_focus(2);
    assert_eq!(mgr.add_popup(Popup { id: 4, parent: 2, direction: Direction::Up }), None);
    assert_eq!(mgr.nav_focus(), Some(2));
    assert_eq!(mgr.state_ref().popups(), vec![]);
    assert_eq!(mgr.state_ref().pending(), vec![]);
}

#[test]
fn widget_response_is_folded_into_action() {
    let mut state = ManagerState::new();
    let mut shell = Shell::new();
    let mut tree = Tree::row(3);
    tree.action_on_activate = Some(TkAction::Close);
    let mut mgr = configured(&mut state, &mut shell, &mut tree);
    mgr.send_action(TkAction::Reconfigure);
    mgr.send_event_to(&mut tree, 2, Event::Activate);
    assert_eq!(mgr.pending_action(), TkAction::Close);
    mgr.send_action(TkAction::Redraw);
    assert_eq!(mgr.pop_action(), TkAction::Close);
}

#[test]
fn clipboard_passes_through_to_toolkit() {
    let mut state = ManagerState::new();
    let mut shell = Shell::new();
    let mut mgr = Manager::new(&mut state, &mut shell);
    assert_eq!(mgr.get_clipboard(), None);
    mgr.set_clipboard(String::from("text"));
    assert_eq!(mgr.get_clipboard(), Some(String::from("text")));
}
