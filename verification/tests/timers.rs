#![allow(dead_code)]
#![allow(unused_imports)]

use kas::event::{
    ConfigureManager, CursorIcon, Direction, Event, GrabMode, Manager, ManagerState,
    ModifiersState, MouseButton, PanPoint, Pending, Popup, PressSource, Response, TimerEntry,
    VirtualKeyCode, Widget, WidgetId, WindowId,
};
use kas::geom::Coord;
use kas::toolkit::{TkAction, TkWindow};

/// A toolkit window that records what it is asked to do.
struct Shell {
    icons: Vec<CursorIcon>,
    closed: Vec<WindowId>,
    next_window: WindowId,
    refuse_popups: bool,
    clipboard: Option<String>,
}

impl Shell {
    fn new() -> Shell {
        Shell {
            icons: Vec::new(),
            closed: Vec::new(),
            next_window: 100,
            refuse_popups: false,
            clipboard: None,
        }
    }
}

impl TkWindow for Shell {
    fn add_popup(&mut self, _popup: Popup) -> Option<WindowId> {
        if self.refuse_popups {
            return None;
        }
        self.next_window += 1;
        Some(self.next_window)
    }

    fn close_window(&mut self, id: WindowId) {
        self.closed.push(id);
    }

    fn get_clipboard(&mut self) -> Option<String> {
        self.clipboard.clone()
    }

    fn set_clipboard(&mut self, content: String) {
        self.clipboard = Some(content);
    }

    fn set_cursor_icon(&mut self, icon: CursorIcon) {
        self.icons.push(icon);
    }
}

/// One widget of a test tree.
#[derive(Clone)]
struct Node {
    id: WidgetId,
    key_nav: bool,
    hover: bool,
    icon: CursorIcon,
    keys: Vec<VirtualKeyCode>,
    children: Vec<Node>,
}

impl Node {
    fn new(children: Vec<Node>) -> Node {
        Node {
            id: 0,
            key_nav: false,
            hover: false,
            icon: CursorIcon::Default,
            keys: Vec::new(),
            children,
        }
    }

    fn leaf() -> Node {
        Node::new(Vec::new())
    }

    fn nav(mut self) -> Node {
        self.key_nav = true;
        self
    }

    fn hover(mut self) -> Node {
        self.hover = true;
        self
    }

    fn icon(mut self, icon: CursorIcon) -> Node {
        self.icon = icon;
        self
    }

    fn key(mut self, key: VirtualKeyCode) -> Node {
        self.keys.push(key);
        self
    }

    fn configure<S: TkWindow>(&mut self, mut cmgr: ConfigureManager<S>) {
        self.id = cmgr.next_id(self.id);
        cmgr.set_props(self.id, self.key_nav, self.hover, self.icon);
        cmgr.mgr().add_accel_keys(self.id, &self.keys);
        for child in &mut self.children {
            child.configure(cmgr.child());
        }
    }
}

/// A widget tree that records every event and behaves as its fields say.
struct Tree {
    root: Node,
    log: Vec<(WidgetId, Event)>,
    /// Widgets that handle what they are sent; all others answer "unhandled"
    handles: Vec<WidgetId>,
    /// The grab that a widget asks for when it is pressed
    grab: Option<GrabMode>,
    /// The cursor icon that a widget asks for with its grab
    grab_icon: Option<CursorIcon>,
    /// Whether a grab that was asked for was given, in order
    grabbed: Vec<bool>,
    /// The widget that asks for character focus when it is activated
    char_focus_on_activate: Option<WidgetId>,
    /// The selection focus as read while an activation was handled
    seen_sel_focus: Vec<Option<WidgetId>>,
    /// The action that a widget asks for when it is activated
    action_on_activate: Option<TkAction>,
    /// The widget that `find_id` reports
    hit: Option<WidgetId>,
}

impl Tree {
    fn new(root: Node) -> Tree {
        Tree {
            root,
            log: Vec::new(),
            handles: Vec::new(),
            grab: None,
            grab_icon: None,
            grabbed: Vec::new(),
            char_focus_on_activate: None,
            seen_sel_focus: Vec::new(),
            action_on_activate: None,
            hit: None,
        }
    }

    /// A root with `count` children that can have navigation focus and are
    /// drawn differently under the pointer: the widgets 2 to `count + 1`.
    fn row(count: u32) -> Tree {
        Tree::new(Node::new((0..count).map(|_| Node::leaf().nav().hover()).collect()))
    }
}

impl Widget for Tree {
    fn send<S: TkWindow>(&mut self, mgr: &mut Manager<S>, id: WidgetId, event: Event) -> Response {
        self.log.push((id, event));
        match event {
            Event::PressStart { source, coord, .. } => {
                if let Some(mode) = self.grab {
                    let given = mgr.request_grab(id, source, coord, mode, self.grab_icon);
                    self.grabbed.push(given);
                }
            }
            Event::Activate => {
                if self.char_focus_on_activate == Some(id) {
                    mgr.request_char_focus(id);
                    self.seen_sel_focus.push(mgr.state_ref().sel_focus());
                }
                if let Some(action) = self.action_on_activate {
                    return Response::Action(action);
                }
            }
            _ => {}
        }
        if self.handles.contains(&id) {
            Response::Handled
        } else {
            Response::Unhandled
        }
    }

    fn configure<S: TkWindow>(&mut self, cmgr: ConfigureManager<S>) {
        self.root.configure(cmgr);
    }

    fn find_id(&self, _coord: Coord) -> Option<WidgetId> {
        self.hit
    }
}

fn mods(shift: bool, ctrl: bool, alt: bool) -> ModifiersState {
    ModifiersState { shift, ctrl, alt, logo: false }
}

use kas::event::manager::mgr_shell::advance_timer;

#[test]
fn next_resume_is_the_earliest_timer() {
    let mut state = ManagerState::new();
    let mut shell = Shell::new();
    let mut mgr = Manager::new(&mut state, &mut shell);
    assert_eq!(mgr.next_resume(), None);
    mgr.update_on_timer(50, 2, None);
    mgr.update_on_timer(20, 3, Some(5));
    mgr.update_on_timer(30, 4, None);
    assert_eq!(mgr.next_resume(), Some(20));
    assert_eq!(mgr.state_ref().next_resume(), Some(20));
}

#[test]
fn one_shot_timer_fires_once() {
    let mut state = ManagerState::new();
    let mut shell = Shell::new();
    let mut tree = Tree::row(3);
    let mut mgr = Manager::new(&mut state, &mut shell);
    mgr.configure(&mut tree);
    mgr.update_on_timer(10, 3, None);
    mgr.update_timer(&mut tree, 9);
    assert_eq!(tree.log, vec![]);
    assert_eq!(mgr.next_resume(), Some(10));
    mgr.update_timer(&mut tree, 10);
    assert_eq!(tree.log, vec![(3, Event::TimerUpdate)]);
    assert_eq!(mgr.state_ref().time_updates(), vec![]);
    assert_eq!(mgr.next_resume(), None);
    mgr.update_timer(&mut tree, 100);
    assert_eq!(tree.log.len(), 1);
}

#[test]
fn periodic_timer_is_due_again_in_the_future() {
    let mut state = ManagerState::new();
    let mut shell = Shell::new();
    let mut tree = Tree::row(3);
    let mut mgr = Manager::new(&mut state, &mut shell);
    mgr.configure(&mut tree);
    mgr.update_on_timer(10, 3, Some(7));
    // 10, 17, 24, 31: the first instant behind 30
    mgr.update_timer(&mut tree, 30);
    assert_eq!(tree.log, vec![(3, Event::TimerUpdate)]);
    assert_eq!(
        mgr.state_ref().time_updates(),
        vec![TimerEntry { due: 31, id: 3, interval: Some(7) }]
    );
    // due exactly now: the next instant is one interval on
    mgr.update_timer(&mut tree, 31);
    assert_eq!(mgr.next_resume(), Some(38));
    assert_eq!(tree.log.len(), 2);
}

#[test]
fn due_timers_fire_in_scheduling_order() {
    let mut state = ManagerState::new();
    let mut shell = Shell::new();
    let mut tree = Tree::row(4);
    let mut mgr = Manager::new(&mut state, &mut shell);
    mgr.configure(&mut tree);
    mgr.update_on_timer(30, 4, None);
    mgr.update_on_timer(10, 2, None);
    mgr.update_on_timer(40, 5, None);
    mgr.update_on_timer(20, 3, Some(100));
    assert_eq!(mgr.take_due(5), vec![]);
    let due = mgr.take_due(30);
    assert_eq!(due, vec![4, 2, 3]);
    assert_eq!(
        mgr.state_ref().time_updates(),
        vec![
            TimerEntry { due: 40, id: 5, interval: None },
            TimerEntry { due: 120, id: 3, interval: Some(100) },
        ]
    );
}

#[test]
fn periodic_timer_past_the_last_instant_is_dropped() {
    let mut state = ManagerState::new();
    let mut shell = Shell::new();
    let mut mgr = Manager::new(&mut state, &mut shell);
    mgr.update_on_timer(u64::MAX - 3, 2, Some(10));
    mgr.update_on_timer(u64::MAX - 3, 3, Some(3));
    assert_eq!(mgr.take_due(u64::MAX - 1), vec![2, 3]);
    assert_eq!(
        mgr.state_ref().time_updates(),
        vec![TimerEntry { due: u64::MAX, id: 3, interval: Some(3) }]
    );
    assert_eq!(mgr.take_due(u64::MAX), vec![3]);
    assert_eq!(mgr.state_ref().time_updates(), vec![]);
}

#[test]
fn zero_interval_does_not_repeat() {
    let mut state = ManagerState::new();
    let mut shell = Shell::new();
    let mut mgr = Manager::new(&mut state, &mut shell);
    mgr.update_on_timer(10, 2, Some(0));
    assert_eq!(
        mgr.state_ref().time_updates(),
        vec![TimerEntry { due: 10, id: 2, interval: None }]
    );
    assert_eq!(mgr.take_due(10), vec![2]);
    assert_eq!(mgr.state_ref().time_updates(), vec![]);
}

#[test]
fn advance_timer_finds_first_instant_behind_now() {
    assert_eq!(advance_timer(10, 7, 30), Some(31));
    assert_eq!(advance_timer(10, 7, 10), Some(17));
    assert_eq!(advance_timer(10, 7, 16), Some(17));
    assert_eq!(advance_timer(10, 7, 17), Some(24));
    assert_eq!(advance_timer(0, 1, u64::MAX - 1), Some(u64::MAX));
    assert_eq!(advance_timer(0, 1, u64::MAX), None);
    assert_eq!(advance_timer(5, u64::MAX, 5), None);
    assert_eq!(advance_timer(0, u64::MAX, 5), Some(u64::MAX));
}

#[test]
fn update_handle_tells_each_waiting_widget_once() {
    let mut state = ManagerState::new();
    let mut shell = Shell::new();
    let mut tree = Tree::row(4);
    let mut mgr = Manager::new(&mut state, &mut shell);
    mgr.configure(&mut tree);
    mgr.update_on_handle(7, 2);
    mgr.update_on_handle(7, 3);
    mgr.update_on_handle(7, 2);
    mgr.update_on_handle(8, 4);

    mgr.update_handle(&mut tree, 7, 99);
    let mut told: Vec<WidgetId> = tree.log.iter().map(|(id, _)| *id).collect();
    told.sort();
    assert_eq!(told, vec![2, 3]);
    for (_, event) in &tree.log {
        assert_eq!(*event, Event::HandleUpdate { handle: 7, payload: 99 });
    }
    // the registrations are used up
    tree.log.clear();
    mgr.update_handle(&mut tree, 7, 100);
    assert_eq!(tree.log, vec![]);
    // those on another handle are not
    assert_eq!(mgr.take_handle(8), vec![4]);
    assert_eq!(mgr.take_handle(8), vec![]);
    assert_eq!(mgr.take_handle(9), vec![]);
}

#[test]
fn configuring_again_forgets_timers_and_handles() {
    let mut state = ManagerState::new();
    let mut shell = Shell::new();
    let mut tree = Tree::row(4);
    let mut mgr = Manager::new(&mut state, &mut shell);
    mgr.configure(&mut tree);
    mgr.update_on_timer(10, 2, None);
    mgr.update_on_handle(7, 2);
    mgr.request_char_focus(2);
    mgr.request_char_focus(3);
    assert_eq!(mgr.state_ref().pending().len(), 2);
    mgr.configure(&mut tree);
    assert_eq!(mgr.next_resume(), None);
    assert_eq!(mgr.take_handle(7), vec![]);
    assert_eq!(mgr.state_ref().pending(), vec![]);
}

#[test]
fn events_are_delivered_in_turn() {
    let mut state = ManagerState::new();
    let mut shell = Shell::new();
    let mut tree = Tree::row(3);
    let mut mgr = Manager::new(&mut state, &mut shell);
    mgr.configure(&mut tree);
    let events = vec![(3, Event::Activate), (2, Event::NavFocus), (3, Event::LostSelFocus)];
    mgr.send_each(&mut tree, &events);
    assert_eq!(tree.log, events);
    mgr.send_each(&mut tree, &Vec::new());
    assert_eq!(tree.log.len(), 3);
}

#[test]
fn one_event_for_each_widget() {
    assert_eq!(
        kas::event::manager::mgr_shell::events_for(&vec![4, 2, 4], Event::TimerUpdate),
        vec![(4, Event::TimerUpdate), (2, Event::TimerUpdate), (4, Event::TimerUpdate)]
    );
    assert_eq!(kas::event::manager::mgr_shell::events_for(&Vec::new(), Event::Activate), vec![]);
}

#[test]
fn notifications_keep_their_order() {
    let pending = vec![
        Pending::NewPopup(5),
        Pending::LostCharFocus(2),
        Pending::PopupRemoved(3, 101),
        Pending::LostSelFocus(2),
    ];
    assert_eq!(
        kas::event::manager::mgr_shell::notifications_of(&pending),
        vec![
            (5, Event::NewPopup(5)),
            (2, Event::LostCharFocus),
            (3, Event::PopupRemoved(101)),
            (2, Event::LostSelFocus),
        ]
    );
}

#[test]
fn pan_movement_is_reported_before_notifications() {
    let mut state = ManagerState::new();
    let mut shell = Shell::new();
    let mut tree = Tree::row(3);
    let mut mgr = Manager::new(&mut state, &mut shell);
    mgr.configure(&mut tree);
    assert!(mgr.request_grab(
        2,
        PressSource::Mouse(MouseButton::Left, 1),
        Coord(10, 10),
        GrabMode::PanFull,
        None
    ));
    let _ = mgr.cursor_moved(Coord(13, 14), None);
    let window = mgr.add_popup(Popup { id: 3, parent: 2, direction: Direction::Down });
    assert!(window.is_some());
    tree.log.clear();
    mgr.update(&mut tree);
    assert_eq!(tree.log.len(), 2);
    assert_eq!(tree.log[0].0, 2);
    assert!(matches!(tree.log[0].1, Event::Pan { .. }));
    assert_eq!(tree.log[1], (3, Event::NewPopup(3)));
    // nothing waits any more
    mgr.update(&mut tree);
    assert_eq!(tree.log.len(), 2);
}
