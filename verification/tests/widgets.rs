#![allow(dead_code)]
#![allow(unused_imports)]

use kas::event::{
    ConfigureManager, CursorIcon, Direction, Event, GrabMode, Manager, ManagerState,
    ModifiersState, MouseButton, PanPoint, Pending, Popup, PressSource, Response, TimerEntry,
    VirtualKeyCode, Widget, WidgetId, WindowId,
};
use kas::geom::Coord;
use kas::toolkit::{TkAction, TkWindow};

/// A toolkit window that records what it is asked to do.
struct Shell {
    icons: Vec<CursorIcon>,
    closed: Vec<WindowId>,
    next_window: WindowId,
    refuse_popups: bool,
    clipboard: Option<String>,
}

impl Shell {
    fn new() -> Shell {
        Shell {
            icons: Vec::new(),
            closed: Vec::new(),
            next_window: 100,
            refuse_popups: false,
            clipboard: None,
        }
    }
}

impl TkWindow for Shell {
    fn add_popup(&mut self, _popup: Popup) -> Option<WindowId> {
        if self.refuse_popups {
            return None;
        }
        self.next_window += 1;
        Some(self.next_window)
    }

    fn close_window(&mut self, id: WindowId) {
        self.closed.push(id);
    }

    fn get_clipboard(&mut self) -> Option<String> {
        self.clipboard.clone()
    }

    fn set_clipboard(&mut self, content: String) {
        self.clipboard = Some(content);
    }

    fn set_cursor_icon(&mut self, icon: CursorIcon) {
        self.icons.push(icon);
    }
}

/// One widget of a test tree.
#[derive(Clone)]
struct Node {
    id: WidgetId,
    key_nav: bool,
    hover: bool,
    icon: CursorIcon,
    keys: Vec<VirtualKeyCode>,
    children: Vec<Node>,
}

impl Node {
    fn new(children: Vec<Node>) -> Node {
        Node {
            id: 0,
            key_nav: false,
            hover: false,
            icon: CursorIcon::Default,
            keys: Vec::new(),
            children,
        }
    }

    fn leaf() -> Node {
        Node::new(Vec::new())
    }

    fn nav(mut self) -> Node {
        self.key_nav = true;
        self
    }

    fn hover(mut self) -> Node {
        self.hover = true;
        self
    }

    fn icon(mut self, icon: CursorIcon) -> Node {
        self.icon = icon;
        self
    }

    fn key(mut self, key: VirtualKeyCode) -> Node {
        self.keys.push(key);
        self
    }

    fn configure<S: TkWindow>(&mut self, mut cmgr: ConfigureManager<S>) {
        self.id = cmgr.next_id(self.id);
        cmgr.set_props(self.id, self.key_nav, self.hover, self.icon);
        cmgr.mgr().add_accel_keys(self.id, &self.keys);
        for child in &mut self.children {
            child.configure(cmgr.child());
        }
    }
}

/// A widget tree that records every event and behaves as its fields say.
struct Tree {
    root: Node,
    log: Vec<(WidgetId, Event)>,
    /// Widgets that handle what they are sent; all others answer "unhandled"
    handles: Vec<WidgetId>,
    /// The grab that a widget asks for when it is pressed
    grab: Option<GrabMode>,
    /// The cursor icon that a widget asks for with its grab
    grab_icon: Option<CursorIcon>,
    /// Whether a grab that was asked for was given, in order
    grabbed: Vec<bool>,
    /// The widget that asks for character focus when it is activated
    char_focus_on_activate: Option<WidgetId>,
    /// The selection focus as read while an activation was handled
    seen_sel_focus: Vec<Option<WidgetId>>,
    /// The action that a widget asks for when it is activated
    action_on_activate: Option<TkAction>,
    /// The widget that `find_id` reports
    hit: Option<WidgetId>,
}

impl Tree {
    fn new(root: Node) -> Tree {
        Tree {
            root,
            log: Vec::new(),
            handles: Vec::new(),
            grab: None,
            grab_icon: None,
            grabbed: Vec::new(),
            char_focus_on_activate: None,
            seen_sel_focus: Vec::new(),
            action_on_activate: None,
            hit: None,
        }
    }

    /// A root with `count` children that can have navigation focus and are
    /// drawn differently under the pointer: the widgets 2 to `count + 1`.
    fn row(count: u32) -> Tree {
        Tree::new(Node::new((0..count).map(|_| Node::leaf().nav().hover()).collect()))
    }
}

impl Widget for Tree {
    fn send<S: TkWindow>(&mut self, mgr: &mut Manager<S>, id: WidgetId, event: Event) -> Response {
        self.log.push((id, event));
        match event {
            Event::PressStart { source, coord, .. } => {
                if let Some(mode) = self.grab {
                    let given = mgr.request_grab(id, source, coord, mode, self.grab_icon);
                    self.grabbed.push(given);
                }
            }
            Event::Activate => {
                if self.char_focus_on_activate == Some(id) {
                    mgr.request_char_focus(id);
                    self.seen_sel_focus.push(mgr.state_ref().sel_focus());
                }
                if let Some(action) = self.action_on_activate {
                    return Response::Action(action);
                }
            }
            _ => {}
        }
        if self.handles.contains(&id) {
            Response::Handled
        } else {
            Response::Unhandled
        }
    }

    fn configure<S: TkWindow>(&mut self, cmgr: ConfigureManager<S>) {
        self.root.configure(cmgr);
    }

    fn find_id(&self, _coord: Coord) -> Option<WidgetId> {
        self.hit
    }
}

fn mods(shift: bool, ctrl: bool, alt: bool) -> ModifiersState {
    ModifiersState { shift, ctrl, alt, logo: false }
}

use kas::widget::{ComboBox, TextButton};

#[test]
fn button_answers_activation_with_its_message() {
    let plain = TextButton::new("Plain");
    assert_eq!(plain.get_str(), "Plain");
    assert_eq!(plain.id(), 0);
    assert_eq!(plain.handle(Event::Activate), Response::Handled);
    assert_eq!(plain.handle(Event::NavFocus), Response::Unhandled);
    let button = TextButton::new_msg("Save", 7);
    assert_eq!(button.handle(Event::Activate), Response::Msg(7));
    assert_eq!(button.handle(Event::LostCharFocus), Response::Unhandled);
    let button = plain.on_push(9);
    assert_eq!(button.handle(Event::Activate), Response::Msg(9));
    assert_eq!(button.get_str(), "Plain");
}

#[test]
fn button_registers_its_accelerator_keys() {
    let mut state = ManagerState::new();
    let mut shell = Shell::new();
    let mut button = TextButton::new_msg("Save", 7)
        .with_keys(&[VirtualKeyCode::A])
        .with_keys(&[VirtualKeyCode::S, VirtualKeyCode::F2]);
    let mut mgr = Manager::new(&mut state, &mut shell);
    mgr.configure(&mut button);
    assert_eq!(button.id(), 1);
    let node = mgr.state_ref().tree().find(1).unwrap();
    assert!(node.key_nav && node.hover_highlight);
    mgr.handle_modifiers(mods(false, false, true));
    // the keys set last are the keys
    assert_eq!(mgr.state_ref().find_accel(1, VirtualKeyCode::A.code()), None);
    assert_eq!(mgr.state_ref().find_accel(1, VirtualKeyCode::S.code()), Some((0, 1)));
    assert_eq!(mgr.state_ref().find_accel(1, VirtualKeyCode::F2.code()), Some((0, 1)));
    mgr.handle_key_down(&mut button, VirtualKeyCode::S, 31);
    assert_eq!(mgr.state_ref().key_depress(31), Some(1));
    // an event for another widget is not the button's
    assert_eq!(button.send(&mut mgr, 2, Event::Activate), Response::Unhandled);
    assert_eq!(button.send(&mut mgr, 1, Event::Activate), Response::Msg(7));
}

#[test]
fn combobox_pops_up_and_selects() {
    let mut state = ManagerState::new();
    let mut shell = Shell::new();
    let mut combo = ComboBox::new("one", 10);
    assert_eq!(combo.push("two", 20), TkAction::Reconfigure);
    assert_eq!(combo.push("three", 30), TkAction::Reconfigure);
    assert_eq!(combo.text(), Some("one"));
    let mut mgr = Manager::new(&mut state, &mut shell);
    mgr.configure(&mut combo);
    // the combobox, its menu, and the three choices below the menu
    assert_eq!(combo.id(), 1);
    let tree = mgr.state_ref().tree();
    assert_eq!(tree.len(), 5);
    let parents: Vec<WidgetId> = (1..=5).map(|id| tree.find(id).unwrap().parent).collect();
    assert_eq!(parents, vec![0, 1, 2, 2, 2]);

    // activation shows the menu
    assert_eq!(combo.send(&mut mgr, 1, Event::Activate), Response::Handled);
    let window = combo.popup_id().unwrap();
    assert_eq!(
        mgr.state_ref().popups(),
        vec![(window, Popup { id: 2, parent: 1, direction: Direction::Down })]
    );
    // only an activation selects
    assert_eq!(combo.send(&mut mgr, 4, Event::NavFocus), Response::Unhandled);
    assert_eq!(combo.send(&mut mgr, 2, Event::Activate), Response::Unhandled);
    assert_eq!(combo.send(&mut mgr, 6, Event::Activate), Response::Unhandled);
    assert_eq!(combo.send(&mut mgr, 1, Event::NavFocus), Response::Unhandled);
    assert_eq!(combo.active(), 0);
    let _ = mgr.pop_action();
    let _ = mgr.take_pending();

    // the second choice is selected: the menu goes away
    assert_eq!(combo.send(&mut mgr, 4, Event::Activate), Response::Msg(20));
    assert_eq!(combo.active(), 1);
    assert_eq!(combo.text(), Some("two"));
    assert_eq!(combo.popup_id(), None);
    assert_eq!(mgr.state_ref().popups(), vec![]);
    assert_eq!(mgr.state_ref().pending(), vec![Pending::PopupRemoved(1, window)]);
    assert_eq!(mgr.pop_action(), TkAction::Redraw);

    // a second activation of the combobox closes an open menu
    assert_eq!(combo.send(&mut mgr, 1, Event::Activate), Response::Handled);
    let window = combo.popup_id().unwrap();
    assert_eq!(combo.send(&mut mgr, 1, Event::Activate), Response::Handled);
    assert_eq!(combo.popup_id(), None);
    assert_eq!(mgr.state_ref().popups(), vec![]);
    // a selection without an open menu only selects
    assert_eq!(combo.send(&mut mgr, 5, Event::Activate), Response::Msg(30));
    assert_eq!(combo.active(), 2);
    drop(mgr);
    assert_eq!(shell.closed.last(), Some(&window));
}

#[test]
fn combobox_without_popup_support_stays_closed() {
    let mut state = ManagerState::new();
    let mut shell = Shell::new();
    shell.refuse_popups = true;
    let mut combo = ComboBox::new("one", 10);
    let mut mgr = Manager::new(&mut state, &mut shell);
    mgr.configure(&mut combo);
    assert_eq!(combo.send(&mut mgr, 1, Event::Activate), Response::Handled);
    assert_eq!(combo.popup_id(), None);
    assert_eq!(mgr.state_ref().popups(), vec![]);
}

#[test]
fn message_of_a_widget_is_no_action() {
    let mut state = ManagerState::new();
    let mut shell = Shell::new();
    let mut button = TextButton::new_msg("Save", 7);
    let mut mgr = Manager::new(&mut state, &mut shell);
    mgr.configure(&mut button);
    let _ = mgr.pop_action();
    mgr.send_event_to(&mut button, 1, Event::Activate);
    mgr.fold_response(Response::Msg(3));
    mgr.fold_response(Response::Handled);
    mgr.fold_response(Response::Unhandled);
    assert_eq!(mgr.pop_action(), TkAction::Nothing);
    mgr.fold_response(Response::Action(TkAction::Reconfigure));
    assert_eq!(mgr.pop_action(), TkAction::Reconfigure);
}

#[test]
fn menu_entry_answers_with_its_message() {
    use_menu_entry();
}

fn use_menu_entry() {
    let mut state = ManagerState::new();
    let mut shell = Shell::new();
    let mut entry = kas::widget::MenuEntry::new("Open", 4);
    assert_eq!(entry.get_text(), "Open");
    let mut mgr = Manager::new(&mut state, &mut shell);
    mgr.configure(&mut entry);
    assert_eq!(entry.send(&mut mgr, 1, Event::Activate), Response::Msg(4));
    assert_eq!(entry.send(&mut mgr, 1, Event::NavFocus), Response::Unhandled);
    assert_eq!(entry.send(&mut mgr, 2, Event::Activate), Response::Unhandled);
    entry.set_msg(5);
    assert_eq!(entry.handle(Event::Activate), Response::Msg(5));
    assert_eq!(entry.set_text("Close"), TkAction::Redraw);
    assert_eq!(entry.get_text(), "Close");
}

#[test]
fn menu_toggle_changes_state_and_reports_it() {
    let mut state = ManagerState::new();
    let mut shell = Shell::new();
    let mut toggle = kas::widget::MenuToggle::new("Wrap").state(true);
    assert!(toggle.get_bool());
    let mut mgr = Manager::new(&mut state, &mut shell);
    mgr.configure(&mut toggle);
    let _ = mgr.pop_action();
    // the entry is 1, its check box 2
    assert_eq!(mgr.state_ref().tree().find(2).unwrap().parent, 1);
    assert_eq!(toggle.send(&mut mgr, 2, Event::Activate), Response::Msg(0));
    assert!(!toggle.get_bool());
    assert_eq!(mgr.pop_action(), TkAction::Redraw);
    assert_eq!(toggle.send(&mut mgr, 1, Event::Activate), Response::Msg(1));
    assert!(toggle.get_bool());
    assert_eq!(toggle.send(&mut mgr, 3, Event::Activate), Response::Unhandled);
    assert_eq!(toggle.send(&mut mgr, 2, Event::NavFocus), Response::Unhandled);
    assert!(toggle.get_bool());
    assert_eq!(toggle.set_bool(true), TkAction::Nothing);
    assert_eq!(toggle.set_bool(false), TkAction::Redraw);
    assert!(!toggle.get_bool());
}

#[test]
fn press_on_a_toggle_is_a_press_on_its_box() {
    let mut state = ManagerState::new();
    let mut shell = Shell::new();
    let mut toggle = kas::widget::MenuToggle::new("Wrap");
    toggle.set_rect(kas::geom::Rect { pos: Coord(10, -5), size: kas::geom::Size(20, 10) });
    let mut mgr = Manager::new(&mut state, &mut shell);
    mgr.configure(&mut toggle);
    assert_eq!(toggle.find_id(Coord(10, -5)), Some(2));
    assert_eq!(toggle.find_id(Coord(29, 4)), Some(2));
    assert_eq!(toggle.find_id(Coord(30, 4)), None);
    assert_eq!(toggle.find_id(Coord(29, 5)), None);
    assert_eq!(toggle.find_id(Coord(9, 0)), None);
    assert_eq!(toggle.find_id(Coord(15, -6)), None);
    mgr.handle_cursor_moved(&mut toggle, Coord(15, 0));
    assert_eq!(mgr.state_ref().hover(), Some(2));
    mgr.handle_cursor_moved(&mut toggle, Coord(0, 0));
    assert_eq!(mgr.state_ref().hover(), None);
}

#[test]
fn rectangle_holds_its_least_corner_only() {
    let rect = kas::geom::Rect {
        pos: Coord(i32::MAX - 1, i32::MIN),
        size: kas::geom::Size(u32::MAX, 1),
    };
    assert!(rect.contains(Coord(i32::MAX, i32::MIN)));
    assert!(rect.contains(Coord(i32::MAX - 1, i32::MIN)));
    assert!(!rect.contains(Coord(i32::MAX - 2, i32::MIN)));
    assert!(!rect.contains(Coord(i32::MAX, i32::MIN + 1)));
    let empty = kas::geom::Rect { pos: Coord(0, 0), size: kas::geom::Size(0, 5) };
    assert!(!empty.contains(Coord(0, 0)));
}

#[test]
fn combobox_on_a_headless_window() {
    let mut state = ManagerState::new();
    let mut window = kas::toolkit::Headless::new();
    let mut combo = ComboBox::new("one", 10);
    let _ = combo.push("two", 20);
    {
        let mut mgr = Manager::new(&mut state, &mut window);
        mgr.configure(&mut combo);
        let id = combo.id();
        // the menu pops up with the first handle, and goes away again
        assert_eq!(combo.send(&mut mgr, id, Event::Activate), Response::Handled);
        assert_eq!(combo.popup_id(), Some(1));
        assert_eq!(mgr.state_ref().popups().len(), 1);
        assert_eq!(combo.send(&mut mgr, id, Event::Activate), Response::Handled);
        assert_eq!(combo.popup_id(), None);
        // it pops up once more, with the next handle; a selection closes it
        assert_eq!(combo.send(&mut mgr, id, Event::Activate), Response::Handled);
        assert_eq!(combo.popup_id(), Some(2));
        assert_eq!(combo.send(&mut mgr, id + 3, Event::Activate), Response::Msg(20));
        assert_eq!(combo.popup_id(), None);
        let _ = mgr.pop_action();
    }
    assert_eq!(window.closed(), &vec![1, 2]);
}
