use paneterm::block::BlockState;
use paneterm::console::{Command, Console};
use paneterm::keys::{KeyCode, KeyEvent, KeyEventKind};
use paneterm::layout::{Layout, LayoutAction, Region};

fn press(layout: &mut Layout, code: KeyCode, console: &mut Console) -> LayoutAction {
    layout.handle_key(&KeyEvent::press(code), console)
}

fn states(l: &Layout) -> [BlockState; 4] {
    [l.list_cont.state(), l.input_cont.state(), l.req_cont.state(), l.hint_cont.state()]
}

#[test]
fn starts_navigating_on_the_list() {
    let l = Layout::new(100, 30);
    assert!(l.select_mode);
    assert_eq!(l.focused(), Region::List);
    assert_eq!(
        states(&l),
        [BlockState::Selected, BlockState::Inactive, BlockState::Inactive, BlockState::Inactive]
    );
    assert_eq!(l.list_cont.width(), 38);
    assert_eq!(l.input_cont.width(), 56);
    assert_eq!(l.req_cont.height(), 22);
}

#[test]
fn right_enter_escape_escape() {
    let mut c = Console::new();
    let mut l = Layout::new(100, 30);
    assert_eq!(press(&mut l, KeyCode::Right, &mut c), LayoutAction::Consumed);
    assert_eq!(l.focused(), Region::Input);
    assert!(l.input_cont.is_selected());
    assert_eq!(press(&mut l, KeyCode::Enter, &mut c), LayoutAction::Consumed);
    assert!(!l.select_mode);
    assert!(l.input_cont.is_active());
    assert_eq!(press(&mut l, KeyCode::Esc, &mut c), LayoutAction::Consumed);
    assert!(l.select_mode);
    assert!(l.input_cont.is_selected());
    assert_eq!(
        states(&l),
        [BlockState::Inactive, BlockState::Selected, BlockState::Inactive, BlockState::Inactive]
    );
    assert_eq!(press(&mut l, KeyCode::Esc, &mut c), LayoutAction::Exit);
    assert!(l.select_mode);
}

#[test]
fn enter_then_escape_returns_to_the_same_pane() {
    let mut c = Console::new();
    let mut l = Layout::new(80, 24);
    press(&mut l, KeyCode::Enter, &mut c);
    assert!(l.list_cont.is_active());
    assert_eq!(press(&mut l, KeyCode::Esc, &mut c), LayoutAction::Consumed);
    assert!(l.list_cont.is_selected());
    assert!(l.select_mode);
}

#[test]
fn arrows_follow_the_adjacency() {
    let mut c = Console::new();
    let mut l = Layout::new(80, 24);
    press(&mut l, KeyCode::Up, &mut c);
    press(&mut l, KeyCode::Left, &mut c);
    assert_eq!(l.focused(), Region::List);
    press(&mut l, KeyCode::Right, &mut c);
    assert_eq!(l.focused(), Region::Input);
    press(&mut l, KeyCode::Right, &mut c);
    assert_eq!(l.focused(), Region::Input);
    press(&mut l, KeyCode::Down, &mut c);
    assert_eq!(l.focused(), Region::Request);
    press(&mut l, KeyCode::Down, &mut c);
    assert_eq!(l.focused(), Region::Request);
    press(&mut l, KeyCode::Up, &mut c);
    assert_eq!(l.focused(), Region::Input);
    press(&mut l, KeyCode::Down, &mut c);
    press(&mut l, KeyCode::Left, &mut c);
    assert_eq!(l.focused(), Region::List);
    let selected = states(&l).iter().filter(|s| **s == BlockState::Selected).count();
    assert_eq!(selected, 1);
}

#[test]
fn interaction_forwards_keys_to_the_active_pane() {
    let mut c = Console::new();
    let mut l = Layout::new(80, 24);
    press(&mut l, KeyCode::Right, &mut c);
    press(&mut l, KeyCode::Down, &mut c);
    press(&mut l, KeyCode::Enter, &mut c);
    assert!(l.req_cont.is_active());
    for code in [KeyCode::Up, KeyCode::Left, KeyCode::Enter, KeyCode::Char('q')] {
        assert_eq!(press(&mut l, code, &mut c), LayoutAction::Forward(Region::Request));
    }
    assert!(l.req_cont.is_active());
    assert!(!l.select_mode);
}

#[test]
fn navigation_leaves_other_keys_to_the_loop() {
    let mut c = Console::new();
    let mut l = Layout::new(80, 24);
    c.take_commands();
    assert_eq!(press(&mut l, KeyCode::Char('s'), &mut c), LayoutAction::Unhandled);
    assert!(c.take_commands().is_empty());
    assert!(l.list_cont.is_selected());
}

#[test]
fn releases_change_nothing() {
    let mut c = Console::new();
    let mut l = Layout::new(80, 24);
    let release = KeyEvent { code: KeyCode::Right, shift: false, kind: KeyEventKind::Release };
    assert_eq!(l.handle_key(&release, &mut c), LayoutAction::Consumed);
    assert_eq!(l.focused(), Region::List);
    assert!(c.take_commands().is_empty());
}

#[test]
fn focus_changes_redraw_both_borders() {
    let mut c = Console::new();
    let mut l = Layout::new(80, 24);
    press(&mut l, KeyCode::Right, &mut c);
    let cmds = c.take_commands();
    let corners = cmds.iter().filter(|x| **x == Command::Print("┌".to_string())).count();
    assert_eq!(corners, 2);
    assert_eq!(cmds.last(), Some(&Command::HideCursor));
    press(&mut l, KeyCode::Enter, &mut c);
    assert_eq!(c.take_commands().last(), Some(&Command::ShowCursor));
}

#[test]
fn render_draws_four_borders() {
    let mut c = Console::new();
    let mut l = Layout::new(80, 24);
    l.render(&mut c);
    let cmds = c.take_commands();
    let corners = cmds.iter().filter(|x| **x == Command::Print("┘".to_string())).count();
    assert_eq!(corners, 4);
}

#[test]
fn enter_select_mode_turns_active_into_selected() {
    let mut c = Console::new();
    let mut l = Layout::new(80, 24);
    l.navigate(&KeyEvent::press(KeyCode::Enter), &mut c);
    assert!(l.list_cont.is_active());
    l.enter_select_mode();
    assert!(l.select_mode);
    assert!(l.list_cont.is_selected());
}
