use paneterm::block::Block;
use paneterm::console::{Color, Command, Console};
use paneterm::editor::{draw_line, Editor, StyledText};
use paneterm::keys::{KeyCode, KeyEvent, KeyEventKind};

fn keys(e: &mut Editor, codes: &[KeyCode]) {
    for c in codes {
        e.on_event(&KeyEvent::press(*c));
    }
}

fn typed(e: &mut Editor, text: &str) {
    for c in text.chars() {
        e.on_event(&KeyEvent::press(KeyCode::Char(c)));
    }
}

fn raw_text(cmds: &[Command]) -> String {
    let bytes: Vec<u8> = cmds
        .iter()
        .filter_map(|c| match c {
            Command::Raw(b) => Some(b.clone()),
            _ => None,
        })
        .flatten()
        .collect();
    String::from_utf8(bytes).unwrap()
}

#[test]
fn body_round_trips() {
    let mut e = Editor::new();
    for text in ["", "a", "{\n  \"k\": 1\n}", "x\n", "\n\n"] {
        e.set_val(text);
        assert_eq!(e.get_body(), text);
    }
}

#[test]
fn typing_into_an_empty_editor() {
    let mut e = Editor::new();
    typed(&mut e, "hi");
    assert_eq!(e.get_body(), "hi");
    assert!(e.needs_re_render());
}

#[test]
fn enter_splits_and_backspace_joins() {
    let mut e = Editor::new();
    e.set_val("abcd");
    keys(&mut e, &[KeyCode::Right, KeyCode::Right, KeyCode::Enter]);
    assert_eq!(e.get_body(), "ab\ncd");
    typed(&mut e, "X");
    assert_eq!(e.get_body(), "ab\nXcd");
    keys(&mut e, &[KeyCode::Backspace, KeyCode::Backspace]);
    assert_eq!(e.get_body(), "abcd");
    keys(&mut e, &[KeyCode::Delete]);
    assert_eq!(e.get_body(), "acd");
}

#[test]
fn enter_at_line_start_and_end() {
    let mut e = Editor::new();
    e.set_val("ab");
    keys(&mut e, &[KeyCode::Enter]);
    assert_eq!(e.get_body(), "\nab");
    keys(&mut e, &[KeyCode::Right, KeyCode::Right, KeyCode::Enter]);
    assert_eq!(e.get_body(), "\nab\n");
    typed(&mut e, "z");
    assert_eq!(e.get_body(), "\nab\nz");
}

#[test]
fn moves_stay_inside_the_text() {
    let mut e = Editor::new();
    e.set_val("abc\nd");
    keys(&mut e, &[KeyCode::Up, KeyCode::Left, KeyCode::Right, KeyCode::Right, KeyCode::Right]);
    keys(&mut e, &[KeyCode::Right, KeyCode::Down, KeyCode::Down]);
    typed(&mut e, "!");
    assert_eq!(e.get_body(), "abc\nd!");
    let release = KeyEvent { code: KeyCode::Char('q'), shift: false, kind: KeyEventKind::Release };
    e.on_event(&release);
    assert_eq!(e.get_body(), "abc\nd!");
}

#[test]
fn output_draws_changed_lines_then_cursor() {
    let mut e = Editor::new();
    e.set_val("{\"a\": 1}\n[]");
    let mut target = Block::new(0, 0, 20, 6, true);
    let mut console = Console::new();
    e.output(&mut console, &mut target);
    let cmds = console.take_commands();
    assert_eq!(raw_text(&cmds), "{\"a\": 1}[]");
    assert!(cmds.iter().any(|c| matches!(c, Command::SetForeground(Color::Rgb { .. }))));
    assert_eq!(cmds.last(), Some(&Command::MoveTo(1, 1)));
    assert!(!e.needs_re_render());
    e.output(&mut console, &mut target);
    assert!(console.take_commands().is_empty());

    keys(&mut e, &[KeyCode::Down, KeyCode::Right]);
    e.output(&mut console, &mut target);
    let cmds = console.take_commands();
    assert_eq!(raw_text(&cmds), "");
    assert_eq!(cmds.last(), Some(&Command::MoveTo(2, 2)));
    assert_eq!(target.cursor(), (2, 2));
}

#[test]
fn draw_line_writes_pieces_in_their_colors() {
    let mut target = Block::new(0, 0, 10, 3, false);
    let mut console = Console::new();
    let pieces = vec![
        StyledText { fg: Color::Green, bg: Color::Black, text: "ab".to_string() },
        StyledText { fg: Color::White, bg: Color::Reset, text: "c".to_string() },
    ];
    draw_line(&mut console, &mut target, 1, &pieces);
    let cmds = console.take_commands();
    assert_eq!(cmds[0], Command::MoveTo(0, 1));
    assert_eq!(cmds[1], Command::Print(" ".repeat(10)));
    assert!(cmds.contains(&Command::SetForeground(Color::Green)));
    assert_eq!(raw_text(&cmds), "abc");
    assert_eq!(target.cursor(), (0, 2));
}
