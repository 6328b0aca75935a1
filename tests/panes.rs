use std::sync::mpsc;

use paneterm::block::Block;
use paneterm::console::{Command, Console};
use paneterm::editor::Editor;
use paneterm::element::Element;
use paneterm::input::Input;
use paneterm::keys::{KeyCode, KeyEvent, KeyEventKind};
use paneterm::list::List;
use paneterm::model::{Model, Request};
use paneterm::shortcuts::ShortcutsView;
use paneterm::tty::{char_bytes, PtyView};

fn raw_bytes(cmds: &[Command]) -> Vec<u8> {
    cmds.iter()
        .filter_map(|c| match c {
            Command::Raw(b) => Some(b.clone()),
            _ => None,
        })
        .flatten()
        .collect()
}

fn request(method: &str, title: &str) -> Request {
    Request {
        method: method.to_string(),
        title: title.to_string(),
        url: format!("http://example.com/{}", title),
        body: "{}".to_string(),
        query_params: vec!["q".to_string()],
    }
}

#[test]
fn pty_output_is_shown_in_order_and_never_waits() {
    let (tx, rx) = mpsc::channel::<Vec<u8>>();
    let mut pane = PtyView::new(rx);
    let mut target = Block::new(0, 0, 20, 5, false);
    let mut console = Console::new();

    let keys = [KeyCode::Char('l'), KeyCode::Char('s'), KeyCode::Enter];
    let mut sent = Vec::new();
    for k in keys {
        sent.extend(pane.on_event(&KeyEvent::press(k)));
    }
    assert_eq!(sent, b"ls\r".to_vec());

    tx.send(b"ls".to_vec()).unwrap();
    tx.send(b"\r\n".to_vec()).unwrap();
    tx.send(b"a.txt".to_vec()).unwrap();
    for _ in 0..3 {
        pane.output(&mut console, &mut target);
    }
    assert_eq!(raw_bytes(&console.take_commands()), b"lsa.txt".to_vec());
    assert_eq!(target.cursor(), (5, 1));

    pane.output(&mut console, &mut target);
    assert!(console.take_commands().is_empty());
    assert_eq!(target.cursor(), (5, 1));
    assert!(pane.needs_re_render());
}

#[test]
fn pty_shows_one_chunk_per_tick() {
    let (tx, rx) = mpsc::channel::<Vec<u8>>();
    let mut pane = PtyView::new(rx);
    let mut target = Block::new(0, 0, 20, 5, false);
    let mut console = Console::new();
    tx.send(b"one".to_vec()).unwrap();
    tx.send(b"two".to_vec()).unwrap();
    pane.output(&mut console, &mut target);
    assert_eq!(raw_bytes(&console.take_commands()), b"one".to_vec());
    pane.output(&mut console, &mut target);
    assert_eq!(raw_bytes(&console.take_commands()), b"two".to_vec());
}

#[test]
fn pty_after_the_child_is_gone_draws_nothing() {
    let (tx, rx) = mpsc::channel::<Vec<u8>>();
    drop(tx);
    let mut pane = PtyView::new(rx);
    let mut target = Block::new(0, 0, 20, 5, false);
    let mut console = Console::new();
    pane.output(&mut console, &mut target);
    assert!(console.take_commands().is_empty());
}

#[test]
fn key_translation_table() {
    let (_tx, rx) = mpsc::channel::<Vec<u8>>();
    let pane = PtyView::new(rx);
    let bytes = |code: KeyCode| pane.on_event(&KeyEvent::press(code));
    assert_eq!(bytes(KeyCode::Esc), vec![0x1B]);
    assert_eq!(bytes(KeyCode::Enter), vec![0x0D]);
    assert_eq!(bytes(KeyCode::Backspace), vec![0x7F]);
    assert_eq!(bytes(KeyCode::Up), b"\x1b[A".to_vec());
    assert_eq!(bytes(KeyCode::Down), b"\x1b[B".to_vec());
    assert_eq!(bytes(KeyCode::Right), b"\x1b[C".to_vec());
    assert_eq!(bytes(KeyCode::Left), b"\x1b[D".to_vec());
    assert_eq!(bytes(KeyCode::Delete), Vec::<u8>::new());
    assert_eq!(bytes(KeyCode::Other), Vec::<u8>::new());
    assert_eq!(bytes(KeyCode::Char('é')), "é".as_bytes().to_vec());
    let shifted = KeyEvent { code: KeyCode::Char('a'), shift: true, kind: KeyEventKind::Press };
    assert_eq!(pane.on_event(&shifted), b"A".to_vec());
    let shifted = KeyEvent { code: KeyCode::Char('ß'), shift: true, kind: KeyEventKind::Press };
    assert_eq!(pane.on_event(&shifted), b"S".to_vec());
}

#[test]
fn char_bytes_are_utf8() {
    assert_eq!(char_bytes('a'), vec![0x61]);
    assert_eq!(char_bytes('€'), vec![0xE2, 0x82, 0xAC]);
}

#[test]
fn input_types_and_deletes() {
    let mut input = Input::new();
    for c in " ab ".chars() {
        input.on_event(&KeyEvent::press(KeyCode::Char(c)));
    }
    assert_eq!(input.get_value(), "ab");
    input.on_event(&KeyEvent::press(KeyCode::Backspace));
    input.on_event(&KeyEvent::press(KeyCode::Delete));
    assert_eq!(input.get_value(), "a");
    let release = KeyEvent { code: KeyCode::Char('z'), shift: false, kind: KeyEventKind::Release };
    input.on_event(&release);
    assert_eq!(input.get_value(), "a");
    input.set_val("\t http://x \n");
    assert_eq!(input.get_value(), "http://x");
}

#[test]
fn input_draws_once() {
    let mut input = Input::new();
    input.set_val("abc");
    let mut target = Block::new(0, 0, 10, 3, true);
    let mut console = Console::new();
    assert!(input.needs_re_render());
    input.output(&mut console, &mut target);
    let cmds = console.take_commands();
    assert_eq!(raw_bytes(&cmds), b"abc".to_vec());
    assert_eq!(cmds.last(), Some(&Command::ShowCursor));
    assert!(!input.needs_re_render());
    input.output(&mut console, &mut target);
    assert!(console.take_commands().is_empty());

    input.on_event(&KeyEvent::press(KeyCode::Backspace));
    input.output(&mut console, &mut target);
    let cmds = console.take_commands();
    assert!(cmds.contains(&Command::Print("        ".to_string())));
    assert_eq!(raw_bytes(&cmds), b"ab".to_vec());
}

#[test]
fn shortcuts_draw_once() {
    let mut hints = ShortcutsView::new();
    let mut target = Block::new(0, 0, 30, 3, true);
    let mut console = Console::new();
    assert!(hints.needs_re_render());
    hints.output(&mut console, &mut target);
    assert_eq!(raw_bytes(&console.take_commands()), b"[s] Send [e] Execute".to_vec());
    assert!(!hints.needs_re_render());
    hints.output(&mut console, &mut target);
    assert!(console.take_commands().is_empty());
}

#[test]
fn list_rows_show_method_and_title() {
    let mut list = List::new(vec![request("get", "users"), request("post", "create")], 20);
    let mut target = Block::new(0, 0, 22, 6, true);
    let mut console = Console::new();
    list.output(&mut console, &mut target);
    let text = String::from_utf8(raw_bytes(&console.take_commands())).unwrap();
    assert_eq!(text, " GET   users        POST  create      ");
    assert!(!list.needs_re_render());
    list.output(&mut console, &mut target);
    assert!(console.take_commands().is_empty());
}

#[test]
fn list_selection_moves_within_bounds() {
    let mut list = List::new(vec![request("get", "a"), request("put", "b")], 20);
    let up = KeyEvent::press(KeyCode::Up);
    let down = KeyEvent::press(KeyCode::Down);
    list.on_event(&up);
    assert_eq!(list.selected(), 0);
    list.on_event(&down);
    list.on_event(&down);
    assert_eq!(list.selected(), 1);
    assert!(list.needs_re_render());
    list.on_event(&up);
    assert_eq!(list.selected(), 0);
    assert!(!list.option_selected());
    list.on_event(&KeyEvent::press(KeyCode::Enter));
    assert!(list.option_selected());
}

#[test]
fn empty_list_ignores_moves() {
    let mut list = List::new(vec![], 20);
    list.on_event(&KeyEvent::press(KeyCode::Down));
    assert_eq!(list.selected(), 0);
    let mut target = Block::new(0, 0, 22, 6, true);
    let mut console = Console::new();
    list.output(&mut console, &mut target);
    assert!(raw_bytes(&console.take_commands()).is_empty());
}

#[test]
fn model_keeps_copies_without_query_params() {
    let mut model = Model::new(vec![request("get", "a"), request("post", "b")]);
    assert_eq!(model.requests.len(), 2);
    assert!(model.requests[0].query_params.is_empty());
    model.add_request(request("put", "c"));
    assert_eq!(model.requests.len(), 3);
    assert_eq!(model.requests[2].query_params, vec!["q".to_string()]);
    let mut r = request("get", "a");
    r.url = "http://other".to_string();
    model.update_request(0, &r);
    assert_eq!(model.requests[0].url, "http://other");
    assert!(model.requests[0].query_params.is_empty());
    model.make_request(&r);
    let copy = model.snapshot();
    assert_eq!(copy.len(), 3);
    assert_eq!(copy[1].title, "b");
    assert!(copy[2].query_params.is_empty());
    let c = Request::from(&request("get", "z"));
    assert_eq!(c.title, "z");
    assert!(c.query_params.is_empty());
}

fn draws_once<E: Element>(pane: &mut E) {
    let mut target = Block::new(0, 0, 30, 6, true);
    let mut console = Console::new();
    if pane.needs_re_render() {
        pane.output(&mut console, &mut target);
    }
    console.take_commands();
    assert!(!pane.needs_re_render());
    pane.output(&mut console, &mut target);
    assert!(console.take_commands().is_empty());
}

#[test]
fn every_pane_draws_once_through_the_interface() {
    let mut input = Input::new();
    input.set_val("x");
    draws_once(&mut input);
    draws_once(&mut List::new(vec![request("get", "a")], 20));
    draws_once(&mut ShortcutsView::new());
    let mut editor = Editor::new();
    editor.set_val("{}");
    draws_once(&mut editor);
    assert_eq!(Element::on_event(&mut input, &KeyEvent::press(KeyCode::Char('y'))), Vec::<u8>::new());
    assert_eq!(input.get_value(), "xy");
}

#[test]
fn pty_pane_always_asks_to_render_and_forwards_keys() {
    let (_tx, rx) = mpsc::channel::<Vec<u8>>();
    let mut pane = PtyView::new(rx);
    assert!(Element::needs_re_render(&pane));
    assert_eq!(Element::on_event(&mut pane, &KeyEvent::press(KeyCode::Up)), b"\x1b[A".to_vec());
}
