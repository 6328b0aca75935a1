use paneterm::block::{Block, BlockState};
use paneterm::console::{Color, Command, Console};

/// Replays drawing commands onto a grid of cells, as a terminal would.
fn screen(cmds: &[Command], w: usize, h: usize) -> Vec<String> {
    let mut grid = vec![vec![' '; w]; h];
    let (mut x, mut y) = (0usize, 0usize);
    for c in cmds {
        match c {
            Command::MoveTo(cx, cy) => {
                x = *cx as usize;
                y = *cy as usize;
            }
            Command::Raw(bytes) => {
                for b in bytes {
                    if *b == 0x1B {
                        break;
                    }
                    if y < h && x < w {
                        grid[y][x] = *b as char;
                    }
                    x += 1;
                }
            }
            Command::Print(s) => {
                for ch in s.chars() {
                    if y < h && x < w {
                        grid[y][x] = ch;
                    }
                    x += 1;
                }
            }
            _ => {}
        }
    }
    grid.into_iter().map(|row| row.into_iter().collect()).collect()
}

fn written(block: &mut Block, bytes: &[u8]) -> Vec<Command> {
    let mut console = Console::new();
    block.write(&mut console, bytes);
    console.take_commands()
}

#[test]
fn cursor_request_moves_to_relative_cell() {
    let mut b = Block::new(2, 3, 20, 10, false);
    written(&mut b, b"\x1b[5;10H");
    assert_eq!(b.cursor(), (2 + 9, 3 + 4));
}

#[test]
fn cursor_request_is_clipped_to_the_viewport() {
    let mut b = Block::new(0, 0, 6, 3, false);
    written(&mut b, b"\x1b[5;10H");
    assert_eq!(b.cursor(), (5, 2));
    written(&mut b, b"\x1b[0;0H");
    assert_eq!(b.cursor(), (0, 0));
}

#[test]
fn cursor_request_inside_a_border() {
    let mut b = Block::new(10, 5, 12, 8, true);
    written(&mut b, b"\x1b[2;3H");
    assert_eq!(b.cursor(), (11 + 2, 6 + 1));
}

#[test]
fn crlf_moves_to_next_row() {
    let mut b = Block::new(0, 0, 10, 2, false);
    let cmds = written(&mut b, b"abc\r\ndef");
    assert_eq!(b.cursor(), (3, 1));
    let rows = screen(&cmds, 10, 2);
    assert_eq!(rows[0], "abc       ");
    assert_eq!(rows[1], "def       ");
    assert_eq!(cmds.last(), Some(&Command::Flush));
}

#[test]
fn long_text_wraps_at_the_right_edge() {
    let mut b = Block::new(0, 0, 10, 3, false);
    let cmds = written(&mut b, "xxxxxxxxxxxx".as_bytes());
    let rows = screen(&cmds, 10, 3);
    assert_eq!(rows[0], "xxxxxxxxxx");
    assert_eq!(rows[1], "xx        ");
    assert_eq!(b.cursor(), (2, 1));
}

#[test]
fn text_past_the_bottom_is_dropped() {
    let mut b = Block::new(0, 0, 4, 2, false);
    let cmds = written(&mut b, b"ab\ncd\nef");
    let rows = screen(&cmds, 4, 3);
    assert_eq!(rows[0], "ab  ");
    assert_eq!(rows[1], "cd  ");
    assert_eq!(rows[2], "    ");
    assert_eq!(b.cursor(), (0, 1));
}

#[test]
fn cursor_stays_inside_for_any_bytes() {
    let inputs: Vec<Vec<u8>> = vec![
        b"\n\n\n\n\n\n".to_vec(),
        "a".repeat(500).into_bytes(),
        b"\x1b[999;999H".to_vec(),
        b"\x1b[1;1Hzz\r\r\r".to_vec(),
        (0u8..=255).collect(),
        b"\x1b[12;HX\x1b[;4H\x1b[a;bH\x1bH".to_vec(),
    ];
    for input in inputs {
        let mut b = Block::new(3, 4, 7, 5, true);
        written(&mut b, &input);
        let (cx, cy) = b.cursor();
        assert!(4 <= cx && cx < 4 + b.width());
        assert!(5 <= cy && cy < 5 + b.height());
    }
}

#[test]
fn malformed_cursor_request_is_dropped() {
    let mut b = Block::new(0, 0, 10, 2, false);
    let cmds = written(&mut b, b"\x1b[;4Hab");
    assert_eq!(b.cursor(), (2, 0));
    let rows = screen(&cmds, 10, 2);
    assert_eq!(rows[0], "ab        ");
    assert!(!cmds.iter().any(|c| matches!(c, Command::Raw(r) if r.contains(&0x1B))));
}

#[test]
fn other_escape_sequences_pass_through() {
    let mut b = Block::new(0, 0, 10, 2, false);
    let cmds = written(&mut b, b"\x1b[31mred");
    assert!(cmds.contains(&Command::Raw(b"\x1b[31m".to_vec())));
    assert_eq!(b.cursor(), (3, 0));
}

#[test]
fn each_byte_is_placed_then_drawn() {
    let mut b = Block::new(1, 1, 5, 1, false);
    let cmds = written(&mut b, b"q");
    assert_eq!(
        cmds,
        vec![Command::MoveTo(1, 1), Command::Raw(vec![b'q']), Command::Flush]
    );
}

#[test]
fn bordered_viewport_has_inner_area() {
    let b = Block::new(5, 6, 10, 4, true);
    assert_eq!(b.width(), 8);
    assert_eq!(b.height(), 2);
    assert_eq!(b.cursor(), (6, 7));
}

#[test]
fn focus_state_queries() {
    let mut b = Block::new(0, 0, 5, 5, true);
    assert!(!b.is_selected() && !b.is_active());
    b.set_state(BlockState::Selected);
    assert!(b.is_selected() && !b.is_active());
    b.set_state(BlockState::Active);
    assert!(b.is_active() && !b.is_selected());
}

#[test]
fn border_draws_a_box_in_focus_color() {
    let mut b = Block::new(0, 0, 4, 3, true);
    b.set_state(BlockState::Active);
    let mut console = Console::new();
    b.render(&mut console);
    let cmds = console.take_commands();
    assert_eq!(cmds[0], Command::SetForeground(Color::Green));
    assert_eq!(cmds.last(), Some(&Command::ResetColor));
    let rows = screen(&cmds, 4, 3);
    assert_eq!(rows[0], "┌──┐");
    assert_eq!(rows[1], "│  │");
    assert_eq!(rows[2], "└──┘");

    b.set_state(BlockState::Selected);
    b.render(&mut console);
    assert_eq!(console.take_commands()[0], Command::SetForeground(Color::Yellow));

    b.set_state(BlockState::Inactive);
    b.render(&mut console);
    assert_eq!(console.take_commands()[0], Command::MoveTo(0, 0));
}

#[test]
fn bare_viewport_draws_no_border() {
    let mut b = Block::new(0, 0, 4, 3, false);
    let mut console = Console::new();
    b.render(&mut console);
    assert!(console.take_commands().is_empty());
}

#[test]
fn empty_blanks_every_inner_row() {
    let mut b = Block::new(1, 1, 5, 4, true);
    let mut console = Console::new();
    b.empty(&mut console);
    assert_eq!(
        console.take_commands(),
        vec![
            Command::MoveTo(2, 2),
            Command::Print("   ".to_string()),
            Command::MoveTo(2, 3),
            Command::Print("   ".to_string()),
        ]
    );
}

#[test]
fn line_moves_are_clipped() {
    let mut b = Block::new(0, 0, 3, 2, false);
    let mut console = Console::new();
    b.next_col(&mut console);
    b.next_col(&mut console);
    b.next_col(&mut console);
    assert_eq!(b.cursor(), (2, 0));
    assert!(b.next_line(&mut console));
    assert_eq!(b.cursor(), (0, 1));
    assert!(!b.next_line(&mut console));
    assert_eq!(b.cursor(), (0, 1));
    b.next_col(&mut console);
    b.to_line_start(&mut console);
    assert_eq!(b.cursor(), (0, 1));
    b.reset();
    assert_eq!(b.cursor(), (0, 0));
    b.reset_cursor(&mut console);
    let cmds = console.take_commands();
    assert_eq!(&cmds[cmds.len() - 2..], &[Command::MoveTo(0, 0), Command::Flush]);
}

#[test]
fn write_str_writes_utf8_bytes() {
    let mut b = Block::new(0, 0, 10, 1, false);
    let mut console = Console::new();
    b.write_str(&mut console, "hi");
    assert_eq!(b.cursor(), (2, 0));
}

#[test]
fn console_keeps_commands_in_order() {
    let mut c = Console::new();
    c.set_colors(Color::Black, Color::White);
    c.move_to(3, 4);
    c.write("x");
    c.write_raw(&[1, 2]);
    c.hide_cursor();
    c.show_cursor();
    c.reset_color();
    c.flush();
    assert_eq!(
        c.take_commands(),
        vec![
            Command::SetForeground(Color::Black),
            Command::SetBackground(Color::White),
            Command::MoveTo(3, 4),
            Command::Print("x".to_string()),
            Command::Raw(vec![1, 2]),
            Command::HideCursor,
            Command::ShowCursor,
            Command::ResetColor,
            Command::Flush,
        ]
    );
    assert!(c.take_commands().is_empty());
    c.enter_full_screen();
    c.exit_full_screen();
    assert_eq!(
        c.take_commands(),
        vec![
            Command::EnterFullScreen,
            Command::Flush,
            Command::ExitFullScreen,
            Command::Flush,
        ]
    );
}

#[test]
fn empty_write_only_commits() {
    let mut b = Block::new(0, 0, 1, 1, false);
    assert_eq!(written(&mut b, b""), vec![Command::Flush]);
    let cmds = written(&mut b, b"z");
    assert_eq!(
        cmds,
        vec![Command::MoveTo(0, 0), Command::Raw(vec![b'z']), Command::MoveTo(0, 0), Command::Flush]
    );
    assert_eq!(b.cursor(), (0, 0));
}

#[test]
fn escape_sequence_cut_at_the_end_of_a_write_is_dropped() {
    let mut b = Block::new(0, 0, 10, 2, false);
    let cmds = written(&mut b, b"a\x1b[3");
    assert_eq!(cmds, vec![Command::MoveTo(0, 0), Command::Raw(vec![b'a']), Command::Flush]);
    assert_eq!(b.cursor(), (1, 0));
}

#[test]
fn smallest_bordered_viewport() {
    let mut b = Block::new(0, 0, 3, 3, true);
    assert_eq!((b.width(), b.height()), (1, 1));
    written(&mut b, b"abc\r\n\x1b[9;9H");
    assert_eq!(b.cursor(), (1, 1));
}

#[test]
fn relative_moves_and_blanks() {
    let mut b = Block::new(2, 2, 6, 5, true);
    let mut console = Console::new();
    b.move_to(&mut console, 1, 2);
    assert_eq!(b.cursor(), (4, 5));
    b.move_to(&mut console, 50, 50);
    assert_eq!(b.cursor(), (6, 5));
    b.empty_line(&mut console, 1);
    b.empty_after(&mut console, 2);
    assert_eq!(
        console.take_commands(),
        vec![
            Command::MoveTo(4, 5),
            Command::MoveTo(6, 5),
            Command::MoveTo(3, 4),
            Command::Print("    ".to_string()),
            Command::MoveTo(3, 5),
            Command::Print("    ".to_string()),
        ]
    );
}

#[test]
fn multi_digit_cursor_requests() {
    let mut b = Block::new(0, 0, 40, 30, false);
    written(&mut b, b"\x1b[12;31H");
    assert_eq!(b.cursor(), (30, 11));
    written(&mut b, b"\x1b[0031;0100H");
    assert_eq!(b.cursor(), (39, 29));
    written(&mut b, b"\x1b[99999999999;1H");
    assert_eq!(b.cursor(), (0, 29));
}
