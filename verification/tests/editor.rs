use red::document::{Document, Row};
use red::editor::{initial_status, Editor, Key, Position, Screen, Size, StatusMessage};
use red::text::fmt_usize;

fn doc(lines: &[&str]) -> Document {
    let mut rows = Vec::new();
    for line in lines {
        rows.push(Row::from_str(line));
    }
    Document::from_rows(rows, None)
}

fn named_doc(lines: &[&str], name: &str) -> Document {
    let mut rows = Vec::new();
    for line in lines {
        rows.push(Row::from_str(line));
    }
    Document::from_rows(rows, Some(name.to_string()))
}

fn editor(document: Document) -> Editor {
    let status = StatusMessage::from(initial_status(&None, false), 0);
    Editor::new(document, status)
}

fn size(width: usize, height: usize) -> Size {
    Size { width, height }
}

fn ten_lines() -> Document {
    doc(&[
        "hello", "line1", "line2", "line3", "line4", "line5", "line6", "line7", "line8", "line9",
    ])
}

#[test]
fn no_file_startup() {
    let status = initial_status(&None, false);
    assert_eq!(status, "HELP: Ctrl-Q = Quit");
    let e = editor(Document::empty());
    assert_eq!(e.document.len(), 0);
    let rows = e.draw_rows(size(80, 24));
    assert_eq!(rows.len(), 24);
    let expected_welcome = format!("~{}red | v0.1.0\r", " ".repeat(32));
    assert_eq!(rows[8], expected_welcome);
    assert!(rows[8].starts_with('~'));
    assert!(rows[8].contains("red | v"));
    for (i, row) in rows.iter().enumerate() {
        if i != 8 {
            assert_eq!(row, "~");
        }
    }
}

#[test]
fn missing_file_status() {
    let status = initial_status(&Some("missing.txt".to_string()), true);
    assert_eq!(status, "ERR: could not open file: missing.txt");
    assert!(status.contains("missing.txt"));
    let e = Editor::new(Document::empty(), StatusMessage::from(status, 0));
    assert_eq!(e.document.len(), 0);
}

#[test]
fn open_succeeds_keeps_help_status() {
    let status = initial_status(&Some("present.txt".to_string()), false);
    assert_eq!(status, "HELP: Ctrl-Q = Quit");
}

#[test]
fn right_wraps_to_next_line() {
    let mut e = editor(ten_lines());
    e.cursor_pos = Position { x: 5, y: 0 };
    e.process_keypress(Key::Right, size(80, 24));
    assert_eq!(e.cursor_pos, Position { x: 0, y: 1 });
}

#[test]
fn right_at_last_line_end_moves_to_sentinel() {
    let mut e = editor(ten_lines());
    e.cursor_pos = Position { x: 5, y: 9 };
    e.process_keypress(Key::Right, size(80, 24));
    assert_eq!(e.cursor_pos, Position { x: 0, y: 10 });
}

#[test]
fn right_within_row_advances() {
    let mut e = editor(ten_lines());
    e.cursor_pos = Position { x: 2, y: 0 };
    e.process_keypress(Key::Right, size(80, 24));
    assert_eq!(e.cursor_pos, Position { x: 3, y: 0 });
}

#[test]
fn up_at_top_stays() {
    let mut e = editor(ten_lines());
    e.process_keypress(Key::Up, size(80, 24));
    assert_eq!(e.cursor_pos, Position { x: 0, y: 0 });
}

#[test]
fn down_at_sentinel_stays() {
    let mut e = editor(ten_lines());
    e.cursor_pos = Position { x: 0, y: 10 };
    e.process_keypress(Key::Down, size(80, 24));
    assert_eq!(e.cursor_pos, Position { x: 0, y: 10 });
}

#[test]
fn left_wraps_to_previous_line_end() {
    let mut e = editor(ten_lines());
    e.cursor_pos = Position { x: 0, y: 1 };
    e.process_keypress(Key::Left, size(80, 24));
    assert_eq!(e.cursor_pos, Position { x: 5, y: 0 });
}

#[test]
fn home_and_end() {
    let mut e = editor(ten_lines());
    e.cursor_pos = Position { x: 3, y: 0 };
    e.process_keypress(Key::End, size(80, 24));
    assert_eq!(e.cursor_pos, Position { x: 5, y: 0 });
    e.process_keypress(Key::Home, size(80, 24));
    assert_eq!(e.cursor_pos, Position { x: 0, y: 0 });
}

#[test]
fn vertical_move_clamps_to_shorter_line() {
    let mut e = editor(doc(&["hello", "hi"]));
    e.cursor_pos = Position { x: 5, y: 0 };
    e.process_keypress(Key::Down, size(80, 24));
    assert_eq!(e.cursor_pos, Position { x: 2, y: 1 });
}

#[test]
fn page_down_and_up() {
    let lines: Vec<String> = (0..100).map(|i| format!("line {}", i)).collect();
    let refs: Vec<&str> = lines.iter().map(|s| s.as_str()).collect();
    let mut e = editor(doc(&refs));
    e.cursor_pos = Position { x: 0, y: 50 };
    e.process_keypress(Key::PageDown, size(80, 24));
    assert_eq!(e.cursor_pos.y, 74);
    e.process_keypress(Key::PageUp, size(80, 24));
    assert_eq!(e.cursor_pos.y, 50);
}

#[test]
fn page_down_clamps_to_document_end() {
    let mut e = editor(ten_lines());
    e.cursor_pos = Position { x: 0, y: 5 };
    e.process_keypress(Key::PageDown, size(80, 24));
    assert_eq!(e.cursor_pos.y, 10);
}

#[test]
fn other_keys_are_no_ops() {
    let mut e = editor(ten_lines());
    e.cursor_pos = Position { x: 2, y: 3 };
    e.process_keypress(Key::Char('x'), size(80, 24));
    assert_eq!(e.cursor_pos, Position { x: 2, y: 3 });
    assert!(!e.should_quit);
    e.process_keypress(Key::Ctrl('c'), size(80, 24));
    assert!(!e.should_quit);
}

#[test]
fn quit_key_stops_loop() {
    let mut e = editor(ten_lines());
    e.process_keypress(Key::Ctrl('q'), size(80, 24));
    assert!(e.should_quit);
    match e.refresh_screen(size(80, 24), 0) {
        Screen::Goodbye => {},
        Screen::View { .. } => panic!("a quitting editor must render the goodbye screen"),
    }
}

#[test]
fn run_stops_at_quit_key() {
    let mut e = editor(ten_lines());
    let keys = vec![Key::Down, Key::Ctrl('q'), Key::Down, Key::Down];
    e.run(&keys, size(80, 24));
    assert!(e.should_quit);
    // the keys after the quit key were never dispatched
    assert_eq!(e.cursor_pos, Position { x: 0, y: 1 });
}

#[test]
fn run_without_quit_processes_everything() {
    let mut e = editor(ten_lines());
    let keys = vec![Key::Down, Key::Down, Key::Down];
    e.run(&keys, size(80, 24));
    assert!(!e.should_quit);
    assert_eq!(e.cursor_pos.y, 3);
}

#[test]
fn run_scrolls_viewport() {
    let mut e = editor(ten_lines());
    let keys = vec![Key::Down, Key::Down, Key::Down];
    e.run(&keys, size(80, 2));
    assert_eq!(e.cursor_pos.y, 3);
    assert_eq!(e.offset.y, 2);
}

#[test]
fn run_entered_quitting_changes_nothing() {
    let mut e = editor(ten_lines());
    e.should_quit = true;
    let keys = vec![Key::Down, Key::Down];
    e.run(&keys, size(80, 24));
    assert!(e.should_quit);
    assert_eq!(e.cursor_pos, Position { x: 0, y: 0 });
    assert_eq!(e.offset, Position { x: 0, y: 0 });
}

#[test]
fn scroll_follows_cursor_and_is_idempotent() {
    let mut e = editor(ten_lines());
    e.cursor_pos = Position { x: 120, y: 50 };
    e.scroll(size(80, 24));
    assert_eq!(e.offset, Position { x: 41, y: 27 });
    // cursor visible on both axes
    assert!(e.offset.x <= e.cursor_pos.x && e.cursor_pos.x < e.offset.x + 80);
    assert!(e.offset.y <= e.cursor_pos.y && e.cursor_pos.y < e.offset.y + 24);
    // a second scroll with nothing changed moves nothing
    e.scroll(size(80, 24));
    assert_eq!(e.offset, Position { x: 41, y: 27 });
}

#[test]
fn scroll_back_up_left() {
    let mut e = editor(ten_lines());
    e.offset = Position { x: 10, y: 10 };
    e.cursor_pos = Position { x: 3, y: 4 };
    e.scroll(size(80, 24));
    assert_eq!(e.offset, Position { x: 3, y: 4 });
}

#[test]
fn cursor_stays_visible_after_every_key() {
    let lines: Vec<String> = (0..100).map(|i| "x".repeat(i % 37)).collect();
    let refs: Vec<&str> = lines.iter().map(|s| s.as_str()).collect();
    let mut e = editor(doc(&refs));
    let dims = size(7, 5);
    let keys = [
        Key::PageDown,
        Key::Down,
        Key::End,
        Key::Right,
        Key::Right,
        Key::PageDown,
        Key::End,
        Key::Left,
        Key::Up,
        Key::PageUp,
        Key::Home,
    ];
    for key in keys {
        e.process_keypress(key, dims);
        assert!(e.cursor_pos.y <= e.document.len());
        assert!(e.offset.x <= e.cursor_pos.x && e.cursor_pos.x < e.offset.x + dims.width);
        assert!(e.offset.y <= e.cursor_pos.y && e.cursor_pos.y < e.offset.y + dims.height);
    }
}

#[test]
fn status_bar_is_exactly_terminal_width() {
    let e = editor(named_doc(&["a", "b", "c"], "test.txt"));
    for width in [1usize, 2, 5, 10, 21, 22, 40, 80, 200] {
        let bar = e.draw_status_bar(size(width, 24));
        assert_eq!(bar.chars().count(), width);
    }
}

#[test]
fn status_bar_contents() {
    let mut e = editor(named_doc(&["a", "b", "c"], "test.txt"));
    e.cursor_pos = Position { x: 0, y: 0 };
    let bar = e.draw_status_bar(size(40, 24));
    let expected = format!("test.txt - 3 lines{}1/3", " ".repeat(19));
    assert_eq!(bar, expected);
}

#[test]
fn status_bar_unnamed_document() {
    let e = editor(doc(&["a"]));
    let bar = e.draw_status_bar(size(30, 24));
    assert!(bar.starts_with("[no name] - 1 lines"));
    assert!(bar.ends_with("1/1"));
}

#[test]
fn status_bar_truncates_long_file_name() {
    let e = editor(named_doc(&["a"], "abcdefghijklmnopqrstuvwxyz"));
    let bar = e.draw_status_bar(size(60, 24));
    assert!(bar.starts_with("abcdefghijklmnopqrst - 1 lines"));
    assert!(!bar.contains("abcdefghijklmnopqrstu"));
}

#[test]
fn message_bar_expires_after_five_seconds() {
    let e = Editor::new(
        Document::empty(),
        StatusMessage::from("hello there".to_string(), 1000),
    );
    assert_eq!(e.draw_message_bar(1000, size(80, 24)), "hello there");
    assert_eq!(e.draw_message_bar(5999, size(80, 24)), "hello there");
    assert_eq!(e.draw_message_bar(6000, size(80, 24)), "");
    assert_eq!(e.draw_message_bar(60000, size(80, 24)), "");
}

#[test]
fn message_bar_truncates_to_width() {
    let e = Editor::new(
        Document::empty(),
        StatusMessage::from("hello there".to_string(), 0),
    );
    assert_eq!(e.draw_message_bar(0, size(5, 24)), "hello");
}

#[test]
fn welcome_only_on_empty_document() {
    let e = editor(doc(&["just one line"]));
    let rows = e.draw_rows(size(80, 24));
    assert_eq!(rows[0], "just one line");
    for row in rows.iter().skip(1) {
        assert_eq!(row, "~");
    }
}

#[test]
fn welcome_truncated_on_narrow_screen() {
    let e = editor(Document::empty());
    let rows = e.draw_rows(size(10, 24));
    assert_eq!(rows[8].chars().count(), 10);
    assert!(rows[8].starts_with('~'));
}

#[test]
fn row_render_clamps_bounds() {
    let row = Row::from_str("hello world");
    assert_eq!(row.render(6, 11), "world");
    assert_eq!(row.render(6, 100), "world");
    assert_eq!(row.render(0, 5), "hello");
    assert_eq!(row.render(20, 30), "");
    assert_eq!(row.render(3, 2), "");
    assert_eq!(row.len(), 11);
}

#[test]
fn draw_row_uses_viewport_offset() {
    let mut e = editor(doc(&["hello world"]));
    e.offset = Position { x: 6, y: 0 };
    let rows = e.draw_rows(size(5, 4));
    assert_eq!(rows[0], "world");
}

#[test]
fn refresh_screen_composes_view() {
    let mut e = editor(named_doc(&["alpha", "beta"], "f.txt"));
    e.cursor_pos = Position { x: 2, y: 1 };
    e.scroll(size(40, 10));
    match e.refresh_screen(size(40, 10), 0) {
        Screen::Goodbye => panic!("a running editor must render the view"),
        Screen::View {
            rows,
            status_bar,
            message_bar,
            cursor,
        } => {
            assert_eq!(rows.len(), 10);
            assert_eq!(rows[0], "alpha");
            assert_eq!(rows[1], "beta");
            assert_eq!(rows[2], "~");
            assert_eq!(status_bar.chars().count(), 40);
            assert_eq!(message_bar, "HELP: Ctrl-Q = Quit");
            assert_eq!(cursor, Position { x: 2, y: 1 });
        },
    }
}

#[test]
fn fmt_usize_writes_decimal() {
    assert_eq!(fmt_usize(0), "0");
    assert_eq!(fmt_usize(7), "7");
    assert_eq!(fmt_usize(10), "10");
    assert_eq!(fmt_usize(12345), "12345");
    assert_eq!(fmt_usize(1000000), "1000000");
}
