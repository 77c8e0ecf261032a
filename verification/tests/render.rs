use revim::editor::{Cursor, Editor, EditorError, Mode};
use revim::event::{Event, KeyCode, KeyEvent, KeyModifier};
use revim::action::{insert_char_to_rope, step};
use revim::keymapper::key_builder;
use revim::render::{
    draw, format_command_bar, format_text, message_line, refresh, render, row_cells,
    screen_size, status_line, Paint, ScreenVector, StringCount,
};
use ropey::Rope;

fn editor_on(text: &str, w: usize, h: usize) -> Editor {
    Editor::new(Rope::from_str(text), None, ScreenVector::new(0, 0, w, h))
}

fn print(s: &str) -> Paint {
    Paint::Print(String::from(s))
}

#[test]
fn first_frame_shows_the_document() {
    let mut e = editor_on("ab\ncd", 4, 3);
    let frame = render(&mut e);
    assert_eq!(
        frame,
        vec![
            Paint::Hide,
            Paint::MoveTo(0, 0),
            print("ab  "),
            Paint::MoveTo(0, 1),
            print("cd  "),
            Paint::MoveTo(0, 2),
            print("    "),
            Paint::MoveTo(0, 3),
            print("Norm"),
            Paint::MoveTo(0, 4),
            print("    "),
            Paint::MoveTo(0, 0),
            Paint::Show,
            Paint::Flush,
        ]
    );
    assert!(!e.stale);
    assert!(e.queued.is_empty());
    assert_eq!(e.grid.iter().collect::<String>(), "ab  cd      ");
}

#[test]
fn a_second_frame_without_changes_writes_no_text_row() {
    let mut e = editor_on("ab\ncd", 12, 3);
    render(&mut e);
    let frame = render(&mut e);
    assert_eq!(
        frame,
        vec![
            Paint::Hide,
            Paint::MoveTo(0, 3),
            print("Normal   0/0"),
            Paint::MoveTo(0, 4),
            print("            "),
            Paint::MoveTo(0, 0),
            Paint::Show,
            Paint::Flush,
        ]
    );
}

#[test]
fn a_frame_ends_with_the_cursor_shown_and_one_flush() {
    let mut e = editor_on("hello\nworld", 20, 4);
    e.move_vertical(1);
    e.move_horizontal(1);
    e.move_horizontal(1);
    let frame = render(&mut e);
    let n = frame.len();
    assert_eq!(frame[n - 1], Paint::Flush);
    assert_eq!(frame[n - 2], Paint::Show);
    assert_eq!(frame[n - 3], Paint::MoveTo(2, 1));
    assert_eq!(frame.iter().filter(|p| **p == Paint::Flush).count(), 1);
    assert_eq!(frame[0], Paint::Hide);
}

#[test]
fn only_the_typed_row_is_written_after_typing() {
    let mut e = editor_on("ab\ncd\nef", 6, 3);
    render(&mut e);
    e.on_mode_change(Mode::Insert);
    e.move_vertical(1);
    insert_char_to_rope(&mut e, 'x');
    let frame = render(&mut e);
    assert_eq!(
        frame,
        vec![
            Paint::Hide,
            Paint::MoveTo(0, 1),
            print("xcd   "),
            Paint::MoveTo(0, 3),
            print("Insert"),
            Paint::MoveTo(0, 4),
            print("      "),
            Paint::MoveTo(1, 1),
            Paint::Show,
            Paint::Flush,
        ]
    );
}

#[test]
fn the_text_area_starts_at_its_terminal_row() {
    let mut e = Editor::new(Rope::from_str("ab"), None, ScreenVector::new(0, 2, 3, 1));
    let frame = render(&mut e);
    assert_eq!(
        frame,
        vec![
            Paint::Hide,
            Paint::MoveTo(0, 2),
            print("ab "),
            Paint::MoveTo(0, 3),
            print("Nor"),
            Paint::MoveTo(0, 4),
            print("   "),
            Paint::MoveTo(0, 2),
            Paint::Show,
            Paint::Flush,
        ]
    );
}

#[test]
fn scrolling_refreshes_every_row() {
    let mut e = editor_on("a\nb\nc\nd", 2, 2);
    render(&mut e);
    e.move_vertical(1);
    assert!(!e.stale);
    e.move_vertical(1);
    assert!(e.stale);
    refresh(&mut e);
    assert!(!e.stale);
    assert_eq!(e.queued, vec![0, 1]);
    assert_eq!(e.grid.iter().collect::<String>(), "b c ");
    assert_eq!(row_cells(&e.grid, 2, 1), vec!['c', ' ']);
    assert_eq!(row_cells(&e.grid, 2, 0), vec!['b', ' ']);
}

#[test]
fn refresh_leaves_a_fresh_buffer_alone() {
    let mut e = editor_on("a\nb", 2, 2);
    render(&mut e);
    e.grid[0] = 'z';
    refresh(&mut e);
    assert_eq!(e.grid[0], 'z');
    assert!(e.queued.is_empty());
}

#[test]
fn rows_show_tabs_as_four_spaces_and_cut_long_lines() {
    let mut e = editor_on("\tab\n0123456789", 6, 2);
    render(&mut e);
    assert_eq!(e.grid.iter().collect::<String>(), "    ab012345");
}

#[test]
fn rows_leave_out_line_breaks_of_every_kind() {
    let mut e = editor_on("a\r\nb\rc\n", 2, 4);
    render(&mut e);
    assert_eq!(e.grid.iter().collect::<String>(), "a b c   ");
}

#[test]
fn draw_refuses_an_inconsistent_editor() {
    let mut e = editor_on("ab", 4, 2);
    e.cursor.gy = 3;
    assert_eq!(draw(&mut e), None);
    assert!(e.stale);
    e.cursor.gy = 0;
    assert!(draw(&mut e).is_some());
    assert!(!e.stale);
}

#[test]
fn status_line_has_the_mode_left_and_the_cursor_right() {
    let c = Cursor { x: 3, y: 1, gx: 3, gy: 12, max_x: 3 };
    assert_eq!(status_line(Mode::Normal, &c, 16).iter().collect::<String>(), "Normal      3/12");
    assert_eq!(status_line(Mode::Insert, &c, 10).iter().collect::<String>(), "Insert3/12");
    assert_eq!(status_line(Mode::Command, &c, 12).iter().collect::<String>(), "Command 3/12");
    assert_eq!(status_line(Mode::Command, &c, 9).iter().collect::<String>(), "Command3/");
    assert_eq!(status_line(Mode::Normal, &c, 3).iter().collect::<String>(), "Nor");
    assert_eq!(status_line(Mode::Normal, &c, 0).iter().collect::<String>(), "");
}

#[test]
fn names_and_labels() {
    assert_eq!(Mode::Insert.name(), "Insert");
    assert_eq!(Mode::Normal.name(), "Normal");
    assert_eq!(Mode::Command.name(), "Command");
    let c = Cursor { x: 0, y: 0, gx: 40, gy: 1207, max_x: 0 };
    assert_eq!(c.label(), "40/1207");
    assert_eq!(Cursor::default().label(), "0/0");
    assert_eq!(EditorError::NONE.message(), "");
    assert_eq!(
        EditorError::InvalidCommand(String::from("wq")).message(),
        "Invalid Command: wq"
    );
}

#[test]
fn message_line_shows_the_command_line_in_command_mode() {
    let mut e = editor_on("ab", 8, 2);
    e.output = String::from("out");
    e.on_mode_change(Mode::Command);
    e.command = String::from("he");
    assert_eq!(message_line(&e).iter().collect::<String>(), ":he     ");
    e.command = String::from("0123456789");
    assert_eq!(message_line(&e).iter().collect::<String>(), ":0123456");
}

#[test]
fn message_line_shows_what_the_last_command_left() {
    let mut e = editor_on("ab", 24, 2);
    assert_eq!(message_line(&e).iter().collect::<String>(), " ".repeat(24));
    e.output = String::from("out");
    assert_eq!(message_line(&e).iter().collect::<String>(), format!("{:<24}", "out"));
    e.error = EditorError::InvalidCommand(String::from("x"));
    assert_eq!(
        message_line(&e).iter().collect::<String>(),
        format!("{:<24}", "Invalid Command: x")
    );
}

#[test]
fn a_refused_command_is_written_as_an_error() {
    let map = key_builder();
    let mut e = editor_on("ab", 20, 1);
    let press = |c: char| Event::Key(KeyEvent::new(KeyCode::Char(c), KeyModifier::NONE));
    step(&mut e, &map, &press(':'));
    let typing = step(&mut e, &map, &press('x')).unwrap();
    assert_eq!(typing[typing.len() - 4], print(":x                  "));
    let frame = step(
        &mut e,
        &map,
        &Event::Key(KeyEvent::new(KeyCode::Enter, KeyModifier::NONE)),
    )
    .unwrap();
    assert_eq!(
        frame[frame.len() - 4],
        Paint::PrintError(String::from("Invalid Command: x  "))
    );
    assert_eq!(frame[frame.len() - 5], Paint::MoveTo(0, 2));
}

#[test]
fn step_renders_after_every_event() {
    let map = key_builder();
    let mut e = editor_on("ab\ncd", 4, 2);
    let first = step(&mut e, &map, &Event::Mouse).unwrap();
    assert_eq!(first.len(), 12);
    let idle = step(&mut e, &map, &Event::Mouse).unwrap();
    assert_eq!(idle.len(), 8);
    let moved = step(
        &mut e,
        &map,
        &Event::Key(KeyEvent::new(KeyCode::Char('j'), KeyModifier::NONE)),
    )
    .unwrap();
    assert_eq!(moved[moved.len() - 3], Paint::MoveTo(0, 1));
    assert_eq!(e.cursor.gy, 1);
}

#[test]
fn step_refuses_an_inconsistent_editor() {
    let map = key_builder();
    let mut e = editor_on("ab\ncd", 4, 2);
    e.cursor.y = 1;
    assert_eq!(step(&mut e, &map, &Event::Mouse), None);
    assert_eq!(
        step(&mut e, &map, &Event::Key(KeyEvent::new(KeyCode::Char('j'), KeyModifier::NONE))),
        None
    );
    assert_eq!(e.cursor.gy, 0);
}

#[test]
fn a_resize_gives_a_new_text_area() {
    let map = key_builder();
    let mut e = editor_on("a\nb\nc\nd\ne\nf", 4, 4);
    for _ in 0..5 {
        e.move_vertical(1);
    }
    e.cursor.max_x = 7;
    assert_eq!((e.screen.t, e.cursor.y, e.cursor.gy), (2, 3, 5));
    let frame = step(&mut e, &map, &Event::Resize(3, 4)).unwrap();
    assert_eq!((e.screen.max_w, e.screen.max_h), (3, 2));
    assert_eq!((e.screen.t, e.cursor.y, e.cursor.gy), (4, 1, 5));
    assert_eq!(e.cursor.max_x, 7);
    assert_eq!(e.grid.iter().collect::<String>(), "e  f  ");
    assert_eq!(frame[1], Paint::MoveTo(0, 0));
    assert_eq!(frame[2], print("e  "));
    assert!(e.is_consistent());
    step(&mut e, &map, &Event::Resize(5, 1)).unwrap();
    assert_eq!((e.screen.max_w, e.screen.max_h), (5, 0));
    assert_eq!((e.screen.t, e.cursor.y, e.cursor.gy), (5, 0, 5));
    assert!(e.grid.is_empty());
}

#[test]
fn resize_by_hand() {
    let mut e = editor_on("a\nb\nc", 4, 1);
    e.move_vertical(1);
    e.resize(2, 3);
    assert_eq!((e.screen.t, e.cursor.y, e.cursor.gy), (0, 1, 1));
    assert_eq!(e.grid, vec![' '; 6]);
    assert!(e.stale);
    assert!(e.queued.is_empty());
}

#[test]
fn screen_size_leaves_two_rows_to_the_bars() {
    let s = screen_size(80, 24);
    assert_eq!((s.t, s.b, s.max_w, s.max_h), (0, 0, 80, 22));
    assert_eq!(screen_size(80, 2).max_h, 0);
    assert_eq!(screen_size(80, 1).max_h, 0);
    assert_eq!(screen_size(0, 0).max_w, 0);
}

#[test]
fn screen_vector_edges() {
    let s = ScreenVector::new(3, 1, 80, 22);
    assert_eq!(s._origin(), (3, 1));
    assert_eq!(s._right(), 83);
    assert_eq!(s._left(), 3);
    assert_eq!(s._top(), 1);
    assert_eq!(s.bottom(), 23);
}

#[test]
fn format_text_lays_out_rows() {
    let mut text = String::from("ab\n\tc\nlonger than that");
    format_text(&mut text, 6, 4);
    assert_eq!(text, "ab    \r\n    c \r\nlonger\r\n      \r\n");
    let mut text = String::from("a\nb\nc");
    format_text(&mut text, 2, 2);
    assert_eq!(text, "a \r\nb \r\n");
    let mut text = String::from("abc");
    format_text(&mut text, 2, 0);
    assert_eq!(text, "");
    let mut text = String::from("a\r\nb");
    format_text(&mut text, 0, 2);
    assert_eq!(text, "\r\n\r\n");
}

#[test]
fn format_command_bar_fills_with_spaces() {
    let mut line = String::from(":wq");
    format_command_bar(&mut line, 6);
    assert_eq!(line, ":wq   ");
    format_command_bar(&mut line, 4);
    assert_eq!(line, ":wq   ");
    let mut line = String::new();
    format_command_bar(&mut line, 2);
    assert_eq!(line, "  ");
    format_command_bar(&mut line, 0);
    assert_eq!(line, "  ");
}

#[test]
fn count_char_counts() {
    assert_eq!(String::from("a\tb\t\tc").count_char('\t'), 3);
    assert_eq!(String::from("abc").count_char('x'), 0);
    assert_eq!(String::new().count_char('a'), 0);
    assert_eq!(String::from("aaa").count_char('a'), 3);
}
