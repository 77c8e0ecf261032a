use revim::editor::{Cursor, Editor, EditorError, Mode};
use revim::event::{Direction, EditorEvent, KeyCode, KeyEvent, KeyModifier};
use revim::action::{
    apply, begin_command, break_line, carry_out, delete_left, end_of_line_without_new_line,
    handle_key, insert_char_to_rope, insert_str_to_rope, leave_command, move_columns, move_lines,
    pop_command, run_command,
};
use revim::keymapper::{key_builder, key_number, Mapper};
use revim::command::{parse_command, Command};
use revim::render::{render, ScreenVector};
use ropey::Rope;

fn editor_on(text: &str, w: usize, h: usize) -> Editor {
    Editor::new(Rope::from_str(text), None, ScreenVector::new(0, 0, w, h))
}

fn key(c: char) -> KeyEvent {
    KeyEvent::new(KeyCode::Char(c), KeyModifier::NONE)
}

fn named(code: KeyCode) -> KeyEvent {
    KeyEvent::new(code, KeyModifier::NONE)
}

fn row(e: &Editor, r: usize) -> String {
    let w = e.screen.max_w;
    e.grid[r * w..r * w + w].iter().collect()
}

fn text(e: &Editor) -> String {
    String::from(&e.rope)
}

#[test]
fn typing_ab_into_an_empty_document() {
    let map = key_builder();
    let mut e = editor_on("", 10, 5);
    render(&mut e);
    assert!(handle_key(&mut e, &map, &key('i')));
    assert_eq!(e.mode, Mode::Insert);
    assert!(handle_key(&mut e, &map, &key('a')));
    assert!(handle_key(&mut e, &map, &key('b')));
    render(&mut e);
    assert_eq!(row(&e, 0), "ab        ");
    assert_eq!((e.cursor.x, e.cursor.y), (2, 0));
    assert_eq!((e.cursor.gx, e.cursor.gy), (2, 0));
    assert_eq!(text(&e), "ab");
}

#[test]
fn typing_updates_the_row_before_the_next_render() {
    let map = key_builder();
    let mut e = editor_on("", 10, 5);
    render(&mut e);
    handle_key(&mut e, &map, &key('i'));
    handle_key(&mut e, &map, &key('a'));
    handle_key(&mut e, &map, &key('b'));
    assert!(!e.stale);
    assert_eq!(row(&e, 0), "ab        ");
    assert_eq!(e.queued, vec![0]);
}

#[test]
fn two_presses_of_j_over_a_short_line() {
    let map = key_builder();
    let mut e = editor_on("aaaaa\nb\nccccc", 10, 5);
    for _ in 0..4 {
        handle_key(&mut e, &map, &key('l'));
    }
    assert_eq!((e.cursor.gx, e.cursor.gy), (4, 0));
    handle_key(&mut e, &map, &key('j'));
    assert_eq!((e.cursor.gx, e.cursor.gy), (0, 1));
    handle_key(&mut e, &map, &key('j'));
    assert_eq!((e.cursor.gx, e.cursor.gy), (4, 2));
}

#[test]
fn colon_q_enter_stops_the_editor() {
    let map = key_builder();
    let mut e = editor_on("abc", 10, 5);
    assert_eq!(e.mode, Mode::Normal);
    assert!(handle_key(&mut e, &map, &key(':')));
    assert_eq!(e.mode, Mode::Command);
    assert!(e.is_running);
    assert!(handle_key(&mut e, &map, &key('q')));
    assert_eq!(e.command, "q");
    assert!(e.is_running);
    assert!(handle_key(&mut e, &map, &named(KeyCode::Enter)));
    assert!(!e.is_running);
    assert_eq!(e.mode, Mode::Normal);
    assert_eq!(e.command, "");
    assert_eq!(e.error, EditorError::NONE);
}

#[test]
fn escape_in_normal_mode_stops_the_editor() {
    let map = key_builder();
    let mut e = editor_on("abc", 10, 5);
    assert!(handle_key(&mut e, &map, &named(KeyCode::Esc)));
    assert!(!e.is_running);
}

#[test]
fn mode_transitions_by_key() {
    let map = key_builder();
    let mut e = editor_on("abc", 10, 5);
    handle_key(&mut e, &map, &key('i'));
    assert_eq!(e.mode, Mode::Insert);
    handle_key(&mut e, &map, &named(KeyCode::Esc));
    assert_eq!(e.mode, Mode::Normal);
    assert!(e.is_running);
    handle_key(&mut e, &map, &key(':'));
    assert_eq!(e.mode, Mode::Command);
    handle_key(&mut e, &map, &key('x'));
    handle_key(&mut e, &map, &named(KeyCode::Esc));
    assert_eq!(e.mode, Mode::Normal);
    assert_eq!(e.command, "");
    assert!(e.is_running);
    handle_key(&mut e, &map, &KeyEvent::new(KeyCode::Char(':'), KeyModifier::Shift));
    assert_eq!(e.mode, Mode::Command);
}

#[test]
fn an_unbound_key_does_nothing() {
    let map = key_builder();
    let mut e = editor_on("abc", 10, 5);
    assert!(!handle_key(&mut e, &map, &key('z')));
    assert!(!handle_key(&mut e, &map, &named(KeyCode::F(3))));
    assert!(!handle_key(&mut e, &map, &KeyEvent::new(KeyCode::Char('j'), KeyModifier::Control)));
    assert_eq!(e.cursor, Cursor { x: 0, y: 0, gx: 0, gy: 0, max_x: 0 });
    assert_eq!(e.mode, Mode::Normal);
    assert!(e.is_running);
}

#[test]
fn a_key_is_not_handled_on_an_inconsistent_editor() {
    let map = key_builder();
    let mut e = editor_on("abc", 10, 5);
    e.cursor.gy = 9;
    assert!(!handle_key(&mut e, &map, &key('j')));
    assert_eq!(e.cursor.gy, 9);
}

#[test]
fn lookup_goes_by_mode() {
    let map = key_builder();
    assert_eq!(
        map.get_mapping(&Mode::Normal, &key('j')),
        Some(&EditorEvent::Cursor(Direction::Down(1)))
    );
    assert_eq!(map.get_mapping(&Mode::Normal, &key('k')), Some(&EditorEvent::Cursor(Direction::Up(1))));
    assert_eq!(
        map.get_mapping(&Mode::Normal, &key('h')),
        Some(&EditorEvent::Cursor(Direction::Left(1)))
    );
    assert_eq!(
        map.get_mapping(&Mode::Normal, &key('l')),
        Some(&EditorEvent::Cursor(Direction::Right(1)))
    );
    assert_eq!(map.get_mapping(&Mode::Insert, &key('j')), Some(&EditorEvent::Insert('j')));
    assert_eq!(map.get_mapping(&Mode::Command, &key('j')), Some(&EditorEvent::CommandPush('j')));
    assert_eq!(map.get_mapping(&Mode::Normal, &key('a')), None);
    assert_eq!(map.get_mapping(&Mode::Insert, &named(KeyCode::Tab)), Some(&EditorEvent::Indent));
    assert_eq!(map.get_mapping(&Mode::Insert, &named(KeyCode::Enter)), Some(&EditorEvent::NewLine));
    assert_eq!(
        map.get_mapping(&Mode::Command, &named(KeyCode::Enter)),
        Some(&EditorEvent::CommandRun)
    );
    assert_eq!(
        map.get_mapping(&Mode::Insert, &named(KeyCode::Backspace)),
        Some(&EditorEvent::Backspace)
    );
    assert_eq!(
        map.get_mapping(&Mode::Command, &named(KeyCode::Backspace)),
        Some(&EditorEvent::CommandPop)
    );
    assert_eq!(map.get_mapping(&Mode::Normal, &named(KeyCode::Enter)), None);
}

#[test]
fn every_printable_character_is_bound_in_insert_and_command_mode() {
    let map = key_builder();
    let plain = "abcdefghijklmnopqrstuvwxyz0123456789!\"#$%&'()*+,-./:;<=>?@[\\]^_`{|}~";
    assert_eq!(plain.chars().count(), 26 + 10 + 32);
    for c in plain.chars() {
        assert_eq!(map.get_mapping(&Mode::Insert, &key(c)), Some(&EditorEvent::Insert(c)));
        assert_eq!(map.get_mapping(&Mode::Command, &key(c)), Some(&EditorEvent::CommandPush(c)));
    }
    for c in "ABCDEFGHIJKLMNOPQRSTUVWXYZ".chars() {
        let k = KeyEvent::new(KeyCode::Char(c), KeyModifier::Shift);
        assert_eq!(map.get_mapping(&Mode::Insert, &k), Some(&EditorEvent::Insert(c)));
        assert_eq!(map.get_mapping(&Mode::Command, &k), Some(&EditorEvent::CommandPush(c)));
        assert_eq!(map.get_mapping(&Mode::Insert, &key(c)), None);
    }
    assert_eq!(map.get_mapping(&Mode::Insert, &key(' ')), Some(&EditorEvent::Insert(' ')));
    assert_eq!(map.get_mapping(&Mode::Command, &key(' ')), None);
}

#[test]
fn the_last_binding_of_a_key_wins() {
    let map = Mapper::new()
        .insert_mapping(&Mode::Normal, key('x'), EditorEvent::Quit)
        .insert_mapping(&Mode::Normal, key('x'), EditorEvent::ModeInsert);
    assert_eq!(map.get_mapping(&Mode::Normal, &key('x')), Some(&EditorEvent::ModeInsert));
    assert_eq!(map.get_mapping(&Mode::Insert, &key('x')), None);
    assert_eq!(Mapper::new().get_mapping(&Mode::Normal, &key('x')), None);
}

#[test]
fn a_chain_binds_nothing_in_normal_mode() {
    let map = Mapper::new().insert_mapping_chain(&Mode::Normal, "abc", KeyModifier::NONE);
    assert_eq!(map.get_mapping(&Mode::Normal, &key('a')), None);
    let map = Mapper::new().key_adder(&Mode::Normal);
    assert_eq!(map.get_mapping(&Mode::Normal, &key('a')), None);
    let map = Mapper::new().insert_mapping_chain(&Mode::Insert, "ab", KeyModifier::Alt);
    let k = KeyEvent::new(KeyCode::Char('b'), KeyModifier::Alt);
    assert_eq!(map.get_mapping(&Mode::Insert, &k), Some(&EditorEvent::Insert('b')));
    assert_eq!(map.get_mapping(&Mode::Insert, &key('b')), None);
}

#[test]
fn chords_have_different_numbers() {
    let a = key_number(&key('a'));
    let b = key_number(&KeyEvent::new(KeyCode::Char('a'), KeyModifier::Shift));
    let c = key_number(&named(KeyCode::F(97)));
    let d = key_number(&named(KeyCode::Esc));
    assert_eq!(a, (15 * 4 + 3) * 0x1_0000_0000 + 97);
    assert_eq!(b, (15 * 4) * 0x1_0000_0000 + 97);
    assert_eq!(c, (14 * 4 + 3) * 0x1_0000_0000 + 97);
    assert_eq!(d, (17 * 4 + 3) * 0x1_0000_0000);
}

#[test]
fn typing_in_the_middle_of_a_line() {
    let mut e = editor_on("held\nworld", 10, 5);
    e.on_mode_change(Mode::Insert);
    e.move_horizontal(1);
    e.move_horizontal(1);
    e.move_horizontal(1);
    insert_char_to_rope(&mut e, 'l');
    assert_eq!(text(&e), "helld\nworld");
    assert_eq!((e.cursor.gx, e.cursor.gy, e.cursor.max_x), (4, 0, 4));
    assert!(e.is_consistent());
}

#[test]
fn typing_a_string() {
    let mut e = editor_on("ad", 10, 5);
    e.on_mode_change(Mode::Insert);
    e.move_horizontal(1);
    insert_str_to_rope(&mut e, "bc");
    assert_eq!(text(&e), "abcd");
    assert_eq!(e.cursor.gx, 3);
    insert_str_to_rope(&mut e, "");
    assert_eq!(text(&e), "abcd");
}

#[test]
fn typing_in_normal_mode_keeps_the_cursor_on_the_line() {
    let mut e = editor_on("ab", 10, 5);
    e.move_horizontal(1);
    insert_char_to_rope(&mut e, 'x');
    assert_eq!(text(&e), "axb");
    assert_eq!(e.cursor.gx, 2);
    insert_char_to_rope(&mut e, 'y');
    assert_eq!(text(&e), "axyb");
    assert_eq!(e.cursor.gx, 3);
}

#[test]
fn typing_behind_a_tab_counts_its_columns() {
    let mut e = editor_on("\tb", 10, 5);
    e.on_mode_change(Mode::Insert);
    for _ in 0..4 {
        e.move_horizontal(1);
    }
    assert_eq!(e.cursor.gx, 4);
    insert_char_to_rope(&mut e, 'a');
    assert_eq!(text(&e), "\tab");
    assert_eq!(e.cursor.gx, 5);
}

#[test]
fn typing_inside_a_tab_goes_before_the_tab() {
    let mut e = editor_on("\tb", 10, 5);
    e.on_mode_change(Mode::Insert);
    e.move_horizontal(1);
    e.move_horizontal(1);
    insert_char_to_rope(&mut e, 'a');
    assert_eq!(text(&e), "a\tb");
    assert_eq!(e.cursor.gx, 1);
}

#[test]
fn indent_inserts_four_spaces() {
    let mut e = editor_on("x", 10, 5);
    e.on_mode_change(Mode::Insert);
    apply(&mut e, &EditorEvent::Indent);
    assert_eq!(text(&e), "    x");
    assert_eq!(e.cursor.gx, 4);
}

#[test]
fn enter_breaks_the_line_at_the_cursor() {
    let mut e = editor_on("hello", 10, 5);
    e.on_mode_change(Mode::Insert);
    e.move_horizontal(1);
    e.move_horizontal(1);
    break_line(&mut e);
    assert_eq!(text(&e), "he\nllo");
    assert_eq!((e.cursor.gx, e.cursor.gy), (0, 1));
    assert_eq!((e.cursor.x, e.cursor.y), (0, 1));
    assert!(e.stale);
    assert!(e.is_consistent());
}

#[test]
fn enter_on_the_last_row_scrolls() {
    let mut e = editor_on("a\nb", 10, 2);
    e.on_mode_change(Mode::Insert);
    e.move_vertical(1);
    e.move_horizontal(1);
    break_line(&mut e);
    assert_eq!(text(&e), "a\nb\n");
    assert_eq!((e.screen.t, e.cursor.y, e.cursor.gy), (1, 1, 2));
    assert_eq!(e.cursor.gx, 0);
}

#[test]
fn backspace_deletes_the_character_before_the_cursor() {
    let mut e = editor_on("abc", 10, 5);
    render(&mut e);
    e.on_mode_change(Mode::Insert);
    e.move_horizontal(1);
    e.move_horizontal(1);
    delete_left(&mut e);
    assert_eq!(text(&e), "ac");
    assert_eq!((e.cursor.gx, e.cursor.gy, e.cursor.max_x), (1, 0, 1));
    assert_eq!(row(&e, 0), "ac        ");
    assert_eq!(e.queued, vec![0]);
    assert!(!e.stale);
}

#[test]
fn backspace_at_the_start_of_a_line_joins_it_with_the_line_above() {
    let mut e = editor_on("abc\ndef\nghi", 10, 5);
    e.on_mode_change(Mode::Insert);
    e.move_vertical(1);
    delete_left(&mut e);
    assert_eq!(text(&e), "abcdef\nghi");
    assert_eq!((e.cursor.gx, e.cursor.gy), (3, 0));
    assert_eq!((e.cursor.x, e.cursor.y), (3, 0));
    assert!(e.stale);
    assert!(e.is_consistent());
}

#[test]
fn backspace_joins_across_a_carriage_return_and_line_feed() {
    let mut e = editor_on("abc\r\ndef", 10, 5);
    e.on_mode_change(Mode::Insert);
    e.move_vertical(1);
    delete_left(&mut e);
    assert_eq!(text(&e), "abcdef");
    assert_eq!((e.cursor.gx, e.cursor.gy), (3, 0));
}

#[test]
fn backspace_at_the_start_of_the_document_does_nothing() {
    let mut e = editor_on("abc", 10, 5);
    e.on_mode_change(Mode::Insert);
    e.stale = false;
    delete_left(&mut e);
    assert_eq!(text(&e), "abc");
    assert_eq!((e.cursor.gx, e.cursor.gy), (0, 0));
    assert!(!e.stale);
}

#[test]
fn backspace_behind_a_tab_takes_the_tab() {
    let mut e = editor_on("\tb", 10, 5);
    e.on_mode_change(Mode::Insert);
    for _ in 0..4 {
        e.move_horizontal(1);
    }
    delete_left(&mut e);
    assert_eq!(text(&e), "b");
    assert_eq!(e.cursor.gx, 0);
}

#[test]
fn backspace_inside_a_leading_tab_goes_to_the_start() {
    let mut e = editor_on("x\n\tb", 10, 5);
    e.on_mode_change(Mode::Insert);
    e.move_vertical(1);
    e.move_horizontal(1);
    e.move_horizontal(1);
    delete_left(&mut e);
    assert_eq!(text(&e), "x\n\tb");
    assert_eq!((e.cursor.gx, e.cursor.gy), (0, 1));
}

#[test]
fn cursor_events_move_by_their_count() {
    let mut e = editor_on("0123456789\n0123456789\n0123456789\n0123456789", 20, 5);
    apply(&mut e, &EditorEvent::Cursor(Direction::Down(2)));
    assert_eq!(e.cursor.gy, 2);
    apply(&mut e, &EditorEvent::Cursor(Direction::Right(4)));
    assert_eq!((e.cursor.gx, e.cursor.max_x), (4, 4));
    apply(&mut e, &EditorEvent::Cursor(Direction::Up(1)));
    assert_eq!((e.cursor.gx, e.cursor.gy), (4, 1));
    apply(&mut e, &EditorEvent::Cursor(Direction::Left(3)));
    assert_eq!(e.cursor.gx, 1);
    apply(&mut e, &EditorEvent::Cursor(Direction::Down(0)));
    assert_eq!((e.cursor.gx, e.cursor.gy), (1, 1));
    apply(&mut e, &EditorEvent::Cursor(Direction::Down(100)));
    assert_eq!(e.cursor.gy, 3);
    move_lines(&mut e, -1, 2);
    assert_eq!(e.cursor.gy, 1);
    move_columns(&mut e, 1, 50);
    assert_eq!(e.cursor.gx, 9);
}

#[test]
fn scroll_event_scrolls() {
    let mut e = editor_on("a\nb\nc\nd\ne\nf\ng\nh", 20, 3);
    apply(&mut e, &EditorEvent::Scroll(Direction::Down(2), Direction::Down(1)));
    assert_eq!((e.screen.t, e.cursor.y, e.cursor.gy), (2, 1, 3));
}

#[test]
fn quit_event_stops_the_editor() {
    let mut e = editor_on("a", 20, 3);
    apply(&mut e, &EditorEvent::Quit);
    assert!(!e.is_running);
}

#[test]
fn command_line_is_typed_and_corrected() {
    let mut e = editor_on("abc", 10, 5);
    e.output = String::from("old");
    e.error = EditorError::InvalidCommand(String::from("zz"));
    begin_command(&mut e);
    assert_eq!(e.mode, Mode::Command);
    assert_eq!(e.output, "");
    assert_eq!(e.error, EditorError::NONE);
    apply(&mut e, &EditorEvent::CommandPush('w'));
    apply(&mut e, &EditorEvent::CommandPush('q'));
    assert_eq!(e.command, "wq");
    pop_command(&mut e);
    assert_eq!(e.command, "w");
    apply(&mut e, &EditorEvent::CommandPop);
    assert_eq!(e.command, "");
    pop_command(&mut e);
    assert_eq!(e.command, "");
    apply(&mut e, &EditorEvent::CommandPush('x'));
    leave_command(&mut e);
    assert_eq!(e.mode, Mode::Normal);
    assert_eq!(e.command, "");
}

#[test]
fn commands_are_read_by_name() {
    let chars = |s: &str| s.chars().collect::<Vec<char>>();
    assert_eq!(parse_command(&chars("q")), Command::Quit);
    assert_eq!(parse_command(&chars("w")), Command::Write);
    assert_eq!(parse_command(&chars("lenline")), Command::LineLength);
    assert_eq!(parse_command(&chars("height")), Command::Height);
    assert_eq!(parse_command(&chars("line")), Command::Line);
    assert_eq!(parse_command(&chars("")), Command::Unknown);
    assert_eq!(parse_command(&chars("qq")), Command::Unknown);
    assert_eq!(parse_command(&chars("Q")), Command::Unknown);
    assert_eq!(parse_command(&chars("lin")), Command::Unknown);
}

#[test]
fn an_unknown_command_is_reported() {
    let mut e = editor_on("abc", 10, 5);
    begin_command(&mut e);
    e.command = String::from("frobnicate");
    run_command(&mut e);
    assert_eq!(e.error, EditorError::InvalidCommand(String::from("frobnicate")));
    assert_eq!(e.mode, Mode::Normal);
    assert_eq!(e.command, "");
    assert!(e.is_running);
    assert!(!e.saving);
}

#[test]
fn write_asks_for_a_save_where_the_document_has_a_file() {
    let mut e = Editor::new(
        Rope::from_str("abc"),
        Some(String::from("notes.txt")),
        ScreenVector::new(0, 0, 10, 5),
    );
    e.error = EditorError::InvalidCommand(String::from("zz"));
    e.command = String::from("w");
    run_command(&mut e);
    assert!(e.saving);
    assert_eq!(e.error, EditorError::NONE);
    assert!(e.is_running);
}

#[test]
fn write_is_refused_where_the_document_has_no_file() {
    let mut e = editor_on("abc", 10, 5);
    e.command = String::from("w");
    run_command(&mut e);
    assert!(!e.saving);
    assert_eq!(e.error, EditorError::InvalidCommand(String::from("w")));
}

#[test]
fn commands_that_print() {
    let mut e = editor_on("hello world\nab", 10, 7);
    carry_out(&mut e, Command::LineLength);
    assert_eq!(e.output, "10");
    carry_out(&mut e, Command::Height);
    assert_eq!(e.output, "7");
    carry_out(&mut e, Command::Line);
    assert_eq!(e.output, "hello world");
    e.move_vertical(1);
    carry_out(&mut e, Command::LineLength);
    assert_eq!(e.output, "1");
    assert_eq!(end_of_line_without_new_line(&e), 1);
    e.on_mode_change(Mode::Insert);
    assert_eq!(end_of_line_without_new_line(&e), 2);
}

#[test]
fn modifiers_from_bits() {
    assert_eq!(KeyModifier::from_bits(0), KeyModifier::NONE);
    assert_eq!(KeyModifier::from_bits(1), KeyModifier::Shift);
    assert_eq!(KeyModifier::from_bits(2), KeyModifier::Control);
    assert_eq!(KeyModifier::from_bits(4), KeyModifier::Alt);
    assert_eq!(KeyModifier::from_bits(3), KeyModifier::NONE);
    assert_eq!(KeyModifier::from_bits(8), KeyModifier::NONE);
    assert_eq!(KeyModifier::from_bits(5), KeyModifier::NONE);
}
