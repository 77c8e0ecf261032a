use revim::dimensions::Dimensions;
use revim::event::{Direction, EditorEvent, Event, KeyCode, KeyEvent, KeyModifier};
use revim::position::Position;
use revim::support::usubtraction;
use revim::text::{
    append_chars, chars_of, count_in, decimal_of, digit_of, display_width, ends_line, expanded,
    fitted, leading_chars, lines_of, padded_row, string_of, trimmed, trimmed_len, TAB_WIDTH,
};
use revim::textbuffer::TextBuffer;
use ropey::Rope;

fn chars(s: &str) -> Vec<char> {
    s.chars().collect()
}

#[test]
fn strings_and_characters_convert_both_ways() {
    assert_eq!(chars_of("héllo"), vec!['h', 'é', 'l', 'l', 'o']);
    assert_eq!(chars_of(""), Vec::<char>::new());
    assert_eq!(string_of(&vec!['a', 'ß', 'c']), "aßc");
    assert_eq!(string_of(&Vec::new()), "");
}

#[test]
fn line_endings() {
    for c in ['\n', '\r', '\u{0B}', '\u{0C}', '\u{85}', '\u{2028}', '\u{2029}'] {
        assert!(ends_line(c));
    }
    for c in ['a', ' ', '\t', '\0', '\u{2027}'] {
        assert!(!ends_line(c));
    }
}

#[test]
fn trimming_takes_the_line_break_only() {
    assert_eq!(trimmed_len(&chars("abc\r\n")), 3);
    assert_eq!(trimmed_len(&chars("abc")), 3);
    assert_eq!(trimmed_len(&chars("ab \n")), 3);
    assert_eq!(trimmed_len(&chars("\n\n")), 0);
    assert_eq!(trimmed_len(&chars("")), 0);
    assert_eq!(trimmed_len(&chars("a\nb")), 3);
    assert_eq!(trimmed(&chars("a\nb\u{2028}")), chars("a\nb"));
}

#[test]
fn tabs_are_four_columns() {
    assert_eq!(TAB_WIDTH, 4);
    assert_eq!(display_width(&chars("\ta\t")), 9);
    assert_eq!(display_width(&chars("abc")), 3);
    assert_eq!(display_width(&chars("")), 0);
    assert_eq!(expanded(&chars("a\tb")), chars("a    b"));
    assert_eq!(expanded(&chars("\t\t")), chars("        "));
}

#[test]
fn fitting_cuts_or_fills() {
    assert_eq!(fitted(&chars("abc"), 5), chars("abc  "));
    assert_eq!(fitted(&chars("abcdef"), 3), chars("abc"));
    assert_eq!(fitted(&chars("abc"), 0), chars(""));
    assert_eq!(padded_row(&chars("\tab"), 5), chars("    a"));
    assert_eq!(padded_row(&chars("a\tb"), 8), chars("a    b  "));
}

#[test]
fn lines_split_at_line_feeds() {
    let show = |s: &str| lines_of(&chars(s)).iter().map(|l| l.iter().collect::<String>()).collect::<Vec<_>>();
    assert_eq!(show("a\nb"), vec!["a", "b"]);
    assert_eq!(show("a\nb\n"), vec!["a", "b"]);
    assert_eq!(show("a\r\nb\r\n"), vec!["a", "b"]);
    assert_eq!(show("a\n\nb"), vec!["a", "", "b"]);
    assert_eq!(show("\n"), vec![""]);
    assert_eq!(show(""), Vec::<String>::new());
    assert_eq!(show("a\rb"), vec!["a\rb"]);
    assert_eq!(show("a\r\r\n"), vec!["a\r"]);
    assert_eq!(show("ab\r"), vec!["ab\r"]);
    for s in ["a\nb", "a\r\nb\n\n", "", "\n", "x\ry\r\n", "no newline"] {
        assert_eq!(show(s), s.lines().collect::<Vec<_>>());
    }
}

#[test]
fn counting_and_digits() {
    assert_eq!(count_in(&chars("banana"), 'a'), 3);
    assert_eq!(count_in(&chars("banana"), 'x'), 0);
    assert_eq!(digit_of(0), '0');
    assert_eq!(digit_of(9), '9');
    assert_eq!(decimal_of(0), chars("0"));
    assert_eq!(decimal_of(7), chars("7"));
    assert_eq!(decimal_of(10), chars("10"));
    assert_eq!(decimal_of(9081726354), chars("9081726354"));
    assert_eq!(string_of(&decimal_of(usize::MAX)), usize::MAX.to_string());
    let mut v = chars("ab");
    append_chars(&mut v, &chars("cd"));
    assert_eq!(v, chars("abcd"));
}

#[test]
fn leading_characters_within_a_column() {
    assert_eq!(leading_chars(&chars("abc"), 0), (0, 0));
    assert_eq!(leading_chars(&chars("abc"), 2), (2, 2));
    assert_eq!(leading_chars(&chars("abc"), 9), (3, 3));
    assert_eq!(leading_chars(&chars("\tab"), 3), (0, 0));
    assert_eq!(leading_chars(&chars("\tab"), 4), (1, 4));
    assert_eq!(leading_chars(&chars("a\tb"), 3), (1, 1));
    assert_eq!(leading_chars(&chars("a\tb"), 5), (2, 5));
    assert_eq!(leading_chars(&chars(""), 5), (0, 0));
}

#[test]
fn subtraction_stops_at_zero() {
    assert_eq!(usubtraction(5usize, 3usize), 2);
    assert_eq!(usubtraction(3usize, 5usize), 0);
    assert_eq!(usubtraction(3u16, 3u16), 0);
    assert_eq!(usubtraction(255u8, 1u8), 254);
    assert_eq!(usubtraction(0u64, u64::MAX), 0);
    assert_eq!(usubtraction(u128::MAX, 1u128), u128::MAX - 1);
    assert_eq!(usubtraction(7u32, 0u32), 7);
}

#[test]
fn positions_move_up_to_a_bound() {
    let mut p = Position::new(5, 5);
    p.move_up(2, 1);
    assert_eq!((p.x, p.y), (5, 3));
    p.move_up(3, 3);
    assert_eq!((p.x, p.y), (5, 3));
    p.move_down(4, 10);
    assert_eq!((p.x, p.y), (5, 7));
    p.move_down(4, 7);
    assert_eq!((p.x, p.y), (5, 7));
    p.move_left(5, 0);
    assert_eq!((p.x, p.y), (0, 7));
    p.move_left(1, 0);
    assert_eq!((p.x, p.y), (0, 7));
    p.move_right(3, 2);
    assert_eq!((p.x, p.y), (3, 7));
    p.move_right(3, 2);
    assert_eq!((p.x, p.y), (3, 7));
}

#[test]
fn plain_values() {
    let d = Dimensions::new(80, 24);
    assert_eq!((d.w, d.h), (80, 24));
    let k = KeyEvent::new(KeyCode::F(5), KeyModifier::Alt);
    assert_eq!(k.code, KeyCode::F(5));
    assert_eq!(k.modifier, KeyModifier::Alt);
    assert_eq!(Event::Key(k), Event::Key(KeyEvent::new(KeyCode::F(5), KeyModifier::Alt)));
    assert_ne!(Event::Resize(1, 2), Event::Resize(2, 1));
    assert_ne!(
        EditorEvent::Scroll(Direction::Up(1), Direction::Down(1)),
        EditorEvent::Scroll(Direction::Down(1), Direction::Up(1))
    );
}

#[test]
fn text_buffer_lines() {
    let b = TextBuffer::new(Rope::from_str("abc\r\nde\n\nf"), Some(String::from("a.txt")));
    assert_eq!(b.len_lines(), 4);
    assert_eq!(b.line_len(0), 3);
    assert_eq!(b.line_len(1), 2);
    assert_eq!(b.line_len(2), 0);
    assert_eq!(b.line_len(3), 1);
    assert_eq!(b.checked_line_len(3), Some(1));
    assert_eq!(b.checked_line_len(4), None);
    assert_eq!(b._get_text(), "abc\r\nde\n\nf");
    assert_eq!(b._get_path(), "a.txt");
    assert_eq!(TextBuffer::new(Rope::new(), None)._get_path(), "No Path");
    assert_eq!(TextBuffer::new(Rope::new(), None).len_lines(), 1);
    assert_eq!(TextBuffer::new(Rope::new(), None).line_len(0), 0);
}

#[test]
fn text_buffer_line_to_line() {
    let b = TextBuffer::new(Rope::from_str("abc\r\nde\n\nf"), None);
    assert_eq!(b.line_to_line(0, 2), "abc\r\nde\r\n");
    assert_eq!(b.line_to_line(1, 4), "de\r\n\r\nf\r\n");
    assert_eq!(b.line_to_line(3, 100), "f\r\n");
    assert_eq!(b.line_to_line(2, 2), "");
    assert_eq!(b.line_to_line(3, 1), "");
    assert_eq!(b.line_to_line(9, 12), "");
}

#[test]
fn text_buffer_remove() {
    let mut b = TextBuffer::new(Rope::from_str("hello world"), None);
    b._remove(5, 11);
    assert_eq!(b._get_text(), "hello");
    b._remove(0, 0);
    assert_eq!(b._get_text(), "hello");
    b._remove(1, 4);
    assert_eq!(b._get_text(), "ho");
    b._remove(0, 2);
    assert_eq!(b._get_text(), "");
    assert_eq!(b.len_lines(), 1);
}
