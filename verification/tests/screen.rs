use revim::screen::string_to_vec;

#[test]
fn test_string_to_vec_over_filled() {
    let width = 5;
    let height = 5;
    let string = string_to_vec(width, height, "123\n123\n1\n");
    let true_output = vec![
        '1', '2', '3', ' ', ' ', '1', '2', '3', ' ', ' ', '1', ' ', ' ', ' ', ' ', ' ', ' ',
        ' ', ' ', ' ', ' ', ' ', ' ', ' ', ' ',
    ];
    assert_eq!(string, true_output);
}

#[test]
fn test_string_to_vec_empty() {
    let width = 5;
    let height = 5;
    let string = string_to_vec(width, height, "");
    let true_output = vec![
        ' ', ' ', ' ', ' ', ' ', ' ', ' ', ' ', ' ', ' ', ' ', ' ', ' ', ' ', ' ', ' ', ' ',
        ' ', ' ', ' ', ' ', ' ', ' ', ' ', ' ',
    ];
    assert_eq!(string, true_output);
}

#[test]
fn test_string_to_vec_line_one() {
    let width = 5;
    let height = 5;
    let string = string_to_vec(width, height, "123");
    let true_output = vec![
        '1', '2', '3', ' ', ' ', ' ', ' ', ' ', ' ', ' ', ' ', ' ', ' ', ' ', ' ', ' ', ' ',
        ' ', ' ', ' ', ' ', ' ', ' ', ' ', ' ',
    ];
    assert_eq!(string, true_output);
}

#[test]
fn string_to_vec_cuts_long_lines_and_drops_lines_below_the_grid() {
    let grid = string_to_vec(3, 2, "abcdef\nxy\nlost");
    assert_eq!(grid.iter().collect::<String>(), "abcxy ");
}

#[test]
fn string_to_vec_expands_tabs() {
    let grid = string_to_vec(6, 1, "\ta\tb");
    assert_eq!(grid.iter().collect::<String>(), "    a ");
}

#[test]
fn string_to_vec_strips_carriage_returns_before_line_feeds() {
    let grid = string_to_vec(3, 3, "a\r\nb\r\n\r\n");
    assert_eq!(grid.iter().collect::<String>(), "a  b     ");
    let grid = string_to_vec(3, 1, "a\rb");
    assert_eq!(grid, vec!['a', '\r', 'b']);
}

#[test]
fn string_to_vec_of_no_cells() {
    assert!(string_to_vec(0, 5, "abc").is_empty());
    assert!(string_to_vec(5, 0, "abc").is_empty());
}
