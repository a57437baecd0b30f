use termgrid::cursor::locate;

fn lines(xs: &[&str]) -> Vec<String> {
    xs.iter().map(|s| s.to_string()).collect()
}

#[test]
fn cursor_cell_with_wrapped_history() {
    // width 10, capacity 3, history ["abcdefghij", "k"], cursor offset 2 in
    // the live input: the only line above the open one is an exact multiple
    // of the width (one row, no extra), the open line ends at column 1, so
    // the cursor lands at column 3 on row 1.
    let history = lines(&["abcdefghij", "k"]);
    assert_eq!(locate(&history, 2, 10, 3), (3, 1));
}

#[test]
fn cursor_cell_on_empty_history() {
    assert_eq!(locate(&Vec::new(), 0, 10, 3), (0, 0));
    assert_eq!(locate(&Vec::new(), 7, 10, 3), (7, 0));
}

#[test]
fn cursor_cell_zero_width_bypasses_the_modulus() {
    let history = lines(&["abc", "d"]);
    assert_eq!(locate(&history, 5, 0, 3), (0, 0));
}

#[test]
fn cursor_wraps_into_the_next_row() {
    // Open line ends at column 8; offset 5 passes the width-10 boundary.
    let history = lines(&["12345678"]);
    assert_eq!(locate(&history, 5, 10, 4), (3, 1));
}

#[test]
fn cursor_row_saturates_at_the_last_visible_row() {
    // Six one-row lines above the open line, but only three visible rows:
    // the row base pins to the bottom of the viewport.
    let history = lines(&["a", "b", "c", "d", "e", "f", "g"]);
    let (col, row) = locate(&history, 0, 10, 3);
    assert_eq!(col, 1);
    assert_eq!(row, 2);
}

#[test]
fn cursor_column_stays_below_the_width() {
    let history = lines(&["abcde", "fg"]);
    for offset in 0..30usize {
        let (col, _) = locate(&history, offset, 7, 3);
        assert!(col < 7);
    }
}

#[test]
fn cursor_row_stays_below_capacity_before_wrapping() {
    // Open line ends at column 2 on width 6: offsets 0..4 keep the cursor on
    // the open line's first display row, so the row stays within capacity.
    let history = lines(&["aa", "bb", "cc", "dd", "ee", "ff", "gg", "hh"]);
    for offset in 0..4usize {
        let (col, row) = locate(&history, offset, 6, 3);
        assert!(col < 6);
        assert!(row < 3);
    }
}

#[test]
fn cursor_counts_empty_history_lines_as_one_row() {
    // An empty line above the open one still occupies one display row.
    let history = lines(&["", "x"]);
    assert_eq!(locate(&history, 0, 10, 5), (1, 1));
}
