use termgrid::reflow::reflow;
use termgrid::textdisplay::grid_dims;
use termgrid::textdisplay::Buffer;
use termgrid::viewport::select;

fn lines(xs: &[&str]) -> Vec<String> {
    xs.iter().map(|s| s.to_string()).collect()
}

#[test]
fn reflow_chunks_in_order() {
    let rows = reflow(&lines(&["abcdef"]), 4);
    assert_eq!(rows, lines(&["abcd", "ef"]));
}

#[test]
fn reflow_concatenation_reproduces_line() {
    let input = "the quick brown fox jumps over the lazy dog";
    for width in 1..=10usize {
        let rows = reflow(&lines(&[input]), width);
        let glued: String = rows.concat();
        assert_eq!(glued, input);
        for row in &rows {
            assert!(row.chars().count() <= width);
        }
    }
}

#[test]
fn reflow_row_count_formula() {
    for width in 1..=6usize {
        for len in 0..=18usize {
            let line: String = "x".repeat(len);
            let rows = reflow(&lines(&[&line]), width);
            let expected = if len == 0 { 1 } else { (len + width - 1) / width };
            let expected = expected.max(1);
            assert_eq!(rows.len(), expected);
        }
    }
}

#[test]
fn reflow_exact_multiple_has_no_trailing_empty_row() {
    let rows = reflow(&lines(&["abcd"]), 2);
    assert_eq!(rows, lines(&["ab", "cd"]));
}

#[test]
fn reflow_empty_line_yields_one_empty_row() {
    let rows = reflow(&lines(&["", "ab", ""]), 5);
    assert_eq!(rows, lines(&["", "ab", ""]));
}

#[test]
fn reflow_zero_width_is_identity() {
    let input = lines(&["abcdefghij", "", "k"]);
    let rows = reflow(&input, 0);
    assert_eq!(rows, input);
}

#[test]
fn reflow_never_merges_lines() {
    let rows = reflow(&lines(&["abc", "de"]), 2);
    assert_eq!(rows, lines(&["ab", "c", "de"]));
}

#[test]
fn viewport_returns_everything_that_fits() {
    let rows = lines(&["a", "b"]);
    assert_eq!(select(&rows, 3), rows);
    assert_eq!(select(&rows, 2), rows);
}

#[test]
fn viewport_keeps_only_the_tail() {
    let rows = lines(&["a", "b", "c", "d"]);
    let window = select(&rows, 2);
    assert_eq!(window, lines(&["c", "d"]));
    assert!(window.len() <= 2);
}

#[test]
fn viewport_window_is_a_suffix() {
    let rows = lines(&["1", "2", "3", "4", "5"]);
    for capacity in 0..=6usize {
        let window = select(&rows, capacity);
        assert!(window.len() <= capacity.max(0));
        let start = rows.len() - window.len();
        assert_eq!(window.as_slice(), &rows[start..]);
    }
}

#[test]
fn display_buffer_joins_input_onto_open_line() {
    let b = Buffer::new(lines(&["one", "two"]), "-live");
    assert_eq!(b.content(), &lines(&["one", "two-live"]));
}

#[test]
fn display_buffer_on_empty_history_holds_the_input() {
    let b = Buffer::new(Vec::new(), "live");
    assert_eq!(b.content(), &lines(&["live"]));
}

#[test]
fn display_buffer_fit_in_screen_reflows() {
    let b = Buffer::new(lines(&["abcdefghij", "k"]), "xy");
    assert_eq!(b.fit_in_screen(4), lines(&["abcd", "efgh", "ij", "kxy"]));
    assert_eq!(b.fit_in_screen(0), lines(&["abcdefghij", "kxy"]));
}

#[test]
fn grid_dims_divides_pixels_by_glyphs() {
    assert_eq!(grid_dims(1024, 768, 10, 16), (102, 48));
    assert_eq!(grid_dims(9, 15, 10, 16), (0, 0));
}
