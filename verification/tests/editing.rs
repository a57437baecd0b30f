use termgrid::blink::Blink;
use termgrid::blink::BlinkState;
use termgrid::buffer::LogicalBuffer;
use termgrid::recall::RecallHistory;

#[test]
fn insert_at_the_cursor_not_at_the_end() {
    let mut b = LogicalBuffer::new(80);
    b.insert('a');
    b.insert('c');
    b.move_cursor(-1);
    b.insert('b');
    assert_eq!(b.input().as_str(), "abc");
    assert_eq!(b.cursor_offset(), 2);
}

#[test]
fn backspace_removes_before_the_cursor() {
    let mut b = LogicalBuffer::new(80);
    b.insert('x');
    b.insert('y');
    b.insert('z');
    b.move_cursor(-1);
    b.backspace();
    assert_eq!(b.input().as_str(), "xz");
    assert_eq!(b.cursor_offset(), 1);
}

#[test]
fn backspace_at_offset_zero_is_a_no_op() {
    let mut b = LogicalBuffer::new(80);
    b.insert('q');
    b.move_cursor(-5);
    assert_eq!(b.cursor_offset(), 0);
    b.backspace();
    assert_eq!(b.input().as_str(), "q");
    assert_eq!(b.cursor_offset(), 0);
}

#[test]
fn move_cursor_clamps_to_the_input() {
    let mut b = LogicalBuffer::new(80);
    b.insert('a');
    b.insert('b');
    b.move_cursor(100);
    assert_eq!(b.cursor_offset(), 2);
    b.move_cursor(-100);
    assert_eq!(b.cursor_offset(), 0);
    b.move_cursor(1);
    assert_eq!(b.cursor_offset(), 1);
}

#[test]
fn cursor_stays_in_bounds_across_event_storms() {
    let mut b = LogicalBuffer::new(80);
    let moves: [i32; 7] = [3, -1, -7, 2, 5, -2, 9];
    for round in 0..moves.len() {
        b.insert('k');
        b.move_cursor(moves[round]);
        assert!(b.cursor_offset() <= b.input().chars().count());
        if round % 2 == 0 {
            b.backspace();
            assert!(b.cursor_offset() <= b.input().chars().count());
        }
    }
}

#[test]
fn commit_joins_opens_and_clears() {
    let mut b = LogicalBuffer::new(80);
    b.append("user$ ");
    b.insert('l');
    b.insert('s');
    let text = b.commit();
    assert_eq!(text, "ls");
    assert_eq!(b.history(), &vec!["user$ ls".to_string(), String::new()]);
    assert_eq!(b.input().as_str(), "");
    assert_eq!(b.cursor_offset(), 0);
}

#[test]
fn append_and_newline_extend_the_history() {
    let mut b = LogicalBuffer::new(80);
    b.append("first");
    b.newline();
    b.append("second");
    assert_eq!(b.history(), &vec!["first".to_string(), "second".to_string()]);
}

#[test]
fn replace_input_puts_the_cursor_at_the_end() {
    let mut b = LogicalBuffer::new(80);
    b.insert('a');
    b.replace_input("recalled".to_string());
    assert_eq!(b.input().as_str(), "recalled");
    assert_eq!(b.cursor_offset(), 8);
}

#[test]
fn resize_touches_only_the_width() {
    let mut b = LogicalBuffer::new(80);
    b.insert('a');
    b.resize(40);
    assert_eq!(b.width(), 40);
    assert_eq!(b.input().as_str(), "a");
    assert_eq!(b.cursor_offset(), 1);
}

#[test]
fn recall_walks_backwards_and_forwards() {
    let mut r = RecallHistory::new();
    r.record("one".to_string());
    r.record("two".to_string());
    assert_eq!(r.pointer(), 2);
    assert_eq!(r.recall_previous(), Some("two".to_string()));
    assert_eq!(r.recall_previous(), Some("one".to_string()));
    assert_eq!(r.recall_previous(), None);
    assert_eq!(r.pointer(), 0);
    assert_eq!(r.recall_next(), Some("two".to_string()));
    assert_eq!(r.recall_next(), None);
    assert_eq!(r.pointer(), 1);
}

#[test]
fn recall_previous_on_empty_log_is_a_no_op() {
    let mut r = RecallHistory::new();
    assert_eq!(r.recall_previous(), None);
    assert_eq!(r.pointer(), 0);
    assert_eq!(r.entries().len(), 0);
}

#[test]
fn record_returns_to_fresh_input() {
    let mut r = RecallHistory::new();
    r.record("a".to_string());
    r.recall_previous();
    r.record("b".to_string());
    assert_eq!(r.pointer(), 2);
}

#[test]
fn blink_press_forces_visible_and_release_arms_the_trigger() {
    let mut blink = Blink::new(0);
    assert_eq!(blink.state(), BlinkState::Blinking);
    blink.press();
    assert_eq!(blink.state(), BlinkState::Visible);
    blink.release();
    assert_eq!(blink.state(), BlinkState::TriggeredBlinking);
}

#[test]
fn blink_cycle_shows_then_hides_then_restarts() {
    let mut blink = Blink::new(1000);
    assert!(blink.tick(1100)); // within the shown part of the cycle
    assert!(!blink.tick(1500)); // hidden part
    assert!(!blink.tick(2100)); // past the cycle: restarts, hidden this frame
    assert!(blink.tick(2200)); // fresh cycle, shown again
}

#[test]
fn blink_trigger_returns_to_blinking_after_the_delay() {
    let mut blink = Blink::new(0);
    blink.release();
    assert!(blink.tick(200)); // still triggered, cursor shown
    assert_eq!(blink.state(), BlinkState::TriggeredBlinking);
    assert!(blink.tick(600)); // delay passed: shown, and blinking resumes
    assert_eq!(blink.state(), BlinkState::Blinking);
}

#[test]
fn blink_visible_resets_the_timestamp() {
    let mut blink = Blink::new(0);
    blink.press();
    assert!(blink.tick(5000)); // visible always shows and restamps
    assert_eq!(blink.state(), BlinkState::Visible);
}
