use termgrid::resources::bytes_contain_nil;
use termgrid::resources::resource_name_to_path;
use termgrid::resources::Resources;
use termgrid::shell::append_prompt;
use termgrid::shell::prompt;
use termgrid::shell::tokenize;
use termgrid::shell::Event;
use termgrid::shell::Shell;

fn type_line(shell: &mut Shell, text: &str) {
    for c in text.chars() {
        shell.handle_event(Event::ReceivedCharacter(c));
    }
}

fn run_line(shell: &mut Shell, text: &str) -> Option<String> {
    type_line(shell, text);
    let committed = shell.handle_event(Event::Enter);
    if let Some(ref line) = committed {
        if let Some(output) = shell.process_cmd(line) {
            shell.push_output(&output);
        }
    }
    committed
}

#[test]
fn fresh_shell_shows_the_prompt() {
    let shell = Shell::new(80, 24, 0);
    assert_eq!(shell.display_rows(), vec!["user:/$ ".to_string()]);
    assert_eq!(shell.cursor_cell(), (8, 0));
}

#[test]
fn typing_extends_the_open_line() {
    let mut shell = Shell::new(80, 24, 0);
    type_line(&mut shell, "ls");
    assert_eq!(shell.display_rows(), vec!["user:/$ ls".to_string()]);
    assert_eq!(shell.cursor_cell(), (10, 0));
}

#[test]
fn echo_round_trip() {
    let mut shell = Shell::new(80, 24, 0);
    let committed = run_line(&mut shell, "echo hi there");
    assert_eq!(committed, Some("echo hi there".to_string()));
    assert_eq!(
        shell.display_rows(),
        vec![
            "user:/$ echo hi there".to_string(),
            "hi there ".to_string(),
            "user:/$ ".to_string(),
        ]
    );
}

#[test]
fn ls_prints_the_fixed_listing() {
    let mut shell = Shell::new(80, 24, 0);
    run_line(&mut shell, "ls");
    let rows = shell.display_rows();
    assert_eq!(rows[0], "user:/$ ls");
    assert_eq!(rows[1], "bin    dev    usr\n");
    assert_eq!(rows[2], "user:/$ ");
}

#[test]
fn blank_command_yields_a_fresh_prompt() {
    let mut shell = Shell::new(80, 24, 0);
    let committed = run_line(&mut shell, "   ");
    assert_eq!(committed, Some("   ".to_string()));
    assert_eq!(
        shell.display_rows(),
        vec!["user:/$    ".to_string(), "user:/$ ".to_string()]
    );
}

#[test]
fn unknown_commands_go_to_the_interpreter() {
    let shell = Shell::new(80, 24, 0);
    assert_eq!(shell.process_cmd("print(1)"), None);
    assert_eq!(shell.process_cmd("echo x"), Some(vec!["x ".to_string(), "user:/$ ".to_string()]));
    assert_eq!(
        shell.process_cmd("ls"),
        Some(vec!["bin    dev    usr\n".to_string(), "user:/$ ".to_string()])
    );
    assert_eq!(shell.process_cmd(""), Some(vec!["user:/$ ".to_string()]));
}

#[test]
fn interpreter_output_is_pushed_with_a_prompt() {
    let mut shell = Shell::new(80, 24, 0);
    type_line(&mut shell, "print(1)");
    let committed = shell.handle_event(Event::Enter).unwrap();
    assert_eq!(shell.process_cmd(&committed), None);
    let mut output = vec!["1".to_string(), String::new()];
    append_prompt(&mut output);
    shell.push_output(&output);
    assert_eq!(
        shell.display_rows(),
        vec![
            "user:/$ print(1)".to_string(),
            "1".to_string(),
            "user:/$ ".to_string(),
        ]
    );
}

#[test]
fn recall_previous_on_empty_history_changes_nothing() {
    let mut shell = Shell::new(80, 24, 0);
    type_line(&mut shell, "ab");
    shell.handle_event(Event::Left);
    shell.handle_event(Event::Previous);
    assert_eq!(shell.buffer().input().as_str(), "ab");
    assert_eq!(shell.buffer().cursor_offset(), 1);
}

#[test]
fn recall_loads_the_previous_line_with_the_cursor_at_its_end() {
    let mut shell = Shell::new(80, 24, 0);
    run_line(&mut shell, "echo one");
    run_line(&mut shell, "ls");
    shell.handle_event(Event::Previous);
    assert_eq!(shell.buffer().input().as_str(), "ls");
    assert_eq!(shell.buffer().cursor_offset(), 2);
    shell.handle_event(Event::Previous);
    assert_eq!(shell.buffer().input().as_str(), "echo one");
    assert_eq!(shell.buffer().cursor_offset(), 8);
    shell.handle_event(Event::Next);
    assert_eq!(shell.buffer().input().as_str(), "ls");
}

#[test]
fn arrows_move_the_cursor_within_the_input() {
    let mut shell = Shell::new(80, 24, 0);
    type_line(&mut shell, "ab");
    shell.handle_event(Event::Left);
    assert_eq!(shell.buffer().cursor_offset(), 1);
    shell.handle_event(Event::Left);
    shell.handle_event(Event::Left);
    assert_eq!(shell.buffer().cursor_offset(), 0);
    shell.handle_event(Event::Right);
    assert_eq!(shell.buffer().cursor_offset(), 1);
}

#[test]
fn backspace_event_deletes_at_the_cursor() {
    let mut shell = Shell::new(80, 24, 0);
    type_line(&mut shell, "abc");
    shell.handle_event(Event::Left);
    shell.handle_event(Event::Backspace);
    assert_eq!(shell.buffer().input().as_str(), "ac");
}

#[test]
fn resize_changes_the_grid_and_the_reflow() {
    let mut shell = Shell::new(80, 3, 0);
    type_line(&mut shell, "abcdefgh");
    shell.handle_event(Event::Resized(4, 2));
    assert_eq!(shell.buffer().width(), 4);
    assert_eq!(shell.capacity(), 2);
    // "user:/$ abcdefgh" reflowed at width 4 is four rows; only the last
    // two are visible.
    assert_eq!(shell.display_rows(), vec!["abcd".to_string(), "efgh".to_string()]);
}

#[test]
fn scenario_wrapped_history_cursor() {
    // width 10, capacity 3: the committed history is one full row plus an
    // open line of one character; two typed characters put the cursor at
    // column 3 on row 1.
    let mut shell = Shell::new(10, 3, 0);
    type_line(&mut shell, "xy");
    let history = vec!["abcdefghij".to_string(), "k".to_string()];
    let cell = termgrid::cursor::locate(&history, shell.buffer().cursor_offset(), 10, 3);
    assert_eq!(shell.buffer().cursor_offset(), 2);
    assert_eq!(cell, (3, 1));
}

#[test]
fn release_then_keys_drive_the_blink_states() {
    let mut shell = Shell::new(80, 24, 0);
    shell.handle_event(Event::Release);
    assert!(shell.tick(100));
    type_line(&mut shell, "a");
    assert!(shell.tick(5000));
    shell.handle_event(Event::Release);
    assert!(shell.tick(5600));
    assert!(!shell.tick(6100));
}

#[test]
fn tokenize_splits_on_whitespace() {
    assert_eq!(tokenize("echo a  b"), vec!["echo", "a", "b"]);
    assert_eq!(tokenize("  \t "), Vec::<String>::new());
    assert_eq!(tokenize(""), Vec::<String>::new());
    assert_eq!(tokenize(" one "), vec!["one"]);
}

#[test]
fn prompt_text_is_the_user_prompt() {
    assert_eq!(prompt(), "user:/$ ");
}

#[test]
fn append_prompt_joins_or_starts_a_line() {
    let mut lines = vec!["out".to_string(), String::new()];
    append_prompt(&mut lines);
    assert_eq!(lines, vec!["out".to_string(), "user:/$ ".to_string()]);
    let mut empty: Vec<String> = Vec::new();
    append_prompt(&mut empty);
    assert_eq!(empty, vec!["user:/$ ".to_string()]);
}

#[test]
fn resource_paths_sit_below_the_root() {
    assert_eq!(resource_name_to_path("assets", "fonts/mono.ttf"), "assets/fonts/mono.ttf");
    let res = Resources::new("root".to_string());
    assert_eq!(res.resource_path("shaders/text.vert"), "root/shaders/text.vert");
}

#[test]
fn nil_bytes_are_found() {
    assert!(bytes_contain_nil(&vec![1, 2, 0, 3]));
    assert!(!bytes_contain_nil(&vec![1, 2, 3]));
    assert!(!bytes_contain_nil(&Vec::new()));
}
