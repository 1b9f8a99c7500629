use tmuxy_core::executor::parse_pane_info;
use tmuxy_core::targets::{fix_target_session, validate_and_fix_target};
use tmuxy_core::text::split_lines;

#[test]
fn test_pane_info_parsing() {
    let output = "80,24,5,10";
    let (width, height, cursor_x, cursor_y) = parse_pane_info(output).unwrap();

    assert_eq!(width, 80);
    assert_eq!(height, 24);
    assert_eq!(cursor_x, 5);
    assert_eq!(cursor_y, 10);
}

#[test]
fn test_capture_pane_parsing() {
    let content = "line1\nline2\nline3".to_string();
    let chars: Vec<char> = content.chars().collect();
    let lines: Vec<String> = split_lines(&chars).iter().map(|l| l.iter().collect()).collect();

    assert_eq!(lines.len(), 3);
    assert_eq!(lines[0], "line1");
    assert_eq!(lines[2], "line3");
}

#[test]
fn test_fix_target_session_pane_id() {
    // Pane IDs should not be modified
    assert_eq!(fix_target_session("tmuxy", "%0", "select-pane"), "%0");
    assert_eq!(fix_target_session("tmuxy", "%123", "swap-pane"), "%123");
}

#[test]
fn test_fix_target_session_window_id() {
    // Window IDs (@N) should not be modified
    assert_eq!(fix_target_session("tmuxy", "@0", "kill-window"), "@0");
    assert_eq!(fix_target_session("tmuxy", "@5", "select-window"), "@5");
}

#[test]
fn test_fix_target_session_colon_prefix() {
    // :N means "window N in current session" - should prepend session
    assert_eq!(fix_target_session("tmuxy", ":1234", "new-window"), "tmuxy:1234");
    assert_eq!(fix_target_session("tmuxy", ":0", "select-window"), "tmuxy:0");
}

#[test]
fn test_fix_target_session_explicit_session() {
    // session:window should not be modified
    assert_eq!(fix_target_session("tmuxy", "other:0", "new-window"), "other:0");
    assert_eq!(fix_target_session("tmuxy", "mysession:5", "kill-window"), "mysession:5");
}

#[test]
fn test_fix_target_session_bare_number() {
    // Bare numbers for window commands should get session prepended
    assert_eq!(fix_target_session("tmuxy", "1234", "new-window"), "tmuxy:1234");
    assert_eq!(fix_target_session("tmuxy", "0", "select-window"), "tmuxy:0");
    assert_eq!(fix_target_session("tmuxy", "5", "kill-window"), "tmuxy:5");
}

#[test]
fn test_validate_and_fix_target_new_window() {
    // new-window with :N target should get session prepended
    let result = validate_and_fix_target("tmuxy", "new-window -d -t :1234 -n \"test\"", "new-window").unwrap();
    assert_eq!(result, "new-window -d -t tmuxy:1234 -n \"test\"");
}

#[test]
fn test_validate_and_fix_target_select_window() {
    // select-window with bare number should get session prepended
    let result = validate_and_fix_target("tmuxy", "select-window -t 5", "select-window").unwrap();
    assert_eq!(result, "select-window -t tmuxy:5");
}

#[test]
fn test_validate_and_fix_target_pane_commands() {
    // Commands with pane IDs should not modify the target
    let result = validate_and_fix_target("tmuxy", "swap-pane -s %0 -t %1", "swap-pane").unwrap();
    assert_eq!(result, "swap-pane -s %0 -t %1");
}
