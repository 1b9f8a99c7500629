use tmuxy_core::connection::{
    attach_command, decode_line, missing_session_error, new_session_command, parse_raw_line,
    should_create_session, CommandCounter,
};
use tmuxy_core::layout::{parse_layout, LayoutLeaf};
use tmuxy_core::model::{StateUpdate, TmuxDelta};
use tmuxy_core::parser::{ControlModeEvent, Parser};
use tmuxy_core::polling::{capture_state_for_session, state_fingerprint};
use tmuxy_core::executor::{parse_panes_info, parse_windows};
use tmuxy_core::stream::{default_shell, event_id, generate_session_token, session_token_from};
use tmuxy_core::{content_to_hash_string, parse_ansi_to_cells, CellColor, CellStyle, TerminalCell};

#[test]
fn tokens_are_lower_case_hexadecimal() {
    assert_eq!(session_token_from(&[0x00, 0x0f, 0xa5, 0xff]), "000fa5ff");
    assert_eq!(session_token_from(&[]), "");
    let token = generate_session_token();
    assert_eq!(token.len(), 32);
    assert!(token.chars().all(|c| matches!(c, '0'..='9' | 'a'..='f')));
    assert_ne!(generate_session_token(), token);
}

#[test]
fn shell_of_the_user() {
    assert_eq!(default_shell(Some("/usr/bin/zsh")), "zsh");
    assert_eq!(default_shell(Some("fish")), "fish");
    assert_eq!(default_shell(Some("/bin/")), "");
    assert_eq!(default_shell(None), "bash");
}

#[test]
fn deltas_are_sent_under_their_sequence_number() {
    let delta = StateUpdate::Delta { delta: TmuxDelta::new(42) };
    assert_eq!(event_id(&delta), Some("42".to_string()));
    assert!(TmuxDelta::new(42).is_empty());
    let state = capture_state_for_session("s", Vec::new(), &Vec::new(), Vec::new(), String::new())
        .unwrap();
    assert_eq!(event_id(&StateUpdate::Full { state }), None);
}

#[test]
fn connection_commands() {
    assert_eq!(
        attach_command("demo"),
        "stty cols 200 rows 50 2>/dev/null; tmux -CC attach-session -t demo"
    );
    assert_eq!(
        new_session_command("demo"),
        "stty cols 200 rows 50 2>/dev/null; tmux -CC new-session -s demo"
    );
    assert_eq!(missing_session_error("demo"), "Session 'demo' does not exist");
    assert!(should_create_session(true, "Session 'demo' does not exist"));
    assert!(!should_create_session(false, "Session 'demo' does not exist"));
    assert!(!should_create_session(true, "Failed to start tmux control mode"));
}

#[test]
fn commands_are_numbered_from_zero() {
    let mut counter = CommandCounter::new();
    assert_eq!(counter.send_command(), 0);
    assert_eq!(counter.send_command(), 1);
    assert_eq!(counter.send_commands_batch(3), 2);
    assert_eq!(counter.send_commands_batch(0), 5);
    assert_eq!(counter.command_counter(), 5);
    let mut last = CommandCounter { next: u32::MAX };
    assert_eq!(last.send_command(), u32::MAX);
    assert_eq!(last.command_counter(), 0);
}

#[test]
fn raw_lines() {
    assert_eq!(decode_line(b"%exit\r\n"), "%exit");
    assert_eq!(decode_line(b"a\rb\n\r\n"), "a\rb");
    assert_eq!(decode_line(b"caf\xc3\xa9 \xff\n"), "caf\u{e9} \u{fffd}");
    let mut parser = Parser::new();
    assert!(matches!(
        parse_raw_line(&mut parser, b"%window-add @1\r\n"),
        Some(ControlModeEvent::WindowAdd { window_id }) if window_id == "@1"
    ));
}

#[test]
fn layouts() {
    let leaf = |pane, width, height, x, y| LayoutLeaf { pane, width, height, x, y };
    let read = |s: &str| parse_layout(&s.chars().collect::<Vec<char>>());
    assert_eq!(read("abc1,80x24,0,0,5"), vec![leaf(5, 80, 24, 0, 0)]);
    assert_eq!(
        read("c1d2,159x48,0,0{79x48,0,0,0,79x48,80,0[79x24,80,0,1,79x23,80,25,2]}"),
        vec![leaf(0, 79, 48, 0, 0), leaf(1, 79, 24, 80, 0), leaf(2, 79, 23, 80, 25)]
    );
    assert_eq!(read("c1d2,80x24,0,0"), Vec::new());
    assert_eq!(read("no layout"), Vec::new());
    assert_eq!(read("c1d2,80x24,0,0{40x24,0,0,1"), Vec::new());
    assert_eq!(read("c1d2,80x24,0,0{40x24,0,0,1]"), Vec::new());
    assert_eq!(read("c1d2,80x24,0,4294967296,1"), Vec::new());
}

#[test]
fn cells_of_ansi_text() {
    let cells = parse_ansi_to_cells("ab \x1b[1;31mc\x1b[0m\nd  ", 10, 3);
    assert_eq!(cells.len(), 3);
    assert_eq!(cells[0].len(), 4);
    assert_eq!(cells[0][0], TerminalCell::new("a".to_string()));
    assert_eq!(cells[0][2], TerminalCell::new(" ".to_string()));
    let style = cells[0][3].style.as_ref().expect("the cell is styled");
    assert!(style.bold);
    assert!(!style.italic);
    assert_eq!(style.fg, Some(CellColor::Indexed(1)));
    assert_eq!(style.bg, None);
    assert_eq!(cells[1].len(), 1);
    assert!(cells[2].is_empty());
    assert_eq!(content_to_hash_string(&cells), "ab cd");
    assert!(CellStyle::default().is_empty());
    assert_eq!(
        TerminalCell::with_style("x".to_string(), CellStyle::default()),
        TerminalCell::new("x".to_string())
    );
    let inverse = CellStyle { inverse: true, ..CellStyle::default() };
    assert!(!inverse.is_empty());
    assert!(TerminalCell::with_style("x".to_string(), inverse).style.is_some());
}

#[test]
fn state_from_listings() {
    let panes = parse_panes_info(
        "%0,0,0,0,40,24,1,2,0,bash,h,0,0,0,@0,b,,\n%1,1,41,0,39,24,0,0,1,vim,h,0,0,0,@0,b,,",
    );
    let windows = parse_windows("@0,0,__%5_group_1,0\n@1,1,main,1");
    let contents = vec!["left".to_string(), "right".to_string()];
    let state = capture_state_for_session("demo", panes, &contents, windows, "st".to_string()).unwrap();
    assert_eq!(state.session_name, "demo");
    assert_eq!(state.active_window_id, Some("@1".to_string()));
    assert_eq!(state.active_pane_id, Some("%1".to_string()));
    assert_eq!((state.total_width, state.total_height), (80, 24));
    assert_eq!(content_to_hash_string(&state.panes[1].content), "right");
    assert_eq!((state.panes[0].cursor_x, state.panes[0].cursor_y), (1, 2));
    assert!(state.windows[0].is_pane_group_window);
    assert_eq!(state.windows[0].pane_group_parent_pane, Some("%5".to_string()));
    assert_eq!(state.windows[0].pane_group_index, Some(1));
    assert!(!state.windows[1].is_pane_group_window);
    assert_eq!(state_fingerprint(&state), "0:false:left|1:true:right||0:__%5_group_1:false|1:main:true");
    let panes = parse_panes_info("%0,0,0,0,40,24,1,2,0,bash,h,0,0,0,@0,b,,");
    assert_eq!(
        capture_state_for_session("demo", panes, &Vec::new(), Vec::new(), String::new()).unwrap_err(),
        "Missing pane content"
    );
}
