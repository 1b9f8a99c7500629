use tmuxy_core::parser::{ControlModeEvent, Parser};

#[test]
fn test_parse_output() {
    let mut parser = Parser::new();
    let event = parser.parse_line("%output %1 Hello World");

    match event {
        Some(ControlModeEvent::Output { pane_id, content }) => {
            assert_eq!(pane_id, "%1");
            assert_eq!(content, b"Hello World");
        }
        _ => panic!("Expected Output event"),
    }
}

#[test]
fn test_parse_output_with_escapes() {
    let mut parser = Parser::new();
    let event = parser.parse_line(r"%output %1 \033[0mHello");

    match event {
        Some(ControlModeEvent::Output { pane_id, content }) => {
            assert_eq!(pane_id, "%1");
            assert_eq!(content, b"\x1b[0mHello");
        }
        _ => panic!("Expected Output event"),
    }
}

#[test]
fn test_parse_layout_change() {
    let mut parser = Parser::new();
    let event = parser.parse_line("%layout-change @0 abc123,80x24,0,0 abc123,80x24,0,0 *");

    match event {
        Some(ControlModeEvent::LayoutChange {
            window_id,
            layout,
            visible_layout,
            flags,
        }) => {
            assert_eq!(window_id, "@0");
            assert_eq!(layout, "abc123,80x24,0,0");
            assert_eq!(visible_layout, "abc123,80x24,0,0");
            assert_eq!(flags, "*");
        }
        _ => panic!("Expected LayoutChange event"),
    }
}

#[test]
fn test_parse_window_add() {
    let mut parser = Parser::new();
    let event = parser.parse_line("%window-add @5");

    match event {
        Some(ControlModeEvent::WindowAdd { window_id }) => {
            assert_eq!(window_id, "@5");
        }
        _ => panic!("Expected WindowAdd event"),
    }
}

#[test]
fn test_parse_command_response() {
    let mut parser = Parser::new();

    // Begin
    assert!(parser.parse_line("%begin 1234567890 0 0").is_none());

    // Response content
    assert!(parser.parse_line("line 1").is_none());
    assert!(parser.parse_line("line 2").is_none());

    // End
    let event = parser.parse_line("%end 1234567890 0 0");

    match event {
        Some(ControlModeEvent::CommandResponse {
            timestamp,
            command_num,
            output,
            success,
        }) => {
            assert_eq!(timestamp, 1234567890);
            assert_eq!(command_num, 0);
            assert_eq!(output, "line 1\nline 2");
            assert!(success);
        }
        _ => panic!("Expected CommandResponse event"),
    }
}

#[test]
fn test_parse_command_error() {
    let mut parser = Parser::new();

    parser.parse_line("%begin 1234567890 1 0");
    parser.parse_line("error message");
    let event = parser.parse_line("%error 1234567890 1 0");

    match event {
        Some(ControlModeEvent::CommandResponse { success, .. }) => {
            assert!(!success);
        }
        _ => panic!("Expected CommandResponse event"),
    }
}

#[test]
fn test_parse_exit() {
    let mut parser = Parser::new();

    let event = parser.parse_line("%exit");
    match event {
        Some(ControlModeEvent::Exit { reason }) => {
            assert!(reason.is_none());
        }
        _ => panic!("Expected Exit event"),
    }

    let event = parser.parse_line("%exit detached");
    match event {
        Some(ControlModeEvent::Exit { reason }) => {
            assert_eq!(reason, Some("detached".to_string()));
        }
        _ => panic!("Expected Exit event"),
    }
}

#[test]
fn test_parse_session_changed() {
    let mut parser = Parser::new();
    let event = parser.parse_line("%session-changed $0 main");

    match event {
        Some(ControlModeEvent::SessionChanged {
            session_id,
            session_name,
        }) => {
            assert_eq!(session_id, "$0");
            assert_eq!(session_name, "main");
        }
        _ => panic!("Expected SessionChanged event"),
    }
}

#[test]
fn test_parse_pane_mode_changed() {
    let mut parser = Parser::new();
    let event = parser.parse_line("%pane-mode-changed %0");

    match event {
        Some(ControlModeEvent::PaneModeChanged { pane_id }) => {
            assert_eq!(pane_id, "%0");
        }
        _ => panic!("Expected PaneModeChanged event"),
    }
}

#[test]
fn response_lines_are_joined_exactly() {
    let mut parser = Parser::new();
    assert!(parser.parse_line("%begin 1 7 0").is_none());
    assert!(parser.parse_line("").is_none());
    assert!(parser.parse_line("a").is_none());
    assert!(parser.parse_line("").is_none());
    assert!(parser.parse_line("%output %1 inside a block").is_none());
    match parser.parse_line("%end 1 7 0") {
        Some(ControlModeEvent::CommandResponse { command_num, output, success, .. }) => {
            assert_eq!(command_num, 7);
            assert_eq!(output, "\na\n\n%output %1 inside a block");
            assert!(success);
        }
        _ => panic!("Expected CommandResponse event"),
    }
    // the block is closed: the next line is a notification again
    assert!(matches!(
        parser.parse_line("%sessions-changed"),
        Some(ControlModeEvent::SessionsChanged)
    ));
}

#[test]
fn empty_response_block() {
    let mut parser = Parser::new();
    parser.parse_line("%begin 5 2 1");
    match parser.parse_line("%error 5 2 1") {
        Some(ControlModeEvent::CommandResponse { timestamp, command_num, output, success }) => {
            assert_eq!(timestamp, 5);
            assert_eq!(command_num, 2);
            assert_eq!(output, "");
            assert!(!success);
        }
        _ => panic!("Expected CommandResponse event"),
    }
}

#[test]
fn lines_that_are_no_notifications() {
    let mut parser = Parser::new();
    assert!(parser.parse_line("plain text").is_none());
    assert!(parser.parse_line("").is_none());
    assert!(parser.parse_line("%unknown-thing 1").is_none());
    assert!(parser.parse_line("%window-renamed @1").is_none());
    assert!(parser.parse_line("%layout-change @0 only-two").is_none());
    assert!(parser.parse_line("%extended-output %1 5 no separator").is_none());
}

#[test]
fn other_notifications() {
    let mut parser = Parser::new();
    match parser.parse_line(r"%extended-output %3 1500 x : a\012b") {
        Some(ControlModeEvent::ExtendedOutput { pane_id, age_ms, content }) => {
            assert_eq!(pane_id, "%3");
            assert_eq!(age_ms, 1500);
            assert_eq!(content, b"a\nb");
        }
        _ => panic!("Expected ExtendedOutput event"),
    }
    match parser.parse_line("%output %9") {
        Some(ControlModeEvent::Output { pane_id, content }) => {
            assert_eq!(pane_id, "%9");
            assert!(content.is_empty());
        }
        _ => panic!("Expected Output event"),
    }
    match parser.parse_line("%window-renamed @2 my window") {
        Some(ControlModeEvent::WindowRenamed { window_id, name }) => {
            assert_eq!(window_id, "@2");
            assert_eq!(name, "my window");
        }
        _ => panic!("Expected WindowRenamed event"),
    }
    match parser.parse_line("%window-pane-changed @2 %7") {
        Some(ControlModeEvent::WindowPaneChanged { window_id, pane_id }) => {
            assert_eq!(window_id, "@2");
            assert_eq!(pane_id, "%7");
        }
        _ => panic!("Expected WindowPaneChanged event"),
    }
    match parser.parse_line("%session-window-changed $1 @4") {
        Some(ControlModeEvent::SessionWindowChanged { session_id, window_id }) => {
            assert_eq!(session_id, "$1");
            assert_eq!(window_id, "@4");
        }
        _ => panic!("Expected SessionWindowChanged event"),
    }
    match parser.parse_line("%client-session-changed /dev/pts/1 $2 my session") {
        Some(ControlModeEvent::ClientSessionChanged { client, session_id, session_name }) => {
            assert_eq!(client, "/dev/pts/1");
            assert_eq!(session_id, "$2");
            assert_eq!(session_name, "my session");
        }
        _ => panic!("Expected ClientSessionChanged event"),
    }
    assert!(matches!(
        parser.parse_line("%pause %1"),
        Some(ControlModeEvent::Pause { pane_id }) if pane_id == "%1"
    ));
    assert!(matches!(
        parser.parse_line("%continue %1"),
        Some(ControlModeEvent::Continue { pane_id }) if pane_id == "%1"
    ));
    assert!(matches!(
        parser.parse_line("%window-close @3"),
        Some(ControlModeEvent::WindowClose { window_id }) if window_id == "@3"
    ));
    assert!(matches!(
        parser.parse_line("%session-renamed work"),
        Some(ControlModeEvent::SessionRenamed { name }) if name == "work"
    ));
    assert!(matches!(
        parser.parse_line("%client-detached /dev/pts/1"),
        Some(ControlModeEvent::ClientDetached { client }) if client == "/dev/pts/1"
    ));
    assert!(matches!(
        parser.parse_line("%unlinked-window-add @8"),
        Some(ControlModeEvent::UnlinkedWindowAdd { window_id }) if window_id == "@8"
    ));
    assert!(matches!(
        parser.parse_line("%unlinked-window-close @8"),
        Some(ControlModeEvent::UnlinkedWindowClose { window_id }) if window_id == "@8"
    ));
}
