use tmuxy_core::parser::{ControlModeEvent, Parser};
use tmuxy_core::state::{ChangeType, StateAggregator};
use tmuxy_core::model::StateUpdate;

const PANE0: &str = "%0,0,0,0,80,24,0,0,1,bash,host,0,0,0,@0,title,0,0,,";

fn response(output: &str) -> ControlModeEvent {
    ControlModeEvent::CommandResponse {
        timestamp: 1,
        command_num: 0,
        output: output.to_string(),
        success: true,
    }
}

fn attached() -> StateAggregator {
    let mut agg = StateAggregator::with_session_name("demo");
    agg.process_event(response("@0,0,main,1,,,"));
    agg.process_event(response(PANE0));
    agg.set_status_line("status".to_string());
    agg
}

fn attached_with_two_panes() -> StateAggregator {
    let mut agg = StateAggregator::with_session_name("demo");
    agg.process_event(response("@0,0,main,1,,,"));
    agg.process_event(response(
        "%0,0,0,0,40,24,0,0,1,bash,host,0,0,0,@0,title,0,0,,\n%1,1,41,0,39,24,0,0,0,bash,host,0,0,0,@0,title,0,0,,",
    ));
    agg.set_status_line("status".to_string());
    agg
}

fn text_of(line: &[tmuxy_core::TerminalCell]) -> String {
    line.iter().map(|c| c.char.as_str()).collect()
}

#[test]
fn fresh_attach_gives_full_state() {
    let mut agg = StateAggregator::with_session_name("demo");
    let r = agg.process_event(response("@0,0,main,1,,,"));
    assert!(r.state_changed);
    assert_eq!(r.change_type, ChangeType::Full);
    assert!(r.panes_needing_refresh.is_empty());
    let r = agg.process_event(response(PANE0));
    assert_eq!(r.panes_needing_refresh, vec!["%0".to_string()]);
    assert!(agg.status_line_dirty());
    agg.set_status_line("status".to_string());
    match agg.to_state_update() {
        Some(StateUpdate::Full { state }) => {
            assert_eq!(state.session_name, "demo");
            assert_eq!(state.panes.len(), 1);
            assert_eq!(state.panes[0].tmux_id, "%0");
            assert_eq!(state.panes[0].width, 80);
            assert_eq!(state.panes[0].height, 24);
            assert_eq!(state.panes[0].x, 0);
            assert_eq!(state.panes[0].y, 0);
            assert_eq!(state.panes[0].content.len(), 24);
            assert_eq!(state.windows.len(), 1);
            assert_eq!(state.windows[0].id, "@0");
            assert_eq!(state.windows[0].name, "main");
            assert!(state.windows[0].active);
            assert_eq!(state.active_window_id, Some("@0".to_string()));
            assert_eq!(state.active_pane_id, Some("%0".to_string()));
            assert_eq!(state.total_width, 80);
            assert_eq!(state.total_height, 24);
            assert_eq!(state.status_line, "status");
            assert!(state.popup.is_none());
        }
        other => panic!("expected a full state, got {:?}", other),
    }
    assert_eq!(agg.delta_seq, 1);
    // nothing changed since: nothing is sent and the sequence number stays
    assert!(agg.to_state_update().is_none());
    assert_eq!(agg.delta_seq, 1);
}

#[test]
fn typing_gives_one_delta() {
    let mut agg = attached_with_two_panes();
    assert!(matches!(agg.to_state_update(), Some(StateUpdate::Full { .. })));
    let mut parser = Parser::new();
    let event = parser.parse_line("%output %0 Hi").unwrap();
    let r = agg.process_event(event);
    assert!(r.state_changed);
    assert_eq!(r.change_type, ChangeType::PaneOutput { pane_id: "%0".to_string() });
    match agg.to_state_update() {
        Some(StateUpdate::Delta { delta }) => {
            assert_eq!(delta.seq, 2);
            assert!(!delta.is_empty());
            let panes = delta.panes.expect("pane changes");
            assert_eq!(panes.len(), 1);
            assert_eq!(panes[0].0, "%0");
            let change = panes[0].1.as_ref().expect("the pane is still there");
            assert_eq!(change.cursor_x, Some(2));
            assert_eq!(change.cursor_y, None);
            let content = change.content.as_ref().expect("new content");
            assert_eq!(text_of(&content[0]), "Hi");
            assert!(change.width.is_none());
            assert!(delta.new_panes.is_none());
            assert!(delta.windows.is_none());
        }
        other => panic!("expected a delta, got {:?}", other),
    }
    assert!(agg.to_state_update().is_none());
}

#[test]
fn typing_in_the_only_pane_gives_a_full_state() {
    // one pane of one is more than half of the panes
    let mut agg = attached();
    assert!(matches!(agg.to_state_update(), Some(StateUpdate::Full { .. })));
    agg.process_event(ControlModeEvent::Output { pane_id: "%0".to_string(), content: b"Hi".to_vec() });
    match agg.to_state_update() {
        Some(StateUpdate::Full { state }) => {
            assert_eq!(state.panes[0].cursor_x, 2);
            assert_eq!(state.panes[0].cursor_y, 0);
        }
        other => panic!("expected a full state, got {:?}", other),
    }
    assert_eq!(agg.delta_seq, 2);
}

#[test]
fn output_of_unknown_pane_is_dropped() {
    let mut agg = attached();
    let r = agg.process_event(ControlModeEvent::Output {
        pane_id: "%9".to_string(),
        content: b"x".to_vec(),
    });
    assert!(!r.state_changed);
    assert_eq!(r.change_type, ChangeType::Unchanged);
    assert!(agg.get_pane("%9").is_none());
}

#[test]
fn second_listing_replaces_the_panes() {
    let mut agg = StateAggregator::new();
    agg.process_event(response(
        "%1,0,0,0,40,24,0,0,1,bash,t,0,0,0,@0,b,0,0,,\n%2,1,40,0,40,24,0,0,0,vim,t,0,0,0,@0,b,0,0,,\n%3,2,0,0,80,24,0,0,1,top,t,0,0,0,@1,b,0,0,,",
    ));
    assert!(agg.get_pane("%1").is_some());
    assert!(agg.get_pane("%2").is_some());
    assert!(agg.get_pane("%3").is_some());
    let r = agg.process_event(response("%2,0,0,0,80,24,0,0,1,vim,t,0,0,0,@0,b,0,0,,"));
    assert!(agg.get_pane("%1").is_none());
    assert!(agg.get_pane("%3").is_none());
    let kept = agg.get_pane("%2").expect("the listed pane stays");
    assert_eq!(kept.width, 80);
    assert_eq!(kept.index, 0);
    // the pane changed its size, so its content is to be captured anew
    assert_eq!(r.panes_needing_refresh, vec!["%2".to_string()]);
    assert_eq!(agg.panes.len(), 1);
}

#[test]
fn border_title_may_hold_commas() {
    let mut agg = StateAggregator::new();
    agg.process_event(response("%4,3,1,2,100,30,5,6,0,zsh,t,1,7,8,@2,a,b,c,1,0,%1,2"));
    let p = agg.get_pane("%4").unwrap();
    assert_eq!(p.index, 3);
    assert_eq!((p.x, p.y, p.width, p.height), (1, 2, 100, 30));
    assert_eq!((p.tmux_cursor_x, p.tmux_cursor_y), (5, 6));
    assert!(!p.active);
    assert_eq!(p.command, "zsh");
    assert!(p.in_mode);
    assert_eq!((p.copy_cursor_x, p.copy_cursor_y), (7, 8));
    assert_eq!(p.window_id, "@2");
    assert_eq!(p.border_title, "a,b,c");
    assert!(p.alternate_on);
    assert!(!p.mouse_any_flag);
    assert_eq!(p.group_id, Some("%1".to_string()));
    assert_eq!(p.group_tab_index, Some(2));
}

#[test]
fn split_gives_layout_then_focus() {
    let mut agg = attached();
    assert!(matches!(agg.to_state_update(), Some(StateUpdate::Full { .. })));
    let mut parser = Parser::new();
    let layout = parser
        .parse_line("%layout-change @0 c1d2,80x24,0,0{40x24,0,0,0,39x24,41,0,1} c1d2,80x24,0,0{40x24,0,0,0,39x24,41,0,1} *")
        .unwrap();
    let r = agg.process_event(layout);
    assert!(r.state_changed);
    assert_eq!(r.change_type, ChangeType::PaneLayout);
    // %0 shrank; %1 is not known yet
    assert_eq!(r.panes_needing_refresh, vec!["%0".to_string()]);
    assert_eq!(agg.get_pane("%0").unwrap().width, 40);
    let commands = tmuxy_core::monitor::capture_commands(&r.panes_needing_refresh);
    assert_eq!(commands, vec!["capture-pane -t %0 -p -e".to_string()]);

    let r = agg.process_event(response(
        "%0,0,0,0,40,24,0,0,1,bash,t,0,0,0,@0,b,0,0,,\n%1,1,41,0,39,24,0,0,0,bash,t,0,0,0,@0,b,0,0,,",
    ));
    assert_eq!(r.panes_needing_refresh, vec!["%1".to_string()]);
    agg.set_status_line("status".to_string());
    let first = agg.to_state_update();
    assert!(first.is_some());

    let focus = parser.parse_line("%window-pane-changed @0 %1").unwrap();
    let r = agg.process_event(focus);
    assert_eq!(r.change_type, ChangeType::PaneFocus);
    assert!(agg.get_pane("%1").unwrap().active);
    assert!(!agg.get_pane("%0").unwrap().active);
    match agg.to_state_update() {
        Some(StateUpdate::Full { state }) => {
            // both panes changed: more than half, so the state is sent in full
            assert_eq!(state.active_pane_id, Some("%1".to_string()));
            assert_eq!(state.panes[1].width, 39);
            assert!(state.panes[1].active);
        }
        other => panic!("expected an update, got {:?}", other),
    }
}

#[test]
fn paused_pane_is_resumed() {
    let mut agg = attached();
    agg.to_state_update();
    let mut parser = Parser::new();
    let r = agg.process_event(parser.parse_line("%pause %0").unwrap());
    assert_eq!(r.change_type, ChangeType::FlowPause { pane_id: "%0".to_string() });
    assert_eq!(
        tmuxy_core::monitor::continue_pane_command("%0"),
        "refresh-client -A '%0:continue'"
    );
    match agg.to_state_update() {
        Some(StateUpdate::Full { state }) => assert!(state.panes[0].paused),
        Some(StateUpdate::Delta { delta }) => {
            assert_eq!(delta.panes.unwrap()[0].1.as_ref().unwrap().paused, Some(true))
        }
        None => panic!("expected an update"),
    }
    let r = agg.process_event(parser.parse_line("%continue %0").unwrap());
    assert_eq!(r.change_type, ChangeType::FlowContinue { pane_id: "%0".to_string() });
    assert!(!agg.get_pane("%0").unwrap().paused);
    let r = agg.process_event(parser.parse_line("%pause %5").unwrap());
    assert!(!r.state_changed);
}

#[test]
fn copy_mode_capture_is_what_clients_see() {
    let mut agg = StateAggregator::new();
    agg.process_event(response("@0,0,main,1,,,"));
    agg.process_event(response("%0,0,0,0,80,24,0,0,1,bash,t,1,0,0,@0,b,0,0,,"));
    assert!(agg.has_pane_in_copy_mode());
    assert_eq!(agg.get_panes_in_copy_mode(), vec!["%0".to_string()]);
    agg.process_event(ControlModeEvent::Output {
        pane_id: "%0".to_string(),
        content: b"live".to_vec(),
    });
    agg.queue_captures(&["%0".to_string()]);
    let r = agg.process_event(response("old line"));
    assert_eq!(r.change_type, ChangeType::PaneOutput { pane_id: "%0".to_string() });
    assert!(agg.pending_captures.is_empty());
    let pane = agg.get_pane("%0").unwrap();
    let snapshot = pane.copy_mode_content.as_ref().expect("the capture was installed");
    assert_eq!(text_of(&snapshot[0]), "old line");
    let seen = pane.to_tmux_pane();
    assert_eq!(text_of(&seen.content[0]), "old line");
    assert_eq!(text_of(&pane.get_content()[0]), "live");
    // leaving copy mode drops the snapshot
    agg.process_event(response("%0,0,0,0,80,24,0,0,1,bash,t,0,0,0,@0,b,0,0,,"));
    let pane = agg.get_pane("%0").unwrap();
    assert!(pane.copy_mode_content.is_none());
    assert_eq!(text_of(&pane.to_tmux_pane().content[0]), "live");
}

#[test]
fn capture_resets_the_emulator_and_homes_the_cursor() {
    let mut agg = StateAggregator::new();
    agg.process_event(response("%0,0,0,0,80,24,3,1,1,bash,t,0,0,0,@0,b,0,0,,"));
    agg.process_event(ControlModeEvent::Output {
        pane_id: "%0".to_string(),
        content: b"garbage".to_vec(),
    });
    agg.queue_captures(&["%0".to_string()]);
    agg.process_event(response("first\nsecond"));
    let pane = agg.get_pane("%0").unwrap().to_tmux_pane();
    assert_eq!(text_of(&pane.content[0]), "first");
    assert_eq!(text_of(&pane.content[1]), "second");
    assert_eq!((pane.cursor_x, pane.cursor_y), (3, 1));
    assert_eq!(agg.get_pane("%0").unwrap().raw_buffer, b"first\nsecond");
}

#[test]
fn window_events() {
    let mut agg = attached();
    let r = agg.process_event(ControlModeEvent::WindowAdd { window_id: "@7".to_string() });
    assert!(!r.state_changed);
    assert_eq!(agg.windows.len(), 2);
    assert_eq!(agg.windows[1].index, 7);
    assert_eq!(agg.windows[1].name, "");
    let r = agg.process_event(ControlModeEvent::WindowRenamed {
        window_id: "@7".to_string(),
        name: "logs".to_string(),
    });
    assert_eq!(r.change_type, ChangeType::Window);
    assert_eq!(agg.windows[1].name, "logs");
    let r = agg.process_event(ControlModeEvent::SessionWindowChanged {
        session_id: "$0".to_string(),
        window_id: "@7".to_string(),
    });
    assert_eq!(r.change_type, ChangeType::Window);
    assert!(agg.windows[1].active);
    assert!(!agg.windows[0].active);
    assert_eq!(agg.active_window_id, Some("@7".to_string()));
    let r = agg.process_event(ControlModeEvent::WindowClose { window_id: "@0".to_string() });
    assert_eq!(r.change_type, ChangeType::Window);
    assert_eq!(agg.windows.len(), 1);
    assert!(agg.get_pane("%0").is_none());
}

#[test]
fn events_that_tell_clients_nothing() {
    let mut agg = attached();
    assert!(!agg.process_event(ControlModeEvent::SessionsChanged).state_changed);
    assert!(!agg
        .process_event(ControlModeEvent::ClientDetached { client: "c".to_string() })
        .state_changed);
    let r = agg.process_event(ControlModeEvent::PaneModeChanged { pane_id: "%0".to_string() });
    assert!(r.state_changed);
    assert_eq!(r.change_type, ChangeType::PaneFocus);
    assert!(!agg.get_pane("%0").unwrap().in_mode);
    let r = agg.process_event(ControlModeEvent::SessionRenamed { name: "work".to_string() });
    assert_eq!(r.change_type, ChangeType::Session);
    assert_eq!(agg.session_name, "work");
    let r = agg.process_event(ControlModeEvent::Exit { reason: None });
    assert_eq!(r.change_type, ChangeType::Session);
    let r = agg.process_event(ControlModeEvent::CommandResponse {
        timestamp: 0,
        command_num: 0,
        output: "%8,0,0,0,80,24,0,0,1,bash,t,0,0,0,@0,b,0,0,,".to_string(),
        success: false,
    });
    assert_eq!(r.change_type, ChangeType::Full);
    assert!(agg.get_pane("%8").is_none());
}

#[test]
fn popup_is_one_at_most() {
    let mut agg = attached();
    let r = agg.process_event(ControlModeEvent::PopupOpen {
        popup_id: "popup-a".to_string(),
        width: 20,
        height: 5,
        x: 3,
        y: 4,
        command: Some("fzf".to_string()),
    });
    assert_eq!(r.change_type, ChangeType::Full);
    assert!(agg.has_popup());
    let r = agg.process_event(ControlModeEvent::PopupOutput {
        popup_id: "other".to_string(),
        content: b"x".to_vec(),
    });
    assert!(!r.state_changed);
    agg.process_event(ControlModeEvent::PopupOutput {
        popup_id: "popup-a".to_string(),
        content: b"pick".to_vec(),
    });
    let popup = agg.get_popup().unwrap().to_tmux_popup();
    assert_eq!(popup.command, "fzf");
    assert_eq!((popup.width, popup.height, popup.x, popup.y), (20, 5, 3, 4));
    assert_eq!(text_of(&popup.content[0]), "pick");
    assert_eq!(popup.cursor_x, 4);
    assert!(!agg.process_event(ControlModeEvent::PopupClose { popup_id: "zz".to_string() }).state_changed);
    assert!(agg.process_event(ControlModeEvent::PopupClose { popup_id: "popup-a".to_string() }).state_changed);
    assert!(!agg.has_popup());
}

#[test]
fn raw_buffer_keeps_its_cap() {
    let mut agg = attached();
    let chunk = vec![b'a'; 40000];
    agg.process_event(ControlModeEvent::Output { pane_id: "%0".to_string(), content: chunk.clone() });
    let mut last = vec![b'b'; 40000];
    last[39999] = b'c';
    agg.process_event(ControlModeEvent::Output { pane_id: "%0".to_string(), content: last });
    let raw = &agg.get_pane("%0").unwrap().raw_buffer;
    assert_eq!(raw.len(), 65536);
    assert_eq!(raw[0], b'a');
    assert_eq!(raw[65536 - 40000 - 1], b'a');
    assert_eq!(raw[65536 - 40000], b'b');
    assert_eq!(raw[65535], b'c');
}

#[test]
fn degenerate_sizes_do_not_stop_the_emulator() {
    let mut agg = StateAggregator::new();
    agg.process_event(response("%0,0,0,0,0,0,0,0,1,bash,t,0,0,0,@0,b,0,0,,"));
    let r = agg.process_event(ControlModeEvent::Output {
        pane_id: "%0".to_string(),
        content: "wide \u{4e2d} text\n".as_bytes().to_vec(),
    });
    assert!(r.state_changed);
    let pane = agg.get_pane("%0").unwrap().to_tmux_pane();
    assert_eq!((pane.width, pane.height), (0, 0));
    // a pane of no size shows no cells
    assert!(pane.content.is_empty());
}

#[test]
fn content_stays_within_the_pane() {
    // a pane one column wide and one row high shows one cell at most,
    // whatever its emulator holds
    let mut agg = StateAggregator::new();
    agg.process_event(response(
        "%0,0,0,0,1,1,0,0,1,bash,t,0,0,0,@0,b,0,0,,\n%1,1,2,0,3,2,0,0,0,bash,t,0,0,0,@0,b,0,0,,",
    ));
    for id in ["%0", "%1"] {
        agg.process_event(ControlModeEvent::Output {
            pane_id: id.to_string(),
            content: b"ab\r\ncd".to_vec(),
        });
    }
    let pane = agg.get_pane("%0").unwrap().to_tmux_pane();
    assert_eq!(pane.content.len(), 1);
    assert!(pane.content[0].len() <= 1);
    let pane = agg.get_pane("%1").unwrap().to_tmux_pane();
    assert_eq!(pane.content.len(), 2);
    assert_eq!(text_of(&pane.content[0]), "ab");
    assert_eq!(text_of(&pane.content[1]), "cd");
    let cells = tmuxy_core::parse_ansi_to_cells("xyz", 1, 1);
    assert_eq!(cells.len(), 1);
    assert_eq!(text_of(&cells[0]), "x");
    assert!(tmuxy_core::parse_ansi_to_cells("xyz", 0, 5).iter().all(|l| l.is_empty()));
    assert!(tmuxy_core::parse_ansi_to_cells("xyz", 5, 0).is_empty());
}

#[test]
fn narrow_panes_take_the_widest_character() {
    // the Khmer sign U+17D8 is three columns wide; panes narrower than that
    // take it all the same, after text that fills their line
    let text = "ab\u{17d8}".as_bytes();
    assert_eq!(text, &[0x61, 0x62, 0xe1, 0x9f, 0x98]);
    for width in 0..=4u32 {
        let mut agg = StateAggregator::new();
        let listing = format!("%0,0,0,0,{},2,0,0,1,bash,t,0,0,0,@0,b,0,0,,", width);
        agg.process_event(response(&listing));
        let r = agg.process_event(ControlModeEvent::Output {
            pane_id: "%0".to_string(),
            content: text.to_vec(),
        });
        assert!(r.state_changed);
        // a capture of the same text, and the same text in copy mode
        agg.queue_captures(&["%0".to_string()]);
        agg.process_event(response("ab\u{17d8}"));
        let pane = agg.get_pane("%0").unwrap().to_tmux_pane();
        assert_eq!(pane.width, width);
        assert!(pane.content.len() <= 2);
        assert!(pane.content.iter().all(|line| line.len() as u32 <= width));
        assert!(pane.cursor_x <= width);
        let copied = agg.get_pane_mut("%0").unwrap();
        copied.process_copy_mode_capture("ab\u{17d8}".as_bytes());
        let cells = tmuxy_core::parse_ansi_to_cells("ab\u{17d8}", width, 2);
        assert!(cells.iter().all(|line| line.len() as u32 <= width));
    }
    // three columns hold the two letters, and the sign on the next line
    let cells = tmuxy_core::parse_ansi_to_cells("ab\u{17d8}", 3, 2);
    assert_eq!(text_of(&cells[0]), "ab");
    assert_eq!(cells[1][0].char, "\u{17d8}");
    // a popup two columns wide
    let mut agg = StateAggregator::new();
    agg.process_event(ControlModeEvent::PopupOpen {
        popup_id: "p".to_string(),
        width: 2,
        height: 2,
        x: 0,
        y: 0,
        command: None,
    });
    let r = agg.process_event(ControlModeEvent::PopupOutput {
        popup_id: "p".to_string(),
        content: text.to_vec(),
    });
    assert!(r.state_changed);
    assert!(agg.to_tmux_state().popup.is_some());
}

#[test]
fn smallest_emulator_takes_any_bytes() {
    // panes narrower than their emulator; whatever they are fed, they go on
    let pieces: [&[u8]; 26] = [
        b"\x1b[", b"\x1b]", b"\x1b", b"H", b"J", b"K", b"L", b"M", b"P", b"S", b"T", b"@", b"r",
        b"m", b";", b"?1049h", b"?1049l", b"9", b"0", b"\n", b"\r", b"\t", "\u{4e2d}".as_bytes(),
        "e\u{301}".as_bytes(), "\u{17d8}".as_bytes(), b"4h",
    ];
    let mut seed: u32 = 12345;
    for width in 1..=3u32 {
        let mut agg = StateAggregator::new();
        let listing = format!("%0,0,0,0,{},1,0,0,1,bash,t,0,0,0,@0,b,0,0,,", width);
        agg.process_event(response(&listing));
        for _ in 0..400 {
            let mut chunk: Vec<u8> = Vec::new();
            for _ in 0..40 {
                seed = seed.wrapping_mul(1664525).wrapping_add(1013904223);
                let pick = (seed >> 16) as usize % (pieces.len() + 8);
                if pick < pieces.len() {
                    chunk.extend_from_slice(pieces[pick]);
                } else {
                    chunk.push((seed >> 8) as u8);
                }
            }
            agg.process_event(ControlModeEvent::Output {
                pane_id: "%0".to_string(),
                content: chunk,
            });
        }
        let pane = agg.get_pane("%0").unwrap().to_tmux_pane();
        assert_eq!(pane.content.len(), 1);
        assert!(pane.content[0].len() as u32 <= width);
    }
}

#[test]
fn reset_delta_tracking_starts_anew() {
    let mut agg = attached();
    agg.to_state_update();
    agg.process_event(ControlModeEvent::Output { pane_id: "%0".to_string(), content: b"x".to_vec() });
    agg.to_state_update();
    assert_eq!(agg.delta_seq, 2);
    agg.reset_delta_tracking();
    assert_eq!(agg.delta_seq, 0);
    assert!(matches!(agg.to_state_update(), Some(StateUpdate::Full { .. })));
    assert_eq!(agg.delta_seq, 1);
    agg.clear();
    assert!(agg.panes.is_empty());
    assert!(agg.windows.is_empty());
    assert!(agg.status_line_dirty());
}

#[test]
fn widest_emulator_takes_tabs_at_its_right_edge() {
    let mut agg = StateAggregator::new();
    agg.process_event(response("%0,0,0,0,70000,2,0,0,1,bash,t,0,0,0,@0,b,0,0,,"));
    agg.process_event(ControlModeEvent::Output {
        pane_id: "%0".to_string(),
        content: b"\x1b[1;65527H\tx\t\x1b[2;65526H\t\ty".to_vec(),
    });
    let pane = agg.get_pane("%0").unwrap();
    assert_eq!(pane.width, 70000);
    let seen = pane.to_tmux_pane();
    assert_eq!(seen.content.len(), 2);
    assert!(seen.cursor_x <= 65527);
}

#[test]
fn cursor_stays_within_the_pane() {
    // a line that fills the pane leaves the emulator's cursor behind the
    // last column; a pane of no size holds its cursor at the origin
    let mut agg = StateAggregator::new();
    agg.process_event(response(
        "%0,0,0,0,5,3,0,0,1,bash,t,0,0,0,@0,b,0,0,,\n%1,1,6,0,0,0,0,0,0,bash,t,0,0,0,@0,b,0,0,,",
    ));
    for id in ["%0", "%1"] {
        agg.process_event(ControlModeEvent::Output {
            pane_id: id.to_string(),
            content: b"Hello".to_vec(),
        });
    }
    let pane = agg.get_pane("%0").unwrap().to_tmux_pane();
    assert!(pane.cursor_x <= 5 && pane.cursor_y <= 3);
    assert_eq!(pane.cursor_y, 0);
    let pane = agg.get_pane("%1").unwrap().to_tmux_pane();
    assert_eq!((pane.cursor_x, pane.cursor_y), (0, 0));
}

#[test]
fn sequence_numbers_rise_across_events() {
    let mut agg = attached_with_two_panes();
    let mut last = 0u64;
    let mut deltas = 0;
    assert!(matches!(agg.to_state_update(), Some(StateUpdate::Full { .. })));
    for round in 0..6u8 {
        agg.process_event(ControlModeEvent::Output {
            pane_id: "%0".to_string(),
            content: vec![b'a' + round],
        });
        // events in between that tell clients nothing leave the number alone
        agg.process_event(ControlModeEvent::SessionsChanged);
        match agg.to_state_update() {
            Some(StateUpdate::Delta { delta }) => {
                assert!(!delta.is_empty());
                assert!(delta.seq > last);
                assert_eq!(delta.seq, agg.delta_seq);
                last = delta.seq;
                deltas += 1;
            }
            other => panic!("a delta was due, not {:?}", other.is_some()),
        }
        assert!(agg.to_state_update().is_none());
    }
    assert_eq!(deltas, 6);
    assert_eq!(last, 7);
}

#[test]
fn a_pane_is_changed_in_place() {
    let mut agg = attached_with_two_panes();
    assert!(agg.get_pane_mut("%9").is_none());
    let pane = agg.get_pane_mut("%1").unwrap();
    assert_eq!(pane.id, "%1");
    pane.process_output(b"there");
    pane.paused = true;
    let state = agg.to_tmux_state();
    assert_eq!(state.panes.len(), 2);
    assert!(state.panes[1].paused && !state.panes[0].paused);
    assert_eq!(text_of(&state.panes[1].content[0]), "there");
    assert_eq!(text_of(&state.panes[0].content[0]), "");
}

#[test]
fn small_emulators_take_mixed_input() {
    // escape sequences that insert, delete, scroll and switch modes, mixed
    // with characters of every width, on the smallest emulators
    let pieces: [&[u8]; 40] = [
        b"\x1b[", b"\x1b[", b"\x1b[", b"\x1b]", b"\x1b", b"\x1bM", b"\x1bD", b"\x1bE", b"\x1b7",
        b"\x1b8", b"\x1bc", b"H", b"J", b"K", b"L", b"M", b"P", b"S", b"T", b"@", b"X", b"r",
        b"m", b"d", b"G", b"C", b"D", b"A", b"B", b";", b"?1049h", b"?1049l", b"4h", b"4l",
        b"?7l", b"?7h", b"?6h", "\u{4e2d}".as_bytes(), "\u{301}".as_bytes(),
        "\u{17d8}".as_bytes(),
    ];
    let mut seed: u32 = 987654321;
    for (cols, rows) in [(3u32, 2u32), (3, 3), (4, 2), (5, 3)] {
        let mut agg = StateAggregator::new();
        let listing = format!("%0,0,0,0,{},{},0,0,1,bash,t,0,0,0,@0,b,0,0,,", cols, rows);
        agg.process_event(response(&listing));
        for _ in 0..1500 {
            let mut chunk: Vec<u8> = Vec::new();
            for _ in 0..30 {
                seed = seed.wrapping_mul(1664525).wrapping_add(1013904223);
                let pick = (seed >> 16) as usize % (pieces.len() + 20);
                if pick < pieces.len() {
                    chunk.extend_from_slice(pieces[pick]);
                } else if pick < pieces.len() + 10 {
                    chunk.push(b'0' + (pick - pieces.len()) as u8);
                } else {
                    chunk.push(b'a' + ((seed >> 8) % 26) as u8);
                }
            }
            agg.process_event(ControlModeEvent::Output {
                pane_id: "%0".to_string(),
                content: chunk,
            });
        }
        let pane = agg.get_pane("%0").unwrap().to_tmux_pane();
        assert_eq!(pane.content.len() as u32, rows);
        assert!(pane.content.iter().all(|line| line.len() as u32 <= cols));
        assert!(pane.cursor_x <= cols && pane.cursor_y <= rows);
    }
}
