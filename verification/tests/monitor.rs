use tmuxy_core::monitor::{
    capture_commands, copy_mode_capture_command, initial_commands, next_backoff, sync_commands,
    unescape_command, CopyModePane, EmitDecision, LoopAction, MonitorCommand, MonitorConfig,
    MonitorState, Throttle, ThrottleConfig, INITIAL_BACKOFF, LIST_PANES_COMMAND,
    LIST_WINDOWS_COMMAND,
};
use tmuxy_core::parser::ControlModeEvent;

fn settings() -> ThrottleConfig {
    MonitorConfig::default().throttle_config()
}

#[test]
fn default_settings() {
    let config = MonitorConfig::default();
    assert_eq!(config.session, "");
    assert_eq!(config.throttle_interval, 16);
    assert_eq!(config.throttle_threshold, 20);
    assert_eq!(config.rate_window, 100);
}

#[test]
fn slow_output_is_told_at_once() {
    let cfg = settings();
    let mut throttle = Throttle::new();
    // 20 events within one rate window: the threshold is not passed
    for i in 0..20u64 {
        assert_eq!(throttle.on_state_change(&cfg, true, i), EmitDecision::EmitNow);
        assert_eq!(throttle.timer_delay(&cfg, i), None);
    }
    assert_eq!(throttle.recent.len(), 20);
}

#[test]
fn fast_output_is_throttled() {
    let cfg = settings();
    let mut throttle = Throttle::new();
    let mut emitted = 0;
    // 100 events, one each millisecond
    for now in 0..100u64 {
        if throttle.on_state_change(&cfg, true, now) == EmitDecision::EmitNow {
            emitted += 1;
        }
    }
    // the first 20 are told at once, up to time 19; then one every 16 ms:
    // at 35, 51, 67, 83 and 99
    assert_eq!(emitted, 25);
    assert_eq!(throttle.last_emit, Some(99));
    assert_eq!(throttle.on_state_change(&cfg, true, 100), EmitDecision::Defer);
    assert!(throttle.pending);
    assert_eq!(throttle.timer_delay(&cfg, 100), Some(15));
    assert_eq!(throttle.timer_delay(&cfg, 115), Some(0));
    throttle.on_timer(115);
    assert!(!throttle.pending);
    assert_eq!(throttle.last_emit, Some(115));
    assert_eq!(throttle.timer_delay(&cfg, 116), None);
    // a change that is no output is always told at once
    assert_eq!(throttle.on_state_change(&cfg, false, 116), EmitDecision::EmitNow);
    // after a pause the rate window holds this event alone
    assert_eq!(throttle.on_state_change(&cfg, true, 400), EmitDecision::EmitNow);
    assert_eq!(throttle.recent.len(), 1);
}

#[test]
fn the_rate_is_counted_over_a_sliding_window() {
    // two output events in every 10 ms, for a second: the rate stays above
    // the threshold of one event in 10 ms, so after the first event updates
    // are 100 ms apart
    let cfg = ThrottleConfig { interval: 100, threshold: 1, rate_window: 10 };
    let mut throttle = Throttle::new();
    let mut sent = Vec::new();
    let mut now = 0u64;
    while now <= 1000 {
        if throttle.on_state_change(&cfg, true, now) == EmitDecision::EmitNow {
            sent.push(now);
        }
        now += 5;
    }
    assert_eq!(sent, vec![0, 100, 200, 300, 400, 500, 600, 700, 800, 900, 1000]);
    // the window holds the events of the last 10 ms only
    assert_eq!(throttle.recent.iter().copied().collect::<Vec<u64>>(), vec![990, 995, 1000]);
    // an event 11 ms after the last one is alone in its window
    assert_eq!(throttle.on_state_change(&cfg, true, 1011), EmitDecision::EmitNow);
    assert_eq!(throttle.recent.len(), 1);
    // the next one, 5 ms later, is the second in its window and waits
    assert_eq!(throttle.on_state_change(&cfg, true, 1016), EmitDecision::Defer);
    assert_eq!(throttle.timer_delay(&cfg, 1016), Some(95));
}

#[test]
fn throttling_can_be_turned_off() {
    let cfg = ThrottleConfig { interval: 0, threshold: 0, rate_window: 100 };
    let mut throttle = Throttle::new();
    for _ in 0..50 {
        assert_eq!(throttle.on_state_change(&cfg, true, 1), EmitDecision::EmitNow);
    }
}

#[test]
fn copy_mode_sync_captures_the_scrolled_region() {
    let panes = vec![
        CopyModePane { id: "%0".to_string(), scroll_position: 100, height: 24 },
        CopyModePane { id: "%3".to_string(), scroll_position: 0, height: 10 },
    ];
    // in copy mode the panes are listed, not the windows, and only the pane
    // that is scrolled back is captured
    let plan = sync_commands(true, 500, &panes);
    assert!(!plan.full);
    assert_eq!(plan.next_in, 50);
    assert_eq!(
        plan.commands,
        vec![
            LIST_PANES_COMMAND.to_string(),
            "capture-pane -t %0 -p -e -S -123 -E -100".to_string(),
        ]
    );
    assert_eq!(plan.captures, vec!["%0".to_string()]);
    let plan = sync_commands(true, 500, &[]);
    assert_eq!(plan.commands, vec![LIST_PANES_COMMAND.to_string()]);
    assert!(plan.captures.is_empty());
    let plan = sync_commands(false, 500, &panes);
    assert!(plan.full);
    assert_eq!(plan.next_in, 500);
    assert_eq!(plan.commands, vec![LIST_WINDOWS_COMMAND.to_string(), LIST_PANES_COMMAND.to_string()]);
    assert!(plan.captures.is_empty());
}

#[test]
fn sync_timer_in_copy_mode() {
    let config = MonitorConfig { session: "demo".to_string(), ..MonitorConfig::default() };
    let mut state = MonitorState::new(&config, 0);
    let listing = ControlModeEvent::CommandResponse {
        timestamp: 0,
        command_num: 0,
        output: "%0,0,0,0,80,24,0,0,1,bash,t,1,0,0,@0,b,0,0,,".to_string(),
        success: true,
    };
    state.on_event(&config, Some(listing), 1);
    assert!(state.aggregator.has_pane_in_copy_mode());
    let queued = state.aggregator.pending_captures.len();
    let panes = vec![CopyModePane { id: "%0".to_string(), scroll_position: 100, height: 24 }];
    // long after the monitor began, the sync in copy mode is still the light one
    let actions = state.on_sync_timer(&config, 60_000, &panes);
    assert!(matches!(&actions[..], [LoopAction::SendBatch { commands }]
        if commands == &vec![
            LIST_PANES_COMMAND.to_string(),
            "capture-pane -t %0 -p -e -S -123 -E -100".to_string(),
        ]));
    assert_eq!(state.aggregator.pending_captures.len(), queued + 1);
    assert_eq!(state.aggregator.pending_captures.back(), Some(&"%0".to_string()));
    assert_eq!(state.next_sync_at, 60_050);
}

#[test]
fn capture_commands_of_scrolled_panes() {
    assert_eq!(
        copy_mode_capture_command("%1", 1, 1),
        Some("capture-pane -t %1 -p -e -S -1 -E -1".to_string())
    );
    assert_eq!(
        copy_mode_capture_command("%1", 1, 0),
        Some("capture-pane -t %1 -p -e -S 0 -E -1".to_string())
    );
    assert_eq!(
        copy_mode_capture_command("%1", 4294967295, 4294967295),
        Some("capture-pane -t %1 -p -e -S -8589934589 -E -4294967295".to_string())
    );
    // a pane that is not scrolled back is not captured
    assert_eq!(copy_mode_capture_command("%1", 0, 24), None);
    assert_eq!(
        capture_commands(&["%0".to_string(), "%1".to_string()]),
        vec!["capture-pane -t %0 -p -e".to_string(), "capture-pane -t %1 -p -e".to_string()]
    );
}

#[test]
fn first_commands_of_a_monitor() {
    let cmds = initial_commands("demo", Some("/home/u/.tmuxy.conf"));
    assert_eq!(
        cmds,
        vec![
            "resizew -t demo -x 200 -y 50".to_string(),
            "source-file /home/u/.tmuxy.conf".to_string(),
            "refresh-client -f pause-after=5".to_string(),
            LIST_WINDOWS_COMMAND.to_string(),
            LIST_PANES_COMMAND.to_string(),
        ]
    );
    assert_eq!(initial_commands("demo", None).len(), 4);
}

#[test]
fn client_commands_become_control_mode_commands() {
    let state = MonitorState::new(&MonitorConfig::default(), 0);
    let actions = state.on_command(Some(MonitorCommand::ResizeWindow { cols: 80, rows: 30 }));
    assert!(matches!(&actions[..], [LoopAction::SendCommand { command }] if command == "resizew -x 80 -y 30"));
    let actions = state.on_command(Some(MonitorCommand::RunCommand {
        command: "swap-pane -s %0 -t %1 \\; select-layout tiled".to_string(),
    }));
    assert!(matches!(&actions[..], [LoopAction::SendCommand { command }]
        if command == "swap-pane -s %0 -t %1 ; select-layout tiled"));
    let actions = state.on_command(Some(MonitorCommand::Shutdown));
    assert!(matches!(&actions[..], [LoopAction::GracefulClose, LoopAction::Stop]));
    let actions = state.on_command(None);
    assert!(matches!(&actions[..], [LoopAction::Stop]));
    assert_eq!(unescape_command("a\\;b"), "a\\;b");
}

#[test]
fn events_lead_to_actions() {
    let config = MonitorConfig { session: "demo".to_string(), ..MonitorConfig::default() };
    let mut state = MonitorState::new(&config, 1000);
    assert_eq!(state.next_sync_at, 2500);
    let listing = ControlModeEvent::CommandResponse {
        timestamp: 0,
        command_num: 0,
        output: "%0,0,0,0,80,24,0,0,1,bash,t,0,0,0,@0,b,0,0,,".to_string(),
        success: true,
    };
    let actions = state.on_event(&config, Some(listing), 1001);
    assert!(matches!(&actions[..], [LoopAction::SendBatch { commands }, LoopAction::EmitState]
        if commands == &vec!["capture-pane -t %0 -p -e".to_string()]));
    assert_eq!(state.aggregator.pending_captures.len(), 1);
    assert!(state.state_update().is_some());
    assert!(state.state_update().is_none());

    let actions = state.on_event(&config, Some(ControlModeEvent::Pause { pane_id: "%0".to_string() }), 1002);
    // clients are told of the pause first, then the pane is resumed
    assert!(matches!(&actions[..], [LoopAction::EmitState, LoopAction::SendCommand { command }]
        if command == "refresh-client -A '%0:continue'"));

    let actions = state.on_event(&config, Some(ControlModeEvent::SessionsChanged), 1003);
    assert!(actions.is_empty());

    let actions = state.on_throttle_timer(1004);
    assert!(matches!(&actions[..], [LoopAction::EmitState]));

    let actions = state.on_sync_timer(&config, 2500, &[]);
    assert!(matches!(&actions[..], [LoopAction::SendBatch { commands }] if commands.len() == 2));
    assert_eq!(state.next_sync_at, 3000);

    let actions = state.on_event(
        &config,
        Some(ControlModeEvent::Exit { reason: Some("server exited".to_string()) }),
        3000,
    );
    assert!(matches!(&actions[..], [LoopAction::EmitError { message }, LoopAction::Stop]
        if message == "Control mode exited: server exited"));
    let actions = state.on_event(&config, Some(ControlModeEvent::Exit { reason: None }), 3000);
    assert!(matches!(&actions[..], [LoopAction::EmitError { message }, LoopAction::Stop]
        if message == "Control mode exited: disconnected"));
    let actions = state.on_event(&config, None, 3000);
    assert!(matches!(&actions[..], [LoopAction::EmitError { message }, LoopAction::Stop]
        if message == "Control mode connection closed"));
}

#[test]
fn backoff_doubles_up_to_ten_seconds() {
    let mut backoff = INITIAL_BACKOFF;
    let mut seen = Vec::new();
    for _ in 0..9 {
        seen.push(backoff);
        backoff = next_backoff(backoff);
    }
    assert_eq!(seen, vec![100, 200, 400, 800, 1600, 3200, 6400, 10000, 10000]);
    assert_eq!(next_backoff(u64::MAX), 10000);
}

#[test]
fn scroll_positions_of_the_panes_in_copy_mode() {
    let config = MonitorConfig { session: "demo".to_string(), ..MonitorConfig::default() };
    let mut state = MonitorState::new(&config, 0);
    let listing = ControlModeEvent::CommandResponse {
        timestamp: 0,
        command_num: 0,
        output: "%0,0,0,0,80,24,0,0,1,bash,t,1,0,0,@0,b,0,0,,\n%1,1,0,25,80,10,0,0,0,bash,t,0,0,0,@0,b,0,0,,\n%2,2,0,36,80,7,0,0,0,vim,t,1,0,0,@0,b,0,0,,"
            .to_string(),
        success: true,
    };
    state.on_event(&config, Some(listing), 1);
    // %1 is not in copy mode; %2 has no number; the first line of a pane counts
    let panes = state.copy_mode_panes("%1,7\n%0,100\n%0,5\n%2,many\nnoise");
    assert_eq!(panes.len(), 2);
    assert_eq!((panes[0].id.as_str(), panes[0].scroll_position, panes[0].height), ("%0", 100, 24));
    assert_eq!((panes[1].id.as_str(), panes[1].scroll_position, panes[1].height), ("%2", 0, 7));
    assert!(state.copy_mode_panes("").iter().all(|p| p.scroll_position == 0));
    let actions = state.on_sync_timer(&config, 100, &panes);
    assert!(matches!(&actions[..], [LoopAction::SendBatch { commands }]
        if commands == &vec![
            LIST_PANES_COMMAND.to_string(),
            "capture-pane -t %0 -p -e -S -123 -E -100".to_string(),
        ]));
}
