use tmuxy_core::commands::{route_command, CommandArgs, CommandPlan};

fn control(cmd: &str, args: &CommandArgs) -> String {
    match route_command(cmd, args, "demo") {
        Ok(CommandPlan::ControlMode { command }) => command,
        other => panic!("expected a tmux command, got {:?}", other),
    }
}

#[test]
fn commands_without_arguments() {
    let none = CommandArgs::default();
    assert_eq!(control("split_pane_horizontal", &none), "splitw -t demo -h");
    assert_eq!(control("split_pane_vertical", &none), "splitw -t demo -v");
    assert_eq!(control("new_window", &none), "neww -t demo");
    assert_eq!(control("kill_window", &none), "killw -t demo");
    assert_eq!(control("next_window", &none), "next -t demo");
    assert_eq!(control("previous_window", &none), "prev -t demo");
    assert_eq!(control("kill_pane", &none), "killp -t demo");
    assert!(matches!(route_command("ping", &none, "demo"), Ok(CommandPlan::Ping)));
    assert!(matches!(route_command("initialize_session", &none, "demo"), Ok(CommandPlan::InitializeSession)));
    assert!(matches!(route_command("get_key_bindings", &none, "demo"), Ok(CommandPlan::GetKeyBindings)));
    assert!(matches!(route_command("get_scrollback_history", &none, "demo"), Ok(CommandPlan::GetScrollbackHistory)));
    assert!(matches!(route_command("get_buffer", &none, "demo"), Ok(CommandPlan::GetBuffer)));
}

#[test]
fn defaults_of_missing_arguments() {
    let none = CommandArgs::default();
    assert_eq!(control("send_keys_to_tmux", &none), "send -t demo ");
    assert_eq!(control("select_pane", &none), "selectp -t demo -R");
    assert_eq!(control("select_window", &none), "selectw -t demo:1");
    assert_eq!(control("select_pane_by_id", &none), "selectp -t %0");
    assert_eq!(control("scroll_pane", &none), "copy-mode -t %0 ; send -t %0 -X scroll-down -N 1");
    assert_eq!(control("resize_pane", &none), "resizep -t %0 -R 1");
    assert!(matches!(
        route_command("resize_window", &none, "demo"),
        Ok(CommandPlan::ResizeWindow { cols: 80, rows: 24 })
    ));
    assert!(matches!(
        route_command("set_client_size", &none, "demo"),
        Ok(CommandPlan::SetClientSize { size: None })
    ));
    assert!(matches!(
        route_command("get_scrollback_cells", &none, "demo"),
        Ok(CommandPlan::GetScrollbackCells { pane_id, start: -200, end: -1 }) if pane_id == "%0"
    ));
    assert!(matches!(
        route_command("list_directory", &none, "demo"),
        Ok(CommandPlan::ListDirectory { path }) if path == "."
    ));
    assert!(matches!(
        route_command("send_mouse_event", &none, "demo"),
        Ok(CommandPlan::SendMouseEvent { pane_id, event_type, button: 0, x: 0, y: 0 })
            if pane_id == "%0" && event_type == "press"
    ));
    assert!(matches!(
        route_command("process_key", &none, "demo"),
        Ok(CommandPlan::ProcessKey { key }) if key.is_empty()
    ));
}

#[test]
fn commands_with_arguments() {
    let args = CommandArgs {
        keys: Some("C-c".to_string()),
        direction: Some("up".to_string()),
        pane_id: Some("%7".to_string()),
        window: Some("3".to_string()),
        amount: Some(5),
        adjustment: Some(12),
        cols: Some(120),
        rows: Some(40),
        ..CommandArgs::default()
    };
    assert_eq!(control("send_keys_to_tmux", &args), "send -t demo C-c");
    assert_eq!(control("select_pane", &args), "selectp -t demo -U");
    assert_eq!(control("select_window", &args), "selectw -t demo:3");
    assert_eq!(control("select_pane_by_id", &args), "selectp -t %7");
    assert_eq!(control("scroll_pane", &args), "copy-mode -t %7 ; send -t %7 -X scroll-up -N 5");
    assert_eq!(control("resize_pane", &args), "resizep -t %7 -up 12");
    assert!(matches!(
        route_command("set_client_size", &args, "demo"),
        Ok(CommandPlan::SetClientSize { size: Some((120, 40)) })
    ));
    assert!(matches!(
        route_command("get_initial_state", &args, "demo"),
        Ok(CommandPlan::GetInitialState { size: Some((120, 40)) })
    ));
    assert!(matches!(
        route_command("resize_window", &args, "demo"),
        Ok(CommandPlan::ResizeWindow { cols: 120, rows: 40 })
    ));
    let down = CommandArgs { direction: Some("down".to_string()), ..CommandArgs::default() };
    assert_eq!(control("select_pane", &down), "selectp -t demo -D");
    let left = CommandArgs { direction: Some("left".to_string()), ..CommandArgs::default() };
    assert_eq!(control("select_pane", &left), "selectp -t demo -L");
    let zero = CommandArgs { cols: Some(0), rows: Some(40), ..CommandArgs::default() };
    assert!(matches!(
        route_command("set_client_size", &zero, "demo"),
        Ok(CommandPlan::SetClientSize { size: None })
    ));
}

#[test]
fn prefix_bindings() {
    let key = |k: &str| CommandArgs { key: Some(k.to_string()), ..CommandArgs::default() };
    assert_eq!(control("execute_prefix_binding", &key("c")), "neww -t demo");
    assert_eq!(control("execute_prefix_binding", &key("\"")), "splitw -t demo -v");
    assert_eq!(control("execute_prefix_binding", &key("%")), "splitw -t demo -h");
    assert_eq!(control("execute_prefix_binding", &key("z")), "resizep -t demo -Z");
    assert_eq!(control("execute_prefix_binding", &key("o")), "selectp -t demo -t :.+");
    assert_eq!(control("execute_prefix_binding", &key(";")), "selectp -t demo -l");
    assert_eq!(control("execute_prefix_binding", &key("ArrowLeft")), "selectp -t demo -L");
    assert_eq!(control("execute_prefix_binding", &key("Up")), "selectp -t demo -U");
    assert_eq!(control("execute_prefix_binding", &key("7")), "selectw -t demo:7");
    assert_eq!(control("execute_prefix_binding", &key("[")), "copy-mode -t demo");
    assert_eq!(control("execute_prefix_binding", &key(" ")), "nextl -t demo");
    assert_eq!(control("execute_prefix_binding", &key("&")), "killw -t demo");
    assert_eq!(
        route_command("execute_prefix_binding", &key("Q"), "demo").unwrap_err(),
        "Unknown prefix key: Q"
    );
}

#[test]
fn errors_of_commands() {
    let none = CommandArgs::default();
    assert_eq!(route_command("fly", &none, "demo").unwrap_err(), "Unknown command: fly");
    let resize = CommandArgs {
        command: Some("resize-window -x 10 -y 10".to_string()),
        ..CommandArgs::default()
    };
    assert_eq!(
        route_command("run_tmux_command", &resize, "demo").unwrap_err(),
        "Blocked resize command: use set_client_size"
    );
    let short = CommandArgs { command: Some("resizew -x 10".to_string()), ..CommandArgs::default() };
    assert!(route_command("run_tmux_command", &short, "demo").is_err());
    let fine = CommandArgs { command: Some("swap-pane -U".to_string()), ..CommandArgs::default() };
    assert!(matches!(
        route_command("run_tmux_command", &fine, "demo"),
        Ok(CommandPlan::RunCommand { command }) if command == "swap-pane -U"
    ));
}
