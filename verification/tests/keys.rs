use tmuxy_core::keys::{execute_prefix_binding, KeyAction};
use tmuxy_core::targets::{add_session_target_if_needed, process_compound_command, run_tmux_command, run_tmux_command_for_session};
use tmuxy_core::{get_prefix_bindings, get_prefix_key, get_root_bindings, process_key};

const PREFIX_KEYS: &str = "bind-key    -T prefix \\%  split-window -h\nbind-key    -T prefix c   new-window\nbind-key    -T prefix z   resize-pane -Z\nbind-key    -T root   C-h select-pane -L\nbind-key    -T prefix r   source-file ~/.tmux.conf\nbind-key    -T prefix m   select-pane -t :.+ -m\nbind-key -T prefix x\n";

#[test]
fn prefix_bindings_are_described() {
    let bindings = get_prefix_bindings(PREFIX_KEYS);
    assert_eq!(bindings.len(), 5);
    assert_eq!(bindings[0].key, "%");
    assert_eq!(bindings[0].command, "split-window -h");
    assert_eq!(bindings[0].description, "Split pane vertically");
    assert_eq!(bindings[1].key, "c");
    assert_eq!(bindings[1].description, "Create new window");
    assert_eq!(bindings[2].description, "Toggle pane fullscreen");
    assert_eq!(bindings[3].command, "source-file ~/.tmux.conf");
    assert_eq!(bindings[3].description, "source-file ~/.tmux.conf");
    assert_eq!(bindings[4].description, "Select pane");
}

#[test]
fn root_bindings_are_not_described() {
    let bindings = get_root_bindings(PREFIX_KEYS);
    assert_eq!(bindings.len(), 1);
    assert_eq!(bindings[0].key, "C-h");
    assert_eq!(bindings[0].command, "select-pane -L");
    assert_eq!(bindings[0].description, "");
}

#[test]
fn prefix_key() {
    assert_eq!(get_prefix_key("prefix C-a\n"), "C-a");
    assert_eq!(get_prefix_key(""), "C-b");
    assert_eq!(get_prefix_key("prefix\n"), "C-b");
}

#[test]
fn prefix_binding_invocations() {
    let strings = |v: &[&str]| v.iter().map(|s| s.to_string()).collect::<Vec<String>>();
    assert_eq!(
        execute_prefix_binding("demo", "%", PREFIX_KEYS).unwrap(),
        strings(&["split-window", "-h", "-t", "demo"])
    );
    assert_eq!(
        execute_prefix_binding("demo", "r", PREFIX_KEYS).unwrap(),
        strings(&["source-file", "~/.tmux.conf"])
    );
    assert_eq!(
        execute_prefix_binding("demo", "m", PREFIX_KEYS).unwrap(),
        strings(&["select-pane", "-t", ":.+", "-m"])
    );
    assert_eq!(
        execute_prefix_binding("demo", "C-h", PREFIX_KEYS).unwrap_err(),
        "No prefix binding found for key: C-h"
    );
}

#[test]
fn keys_without_prefix() {
    let bindings = get_root_bindings(
        "bind-key -T root C-h select-pane -L\nbind-key -T root C-n display-message -p #{session_name}\n",
    );
    match process_key("demo", "C-h", &bindings) {
        KeyAction::Shell { line } => assert_eq!(line, "tmux select-pane -L -t demo"),
        other => panic!("expected a shell command, got {:?}", other),
    }
    match process_key("demo", "C-n", &bindings) {
        KeyAction::Shell { line } => assert_eq!(line, "tmux display-message -p demo -t demo"),
        other => panic!("expected a shell command, got {:?}", other),
    }
    match process_key("demo", "x", &bindings) {
        KeyAction::SendKeys { args } => assert_eq!(args, vec!["send-keys", "-t", "demo", "x"]),
        other => panic!("expected keys to send, got {:?}", other),
    }
}

#[test]
fn commands_are_aimed_at_the_session() {
    assert_eq!(add_session_target_if_needed("s", "split-window -h").unwrap(), "split-window -h -t s");
    assert_eq!(add_session_target_if_needed("s", "select-window 3").unwrap(), "select-window -t s:3");
    assert_eq!(add_session_target_if_needed("s", "select-window @3").unwrap(), "select-window -t s:@3");
    assert_eq!(add_session_target_if_needed("s", "select-window -n").unwrap(), "select-window -n -t s");
    assert_eq!(add_session_target_if_needed("s", "select-window -T 3").unwrap(), "select-window -T 3 -t s");
    assert_eq!(add_session_target_if_needed("s", "list-sessions").unwrap(), "list-sessions");
    assert_eq!(add_session_target_if_needed("s", "kill-window  -t   :2").unwrap(), "kill-window -t s:2");
    assert_eq!(add_session_target_if_needed("s", "").unwrap(), "");
    assert_eq!(
        process_compound_command("s", r"swap-pane -s %0 -t %1 \; select-layout tiled \;  \; kill-pane").unwrap(),
        r"swap-pane -s %0 -t %1 \; select-layout tiled \; kill-pane -t s"
    );
    assert_eq!(run_tmux_command_for_session("s", "new-window").unwrap(), "tmux new-window -t s");
    assert_eq!(run_tmux_command("next-window").unwrap(), "tmux next-window -t tmuxy");
    assert_eq!(run_tmux_command_for_session("s", "  \t ").unwrap_err(), "Empty command");
}
