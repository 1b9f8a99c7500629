use tmuxy_core::executor::{
    capture_pane, capture_pane_by_id, capture_pane_default, capture_pane_with_history,
    get_all_panes_info, get_pane_info, get_windows, kill_pane, kill_window, new_window,
    next_window, parse_pane_info, parse_panes_info, parse_windows, previous_window, resize_pane,
    enter_copy_mode, resize_window, resize_window_commands, scroll_pane, select_pane,
    select_pane_by_id,
    select_window, send_keys, send_keys_default, send_mouse_event, show_buffer,
    split_pane_horizontal, split_pane_vertical,
};
use tmuxy_core::session::{create_or_attach, create_or_attach_default, create_session};

fn strings(v: &[&str]) -> Vec<String> {
    v.iter().map(|s| s.to_string()).collect()
}

#[test]
fn simple_invocations() {
    assert_eq!(capture_pane("s"), strings(&["capture-pane", "-t", "s", "-p", "-e"]));
    assert_eq!(capture_pane_default(), strings(&["capture-pane", "-t", "tmuxy", "-p", "-e"]));
    assert_eq!(
        capture_pane_with_history("s"),
        strings(&["capture-pane", "-t", "s", "-p", "-e", "-S", "-"])
    );
    assert_eq!(capture_pane_by_id("%3"), strings(&["capture-pane", "-t", "%3", "-p", "-e"]));
    assert_eq!(show_buffer(), strings(&["show-buffer"]));
    assert_eq!(send_keys("s", "Enter"), strings(&["send-keys", "-t", "s", "Enter"]));
    assert_eq!(send_keys_default("q"), strings(&["send-keys", "-t", "tmuxy", "q"]));
    assert_eq!(split_pane_horizontal("s"), strings(&["split-window", "-t", "s", "-h"]));
    assert_eq!(split_pane_vertical("s"), strings(&["split-window", "-t", "s", "-v"]));
    assert_eq!(new_window("s"), strings(&["new-window", "-t", "s"]));
    assert_eq!(next_window("s"), strings(&["next-window", "-t", "s"]));
    assert_eq!(previous_window("s"), strings(&["previous-window", "-t", "s"]));
    assert_eq!(kill_pane("s"), strings(&["kill-pane", "-t", "s"]));
    assert_eq!(kill_window("s"), strings(&["kill-window", "-t", "s"]));
    assert_eq!(select_pane_by_id("%1"), strings(&["select-pane", "-t", "%1"]));
    assert_eq!(select_window("s", "2"), strings(&["select-window", "-t", "s:2"]));
    assert_eq!(
        get_pane_info("s"),
        strings(&[
            "display-message",
            "-t",
            "s",
            "-p",
            "#{pane_width},#{pane_height},#{cursor_x},#{cursor_y}"
        ])
    );
    assert_eq!(resize_window("s"), strings(&["list-windows", "-t", "s", "-F", "#{window_id}"]));
    assert_eq!(get_windows("s")[4], "#{window_id},#{window_index},#{window_name},#{window_active}");
    assert_eq!(get_all_panes_info("s")[..5], strings(&["list-panes", "-s", "-t", "s", "-F"])[..]);
}

#[test]
fn directions() {
    assert_eq!(select_pane("s", "up").unwrap(), strings(&["select-pane", "-t", "s", "-U"]));
    assert_eq!(select_pane("s", "D").unwrap(), strings(&["select-pane", "-t", "s", "-D"]));
    assert_eq!(select_pane("s", "left").unwrap(), strings(&["select-pane", "-t", "s", "-L"]));
    assert_eq!(select_pane("s", "R").unwrap(), strings(&["select-pane", "-t", "s", "-R"]));
    assert_eq!(select_pane("s", "north").unwrap_err(), "Invalid direction: north");
    assert_eq!(
        resize_pane("%1", "L", 5).unwrap(),
        strings(&["resize-pane", "-t", "%1", "-L", "5"])
    );
    assert_eq!(resize_pane("%1", "x", 5).unwrap_err(), "Invalid resize direction: x");
}

#[test]
fn scrolling() {
    let plan = scroll_pane("%2", "up", 3);
    assert_eq!(plan.enter, strings(&["copy-mode", "-t", "%2"]));
    assert_eq!(plan.scroll, Ok(strings(&["send-keys", "-t", "%2", "-X", "scroll-up"])));
    assert_eq!(plan.times, 3);
    let plan = scroll_pane("%2", "down", 0);
    assert_eq!(plan.scroll, Ok(strings(&["send-keys", "-t", "%2", "-X", "scroll-down"])));
    assert_eq!(plan.times, 0);
    // copy mode is entered before the direction is found wrong
    let plan = scroll_pane("%2", "sideways", 1);
    assert_eq!(plan.enter, strings(&["copy-mode", "-t", "%2"]));
    assert_eq!(plan.scroll, Err("Invalid scroll direction: sideways".to_string()));
    assert_eq!(enter_copy_mode("%5"), strings(&["copy-mode", "-t", "%5"]));
}

#[test]
fn mouse_events() {
    assert_eq!(
        send_mouse_event("%0", "press", 0, 4, 9),
        strings(&["send-keys", "-t", "%0", "-l", "\x1b[<0;5;10M"])
    );
    assert_eq!(send_mouse_event("%0", "release", 2, 0, 0)[4], "\x1b[<2;1;1m");
    assert_eq!(send_mouse_event("%0", "drag", 0, 79, 23)[4], "\x1b[<32;80;24M");
    assert_eq!(
        send_mouse_event("%0", "drag", 4294967295, 4294967295, 4294967295)[4],
        "\x1b[<4294967327;4294967296;4294967296M"
    );
}

#[test]
fn pane_info() {
    assert_eq!(parse_pane_info(" 80,24,5,10\n"), Ok((80, 24, 5, 10)));
    assert_eq!(parse_pane_info("80,24,5").unwrap_err(), "Invalid pane info format");
    assert_eq!(parse_pane_info("w,24,5,10").unwrap_err(), "Invalid width");
    assert_eq!(parse_pane_info("80,-1,5,10").unwrap_err(), "Invalid height");
    assert_eq!(parse_pane_info("80,24,,10").unwrap_err(), "Invalid cursor_x");
    assert_eq!(parse_pane_info("80,24,5,4294967296").unwrap_err(), "Invalid cursor_y");
}

#[test]
fn listings() {
    let panes = parse_panes_info(
        "%0,0,0,0,80,24,1,2,1,bash,host,0,0,0,@0,border,%9,3\nshort,line\n%1,1,80,0,x,y,0,0,0,vim,t,1,4,5\n",
    );
    assert_eq!(panes.len(), 2);
    assert_eq!(panes[0].id, "%0");
    assert_eq!((panes[0].width, panes[0].height), (80, 24));
    assert_eq!((panes[0].cursor_x, panes[0].cursor_y), (1, 2));
    assert!(panes[0].active);
    assert_eq!(panes[0].window_id, "@0");
    assert_eq!(panes[0].border_title, "border");
    assert_eq!(panes[0].group_id, Some("%9".to_string()));
    assert_eq!(panes[0].group_tab_index, Some(3));
    assert_eq!((panes[1].width, panes[1].height), (80, 24));
    assert_eq!(panes[1].x, 80);
    assert!(panes[1].in_mode);
    assert_eq!((panes[1].copy_cursor_x, panes[1].copy_cursor_y), (4, 5));
    assert_eq!(panes[1].window_id, "");
    assert_eq!(panes[1].group_id, None);
    let windows = parse_windows("@0,0,main,1\n@1,1,logs,0\nbad\n");
    assert_eq!(windows.len(), 2);
    assert_eq!(windows[1].id, "@1");
    assert_eq!(windows[1].index, 1);
    assert_eq!(windows[1].name, "logs");
    assert!(windows[0].active);
    assert!(!windows[1].active);
}

#[test]
fn resizing_all_windows() {
    assert_eq!(
        resize_window_commands("@0\n@3\n", 100, 40),
        strings(&[
            "resize-window", "-t", "@0", "-x", "100", "-y", "40", ";", "resize-window", "-t",
            "@3", "-x", "100", "-y", "40"
        ])
    );
    assert_eq!(
        resize_window_commands("@0", 1, 2),
        strings(&["resize-window", "-t", "@0", "-x", "1", "-y", "2"])
    );
    assert!(resize_window_commands("\n", 1, 2).is_empty());
}

#[test]
fn sessions() {
    assert_eq!(create_session("s", None), strings(&["new-session", "-d", "-s", "s"]));
    assert_eq!(
        create_session("s", Some("/c")),
        strings(&["-f", "/c", "new-session", "-d", "-s", "s"])
    );
    assert_eq!(create_or_attach(false, "s", None), Some(strings(&["new-session", "-d", "-s", "s"])));
    assert_eq!(create_or_attach(true, "s", Some("/c")), Some(strings(&["source-file", "/c"])));
    assert_eq!(create_or_attach(true, "s", None), None);
    assert_eq!(
        create_or_attach_default(false, None),
        Some(strings(&["new-session", "-d", "-s", "tmuxy"]))
    );
}
