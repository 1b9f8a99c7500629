use tmuxy_core::monitor::MonitorConfig;
use tmuxy_core::{is_float_window_name, parse_pane_group_window_name};
use std::time::Duration;

#[test]
fn test_parse_pane_group_window_name() {
    // Valid pane group window names
    let info = parse_pane_group_window_name("__%5_group_1").unwrap();
    assert_eq!(info.parent_pane_id, "%5");
    assert_eq!(info.pane_group_index, 1);

    let info = parse_pane_group_window_name("__%123_group_42").unwrap();
    assert_eq!(info.parent_pane_id, "%123");
    assert_eq!(info.pane_group_index, 42);

    // Invalid names should return None
    assert!(parse_pane_group_window_name("workspace").is_none());
    assert!(parse_pane_group_window_name("_workspace").is_none());
    assert!(parse_pane_group_window_name("__workspace").is_none());
    assert!(parse_pane_group_window_name("__%5_notgroup_1").is_none());
    assert!(parse_pane_group_window_name("__%5_group_").is_none());
    assert!(parse_pane_group_window_name("__%_group_1").is_none());
}

#[test]
fn test_config_default() {
    let config = MonitorConfig::default();
    assert_eq!(Duration::from_millis(config.sync_interval), Duration::from_millis(500));
    assert!(!config.create_session);
}

#[test]
fn float_window_names() {
    assert!(is_float_window_name("__float_notes"));
    assert!(is_float_window_name("__float_"));
    assert!(!is_float_window_name("_float_notes"));
    assert!(!is_float_window_name("notes__float_"));
}
