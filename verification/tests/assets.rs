use tmuxy_core::assets::{float_window_name_for, mime_for_path, simple_hash, use_control_mode};
use tmuxy_core::executor::{parse_panes_info, parse_windows};
use tmuxy_core::model::is_float_window_name;
use tmuxy_core::polling::{capture_state, capture_window_state, capture_window_state_for_session};

#[test]
fn media_types_by_extension() {
    assert_eq!(mime_for_path("index.html"), "text/html; charset=utf-8");
    assert_eq!(mime_for_path("assets/app.min.js"), "application/javascript");
    assert_eq!(mime_for_path("a.mjs"), "application/javascript");
    assert_eq!(mime_for_path("style.css"), "text/css; charset=utf-8");
    assert_eq!(mime_for_path("app.js.map"), "application/json");
    assert_eq!(mime_for_path("data.json"), "application/json");
    assert_eq!(mime_for_path("logo.svg"), "image/svg+xml");
    assert_eq!(mime_for_path("a.png"), "image/png");
    assert_eq!(mime_for_path("a.jpg"), "image/jpeg");
    assert_eq!(mime_for_path("a.jpeg"), "image/jpeg");
    assert_eq!(mime_for_path("a.gif"), "image/gif");
    assert_eq!(mime_for_path("favicon.ico"), "image/x-icon");
    assert_eq!(mime_for_path("f.woff"), "font/woff");
    assert_eq!(mime_for_path("f.woff2"), "font/woff2");
    assert_eq!(mime_for_path("f.ttf"), "font/ttf");
    assert_eq!(mime_for_path("m.wasm"), "application/wasm");
    assert_eq!(mime_for_path("archive.tar"), "application/octet-stream");
    assert_eq!(mime_for_path("README"), "application/octet-stream");
    // a name without a dot is its own extension
    assert_eq!(mime_for_path("html"), "text/html; charset=utf-8");
    assert_eq!(mime_for_path(""), "application/octet-stream");
}

#[test]
fn fingerprint_of_a_text() {
    assert_eq!(simple_hash(""), "0000000000000000");
    assert_eq!(simple_hash("a"), "0000000000000080");
    assert_eq!(simple_hash("ab"), "00000000000013a4");
    assert_ne!(simple_hash("ab"), simple_hash("ba"));
    // long texts wrap around within 64 bits
    let long = "z".repeat(200);
    let mut expected: u64 = 200;
    for (i, b) in long.bytes().enumerate() {
        expected = expected.wrapping_mul(31).wrapping_add(b as u64).wrapping_add(i as u64);
    }
    assert_eq!(simple_hash(&long), format!("{:016x}", expected));
}

#[test]
fn float_windows_are_named_by_the_pane() {
    assert_eq!(float_window_name_for("%12"), "__float_12");
    assert_eq!(float_window_name_for("7"), "__float_7");
    assert_eq!(float_window_name_for("%%3"), "__float_3");
    assert!(is_float_window_name(&float_window_name_for("%12")));
}

#[test]
fn polling_is_asked_for_by_one_or_true() {
    assert!(use_control_mode(None));
    assert!(use_control_mode(Some("0")));
    assert!(use_control_mode(Some("")));
    assert!(use_control_mode(Some("TRUE")));
    assert!(!use_control_mode(Some("1")));
    assert!(!use_control_mode(Some("true")));
}

#[test]
fn polled_state_of_the_default_session() {
    let listing = "%0,0,0,0,40,24,1,2,1,bash,h,0,0,0,@0,b,,";
    let contents = vec!["left".to_string()];
    let state = capture_state(
        parse_panes_info(listing),
        &contents,
        parse_windows("@0,0,main,1"),
        "st".to_string(),
    )
    .unwrap();
    assert_eq!(state.session_name, "tmuxy");
    assert_eq!(state.panes.len(), 1);
    assert_eq!(state.status_line, "st");
    let state = capture_window_state(
        parse_panes_info(listing),
        &contents,
        parse_windows("@0,0,main,1"),
        String::new(),
    )
    .unwrap();
    assert_eq!(state.session_name, "tmuxy");
    let state = capture_window_state_for_session(
        "other",
        parse_panes_info(listing),
        &contents,
        parse_windows("@0,0,main,1"),
        String::new(),
    )
    .unwrap();
    assert_eq!(state.session_name, "other");
    assert_eq!(state.active_pane_id, Some("%0".to_string()));
    assert_eq!(
        capture_state(parse_panes_info(listing), &Vec::new(), Vec::new(), String::new())
            .unwrap_err(),
        "Missing pane content"
    );
}
