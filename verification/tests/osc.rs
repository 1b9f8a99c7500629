use tmuxy_core::base64::base64_decode;
use tmuxy_core::osc::OscParser;

#[test]
fn test_osc8_hyperlink() {
    let mut parser = OscParser::new();

    // OSC 8 start with URL
    let input = b"\x1b]8;;https://example.com\x07hello\x1b]8;;\x07";
    let output = parser.process(input);

    // Output should have OSC sequences stripped
    assert_eq!(output, b"hello");

    // Should have URL mapped for "hello" characters (cols 0-4)
    assert_eq!(
        parser.get_url(0, 0),
        Some(&"https://example.com".to_string())
    );
    assert_eq!(
        parser.get_url(0, 4),
        Some(&"https://example.com".to_string())
    );
    assert_eq!(parser.get_url(0, 5), None);
}

#[test]
fn test_osc52_clipboard() {
    let mut parser = OscParser::new();

    // OSC 52 with base64-encoded "hello"
    let input = b"\x1b]52;c;aGVsbG8=\x07";
    let _ = parser.process(input);

    assert_eq!(parser.take_clipboard(), Some("hello".to_string()));
}

#[test]
fn test_base64_decode() {
    assert_eq!(base64_decode("aGVsbG8=").unwrap(), b"hello");
    assert_eq!(base64_decode("dGVzdA==").unwrap(), b"test");
}

#[test]
fn base64_rejects_other_characters() {
    assert_eq!(base64_decode("aGV*bG8="), Err("Invalid base64 character"));
    // what follows the first `=` is not looked at
    assert_eq!(base64_decode("aGVsbG8=*").unwrap(), b"hello");
    // line feeds, carriage returns and spaces are passed over
    assert_eq!(base64_decode("aGVs\r\nbG 8=").unwrap(), b"hello");
    assert_eq!(base64_decode("").unwrap(), b"");
}

#[test]
fn osc8_maps_cells_and_strips_sequences() {
    let mut parser = OscParser::new();
    let output = parser.process(b"\x1b]8;;URL\x07abc\x1b]8;;\x07");
    assert_eq!(output, b"abc");
    let url = "URL".to_string();
    assert_eq!(parser.get_url(0, 0), Some(&url));
    assert_eq!(parser.get_url(0, 1), Some(&url));
    assert_eq!(parser.get_url(0, 2), Some(&url));
    assert_eq!(parser.get_url(0, 3), None);
    assert_eq!(parser.hyperlinks.len(), 1);
    assert_eq!(parser.hyperlinks[0].start_col, 0);
    assert_eq!(parser.hyperlinks[0].end_col, 3);
    assert_eq!(parser.hyperlinks[0].url, "URL");
    assert_eq!(parser.hyperlinks[0].id, None);
}

#[test]
fn osc8_with_string_terminator_and_id() {
    let mut parser = OscParser::new();
    let output = parser.process(b"x\n\x1b]8;a=b:id=link1;http://h\x1b\\yz\r\x1b]8;;\x1b\\");
    assert_eq!(output, b"x\nyz\r");
    assert_eq!(parser.get_url(1, 0), Some(&"http://h".to_string()));
    assert_eq!(parser.get_url(1, 1), Some(&"http://h".to_string()));
    assert_eq!(parser.get_url(0, 0), None);
    assert_eq!(parser.hyperlinks[0].id, Some("link1".to_string()));
    assert_eq!(parser.hyperlinks[0].start_row, 1);
    assert_eq!(parser.hyperlinks[0].end_row, 1);
    assert_eq!(parser.hyperlinks[0].end_col, 0);
}

#[test]
fn osc_without_terminator_is_output() {
    let mut parser = OscParser::new();
    let output = parser.process(b"\x1b]8;;URL");
    assert_eq!(output, b"\x1b]8;;URL");
}

#[test]
fn osc_reset_forgets_everything() {
    let mut parser = OscParser::new();
    parser.process(b"\x1b]8;;URL\x07abc\x1b]52;c;aGVsbG8=\x07");
    parser.reset();
    assert_eq!(parser.get_url(0, 0), None);
    assert_eq!(parser.take_clipboard(), None);
    assert!(parser.hyperlinks.is_empty());
    parser.update_cursor(3, 7);
    parser.process(b"\x1b]8;;U\x07a");
    assert_eq!(parser.get_url(3, 7), Some(&"U".to_string()));
}

#[test]
fn osc52_invalid_data_changes_nothing() {
    let mut parser = OscParser::new();
    parser.process(b"\x1b]52;c;****\x07");
    assert_eq!(parser.take_clipboard(), None);
    // bytes that are no UTF-8: 0xff 0xfe
    parser.process(b"\x1b]52;c;//4=\x07");
    assert_eq!(parser.take_clipboard(), None);
}
