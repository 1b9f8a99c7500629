use tmuxy_core::octal::decode_octal;

#[test]
fn test_decode_esc() {
    // ESC = 033 octal = 0x1b
    assert_eq!(decode_octal(r"\033"), vec![0x1b]);
    assert_eq!(decode_octal(r"\033[0m"), vec![0x1b, b'[', b'0', b'm']);
}

#[test]
fn test_decode_backslash() {
    // Backslash = 134 octal = 0x5c
    assert_eq!(decode_octal(r"\134"), vec![b'\\']);
}

#[test]
fn test_decode_newline() {
    // Newline = 012 octal = 0x0a
    assert_eq!(decode_octal(r"\012"), vec![0x0a]);
}

#[test]
fn test_decode_carriage_return() {
    // CR = 015 octal = 0x0d
    assert_eq!(decode_octal(r"\015"), vec![0x0d]);
}

#[test]
fn test_decode_tab() {
    // Tab = 011 octal = 0x09
    assert_eq!(decode_octal(r"\011"), vec![0x09]);
}

#[test]
fn test_decode_mixed() {
    let input = r"Hello\033[1mWorld\033[0m";
    let expected = b"Hello\x1b[1mWorld\x1b[0m";
    assert_eq!(decode_octal(input), expected.to_vec());
}

#[test]
fn test_decode_no_escapes() {
    assert_eq!(decode_octal("Hello World"), b"Hello World".to_vec());
}

#[test]
fn test_decode_incomplete_escape() {
    // Not enough digits after backslash
    assert_eq!(decode_octal(r"\03"), b"\\03".to_vec());
    assert_eq!(decode_octal(r"\0"), b"\\0".to_vec());
    assert_eq!(decode_octal(r"\"), b"\\".to_vec());
}

#[test]
fn test_decode_invalid_octal_digits() {
    // 8 and 9 are not octal digits
    assert_eq!(decode_octal(r"\089"), b"\\089".to_vec());
    assert_eq!(decode_octal(r"\999"), b"\\999".to_vec());
}

#[test]
fn test_decode_bell() {
    // BEL = 007 octal = 0x07
    assert_eq!(decode_octal(r"\007"), vec![0x07]);
}

#[test]
fn test_decode_osc_sequence() {
    // OSC 8 hyperlink: \033]8;;url\033\\text\033]8;;\033\\
    let input = r"\033]8;;https://example.com\033\134Link\033]8;;\033\134";
    let decoded = decode_octal(input);
    // Should contain ESC ] 8 ; ; url ESC \ Link ESC ] 8 ; ; ESC \
    assert_eq!(decoded[0], 0x1b); // ESC
    assert_eq!(decoded[1], b']');
    assert_eq!(decoded[2], b'8');
}

#[test]
fn decode_value_above_byte_is_literal() {
    // 400 octal is 256: the escape is not taken
    assert_eq!(decode_octal(r"\400"), b"\\400".to_vec());
    // 377 octal is 255: the largest byte
    assert_eq!(decode_octal(r"\377"), vec![0xff]);
}

#[test]
fn decode_undoes_tmux_escaping_of_every_byte() {
    let raw: Vec<u8> = (0..=255u8).collect();
    let mut encoded: Vec<u8> = Vec::new();
    for b in &raw {
        if *b < 0x20 || *b == b'\\' {
            encoded.push(b'\\');
            encoded.push(b'0' + b / 64);
            encoded.push(b'0' + (b / 8) % 8);
            encoded.push(b'0' + b % 8);
        } else {
            encoded.push(*b);
        }
    }
    assert_eq!(tmuxy_core::octal::decode_octal_bytes(&encoded), raw);
}
