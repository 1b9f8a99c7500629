use tmuxy_core::status::{
    capture_status_line, color_to_ansi, convert_tmux_style_to_ansi, split_shell_commands,
    tmux_style_to_ansi, truncate_ansi, visible_len, FormatPiece,
};

#[test]
fn visible_length_leaves_escapes_out() {
    assert_eq!(visible_len("abc"), 3);
    assert_eq!(visible_len("\x1b[1mbold\x1b[0m"), 4);
    assert_eq!(visible_len("\x1b[38;2;1;2;3"), 0);
    assert_eq!(visible_len(""), 0);
}

#[test]
fn truncation_keeps_escapes() {
    assert_eq!(truncate_ansi("\x1b[1mbold\x1b[0m text", 2), "\x1b[1mbo");
    assert_eq!(truncate_ansi("\x1b[1mbold\x1b[0m", 4), "\x1b[1mbold\x1b[0m");
    assert_eq!(truncate_ansi("abc", 0), "");
    assert_eq!(truncate_ansi("\x1b[1mabc", 0), "\x1b[1m");
}

#[test]
fn colours() {
    assert_eq!(color_to_ansi("default", true), Some("39".to_string()));
    assert_eq!(color_to_ansi("default", false), Some("49".to_string()));
    assert_eq!(color_to_ansi("#89b4fa", true), Some("38;2;137;180;250".to_string()));
    assert_eq!(color_to_ansi("#FFFFFF", false), Some("48;2;255;255;255".to_string()));
    assert_eq!(color_to_ansi("208", true), Some("38;5;208".to_string()));
    assert_eq!(color_to_ansi("256", true), None);
    assert_eq!(color_to_ansi("red", false), Some("48;5;1".to_string()));
    assert_eq!(color_to_ansi("BrightWhite", true), Some("38;5;15".to_string()));
    assert_eq!(color_to_ansi("#12345", true), None);
    assert_eq!(color_to_ansi("#12345g", true), None);
    assert_eq!(color_to_ansi("colour1", true), None);
}

#[test]
fn styles() {
    assert_eq!(tmux_style_to_ansi(""), "\x1b[0m");
    assert_eq!(tmux_style_to_ansi("default"), "\x1b[0m");
    assert_eq!(tmux_style_to_ansi("bold"), "\x1b[1m");
    assert_eq!(tmux_style_to_ansi("fg=#89b4fa, bold ,bg=red"), "\x1b[38;2;137;180;250;1;48;5;1m");
    assert_eq!(tmux_style_to_ansi("nounderscore,strikethrough"), "\x1b[24;9m");
    assert_eq!(tmux_style_to_ansi("align=left"), "");
    assert_eq!(
        convert_tmux_style_to_ansi("#[fg=green]ok#[default] 100## #[bold"),
        "\x1b[38;5;2mok\x1b[0m 100# \x1b[1m"
    );
    assert_eq!(convert_tmux_style_to_ansi("a#"), "a#");
}

#[test]
fn status_line_is_padded_to_the_width() {
    let line = capture_status_line("10\n20\n", "[demo] \n", "0:bash* 1:vim \n", " 12:00\n", 40);
    // 7 and 13 and 6 columns are used: 14 spaces fill the line
    assert_eq!(line, format!("[demo] 0:bash* 1:vim{} 12:00", " ".repeat(14)));
    assert_eq!(visible_len(&line), 40);
    // parts that fill the line are separated by one space
    let line = capture_status_line("3\n4", "#[bold]left", "mid", "right!", 5);
    assert_eq!(line, "\x1b[1mlefmid righ");
    // lengths that are missing count as 30 and 50
    let line = capture_status_line("", "l", "", "r", 4);
    assert_eq!(line, "l  r");
}

#[test]
fn shell_commands_in_formats() {
    let pieces = split_shell_commands("up #(uptime | cut -d, -f1) #(echo (a)) tail #(open");
    let seen: Vec<(bool, String)> = pieces
        .into_iter()
        .map(|p| match p {
            FormatPiece::Text { text } => (false, text),
            FormatPiece::Command { command } => (true, command),
        })
        .collect();
    assert_eq!(
        seen,
        vec![
            (false, "up ".to_string()),
            (true, "uptime | cut -d, -f1".to_string()),
            (false, " ".to_string()),
            (true, "echo (a)".to_string()),
            (false, " tail ".to_string()),
            (true, "open".to_string()),
        ]
    );
    assert!(split_shell_commands("").is_empty());
}

#[test]
fn status_line_fills_its_width() {
    // styled parts with complete escape sequences: the line shows exactly
    // as many columns as asked for
    let line = capture_status_line(
        "10\n20\n",
        "#[fg=green,bold][demo] \n",
        "0:bash 1:vim* \n",
        "#[fg=colour240]12:00\n",
        60,
    );
    assert_eq!(visible_len(&line), 60);
    assert!(line.starts_with("\u{1b}["));
    assert!(line.ends_with("12:00"));
    // where the parts leave no room, one space parts the windows from the right
    let line = capture_status_line("10\n20\n", "[demo] ", "0:bash 1:vim* ", "12:00", 5);
    assert_eq!(line, "[demo] 0:bash 1:vim* 12:00");
    assert_eq!(visible_len(&line), 26);
}
