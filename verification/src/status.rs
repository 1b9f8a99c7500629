//! Rendering the status line of tmux with ANSI escape sequences.
//!
//! tmux writes styles into its status line as `#[...]`. For clients these
//! are turned into the escape sequences that select the same graphics.

use crate::text;
use vstd::prelude::*;

verus! {

/// The escape character.
pub const ESC: char = '\u{1b}';

/// The number of characters of `s` from index `k` on that a terminal
/// shows: those outside escape sequences. An escape sequence begins with the
/// escape character and ends with `m`; `in_escape` tells whether index `k`
/// lies within one.
pub open spec fn visible_from(s: Seq<char>, k: int, in_escape: bool) -> nat
    decreases s.len() - k,
{
    if k < 0 || k >= s.len() {
        0
    } else if in_escape {
        visible_from(s, k + 1, s[k] != 'm')
    } else if s[k] == ESC {
        visible_from(s, k + 1, true)
    } else {
        1 + visible_from(s, k + 1, false)
    }
}

/// The number of characters of `s` that a terminal shows.
pub open spec fn visible_length(s: Seq<char>) -> nat {
    visible_from(s, 0, false)
}

/// Counts the characters of `s` that a terminal shows.
pub fn visible_len_chars(s: &[char]) -> (n: usize)
    ensures
        n == visible_length(s@),
{
    let mut n: usize = 0;
    let mut in_escape = false;
    let mut k: usize = 0;
    while k < s.len()
        invariant
            k <= s@.len(),
            n <= k,
            visible_length(s@) == n + visible_from(s@, k as int, in_escape),
        decreases s@.len() - k,
    {
        if in_escape {
            if s[k] == 'm' {
                in_escape = false;
            }
        } else if s[k] == ESC {
            in_escape = true;
        } else {
            n += 1;
        }
        k += 1;
    }
    n
}

/// Counts the characters of `s` that a terminal shows.
pub fn visible_len(s: &str) -> (n: usize)
    ensures
        n == visible_length(s@),
{
    let chars = text::chars_of(s);
    visible_len_chars(chars.as_slice())
}

/// `s` from index `k` on, cut behind the `room`-th character from there
/// that a terminal shows. Escape sequences before the cut are kept.
pub open spec fn truncated_from(s: Seq<char>, k: int, in_escape: bool, room: nat) -> Seq<char>
    decreases s.len() - k,
{
    if k < 0 || k >= s.len() {
        Seq::empty()
    } else if in_escape {
        seq![s[k]] + truncated_from(s, k + 1, s[k] != 'm', room)
    } else if s[k] == ESC {
        seq![s[k]] + truncated_from(s, k + 1, true, room)
    } else if room == 0 {
        Seq::empty()
    } else {
        seq![s[k]] + truncated_from(s, k + 1, false, (room - 1) as nat)
    }
}

/// `s` cut to at most `max_visible` characters that a terminal shows.
pub open spec fn truncated(s: Seq<char>, max_visible: nat) -> Seq<char> {
    truncated_from(s, 0, false, max_visible)
}

/// Cuts `s` to at most `max_visible` characters that a terminal shows.
pub fn truncate_ansi_chars(s: &[char], max_visible: usize) -> (out: Vec<char>)
    ensures
        out@ == truncated(s@, max_visible as nat),
{
    let mut out: Vec<char> = Vec::new();
    let mut room: usize = max_visible;
    let mut in_escape = false;
    let mut k: usize = 0;
    while k < s.len()
        invariant
            k <= s@.len(),
            truncated(s@, max_visible as nat) == out@ + truncated_from(
                s@,
                k as int,
                in_escape,
                room as nat,
            ),
        decreases s@.len() - k,
    {
        let c = s[k];
        let ghost before = out@;
        if in_escape {
            out.push(c);
            if c == 'm' {
                in_escape = false;
            }
        } else if c == ESC {
            in_escape = true;
            out.push(c);
        } else {
            if room == 0 {
                assert(out@ + Seq::<char>::empty() =~= out@);
                return out;
            }
            out.push(c);
            room -= 1;
        }
        assert(truncated(s@, max_visible as nat) =~= out@ + truncated_from(
            s@,
            k + 1,
            in_escape,
            room as nat,
        ));
        k += 1;
    }
    assert(out@ + Seq::<char>::empty() =~= out@);
    out
}

/// Cuts `s` to at most `max_visible` characters that a terminal shows.
pub fn truncate_ansi(s: &str, max_visible: usize) -> (r: String)
    ensures
        r@ == truncated(s@, max_visible as nat),
{
    let chars = text::chars_of(s);
    let out = truncate_ansi_chars(chars.as_slice(), max_visible);
    text::string_of(out.as_slice())
}

/// The number of a hexadecimal digit.
pub open spec fn hex_digit(c: char) -> Option<nat> {
    if '0' <= c <= '9' {
        Some((c as u32 - '0' as u32) as nat)
    } else if 'a' <= c <= 'f' {
        Some((c as u32 - 'a' as u32 + 10) as nat)
    } else if 'A' <= c <= 'F' {
        Some((c as u32 - 'A' as u32 + 10) as nat)
    } else {
        None
    }
}

/// The byte that two characters write in base 16: two hexadecimal digits,
/// or a plus sign and one.
pub open spec fn hex_pair(a: char, b: char) -> Option<u8> {
    match (hex_digit(a), hex_digit(b)) {
        (Some(x), Some(y)) => Some((x * 16 + y) as u8),
        (None, Some(y)) => if a == '+' {
            Some(y as u8)
        } else {
            None
        },
        _ => None,
    }
}

/// `c` in lower case where its lower case is an ASCII letter.
pub open spec fn folded(c: char) -> char {
    if 'A' <= c <= 'Z' {
        ((c as u32) + 32) as char
    } else if c == '\u{212a}' {
        'k'
    } else {
        c
    }
}

/// `s` with every character [`folded`].
pub open spec fn folded_text(s: Seq<char>) -> Seq<char> {
    Seq::new(s.len(), |i: int| folded(s[i]))
}

/// The names of the sixteen basic colours, in the order of their indices.
pub open spec fn color_names() -> Seq<Seq<char>> {
    seq![
        "black"@,
        "red"@,
        "green"@,
        "yellow"@,
        "blue"@,
        "magenta"@,
        "cyan"@,
        "white"@,
        "brightblack"@,
        "brightred"@,
        "brightgreen"@,
        "brightyellow"@,
        "brightblue"@,
        "brightmagenta"@,
        "brightcyan"@,
        "brightwhite"@,
    ]
}

/// Index of the first of `names` at or after `k` that is `name`, or the
/// number of names.
pub open spec fn name_index(names: Seq<Seq<char>>, name: Seq<char>, k: int) -> int
    decreases names.len() - k,
{
    if k < 0 || k >= names.len() {
        names.len() as int
    } else if names[k] == name {
        k
    } else {
        name_index(names, name, k + 1)
    }
}

/// The parameters of the escape sequence that selects the colour `color`
/// as foreground or background, if `color` is one: `default`, `#` and six
/// hexadecimal digits, an index up to 255, or the name of a basic colour in
/// any case.
pub open spec fn color_code(color: Seq<char>, is_fg: bool) -> Option<Seq<char>> {
    let base = if is_fg {
        "38"@
    } else {
        "48"@
    };
    if color == "default"@ {
        Some(
            if is_fg {
                "39"@
            } else {
                "49"@
            },
        )
    } else if color.len() == 7 && color[0] == '#' && hex_pair(color[1], color[2]).is_some()
        && hex_pair(color[3], color[4]).is_some() && hex_pair(color[5], color[6]).is_some() {
        Some(
            base + ";2;"@ + text::decimal(hex_pair(color[1], color[2]).unwrap() as nat) + ";"@
                + text::decimal(hex_pair(color[3], color[4]).unwrap() as nat) + ";"@
                + text::decimal(hex_pair(color[5], color[6]).unwrap() as nat),
        )
    } else if text::parse_nat(color, 255).is_some() {
        Some(base + ";5;"@ + text::decimal(text::parse_nat(color, 255).unwrap()))
    } else if name_index(color_names(), folded_text(color), 0) < 16 {
        Some(
            base + ";5;"@ + text::decimal(name_index(color_names(), folded_text(color), 0) as nat),
        )
    } else {
        None
    }
}

/// The attributes of tmux styles, each with the parameter that selects it.
pub open spec fn attribute_codes() -> Seq<(Seq<char>, Seq<char>)> {
    seq![
        ("bold"@, "1"@),
        ("dim"@, "2"@),
        ("italic"@, "3"@),
        ("underscore"@, "4"@),
        ("underline"@, "4"@),
        ("blink"@, "5"@),
        ("reverse"@, "7"@),
        ("hidden"@, "8"@),
        ("strikethrough"@, "9"@),
        ("nobold"@, "22"@),
        ("nodim"@, "22"@),
        ("noitalic"@, "23"@),
        ("nounderscore"@, "24"@),
        ("nounderline"@, "24"@),
        ("noblink"@, "25"@),
        ("noreverse"@, "27"@),
        ("nohidden"@, "28"@),
        ("nostrikethrough"@, "29"@),
    ]
}

/// Index of the first attribute at or after `k` with the name `name`, or
/// the number of attributes.
pub open spec fn attribute_index(table: Seq<(Seq<char>, Seq<char>)>, name: Seq<char>, k: int) -> int
    decreases table.len() - k,
{
    if k < 0 || k >= table.len() {
        table.len() as int
    } else if table[k].0 == name {
        k
    } else {
        attribute_index(table, name, k + 1)
    }
}

/// The parameter that one part of a tmux style stands for, if any: an
/// attribute, or a colour behind `fg=` or `bg=`.
pub open spec fn part_code(part: Seq<char>) -> Option<Seq<char>> {
    let i = attribute_index(attribute_codes(), part, 0);
    if i < attribute_codes().len() {
        Some(attribute_codes()[i].1)
    } else if let Some(color) = text::strip_prefix(part, "fg="@) {
        color_code(color, true)
    } else if let Some(color) = text::strip_prefix(part, "bg="@) {
        color_code(color, false)
    } else {
        None
    }
}

/// The parameters that the parts of a tmux style from index `k` on stand
/// for.
pub open spec fn part_codes(parts: Seq<Seq<char>>, k: int) -> Seq<Seq<char>>
    decreases parts.len() - k,
{
    if k < 0 || k >= parts.len() {
        Seq::empty()
    } else {
        (match part_code(text::trim(parts[k])) {
            Some(code) => seq![code],
            None => Seq::empty(),
        }) + part_codes(parts, k + 1)
    }
}

/// The escape sequence for a tmux style: a reset for the empty style and
/// for `default`; else the parameters of its parts, which commas separate,
/// joined by semicolons, and nothing where no part stands for one.
pub open spec fn style_ansi(style: Seq<char>) -> Seq<char> {
    let codes = part_codes(text::split(style, ','), 0);
    if style.len() == 0 || style == "default"@ {
        seq![ESC] + "[0m"@
    } else if codes.len() == 0 {
        Seq::empty()
    } else {
        seq![ESC] + "["@ + text::join(codes, seq![';']) + "m"@
    }
}

/// `s` from index `k` on with every tmux style `#[...]` replaced by its
/// escape sequence and every `##` by `#`.
pub open spec fn converted_from(s: Seq<char>, k: int) -> Seq<char>
    decreases s.len() - k,
    when 0 <= k
    via converted_from_decreases
{
    if k >= s.len() {
        Seq::empty()
    } else if s[k] == '#' && k + 1 < s.len() && s[k + 1] == '[' {
        style_ansi(s.subrange(k + 2, text::find_from(s, ']', k + 2))) + converted_from(
            s,
            if text::find_from(s, ']', k + 2) < s.len() {
                text::find_from(s, ']', k + 2) + 1
            } else {
                s.len() as int
            },
        )
    } else if s[k] == '#' && k + 1 < s.len() && s[k + 1] == '#' {
        seq!['#'] + converted_from(s, k + 2)
    } else {
        seq![s[k]] + converted_from(s, k + 1)
    }
}

#[via_fn]
proof fn converted_from_decreases(s: Seq<char>, k: int) {
    if k < s.len() && s[k] == '#' && k + 1 < s.len() && s[k + 1] == '[' {
        text::lemma_find_from(s, ']', k + 2);
    }
}

/// `s` with every tmux style replaced by its escape sequence and every `##`
/// by `#`.
pub open spec fn converted(s: Seq<char>) -> Seq<char> {
    converted_from(s, 0)
}

fn hex_value(c: char) -> (r: Option<u8>)
    ensures
        match r {
            Some(v) => hex_digit(c) == Some(v as nat) && v < 16,
            None => hex_digit(c).is_none(),
        },
{
    if c >= '0' && c <= '9' {
        Some((c as u32 - '0' as u32) as u8)
    } else if c >= 'a' && c <= 'f' {
        Some((c as u32 - 'a' as u32 + 10) as u8)
    } else if c >= 'A' && c <= 'F' {
        Some((c as u32 - 'A' as u32 + 10) as u8)
    } else {
        None
    }
}

fn read_hex_pair(a: char, b: char) -> (r: Option<u8>)
    ensures
        r == hex_pair(a, b),
{
    match (hex_value(a), hex_value(b)) {
        (Some(x), Some(y)) => Some(x * 16 + y),
        (None, Some(y)) => if a == '+' {
            Some(y)
        } else {
            None
        },
        _ => None,
    }
}

fn fold_char(c: char) -> (r: char)
    ensures
        r == folded(c),
{
    if c >= 'A' && c <= 'Z' {
        ((c as u8) + 32) as char
    } else if c == '\u{212a}' {
        'k'
    } else {
        c
    }
}

fn find_color_name(color: &[char]) -> (r: usize)
    ensures
        r == name_index(color_names(), folded_text(color@), 0),
        r <= 16,
{
    let mut lower: Vec<char> = Vec::new();
    let mut i: usize = 0;
    while i < color.len()
        invariant
            i <= color@.len(),
            lower@.len() == i,
            forall|j: int| 0 <= j < i ==> lower@[j] == folded(color@[j]),
        decreases color@.len() - i,
    {
        lower.push(fold_char(color[i]));
        i += 1;
    }
    assert(lower@ =~= folded_text(color@));
    let names: Vec<&str> = vec![
        "black",
        "red",
        "green",
        "yellow",
        "blue",
        "magenta",
        "cyan",
        "white",
        "brightblack",
        "brightred",
        "brightgreen",
        "brightyellow",
        "brightblue",
        "brightmagenta",
        "brightcyan",
        "brightwhite",
    ];
    let ghost list = color_names();
    assert(names@.len() == list.len());
    assert(forall|j: int| 0 <= j < list.len() ==> (#[trigger] names@[j])@ == list[j]);
    let mut k: usize = 0;
    while k < names.len()
        invariant
            k <= names@.len() == 16,
            list == color_names(),
            names@.len() == list.len(),
            forall|j: int| 0 <= j < list.len() ==> (#[trigger] names@[j])@ == list[j],
            lower@ == folded_text(color@),
            name_index(list, lower@, 0) == name_index(list, lower@, k as int),
        decreases names@.len() - k,
    {
        let name = text::chars_of(names[k]);
        assert(names@[k as int]@ == list[k as int]);
        if text::chars_eq(lower.as_slice(), name.as_slice()) {
            return k;
        }
        k += 1;
    }
    k
}

fn color_chars(color: &[char], is_fg: bool) -> (r: Option<Vec<char>>)
    ensures
        match r {
            Some(code) => color_code(color@, is_fg) == Some(code@),
            None => color_code(color@, is_fg).is_none(),
        },
{
    let default = text::chars_of("default");
    if text::chars_eq(color, default.as_slice()) {
        return Some(
            text::chars_of(
                if is_fg {
                    "39"
                } else {
                    "49"
                },
            ),
        );
    }
    let mut out = text::chars_of(
        if is_fg {
            "38"
        } else {
            "48"
        },
    );
    let ghost base = out@;
    if color.len() == 7 && color[0] == '#' {
        let r = read_hex_pair(color[1], color[2]);
        let g = read_hex_pair(color[3], color[4]);
        let b = read_hex_pair(color[5], color[6]);
        if r.is_some() && g.is_some() && b.is_some() {
            let mid = text::chars_of(";2;");
            text::push_all(&mut out, mid.as_slice());
            text::push_decimal(&mut out, r.unwrap() as u64);
            out.push(';');
            text::push_decimal(&mut out, g.unwrap() as u64);
            out.push(';');
            text::push_decimal(&mut out, b.unwrap() as u64);
            proof {
                reveal_strlit(";");
                assert(";"@ =~= seq![';']);
                assert(out@ =~= base + ";2;"@ + text::decimal(r.unwrap() as nat) + ";"@
                    + text::decimal(g.unwrap() as nat) + ";"@ + text::decimal(b.unwrap() as nat));
            }
            return Some(out);
        }
    }
    let index = text::chars_of(";5;");
    if let Some(idx) = text::parse_bounded(color, 255) {
        text::push_all(&mut out, index.as_slice());
        text::push_decimal(&mut out, idx);
        assert(out@ =~= base + ";5;"@ + text::decimal(idx as nat));
        return Some(out);
    }
    let named = find_color_name(color);
    if named < 16 {
        text::push_all(&mut out, index.as_slice());
        text::push_decimal(&mut out, named as u64);
        assert(out@ =~= base + ";5;"@ + text::decimal(named as nat));
        return Some(out);
    }
    None
}

/// The parameters of the escape sequence that selects the colour `color`
/// as foreground or background, if `color` is one.
pub fn color_to_ansi(color: &str, is_fg: bool) -> (r: Option<String>)
    ensures
        text::opt_view(r) == color_code(color@, is_fg),
{
    let chars = text::chars_of(color);
    match color_chars(chars.as_slice(), is_fg) {
        Some(code) => Some(text::string_of(code.as_slice())),
        None => None,
    }
}

fn attribute_chars(part: &[char]) -> (r: Option<Vec<char>>)
    ensures
        match r {
            Some(code) => attribute_index(attribute_codes(), part@, 0) < attribute_codes().len()
                && code@ == attribute_codes()[attribute_index(attribute_codes(), part@, 0)].1,
            None => attribute_index(attribute_codes(), part@, 0) >= attribute_codes().len(),
        },
{
    let table: Vec<(&str, &str)> = vec![
        ("bold", "1"),
        ("dim", "2"),
        ("italic", "3"),
        ("underscore", "4"),
        ("underline", "4"),
        ("blink", "5"),
        ("reverse", "7"),
        ("hidden", "8"),
        ("strikethrough", "9"),
        ("nobold", "22"),
        ("nodim", "22"),
        ("noitalic", "23"),
        ("nounderscore", "24"),
        ("nounderline", "24"),
        ("noblink", "25"),
        ("noreverse", "27"),
        ("nohidden", "28"),
        ("nostrikethrough", "29"),
    ];
    let ghost list = attribute_codes();
    assert(table@.len() == list.len());
    assert(forall|j: int|
        0 <= j < list.len() ==> (#[trigger] table@[j]).0@ == list[j].0 && table@[j].1@
            == list[j].1);
    let mut k: usize = 0;
    while k < table.len()
        invariant
            k <= table@.len(),
            list == attribute_codes(),
            table@.len() == list.len(),
            forall|j: int|
                0 <= j < list.len() ==> (#[trigger] table@[j]).0@ == list[j].0 && table@[j].1@
                    == list[j].1,
            attribute_index(list, part@, 0) == attribute_index(list, part@, k as int),
        decreases table@.len() - k,
    {
        let name = text::chars_of(table[k].0);
        if text::chars_eq(part, name.as_slice()) {
            return Some(text::chars_of(table[k].1));
        }
        k += 1;
    }
    None
}

fn part_chars(part: &[char]) -> (r: Option<Vec<char>>)
    ensures
        match r {
            Some(code) => part_code(part@) == Some(code@),
            None => part_code(part@).is_none(),
        },
{
    if let Some(code) = attribute_chars(part) {
        return Some(code);
    }
    let fg = text::chars_of("fg=");
    let bg = text::chars_of("bg=");
    if let Some(color) = text::strip_prefix_chars(part, fg.as_slice()) {
        color_chars(color.as_slice(), true)
    } else if let Some(color) = text::strip_prefix_chars(part, bg.as_slice()) {
        color_chars(color.as_slice(), false)
    } else {
        None
    }
}

fn style_chars(style: &[char]) -> (out: Vec<char>)
    ensures
        out@ == style_ansi(style@),
{
    let default = text::chars_of("default");
    let mut out: Vec<char> = Vec::new();
    if style.len() == 0 || text::chars_eq(style, default.as_slice()) {
        out.push(ESC);
        let reset = text::chars_of("[0m");
        text::push_all(&mut out, reset.as_slice());
        assert(out@ =~= seq![ESC] + "[0m"@);
        return out;
    }
    let parts = text::split_chars(style, ',');
    let ghost all = text::views(parts@);
    let mut codes: Vec<Vec<char>> = Vec::new();
    assert(text::views(codes@) =~= Seq::empty());
    let mut k: usize = 0;
    while k < parts.len()
        invariant
            k <= parts@.len(),
            all == text::views(parts@),
            part_codes(all, 0) == text::views(codes@) + part_codes(all, k as int),
        decreases parts@.len() - k,
    {
        assert(all[k as int] == parts@[k as int]@);
        let part = text::trim_chars(parts[k].as_slice());
        let ghost before = text::views(codes@);
        if let Some(code) = part_chars(part.as_slice()) {
            codes.push(code);
            assert(text::views(codes@) =~= before.push(code@));
        }
        assert(part_codes(all, 0) =~= text::views(codes@) + part_codes(all, k + 1));
        k += 1;
    }
    assert(part_codes(all, 0) =~= text::views(codes@));
    if codes.len() == 0 {
        return out;
    }
    out.push(ESC);
    out.push('[');
    let semicolon: Vec<char> = vec![';'];
    assert(semicolon@ =~= seq![';']);
    let joined = text::join_range(&codes, 0, codes.len(), semicolon.as_slice());
    assert(text::views(codes@).subrange(0, codes@.len() as int) =~= text::views(codes@));
    text::push_all(&mut out, joined.as_slice());
    out.push('m');
    proof {
        reveal_strlit("[");
        reveal_strlit("m");
        assert("["@ =~= seq!['[']);
        assert("m"@ =~= seq!['m']);
        assert(out@ =~= seq![ESC] + "["@ + text::join(text::views(codes@), seq![';']) + "m"@);
    }
    out
}

/// The escape sequence for a tmux style.
pub fn tmux_style_to_ansi(style: &str) -> (r: String)
    ensures
        r@ == style_ansi(style@),
{
    let chars = text::chars_of(style);
    let out = style_chars(chars.as_slice());
    text::string_of(out.as_slice())
}

fn convert_chars(s: &[char]) -> (out: Vec<char>)
    ensures
        out@ == converted(s@),
{
    let mut out: Vec<char> = Vec::new();
    let mut k: usize = 0;
    while k < s.len()
        invariant
            k <= s@.len(),
            converted(s@) == out@ + converted_from(s@, k as int),
        decreases s@.len() - k,
    {
        let ghost before = out@;
        if s[k] == '#' && s.len() - k > 1 && s[k + 1] == '[' {
            let e = text::find_char_from(s, ']', k + 2);
            proof {
                text::lemma_find_from(s@, ']', k + 2);
            }
            let style = vstd::slice::slice_subrange(s, k + 2, e);
            let ansi = style_chars(style);
            text::push_all(&mut out, ansi.as_slice());
            let next = if e < s.len() {
                e + 1
            } else {
                s.len()
            };
            assert(converted(s@) =~= out@ + converted_from(s@, next as int));
            k = next;
        } else if s[k] == '#' && s.len() - k > 1 && s[k + 1] == '#' {
            out.push('#');
            assert(converted(s@) =~= out@ + converted_from(s@, k + 2));
            k += 2;
        } else {
            out.push(s[k]);
            assert(converted(s@) =~= out@ + converted_from(s@, k + 1));
            k += 1;
        }
    }
    assert(out@ + Seq::<char>::empty() =~= out@);
    out
}

/// Replaces every tmux style in `input` by its escape sequence and every
/// `##` by `#`.
pub fn convert_tmux_style_to_ansi(input: &str) -> (r: String)
    ensures
        r@ == converted(input@),
{
    let chars = text::chars_of(input);
    let out = convert_chars(chars.as_slice());
    text::string_of(out.as_slice())
}

/// Index behind the last character of `s` before index `to` that is no
/// line feed.
pub open spec fn newline_tail_start(s: Seq<char>, to: int) -> int
    decreases to,
{
    if to <= 0 || to > s.len() || s[to - 1] != '\n' {
        to
    } else {
        newline_tail_start(s, to - 1)
    }
}

/// `s` without the line feeds at its end.
pub open spec fn without_newlines(s: Seq<char>) -> Seq<char> {
    s.subrange(0, newline_tail_start(s, s.len() as int))
}

/// `s` without one space at its end.
pub open spec fn without_last_space(s: Seq<char>) -> Seq<char> {
    if s.len() > 0 && s.last() == ' ' {
        s.drop_last()
    } else {
        s
    }
}

/// The length that line `i` of `lines` writes, or `default` where there is
/// no such line or it writes none.
pub open spec fn length_or(lines: Seq<Seq<char>>, i: int, default: usize) -> usize {
    if i < lines.len() && text::parse_nat(lines[i], usize::MAX as nat).is_some() {
        text::parse_nat(lines[i], usize::MAX as nat).unwrap() as usize
    } else {
        default
    }
}

/// `n` spaces.
pub open spec fn spaces(n: nat) -> Seq<char> {
    Seq::new(n, |i: int| ' ')
}

/// `a`, or `b` where that is smaller.
pub open spec fn at_most(a: nat, b: nat) -> nat {
    if a <= b {
        a
    } else {
        b
    }
}

/// The status line of `width` columns. `meta` holds the most columns of
/// the left and of the right part, one on each line, 30 and 50 where a line
/// is missing; `left`, `windows` and `right` are the parts as tmux expands
/// them. The left and the right part are cut to their most columns, and
/// spaces between the windows and the right part fill the line; one space
/// is put there where the parts fill it already.
pub open spec fn status_line(
    meta: Seq<char>,
    left: Seq<char>,
    windows: Seq<char>,
    right: Seq<char>,
    width: usize,
) -> Seq<char> {
    let lengths = text::lines(text::trim_end(meta));
    let max_left = length_or(lengths, 0, 30);
    let max_right = length_or(lengths, 1, 50);
    let l = converted(without_newlines(left));
    let w = converted(without_last_space(without_newlines(windows)));
    let r = converted(without_newlines(right));
    let used = at_most(visible_length(l), max_left as nat) + visible_length(w) + at_most(
        visible_length(r),
        max_right as nat,
    );
    truncated(l, max_left as nat) + w + spaces(
        if used < width {
            (width - used) as nat
        } else {
            1
        },
    ) + truncated(r, max_right as nat)
}

/// Whether `s` from index `k` on ends within an escape sequence;
/// `in_escape` tells whether index `k` lies within one.
pub open spec fn ends_in_escape(s: Seq<char>, k: int, in_escape: bool) -> bool
    decreases s.len() - k,
{
    if k < 0 || k >= s.len() {
        in_escape
    } else if in_escape {
        ends_in_escape(s, k + 1, s[k] != 'm')
    } else {
        ends_in_escape(s, k + 1, s[k] == ESC)
    }
}

/// Whether every escape sequence in `s` comes to its end.
pub open spec fn complete(s: Seq<char>) -> bool {
    !ends_in_escape(s, 0, false)
}

proof fn lemma_visible_shift(a: Seq<char>, b: Seq<char>, j: int, in_escape: bool)
    requires
        0 <= j <= b.len(),
    ensures
        visible_from(a + b, a.len() + j, in_escape) == visible_from(b, j, in_escape),
        ends_in_escape(a + b, a.len() + j, in_escape) == ends_in_escape(b, j, in_escape),
    decreases b.len() - j,
{
    if j < b.len() {
        assert((a + b)[a.len() + j] == b[j]);
        lemma_visible_shift(a, b, j + 1, true);
        lemma_visible_shift(a, b, j + 1, false);
    }
}

proof fn lemma_visible_joined(a: Seq<char>, b: Seq<char>, k: int, in_escape: bool)
    requires
        0 <= k <= a.len(),
    ensures
        visible_from(a + b, k, in_escape) == visible_from(a, k, in_escape) + visible_from(
            b,
            0,
            ends_in_escape(a, k, in_escape),
        ),
        ends_in_escape(a + b, k, in_escape) == ends_in_escape(
            b,
            0,
            ends_in_escape(a, k, in_escape),
        ),
    decreases a.len() - k,
{
    if k < a.len() {
        assert((a + b)[k] == a[k]);
        lemma_visible_joined(a, b, k + 1, true);
        lemma_visible_joined(a, b, k + 1, false);
    } else {
        lemma_visible_shift(a, b, 0, in_escape);
    }
}

/// Behind a text whose escape sequences all come to their end, another
/// text shows as many characters as it shows alone.
pub proof fn lemma_visible_length_joined(a: Seq<char>, b: Seq<char>)
    requires
        complete(a),
    ensures
        visible_length(a + b) == visible_length(a) + visible_length(b),
        complete(a + b) == complete(b),
{
    lemma_visible_joined(a, b, 0, false);
}

proof fn lemma_truncated_from(s: Seq<char>, k: int, in_escape: bool, room: nat)
    requires
        0 <= k <= s.len(),
    ensures
        visible_from(truncated_from(s, k, in_escape, room), 0, in_escape) == at_most(
            visible_from(s, k, in_escape),
            room,
        ),
        !ends_in_escape(s, k, in_escape) ==> !ends_in_escape(
            truncated_from(s, k, in_escape, room),
            0,
            in_escape,
        ),
    decreases s.len() - k,
{
    if k < s.len() {
        let head = seq![s[k]];
        if in_escape {
            let rest = truncated_from(s, k + 1, s[k] != 'm', room);
            lemma_truncated_from(s, k + 1, s[k] != 'm', room);
            lemma_visible_shift(head, rest, 0, s[k] != 'm');
            assert((head + rest)[0] == s[k]);
        } else if s[k] == ESC {
            let rest = truncated_from(s, k + 1, true, room);
            lemma_truncated_from(s, k + 1, true, room);
            lemma_visible_shift(head, rest, 0, true);
            assert((head + rest)[0] == s[k]);
        } else if room > 0 {
            let rest = truncated_from(s, k + 1, false, (room - 1) as nat);
            lemma_truncated_from(s, k + 1, false, (room - 1) as nat);
            lemma_visible_shift(head, rest, 0, false);
            assert((head + rest)[0] == s[k]);
        }
    }
}

/// A text that is cut shows as many characters as before, or as many as it
/// was cut to where that is fewer; and its escape sequences come to their
/// end where they did before.
pub proof fn lemma_truncated(s: Seq<char>, max_visible: nat)
    ensures
        visible_length(truncated(s, max_visible)) == at_most(visible_length(s), max_visible),
        complete(s) ==> complete(truncated(s, max_visible)),
{
    lemma_truncated_from(s, 0, false, max_visible);
}

proof fn lemma_spaces(n: nat, k: int)
    requires
        0 <= k <= n,
    ensures
        visible_from(spaces(n), k, false) == n - k,
        !ends_in_escape(spaces(n), k, false),
    decreases n - k,
{
    if k < n {
        lemma_spaces(n, k + 1);
    }
}

/// The number of columns that the parts of a status line take before
/// spaces fill it: the left and the right part cut to their most columns,
/// and the windows between them.
pub open spec fn status_used(
    meta: Seq<char>,
    left: Seq<char>,
    windows: Seq<char>,
    right: Seq<char>,
) -> nat {
    let lengths = text::lines(text::trim_end(meta));
    at_most(
        visible_length(converted(without_newlines(left))),
        length_or(lengths, 0, 30) as nat,
    ) + visible_length(converted(without_last_space(without_newlines(windows)))) + at_most(
        visible_length(converted(without_newlines(right))),
        length_or(lengths, 1, 50) as nat,
    )
}

/// Where the escape sequences of its parts all come to their end, the
/// status line shows exactly `width` columns, as long as its parts leave
/// room for a space; and where they leave none, one column more than its
/// parts take.
pub proof fn lemma_status_line_width(
    meta: Seq<char>,
    left: Seq<char>,
    windows: Seq<char>,
    right: Seq<char>,
    width: usize,
)
    requires
        complete(converted(without_newlines(left))),
        complete(converted(without_last_space(without_newlines(windows)))),
    ensures
        visible_length(status_line(meta, left, windows, right, width)) == if status_used(
            meta,
            left,
            windows,
            right,
        ) < width {
            width as nat
        } else {
            status_used(meta, left, windows, right) + 1
        },
{
    let lengths = text::lines(text::trim_end(meta));
    let max_left = length_or(lengths, 0, 30) as nat;
    let max_right = length_or(lengths, 1, 50) as nat;
    let l = truncated(converted(without_newlines(left)), max_left);
    let w = converted(without_last_space(without_newlines(windows)));
    let r = truncated(converted(without_newlines(right)), max_right);
    let used = status_used(meta, left, windows, right);
    let gap = spaces(
        if used < width {
            (width - used) as nat
        } else {
            1
        },
    );
    lemma_truncated(converted(without_newlines(left)), max_left);
    lemma_truncated(converted(without_newlines(right)), max_right);
    lemma_spaces(gap.len(), 0);
    lemma_visible_length_joined(l, w);
    lemma_visible_length_joined(l + w, gap);
    lemma_visible_length_joined(l + w + gap, r);
}

fn strip_newlines(s: &[char]) -> (end: usize)
    ensures
        end == newline_tail_start(s@, s@.len() as int),
        end <= s@.len(),
{
    let mut end: usize = s.len();
    while end > 0 && s[end - 1] == '\n'
        invariant
            end <= s@.len(),
            newline_tail_start(s@, s@.len() as int) == newline_tail_start(s@, end as int),
        decreases end,
    {
        end -= 1;
    }
    end
}

fn read_length(lines: &Vec<Vec<char>>, i: usize, default: usize) -> (r: usize)
    ensures
        r == length_or(text::views(lines@), i as int, default),
{
    if i < lines.len() {
        assert(text::views(lines@)[i as int] == lines@[i as int]@);
        match text::parse_bounded(lines[i].as_slice(), usize::MAX as u64) {
            Some(v) => v as usize,
            None => default,
        }
    } else {
        default
    }
}

/// Renders the status line of `width` columns from what tmux answers: the
/// most columns of the left and right part in `meta`, and the three parts.
pub fn capture_status_line(meta: &str, left: &str, windows: &str, right: &str, width: usize) -> (r:
    String)
    ensures
        r@ == status_line(meta@, left@, windows@, right@, width),
{
    let meta_chars = text::chars_of(meta);
    let mut meta_end: usize = meta_chars.len();
    while meta_end > 0 && text::is_space(meta_chars[meta_end - 1])
        invariant
            meta_end <= meta_chars@.len(),
            text::ws_tail_start(meta_chars@, meta_chars@.len() as int) == text::ws_tail_start(
                meta_chars@,
                meta_end as int,
            ),
        decreases meta_end,
    {
        meta_end -= 1;
    }
    let lengths = text::split_lines(vstd::slice::slice_subrange(meta_chars.as_slice(), 0, meta_end));
    let max_left = read_length(&lengths, 0, 30);
    let max_right = read_length(&lengths, 1, 50);
    let left_chars = text::chars_of(left);
    let left_end = strip_newlines(left_chars.as_slice());
    let l = convert_chars(vstd::slice::slice_subrange(left_chars.as_slice(), 0, left_end));
    let windows_chars = text::chars_of(windows);
    let windows_end = strip_newlines(windows_chars.as_slice());
    let windows_cut = if windows_end > 0 && windows_chars[windows_end - 1] == ' ' {
        windows_end - 1
    } else {
        windows_end
    };
    let ghost trimmed = without_newlines(windows_chars@);
    assert(windows_chars@.subrange(0, windows_cut as int) =~= without_last_space(trimmed));
    let w = convert_chars(vstd::slice::slice_subrange(windows_chars.as_slice(), 0, windows_cut));
    let right_chars = text::chars_of(right);
    let right_end = strip_newlines(right_chars.as_slice());
    let r = convert_chars(vstd::slice::slice_subrange(right_chars.as_slice(), 0, right_end));
    let left_seen = visible_len_chars(l.as_slice());
    let windows_seen = visible_len_chars(w.as_slice());
    let right_seen = visible_len_chars(r.as_slice());
    let left_used = if left_seen <= max_left {
        left_seen
    } else {
        max_left
    };
    let right_used = if right_seen <= max_right {
        right_seen
    } else {
        max_right
    };
    let used: u128 = left_used as u128 + windows_seen as u128 + right_used as u128;
    let padding: usize = if used < width as u128 {
        (width as u128 - used) as usize
    } else {
        1
    };
    let mut out = truncate_ansi_chars(l.as_slice(), max_left);
    text::push_all(&mut out, w.as_slice());
    let ghost before = out@;
    let mut i: usize = 0;
    while i < padding
        invariant
            i <= padding,
            out@ == before + spaces(i as nat),
        decreases padding - i,
    {
        out.push(' ');
        i += 1;
        assert(out@ =~= before + spaces(i as nat));
    }
    let right_cut = truncate_ansi_chars(r.as_slice(), max_right);
    text::push_all(&mut out, right_cut.as_slice());
    text::string_of(out.as_slice())
}

/// A piece of a tmux format: text, or a shell command written as `#(...)`
/// whose output takes its place.
#[derive(Debug)]
pub enum FormatPiece {
    Text { text: String },
    Command { command: String },
}

/// The mathematical value of a [`FormatPiece`].
pub enum PieceView {
    Text { text: Seq<char> },
    Command { command: Seq<char> },
}

impl View for FormatPiece {
    type V = PieceView;

    open spec fn view(&self) -> PieceView {
        match *self {
            FormatPiece::Text { text } => PieceView::Text { text: text@ },
            FormatPiece::Command { command } => PieceView::Command { command: command@ },
        }
    }
}

/// The views of the pieces in `v`, in order.
pub open spec fn piece_views(v: Seq<FormatPiece>) -> Seq<PieceView> {
    Seq::new(v.len(), |i: int| v[i]@)
}

/// Whether a shell command begins at index `k` of `s`.
pub open spec fn command_at(s: Seq<char>, k: int) -> bool {
    0 <= k && k + 1 < s.len() && s[k] == '#' && s[k + 1] == '('
}

/// Index of the parenthesis at or after `k` that closes a shell command in
/// which `depth` parentheses are open, or the length of `s`.
pub open spec fn command_close(s: Seq<char>, k: int, depth: nat) -> int
    decreases s.len() - k,
{
    if k < 0 || k >= s.len() {
        s.len() as int
    } else if s[k] == '(' {
        command_close(s, k + 1, depth + 1)
    } else if s[k] == ')' {
        if depth <= 1 {
            k
        } else {
            command_close(s, k + 1, (depth - 1) as nat)
        }
    } else {
        command_close(s, k + 1, depth)
    }
}

/// Index of the first shell command at or after `k`, or the length of `s`.
pub open spec fn text_end(s: Seq<char>, k: int) -> int
    decreases s.len() - k,
{
    if k < 0 || k >= s.len() {
        s.len() as int
    } else if command_at(s, k) {
        k
    } else {
        text_end(s, k + 1)
    }
}

pub proof fn lemma_command_close(s: Seq<char>, k: int, depth: nat)
    requires
        0 <= k <= s.len(),
    ensures
        k <= command_close(s, k, depth) <= s.len(),
    decreases s.len() - k,
{
    if k < s.len() {
        if s[k] == '(' {
            lemma_command_close(s, k + 1, depth + 1);
        } else if s[k] == ')' {
            if depth > 1 {
                lemma_command_close(s, k + 1, (depth - 1) as nat);
            }
        } else {
            lemma_command_close(s, k + 1, depth);
        }
    }
}

pub proof fn lemma_text_end(s: Seq<char>, k: int)
    requires
        0 <= k <= s.len(),
    ensures
        k <= text_end(s, k) <= s.len(),
        k < s.len() && !command_at(s, k) ==> text_end(s, k) > k,
    decreases s.len() - k,
{
    if k < s.len() && !command_at(s, k) {
        lemma_text_end(s, k + 1);
    }
}

/// The pieces of the format `s` from index `k` on.
pub open spec fn pieces_from(s: Seq<char>, k: int) -> Seq<PieceView>
    decreases s.len() - k,
    when 0 <= k
    via pieces_from_decreases
{
    if k >= s.len() {
        Seq::empty()
    } else if command_at(s, k) {
        seq![PieceView::Command { command: s.subrange(k + 2, command_close(s, k + 2, 1)) }]
            + pieces_from(
            s,
            if command_close(s, k + 2, 1) < s.len() {
                command_close(s, k + 2, 1) + 1
            } else {
                s.len() as int
            },
        )
    } else {
        seq![PieceView::Text { text: s.subrange(k, text_end(s, k)) }] + pieces_from(
            s,
            text_end(s, k),
        )
    }
}

#[via_fn]
proof fn pieces_from_decreases(s: Seq<char>, k: int) {
    if k < s.len() {
        if command_at(s, k) {
            lemma_command_close(s, k + 2, 1);
        } else {
            lemma_text_end(s, k);
        }
    }
}

/// Splits a tmux format into text and shell commands.
pub fn split_shell_commands(format: &str) -> (pieces: Vec<FormatPiece>)
    ensures
        piece_views(pieces@) == pieces_from(format@, 0),
{
    let chars = text::chars_of(format);
    let s = chars.as_slice();
    let mut pieces: Vec<FormatPiece> = Vec::new();
    assert(piece_views(pieces@) =~= Seq::empty());
    let mut k: usize = 0;
    while k < s.len()
        invariant
            k <= s@.len(),
            s@ == format@,
            pieces_from(s@, 0) == piece_views(pieces@) + pieces_from(s@, k as int),
        decreases s@.len() - k,
    {
        let ghost before = piece_views(pieces@);
        if s[k] == '#' && s.len() - k > 1 && s[k + 1] == '(' {
            let mut e: usize = k + 2;
            let mut depth: usize = 1;
            let mut found = false;
            while e < s.len() && !found
                invariant
                    k + 2 <= e <= s@.len(),
                    depth >= 1,
                    depth <= e,
                    !found ==> command_close(s@, k + 2, 1) == command_close(
                        s@,
                        e as int,
                        depth as nat,
                    ),
                    found ==> e < s@.len() && command_close(s@, k + 2, 1) == e,
                decreases s@.len() - e,
                    if found {
                        0int
                    } else {
                        1int
                    },
            {
                if s[e] == '(' {
                    depth += 1;
                    e += 1;
                } else if s[e] == ')' {
                    if depth <= 1 {
                        found = true;
                    } else {
                        depth -= 1;
                        e += 1;
                    }
                } else {
                    e += 1;
                }
            }
            let command = text::sub_vec(s, k + 2, e);
            let piece = FormatPiece::Command { command: text::string_of(command.as_slice()) };
            pieces.push(piece);
            assert(piece_views(pieces@) =~= before.push(piece@));
            let next = if e < s.len() {
                e + 1
            } else {
                s.len()
            };
            assert(pieces_from(s@, 0) =~= piece_views(pieces@) + pieces_from(s@, next as int));
            k = next;
        } else {
            assert(!command_at(s@, k as int));
            let mut e: usize = k + 1;
            while e < s.len() && !(s[e] == '#' && s.len() - e > 1 && s[e + 1] == '(')
                invariant
                    k < e <= s@.len(),
                    text_end(s@, k as int) == text_end(s@, e as int),
                decreases s@.len() - e,
            {
                e += 1;
            }
            let run = text::sub_vec(s, k, e);
            let piece = FormatPiece::Text { text: text::string_of(run.as_slice()) };
            pieces.push(piece);
            assert(piece_views(pieces@) =~= before.push(piece@));
            assert(pieces_from(s@, 0) =~= piece_views(pieces@) + pieces_from(s@, e as int));
            k = e;
        }
    }
    assert(piece_views(pieces@) + Seq::<PieceView>::empty() =~= piece_views(pieces@));
    pieces
}

} // verus!
