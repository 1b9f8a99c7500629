//! Small helpers of the programs around the monitor: the media type of
//! a file that is served, the fingerprint of the bundled scripts, and the
//! names of the windows that hold floating panes.

use crate::stream::hex_char;
use crate::text;
use vstd::prelude::*;
use vstd::string::StringExecFns;
use vstd::utf8::encode_utf8;

verus! {

/// Index behind the last `.` of `s` before index `to`, or 0.
pub open spec fn after_last_dot(s: Seq<char>, to: int) -> int
    decreases to,
{
    if to <= 0 || to > s.len() {
        0
    } else if s[to - 1] == '.' {
        to
    } else {
        after_last_dot(s, to - 1)
    }
}

/// What follows the last `.` of `path`; all of `path` where it has none.
pub open spec fn extension(path: Seq<char>) -> Seq<char> {
    path.subrange(after_last_dot(path, path.len() as int), path.len() as int)
}

/// The media type of a file by the extension of its name.
pub open spec fn mime_of(ext: Seq<char>) -> Seq<char> {
    if ext == "html"@ {
        "text/html; charset=utf-8"@
    } else if ext == "js"@ || ext == "mjs"@ {
        "application/javascript"@
    } else if ext == "css"@ {
        "text/css; charset=utf-8"@
    } else if ext == "json"@ || ext == "map"@ {
        "application/json"@
    } else if ext == "svg"@ {
        "image/svg+xml"@
    } else if ext == "png"@ {
        "image/png"@
    } else if ext == "jpg"@ || ext == "jpeg"@ {
        "image/jpeg"@
    } else if ext == "gif"@ {
        "image/gif"@
    } else if ext == "ico"@ {
        "image/x-icon"@
    } else if ext == "woff"@ {
        "font/woff"@
    } else if ext == "woff2"@ {
        "font/woff2"@
    } else if ext == "ttf"@ {
        "font/ttf"@
    } else if ext == "wasm"@ {
        "application/wasm"@
    } else {
        "application/octet-stream"@
    }
}

/// The media type of the file at `path`.
pub fn mime_for_path(path: &str) -> (mime: &'static str)
    ensures
        mime@ == mime_of(extension(path@)),
{
    let chars = text::chars_of(path);
    let mut start: usize = chars.len();
    while start > 0 && chars[start - 1] != '.'
        invariant
            start <= chars@.len(),
            after_last_dot(chars@, chars@.len() as int) == after_last_dot(chars@, start as int),
        decreases start,
    {
        start -= 1;
    }
    let tail = text::sub_vec(chars.as_slice(), start, chars.len());
    let ext_text = text::string_of(tail.as_slice());
    let ext = ext_text.as_str();
    if text::str_eq(ext, "html") {
        "text/html; charset=utf-8"
    } else if text::str_eq(ext, "js") || text::str_eq(ext, "mjs") {
        "application/javascript"
    } else if text::str_eq(ext, "css") {
        "text/css; charset=utf-8"
    } else if text::str_eq(ext, "json") || text::str_eq(ext, "map") {
        "application/json"
    } else if text::str_eq(ext, "svg") {
        "image/svg+xml"
    } else if text::str_eq(ext, "png") {
        "image/png"
    } else if text::str_eq(ext, "jpg") || text::str_eq(ext, "jpeg") {
        "image/jpeg"
    } else if text::str_eq(ext, "gif") {
        "image/gif"
    } else if text::str_eq(ext, "ico") {
        "image/x-icon"
    } else if text::str_eq(ext, "woff") {
        "font/woff"
    } else if text::str_eq(ext, "woff2") {
        "font/woff2"
    } else if text::str_eq(ext, "ttf") {
        "font/ttf"
    } else if text::str_eq(ext, "wasm") {
        "application/wasm"
    } else {
        "application/octet-stream"
    }
}

/// The hash of the first `k` bytes of `bytes`: it begins with the number
/// of all bytes, and each byte multiplies it by 31 and adds the byte and
/// its index, all within 64 bits.
pub open spec fn hash_of(bytes: Seq<u8>, k: int) -> u64
    decreases k,
{
    if k <= 0 || k > bytes.len() {
        (bytes.len() % 0x1_0000_0000_0000_0000) as u64
    } else {
        ((hash_of(bytes, k - 1) * 31 + bytes[k - 1] + (k - 1)) % 0x1_0000_0000_0000_0000) as u64
    }
}

/// The lowest `n` hexadecimal digits of `h`, the highest of them first.
pub open spec fn hex_digits(h: nat, n: nat) -> Seq<char>
    decreases n,
{
    if n == 0 {
        Seq::empty()
    } else {
        hex_digits(h / 16, (n - 1) as nat).push(hex_char(h % 16))
    }
}

fn push_hex(out: &mut Vec<char>, h: u64, n: usize)
    ensures
        final(out)@ == old(out)@ + hex_digits(h as nat, n as nat),
    decreases n,
{
    if n > 0 {
        push_hex(out, h / 16, n - 1);
        let d: u8 = (h % 16) as u8;
        let c: char = if d < 10 {
            (48u8 + d) as char
        } else {
            (87u8 + d) as char
        };
        assert(c == hex_char((h % 16) as nat));
        out.push(c);
        assert(final(out)@ =~= old(out)@ + hex_digits(h as nat, n as nat));
    } else {
        assert(final(out)@ =~= old(out)@ + hex_digits(h as nat, n as nat));
    }
}

/// The fingerprint of the text `input`: the hash of its bytes in sixteen
/// hexadecimal digits.
pub fn simple_hash(input: &str) -> (r: String)
    ensures
        r@ == hex_digits(
            hash_of(encode_utf8(input@), encode_utf8(input@).len() as int) as nat,
            16,
        ),
{
    let bytes = input.as_bytes();
    let mut hash: u64 = bytes.len() as u64;
    let mut i: usize = 0;
    while i < bytes.len()
        invariant
            i <= bytes@.len(),
            hash == hash_of(bytes@, i as int),
        decreases bytes@.len() - i,
    {
        let mixed: u128 = hash as u128 * 31 + bytes[i] as u128 + i as u128;
        hash = (mixed % 0x1_0000_0000_0000_0000) as u64;
        i += 1;
    }
    let mut digits: Vec<char> = Vec::new();
    push_hex(&mut digits, hash, 16);
    assert(digits@ =~= hex_digits(hash as nat, 16));
    text::string_of(digits.as_slice())
}

/// The name of the hidden window that holds the pane `pane_id` as a
/// floating pane: `__float_` and the number of the pane.
pub open spec fn float_name(pane_id: Seq<char>) -> Seq<char> {
    "__float_"@ + pane_id.subrange(crate::pane::skip_char(pane_id, '%', 0), pane_id.len() as int)
}

/// The name of the hidden window that holds the pane `pane_id` as a
/// floating pane.
pub fn float_window_name_for(pane_id: &str) -> (name: String)
    ensures
        name@ == float_name(pane_id@),
        crate::model::float_window_name(name@),
{
    let chars = text::chars_of(pane_id);
    let mut i: usize = 0;
    while i < chars.len() && chars[i] == '%'
        invariant
            i <= chars@.len(),
            crate::pane::skip_char(chars@, '%', 0) == crate::pane::skip_char(chars@, '%', i as int),
        decreases chars@.len() - i,
    {
        i += 1;
    }
    let number = text::sub_vec(chars.as_slice(), i, chars.len());
    let mut name = text::string_of_str("__float_");
    name.append(text::string_of(number.as_slice()).as_str());
    proof {
        assert(name@.subrange(0, "__float_"@.len() as int) =~= "__float_"@);
    }
    name
}

/// Whether the monitor follows control mode, given the value of the
/// setting that asks for polling: it does unless the setting is `1` or
/// `true`.
pub fn use_control_mode(polling: Option<&str>) -> (r: bool)
    ensures
        r == match polling {
            Some(v) => v@ != "1"@ && v@ != "true"@,
            None => true,
        },
{
    match polling {
        Some(v) => !text::str_eq(v, "1") && !text::str_eq(v, "true"),
        None => true,
    }
}

} // verus!
