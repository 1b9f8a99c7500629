//! Text primitives over sequences of characters.
//!
//! Strings are modelled by their view, `Seq<char>`. The executable functions
//! work on character slices; each one is specified by a `spec` function of the
//! same shape on sequences.

use vstd::prelude::*;

verus! {

/// The characters of a string slice.
pub fn chars_of(s: &str) -> (v: Vec<char>)
    ensures
        v@ == s@,
{
    let mut v: Vec<char> = Vec::new();
    for c in it: s.chars()
        invariant
            v@ == it.seq().subrange(0, it.index() as int),
            it.seq() == s@,
    {
        v.push(c);
    }
    v
}

/// Appends a character to a string.
///
/// Wraps `String::push`: the string grows by the character at its end.
#[verifier::external_body]
fn push_char(s: &mut String, c: char)
    ensures
        final(s)@ == old(s)@.push(c),
{
    s.push(c)
}

/// The string that holds the characters of `v`.
pub fn string_of(v: &[char]) -> (s: String)
    ensures
        s@ == v@,
{
    let mut s = String::new();
    let mut i: usize = 0;
    while i < v.len()
        invariant
            i <= v@.len(),
            s@ == v@.subrange(0, i as int),
        decreases v@.len() - i,
    {
        push_char(&mut s, v[i]);
        i += 1;
        assert(s@ =~= v@.subrange(0, i as int));
    }
    assert(v@.subrange(0, v@.len() as int) =~= v@);
    s
}

/// An owned copy of a string slice.
pub fn string_of_str(s: &str) -> (r: String)
    ensures
        r@ == s@,
{
    s.to_owned()
}

/// Whether two byte slices hold the same bytes.
pub fn bytes_eq(a: &[u8], b: &[u8]) -> (r: bool)
    ensures
        r == (a@ == b@),
{
    if a.len() != b.len() {
        return false;
    }
    let mut i: usize = 0;
    while i < a.len()
        invariant
            a@.len() == b@.len(),
            i <= a@.len(),
            forall|j: int| 0 <= j < i ==> a@[j] == b@[j],
        decreases a@.len() - i,
    {
        if a[i] != b[i] {
            return false;
        }
        i += 1;
    }
    assert(a@ =~= b@);
    true
}

/// Whether two string slices hold the same text.
pub fn str_eq(a: &str, b: &str) -> (r: bool)
    ensures
        r == (a@ == b@),
{
    let r = bytes_eq(a.as_bytes(), b.as_bytes());
    proof {
        vstd::utf8::encode_utf8_decode_utf8(a@);
        vstd::utf8::encode_utf8_decode_utf8(b@);
    }
    r
}

/// The characters that a lossy reading of `bytes` as UTF-8 gives: the
/// characters that `bytes` encode where they are valid UTF-8, and otherwise
/// those characters with replacement characters in place of what is invalid.
pub uninterp spec fn utf8_lossy_chars(bytes: Seq<u8>) -> Seq<char>;

/// Reads bytes as UTF-8, replacing what is invalid.
///
/// Wraps `String::from_utf8_lossy`. The result is a function of the bytes
/// alone; for valid UTF-8 it is the text that the bytes encode.
#[verifier::external_body]
fn utf8_lossy(bytes: &[u8]) -> (s: String)
    ensures
        s@ == utf8_lossy_chars(bytes@),
        vstd::utf8::valid_utf8(bytes@) ==> s@ == vstd::utf8::decode_utf8(bytes@),
{
    String::from_utf8_lossy(bytes).into_owned()
}

/// The text that a lossy reading of `bytes` as UTF-8 gives: where the bytes
/// are valid UTF-8, the text that they encode; otherwise that text with
/// replacement characters in place of what is invalid.
pub open spec fn lossy_text(bytes: Seq<u8>) -> Seq<char> {
    if vstd::utf8::valid_utf8(bytes) {
        vstd::utf8::decode_utf8(bytes)
    } else {
        utf8_lossy_chars(bytes)
    }
}

/// Reads bytes as UTF-8, replacing what is invalid.
pub fn lossy_string(bytes: &[u8]) -> (s: String)
    ensures
        s@ == lossy_text(bytes@),
{
    utf8_lossy(bytes)
}

/// Reads bytes as UTF-8, if they are valid.
///
/// Wraps `String::from_utf8`: it succeeds exactly on valid UTF-8, with the
/// text that the bytes encode.
#[verifier::external_body]
pub(crate) fn utf8_strict(bytes: Vec<u8>) -> (r: Option<String>)
    ensures
        r.is_some() == vstd::utf8::valid_utf8(bytes@),
        r.is_some() ==> r.unwrap()@ == vstd::utf8::decode_utf8(bytes@),
{
    String::from_utf8(bytes).ok()
}

/// Index of the first occurrence of `c` in `s` at or after `from`, or the
/// length of `s` where there is none.
pub open spec fn find_from(s: Seq<char>, c: char, from: int) -> int
    decreases s.len() - from,
{
    if from < 0 || from >= s.len() {
        s.len() as int
    } else if s[from] == c {
        from
    } else {
        find_from(s, c, from + 1)
    }
}

pub proof fn lemma_find_from(s: Seq<char>, c: char, from: int)
    requires
        0 <= from <= s.len(),
    ensures
        from <= find_from(s, c, from) <= s.len(),
        find_from(s, c, from) < s.len() ==> s[find_from(s, c, from)] == c,
        forall|j: int| from <= j < find_from(s, c, from) ==> s[j] != c,
    decreases s.len() - from,
{
    if from < s.len() && s[from] != c {
        lemma_find_from(s, c, from + 1);
    }
}

/// First index of `c` in `s` at or after `from`; `s.len()` when absent.
pub fn find_char_from(s: &[char], c: char, from: usize) -> (i: usize)
    requires
        from <= s@.len(),
    ensures
        i == find_from(s@, c, from as int),
{
    let mut i: usize = from;
    while i < s.len() && s[i] != c
        invariant
            from <= i <= s@.len(),
            find_from(s@, c, from as int) == find_from(s@, c, i as int),
        decreases s@.len() - i,
    {
        i += 1;
    }
    i
}

/// The view of an optional string.
pub open spec fn opt_view(o: Option<String>) -> Option<Seq<char>> {
    match o {
        Some(s) => Some(s@),
        None => None,
    }
}

/// The views of the vectors in `v`, in order.
pub open spec fn views(v: Seq<Vec<char>>) -> Seq<Seq<char>> {
    Seq::new(v.len(), |i: int| v[i]@)
}

/// The views of the strings in `v`, in order.
pub open spec fn str_views(v: Seq<String>) -> Seq<Seq<char>> {
    Seq::new(v.len(), |i: int| v[i]@)
}

/// Copies `s[a..b]` into a fresh vector.
pub fn sub_vec(s: &[char], a: usize, b: usize) -> (v: Vec<char>)
    requires
        a <= b <= s@.len(),
    ensures
        v@ == s@.subrange(a as int, b as int),
{
    let mut v: Vec<char> = Vec::new();
    let mut i: usize = a;
    while i < b
        invariant
            a <= i <= b <= s@.len(),
            v@ == s@.subrange(a as int, i as int),
        decreases b - i,
    {
        v.push(s[i]);
        i += 1;
    }
    v
}

/// Whether two character slices hold the same characters.
pub fn chars_eq(a: &[char], b: &[char]) -> (r: bool)
    ensures
        r == (a@ == b@),
{
    if a.len() != b.len() {
        return false;
    }
    let mut i: usize = 0;
    while i < a.len()
        invariant
            a@.len() == b@.len(),
            i <= a@.len(),
            forall|j: int| 0 <= j < i ==> a@[j] == b@[j],
        decreases a@.len() - i,
    {
        if a[i] != b[i] {
            return false;
        }
        i += 1;
    }
    assert(a@ =~= b@);
    true
}

/// Whether `pat` occurs in `s` starting at index `at`.
pub open spec fn matches_at(s: Seq<char>, pat: Seq<char>, at: int) -> bool {
    0 <= at && at + pat.len() <= s.len() && s.subrange(at, at + pat.len()) == pat
}

/// Whether `pat` occurs in `s` at index `at`.
pub fn has_at(s: &[char], pat: &[char], at: usize) -> (r: bool)
    ensures
        r == matches_at(s@, pat@, at as int),
{
    if at > s.len() || pat.len() > s.len() - at {
        return false;
    }
    let mut i: usize = 0;
    while i < pat.len()
        invariant
            at + pat@.len() <= s@.len() <= usize::MAX,
            i <= pat@.len(),
            forall|j: int| 0 <= j < i ==> s@[at + j] == pat@[j],
        decreases pat@.len() - i,
    {
        if s[at + i] != pat[i] {
            assert(s@.subrange(at as int, at + pat@.len())[i as int] == s@[at + i]);
            return false;
        }
        i += 1;
    }
    assert(s@.subrange(at as int, at + pat@.len()) =~= pat@);
    true
}

/// Whether `s` begins with `pat`.
pub open spec fn starts_with(s: Seq<char>, pat: Seq<char>) -> bool {
    matches_at(s, pat, 0)
}

/// Index of the first occurrence of `pat` in `s` at or after `from`, or the
/// length of `s` where there is none.
pub open spec fn find_sub_from(s: Seq<char>, pat: Seq<char>, from: int) -> int
    decreases s.len() - from,
{
    if from < 0 || from >= s.len() {
        s.len() as int
    } else if matches_at(s, pat, from) {
        from
    } else {
        find_sub_from(s, pat, from + 1)
    }
}

pub proof fn lemma_find_sub_from(s: Seq<char>, pat: Seq<char>, from: int)
    requires
        0 <= from <= s.len(),
    ensures
        from <= find_sub_from(s, pat, from) <= s.len(),
        find_sub_from(s, pat, from) < s.len() ==> matches_at(s, pat, find_sub_from(s, pat, from)),
    decreases s.len() - from,
{
    if from < s.len() && !matches_at(s, pat, from) {
        lemma_find_sub_from(s, pat, from + 1);
    }
}

/// First index at or after `from` where `pat` occurs in `s`; `s.len()` when
/// there is none.
pub fn find_sub(s: &[char], pat: &[char], from: usize) -> (i: usize)
    requires
        from <= s@.len(),
    ensures
        i == find_sub_from(s@, pat@, from as int),
{
    let mut i: usize = from;
    while i < s.len()
        invariant
            from <= i <= s@.len(),
            find_sub_from(s@, pat@, from as int) == find_sub_from(s@, pat@, i as int),
        decreases s@.len() - i,
    {
        if has_at(s, pat, i) {
            return i;
        }
        i += 1;
    }
    i
}

/// Whether `pat` occurs somewhere in `s`. A pattern occurs only at an index
/// of `s`, so nothing occurs in the empty sequence.
pub open spec fn contains_sub(s: Seq<char>, pat: Seq<char>) -> bool {
    find_sub_from(s, pat, 0) < s.len()
}

/// The pieces of `s` between occurrences of `sep`, from index `from` on.
pub open spec fn split_from(s: Seq<char>, sep: char, from: int) -> Seq<Seq<char>>
    decreases s.len() - from,
    when 0 <= from <= s.len()
    via split_from_decreases
{
    let i = find_from(s, sep, from);
    if i >= s.len() {
        seq![s.subrange(from, s.len() as int)]
    } else {
        seq![s.subrange(from, i)] + split_from(s, sep, i + 1)
    }
}

#[via_fn]
proof fn split_from_decreases(s: Seq<char>, sep: char, from: int) {
    lemma_find_from(s, sep, from);
}

/// The pieces of `s` between occurrences of `sep`. There is always at least
/// one piece, and pieces may be empty.
pub open spec fn split(s: Seq<char>, sep: char) -> Seq<Seq<char>> {
    split_from(s, sep, 0)
}

/// Splits `s` at every occurrence of `sep`.
pub fn split_chars(s: &[char], sep: char) -> (out: Vec<Vec<char>>)
    ensures
        views(out@) == split(s@, sep),
        out@.len() >= 1,
{
    let mut out: Vec<Vec<char>> = Vec::new();
    let mut start: usize = 0;
    loop
        invariant
            start <= s@.len(),
            split(s@, sep) == views(out@) + split_from(s@, sep, start as int),
        decreases s@.len() - start,
    {
        let i = find_char_from(s, sep, start);
        proof {
            lemma_find_from(s@, sep, start as int);
        }
        let piece = sub_vec(s, start, i);
        let ghost before = out@;
        out.push(piece);
        assert(views(out@) =~= views(before).push(piece@));
        if i >= s.len() {
            assert(split(s@, sep) =~= views(out@));
            return out;
        }
        assert(split(s@, sep) =~= views(out@) + split_from(s@, sep, i + 1));
        start = i + 1;
    }
}

/// The concatenation of `parts` with `sep` between neighbours.
pub open spec fn join(parts: Seq<Seq<char>>, sep: Seq<char>) -> Seq<char>
    decreases parts.len(),
{
    if parts.len() == 0 {
        Seq::empty()
    } else if parts.len() == 1 {
        parts[0]
    } else {
        join(parts.drop_last(), sep) + sep + parts.last()
    }
}

/// Appends the characters of `src` to `dst`.
pub fn push_all(dst: &mut Vec<char>, src: &[char])
    ensures
        final(dst)@ == old(dst)@ + src@,
{
    let mut i: usize = 0;
    while i < src.len()
        invariant
            i <= src@.len(),
            dst@ == old(dst)@ + src@.subrange(0, i as int),
        decreases src@.len() - i,
    {
        dst.push(src[i]);
        i += 1;
        assert(dst@ =~= old(dst)@ + src@.subrange(0, i as int));
    }
    assert(src@.subrange(0, src@.len() as int) =~= src@);
}

/// Joins `parts[from..to]` with `sep` between neighbours.
pub fn join_range(parts: &Vec<Vec<char>>, from: usize, to: usize, sep: &[char]) -> (out: Vec<char>)
    requires
        from <= to <= parts@.len(),
    ensures
        out@ == join(views(parts@).subrange(from as int, to as int), sep@),
{
    let mut out: Vec<char> = Vec::new();
    let mut i: usize = from;
    let ghost all = views(parts@);
    while i < to
        invariant
            from <= i <= to <= parts@.len(),
            all == views(parts@),
            out@ == join(all.subrange(from as int, i as int), sep@),
        decreases to - i,
    {
        if i > from {
            push_all(&mut out, sep);
        }
        push_all(&mut out, parts[i].as_slice());
        proof {
            let next = all.subrange(from as int, i + 1);
            assert(next.drop_last() =~= all.subrange(from as int, i as int));
            assert(next.last() == parts@[i as int]@);
            if i == from {
                assert(out@ =~= parts@[i as int]@);
            }
        }
        i += 1;
    }
    out
}

/// Whether `c` is white space: the code points with the Unicode property
/// `White_Space`.
pub open spec fn is_ws(c: char) -> bool {
    let u = c as u32;
    (0x09 <= u <= 0x0D) || u == 0x20 || u == 0x85 || u == 0xA0 || u == 0x1680 || (0x2000 <= u
        <= 0x200A) || u == 0x2028 || u == 0x2029 || u == 0x202F || u == 0x205F || u == 0x3000
}

/// Whether `c` is white space.
pub fn is_space(c: char) -> (r: bool)
    ensures
        r == is_ws(c),
{
    let u: u32 = c as u32;
    (0x09 <= u && u <= 0x0D) || u == 0x20 || u == 0x85 || u == 0xA0 || u == 0x1680 || (0x2000 <= u
        && u <= 0x200A) || u == 0x2028 || u == 0x2029 || u == 0x202F || u == 0x205F || u == 0x3000
}

/// First index at or after `from` whose character is white space exactly
/// when `want` says so; the length of `s` where there is none.
pub open spec fn scan_ws(s: Seq<char>, from: int, want: bool) -> int
    decreases s.len() - from,
{
    if from < 0 || from >= s.len() {
        s.len() as int
    } else if is_ws(s[from]) == want {
        from
    } else {
        scan_ws(s, from + 1, want)
    }
}

pub proof fn lemma_scan_ws(s: Seq<char>, from: int, want: bool)
    requires
        0 <= from <= s.len(),
    ensures
        from <= scan_ws(s, from, want) <= s.len(),
        scan_ws(s, from, want) < s.len() ==> is_ws(s[scan_ws(s, from, want)]) == want,
        forall|j: int| from <= j < scan_ws(s, from, want) ==> is_ws(#[trigger] s[j]) != want,
    decreases s.len() - from,
{
    if from < s.len() && is_ws(s[from]) != want {
        lemma_scan_ws(s, from + 1, want);
    }
}

/// Executable form of [`scan_ws`].
pub fn scan_space(s: &[char], from: usize, want: bool) -> (i: usize)
    requires
        from <= s@.len(),
    ensures
        i == scan_ws(s@, from as int, want),
        from <= i <= s@.len(),
{
    let mut i: usize = from;
    while i < s.len() && is_space(s[i]) != want
        invariant
            from <= i <= s@.len(),
            scan_ws(s@, from as int, want) == scan_ws(s@, i as int, want),
        decreases s@.len() - i,
    {
        i += 1;
    }
    i
}

/// Start of the white space that ends at index `to`.
pub open spec fn ws_tail_start(s: Seq<char>, to: int) -> int
    decreases to,
{
    if to <= 0 || to > s.len() {
        0
    } else if is_ws(s[to - 1]) {
        ws_tail_start(s, to - 1)
    } else {
        to
    }
}

/// `s` without leading and trailing white space.
pub open spec fn trim(s: Seq<char>) -> Seq<char> {
    let a = scan_ws(s, 0, false);
    let b = ws_tail_start(s, s.len() as int);
    if a >= b {
        Seq::empty()
    } else {
        s.subrange(a, b)
    }
}

/// `s` without trailing white space.
pub open spec fn trim_end(s: Seq<char>) -> Seq<char> {
    s.subrange(0, ws_tail_start(s, s.len() as int))
}

/// The bounds of `s` without leading and trailing white space.
pub fn trim_bounds(s: &[char]) -> (r: (usize, usize))
    ensures
        r.0 <= r.1 <= s@.len(),
        s@.subrange(r.0 as int, r.1 as int) == trim(s@),
{
    let a = scan_space(s, 0, false);
    let mut b: usize = s.len();
    while b > 0 && is_space(s[b - 1])
        invariant
            b <= s@.len(),
            ws_tail_start(s@, s@.len() as int) == ws_tail_start(s@, b as int),
        decreases b,
    {
        b -= 1;
    }
    if a >= b {
        assert(s@.subrange(a as int, a as int) =~= Seq::<char>::empty());
        (a, a)
    } else {
        (a, b)
    }
}

/// Copies `s` without leading and trailing white space.
pub fn trim_chars(s: &[char]) -> (v: Vec<char>)
    ensures
        v@ == trim(s@),
{
    let (a, b) = trim_bounds(s);
    sub_vec(s, a, b)
}

/// The maximal runs of characters that are not white space, from `from` on.
pub open spec fn split_ws_from(s: Seq<char>, from: int) -> Seq<Seq<char>>
    decreases s.len() - from,
    when 0 <= from <= s.len()
    via split_ws_from_decreases
{
    let a = scan_ws(s, from, false);
    let b = scan_ws(s, a, true);
    if a >= s.len() {
        Seq::empty()
    } else {
        seq![s.subrange(a, b)] + split_ws_from(s, b)
    }
}

#[via_fn]
proof fn split_ws_from_decreases(s: Seq<char>, from: int) {
    lemma_scan_ws(s, from, false);
    let a = scan_ws(s, from, false);
    if a < s.len() {
        lemma_scan_ws(s, a, true);
    }
}

/// The maximal runs of characters of `s` that are not white space.
pub open spec fn split_ws(s: Seq<char>) -> Seq<Seq<char>> {
    split_ws_from(s, 0)
}

/// Splits `s` at white space, leaving out empty pieces.
pub fn split_whitespace(s: &[char]) -> (out: Vec<Vec<char>>)
    ensures
        views(out@) == split_ws(s@),
{
    let mut out: Vec<Vec<char>> = Vec::new();
    let mut start: usize = 0;
    loop
        invariant
            start <= s@.len(),
            split_ws(s@) == views(out@) + split_ws_from(s@, start as int),
        decreases s@.len() - start,
    {
        let a = scan_space(s, start, false);
        if a >= s.len() {
            assert(split_ws(s@) =~= views(out@));
            return out;
        }
        let b = scan_space(s, a, true);
        proof {
            lemma_scan_ws(s@, start as int, false);
            lemma_scan_ws(s@, a as int, true);
        }
        let piece = sub_vec(s, a, b);
        let ghost before = out@;
        out.push(piece);
        assert(views(out@) =~= views(before).push(piece@));
        assert(split_ws(s@) =~= views(out@) + split_ws_from(s@, b as int));
        start = b;
    }
}

/// Whether `c` is one of the digits `0` to `9`.
pub open spec fn is_digit(c: char) -> bool {
    '0' <= c <= '9'
}

/// The number a digit stands for.
pub open spec fn digit_val(c: char) -> nat {
    (c as u32 - '0' as u32) as nat
}

/// Whether `s` holds digits only.
pub open spec fn all_digits(s: Seq<char>) -> bool {
    forall|i: int| 0 <= i < s.len() ==> is_digit(#[trigger] s[i])
}

/// The number that the digits of `s` write in base ten.
pub open spec fn digits_value(s: Seq<char>) -> nat
    decreases s.len(),
{
    if s.len() == 0 {
        0
    } else {
        digits_value(s.drop_last()) * 10 + digit_val(s.last())
    }
}

/// The digits of `s` once an optional leading `+` is taken off.
pub open spec fn unsigned_digits(s: Seq<char>) -> Seq<char> {
    if s.len() > 0 && s[0] == '+' {
        s.subrange(1, s.len() as int)
    } else {
        s
    }
}

/// The number that `s` writes, where `s` is an optional `+` followed by one
/// digit or more and the number is at most `max`.
pub open spec fn parse_nat(s: Seq<char>, max: nat) -> Option<nat> {
    let d = unsigned_digits(s);
    if d.len() > 0 && all_digits(d) && digits_value(d) <= max {
        Some(digits_value(d))
    } else {
        None
    }
}

pub proof fn lemma_digits_value_prefix(s: Seq<char>, k: int)
    requires
        0 <= k <= s.len(),
        all_digits(s),
    ensures
        digits_value(s.subrange(0, k)) <= digits_value(s),
    decreases s.len() - k,
{
    if k < s.len() {
        let t = s.drop_last();
        assert(t.subrange(0, k) =~= s.subrange(0, k));
        assert(all_digits(t));
        lemma_digits_value_prefix(t, k);
    } else {
        assert(s.subrange(0, k) =~= s);
    }
}

/// Reads a number of at most `max` written in base ten.
pub fn parse_bounded(s: &[char], max: u64) -> (r: Option<u64>)
    ensures
        match r {
            Some(v) => parse_nat(s@, max as nat) == Some(v as nat),
            None => parse_nat(s@, max as nat).is_none(),
        },
{
    let start: usize = if s.len() > 0 && s[0] == '+' { 1 } else { 0 };
    let ghost d = unsigned_digits(s@);
    if start >= s.len() {
        return None;
    }
    let mut acc: u64 = 0;
    let mut i: usize = start;
    while i < s.len()
        invariant
            start <= i <= s@.len(),
            d == s@.subrange(start as int, s@.len() as int),
            d == unsigned_digits(s@),
            all_digits(d.subrange(0, i - start)),
            acc == digits_value(d.subrange(0, i - start)),
            acc <= max,
        decreases s@.len() - i,
    {
        let c = s[i];
        assert(c == d[i - start]);
        if !(c >= '0' && c <= '9') {
            return None;
        }
        let dv: u64 = (c as u32 - '0' as u32) as u64;
        proof {
            let next = d.subrange(0, i - start + 1);
            assert(next.drop_last() =~= d.subrange(0, i - start));
            assert(next.last() == c);
            assert(all_digits(next));
            if all_digits(d) {
                lemma_digits_value_prefix(d, i - start + 1);
            }
        }
        if dv > max || acc > (max - dv) / 10 {
            return None;
        }
        acc = acc * 10 + dv;
        i += 1;
    }
    assert(d.subrange(0, i - start) =~= d);
    Some(acc)
}

/// The number that `s` writes, if it fits in 32 bits.
pub open spec fn parse_u32_spec(s: Seq<char>) -> Option<u32> {
    match parse_nat(s, u32::MAX as nat) {
        Some(v) => Some(v as u32),
        None => None,
    }
}

/// The number that `s` writes, if it fits in 64 bits.
pub open spec fn parse_u64_spec(s: Seq<char>) -> Option<u64> {
    match parse_nat(s, u64::MAX as nat) {
        Some(v) => Some(v as u64),
        None => None,
    }
}

/// Reads a number written in base ten that fits in 32 bits.
pub fn parse_u32(s: &[char]) -> (r: Option<u32>)
    ensures
        r == parse_u32_spec(s@),
{
    match parse_bounded(s, 0xFFFF_FFFF) {
        Some(v) => Some(v as u32),
        None => None,
    }
}

/// Reads a number written in base ten that fits in 64 bits.
pub fn parse_u64(s: &[char]) -> (r: Option<u64>)
    ensures
        r == parse_u64_spec(s@),
{
    parse_bounded(s, 0xFFFF_FFFF_FFFF_FFFF)
}

/// The character that writes the digit `d`.
pub open spec fn digit_char(d: nat) -> char {
    (('0' as u32) + (d % 10) as u32) as char
}

/// `n` written in base ten, without leading zeros.
pub open spec fn decimal(n: nat) -> Seq<char>
    decreases n,
{
    if n < 10 {
        seq![digit_char(n)]
    } else {
        decimal(n / 10).push(digit_char(n % 10))
    }
}

/// Appends `n` in base ten to `out`.
pub fn push_decimal(out: &mut Vec<char>, n: u64)
    ensures
        final(out)@ == old(out)@ + decimal(n as nat),
    decreases n,
{
    if n >= 10 {
        push_decimal(out, n / 10);
    }
    let d: u8 = (n % 10) as u8;
    let c: char = (48u8 + d) as char;
    assert(c == digit_char(n as nat));
    out.push(c);
    assert(final(out)@ =~= old(out)@ + decimal(n as nat));
}

/// What follows `pat` in `s`, where `s` begins with `pat`.
pub open spec fn strip_prefix(s: Seq<char>, pat: Seq<char>) -> Option<Seq<char>> {
    if starts_with(s, pat) {
        Some(s.subrange(pat.len() as int, s.len() as int))
    } else {
        None
    }
}

/// Takes `pat` off the front of `s`, where `s` begins with it.
pub fn strip_prefix_chars(s: &[char], pat: &[char]) -> (r: Option<Vec<char>>)
    ensures
        match r {
            Some(v) => strip_prefix(s@, pat@) == Some(v@),
            None => strip_prefix(s@, pat@).is_none(),
        },
{
    if has_at(s, pat, 0) {
        Some(sub_vec(s, pat.len(), s.len()))
    } else {
        None
    }
}

/// `s` without one trailing carriage return.
pub open spec fn strip_cr(s: Seq<char>) -> Seq<char> {
    if s.len() > 0 && s.last() == '\r' {
        s.drop_last()
    } else {
        s
    }
}

/// The lines of `s` from index `from` on. A line ends at a line feed, which
/// is left out together with a carriage return just before it; what follows
/// the last line feed is a line of its own unless it is empty.
pub open spec fn lines_from(s: Seq<char>, from: int) -> Seq<Seq<char>>
    decreases s.len() - from,
    when 0 <= from <= s.len()
    via lines_from_decreases
{
    let i = find_from(s, '\n', from);
    if from >= s.len() {
        Seq::empty()
    } else if i >= s.len() {
        seq![s.subrange(from, s.len() as int)]
    } else {
        seq![strip_cr(s.subrange(from, i))] + lines_from(s, i + 1)
    }
}

#[via_fn]
proof fn lines_from_decreases(s: Seq<char>, from: int) {
    lemma_find_from(s, '\n', from);
}

/// The lines of `s`.
pub open spec fn lines(s: Seq<char>) -> Seq<Seq<char>> {
    lines_from(s, 0)
}

/// Splits `s` into its lines.
pub fn split_lines(s: &[char]) -> (out: Vec<Vec<char>>)
    ensures
        views(out@) == lines(s@),
{
    let mut out: Vec<Vec<char>> = Vec::new();
    let mut start: usize = 0;
    while start < s.len()
        invariant
            start <= s@.len(),
            lines(s@) == views(out@) + lines_from(s@, start as int),
        decreases s@.len() - start,
    {
        let i = find_char_from(s, '\n', start);
        proof {
            lemma_find_from(s@, '\n', start as int);
        }
        let ghost before = out@;
        if i >= s.len() {
            let piece = sub_vec(s, start, i);
            out.push(piece);
            assert(views(out@) =~= views(before).push(piece@));
            assert(lines(s@) =~= views(out@));
            return out;
        }
        let end: usize = if i > start && s[i - 1] == '\r' { i - 1 } else { i };
        let piece = sub_vec(s, start, end);
        assert(piece@ =~= strip_cr(s@.subrange(start as int, i as int)));
        out.push(piece);
        assert(views(out@) =~= views(before).push(piece@));
        assert(lines(s@) =~= views(out@) + lines_from(s@, i + 1));
        start = i + 1;
    }
    assert(lines(s@) =~= views(out@));
    out
}

/// `s` from index `from` on, with every occurrence of `pat` replaced by
/// `with`, taking occurrences from left to right. An empty pattern occurs
/// nowhere.
pub open spec fn replace_from(s: Seq<char>, pat: Seq<char>, with: Seq<char>, from: int) -> Seq<char>
    decreases s.len() - from,
{
    if from < 0 || from >= s.len() {
        Seq::empty()
    } else if pat.len() > 0 && matches_at(s, pat, from) {
        with + replace_from(s, pat, with, from + pat.len())
    } else {
        seq![s[from]] + replace_from(s, pat, with, from + 1)
    }
}

/// `s` with every occurrence of `pat` replaced by `with`.
pub open spec fn replace(s: Seq<char>, pat: Seq<char>, with: Seq<char>) -> Seq<char> {
    replace_from(s, pat, with, 0)
}

/// Replaces every occurrence of `pat` in `s` by `with`.
pub fn replace_chars(s: &[char], pat: &[char], with: &[char]) -> (out: Vec<char>)
    ensures
        out@ == replace(s@, pat@, with@),
{
    let mut out: Vec<char> = Vec::new();
    let mut i: usize = 0;
    while i < s.len()
        invariant
            i <= s@.len(),
            replace(s@, pat@, with@) == out@ + replace_from(s@, pat@, with@, i as int),
        decreases s@.len() - i,
    {
        if pat.len() > 0 && has_at(s, pat, i) {
            let ghost before = out@;
            push_all(&mut out, with);
            assert(replace(s@, pat@, with@) =~= out@ + replace_from(
                s@,
                pat@,
                with@,
                i + pat@.len(),
            ));
            i += pat.len();
        } else {
            out.push(s[i]);
            assert(replace(s@, pat@, with@) =~= out@ + replace_from(s@, pat@, with@, i + 1));
            i += 1;
        }
    }
    assert(replace(s@, pat@, with@) =~= out@);
    out
}

/// The pieces of `s` between occurrences of the pattern `pat`, from index
/// `from` on, taking occurrences from left to right.
pub open spec fn split_sub_from(s: Seq<char>, pat: Seq<char>, from: int) -> Seq<Seq<char>>
    decreases s.len() - from,
    when 0 <= from <= s.len() && pat.len() > 0
    via split_sub_from_decreases
{
    let i = find_sub_from(s, pat, from);
    if i >= s.len() {
        seq![s.subrange(from, s.len() as int)]
    } else {
        seq![s.subrange(from, i)] + split_sub_from(s, pat, i + pat.len())
    }
}

#[via_fn]
proof fn split_sub_from_decreases(s: Seq<char>, pat: Seq<char>, from: int) {
    lemma_find_sub_from(s, pat, from);
}

/// The pieces of `s` between occurrences of the non-empty pattern `pat`.
pub open spec fn split_sub(s: Seq<char>, pat: Seq<char>) -> Seq<Seq<char>> {
    split_sub_from(s, pat, 0)
}

/// Splits `s` at every occurrence of the pattern `pat`.
pub fn split_on(s: &[char], pat: &[char]) -> (out: Vec<Vec<char>>)
    requires
        pat@.len() > 0,
    ensures
        views(out@) == split_sub(s@, pat@),
        out@.len() >= 1,
{
    let mut out: Vec<Vec<char>> = Vec::new();
    let mut start: usize = 0;
    loop
        invariant
            start <= s@.len(),
            pat@.len() > 0,
            split_sub(s@, pat@) == views(out@) + split_sub_from(s@, pat@, start as int),
        decreases s@.len() - start,
    {
        let i = find_sub(s, pat, start);
        proof {
            lemma_find_sub_from(s@, pat@, start as int);
        }
        let piece = sub_vec(s, start, i);
        let ghost before = out@;
        out.push(piece);
        assert(views(out@) =~= views(before).push(piece@));
        if i >= s.len() {
            assert(split_sub(s@, pat@) =~= views(out@));
            return out;
        }
        assert(split_sub(s@, pat@) =~= views(out@) + split_sub_from(s@, pat@, i + pat@.len()));
        start = i + pat.len();
    }
}

/// At most `n` pieces of `s` between occurrences of `sep`, from index `from`
/// on; the last piece holds all that is left.
pub open spec fn splitn_from(s: Seq<char>, n: nat, sep: char, from: int) -> Seq<Seq<char>>
    decreases n,
{
    let i = find_from(s, sep, from);
    if n == 0 || from < 0 || from > s.len() {
        Seq::empty()
    } else if n == 1 || i >= s.len() {
        seq![s.subrange(from, s.len() as int)]
    } else {
        seq![s.subrange(from, i)] + splitn_from(s, (n - 1) as nat, sep, i + 1)
    }
}

/// At most `n` pieces of `s` between occurrences of `sep`.
pub open spec fn splitn(s: Seq<char>, n: nat, sep: char) -> Seq<Seq<char>> {
    splitn_from(s, n, sep, 0)
}

/// Splits `s` at occurrences of `sep` into at most `n` pieces.
pub fn splitn_chars(s: &[char], n: usize, sep: char) -> (out: Vec<Vec<char>>)
    ensures
        views(out@) == splitn(s@, n as nat, sep),
        out@.len() <= n,
{
    let mut out: Vec<Vec<char>> = Vec::new();
    let mut start: usize = 0;
    let mut left: usize = n;
    while left > 0
        invariant
            start <= s@.len(),
            left <= n,
            out@.len() + left <= n,
            splitn(s@, n as nat, sep) == views(out@) + splitn_from(
                s@,
                left as nat,
                sep,
                start as int,
            ),
        decreases left,
    {
        let i = find_char_from(s, sep, start);
        proof {
            lemma_find_from(s@, sep, start as int);
        }
        let ghost before = out@;
        if left == 1 || i >= s.len() {
            let piece = sub_vec(s, start, s.len());
            out.push(piece);
            assert(views(out@) =~= views(before).push(piece@));
            assert(splitn(s@, n as nat, sep) =~= views(out@));
            return out;
        }
        let piece = sub_vec(s, start, i);
        out.push(piece);
        assert(views(out@) =~= views(before).push(piece@));
        assert(splitn(s@, n as nat, sep) =~= views(out@) + splitn_from(
            s@,
            (left - 1) as nat,
            sep,
            i + 1,
        ));
        start = i + 1;
        left -= 1;
    }
    assert(splitn(s@, n as nat, sep) =~= views(out@));
    out
}

/// Whether `c` occurs in `s`.
pub fn has_char(s: &[char], c: char) -> (r: bool)
    ensures
        r == s@.contains(c),
{
    let i = find_char_from(s, c, 0);
    proof {
        lemma_find_from(s@, c, 0);
    }
    i < s.len()
}

/// `n` written in base ten.
pub fn decimal_string(n: u64) -> (s: String)
    ensures
        s@ == decimal(n as nat),
{
    let mut digits: Vec<char> = Vec::new();
    push_decimal(&mut digits, n);
    assert(digits@ =~= decimal(n as nat));
    string_of(digits.as_slice())
}

/// The whole number `v` written in base ten, with a minus sign where it is
/// negative.
pub open spec fn signed_decimal(v: int) -> Seq<char> {
    if v < 0 {
        seq!['-'] + decimal((-v) as nat)
    } else {
        decimal(v as nat)
    }
}

} // verus!
