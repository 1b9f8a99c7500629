//! Operating-system-command sequences in pane output.
//!
//! An OSC sequence is `ESC ]`, a body, and a terminator: `BEL`, or `ESC \`.
//! The parser takes these sequences out of the bytes meant for the terminal
//! emulator and records hyperlinks (OSC 8) and clipboard writes (OSC 52).

use crate::base64;
use crate::text;
use std::collections::HashMap;
use vstd::prelude::*;
use vstd::utf8::{decode_utf8, encode_utf8, valid_utf8};

verus! {

broadcast use vstd::std_specs::hash::group_hash_axioms;

/// A stretch of output that carries a hyperlink.
#[derive(Debug, Clone)]
pub struct HyperlinkRegion {
    /// Row of the first cell.
    pub start_row: u32,
    /// Column of the first cell.
    pub start_col: u32,
    /// Row of the cursor when the link ended.
    pub end_row: u32,
    /// Column of the cursor when the link ended.
    pub end_col: u32,
    /// Target of the link.
    pub url: String,
    /// Identifier that joins regions of one link.
    pub id: Option<String>,
}

/// The mathematical value of a [`HyperlinkRegion`].
pub struct RegionView {
    pub start_row: u32,
    pub start_col: u32,
    pub end_row: u32,
    pub end_col: u32,
    pub url: Seq<char>,
    pub id: Option<Seq<char>>,
}

impl View for HyperlinkRegion {
    type V = RegionView;

    open spec fn view(&self) -> RegionView {
        RegionView {
            start_row: self.start_row,
            start_col: self.start_col,
            end_row: self.end_row,
            end_col: self.end_col,
            url: self.url@,
            id: match self.id {
                Some(s) => Some(s@),
                None => None,
            },
        }
    }
}

/// The state of an [`OscParser`].
pub struct OscView {
    /// The link that output is attributed to, with its identifier.
    pub active: Option<(Seq<char>, Option<Seq<char>>)>,
    /// Where the active link began.
    pub start: Option<(u32, u32)>,
    /// Tracked cursor row.
    pub row: u32,
    /// Tracked cursor column.
    pub col: u32,
    /// The links that have ended.
    pub regions: Seq<RegionView>,
    /// Clipboard text that has not been taken yet.
    pub clipboard: Option<Seq<char>>,
    /// The link target of each cell that has one.
    pub urls: Map<(u32, u32), Seq<char>>,
}

/// The state of a fresh parser.
pub open spec fn initial() -> OscView {
    OscView {
        active: None,
        start: None,
        row: 0,
        col: 0,
        regions: Seq::empty(),
        clipboard: None,
        urls: Map::empty(),
    }
}

/// Index of the first terminator of an OSC sequence at or after `k`, or the
/// length of `s`: a `BEL`, or an `ESC` followed by a backslash.
pub open spec fn terminator_from(s: Seq<u8>, k: int) -> int
    decreases s.len() - k,
{
    if k < 0 || k >= s.len() {
        s.len() as int
    } else if (k + 1 < s.len() && s[k] == 0x1b && s[k + 1] == 0x5c) || s[k] == 0x07 {
        k
    } else {
        terminator_from(s, k + 1)
    }
}

/// Whether an OSC sequence with a terminator begins at index `i`.
pub open spec fn sequence_at(s: Seq<u8>, i: int) -> bool {
    0 <= i && i + 1 < s.len() && s[i] == 0x1b && s[i + 1] == 0x5d && terminator_from(s, i + 2)
        < s.len()
}

/// The body of the OSC sequence that begins at index `i`.
pub open spec fn sequence_body(s: Seq<u8>, i: int) -> Seq<u8> {
    s.subrange(i + 2, terminator_from(s, i + 2))
}

/// The index just behind the OSC sequence that begins at index `i`.
pub open spec fn sequence_end(s: Seq<u8>, i: int) -> int {
    let k = terminator_from(s, i + 2);
    if s[k] == 0x07 {
        k + 1
    } else {
        k + 2
    }
}

/// The state once the active link, if any, has ended at the cursor.
pub open spec fn finalize(st: OscView) -> OscView {
    OscView {
        active: None,
        start: None,
        regions: match (st.active, st.start) {
            (Some((url, id)), Some((start_row, start_col))) => st.regions.push(
                RegionView { start_row, start_col, end_row: st.row, end_col: st.col, url, id },
            ),
            _ => st.regions,
        },
        ..st
    }
}

/// The identifier among the parameters `pieces` from index `k` on: what
/// follows `id=` in the first parameter that begins with it.
pub open spec fn link_id(pieces: Seq<Seq<char>>, k: int) -> Option<Seq<char>>
    decreases pieces.len() - k,
{
    if k < 0 || k >= pieces.len() {
        None
    } else {
        match text::strip_prefix(pieces[k], "id="@) {
            Some(v) => Some(v),
            None => link_id(pieces, k + 1),
        }
    }
}

/// The state after an OSC 8 sequence with the body `content` behind `8;`:
/// parameters separated by colons, a semicolon, and the target. An empty
/// target ends the active link; another target ends it and begins a new one
/// at the cursor.
pub open spec fn osc8(st: OscView, content: Seq<char>) -> OscView {
    let parts = text::splitn(content, 2, ';');
    if parts.len() < 2 {
        st
    } else if parts[1].len() == 0 {
        finalize(st)
    } else {
        OscView {
            active: Some((parts[1], link_id(text::split(parts[0], ':'), 0))),
            start: Some((st.row, st.col)),
            ..finalize(st)
        }
    }
}

/// The state after an OSC 52 sequence with the body `content` behind `52;`:
/// a selection, a semicolon, and base64 data. Data that decodes to valid
/// UTF-8 becomes the pending clipboard text; other data changes nothing.
pub open spec fn osc52(st: OscView, content: Seq<char>) -> OscView {
    let parts = text::splitn(content, 2, ';');
    if parts.len() < 2 {
        st
    } else {
        match base64::base64_spec(encode_utf8(parts[1])) {
            Some(bytes) => if valid_utf8(bytes) {
                OscView { clipboard: Some(decode_utf8(bytes)), ..st }
            } else {
                st
            },
            None => st,
        }
    }
}

/// The state after an OSC sequence with the body `body`.
pub open spec fn apply_sequence(st: OscView, body: Seq<u8>) -> OscView {
    let content = text::lossy_text(body);
    if let Some(rest) = text::strip_prefix(content, "8;"@) {
        osc8(st, rest)
    } else if let Some(rest) = text::strip_prefix(content, "52;"@) {
        osc52(st, rest)
    } else {
        st
    }
}

/// `n + 1`, or `n` where that would leave 32 bits.
pub open spec fn bump(n: u32) -> u32 {
    if n < u32::MAX {
        (n + 1) as u32
    } else {
        n
    }
}

/// The state after a byte that goes on to the emulator. A line feed moves
/// the cursor to the start of the next row, a carriage return to the start
/// of the row; a printable ASCII byte takes the active link for its cell and
/// moves the cursor one column on. Rows and columns stop at the largest
/// 32-bit number.
pub open spec fn track(st: OscView, b: u8) -> OscView {
    if b == 0x0a {
        OscView { row: bump(st.row), col: 0, ..st }
    } else if b == 0x0d {
        OscView { col: 0, ..st }
    } else if 0x20 <= b < 0x7f {
        OscView {
            urls: match st.active {
                Some((url, _)) => st.urls.insert((st.row, st.col), url),
                None => st.urls,
            },
            col: bump(st.col),
            ..st
        }
    } else {
        st
    }
}

/// The state after the bytes of `content` from index `i` on, and the bytes
/// among them that go on to the emulator: all but the OSC sequences.
pub open spec fn process_from(st: OscView, content: Seq<u8>, i: int) -> (OscView, Seq<u8>)
    decreases content.len() - i,
    when 0 <= i
    via process_from_decreases
{
    if i >= content.len() {
        (st, Seq::empty())
    } else if sequence_at(content, i) {
        process_from(apply_sequence(st, sequence_body(content, i)), content, sequence_end(content, i))
    } else {
        let (after, out) = process_from(track(st, content[i]), content, i + 1);
        (after, seq![content[i]] + out)
    }
}

pub proof fn lemma_terminator_from(s: Seq<u8>, k: int)
    requires
        0 <= k <= s.len(),
    ensures
        k <= terminator_from(s, k) <= s.len(),
        terminator_from(s, k) < s.len() ==> (s[terminator_from(s, k)] == 0x07 || (terminator_from(
            s,
            k,
        ) + 1 < s.len() && s[terminator_from(s, k)] == 0x1b && s[terminator_from(s, k) + 1]
            == 0x5c)),
    decreases s.len() - k,
{
    if k < s.len() && !((k + 1 < s.len() && s[k] == 0x1b && s[k + 1] == 0x5c) || s[k] == 0x07) {
        lemma_terminator_from(s, k + 1);
    }
}

#[via_fn]
proof fn process_from_decreases(st: OscView, content: Seq<u8>, i: int) {
    if i < content.len() && sequence_at(content, i) {
        lemma_terminator_from(content, i + 2);
    }
}

/// The state after `content` and the bytes of `content` that go on to the
/// emulator.
pub open spec fn process_spec(st: OscView, content: Seq<u8>) -> (OscView, Seq<u8>) {
    process_from(st, content, 0)
}


/// The key under which the link of cell `(row, col)` is stored.
pub open spec fn cell_key(row: u32, col: u32) -> u64 {
    (row as u64 * 0x1_0000_0000 + col as u64) as u64
}

/// The link target of each cell, read from the stored entries.
pub open spec fn urls_view(m: Map<u64, String>) -> Map<(u32, u32), Seq<char>> {
    Map::new(
        |k: (u32, u32)| m.contains_key(cell_key(k.0, k.1)),
        |k: (u32, u32)| m[cell_key(k.0, k.1)]@,
    )
}

/// The views of the regions in `v`, in order.
pub open spec fn region_views(v: Seq<HyperlinkRegion>) -> Seq<RegionView> {
    Seq::new(v.len(), |i: int| v[i]@)
}

/// The OSC parser of one pane.
pub struct OscParser {
    /// The link that output is attributed to, with its identifier.
    pub active_hyperlink: Option<(String, Option<String>)>,
    /// Where the active link began.
    pub hyperlink_start: Option<(u32, u32)>,
    /// Tracked cursor row.
    pub cursor_row: u32,
    /// Tracked cursor column.
    pub cursor_col: u32,
    /// The links that have ended.
    pub hyperlinks: Vec<HyperlinkRegion>,
    /// Clipboard text that has not been taken yet.
    pub pending_clipboard: Option<String>,
    /// The link target of each cell that has one, under [`cell_key`].
    pub cell_urls: HashMap<u64, String>,
}

impl View for OscParser {
    type V = OscView;

    open spec fn view(&self) -> OscView {
        OscView {
            active: match self.active_hyperlink {
                Some((url, id)) => Some(
                    (
                        url@,
                        match id {
                            Some(s) => Some(s@),
                            None => None,
                        },
                    ),
                ),
                None => None,
            },
            start: self.hyperlink_start,
            row: self.cursor_row,
            col: self.cursor_col,
            regions: region_views(self.hyperlinks@),
            clipboard: match self.pending_clipboard {
                Some(s) => Some(s@),
                None => None,
            },
            urls: urls_view(self.cell_urls@),
        }
    }
}

fn key_of(row: u32, col: u32) -> (k: u64)
    ensures
        k == cell_key(row, col),
{
    (row as u64) * 0x1_0000_0000 + (col as u64)
}

fn bump_u32(n: u32) -> (r: u32)
    ensures
        r == bump(n),
{
    if n < u32::MAX {
        n + 1
    } else {
        n
    }
}

impl OscParser {
    /// A parser with nothing recorded and the cursor at the origin.
    pub fn new() -> (p: OscParser)
        ensures
            p@ == initial(),
    {
        let p = OscParser {
            active_hyperlink: None,
            hyperlink_start: None,
            cursor_row: 0,
            cursor_col: 0,
            hyperlinks: Vec::new(),
            pending_clipboard: None,
            cell_urls: HashMap::new(),
        };
        assert(p@.urls =~= Map::empty());
        assert(p@.regions =~= Seq::empty());
        p
    }

    /// Forgets everything recorded and puts the cursor at the origin.
    pub fn reset(&mut self)
        ensures
            final(self)@ == initial(),
    {
        self.active_hyperlink = None;
        self.hyperlink_start = None;
        self.cursor_row = 0;
        self.cursor_col = 0;
        self.hyperlinks.clear();
        self.pending_clipboard = None;
        self.cell_urls.clear();
        assert(self@.urls =~= Map::empty());
        assert(self@.regions =~= Seq::empty());
    }

    /// Puts the tracked cursor at `(row, col)`.
    pub fn update_cursor(&mut self, row: u32, col: u32)
        ensures
            final(self)@ == (OscView { row, col, ..old(self)@ }),
    {
        self.cursor_row = row;
        self.cursor_col = col;
    }

    /// Takes pane output. Returns the bytes that go on to the terminal
    /// emulator: `content` without its OSC sequences.
    pub fn process(&mut self, content: &[u8]) -> (out: Vec<u8>)
        ensures
            (final(self)@, out@) == process_spec(old(self)@, content@),
    {
        let mut out: Vec<u8> = Vec::new();
        let mut i: usize = 0;
        while i < content.len()
            invariant
                i <= content@.len(),
                process_spec(old(self)@, content@) == (
                    process_from(self@, content@, i as int).0,
                    out@ + process_from(self@, content@, i as int).1,
                ),
            decreases content@.len() - i,
        {
            if content[i] == 0x1b && content.len() - i > 1 && content[i + 1] == 0x5d {
                let k = Self::find_terminator(content, i + 2);
                proof {
                    lemma_terminator_from(content@, i + 2);
                }
                if k < content.len() {
                    let body = vstd::slice::slice_subrange(content, i + 2, k);
                    self.parse_osc(body);
                    i = if content[k] == 0x07 {
                        k + 1
                    } else {
                        k + 2
                    };
                    continue ;
                }
            }
            assert(!sequence_at(content@, i as int));
            let ghost before = self@;
            let ghost rest = process_from(track(before, content@[i as int]), content@, i + 1);
            let ghost emitted = out@;
            self.track_byte(content[i]);
            out.push(content[i]);
            assert(out@ + rest.1 =~= emitted + (seq![content@[i as int]] + rest.1));
            i += 1;
        }
        assert(out@ + Seq::<u8>::empty() =~= out@);
        out
    }

    fn find_terminator(content: &[u8], from: usize) -> (k: usize)
        requires
            from <= content@.len(),
        ensures
            k == terminator_from(content@, from as int),
    {
        let mut k: usize = from;
        while k < content.len()
            invariant
                from <= k <= content@.len(),
                terminator_from(content@, from as int) == terminator_from(content@, k as int),
            decreases content@.len() - k,
        {
            if (content.len() - k > 1 && content[k] == 0x1b && content[k + 1] == 0x5c)
                || content[k] == 0x07 {
                return k;
            }
            k += 1;
        }
        k
    }

    fn track_byte(&mut self, b: u8)
        ensures
            final(self)@ == track(old(self)@, b),
    {
        if b == 0x0a {
            self.cursor_row = bump_u32(self.cursor_row);
            self.cursor_col = 0;
        } else if b == 0x0d {
            self.cursor_col = 0;
        } else if b >= 0x20 && b < 0x7f {
            let url: Option<String> = match &self.active_hyperlink {
                Some(pair) => Some(pair.0.clone()),
                None => None,
            };
            if let Some(u) = url {
                let ghost m = self.cell_urls@;
                let key = key_of(self.cursor_row, self.cursor_col);
                self.cell_urls.insert(key, u);
                assert(urls_view(self.cell_urls@) =~= urls_view(m).insert(
                    (old(self).cursor_row, old(self).cursor_col),
                    u@,
                ));
            }
            self.cursor_col = bump_u32(self.cursor_col);
        }
    }

    fn parse_osc(&mut self, body: &[u8])
        ensures
            final(self)@ == apply_sequence(old(self)@, body@),
    {
        let content = text::lossy_string(body);
        let chars = text::chars_of(content.as_str());
        let link_prefix = text::chars_of("8;");
        let clipboard_prefix = text::chars_of("52;");
        if let Some(rest) = text::strip_prefix_chars(chars.as_slice(), link_prefix.as_slice()) {
            self.parse_osc8(rest.as_slice());
        } else if let Some(rest) = text::strip_prefix_chars(chars.as_slice(), clipboard_prefix.as_slice()) {
            self.parse_osc52(rest.as_slice());
        }
    }

    fn parse_osc8(&mut self, content: &[char])
        ensures
            final(self)@ == osc8(old(self)@, content@),
    {
        let parts = text::splitn_chars(content, 2, ';');
        if parts.len() < 2 {
            return ;
        }
        assert(text::views(parts@)[0] == parts@[0]@);
        assert(text::views(parts@)[1] == parts@[1]@);
        if parts[1].len() == 0 {
            self.finalize_hyperlink();
        } else {
            let pieces = text::split_chars(parts[0].as_slice(), ':');
            let id = Self::find_id(&pieces);
            self.finalize_hyperlink();
            self.active_hyperlink = Some((text::string_of(parts[1].as_slice()), id));
            self.hyperlink_start = Some((self.cursor_row, self.cursor_col));
        }
    }

    fn find_id(pieces: &Vec<Vec<char>>) -> (r: Option<String>)
        ensures
            text::opt_view(r) == link_id(text::views(pieces@), 0),
    {
        let prefix = text::chars_of("id=");
        let mut k: usize = 0;
        while k < pieces.len()
            invariant
                k <= pieces@.len(),
                prefix@ == "id="@,
                link_id(text::views(pieces@), 0) == link_id(text::views(pieces@), k as int),
            decreases pieces@.len() - k,
        {
            assert(text::views(pieces@)[k as int] == pieces@[k as int]@);
            if let Some(v) = text::strip_prefix_chars(pieces[k].as_slice(), prefix.as_slice()) {
                return Some(text::string_of(v.as_slice()));
            }
            k += 1;
        }
        None
    }

    fn parse_osc52(&mut self, content: &[char])
        ensures
            final(self)@ == osc52(old(self)@, content@),
    {
        let parts = text::splitn_chars(content, 2, ';');
        if parts.len() < 2 {
            return ;
        }
        assert(text::views(parts@)[1] == parts@[1]@);
        let data = text::string_of(parts[1].as_slice());
        if let Ok(decoded) = base64::base64_decode(data.as_str()) {
            if let Some(clip) = text::utf8_strict(decoded) {
                self.pending_clipboard = Some(clip);
            }
        }
    }

    fn finalize_hyperlink(&mut self)
        ensures
            final(self)@ == finalize(old(self)@),
    {
        let active = self.active_hyperlink.take();
        let start = self.hyperlink_start.take();
        if let Some((url, id)) = active {
            if let Some((start_row, start_col)) = start {
                let ghost before = self.hyperlinks@;
                let region = HyperlinkRegion {
                    start_row,
                    start_col,
                    end_row: self.cursor_row,
                    end_col: self.cursor_col,
                    url,
                    id,
                };
                self.hyperlinks.push(region);
                assert(region_views(self.hyperlinks@) =~= region_views(before).push(region@));
            }
        }
    }

    /// The link target of the cell at `(row, col)`, if it has one.
    pub fn get_url(&self, row: u32, col: u32) -> (r: Option<&String>)
        ensures
            match r {
                Some(u) => self@.urls.contains_key((row, col)) && self@.urls[(row, col)] == u@,
                None => !self@.urls.contains_key((row, col)),
            },
    {
        let key = key_of(row, col);
        self.cell_urls.get(&key)
    }

    /// Hands out the pending clipboard text and forgets it.
    pub fn take_clipboard(&mut self) -> (r: Option<String>)
        ensures
            text::opt_view(r) == old(self)@.clipboard,
            final(self)@ == (OscView { clipboard: None, ..old(self)@ }),
    {
        self.pending_clipboard.take()
    }
}

impl Default for OscParser {
    fn default() -> (p: OscParser)
        ensures
            p@ == initial(),
    {
        OscParser::new()
    }
}

} // verus!
