//! The terminal emulator behind each pane, and the cells read from it.
//!
//! The emulator is a `vt100::Parser`. It is created with a size and fed bytes;
//! what it shows is a function of the size and of all bytes fed to it since.
//! The contracts here speak of an emulator through exactly these: its rows,
//! its columns, and its input so far.

use crate::cells::{styled, CellColor, CellStyle, CellStyleView, CellView, PaneContent, TerminalCell};
use crate::cells::{content_view, line_view};
use crate::osc::OscParser;
use crate::text;
use vstd::prelude::*;
use vstd::utf8::encode_utf8;

verus! {

/// A terminal emulator.
///
/// Holds a `vt100::Parser`, which Verus does not look into.
#[verifier::external_body]
pub struct Emulator {
    inner: vt100::Parser,
}

/// The number of rows that the emulator `t` was created with.
pub uninterp spec fn term_rows(t: Emulator) -> u16;

/// The number of columns that the emulator `t` was created with.
pub uninterp spec fn term_cols(t: Emulator) -> u16;

/// All bytes that the emulator `t` has processed since it was created.
pub uninterp spec fn term_input(t: Emulator) -> Seq<u8>;

/// The cursor position, as row and column, of an emulator of `rows` by
/// `cols` that has processed `input`.
pub uninterp spec fn vt_cursor(rows: u16, cols: u16, input: Seq<u8>) -> (u16, u16);

/// The text in the cell at `(row, col)` of an emulator of `rows` by `cols`
/// that has processed `input`; empty where nothing was written, and where
/// there is no such cell.
pub uninterp spec fn vt_cell_text(rows: u16, cols: u16, input: Seq<u8>, row: u16, col: u16) -> Seq<
    char,
>;

/// The foreground and background colour of that cell, `None` for the
/// default colour and where there is no such cell.
pub uninterp spec fn vt_cell_colors(rows: u16, cols: u16, input: Seq<u8>, row: u16, col: u16) -> (
    Option<CellColor>,
    Option<CellColor>,
);

/// Whether that cell is bold, italic, underlined, inverse; all `false`
/// where there is no such cell.
pub uninterp spec fn vt_cell_attrs(rows: u16, cols: u16, input: Seq<u8>, row: u16, col: u16) -> (
    bool,
    bool,
    bool,
    bool,
);

/// Creates an emulator.
///
/// Wraps `vt100::Parser::new` with no scrollback: the emulator has the given
/// size and has processed nothing. The emulator computes `rows - 1` when it
/// is created, so it takes one row at least.
#[verifier::external_body]
pub(crate) fn term_new(rows: u16, cols: u16) -> (t: Emulator)
    requires
        rows >= 1,
    ensures
        term_rows(t) == rows,
        term_cols(t) == cols,
        term_input(t) == Seq::<u8>::empty(),
{
    Emulator { inner: vt100::Parser::new(rows, cols, 0) }
}

/// Feeds bytes to an emulator.
///
/// Wraps `vt100::Parser::process`, which takes the bytes one by one: the
/// input so far grows by `bytes`, the size stays. When the emulator wraps
/// a line it computes with the row above the last one, so it takes two
/// rows at least. When it places a character it subtracts the width of the
/// character from the number of columns, and the widest characters are
/// three columns wide, so it takes three columns at least. At a tab it
/// adds eight to the cursor column within 16 bits, so it takes 65527
/// columns at most.
#[verifier::external_body]
pub(crate) fn term_process(t: &mut Emulator, bytes: &[u8])
    requires
        term_rows(*old(t)) >= MIN_EMULATOR_ROWS,
        MIN_EMULATOR_COLS <= term_cols(*old(t)) <= MAX_EMULATOR_COLS,
    ensures
        term_rows(*final(t)) == term_rows(*old(t)),
        term_cols(*final(t)) == term_cols(*old(t)),
        term_input(*final(t)) == term_input(*old(t)) + bytes@,
{
    t.inner.process(bytes)
}

/// The size of an emulator as rows and columns.
///
/// Wraps `vt100::Screen::size`: the size that the emulator was created with.
#[verifier::external_body]
pub(crate) fn term_size(t: &Emulator) -> (r: (u16, u16))
    ensures
        r == (term_rows(*t), term_cols(*t)),
{
    t.inner.screen().size()
}

/// The cursor position of an emulator as row and column.
///
/// Wraps `vt100::Screen::cursor_position`, whose result follows from the
/// size and the input so far.
#[verifier::external_body]
pub(crate) fn term_cursor(t: &Emulator) -> (r: (u16, u16))
    ensures
        r == vt_cursor(term_rows(*t), term_cols(*t), term_input(*t)),
{
    t.inner.screen().cursor_position()
}

/// The text of one cell of an emulator.
///
/// Wraps `vt100::Screen::cell` and `vt100::Cell::contents`, whose result
/// follows from the size and the input so far.
#[verifier::external_body]
pub(crate) fn term_cell_text(t: &Emulator, row: u16, col: u16) -> (s: String)
    ensures
        s@ == vt_cell_text(term_rows(*t), term_cols(*t), term_input(*t), row, col),
{
    t.inner.screen().cell(row, col).map(|c| c.contents()).unwrap_or_default()
}

/// The colours of one cell of an emulator.
///
/// Wraps `vt100::Screen::cell`, `vt100::Cell::fgcolor` and
/// `vt100::Cell::bgcolor`, whose results follow from the size and the input
/// so far.
#[verifier::external_body]
pub(crate) fn term_cell_colors(t: &Emulator, row: u16, col: u16) -> (r: (
    Option<CellColor>,
    Option<CellColor>,
))
    ensures
        r == vt_cell_colors(term_rows(*t), term_cols(*t), term_input(*t), row, col),
{
    let pick = |c: vt100::Color| match c {
        vt100::Color::Default => None,
        vt100::Color::Idx(i) => Some(CellColor::Indexed(i)),
        vt100::Color::Rgb(r, g, b) => Some(CellColor::Rgb { r, g, b }),
    };
    t.inner.screen().cell(row, col).map_or((None, None), |c| (pick(c.fgcolor()), pick(c.bgcolor())))
}

/// The attributes of one cell of an emulator: bold, italic, underline,
/// inverse.
///
/// Wraps `vt100::Screen::cell` and the four attribute getters of
/// `vt100::Cell`, whose results follow from the size and the input so far.
#[verifier::external_body]
pub(crate) fn term_cell_attrs(t: &Emulator, row: u16, col: u16) -> (r: (
    bool,
    bool,
    bool,
    bool,
))
    ensures
        r == vt_cell_attrs(term_rows(*t), term_cols(*t), term_input(*t), row, col),
{
    t.inner.screen().cell(row, col).map_or(
        (false, false, false, false),
        |c| (c.bold(), c.italic(), c.underline(), c.inverse()),
    )
}

/// The fewest rows that an emulator is given.
pub const MIN_EMULATOR_ROWS: u16 = 2;

/// The fewest columns that an emulator is given: as many as the widest
/// character takes.
pub const MIN_EMULATOR_COLS: u16 = 3;

/// The most columns that an emulator is given.
pub const MAX_EMULATOR_COLS: u16 = 65527;

/// The number of rows of the emulator of a pane that is `height` high: the
/// height, held between [`MIN_EMULATOR_ROWS`] and 65535.
pub open spec fn emu_rows(height: u32) -> u16 {
    if height < MIN_EMULATOR_ROWS {
        MIN_EMULATOR_ROWS
    } else if height > 0xFFFF {
        0xFFFF
    } else {
        height as u16
    }
}

/// The number of columns of the emulator of a pane that is `width` wide: the
/// width, held between [`MIN_EMULATOR_COLS`] and [`MAX_EMULATOR_COLS`].
pub open spec fn emu_cols(width: u32) -> u16 {
    if width < MIN_EMULATOR_COLS {
        MIN_EMULATOR_COLS
    } else if width > MAX_EMULATOR_COLS {
        MAX_EMULATOR_COLS
    } else {
        width as u16
    }
}

/// A fresh emulator for a pane of `width` by `height`.
pub fn new_emulator(width: u32, height: u32) -> (t: Emulator)
    ensures
        term_rows(t) == emu_rows(height),
        term_cols(t) == emu_cols(width),
        term_input(t) == Seq::<u8>::empty(),
{
    let rows: u16 = if height < MIN_EMULATOR_ROWS as u32 {
        MIN_EMULATOR_ROWS
    } else if height > 0xFFFF {
        0xFFFF
    } else {
        height as u16
    };
    let cols: u16 = if width < MIN_EMULATOR_COLS as u32 {
        MIN_EMULATOR_COLS
    } else if width > MAX_EMULATOR_COLS as u32 {
        MAX_EMULATOR_COLS
    } else {
        width as u16
    };
    term_new(rows, cols)
}

/// `bytes` with a carriage return put before every line feed.
pub open spec fn with_carriage_returns(bytes: Seq<u8>) -> Seq<u8>
    decreases bytes.len(),
{
    if bytes.len() == 0 {
        Seq::empty()
    } else if bytes.last() == 0x0a {
        with_carriage_returns(bytes.drop_last()) + seq![0x0du8, 0x0au8]
    } else {
        with_carriage_returns(bytes.drop_last()).push(bytes.last())
    }
}

/// Puts a carriage return before every line feed.
pub fn normalize_newlines(bytes: &[u8]) -> (out: Vec<u8>)
    ensures
        out@ == with_carriage_returns(bytes@),
{
    let mut out: Vec<u8> = Vec::new();
    let mut i: usize = 0;
    assert(bytes@.subrange(0, 0) =~= Seq::empty());
    while i < bytes.len()
        invariant
            i <= bytes@.len(),
            out@ == with_carriage_returns(bytes@.subrange(0, i as int)),
        decreases bytes@.len() - i,
    {
        let ghost next = bytes@.subrange(0, i + 1);
        assert(next.drop_last() =~= bytes@.subrange(0, i as int));
        let ghost before = out@;
        if bytes[i] == 0x0a {
            out.push(0x0d);
            out.push(0x0a);
            assert(out@ =~= before + seq![0x0du8, 0x0au8]);
        } else {
            out.push(bytes[i]);
        }
        i += 1;
    }
    assert(bytes@.subrange(0, bytes@.len() as int) =~= bytes@);
    out
}

/// The link target of the cell at `(row, col)`, if links are tracked and
/// the cell has one.
pub open spec fn url_of(urls: Option<Map<(u32, u32), Seq<char>>>, row: u16, col: u16) -> Option<
    Seq<char>,
> {
    match urls {
        Some(m) => if m.contains_key((row as u32, col as u32)) {
            Some(m[(row as u32, col as u32)])
        } else {
            None
        },
        None => None,
    }
}

/// The cell at `(row, col)` of an emulator of `rows` by `cols` that has
/// processed `input`. A cell without text shows one space; the style is left
/// out where every attribute has its default.
pub open spec fn screen_cell(
    rows: u16,
    cols: u16,
    input: Seq<u8>,
    urls: Option<Map<(u32, u32), Seq<char>>>,
    row: u16,
    col: u16,
) -> CellView {
    let text = vt_cell_text(rows, cols, input, row, col);
    let colors = vt_cell_colors(rows, cols, input, row, col);
    let attrs = vt_cell_attrs(rows, cols, input, row, col);
    styled(
        if text.len() == 0 {
            seq![' ']
        } else {
            text
        },
        CellStyleView {
            fg: colors.0,
            bg: colors.1,
            bold: attrs.0,
            italic: attrs.1,
            underline: attrs.2,
            inverse: attrs.3,
            url: url_of(urls, row, col),
        },
    )
}

/// Whether a cell shows nothing: white space only, and no style.
pub open spec fn is_blank(c: CellView) -> bool {
    text::trim(c.text).len() == 0 && c.style.is_none()
}

/// `line` without the blank cells at its end.
pub open spec fn trim_blank(line: Seq<CellView>) -> Seq<CellView>
    decreases line.len(),
{
    if line.len() > 0 && is_blank(line.last()) {
        trim_blank(line.drop_last())
    } else {
        line
    }
}

/// The first `width` cells of row `row`, blank ones included.
pub open spec fn row_cells(
    rows: u16,
    cols: u16,
    input: Seq<u8>,
    urls: Option<Map<(u32, u32), Seq<char>>>,
    row: u16,
    width: u16,
) -> Seq<CellView> {
    Seq::new(width as nat, |c: int| screen_cell(rows, cols, input, urls, row, c as u16))
}

/// How many of the `size` rows or columns of an emulator belong to a pane
/// that is `extent` high or wide: the emulator may be larger than the pane
/// and the pane larger than the emulator.
pub open spec fn shown(size: u16, extent: u32) -> u16 {
    if extent < size {
        extent as u16
    } else {
        size
    }
}

/// The cells in the upper left `width` by `height` of an emulator of `rows`
/// by `cols` that has processed `input`: one line for each row, each
/// without the blank cells at its end.
pub open spec fn region_cells(
    rows: u16,
    cols: u16,
    input: Seq<u8>,
    urls: Option<Map<(u32, u32), Seq<char>>>,
    width: u32,
    height: u32,
) -> Seq<Seq<CellView>> {
    Seq::new(
        shown(rows, height) as nat,
        |r: int| trim_blank(row_cells(rows, cols, input, urls, r as u16, shown(cols, width))),
    )
}

/// All cells of an emulator of `rows` by `cols` that has processed `input`:
/// one line for each row, each without the blank cells at its end.
pub open spec fn screen_cells(
    rows: u16,
    cols: u16,
    input: Seq<u8>,
    urls: Option<Map<(u32, u32), Seq<char>>>,
) -> Seq<Seq<CellView>> {
    region_cells(rows, cols, input, urls, cols as u32, rows as u32)
}

/// The cells that a pane of `width` by `height` shows once its emulator has
/// processed `input`: the cells of the emulator that lie within the pane.
pub open spec fn pane_cells(
    width: u32,
    height: u32,
    input: Seq<u8>,
    urls: Option<Map<(u32, u32), Seq<char>>>,
) -> Seq<Seq<CellView>> {
    region_cells(emu_rows(height), emu_cols(width), input, urls, width, height)
}

/// The link targets that `osc` tracks, if there is a tracker.
pub open spec fn tracked_urls(osc: Option<&OscParser>) -> Option<Map<(u32, u32), Seq<char>>> {
    match osc {
        Some(p) => Some(p@.urls),
        None => None,
    }
}

fn cell_is_blank(c: &TerminalCell) -> (r: bool)
    ensures
        r == is_blank(c@),
{
    if c.style.is_some() {
        return false;
    }
    let chars = text::chars_of(c.char.as_str());
    let (a, b) = text::trim_bounds(chars.as_slice());
    a == b
}

fn read_cell(t: &Emulator, osc: Option<&OscParser>, row: u16, col: u16) -> (c: TerminalCell)
    ensures
        c@ == screen_cell(
            term_rows(*t),
            term_cols(*t),
            term_input(*t),
            tracked_urls(osc),
            row,
            col,
        ),
{
    let raw = term_cell_text(t, row, col);
    let text = if raw.as_str().is_empty() {
        proof {
            reveal_strlit(" ");
            assert(" "@ =~= seq![' ']);
        }
        text::string_of_str(" ")
    } else {
        raw
    };
    let colors = term_cell_colors(t, row, col);
    let attrs = term_cell_attrs(t, row, col);
    let url = match osc {
        Some(p) => match p.get_url(row as u32, col as u32) {
            Some(u) => Some(u.clone()),
            None => None,
        },
        None => None,
    };
    let style = CellStyle {
        fg: colors.0,
        bg: colors.1,
        bold: attrs.0,
        italic: attrs.1,
        underline: attrs.2,
        inverse: attrs.3,
        url,
    };
    TerminalCell::with_style(text, style)
}

/// Reads the cells of an emulator that lie within a pane of `width` by
/// `height`. Where `osc` is given, each cell takes its link target from it.
pub fn extract_pane_cells(
    t: &Emulator,
    osc: Option<&OscParser>,
    width: u32,
    height: u32,
) -> (content: PaneContent)
    ensures
        content_view(content@) == region_cells(
            term_rows(*t),
            term_cols(*t),
            term_input(*t),
            tracked_urls(osc),
            width,
            height,
        ),
{
    let (all_rows, all_cols) = term_size(t);
    let rows: u16 = if height < all_rows as u32 {
        height as u16
    } else {
        all_rows
    };
    let cols: u16 = if width < all_cols as u32 {
        width as u16
    } else {
        all_cols
    };
    let ghost input = term_input(*t);
    let ghost urls = tracked_urls(osc);
    let mut lines: Vec<Vec<TerminalCell>> = Vec::new();
    let mut row: u16 = 0;
    while row < rows
        invariant
            row <= rows,
            all_rows == term_rows(*t),
            all_cols == term_cols(*t),
            input == term_input(*t),
            urls == tracked_urls(osc),
            lines@.len() == row,
            forall|r: int|
                0 <= r < row ==> line_view(#[trigger] lines@[r]@) == trim_blank(
                    row_cells(all_rows, all_cols, input, urls, r as u16, cols),
                ),
        decreases rows - row,
    {
        let ghost full = row_cells(all_rows, all_cols, input, urls, row, cols);
        let mut line: Vec<TerminalCell> = Vec::new();
        let mut col: u16 = 0;
        while col < cols
            invariant
                col <= cols,
                all_rows == term_rows(*t),
                all_cols == term_cols(*t),
                input == term_input(*t),
                urls == tracked_urls(osc),
                full == row_cells(all_rows, all_cols, input, urls, row, cols),
                line@.len() == col,
                forall|c: int| 0 <= c < col ==> (#[trigger] line@[c])@ == full[c],
            decreases cols - col,
        {
            line.push(read_cell(t, osc, row, col));
            col += 1;
        }
        assert(line_view(line@) =~= full);
        while line.len() > 0 && cell_is_blank(&line[line.len() - 1])
            invariant
                trim_blank(full) == trim_blank(line_view(line@)),
            decreases line@.len(),
        {
            let ghost before = line_view(line@);
            line.pop();
            assert(line_view(line@) =~= before.drop_last());
        }
        lines.push(line);
        row += 1;
    }
    assert(content_view(lines@) =~= region_cells(all_rows, all_cols, input, urls, width, height));
    lines
}

/// Reads all cells of an emulator. Where `osc` is given, each cell takes
/// its link target from it.
pub fn extract_cells_with_urls(t: &Emulator, osc: Option<&OscParser>) -> (content: PaneContent)
    ensures
        content_view(content@) == screen_cells(
            term_rows(*t),
            term_cols(*t),
            term_input(*t),
            tracked_urls(osc),
        ),
{
    let (rows, cols) = term_size(t);
    extract_pane_cells(t, osc, cols as u32, rows as u32)
}

/// Reads all cells of an emulator, without link targets.
pub fn extract_cells_from_screen(t: &Emulator) -> (content: PaneContent)
    ensures
        content_view(content@) == screen_cells(
            term_rows(*t),
            term_cols(*t),
            term_input(*t),
            None,
        ),
{
    extract_cells_with_urls(t, None)
}

/// The cells that a terminal of `width` by `height` shows after the output
/// `content`, in which a line feed alone ends a line.
pub fn parse_ansi_to_cells(content: &str, width: u32, height: u32) -> (cells: PaneContent)
    ensures
        content_view(cells@) == pane_cells(
            width,
            height,
            with_carriage_returns(encode_utf8(content@)),
            None,
        ),
        cells@.len() <= height,
        forall|r: int| 0 <= r < cells@.len() ==> (#[trigger] cells@[r])@.len() <= width,
{
    let mut t = new_emulator(width, height);
    let normalized = normalize_newlines(content.as_bytes());
    term_process(&mut t, normalized.as_slice());
    assert(Seq::<u8>::empty() + normalized@ =~= normalized@);
    let cells = extract_pane_cells(&t, None, width, height);
    proof {
        lemma_region_within(
            emu_rows(height),
            emu_cols(width),
            with_carriage_returns(encode_utf8(content@)),
            None,
            width,
            height,
        );
        assert forall|r: int| 0 <= r < cells@.len() implies (#[trigger] cells@[r])@.len()
            <= width by {
            assert(content_view(cells@)[r] == line_view(cells@[r]@));
        }
    }
    cells
}

proof fn lemma_trim_blank_shorter(line: Seq<CellView>)
    ensures
        trim_blank(line).len() <= line.len(),
    decreases line.len(),
{
    if line.len() > 0 && is_blank(line.last()) {
        lemma_trim_blank_shorter(line.drop_last());
    }
}

/// The cells of a region lie within it: no more lines than its height, and
/// no line longer than its width.
pub proof fn lemma_region_within(
    rows: u16,
    cols: u16,
    input: Seq<u8>,
    urls: Option<Map<(u32, u32), Seq<char>>>,
    width: u32,
    height: u32,
)
    ensures
        region_cells(rows, cols, input, urls, width, height).len() <= height,
        forall|r: int|
            0 <= r < region_cells(rows, cols, input, urls, width, height).len() ==> (
            #[trigger] region_cells(rows, cols, input, urls, width, height)[r]).len() <= width,
{
    assert forall|r: int|
        0 <= r < region_cells(rows, cols, input, urls, width, height).len() implies (
    #[trigger] region_cells(rows, cols, input, urls, width, height)[r]).len() <= width by {
        lemma_trim_blank_shorter(row_cells(rows, cols, input, urls, r as u16, shown(cols, width)));
    }
}

} // verus!
