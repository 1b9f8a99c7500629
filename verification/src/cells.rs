//! Terminal cells: what one position of a pane shows.

use crate::text;
use vstd::prelude::*;
use vstd::string::StringExecFns;

verus! {

/// A colour of a terminal cell.
#[derive(Debug, Clone, Copy, PartialEq, Eq, Structural)]
pub enum CellColor {
    /// One of the 256 indexed colours.
    Indexed(u8),
    /// A colour given by its red, green and blue parts.
    Rgb { r: u8, g: u8, b: u8 },
}

/// The styling of a cell. A cell carries one only where it differs from the
/// default in some attribute.
#[derive(Debug, PartialEq, Eq)]
pub struct CellStyle {
    /// Foreground colour, where it is not the default.
    pub fg: Option<CellColor>,
    /// Background colour, where it is not the default.
    pub bg: Option<CellColor>,
    pub bold: bool,
    pub italic: bool,
    pub underline: bool,
    pub inverse: bool,
    /// Target of the hyperlink that the cell belongs to.
    pub url: Option<String>,
}

/// The mathematical value of a [`CellStyle`].
pub struct CellStyleView {
    pub fg: Option<CellColor>,
    pub bg: Option<CellColor>,
    pub bold: bool,
    pub italic: bool,
    pub underline: bool,
    pub inverse: bool,
    pub url: Option<Seq<char>>,
}

impl CellStyleView {
    /// Whether every attribute has its default.
    pub open spec fn is_empty(self) -> bool {
        self.fg.is_none() && self.bg.is_none() && !self.bold && !self.italic && !self.underline
            && !self.inverse && self.url.is_none()
    }
}

impl View for CellStyle {
    type V = CellStyleView;

    open spec fn view(&self) -> CellStyleView {
        CellStyleView {
            fg: self.fg,
            bg: self.bg,
            bold: self.bold,
            italic: self.italic,
            underline: self.underline,
            inverse: self.inverse,
            url: text::opt_view(self.url),
        }
    }
}

/// A copy of an optional string.
pub fn clone_opt_string(o: &Option<String>) -> (r: Option<String>)
    ensures
        text::opt_view(r) == text::opt_view(*o),
{
    match o {
        Some(s) => Some(s.clone()),
        None => None,
    }
}

/// Whether two optional strings hold the same text.
pub fn opt_string_eq(a: &Option<String>, b: &Option<String>) -> (r: bool)
    ensures
        r == (text::opt_view(*a) == text::opt_view(*b)),
{
    match (a, b) {
        (Some(x), Some(y)) => *x == *y,
        (None, None) => true,
        _ => false,
    }
}

fn opt_color_eq(a: Option<CellColor>, b: Option<CellColor>) -> (r: bool)
    ensures
        r == (a == b),
{
    match (a, b) {
        (Some(x), Some(y)) => x == y,
        (None, None) => true,
        _ => false,
    }
}

impl Clone for CellStyle {
    fn clone(&self) -> (r: CellStyle)
        ensures
            r@ == self@,
    {
        CellStyle {
            fg: self.fg,
            bg: self.bg,
            bold: self.bold,
            italic: self.italic,
            underline: self.underline,
            inverse: self.inverse,
            url: clone_opt_string(&self.url),
        }
    }
}

impl Default for CellStyle {
    fn default() -> (s: CellStyle)
        ensures
            s@.is_empty(),
    {
        CellStyle {
            fg: None,
            bg: None,
            bold: false,
            italic: false,
            underline: false,
            inverse: false,
            url: None,
        }
    }
}

impl CellStyle {
    /// Whether every attribute has its default.
    pub fn is_empty(&self) -> (r: bool)
        ensures
            r == self@.is_empty(),
    {
        self.fg.is_none() && self.bg.is_none() && !self.bold && !self.italic && !self.underline
            && !self.inverse && self.url.is_none()
    }

    /// Whether two styles agree in every attribute.
    pub fn same_as(&self, other: &CellStyle) -> (r: bool)
        ensures
            r == (self@ == other@),
    {
        opt_color_eq(self.fg, other.fg) && opt_color_eq(self.bg, other.bg) && self.bold
            == other.bold && self.italic == other.italic && self.underline == other.underline
            && self.inverse == other.inverse && opt_string_eq(&self.url, &other.url)
    }
}

/// One cell of a terminal: its text and, where it is styled, its style.
#[derive(Debug, PartialEq, Eq)]
pub struct TerminalCell {
    /// The text of the cell: mostly one character, more where characters
    /// combine.
    pub char: String,
    /// The style, where the cell has one.
    pub style: Option<CellStyle>,
}

/// The mathematical value of a [`TerminalCell`].
pub struct CellView {
    pub text: Seq<char>,
    pub style: Option<CellStyleView>,
}

/// The view of an optional style.
pub open spec fn opt_style_view(o: Option<CellStyle>) -> Option<CellStyleView> {
    match o {
        Some(s) => Some(s@),
        None => None,
    }
}

impl View for TerminalCell {
    type V = CellView;

    open spec fn view(&self) -> CellView {
        CellView { text: self.char@, style: opt_style_view(self.style) }
    }
}

impl Clone for TerminalCell {
    fn clone(&self) -> (r: TerminalCell)
        ensures
            r@ == self@,
    {
        TerminalCell {
            char: self.char.clone(),
            style: match &self.style {
                Some(s) => Some(s.clone()),
                None => None,
            },
        }
    }
}

impl TerminalCell {
    /// A cell without style.
    pub fn new(char: String) -> (c: TerminalCell)
        ensures
            c@ == (CellView { text: char@, style: None }),
    {
        TerminalCell { char, style: None }
    }

    /// A cell with `style`, which is left out where it is empty.
    pub fn with_style(char: String, style: CellStyle) -> (c: TerminalCell)
        ensures
            c@ == styled(char@, style@),
    {
        let style = if style.is_empty() {
            None
        } else {
            Some(style)
        };
        TerminalCell { char, style }
    }

    /// Whether two cells show the same: the same text and the same style.
    pub fn same_as(&self, other: &TerminalCell) -> (r: bool)
        ensures
            r == (self@ == other@),
    {
        if !(self.char == other.char) {
            return false;
        }
        match (&self.style, &other.style) {
            (Some(a), Some(b)) => a.same_as(b),
            (None, None) => true,
            _ => false,
        }
    }
}

/// The cell with text `text` and style `style`, the style left out where it
/// is empty.
pub open spec fn styled(text: Seq<char>, style: CellStyleView) -> CellView {
    CellView {
        text,
        style: if style.is_empty() {
            None
        } else {
            Some(style)
        },
    }
}

/// A line of cells.
pub type TerminalLine = Vec<TerminalCell>;

/// The lines of a pane, top to bottom.
pub type PaneContent = Vec<TerminalLine>;

/// The views of the cells of a line.
pub open spec fn line_view(line: Seq<TerminalCell>) -> Seq<CellView> {
    Seq::new(line.len(), |i: int| line[i]@)
}

/// The views of the lines of a pane.
pub open spec fn content_view(content: Seq<Vec<TerminalCell>>) -> Seq<Seq<CellView>> {
    Seq::new(content.len(), |i: int| line_view(content[i]@))
}

/// The view of optional pane content.
pub open spec fn opt_content_view(o: Option<PaneContent>) -> Option<Seq<Seq<CellView>>> {
    match o {
        Some(c) => Some(content_view(c@)),
        None => None,
    }
}

/// A copy of a line.
pub fn clone_line(line: &Vec<TerminalCell>) -> (r: Vec<TerminalCell>)
    ensures
        line_view(r@) == line_view(line@),
{
    let mut r: Vec<TerminalCell> = Vec::new();
    let mut i: usize = 0;
    while i < line.len()
        invariant
            i <= line@.len(),
            r@.len() == i,
            forall|j: int| 0 <= j < i ==> r@[j]@ == line@[j]@,
        decreases line@.len() - i,
    {
        r.push(line[i].clone());
        i += 1;
    }
    assert(line_view(r@) =~= line_view(line@));
    r
}

/// A copy of pane content.
pub fn clone_content(content: &PaneContent) -> (r: PaneContent)
    ensures
        content_view(r@) == content_view(content@),
{
    let mut r: Vec<Vec<TerminalCell>> = Vec::new();
    let mut i: usize = 0;
    while i < content.len()
        invariant
            i <= content@.len(),
            r@.len() == i,
            forall|j: int| 0 <= j < i ==> line_view(r@[j]@) == line_view(content@[j]@),
        decreases content@.len() - i,
    {
        r.push(clone_line(&content[i]));
        i += 1;
    }
    assert(content_view(r@) =~= content_view(content@));
    r
}

/// Whether two lines show the same.
pub fn line_eq(a: &Vec<TerminalCell>, b: &Vec<TerminalCell>) -> (r: bool)
    ensures
        r == (line_view(a@) == line_view(b@)),
{
    if a.len() != b.len() {
        assert(line_view(a@).len() != line_view(b@).len());
        return false;
    }
    let mut i: usize = 0;
    while i < a.len()
        invariant
            a@.len() == b@.len(),
            i <= a@.len(),
            forall|j: int| 0 <= j < i ==> a@[j]@ == b@[j]@,
        decreases a@.len() - i,
    {
        if !a[i].same_as(&b[i]) {
            assert(line_view(a@)[i as int] != line_view(b@)[i as int]);
            return false;
        }
        i += 1;
    }
    assert(line_view(a@) =~= line_view(b@));
    true
}

/// Whether two panes show the same: the same number of lines, and in each
/// line the same cells.
pub fn content_eq(a: &PaneContent, b: &PaneContent) -> (r: bool)
    ensures
        r == (content_view(a@) == content_view(b@)),
{
    if a.len() != b.len() {
        assert(content_view(a@).len() != content_view(b@).len());
        return false;
    }
    let mut i: usize = 0;
    while i < a.len()
        invariant
            a@.len() == b@.len(),
            i <= a@.len(),
            forall|j: int| 0 <= j < i ==> line_view(a@[j]@) == line_view(b@[j]@),
        decreases a@.len() - i,
    {
        if !line_eq(&a[i], &b[i]) {
            assert(content_view(a@)[i as int] != content_view(b@)[i as int]);
            return false;
        }
        i += 1;
    }
    assert(content_view(a@) =~= content_view(b@));
    true
}

/// The text of the cells of a line, one after the other.
pub open spec fn line_text(line: Seq<CellView>) -> Seq<char>
    decreases line.len(),
{
    if line.len() == 0 {
        Seq::empty()
    } else {
        line_text(line.drop_last()) + line.last().text
    }
}

/// The text of all cells of a pane, line after line, with nothing between.
pub open spec fn content_text(content: Seq<Seq<CellView>>) -> Seq<char>
    decreases content.len(),
{
    if content.len() == 0 {
        Seq::empty()
    } else {
        content_text(content.drop_last()) + line_text(content.last())
    }
}

/// The text of all cells of a pane in one string, by which two contents can
/// be told apart cheaply.
pub fn content_to_hash_string(content: &PaneContent) -> (s: String)
    ensures
        s@ == content_text(content_view(content@)),
{
    let mut s = String::new();
    let ghost all = content_view(content@);
    let mut i: usize = 0;
    assert(all.subrange(0, 0) =~= Seq::empty());
    while i < content.len()
        invariant
            i <= content@.len(),
            all == content_view(content@),
            s@ == content_text(all.subrange(0, i as int)),
        decreases content@.len() - i,
    {
        let line = &content[i];
        let ghost cells = line_view(line@);
        let ghost before = s@;
        let mut j: usize = 0;
        assert(cells.subrange(0, 0) =~= Seq::empty());
        assert(before + Seq::<char>::empty() =~= before);
        while j < line.len()
            invariant
                j <= line@.len(),
                cells == line_view(line@),
                s@ == before + line_text(cells.subrange(0, j as int)),
            decreases line@.len() - j,
        {
            s.append(line[j].char.as_str());
            proof {
                let next = cells.subrange(0, j + 1);
                assert(next.drop_last() =~= cells.subrange(0, j as int));
                assert(next.last().text == line@[j as int].char@);
                assert(s@ =~= before + line_text(next));
            }
            j += 1;
        }
        proof {
            assert(cells.subrange(0, line@.len() as int) =~= cells);
            let next = all.subrange(0, i + 1);
            assert(next.drop_last() =~= all.subrange(0, i as int));
            assert(next.last() == cells);
        }
        i += 1;
    }
    assert(all.subrange(0, content@.len() as int) =~= all);
    s
}

} // verus!
