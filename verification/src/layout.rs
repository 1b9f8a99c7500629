//! The layout strings of tmux.
//!
//! A layout string is a checksum, a comma, and a cell. A cell is `WxH,X,Y`
//! followed by a comma and the number of a pane, or by a list of cells in
//! braces (panes side by side) or in square brackets (panes one above the
//! other). The positions are those within the window.

use crate::text;
use vstd::prelude::*;

verus! {

/// The place of one pane in a layout.
#[derive(Debug, Clone, Copy, PartialEq, Eq, Structural)]
pub struct LayoutLeaf {
    /// The number of the pane.
    pub pane: u32,
    pub width: u32,
    pub height: u32,
    pub x: u32,
    pub y: u32,
}

/// Index of the first character of `s` at or after `i` that is no digit.
pub open spec fn digits_end(s: Seq<char>, i: int) -> int
    decreases s.len() - i,
{
    if i < 0 || i >= s.len() || !text::is_digit(s[i]) {
        i
    } else {
        digits_end(s, i + 1)
    }
}

/// The number written at index `i` of `s` and the index behind it, where a
/// number that fits in 32 bits is written there.
pub open spec fn number_at(s: Seq<char>, i: int) -> Option<(u32, int)> {
    let e = digits_end(s, i);
    if 0 <= i < e <= s.len() {
        match text::parse_u32_spec(s.subrange(i, e)) {
            Some(v) => Some((v, e)),
            None => None,
        }
    } else {
        None
    }
}

/// Whether the character `c` stands at index `i` of `s`.
pub open spec fn char_at(s: Seq<char>, i: int, c: char) -> bool {
    0 <= i < s.len() && s[i] == c
}

/// The size and position written at index `i` of `s` as `WxH,X,Y`, and the
/// index behind them.
pub open spec fn header_at(s: Seq<char>, i: int) -> Option<((u32, u32, u32, u32), int)> {
    match number_at(s, i) {
        Some((w, a)) => if char_at(s, a, 'x') {
            match number_at(s, a + 1) {
                Some((h, b)) => if char_at(s, b, ',') {
                    match number_at(s, b + 1) {
                        Some((x, c)) => if char_at(s, c, ',') {
                            match number_at(s, c + 1) {
                                Some((y, d)) => Some(((w, h, x, y), d)),
                                None => None,
                            }
                        } else {
                            None
                        },
                        None => None,
                    }
                } else {
                    None
                },
                None => None,
            }
        } else {
            None
        },
        None => None,
    }
}

/// The bracket that closes the list opened by `open`.
pub open spec fn closing(open: char) -> char {
    if open == '{' {
        '}'
    } else {
        ']'
    }
}

/// The panes of the cell written at index `i` of `s`, in the order written,
/// and the index behind the cell; `None` where no cell is written there. A
/// cell without the number of a pane and without a list holds no pane.
pub open spec fn cell_at(s: Seq<char>, i: int) -> Option<(Seq<LayoutLeaf>, int)>
    decreases s.len() - i, 0int,
{
    match header_at(s, i) {
        Some((d, j)) => {
            if j <= i || j > s.len() {
                None
            } else if char_at(s, j, '{') || char_at(s, j, '[') {
                cells_at(s, j + 1, closing(s[j]))
            } else if char_at(s, j, ',') && number_at(s, j + 1).is_some() && !char_at(
                s,
                number_at(s, j + 1).unwrap().1,
                'x',
            ) {
                Some(
                    (
                        seq![
                            LayoutLeaf {
                                pane: number_at(s, j + 1).unwrap().0,
                                width: d.0,
                                height: d.1,
                                x: d.2,
                                y: d.3,
                            },
                        ],
                        number_at(s, j + 1).unwrap().1,
                    ),
                )
            } else {
                Some((Seq::empty(), j))
            }
        },
        None => None,
    }
}

/// The panes of the list of cells written at index `i` of `s` and closed by
/// `close`, and the index behind the closing bracket.
pub open spec fn cells_at(s: Seq<char>, i: int, close: char) -> Option<(Seq<LayoutLeaf>, int)>
    decreases s.len() - i, 1int,
{
    match cell_at(s, i) {
        Some((first, j)) => {
            if j <= i || j >= s.len() {
                None
            } else if s[j] == ',' {
                match cells_at(s, j + 1, close) {
                    Some((rest, k)) => Some((first + rest, k)),
                    None => None,
                }
            } else if s[j] == close {
                Some((first, j + 1))
            } else {
                None
            }
        },
        None => None,
    }
}

/// The panes of a layout string, in the order written. A string that is no
/// layout holds none.
pub open spec fn layout_leaves(layout: Seq<char>) -> Seq<LayoutLeaf> {
    let comma = text::find_from(layout, ',', 0);
    if comma >= layout.len() {
        Seq::empty()
    } else {
        match cell_at(layout, comma + 1) {
            Some((leaves, _)) => leaves,
            None => Seq::empty(),
        }
    }
}

fn read_number(s: &[char], i: usize) -> (r: Option<(u32, usize)>)
    requires
        i <= s@.len(),
    ensures
        match r {
            Some((v, e)) => number_at(s@, i as int) == Some((v, e as int)) && i < e <= s@.len(),
            None => number_at(s@, i as int).is_none(),
        },
{
    let mut e: usize = i;
    while e < s.len() && s[e] >= '0' && s[e] <= '9'
        invariant
            i <= e <= s@.len(),
            digits_end(s@, i as int) == digits_end(s@, e as int),
        decreases s@.len() - e,
    {
        e += 1;
    }
    if e == i {
        return None;
    }
    let digits = vstd::slice::slice_subrange(s, i, e);
    match text::parse_u32(digits) {
        Some(v) => Some((v, e)),
        None => None,
    }
}

fn has_char_at(s: &[char], i: usize, c: char) -> (r: bool)
    ensures
        r == char_at(s@, i as int, c),
        r ==> i < usize::MAX,
{
    i < s.len() && s[i] == c
}

fn read_header(s: &[char], i: usize) -> (r: Option<((u32, u32, u32, u32), usize)>)
    requires
        i <= s@.len(),
    ensures
        match r {
            Some((d, e)) => header_at(s@, i as int) == Some((d, e as int)) && i < e <= s@.len(),
            None => header_at(s@, i as int).is_none(),
        },
{
    let (w, a) = match read_number(s, i) {
        Some(r) => r,
        None => {
            return None;
        },
    };
    if !has_char_at(s, a, 'x') {
        return None;
    }
    let (h, b) = match read_number(s, a + 1) {
        Some(r) => r,
        None => {
            return None;
        },
    };
    if !has_char_at(s, b, ',') {
        return None;
    }
    let (x, c) = match read_number(s, b + 1) {
        Some(r) => r,
        None => {
            return None;
        },
    };
    if !has_char_at(s, c, ',') {
        return None;
    }
    let (y, d) = match read_number(s, c + 1) {
        Some(r) => r,
        None => {
            return None;
        },
    };
    Some(((w, h, x, y), d))
}

fn read_cell(s: &[char], i: usize) -> (r: Option<(Vec<LayoutLeaf>, usize)>)
    requires
        i <= s@.len(),
    ensures
        match r {
            Some((leaves, e)) => cell_at(s@, i as int) == Some((leaves@, e as int)) && i < e
                <= s@.len(),
            None => cell_at(s@, i as int).is_none(),
        },
    decreases s@.len() - i, 0int,
{
    let (d, j) = match read_header(s, i) {
        Some(r) => r,
        None => {
            return None;
        },
    };
    if has_char_at(s, j, '{') || has_char_at(s, j, '[') {
        let close = if s[j] == '{' {
            '}'
        } else {
            ']'
        };
        return read_cells(s, j + 1, close);
    }
    if has_char_at(s, j, ',') {
        if let Some((pane, k)) = read_number(s, j + 1) {
            if !has_char_at(s, k, 'x') {
                let leaves: Vec<LayoutLeaf> = vec![
                    LayoutLeaf { pane, width: d.0, height: d.1, x: d.2, y: d.3 },
                ];
                assert(leaves@ =~= seq![
                    LayoutLeaf { pane, width: d.0, height: d.1, x: d.2, y: d.3 },
                ]);
                return Some((leaves, k));
            }
        }
    }
    Some((Vec::new(), j))
}

fn read_cells(s: &[char], i: usize, close: char) -> (r: Option<(Vec<LayoutLeaf>, usize)>)
    requires
        i <= s@.len(),
    ensures
        match r {
            Some((leaves, e)) => cells_at(s@, i as int, close) == Some((leaves@, e as int)) && i
                < e <= s@.len(),
            None => cells_at(s@, i as int, close).is_none(),
        },
    decreases s@.len() - i, 1int,
{
    let (mut first, j) = match read_cell(s, i) {
        Some(r) => r,
        None => {
            return None;
        },
    };
    if j >= s.len() {
        return None;
    }
    if s[j] == ',' {
        match read_cells(s, j + 1, close) {
            Some((mut rest, k)) => {
                let ghost a = first@;
                let ghost b = rest@;
                first.append(&mut rest);
                assert(first@ =~= a + b);
                Some((first, k))
            },
            None => None,
        }
    } else if s[j] == close {
        Some((first, j + 1))
    } else {
        None
    }
}

/// Reads the panes of a layout string.
pub fn parse_layout(layout: &[char]) -> (leaves: Vec<LayoutLeaf>)
    ensures
        leaves@ == layout_leaves(layout@),
{
    let comma = text::find_char_from(layout, ',', 0);
    proof {
        text::lemma_find_from(layout@, ',', 0);
    }
    if comma >= layout.len() {
        return Vec::new();
    }
    match read_cell(layout, comma + 1) {
        Some((leaves, _)) => leaves,
        None => Vec::new(),
    }
}

} // verus!
