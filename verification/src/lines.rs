//! The lines with which tmux answers `list-panes` and `list-windows`.
//!
//! Each line holds the fields of one pane or window, separated by commas.

use crate::text;
use vstd::prelude::*;

verus! {

/// One line of the answer to `list-panes`.
#[derive(Debug)]
pub struct PaneLine {
    /// Identifier of the pane.
    pub id: String,
    /// Index of the pane within its window.
    pub index: u32,
    /// Column of the left edge.
    pub x: u32,
    /// Row of the top edge.
    pub y: u32,
    /// Width in cells.
    pub width: u32,
    /// Height in cells.
    pub height: u32,
    /// Column of the cursor.
    pub cursor_x: u32,
    /// Row of the cursor.
    pub cursor_y: u32,
    /// Whether the pane is the active one of its window.
    pub active: bool,
    /// Name of the command that runs in the pane.
    pub command: String,
    /// Title of the pane.
    pub title: String,
    /// Whether the pane is in copy mode.
    pub in_mode: bool,
    /// Column of the cursor of copy mode.
    pub copy_cursor_x: u32,
    /// Row of the cursor of copy mode.
    pub copy_cursor_y: u32,
    /// Identifier of the window that holds the pane.
    pub window_id: String,
    /// Title shown in the border, which may hold commas.
    pub border_title: String,
    /// Whether the application uses the alternate screen.
    pub alternate_on: bool,
    /// Whether the application tracks the mouse.
    pub mouse_any_flag: bool,
    /// Identifier of the group that the pane belongs to.
    pub group_id: Option<String>,
    /// Position of the pane among the tabs of its group.
    pub group_tab_index: Option<u32>,
}

/// The mathematical value of a [`PaneLine`].
pub struct PaneLineView {
    pub id: Seq<char>,
    pub index: u32,
    pub x: u32,
    pub y: u32,
    pub width: u32,
    pub height: u32,
    pub cursor_x: u32,
    pub cursor_y: u32,
    pub active: bool,
    pub command: Seq<char>,
    pub title: Seq<char>,
    pub in_mode: bool,
    pub copy_cursor_x: u32,
    pub copy_cursor_y: u32,
    pub window_id: Seq<char>,
    pub border_title: Seq<char>,
    pub alternate_on: bool,
    pub mouse_any_flag: bool,
    pub group_id: Option<Seq<char>>,
    pub group_tab_index: Option<u32>,
}

impl View for PaneLine {
    type V = PaneLineView;

    open spec fn view(&self) -> PaneLineView {
        PaneLineView {
            id: self.id@,
            index: self.index,
            x: self.x,
            y: self.y,
            width: self.width,
            height: self.height,
            cursor_x: self.cursor_x,
            cursor_y: self.cursor_y,
            active: self.active,
            command: self.command@,
            title: self.title@,
            in_mode: self.in_mode,
            copy_cursor_x: self.copy_cursor_x,
            copy_cursor_y: self.copy_cursor_y,
            window_id: self.window_id@,
            border_title: self.border_title@,
            alternate_on: self.alternate_on,
            mouse_any_flag: self.mouse_any_flag,
            group_id: text::opt_view(self.group_id),
            group_tab_index: self.group_tab_index,
        }
    }
}

/// One line of the answer to `list-windows`.
#[derive(Debug)]
pub struct WindowLine {
    /// Identifier of the window.
    pub id: String,
    /// Index of the window within the session.
    pub index: u32,
    /// Name of the window.
    pub name: String,
    /// Whether the window is the active one of the session.
    pub active: bool,
    /// The window over which the floating pane is shown.
    pub float_parent: Option<String>,
    /// Width of the floating pane.
    pub float_width: Option<u32>,
    /// Height of the floating pane.
    pub float_height: Option<u32>,
}

/// The mathematical value of a [`WindowLine`].
pub struct WindowLineView {
    pub id: Seq<char>,
    pub index: u32,
    pub name: Seq<char>,
    pub active: bool,
    pub float_parent: Option<Seq<char>>,
    pub float_width: Option<u32>,
    pub float_height: Option<u32>,
}

impl View for WindowLine {
    type V = WindowLineView;

    open spec fn view(&self) -> WindowLineView {
        WindowLineView {
            id: self.id@,
            index: self.index,
            name: self.name@,
            active: self.active,
            float_parent: text::opt_view(self.float_parent),
            float_width: self.float_width,
            float_height: self.float_height,
        }
    }
}

/// The number that the field `s` writes, or `default` where it writes none.
pub open spec fn number_or(s: Seq<char>, default: u32) -> u32 {
    match text::parse_u32_spec(s) {
        Some(v) => v,
        None => default,
    }
}

/// The number that field `i` of `parts` writes, or `default` where there is
/// no such field or it writes none.
pub open spec fn field_number_or(parts: Seq<Seq<char>>, i: int, default: u32) -> u32 {
    if i < parts.len() {
        number_or(parts[i], default)
    } else {
        default
    }
}

/// Whether field `i` of `parts` is there and is `1`.
pub open spec fn field_is_set(parts: Seq<Seq<char>>, i: int) -> bool {
    i < parts.len() && parts[i] == seq!['1']
}

/// The field `s`, unless it is empty.
pub open spec fn non_empty(s: Seq<char>) -> Option<Seq<char>> {
    if s.len() == 0 {
        None
    } else {
        Some(s)
    }
}

/// What follows field 14 of a `list-panes` line: the border title, then
/// whether the alternate screen is on, whether the mouse is tracked, the
/// group and the tab position. The border title may hold commas, so the four
/// fixed fields are taken from the end and the fields before them are joined
/// again. Older lines end with the two flags only, or with the border title
/// alone.
pub open spec fn pane_line_tail(parts: Seq<Seq<char>>) -> (
    Seq<char>,
    bool,
    bool,
    Option<Seq<char>>,
    Option<u32>,
) {
    let n = parts.len() as int;
    if n >= 19 {
        (
            text::join(parts.subrange(15, n - 4), seq![',']),
            parts[n - 4] == seq!['1'],
            parts[n - 3] == seq!['1'],
            non_empty(parts[n - 2]),
            text::parse_u32_spec(parts[n - 1]),
        )
    } else if n >= 17 {
        (
            text::join(parts.subrange(15, n - 2), seq![',']),
            parts[n - 2] == seq!['1'],
            parts[n - 1] == seq!['1'],
            None,
            None,
        )
    } else if n == 16 {
        (parts[15], false, false, None, None)
    } else {
        (Seq::empty(), false, false, None, None)
    }
}

/// What a `list-panes` line says, if it is one: eleven fields at least, the
/// first of them an identifier that begins with `%`. The fields are the
/// identifier, index, left, top, width, height, cursor column, cursor row,
/// active flag, command, title, copy-mode flag, copy-mode cursor column and
/// row, window, and the tail read by [`pane_line_tail`]. A number that
/// cannot be read counts as 0, the width as 80 and the height as 24.
pub open spec fn pane_line(line: Seq<char>) -> Option<PaneLineView> {
    let parts = text::split(line, ',');
    let tail = pane_line_tail(parts);
    if parts.len() < 11 || !text::starts_with(text::trim(parts[0]), seq!['%']) {
        None
    } else {
        Some(
            PaneLineView {
                id: text::trim(parts[0]),
                index: number_or(parts[1], 0),
                x: number_or(parts[2], 0),
                y: number_or(parts[3], 0),
                width: number_or(parts[4], 80),
                height: number_or(parts[5], 24),
                cursor_x: number_or(parts[6], 0),
                cursor_y: number_or(parts[7], 0),
                active: parts[8] == seq!['1'],
                command: parts[9],
                title: parts[10],
                in_mode: field_is_set(parts, 11),
                copy_cursor_x: field_number_or(parts, 12, 0),
                copy_cursor_y: field_number_or(parts, 13, 0),
                window_id: if parts.len() > 14 {
                    parts[14]
                } else {
                    Seq::empty()
                },
                border_title: tail.0,
                alternate_on: tail.1,
                mouse_any_flag: tail.2,
                group_id: tail.3,
                group_tab_index: tail.4,
            },
        )
    }
}

/// What a `list-windows` line says, if it is one: four fields at least, the
/// first of them an identifier that begins with `@`. The fields are the
/// identifier, index, name, active flag, and the parent, width and height of
/// a floating pane.
pub open spec fn window_line(line: Seq<char>) -> Option<WindowLineView> {
    let parts = text::split(line, ',');
    if parts.len() < 4 || !text::starts_with(text::trim(parts[0]), seq!['@']) {
        None
    } else {
        Some(
            WindowLineView {
                id: text::trim(parts[0]),
                index: number_or(parts[1], 0),
                name: parts[2],
                active: parts[3] == seq!['1'],
                float_parent: if parts.len() > 4 {
                    non_empty(parts[4])
                } else {
                    None
                },
                float_width: if parts.len() > 5 {
                    text::parse_u32_spec(parts[5])
                } else {
                    None
                },
                float_height: if parts.len() > 6 {
                    text::parse_u32_spec(parts[6])
                } else {
                    None
                },
            },
        )
    }
}

fn read_number_or(s: &Vec<char>, default: u32) -> (r: u32)
    ensures
        r == number_or(s@, default),
{
    match text::parse_u32(s.as_slice()) {
        Some(v) => v,
        None => default,
    }
}

fn is_one(s: &Vec<char>) -> (r: bool)
    ensures
        r == (s@ == seq!['1']),
{
    let r = s.len() == 1 && s[0] == '1';
    proof {
        if r {
            assert(s@ =~= seq!['1']);
        }
    }
    r
}

fn owned(s: &Vec<char>) -> (r: String)
    ensures
        r@ == s@,
{
    text::string_of(s.as_slice())
}

fn owned_non_empty(s: &Vec<char>) -> (r: Option<String>)
    ensures
        text::opt_view(r) == non_empty(s@),
{
    if s.len() == 0 {
        None
    } else {
        Some(owned(s))
    }
}

proof fn lemma_views_index(parts: Seq<Vec<char>>)
    ensures
        text::views(parts).len() == parts.len(),
        forall|i: int| 0 <= i < parts.len() ==> #[trigger] text::views(parts)[i] == parts[i]@,
{
}

/// Reads one line of the answer to `list-panes`.
pub fn parse_pane_line(line: &[char]) -> (r: Option<PaneLine>)
    ensures
        match r {
            Some(l) => pane_line(line@) == Some(l@),
            None => pane_line(line@).is_none(),
        },
{
    let parts = text::split_chars(line, ',');
    proof {
        lemma_views_index(parts@);
    }
    let n = parts.len();
    if n < 11 {
        return None;
    }
    let id = text::trim_chars(parts[0].as_slice());
    if !(id.len() > 0 && id[0] == '%') {
        assert(!text::starts_with(id@, seq!['%'])) by {
            if text::starts_with(id@, seq!['%']) {
                assert(id@.subrange(0, 1)[0] == '%');
            }
        }
        return None;
    }
    assert(text::starts_with(id@, seq!['%'])) by {
        assert(id@.subrange(0, 1) =~= seq!['%']);
    }
    let sep: Vec<char> = vec![','];
    assert(sep@ =~= seq![',']);
    let (border_title, alternate_on, mouse_any_flag, group_id, group_tab_index) = if n >= 19 {
        (
            text::join_range(&parts, 15, n - 4, sep.as_slice()),
            is_one(&parts[n - 4]),
            is_one(&parts[n - 3]),
            owned_non_empty(&parts[n - 2]),
            text::parse_u32(parts[n - 1].as_slice()),
        )
    } else if n >= 17 {
        (
            text::join_range(&parts, 15, n - 2, sep.as_slice()),
            is_one(&parts[n - 2]),
            is_one(&parts[n - 1]),
            None,
            None,
        )
    } else if n == 16 {
        (text::sub_vec(parts[15].as_slice(), 0, parts[15].len()), false, false, None, None)
    } else {
        (Vec::new(), false, false, None, None)
    };
    proof {
        if n == 16 {
            assert(border_title@ =~= parts@[15]@);
        }
    }
    Some(
        PaneLine {
            id: owned(&id),
            index: read_number_or(&parts[1], 0),
            x: read_number_or(&parts[2], 0),
            y: read_number_or(&parts[3], 0),
            width: read_number_or(&parts[4], 80),
            height: read_number_or(&parts[5], 24),
            cursor_x: read_number_or(&parts[6], 0),
            cursor_y: read_number_or(&parts[7], 0),
            active: is_one(&parts[8]),
            command: owned(&parts[9]),
            title: owned(&parts[10]),
            in_mode: n > 11 && is_one(&parts[11]),
            copy_cursor_x: if n > 12 {
                read_number_or(&parts[12], 0)
            } else {
                0
            },
            copy_cursor_y: if n > 13 {
                read_number_or(&parts[13], 0)
            } else {
                0
            },
            window_id: if n > 14 {
                owned(&parts[14])
            } else {
                String::new()
            },
            border_title: owned(&border_title),
            alternate_on,
            mouse_any_flag,
            group_id,
            group_tab_index,
        },
    )
}

/// Reads one line of the answer to `list-windows`.
pub fn parse_window_line(line: &[char]) -> (r: Option<WindowLine>)
    ensures
        match r {
            Some(l) => window_line(line@) == Some(l@),
            None => window_line(line@).is_none(),
        },
{
    let parts = text::split_chars(line, ',');
    proof {
        lemma_views_index(parts@);
    }
    let n = parts.len();
    if n < 4 {
        return None;
    }
    let id = text::trim_chars(parts[0].as_slice());
    if !(id.len() > 0 && id[0] == '@') {
        assert(!text::starts_with(id@, seq!['@'])) by {
            if text::starts_with(id@, seq!['@']) {
                assert(id@.subrange(0, 1)[0] == '@');
            }
        }
        return None;
    }
    assert(text::starts_with(id@, seq!['@'])) by {
        assert(id@.subrange(0, 1) =~= seq!['@']);
    }
    Some(
        WindowLine {
            id: owned(&id),
            index: read_number_or(&parts[1], 0),
            name: owned(&parts[2]),
            active: is_one(&parts[3]),
            float_parent: if n > 4 {
                owned_non_empty(&parts[4])
            } else {
                None
            },
            float_width: if n > 5 {
                text::parse_u32(parts[5].as_slice())
            } else {
                None
            },
            float_height: if n > 6 {
                text::parse_u32(parts[6].as_slice())
            } else {
                None
            },
        },
    )
}

} // verus!
