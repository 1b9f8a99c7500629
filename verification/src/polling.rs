//! The state of a session put together from what tmux lists, for callers
//! that ask tmux at intervals in place of following control mode.

use crate::cells::{content_text, content_to_hash_string};
use crate::executor::{pane_info_views, window_info_views};
use crate::executor::{PaneInfo, PaneInfoView, WindowInfo, WindowInfoView};
use crate::model::{float_window_name, pane_group_info, pane_views, window_views};
use crate::model::{is_float_window_name, parse_pane_group_window_name};
use crate::model::{TmuxPane, TmuxPaneView, TmuxState, TmuxStateView, TmuxWindow, TmuxWindowView};
use crate::snapshot::{first_active, max_bottom, max_right};
use crate::terminal::{pane_cells, parse_ansi_to_cells, with_carriage_returns};
use crate::text;
use vstd::prelude::*;
use vstd::string::StringExecFns;
use vstd::utf8::encode_utf8;

verus! {

/// The pane that tmux lists as `info` and that shows `content`.
pub open spec fn polled_pane(info: PaneInfoView, content: Seq<char>) -> TmuxPaneView {
    TmuxPaneView {
        id: info.index,
        tmux_id: info.id,
        window_id: info.window_id,
        content: pane_cells(
            info.width,
            info.height,
            with_carriage_returns(encode_utf8(content)),
            None,
        ),
        cursor_x: info.cursor_x,
        cursor_y: info.cursor_y,
        width: info.width,
        height: info.height,
        x: info.x,
        y: info.y,
        active: info.active,
        command: info.command,
        title: info.title,
        border_title: info.border_title,
        in_mode: info.in_mode,
        copy_cursor_x: info.copy_cursor_x,
        copy_cursor_y: info.copy_cursor_y,
        alternate_on: false,
        mouse_any_flag: false,
        paused: false,
        group_id: info.group_id,
        group_tab_index: info.group_tab_index,
    }
}

/// The window that tmux lists as `info`.
pub open spec fn polled_window(info: WindowInfoView) -> TmuxWindowView {
    TmuxWindowView {
        id: info.id,
        index: info.index,
        name: info.name,
        active: info.active,
        is_pane_group_window: pane_group_info(info.name).is_some(),
        pane_group_parent_pane: match pane_group_info(info.name) {
            Some(g) => Some(g.0),
            None => None,
        },
        pane_group_index: match pane_group_info(info.name) {
            Some(g) => Some(g.1),
            None => None,
        },
        is_float_window: float_window_name(info.name),
        float_parent: None,
        float_width: None,
        float_height: None,
    }
}

/// The identifier of the first active window from index `k` on.
pub open spec fn first_active_window(windows: Seq<WindowInfoView>, k: int) -> Option<Seq<char>>
    decreases windows.len() - k,
{
    if k < 0 || k >= windows.len() {
        None
    } else if windows[k].active {
        Some(windows[k].id)
    } else {
        first_active_window(windows, k + 1)
    }
}

/// The state of the session `session` whose panes tmux lists as `panes`,
/// showing `contents` in the same order, and whose windows it lists as
/// `windows`. The total size is the extent of the panes.
pub open spec fn polled_state(
    session: Seq<char>,
    panes: Seq<PaneInfoView>,
    contents: Seq<Seq<char>>,
    windows: Seq<WindowInfoView>,
    status_line: Seq<char>,
) -> TmuxStateView {
    let shown = Seq::new(panes.len(), |i: int| polled_pane(panes[i], contents[i]));
    TmuxStateView {
        session_name: session,
        active_window_id: first_active_window(windows, 0),
        active_pane_id: first_active(shown, None, 0),
        panes: shown,
        windows: Seq::new(windows.len(), |i: int| polled_window(windows[i])),
        total_width: max_right(shown, 0),
        total_height: max_bottom(shown, 0),
        status_line,
        popup: None,
    }
}

fn capped_add(a: u32, b: u32) -> (r: u32)
    ensures
        r == crate::snapshot::capped_sum(a, b),
{
    if a > u32::MAX - b {
        u32::MAX
    } else {
        a + b
    }
}

/// Puts the state of the session `session_name` together. `contents` holds
/// what each of `pane_infos` shows, in the same order; the state cannot be
/// put together where their numbers differ.
pub fn capture_state_for_session(
    session_name: &str,
    pane_infos: Vec<PaneInfo>,
    contents: &Vec<String>,
    window_infos: Vec<WindowInfo>,
    status_line: String,
) -> (r: Result<TmuxState, String>)
    ensures
        r.is_ok() == (contents@.len() == pane_infos@.len()),
        match r {
            Ok(state) => state@ == polled_state(
                session_name@,
                pane_info_views(pane_infos@),
                text::str_views(contents@),
                window_info_views(window_infos@),
                status_line@,
            ),
            Err(e) => e@ == "Missing pane content"@,
        },
{
    if contents.len() != pane_infos.len() {
        return Err(text::string_of_str("Missing pane content"));
    }
    let ghost infos = pane_info_views(pane_infos@);
    let ghost texts = text::str_views(contents@);
    let ghost shown = Seq::new(infos.len(), |i: int| polled_pane(infos[i], texts[i]));
    let mut panes: Vec<TmuxPane> = Vec::new();
    let mut k: usize = 0;
    while k < pane_infos.len()
        invariant
            k <= pane_infos@.len() == contents@.len(),
            infos == pane_info_views(pane_infos@),
            texts == text::str_views(contents@),
            panes@.len() == k,
            forall|j: int| 0 <= j < k ==> (#[trigger] panes@[j])@ == polled_pane(infos[j], texts[j]),
        decreases pane_infos@.len() - k,
    {
        let info = &pane_infos[k];
        assert(infos[k as int] == info@);
        assert(texts[k as int] == contents@[k as int]@);
        panes.push(
            TmuxPane {
                id: info.index,
                tmux_id: info.id.clone(),
                window_id: info.window_id.clone(),
                content: parse_ansi_to_cells(contents[k].as_str(), info.width, info.height),
                cursor_x: info.cursor_x,
                cursor_y: info.cursor_y,
                width: info.width,
                height: info.height,
                x: info.x,
                y: info.y,
                active: info.active,
                command: info.command.clone(),
                title: info.title.clone(),
                border_title: info.border_title.clone(),
                in_mode: info.in_mode,
                copy_cursor_x: info.copy_cursor_x,
                copy_cursor_y: info.copy_cursor_y,
                alternate_on: false,
                mouse_any_flag: false,
                paused: false,
                group_id: crate::cells::clone_opt_string(&info.group_id),
                group_tab_index: info.group_tab_index,
            },
        );
        k += 1;
    }
    assert(pane_views(panes@) =~= shown);
    let ghost listed = window_info_views(window_infos@);
    let mut windows: Vec<TmuxWindow> = Vec::new();
    let mut found: Option<String> = None;
    let mut j: usize = 0;
    while j < window_infos.len()
        invariant
            j <= window_infos@.len(),
            listed == window_info_views(window_infos@),
            windows@.len() == j,
            forall|i: int| 0 <= i < j ==> (#[trigger] windows@[i])@ == polled_window(listed[i]),
            match found {
                Some(id) => first_active_window(listed, 0) == Some(id@),
                None => first_active_window(listed, 0) == first_active_window(listed, j as int),
            },
        decreases window_infos@.len() - j,
    {
        let info = &window_infos[j];
        assert(listed[j as int] == info@);
        if found.is_none() && info.active {
            found = Some(info.id.clone());
        }
        let group = parse_pane_group_window_name(info.name.as_str());
        let is_group = group.is_some();
        let (parent, index) = match group {
            Some(g) => (Some(g.parent_pane_id), Some(g.pane_group_index)),
            None => (None, None),
        };
        windows.push(
            TmuxWindow {
                id: info.id.clone(),
                index: info.index,
                name: info.name.clone(),
                active: info.active,
                is_pane_group_window: is_group,
                pane_group_parent_pane: parent,
                pane_group_index: index,
                is_float_window: is_float_window_name(info.name.as_str()),
                float_parent: None,
                float_width: None,
                float_height: None,
            },
        );
        j += 1;
    }
    assert(window_views(windows@) =~= Seq::new(listed.len(), |i: int| polled_window(listed[i])));
    let mut right: u32 = 0;
    let mut bottom: u32 = 0;
    let mut active_pane_id: Option<String> = None;
    let mut p: usize = panes.len();
    while p > 0
        invariant
            p <= panes@.len(),
            shown == pane_views(panes@),
            right == max_right(shown, p as int),
            bottom == max_bottom(shown, p as int),
            text::opt_view(active_pane_id) == first_active(shown, None, p as int),
        decreases p,
    {
        p -= 1;
        assert(shown[p as int] == panes@[p as int]@);
        let r = capped_add(panes[p].x, panes[p].width);
        let b = capped_add(panes[p].y, panes[p].height);
        if r >= right {
            right = r;
        }
        if b >= bottom {
            bottom = b;
        }
        if panes[p].active {
            active_pane_id = Some(panes[p].tmux_id.clone());
        }
    }
    Ok(
        TmuxState {
            session_name: text::string_of_str(session_name),
            active_window_id: found,
            active_pane_id,
            panes,
            windows,
            total_width: right,
            total_height: bottom,
            status_line,
            popup: None,
        },
    )
}

/// [`capture_state_for_session`] for the session with the default name.
pub fn capture_state(
    pane_infos: Vec<PaneInfo>,
    contents: &Vec<String>,
    window_infos: Vec<WindowInfo>,
    status_line: String,
) -> (r: Result<TmuxState, String>)
    ensures
        r.is_ok() == (contents@.len() == pane_infos@.len()),
        match r {
            Ok(state) => state@ == polled_state(
                crate::DEFAULT_SESSION_NAME@,
                pane_info_views(pane_infos@),
                text::str_views(contents@),
                window_info_views(window_infos@),
                status_line@,
            ),
            Err(e) => e@ == "Missing pane content"@,
        },
{
    capture_state_for_session(
        crate::DEFAULT_SESSION_NAME,
        pane_infos,
        contents,
        window_infos,
        status_line,
    )
}

/// [`capture_state_for_session`] under its older name.
pub fn capture_window_state_for_session(
    session_name: &str,
    pane_infos: Vec<PaneInfo>,
    contents: &Vec<String>,
    window_infos: Vec<WindowInfo>,
    status_line: String,
) -> (r: Result<TmuxState, String>)
    ensures
        r.is_ok() == (contents@.len() == pane_infos@.len()),
        match r {
            Ok(state) => state@ == polled_state(
                session_name@,
                pane_info_views(pane_infos@),
                text::str_views(contents@),
                window_info_views(window_infos@),
                status_line@,
            ),
            Err(e) => e@ == "Missing pane content"@,
        },
{
    capture_state_for_session(session_name, pane_infos, contents, window_infos, status_line)
}

/// [`capture_state`] under its older name.
pub fn capture_window_state(
    pane_infos: Vec<PaneInfo>,
    contents: &Vec<String>,
    window_infos: Vec<WindowInfo>,
    status_line: String,
) -> (r: Result<TmuxState, String>)
    ensures
        r.is_ok() == (contents@.len() == pane_infos@.len()),
        match r {
            Ok(state) => state@ == polled_state(
                crate::DEFAULT_SESSION_NAME@,
                pane_info_views(pane_infos@),
                text::str_views(contents@),
                window_info_views(window_infos@),
                status_line@,
            ),
            Err(e) => e@ == "Missing pane content"@,
        },
{
    capture_state(pane_infos, contents, window_infos, status_line)
}

/// `true` or `false` in words.
pub open spec fn flag_text(b: bool) -> Seq<char> {
    if b {
        "true"@
    } else {
        "false"@
    }
}

/// What tells one pane apart in a fingerprint: index, active flag and the
/// text that the pane shows, separated by colons.
pub open spec fn pane_mark(p: TmuxPaneView) -> Seq<char> {
    text::decimal(p.id as nat) + ":"@ + flag_text(p.active) + ":"@ + content_text(p.content)
}

/// What tells one window apart in a fingerprint: index, name and active
/// flag, separated by colons.
pub open spec fn window_mark(w: TmuxWindowView) -> Seq<char> {
    text::decimal(w.index as nat) + ":"@ + w.name + ":"@ + flag_text(w.active)
}

/// A text that differs where two states differ in what a client shows: the
/// marks of the panes, joined by `|`; then `||`; then the marks of the
/// windows, joined by `|`.
pub open spec fn fingerprint(state: TmuxStateView) -> Seq<char> {
    text::join(Seq::new(state.panes.len(), |i: int| pane_mark(state.panes[i])), "|"@) + "||"@
        + text::join(Seq::new(state.windows.len(), |i: int| window_mark(state.windows[i])), "|"@)
}

fn flag_str(b: bool) -> (s: &'static str)
    ensures
        s@ == flag_text(b),
{
    if b {
        "true"
    } else {
        "false"
    }
}

/// The fingerprint of a state, by which a caller that asks tmux at
/// intervals tells whether there is anything new to send.
pub fn state_fingerprint(state: &TmuxState) -> (f: String)
    ensures
        f@ == fingerprint(state@),
{
    let ghost pane_marks = Seq::new(state@.panes.len(), |i: int| pane_mark(state@.panes[i]));
    let ghost window_marks = Seq::new(
        state@.windows.len(),
        |i: int| window_mark(state@.windows[i]),
    );
    let mut f = String::new();
    let mut k: usize = 0;
    assert(pane_marks.subrange(0, 0) =~= Seq::empty());
    while k < state.panes.len()
        invariant
            k <= state.panes@.len(),
            pane_marks == Seq::new(state@.panes.len(), |i: int| pane_mark(state@.panes[i])),
            f@ == text::join(pane_marks.subrange(0, k as int), "|"@),
        decreases state.panes@.len() - k,
    {
        let p = &state.panes[k];
        assert(state@.panes[k as int] == p@);
        let ghost before = f@;
        if k > 0 {
            f.append("|");
        }
        f.append(text::decimal_string(p.id as u64).as_str());
        f.append(":");
        f.append(flag_str(p.active));
        f.append(":");
        f.append(content_to_hash_string(&p.content).as_str());
        proof {
            let next = pane_marks.subrange(0, k + 1);
            assert(next.drop_last() =~= pane_marks.subrange(0, k as int));
            assert(next.last() == pane_mark(p@));
            if k == 0 {
                assert(f@ =~= pane_mark(p@));
            } else {
                assert(f@ =~= before + "|"@ + pane_mark(p@));
            }
        }
        k += 1;
    }
    assert(pane_marks.subrange(0, state.panes@.len() as int) =~= pane_marks);
    f.append("||");
    let ghost head = f@;
    let mut j: usize = 0;
    assert(window_marks.subrange(0, 0) =~= Seq::empty());
    assert(head + Seq::<char>::empty() =~= head);
    while j < state.windows.len()
        invariant
            j <= state.windows@.len(),
            window_marks == Seq::new(state@.windows.len(), |i: int| window_mark(state@.windows[i])),
            f@ == head + text::join(window_marks.subrange(0, j as int), "|"@),
        decreases state.windows@.len() - j,
    {
        let w = &state.windows[j];
        assert(state@.windows[j as int] == w@);
        let ghost before = f@;
        if j > 0 {
            f.append("|");
        }
        f.append(text::decimal_string(w.index as u64).as_str());
        f.append(":");
        f.append(w.name.as_str());
        f.append(":");
        f.append(flag_str(w.active));
        proof {
            let next = window_marks.subrange(0, j + 1);
            assert(next.drop_last() =~= window_marks.subrange(0, j as int));
            assert(next.last() == window_mark(w@));
            if j == 0 {
                assert(f@ =~= head + window_mark(w@));
            } else {
                assert(f@ =~= before + "|"@ + window_mark(w@));
                assert(f@ =~= head + (text::join(window_marks.subrange(0, j as int), "|"@) + "|"@
                    + window_mark(w@)));
            }
        }
        j += 1;
    }
    assert(window_marks.subrange(0, state.windows@.len() as int) =~= window_marks);
    f
}

} // verus!
