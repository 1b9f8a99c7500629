//! Snapshots of the model of a session, and the updates sent to clients.

use crate::cells::{clone_content, clone_opt_string, content_eq, opt_string_eq};
use crate::model::{float_window_name, pane_group_info, pane_views, window_views};
use crate::model::{pane_change_views, window_change_views};
use crate::model::{PaneDelta, PaneDeltaView, StateUpdate, StateUpdateView, TmuxDelta, TmuxDeltaView};
use crate::model::{TmuxPane, TmuxPaneView, TmuxPopup, TmuxPopupView, TmuxState, TmuxStateView};
use crate::model::{TmuxWindow, TmuxWindowView, WindowDelta, WindowDeltaView};
use crate::model::{is_float_window_name, parse_pane_group_window_name};
use crate::pane::{pane_snapshot, popup_snapshot, window_snapshot, PaneView, WindowView};
use crate::state::{AggView, StateAggregator};
use crate::text;
use vstd::prelude::*;

verus! {

/// The new value where it differs from the old one.
pub open spec fn changed_to<T>(prev: T, curr: T) -> Option<T> {
    if prev != curr {
        Some(curr)
    } else {
        None
    }
}

fn opt_u32_eq(a: Option<u32>, b: Option<u32>) -> (r: bool)
    ensures
        r == (a == b),
{
    match (a, b) {
        (Some(x), Some(y)) => x == y,
        (None, None) => true,
        _ => false,
    }
}

/// What changed from the pane `prev` to the pane `curr`.
pub open spec fn pane_delta(prev: TmuxPaneView, curr: TmuxPaneView) -> PaneDeltaView {
    PaneDeltaView {
        window_id: changed_to(prev.window_id, curr.window_id),
        content: changed_to(prev.content, curr.content),
        cursor_x: changed_to(prev.cursor_x, curr.cursor_x),
        cursor_y: changed_to(prev.cursor_y, curr.cursor_y),
        width: changed_to(prev.width, curr.width),
        height: changed_to(prev.height, curr.height),
        x: changed_to(prev.x, curr.x),
        y: changed_to(prev.y, curr.y),
        active: changed_to(prev.active, curr.active),
        command: changed_to(prev.command, curr.command),
        title: changed_to(prev.title, curr.title),
        border_title: changed_to(prev.border_title, curr.border_title),
        in_mode: changed_to(prev.in_mode, curr.in_mode),
        copy_cursor_x: changed_to(prev.copy_cursor_x, curr.copy_cursor_x),
        copy_cursor_y: changed_to(prev.copy_cursor_y, curr.copy_cursor_y),
        alternate_on: changed_to(prev.alternate_on, curr.alternate_on),
        mouse_any_flag: changed_to(prev.mouse_any_flag, curr.mouse_any_flag),
        paused: changed_to(prev.paused, curr.paused),
        group_id: changed_to(prev.group_id, curr.group_id),
        group_tab_index: changed_to(prev.group_tab_index, curr.group_tab_index),
    }
}

/// What changed from the window `prev` to the window `curr`.
pub open spec fn window_delta(prev: TmuxWindowView, curr: TmuxWindowView) -> WindowDeltaView {
    WindowDeltaView {
        name: changed_to(prev.name, curr.name),
        active: changed_to(prev.active, curr.active),
        is_pane_group_window: changed_to(prev.is_pane_group_window, curr.is_pane_group_window),
        pane_group_parent_pane: changed_to(prev.pane_group_parent_pane, curr.pane_group_parent_pane),
        pane_group_index: changed_to(prev.pane_group_index, curr.pane_group_index),
        is_float_window: changed_to(prev.is_float_window, curr.is_float_window),
        float_parent: changed_to(prev.float_parent, curr.float_parent),
        float_width: changed_to(prev.float_width, curr.float_width),
        float_height: changed_to(prev.float_height, curr.float_height),
    }
}

/// Compares two snapshots of one pane.
pub fn compute_pane_delta(prev: &TmuxPane, curr: &TmuxPane) -> (delta: PaneDelta)
    ensures
        delta@ == pane_delta(prev@, curr@),
{
    PaneDelta {
        window_id: if !text::str_eq(prev.window_id.as_str(), curr.window_id.as_str()) {
            Some(curr.window_id.clone())
        } else {
            None
        },
        content: if !content_eq(&prev.content, &curr.content) {
            Some(clone_content(&curr.content))
        } else {
            None
        },
        cursor_x: if prev.cursor_x != curr.cursor_x {
            Some(curr.cursor_x)
        } else {
            None
        },
        cursor_y: if prev.cursor_y != curr.cursor_y {
            Some(curr.cursor_y)
        } else {
            None
        },
        width: if prev.width != curr.width {
            Some(curr.width)
        } else {
            None
        },
        height: if prev.height != curr.height {
            Some(curr.height)
        } else {
            None
        },
        x: if prev.x != curr.x {
            Some(curr.x)
        } else {
            None
        },
        y: if prev.y != curr.y {
            Some(curr.y)
        } else {
            None
        },
        active: if prev.active != curr.active {
            Some(curr.active)
        } else {
            None
        },
        command: if !text::str_eq(prev.command.as_str(), curr.command.as_str()) {
            Some(curr.command.clone())
        } else {
            None
        },
        title: if !text::str_eq(prev.title.as_str(), curr.title.as_str()) {
            Some(curr.title.clone())
        } else {
            None
        },
        border_title: if !text::str_eq(prev.border_title.as_str(), curr.border_title.as_str()) {
            Some(curr.border_title.clone())
        } else {
            None
        },
        in_mode: if prev.in_mode != curr.in_mode {
            Some(curr.in_mode)
        } else {
            None
        },
        copy_cursor_x: if prev.copy_cursor_x != curr.copy_cursor_x {
            Some(curr.copy_cursor_x)
        } else {
            None
        },
        copy_cursor_y: if prev.copy_cursor_y != curr.copy_cursor_y {
            Some(curr.copy_cursor_y)
        } else {
            None
        },
        alternate_on: if prev.alternate_on != curr.alternate_on {
            Some(curr.alternate_on)
        } else {
            None
        },
        mouse_any_flag: if prev.mouse_any_flag != curr.mouse_any_flag {
            Some(curr.mouse_any_flag)
        } else {
            None
        },
        paused: if prev.paused != curr.paused {
            Some(curr.paused)
        } else {
            None
        },
        group_id: if !opt_string_eq(&prev.group_id, &curr.group_id) {
            Some(clone_opt_string(&curr.group_id))
        } else {
            None
        },
        group_tab_index: if !opt_u32_eq(prev.group_tab_index, curr.group_tab_index) {
            Some(curr.group_tab_index)
        } else {
            None
        },
    }
}

/// Compares two snapshots of one window.
pub fn compute_window_delta(prev: &TmuxWindow, curr: &TmuxWindow) -> (delta: WindowDelta)
    ensures
        delta@ == window_delta(prev@, curr@),
{
    WindowDelta {
        name: if !text::str_eq(prev.name.as_str(), curr.name.as_str()) {
            Some(curr.name.clone())
        } else {
            None
        },
        active: if prev.active != curr.active {
            Some(curr.active)
        } else {
            None
        },
        is_pane_group_window: if prev.is_pane_group_window != curr.is_pane_group_window {
            Some(curr.is_pane_group_window)
        } else {
            None
        },
        pane_group_parent_pane: if !opt_string_eq(&prev.pane_group_parent_pane, &curr.pane_group_parent_pane) {
            Some(clone_opt_string(&curr.pane_group_parent_pane))
        } else {
            None
        },
        pane_group_index: if !opt_u32_eq(prev.pane_group_index, curr.pane_group_index) {
            Some(curr.pane_group_index)
        } else {
            None
        },
        is_float_window: if prev.is_float_window != curr.is_float_window {
            Some(curr.is_float_window)
        } else {
            None
        },
        float_parent: if !opt_string_eq(&prev.float_parent, &curr.float_parent) {
            Some(clone_opt_string(&curr.float_parent))
        } else {
            None
        },
        float_width: if !opt_u32_eq(prev.float_width, curr.float_width) {
            Some(curr.float_width)
        } else {
            None
        },
        float_height: if !opt_u32_eq(prev.float_height, curr.float_height) {
            Some(curr.float_height)
        } else {
            None
        },
    }
}

/// Whether the window is one of the hidden windows whose panes clients see
/// wherever they are: it holds a group of panes or a floating pane.
pub open spec fn is_hidden_window(w: WindowView) -> bool {
    pane_group_info(w.name).is_some() || float_window_name(w.name)
}

/// The identifiers of the hidden windows from index `k` on.
pub open spec fn hidden_ids(windows: Seq<WindowView>, k: int) -> Seq<Seq<char>>
    decreases windows.len() - k,
{
    if k < 0 || k >= windows.len() {
        Seq::empty()
    } else if is_hidden_window(windows[k]) {
        seq![windows[k].id] + hidden_ids(windows, k + 1)
    } else {
        hidden_ids(windows, k + 1)
    }
}

/// Whether clients see the pane: it belongs to a window, and that window is
/// the active one or a hidden one.
pub open spec fn is_shown(st: AggView, p: PaneView) -> bool {
    p.window_id.len() > 0 && (st.active_window_id == Some(p.window_id) || hidden_ids(
        st.windows,
        0,
    ).contains(p.window_id))
}

/// The panes from index `k` on that clients see, as clients see them.
pub open spec fn shown_panes(st: AggView, k: int) -> Seq<TmuxPaneView>
    decreases st.panes.len() - k,
{
    if k < 0 || k >= st.panes.len() {
        Seq::empty()
    } else if is_shown(st, st.panes[k]) {
        seq![pane_snapshot(st.panes[k])] + shown_panes(st, k + 1)
    } else {
        shown_panes(st, k + 1)
    }
}

/// The windows as clients see them.
pub open spec fn window_snapshots(windows: Seq<WindowView>) -> Seq<TmuxWindowView> {
    Seq::new(windows.len(), |i: int| window_snapshot(windows[i]))
}

/// `a + b`, or the largest 32-bit number where the sum is larger.
pub open spec fn capped_sum(a: u32, b: u32) -> u32 {
    if a + b > u32::MAX {
        u32::MAX
    } else {
        (a + b) as u32
    }
}

/// The largest right edge of the panes from index `k` on, 0 for none.
pub open spec fn max_right(panes: Seq<TmuxPaneView>, k: int) -> u32
    decreases panes.len() - k,
{
    if k < 0 || k >= panes.len() {
        0
    } else if capped_sum(panes[k].x, panes[k].width) >= max_right(panes, k + 1) {
        capped_sum(panes[k].x, panes[k].width)
    } else {
        max_right(panes, k + 1)
    }
}

/// The largest bottom edge of the panes from index `k` on, 0 for none.
pub open spec fn max_bottom(panes: Seq<TmuxPaneView>, k: int) -> u32
    decreases panes.len() - k,
{
    if k < 0 || k >= panes.len() {
        0
    } else if capped_sum(panes[k].y, panes[k].height) >= max_bottom(panes, k + 1) {
        capped_sum(panes[k].y, panes[k].height)
    } else {
        max_bottom(panes, k + 1)
    }
}

/// The first active pane from index `k` on; where `window` is given, the
/// first one that belongs to that window.
pub open spec fn first_active(panes: Seq<TmuxPaneView>, window: Option<Seq<char>>, k: int) -> Option<
    Seq<char>,
>
    decreases panes.len() - k,
{
    if k < 0 || k >= panes.len() {
        None
    } else if panes[k].active && (window.is_none() || window == Some(panes[k].window_id)) {
        Some(panes[k].tmux_id)
    } else {
        first_active(panes, window, k + 1)
    }
}

/// The active pane among `panes`: the active pane of the active window, or
/// else the first active pane.
pub open spec fn active_pane(panes: Seq<TmuxPaneView>, window: Option<Seq<char>>) -> Option<
    Seq<char>,
> {
    if window.is_some() && first_active(panes, window, 0).is_some() {
        first_active(panes, window, 0)
    } else {
        first_active(panes, None, 0)
    }
}

/// The session as clients see it. The total size is the extent of the
/// panes, 80 by 24 where there is none; the status line is the one fetched
/// last.
pub open spec fn tmux_state(st: AggView) -> TmuxStateView {
    let panes = shown_panes(st, 0);
    TmuxStateView {
        session_name: st.session_name,
        active_window_id: st.active_window_id,
        active_pane_id: active_pane(panes, st.active_window_id),
        panes,
        windows: window_snapshots(st.windows),
        total_width: if panes.len() == 0 {
            80
        } else {
            max_right(panes, 0)
        },
        total_height: if panes.len() == 0 {
            24
        } else {
            max_bottom(panes, 0)
        },
        status_line: st.status_line,
        popup: match st.popup {
            Some(p) => Some(popup_snapshot(p)),
            None => None,
        },
    }
}

fn capped_add(a: u32, b: u32) -> (r: u32)
    ensures
        r == capped_sum(a, b),
{
    if a > u32::MAX - b {
        u32::MAX
    } else {
        a + b
    }
}

fn total_extent(panes: &Vec<TmuxPane>) -> (r: (u32, u32))
    ensures
        r.0 == max_right(pane_views(panes@), 0),
        r.1 == max_bottom(pane_views(panes@), 0),
{
    let ghost all = pane_views(panes@);
    let mut right: u32 = 0;
    let mut bottom: u32 = 0;
    let mut k: usize = panes.len();
    while k > 0
        invariant
            k <= panes@.len(),
            all == pane_views(panes@),
            right == max_right(all, k as int),
            bottom == max_bottom(all, k as int),
        decreases k,
    {
        k -= 1;
        assert(all[k as int] == panes@[k as int]@);
        let r = capped_add(panes[k].x, panes[k].width);
        let b = capped_add(panes[k].y, panes[k].height);
        if r >= right {
            right = r;
        }
        if b >= bottom {
            bottom = b;
        }
    }
    (right, bottom)
}

fn find_active(panes: &Vec<TmuxPane>, window: &Option<String>) -> (r: Option<String>)
    ensures
        text::opt_view(r) == first_active(pane_views(panes@), text::opt_view(*window), 0),
{
    let ghost all = pane_views(panes@);
    let mut k: usize = 0;
    while k < panes.len()
        invariant
            k <= panes@.len(),
            all == pane_views(panes@),
            first_active(all, text::opt_view(*window), 0) == first_active(
                all,
                text::opt_view(*window),
                k as int,
            ),
        decreases panes@.len() - k,
    {
        assert(all[k as int] == panes@[k as int]@);
        let in_window = match window {
            Some(w) => text::str_eq(w.as_str(), panes[k].window_id.as_str()),
            None => true,
        };
        if panes[k].active && in_window {
            return Some(panes[k].tmux_id.clone());
        }
        k += 1;
    }
    None
}

fn contains_id(list: &Vec<String>, id: &str) -> (r: bool)
    ensures
        r == text::str_views(list@).contains(id@),
{
    let mut k: usize = 0;
    while k < list.len()
        invariant
            k <= list@.len(),
            forall|j: int| 0 <= j < k ==> text::str_views(list@)[j] != id@,
        decreases list@.len() - k,
    {
        if text::str_eq(list[k].as_str(), id) {
            assert(text::str_views(list@)[k as int] == id@);
            return true;
        }
        k += 1;
    }
    false
}

impl StateAggregator {
    fn hidden_window_ids(&self) -> (ids: Vec<String>)
        ensures
            text::str_views(ids@) == hidden_ids(self@.windows, 0),
    {
        let mut ids: Vec<String> = Vec::new();
        let mut k: usize = 0;
        while k < self.windows.len()
            invariant
                k <= self.windows@.len(),
                hidden_ids(self@.windows, 0) == text::str_views(ids@) + hidden_ids(
                    self@.windows,
                    k as int,
                ),
            decreases self.windows@.len() - k,
        {
            let w = &self.windows[k];
            assert(self@.windows[k as int] == w@);
            if parse_pane_group_window_name(w.name.as_str()).is_some() || is_float_window_name(
                w.name.as_str(),
            ) {
                let ghost before = text::str_views(ids@);
                ids.push(w.id.clone());
                assert(text::str_views(ids@) =~= before.push(w.id@));
                assert(hidden_ids(self@.windows, 0) =~= text::str_views(ids@) + hidden_ids(
                    self@.windows,
                    k + 1,
                ));
            }
            k += 1;
        }
        assert(hidden_ids(self@.windows, 0) =~= text::str_views(ids@));
        ids
    }

    /// The session as clients see it.
    pub fn to_tmux_state(&self) -> (s: TmuxState)
        requires
            self.wf(),
        ensures
            s@ == tmux_state(self@),
    {
        let hidden = self.hidden_window_ids();
        let mut panes: Vec<TmuxPane> = Vec::new();
        let mut k: usize = 0;
        assert(pane_views(panes@) =~= Seq::empty());
        while k < self.panes.len()
            invariant
                k <= self.panes@.len(),
                self.wf(),
                text::str_views(hidden@) == hidden_ids(self@.windows, 0),
                shown_panes(self@, 0) == pane_views(panes@) + shown_panes(self@, k as int),
            decreases self.panes@.len() - k,
        {
            let p = &self.panes[k];
            assert(self@.panes[k as int] == p@);
            let in_active = match &self.active_window_id {
                Some(w) => text::str_eq(w.as_str(), p.window_id.as_str()),
                None => false,
            };
            if !p.window_id.as_str().is_empty() && (in_active || contains_id(
                &hidden,
                p.window_id.as_str(),
            )) {
                let ghost before = pane_views(panes@);
                let snap = p.to_tmux_pane();
                panes.push(snap);
                assert(pane_views(panes@) =~= before.push(snap@));
                assert(shown_panes(self@, 0) =~= pane_views(panes@) + shown_panes(self@, k + 1));
            }
            k += 1;
        }
        assert(shown_panes(self@, 0) =~= pane_views(panes@));
        let mut windows: Vec<TmuxWindow> = Vec::new();
        let mut j: usize = 0;
        while j < self.windows.len()
            invariant
                j <= self.windows@.len(),
                windows@.len() == j,
                forall|i: int|
                    0 <= i < j ==> (#[trigger] windows@[i])@ == window_snapshot(self@.windows[i]),
            decreases self.windows@.len() - j,
        {
            assert(self@.windows[j as int] == self.windows@[j as int]@);
            windows.push(self.windows[j].to_tmux_window());
            j += 1;
        }
        assert(window_views(windows@) =~= window_snapshots(self@.windows));
        let (right, bottom) = total_extent(&panes);
        let total_width = if panes.len() == 0 {
            80
        } else {
            right
        };
        let total_height = if panes.len() == 0 {
            24
        } else {
            bottom
        };
        let in_window = match &self.active_window_id {
            Some(_) => find_active(&panes, &self.active_window_id),
            None => None,
        };
        let active_pane_id = match in_window {
            Some(id) => Some(id),
            None => find_active(&panes, &None),
        };
        TmuxState {
            session_name: self.session_name.clone(),
            active_window_id: clone_opt_string(&self.active_window_id),
            active_pane_id,
            panes,
            windows,
            total_width,
            total_height,
            status_line: self.cached_status_line.clone(),
            popup: match &self.popup {
                Some(p) => Some(p.to_tmux_popup()),
                None => None,
            },
        }
    }
}

/// Index of the first pane at or after `from` with the identifier `id`, or
/// the number of panes where there is none.
pub open spec fn snap_pane_position(panes: Seq<TmuxPaneView>, id: Seq<char>, from: int) -> int
    decreases panes.len() - from,
{
    if from < 0 || from >= panes.len() {
        panes.len() as int
    } else if panes[from].tmux_id == id {
        from
    } else {
        snap_pane_position(panes, id, from + 1)
    }
}

/// Index of the first window at or after `from` with the identifier `id`,
/// or the number of windows where there is none.
pub open spec fn snap_window_position(windows: Seq<TmuxWindowView>, id: Seq<char>, from: int) -> int
    decreases windows.len() - from,
{
    if from < 0 || from >= windows.len() {
        windows.len() as int
    } else if windows[from].id == id {
        from
    } else {
        snap_window_position(windows, id, from + 1)
    }
}

/// For the panes of `curr` from index `k` on that `prev` has too and that
/// differ from it: the identifier and what changed.
pub open spec fn panes_changed(prev: Seq<TmuxPaneView>, curr: Seq<TmuxPaneView>, k: int) -> Seq<
    (Seq<char>, Option<PaneDeltaView>),
>
    decreases curr.len() - k,
{
    if k < 0 || k >= curr.len() {
        Seq::empty()
    } else {
        let j = snap_pane_position(prev, curr[k].tmux_id, 0);
        if j < prev.len() && !pane_delta(prev[j], curr[k]).is_empty() {
            seq![(curr[k].tmux_id, Some(pane_delta(prev[j], curr[k])))] + panes_changed(
                prev,
                curr,
                k + 1,
            )
        } else {
            panes_changed(prev, curr, k + 1)
        }
    }
}

/// The panes of `curr` from index `k` on that `prev` has not.
pub open spec fn panes_added(prev: Seq<TmuxPaneView>, curr: Seq<TmuxPaneView>, k: int) -> Seq<
    TmuxPaneView,
>
    decreases curr.len() - k,
{
    if k < 0 || k >= curr.len() {
        Seq::empty()
    } else if snap_pane_position(prev, curr[k].tmux_id, 0) >= prev.len() {
        seq![curr[k]] + panes_added(prev, curr, k + 1)
    } else {
        panes_added(prev, curr, k + 1)
    }
}

/// For the panes of `prev` from index `k` on that `curr` has not: the
/// identifier, marked as gone.
pub open spec fn panes_gone(prev: Seq<TmuxPaneView>, curr: Seq<TmuxPaneView>, k: int) -> Seq<
    (Seq<char>, Option<PaneDeltaView>),
>
    decreases prev.len() - k,
{
    if k < 0 || k >= prev.len() {
        Seq::empty()
    } else if snap_pane_position(curr, prev[k].tmux_id, 0) >= curr.len() {
        seq![(prev[k].tmux_id, None)] + panes_gone(prev, curr, k + 1)
    } else {
        panes_gone(prev, curr, k + 1)
    }
}

/// For the windows of `curr` from index `k` on that `prev` has too and that
/// differ from it: the identifier and what changed.
pub open spec fn windows_changed(prev: Seq<TmuxWindowView>, curr: Seq<TmuxWindowView>, k: int) -> Seq<
    (Seq<char>, Option<WindowDeltaView>),
>
    decreases curr.len() - k,
{
    if k < 0 || k >= curr.len() {
        Seq::empty()
    } else {
        let j = snap_window_position(prev, curr[k].id, 0);
        if j < prev.len() && !window_delta(prev[j], curr[k]).is_empty() {
            seq![(curr[k].id, Some(window_delta(prev[j], curr[k])))] + windows_changed(
                prev,
                curr,
                k + 1,
            )
        } else {
            windows_changed(prev, curr, k + 1)
        }
    }
}

/// The windows of `curr` from index `k` on that `prev` has not.
pub open spec fn windows_added(prev: Seq<TmuxWindowView>, curr: Seq<TmuxWindowView>, k: int) -> Seq<
    TmuxWindowView,
>
    decreases curr.len() - k,
{
    if k < 0 || k >= curr.len() {
        Seq::empty()
    } else if snap_window_position(prev, curr[k].id, 0) >= prev.len() {
        seq![curr[k]] + windows_added(prev, curr, k + 1)
    } else {
        windows_added(prev, curr, k + 1)
    }
}

/// For the windows of `prev` from index `k` on that `curr` has not: the
/// identifier, marked as gone.
pub open spec fn windows_gone(prev: Seq<TmuxWindowView>, curr: Seq<TmuxWindowView>, k: int) -> Seq<
    (Seq<char>, Option<WindowDeltaView>),
>
    decreases prev.len() - k,
{
    if k < 0 || k >= prev.len() {
        Seq::empty()
    } else if snap_window_position(curr, prev[k].id, 0) >= curr.len() {
        seq![(prev[k].id, None)] + windows_gone(prev, curr, k + 1)
    } else {
        windows_gone(prev, curr, k + 1)
    }
}

/// The list `s`, unless it is empty.
pub open spec fn some_if_any<T>(s: Seq<T>) -> Option<Seq<T>> {
    if s.len() > 0 {
        Some(s)
    } else {
        None
    }
}

/// What changed in the popup: the new popup where one was opened or the
/// open one changed, `Some(None)` where it was closed.
pub open spec fn popup_change(prev: Option<TmuxPopupView>, curr: Option<TmuxPopupView>) -> Option<
    Option<TmuxPopupView>,
> {
    match (curr, prev) {
        (Some(c), None) => Some(Some(c)),
        (None, Some(_)) => Some(None),
        (Some(c), Some(p)) => if c != p {
            Some(Some(c))
        } else {
            None
        },
        (None, None) => None,
    }
}

/// The new value where it differs from the old one and is there.
pub open spec fn changed_to_some<T>(prev: Option<T>, curr: Option<T>) -> Option<T> {
    if prev != curr {
        curr
    } else {
        None
    }
}

/// What changed from the snapshot `prev` to the snapshot `curr`, under the
/// sequence number `seq`. Panes and windows that both snapshots have give
/// the fields that differ; new ones are given in full; those that are gone
/// are marked.
pub open spec fn delta_of(prev: TmuxStateView, curr: TmuxStateView, seq: u64) -> TmuxDeltaView {
    TmuxDeltaView {
        seq,
        panes: some_if_any(
            panes_changed(prev.panes, curr.panes, 0) + panes_gone(prev.panes, curr.panes, 0),
        ),
        windows: some_if_any(
            windows_changed(prev.windows, curr.windows, 0) + windows_gone(
                prev.windows,
                curr.windows,
                0,
            ),
        ),
        new_panes: some_if_any(panes_added(prev.panes, curr.panes, 0)),
        new_windows: some_if_any(windows_added(prev.windows, curr.windows, 0)),
        active_window_id: changed_to_some(prev.active_window_id, curr.active_window_id),
        active_pane_id: changed_to_some(prev.active_pane_id, curr.active_pane_id),
        status_line: changed_to(prev.status_line, curr.status_line),
        total_width: changed_to(prev.total_width, curr.total_width),
        total_height: changed_to(prev.total_height, curr.total_height),
        popup: popup_change(prev.popup, curr.popup),
    }
}

/// The number of entries of an optional list.
pub open spec fn count<T>(o: Option<Seq<T>>) -> nat {
    match o {
        Some(s) => s.len(),
        None => 0,
    }
}

/// Whether a delta touches more than half of the panes of the snapshot
/// `curr`, so that a full snapshot is sent in its place.
pub open spec fn touches_most(delta: TmuxDeltaView, curr: TmuxStateView) -> bool {
    curr.panes.len() > 0 && count(delta.panes) + count(delta.new_panes) > curr.panes.len() / 2
}

/// The model after an update was asked for, and the update to send. The
/// first update is a full snapshot with the sequence number 1. Later, where
/// nothing changed since the last update, nothing is sent and the sequence
/// number stays; else the sequence number grows by one and the delta is
/// sent, or a full snapshot where the delta touches more than half of the
/// panes.
pub open spec fn update_step(st: AggView) -> (AggView, Option<StateUpdateView>) {
    let curr = tmux_state(st);
    match st.prev {
        None => (
            AggView { prev: Some(curr), seq: 1, ..st },
            Some(StateUpdateView::Full { state: curr }),
        ),
        Some(prev) => {
            let delta = delta_of(prev, curr, (st.seq + 1) as u64);
            if delta.is_empty() {
                (st, None)
            } else {
                (
                    AggView { prev: Some(curr), seq: (st.seq + 1) as u64, ..st },
                    Some(
                        if touches_most(delta, curr) {
                            StateUpdateView::Full { state: curr }
                        } else {
                            StateUpdateView::Delta { delta }
                        },
                    ),
                )
            }
        },
    }
}

/// The view of an optional update.
pub open spec fn opt_update_view(o: Option<StateUpdate>) -> Option<StateUpdateView> {
    match o {
        Some(u) => Some(u@),
        None => None,
    }
}

fn find_snap_pane(panes: &Vec<TmuxPane>, id: &str) -> (i: usize)
    ensures
        i == snap_pane_position(pane_views(panes@), id@, 0),
        i <= panes@.len(),
{
    let ghost all = pane_views(panes@);
    let mut i: usize = 0;
    while i < panes.len()
        invariant
            i <= panes@.len(),
            all == pane_views(panes@),
            snap_pane_position(all, id@, 0) == snap_pane_position(all, id@, i as int),
        decreases panes@.len() - i,
    {
        assert(all[i as int] == panes@[i as int]@);
        if text::str_eq(panes[i].tmux_id.as_str(), id) {
            return i;
        }
        i += 1;
    }
    i
}

fn find_snap_window(windows: &Vec<TmuxWindow>, id: &str) -> (i: usize)
    ensures
        i == snap_window_position(window_views(windows@), id@, 0),
        i <= windows@.len(),
{
    let ghost all = window_views(windows@);
    let mut i: usize = 0;
    while i < windows.len()
        invariant
            i <= windows@.len(),
            all == window_views(windows@),
            snap_window_position(all, id@, 0) == snap_window_position(all, id@, i as int),
        decreases windows@.len() - i,
    {
        assert(all[i as int] == windows@[i as int]@);
        if text::str_eq(windows[i].id.as_str(), id) {
            return i;
        }
        i += 1;
    }
    i
}

fn pane_differences(prev: &Vec<TmuxPane>, curr: &Vec<TmuxPane>) -> (r: (
    Vec<(String, Option<PaneDelta>)>,
    Vec<TmuxPane>,
))
    ensures
        pane_change_views(r.0@) == panes_changed(pane_views(prev@), pane_views(curr@), 0)
            + panes_gone(pane_views(prev@), pane_views(curr@), 0),
        pane_views(r.1@) == panes_added(pane_views(prev@), pane_views(curr@), 0),
{
    let ghost p = pane_views(prev@);
    let ghost c = pane_views(curr@);
    let mut changes: Vec<(String, Option<PaneDelta>)> = Vec::new();
    let mut added: Vec<TmuxPane> = Vec::new();
    assert(pane_change_views(changes@) =~= Seq::empty());
    assert(pane_views(added@) =~= Seq::empty());
    let mut k: usize = 0;
    while k < curr.len()
        invariant
            k <= curr@.len(),
            p == pane_views(prev@),
            c == pane_views(curr@),
            panes_changed(p, c, 0) == pane_change_views(changes@) + panes_changed(p, c, k as int),
            panes_added(p, c, 0) == pane_views(added@) + panes_added(p, c, k as int),
        decreases curr@.len() - k,
    {
        assert(c[k as int] == curr@[k as int]@);
        let j = find_snap_pane(prev, curr[k].tmux_id.as_str());
        if j < prev.len() {
            assert(p[j as int] == prev@[j as int]@);
            let delta = compute_pane_delta(&prev[j], &curr[k]);
            if !delta.is_empty() {
                let ghost before = pane_change_views(changes@);
                let id = curr[k].tmux_id.clone();
                changes.push((id, Some(delta)));
                assert(pane_change_views(changes@) =~= before.push((id@, Some(delta@))));
                assert(panes_changed(p, c, 0) =~= pane_change_views(changes@) + panes_changed(
                    p,
                    c,
                    k + 1,
                ));
            }
        } else {
            let ghost before = pane_views(added@);
            let pane = curr[k].clone();
            added.push(pane);
            assert(pane_views(added@) =~= before.push(pane@));
            assert(panes_added(p, c, 0) =~= pane_views(added@) + panes_added(p, c, k + 1));
        }
        k += 1;
    }
    assert(panes_changed(p, c, 0) =~= pane_change_views(changes@));
    assert(panes_added(p, c, 0) =~= pane_views(added@));
    let ghost found = pane_change_views(changes@);
    let mut g: usize = 0;
    assert(found + Seq::empty() =~= found);
    while g < prev.len()
        invariant
            g <= prev@.len(),
            p == pane_views(prev@),
            c == pane_views(curr@),
            found + panes_gone(p, c, 0) == pane_change_views(changes@) + panes_gone(p, c, g as int),
        decreases prev@.len() - g,
    {
        assert(p[g as int] == prev@[g as int]@);
        let j = find_snap_pane(curr, prev[g].tmux_id.as_str());
        if j >= curr.len() {
            let ghost before = pane_change_views(changes@);
            let id = prev[g].tmux_id.clone();
            changes.push((id, None));
            assert(pane_change_views(changes@) =~= before.push((id@, None)));
            assert(found + panes_gone(p, c, 0) =~= pane_change_views(changes@) + panes_gone(
                p,
                c,
                g + 1,
            ));
        }
        g += 1;
    }
    assert(found + panes_gone(p, c, 0) =~= pane_change_views(changes@));
    (changes, added)
}

fn window_differences(prev: &Vec<TmuxWindow>, curr: &Vec<TmuxWindow>) -> (r: (
    Vec<(String, Option<WindowDelta>)>,
    Vec<TmuxWindow>,
))
    ensures
        window_change_views(r.0@) == windows_changed(window_views(prev@), window_views(curr@), 0)
            + windows_gone(window_views(prev@), window_views(curr@), 0),
        window_views(r.1@) == windows_added(window_views(prev@), window_views(curr@), 0),
{
    let ghost p = window_views(prev@);
    let ghost c = window_views(curr@);
    let mut changes: Vec<(String, Option<WindowDelta>)> = Vec::new();
    let mut added: Vec<TmuxWindow> = Vec::new();
    assert(window_change_views(changes@) =~= Seq::empty());
    assert(window_views(added@) =~= Seq::empty());
    let mut k: usize = 0;
    while k < curr.len()
        invariant
            k <= curr@.len(),
            p == window_views(prev@),
            c == window_views(curr@),
            windows_changed(p, c, 0) == window_change_views(changes@) + windows_changed(
                p,
                c,
                k as int,
            ),
            windows_added(p, c, 0) == window_views(added@) + windows_added(p, c, k as int),
        decreases curr@.len() - k,
    {
        assert(c[k as int] == curr@[k as int]@);
        let j = find_snap_window(prev, curr[k].id.as_str());
        if j < prev.len() {
            assert(p[j as int] == prev@[j as int]@);
            let delta = compute_window_delta(&prev[j], &curr[k]);
            if !delta.is_empty() {
                let ghost before = window_change_views(changes@);
                let id = curr[k].id.clone();
                changes.push((id, Some(delta)));
                assert(window_change_views(changes@) =~= before.push((id@, Some(delta@))));
                assert(windows_changed(p, c, 0) =~= window_change_views(changes@)
                    + windows_changed(p, c, k + 1));
            }
        } else {
            let ghost before = window_views(added@);
            let window = curr[k].clone();
            added.push(window);
            assert(window_views(added@) =~= before.push(window@));
            assert(windows_added(p, c, 0) =~= window_views(added@) + windows_added(p, c, k + 1));
        }
        k += 1;
    }
    assert(windows_changed(p, c, 0) =~= window_change_views(changes@));
    assert(windows_added(p, c, 0) =~= window_views(added@));
    let ghost found = window_change_views(changes@);
    let mut g: usize = 0;
    assert(found + Seq::empty() =~= found);
    while g < prev.len()
        invariant
            g <= prev@.len(),
            p == window_views(prev@),
            c == window_views(curr@),
            found + windows_gone(p, c, 0) == window_change_views(changes@) + windows_gone(
                p,
                c,
                g as int,
            ),
        decreases prev@.len() - g,
    {
        assert(p[g as int] == prev@[g as int]@);
        let j = find_snap_window(curr, prev[g].id.as_str());
        if j >= curr.len() {
            let ghost before = window_change_views(changes@);
            let id = prev[g].id.clone();
            changes.push((id, None));
            assert(window_change_views(changes@) =~= before.push((id@, None)));
            assert(found + windows_gone(p, c, 0) =~= window_change_views(changes@) + windows_gone(
                p,
                c,
                g + 1,
            ));
        }
        g += 1;
    }
    assert(found + windows_gone(p, c, 0) =~= window_change_views(changes@));
    (changes, added)
}

fn popup_eq(a: &TmuxPopup, b: &TmuxPopup) -> (r: bool)
    ensures
        r == (a@ == b@),
{
    text::str_eq(a.id.as_str(), b.id.as_str()) && content_eq(&a.content, &b.content) && a.cursor_x
        == b.cursor_x && a.cursor_y == b.cursor_y && a.width == b.width && a.height == b.height
        && a.x == b.x && a.y == b.y && a.active == b.active && text::str_eq(
        a.command.as_str(),
        b.command.as_str(),
    )
}

/// Compares two snapshots of a session.
pub fn compute_delta(prev: &TmuxState, curr: &TmuxState, seq: u64) -> (delta: TmuxDelta)
    ensures
        delta@ == delta_of(prev@, curr@, seq),
{
    let (pane_changes, new_panes) = pane_differences(&prev.panes, &curr.panes);
    let (window_changes, new_windows) = window_differences(&prev.windows, &curr.windows);
    TmuxDelta {
        seq,
        panes: if pane_changes.len() > 0 {
            Some(pane_changes)
        } else {
            None
        },
        windows: if window_changes.len() > 0 {
            Some(window_changes)
        } else {
            None
        },
        new_panes: if new_panes.len() > 0 {
            Some(new_panes)
        } else {
            None
        },
        new_windows: if new_windows.len() > 0 {
            Some(new_windows)
        } else {
            None
        },
        active_window_id: if !opt_string_eq(&prev.active_window_id, &curr.active_window_id) {
            clone_opt_string(&curr.active_window_id)
        } else {
            None
        },
        active_pane_id: if !opt_string_eq(&prev.active_pane_id, &curr.active_pane_id) {
            clone_opt_string(&curr.active_pane_id)
        } else {
            None
        },
        status_line: if !text::str_eq(prev.status_line.as_str(), curr.status_line.as_str()) {
            Some(curr.status_line.clone())
        } else {
            None
        },
        total_width: if prev.total_width != curr.total_width {
            Some(curr.total_width)
        } else {
            None
        },
        total_height: if prev.total_height != curr.total_height {
            Some(curr.total_height)
        } else {
            None
        },
        popup: match (&curr.popup, &prev.popup) {
            (Some(c), None) => Some(Some(c.clone())),
            (None, Some(_)) => Some(None),
            (Some(c), Some(p)) => if !popup_eq(c, p) {
                Some(Some(c.clone()))
            } else {
                None
            },
            (None, None) => None,
        },
    }
}

fn delta_touches_most(delta: &TmuxDelta, total: usize) -> (r: bool)
    ensures
        r == (total > 0 && count(delta@.panes) + count(delta@.new_panes) > total / 2),
{
    let changed = match &delta.panes {
        Some(v) => v.len(),
        None => 0,
    };
    let added = match &delta.new_panes {
        Some(v) => v.len(),
        None => 0,
    };
    let half = total / 2;
    total > 0 && (changed > half || added > half - changed)
}

impl StateAggregator {
    /// The update to send to clients now, if there is anything to send: a
    /// full snapshot at first and where much has changed, and else what
    /// changed since the last update. The sequence number grows by one with
    /// every update sent, and a delta that is sent is never empty.
    pub fn to_state_update(&mut self) -> (r: Option<StateUpdate>)
        requires
            old(self).wf(),
            old(self)@.seq < u64::MAX,
        ensures
            final(self).wf(),
            (final(self)@, opt_update_view(r)) == update_step(old(self)@),
            r.is_none() ==> final(self)@ == old(self)@,
            r.is_some() ==> final(self)@.seq == old(self)@.seq + 1,
            match r {
                Some(StateUpdate::Delta { delta }) => !delta@.is_empty() && delta@.seq
                    == final(self)@.seq && !touches_most(delta@, tmux_state(old(self)@)),
                _ => true,
            },
    {
        let current = self.to_tmux_state();
        let next = self.delta_seq + 1;
        let delta = match &self.prev_state {
            None => {
                self.prev_state = Some(current.clone());
                self.delta_seq = 1;
                return Some(StateUpdate::Full { state: current });
            },
            Some(prev) => compute_delta(prev, &current, next),
        };
        if delta.is_empty() {
            return None;
        }
        self.delta_seq = next;
        self.prev_state = Some(current.clone());
        if delta_touches_most(&delta, current.panes.len()) {
            Some(StateUpdate::Full { state: current })
        } else {
            Some(StateUpdate::Delta { delta })
        }
    }
}

/// Every pane that clients see belongs to a window, and its cursor lies
/// within its size.
pub proof fn lemma_shown_panes(st: AggView, k: int)
    requires
        0 <= k <= st.panes.len(),
    ensures
        forall|i: int|
            0 <= i < shown_panes(st, k).len() ==> (#[trigger] shown_panes(st, k)[i]).window_id.len()
                > 0 && shown_panes(st, k)[i].cursor_x <= shown_panes(st, k)[i].width
                && shown_panes(st, k)[i].cursor_y <= shown_panes(st, k)[i].height,
    decreases st.panes.len() - k,
{
    if k < st.panes.len() {
        lemma_shown_panes(st, k + 1);
        let rest = shown_panes(st, k + 1);
        if is_shown(st, st.panes[k]) {
            let all = shown_panes(st, k);
            assert(all =~= seq![pane_snapshot(st.panes[k])] + rest);
            assert forall|i: int| 0 <= i < all.len() implies (#[trigger] all[i]).window_id.len() > 0
                && all[i].cursor_x <= all[i].width && all[i].cursor_y <= all[i].height by {
                if i > 0 {
                    assert(all[i] == rest[i - 1]);
                }
            }
        }
    }
}

} // verus!
