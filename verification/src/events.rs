//! How the model of a session changes with each event of control mode.

use crate::layout::{layout_leaves, parse_layout, LayoutLeaf};
use crate::lines::{pane_line, parse_pane_line, parse_window_line, window_line};
use crate::lines::{PaneLine, PaneLineView, WindowLine, WindowLineView};
use crate::pane::{after_capture, after_output, captured_content, fresh_pane, fresh_window, resized};
use crate::pane::{PaneState, PaneView, PopupState, PopupView, WindowState, WindowView};
use crate::parser::{ControlModeEvent, EventView};
use crate::state::{changed, no_change, pane_position, pane_state_views, panes_distinct, panes_wf};
use crate::state::{lemma_pane_position, lemma_window_position, window_position};
use crate::state::{window_state_views, windows_distinct};
use crate::state::{AggView, ChangeType, ChangeView, ProcessEventResult, ResultView, StateAggregator};
use crate::terminal;
use crate::text;
use vstd::prelude::*;
use vstd::utf8::encode_utf8;

verus! {

/// The model after output of the pane `pane_id`. Output of a pane that is
/// unknown, or that tmux has not listed with its window yet, belongs to
/// another session and is dropped.
pub open spec fn output_step(st: AggView, pane_id: Seq<char>, content: Seq<u8>) -> (
    AggView,
    ResultView,
) {
    let i = pane_position(st.panes, pane_id, 0);
    if i < st.panes.len() && st.panes[i].window_id.len() > 0 {
        (
            AggView { panes: st.panes.update(i, after_output(st.panes[i], content)), ..st },
            changed(ChangeView::PaneOutput { pane_id }),
        )
    } else {
        (st, no_change())
    }
}

/// The identifier of the pane with the number `n`.
pub open spec fn pane_id_of(n: u32) -> Seq<char> {
    seq!['%'] + text::decimal(n as nat)
}

/// The panes after one pane of a layout, and the panes to capture anew. The
/// pane takes its place from the layout where it is known and belongs to
/// the window `window_id`; where its size changes, it is to be captured.
pub open spec fn leaf_step(
    panes: Seq<PaneView>,
    refresh: Seq<Seq<char>>,
    window_id: Seq<char>,
    leaf: LayoutLeaf,
) -> (Seq<PaneView>, Seq<Seq<char>>) {
    let id = pane_id_of(leaf.pane);
    let i = pane_position(panes, id, 0);
    if i < panes.len() && panes[i].window_id == window_id {
        (
            panes.update(
                i,
                resized(PaneView { x: leaf.x, y: leaf.y, ..panes[i] }, leaf.width, leaf.height),
            ),
            if panes[i].width != leaf.width || panes[i].height != leaf.height {
                refresh.push(id)
            } else {
                refresh
            },
        )
    } else {
        (panes, refresh)
    }
}

/// The panes after the panes of a layout from index `k` on, and the panes
/// to capture anew.
pub open spec fn leaves_fold(
    panes: Seq<PaneView>,
    refresh: Seq<Seq<char>>,
    window_id: Seq<char>,
    leaves: Seq<LayoutLeaf>,
    k: int,
) -> (Seq<PaneView>, Seq<Seq<char>>)
    decreases leaves.len() - k,
{
    if k < 0 || k >= leaves.len() {
        (panes, refresh)
    } else {
        let next = leaf_step(panes, refresh, window_id, leaves[k]);
        leaves_fold(next.0, next.1, window_id, leaves, k + 1)
    }
}

/// The model after a change of the layout of the window `window_id`.
pub open spec fn layout_step(st: AggView, window_id: Seq<char>, layout: Seq<char>) -> (
    AggView,
    ResultView,
) {
    let wi = window_position(st.windows, window_id, 0);
    let folded = leaves_fold(st.panes, Seq::empty(), window_id, layout_leaves(layout), 0);
    (
        AggView {
            windows: if wi < st.windows.len() {
                st.windows.update(wi, WindowView { layout, ..st.windows[wi] })
            } else {
                st.windows
            },
            panes: folded.0,
            ..st
        },
        ResultView { state_changed: true, refresh: folded.1, change: ChangeView::PaneLayout },
    )
}

/// The model after a window was added. Clients are not told yet: the window
/// has no name until tmux renames or lists it.
pub open spec fn window_add_step(st: AggView, window_id: Seq<char>) -> (AggView, ResultView) {
    (
        AggView {
            windows: if window_position(st.windows, window_id, 0) < st.windows.len() {
                st.windows
            } else {
                st.windows.push(fresh_window(window_id))
            },
            status_dirty: true,
            ..st
        },
        no_change(),
    )
}

/// The panes from index `k` on that do not belong to the window
/// `window_id`.
pub open spec fn panes_outside(panes: Seq<PaneView>, window_id: Seq<char>, k: int) -> Seq<PaneView>
    decreases panes.len() - k,
{
    if k < 0 || k >= panes.len() {
        Seq::empty()
    } else if panes[k].window_id != window_id {
        seq![panes[k]] + panes_outside(panes, window_id, k + 1)
    } else {
        panes_outside(panes, window_id, k + 1)
    }
}

/// The model after the window `window_id` was closed: the window is gone,
/// and so are its panes.
pub open spec fn window_close_step(st: AggView, window_id: Seq<char>) -> (AggView, ResultView) {
    let wi = window_position(st.windows, window_id, 0);
    (
        AggView {
            windows: if wi < st.windows.len() {
                st.windows.remove(wi)
            } else {
                st.windows
            },
            panes: panes_outside(st.panes, window_id, 0),
            status_dirty: true,
            ..st
        },
        changed(ChangeView::Window),
    )
}

/// The model after the window `window_id` was renamed.
pub open spec fn window_renamed_step(st: AggView, window_id: Seq<char>, name: Seq<char>) -> (
    AggView,
    ResultView,
) {
    let wi = window_position(st.windows, window_id, 0);
    (
        AggView {
            windows: if wi < st.windows.len() {
                st.windows.update(wi, WindowView { name, ..st.windows[wi] })
            } else {
                st.windows
            },
            status_dirty: true,
            ..st
        },
        changed(ChangeView::Window),
    )
}

/// The panes once `pane_id` is the active pane of the window `window_id`:
/// of the panes of that window it alone is active.
pub open spec fn with_active_pane(panes: Seq<PaneView>, window_id: Seq<char>, pane_id: Seq<char>) -> Seq<
    PaneView,
> {
    Seq::new(
        panes.len(),
        |i: int|
            if panes[i].window_id == window_id {
                PaneView { active: panes[i].id == pane_id, ..panes[i] }
            } else {
                panes[i]
            },
    )
}

/// The windows once `window_id` is the active window: it alone is active.
pub open spec fn with_active_window(windows: Seq<WindowView>, window_id: Seq<char>) -> Seq<
    WindowView,
> {
    Seq::new(
        windows.len(),
        |i: int| WindowView { active: windows[i].id == window_id, ..windows[i] },
    )
}

/// The escape sequence that puts the cursor of a terminal at row `row` and
/// column `col`, both counted from 0.
pub open spec fn cursor_home(row: u32, col: u32) -> Seq<u8> {
    seq![0x1bu8, 0x5bu8] + ascii(text::decimal((row + 1) as nat)) + seq![0x3bu8] + ascii(
        text::decimal((col + 1) as nat),
    ) + seq![0x48u8]
}

/// The bytes of ASCII characters.
pub open spec fn ascii(s: Seq<char>) -> Seq<u8> {
    Seq::new(s.len(), |i: int| s[i] as u8)
}

/// The pane after a capture of its content. In copy mode the capture
/// becomes the snapshot of copy mode and the emulator stays as it is.
/// Otherwise the emulator starts afresh with the capture and then puts its
/// cursor where tmux reported it last.
pub open spec fn capture_applied(p: PaneView, bytes: Seq<u8>) -> PaneView {
    if p.in_mode {
        PaneView { copy_mode_content: Some(captured_content(p, bytes)), ..p }
    } else {
        PaneView {
            input: after_capture(p, bytes).input + cursor_home(p.tmux_cursor_y, p.tmux_cursor_x),
            ..after_capture(p, bytes)
        }
    }
}

/// Whether every line of `lines` from index `k` on begins with `mark` and
/// holds a comma, as the lines of a listing do.
pub open spec fn all_listed(lines: Seq<Seq<char>>, mark: char, k: int) -> bool
    decreases lines.len() - k,
{
    if k < 0 || k >= lines.len() {
        true
    } else {
        text::starts_with(lines[k], seq![mark]) && lines[k].contains(',') && all_listed(
            lines,
            mark,
            k + 1,
        )
    }
}

/// Whether `output` is taken for the answer to `capture-pane`: it is not
/// empty and is no listing of panes or windows.
pub open spec fn looks_like_capture(output: Seq<char>) -> bool {
    let lines = text::lines(output);
    output.len() > 0 && lines.len() > 0 && !all_listed(lines, '%', 0) && !all_listed(lines, '@', 0)
}

/// The pane after a line of `list-panes` that describes it. A change of
/// size starts the emulator afresh; leaving copy mode drops the snapshot of
/// copy mode.
pub open spec fn line_applied(p: PaneView, l: PaneLineView) -> PaneView {
    PaneView {
        index: l.index,
        x: l.x,
        y: l.y,
        active: l.active,
        command: l.command,
        title: l.title,
        border_title: l.border_title,
        in_mode: l.in_mode,
        copy_mode_content: if p.in_mode && !l.in_mode {
            None
        } else {
            p.copy_mode_content
        },
        copy_cursor_x: l.copy_cursor_x,
        copy_cursor_y: l.copy_cursor_y,
        window_id: l.window_id,
        alternate_on: l.alternate_on,
        mouse_any_flag: l.mouse_any_flag,
        group_id: l.group_id,
        group_tab_index: l.group_tab_index,
        tmux_cursor_x: l.cursor_x,
        tmux_cursor_y: l.cursor_y,
        ..resized(p, l.width, l.height)
    }
}

/// The panes after a line of `list-panes`, and whether the pane of the line
/// is to be captured: it is new, or its size changed.
pub open spec fn pane_line_step(panes: Seq<PaneView>, l: PaneLineView) -> (Seq<PaneView>, bool) {
    let i = pane_position(panes, l.id, 0);
    if i < panes.len() {
        (
            panes.update(i, line_applied(panes[i], l)),
            panes[i].width != l.width || panes[i].height != l.height,
        )
    } else {
        (panes.push(line_applied(fresh_pane(l.id, l.width, l.height), l)), true)
    }
}

/// What the lines of a listing of panes have given so far: the panes, the
/// identifiers listed, and the panes to capture.
pub struct PaneFold {
    pub panes: Seq<PaneView>,
    pub seen: Seq<Seq<char>>,
    pub refresh: Seq<Seq<char>>,
}

/// Whether `line` may be a line of a listing marked by `mark`: it holds the
/// mark and a comma.
pub open spec fn candidate(line: Seq<char>, mark: char) -> bool {
    line.contains(mark) && line.contains(',')
}

/// The fold after one more line.
pub open spec fn pane_fold_step(acc: PaneFold, line: Seq<char>) -> PaneFold {
    if candidate(line, '%') && pane_line(line).is_some() {
        let l = pane_line(line).unwrap();
        let next = pane_line_step(acc.panes, l);
        PaneFold {
            panes: next.0,
            seen: acc.seen.push(l.id),
            refresh: if next.1 {
                acc.refresh.push(l.id)
            } else {
                acc.refresh
            },
        }
    } else {
        acc
    }
}

/// The fold after the lines from index `k` on.
pub open spec fn pane_fold(acc: PaneFold, lines: Seq<Seq<char>>, k: int) -> PaneFold
    decreases lines.len() - k,
{
    if k < 0 || k >= lines.len() {
        acc
    } else {
        pane_fold(pane_fold_step(acc, lines[k]), lines, k + 1)
    }
}

/// The panes from index `k` on that stay after a listing of the panes
/// `seen`: those listed, and those that belong to no window.
pub open spec fn panes_kept(panes: Seq<PaneView>, seen: Seq<Seq<char>>, k: int) -> Seq<PaneView>
    decreases panes.len() - k,
{
    if k < 0 || k >= panes.len() {
        Seq::empty()
    } else if seen.contains(panes[k].id) || panes[k].window_id.len() == 0 {
        seq![panes[k]] + panes_kept(panes, seen, k + 1)
    } else {
        panes_kept(panes, seen, k + 1)
    }
}

/// The window after a line of `list-windows` that describes it.
pub open spec fn window_line_applied(w: WindowView, l: WindowLineView) -> WindowView {
    WindowView {
        index: l.index,
        name: l.name,
        active: l.active,
        float_parent: l.float_parent,
        float_width: l.float_width,
        float_height: l.float_height,
        ..w
    }
}

/// What the lines of a listing of windows have given so far: the windows,
/// the active window, and whether any line may have been one of the listing.
pub struct WindowFold {
    pub windows: Seq<WindowView>,
    pub active: Option<Seq<char>>,
    pub any: bool,
}

/// The windows after a line of `list-windows`: the window of the line is
/// updated, or added where it is new.
pub open spec fn window_line_step(windows: Seq<WindowView>, l: WindowLineView) -> Seq<WindowView> {
    let i = window_position(windows, l.id, 0);
    if i < windows.len() {
        windows.update(i, window_line_applied(windows[i], l))
    } else {
        windows.push(window_line_applied(fresh_window(l.id), l))
    }
}

/// The fold after one more line.
pub open spec fn window_fold_step(acc: WindowFold, line: Seq<char>) -> WindowFold {
    if !candidate(line, '@') {
        acc
    } else if window_line(line).is_none() {
        WindowFold { any: true, ..acc }
    } else {
        let l = window_line(line).unwrap();
        WindowFold {
            windows: window_line_step(acc.windows, l),
            active: if l.active {
                Some(l.id)
            } else {
                acc.active
            },
            any: true,
        }
    }
}

/// The fold after the lines from index `k` on.
pub open spec fn window_fold(acc: WindowFold, lines: Seq<Seq<char>>, k: int) -> WindowFold
    decreases lines.len() - k,
{
    if k < 0 || k >= lines.len() {
        acc
    } else {
        window_fold(window_fold_step(acc, lines[k]), lines, k + 1)
    }
}

/// The panes after a listing: every line that describes a pane is applied,
/// and where at least one did, the panes that belong to a window and were
/// not listed are gone.
pub open spec fn listed_panes(panes: Seq<PaneView>, lines: Seq<Seq<char>>) -> Seq<PaneView> {
    let folded = pane_fold(
        PaneFold { panes, seen: Seq::empty(), refresh: Seq::empty() },
        lines,
        0,
    );
    if folded.seen.len() > 0 {
        panes_kept(folded.panes, folded.seen, 0)
    } else {
        folded.panes
    }
}

/// The model after the answer `output` to a listing of panes or windows,
/// and the panes to capture.
pub open spec fn listing_step(st: AggView, output: Seq<char>) -> (AggView, Seq<Seq<char>>) {
    let lines = text::lines(output);
    let panes = pane_fold(
        PaneFold { panes: st.panes, seen: Seq::empty(), refresh: Seq::empty() },
        lines,
        0,
    );
    let windows = window_fold(
        WindowFold { windows: st.windows, active: st.active_window_id, any: false },
        lines,
        0,
    );
    (
        AggView {
            panes: listed_panes(st.panes, lines),
            windows: windows.windows,
            active_window_id: windows.active,
            status_dirty: st.status_dirty || windows.any,
            ..st
        },
        panes.refresh,
    )
}

/// The model after the answer to a command. Where captures are pending and
/// the answer of a command that succeeded looks like one, it is the capture
/// of the pane that has waited longest. Every other answer of a command that
/// succeeded is read as a listing.
pub open spec fn response_step(st: AggView, output: Seq<char>, success: bool) -> (
    AggView,
    ResultView,
) {
    if st.pending.len() > 0 && success && looks_like_capture(output) {
        let id = st.pending[0];
        let i = pane_position(st.panes, id, 0);
        (
            AggView {
                pending: st.pending.subrange(1, st.pending.len() as int),
                panes: if i < st.panes.len() {
                    st.panes.update(i, capture_applied(st.panes[i], encode_utf8(output)))
                } else {
                    st.panes
                },
                ..st
            },
            changed(ChangeView::PaneOutput { pane_id: id }),
        )
    } else if success {
        (
            listing_step(st, output).0,
            ResultView {
                state_changed: true,
                refresh: listing_step(st, output).1,
                change: ChangeView::Full,
            },
        )
    } else {
        (st, changed(ChangeView::Full))
    }
}

/// The model after flow control paused or resumed the pane `pane_id`.
pub open spec fn flow_step(st: AggView, pane_id: Seq<char>, paused: bool) -> (AggView, ResultView) {
    let i = pane_position(st.panes, pane_id, 0);
    if i < st.panes.len() {
        (
            AggView { panes: st.panes.update(i, PaneView { paused, ..st.panes[i] }), ..st },
            changed(
                if paused {
                    ChangeView::FlowPause { pane_id }
                } else {
                    ChangeView::FlowContinue { pane_id }
                },
            ),
        )
    } else {
        (st, no_change())
    }
}

/// The model after an event, and what is reported of it.
pub open spec fn event_step(st: AggView, event: EventView) -> (AggView, ResultView) {
    match event {
        EventView::Output { pane_id, content } => output_step(st, pane_id, content),
        EventView::ExtendedOutput { pane_id, age_ms, content } => output_step(st, pane_id, content),
        EventView::LayoutChange { window_id, layout, visible_layout, flags } => layout_step(
            st,
            window_id,
            layout,
        ),
        EventView::WindowAdd { window_id } => window_add_step(st, window_id),
        EventView::WindowClose { window_id } => window_close_step(st, window_id),
        EventView::WindowRenamed { window_id, name } => window_renamed_step(st, window_id, name),
        EventView::WindowPaneChanged { window_id, pane_id } => (
            AggView { panes: with_active_pane(st.panes, window_id, pane_id), ..st },
            changed(ChangeView::PaneFocus),
        ),
        EventView::PaneModeChanged { pane_id } => (st, changed(ChangeView::PaneFocus)),
        EventView::SessionWindowChanged { session_id, window_id } => (
            AggView {
                windows: with_active_window(st.windows, window_id),
                active_window_id: Some(window_id),
                status_dirty: true,
                ..st
            },
            changed(ChangeView::Window),
        ),
        EventView::CommandResponse { timestamp, command_num, output, success } => response_step(
            st,
            output,
            success,
        ),
        EventView::SessionsChanged => (st, no_change()),
        EventView::SessionChanged { session_id, session_name } => (
            AggView { session_name, ..st },
            changed(ChangeView::Session),
        ),
        EventView::SessionRenamed { name } => (
            AggView { session_name: name, ..st },
            changed(ChangeView::Session),
        ),
        EventView::Exit { reason } => (st, changed(ChangeView::Session)),
        EventView::PopupOpen { popup_id, width, height, x, y, command } => (
            AggView {
                popup: Some(
                    PopupView {
                        id: popup_id,
                        input: Seq::empty(),
                        width,
                        height,
                        x,
                        y,
                        active: true,
                        command: match command {
                            Some(c) => c,
                            None => Seq::empty(),
                        },
                    },
                ),
                ..st
            },
            changed(ChangeView::Full),
        ),
        EventView::PopupOutput { popup_id, content } => match st.popup {
            Some(p) => if p.id == popup_id {
                (
                    AggView { popup: Some(PopupView { input: p.input + content, ..p }), ..st },
                    changed(ChangeView::Full),
                )
            } else {
                (st, no_change())
            },
            None => (st, no_change()),
        },
        EventView::PopupClose { popup_id } => match st.popup {
            Some(p) => if p.id == popup_id {
                (AggView { popup: None, ..st }, changed(ChangeView::Full))
            } else {
                (st, no_change())
            },
            None => (st, no_change()),
        },
        EventView::Pause { pane_id } => flow_step(st, pane_id, true),
        EventView::Continue { pane_id } => flow_step(st, pane_id, false),
        _ => (st, no_change()),
    }
}

/// Replacing one pane by a well-formed pane with the same identifier keeps
/// the panes well formed and distinct.
pub proof fn lemma_pane_replaced(before: Seq<PaneState>, i: int, p: PaneState)
    requires
        0 <= i < before.len(),
        p.wf(),
        p@.id == before[i]@.id,
        panes_wf(before),
        panes_distinct(pane_state_views(before)),
    ensures
        pane_state_views(before.update(i, p)) == pane_state_views(before).update(i, p@),
        panes_wf(before.update(i, p)),
        panes_distinct(pane_state_views(before.update(i, p))),
{
    let after = before.update(i, p);
    assert(pane_state_views(after) =~= pane_state_views(before).update(i, p@));
    assert forall|a: int, b: int| 0 <= a < b < after.len() implies (#[trigger] pane_state_views(
        after,
    )[a]).id != (#[trigger] pane_state_views(after)[b]).id by {
        assert(pane_state_views(before)[a].id != pane_state_views(before)[b].id);
    }
}

/// Replacing one window by a window with the same identifier keeps the
/// windows distinct.
pub proof fn lemma_window_replaced(before: Seq<WindowState>, i: int, w: WindowState)
    requires
        0 <= i < before.len(),
        w@.id == before[i]@.id,
        windows_distinct(window_state_views(before)),
    ensures
        window_state_views(before.update(i, w)) == window_state_views(before).update(i, w@),
        windows_distinct(window_state_views(before.update(i, w))),
{
    let after = before.update(i, w);
    assert(window_state_views(after) =~= window_state_views(before).update(i, w@));
    assert forall|a: int, b: int| 0 <= a < b < after.len() implies (#[trigger] window_state_views(
        after,
    )[a]).id != (#[trigger] window_state_views(after)[b]).id by {
        assert(window_state_views(before)[a].id != window_state_views(before)[b].id);
    }
}

impl StateAggregator {
    fn handle_output(&mut self, pane_id: &str, content: &[u8]) -> (r: bool)
        requires
            old(self).wf(),
        ensures
            final(self).wf(),
            final(self)@ == output_step(old(self)@, pane_id@, content@).0,
            r == output_step(old(self)@, pane_id@, content@).1.state_changed,
    {
        let i = self.find_pane(pane_id);
        if i < self.panes.len() && !self.panes[i].window_id.as_str().is_empty() {
            let ghost before = self.panes@;
            self.panes[i].process_output(content);
            proof {
                lemma_pane_replaced(before, i as int, self.panes@[i as int]);
                assert(self.panes@ =~= before.update(i as int, self.panes@[i as int]));
            }
            true
        } else {
            false
        }
    }
}

/// The text of the identifier of the pane with the number `n`.
fn pane_id_string(n: u32) -> (id: String)
    ensures
        id@ == pane_id_of(n),
{
    let mut chars: Vec<char> = Vec::new();
    chars.push('%');
    text::push_decimal(&mut chars, n as u64);
    text::string_of(chars.as_slice())
}

/// What follows index `k` of the panes outside a window depends on the
/// panes from `k` on alone.
proof fn lemma_panes_outside_suffix(
    a: Seq<PaneView>,
    b: Seq<PaneView>,
    window_id: Seq<char>,
    ka: int,
    kb: int,
)
    requires
        0 <= ka <= a.len(),
        0 <= kb <= b.len(),
        a.subrange(ka, a.len() as int) == b.subrange(kb, b.len() as int),
    ensures
        panes_outside(a, window_id, ka) == panes_outside(b, window_id, kb),
    decreases a.len() - ka,
{
    let sa = a.subrange(ka, a.len() as int);
    let sb = b.subrange(kb, b.len() as int);
    assert(sa.len() == sb.len());
    if ka < a.len() {
        assert(sa[0] == sb[0]);
        assert(a.subrange(ka + 1, a.len() as int) =~= sa.subrange(1, sa.len() as int));
        assert(b.subrange(kb + 1, b.len() as int) =~= sb.subrange(1, sb.len() as int));
        lemma_panes_outside_suffix(a, b, window_id, ka + 1, kb + 1);
    }
}

/// Removing one pane keeps the panes well formed and distinct.
proof fn lemma_pane_removed(before: Seq<PaneState>, i: int)
    requires
        0 <= i < before.len(),
        panes_wf(before),
        panes_distinct(pane_state_views(before)),
    ensures
        pane_state_views(before.remove(i)) == pane_state_views(before).remove(i),
        panes_wf(before.remove(i)),
        panes_distinct(pane_state_views(before.remove(i))),
{
    let after = before.remove(i);
    assert(pane_state_views(after) =~= pane_state_views(before).remove(i));
    assert forall|j: int| 0 <= j < after.len() implies (#[trigger] after[j]).wf() by {
        if j < i {
            assert(after[j] == before[j]);
        } else {
            assert(after[j] == before[j + 1]);
        }
    }
    assert forall|a: int, b: int| 0 <= a < b < after.len() implies (#[trigger] pane_state_views(
        after,
    )[a]).id != (#[trigger] pane_state_views(after)[b]).id by {
        let a0 = if a < i {
            a
        } else {
            a + 1
        };
        let b0 = if b < i {
            b
        } else {
            b + 1
        };
        assert(pane_state_views(before)[a0].id != pane_state_views(before)[b0].id);
    }
}

impl StateAggregator {
    fn apply_leaf(&mut self, window_id: &str, leaf: LayoutLeaf, refresh: &mut Vec<String>)
        requires
            old(self).wf(),
        ensures
            final(self).wf(),
            (final(self)@.panes, text::str_views(final(refresh)@)) == leaf_step(
                old(self)@.panes,
                text::str_views(old(refresh)@),
                window_id@,
                leaf,
            ),
            final(self)@ == (AggView { panes: final(self)@.panes, ..old(self)@ }),
    {
        let id = pane_id_string(leaf.pane);
        let i = self.find_pane(id.as_str());
        if i < self.panes.len() && text::str_eq(self.panes[i].window_id.as_str(), window_id) {
            let ghost before = self.panes@;
            let pane = &mut self.panes[i];
            pane.x = leaf.x;
            pane.y = leaf.y;
            let was_resized = pane.resize(leaf.width, leaf.height);
            proof {
                lemma_pane_replaced(before, i as int, self.panes@[i as int]);
                assert(self.panes@ =~= before.update(i as int, self.panes@[i as int]));
            }
            if was_resized {
                let ghost listed = text::str_views(refresh@);
                refresh.push(id);
                assert(text::str_views(refresh@) =~= listed.push(id@));
            }
        }
    }

    fn handle_layout_change(&mut self, window_id: &str, layout: &str) -> (refresh: Vec<String>)
        requires
            old(self).wf(),
        ensures
            final(self).wf(),
            final(self)@ == layout_step(old(self)@, window_id@, layout@).0,
            text::str_views(refresh@) == layout_step(old(self)@, window_id@, layout@).1.refresh,
    {
        let wi = self.find_window(window_id);
        if wi < self.windows.len() {
            let ghost before = self.windows@;
            self.windows[wi].layout = text::string_of_str(layout);
            proof {
                lemma_window_replaced(before, wi as int, self.windows@[wi as int]);
                assert(self.windows@ =~= before.update(wi as int, self.windows@[wi as int]));
            }
        }
        let chars = text::chars_of(layout);
        let leaves = parse_layout(chars.as_slice());
        let mut refresh: Vec<String> = Vec::new();
        let ghost start = self@;
        assert(text::str_views(refresh@) =~= Seq::empty());
        let mut k: usize = 0;
        while k < leaves.len()
            invariant
                k <= leaves@.len(),
                self.wf(),
                self@ == (AggView { panes: self@.panes, ..start }),
                leaves_fold(start.panes, Seq::empty(), window_id@, leaves@, 0) == leaves_fold(
                    self@.panes,
                    text::str_views(refresh@),
                    window_id@,
                    leaves@,
                    k as int,
                ),
            decreases leaves@.len() - k,
        {
            self.apply_leaf(window_id, leaves[k], &mut refresh);
            k += 1;
        }
        refresh
    }

    fn handle_window_add(&mut self, window_id: &str)
        requires
            old(self).wf(),
        ensures
            final(self).wf(),
            final(self)@ == window_add_step(old(self)@, window_id@).0,
    {
        let wi = self.find_window(window_id);
        if wi >= self.windows.len() {
            let ghost before = self.windows@;
            let w = WindowState::new(window_id);
            self.windows.push(w);
            proof {
                lemma_window_position(window_state_views(before), window_id@, 0);
                assert(window_state_views(self.windows@) =~= window_state_views(before).push(w@));
                assert forall|a: int, b: int|
                    0 <= a < b < self.windows@.len() implies (#[trigger] self@.windows[a]).id != (
                #[trigger] self@.windows[b]).id by {
                    if b < before.len() {
                        assert(window_state_views(before)[a].id != window_state_views(before)[b].id);
                    } else {
                        assert(window_state_views(before)[a].id != window_id@);
                    }
                }
            }
        }
        self.status_line_dirty = true;
    }

    fn remove_panes_of(&mut self, window_id: &str)
        requires
            old(self).wf(),
        ensures
            final(self).wf(),
            final(self)@ == (AggView {
                panes: panes_outside(old(self)@.panes, window_id@, 0),
                ..old(self)@
            }),
    {
        let ghost start = self@;
        let mut i: usize = 0;
        assert(self@.panes.subrange(0, 0) =~= Seq::empty());
        while i < self.panes.len()
            invariant
                i <= self.panes@.len(),
                self.wf(),
                self@ == (AggView { panes: self@.panes, ..start }),
                panes_outside(start.panes, window_id@, 0) == self@.panes.subrange(0, i as int)
                    + panes_outside(self@.panes, window_id@, i as int),
            decreases self.panes@.len() - i,
        {
            let ghost before = self.panes@;
            let ghost views = self@.panes;
            if text::str_eq(self.panes[i].window_id.as_str(), window_id) {
                self.panes.remove(i);
                proof {
                    lemma_pane_removed(before, i as int);
                    assert(self@.panes.subrange(0, i as int) =~= views.subrange(0, i as int));
                    assert(views.subrange(i + 1, views.len() as int) =~= self@.panes.subrange(
                        i as int,
                        self@.panes.len() as int,
                    ));
                    lemma_panes_outside_suffix(views, self@.panes, window_id@, i + 1, i as int);
                }
            } else {
                assert(self@.panes.subrange(0, i + 1) =~= self@.panes.subrange(0, i as int).push(
                    views[i as int],
                ));
                assert(self@.panes.subrange(0, i as int) + (seq![views[i as int]] + panes_outside(
                    views,
                    window_id@,
                    i + 1,
                )) =~= self@.panes.subrange(0, i + 1) + panes_outside(views, window_id@, i + 1));
                i += 1;
            }
        }
        assert(self@.panes.subrange(0, i as int) =~= self@.panes);
        assert(self@.panes + Seq::<PaneView>::empty() =~= self@.panes);
    }

    fn handle_window_close(&mut self, window_id: &str)
        requires
            old(self).wf(),
        ensures
            final(self).wf(),
            final(self)@ == window_close_step(old(self)@, window_id@).0,
    {
        let wi = self.find_window(window_id);
        if wi < self.windows.len() {
            let ghost before = self.windows@;
            self.windows.remove(wi);
            proof {
                assert(window_state_views(self.windows@) =~= window_state_views(before).remove(
                    wi as int,
                ));
                assert forall|a: int, b: int|
                    0 <= a < b < self.windows@.len() implies (#[trigger] self@.windows[a]).id != (
                #[trigger] self@.windows[b]).id by {
                    let a0 = if a < wi {
                        a
                    } else {
                        a + 1
                    };
                    let b0 = if b < wi {
                        b
                    } else {
                        b + 1
                    };
                    assert(window_state_views(before)[a0].id != window_state_views(before)[b0].id);
                }
            }
        }
        self.remove_panes_of(window_id);
        self.status_line_dirty = true;
    }

    fn handle_window_renamed(&mut self, window_id: &str, name: String)
        requires
            old(self).wf(),
        ensures
            final(self).wf(),
            final(self)@ == window_renamed_step(old(self)@, window_id@, name@).0,
    {
        let wi = self.find_window(window_id);
        if wi < self.windows.len() {
            let ghost before = self.windows@;
            self.windows[wi].name = name;
            proof {
                lemma_window_replaced(before, wi as int, self.windows@[wi as int]);
                assert(self.windows@ =~= before.update(wi as int, self.windows@[wi as int]));
            }
        }
        self.status_line_dirty = true;
    }

    fn set_active_pane(&mut self, window_id: &str, pane_id: &str)
        requires
            old(self).wf(),
        ensures
            final(self).wf(),
            final(self)@ == (AggView {
                panes: with_active_pane(old(self)@.panes, window_id@, pane_id@),
                ..old(self)@
            }),
    {
        let ghost start = self@;
        let ghost target = with_active_pane(start.panes, window_id@, pane_id@);
        let mut i: usize = 0;
        while i < self.panes.len()
            invariant
                i <= self.panes@.len(),
                self.panes@.len() == start.panes.len(),
                panes_wf(self.panes@),
                self@ == (AggView { panes: self@.panes, ..start }),
                self.popup == old(self).popup,
                self.prev_state == old(self).prev_state,
                target == with_active_pane(start.panes, window_id@, pane_id@),
                forall|j: int| 0 <= j < i ==> (#[trigger] self@.panes[j]) == target[j],
                forall|j: int|
                    i <= j < self.panes@.len() ==> (#[trigger] self@.panes[j]) == start.panes[j],
            decreases self.panes@.len() - i,
        {
            let ghost before = self.panes@;
            assert(self@.panes[i as int] == start.panes[i as int]);
            if text::str_eq(self.panes[i].window_id.as_str(), window_id) {
                let active = text::str_eq(self.panes[i].id.as_str(), pane_id);
                self.panes[i].active = active;
            }
            proof {
                assert(before[i as int]@ == start.panes[i as int]);
                assert(self.panes@[i as int]@ == target[i as int]);
                assert forall|j: int| 0 <= j < i implies (#[trigger] self@.panes[j])
                    == target[j] by {
                    assert(self.panes@[j] == before[j]);
                    assert(pane_state_views(before)[j] == target[j]);
                }
                assert forall|j: int| i < j < self.panes@.len() implies (#[trigger] self@.panes[j])
                    == start.panes[j] by {
                    assert(self.panes@[j] == before[j]);
                    assert(pane_state_views(before)[j] == start.panes[j]);
                }
                assert forall|j: int| 0 <= j < self.panes@.len() implies (
                #[trigger] self.panes@[j]).wf() by {
                    if j != i {
                        assert(self.panes@[j] == before[j]);
                    } else {
                        assert(before[j].wf());
                    }
                }
            }
            i += 1;
        }
        proof {
            assert(self@.panes =~= target);
            assert forall|a: int, b: int| 0 <= a < b < target.len() implies (#[trigger] target[a]).id
                != (#[trigger] target[b]).id by {
                assert(start.panes[a].id != start.panes[b].id);
            }
        }
    }

    fn set_active_window(&mut self, window_id: String)
        requires
            old(self).wf(),
        ensures
            final(self).wf(),
            final(self)@ == (AggView {
                windows: with_active_window(old(self)@.windows, window_id@),
                active_window_id: Some(window_id@),
                status_dirty: true,
                ..old(self)@
            }),
    {
        let ghost start = self@;
        let ghost target = with_active_window(start.windows, window_id@);
        let mut i: usize = 0;
        while i < self.windows.len()
            invariant
                i <= self.windows@.len(),
                self.windows@.len() == start.windows.len(),
                self@ == (AggView { windows: self@.windows, ..start }),
                self.panes == old(self).panes,
                self.popup == old(self).popup,
                self.prev_state == old(self).prev_state,
                target == with_active_window(start.windows, window_id@),
                forall|j: int| 0 <= j < i ==> (#[trigger] self@.windows[j]) == target[j],
                forall|j: int|
                    i <= j < self.windows@.len() ==> (#[trigger] self@.windows[j])
                        == start.windows[j],
            decreases self.windows@.len() - i,
        {
            let ghost before = self.windows@;
            assert(self@.windows[i as int] == start.windows[i as int]);
            let active = text::str_eq(self.windows[i].id.as_str(), window_id.as_str());
            self.windows[i].active = active;
            proof {
                assert(before[i as int]@ == start.windows[i as int]);
                assert(self.windows@[i as int]@ == target[i as int]);
                assert forall|j: int| 0 <= j < i implies (#[trigger] self@.windows[j])
                    == target[j] by {
                    assert(self.windows@[j] == before[j]);
                    assert(window_state_views(before)[j] == target[j]);
                }
                assert forall|j: int|
                    i < j < self.windows@.len() implies (#[trigger] self@.windows[j])
                    == start.windows[j] by {
                    assert(self.windows@[j] == before[j]);
                    assert(window_state_views(before)[j] == start.windows[j]);
                }
            }
            i += 1;
        }
        proof {
            assert(self@.windows =~= target);
            assert forall|a: int, b: int| 0 <= a < b < target.len() implies (#[trigger] target[a]).id
                != (#[trigger] target[b]).id by {
                assert(start.windows[a].id != start.windows[b].id);
            }
        }
        self.active_window_id = Some(window_id);
        self.status_line_dirty = true;
    }

    fn set_paused(&mut self, pane_id: &str, paused: bool) -> (r: bool)
        requires
            old(self).wf(),
        ensures
            final(self).wf(),
            final(self)@ == flow_step(old(self)@, pane_id@, paused).0,
            r == flow_step(old(self)@, pane_id@, paused).1.state_changed,
    {
        let i = self.find_pane(pane_id);
        if i < self.panes.len() {
            let ghost before = self.panes@;
            self.panes[i].paused = paused;
            proof {
                lemma_pane_replaced(before, i as int, self.panes@[i as int]);
                assert(self.panes@ =~= before.update(i as int, self.panes@[i as int]));
            }
            true
        } else {
            false
        }
    }
}

fn line_is_listed(line: &Vec<char>, mark: char) -> (r: bool)
    ensures
        r == (text::starts_with(line@, seq![mark]) && line@.contains(',')),
{
    if !(line.len() > 0 && line[0] == mark) {
        assert(!text::starts_with(line@, seq![mark])) by {
            if text::starts_with(line@, seq![mark]) {
                assert(line@.subrange(0, 1)[0] == mark);
            }
        }
        return false;
    }
    assert(text::starts_with(line@, seq![mark])) by {
        assert(line@.subrange(0, 1) =~= seq![mark]);
    }
    text::has_char(line.as_slice(), ',')
}

fn all_lines_listed(lines: &Vec<Vec<char>>, mark: char) -> (r: bool)
    ensures
        r == all_listed(text::views(lines@), mark, 0),
{
    let mut k: usize = 0;
    while k < lines.len()
        invariant
            k <= lines@.len(),
            all_listed(text::views(lines@), mark, 0) == all_listed(
                text::views(lines@),
                mark,
                k as int,
            ),
        decreases lines@.len() - k,
    {
        assert(text::views(lines@)[k as int] == lines@[k as int]@);
        if !line_is_listed(&lines[k], mark) {
            return false;
        }
        k += 1;
    }
    true
}

/// Whether `output` is taken for the answer to `capture-pane`.
pub fn looks_like_capture_output(output: &str) -> (r: bool)
    ensures
        r == looks_like_capture(output@),
{
    if output.is_empty() {
        return false;
    }
    let chars = text::chars_of(output);
    let lines = text::split_lines(chars.as_slice());
    if lines.len() == 0 {
        return false;
    }
    !all_lines_listed(&lines, '%') && !all_lines_listed(&lines, '@')
}

fn push_ascii_decimal(out: &mut Vec<u8>, n: u64)
    ensures
        final(out)@ == old(out)@ + ascii(text::decimal(n as nat)),
{
    let mut digits: Vec<char> = Vec::new();
    text::push_decimal(&mut digits, n);
    assert(digits@ =~= text::decimal(n as nat));
    let mut i: usize = 0;
    while i < digits.len()
        invariant
            i <= digits@.len(),
            out@ == old(out)@ + ascii(digits@).subrange(0, i as int),
        decreases digits@.len() - i,
    {
        out.push(digits[i] as u8);
        i += 1;
        assert(out@ =~= old(out)@ + ascii(digits@).subrange(0, i as int));
    }
    assert(ascii(digits@).subrange(0, digits@.len() as int) =~= ascii(digits@));
}

fn cursor_home_bytes(row: u32, col: u32) -> (out: Vec<u8>)
    ensures
        out@ == cursor_home(row, col),
{
    let mut out: Vec<u8> = Vec::new();
    out.push(0x1b);
    out.push(0x5b);
    assert(out@ =~= seq![0x1bu8, 0x5bu8]);
    push_ascii_decimal(&mut out, row as u64 + 1);
    out.push(0x3b);
    push_ascii_decimal(&mut out, col as u64 + 1);
    out.push(0x48);
    assert(out@ =~= cursor_home(row, col));
    out
}

fn contains_text(list: &Vec<String>, id: &str) -> (r: bool)
    ensures
        r == text::str_views(list@).contains(id@),
{
    let mut k: usize = 0;
    while k < list.len()
        invariant
            k <= list@.len(),
            forall|j: int| 0 <= j < k ==> text::str_views(list@)[j] != id@,
        decreases list@.len() - k,
    {
        if text::str_eq(list[k].as_str(), id) {
            assert(text::str_views(list@)[k as int] == id@);
            return true;
        }
        k += 1;
    }
    false
}

/// What follows index `k` of the panes kept after a listing depends on the
/// panes from `k` on alone.
proof fn lemma_panes_kept_suffix(
    a: Seq<PaneView>,
    b: Seq<PaneView>,
    seen: Seq<Seq<char>>,
    ka: int,
    kb: int,
)
    requires
        0 <= ka <= a.len(),
        0 <= kb <= b.len(),
        a.subrange(ka, a.len() as int) == b.subrange(kb, b.len() as int),
    ensures
        panes_kept(a, seen, ka) == panes_kept(b, seen, kb),
    decreases a.len() - ka,
{
    let sa = a.subrange(ka, a.len() as int);
    let sb = b.subrange(kb, b.len() as int);
    assert(sa.len() == sb.len());
    if ka < a.len() {
        assert(sa[0] == sb[0]);
        assert(a.subrange(ka + 1, a.len() as int) =~= sa.subrange(1, sa.len() as int));
        assert(b.subrange(kb + 1, b.len() as int) =~= sb.subrange(1, sb.len() as int));
        lemma_panes_kept_suffix(a, b, seen, ka + 1, kb + 1);
    }
}

impl StateAggregator {
    fn apply_capture(&mut self, i: usize, bytes: &[u8])
        requires
            old(self).wf(),
            i < old(self).panes@.len(),
        ensures
            final(self).wf(),
            final(self)@ == (AggView {
                panes: old(self)@.panes.update(
                    i as int,
                    capture_applied(old(self)@.panes[i as int], bytes@),
                ),
                ..old(self)@
            }),
    {
        let ghost before = self.panes@;
        assert(self@.panes[i as int] == before[i as int]@);
        let pane = &mut self.panes[i];
        if pane.in_mode {
            pane.process_copy_mode_capture(bytes);
        } else {
            pane.reset_and_process_capture(bytes);
            let home = cursor_home_bytes(pane.tmux_cursor_y, pane.tmux_cursor_x);
            terminal::term_process(&mut pane.terminal, home.as_slice());
        }
        proof {
            lemma_pane_replaced(before, i as int, self.panes@[i as int]);
            assert(self.panes@ =~= before.update(i as int, self.panes@[i as int]));
        }
    }

    fn apply_pane_line(&mut self, l: PaneLine) -> (needs_capture: bool)
        requires
            old(self).wf(),
        ensures
            final(self).wf(),
            (final(self)@.panes, needs_capture) == pane_line_step(old(self)@.panes, l@),
            final(self)@ == (AggView { panes: final(self)@.panes, ..old(self)@ }),
    {
        let i = self.find_pane(l.id.as_str());
        let is_new = i >= self.panes.len();
        let ghost start = self.panes@;
        if is_new {
            let fresh = PaneState::new(l.id.as_str(), l.width, l.height);
            self.panes.push(fresh);
            proof {
                lemma_pane_position(pane_state_views(start), l.id@, 0);
                assert(pane_state_views(self.panes@) =~= pane_state_views(start).push(fresh@));
                assert forall|a: int, b: int|
                    0 <= a < b < self.panes@.len() implies (#[trigger] self@.panes[a]).id != (
                #[trigger] self@.panes[b]).id by {
                    if b < start.len() {
                        assert(pane_state_views(start)[a].id != pane_state_views(start)[b].id);
                    } else {
                        assert(pane_state_views(start)[a].id != l.id@);
                    }
                }
                assert forall|j: int| 0 <= j < self.panes@.len() implies (
                #[trigger] self.panes@[j]).wf() by {
                    if j < start.len() {
                        assert(self.panes@[j] == start[j]);
                    }
                }
            }
        }
        let ghost before = self.panes@;
        let ghost prior = before[i as int]@;
        let pane = &mut self.panes[i];
        let was_in_mode = pane.in_mode;
        let was_resized = pane.resize(l.width, l.height);
        pane.index = l.index;
        pane.x = l.x;
        pane.y = l.y;
        pane.active = l.active;
        pane.command = l.command;
        pane.title = l.title;
        pane.border_title = l.border_title;
        pane.in_mode = l.in_mode;
        if was_in_mode && !l.in_mode {
            pane.copy_mode_content = None;
        }
        pane.copy_cursor_x = l.copy_cursor_x;
        pane.copy_cursor_y = l.copy_cursor_y;
        pane.window_id = l.window_id;
        pane.alternate_on = l.alternate_on;
        pane.mouse_any_flag = l.mouse_any_flag;
        pane.group_id = l.group_id;
        pane.group_tab_index = l.group_tab_index;
        pane.tmux_cursor_x = l.cursor_x;
        pane.tmux_cursor_y = l.cursor_y;
        proof {
            assert(self.panes@[i as int]@ == line_applied(prior, l@));
            lemma_pane_replaced(before, i as int, self.panes@[i as int]);
            assert(self.panes@ =~= before.update(i as int, self.panes@[i as int]));
            if is_new {
                assert(pane_state_views(start).push(prior).update(
                    i as int,
                    line_applied(prior, l@),
                ) =~= pane_state_views(start).push(line_applied(prior, l@)));
            }
        }
        is_new || was_resized
    }

    fn apply_pane_lines(&mut self, lines: &Vec<Vec<char>>) -> (r: (Vec<String>, Vec<String>))
        requires
            old(self).wf(),
        ensures
            final(self).wf(),
            final(self)@ == (AggView { panes: final(self)@.panes, ..old(self)@ }),
            (PaneFold {
                panes: final(self)@.panes,
                seen: text::str_views(r.0@),
                refresh: text::str_views(r.1@),
            }) == pane_fold(
                PaneFold { panes: old(self)@.panes, seen: Seq::empty(), refresh: Seq::empty() },
                text::views(lines@),
                0,
            ),
    {
        let mut seen: Vec<String> = Vec::new();
        let mut refresh: Vec<String> = Vec::new();
        let ghost start = self@;
        let ghost all = text::views(lines@);
        assert(text::str_views(seen@) =~= Seq::empty());
        assert(text::str_views(refresh@) =~= Seq::empty());
        let mut k: usize = 0;
        while k < lines.len()
            invariant
                k <= lines@.len(),
                all == text::views(lines@),
                self.wf(),
                self@ == (AggView { panes: self@.panes, ..start }),
                pane_fold(
                    PaneFold { panes: start.panes, seen: Seq::empty(), refresh: Seq::empty() },
                    all,
                    0,
                ) == pane_fold(
                    PaneFold {
                        panes: self@.panes,
                        seen: text::str_views(seen@),
                        refresh: text::str_views(refresh@),
                    },
                    all,
                    k as int,
                ),
            decreases lines@.len() - k,
        {
            let line = &lines[k];
            assert(all[k as int] == line@);
            if text::has_char(line.as_slice(), '%') && text::has_char(line.as_slice(), ',') {
                if let Some(l) = parse_pane_line(line.as_slice()) {
                    let id = l.id.clone();
                    let ghost was_seen = text::str_views(seen@);
                    let ghost was_refresh = text::str_views(refresh@);
                    let needs_capture = self.apply_pane_line(l);
                    if needs_capture {
                        refresh.push(id.clone());
                        assert(text::str_views(refresh@) =~= was_refresh.push(id@));
                    }
                    seen.push(id);
                    assert(text::str_views(seen@) =~= was_seen.push(id@));
                }
            }
            k += 1;
        }
        (seen, refresh)
    }

    fn retain_listed(&mut self, seen: &Vec<String>)
        requires
            old(self).wf(),
        ensures
            final(self).wf(),
            final(self)@ == (AggView {
                panes: panes_kept(old(self)@.panes, text::str_views(seen@), 0),
                ..old(self)@
            }),
    {
        let ghost start = self@;
        let ghost listed = text::str_views(seen@);
        let mut i: usize = 0;
        assert(self@.panes.subrange(0, 0) =~= Seq::empty());
        while i < self.panes.len()
            invariant
                i <= self.panes@.len(),
                self.wf(),
                listed == text::str_views(seen@),
                self@ == (AggView { panes: self@.panes, ..start }),
                panes_kept(start.panes, listed, 0) == self@.panes.subrange(0, i as int)
                    + panes_kept(self@.panes, listed, i as int),
            decreases self.panes@.len() - i,
        {
            let ghost before = self.panes@;
            let ghost views = self@.panes;
            assert(views[i as int] == before[i as int]@);
            let keep = contains_text(seen, self.panes[i].id.as_str())
                || self.panes[i].window_id.as_str().is_empty();
            if !keep {
                self.panes.remove(i);
                proof {
                    lemma_pane_removed(before, i as int);
                    assert(self@.panes.subrange(0, i as int) =~= views.subrange(0, i as int));
                    assert(views.subrange(i + 1, views.len() as int) =~= self@.panes.subrange(
                        i as int,
                        self@.panes.len() as int,
                    ));
                    lemma_panes_kept_suffix(views, self@.panes, listed, i + 1, i as int);
                }
            } else {
                assert(self@.panes.subrange(0, i + 1) =~= self@.panes.subrange(0, i as int).push(
                    views[i as int],
                ));
                assert(self@.panes.subrange(0, i as int) + (seq![views[i as int]] + panes_kept(
                    views,
                    listed,
                    i + 1,
                )) =~= self@.panes.subrange(0, i + 1) + panes_kept(views, listed, i + 1));
                i += 1;
            }
        }
        assert(self@.panes.subrange(0, i as int) =~= self@.panes);
        assert(self@.panes + Seq::<PaneView>::empty() =~= self@.panes);
    }

    fn apply_window_line(&mut self, l: WindowLine)
        requires
            old(self).wf(),
        ensures
            final(self).wf(),
            final(self)@ == (AggView {
                windows: window_line_step(old(self)@.windows, l@),
                active_window_id: if l.active {
                    Some(l.id@)
                } else {
                    old(self)@.active_window_id
                },
                ..old(self)@
            }),
    {
        let i = self.find_window(l.id.as_str());
        let ghost start = self.windows@;
        if i >= self.windows.len() {
            let fresh = WindowState::new(l.id.as_str());
            self.windows.push(fresh);
            proof {
                lemma_window_position(window_state_views(start), l.id@, 0);
                assert(window_state_views(self.windows@) =~= window_state_views(start).push(fresh@));
                assert forall|a: int, b: int|
                    0 <= a < b < self.windows@.len() implies (#[trigger] self@.windows[a]).id != (
                #[trigger] self@.windows[b]).id by {
                    if b < start.len() {
                        assert(window_state_views(start)[a].id != window_state_views(start)[b].id);
                    } else {
                        assert(window_state_views(start)[a].id != l.id@);
                    }
                }
            }
        }
        let ghost before = self.windows@;
        let ghost prior = before[i as int]@;
        if l.active {
            self.active_window_id = Some(l.id.clone());
        }
        let window = &mut self.windows[i];
        window.index = l.index;
        window.name = l.name;
        window.active = l.active;
        window.float_parent = l.float_parent;
        window.float_width = l.float_width;
        window.float_height = l.float_height;
        proof {
            lemma_window_replaced(before, i as int, self.windows@[i as int]);
            assert(self.windows@ =~= before.update(i as int, self.windows@[i as int]));
            if i >= start.len() {
                assert(window_state_views(start).push(prior).update(
                    i as int,
                    window_line_applied(prior, l@),
                ) =~= window_state_views(start).push(window_line_applied(prior, l@)));
            }
        }
    }

    fn apply_window_lines(&mut self, lines: &Vec<Vec<char>>)
        requires
            old(self).wf(),
        ensures
            final(self).wf(),
            final(self)@ == (AggView {
                windows: final(self)@.windows,
                active_window_id: final(self)@.active_window_id,
                status_dirty: final(self)@.status_dirty,
                ..old(self)@
            }),
            (WindowFold {
                windows: final(self)@.windows,
                active: final(self)@.active_window_id,
                any: final(self)@.status_dirty,
            }) == window_fold(
                WindowFold {
                    windows: old(self)@.windows,
                    active: old(self)@.active_window_id,
                    any: old(self)@.status_dirty,
                },
                text::views(lines@),
                0,
            ),
    {
        let ghost start = self@;
        let ghost all = text::views(lines@);
        let mut k: usize = 0;
        while k < lines.len()
            invariant
                k <= lines@.len(),
                all == text::views(lines@),
                self.wf(),
                self@ == (AggView {
                    windows: self@.windows,
                    active_window_id: self@.active_window_id,
                    status_dirty: self@.status_dirty,
                    ..start
                }),
                window_fold(
                    WindowFold {
                        windows: start.windows,
                        active: start.active_window_id,
                        any: start.status_dirty,
                    },
                    all,
                    0,
                ) == window_fold(
                    WindowFold {
                        windows: self@.windows,
                        active: self@.active_window_id,
                        any: self@.status_dirty,
                    },
                    all,
                    k as int,
                ),
            decreases lines@.len() - k,
        {
            let line = &lines[k];
            assert(all[k as int] == line@);
            if text::has_char(line.as_slice(), '@') && text::has_char(line.as_slice(), ',') {
                if let Some(l) = parse_window_line(line.as_slice()) {
                    self.apply_window_line(l);
                }
                self.status_line_dirty = true;
            }
            k += 1;
        }
    }
}

/// Whether any line may have been one of a listing of windows does not
/// depend on what was known before, except that it stays true.
pub proof fn lemma_window_fold_any(acc: WindowFold, lines: Seq<Seq<char>>, k: int)
    requires
        0 <= k <= lines.len(),
    ensures
        window_fold(acc, lines, k).windows == window_fold(
            WindowFold { any: false, ..acc },
            lines,
            k,
        ).windows,
        window_fold(acc, lines, k).active == window_fold(
            WindowFold { any: false, ..acc },
            lines,
            k,
        ).active,
        window_fold(acc, lines, k).any == (acc.any || window_fold(
            WindowFold { any: false, ..acc },
            lines,
            k,
        ).any),
    decreases lines.len() - k,
{
    if k < lines.len() {
        let a = window_fold_step(acc, lines[k]);
        let b = window_fold_step(WindowFold { any: false, ..acc }, lines[k]);
        lemma_window_fold_any(a, lines, k + 1);
        lemma_window_fold_any(b, lines, k + 1);
        assert((WindowFold { any: false, ..a }) == (WindowFold { any: false, ..b }));
    }
}

impl StateAggregator {
    fn handle_command_response(&mut self, output: &str) -> (refresh: Vec<String>)
        requires
            old(self).wf(),
        ensures
            final(self).wf(),
            final(self)@ == listing_step(old(self)@, output@).0,
            text::str_views(refresh@) == listing_step(old(self)@, output@).1,
    {
        let chars = text::chars_of(output);
        let lines = text::split_lines(chars.as_slice());
        let (seen, refresh) = self.apply_pane_lines(&lines);
        if seen.len() > 0 {
            self.retain_listed(&seen);
        }
        proof {
            lemma_window_fold_any(
                WindowFold {
                    windows: self@.windows,
                    active: self@.active_window_id,
                    any: self@.status_dirty,
                },
                text::views(lines@),
                0,
            );
        }
        self.apply_window_lines(&lines);
        refresh
    }

    fn handle_response(&mut self, output: String, success: bool) -> (r: ProcessEventResult)
        requires
            old(self).wf(),
        ensures
            final(self).wf(),
            (final(self)@, r@) == response_step(old(self)@, output@, success),
    {
        if self.pending_captures.len() > 0 && success && looks_like_capture_output(
            output.as_str(),
        ) {
            let ghost before = self@.pending;
            if let Some(pane_id) = self.pending_captures.pop_front() {
                assert(self@.pending =~= before.subrange(1, before.len() as int));
                assert(pane_id@ == before[0]);
                let i = self.find_pane(pane_id.as_str());
                if i < self.panes.len() {
                    self.apply_capture(i, output.as_str().as_bytes());
                }
                let r = ProcessEventResult {
                    state_changed: true,
                    panes_needing_refresh: Vec::new(),
                    change_type: ChangeType::PaneOutput { pane_id },
                };
                assert(r@.refresh =~= Seq::empty());
                return r;
            }
        }
        let refresh = if success {
            self.handle_command_response(output.as_str())
        } else {
            Vec::new()
        };
        assert(!success ==> text::str_views(refresh@) =~= Seq::empty());
        ProcessEventResult {
            state_changed: true,
            panes_needing_refresh: refresh,
            change_type: ChangeType::Full,
        }
    }
}

fn report(change_type: ChangeType) -> (r: ProcessEventResult)
    ensures
        r@ == changed(change_type@),
{
    let r = ProcessEventResult {
        state_changed: true,
        panes_needing_refresh: Vec::new(),
        change_type,
    };
    assert(r@.refresh =~= Seq::empty());
    r
}

impl StateAggregator {
    /// Takes an event of control mode. Reports whether clients are to be
    /// told of a change, of what kind the change is, and which panes are to
    /// be captured anew.
    pub fn process_event(&mut self, event: ControlModeEvent) -> (r: ProcessEventResult)
        requires
            old(self).wf(),
        ensures
            final(self).wf(),
            (final(self)@, r@) == event_step(old(self)@, event@),
    {
        match event {
            ControlModeEvent::Output { pane_id, content } => {
                if self.handle_output(pane_id.as_str(), content.as_slice()) {
                    report(ChangeType::PaneOutput { pane_id })
                } else {
                    ProcessEventResult::default()
                }
            },
            ControlModeEvent::ExtendedOutput { pane_id, age_ms, content } => {
                if self.handle_output(pane_id.as_str(), content.as_slice()) {
                    report(ChangeType::PaneOutput { pane_id })
                } else {
                    ProcessEventResult::default()
                }
            },
            ControlModeEvent::LayoutChange { window_id, layout, visible_layout, flags } => {
                let refresh = self.handle_layout_change(window_id.as_str(), layout.as_str());
                ProcessEventResult {
                    state_changed: true,
                    panes_needing_refresh: refresh,
                    change_type: ChangeType::PaneLayout,
                }
            },
            ControlModeEvent::WindowAdd { window_id } => {
                self.handle_window_add(window_id.as_str());
                ProcessEventResult::default()
            },
            ControlModeEvent::WindowClose { window_id } => {
                self.handle_window_close(window_id.as_str());
                report(ChangeType::Window)
            },
            ControlModeEvent::WindowRenamed { window_id, name } => {
                self.handle_window_renamed(window_id.as_str(), name);
                report(ChangeType::Window)
            },
            ControlModeEvent::WindowPaneChanged { window_id, pane_id } => {
                self.set_active_pane(window_id.as_str(), pane_id.as_str());
                report(ChangeType::PaneFocus)
            },
            ControlModeEvent::PaneModeChanged { pane_id } => report(ChangeType::PaneFocus),
            ControlModeEvent::SessionWindowChanged { session_id, window_id } => {
                self.set_active_window(window_id);
                report(ChangeType::Window)
            },
            ControlModeEvent::CommandResponse { timestamp, command_num, output, success } => {
                self.handle_response(output, success)
            },
            ControlModeEvent::SessionsChanged => ProcessEventResult::default(),
            ControlModeEvent::SessionChanged { session_id, session_name } => {
                self.session_name = session_name;
                report(ChangeType::Session)
            },
            ControlModeEvent::SessionRenamed { name } => {
                self.session_name = name;
                report(ChangeType::Session)
            },
            ControlModeEvent::Exit { reason } => report(ChangeType::Session),
            ControlModeEvent::PopupOpen { popup_id, width, height, x, y, command } => {
                self.popup = Some(PopupState::new(popup_id.as_str(), width, height, x, y, command));
                report(ChangeType::Full)
            },
            ControlModeEvent::PopupOutput { popup_id, content } => {
                let mut hit = false;
                match &mut self.popup {
                    Some(popup) => {
                        if text::str_eq(popup.id.as_str(), popup_id.as_str()) {
                            popup.process_output(content.as_slice());
                            hit = true;
                        }
                    },
                    None => {},
                }
                if hit {
                    report(ChangeType::Full)
                } else {
                    ProcessEventResult::default()
                }
            },
            ControlModeEvent::PopupClose { popup_id } => {
                let hit = match &self.popup {
                    Some(popup) => text::str_eq(popup.id.as_str(), popup_id.as_str()),
                    None => false,
                };
                if hit {
                    self.popup = None;
                    report(ChangeType::Full)
                } else {
                    ProcessEventResult::default()
                }
            },
            ControlModeEvent::Pause { pane_id } => {
                if self.set_paused(pane_id.as_str(), true) {
                    report(ChangeType::FlowPause { pane_id })
                } else {
                    ProcessEventResult::default()
                }
            },
            ControlModeEvent::Continue { pane_id } => {
                if self.set_paused(pane_id.as_str(), false) {
                    report(ChangeType::FlowContinue { pane_id })
                } else {
                    ProcessEventResult::default()
                }
            },
            _ => ProcessEventResult::default(),
        }
    }
}

} // verus!
