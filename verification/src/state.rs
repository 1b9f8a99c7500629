//! The state aggregator: the model of a session that the events of control
//! mode are folded into.

use crate::model::{TmuxState, TmuxStateView};
use crate::pane::{PaneState, PaneView, PopupState, PopupView, WindowState, WindowView};
use crate::text;
use std::collections::VecDeque;
use vstd::prelude::*;

verus! {

/// The kind of change that an event made.
#[derive(Debug, PartialEq, Eq)]
pub enum ChangeType {
    /// Nothing that clients see has changed.
    Unchanged,
    /// A pane has new output.
    PaneOutput { pane_id: String },
    /// Panes have moved or changed size.
    PaneLayout,
    /// A window was closed or renamed, or another window became active.
    Window,
    /// Another pane has the focus, or a pane changed its mode.
    PaneFocus,
    /// The session changed.
    Session,
    /// Much may have changed.
    Full,
    /// Flow control paused a pane.
    FlowPause { pane_id: String },
    /// Flow control resumed a pane.
    FlowContinue { pane_id: String },
}

/// The mathematical value of a [`ChangeType`].
pub enum ChangeView {
    Unchanged,
    PaneOutput { pane_id: Seq<char> },
    PaneLayout,
    Window,
    PaneFocus,
    Session,
    Full,
    FlowPause { pane_id: Seq<char> },
    FlowContinue { pane_id: Seq<char> },
}

impl View for ChangeType {
    type V = ChangeView;

    open spec fn view(&self) -> ChangeView {
        match *self {
            ChangeType::Unchanged => ChangeView::Unchanged,
            ChangeType::PaneOutput { pane_id } => ChangeView::PaneOutput { pane_id: pane_id@ },
            ChangeType::PaneLayout => ChangeView::PaneLayout,
            ChangeType::Window => ChangeView::Window,
            ChangeType::PaneFocus => ChangeView::PaneFocus,
            ChangeType::Session => ChangeView::Session,
            ChangeType::Full => ChangeView::Full,
            ChangeType::FlowPause { pane_id } => ChangeView::FlowPause { pane_id: pane_id@ },
            ChangeType::FlowContinue { pane_id } => ChangeView::FlowContinue { pane_id: pane_id@ },
        }
    }
}

impl Default for ChangeType {
    fn default() -> (c: ChangeType)
        ensures
            c@ == ChangeView::Unchanged,
    {
        ChangeType::Unchanged
    }
}

/// What the aggregator reports of one event.
#[derive(Debug)]
pub struct ProcessEventResult {
    /// Whether clients are to be told of a change.
    pub state_changed: bool,
    /// The panes whose content is to be captured anew.
    pub panes_needing_refresh: Vec<String>,
    /// The kind of change.
    pub change_type: ChangeType,
}

/// The mathematical value of a [`ProcessEventResult`].
pub struct ResultView {
    pub state_changed: bool,
    pub refresh: Seq<Seq<char>>,
    pub change: ChangeView,
}

impl View for ProcessEventResult {
    type V = ResultView;

    open spec fn view(&self) -> ResultView {
        ResultView {
            state_changed: self.state_changed,
            refresh: text::str_views(self.panes_needing_refresh@),
            change: self.change_type@,
        }
    }
}

/// The report of an event that changed nothing that clients see.
pub open spec fn no_change() -> ResultView {
    ResultView { state_changed: false, refresh: Seq::empty(), change: ChangeView::Unchanged }
}

/// The report of a change of kind `change` that asks for no capture.
pub open spec fn changed(change: ChangeView) -> ResultView {
    ResultView { state_changed: true, refresh: Seq::empty(), change }
}

impl Default for ProcessEventResult {
    fn default() -> (r: ProcessEventResult)
        ensures
            r@ == no_change(),
    {
        let r = ProcessEventResult {
            state_changed: false,
            panes_needing_refresh: Vec::new(),
            change_type: ChangeType::Unchanged,
        };
        assert(r@.refresh =~= Seq::empty());
        r
    }
}

/// The views of the panes in `v`, in order.
pub open spec fn pane_state_views(v: Seq<PaneState>) -> Seq<PaneView> {
    Seq::new(v.len(), |i: int| v[i]@)
}

/// The views of the windows in `v`, in order.
pub open spec fn window_state_views(v: Seq<WindowState>) -> Seq<WindowView> {
    Seq::new(v.len(), |i: int| v[i]@)
}

/// Index of the first pane at or after `from` with the identifier `id`, or
/// the number of panes where there is none.
pub open spec fn pane_position(panes: Seq<PaneView>, id: Seq<char>, from: int) -> int
    decreases panes.len() - from,
{
    if from < 0 || from >= panes.len() {
        panes.len() as int
    } else if panes[from].id == id {
        from
    } else {
        pane_position(panes, id, from + 1)
    }
}

/// Index of the first window at or after `from` with the identifier `id`,
/// or the number of windows where there is none.
pub open spec fn window_position(windows: Seq<WindowView>, id: Seq<char>, from: int) -> int
    decreases windows.len() - from,
{
    if from < 0 || from >= windows.len() {
        windows.len() as int
    } else if windows[from].id == id {
        from
    } else {
        window_position(windows, id, from + 1)
    }
}

pub proof fn lemma_pane_position(panes: Seq<PaneView>, id: Seq<char>, from: int)
    requires
        0 <= from <= panes.len(),
    ensures
        from <= pane_position(panes, id, from) <= panes.len(),
        pane_position(panes, id, from) < panes.len() ==> panes[pane_position(panes, id, from)].id
            == id,
        forall|j: int| from <= j < pane_position(panes, id, from) ==> (#[trigger] panes[j]).id != id,
    decreases panes.len() - from,
{
    if from < panes.len() && panes[from].id != id {
        lemma_pane_position(panes, id, from + 1);
    }
}

pub proof fn lemma_window_position(windows: Seq<WindowView>, id: Seq<char>, from: int)
    requires
        0 <= from <= windows.len(),
    ensures
        from <= window_position(windows, id, from) <= windows.len(),
        window_position(windows, id, from) < windows.len() ==> windows[window_position(
            windows,
            id,
            from,
        )].id == id,
        forall|j: int|
            from <= j < window_position(windows, id, from) ==> (#[trigger] windows[j]).id != id,
    decreases windows.len() - from,
{
    if from < windows.len() && windows[from].id != id {
        lemma_window_position(windows, id, from + 1);
    }
}

/// Whether no two panes have the same identifier.
pub open spec fn panes_distinct(panes: Seq<PaneView>) -> bool {
    forall|i: int, j: int|
        0 <= i < j < panes.len() ==> (#[trigger] panes[i]).id != (#[trigger] panes[j]).id
}

/// Whether no two windows have the same identifier.
pub open spec fn windows_distinct(windows: Seq<WindowView>) -> bool {
    forall|i: int, j: int|
        0 <= i < j < windows.len() ==> (#[trigger] windows[i]).id != (#[trigger] windows[j]).id
}

/// The model of a session.
pub struct StateAggregator {
    /// Name of the session.
    pub session_name: String,
    /// The panes, each identifier once, in the order in which tmux listed
    /// them first.
    pub panes: Vec<PaneState>,
    /// The windows, each identifier once, in the order in which they were
    /// seen first.
    pub windows: Vec<WindowState>,
    /// The active window, if one is known.
    pub active_window_id: Option<String>,
    /// Width of a pane of which tmux has told no width.
    pub default_width: u32,
    /// Height of a pane of which tmux has told no height.
    pub default_height: u32,
    /// The panes of which a capture has been asked for and not yet
    /// received, oldest first.
    pub pending_captures: VecDeque<String>,
    /// The rendered status line as it was fetched last.
    pub cached_status_line: String,
    /// Whether the status line is to be fetched anew.
    pub status_line_dirty: bool,
    /// The snapshot that clients were sent last.
    pub prev_state: Option<TmuxState>,
    /// Sequence number of the update that clients were sent last.
    pub delta_seq: u64,
    /// The popup, if one is open.
    pub popup: Option<PopupState>,
}

/// The mathematical value of a [`StateAggregator`].
pub struct AggView {
    pub session_name: Seq<char>,
    pub panes: Seq<PaneView>,
    pub windows: Seq<WindowView>,
    pub active_window_id: Option<Seq<char>>,
    pub default_width: u32,
    pub default_height: u32,
    pub pending: Seq<Seq<char>>,
    pub status_line: Seq<char>,
    pub status_dirty: bool,
    pub prev: Option<TmuxStateView>,
    pub seq: u64,
    pub popup: Option<PopupView>,
}

/// The view of an optional popup.
pub open spec fn opt_popup_state_view(o: Option<PopupState>) -> Option<PopupView> {
    match o {
        Some(p) => Some(p@),
        None => None,
    }
}

/// The view of an optional snapshot.
pub open spec fn opt_state_view(o: Option<TmuxState>) -> Option<TmuxStateView> {
    match o {
        Some(s) => Some(s@),
        None => None,
    }
}

impl View for StateAggregator {
    type V = AggView;

    open spec fn view(&self) -> AggView {
        AggView {
            session_name: self.session_name@,
            panes: pane_state_views(self.panes@),
            windows: window_state_views(self.windows@),
            active_window_id: text::opt_view(self.active_window_id),
            default_width: self.default_width,
            default_height: self.default_height,
            pending: text::str_views(self.pending_captures@),
            status_line: self.cached_status_line@,
            status_dirty: self.status_line_dirty,
            prev: opt_state_view(self.prev_state),
            seq: self.delta_seq,
            popup: opt_popup_state_view(self.popup),
        }
    }
}

/// The model of a session named `session_name` of which nothing is known
/// yet.
pub open spec fn empty_model(session_name: Seq<char>) -> AggView {
    AggView {
        session_name,
        panes: Seq::empty(),
        windows: Seq::empty(),
        active_window_id: None,
        default_width: 80,
        default_height: 24,
        pending: Seq::empty(),
        status_line: Seq::empty(),
        status_dirty: true,
        prev: None,
        seq: 0,
        popup: None,
    }
}

/// Whether the panes in `v` are all well formed.
pub open spec fn panes_wf(v: Seq<PaneState>) -> bool {
    forall|i: int| 0 <= i < v.len() ==> (#[trigger] v[i]).wf()
}

impl StateAggregator {
    /// Whether the model is well formed: every pane and the popup are well
    /// formed, no two panes and no two windows have the same identifier, and
    /// the sequence number is 0 as long as no snapshot has been sent.
    pub open spec fn wf(&self) -> bool {
        &&& panes_wf(self.panes@)
        &&& panes_distinct(self@.panes)
        &&& windows_distinct(self@.windows)
        &&& match self.popup {
            Some(p) => p.wf(),
            None => true,
        }
        &&& (self.prev_state.is_none() ==> self.delta_seq == 0)
    }

    /// The model of the session with the default name.
    pub fn new() -> (a: StateAggregator)
        ensures
            a.wf(),
            a@ == empty_model(crate::DEFAULT_SESSION_NAME@),
    {
        Self::with_session_name(crate::DEFAULT_SESSION_NAME)
    }

    /// The model of the session named `session_name`.
    pub fn with_session_name(session_name: &str) -> (a: StateAggregator)
        ensures
            a.wf(),
            a@ == empty_model(session_name@),
    {
        let a = StateAggregator {
            session_name: text::string_of_str(session_name),
            panes: Vec::new(),
            windows: Vec::new(),
            active_window_id: None,
            default_width: 80,
            default_height: 24,
            pending_captures: VecDeque::new(),
            cached_status_line: String::new(),
            status_line_dirty: true,
            prev_state: None,
            delta_seq: 0,
            popup: None,
        };
        assert(a@.panes =~= Seq::empty());
        assert(a@.windows =~= Seq::empty());
        assert(a@.pending =~= Seq::empty());
        a
    }

    /// Asks for the status line to be fetched anew.
    pub fn mark_status_line_dirty(&mut self)
        ensures
            final(self)@ == (AggView { status_dirty: true, ..old(self)@ }),
            old(self).wf() ==> final(self).wf(),
    {
        self.status_line_dirty = true;
    }

    /// Whether the status line is to be fetched anew.
    pub fn status_line_dirty(&self) -> (r: bool)
        ensures
            r == self@.status_dirty,
    {
        self.status_line_dirty
    }

    /// Takes a status line that was fetched just now.
    pub fn set_status_line(&mut self, line: String)
        ensures
            final(self)@ == (AggView { status_line: line@, status_dirty: false, ..old(self)@ }),
            old(self).wf() ==> final(self).wf(),
    {
        self.cached_status_line = line;
        self.status_line_dirty = false;
    }

    /// Notes that captures of the panes `pane_ids` have been asked for, in
    /// this order. The answers are matched to the panes first in, first out.
    pub fn queue_captures(&mut self, pane_ids: &[String])
        ensures
            final(self)@ == (AggView {
                pending: old(self)@.pending + text::str_views(pane_ids@),
                ..old(self)@
            }),
            old(self).wf() ==> final(self).wf(),
    {
        let mut i: usize = 0;
        while i < pane_ids.len()
            invariant
                i <= pane_ids@.len(),
                self@ == (AggView {
                    pending: old(self)@.pending + text::str_views(pane_ids@).subrange(0, i as int),
                    ..old(self)@
                }),
                old(self).wf() ==> self.wf(),
                self.panes == old(self).panes,
                self.popup == old(self).popup,
                self.prev_state == old(self).prev_state,
                self.delta_seq == old(self).delta_seq,
            decreases pane_ids@.len() - i,
        {
            let ghost before = self@.pending;
            self.pending_captures.push_back(pane_ids[i].clone());
            assert(self@.pending =~= before.push(pane_ids@[i as int]@));
            i += 1;
            assert(self@.pending =~= old(self)@.pending + text::str_views(pane_ids@).subrange(
                0,
                i as int,
            ));
        }
        assert(text::str_views(pane_ids@).subrange(0, pane_ids@.len() as int) =~= text::str_views(
            pane_ids@,
        ));
    }

    /// Forgets the snapshot that clients were sent last, so that the next
    /// update is a full one.
    pub fn reset_delta_tracking(&mut self)
        ensures
            final(self)@ == (AggView { prev: None, seq: 0, ..old(self)@ }),
            old(self).wf() ==> final(self).wf(),
    {
        self.prev_state = None;
        self.delta_seq = 0;
    }

    /// Sets the size of a pane of which tmux has told no size.
    pub fn set_default_dimensions(&mut self, width: u32, height: u32)
        ensures
            final(self)@ == (AggView {
                default_width: width,
                default_height: height,
                ..old(self)@
            }),
            old(self).wf() ==> final(self).wf(),
    {
        self.default_width = width;
        self.default_height = height;
    }

    /// Forgets panes, windows, the popup and the pending captures, as before
    /// a new connection. The snapshot that clients were sent last stays.
    pub fn clear(&mut self)
        ensures
            final(self)@ == (AggView {
                panes: Seq::empty(),
                windows: Seq::empty(),
                active_window_id: None,
                pending: Seq::empty(),
                status_line: Seq::empty(),
                status_dirty: true,
                popup: None,
                ..old(self)@
            }),
            old(self).wf() ==> final(self).wf(),
    {
        self.panes.clear();
        self.windows.clear();
        self.active_window_id = None;
        self.pending_captures.clear();
        self.cached_status_line = String::new();
        self.status_line_dirty = true;
        self.popup = None;
        assert(self@.panes =~= Seq::empty());
        assert(self@.windows =~= Seq::empty());
        assert(self@.pending =~= Seq::empty());
    }

    /// Whether a popup is open.
    pub fn has_popup(&self) -> (r: bool)
        ensures
            r == self@.popup.is_some(),
    {
        self.popup.is_some()
    }

    /// The popup, if one is open.
    pub fn get_popup(&self) -> (r: Option<&PopupState>)
        ensures
            match r {
                Some(p) => self.popup == Some(*p),
                None => self.popup.is_none(),
            },
    {
        self.popup.as_ref()
    }

    /// Index of the pane with the identifier `id`, or the number of panes
    /// where there is none.
    pub fn find_pane(&self, id: &str) -> (i: usize)
        ensures
            i == pane_position(self@.panes, id@, 0),
            i <= self.panes@.len(),
            i < self.panes@.len() ==> self.panes@[i as int].id@ == id@,
    {
        let mut i: usize = 0;
        while i < self.panes.len()
            invariant
                i <= self.panes@.len(),
                pane_position(self@.panes, id@, 0) == pane_position(self@.panes, id@, i as int),
            decreases self.panes@.len() - i,
        {
            if text::str_eq(self.panes[i].id.as_str(), id) {
                return i;
            }
            i += 1;
        }
        i
    }

    /// Index of the window with the identifier `id`, or the number of
    /// windows where there is none.
    pub fn find_window(&self, id: &str) -> (i: usize)
        ensures
            i == window_position(self@.windows, id@, 0),
            i <= self.windows@.len(),
            i < self.windows@.len() ==> self.windows@[i as int].id@ == id@,
    {
        let mut i: usize = 0;
        while i < self.windows.len()
            invariant
                i <= self.windows@.len(),
                window_position(self@.windows, id@, 0) == window_position(
                    self@.windows,
                    id@,
                    i as int,
                ),
            decreases self.windows@.len() - i,
        {
            if text::str_eq(self.windows[i].id.as_str(), id) {
                return i;
            }
            i += 1;
        }
        i
    }

    /// The pane with the identifier `pane_id`, if there is one.
    pub fn get_pane(&self, pane_id: &str) -> (r: Option<&PaneState>)
        ensures
            match r {
                Some(p) => pane_position(self@.panes, pane_id@, 0) < self.panes@.len() && *p
                    == self.panes@[pane_position(self@.panes, pane_id@, 0)],
                None => pane_position(self@.panes, pane_id@, 0) == self.panes@.len(),
            },
    {
        let i = self.find_pane(pane_id);
        if i < self.panes.len() {
            Some(&self.panes[i])
        } else {
            None
        }
    }

    /// The pane with the identifier `pane_id`, to be changed in place, if
    /// there is one. What the caller leaves in it takes the place of the
    /// pane; nothing else changes.
    pub fn get_pane_mut(&mut self, pane_id: &str) -> (r: Option<&mut PaneState>)
        ensures
            match r {
                Some(p) => pane_position(old(self)@.panes, pane_id@, 0) < old(self).panes@.len()
                    && *p == old(self).panes@[pane_position(old(self)@.panes, pane_id@, 0)]
                    && final(self).panes@ == old(self).panes@.update(
                    pane_position(old(self)@.panes, pane_id@, 0),
                    *final(p),
                ),
                None => pane_position(old(self)@.panes, pane_id@, 0) == old(self).panes@.len()
                    && final(self).panes@ == old(self).panes@,
            },
            final(self)@ == (AggView { panes: pane_state_views(final(self).panes@), ..old(self)@ }),
    {
        let i = self.find_pane(pane_id);
        if i < self.panes.len() {
            Some(&mut self.panes[i])
        } else {
            None
        }
    }

    /// Whether some pane is in copy mode.
    pub fn has_pane_in_copy_mode(&self) -> (r: bool)
        ensures
            r == exists|i: int| 0 <= i < self@.panes.len() && (#[trigger] self@.panes[i]).in_mode,
    {
        let mut i: usize = 0;
        while i < self.panes.len()
            invariant
                i <= self.panes@.len(),
                forall|j: int| 0 <= j < i ==> !(#[trigger] self@.panes[j]).in_mode,
            decreases self.panes@.len() - i,
        {
            if self.panes[i].in_mode {
                assert(self@.panes[i as int].in_mode);
                return true;
            }
            i += 1;
        }
        false
    }

    /// The panes that are in copy mode and belong to a window, in order.
    pub fn get_panes_in_copy_mode(&self) -> (ids: Vec<String>)
        ensures
            text::str_views(ids@) == copy_mode_panes(self@.panes, 0),
    {
        let mut ids: Vec<String> = Vec::new();
        let mut i: usize = 0;
        while i < self.panes.len()
            invariant
                i <= self.panes@.len(),
                copy_mode_panes(self@.panes, 0) == text::str_views(ids@) + copy_mode_panes(
                    self@.panes,
                    i as int,
                ),
            decreases self.panes@.len() - i,
        {
            let p = &self.panes[i];
            assert(self@.panes[i as int] == p@);
            if p.in_mode && !p.window_id.as_str().is_empty() {
                let ghost before = text::str_views(ids@);
                ids.push(p.id.clone());
                assert(text::str_views(ids@) =~= before.push(p.id@));
                assert(copy_mode_panes(self@.panes, 0) =~= text::str_views(ids@) + copy_mode_panes(
                    self@.panes,
                    i + 1,
                ));
            }
            i += 1;
        }
        assert(copy_mode_panes(self@.panes, 0) =~= text::str_views(ids@));
        ids
    }
}

/// The identifiers of the panes from index `k` on that are in copy mode and
/// belong to a window.
pub open spec fn copy_mode_panes(panes: Seq<PaneView>, k: int) -> Seq<Seq<char>>
    decreases panes.len() - k,
{
    if k < 0 || k >= panes.len() {
        Seq::empty()
    } else if panes[k].in_mode && panes[k].window_id.len() > 0 {
        seq![panes[k].id] + copy_mode_panes(panes, k + 1)
    } else {
        copy_mode_panes(panes, k + 1)
    }
}

impl Default for StateAggregator {
    fn default() -> (a: StateAggregator)
        ensures
            a.wf(),
            a@ == empty_model(crate::DEFAULT_SESSION_NAME@),
    {
        StateAggregator::new()
    }
}

} // verus!
