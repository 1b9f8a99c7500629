//! The state of a session as clients see it: panes, windows and the popup,
//! as full snapshots and as deltas between snapshots.

use crate::cells::{clone_content, clone_opt_string, content_view, opt_content_view, CellView, PaneContent};
use crate::text;
use vstd::prelude::*;

verus! {

/// The view of an optional optional string.
pub open spec fn opt_opt_view(o: Option<Option<String>>) -> Option<Option<Seq<char>>> {
    match o {
        Some(inner) => Some(text::opt_view(inner)),
        None => None,
    }
}

/// One pane of a session.
#[derive(Debug)]
pub struct TmuxPane {
    /// Index of the pane within its window.
    pub id: u32,
    /// Identifier that tmux gives the pane, such as `%0`.
    pub tmux_id: String,
    /// Identifier of the window that holds the pane, such as `@0`.
    pub window_id: String,
    /// What the pane shows.
    pub content: PaneContent,
    /// Column of the cursor.
    pub cursor_x: u32,
    /// Row of the cursor.
    pub cursor_y: u32,
    /// Width in cells.
    pub width: u32,
    /// Height in cells.
    pub height: u32,
    /// Column of the left edge within the window.
    pub x: u32,
    /// Row of the top edge within the window.
    pub y: u32,
    /// Whether the pane is the active one of its window.
    pub active: bool,
    /// Name of the command that runs in the pane.
    pub command: String,
    /// Title that the shell or the application set.
    pub title: String,
    /// Title shown in the border of the pane.
    pub border_title: String,
    /// Whether the pane is in copy mode.
    pub in_mode: bool,
    /// Column of the cursor of copy mode.
    pub copy_cursor_x: u32,
    /// Row of the cursor of copy mode.
    pub copy_cursor_y: u32,
    /// Whether the application uses the alternate screen.
    pub alternate_on: bool,
    /// Whether the application tracks the mouse.
    pub mouse_any_flag: bool,
    /// Whether flow control has paused the output of the pane.
    pub paused: bool,
    /// Identifier of the group of panes that the pane belongs to.
    pub group_id: Option<String>,
    /// Position of the pane among the tabs of its group.
    pub group_tab_index: Option<u32>,
}

/// The mathematical value of a [`TmuxPane`].
pub struct TmuxPaneView {
    pub id: u32,
    pub tmux_id: Seq<char>,
    pub window_id: Seq<char>,
    pub content: Seq<Seq<CellView>>,
    pub cursor_x: u32,
    pub cursor_y: u32,
    pub width: u32,
    pub height: u32,
    pub x: u32,
    pub y: u32,
    pub active: bool,
    pub command: Seq<char>,
    pub title: Seq<char>,
    pub border_title: Seq<char>,
    pub in_mode: bool,
    pub copy_cursor_x: u32,
    pub copy_cursor_y: u32,
    pub alternate_on: bool,
    pub mouse_any_flag: bool,
    pub paused: bool,
    pub group_id: Option<Seq<char>>,
    pub group_tab_index: Option<u32>,
}

impl View for TmuxPane {
    type V = TmuxPaneView;

    open spec fn view(&self) -> TmuxPaneView {
        TmuxPaneView {
            id: self.id,
            tmux_id: self.tmux_id@,
            window_id: self.window_id@,
            content: content_view(self.content@),
            cursor_x: self.cursor_x,
            cursor_y: self.cursor_y,
            width: self.width,
            height: self.height,
            x: self.x,
            y: self.y,
            active: self.active,
            command: self.command@,
            title: self.title@,
            border_title: self.border_title@,
            in_mode: self.in_mode,
            copy_cursor_x: self.copy_cursor_x,
            copy_cursor_y: self.copy_cursor_y,
            alternate_on: self.alternate_on,
            mouse_any_flag: self.mouse_any_flag,
            paused: self.paused,
            group_id: text::opt_view(self.group_id),
            group_tab_index: self.group_tab_index,
        }
    }
}

impl Clone for TmuxPane {
    fn clone(&self) -> (r: TmuxPane)
        ensures
            r@ == self@,
    {
        TmuxPane {
            id: self.id,
            tmux_id: self.tmux_id.clone(),
            window_id: self.window_id.clone(),
            content: clone_content(&self.content),
            cursor_x: self.cursor_x,
            cursor_y: self.cursor_y,
            width: self.width,
            height: self.height,
            x: self.x,
            y: self.y,
            active: self.active,
            command: self.command.clone(),
            title: self.title.clone(),
            border_title: self.border_title.clone(),
            in_mode: self.in_mode,
            copy_cursor_x: self.copy_cursor_x,
            copy_cursor_y: self.copy_cursor_y,
            alternate_on: self.alternate_on,
            mouse_any_flag: self.mouse_any_flag,
            paused: self.paused,
            group_id: clone_opt_string(&self.group_id),
            group_tab_index: self.group_tab_index,
        }
    }
}

/// One window of a session.
#[derive(Debug)]
pub struct TmuxWindow {
    /// Identifier that tmux gives the window, such as `@0`.
    pub id: String,
    /// Index of the window within the session.
    pub index: u32,
    /// Name of the window.
    pub name: String,
    /// Whether the window is the active one of the session.
    pub active: bool,
    /// Whether the window is a hidden window that holds a group of panes.
    pub is_pane_group_window: bool,
    /// The pane that the group belongs to.
    pub pane_group_parent_pane: Option<String>,
    /// Index of the group window.
    pub pane_group_index: Option<u32>,
    /// Whether the window is a hidden window that holds a floating pane.
    pub is_float_window: bool,
    /// The window over which the floating pane is shown.
    pub float_parent: Option<String>,
    /// Width of the floating pane in cells.
    pub float_width: Option<u32>,
    /// Height of the floating pane in cells.
    pub float_height: Option<u32>,
}

/// The mathematical value of a [`TmuxWindow`].
pub struct TmuxWindowView {
    pub id: Seq<char>,
    pub index: u32,
    pub name: Seq<char>,
    pub active: bool,
    pub is_pane_group_window: bool,
    pub pane_group_parent_pane: Option<Seq<char>>,
    pub pane_group_index: Option<u32>,
    pub is_float_window: bool,
    pub float_parent: Option<Seq<char>>,
    pub float_width: Option<u32>,
    pub float_height: Option<u32>,
}

impl View for TmuxWindow {
    type V = TmuxWindowView;

    open spec fn view(&self) -> TmuxWindowView {
        TmuxWindowView {
            id: self.id@,
            index: self.index,
            name: self.name@,
            active: self.active,
            is_pane_group_window: self.is_pane_group_window,
            pane_group_parent_pane: text::opt_view(self.pane_group_parent_pane),
            pane_group_index: self.pane_group_index,
            is_float_window: self.is_float_window,
            float_parent: text::opt_view(self.float_parent),
            float_width: self.float_width,
            float_height: self.float_height,
        }
    }
}

impl Clone for TmuxWindow {
    fn clone(&self) -> (r: TmuxWindow)
        ensures
            r@ == self@,
    {
        TmuxWindow {
            id: self.id.clone(),
            index: self.index,
            name: self.name.clone(),
            active: self.active,
            is_pane_group_window: self.is_pane_group_window,
            pane_group_parent_pane: clone_opt_string(&self.pane_group_parent_pane),
            pane_group_index: self.pane_group_index,
            is_float_window: self.is_float_window,
            float_parent: clone_opt_string(&self.float_parent),
            float_width: self.float_width,
            float_height: self.float_height,
        }
    }
}

/// The popup shown over a session.
#[derive(Debug)]
pub struct TmuxPopup {
    /// Identifier of the popup.
    pub id: String,
    /// What the popup shows.
    pub content: PaneContent,
    /// Column of the cursor.
    pub cursor_x: u32,
    /// Row of the cursor.
    pub cursor_y: u32,
    /// Width in cells.
    pub width: u32,
    /// Height in cells.
    pub height: u32,
    /// Column of the left edge within the window.
    pub x: u32,
    /// Row of the top edge within the window.
    pub y: u32,
    /// Whether the popup takes the input.
    pub active: bool,
    /// Command that runs in the popup.
    pub command: String,
}

/// The mathematical value of a [`TmuxPopup`].
pub struct TmuxPopupView {
    pub id: Seq<char>,
    pub content: Seq<Seq<CellView>>,
    pub cursor_x: u32,
    pub cursor_y: u32,
    pub width: u32,
    pub height: u32,
    pub x: u32,
    pub y: u32,
    pub active: bool,
    pub command: Seq<char>,
}

impl View for TmuxPopup {
    type V = TmuxPopupView;

    open spec fn view(&self) -> TmuxPopupView {
        TmuxPopupView {
            id: self.id@,
            content: content_view(self.content@),
            cursor_x: self.cursor_x,
            cursor_y: self.cursor_y,
            width: self.width,
            height: self.height,
            x: self.x,
            y: self.y,
            active: self.active,
            command: self.command@,
        }
    }
}

impl Clone for TmuxPopup {
    fn clone(&self) -> (r: TmuxPopup)
        ensures
            r@ == self@,
    {
        TmuxPopup {
            id: self.id.clone(),
            content: clone_content(&self.content),
            cursor_x: self.cursor_x,
            cursor_y: self.cursor_y,
            width: self.width,
            height: self.height,
            x: self.x,
            y: self.y,
            active: self.active,
            command: self.command.clone(),
        }
    }
}

/// What changed in one pane: each field holds the new value where it differs from
/// the old one.
#[derive(Debug)]
pub struct PaneDelta {
    /// New window.
    pub window_id: Option<String>,
    /// New content.
    pub content: Option<PaneContent>,
    /// New cursor column.
    pub cursor_x: Option<u32>,
    /// New cursor row.
    pub cursor_y: Option<u32>,
    /// New width.
    pub width: Option<u32>,
    /// New height.
    pub height: Option<u32>,
    /// New left edge.
    pub x: Option<u32>,
    /// New top edge.
    pub y: Option<u32>,
    /// New active flag.
    pub active: Option<bool>,
    /// New command.
    pub command: Option<String>,
    /// New title.
    pub title: Option<String>,
    /// New border title.
    pub border_title: Option<String>,
    /// New copy-mode flag.
    pub in_mode: Option<bool>,
    /// New column of the copy-mode cursor.
    pub copy_cursor_x: Option<u32>,
    /// New row of the copy-mode cursor.
    pub copy_cursor_y: Option<u32>,
    /// New alternate-screen flag.
    pub alternate_on: Option<bool>,
    /// New mouse-tracking flag.
    pub mouse_any_flag: Option<bool>,
    /// New pause flag.
    pub paused: Option<bool>,
    /// New group, `Some(None)` where the pane left its group.
    pub group_id: Option<Option<String>>,
    /// New tab position, `Some(None)` where it was cleared.
    pub group_tab_index: Option<Option<u32>>,
}

/// The mathematical value of a [`PaneDelta`].
pub struct PaneDeltaView {
    pub window_id: Option<Seq<char>>,
    pub content: Option<Seq<Seq<CellView>>>,
    pub cursor_x: Option<u32>,
    pub cursor_y: Option<u32>,
    pub width: Option<u32>,
    pub height: Option<u32>,
    pub x: Option<u32>,
    pub y: Option<u32>,
    pub active: Option<bool>,
    pub command: Option<Seq<char>>,
    pub title: Option<Seq<char>>,
    pub border_title: Option<Seq<char>>,
    pub in_mode: Option<bool>,
    pub copy_cursor_x: Option<u32>,
    pub copy_cursor_y: Option<u32>,
    pub alternate_on: Option<bool>,
    pub mouse_any_flag: Option<bool>,
    pub paused: Option<bool>,
    pub group_id: Option<Option<Seq<char>>>,
    pub group_tab_index: Option<Option<u32>>,
}

impl View for PaneDelta {
    type V = PaneDeltaView;

    open spec fn view(&self) -> PaneDeltaView {
        PaneDeltaView {
            window_id: text::opt_view(self.window_id),
            content: opt_content_view(self.content),
            cursor_x: self.cursor_x,
            cursor_y: self.cursor_y,
            width: self.width,
            height: self.height,
            x: self.x,
            y: self.y,
            active: self.active,
            command: text::opt_view(self.command),
            title: text::opt_view(self.title),
            border_title: text::opt_view(self.border_title),
            in_mode: self.in_mode,
            copy_cursor_x: self.copy_cursor_x,
            copy_cursor_y: self.copy_cursor_y,
            alternate_on: self.alternate_on,
            mouse_any_flag: self.mouse_any_flag,
            paused: self.paused,
            group_id: opt_opt_view(self.group_id),
            group_tab_index: self.group_tab_index,
        }
    }
}

impl PaneDeltaView {
    /// Whether no field has changed.
    pub open spec fn is_empty(self) -> bool {
        self.window_id.is_none()
            && self.content.is_none()
            && self.cursor_x.is_none()
            && self.cursor_y.is_none()
            && self.width.is_none()
            && self.height.is_none()
            && self.x.is_none()
            && self.y.is_none()
            && self.active.is_none()
            && self.command.is_none()
            && self.title.is_none()
            && self.border_title.is_none()
            && self.in_mode.is_none()
            && self.copy_cursor_x.is_none()
            && self.copy_cursor_y.is_none()
            && self.alternate_on.is_none()
            && self.mouse_any_flag.is_none()
            && self.paused.is_none()
            && self.group_id.is_none()
            && self.group_tab_index.is_none()
    }
}

impl PaneDelta {
    /// Whether no field has changed.
    pub fn is_empty(&self) -> (r: bool)
        ensures
            r == self@.is_empty(),
    {
        self.window_id.is_none()
            && self.content.is_none()
            && self.cursor_x.is_none()
            && self.cursor_y.is_none()
            && self.width.is_none()
            && self.height.is_none()
            && self.x.is_none()
            && self.y.is_none()
            && self.active.is_none()
            && self.command.is_none()
            && self.title.is_none()
            && self.border_title.is_none()
            && self.in_mode.is_none()
            && self.copy_cursor_x.is_none()
            && self.copy_cursor_y.is_none()
            && self.alternate_on.is_none()
            && self.mouse_any_flag.is_none()
            && self.paused.is_none()
            && self.group_id.is_none()
            && self.group_tab_index.is_none()
    }
}

impl Default for PaneDelta {
    fn default() -> (d: PaneDelta)
        ensures
            d@.is_empty(),
    {
        PaneDelta {
            window_id: None,
            content: None,
            cursor_x: None,
            cursor_y: None,
            width: None,
            height: None,
            x: None,
            y: None,
            active: None,
            command: None,
            title: None,
            border_title: None,
            in_mode: None,
            copy_cursor_x: None,
            copy_cursor_y: None,
            alternate_on: None,
            mouse_any_flag: None,
            paused: None,
            group_id: None,
            group_tab_index: None,
        }
    }
}

/// What changed in one window: each field holds the new value where it differs
/// from the old one.
#[derive(Debug)]
pub struct WindowDelta {
    /// New name.
    pub name: Option<String>,
    /// New active flag.
    pub active: Option<bool>,
    /// New group-window flag.
    pub is_pane_group_window: Option<bool>,
    /// New parent pane of the group.
    pub pane_group_parent_pane: Option<Option<String>>,
    /// New index of the group window.
    pub pane_group_index: Option<Option<u32>>,
    /// New float-window flag.
    pub is_float_window: Option<bool>,
    /// New parent window of the float.
    pub float_parent: Option<Option<String>>,
    /// New width of the float.
    pub float_width: Option<Option<u32>>,
    /// New height of the float.
    pub float_height: Option<Option<u32>>,
}

/// The mathematical value of a [`WindowDelta`].
pub struct WindowDeltaView {
    pub name: Option<Seq<char>>,
    pub active: Option<bool>,
    pub is_pane_group_window: Option<bool>,
    pub pane_group_parent_pane: Option<Option<Seq<char>>>,
    pub pane_group_index: Option<Option<u32>>,
    pub is_float_window: Option<bool>,
    pub float_parent: Option<Option<Seq<char>>>,
    pub float_width: Option<Option<u32>>,
    pub float_height: Option<Option<u32>>,
}

impl View for WindowDelta {
    type V = WindowDeltaView;

    open spec fn view(&self) -> WindowDeltaView {
        WindowDeltaView {
            name: text::opt_view(self.name),
            active: self.active,
            is_pane_group_window: self.is_pane_group_window,
            pane_group_parent_pane: opt_opt_view(self.pane_group_parent_pane),
            pane_group_index: self.pane_group_index,
            is_float_window: self.is_float_window,
            float_parent: opt_opt_view(self.float_parent),
            float_width: self.float_width,
            float_height: self.float_height,
        }
    }
}

impl WindowDeltaView {
    /// Whether no field has changed.
    pub open spec fn is_empty(self) -> bool {
        self.name.is_none()
            && self.active.is_none()
            && self.is_pane_group_window.is_none()
            && self.pane_group_parent_pane.is_none()
            && self.pane_group_index.is_none()
            && self.is_float_window.is_none()
            && self.float_parent.is_none()
            && self.float_width.is_none()
            && self.float_height.is_none()
    }
}

impl WindowDelta {
    /// Whether no field has changed.
    pub fn is_empty(&self) -> (r: bool)
        ensures
            r == self@.is_empty(),
    {
        self.name.is_none()
            && self.active.is_none()
            && self.is_pane_group_window.is_none()
            && self.pane_group_parent_pane.is_none()
            && self.pane_group_index.is_none()
            && self.is_float_window.is_none()
            && self.float_parent.is_none()
            && self.float_width.is_none()
            && self.float_height.is_none()
    }
}

impl Default for WindowDelta {
    fn default() -> (d: WindowDelta)
        ensures
            d@.is_empty(),
    {
        WindowDelta {
            name: None,
            active: None,
            is_pane_group_window: None,
            pane_group_parent_pane: None,
            pane_group_index: None,
            is_float_window: None,
            float_parent: None,
            float_width: None,
            float_height: None,
        }
    }
}

/// What changed in the popup: each field holds the new value where it differs
/// from the old one.
#[derive(Debug)]
pub struct PopupDelta {
    /// New content.
    pub content: Option<PaneContent>,
    /// New cursor column.
    pub cursor_x: Option<u32>,
    /// New cursor row.
    pub cursor_y: Option<u32>,
    /// New width.
    pub width: Option<u32>,
    /// New height.
    pub height: Option<u32>,
    /// New left edge.
    pub x: Option<u32>,
    /// New top edge.
    pub y: Option<u32>,
    /// New active flag.
    pub active: Option<bool>,
    /// New command.
    pub command: Option<String>,
}

/// The mathematical value of a [`PopupDelta`].
pub struct PopupDeltaView {
    pub content: Option<Seq<Seq<CellView>>>,
    pub cursor_x: Option<u32>,
    pub cursor_y: Option<u32>,
    pub width: Option<u32>,
    pub height: Option<u32>,
    pub x: Option<u32>,
    pub y: Option<u32>,
    pub active: Option<bool>,
    pub command: Option<Seq<char>>,
}

impl View for PopupDelta {
    type V = PopupDeltaView;

    open spec fn view(&self) -> PopupDeltaView {
        PopupDeltaView {
            content: opt_content_view(self.content),
            cursor_x: self.cursor_x,
            cursor_y: self.cursor_y,
            width: self.width,
            height: self.height,
            x: self.x,
            y: self.y,
            active: self.active,
            command: text::opt_view(self.command),
        }
    }
}

impl PopupDeltaView {
    /// Whether no field has changed.
    pub open spec fn is_empty(self) -> bool {
        self.content.is_none()
            && self.cursor_x.is_none()
            && self.cursor_y.is_none()
            && self.width.is_none()
            && self.height.is_none()
            && self.x.is_none()
            && self.y.is_none()
            && self.active.is_none()
            && self.command.is_none()
    }
}

impl PopupDelta {
    /// Whether no field has changed.
    pub fn is_empty(&self) -> (r: bool)
        ensures
            r == self@.is_empty(),
    {
        self.content.is_none()
            && self.cursor_x.is_none()
            && self.cursor_y.is_none()
            && self.width.is_none()
            && self.height.is_none()
            && self.x.is_none()
            && self.y.is_none()
            && self.active.is_none()
            && self.command.is_none()
    }
}

impl Default for PopupDelta {
    fn default() -> (d: PopupDelta)
        ensures
            d@.is_empty(),
    {
        PopupDelta {
            content: None,
            cursor_x: None,
            cursor_y: None,
            width: None,
            height: None,
            x: None,
            y: None,
            active: None,
            command: None,
        }
    }
}
/// The views of the panes in `v`, in order.
pub open spec fn pane_views(v: Seq<TmuxPane>) -> Seq<TmuxPaneView> {
    Seq::new(v.len(), |i: int| v[i]@)
}

/// The views of the windows in `v`, in order.
pub open spec fn window_views(v: Seq<TmuxWindow>) -> Seq<TmuxWindowView> {
    Seq::new(v.len(), |i: int| v[i]@)
}

/// The view of an optional popup.
pub open spec fn opt_popup_view(o: Option<TmuxPopup>) -> Option<TmuxPopupView> {
    match o {
        Some(p) => Some(p@),
        None => None,
    }
}

/// A copy of a list of panes.
pub fn clone_panes(v: &Vec<TmuxPane>) -> (r: Vec<TmuxPane>)
    ensures
        pane_views(r@) == pane_views(v@),
{
    let mut r: Vec<TmuxPane> = Vec::new();
    let mut i: usize = 0;
    while i < v.len()
        invariant
            i <= v@.len(),
            r@.len() == i,
            forall|j: int| 0 <= j < i ==> r@[j]@ == v@[j]@,
        decreases v@.len() - i,
    {
        r.push(v[i].clone());
        i += 1;
    }
    assert(pane_views(r@) =~= pane_views(v@));
    r
}

/// A copy of a list of windows.
pub fn clone_windows(v: &Vec<TmuxWindow>) -> (r: Vec<TmuxWindow>)
    ensures
        window_views(r@) == window_views(v@),
{
    let mut r: Vec<TmuxWindow> = Vec::new();
    let mut i: usize = 0;
    while i < v.len()
        invariant
            i <= v@.len(),
            r@.len() == i,
            forall|j: int| 0 <= j < i ==> r@[j]@ == v@[j]@,
        decreases v@.len() - i,
    {
        r.push(v[i].clone());
        i += 1;
    }
    assert(window_views(r@) =~= window_views(v@));
    r
}

/// A full snapshot of a session.
#[derive(Debug)]
pub struct TmuxState {
    /// Name of the session.
    pub session_name: String,
    /// The active window, if one is known.
    pub active_window_id: Option<String>,
    /// The active pane, if there is one.
    pub active_pane_id: Option<String>,
    /// The panes that clients see.
    pub panes: Vec<TmuxPane>,
    /// The windows of the session.
    pub windows: Vec<TmuxWindow>,
    /// Width of the area that the panes cover.
    pub total_width: u32,
    /// Height of the area that the panes cover.
    pub total_height: u32,
    /// The rendered status line.
    pub status_line: String,
    /// The popup, if one is open.
    pub popup: Option<TmuxPopup>,
}

/// The mathematical value of a [`TmuxState`].
pub struct TmuxStateView {
    pub session_name: Seq<char>,
    pub active_window_id: Option<Seq<char>>,
    pub active_pane_id: Option<Seq<char>>,
    pub panes: Seq<TmuxPaneView>,
    pub windows: Seq<TmuxWindowView>,
    pub total_width: u32,
    pub total_height: u32,
    pub status_line: Seq<char>,
    pub popup: Option<TmuxPopupView>,
}

impl View for TmuxState {
    type V = TmuxStateView;

    open spec fn view(&self) -> TmuxStateView {
        TmuxStateView {
            session_name: self.session_name@,
            active_window_id: text::opt_view(self.active_window_id),
            active_pane_id: text::opt_view(self.active_pane_id),
            panes: pane_views(self.panes@),
            windows: window_views(self.windows@),
            total_width: self.total_width,
            total_height: self.total_height,
            status_line: self.status_line@,
            popup: opt_popup_view(self.popup),
        }
    }
}

impl Clone for TmuxState {
    fn clone(&self) -> (r: TmuxState)
        ensures
            r@ == self@,
    {
        TmuxState {
            session_name: self.session_name.clone(),
            active_window_id: clone_opt_string(&self.active_window_id),
            active_pane_id: clone_opt_string(&self.active_pane_id),
            panes: clone_panes(&self.panes),
            windows: clone_windows(&self.windows),
            total_width: self.total_width,
            total_height: self.total_height,
            status_line: self.status_line.clone(),
            popup: match &self.popup {
                Some(p) => Some(p.clone()),
                None => None,
            },
        }
    }
}

/// An error reported to clients.
#[derive(Debug, Clone)]
pub struct TmuxError {
    pub message: String,
}

/// The entries of the pane changes of a delta: for each pane its
/// identifier and what changed in it, `None` where the pane is gone.
pub open spec fn pane_change_views(v: Seq<(String, Option<PaneDelta>)>) -> Seq<
    (Seq<char>, Option<PaneDeltaView>),
> {
    Seq::new(
        v.len(),
        |i: int|
            (
                v[i].0@,
                match v[i].1 {
                    Some(d) => Some(d@),
                    None => None,
                },
            ),
    )
}

/// The entries of the window changes of a delta: for each window its
/// identifier and what changed in it, `None` where the window is gone.
pub open spec fn window_change_views(v: Seq<(String, Option<WindowDelta>)>) -> Seq<
    (Seq<char>, Option<WindowDeltaView>),
> {
    Seq::new(
        v.len(),
        |i: int|
            (
                v[i].0@,
                match v[i].1 {
                    Some(d) => Some(d@),
                    None => None,
                },
            ),
    )
}

/// What changed between two snapshots of a session.
#[derive(Debug)]
pub struct TmuxDelta {
    /// Sequence number of the update.
    pub seq: u64,
    /// The panes that changed or are gone, by identifier.
    pub panes: Option<Vec<(String, Option<PaneDelta>)>>,
    /// The windows that changed or are gone, by identifier.
    pub windows: Option<Vec<(String, Option<WindowDelta>)>>,
    /// The panes that are new, in full.
    pub new_panes: Option<Vec<TmuxPane>>,
    /// The windows that are new, in full.
    pub new_windows: Option<Vec<TmuxWindow>>,
    /// The active window, where it changed.
    pub active_window_id: Option<String>,
    /// The active pane, where it changed.
    pub active_pane_id: Option<String>,
    /// The status line, where it changed.
    pub status_line: Option<String>,
    /// The total width, where it changed.
    pub total_width: Option<u32>,
    /// The total height, where it changed.
    pub total_height: Option<u32>,
    /// The popup, where it changed: `Some(None)` where it was closed.
    pub popup: Option<Option<TmuxPopup>>,
}

/// The mathematical value of a [`TmuxDelta`].
pub struct TmuxDeltaView {
    pub seq: u64,
    pub panes: Option<Seq<(Seq<char>, Option<PaneDeltaView>)>>,
    pub windows: Option<Seq<(Seq<char>, Option<WindowDeltaView>)>>,
    pub new_panes: Option<Seq<TmuxPaneView>>,
    pub new_windows: Option<Seq<TmuxWindowView>>,
    pub active_window_id: Option<Seq<char>>,
    pub active_pane_id: Option<Seq<char>>,
    pub status_line: Option<Seq<char>>,
    pub total_width: Option<u32>,
    pub total_height: Option<u32>,
    pub popup: Option<Option<TmuxPopupView>>,
}

impl TmuxDeltaView {
    /// Whether nothing has changed.
    pub open spec fn is_empty(self) -> bool {
        self.panes.is_none() && self.windows.is_none() && self.new_panes.is_none()
            && self.new_windows.is_none() && self.active_window_id.is_none()
            && self.active_pane_id.is_none() && self.status_line.is_none()
            && self.total_width.is_none() && self.total_height.is_none() && self.popup.is_none()
    }

    /// The delta with sequence number `seq` in which nothing has changed.
    pub open spec fn empty(seq: u64) -> TmuxDeltaView {
        TmuxDeltaView {
            seq,
            panes: None,
            windows: None,
            new_panes: None,
            new_windows: None,
            active_window_id: None,
            active_pane_id: None,
            status_line: None,
            total_width: None,
            total_height: None,
            popup: None,
        }
    }
}

impl View for TmuxDelta {
    type V = TmuxDeltaView;

    open spec fn view(&self) -> TmuxDeltaView {
        TmuxDeltaView {
            seq: self.seq,
            panes: match self.panes {
                Some(v) => Some(pane_change_views(v@)),
                None => None,
            },
            windows: match self.windows {
                Some(v) => Some(window_change_views(v@)),
                None => None,
            },
            new_panes: match self.new_panes {
                Some(v) => Some(pane_views(v@)),
                None => None,
            },
            new_windows: match self.new_windows {
                Some(v) => Some(window_views(v@)),
                None => None,
            },
            active_window_id: text::opt_view(self.active_window_id),
            active_pane_id: text::opt_view(self.active_pane_id),
            status_line: text::opt_view(self.status_line),
            total_width: self.total_width,
            total_height: self.total_height,
            popup: match self.popup {
                Some(p) => Some(opt_popup_view(p)),
                None => None,
            },
        }
    }
}

impl TmuxDelta {
    /// The delta with sequence number `seq` in which nothing has changed.
    pub fn new(seq: u64) -> (d: TmuxDelta)
        ensures
            d@ == TmuxDeltaView::empty(seq),
    {
        TmuxDelta {
            seq,
            panes: None,
            windows: None,
            new_panes: None,
            new_windows: None,
            active_window_id: None,
            active_pane_id: None,
            status_line: None,
            total_width: None,
            total_height: None,
            popup: None,
        }
    }

    /// Whether nothing has changed.
    pub fn is_empty(&self) -> (r: bool)
        ensures
            r == self@.is_empty(),
    {
        self.panes.is_none() && self.windows.is_none() && self.new_panes.is_none()
            && self.new_windows.is_none() && self.active_window_id.is_none()
            && self.active_pane_id.is_none() && self.status_line.is_none()
            && self.total_width.is_none() && self.total_height.is_none() && self.popup.is_none()
    }
}

/// An update sent to clients: a full snapshot, or what changed since the
/// last update.
#[derive(Debug)]
pub enum StateUpdate {
    /// A full snapshot.
    Full { state: TmuxState },
    /// What changed since the last update.
    Delta { delta: TmuxDelta },
}

/// The mathematical value of a [`StateUpdate`].
pub enum StateUpdateView {
    Full { state: TmuxStateView },
    Delta { delta: TmuxDeltaView },
}

impl View for StateUpdate {
    type V = StateUpdateView;

    open spec fn view(&self) -> StateUpdateView {
        match *self {
            StateUpdate::Full { state } => StateUpdateView::Full { state: state@ },
            StateUpdate::Delta { delta } => StateUpdateView::Delta { delta: delta@ },
        }
    }
}

/// What the name of a hidden group window says.
#[derive(Debug)]
pub struct PaneGroupWindowInfo {
    /// The pane that the group belongs to.
    pub parent_pane_id: String,
    /// Index of the group window.
    pub pane_group_index: u32,
}

/// Whether `name` is the name of a hidden window that holds a floating
/// pane: it begins with `__float_`.
pub open spec fn float_window_name(name: Seq<char>) -> bool {
    text::starts_with(name, "__float_"@)
}

/// What `name` says where it is the name of a hidden group window:
/// `__%`, the number of the parent pane, `_group_`, and the index of the
/// window. Gives the parent pane, with its `%`, and the index.
pub open spec fn pane_group_info(name: Seq<char>) -> Option<(Seq<char>, u32)> {
    match text::strip_prefix(name, "__%"@) {
        Some(rest) => {
            let parts = text::split_sub(rest, "_group_"@);
            if parts.len() == 2 && parts[0].len() > 0 {
                match text::parse_u32_spec(parts[1]) {
                    Some(index) => Some((seq!['%'] + parts[0], index)),
                    None => None,
                }
            } else {
                None
            }
        },
        None => None,
    }
}

/// Whether `name` is the name of a hidden window that holds a floating pane.
pub fn is_float_window_name(name: &str) -> (r: bool)
    ensures
        r == float_window_name(name@),
{
    let n = text::chars_of(name);
    let p = text::chars_of("__float_");
    text::has_at(n.as_slice(), p.as_slice(), 0)
}

/// Reads the name of a hidden group window. Gives `None` for every other
/// name.
pub fn parse_pane_group_window_name(name: &str) -> (r: Option<PaneGroupWindowInfo>)
    ensures
        match r {
            Some(info) => pane_group_info(name@) == Some(
                (info.parent_pane_id@, info.pane_group_index),
            ),
            None => pane_group_info(name@).is_none(),
        },
{
    let n = text::chars_of(name);
    let prefix = text::chars_of("__%");
    let sep = text::chars_of("_group_");
    proof {
        reveal_strlit("_group_");
    }
    match text::strip_prefix_chars(n.as_slice(), prefix.as_slice()) {
        Some(rest) => {
            let parts = text::split_on(rest.as_slice(), sep.as_slice());
            if parts.len() != 2 {
                return None;
            }
            assert(text::views(parts@)[0] == parts@[0]@);
            assert(text::views(parts@)[1] == parts@[1]@);
            if parts[0].len() == 0 {
                return None;
            }
            match text::parse_u32(parts[1].as_slice()) {
                Some(index) => {
                    let mut id: Vec<char> = Vec::new();
                    id.push('%');
                    text::push_all(&mut id, parts[0].as_slice());
                    assert(id@ =~= seq!['%'] + parts@[0]@);
                    Some(
                        PaneGroupWindowInfo {
                            parent_pane_id: text::string_of(id.as_slice()),
                            pane_group_index: index,
                        },
                    )
                },
                None => None,
            }
        },
        None => None,
    }
}

} // verus!
