//! The state that the aggregator keeps of one pane, one window and the
//! popup.

use crate::cells::{clone_content, content_view, opt_content_view, CellView, PaneContent};
use crate::model::{pane_group_info, float_window_name, TmuxPane, TmuxPaneView};
use crate::model::{TmuxPopup, TmuxPopupView, TmuxWindow, TmuxWindowView};
use crate::model::{is_float_window_name, parse_pane_group_window_name};
use crate::cells::clone_opt_string;
use crate::osc;
use crate::osc::{OscParser, OscView};
use crate::terminal;
use crate::terminal::{emu_cols, emu_rows, pane_cells, term_cols, term_input, term_rows};
use crate::terminal::{vt_cursor, with_carriage_returns, Emulator};
use crate::text;
use vstd::prelude::*;

verus! {

/// The most bytes of raw output that a pane keeps.
pub const RAW_BUFFER_CAP: usize = 65536;

/// The last `cap` elements of `s`, or all of `s` where it has no more.
pub open spec fn tail(s: Seq<u8>, cap: int) -> Seq<u8> {
    if s.len() > cap {
        s.subrange(s.len() - cap, s.len() as int)
    } else {
        s
    }
}

/// Appends `content` to `buf` and then drops the oldest bytes beyond `cap`.
pub fn append_capped(buf: &mut Vec<u8>, content: &[u8], cap: usize)
    ensures
        final(buf)@ == tail(old(buf)@ + content@, cap as int),
{
    let mut i: usize = 0;
    while i < content.len()
        invariant
            i <= content@.len(),
            buf@ == old(buf)@ + content@.subrange(0, i as int),
        decreases content@.len() - i,
    {
        buf.push(content[i]);
        i += 1;
        assert(buf@ =~= old(buf)@ + content@.subrange(0, i as int));
    }
    assert(content@.subrange(0, content@.len() as int) =~= content@);
    if buf.len() > cap {
        let start = buf.len() - cap;
        let kept = buf.split_off(start);
        *buf = kept;
    }
}

/// The state of one pane.
pub struct PaneState {
    /// Identifier that tmux gives the pane, such as `%0`.
    pub id: String,
    /// Index of the pane within its window.
    pub index: u32,
    /// The window that holds the pane; empty until tmux has listed the pane.
    pub window_id: String,
    /// The terminal emulator of the pane.
    pub terminal: Emulator,
    /// The tracker of hyperlinks and clipboard writes.
    pub osc_parser: OscParser,
    /// The latest raw output, at most [`RAW_BUFFER_CAP`] bytes.
    pub raw_buffer: Vec<u8>,
    pub x: u32,
    pub y: u32,
    pub width: u32,
    pub height: u32,
    pub active: bool,
    pub command: String,
    pub title: String,
    pub border_title: String,
    /// Whether the pane is in copy mode.
    pub in_mode: bool,
    pub copy_cursor_x: u32,
    pub copy_cursor_y: u32,
    /// Column of the cursor as tmux reported it last.
    pub tmux_cursor_x: u32,
    /// Row of the cursor as tmux reported it last.
    pub tmux_cursor_y: u32,
    pub alternate_on: bool,
    pub mouse_any_flag: bool,
    /// Whether flow control has paused the output of the pane.
    pub paused: bool,
    pub group_id: Option<String>,
    pub group_tab_index: Option<u32>,
    /// What the pane shows while it is in copy mode, once tmux has sent it.
    pub copy_mode_content: Option<PaneContent>,
}

/// The mathematical value of a [`PaneState`]. The emulator is given by its
/// input so far; its size follows from the size of the pane.
pub struct PaneView {
    pub id: Seq<char>,
    pub index: u32,
    pub window_id: Seq<char>,
    pub input: Seq<u8>,
    pub osc: OscView,
    pub raw: Seq<u8>,
    pub x: u32,
    pub y: u32,
    pub width: u32,
    pub height: u32,
    pub active: bool,
    pub command: Seq<char>,
    pub title: Seq<char>,
    pub border_title: Seq<char>,
    pub in_mode: bool,
    pub copy_cursor_x: u32,
    pub copy_cursor_y: u32,
    pub tmux_cursor_x: u32,
    pub tmux_cursor_y: u32,
    pub alternate_on: bool,
    pub mouse_any_flag: bool,
    pub paused: bool,
    pub group_id: Option<Seq<char>>,
    pub group_tab_index: Option<u32>,
    pub copy_mode_content: Option<Seq<Seq<CellView>>>,
}

impl View for PaneState {
    type V = PaneView;

    open spec fn view(&self) -> PaneView {
        PaneView {
            id: self.id@,
            index: self.index,
            window_id: self.window_id@,
            input: term_input(self.terminal),
            osc: self.osc_parser@,
            raw: self.raw_buffer@,
            x: self.x,
            y: self.y,
            width: self.width,
            height: self.height,
            active: self.active,
            command: self.command@,
            title: self.title@,
            border_title: self.border_title@,
            in_mode: self.in_mode,
            copy_cursor_x: self.copy_cursor_x,
            copy_cursor_y: self.copy_cursor_y,
            tmux_cursor_x: self.tmux_cursor_x,
            tmux_cursor_y: self.tmux_cursor_y,
            alternate_on: self.alternate_on,
            mouse_any_flag: self.mouse_any_flag,
            paused: self.paused,
            group_id: text::opt_view(self.group_id),
            group_tab_index: self.group_tab_index,
            copy_mode_content: opt_content_view(self.copy_mode_content),
        }
    }
}

/// A pane that tmux has not described yet.
pub open spec fn fresh_pane(id: Seq<char>, width: u32, height: u32) -> PaneView {
    PaneView {
        id,
        index: 0,
        window_id: Seq::empty(),
        input: Seq::empty(),
        osc: osc::initial(),
        raw: Seq::empty(),
        x: 0,
        y: 0,
        width,
        height,
        active: false,
        command: Seq::empty(),
        title: Seq::empty(),
        border_title: Seq::empty(),
        in_mode: false,
        copy_cursor_x: 0,
        copy_cursor_y: 0,
        tmux_cursor_x: 0,
        tmux_cursor_y: 0,
        alternate_on: false,
        mouse_any_flag: false,
        paused: false,
        group_id: None,
        group_tab_index: None,
        copy_mode_content: None,
    }
}

/// The pane after the output `content`: the raw buffer takes the bytes and
/// keeps its cap, the tracker takes the OSC sequences, and the emulator
/// takes the rest.
pub open spec fn after_output(p: PaneView, content: Seq<u8>) -> PaneView {
    PaneView {
        raw: tail(p.raw + content, RAW_BUFFER_CAP as int),
        osc: osc::process_spec(p.osc, content).0,
        input: p.input + osc::process_spec(p.osc, content).1,
        ..p
    }
}

/// The pane after a capture of its content: the emulator starts afresh and
/// takes the capture with a carriage return before every line feed, the
/// tracker starts afresh, and the raw buffer holds the capture alone.
pub open spec fn after_capture(p: PaneView, content: Seq<u8>) -> PaneView {
    PaneView {
        raw: tail(content, RAW_BUFFER_CAP as int),
        osc: osc::initial(),
        input: with_carriage_returns(content),
        ..p
    }
}

/// The pane at the size `width` by `height`. A change of size starts the
/// emulator and the tracker afresh and empties the raw buffer.
pub open spec fn resized(p: PaneView, width: u32, height: u32) -> PaneView {
    if p.width != width || p.height != height {
        PaneView { width, height, raw: Seq::empty(), osc: osc::initial(), input: Seq::empty(), ..p }
    } else {
        p
    }
}

/// What the emulator of the pane shows, with the link targets of the
/// tracker.
pub open spec fn live_content(p: PaneView) -> Seq<Seq<CellView>> {
    pane_cells(p.width, p.height, p.input, Some(p.osc.urls))
}

/// What a terminal of the size of the pane shows after the capture
/// `content`.
pub open spec fn captured_content(p: PaneView, content: Seq<u8>) -> Seq<Seq<CellView>> {
    pane_cells(p.width, p.height, with_carriage_returns(content), None)
}

/// What clients see of the pane: in copy mode the snapshot of copy mode
/// where there is one, and what the emulator shows otherwise.
pub open spec fn visible_content(p: PaneView) -> Seq<Seq<CellView>> {
    if p.in_mode && p.copy_mode_content.is_some() {
        p.copy_mode_content.unwrap()
    } else {
        live_content(p)
    }
}

/// `a`, or `limit` where that is smaller.
pub open spec fn held_within(a: u16, limit: u32) -> u32 {
    if a <= limit {
        a as u32
    } else {
        limit
    }
}

/// The pane as clients see it. The cursor is the one of the emulator, held
/// within the size of the pane.
pub open spec fn pane_snapshot(p: PaneView) -> TmuxPaneView {
    TmuxPaneView {
        id: p.index,
        tmux_id: p.id,
        window_id: p.window_id,
        content: visible_content(p),
        cursor_x: held_within(
            vt_cursor(emu_rows(p.height), emu_cols(p.width), p.input).1,
            p.width,
        ),
        cursor_y: held_within(
            vt_cursor(emu_rows(p.height), emu_cols(p.width), p.input).0,
            p.height,
        ),
        width: p.width,
        height: p.height,
        x: p.x,
        y: p.y,
        active: p.active,
        command: p.command,
        title: p.title,
        border_title: p.border_title,
        in_mode: p.in_mode,
        copy_cursor_x: p.copy_cursor_x,
        copy_cursor_y: p.copy_cursor_y,
        alternate_on: p.alternate_on,
        mouse_any_flag: p.mouse_any_flag,
        paused: p.paused,
        group_id: p.group_id,
        group_tab_index: p.group_tab_index,
    }
}

fn hold_within(a: u16, limit: u32) -> (r: u32)
    ensures
        r == held_within(a, limit),
        r <= limit,
{
    if a as u32 <= limit {
        a as u32
    } else {
        limit
    }
}

impl PaneState {
    /// Whether the pane is well formed: the emulator has the size that
    /// belongs to the size of the pane, and the raw buffer keeps its cap.
    pub open spec fn wf(&self) -> bool {
        &&& term_rows(self.terminal) == emu_rows(self.height)
        &&& term_cols(self.terminal) == emu_cols(self.width)
        &&& self.raw_buffer@.len() <= RAW_BUFFER_CAP
    }

    /// A pane of `width` by `height` that tmux has not described yet.
    pub fn new(id: &str, width: u32, height: u32) -> (p: PaneState)
        ensures
            p.wf(),
            p@ == fresh_pane(id@, width, height),
    {
        PaneState {
            id: text::string_of_str(id),
            index: 0,
            window_id: String::new(),
            terminal: terminal::new_emulator(width, height),
            osc_parser: OscParser::new(),
            raw_buffer: Vec::new(),
            x: 0,
            y: 0,
            width,
            height,
            active: false,
            command: String::new(),
            title: String::new(),
            border_title: String::new(),
            in_mode: false,
            copy_cursor_x: 0,
            copy_cursor_y: 0,
            tmux_cursor_x: 0,
            tmux_cursor_y: 0,
            alternate_on: false,
            mouse_any_flag: false,
            paused: false,
            group_id: None,
            group_tab_index: None,
            copy_mode_content: None,
        }
    }

    /// Takes output of the pane.
    pub fn process_output(&mut self, content: &[u8])
        requires
            old(self).wf(),
        ensures
            final(self).wf(),
            final(self)@ == after_output(old(self)@, content@),
    {
        append_capped(&mut self.raw_buffer, content, RAW_BUFFER_CAP);
        let processed = self.osc_parser.process(content);
        terminal::term_process(&mut self.terminal, processed.as_slice());
    }

    /// Takes a capture of the whole content of the pane in place of what the
    /// emulator has seen so far.
    pub fn reset_and_process_capture(&mut self, content: &[u8])
        requires
            old(self).wf(),
        ensures
            final(self).wf(),
            final(self)@ == after_capture(old(self)@, content@),
    {
        self.terminal = terminal::new_emulator(self.width, self.height);
        self.osc_parser.reset();
        self.raw_buffer.clear();
        let normalized = terminal::normalize_newlines(content);
        terminal::term_process(&mut self.terminal, normalized.as_slice());
        append_capped(&mut self.raw_buffer, content, RAW_BUFFER_CAP);
        assert(Seq::<u8>::empty() + normalized@ =~= normalized@);
        assert(Seq::<u8>::empty() + content@ =~= content@);
    }

    /// Gives the pane the size `width` by `height`. Returns whether the size
    /// changed; the content of the pane is then to be captured anew.
    pub fn resize(&mut self, width: u32, height: u32) -> (changed: bool)
        requires
            old(self).wf(),
        ensures
            final(self).wf(),
            final(self)@ == resized(old(self)@, width, height),
            changed == (old(self).width != width || old(self).height != height),
    {
        if self.width != width || self.height != height {
            self.width = width;
            self.height = height;
            self.terminal = terminal::new_emulator(width, height);
            self.osc_parser.reset();
            self.raw_buffer.clear();
            true
        } else {
            false
        }
    }

    /// What the emulator of the pane shows.
    pub fn get_content(&self) -> (content: PaneContent)
        requires
            self.wf(),
        ensures
            content_view(content@) == live_content(self@),
    {
        terminal::extract_pane_cells(
            &self.terminal,
            Some(&self.osc_parser),
            self.width,
            self.height,
        )
    }

    /// Takes a capture of what the pane shows in copy mode. The emulator of
    /// the pane stays as it is, since output goes on arriving in copy mode.
    pub fn process_copy_mode_capture(&mut self, content: &[u8])
        requires
            old(self).wf(),
        ensures
            final(self).wf(),
            final(self)@ == (PaneView {
                copy_mode_content: Some(captured_content(old(self)@, content@)),
                ..old(self)@
            }),
    {
        let mut temp = terminal::new_emulator(self.width, self.height);
        let normalized = terminal::normalize_newlines(content);
        terminal::term_process(&mut temp, normalized.as_slice());
        assert(Seq::<u8>::empty() + normalized@ =~= normalized@);
        self.copy_mode_content = Some(
            terminal::extract_pane_cells(&temp, None, self.width, self.height),
        );
    }

    /// The pane as clients see it. Its cursor lies within its size.
    pub fn to_tmux_pane(&self) -> (p: TmuxPane)
        requires
            self.wf(),
        ensures
            p@ == pane_snapshot(self@),
            p.cursor_x <= self.width,
            p.cursor_y <= self.height,
    {
        let cursor = terminal::term_cursor(&self.terminal);
        let content = if self.in_mode {
            match &self.copy_mode_content {
                Some(c) => clone_content(c),
                None => self.get_content(),
            }
        } else {
            self.get_content()
        };
        TmuxPane {
            id: self.index,
            tmux_id: self.id.clone(),
            window_id: self.window_id.clone(),
            content,
            cursor_x: hold_within(cursor.1, self.width),
            cursor_y: hold_within(cursor.0, self.height),
            width: self.width,
            height: self.height,
            x: self.x,
            y: self.y,
            active: self.active,
            command: self.command.clone(),
            title: self.title.clone(),
            border_title: self.border_title.clone(),
            in_mode: self.in_mode,
            copy_cursor_x: self.copy_cursor_x,
            copy_cursor_y: self.copy_cursor_y,
            alternate_on: self.alternate_on,
            mouse_any_flag: self.mouse_any_flag,
            paused: self.paused,
            group_id: clone_opt_string(&self.group_id),
            group_tab_index: self.group_tab_index,
        }
    }
}

/// The state of one window.
pub struct WindowState {
    /// Identifier that tmux gives the window, such as `@0`.
    pub id: String,
    pub index: u32,
    /// Name of the window; empty until tmux has told it.
    pub name: String,
    pub active: bool,
    /// The layout of the window as tmux writes it.
    pub layout: String,
    pub float_parent: Option<String>,
    pub float_width: Option<u32>,
    pub float_height: Option<u32>,
}

/// The mathematical value of a [`WindowState`].
pub struct WindowView {
    pub id: Seq<char>,
    pub index: u32,
    pub name: Seq<char>,
    pub active: bool,
    pub layout: Seq<char>,
    pub float_parent: Option<Seq<char>>,
    pub float_width: Option<u32>,
    pub float_height: Option<u32>,
}

impl View for WindowState {
    type V = WindowView;

    open spec fn view(&self) -> WindowView {
        WindowView {
            id: self.id@,
            index: self.index,
            name: self.name@,
            active: self.active,
            layout: self.layout@,
            float_parent: text::opt_view(self.float_parent),
            float_width: self.float_width,
            float_height: self.float_height,
        }
    }
}

/// Index of the first character of `s` at or after `from` that is not `c`.
pub open spec fn skip_char(s: Seq<char>, c: char, from: int) -> int
    decreases s.len() - from,
{
    if from < 0 || from >= s.len() || s[from] != c {
        from
    } else {
        skip_char(s, c, from + 1)
    }
}

/// The index that the identifier `id` of a window suggests: the number
/// behind its `@` signs, or 0 where there is none.
pub open spec fn index_of_window_id(id: Seq<char>) -> u32 {
    match text::parse_u32_spec(id.subrange(skip_char(id, '@', 0), id.len() as int)) {
        Some(n) => n,
        None => 0,
    }
}

/// A window of which only the identifier is known.
pub open spec fn fresh_window(id: Seq<char>) -> WindowView {
    WindowView {
        id,
        index: index_of_window_id(id),
        name: Seq::empty(),
        active: false,
        layout: Seq::empty(),
        float_parent: None,
        float_width: None,
        float_height: None,
    }
}

/// The window as clients see it. Whether it is a hidden group window or a
/// hidden float window is read from its name.
pub open spec fn window_snapshot(w: WindowView) -> TmuxWindowView {
    TmuxWindowView {
        id: w.id,
        index: w.index,
        name: w.name,
        active: w.active,
        is_pane_group_window: pane_group_info(w.name).is_some(),
        pane_group_parent_pane: match pane_group_info(w.name) {
            Some(info) => Some(info.0),
            None => None,
        },
        pane_group_index: match pane_group_info(w.name) {
            Some(info) => Some(info.1),
            None => None,
        },
        is_float_window: float_window_name(w.name),
        float_parent: w.float_parent,
        float_width: w.float_width,
        float_height: w.float_height,
    }
}

impl WindowState {
    /// A window of which only the identifier is known.
    pub fn new(id: &str) -> (w: WindowState)
        ensures
            w@ == fresh_window(id@),
    {
        let chars = text::chars_of(id);
        let mut i: usize = 0;
        while i < chars.len() && chars[i] == '@'
            invariant
                i <= chars@.len(),
                skip_char(chars@, '@', 0) == skip_char(chars@, '@', i as int),
            decreases chars@.len() - i,
        {
            i += 1;
        }
        let digits = text::sub_vec(chars.as_slice(), i, chars.len());
        WindowState {
            id: text::string_of_str(id),
            index: match text::parse_u32(digits.as_slice()) {
                Some(n) => n,
                None => 0,
            },
            name: String::new(),
            active: false,
            layout: String::new(),
            float_parent: None,
            float_width: None,
            float_height: None,
        }
    }

    /// The window as clients see it.
    pub fn to_tmux_window(&self) -> (w: TmuxWindow)
        ensures
            w@ == window_snapshot(self@),
    {
        let info = parse_pane_group_window_name(self.name.as_str());
        let is_group = info.is_some();
        let (parent, index) = match info {
            Some(i) => (Some(i.parent_pane_id), Some(i.pane_group_index)),
            None => (None, None),
        };
        TmuxWindow {
            id: self.id.clone(),
            index: self.index,
            name: self.name.clone(),
            active: self.active,
            is_pane_group_window: is_group,
            pane_group_parent_pane: parent,
            pane_group_index: index,
            is_float_window: is_float_window_name(self.name.as_str()),
            float_parent: clone_opt_string(&self.float_parent),
            float_width: self.float_width,
            float_height: self.float_height,
        }
    }
}

/// The state of the popup.
pub struct PopupState {
    pub id: String,
    /// The terminal emulator of the popup.
    pub terminal: Emulator,
    pub width: u32,
    pub height: u32,
    pub x: u32,
    pub y: u32,
    /// Whether the popup takes the input.
    pub active: bool,
    /// Command that runs in the popup.
    pub command: String,
}

/// The mathematical value of a [`PopupState`].
pub struct PopupView {
    pub id: Seq<char>,
    pub input: Seq<u8>,
    pub width: u32,
    pub height: u32,
    pub x: u32,
    pub y: u32,
    pub active: bool,
    pub command: Seq<char>,
}

impl View for PopupState {
    type V = PopupView;

    open spec fn view(&self) -> PopupView {
        PopupView {
            id: self.id@,
            input: term_input(self.terminal),
            width: self.width,
            height: self.height,
            x: self.x,
            y: self.y,
            active: self.active,
            command: self.command@,
        }
    }
}

/// The popup as clients see it.
pub open spec fn popup_snapshot(p: PopupView) -> TmuxPopupView {
    TmuxPopupView {
        id: p.id,
        content: pane_cells(p.width, p.height, p.input, None),
        cursor_x: vt_cursor(emu_rows(p.height), emu_cols(p.width), p.input).1 as u32,
        cursor_y: vt_cursor(emu_rows(p.height), emu_cols(p.width), p.input).0 as u32,
        width: p.width,
        height: p.height,
        x: p.x,
        y: p.y,
        active: p.active,
        command: p.command,
    }
}

impl PopupState {
    /// Whether the popup is well formed: the emulator has the size that
    /// belongs to the size of the popup.
    pub open spec fn wf(&self) -> bool {
        &&& term_rows(self.terminal) == emu_rows(self.height)
        &&& term_cols(self.terminal) == emu_cols(self.width)
    }

    /// A popup that has just been opened: active, and showing nothing yet.
    pub fn new(id: &str, width: u32, height: u32, x: u32, y: u32, command: Option<String>) -> (p:
        PopupState)
        ensures
            p.wf(),
            p@ == (PopupView {
                id: id@,
                input: Seq::empty(),
                width,
                height,
                x,
                y,
                active: true,
                command: match command {
                    Some(c) => c@,
                    None => Seq::empty(),
                },
            }),
    {
        PopupState {
            id: text::string_of_str(id),
            terminal: terminal::new_emulator(width, height),
            width,
            height,
            x,
            y,
            active: true,
            command: match command {
                Some(c) => c,
                None => String::new(),
            },
        }
    }

    /// Takes output of the popup.
    pub fn process_output(&mut self, content: &[u8])
        requires
            old(self).wf(),
        ensures
            final(self).wf(),
            final(self)@ == (PopupView { input: old(self)@.input + content@, ..old(self)@ }),
    {
        terminal::term_process(&mut self.terminal, content);
    }

    /// What the popup shows.
    pub fn get_content(&self) -> (content: PaneContent)
        requires
            self.wf(),
        ensures
            content_view(content@) == popup_snapshot(self@).content,
    {
        terminal::extract_pane_cells(&self.terminal, None, self.width, self.height)
    }

    /// The popup as clients see it.
    pub fn to_tmux_popup(&self) -> (p: TmuxPopup)
        requires
            self.wf(),
        ensures
            p@ == popup_snapshot(self@),
    {
        let cursor = terminal::term_cursor(&self.terminal);
        TmuxPopup {
            id: self.id.clone(),
            content: self.get_content(),
            cursor_x: cursor.1 as u32,
            cursor_y: cursor.0 as u32,
            width: self.width,
            height: self.height,
            x: self.x,
            y: self.y,
            active: self.active,
            command: self.command.clone(),
        }
    }
}

} // verus!
