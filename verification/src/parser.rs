//! Parser for the notifications of tmux control mode.
//!
//! Control mode is line oriented. A line that begins with `%` is a
//! notification; the lines between `%begin` and `%end` or `%error` are the
//! output of one command.

use crate::octal::{decode_octal, decode_octal_spec};
use crate::text;
use vstd::prelude::*;
use vstd::string::StringExecFns;
use vstd::utf8::encode_utf8;

verus! {

/// An event read from the control-mode stream.
#[derive(Debug, Clone)]
pub enum ControlModeEvent {
    /// Output of a pane, with its octal escapes decoded.
    Output { pane_id: String, content: Vec<u8> },
    /// Output of a pane together with its age, sent while flow control is on.
    ExtendedOutput { pane_id: String, age_ms: u64, content: Vec<u8> },
    /// The layout of a window changed.
    LayoutChange { window_id: String, layout: String, visible_layout: String, flags: String },
    /// A window was added to the session.
    WindowAdd { window_id: String },
    /// A window of the session was closed.
    WindowClose { window_id: String },
    /// A window was renamed.
    WindowRenamed { window_id: String, name: String },
    /// Another pane became the active pane of a window.
    WindowPaneChanged { window_id: String, pane_id: String },
    /// A pane entered or left a mode such as copy mode.
    PaneModeChanged { pane_id: String },
    /// The client is now attached to another session.
    SessionChanged { session_id: String, session_name: String },
    /// The session was renamed.
    SessionRenamed { name: String },
    /// Another window became the active window of a session.
    SessionWindowChanged { session_id: String, window_id: String },
    /// A session was created or destroyed somewhere on the server.
    SessionsChanged,
    /// The output block of one command is complete.
    CommandResponse { timestamp: u64, command_num: u32, output: String, success: bool },
    /// Flow control paused a pane.
    Pause { pane_id: String },
    /// Flow control resumed a pane.
    Continue { pane_id: String },
    /// A client detached.
    ClientDetached { client: String },
    /// A client is now attached to another session.
    ClientSessionChanged { client: String, session_id: String, session_name: String },
    /// The control-mode client is exiting.
    Exit { reason: Option<String> },
    /// A window that belongs to no attached session was added.
    UnlinkedWindowAdd { window_id: String },
    /// A window that belongs to no attached session was closed.
    UnlinkedWindowClose { window_id: String },
    /// A popup was opened over the session.
    PopupOpen { popup_id: String, width: u32, height: u32, x: u32, y: u32, command: Option<String> },
    /// Output of the open popup.
    PopupOutput { popup_id: String, content: Vec<u8> },
    /// The popup was closed.
    PopupClose { popup_id: String },
}

/// The mathematical value of a [`ControlModeEvent`].
pub enum EventView {
    Output { pane_id: Seq<char>, content: Seq<u8> },
    ExtendedOutput { pane_id: Seq<char>, age_ms: u64, content: Seq<u8> },
    LayoutChange {
        window_id: Seq<char>,
        layout: Seq<char>,
        visible_layout: Seq<char>,
        flags: Seq<char>,
    },
    WindowAdd { window_id: Seq<char> },
    WindowClose { window_id: Seq<char> },
    WindowRenamed { window_id: Seq<char>, name: Seq<char> },
    WindowPaneChanged { window_id: Seq<char>, pane_id: Seq<char> },
    PaneModeChanged { pane_id: Seq<char> },
    SessionChanged { session_id: Seq<char>, session_name: Seq<char> },
    SessionRenamed { name: Seq<char> },
    SessionWindowChanged { session_id: Seq<char>, window_id: Seq<char> },
    SessionsChanged,
    CommandResponse { timestamp: u64, command_num: u32, output: Seq<char>, success: bool },
    Pause { pane_id: Seq<char> },
    Continue { pane_id: Seq<char> },
    ClientDetached { client: Seq<char> },
    ClientSessionChanged { client: Seq<char>, session_id: Seq<char>, session_name: Seq<char> },
    Exit { reason: Option<Seq<char>> },
    UnlinkedWindowAdd { window_id: Seq<char> },
    UnlinkedWindowClose { window_id: Seq<char> },
    PopupOpen {
        popup_id: Seq<char>,
        width: u32,
        height: u32,
        x: u32,
        y: u32,
        command: Option<Seq<char>>,
    },
    PopupOutput { popup_id: Seq<char>, content: Seq<u8> },
    PopupClose { popup_id: Seq<char> },
}

/// The view of an optional string.
pub open spec fn opt_str_view(o: Option<String>) -> Option<Seq<char>> {
    match o {
        Some(s) => Some(s@),
        None => None,
    }
}

impl View for ControlModeEvent {
    type V = EventView;

    open spec fn view(&self) -> EventView {
        match *self {
            ControlModeEvent::Output { pane_id, content } => EventView::Output {
                pane_id: pane_id@,
                content: content@,
            },
            ControlModeEvent::ExtendedOutput { pane_id, age_ms, content } => {
                EventView::ExtendedOutput { pane_id: pane_id@, age_ms, content: content@ }
            },
            ControlModeEvent::LayoutChange { window_id, layout, visible_layout, flags } => {
                EventView::LayoutChange {
                    window_id: window_id@,
                    layout: layout@,
                    visible_layout: visible_layout@,
                    flags: flags@,
                }
            },
            ControlModeEvent::WindowAdd { window_id } => EventView::WindowAdd {
                window_id: window_id@,
            },
            ControlModeEvent::WindowClose { window_id } => EventView::WindowClose {
                window_id: window_id@,
            },
            ControlModeEvent::WindowRenamed { window_id, name } => EventView::WindowRenamed {
                window_id: window_id@,
                name: name@,
            },
            ControlModeEvent::WindowPaneChanged { window_id, pane_id } => {
                EventView::WindowPaneChanged { window_id: window_id@, pane_id: pane_id@ }
            },
            ControlModeEvent::PaneModeChanged { pane_id } => EventView::PaneModeChanged {
                pane_id: pane_id@,
            },
            ControlModeEvent::SessionChanged { session_id, session_name } => {
                EventView::SessionChanged { session_id: session_id@, session_name: session_name@ }
            },
            ControlModeEvent::SessionRenamed { name } => EventView::SessionRenamed { name: name@ },
            ControlModeEvent::SessionWindowChanged { session_id, window_id } => {
                EventView::SessionWindowChanged { session_id: session_id@, window_id: window_id@ }
            },
            ControlModeEvent::SessionsChanged => EventView::SessionsChanged,
            ControlModeEvent::CommandResponse { timestamp, command_num, output, success } => {
                EventView::CommandResponse { timestamp, command_num, output: output@, success }
            },
            ControlModeEvent::Pause { pane_id } => EventView::Pause { pane_id: pane_id@ },
            ControlModeEvent::Continue { pane_id } => EventView::Continue { pane_id: pane_id@ },
            ControlModeEvent::ClientDetached { client } => EventView::ClientDetached {
                client: client@,
            },
            ControlModeEvent::ClientSessionChanged { client, session_id, session_name } => {
                EventView::ClientSessionChanged {
                    client: client@,
                    session_id: session_id@,
                    session_name: session_name@,
                }
            },
            ControlModeEvent::Exit { reason } => EventView::Exit { reason: opt_str_view(reason) },
            ControlModeEvent::UnlinkedWindowAdd { window_id } => EventView::UnlinkedWindowAdd {
                window_id: window_id@,
            },
            ControlModeEvent::UnlinkedWindowClose { window_id } => {
                EventView::UnlinkedWindowClose { window_id: window_id@ }
            },
            ControlModeEvent::PopupOpen { popup_id, width, height, x, y, command } => {
                EventView::PopupOpen {
                    popup_id: popup_id@,
                    width,
                    height,
                    x,
                    y,
                    command: opt_str_view(command),
                }
            },
            ControlModeEvent::PopupOutput { popup_id, content } => EventView::PopupOutput {
                popup_id: popup_id@,
                content: content@,
            },
            ControlModeEvent::PopupClose { popup_id } => EventView::PopupClose {
                popup_id: popup_id@,
            },
        }
    }
}

/// The view of an optional event.
pub open spec fn opt_event_view(o: Option<ControlModeEvent>) -> Option<EventView> {
    match o {
        Some(e) => Some(e@),
        None => None,
    }
}


/// The event of an `%output` line, given what follows the prefix.
pub open spec fn output_event(rest: Seq<char>) -> Option<EventView> {
    let i = text::find_from(rest, ' ', 0);
    if i < rest.len() {
        Some(
            EventView::Output {
                pane_id: rest.subrange(0, i),
                content: decode_octal_spec(encode_utf8(rest.subrange(i + 1, rest.len() as int))),
            },
        )
    } else {
        Some(EventView::Output { pane_id: text::trim(rest), content: Seq::empty() })
    }
}

/// The event of an `%extended-output` line, given what follows the prefix:
/// the pane, its age and further fields, then ` : ` and the output.
pub open spec fn extended_output_event(rest: Seq<char>) -> Option<EventView> {
    let j = text::find_sub_from(rest, " : "@, 0);
    let header = text::split_ws(rest.subrange(0, j));
    if j >= rest.len() || header.len() == 0 {
        None
    } else {
        Some(
            EventView::ExtendedOutput {
                pane_id: header[0],
                age_ms: if header.len() > 1 {
                    match text::parse_u64_spec(header[1]) {
                        Some(v) => v,
                        None => 0,
                    }
                } else {
                    0
                },
                content: decode_octal_spec(
                    encode_utf8(rest.subrange(j + " : "@.len(), rest.len() as int)),
                ),
            },
        )
    }
}

/// The event of a `%layout-change` line, given what follows the prefix.
pub open spec fn layout_change_event(rest: Seq<char>) -> Option<EventView> {
    let parts = text::split_ws(rest);
    if parts.len() >= 3 {
        Some(
            EventView::LayoutChange {
                window_id: parts[0],
                layout: parts[1],
                visible_layout: parts[2],
                flags: if parts.len() > 3 {
                    parts[3]
                } else {
                    Seq::empty()
                },
            },
        )
    } else {
        None
    }
}

/// The two fields of `rest` around its first space, if it has one.
pub open spec fn two_fields(rest: Seq<char>) -> Option<(Seq<char>, Seq<char>)> {
    let i = text::find_from(rest, ' ', 0);
    if i < rest.len() {
        Some((rest.subrange(0, i), rest.subrange(i + 1, rest.len() as int)))
    } else {
        None
    }
}

/// The first two of the words of `rest`, if it has two.
pub open spec fn two_words(rest: Seq<char>) -> Option<(Seq<char>, Seq<char>)> {
    let parts = text::split_ws(rest);
    if parts.len() >= 2 {
        Some((parts[0], parts[1]))
    } else {
        None
    }
}

/// The event of a `%client-session-changed` line, given what follows the
/// prefix.
pub open spec fn client_session_changed_event(rest: Seq<char>) -> Option<EventView> {
    let parts = text::splitn(rest, 3, ' ');
    if parts.len() >= 3 {
        Some(
            EventView::ClientSessionChanged {
                client: parts[0],
                session_id: parts[1],
                session_name: parts[2],
            },
        )
    } else {
        None
    }
}

/// The event of an `%exit` line, given what follows the prefix.
pub open spec fn exit_event(rest: Seq<char>) -> Option<EventView> {
    let reason = text::trim(rest);
    Some(
        EventView::Exit {
            reason: if reason.len() == 0 {
                None
            } else {
                Some(reason)
            },
        },
    )
}

/// The event that a notification line stands for, if any. The prefixes are
/// tried in the order written here.
pub open spec fn notification(line: Seq<char>) -> Option<EventView> {
    if let Some(rest) = text::strip_prefix(line, "%output "@) {
        output_event(rest)
    } else if let Some(rest) = text::strip_prefix(line, "%extended-output "@) {
        extended_output_event(rest)
    } else if let Some(rest) = text::strip_prefix(line, "%layout-change "@) {
        layout_change_event(rest)
    } else if let Some(rest) = text::strip_prefix(line, "%window-add "@) {
        Some(EventView::WindowAdd { window_id: text::trim(rest) })
    } else if let Some(rest) = text::strip_prefix(line, "%window-close "@) {
        Some(EventView::WindowClose { window_id: text::trim(rest) })
    } else if let Some(rest) = text::strip_prefix(line, "%window-renamed "@) {
        match two_fields(rest) {
            Some((window_id, name)) => Some(EventView::WindowRenamed { window_id, name }),
            None => None,
        }
    } else if let Some(rest) = text::strip_prefix(line, "%window-pane-changed "@) {
        match two_words(rest) {
            Some((window_id, pane_id)) => Some(EventView::WindowPaneChanged { window_id, pane_id }),
            None => None,
        }
    } else if let Some(rest) = text::strip_prefix(line, "%pane-mode-changed "@) {
        Some(EventView::PaneModeChanged { pane_id: text::trim(rest) })
    } else if let Some(rest) = text::strip_prefix(line, "%session-changed "@) {
        match two_fields(rest) {
            Some((session_id, session_name)) => Some(
                EventView::SessionChanged { session_id, session_name },
            ),
            None => None,
        }
    } else if let Some(rest) = text::strip_prefix(line, "%session-renamed "@) {
        Some(EventView::SessionRenamed { name: text::trim(rest) })
    } else if let Some(rest) = text::strip_prefix(line, "%session-window-changed "@) {
        match two_words(rest) {
            Some((session_id, window_id)) => Some(
                EventView::SessionWindowChanged { session_id, window_id },
            ),
            None => None,
        }
    } else if line == "%sessions-changed"@ {
        Some(EventView::SessionsChanged)
    } else if let Some(rest) = text::strip_prefix(line, "%pause "@) {
        Some(EventView::Pause { pane_id: text::trim(rest) })
    } else if let Some(rest) = text::strip_prefix(line, "%continue "@) {
        Some(EventView::Continue { pane_id: text::trim(rest) })
    } else if let Some(rest) = text::strip_prefix(line, "%client-detached "@) {
        Some(EventView::ClientDetached { client: text::trim(rest) })
    } else if let Some(rest) = text::strip_prefix(line, "%client-session-changed "@) {
        client_session_changed_event(rest)
    } else if let Some(rest) = text::strip_prefix(line, "%exit"@) {
        exit_event(rest)
    } else if let Some(rest) = text::strip_prefix(line, "%unlinked-window-add "@) {
        Some(EventView::UnlinkedWindowAdd { window_id: text::trim(rest) })
    } else if let Some(rest) = text::strip_prefix(line, "%unlinked-window-close "@) {
        Some(EventView::UnlinkedWindowClose { window_id: text::trim(rest) })
    } else {
        None
    }
}

/// The state of a [`Parser`]: whether a response block is open, the output
/// gathered in it so far, and the header of the block.
pub struct ParserView {
    pub in_response: bool,
    pub buffer: Seq<char>,
    pub has_lines: bool,
    pub timestamp: u64,
    pub command_num: u32,
}

/// The state after a `%begin` line. The block opens only where the line has
/// a time stamp and a command number; a field that is no number counts as 0.
pub open spec fn begin_step(st: ParserView, line: Seq<char>) -> ParserView {
    let parts = text::split_ws(line);
    if parts.len() >= 3 {
        ParserView {
            in_response: true,
            buffer: Seq::empty(),
            has_lines: false,
            timestamp: match text::parse_u64_spec(parts[1]) {
                Some(v) => v,
                None => 0,
            },
            command_num: match text::parse_u32_spec(parts[2]) {
                Some(v) => v,
                None => 0,
            },
        }
    } else {
        st
    }
}

/// The state after an `%end` or `%error` line.
pub open spec fn end_state(st: ParserView) -> ParserView {
    ParserView { in_response: false, buffer: Seq::empty(), has_lines: false, ..st }
}

/// The event of an `%end` or `%error` line: the gathered output under the
/// header of the block.
pub open spec fn end_event(st: ParserView, success: bool) -> EventView {
    EventView::CommandResponse {
        timestamp: st.timestamp,
        command_num: st.command_num,
        output: st.buffer,
        success,
    }
}

/// The state after one more line of output in an open block.
pub open spec fn gather_step(st: ParserView, line: Seq<char>) -> ParserView {
    ParserView {
        buffer: if st.has_lines {
            st.buffer + seq!['\n'] + line
        } else {
            line
        },
        has_lines: true,
        ..st
    }
}

/// Whether `line` opens or closes a response block.
pub open spec fn is_block_marker(line: Seq<char>) -> bool {
    text::starts_with(line, "%begin "@) || text::starts_with(line, "%end "@) || text::starts_with(
        line,
        "%error "@,
    )
}

/// One step of the parser: the state after `line` and the event that the
/// line completes.
pub open spec fn parse_step(st: ParserView, line: Seq<char>) -> (ParserView, Option<EventView>) {
    if text::starts_with(line, "%begin "@) {
        (begin_step(st, line), None)
    } else if text::starts_with(line, "%end "@) {
        (end_state(st), Some(end_event(st, true)))
    } else if text::starts_with(line, "%error "@) {
        (end_state(st), Some(end_event(st, false)))
    } else if st.in_response {
        (gather_step(st, line), None)
    } else if !text::starts_with(line, "%"@) {
        (st, None)
    } else {
        (st, notification(line))
    }
}


/// What follows `prefix` in `l`, where `l` begins with it.
fn after(l: &[char], prefix: &str) -> (r: Option<Vec<char>>)
    ensures
        match r {
            Some(v) => text::strip_prefix(l@, prefix@) == Some(v@),
            None => text::strip_prefix(l@, prefix@).is_none(),
        },
{
    let p = text::chars_of(prefix);
    text::strip_prefix_chars(l, p.as_slice())
}

/// The bytes that the octal-encoded characters `value` stand for.
fn decode_chars(value: &[char]) -> (out: Vec<u8>)
    ensures
        out@ == decode_octal_spec(encode_utf8(value@)),
{
    let s = text::string_of(value);
    decode_octal(s.as_str())
}

/// The trimmed characters of `rest` as a string.
fn trimmed(rest: &[char]) -> (s: String)
    ensures
        s@ == text::trim(rest@),
{
    let t = text::trim_chars(rest);
    text::string_of(t.as_slice())
}

fn split_two_fields(rest: &[char]) -> (r: Option<(String, String)>)
    ensures
        match r {
            Some((a, b)) => two_fields(rest@) == Some((a@, b@)),
            None => two_fields(rest@).is_none(),
        },
{
    let i = text::find_char_from(rest, ' ', 0);
    proof {
        text::lemma_find_from(rest@, ' ', 0);
    }
    if i < rest.len() {
        let a = text::sub_vec(rest, 0, i);
        let b = text::sub_vec(rest, i + 1, rest.len());
        Some((text::string_of(a.as_slice()), text::string_of(b.as_slice())))
    } else {
        None
    }
}

fn split_two_words(rest: &[char]) -> (r: Option<(String, String)>)
    ensures
        match r {
            Some((a, b)) => two_words(rest@) == Some((a@, b@)),
            None => two_words(rest@).is_none(),
        },
{
    let parts = text::split_whitespace(rest);
    if parts.len() >= 2 {
        assert(text::views(parts@)[0] == parts@[0]@);
        assert(text::views(parts@)[1] == parts@[1]@);
        Some((text::string_of(parts[0].as_slice()), text::string_of(parts[1].as_slice())))
    } else {
        None
    }
}

/// A parser for the control-mode stream. It keeps the state of the
/// response block that is open, if any.
pub struct Parser {
    in_response: bool,
    response_buffer: String,
    response_has_lines: bool,
    response_timestamp: u64,
    response_command_num: u32,
}

impl View for Parser {
    type V = ParserView;

    closed spec fn view(&self) -> ParserView {
        ParserView {
            in_response: self.in_response,
            buffer: self.response_buffer@,
            has_lines: self.response_has_lines,
            timestamp: self.response_timestamp,
            command_num: self.response_command_num,
        }
    }
}

impl Parser {
    /// A parser with no response block open.
    pub fn new() -> (p: Parser)
        ensures
            p@ == (ParserView {
                in_response: false,
                buffer: Seq::empty(),
                has_lines: false,
                timestamp: 0,
                command_num: 0,
            }),
    {
        Parser {
            in_response: false,
            response_buffer: String::new(),
            response_has_lines: false,
            response_timestamp: 0,
            response_command_num: 0,
        }
    }

    /// Takes one line of the stream, without its line ending. Returns the
    /// event that the line completes, if any.
    pub fn parse_line(&mut self, line: &str) -> (r: Option<ControlModeEvent>)
        ensures
            (final(self)@, opt_event_view(r)) == parse_step(old(self)@, line@),
    {
        let l = text::chars_of(line);
        let begin = text::chars_of("%begin ");
        let end = text::chars_of("%end ");
        let error = text::chars_of("%error ");
        let percent = text::chars_of("%");
        if text::has_at(l.as_slice(), begin.as_slice(), 0) {
            self.handle_begin(l.as_slice());
            return None;
        }
        if text::has_at(l.as_slice(), end.as_slice(), 0) {
            return Some(self.handle_end(true));
        }
        if text::has_at(l.as_slice(), error.as_slice(), 0) {
            return Some(self.handle_end(false));
        }
        if self.in_response {
            if self.response_has_lines {
                self.response_buffer.append("\n");
                proof {
                    reveal_strlit("\n");
                    assert("\n"@ =~= seq!['\n']);
                }
                self.response_buffer.append(line);
            } else {
                self.response_buffer = text::string_of(l.as_slice());
            }
            self.response_has_lines = true;
            return None;
        }
        if !text::has_at(l.as_slice(), percent.as_slice(), 0) {
            return None;
        }
        Self::parse_notification(l.as_slice())
    }

    fn handle_begin(&mut self, l: &[char])
        ensures
            final(self)@ == begin_step(old(self)@, l@),
    {
        let parts = text::split_whitespace(l);
        if parts.len() >= 3 {
            assert(text::views(parts@)[1] == parts@[1]@);
            assert(text::views(parts@)[2] == parts@[2]@);
            self.in_response = true;
            self.response_timestamp = match text::parse_u64(parts[1].as_slice()) {
                Some(v) => v,
                None => 0,
            };
            self.response_command_num = match text::parse_u32(parts[2].as_slice()) {
                Some(v) => v,
                None => 0,
            };
            self.response_buffer = String::new();
            self.response_has_lines = false;
        }
    }

    fn handle_end(&mut self, success: bool) -> (e: ControlModeEvent)
        ensures
            final(self)@ == end_state(old(self)@),
            e@ == end_event(old(self)@, success),
    {
        let mut output = String::new();
        std::mem::swap(&mut output, &mut self.response_buffer);
        self.in_response = false;
        self.response_has_lines = false;
        ControlModeEvent::CommandResponse {
            timestamp: self.response_timestamp,
            command_num: self.response_command_num,
            output,
            success,
        }
    }

    fn parse_notification(l: &[char]) -> (r: Option<ControlModeEvent>)
        ensures
            opt_event_view(r) == notification(l@),
    {
        if let Some(rest) = after(l, "%output ") {
            return Self::parse_output(rest.as_slice());
        }
        if let Some(rest) = after(l, "%extended-output ") {
            return Self::parse_extended_output(rest.as_slice());
        }
        if let Some(rest) = after(l, "%layout-change ") {
            return Self::parse_layout_change(rest.as_slice());
        }
        if let Some(rest) = after(l, "%window-add ") {
            return Some(ControlModeEvent::WindowAdd { window_id: trimmed(rest.as_slice()) });
        }
        if let Some(rest) = after(l, "%window-close ") {
            return Some(ControlModeEvent::WindowClose { window_id: trimmed(rest.as_slice()) });
        }
        if let Some(rest) = after(l, "%window-renamed ") {
            return Self::parse_window_renamed(rest.as_slice());
        }
        if let Some(rest) = after(l, "%window-pane-changed ") {
            return Self::parse_window_pane_changed(rest.as_slice());
        }
        if let Some(rest) = after(l, "%pane-mode-changed ") {
            return Some(ControlModeEvent::PaneModeChanged { pane_id: trimmed(rest.as_slice()) });
        }
        if let Some(rest) = after(l, "%session-changed ") {
            return Self::parse_session_changed(rest.as_slice());
        }
        if let Some(rest) = after(l, "%session-renamed ") {
            return Some(ControlModeEvent::SessionRenamed { name: trimmed(rest.as_slice()) });
        }
        if let Some(rest) = after(l, "%session-window-changed ") {
            return Self::parse_session_window_changed(rest.as_slice());
        }
        let sessions_changed = text::chars_of("%sessions-changed");
        if text::chars_eq(l, sessions_changed.as_slice()) {
            return Some(ControlModeEvent::SessionsChanged);
        }
        if let Some(rest) = after(l, "%pause ") {
            return Some(ControlModeEvent::Pause { pane_id: trimmed(rest.as_slice()) });
        }
        if let Some(rest) = after(l, "%continue ") {
            return Some(ControlModeEvent::Continue { pane_id: trimmed(rest.as_slice()) });
        }
        if let Some(rest) = after(l, "%client-detached ") {
            return Some(ControlModeEvent::ClientDetached { client: trimmed(rest.as_slice()) });
        }
        if let Some(rest) = after(l, "%client-session-changed ") {
            return Self::parse_client_session_changed(rest.as_slice());
        }
        if let Some(rest) = after(l, "%exit") {
            let reason = text::trim_chars(rest.as_slice());
            return Some(
                ControlModeEvent::Exit {
                    reason: if reason.len() == 0 {
                        None
                    } else {
                        Some(text::string_of(reason.as_slice()))
                    },
                },
            );
        }
        if let Some(rest) = after(l, "%unlinked-window-add ") {
            return Some(
                ControlModeEvent::UnlinkedWindowAdd { window_id: trimmed(rest.as_slice()) },
            );
        }
        if let Some(rest) = after(l, "%unlinked-window-close ") {
            return Some(
                ControlModeEvent::UnlinkedWindowClose { window_id: trimmed(rest.as_slice()) },
            );
        }
        None
    }

    fn parse_output(rest: &[char]) -> (r: Option<ControlModeEvent>)
        ensures
            opt_event_view(r) == output_event(rest@),
    {
        let i = text::find_char_from(rest, ' ', 0);
        proof {
            text::lemma_find_from(rest@, ' ', 0);
        }
        if i < rest.len() {
            let pane = text::sub_vec(rest, 0, i);
            let value = text::sub_vec(rest, i + 1, rest.len());
            Some(
                ControlModeEvent::Output {
                    pane_id: text::string_of(pane.as_slice()),
                    content: decode_chars(value.as_slice()),
                },
            )
        } else {
            Some(ControlModeEvent::Output { pane_id: trimmed(rest), content: Vec::new() })
        }
    }

    fn parse_extended_output(rest: &[char]) -> (r: Option<ControlModeEvent>)
        ensures
            opt_event_view(r) == extended_output_event(rest@),
    {
        let sep = text::chars_of(" : ");
        let j = text::find_sub(rest, sep.as_slice(), 0);
        proof {
            text::lemma_find_sub_from(rest@, sep@, 0);
        }
        if j >= rest.len() {
            return None;
        }
        let head = text::sub_vec(rest, 0, j);
        let header = text::split_whitespace(head.as_slice());
        if header.len() == 0 {
            return None;
        }
        assert(text::views(header@)[0] == header@[0]@);
        let age_ms: u64 = if header.len() > 1 {
            assert(text::views(header@)[1] == header@[1]@);
            match text::parse_u64(header[1].as_slice()) {
                Some(v) => v,
                None => 0,
            }
        } else {
            0
        };
        let value = text::sub_vec(rest, j + sep.len(), rest.len());
        Some(
            ControlModeEvent::ExtendedOutput {
                pane_id: text::string_of(header[0].as_slice()),
                age_ms,
                content: decode_chars(value.as_slice()),
            },
        )
    }

    fn parse_layout_change(rest: &[char]) -> (r: Option<ControlModeEvent>)
        ensures
            opt_event_view(r) == layout_change_event(rest@),
    {
        let parts = text::split_whitespace(rest);
        if parts.len() >= 3 {
            assert(text::views(parts@)[0] == parts@[0]@);
            assert(text::views(parts@)[1] == parts@[1]@);
            assert(text::views(parts@)[2] == parts@[2]@);
            let flags = if parts.len() > 3 {
                assert(text::views(parts@)[3] == parts@[3]@);
                text::string_of(parts[3].as_slice())
            } else {
                String::new()
            };
            Some(
                ControlModeEvent::LayoutChange {
                    window_id: text::string_of(parts[0].as_slice()),
                    layout: text::string_of(parts[1].as_slice()),
                    visible_layout: text::string_of(parts[2].as_slice()),
                    flags,
                },
            )
        } else {
            None
        }
    }

    fn parse_window_renamed(rest: &[char]) -> (r: Option<ControlModeEvent>)
        ensures
            opt_event_view(r) == (match two_fields(rest@) {
                Some((window_id, name)) => Some(EventView::WindowRenamed { window_id, name }),
                None => None,
            }),
    {
        match split_two_fields(rest) {
            Some((window_id, name)) => Some(ControlModeEvent::WindowRenamed { window_id, name }),
            None => None,
        }
    }

    fn parse_window_pane_changed(rest: &[char]) -> (r: Option<ControlModeEvent>)
        ensures
            opt_event_view(r) == (match two_words(rest@) {
                Some((window_id, pane_id)) => Some(
                    EventView::WindowPaneChanged { window_id, pane_id },
                ),
                None => None,
            }),
    {
        match split_two_words(rest) {
            Some((window_id, pane_id)) => Some(
                ControlModeEvent::WindowPaneChanged { window_id, pane_id },
            ),
            None => None,
        }
    }

    fn parse_session_changed(rest: &[char]) -> (r: Option<ControlModeEvent>)
        ensures
            opt_event_view(r) == (match two_fields(rest@) {
                Some((session_id, session_name)) => Some(
                    EventView::SessionChanged { session_id, session_name },
                ),
                None => None,
            }),
    {
        match split_two_fields(rest) {
            Some((session_id, session_name)) => Some(
                ControlModeEvent::SessionChanged { session_id, session_name },
            ),
            None => None,
        }
    }

    fn parse_session_window_changed(rest: &[char]) -> (r: Option<ControlModeEvent>)
        ensures
            opt_event_view(r) == (match two_words(rest@) {
                Some((session_id, window_id)) => Some(
                    EventView::SessionWindowChanged { session_id, window_id },
                ),
                None => None,
            }),
    {
        match split_two_words(rest) {
            Some((session_id, window_id)) => Some(
                ControlModeEvent::SessionWindowChanged { session_id, window_id },
            ),
            None => None,
        }
    }

    fn parse_client_session_changed(rest: &[char]) -> (r: Option<ControlModeEvent>)
        ensures
            opt_event_view(r) == client_session_changed_event(rest@),
    {
        let parts = text::splitn_chars(rest, 3, ' ');
        if parts.len() >= 3 {
            assert(text::views(parts@)[0] == parts@[0]@);
            assert(text::views(parts@)[1] == parts@[1]@);
            assert(text::views(parts@)[2] == parts@[2]@);
            Some(
                ControlModeEvent::ClientSessionChanged {
                    client: text::string_of(parts[0].as_slice()),
                    session_id: text::string_of(parts[1].as_slice()),
                    session_name: text::string_of(parts[2].as_slice()),
                },
            )
        } else {
            None
        }
    }
}

impl Default for Parser {
    fn default() -> (p: Parser)
        ensures
            p@ == (ParserView {
                in_response: false,
                buffer: Seq::empty(),
                has_lines: false,
                timestamp: 0,
                command_num: 0,
            }),
    {
        Parser::new()
    }
}


/// The state after the lines `lines`, taken one by one from state `st`.
pub open spec fn feed(st: ParserView, lines: Seq<Seq<char>>) -> ParserView
    decreases lines.len(),
{
    if lines.len() == 0 {
        st
    } else {
        parse_step(feed(st, lines.drop_last()), lines.last()).0
    }
}

/// In an open block, lines that are no block markers complete no event and
/// are gathered with exactly one line feed between neighbours.
pub proof fn lemma_feed_gathers(st: ParserView, lines: Seq<Seq<char>>)
    requires
        st.in_response,
        !st.has_lines,
        forall|i: int| 0 <= i < lines.len() ==> !is_block_marker(#[trigger] lines[i]),
    ensures
        feed(st, lines).in_response,
        feed(st, lines).has_lines == (lines.len() > 0),
        lines.len() > 0 ==> feed(st, lines).buffer == text::join(lines, seq!['\n']),
        feed(st, lines).timestamp == st.timestamp,
        feed(st, lines).command_num == st.command_num,
        forall|k: int|
            0 <= k < lines.len() ==> (#[trigger] parse_step(
                feed(st, lines.subrange(0, k)),
                lines[k],
            )).1.is_none(),
    decreases lines.len(),
{
    if lines.len() > 0 {
        let init = lines.drop_last();
        lemma_feed_gathers(st, init);
        assert(!is_block_marker(lines.last()));
        assert forall|k: int| 0 <= k < lines.len() implies (#[trigger] parse_step(
            feed(st, lines.subrange(0, k)),
            lines[k],
        )).1.is_none() by {
            if k < init.len() {
                assert(init.subrange(0, k) =~= lines.subrange(0, k));
                assert(init[k] == lines[k]);
            } else {
                assert(lines.subrange(0, k) =~= init);
            }
        }
    }
}

/// A response block yields exactly one event: the lines from `%begin` up to
/// the closing line complete none, and the closing line gives a
/// `CommandResponse` whose output is the lines between, joined by single line
/// feeds, and which reports success exactly for `%end`.
pub proof fn lemma_response_block(
    st: ParserView,
    begin: Seq<char>,
    lines: Seq<Seq<char>>,
    close: Seq<char>,
)
    requires
        text::starts_with(begin, "%begin "@),
        text::split_ws(begin).len() >= 3,
        forall|i: int| 0 <= i < lines.len() ==> !is_block_marker(#[trigger] lines[i]),
        text::starts_with(close, "%end "@) || text::starts_with(close, "%error "@),
    ensures
        parse_step(st, begin).1.is_none(),
        forall|k: int|
            0 <= k < lines.len() ==> (#[trigger] parse_step(
                feed(parse_step(st, begin).0, lines.subrange(0, k)),
                lines[k],
            )).1.is_none(),
        parse_step(feed(parse_step(st, begin).0, lines), close).1 == Some(
            EventView::CommandResponse {
                timestamp: parse_step(st, begin).0.timestamp,
                command_num: parse_step(st, begin).0.command_num,
                output: text::join(lines, seq!['\n']),
                success: text::starts_with(close, "%end "@),
            },
        ),
        !parse_step(feed(parse_step(st, begin).0, lines), close).0.in_response,
{
    let opened = parse_step(st, begin).0;
    lemma_feed_gathers(opened, lines);
    reveal_strlit("%begin ");
    reveal_strlit("%end ");
    reveal_strlit("%error ");
    assert(!text::starts_with(close, "%begin "@)) by {
        if text::starts_with(close, "%begin "@) {
            assert(close.subrange(0, 7)[1] == 'b');
            if text::starts_with(close, "%end "@) {
                assert(close.subrange(0, 5)[1] == 'e');
            } else {
                assert(close.subrange(0, 7)[1] == 'e');
            }
        }
    }
    assert(!(text::starts_with(close, "%end "@) && text::starts_with(close, "%error "@))) by {
        if text::starts_with(close, "%end "@) && text::starts_with(close, "%error "@) {
            assert(close.subrange(0, 5)[2] == 'n');
            assert(close.subrange(0, 7)[2] == 'r');
        }
    }
}

} // verus!
