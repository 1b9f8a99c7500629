//! The line protocol of a control-mode connection.
//!
//! tmux runs in control mode under a pseudo-terminal. Commands go to it one
//! on each line; its output is read line by line. Starting the process and
//! moving the bytes is left to the caller.

use crate::monitor::{INITIAL_PTY_COLS, INITIAL_PTY_ROWS};
use crate::parser::{opt_event_view, parse_step, ControlModeEvent, Parser};
use crate::text;
use vstd::prelude::*;
use vstd::string::StringExecFns;

verus! {

/// How many events may wait between the reader and the monitor.
pub const EVENT_CHANNEL_CAPACITY: usize = 1000;

/// For how many milliseconds a closing connection waits for tmux to exit.
/// It never kills tmux: a control-mode client that is killed can take the
/// tmux server down with it.
pub const GRACEFUL_CLOSE_TIMEOUT: u64 = 3000;

/// The shell command that starts tmux in control mode on the session
/// `session`: it gives the terminal its first size and then attaches to the
/// session, or creates it where `create` holds.
pub open spec fn control_mode_command(session: Seq<char>, create: bool) -> Seq<char> {
    "stty cols "@ + text::decimal(INITIAL_PTY_COLS as nat) + " rows "@ + text::decimal(
        INITIAL_PTY_ROWS as nat,
    ) + " 2>/dev/null; tmux -CC "@ + (if create {
        "new-session -s "@
    } else {
        "attach-session -t "@
    }) + session
}

fn control_command(session_name: &str, create: bool) -> (c: String)
    ensures
        c@ == control_mode_command(session_name@, create),
{
    let mut c = text::string_of_str("stty cols ");
    c.append(text::decimal_string(INITIAL_PTY_COLS as u64).as_str());
    c.append(" rows ");
    c.append(text::decimal_string(INITIAL_PTY_ROWS as u64).as_str());
    c.append(" 2>/dev/null; tmux -CC ");
    if create {
        c.append("new-session -s ");
    } else {
        c.append("attach-session -t ");
    }
    c.append(session_name);
    c
}

/// The shell command that attaches to the session `session_name` in
/// control mode.
pub fn attach_command(session_name: &str) -> (c: String)
    ensures
        c@ == control_mode_command(session_name@, false),
{
    control_command(session_name, false)
}

/// The shell command that creates the session `session_name` in control
/// mode.
pub fn new_session_command(session_name: &str) -> (c: String)
    ensures
        c@ == control_mode_command(session_name@, true),
{
    control_command(session_name, true)
}

/// The message of the error for a session that does not exist.
pub fn missing_session_error(session_name: &str) -> (m: String)
    ensures
        m@ == "Session '"@ + session_name@ + "' does not exist"@,
{
    let mut m = text::string_of_str("Session '");
    m.append(session_name);
    m.append("' does not exist");
    m
}

/// Whether a monitor that failed to attach with the error `error` is to
/// create the session: it is set to do so, and the session does not exist.
pub fn should_create_session(create_session: bool, error: &str) -> (r: bool)
    ensures
        r == (create_session && text::contains_sub(error@, "does not exist"@)),
{
    if !create_session {
        return false;
    }
    let e = text::chars_of(error);
    let pat = text::chars_of("does not exist");
    text::find_sub(e.as_slice(), pat.as_slice(), 0) < e.len()
}

/// The counter of the commands sent on a connection. tmux numbers the
/// answers to the commands of a client from 0; the counter tells which
/// number the answer to the next command will have.
#[derive(Debug, Clone, Copy, PartialEq, Eq, Structural)]
pub struct CommandCounter {
    pub next: u32,
}

/// `n` commands later, counted within 32 bits.
pub open spec fn advanced(next: u32, n: nat) -> u32 {
    ((next + n) % 0x1_0000_0000) as u32
}

impl CommandCounter {
    /// The counter of a fresh connection.
    pub fn new() -> (c: CommandCounter)
        ensures
            c.next == 0,
    {
        CommandCounter { next: 0 }
    }

    /// Counts one command. Returns the number that tmux will give its
    /// answer: the value of the counter before the command.
    pub fn send_command(&mut self) -> (number: u32)
        ensures
            number == old(self).next,
            final(self).next == advanced(old(self).next, 1),
    {
        let number = self.next;
        self.next = if self.next == u32::MAX {
            0
        } else {
            self.next + 1
        };
        number
    }

    /// Counts `count` commands sent in one batch. Returns the number that
    /// tmux will give the answer to the first of them.
    pub fn send_commands_batch(&mut self, count: usize) -> (number: u32)
        ensures
            number == old(self).next,
            final(self).next == advanced(old(self).next, count as nat),
    {
        let number = self.next;
        let total: u128 = self.next as u128 + count as u128;
        self.next = (total % 0x1_0000_0000) as u32;
        number
    }

    /// The number that tmux will give the answer to the next command.
    pub fn command_counter(&self) -> (n: u32)
        ensures
            n == self.next,
    {
        self.next
    }
}

/// Index behind the last byte of `raw` before index `to` that is neither
/// a line feed nor a carriage return.
pub open spec fn line_end(raw: Seq<u8>, to: int) -> int
    decreases to,
{
    if to <= 0 || to > raw.len() || (raw[to - 1] != 0x0a && raw[to - 1] != 0x0d) {
        to
    } else {
        line_end(raw, to - 1)
    }
}

/// The text of a line as it was read: without the line feeds and carriage
/// returns at its end, and read as UTF-8 with what is invalid replaced.
pub open spec fn line_text(raw: Seq<u8>) -> Seq<char> {
    text::lossy_text(raw.subrange(0, line_end(raw, raw.len() as int)))
}

/// Reads a line as it came from tmux.
pub fn decode_line(raw: &[u8]) -> (line: String)
    ensures
        line@ == line_text(raw@),
{
    let mut end: usize = raw.len();
    while end > 0 && (raw[end - 1] == 0x0a || raw[end - 1] == 0x0d)
        invariant
            end <= raw@.len(),
            line_end(raw@, raw@.len() as int) == line_end(raw@, end as int),
        decreases end,
    {
        end -= 1;
    }
    text::lossy_string(vstd::slice::slice_subrange(raw, 0, end))
}

/// Hands a line as it came from tmux to the parser. Returns the event that
/// the line completes, if any.
pub fn parse_raw_line(parser: &mut Parser, raw: &[u8]) -> (r: Option<ControlModeEvent>)
    ensures
        (final(parser)@, opt_event_view(r)) == parse_step(old(parser)@, line_text(raw@)),
{
    let line = decode_line(raw);
    parser.parse_line(line.as_str())
}

} // verus!
