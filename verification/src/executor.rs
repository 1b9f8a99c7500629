//! The tmux invocations behind the commands of clients, and what tmux
//! answers to them.
//!
//! An invocation is the list of arguments that the `tmux` program is
//! started with. Running it is left to the caller.

use crate::lines::{non_empty, number_or};
use crate::text;
use crate::DEFAULT_SESSION_NAME;
use vstd::prelude::*;
use vstd::string::StringExecFns;

verus! {

/// The texts of `parts`, in order.
pub open spec fn slice_views(parts: Seq<&str>) -> Seq<Seq<char>> {
    Seq::new(parts.len(), |i: int| parts[i]@)
}

/// Owned copies of the arguments `parts`.
pub fn owned_args(parts: Vec<&str>) -> (args: Vec<String>)
    ensures
        text::str_views(args@) == slice_views(parts@),
{
    let mut args: Vec<String> = Vec::new();
    let mut i: usize = 0;
    while i < parts.len()
        invariant
            i <= parts@.len(),
            args@.len() == i,
            forall|j: int| 0 <= j < i ==> (#[trigger] args@[j])@ == parts@[j]@,
        decreases parts@.len() - i,
    {
        args.push(text::string_of_str(parts[i]));
        i += 1;
    }
    assert(text::str_views(args@) =~= slice_views(parts@));
    args
}

/// The invocation that prints what the active pane of the session shows, with escape sequences.
pub fn capture_pane(session_name: &str) -> (args: Vec<String>)
    ensures
        text::str_views(args@) == seq!["capture-pane"@, "-t"@, session_name@, "-p"@, "-e"@],
{
    owned_args(vec!["capture-pane", "-t", session_name, "-p", "-e"])
}

/// [`capture_pane`] for the session with the default name.
pub fn capture_pane_default() -> (args: Vec<String>)
    ensures
        text::str_views(args@) == seq!["capture-pane"@, "-t"@, DEFAULT_SESSION_NAME@, "-p"@, "-e"@],
{
    capture_pane(DEFAULT_SESSION_NAME)
}

/// The invocation that prints the latest paste buffer.
pub fn show_buffer() -> (args: Vec<String>)
    ensures
        text::str_views(args@) == seq!["show-buffer"@],
{
    owned_args(vec!["show-buffer"])
}

/// The invocation that prints the whole history of the active pane of the session.
pub fn capture_pane_with_history(session_name: &str) -> (args: Vec<String>)
    ensures
        text::str_views(args@) == seq!["capture-pane"@, "-t"@, session_name@, "-p"@, "-e"@, "-S"@, "-"@],
{
    owned_args(vec!["capture-pane", "-t", session_name, "-p", "-e", "-S", "-"])
}

/// [`capture_pane_with_history`] for the session with the default name.
pub fn capture_pane_with_history_default() -> (args: Vec<String>)
    ensures
        text::str_views(args@) == seq!["capture-pane"@, "-t"@, DEFAULT_SESSION_NAME@, "-p"@, "-e"@, "-S"@, "-"@],
{
    capture_pane_with_history(DEFAULT_SESSION_NAME)
}

/// The invocation that sends keys to the session.
pub fn send_keys(session_name: &str, keys: &str) -> (args: Vec<String>)
    ensures
        text::str_views(args@) == seq!["send-keys"@, "-t"@, session_name@, keys@],
{
    owned_args(vec!["send-keys", "-t", session_name, keys])
}

/// The invocation that prints width, height and cursor of the active pane, separated by commas.
pub fn get_pane_info(session_name: &str) -> (args: Vec<String>)
    ensures
        text::str_views(args@) == seq!["display-message"@, "-t"@, session_name@, "-p"@, "#{pane_width},#{pane_height},#{cursor_x},#{cursor_y}"@],
{
    owned_args(vec!["display-message", "-t", session_name, "-p", "#{pane_width},#{pane_height},#{cursor_x},#{cursor_y}"])
}

/// [`get_pane_info`] for the session with the default name.
pub fn get_pane_info_default() -> (args: Vec<String>)
    ensures
        text::str_views(args@) == seq!["display-message"@, "-t"@, DEFAULT_SESSION_NAME@, "-p"@, "#{pane_width},#{pane_height},#{cursor_x},#{cursor_y}"@],
{
    get_pane_info(DEFAULT_SESSION_NAME)
}

/// The invocation that splits the active pane into two side by side.
pub fn split_pane_horizontal(session_name: &str) -> (args: Vec<String>)
    ensures
        text::str_views(args@) == seq!["split-window"@, "-t"@, session_name@, "-h"@],
{
    owned_args(vec!["split-window", "-t", session_name, "-h"])
}

/// [`split_pane_horizontal`] for the session with the default name.
pub fn split_pane_horizontal_default() -> (args: Vec<String>)
    ensures
        text::str_views(args@) == seq!["split-window"@, "-t"@, DEFAULT_SESSION_NAME@, "-h"@],
{
    split_pane_horizontal(DEFAULT_SESSION_NAME)
}

/// The invocation that splits the active pane into two, one above the other.
pub fn split_pane_vertical(session_name: &str) -> (args: Vec<String>)
    ensures
        text::str_views(args@) == seq!["split-window"@, "-t"@, session_name@, "-v"@],
{
    owned_args(vec!["split-window", "-t", session_name, "-v"])
}

/// [`split_pane_vertical`] for the session with the default name.
pub fn split_pane_vertical_default() -> (args: Vec<String>)
    ensures
        text::str_views(args@) == seq!["split-window"@, "-t"@, DEFAULT_SESSION_NAME@, "-v"@],
{
    split_pane_vertical(DEFAULT_SESSION_NAME)
}

/// The invocation that opens a window in the session.
pub fn new_window(session_name: &str) -> (args: Vec<String>)
    ensures
        text::str_views(args@) == seq!["new-window"@, "-t"@, session_name@],
{
    owned_args(vec!["new-window", "-t", session_name])
}

/// [`new_window`] for the session with the default name.
pub fn new_window_default() -> (args: Vec<String>)
    ensures
        text::str_views(args@) == seq!["new-window"@, "-t"@, DEFAULT_SESSION_NAME@],
{
    new_window(DEFAULT_SESSION_NAME)
}

/// The invocation that makes the next window the active one.
pub fn next_window(session_name: &str) -> (args: Vec<String>)
    ensures
        text::str_views(args@) == seq!["next-window"@, "-t"@, session_name@],
{
    owned_args(vec!["next-window", "-t", session_name])
}

/// [`next_window`] for the session with the default name.
pub fn next_window_default() -> (args: Vec<String>)
    ensures
        text::str_views(args@) == seq!["next-window"@, "-t"@, DEFAULT_SESSION_NAME@],
{
    next_window(DEFAULT_SESSION_NAME)
}

/// The invocation that makes the previous window the active one.
pub fn previous_window(session_name: &str) -> (args: Vec<String>)
    ensures
        text::str_views(args@) == seq!["previous-window"@, "-t"@, session_name@],
{
    owned_args(vec!["previous-window", "-t", session_name])
}

/// [`previous_window`] for the session with the default name.
pub fn previous_window_default() -> (args: Vec<String>)
    ensures
        text::str_views(args@) == seq!["previous-window"@, "-t"@, DEFAULT_SESSION_NAME@],
{
    previous_window(DEFAULT_SESSION_NAME)
}

/// The invocation that closes the active pane.
pub fn kill_pane(session_name: &str) -> (args: Vec<String>)
    ensures
        text::str_views(args@) == seq!["kill-pane"@, "-t"@, session_name@],
{
    owned_args(vec!["kill-pane", "-t", session_name])
}

/// [`kill_pane`] for the session with the default name.
pub fn kill_pane_default() -> (args: Vec<String>)
    ensures
        text::str_views(args@) == seq!["kill-pane"@, "-t"@, DEFAULT_SESSION_NAME@],
{
    kill_pane(DEFAULT_SESSION_NAME)
}

/// The invocation that closes the active window.
pub fn kill_window(session_name: &str) -> (args: Vec<String>)
    ensures
        text::str_views(args@) == seq!["kill-window"@, "-t"@, session_name@],
{
    owned_args(vec!["kill-window", "-t", session_name])
}

/// [`kill_window`] for the session with the default name.
pub fn kill_window_default() -> (args: Vec<String>)
    ensures
        text::str_views(args@) == seq!["kill-window"@, "-t"@, DEFAULT_SESSION_NAME@],
{
    kill_window(DEFAULT_SESSION_NAME)
}

/// The invocation that makes the pane `pane_id` the active one.
pub fn select_pane_by_id(pane_id: &str) -> (args: Vec<String>)
    ensures
        text::str_views(args@) == seq!["select-pane"@, "-t"@, pane_id@],
{
    owned_args(vec!["select-pane", "-t", pane_id])
}

/// The invocation that prints what the pane `pane_id` shows, with escape sequences.
pub fn capture_pane_by_id(pane_id: &str) -> (args: Vec<String>)
    ensures
        text::str_views(args@) == seq!["capture-pane"@, "-t"@, pane_id@, "-p"@, "-e"@],
{
    owned_args(vec!["capture-pane", "-t", pane_id, "-p", "-e"])
}

/// The invocation that lists the identifiers of the windows of the session, which are then resized one by one.
pub fn resize_window(session_name: &str) -> (args: Vec<String>)
    ensures
        text::str_views(args@) == seq!["list-windows"@, "-t"@, session_name@, "-F"@, "#{window_id}"@],
{
    owned_args(vec!["list-windows", "-t", session_name, "-F", "#{window_id}"])
}

/// The invocation that lists the panes of all windows of the session, one line for each.
pub fn get_all_panes_info(session_name: &str) -> (args: Vec<String>)
    ensures
        text::str_views(args@) == seq!["list-panes"@, "-s"@, "-t"@, session_name@, "-F"@, "#{pane_id},#{pane_index},#{pane_left},#{pane_top},#{pane_width},#{pane_height},#{cursor_x},#{cursor_y},#{pane_active},#{pane_current_command},#{pane_title},#{pane_in_mode},#{copy_cursor_x},#{copy_cursor_y},#{window_id},#{T:pane-border-format},#{@tmuxy_pane_group_id},#{@tmuxy_pane_group_index}"@],
{
    owned_args(vec!["list-panes", "-s", "-t", session_name, "-F", "#{pane_id},#{pane_index},#{pane_left},#{pane_top},#{pane_width},#{pane_height},#{cursor_x},#{cursor_y},#{pane_active},#{pane_current_command},#{pane_title},#{pane_in_mode},#{copy_cursor_x},#{copy_cursor_y},#{window_id},#{T:pane-border-format},#{@tmuxy_pane_group_id},#{@tmuxy_pane_group_index}"])
}

/// The invocation that lists the windows of the session, one line for each.
pub fn get_windows(session_name: &str) -> (args: Vec<String>)
    ensures
        text::str_views(args@) == seq!["list-windows"@, "-t"@, session_name@, "-F"@, "#{window_id},#{window_index},#{window_name},#{window_active}"@],
{
    owned_args(vec!["list-windows", "-t", session_name, "-F", "#{window_id},#{window_index},#{window_name},#{window_active}"])
}

/// [`get_windows`] for the session with the default name.
pub fn get_windows_default() -> (args: Vec<String>)
    ensures
        text::str_views(args@) == seq!["list-windows"@, "-t"@, DEFAULT_SESSION_NAME@, "-F"@, "#{window_id},#{window_index},#{window_name},#{window_active}"@],
{
    get_windows(DEFAULT_SESSION_NAME)
}

/// The invocation that prints the format `format` as tmux expands it for the session.
pub fn display_message(session_name: &str, format: &str) -> (args: Vec<String>)
    ensures
        text::str_views(args@) == seq!["display-message"@, "-t"@, session_name@, "-p"@, format@],
{
    owned_args(vec!["display-message", "-t", session_name, "-p", format])
}

/// The invocation that lists the key bindings of the table `table`.
pub fn list_keys(table: &str) -> (args: Vec<String>)
    ensures
        text::str_views(args@) == seq!["list-keys"@, "-T"@, table@],
{
    owned_args(vec!["list-keys", "-T", table])
}

/// The invocation that prints the prefix key.
pub fn show_prefix_option() -> (args: Vec<String>)
    ensures
        text::str_views(args@) == seq!["show-options"@, "-g"@, "prefix"@],
{
    owned_args(vec!["show-options", "-g", "prefix"])
}

/// The invocation that succeeds exactly where the session exists.
pub fn session_exists(session_name: &str) -> (args: Vec<String>)
    ensures
        text::str_views(args@) == seq!["has-session"@, "-t"@, session_name@],
{
    owned_args(vec!["has-session", "-t", session_name])
}

/// [`session_exists`] for the session with the default name.
pub fn session_exists_default() -> (args: Vec<String>)
    ensures
        text::str_views(args@) == seq!["has-session"@, "-t"@, DEFAULT_SESSION_NAME@],
{
    session_exists(DEFAULT_SESSION_NAME)
}

/// The invocation that ends the session.
pub fn kill_session(session_name: &str) -> (args: Vec<String>)
    ensures
        text::str_views(args@) == seq!["kill-session"@, "-t"@, session_name@],
{
    owned_args(vec!["kill-session", "-t", session_name])
}

/// [`kill_session`] for the session with the default name.
pub fn kill_session_default() -> (args: Vec<String>)
    ensures
        text::str_views(args@) == seq!["kill-session"@, "-t"@, DEFAULT_SESSION_NAME@],
{
    kill_session(DEFAULT_SESSION_NAME)
}

/// The invocation that loads the configuration file `config_path`.
pub fn source_config(config_path: &str) -> (args: Vec<String>)
    ensures
        text::str_views(args@) == seq!["source-file"@, config_path@],
{
    owned_args(vec!["source-file", config_path])
}

/// What tmux lists of one pane.
#[derive(Debug)]
pub struct PaneInfo {
    /// Identifier of the pane, such as `%0`.
    pub id: String,
    /// Index of the pane within its window.
    pub index: u32,
    /// Column of the left edge.
    pub x: u32,
    /// Row of the top edge.
    pub y: u32,
    /// Width in cells.
    pub width: u32,
    /// Height in cells.
    pub height: u32,
    /// Column of the cursor.
    pub cursor_x: u32,
    /// Row of the cursor.
    pub cursor_y: u32,
    /// Whether the pane is the active one of its window.
    pub active: bool,
    /// Name of the command that runs in the pane.
    pub command: String,
    /// Title of the pane.
    pub title: String,
    /// Title shown in the border of the pane.
    pub border_title: String,
    /// Whether the pane is in copy mode.
    pub in_mode: bool,
    /// Column of the cursor of copy mode.
    pub copy_cursor_x: u32,
    /// Row of the cursor of copy mode.
    pub copy_cursor_y: u32,
    /// Identifier of the window that holds the pane.
    pub window_id: String,
    /// Identifier of the group that the pane belongs to.
    pub group_id: Option<String>,
    /// Position of the pane among the tabs of its group.
    pub group_tab_index: Option<u32>,
}

/// The mathematical value of a [`PaneInfo`].
pub struct PaneInfoView {
    pub id: Seq<char>,
    pub index: u32,
    pub x: u32,
    pub y: u32,
    pub width: u32,
    pub height: u32,
    pub cursor_x: u32,
    pub cursor_y: u32,
    pub active: bool,
    pub command: Seq<char>,
    pub title: Seq<char>,
    pub border_title: Seq<char>,
    pub in_mode: bool,
    pub copy_cursor_x: u32,
    pub copy_cursor_y: u32,
    pub window_id: Seq<char>,
    pub group_id: Option<Seq<char>>,
    pub group_tab_index: Option<u32>,
}

impl View for PaneInfo {
    type V = PaneInfoView;

    open spec fn view(&self) -> PaneInfoView {
        PaneInfoView {
            id: self.id@,
            index: self.index,
            x: self.x,
            y: self.y,
            width: self.width,
            height: self.height,
            cursor_x: self.cursor_x,
            cursor_y: self.cursor_y,
            active: self.active,
            command: self.command@,
            title: self.title@,
            border_title: self.border_title@,
            in_mode: self.in_mode,
            copy_cursor_x: self.copy_cursor_x,
            copy_cursor_y: self.copy_cursor_y,
            window_id: self.window_id@,
            group_id: text::opt_view(self.group_id),
            group_tab_index: self.group_tab_index,
        }
    }
}

/// What tmux lists of one window.
#[derive(Debug)]
pub struct WindowInfo {
    /// Identifier of the window, such as `@0`.
    pub id: String,
    /// Index of the window within the session.
    pub index: u32,
    /// Name of the window.
    pub name: String,
    /// Whether the window is the active one.
    pub active: bool,
}

/// The mathematical value of a [`WindowInfo`].
pub struct WindowInfoView {
    pub id: Seq<char>,
    pub index: u32,
    pub name: Seq<char>,
    pub active: bool,
}

impl View for WindowInfo {
    type V = WindowInfoView;

    open spec fn view(&self) -> WindowInfoView {
        WindowInfoView {
            id: self.id@,
            index: self.index,
            name: self.name@,
            active: self.active,
        }
    }
}

/// A key with the tmux command bound to it.
#[derive(Debug)]
pub struct KeyBinding {
    /// The key.
    pub key: String,
    /// The tmux command bound to the key.
    pub command: String,
    /// What the command does, in words.
    pub description: String,
}

/// The mathematical value of a [`KeyBinding`].
pub struct KeyBindingView {
    pub key: Seq<char>,
    pub command: Seq<char>,
    pub description: Seq<char>,
}

impl View for KeyBinding {
    type V = KeyBindingView;

    open spec fn view(&self) -> KeyBindingView {
        KeyBindingView {
            key: self.key@,
            command: self.command@,
            description: self.description@,
        }
    }
}

/// The views of the panes in `v`, in order.
pub open spec fn pane_info_views(v: Seq<PaneInfo>) -> Seq<PaneInfoView> {
    Seq::new(v.len(), |i: int| v[i]@)
}

/// The views of the windows in `v`, in order.
pub open spec fn window_info_views(v: Seq<WindowInfo>) -> Seq<WindowInfoView> {
    Seq::new(v.len(), |i: int| v[i]@)
}

/// The views of the bindings in `v`, in order.
pub open spec fn binding_views(v: Seq<KeyBinding>) -> Seq<KeyBindingView> {
    Seq::new(v.len(), |i: int| v[i]@)
}

/// The view of a result that holds an invocation.
pub open spec fn args_result_view(r: Result<Vec<String>, String>) -> Result<
    Seq<Seq<char>>,
    Seq<char>,
> {
    match r {
        Ok(args) => Ok(text::str_views(args@)),
        Err(e) => Err(e@),
    }
}

/// Width, height, cursor column and cursor row as tmux prints them,
/// separated by commas; or the message of the error.
pub open spec fn pane_info_of(output: Seq<char>) -> Result<(u32, u32, u32, u32), Seq<char>> {
    let parts = text::split(text::trim(output), ',');
    if parts.len() != 4 {
        Err("Invalid pane info format"@)
    } else if text::parse_u32_spec(parts[0]).is_none() {
        Err("Invalid width"@)
    } else if text::parse_u32_spec(parts[1]).is_none() {
        Err("Invalid height"@)
    } else if text::parse_u32_spec(parts[2]).is_none() {
        Err("Invalid cursor_x"@)
    } else if text::parse_u32_spec(parts[3]).is_none() {
        Err("Invalid cursor_y"@)
    } else {
        Ok(
            (
                text::parse_u32_spec(parts[0]).unwrap(),
                text::parse_u32_spec(parts[1]).unwrap(),
                text::parse_u32_spec(parts[2]).unwrap(),
                text::parse_u32_spec(parts[3]).unwrap(),
            ),
        )
    }
}

/// Reads what tmux answers to [`get_pane_info`].
pub fn parse_pane_info(output: &str) -> (r: Result<(u32, u32, u32, u32), String>)
    ensures
        match r {
            Ok(info) => pane_info_of(output@) == Ok::<(u32, u32, u32, u32), Seq<char>>(info),
            Err(e) => pane_info_of(output@) == Err::<(u32, u32, u32, u32), Seq<char>>(e@),
        },
{
    let chars = text::chars_of(output);
    let trimmed = text::trim_chars(chars.as_slice());
    let parts = text::split_chars(trimmed.as_slice(), ',');
    if parts.len() != 4 {
        return Err(text::string_of_str("Invalid pane info format"));
    }
    assert(text::views(parts@)[0] == parts@[0]@);
    assert(text::views(parts@)[1] == parts@[1]@);
    assert(text::views(parts@)[2] == parts@[2]@);
    assert(text::views(parts@)[3] == parts@[3]@);
    let width = match text::parse_u32(parts[0].as_slice()) {
        Some(v) => v,
        None => {
            return Err(text::string_of_str("Invalid width"));
        },
    };
    let height = match text::parse_u32(parts[1].as_slice()) {
        Some(v) => v,
        None => {
            return Err(text::string_of_str("Invalid height"));
        },
    };
    let cursor_x = match text::parse_u32(parts[2].as_slice()) {
        Some(v) => v,
        None => {
            return Err(text::string_of_str("Invalid cursor_x"));
        },
    };
    let cursor_y = match text::parse_u32(parts[3].as_slice()) {
        Some(v) => v,
        None => {
            return Err(text::string_of_str("Invalid cursor_y"));
        },
    };
    Ok((width, height, cursor_x, cursor_y))
}

/// The flag of `select-pane` and `resize-pane` for a direction, written as
/// a word or as its capital letter.
pub open spec fn pane_direction_flag(direction: Seq<char>) -> Option<Seq<char>> {
    if direction == "up"@ || direction == "U"@ {
        Some("-U"@)
    } else if direction == "down"@ || direction == "D"@ {
        Some("-D"@)
    } else if direction == "left"@ || direction == "L"@ {
        Some("-L"@)
    } else if direction == "right"@ || direction == "R"@ {
        Some("-R"@)
    } else {
        None
    }
}

fn direction_flag(direction: &str) -> (r: Option<&'static str>)
    ensures
        match r {
            Some(f) => pane_direction_flag(direction@) == Some(f@),
            None => pane_direction_flag(direction@).is_none(),
        },
{
    if text::str_eq(direction, "up") || text::str_eq(direction, "U") {
        Some("-U")
    } else if text::str_eq(direction, "down") || text::str_eq(direction, "D") {
        Some("-D")
    } else if text::str_eq(direction, "left") || text::str_eq(direction, "L") {
        Some("-L")
    } else if text::str_eq(direction, "right") || text::str_eq(direction, "R") {
        Some("-R")
    } else {
        None
    }
}

fn message(prefix: &str, what: &str) -> (m: String)
    ensures
        m@ == prefix@ + what@,
{
    let mut m = text::string_of_str(prefix);
    m.append(what);
    m
}

/// The invocation that moves the focus to the pane in the direction
/// `direction`, or the message of the error where that is no direction.
pub fn select_pane(session_name: &str, direction: &str) -> (r: Result<Vec<String>, String>)
    ensures
        args_result_view(r) == (match pane_direction_flag(direction@) {
            Some(flag) => Ok(seq!["select-pane"@, "-t"@, session_name@, flag]),
            None => Err("Invalid direction: "@ + direction@),
        }),
{
    match direction_flag(direction) {
        Some(flag) => {
            let args = owned_args(vec!["select-pane", "-t", session_name, flag]);
            assert(text::str_views(args@) =~= seq!["select-pane"@, "-t"@, session_name@, flag@]);
            Ok(args)
        },
        None => Err(message("Invalid direction: ", direction)),
    }
}

/// [`select_pane`] for the session with the default name.
pub fn select_pane_default(direction: &str) -> (r: Result<Vec<String>, String>)
    ensures
        args_result_view(r) == (match pane_direction_flag(direction@) {
            Some(flag) => Ok(seq!["select-pane"@, "-t"@, DEFAULT_SESSION_NAME@, flag]),
            None => Err("Invalid direction: "@ + direction@),
        }),
{
    select_pane(DEFAULT_SESSION_NAME, direction)
}

/// The invocation that makes the window `window` of the session the active
/// one.
pub fn select_window(session_name: &str, window: &str) -> (args: Vec<String>)
    ensures
        text::str_views(args@) == seq![
            "select-window"@,
            "-t"@,
            session_name@ + ":"@ + window@,
        ],
{
    let mut target = text::string_of_str(session_name);
    target.append(":");
    target.append(window);
    owned_args(vec!["select-window", "-t", target.as_str()])
}

/// [`select_window`] for the session with the default name.
pub fn select_window_default(window: &str) -> (args: Vec<String>)
    ensures
        text::str_views(args@) == seq![
            "select-window"@,
            "-t"@,
            DEFAULT_SESSION_NAME@ + ":"@ + window@,
        ],
{
    select_window(DEFAULT_SESSION_NAME, window)
}

/// [`send_keys`] for the session with the default name.
pub fn send_keys_default(keys: &str) -> (args: Vec<String>)
    ensures
        text::str_views(args@) == seq!["send-keys"@, "-t"@, DEFAULT_SESSION_NAME@, keys@],
{
    send_keys(DEFAULT_SESSION_NAME, keys)
}

/// [`select_pane_by_id`].
pub fn select_pane_by_id_default(pane_id: &str) -> (args: Vec<String>)
    ensures
        text::str_views(args@) == seq!["select-pane"@, "-t"@, pane_id@],
{
    select_pane_by_id(pane_id)
}

/// How to scroll a pane: enter copy mode, then scroll a number of times.
/// Copy mode is entered whatever the direction; where the direction is
/// neither `up` nor `down`, the error follows once copy mode is entered,
/// and nothing is scrolled.
#[derive(Debug)]
pub struct ScrollPlan {
    /// The invocation that enters copy mode. It is run first; where it
    /// fails, nothing else is run.
    pub enter: Vec<String>,
    /// The invocation that scrolls by one line, or the message of the
    /// error that ends the scrolling once copy mode is entered.
    pub scroll: Result<Vec<String>, String>,
    /// How often to scroll. Scrolling stops at the first failure.
    pub times: u32,
}

/// The mathematical value of a [`ScrollPlan`].
pub struct ScrollPlanView {
    pub enter: Seq<Seq<char>>,
    pub scroll: Result<Seq<Seq<char>>, Seq<char>>,
    pub times: u32,
}

impl View for ScrollPlan {
    type V = ScrollPlanView;

    open spec fn view(&self) -> ScrollPlanView {
        ScrollPlanView {
            enter: text::str_views(self.enter@),
            scroll: match self.scroll {
                Ok(args) => Ok(text::str_views(args@)),
                Err(e) => Err(e@),
            },
            times: self.times,
        }
    }
}

/// The invocation that puts the pane `pane_id` in copy mode.
pub open spec fn copy_mode_invocation(pane_id: Seq<char>) -> Seq<Seq<char>> {
    seq!["copy-mode"@, "-t"@, pane_id]
}

/// How to scroll the pane `pane_id` by `amount` lines in the direction
/// `direction`: copy mode is entered first, then the pane is scrolled
/// `amount` times by one line; where the direction is neither `up` nor
/// `down`, copy mode is entered and the error follows.
pub open spec fn scroll_plan(
    pane_id: Seq<char>,
    direction: Seq<char>,
    amount: u32,
) -> ScrollPlanView {
    ScrollPlanView {
        enter: copy_mode_invocation(pane_id),
        scroll: if direction == "up"@ {
            Ok(seq!["send-keys"@, "-t"@, pane_id, "-X"@, "scroll-up"@])
        } else if direction == "down"@ {
            Ok(seq!["send-keys"@, "-t"@, pane_id, "-X"@, "scroll-down"@])
        } else {
            Err("Invalid scroll direction: "@ + direction)
        },
        times: amount,
    }
}

/// The invocation that puts the pane `pane_id` in copy mode.
pub fn enter_copy_mode(pane_id: &str) -> (args: Vec<String>)
    ensures
        text::str_views(args@) == copy_mode_invocation(pane_id@),
{
    let args = owned_args(vec!["copy-mode", "-t", pane_id]);
    assert(text::str_views(args@) =~= seq!["copy-mode"@, "-t"@, pane_id@]);
    args
}

/// Plans scrolling the pane `pane_id` by `amount` lines.
pub fn scroll_pane(pane_id: &str, direction: &str, amount: u32) -> (plan: ScrollPlan)
    ensures
        plan@ == scroll_plan(pane_id@, direction@, amount),
{
    let enter = enter_copy_mode(pane_id);
    let scroll = if text::str_eq(direction, "up") {
        let args = owned_args(vec!["send-keys", "-t", pane_id, "-X", "scroll-up"]);
        assert(text::str_views(args@) =~= seq![
            "send-keys"@,
            "-t"@,
            pane_id@,
            "-X"@,
            "scroll-up"@,
        ]);
        Ok(args)
    } else if text::str_eq(direction, "down") {
        let args = owned_args(vec!["send-keys", "-t", pane_id, "-X", "scroll-down"]);
        assert(text::str_views(args@) =~= seq![
            "send-keys"@,
            "-t"@,
            pane_id@,
            "-X"@,
            "scroll-down"@,
        ]);
        Ok(args)
    } else {
        Err(message("Invalid scroll direction: ", direction))
    };
    ScrollPlan { enter, scroll, times: amount }
}

/// [`scroll_pane`].
pub fn scroll_pane_default(pane_id: &str, direction: &str, amount: u32) -> (plan: ScrollPlan)
    ensures
        plan@ == scroll_plan(pane_id@, direction@, amount),
{
    scroll_pane(pane_id, direction, amount)
}

/// The escape sequence that reports a mouse event in the SGR encoding: the
/// button, with 32 added while dragging; column and row counted from 1; and
/// `m` for a release, `M` for every other event.
pub open spec fn mouse_sequence(event_type: Seq<char>, button: u32, x: u32, y: u32) -> Seq<char> {
    seq!['\u{1b}'] + "[<"@ + text::decimal(
        if event_type == "drag"@ {
            (button + 32) as nat
        } else {
            button as nat
        },
    ) + ";"@ + text::decimal((x + 1) as nat) + ";"@ + text::decimal((y + 1) as nat) + (
    if event_type == "release"@ {
        "m"@
    } else {
        "M"@
    })
}

/// The invocation that sends a mouse event to the pane `pane_id`.
pub fn send_mouse_event(pane_id: &str, event_type: &str, button: u32, x: u32, y: u32) -> (args:
    Vec<String>)
    ensures
        text::str_views(args@) == seq![
            "send-keys"@,
            "-t"@,
            pane_id@,
            "-l"@,
            mouse_sequence(event_type@, button, x, y),
        ],
{
    let cb: u64 = if text::str_eq(event_type, "drag") {
        button as u64 + 32
    } else {
        button as u64
    };
    let mut chars: Vec<char> = vec!['\u{1b}'];
    assert(chars@ =~= seq!['\u{1b}']);
    let open = text::chars_of("[<");
    text::push_all(&mut chars, open.as_slice());
    text::push_decimal(&mut chars, cb);
    chars.push(';');
    text::push_decimal(&mut chars, x as u64 + 1);
    chars.push(';');
    text::push_decimal(&mut chars, y as u64 + 1);
    if text::str_eq(event_type, "release") {
        chars.push('m');
    } else {
        chars.push('M');
    }
    proof {
        reveal_strlit(";");
        reveal_strlit("m");
        reveal_strlit("M");
        assert(";"@ =~= seq![';']);
        assert("m"@ =~= seq!['m']);
        assert("M"@ =~= seq!['M']);
        assert(chars@ =~= mouse_sequence(event_type@, button, x, y));
    }
    let sequence = text::string_of(chars.as_slice());
    owned_args(vec!["send-keys", "-t", pane_id, "-l", sequence.as_str()])
}

/// [`send_mouse_event`].
pub fn send_mouse_event_default(pane_id: &str, event_type: &str, button: u32, x: u32, y: u32) -> (args:
    Vec<String>)
    ensures
        text::str_views(args@) == seq![
            "send-keys"@,
            "-t"@,
            pane_id@,
            "-l"@,
            mouse_sequence(event_type@, button, x, y),
        ],
{
    send_mouse_event(pane_id, event_type, button, x, y)
}

/// The invocation that resizes the pane `pane_id` by `adjustment` cells in
/// the direction `direction`, or the message of the error where that is no
/// direction.
pub fn resize_pane(pane_id: &str, direction: &str, adjustment: u32) -> (r: Result<
    Vec<String>,
    String,
>)
    ensures
        args_result_view(r) == (match pane_direction_flag(direction@) {
            Some(flag) => Ok(
                seq![
                    "resize-pane"@,
                    "-t"@,
                    pane_id@,
                    flag,
                    text::decimal(adjustment as nat),
                ],
            ),
            None => Err("Invalid resize direction: "@ + direction@),
        }),
{
    match direction_flag(direction) {
        Some(flag) => {
            let amount = text::decimal_string(adjustment as u64);
            let args = owned_args(vec!["resize-pane", "-t", pane_id, flag, amount.as_str()]);
            assert(text::str_views(args@) =~= seq![
                "resize-pane"@,
                "-t"@,
                pane_id@,
                flag@,
                text::decimal(adjustment as nat),
            ]);
            Ok(args)
        },
        None => Err(message("Invalid resize direction: ", direction)),
    }
}

/// [`resize_pane`].
pub fn resize_pane_default(pane_id: &str, direction: &str, adjustment: u32) -> (r: Result<
    Vec<String>,
    String,
>)
    ensures
        args_result_view(r) == (match pane_direction_flag(direction@) {
            Some(flag) => Ok(
                seq![
                    "resize-pane"@,
                    "-t"@,
                    pane_id@,
                    flag,
                    text::decimal(adjustment as nat),
                ],
            ),
            None => Err("Invalid resize direction: "@ + direction@),
        }),
{
    resize_pane(pane_id, direction, adjustment)
}

/// [`resize_window`] for the session with the default name.
pub fn resize_window_default() -> (args: Vec<String>)
    ensures
        text::str_views(args@) == seq![
            "list-windows"@,
            "-t"@,
            DEFAULT_SESSION_NAME@,
            "-F"@,
            "#{window_id}"@,
        ],
{
    resize_window(DEFAULT_SESSION_NAME)
}

/// The arguments that resize the windows `ids` from index `k` on to `cols`
/// by `rows`, with a `;` before each window but the first.
pub open spec fn resize_args(ids: Seq<Seq<char>>, cols: u32, rows: u32, k: int) -> Seq<Seq<char>>
    decreases ids.len() - k,
{
    if k < 0 || k >= ids.len() {
        Seq::empty()
    } else if ids[k].len() == 0 {
        resize_args(ids, cols, rows, k + 1)
    } else {
        seq![
            "resize-window"@,
            "-t"@,
            ids[k],
            "-x"@,
            text::decimal(cols as nat),
            "-y"@,
            text::decimal(rows as nat),
        ] + (if resize_args(ids, cols, rows, k + 1).len() > 0 {
            seq![";"@] + resize_args(ids, cols, rows, k + 1)
        } else {
            Seq::empty()
        })
    }
}

/// The one invocation that resizes every window listed in `output` to
/// `cols` by `rows`; empty where `output` lists no window.
pub fn resize_window_commands(output: &str, cols: u32, rows: u32) -> (args: Vec<String>)
    ensures
        text::str_views(args@) == resize_args(text::lines(text::trim(output@)), cols, rows, 0),
{
    let chars = text::chars_of(output);
    let trimmed = text::trim_chars(chars.as_slice());
    let ids = text::split_lines(trimmed.as_slice());
    let ghost all = text::views(ids@);
    let cols_text = text::decimal_string(cols as u64);
    let rows_text = text::decimal_string(rows as u64);
    let mut args: Vec<String> = Vec::new();
    let mut k: usize = ids.len();
    assert(text::str_views(args@) =~= Seq::empty());
    while k > 0
        invariant
            k <= ids@.len(),
            all == text::views(ids@),
            cols_text@ == text::decimal(cols as nat),
            rows_text@ == text::decimal(rows as nat),
            text::str_views(args@) == resize_args(all, cols, rows, k as int),
        decreases k,
    {
        k -= 1;
        assert(all[k as int] == ids@[k as int]@);
        if ids[k].len() > 0 {
            let mut head: Vec<String> = owned_args(
                vec![
                    "resize-window",
                    "-t",
                    text::string_of(ids[k].as_slice()).as_str(),
                    "-x",
                    cols_text.as_str(),
                    "-y",
                    rows_text.as_str(),
                ],
            );
            let ghost first = text::str_views(head@);
            let ghost rest = text::str_views(args@);
            if args.len() > 0 {
                head.push(text::string_of_str(";"));
                assert(text::str_views(head@) =~= first + seq![";"@]);
            }
            let ghost with_sep = text::str_views(head@);
            head.append(&mut args);
            assert(text::str_views(head@) =~= with_sep + rest);
            args = head;
            assert(text::str_views(args@) =~= resize_args(all, cols, rows, k as int));
        }
    }
    args
}

/// What one line of the answer to [`get_all_panes_info`] says: the fields
/// of a pane, separated by commas, fourteen at least. A number that cannot
/// be read counts as 0, the width as 80 and the height as 24.
pub open spec fn pane_info_line(line: Seq<char>) -> Option<PaneInfoView> {
    let parts = text::split(line, ',');
    if parts.len() < 14 {
        None
    } else {
        Some(
            PaneInfoView {
                id: parts[0],
                index: number_or(parts[1], 0),
                x: number_or(parts[2], 0),
                y: number_or(parts[3], 0),
                width: number_or(parts[4], 80),
                height: number_or(parts[5], 24),
                cursor_x: number_or(parts[6], 0),
                cursor_y: number_or(parts[7], 0),
                active: parts[8] == seq!['1'],
                command: parts[9],
                title: parts[10],
                border_title: if parts.len() > 15 {
                    parts[15]
                } else {
                    Seq::empty()
                },
                in_mode: parts[11] == seq!['1'],
                copy_cursor_x: number_or(parts[12], 0),
                copy_cursor_y: number_or(parts[13], 0),
                window_id: if parts.len() > 14 {
                    parts[14]
                } else {
                    Seq::empty()
                },
                group_id: if parts.len() > 16 {
                    non_empty(parts[16])
                } else {
                    None
                },
                group_tab_index: if parts.len() > 17 {
                    text::parse_u32_spec(parts[17])
                } else {
                    None
                },
            },
        )
    }
}

/// The panes that the lines from index `k` on describe.
pub open spec fn pane_infos(lines: Seq<Seq<char>>, k: int) -> Seq<PaneInfoView>
    decreases lines.len() - k,
{
    if k < 0 || k >= lines.len() {
        Seq::empty()
    } else {
        (match pane_info_line(lines[k]) {
            Some(info) => seq![info],
            None => Seq::empty(),
        }) + pane_infos(lines, k + 1)
    }
}

/// What one line of the answer to [`get_windows`] says: identifier, index,
/// name and active flag of a window.
pub open spec fn window_info_line(line: Seq<char>) -> Option<WindowInfoView> {
    let parts = text::split(line, ',');
    if parts.len() < 4 {
        None
    } else {
        Some(
            WindowInfoView {
                id: parts[0],
                index: number_or(parts[1], 0),
                name: parts[2],
                active: parts[3] == seq!['1'],
            },
        )
    }
}

/// The windows that the lines from index `k` on describe.
pub open spec fn window_infos(lines: Seq<Seq<char>>, k: int) -> Seq<WindowInfoView>
    decreases lines.len() - k,
{
    if k < 0 || k >= lines.len() {
        Seq::empty()
    } else {
        (match window_info_line(lines[k]) {
            Some(info) => seq![info],
            None => Seq::empty(),
        }) + window_infos(lines, k + 1)
    }
}

fn field(parts: &Vec<Vec<char>>, i: usize) -> (s: String)
    requires
        i < parts@.len(),
    ensures
        s@ == text::views(parts@)[i as int],
{
    text::string_of(parts[i].as_slice())
}

fn field_number(parts: &Vec<Vec<char>>, i: usize, default: u32) -> (n: u32)
    requires
        i < parts@.len(),
    ensures
        n == number_or(text::views(parts@)[i as int], default),
{
    match text::parse_u32(parts[i].as_slice()) {
        Some(v) => v,
        None => default,
    }
}

fn field_is_one(parts: &Vec<Vec<char>>, i: usize) -> (r: bool)
    requires
        i < parts@.len(),
    ensures
        r == (text::views(parts@)[i as int] == seq!['1']),
{
    let r = parts[i].len() == 1 && parts[i][0] == '1';
    proof {
        if r {
            assert(parts@[i as int]@ =~= seq!['1']);
        }
    }
    r
}

fn read_pane_info(line: &[char]) -> (r: Option<PaneInfo>)
    ensures
        match r {
            Some(info) => pane_info_line(line@) == Some(info@),
            None => pane_info_line(line@).is_none(),
        },
{
    let parts = text::split_chars(line, ',');
    let n = parts.len();
    if n < 14 {
        return None;
    }
    Some(
        PaneInfo {
            id: field(&parts, 0),
            index: field_number(&parts, 1, 0),
            x: field_number(&parts, 2, 0),
            y: field_number(&parts, 3, 0),
            width: field_number(&parts, 4, 80),
            height: field_number(&parts, 5, 24),
            cursor_x: field_number(&parts, 6, 0),
            cursor_y: field_number(&parts, 7, 0),
            active: field_is_one(&parts, 8),
            command: field(&parts, 9),
            title: field(&parts, 10),
            border_title: if n > 15 {
                field(&parts, 15)
            } else {
                String::new()
            },
            in_mode: field_is_one(&parts, 11),
            copy_cursor_x: field_number(&parts, 12, 0),
            copy_cursor_y: field_number(&parts, 13, 0),
            window_id: if n > 14 {
                field(&parts, 14)
            } else {
                String::new()
            },
            group_id: if n > 16 && parts[16].len() > 0 {
                Some(field(&parts, 16))
            } else {
                None
            },
            group_tab_index: if n > 17 {
                text::parse_u32(parts[17].as_slice())
            } else {
                None
            },
        },
    )
}

/// Reads what tmux answers to [`get_all_panes_info`].
pub fn parse_panes_info(output: &str) -> (panes: Vec<PaneInfo>)
    ensures
        pane_info_views(panes@) == pane_infos(text::lines(output@), 0),
{
    let chars = text::chars_of(output);
    let lines = text::split_lines(chars.as_slice());
    let ghost all = text::views(lines@);
    let mut panes: Vec<PaneInfo> = Vec::new();
    assert(pane_info_views(panes@) =~= Seq::empty());
    let mut k: usize = 0;
    while k < lines.len()
        invariant
            k <= lines@.len(),
            all == text::views(lines@),
            pane_infos(all, 0) == pane_info_views(panes@) + pane_infos(all, k as int),
        decreases lines@.len() - k,
    {
        assert(all[k as int] == lines@[k as int]@);
        let ghost before = pane_info_views(panes@);
        if let Some(info) = read_pane_info(lines[k].as_slice()) {
            panes.push(info);
            assert(pane_info_views(panes@) =~= before.push(info@));
        }
        assert(pane_infos(all, 0) =~= pane_info_views(panes@) + pane_infos(all, k + 1));
        k += 1;
    }
    assert(pane_infos(all, 0) =~= pane_info_views(panes@));
    panes
}

/// Reads what tmux answers to [`get_windows`].
pub fn parse_windows(output: &str) -> (windows: Vec<WindowInfo>)
    ensures
        window_info_views(windows@) == window_infos(text::lines(output@), 0),
{
    let chars = text::chars_of(output);
    let lines = text::split_lines(chars.as_slice());
    let ghost all = text::views(lines@);
    let mut windows: Vec<WindowInfo> = Vec::new();
    assert(window_info_views(windows@) =~= Seq::empty());
    let mut k: usize = 0;
    while k < lines.len()
        invariant
            k <= lines@.len(),
            all == text::views(lines@),
            window_infos(all, 0) == window_info_views(windows@) + window_infos(all, k as int),
        decreases lines@.len() - k,
    {
        assert(all[k as int] == lines@[k as int]@);
        let ghost before = window_info_views(windows@);
        let parts = text::split_chars(lines[k].as_slice(), ',');
        if parts.len() >= 4 {
            let info = WindowInfo {
                id: field(&parts, 0),
                index: field_number(&parts, 1, 0),
                name: field(&parts, 2),
                active: field_is_one(&parts, 3),
            };
            windows.push(info);
            assert(window_info_views(windows@) =~= before.push(info@));
        }
        assert(window_infos(all, 0) =~= window_info_views(windows@) + window_infos(all, k + 1));
        k += 1;
    }
    assert(window_infos(all, 0) =~= window_info_views(windows@));
    windows
}

} // verus!
