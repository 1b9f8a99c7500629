//! The commands that clients post, and what each of them asks for.
//!
//! Most commands become a tmux command that the monitor of the session sends
//! through control mode. The others ask the caller for something that takes
//! input or output.

use crate::text;
use vstd::prelude::*;
use vstd::string::StringExecFns;

verus! {

/// The arguments that commands read. A field is `None` where the client
/// sent none.
#[derive(Debug)]
pub struct CommandArgs {
    pub keys: Option<String>,
    pub key: Option<String>,
    pub cols: Option<u64>,
    pub rows: Option<u64>,
    pub direction: Option<String>,
    pub pane_id: Option<String>,
    pub window: Option<String>,
    pub amount: Option<u64>,
    pub event_type: Option<String>,
    pub button: Option<u64>,
    pub x: Option<u64>,
    pub y: Option<u64>,
    pub command: Option<String>,
    pub adjustment: Option<u64>,
    pub path: Option<String>,
    pub start: Option<i64>,
    pub end: Option<i64>,
}

/// The mathematical value of a [`CommandArgs`].
pub struct ArgsView {
    pub keys: Option<Seq<char>>,
    pub key: Option<Seq<char>>,
    pub cols: Option<u64>,
    pub rows: Option<u64>,
    pub direction: Option<Seq<char>>,
    pub pane_id: Option<Seq<char>>,
    pub window: Option<Seq<char>>,
    pub amount: Option<u64>,
    pub event_type: Option<Seq<char>>,
    pub button: Option<u64>,
    pub x: Option<u64>,
    pub y: Option<u64>,
    pub command: Option<Seq<char>>,
    pub adjustment: Option<u64>,
    pub path: Option<Seq<char>>,
    pub start: Option<i64>,
    pub end: Option<i64>,
}

impl View for CommandArgs {
    type V = ArgsView;

    open spec fn view(&self) -> ArgsView {
        ArgsView {
            keys: text::opt_view(self.keys),
            key: text::opt_view(self.key),
            cols: self.cols,
            rows: self.rows,
            direction: text::opt_view(self.direction),
            pane_id: text::opt_view(self.pane_id),
            window: text::opt_view(self.window),
            amount: self.amount,
            event_type: text::opt_view(self.event_type),
            button: self.button,
            x: self.x,
            y: self.y,
            command: text::opt_view(self.command),
            adjustment: self.adjustment,
            path: text::opt_view(self.path),
            start: self.start,
            end: self.end,
        }
    }
}

impl Default for CommandArgs {
    fn default() -> (a: CommandArgs)
        ensures
            a@ == (ArgsView {
                keys: None,
                key: None,
                cols: None,
                rows: None,
                direction: None,
                pane_id: None,
                window: None,
                amount: None,
                event_type: None,
                button: None,
                x: None,
                y: None,
                command: None,
                adjustment: None,
                path: None,
                start: None,
                end: None,
            }),
    {
        CommandArgs {
            keys: None,
            key: None,
            cols: None,
            rows: None,
            direction: None,
            pane_id: None,
            window: None,
            amount: None,
            event_type: None,
            button: None,
            x: None,
            y: None,
            command: None,
            adjustment: None,
            path: None,
            start: None,
            end: None,
        }
    }
}

/// What a command of a client asks for.
#[derive(Debug)]
pub enum CommandPlan {
    /// Send this tmux command through the monitor of the session.
    ControlMode { command: String },
    /// Run the binding of the key, or send the key where it has none.
    ProcessKey { key: String },
    /// Take the viewport of the client, where one is given, and answer with
    /// the full state.
    GetInitialState { size: Option<(u32, u32)> },
    /// Take the viewport of the client, where one is given.
    SetClientSize { size: Option<(u32, u32)> },
    /// Create the session where it does not exist.
    InitializeSession,
    /// Answer with the history of the active pane.
    GetScrollbackHistory,
    /// Answer with the latest paste buffer.
    GetBuffer,
    /// Send a mouse event to a pane.
    SendMouseEvent { pane_id: String, event_type: String, button: u32, x: u32, y: u32 },
    /// Hand this tmux command of the client to the monitor as it is.
    RunCommand { command: String },
    /// Ask the monitor to give the windows this size.
    ResizeWindow { cols: u32, rows: u32 },
    /// Answer with the prefix key and its bindings.
    GetKeyBindings,
    /// Answer with the cells of a range of the history of a pane.
    GetScrollbackCells { pane_id: String, start: i64, end: i64 },
    /// Answer with the entries of a directory.
    ListDirectory { path: String },
    /// Do nothing.
    Ping,
}

/// The mathematical value of a [`CommandPlan`].
pub enum PlanView {
    ControlMode { command: Seq<char> },
    ProcessKey { key: Seq<char> },
    GetInitialState { size: Option<(u32, u32)> },
    SetClientSize { size: Option<(u32, u32)> },
    InitializeSession,
    GetScrollbackHistory,
    GetBuffer,
    SendMouseEvent { pane_id: Seq<char>, event_type: Seq<char>, button: u32, x: u32, y: u32 },
    RunCommand { command: Seq<char> },
    ResizeWindow { cols: u32, rows: u32 },
    GetKeyBindings,
    GetScrollbackCells { pane_id: Seq<char>, start: i64, end: i64 },
    ListDirectory { path: Seq<char> },
    Ping,
}

impl View for CommandPlan {
    type V = PlanView;

    open spec fn view(&self) -> PlanView {
        match *self {
            CommandPlan::ControlMode { command } => PlanView::ControlMode { command: command@ },
            CommandPlan::ProcessKey { key } => PlanView::ProcessKey { key: key@ },
            CommandPlan::GetInitialState { size } => PlanView::GetInitialState { size },
            CommandPlan::SetClientSize { size } => PlanView::SetClientSize { size },
            CommandPlan::InitializeSession => PlanView::InitializeSession,
            CommandPlan::GetScrollbackHistory => PlanView::GetScrollbackHistory,
            CommandPlan::GetBuffer => PlanView::GetBuffer,
            CommandPlan::SendMouseEvent { pane_id, event_type, button, x, y } => {
                PlanView::SendMouseEvent {
                    pane_id: pane_id@,
                    event_type: event_type@,
                    button,
                    x,
                    y,
                }
            },
            CommandPlan::RunCommand { command } => PlanView::RunCommand { command: command@ },
            CommandPlan::ResizeWindow { cols, rows } => PlanView::ResizeWindow { cols, rows },
            CommandPlan::GetKeyBindings => PlanView::GetKeyBindings,
            CommandPlan::GetScrollbackCells { pane_id, start, end } => {
                PlanView::GetScrollbackCells { pane_id: pane_id@, start, end }
            },
            CommandPlan::ListDirectory { path } => PlanView::ListDirectory { path: path@ },
            CommandPlan::Ping => PlanView::Ping,
        }
    }
}

/// The text of an argument, or `default` where the client sent none.
pub open spec fn text_or(o: Option<Seq<char>>, default: Seq<char>) -> Seq<char> {
    match o {
        Some(s) => s,
        None => default,
    }
}

/// The number of an argument, or `default` where the client sent none, cut
/// to its lowest 32 bits.
pub open spec fn number_or(o: Option<u64>, default: u64) -> u32 {
    (match o {
        Some(n) => n,
        None => default,
    } % 0x1_0000_0000) as u32
}

/// The viewport that the arguments give: both `cols` and `rows`, where
/// neither is 0.
pub open spec fn viewport(args: ArgsView) -> Option<(u32, u32)> {
    if number_or(args.cols, 0) > 0 && number_or(args.rows, 0) > 0 {
        Some((number_or(args.cols, 0), number_or(args.rows, 0)))
    } else {
        None
    }
}

/// The tmux command `verb` aimed at `target`, with `rest` behind the
/// target.
pub open spec fn targeted(verb: Seq<char>, target: Seq<char>, rest: Seq<char>) -> Seq<char> {
    verb + " -t "@ + target + rest
}

/// The flag of `select-pane` for a direction; to the right for a direction
/// that is not known.
pub open spec fn direction_flag(direction: Seq<char>) -> Seq<char> {
    if direction == "up"@ {
        " -U"@
    } else if direction == "down"@ {
        " -D"@
    } else if direction == "left"@ {
        " -L"@
    } else {
        " -R"@
    }
}

/// The tmux command that scrolls the pane `pane_id` by `amount` lines: it
/// enters copy mode and scrolls there, up for the direction `up` and down
/// for every other.
pub open spec fn scroll_command(pane_id: Seq<char>, direction: Seq<char>, amount: u32) -> Seq<char> {
    "copy-mode -t "@ + pane_id + " ; send -t "@ + pane_id + " -X "@ + (if direction == "up"@ {
        "scroll-up"@
    } else {
        "scroll-down"@
    }) + " -N "@ + text::decimal(amount as nat)
}

/// The tmux command that resizes the pane `pane_id` by `adjustment` cells
/// in the direction `direction`.
pub open spec fn resize_pane_command(pane_id: Seq<char>, direction: Seq<char>, adjustment: u32) -> Seq<
    char,
> {
    "resizep -t "@ + pane_id + " -"@ + direction + " "@ + text::decimal(adjustment as nat)
}

/// Whether `command` is a raw resize of a window, which clients may not
/// send: the size of a session follows from the viewports of its clients.
pub open spec fn is_raw_resize(command: Seq<char>) -> bool {
    text::starts_with(command, "resize-window"@) || text::starts_with(command, "resizew"@)
}

/// The tmux command bound to `key` behind the prefix, as its verb and what
/// follows the target: the command is the verb, ` -t `, the session, and the
/// rest.
pub open spec fn prefix_binding(key: Seq<char>) -> Option<(Seq<char>, Seq<char>)> {
    if key == "c"@ {
        Some(("neww"@, ""@))
    } else if key == "n"@ {
        Some(("next"@, ""@))
    } else if key == "p"@ {
        Some(("prev"@, ""@))
    } else if key == "l"@ {
        Some(("last"@, ""@))
    } else if key == "&"@ {
        Some(("killw"@, ""@))
    } else if key == "\""@ {
        Some(("splitw"@, " -v"@))
    } else if key == "%"@ {
        Some(("splitw"@, " -h"@))
    } else if key == "-"@ {
        Some(("splitw"@, " -v"@))
    } else if key == "|"@ {
        Some(("splitw"@, " -h"@))
    } else if key == "z"@ {
        Some(("resizep"@, " -Z"@))
    } else if key == "x"@ {
        Some(("killp"@, ""@))
    } else if key == "o"@ {
        Some(("selectp"@, " -t :.+"@))
    } else if key == ";"@ {
        Some(("selectp"@, " -l"@))
    } else if key == "!"@ {
        Some(("breakp"@, ""@))
    } else if key == "Up"@ {
        Some(("selectp"@, " -U"@))
    } else if key == "ArrowUp"@ {
        Some(("selectp"@, " -U"@))
    } else if key == "Down"@ {
        Some(("selectp"@, " -D"@))
    } else if key == "ArrowDown"@ {
        Some(("selectp"@, " -D"@))
    } else if key == "Left"@ {
        Some(("selectp"@, " -L"@))
    } else if key == "ArrowLeft"@ {
        Some(("selectp"@, " -L"@))
    } else if key == "Right"@ {
        Some(("selectp"@, " -R"@))
    } else if key == "ArrowRight"@ {
        Some(("selectp"@, " -R"@))
    } else if key == "0"@ {
        Some(("selectw"@, ":0"@))
    } else if key == "1"@ {
        Some(("selectw"@, ":1"@))
    } else if key == "2"@ {
        Some(("selectw"@, ":2"@))
    } else if key == "3"@ {
        Some(("selectw"@, ":3"@))
    } else if key == "4"@ {
        Some(("selectw"@, ":4"@))
    } else if key == "5"@ {
        Some(("selectw"@, ":5"@))
    } else if key == "6"@ {
        Some(("selectw"@, ":6"@))
    } else if key == "7"@ {
        Some(("selectw"@, ":7"@))
    } else if key == "8"@ {
        Some(("selectw"@, ":8"@))
    } else if key == "9"@ {
        Some(("selectw"@, ":9"@))
    } else if key == "["@ {
        Some(("copy-mode"@, ""@))
    } else if key == " "@ {
        Some(("nextl"@, ""@))
    } else {
        None
    }
}

/// What the command `cmd` with the arguments `args` asks of the session
/// `session`, or the message of the error that the client is answered with.
pub open spec fn plan_for(cmd: Seq<char>, args: ArgsView, session: Seq<char>) -> Result<
    PlanView,
    Seq<char>,
> {
    if cmd == "send_keys_to_tmux"@ {
        Ok(
            PlanView::ControlMode {
                command: targeted("send"@, session, " "@ + text_or(args.keys, ""@)),
            },
        )
    } else if cmd == "process_key"@ {
        Ok(PlanView::ProcessKey { key: text_or(args.key, ""@) })
    } else if cmd == "get_initial_state"@ {
        Ok(PlanView::GetInitialState { size: viewport(args) })
    } else if cmd == "set_client_size"@ {
        Ok(PlanView::SetClientSize { size: viewport(args) })
    } else if cmd == "initialize_session"@ {
        Ok(PlanView::InitializeSession)
    } else if cmd == "get_scrollback_history"@ {
        Ok(PlanView::GetScrollbackHistory)
    } else if cmd == "get_buffer"@ {
        Ok(PlanView::GetBuffer)
    } else if cmd == "split_pane_horizontal"@ {
        Ok(PlanView::ControlMode { command: targeted("splitw"@, session, " -h"@) })
    } else if cmd == "split_pane_vertical"@ {
        Ok(PlanView::ControlMode { command: targeted("splitw"@, session, " -v"@) })
    } else if cmd == "new_window"@ {
        Ok(PlanView::ControlMode { command: targeted("neww"@, session, ""@) })
    } else if cmd == "select_pane"@ {
        Ok(
            PlanView::ControlMode {
                command: targeted(
                    "selectp"@,
                    session,
                    direction_flag(text_or(args.direction, "right"@)),
                ),
            },
        )
    } else if cmd == "select_window"@ {
        Ok(
            PlanView::ControlMode {
                command: targeted("selectw"@, session, ":"@ + text_or(args.window, "1"@)),
            },
        )
    } else if cmd == "next_window"@ {
        Ok(PlanView::ControlMode { command: targeted("next"@, session, ""@) })
    } else if cmd == "previous_window"@ {
        Ok(PlanView::ControlMode { command: targeted("prev"@, session, ""@) })
    } else if cmd == "kill_pane"@ {
        Ok(PlanView::ControlMode { command: targeted("killp"@, session, ""@) })
    } else if cmd == "select_pane_by_id"@ {
        Ok(
            PlanView::ControlMode {
                command: targeted("selectp"@, text_or(args.pane_id, "%0"@), ""@),
            },
        )
    } else if cmd == "scroll_pane"@ {
        Ok(
            PlanView::ControlMode {
                command: scroll_command(
                    text_or(args.pane_id, "%0"@),
                    text_or(args.direction, "down"@),
                    number_or(args.amount, 1),
                ),
            },
        )
    } else if cmd == "send_mouse_event"@ {
        Ok(
            PlanView::SendMouseEvent {
                pane_id: text_or(args.pane_id, "%0"@),
                event_type: text_or(args.event_type, "press"@),
                button: number_or(args.button, 0),
                x: number_or(args.x, 0),
                y: number_or(args.y, 0),
            },
        )
    } else if cmd == "execute_prefix_binding"@ {
        match prefix_binding(text_or(args.key, ""@)) {
            Some((verb, rest)) => Ok(PlanView::ControlMode { command: targeted(verb, session, rest) }),
            None => Err("Unknown prefix key: "@ + text_or(args.key, ""@)),
        }
    } else if cmd == "kill_window"@ {
        Ok(PlanView::ControlMode { command: targeted("killw"@, session, ""@) })
    } else if cmd == "run_tmux_command"@ {
        if is_raw_resize(text_or(args.command, ""@)) {
            Err("Blocked resize command: use set_client_size"@)
        } else {
            Ok(PlanView::RunCommand { command: text_or(args.command, ""@) })
        }
    } else if cmd == "resize_pane"@ {
        Ok(
            PlanView::ControlMode {
                command: resize_pane_command(
                    text_or(args.pane_id, "%0"@),
                    text_or(args.direction, "R"@),
                    number_or(args.adjustment, 1),
                ),
            },
        )
    } else if cmd == "resize_window"@ {
        Ok(
            PlanView::ResizeWindow {
                cols: number_or(args.cols, 80),
                rows: number_or(args.rows, 24),
            },
        )
    } else if cmd == "get_key_bindings"@ {
        Ok(PlanView::GetKeyBindings)
    } else if cmd == "get_scrollback_cells"@ {
        Ok(
            PlanView::GetScrollbackCells {
                pane_id: text_or(args.pane_id, "%0"@),
                start: match args.start {
                    Some(v) => v,
                    None => (-200) as i64,
                },
                end: match args.end {
                    Some(v) => v,
                    None => (-1) as i64,
                },
            },
        )
    } else if cmd == "list_directory"@ {
        Ok(PlanView::ListDirectory { path: text_or(args.path, "."@) })
    } else if cmd == "ping"@ {
        Ok(PlanView::Ping)
    } else {
        Err("Unknown command: "@ + cmd)
    }
}

/// The view of the answer to a command.
pub open spec fn plan_result_view(r: Result<CommandPlan, String>) -> Result<PlanView, Seq<char>> {
    match r {
        Ok(p) => Ok(p@),
        Err(e) => Err(e@),
    }
}

fn arg_text<'a>(o: &'a Option<String>, default: &'a str) -> (r: &'a str)
    ensures
        r@ == text_or(text::opt_view(*o), default@),
{
    match o {
        Some(s) => s.as_str(),
        None => default,
    }
}

fn arg_number(o: Option<u64>, default: u64) -> (r: u32)
    ensures
        r == number_or(o, default),
{
    let n = match o {
        Some(n) => n,
        None => default,
    };
    (n % 0x1_0000_0000) as u32
}

fn arg_viewport(args: &CommandArgs) -> (r: Option<(u32, u32)>)
    ensures
        r == viewport(args@),
{
    let cols = arg_number(args.cols, 0);
    let rows = arg_number(args.rows, 0);
    if cols > 0 && rows > 0 {
        Some((cols, rows))
    } else {
        None
    }
}

fn targeted_command(verb: &str, target: &str, rest: &str) -> (c: String)
    ensures
        c@ == targeted(verb@, target@, rest@),
{
    let mut c = text::string_of_str(verb);
    c.append(" -t ");
    c.append(target);
    c.append(rest);
    c
}

fn control(verb: &str, target: &str, rest: &str) -> (r: Result<CommandPlan, String>)
    ensures
        plan_result_view(r) == Ok::<PlanView, Seq<char>>(
            PlanView::ControlMode { command: targeted(verb@, target@, rest@) },
        ),
{
    Ok(CommandPlan::ControlMode { command: targeted_command(verb, target, rest) })
}

fn lookup_prefix_binding(key: &str) -> (r: Option<(&'static str, &'static str)>)
    ensures
        match r {
            Some((verb, rest)) => prefix_binding(key@) == Some((verb@, rest@)),
            None => prefix_binding(key@).is_none(),
        },
{
    if text::str_eq(key, "c") {
        Some(("neww", ""))
    } else if text::str_eq(key, "n") {
        Some(("next", ""))
    } else if text::str_eq(key, "p") {
        Some(("prev", ""))
    } else if text::str_eq(key, "l") {
        Some(("last", ""))
    } else if text::str_eq(key, "&") {
        Some(("killw", ""))
    } else if text::str_eq(key, "\"") {
        Some(("splitw", " -v"))
    } else if text::str_eq(key, "%") {
        Some(("splitw", " -h"))
    } else if text::str_eq(key, "-") {
        Some(("splitw", " -v"))
    } else if text::str_eq(key, "|") {
        Some(("splitw", " -h"))
    } else if text::str_eq(key, "z") {
        Some(("resizep", " -Z"))
    } else if text::str_eq(key, "x") {
        Some(("killp", ""))
    } else if text::str_eq(key, "o") {
        Some(("selectp", " -t :.+"))
    } else if text::str_eq(key, ";") {
        Some(("selectp", " -l"))
    } else if text::str_eq(key, "!") {
        Some(("breakp", ""))
    } else if text::str_eq(key, "Up") {
        Some(("selectp", " -U"))
    } else if text::str_eq(key, "ArrowUp") {
        Some(("selectp", " -U"))
    } else if text::str_eq(key, "Down") {
        Some(("selectp", " -D"))
    } else if text::str_eq(key, "ArrowDown") {
        Some(("selectp", " -D"))
    } else if text::str_eq(key, "Left") {
        Some(("selectp", " -L"))
    } else if text::str_eq(key, "ArrowLeft") {
        Some(("selectp", " -L"))
    } else if text::str_eq(key, "Right") {
        Some(("selectp", " -R"))
    } else if text::str_eq(key, "ArrowRight") {
        Some(("selectp", " -R"))
    } else if text::str_eq(key, "0") {
        Some(("selectw", ":0"))
    } else if text::str_eq(key, "1") {
        Some(("selectw", ":1"))
    } else if text::str_eq(key, "2") {
        Some(("selectw", ":2"))
    } else if text::str_eq(key, "3") {
        Some(("selectw", ":3"))
    } else if text::str_eq(key, "4") {
        Some(("selectw", ":4"))
    } else if text::str_eq(key, "5") {
        Some(("selectw", ":5"))
    } else if text::str_eq(key, "6") {
        Some(("selectw", ":6"))
    } else if text::str_eq(key, "7") {
        Some(("selectw", ":7"))
    } else if text::str_eq(key, "8") {
        Some(("selectw", ":8"))
    } else if text::str_eq(key, "9") {
        Some(("selectw", ":9"))
    } else if text::str_eq(key, "[") {
        Some(("copy-mode", ""))
    } else if text::str_eq(key, " ") {
        Some(("nextl", ""))
    } else {
        None
    }
}

/// Whether `command` is a raw resize of a window.
pub fn blocks_raw_resize(command: &str) -> (r: bool)
    ensures
        r == is_raw_resize(command@),
{
    let chars = text::chars_of(command);
    let long = text::chars_of("resize-window");
    let short = text::chars_of("resizew");
    text::has_at(chars.as_slice(), long.as_slice(), 0) || text::has_at(
        chars.as_slice(),
        short.as_slice(),
        0,
    )
}

/// Decides what the command `cmd` with the arguments `args` asks of the
/// session `session`.
pub fn route_command(cmd: &str, args: &CommandArgs, session: &str) -> (r: Result<
    CommandPlan,
    String,
>)
    ensures
        plan_result_view(r) == plan_for(cmd@, args@, session@),
{
    if text::str_eq(cmd, "send_keys_to_tmux") {
        let mut rest = text::string_of_str(" ");
        rest.append(arg_text(&args.keys, ""));
        control("send", session, rest.as_str())
    } else if text::str_eq(cmd, "process_key") {
        Ok(CommandPlan::ProcessKey { key: text::string_of_str(arg_text(&args.key, "")) })
    } else if text::str_eq(cmd, "get_initial_state") {
        Ok(CommandPlan::GetInitialState { size: arg_viewport(args) })
    } else if text::str_eq(cmd, "set_client_size") {
        Ok(CommandPlan::SetClientSize { size: arg_viewport(args) })
    } else if text::str_eq(cmd, "initialize_session") {
        Ok(CommandPlan::InitializeSession)
    } else if text::str_eq(cmd, "get_scrollback_history") {
        Ok(CommandPlan::GetScrollbackHistory)
    } else if text::str_eq(cmd, "get_buffer") {
        Ok(CommandPlan::GetBuffer)
    } else if text::str_eq(cmd, "split_pane_horizontal") {
        control("splitw", session, " -h")
    } else if text::str_eq(cmd, "split_pane_vertical") {
        control("splitw", session, " -v")
    } else if text::str_eq(cmd, "new_window") {
        control("neww", session, "")
    } else if text::str_eq(cmd, "select_pane") {
        let direction = arg_text(&args.direction, "right");
        let flag = if text::str_eq(direction, "up") {
            " -U"
        } else if text::str_eq(direction, "down") {
            " -D"
        } else if text::str_eq(direction, "left") {
            " -L"
        } else {
            " -R"
        };
        control("selectp", session, flag)
    } else if text::str_eq(cmd, "select_window") {
        let mut rest = text::string_of_str(":");
        rest.append(arg_text(&args.window, "1"));
        control("selectw", session, rest.as_str())
    } else if text::str_eq(cmd, "next_window") {
        control("next", session, "")
    } else if text::str_eq(cmd, "previous_window") {
        control("prev", session, "")
    } else if text::str_eq(cmd, "kill_pane") {
        control("killp", session, "")
    } else if text::str_eq(cmd, "select_pane_by_id") {
        control("selectp", arg_text(&args.pane_id, "%0"), "")
    } else if text::str_eq(cmd, "scroll_pane") {
        let pane_id = arg_text(&args.pane_id, "%0");
        let direction = arg_text(&args.direction, "down");
        let amount = arg_number(args.amount, 1);
        let mut c = text::string_of_str("copy-mode -t ");
        c.append(pane_id);
        c.append(" ; send -t ");
        c.append(pane_id);
        c.append(" -X ");
        if text::str_eq(direction, "up") {
            c.append("scroll-up");
        } else {
            c.append("scroll-down");
        }
        c.append(" -N ");
        c.append(text::decimal_string(amount as u64).as_str());
        Ok(CommandPlan::ControlMode { command: c })
    } else if text::str_eq(cmd, "send_mouse_event") {
        Ok(
            CommandPlan::SendMouseEvent {
                pane_id: text::string_of_str(arg_text(&args.pane_id, "%0")),
                event_type: text::string_of_str(arg_text(&args.event_type, "press")),
                button: arg_number(args.button, 0),
                x: arg_number(args.x, 0),
                y: arg_number(args.y, 0),
            },
        )
    } else if text::str_eq(cmd, "execute_prefix_binding") {
        let key = arg_text(&args.key, "");
        match lookup_prefix_binding(key) {
            Some((verb, rest)) => control(verb, session, rest),
            None => {
                let mut e = text::string_of_str("Unknown prefix key: ");
                e.append(key);
                Err(e)
            },
        }
    } else if text::str_eq(cmd, "kill_window") {
        control("killw", session, "")
    } else if text::str_eq(cmd, "run_tmux_command") {
        let command = arg_text(&args.command, "");
        if blocks_raw_resize(command) {
            Err(text::string_of_str("Blocked resize command: use set_client_size"))
        } else {
            Ok(CommandPlan::RunCommand { command: text::string_of_str(command) })
        }
    } else if text::str_eq(cmd, "resize_pane") {
        let mut c = text::string_of_str("resizep -t ");
        c.append(arg_text(&args.pane_id, "%0"));
        c.append(" -");
        c.append(arg_text(&args.direction, "R"));
        c.append(" ");
        c.append(text::decimal_string(arg_number(args.adjustment, 1) as u64).as_str());
        Ok(CommandPlan::ControlMode { command: c })
    } else if text::str_eq(cmd, "resize_window") {
        Ok(
            CommandPlan::ResizeWindow {
                cols: arg_number(args.cols, 80),
                rows: arg_number(args.rows, 24),
            },
        )
    } else if text::str_eq(cmd, "get_key_bindings") {
        Ok(CommandPlan::GetKeyBindings)
    } else if text::str_eq(cmd, "get_scrollback_cells") {
        Ok(
            CommandPlan::GetScrollbackCells {
                pane_id: text::string_of_str(arg_text(&args.pane_id, "%0")),
                start: match args.start {
                    Some(v) => v,
                    None => -200,
                },
                end: match args.end {
                    Some(v) => v,
                    None => -1,
                },
            },
        )
    } else if text::str_eq(cmd, "list_directory") {
        Ok(CommandPlan::ListDirectory { path: text::string_of_str(arg_text(&args.path, ".")) })
    } else if text::str_eq(cmd, "ping") {
        Ok(CommandPlan::Ping)
    } else {
        let mut e = text::string_of_str("Unknown command: ");
        e.append(cmd);
        Err(e)
    }
}

} // verus!
