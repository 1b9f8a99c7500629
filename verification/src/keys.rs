//! The key bindings of tmux, as `list-keys` prints them.
//!
//! A line of `list-keys` reads `bind-key -T <table> <key> <command...>`.

use crate::executor::{binding_views, send_keys, KeyBinding, KeyBindingView};
use crate::targets::{run_tmux_command_for_session, session_command_line};
use crate::text;
use crate::DEFAULT_SESSION_NAME;
use vstd::prelude::*;
use vstd::string::StringExecFns;

verus! {

/// The key that `list-keys` writes as `key`: a key of one ASCII character
/// that tmux escapes with a backslash is that character.
pub open spec fn unescaped_key(key: Seq<char>) -> Seq<char> {
    if key.len() == 2 && key[0] == '\\' && (key[1] as u32) < 0x80 {
        seq![key[1]]
    } else {
        key
    }
}

/// Whether the words of a line of `list-keys` bind a key in the table
/// `table`.
pub open spec fn binds_in(words: Seq<Seq<char>>, table: Seq<char>) -> bool {
    words.len() >= 5 && words[0] == "bind-key"@ && words[2] == table
}

/// The command of a binding: its words with single spaces between.
pub open spec fn bound_command(words: Seq<Seq<char>>) -> Seq<char> {
    text::join(words.subrange(4, words.len() as int), seq![' '])
}

/// What the command of a binding does, in words; the command itself where
/// it is none of the usual ones.
pub open spec fn description_of(words: Seq<Seq<char>>) -> Seq<char> {
    let verb = words[4];
    let command = bound_command(words);
    if verb == "split-window"@ {
        if text::contains_sub(command, "-h"@) {
            "Split pane vertically"@
        } else {
            "Split pane horizontally"@
        }
    } else if verb == "resize-pane"@ {
        if text::contains_sub(command, "-Z"@) {
            "Toggle pane fullscreen"@
        } else {
            "Resize pane"@
        }
    } else if verb == "select-pane"@ {
        "Select pane"@
    } else if verb == "last-pane"@ {
        "Switch to last active pane"@
    } else if verb == "next-layout"@ {
        "Cycle through pane layouts"@
    } else if verb == "break-pane"@ {
        "Convert pane to window"@
    } else if verb == "copy-mode"@ {
        "Enter copy mode"@
    } else if verb == "command-prompt"@ {
        "Enter command mode"@
    } else if verb == "new-window"@ {
        "Create new window"@
    } else if verb == "kill-window"@ {
        "Close window"@
    } else if verb == "next-window"@ {
        "Next window"@
    } else if verb == "previous-window"@ {
        "Previous window"@
    } else if verb == "select-window"@ {
        "Select window"@
    } else {
        command
    }
}

/// The bindings of the table `table` in the lines from index `k` on. The
/// bindings of the prefix table are described; the others are not.
pub open spec fn bindings_in(lines: Seq<Seq<char>>, table: Seq<char>, described: bool, k: int) -> Seq<
    KeyBindingView,
>
    decreases lines.len() - k,
{
    if k < 0 || k >= lines.len() {
        Seq::empty()
    } else if binds_in(text::split_ws(lines[k]), table) {
        seq![
            KeyBindingView {
                key: unescaped_key(text::split_ws(lines[k])[3]),
                command: bound_command(text::split_ws(lines[k])),
                description: if described {
                    description_of(text::split_ws(lines[k]))
                } else {
                    Seq::empty()
                },
            },
        ] + bindings_in(lines, table, described, k + 1)
    } else {
        bindings_in(lines, table, described, k + 1)
    }
}

fn word_is(words: &Vec<Vec<char>>, i: usize, word: &str) -> (r: bool)
    requires
        i < words@.len(),
    ensures
        r == (text::views(words@)[i as int] == word@),
{
    let w = text::chars_of(word);
    text::chars_eq(words[i].as_slice(), w.as_slice())
}

fn unescape_key(key: &[char]) -> (r: String)
    ensures
        r@ == unescaped_key(key@),
{
    if key.len() == 2 && key[0] == '\\' && (key[1] as u32) < 0x80 {
        let one: Vec<char> = vec![key[1]];
        assert(one@ =~= seq![key@[1]]);
        text::string_of(one.as_slice())
    } else {
        text::string_of(key)
    }
}

fn command_of(words: &Vec<Vec<char>>) -> (r: Vec<char>)
    requires
        words@.len() >= 5,
    ensures
        r@ == bound_command(text::views(words@)),
{
    let space: Vec<char> = vec![' '];
    assert(space@ =~= seq![' ']);
    text::join_range(words, 4, words.len(), space.as_slice())
}

fn has_sub(s: &[char], pat: &str) -> (r: bool)
    ensures
        r == text::contains_sub(s@, pat@),
{
    let p = text::chars_of(pat);
    text::find_sub(s, p.as_slice(), 0) < s.len()
}

fn describe(words: &Vec<Vec<char>>, command: &[char]) -> (r: String)
    requires
        words@.len() >= 5,
        command@ == bound_command(text::views(words@)),
    ensures
        r@ == description_of(text::views(words@)),
{
    if word_is(words, 4, "split-window") {
        if has_sub(command, "-h") {
            text::string_of_str("Split pane vertically")
        } else {
            text::string_of_str("Split pane horizontally")
        }
    } else if word_is(words, 4, "resize-pane") {
        if has_sub(command, "-Z") {
            text::string_of_str("Toggle pane fullscreen")
        } else {
            text::string_of_str("Resize pane")
        }
    } else if word_is(words, 4, "select-pane") {
        text::string_of_str("Select pane")
    } else if word_is(words, 4, "last-pane") {
        text::string_of_str("Switch to last active pane")
    } else if word_is(words, 4, "next-layout") {
        text::string_of_str("Cycle through pane layouts")
    } else if word_is(words, 4, "break-pane") {
        text::string_of_str("Convert pane to window")
    } else if word_is(words, 4, "copy-mode") {
        text::string_of_str("Enter copy mode")
    } else if word_is(words, 4, "command-prompt") {
        text::string_of_str("Enter command mode")
    } else if word_is(words, 4, "new-window") {
        text::string_of_str("Create new window")
    } else if word_is(words, 4, "kill-window") {
        text::string_of_str("Close window")
    } else if word_is(words, 4, "next-window") {
        text::string_of_str("Next window")
    } else if word_is(words, 4, "previous-window") {
        text::string_of_str("Previous window")
    } else if word_is(words, 4, "select-window") {
        text::string_of_str("Select window")
    } else {
        text::string_of(command)
    }
}

fn read_bindings(output: &str, table: &str, described: bool) -> (bindings: Vec<KeyBinding>)
    ensures
        binding_views(bindings@) == bindings_in(text::lines(output@), table@, described, 0),
{
    let chars = text::chars_of(output);
    let lines = text::split_lines(chars.as_slice());
    let ghost all = text::views(lines@);
    let mut bindings: Vec<KeyBinding> = Vec::new();
    assert(binding_views(bindings@) =~= Seq::empty());
    let mut k: usize = 0;
    while k < lines.len()
        invariant
            k <= lines@.len(),
            all == text::views(lines@),
            bindings_in(all, table@, described, 0) == binding_views(bindings@) + bindings_in(
                all,
                table@,
                described,
                k as int,
            ),
        decreases lines@.len() - k,
    {
        assert(all[k as int] == lines@[k as int]@);
        let words = text::split_whitespace(lines[k].as_slice());
        let ghost before = binding_views(bindings@);
        if words.len() >= 5 && word_is(&words, 0, "bind-key") && word_is(&words, 2, table) {
            assert(text::views(words@)[3] == words@[3]@);
            let command = command_of(&words);
            let binding = KeyBinding {
                key: unescape_key(words[3].as_slice()),
                description: if described {
                    describe(&words, command.as_slice())
                } else {
                    String::new()
                },
                command: text::string_of(command.as_slice()),
            };
            bindings.push(binding);
            assert(binding_views(bindings@) =~= before.push(binding@));
        }
        assert(bindings_in(all, table@, described, 0) =~= binding_views(bindings@) + bindings_in(
            all,
            table@,
            described,
            k + 1,
        ));
        k += 1;
    }
    assert(bindings_in(all, table@, described, 0) =~= binding_views(bindings@));
    bindings
}

/// Reads the bindings behind the prefix key from what `list-keys -T prefix`
/// prints.
pub fn get_prefix_bindings(output: &str) -> (bindings: Vec<KeyBinding>)
    ensures
        binding_views(bindings@) == bindings_in(text::lines(output@), "prefix"@, true, 0),
{
    read_bindings(output, "prefix", true)
}

/// Reads the bindings that need no prefix key from what
/// `list-keys -T root` prints.
pub fn get_root_bindings(output: &str) -> (bindings: Vec<KeyBinding>)
    ensures
        binding_views(bindings@) == bindings_in(text::lines(output@), "root"@, false, 0),
{
    read_bindings(output, "root", false)
}

/// The prefix key that `show-options -g prefix` prints: the second word of
/// the first line, or `C-b` where there is none.
pub open spec fn prefix_key_of(output: Seq<char>) -> Seq<char> {
    let lines = text::lines(output);
    if lines.len() > 0 && text::split_ws(lines[0]).len() >= 2 {
        text::split_ws(lines[0])[1]
    } else {
        "C-b"@
    }
}

/// Reads the prefix key from what `show-options -g prefix` prints.
pub fn get_prefix_key(output: &str) -> (key: String)
    ensures
        key@ == prefix_key_of(output@),
{
    let chars = text::chars_of(output);
    let lines = text::split_lines(chars.as_slice());
    if lines.len() > 0 {
        assert(text::views(lines@)[0] == lines@[0]@);
        let words = text::split_whitespace(lines[0].as_slice());
        if words.len() >= 2 {
            assert(text::views(words@)[1] == words@[1]@);
            return text::string_of(words[1].as_slice());
        }
    }
    text::string_of_str("C-b")
}

/// The invocation for the binding with the command words `words`: the
/// words, and the session as target where the command names none and is
/// not `source-file`.
pub open spec fn binding_args(words: Seq<Seq<char>>, session: Seq<char>) -> Seq<Seq<char>> {
    let command = words.subrange(4, words.len() as int);
    if command.contains("-t"@) || command[0] == "source-file"@ {
        command
    } else {
        command + seq!["-t"@, session]
    }
}

/// The invocation that the key `key` stands for behind the prefix key,
/// looked up in the lines from index `k` on; or the message of the error
/// where the key is not bound.
pub open spec fn prefix_invocation(lines: Seq<Seq<char>>, session: Seq<char>, key: Seq<char>, k: int) -> Result<
    Seq<Seq<char>>,
    Seq<char>,
>
    decreases lines.len() - k,
{
    if k < 0 || k >= lines.len() {
        Err("No prefix binding found for key: "@ + key)
    } else if binds_in(text::split_ws(lines[k]), "prefix"@) && unescaped_key(
        text::split_ws(lines[k])[3],
    ) == key {
        Ok(binding_args(text::split_ws(lines[k]), session))
    } else {
        prefix_invocation(lines, session, key, k + 1)
    }
}

fn args_of_binding(words: &Vec<Vec<char>>, session_name: &str) -> (args: Vec<String>)
    requires
        words@.len() >= 5,
    ensures
        text::str_views(args@) == binding_args(text::views(words@), session_name@),
{
    let ghost command = text::views(words@).subrange(4, words@.len() as int);
    let flag = text::chars_of("-t");
    let mut args: Vec<String> = Vec::new();
    let mut has_target = false;
    let mut i: usize = 4;
    while i < words.len()
        invariant
            4 <= i <= words@.len(),
            flag@ == "-t"@,
            command == text::views(words@).subrange(4, words@.len() as int),
            args@.len() == i - 4,
            forall|j: int| 0 <= j < i - 4 ==> (#[trigger] args@[j])@ == command[j],
            has_target == exists|j: int| 0 <= j < i - 4 && command[j] == "-t"@,
        decreases words@.len() - i,
    {
        assert(command[i - 4] == words@[i as int]@);
        if text::chars_eq(words[i].as_slice(), flag.as_slice()) {
            has_target = true;
        }
        args.push(text::string_of(words[i].as_slice()));
        i += 1;
    }
    assert(text::str_views(args@) =~= command);
    assert(has_target == command.contains("-t"@)) by {
        if command.contains("-t"@) {
            let j = choose|j: int| 0 <= j < command.len() && command[j] == "-t"@;
            assert(0 <= j < i - 4 && command[j] == "-t"@);
        }
    }
    assert(command[0] == words@[4]@);
    let source = text::chars_of("source-file");
    if !has_target && !text::chars_eq(words[4].as_slice(), source.as_slice()) {
        args.push(text::string_of_str("-t"));
        args.push(text::string_of_str(session_name));
        assert(text::str_views(args@) =~= command + seq!["-t"@, session_name@]);
    }
    args
}

/// Looks up the binding of `key` behind the prefix key in what
/// `list-keys -T prefix` prints, and gives its invocation for the session
/// `session_name`.
pub fn execute_prefix_binding(session_name: &str, key: &str, output: &str) -> (r: Result<
    Vec<String>,
    String,
>)
    ensures
        crate::executor::args_result_view(r) == prefix_invocation(
            text::lines(output@),
            session_name@,
            key@,
            0,
        ),
{
    let chars = text::chars_of(output);
    let lines = text::split_lines(chars.as_slice());
    let wanted = text::chars_of(key);
    let ghost all = text::views(lines@);
    let mut k: usize = 0;
    while k < lines.len()
        invariant
            k <= lines@.len(),
            all == text::views(lines@),
            all == text::lines(output@),
            wanted@ == key@,
            prefix_invocation(all, session_name@, key@, 0) == prefix_invocation(
                all,
                session_name@,
                key@,
                k as int,
            ),
        decreases lines@.len() - k,
    {
        assert(all[k as int] == lines@[k as int]@);
        let words = text::split_whitespace(lines[k].as_slice());
        if words.len() >= 5 && word_is(&words, 0, "bind-key") && word_is(&words, 2, "prefix") {
            assert(text::views(words@)[3] == words@[3]@);
            let bound = unescape_key(words[3].as_slice());
            if text::str_eq(bound.as_str(), key) {
                return Ok(args_of_binding(&words, session_name));
            }
        }
        k += 1;
    }
    let mut e = text::string_of_str("No prefix binding found for key: ");
    e.append(key);
    Err(e)
}

/// [`execute_prefix_binding`] for the session with the default name.
pub fn execute_prefix_binding_default(key: &str, output: &str) -> (r: Result<Vec<String>, String>)
    ensures
        crate::executor::args_result_view(r) == prefix_invocation(
            text::lines(output@),
            DEFAULT_SESSION_NAME@,
            key@,
            0,
        ),
{
    execute_prefix_binding(DEFAULT_SESSION_NAME, key, output)
}

/// What a key press leads to.
#[derive(Debug)]
pub enum KeyAction {
    /// Run this shell command: the key is bound without prefix.
    Shell { line: String },
    /// Answer with this error: the key is bound to nothing that can run.
    Fail { message: String },
    /// Run this invocation, which sends the key to the session.
    SendKeys { args: Vec<String> },
}

/// The mathematical value of a [`KeyAction`].
pub enum KeyActionView {
    Shell { line: Seq<char> },
    Fail { message: Seq<char> },
    SendKeys { args: Seq<Seq<char>> },
}

impl View for KeyAction {
    type V = KeyActionView;

    open spec fn view(&self) -> KeyActionView {
        match *self {
            KeyAction::Shell { line } => KeyActionView::Shell { line: line@ },
            KeyAction::Fail { message } => KeyActionView::Fail { message: message@ },
            KeyAction::SendKeys { args } => KeyActionView::SendKeys { args: text::str_views(args@) },
        }
    }
}

/// What the key `key` leads to in the session `session`, given the
/// bindings without prefix from index `k` on: the command of the first
/// binding of the key, with the name of the session filled in and aimed at
/// the session; or the key sent to the session where it is not bound.
pub open spec fn key_action(
    session: Seq<char>,
    key: Seq<char>,
    bindings: Seq<KeyBindingView>,
    k: int,
) -> KeyActionView
    decreases bindings.len() - k,
{
    if k < 0 || k >= bindings.len() {
        KeyActionView::SendKeys { args: seq!["send-keys"@, "-t"@, session, key] }
    } else if bindings[k].key == key {
        match session_command_line(
            session,
            text::replace(bindings[k].command, "#{session_name}"@, session),
        ) {
            Ok(line) => KeyActionView::Shell { line },
            Err(message) => KeyActionView::Fail { message },
        }
    } else {
        key_action(session, key, bindings, k + 1)
    }
}

/// Decides what a key press leads to, given the bindings without prefix.
pub fn process_key(session_name: &str, key: &str, bindings: &[KeyBinding]) -> (action: KeyAction)
    ensures
        action@ == key_action(session_name@, key@, binding_views(bindings@), 0),
{
    let ghost all = binding_views(bindings@);
    let mut k: usize = 0;
    while k < bindings.len()
        invariant
            k <= bindings@.len(),
            all == binding_views(bindings@),
            key_action(session_name@, key@, all, 0) == key_action(
                session_name@,
                key@,
                all,
                k as int,
            ),
        decreases bindings@.len() - k,
    {
        assert(all[k as int] == bindings@[k as int]@);
        if text::str_eq(bindings[k].key.as_str(), key) {
            let command = text::chars_of(bindings[k].command.as_str());
            let pat = text::chars_of("#{session_name}");
            let with = text::chars_of(session_name);
            let filled = text::replace_chars(command.as_slice(), pat.as_slice(), with.as_slice());
            let filled_text = text::string_of(filled.as_slice());
            return match run_tmux_command_for_session(session_name, filled_text.as_str()) {
                Ok(line) => KeyAction::Shell { line },
                Err(message) => KeyAction::Fail { message },
            };
        }
        k += 1;
    }
    KeyAction::SendKeys { args: send_keys(session_name, key) }
}

/// [`process_key`] for the session with the default name.
pub fn process_key_default(key: &str, bindings: &[KeyBinding]) -> (action: KeyAction)
    ensures
        action@ == key_action(DEFAULT_SESSION_NAME@, key@, binding_views(bindings@), 0),
{
    process_key(DEFAULT_SESSION_NAME, key, bindings)
}

} // verus!
