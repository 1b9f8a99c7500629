//! Aiming tmux commands of clients at the session they belong to.
//!
//! A command that a client writes may name no target, or a target within
//! "the current session". Both are rewritten to name the session of the
//! client, so that a command never reaches another session by accident.

use crate::text;
use vstd::prelude::*;
use vstd::string::StringExecFns;

verus! {

/// The commands that take a window as target.
pub open spec fn window_commands() -> Seq<Seq<char>> {
    seq![
        "select-window"@,
        "new-window"@,
        "kill-window"@,
        "resize-window"@,
        "swap-window"@,
        "move-window"@,
        "link-window"@,
        "unlink-window"@,
    ]
}

/// The commands that are given the session as target where they name none.
pub open spec fn session_commands() -> Seq<Seq<char>> {
    seq![
        "select-window"@,
        "select-pane"@,
        "split-window"@,
        "new-window"@,
        "kill-window"@,
        "kill-pane"@,
        "resize-window"@,
        "resize-pane"@,
        "swap-pane"@,
        "swap-window"@,
        "next-window"@,
        "previous-window"@,
        "last-window"@,
        "last-pane"@,
        "next-layout"@,
        "previous-layout"@,
        "rotate-window"@,
        "break-pane"@,
        "join-pane"@,
        "move-pane"@,
        "move-window"@,
        "copy-mode"@,
        "send-keys"@,
        "send-prefix"@,
        "capture-pane"@,
        "display-message"@,
        "pipe-pane"@,
        "respawn-pane"@,
        "respawn-window"@,
    ]
}

/// The target `target` of the command `command_name`, made to name the
/// session `session`. Identifiers of panes and windows are known to tmux
/// everywhere and stay. A target that begins with a colon names a window of
/// the current session and gets the session put before it; one with a colon
/// elsewhere names its session already. A bare number is the index of a
/// window where the command takes windows, and gets the session and a colon
/// put before it. Every other target stays.
pub open spec fn fixed_target(session: Seq<char>, target: Seq<char>, command_name: Seq<char>) -> Seq<
    char,
> {
    if text::starts_with(target, seq!['%']) || text::starts_with(target, seq!['@']) {
        target
    } else if target.contains(':') {
        if text::starts_with(target, seq![':']) {
            session + target
        } else {
            target
        }
    } else if window_commands().contains(command_name) && text::parse_u32_spec(target).is_some() {
        session + seq![':'] + target
    } else {
        target
    }
}

/// The words of a command from index `k` on, with the word behind every
/// `-t` made to name the session.
pub open spec fn fixed_words(
    words: Seq<Seq<char>>,
    session: Seq<char>,
    command_name: Seq<char>,
    k: int,
) -> Seq<Seq<char>>
    decreases words.len() - k,
{
    if k < 0 || k >= words.len() {
        Seq::empty()
    } else if words[k] == "-t"@ && k + 1 < words.len() {
        seq![words[k], fixed_target(session, words[k + 1], command_name)] + fixed_words(
            words,
            session,
            command_name,
            k + 2,
        )
    } else {
        seq![words[k]] + fixed_words(words, session, command_name, k + 1)
    }
}

/// The command `cmd` with its targets made to name the session: its words,
/// fixed, with single spaces between.
pub open spec fn with_fixed_targets(session: Seq<char>, cmd: Seq<char>, command_name: Seq<char>) -> Seq<
    char,
> {
    text::join(fixed_words(text::split_ws(cmd), session, command_name, 0), seq![' '])
}

/// Whether `word` may name a window: a number, or an identifier of a
/// window.
pub open spec fn names_window(word: Seq<char>) -> bool {
    text::parse_u32_spec(word).is_some() || text::starts_with(word, seq!['@'])
}

/// The first word from index `k` on that may name a window and is neither
/// a flag nor the word behind a flag. `after_flag` tells whether the word
/// before index `k` was a flag.
pub open spec fn window_word(words: Seq<Seq<char>>, k: int, after_flag: bool) -> Option<Seq<char>>
    decreases words.len() - k,
{
    if k < 0 || k >= words.len() {
        None
    } else if text::starts_with(words[k], seq!['-']) {
        window_word(words, k + 1, true)
    } else if after_flag {
        window_word(words, k + 1, false)
    } else if names_window(words[k]) {
        Some(words[k])
    } else {
        window_word(words, k + 1, false)
    }
}

/// One tmux command aimed at the session. A command that is not among
/// [`session_commands`] stays as it is. One that names a target has its
/// targets fixed. One that names none is given the session; `select-window`
/// with a bare window gets the window within the session as target.
pub open spec fn targeted_at(session: Seq<char>, cmd: Seq<char>) -> Seq<char> {
    let words = text::split_ws(cmd);
    if words.len() == 0 || !session_commands().contains(words[0]) {
        cmd
    } else if words.contains("-t"@) {
        with_fixed_targets(session, cmd, words[0])
    } else if words[0] == "select-window"@ && window_word(words, 1, false).is_some() {
        text::replace(
            cmd,
            seq![' '] + window_word(words, 1, false).unwrap(),
            " -t "@ + session + seq![':'] + window_word(words, 1, false).unwrap(),
        )
    } else {
        cmd + " -t "@ + session
    }
}

/// The commands among `parts` from index `k` on that are not blank, each
/// trimmed and aimed at the session.
pub open spec fn targeted_parts(session: Seq<char>, parts: Seq<Seq<char>>, k: int) -> Seq<
    Seq<char>,
>
    decreases parts.len() - k,
{
    if k < 0 || k >= parts.len() {
        Seq::empty()
    } else if text::trim(parts[k]).len() == 0 {
        targeted_parts(session, parts, k + 1)
    } else {
        seq![targeted_at(session, text::trim(parts[k]))] + targeted_parts(session, parts, k + 1)
    }
}

/// A command line of several tmux commands separated by `\;`, each aimed at
/// the session.
pub open spec fn compound_targeted(session: Seq<char>, cmd: Seq<char>) -> Seq<char> {
    text::join(targeted_parts(session, text::split_sub(cmd, "\\;"@), 0), " \\; "@)
}

/// The shell command that runs the tmux commands `cmd` of a client of the
/// session `session`, or the message of the error where `cmd` is blank.
pub open spec fn session_command_line(session: Seq<char>, cmd: Seq<char>) -> Result<
    Seq<char>,
    Seq<char>,
> {
    if text::trim(cmd).len() == 0 {
        Err("Empty command"@)
    } else {
        Ok("tmux "@ + compound_targeted(session, cmd))
    }
}

fn starts_with_char(s: &[char], c: char) -> (r: bool)
    ensures
        r == text::starts_with(s@, seq![c]),
{
    if s.len() > 0 && s[0] == c {
        assert(s@.subrange(0, 1) =~= seq![c]);
        true
    } else {
        assert(!text::starts_with(s@, seq![c])) by {
            if text::starts_with(s@, seq![c]) {
                assert(s@.subrange(0, 1)[0] == c);
            }
        }
        false
    }
}

fn is_window_command(name: &[char]) -> (r: bool)
    ensures
        r == window_commands().contains(name@),
{
    let names: Vec<&str> = vec![
        "select-window",
        "new-window",
        "kill-window",
        "resize-window",
        "swap-window",
        "move-window",
        "link-window",
        "unlink-window",
    ];
    let ghost list = window_commands();
    assert(names@.len() == list.len());
    assert(forall|j: int| 0 <= j < list.len() ==> (#[trigger] names@[j])@ == list[j]);
    one_of(name, &names, Ghost(list))
}

fn is_session_command(name: &[char]) -> (r: bool)
    ensures
        r == session_commands().contains(name@),
{
    let names: Vec<&str> = vec![
        "select-window",
        "select-pane",
        "split-window",
        "new-window",
        "kill-window",
        "kill-pane",
        "resize-window",
        "resize-pane",
        "swap-pane",
        "swap-window",
        "next-window",
        "previous-window",
        "last-window",
        "last-pane",
        "next-layout",
        "previous-layout",
        "rotate-window",
        "break-pane",
        "join-pane",
        "move-pane",
        "move-window",
        "copy-mode",
        "send-keys",
        "send-prefix",
        "capture-pane",
        "display-message",
        "pipe-pane",
        "respawn-pane",
        "respawn-window",
    ];
    let ghost list = session_commands();
    assert(names@.len() == list.len());
    assert(forall|j: int| 0 <= j < list.len() ==> (#[trigger] names@[j])@ == list[j]);
    one_of(name, &names, Ghost(list))
}

fn one_of(name: &[char], names: &Vec<&str>, Ghost(list): Ghost<Seq<Seq<char>>>) -> (r: bool)
    requires
        names@.len() == list.len(),
        forall|j: int| 0 <= j < list.len() ==> (#[trigger] names@[j])@ == list[j],
    ensures
        r == list.contains(name@),
{
    let mut k: usize = 0;
    while k < names.len()
        invariant
            k <= names@.len(),
            names@.len() == list.len(),
            forall|j: int| 0 <= j < list.len() ==> (#[trigger] names@[j])@ == list[j],
            forall|j: int| 0 <= j < k ==> list[j] != name@,
        decreases names@.len() - k,
    {
        let candidate = text::chars_of(names[k]);
        if text::chars_eq(name, candidate.as_slice()) {
            assert(list[k as int] == name@);
            return true;
        }
        k += 1;
    }
    false
}

fn fix_target_chars(session: &[char], target: &[char], command_name: &[char]) -> (r: Vec<char>)
    ensures
        r@ == fixed_target(session@, target@, command_name@),
{
    let mut out: Vec<char> = Vec::new();
    if starts_with_char(target, '%') || starts_with_char(target, '@') {
        text::push_all(&mut out, target);
    } else if text::has_char(target, ':') {
        if starts_with_char(target, ':') {
            text::push_all(&mut out, session);
        }
        text::push_all(&mut out, target);
    } else if is_window_command(command_name) && text::parse_u32(target).is_some() {
        text::push_all(&mut out, session);
        out.push(':');
        text::push_all(&mut out, target);
    } else {
        text::push_all(&mut out, target);
    }
    assert(out@ =~= fixed_target(session@, target@, command_name@));
    out
}

/// Makes the target `target` of the command `command_name` name the session
/// `session_name`.
pub fn fix_target_session(session_name: &str, target: &str, command_name: &str) -> (r: String)
    ensures
        r@ == fixed_target(session_name@, target@, command_name@),
{
    let s = text::chars_of(session_name);
    let t = text::chars_of(target);
    let c = text::chars_of(command_name);
    let out = fix_target_chars(s.as_slice(), t.as_slice(), c.as_slice());
    text::string_of(out.as_slice())
}

fn fix_targets_chars(session: &[char], cmd: &[char], command_name: &[char]) -> (r: Vec<char>)
    ensures
        r@ == with_fixed_targets(session@, cmd@, command_name@),
{
    let words = text::split_whitespace(cmd);
    let flag = text::chars_of("-t");
    let ghost all = text::views(words@);
    let mut fixed: Vec<Vec<char>> = Vec::new();
    let mut i: usize = 0;
    assert(text::views(fixed@) =~= Seq::empty());
    while i < words.len()
        invariant
            i <= words@.len(),
            all == text::views(words@),
            flag@ == "-t"@,
            fixed_words(all, session@, command_name@, 0) == text::views(fixed@) + fixed_words(
                all,
                session@,
                command_name@,
                i as int,
            ),
        decreases words@.len() - i,
    {
        assert(all[i as int] == words@[i as int]@);
        let ghost before = text::views(fixed@);
        if text::chars_eq(words[i].as_slice(), flag.as_slice()) && words.len() - i > 1 {
            assert(all[i + 1] == words@[i + 1]@);
            let word = text::sub_vec(words[i].as_slice(), 0, words[i].len());
            assert(word@ =~= words@[i as int]@);
            let target = fix_target_chars(session, words[i + 1].as_slice(), command_name);
            fixed.push(word);
            fixed.push(target);
            assert(text::views(fixed@) =~= before + seq![word@, target@]);
            assert(fixed_words(all, session@, command_name@, 0) =~= text::views(fixed@)
                + fixed_words(all, session@, command_name@, i + 2));
            i += 2;
        } else {
            let word = text::sub_vec(words[i].as_slice(), 0, words[i].len());
            assert(word@ =~= words@[i as int]@);
            fixed.push(word);
            assert(text::views(fixed@) =~= before.push(word@));
            assert(fixed_words(all, session@, command_name@, 0) =~= text::views(fixed@)
                + fixed_words(all, session@, command_name@, i + 1));
            i += 1;
        }
    }
    assert(fixed_words(all, session@, command_name@, 0) =~= text::views(fixed@));
    let space: Vec<char> = vec![' '];
    assert(space@ =~= seq![' ']);
    let out = text::join_range(&fixed, 0, fixed.len(), space.as_slice());
    assert(text::views(fixed@).subrange(0, fixed@.len() as int) =~= text::views(fixed@));
    out
}

/// Makes the targets of the command `cmd`, whose name is `command_name`,
/// name the session `session_name`.
pub fn validate_and_fix_target(session_name: &str, cmd: &str, command_name: &str) -> (r: Result<
    String,
    String,
>)
    ensures
        r.is_ok(),
        r.unwrap()@ == with_fixed_targets(session_name@, cmd@, command_name@),
{
    let s = text::chars_of(session_name);
    let c = text::chars_of(cmd);
    let n = text::chars_of(command_name);
    let out = fix_targets_chars(s.as_slice(), c.as_slice(), n.as_slice());
    Ok(text::string_of(out.as_slice()))
}

fn find_window_word(words: &Vec<Vec<char>>) -> (r: Option<usize>)
    ensures
        match r {
            Some(i) => i < words@.len() && window_word(text::views(words@), 1, false) == Some(
                words@[i as int]@,
            ),
            None => window_word(text::views(words@), 1, false).is_none(),
        },
{
    let ghost all = text::views(words@);
    let mut k: usize = 1;
    let mut after_flag = false;
    while k < words.len()
        invariant
            1 <= k,
            all == text::views(words@),
            window_word(all, 1, false) == window_word(all, k as int, after_flag),
        decreases words@.len() - k,
    {
        assert(all[k as int] == words@[k as int]@);
        let word = words[k].as_slice();
        if starts_with_char(word, '-') {
            after_flag = true;
        } else if after_flag {
            after_flag = false;
        } else if text::parse_u32(word).is_some() || starts_with_char(word, '@') {
            return Some(k);
        }
        k += 1;
    }
    None
}

fn contains_word(words: &Vec<Vec<char>>, word: &[char]) -> (r: bool)
    ensures
        r == text::views(words@).contains(word@),
{
    let mut k: usize = 0;
    while k < words.len()
        invariant
            k <= words@.len(),
            forall|j: int| 0 <= j < k ==> text::views(words@)[j] != word@,
        decreases words@.len() - k,
    {
        if text::chars_eq(words[k].as_slice(), word) {
            assert(text::views(words@)[k as int] == word@);
            return true;
        }
        k += 1;
    }
    false
}

fn target_command(session: &[char], cmd: &[char]) -> (r: Vec<char>)
    ensures
        r@ == targeted_at(session@, cmd@),
{
    let words = text::split_whitespace(cmd);
    let ghost all = text::views(words@);
    if words.len() == 0 {
        return text::sub_vec(cmd, 0, cmd.len());
    }
    assert(all[0] == words@[0]@);
    if !is_session_command(words[0].as_slice()) {
        let out = text::sub_vec(cmd, 0, cmd.len());
        assert(out@ =~= cmd@);
        return out;
    }
    let flag = text::chars_of("-t");
    if contains_word(&words, flag.as_slice()) {
        return fix_targets_chars(session, cmd, words[0].as_slice());
    }
    let select = text::chars_of("select-window");
    if text::chars_eq(words[0].as_slice(), select.as_slice()) {
        if let Some(i) = find_window_word(&words) {
            let mut pat: Vec<char> = vec![' '];
            assert(pat@ =~= seq![' ']);
            text::push_all(&mut pat, words[i].as_slice());
            let mut with = text::chars_of(" -t ");
            text::push_all(&mut with, session);
            with.push(':');
            text::push_all(&mut with, words[i].as_slice());
            assert(with@ =~= " -t "@ + session@ + seq![':'] + words@[i as int]@);
            return text::replace_chars(cmd, pat.as_slice(), with.as_slice());
        }
    }
    let mut out = text::sub_vec(cmd, 0, cmd.len());
    let tail = text::chars_of(" -t ");
    text::push_all(&mut out, tail.as_slice());
    text::push_all(&mut out, session);
    assert(out@ =~= cmd@ + " -t "@ + session@);
    out
}

/// Aims the tmux command `cmd` at the session `session_name`.
pub fn add_session_target_if_needed(session_name: &str, cmd: &str) -> (r: Result<String, String>)
    ensures
        r.is_ok(),
        r.unwrap()@ == targeted_at(session_name@, cmd@),
{
    let s = text::chars_of(session_name);
    let c = text::chars_of(cmd);
    let out = target_command(s.as_slice(), c.as_slice());
    Ok(text::string_of(out.as_slice()))
}

fn compound_chars(session: &[char], cmd: &[char]) -> (r: Vec<char>)
    ensures
        r@ == compound_targeted(session@, cmd@),
{
    let sep = text::chars_of("\\;");
    proof {
        reveal_strlit("\\;");
    }
    let parts = text::split_on(cmd, sep.as_slice());
    let ghost all = text::views(parts@);
    let mut done: Vec<Vec<char>> = Vec::new();
    let mut k: usize = 0;
    assert(text::views(done@) =~= Seq::empty());
    while k < parts.len()
        invariant
            k <= parts@.len(),
            all == text::views(parts@),
            targeted_parts(session@, all, 0) == text::views(done@) + targeted_parts(
                session@,
                all,
                k as int,
            ),
        decreases parts@.len() - k,
    {
        assert(all[k as int] == parts@[k as int]@);
        let part = text::trim_chars(parts[k].as_slice());
        if part.len() > 0 {
            let ghost before = text::views(done@);
            let aimed = target_command(session, part.as_slice());
            done.push(aimed);
            assert(text::views(done@) =~= before.push(aimed@));
            assert(targeted_parts(session@, all, 0) =~= text::views(done@) + targeted_parts(
                session@,
                all,
                k + 1,
            ));
        }
        k += 1;
    }
    assert(targeted_parts(session@, all, 0) =~= text::views(done@));
    let between = text::chars_of(" \\; ");
    let out = text::join_range(&done, 0, done.len(), between.as_slice());
    assert(text::views(done@).subrange(0, done@.len() as int) =~= text::views(done@));
    out
}

/// Aims each of the tmux commands in `cmd`, which `\;` separates, at the
/// session `session_name`.
pub fn process_compound_command(session_name: &str, cmd: &str) -> (r: Result<String, String>)
    ensures
        r.is_ok(),
        r.unwrap()@ == compound_targeted(session_name@, cmd@),
{
    let s = text::chars_of(session_name);
    let c = text::chars_of(cmd);
    let out = compound_chars(s.as_slice(), c.as_slice());
    Ok(text::string_of(out.as_slice()))
}

/// The shell command that runs the tmux commands `cmd` of a client of the
/// session `session_name`, each aimed at that session.
pub fn run_tmux_command_for_session(session_name: &str, cmd: &str) -> (r: Result<String, String>)
    ensures
        match r {
            Ok(line) => session_command_line(session_name@, cmd@) == Ok::<Seq<char>, Seq<char>>(
                line@,
            ),
            Err(e) => session_command_line(session_name@, cmd@) == Err::<Seq<char>, Seq<char>>(e@),
        },
{
    let s = text::chars_of(session_name);
    let c = text::chars_of(cmd);
    let (a, b) = text::trim_bounds(c.as_slice());
    if a == b {
        return Err(text::string_of_str("Empty command"));
    }
    let processed = compound_chars(s.as_slice(), c.as_slice());
    let mut line = text::string_of_str("tmux ");
    line.append(text::string_of(processed.as_slice()).as_str());
    Ok(line)
}

/// The shell command that runs the tmux commands `cmd` in the session with
/// the default name.
pub fn run_tmux_command(cmd: &str) -> (r: Result<String, String>)
    ensures
        match r {
            Ok(line) => session_command_line(crate::DEFAULT_SESSION_NAME@, cmd@) == Ok::<
                Seq<char>,
                Seq<char>,
            >(line@),
            Err(e) => session_command_line(crate::DEFAULT_SESSION_NAME@, cmd@) == Err::<
                Seq<char>,
                Seq<char>,
            >(e@),
        },
{
    run_tmux_command_for_session(crate::DEFAULT_SESSION_NAME, cmd)
}

} // verus!
