//! Creating and ending sessions.

use crate::executor::{owned_args, source_config};
use crate::text;
use crate::DEFAULT_SESSION_NAME;
use vstd::prelude::*;

verus! {

/// The invocation that creates the session `session` in the background,
/// with the configuration file `config_path` where there is one.
pub open spec fn create_session_args(session: Seq<char>, config_path: Option<Seq<char>>) -> Seq<
    Seq<char>,
> {
    (match config_path {
        Some(path) => seq!["-f"@, path],
        None => Seq::empty(),
    }) + seq!["new-session"@, "-d"@, "-s"@, session]
}

/// The invocation that creates the session `session_name` in the
/// background.
pub fn create_session(session_name: &str, config_path: Option<&str>) -> (args: Vec<String>)
    ensures
        text::str_views(args@) == create_session_args(
            session_name@,
            match config_path {
                Some(p) => Some(p@),
                None => None,
            },
        ),
{
    let args = match config_path {
        Some(path) => owned_args(vec!["-f", path, "new-session", "-d", "-s", session_name]),
        None => owned_args(vec!["new-session", "-d", "-s", session_name]),
    };
    assert(text::str_views(args@) =~= create_session_args(
        session_name@,
        match config_path {
            Some(p) => Some(p@),
            None => None,
        },
    ));
    args
}

/// The invocation that makes sure that the session `session` is there and
/// configured, if one is needed: a session that does not exist is created;
/// one that exists loads the configuration file where there is one.
pub open spec fn create_or_attach_args(
    exists: bool,
    session: Seq<char>,
    config_path: Option<Seq<char>>,
) -> Option<Seq<Seq<char>>> {
    if !exists {
        Some(create_session_args(session, config_path))
    } else {
        match config_path {
            Some(path) => Some(seq!["source-file"@, path]),
            None => None,
        }
    }
}

/// The view of an optional invocation.
pub open spec fn opt_args_view(o: Option<Vec<String>>) -> Option<Seq<Seq<char>>> {
    match o {
        Some(args) => Some(text::str_views(args@)),
        None => None,
    }
}

/// The invocation that makes sure that the session `session_name` is there
/// and configured, if one is needed. `exists` tells whether the session
/// exists.
pub fn create_or_attach(exists: bool, session_name: &str, config_path: Option<&str>) -> (r: Option<
    Vec<String>,
>)
    ensures
        opt_args_view(r) == create_or_attach_args(
            exists,
            session_name@,
            match config_path {
                Some(p) => Some(p@),
                None => None,
            },
        ),
{
    if !exists {
        Some(create_session(session_name, config_path))
    } else {
        match config_path {
            Some(path) => Some(source_config(path)),
            None => None,
        }
    }
}

/// [`create_session`] for the session with the default name.
pub fn create_session_default(config_path: Option<&str>) -> (args: Vec<String>)
    ensures
        text::str_views(args@) == create_session_args(
            DEFAULT_SESSION_NAME@,
            match config_path {
                Some(p) => Some(p@),
                None => None,
            },
        ),
{
    create_session(DEFAULT_SESSION_NAME, config_path)
}

/// [`create_or_attach`] for the session with the default name.
pub fn create_or_attach_default(exists: bool, config_path: Option<&str>) -> (r: Option<
    Vec<String>,
>)
    ensures
        opt_args_view(r) == create_or_attach_args(
            exists,
            DEFAULT_SESSION_NAME@,
            match config_path {
                Some(p) => Some(p@),
                None => None,
            },
        ),
{
    create_or_attach(exists, DEFAULT_SESSION_NAME, config_path)
}

} // verus!
