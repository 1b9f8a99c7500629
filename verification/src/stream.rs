//! What a client is told when it subscribes to the state of a session.
//!
//! A subscription begins with an event that tells the client its
//! connection, its token and the shell of the user; then come the key
//! bindings; and then the updates of the state, each delta under the
//! sequence number by which a client can resume.

use crate::model::{StateUpdate, StateUpdateView};
use crate::text;
use vstd::prelude::*;

verus! {

/// Name of the event that tells a client its connection.
pub const CONNECTION_INFO_EVENT: &'static str = "connection-info";

/// Name of the event that tells the key bindings.
pub const KEYBINDINGS_EVENT: &'static str = "keybindings";

/// Name of the event that carries an update of the state.
pub const STATE_UPDATE_EVENT: &'static str = "state-update";

/// Name of the event that carries an error.
pub const ERROR_EVENT: &'static str = "error";

/// How many updates may wait for a client that lags behind.
pub const BROADCAST_CAPACITY: usize = 100;

/// The number of bytes of randomness in a session token.
pub const TOKEN_BYTES: usize = 16;

/// The lower-case hexadecimal digit for a number below 16.
pub open spec fn hex_char(n: nat) -> char {
    if n < 10 {
        (('0' as u32) + n as u32) as char
    } else {
        (('a' as u32) + (n - 10) as u32) as char
    }
}

/// `bytes` in lower-case hexadecimal: two digits for each byte, the high
/// half first.
pub open spec fn hex_lower(bytes: Seq<u8>) -> Seq<char> {
    Seq::new(
        2 * bytes.len(),
        |i: int|
            if i % 2 == 0 {
                hex_char((bytes[i / 2] / 16) as nat)
            } else {
                hex_char((bytes[i / 2] % 16) as nat)
            },
    )
}

/// Whether `c` is a lower-case hexadecimal digit.
pub open spec fn is_hex_lower(c: char) -> bool {
    ('0' <= c <= '9') || ('a' <= c <= 'f')
}

/// Writes bytes in hexadecimal.
///
/// Wraps `hex::encode`, which writes each byte as two lower-case digits,
/// the high half first.
#[verifier::external_body]
fn hex_encode(bytes: &[u8]) -> (s: String)
    ensures
        s@ == hex_lower(bytes@),
{
    hex::encode(bytes)
}

/// Draws the random bytes of a session token.
///
/// Wraps `rand::thread_rng` and `rand::Rng::gen` for an array of 16 bytes.
/// Nothing is known of the bytes but their number.
#[verifier::external_body]
fn random_token_bytes() -> (bytes: Vec<u8>)
    ensures
        bytes@.len() == TOKEN_BYTES,
{
    rand::Rng::gen::<[u8; 16]>(&mut rand::thread_rng()).to_vec()
}

/// The hexadecimal text of a token holds hexadecimal digits only, two for
/// each byte.
pub proof fn lemma_hex_lower(bytes: Seq<u8>)
    ensures
        hex_lower(bytes).len() == 2 * bytes.len(),
        forall|i: int| 0 <= i < hex_lower(bytes).len() ==> is_hex_lower(#[trigger] hex_lower(bytes)[i]),
{
    assert forall|i: int| 0 <= i < hex_lower(bytes).len() implies is_hex_lower(
        #[trigger] hex_lower(bytes)[i],
    ) by {
        let b = bytes[i / 2];
        assert(b / 16 < 16);
        assert(b % 16 < 16);
    }
}

/// The session token made of the random bytes `bytes`.
pub fn session_token_from(bytes: &[u8]) -> (token: String)
    ensures
        token@ == hex_lower(bytes@),
{
    hex_encode(bytes)
}

/// A fresh session token: 32 lower-case hexadecimal digits that write 16
/// random bytes.
pub fn generate_session_token() -> (token: String)
    ensures
        token@.len() == 32,
        forall|i: int| 0 <= i < 32 ==> is_hex_lower(#[trigger] token@[i]),
{
    let bytes = random_token_bytes();
    proof {
        lemma_hex_lower(bytes@);
    }
    session_token_from(bytes.as_slice())
}

/// Index behind the last `/` of `s` before index `to`, or 0.
pub open spec fn after_last_slash(s: Seq<char>, to: int) -> int
    decreases to,
{
    if to <= 0 || to > s.len() {
        0
    } else if s[to - 1] == '/' {
        to
    } else {
        after_last_slash(s, to - 1)
    }
}

/// The name of the shell of the user: what follows the last `/` of the
/// path of the shell, or `bash` where no shell is known.
pub open spec fn shell_name(shell: Option<Seq<char>>) -> Seq<char> {
    match shell {
        Some(path) => path.subrange(after_last_slash(path, path.len() as int), path.len() as int),
        None => "bash"@,
    }
}

/// The name of the shell of the user, given the path of the shell.
pub fn default_shell(shell: Option<&str>) -> (name: String)
    ensures
        name@ == shell_name(
            match shell {
                Some(p) => Some(p@),
                None => None,
            },
        ),
{
    match shell {
        Some(path) => {
            let chars = text::chars_of(path);
            let mut start: usize = chars.len();
            while start > 0 && chars[start - 1] != '/'
                invariant
                    start <= chars@.len(),
                    after_last_slash(chars@, chars@.len() as int) == after_last_slash(
                        chars@,
                        start as int,
                    ),
                decreases start,
            {
                start -= 1;
            }
            let name = text::sub_vec(chars.as_slice(), start, chars.len());
            text::string_of(name.as_slice())
        },
        None => text::string_of_str("bash"),
    }
}

/// The identifier under which an update is sent: the sequence number of a
/// delta. A full snapshot has none.
pub open spec fn update_id(update: StateUpdateView) -> Option<Seq<char>> {
    match update {
        StateUpdateView::Delta { delta } => Some(text::decimal(delta.seq as nat)),
        StateUpdateView::Full { state } => None,
    }
}

/// The identifier under which `update` is sent, if it has one.
pub fn event_id(update: &StateUpdate) -> (id: Option<String>)
    ensures
        text::opt_view(id) == update_id(update@),
{
    match update {
        StateUpdate::Delta { delta } => Some(text::decimal_string(delta.seq)),
        StateUpdate::Full { state } => None,
    }
}

} // verus!
