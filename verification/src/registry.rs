//! The clients of a session and their viewports.
//!
//! tmux shows a session at one size. Every client tells the size of its
//! viewport, and the session is given the smallest width and the smallest
//! height among its clients, so that each client sees all of it.

use crate::text;
use std::collections::HashMap;
use vstd::prelude::*;
use vstd::std_specs::hash::spec_values_iter;
use vstd::std_specs::iter::IteratorSpec;

verus! {

broadcast use vstd::std_specs::hash::group_hash_axioms;

/// Columns of a session without clients.
pub const DEFAULT_COLS: u32 = 80;

/// Rows of a session without clients.
pub const DEFAULT_ROWS: u32 = 24;

/// Whether `c` is the smallest width among the viewports `sizes`: the width
/// of some viewport, and no larger than any.
pub open spec fn least_cols(sizes: Map<u64, (u32, u32)>, c: u32) -> bool {
    &&& forall|k: u64| sizes.contains_key(k) ==> c <= (#[trigger] sizes[k]).0
    &&& exists|k: u64| sizes.contains_key(k) && (#[trigger] sizes[k]).0 == c
}

/// Whether `r` is the smallest height among the viewports `sizes`: the
/// height of some viewport, and no larger than any.
pub open spec fn least_rows(sizes: Map<u64, (u32, u32)>, r: u32) -> bool {
    &&& forall|k: u64| sizes.contains_key(k) ==> r <= (#[trigger] sizes[k]).1
    &&& exists|k: u64| sizes.contains_key(k) && (#[trigger] sizes[k]).1 == r
}

/// The smallest width among the viewports `sizes`, which map each
/// connection to the columns and rows that it reported.
pub open spec fn min_cols(sizes: Map<u64, (u32, u32)>) -> u32 {
    choose|c: u32| least_cols(sizes, c)
}

/// The smallest height among the viewports `sizes`.
pub open spec fn min_rows(sizes: Map<u64, (u32, u32)>) -> u32 {
    choose|r: u32| least_rows(sizes, r)
}

/// The size for a session whose clients have the viewports `sizes`: the
/// smallest width and the smallest height, or 80 by 24 without viewports.
pub open spec fn min_size(sizes: Map<u64, (u32, u32)>) -> (u32, u32) {
    if sizes.is_empty() {
        (DEFAULT_COLS, DEFAULT_ROWS)
    } else {
        (min_cols(sizes), min_rows(sizes))
    }
}

proof fn lemma_least_cols_exists(sizes: Map<u64, (u32, u32)>, k: u64)
    requires
        sizes.contains_key(k),
    ensures
        exists|c: u32| least_cols(sizes, c),
    decreases sizes[k].0,
{
    if exists|j: u64| sizes.contains_key(j) && (#[trigger] sizes[j]).0 < sizes[k].0 {
        let j = choose|j: u64| sizes.contains_key(j) && (#[trigger] sizes[j]).0 < sizes[k].0;
        lemma_least_cols_exists(sizes, j);
    } else {
        assert(least_cols(sizes, sizes[k].0));
    }
}

proof fn lemma_least_rows_exists(sizes: Map<u64, (u32, u32)>, k: u64)
    requires
        sizes.contains_key(k),
    ensures
        exists|r: u32| least_rows(sizes, r),
    decreases sizes[k].1,
{
    if exists|j: u64| sizes.contains_key(j) && (#[trigger] sizes[j]).1 < sizes[k].1 {
        let j = choose|j: u64| sizes.contains_key(j) && (#[trigger] sizes[j]).1 < sizes[k].1;
        lemma_least_rows_exists(sizes, j);
    } else {
        assert(least_rows(sizes, sizes[k].1));
    }
}

/// Where a connection has reported a viewport, the smallest width is the
/// width of some viewport and no larger than any; likewise the smallest
/// height.
pub proof fn lemma_min_size(sizes: Map<u64, (u32, u32)>, k: u64)
    requires
        sizes.contains_key(k),
    ensures
        least_cols(sizes, min_size(sizes).0),
        least_rows(sizes, min_size(sizes).1),
        min_size(sizes).0 <= sizes[k].0,
        min_size(sizes).1 <= sizes[k].1,
{
    lemma_least_cols_exists(sizes, k);
    lemma_least_rows_exists(sizes, k);
    assert(!(sizes.dom() =~= Set::<u64>::empty())) by {
        assert(sizes.dom().contains(k));
    }
}

/// The size for a session whose clients have the viewports `sizes`.
pub fn compute_min_client_size(sizes: &HashMap<u64, (u32, u32)>) -> (r: (u32, u32))
    ensures
        r == min_size(sizes@),
{
    if sizes.is_empty() {
        return (DEFAULT_COLS, DEFAULT_ROWS);
    }
    let mut cols: u32 = u32::MAX;
    let mut rows: u32 = u32::MAX;
    let ghost vals = spec_values_iter(sizes).remaining();
    let ghost mut n: int = 0;
    for v in it: sizes.values()
        invariant
            it.seq() == vals,
            n == it.index(),
            0 <= n <= vals.len(),
            forall|i: int| 0 <= i < n ==> cols <= (#[trigger] vals[i]).0 && rows <= vals[i].1,
            n == 0 ==> cols == u32::MAX && rows == u32::MAX,
            n > 0 ==> exists|i: int| 0 <= i < n && (#[trigger] vals[i]).0 == cols,
            n > 0 ==> exists|i: int| 0 <= i < n && (#[trigger] vals[i]).1 == rows,
    {
        assert(*v == *vals[n]);
        if v.0 <= cols {
            cols = v.0;
        }
        if v.1 <= rows {
            rows = v.1;
        }
        proof {
            n = n + 1;
        }
    }
    proof {
        let m = sizes@;
        assert(n == vals.len());
        assert(vals.unref().to_set() == m.values());
        assert(vals.len() == m.dom().len());
        assert(n > 0);
        assert forall|k: u64| m.contains_key(k) implies cols <= (#[trigger] m[k]).0 && rows
            <= m[k].1 by {
            assert(m.values().contains(m[k]));
            assert(vals.unref().to_set().contains(m[k]));
            let i = choose|i: int| 0 <= i < vals.unref().len() && vals.unref()[i] == m[k];
            assert(*vals[i] == m[k]);
        }
        let c = choose|j: int| 0 <= j < n && (#[trigger] vals[j]).0 == cols;
        assert(vals.unref()[c] == *vals[c]);
        assert(vals.unref().to_set().contains(*vals[c]));
        assert(m.values().contains(*vals[c]));
        let kc = choose|k: u64| m.contains_key(k) && m[k] == *vals[c];
        assert(m.contains_key(kc) && m[kc].0 == cols);
        assert(least_cols(m, cols));
        let r = choose|j: int| 0 <= j < n && (#[trigger] vals[j]).1 == rows;
        assert(vals.unref()[r] == *vals[r]);
        assert(vals.unref().to_set().contains(*vals[r]));
        assert(m.values().contains(*vals[r]));
        let kr = choose|k: u64| m.contains_key(k) && m[k] == *vals[r];
        assert(m.contains_key(kr) && m[kr].1 == rows);
        assert(least_rows(m, rows));
        assert(least_cols(m, min_cols(m)));
        assert(least_rows(m, min_rows(m)));
    }
    (cols, rows)
}

/// The connections from index `k` on other than `conn_id`.
pub open spec fn without_connection(connections: Seq<u64>, conn_id: u64, k: int) -> Seq<u64>
    decreases connections.len() - k,
{
    if k < 0 || k >= connections.len() {
        Seq::empty()
    } else if connections[k] != conn_id {
        seq![connections[k]] + without_connection(connections, conn_id, k + 1)
    } else {
        without_connection(connections, conn_id, k + 1)
    }
}

/// The clients of one session.
#[derive(Debug)]
pub struct SessionConnections {
    /// The connections, in the order in which they attached.
    pub connections: Vec<u64>,
    /// The viewport, as columns and rows, of each connection that has
    /// reported one.
    pub client_sizes: HashMap<u64, (u32, u32)>,
    /// The size that the session was given last.
    pub last_resize: Option<(u32, u32)>,
    /// Whether a monitor of the session has been started.
    pub has_monitor: bool,
}

/// The mathematical value of a [`SessionConnections`].
pub struct ConnectionsView {
    pub connections: Seq<u64>,
    pub sizes: Map<u64, (u32, u32)>,
    pub last_resize: Option<(u32, u32)>,
    pub has_monitor: bool,
}

impl View for SessionConnections {
    type V = ConnectionsView;

    open spec fn view(&self) -> ConnectionsView {
        ConnectionsView {
            connections: self.connections@,
            sizes: self.client_sizes@,
            last_resize: self.last_resize,
            has_monitor: self.has_monitor,
        }
    }
}

/// What follows when a client attaches.
#[derive(Debug, Clone, Copy)]
pub struct AttachOutcome {
    /// Whether a monitor of the session is to be started.
    pub start_monitor: bool,
    /// The size to give the session, where it changes.
    pub resize: Option<(u32, u32)>,
}

/// What follows when a client detaches.
#[derive(Debug, Clone, Copy, PartialEq, Eq, Structural)]
pub enum DetachOutcome {
    /// The last client is gone: the monitor is to shut down gracefully and
    /// the session is to be forgotten.
    Shutdown,
    /// The session is to be given this size.
    Resize { cols: u32, rows: u32 },
    /// Nothing is to be done.
    Unchanged,
}

/// The size to give a session whose viewports are `sizes` and which was
/// given `last` before: the smallest viewport, unless that is what it has.
pub open spec fn resize_needed(sizes: Map<u64, (u32, u32)>, last: Option<(u32, u32)>) -> Option<
    (u32, u32),
> {
    if last == Some(min_size(sizes)) {
        None
    } else {
        Some(min_size(sizes))
    }
}

/// The clients after a viewport was reported, and the size to give the
/// session.
pub open spec fn size_step(st: ConnectionsView, conn_id: u64, cols: u32, rows: u32) -> (
    ConnectionsView,
    Option<(u32, u32)>,
) {
    let sizes = st.sizes.insert(conn_id, (cols, rows));
    (
        ConnectionsView { sizes, last_resize: Some(min_size(sizes)), ..st },
        resize_needed(sizes, st.last_resize),
    )
}

/// The clients after a client attached, with the viewport `size` where it
/// told one, and what follows: the first client starts the monitor.
pub open spec fn attach_step(st: ConnectionsView, conn_id: u64, size: Option<(u32, u32)>) -> (
    ConnectionsView,
    AttachOutcome,
) {
    let sized = match size {
        Some((cols, rows)) => size_step(st, conn_id, cols, rows),
        None => (st, None),
    };
    (
        ConnectionsView {
            connections: st.connections.push(conn_id),
            has_monitor: true,
            ..sized.0
        },
        AttachOutcome { start_monitor: !st.has_monitor, resize: sized.1 },
    )
}

/// The clients after a client detached, and what follows. With the last
/// client the session is forgotten. Where clients remain and the client
/// that left had reported a viewport, the session takes the smallest
/// viewport of those that remain, which may be larger than before.
pub open spec fn detach_step(st: ConnectionsView, conn_id: u64) -> (ConnectionsView, DetachOutcome) {
    let connections = without_connection(st.connections, conn_id, 0);
    let sizes = st.sizes.remove(conn_id);
    let had_size = st.sizes.contains_key(conn_id);
    if connections.len() == 0 {
        (
            ConnectionsView {
                connections,
                sizes: Map::empty(),
                last_resize: None,
                has_monitor: false,
            },
            DetachOutcome::Shutdown,
        )
    } else if had_size && !sizes.is_empty() {
        (
            ConnectionsView { connections, sizes, last_resize: Some(min_size(sizes)), ..st },
            match resize_needed(sizes, st.last_resize) {
                Some(size) => DetachOutcome::Resize { cols: size.0, rows: size.1 },
                None => DetachOutcome::Unchanged,
            },
        )
    } else {
        (ConnectionsView { connections, sizes, ..st }, DetachOutcome::Unchanged)
    }
}

impl SessionConnections {
    /// A session without clients.
    pub fn new() -> (s: SessionConnections)
        ensures
            s@ == (ConnectionsView {
                connections: Seq::empty(),
                sizes: Map::empty(),
                last_resize: None,
                has_monitor: false,
            }),
    {
        SessionConnections {
            connections: Vec::new(),
            client_sizes: HashMap::new(),
            last_resize: None,
            has_monitor: false,
        }
    }

    fn resize_if_needed(&mut self) -> (r: Option<(u32, u32)>)
        ensures
            r == resize_needed(old(self)@.sizes, old(self)@.last_resize),
            final(self)@ == (ConnectionsView {
                last_resize: Some(min_size(old(self)@.sizes)),
                ..old(self)@
            }),
    {
        let min = compute_min_client_size(&self.client_sizes);
        let same = match self.last_resize {
            Some(last) => last.0 == min.0 && last.1 == min.1,
            None => false,
        };
        self.last_resize = Some(min);
        if same {
            None
        } else {
            Some(min)
        }
    }

    /// Takes the viewport that the connection `conn_id` reports. Returns
    /// the size to give the session, unless the session has it already.
    pub fn set_client_size(&mut self, conn_id: u64, cols: u32, rows: u32) -> (r: Option<(u32, u32)>)
        ensures
            (final(self)@, r) == size_step(old(self)@, conn_id, cols, rows),
    {
        self.client_sizes.insert(conn_id, (cols, rows));
        self.resize_if_needed()
    }

    /// Takes a client that attaches, with the viewport `size` where it
    /// tells one.
    pub fn attach(&mut self, conn_id: u64, size: Option<(u32, u32)>) -> (r: AttachOutcome)
        ensures
            (final(self)@, r) == attach_step(old(self)@, conn_id, size),
    {
        let start_monitor = !self.has_monitor;
        self.has_monitor = true;
        self.connections.push(conn_id);
        let resize = match size {
            Some((cols, rows)) => self.set_client_size(conn_id, cols, rows),
            None => None,
        };
        AttachOutcome { start_monitor, resize }
    }

    /// Takes leave of the client `conn_id`.
    pub fn detach(&mut self, conn_id: u64) -> (r: DetachOutcome)
        ensures
            (final(self)@, r) == detach_step(old(self)@, conn_id),
    {
        let mut kept: Vec<u64> = Vec::new();
        let mut k: usize = 0;
        while k < self.connections.len()
            invariant
                k <= self.connections@.len(),
                *self == *old(self),
                without_connection(self.connections@, conn_id, 0) == kept@ + without_connection(
                    self.connections@,
                    conn_id,
                    k as int,
                ),
            decreases self.connections@.len() - k,
        {
            if self.connections[k] != conn_id {
                kept.push(self.connections[k]);
                assert(without_connection(self.connections@, conn_id, 0) =~= kept@
                    + without_connection(self.connections@, conn_id, k + 1));
            }
            k += 1;
        }
        assert(kept@ + Seq::<u64>::empty() =~= kept@);
        self.connections = kept;
        let had_size = self.client_sizes.remove(&conn_id).is_some();
        if self.connections.len() == 0 {
            self.client_sizes.clear();
            self.last_resize = None;
            self.has_monitor = false;
            DetachOutcome::Shutdown
        } else if had_size && !self.client_sizes.is_empty() {
            match self.resize_if_needed() {
                Some(size) => DetachOutcome::Resize { cols: size.0, rows: size.1 },
                None => DetachOutcome::Unchanged,
            }
        } else {
            DetachOutcome::Unchanged
        }
    }
}

/// Something that happens to the clients of a session.
pub enum ClientEvent {
    Attach { conn_id: u64, size: Option<(u32, u32)> },
    SetSize { conn_id: u64, cols: u32, rows: u32 },
    Detach { conn_id: u64 },
}

/// The clients after an event, and the size that the session is given with
/// it, if any.
pub open spec fn client_step(st: ConnectionsView, event: ClientEvent) -> (
    ConnectionsView,
    Option<(u32, u32)>,
) {
    match event {
        ClientEvent::Attach { conn_id, size } => (
            attach_step(st, conn_id, size).0,
            attach_step(st, conn_id, size).1.resize,
        ),
        ClientEvent::SetSize { conn_id, cols, rows } => size_step(st, conn_id, cols, rows),
        ClientEvent::Detach { conn_id } => (
            detach_step(st, conn_id).0,
            match detach_step(st, conn_id).1 {
                DetachOutcome::Resize { cols, rows } => Some((cols, rows)),
                _ => None,
            },
        ),
    }
}

/// The clients after the events of `events` before index `k`.
pub open spec fn clients_after(st: ConnectionsView, events: Seq<ClientEvent>, k: int) -> ConnectionsView
    decreases k,
{
    if k <= 0 || k > events.len() {
        st
    } else {
        client_step(clients_after(st, events, k - 1), events[k - 1]).0
    }
}

/// Whether the session has the size of the smallest viewport, as long as a
/// client has reported one.
pub open spec fn sized_to_clients(st: ConnectionsView) -> bool {
    !st.sizes.is_empty() ==> st.last_resize == Some(min_size(st.sizes))
}

/// Every size that a session is given is the smallest viewport of its
/// clients at that time and differs from the size that it had. Where no
/// size is given, the session keeps the size that it had, unless its last
/// client has left. And a session that has the size of the smallest
/// viewport keeps having it.
pub proof fn lemma_client_step(st: ConnectionsView, event: ClientEvent)
    requires
        sized_to_clients(st),
    ensures
        sized_to_clients(client_step(st, event).0),
        match client_step(st, event).1 {
            Some(size) => size == min_size(client_step(st, event).0.sizes) && st.last_resize
                != Some(size) && client_step(st, event).0.last_resize == Some(size),
            None => client_step(st, event).0.last_resize == st.last_resize || client_step(
                st,
                event,
            ).0.connections.len() == 0,
        },
{
    match event {
        ClientEvent::Detach { conn_id } => {
            if !st.sizes.contains_key(conn_id) {
                assert(st.sizes.remove(conn_id) =~= st.sizes);
            }
        },
        _ => {},
    }
}

/// After any sequence of clients attaching, reporting viewports and
/// detaching, a session in which a client has reported a viewport has the
/// size of the smallest viewport of its clients.
pub proof fn lemma_viewport_minimised(events: Seq<ClientEvent>, k: int)
    requires
        0 <= k <= events.len(),
    ensures
        sized_to_clients(
            clients_after(
                ConnectionsView {
                    connections: Seq::empty(),
                    sizes: Map::empty(),
                    last_resize: None,
                    has_monitor: false,
                },
                events,
                k,
            ),
        ),
    decreases k,
{
    if k > 0 {
        let start = ConnectionsView {
            connections: Seq::empty(),
            sizes: Map::empty(),
            last_resize: None,
            has_monitor: false,
        };
        lemma_viewport_minimised(events, k - 1);
        lemma_client_step(clients_after(start, events, k - 1), events[k - 1]);
    }
}


/// The clients of one session, under the name of the session.
#[derive(Debug)]
pub struct SessionEntry {
    pub name: String,
    pub clients: SessionConnections,
}

/// A session token with the connection and the session that it belongs to.
#[derive(Debug)]
pub struct TokenEntry {
    pub token: String,
    pub conn_id: u64,
    pub session: String,
}

/// The registry of the sessions that have clients.
#[derive(Debug)]
pub struct SessionRegistry {
    /// The sessions, each name once.
    pub sessions: Vec<SessionEntry>,
    /// The tokens of the connections.
    pub tokens: Vec<TokenEntry>,
    /// The identifier of the next connection.
    pub next_conn_id: u64,
}

/// The mathematical value of a [`SessionRegistry`].
pub struct RegistryView {
    pub sessions: Seq<(Seq<char>, ConnectionsView)>,
    pub tokens: Seq<(Seq<char>, u64, Seq<char>)>,
    pub next_conn_id: u64,
}

/// The views of the sessions in `v`, in order.
pub open spec fn session_views(v: Seq<SessionEntry>) -> Seq<(Seq<char>, ConnectionsView)> {
    Seq::new(v.len(), |i: int| (v[i].name@, v[i].clients@))
}

/// The views of the tokens in `v`, in order.
pub open spec fn token_views(v: Seq<TokenEntry>) -> Seq<(Seq<char>, u64, Seq<char>)> {
    Seq::new(v.len(), |i: int| (v[i].token@, v[i].conn_id, v[i].session@))
}

impl View for SessionRegistry {
    type V = RegistryView;

    open spec fn view(&self) -> RegistryView {
        RegistryView {
            sessions: session_views(self.sessions@),
            tokens: token_views(self.tokens@),
            next_conn_id: self.next_conn_id,
        }
    }
}

/// Index of the session named `name` at or after `from`, or the number of
/// sessions where there is none.
pub open spec fn session_position(
    sessions: Seq<(Seq<char>, ConnectionsView)>,
    name: Seq<char>,
    from: int,
) -> int
    decreases sessions.len() - from,
{
    if from < 0 || from >= sessions.len() {
        sessions.len() as int
    } else if sessions[from].0 == name {
        from
    } else {
        session_position(sessions, name, from + 1)
    }
}

/// Index of the token `token` at or after `from`, or the number of tokens
/// where there is none.
pub open spec fn token_position(
    tokens: Seq<(Seq<char>, u64, Seq<char>)>,
    token: Seq<char>,
    from: int,
) -> int
    decreases tokens.len() - from,
{
    if from < 0 || from >= tokens.len() {
        tokens.len() as int
    } else if tokens[from].0 == token {
        from
    } else {
        token_position(tokens, token, from + 1)
    }
}

/// A session without clients.
pub open spec fn no_clients() -> ConnectionsView {
    ConnectionsView {
        connections: Seq::empty(),
        sizes: Map::empty(),
        last_resize: None,
        has_monitor: false,
    }
}

/// The registry after a client attached to the session `session` with the
/// token `token`, and with the viewport `size` where it told one; the
/// identifier of its connection; and what follows. A session that is new to
/// the registry is added.
pub open spec fn registry_attach(
    st: RegistryView,
    session: Seq<char>,
    size: Option<(u32, u32)>,
    token: Seq<char>,
) -> (RegistryView, u64, AttachOutcome) {
    let i = session_position(st.sessions, session, 0);
    let before = if i < st.sessions.len() {
        st.sessions[i].1
    } else {
        no_clients()
    };
    let step = attach_step(before, st.next_conn_id, size);
    (
        RegistryView {
            sessions: if i < st.sessions.len() {
                st.sessions.update(i, (session, step.0))
            } else {
                st.sessions.push((session, step.0))
            },
            tokens: st.tokens.push((token, st.next_conn_id, session)),
            next_conn_id: if st.next_conn_id < u64::MAX {
                (st.next_conn_id + 1) as u64
            } else {
                st.next_conn_id
            },
        },
        st.next_conn_id,
        step.1,
    )
}

/// The registry after the connection `conn_id` of the session `session`
/// reported a viewport, and the size to give the session. A session that
/// the registry does not know is left alone.
pub open spec fn registry_set_size(
    st: RegistryView,
    session: Seq<char>,
    conn_id: u64,
    cols: u32,
    rows: u32,
) -> (RegistryView, Option<(u32, u32)>) {
    let i = session_position(st.sessions, session, 0);
    if i < st.sessions.len() {
        (
            RegistryView {
                sessions: st.sessions.update(
                    i,
                    (session, size_step(st.sessions[i].1, conn_id, cols, rows).0),
                ),
                ..st
            },
            size_step(st.sessions[i].1, conn_id, cols, rows).1,
        )
    } else {
        (st, None)
    }
}

/// The tokens without the token `token`.
pub open spec fn without_token(tokens: Seq<(Seq<char>, u64, Seq<char>)>, token: Seq<char>) -> Seq<
    (Seq<char>, u64, Seq<char>),
> {
    let i = token_position(tokens, token, 0);
    if i < tokens.len() {
        tokens.remove(i)
    } else {
        tokens
    }
}

/// The registry after the connection `conn_id` of the session `session`
/// detached, and what follows. The token of the connection is forgotten;
/// the session is forgotten with its last client.
pub open spec fn registry_detach(
    st: RegistryView,
    session: Seq<char>,
    conn_id: u64,
    token: Seq<char>,
) -> (RegistryView, DetachOutcome) {
    let i = session_position(st.sessions, session, 0);
    let tokens = without_token(st.tokens, token);
    if i < st.sessions.len() {
        let step = detach_step(st.sessions[i].1, conn_id);
        (
            RegistryView {
                sessions: if step.1 == DetachOutcome::Shutdown {
                    st.sessions.remove(i)
                } else {
                    st.sessions.update(i, (session, step.0))
                },
                tokens,
                ..st
            },
            step.1,
        )
    } else {
        (RegistryView { tokens, ..st }, DetachOutcome::Unchanged)
    }
}

impl SessionRegistry {
    /// A registry without sessions. The first connection gets the
    /// identifier 1.
    pub fn new() -> (r: SessionRegistry)
        ensures
            r@ == (RegistryView { sessions: Seq::empty(), tokens: Seq::empty(), next_conn_id: 1 }),
    {
        let r = SessionRegistry { sessions: Vec::new(), tokens: Vec::new(), next_conn_id: 1 };
        assert(r@.sessions =~= Seq::empty());
        assert(r@.tokens =~= Seq::empty());
        r
    }

    fn find_session(&self, name: &str) -> (i: usize)
        ensures
            i == session_position(self@.sessions, name@, 0),
            i <= self.sessions@.len(),
            i < self.sessions@.len() ==> self@.sessions[i as int].0 == name@,
    {
        let mut i: usize = 0;
        while i < self.sessions.len()
            invariant
                i <= self.sessions@.len(),
                session_position(self@.sessions, name@, 0) == session_position(
                    self@.sessions,
                    name@,
                    i as int,
                ),
            decreases self.sessions@.len() - i,
        {
            if text::str_eq(self.sessions[i].name.as_str(), name) {
                return i;
            }
            i += 1;
        }
        i
    }

    fn find_token(&self, token: &str) -> (i: usize)
        ensures
            i == token_position(self@.tokens, token@, 0),
            i <= self.tokens@.len(),
            i < self.tokens@.len() ==> self@.tokens[i as int].0 == token@,
    {
        let mut i: usize = 0;
        while i < self.tokens.len()
            invariant
                i <= self.tokens@.len(),
                token_position(self@.tokens, token@, 0) == token_position(
                    self@.tokens,
                    token@,
                    i as int,
                ),
            decreases self.tokens@.len() - i,
        {
            if text::str_eq(self.tokens[i].token.as_str(), token) {
                return i;
            }
            i += 1;
        }
        i
    }

    /// Whether the session `session` has clients. A monitor that lost its
    /// connection reconnects only as long as this holds.
    pub fn is_tracked(&self, session: &str) -> (r: bool)
        ensures
            r == (session_position(self@.sessions, session@, 0) < self@.sessions.len()),
    {
        self.find_session(session) < self.sessions.len()
    }

    /// Takes a client that attaches to the session `session` with the
    /// token `token`, and with the viewport `size` where it tells one.
    /// Returns the identifier of its connection and what follows.
    pub fn attach(&mut self, session: &str, size: Option<(u32, u32)>, token: String) -> (r: (
        u64,
        AttachOutcome,
    ))
        ensures
            (final(self)@, r.0, r.1) == registry_attach(old(self)@, session@, size, token@),
    {
        let conn_id = self.next_conn_id;
        if self.next_conn_id < u64::MAX {
            self.next_conn_id = self.next_conn_id + 1;
        }
        let i = self.find_session(session);
        let ghost before = self.sessions@;
        if i >= self.sessions.len() {
            self.sessions.push(
                SessionEntry {
                    name: text::string_of_str(session),
                    clients: SessionConnections::new(),
                },
            );
        }
        let outcome = self.sessions[i].clients.attach(conn_id, size);
        let ghost tokens = self@.tokens;
        self.tokens.push(TokenEntry { token, conn_id, session: text::string_of_str(session) });
        proof {
            assert(self@.tokens =~= tokens.push((token@, conn_id, session@)));
            let step = attach_step(
                if i < before.len() {
                    session_views(before)[i as int].1
                } else {
                    no_clients()
                },
                conn_id,
                size,
            );
            if i < before.len() {
                assert(session_views(before)[i as int].0 == session@);
                assert(self@.sessions =~= session_views(before).update(
                    i as int,
                    (session@, step.0),
                ));
            } else {
                assert(self@.sessions =~= session_views(before).push((session@, step.0)));
            }
        }
        (conn_id, outcome)
    }

    /// The connection and the session that the token `token` belongs to, if
    /// it is a token of the registry.
    pub fn validate_token(&self, token: &str) -> (r: Option<(u64, String)>)
        ensures
            match r {
                Some((conn_id, session)) => token_position(self@.tokens, token@, 0)
                    < self@.tokens.len() && self@.tokens[token_position(
                    self@.tokens,
                    token@,
                    0,
                )] == (token@, conn_id, session@),
                None => token_position(self@.tokens, token@, 0) == self@.tokens.len(),
            },
    {
        let i = self.find_token(token);
        if i < self.tokens.len() {
            assert(self@.tokens[i as int] == (
                self.tokens@[i as int].token@,
                self.tokens@[i as int].conn_id,
                self.tokens@[i as int].session@,
            ));
            Some((self.tokens[i].conn_id, self.tokens[i].session.clone()))
        } else {
            None
        }
    }

    /// Takes the viewport that the connection `conn_id` of the session
    /// `session` reports. Returns the size to give the session, unless the
    /// session has it already.
    pub fn set_client_size(&mut self, session: &str, conn_id: u64, cols: u32, rows: u32) -> (r:
        Option<(u32, u32)>)
        ensures
            (final(self)@, r) == registry_set_size(old(self)@, session@, conn_id, cols, rows),
    {
        let i = self.find_session(session);
        if i < self.sessions.len() {
            let ghost before = self.sessions@;
            assert(session_views(before)[i as int].0 == session@);
            let r = self.sessions[i].clients.set_client_size(conn_id, cols, rows);
            assert(self@.sessions =~= session_views(before).update(
                i as int,
                (session@, size_step(session_views(before)[i as int].1, conn_id, cols, rows).0),
            ));
            r
        } else {
            None
        }
    }

    /// Takes leave of the connection `conn_id` of the session `session`,
    /// whose token was `token`.
    pub fn detach(&mut self, session: &str, conn_id: u64, token: &str) -> (r: DetachOutcome)
        ensures
            (final(self)@, r) == registry_detach(old(self)@, session@, conn_id, token@),
    {
        let t = self.find_token(token);
        let ghost tokens = self@.tokens;
        if t < self.tokens.len() {
            self.tokens.remove(t);
            assert(self@.tokens =~= tokens.remove(t as int));
        }
        let i = self.find_session(session);
        if i >= self.sessions.len() {
            return DetachOutcome::Unchanged;
        }
        let ghost before = self.sessions@;
        assert(session_views(before)[i as int].0 == session@);
        let outcome = self.sessions[i].clients.detach(conn_id);
        let ghost step = detach_step(session_views(before)[i as int].1, conn_id);
        assert(self@.sessions =~= session_views(before).update(i as int, (session@, step.0)));
        match outcome {
            DetachOutcome::Shutdown => {
                let ghost updated = self.sessions@;
                self.sessions.remove(i);
                assert(self@.sessions =~= session_views(before).remove(i as int));
            },
            _ => {},
        }
        outcome
    }
}

} // verus!
