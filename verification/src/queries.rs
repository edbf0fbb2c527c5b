//! Queries of sessions: what a frame asks for, when a query may run, how its rows are handed out
//! page by page, and how long it counts against the quota of its database.

use vstd::prelude::*;

use crate::commands::{
    parse_prepared_query_command, parse_transaction_command, query_command, tx_command,
    PreparedQueryCommand, QueryCommand, TransactionCommand, TxCommand,
};
use crate::cursors::{cursor_refusal, CursorState, CursorStore};
use crate::cypher::{is_write, is_write_cypher};
use crate::limits::{query_refusal, rows_refusal, TenantQuota};
use crate::native::{
    after_cancel, cancel_of, cancel_request, cancelled_text, cursor_number, fetch_of,
    format_result_page, format_result_start, known, outcome_text, parse_cursor_id,
    parse_fetch_payload, result_page, result_start, FetchRequest, PendingRequestStore, Waiting,
};
use crate::requests::drained;
use crate::table::{
    as_map, ascending, lemma_as_map, lemma_as_map_finite, lemma_not_owned, not_owned_by, owned_by,
    without_session,
};
use crate::text::{cat, dec, show};
use crate::value::QueryParams;

verus! {

/// What a frame of a client is for.
#[derive(Clone, Copy, PartialEq, Eq, Structural, Debug)]
pub enum FrameKind {
    Ping,
    Quit,
    Query,
    Command,
    Fetch,
    CloseCursor,
    Cancel,
    Response,
    Error,
}

/// What is to be done for a frame. A query, and a request that is no command on transactions or
/// prepared queries, are given as they came.
pub enum FrameStep {
    Pong,
    Bye,
    Query(String),
    Prepared(PreparedQueryCommand),
    Transaction(TransactionCommand),
    Request(String),
    Fetch(FetchRequest),
    CloseCursor(u64),
    Answer(String),
}

/// The contents of what is to be done for a frame.
pub enum Asked {
    Pong,
    Bye,
    Query(Seq<char>),
    Prepared(QueryCommand),
    Transaction(TxCommand),
    Request(Seq<char>),
    Fetch { cursor_id: nat, page_size: nat },
    CloseCursor(nat),
    Answer(Seq<char>),
}

impl FrameStep {
    pub open spec fn view(&self) -> Asked {
        match *self {
            FrameStep::Pong => Asked::Pong,
            FrameStep::Bye => Asked::Bye,
            FrameStep::Query(t) => Asked::Query(t@),
            FrameStep::Prepared(c) => Asked::Prepared(c@),
            FrameStep::Transaction(c) => Asked::Transaction(c@),
            FrameStep::Request(t) => Asked::Request(t@),
            FrameStep::Fetch(f) => Asked::Fetch {
                cursor_id: f.cursor_id as nat,
                page_size: f.page_size as nat,
            },
            FrameStep::CloseCursor(n) => Asked::CloseCursor(n as nat),
            FrameStep::Answer(t) => Asked::Answer(t@),
        }
    }
}

/// What a command asks for: it is one on prepared queries, or one on transactions, or another
/// request.
pub open spec fn command_asked(payload: Seq<char>) -> Result<Asked, Seq<char>> {
    match query_command(payload) {
        Err(e) => Err(e),
        Ok(Some(c)) => Ok(Asked::Prepared(c)),
        Ok(None) => match tx_command(payload) {
            Err(e) => Err(e),
            Ok(Some(c)) => Ok(Asked::Transaction(c)),
            Ok(None) => Ok(Asked::Request(payload)),
        },
    }
}

/// What a frame asks for. The payload is its text, or why it has none.
pub open spec fn frame_asked(
    kind: FrameKind,
    payload: Result<Seq<char>, Seq<char>>,
    maintenance: Result<bool, String>,
    waiting: Waiting,
    session_id: u64,
) -> Result<Asked, Seq<char>> {
    match kind {
        FrameKind::Ping => Ok(Asked::Pong),
        FrameKind::Quit => Ok(Asked::Bye),
        FrameKind::Response | FrameKind::Error => Err("client cannot send response frames"@),
        FrameKind::Query => match drained(
            true,
            maintenance,
            "restore maintenance mode is draining native requests"@,
        ) {
            Some(e) => Err(e),
            None => match payload {
                Err(e) => Err(e),
                Ok(t) => Ok(Asked::Query(t)),
            },
        },
        _ => match payload {
            Err(e) => Err(e),
            Ok(t) => match kind {
                FrameKind::Command => command_asked(t),
                FrameKind::Fetch => match fetch_of(t) {
                    Err(e) => Err(e),
                    Ok((cursor_id, page_size)) => Ok(Asked::Fetch { cursor_id, page_size }),
                },
                FrameKind::CloseCursor => match cursor_number(t) {
                    Err(e) => Err(e),
                    Ok(n) => Ok(Asked::CloseCursor(n)),
                },
                _ => match cancel_of(t) {
                    Err(e) => Err(e),
                    Ok(n) => Ok(
                        Asked::Answer(
                            cancelled_text(n, waiting.pending.contains((session_id, n as u64))),
                        ),
                    ),
                },
            },
        },
    }
}

/// What waits after a frame: one that cancels a request marks it.
pub open spec fn after_frame(
    kind: FrameKind,
    payload: Result<Seq<char>, Seq<char>>,
    waiting: Waiting,
    session_id: u64,
) -> Waiting {
    match payload {
        Ok(t) => if kind is Cancel {
            match cancel_of(t) {
                Ok(n) => after_cancel(waiting, session_id, n as u64),
                Err(_) => waiting,
            }
        } else {
            waiting
        },
        Err(_) => waiting,
    }
}

/// The contents of the outcome of reading a frame.
pub open spec fn asked_outcome(r: Result<FrameStep, String>) -> Result<Asked, Seq<char>> {
    match r {
        Ok(s) => Ok(s@),
        Err(e) => Err(e@),
    }
}

fn read_command(payload: String) -> (r: Result<FrameStep, String>)
    ensures
        asked_outcome(r) == command_asked(payload@),
{
    match parse_prepared_query_command(payload.as_str()) {
        Err(e) => Err(e),
        Ok(Some(c)) => Ok(FrameStep::Prepared(c)),
        Ok(None) => match parse_transaction_command(payload.as_str()) {
            Err(e) => Err(e),
            Ok(Some(c)) => Ok(FrameStep::Transaction(c)),
            Ok(None) => Ok(FrameStep::Request(payload)),
        },
    }
}

/// Reads what a frame asks for, and marks the request that it cancels. The payload is its text,
/// or why it has none; the maintenance tells whether the database is being restored, or why that
/// is not known.
pub fn execute_frame_inner(
    store: &mut PendingRequestStore,
    session_id: u64,
    kind: FrameKind,
    payload: Result<String, String>,
    maintenance: Result<bool, String>,
) -> (r: Result<FrameStep, String>)
    requires
        old(store).well_formed(),
    ensures
        final(store).well_formed(),
        asked_outcome(r) == frame_asked(
            kind,
            outcome_text(payload),
            maintenance,
            old(store)@,
            session_id,
        ),
        final(store)@ == after_frame(kind, outcome_text(payload), old(store)@, session_id),
{
    match kind {
        FrameKind::Ping => Ok(FrameStep::Pong),
        FrameKind::Quit => Ok(FrameStep::Bye),
        FrameKind::Response => Err("client cannot send response frames".to_owned()),
        FrameKind::Error => Err("client cannot send response frames".to_owned()),
        FrameKind::Query => match maintenance {
            Err(e) => Err(e),
            Ok(draining) => if draining {
                Err("restore maintenance mode is draining native requests".to_owned())
            } else {
                match payload {
                    Err(e) => Err(e),
                    Ok(t) => Ok(FrameStep::Query(t)),
                }
            },
        },
        FrameKind::Command => match payload {
            Err(e) => Err(e),
            Ok(t) => read_command(t),
        },
        FrameKind::Fetch => match payload {
            Err(e) => Err(e),
            Ok(t) => match parse_fetch_payload(t.as_str()) {
                Err(e) => Err(e),
                Ok(f) => Ok(FrameStep::Fetch(f)),
            },
        },
        FrameKind::CloseCursor => match payload {
            Err(e) => Err(e),
            Ok(t) => match parse_cursor_id(t.as_str()) {
                Err(e) => Err(e),
                Ok(n) => Ok(FrameStep::CloseCursor(n)),
            },
        },
        FrameKind::Cancel => match payload {
            Err(e) => Err(e),
            Ok(t) => match cancel_request(store, session_id, t.as_str()) {
                Err(e) => Err(e),
                Ok(answer) => Ok(FrameStep::Answer(answer)),
            },
        },
    }
}

/// In what way a query of a session runs.
#[derive(Clone, Copy, PartialEq, Eq, Structural, Debug)]
pub enum QueryWay {
    /// On the database as a whole.
    Whole,
    /// On every shard.
    Distributed,
    /// On one shard.
    Shard,
    /// On one shard, as if staged writes had been done.
    StagedShard,
    /// As a write on one shard.
    WriteShard,
    /// As a batch of writes on one shard.
    WriteBatch,
}

/// Why a query may not run in a way.
pub open spec fn way_refusal(way: QueryWay, query: Seq<char>) -> Option<Seq<char>> {
    if way is Distributed && is_write(query) {
        Some("QUERY_DISTRIBUTED only supports read queries"@)
    } else if way is Shard && is_write(query) {
        Some("QUERY_SHARD only supports read queries in native cursor mode"@)
    } else {
        None
    }
}

/// Where the rows of a query on the database as a whole come from.
#[derive(Clone, Copy, PartialEq, Eq, Structural, Debug)]
pub enum QuerySource {
    /// The shards that the query writes to.
    WrittenShards,
    /// The database, without parameters.
    Database,
    /// The database, with parameters.
    DatabaseWithParams,
}

/// Tells where the rows of a query on the database as a whole come from.
pub fn query_source(query: &str, params: &QueryParams) -> (r: QuerySource)
    requires
        params.well_formed(),
    ensures
        r == (if is_write(query@) {
            QuerySource::WrittenShards
        } else if params@.dom() =~= Set::<Seq<char>>::empty() {
            QuerySource::Database
        } else {
            QuerySource::DatabaseWithParams
        }),
{
    if is_write_cypher(query) {
        QuerySource::WrittenShards
    } else if params.is_empty() {
        QuerySource::Database
    } else {
        QuerySource::DatabaseWithParams
    }
}

/// Whether a cursor uses the quota of a database.
pub open spec fn uses<C>(state: CursorState<C>, database: Seq<char>) -> bool {
    state.tenant_permit is Some && state.tenant_permit->Some_0@ == database
}

/// How much of the quota of a database a cursor uses.
pub open spec fn share<C>(state: CursorState<C>, database: Seq<char>) -> nat {
    if uses(state, database) {
        1
    } else {
        0
    }
}

/// The cursors that use the quota of a database.
pub open spec fn users<C>(m: Map<u64, CursorState<C>>, database: Seq<char>) -> Set<u64> {
    m.dom().filter(|k: u64| uses(m[k], database))
}

/// How much of the quota of a database a list of cursors uses.
pub open spec fn shares<C>(s: Seq<(u64, CursorState<C>)>, database: Seq<char>) -> nat
    decreases s.len(),
{
    if s.len() == 0 {
        0
    } else {
        shares(s.drop_last(), database) + share(s.last().1, database)
    }
}

/// What is left of a count when some are given back.
pub open spec fn less(count: nat, n: nat) -> nat {
    if count > n {
        (count - n) as nat
    } else {
        0
    }
}

proof fn lemma_users_insert<C>(
    m: Map<u64, CursorState<C>>,
    k: u64,
    state: CursorState<C>,
    database: Seq<char>,
)
    requires
        m.dom().finite(),
        !m.dom().contains(k),
    ensures
        users(m.insert(k, state), database).len() == users(m, database).len() + share(
            state,
            database,
        ),
{
    let before = users(m, database);
    let after = users(m.insert(k, state), database);
    m.dom().lemma_len_filter(|k: u64| uses(m[k], database));
    if uses(state, database) {
        assert(after =~= before.insert(k));
    } else {
        assert(after =~= before);
    }
}

proof fn lemma_users_remove<C>(m: Map<u64, CursorState<C>>, k: u64, database: Seq<char>)
    requires
        m.dom().finite(),
        m.dom().contains(k),
    ensures
        users(m.remove(k), database).len() + share(m[k], database) == users(m, database).len(),
{
    let rest = m.remove(k);
    lemma_users_insert(rest, k, m[k], database);
    assert(rest.insert(k, m[k]) =~= m);
}

proof fn lemma_users_are_shares<C>(s: Seq<(u64, CursorState<C>)>, database: Seq<char>)
    requires
        ascending(s),
    ensures
        users(as_map(s), database).len() == shares(s, database),
    decreases s.len(),
{
    if s.len() == 0 {
        assert(users(as_map(s), database) =~= Set::<u64>::empty());
    } else {
        let t = s.drop_last();
        assert(ascending(t)) by {
            assert forall|i: int, j: int| 0 <= i < j < t.len() implies (#[trigger] t[i]).0 < (
            #[trigger] t[j]).0 by {
                assert(s[i] == t[i] && s[j] == t[j]);
            }
        }
        lemma_users_are_shares(t, database);
        lemma_as_map(t);
        lemma_as_map_finite(t);
        let e = s.last();
        assert(!as_map(t).dom().contains(e.0)) by {
            if as_map(t).dom().contains(e.0) {
                let i = choose|i: int| 0 <= i < t.len() && (#[trigger] t[i]).0 == e.0;
                assert(s[i].0 < s[s.len() - 1].0);
            }
        }
        lemma_users_insert(as_map(t), e.0, e.1, database);
    }
}

proof fn lemma_shares_push<C>(
    s: Seq<(u64, CursorState<C>)>,
    e: (u64, CursorState<C>),
    database: Seq<char>,
)
    ensures
        shares(s.push(e), database) == shares(s, database) + share(e.1, database),
{
    assert(s.push(e).drop_last() =~= s);
}

proof fn lemma_shares_split<C>(
    s: Seq<(u64, CursorState<C>)>,
    session_id: u64,
    database: Seq<char>,
)
    ensures
        shares(owned_by(s, session_id), database) + shares(not_owned_by(s, session_id), database)
            == shares(s, database),
    decreases s.len(),
{
    if s.len() > 0 {
        let t = s.drop_last();
        lemma_shares_split(t, session_id, database);
        lemma_shares_push(owned_by(t, session_id), s.last(), database);
        lemma_shares_push(not_owned_by(t, session_id), s.last(), database);
    }
}

/// The cursors that sessions have open, with the quota that their queries use.
pub struct OpenQueries<C> {
    pub quota: TenantQuota,
    pub cursors: CursorStore<C>,
}

/// The text that tells that a cursor is closed.
pub open spec fn closed_text(cursor_id: nat) -> Seq<char> {
    "OK\tCURSOR_CLOSED\t"@ + dec(cursor_id)
}

impl<C> OpenQueries<C> {
    pub open spec fn well_formed(&self) -> bool {
        self.quota.well_formed() && self.cursors.well_formed()
    }

    /// Whether the quota of a database, where it has a limit, counts each query that has a
    /// cursor, and `running` others, and nothing else.
    pub open spec fn accounts_for(&self, database: Seq<char>, running: nat) -> bool {
        self.quota.limits().max_concurrent_queries is Some ==> self.quota.active(database) == users(
            self.cursors@,
            database,
        ).len() + running
    }

    pub fn new(quota: TenantQuota) -> (r: Self)
        requires
            quota.well_formed(),
        ensures
            r.well_formed(),
            r.quota == quota,
            r.cursors@ == Map::<u64, CursorState<C>>::empty(),
            r.cursors.last_id() == 0,
    {
        OpenQueries { quota, cursors: CursorStore::new() }
    }

    /// Starts a query, where it may run in that way and the quota allows another.
    pub fn begin(&mut self, way: QueryWay, query: &str, database: &str) -> (r: Result<(), String>)
        requires
            old(self).well_formed(),
        ensures
            final(self).well_formed(),
            final(self).cursors == old(self).cursors,
            final(self).quota.limits() == old(self).quota.limits(),
            match way_refusal(way, query@) {
                Some(e) => r is Err && r->Err_0@ == e,
                None => match query_refusal(
                    old(self).quota.limits(),
                    database@,
                    old(self).quota.active(database@),
                ) {
                    Some(e) => r is Err && r->Err_0@ == e,
                    None => r is Ok,
                },
            },
            forall|d: Seq<char>| #[trigger]
                final(self).quota.active(d) == old(self).quota.active(d)
                    + (if r is Ok && old(self).quota.limits().max_concurrent_queries is Some && d == database@ {
                    1nat
                } else {
                    0nat
                }),
            forall|d: Seq<char>, n: nat| #[trigger]
                old(self).accounts_for(d, n) ==> final(self).accounts_for(
                    d,
                    if r is Ok && d == database@ {
                        n + 1
                    } else {
                        n
                    },
                ),
    {
        if let QueryWay::Distributed = way {
            if is_write_cypher(query) {
                return Err("QUERY_DISTRIBUTED only supports read queries".to_owned());
            }
        }
        if let QueryWay::Shard = way {
            if is_write_cypher(query) {
                return Err(
                    "QUERY_SHARD only supports read queries in native cursor mode".to_owned(),
                );
            }
        }
        self.quota.acquire_query(database)
    }

    /// Opens a cursor on what a query that was started gave: the rows, and how many they are,
    /// as far as that is known. A query that failed or gave too many rows gives its place in the
    /// quota back; the others keep it with the cursor.
    pub fn open(
        &mut self,
        session_id: u64,
        outcome: Result<(C, Option<usize>), String>,
        database: &str,
    ) -> (r: Result<u64, String>)
        requires
            old(self).well_formed(),
            old(self).cursors.last_id() < u64::MAX,
        ensures
            final(self).well_formed(),
            final(self).quota.limits() == old(self).quota.limits(),
            match outcome {
                Err(e) => r is Err && r->Err_0@ == e@,
                Ok((cursor, total)) => match too_many(old(self).quota, database@, total) {
                    Some(e) => r is Err && r->Err_0@ == e,
                    None => r is Ok && r->Ok_0 == old(self).cursors.last_id() + 1
                        && final(self).cursors.last_id() == r->Ok_0 && final(self).cursors@.dom()
                        == old(self).cursors@.dom().insert(r->Ok_0) && (forall|k: u64|
                        #![trigger final(self).cursors@[k]]
                        old(self).cursors@.dom().contains(k) ==> final(self).cursors@[k]
                            == old(self).cursors@[k]) && final(self).cursors@[r->Ok_0].session_id
                        == session_id && final(self).cursors@[r->Ok_0].cursor == cursor && uses(
                        final(self).cursors@[r->Ok_0],
                        database@,
                    ) && forall|d: Seq<char>| #[trigger]
                        final(self).quota.active(d) == old(self).quota.active(d),
                },
            },
            r is Err ==> final(self).cursors == old(self).cursors && forall|d: Seq<char>| #[trigger]
                final(self).quota.active(d) == less(
                    old(self).quota.active(d),
                    if d == database@ {
                        1
                    } else {
                        0
                    },
                ),
            forall|d: Seq<char>, n: nat| #[trigger]
                old(self).accounts_for(d, n) && (d == database@ ==> n > 0)
                    ==> final(self).accounts_for(
                    d,
                    if d == database@ {
                        (n - 1) as nat
                    } else {
                        n
                    },
                ),
    {
        let (cursor, total) = match outcome {
            Err(e) => {
                self.quota.release_query(database);
                return Err(e);
            },
            Ok(p) => p,
        };
        if let Some(rows) = total {
            if let Err(e) = self.quota.validate_result_rows(database, rows) {
                self.quota.release_query(database);
                return Err(e);
            }
        }
        let ghost before = self.cursors@;
        proof {
            self.cursors.lemma_entries();
            lemma_as_map_finite(self.cursors.entries());
        }
        let permit = Some(database.to_owned());
        let ghost state = CursorState { session_id, cursor, tenant_permit: permit };
        let cursor_id: u64 = self.cursors.insert_with_permit(session_id, cursor, permit);
        proof {
            assert forall|d: Seq<char>, n: nat| #[trigger]
                old(self).accounts_for(d, n) && (d == database@ ==> n > 0) implies self.accounts_for(
                d,
                if d == database@ {
                    (n - 1) as nat
                } else {
                    n
                },
            ) by {
                lemma_users_insert(before, cursor_id, state, d);
            }
        }
        Ok(cursor_id)
    }

    /// Takes a cursor of a session out, so that rows can be fetched from it.
    pub fn take(&mut self, session_id: u64, cursor_id: u64) -> (r: Result<CursorState<C>, String>)
        requires
            old(self).well_formed(),
        ensures
            final(self).well_formed(),
            final(self).quota == old(self).quota,
            final(self).cursors.last_id() == old(self).cursors.last_id(),
            match cursor_refusal(old(self).cursors@, session_id, cursor_id) {
                Some(e) => r is Err && r->Err_0@ == e && final(self).cursors@ == old(self).cursors@,
                None => r == Ok::<CursorState<C>, String>(old(self).cursors@[cursor_id])
                    && final(self).cursors@ == old(self).cursors@.remove(cursor_id),
            },
            forall|d: Seq<char>, n: nat| #[trigger]
                old(self).accounts_for(d, n) ==> final(self).accounts_for(
                    d,
                    n + (if r is Ok {
                        share(r->Ok_0, d)
                    } else {
                        0
                    }),
                ),
    {
        let ghost before = self.cursors@;
        proof {
            self.cursors.lemma_entries();
            lemma_as_map_finite(self.cursors.entries());
        }
        let r = self.cursors.take(session_id, cursor_id);
        proof {
            if r is Ok {
                assert forall|d: Seq<char>, n: nat| #[trigger]
                    old(self).accounts_for(d, n) implies self.accounts_for(
                    d,
                    n + share(r->Ok_0, d),
                ) by {
                    lemma_users_remove(before, cursor_id, d);
                }
            }
        }
        r
    }

    /// Puts a cursor back that rows were fetched from. One that has no more rows stays out, and
    /// its place in the quota is given back.
    fn put_back(&mut self, cursor_id: u64, state: CursorState<C>, has_more: bool)
        requires
            old(self).well_formed(),
            cursor_id <= old(self).cursors.last_id(),
            !old(self).cursors@.dom().contains(cursor_id),
        ensures
            final(self).well_formed(),
            final(self).quota.limits() == old(self).quota.limits(),
            final(self).cursors.last_id() == old(self).cursors.last_id(),
            final(self).cursors@ == (if has_more {
                old(self).cursors@.insert(cursor_id, state)
            } else {
                old(self).cursors@
            }),
            forall|d: Seq<char>| #[trigger]
                final(self).quota.active(d) == (if has_more {
                    old(self).quota.active(d)
                } else {
                    less(old(self).quota.active(d), share(state, d))
                }),
            forall|d: Seq<char>, n: nat| #[trigger]
                old(self).accounts_for(d, n) && n >= share(state, d) ==> final(self).accounts_for(
                    d,
                    (n - share(state, d)) as nat,
                ),
    {
        let ghost before = self.cursors@;
        proof {
            self.cursors.lemma_entries();
            lemma_as_map_finite(self.cursors.entries());
        }
        if let Some(database) = self.cursors.fetched(cursor_id, state, has_more) {
            self.quota.release_query(database.as_str());
        }
        proof {
            assert forall|d: Seq<char>, n: nat| #[trigger]
                old(self).accounts_for(d, n) && n >= share(state, d) implies self.accounts_for(
                d,
                (n - share(state, d)) as nat,
            ) by {
                lemma_users_insert(before, cursor_id, state, d);
            }
        }
    }

    /// Tells the first page of a result, of which the rows are given in their encoded form.
    pub fn started(
        &mut self,
        cursor_id: u64,
        state: CursorState<C>,
        total_rows: Option<usize>,
        page: PageText,
    ) -> (r: String)
        requires
            old(self).well_formed(),
            cursor_id <= old(self).cursors.last_id(),
            !old(self).cursors@.dom().contains(cursor_id),
        ensures
            r@ == result_start(
                cursor_id as nat,
                known(total_rows),
                page.count as nat,
                page.has_more,
                page.rows@,
            ),
            final(self).well_formed(),
            final(self).quota.limits() == old(self).quota.limits(),
            final(self).cursors.last_id() == old(self).cursors.last_id(),
            final(self).cursors@ == (if page.has_more {
                old(self).cursors@.insert(cursor_id, state)
            } else {
                old(self).cursors@
            }),
            forall|d: Seq<char>| #[trigger]
                final(self).quota.active(d) == (if page.has_more {
                    old(self).quota.active(d)
                } else {
                    less(old(self).quota.active(d), share(state, d))
                }),
            forall|d: Seq<char>, n: nat| #[trigger]
                old(self).accounts_for(d, n) && n >= share(state, d) ==> final(self).accounts_for(
                    d,
                    (n - share(state, d)) as nat,
                ),
    {
        self.put_back(cursor_id, state, page.has_more);
        format_result_start(cursor_id, total_rows, page.count, page.has_more, page.rows.as_str())
    }

    /// Tells a further page of a result, of which the rows are given in their encoded form.
    pub fn paged(&mut self, cursor_id: u64, state: CursorState<C>, page: PageText) -> (r: String)
        requires
            old(self).well_formed(),
            cursor_id <= old(self).cursors.last_id(),
            !old(self).cursors@.dom().contains(cursor_id),
        ensures
            r@ == result_page(cursor_id as nat, page.count as nat, page.has_more, page.rows@),
            final(self).well_formed(),
            final(self).quota.limits() == old(self).quota.limits(),
            final(self).cursors.last_id() == old(self).cursors.last_id(),
            final(self).cursors@ == (if page.has_more {
                old(self).cursors@.insert(cursor_id, state)
            } else {
                old(self).cursors@
            }),
            forall|d: Seq<char>| #[trigger]
                final(self).quota.active(d) == (if page.has_more {
                    old(self).quota.active(d)
                } else {
                    less(old(self).quota.active(d), share(state, d))
                }),
            forall|d: Seq<char>, n: nat| #[trigger]
                old(self).accounts_for(d, n) && n >= share(state, d) ==> final(self).accounts_for(
                    d,
                    (n - share(state, d)) as nat,
                ),
    {
        self.put_back(cursor_id, state, page.has_more);
        format_result_page(cursor_id, page.count, page.has_more, page.rows.as_str())
    }

    /// Closes a cursor of a session, and gives its place in the quota back.
    pub fn close(&mut self, session_id: u64, cursor_id: u64) -> (r: Result<String, String>)
        requires
            old(self).well_formed(),
        ensures
            final(self).well_formed(),
            final(self).quota.limits() == old(self).quota.limits(),
            final(self).cursors.last_id() == old(self).cursors.last_id(),
            if !old(self).cursors@.dom().contains(cursor_id) {
                r is Ok && r->Ok_0@ == closed_text(cursor_id as nat) && final(self).cursors@
                    == old(self).cursors@ && forall|d: Seq<char>| #[trigger]
                    final(self).quota.active(d) == old(self).quota.active(d)
            } else {
                match cursor_refusal(old(self).cursors@, session_id, cursor_id) {
                    Some(e) => r is Err && r->Err_0@ == e && final(self).cursors@
                        == old(self).cursors@ && forall|d: Seq<char>| #[trigger]
                        final(self).quota.active(d) == old(self).quota.active(d),
                    None => r is Ok && r->Ok_0@ == closed_text(cursor_id as nat)
                        && final(self).cursors@ == old(self).cursors@.remove(cursor_id)
                        && forall|d: Seq<char>|
                        #[trigger]
                        final(self).quota.active(d) == less(
                            old(self).quota.active(d),
                            share(old(self).cursors@[cursor_id], d),
                        ),
                }
            },
            forall|d: Seq<char>, n: nat| #[trigger]
                old(self).accounts_for(d, n) ==> final(self).accounts_for(d, n),
    {
        let ghost before = self.cursors@;
        proof {
            self.cursors.lemma_entries();
            lemma_as_map_finite(self.cursors.entries());
        }
        match self.cursors.close(session_id, cursor_id) {
            Err(e) => Err(e),
            Ok(permit) => {
                if let Some(database) = permit {
                    self.quota.release_query(database.as_str());
                }
                proof {
                    assert forall|d: Seq<char>, n: nat| #[trigger]
                        old(self).accounts_for(d, n) implies self.accounts_for(d, n) by {
                        if before.dom().contains(cursor_id) {
                            lemma_users_remove(before, cursor_id, d);
                        }
                    }
                }
                Ok(cat("OK\tCURSOR_CLOSED\t", show(cursor_id as u128).as_str()))
            },
        }
    }

    /// Closes the cursors of a session, and gives their places in the quota back.
    pub fn close_session(&mut self, session_id: u64)
        requires
            old(self).well_formed(),
        ensures
            final(self).well_formed(),
            final(self).quota.limits() == old(self).quota.limits(),
            final(self).cursors.last_id() == old(self).cursors.last_id(),
            final(self).cursors@ == without_session(old(self).cursors@, session_id),
            forall|d: Seq<char>| #[trigger]
                final(self).quota.active(d) == less(
                    old(self).quota.active(d),
                    shares(owned_by(old(self).cursors.entries(), session_id), d),
                ),
            forall|d: Seq<char>, n: nat| #[trigger]
                old(self).accounts_for(d, n) ==> final(self).accounts_for(d, n),
    {
        let ghost entries = self.cursors.entries();
        let ghost before = self.cursors@;
        proof {
            self.cursors.lemma_entries();
        }
        let closed = self.cursors.close_session(session_id);
        let ghost after = self.cursors;
        let mut i: usize = 0;
        assert(closed@.take(0) =~= Seq::<(u64, CursorState<C>)>::empty());
        while i < closed.len()
            invariant
                i <= closed@.len(),
                self.well_formed(),
                self.cursors == after,
                self.quota.limits() == old(self).quota.limits(),
                forall|d: Seq<char>| #[trigger]
                    self.quota.active(d) == less(
                        old(self).quota.active(d),
                        shares(closed@.take(i as int), d),
                    ),
            decreases closed.len() - i,
        {
            proof {
                assert forall|d: Seq<char>| #[trigger] shares(closed@.take(i + 1), d) == shares(
                    closed@.take(i as int),
                    d,
                ) + share(closed@[i as int].1, d) by {
                    assert(closed@.take(i + 1).drop_last() =~= closed@.take(i as int));
                }
            }
            if let Some(database) = &closed[i].1.tenant_permit {
                self.quota.release_query(database.as_str());
            }
            i = i + 1;
        }
        assert(closed@.take(closed@.len() as int) =~= closed@);
        proof {
            lemma_not_owned(entries, session_id);
            assert forall|d: Seq<char>, n: nat| #[trigger]
                old(self).accounts_for(d, n) implies self.accounts_for(d, n) by {
                lemma_users_are_shares(entries, d);
                lemma_users_are_shares(not_owned_by(entries, session_id), d);
                lemma_shares_split(entries, session_id, d);
            }
        }
    }
}

/// A page of rows: how many, whether there are more, and the rows in their encoded form.
pub struct PageText {
    pub count: usize,
    pub has_more: bool,
    pub rows: String,
}

/// Why a query may not give that many rows.
pub open spec fn too_many(quota: TenantQuota, database: Seq<char>, total: Option<usize>) -> Option<
    Seq<char>,
> {
    match total {
        None => None,
        Some(rows) => rows_refusal(quota.limits(), database, rows as nat),
    }
}

} // verus!
