//! Queries that sessions have prepared, and batches of writes that wait for the decision on
//! their transaction.

use vstd::prelude::*;

use crate::cypher::{is_schema, is_schema_cypher, is_write, is_write_cypher};
use crate::native::{escape_payload, payload_text};
use crate::peers::lemma_clean_number;
use crate::table::{
    as_map, ascending, lemma_as_map, lemma_seen, lemma_seen_empty, lemma_seen_insert,
    lemma_seen_remove, lemma_sorted, owned_by, seen_entries, seen_map, sorted, without_session,
    Owned, Table,
};
use crate::text::{
    blank, cat, cat3, dec, dec_is_digits, is_digit, is_white, join, join_with,
    lemma_split_once_at_char, lemma_views_push, lines, lines_of, number, number_reads_dec,
    read_u64, same, show, split_first, split_once, terminated, terminated_lines_read_back, trim,
    trim_end, trim_start, views,
};
use crate::transactions::{context_text, format_transaction_plan_context, TransactionPlanContext};

verus! {

/// A prepared query with the session that it belongs to.
pub struct PreparedQueryState {
    pub session_id: u64,
    pub query: String,
}

impl Owned for PreparedQueryState {
    open spec fn owner_id(&self) -> u64 {
        self.session_id
    }

    fn owner(&self) -> (r: u64) {
        self.session_id
    }
}

/// The contents of a prepared query.
pub struct PreparedQuery {
    pub session_id: u64,
    pub query: Seq<char>,
}

impl PreparedQueryState {
    pub open spec fn view(&self) -> PreparedQuery {
        PreparedQuery { session_id: self.session_id, query: self.query@ }
    }
}

/// What a prepared query holds, as a function.
pub open spec fn query_view() -> spec_fn(PreparedQueryState) -> PreparedQuery {
    |s: PreparedQueryState| s@
}

/// The query that a session has under a number, or why it has none.
pub open spec fn query_of(m: Map<u64, PreparedQuery>, session_id: u64, prepared_id: u64) -> Result<
    Seq<char>,
    Seq<char>,
> {
    if !m.dom().contains(prepared_id) {
        Err("unknown prepared query: "@ + dec(prepared_id as nat))
    } else if m[prepared_id].session_id != session_id {
        Err("prepared query "@ + dec(prepared_id as nat) + " belongs to another session"@)
    } else {
        Ok(m[prepared_id].query)
    }
}

/// The queries of a session, by their numbers.
pub open spec fn session_queries(list: Seq<(u64, PreparedQuery)>, session_id: u64) -> Seq<
    (u64, Seq<char>),
>
    decreases list.len(),
{
    if list.len() == 0 {
        Seq::empty()
    } else if list.last().1.session_id == session_id {
        session_queries(list.drop_last(), session_id).push((list.last().0, list.last().1.query))
    } else {
        session_queries(list.drop_last(), session_id)
    }
}

/// What is left when a session has gone.
pub open spec fn queries_closed(m: Map<u64, PreparedQuery>, session_id: u64) -> Map<
    u64,
    PreparedQuery,
> {
    Map::new(|k: u64| m.dom().contains(k) && m[k].session_id != session_id, |k: u64| m[k])
}

/// What is told of a prepared query.
pub struct PreparedQueryInfo {
    pub prepared_id: u64,
    pub query: String,
}

/// The contents of what is told of prepared queries.
pub open spec fn query_infos(s: Seq<PreparedQueryInfo>) -> Seq<(u64, Seq<char>)> {
    s.map_values(|i: PreparedQueryInfo| (i.prepared_id, i.query@))
}

/// The prepared queries.
pub struct PreparedQueryStore {
    next_id: u64,
    queries: Table<PreparedQueryState>,
}

impl PreparedQueryStore {
    pub closed spec fn view(&self) -> Map<u64, PreparedQuery> {
        seen_map(self.queries@, query_view())
    }

    /// The number that was given to a query last.
    pub closed spec fn last_id(&self) -> u64 {
        self.next_id
    }

    /// Each query has a number that was given out.
    pub closed spec fn well_formed(&self) -> bool {
        self.queries.well_formed() && forall|k: u64| #[trigger]
            self.queries@.dom().contains(k) ==> k <= self.next_id
    }

    pub fn new() -> (r: Self)
        ensures
            r.well_formed(),
            r@ == Map::<u64, PreparedQuery>::empty(),
            r.last_id() == 0,
    {
        proof {
            lemma_seen_empty(query_view());
        }
        PreparedQueryStore { next_id: 0, queries: Table::new() }
    }

    /// Keeps a query, under a number that none had before.
    pub fn prepare(&mut self, session_id: u64, query: String) -> (r: u64)
        requires
            old(self).well_formed(),
            old(self).last_id() < u64::MAX,
        ensures
            final(self).well_formed(),
            r == old(self).last_id() + 1,
            final(self).last_id() == r,
            !old(self)@.dom().contains(r),
            final(self)@ == old(self)@.insert(r, (PreparedQuery { session_id, query: query@ })),
    {
        let prepared_id: u64 = self.next_id + 1;
        let state = PreparedQueryState { session_id, query };
        proof {
            lemma_seen_insert(self.queries@, query_view(), prepared_id, state);
        }
        self.next_id = prepared_id;
        self.queries.insert(prepared_id, state);
        prepared_id
    }

    /// The query that a session has under a number.
    pub fn get(&self, session_id: u64, prepared_id: u64) -> (r: Result<String, String>)
        requires
            self.well_formed(),
        ensures
            match r {
                Ok(q) => query_of(self@, session_id, prepared_id) == Ok::<Seq<char>, Seq<char>>(q@),
                Err(e) => query_of(self@, session_id, prepared_id) == Err::<Seq<char>, Seq<char>>(
                    e@,
                ),
            },
    {
        match self.queries.get(prepared_id) {
            None => Err(cat("unknown prepared query: ", show(prepared_id as u128).as_str())),
            Some(state) => if state.session_id == session_id {
                Ok(state.query.as_str().to_owned())
            } else {
                Err(
                    cat3(
                        "prepared query ",
                        show(prepared_id as u128).as_str(),
                        " belongs to another session",
                    ),
                )
            },
        }
    }

    /// Forgets a query.
    pub fn close(&mut self, session_id: u64, prepared_id: u64) -> (r: Result<(), String>)
        requires
            old(self).well_formed(),
        ensures
            final(self).well_formed(),
            final(self).last_id() == old(self).last_id(),
            match query_of(old(self)@, session_id, prepared_id) {
                Ok(_) => r is Ok && final(self)@ == old(self)@.remove(prepared_id),
                Err(e) => r is Err && r->Err_0@ == e && final(self)@ == old(self)@,
            },
    {
        match self.get(session_id, prepared_id) {
            Err(e) => Err(e),
            Ok(_) => {
                proof {
                    lemma_seen_remove(self.queries@, query_view(), prepared_id);
                }
                let _ = self.queries.remove(prepared_id);
                Ok(())
            },
        }
    }

    /// Tells of the queries of a session, in the order of their numbers.
    pub fn list(&self, session_id: u64) -> (r: Vec<PreparedQueryInfo>)
        requires
            self.well_formed(),
        ensures
            query_infos(r@) == session_queries(sorted(self@), session_id),
    {
        let mut r: Vec<PreparedQueryInfo> = Vec::new();
        let mut i: usize = 0;
        let ghost all = seen_entries(self.queries.entries(), query_view());
        proof {
            lemma_seen(self.queries.entries(), query_view());
        }
        assert(query_infos(r@) =~= session_queries(all.take(0), session_id));
        while i < self.queries.len()
            invariant
                0 <= i <= self.queries.entries().len(),
                all == seen_entries(self.queries.entries(), query_view()),
                query_infos(r@) == session_queries(all.take(i as int), session_id),
            decreases self.queries.entries().len() - i,
        {
            assert(all.take(i + 1).drop_last() =~= all.take(i as int));
            assert(all.take(i + 1).last() == all[i as int]);
            let state = self.queries.value_at(i);
            if state.session_id == session_id {
                let ghost before = r@;
                let info = PreparedQueryInfo {
                    prepared_id: self.queries.key_at(i),
                    query: state.query.as_str().to_owned(),
                };
                r.push(info);
                assert(query_infos(r@) =~= query_infos(before).push(
                    (info.prepared_id, info.query@),
                ));
            }
            i = i + 1;
        }
        assert(all.take(all.len() as int) =~= all);
        r
    }

    /// Forgets the queries of a session, and tells how many there were.
    pub fn close_session(&mut self, session_id: u64) -> (r: usize)
        requires
            old(self).well_formed(),
        ensures
            final(self).well_formed(),
            final(self).last_id() == old(self).last_id(),
            final(self)@ == queries_closed(old(self)@, session_id),
            r == session_queries(sorted(old(self)@), session_id).len(),
    {
        let ghost before = self.queries@;
        let ghost entries = self.queries.entries();
        let removed = self.queries.remove_session(session_id);
        proof {
            lemma_seen(entries, query_view());
            lemma_query_count(entries, session_id);
            assert(seen_map(without_session(before, session_id), query_view()) =~= queries_closed(
                seen_map(before, query_view()),
                session_id,
            ));
        }
        removed.len()
    }
}

proof fn lemma_query_count(entries: Seq<(u64, PreparedQueryState)>, session_id: u64)
    ensures
        owned_by(entries, session_id).len() == session_queries(
            seen_entries(entries, query_view()),
            session_id,
        ).len(),
    decreases entries.len(),
{
    if entries.len() > 0 {
        lemma_query_count(entries.drop_last(), session_id);
        assert(seen_entries(entries, query_view()).drop_last() =~= seen_entries(
            entries.drop_last(),
            query_view(),
        ));
    }
}

/// No session reaches a query of another, and the end of a session leaves the queries of the
/// others.
pub proof fn prepared_queries_belong_to_their_session(
    m: Map<u64, PreparedQuery>,
    session_id: u64,
    prepared_id: u64,
)
    requires
        m.dom().contains(prepared_id),
        m[prepared_id].session_id != session_id,
    ensures
        query_of(m, session_id, prepared_id) is Err,
        query_of(
            queries_closed(m, session_id),
            m[prepared_id].session_id,
            prepared_id,
        ) == Ok::<Seq<char>, Seq<char>>(m[prepared_id].query),
{
}

/// The entries of a list of prepared queries.
pub open spec fn listed_queries(infos: Seq<(u64, Seq<char>)>) -> Seq<Seq<char>> {
    infos.map_values(|i: (u64, Seq<char>)| dec(i.0 as nat) + ":"@ + payload_text(i.1))
}

/// Writes a list of prepared queries.
pub fn format_prepared_query_list(infos: &[PreparedQueryInfo]) -> (r: String)
    ensures
        r@ == "OK\tPREPARED_QUERY_LIST\t"@ + dec(infos@.len()) + "\t"@ + join(
            listed_queries(query_infos(infos@)),
            ","@,
        ),
{
    let mut parts: Vec<String> = Vec::new();
    let mut i: usize = 0;
    let ghost all = listed_queries(query_infos(infos@));
    assert(views(parts@) =~= all.take(0));
    while i < infos.len()
        invariant
            0 <= i <= infos@.len(),
            all == listed_queries(query_infos(infos@)),
            views(parts@) == all.take(i as int),
        decreases infos@.len() - i,
    {
        let mut part = show(infos[i].prepared_id as u128);
        part.append(":");
        part.append(escape_payload(infos[i].query.as_str()).as_str());
        assert(all[i as int] == part@);
        proof {
            lemma_views_push(parts@, part);
        }
        parts.push(part);
        assert(all.take(i + 1) =~= all.take(i as int).push(part@));
        i = i + 1;
    }
    assert(all.take(all.len() as int) =~= all);
    let mut r = "OK\tPREPARED_QUERY_LIST\t".to_owned();
    r.append(show(infos.len() as u128).as_str());
    r.append("\t");
    r.append(join_with(parts.as_slice(), ",").as_str());
    r
}

/// Where a prepared query goes, in words.
pub open spec fn route_text(prepared_id: nat, routing: Seq<char>) -> Seq<char> {
    "OK\tPREPARED_QUERY_ROUTE\t"@ + dec(prepared_id) + "\t"@ + routing
}

/// Writes where a prepared query goes.
pub fn format_prepared_query_route(prepared_id: u64, routing: &str) -> (r: String)
    ensures
        r@ == route_text(prepared_id as nat, routing@),
{
    let mut r = "OK\tPREPARED_QUERY_ROUTE\t".to_owned();
    r.append(show(prepared_id as u128).as_str());
    r.append("\t");
    r.append(routing);
    r
}

/// Where a prepared query of a transaction goes, in words.
pub open spec fn tx_route_text(
    tx_id: nat,
    prepared_id: nat,
    routing: Seq<char>,
    context: TransactionPlanContext,
) -> Seq<char> {
    "OK\tTX_PREPARED_QUERY_ROUTE\t"@ + dec(tx_id) + "\t"@ + dec(prepared_id) + "\t"@ + routing
        + "\t"@ + context_text(context)
}

/// Writes where a prepared query of a transaction goes.
pub fn format_tx_prepared_query_route(
    tx_id: u64,
    prepared_id: u64,
    routing: &str,
    context: &TransactionPlanContext,
) -> (r: String)
    ensures
        r@ == tx_route_text(tx_id as nat, prepared_id as nat, routing@, *context),
{
    let mut r = "OK\tTX_PREPARED_QUERY_ROUTE\t".to_owned();
    r.append(show(tx_id as u128).as_str());
    r.append("\t");
    r.append(show(prepared_id as u128).as_str());
    r.append("\t");
    r.append(routing);
    r.append("\t");
    r.append(format_transaction_plan_context(context).as_str());
    r
}

/// What a query does, in a word.
pub open spec fn query_kind(query: Seq<char>) -> Seq<char> {
    if is_schema(query) {
        "SCHEMA"@
    } else if is_write(query) {
        "WRITE"@
    } else {
        "READ"@
    }
}

/// Tells what a query does.
pub fn format_prepared_query_kind(query: &str) -> (r: &'static str)
    ensures
        r@ == query_kind(query@),
{
    if is_schema_cypher(query) {
        "SCHEMA"
    } else if is_write_cypher(query) {
        "WRITE"
    } else {
        "READ"
    }
}

/// The description of a prepared query.
pub open spec fn description(
    prepared_id: nat,
    query: Seq<char>,
    routing: Seq<char>,
    params: Seq<Seq<char>>,
) -> Seq<char> {
    "OK\tPREPARED_QUERY_DESC\t"@ + dec(prepared_id) + "\t"@ + query_kind(query) + "\t"@ + routing
        + "\t"@ + dec(params.len()) + "\t"@ + join(params, ","@)
}

/// Describes a prepared query.
pub fn format_prepared_query_describe(
    prepared_id: u64,
    query: &str,
    routing: &str,
    params: &[String],
) -> (r: String)
    ensures
        r@ == description(prepared_id as nat, query@, routing@, views(params@)),
{
    let mut r = "OK\tPREPARED_QUERY_DESC\t".to_owned();
    r.append(show(prepared_id as u128).as_str());
    r.append("\t");
    r.append(format_prepared_query_kind(query));
    r.append("\t");
    r.append(routing);
    r.append("\t");
    r.append(show(params.len() as u128).as_str());
    r.append("\t");
    r.append(join_with(params, ",").as_str());
    r
}

/// A batch of writes to a shard, in its encoded form, with the number of its writes.
pub struct PreparedWriteBatch {
    pub shard_id: u64,
    pub payload: String,
    pub write_count: usize,
}

/// The contents of a batch of writes.
pub struct Batch {
    pub shard_id: u64,
    pub payload: Seq<char>,
    pub write_count: usize,
}

impl PreparedWriteBatch {
    pub open spec fn view(&self) -> Batch {
        Batch { shard_id: self.shard_id, payload: self.payload@, write_count: self.write_count }
    }
}

/// What a batch holds, as a function.
pub open spec fn batch_view() -> spec_fn(PreparedWriteBatch) -> Batch {
    |b: PreparedWriteBatch| b@
}

/// What is told of a prepared batch.
#[derive(Clone, Copy)]
pub struct PreparedTransactionInfo {
    pub prepared_id: u64,
    pub shard_id: u64,
    pub write_count: usize,
}

/// What is told of a prepared batch.
pub open spec fn batch_info(prepared_id: u64, b: Batch) -> PreparedTransactionInfo {
    PreparedTransactionInfo { prepared_id, shard_id: b.shard_id, write_count: b.write_count }
}

/// What is told of all prepared batches.
pub open spec fn batch_infos(list: Seq<(u64, Batch)>) -> Seq<PreparedTransactionInfo> {
    list.map_values(|e: (u64, Batch)| batch_info(e.0, e.1))
}

/// How it is told that there is no such batch.
pub open spec fn unknown_batch(prepared_id: u64) -> Seq<char> {
    "unknown prepared transaction: "@ + dec(prepared_id as nat)
}

fn show_unknown_batch(prepared_id: u64) -> (r: String)
    ensures
        r@ == unknown_batch(prepared_id),
{
    cat("unknown prepared transaction: ", show(prepared_id as u128).as_str())
}

/// A record of the file of prepared batches.
pub open spec fn batch_line(e: (u64, Batch)) -> Seq<char> {
    dec(e.0 as nat) + "\t"@ + (dec(e.1.shard_id as nat) + "\t"@ + e.1.payload)
}

/// The lines of the file of prepared batches.
pub open spec fn batch_file(list: Seq<(u64, Batch)>) -> Seq<Seq<char>> {
    seq!["N4RPTX1"@] + list.map_values(|e: (u64, Batch)| batch_line(e))
}

/// The numbers and the encoded writes of a record, or what is wrong with it.
pub open spec fn batch_recorded(line: Seq<char>) -> Result<(u64, u64, Seq<char>), Seq<char>> {
    let id = match split_once(line, "\t"@) {
        None => line,
        Some((a, _)) => a,
    };
    match number(id, u64::MAX as nat) {
        None => Err("invalid prepared transaction id"@),
        Some(n) => match split_once(line, "\t"@) {
            None => Err("missing prepared transaction shard id"@),
            Some((_, rest)) => {
                let shard = match split_once(rest, "\t"@) {
                    None => rest,
                    Some((a, _)) => a,
                };
                match number(shard, u64::MAX as nat) {
                    None => Err("invalid prepared transaction shard id"@),
                    Some(s) => match split_once(rest, "\t"@) {
                        None => Err("missing prepared transaction writes"@),
                        Some((_, payload)) => Ok((n as u64, s as u64, payload)),
                    },
                }
            },
        },
    }
}

/// A record of the file of prepared batches.
pub struct PreparedRecord {
    pub prepared_id: u64,
    pub shard_id: u64,
    pub payload: String,
}

/// Reads a record of the file of prepared batches.
pub fn decode_prepared_transaction_record(line: &str) -> (r: Result<PreparedRecord, String>)
    ensures
        match r {
            Ok(p) => batch_recorded(line@) == Ok::<(u64, u64, Seq<char>), Seq<char>>(
                (p.prepared_id, p.shard_id, p.payload@),
            ),
            Err(e) => batch_recorded(line@) == Err::<(u64, u64, Seq<char>), Seq<char>>(e@),
        },
{
    let (id, rest) = match split_first(line, "\t") {
        None => (line.to_owned(), None),
        Some((a, b)) => (a, Some(b)),
    };
    let prepared_id: u64 = match read_u64(id.as_str()) {
        None => return Err("invalid prepared transaction id".to_owned()),
        Some(n) => n,
    };
    let rest = match rest {
        None => return Err("missing prepared transaction shard id".to_owned()),
        Some(t) => t,
    };
    let (shard, payload) = match split_first(rest.as_str(), "\t") {
        None => (rest, None),
        Some((a, b)) => (a, Some(b)),
    };
    let shard_id: u64 = match read_u64(shard.as_str()) {
        None => return Err("invalid prepared transaction shard id".to_owned()),
        Some(n) => n,
    };
    match payload {
        None => Err("missing prepared transaction writes".to_owned()),
        Some(payload) => Ok(PreparedRecord { prepared_id, shard_id, payload }),
    }
}

/// Writes a record of the file of prepared batches.
pub fn encode_prepared_transaction_record(prepared_id: u64, batch: &PreparedWriteBatch) -> (r:
    String)
    ensures
        r@ == batch_line((prepared_id, batch@)),
{
    let mut tail = show(batch.shard_id as u128);
    tail.append("\t");
    tail.append(batch.payload.as_str());
    let mut r = show(prepared_id as u128);
    r.append("\t");
    r.append(tail.as_str());
    r
}

/// The contents of what decoding the writes of a record said.
pub open spec fn counted(v: Result<usize, String>) -> Result<usize, Seq<char>> {
    match v {
        Ok(n) => Ok(n),
        Err(e) => Err(e@),
    }
}

/// The batches after the records from the `i`-th line on. The verdicts are what decoding the
/// writes of each line says: how many they are, or what is wrong with them.
pub open spec fn batches_recorded(
    file: Seq<Seq<char>>,
    verdicts: Seq<Result<usize, String>>,
    i: int,
    known: Map<u64, Batch>,
) -> Result<Map<u64, Batch>, Seq<char>>
    decreases file.len() - i,
{
    if i < 0 || i >= file.len() {
        Ok(known)
    } else if trim(file[i]).len() == 0 {
        batches_recorded(file, verdicts, i + 1, known)
    } else {
        match batch_recorded(file[i]) {
            Err(e) => Err(e),
            Ok((id, shard_id, payload)) => match counted(verdicts[i]) {
                Err(e) => Err(e),
                Ok(write_count) => batches_recorded(
                    file,
                    verdicts,
                    i + 1,
                    known.insert(id, Batch { shard_id, payload, write_count }),
                ),
            },
        }
    }
}

/// The batches that a file holds, or what is wrong with it.
pub open spec fn batches_in_file(text: Seq<char>, verdicts: Seq<Result<usize, String>>) -> Result<
    Map<u64, Batch>,
    Seq<char>,
> {
    let file = lines(text);
    if file.len() == 0 {
        Err("missing prepared transaction header"@)
    } else if file[0] != "N4RPTX1"@ {
        Err("invalid prepared transaction header"@)
    } else {
        batches_recorded(file, verdicts, 1, Map::empty())
    }
}

/// The batches that wait for the decision on their transaction.
pub struct PreparedTransactionStore {
    next_id: u64,
    prepared: Table<PreparedWriteBatch>,
}

impl PreparedTransactionStore {
    pub closed spec fn view(&self) -> Map<u64, Batch> {
        seen_map(self.prepared@, batch_view())
    }

    /// The number that was given to a batch last.
    pub closed spec fn last_id(&self) -> u64 {
        self.next_id
    }

    /// Each batch has a number that was given out.
    pub closed spec fn well_formed(&self) -> bool {
        self.prepared.well_formed() && forall|k: u64| #[trigger]
            self.prepared@.dom().contains(k) ==> k <= self.next_id
    }

    pub fn new() -> (r: Self)
        ensures
            r.well_formed(),
            r@ == Map::<u64, Batch>::empty(),
            r.last_id() == 0,
    {
        proof {
            lemma_seen_empty(batch_view());
        }
        PreparedTransactionStore { next_id: 0, prepared: Table::new() }
    }

    /// Keeps a batch, under a number that none had before.
    pub fn prepare(&mut self, batch: PreparedWriteBatch) -> (r: u64)
        requires
            old(self).well_formed(),
            old(self).last_id() < u64::MAX,
        ensures
            final(self).well_formed(),
            r == old(self).last_id() + 1,
            final(self).last_id() == r,
            !old(self)@.dom().contains(r),
            final(self)@ == old(self)@.insert(r, batch@),
    {
        let prepared_id: u64 = self.next_id + 1;
        proof {
            lemma_seen_insert(self.prepared@, batch_view(), prepared_id, batch);
        }
        self.next_id = prepared_id;
        self.prepared.insert(prepared_id, batch);
        prepared_id
    }

    /// Takes a batch out.
    pub fn take(&mut self, prepared_id: u64) -> (r: Result<PreparedWriteBatch, String>)
        requires
            old(self).well_formed(),
        ensures
            final(self).well_formed(),
            final(self).last_id() == old(self).last_id(),
            final(self)@ == old(self)@.remove(prepared_id),
            if old(self)@.dom().contains(prepared_id) {
                r is Ok && r->Ok_0@ == old(self)@[prepared_id]
            } else {
                r is Err && r->Err_0@ == unknown_batch(prepared_id)
            },
    {
        proof {
            lemma_seen_remove(self.prepared@, batch_view(), prepared_id);
        }
        match self.prepared.remove(prepared_id) {
            None => Err(show_unknown_batch(prepared_id)),
            Some(batch) => Ok(batch),
        }
    }

    /// Puts a batch back that was taken out, because the file could not be written.
    pub fn put_back(&mut self, prepared_id: u64, batch: PreparedWriteBatch)
        requires
            old(self).well_formed(),
            prepared_id <= old(self).last_id(),
        ensures
            final(self).well_formed(),
            final(self).last_id() == old(self).last_id(),
            final(self)@ == old(self)@.insert(prepared_id, batch@),
    {
        proof {
            lemma_seen_insert(self.prepared@, batch_view(), prepared_id, batch);
        }
        self.prepared.insert(prepared_id, batch);
    }

    /// Tells of a batch.
    pub fn status(&self, prepared_id: u64) -> (r: Result<PreparedTransactionInfo, String>)
        requires
            self.well_formed(),
        ensures
            if self@.dom().contains(prepared_id) {
                r == Ok::<PreparedTransactionInfo, String>(
                    batch_info(prepared_id, self@[prepared_id]),
                )
            } else {
                r is Err && r->Err_0@ == unknown_batch(prepared_id)
            },
    {
        match self.prepared.get(prepared_id) {
            None => Err(show_unknown_batch(prepared_id)),
            Some(batch) => Ok(
                PreparedTransactionInfo {
                    prepared_id,
                    shard_id: batch.shard_id,
                    write_count: batch.write_count,
                },
            ),
        }
    }

    /// Tells of all batches, in the order of their numbers.
    pub fn list(&self) -> (r: Vec<PreparedTransactionInfo>)
        requires
            self.well_formed(),
        ensures
            r@ == batch_infos(sorted(self@)),
    {
        let mut r: Vec<PreparedTransactionInfo> = Vec::new();
        let mut i: usize = 0;
        let ghost all = seen_entries(self.prepared.entries(), batch_view());
        proof {
            lemma_seen(self.prepared.entries(), batch_view());
        }
        assert(r@ =~= batch_infos(all).take(0));
        while i < self.prepared.len()
            invariant
                0 <= i <= self.prepared.entries().len(),
                all == seen_entries(self.prepared.entries(), batch_view()),
                r@ == batch_infos(all).take(i as int),
            decreases self.prepared.entries().len() - i,
        {
            let batch = self.prepared.value_at(i);
            let info = PreparedTransactionInfo {
                prepared_id: self.prepared.key_at(i),
                shard_id: batch.shard_id,
                write_count: batch.write_count,
            };
            assert(batch_infos(all)[i as int] == info);
            r.push(info);
            assert(batch_infos(all).take(i + 1) =~= batch_infos(all).take(i as int).push(info));
            i = i + 1;
        }
        assert(batch_infos(all).take(all.len() as int) =~= batch_infos(all));
        r
    }

    /// The file that keeps the store.
    pub fn encode(&self) -> (r: String)
        requires
            self.well_formed(),
        ensures
            r@ == terminated(batch_file(sorted(self@))),
    {
        let ghost list = seen_entries(self.prepared.entries(), batch_view());
        proof {
            lemma_seen(self.prepared.entries(), batch_view());
        }
        let ghost all = batch_file(list);
        let mut r = "N4RPTX1".to_owned();
        r.push('\n');
        let mut i: usize = 0;
        proof {
            assert(all.take(1) =~= seq!["N4RPTX1"@]);
            assert(all.take(1).drop_last() =~= Seq::<Seq<char>>::empty());
            reveal_with_fuel(terminated, 2);
            assert(r@ =~= terminated(all.take(1)));
        }
        while i < self.prepared.len()
            invariant
                0 <= i <= self.prepared.entries().len(),
                list == seen_entries(self.prepared.entries(), batch_view()),
                all == batch_file(list),
                r@ == terminated(all.take(i + 1)),
            decreases self.prepared.entries().len() - i,
        {
            let ghost before = r@;
            let ghost next = all.take(i + 2);
            assert(next.drop_last() =~= all.take(i + 1));
            assert(next.last() == batch_line(list[i as int]));
            r.append(
                encode_prepared_transaction_record(
                    self.prepared.key_at(i),
                    self.prepared.value_at(i),
                ).as_str(),
            );
            r.push('\n');
            assert(r@ =~= before + next.last() + seq!['\n']);
            i = i + 1;
        }
        assert(all.take(list.len() as int + 1) =~= all);
        r
    }

    /// Reads the file that keeps a store. The verdicts are what decoding the writes of each
    /// line says.
    pub fn decode(text: &str, verdicts: &[Result<usize, String>]) -> (r: Result<Self, String>)
        requires
            verdicts@.len() == lines(text@).len(),
        ensures
            match r {
                Ok(store) => store.well_formed() && batches_in_file(text@, verdicts@) == Ok::<
                    Map<u64, Batch>,
                    Seq<char>,
                >(store@) && is_greatest(store.last_id(), store@),
                Err(e) => batches_in_file(text@, verdicts@) == Err::<Map<u64, Batch>, Seq<char>>(
                    e@,
                ),
            },
    {
        let file = lines_of(text);
        let ghost all = lines(text@);
        assert(all.len() == file@.len());
        if file.len() == 0 {
            return Err("missing prepared transaction header".to_owned());
        }
        assert(all[0] == file@[0]@);
        if !same(file[0].as_str(), "N4RPTX1") {
            return Err("invalid prepared transaction header".to_owned());
        }
        let mut store = PreparedTransactionStore::new();
        let mut i: usize = 1;
        while i < file.len()
            invariant
                1 <= i <= file@.len(),
                all == views(file@),
                all == lines(text@),
                all[0] == "N4RPTX1"@,
                verdicts@.len() == file@.len(),
                store.well_formed(),
                is_greatest(store.last_id(), store@),
                batches_recorded(all, verdicts@, i as int, store@) == batches_recorded(
                    all,
                    verdicts@,
                    1,
                    Map::empty(),
                ),
            decreases file@.len() - i,
        {
            assert(all[i as int] == file@[i as int]@);
            let line = file[i].as_str();
            if !blank(line) {
                let record = match decode_prepared_transaction_record(line) {
                    Err(e) => return Err(e),
                    Ok(p) => p,
                };
                match &verdicts[i] {
                    Err(e) => return Err(e.as_str().to_owned()),
                    Ok(n) => {
                        let id: u64 = record.prepared_id;
                        let ghost before = store@;
                        if store.next_id < id {
                            store.next_id = id;
                        }
                        assert(store@ == before);
                        store.put_back(
                            id,
                            PreparedWriteBatch {
                                shard_id: record.shard_id,
                                payload: record.payload,
                                write_count: *n,
                            },
                        );
                        assert(store@.dom().contains(id));
                    },
                }
            }
            i = i + 1;
        }
        Ok(store)
    }
}

/// Whether a number is the greatest of a map, or zero where the map is empty.
pub open spec fn is_greatest(n: u64, m: Map<u64, Batch>) -> bool {
    (forall|k: u64| #[trigger] m.dom().contains(k) ==> k <= n) && (n == 0 || m.dom().contains(n))
}

pub proof fn lemma_not_blank(s: Seq<char>)
    requires
        s.len() > 0,
        !is_white(s[0]),
    ensures
        trim(s).len() > 0,
{
    assert(trim_start(s) == s);
    lemma_trim_end_keeps(s);
}

proof fn lemma_trim_end_keeps(s: Seq<char>)
    requires
        s.len() > 0,
        !is_white(s[0]),
    ensures
        trim_end(s).len() > 0,
    decreases s.len(),
{
    if s.len() > 1 && is_white(s.last()) {
        assert(s.drop_last()[0] == s[0]);
        lemma_trim_end_keeps(s.drop_last());
    }
}

proof fn lemma_batch_line_reads_back(e: (u64, Batch))
    requires
        !e.1.payload.contains('\n'),
        !e.1.payload.contains('\r'),
    ensures
        batch_recorded(batch_line(e)) == Ok::<(u64, u64, Seq<char>), Seq<char>>(
            (e.0, e.1.shard_id, e.1.payload),
        ),
        trim(batch_line(e)).len() > 0,
        batch_line(e).len() > 0,
        !batch_line(e).contains('\n'),
        batch_line(e).last() != '\r',
{
    let id = dec(e.0 as nat);
    let shard = dec(e.1.shard_id as nat);
    let rest = shard + "\t"@ + e.1.payload;
    let line = batch_line(e);
    lemma_clean_number(e.0 as nat);
    lemma_clean_number(e.1.shard_id as nat);
    dec_is_digits(e.0 as nat);
    number_reads_dec(e.0 as nat, u64::MAX as nat);
    number_reads_dec(e.1.shard_id as nat, u64::MAX as nat);
    reveal_strlit("\t");
    assert("\t"@ =~= seq!['\t']);
    lemma_split_once_at_char(id, rest, '\t');
    lemma_split_once_at_char(shard, e.1.payload, '\t');
    assert forall|i: int| 0 <= i < rest.len() implies rest[i] != '\n' && rest[i] != '\r' by {
        if i < shard.len() {
            assert(rest[i] == shard[i]);
        } else if i == shard.len() {
            assert(rest[i] == '\t');
        } else {
            assert(rest[i] == e.1.payload[i - shard.len() - 1]);
        }
    }
    assert forall|i: int| 0 <= i < line.len() implies line[i] != '\n' && line[i] != '\r' by {
        if i < id.len() {
            assert(line[i] == id[i]);
        } else if i == id.len() {
            assert(line[i] == '\t');
        } else {
            assert(line[i] == rest[i - id.len() - 1]);
        }
    }
    assert(line[0] == id[0]);
    assert(is_digit(id[0]));
    lemma_not_blank(line);
}

/// Whether the verdicts on the lines of a file are the numbers of writes of its batches.
pub open spec fn verdicts_match(list: Seq<(u64, Batch)>, verdicts: Seq<Result<usize, String>>) -> bool {
    verdicts.len() == list.len() + 1 && forall|i: int|
        0 <= i < list.len() ==> #[trigger] counted(verdicts[i + 1]) == Ok::<usize, Seq<char>>(
            list[i].1.write_count,
        )
}

proof fn lemma_batches_read_back(
    list: Seq<(u64, Batch)>,
    verdicts: Seq<Result<usize, String>>,
    i: int,
)
    requires
        0 <= i <= list.len(),
        verdicts_match(list, verdicts),
        forall|j: int|
            0 <= j < list.len() ==> !(#[trigger] list[j]).1.payload.contains('\n')
                && !list[j].1.payload.contains('\r'),
    ensures
        batches_recorded(batch_file(list), verdicts, i + 1, as_map(list.take(i))) == Ok::<
            Map<u64, Batch>,
            Seq<char>,
        >(as_map(list)),
    decreases list.len() - i,
{
    let file = batch_file(list);
    if i < list.len() {
        assert(file[i + 1] == batch_line(list[i]));
        lemma_batch_line_reads_back(list[i]);
        assert(counted(verdicts[i + 1]) == Ok::<usize, Seq<char>>(list[i].1.write_count));
        assert(list.take(i + 1).drop_last() =~= list.take(i));
        lemma_batches_read_back(list, verdicts, i + 1);
    } else {
        assert(list.take(i) =~= list);
    }
}

/// Batches that were written to their file are read back as they were, where their encoded
/// form holds no line feed and no carriage return and decodes to as many writes.
pub proof fn prepared_batches_survive_their_file(
    m: Map<u64, Batch>,
    list: Seq<(u64, Batch)>,
    verdicts: Seq<Result<usize, String>>,
)
    requires
        ascending(list),
        as_map(list) == m,
        verdicts_match(list, verdicts),
        forall|k: u64| #[trigger]
            m.dom().contains(k) ==> !m[k].payload.contains('\n') && !m[k].payload.contains('\r'),
    ensures
        batches_in_file(terminated(batch_file(sorted(m))), verdicts) == Ok::<
            Map<u64, Batch>,
            Seq<char>,
        >(m),
{
    lemma_sorted(list);
    lemma_as_map(list);
    let file = batch_file(list);
    reveal_strlit("N4RPTX1");
    assert("N4RPTX1"@.len() == 7);
    assert forall|i: int| 0 <= i < 7 implies "N4RPTX1"@[i] != '\n' && "N4RPTX1"@[i] != '\r' by {
        let s = "N4RPTX1"@;
        assert(s[0] == 'N' && s[1] == '4' && s[2] == 'R' && s[3] == 'P' && s[4] == 'T' && s[5]
            == 'X' && s[6] == '1');
    }
    assert forall|j: int| 0 <= j < list.len() implies !(#[trigger] list[j]).1.payload.contains('\n')
        && !list[j].1.payload.contains('\r') by {
        assert(m.dom().contains(list[j].0));
    }
    assert forall|i: int| 0 <= i < file.len() implies !(#[trigger] file[i]).contains('\n') && (
    file[i].len() == 0 || file[i].last() != '\r') by {
        if i > 0 {
            assert(file[i] == batch_line(list[i - 1]));
            lemma_batch_line_reads_back(list[i - 1]);
        } else {
            assert(file[0] == "N4RPTX1"@);
        }
    }
    terminated_lines_read_back(file);
    lemma_batches_read_back(list, verdicts, 0);
    assert(list.take(0) =~= Seq::<(u64, Batch)>::empty());
    assert(as_map(list.take(0)) =~= Map::empty());
}

/// The state of a prepared batch, in words.
pub open spec fn batch_status(info: PreparedTransactionInfo) -> Seq<char> {
    "OK\tTX_PREPARED_STATUS\t"@ + dec(info.prepared_id as nat) + "\t"@ + dec(info.shard_id as nat)
        + "\t"@ + dec(info.write_count as nat)
}

/// Writes the state of a prepared batch.
pub fn format_prepared_tx_status(info: &PreparedTransactionInfo) -> (r: String)
    ensures
        r@ == batch_status(*info),
{
    let mut r = "OK\tTX_PREPARED_STATUS\t".to_owned();
    r.append(show(info.prepared_id as u128).as_str());
    r.append("\t");
    r.append(show(info.shard_id as u128).as_str());
    r.append("\t");
    r.append(show(info.write_count as u128).as_str());
    r
}

/// A prepared batch in a list.
pub open spec fn listed_batch(info: PreparedTransactionInfo) -> Seq<char> {
    dec(info.prepared_id as nat) + ":"@ + dec(info.shard_id as nat) + ":"@ + dec(
        info.write_count as nat,
    )
}

/// The entries of a list of prepared batches.
pub open spec fn listed_batches(infos: Seq<PreparedTransactionInfo>) -> Seq<Seq<char>> {
    infos.map_values(|i: PreparedTransactionInfo| listed_batch(i))
}

/// Writes a list of prepared batches.
pub fn format_prepared_tx_list(infos: &[PreparedTransactionInfo]) -> (r: String)
    ensures
        r@ == "OK\tTX_PREPARED_LIST\t"@ + dec(infos@.len()) + "\t"@ + join(
            listed_batches(infos@),
            ","@,
        ),
{
    let mut parts: Vec<String> = Vec::new();
    let mut i: usize = 0;
    let ghost all = listed_batches(infos@);
    assert(views(parts@) =~= all.take(0));
    while i < infos.len()
        invariant
            0 <= i <= infos@.len(),
            all == listed_batches(infos@),
            views(parts@) == all.take(i as int),
        decreases infos@.len() - i,
    {
        let mut part = show(infos[i].prepared_id as u128);
        part.append(":");
        part.append(show(infos[i].shard_id as u128).as_str());
        part.append(":");
        part.append(show(infos[i].write_count as u128).as_str());
        assert(all[i as int] == part@);
        proof {
            lemma_views_push(parts@, part);
        }
        parts.push(part);
        assert(all.take(i + 1) =~= all.take(i as int).push(part@));
        i = i + 1;
    }
    assert(all.take(all.len() as int) =~= all);
    let mut r = "OK\tTX_PREPARED_LIST\t".to_owned();
    r.append(show(infos.len() as u128).as_str());
    r.append("\t");
    r.append(join_with(parts.as_slice(), ",").as_str());
    r
}

} // verus!
