//! What the commands of a session do to what it has open, and what comes next.

use vstd::prelude::*;

use crate::cluster::local_primary_problem;
use crate::commands::{QueryCommand, ReadIsolation, TransactionMode, TxCommand};
use crate::commit::{all_mutate, closed_plan, commit_targets};
use crate::cypher::{is_schema, is_write, missing_parameters};
use crate::execution::{
    begin_effect, commit_effect, distributed_next, kill_effect, plan_next, prepare_effect,
    prepared_effect, query_effect, rollback_effect, take_effect, tx_effect, without, CommandFacts,
    Decoded, Effect, Next, Open,
};
use crate::native::{cancel_of, cursor_number, fetch_of, Waiting};
use crate::prepared::{query_kind, query_of, session_queries, Batch, PreparedQuery};
use crate::queries::{
    after_frame, command_asked, frame_asked, way_refusal, Asked, FrameKind, QueryWay,
};
use crate::text::views;
use crate::transactions::{open_in, source_of, staged, write_views, Write};
use crate::value::Val;

verus! {

/// A transaction begins where the routing is known and, if it only reads, a view of what is
/// committed could be opened. It gets the next number, is empty and belongs to the session that
/// began it; nothing else changes.
pub proof fn begun_transactions_are_open(
    o: Open,
    session_id: u64,
    mode: TransactionMode,
    isolation: ReadIsolation,
    facts: CommandFacts,
    k: u64,
)
    requires
        o.last_transaction < u64::MAX,
    ensures
        ({
            let e = begin_effect(o, session_id, mode, isolation, facts);
            let n = (o.last_transaction + 1) as u64;
            &&& e.next is Ok <==> facts.epoch is Ok && (mode is ReadWrite || facts.snapshot is Ok)
            &&& e.next is Err ==> e.open == o
            &&& e.next is Ok ==> {
                &&& e.next->Ok_0 is Begun && e.next->Ok_0->Begun_tx_id == n
                &&& e.open.last_transaction == n
                &&& open_in(e.open.transactions, session_id, n) is Some
                &&& e.open.transactions[n].mode == mode && e.open.transactions[n].isolation
                    == isolation && e.open.transactions[n].writes.len() == 0
                &&& e.open.transactions[n].ownership_epoch == facts.epoch->Ok_0
                &&& k != n ==> e.open.transactions.dom().contains(k)
                    == o.transactions.dom().contains(k) && e.open.transactions[k]
                    == o.transactions[k]
                &&& e.open.batches == o.batches && e.open.queries == o.queries
            }
        }),
{
}

/// A query that writes is added to its transaction, and to no other; where that is refused, nothing
/// changes.
pub proof fn queries_that_write_are_staged(
    o: Open,
    session_id: u64,
    tx_id: u64,
    query: Seq<char>,
    params: Map<Seq<char>, Val>,
    signature: Seq<Seq<char>>,
    k: u64,
)
    requires
        is_write(query),
    ensures
        ({
            let e = query_effect(o, session_id, tx_id, query, params, signature);
            let wanted = staged(
                o.transactions,
                session_id,
                tx_id,
                Write { query, params },
                signature,
            );
            &&& e.next is Ok <==> wanted is Ok
            &&& e.next is Err ==> e.open == o
            &&& e.next is Ok ==> {
                &&& e.open.transactions[tx_id].writes == o.transactions[tx_id].writes.push(
                    Write { query, params },
                )
                &&& k != tx_id ==> e.open.transactions.dom().contains(k)
                    == o.transactions.dom().contains(k) && e.open.transactions[k]
                    == o.transactions[k]
                &&& e.open.batches == o.batches && e.open.queries == o.queries
                &&& e.open.last_transaction == o.last_transaction
            }
        }),
{
}

/// A query that reads changes nothing; it runs as it was sent, on what its transaction sees.
pub proof fn queries_that_read_change_nothing(
    o: Open,
    session_id: u64,
    tx_id: u64,
    query: Seq<char>,
    params: Map<Seq<char>, Val>,
    signature: Seq<Seq<char>>,
)
    requires
        !is_write(query),
    ensures
        ({
            let e = query_effect(o, session_id, tx_id, query, params, signature);
            &&& e.open == o
            &&& open_in(o.transactions, session_id, tx_id) matches Some(t) ==> e.next == Ok::<
                _,
                Seq<char>,
            >(Next::RunQuery { query, params, source: source_of(t, false), distributed: false })
            &&& open_in(o.transactions, session_id, tx_id) is None ==> e.next is Err
        }),
{
}

/// A distributed query of a transaction only reads; it runs over all shards, on what its
/// transaction sees.
pub proof fn distributed_queries_only_read(
    o: Open,
    session_id: u64,
    tx_id: u64,
    query: Seq<char>,
    params: Map<Seq<char>, Val>,
)
    ensures
        is_write(query) ==> distributed_next(o, session_id, tx_id, query, params) is Err,
        !is_write(query) ==> (open_in(o.transactions, session_id, tx_id) matches Some(t)
            ==> distributed_next(o, session_id, tx_id, query, params) == Ok::<_, Seq<char>>(
            Next::RunQuery { query, params, source: source_of(t, true), distributed: true },
        )),
        open_in(o.transactions, session_id, tx_id) is None ==> distributed_next(
            o,
            session_id,
            tx_id,
            query,
            params,
        ) is Err,
{
}

/// A transaction that is committed is closed and its writes are carried out, all of them and in
/// order; one that cannot be committed stays open as it was.
pub proof fn commits_carry_out_all_writes(
    o: Open,
    session_id: u64,
    tx_id: u64,
    facts: crate::commit::CommitFacts,
    peers: Map<u64, Seq<char>>,
    k: u64,
)
    ensures
        ({
            let e = commit_effect(o, session_id, tx_id, facts, peers);
            let found = open_in(o.transactions, session_id, tx_id);
            &&& found is None ==> e.next is Err && e.open == o
            &&& found matches Some(t) ==> {
                &&& commit_targets(t, facts) is Err ==> e.next is Err && e.open == o
                &&& commit_targets(t, facts) matches Ok(m) ==> {
                    &&& !e.open.transactions.dom().contains(tx_id)
                    &&& e.next is Ok <==> closed_plan(t, m, facts, peers) is Ok
                    &&& e.next is Ok ==> e.next->Ok_0 is Commit && e.next->Ok_0->Commit_writes
                        == o.transactions[tx_id].writes
                }
            }
            &&& k != tx_id ==> e.open.transactions.dom().contains(k)
                == o.transactions.dom().contains(k) && e.open.transactions[k] == o.transactions[k]
            &&& e.open.batches == o.batches && e.open.queries == o.queries
        }),
{
}

/// A transaction that is rolled back by its session, or killed by any, is closed; no other is.
pub proof fn closed_transactions_are_the_ones_named(
    o: Open,
    session_id: u64,
    tx_id: u64,
    k: u64,
)
    ensures
        ({
            let rolled = rollback_effect(o, session_id, tx_id);
            let killed = kill_effect(o, tx_id);
            &&& rolled.next is Ok <==> o.transactions.dom().contains(tx_id)
                && o.transactions[tx_id].session_id == session_id
            &&& killed.next is Ok <==> o.transactions.dom().contains(tx_id)
            &&& rolled.next is Ok ==> !rolled.open.transactions.dom().contains(tx_id)
            &&& killed.next is Ok ==> !killed.open.transactions.dom().contains(tx_id)
            &&& rolled.next is Err ==> rolled.open == o
            &&& killed.next is Err ==> killed.open == o
            &&& k != tx_id ==> rolled.open.transactions.dom().contains(k)
                == o.transactions.dom().contains(k) && rolled.open.transactions[k]
                == o.transactions[k]
            &&& k != tx_id ==> killed.open.transactions.dom().contains(k)
                == o.transactions.dom().contains(k) && killed.open.transactions[k]
                == o.transactions[k]
        }),
{
}

/// A batch that is prepared gets the next number and is kept as it was sent; when it is committed or
/// given up, it is handed out as it was kept, once.
pub proof fn prepared_batches_are_handed_out_once(
    o: Open,
    shard_id: u64,
    payload: Seq<char>,
    writes: Seq<Write>,
    facts: CommandFacts,
    commits: bool,
    again: bool,
)
    requires
        o.last_batch < u64::MAX,
        writes.len() <= usize::MAX,
    ensures
        ({
            let kept = prepare_effect(o, shard_id, payload, writes, facts);
            let n = (o.last_batch + 1) as u64;
            let taken = take_effect(kept.open, n, commits);
            &&& kept.next is Ok <==> all_mutate(writes) && facts.shards is Ok
                && local_primary_problem(facts.shards->Ok_0@, shard_id) is None
            &&& kept.next is Err ==> kept.open == o
            &&& kept.next is Ok ==> {
                &&& kept.next->Ok_0 is KeepBatch && kept.next->Ok_0->KeepBatch_prepared_id == n
                &&& kept.open.last_batch == n
                &&& taken.next is Ok && taken.next->Ok_0 is TakeBatch
                &&& taken.next->Ok_0->TakeBatch_batch == (Batch {
                    shard_id,
                    payload,
                    write_count: writes.len() as usize,
                })
                &&& taken.next->Ok_0->TakeBatch_commits == commits
                &&& taken.next->Ok_0->TakeBatch_prepared_id == n
                &&& take_effect(taken.open, n, again).next is Err
                &&& kept.open.transactions == o.transactions && taken.open.transactions
                    == o.transactions
            }
        }),
{
}

/// Each command is carried out by its kind: queries by what they say, prepared queries by what was
/// prepared, and a batch is committed or given up as the command says.
pub proof fn commands_are_carried_out_by_their_kind(
    o: Open,
    session_id: u64,
    decoded: Decoded,
    facts: CommandFacts,
    peers: Map<u64, Seq<char>>,
    n: u64,
    payload: Seq<char>,
    mode: TransactionMode,
    isolation: ReadIsolation,
)
    ensures
        tx_effect(o, session_id, TxCommand::Begin { mode, isolation }, decoded, facts, peers)
            == begin_effect(o, session_id, mode, isolation, facts),
        tx_effect(
            o,
            session_id,
            TxCommand::Query { tx_id: n, payload },
            decoded,
            facts,
            peers,
        ) == query_effect(
            o,
            session_id,
            n,
            decoded.query@,
            decoded.params@,
            views(decoded.signature@),
        ),
        tx_effect(
            o,
            session_id,
            TxCommand::DistributedQuery { tx_id: n, payload },
            decoded,
            facts,
            peers,
        ) == (Effect {
            open: o,
            next: distributed_next(o, session_id, n, decoded.query@, decoded.params@),
        }),
        tx_effect(
            o,
            session_id,
            TxCommand::QueryPlan { tx_id: n, payload },
            decoded,
            facts,
            peers,
        ) == (Effect {
            open: o,
            next: plan_next(o, session_id, n, decoded.query@, decoded.params@),
        }),
        tx_effect(o, session_id, TxCommand::Commit { tx_id: n }, decoded, facts, peers)
            == commit_effect(o, session_id, n, facts.commit, peers),
        tx_effect(o, session_id, TxCommand::Rollback { tx_id: n }, decoded, facts, peers)
            == rollback_effect(o, session_id, n),
        tx_effect(o, session_id, TxCommand::Kill { tx_id: n }, decoded, facts, peers)
            == kill_effect(o, n),
        tx_effect(
            o,
            session_id,
            TxCommand::PrepareWriteBatchShard { shard_id: n, payload },
            decoded,
            facts,
            peers,
        ) == prepare_effect(o, n, payload, write_views(decoded.writes@), facts),
        tx_effect(
            o,
            session_id,
            TxCommand::CommitPrepared { prepared_id: n },
            decoded,
            facts,
            peers,
        ) == take_effect(o, n, true),
        tx_effect(
            o,
            session_id,
            TxCommand::AbortPrepared { prepared_id: n },
            decoded,
            facts,
            peers,
        ) == take_effect(o, n, false),
{
}

/// What is only told changes nothing.
pub proof fn telling_commands_change_nothing(
    o: Open,
    session_id: u64,
    command: TxCommand,
    decoded: Decoded,
    facts: CommandFacts,
    peers: Map<u64, Seq<char>>,
)
    requires
        command is Status || command is PreparedStatus || command is ListPrepared
            || command is ListAll || command is List || command is QueryPlan
            || command is PreparedQueryPlan || command is PreparedQueryRoute
            || command is DistributedQuery,
    ensures
        tx_effect(o, session_id, command, decoded, facts, peers).open == o,
{
}

/// A query that was prepared is found again by its number, in its own session, as it was prepared,
/// and runs where its parameters are given; a query in a transaction likewise.
pub proof fn prepared_queries_run_as_they_were_prepared(
    o: Open,
    session_id: u64,
    query: Seq<char>,
    params: Map<Seq<char>, Val>,
    facts: CommandFacts,
    given: Option<Seq<char>>,
    other: u64,
    tx_id: u64,
    decoded: Decoded,
    peers: Map<u64, Seq<char>>,
)
    requires
        o.last_query < u64::MAX,
    ensures
        ({
            let e = prepared_effect(o, session_id, QueryCommand::Prepare { query }, params, facts);
            let n = (o.last_query + 1) as u64;
            let call = crate::commands::Prepared { prepared_id: n, params: given };
            let run = QueryCommand::Execute { call };
            &&& e.next is Ok && e.open.last_query == n
            &&& e.open.transactions == o.transactions && e.open.batches == o.batches
            &&& missing_parameters(n as nat, query, params) is None ==> prepared_effect(
                e.open,
                session_id,
                run,
                params,
                facts,
            ).next == Ok::<_, Seq<char>>(Next::RunPrepared { query, params })
            &&& missing_parameters(n as nat, query, params) is Some ==> prepared_effect(
                e.open,
                session_id,
                run,
                params,
                facts,
            ).next is Err
            &&& other != session_id ==> prepared_effect(e.open, other, run, params, facts).next is Err
            &&& missing_parameters(n as nat, query, decoded.params@) is None ==> tx_effect(
                e.open,
                session_id,
                TxCommand::ExecutePrepared { tx_id, call },
                decoded,
                facts,
                peers,
            ) == query_effect(
                e.open,
                session_id,
                tx_id,
                query,
                decoded.params@,
                views(decoded.signature@),
            )
        }),
{
}

/// A prepared query that is closed is unknown, and the others stay; only its own session closes it.
pub proof fn closed_prepared_queries_are_unknown(
    o: Open,
    session_id: u64,
    n: u64,
    params: Map<Seq<char>, Val>,
    facts: CommandFacts,
    k: u64,
)
    ensures
        ({
            let e = prepared_effect(
                o,
                session_id,
                QueryCommand::Close { prepared_id: n },
                params,
                facts,
            );
            let own = o.queries.dom().contains(n) && o.queries[n].session_id == session_id;
            &&& e.next is Ok <==> own
            &&& own ==> query_of(e.open.queries, session_id, n) is Err
            &&& !own ==> e.open == o
            &&& k != n ==> e.open.queries.dom().contains(k) == o.queries.dom().contains(k)
                && e.open.queries[k] == o.queries[k]
        }),
{
}

/// The end of a session closes its transactions and its prepared queries, and leaves those of others
/// and the prepared batches.
pub proof fn sessions_end_without_a_trace(o: Open, session_id: u64, k: u64)
    ensures
        ({
            let e = without(o, session_id);
            &&& open_in(e.transactions, session_id, k) is None
            &&& query_of(e.queries, session_id, k) is Err
            &&& e.batches == o.batches
            &&& o.transactions.dom().contains(k) && o.transactions[k].session_id != session_id
                ==> e.transactions.dom().contains(k) && e.transactions[k] == o.transactions[k]
            &&& o.queries.dom().contains(k) && o.queries[k].session_id != session_id
                ==> e.queries.dom().contains(k) && e.queries[k] == o.queries[k]
        }),
{
}

/// A query is a change of the schema, a write or a read, by what it says.
pub proof fn kinds_are_told_by_what_is_said(query: Seq<char>)
    ensures
        is_schema(query) ==> query_kind(query) == "SCHEMA"@,
        is_write(query) && !is_schema(query) ==> query_kind(query) == "WRITE"@,
        !is_write(query) && !is_schema(query) ==> query_kind(query) == "READ"@,
{
}

/// A session is told all of its prepared queries, in order, and none of another session.
pub proof fn sessions_are_told_their_prepared_queries(
    list: Seq<(u64, PreparedQuery)>,
    session_id: u64,
) -> (places: Seq<int>)
    ensures
        places.len() == session_queries(list, session_id).len(),
        crate::laws::sessions::is_rising(places),
        forall|j: int|
            0 <= j < places.len() ==> 0 <= #[trigger] places[j] < list.len()
                && list[places[j]].1.session_id == session_id && session_queries(
                list,
                session_id,
            )[j] == (list[places[j]].0, list[places[j]].1.query),
        forall|i: int|
            0 <= i < list.len() && (#[trigger] list[i]).1.session_id == session_id
                ==> places.contains(i),
    decreases list.len(),
{
    if list.len() == 0 {
        Seq::empty()
    } else {
        let front = list.drop_last();
        let n = list.len() - 1;
        let before = sessions_are_told_their_prepared_queries(front, session_id);
        let told = session_queries(list, session_id);
        let places = if list.last().1.session_id == session_id {
            before.push(n)
        } else {
            before
        };
        assert forall|j: int| 0 <= j < places.len() implies 0 <= #[trigger] places[j] < list.len()
            && list[places[j]].1.session_id == session_id && told[j] == (
            list[places[j]].0,
            list[places[j]].1.query,
        ) by {
            if j < before.len() {
                assert(places[j] == before[j]);
                assert(front[before[j]] == list[before[j]]);
            } else {
                assert(list[n] == list.last());
            }
        }
        assert forall|i: int, j: int| 0 <= i < j < places.len() implies #[trigger] places[i]
            < #[trigger] places[j] by {
            assert(places[i] == before[i]);
            if j < before.len() {
                assert(places[j] == before[j]);
            }
        }
        assert forall|i: int|
            0 <= i < list.len() && (#[trigger] list[i]).1.session_id
                == session_id implies places.contains(i) by {
            if i < n {
                assert(front[i] == list[i]);
                let k = choose|k: int| 0 <= k < before.len() && before[k] == i;
                assert(places[k] == i);
            } else {
                assert(list[n] == list.last());
                assert(places[places.len() - 1] == n);
            }
        }
        places
    }
}

/// A frame asks for what its kind says: queries wait for a restore, commands and fetches do not, and
/// answers are not for clients to send.
pub proof fn frames_ask_for_what_their_kind_says(
    payload: Seq<char>,
    maintenance: Result<bool, String>,
    waiting: Waiting,
    session_id: u64,
)
    ensures
        frame_asked(FrameKind::Ping, Ok(payload), maintenance, waiting, session_id) == Ok::<
            _,
            Seq<char>,
        >(Asked::Pong),
        frame_asked(FrameKind::Quit, Ok(payload), maintenance, waiting, session_id) == Ok::<
            _,
            Seq<char>,
        >(Asked::Bye),
        frame_asked(FrameKind::Response, Ok(payload), maintenance, waiting, session_id) is Err,
        frame_asked(FrameKind::Error, Ok(payload), maintenance, waiting, session_id) is Err,
        frame_asked(FrameKind::Query, Ok(payload), maintenance, waiting, session_id) is Ok
            <==> maintenance == Ok::<bool, String>(false),
        maintenance == Ok::<bool, String>(false) ==> frame_asked(
            FrameKind::Query,
            Ok(payload),
            maintenance,
            waiting,
            session_id,
        ) == Ok::<_, Seq<char>>(Asked::Query(payload)),
        frame_asked(FrameKind::Command, Ok(payload), maintenance, waiting, session_id)
            == command_asked(payload),
        fetch_of(payload) matches Ok((cursor_id, page_size)) ==> frame_asked(
            FrameKind::Fetch,
            Ok(payload),
            maintenance,
            waiting,
            session_id,
        ) == Ok::<_, Seq<char>>(Asked::Fetch { cursor_id, page_size }),
        cursor_number(payload) matches Ok(n) ==> frame_asked(
            FrameKind::CloseCursor,
            Ok(payload),
            maintenance,
            waiting,
            session_id,
        ) == Ok::<_, Seq<char>>(Asked::CloseCursor(n)),
{
}

/// Only a frame that cancels changes what waits.
pub proof fn only_cancelling_changes_what_waits(
    kind: FrameKind,
    payload: Result<Seq<char>, Seq<char>>,
    waiting: Waiting,
    session_id: u64,
)
    ensures
        !(kind is Cancel) ==> after_frame(kind, payload, waiting, session_id) == waiting,
        payload is Err ==> after_frame(kind, payload, waiting, session_id) == waiting,
        kind is Cancel && payload is Ok ==> (cancel_of(payload->Ok_0) matches Ok(n) ==> after_frame(
            kind,
            payload,
            waiting,
            session_id,
        ) == crate::native::after_cancel(waiting, session_id, n as u64)),
{
}

/// A query that writes runs in no distributed way, and not on one shard; every other query runs in
/// any way.
pub proof fn writes_run_in_the_plain_way(way: QueryWay, query: Seq<char>)
    ensures
        way_refusal(way, query) is Some <==> is_write(query) && (way is Distributed || way is Shard),
{
}

} // verus!
