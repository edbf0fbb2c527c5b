//! How the commands on transactions and prepared queries are carried out.

use vstd::prelude::*;

use crate::cluster::{
    ensure_local_primary_shard, local_primary_problem, prepared_query_routing_hint,
    prepared_query_routing_hint_with_params, routing_with_params, routing_without_params,
    RoutingFacts, ShardStatus,
};
use crate::commands::{
    format_read_isolation, format_transaction_mode, isolation_text, mode_text, PreparedQueryCommand,
    QueryCommand, ReadIsolation, TransactionCommand, TransactionMode, TxCommand,
};
use crate::commit::{
    begin_commit, closed_plan, commit_targets, staged_writes_are_prepare_batchable, CommitFacts,
    CommitStart, Plan,
};
use crate::cypher::{
    describe_query_parameters, is_write, is_write_cypher, missing_parameters, names_in_order,
    query_parameters, validate_prepared_query_params,
};
use crate::peers::QueryPeerStore;
use crate::prepared::{
    batch_info, batch_infos, batch_status, description, format_prepared_query_describe,
    format_prepared_query_list, format_prepared_query_route, format_prepared_tx_list,
    format_prepared_tx_status, format_tx_prepared_query_route, listed_batches, listed_queries,
    query_of, route_text, session_queries, tx_route_text, unknown_batch, Batch, PreparedQuery,
    PreparedQueryStore, PreparedTransactionStore, PreparedWriteBatch,
};
use crate::ranking::ranked;
use crate::table::sorted;
use crate::text::{cat, dec, join, show, views};
use crate::transactions::{
    all_infos, context_of, format_tx_list, format_tx_list_all, format_tx_status, fresh, info_of,
    listed_all, listed_all_with_session, open_in, session_infos, source_of, staged, status_text,
    unknown_transaction, write_views, writes_well_formed, CursorSource, NativeTransaction, Source,
    StagedWrite, TransactionPlanContext, TransactionStore, Txn, Write,
};
use crate::value::{QueryParams, Val};
use crate::wire::{node_hash, CreateNodeRoutingKey};

verus! {

/// What sessions have open: transactions, prepared batches and prepared queries.
pub struct NativeState {
    pub transactions: TransactionStore,
    pub prepared_transactions: PreparedTransactionStore,
    pub prepared_queries: PreparedQueryStore,
}

/// The contents of what sessions have open.
pub struct Open {
    pub transactions: Map<u64, Txn>,
    pub last_transaction: u64,
    pub last_session: u64,
    pub batches: Map<u64, Batch>,
    pub last_batch: u64,
    pub queries: Map<u64, PreparedQuery>,
    pub last_query: u64,
}

impl NativeState {
    pub open spec fn view(&self) -> Open {
        Open {
            transactions: self.transactions@,
            last_transaction: self.transactions.last_id(),
            last_session: self.transactions.last_session(),
            batches: self.prepared_transactions@,
            last_batch: self.prepared_transactions.last_id(),
            queries: self.prepared_queries@,
            last_query: self.prepared_queries.last_id(),
        }
    }

    pub open spec fn well_formed(&self) -> bool {
        self.transactions.well_formed() && self.prepared_transactions.well_formed()
            && self.prepared_queries.well_formed()
    }

    pub fn new() -> (r: Self)
        ensures
            r.well_formed(),
            r@ == (Open {
                transactions: Map::empty(),
                last_transaction: 0,
                last_session: 0,
                batches: Map::empty(),
                last_batch: 0,
                queries: Map::empty(),
                last_query: 0,
            }),
    {
        NativeState {
            transactions: TransactionStore::new(),
            prepared_transactions: PreparedTransactionStore::new(),
            prepared_queries: PreparedQueryStore::new(),
        }
    }
}

/// What the texts of a command decode to: a query with its parameters, the parameters each
/// with its value, and a batch of writes. A command uses of it what it has texts for.
pub struct Decoded {
    pub query: String,
    pub params: QueryParams,
    pub signature: Vec<String>,
    pub writes: Vec<StagedWrite>,
}

impl Decoded {
    pub open spec fn well_formed(&self) -> bool {
        self.params.well_formed() && writes_well_formed(self.writes@)
    }
}

/// What is known from outside when a command is carried out: the version of the routing, whether
/// a view of what is committed could be opened, what is known of the shards, where queries go,
/// the routing key of the query, and what a commit needs. A command uses of it what it asks for.
pub struct CommandFacts {
    pub epoch: Result<u64, String>,
    pub snapshot: Result<(), String>,
    pub shards: Result<Vec<ShardStatus>, String>,
    pub routing: RoutingFacts,
    pub key: Option<CreateNodeRoutingKey>,
    pub commit: CommitFacts,
}

/// What is to be done next for a command, or its answer.
pub enum CommandStep {
    /// The answer.
    Answer(String),
    /// The answer to the beginning of a transaction, with its number.
    Begun { tx_id: u64, answer: String },
    /// A query is run, and its first rows are the answer.
    RunQuery { query: String, params: QueryParams, source: CursorSource, distributed: bool },
    /// A query is run by itself, and its first rows are the answer.
    RunPrepared { query: String, params: QueryParams },
    /// A query is planned, and the plan is the answer, with what it says of its transaction.
    PlanQuery { query: String, params: QueryParams, context: Option<TransactionPlanContext> },
    /// The writes of a transaction are carried out.
    Commit(CommitStart),
    /// A batch has been prepared and is to be kept on disk; then the answer is given.
    KeepBatch { prepared_id: u64, answer: String },
    /// A batch has been taken out: that is to be kept on disk, and where it commits, its writes
    /// are carried out; then the answer is given.
    TakeBatch { prepared_id: u64, batch: PreparedWriteBatch, commits: bool, answer: String },
}

/// The contents of what is to be done next.
pub enum Next {
    Answer(Seq<char>),
    Begun { tx_id: u64, answer: Seq<char> },
    RunQuery { query: Seq<char>, params: Map<Seq<char>, Val>, source: Source, distributed: bool },
    RunPrepared { query: Seq<char>, params: Map<Seq<char>, Val> },
    PlanQuery {
        query: Seq<char>,
        params: Map<Seq<char>, Val>,
        context: Option<TransactionPlanContext>,
    },
    Commit { writes: Seq<Write>, plan: Plan },
    KeepBatch { prepared_id: u64, answer: Seq<char> },
    TakeBatch { prepared_id: u64, batch: Batch, commits: bool, answer: Seq<char> },
}

impl CommandStep {
    pub open spec fn view(&self) -> Next {
        match *self {
            CommandStep::Answer(t) => Next::Answer(t@),
            CommandStep::Begun { tx_id, answer } => Next::Begun { tx_id, answer: answer@ },
            CommandStep::RunQuery { query, params, source, distributed } => Next::RunQuery {
                query: query@,
                params: params@,
                source: source@,
                distributed,
            },
            CommandStep::RunPrepared { query, params } => Next::RunPrepared {
                query: query@,
                params: params@,
            },
            CommandStep::PlanQuery { query, params, context } => Next::PlanQuery {
                query: query@,
                params: params@,
                context,
            },
            CommandStep::Commit(start) => Next::Commit {
                writes: write_views(start.writes@),
                plan: start.plan@,
            },
            CommandStep::KeepBatch { prepared_id, answer } => Next::KeepBatch {
                prepared_id,
                answer: answer@,
            },
            CommandStep::TakeBatch { prepared_id, batch, commits, answer } => Next::TakeBatch {
                prepared_id,
                batch: batch@,
                commits,
                answer: answer@,
            },
        }
    }
}

/// The contents of what a command comes to.
pub open spec fn step_view(r: Result<CommandStep, String>) -> Result<Next, Seq<char>> {
    match r {
        Ok(s) => Ok(s@),
        Err(e) => Err(e@),
    }
}

/// What a command comes to: what sessions have open then, and what is to be done next.
pub struct Effect {
    pub open: Open,
    pub next: Result<Next, Seq<char>>,
}

/// A command that changes nothing.
pub open spec fn unchanged(o: Open, next: Result<Next, Seq<char>>) -> Effect {
    Effect { open: o, next }
}

/// The answer to the beginning of a transaction.
pub open spec fn begun_text(
    tx_id: u64,
    mode: TransactionMode,
    isolation: ReadIsolation,
    epoch: u64,
) -> Seq<char> {
    "OK\tTX_BEGIN\t"@ + dec(tx_id as nat) + "\t"@ + mode_text(mode) + "\t"@ + isolation_text(
        isolation,
    ) + "\townership_epoch="@ + dec(epoch as nat)
}

/// The beginning of a transaction.
pub open spec fn begin_effect(
    o: Open,
    session_id: u64,
    mode: TransactionMode,
    isolation: ReadIsolation,
    facts: CommandFacts,
) -> Effect {
    match facts.epoch {
        Err(e) => unchanged(o, Err(e@)),
        Ok(epoch) => if mode is ReadOnly && facts.snapshot is Err {
            unchanged(o, Err(facts.snapshot->Err_0@))
        } else {
            let tx_id = (o.last_transaction + 1) as u64;
            Effect {
                open: Open {
                    transactions: o.transactions.insert(
                        tx_id,
                        fresh(session_id, mode, isolation, epoch),
                    ),
                    last_transaction: tx_id,
                    ..o
                },
                next: Ok(Next::Begun { tx_id, answer: begun_text(tx_id, mode, isolation, epoch) }),
            }
        },
    }
}

fn begin_transaction(
    state: &mut NativeState,
    session_id: u64,
    mode: TransactionMode,
    isolation: ReadIsolation,
    facts: &CommandFacts,
) -> (r: Result<CommandStep, String>)
    requires
        old(state).well_formed(),
        old(state)@.last_transaction < u64::MAX,
    ensures
        final(state).well_formed(),
        (Effect { open: final(state)@, next: step_view(r) }) == begin_effect(
            old(state)@,
            session_id,
            mode,
            isolation,
            *facts,
        ),
{
    let epoch: u64 = match &facts.epoch {
        Err(e) => return Err(e.as_str().to_owned()),
        Ok(n) => *n,
    };
    if let TransactionMode::ReadOnly = mode {
        if let Err(e) = &facts.snapshot {
            return Err(e.as_str().to_owned());
        }
    }
    let tx_id = state.transactions.insert(
        session_id,
        NativeTransaction::begin(mode, isolation, epoch),
    );
    let mut answer = "OK\tTX_BEGIN\t".to_owned();
    answer.append(show(tx_id as u128).as_str());
    answer.append("\t");
    answer.append(format_transaction_mode(mode));
    answer.append("\t");
    answer.append(format_read_isolation(isolation));
    answer.append("\townership_epoch=");
    answer.append(show(epoch as u128).as_str());
    Ok(CommandStep::Begun { tx_id, answer })
}

/// How it is told that a write waits for its transaction.
pub open spec fn staged_text(tx_id: u64, count: nat) -> Seq<char> {
    "OK\tTX_STAGED\t"@ + dec(tx_id as nat) + "\t"@ + dec(count)
}

/// A query in a transaction: a write waits for the commit, another query is run.
pub open spec fn query_effect(
    o: Open,
    session_id: u64,
    tx_id: u64,
    query: Seq<char>,
    params: Map<Seq<char>, Val>,
    signature: Seq<Seq<char>>,
) -> Effect {
    if is_write(query) {
        match staged(o.transactions, session_id, tx_id, Write { query, params }, signature) {
            Err(e) => unchanged(o, Err(e)),
            Ok(t) => Effect {
                open: Open { transactions: o.transactions.insert(tx_id, t), ..o },
                next: Ok(Next::Answer(staged_text(tx_id, t.writes.len()))),
            },
        }
    } else {
        unchanged(
            o,
            match open_in(o.transactions, session_id, tx_id) {
                None => Err(unknown_transaction(tx_id)),
                Some(t) => Ok(
                    Next::RunQuery {
                        query,
                        params,
                        source: source_of(t, false),
                        distributed: false,
                    },
                ),
            },
        )
    }
}

fn query_in_transaction(
    state: &mut NativeState,
    session_id: u64,
    tx_id: u64,
    query: String,
    params: QueryParams,
    signature: &[String],
) -> (r: Result<CommandStep, String>)
    requires
        old(state).well_formed(),
        params.well_formed(),
    ensures
        final(state).well_formed(),
        (Effect { open: final(state)@, next: step_view(r) }) == query_effect(
            old(state)@,
            session_id,
            tx_id,
            query@,
            params@,
            views(signature@),
        ),
{
    if is_write_cypher(query.as_str()) {
        return match state.transactions.stage_write(session_id, tx_id, query, params, signature) {
            Err(e) => Err(e),
            Ok(count) => {
                let mut answer = "OK\tTX_STAGED\t".to_owned();
                answer.append(show(tx_id as u128).as_str());
                answer.append("\t");
                answer.append(show(count as u128).as_str());
                Ok(CommandStep::Answer(answer))
            },
        };
    }
    match state.transactions.cursor_source(session_id, tx_id, false) {
        Err(e) => Err(e),
        Ok(source) => Ok(CommandStep::RunQuery { query, params, source, distributed: false }),
    }
}

/// A prepared query that gets its parameters, or why it cannot be used.
pub open spec fn prepared_with(
    o: Open,
    session_id: u64,
    prepared_id: u64,
    params: Map<Seq<char>, Val>,
) -> Result<Seq<char>, Seq<char>> {
    match query_of(o.queries, session_id, prepared_id) {
        Err(e) => Err(e),
        Ok(query) => match missing_parameters(prepared_id as nat, query, params) {
            Some(e) => Err(e),
            None => Ok(query),
        },
    }
}

fn get_prepared_with(
    state: &NativeState,
    session_id: u64,
    prepared_id: u64,
    params: &QueryParams,
) -> (r: Result<String, String>)
    requires
        state.well_formed(),
        params.well_formed(),
    ensures
        crate::native::outcome_text(r) == prepared_with(
            state@,
            session_id,
            prepared_id,
            params@,
        ),
{
    match state.prepared_queries.get(session_id, prepared_id) {
        Err(e) => Err(e),
        Ok(query) => match validate_prepared_query_params(prepared_id, query.as_str(), params) {
            Err(e) => Err(e),
            Ok(_) => Ok(query),
        },
    }
}

/// The plan of a query in a transaction.
pub open spec fn plan_next(
    o: Open,
    session_id: u64,
    tx_id: u64,
    query: Seq<char>,
    params: Map<Seq<char>, Val>,
) -> Result<Next, Seq<char>> {
    match open_in(o.transactions, session_id, tx_id) {
        None => Err(unknown_transaction(tx_id)),
        Some(t) => Ok(Next::PlanQuery { query, params, context: Some(context_of(t)) }),
    }
}

fn plan_in_transaction(
    state: &NativeState,
    session_id: u64,
    tx_id: u64,
    query: String,
    params: QueryParams,
) -> (r: Result<CommandStep, String>)
    requires
        state.well_formed(),
    ensures
        step_view(r) == plan_next(state@, session_id, tx_id, query@, params@),
{
    match state.transactions.plan_context(session_id, tx_id) {
        Err(e) => Err(e),
        Ok(context) => Ok(CommandStep::PlanQuery { query, params, context: Some(context) }),
    }
}

/// Where a prepared query goes in a transaction.
pub open spec fn route_next(
    o: Open,
    session_id: u64,
    tx_id: u64,
    prepared_id: u64,
    params: Map<Seq<char>, Val>,
    facts: CommandFacts,
) -> Result<Next, Seq<char>> {
    match prepared_with(o, session_id, prepared_id, params) {
        Err(e) => Err(e),
        Ok(query) => match open_in(o.transactions, session_id, tx_id) {
            None => Err(unknown_transaction(tx_id)),
            Some(t) => match routing_with_params(
                query,
                facts.routing,
                node_hash(facts.key, query, params),
            ) {
                Err(e) => Err(e),
                Ok(hint) => Ok(
                    Next::Answer(
                        tx_route_text(tx_id as nat, prepared_id as nat, hint, context_of(t)),
                    ),
                ),
            },
        },
    }
}

fn route_in_transaction(
    state: &NativeState,
    session_id: u64,
    tx_id: u64,
    prepared_id: u64,
    params: &QueryParams,
    facts: &CommandFacts,
) -> (r: Result<CommandStep, String>)
    requires
        state.well_formed(),
        params.well_formed(),
    ensures
        step_view(r) == route_next(state@, session_id, tx_id, prepared_id, params@, *facts),
{
    let query = match get_prepared_with(state, session_id, prepared_id, params) {
        Err(e) => return Err(e),
        Ok(q) => q,
    };
    let context = match state.transactions.plan_context(session_id, tx_id) {
        Err(e) => return Err(e),
        Ok(c) => c,
    };
    match prepared_query_routing_hint_with_params(
        query.as_str(),
        params,
        &facts.routing,
        &facts.key,
    ) {
        Err(e) => Err(e),
        Ok(hint) => Ok(
            CommandStep::Answer(
                format_tx_prepared_query_route(tx_id, prepared_id, hint.as_str(), &context),
            ),
        ),
    }
}

/// A query over several servers in a transaction.
pub open spec fn distributed_next(
    o: Open,
    session_id: u64,
    tx_id: u64,
    query: Seq<char>,
    params: Map<Seq<char>, Val>,
) -> Result<Next, Seq<char>> {
    if is_write(query) {
        Err("TX_QUERY_DISTRIBUTED only supports read queries"@)
    } else {
        match open_in(o.transactions, session_id, tx_id) {
            None => Err(unknown_transaction(tx_id)),
            Some(t) => Ok(
                Next::RunQuery { query, params, source: source_of(t, true), distributed: true },
            ),
        }
    }
}

fn distributed_in_transaction(
    state: &NativeState,
    session_id: u64,
    tx_id: u64,
    query: String,
    params: QueryParams,
) -> (r: Result<CommandStep, String>)
    requires
        state.well_formed(),
    ensures
        step_view(r) == distributed_next(state@, session_id, tx_id, query@, params@),
{
    if is_write_cypher(query.as_str()) {
        return Err("TX_QUERY_DISTRIBUTED only supports read queries".to_owned());
    }
    match state.transactions.cursor_source(session_id, tx_id, true) {
        Err(e) => Err(e),
        Ok(source) => Ok(CommandStep::RunQuery { query, params, source, distributed: true }),
    }
}

/// The commit of a transaction.
pub open spec fn commit_effect(
    o: Open,
    session_id: u64,
    tx_id: u64,
    facts: CommitFacts,
    peers: Map<u64, Seq<char>>,
) -> Effect {
    match open_in(o.transactions, session_id, tx_id) {
        None => unchanged(o, Err(unknown_transaction(tx_id))),
        Some(t) => match commit_targets(t, facts) {
            Err(e) => unchanged(o, Err(e)),
            Ok(m) => Effect {
                open: Open { transactions: o.transactions.remove(tx_id), ..o },
                next: match closed_plan(t, m, facts, peers) {
                    Err(e) => Err(e),
                    Ok(plan) => Ok(Next::Commit { writes: t.writes, plan }),
                },
            },
        },
    }
}

fn commit_transaction(
    state: &mut NativeState,
    session_id: u64,
    tx_id: u64,
    facts: &CommitFacts,
    peers: &QueryPeerStore,
) -> (r: Result<CommandStep, String>)
    requires
        old(state).well_formed(),
        peers.well_formed(),
        open_in(old(state)@.transactions, session_id, tx_id) is Some ==> facts.writes@.len()
            == open_in(old(state)@.transactions, session_id, tx_id).unwrap().writes.len(),
    ensures
        final(state).well_formed(),
        (Effect { open: final(state)@, next: step_view(r) }) == commit_effect(
            old(state)@,
            session_id,
            tx_id,
            *facts,
            peers@,
        ),
{
    match begin_commit(&mut state.transactions, session_id, tx_id, facts, peers) {
        Err(e) => Err(e),
        Ok(start) => Ok(CommandStep::Commit(start)),
    }
}

/// The end of a transaction without its writes.
pub open spec fn rollback_effect(o: Open, session_id: u64, tx_id: u64) -> Effect {
    match open_in(o.transactions, session_id, tx_id) {
        None => unchanged(o, Err(unknown_transaction(tx_id))),
        Some(_) => Effect {
            open: Open { transactions: o.transactions.remove(tx_id), ..o },
            next: Ok(Next::Answer("OK\tTX_ROLLBACK\t"@ + dec(tx_id as nat))),
        },
    }
}

/// The end of a transaction of any session.
pub open spec fn kill_effect(o: Open, tx_id: u64) -> Effect {
    if o.transactions.dom().contains(tx_id) {
        Effect {
            open: Open { transactions: o.transactions.remove(tx_id), ..o },
            next: Ok(
                Next::Answer(
                    "OK\tTX_KILL\t"@ + dec(tx_id as nat) + "\t"@ + dec(
                        o.transactions[tx_id].session_id as nat,
                    ),
                ),
            ),
        }
    } else {
        unchanged(o, Err(unknown_transaction(tx_id)))
    }
}

fn rollback_transaction(state: &mut NativeState, session_id: u64, tx_id: u64) -> (r: Result<
    CommandStep,
    String,
>)
    requires
        old(state).well_formed(),
    ensures
        final(state).well_formed(),
        (Effect { open: final(state)@, next: step_view(r) }) == rollback_effect(
            old(state)@,
            session_id,
            tx_id,
        ),
{
    match state.transactions.close(session_id, tx_id) {
        Err(e) => Err(e),
        Ok(_) => Ok(
            CommandStep::Answer(cat("OK\tTX_ROLLBACK\t", show(tx_id as u128).as_str())),
        ),
    }
}

fn kill_transaction(state: &mut NativeState, tx_id: u64) -> (r: Result<CommandStep, String>)
    requires
        old(state).well_formed(),
    ensures
        final(state).well_formed(),
        (Effect { open: final(state)@, next: step_view(r) }) == kill_effect(old(state)@, tx_id),
{
    let ghost before = state.transactions@;
    match state.transactions.close_any(tx_id) {
        Err(e) => {
            assert(before.remove(tx_id) =~= before);
            Err(e)
        },
        Ok(info) => {
            let mut answer = "OK\tTX_KILL\t".to_owned();
            answer.append(show(tx_id as u128).as_str());
            answer.append("\t");
            answer.append(show(info.session_id as u128).as_str());
            Ok(CommandStep::Answer(answer))
        },
    }
}

/// How a prepared batch is told.
pub open spec fn prepared_text(prepared_id: u64, shard_id: u64, count: nat) -> Seq<char> {
    "OK\tTX_PREPARED\t"@ + dec(prepared_id as nat) + "\t"@ + dec(shard_id as nat) + "\t"@ + dec(
        count,
    )
}

/// A batch of writes that another server has a shard of this server prepare.
pub open spec fn prepare_effect(
    o: Open,
    shard_id: u64,
    payload: Seq<char>,
    writes: Seq<Write>,
    facts: CommandFacts,
) -> Effect {
    match facts.shards {
        Err(e) => unchanged(o, Err(e@)),
        Ok(shards) => match local_primary_problem(shards@, shard_id) {
            Some(e) => unchanged(o, Err(e)),
            None => if !crate::commit::all_mutate(writes) {
                unchanged(
                    o,
                    Err(
                        "prepared write batch currently supports CREATE, MERGE, SET, REMOVE, or DELETE writes only"@,
                    ),
                )
            } else {
                let prepared_id = (o.last_batch + 1) as u64;
                Effect {
                    open: Open {
                        batches: o.batches.insert(
                            prepared_id,
                            Batch { shard_id, payload, write_count: writes.len() as usize },
                        ),
                        last_batch: prepared_id,
                        ..o
                    },
                    next: Ok(
                        Next::KeepBatch {
                            prepared_id,
                            answer: prepared_text(prepared_id, shard_id, writes.len()),
                        },
                    ),
                }
            },
        },
    }
}

fn prepare_batch(
    state: &mut NativeState,
    shard_id: u64,
    payload: String,
    writes: &[StagedWrite],
    facts: &CommandFacts,
) -> (r: Result<CommandStep, String>)
    requires
        old(state).well_formed(),
        old(state)@.last_batch < u64::MAX,
    ensures
        final(state).well_formed(),
        (Effect { open: final(state)@, next: step_view(r) }) == prepare_effect(
            old(state)@,
            shard_id,
            payload@,
            write_views(writes@),
            *facts,
        ),
{
    match &facts.shards {
        Err(e) => return Err(e.as_str().to_owned()),
        Ok(shards) => {
            if let Err(e) = ensure_local_primary_shard(shards.as_slice(), shard_id) {
                return Err(e);
            }
        },
    }
    if !staged_writes_are_prepare_batchable(writes) {
        return Err(
            "prepared write batch currently supports CREATE, MERGE, SET, REMOVE, or DELETE writes only".to_owned(),
        );
    }
    let count: usize = writes.len();
    assert(write_views(writes@).len() == count);
    let prepared_id = state.prepared_transactions.prepare(
        PreparedWriteBatch { shard_id, payload, write_count: count },
    );
    let mut answer = "OK\tTX_PREPARED\t".to_owned();
    answer.append(show(prepared_id as u128).as_str());
    answer.append("\t");
    answer.append(show(shard_id as u128).as_str());
    answer.append("\t");
    answer.append(show(count as u128).as_str());
    Ok(CommandStep::KeepBatch { prepared_id, answer })
}

/// The end of a prepared batch: it is committed, or given up.
pub open spec fn take_effect(o: Open, prepared_id: u64, commits: bool) -> Effect {
    if o.batches.dom().contains(prepared_id) {
        Effect {
            open: Open { batches: o.batches.remove(prepared_id), ..o },
            next: Ok(
                Next::TakeBatch {
                    prepared_id,
                    batch: o.batches[prepared_id],
                    commits,
                    answer: (if commits {
                        "OK\tTX_PREPARED_COMMIT\t"@
                    } else {
                        "OK\tTX_PREPARED_ABORT\t"@
                    }) + dec(prepared_id as nat),
                },
            ),
        }
    } else {
        unchanged(o, Err(unknown_batch(prepared_id)))
    }
}

fn take_batch(state: &mut NativeState, prepared_id: u64, commits: bool) -> (r: Result<
    CommandStep,
    String,
>)
    requires
        old(state).well_formed(),
    ensures
        final(state).well_formed(),
        (Effect { open: final(state)@, next: step_view(r) }) == take_effect(
            old(state)@,
            prepared_id,
            commits,
        ),
{
    let ghost before = state.prepared_transactions@;
    match state.prepared_transactions.take(prepared_id) {
        Err(e) => {
            assert(before.remove(prepared_id) =~= before);
            Err(e)
        },
        Ok(batch) => {
            let answer = cat(
                if commits {
                    "OK\tTX_PREPARED_COMMIT\t"
                } else {
                    "OK\tTX_PREPARED_ABORT\t"
                },
                show(prepared_id as u128).as_str(),
            );
            Ok(CommandStep::TakeBatch { prepared_id, batch, commits, answer })
        },
    }
}

/// The state of a transaction, or the lists of them.
pub open spec fn tell_next(o: Open, session_id: u64, command: TxCommand) -> Result<Next, Seq<char>> {
    match command {
        TxCommand::Status { tx_id } => match open_in(o.transactions, session_id, tx_id) {
            None => Err(unknown_transaction(tx_id)),
            Some(t) => Ok(Next::Answer(status_text(info_of(tx_id, t)))),
        },
        TxCommand::PreparedStatus { prepared_id } => if o.batches.dom().contains(prepared_id) {
            Ok(Next::Answer(batch_status(batch_info(prepared_id, o.batches[prepared_id]))))
        } else {
            Err(unknown_batch(prepared_id))
        },
        TxCommand::ListPrepared => {
            let infos = batch_infos(sorted(o.batches));
            Ok(
                Next::Answer(
                    "OK\tTX_PREPARED_LIST\t"@ + dec(infos.len()) + "\t"@ + join(
                        listed_batches(infos),
                        ","@,
                    ),
                ),
            )
        },
        TxCommand::ListAll => {
            let infos = ranked(all_infos(sorted(o.transactions)));
            Ok(
                Next::Answer(
                    "OK\tTX_LIST_ALL\t"@ + dec(infos.len()) + "\t"@ + join(
                        listed_all_with_session(infos),
                        ","@,
                    ),
                ),
            )
        },
        _ => {
            let infos = session_infos(sorted(o.transactions), session_id);
            Ok(
                Next::Answer(
                    "OK\tTX_LIST\t"@ + dec(infos.len()) + "\t"@ + join(listed_all(infos), ","@),
                ),
            )
        },
    }
}

fn tell_status(state: &NativeState, session_id: u64, tx_id: u64) -> (r: Result<CommandStep, String>)
    requires
        state.well_formed(),
    ensures
        step_view(r) == tell_next(state@, session_id, TxCommand::Status { tx_id }),
{
    match state.transactions.status(session_id, tx_id) {
        Err(e) => Err(e),
        Ok(info) => Ok(CommandStep::Answer(format_tx_status(&info))),
    }
}

fn tell_prepared_status(state: &NativeState, session_id: u64, prepared_id: u64) -> (r: Result<
    CommandStep,
    String,
>)
    requires
        state.well_formed(),
    ensures
        step_view(r) == tell_next(state@, session_id, TxCommand::PreparedStatus { prepared_id }),
{
    match state.prepared_transactions.status(prepared_id) {
        Err(e) => Err(e),
        Ok(info) => Ok(CommandStep::Answer(format_prepared_tx_status(&info))),
    }
}

/// What a command on transactions comes to.
pub open spec fn tx_effect(
    o: Open,
    session_id: u64,
    command: TxCommand,
    decoded: Decoded,
    facts: CommandFacts,
    peers: Map<u64, Seq<char>>,
) -> Effect {
    let params = decoded.params@;
    let signature = views(decoded.signature@);
    match command {
        TxCommand::Begin { mode, isolation } => begin_effect(o, session_id, mode, isolation, facts),
        TxCommand::Query { tx_id, payload } => query_effect(
            o,
            session_id,
            tx_id,
            decoded.query@,
            params,
            signature,
        ),
        TxCommand::ExecutePrepared { tx_id, call } => match prepared_with(
            o,
            session_id,
            call.prepared_id,
            params,
        ) {
            Err(e) => unchanged(o, Err(e)),
            Ok(query) => query_effect(o, session_id, tx_id, query, params, signature),
        },
        TxCommand::PreparedQueryPlan { tx_id, call } => match prepared_with(
            o,
            session_id,
            call.prepared_id,
            params,
        ) {
            Err(e) => unchanged(o, Err(e)),
            Ok(query) => unchanged(o, plan_next(o, session_id, tx_id, query, params)),
        },
        TxCommand::PreparedQueryRoute { tx_id, call } => unchanged(
            o,
            route_next(o, session_id, tx_id, call.prepared_id, params, facts),
        ),
        TxCommand::DistributedQuery { tx_id, payload } => unchanged(
            o,
            distributed_next(o, session_id, tx_id, decoded.query@, params),
        ),
        TxCommand::QueryPlan { tx_id, payload } => unchanged(
            o,
            plan_next(o, session_id, tx_id, decoded.query@, params),
        ),
        TxCommand::Commit { tx_id } => commit_effect(o, session_id, tx_id, facts.commit, peers),
        TxCommand::Rollback { tx_id } => rollback_effect(o, session_id, tx_id),
        TxCommand::Kill { tx_id } => kill_effect(o, tx_id),
        TxCommand::PrepareWriteBatchShard { shard_id, payload } => prepare_effect(
            o,
            shard_id,
            payload,
            write_views(decoded.writes@),
            facts,
        ),
        TxCommand::CommitPrepared { prepared_id } => take_effect(o, prepared_id, true),
        TxCommand::AbortPrepared { prepared_id } => take_effect(o, prepared_id, false),
        _ => unchanged(o, tell_next(o, session_id, command)),
    }
}

/// Whether there are as many facts as writes in the transaction that a command commits.
pub open spec fn facts_match(
    o: Open,
    session_id: u64,
    command: TxCommand,
    facts: CommandFacts,
) -> bool {
    match command {
        TxCommand::Commit { tx_id } => match open_in(o.transactions, session_id, tx_id) {
            Some(t) => facts.commit.writes@.len() == t.writes.len(),
            None => true,
        },
        _ => true,
    }
}

/// Carries out a command on transactions, up to what has to be done outside.
pub fn execute_transaction_command(
    state: &mut NativeState,
    session_id: u64,
    command: TransactionCommand,
    decoded: Decoded,
    facts: &CommandFacts,
    peers: &QueryPeerStore,
) -> (r: Result<CommandStep, String>)
    requires
        old(state).well_formed(),
        decoded.well_formed(),
        peers.well_formed(),
        old(state)@.last_transaction < u64::MAX,
        old(state)@.last_batch < u64::MAX,
        facts_match(old(state)@, session_id, command@, *facts),
    ensures
        final(state).well_formed(),
        (Effect { open: final(state)@, next: step_view(r) }) == tx_effect(
            old(state)@,
            session_id,
            command@,
            decoded,
            *facts,
            peers@,
        ),
{
    match command {
        TransactionCommand::Begin { mode, isolation } => begin_transaction(
            state,
            session_id,
            mode,
            isolation,
            facts,
        ),
        TransactionCommand::Query { tx_id, payload: _ } => query_in_transaction(
            state,
            session_id,
            tx_id,
            decoded.query,
            decoded.params,
            decoded.signature.as_slice(),
        ),
        TransactionCommand::ExecutePrepared { tx_id, call } => match get_prepared_with(
            state,
            session_id,
            call.prepared_id,
            &decoded.params,
        ) {
            Err(e) => Err(e),
            Ok(query) => query_in_transaction(
                state,
                session_id,
                tx_id,
                query,
                decoded.params,
                decoded.signature.as_slice(),
            ),
        },
        TransactionCommand::PreparedQueryPlan { tx_id, call } => match get_prepared_with(
            state,
            session_id,
            call.prepared_id,
            &decoded.params,
        ) {
            Err(e) => Err(e),
            Ok(query) => plan_in_transaction(state, session_id, tx_id, query, decoded.params),
        },
        TransactionCommand::PreparedQueryRoute { tx_id, call } => route_in_transaction(
            state,
            session_id,
            tx_id,
            call.prepared_id,
            &decoded.params,
            facts,
        ),
        TransactionCommand::DistributedQuery { tx_id, payload: _ } => distributed_in_transaction(
            state,
            session_id,
            tx_id,
            decoded.query,
            decoded.params,
        ),
        TransactionCommand::QueryPlan { tx_id, payload: _ } => plan_in_transaction(
            state,
            session_id,
            tx_id,
            decoded.query,
            decoded.params,
        ),
        TransactionCommand::Commit { tx_id } => commit_transaction(
            state,
            session_id,
            tx_id,
            &facts.commit,
            peers,
        ),
        TransactionCommand::Rollback { tx_id } => rollback_transaction(state, session_id, tx_id),
        TransactionCommand::Kill { tx_id } => kill_transaction(state, tx_id),
        TransactionCommand::Status { tx_id } => tell_status(state, session_id, tx_id),
        TransactionCommand::PrepareWriteBatchShard { shard_id, payload } => prepare_batch(
            state,
            shard_id,
            payload,
            decoded.writes.as_slice(),
            facts,
        ),
        TransactionCommand::CommitPrepared { prepared_id } => take_batch(state, prepared_id, true),
        TransactionCommand::AbortPrepared { prepared_id } => take_batch(state, prepared_id, false),
        TransactionCommand::PreparedStatus { prepared_id } => tell_prepared_status(
            state,
            session_id,
            prepared_id,
        ),
        TransactionCommand::ListPrepared => {
            let infos = state.prepared_transactions.list();
            Ok(CommandStep::Answer(format_prepared_tx_list(infos.as_slice())))
        },
        TransactionCommand::List => {
            let infos = state.transactions.list(session_id);
            Ok(CommandStep::Answer(format_tx_list(infos.as_slice())))
        },
        TransactionCommand::ListAll => {
            let infos = state.transactions.list_all();
            Ok(CommandStep::Answer(format_tx_list_all(infos.as_slice())))
        },
    }
}

/// Whether a command names a transaction by its number, to do something with it.
pub open spec fn names_transaction(command: TxCommand) -> Option<u64> {
    match command {
        TxCommand::Query { tx_id, .. } => Some(tx_id),
        TxCommand::ExecutePrepared { tx_id, .. } => Some(tx_id),
        TxCommand::PreparedQueryPlan { tx_id, .. } => Some(tx_id),
        TxCommand::PreparedQueryRoute { tx_id, .. } => Some(tx_id),
        TxCommand::DistributedQuery { tx_id, .. } => Some(tx_id),
        TxCommand::QueryPlan { tx_id, .. } => Some(tx_id),
        TxCommand::Commit { tx_id } => Some(tx_id),
        TxCommand::Rollback { tx_id } => Some(tx_id),
        TxCommand::Status { tx_id } => Some(tx_id),
        _ => None,
    }
}

/// A command of one session leaves the transactions of the others as they are, unless it
/// kills one; and a command that names a transaction of another session is refused.
pub proof fn commands_stay_in_their_session(
    o: Open,
    session_id: u64,
    command: TxCommand,
    decoded: Decoded,
    facts: CommandFacts,
    peers: Map<u64, Seq<char>>,
    other: u64,
)
    requires
        o.transactions.dom().contains(other),
        o.transactions[other].session_id != session_id,
        o.last_transaction < u64::MAX,
        other <= o.last_transaction,
        !(command is Kill),
    ensures
        ({
            let e = tx_effect(o, session_id, command, decoded, facts, peers);
            e.open.transactions.dom().contains(other) && e.open.transactions[other]
                == o.transactions[other] && (names_transaction(command) == Some(other)
                ==> e.next is Err && e.open == o)
        }),
{
}

/// What a command on prepared queries comes to.
pub open spec fn prepared_effect(
    o: Open,
    session_id: u64,
    command: QueryCommand,
    params: Map<Seq<char>, Val>,
    facts: CommandFacts,
) -> Effect {
    match command {
        QueryCommand::Prepare { query } => {
            let prepared_id = (o.last_query + 1) as u64;
            Effect {
                open: Open {
                    queries: o.queries.insert(prepared_id, PreparedQuery { session_id, query }),
                    last_query: prepared_id,
                    ..o
                },
                next: Ok(Next::Answer("OK\tPREPARED_QUERY\t"@ + dec(prepared_id as nat))),
            }
        },
        QueryCommand::Execute { call } => unchanged(
            o,
            match prepared_with(o, session_id, call.prepared_id, params) {
                Err(e) => Err(e),
                Ok(query) => Ok(Next::RunPrepared { query, params }),
            },
        ),
        QueryCommand::QueryPlan { call } => unchanged(
            o,
            match prepared_with(o, session_id, call.prepared_id, params) {
                Err(e) => Err(e),
                Ok(query) => Ok(Next::PlanQuery { query, params, context: None }),
            },
        ),
        QueryCommand::Route { call } => unchanged(
            o,
            match prepared_with(o, session_id, call.prepared_id, params) {
                Err(e) => Err(e),
                Ok(query) => match routing_with_params(
                    query,
                    facts.routing,
                    node_hash(facts.key, query, params),
                ) {
                    Err(e) => Err(e),
                    Ok(hint) => Ok(Next::Answer(route_text(call.prepared_id as nat, hint))),
                },
            },
        ),
        QueryCommand::Describe { prepared_id } => unchanged(
            o,
            match query_of(o.queries, session_id, prepared_id) {
                Err(e) => Err(e),
                Ok(query) => match routing_without_params(
                    query,
                    facts.routing,
                    node_hash(facts.key, query, Map::empty()),
                ) {
                    Err(e) => Err(e),
                    Ok(hint) => Ok(
                        Next::Answer(
                            description(
                                prepared_id as nat,
                                query,
                                hint,
                                names_in_order(query_parameters(query)),
                            ),
                        ),
                    ),
                },
            },
        ),
        QueryCommand::Close { prepared_id } => match query_of(o.queries, session_id, prepared_id) {
            Err(e) => unchanged(o, Err(e)),
            Ok(_) => Effect {
                open: Open { queries: o.queries.remove(prepared_id), ..o },
                next: Ok(
                    Next::Answer("OK\tPREPARED_QUERY_CLOSED\t"@ + dec(prepared_id as nat)),
                ),
            },
        },
        QueryCommand::List => {
            let infos = session_queries(sorted(o.queries), session_id);
            unchanged(
                o,
                Ok(
                    Next::Answer(
                        "OK\tPREPARED_QUERY_LIST\t"@ + dec(infos.len()) + "\t"@ + join(
                            listed_queries(infos),
                            ","@,
                        ),
                    ),
                ),
            )
        },
    }
}

fn route_prepared(
    state: &NativeState,
    session_id: u64,
    prepared_id: u64,
    params: &QueryParams,
    facts: &CommandFacts,
) -> (r: Result<CommandStep, String>)
    requires
        state.well_formed(),
        params.well_formed(),
    ensures
        step_view(r) == (match prepared_with(state@, session_id, prepared_id, params@) {
            Err(e) => Err(e),
            Ok(query) => match routing_with_params(
                query,
                facts.routing,
                node_hash(facts.key, query, params@),
            ) {
                Err(e) => Err(e),
                Ok(hint) => Ok(Next::Answer(route_text(prepared_id as nat, hint))),
            },
        }),
{
    let query = match get_prepared_with(state, session_id, prepared_id, params) {
        Err(e) => return Err(e),
        Ok(q) => q,
    };
    match prepared_query_routing_hint_with_params(
        query.as_str(),
        params,
        &facts.routing,
        &facts.key,
    ) {
        Err(e) => Err(e),
        Ok(hint) => Ok(
            CommandStep::Answer(format_prepared_query_route(prepared_id, hint.as_str())),
        ),
    }
}

fn describe_prepared(state: &NativeState, session_id: u64, prepared_id: u64, facts: &CommandFacts) -> (r:
    Result<CommandStep, String>)
    requires
        state.well_formed(),
    ensures
        step_view(r) == (match query_of(state@.queries, session_id, prepared_id) {
            Err(e) => Err(e),
            Ok(query) => match routing_without_params(
                query,
                facts.routing,
                node_hash(facts.key, query, Map::<Seq<char>, Val>::empty()),
            ) {
                Err(e) => Err(e),
                Ok(hint) => Ok(
                    Next::Answer(
                        description(
                            prepared_id as nat,
                            query,
                            hint,
                            names_in_order(query_parameters(query)),
                        ),
                    ),
                ),
            },
        }),
{
    let query = match state.prepared_queries.get(session_id, prepared_id) {
        Err(e) => return Err(e),
        Ok(q) => q,
    };
    match prepared_query_routing_hint(query.as_str(), &facts.routing, &facts.key) {
        Err(e) => Err(e),
        Ok(hint) => {
            let names = describe_query_parameters(query.as_str());
            Ok(
                CommandStep::Answer(
                    format_prepared_query_describe(
                        prepared_id,
                        query.as_str(),
                        hint.as_str(),
                        names.as_slice(),
                    ),
                ),
            )
        },
    }
}

/// Carries out a command on prepared queries, up to what has to be done outside. The
/// parameters are what the text of the command decodes to.
pub fn execute_prepared_query_command(
    state: &mut NativeState,
    session_id: u64,
    command: PreparedQueryCommand,
    params: QueryParams,
    facts: &CommandFacts,
) -> (r: Result<CommandStep, String>)
    requires
        old(state).well_formed(),
        params.well_formed(),
        old(state)@.last_query < u64::MAX,
    ensures
        final(state).well_formed(),
        (Effect { open: final(state)@, next: step_view(r) }) == prepared_effect(
            old(state)@,
            session_id,
            command@,
            params@,
            *facts,
        ),
{
    match command {
        PreparedQueryCommand::Prepare { query } => {
            let prepared_id = state.prepared_queries.prepare(session_id, query);
            Ok(
                CommandStep::Answer(
                    cat("OK\tPREPARED_QUERY\t", show(prepared_id as u128).as_str()),
                ),
            )
        },
        PreparedQueryCommand::Execute { call } => match get_prepared_with(
            state,
            session_id,
            call.prepared_id,
            &params,
        ) {
            Err(e) => Err(e),
            Ok(query) => Ok(CommandStep::RunPrepared { query, params }),
        },
        PreparedQueryCommand::QueryPlan { call } => match get_prepared_with(
            state,
            session_id,
            call.prepared_id,
            &params,
        ) {
            Err(e) => Err(e),
            Ok(query) => Ok(CommandStep::PlanQuery { query, params, context: None }),
        },
        PreparedQueryCommand::Route { call } => route_prepared(
            state,
            session_id,
            call.prepared_id,
            &params,
            facts,
        ),
        PreparedQueryCommand::Describe { prepared_id } => describe_prepared(
            state,
            session_id,
            prepared_id,
            facts,
        ),
        PreparedQueryCommand::Close { prepared_id } => match state.prepared_queries.close(
            session_id,
            prepared_id,
        ) {
            Err(e) => Err(e),
            Ok(_) => Ok(
                CommandStep::Answer(
                    cat("OK\tPREPARED_QUERY_CLOSED\t", show(prepared_id as u128).as_str()),
                ),
            ),
        },
        PreparedQueryCommand::List => {
            let infos = state.prepared_queries.list(session_id);
            assert(crate::prepared::query_infos(infos@).len() == infos@.len());
            Ok(CommandStep::Answer(format_prepared_query_list(infos.as_slice())))
        },
    }
}

/// What is left open when a session has gone: nothing of its own.
pub open spec fn without(o: Open, session_id: u64) -> Open {
    Open {
        transactions: crate::transactions::session_closed(o.transactions, session_id),
        queries: crate::prepared::queries_closed(o.queries, session_id),
        ..o
    }
}

/// Forgets what a session has open.
pub fn close_native_session(state: &mut NativeState, session_id: u64)
    requires
        old(state).well_formed(),
    ensures
        final(state).well_formed(),
        final(state)@ == without(old(state)@, session_id),
{
    let _ = state.transactions.close_session(session_id);
    let _ = state.prepared_queries.close_session(session_id);
}

/// Whether the number of every open transaction was given out.
pub open spec fn numbered(o: Open) -> bool {
    forall|k: u64| #[trigger] o.transactions.dom().contains(k) ==> k <= o.last_transaction
}

impl NativeState {
    /// The number of every transaction that sessions have open was given out.
    pub proof fn open_transactions_are_numbered(&self)
        requires
            self.well_formed(),
        ensures
            numbered(self@),
    {
        self.transactions.open_numbers_were_given_out();
    }
}

/// What changes what sessions have open.
pub enum Happening {
    /// A session gives a command on transactions.
    Transaction {
        session_id: u64,
        command: TxCommand,
        decoded: Decoded,
        facts: CommandFacts,
        peers: Map<u64, Seq<char>>,
    },
    /// A session gives a command on prepared queries.
    Query {
        session_id: u64,
        command: QueryCommand,
        params: Map<Seq<char>, Val>,
        facts: CommandFacts,
    },
    /// A session begins.
    SessionBegins,
    /// A session has gone.
    SessionEnds { session_id: u64 },
    /// Prepared batches are loaded, put back or dropped.
    Batches { batches: Map<u64, Batch>, last_batch: u64 },
}

/// What sessions have open after something has happened.
pub open spec fn after(o: Open, h: Happening) -> Open {
    match h {
        Happening::Transaction { session_id, command, decoded, facts, peers } => tx_effect(
            o,
            session_id,
            command,
            decoded,
            facts,
            peers,
        ).open,
        Happening::Query { session_id, command, params, facts } => prepared_effect(
            o,
            session_id,
            command,
            params,
            facts,
        ).open,
        Happening::SessionBegins => Open { last_session: (o.last_session + 1) as u64, ..o },
        Happening::SessionEnds { session_id } => without(o, session_id),
        Happening::Batches { batches, last_batch } => Open { batches, last_batch, ..o },
    }
}

/// What sessions have open after several things have happened.
pub open spec fn after_all(o: Open, happenings: Seq<Happening>) -> Open
    decreases happenings.len(),
{
    if happenings.len() == 0 {
        o
    } else {
        after(after_all(o, happenings.drop_last()), happenings.last())
    }
}

proof fn lemma_numbers_are_not_given_again(o: Open, tx_id: u64, h: Happening)
    requires
        numbered(o),
        o.last_transaction < u64::MAX,
        tx_id <= o.last_transaction,
        !o.transactions.dom().contains(tx_id),
    ensures
        numbered(after(o, h)),
        o.last_transaction <= after(o, h).last_transaction <= o.last_transaction + 1,
        !after(o, h).transactions.dom().contains(tx_id),
{
}

/// A number that was given to a transaction, and that no open transaction has, stays without
/// one whatever happens later: a command that names it is refused in every session and changes
/// nothing, and one that commits, rolls back, kills, asks for or queries it is told that there
/// is no such transaction. (As long as there are numbers to give out.)
pub proof fn closed_numbers_stay_unknown(
    o: Open,
    tx_id: u64,
    happenings: Seq<Happening>,
    session_id: u64,
    command: TxCommand,
    decoded: Decoded,
    facts: CommandFacts,
    peers: Map<u64, Seq<char>>,
)
    requires
        numbered(o),
        tx_id <= o.last_transaction,
        !o.transactions.dom().contains(tx_id),
        o.last_transaction + happenings.len() <= u64::MAX,
    ensures
        ({
            let later = after_all(o, happenings);
            let e = tx_effect(later, session_id, command, decoded, facts, peers);
            &&& numbered(later)
            &&& o.last_transaction <= later.last_transaction <= o.last_transaction
                + happenings.len()
            &&& !later.transactions.dom().contains(tx_id)
            &&& names_transaction(command) == Some(tx_id) || command == (TxCommand::Kill { tx_id })
                ==> e.next is Err && e.open == later
            &&& ({
                ||| command matches TxCommand::Query { tx_id: n, .. } && n == tx_id
                ||| command matches TxCommand::QueryPlan { tx_id: n, .. } && n == tx_id
                ||| command == (TxCommand::Commit { tx_id })
                ||| command == (TxCommand::Rollback { tx_id })
                ||| command == (TxCommand::Kill { tx_id })
                ||| command == (TxCommand::Status { tx_id })
            }) ==> e.next == Err::<Next, Seq<char>>(unknown_transaction(tx_id))
        }),
    decreases happenings.len(),
{
    if happenings.len() > 0 {
        let front = happenings.drop_last();
        closed_numbers_stay_unknown(
            o,
            tx_id,
            front,
            session_id,
            command,
            decoded,
            facts,
            peers,
        );
        lemma_numbers_are_not_given_again(after_all(o, front), tx_id, happenings.last());
    }
}

/// What became of one transaction when it was closed: it is not there any more, and the others
/// are as they were.
pub open spec fn only_closed(o: Open, tx_id: u64, now: Open) -> bool {
    now == (Open { transactions: o.transactions.remove(tx_id), ..o })
}

/// A transaction that was rolled back has none of its writes carried out, and is gone for good:
/// whatever happens later, a command that names it is refused. The other transactions are as
/// they were.
pub proof fn rolled_back_transactions_are_gone(
    o: Open,
    session_id: u64,
    tx_id: u64,
    happenings: Seq<Happening>,
    later_session: u64,
    command: TxCommand,
    decoded: Decoded,
    facts: CommandFacts,
    peers: Map<u64, Seq<char>>,
)
    requires
        numbered(o),
        open_in(o.transactions, session_id, tx_id) is Some,
        o.last_transaction + happenings.len() <= u64::MAX,
        names_transaction(command) == Some(tx_id),
    ensures
        ({
            let rolled = tx_effect(
                o,
                session_id,
                TxCommand::Rollback { tx_id },
                decoded,
                facts,
                peers,
            );
            let later = after_all(rolled.open, happenings);
            let e = tx_effect(later, later_session, command, decoded, facts, peers);
            &&& rolled.next == Ok::<Next, Seq<char>>(
                Next::Answer("OK\tTX_ROLLBACK\t"@ + dec(tx_id as nat)),
            )
            &&& only_closed(o, tx_id, rolled.open)
            &&& !later.transactions.dom().contains(tx_id)
            &&& e.next is Err && e.open == later
            &&& command is Commit || command is Rollback || command is Status || command is Query
                ==> e.next == Err::<Next, Seq<char>>(unknown_transaction(tx_id))
        }),
{
    let rolled = rollback_effect(o, session_id, tx_id);
    closed_numbers_stay_unknown(
        rolled.open,
        tx_id,
        happenings,
        later_session,
        command,
        decoded,
        facts,
        peers,
    );
}

/// A transaction whose commit was begun hands its writes out once and is gone for good: whatever
/// happens later, a command that names it is refused, so that no write is committed twice. The
/// other transactions are as they were.
pub proof fn committed_transactions_are_gone(
    o: Open,
    session_id: u64,
    tx_id: u64,
    commit: CommandFacts,
    happenings: Seq<Happening>,
    later_session: u64,
    command: TxCommand,
    decoded: Decoded,
    facts: CommandFacts,
    peers: Map<u64, Seq<char>>,
)
    requires
        numbered(o),
        open_in(o.transactions, session_id, tx_id) is Some,
        commit_targets(o.transactions[tx_id], commit.commit) is Ok,
        o.last_transaction + happenings.len() <= u64::MAX,
        names_transaction(command) == Some(tx_id),
    ensures
        ({
            let begun = tx_effect(
                o,
                session_id,
                TxCommand::Commit { tx_id },
                decoded,
                commit,
                peers,
            );
            let later = after_all(begun.open, happenings);
            let e = tx_effect(later, later_session, command, decoded, facts, peers);
            &&& begun.next matches Ok(next) ==> next matches Next::Commit { writes, .. } && writes
                == o.transactions[tx_id].writes
            &&& only_closed(o, tx_id, begun.open)
            &&& !later.transactions.dom().contains(tx_id)
            &&& e.next is Err && e.open == later
            &&& command is Commit || command is Rollback || command is Status || command is Query
                ==> e.next == Err::<Next, Seq<char>>(unknown_transaction(tx_id))
        }),
{
    let begun = commit_effect(o, session_id, tx_id, commit.commit, peers);
    closed_numbers_stay_unknown(
        begun.open,
        tx_id,
        happenings,
        later_session,
        command,
        decoded,
        facts,
        peers,
    );
}

} // verus!
