//! The commands of the native protocol that speak of transactions and prepared queries.
//!
//! A command keeps the texts of queries, parameters and batches of writes as they came; they
//! are decoded when the command is carried out.

use vstd::prelude::*;

use crate::http::opt_text;
use crate::native::{cursor_number, parse_cursor_id};
use crate::text::{blank, cat, same, split_first, split_once, trim, views, words, words_of};

verus! {

/// Whether a transaction may write.
#[derive(Clone, Copy, PartialEq, Eq, Structural, Debug)]
pub enum TransactionMode {
    ReadOnly,
    ReadWrite,
}

/// What a transaction sees of the writes of others.
#[derive(Clone, Copy, PartialEq, Eq, Structural, Debug)]
pub enum ReadIsolation {
    ReadCommitted,
    Snapshot,
}

/// How a mode is named.
pub open spec fn mode_text(mode: TransactionMode) -> Seq<char> {
    match mode {
        TransactionMode::ReadOnly => "READ_ONLY"@,
        TransactionMode::ReadWrite => "READ_WRITE"@,
    }
}

/// Names a mode.
pub fn format_transaction_mode(mode: TransactionMode) -> (r: &'static str)
    ensures
        r@ == mode_text(mode),
{
    match mode {
        TransactionMode::ReadOnly => "READ_ONLY",
        TransactionMode::ReadWrite => "READ_WRITE",
    }
}

/// How an isolation is named.
pub open spec fn isolation_text(isolation: ReadIsolation) -> Seq<char> {
    match isolation {
        ReadIsolation::ReadCommitted => "READ_COMMITTED"@,
        ReadIsolation::Snapshot => "SNAPSHOT"@,
    }
}

/// Names an isolation.
pub fn format_read_isolation(isolation: ReadIsolation) -> (r: &'static str)
    ensures
        r@ == isolation_text(isolation),
{
    match isolation {
        ReadIsolation::ReadCommitted => "READ_COMMITTED",
        ReadIsolation::Snapshot => "SNAPSHOT",
    }
}

/// The options of a transaction, read word by word: each takes the place of what was before.
pub open spec fn begin_options(
    options: Seq<Seq<char>>,
    mode: TransactionMode,
    isolation: ReadIsolation,
) -> Result<(TransactionMode, ReadIsolation), Seq<char>>
    decreases options.len(),
{
    if options.len() == 0 {
        Ok((mode, isolation))
    } else {
        let option = options[0];
        let rest = options.skip(1);
        if option == "READ_ONLY"@ {
            begin_options(rest, TransactionMode::ReadOnly, isolation)
        } else if option == "READ_WRITE"@ {
            begin_options(rest, TransactionMode::ReadWrite, isolation)
        } else if option == "SNAPSHOT"@ {
            begin_options(rest, mode, ReadIsolation::Snapshot)
        } else if option == "READ_COMMITTED"@ {
            begin_options(rest, mode, ReadIsolation::ReadCommitted)
        } else {
            Err("unsupported transaction option: "@ + option)
        }
    }
}

/// Reads the options of a transaction.
pub fn parse_tx_begin_options(value: &str) -> (r: Result<(TransactionMode, ReadIsolation), String>)
    ensures
        match r {
            Ok(o) => begin_options(
                words(value@),
                TransactionMode::ReadOnly,
                ReadIsolation::Snapshot,
            ) == Ok::<(TransactionMode, ReadIsolation), Seq<char>>(o),
            Err(e) => begin_options(
                words(value@),
                TransactionMode::ReadOnly,
                ReadIsolation::Snapshot,
            ) == Err::<(TransactionMode, ReadIsolation), Seq<char>>(e@),
        },
{
    let options = words_of(value);
    let mut mode = TransactionMode::ReadOnly;
    let mut isolation = ReadIsolation::Snapshot;
    let mut i: usize = 0;
    let ghost all = views(options@);
    assert(all.skip(0) =~= all);
    while i < options.len()
        invariant
            0 <= i <= options@.len(),
            all == views(options@),
            all == words(value@),
            begin_options(all, TransactionMode::ReadOnly, ReadIsolation::Snapshot)
                == begin_options(all.skip(i as int), mode, isolation),
        decreases options@.len() - i,
    {
        let option = options[i].as_str();
        assert(all.skip(i as int)[0] == option@);
        assert(all.skip(i as int).skip(1) =~= all.skip(i + 1));
        if same(option, "READ_ONLY") {
            mode = TransactionMode::ReadOnly;
        } else if same(option, "READ_WRITE") {
            mode = TransactionMode::ReadWrite;
        } else if same(option, "SNAPSHOT") {
            isolation = ReadIsolation::Snapshot;
        } else if same(option, "READ_COMMITTED") {
            isolation = ReadIsolation::ReadCommitted;
        } else {
            return Err(cat("unsupported transaction option: ", option));
        }
        i = i + 1;
    }
    Ok((mode, isolation))
}

/// A prepared query that is to be used, with the text of its parameters, if any.
pub struct PreparedCall {
    pub prepared_id: u64,
    pub params: Option<String>,
}

/// The contents of a prepared query that is to be used.
pub struct Prepared {
    pub prepared_id: u64,
    pub params: Option<Seq<char>>,
}

impl PreparedCall {
    pub open spec fn view(&self) -> Prepared {
        Prepared { prepared_id: self.prepared_id, params: opt_text(self.params) }
    }
}

/// The prepared query that a payload uses. The text of the parameters has the form of a
/// query whose text is a single mark.
pub open spec fn prepared_call(payload: Seq<char>) -> Result<Prepared, Seq<char>> {
    match split_once(payload, "\t"@) {
        None => match cursor_number(payload) {
            Err(e) => Err(e),
            Ok(n) => Ok(Prepared { prepared_id: n as u64, params: None }),
        },
        Some((id, params)) => match cursor_number(id) {
            Err(e) => Err(e),
            Ok(n) => Ok(Prepared { prepared_id: n as u64, params: Some("_\t"@ + params) }),
        },
    }
}

/// Reads which prepared query is to be used.
pub fn parse_prepared_query_execute_payload(payload: &str) -> (r: Result<PreparedCall, String>)
    ensures
        match r {
            Ok(c) => prepared_call(payload@) == Ok::<Prepared, Seq<char>>(c@),
            Err(e) => prepared_call(payload@) == Err::<Prepared, Seq<char>>(e@),
        },
{
    match split_first(payload, "\t") {
        None => match parse_cursor_id(payload) {
            Err(e) => Err(e),
            Ok(prepared_id) => Ok(PreparedCall { prepared_id, params: None }),
        },
        Some((id, params)) => match parse_cursor_id(id.as_str()) {
            Err(e) => Err(e),
            Ok(prepared_id) => Ok(
                PreparedCall { prepared_id, params: Some(cat("_\t", params.as_str())) },
            ),
        },
    }
}

/// A command on prepared queries.
pub enum PreparedQueryCommand {
    Prepare { query: String },
    Execute { call: PreparedCall },
    QueryPlan { call: PreparedCall },
    Route { call: PreparedCall },
    Describe { prepared_id: u64 },
    Close { prepared_id: u64 },
    List,
}

/// The contents of a command on prepared queries.
pub enum QueryCommand {
    Prepare { query: Seq<char> },
    Execute { call: Prepared },
    QueryPlan { call: Prepared },
    Route { call: Prepared },
    Describe { prepared_id: u64 },
    Close { prepared_id: u64 },
    List,
}

impl PreparedQueryCommand {
    pub open spec fn view(&self) -> QueryCommand {
        match *self {
            PreparedQueryCommand::Prepare { query } => QueryCommand::Prepare { query: query@ },
            PreparedQueryCommand::Execute { call } => QueryCommand::Execute { call: call@ },
            PreparedQueryCommand::QueryPlan { call } => QueryCommand::QueryPlan { call: call@ },
            PreparedQueryCommand::Route { call } => QueryCommand::Route { call: call@ },
            PreparedQueryCommand::Describe { prepared_id } => QueryCommand::Describe {
                prepared_id,
            },
            PreparedQueryCommand::Close { prepared_id } => QueryCommand::Close { prepared_id },
            PreparedQueryCommand::List => QueryCommand::List,
        }
    }
}

/// The command on prepared queries that a payload holds, if it holds one.
pub open spec fn query_command(payload: Seq<char>) -> Result<Option<QueryCommand>, Seq<char>> {
    match split_once(payload, "\t"@) {
        None => if payload == "LIST_PREPARED"@ {
            Ok(Some(QueryCommand::List))
        } else {
            Ok(None)
        },
        Some((command, rest)) => if command == "PREPARE_QUERY"@ {
            if trim(rest).len() == 0 {
                Err("PREPARE_QUERY requires a cypher string"@)
            } else {
                Ok(Some(QueryCommand::Prepare { query: rest }))
            }
        } else if command == "EXECUTE_PREPARED"@ {
            match prepared_call(rest) {
                Err(e) => Err(e),
                Ok(call) => Ok(Some(QueryCommand::Execute { call })),
            }
        } else if command == "PREPARED_QUERY_PLAN"@ {
            match prepared_call(rest) {
                Err(e) => Err(e),
                Ok(call) => Ok(Some(QueryCommand::QueryPlan { call })),
            }
        } else if command == "PREPARED_QUERY_ROUTE"@ {
            match prepared_call(rest) {
                Err(e) => Err(e),
                Ok(call) => Ok(Some(QueryCommand::Route { call })),
            }
        } else if command == "DESCRIBE_PREPARED"@ {
            match cursor_number(rest) {
                Err(e) => Err(e),
                Ok(n) => Ok(Some(QueryCommand::Describe { prepared_id: n as u64 })),
            }
        } else if command == "CLOSE_PREPARED"@ {
            match cursor_number(rest) {
                Err(e) => Err(e),
                Ok(n) => Ok(Some(QueryCommand::Close { prepared_id: n as u64 })),
            }
        } else if command == "LIST_PREPARED"@ {
            if trim(rest).len() == 0 {
                Ok(Some(QueryCommand::List))
            } else {
                Err("LIST_PREPARED does not take arguments"@)
            }
        } else {
            Ok(None)
        },
    }
}

/// Reads a command on prepared queries.
pub fn parse_prepared_query_command(payload: &str) -> (r: Result<Option<PreparedQueryCommand>, String>)
    ensures
        match r {
            Ok(Some(c)) => query_command(payload@) == Ok::<Option<QueryCommand>, Seq<char>>(
                Some(c@),
            ),
            Ok(None) => query_command(payload@) == Ok::<Option<QueryCommand>, Seq<char>>(None),
            Err(e) => query_command(payload@) == Err::<Option<QueryCommand>, Seq<char>>(e@),
        },
{
    let (command, rest) = match split_first(payload, "\t") {
        None => {
            if same(payload, "LIST_PREPARED") {
                return Ok(Some(PreparedQueryCommand::List));
            }
            return Ok(None);
        },
        Some(p) => p,
    };
    if same(command.as_str(), "PREPARE_QUERY") {
        if blank(rest.as_str()) {
            return Err("PREPARE_QUERY requires a cypher string".to_owned());
        }
        return Ok(Some(PreparedQueryCommand::Prepare { query: rest }));
    }
    if same(command.as_str(), "EXECUTE_PREPARED") {
        return match parse_prepared_query_execute_payload(rest.as_str()) {
            Err(e) => Err(e),
            Ok(call) => Ok(Some(PreparedQueryCommand::Execute { call })),
        };
    }
    if same(command.as_str(), "PREPARED_QUERY_PLAN") {
        return match parse_prepared_query_execute_payload(rest.as_str()) {
            Err(e) => Err(e),
            Ok(call) => Ok(Some(PreparedQueryCommand::QueryPlan { call })),
        };
    }
    if same(command.as_str(), "PREPARED_QUERY_ROUTE") {
        return match parse_prepared_query_execute_payload(rest.as_str()) {
            Err(e) => Err(e),
            Ok(call) => Ok(Some(PreparedQueryCommand::Route { call })),
        };
    }
    if same(command.as_str(), "DESCRIBE_PREPARED") {
        return match parse_cursor_id(rest.as_str()) {
            Err(e) => Err(e),
            Ok(prepared_id) => Ok(Some(PreparedQueryCommand::Describe { prepared_id })),
        };
    }
    if same(command.as_str(), "CLOSE_PREPARED") {
        return match parse_cursor_id(rest.as_str()) {
            Err(e) => Err(e),
            Ok(prepared_id) => Ok(Some(PreparedQueryCommand::Close { prepared_id })),
        };
    }
    if same(command.as_str(), "LIST_PREPARED") {
        if blank(rest.as_str()) {
            return Ok(Some(PreparedQueryCommand::List));
        }
        return Err("LIST_PREPARED does not take arguments".to_owned());
    }
    Ok(None)
}

/// A command on transactions.
pub enum TransactionCommand {
    Begin { mode: TransactionMode, isolation: ReadIsolation },
    Query { tx_id: u64, payload: String },
    DistributedQuery { tx_id: u64, payload: String },
    QueryPlan { tx_id: u64, payload: String },
    ExecutePrepared { tx_id: u64, call: PreparedCall },
    PreparedQueryPlan { tx_id: u64, call: PreparedCall },
    PreparedQueryRoute { tx_id: u64, call: PreparedCall },
    Commit { tx_id: u64 },
    Rollback { tx_id: u64 },
    Kill { tx_id: u64 },
    Status { tx_id: u64 },
    CommitPrepared { prepared_id: u64 },
    AbortPrepared { prepared_id: u64 },
    PreparedStatus { prepared_id: u64 },
    PrepareWriteBatchShard { shard_id: u64, payload: String },
    ListPrepared,
    List,
    ListAll,
}

/// The contents of a command on transactions.
pub enum TxCommand {
    Begin { mode: TransactionMode, isolation: ReadIsolation },
    Query { tx_id: u64, payload: Seq<char> },
    DistributedQuery { tx_id: u64, payload: Seq<char> },
    QueryPlan { tx_id: u64, payload: Seq<char> },
    ExecutePrepared { tx_id: u64, call: Prepared },
    PreparedQueryPlan { tx_id: u64, call: Prepared },
    PreparedQueryRoute { tx_id: u64, call: Prepared },
    Commit { tx_id: u64 },
    Rollback { tx_id: u64 },
    Kill { tx_id: u64 },
    Status { tx_id: u64 },
    CommitPrepared { prepared_id: u64 },
    AbortPrepared { prepared_id: u64 },
    PreparedStatus { prepared_id: u64 },
    PrepareWriteBatchShard { shard_id: u64, payload: Seq<char> },
    ListPrepared,
    List,
    ListAll,
}

impl TransactionCommand {
    pub open spec fn view(&self) -> TxCommand {
        match *self {
            TransactionCommand::Begin { mode, isolation } => TxCommand::Begin { mode, isolation },
            TransactionCommand::Query { tx_id, payload } => TxCommand::Query {
                tx_id,
                payload: payload@,
            },
            TransactionCommand::DistributedQuery { tx_id, payload } => TxCommand::DistributedQuery {
                tx_id,
                payload: payload@,
            },
            TransactionCommand::QueryPlan { tx_id, payload } => TxCommand::QueryPlan {
                tx_id,
                payload: payload@,
            },
            TransactionCommand::ExecutePrepared { tx_id, call } => TxCommand::ExecutePrepared {
                tx_id,
                call: call@,
            },
            TransactionCommand::PreparedQueryPlan { tx_id, call } => TxCommand::PreparedQueryPlan {
                tx_id,
                call: call@,
            },
            TransactionCommand::PreparedQueryRoute { tx_id, call } => TxCommand::PreparedQueryRoute {
                tx_id,
                call: call@,
            },
            TransactionCommand::Commit { tx_id } => TxCommand::Commit { tx_id },
            TransactionCommand::Rollback { tx_id } => TxCommand::Rollback { tx_id },
            TransactionCommand::Kill { tx_id } => TxCommand::Kill { tx_id },
            TransactionCommand::Status { tx_id } => TxCommand::Status { tx_id },
            TransactionCommand::CommitPrepared { prepared_id } => TxCommand::CommitPrepared { prepared_id },
            TransactionCommand::AbortPrepared { prepared_id } => TxCommand::AbortPrepared { prepared_id },
            TransactionCommand::PreparedStatus { prepared_id } => TxCommand::PreparedStatus { prepared_id },
            TransactionCommand::PrepareWriteBatchShard { shard_id, payload } => TxCommand::PrepareWriteBatchShard {
                shard_id,
                payload: payload@,
            },
            TransactionCommand::ListPrepared => TxCommand::ListPrepared,
            TransactionCommand::List => TxCommand::List,
            TransactionCommand::ListAll => TxCommand::ListAll,
        }
    }
}

/// The number and the rest of what stands behind a command.
pub open spec fn numbered(rest: Seq<char>, missing: Seq<char>) -> Result<(u64, Seq<char>), Seq<char>> {
    match split_once(rest, "\t"@) {
        None => Err(missing),
        Some((id, payload)) => match cursor_number(id) {
            Err(e) => Err(e),
            Ok(n) => Ok((n as u64, payload)),
        },
    }
}

fn read_numbered(rest: &str, missing: &str) -> (r: Result<(u64, String), String>)
    ensures
        match r {
            Ok((n, payload)) => numbered(rest@, missing@) == Ok::<(u64, Seq<char>), Seq<char>>(
                (n, payload@),
            ),
            Err(e) => numbered(rest@, missing@) == Err::<(u64, Seq<char>), Seq<char>>(e@),
        },
{
    match split_first(rest, "\t") {
        None => Err(missing.to_owned()),
        Some((id, payload)) => match parse_cursor_id(id.as_str()) {
            Err(e) => Err(e),
            Ok(n) => Ok((n, payload)),
        },
    }
}

/// The prepared query that is used in a transaction.
pub open spec fn numbered_call(rest: Seq<char>, missing: Seq<char>) -> Result<
    (u64, Prepared),
    Seq<char>,
> {
    match numbered(rest, missing) {
        Err(e) => Err(e),
        Ok((tx_id, payload)) => match prepared_call(payload) {
            Err(e) => Err(e),
            Ok(call) => Ok((tx_id, call)),
        },
    }
}

fn read_numbered_call(rest: &str, missing: &str) -> (r: Result<(u64, PreparedCall), String>)
    ensures
        match r {
            Ok((n, call)) => numbered_call(rest@, missing@) == Ok::<(u64, Prepared), Seq<char>>(
                (n, call@),
            ),
            Err(e) => numbered_call(rest@, missing@) == Err::<(u64, Prepared), Seq<char>>(e@),
        },
{
    match read_numbered(rest, missing) {
        Err(e) => Err(e),
        Ok((tx_id, payload)) => match parse_prepared_query_execute_payload(payload.as_str()) {
            Err(e) => Err(e),
            Ok(call) => Ok((tx_id, call)),
        },
    }
}

/// A command that takes nothing.
pub open spec fn bare_command(rest: Seq<char>, command: TxCommand, refusal: Seq<char>) -> Result<
    Option<TxCommand>,
    Seq<char>,
> {
    if trim(rest).len() == 0 {
        Ok(Some(command))
    } else {
        Err(refusal)
    }
}

/// A command that stands alone.
pub open spec fn lone_command(payload: Seq<char>) -> Option<TxCommand> {
    if payload == "BEGIN_TX"@ {
        Some(
            TxCommand::Begin { mode: TransactionMode::ReadOnly, isolation: ReadIsolation::Snapshot },
        )
    } else if payload == "LIST_TX"@ {
        Some(TxCommand::List)
    } else if payload == "LIST_ALL_TX"@ {
        Some(TxCommand::ListAll)
    } else if payload == "LIST_PREPARED_TX"@ {
        Some(TxCommand::ListPrepared)
    } else {
        None
    }
}

/// A command on the queries of a transaction.
pub open spec fn tx_query_command(command: Seq<char>, rest: Seq<char>) -> Option<
    Result<Option<TxCommand>, Seq<char>>,
> {
    if command == "TX_QUERY"@ {
        Some(
            match numbered(rest, "TX_QUERY requires transaction id and query"@) {
                Err(e) => Err(e),
                Ok((tx_id, payload)) => Ok(Some(TxCommand::Query { tx_id, payload })),
            },
        )
    } else if command == "TX_QUERY_DISTRIBUTED"@ {
        Some(
            match numbered(rest, "TX_QUERY_DISTRIBUTED requires transaction id and query"@) {
                Err(e) => Err(e),
                Ok((tx_id, payload)) => Ok(Some(TxCommand::DistributedQuery { tx_id, payload })),
            },
        )
    } else if command == "TX_QUERY_PLAN"@ {
        Some(
            match numbered(rest, "TX_QUERY_PLAN requires transaction id and query"@) {
                Err(e) => Err(e),
                Ok((tx_id, payload)) => Ok(Some(TxCommand::QueryPlan { tx_id, payload })),
            },
        )
    } else if command == "TX_EXECUTE_PREPARED"@ {
        Some(
            match numbered_call(rest, "TX_EXECUTE_PREPARED requires transaction id and prepared query id"@) {
                Err(e) => Err(e),
                Ok((tx_id, call)) => Ok(Some(TxCommand::ExecutePrepared { tx_id, call })),
            },
        )
    } else if command == "TX_PREPARED_QUERY_PLAN"@ {
        Some(
            match numbered_call(rest, "TX_PREPARED_QUERY_PLAN requires transaction id and prepared query id"@) {
                Err(e) => Err(e),
                Ok((tx_id, call)) => Ok(Some(TxCommand::PreparedQueryPlan { tx_id, call })),
            },
        )
    } else if command == "TX_PREPARED_QUERY_ROUTE"@ {
        Some(
            match numbered_call(rest, "TX_PREPARED_QUERY_ROUTE requires transaction id and prepared query id"@) {
                Err(e) => Err(e),
                Ok((tx_id, call)) => Ok(Some(TxCommand::PreparedQueryRoute { tx_id, call })),
            },
        )
    } else {
        None
    }
}

/// A command on a whole transaction.
pub open spec fn tx_whole_command(command: Seq<char>, rest: Seq<char>) -> Result<
    Option<TxCommand>,
    Seq<char>,
> {
    if command == "COMMIT_TX"@ {
        match cursor_number(rest) {
            Err(e) => Err(e),
            Ok(n) => Ok(Some(TxCommand::Commit { tx_id: n as u64 })),
        }
    } else if command == "ROLLBACK_TX"@ {
        match cursor_number(rest) {
            Err(e) => Err(e),
            Ok(n) => Ok(Some(TxCommand::Rollback { tx_id: n as u64 })),
        }
    } else if command == "KILL_TX"@ {
        match cursor_number(rest) {
            Err(e) => Err(e),
            Ok(n) => Ok(Some(TxCommand::Kill { tx_id: n as u64 })),
        }
    } else if command == "TX_STATUS"@ {
        match cursor_number(rest) {
            Err(e) => Err(e),
            Ok(n) => Ok(Some(TxCommand::Status { tx_id: n as u64 })),
        }
    } else if command == "TX_COMMIT_PREPARED"@ {
        match cursor_number(rest) {
            Err(e) => Err(e),
            Ok(n) => Ok(Some(TxCommand::CommitPrepared { prepared_id: n as u64 })),
        }
    } else if command == "TX_ABORT_PREPARED"@ {
        match cursor_number(rest) {
            Err(e) => Err(e),
            Ok(n) => Ok(Some(TxCommand::AbortPrepared { prepared_id: n as u64 })),
        }
    } else if command == "TX_PREPARED_STATUS"@ {
        match cursor_number(rest) {
            Err(e) => Err(e),
            Ok(n) => Ok(Some(TxCommand::PreparedStatus { prepared_id: n as u64 })),
        }
    } else if command == "TX_PREPARE_WRITE_BATCH_SHARD"@ {
        match numbered(
            rest,
            "TX_PREPARE_WRITE_BATCH_SHARD requires shard id and encoded write batch"@,
        ) {
            Err(e) => Err(e),
            Ok((shard_id, payload)) => Ok(
                Some(TxCommand::PrepareWriteBatchShard { shard_id, payload }),
            ),
        }
    } else if command == "LIST_PREPARED_TX"@ {
        bare_command(rest, TxCommand::ListPrepared, "LIST_PREPARED_TX does not take arguments"@)
    } else if command == "LIST_TX"@ {
        bare_command(rest, TxCommand::List, "LIST_TX does not take arguments"@)
    } else if command == "LIST_ALL_TX"@ {
        bare_command(rest, TxCommand::ListAll, "LIST_ALL_TX does not take arguments"@)
    } else {
        Ok(None)
    }
}

/// The command on transactions that a payload holds, if it holds one.
pub open spec fn tx_command(payload: Seq<char>) -> Result<Option<TxCommand>, Seq<char>> {
    match split_once(payload, "\t"@) {
        None => Ok(lone_command(payload)),
        Some((command, rest)) => if command == "BEGIN_TX"@ {
            match begin_options(words(rest), TransactionMode::ReadOnly, ReadIsolation::Snapshot) {
                Err(e) => Err(e),
                Ok((mode, isolation)) => Ok(Some(TxCommand::Begin { mode, isolation })),
            }
        } else {
            match tx_query_command(command, rest) {
                Some(r) => r,
                None => tx_whole_command(command, rest),
            }
        },
    }
}

/// What an outcome of reading holds.
pub open spec fn read_outcome(r: Result<Option<TransactionCommand>, String>) -> Result<
    Option<TxCommand>,
    Seq<char>,
> {
    match r {
        Ok(Some(c)) => Ok(Some(c@)),
        Ok(None) => Ok(None),
        Err(e) => Err(e@),
    }
}

fn read_lone_command(payload: &str) -> (r: Option<TransactionCommand>)
    ensures
        match r {
            Some(c) => lone_command(payload@) == Some(c@),
            None => lone_command(payload@) is None,
        },
{
    if same(payload, "BEGIN_TX") {
        Some(
            TransactionCommand::Begin {
                mode: TransactionMode::ReadOnly,
                isolation: ReadIsolation::Snapshot,
            },
        )
    } else if same(payload, "LIST_TX") {
        Some(TransactionCommand::List)
    } else if same(payload, "LIST_ALL_TX") {
        Some(TransactionCommand::ListAll)
    } else if same(payload, "LIST_PREPARED_TX") {
        Some(TransactionCommand::ListPrepared)
    } else {
        None
    }
}

fn read_tx_query_command(command: &str, rest: &str) -> (r: Option<
    Result<Option<TransactionCommand>, String>,
>)
    ensures
        match r {
            Some(o) => tx_query_command(command@, rest@) == Some(read_outcome(o)),
            None => tx_query_command(command@, rest@) is None,
        },
{
    if same(command, "TX_QUERY") {
        Some(
            match read_numbered(rest, "TX_QUERY requires transaction id and query") {
                Err(e) => Err(e),
                Ok((tx_id, payload)) => Ok(Some(TransactionCommand::Query { tx_id, payload })),
            },
        )
    } else if same(command, "TX_QUERY_DISTRIBUTED") {
        Some(
            match read_numbered(rest, "TX_QUERY_DISTRIBUTED requires transaction id and query") {
                Err(e) => Err(e),
                Ok((tx_id, payload)) => Ok(Some(TransactionCommand::DistributedQuery { tx_id, payload })),
            },
        )
    } else if same(command, "TX_QUERY_PLAN") {
        Some(
            match read_numbered(rest, "TX_QUERY_PLAN requires transaction id and query") {
                Err(e) => Err(e),
                Ok((tx_id, payload)) => Ok(Some(TransactionCommand::QueryPlan { tx_id, payload })),
            },
        )
    } else if same(command, "TX_EXECUTE_PREPARED") {
        Some(
            match read_numbered_call(rest, "TX_EXECUTE_PREPARED requires transaction id and prepared query id") {
                Err(e) => Err(e),
                Ok((tx_id, call)) => Ok(Some(TransactionCommand::ExecutePrepared { tx_id, call })),
            },
        )
    } else if same(command, "TX_PREPARED_QUERY_PLAN") {
        Some(
            match read_numbered_call(rest, "TX_PREPARED_QUERY_PLAN requires transaction id and prepared query id") {
                Err(e) => Err(e),
                Ok((tx_id, call)) => Ok(Some(TransactionCommand::PreparedQueryPlan { tx_id, call })),
            },
        )
    } else if same(command, "TX_PREPARED_QUERY_ROUTE") {
        Some(
            match read_numbered_call(rest, "TX_PREPARED_QUERY_ROUTE requires transaction id and prepared query id") {
                Err(e) => Err(e),
                Ok((tx_id, call)) => Ok(Some(TransactionCommand::PreparedQueryRoute { tx_id, call })),
            },
        )
    } else {
        None
    }
}

fn read_tx_whole_command(command: &str, rest: &str) -> (r: Result<Option<TransactionCommand>, String>)
    ensures
        read_outcome(r) == tx_whole_command(command@, rest@),
{
    if same(command, "COMMIT_TX") {
        match parse_cursor_id(rest) {
            Err(e) => Err(e),
            Ok(tx_id) => Ok(Some(TransactionCommand::Commit { tx_id })),
        }
    } else if same(command, "ROLLBACK_TX") {
        match parse_cursor_id(rest) {
            Err(e) => Err(e),
            Ok(tx_id) => Ok(Some(TransactionCommand::Rollback { tx_id })),
        }
    } else if same(command, "KILL_TX") {
        match parse_cursor_id(rest) {
            Err(e) => Err(e),
            Ok(tx_id) => Ok(Some(TransactionCommand::Kill { tx_id })),
        }
    } else if same(command, "TX_STATUS") {
        match parse_cursor_id(rest) {
            Err(e) => Err(e),
            Ok(tx_id) => Ok(Some(TransactionCommand::Status { tx_id })),
        }
    } else if same(command, "TX_COMMIT_PREPARED") {
        match parse_cursor_id(rest) {
            Err(e) => Err(e),
            Ok(prepared_id) => Ok(Some(TransactionCommand::CommitPrepared { prepared_id })),
        }
    } else if same(command, "TX_ABORT_PREPARED") {
        match parse_cursor_id(rest) {
            Err(e) => Err(e),
            Ok(prepared_id) => Ok(Some(TransactionCommand::AbortPrepared { prepared_id })),
        }
    } else if same(command, "TX_PREPARED_STATUS") {
        match parse_cursor_id(rest) {
            Err(e) => Err(e),
            Ok(prepared_id) => Ok(Some(TransactionCommand::PreparedStatus { prepared_id })),
        }
    } else if same(command, "TX_PREPARE_WRITE_BATCH_SHARD") {
        match read_numbered(
            rest,
            "TX_PREPARE_WRITE_BATCH_SHARD requires shard id and encoded write batch",
        ) {
            Err(e) => Err(e),
            Ok((shard_id, payload)) => Ok(
                Some(TransactionCommand::PrepareWriteBatchShard { shard_id, payload }),
            ),
        }
    } else if same(command, "LIST_PREPARED_TX") {
        if blank(rest) {
            Ok(Some(TransactionCommand::ListPrepared))
        } else {
            Err("LIST_PREPARED_TX does not take arguments".to_owned())
        }
    } else if same(command, "LIST_TX") {
        if blank(rest) {
            Ok(Some(TransactionCommand::List))
        } else {
            Err("LIST_TX does not take arguments".to_owned())
        }
    } else if same(command, "LIST_ALL_TX") {
        if blank(rest) {
            Ok(Some(TransactionCommand::ListAll))
        } else {
            Err("LIST_ALL_TX does not take arguments".to_owned())
        }
    } else {
        Ok(None)
    }
}

/// Reads a command on transactions.
pub fn parse_transaction_command(payload: &str) -> (r: Result<Option<TransactionCommand>, String>)
    ensures
        read_outcome(r) == tx_command(payload@),
{
    match split_first(payload, "\t") {
        None => Ok(read_lone_command(payload)),
        Some((command, rest)) => {
            if same(command.as_str(), "BEGIN_TX") {
                return match parse_tx_begin_options(rest.as_str()) {
                    Err(e) => Err(e),
                    Ok((mode, isolation)) => Ok(
                        Some(TransactionCommand::Begin { mode, isolation }),
                    ),
                };
            }
            match read_tx_query_command(command.as_str(), rest.as_str()) {
                Some(r) => r,
                None => read_tx_whole_command(command.as_str(), rest.as_str()),
            }
        },
    }
}

} // verus!
