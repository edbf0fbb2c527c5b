use neo4r_server::cluster::{ClusterStatus, QueryRoute, RoutingFacts, ShardStatus};
use neo4r_server::commands::{PreparedCall, PreparedQueryCommand, ReadIsolation, TransactionCommand, TransactionMode};
use neo4r_server::commit::{
    begin_commit, commit_plan, format_committed, staged_writes_are_prepare_batchable,
    writes_by_target_shard, CommitFacts, CommitPlan, WriteFacts,
};
use neo4r_server::execution::{
    close_native_session, execute_prepared_query_command, execute_transaction_command,
    CommandFacts, CommandStep, Decoded, NativeState,
};
use neo4r_server::peers::QueryPeerStore;
use neo4r_server::prepared::{
    decode_prepared_transaction_record, encode_prepared_transaction_record,
    format_prepared_query_describe, format_prepared_query_kind, format_prepared_tx_status,
    PreparedQueryStore, PreparedTransactionStore, PreparedWriteBatch,
};
use neo4r_server::transactions::{
    format_tx_list, format_tx_list_all, format_tx_status, plan_with_context, CursorSource,
    NativeTransaction, StagedWrite, TransactionPlanContext, TransactionStore,
};
use neo4r_server::two_phase::{
    apply_to_participant, decision_participant_records, format_transaction_decisions,
    participant_outcome, recover_transaction_decisions, CommitCoordinator, Outcome,
    ParticipantAction, Phase, PreparedLocal, PreparedRemote, TransactionDecision,
    TransactionDecisionRecord, TransactionParticipantRecord,
};
use neo4r_server::value::QueryParams;

fn text(s: &str) -> String {
    s.to_string()
}

fn shard(shard_id: u64, primary: u64, local: bool) -> ShardStatus {
    ShardStatus {
        shard_id,
        primary_server_id: Some(primary),
        replica_server_ids: vec![],
        has_local_copy: local,
        is_local_primary: local,
        applied_index: 0,
        committed_index: 0,
        match_indexes: vec![],
    }
}

fn staged(query: &str) -> StagedWrite {
    StagedWrite { query: text(query), params: QueryParams::new() }
}

fn goes_to(shards: &[u64]) -> WriteFacts {
    WriteFacts { key: None, targets: Ok(shards.to_vec()) }
}

fn cluster(version: u64) -> ClusterStatus {
    ClusterStatus {
        server_id: 1,
        routing_version: version,
        shard_count: 2,
        shards: vec![shard(0, 1, true), shard(1, 2, false)],
    }
}

fn peers() -> QueryPeerStore {
    let mut peers = QueryPeerStore::new();
    peers.register(2, text("10.0.0.2:7688"));
    peers
}

fn commit_facts(tx_epoch_now: u64, writes: Vec<WriteFacts>) -> CommitFacts {
    CommitFacts {
        at_targets: Ok(cluster(tx_epoch_now)),
        at_close: Ok(tx_epoch_now),
        at_plan: Ok(cluster(tx_epoch_now)),
        writes,
    }
}

fn command_facts(epoch: u64, writes: Vec<WriteFacts>) -> CommandFacts {
    CommandFacts {
        epoch: Ok(epoch),
        snapshot: Ok(()),
        shards: Ok(vec![shard(0, 1, true), shard(1, 2, false)]),
        routing: RoutingFacts { route: Ok(QueryRoute::LocalOnly), shards: Ok(vec![]) },
        key: None,
        commit: commit_facts(epoch, writes),
    }
}

fn decoded(query: &str) -> Decoded {
    Decoded {
        query: text(query),
        params: QueryParams::new(),
        signature: vec![],
        writes: vec![],
    }
}

fn answer(step: Result<CommandStep, String>) -> String {
    match step {
        Ok(CommandStep::Answer(answer)) => answer,
        Ok(CommandStep::Begun { answer, .. }) => answer,
        Ok(CommandStep::KeepBatch { answer, .. }) => answer,
        Ok(CommandStep::TakeBatch { answer, .. }) => answer,
        Ok(_) => panic!("there is more to do"),
        Err(e) => e,
    }
}

#[test]
fn transactions_stay_in_their_session() {
    let mut store = TransactionStore::new();
    let id = store.insert(
        1,
        NativeTransaction::begin(TransactionMode::ReadWrite, ReadIsolation::Snapshot, 3),
    );
    match store.status(2, id) {
        Err(e) => assert_eq!(e, format!("unknown transaction: {id}")),
        Ok(_) => panic!("another session sees the transaction"),
    }
    let none: Vec<String> = vec![];
    assert_eq!(
        store.stage_write(1, id, text("MATCH (n) WHERE id(n) = 1 SET n.a = 1"), QueryParams::new(), &none),
        Ok(1)
    );
    let info = store.status(1, id).unwrap();
    assert_eq!(
        format_tx_status(&info),
        format!("OK\tTX_STATUS\t{id}\tREAD_WRITE\tSNAPSHOT\t1")
    );
    assert_eq!(
        format_tx_list(&store.list(1)),
        format!("OK\tTX_LIST\t1\t{id}:READ_WRITE:SNAPSHOT:1")
    );
    assert_eq!(format_tx_list(&store.list(2)), "OK\tTX_LIST\t0\t");
    assert_eq!(
        format_tx_list_all(&store.list_all()),
        format!("OK\tTX_LIST_ALL\t1\t1:{id}:READ_WRITE:SNAPSHOT:1")
    );
    assert!(store.close(2, id).is_err());
    assert_eq!(store.close_session(1), 1);
    assert!(store.close(1, id).is_err());
}

#[test]
fn read_only_transactions_take_no_writes() {
    let mut store = TransactionStore::new();
    let id = store.insert(
        1,
        NativeTransaction::begin(TransactionMode::ReadOnly, ReadIsolation::Snapshot, 3),
    );
    let none: Vec<String> = vec![];
    assert_eq!(
        store.stage_write(1, id, text("CREATE (n:P)"), QueryParams::new(), &none),
        Err(format!(
            "transaction {id} is read-only; begin with READ_WRITE for write queries"
        ))
    );
    assert!(matches!(store.cursor_source(1, id, false), Ok(CursorSource::Begun)));
    let id = store.insert(
        1,
        NativeTransaction::begin(TransactionMode::ReadWrite, ReadIsolation::Snapshot, 3),
    );
    assert_eq!(
        store.stage_write(1, id, text("CREATE INDEX ON :P(a)"), QueryParams::new(), &none),
        Err(text("schema DDL is not supported inside native read-write transactions"))
    );
}

#[test]
fn stale_transactions_are_refused() {
    let mut store = TransactionStore::new();
    let id = store.insert(
        1,
        NativeTransaction::begin(TransactionMode::ReadWrite, ReadIsolation::Snapshot, 3),
    );
    match begin_commit(&mut store, 1, id, &commit_facts(4, vec![]), &peers()) {
        Err(e) => assert_eq!(
            e,
            "ERR\tSTALE_EPOCH\ttx_epoch=3\tcurrent_epoch=4\trouting_version=4\townership_epoch=4\tretryable=true"
        ),
        Ok(_) => panic!("the stale transaction is committed"),
    }
    assert_eq!(format_committed(5, 0), "OK\tTX_COMMIT\t5");
    assert_eq!(format_committed(5, 2), "OK\tTX_COMMIT\t5\t2");
}

#[test]
fn each_write_has_one_target() {
    let writes = vec![staged("CREATE (n:P)"), staged("MATCH (n) MERGE (m:P {a: \"x\"})")];
    let shards = vec![shard(0, 1, true), shard(1, 2, false)];
    match writes_by_target_shard(&writes, &[goes_to(&[0]), goes_to(&[0, 1])], &shards) {
        Err(e) => assert_eq!(
            e,
            "read-write transaction commit requires each staged write to target exactly one shard; query \"MATCH (n) MERGE (m:P {a: \\\"x\\\"})\" targets [0, 1]"
        ),
        Ok(_) => panic!("a write on two shards is taken"),
    }
    let writes = vec![staged("MATCH (n) SET n.a = 1"), staged("MATCH (n) SET n.a = 2")];
    let targets = writes_by_target_shard(&writes, &[goes_to(&[1]), goes_to(&[0])], &shards)
        .ok()
        .unwrap();
    assert_eq!(targets.len(), 2);
    assert_eq!((targets.shard_at(0), targets.writes_at(0)), (0, vec![1]));
    assert_eq!((targets.shard_at(1), targets.writes_at(1)), (1, vec![0]));
    assert!(staged_writes_are_prepare_batchable(&[staged("CREATE (n:P)")]));
    match commit_plan(&targets, &writes, &shards, &peers()) {
        Ok(CommitPlan::TwoPhase { locals, remotes }) => {
            assert_eq!((locals.len(), locals[0].shard_id), (1, 0));
            assert_eq!((remotes.len(), remotes[0].shard_id), (1, 1));
            assert_eq!(remotes[0].address, "10.0.0.2:7688");
        }
        _ => panic!("the shards do not commit together"),
    }
}

fn drive(coordinator: &mut CommitCoordinator, outcomes: Vec<Outcome>) {
    for outcome in outcomes {
        coordinator.step(outcome);
    }
}

#[test]
fn a_commit_follows_every_prepare() {
    let mut c = CommitCoordinator::new(vec![0], vec![(text("b"), 1)], false);
    assert!(matches!(c.phase, Phase::PrepareLocal));
    c.step(Outcome::Prepared(7));
    assert!(matches!(c.phase, Phase::PrepareRemote));
    c.step(Outcome::Prepared(8));
    assert!(matches!(c.phase, Phase::RecordCommit));
    assert_eq!(c.participants().len(), 2);
    drive(&mut c, vec![Outcome::Done, Outcome::Done, Outcome::Done, Outcome::Done]);
    assert!(matches!(c.phase, Phase::Committed));
}

#[test]
fn a_refused_prepare_gives_the_commit_up() {
    let mut c = CommitCoordinator::new(vec![0], vec![(text("b"), 1)], false);
    c.step(Outcome::Prepared(7));
    c.step(Outcome::Refused(text("no")));
    assert!(matches!(c.phase, Phase::RecordAbort(_)));
    c.step(Outcome::Done);
    assert!(matches!(c.phase, Phase::GiveUp(_)));
    c.step(Outcome::Done);
    match c.phase {
        Phase::Failed(e) => assert_eq!(e, "no"),
        _ => panic!("the commit is not given up"),
    }
}

#[test]
fn a_commit_that_the_first_shard_refuses_records_nothing() {
    let mut c = CommitCoordinator::new(vec![0, 1], vec![(text("b"), 2)], false);
    c.step(Outcome::Refused(text("no")));
    assert!(c.participants().is_empty());
    match c.phase {
        Phase::Failed(e) => assert_eq!(e, "no"),
        _ => panic!("the commit goes on"),
    }
    let mut c = CommitCoordinator::new(vec![], vec![(text("b"), 2), (text("c"), 3)], false);
    c.step(Outcome::Refused(text("no")));
    match c.phase {
        Phase::Failed(e) => assert_eq!(e, "no"),
        _ => panic!("the commit goes on"),
    }
    let mut c = CommitCoordinator::new(vec![], vec![], false);
    assert!(matches!(c.phase, Phase::Clear));
    c.step(Outcome::Done);
    assert!(matches!(c.phase, Phase::Committed));
}

#[test]
fn a_commit_of_one_other_server_ends_with_its_refusal() {
    let mut c = CommitCoordinator::new(vec![], vec![(text("b"), 1)], true);
    assert!(matches!(c.phase, Phase::PrepareRemote));
    c.step(Outcome::Refused(text("no")));
    match c.phase {
        Phase::Failed(e) => assert_eq!(e, "no"),
        _ => panic!("the commit goes on"),
    }
    let mut c = CommitCoordinator::new(vec![], vec![(text("b"), 1)], true);
    drive(&mut c, vec![Outcome::Prepared(8), Outcome::Done]);
    assert!(matches!(c.phase, Phase::CommitRemote(0)));
    c.step(Outcome::Refused(text("later")));
    match c.phase {
        Phase::Failed(e) => assert_eq!(e, "later"),
        _ => panic!("the commit goes on"),
    }
}

#[test]
fn participants_are_recorded_and_reached() {
    let records = decision_participant_records(
        &[PreparedLocal { shard_id: 0, prepared_id: 7 }],
        &[PreparedRemote { address: text("b:1"), shard_id: 1, prepared_id: 8 }],
    );
    assert_eq!(records[0].location, "local");
    assert_eq!(records[1].location, "remote:b:1");
    assert!(matches!(
        apply_to_participant(TransactionDecision::Abort, &records[0]),
        Ok(ParticipantAction::AbortHere(7))
    ));
    let action = apply_to_participant(TransactionDecision::Commit, &records[1]).ok().unwrap();
    match &action {
        ParticipantAction::Request { address, payload } => {
            assert_eq!(address, "b:1");
            assert_eq!(payload, "TX_COMMIT_PREPARED\t8");
        }
        _ => panic!("the peer is not asked"),
    }
    assert_eq!(
        participant_outcome(&action, Err(text("ERR unknown prepared transaction: 8"))),
        Ok(())
    );
    assert_eq!(participant_outcome(&action, Err(text("down"))), Err(text("down")));
    let nowhere = TransactionParticipantRecord { location: text("x"), shard_id: 0, prepared_id: 1 };
    match apply_to_participant(TransactionDecision::Commit, &nowhere) {
        Err(e) => assert_eq!(e, "unknown transaction participant location: x"),
        Ok(_) => panic!("a participant is found nowhere"),
    }
    let decisions = vec![TransactionDecisionRecord {
        tx_id: 3,
        decision: TransactionDecision::Commit,
        participants: records,
    }];
    assert_eq!(
        format_transaction_decisions(&decisions),
        "count=1 entries=tx=3 decision=commit participants=local@0#7|remote:b:1@1#8"
    );
    let recovery = recover_transaction_decisions(&decisions, &[Ok(())]);
    assert_eq!(recovery.completed, vec![3]);
    assert_eq!(recovery.result, Ok(1));
    let recovery = recover_transaction_decisions(&decisions, &[Err(text("down"))]);
    assert_eq!(recovery.result, Err(text("down")));
    assert!(recovery.completed.is_empty());
}

#[test]
fn prepared_queries_stay_in_their_session() {
    let mut store = PreparedQueryStore::new();
    let id = store.prepare(1, text("MATCH (n)"));
    assert_eq!(store.get(1, id), Ok(text("MATCH (n)")));
    assert_eq!(
        store.get(2, id),
        Err(format!("prepared query {id} belongs to another session"))
    );
    assert_eq!(store.get(1, id + 1), Err(format!("unknown prepared query: {}", id + 1)));
    assert_eq!(store.list(1).len(), 1);
    assert!(store.close(2, id).is_err());
    assert_eq!(store.close(1, id), Ok(()));
    assert_eq!(format_prepared_query_kind("CREATE INDEX ON :P(a)"), "SCHEMA");
    assert_eq!(format_prepared_query_kind("CREATE (n)"), "WRITE");
    assert_eq!(format_prepared_query_kind("MATCH (n) RETURN n"), "READ");
    assert_eq!(
        format_prepared_query_describe(4, "MATCH (n) RETURN n", "READ_LOCAL", &[text("a"), text("b")]),
        "OK\tPREPARED_QUERY_DESC\t4\tREAD\tREAD_LOCAL\t2\ta,b"
    );
}

#[test]
fn prepared_batches_are_read_back() {
    let mut store = PreparedTransactionStore::new();
    let a = store.prepare(PreparedWriteBatch { shard_id: 2, payload: text("w\tx"), write_count: 2 });
    let b = store.prepare(PreparedWriteBatch { shard_id: 3, payload: text("y"), write_count: 1 });
    let file = store.encode();
    assert_eq!(file, format!("N4RPTX1\n{a}\t2\tw\tx\n{b}\t3\ty\n"));
    let read = PreparedTransactionStore::decode(&file, &[Ok(0), Ok(2), Ok(1)]).ok().unwrap();
    assert_eq!(read.encode(), file);
    assert_eq!(
        format_prepared_tx_status(&read.status(a).ok().unwrap()),
        format!("OK\tTX_PREPARED_STATUS\t{a}\t2\t2")
    );
    let mut read = read;
    let batch = read.take(a).ok().unwrap();
    assert!(read.take(a).is_err());
    read.put_back(a, batch);
    assert_eq!(read.list().len(), 2);
    match PreparedTransactionStore::decode("nothing\n", &[Ok(0)]) {
        Err(e) => assert_eq!(e, "invalid prepared transaction header"),
        Ok(_) => panic!("another file is read"),
    }
    let line = encode_prepared_transaction_record(
        4,
        &PreparedWriteBatch { shard_id: 1, payload: text("p"), write_count: 1 },
    );
    let record = decode_prepared_transaction_record(&line).ok().unwrap();
    assert_eq!((record.prepared_id, record.shard_id), (4, 1));
    assert_eq!(record.payload, "p");
    for (line, problem) in [
        ("x", "invalid prepared transaction id"),
        ("1", "missing prepared transaction shard id"),
        ("1\tx", "invalid prepared transaction shard id"),
        ("1\t2", "missing prepared transaction writes"),
    ] {
        match decode_prepared_transaction_record(line) {
            Err(e) => assert_eq!(e, problem),
            Ok(_) => panic!("{line} is read"),
        }
    }
}

#[test]
fn a_transaction_is_begun_filled_and_rolled_back() {
    let mut state = NativeState::new();
    let facts = command_facts(3, vec![]);
    let begun = execute_transaction_command(
        &mut state,
        1,
        TransactionCommand::Begin { mode: TransactionMode::ReadWrite, isolation: ReadIsolation::ReadCommitted },
        decoded(""),
        &facts,
        &peers(),
    );
    let tx_id = match &begun {
        Ok(CommandStep::Begun { tx_id, .. }) => *tx_id,
        _ => panic!("no transaction is begun"),
    };
    assert_eq!(
        answer(begun),
        format!("OK\tTX_BEGIN\t{tx_id}\tREAD_WRITE\tREAD_COMMITTED\townership_epoch=3")
    );
    let query = TransactionCommand::Query { tx_id, payload: text("CREATE (n:P)") };
    let step = execute_transaction_command(&mut state, 1, query, decoded("CREATE (n:P)"), &facts, &peers());
    assert_eq!(answer(step), format!("OK\tTX_STAGED\t{tx_id}\t1"));
    let query = TransactionCommand::DistributedQuery { tx_id, payload: text("CREATE (n:P)") };
    let step = execute_transaction_command(&mut state, 1, query, decoded("CREATE (n:P)"), &facts, &peers());
    assert_eq!(answer(step), "TX_QUERY_DISTRIBUTED only supports read queries");
    let query = TransactionCommand::Query { tx_id, payload: text("MATCH (n) RETURN n") };
    let step = execute_transaction_command(&mut state, 1, query, decoded("MATCH (n) RETURN n"), &facts, &peers());
    match step {
        Ok(CommandStep::RunQuery { source: CursorSource::Staged(isolation, writes), distributed, .. }) => {
            assert_eq!(isolation, ReadIsolation::ReadCommitted);
            assert_eq!(writes.len(), 1);
            assert!(!distributed);
        }
        _ => panic!("the staged writes are not seen"),
    }
    let step = execute_transaction_command(
        &mut state, 1, TransactionCommand::Rollback { tx_id }, decoded(""), &facts, &peers(),
    );
    assert_eq!(answer(step), format!("OK\tTX_ROLLBACK\t{tx_id}"));
    let step = execute_transaction_command(
        &mut state, 1, TransactionCommand::Status { tx_id }, decoded(""), &facts, &peers(),
    );
    assert_eq!(answer(step), format!("unknown transaction: {tx_id}"));
}

#[test]
fn a_closed_transaction_stays_unknown() {
    let mut state = NativeState::new();
    let facts = command_facts(3, vec![]);
    let begin = |state: &mut NativeState, session_id: u64| {
        let step = execute_transaction_command(
            state,
            session_id,
            TransactionCommand::Begin {
                mode: TransactionMode::ReadWrite,
                isolation: ReadIsolation::ReadCommitted,
            },
            decoded(""),
            &facts,
            &peers(),
        );
        match step {
            Ok(CommandStep::Begun { tx_id, .. }) => tx_id,
            _ => panic!("no transaction is begun"),
        }
    };
    let tx_id = begin(&mut state, 1);
    let step = execute_transaction_command(
        &mut state, 1, TransactionCommand::Rollback { tx_id }, decoded(""), &facts, &peers(),
    );
    assert_eq!(answer(step), format!("OK\tTX_ROLLBACK\t{tx_id}"));
    assert_ne!(begin(&mut state, 1), tx_id);
    assert_ne!(begin(&mut state, 2), tx_id);
    close_native_session(&mut state, 2);
    assert_ne!(begin(&mut state, 2), tx_id);
    for session_id in 1..3 {
        for command in [
            TransactionCommand::Commit { tx_id },
            TransactionCommand::Rollback { tx_id },
            TransactionCommand::Kill { tx_id },
            TransactionCommand::Status { tx_id },
            TransactionCommand::Query { tx_id, payload: text("CREATE (n:P)") },
        ] {
            let step = execute_transaction_command(
                &mut state, session_id, command, decoded("CREATE (n:P)"), &facts, &peers(),
            );
            assert_eq!(answer(step), format!("unknown transaction: {tx_id}"));
        }
    }
}

#[test]
fn a_plan_tells_of_its_transaction() {
    let context = TransactionPlanContext {
        mode: TransactionMode::ReadWrite,
        isolation: ReadIsolation::Snapshot,
        staged_writes: 2,
    };
    assert_eq!(
        plan_with_context(text("plan"), &Some(context)),
        "plan tx_mode=READ_WRITE tx_isolation=SNAPSHOT staged_writes=2 staged_overlay=pending"
    );
    assert_eq!(plan_with_context(text("plan"), &None), "plan");
}

#[test]
fn a_peer_prepares_commits_and_aborts_batches() {
    let mut state = NativeState::new();
    let facts = command_facts(3, vec![]);
    let prepare = |state: &mut NativeState, shard_id: u64, query: &str| {
        let mut d = decoded("");
        d.writes = vec![staged(query)];
        execute_transaction_command(
            state,
            1,
            TransactionCommand::PrepareWriteBatchShard { shard_id, payload: text("w") },
            d,
            &facts,
            &peers(),
        )
    };
    assert_eq!(
        answer(prepare(&mut state, 1, "CREATE (n:P)")),
        "shard 1 is not a local primary"
    );
    assert_eq!(
        answer(prepare(&mut state, 0, "CREATE INDEX ON :P(a)")),
        "prepared write batch currently supports CREATE, MERGE, SET, REMOVE, or DELETE writes only"
    );
    let told = answer(prepare(&mut state, 0, "CREATE (n:P)"));
    let id: u64 = told.split('\t').nth(2).unwrap().parse().unwrap();
    assert_eq!(told, format!("OK\tTX_PREPARED\t{id}\t0\t1"));
    let step = execute_transaction_command(
        &mut state, 9, TransactionCommand::PreparedStatus { prepared_id: id }, decoded(""), &facts, &peers(),
    );
    assert_eq!(answer(step), format!("OK\tTX_PREPARED_STATUS\t{id}\t0\t1"));
    let step = execute_transaction_command(
        &mut state, 9, TransactionCommand::AbortPrepared { prepared_id: id }, decoded(""), &facts, &peers(),
    );
    assert_eq!(answer(step), format!("OK\tTX_PREPARED_ABORT\t{id}"));
    let step = execute_transaction_command(
        &mut state, 9, TransactionCommand::AbortPrepared { prepared_id: id }, decoded(""), &facts, &peers(),
    );
    assert_eq!(answer(step), format!("unknown prepared transaction: {id}"));
}

#[test]
fn prepared_queries_are_run_and_closed() {
    let mut state = NativeState::new();
    let facts = command_facts(3, vec![]);
    let step = execute_prepared_query_command(
        &mut state,
        1,
        PreparedQueryCommand::Prepare { query: text("MATCH (n) RETURN n") },
        QueryParams::new(),
        &facts,
    );
    let told = answer(step);
    let id: u64 = told.split('\t').nth(2).unwrap().parse().unwrap();
    assert_eq!(told, format!("OK\tPREPARED_QUERY\t{id}"));
    let step = execute_prepared_query_command(
        &mut state,
        1,
        PreparedQueryCommand::Execute { call: PreparedCall { prepared_id: id, params: None } },
        QueryParams::new(),
        &facts,
    );
    match step {
        Ok(CommandStep::RunPrepared { query, .. }) => assert_eq!(query, "MATCH (n) RETURN n"),
        _ => panic!("the query is not run"),
    }
    let step = execute_prepared_query_command(
        &mut state, 1, PreparedQueryCommand::Close { prepared_id: id }, QueryParams::new(), &facts,
    );
    assert_eq!(answer(step), format!("OK\tPREPARED_QUERY_CLOSED\t{id}"));
    close_native_session(&mut state, 1);
    let step = execute_prepared_query_command(
        &mut state, 1, PreparedQueryCommand::Describe { prepared_id: id }, QueryParams::new(), &facts,
    );
    assert_eq!(answer(step), format!("unknown prepared query: {id}"));
}

#[test]
fn a_target_is_staged_once() {
    let mut store = TransactionStore::new();
    let id = store.insert(
        1,
        NativeTransaction::begin(TransactionMode::ReadWrite, ReadIsolation::Snapshot, 3),
    );
    let none: Vec<String> = vec![];
    let write = "MATCH (n:P) WHERE n.id = 1 SET n.a = 1";
    assert_eq!(store.stage_write(1, id, text(write), QueryParams::new(), &none), Ok(1));
    match store.stage_write(1, id, text(write), QueryParams::new(), &none) {
        Err(e) => assert!(e.starts_with(&format!(
            "transaction {id} write conflict on staged target "
        ))),
        Ok(_) => panic!("the target is staged twice"),
    }
    assert_eq!(store.status(1, id).ok().unwrap().staged_writes, 1);
}

#[test]
fn a_decided_commit_is_not_given_up() {
    let mut c = CommitCoordinator::new(vec![0], vec![(text("b"), 1)], false);
    drive(&mut c, vec![Outcome::Prepared(7), Outcome::Prepared(8), Outcome::Done, Outcome::Done]);
    assert!(matches!(c.phase, Phase::CommitRemote(0)));
    c.step(Outcome::Unreachable(text("down")));
    match c.phase {
        Phase::Failed(e) => assert_eq!(e, "commit prepared transaction 8 on b failed: down"),
        _ => panic!("the commit goes on"),
    }
}
