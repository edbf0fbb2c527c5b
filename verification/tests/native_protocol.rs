use neo4r_server::commands::{
    format_read_isolation, format_transaction_mode, parse_prepared_query_command,
    parse_prepared_query_execute_payload, parse_transaction_command, parse_tx_begin_options,
    PreparedQueryCommand, ReadIsolation, TransactionCommand, TransactionMode,
};
use neo4r_server::cursors::{
    parse_bool_token, parse_ok_index_catalog_response, parse_ok_rows_response,
    parse_result_page_response, parse_result_start_response, parse_tx_prepared_response,
    result_page_rows, result_start_rows, write_response_rows, CursorStore, DistributedQueryCursor,
    DistributedStep, QueryPage, ResultStart, ShardQueryCursor,
};
use neo4r_server::distributed::{
    ends_connection, remote_command_outcome, remote_cursor_outcome, remote_fetch_outcome,
    stream_action, trim_line, StreamAction,
};
use neo4r_server::limits::TenantQuota;
use neo4r_server::native::{
    cancel_request, escape_payload, finish_submit, format_result_page, format_result_start,
    frame_reply, parse_cancel_payload, parse_cursor_id, parse_fetch_payload, start_job,
    PendingRequestStore, ReplyKind, Submitted,
};
use neo4r_server::queries::{
    execute_frame_inner, query_source, FrameKind, FrameStep, OpenQueries, PageText, QuerySource,
    QueryWay,
};
use neo4r_server::two_phase::{format_abort_prepared, format_commit_prepared};
use neo4r_server::value::{QueryParams, Value};
use neo4r_server::wire::format_tx_prepare_write_batch_shard_payload;

fn text(s: &str) -> String {
    s.to_string()
}

#[test]
fn escaped_payloads_hold_no_separators() {
    assert_eq!(escape_payload("a\tb\nc\rd\\e"), "a\\tb\\nc\\rd\\\\e");
    assert_eq!(escape_payload("plain"), "plain");
    assert_ne!(escape_payload("a\tb"), escape_payload("a\\tb"));
}

#[test]
fn numbers_of_cursors_and_fetches_are_read() {
    assert_eq!(parse_cursor_id(" 7 "), Ok(7));
    assert_eq!(
        parse_cursor_id("x"),
        Err(text("cursor id must be an unsigned integer"))
    );
    let fetch = parse_fetch_payload("7\t20").unwrap();
    assert_eq!((fetch.cursor_id, fetch.page_size), (7, 20));
    for (payload, problem) in [
        ("7\tx", "FETCH page size must be a positive integer"),
        ("7\t0", "FETCH page size must be greater than zero"),
        ("7\t1\t2", "FETCH got extra fields"),
        ("x\t1", "cursor id must be an unsigned integer"),
    ] {
        match parse_fetch_payload(payload) {
            Err(e) => assert_eq!(e, problem),
            Ok(_) => panic!("{payload} is read"),
        }
    }
    assert_eq!(parse_cancel_payload("12"), Ok(12));
    assert_eq!(
        parse_cancel_payload(""),
        Err(text("CANCEL requires target request id"))
    );
    assert_eq!(
        parse_cancel_payload("a"),
        Err(text("CANCEL target request id must be an unsigned integer"))
    );
    assert_eq!(
        parse_cancel_payload("1\t2"),
        Err(text("CANCEL got extra fields"))
    );
}

#[test]
fn replies_carry_their_kind() {
    let reply = frame_reply(Ok(text("OK\tPONG")));
    assert_eq!(reply.kind, ReplyKind::Response);
    assert_eq!(reply.text, "OK\tPONG");
    let reply = frame_reply(Err(text("bad\tthing")));
    assert_eq!(reply.kind, ReplyKind::Error);
    assert_eq!(reply.text, "ERR\tbad\\tthing");
    let reply = frame_reply(Err(text("ERR\tSTALE_EPOCH")));
    assert_eq!(reply.text, "ERR\tSTALE_EPOCH");
}

#[test]
fn a_cancelled_request_is_not_started() {
    let mut store = PendingRequestStore::new();
    store.register(1, 10);
    assert_eq!(
        cancel_request(&mut store, 2, "10"),
        Ok(text("OK\tCANCEL_MISSED\t10"))
    );
    assert_eq!(
        cancel_request(&mut store, 1, "10"),
        Ok(text("OK\tCANCELLED\t10"))
    );
    let reply = start_job(&mut store, 1, 10).unwrap();
    assert_eq!(reply.kind, ReplyKind::Error);
    assert_eq!(reply.text, "ERR\trequest cancelled");
    assert!(start_job(&mut store, 1, 10).is_none());
}

#[test]
fn a_full_queue_takes_the_request_back() {
    let mut store = PendingRequestStore::new();
    store.register(1, 10);
    let reply = finish_submit(&mut store, 1, 10, Submitted::QueueFull).unwrap().unwrap();
    assert_eq!(reply.text, "ERR\tnative worker queue full");
    assert!(!store.cancel(1, 10));
    store.register(1, 11);
    assert!(finish_submit(&mut store, 1, 11, Submitted::Queued).unwrap().is_none());
    assert!(store.cancel(1, 11));
    match finish_submit(&mut store, 1, 12, Submitted::Stopped) {
        Err(e) => assert_eq!(e, "native worker pool stopped"),
        Ok(_) => panic!("the stopped pool takes requests"),
    }
}

#[test]
fn result_pages_are_read_as_they_were_sent() {
    let sent = format_result_start(7, None, 2, true, "rows\twith tabs");
    assert_eq!(sent, "OK\tRESULT_START\t7\tUNKNOWN\t2\ttrue\trows\twith tabs");
    assert_eq!(result_start_rows(&sent), Some(text("rows\twith tabs")));
    let read = parse_result_start_response(&sent, Ok(vec!['a', 'b'])).unwrap();
    assert_eq!(read.cursor_id, 7);
    assert_eq!(read.total_rows, None);
    assert_eq!(read.rows, vec!['a', 'b']);
    assert!(read.has_more);
    let sent = format_result_start(7, Some(9), 0, false, "");
    let read = parse_result_start_response::<char>(&sent, Ok(vec![])).unwrap();
    assert_eq!(read.total_rows, Some(9));
    match parse_result_start_response(&sent, Ok(vec!['a'])) {
        Err(e) => assert_eq!(e, "RESULT_START row count mismatch: header 0, decoded 1"),
        Ok(_) => panic!("the rows are not counted"),
    }
    let sent = format_result_page(7, 1, false, "r");
    assert_eq!(sent, "OK\tRESULT_PAGE\t7\t1\tfalse\tr");
    assert_eq!(result_page_rows(&sent), Some(text("r")));
    let read = parse_result_page_response(&sent, Ok(vec![1u8])).unwrap();
    assert!(!read.has_more);
    match parse_result_page_response::<u8>("OK\tPONG", Ok(vec![])) {
        Err(e) => assert_eq!(e, "remote query returned non-page response: OK\tPONG"),
        Ok(_) => panic!("a pong is no page"),
    }
    match parse_result_start_response::<u8>("OK\tPONG", Ok(vec![])) {
        Err(e) => assert_eq!(e, "remote query returned non-cursor response: OK\tPONG"),
        Ok(_) => panic!("a pong is no result"),
    }
    assert_eq!(parse_bool_token("true", "x"), Ok(true));
    assert_eq!(
        parse_bool_token("yes", "x"),
        Err(text("x must be true or false"))
    );
}

#[test]
fn other_answers_of_peers_are_read() {
    assert_eq!(write_response_rows("OK\tROWS\t1\tr"), Some(text("r")));
    assert_eq!(parse_ok_rows_response("OK\tROWS\t1\tr", Ok(vec!['r'])), Ok(vec!['r']));
    assert_eq!(parse_tx_prepared_response("OK\tTX_PREPARED\t4\t2\t1"), Ok(4));
    assert_eq!(
        parse_tx_prepared_response("OK\tPONG"),
        Err(text("remote prepare returned malformed response: OK\tPONG"))
    );
    assert_eq!(
        parse_ok_index_catalog_response("OK\tINDEX_CATALOG\tc"),
        Ok(text("c"))
    );
    assert_eq!(
        parse_ok_index_catalog_response("OK\tPONG"),
        Err(text("remote catalog returned malformed response: OK\tPONG"))
    );
}

#[test]
fn outcomes_of_peers_depend_on_the_frame() {
    assert_eq!(
        remote_command_outcome(FrameKind::Response, "OK\tPONG"),
        Ok(text("OK\tPONG"))
    );
    assert!(remote_command_outcome(FrameKind::Error, "ERR\tno").is_err());
    assert!(remote_command_outcome(FrameKind::Ping, "").is_err());
    assert!(remote_cursor_outcome(FrameKind::Error, "ERR\tno", "QUERY").is_err());
    assert!(remote_fetch_outcome(FrameKind::Response, "OK").is_ok());
    assert_eq!(stream_action(FrameKind::Quit), StreamAction::SayGoodbye);
    assert_eq!(stream_action(FrameKind::Cancel), StreamAction::Cancel);
    assert_eq!(stream_action(FrameKind::Query), StreamAction::Submit);
    assert!(ends_connection(&frame_reply(Ok(text("OK\tBYE")))));
    assert!(!ends_connection(&frame_reply(Ok(text("OK\tPONG")))));
    assert_eq!(trim_line("PING\r\n"), "PING");
}

#[test]
fn transaction_options_are_read() {
    assert_eq!(
        parse_tx_begin_options("READ_WRITE READ_COMMITTED"),
        Ok((TransactionMode::ReadWrite, ReadIsolation::ReadCommitted))
    );
    assert_eq!(
        parse_tx_begin_options(""),
        Ok((TransactionMode::ReadOnly, ReadIsolation::Snapshot))
    );
    assert_eq!(
        parse_tx_begin_options("SERIAL"),
        Err(text("unsupported transaction option: SERIAL"))
    );
    assert_eq!(format_transaction_mode(TransactionMode::ReadWrite), "READ_WRITE");
    assert_eq!(format_read_isolation(ReadIsolation::Snapshot), "SNAPSHOT");
}

#[test]
fn transaction_commands_are_read() {
    match parse_transaction_command("BEGIN_TX\tREAD_WRITE").unwrap().unwrap() {
        TransactionCommand::Begin { mode, isolation } => {
            assert_eq!(mode, TransactionMode::ReadWrite);
            assert_eq!(isolation, ReadIsolation::Snapshot);
        }
        _ => panic!("no transaction is begun"),
    }
    match parse_transaction_command("TX_QUERY\t3\tMATCH (n)\tp=i:1").unwrap().unwrap() {
        TransactionCommand::Query { tx_id, payload } => {
            assert_eq!(tx_id, 3);
            assert_eq!(payload, "MATCH (n)\tp=i:1");
        }
        _ => panic!("no query is read"),
    }
    assert!(parse_transaction_command("QUERY\tMATCH (n)").unwrap().is_none());
    match parse_transaction_command("TX_QUERY\t3") {
        Err(e) => assert_eq!(e, "TX_QUERY requires transaction id and query"),
        Ok(_) => panic!("the query is missing"),
    }
    match parse_transaction_command("LIST_TX\tall") {
        Err(e) => assert_eq!(e, "LIST_TX does not take arguments"),
        Ok(_) => panic!("arguments are taken"),
    }
}

#[test]
fn requests_to_participants_are_read_as_they_were_sent() {
    match parse_transaction_command(&format_commit_prepared(9)).unwrap().unwrap() {
        TransactionCommand::CommitPrepared { prepared_id } => assert_eq!(prepared_id, 9),
        _ => panic!("no commit is read"),
    }
    match parse_transaction_command(&format_abort_prepared(u64::MAX)).unwrap().unwrap() {
        TransactionCommand::AbortPrepared { prepared_id } => assert_eq!(prepared_id, u64::MAX),
        _ => panic!("no abort is read"),
    }
    let sent = format_tx_prepare_write_batch_shard_payload(2, "a\tb");
    assert_eq!(sent, "TX_PREPARE_WRITE_BATCH_SHARD\t2\ta\tb");
    match parse_transaction_command(&sent).unwrap().unwrap() {
        TransactionCommand::PrepareWriteBatchShard { shard_id, payload } => {
            assert_eq!(shard_id, 2);
            assert_eq!(payload, "a\tb");
        }
        _ => panic!("no batch is read"),
    }
}

#[test]
fn prepared_query_commands_are_read() {
    match parse_prepared_query_command("PREPARE_QUERY\tMATCH (n)").unwrap().unwrap() {
        PreparedQueryCommand::Prepare { query } => assert_eq!(query, "MATCH (n)"),
        _ => panic!("no query is prepared"),
    }
    match parse_prepared_query_command("PREPARE_QUERY\t") {
        Err(e) => assert_eq!(e, "PREPARE_QUERY requires a cypher string"),
        Ok(_) => panic!("an empty query is prepared"),
    }
    match parse_prepared_query_command("EXECUTE_PREPARED\t5\tp=i:1").unwrap().unwrap() {
        PreparedQueryCommand::Execute { call } => {
            assert_eq!(call.prepared_id, 5);
            assert_eq!(call.params, Some(text("_\tp=i:1")));
        }
        _ => panic!("no query is executed"),
    }
    assert!(parse_prepared_query_command("PING").unwrap().is_none());
    let call = parse_prepared_query_execute_payload("5").unwrap();
    assert_eq!((call.prepared_id, call.params), (5, None));
    assert!(parse_prepared_query_execute_payload("x").is_err());
}

#[test]
fn cursors_stay_in_their_session() {
    let mut store: CursorStore<u8> = CursorStore::new();
    let id = store.insert_with_permit(1, 42, Some(text("default")));
    match store.take(2, id) {
        Err(e) => assert_eq!(e, format!("cursor {id} belongs to another session")),
        Ok(_) => panic!("another session takes the cursor"),
    }
    let state = store.take(1, id).unwrap();
    assert_eq!(state.cursor, 42);
    match store.take(1, id) {
        Err(e) => assert_eq!(e, format!("unknown cursor: {id}")),
        Ok(_) => panic!("the cursor is taken twice"),
    }
    assert_eq!(store.fetched(id, state, true), None);
    assert_eq!(store.close(1, id), Ok(Some(text("default"))));
    let other = store.insert_with_permit(1, 43, None);
    assert!(other > id);
    assert_eq!(store.close_session(1).len(), 1);
    assert!(store.take(1, other).is_err());
}

#[test]
fn pages_of_several_shards_are_gathered_in_order() {
    let local = ShardQueryCursor::local(vec![1, 2]);
    let remote = ShardQueryCursor::remote(ResultStart {
        cursor_id: 5,
        total_rows: None,
        rows: vec![3],
        has_more: true,
    });
    let mut cursor = DistributedQueryCursor::new(vec![local, remote]);
    assert_eq!(cursor.total_rows(), None);
    let page = match cursor.next(3) {
        DistributedStep::Page(page) => page,
        DistributedStep::Ask { .. } => panic!("enough rows are there"),
    };
    assert_eq!(page.rows, vec![1, 2, 3]);
    assert!(page.has_more);
    match cursor.next(3) {
        DistributedStep::Ask { shard, rows } => assert_eq!((shard, rows), (1, 3)),
        DistributedStep::Page(_) => panic!("no rows are left"),
    }
    let (_, payload) = cursor.cursors[1].ask(3);
    assert_eq!(payload, "5\t3");
    cursor.answered(Some(QueryPage { rows: vec![4], has_more: false }));
    match cursor.next(3) {
        DistributedStep::Page(page) => {
            assert_eq!(page.rows, vec![4]);
            assert!(!page.has_more);
        }
        DistributedStep::Ask { .. } => panic!("the shard has no more rows"),
    }
}

#[test]
fn pages_of_any_size_join_to_the_rows_of_all_shards() {
    for size in 0..7 {
        let remote = |first: Vec<u32>| {
            ShardQueryCursor::remote(ResultStart {
                cursor_id: 5,
                total_rows: None,
                rows: first,
                has_more: true,
            })
        };
        let mut cursor = DistributedQueryCursor::new(vec![
            remote(vec![1]),
            ShardQueryCursor::local(vec![]),
            ShardQueryCursor::local(vec![5, 6]),
            remote(vec![]),
        ]);
        let mut sent = vec![vec![2, 3, 4], vec![], vec![], vec![7, 8]];
        let mut rows = Vec::new();
        loop {
            match cursor.next(size) {
                DistributedStep::Ask { shard, rows } => {
                    let count = rows.min(sent[shard].len());
                    let page: Vec<u32> = sent[shard].drain(..count).collect();
                    let has_more = !sent[shard].is_empty();
                    let _ = cursor.cursors[shard].ask(rows);
                    cursor.answered(Some(QueryPage { rows: page, has_more }));
                }
                DistributedStep::Page(page) => {
                    assert!(page.rows.len() <= size.max(1));
                    assert!(!page.has_more || page.rows.len() == size.max(1));
                    rows.extend(page.rows);
                    if !page.has_more {
                        break;
                    }
                }
            }
        }
        assert_eq!(rows, vec![1, 2, 3, 4, 5, 6, 7, 8]);
    }
}

#[test]
fn the_last_full_page_says_that_there_are_no_more_rows() {
    let pages = |shards: Vec<Vec<u32>>, size: usize| {
        let cursors = shards.into_iter().map(ShardQueryCursor::local).collect();
        let mut cursor = DistributedQueryCursor::new(cursors);
        let mut pages = Vec::new();
        loop {
            match cursor.next(size) {
                DistributedStep::Ask { .. } => panic!("all rows are there"),
                DistributedStep::Page(page) => {
                    let last = !page.has_more;
                    pages.push(page.rows);
                    if last {
                        return pages;
                    }
                }
            }
        }
    };
    assert_eq!(pages(vec![vec![1, 2], vec![3, 4]], 2), vec![vec![1, 2], vec![3, 4]]);
    assert_eq!(pages(vec![vec![1, 2], vec![3, 4]], 4), vec![vec![1, 2, 3, 4]]);
    assert_eq!(pages(vec![vec![1, 2], vec![]], 2), vec![vec![1, 2], vec![]]);
    assert_eq!(pages(vec![vec![], vec![1, 2]], 2), vec![vec![1, 2]]);
    assert_eq!(pages(vec![], 2), vec![Vec::<u32>::new()]);
}

#[test]
fn frames_become_steps() {
    let mut store = PendingRequestStore::new();
    let step = execute_frame_inner(&mut store, 1, FrameKind::Ping, Ok(text("")), Ok(false));
    assert!(matches!(step, Ok(FrameStep::Pong)));
    let step = execute_frame_inner(&mut store, 1, FrameKind::Query, Ok(text("MATCH (n)")), Ok(false));
    assert!(matches!(step, Ok(FrameStep::Query(_))));
    let step = execute_frame_inner(&mut store, 1, FrameKind::Query, Ok(text("q")), Ok(true));
    assert!(step.is_err());
    let step = execute_frame_inner(&mut store, 1, FrameKind::CloseCursor, Ok(text("4")), Ok(false));
    assert!(matches!(step, Ok(FrameStep::CloseCursor(4))));
    let step = execute_frame_inner(&mut store, 1, FrameKind::Command, Ok(text("LIST_TX")), Ok(false));
    assert!(matches!(step, Ok(FrameStep::Transaction(TransactionCommand::List))));
    let step = execute_frame_inner(&mut store, 1, FrameKind::Cancel, Ok(text("4")), Ok(false));
    match step {
        Ok(FrameStep::Answer(answer)) => assert_eq!(answer, "OK\tCANCEL_MISSED\t4"),
        _ => panic!("the cancellation is not answered"),
    }
    let step = execute_frame_inner(&mut store, 1, FrameKind::Response, Ok(text("")), Ok(false));
    assert!(step.is_err());
}

fn one_at_a_time() -> TenantQuota {
    let mut quota = TenantQuota::new();
    quota.configure(Some(1), None);
    quota
}

#[test]
fn a_query_is_counted_until_its_cursor_is_closed() {
    let mut open: OpenQueries<u8> = OpenQueries::new(one_at_a_time());
    assert_eq!(open.begin(QueryWay::Whole, "MATCH (n) RETURN n", "default"), Ok(()));
    let id = open.open(1, Ok((7, Some(2))), "default").unwrap();
    assert!(open.begin(QueryWay::Whole, "MATCH (n) RETURN n", "default").is_err());
    assert_eq!(open.begin(QueryWay::Whole, "MATCH (n) RETURN n", "other"), Ok(()));
    let state = open.take(1, id).unwrap();
    let page = PageText { count: 1, has_more: true, rows: text("r") };
    assert_eq!(
        open.started(id, state, Some(2), page),
        format!("OK\tRESULT_START\t{id}\t2\t1\ttrue\tr")
    );
    let state = open.take(1, id).unwrap();
    let page = PageText { count: 1, has_more: false, rows: text("s") };
    assert_eq!(
        open.paged(id, state, page),
        format!("OK\tRESULT_PAGE\t{id}\t1\tfalse\ts")
    );
    assert_eq!(open.begin(QueryWay::Whole, "MATCH (n) RETURN n", "default"), Ok(()));
    assert!(open.open(1, Err(text("no")), "default").is_err());
    assert_eq!(open.begin(QueryWay::Whole, "MATCH (n) RETURN n", "default"), Ok(()));
    let id = open.open(1, Ok((8, None)), "default").unwrap();
    assert!(open.close(2, id).is_err());
    assert!(open.close(1, id).is_ok());
    assert_eq!(open.begin(QueryWay::Whole, "MATCH (n) RETURN n", "default"), Ok(()));
}

#[test]
fn writes_are_sent_to_their_shards() {
    let none = QueryParams::new();
    let mut one = QueryParams::new();
    one.insert(text("a"), Value::Int(1));
    assert_eq!(query_source("CREATE (n:P)", &one), QuerySource::WrittenShards);
    assert_eq!(query_source("MATCH (n) RETURN n", &none), QuerySource::Database);
    assert_eq!(
        query_source("MATCH (n) RETURN n", &one),
        QuerySource::DatabaseWithParams
    );
}
