use neo4r_server::backend::{
    Negotiation, PeerFacts, PeerStep, RemoteIdentity, TcpBackend, TcpBackendConfig,
};
use neo4r_server::cluster::{
    ensure_local_primary_shard, find_write_shards, format_read_routing_hint, format_shard_id_list,
    forward_shard_write, prepared_query_routing_hint, select_node_write_shard,
    select_remote_query_target, write_target, ClusterStatus, ForwardPlan, QueryRoute, RoutingFacts,
    ShardStatus, WriteTarget,
};
use neo4r_server::cursors::ShardQueryCursor;
use neo4r_server::cypher::{
    database_from_use_clause, describe_query_parameters, is_batchable_cypher_mutation,
    is_create_node_cypher, is_delete_cypher, is_merge_node_cypher, is_schema_cypher,
    is_write_cypher, strip_database_use_clause, validate_prepared_query_params, write_conflict_key,
};
use neo4r_server::distributed::{shard_read, ShardOpener, ShardRead};
use neo4r_server::gossip::{ClusterMember, NodeMembershipState};
use neo4r_server::model::{
    QueryReadPreference, ReplicationChannelKind, ShardPlacement, ShardReplica, ShardRoutingTable,
};
use neo4r_server::native::ReplyKind;
use neo4r_server::peers::{format_query_peers, QueryPeerStore};
use neo4r_server::replication::{
    catch_up_end_index, catch_up_plan, entries_by_shard, format_catch_up_plan,
    format_catch_up_results, format_replication_peer_status, replication_endpoint,
    replication_peer_status, replication_status, validate_replication_peer_identity, CatchUpResult,
    CatchUpRun, ReplicationEndpoint,
};
use neo4r_server::requests::{
    advanced_rebalance, answer_request, execute_backend_command, execute_backend_request,
    execute_request, format_command_request_payload, rebalance_next, response_kind,
    write_request_shard, BackendRequest, BackendResponse, BackendTask, CommandPlan, Dispatch,
    RebalanceNext, RedirectKind, ReplyForm, RequestFacts, StorageCall, StorageOutcome,
};
use neo4r_server::shard_writes::{ShardWriter, WriteStep};
use neo4r_server::startup::{
    check_replication_listener, check_replication_transport, check_routing_size,
    election_timeout_ms, heartbeat, periodic_catch_up_line, periodic_recovery_line,
    startup_catch_up_line, startup_recovery_line,
};
use neo4r_server::tls::{
    AfterAttempt, AppendAnswer, NativeTlsConfig, ReplicationTlsConfig, TlsReplicationChannel,
};
use neo4r_server::value::{FloatValue, QueryParams, Value};
use neo4r_server::wire::{
    encode_map_for_request, encode_value_for_map_request, fnv_update, format_properties_suffix,
    format_query_shard_payload, format_query_staged_shard_payload,
    format_query_write_shard_payload, format_value_for_request, hex_encode_for_request,
    stable_create_node_fallback_hash, stable_create_node_routing_key_hash, CreateNodeRoutingKey,
};

fn text(s: &str) -> String {
    s.to_string()
}

fn shard(shard_id: u64, primary: Option<u64>, replicas: &[u64], local: bool) -> ShardStatus {
    ShardStatus {
        shard_id,
        primary_server_id: primary,
        replica_server_ids: replicas.to_vec(),
        has_local_copy: local,
        is_local_primary: local,
        applied_index: 4,
        committed_index: 5,
        match_indexes: vec![(2, 3)],
    }
}

fn peers() -> QueryPeerStore {
    let mut peers = QueryPeerStore::new();
    peers.register(2, text("b:1"));
    peers.register(3, text("c:1"));
    peers
}

fn status() -> ClusterStatus {
    ClusterStatus {
        server_id: 1,
        routing_version: 6,
        shard_count: 2,
        shards: vec![shard(0, Some(1), &[2], true), shard(1, Some(2), &[1, 3], false)],
    }
}

fn table() -> ShardRoutingTable {
    ShardRoutingTable {
        version: 6,
        placements: vec![
            ShardPlacement::new(0, vec![ShardReplica::primary(1), ShardReplica::replica(2)]),
            ShardPlacement::new(1, vec![ShardReplica::primary(2), ShardReplica::replica(1)]),
        ],
    }
}

#[test]
fn writes_are_led_to_the_primary() {
    let s = status();
    assert_eq!(ensure_local_primary_shard(&s.shards, 0), Ok(()));
    assert_eq!(
        ensure_local_primary_shard(&s.shards, 1),
        Err(text("shard 1 is not a local primary"))
    );
    assert_eq!(
        ensure_local_primary_shard(&s.shards, 9),
        Err(text("missing shard 9 in cluster status"))
    );
    assert!(matches!(write_target(&s.shards, &peers(), 0), Ok(WriteTarget::Local)));
    match write_target(&s.shards, &peers(), 1) {
        Ok(WriteTarget::Remote(address)) => assert_eq!(address, "b:1"),
        _ => panic!("the write stays here"),
    }
    match write_target(&s.shards, &QueryPeerStore::new(), 1) {
        Err(e) => assert_eq!(
            e,
            "missing query peer address for primary server 2 on write shard 1"
        ),
        Ok(_) => panic!("an unknown server is written to"),
    }
    match write_target(&[shard(1, None, &[], false)], &peers(), 1) {
        Err(e) => assert_eq!(e, "missing primary for write shard 1"),
        Ok(_) => panic!("nobody is written to"),
    }
    assert!(matches!(forward_shard_write(&s, &peers(), None), Ok(ForwardPlan::Here)));
    assert!(matches!(forward_shard_write(&s, &peers(), Some(0)), Ok(ForwardPlan::Here)));
    match forward_shard_write(&s, &peers(), Some(1)) {
        Ok(ForwardPlan::Send { address }) => assert_eq!(address, "b:1"),
        _ => panic!("the write is not sent on"),
    }
    match forward_shard_write(&s, &QueryPeerStore::new(), Some(1)) {
        Ok(ForwardPlan::Redirect { shard_id, target_server_id, routing_version }) => {
            assert_eq!((shard_id, target_server_id, routing_version), (1, 2, 6))
        }
        _ => panic!("the client is not redirected"),
    }
}

#[test]
fn reads_are_led_to_a_copy() {
    let s = shard(1, Some(2), &[3], false);
    assert_eq!(
        select_remote_query_target(&peers(), &s, QueryReadPreference::Primary),
        Ok((2, text("b:1")))
    );
    assert_eq!(
        select_remote_query_target(&peers(), &s, QueryReadPreference::PreferReplica),
        Ok((3, text("c:1")))
    );
    assert_eq!(
        select_remote_query_target(&QueryPeerStore::new(), &s, QueryReadPreference::Primary),
        Err(text("missing query peer address for primary server 2 on shard 1"))
    );
    assert_eq!(
        select_remote_query_target(&QueryPeerStore::new(), &s, QueryReadPreference::PreferReplica),
        Err(text(
            "missing query peer address for preferred replica or primary on shard 1"
        ))
    );
    assert!(matches!(
        shard_read(&peers(), &shard(0, Some(1), &[], true), QueryReadPreference::Primary),
        Ok(ShardRead::Here { shard_id: 0 })
    ));
    let mut opener: ShardOpener<u8> = ShardOpener::new(
        vec![shard(0, Some(1), &[], true), shard(1, Some(2), &[], false)],
        QueryReadPreference::Primary,
    );
    assert!(matches!(opener.next(&peers()), Ok(Some(ShardRead::Here { shard_id: 0 }))));
    opener.opened(ShardQueryCursor::local(vec![1]));
    match opener.next(&peers()) {
        Ok(Some(ShardRead::Away { shard_id, server_id, address })) => {
            assert_eq!((shard_id, server_id, address.as_str()), (1, 2, "b:1"))
        }
        _ => panic!("the second shard is not read"),
    }
    opener.opened(ShardQueryCursor::local(vec![2]));
    assert!(matches!(opener.next(&peers()), Ok(None)));
    assert_eq!(opener.finish().cursors.len(), 2);
}

#[test]
fn new_nodes_are_spread_by_their_key() {
    let shards = status().shards;
    let key = CreateNodeRoutingKey {
        labels: vec![text("P")],
        properties: vec![(text("a"), Value::Int(1))],
    };
    let hash = stable_create_node_routing_key_hash(&key);
    let none = QueryParams::new();
    assert_eq!(
        select_node_write_shard(&shards, &Some(key), "CREATE (n:P)", &none),
        Ok(shards[(hash % 2) as usize].shard_id)
    );
    let hash = stable_create_node_fallback_hash("CREATE (n:P)", &none);
    assert_eq!(hash, fnv_update(0xcbf2_9ce4_8422_2325, b"CREATE (n:P)"));
    assert_eq!(
        select_node_write_shard(&[], &None, "CREATE (n:P)", &none),
        Err(text("cluster status has no shards"))
    );
    assert_eq!(
        find_write_shards(&shards, &None, "MATCH (n) SET n.a = 1", &none, &Ok(vec![1])),
        Ok(vec![1])
    );
    assert_eq!(fnv_update(0xcbf2_9ce4_8422_2325, b"a"), 0xaf63_dc4c_8601_ec8c);
}

#[test]
fn routes_of_queries_are_told() {
    assert_eq!(format_read_routing_hint(&QueryRoute::LocalOnly), "READ_LOCAL");
    assert_eq!(
        format_read_routing_hint(&QueryRoute::RequiresRemoteShards(vec![1, 2])),
        "READ_REMOTE:1,2"
    );
    let facts = RoutingFacts { route: Ok(QueryRoute::LocalOnly), shards: Ok(status().shards) };
    for (query, hint) in [
        ("CREATE INDEX ON :P(a)", "SCHEMA"),
        ("MATCH (n) RETURN n", "READ_LOCAL"),
        ("MATCH (n) SET n.a = 1", "WRITE_TARGET_DYNAMIC"),
    ] {
        assert_eq!(prepared_query_routing_hint(query, &facts, &None), Ok(text(hint)));
    }
    assert_eq!(format_shard_id_list(&[]), "-");
    assert_eq!(format_shard_id_list(&[1, 2]), "1|2");
}

#[test]
fn the_state_of_replication_is_told() {
    assert_eq!(
        replication_status(&status(), &peers()),
        "server=1 routing_version=6 peers=2=b:1,3=c:1 shards=shard:0:primary=1:replicas=2:local=true:local_primary=true:applied=4:committed=5:match=2:3:lag=2:2,shard:1:primary=2:replicas=1|3:local=false:local_primary=false:applied=4:committed=5:match=2:3:lag=1:unknown|3:unknown"
    );
    let entries = replication_peer_status(&table(), 1, &peers(), Some(2));
    assert_eq!(
        format_replication_peer_status(&entries),
        "server=2 address=b:1 primary_shards=1 replica_shards=0"
    );
    assert_eq!(format_query_peers(&[(2, text("b:1"))]), "2=b:1");
}

#[test]
fn shards_are_caught_up_from_their_primaries() {
    let plan = catch_up_plan(&table(), 1, &peers(), &[7, 8], None).ok().unwrap();
    assert_eq!(plan.len(), 1);
    assert_eq!(
        format_catch_up_plan(&plan),
        "shard=1 primary=2 start=9 peer=registered"
    );
    match catch_up_plan(&table(), 1, &peers(), &[7], None) {
        Err(e) => assert_eq!(e, "missing committed index for shard 1"),
        Ok(_) => panic!("an index is missing"),
    }
    let result = CatchUpResult {
        shard_id: 1,
        primary_server_id: 2,
        start_index: 9,
        end_index: catch_up_end_index(9, 3),
        fetched_entries: 3,
    };
    assert_eq!(
        format_catch_up_results(&[result]),
        "shard=1 primary=2 start=9 end=11 fetched=3"
    );
    assert_eq!(
        startup_catch_up_line(&result),
        "neo4r-server catch-up shard=1 from primary=2 start_index=9 end_index=11 fetched=3"
    );
    assert_eq!(
        periodic_catch_up_line(&CatchUpResult { fetched_entries: 0, ..result }),
        None
    );
    let grouped = entries_by_shard(&[4, 2, 4]);
    assert_eq!((grouped.shard_at(0), grouped.writes_at(0)), (2, vec![1]));
    assert_eq!((grouped.shard_at(1), grouped.writes_at(1)), (4, vec![0, 2]));
}

#[test]
fn endpoints_and_identities_of_peers_are_checked() {
    assert!(matches!(
        replication_endpoint(text("a"), None),
        Ok(ReplicationEndpoint::Tcp { .. })
    ));
    assert!(matches!(
        replication_endpoint(text("a"), Some(ReplicationChannelKind::Udp)),
        Ok(ReplicationEndpoint::Udp { .. })
    ));
    match replication_endpoint(text("a"), Some(ReplicationChannelKind::Rdma)) {
        Err(e) => assert_eq!(
            e,
            "rdma replication endpoints require an rdma-enabled provider boundary"
        ),
        Ok(_) => panic!("there is no such endpoint"),
    }
    assert_eq!(
        validate_replication_peer_identity(1, 1, None),
        Err(text("replication peer 1 cannot point to local server"))
    );
    assert_eq!(
        validate_replication_peer_identity(1, 2, Some(1)),
        Err(text("replication peer node_id 1 cannot point to local server"))
    );
    assert_eq!(validate_replication_peer_identity(1, 2, Some(2)), Ok(()));
}

#[test]
fn values_are_written_for_requests() {
    assert_eq!(hex_encode_for_request(b"\x00\xff"), "00ff");
    assert_eq!(format_value_for_request(&Value::Null), "n:");
    assert_eq!(format_value_for_request(&Value::Int(-5)), "i:-5");
    assert_eq!(format_value_for_request(&Value::Text(text("x"))), "s:x");
    assert_eq!(encode_value_for_map_request(&Value::Text(text("a"))), "s:61");
    assert_eq!(encode_value_for_map_request(&Value::Bool(true)), "b:1");
    let float = FloatValue { text: text("1.5"), bits: 1.5f64.to_bits(), finite: true };
    assert_eq!(
        encode_value_for_map_request(&Value::Float(float)),
        format!("f:{}", 1.5f64.to_bits())
    );
    let map = vec![(text("b"), Value::Null), (text("a"), Value::Int(1)), (text("b"), Value::Int(2))];
    assert_eq!(encode_map_for_request(&map), "61~i:1,62~i:2");
    assert_eq!(format_properties_suffix(&map), "\ta=i:1\tb=i:2");
    let mut params = QueryParams::new();
    params.insert(text("p"), Value::Int(1));
    assert_eq!(
        format_query_shard_payload(3, "MATCH (n)", &params),
        "QUERY_SHARD\t3\tMATCH (n)\tp=i:1"
    );
    assert_eq!(
        format_query_write_shard_payload(3, "CREATE (n)", &params),
        "QUERY_WRITE_SHARD\t3\tCREATE (n)\tp=i:1"
    );
    assert_eq!(format_query_staged_shard_payload(3, "b"), "QUERY_STAGED_SHARD\t3\tb");
}

#[test]
fn requests_are_dispatched_and_answered() {
    assert!(matches!(
        execute_request(BackendRequest::Ping, text("")),
        Dispatch::Answer(BackendResponse::OkPong)
    ));
    match execute_request(BackendRequest::ListQueryPeers, text("")) {
        Dispatch::Answer(BackendResponse::Failed(e)) => {
            assert_eq!(e, "peer management and catch-up require a backend coordinator")
        }
        _ => panic!("a database knows no peers"),
    }
    let (call, form) = match execute_request(BackendRequest::DeleteNode(4), text("")) {
        Dispatch::Storage { call, form } => (call, form),
        _ => panic!("the node is not deleted"),
    };
    assert!(matches!(call, StorageCall::DeleteNode { .. }));
    assert!(matches!(
        answer_request(form, Ok(StorageOutcome::Done)),
        BackendResponse::OkUnit
    ));
    match answer_request(ReplyForm::Unit, Err(text("no"))) {
        BackendResponse::Failed(e) => assert_eq!(e, "no"),
        _ => panic!("the failure is not told"),
    }
    assert_eq!(response_kind(&BackendResponse::OkPong), ReplyKind::Response);
    assert_eq!(response_kind(&BackendResponse::Failed(text("x"))), ReplyKind::Error);
    assert_eq!(rebalance_next("waiting_for_catch_up shard=1", None), RebalanceNext::Pump);
    assert_eq!(rebalance_next("snapshot_bootstrap_required", None), RebalanceNext::Pump);
    assert_eq!(rebalance_next("cutover", None), RebalanceNext::Answer);
    assert_eq!(rebalance_next("waiting_for_catch_up", Some(0)), RebalanceNext::Answer);
    assert_eq!(rebalance_next("waiting_for_catch_up", Some(2)), RebalanceNext::AdvanceAgain);
    assert_eq!(
        advanced_rebalance("cutover", 2, "step=1"),
        "action=cutover auto_pump_sent=2 step=1"
    );
}

#[test]
fn requests_that_write_a_shard_are_sent_on() {
    let delete = BackendRequest::DeleteNode(5);
    assert_eq!(write_request_shard(&delete, 2, &Ok(0)), Ok(Some(1)));
    assert_eq!(write_request_shard(&BackendRequest::Ping, 2, &Ok(0)), Ok(None));
    assert_eq!(
        write_request_shard(&BackendRequest::DeleteRelationship(1), 2, &Err(text("gone"))),
        Err(text("gone"))
    );
    assert_eq!(format_command_request_payload(&delete), Ok(text("DELETE_NODE\t5")));
    assert_eq!(
        format_command_request_payload(&BackendRequest::Ping),
        Err(text("request is not a forwardable write command"))
    );
    let facts = RequestFacts {
        mutates: true,
        maintenance: Ok(false),
        forward: Ok(ForwardPlan::Send { address: text("b:1") }),
        capabilities: text(""),
    };
    match execute_backend_command(BackendRequest::DeleteNode(5), facts) {
        Ok(CommandPlan::Send { address, payload }) => {
            assert_eq!((address.as_str(), payload.as_str()), ("b:1", "DELETE_NODE\t5"))
        }
        _ => panic!("the request is not sent on"),
    }
    let facts = RequestFacts {
        mutates: true,
        maintenance: Ok(false),
        forward: Ok(ForwardPlan::Redirect { shard_id: 1, target_server_id: 2, routing_version: 6 }),
        capabilities: text(""),
    };
    match execute_backend_command(BackendRequest::DeleteNode(5), facts) {
        Ok(CommandPlan::Redirect(redirect)) => {
            assert_eq!(redirect.kind, RedirectKind::Moved);
            assert_eq!((redirect.shard_id, redirect.target_server_id), (1, Some(2)));
            assert!(redirect.address.is_none() && redirect.retryable);
        }
        _ => panic!("the client is not redirected"),
    }
}

#[test]
fn a_restore_is_not_disturbed() {
    let task = execute_backend_request(BackendRequest::DeleteNode(5), true, &Ok(true), text(""));
    match task {
        BackendTask::Answer(BackendResponse::Failed(_)) => {}
        _ => panic!("data is changed during a restore"),
    }
    let task = execute_backend_request(BackendRequest::Ping, false, &Ok(true), text(""));
    assert!(matches!(task, BackendTask::Answer(BackendResponse::OkPong)));
}

fn peer_facts() -> PeerFacts {
    PeerFacts {
        routing: Ok(table()),
        status: Ok(status()),
        committed: Ok(vec![7, 8]),
        members: Ok((
            vec![
                ClusterMember { server_id: 4, address: text("d:1"), state: NodeMembershipState::Active },
                ClusterMember { server_id: 5, address: text("e:1"), state: NodeMembershipState::Departed },
            ],
            3,
        )),
        now_ms: 100,
    }
}

#[test]
fn peers_are_registered_listed_and_forgotten() {
    let mut backend = TcpBackend::new(2);
    backend.register_query_peer(2, text("b:1"));
    assert_eq!(backend.list_query_peers(), vec![(2, text("b:1"))]);
    backend.unregister_query_peer(2);
    assert!(backend.list_query_peers().is_empty());
    assert!(backend.register_replication_peer(1, 2, text("b:2")).is_ok());
    assert!(backend.register_replication_peer(1, 1, text("a:2")).is_err());
    backend.note_replication_peer(2, text("b:2"));
    assert_eq!(backend.list_replication_peers(), vec![(2, text("b:2"))]);
    backend.forget_replication_peer(2);
    assert!(backend.list_replication_peers().is_empty());
    let config = TcpBackendConfig { worker_count: 0, ..TcpBackendConfig::with_workers(4) };
    assert_eq!(config.effective().worker_count, 1);
}

#[test]
fn tasks_about_peers_are_done() {
    let mut backend = TcpBackend::new(2);
    let task = execute_backend_request(
        BackendRequest::RegisterQueryPeer { server_id: 2, address: text("b:1") },
        false,
        &Ok(false),
        text(""),
    );
    match backend.run_peer_task(task, &peer_facts()) {
        Ok(PeerStep::Answered { response: BackendResponse::OkUnit, changed }) => assert!(changed),
        _ => panic!("the peer is not registered"),
    }
    let task = execute_backend_request(BackendRequest::ListQueryPeers, false, &Ok(false), text(""));
    match backend.run_peer_task(task, &peer_facts()) {
        Ok(PeerStep::Answered { changed, .. }) => assert!(!changed),
        _ => panic!("the peers are not listed"),
    }
    let task = BackendTask::GossipRefreshFromMembership;
    match backend.run_peer_task(task, &peer_facts()) {
        Ok(PeerStep::Answered { response: BackendResponse::OkGossip(told), .. }) => {
            assert_eq!(told, "accepted=1")
        }
        _ => panic!("the members are not heard of"),
    }
    assert_eq!(
        backend.list_query_peers(),
        vec![(2, text("b:1")), (4, text("d:1"))]
    );
    assert_eq!(backend.gossip_nodes.live_query_address(4, 100), Some(text("d:1")));
}

#[test]
fn negotiated_peers_are_admitted_by_their_identity() {
    let mut backend = TcpBackend::new(1);
    let identity = backend
        .admit_negotiated_peer(
            &Ok(1),
            2,
            "b:2",
            Negotiation {
                membership: Ok(()),
                remote: Ok(RemoteIdentity {
                    node_id: 2,
                    cluster_id: text("c"),
                    database_id: text("d"),
                }),
                verdict: Ok(()),
            },
        )
        .ok()
        .unwrap();
    assert_eq!((identity.server_id, identity.node_id), (2, Some(2)));
    assert_eq!(identity.transport, "tcp");
    assert_eq!(backend.note_identified_peer(identity), Ok(()));
    let refused = backend.admit_negotiated_peer(
        &Ok(1),
        3,
        "c:2",
        Negotiation {
            membership: Err(text("no member")),
            remote: Err(text("silent")),
            verdict: Ok(()),
        },
    );
    match refused {
        Err(e) => assert_eq!(e, "no member"),
        Ok(_) => panic!("a stranger is admitted"),
    }
}

#[test]
fn servers_start_by_their_settings() {
    assert_eq!(check_routing_size(&table(), 2), Ok(()));
    assert_eq!(
        check_routing_size(&table(), 3),
        Err(text("routing table contains 2 shard placements but --shards is 3"))
    );
    assert_eq!(election_timeout_ms(8), 1637);
    assert_eq!(heartbeat(6), (7, false));
    assert_eq!(heartbeat(7), (8, true));
    assert_eq!(check_replication_transport(ReplicationChannelKind::Tcp), Ok(()));
    assert_eq!(
        check_replication_transport(ReplicationChannelKind::Udp),
        Err(text("udp is not supported for raft replication transport"))
    );
    assert_eq!(
        check_replication_listener(ReplicationChannelKind::Custom),
        Err(text("replication listener does not support Custom"))
    );
    assert_eq!(
        startup_recovery_line(2),
        "neo4r-server recovered 2 transaction decision(s)"
    );
    assert_eq!(periodic_recovery_line(&Ok(0)), None);
    assert_eq!(
        periodic_recovery_line(&Err(text("x"))),
        Some(text("neo4r-server periodic transaction recovery failed: x"))
    );
}

#[test]
fn replication_channels_identify_themselves_whole() {
    let channel = TlsReplicationChannel::new(ReplicationTlsConfig {
        server_name: text("n"),
        ca_cert_path: text("ca"),
        client_cert_path: Some(text("c")),
        client_key_path: None,
    });
    match channel.client_identity() {
        Err(e) => assert_eq!(
            e,
            "replication TLS client cert and key must be provided together"
        ),
        Ok(_) => panic!("a certificate without a key is taken"),
    }
    assert_eq!(channel.kind(), ReplicationChannelKind::Tcp);
    let answer = AppendAnswer {
        success: false,
        term: 3,
        match_index: 0,
        conflict_index: Some(4),
        conflict_term: None,
    };
    assert_eq!(
        TlsReplicationChannel::append_complaint(answer),
        Some(text(
            "raft append rejected term=3 conflict_index=Some(4) conflict_term=None"
        ))
    );
}

fn sent(outcomes: &[Result<u64, &str>], max_attempts: usize) -> (usize, Result<u64, String>) {
    let mut attempt = 1;
    loop {
        let outcome = match outcomes[attempt - 1] {
            Ok(value) => Ok(value),
            Err(error) => Err(text(error)),
        };
        match TlsReplicationChannel::after_attempt(attempt, max_attempts, outcome) {
            AfterAttempt::Sent(value) => return (attempt, Ok(value)),
            AfterAttempt::Failed(error) => return (attempt, Err(error)),
            AfterAttempt::TryAgain(next) => attempt = next,
        }
    }
}

#[test]
fn sending_ends_with_the_first_success_or_the_last_error() {
    let mixed = [Err("refused"), Err("timed out"), Ok(7), Ok(8)];
    assert_eq!(sent(&mixed, 4), (3, Ok(7)));
    assert_eq!(sent(&mixed, 2), (2, Err(text("timed out"))));
    assert_eq!(sent(&mixed, 1), (1, Err(text("refused"))));
    assert_eq!(sent(&mixed, 0), (1, Err(text("refused"))));
    assert_eq!(sent(&[Ok(1)], 0), (1, Ok(1)));
}

#[test]
fn clients_are_held_against_an_authority_where_they_have_to() {
    let mut config = NativeTlsConfig {
        cert_path: text("c"),
        key_path: text("k"),
        client_ca_path: Some(text("ca")),
        require_client_auth: false,
    };
    assert_eq!(config.client_ca(), Ok(None));
    config.require_client_auth = true;
    assert_eq!(config.client_ca(), Ok(Some(text("ca"))));
    config.client_ca_path = None;
    assert_eq!(
        config.client_ca(),
        Err(text(
            "native TLS client CA path is required when client auth is enabled"
        ))
    );
}

#[test]
fn kinds_of_queries_are_told_apart() {
    assert!(is_schema_cypher("create index on :P(a)"));
    assert!(is_write_cypher("CREATE INDEX ON :P(a)"));
    assert!(!is_batchable_cypher_mutation("CREATE INDEX ON :P(a)"));
    assert!(is_write_cypher("CREATE (n)") && is_create_node_cypher("CREATE (n)"));
    assert!(is_merge_node_cypher("MERGE (n)"));
    assert!(is_delete_cypher("MATCH (n) DELETE n"));
    assert!(is_batchable_cypher_mutation("MATCH (n) SET n.a = 1"));
    assert!(!is_write_cypher("MATCH (n) RETURN n"));
    assert_eq!(
        database_from_use_clause("USE sales MATCH (n) RETURN n", &Ok(())),
        Ok(Some(text("sales")))
    );
    assert_eq!(
        strip_database_use_clause("USE `s b`; MATCH (n)", &Ok(())),
        Ok(text("MATCH (n)"))
    );
    assert_eq!(
        strip_database_use_clause("USE sales", &Ok(())),
        Err(text("USE requires a following query"))
    );
    assert_eq!(
        describe_query_parameters("MATCH (n) WHERE n.a = $b AND n.c = $a AND n.d = $b"),
        vec![text("a"), text("b")]
    );
    assert_eq!(
        validate_prepared_query_params(4, "RETURN $b, $a", &QueryParams::new()),
        Err(text("prepared query 4 missing parameter(s): a,b"))
    );
    assert_eq!(
        write_conflict_key("match  (n) set n.a = 1 return n", &[text("b=1"), text("a=2")]),
        Some(text("MATCH (N) SET N.A = 1|params=a=2,b=1"))
    );
    assert_eq!(write_conflict_key("MATCH (n) RETURN n", &[]), None);
}

#[test]
fn a_write_goes_through_its_shards_in_turn() {
    let targets = Ok(vec![0, 1]);
    let mut writer: ShardWriter<u8> = ShardWriter::new(
        status().shards,
        &None,
        text("MATCH (n) SET n.a = 1"),
        QueryParams::new(),
        &targets,
    )
    .ok()
    .unwrap();
    assert!(matches!(writer.next(&peers()), Ok(Some(WriteStep::Here { shard_id: 0 }))));
    writer.wrote(vec![1, 2]);
    match writer.next(&peers()) {
        Ok(Some(WriteStep::Away { address, payload })) => {
            assert_eq!(address, "b:1");
            assert_eq!(payload, "QUERY_WRITE_SHARD\t1\tMATCH (n) SET n.a = 1");
        }
        _ => panic!("the second shard is not written"),
    }
    writer.wrote(vec![3]);
    assert!(matches!(writer.next(&peers()), Ok(None)));
    assert_eq!(writer.finish(), vec![1, 2, 3]);
    let refused: Result<ShardWriter<u8>, String> = ShardWriter::new(
        status().shards,
        &None,
        text("MATCH (n) SET n.a = 1"),
        QueryParams::new(),
        &Err(text("unknown label")),
    );
    match refused {
        Err(e) => assert_eq!(e, "unknown label"),
        Ok(_) => panic!("the write has no shards"),
    }
}

#[test]
fn a_primary_is_caught_up_with_shard_by_shard() {
    let (mut run, address) =
        CatchUpRun::new(table(), 1, &peers(), vec![7, 8], 2).ok().unwrap();
    assert_eq!(address, "b:1");
    assert_eq!(run.next(), Ok(Some((1, 9))));
    run.fetched(9, 3);
    assert_eq!(run.next(), Ok(None));
    assert_eq!(
        format_catch_up_results(&run.results),
        "shard=1 primary=2 start=9 end=11 fetched=3"
    );
    match CatchUpRun::new(table(), 1, &QueryPeerStore::new(), vec![7, 8], 2) {
        Err(e) => assert_eq!(e, "missing peer address for primary server 2"),
        Ok(_) => panic!("an unknown server is caught up with"),
    }
    let (mut run, _) = CatchUpRun::new(table(), 1, &peers(), vec![7], 2).ok().unwrap();
    assert_eq!(run.next(), Err(text("missing committed index for shard 1")));
}
