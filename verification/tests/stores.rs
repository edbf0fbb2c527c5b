use neo4r_server::gossip::{GossipNodeRecord, GossipNodeStore};
use neo4r_server::identities::{ReplicationPeerIdentity, ReplicationPeerIdentityStore};
use neo4r_server::migration::{
    decode_schema_progress, encode_schema_progress, SchemaMigrationProgress,
};
use neo4r_server::peers::QueryPeerStore;
use neo4r_server::readiness::{
    alert_rules_cover_required_metrics, compare_previous_release_metadata,
    evaluate_resource_admission, execute_gc_plan, validate_restore_drill_manifest, GcPlan,
    ResourceAdmissionPolicy, ResourceAdmissionRequest,
};

#[test]
fn replication_peer_identity_store_persists_records() {
    let mut store = ReplicationPeerIdentityStore::new();
    store
        .register(ReplicationPeerIdentity::tcp(
            2,
            "127.0.0.1:17688",
            Some(2),
            "cluster-a",
            "default",
        ))
        .unwrap();

    let reopened = ReplicationPeerIdentityStore::decode(&store.encode()).ok().unwrap();
    assert_eq!(
        reopened.get(2),
        Some(ReplicationPeerIdentity::tcp(
            2,
            "127.0.0.1:17688",
            Some(2),
            "cluster-a",
            "default",
        ))
    );
}

#[test]
fn replication_peer_identity_store_detects_indirect_cycles() {
    let mut store = ReplicationPeerIdentityStore::new();
    store
        .register(ReplicationPeerIdentity::tcp(
            2,
            "127.0.0.1:17688",
            Some(3),
            "cluster-a",
            "default",
        ))
        .unwrap();
    store
        .register(ReplicationPeerIdentity::tcp(
            3,
            "127.0.0.1:17689",
            Some(4),
            "cluster-a",
            "default",
        ))
        .unwrap();

    assert!(store.would_create_cycle(4, Some(2)));
    assert!(!store.would_create_cycle(5, Some(2)));
}

#[test]
fn gossip_node_store_persists_and_rejects_stale_incarnation() {
    let mut store = GossipNodeStore::new();
    assert!(store
        .upsert(GossipNodeRecord {
            server_id: 2,
            query_address: "127.0.0.1:17688".to_string(),
            replication_address: "127.0.0.1:18688".to_string(),
            incarnation: 7,
            ttl_ms: 1000,
            seen_at_ms: 100,
        })
        .unwrap());
    assert!(!store
        .upsert(GossipNodeRecord {
            server_id: 2,
            query_address: "127.0.0.1:17699".to_string(),
            replication_address: "127.0.0.1:18699".to_string(),
            incarnation: 6,
            ttl_ms: 1000,
            seen_at_ms: 200,
        })
        .unwrap());

    let reopened = GossipNodeStore::decode(&store.encode()).ok().unwrap();
    assert_eq!(
        reopened.live_query_address(2, 500).as_deref(),
        Some("127.0.0.1:17688")
    );
    assert_eq!(reopened.live_query_address(2, 1200), None);
}

#[test]
fn schema_migration_progress_store_survives_reopen() {
    let progress = SchemaMigrationProgress {
        migration_id: "idx-person-email-v1".to_string(),
        state: "running".to_string(),
        processed_rows: 7,
        total_rows: 10,
        updated_at_unix_ms: 42,
    };

    let reopened = decode_schema_progress(&encode_schema_progress(&progress)).ok().unwrap();

    assert_eq!(reopened.migration_id, progress.migration_id);
    assert_eq!(reopened.state, progress.state);
    assert_eq!(reopened.processed_rows, progress.processed_rows);
    assert_eq!(reopened.total_rows, progress.total_rows);
    assert_eq!(reopened.updated_at_unix_ms, progress.updated_at_unix_ms);
}

#[test]
fn gc_executor_respects_dry_run_and_pending_restore_guard() {
    let candidate = "00000000000000000001.log".to_string();
    let dry_run = GcPlan {
        dry_run: true,
        safe_watermark: 1,
        candidates: vec![candidate.clone()],
    };

    assert_eq!(execute_gc_plan(&dry_run, false).unwrap().len(), 0);
    let apply = GcPlan {
        dry_run: false,
        safe_watermark: 1,
        candidates: vec![candidate.clone()],
    };
    assert!(execute_gc_plan(&apply, true)
        .unwrap_err()
        .contains("pending restore"));
    let removed = execute_gc_plan(&apply, false).unwrap();
    assert_eq!(removed.len(), 1);
    assert_eq!(removed, vec![candidate]);
}

#[test]
fn previous_release_metadata_must_not_move_backwards() {
    let previous = "native_protocol_min=1\nnative_protocol_max=1\ndata_format_version=1\nstorage_manifest_format=1\n";
    let current = "native_protocol_min=1\nnative_protocol_max=2\ndata_format_version=1\nstorage_manifest_format=1\n";

    assert!(compare_previous_release_metadata(current, previous).is_ok());
    assert!(compare_previous_release_metadata(previous, current)
        .unwrap_err()
        .contains("moved backwards"));
}

#[test]
fn alert_rules_must_cover_required_metrics() {
    let rules = "expr: neo4r_raft_leaders == 0\nexpr: neo4r_storage_repair_failures_total > 0\n";

    assert!(alert_rules_cover_required_metrics(
        rules,
        &["neo4r_raft_leaders", "neo4r_storage_repair_failures_total"]
    )
    .is_ok());
    assert!(alert_rules_cover_required_metrics(rules, &["neo4r_missing"]).is_err());
}

#[test]
fn restore_drill_manifest_requires_seed_and_query_checks() {
    let manifest = "policy: snapshot-plus-wal-archive\nmax_age_hours: 24\nrestore_targets:\n  - expected_checks:\n      - metadata-reopens\n      - wal-archive-readable\n      - query-regression-corpus-runs\n      - seed-new-cluster-from-restored-data\n";
    let missing_seed = "policy: snapshot-plus-wal-archive\nmax_age_hours: 24\nrestore_targets:\n  - expected_checks:\n      - metadata-reopens\n      - wal-archive-readable\n      - query-regression-corpus-runs\n";

    assert!(validate_restore_drill_manifest(manifest).is_ok());
    assert!(validate_restore_drill_manifest(missing_seed)
        .unwrap_err()
        .contains("seed-new-cluster"));
}

#[test]
fn resource_admission_rejects_over_budget_requests() {
    let policy = ResourceAdmissionPolicy {
        max_concurrent_queries: 2,
        max_result_rows: 100,
        max_memory_bytes: 1024,
    };

    assert!(evaluate_resource_admission(
        &policy,
        &ResourceAdmissionRequest {
            active_queries: 1,
            estimated_result_rows: 10,
            estimated_memory_bytes: 512,
        }
    )
    .is_ok());
    assert!(evaluate_resource_admission(
        &policy,
        &ResourceAdmissionRequest {
            active_queries: 2,
            estimated_result_rows: 10,
            estimated_memory_bytes: 512,
        }
    )
    .unwrap_err()
    .contains("concurrency"));
}

#[test]
fn peers_are_read_back_from_their_file() {
    let mut peers = QueryPeerStore::new();
    peers.register(3, "c:1".to_string());
    peers.register(2, "b:1".to_string());
    let file = peers.encode();
    assert_eq!(file, "N4RPEERS1\n2\tb:1\n3\tc:1\n");
    let read = QueryPeerStore::decode(&file).ok().unwrap();
    assert_eq!(read.list(), peers.list());
    assert_eq!(read.address(3), Some("c:1".to_string()));
    for (file, problem) in [
        ("", "missing peer store header"),
        ("other\n", "invalid peer store header"),
        ("N4RPEERS1\nx\n", "invalid peer record"),
        ("N4RPEERS1\nx\ta\n", "invalid peer server id"),
        ("N4RPEERS1\n1\ta\tb\n", "invalid peer address"),
    ] {
        match QueryPeerStore::decode(file) {
            Err(e) => assert_eq!(e, problem),
            Ok(_) => panic!("{file} is read"),
        }
    }
}
