use neo4r_server::args::ServerArgs;
use neo4r_server::config::{
    key_value_config_args, DatabaseSection, GossipSection, MaintenanceSection, PeerConfig,
    ProductionSection, QuerySection, ReplicationSection, ServerConfigFile, ServerSection,
    WebSection,
};
use neo4r_server::daemon::daemon_child_args;
use neo4r_server::model::{
    QueryReadPreference, ReplicationAckPolicy, ReplicationChannelKind, ShardPlacement, ShardReplica,
};
use neo4r_server::options::{find_option, ProductionSecurityMode, ReplicaPeer, ServerOption};
use neo4r_server::routing::{metadata_primary_server_id, parse_routing_table_config};
use neo4r_server::startup::{
    catalog_sync_on_startup, catch_up_interval, start_action, StartAction,
};
use serde_yaml::Value;

fn strings(list: &[&str]) -> Vec<String> {
    list.iter().map(|s| s.to_string()).collect()
}

fn parse(list: &[&str]) -> Result<ServerArgs, String> {
    ServerArgs::parse(&strings(list), &[], 4)
}

fn refusal(list: &[&str]) -> String {
    parse(list).err().unwrap()
}

/// The value under a name in a section of a configuration file.
fn at<'a>(file: &'a Value, section: &str, name: &str) -> Option<&'a Value> {
    file.get(section)?.get(name)
}

fn text(file: &Value, section: &str, name: &str) -> Option<String> {
    at(file, section, name).map(|v| v.as_str().unwrap().to_string())
}

fn number(file: &Value, section: &str, name: &str) -> Option<u64> {
    at(file, section, name).map(|v| v.as_u64().unwrap())
}

fn size(file: &Value, section: &str, name: &str) -> Option<usize> {
    number(file, section, name).map(|n| n as usize)
}

fn switch(file: &Value, section: &str, name: &str) -> Option<bool> {
    at(file, section, name).map(|v| v.as_bool().unwrap())
}

fn peer_list(file: &Value, section: &str, name: &str) -> Vec<PeerConfig> {
    let list = match at(file, section, name) {
        Some(v) => v.as_sequence().unwrap().clone(),
        None => Vec::new(),
    };
    list.iter()
        .map(|p| PeerConfig {
            server_id: p.get("server_id").unwrap().as_u64().unwrap(),
            address: p.get("address").unwrap().as_str().unwrap().to_string(),
            role: p.get("role").map(|r| r.as_str().unwrap().to_string()),
        })
        .collect()
}

fn config_file(contents: &str) -> ServerConfigFile {
    let f: Value = serde_yaml::from_str(contents).unwrap();
    ServerConfigFile {
        server: ServerSection {
            bind: text(&f, "server", "bind"),
            data_dir: text(&f, "server", "data_dir"),
            server_id: number(&f, "server", "server_id"),
            workers: size(&f, "server", "workers"),
            queue_capacity: size(&f, "server", "queue_capacity"),
            page_size: size(&f, "server", "page_size"),
            primary_server_id: number(&f, "server", "primary_server_id"),
            routing_table: text(&f, "server", "routing_table"),
            daemonize: switch(&f, "server", "daemonize"),
        },
        database: DatabaseSection {
            shards: number(&f, "database", "shards"),
            partitions: size(&f, "database", "partitions"),
        },
        replication: ReplicationSection {
            bind: text(&f, "replication", "bind"),
            transport: text(&f, "replication", "transport"),
            ack: text(&f, "replication", "ack"),
            connect_timeout_ms: number(&f, "replication", "connect_timeout_ms"),
            retry_attempts: size(&f, "replication", "retry_attempts"),
            retry_backoff_ms: number(&f, "replication", "retry_backoff_ms"),
            max_in_flight_batches: size(&f, "replication", "max_in_flight_batches"),
            replica_peers: peer_list(&f, "replication", "replica_peers"),
            peers: peer_list(&f, "replication", "peers"),
            catch_up_on_startup: switch(&f, "replication", "catch_up_on_startup"),
            catch_up_interval_ms: number(&f, "replication", "catch_up_interval_ms"),
            catch_up_batch_size: size(&f, "replication", "catch_up_batch_size"),
        },
        query: QuerySection {
            read_preference: text(&f, "query", "read_preference"),
            peers: peer_list(&f, "query", "peers"),
        },
        gossip: GossipSection {
            advertise_query: text(&f, "gossip", "advertise_query"),
            advertise_replication: text(&f, "gossip", "advertise_replication"),
            interval_ms: number(&f, "gossip", "interval_ms"),
            ttl_ms: number(&f, "gossip", "ttl_ms"),
            fanout: size(&f, "gossip", "fanout"),
            auth_token: text(&f, "gossip", "auth_token"),
            auto_negotiate_replication: switch(&f, "gossip", "auto_negotiate_replication"),
            seed_peers: peer_list(&f, "gossip", "seed_peers"),
        },
        web: WebSection {
            bind: text(&f, "web", "bind"),
            auth_token: text(&f, "web", "auth_token"),
            slow_query_threshold_ms: number(&f, "web", "slow_query_threshold_ms"),
        },
        maintenance: MaintenanceSection {
            sync_index_catalog_on_startup: switch(
                &f,
                "maintenance",
                "sync_index_catalog_on_startup",
            ),
            sync_index_catalog_interval_ms: number(
                &f,
                "maintenance",
                "sync_index_catalog_interval_ms",
            ),
            recover_transactions_on_startup: switch(
                &f,
                "maintenance",
                "recover_transactions_on_startup",
            ),
            recover_transactions_interval_ms: number(
                &f,
                "maintenance",
                "recover_transactions_interval_ms",
            ),
        },
        production: production_section(&f),
    }
}

fn production_section(f: &Value) -> ProductionSection {
    ProductionSection {
        tls_mode: text(f, "production", "tls_mode"),
        replication_tls_mode: text(f, "production", "replication_tls_mode"),
        web_tls_mode: text(f, "production", "web_tls_mode"),
        native_tls_cert: text(f, "production", "native_tls_cert"),
        native_tls_key: text(f, "production", "native_tls_key"),
        native_tls_client_ca: text(f, "production", "native_tls_client_ca"),
        native_tls_require_client_auth: switch(f, "production", "native_tls_require_client_auth"),
        web_tls_cert: text(f, "production", "web_tls_cert"),
        web_tls_key: text(f, "production", "web_tls_key"),
        web_tls_client_ca: text(f, "production", "web_tls_client_ca"),
        web_tls_require_client_auth: switch(f, "production", "web_tls_require_client_auth"),
        replication_tls_cert: text(f, "production", "replication_tls_cert"),
        replication_tls_key: text(f, "production", "replication_tls_key"),
        replication_tls_client_ca: text(f, "production", "replication_tls_client_ca"),
        replication_tls_require_client_auth: switch(
            f,
            "production",
            "replication_tls_require_client_auth",
        ),
        replication_tls_ca: text(f, "production", "replication_tls_ca"),
        replication_tls_server_name: text(f, "production", "replication_tls_server_name"),
        replication_tls_client_cert: text(f, "production", "replication_tls_client_cert"),
        replication_tls_client_key: text(f, "production", "replication_tls_client_key"),
        min_native_protocol_version: number(
            f,
            "production",
            "min_native_protocol_version",
        ).map(|n| n as u8),
        max_native_protocol_version: number(
            f,
            "production",
            "max_native_protocol_version",
        ).map(|n| n as u8),
        backup_drill_max_age_hours: number(f, "production", "backup_drill_max_age_hours"),
        wal_archive_dir: text(f, "production", "wal_archive_dir"),
        restore_drill_manifest: text(f, "production", "restore_drill_manifest"),
        audit_retention_days: number(f, "production", "audit_retention_days"),
        secret_rotation_days: number(f, "production", "secret_rotation_days"),
        tenant_max_concurrent_queries: size(f, "production", "tenant_max_concurrent_queries"),
        tenant_max_result_rows: size(f, "production", "tenant_max_result_rows"),
        data_format_version: number(f, "production", "data_format_version").map(|n| n as u32),
        upgrade_manifest: text(f, "production", "upgrade_manifest"),
        raft_lease_clock_drift_bound_ms: number(f, "production", "raft_lease_clock_drift_bound_ms"),
        raft_lease_message_delay_bound_ms: number(
            f,
            "production",
            "raft_lease_message_delay_bound_ms",
        ),
        observability_alerts: text(f, "production", "observability_alerts"),
        repair_check_on_startup: switch(f, "production", "repair_check_on_startup"),
        query_regression_corpus: text(f, "production", "query_regression_corpus"),
        chaos_gate_required: switch(f, "production", "chaos_gate_required"),
        runbook: text(f, "production", "runbook"),
        systemd_unit: text(f, "production", "systemd_unit"),
        logrotate: text(f, "production", "logrotate"),
    }
}

#[test]
fn parses_server_args() {
    let args = parse(&[
        "--bind",
        "127.0.0.1:9000",
        "--data-dir",
        "/tmp/neo4r",
        "--shards",
        "8",
        "--partitions",
        "2",
        "--server-id",
        "10",
        "--workers",
        "3",
        "--queue-capacity",
        "32",
        "--page-size",
        "16",
        "--read-preference",
        "prefer-replica",
        "--primary-server-id",
        "10",
        "--routing-table",
        "/tmp/neo4r-routing.txt",
        "--replica-peer",
        "11=127.0.0.1:9701",
        "--peer",
        "10=127.0.0.1:9700",
        "--query-peer",
        "12=127.0.0.1:7688",
        "--replication-bind",
        "127.0.0.1:9700",
        "--replication-transport",
        "rdma",
        "--web-bind",
        "127.0.0.1:7474",
        "--web-auth-token",
        "secret",
        "--slow-query-threshold-ms",
        "50",
        "--replication-ack",
        "quorum",
        "--replication-connect-timeout-ms",
        "750",
        "--replication-retry-attempts",
        "3",
        "--replication-retry-backoff-ms",
        "25",
        "--catch-up-on-startup",
        "--catch-up-interval-ms",
        "1000",
        "--catch-up-batch-size",
        "128",
        "--sync-index-catalog-on-startup",
        "--sync-index-catalog-interval-ms",
        "2000",
        "--recover-transactions-on-startup",
        "--recover-transactions-interval-ms",
        "3000",
        "--daemonize",
    ]).unwrap();

    assert_eq!(args.required_text(ServerOption::Bind), "127.0.0.1:9000");
    assert_eq!(args.required_text(ServerOption::DataDir), String::from("/tmp/neo4r"));
    assert_eq!(args.number(ServerOption::Shards).unwrap(), 8);
    assert_eq!(args.text(ServerOption::WebAuthToken), Some("secret".to_string()));
    assert_eq!(args.number(ServerOption::SlowQueryThresholdMs).unwrap(), 50);
    assert_eq!(args.number(ServerOption::Partitions).unwrap(), 2);
    assert_eq!(args.number(ServerOption::ServerId).unwrap(), 10);
    assert_eq!(args.number(ServerOption::Workers).unwrap(), 3);
    assert_eq!(args.number(ServerOption::QueueCapacity).unwrap(), 32);
    assert_eq!(args.number(ServerOption::PageSize).unwrap(), 16);
    assert_eq!(args.read_preference(), QueryReadPreference::PreferReplica);
    assert_eq!(args.number(ServerOption::PrimaryServerId).unwrap(), 10);
    assert_eq!(
        args.text(ServerOption::RoutingTable),
        Some(String::from("/tmp/neo4r-routing.txt"))
    );
    assert_eq!(
        args.peers(ServerOption::ReplicaPeer),
        vec![ReplicaPeer {
            server_id: 11,
            address: "127.0.0.1:9701".to_string(),
        }]
    );
    assert_eq!(
        args.peers(ServerOption::Peer),
        vec![ReplicaPeer {
            server_id: 10,
            address: "127.0.0.1:9700".to_string(),
        }]
    );
    assert_eq!(
        args.peers(ServerOption::QueryPeer),
        vec![ReplicaPeer {
            server_id: 12,
            address: "127.0.0.1:7688".to_string(),
        }]
    );
    assert_eq!(
        args.text(ServerOption::ReplicationBind),
        Some("127.0.0.1:9700".to_string())
    );
    assert_eq!(args.replication_transport(), ReplicationChannelKind::Rdma);
    assert_eq!(args.text(ServerOption::WebBind), Some("127.0.0.1:7474".to_string()));
    assert_eq!(args.replication_ack_policy(), ReplicationAckPolicy::Quorum);
    assert_eq!(args.number(ServerOption::ReplicationConnectTimeoutMs).unwrap(), 750);
    assert_eq!(args.number(ServerOption::ReplicationRetryAttempts).unwrap(), 3);
    assert_eq!(args.number(ServerOption::ReplicationRetryBackoffMs).unwrap(), 25);
    assert!(args.flag(ServerOption::CatchUpOnStartup));
    assert_eq!(args.number(ServerOption::CatchUpIntervalMs), Some(1000));
    assert_eq!(args.number(ServerOption::CatchUpBatchSize), Some(128));
    assert!(args.flag(ServerOption::SyncIndexCatalogOnStartup));
    assert_eq!(args.number(ServerOption::SyncIndexCatalogIntervalMs), Some(2000));
    assert!(args.flag(ServerOption::RecoverTransactionsOnStartup));
    assert_eq!(args.number(ServerOption::RecoverTransactionsIntervalMs), Some(3000));
    assert!(args.flag(ServerOption::Daemonize));
}

#[test]
fn defaults_replication_transport_to_tcp() {
    let args = parse(&[]).unwrap();

    assert_eq!(args.replication_transport(), ReplicationChannelKind::Tcp);
}

#[test]
fn parses_config_validation_flags_and_dump_summary() {
    let args = parse(&["--check-config", "--bind", "127.0.0.1:9001"]).unwrap();

    assert!(args.flag(ServerOption::CheckConfig));
    assert!(!args.flag(ServerOption::ProductionCheck));
    assert!(!args.flag(ServerOption::DumpConfig));
    assert!(args.to_yaml_summary().contains("bind: 127.0.0.1:9001"));

    let err = refusal(&["--check-config", "--dump-config"]);
    assert_eq!(
        err,
        "--check-config, --production-check, and --dump-config cannot be combined"
    );
}

#[test]
fn production_check_rejects_development_defaults() {
    let args = parse(&["--production-check"]).unwrap();
    let err = args.validate_production(1, 1).unwrap_err();

    assert!(err.contains("--bind must not be loopback-only"));
    assert!(err.contains("--data-dir must be an absolute path"));
    assert!(err.contains("--web-bind is required"));
    assert!(err.contains("--web-auth-token must be set"));
}

#[test]
fn production_check_accepts_hardened_single_node_config() {
    let args = parse(&[
        "--production-check",
        "--bind",
        "0.0.0.0:7687",
        "--web-bind",
        "0.0.0.0:17687",
        "--web-auth-token",
        "admin:long-production-token",
        "--data-dir",
        "/var/lib/neo4r",
    ]).unwrap();

    args.validate_production(1, 1).unwrap();
}

#[test]
fn production_check_requires_cluster_catchup_controls() {
    let args = parse(&[
        "--production-check",
        "--bind",
        "0.0.0.0:7687",
        "--web-bind",
        "0.0.0.0:17687",
        "--web-auth-token",
        "admin:long-production-token",
        "--data-dir",
        "/var/lib/neo4r",
        "--replication-bind",
        "0.0.0.0:18687",
        "--replica-peer",
        "2=10.0.0.2:18687",
    ]).unwrap();
    let err = args.validate_production(1, 1).unwrap_err();

    assert!(err.contains("--catch-up-on-startup is required"));
    assert!(err.contains("--catch-up-interval-ms is required"));
    assert!(err.contains("--catch-up-batch-size is required"));
}

#[test]
fn production_check_rejects_async_replication_ack() {
    let args = parse(&[
        "--production-check",
        "--bind",
        "0.0.0.0:7687",
        "--web-bind",
        "0.0.0.0:17687",
        "--web-auth-token",
        "admin:long-production-token",
        "--data-dir",
        "/var/lib/neo4r",
        "--replication-ack",
        "async",
    ]).unwrap();

    assert!(args
        .validate_production(1, 1)
        .unwrap_err()
        .contains("--replication-ack async"));
}

#[test]
fn rejects_zero_catch_up_interval() {
    assert_eq!(
        refusal(&["--server-id", "2", "--primary-server-id", "1", "--catch-up-interval-ms", "0"]),
        "--catch-up-interval-ms must be greater than zero"
    );
}

#[test]
fn rejects_zero_replication_connect_timeout() {
    assert_eq!(
        refusal(&["--replication-connect-timeout-ms", "0"]),
        "--replication-connect-timeout-ms must be greater than zero"
    );
}

#[test]
fn rejects_zero_catch_up_batch_size() {
    assert_eq!(
        refusal(&["--server-id", "2", "--primary-server-id", "1", "--catch-up-batch-size", "0"]),
        "--catch-up-batch-size must be greater than zero"
    );
}

#[test]
fn rejects_zero_sync_index_catalog_interval() {
    assert_eq!(
        refusal(&["--sync-index-catalog-interval-ms", "0"]),
        "--sync-index-catalog-interval-ms must be greater than zero"
    );
}

#[test]
fn rejects_zero_recover_transactions_interval() {
    assert_eq!(
        refusal(&["--recover-transactions-interval-ms", "0"]),
        "--recover-transactions-interval-ms must be greater than zero"
    );
}

#[test]
fn daemon_child_args_preserve_replication_and_recovery_options() {
    let args = parse(&[
        "--bind",
        "127.0.0.1:9000",
        "--data-dir",
        "/tmp/neo4r",
        "--server-id",
        "2",
        "--primary-server-id",
        "1",
        "--replica-peer",
        "2=127.0.0.1:9702",
        "--peer",
        "1=127.0.0.1:9701",
        "--query-peer",
        "1=127.0.0.1:7687",
        "--replication-bind",
        "127.0.0.1:9702",
        "--web-bind",
        "127.0.0.1:7474",
        "--web-auth-token",
        "secret",
        "--slow-query-threshold-ms",
        "75",
        "--replication-ack",
        "quorum",
        "--replication-connect-timeout-ms",
        "750",
        "--replication-retry-attempts",
        "5",
        "--replication-retry-backoff-ms",
        "50",
        "--catch-up-on-startup",
        "--catch-up-interval-ms",
        "250",
        "--catch-up-batch-size",
        "64",
        "--sync-index-catalog-on-startup",
        "--sync-index-catalog-interval-ms",
        "500",
        "--recover-transactions-on-startup",
        "--recover-transactions-interval-ms",
        "750",
    ]).unwrap();

    let child_args = daemon_child_args(&args);

    assert!(child_args.contains(&"--replication-bind".to_string()));
    assert!(child_args.contains(&"127.0.0.1:9702".to_string()));
    assert!(child_args.contains(&"--web-bind".to_string()));
    assert!(child_args.contains(&"127.0.0.1:7474".to_string()));
    assert!(child_args.contains(&"--web-auth-token".to_string()));
    assert!(child_args.contains(&"secret".to_string()));
    assert!(child_args.contains(&"--slow-query-threshold-ms".to_string()));
    assert!(child_args.contains(&"75".to_string()));
    assert!(child_args.contains(&"--replication-ack".to_string()));
    assert!(child_args.contains(&"quorum".to_string()));
    assert!(child_args.contains(&"--replication-connect-timeout-ms".to_string()));
    assert!(child_args.contains(&"750".to_string()));
    assert!(child_args.contains(&"--replication-retry-attempts".to_string()));
    assert!(child_args.contains(&"5".to_string()));
    assert!(child_args.contains(&"--replication-retry-backoff-ms".to_string()));
    assert!(child_args.contains(&"50".to_string()));
    assert!(child_args.contains(&"--replica-peer".to_string()));
    assert!(child_args.contains(&"2=127.0.0.1:9702".to_string()));
    assert!(child_args.contains(&"--peer".to_string()));
    assert!(child_args.contains(&"1=127.0.0.1:9701".to_string()));
    assert!(child_args.contains(&"--query-peer".to_string()));
    assert!(child_args.contains(&"1=127.0.0.1:7687".to_string()));
    assert!(child_args.contains(&"--catch-up-on-startup".to_string()));
    assert!(child_args.contains(&"--catch-up-interval-ms".to_string()));
    assert!(child_args.contains(&"250".to_string()));
    assert!(child_args.contains(&"--catch-up-batch-size".to_string()));
    assert!(child_args.contains(&"64".to_string()));
    assert!(child_args.contains(&"--sync-index-catalog-on-startup".to_string()));
    assert!(child_args.contains(&"--sync-index-catalog-interval-ms".to_string()));
    assert!(child_args.contains(&"500".to_string()));
    assert!(child_args.contains(&"--recover-transactions-on-startup".to_string()));
    assert!(child_args.contains(&"--recover-transactions-interval-ms".to_string()));
    assert!(child_args.contains(&"750".to_string()));
    assert!(!child_args.contains(&"--daemonize".to_string()));
}

#[test]
fn builds_cluster_routing_table_from_replication_args() {
    let args = parse(&[
        "--server-id",
        "1",
        "--primary-server-id",
        "1",
        "--shards",
        "2",
        "--replica-peer",
        "2=127.0.0.1:9702",
        "--peer",
        "3=127.0.0.1:9703",
    ]).unwrap();

    let table = args.routing_table(None).unwrap().unwrap();

    assert_eq!(table.version, 1);
    assert_eq!(table.placements.len(), 2);
    for placement in &table.placements {
        assert_eq!(
            placement.replicas,
            vec![ShardReplica::primary(1), ShardReplica::replica(2)]
        );
    }
    assert_eq!(metadata_primary_server_id(&table).unwrap(), 1);
}

#[test]
fn replica_node_routing_table_includes_local_replica() {
    let args = parse(&[
        "--server-id",
        "2",
        "--primary-server-id",
        "1",
        "--shards",
        "1",
        "--replication-bind",
        "127.0.0.1:9702",
    ]).unwrap();

    let table = args.routing_table(None).unwrap().unwrap();

    assert_eq!(
        table.placements[0].replicas,
        vec![ShardReplica::primary(1), ShardReplica::replica(2)]
    );
}

#[test]
fn the_order_of_routing_lines_does_not_matter() {
    let table = parse_routing_table_config(
        "version=7\nshard=0 primary=1 replicas=2\nshard=1 primary=2\n",
    )
    .unwrap();
    let other = parse_routing_table_config(
        "# a table\nshard=1 primary=2 # the second\n\nshard=0 primary=1 replicas=2\n  \nversion=7",
    )
    .unwrap();
    assert_eq!(other, table);
}

#[test]
fn parses_explicit_routing_table_config() {
    let table = parse_routing_table_config(
        r#"
            # shard routing table
            version=7
            shard=0 primary=1 replicas=2,3
            shard=1 primary=2 replicas=1,3
            "#,
    ).unwrap();

    assert_eq!(table.version, 7);
    assert_eq!(
        table.placements,
        vec![
            ShardPlacement::new(
                0,
                vec![
                    ShardReplica::primary(1),
                    ShardReplica::replica(2),
                    ShardReplica::replica(3),
                ],
            ),
            ShardPlacement::new(
                1,
                vec![
                    ShardReplica::primary(2),
                    ShardReplica::replica(1),
                    ShardReplica::replica(3),
                ],
            ),
        ]
    );
}

#[test]
fn rejects_non_contiguous_routing_table_config() {
    let err = parse_routing_table_config(
        r#"
            version=7
            shard=1 primary=1 replicas=2
            "#,
    )
    .unwrap_err();

    assert!(err.contains("contiguous"));
}

#[test]
fn key_value_config_supports_production_check_flag() {
    let file = key_value_config_args("production_check=true\n").unwrap();

    let args = ServerArgs::parse(
        &strings(&["--config", "server-production-check-config"]),
        &[file],
        4,
    )
    .unwrap();

    assert!(args.flag(ServerOption::ProductionCheck));
}

#[test]
fn loads_server_args_from_config_file_and_allows_cli_override() {
    let contents = [
        "bind=127.0.0.1:9100",
        "data_dir=/tmp/neo4r-config",
        "shards=4",
        "server_id=2",
        "primary_server_id=1",
        "replica_peer=3=127.0.0.1:9703",
        "peer=1=127.0.0.1:9701",
        "query_peer=4=127.0.0.1:7689",
        "replication_bind=127.0.0.1:9702",
        "replication_transport=rdma",
        "catch_up_on_startup=true",
        "recover_transactions_on_startup=yes",
    ]
    .join("\n");

    let args = ServerArgs::parse(
        &strings(&[
            "--config",
            "server-config",
            "--bind",
            "127.0.0.1:9999",
            "--peer",
            "5=127.0.0.1:9705",
        ]),
        &[key_value_config_args(&contents).unwrap()],
        4,
    )
    .unwrap();

    assert_eq!(args.required_text(ServerOption::Bind), "127.0.0.1:9999");
    assert_eq!(args.required_text(ServerOption::DataDir), String::from("/tmp/neo4r-config"));
    assert_eq!(args.number(ServerOption::Shards).unwrap(), 4);
    assert_eq!(args.number(ServerOption::ServerId).unwrap(), 2);
    assert_eq!(args.number(ServerOption::PrimaryServerId).unwrap(), 1);
    assert_eq!(args.replication_transport(), ReplicationChannelKind::Rdma);
    assert!(args.flag(ServerOption::CatchUpOnStartup));
    assert!(args.flag(ServerOption::RecoverTransactionsOnStartup));
    assert_eq!(
        args.peers(ServerOption::Peer),
        vec![
            ReplicaPeer {
                server_id: 1,
                address: "127.0.0.1:9701".to_string(),
            },
            ReplicaPeer {
                server_id: 5,
                address: "127.0.0.1:9705".to_string(),
            },
        ]
    );
}

#[test]
fn tests_loads_server_args_from_yaml_config_file() {
    let file = config_file(
        r#"
server:
  bind: 127.0.0.1:9100
  data_dir: /tmp/neo4r-yaml
  server_id: 2
  primary_server_id: 1
database:
  shards: 4
  partitions: 2
replication:
  bind: 127.0.0.1:9702
  transport: rdma
  ack: quorum
  connect_timeout_ms: 750
  retry_attempts: 3
  retry_backoff_ms: 25
  peers:
    - server_id: 3
      address: 127.0.0.1:9703
      role: replica
    - server_id: 4
      address: 127.0.0.1:9704
  catch_up_on_startup: true
query:
  read_preference: prefer-replica
  peers:
    - server_id: 5
      address: 127.0.0.1:7689
web:
  bind: 127.0.0.1:7474
  auth_token: secret
maintenance:
  sync_index_catalog_on_startup: true
  recover_transactions_on_startup: true
"#,
    );

    let args = ServerArgs::parse(
        &strings(&["--config", "server-config-yaml.yml"]),
        &[file.into_args()],
        4,
    )
    .unwrap();

    assert_eq!(args.required_text(ServerOption::Bind), "127.0.0.1:9100");
    assert_eq!(args.required_text(ServerOption::DataDir), String::from("/tmp/neo4r-yaml"));
    assert_eq!(args.number(ServerOption::Shards).unwrap(), 4);
    assert_eq!(args.number(ServerOption::Partitions).unwrap(), 2);
    assert_eq!(args.number(ServerOption::ServerId).unwrap(), 2);
    assert_eq!(args.number(ServerOption::PrimaryServerId).unwrap(), 1);
    assert_eq!(
        args.text(ServerOption::ReplicationBind),
        Some("127.0.0.1:9702".to_string())
    );
    assert_eq!(args.replication_transport(), ReplicationChannelKind::Rdma);
    assert_eq!(args.replication_ack_policy(), ReplicationAckPolicy::Quorum);
    assert_eq!(args.number(ServerOption::ReplicationConnectTimeoutMs).unwrap(), 750);
    assert_eq!(args.number(ServerOption::ReplicationRetryAttempts).unwrap(), 3);
    assert_eq!(args.number(ServerOption::ReplicationRetryBackoffMs).unwrap(), 25);
    assert_eq!(
        args.peers(ServerOption::ReplicaPeer),
        vec![ReplicaPeer {
            server_id: 3,
            address: "127.0.0.1:9703".to_string(),
        }]
    );
    assert_eq!(
        args.peers(ServerOption::Peer),
        vec![ReplicaPeer {
            server_id: 4,
            address: "127.0.0.1:9704".to_string(),
        }]
    );
    assert_eq!(
        args.peers(ServerOption::QueryPeer),
        vec![ReplicaPeer {
            server_id: 5,
            address: "127.0.0.1:7689".to_string(),
        }]
    );
    assert_eq!(args.read_preference(), QueryReadPreference::PreferReplica);
    assert_eq!(args.text(ServerOption::WebBind), Some("127.0.0.1:7474".to_string()));
    assert_eq!(args.text(ServerOption::WebAuthToken), Some("secret".to_string()));
    assert!(args.flag(ServerOption::CatchUpOnStartup));
    assert!(args.flag(ServerOption::SyncIndexCatalogOnStartup));
    assert!(args.flag(ServerOption::RecoverTransactionsOnStartup));
}

#[test]
fn tests_config_loads_server_args_from_yaml_config_file() {
    let file = config_file(
        r#"
server:
  bind: 127.0.0.1:9100
  data_dir: /tmp/neo4r-yaml
  server_id: 2
  primary_server_id: 1
database:
  shards: 4
  partitions: 2
replication:
  bind: 127.0.0.1:9702
  transport: tcp
  ack: quorum
  connect_timeout_ms: 750
  retry_attempts: 3
  retry_backoff_ms: 25
  peers:
    - server_id: 3
      address: 127.0.0.1:9703
      role: replica
    - server_id: 4
      address: 127.0.0.1:9704
  catch_up_on_startup: true
query:
  read_preference: prefer-replica
  peers:
    - server_id: 5
      address: 127.0.0.1:7689
gossip:
  advertise_query: 10.0.0.2:7687
  advertise_replication: 10.0.0.2:9702
  interval_ms: 500
  ttl_ms: 2000
  fanout: 2
  auth_token: gossip-secret-token
  auto_negotiate_replication: true
  seed_peers:
    - server_id: 6
      address: 127.0.0.1:7686
web:
  bind: 127.0.0.1:7474
  auth_token: secret
maintenance:
  sync_index_catalog_on_startup: true
  recover_transactions_on_startup: true
production:
  tls_mode: external
  replication_tls_mode: required
  web_tls_mode: required
  native_tls_cert: /etc/neo4r/tls/server.crt
  native_tls_key: /etc/neo4r/tls/server.key
  native_tls_client_ca: /etc/neo4r/tls/ca.crt
  native_tls_require_client_auth: true
  web_tls_cert: /etc/neo4r/tls/web.crt
  web_tls_key: /etc/neo4r/tls/web.key
  web_tls_client_ca: /etc/neo4r/tls/ca.crt
  web_tls_require_client_auth: true
  replication_tls_cert: /etc/neo4r/tls/replication.crt
  replication_tls_key: /etc/neo4r/tls/replication.key
  replication_tls_client_ca: /etc/neo4r/tls/ca.crt
  replication_tls_require_client_auth: true
  replication_tls_ca: /etc/neo4r/tls/ca.crt
  replication_tls_server_name: neo4r-replication.local
  replication_tls_client_cert: /etc/neo4r/tls/client.crt
  replication_tls_client_key: /etc/neo4r/tls/client.key
  min_native_protocol_version: 1
  max_native_protocol_version: 1
  backup_drill_max_age_hours: 24
  wal_archive_dir: /var/lib/neo4r/wal-archive
  restore_drill_manifest: docs/pitr_restore_drill.yml
  audit_retention_days: 90
  secret_rotation_days: 30
  tenant_max_concurrent_queries: 128
  tenant_max_result_rows: 100000
  data_format_version: 1
  upgrade_manifest: docs/rolling_upgrade_manifest.yml
  raft_lease_clock_drift_bound_ms: 50
  raft_lease_message_delay_bound_ms: 200
  observability_alerts: docs/prometheus_alerts.yml
  repair_check_on_startup: true
  query_regression_corpus: docs/query_regression_corpus.yml
  chaos_gate_required: true
  runbook: docs/production_runbook.md
  systemd_unit: packaging/neo4r-server.service
  logrotate: packaging/neo4r.logrotate
"#,
    );

    let args = ServerArgs::parse(
        &strings(&["--config", "server-config-yaml.yml"]),
        &[file.into_args()],
        4,
    )
    .unwrap();

    assert_eq!(args.required_text(ServerOption::Bind), "127.0.0.1:9100");
    assert_eq!(args.required_text(ServerOption::DataDir), String::from("/tmp/neo4r-yaml"));
    assert_eq!(args.number(ServerOption::Shards).unwrap(), 4);
    assert_eq!(args.number(ServerOption::Partitions).unwrap(), 2);
    assert_eq!(args.number(ServerOption::ServerId).unwrap(), 2);
    assert_eq!(args.number(ServerOption::PrimaryServerId).unwrap(), 1);
    assert_eq!(
        args.text(ServerOption::ReplicationBind),
        Some("127.0.0.1:9702".to_string())
    );
    assert_eq!(args.replication_transport(), ReplicationChannelKind::Tcp);
    assert_eq!(args.replication_ack_policy(), ReplicationAckPolicy::Quorum);
    assert_eq!(args.number(ServerOption::ReplicationConnectTimeoutMs).unwrap(), 750);
    assert_eq!(args.number(ServerOption::ReplicationRetryAttempts).unwrap(), 3);
    assert_eq!(args.number(ServerOption::ReplicationRetryBackoffMs).unwrap(), 25);
    assert_eq!(
        args.peers(ServerOption::ReplicaPeer),
        vec![ReplicaPeer {
            server_id: 3,
            address: "127.0.0.1:9703".to_string(),
        }]
    );
    assert_eq!(
        args.peers(ServerOption::Peer),
        vec![ReplicaPeer {
            server_id: 4,
            address: "127.0.0.1:9704".to_string(),
        }]
    );
    assert_eq!(
        args.peers(ServerOption::QueryPeer),
        vec![ReplicaPeer {
            server_id: 5,
            address: "127.0.0.1:7689".to_string(),
        }]
    );
    assert_eq!(
        args.text(ServerOption::GossipAdvertiseQuery).as_deref(),
        Some("10.0.0.2:7687")
    );
    assert_eq!(
        args.text(ServerOption::GossipAdvertiseReplication).as_deref(),
        Some("10.0.0.2:9702")
    );
    assert_eq!(args.number(ServerOption::GossipIntervalMs), Some(500));
    assert_eq!(args.number(ServerOption::GossipTtlMs).unwrap(), 2000);
    assert_eq!(args.number(ServerOption::GossipFanout).unwrap(), 2);
    assert_eq!(
        args.text(ServerOption::GossipAuthToken).as_deref(),
        Some("gossip-secret-token")
    );
    assert!(args.flag(ServerOption::GossipAutoNegotiateReplication));
    assert_eq!(
        args.peers(ServerOption::GossipSeedPeer),
        vec![ReplicaPeer {
            server_id: 6,
            address: "127.0.0.1:7686".to_string(),
        }]
    );
    assert_eq!(args.read_preference(), QueryReadPreference::PreferReplica);
    assert_eq!(args.text(ServerOption::WebBind), Some("127.0.0.1:7474".to_string()));
    assert_eq!(args.text(ServerOption::WebAuthToken), Some("secret".to_string()));
    assert!(args.flag(ServerOption::CatchUpOnStartup));
    assert!(args.flag(ServerOption::SyncIndexCatalogOnStartup));
    assert!(args.flag(ServerOption::RecoverTransactionsOnStartup));
    assert_eq!(args.security(ServerOption::TlsMode), ProductionSecurityMode::External);
    assert_eq!(args.security(ServerOption::ReplicationTlsMode), ProductionSecurityMode::Required);
    assert_eq!(args.security(ServerOption::WebTlsMode), ProductionSecurityMode::Required);
    assert_eq!(
        args.text(ServerOption::NativeTlsCert),
        Some(String::from("/etc/neo4r/tls/server.crt"))
    );
    assert_eq!(
        args.text(ServerOption::NativeTlsKey),
        Some(String::from("/etc/neo4r/tls/server.key"))
    );
    assert_eq!(
        args.text(ServerOption::NativeTlsClientCa),
        Some(String::from("/etc/neo4r/tls/ca.crt"))
    );
    assert!(args.flag(ServerOption::NativeTlsRequireClientAuth));
    assert_eq!(
        args.text(ServerOption::WebTlsCert),
        Some(String::from("/etc/neo4r/tls/web.crt"))
    );
    assert_eq!(
        args.text(ServerOption::WebTlsKey),
        Some(String::from("/etc/neo4r/tls/web.key"))
    );
    assert_eq!(
        args.text(ServerOption::WebTlsClientCa),
        Some(String::from("/etc/neo4r/tls/ca.crt"))
    );
    assert!(args.flag(ServerOption::WebTlsRequireClientAuth));
    assert_eq!(
        args.text(ServerOption::ReplicationTlsCert),
        Some(String::from("/etc/neo4r/tls/replication.crt"))
    );
    assert_eq!(
        args.text(ServerOption::ReplicationTlsKey),
        Some(String::from("/etc/neo4r/tls/replication.key"))
    );
    assert_eq!(
        args.text(ServerOption::ReplicationTlsClientCa),
        Some(String::from("/etc/neo4r/tls/ca.crt"))
    );
    assert!(args.flag(ServerOption::ReplicationTlsRequireClientAuth));
    assert_eq!(
        args.text(ServerOption::ReplicationTlsCa),
        Some(String::from("/etc/neo4r/tls/ca.crt"))
    );
    assert_eq!(
        args.text(ServerOption::ReplicationTlsServerName),
        Some("neo4r-replication.local".to_string())
    );
    assert_eq!(
        args.text(ServerOption::ReplicationTlsClientCert),
        Some(String::from("/etc/neo4r/tls/client.crt"))
    );
    assert_eq!(
        args.text(ServerOption::ReplicationTlsClientKey),
        Some(String::from("/etc/neo4r/tls/client.key"))
    );
    assert_eq!(args.number(ServerOption::MinNativeProtocolVersion), Some(1));
    assert_eq!(args.number(ServerOption::MaxNativeProtocolVersion), Some(1));
    assert_eq!(args.number(ServerOption::BackupDrillMaxAgeHours), Some(24));
    assert_eq!(
        args.text(ServerOption::WalArchiveDir),
        Some(String::from("/var/lib/neo4r/wal-archive"))
    );
    assert_eq!(
        args.text(ServerOption::RestoreDrillManifest),
        Some(String::from("docs/pitr_restore_drill.yml"))
    );
    assert_eq!(args.number(ServerOption::AuditRetentionDays), Some(90));
    assert_eq!(args.number(ServerOption::SecretRotationDays), Some(30));
    assert_eq!(args.number(ServerOption::TenantMaxConcurrentQueries), Some(128));
    assert_eq!(args.number(ServerOption::TenantMaxResultRows), Some(100000));
    assert_eq!(args.number(ServerOption::DataFormatVersion), Some(1));
    assert_eq!(
        args.text(ServerOption::UpgradeManifest),
        Some(String::from("docs/rolling_upgrade_manifest.yml"))
    );
    assert_eq!(args.number(ServerOption::RaftLeaseClockDriftBoundMs), Some(50));
    assert_eq!(args.number(ServerOption::RaftLeaseMessageDelayBoundMs), Some(200));
    assert_eq!(
        args.text(ServerOption::ObservabilityAlerts),
        Some(String::from("docs/prometheus_alerts.yml"))
    );
    assert!(args.flag(ServerOption::RepairCheckOnStartup));
    assert_eq!(
        args.text(ServerOption::QueryRegressionCorpus),
        Some(String::from("docs/query_regression_corpus.yml"))
    );
    assert!(args.flag(ServerOption::ChaosGateRequired));
    assert_eq!(
        args.text(ServerOption::Runbook),
        Some(String::from("docs/production_runbook.md"))
    );
    assert_eq!(
        args.text(ServerOption::SystemdUnit),
        Some(String::from("packaging/neo4r-server.service"))
    );
    assert_eq!(
        args.text(ServerOption::Logrotate),
        Some(String::from("packaging/neo4r.logrotate"))
    );
}

#[test]
fn loads_routing_table_from_config_file() {
    let contents = r#"
            version=9
            shard=0 primary=2 replicas=1
            "#;
    let args = parse(&["--server-id", "1", "--routing-table", "neo4r-routing-config"]).unwrap();

    let table = args.routing_table(Some(contents)).unwrap().unwrap();

    assert_eq!(table.version, 9);
    assert_eq!(
        table.placements[0].replicas,
        vec![ShardReplica::primary(2), ShardReplica::replica(1)]
    );
}

#[test]
fn later_arguments_replace_earlier_ones() {
    let args = parse(&["--bind", "a:1", "--bind", "b:2", "--peer", "2=x:1", "--peer", "3=y:1"]).unwrap();
    assert_eq!(args.required_text(ServerOption::Bind), "b:2");
    let peers: Vec<u64> = args.peers(ServerOption::Peer).iter().map(|p| p.server_id).collect();
    assert_eq!(peers, vec![2, 3]);
}

#[test]
fn options_are_found_by_their_names() {
    for option in [ServerOption::Bind, ServerOption::CatchUpBatchSize, ServerOption::WebTlsMode] {
        assert_eq!(find_option(option.text()), Some(option));
    }
    assert_eq!(find_option("--no-such-option"), None);
}

#[test]
fn catalogs_are_fetched_from_another_server() {
    let table = Some(parse_routing_table_config("version=1\nshard=0 primary=2 replicas=1\n").unwrap());
    let alone = parse(&["--sync-index-catalog-on-startup"]).unwrap();
    assert_eq!(
        catalog_sync_on_startup(&alone, &None),
        Err("--sync-index-catalog-on-startup requires cluster routing".to_string())
    );
    let here = parse(&["--server-id", "2", "--sync-index-catalog-on-startup"]).unwrap();
    let there = parse(&["--server-id", "1", "--sync-index-catalog-on-startup"]).unwrap();
    assert_eq!(catalog_sync_on_startup(&here, &table), Ok(None));
    assert_eq!(catalog_sync_on_startup(&there, &table), Ok(Some(2)));
    assert_eq!(
        catch_up_interval(&parse(&["--catch-up-interval-ms", "5"]).unwrap(), false),
        Err("--catch-up-interval-ms requires cluster routing".to_string())
    );
    assert_eq!(start_action(&alone), StartAction::Serve);
    assert_eq!(
        start_action(&parse(&["--daemonize", "--check-config"]).unwrap()),
        StartAction::CheckConfig
    );
}
