//! The settings as a structured summary that an operator can read.

use vstd::prelude::*;

use crate::args::{peers_of, setting, ServerArgs};
use crate::options::{peer_views, ReplicaPeer, ServerOption, Setting};
use crate::settings::value_text;
use crate::text::{dec, show};

verus! {

/// The line for an option that takes a value; none where the option is not set.
pub open spec fn value_line(
    m: Map<ServerOption, Setting>,
    key: Seq<char>,
    o: ServerOption,
) -> Seq<char> {
    match setting(m, o) {
        Some(value) => key + value_text(value) + "\n"@,
        None => Seq::<char>::empty(),
    }
}

/// The line for a flag.
pub open spec fn flag_line(
    m: Map<ServerOption, Setting>,
    key: Seq<char>,
    o: ServerOption,
) -> Seq<char> {
    key + (if m.dom().contains(o) {
        "true"@
    } else {
        "false"@
    }) + "\n"@
}

/// The entries for a list of peers.
pub open spec fn peer_entries(peers: Seq<(u64, Seq<char>)>) -> Seq<char>
    decreases peers.len(),
{
    if peers.len() == 0 {
        Seq::<char>::empty()
    } else {
        peer_entries(peers.drop_last()) + "    - server_id: "@ + dec(peers.last().0 as nat)
            + "\n      address: "@ + peers.last().1 + "\n"@
    }
}

/// The lines for an option that takes peers.
pub open spec fn peer_lines(
    m: Map<ServerOption, Setting>,
    key: Seq<char>,
    o: ServerOption,
) -> Seq<char> {
    key + "\n"@ + peer_entries(peers_of(m, o))
}

fn push_entries(peers: &Vec<ReplicaPeer>) -> (out: String)
    ensures
        out@ == peer_entries(peer_views(peers@)),
{
    let ghost all = peer_views(peers@);
    let mut out = String::new();
    let mut i: usize = 0;
    assert(all.take(0) =~= Seq::<(u64, Seq<char>)>::empty());
    assert(out@ =~= Seq::<char>::empty());
    while i < peers.len()
        invariant
            0 <= i <= peers@.len(),
            all == peer_views(peers@),
            out@ == peer_entries(all.take(i as int)),
        decreases peers@.len() - i,
    {
        assert(all.take(i + 1).drop_last() =~= all.take(i as int));
        assert(all.take(i + 1).last() == peers@[i as int]@);
        out.append("    - server_id: ");
        out.append(show(peers[i].server_id as u128).as_str());
        out.append("\n      address: ");
        out.append(peers[i].address.as_str());
        out.append("\n");
        i = i + 1;
    }
    assert(all.take(all.len() as int) =~= all);
    out
}

impl ServerArgs {
    fn push_value_line(&self, out: &mut String, key: &str, o: ServerOption)
        requires
            self.well_formed(),
            !(o.kind() is Flag),
            !(o.kind() is Peers),
        ensures
            final(out)@ == old(out)@ + value_line(self@, key@, o),
    {
        let ghost before = out@;
        match self.shown(o) {
            Some(value) => {
                out.append(key);
                out.append(value.as_str());
                out.append("\n");
                assert(out@ =~= before + (key@ + value@ + "\n"@));
            },
            None => {
                assert(before + Seq::<char>::empty() =~= before);
            },
        }
    }

    fn push_flag_line(&self, out: &mut String, key: &str, o: ServerOption)
        requires
            self.well_formed(),
            o.kind() is Flag,
        ensures
            final(out)@ == old(out)@ + flag_line(self@, key@, o),
    {
        let ghost before = out@;
        let value = if self.is_set(o) { "true" } else { "false" };
        out.append(key);
        out.append(value);
        out.append("\n");
        assert(out@ =~= before + (key@ + value@ + "\n"@));
    }

    fn push_peer_lines(&self, out: &mut String, key: &str, o: ServerOption)
        requires
            self.well_formed(),
            o.kind() is Peers,
        ensures
            final(out)@ == old(out)@ + peer_lines(self@, key@, o),
    {
        let ghost before = out@;
        let peers = self.peers(o);
        assert(peer_views(peers@).len() == peers@.len());
        assert(peers_of(self@, o) =~= peer_views(peers@));
        let entries = push_entries(&peers);
        out.append(key);
        out.append("\n");
        out.append(entries.as_str());
        assert(out@ =~= before + (key@ + "\n"@ + entries@));
    }
}

/// The `server` section of the summary.
pub open spec fn server_summary(m: Map<ServerOption, Setting>) -> Seq<char> {
    "server:\n"@
        + value_line(m, "  bind: "@, ServerOption::Bind)
        + value_line(m, "  data_dir: "@, ServerOption::DataDir)
        + value_line(m, "  server_id: "@, ServerOption::ServerId)
        + value_line(m, "  primary_server_id: "@, ServerOption::PrimaryServerId)
        + value_line(m, "  workers: "@, ServerOption::Workers)
        + value_line(m, "  queue_capacity: "@, ServerOption::QueueCapacity)
        + value_line(m, "  page_size: "@, ServerOption::PageSize)
        + value_line(m, "  routing_table: "@, ServerOption::RoutingTable)
        + flag_line(m, "  daemonize: "@, ServerOption::Daemonize)
}

/// The `database` section of the summary.
pub open spec fn database_summary(m: Map<ServerOption, Setting>) -> Seq<char> {
    "database:\n"@
        + value_line(m, "  shards: "@, ServerOption::Shards)
        + value_line(m, "  partitions: "@, ServerOption::Partitions)
}

/// The `replication` section of the summary.
pub open spec fn replication_summary(m: Map<ServerOption, Setting>) -> Seq<char> {
    "replication:\n"@
        + value_line(m, "  bind: "@, ServerOption::ReplicationBind)
        + value_line(m, "  transport: "@, ServerOption::ReplicationTransport)
        + value_line(m, "  ack: "@, ServerOption::ReplicationAck)
        + value_line(m, "  connect_timeout_ms: "@, ServerOption::ReplicationConnectTimeoutMs)
        + value_line(m, "  retry_attempts: "@, ServerOption::ReplicationRetryAttempts)
        + value_line(m, "  retry_backoff_ms: "@, ServerOption::ReplicationRetryBackoffMs)
        + peer_lines(m, "  replica_peers:"@, ServerOption::ReplicaPeer)
        + peer_lines(m, "  peers:"@, ServerOption::Peer)
}

/// The `query` section of the summary.
pub open spec fn query_summary(m: Map<ServerOption, Setting>) -> Seq<char> {
    "query:\n"@
        + value_line(m, "  read_preference: "@, ServerOption::ReadPreference)
        + peer_lines(m, "  peers:"@, ServerOption::QueryPeer)
}

/// The `web` section of the summary.
pub open spec fn web_summary(m: Map<ServerOption, Setting>) -> Seq<char> {
    "web:\n"@
        + value_line(m, "  bind: "@, ServerOption::WebBind)
        + value_line(m, "  slow_query_threshold_ms: "@, ServerOption::SlowQueryThresholdMs)
}

/// The `maintenance` section of the summary.
pub open spec fn maintenance_summary(m: Map<ServerOption, Setting>) -> Seq<char> {
    "maintenance:\n"@
        + flag_line(m, "  sync_index_catalog_on_startup: "@, ServerOption::SyncIndexCatalogOnStartup)
        + value_line(m, "  sync_index_catalog_interval_ms: "@, ServerOption::SyncIndexCatalogIntervalMs)
        + flag_line(m, "  recover_transactions_on_startup: "@, ServerOption::RecoverTransactionsOnStartup)
        + value_line(m, "  recover_transactions_interval_ms: "@, ServerOption::RecoverTransactionsIntervalMs)
}

/// The `production` section of the summary.
pub open spec fn production_summary(m: Map<ServerOption, Setting>) -> Seq<char> {
    "production:\n"@
        + value_line(m, "  tls_mode: "@, ServerOption::TlsMode)
        + value_line(m, "  replication_tls_mode: "@, ServerOption::ReplicationTlsMode)
        + value_line(m, "  web_tls_mode: "@, ServerOption::WebTlsMode)
        + value_line(m, "  native_tls_cert: "@, ServerOption::NativeTlsCert)
        + value_line(m, "  native_tls_key: "@, ServerOption::NativeTlsKey)
        + value_line(m, "  native_tls_client_ca: "@, ServerOption::NativeTlsClientCa)
        + flag_line(m, "  native_tls_require_client_auth: "@, ServerOption::NativeTlsRequireClientAuth)
        + value_line(m, "  replication_tls_cert: "@, ServerOption::ReplicationTlsCert)
        + value_line(m, "  replication_tls_key: "@, ServerOption::ReplicationTlsKey)
        + value_line(m, "  replication_tls_client_ca: "@, ServerOption::ReplicationTlsClientCa)
        + flag_line(m, "  replication_tls_require_client_auth: "@, ServerOption::ReplicationTlsRequireClientAuth)
        + value_line(m, "  replication_tls_ca: "@, ServerOption::ReplicationTlsCa)
        + value_line(m, "  replication_tls_server_name: "@, ServerOption::ReplicationTlsServerName)
        + value_line(m, "  replication_tls_client_cert: "@, ServerOption::ReplicationTlsClientCert)
        + value_line(m, "  replication_tls_client_key: "@, ServerOption::ReplicationTlsClientKey)
        + value_line(m, "  min_native_protocol_version: "@, ServerOption::MinNativeProtocolVersion)
        + value_line(m, "  max_native_protocol_version: "@, ServerOption::MaxNativeProtocolVersion)
        + value_line(m, "  backup_drill_max_age_hours: "@, ServerOption::BackupDrillMaxAgeHours)
        + value_line(m, "  wal_archive_dir: "@, ServerOption::WalArchiveDir)
        + value_line(m, "  restore_drill_manifest: "@, ServerOption::RestoreDrillManifest)
        + value_line(m, "  audit_retention_days: "@, ServerOption::AuditRetentionDays)
        + value_line(m, "  secret_rotation_days: "@, ServerOption::SecretRotationDays)
        + value_line(m, "  tenant_max_concurrent_queries: "@, ServerOption::TenantMaxConcurrentQueries)
        + value_line(m, "  tenant_max_result_rows: "@, ServerOption::TenantMaxResultRows)
        + value_line(m, "  data_format_version: "@, ServerOption::DataFormatVersion)
        + value_line(m, "  upgrade_manifest: "@, ServerOption::UpgradeManifest)
        + value_line(m, "  raft_lease_clock_drift_bound_ms: "@, ServerOption::RaftLeaseClockDriftBoundMs)
        + value_line(m, "  raft_lease_message_delay_bound_ms: "@, ServerOption::RaftLeaseMessageDelayBoundMs)
        + value_line(m, "  observability_alerts: "@, ServerOption::ObservabilityAlerts)
        + flag_line(m, "  repair_check_on_startup: "@, ServerOption::RepairCheckOnStartup)
        + value_line(m, "  query_regression_corpus: "@, ServerOption::QueryRegressionCorpus)
        + flag_line(m, "  chaos_gate_required: "@, ServerOption::ChaosGateRequired)
        + value_line(m, "  runbook: "@, ServerOption::Runbook)
        + value_line(m, "  systemd_unit: "@, ServerOption::SystemdUnit)
        + value_line(m, "  logrotate: "@, ServerOption::Logrotate)
}

/// The summary of the settings.
pub open spec fn summary(m: Map<ServerOption, Setting>) -> Seq<char> {
    server_summary(m) + database_summary(m) + replication_summary(m) + query_summary(m)
        + web_summary(m) + maintenance_summary(m) + production_summary(m)
}

impl ServerArgs {
    fn summarize_server(&self) -> (out: String)
        requires
            self.well_formed(),
        ensures
            out@ == server_summary(self@),
    {
        let mut out = "server:\n".to_owned();
        self.push_value_line(&mut out, "  bind: ", ServerOption::Bind);
        self.push_value_line(&mut out, "  data_dir: ", ServerOption::DataDir);
        self.push_value_line(&mut out, "  server_id: ", ServerOption::ServerId);
        self.push_value_line(&mut out, "  primary_server_id: ", ServerOption::PrimaryServerId);
        self.push_value_line(&mut out, "  workers: ", ServerOption::Workers);
        self.push_value_line(&mut out, "  queue_capacity: ", ServerOption::QueueCapacity);
        self.push_value_line(&mut out, "  page_size: ", ServerOption::PageSize);
        self.push_value_line(&mut out, "  routing_table: ", ServerOption::RoutingTable);
        self.push_flag_line(&mut out, "  daemonize: ", ServerOption::Daemonize);
        out
    }

    fn summarize_database(&self) -> (out: String)
        requires
            self.well_formed(),
        ensures
            out@ == database_summary(self@),
    {
        let mut out = "database:\n".to_owned();
        self.push_value_line(&mut out, "  shards: ", ServerOption::Shards);
        self.push_value_line(&mut out, "  partitions: ", ServerOption::Partitions);
        out
    }

    fn summarize_replication(&self) -> (out: String)
        requires
            self.well_formed(),
        ensures
            out@ == replication_summary(self@),
    {
        let mut out = "replication:\n".to_owned();
        self.push_value_line(&mut out, "  bind: ", ServerOption::ReplicationBind);
        self.push_value_line(&mut out, "  transport: ", ServerOption::ReplicationTransport);
        self.push_value_line(&mut out, "  ack: ", ServerOption::ReplicationAck);
        self.push_value_line(&mut out, "  connect_timeout_ms: ", ServerOption::ReplicationConnectTimeoutMs);
        self.push_value_line(&mut out, "  retry_attempts: ", ServerOption::ReplicationRetryAttempts);
        self.push_value_line(&mut out, "  retry_backoff_ms: ", ServerOption::ReplicationRetryBackoffMs);
        self.push_peer_lines(&mut out, "  replica_peers:", ServerOption::ReplicaPeer);
        self.push_peer_lines(&mut out, "  peers:", ServerOption::Peer);
        out
    }

    fn summarize_query(&self) -> (out: String)
        requires
            self.well_formed(),
        ensures
            out@ == query_summary(self@),
    {
        let mut out = "query:\n".to_owned();
        self.push_value_line(&mut out, "  read_preference: ", ServerOption::ReadPreference);
        self.push_peer_lines(&mut out, "  peers:", ServerOption::QueryPeer);
        out
    }

    fn summarize_web(&self) -> (out: String)
        requires
            self.well_formed(),
        ensures
            out@ == web_summary(self@),
    {
        let mut out = "web:\n".to_owned();
        self.push_value_line(&mut out, "  bind: ", ServerOption::WebBind);
        self.push_value_line(&mut out, "  slow_query_threshold_ms: ", ServerOption::SlowQueryThresholdMs);
        out
    }

    fn summarize_maintenance(&self) -> (out: String)
        requires
            self.well_formed(),
        ensures
            out@ == maintenance_summary(self@),
    {
        let mut out = "maintenance:\n".to_owned();
        self.push_flag_line(&mut out, "  sync_index_catalog_on_startup: ", ServerOption::SyncIndexCatalogOnStartup);
        self.push_value_line(&mut out, "  sync_index_catalog_interval_ms: ", ServerOption::SyncIndexCatalogIntervalMs);
        self.push_flag_line(&mut out, "  recover_transactions_on_startup: ", ServerOption::RecoverTransactionsOnStartup);
        self.push_value_line(&mut out, "  recover_transactions_interval_ms: ", ServerOption::RecoverTransactionsIntervalMs);
        out
    }

    fn summarize_production(&self) -> (out: String)
        requires
            self.well_formed(),
        ensures
            out@ == production_summary(self@),
    {
        let mut out = "production:\n".to_owned();
        self.push_value_line(&mut out, "  tls_mode: ", ServerOption::TlsMode);
        self.push_value_line(&mut out, "  replication_tls_mode: ", ServerOption::ReplicationTlsMode);
        self.push_value_line(&mut out, "  web_tls_mode: ", ServerOption::WebTlsMode);
        self.push_value_line(&mut out, "  native_tls_cert: ", ServerOption::NativeTlsCert);
        self.push_value_line(&mut out, "  native_tls_key: ", ServerOption::NativeTlsKey);
        self.push_value_line(&mut out, "  native_tls_client_ca: ", ServerOption::NativeTlsClientCa);
        self.push_flag_line(&mut out, "  native_tls_require_client_auth: ", ServerOption::NativeTlsRequireClientAuth);
        self.push_value_line(&mut out, "  replication_tls_cert: ", ServerOption::ReplicationTlsCert);
        self.push_value_line(&mut out, "  replication_tls_key: ", ServerOption::ReplicationTlsKey);
        self.push_value_line(&mut out, "  replication_tls_client_ca: ", ServerOption::ReplicationTlsClientCa);
        self.push_flag_line(&mut out, "  replication_tls_require_client_auth: ", ServerOption::ReplicationTlsRequireClientAuth);
        self.push_value_line(&mut out, "  replication_tls_ca: ", ServerOption::ReplicationTlsCa);
        self.push_value_line(&mut out, "  replication_tls_server_name: ", ServerOption::ReplicationTlsServerName);
        self.push_value_line(&mut out, "  replication_tls_client_cert: ", ServerOption::ReplicationTlsClientCert);
        self.push_value_line(&mut out, "  replication_tls_client_key: ", ServerOption::ReplicationTlsClientKey);
        self.push_value_line(&mut out, "  min_native_protocol_version: ", ServerOption::MinNativeProtocolVersion);
        self.push_value_line(&mut out, "  max_native_protocol_version: ", ServerOption::MaxNativeProtocolVersion);
        self.push_value_line(&mut out, "  backup_drill_max_age_hours: ", ServerOption::BackupDrillMaxAgeHours);
        self.push_value_line(&mut out, "  wal_archive_dir: ", ServerOption::WalArchiveDir);
        self.push_value_line(&mut out, "  restore_drill_manifest: ", ServerOption::RestoreDrillManifest);
        self.push_value_line(&mut out, "  audit_retention_days: ", ServerOption::AuditRetentionDays);
        self.push_value_line(&mut out, "  secret_rotation_days: ", ServerOption::SecretRotationDays);
        self.push_value_line(&mut out, "  tenant_max_concurrent_queries: ", ServerOption::TenantMaxConcurrentQueries);
        self.push_value_line(&mut out, "  tenant_max_result_rows: ", ServerOption::TenantMaxResultRows);
        self.push_value_line(&mut out, "  data_format_version: ", ServerOption::DataFormatVersion);
        self.push_value_line(&mut out, "  upgrade_manifest: ", ServerOption::UpgradeManifest);
        self.push_value_line(&mut out, "  raft_lease_clock_drift_bound_ms: ", ServerOption::RaftLeaseClockDriftBoundMs);
        self.push_value_line(&mut out, "  raft_lease_message_delay_bound_ms: ", ServerOption::RaftLeaseMessageDelayBoundMs);
        self.push_value_line(&mut out, "  observability_alerts: ", ServerOption::ObservabilityAlerts);
        self.push_flag_line(&mut out, "  repair_check_on_startup: ", ServerOption::RepairCheckOnStartup);
        self.push_value_line(&mut out, "  query_regression_corpus: ", ServerOption::QueryRegressionCorpus);
        self.push_flag_line(&mut out, "  chaos_gate_required: ", ServerOption::ChaosGateRequired);
        self.push_value_line(&mut out, "  runbook: ", ServerOption::Runbook);
        self.push_value_line(&mut out, "  systemd_unit: ", ServerOption::SystemdUnit);
        self.push_value_line(&mut out, "  logrotate: ", ServerOption::Logrotate);
        out
    }

    /// Writes the settings as a structured summary.
    pub fn to_yaml_summary(&self) -> (out: String)
        requires
            self.well_formed(),
        ensures
            out@ == summary(self@),
    {
        let mut out = self.summarize_server();
        out.append(self.summarize_database().as_str());
        out.append(self.summarize_replication().as_str());
        out.append(self.summarize_query().as_str());
        out.append(self.summarize_web().as_str());
        out.append(self.summarize_maintenance().as_str());
        out.append(self.summarize_production().as_str());
        out
    }
}

} // verus!
