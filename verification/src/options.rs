//! The options of the server: their names, the values they take and how a list of
//! arguments is read.

use vstd::prelude::*;

use crate::model::{QueryReadPreference, ReplicationAckPolicy, ReplicationChannelKind};
use crate::text::{
    cat, lower, lowered, number, read_number, same, split_first, split_once,
};

verus! {

/// How far a listener's traffic is protected.
#[derive(Clone, Copy, Debug, PartialEq, Eq, Structural)]
pub enum ProductionSecurityMode {
    Disabled,
    External,
    Required,
}

/// A server and the address under which it is reached.
#[derive(Clone, Debug, PartialEq, Eq)]
pub struct ReplicaPeer {
    pub server_id: u64,
    pub address: String,
}

impl ReplicaPeer {
    pub open spec fn view(&self) -> (u64, Seq<char>) {
        (self.server_id, self.address@)
    }
}

/// The contents of a list of peers.
pub open spec fn peer_views(peers: Seq<ReplicaPeer>) -> Seq<(u64, Seq<char>)> {
    peers.map_values(|p: ReplicaPeer| p@)
}

/// An option of the command line.
#[derive(Clone, Copy, Debug, PartialEq, Eq, Structural)]
pub enum ServerOption {
    Bind,
    DataDir,
    Shards,
    Partitions,
    ServerId,
    Workers,
    QueueCapacity,
    PageSize,
    ReadPreference,
    PrimaryServerId,
    RoutingTable,
    ReplicaPeer,
    Peer,
    QueryPeer,
    GossipSeedPeer,
    GossipAdvertiseQuery,
    GossipAdvertiseReplication,
    GossipIntervalMs,
    GossipTtlMs,
    GossipFanout,
    GossipAuthToken,
    GossipAutoNegotiateReplication,
    ReplicationBind,
    ReplicationTransport,
    ReplicationAck,
    ReplicationConnectTimeoutMs,
    ReplicationRetryAttempts,
    ReplicationRetryBackoffMs,
    ReplicationMaxInFlightBatches,
    CatchUpOnStartup,
    CatchUpIntervalMs,
    CatchUpBatchSize,
    SyncIndexCatalogOnStartup,
    SyncIndexCatalogIntervalMs,
    RecoverTransactionsOnStartup,
    RecoverTransactionsIntervalMs,
    WebBind,
    WebAuthToken,
    SlowQueryThresholdMs,
    TlsMode,
    ReplicationTlsMode,
    WebTlsMode,
    NativeTlsCert,
    NativeTlsKey,
    NativeTlsClientCa,
    NativeTlsRequireClientAuth,
    WebTlsCert,
    WebTlsKey,
    WebTlsClientCa,
    WebTlsRequireClientAuth,
    ReplicationTlsCert,
    ReplicationTlsKey,
    ReplicationTlsClientCa,
    ReplicationTlsRequireClientAuth,
    ReplicationTlsCa,
    ReplicationTlsServerName,
    ReplicationTlsClientCert,
    ReplicationTlsClientKey,
    MinNativeProtocolVersion,
    MaxNativeProtocolVersion,
    BackupDrillMaxAgeHours,
    WalArchiveDir,
    RestoreDrillManifest,
    AuditRetentionDays,
    SecretRotationDays,
    TenantMaxConcurrentQueries,
    TenantMaxResultRows,
    DataFormatVersion,
    UpgradeManifest,
    RaftLeaseClockDriftBoundMs,
    RaftLeaseMessageDelayBoundMs,
    ObservabilityAlerts,
    RepairCheckOnStartup,
    QueryRegressionCorpus,
    ChaosGateRequired,
    Runbook,
    SystemdUnit,
    Logrotate,
    Daemonize,
    CheckConfig,
    ProductionCheck,
    DumpConfig,
}

/// What an option takes after its name.
#[derive(Clone, Copy, Debug, PartialEq, Eq, Structural)]
pub enum OptionKind {
    Flag,
    Text,
    U64,
    Usize,
    U32,
    U8,
    Peers,
    ReadPreference,
    Transport,
    Ack,
    Security,
}

impl ServerOption {
    /// The option as it is written on the command line.
    pub open spec fn name(self) -> Seq<char> {
        match self {
            ServerOption::Bind => "--bind"@,
            ServerOption::DataDir => "--data-dir"@,
            ServerOption::Shards => "--shards"@,
            ServerOption::Partitions => "--partitions"@,
            ServerOption::ServerId => "--server-id"@,
            ServerOption::Workers => "--workers"@,
            ServerOption::QueueCapacity => "--queue-capacity"@,
            ServerOption::PageSize => "--page-size"@,
            ServerOption::ReadPreference => "--read-preference"@,
            ServerOption::PrimaryServerId => "--primary-server-id"@,
            ServerOption::RoutingTable => "--routing-table"@,
            ServerOption::ReplicaPeer => "--replica-peer"@,
            ServerOption::Peer => "--peer"@,
            ServerOption::QueryPeer => "--query-peer"@,
            ServerOption::GossipSeedPeer => "--gossip-seed-peer"@,
            ServerOption::GossipAdvertiseQuery => "--gossip-advertise-query"@,
            ServerOption::GossipAdvertiseReplication => "--gossip-advertise-replication"@,
            ServerOption::GossipIntervalMs => "--gossip-interval-ms"@,
            ServerOption::GossipTtlMs => "--gossip-ttl-ms"@,
            ServerOption::GossipFanout => "--gossip-fanout"@,
            ServerOption::GossipAuthToken => "--gossip-auth-token"@,
            ServerOption::GossipAutoNegotiateReplication => "--gossip-auto-negotiate-replication"@,
            ServerOption::ReplicationBind => "--replication-bind"@,
            ServerOption::ReplicationTransport => "--replication-transport"@,
            ServerOption::ReplicationAck => "--replication-ack"@,
            ServerOption::ReplicationConnectTimeoutMs => "--replication-connect-timeout-ms"@,
            ServerOption::ReplicationRetryAttempts => "--replication-retry-attempts"@,
            ServerOption::ReplicationRetryBackoffMs => "--replication-retry-backoff-ms"@,
            ServerOption::ReplicationMaxInFlightBatches => "--replication-max-in-flight-batches"@,
            ServerOption::CatchUpOnStartup => "--catch-up-on-startup"@,
            ServerOption::CatchUpIntervalMs => "--catch-up-interval-ms"@,
            ServerOption::CatchUpBatchSize => "--catch-up-batch-size"@,
            ServerOption::SyncIndexCatalogOnStartup => "--sync-index-catalog-on-startup"@,
            ServerOption::SyncIndexCatalogIntervalMs => "--sync-index-catalog-interval-ms"@,
            ServerOption::RecoverTransactionsOnStartup => "--recover-transactions-on-startup"@,
            ServerOption::RecoverTransactionsIntervalMs => "--recover-transactions-interval-ms"@,
            ServerOption::WebBind => "--web-bind"@,
            ServerOption::WebAuthToken => "--web-auth-token"@,
            ServerOption::SlowQueryThresholdMs => "--slow-query-threshold-ms"@,
            ServerOption::TlsMode => "--tls-mode"@,
            ServerOption::ReplicationTlsMode => "--replication-tls-mode"@,
            ServerOption::WebTlsMode => "--web-tls-mode"@,
            ServerOption::NativeTlsCert => "--native-tls-cert"@,
            ServerOption::NativeTlsKey => "--native-tls-key"@,
            ServerOption::NativeTlsClientCa => "--native-tls-client-ca"@,
            ServerOption::NativeTlsRequireClientAuth => "--native-tls-require-client-auth"@,
            ServerOption::WebTlsCert => "--web-tls-cert"@,
            ServerOption::WebTlsKey => "--web-tls-key"@,
            ServerOption::WebTlsClientCa => "--web-tls-client-ca"@,
            ServerOption::WebTlsRequireClientAuth => "--web-tls-require-client-auth"@,
            ServerOption::ReplicationTlsCert => "--replication-tls-cert"@,
            ServerOption::ReplicationTlsKey => "--replication-tls-key"@,
            ServerOption::ReplicationTlsClientCa => "--replication-tls-client-ca"@,
            ServerOption::ReplicationTlsRequireClientAuth => "--replication-tls-require-client-auth"@,
            ServerOption::ReplicationTlsCa => "--replication-tls-ca"@,
            ServerOption::ReplicationTlsServerName => "--replication-tls-server-name"@,
            ServerOption::ReplicationTlsClientCert => "--replication-tls-client-cert"@,
            ServerOption::ReplicationTlsClientKey => "--replication-tls-client-key"@,
            ServerOption::MinNativeProtocolVersion => "--min-native-protocol-version"@,
            ServerOption::MaxNativeProtocolVersion => "--max-native-protocol-version"@,
            ServerOption::BackupDrillMaxAgeHours => "--backup-drill-max-age-hours"@,
            ServerOption::WalArchiveDir => "--wal-archive-dir"@,
            ServerOption::RestoreDrillManifest => "--restore-drill-manifest"@,
            ServerOption::AuditRetentionDays => "--audit-retention-days"@,
            ServerOption::SecretRotationDays => "--secret-rotation-days"@,
            ServerOption::TenantMaxConcurrentQueries => "--tenant-max-concurrent-queries"@,
            ServerOption::TenantMaxResultRows => "--tenant-max-result-rows"@,
            ServerOption::DataFormatVersion => "--data-format-version"@,
            ServerOption::UpgradeManifest => "--upgrade-manifest"@,
            ServerOption::RaftLeaseClockDriftBoundMs => "--raft-lease-clock-drift-bound-ms"@,
            ServerOption::RaftLeaseMessageDelayBoundMs => "--raft-lease-message-delay-bound-ms"@,
            ServerOption::ObservabilityAlerts => "--observability-alerts"@,
            ServerOption::RepairCheckOnStartup => "--repair-check-on-startup"@,
            ServerOption::QueryRegressionCorpus => "--query-regression-corpus"@,
            ServerOption::ChaosGateRequired => "--chaos-gate-required"@,
            ServerOption::Runbook => "--runbook"@,
            ServerOption::SystemdUnit => "--systemd-unit"@,
            ServerOption::Logrotate => "--logrotate"@,
            ServerOption::Daemonize => "--daemonize"@,
            ServerOption::CheckConfig => "--check-config"@,
            ServerOption::ProductionCheck => "--production-check"@,
            ServerOption::DumpConfig => "--dump-config"@,
        }
    }

    /// What the option takes after its name.
    pub open spec fn kind(self) -> OptionKind {
        match self {
            ServerOption::Bind => OptionKind::Text,
            ServerOption::DataDir => OptionKind::Text,
            ServerOption::Shards => OptionKind::U64,
            ServerOption::Partitions => OptionKind::Usize,
            ServerOption::ServerId => OptionKind::U64,
            ServerOption::Workers => OptionKind::Usize,
            ServerOption::QueueCapacity => OptionKind::Usize,
            ServerOption::PageSize => OptionKind::Usize,
            ServerOption::ReadPreference => OptionKind::ReadPreference,
            ServerOption::PrimaryServerId => OptionKind::U64,
            ServerOption::RoutingTable => OptionKind::Text,
            ServerOption::ReplicaPeer => OptionKind::Peers,
            ServerOption::Peer => OptionKind::Peers,
            ServerOption::QueryPeer => OptionKind::Peers,
            ServerOption::GossipSeedPeer => OptionKind::Peers,
            ServerOption::GossipAdvertiseQuery => OptionKind::Text,
            ServerOption::GossipAdvertiseReplication => OptionKind::Text,
            ServerOption::GossipIntervalMs => OptionKind::U64,
            ServerOption::GossipTtlMs => OptionKind::U64,
            ServerOption::GossipFanout => OptionKind::Usize,
            ServerOption::GossipAuthToken => OptionKind::Text,
            ServerOption::GossipAutoNegotiateReplication => OptionKind::Flag,
            ServerOption::ReplicationBind => OptionKind::Text,
            ServerOption::ReplicationTransport => OptionKind::Transport,
            ServerOption::ReplicationAck => OptionKind::Ack,
            ServerOption::ReplicationConnectTimeoutMs => OptionKind::U64,
            ServerOption::ReplicationRetryAttempts => OptionKind::Usize,
            ServerOption::ReplicationRetryBackoffMs => OptionKind::U64,
            ServerOption::ReplicationMaxInFlightBatches => OptionKind::Usize,
            ServerOption::CatchUpOnStartup => OptionKind::Flag,
            ServerOption::CatchUpIntervalMs => OptionKind::U64,
            ServerOption::CatchUpBatchSize => OptionKind::Usize,
            ServerOption::SyncIndexCatalogOnStartup => OptionKind::Flag,
            ServerOption::SyncIndexCatalogIntervalMs => OptionKind::U64,
            ServerOption::RecoverTransactionsOnStartup => OptionKind::Flag,
            ServerOption::RecoverTransactionsIntervalMs => OptionKind::U64,
            ServerOption::WebBind => OptionKind::Text,
            ServerOption::WebAuthToken => OptionKind::Text,
            ServerOption::SlowQueryThresholdMs => OptionKind::U64,
            ServerOption::TlsMode => OptionKind::Security,
            ServerOption::ReplicationTlsMode => OptionKind::Security,
            ServerOption::WebTlsMode => OptionKind::Security,
            ServerOption::NativeTlsCert => OptionKind::Text,
            ServerOption::NativeTlsKey => OptionKind::Text,
            ServerOption::NativeTlsClientCa => OptionKind::Text,
            ServerOption::NativeTlsRequireClientAuth => OptionKind::Flag,
            ServerOption::WebTlsCert => OptionKind::Text,
            ServerOption::WebTlsKey => OptionKind::Text,
            ServerOption::WebTlsClientCa => OptionKind::Text,
            ServerOption::WebTlsRequireClientAuth => OptionKind::Flag,
            ServerOption::ReplicationTlsCert => OptionKind::Text,
            ServerOption::ReplicationTlsKey => OptionKind::Text,
            ServerOption::ReplicationTlsClientCa => OptionKind::Text,
            ServerOption::ReplicationTlsRequireClientAuth => OptionKind::Flag,
            ServerOption::ReplicationTlsCa => OptionKind::Text,
            ServerOption::ReplicationTlsServerName => OptionKind::Text,
            ServerOption::ReplicationTlsClientCert => OptionKind::Text,
            ServerOption::ReplicationTlsClientKey => OptionKind::Text,
            ServerOption::MinNativeProtocolVersion => OptionKind::U8,
            ServerOption::MaxNativeProtocolVersion => OptionKind::U8,
            ServerOption::BackupDrillMaxAgeHours => OptionKind::U64,
            ServerOption::WalArchiveDir => OptionKind::Text,
            ServerOption::RestoreDrillManifest => OptionKind::Text,
            ServerOption::AuditRetentionDays => OptionKind::U64,
            ServerOption::SecretRotationDays => OptionKind::U64,
            ServerOption::TenantMaxConcurrentQueries => OptionKind::Usize,
            ServerOption::TenantMaxResultRows => OptionKind::Usize,
            ServerOption::DataFormatVersion => OptionKind::U32,
            ServerOption::UpgradeManifest => OptionKind::Text,
            ServerOption::RaftLeaseClockDriftBoundMs => OptionKind::U64,
            ServerOption::RaftLeaseMessageDelayBoundMs => OptionKind::U64,
            ServerOption::ObservabilityAlerts => OptionKind::Text,
            ServerOption::RepairCheckOnStartup => OptionKind::Flag,
            ServerOption::QueryRegressionCorpus => OptionKind::Text,
            ServerOption::ChaosGateRequired => OptionKind::Flag,
            ServerOption::Runbook => OptionKind::Text,
            ServerOption::SystemdUnit => OptionKind::Text,
            ServerOption::Logrotate => OptionKind::Text,
            ServerOption::Daemonize => OptionKind::Flag,
            ServerOption::CheckConfig => OptionKind::Flag,
            ServerOption::ProductionCheck => OptionKind::Flag,
            ServerOption::DumpConfig => OptionKind::Flag,
        }
    }

    /// Gives the option as it is written on the command line.
    pub fn text(self) -> (r: &'static str)
        ensures
            r@ == self.name(),
    {
        match self {
            ServerOption::Bind => "--bind",
            ServerOption::DataDir => "--data-dir",
            ServerOption::Shards => "--shards",
            ServerOption::Partitions => "--partitions",
            ServerOption::ServerId => "--server-id",
            ServerOption::Workers => "--workers",
            ServerOption::QueueCapacity => "--queue-capacity",
            ServerOption::PageSize => "--page-size",
            ServerOption::ReadPreference => "--read-preference",
            ServerOption::PrimaryServerId => "--primary-server-id",
            ServerOption::RoutingTable => "--routing-table",
            ServerOption::ReplicaPeer => "--replica-peer",
            ServerOption::Peer => "--peer",
            ServerOption::QueryPeer => "--query-peer",
            ServerOption::GossipSeedPeer => "--gossip-seed-peer",
            ServerOption::GossipAdvertiseQuery => "--gossip-advertise-query",
            ServerOption::GossipAdvertiseReplication => "--gossip-advertise-replication",
            ServerOption::GossipIntervalMs => "--gossip-interval-ms",
            ServerOption::GossipTtlMs => "--gossip-ttl-ms",
            ServerOption::GossipFanout => "--gossip-fanout",
            ServerOption::GossipAuthToken => "--gossip-auth-token",
            ServerOption::GossipAutoNegotiateReplication => "--gossip-auto-negotiate-replication",
            ServerOption::ReplicationBind => "--replication-bind",
            ServerOption::ReplicationTransport => "--replication-transport",
            ServerOption::ReplicationAck => "--replication-ack",
            ServerOption::ReplicationConnectTimeoutMs => "--replication-connect-timeout-ms",
            ServerOption::ReplicationRetryAttempts => "--replication-retry-attempts",
            ServerOption::ReplicationRetryBackoffMs => "--replication-retry-backoff-ms",
            ServerOption::ReplicationMaxInFlightBatches => "--replication-max-in-flight-batches",
            ServerOption::CatchUpOnStartup => "--catch-up-on-startup",
            ServerOption::CatchUpIntervalMs => "--catch-up-interval-ms",
            ServerOption::CatchUpBatchSize => "--catch-up-batch-size",
            ServerOption::SyncIndexCatalogOnStartup => "--sync-index-catalog-on-startup",
            ServerOption::SyncIndexCatalogIntervalMs => "--sync-index-catalog-interval-ms",
            ServerOption::RecoverTransactionsOnStartup => "--recover-transactions-on-startup",
            ServerOption::RecoverTransactionsIntervalMs => "--recover-transactions-interval-ms",
            ServerOption::WebBind => "--web-bind",
            ServerOption::WebAuthToken => "--web-auth-token",
            ServerOption::SlowQueryThresholdMs => "--slow-query-threshold-ms",
            ServerOption::TlsMode => "--tls-mode",
            ServerOption::ReplicationTlsMode => "--replication-tls-mode",
            ServerOption::WebTlsMode => "--web-tls-mode",
            ServerOption::NativeTlsCert => "--native-tls-cert",
            ServerOption::NativeTlsKey => "--native-tls-key",
            ServerOption::NativeTlsClientCa => "--native-tls-client-ca",
            ServerOption::NativeTlsRequireClientAuth => "--native-tls-require-client-auth",
            ServerOption::WebTlsCert => "--web-tls-cert",
            ServerOption::WebTlsKey => "--web-tls-key",
            ServerOption::WebTlsClientCa => "--web-tls-client-ca",
            ServerOption::WebTlsRequireClientAuth => "--web-tls-require-client-auth",
            ServerOption::ReplicationTlsCert => "--replication-tls-cert",
            ServerOption::ReplicationTlsKey => "--replication-tls-key",
            ServerOption::ReplicationTlsClientCa => "--replication-tls-client-ca",
            ServerOption::ReplicationTlsRequireClientAuth => "--replication-tls-require-client-auth",
            ServerOption::ReplicationTlsCa => "--replication-tls-ca",
            ServerOption::ReplicationTlsServerName => "--replication-tls-server-name",
            ServerOption::ReplicationTlsClientCert => "--replication-tls-client-cert",
            ServerOption::ReplicationTlsClientKey => "--replication-tls-client-key",
            ServerOption::MinNativeProtocolVersion => "--min-native-protocol-version",
            ServerOption::MaxNativeProtocolVersion => "--max-native-protocol-version",
            ServerOption::BackupDrillMaxAgeHours => "--backup-drill-max-age-hours",
            ServerOption::WalArchiveDir => "--wal-archive-dir",
            ServerOption::RestoreDrillManifest => "--restore-drill-manifest",
            ServerOption::AuditRetentionDays => "--audit-retention-days",
            ServerOption::SecretRotationDays => "--secret-rotation-days",
            ServerOption::TenantMaxConcurrentQueries => "--tenant-max-concurrent-queries",
            ServerOption::TenantMaxResultRows => "--tenant-max-result-rows",
            ServerOption::DataFormatVersion => "--data-format-version",
            ServerOption::UpgradeManifest => "--upgrade-manifest",
            ServerOption::RaftLeaseClockDriftBoundMs => "--raft-lease-clock-drift-bound-ms",
            ServerOption::RaftLeaseMessageDelayBoundMs => "--raft-lease-message-delay-bound-ms",
            ServerOption::ObservabilityAlerts => "--observability-alerts",
            ServerOption::RepairCheckOnStartup => "--repair-check-on-startup",
            ServerOption::QueryRegressionCorpus => "--query-regression-corpus",
            ServerOption::ChaosGateRequired => "--chaos-gate-required",
            ServerOption::Runbook => "--runbook",
            ServerOption::SystemdUnit => "--systemd-unit",
            ServerOption::Logrotate => "--logrotate",
            ServerOption::Daemonize => "--daemonize",
            ServerOption::CheckConfig => "--check-config",
            ServerOption::ProductionCheck => "--production-check",
            ServerOption::DumpConfig => "--dump-config",
        }
    }

    /// Tells what the option takes after its name.
    pub fn takes(self) -> (r: OptionKind)
        ensures
            r == self.kind(),
    {
        match self {
            ServerOption::Bind => OptionKind::Text,
            ServerOption::DataDir => OptionKind::Text,
            ServerOption::Shards => OptionKind::U64,
            ServerOption::Partitions => OptionKind::Usize,
            ServerOption::ServerId => OptionKind::U64,
            ServerOption::Workers => OptionKind::Usize,
            ServerOption::QueueCapacity => OptionKind::Usize,
            ServerOption::PageSize => OptionKind::Usize,
            ServerOption::ReadPreference => OptionKind::ReadPreference,
            ServerOption::PrimaryServerId => OptionKind::U64,
            ServerOption::RoutingTable => OptionKind::Text,
            ServerOption::ReplicaPeer => OptionKind::Peers,
            ServerOption::Peer => OptionKind::Peers,
            ServerOption::QueryPeer => OptionKind::Peers,
            ServerOption::GossipSeedPeer => OptionKind::Peers,
            ServerOption::GossipAdvertiseQuery => OptionKind::Text,
            ServerOption::GossipAdvertiseReplication => OptionKind::Text,
            ServerOption::GossipIntervalMs => OptionKind::U64,
            ServerOption::GossipTtlMs => OptionKind::U64,
            ServerOption::GossipFanout => OptionKind::Usize,
            ServerOption::GossipAuthToken => OptionKind::Text,
            ServerOption::GossipAutoNegotiateReplication => OptionKind::Flag,
            ServerOption::ReplicationBind => OptionKind::Text,
            ServerOption::ReplicationTransport => OptionKind::Transport,
            ServerOption::ReplicationAck => OptionKind::Ack,
            ServerOption::ReplicationConnectTimeoutMs => OptionKind::U64,
            ServerOption::ReplicationRetryAttempts => OptionKind::Usize,
            ServerOption::ReplicationRetryBackoffMs => OptionKind::U64,
            ServerOption::ReplicationMaxInFlightBatches => OptionKind::Usize,
            ServerOption::CatchUpOnStartup => OptionKind::Flag,
            ServerOption::CatchUpIntervalMs => OptionKind::U64,
            ServerOption::CatchUpBatchSize => OptionKind::Usize,
            ServerOption::SyncIndexCatalogOnStartup => OptionKind::Flag,
            ServerOption::SyncIndexCatalogIntervalMs => OptionKind::U64,
            ServerOption::RecoverTransactionsOnStartup => OptionKind::Flag,
            ServerOption::RecoverTransactionsIntervalMs => OptionKind::U64,
            ServerOption::WebBind => OptionKind::Text,
            ServerOption::WebAuthToken => OptionKind::Text,
            ServerOption::SlowQueryThresholdMs => OptionKind::U64,
            ServerOption::TlsMode => OptionKind::Security,
            ServerOption::ReplicationTlsMode => OptionKind::Security,
            ServerOption::WebTlsMode => OptionKind::Security,
            ServerOption::NativeTlsCert => OptionKind::Text,
            ServerOption::NativeTlsKey => OptionKind::Text,
            ServerOption::NativeTlsClientCa => OptionKind::Text,
            ServerOption::NativeTlsRequireClientAuth => OptionKind::Flag,
            ServerOption::WebTlsCert => OptionKind::Text,
            ServerOption::WebTlsKey => OptionKind::Text,
            ServerOption::WebTlsClientCa => OptionKind::Text,
            ServerOption::WebTlsRequireClientAuth => OptionKind::Flag,
            ServerOption::ReplicationTlsCert => OptionKind::Text,
            ServerOption::ReplicationTlsKey => OptionKind::Text,
            ServerOption::ReplicationTlsClientCa => OptionKind::Text,
            ServerOption::ReplicationTlsRequireClientAuth => OptionKind::Flag,
            ServerOption::ReplicationTlsCa => OptionKind::Text,
            ServerOption::ReplicationTlsServerName => OptionKind::Text,
            ServerOption::ReplicationTlsClientCert => OptionKind::Text,
            ServerOption::ReplicationTlsClientKey => OptionKind::Text,
            ServerOption::MinNativeProtocolVersion => OptionKind::U8,
            ServerOption::MaxNativeProtocolVersion => OptionKind::U8,
            ServerOption::BackupDrillMaxAgeHours => OptionKind::U64,
            ServerOption::WalArchiveDir => OptionKind::Text,
            ServerOption::RestoreDrillManifest => OptionKind::Text,
            ServerOption::AuditRetentionDays => OptionKind::U64,
            ServerOption::SecretRotationDays => OptionKind::U64,
            ServerOption::TenantMaxConcurrentQueries => OptionKind::Usize,
            ServerOption::TenantMaxResultRows => OptionKind::Usize,
            ServerOption::DataFormatVersion => OptionKind::U32,
            ServerOption::UpgradeManifest => OptionKind::Text,
            ServerOption::RaftLeaseClockDriftBoundMs => OptionKind::U64,
            ServerOption::RaftLeaseMessageDelayBoundMs => OptionKind::U64,
            ServerOption::ObservabilityAlerts => OptionKind::Text,
            ServerOption::RepairCheckOnStartup => OptionKind::Flag,
            ServerOption::QueryRegressionCorpus => OptionKind::Text,
            ServerOption::ChaosGateRequired => OptionKind::Flag,
            ServerOption::Runbook => OptionKind::Text,
            ServerOption::SystemdUnit => OptionKind::Text,
            ServerOption::Logrotate => OptionKind::Text,
            ServerOption::Daemonize => OptionKind::Flag,
            ServerOption::CheckConfig => OptionKind::Flag,
            ServerOption::ProductionCheck => OptionKind::Flag,
            ServerOption::DumpConfig => OptionKind::Flag,
        }
    }
}

/// The option of that name.
pub open spec fn option_named(s: Seq<char>) -> Option<ServerOption> {
    if s == "--bind"@ {
        Some(ServerOption::Bind)
    } else if s == "--data-dir"@ {
        Some(ServerOption::DataDir)
    } else if s == "--shards"@ {
        Some(ServerOption::Shards)
    } else if s == "--partitions"@ {
        Some(ServerOption::Partitions)
    } else if s == "--server-id"@ {
        Some(ServerOption::ServerId)
    } else if s == "--workers"@ {
        Some(ServerOption::Workers)
    } else if s == "--queue-capacity"@ {
        Some(ServerOption::QueueCapacity)
    } else if s == "--page-size"@ {
        Some(ServerOption::PageSize)
    } else if s == "--read-preference"@ {
        Some(ServerOption::ReadPreference)
    } else if s == "--primary-server-id"@ {
        Some(ServerOption::PrimaryServerId)
    } else if s == "--routing-table"@ {
        Some(ServerOption::RoutingTable)
    } else if s == "--replica-peer"@ {
        Some(ServerOption::ReplicaPeer)
    } else if s == "--peer"@ {
        Some(ServerOption::Peer)
    } else if s == "--query-peer"@ {
        Some(ServerOption::QueryPeer)
    } else if s == "--gossip-seed-peer"@ {
        Some(ServerOption::GossipSeedPeer)
    } else if s == "--gossip-advertise-query"@ {
        Some(ServerOption::GossipAdvertiseQuery)
    } else if s == "--gossip-advertise-replication"@ {
        Some(ServerOption::GossipAdvertiseReplication)
    } else if s == "--gossip-interval-ms"@ {
        Some(ServerOption::GossipIntervalMs)
    } else if s == "--gossip-ttl-ms"@ {
        Some(ServerOption::GossipTtlMs)
    } else if s == "--gossip-fanout"@ {
        Some(ServerOption::GossipFanout)
    } else if s == "--gossip-auth-token"@ {
        Some(ServerOption::GossipAuthToken)
    } else if s == "--gossip-auto-negotiate-replication"@ {
        Some(ServerOption::GossipAutoNegotiateReplication)
    } else if s == "--replication-bind"@ {
        Some(ServerOption::ReplicationBind)
    } else if s == "--replication-transport"@ {
        Some(ServerOption::ReplicationTransport)
    } else if s == "--replication-ack"@ {
        Some(ServerOption::ReplicationAck)
    } else if s == "--replication-connect-timeout-ms"@ {
        Some(ServerOption::ReplicationConnectTimeoutMs)
    } else if s == "--replication-retry-attempts"@ {
        Some(ServerOption::ReplicationRetryAttempts)
    } else if s == "--replication-retry-backoff-ms"@ {
        Some(ServerOption::ReplicationRetryBackoffMs)
    } else if s == "--replication-max-in-flight-batches"@ {
        Some(ServerOption::ReplicationMaxInFlightBatches)
    } else if s == "--catch-up-on-startup"@ {
        Some(ServerOption::CatchUpOnStartup)
    } else if s == "--catch-up-interval-ms"@ {
        Some(ServerOption::CatchUpIntervalMs)
    } else if s == "--catch-up-batch-size"@ {
        Some(ServerOption::CatchUpBatchSize)
    } else if s == "--sync-index-catalog-on-startup"@ {
        Some(ServerOption::SyncIndexCatalogOnStartup)
    } else if s == "--sync-index-catalog-interval-ms"@ {
        Some(ServerOption::SyncIndexCatalogIntervalMs)
    } else if s == "--recover-transactions-on-startup"@ {
        Some(ServerOption::RecoverTransactionsOnStartup)
    } else if s == "--recover-transactions-interval-ms"@ {
        Some(ServerOption::RecoverTransactionsIntervalMs)
    } else if s == "--web-bind"@ {
        Some(ServerOption::WebBind)
    } else if s == "--web-auth-token"@ {
        Some(ServerOption::WebAuthToken)
    } else if s == "--slow-query-threshold-ms"@ {
        Some(ServerOption::SlowQueryThresholdMs)
    } else if s == "--tls-mode"@ {
        Some(ServerOption::TlsMode)
    } else if s == "--replication-tls-mode"@ {
        Some(ServerOption::ReplicationTlsMode)
    } else if s == "--web-tls-mode"@ {
        Some(ServerOption::WebTlsMode)
    } else if s == "--native-tls-cert"@ {
        Some(ServerOption::NativeTlsCert)
    } else if s == "--native-tls-key"@ {
        Some(ServerOption::NativeTlsKey)
    } else if s == "--native-tls-client-ca"@ {
        Some(ServerOption::NativeTlsClientCa)
    } else if s == "--native-tls-require-client-auth"@ {
        Some(ServerOption::NativeTlsRequireClientAuth)
    } else if s == "--web-tls-cert"@ {
        Some(ServerOption::WebTlsCert)
    } else if s == "--web-tls-key"@ {
        Some(ServerOption::WebTlsKey)
    } else if s == "--web-tls-client-ca"@ {
        Some(ServerOption::WebTlsClientCa)
    } else if s == "--web-tls-require-client-auth"@ {
        Some(ServerOption::WebTlsRequireClientAuth)
    } else if s == "--replication-tls-cert"@ {
        Some(ServerOption::ReplicationTlsCert)
    } else if s == "--replication-tls-key"@ {
        Some(ServerOption::ReplicationTlsKey)
    } else if s == "--replication-tls-client-ca"@ {
        Some(ServerOption::ReplicationTlsClientCa)
    } else if s == "--replication-tls-require-client-auth"@ {
        Some(ServerOption::ReplicationTlsRequireClientAuth)
    } else if s == "--replication-tls-ca"@ {
        Some(ServerOption::ReplicationTlsCa)
    } else if s == "--replication-tls-server-name"@ {
        Some(ServerOption::ReplicationTlsServerName)
    } else if s == "--replication-tls-client-cert"@ {
        Some(ServerOption::ReplicationTlsClientCert)
    } else if s == "--replication-tls-client-key"@ {
        Some(ServerOption::ReplicationTlsClientKey)
    } else if s == "--min-native-protocol-version"@ {
        Some(ServerOption::MinNativeProtocolVersion)
    } else if s == "--max-native-protocol-version"@ {
        Some(ServerOption::MaxNativeProtocolVersion)
    } else if s == "--backup-drill-max-age-hours"@ {
        Some(ServerOption::BackupDrillMaxAgeHours)
    } else if s == "--wal-archive-dir"@ {
        Some(ServerOption::WalArchiveDir)
    } else if s == "--restore-drill-manifest"@ {
        Some(ServerOption::RestoreDrillManifest)
    } else if s == "--audit-retention-days"@ {
        Some(ServerOption::AuditRetentionDays)
    } else if s == "--secret-rotation-days"@ {
        Some(ServerOption::SecretRotationDays)
    } else if s == "--tenant-max-concurrent-queries"@ {
        Some(ServerOption::TenantMaxConcurrentQueries)
    } else if s == "--tenant-max-result-rows"@ {
        Some(ServerOption::TenantMaxResultRows)
    } else if s == "--data-format-version"@ {
        Some(ServerOption::DataFormatVersion)
    } else if s == "--upgrade-manifest"@ {
        Some(ServerOption::UpgradeManifest)
    } else if s == "--raft-lease-clock-drift-bound-ms"@ {
        Some(ServerOption::RaftLeaseClockDriftBoundMs)
    } else if s == "--raft-lease-message-delay-bound-ms"@ {
        Some(ServerOption::RaftLeaseMessageDelayBoundMs)
    } else if s == "--observability-alerts"@ {
        Some(ServerOption::ObservabilityAlerts)
    } else if s == "--repair-check-on-startup"@ {
        Some(ServerOption::RepairCheckOnStartup)
    } else if s == "--query-regression-corpus"@ {
        Some(ServerOption::QueryRegressionCorpus)
    } else if s == "--chaos-gate-required"@ {
        Some(ServerOption::ChaosGateRequired)
    } else if s == "--runbook"@ {
        Some(ServerOption::Runbook)
    } else if s == "--systemd-unit"@ {
        Some(ServerOption::SystemdUnit)
    } else if s == "--logrotate"@ {
        Some(ServerOption::Logrotate)
    } else if s == "--daemonize"@ {
        Some(ServerOption::Daemonize)
    } else if s == "--check-config"@ {
        Some(ServerOption::CheckConfig)
    } else if s == "--production-check"@ {
        Some(ServerOption::ProductionCheck)
    } else if s == "--dump-config"@ {
        Some(ServerOption::DumpConfig)
    } else {
        None
    }
}

/// Finds the option of that name.
pub fn find_option(s: &str) -> (r: Option<ServerOption>)
    ensures
        r == option_named(s@),
{
    if same(s, "--bind") {
        Some(ServerOption::Bind)
    } else if same(s, "--data-dir") {
        Some(ServerOption::DataDir)
    } else if same(s, "--shards") {
        Some(ServerOption::Shards)
    } else if same(s, "--partitions") {
        Some(ServerOption::Partitions)
    } else if same(s, "--server-id") {
        Some(ServerOption::ServerId)
    } else if same(s, "--workers") {
        Some(ServerOption::Workers)
    } else if same(s, "--queue-capacity") {
        Some(ServerOption::QueueCapacity)
    } else if same(s, "--page-size") {
        Some(ServerOption::PageSize)
    } else if same(s, "--read-preference") {
        Some(ServerOption::ReadPreference)
    } else if same(s, "--primary-server-id") {
        Some(ServerOption::PrimaryServerId)
    } else if same(s, "--routing-table") {
        Some(ServerOption::RoutingTable)
    } else if same(s, "--replica-peer") {
        Some(ServerOption::ReplicaPeer)
    } else if same(s, "--peer") {
        Some(ServerOption::Peer)
    } else if same(s, "--query-peer") {
        Some(ServerOption::QueryPeer)
    } else if same(s, "--gossip-seed-peer") {
        Some(ServerOption::GossipSeedPeer)
    } else if same(s, "--gossip-advertise-query") {
        Some(ServerOption::GossipAdvertiseQuery)
    } else if same(s, "--gossip-advertise-replication") {
        Some(ServerOption::GossipAdvertiseReplication)
    } else if same(s, "--gossip-interval-ms") {
        Some(ServerOption::GossipIntervalMs)
    } else if same(s, "--gossip-ttl-ms") {
        Some(ServerOption::GossipTtlMs)
    } else if same(s, "--gossip-fanout") {
        Some(ServerOption::GossipFanout)
    } else if same(s, "--gossip-auth-token") {
        Some(ServerOption::GossipAuthToken)
    } else if same(s, "--gossip-auto-negotiate-replication") {
        Some(ServerOption::GossipAutoNegotiateReplication)
    } else if same(s, "--replication-bind") {
        Some(ServerOption::ReplicationBind)
    } else if same(s, "--replication-transport") {
        Some(ServerOption::ReplicationTransport)
    } else if same(s, "--replication-ack") {
        Some(ServerOption::ReplicationAck)
    } else if same(s, "--replication-connect-timeout-ms") {
        Some(ServerOption::ReplicationConnectTimeoutMs)
    } else if same(s, "--replication-retry-attempts") {
        Some(ServerOption::ReplicationRetryAttempts)
    } else if same(s, "--replication-retry-backoff-ms") {
        Some(ServerOption::ReplicationRetryBackoffMs)
    } else if same(s, "--replication-max-in-flight-batches") {
        Some(ServerOption::ReplicationMaxInFlightBatches)
    } else if same(s, "--catch-up-on-startup") {
        Some(ServerOption::CatchUpOnStartup)
    } else if same(s, "--catch-up-interval-ms") {
        Some(ServerOption::CatchUpIntervalMs)
    } else if same(s, "--catch-up-batch-size") {
        Some(ServerOption::CatchUpBatchSize)
    } else if same(s, "--sync-index-catalog-on-startup") {
        Some(ServerOption::SyncIndexCatalogOnStartup)
    } else if same(s, "--sync-index-catalog-interval-ms") {
        Some(ServerOption::SyncIndexCatalogIntervalMs)
    } else if same(s, "--recover-transactions-on-startup") {
        Some(ServerOption::RecoverTransactionsOnStartup)
    } else if same(s, "--recover-transactions-interval-ms") {
        Some(ServerOption::RecoverTransactionsIntervalMs)
    } else if same(s, "--web-bind") {
        Some(ServerOption::WebBind)
    } else if same(s, "--web-auth-token") {
        Some(ServerOption::WebAuthToken)
    } else if same(s, "--slow-query-threshold-ms") {
        Some(ServerOption::SlowQueryThresholdMs)
    } else if same(s, "--tls-mode") {
        Some(ServerOption::TlsMode)
    } else if same(s, "--replication-tls-mode") {
        Some(ServerOption::ReplicationTlsMode)
    } else if same(s, "--web-tls-mode") {
        Some(ServerOption::WebTlsMode)
    } else if same(s, "--native-tls-cert") {
        Some(ServerOption::NativeTlsCert)
    } else if same(s, "--native-tls-key") {
        Some(ServerOption::NativeTlsKey)
    } else if same(s, "--native-tls-client-ca") {
        Some(ServerOption::NativeTlsClientCa)
    } else if same(s, "--native-tls-require-client-auth") {
        Some(ServerOption::NativeTlsRequireClientAuth)
    } else if same(s, "--web-tls-cert") {
        Some(ServerOption::WebTlsCert)
    } else if same(s, "--web-tls-key") {
        Some(ServerOption::WebTlsKey)
    } else if same(s, "--web-tls-client-ca") {
        Some(ServerOption::WebTlsClientCa)
    } else if same(s, "--web-tls-require-client-auth") {
        Some(ServerOption::WebTlsRequireClientAuth)
    } else if same(s, "--replication-tls-cert") {
        Some(ServerOption::ReplicationTlsCert)
    } else if same(s, "--replication-tls-key") {
        Some(ServerOption::ReplicationTlsKey)
    } else if same(s, "--replication-tls-client-ca") {
        Some(ServerOption::ReplicationTlsClientCa)
    } else if same(s, "--replication-tls-require-client-auth") {
        Some(ServerOption::ReplicationTlsRequireClientAuth)
    } else if same(s, "--replication-tls-ca") {
        Some(ServerOption::ReplicationTlsCa)
    } else if same(s, "--replication-tls-server-name") {
        Some(ServerOption::ReplicationTlsServerName)
    } else if same(s, "--replication-tls-client-cert") {
        Some(ServerOption::ReplicationTlsClientCert)
    } else if same(s, "--replication-tls-client-key") {
        Some(ServerOption::ReplicationTlsClientKey)
    } else if same(s, "--min-native-protocol-version") {
        Some(ServerOption::MinNativeProtocolVersion)
    } else if same(s, "--max-native-protocol-version") {
        Some(ServerOption::MaxNativeProtocolVersion)
    } else if same(s, "--backup-drill-max-age-hours") {
        Some(ServerOption::BackupDrillMaxAgeHours)
    } else if same(s, "--wal-archive-dir") {
        Some(ServerOption::WalArchiveDir)
    } else if same(s, "--restore-drill-manifest") {
        Some(ServerOption::RestoreDrillManifest)
    } else if same(s, "--audit-retention-days") {
        Some(ServerOption::AuditRetentionDays)
    } else if same(s, "--secret-rotation-days") {
        Some(ServerOption::SecretRotationDays)
    } else if same(s, "--tenant-max-concurrent-queries") {
        Some(ServerOption::TenantMaxConcurrentQueries)
    } else if same(s, "--tenant-max-result-rows") {
        Some(ServerOption::TenantMaxResultRows)
    } else if same(s, "--data-format-version") {
        Some(ServerOption::DataFormatVersion)
    } else if same(s, "--upgrade-manifest") {
        Some(ServerOption::UpgradeManifest)
    } else if same(s, "--raft-lease-clock-drift-bound-ms") {
        Some(ServerOption::RaftLeaseClockDriftBoundMs)
    } else if same(s, "--raft-lease-message-delay-bound-ms") {
        Some(ServerOption::RaftLeaseMessageDelayBoundMs)
    } else if same(s, "--observability-alerts") {
        Some(ServerOption::ObservabilityAlerts)
    } else if same(s, "--repair-check-on-startup") {
        Some(ServerOption::RepairCheckOnStartup)
    } else if same(s, "--query-regression-corpus") {
        Some(ServerOption::QueryRegressionCorpus)
    } else if same(s, "--chaos-gate-required") {
        Some(ServerOption::ChaosGateRequired)
    } else if same(s, "--runbook") {
        Some(ServerOption::Runbook)
    } else if same(s, "--systemd-unit") {
        Some(ServerOption::SystemdUnit)
    } else if same(s, "--logrotate") {
        Some(ServerOption::Logrotate)
    } else if same(s, "--daemonize") {
        Some(ServerOption::Daemonize)
    } else if same(s, "--check-config") {
        Some(ServerOption::CheckConfig)
    } else if same(s, "--production-check") {
        Some(ServerOption::ProductionCheck)
    } else if same(s, "--dump-config") {
        Some(ServerOption::DumpConfig)
    } else {
        None
    }
}


/// Every option is found under its name.
pub proof fn option_names_are_distinct(o: ServerOption)
    ensures
        option_named(o.name()) == Some(o),
        o.name() != "--config"@,
        o.name() != "--help"@,
        o.name() != "-h"@,
{
    reveal_strlit("--config");
    reveal_strlit("--help");
    reveal_strlit("-h");
    reveal_strlit("--bind");
    reveal_strlit("--data-dir");
    reveal_strlit("--shards");
    reveal_strlit("--partitions");
    reveal_strlit("--server-id");
    reveal_strlit("--workers");
    reveal_strlit("--queue-capacity");
    reveal_strlit("--page-size");
    reveal_strlit("--read-preference");
    reveal_strlit("--primary-server-id");
    reveal_strlit("--routing-table");
    reveal_strlit("--replica-peer");
    reveal_strlit("--peer");
    reveal_strlit("--query-peer");
    reveal_strlit("--gossip-seed-peer");
    reveal_strlit("--gossip-advertise-query");
    reveal_strlit("--gossip-advertise-replication");
    reveal_strlit("--gossip-interval-ms");
    reveal_strlit("--gossip-ttl-ms");
    reveal_strlit("--gossip-fanout");
    reveal_strlit("--gossip-auth-token");
    reveal_strlit("--gossip-auto-negotiate-replication");
    reveal_strlit("--replication-bind");
    reveal_strlit("--replication-transport");
    reveal_strlit("--replication-ack");
    reveal_strlit("--replication-connect-timeout-ms");
    reveal_strlit("--replication-retry-attempts");
    reveal_strlit("--replication-retry-backoff-ms");
    reveal_strlit("--replication-max-in-flight-batches");
    reveal_strlit("--catch-up-on-startup");
    reveal_strlit("--catch-up-interval-ms");
    reveal_strlit("--catch-up-batch-size");
    reveal_strlit("--sync-index-catalog-on-startup");
    reveal_strlit("--sync-index-catalog-interval-ms");
    reveal_strlit("--recover-transactions-on-startup");
    reveal_strlit("--recover-transactions-interval-ms");
    reveal_strlit("--web-bind");
    reveal_strlit("--web-auth-token");
    reveal_strlit("--slow-query-threshold-ms");
    reveal_strlit("--tls-mode");
    reveal_strlit("--replication-tls-mode");
    reveal_strlit("--web-tls-mode");
    reveal_strlit("--native-tls-cert");
    reveal_strlit("--native-tls-key");
    reveal_strlit("--native-tls-client-ca");
    reveal_strlit("--native-tls-require-client-auth");
    reveal_strlit("--web-tls-cert");
    reveal_strlit("--web-tls-key");
    reveal_strlit("--web-tls-client-ca");
    reveal_strlit("--web-tls-require-client-auth");
    reveal_strlit("--replication-tls-cert");
    reveal_strlit("--replication-tls-key");
    reveal_strlit("--replication-tls-client-ca");
    reveal_strlit("--replication-tls-require-client-auth");
    reveal_strlit("--replication-tls-ca");
    reveal_strlit("--replication-tls-server-name");
    reveal_strlit("--replication-tls-client-cert");
    reveal_strlit("--replication-tls-client-key");
    reveal_strlit("--min-native-protocol-version");
    reveal_strlit("--max-native-protocol-version");
    reveal_strlit("--backup-drill-max-age-hours");
    reveal_strlit("--wal-archive-dir");
    reveal_strlit("--restore-drill-manifest");
    reveal_strlit("--audit-retention-days");
    reveal_strlit("--secret-rotation-days");
    reveal_strlit("--tenant-max-concurrent-queries");
    reveal_strlit("--tenant-max-result-rows");
    reveal_strlit("--data-format-version");
    reveal_strlit("--upgrade-manifest");
    reveal_strlit("--raft-lease-clock-drift-bound-ms");
    reveal_strlit("--raft-lease-message-delay-bound-ms");
    reveal_strlit("--observability-alerts");
    reveal_strlit("--repair-check-on-startup");
    reveal_strlit("--query-regression-corpus");
    reveal_strlit("--chaos-gate-required");
    reveal_strlit("--runbook");
    reveal_strlit("--systemd-unit");
    reveal_strlit("--logrotate");
    reveal_strlit("--daemonize");
    reveal_strlit("--check-config");
    reveal_strlit("--production-check");
    reveal_strlit("--dump-config");
    assert("--config"@.len() == 8);
    assert("--help"@.len() == 6);
    assert("-h"@.len() == 2);
    assert("--bind"@.len() == 6);
    assert("--data-dir"@.len() == 10);
    assert("--shards"@.len() == 8);
    assert("--partitions"@.len() == 12);
    assert("--server-id"@.len() == 11);
    assert("--workers"@.len() == 9);
    assert("--queue-capacity"@.len() == 16);
    assert("--page-size"@.len() == 11);
    assert("--read-preference"@.len() == 17);
    assert("--primary-server-id"@.len() == 19);
    assert("--routing-table"@.len() == 15);
    assert("--replica-peer"@.len() == 14);
    assert("--peer"@.len() == 6);
    assert("--query-peer"@.len() == 12);
    assert("--gossip-seed-peer"@.len() == 18);
    assert("--gossip-advertise-query"@.len() == 24);
    assert("--gossip-advertise-replication"@.len() == 30);
    assert("--gossip-interval-ms"@.len() == 20);
    assert("--gossip-ttl-ms"@.len() == 15);
    assert("--gossip-fanout"@.len() == 15);
    assert("--gossip-auth-token"@.len() == 19);
    assert("--gossip-auto-negotiate-replication"@.len() == 35);
    assert("--replication-bind"@.len() == 18);
    assert("--replication-transport"@.len() == 23);
    assert("--replication-ack"@.len() == 17);
    assert("--replication-connect-timeout-ms"@.len() == 32);
    assert("--replication-retry-attempts"@.len() == 28);
    assert("--replication-retry-backoff-ms"@.len() == 30);
    assert("--replication-max-in-flight-batches"@.len() == 35);
    assert("--catch-up-on-startup"@.len() == 21);
    assert("--catch-up-interval-ms"@.len() == 22);
    assert("--catch-up-batch-size"@.len() == 21);
    assert("--sync-index-catalog-on-startup"@.len() == 31);
    assert("--sync-index-catalog-interval-ms"@.len() == 32);
    assert("--recover-transactions-on-startup"@.len() == 33);
    assert("--recover-transactions-interval-ms"@.len() == 34);
    assert("--web-bind"@.len() == 10);
    assert("--web-auth-token"@.len() == 16);
    assert("--slow-query-threshold-ms"@.len() == 25);
    assert("--tls-mode"@.len() == 10);
    assert("--replication-tls-mode"@.len() == 22);
    assert("--web-tls-mode"@.len() == 14);
    assert("--native-tls-cert"@.len() == 17);
    assert("--native-tls-key"@.len() == 16);
    assert("--native-tls-client-ca"@.len() == 22);
    assert("--native-tls-require-client-auth"@.len() == 32);
    assert("--web-tls-cert"@.len() == 14);
    assert("--web-tls-key"@.len() == 13);
    assert("--web-tls-client-ca"@.len() == 19);
    assert("--web-tls-require-client-auth"@.len() == 29);
    assert("--replication-tls-cert"@.len() == 22);
    assert("--replication-tls-key"@.len() == 21);
    assert("--replication-tls-client-ca"@.len() == 27);
    assert("--replication-tls-require-client-auth"@.len() == 37);
    assert("--replication-tls-ca"@.len() == 20);
    assert("--replication-tls-server-name"@.len() == 29);
    assert("--replication-tls-client-cert"@.len() == 29);
    assert("--replication-tls-client-key"@.len() == 28);
    assert("--min-native-protocol-version"@.len() == 29);
    assert("--max-native-protocol-version"@.len() == 29);
    assert("--backup-drill-max-age-hours"@.len() == 28);
    assert("--wal-archive-dir"@.len() == 17);
    assert("--restore-drill-manifest"@.len() == 24);
    assert("--audit-retention-days"@.len() == 22);
    assert("--secret-rotation-days"@.len() == 22);
    assert("--tenant-max-concurrent-queries"@.len() == 31);
    assert("--tenant-max-result-rows"@.len() == 24);
    assert("--data-format-version"@.len() == 21);
    assert("--upgrade-manifest"@.len() == 18);
    assert("--raft-lease-clock-drift-bound-ms"@.len() == 33);
    assert("--raft-lease-message-delay-bound-ms"@.len() == 35);
    assert("--observability-alerts"@.len() == 22);
    assert("--repair-check-on-startup"@.len() == 25);
    assert("--query-regression-corpus"@.len() == 25);
    assert("--chaos-gate-required"@.len() == 21);
    assert("--runbook"@.len() == 9);
    assert("--systemd-unit"@.len() == 14);
    assert("--logrotate"@.len() == 11);
    assert("--daemonize"@.len() == 11);
    assert("--check-config"@.len() == 14);
    assert("--production-check"@.len() == 18);
    assert("--dump-config"@.len() == 13);
    assert("--help"@[2] == 'h');
    assert("--bind"@[2] == 'b');
    assert("--peer"@[2] == 'p');
    assert("--config"@[2] == 'c');
    assert("--shards"@[2] == 's');
    assert("--workers"@[2] == 'w');
    assert("--runbook"@[2] == 'r');
    assert("--data-dir"@[2] == 'd');
    assert("--web-bind"@[2] == 'w');
    assert("--tls-mode"@[2] == 't');
    assert("--server-id"@[2] == 's');
    assert("--page-size"@[2] == 'p');
    assert("--logrotate"@[2] == 'l');
    assert("--daemonize"@[2] == 'd');
    assert("--partitions"@[2] == 'p');
    assert("--query-peer"@[2] == 'q');
    assert("--web-tls-key"@[2] == 'w');
    assert("--dump-config"@[2] == 'd');
    assert("--replica-peer"@[10] == 'p');
    assert("--web-tls-mode"@[10] == 'm');
    assert("--web-tls-cert"@[10] == 'c');
    assert("--systemd-unit"@[10] == 'u');
    assert("--check-config"@[10] == 'n');
    assert("--routing-table"@[9] == '-');
    assert("--gossip-ttl-ms"@[9] == 't');
    assert("--gossip-fanout"@[9] == 'f');
    assert("--queue-capacity"@[2] == 'q');
    assert("--web-auth-token"@[2] == 'w');
    assert("--native-tls-key"@[2] == 'n');
    assert("--read-preference"@[4] == 'a');
    assert("--replication-ack"@[4] == 'p');
    assert("--native-tls-cert"@[4] == 't');
    assert("--wal-archive-dir"@[4] == 'l');
    assert("--gossip-seed-peer"@[2] == 'g');
    assert("--replication-bind"@[2] == 'r');
    assert("--upgrade-manifest"@[2] == 'u');
    assert("--production-check"@[2] == 'p');
    assert("--primary-server-id"@[2] == 'p');
    assert("--gossip-auth-token"@[2] == 'g');
    assert("--web-tls-client-ca"@[2] == 'w');
    assert("--gossip-interval-ms"@[2] == 'g');
    assert("--replication-tls-ca"@[2] == 'r');
    assert("--catch-up-on-startup"@[14] == 's');
    assert("--catch-up-batch-size"@[14] == 'c');
    assert("--replication-tls-key"@[14] == 't');
    assert("--data-format-version"@[14] == 'v');
    assert("--chaos-gate-required"@[14] == 'e');
    assert("--catch-up-interval-ms"@[2] == 'c' && "--catch-up-interval-ms"@[18] == 'l');
    assert("--replication-tls-mode"@[2] == 'r' && "--replication-tls-mode"@[18] == 'm');
    assert("--native-tls-client-ca"@[2] == 'n' && "--native-tls-client-ca"@[18] == 't');
    assert("--replication-tls-cert"@[2] == 'r' && "--replication-tls-cert"@[18] == 'c');
    assert("--audit-retention-days"@[2] == 'a' && "--audit-retention-days"@[18] == 'd');
    assert("--secret-rotation-days"@[2] == 's' && "--secret-rotation-days"@[18] == 'd');
    assert("--observability-alerts"@[2] == 'o' && "--observability-alerts"@[18] == 'e');
    assert("--gossip-advertise-query"@[2] == 'g');
    assert("--restore-drill-manifest"@[2] == 'r');
    assert("--tenant-max-result-rows"@[2] == 't');
    assert("--slow-query-threshold-ms"@[2] == 's');
    assert("--repair-check-on-startup"@[2] == 'r');
    assert("--query-regression-corpus"@[2] == 'q');
    assert("--replication-retry-attempts"@[14] == 'r');
    assert("--replication-tls-client-key"@[14] == 't');
    assert("--backup-drill-max-age-hours"@[14] == '-');
    assert("--web-tls-require-client-auth"@[4] == 'b' && "--web-tls-require-client-auth"@[18] == 'c');
    assert("--replication-tls-server-name"@[4] == 'p' && "--replication-tls-server-name"@[18] == 's');
    assert("--replication-tls-client-cert"@[4] == 'p' && "--replication-tls-client-cert"@[18] == 'c');
    assert("--min-native-protocol-version"@[4] == 'n' && "--min-native-protocol-version"@[18] == 'c');
    assert("--max-native-protocol-version"@[4] == 'x' && "--max-native-protocol-version"@[18] == 'c');
    assert("--gossip-advertise-replication"@[2] == 'g');
    assert("--replication-retry-backoff-ms"@[2] == 'r');
    assert("--sync-index-catalog-on-startup"@[2] == 's');
    assert("--tenant-max-concurrent-queries"@[2] == 't');
    assert("--replication-connect-timeout-ms"@[2] == 'r');
    assert("--sync-index-catalog-interval-ms"@[2] == 's');
    assert("--native-tls-require-client-auth"@[2] == 'n');
    assert("--recover-transactions-on-startup"@[3] == 'e');
    assert("--raft-lease-clock-drift-bound-ms"@[3] == 'a');
    assert("--gossip-auto-negotiate-replication"@[3] == 'o');
    assert("--replication-max-in-flight-batches"@[3] == 'e');
    assert("--raft-lease-message-delay-bound-ms"@[3] == 'a');
}

/// What `--help` prints.
pub open spec fn usage_text() -> Seq<char> {
    "usage: neo4r-server [--config PATH] [--check-config] [--production-check] [--dump-config] [--bind ADDR] [--web-bind ADDR] [--web-auth-token TOKEN] [--slow-query-threshold-ms MS] [--data-dir DIR] [--shards N] [--partitions N] [--server-id ID] [--primary-server-id ID] [--replica-peer SERVER_ID=ADDR] [--peer SERVER_ID=ADDR] [--query-peer SERVER_ID=ADDR] [--gossip-seed-peer SERVER_ID=ADDR] [--gossip-advertise-query ADDR] [--gossip-advertise-replication ADDR] [--gossip-interval-ms MS] [--gossip-ttl-ms MS] [--gossip-fanout N] [--gossip-auth-token TOKEN] [--gossip-auto-negotiate-replication] [--read-preference primary|prefer-replica] [--replication-bind ADDR] [--replication-transport tcp|rdma] [--replication-ack all|quorum|async] [--replication-connect-timeout-ms MS] [--replication-retry-attempts N] [--replication-retry-backoff-ms MS] [--replication-max-in-flight-batches N] [--catch-up-on-startup] [--catch-up-interval-ms MS] [--catch-up-batch-size N] [--sync-index-catalog-on-startup] [--sync-index-catalog-interval-ms MS] [--recover-transactions-on-startup] [--recover-transactions-interval-ms MS] [--tls-mode disabled|external|required] [--replication-tls-mode disabled|external|required] [--web-tls-mode disabled|external|required] [--native-tls-cert CERT.pem] [--native-tls-key KEY.pem] [--native-tls-client-ca CA.pem] [--native-tls-require-client-auth] [--web-tls-cert CERT.pem] [--web-tls-key KEY.pem] [--web-tls-client-ca CA.pem] [--web-tls-require-client-auth] [--replication-tls-cert CERT.pem] [--replication-tls-key KEY.pem] [--replication-tls-client-ca CA.pem] [--replication-tls-require-client-auth] [--replication-tls-ca CA.pem] [--replication-tls-server-name DNS_NAME] [--replication-tls-client-cert CERT.pem] [--replication-tls-client-key KEY.pem] [--min-native-protocol-version N] [--max-native-protocol-version N] [--backup-drill-max-age-hours N] [--wal-archive-dir DIR] [--restore-drill-manifest PATH] [--audit-retention-days N] [--secret-rotation-days N] [--tenant-max-concurrent-queries N] [--tenant-max-result-rows N] [--data-format-version N] [--upgrade-manifest PATH] [--raft-lease-clock-drift-bound-ms N] [--raft-lease-message-delay-bound-ms N] [--observability-alerts PATH] [--repair-check-on-startup] [--query-regression-corpus PATH] [--chaos-gate-required] [--runbook PATH] [--systemd-unit PATH] [--logrotate PATH] [--workers N] [--queue-capacity N] [--page-size N] [--daemonize]"@
}

pub fn usage() -> (r: String)
    ensures
        r@ == usage_text(),
{
    "usage: neo4r-server [--config PATH] [--check-config] [--production-check] [--dump-config] [--bind ADDR] [--web-bind ADDR] [--web-auth-token TOKEN] [--slow-query-threshold-ms MS] [--data-dir DIR] [--shards N] [--partitions N] [--server-id ID] [--primary-server-id ID] [--replica-peer SERVER_ID=ADDR] [--peer SERVER_ID=ADDR] [--query-peer SERVER_ID=ADDR] [--gossip-seed-peer SERVER_ID=ADDR] [--gossip-advertise-query ADDR] [--gossip-advertise-replication ADDR] [--gossip-interval-ms MS] [--gossip-ttl-ms MS] [--gossip-fanout N] [--gossip-auth-token TOKEN] [--gossip-auto-negotiate-replication] [--read-preference primary|prefer-replica] [--replication-bind ADDR] [--replication-transport tcp|rdma] [--replication-ack all|quorum|async] [--replication-connect-timeout-ms MS] [--replication-retry-attempts N] [--replication-retry-backoff-ms MS] [--replication-max-in-flight-batches N] [--catch-up-on-startup] [--catch-up-interval-ms MS] [--catch-up-batch-size N] [--sync-index-catalog-on-startup] [--sync-index-catalog-interval-ms MS] [--recover-transactions-on-startup] [--recover-transactions-interval-ms MS] [--tls-mode disabled|external|required] [--replication-tls-mode disabled|external|required] [--web-tls-mode disabled|external|required] [--native-tls-cert CERT.pem] [--native-tls-key KEY.pem] [--native-tls-client-ca CA.pem] [--native-tls-require-client-auth] [--web-tls-cert CERT.pem] [--web-tls-key KEY.pem] [--web-tls-client-ca CA.pem] [--web-tls-require-client-auth] [--replication-tls-cert CERT.pem] [--replication-tls-key KEY.pem] [--replication-tls-client-ca CA.pem] [--replication-tls-require-client-auth] [--replication-tls-ca CA.pem] [--replication-tls-server-name DNS_NAME] [--replication-tls-client-cert CERT.pem] [--replication-tls-client-key KEY.pem] [--min-native-protocol-version N] [--max-native-protocol-version N] [--backup-drill-max-age-hours N] [--wal-archive-dir DIR] [--restore-drill-manifest PATH] [--audit-retention-days N] [--secret-rotation-days N] [--tenant-max-concurrent-queries N] [--tenant-max-result-rows N] [--data-format-version N] [--upgrade-manifest PATH] [--raft-lease-clock-drift-bound-ms N] [--raft-lease-message-delay-bound-ms N] [--observability-alerts PATH] [--repair-check-on-startup] [--query-regression-corpus PATH] [--chaos-gate-required] [--runbook PATH] [--systemd-unit PATH] [--logrotate PATH] [--workers N] [--queue-capacity N] [--page-size N] [--daemonize]".to_owned()
}


/// A value given to an option.
pub enum Given {
    On,
    Text(Seq<char>),
    Number(nat),
    Peer(u64, Seq<char>),
    ReadPreference(QueryReadPreference),
    Transport(ReplicationChannelKind),
    Ack(ReplicationAckPolicy),
    Security(ProductionSecurityMode),
}

/// What an option is set to.
pub enum Setting {
    On,
    Text(Seq<char>),
    Number(nat),
    Peers(Seq<(u64, Seq<char>)>),
    ReadPreference(QueryReadPreference),
    Transport(ReplicationChannelKind),
    Ack(ReplicationAckPolicy),
    Security(ProductionSecurityMode),
}

/// A value read for an option.
pub enum OptionValue {
    Text(String),
    Number(u64),
    Peer(ReplicaPeer),
    ReadPreference(QueryReadPreference),
    Transport(ReplicationChannelKind),
    Ack(ReplicationAckPolicy),
    Security(ProductionSecurityMode),
}

impl OptionValue {
    pub open spec fn view(&self) -> Given {
        match self {
            OptionValue::Text(s) => Given::Text(s@),
            OptionValue::Number(n) => Given::Number(*n as nat),
            OptionValue::Peer(p) => Given::Peer(p.server_id, p.address@),
            OptionValue::ReadPreference(p) => Given::ReadPreference(*p),
            OptionValue::Transport(t) => Given::Transport(*t),
            OptionValue::Ack(a) => Given::Ack(*a),
            OptionValue::Security(m) => Given::Security(*m),
        }
    }
}

/// The largest number that an option of the kind takes.
pub open spec fn largest(kind: OptionKind) -> nat {
    match kind {
        OptionKind::Usize => usize::MAX as nat,
        OptionKind::U32 => u32::MAX as nat,
        OptionKind::U8 => u8::MAX as nat,
        _ => u64::MAX as nat,
    }
}

/// Whether a value is one that an option of the kind takes.
pub open spec fn fits(kind: OptionKind, value: Given) -> bool {
    match kind {
        OptionKind::Flag => value is On,
        OptionKind::Text => value is Text,
        OptionKind::Peers => value is Peer,
        OptionKind::ReadPreference => value is ReadPreference,
        OptionKind::Transport => value is Transport,
        OptionKind::Ack => value is Ack,
        OptionKind::Security => value is Security,
        _ => value matches Given::Number(n) && n <= largest(kind),
    }
}

/// The peer written as `SERVER_ID=ADDR`, or what is wrong with it.
pub open spec fn peer_written(s: Seq<char>, option: Seq<char>) -> Result<
    (u64, Seq<char>),
    Seq<char>,
> {
    match split_once(s, "="@) {
        None => Err(option + " must be SERVER_ID=ADDR"@),
        Some((id, address)) => match number(id, u64::MAX as nat) {
            None => Err(option + " server id has an invalid value"@),
            Some(n) => if n == 0 {
                Err(option + " server id must be greater than zero"@)
            } else if address.len() == 0 {
                Err(option + " address cannot be empty"@)
            } else {
                Ok((n as u64, address))
            },
        },
    }
}

/// Reads a peer written as `SERVER_ID=ADDR`.
pub fn parse_peer(s: &str, option: &str) -> (r: Result<ReplicaPeer, String>)
    ensures
        match r {
            Ok(p) => peer_written(s@, option@) == Ok::<(u64, Seq<char>), Seq<char>>(p@),
            Err(e) => peer_written(s@, option@) == Err::<(u64, Seq<char>), Seq<char>>(e@),
        },
{
    match split_first(s, "=") {
        None => Err(cat(option, " must be SERVER_ID=ADDR")),
        Some((id, address)) => match read_number(id.as_str(), u64::MAX as u128) {
            None => Err(cat(option, " server id has an invalid value")),
            Some(n) => if n == 0 {
                Err(cat(option, " server id must be greater than zero"))
            } else if address.as_str().is_empty() {
                Err(cat(option, " address cannot be empty"))
            } else {
                Ok(ReplicaPeer { server_id: n as u64, address })
            },
        },
    }
}

/// Reads a replica peer written as `SERVER_ID=ADDR`.
pub fn parse_replica_peer(s: &str) -> (r: Result<ReplicaPeer, String>)
    ensures
        match r {
            Ok(p) => peer_written(s@, "--replica-peer"@) == Ok::<(u64, Seq<char>), Seq<char>>(p@),
            Err(e) => peer_written(s@, "--replica-peer"@) == Err::<(u64, Seq<char>), Seq<char>>(e@),
        },
{
    parse_peer(s, "--replica-peer")
}

pub open spec fn ack_policy_named(s: Seq<char>) -> Option<ReplicationAckPolicy> {
    if s == "all"@ || s == "ALL"@ {
        Some(ReplicationAckPolicy::All)
    } else if s == "quorum"@ || s == "QUORUM"@ {
        Some(ReplicationAckPolicy::Quorum)
    } else if s == "async"@ || s == "ASYNC"@ {
        Some(ReplicationAckPolicy::Async)
    } else {
        None
    }
}

/// Reads an acknowledgement policy.
pub fn parse_ack_policy(s: &str) -> (r: Result<ReplicationAckPolicy, String>)
    ensures
        match r {
            Ok(p) => ack_policy_named(s@) == Some(p),
            Err(e) => ack_policy_named(s@) is None && e@
                == "--replication-ack must be all, quorum, or async"@,
        },
{
    if same(s, "all") || same(s, "ALL") {
        Ok(ReplicationAckPolicy::All)
    } else if same(s, "quorum") || same(s, "QUORUM") {
        Ok(ReplicationAckPolicy::Quorum)
    } else if same(s, "async") || same(s, "ASYNC") {
        Ok(ReplicationAckPolicy::Async)
    } else {
        Err("--replication-ack must be all, quorum, or async".to_owned())
    }
}

pub open spec fn transport_named(s: Seq<char>) -> Result<ReplicationChannelKind, Seq<char>> {
    if lower(s) == "tcp"@ {
        Ok(ReplicationChannelKind::Tcp)
    } else if lower(s) == "rdma"@ {
        Ok(ReplicationChannelKind::Rdma)
    } else if lower(s) == "udp"@ {
        Err("udp is not supported for raft replication transport"@)
    } else if lower(s) == "custom"@ {
        Err("custom replication transport requires explicit provider wiring"@)
    } else {
        Err("--replication-transport must be tcp or rdma"@)
    }
}

/// Reads the transport of the replication channel.
pub fn parse_replication_transport(s: &str) -> (r: Result<ReplicationChannelKind, String>)
    ensures
        match r {
            Ok(t) => transport_named(s@) == Ok::<ReplicationChannelKind, Seq<char>>(t),
            Err(e) => transport_named(s@) == Err::<ReplicationChannelKind, Seq<char>>(e@),
        },
{
    let name = lowered(s);
    if same(name.as_str(), "tcp") {
        Ok(ReplicationChannelKind::Tcp)
    } else if same(name.as_str(), "rdma") {
        Ok(ReplicationChannelKind::Rdma)
    } else if same(name.as_str(), "udp") {
        Err("udp is not supported for raft replication transport".to_owned())
    } else if same(name.as_str(), "custom") {
        Err("custom replication transport requires explicit provider wiring".to_owned())
    } else {
        Err("--replication-transport must be tcp or rdma".to_owned())
    }
}

pub open spec fn security_mode_named(s: Seq<char>) -> Option<ProductionSecurityMode> {
    if lower(s) == "disabled"@ {
        Some(ProductionSecurityMode::Disabled)
    } else if lower(s) == "external"@ {
        Some(ProductionSecurityMode::External)
    } else if lower(s) == "required"@ {
        Some(ProductionSecurityMode::Required)
    } else {
        None
    }
}

/// Reads a security mode.
pub fn parse_production_security_mode(s: &str) -> (r: Result<ProductionSecurityMode, String>)
    ensures
        match r {
            Ok(m) => security_mode_named(s@) == Some(m),
            Err(e) => security_mode_named(s@) is None && e@
                == "security mode must be disabled, external, or required"@,
        },
{
    let name = lowered(s);
    if same(name.as_str(), "disabled") {
        Ok(ProductionSecurityMode::Disabled)
    } else if same(name.as_str(), "external") {
        Ok(ProductionSecurityMode::External)
    } else if same(name.as_str(), "required") {
        Ok(ProductionSecurityMode::Required)
    } else {
        Err("security mode must be disabled, external, or required".to_owned())
    }
}

pub open spec fn read_preference_named(s: Seq<char>) -> Option<QueryReadPreference> {
    if s == "primary"@ || s == "PRIMARY"@ {
        Some(QueryReadPreference::Primary)
    } else if s == "prefer-replica"@ || s == "PREFER_REPLICA"@ || s == "prefer_replica"@ {
        Some(QueryReadPreference::PreferReplica)
    } else {
        None
    }
}

/// Reads a read preference.
pub fn parse_read_preference(s: &str) -> (r: Result<QueryReadPreference, String>)
    ensures
        match r {
            Ok(p) => read_preference_named(s@) == Some(p),
            Err(e) => read_preference_named(s@) is None && e@
                == "--read-preference must be primary or prefer-replica"@,
        },
{
    if same(s, "primary") || same(s, "PRIMARY") {
        Ok(QueryReadPreference::Primary)
    } else if same(s, "prefer-replica") || same(s, "PREFER_REPLICA") || same(s, "prefer_replica") {
        Ok(QueryReadPreference::PreferReplica)
    } else {
        Err("--read-preference must be primary or prefer-replica".to_owned())
    }
}

pub open spec fn security_mode_text(mode: ProductionSecurityMode) -> Seq<char> {
    match mode {
        ProductionSecurityMode::Disabled => "disabled"@,
        ProductionSecurityMode::External => "external"@,
        ProductionSecurityMode::Required => "required"@,
    }
}

pub fn format_production_security_mode(mode: ProductionSecurityMode) -> (r: &'static str)
    ensures
        r@ == security_mode_text(mode),
{
    match mode {
        ProductionSecurityMode::Disabled => "disabled",
        ProductionSecurityMode::External => "external",
        ProductionSecurityMode::Required => "required",
    }
}

pub open spec fn transport_text(transport: ReplicationChannelKind) -> Seq<char> {
    match transport {
        ReplicationChannelKind::Tcp => "tcp"@,
        ReplicationChannelKind::Rdma => "rdma"@,
        ReplicationChannelKind::Udp => "udp"@,
        ReplicationChannelKind::Custom => "custom"@,
    }
}

pub fn format_replication_transport(transport: ReplicationChannelKind) -> (r: &'static str)
    ensures
        r@ == transport_text(transport),
{
    match transport {
        ReplicationChannelKind::Tcp => "tcp",
        ReplicationChannelKind::Rdma => "rdma",
        ReplicationChannelKind::Udp => "udp",
        ReplicationChannelKind::Custom => "custom",
    }
}

pub open spec fn ack_policy_text(policy: ReplicationAckPolicy) -> Seq<char> {
    match policy {
        ReplicationAckPolicy::All => "all"@,
        ReplicationAckPolicy::Quorum => "quorum"@,
        ReplicationAckPolicy::Async => "async"@,
    }
}

pub fn format_ack_policy(policy: ReplicationAckPolicy) -> (r: &'static str)
    ensures
        r@ == ack_policy_text(policy),
{
    match policy {
        ReplicationAckPolicy::All => "all",
        ReplicationAckPolicy::Quorum => "quorum",
        ReplicationAckPolicy::Async => "async",
    }
}

pub open spec fn read_preference_text(preference: QueryReadPreference) -> Seq<char> {
    match preference {
        QueryReadPreference::Primary => "primary"@,
        QueryReadPreference::PreferReplica => "prefer-replica"@,
    }
}

pub fn format_read_preference(preference: QueryReadPreference) -> (r: &'static str)
    ensures
        r@ == read_preference_text(preference),
{
    match preference {
        QueryReadPreference::Primary => "primary",
        QueryReadPreference::PreferReplica => "prefer-replica",
    }
}

/// The value that `s` gives the option, or what is wrong with it.
pub open spec fn value_given(o: ServerOption, s: Seq<char>) -> Result<Given, Seq<char>> {
    match o.kind() {
        OptionKind::Flag => Ok(Given::On),
        OptionKind::Text => Ok(Given::Text(s)),
        OptionKind::Peers => match peer_written(s, o.name()) {
            Ok((id, address)) => Ok(Given::Peer(id, address)),
            Err(e) => Err(e),
        },
        OptionKind::ReadPreference => match read_preference_named(s) {
            Some(p) => Ok(Given::ReadPreference(p)),
            None => Err("--read-preference must be primary or prefer-replica"@),
        },
        OptionKind::Transport => match transport_named(s) {
            Ok(t) => Ok(Given::Transport(t)),
            Err(e) => Err(e),
        },
        OptionKind::Ack => match ack_policy_named(s) {
            Some(p) => Ok(Given::Ack(p)),
            None => Err("--replication-ack must be all, quorum, or async"@),
        },
        OptionKind::Security => match security_mode_named(s) {
            Some(m) => Ok(Given::Security(m)),
            None => Err("security mode must be disabled, external, or required"@),
        },
        _ => match number(s, largest(o.kind())) {
            Some(n) => Ok(Given::Number(n)),
            None => Err(o.name() + " has an invalid value"@),
        },
    }
}

/// Reads the value of an option that takes one.
pub fn read_value(o: ServerOption, s: &str) -> (r: Result<OptionValue, String>)
    requires
        !(o.kind() is Flag),
    ensures
        match r {
            Ok(v) => value_given(o, s@) == Ok::<Given, Seq<char>>(v@) && fits(o.kind(), v@),
            Err(e) => value_given(o, s@) == Err::<Given, Seq<char>>(e@),
        },
{
    let max: u64 = match o.takes() {
        OptionKind::Text => return Ok(OptionValue::Text(s.to_owned())),
        OptionKind::Peers => return match parse_peer(s, o.text()) {
            Ok(p) => Ok(OptionValue::Peer(p)),
            Err(e) => Err(e),
        },
        OptionKind::ReadPreference => return match parse_read_preference(s) {
            Ok(p) => Ok(OptionValue::ReadPreference(p)),
            Err(e) => Err(e),
        },
        OptionKind::Transport => return match parse_replication_transport(s) {
            Ok(t) => Ok(OptionValue::Transport(t)),
            Err(e) => Err(e),
        },
        OptionKind::Ack => return match parse_ack_policy(s) {
            Ok(p) => Ok(OptionValue::Ack(p)),
            Err(e) => Err(e),
        },
        OptionKind::Security => return match parse_production_security_mode(s) {
            Ok(m) => Ok(OptionValue::Security(m)),
            Err(e) => Err(e),
        },
        OptionKind::Usize => usize::MAX as u64,
        OptionKind::U32 => u32::MAX as u64,
        OptionKind::U8 => u8::MAX as u64,
        _ => u64::MAX,
    };
    match read_number(s, max as u128) {
        Some(n) => Ok(OptionValue::Number(n as u64)),
        None => Err(cat(o.text(), " has an invalid value")),
    }
}

/// What an option is set to after a value was given: a peer joins those given
/// before, and any other value takes the place of the one before.
pub open spec fn after_given(before: Option<Setting>, value: Given) -> Setting {
    match value {
        Given::On => Setting::On,
        Given::Text(s) => Setting::Text(s),
        Given::Number(n) => Setting::Number(n),
        Given::Peer(id, address) => match before {
            Some(Setting::Peers(peers)) => Setting::Peers(peers.push((id, address))),
            _ => Setting::Peers(seq![(id, address)]),
        },
        Given::ReadPreference(p) => Setting::ReadPreference(p),
        Given::Transport(t) => Setting::Transport(t),
        Given::Ack(a) => Setting::Ack(a),
        Given::Security(m) => Setting::Security(m),
    }
}

/// The settings after a value was given to an option.
pub open spec fn give(
    settings: Map<ServerOption, Setting>,
    o: ServerOption,
    value: Given,
) -> Map<ServerOption, Setting> {
    let before = if settings.dom().contains(o) {
        Some(settings[o])
    } else {
        None
    };
    settings.insert(o, after_given(before, value))
}

/// The settings that a list of arguments makes of the settings before, or what is
/// wrong with the list.
pub open spec fn settings_after(
    args: Seq<Seq<char>>,
    settings: Map<ServerOption, Setting>,
) -> Result<Map<ServerOption, Setting>, Seq<char>>
    decreases args.len(),
{
    if args.len() == 0 {
        Ok(settings)
    } else if args[0] == "--config"@ {
        Err("--config must be handled before parsing"@)
    } else if args[0] == "--help"@ || args[0] == "-h"@ {
        Err(usage_text())
    } else {
        match option_named(args[0]) {
            None => Err("unknown argument: "@ + args[0] + "\n"@ + usage_text()),
            Some(o) => if o.kind() is Flag {
                settings_after(args.skip(1), give(settings, o, Given::On))
            } else if args.len() < 2 || args[1].len() == 0 {
                Err(o.name() + " requires a value"@)
            } else {
                match value_given(o, args[1]) {
                    Ok(v) => settings_after(args.skip(2), give(settings, o, v)),
                    Err(e) => Err(e),
                }
            },
        }
    }
}

/// Arguments are read from left to right: where the first part of a list is read
/// without an error, the rest is read on top of what the first part set.
pub proof fn arguments_are_read_in_order(
    a: Seq<Seq<char>>,
    b: Seq<Seq<char>>,
    settings: Map<ServerOption, Setting>,
)
    requires
        settings_after(a, settings) is Ok,
    ensures
        settings_after(a + b, settings) == settings_after(
            b,
            settings_after(a, settings)->Ok_0,
        ),
    decreases a.len(),
{
    if a.len() == 0 {
        assert(a + b =~= b);
    } else {
        let all = a + b;
        assert(all[0] == a[0]);
        let o = option_named(a[0]).unwrap();
        if o.kind() is Flag {
            assert(all.skip(1) =~= a.skip(1) + b);
            arguments_are_read_in_order(a.skip(1), b, give(settings, o, Given::On));
        } else {
            assert(all[1] == a[1]);
            assert(all.skip(2) =~= a.skip(2) + b);
            arguments_are_read_in_order(
                a.skip(2),
                b,
                give(settings, o, value_given(o, a[1])->Ok_0),
            );
        }
    }
}


} // verus!
