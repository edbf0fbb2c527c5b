//! The server's arguments: reading them from a command line and the checks that
//! they pass before the server starts.

use vstd::prelude::*;

use crate::model::{QueryReadPreference, ReplicationAckPolicy, ReplicationChannelKind};
use crate::options::{
    find_option, largest, peer_views, read_value, settings_after, usage, OptionKind, OptionValue,
    ProductionSecurityMode, ReplicaPeer, ServerOption, Setting,
};
use crate::settings::{
    as_nat_u64, flag_setting, number_setting, peers_setting, suits, text_setting, value_text,
    Settings,
};
use crate::text::{cat, same, views};

verus! {

/// What a server that was given no arguments has its options set to, where it runs
/// with `workers` workers.
pub open spec fn default_setting(workers: nat, o: ServerOption) -> Option<Setting> {
    match o {
        ServerOption::Bind => Some(Setting::Text("127.0.0.1:7687"@)),
        ServerOption::DataDir => Some(Setting::Text("data"@)),
        ServerOption::Shards => Some(Setting::Number(1)),
        ServerOption::Partitions => Some(Setting::Number(1)),
        ServerOption::ServerId => Some(Setting::Number(1)),
        ServerOption::Workers => Some(Setting::Number(workers)),
        ServerOption::QueueCapacity => Some(Setting::Number(1024)),
        ServerOption::PageSize => Some(Setting::Number(128)),
        ServerOption::ReadPreference => Some(Setting::ReadPreference(QueryReadPreference::Primary)),
        ServerOption::PrimaryServerId => Some(Setting::Number(1)),
        ServerOption::GossipTtlMs => Some(Setting::Number(30000)),
        ServerOption::GossipFanout => Some(Setting::Number(3)),
        ServerOption::ReplicationTransport => Some(Setting::Transport(ReplicationChannelKind::Tcp)),
        ServerOption::ReplicationAck => Some(Setting::Ack(ReplicationAckPolicy::All)),
        ServerOption::ReplicationConnectTimeoutMs => Some(Setting::Number(1000)),
        ServerOption::ReplicationRetryAttempts => Some(Setting::Number(1)),
        ServerOption::ReplicationRetryBackoffMs => Some(Setting::Number(10)),
        ServerOption::ReplicationMaxInFlightBatches => Some(Setting::Number(8)),
        ServerOption::SlowQueryThresholdMs => Some(Setting::Number(250)),
        ServerOption::TlsMode => Some(Setting::Security(ProductionSecurityMode::Disabled)),
        ServerOption::ReplicationTlsMode => Some(Setting::Security(ProductionSecurityMode::Disabled)),
        ServerOption::WebTlsMode => Some(Setting::Security(ProductionSecurityMode::Disabled)),
        _ => None,
    }
}

pub open spec fn default_settings(workers: nat) -> Map<ServerOption, Setting> {
    Map::new(
        |o: ServerOption| default_setting(workers, o) is Some,
        |o: ServerOption| default_setting(workers, o)->0,
    )
}

/// Whether every option that has a default is set.
pub open spec fn complete(settings: Map<ServerOption, Setting>) -> bool {
    forall|o: ServerOption|
        default_setting(0, o) is Some ==> #[trigger] settings.dom().contains(o)
}

/// What every option of the server is set to.
pub struct ServerArgs {
    settings: Settings,
}

impl ServerArgs {
    pub closed spec fn view(&self) -> Map<ServerOption, Setting> {
        self.settings@
    }

    /// Every option with a default is set, and each option to something that suits it.
    pub closed spec fn well_formed(&self) -> bool {
        self.settings.well_formed() && complete(self.settings@)
    }

    /// The arguments of a server that was given none.
    pub fn defaults(workers: usize) -> (r: Self)
        ensures
            r.well_formed(),
            r@ == default_settings(workers as nat),
    {
        let mut s = Settings::none();
        s.set(ServerOption::Bind, OptionValue::Text("127.0.0.1:7687".to_owned()));
        s.set(ServerOption::DataDir, OptionValue::Text("data".to_owned()));
        s.set(ServerOption::Shards, OptionValue::Number(1));
        s.set(ServerOption::Partitions, OptionValue::Number(1));
        s.set(ServerOption::ServerId, OptionValue::Number(1));
        s.set(ServerOption::Workers, OptionValue::Number(workers as u64));
        s.set(ServerOption::QueueCapacity, OptionValue::Number(1024));
        s.set(ServerOption::PageSize, OptionValue::Number(128));
        s.set(ServerOption::ReadPreference, OptionValue::ReadPreference(QueryReadPreference::Primary));
        s.set(ServerOption::PrimaryServerId, OptionValue::Number(1));
        s.set(ServerOption::GossipTtlMs, OptionValue::Number(30000));
        s.set(ServerOption::GossipFanout, OptionValue::Number(3));
        s.set(ServerOption::ReplicationTransport, OptionValue::Transport(ReplicationChannelKind::Tcp));
        s.set(ServerOption::ReplicationAck, OptionValue::Ack(ReplicationAckPolicy::All));
        s.set(ServerOption::ReplicationConnectTimeoutMs, OptionValue::Number(1000));
        s.set(ServerOption::ReplicationRetryAttempts, OptionValue::Number(1));
        s.set(ServerOption::ReplicationRetryBackoffMs, OptionValue::Number(10));
        s.set(ServerOption::ReplicationMaxInFlightBatches, OptionValue::Number(8));
        s.set(ServerOption::SlowQueryThresholdMs, OptionValue::Number(250));
        s.set(ServerOption::TlsMode, OptionValue::Security(ProductionSecurityMode::Disabled));
        s.set(ServerOption::ReplicationTlsMode, OptionValue::Security(ProductionSecurityMode::Disabled));
        s.set(ServerOption::WebTlsMode, OptionValue::Security(ProductionSecurityMode::Disabled));
        assert(s@ =~= default_settings(workers as nat));
        ServerArgs { settings: s }
    }
}

/// What an option is set to, or nothing where it was left unset.
pub open spec fn setting(m: Map<ServerOption, Setting>, o: ServerOption) -> Option<Setting> {
    if m.dom().contains(o) {
        Some(m[o])
    } else {
        None
    }
}

/// The number that an option is set to.
pub open spec fn number_of(m: Map<ServerOption, Setting>, o: ServerOption) -> Option<nat> {
    match setting(m, o) {
        Some(Setting::Number(n)) => Some(n),
        _ => None,
    }
}

/// The text that an option is set to.
pub open spec fn text_of(m: Map<ServerOption, Setting>, o: ServerOption) -> Option<Seq<char>> {
    match setting(m, o) {
        Some(Setting::Text(s)) => Some(s),
        _ => None,
    }
}

/// The peers that an option is set to.
pub open spec fn peers_of(m: Map<ServerOption, Setting>, o: ServerOption) -> Seq<(u64, Seq<char>)> {
    match setting(m, o) {
        Some(Setting::Peers(p)) => p,
        _ => Seq::<(u64, Seq<char>)>::empty(),
    }
}

impl ServerArgs {
    /// What an option is set to suits it.
    pub proof fn lemma_suits(&self, o: ServerOption)
        requires
            self.well_formed(),
        ensures
            setting(self@, o) matches Some(s) ==> suits(o.kind(), s),
    {
        self.settings.lemma_suits(o);
    }

    /// Whether a flag is set.
    pub fn flag(&self, o: ServerOption) -> (r: bool)
        requires
            self.well_formed(),
            o.kind() is Flag,
        ensures
            setting(self@, o) == flag_setting(r),
    {
        self.settings.flag(o)
    }

    /// The text that an option is set to.
    pub fn text(&self, o: ServerOption) -> (r: Option<String>)
        requires
            self.well_formed(),
            o.kind() is Text,
        ensures
            setting(self@, o) == text_setting(r),
    {
        self.settings.text(o)
    }

    /// The text that an option with a default is set to.
    pub fn required_text(&self, o: ServerOption) -> (r: String)
        requires
            self.well_formed(),
            o.kind() is Text,
            default_setting(0, o) is Some,
        ensures
            setting(self@, o) == Some(Setting::Text(r@)),
    {
        assert(self.settings@.dom().contains(o));
        match self.settings.text(o) {
            Some(s) => s,
            None => String::new(),
        }
    }

    /// The number that an option is set to.
    pub fn number(&self, o: ServerOption) -> (r: Option<u64>)
        requires
            self.well_formed(),
            o.kind() is U64 || o.kind() is Usize || o.kind() is U32 || o.kind() is U8,
        ensures
            setting(self@, o) == number_setting(as_nat_u64(r)),
            r matches Some(n) ==> n <= largest(o.kind()),
            default_setting(0, o) is Some ==> r is Some,
    {
        assert(default_setting(0, o) is Some ==> self.settings@.dom().contains(o));
        self.settings.number(o)
    }

    /// The peers that an option is set to.
    pub fn peers(&self, o: ServerOption) -> (r: Vec<ReplicaPeer>)
        requires
            self.well_formed(),
            o.kind() is Peers,
        ensures
            setting(self@, o) == peers_setting(r@),
    {
        self.settings.peers(o)
    }

    /// Where reads go.
    pub fn read_preference(&self) -> (r: QueryReadPreference)
        requires
            self.well_formed(),
        ensures
            setting(self@, ServerOption::ReadPreference) == Some(Setting::ReadPreference(r)),
    {
        assert(self.settings@.dom().contains(ServerOption::ReadPreference));
        match self.settings.read_preference(ServerOption::ReadPreference) {
            Some(p) => p,
            None => QueryReadPreference::Primary,
        }
    }

    /// The transport of the replication channel.
    pub fn replication_transport(&self) -> (r: ReplicationChannelKind)
        requires
            self.well_formed(),
        ensures
            setting(self@, ServerOption::ReplicationTransport) == Some(Setting::Transport(r)),
    {
        assert(self.settings@.dom().contains(ServerOption::ReplicationTransport));
        match self.settings.transport(ServerOption::ReplicationTransport) {
            Some(t) => t,
            None => ReplicationChannelKind::Tcp,
        }
    }

    /// When a replicated write counts as acknowledged.
    pub fn replication_ack_policy(&self) -> (r: ReplicationAckPolicy)
        requires
            self.well_formed(),
        ensures
            setting(self@, ServerOption::ReplicationAck) == Some(Setting::Ack(r)),
    {
        assert(self.settings@.dom().contains(ServerOption::ReplicationAck));
        match self.settings.ack(ServerOption::ReplicationAck) {
            Some(a) => a,
            None => ReplicationAckPolicy::All,
        }
    }

    /// The security mode that an option is set to.
    pub fn security(&self, o: ServerOption) -> (r: ProductionSecurityMode)
        requires
            self.well_formed(),
            o.kind() is Security,
        ensures
            setting(self@, o) == Some(Setting::Security(r)),
    {
        assert(self.settings@.dom().contains(o));
        match self.settings.security(o) {
            Some(m) => m,
            None => ProductionSecurityMode::Disabled,
        }
    }

    /// What an option that takes one value is set to, as it is written on the command
    /// line.
    pub fn shown(&self, o: ServerOption) -> (r: Option<String>)
        requires
            self.well_formed(),
            !(o.kind() is Flag),
            !(o.kind() is Peers),
        ensures
            match r {
                Some(s) => setting(self@, o) matches Some(v) && s@ == value_text(v),
                None => setting(self@, o) is None,
            },
    {
        self.settings.shown(o)
    }

    /// Whether an option is set at all.
    pub fn is_set(&self, o: ServerOption) -> (r: bool)
        requires
            self.well_formed(),
        ensures
            r == self@.dom().contains(o),
    {
        self.settings.is_set(o)
    }

    /// Whether an option is set to zero.
    fn is_zero(&self, o: ServerOption) -> (r: bool)
        requires
            self.well_formed(),
            o.kind() is U64 || o.kind() is Usize || o.kind() is U32 || o.kind() is U8,
        ensures
            r == (number_of(self@, o) == Some(0nat)),
    {
        match self.number(o) {
            Some(n) => n == 0,
            None => false,
        }
    }
}

/// The first option of a list that is set to zero, as a complaint.
pub open spec fn zero_problem(
    m: Map<ServerOption, Setting>,
    options: Seq<ServerOption>,
) -> Option<Seq<char>>
    decreases options.len(),
{
    if options.len() == 0 {
        None
    } else if number_of(m, options[0]) == Some(0nat) {
        Some(options[0].name() + " must be greater than zero"@)
    } else {
        zero_problem(m, options.skip(1))
    }
}

/// The first option of a list that is not set, as a complaint.
pub open spec fn missing_problem(
    m: Map<ServerOption, Setting>,
    options: Seq<ServerOption>,
    why: Seq<char>,
) -> Option<Seq<char>>
    decreases options.len(),
{
    if options.len() == 0 {
        None
    } else if !m.dom().contains(options[0]) {
        Some(options[0].name() + why)
    } else {
        missing_problem(m, options.skip(1), why)
    }
}

/// The options that may not be zero.
pub open spec fn positive_options() -> Seq<ServerOption> {
    seq![
        ServerOption::Shards,
        ServerOption::Partitions,
        ServerOption::Workers,
        ServerOption::QueueCapacity,
        ServerOption::PageSize,
        ServerOption::PrimaryServerId,
        ServerOption::ReplicationRetryAttempts,
        ServerOption::ReplicationConnectTimeoutMs,
        ServerOption::ReplicationMaxInFlightBatches,
        ServerOption::CatchUpIntervalMs,
        ServerOption::CatchUpBatchSize,
        ServerOption::SyncIndexCatalogIntervalMs,
        ServerOption::RecoverTransactionsIntervalMs,
        ServerOption::GossipIntervalMs,
        ServerOption::GossipTtlMs,
        ServerOption::GossipFanout,
        ServerOption::SlowQueryThresholdMs,
    ]
}

/// The options on limits and terms that may not be zero.
pub open spec fn positive_limits() -> Seq<ServerOption> {
    seq![
        ServerOption::BackupDrillMaxAgeHours,
        ServerOption::DataFormatVersion,
        ServerOption::RaftLeaseClockDriftBoundMs,
        ServerOption::RaftLeaseMessageDelayBoundMs,
        ServerOption::AuditRetentionDays,
        ServerOption::SecretRotationDays,
        ServerOption::TenantMaxConcurrentQueries,
        ServerOption::TenantMaxResultRows,
    ]
}

pub open spec fn is_required(m: Map<ServerOption, Setting>, o: ServerOption) -> bool {
    setting(m, o) == Some(Setting::Security(ProductionSecurityMode::Required))
}

/// What stands in the way of protecting the client listener.
pub open spec fn native_tls_problem(m: Map<ServerOption, Setting>) -> Option<Seq<char>> {
    let files = if is_required(m, ServerOption::TlsMode) {
        missing_problem(
            m,
            seq![ServerOption::NativeTlsCert, ServerOption::NativeTlsKey],
            " is required when --tls-mode required"@,
        )
    } else {
        None
    };
    if files is Some {
        files
    } else if m.dom().contains(ServerOption::NativeTlsRequireClientAuth) {
        missing_problem(
            m,
            seq![ServerOption::NativeTlsClientCa],
            " is required when native client auth is enabled"@,
        )
    } else {
        None
    }
}

/// What stands in the way of protecting the web listener.
pub open spec fn web_tls_problem(m: Map<ServerOption, Setting>) -> Option<Seq<char>> {
    let files = if is_required(m, ServerOption::WebTlsMode) {
        missing_problem(
            m,
            seq![ServerOption::WebTlsCert, ServerOption::WebTlsKey],
            " is required when --web-tls-mode required"@,
        )
    } else {
        None
    };
    if files is Some {
        files
    } else if m.dom().contains(ServerOption::WebTlsRequireClientAuth) {
        missing_problem(
            m,
            seq![ServerOption::WebTlsClientCa],
            " is required when web client auth is enabled"@,
        )
    } else {
        None
    }
}

/// What stands in the way of protecting replication.
pub open spec fn replication_tls_problem(m: Map<ServerOption, Setting>) -> Option<Seq<char>> {
    let files = if !is_required(m, ServerOption::ReplicationTlsMode) {
        None
    } else if setting(m, ServerOption::ReplicationTransport) != Some(
        Setting::Transport(ReplicationChannelKind::Tcp),
    ) {
        Some("--replication-tls-mode required is only supported with tcp transport"@)
    } else {
        missing_problem(
            m,
            seq![
                ServerOption::ReplicationTlsCert,
                ServerOption::ReplicationTlsKey,
                ServerOption::ReplicationTlsCa,
                ServerOption::ReplicationTlsServerName,
            ],
            " is required when --replication-tls-mode required"@,
        )
    };
    let auth = if m.dom().contains(ServerOption::ReplicationTlsRequireClientAuth) {
        missing_problem(
            m,
            seq![ServerOption::ReplicationTlsClientCa],
            " is required when replication client auth is enabled"@,
        )
    } else {
        None
    };
    if files is Some {
        files
    } else if auth is Some {
        auth
    } else if m.dom().contains(ServerOption::ReplicationTlsClientCert) != m.dom().contains(
        ServerOption::ReplicationTlsClientKey,
    ) {
        Some(
            "--replication-tls-client-cert and --replication-tls-client-key must be provided together"@,
        )
    } else {
        None
    }
}

/// Whether the protocol versions are given as a window that is empty.
pub open spec fn empty_version_window(m: Map<ServerOption, Setting>) -> bool {
    match (
        number_of(m, ServerOption::MinNativeProtocolVersion),
        number_of(m, ServerOption::MaxNativeProtocolVersion),
    ) {
        (Some(min), Some(max)) => min > max,
        _ => false,
    }
}

/// Whether a replica peer has the id of the primary.
pub open spec fn replica_is_primary(m: Map<ServerOption, Setting>) -> bool {
    exists|i: int|
        0 <= i < peers_of(m, ServerOption::ReplicaPeer).len() && Some(
            (#[trigger] peers_of(m, ServerOption::ReplicaPeer)[i]).0 as nat,
        ) == number_of(m, ServerOption::PrimaryServerId)
}

/// The first thing for which a server could not run with the settings.
pub open spec fn runtime_problem(m: Map<ServerOption, Setting>) -> Option<Seq<char>> {
    if zero_problem(m, positive_options()) is Some {
        zero_problem(m, positive_options())
    } else if native_tls_problem(m) is Some {
        native_tls_problem(m)
    } else if web_tls_problem(m) is Some {
        web_tls_problem(m)
    } else if replication_tls_problem(m) is Some {
        replication_tls_problem(m)
    } else if empty_version_window(m) {
        Some("--min-native-protocol-version must be <= --max-native-protocol-version"@)
    } else if zero_problem(m, positive_limits()) is Some {
        zero_problem(m, positive_limits())
    } else if replica_is_primary(m) {
        Some("--replica-peer cannot reference the primary server id"@)
    } else {
        None
    }
}

/// Whether a complaint says what is wrong.
pub open spec fn complains(r: Option<String>, problem: Option<Seq<char>>) -> bool {
    match r {
        Some(s) => problem == Some(s@),
        None => problem is None,
    }
}

impl ServerArgs {
    fn first_zero(&self, options: &[ServerOption]) -> (r: Option<String>)
        requires
            self.well_formed(),
            forall|i: int|
                0 <= i < options@.len() ==> (#[trigger] options@[i]).kind() is U64
                    || options@[i].kind() is Usize || options@[i].kind() is U32
                    || options@[i].kind() is U8,
        ensures
            complains(r, zero_problem(self@, options@)),
    {
        let mut i: usize = 0;
        assert(options@.skip(0) =~= options@);
        while i < options.len()
            invariant
                self.well_formed(),
                0 <= i <= options@.len(),
                forall|i: int|
                    0 <= i < options@.len() ==> (#[trigger] options@[i]).kind() is U64
                        || options@[i].kind() is Usize || options@[i].kind() is U32
                        || options@[i].kind() is U8,
                zero_problem(self@, options@) == zero_problem(self@, options@.skip(i as int)),
            decreases options@.len() - i,
        {
            let o = options[i];
            assert(options@.skip(i as int)[0] == o);
            assert(options@.skip(i as int).skip(1) =~= options@.skip(i + 1));
            if self.is_zero(o) {
                return Some(cat(o.text(), " must be greater than zero"));
            }
            i = i + 1;
        }
        None
    }

    fn first_missing(&self, options: &[ServerOption], why: &str) -> (r: Option<String>)
        requires
            self.well_formed(),
        ensures
            complains(r, missing_problem(self@, options@, why@)),
    {
        let mut i: usize = 0;
        assert(options@.skip(0) =~= options@);
        while i < options.len()
            invariant
                self.well_formed(),
                0 <= i <= options@.len(),
                missing_problem(self@, options@, why@) == missing_problem(
                    self@,
                    options@.skip(i as int),
                    why@,
                ),
            decreases options@.len() - i,
        {
            let o = options[i];
            assert(options@.skip(i as int)[0] == o);
            assert(options@.skip(i as int).skip(1) =~= options@.skip(i + 1));
            if !self.is_set(o) {
                return Some(cat(o.text(), why));
            }
            i = i + 1;
        }
        None
    }

    fn requires_mode(&self, o: ServerOption) -> (r: bool)
        requires
            self.well_formed(),
            o.kind() is Security,
        ensures
            r == is_required(self@, o),
    {
        self.security(o) == ProductionSecurityMode::Required
    }

    fn check_positive_options(&self) -> (r: Option<String>)
        requires
            self.well_formed(),
        ensures
            complains(r, zero_problem(self@, positive_options())),
    {
        let options = [
            ServerOption::Shards,
            ServerOption::Partitions,
            ServerOption::Workers,
            ServerOption::QueueCapacity,
            ServerOption::PageSize,
            ServerOption::PrimaryServerId,
            ServerOption::ReplicationRetryAttempts,
            ServerOption::ReplicationConnectTimeoutMs,
            ServerOption::ReplicationMaxInFlightBatches,
            ServerOption::CatchUpIntervalMs,
            ServerOption::CatchUpBatchSize,
            ServerOption::SyncIndexCatalogIntervalMs,
            ServerOption::RecoverTransactionsIntervalMs,
            ServerOption::GossipIntervalMs,
            ServerOption::GossipTtlMs,
            ServerOption::GossipFanout,
            ServerOption::SlowQueryThresholdMs,
        ];
        assert(options@ =~= positive_options());
        self.first_zero(&options)
    }

    fn check_positive_limits(&self) -> (r: Option<String>)
        requires
            self.well_formed(),
        ensures
            complains(r, zero_problem(self@, positive_limits())),
    {
        let options = [
            ServerOption::BackupDrillMaxAgeHours,
            ServerOption::DataFormatVersion,
            ServerOption::RaftLeaseClockDriftBoundMs,
            ServerOption::RaftLeaseMessageDelayBoundMs,
            ServerOption::AuditRetentionDays,
            ServerOption::SecretRotationDays,
            ServerOption::TenantMaxConcurrentQueries,
            ServerOption::TenantMaxResultRows,
        ];
        assert(options@ =~= positive_limits());
        self.first_zero(&options)
    }

    fn check_native_tls(&self) -> (r: Option<String>)
        requires
            self.well_formed(),
        ensures
            complains(r, native_tls_problem(self@)),
    {
        if self.requires_mode(ServerOption::TlsMode) {
            let files = [ServerOption::NativeTlsCert, ServerOption::NativeTlsKey];
            assert(files@ =~= seq![ServerOption::NativeTlsCert, ServerOption::NativeTlsKey]);
            let missing = self.first_missing(&files, " is required when --tls-mode required");
            if missing.is_some() {
                return missing;
            }
        }
        if self.is_set(ServerOption::NativeTlsRequireClientAuth) {
            let files = [ServerOption::NativeTlsClientCa];
            assert(files@ =~= seq![ServerOption::NativeTlsClientCa]);
            self.first_missing(&files, " is required when native client auth is enabled")
        } else {
            None
        }
    }

    fn check_web_tls(&self) -> (r: Option<String>)
        requires
            self.well_formed(),
        ensures
            complains(r, web_tls_problem(self@)),
    {
        if self.requires_mode(ServerOption::WebTlsMode) {
            let files = [ServerOption::WebTlsCert, ServerOption::WebTlsKey];
            assert(files@ =~= seq![ServerOption::WebTlsCert, ServerOption::WebTlsKey]);
            let missing = self.first_missing(&files, " is required when --web-tls-mode required");
            if missing.is_some() {
                return missing;
            }
        }
        if self.is_set(ServerOption::WebTlsRequireClientAuth) {
            let files = [ServerOption::WebTlsClientCa];
            assert(files@ =~= seq![ServerOption::WebTlsClientCa]);
            self.first_missing(&files, " is required when web client auth is enabled")
        } else {
            None
        }
    }

    fn check_replication_tls(&self) -> (r: Option<String>)
        requires
            self.well_formed(),
        ensures
            complains(r, replication_tls_problem(self@)),
    {
        if self.requires_mode(ServerOption::ReplicationTlsMode) {
            if self.replication_transport() != ReplicationChannelKind::Tcp {
                return Some(
                    "--replication-tls-mode required is only supported with tcp transport".to_owned(),
                );
            }
            let files = [
                ServerOption::ReplicationTlsCert,
                ServerOption::ReplicationTlsKey,
                ServerOption::ReplicationTlsCa,
                ServerOption::ReplicationTlsServerName,
            ];
            assert(files@ =~= seq![
                ServerOption::ReplicationTlsCert,
                ServerOption::ReplicationTlsKey,
                ServerOption::ReplicationTlsCa,
                ServerOption::ReplicationTlsServerName,
            ]);
            let missing = self.first_missing(
                &files,
                " is required when --replication-tls-mode required",
            );
            if missing.is_some() {
                return missing;
            }
        }
        if self.is_set(ServerOption::ReplicationTlsRequireClientAuth) {
            let files = [ServerOption::ReplicationTlsClientCa];
            assert(files@ =~= seq![ServerOption::ReplicationTlsClientCa]);
            let missing = self.first_missing(
                &files,
                " is required when replication client auth is enabled",
            );
            if missing.is_some() {
                return missing;
            }
        }
        let cert = self.is_set(ServerOption::ReplicationTlsClientCert);
        let key = self.is_set(ServerOption::ReplicationTlsClientKey);
        if cert != key {
            Some(
                "--replication-tls-client-cert and --replication-tls-client-key must be provided together".to_owned(),
            )
        } else {
            None
        }
    }

    fn replica_peer_is_primary(&self) -> (r: bool)
        requires
            self.well_formed(),
        ensures
            r == replica_is_primary(self@),
    {
        let peers = self.peers(ServerOption::ReplicaPeer);
        let primary = self.number(ServerOption::PrimaryServerId).unwrap();
        let ghost all = peers_of(self@, ServerOption::ReplicaPeer);
        assert(all =~= peer_views(peers@));
        let mut i: usize = 0;
        while i < peers.len()
            invariant
                0 <= i <= peers@.len(),
                all == peers_of(self@, ServerOption::ReplicaPeer),
                all == peer_views(peers@),
                number_of(self@, ServerOption::PrimaryServerId) == Some(primary as nat),
                forall|j: int| 0 <= j < i ==> (#[trigger] all[j]).0 != primary,
            decreases peers@.len() - i,
        {
            assert(all[i as int] == peers@[i as int]@);
            if peers[i].server_id == primary {
                return true;
            }
            i = i + 1;
        }
        false
    }

    /// Checks that a server could run with the arguments.
    pub fn validate_runtime(&self) -> (r: Result<(), String>)
        requires
            self.well_formed(),
        ensures
            match r {
                Ok(()) => runtime_problem(self@) is None,
                Err(e) => runtime_problem(self@) == Some(e@),
            },
    {
        if let Some(e) = self.check_positive_options() {
            return Err(e);
        }
        if let Some(e) = self.check_native_tls() {
            return Err(e);
        }
        if let Some(e) = self.check_web_tls() {
            return Err(e);
        }
        if let Some(e) = self.check_replication_tls() {
            return Err(e);
        }
        let min = self.number(ServerOption::MinNativeProtocolVersion);
        let max = self.number(ServerOption::MaxNativeProtocolVersion);
        if min.is_some() && max.is_some() && min.unwrap() > max.unwrap() {
            return Err(
                "--min-native-protocol-version must be <= --max-native-protocol-version".to_owned(),
            );
        }
        if let Some(e) = self.check_positive_limits() {
            return Err(e);
        }
        if self.replica_peer_is_primary() {
            return Err("--replica-peer cannot reference the primary server id".to_owned());
        }
        Ok(())
    }
}

/// How many of the three actions on the configuration are asked for.
pub open spec fn config_actions(m: Map<ServerOption, Setting>) -> int {
    (if m.dom().contains(ServerOption::CheckConfig) { 1int } else { 0 }) + (if m.dom().contains(
        ServerOption::ProductionCheck,
    ) { 1int } else { 0 }) + (if m.dom().contains(ServerOption::DumpConfig) { 1int } else { 0 })
}

/// The settings that a server is started with, or what is wrong with its arguments.
pub open spec fn arguments_outcome(args: Seq<Seq<char>>, workers: nat) -> Result<
    Map<ServerOption, Setting>,
    Seq<char>,
> {
    match settings_after(args, default_settings(workers)) {
        Err(e) => Err(e),
        Ok(m) => match runtime_problem(m) {
            Some(e) => Err(e),
            None => if config_actions(m) > 1 {
                Err("--check-config, --production-check, and --dump-config cannot be combined"@)
            } else {
                Ok(m)
            },
        },
    }
}

impl ServerArgs {
    /// Reads arguments in which no configuration file is named. A server that is told
    /// nothing else runs with `workers` workers.
    pub fn parse_expanded(args: &[String], workers: usize) -> (r: Result<Self, String>)
        ensures
            match r {
                Ok(a) => a.well_formed() && arguments_outcome(views(args@), workers as nat) == Ok::<
                    Map<ServerOption, Setting>,
                    Seq<char>,
                >(a@),
                Err(e) => arguments_outcome(views(args@), workers as nat) == Err::<
                    Map<ServerOption, Setting>,
                    Seq<char>,
                >(e@),
            },
    {
        let mut parsed = ServerArgs::defaults(workers);
        let ghost all = views(args@);
        let ghost start = default_settings(workers as nat);
        let mut i: usize = 0;
        assert(all.skip(0) =~= all);
        while i < args.len()
            invariant
                0 <= i <= args@.len(),
                all == views(args@),
                parsed.well_formed(),
                start == default_settings(workers as nat),
                settings_after(all, start) == settings_after(all.skip(i as int), parsed@),
            decreases args@.len() - i,
        {
            let arg = args[i].as_str();
            let ghost rest = all.skip(i as int);
            assert(rest[0] == arg@);
            if same(arg, "--config") {
                return Err("--config must be handled before parsing".to_owned());
            }
            if same(arg, "--help") || same(arg, "-h") {
                return Err(usage());
            }
            let o = match find_option(arg) {
                Some(o) => o,
                None => {
                    let mut e = "unknown argument: ".to_owned();
                    e.append(arg);
                    e.append("\n");
                    e.append(usage().as_str());
                    return Err(e);
                },
            };
            if o.takes() == OptionKind::Flag {
                parsed.settings.set_flag(o);
                assert(rest.skip(1) =~= all.skip(i + 1));
                i = i + 1;
            } else {
                if args.len() - i < 2 || args[i + 1].as_str().is_empty() {
                    assert(rest.len() >= 2 ==> rest[1] == args@[i + 1]@);
                    return Err(cat(o.text(), " requires a value"));
                }
                assert(rest[1] == args@[i + 1]@);
                match read_value(o, args[i + 1].as_str()) {
                    Ok(v) => {
                        parsed.settings.set(o, v);
                    },
                    Err(e) => return Err(e),
                }
                assert(rest.skip(2) =~= all.skip(i + 2));
                i = i + 2;
            }
        }
        assert(all.skip(i as int) =~= Seq::<Seq<char>>::empty());
        match parsed.validate_runtime() {
            Err(e) => return Err(e),
            Ok(()) => {},
        }
        let check = parsed.is_set(ServerOption::CheckConfig);
        let production = parsed.is_set(ServerOption::ProductionCheck);
        let dump = parsed.is_set(ServerOption::DumpConfig);
        if check && production || check && dump || production && dump {
            return Err(
                "--check-config, --production-check, and --dump-config cannot be combined".to_owned(),
            );
        }
        Ok(parsed)
    }
}


} // verus!
