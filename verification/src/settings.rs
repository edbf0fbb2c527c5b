//! What each option is set to, held in a table with one place for every option.

use vstd::prelude::*;

use crate::model::{QueryReadPreference, ReplicationAckPolicy, ReplicationChannelKind};
use crate::options::{
    ack_policy_text, fits, format_ack_policy, format_production_security_mode,
    format_read_preference, format_replication_transport, give, largest, peer_views,
    read_preference_text, security_mode_text, transport_text, Given, OptionKind, OptionValue,
    ProductionSecurityMode, ReplicaPeer, ServerOption, Setting,
};
use crate::text::{dec, show};

verus! {

/// How many options there are.
pub const OPTION_COUNT: usize = 82;

/// The place of an option in the table.
pub open spec fn place(o: ServerOption) -> int {
    match o {
        ServerOption::Bind => 0,
        ServerOption::DataDir => 1,
        ServerOption::Shards => 2,
        ServerOption::Partitions => 3,
        ServerOption::ServerId => 4,
        ServerOption::Workers => 5,
        ServerOption::QueueCapacity => 6,
        ServerOption::PageSize => 7,
        ServerOption::ReadPreference => 8,
        ServerOption::PrimaryServerId => 9,
        ServerOption::RoutingTable => 10,
        ServerOption::ReplicaPeer => 11,
        ServerOption::Peer => 12,
        ServerOption::QueryPeer => 13,
        ServerOption::GossipSeedPeer => 14,
        ServerOption::GossipAdvertiseQuery => 15,
        ServerOption::GossipAdvertiseReplication => 16,
        ServerOption::GossipIntervalMs => 17,
        ServerOption::GossipTtlMs => 18,
        ServerOption::GossipFanout => 19,
        ServerOption::GossipAuthToken => 20,
        ServerOption::GossipAutoNegotiateReplication => 21,
        ServerOption::ReplicationBind => 22,
        ServerOption::ReplicationTransport => 23,
        ServerOption::ReplicationAck => 24,
        ServerOption::ReplicationConnectTimeoutMs => 25,
        ServerOption::ReplicationRetryAttempts => 26,
        ServerOption::ReplicationRetryBackoffMs => 27,
        ServerOption::ReplicationMaxInFlightBatches => 28,
        ServerOption::CatchUpOnStartup => 29,
        ServerOption::CatchUpIntervalMs => 30,
        ServerOption::CatchUpBatchSize => 31,
        ServerOption::SyncIndexCatalogOnStartup => 32,
        ServerOption::SyncIndexCatalogIntervalMs => 33,
        ServerOption::RecoverTransactionsOnStartup => 34,
        ServerOption::RecoverTransactionsIntervalMs => 35,
        ServerOption::WebBind => 36,
        ServerOption::WebAuthToken => 37,
        ServerOption::SlowQueryThresholdMs => 38,
        ServerOption::TlsMode => 39,
        ServerOption::ReplicationTlsMode => 40,
        ServerOption::WebTlsMode => 41,
        ServerOption::NativeTlsCert => 42,
        ServerOption::NativeTlsKey => 43,
        ServerOption::NativeTlsClientCa => 44,
        ServerOption::NativeTlsRequireClientAuth => 45,
        ServerOption::WebTlsCert => 46,
        ServerOption::WebTlsKey => 47,
        ServerOption::WebTlsClientCa => 48,
        ServerOption::WebTlsRequireClientAuth => 49,
        ServerOption::ReplicationTlsCert => 50,
        ServerOption::ReplicationTlsKey => 51,
        ServerOption::ReplicationTlsClientCa => 52,
        ServerOption::ReplicationTlsRequireClientAuth => 53,
        ServerOption::ReplicationTlsCa => 54,
        ServerOption::ReplicationTlsServerName => 55,
        ServerOption::ReplicationTlsClientCert => 56,
        ServerOption::ReplicationTlsClientKey => 57,
        ServerOption::MinNativeProtocolVersion => 58,
        ServerOption::MaxNativeProtocolVersion => 59,
        ServerOption::BackupDrillMaxAgeHours => 60,
        ServerOption::WalArchiveDir => 61,
        ServerOption::RestoreDrillManifest => 62,
        ServerOption::AuditRetentionDays => 63,
        ServerOption::SecretRotationDays => 64,
        ServerOption::TenantMaxConcurrentQueries => 65,
        ServerOption::TenantMaxResultRows => 66,
        ServerOption::DataFormatVersion => 67,
        ServerOption::UpgradeManifest => 68,
        ServerOption::RaftLeaseClockDriftBoundMs => 69,
        ServerOption::RaftLeaseMessageDelayBoundMs => 70,
        ServerOption::ObservabilityAlerts => 71,
        ServerOption::RepairCheckOnStartup => 72,
        ServerOption::QueryRegressionCorpus => 73,
        ServerOption::ChaosGateRequired => 74,
        ServerOption::Runbook => 75,
        ServerOption::SystemdUnit => 76,
        ServerOption::Logrotate => 77,
        ServerOption::Daemonize => 78,
        ServerOption::CheckConfig => 79,
        ServerOption::ProductionCheck => 80,
        ServerOption::DumpConfig => 81,
    }
}

/// The option at a place of the table.
pub open spec fn option_at(i: int) -> ServerOption {
    if i == 0 {
        ServerOption::Bind
    } else if i == 1 {
        ServerOption::DataDir
    } else if i == 2 {
        ServerOption::Shards
    } else if i == 3 {
        ServerOption::Partitions
    } else if i == 4 {
        ServerOption::ServerId
    } else if i == 5 {
        ServerOption::Workers
    } else if i == 6 {
        ServerOption::QueueCapacity
    } else if i == 7 {
        ServerOption::PageSize
    } else if i == 8 {
        ServerOption::ReadPreference
    } else if i == 9 {
        ServerOption::PrimaryServerId
    } else if i == 10 {
        ServerOption::RoutingTable
    } else if i == 11 {
        ServerOption::ReplicaPeer
    } else if i == 12 {
        ServerOption::Peer
    } else if i == 13 {
        ServerOption::QueryPeer
    } else if i == 14 {
        ServerOption::GossipSeedPeer
    } else if i == 15 {
        ServerOption::GossipAdvertiseQuery
    } else if i == 16 {
        ServerOption::GossipAdvertiseReplication
    } else if i == 17 {
        ServerOption::GossipIntervalMs
    } else if i == 18 {
        ServerOption::GossipTtlMs
    } else if i == 19 {
        ServerOption::GossipFanout
    } else if i == 20 {
        ServerOption::GossipAuthToken
    } else if i == 21 {
        ServerOption::GossipAutoNegotiateReplication
    } else if i == 22 {
        ServerOption::ReplicationBind
    } else if i == 23 {
        ServerOption::ReplicationTransport
    } else if i == 24 {
        ServerOption::ReplicationAck
    } else if i == 25 {
        ServerOption::ReplicationConnectTimeoutMs
    } else if i == 26 {
        ServerOption::ReplicationRetryAttempts
    } else if i == 27 {
        ServerOption::ReplicationRetryBackoffMs
    } else if i == 28 {
        ServerOption::ReplicationMaxInFlightBatches
    } else if i == 29 {
        ServerOption::CatchUpOnStartup
    } else if i == 30 {
        ServerOption::CatchUpIntervalMs
    } else if i == 31 {
        ServerOption::CatchUpBatchSize
    } else if i == 32 {
        ServerOption::SyncIndexCatalogOnStartup
    } else if i == 33 {
        ServerOption::SyncIndexCatalogIntervalMs
    } else if i == 34 {
        ServerOption::RecoverTransactionsOnStartup
    } else if i == 35 {
        ServerOption::RecoverTransactionsIntervalMs
    } else if i == 36 {
        ServerOption::WebBind
    } else if i == 37 {
        ServerOption::WebAuthToken
    } else if i == 38 {
        ServerOption::SlowQueryThresholdMs
    } else if i == 39 {
        ServerOption::TlsMode
    } else if i == 40 {
        ServerOption::ReplicationTlsMode
    } else if i == 41 {
        ServerOption::WebTlsMode
    } else if i == 42 {
        ServerOption::NativeTlsCert
    } else if i == 43 {
        ServerOption::NativeTlsKey
    } else if i == 44 {
        ServerOption::NativeTlsClientCa
    } else if i == 45 {
        ServerOption::NativeTlsRequireClientAuth
    } else if i == 46 {
        ServerOption::WebTlsCert
    } else if i == 47 {
        ServerOption::WebTlsKey
    } else if i == 48 {
        ServerOption::WebTlsClientCa
    } else if i == 49 {
        ServerOption::WebTlsRequireClientAuth
    } else if i == 50 {
        ServerOption::ReplicationTlsCert
    } else if i == 51 {
        ServerOption::ReplicationTlsKey
    } else if i == 52 {
        ServerOption::ReplicationTlsClientCa
    } else if i == 53 {
        ServerOption::ReplicationTlsRequireClientAuth
    } else if i == 54 {
        ServerOption::ReplicationTlsCa
    } else if i == 55 {
        ServerOption::ReplicationTlsServerName
    } else if i == 56 {
        ServerOption::ReplicationTlsClientCert
    } else if i == 57 {
        ServerOption::ReplicationTlsClientKey
    } else if i == 58 {
        ServerOption::MinNativeProtocolVersion
    } else if i == 59 {
        ServerOption::MaxNativeProtocolVersion
    } else if i == 60 {
        ServerOption::BackupDrillMaxAgeHours
    } else if i == 61 {
        ServerOption::WalArchiveDir
    } else if i == 62 {
        ServerOption::RestoreDrillManifest
    } else if i == 63 {
        ServerOption::AuditRetentionDays
    } else if i == 64 {
        ServerOption::SecretRotationDays
    } else if i == 65 {
        ServerOption::TenantMaxConcurrentQueries
    } else if i == 66 {
        ServerOption::TenantMaxResultRows
    } else if i == 67 {
        ServerOption::DataFormatVersion
    } else if i == 68 {
        ServerOption::UpgradeManifest
    } else if i == 69 {
        ServerOption::RaftLeaseClockDriftBoundMs
    } else if i == 70 {
        ServerOption::RaftLeaseMessageDelayBoundMs
    } else if i == 71 {
        ServerOption::ObservabilityAlerts
    } else if i == 72 {
        ServerOption::RepairCheckOnStartup
    } else if i == 73 {
        ServerOption::QueryRegressionCorpus
    } else if i == 74 {
        ServerOption::ChaosGateRequired
    } else if i == 75 {
        ServerOption::Runbook
    } else if i == 76 {
        ServerOption::SystemdUnit
    } else if i == 77 {
        ServerOption::Logrotate
    } else if i == 78 {
        ServerOption::Daemonize
    } else if i == 79 {
        ServerOption::CheckConfig
    } else if i == 80 {
        ServerOption::ProductionCheck
    } else {
        ServerOption::DumpConfig
    }
}

proof fn lemma_place(o: ServerOption)
    ensures
        0 <= place(o) < OPTION_COUNT,
        option_at(place(o)) == o,
{
}

fn place_of(o: ServerOption) -> (i: usize)
    ensures
        i == place(o),
        i < OPTION_COUNT,
{
    match o {
        ServerOption::Bind => 0,
        ServerOption::DataDir => 1,
        ServerOption::Shards => 2,
        ServerOption::Partitions => 3,
        ServerOption::ServerId => 4,
        ServerOption::Workers => 5,
        ServerOption::QueueCapacity => 6,
        ServerOption::PageSize => 7,
        ServerOption::ReadPreference => 8,
        ServerOption::PrimaryServerId => 9,
        ServerOption::RoutingTable => 10,
        ServerOption::ReplicaPeer => 11,
        ServerOption::Peer => 12,
        ServerOption::QueryPeer => 13,
        ServerOption::GossipSeedPeer => 14,
        ServerOption::GossipAdvertiseQuery => 15,
        ServerOption::GossipAdvertiseReplication => 16,
        ServerOption::GossipIntervalMs => 17,
        ServerOption::GossipTtlMs => 18,
        ServerOption::GossipFanout => 19,
        ServerOption::GossipAuthToken => 20,
        ServerOption::GossipAutoNegotiateReplication => 21,
        ServerOption::ReplicationBind => 22,
        ServerOption::ReplicationTransport => 23,
        ServerOption::ReplicationAck => 24,
        ServerOption::ReplicationConnectTimeoutMs => 25,
        ServerOption::ReplicationRetryAttempts => 26,
        ServerOption::ReplicationRetryBackoffMs => 27,
        ServerOption::ReplicationMaxInFlightBatches => 28,
        ServerOption::CatchUpOnStartup => 29,
        ServerOption::CatchUpIntervalMs => 30,
        ServerOption::CatchUpBatchSize => 31,
        ServerOption::SyncIndexCatalogOnStartup => 32,
        ServerOption::SyncIndexCatalogIntervalMs => 33,
        ServerOption::RecoverTransactionsOnStartup => 34,
        ServerOption::RecoverTransactionsIntervalMs => 35,
        ServerOption::WebBind => 36,
        ServerOption::WebAuthToken => 37,
        ServerOption::SlowQueryThresholdMs => 38,
        ServerOption::TlsMode => 39,
        ServerOption::ReplicationTlsMode => 40,
        ServerOption::WebTlsMode => 41,
        ServerOption::NativeTlsCert => 42,
        ServerOption::NativeTlsKey => 43,
        ServerOption::NativeTlsClientCa => 44,
        ServerOption::NativeTlsRequireClientAuth => 45,
        ServerOption::WebTlsCert => 46,
        ServerOption::WebTlsKey => 47,
        ServerOption::WebTlsClientCa => 48,
        ServerOption::WebTlsRequireClientAuth => 49,
        ServerOption::ReplicationTlsCert => 50,
        ServerOption::ReplicationTlsKey => 51,
        ServerOption::ReplicationTlsClientCa => 52,
        ServerOption::ReplicationTlsRequireClientAuth => 53,
        ServerOption::ReplicationTlsCa => 54,
        ServerOption::ReplicationTlsServerName => 55,
        ServerOption::ReplicationTlsClientCert => 56,
        ServerOption::ReplicationTlsClientKey => 57,
        ServerOption::MinNativeProtocolVersion => 58,
        ServerOption::MaxNativeProtocolVersion => 59,
        ServerOption::BackupDrillMaxAgeHours => 60,
        ServerOption::WalArchiveDir => 61,
        ServerOption::RestoreDrillManifest => 62,
        ServerOption::AuditRetentionDays => 63,
        ServerOption::SecretRotationDays => 64,
        ServerOption::TenantMaxConcurrentQueries => 65,
        ServerOption::TenantMaxResultRows => 66,
        ServerOption::DataFormatVersion => 67,
        ServerOption::UpgradeManifest => 68,
        ServerOption::RaftLeaseClockDriftBoundMs => 69,
        ServerOption::RaftLeaseMessageDelayBoundMs => 70,
        ServerOption::ObservabilityAlerts => 71,
        ServerOption::RepairCheckOnStartup => 72,
        ServerOption::QueryRegressionCorpus => 73,
        ServerOption::ChaosGateRequired => 74,
        ServerOption::Runbook => 75,
        ServerOption::SystemdUnit => 76,
        ServerOption::Logrotate => 77,
        ServerOption::Daemonize => 78,
        ServerOption::CheckConfig => 79,
        ServerOption::ProductionCheck => 80,
        ServerOption::DumpConfig => 81,
    }
}

/// What one option is set to.
pub enum SettingValue {
    Unset,
    On,
    Text(String),
    Number(u64),
    Peers(Vec<ReplicaPeer>),
    ReadPreference(QueryReadPreference),
    Transport(ReplicationChannelKind),
    Ack(ReplicationAckPolicy),
    Security(ProductionSecurityMode),
}

impl SettingValue {
    pub open spec fn view(&self) -> Option<Setting> {
        match self {
            SettingValue::Unset => None,
            SettingValue::On => Some(Setting::On),
            SettingValue::Text(s) => Some(Setting::Text(s@)),
            SettingValue::Number(n) => Some(Setting::Number(*n as nat)),
            SettingValue::Peers(p) => Some(Setting::Peers(peer_views(p@))),
            SettingValue::ReadPreference(p) => Some(Setting::ReadPreference(*p)),
            SettingValue::Transport(t) => Some(Setting::Transport(*t)),
            SettingValue::Ack(a) => Some(Setting::Ack(*a)),
            SettingValue::Security(m) => Some(Setting::Security(*m)),
        }
    }
}

/// A setting as it is written on the command line.
pub open spec fn value_text(setting: Setting) -> Seq<char> {
    match setting {
        Setting::Text(s) => s,
        Setting::Number(n) => dec(n),
        Setting::ReadPreference(p) => read_preference_text(p),
        Setting::Transport(t) => transport_text(t),
        Setting::Ack(a) => ack_policy_text(a),
        Setting::Security(m) => security_mode_text(m),
        _ => Seq::<char>::empty(),
    }
}

/// Whether an option of the kind can be set to that.
pub open spec fn suits(kind: OptionKind, setting: Setting) -> bool {
    match kind {
        OptionKind::Flag => setting is On,
        OptionKind::Text => setting is Text,
        OptionKind::Peers => setting matches Setting::Peers(p) && p.len() > 0,
        OptionKind::ReadPreference => setting is ReadPreference,
        OptionKind::Transport => setting is Transport,
        OptionKind::Ack => setting is Ack,
        OptionKind::Security => setting is Security,
        _ => setting matches Setting::Number(n) && n <= largest(kind),
    }
}

pub open spec fn text_setting(s: Option<String>) -> Option<Setting> {
    match s {
        Some(t) => Some(Setting::Text(t@)),
        None => None,
    }
}

pub open spec fn number_setting(n: Option<nat>) -> Option<Setting> {
    match n {
        Some(k) => Some(Setting::Number(k)),
        None => None,
    }
}

pub open spec fn flag_setting(on: bool) -> Option<Setting> {
    if on {
        Some(Setting::On)
    } else {
        None
    }
}

pub open spec fn peers_setting(peers: Seq<ReplicaPeer>) -> Option<Setting> {
    if peers.len() > 0 {
        Some(Setting::Peers(peer_views(peers)))
    } else {
        None
    }
}

pub open spec fn as_nat_u64(n: Option<u64>) -> Option<nat> {
    match n {
        Some(k) => Some(k as nat),
        None => None,
    }
}

pub open spec fn as_nat_usize(n: Option<usize>) -> Option<nat> {
    match n {
        Some(k) => Some(k as nat),
        None => None,
    }
}

pub open spec fn as_nat_u32(n: Option<u32>) -> Option<nat> {
    match n {
        Some(k) => Some(k as nat),
        None => None,
    }
}

pub open spec fn as_nat_u8(n: Option<u8>) -> Option<nat> {
    match n {
        Some(k) => Some(k as nat),
        None => None,
    }
}

/// The settings of every option.
pub struct Settings {
    values: Vec<SettingValue>,
}

impl Settings {
    /// What the option is set to.
    pub closed spec fn at(&self, o: ServerOption) -> Option<Setting> {
        self.values@[place(o)]@
    }

    pub open spec fn view(&self) -> Map<ServerOption, Setting> {
        Map::new(|o: ServerOption| self.at(o) is Some, |o: ServerOption| self.at(o)->0)
    }

    /// Every option has its place and is set to something that suits it.
    pub closed spec fn well_formed(&self) -> bool {
        &&& self.values@.len() == OPTION_COUNT
        &&& forall|o: ServerOption|
            (#[trigger] self.at(o)) matches Some(s) ==> suits(o.kind(), s)
    }

    /// Where the settings are well formed, what an option is set to suits it.
    pub proof fn lemma_suits(&self, o: ServerOption)
        requires
            self.well_formed(),
        ensures
            self.at(o) matches Some(s) ==> suits(o.kind(), s),
    {
    }

    /// Settings in which no option is set.
    pub fn none() -> (r: Self)
        ensures
            r.well_formed(),
            r@ == Map::<ServerOption, Setting>::empty(),
    {
        let mut values: Vec<SettingValue> = Vec::new();
        let mut i: usize = 0;
        while i < OPTION_COUNT
            invariant
                0 <= i <= OPTION_COUNT,
                values@.len() == i,
                forall|j: int| 0 <= j < i ==> (#[trigger] values@[j])@ is None,
            decreases OPTION_COUNT - i,
        {
            values.push(SettingValue::Unset);
            i = i + 1;
        }
        let r = Settings { values };
        assert forall|o: ServerOption| (#[trigger] r.at(o)) is None by {
            lemma_place(o);
        }
        assert(r@ =~= Map::<ServerOption, Setting>::empty());
        r
    }

    /// Puts a value in the place of an option.
    fn put(&mut self, o: ServerOption, value: SettingValue)
        requires
            old(self).well_formed(),
            value@ matches Some(s) && suits(o.kind(), s),
        ensures
            final(self).well_formed(),
            final(self)@ == old(self)@.insert(o, value@->0),
    {
        let ghost before = *self;
        let i = place_of(o);
        self.values.set(i, value);
        assert forall|p: ServerOption| #[trigger]
            self.at(p) == (if p == o {
                value@
            } else {
                before.at(p)
            }) by {
            lemma_place(p);
            lemma_place(o);
        }
        assert(self@ =~= before@.insert(o, value@->0));
    }

    /// Sets a flag.
    pub fn set_flag(&mut self, o: ServerOption)
        requires
            old(self).well_formed(),
            o.kind() is Flag,
        ensures
            final(self).well_formed(),
            final(self)@ == give(old(self)@, o, Given::On),
    {
        self.put(o, SettingValue::On);
    }

    /// Gives a value to an option.
    pub fn set(&mut self, o: ServerOption, value: OptionValue)
        requires
            old(self).well_formed(),
            fits(o.kind(), value@),
        ensures
            final(self).well_formed(),
            final(self)@ == give(old(self)@, o, value@),
    {
        match value {
            OptionValue::Text(s) => self.put(o, SettingValue::Text(s)),
            OptionValue::Number(n) => self.put(o, SettingValue::Number(n)),
            OptionValue::ReadPreference(p) => self.put(o, SettingValue::ReadPreference(p)),
            OptionValue::Transport(t) => self.put(o, SettingValue::Transport(t)),
            OptionValue::Ack(a) => self.put(o, SettingValue::Ack(a)),
            OptionValue::Security(m) => self.put(o, SettingValue::Security(m)),
            OptionValue::Peer(p) => {
                let mut peers = self.peers(o);
                let ghost known = peers@;
                let ghost next = p@;
                peers.push(p);
                assert(peer_views(peers@) =~= peer_views(known).push(next));
                assert(known.len() == 0 ==> peer_views(peers@) =~= seq![next]);
                self.put(o, SettingValue::Peers(peers));
            },
        }
    }

    /// What an option that takes one value is set to, as it is written on the command
    /// line.
    pub fn shown(&self, o: ServerOption) -> (r: Option<String>)
        requires
            self.well_formed(),
            !(o.kind() is Flag),
            !(o.kind() is Peers),
        ensures
            match r {
                Some(s) => self.at(o) matches Some(v) && s@ == value_text(v),
                None => self.at(o) is None,
            },
    {
        proof {
            self.lemma_suits(o);
        }
        match &self.values[place_of(o)] {
            SettingValue::Text(s) => Some(s.clone()),
            SettingValue::Number(n) => Some(show(*n as u128)),
            SettingValue::ReadPreference(p) => Some(format_read_preference(*p).to_owned()),
            SettingValue::Transport(t) => Some(format_replication_transport(*t).to_owned()),
            SettingValue::Ack(a) => Some(format_ack_policy(*a).to_owned()),
            SettingValue::Security(m) => Some(format_production_security_mode(*m).to_owned()),
            _ => None,
        }
    }

    /// Whether an option is set.
    pub fn is_set(&self, o: ServerOption) -> (r: bool)
        requires
            self.well_formed(),
        ensures
            r == self@.dom().contains(o),
    {
        match &self.values[place_of(o)] {
            SettingValue::Unset => false,
            _ => true,
        }
    }

    /// Whether a flag is set.
    pub fn flag(&self, o: ServerOption) -> (r: bool)
        requires
            self.well_formed(),
            o.kind() is Flag,
        ensures
            self.at(o) == flag_setting(r),
    {
        proof {
            self.lemma_suits(o);
        }
        match &self.values[place_of(o)] {
            SettingValue::On => true,
            _ => false,
        }
    }

    /// The text that an option is set to.
    pub fn text(&self, o: ServerOption) -> (r: Option<String>)
        requires
            self.well_formed(),
            o.kind() is Text,
        ensures
            self.at(o) == text_setting(r),
    {
        match &self.values[place_of(o)] {
            SettingValue::Text(s) => Some(s.clone()),
            _ => {
                proof {
                    self.lemma_suits(o);
                }
                None
            },
        }
    }

    /// The number that an option is set to.
    pub fn number(&self, o: ServerOption) -> (r: Option<u64>)
        requires
            self.well_formed(),
            o.kind() is U64 || o.kind() is Usize || o.kind() is U32 || o.kind() is U8,
        ensures
            self.at(o) == number_setting(as_nat_u64(r)),
            r matches Some(n) ==> n <= largest(o.kind()),
    {
        proof {
            self.lemma_suits(o);
        }
        match &self.values[place_of(o)] {
            SettingValue::Number(n) => Some(*n),
            _ => None,
        }
    }

    /// The peers that an option is set to.
    pub fn peers(&self, o: ServerOption) -> (r: Vec<ReplicaPeer>)
        requires
            self.well_formed(),
            o.kind() is Peers,
        ensures
            self.at(o) == peers_setting(r@),
    {
        proof {
            self.lemma_suits(o);
        }
        match &self.values[place_of(o)] {
            SettingValue::Peers(p) => {
                let r = copy_peers(p);
                assert(peer_views(p@).len() == p@.len());
                assert(peer_views(r@).len() == r@.len());
                r
            },
            _ => Vec::new(),
        }
    }

    /// The read preference that an option is set to.
    pub fn read_preference(&self, o: ServerOption) -> (r: Option<QueryReadPreference>)
        requires
            self.well_formed(),
            o.kind() is ReadPreference,
        ensures
            match r {
                Some(p) => self.at(o) == Some(Setting::ReadPreference(p)),
                None => self.at(o) is None,
            },
    {
        proof {
            self.lemma_suits(o);
        }
        match &self.values[place_of(o)] {
            SettingValue::ReadPreference(p) => Some(*p),
            _ => None,
        }
    }

    /// The transport that an option is set to.
    pub fn transport(&self, o: ServerOption) -> (r: Option<ReplicationChannelKind>)
        requires
            self.well_formed(),
            o.kind() is Transport,
        ensures
            match r {
                Some(t) => self.at(o) == Some(Setting::Transport(t)),
                None => self.at(o) is None,
            },
    {
        proof {
            self.lemma_suits(o);
        }
        match &self.values[place_of(o)] {
            SettingValue::Transport(t) => Some(*t),
            _ => None,
        }
    }

    /// The acknowledgement policy that an option is set to.
    pub fn ack(&self, o: ServerOption) -> (r: Option<ReplicationAckPolicy>)
        requires
            self.well_formed(),
            o.kind() is Ack,
        ensures
            match r {
                Some(a) => self.at(o) == Some(Setting::Ack(a)),
                None => self.at(o) is None,
            },
    {
        proof {
            self.lemma_suits(o);
        }
        match &self.values[place_of(o)] {
            SettingValue::Ack(a) => Some(*a),
            _ => None,
        }
    }

    /// The security mode that an option is set to.
    pub fn security(&self, o: ServerOption) -> (r: Option<ProductionSecurityMode>)
        requires
            self.well_formed(),
            o.kind() is Security,
        ensures
            match r {
                Some(m) => self.at(o) == Some(Setting::Security(m)),
                None => self.at(o) is None,
            },
    {
        proof {
            self.lemma_suits(o);
        }
        match &self.values[place_of(o)] {
            SettingValue::Security(m) => Some(*m),
            _ => None,
        }
    }
}

/// A list of peers like the one given.
pub fn copy_peers(peers: &Vec<ReplicaPeer>) -> (r: Vec<ReplicaPeer>)
    ensures
        peer_views(r@) == peer_views(peers@),
{
    let mut r: Vec<ReplicaPeer> = Vec::new();
    let mut i: usize = 0;
    while i < peers.len()
        invariant
            0 <= i <= peers@.len(),
            peer_views(r@) == peer_views(peers@).take(i as int),
        decreases peers@.len() - i,
    {
        let p = ReplicaPeer { server_id: peers[i].server_id, address: peers[i].address.clone() };
        let ghost known = r@;
        r.push(p);
        i = i + 1;
        assert(peer_views(r@) =~= peer_views(known).push(p@));
        assert(peer_views(peers@).take(i as int) =~= peer_views(peers@).take(i - 1).push(p@));
    }
    assert(peer_views(peers@).take(peers@.len() as int) =~= peer_views(peers@));
    r
}

} // verus!
