//! The arguments that a daemon hands to the process it starts.

use vstd::prelude::*;

use crate::args::{
    arguments_outcome, complete, default_setting, default_settings, empty_version_window,
    missing_problem, native_tls_problem, number_of, peers_of, positive_limits, positive_options,
    replica_is_primary, replication_tls_problem, runtime_problem, setting, web_tls_problem,
    zero_problem, ServerArgs,
};
use crate::options::{
    after_given, arguments_are_read_in_order, give, largest, option_named,
    option_names_are_distinct, peer_views, peer_written, settings_after, value_given, Given,
    OptionKind, ReplicaPeer, ServerOption, Setting,
};
use crate::settings::{suits, value_text};
use crate::text::{
    cat3, dec, dec_is_digits, is_digit, lemma_split_once_at_char, lemma_views_push, lower,
    number_reads_dec, show, views,
};

verus! {

/// How many options are handed on.
pub const CHILD_OPTION_COUNT: usize = 78;

/// The options that are handed on, in their order.
pub open spec fn child_option(i: int) -> ServerOption {
    if i == 0 {
        ServerOption::Bind
    } else if i == 1 {
        ServerOption::DataDir
    } else if i == 2 {
        ServerOption::Shards
    } else if i == 3 {
        ServerOption::Partitions
    } else if i == 4 {
        ServerOption::ServerId
    } else if i == 5 {
        ServerOption::Workers
    } else if i == 6 {
        ServerOption::QueueCapacity
    } else if i == 7 {
        ServerOption::PageSize
    } else if i == 8 {
        ServerOption::ReadPreference
    } else if i == 9 {
        ServerOption::PrimaryServerId
    } else if i == 10 {
        ServerOption::ReplicationAck
    } else if i == 11 {
        ServerOption::ReplicationTransport
    } else if i == 12 {
        ServerOption::ReplicationRetryAttempts
    } else if i == 13 {
        ServerOption::ReplicationRetryBackoffMs
    } else if i == 14 {
        ServerOption::ReplicationConnectTimeoutMs
    } else if i == 15 {
        ServerOption::ReplicationMaxInFlightBatches
    } else if i == 16 {
        ServerOption::ReplicationBind
    } else if i == 17 {
        ServerOption::WebBind
    } else if i == 18 {
        ServerOption::WebAuthToken
    } else if i == 19 {
        ServerOption::SlowQueryThresholdMs
    } else if i == 20 {
        ServerOption::RoutingTable
    } else if i == 21 {
        ServerOption::ReplicaPeer
    } else if i == 22 {
        ServerOption::Peer
    } else if i == 23 {
        ServerOption::QueryPeer
    } else if i == 24 {
        ServerOption::GossipSeedPeer
    } else if i == 25 {
        ServerOption::GossipAdvertiseQuery
    } else if i == 26 {
        ServerOption::GossipAdvertiseReplication
    } else if i == 27 {
        ServerOption::GossipIntervalMs
    } else if i == 28 {
        ServerOption::GossipTtlMs
    } else if i == 29 {
        ServerOption::GossipFanout
    } else if i == 30 {
        ServerOption::GossipAuthToken
    } else if i == 31 {
        ServerOption::GossipAutoNegotiateReplication
    } else if i == 32 {
        ServerOption::CatchUpOnStartup
    } else if i == 33 {
        ServerOption::CatchUpIntervalMs
    } else if i == 34 {
        ServerOption::CatchUpBatchSize
    } else if i == 35 {
        ServerOption::SyncIndexCatalogOnStartup
    } else if i == 36 {
        ServerOption::SyncIndexCatalogIntervalMs
    } else if i == 37 {
        ServerOption::RecoverTransactionsOnStartup
    } else if i == 38 {
        ServerOption::RecoverTransactionsIntervalMs
    } else if i == 39 {
        ServerOption::TlsMode
    } else if i == 40 {
        ServerOption::ReplicationTlsMode
    } else if i == 41 {
        ServerOption::WebTlsMode
    } else if i == 42 {
        ServerOption::NativeTlsCert
    } else if i == 43 {
        ServerOption::NativeTlsKey
    } else if i == 44 {
        ServerOption::NativeTlsClientCa
    } else if i == 45 {
        ServerOption::NativeTlsRequireClientAuth
    } else if i == 46 {
        ServerOption::WebTlsCert
    } else if i == 47 {
        ServerOption::WebTlsKey
    } else if i == 48 {
        ServerOption::WebTlsClientCa
    } else if i == 49 {
        ServerOption::WebTlsRequireClientAuth
    } else if i == 50 {
        ServerOption::ReplicationTlsCert
    } else if i == 51 {
        ServerOption::ReplicationTlsKey
    } else if i == 52 {
        ServerOption::ReplicationTlsClientCa
    } else if i == 53 {
        ServerOption::ReplicationTlsRequireClientAuth
    } else if i == 54 {
        ServerOption::ReplicationTlsCa
    } else if i == 55 {
        ServerOption::ReplicationTlsServerName
    } else if i == 56 {
        ServerOption::ReplicationTlsClientCert
    } else if i == 57 {
        ServerOption::ReplicationTlsClientKey
    } else if i == 58 {
        ServerOption::MinNativeProtocolVersion
    } else if i == 59 {
        ServerOption::MaxNativeProtocolVersion
    } else if i == 60 {
        ServerOption::BackupDrillMaxAgeHours
    } else if i == 61 {
        ServerOption::WalArchiveDir
    } else if i == 62 {
        ServerOption::RestoreDrillManifest
    } else if i == 63 {
        ServerOption::AuditRetentionDays
    } else if i == 64 {
        ServerOption::SecretRotationDays
    } else if i == 65 {
        ServerOption::TenantMaxConcurrentQueries
    } else if i == 66 {
        ServerOption::TenantMaxResultRows
    } else if i == 67 {
        ServerOption::DataFormatVersion
    } else if i == 68 {
        ServerOption::UpgradeManifest
    } else if i == 69 {
        ServerOption::RaftLeaseClockDriftBoundMs
    } else if i == 70 {
        ServerOption::RaftLeaseMessageDelayBoundMs
    } else if i == 71 {
        ServerOption::ObservabilityAlerts
    } else if i == 72 {
        ServerOption::RepairCheckOnStartup
    } else if i == 73 {
        ServerOption::QueryRegressionCorpus
    } else if i == 74 {
        ServerOption::ChaosGateRequired
    } else if i == 75 {
        ServerOption::Runbook
    } else if i == 76 {
        ServerOption::SystemdUnit
    } else {
        ServerOption::Logrotate
    }
}

/// The place of an option among those that are handed on, or one beyond the last
/// where it is not.
pub open spec fn child_rank(o: ServerOption) -> int {
    match o {
        ServerOption::Bind => 0,
        ServerOption::DataDir => 1,
        ServerOption::Shards => 2,
        ServerOption::Partitions => 3,
        ServerOption::ServerId => 4,
        ServerOption::Workers => 5,
        ServerOption::QueueCapacity => 6,
        ServerOption::PageSize => 7,
        ServerOption::ReadPreference => 8,
        ServerOption::PrimaryServerId => 9,
        ServerOption::ReplicationAck => 10,
        ServerOption::ReplicationTransport => 11,
        ServerOption::ReplicationRetryAttempts => 12,
        ServerOption::ReplicationRetryBackoffMs => 13,
        ServerOption::ReplicationConnectTimeoutMs => 14,
        ServerOption::ReplicationMaxInFlightBatches => 15,
        ServerOption::ReplicationBind => 16,
        ServerOption::WebBind => 17,
        ServerOption::WebAuthToken => 18,
        ServerOption::SlowQueryThresholdMs => 19,
        ServerOption::RoutingTable => 20,
        ServerOption::ReplicaPeer => 21,
        ServerOption::Peer => 22,
        ServerOption::QueryPeer => 23,
        ServerOption::GossipSeedPeer => 24,
        ServerOption::GossipAdvertiseQuery => 25,
        ServerOption::GossipAdvertiseReplication => 26,
        ServerOption::GossipIntervalMs => 27,
        ServerOption::GossipTtlMs => 28,
        ServerOption::GossipFanout => 29,
        ServerOption::GossipAuthToken => 30,
        ServerOption::GossipAutoNegotiateReplication => 31,
        ServerOption::CatchUpOnStartup => 32,
        ServerOption::CatchUpIntervalMs => 33,
        ServerOption::CatchUpBatchSize => 34,
        ServerOption::SyncIndexCatalogOnStartup => 35,
        ServerOption::SyncIndexCatalogIntervalMs => 36,
        ServerOption::RecoverTransactionsOnStartup => 37,
        ServerOption::RecoverTransactionsIntervalMs => 38,
        ServerOption::TlsMode => 39,
        ServerOption::ReplicationTlsMode => 40,
        ServerOption::WebTlsMode => 41,
        ServerOption::NativeTlsCert => 42,
        ServerOption::NativeTlsKey => 43,
        ServerOption::NativeTlsClientCa => 44,
        ServerOption::NativeTlsRequireClientAuth => 45,
        ServerOption::WebTlsCert => 46,
        ServerOption::WebTlsKey => 47,
        ServerOption::WebTlsClientCa => 48,
        ServerOption::WebTlsRequireClientAuth => 49,
        ServerOption::ReplicationTlsCert => 50,
        ServerOption::ReplicationTlsKey => 51,
        ServerOption::ReplicationTlsClientCa => 52,
        ServerOption::ReplicationTlsRequireClientAuth => 53,
        ServerOption::ReplicationTlsCa => 54,
        ServerOption::ReplicationTlsServerName => 55,
        ServerOption::ReplicationTlsClientCert => 56,
        ServerOption::ReplicationTlsClientKey => 57,
        ServerOption::MinNativeProtocolVersion => 58,
        ServerOption::MaxNativeProtocolVersion => 59,
        ServerOption::BackupDrillMaxAgeHours => 60,
        ServerOption::WalArchiveDir => 61,
        ServerOption::RestoreDrillManifest => 62,
        ServerOption::AuditRetentionDays => 63,
        ServerOption::SecretRotationDays => 64,
        ServerOption::TenantMaxConcurrentQueries => 65,
        ServerOption::TenantMaxResultRows => 66,
        ServerOption::DataFormatVersion => 67,
        ServerOption::UpgradeManifest => 68,
        ServerOption::RaftLeaseClockDriftBoundMs => 69,
        ServerOption::RaftLeaseMessageDelayBoundMs => 70,
        ServerOption::ObservabilityAlerts => 71,
        ServerOption::RepairCheckOnStartup => 72,
        ServerOption::QueryRegressionCorpus => 73,
        ServerOption::ChaosGateRequired => 74,
        ServerOption::Runbook => 75,
        ServerOption::SystemdUnit => 76,
        ServerOption::Logrotate => 77,
        _ => 78,
    }
}

fn child_option_at(i: usize) -> (o: ServerOption)
    requires
        i < CHILD_OPTION_COUNT,
    ensures
        o == child_option(i as int),
{
    if i == 0 {
        ServerOption::Bind
    } else if i == 1 {
        ServerOption::DataDir
    } else if i == 2 {
        ServerOption::Shards
    } else if i == 3 {
        ServerOption::Partitions
    } else if i == 4 {
        ServerOption::ServerId
    } else if i == 5 {
        ServerOption::Workers
    } else if i == 6 {
        ServerOption::QueueCapacity
    } else if i == 7 {
        ServerOption::PageSize
    } else if i == 8 {
        ServerOption::ReadPreference
    } else if i == 9 {
        ServerOption::PrimaryServerId
    } else if i == 10 {
        ServerOption::ReplicationAck
    } else if i == 11 {
        ServerOption::ReplicationTransport
    } else if i == 12 {
        ServerOption::ReplicationRetryAttempts
    } else if i == 13 {
        ServerOption::ReplicationRetryBackoffMs
    } else if i == 14 {
        ServerOption::ReplicationConnectTimeoutMs
    } else if i == 15 {
        ServerOption::ReplicationMaxInFlightBatches
    } else if i == 16 {
        ServerOption::ReplicationBind
    } else if i == 17 {
        ServerOption::WebBind
    } else if i == 18 {
        ServerOption::WebAuthToken
    } else if i == 19 {
        ServerOption::SlowQueryThresholdMs
    } else if i == 20 {
        ServerOption::RoutingTable
    } else if i == 21 {
        ServerOption::ReplicaPeer
    } else if i == 22 {
        ServerOption::Peer
    } else if i == 23 {
        ServerOption::QueryPeer
    } else if i == 24 {
        ServerOption::GossipSeedPeer
    } else if i == 25 {
        ServerOption::GossipAdvertiseQuery
    } else if i == 26 {
        ServerOption::GossipAdvertiseReplication
    } else if i == 27 {
        ServerOption::GossipIntervalMs
    } else if i == 28 {
        ServerOption::GossipTtlMs
    } else if i == 29 {
        ServerOption::GossipFanout
    } else if i == 30 {
        ServerOption::GossipAuthToken
    } else if i == 31 {
        ServerOption::GossipAutoNegotiateReplication
    } else if i == 32 {
        ServerOption::CatchUpOnStartup
    } else if i == 33 {
        ServerOption::CatchUpIntervalMs
    } else if i == 34 {
        ServerOption::CatchUpBatchSize
    } else if i == 35 {
        ServerOption::SyncIndexCatalogOnStartup
    } else if i == 36 {
        ServerOption::SyncIndexCatalogIntervalMs
    } else if i == 37 {
        ServerOption::RecoverTransactionsOnStartup
    } else if i == 38 {
        ServerOption::RecoverTransactionsIntervalMs
    } else if i == 39 {
        ServerOption::TlsMode
    } else if i == 40 {
        ServerOption::ReplicationTlsMode
    } else if i == 41 {
        ServerOption::WebTlsMode
    } else if i == 42 {
        ServerOption::NativeTlsCert
    } else if i == 43 {
        ServerOption::NativeTlsKey
    } else if i == 44 {
        ServerOption::NativeTlsClientCa
    } else if i == 45 {
        ServerOption::NativeTlsRequireClientAuth
    } else if i == 46 {
        ServerOption::WebTlsCert
    } else if i == 47 {
        ServerOption::WebTlsKey
    } else if i == 48 {
        ServerOption::WebTlsClientCa
    } else if i == 49 {
        ServerOption::WebTlsRequireClientAuth
    } else if i == 50 {
        ServerOption::ReplicationTlsCert
    } else if i == 51 {
        ServerOption::ReplicationTlsKey
    } else if i == 52 {
        ServerOption::ReplicationTlsClientCa
    } else if i == 53 {
        ServerOption::ReplicationTlsRequireClientAuth
    } else if i == 54 {
        ServerOption::ReplicationTlsCa
    } else if i == 55 {
        ServerOption::ReplicationTlsServerName
    } else if i == 56 {
        ServerOption::ReplicationTlsClientCert
    } else if i == 57 {
        ServerOption::ReplicationTlsClientKey
    } else if i == 58 {
        ServerOption::MinNativeProtocolVersion
    } else if i == 59 {
        ServerOption::MaxNativeProtocolVersion
    } else if i == 60 {
        ServerOption::BackupDrillMaxAgeHours
    } else if i == 61 {
        ServerOption::WalArchiveDir
    } else if i == 62 {
        ServerOption::RestoreDrillManifest
    } else if i == 63 {
        ServerOption::AuditRetentionDays
    } else if i == 64 {
        ServerOption::SecretRotationDays
    } else if i == 65 {
        ServerOption::TenantMaxConcurrentQueries
    } else if i == 66 {
        ServerOption::TenantMaxResultRows
    } else if i == 67 {
        ServerOption::DataFormatVersion
    } else if i == 68 {
        ServerOption::UpgradeManifest
    } else if i == 69 {
        ServerOption::RaftLeaseClockDriftBoundMs
    } else if i == 70 {
        ServerOption::RaftLeaseMessageDelayBoundMs
    } else if i == 71 {
        ServerOption::ObservabilityAlerts
    } else if i == 72 {
        ServerOption::RepairCheckOnStartup
    } else if i == 73 {
        ServerOption::QueryRegressionCorpus
    } else if i == 74 {
        ServerOption::ChaosGateRequired
    } else if i == 75 {
        ServerOption::Runbook
    } else if i == 76 {
        ServerOption::SystemdUnit
    } else {
        ServerOption::Logrotate
    }
}

proof fn lemma_child_rank(i: int)
    requires
        0 <= i < CHILD_OPTION_COUNT,
    ensures
        child_rank(child_option(i)) == i,
{
}

/// A peer as it is written on the command line.
pub open spec fn peer_text(peer: (u64, Seq<char>)) -> Seq<char> {
    dec(peer.0 as nat) + "="@ + peer.1
}

/// The arguments that name each of the peers.
pub open spec fn peer_args(o: ServerOption, peers: Seq<(u64, Seq<char>)>) -> Seq<Seq<char>>
    decreases peers.len(),
{
    if peers.len() == 0 {
        Seq::<Seq<char>>::empty()
    } else {
        peer_args(o, peers.drop_last()) + seq![o.name(), peer_text(peers.last())]
    }
}

/// The arguments that set an option.
pub open spec fn option_args(o: ServerOption, setting: Option<Setting>) -> Seq<Seq<char>> {
    match setting {
        None => Seq::<Seq<char>>::empty(),
        Some(Setting::On) => seq![o.name()],
        Some(Setting::Peers(peers)) => peer_args(o, peers),
        Some(value) => seq![o.name(), value_text(value)],
    }
}

/// The arguments for the options from the `k`-th on.
pub open spec fn child_args_from(m: Map<ServerOption, Setting>, k: int) -> Seq<Seq<char>>
    decreases CHILD_OPTION_COUNT - k,
{
    if k < 0 || k >= CHILD_OPTION_COUNT {
        Seq::<Seq<char>>::empty()
    } else {
        option_args(child_option(k), setting(m, child_option(k))) + child_args_from(m, k + 1)
    }
}

/// The arguments that a daemon hands to the process it starts.
pub open spec fn child_args(m: Map<ServerOption, Setting>) -> Seq<Seq<char>> {
    child_args_from(m, 0)
}

fn push_text(out: &mut Vec<String>, s: String)
    ensures
        views(final(out)@) == views(old(out)@).push(s@),
{
    proof {
        lemma_views_push(out@, s);
    }
    out.push(s);
}

fn push_peers(out: &mut Vec<String>, o: ServerOption, peers: &Vec<ReplicaPeer>)
    ensures
        views(final(out)@) == views(old(out)@) + peer_args(o, peer_views(peers@)),
{
    let ghost before = views(out@);
    let ghost all = peer_views(peers@);
    let mut i: usize = 0;
    assert(all.take(0) =~= Seq::<(u64, Seq<char>)>::empty());
    assert(before + Seq::<Seq<char>>::empty() =~= before);
    while i < peers.len()
        invariant
            0 <= i <= peers@.len(),
            all == peer_views(peers@),
            views(out@) == before + peer_args(o, all.take(i as int)),
        decreases peers@.len() - i,
    {
        let ghost done = peer_args(o, all.take(i as int));
        assert(all.take(i + 1).drop_last() =~= all.take(i as int));
        assert(all.take(i + 1).last() == peers@[i as int]@);
        let id = show(peers[i].server_id as u128);
        let text = cat3(id.as_str(), "=", peers[i].address.as_str());
        push_text(out, o.text().to_owned());
        push_text(out, text);
        assert((before + done).push(o.name()).push(text@) =~= before + (done + seq![
            o.name(),
            text@,
        ]));
        i = i + 1;
    }
    assert(all.take(all.len() as int) =~= all);
}

fn push_option_args(out: &mut Vec<String>, args: &ServerArgs, o: ServerOption)
    requires
        args.well_formed(),
    ensures
        views(final(out)@) == views(old(out)@) + option_args(o, setting(args@, o)),
{
    let ghost before = views(out@);
    match o.takes() {
        OptionKind::Flag => {
            if args.flag(o) {
                push_text(out, o.text().to_owned());
                assert(views(out@) =~= before + seq![o.name()]);
            } else {
                assert(before + Seq::<Seq<char>>::empty() =~= before);
            }
        },
        OptionKind::Peers => {
            let peers = args.peers(o);
            push_peers(out, o, &peers);
            assert(peer_views(peers@).len() == peers@.len());
        },
        _ => {
            proof {
                args.lemma_suits(o);
            }
            match args.shown(o) {
                Some(text) => {
                    push_text(out, o.text().to_owned());
                    push_text(out, text);
                    assert(views(out@) =~= before + seq![o.name(), text@]);
                },
                None => {
                    assert(before + Seq::<Seq<char>>::empty() =~= before);
                },
            }
        },
    }
}

/// The arguments with which a daemon starts the process that serves.
pub fn daemon_child_args(args: &ServerArgs) -> (r: Vec<String>)
    requires
        args.well_formed(),
    ensures
        views(r@) == child_args(args@),
{
    let mut out: Vec<String> = Vec::new();
    let mut i: usize = 0;
    assert(views(out@) + child_args(args@) =~= child_args(args@));
    while i < CHILD_OPTION_COUNT
        invariant
            0 <= i <= CHILD_OPTION_COUNT,
            args.well_formed(),
            views(out@) + child_args_from(args@, i as int) == child_args(args@),
        decreases CHILD_OPTION_COUNT - i,
    {
        let o = child_option_at(i);
        let ghost before = views(out@);
        push_option_args(&mut out, args, o);
        proof {
            let piece = option_args(o, setting(args@, o));
            let rest = child_args_from(args@, i + 1);
            assert(before + (piece + rest) =~= before + piece + rest);
        }
        i = i + 1;
    }
    assert(views(out@) + Seq::<Seq<char>>::empty() =~= views(out@));
    out
}

/// Whether an option can be set to that on a command line.
pub open spec fn writable(o: ServerOption, s: Setting) -> bool {
    &&& suits(o.kind(), s)
    &&& s matches Setting::Text(t) ==> t.len() > 0
    &&& s matches Setting::Transport(t) ==> t is Tcp || t is Rdma
    &&& s matches Setting::Peers(peers) ==> forall|i: int|
        0 <= i < peers.len() ==> (#[trigger] peers[i]).0 > 0 && peers[i].1.len() > 0
}

pub open spec fn all_writable(m: Map<ServerOption, Setting>) -> bool {
    forall|o: ServerOption| #[trigger] m.dom().contains(o) ==> writable(o, m[o])
}

/// What is left of the settings when a daemon hands them on: everything but the
/// instructions to become a daemon and to look at the configuration.
pub open spec fn handed_on(m: Map<ServerOption, Setting>) -> Map<ServerOption, Setting> {
    m.remove(ServerOption::Daemonize).remove(ServerOption::CheckConfig).remove(
        ServerOption::ProductionCheck,
    ).remove(ServerOption::DumpConfig)
}

proof fn lemma_given_is_writable(
    m: Map<ServerOption, Setting>,
    o: ServerOption,
    s: Seq<char>,
)
    requires
        all_writable(m),
        complete(m),
        s.len() > 0,
        value_given(o, s) is Ok,
    ensures
        all_writable(give(m, o, value_given(o, s)->Ok_0)),
        complete(give(m, o, value_given(o, s)->Ok_0)),
{
    let v = value_given(o, s)->Ok_0;
    let next = give(m, o, v);
    assert(m.dom().contains(o) ==> writable(o, m[o]));
    assert(writable(o, next[o]));
    assert forall|p: ServerOption| #[trigger] next.dom().contains(p) implies writable(
        p,
        next[p],
    ) by {
        assert(p != o ==> m.dom().contains(p));
    }
    assert forall|p: ServerOption| default_setting(0, p) is Some implies #[trigger] next.dom().contains(
        p,
    ) by {
        assert(m.dom().contains(p));
    }
}

proof fn lemma_settings_are_writable(args: Seq<Seq<char>>, m: Map<ServerOption, Setting>)
    requires
        all_writable(m),
        complete(m),
        settings_after(args, m) is Ok,
    ensures
        all_writable(settings_after(args, m)->Ok_0),
        complete(settings_after(args, m)->Ok_0),
    decreases args.len(),
{
    if args.len() > 0 {
        let o = option_named(args[0]).unwrap();
        if o.kind() is Flag {
            lemma_given_is_writable(m, o, "x"@.push('x'));
            lemma_settings_are_writable(args.skip(1), give(m, o, Given::On));
        } else {
            lemma_given_is_writable(m, o, args[1]);
            lemma_settings_are_writable(
                args.skip(2),
                give(m, o, value_given(o, args[1])->Ok_0),
            );
        }
    }
}

proof fn lemma_defaults_are_writable(workers: nat)
    requires
        workers <= usize::MAX,
    ensures
        all_writable(default_settings(workers)),
        complete(default_settings(workers)),
{
    reveal_strlit("127.0.0.1:7687");
    reveal_strlit("data");
}

proof fn lemma_value_reads_back(o: ServerOption, s: Setting)
    requires
        writable(o, s),
        !(s is On),
        !(s is Peers),
    ensures
        value_text(s).len() > 0,
        value_given(o, value_text(s)) is Ok,
        forall|before: Option<Setting>| #[trigger]
            after_given(before, value_given(o, value_text(s))->Ok_0) == s,
{
    match s {
        Setting::Number(n) => {
            number_reads_dec(n, largest(o.kind()));
        },
        Setting::ReadPreference(p) => {
            reveal_strlit("primary");
            reveal_strlit("PRIMARY");
            reveal_strlit("prefer-replica");
            assert("primary"@.len() == 7 && "prefer-replica"@.len() == 14 && "PRIMARY"@.len() == 7);
        },
        Setting::Transport(t) => {
            reveal_strlit("tcp");
            reveal_strlit("rdma");
            assert(lower("tcp"@) =~= "tcp"@);
            assert(lower("rdma"@) =~= "rdma"@);
            assert("tcp"@.len() == 3 && "rdma"@.len() == 4);
        },
        Setting::Ack(a) => {
            reveal_strlit("all");
            reveal_strlit("ALL");
            reveal_strlit("quorum");
            reveal_strlit("QUORUM");
            reveal_strlit("async");
            assert("all"@.len() == 3 && "ALL"@.len() == 3 && "quorum"@.len() == 6 && "QUORUM"@.len()
                == 6 && "async"@.len() == 5);
        },
        Setting::Security(m) => {
            reveal_strlit("disabled");
            reveal_strlit("external");
            reveal_strlit("required");
            assert(lower("disabled"@) =~= "disabled"@);
            assert(lower("external"@) =~= "external"@);
            assert(lower("required"@) =~= "required"@);
            assert("disabled"@[0] == 'd' && "external"@[0] == 'e' && "required"@[0] == 'r');
            assert("disabled"@.len() == 8);
        },
        _ => {},
    }
}

proof fn lemma_peer_reads_back(o: ServerOption, peer: (u64, Seq<char>))
    requires
        peer.0 > 0,
        peer.1.len() > 0,
    ensures
        peer_text(peer).len() > 0,
        peer_written(peer_text(peer), o.name()) == Ok::<(u64, Seq<char>), Seq<char>>(peer),
{
    let id = dec(peer.0 as nat);
    number_reads_dec(peer.0 as nat, u64::MAX as nat);
    dec_is_digits(peer.0 as nat);
    reveal_strlit("=");
    assert("="@ =~= seq!['=']);
    assert(!id.contains('=')) by {
        assert forall|i: int| 0 <= i < id.len() implies id[i] != '=' by {
            assert(is_digit(id[i]));
        }
    }
    lemma_split_once_at_char(id, peer.1, '=');
}

proof fn lemma_peer_args_read_back(
    o: ServerOption,
    peers: Seq<(u64, Seq<char>)>,
    m: Map<ServerOption, Setting>,
)
    requires
        o.kind() is Peers,
        !m.dom().contains(o),
        forall|i: int|
            0 <= i < peers.len() ==> (#[trigger] peers[i]).0 > 0 && peers[i].1.len() > 0,
    ensures
        settings_after(peer_args(o, peers), m) == Ok::<Map<ServerOption, Setting>, Seq<char>>(
            if peers.len() == 0 {
                m
            } else {
                m.insert(o, Setting::Peers(peers))
            },
        ),
    decreases peers.len(),
{
    if peers.len() > 0 {
        let before = peers.drop_last();
        assert forall|i: int| 0 <= i < before.len() implies (#[trigger] before[i]).0 > 0
            && before[i].1.len() > 0 by {
            assert(before[i] == peers[i]);
        }
        lemma_peer_args_read_back(o, before, m);
        let state = settings_after(peer_args(o, before), m)->Ok_0;
        let pair = seq![o.name(), peer_text(peers.last())];
        arguments_are_read_in_order(peer_args(o, before), pair, m);
        assert(peers.last() == peers[peers.len() - 1]);
        lemma_peer_reads_back(o, peers.last());
        option_names_are_distinct(o);
        reveal_with_fuel(settings_after, 2);
        assert(pair.skip(2) =~= Seq::<Seq<char>>::empty());
        assert(before.push(peers.last()) =~= peers);
        assert(before.len() == 0 ==> seq![peers.last()] =~= peers);
        assert(m.insert(o, Setting::Peers(before)).insert(o, Setting::Peers(peers)) =~= m.insert(
            o,
            Setting::Peers(peers),
        ));
    }
}

proof fn lemma_option_args_read_back(
    o: ServerOption,
    s: Option<Setting>,
    m: Map<ServerOption, Setting>,
)
    requires
        s matches Some(v) ==> writable(o, v),
        o.kind() is Peers ==> !m.dom().contains(o),
    ensures
        settings_after(option_args(o, s), m) == Ok::<Map<ServerOption, Setting>, Seq<char>>(
            match s {
                Some(v) => m.insert(o, v),
                None => m,
            },
        ),
{
    reveal_with_fuel(settings_after, 2);
    option_names_are_distinct(o);
    match s {
        None => {},
        Some(Setting::Peers(peers)) => {
            lemma_peer_args_read_back(o, peers, m);
        },
        Some(Setting::On) => {
            assert(seq![o.name()].skip(1) =~= Seq::<Seq<char>>::empty());
        },
        Some(v) => {
            lemma_value_reads_back(o, v);
            assert(seq![o.name(), value_text(v)].skip(2) =~= Seq::<Seq<char>>::empty());
        },
    }
}

/// The settings when the first `k` of the options that are handed on were read.
spec fn child_state(m: Map<ServerOption, Setting>, workers: nat, k: int) -> Map<
    ServerOption,
    Setting,
> {
    Map::new(
        |o: ServerOption|
            if child_rank(o) < k {
                m.dom().contains(o)
            } else {
                default_setting(workers, o) is Some
            },
        |o: ServerOption|
            if child_rank(o) < k {
                m[o]
            } else {
                default_setting(workers, o)->0
            },
    )
}

proof fn lemma_child_option(o: ServerOption)
    requires
        child_rank(o) < CHILD_OPTION_COUNT,
    ensures
        0 <= child_rank(o),
        child_option(child_rank(o)) == o,
{
}

proof fn lemma_child_args_read_back(m: Map<ServerOption, Setting>, workers: nat, k: int)
    requires
        all_writable(m),
        complete(m),
        0 <= k <= CHILD_OPTION_COUNT,
    ensures
        settings_after(child_args_from(m, k), child_state(m, workers, k)) == Ok::<
            Map<ServerOption, Setting>,
            Seq<char>,
        >(child_state(m, workers, CHILD_OPTION_COUNT as int)),
    decreases CHILD_OPTION_COUNT - k,
{
    if k < CHILD_OPTION_COUNT {
        let o = child_option(k);
        let s = setting(m, o);
        let now = child_state(m, workers, k);
        let next = child_state(m, workers, k + 1);
        lemma_child_rank(k);
        assert(default_setting(0, o) is Some ==> m.dom().contains(o));
        assert(default_setting(workers, o) is Some == default_setting(0, o) is Some);
        lemma_option_args_read_back(o, s, now);
        assert forall|p: ServerOption| #[trigger] child_rank(p) == k implies p == o by {
            lemma_child_option(p);
        }
        let after = match s {
            Some(v) => now.insert(o, v),
            None => now,
        };
        assert(after =~= next);
        arguments_are_read_in_order(option_args(o, s), child_args_from(m, k + 1), now);
        lemma_child_args_read_back(m, workers, k + 1);
    }
}

proof fn lemma_zero_problem_reads(
    m: Map<ServerOption, Setting>,
    n: Map<ServerOption, Setting>,
    options: Seq<ServerOption>,
)
    requires
        forall|i: int|
            0 <= i < options.len() ==> setting(m, #[trigger] options[i]) == setting(n, options[i]),
    ensures
        zero_problem(m, options) == zero_problem(n, options),
    decreases options.len(),
{
    if options.len() > 0 {
        let rest = options.skip(1);
        assert(setting(m, options[0]) == setting(n, options[0]));
        assert forall|i: int| 0 <= i < rest.len() implies setting(m, #[trigger] rest[i]) == setting(
            n,
            rest[i],
        ) by {
            assert(rest[i] == options[i + 1]);
        }
        lemma_zero_problem_reads(m, n, rest);
    }
}

proof fn lemma_missing_problem_reads(
    m: Map<ServerOption, Setting>,
    n: Map<ServerOption, Setting>,
    options: Seq<ServerOption>,
    why: Seq<char>,
)
    requires
        forall|i: int|
            0 <= i < options.len() ==> setting(m, #[trigger] options[i]) == setting(n, options[i]),
    ensures
        missing_problem(m, options, why) == missing_problem(n, options, why),
    decreases options.len(),
{
    if options.len() > 0 {
        let rest = options.skip(1);
        assert(setting(m, options[0]) == setting(n, options[0]));
        assert forall|i: int| 0 <= i < rest.len() implies setting(m, #[trigger] rest[i]) == setting(
            n,
            rest[i],
        ) by {
            assert(rest[i] == options[i + 1]);
        }
        lemma_missing_problem_reads(m, n, rest, why);
    }
}

proof fn lemma_runtime_problem_of_handed_on(m: Map<ServerOption, Setting>)
    ensures
        runtime_problem(handed_on(m)) == runtime_problem(m),
{
    let n = handed_on(m);
    assert forall|o: ServerOption| child_rank(o) < CHILD_OPTION_COUNT implies #[trigger] setting(
        n,
        o,
    ) == setting(m, o) by {}
    lemma_zero_problem_reads(m, n, positive_options());
    lemma_zero_problem_reads(m, n, positive_limits());
    lemma_missing_problem_reads(
        m,
        n,
        seq![ServerOption::NativeTlsCert, ServerOption::NativeTlsKey],
        " is required when --tls-mode required"@,
    );
    lemma_missing_problem_reads(
        m,
        n,
        seq![ServerOption::NativeTlsClientCa],
        " is required when native client auth is enabled"@,
    );
    lemma_missing_problem_reads(
        m,
        n,
        seq![ServerOption::WebTlsCert, ServerOption::WebTlsKey],
        " is required when --web-tls-mode required"@,
    );
    lemma_missing_problem_reads(
        m,
        n,
        seq![ServerOption::WebTlsClientCa],
        " is required when web client auth is enabled"@,
    );
    lemma_missing_problem_reads(
        m,
        n,
        seq![
            ServerOption::ReplicationTlsCert,
            ServerOption::ReplicationTlsKey,
            ServerOption::ReplicationTlsCa,
            ServerOption::ReplicationTlsServerName,
        ],
        " is required when --replication-tls-mode required"@,
    );
    lemma_missing_problem_reads(
        m,
        n,
        seq![ServerOption::ReplicationTlsClientCa],
        " is required when replication client auth is enabled"@,
    );
    assert forall|o: ServerOption| child_rank(o) < CHILD_OPTION_COUNT implies #[trigger] n.dom().contains(
        o,
    ) == m.dom().contains(o) by {}
    assert(native_tls_problem(n) == native_tls_problem(m));
    assert(web_tls_problem(n) == web_tls_problem(m));
    assert(replication_tls_problem(n) == replication_tls_problem(m));
    assert(empty_version_window(n) == empty_version_window(m));
    assert(peers_of(n, ServerOption::ReplicaPeer) == peers_of(m, ServerOption::ReplicaPeer));
    assert(number_of(n, ServerOption::PrimaryServerId) == number_of(m, ServerOption::PrimaryServerId));
    assert(replica_is_primary(n) == replica_is_primary(m));
}

/// The process that a daemon starts runs with the settings of the daemon: read as a
/// command line, the arguments that are handed on give every setting back, but for
/// the instructions to become a daemon and to look at the configuration.
pub proof fn daemon_child_keeps_the_settings(
    args: Seq<Seq<char>>,
    workers: nat,
    m: Map<ServerOption, Setting>,
    child_workers: nat,
)
    requires
        workers <= usize::MAX,
        arguments_outcome(args, workers) == Ok::<Map<ServerOption, Setting>, Seq<char>>(m),
    ensures
        arguments_outcome(child_args(m), child_workers) == Ok::<
            Map<ServerOption, Setting>,
            Seq<char>,
        >(handed_on(m)),
{
    lemma_defaults_are_writable(workers);
    lemma_settings_are_writable(args, default_settings(workers));
    assert(child_state(m, child_workers, 0) =~= default_settings(child_workers)) by {
        assert forall|o: ServerOption| 0 <= #[trigger] child_rank(o) by {}
    }
    lemma_child_args_read_back(m, child_workers, 0);
    assert(child_state(m, child_workers, CHILD_OPTION_COUNT as int) =~= handed_on(m));
    lemma_runtime_problem_of_handed_on(m);
}


} // verus!
