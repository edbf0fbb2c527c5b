//! What a server is started with, and what speaks against starting it.

use vstd::prelude::*;
use vstd::utf8::encode_utf8;

use crate::args::{
    default_setting, is_required, missing_problem, native_tls_problem, number_of, peers_of,
    positive_limits, positive_options, replication_tls_problem, runtime_problem, setting, text_of,
    web_tls_problem, zero_problem,
};
use crate::config::{config_bool, config_paths, key_args};
use crate::laws::query_kinds::{has_at, has_in, pieces_stand_where_their_characters_do};
use crate::laws::texts::fronts_and_backs_are_where_they_stand;
use crate::model::{QueryReadPreference, ReplicationAckPolicy, ReplicationChannelKind};
use crate::options::{
    ack_policy_named, give, option_named, peer_written, read_preference_named, security_mode_named,
    transport_named, Given, ProductionSecurityMode, ServerOption, Setting,
};
use crate::production::{
    cluster_issues, clustered, is_loopback, is_mode, is_scratch_dir, is_strong_token,
    production_issues, protection_issues, readiness_issues, reads_without_peers, server_issues,
    version_issues,
};
use crate::readiness::{first_missing, key_problem, last_value};
use crate::startup::{action_asked, transport_refusal};
use crate::text::{
    dec, dec_is_digits, holds, is_digit, lemma_split_once_at_char, less, lower, number_reads_dec,
    swap_char, trim,
};
use crate::tls::{
    listener_files, native_listener, replication_listener, web_listener, ListenerOptions,
};

verus! {

/// A number that must not be zero is complained of if and only if it is.
pub proof fn zeros_are_complained_of(m: Map<ServerOption, Setting>, options: Seq<ServerOption>)
    ensures
        zero_problem(m, options) is None <==> forall|o: ServerOption| #[trigger]
            options.contains(o) ==> number_of(m, o) != Some(0nat),
    decreases options.len(),
{
    if options.len() > 0 {
        let rest = options.skip(1);
        zeros_are_complained_of(m, rest);
        assert(options.contains(options[0]));
        assert forall|o: ServerOption| #[trigger] options.contains(o) implies o == options[0]
            || rest.contains(o) by {
            let k = choose|k: int| 0 <= k < options.len() && options[k] == o;
            if k > 0 {
                assert(rest[k - 1] == o);
            }
        }
        assert forall|o: ServerOption| #[trigger] rest.contains(o) implies options.contains(o) by {
            let k = choose|k: int| 0 <= k < rest.len() && rest[k] == o;
            assert(options[k + 1] == o);
        }
    }
}

/// Something that must be given is complained of if and only if it is missing.
pub proof fn missing_settings_are_complained_of(
    m: Map<ServerOption, Setting>,
    options: Seq<ServerOption>,
    why: Seq<char>,
)
    ensures
        missing_problem(m, options, why) is None <==> forall|o: ServerOption| #[trigger]
            options.contains(o) ==> m.dom().contains(o),
    decreases options.len(),
{
    if options.len() > 0 {
        let rest = options.skip(1);
        missing_settings_are_complained_of(m, rest, why);
        assert(options.contains(options[0]));
        assert forall|o: ServerOption| #[trigger] options.contains(o) implies o == options[0]
            || rest.contains(o) by {
            let k = choose|k: int| 0 <= k < options.len() && options[k] == o;
            if k > 0 {
                assert(rest[k - 1] == o);
            }
        }
        assert forall|o: ServerOption| #[trigger] rest.contains(o) implies options.contains(o) by {
            let k = choose|k: int| 0 <= k < rest.len() && rest[k] == o;
            assert(options[k + 1] == o);
        }
    }
}

/// Whether a setting must not be zero.
pub open spec fn is_positive(o: ServerOption) -> bool {
    o is Shards || o is Partitions || o is Workers || o is QueueCapacity || o is PageSize
        || o is PrimaryServerId || o is ReplicationRetryAttempts || o is ReplicationConnectTimeoutMs
        || o is ReplicationMaxInFlightBatches || o is CatchUpIntervalMs || o is CatchUpBatchSize
        || o is SyncIndexCatalogIntervalMs || o is RecoverTransactionsIntervalMs
        || o is GossipIntervalMs || o is GossipTtlMs || o is GossipFanout
        || o is SlowQueryThresholdMs
}

/// Whether a limit must not be zero.
pub open spec fn is_positive_limit(o: ServerOption) -> bool {
    o is BackupDrillMaxAgeHours || o is DataFormatVersion || o is RaftLeaseClockDriftBoundMs
        || o is RaftLeaseMessageDelayBoundMs || o is AuditRetentionDays || o is SecretRotationDays
        || o is TenantMaxConcurrentQueries || o is TenantMaxResultRows
}

proof fn lemma_positive(o: ServerOption)
    ensures
        positive_options().contains(o) <==> is_positive(o),
        positive_limits().contains(o) <==> is_positive_limit(o),
{
    let s = positive_options();
    assert(s[0] is Shards && s[1] is Partitions && s[2] is Workers && s[3] is QueueCapacity
        && s[4] is PageSize && s[5] is PrimaryServerId && s[6] is ReplicationRetryAttempts
        && s[7] is ReplicationConnectTimeoutMs && s[8] is ReplicationMaxInFlightBatches
        && s[9] is CatchUpIntervalMs && s[10] is CatchUpBatchSize
        && s[11] is SyncIndexCatalogIntervalMs && s[12] is RecoverTransactionsIntervalMs
        && s[13] is GossipIntervalMs && s[14] is GossipTtlMs && s[15] is GossipFanout
        && s[16] is SlowQueryThresholdMs);
    let t = positive_limits();
    assert(t[0] is BackupDrillMaxAgeHours && t[1] is DataFormatVersion
        && t[2] is RaftLeaseClockDriftBoundMs && t[3] is RaftLeaseMessageDelayBoundMs
        && t[4] is AuditRetentionDays && t[5] is SecretRotationDays
        && t[6] is TenantMaxConcurrentQueries && t[7] is TenantMaxResultRows);
}

/// Whether the protection of a listener has its files: the certificate and the key where it is
/// required, and the authority where clients must be known.
pub open spec fn is_protected(
    m: Map<ServerOption, Setting>,
    mode: ServerOption,
    cert: ServerOption,
    key: ServerOption,
    auth: ServerOption,
    ca: ServerOption,
) -> bool {
    &&& is_required(m, mode) ==> m.dom().contains(cert) && m.dom().contains(key)
    &&& m.dom().contains(auth) ==> m.dom().contains(ca)
}

/// The native and the web listener are complained of if and only if their files are missing.
pub proof fn listeners_have_their_files(m: Map<ServerOption, Setting>)
    ensures
        native_tls_problem(m) is None <==> is_protected(
            m,
            ServerOption::TlsMode,
            ServerOption::NativeTlsCert,
            ServerOption::NativeTlsKey,
            ServerOption::NativeTlsRequireClientAuth,
            ServerOption::NativeTlsClientCa,
        ),
        web_tls_problem(m) is None <==> is_protected(
            m,
            ServerOption::WebTlsMode,
            ServerOption::WebTlsCert,
            ServerOption::WebTlsKey,
            ServerOption::WebTlsRequireClientAuth,
            ServerOption::WebTlsClientCa,
        ),
{
    reveal_with_fuel(missing_problem, 3);
}

/// The replication is complained of if and only if it is to be protected over another transport
/// than the one that can be, its files are missing, or a client's certificate has no key.
#[verifier::rlimit(40)]
pub proof fn replication_has_its_files(m: Map<ServerOption, Setting>)
    ensures
        replication_tls_problem(m) is None <==> {
            &&& is_required(m, ServerOption::ReplicationTlsMode) ==> setting(
                m,
                ServerOption::ReplicationTransport,
            ) == Some(Setting::Transport(ReplicationChannelKind::Tcp)) && m.dom().contains(
                ServerOption::ReplicationTlsCert,
            ) && m.dom().contains(ServerOption::ReplicationTlsKey) && m.dom().contains(
                ServerOption::ReplicationTlsCa,
            ) && m.dom().contains(ServerOption::ReplicationTlsServerName)
            &&& m.dom().contains(ServerOption::ReplicationTlsRequireClientAuth) ==> m.dom().contains(
                ServerOption::ReplicationTlsClientCa,
            )
            &&& m.dom().contains(ServerOption::ReplicationTlsClientCert) <==> m.dom().contains(
                ServerOption::ReplicationTlsClientKey,
            )
        },
{
    reveal_with_fuel(missing_problem, 5);
}

/// A server is started if and only if no number is zero that must not be, every protection has its
/// files, the window of versions is not empty, and the primary is not among its own replicas.
pub proof fn sound_settings_are_not_complained_of(m: Map<ServerOption, Setting>)
    ensures
        runtime_problem(m) is None <==> {
            &&& forall|o: ServerOption| #[trigger]
                is_positive(o) ==> number_of(m, o) != Some(0nat)
            &&& forall|o: ServerOption| #[trigger]
                is_positive_limit(o) ==> number_of(m, o) != Some(0nat)
            &&& native_tls_problem(m) is None && web_tls_problem(m) is None
                && replication_tls_problem(m) is None
            &&& (number_of(m, ServerOption::MinNativeProtocolVersion) is Some && number_of(
                m,
                ServerOption::MaxNativeProtocolVersion,
            ) is Some) ==> number_of(m, ServerOption::MinNativeProtocolVersion).unwrap()
                <= number_of(m, ServerOption::MaxNativeProtocolVersion).unwrap()
            &&& forall|i: int|
                0 <= i < peers_of(m, ServerOption::ReplicaPeer).len() ==> Some(
                    (#[trigger] peers_of(m, ServerOption::ReplicaPeer)[i]).0 as nat,
                ) != number_of(m, ServerOption::PrimaryServerId)
        },
{
    zeros_are_complained_of(m, positive_options());
    zeros_are_complained_of(m, positive_limits());
    assert forall|o: ServerOption| positive_options().contains(o) <==> #[trigger] is_positive(
        o,
    ) by {
        lemma_positive(o);
    }
    assert forall|o: ServerOption| positive_limits().contains(o) <==> #[trigger] is_positive_limit(
        o,
    ) by {
        lemma_positive(o);
    }
    assert forall|o: ServerOption| #[trigger] positive_options().contains(o) implies is_positive(
        o,
    ) by {
        lemma_positive(o);
    }
    assert forall|o: ServerOption| #[trigger] positive_limits().contains(
        o,
    ) implies is_positive_limit(o) by {
        lemma_positive(o);
    }
}

/// What a server starts with where nothing is said: on the loopback address, in a directory of its
/// own, with one shard, as its own primary, unprotected, and with replication to all.
pub proof fn servers_start_alone(workers: nat)
    ensures
        default_setting(workers, ServerOption::Bind) == Some(Setting::Text("127.0.0.1:7687"@)),
        default_setting(workers, ServerOption::DataDir) == Some(Setting::Text("data"@)),
        default_setting(workers, ServerOption::Shards) == Some(Setting::Number(1)),
        default_setting(workers, ServerOption::ServerId) == default_setting(
            workers,
            ServerOption::PrimaryServerId,
        ),
        default_setting(workers, ServerOption::Workers) == Some(Setting::Number(workers)),
        default_setting(workers, ServerOption::ReadPreference) == Some(
            Setting::ReadPreference(QueryReadPreference::Primary),
        ),
        default_setting(workers, ServerOption::ReplicationTransport) == Some(
            Setting::Transport(ReplicationChannelKind::Tcp),
        ),
        default_setting(workers, ServerOption::ReplicationAck) == Some(
            Setting::Ack(ReplicationAckPolicy::All),
        ),
        forall|o: ServerOption|
            o is TlsMode || o is WebTlsMode || o is ReplicationTlsMode ==> #[trigger]
                default_setting(workers, o) == Some(
                    Setting::Security(ProductionSecurityMode::Disabled),
                ),
        forall|o: ServerOption|
            (#[trigger] default_setting(workers, o)) matches Some(Setting::Number(n)) ==> workers > 0
                ==> n > 0,
{
}

/// A peer is read from its number and its address.
pub proof fn peers_are_read_with_their_address(id: u64, address: Seq<char>, option: Seq<char>)
    requires
        address.len() > 0,
    ensures
        id > 0 ==> peer_written(dec(id as nat) + "="@ + address, option) == Ok::<_, Seq<char>>(
            (id, address),
        ),
        id == 0 ==> peer_written(dec(id as nat) + "="@ + address, option) is Err,
{
    reveal_strlit("=");
    assert("="@ =~= seq!['=']);
    let d = dec(id as nat);
    dec_is_digits(id as nat);
    number_reads_dec(id as nat, u64::MAX as nat);
    assert(!d.contains('=')) by {
        if d.contains('=') {
            let k = choose|k: int| 0 <= k < d.len() && d[k] == '=';
            assert(is_digit(d[k]));
        }
    }
    lemma_split_once_at_char(d, address, '=');
}

/// An option that is given again is replaced, but a peer is added to those before it; other options
/// stay as they were.
pub proof fn given_options_replace_what_was_said(
    settings: Map<ServerOption, Setting>,
    o: ServerOption,
    n: nat,
    t: Seq<char>,
    id: u64,
    k: ServerOption,
)
    ensures
        give(settings, o, Given::Number(n))[o] == Setting::Number(n),
        give(settings, o, Given::Text(t))[o] == Setting::Text(t),
        give(settings, o, Given::On)[o] == Setting::On,
        peers_of(give(settings, o, Given::Peer(id, t)), o) == peers_of(settings, o).push((id, t)),
        k != o ==> give(settings, o, Given::Text(t)).dom().contains(k) == settings.dom().contains(k)
            && give(settings, o, Given::Text(t))[k] == settings[k],
{
    assert(peers_of(give(settings, o, Given::Peer(id, t)), o) =~= peers_of(settings, o).push(
        (id, t),
    ));
}

/// The names of policies are read, in small letters or in large ones.
pub proof fn policies_are_read_by_their_names(s: Seq<char>)
    ensures
        match ack_policy_named(s) {
            Some(ReplicationAckPolicy::All) => s == "all"@ || s == "ALL"@,
            Some(ReplicationAckPolicy::Quorum) => s == "quorum"@ || s == "QUORUM"@,
            Some(ReplicationAckPolicy::Async) => s == "async"@ || s == "ASYNC"@,
            None => s != "all"@ && s != "ALL"@ && s != "quorum"@ && s != "QUORUM"@ && s != "async"@
                && s != "ASYNC"@,
        },
        match read_preference_named(s) {
            Some(QueryReadPreference::Primary) => s == "primary"@ || s == "PRIMARY"@,
            Some(QueryReadPreference::PreferReplica) => s == "prefer-replica"@ || s
                == "PREFER_REPLICA"@ || s == "prefer_replica"@,
            None => s != "primary"@ && s != "PRIMARY"@ && s != "prefer-replica"@ && s
                != "PREFER_REPLICA"@ && s != "prefer_replica"@,
        },
        match security_mode_named(s) {
            Some(ProductionSecurityMode::Disabled) => lower(s) == "disabled"@,
            Some(ProductionSecurityMode::External) => lower(s) == "external"@,
            Some(ProductionSecurityMode::Required) => lower(s) == "required"@,
            None => lower(s) != "disabled"@ && lower(s) != "external"@ && lower(s) != "required"@,
        },
        match transport_named(s) {
            Ok(ReplicationChannelKind::Tcp) => lower(s) == "tcp"@,
            Ok(ReplicationChannelKind::Rdma) => lower(s) == "rdma"@,
            Ok(_) => false,
            Err(_) => lower(s) != "tcp"@ && lower(s) != "rdma"@,
        },
{
}

/// A truth value of a configuration is one of eight words, in letters of any size.
pub proof fn truth_values_of_configurations_are_words(value: Seq<char>)
    ensures
        match config_bool(value) {
            Some(true) => lower(value) == "true"@ || lower(value) == "yes"@ || lower(value) == "1"@
                || lower(value) == "on"@,
            Some(false) => lower(value) == "false"@ || lower(value) == "no"@ || lower(value) == "0"@
                || lower(value) == "off"@,
            None => lower(value) != "true"@ && lower(value) != "yes"@ && lower(value) != "1"@
                && lower(value) != "on"@ && lower(value) != "false"@ && lower(value) != "no"@
                && lower(value) != "0"@ && lower(value) != "off"@,
        },
{
}

/// A key of a configuration stands for the option of its name, with its value; a flag stands for
/// itself where it is set, and for nothing where it is not.
pub proof fn keys_stand_for_their_options(
    key: Seq<char>,
    value: Seq<char>,
    line_no: nat,
    o: ServerOption,
)
    requires
        option_named("--"@ + swap_char(key, '_', '-')) == Some(o),
    ensures
        !(o.kind() is Flag) && value.len() > 0 ==> key_args(key, value, line_no) == Ok::<
            _,
            Seq<char>,
        >(seq!["--"@ + swap_char(key, '_', '-'), value]),
        !(o.kind() is Flag) && value.len() == 0 ==> key_args(key, value, line_no) is Err,
        o.kind() is Flag && config_bool(value) == Some(true) ==> key_args(key, value, line_no)
            == Ok::<_, Seq<char>>(seq!["--"@ + swap_char(key, '_', '-')]),
        o.kind() is Flag && config_bool(value) == Some(false) ==> key_args(key, value, line_no)
            == Ok::<_, Seq<char>>(Seq::<Seq<char>>::empty()),
        o.kind() is Flag && config_bool(value) is None ==> key_args(key, value, line_no) is Err,
{
}

/// The configurations are those that stand behind the option for them, in order.
pub proof fn configurations_stand_behind_their_option(
    args: Seq<Seq<char>>,
    other: Seq<char>,
    path: Seq<char>,
)
    requires
        other != "--config"@,
    ensures
        config_paths(Seq::empty()) == Ok::<Seq<Seq<char>>, Seq<char>>(Seq::empty()),
        config_paths(seq![other] + args) == config_paths(args),
        config_paths(args) matches Ok(more) ==> config_paths(seq!["--config"@, path] + args) == Ok::<
            _,
            Seq<char>,
        >(seq![path] + more),
        config_paths(seq!["--config"@]) is Err,
{
    assert((seq![other] + args).skip(1) =~= args);
    let two = seq!["--config"@, path] + args;
    assert(two.skip(2) =~= args);
    assert(two[0] == "--config"@ && two[1] == path);
}

/// A listener is protected with the files that are given, where its protection is required.
pub proof fn listeners_are_protected_with_their_files(
    m: Map<ServerOption, Setting>,
    options: ListenerOptions,
    why: Seq<char>,
)
    ensures
        !is_required(m, options.mode) ==> listener_files(m, options, why) matches Ok(None),
        is_required(m, options.mode) ==> (listener_files(m, options, why) is Ok <==> text_of(
            m,
            options.cert,
        ) is Some && text_of(m, options.key) is Some),
        listener_files(m, options, why) matches Ok(Some(f)) ==> text_of(m, options.cert) == Some(
            f.cert_path,
        ) && text_of(m, options.key) == Some(f.key_path) && f.client_ca_path == text_of(
            m,
            options.client_ca,
        ) && (f.require_client_auth <==> m.dom().contains(options.require_client_auth)),
        native_listener().mode is TlsMode && native_listener().cert is NativeTlsCert
            && native_listener().key is NativeTlsKey && native_listener().client_ca
            is NativeTlsClientCa && native_listener().require_client_auth
            is NativeTlsRequireClientAuth,
        web_listener().mode is WebTlsMode && web_listener().cert is WebTlsCert && web_listener().key
            is WebTlsKey && web_listener().client_ca is WebTlsClientCa
            && web_listener().require_client_auth is WebTlsRequireClientAuth,
        replication_listener().mode is ReplicationTlsMode && replication_listener().cert
            is ReplicationTlsCert && replication_listener().key is ReplicationTlsKey
            && replication_listener().client_ca is ReplicationTlsClientCa
            && replication_listener().require_client_auth is ReplicationTlsRequireClientAuth,
{
}

/// What a server does when it is started: it checks its configuration, checks it for production,
/// prints it, goes into the background or serves; the first of these that is asked for.
pub proof fn servers_do_what_is_asked_first(m: Map<ServerOption, Setting>)
    ensures
        action_asked(m) is CheckConfig <==> m.dom().contains(ServerOption::CheckConfig),
        action_asked(m) is ProductionCheck <==> !m.dom().contains(ServerOption::CheckConfig)
            && m.dom().contains(ServerOption::ProductionCheck),
        action_asked(m) is Serve <==> !m.dom().contains(ServerOption::CheckConfig)
            && !m.dom().contains(ServerOption::ProductionCheck) && !m.dom().contains(
            ServerOption::DumpConfig,
        ) && !m.dom().contains(ServerOption::Daemonize),
        action_asked(m) is DumpConfig ==> m.dom().contains(ServerOption::DumpConfig),
        action_asked(m) is Daemonize ==> m.dom().contains(ServerOption::Daemonize),
        forall|t: ReplicationChannelKind| (#[trigger] transport_refusal(t)) is None <==> t is Tcp,
{
}

/// A token is strong where it is long enough and is none of those that everybody knows.
pub proof fn known_tokens_are_not_strong(token: Seq<char>)
    ensures
        is_strong_token(token) <==> {
            &&& encode_utf8(token).len() >= 16
            &&& token != "secret"@ && token != "admin:secret"@ && token != "admin:change-me"@
            &&& token != "change-me"@ && token != "changeme"@
            &&& !has_in(lower(token), "change-me"@)
            &&& !has_in(lower(token), "replace-with"@)
            &&& !has_in(lower(token), "changeme"@)
        },
{
    pieces_stand_where_their_characters_do(lower(token), "change-me"@);
    pieces_stand_where_their_characters_do(lower(token), "replace-with"@);
    pieces_stand_where_their_characters_do(lower(token), "changeme"@);
}

/// An address is reached from the machine itself alone where it begins as those do.
pub proof fn loopback_addresses_begin_as_such(address: Seq<char>)
    ensures
        is_loopback(address) <==> has_at(address, "127."@, 0) || has_at(address, "localhost:"@, 0)
            || has_at(address, "[::1]:"@, 0) || has_at(address, "::1:"@, 0),
{
    fronts_and_backs_are_where_they_stand(address, "127."@);
    fronts_and_backs_are_where_they_stand(address, "localhost:"@);
    fronts_and_backs_are_where_they_stand(address, "[::1]:"@);
    fronts_and_backs_are_where_they_stand(address, "::1:"@);
}

/// A server is clustered where it does not lead, has peers or replicas, listens for replication, or
/// has a routing table.
pub proof fn clustered_servers_have_others(m: Map<ServerOption, Setting>)
    ensures
        clustered(m) <==> number_of(m, ServerOption::PrimaryServerId) != number_of(
            m,
            ServerOption::ServerId,
        ) || peers_of(m, ServerOption::ReplicaPeer).len() > 0 || peers_of(
            m,
            ServerOption::Peer,
        ).len() > 0 || m.dom().contains(ServerOption::ReplicationBind) || m.dom().contains(
            ServerOption::RoutingTable,
        ),
{
}

/// A server is ready for production, as far as itself goes, where it can be reached, keeps its data
/// in a lasting place, has a web interface with a strong token, and does not replicate blindly.
pub proof fn servers_ready_for_production_can_be_reached(m: Map<ServerOption, Setting>)
    ensures
        server_issues(m).len() == 0 <==> {
            let data_dir = text_of(m, ServerOption::DataDir)->0;
            &&& !is_loopback(text_of(m, ServerOption::Bind)->0)
            &&& crate::text::begins(data_dir, "/"@) && !is_scratch_dir(data_dir)
            &&& m.dom().contains(ServerOption::WebBind)
            &&& text_of(m, ServerOption::WebBind) matches Some(address) ==> !is_loopback(address)
            &&& text_of(m, ServerOption::WebAuthToken) matches Some(token) && is_strong_token(token)
            &&& setting(m, ServerOption::ReplicationAck) != Some(
                Setting::Ack(ReplicationAckPolicy::Async),
            )
        },
{
}

/// A clustered server is ready for production where none of its channels is unprotected.
pub proof fn clusters_ready_for_production_are_protected(m: Map<ServerOption, Setting>)
    ensures
        protection_issues(m).len() == 0 <==> (clustered(m) ==> !is_mode(
            m,
            ServerOption::TlsMode,
            ProductionSecurityMode::Disabled,
        ) && !is_mode(m, ServerOption::WebTlsMode, ProductionSecurityMode::Disabled) && !is_mode(
            m,
            ServerOption::ReplicationTlsMode,
            ProductionSecurityMode::Disabled,
        )),
{
}

/// The members of a cluster are ready for production where they find each other and catch up.
pub proof fn members_ready_for_production_find_each_other(m: Map<ServerOption, Setting>)
    ensures
        cluster_issues(m).len() == 0 <==> {
            &&& m.dom().contains(ServerOption::ReplicationBind)
            &&& m.dom().contains(ServerOption::GossipIntervalMs)
            &&& peers_of(m, ServerOption::GossipSeedPeer).len() > 0
            &&& text_of(m, ServerOption::GossipAuthToken) matches Some(token) && is_strong_token(
                token,
            )
            &&& peers_of(m, ServerOption::ReplicaPeer).len() > 0 || peers_of(
                m,
                ServerOption::Peer,
            ).len() > 0
            &&& m.dom().contains(ServerOption::CatchUpOnStartup)
            &&& m.dom().contains(ServerOption::CatchUpIntervalMs)
            &&& m.dom().contains(ServerOption::CatchUpBatchSize)
        },
{
}

/// A server is ready for production where all of this holds, its versions are pinned where they must
/// be, and it has peers to read from, if it prefers replicas.
pub proof fn servers_are_ready_for_production_as_a_whole(
    m: Map<ServerOption, Setting>,
    min: nat,
    max: nat,
)
    ensures
        production_issues(m, min, max).len() == 0 <==> {
            &&& server_issues(m).len() == 0
            &&& protection_issues(m).len() == 0
            &&& readiness_issues(m).len() == 0
            &&& clustered(m) ==> cluster_issues(m).len() == 0
            &&& clustered(m) || m.dom().contains(ServerOption::MinNativeProtocolVersion)
                || m.dom().contains(ServerOption::MaxNativeProtocolVersion) ==> number_of(
                m,
                ServerOption::MinNativeProtocolVersion,
            ) == Some(min) && number_of(m, ServerOption::MaxNativeProtocolVersion) == Some(max)
            &&& setting(m, ServerOption::ReadPreference) == Some(
                Setting::ReadPreference(QueryReadPreference::PreferReplica),
            ) ==> peers_of(m, ServerOption::QueryPeer).len() > 0 || peers_of(
                m,
                ServerOption::Peer,
            ).len() > 0
        },
{
    lemma_lengths(
        server_issues(m),
        protection_issues(m),
        version_issues(m, min, max),
        readiness_issues(m),
        crate::production::when(
            reads_without_peers(m),
            "--read-preference prefer-replica requires query peers"@,
        ),
        if clustered(m) {
            cluster_issues(m)
        } else {
            Seq::<Seq<char>>::empty()
        },
    );
}

proof fn lemma_lengths(
    a: Seq<Seq<char>>,
    b: Seq<Seq<char>>,
    c: Seq<Seq<char>>,
    d: Seq<Seq<char>>,
    e: Seq<Seq<char>>,
    f: Seq<Seq<char>>,
)
    ensures
        (a + b + c + d + e + f).len() == a.len() + b.len() + c.len() + d.len() + e.len() + f.len(),
{
}

/// A document has all that it must have if and only if each of the texts stands in it.
pub proof fn documents_have_all_they_must(text: Seq<char>, wanted: Seq<Seq<char>>, i: int)
    requires
        0 <= i,
    ensures
        first_missing(text, wanted, i) is None <==> forall|k: int|
            i <= k < wanted.len() ==> holds(text, #[trigger] wanted[k]),
        first_missing(text, wanted, i) matches Some(w) ==> !holds(text, w) && wanted.contains(w),
    decreases wanted.len() - i,
{
    if i < wanted.len() {
        documents_have_all_they_must(text, wanted, i + 1);
        assert(wanted.contains(wanted[i]));
    }
}

/// A release is compatible in a key where both releases say a value and the new one does not come
/// before the old one.
pub proof fn compatible_values_do_not_go_back(
    current: Seq<Seq<char>>,
    previous: Seq<Seq<char>>,
    key: Seq<char>,
)
    ensures
        key_problem(current, previous, key) is None <==> last_value(current, key) is Some
            && last_value(previous, key) is Some && !less(
            last_value(current, key).unwrap(),
            last_value(previous, key).unwrap(),
        ),
{
}

/// The value of a key is what the last line that names it says, without the white space round it.
pub proof fn last_line_says_the_value(
    file: Seq<Seq<char>>,
    name: Seq<char>,
    value: Seq<char>,
    other: Seq<char>,
)
    requires
        !name.contains('='),
        !other.contains('='),
        trim(other) != trim(name),
    ensures
        last_value(file.push(name + "="@ + value), trim(name)) == Some(trim(value)),
        last_value(file.push(other + "="@ + value), trim(name)) == last_value(file, trim(name)),
        last_value(Seq::empty(), trim(name)) is None,
{
    reveal_strlit("=");
    assert("="@ =~= seq!['=']);
    lemma_split_once_at_char(name, value, '=');
    lemma_split_once_at_char(other, value, '=');
    assert(file.push(name + "="@ + value).drop_last() =~= file);
    assert(file.push(other + "="@ + value).drop_last() =~= file);
}

} // verus!
