//! What a configuration needs before it may go into production.

use vstd::prelude::*;
use vstd::utf8::encode_utf8;

use crate::args::{number_of, peers_of, runtime_problem, setting, text_of, ServerArgs};
use crate::config::{path_parts, path_parts_of};
use crate::model::{QueryReadPreference, ReplicationAckPolicy};
use crate::options::{peer_views, ProductionSecurityMode, ServerOption, Setting};
use crate::text::{
    begins, cat, contains, dec, holds, join, join_with, lemma_views_push, lower, lowered, same,
    show, starts_with, views,
};

verus! {

/// Whether an address is one that only the machine itself reaches.
pub open spec fn is_loopback(address: Seq<char>) -> bool {
    begins(address, "127."@) || begins(address, "localhost:"@) || begins(address, "[::1]:"@)
        || begins(address, "::1:"@)
}

pub fn is_local_bind(address: &str) -> (r: bool)
    ensures
        r == is_loopback(address@),
{
    starts_with(address, "127.") || starts_with(address, "localhost:") || starts_with(
        address,
        "[::1]:",
    ) || starts_with(address, "::1:")
}

/// Whether a path is a directory for development or for temporary files.
pub open spec fn is_scratch_dir(path: Seq<char>) -> bool {
    let parts = path_parts(path);
    if begins(path, "/"@) {
        parts.len() >= 1 && parts[0] == "tmp"@ || parts.len() >= 2 && parts[0] == "var"@ && parts[1]
            == "tmp"@
    } else {
        parts.len() == 1 && parts[0] == "data"@
    }
}

pub fn is_temp_or_dev_data_dir(path: &str) -> (r: bool)
    ensures
        r == is_scratch_dir(path@),
{
    let parts = path_parts_of(path);
    let ghost all = path_parts(path@);
    assert(all.len() == parts@.len());
    assert(parts@.len() > 0 ==> all[0] == parts@[0]@);
    assert(parts@.len() > 1 ==> all[1] == parts@[1]@);
    if starts_with(path, "/") {
        parts.len() >= 1 && same(parts[0].as_str(), "tmp") || parts.len() >= 2 && same(
            parts[0].as_str(),
            "var",
        ) && same(parts[1].as_str(), "tmp")
    } else {
        parts.len() == 1 && same(parts[0].as_str(), "data")
    }
}

/// Whether a token is long enough and none that comes with the documentation.
pub open spec fn is_strong_token(token: Seq<char>) -> bool {
    &&& encode_utf8(token).len() >= 16
    &&& token != "secret"@
    &&& token != "admin:secret"@
    &&& token != "admin:change-me"@
    &&& token != "change-me"@
    &&& token != "changeme"@
    &&& !holds(lower(token), "change-me"@)
    &&& !holds(lower(token), "replace-with"@)
    &&& !holds(lower(token), "changeme"@)
}

pub fn is_strong_admin_token(token: &str) -> (r: bool)
    ensures
        r == is_strong_token(token@),
{
    let lowered_token = lowered(token);
    token.as_bytes().len() >= 16 && !same(token, "secret") && !same(token, "admin:secret")
        && !same(token, "admin:change-me") && !same(token, "change-me") && !same(
        token,
        "changeme",
    ) && !contains(lowered_token.as_str(), "change-me") && !contains(
        lowered_token.as_str(),
        "replace-with",
    ) && !contains(lowered_token.as_str(), "changeme")
}

/// Whether the settings ask for more than one server.
pub open spec fn clustered(m: Map<ServerOption, Setting>) -> bool {
    number_of(m, ServerOption::PrimaryServerId) != number_of(m, ServerOption::ServerId) || peers_of(
        m,
        ServerOption::ReplicaPeer,
    ).len() > 0 || peers_of(m, ServerOption::Peer).len() > 0 || m.dom().contains(
        ServerOption::ReplicationBind,
    ) || m.dom().contains(ServerOption::RoutingTable)
}

/// A complaint, where there is cause for it.
pub open spec fn when(cause: bool, complaint: Seq<char>) -> Seq<Seq<char>> {
    if cause {
        seq![complaint]
    } else {
        Seq::<Seq<char>>::empty()
    }
}

pub open spec fn is_mode(
    m: Map<ServerOption, Setting>,
    o: ServerOption,
    mode: ProductionSecurityMode,
) -> bool {
    setting(m, o) == Some(Setting::Security(mode))
}

pub open spec fn lacks(m: Map<ServerOption, Setting>, o: ServerOption) -> bool {
    !m.dom().contains(o)
}

/// Whether a cluster lacks an option.
pub open spec fn needs(m: Map<ServerOption, Setting>, o: ServerOption) -> bool {
    clustered(m) && lacks(m, o)
}

/// Whether an option is set to a strong token.
pub open spec fn has_strong_token(m: Map<ServerOption, Setting>, o: ServerOption) -> bool {
    text_of(m, o) matches Some(token) && is_strong_token(token)
}

/// What keeps a single server out of production.
pub open spec fn server_issues(m: Map<ServerOption, Setting>) -> Seq<Seq<char>> {
    let data_dir = text_of(m, ServerOption::DataDir)->0;
    Seq::<Seq<char>>::empty() + when(
        is_loopback(text_of(m, ServerOption::Bind)->0),
        "--bind must not be loopback-only for production"@,
    ) + when(!begins(data_dir, "/"@), "--data-dir must be an absolute path for production"@) + when(
        is_scratch_dir(data_dir),
        "--data-dir must not point at a temp/dev data directory"@,
    ) + when(
        lacks(m, ServerOption::WebBind),
        "--web-bind is required for production admin/metrics access"@,
    ) + when(
        text_of(m, ServerOption::WebBind) matches Some(address) && is_loopback(address),
        "--web-bind must not be loopback-only for production"@,
    ) + when(
        !has_strong_token(m, ServerOption::WebAuthToken),
        "--web-auth-token must be set to a non-default token of at least 16 bytes"@,
    ) + when(
        setting(m, ServerOption::ReplicationAck) == Some(Setting::Ack(ReplicationAckPolicy::Async)),
        "--replication-ack async is not production safe"@,
    )
}

/// Whether the settings pin the protocol versions to those that are supported.
pub open spec fn pins_versions(m: Map<ServerOption, Setting>, min: nat, max: nat) -> bool {
    number_of(m, ServerOption::MinNativeProtocolVersion) == Some(min) && number_of(
        m,
        ServerOption::MaxNativeProtocolVersion,
    ) == Some(max)
}

pub open spec fn version_window_complaint(min: nat, max: nat) -> Seq<char> {
    "native protocol compatibility window must be explicitly pinned to "@ + dec(min) + "..="@ + dec(
        max,
    )
}

/// What keeps a cluster out of production for want of protection.
pub open spec fn protection_issues(m: Map<ServerOption, Setting>) -> Seq<Seq<char>> {
    Seq::<Seq<char>>::empty() + when(
        clustered(m) && is_mode(m, ServerOption::TlsMode, ProductionSecurityMode::Disabled),
        "--tls-mode must be external or required for production"@,
    ) + when(
        clustered(m) && is_mode(m, ServerOption::WebTlsMode, ProductionSecurityMode::Disabled),
        "--web-tls-mode must be external or required for production"@,
    ) + when(
        clustered(m) && is_mode(
            m,
            ServerOption::ReplicationTlsMode,
            ProductionSecurityMode::Disabled,
        ),
        "--replication-tls-mode must be external or required for clustered production"@,
    )
}

/// What is wrong with the protocol versions that the settings are pinned to. A cluster
/// has to pin them; a single server may leave them open.
pub open spec fn version_issues(m: Map<ServerOption, Setting>, min: nat, max: nat) -> Seq<
    Seq<char>,
> {
    when(
        !pins_versions(m, min, max) && (clustered(m) || m.dom().contains(
            ServerOption::MinNativeProtocolVersion,
        ) || m.dom().contains(ServerOption::MaxNativeProtocolVersion)),
        version_window_complaint(min, max),
    )
}

/// What a cluster lacks of the means to run it: drills, limits, manifests, alerts and
/// packaging. A single server may do without them, but not name a data format that
/// this release does not have.
pub open spec fn readiness_issues(m: Map<ServerOption, Setting>) -> Seq<Seq<char>> {
    Seq::<Seq<char>>::empty() + when(
        needs(m, ServerOption::BackupDrillMaxAgeHours),
        "--backup-drill-max-age-hours is required for production"@,
    ) + when(
        needs(m, ServerOption::WalArchiveDir),
        "--wal-archive-dir is required for production PITR readiness"@,
    ) + when(
        needs(m, ServerOption::RestoreDrillManifest),
        "--restore-drill-manifest is required for production PITR drills"@,
    ) + when(
        needs(m, ServerOption::AuditRetentionDays),
        "--audit-retention-days is required for production"@,
    ) + when(
        needs(m, ServerOption::SecretRotationDays),
        "--secret-rotation-days is required for production"@,
    ) + when(
        needs(m, ServerOption::TenantMaxConcurrentQueries),
        "--tenant-max-concurrent-queries is required for production"@,
    ) + when(
        needs(m, ServerOption::TenantMaxResultRows),
        "--tenant-max-result-rows is required for production"@,
    ) + when(
        number_of(m, ServerOption::DataFormatVersion) != Some(1nat) && (clustered(m)
            || m.dom().contains(ServerOption::DataFormatVersion)),
        "--data-format-version must be pinned to 1 for this release"@,
    ) + when(
        needs(m, ServerOption::UpgradeManifest),
        "--upgrade-manifest is required for rolling upgrade readiness"@,
    ) + when(
        needs(m, ServerOption::RaftLeaseClockDriftBoundMs),
        "--raft-lease-clock-drift-bound-ms is required for lease reads"@,
    ) + when(
        needs(m, ServerOption::RaftLeaseMessageDelayBoundMs),
        "--raft-lease-message-delay-bound-ms is required for lease reads"@,
    ) + when(
        needs(m, ServerOption::ObservabilityAlerts),
        "--observability-alerts is required for production"@,
    ) + when(
        needs(m, ServerOption::RepairCheckOnStartup),
        "--repair-check-on-startup is required for production"@,
    ) + when(
        needs(m, ServerOption::QueryRegressionCorpus),
        "--query-regression-corpus is required for production"@,
    ) + when(
        needs(m, ServerOption::ChaosGateRequired),
        "--chaos-gate-required is required for production"@,
    ) + when(
        needs(m, ServerOption::Runbook),
        "--runbook is required for production operations"@,
    ) + when(
        needs(m, ServerOption::SystemdUnit),
        "--systemd-unit is required for production packaging"@,
    ) + when(
        needs(m, ServerOption::Logrotate),
        "--logrotate is required for production packaging"@,
    )
}

/// What a cluster lacks of the means to replicate and to find its members.
pub open spec fn cluster_issues(m: Map<ServerOption, Setting>) -> Seq<Seq<char>> {
    Seq::<Seq<char>>::empty() + when(
        lacks(m, ServerOption::ReplicationBind),
        "--replication-bind is required for clustered production"@,
    ) + when(
        lacks(m, ServerOption::GossipIntervalMs),
        "--gossip-interval-ms is required for clustered production"@,
    ) + when(
        peers_of(m, ServerOption::GossipSeedPeer).len() == 0,
        "--gossip-seed-peer is required for clustered production"@,
    ) + when(
        !has_strong_token(m, ServerOption::GossipAuthToken),
        "--gossip-auth-token must be set to a non-default token of at least 16 bytes"@,
    ) + when(
        peers_of(m, ServerOption::ReplicaPeer).len() == 0 && peers_of(m, ServerOption::Peer).len()
            == 0,
        "clustered production requires at least one replication peer"@,
    ) + when(
        lacks(m, ServerOption::CatchUpOnStartup),
        "--catch-up-on-startup is required for clustered production"@,
    ) + when(
        lacks(m, ServerOption::CatchUpIntervalMs),
        "--catch-up-interval-ms is required for clustered production"@,
    ) + when(
        lacks(m, ServerOption::CatchUpBatchSize),
        "--catch-up-batch-size is required for clustered production"@,
    )
}

/// Whether reads go to replicas of which the server knows none.
pub open spec fn reads_without_peers(m: Map<ServerOption, Setting>) -> bool {
    setting(m, ServerOption::ReadPreference) == Some(
        Setting::ReadPreference(QueryReadPreference::PreferReplica),
    ) && peers_of(m, ServerOption::QueryPeer).len() == 0 && peers_of(m, ServerOption::Peer).len()
        == 0
}

/// What keeps the settings out of production, where the release supports the protocol
/// versions from `min` to `max`.
pub open spec fn production_issues(m: Map<ServerOption, Setting>, min: nat, max: nat) -> Seq<
    Seq<char>,
> {
    server_issues(m) + protection_issues(m) + version_issues(m, min, max) + readiness_issues(m) + when(
        reads_without_peers(m),
        "--read-preference prefer-replica requires query peers"@,
    ) + (if clustered(m) {
        cluster_issues(m)
    } else {
        Seq::<Seq<char>>::empty()
    })
}

/// Notes a complaint, where there is cause for it.
fn note(issues: &mut Vec<String>, cause: bool, complaint: &str)
    ensures
        views(final(issues)@) == views(old(issues)@) + when(cause, complaint@),
{
    let ghost before = views(issues@);
    if cause {
        let s = complaint.to_owned();
        proof {
            lemma_views_push(issues@, s);
        }
        issues.push(s);
        assert(views(issues@) =~= before + seq![complaint@]);
    } else {
        assert(before + Seq::<Seq<char>>::empty() =~= before);
    }
}

/// Appends one list of complaints to another.
fn note_all(issues: &mut Vec<String>, more: Vec<String>)
    ensures
        views(final(issues)@) == views(old(issues)@) + views(more@),
{
    let ghost before = issues@;
    let ghost added = more@;
    let mut rest = more;
    issues.append(&mut rest);
    assert(views(before + added) =~= views(before) + views(added));
}

impl ServerArgs {
    /// Whether the arguments ask for more than one server.
    pub fn cluster_requested(&self) -> (r: bool)
        requires
            self.well_formed(),
        ensures
            r == clustered(self@),
    {
        let primary = self.number(ServerOption::PrimaryServerId).unwrap();
        let local = self.number(ServerOption::ServerId).unwrap();
        primary != local || self.has_peers(ServerOption::ReplicaPeer) || self.has_peers(
            ServerOption::Peer,
        ) || self.is_set(ServerOption::ReplicationBind) || self.is_set(ServerOption::RoutingTable)
    }

    fn has_peers(&self, o: ServerOption) -> (r: bool)
        requires
            self.well_formed(),
            o.kind() is Peers,
        ensures
            r == (peers_of(self@, o).len() > 0),
    {
        let peers = self.peers(o);
        assert(peer_views(peers@).len() == peers@.len());
        peers.len() > 0
    }

    fn strong_token(&self, o: ServerOption) -> (r: bool)
        requires
            self.well_formed(),
            o.kind() is Text,
        ensures
            r == has_strong_token(self@, o),
    {
        match self.text(o) {
            Some(token) => is_strong_admin_token(token.as_str()),
            None => false,
        }
    }

    fn disabled(&self, o: ServerOption) -> (r: bool)
        requires
            self.well_formed(),
            o.kind() is Security,
        ensures
            r == is_mode(self@, o, ProductionSecurityMode::Disabled),
    {
        self.security(o) == ProductionSecurityMode::Disabled
    }

    fn unset(&self, o: ServerOption) -> (r: bool)
        requires
            self.well_formed(),
        ensures
            r == lacks(self@, o),
    {
        !self.is_set(o)
    }

    fn note_server_issues(&self) -> (r: Vec<String>)
        requires
            self.well_formed(),
        ensures
            views(r@) == server_issues(self@),
    {
        let bind = self.required_text(ServerOption::Bind);
        let data_dir = self.required_text(ServerOption::DataDir);
        let web_bind = self.text(ServerOption::WebBind);
        let web_local = match &web_bind {
            Some(address) => is_local_bind(address.as_str()),
            None => false,
        };
        let mut r: Vec<String> = Vec::new();
        assert(views(r@) =~= Seq::<Seq<char>>::empty());
        note(
            &mut r,
            is_local_bind(bind.as_str()),
            "--bind must not be loopback-only for production",
        );
        note(
            &mut r,
            !starts_with(data_dir.as_str(), "/"),
            "--data-dir must be an absolute path for production",
        );
        note(
            &mut r,
            is_temp_or_dev_data_dir(data_dir.as_str()),
            "--data-dir must not point at a temp/dev data directory",
        );
        note(
            &mut r,
            self.unset(ServerOption::WebBind),
            "--web-bind is required for production admin/metrics access",
        );
        note(&mut r, web_local, "--web-bind must not be loopback-only for production");
        note(
            &mut r,
            !self.strong_token(ServerOption::WebAuthToken),
            "--web-auth-token must be set to a non-default token of at least 16 bytes",
        );
        note(
            &mut r,
            self.replication_ack_policy() == ReplicationAckPolicy::Async,
            "--replication-ack async is not production safe",
        );
        r
    }

    fn note_protection_issues(&self) -> (r: Vec<String>)
        requires
            self.well_formed(),
        ensures
            views(r@) == protection_issues(self@),
    {
        let cluster = self.cluster_requested();
        let mut r: Vec<String> = Vec::new();
        assert(views(r@) =~= Seq::<Seq<char>>::empty());
        note(
            &mut r,
            cluster && self.disabled(ServerOption::TlsMode),
            "--tls-mode must be external or required for production",
        );
        note(
            &mut r,
            cluster && self.disabled(ServerOption::WebTlsMode),
            "--web-tls-mode must be external or required for production",
        );
        note(
            &mut r,
            cluster && self.disabled(ServerOption::ReplicationTlsMode),
            "--replication-tls-mode must be external or required for clustered production",
        );
        r
    }

    fn is_number(&self, o: ServerOption, n: u64) -> (r: bool)
        requires
            self.well_formed(),
            o.kind() is U64 || o.kind() is Usize || o.kind() is U32 || o.kind() is U8,
        ensures
            r == (number_of(self@, o) == Some(n as nat)),
    {
        match self.number(o) {
            Some(k) => k == n,
            None => false,
        }
    }

    fn misses_versions(&self, min: u8, max: u8) -> (r: bool)
        requires
            self.well_formed(),
        ensures
            version_issues(self@, min as nat, max as nat) == when(
                r,
                version_window_complaint(min as nat, max as nat),
            ),
    {
        let pinned = self.is_number(ServerOption::MinNativeProtocolVersion, min as u64)
            && self.is_number(ServerOption::MaxNativeProtocolVersion, max as u64);
        !pinned && (self.cluster_requested() || self.is_set(ServerOption::MinNativeProtocolVersion)
            || self.is_set(ServerOption::MaxNativeProtocolVersion))
    }

    fn note_readiness_issues(&self) -> (r: Vec<String>)
        requires
            self.well_formed(),
        ensures
            views(r@) == readiness_issues(self@),
    {
        let cluster = self.cluster_requested();
        let mut r: Vec<String> = Vec::new();
        assert(views(r@) =~= Seq::<Seq<char>>::empty());
        note(
            &mut r,
            cluster && self.unset(ServerOption::BackupDrillMaxAgeHours),
            "--backup-drill-max-age-hours is required for production",
        );
        note(
            &mut r,
            cluster && self.unset(ServerOption::WalArchiveDir),
            "--wal-archive-dir is required for production PITR readiness",
        );
        note(
            &mut r,
            cluster && self.unset(ServerOption::RestoreDrillManifest),
            "--restore-drill-manifest is required for production PITR drills",
        );
        note(
            &mut r,
            cluster && self.unset(ServerOption::AuditRetentionDays),
            "--audit-retention-days is required for production",
        );
        note(
            &mut r,
            cluster && self.unset(ServerOption::SecretRotationDays),
            "--secret-rotation-days is required for production",
        );
        note(
            &mut r,
            cluster && self.unset(ServerOption::TenantMaxConcurrentQueries),
            "--tenant-max-concurrent-queries is required for production",
        );
        note(
            &mut r,
            cluster && self.unset(ServerOption::TenantMaxResultRows),
            "--tenant-max-result-rows is required for production",
        );
        note(
            &mut r,
            !self.is_number(ServerOption::DataFormatVersion, 1) && (cluster || self.is_set(
                ServerOption::DataFormatVersion,
            )),
            "--data-format-version must be pinned to 1 for this release",
        );
        note(
            &mut r,
            cluster && self.unset(ServerOption::UpgradeManifest),
            "--upgrade-manifest is required for rolling upgrade readiness",
        );
        note(
            &mut r,
            cluster && self.unset(ServerOption::RaftLeaseClockDriftBoundMs),
            "--raft-lease-clock-drift-bound-ms is required for lease reads",
        );
        note(
            &mut r,
            cluster && self.unset(ServerOption::RaftLeaseMessageDelayBoundMs),
            "--raft-lease-message-delay-bound-ms is required for lease reads",
        );
        note(
            &mut r,
            cluster && self.unset(ServerOption::ObservabilityAlerts),
            "--observability-alerts is required for production",
        );
        note(
            &mut r,
            cluster && self.unset(ServerOption::RepairCheckOnStartup),
            "--repair-check-on-startup is required for production",
        );
        note(
            &mut r,
            cluster && self.unset(ServerOption::QueryRegressionCorpus),
            "--query-regression-corpus is required for production",
        );
        note(
            &mut r,
            cluster && self.unset(ServerOption::ChaosGateRequired),
            "--chaos-gate-required is required for production",
        );
        note(
            &mut r,
            cluster && self.unset(ServerOption::Runbook),
            "--runbook is required for production operations",
        );
        note(
            &mut r,
            cluster && self.unset(ServerOption::SystemdUnit),
            "--systemd-unit is required for production packaging",
        );
        note(
            &mut r,
            cluster && self.unset(ServerOption::Logrotate),
            "--logrotate is required for production packaging",
        );
        r
    }

    fn note_cluster_issues(&self) -> (r: Vec<String>)
        requires
            self.well_formed(),
        ensures
            views(r@) == cluster_issues(self@),
    {
        let mut r: Vec<String> = Vec::new();
        assert(views(r@) =~= Seq::<Seq<char>>::empty());
        note(
            &mut r,
            self.unset(ServerOption::ReplicationBind),
            "--replication-bind is required for clustered production",
        );
        note(
            &mut r,
            self.unset(ServerOption::GossipIntervalMs),
            "--gossip-interval-ms is required for clustered production",
        );
        note(
            &mut r,
            !self.has_peers(ServerOption::GossipSeedPeer),
            "--gossip-seed-peer is required for clustered production",
        );
        note(
            &mut r,
            !self.strong_token(ServerOption::GossipAuthToken),
            "--gossip-auth-token must be set to a non-default token of at least 16 bytes",
        );
        note(
            &mut r,
            !self.has_peers(ServerOption::ReplicaPeer) && !self.has_peers(ServerOption::Peer),
            "clustered production requires at least one replication peer",
        );
        note(
            &mut r,
            self.unset(ServerOption::CatchUpOnStartup),
            "--catch-up-on-startup is required for clustered production",
        );
        note(
            &mut r,
            self.unset(ServerOption::CatchUpIntervalMs),
            "--catch-up-interval-ms is required for clustered production",
        );
        note(
            &mut r,
            self.unset(ServerOption::CatchUpBatchSize),
            "--catch-up-batch-size is required for clustered production",
        );
        r
    }

    /// Checks that the arguments may go into production with a release that supports
    /// the protocol versions from `min` to `max`: a server has to be reachable, to keep
    /// its data in a lasting place and to guard its administration; a cluster has to be
    /// protected and prepared for failures as well.
    pub fn validate_production(&self, min: u8, max: u8) -> (r: Result<(), String>)
        requires
            self.well_formed(),
        ensures
            match r {
                Ok(()) => runtime_problem(self@) is None && production_issues(
                    self@,
                    min as nat,
                    max as nat,
                ).len() == 0,
                Err(e) => match runtime_problem(self@) {
                    Some(problem) => e@ == problem,
                    None => production_issues(self@, min as nat, max as nat).len() > 0 && e@
                        == "production check failed:\n- "@ + join(
                        production_issues(self@, min as nat, max as nat),
                        "\n- "@,
                    ),
                },
            },
    {
        match self.validate_runtime() {
            Err(e) => return Err(e),
            Ok(()) => {},
        }
        let cluster = self.cluster_requested();
        let mut issues = self.note_server_issues();
        note_all(&mut issues, self.note_protection_issues());
        let mut window =
            "native protocol compatibility window must be explicitly pinned to ".to_owned();
        window.append(show(min as u128).as_str());
        window.append("..=");
        window.append(show(max as u128).as_str());
        note(&mut issues, self.misses_versions(min, max), window.as_str());
        note_all(&mut issues, self.note_readiness_issues());
        note(
            &mut issues,
            self.read_preference() == QueryReadPreference::PreferReplica && !self.has_peers(
                ServerOption::QueryPeer,
            ) && !self.has_peers(ServerOption::Peer),
            "--read-preference prefer-replica requires query peers",
        );
        let ghost so_far = views(issues@);
        assert(so_far + Seq::<Seq<char>>::empty() =~= so_far);
        if cluster {
            note_all(&mut issues, self.note_cluster_issues());
        }
        assert(views(issues@).len() == issues@.len());
        if issues.len() > 0 {
            return Err(
                cat("production check failed:\n- ", join_with(issues.as_slice(), "\n- ").as_str()),
            );
        }
        Ok(())
    }
}

} // verus!
