//! What a server tells of itself in numbers.

use vstd::prelude::*;

use crate::json::{json_escape, json_escaped, number_list, show_numbers};
use crate::text::{dec, same, show};
use crate::web::WebMetrics;

verus! {

/// A metric in the text format of metrics.
pub open spec fn metric_text(name: Seq<char>, value: u64) -> Seq<char> {
    "# TYPE "@ + name + " gauge\n"@ + name + " "@ + dec(value as nat) + "\n"@
}

/// Writes a metric.
pub fn prometheus_metric(name: &str, value: u64) -> (r: String)
    ensures
        r@ == metric_text(name@, value),
{
    let mut r = "# TYPE ".to_owned();
    r.append(name);
    r.append(" gauge\n");
    r.append(name);
    r.append(" ");
    r.append(show(value as u128).as_str());
    r.append("\n");
    r
}

/// A metric of a database.
pub open spec fn database_metric_text(name: Seq<char>, database: Seq<char>, value: u64) -> Seq<
    char,
> {
    "# TYPE "@ + name + " gauge\n"@ + name + "{database=\""@ + json_escaped(database) + "\"} "@
        + dec(value as nat) + "\n"@
}

/// Writes a metric of a database.
pub fn prometheus_database_metric(name: &str, database_name: &str, value: u64) -> (r: String)
    ensures
        r@ == database_metric_text(name@, database_name@, value),
{
    let mut r = "# TYPE ".to_owned();
    r.append(name);
    r.append(" gauge\n");
    r.append(name);
    r.append("{database=\"");
    r.append(json_escape(database_name).as_str());
    r.append("\"} ");
    r.append(show(value as u128).as_str());
    r.append("\n");
    r
}

/// A metric of a shard of a database on a server.
pub open spec fn shard_metric_text(
    name: Seq<char>,
    database: Seq<char>,
    shard_id: nat,
    server_id: nat,
    role: Seq<char>,
    value: u64,
) -> Seq<char> {
    "# TYPE "@ + name + " gauge\n"@ + name + "{database=\""@ + json_escaped(database)
        + "\",shard=\""@ + dec(shard_id) + "\",server=\""@ + dec(server_id) + "\",role=\""@
        + json_escaped(role) + "\"} "@ + dec(value as nat) + "\n"@
}

/// Writes a metric of a shard of a database on a server.
pub fn prometheus_shard_metric(
    name: &str,
    database_name: &str,
    shard_id: u64,
    server_id: u64,
    role: &str,
    value: u64,
) -> (r: String)
    ensures
        r@ == shard_metric_text(
            name@,
            database_name@,
            shard_id as nat,
            server_id as nat,
            role@,
            value,
        ),
{
    let mut r = "# TYPE ".to_owned();
    r.append(name);
    r.append(" gauge\n");
    r.append(name);
    r.append("{database=\"");
    r.append(json_escape(database_name).as_str());
    r.append("\",shard=\"");
    r.append(show(shard_id as u128).as_str());
    r.append("\",server=\"");
    r.append(show(server_id as u128).as_str());
    r.append("\",role=\"");
    r.append(json_escape(role).as_str());
    r.append("\"} ");
    r.append(show(value as u128).as_str());
    r.append("\n");
    r
}

/// The greatest of some numbers, or zero where there is none.
pub open spec fn max_or_zero(s: Seq<u64>) -> u64
    decreases s.len(),
{
    if s.len() == 0 {
        0
    } else if s.last() > max_or_zero(s.drop_last()) {
        s.last()
    } else {
        max_or_zero(s.drop_last())
    }
}

/// The greatest of some numbers, or zero.
pub fn greatest(s: &[u64]) -> (r: u64)
    ensures
        r == max_or_zero(s@),
{
    let mut r: u64 = 0;
    let mut i: usize = 0;
    assert(s@.take(0) =~= Seq::<u64>::empty());
    while i < s.len()
        invariant
            0 <= i <= s@.len(),
            r == max_or_zero(s@.take(i as int)),
        decreases s@.len() - i,
    {
        assert(s@.take(i + 1).drop_last() =~= s@.take(i as int));
        assert(s@.take(i + 1).last() == s@[i as int]);
        if s[i] > r {
            r = s[i];
        }
        i = i + 1;
    }
    assert(s@.take(s@.len() as int) =~= s@);
    r
}

/// The metrics of a server at one moment.
pub struct WebMetricsSnapshot {
    pub http_requests: u64,
    pub http_errors: u64,
    pub auth_failures: u64,
    pub auth_rate_limited: u64,
    pub queries: u64,
    pub query_errors: u64,
    pub slow_queries: u64,
    pub slow_query_threshold_ms: u128,
    pub registry_requests: u64,
    pub stale_epoch_rejections: u64,
    pub redirects: u64,
    pub migration_state: String,
    pub db_nodes: usize,
    pub db_relationships: usize,
    pub db_indexes: usize,
    pub db_vector_indexes: usize,
    pub db_shard_count: u64,
    pub db_local_partition_count: usize,
    pub db_committed_indexes: Vec<u64>,
    pub db_applied_indexes: Vec<u64>,
    pub tenant_database_count: usize,
    pub tenant_disabled_count: usize,
    pub index_ready_count: usize,
    pub index_building_count: usize,
    pub index_rebuilding_count: usize,
    pub index_failed_count: usize,
    pub raft_group_count: usize,
    pub raft_leader_count: usize,
    pub raft_term_max: u64,
    pub raft_snapshot_index_max: u64,
    pub raft_joint_consensus_count: usize,
    pub web_user_token_count: usize,
    pub web_audit_event_count: usize,
    pub replication_sent_batches: usize,
    pub replication_acked_batches: usize,
    pub replication_failed_batches: usize,
    pub replication_sent_entries: usize,
    pub replication_sent_bytes: u64,
    pub raft_election_rounds: usize,
    pub raft_append_conflicts: usize,
    pub raft_snapshot_installs: usize,
    pub raft_snapshot_install_millis: u64,
    pub query_plan_cost_model_version: u64,
    pub backup_restore_last_success_timestamp_seconds: u64,
    pub storage_repair_last_success_timestamp_seconds: u64,
    pub storage_repair_failures: u64,
}

/// The first fields of the metrics as a JSON object.
pub open spec fn metrics_json_0(m: WebMetricsSnapshot) -> Seq<char> {
    "{\"http_requests\":"@ + dec(m.http_requests as nat) + ",\"http_errors\":"@
        + dec(m.http_errors as nat) + ",\"auth_failures\":"@ + dec(m.auth_failures as nat)
        + ",\"auth_rate_limited\":"@ + dec(m.auth_rate_limited as nat) + ",\"queries\":"@
        + dec(m.queries as nat) + ",\"query_errors\":"@ + dec(m.query_errors as nat)
        + ",\"slow_queries\":"@ + dec(m.slow_queries as nat) + ",\"slow_query_threshold_ms\":"@
        + dec(m.slow_query_threshold_ms as nat) + ",\"registry_requests\":"@
        + dec(m.registry_requests as nat) + ",\"stale_epoch_rejections\":"@
        + dec(m.stale_epoch_rejections as nat) + ",\"redirects\":"@ + dec(m.redirects as nat)
        + ",\"migration_state\":\""@ + json_escaped(m.migration_state@)
}

/// The first fields of the metrics as a JSON object.
pub open spec fn metrics_json_1(m: WebMetricsSnapshot) -> Seq<char> {
    metrics_json_0(m) + "\",\"db_nodes\":"@ + dec(m.db_nodes as nat) + ",\"db_relationships\":"@
        + dec(m.db_relationships as nat) + ",\"db_indexes\":"@ + dec(m.db_indexes as nat)
        + ",\"db_vector_indexes\":"@ + dec(m.db_vector_indexes as nat) + ",\"db_shard_count\":"@
        + dec(m.db_shard_count as nat) + ",\"db_local_partition_count\":"@
        + dec(m.db_local_partition_count as nat) + ",\"db_committed_indexes\":["@
        + number_list(m.db_committed_indexes@) + "],\"db_applied_indexes\":["@
        + number_list(m.db_applied_indexes@) + "],\"tenant_database_count\":"@
        + dec(m.tenant_database_count as nat) + ",\"tenant_disabled_count\":"@
        + dec(m.tenant_disabled_count as nat) + ",\"index_ready_count\":"@
        + dec(m.index_ready_count as nat) + ",\"index_building_count\":"@
        + dec(m.index_building_count as nat)
}

/// The first fields of the metrics as a JSON object.
pub open spec fn metrics_json_2(m: WebMetricsSnapshot) -> Seq<char> {
    metrics_json_1(m) + ",\"index_rebuilding_count\":"@ + dec(m.index_rebuilding_count as nat)
        + ",\"index_failed_count\":"@ + dec(m.index_failed_count as nat)
        + ",\"raft_group_count\":"@ + dec(m.raft_group_count as nat) + ",\"raft_leader_count\":"@
        + dec(m.raft_leader_count as nat) + ",\"raft_term_max\":"@ + dec(m.raft_term_max as nat)
        + ",\"raft_snapshot_index_max\":"@ + dec(m.raft_snapshot_index_max as nat)
        + ",\"raft_joint_consensus_count\":"@ + dec(m.raft_joint_consensus_count as nat)
        + ",\"web_user_token_count\":"@ + dec(m.web_user_token_count as nat)
        + ",\"web_audit_event_count\":"@ + dec(m.web_audit_event_count as nat)
        + ",\"replication_sent_batches\":"@ + dec(m.replication_sent_batches as nat)
        + ",\"replication_acked_batches\":"@ + dec(m.replication_acked_batches as nat)
        + ",\"replication_failed_batches\":"@ + dec(m.replication_failed_batches as nat)
}

/// The metrics as a JSON object.
pub open spec fn metrics_body(m: WebMetricsSnapshot) -> Seq<char> {
    metrics_json_2(m) + ",\"replication_sent_entries\":"@ + dec(m.replication_sent_entries as nat)
        + ",\"replication_sent_bytes\":"@ + dec(m.replication_sent_bytes as nat)
        + ",\"raft_election_rounds\":"@ + dec(m.raft_election_rounds as nat)
        + ",\"raft_append_conflicts\":"@ + dec(m.raft_append_conflicts as nat)
        + ",\"raft_snapshot_installs\":"@ + dec(m.raft_snapshot_installs as nat)
        + ",\"raft_snapshot_install_millis\":"@ + dec(m.raft_snapshot_install_millis as nat)
        + ",\"query_plan_cost_model_version\":"@ + dec(m.query_plan_cost_model_version as nat)
        + ",\"backup_restore_last_success_timestamp_seconds\":"@
        + dec(m.backup_restore_last_success_timestamp_seconds as nat)
        + ",\"storage_repair_last_success_timestamp_seconds\":"@
        + dec(m.storage_repair_last_success_timestamp_seconds as nat)
        + ",\"storage_repair_failures\":"@ + dec(m.storage_repair_failures as nat) + "}"@
}

/// The first metrics of the server.
pub open spec fn gauges_0(m: WebMetricsSnapshot) -> Seq<char> {
    metric_text("neo4r_http_requests_total"@, m.http_requests)
        + metric_text("neo4r_http_errors_total"@, m.http_errors)
        + metric_text("neo4r_auth_failures_total"@, m.auth_failures)
        + metric_text("neo4r_auth_rate_limited_total"@, m.auth_rate_limited)
        + metric_text("neo4r_queries_total"@, m.queries)
        + metric_text("neo4r_query_errors_total"@, m.query_errors)
        + metric_text("neo4r_slow_queries_total"@, m.slow_queries)
        + metric_text("neo4r_slow_query_threshold_ms"@, m.slow_query_threshold_ms as u64)
        + metric_text("neo4r_registry_requests_total"@, m.registry_requests)
        + metric_text("neo4r_stale_epoch_rejections_total"@, m.stale_epoch_rejections)
        + metric_text("neo4r_redirects_total"@, m.redirects)
        + metric_text("neo4r_db_nodes"@, m.db_nodes as u64)
}

/// The first metrics of the server.
pub open spec fn gauges_1(m: WebMetricsSnapshot) -> Seq<char> {
    gauges_0(m) + metric_text("neo4r_db_relationships"@, m.db_relationships as u64)
        + metric_text("neo4r_db_indexes"@, m.db_indexes as u64)
        + metric_text("neo4r_db_vector_indexes"@, m.db_vector_indexes as u64)
        + metric_text("neo4r_db_shards"@, m.db_shard_count)
        + metric_text("neo4r_db_local_partitions"@, m.db_local_partition_count as u64)
        + metric_text("neo4r_db_committed_index_max"@, max_or_zero(m.db_committed_indexes@))
        + metric_text("neo4r_db_applied_index_max"@, max_or_zero(m.db_applied_indexes@))
        + metric_text("neo4r_tenant_databases"@, m.tenant_database_count as u64)
        + metric_text("neo4r_tenant_disabled_databases"@, m.tenant_disabled_count as u64)
        + metric_text("neo4r_index_ready"@, m.index_ready_count as u64)
        + metric_text("neo4r_index_building"@, m.index_building_count as u64)
        + metric_text("neo4r_index_rebuilding"@, m.index_rebuilding_count as u64)
}

/// The first metrics of the server.
pub open spec fn gauges_2(m: WebMetricsSnapshot) -> Seq<char> {
    gauges_1(m) + metric_text("neo4r_index_failed"@, m.index_failed_count as u64)
        + metric_text("neo4r_raft_groups"@, m.raft_group_count as u64)
        + metric_text("neo4r_raft_leaders"@, m.raft_leader_count as u64)
        + metric_text("neo4r_raft_term_max"@, m.raft_term_max)
        + metric_text("neo4r_raft_snapshot_index_max"@, m.raft_snapshot_index_max)
        + metric_text("neo4r_raft_joint_consensus_groups"@, m.raft_joint_consensus_count as u64)
        + metric_text("neo4r_web_user_tokens"@, m.web_user_token_count as u64)
        + metric_text("neo4r_web_audit_events"@, m.web_audit_event_count as u64)
        + metric_text("neo4r_replication_channel_sent_batches_total"@, m.replication_sent_batches as u64)
        + metric_text("neo4r_replication_channel_acked_batches_total"@, m.replication_acked_batches as u64)
        + metric_text("neo4r_replication_channel_failed_batches_total"@, m.replication_failed_batches as u64)
        + metric_text("neo4r_replication_channel_sent_entries_total"@, m.replication_sent_entries as u64)
}

/// The metrics of the server.
pub open spec fn gauges(m: WebMetricsSnapshot) -> Seq<char> {
    gauges_2(m)
        + metric_text("neo4r_replication_channel_sent_bytes_total"@, m.replication_sent_bytes)
        + metric_text("neo4r_raft_election_rounds_total"@, m.raft_election_rounds as u64)
        + metric_text("neo4r_raft_append_conflicts_total"@, m.raft_append_conflicts as u64)
        + metric_text("neo4r_raft_snapshot_installs_total"@, m.raft_snapshot_installs as u64)
        + metric_text("neo4r_raft_snapshot_install_duration_ms_total"@, m.raft_snapshot_install_millis)
        + metric_text("neo4r_query_plan_cost_model_version"@, m.query_plan_cost_model_version)
        + metric_text("neo4r_backup_restore_last_success_timestamp_seconds"@, m.backup_restore_last_success_timestamp_seconds)
        + metric_text("neo4r_storage_repair_last_success_timestamp_seconds"@, m.storage_repair_last_success_timestamp_seconds)
        + metric_text("neo4r_storage_repair_failures_total"@, m.storage_repair_failures)
}

/// The metrics of the database.
pub open spec fn database_gauges(m: WebMetricsSnapshot, database: Seq<char>) -> Seq<char> {
    database_metric_text("neo4r_database_db_nodes"@, database, m.db_nodes as u64)
        + database_metric_text(
        "neo4r_database_db_relationships"@,
        database,
        m.db_relationships as u64,
    ) + database_metric_text(
        "neo4r_database_committed_index_max"@,
        database,
        max_or_zero(m.db_committed_indexes@),
    ) + database_metric_text(
        "neo4r_database_applied_index_max"@,
        database,
        max_or_zero(m.db_applied_indexes@),
    ) + database_metric_text("neo4r_database_raft_groups"@, database, m.raft_group_count as u64)
}

/// A metric of the first shards.
pub open spec fn shard_gauges(
    name: Seq<char>,
    database: Seq<char>,
    server_id: nat,
    values: Seq<u64>,
) -> Seq<char>
    decreases values.len(),
{
    if values.len() == 0 {
        Seq::<char>::empty()
    } else {
        shard_gauges(name, database, server_id, values.drop_last()) + shard_metric_text(
            name,
            database,
            (values.len() - 1) as nat,
            server_id,
            "unknown"@,
            values.last(),
        )
    }
}

/// The number at a place, or zero where there is none.
pub open spec fn at_or_zero(s: Seq<u64>, i: int) -> u64 {
    if 0 <= i < s.len() {
        s[i]
    } else {
        0
    }
}

/// How far each shard has still to go.
pub open spec fn lags(committed: Seq<u64>, applied: Seq<u64>) -> Seq<u64> {
    let n = if committed.len() > applied.len() {
        committed.len()
    } else {
        applied.len()
    };
    Seq::new(
        n,
        |i: int|
            if at_or_zero(committed, i) > at_or_zero(applied, i) {
                (at_or_zero(committed, i) - at_or_zero(applied, i)) as u64
            } else {
                0
            },
    )
}

fn shard_lags(committed: &[u64], applied: &[u64]) -> (r: Vec<u64>)
    ensures
        r@ == lags(committed@, applied@),
{
    let n: usize = if committed.len() > applied.len() { committed.len() } else { applied.len() };
    let mut r: Vec<u64> = Vec::new();
    let mut i: usize = 0;
    let ghost all = lags(committed@, applied@);
    assert(r@ =~= all.take(0));
    while i < n
        invariant
            0 <= i <= n,
            n == all.len(),
            all == lags(committed@, applied@),
            r@ == all.take(i as int),
        decreases n - i,
    {
        let c: u64 = if i < committed.len() { committed[i] } else { 0 };
        let a: u64 = if i < applied.len() { applied[i] } else { 0 };
        let lag: u64 = if c > a { c - a } else { 0 };
        assert(all[i as int] == lag);
        r.push(lag);
        assert(all.take(i + 1) =~= all.take(i as int).push(lag));
        i = i + 1;
    }
    assert(all.take(n as int) =~= all);
    r
}

fn show_shard_gauges(name: &str, database: &str, server_id: u64, values: &[u64]) -> (r: String)
    ensures
        r@ == shard_gauges(name@, database@, server_id as nat, values@),
{
    let mut r = String::new();
    let mut i: usize = 0;
    assert(r@ =~= shard_gauges(name@, database@, server_id as nat, values@.take(0)));
    while i < values.len()
        invariant
            0 <= i <= values@.len(),
            r@ == shard_gauges(name@, database@, server_id as nat, values@.take(i as int)),
        decreases values@.len() - i,
    {
        assert(values@.take(i + 1).drop_last() =~= values@.take(i as int));
        assert(values@.take(i + 1).last() == values@[i as int]);
        r.append(
            prometheus_shard_metric(
                name,
                database,
                i as u64,
                server_id,
                "unknown",
                values[i],
            ).as_str(),
        );
        i = i + 1;
    }
    assert(values@.take(values@.len() as int) =~= values@);
    r
}

/// All metrics in the text format of metrics.
pub open spec fn prometheus_text(
    m: WebMetricsSnapshot,
    database: Seq<char>,
    server_id: nat,
) -> Seq<char> {
    gauges(m) + database_gauges(m, database) + shard_gauges(
        "neo4r_database_shard_committed_index"@,
        database,
        server_id,
        m.db_committed_indexes@,
    ) + shard_gauges(
        "neo4r_database_shard_applied_index"@,
        database,
        server_id,
        m.db_applied_indexes@,
    ) + shard_gauges(
        "neo4r_database_shard_lag"@,
        database,
        server_id,
        lags(m.db_committed_indexes@, m.db_applied_indexes@),
    )
}

impl WebMetricsSnapshot {
    /// Writes the metrics as a JSON object.
    #[verifier::spinoff_prover]
    #[verifier::rlimit(60)]
    pub fn to_json(&self) -> (r: String)
        ensures
            r@ == metrics_body(*self),
    {
        let mut r = "{\"http_requests\":".to_owned();
        r.append(show(self.http_requests as u128).as_str());
        r.append(",\"http_errors\":");
        r.append(show(self.http_errors as u128).as_str());
        r.append(",\"auth_failures\":");
        r.append(show(self.auth_failures as u128).as_str());
        r.append(",\"auth_rate_limited\":");
        r.append(show(self.auth_rate_limited as u128).as_str());
        r.append(",\"queries\":");
        r.append(show(self.queries as u128).as_str());
        r.append(",\"query_errors\":");
        r.append(show(self.query_errors as u128).as_str());
        r.append(",\"slow_queries\":");
        r.append(show(self.slow_queries as u128).as_str());
        r.append(",\"slow_query_threshold_ms\":");
        r.append(show(self.slow_query_threshold_ms).as_str());
        r.append(",\"registry_requests\":");
        r.append(show(self.registry_requests as u128).as_str());
        r.append(",\"stale_epoch_rejections\":");
        r.append(show(self.stale_epoch_rejections as u128).as_str());
        r.append(",\"redirects\":");
        r.append(show(self.redirects as u128).as_str());
        r.append(",\"migration_state\":\"");
        r.append(json_escape(self.migration_state.as_str()).as_str());
        assert(r@ == metrics_json_0(*self));
        r.append("\",\"db_nodes\":");
        r.append(show(self.db_nodes as u128).as_str());
        r.append(",\"db_relationships\":");
        r.append(show(self.db_relationships as u128).as_str());
        r.append(",\"db_indexes\":");
        r.append(show(self.db_indexes as u128).as_str());
        r.append(",\"db_vector_indexes\":");
        r.append(show(self.db_vector_indexes as u128).as_str());
        r.append(",\"db_shard_count\":");
        r.append(show(self.db_shard_count as u128).as_str());
        r.append(",\"db_local_partition_count\":");
        r.append(show(self.db_local_partition_count as u128).as_str());
        r.append(",\"db_committed_indexes\":[");
        r.append(show_numbers(self.db_committed_indexes.as_slice()).as_str());
        r.append("],\"db_applied_indexes\":[");
        r.append(show_numbers(self.db_applied_indexes.as_slice()).as_str());
        r.append("],\"tenant_database_count\":");
        r.append(show(self.tenant_database_count as u128).as_str());
        r.append(",\"tenant_disabled_count\":");
        r.append(show(self.tenant_disabled_count as u128).as_str());
        r.append(",\"index_ready_count\":");
        r.append(show(self.index_ready_count as u128).as_str());
        r.append(",\"index_building_count\":");
        r.append(show(self.index_building_count as u128).as_str());
        assert(r@ == metrics_json_1(*self));
        r.append(",\"index_rebuilding_count\":");
        r.append(show(self.index_rebuilding_count as u128).as_str());
        r.append(",\"index_failed_count\":");
        r.append(show(self.index_failed_count as u128).as_str());
        r.append(",\"raft_group_count\":");
        r.append(show(self.raft_group_count as u128).as_str());
        r.append(",\"raft_leader_count\":");
        r.append(show(self.raft_leader_count as u128).as_str());
        r.append(",\"raft_term_max\":");
        r.append(show(self.raft_term_max as u128).as_str());
        r.append(",\"raft_snapshot_index_max\":");
        r.append(show(self.raft_snapshot_index_max as u128).as_str());
        r.append(",\"raft_joint_consensus_count\":");
        r.append(show(self.raft_joint_consensus_count as u128).as_str());
        r.append(",\"web_user_token_count\":");
        r.append(show(self.web_user_token_count as u128).as_str());
        r.append(",\"web_audit_event_count\":");
        r.append(show(self.web_audit_event_count as u128).as_str());
        r.append(",\"replication_sent_batches\":");
        r.append(show(self.replication_sent_batches as u128).as_str());
        r.append(",\"replication_acked_batches\":");
        r.append(show(self.replication_acked_batches as u128).as_str());
        r.append(",\"replication_failed_batches\":");
        r.append(show(self.replication_failed_batches as u128).as_str());
        assert(r@ == metrics_json_2(*self));
        r.append(",\"replication_sent_entries\":");
        r.append(show(self.replication_sent_entries as u128).as_str());
        r.append(",\"replication_sent_bytes\":");
        r.append(show(self.replication_sent_bytes as u128).as_str());
        r.append(",\"raft_election_rounds\":");
        r.append(show(self.raft_election_rounds as u128).as_str());
        r.append(",\"raft_append_conflicts\":");
        r.append(show(self.raft_append_conflicts as u128).as_str());
        r.append(",\"raft_snapshot_installs\":");
        r.append(show(self.raft_snapshot_installs as u128).as_str());
        r.append(",\"raft_snapshot_install_millis\":");
        r.append(show(self.raft_snapshot_install_millis as u128).as_str());
        r.append(",\"query_plan_cost_model_version\":");
        r.append(show(self.query_plan_cost_model_version as u128).as_str());
        r.append(",\"backup_restore_last_success_timestamp_seconds\":");
        r.append(show(self.backup_restore_last_success_timestamp_seconds as u128).as_str());
        r.append(",\"storage_repair_last_success_timestamp_seconds\":");
        r.append(show(self.storage_repair_last_success_timestamp_seconds as u128).as_str());
        r.append(",\"storage_repair_failures\":");
        r.append(show(self.storage_repair_failures as u128).as_str());
        r.append("}");
        r
    }

    #[verifier::spinoff_prover]
    #[verifier::rlimit(60)]
    fn show_gauges(&self) -> (r: String)
        ensures
            r@ == gauges(*self),
    {
        let committed_max = greatest(self.db_committed_indexes.as_slice());
        let applied_max = greatest(self.db_applied_indexes.as_slice());
        let mut r = prometheus_metric("neo4r_http_requests_total", self.http_requests);
        r.append(prometheus_metric("neo4r_http_errors_total", self.http_errors).as_str());
        r.append(prometheus_metric("neo4r_auth_failures_total", self.auth_failures).as_str());
        r.append(prometheus_metric("neo4r_auth_rate_limited_total", self.auth_rate_limited).as_str());
        r.append(prometheus_metric("neo4r_queries_total", self.queries).as_str());
        r.append(prometheus_metric("neo4r_query_errors_total", self.query_errors).as_str());
        r.append(prometheus_metric("neo4r_slow_queries_total", self.slow_queries).as_str());
        r.append(prometheus_metric("neo4r_slow_query_threshold_ms", self.slow_query_threshold_ms as u64).as_str());
        r.append(prometheus_metric("neo4r_registry_requests_total", self.registry_requests).as_str());
        r.append(prometheus_metric("neo4r_stale_epoch_rejections_total", self.stale_epoch_rejections).as_str());
        r.append(prometheus_metric("neo4r_redirects_total", self.redirects).as_str());
        r.append(prometheus_metric("neo4r_db_nodes", self.db_nodes as u64).as_str());
        assert(r@ == gauges_0(*self));
        r.append(prometheus_metric("neo4r_db_relationships", self.db_relationships as u64).as_str());
        r.append(prometheus_metric("neo4r_db_indexes", self.db_indexes as u64).as_str());
        r.append(prometheus_metric("neo4r_db_vector_indexes", self.db_vector_indexes as u64).as_str());
        r.append(prometheus_metric("neo4r_db_shards", self.db_shard_count).as_str());
        r.append(prometheus_metric("neo4r_db_local_partitions", self.db_local_partition_count as u64).as_str());
        r.append(prometheus_metric("neo4r_db_committed_index_max", committed_max).as_str());
        r.append(prometheus_metric("neo4r_db_applied_index_max", applied_max).as_str());
        r.append(prometheus_metric("neo4r_tenant_databases", self.tenant_database_count as u64).as_str());
        r.append(prometheus_metric("neo4r_tenant_disabled_databases", self.tenant_disabled_count as u64).as_str());
        r.append(prometheus_metric("neo4r_index_ready", self.index_ready_count as u64).as_str());
        r.append(prometheus_metric("neo4r_index_building", self.index_building_count as u64).as_str());
        r.append(prometheus_metric("neo4r_index_rebuilding", self.index_rebuilding_count as u64).as_str());
        assert(r@ == gauges_1(*self));
        r.append(prometheus_metric("neo4r_index_failed", self.index_failed_count as u64).as_str());
        r.append(prometheus_metric("neo4r_raft_groups", self.raft_group_count as u64).as_str());
        r.append(prometheus_metric("neo4r_raft_leaders", self.raft_leader_count as u64).as_str());
        r.append(prometheus_metric("neo4r_raft_term_max", self.raft_term_max).as_str());
        r.append(prometheus_metric("neo4r_raft_snapshot_index_max", self.raft_snapshot_index_max).as_str());
        r.append(prometheus_metric("neo4r_raft_joint_consensus_groups", self.raft_joint_consensus_count as u64).as_str());
        r.append(prometheus_metric("neo4r_web_user_tokens", self.web_user_token_count as u64).as_str());
        r.append(prometheus_metric("neo4r_web_audit_events", self.web_audit_event_count as u64).as_str());
        r.append(prometheus_metric("neo4r_replication_channel_sent_batches_total", self.replication_sent_batches as u64).as_str());
        r.append(prometheus_metric("neo4r_replication_channel_acked_batches_total", self.replication_acked_batches as u64).as_str());
        r.append(prometheus_metric("neo4r_replication_channel_failed_batches_total", self.replication_failed_batches as u64).as_str());
        r.append(prometheus_metric("neo4r_replication_channel_sent_entries_total", self.replication_sent_entries as u64).as_str());
        assert(r@ == gauges_2(*self));
        r.append(prometheus_metric("neo4r_replication_channel_sent_bytes_total", self.replication_sent_bytes).as_str());
        r.append(prometheus_metric("neo4r_raft_election_rounds_total", self.raft_election_rounds as u64).as_str());
        r.append(prometheus_metric("neo4r_raft_append_conflicts_total", self.raft_append_conflicts as u64).as_str());
        r.append(prometheus_metric("neo4r_raft_snapshot_installs_total", self.raft_snapshot_installs as u64).as_str());
        r.append(prometheus_metric("neo4r_raft_snapshot_install_duration_ms_total", self.raft_snapshot_install_millis).as_str());
        r.append(prometheus_metric("neo4r_query_plan_cost_model_version", self.query_plan_cost_model_version).as_str());
        r.append(prometheus_metric("neo4r_backup_restore_last_success_timestamp_seconds", self.backup_restore_last_success_timestamp_seconds).as_str());
        r.append(prometheus_metric("neo4r_storage_repair_last_success_timestamp_seconds", self.storage_repair_last_success_timestamp_seconds).as_str());
        r.append(prometheus_metric("neo4r_storage_repair_failures_total", self.storage_repair_failures).as_str());
        r
    }

    fn show_database_gauges(&self, database_name: &str) -> (r: String)
        ensures
            r@ == database_gauges(*self, database_name@),
    {
        let mut r = prometheus_database_metric(
            "neo4r_database_db_nodes",
            database_name,
            self.db_nodes as u64,
        );
        r.append(
            prometheus_database_metric(
                "neo4r_database_db_relationships",
                database_name,
                self.db_relationships as u64,
            ).as_str(),
        );
        r.append(
            prometheus_database_metric(
                "neo4r_database_committed_index_max",
                database_name,
                greatest(self.db_committed_indexes.as_slice()),
            ).as_str(),
        );
        r.append(
            prometheus_database_metric(
                "neo4r_database_applied_index_max",
                database_name,
                greatest(self.db_applied_indexes.as_slice()),
            ).as_str(),
        );
        r.append(
            prometheus_database_metric(
                "neo4r_database_raft_groups",
                database_name,
                self.raft_group_count as u64,
            ).as_str(),
        );
        r
    }

    /// Writes the metrics in the text format of metrics.
    #[verifier::spinoff_prover]
    #[verifier::rlimit(60)]
    pub fn to_prometheus(&self, database_name: &str, server_id: u64) -> (r: String)
        ensures
            r@ == prometheus_text(*self, database_name@, server_id as nat),
    {
        let committed = self.db_committed_indexes.as_slice();
        let applied = self.db_applied_indexes.as_slice();
        let mut r = self.show_gauges();
        r.append(self.show_database_gauges(database_name).as_str());
        r.append(
            show_shard_gauges(
                "neo4r_database_shard_committed_index",
                database_name,
                server_id,
                committed,
            ).as_str(),
        );
        r.append(
            show_shard_gauges(
                "neo4r_database_shard_applied_index",
                database_name,
                server_id,
                applied,
            ).as_str(),
        );
        let lag = shard_lags(committed, applied);
        r.append(
            show_shard_gauges(
                "neo4r_database_shard_lag",
                database_name,
                server_id,
                lag.as_slice(),
            ).as_str(),
        );
        r
    }
}

/// What the statistics of a database count.
#[derive(Clone, Copy)]
pub struct StatisticsCounts {
    pub node_count: usize,
    pub relationship_count: usize,
    pub index_count: usize,
    pub vector_index_count: usize,
}

/// What replication has sent.
#[derive(Clone, Copy)]
pub struct ReplicationCounts {
    pub sent_batches: usize,
    pub acked_batches: usize,
    pub failed_batches: usize,
    pub sent_entries: usize,
    pub sent_bytes: u64,
    pub election_rounds: usize,
    pub append_conflicts: usize,
    pub snapshot_installs: usize,
    pub snapshot_install_millis: u64,
}

/// The state of the consensus of a shard.
pub struct RaftShard {
    pub shard_id: u64,
    pub term: u64,
    pub role: String,
    pub leader_id: Option<u64>,
    pub commit_index: u64,
    pub last_log_index: u64,
    pub snapshot_index: u64,
    pub joint_consensus: bool,
    pub leader_lease_remaining_ms: u64,
}

/// What is known of a server and its database when its metrics are taken.
pub struct MetricsFacts {
    pub statistics: Option<StatisticsCounts>,
    pub committed_indexes: Vec<u64>,
    pub applied_indexes: Vec<u64>,
    /// The states of the indexes.
    pub index_states: Vec<String>,
    /// Whether each database is disabled, where there are several.
    pub tenants_disabled: Option<Vec<bool>>,
    pub raft: Vec<RaftShard>,
    /// The state of a rebalance, where there is one.
    pub rebalance_state: Option<String>,
    pub web_user_token_count: Option<usize>,
    /// The actions of the audit log.
    pub audit_actions: Vec<String>,
    pub latest_backup_or_restore_seconds: u64,
    pub latest_repair_seconds: u64,
    pub replication: Option<ReplicationCounts>,
    pub shard_count: u64,
    pub local_partition_count: usize,
    pub slow_query_threshold_ms: u128,
}

/// How many of the first texts are the given one.
pub open spec fn count_text(s: Seq<Seq<char>>, t: Seq<char>) -> nat
    decreases s.len(),
{
    if s.len() == 0 {
        0
    } else {
        count_text(s.drop_last(), t) + (if s.last() == t {
            1nat
        } else {
            0nat
        })
    }
}

/// How many of the first flags are set.
pub open spec fn count_set(s: Seq<bool>) -> nat
    decreases s.len(),
{
    if s.len() == 0 {
        0
    } else {
        count_set(s.drop_last()) + (if s.last() {
            1nat
        } else {
            0nat
        })
    }
}

fn count_texts(s: &[String], t: &str) -> (n: usize)
    ensures
        n == count_text(crate::text::views(s@), t@),
{
    let mut n: usize = 0;
    let mut i: usize = 0;
    let ghost all = crate::text::views(s@);
    assert(all.take(0) =~= Seq::<Seq<char>>::empty());
    while i < s.len()
        invariant
            0 <= i <= s@.len(),
            all == crate::text::views(s@),
            n <= i,
            n == count_text(all.take(i as int), t@),
        decreases s@.len() - i,
    {
        assert(all.take(i + 1).drop_last() =~= all.take(i as int));
        assert(all.take(i + 1).last() == s@[i as int]@);
        if same(s[i].as_str(), t) {
            n = n + 1;
        }
        i = i + 1;
    }
    assert(all.take(all.len() as int) =~= all);
    n
}

fn count_flags(s: &[bool]) -> (n: usize)
    ensures
        n == count_set(s@),
{
    let mut n: usize = 0;
    let mut i: usize = 0;
    assert(s@.take(0) =~= Seq::<bool>::empty());
    while i < s.len()
        invariant
            0 <= i <= s@.len(),
            n <= i,
            n == count_set(s@.take(i as int)),
        decreases s@.len() - i,
    {
        assert(s@.take(i + 1).drop_last() =~= s@.take(i as int));
        assert(s@.take(i + 1).last() == s@[i as int]);
        if s[i] {
            n = n + 1;
        }
        i = i + 1;
    }
    assert(s@.take(s@.len() as int) =~= s@);
    n
}

/// The roles of the shards.
pub open spec fn raft_roles(raft: Seq<RaftShard>) -> Seq<Seq<char>> {
    raft.map_values(|r: RaftShard| r.role@)
}

/// The terms of the shards.
pub open spec fn raft_terms(raft: Seq<RaftShard>) -> Seq<u64> {
    raft.map_values(|r: RaftShard| r.term)
}

/// Where the snapshots of the shards end.
pub open spec fn raft_snapshots(raft: Seq<RaftShard>) -> Seq<u64> {
    raft.map_values(|r: RaftShard| r.snapshot_index)
}

/// Whether each shard changes its members.
pub open spec fn raft_joint(raft: Seq<RaftShard>) -> Seq<bool> {
    raft.map_values(|r: RaftShard| r.joint_consensus)
}

struct RaftSummary {
    leaders: usize,
    term_max: u64,
    snapshot_max: u64,
    joint: usize,
}

fn raft_summary(raft: &[RaftShard]) -> (r: RaftSummary)
    ensures
        r.leaders == count_text(raft_roles(raft@), "Leader"@),
        r.term_max == max_or_zero(raft_terms(raft@)),
        r.snapshot_max == max_or_zero(raft_snapshots(raft@)),
        r.joint == count_set(raft_joint(raft@)),
{
    let mut r = RaftSummary { leaders: 0, term_max: 0, snapshot_max: 0, joint: 0 };
    let mut i: usize = 0;
    let ghost roles = raft_roles(raft@);
    let ghost terms = raft_terms(raft@);
    let ghost snapshots = raft_snapshots(raft@);
    let ghost joint = raft_joint(raft@);
    proof {
        assert(roles.take(0) =~= Seq::<Seq<char>>::empty());
        assert(terms.take(0) =~= Seq::<u64>::empty());
        assert(snapshots.take(0) =~= Seq::<u64>::empty());
        assert(joint.take(0) =~= Seq::<bool>::empty());
    }
    while i < raft.len()
        invariant
            0 <= i <= raft@.len(),
            roles == raft_roles(raft@),
            terms == raft_terms(raft@),
            snapshots == raft_snapshots(raft@),
            joint == raft_joint(raft@),
            r.leaders <= i,
            r.joint <= i,
            r.leaders == count_text(roles.take(i as int), "Leader"@),
            r.term_max == max_or_zero(terms.take(i as int)),
            r.snapshot_max == max_or_zero(snapshots.take(i as int)),
            r.joint == count_set(joint.take(i as int)),
        decreases raft@.len() - i,
    {
        proof {
            assert(roles.take(i + 1).drop_last() =~= roles.take(i as int));
            assert(terms.take(i + 1).drop_last() =~= terms.take(i as int));
            assert(snapshots.take(i + 1).drop_last() =~= snapshots.take(i as int));
            assert(joint.take(i + 1).drop_last() =~= joint.take(i as int));
            assert(roles.take(i + 1).last() == raft@[i as int].role@);
            assert(terms.take(i + 1).last() == raft@[i as int].term);
            assert(snapshots.take(i + 1).last() == raft@[i as int].snapshot_index);
            assert(joint.take(i + 1).last() == raft@[i as int].joint_consensus);
        }
        if same(raft[i].role.as_str(), "Leader") {
            r.leaders = r.leaders + 1;
        }
        if raft[i].term > r.term_max {
            r.term_max = raft[i].term;
        }
        if raft[i].snapshot_index > r.snapshot_max {
            r.snapshot_max = raft[i].snapshot_index;
        }
        if raft[i].joint_consensus {
            r.joint = r.joint + 1;
        }
        i = i + 1;
    }
    proof {
        assert(roles.take(roles.len() as int) =~= roles);
        assert(terms.take(terms.len() as int) =~= terms);
        assert(snapshots.take(snapshots.len() as int) =~= snapshots);
        assert(joint.take(joint.len() as int) =~= joint);
    }
    r
}

/// The statistics of a database, or none at all.
pub open spec fn statistics_or_none(s: Option<StatisticsCounts>) -> StatisticsCounts {
    match s {
        Some(c) => c,
        None => StatisticsCounts {
            node_count: 0,
            relationship_count: 0,
            index_count: 0,
            vector_index_count: 0,
        },
    }
}

/// What replication has sent, or nothing.
pub open spec fn replication_or_none(s: Option<ReplicationCounts>) -> ReplicationCounts {
    match s {
        Some(c) => c,
        None => ReplicationCounts {
            sent_batches: 0,
            acked_batches: 0,
            failed_batches: 0,
            sent_entries: 0,
            sent_bytes: 0,
            election_rounds: 0,
            append_conflicts: 0,
            snapshot_installs: 0,
            snapshot_install_millis: 0,
        },
    }
}

/// Whether the counts of the web interface are those of a snapshot.
pub open spec fn counts_taken(m: WebMetricsSnapshot, counts: WebMetrics) -> bool {
    m.http_requests == counts.http_requests && m.http_errors == counts.http_errors
        && m.auth_failures == counts.auth_failures && m.auth_rate_limited
        == counts.auth_rate_limited && m.queries == counts.queries && m.query_errors
        == counts.query_errors && m.slow_queries == counts.slow_queries && m.registry_requests
        == counts.registry_requests && m.stale_epoch_rejections == counts.stale_epoch_rejections
        && m.redirects == counts.redirects
}

/// Whether a snapshot tells of the database what is known of it.
pub open spec fn database_taken(m: WebMetricsSnapshot, f: MetricsFacts) -> bool {
    let s = statistics_or_none(f.statistics);
    &&& m.db_nodes == s.node_count
    &&& m.db_relationships == s.relationship_count
    &&& m.db_indexes == s.index_count
    &&& m.db_vector_indexes == s.vector_index_count
    &&& m.db_shard_count == f.shard_count
    &&& m.db_local_partition_count == f.local_partition_count
    &&& m.db_committed_indexes@ == f.committed_indexes@
    &&& m.db_applied_indexes@ == f.applied_indexes@
    &&& m.index_ready_count == count_text(crate::text::views(f.index_states@), "ready"@)
    &&& m.index_building_count == count_text(crate::text::views(f.index_states@), "building"@)
    &&& m.index_rebuilding_count == count_text(crate::text::views(f.index_states@), "rebuilding"@)
    &&& m.index_failed_count == count_text(crate::text::views(f.index_states@), "failed"@)
    &&& m.tenant_database_count == (match f.tenants_disabled {
        Some(t) => t@.len(),
        None => 1,
    })
    &&& m.tenant_disabled_count == (match f.tenants_disabled {
        Some(t) => count_set(t@),
        None => 0,
    })
    &&& m.slow_query_threshold_ms == f.slow_query_threshold_ms
    &&& m.query_plan_cost_model_version == 3
}

/// Whether a snapshot tells of the cluster what is known of it.
pub open spec fn cluster_taken(m: WebMetricsSnapshot, f: MetricsFacts) -> bool {
    let r = replication_or_none(f.replication);
    &&& m.raft_group_count == f.raft@.len()
    &&& m.raft_leader_count == count_text(raft_roles(f.raft@), "Leader"@)
    &&& m.raft_term_max == max_or_zero(raft_terms(f.raft@))
    &&& m.raft_snapshot_index_max == max_or_zero(raft_snapshots(f.raft@))
    &&& m.raft_joint_consensus_count == count_set(raft_joint(f.raft@))
    &&& m.migration_state@ == (match f.rebalance_state {
        Some(s) => s@,
        None => "idle"@,
    })
    &&& m.replication_sent_batches == r.sent_batches
    &&& m.replication_acked_batches == r.acked_batches
    &&& m.replication_failed_batches == r.failed_batches
    &&& m.replication_sent_entries == r.sent_entries
    &&& m.replication_sent_bytes == r.sent_bytes
    &&& m.raft_election_rounds == r.election_rounds
    &&& m.raft_append_conflicts == r.append_conflicts
    &&& m.raft_snapshot_installs == r.snapshot_installs
    &&& m.raft_snapshot_install_millis == r.snapshot_install_millis
}

/// Whether a snapshot tells of users and the audit log what is known of them.
pub open spec fn audit_taken(m: WebMetricsSnapshot, f: MetricsFacts) -> bool {
    &&& m.web_user_token_count == (match f.web_user_token_count {
        Some(n) => n,
        None => 0,
    })
    &&& m.web_audit_event_count == f.audit_actions@.len()
    &&& m.backup_restore_last_success_timestamp_seconds == f.latest_backup_or_restore_seconds
    &&& m.storage_repair_last_success_timestamp_seconds == f.latest_repair_seconds
    &&& m.storage_repair_failures == count_text(
        crate::text::views(f.audit_actions@),
        "repair.failure"@,
    )
}

/// Takes the metrics of a server.
pub fn metrics_snapshot(facts: MetricsFacts, counts: &WebMetrics) -> (m: WebMetricsSnapshot)
    ensures
        counts_taken(m, *counts),
        database_taken(m, facts),
        cluster_taken(m, facts),
        audit_taken(m, facts),
{
    let statistics = match facts.statistics {
        Some(c) => c,
        None => StatisticsCounts {
            node_count: 0,
            relationship_count: 0,
            index_count: 0,
            vector_index_count: 0,
        },
    };
    let replication = match facts.replication {
        Some(c) => c,
        None => ReplicationCounts {
            sent_batches: 0,
            acked_batches: 0,
            failed_batches: 0,
            sent_entries: 0,
            sent_bytes: 0,
            election_rounds: 0,
            append_conflicts: 0,
            snapshot_installs: 0,
            snapshot_install_millis: 0,
        },
    };
    let (tenants, disabled): (usize, usize) = match &facts.tenants_disabled {
        Some(t) => (t.len(), count_flags(t.as_slice())),
        None => (1, 0),
    };
    let raft = raft_summary(facts.raft.as_slice());
    let states = facts.index_states.as_slice();
    let tokens: usize = match facts.web_user_token_count {
        Some(n) => n,
        None => 0,
    };
    let ready = count_texts(states, "ready");
    let building = count_texts(states, "building");
    let rebuilding = count_texts(states, "rebuilding");
    let failed = count_texts(states, "failed");
    let failures = count_texts(facts.audit_actions.as_slice(), "repair.failure");
    let events = facts.audit_actions.len();
    let groups = facts.raft.len();
    let migration_state = match facts.rebalance_state {
        Some(s) => s,
        None => "idle".to_owned(),
    };
    WebMetricsSnapshot {
        http_requests: counts.http_requests,
        http_errors: counts.http_errors,
        auth_failures: counts.auth_failures,
        auth_rate_limited: counts.auth_rate_limited,
        queries: counts.queries,
        query_errors: counts.query_errors,
        slow_queries: counts.slow_queries,
        slow_query_threshold_ms: facts.slow_query_threshold_ms,
        registry_requests: counts.registry_requests,
        stale_epoch_rejections: counts.stale_epoch_rejections,
        redirects: counts.redirects,
        migration_state,
        db_nodes: statistics.node_count,
        db_relationships: statistics.relationship_count,
        db_indexes: statistics.index_count,
        db_vector_indexes: statistics.vector_index_count,
        db_shard_count: facts.shard_count,
        db_local_partition_count: facts.local_partition_count,
        db_committed_indexes: facts.committed_indexes,
        db_applied_indexes: facts.applied_indexes,
        tenant_database_count: tenants,
        tenant_disabled_count: disabled,
        index_ready_count: ready,
        index_building_count: building,
        index_rebuilding_count: rebuilding,
        index_failed_count: failed,
        raft_group_count: groups,
        raft_leader_count: raft.leaders,
        raft_term_max: raft.term_max,
        raft_snapshot_index_max: raft.snapshot_max,
        raft_joint_consensus_count: raft.joint,
        web_user_token_count: tokens,
        web_audit_event_count: events,
        replication_sent_batches: replication.sent_batches,
        replication_acked_batches: replication.acked_batches,
        replication_failed_batches: replication.failed_batches,
        replication_sent_entries: replication.sent_entries,
        replication_sent_bytes: replication.sent_bytes,
        raft_election_rounds: replication.election_rounds,
        raft_append_conflicts: replication.append_conflicts,
        raft_snapshot_installs: replication.snapshot_installs,
        raft_snapshot_install_millis: replication.snapshot_install_millis,
        query_plan_cost_model_version: 3,
        backup_restore_last_success_timestamp_seconds: facts.latest_backup_or_restore_seconds,
        storage_repair_last_success_timestamp_seconds: facts.latest_repair_seconds,
        storage_repair_failures: failures as u64,
    }
}

/// The metrics of the consensus of one shard.
pub open spec fn raft_gauges(r: RaftShard, database: Seq<char>, server_id: nat) -> Seq<char> {
    shard_metric_text(
        "neo4r_raft_shard_commit_index"@,
        database,
        r.shard_id as nat,
        server_id,
        r.role@,
        r.commit_index,
    ) + shard_metric_text(
        "neo4r_raft_shard_last_log_index"@,
        database,
        r.shard_id as nat,
        server_id,
        r.role@,
        r.last_log_index,
    ) + shard_metric_text(
        "neo4r_raft_shard_snapshot_index"@,
        database,
        r.shard_id as nat,
        server_id,
        r.role@,
        r.snapshot_index,
    ) + shard_metric_text(
        "neo4r_raft_shard_leader_lease_remaining_ms"@,
        database,
        r.shard_id as nat,
        server_id,
        r.role@,
        r.leader_lease_remaining_ms,
    )
}

/// The metrics of the consensus of the first shards.
pub open spec fn all_raft_gauges(raft: Seq<RaftShard>, database: Seq<char>, server_id: nat) -> Seq<
    char,
>
    decreases raft.len(),
{
    if raft.len() == 0 {
        Seq::<char>::empty()
    } else {
        all_raft_gauges(raft.drop_last(), database, server_id) + raft_gauges(
            raft.last(),
            database,
            server_id,
        )
    }
}

fn show_raft_gauges(r: &RaftShard, database: &str, server_id: u64) -> (out: String)
    ensures
        out@ == raft_gauges(*r, database@, server_id as nat),
{
    let role = r.role.as_str();
    let mut out = prometheus_shard_metric(
        "neo4r_raft_shard_commit_index",
        database,
        r.shard_id,
        server_id,
        role,
        r.commit_index,
    );
    out.append(
        prometheus_shard_metric(
            "neo4r_raft_shard_last_log_index",
            database,
            r.shard_id,
            server_id,
            role,
            r.last_log_index,
        ).as_str(),
    );
    out.append(
        prometheus_shard_metric(
            "neo4r_raft_shard_snapshot_index",
            database,
            r.shard_id,
            server_id,
            role,
            r.snapshot_index,
        ).as_str(),
    );
    out.append(
        prometheus_shard_metric(
            "neo4r_raft_shard_leader_lease_remaining_ms",
            database,
            r.shard_id,
            server_id,
            role,
            r.leader_lease_remaining_ms,
        ).as_str(),
    );
    out
}

fn show_all_raft_gauges(raft: &[RaftShard], database: &str, server_id: u64) -> (r: String)
    ensures
        r@ == all_raft_gauges(raft@, database@, server_id as nat),
{
    let mut r = String::new();
    let mut i: usize = 0;
    assert(r@ =~= all_raft_gauges(raft@.take(0), database@, server_id as nat));
    while i < raft.len()
        invariant
            0 <= i <= raft@.len(),
            r@ == all_raft_gauges(raft@.take(i as int), database@, server_id as nat),
        decreases raft@.len() - i,
    {
        assert(raft@.take(i + 1).drop_last() =~= raft@.take(i as int));
        assert(raft@.take(i + 1).last() == raft@[i as int]);
        r.append(show_raft_gauges(&raft[i], database, server_id).as_str());
        i = i + 1;
    }
    assert(raft@.take(raft@.len() as int) =~= raft@);
    r
}

/// Writes the metrics of a server and of the consensus of its shards.
pub fn metrics_prometheus(
    metrics: &WebMetricsSnapshot,
    raft: &[RaftShard],
    database_name: &str,
    server_id: u64,
) -> (r: String)
    ensures
        r@ == prometheus_text(*metrics, database_name@, server_id as nat) + all_raft_gauges(
            raft@,
            database_name@,
            server_id as nat,
        ),
{
    let mut r = metrics.to_prometheus(database_name, server_id);
    let tail = show_all_raft_gauges(raft, database_name, server_id);
    r.append(tail.as_str());
    r
}

/// The lag of a shard is what is committed and not yet applied, and never negative.
pub proof fn lag_is_what_is_left(committed: Seq<u64>, applied: Seq<u64>, i: int)
    requires
        0 <= i < committed.len(),
        i < applied.len(),
    ensures
        applied[i] <= committed[i] ==> lags(committed, applied)[i] == committed[i] - applied[i],
        applied[i] > committed[i] ==> lags(committed, applied)[i] == 0,
{
}

} // verus!
