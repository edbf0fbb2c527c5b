//! What the metrics say, in both of their forms.

use vstd::prelude::*;

use crate::json::{json_escaped, number_list};
use crate::laws::query_kinds::{has_at, has_in};
use crate::metrics::{
    audit_taken, cluster_taken, count_set, count_text, counts_taken, database_gauges,
    database_taken, gauges, gauges_0, gauges_1, gauges_2, lags, max_or_zero, metric_text,
    metrics_body, metrics_json_0, metrics_json_1, metrics_json_2, prometheus_text, shard_gauges,
    shard_metric_text, MetricsFacts, WebMetricsSnapshot,
};
use crate::text::{dec, views};
use crate::web::WebMetrics;

verus! {

/// Whether a text tells another one: it has it in it.
#[verifier::opaque]
pub open spec fn tells(s: Seq<char>, p: Seq<char>) -> bool {
    has_in(s, p)
}

/// A line that says the value of a gauge.
pub open spec fn gauge_line(name: Seq<char>, value: u64) -> Seq<char> {
    seq!['\n'] + name + seq![' '] + dec(value as nat) + seq!['\n']
}

proof fn lemma_front(a: Seq<char>, b: Seq<char>, p: Seq<char>)
    requires
        tells(a, p),
    ensures
        tells(a + b, p),
{
    reveal(tells);
    let i = choose|i: int| #[trigger] has_at(a, p, i);
    assert forall|k: int| 0 <= k < p.len() implies (a + b)[i + k] == #[trigger] p[k] by {
        assert(a[i + k] == p[k]);
    }
    assert(has_at(a + b, p, i));
}

proof fn lemma_back(a: Seq<char>, b: Seq<char>, p: Seq<char>)
    requires
        tells(b, p),
    ensures
        tells(a + b, p),
{
    reveal(tells);
    let i = choose|i: int| #[trigger] has_at(b, p, i);
    assert forall|k: int| 0 <= k < p.len() implies (a + b)[a.len() + i + k] == #[trigger] p[k] by {
        assert(b[i + k] == p[k]);
    }
    assert(has_at(a + b, p, a.len() + i));
}

proof fn lemma_itself(p: Seq<char>)
    ensures
        tells(p, p),
{
    reveal(tells);
    assert(has_at(p, p, 0));
}

proof fn lemma_gauge(name: Seq<char>, value: u64)
    ensures
        tells(metric_text(name, value), gauge_line(name, value)),
{
    reveal_strlit(" gauge\n");
    reveal_strlit(" ");
    reveal_strlit("\n");
    let front = "# TYPE "@ + name + seq![' ', 'g', 'a', 'u', 'g', 'e'];
    let p = gauge_line(name, value);
    assert(" gauge\n"@ =~= seq![' ', 'g', 'a', 'u', 'g', 'e'] + seq!['\n']);
    assert(" "@ =~= seq![' ']);
    assert("\n"@ =~= seq!['\n']);
    assert(metric_text(name, value) =~= front + p);
    lemma_itself(p);
    lemma_back(front, p, p);
}

#[verifier::spinoff_prover]
#[verifier::rlimit(100)]
proof fn lemma_gauges_0(m: WebMetricsSnapshot)
    ensures
        tells(gauges_0(m), gauge_line("neo4r_http_requests_total"@, m.http_requests)),
        tells(gauges_0(m), gauge_line("neo4r_http_errors_total"@, m.http_errors)),
        tells(gauges_0(m), gauge_line("neo4r_auth_failures_total"@, m.auth_failures)),
        tells(gauges_0(m), gauge_line("neo4r_auth_rate_limited_total"@, m.auth_rate_limited)),
        tells(gauges_0(m), gauge_line("neo4r_queries_total"@, m.queries)),
        tells(gauges_0(m), gauge_line("neo4r_query_errors_total"@, m.query_errors)),
        tells(gauges_0(m), gauge_line("neo4r_slow_queries_total"@, m.slow_queries)),
        tells(gauges_0(m), gauge_line("neo4r_slow_query_threshold_ms"@, m.slow_query_threshold_ms as u64)),
        tells(gauges_0(m), gauge_line("neo4r_registry_requests_total"@, m.registry_requests)),
        tells(gauges_0(m), gauge_line("neo4r_stale_epoch_rejections_total"@, m.stale_epoch_rejections)),
        tells(gauges_0(m), gauge_line("neo4r_redirects_total"@, m.redirects)),
        tells(gauges_0(m), gauge_line("neo4r_db_nodes"@, m.db_nodes as u64)),
{
    let g1 = metric_text("neo4r_http_requests_total"@, m.http_requests);
    let s1 = g1;
    lemma_gauge("neo4r_http_requests_total"@, m.http_requests);
    let l1 = gauge_line("neo4r_http_requests_total"@, m.http_requests);
    let g2 = metric_text("neo4r_http_errors_total"@, m.http_errors);
    let s2 = s1 + g2;
    lemma_gauge("neo4r_http_errors_total"@, m.http_errors);
    let l2 = gauge_line("neo4r_http_errors_total"@, m.http_errors);
    lemma_back(s1, g2, l2);
    lemma_front(s1, g2, l1);
    let g3 = metric_text("neo4r_auth_failures_total"@, m.auth_failures);
    let s3 = s2 + g3;
    lemma_gauge("neo4r_auth_failures_total"@, m.auth_failures);
    let l3 = gauge_line("neo4r_auth_failures_total"@, m.auth_failures);
    lemma_back(s2, g3, l3);
    lemma_front(s2, g3, l1);
    lemma_front(s2, g3, l2);
    let g4 = metric_text("neo4r_auth_rate_limited_total"@, m.auth_rate_limited);
    let s4 = s3 + g4;
    lemma_gauge("neo4r_auth_rate_limited_total"@, m.auth_rate_limited);
    let l4 = gauge_line("neo4r_auth_rate_limited_total"@, m.auth_rate_limited);
    lemma_back(s3, g4, l4);
    lemma_front(s3, g4, l1);
    lemma_front(s3, g4, l2);
    lemma_front(s3, g4, l3);
    let g5 = metric_text("neo4r_queries_total"@, m.queries);
    let s5 = s4 + g5;
    lemma_gauge("neo4r_queries_total"@, m.queries);
    let l5 = gauge_line("neo4r_queries_total"@, m.queries);
    lemma_back(s4, g5, l5);
    lemma_front(s4, g5, l1);
    lemma_front(s4, g5, l2);
    lemma_front(s4, g5, l3);
    lemma_front(s4, g5, l4);
    let g6 = metric_text("neo4r_query_errors_total"@, m.query_errors);
    let s6 = s5 + g6;
    lemma_gauge("neo4r_query_errors_total"@, m.query_errors);
    let l6 = gauge_line("neo4r_query_errors_total"@, m.query_errors);
    lemma_back(s5, g6, l6);
    lemma_front(s5, g6, l1);
    lemma_front(s5, g6, l2);
    lemma_front(s5, g6, l3);
    lemma_front(s5, g6, l4);
    lemma_front(s5, g6, l5);
    let g7 = metric_text("neo4r_slow_queries_total"@, m.slow_queries);
    let s7 = s6 + g7;
    lemma_gauge("neo4r_slow_queries_total"@, m.slow_queries);
    let l7 = gauge_line("neo4r_slow_queries_total"@, m.slow_queries);
    lemma_back(s6, g7, l7);
    lemma_front(s6, g7, l1);
    lemma_front(s6, g7, l2);
    lemma_front(s6, g7, l3);
    lemma_front(s6, g7, l4);
    lemma_front(s6, g7, l5);
    lemma_front(s6, g7, l6);
    let g8 = metric_text("neo4r_slow_query_threshold_ms"@, m.slow_query_threshold_ms as u64);
    let s8 = s7 + g8;
    lemma_gauge("neo4r_slow_query_threshold_ms"@, m.slow_query_threshold_ms as u64);
    let l8 = gauge_line("neo4r_slow_query_threshold_ms"@, m.slow_query_threshold_ms as u64);
    lemma_back(s7, g8, l8);
    lemma_front(s7, g8, l1);
    lemma_front(s7, g8, l2);
    lemma_front(s7, g8, l3);
    lemma_front(s7, g8, l4);
    lemma_front(s7, g8, l5);
    lemma_front(s7, g8, l6);
    lemma_front(s7, g8, l7);
    let g9 = metric_text("neo4r_registry_requests_total"@, m.registry_requests);
    let s9 = s8 + g9;
    lemma_gauge("neo4r_registry_requests_total"@, m.registry_requests);
    let l9 = gauge_line("neo4r_registry_requests_total"@, m.registry_requests);
    lemma_back(s8, g9, l9);
    lemma_front(s8, g9, l1);
    lemma_front(s8, g9, l2);
    lemma_front(s8, g9, l3);
    lemma_front(s8, g9, l4);
    lemma_front(s8, g9, l5);
    lemma_front(s8, g9, l6);
    lemma_front(s8, g9, l7);
    lemma_front(s8, g9, l8);
    let g10 = metric_text("neo4r_stale_epoch_rejections_total"@, m.stale_epoch_rejections);
    let s10 = s9 + g10;
    lemma_gauge("neo4r_stale_epoch_rejections_total"@, m.stale_epoch_rejections);
    let l10 = gauge_line("neo4r_stale_epoch_rejections_total"@, m.stale_epoch_rejections);
    lemma_back(s9, g10, l10);
    lemma_front(s9, g10, l1);
    lemma_front(s9, g10, l2);
    lemma_front(s9, g10, l3);
    lemma_front(s9, g10, l4);
    lemma_front(s9, g10, l5);
    lemma_front(s9, g10, l6);
    lemma_front(s9, g10, l7);
    lemma_front(s9, g10, l8);
    lemma_front(s9, g10, l9);
    let g11 = metric_text("neo4r_redirects_total"@, m.redirects);
    let s11 = s10 + g11;
    lemma_gauge("neo4r_redirects_total"@, m.redirects);
    let l11 = gauge_line("neo4r_redirects_total"@, m.redirects);
    lemma_back(s10, g11, l11);
    lemma_front(s10, g11, l1);
    lemma_front(s10, g11, l2);
    lemma_front(s10, g11, l3);
    lemma_front(s10, g11, l4);
    lemma_front(s10, g11, l5);
    lemma_front(s10, g11, l6);
    lemma_front(s10, g11, l7);
    lemma_front(s10, g11, l8);
    lemma_front(s10, g11, l9);
    lemma_front(s10, g11, l10);
    let g12 = metric_text("neo4r_db_nodes"@, m.db_nodes as u64);
    let s12 = s11 + g12;
    lemma_gauge("neo4r_db_nodes"@, m.db_nodes as u64);
    let l12 = gauge_line("neo4r_db_nodes"@, m.db_nodes as u64);
    lemma_back(s11, g12, l12);
    lemma_front(s11, g12, l1);
    lemma_front(s11, g12, l2);
    lemma_front(s11, g12, l3);
    lemma_front(s11, g12, l4);
    lemma_front(s11, g12, l5);
    lemma_front(s11, g12, l6);
    lemma_front(s11, g12, l7);
    lemma_front(s11, g12, l8);
    lemma_front(s11, g12, l9);
    lemma_front(s11, g12, l10);
    lemma_front(s11, g12, l11);
}

#[verifier::spinoff_prover]
#[verifier::rlimit(100)]
proof fn lemma_gauges_0_stay(m: WebMetricsSnapshot, p: Seq<char>)
    requires
        tells(gauges_0(m), p),
    ensures
        tells(gauges_1(m), p),
{
    let s0 = gauges_0(m);
    let s1 = s0 + metric_text("neo4r_db_relationships"@, m.db_relationships as u64);
    lemma_front(s0, metric_text("neo4r_db_relationships"@, m.db_relationships as u64), p);
    let s2 = s1 + metric_text("neo4r_db_indexes"@, m.db_indexes as u64);
    lemma_front(s1, metric_text("neo4r_db_indexes"@, m.db_indexes as u64), p);
    let s3 = s2 + metric_text("neo4r_db_vector_indexes"@, m.db_vector_indexes as u64);
    lemma_front(s2, metric_text("neo4r_db_vector_indexes"@, m.db_vector_indexes as u64), p);
    let s4 = s3 + metric_text("neo4r_db_shards"@, m.db_shard_count);
    lemma_front(s3, metric_text("neo4r_db_shards"@, m.db_shard_count), p);
    let s5 = s4 + metric_text("neo4r_db_local_partitions"@, m.db_local_partition_count as u64);
    lemma_front(s4, metric_text("neo4r_db_local_partitions"@, m.db_local_partition_count as u64), p);
    let s6 = s5 + metric_text("neo4r_db_committed_index_max"@, max_or_zero(m.db_committed_indexes@));
    lemma_front(s5, metric_text("neo4r_db_committed_index_max"@, max_or_zero(m.db_committed_indexes@)), p);
    let s7 = s6 + metric_text("neo4r_db_applied_index_max"@, max_or_zero(m.db_applied_indexes@));
    lemma_front(s6, metric_text("neo4r_db_applied_index_max"@, max_or_zero(m.db_applied_indexes@)), p);
    let s8 = s7 + metric_text("neo4r_tenant_databases"@, m.tenant_database_count as u64);
    lemma_front(s7, metric_text("neo4r_tenant_databases"@, m.tenant_database_count as u64), p);
    let s9 = s8 + metric_text("neo4r_tenant_disabled_databases"@, m.tenant_disabled_count as u64);
    lemma_front(s8, metric_text("neo4r_tenant_disabled_databases"@, m.tenant_disabled_count as u64), p);
    let s10 = s9 + metric_text("neo4r_index_ready"@, m.index_ready_count as u64);
    lemma_front(s9, metric_text("neo4r_index_ready"@, m.index_ready_count as u64), p);
    let s11 = s10 + metric_text("neo4r_index_building"@, m.index_building_count as u64);
    lemma_front(s10, metric_text("neo4r_index_building"@, m.index_building_count as u64), p);
    let s12 = s11 + metric_text("neo4r_index_rebuilding"@, m.index_rebuilding_count as u64);
    lemma_front(s11, metric_text("neo4r_index_rebuilding"@, m.index_rebuilding_count as u64), p);
}

#[verifier::spinoff_prover]
#[verifier::rlimit(100)]
proof fn lemma_gauges_1(m: WebMetricsSnapshot)
    ensures
        tells(gauges_1(m), gauge_line("neo4r_db_relationships"@, m.db_relationships as u64)),
        tells(gauges_1(m), gauge_line("neo4r_db_indexes"@, m.db_indexes as u64)),
        tells(gauges_1(m), gauge_line("neo4r_db_vector_indexes"@, m.db_vector_indexes as u64)),
        tells(gauges_1(m), gauge_line("neo4r_db_shards"@, m.db_shard_count)),
        tells(gauges_1(m), gauge_line("neo4r_db_local_partitions"@, m.db_local_partition_count as u64)),
        tells(gauges_1(m), gauge_line("neo4r_db_committed_index_max"@, max_or_zero(m.db_committed_indexes@))),
        tells(gauges_1(m), gauge_line("neo4r_db_applied_index_max"@, max_or_zero(m.db_applied_indexes@))),
        tells(gauges_1(m), gauge_line("neo4r_tenant_databases"@, m.tenant_database_count as u64)),
        tells(gauges_1(m), gauge_line("neo4r_tenant_disabled_databases"@, m.tenant_disabled_count as u64)),
        tells(gauges_1(m), gauge_line("neo4r_index_ready"@, m.index_ready_count as u64)),
        tells(gauges_1(m), gauge_line("neo4r_index_building"@, m.index_building_count as u64)),
        tells(gauges_1(m), gauge_line("neo4r_index_rebuilding"@, m.index_rebuilding_count as u64)),
{
    let s0 = gauges_0(m);
    let g1 = metric_text("neo4r_db_relationships"@, m.db_relationships as u64);
    let s1 = s0 + g1;
    lemma_gauge("neo4r_db_relationships"@, m.db_relationships as u64);
    let l1 = gauge_line("neo4r_db_relationships"@, m.db_relationships as u64);
    lemma_back(s0, g1, l1);
    let g2 = metric_text("neo4r_db_indexes"@, m.db_indexes as u64);
    let s2 = s1 + g2;
    lemma_gauge("neo4r_db_indexes"@, m.db_indexes as u64);
    let l2 = gauge_line("neo4r_db_indexes"@, m.db_indexes as u64);
    lemma_back(s1, g2, l2);
    lemma_front(s1, g2, l1);
    let g3 = metric_text("neo4r_db_vector_indexes"@, m.db_vector_indexes as u64);
    let s3 = s2 + g3;
    lemma_gauge("neo4r_db_vector_indexes"@, m.db_vector_indexes as u64);
    let l3 = gauge_line("neo4r_db_vector_indexes"@, m.db_vector_indexes as u64);
    lemma_back(s2, g3, l3);
    lemma_front(s2, g3, l1);
    lemma_front(s2, g3, l2);
    let g4 = metric_text("neo4r_db_shards"@, m.db_shard_count);
    let s4 = s3 + g4;
    lemma_gauge("neo4r_db_shards"@, m.db_shard_count);
    let l4 = gauge_line("neo4r_db_shards"@, m.db_shard_count);
    lemma_back(s3, g4, l4);
    lemma_front(s3, g4, l1);
    lemma_front(s3, g4, l2);
    lemma_front(s3, g4, l3);
    let g5 = metric_text("neo4r_db_local_partitions"@, m.db_local_partition_count as u64);
    let s5 = s4 + g5;
    lemma_gauge("neo4r_db_local_partitions"@, m.db_local_partition_count as u64);
    let l5 = gauge_line("neo4r_db_local_partitions"@, m.db_local_partition_count as u64);
    lemma_back(s4, g5, l5);
    lemma_front(s4, g5, l1);
    lemma_front(s4, g5, l2);
    lemma_front(s4, g5, l3);
    lemma_front(s4, g5, l4);
    let g6 = metric_text("neo4r_db_committed_index_max"@, max_or_zero(m.db_committed_indexes@));
    let s6 = s5 + g6;
    lemma_gauge("neo4r_db_committed_index_max"@, max_or_zero(m.db_committed_indexes@));
    let l6 = gauge_line("neo4r_db_committed_index_max"@, max_or_zero(m.db_committed_indexes@));
    lemma_back(s5, g6, l6);
    lemma_front(s5, g6, l1);
    lemma_front(s5, g6, l2);
    lemma_front(s5, g6, l3);
    lemma_front(s5, g6, l4);
    lemma_front(s5, g6, l5);
    let g7 = metric_text("neo4r_db_applied_index_max"@, max_or_zero(m.db_applied_indexes@));
    let s7 = s6 + g7;
    lemma_gauge("neo4r_db_applied_index_max"@, max_or_zero(m.db_applied_indexes@));
    let l7 = gauge_line("neo4r_db_applied_index_max"@, max_or_zero(m.db_applied_indexes@));
    lemma_back(s6, g7, l7);
    lemma_front(s6, g7, l1);
    lemma_front(s6, g7, l2);
    lemma_front(s6, g7, l3);
    lemma_front(s6, g7, l4);
    lemma_front(s6, g7, l5);
    lemma_front(s6, g7, l6);
    let g8 = metric_text("neo4r_tenant_databases"@, m.tenant_database_count as u64);
    let s8 = s7 + g8;
    lemma_gauge("neo4r_tenant_databases"@, m.tenant_database_count as u64);
    let l8 = gauge_line("neo4r_tenant_databases"@, m.tenant_database_count as u64);
    lemma_back(s7, g8, l8);
    lemma_front(s7, g8, l1);
    lemma_front(s7, g8, l2);
    lemma_front(s7, g8, l3);
    lemma_front(s7, g8, l4);
    lemma_front(s7, g8, l5);
    lemma_front(s7, g8, l6);
    lemma_front(s7, g8, l7);
    let g9 = metric_text("neo4r_tenant_disabled_databases"@, m.tenant_disabled_count as u64);
    let s9 = s8 + g9;
    lemma_gauge("neo4r_tenant_disabled_databases"@, m.tenant_disabled_count as u64);
    let l9 = gauge_line("neo4r_tenant_disabled_databases"@, m.tenant_disabled_count as u64);
    lemma_back(s8, g9, l9);
    lemma_front(s8, g9, l1);
    lemma_front(s8, g9, l2);
    lemma_front(s8, g9, l3);
    lemma_front(s8, g9, l4);
    lemma_front(s8, g9, l5);
    lemma_front(s8, g9, l6);
    lemma_front(s8, g9, l7);
    lemma_front(s8, g9, l8);
    let g10 = metric_text("neo4r_index_ready"@, m.index_ready_count as u64);
    let s10 = s9 + g10;
    lemma_gauge("neo4r_index_ready"@, m.index_ready_count as u64);
    let l10 = gauge_line("neo4r_index_ready"@, m.index_ready_count as u64);
    lemma_back(s9, g10, l10);
    lemma_front(s9, g10, l1);
    lemma_front(s9, g10, l2);
    lemma_front(s9, g10, l3);
    lemma_front(s9, g10, l4);
    lemma_front(s9, g10, l5);
    lemma_front(s9, g10, l6);
    lemma_front(s9, g10, l7);
    lemma_front(s9, g10, l8);
    lemma_front(s9, g10, l9);
    let g11 = metric_text("neo4r_index_building"@, m.index_building_count as u64);
    let s11 = s10 + g11;
    lemma_gauge("neo4r_index_building"@, m.index_building_count as u64);
    let l11 = gauge_line("neo4r_index_building"@, m.index_building_count as u64);
    lemma_back(s10, g11, l11);
    lemma_front(s10, g11, l1);
    lemma_front(s10, g11, l2);
    lemma_front(s10, g11, l3);
    lemma_front(s10, g11, l4);
    lemma_front(s10, g11, l5);
    lemma_front(s10, g11, l6);
    lemma_front(s10, g11, l7);
    lemma_front(s10, g11, l8);
    lemma_front(s10, g11, l9);
    lemma_front(s10, g11, l10);
    let g12 = metric_text("neo4r_index_rebuilding"@, m.index_rebuilding_count as u64);
    let s12 = s11 + g12;
    lemma_gauge("neo4r_index_rebuilding"@, m.index_rebuilding_count as u64);
    let l12 = gauge_line("neo4r_index_rebuilding"@, m.index_rebuilding_count as u64);
    lemma_back(s11, g12, l12);
    lemma_front(s11, g12, l1);
    lemma_front(s11, g12, l2);
    lemma_front(s11, g12, l3);
    lemma_front(s11, g12, l4);
    lemma_front(s11, g12, l5);
    lemma_front(s11, g12, l6);
    lemma_front(s11, g12, l7);
    lemma_front(s11, g12, l8);
    lemma_front(s11, g12, l9);
    lemma_front(s11, g12, l10);
    lemma_front(s11, g12, l11);
}

#[verifier::spinoff_prover]
#[verifier::rlimit(100)]
proof fn lemma_gauges_1_stay(m: WebMetricsSnapshot, p: Seq<char>)
    requires
        tells(gauges_1(m), p),
    ensures
        tells(gauges_2(m), p),
{
    let s0 = gauges_1(m);
    let s1 = s0 + metric_text("neo4r_index_failed"@, m.index_failed_count as u64);
    lemma_front(s0, metric_text("neo4r_index_failed"@, m.index_failed_count as u64), p);
    let s2 = s1 + metric_text("neo4r_raft_groups"@, m.raft_group_count as u64);
    lemma_front(s1, metric_text("neo4r_raft_groups"@, m.raft_group_count as u64), p);
    let s3 = s2 + metric_text("neo4r_raft_leaders"@, m.raft_leader_count as u64);
    lemma_front(s2, metric_text("neo4r_raft_leaders"@, m.raft_leader_count as u64), p);
    let s4 = s3 + metric_text("neo4r_raft_term_max"@, m.raft_term_max);
    lemma_front(s3, metric_text("neo4r_raft_term_max"@, m.raft_term_max), p);
    let s5 = s4 + metric_text("neo4r_raft_snapshot_index_max"@, m.raft_snapshot_index_max);
    lemma_front(s4, metric_text("neo4r_raft_snapshot_index_max"@, m.raft_snapshot_index_max), p);
    let s6 = s5 + metric_text("neo4r_raft_joint_consensus_groups"@, m.raft_joint_consensus_count as u64);
    lemma_front(s5, metric_text("neo4r_raft_joint_consensus_groups"@, m.raft_joint_consensus_count as u64), p);
    let s7 = s6 + metric_text("neo4r_web_user_tokens"@, m.web_user_token_count as u64);
    lemma_front(s6, metric_text("neo4r_web_user_tokens"@, m.web_user_token_count as u64), p);
    let s8 = s7 + metric_text("neo4r_web_audit_events"@, m.web_audit_event_count as u64);
    lemma_front(s7, metric_text("neo4r_web_audit_events"@, m.web_audit_event_count as u64), p);
    let s9 = s8 + metric_text("neo4r_replication_channel_sent_batches_total"@, m.replication_sent_batches as u64);
    lemma_front(s8, metric_text("neo4r_replication_channel_sent_batches_total"@, m.replication_sent_batches as u64), p);
    let s10 = s9 + metric_text("neo4r_replication_channel_acked_batches_total"@, m.replication_acked_batches as u64);
    lemma_front(s9, metric_text("neo4r_replication_channel_acked_batches_total"@, m.replication_acked_batches as u64), p);
    let s11 = s10 + metric_text("neo4r_replication_channel_failed_batches_total"@, m.replication_failed_batches as u64);
    lemma_front(s10, metric_text("neo4r_replication_channel_failed_batches_total"@, m.replication_failed_batches as u64), p);
    let s12 = s11 + metric_text("neo4r_replication_channel_sent_entries_total"@, m.replication_sent_entries as u64);
    lemma_front(s11, metric_text("neo4r_replication_channel_sent_entries_total"@, m.replication_sent_entries as u64), p);
}

#[verifier::spinoff_prover]
#[verifier::rlimit(100)]
proof fn lemma_gauges_2(m: WebMetricsSnapshot)
    ensures
        tells(gauges_2(m), gauge_line("neo4r_index_failed"@, m.index_failed_count as u64)),
        tells(gauges_2(m), gauge_line("neo4r_raft_groups"@, m.raft_group_count as u64)),
        tells(gauges_2(m), gauge_line("neo4r_raft_leaders"@, m.raft_leader_count as u64)),
        tells(gauges_2(m), gauge_line("neo4r_raft_term_max"@, m.raft_term_max)),
        tells(gauges_2(m), gauge_line("neo4r_raft_snapshot_index_max"@, m.raft_snapshot_index_max)),
        tells(gauges_2(m), gauge_line("neo4r_raft_joint_consensus_groups"@, m.raft_joint_consensus_count as u64)),
        tells(gauges_2(m), gauge_line("neo4r_web_user_tokens"@, m.web_user_token_count as u64)),
        tells(gauges_2(m), gauge_line("neo4r_web_audit_events"@, m.web_audit_event_count as u64)),
        tells(gauges_2(m), gauge_line("neo4r_replication_channel_sent_batches_total"@, m.replication_sent_batches as u64)),
        tells(gauges_2(m), gauge_line("neo4r_replication_channel_acked_batches_total"@, m.replication_acked_batches as u64)),
        tells(gauges_2(m), gauge_line("neo4r_replication_channel_failed_batches_total"@, m.replication_failed_batches as u64)),
        tells(gauges_2(m), gauge_line("neo4r_replication_channel_sent_entries_total"@, m.replication_sent_entries as u64)),
{
    let s0 = gauges_1(m);
    let g1 = metric_text("neo4r_index_failed"@, m.index_failed_count as u64);
    let s1 = s0 + g1;
    lemma_gauge("neo4r_index_failed"@, m.index_failed_count as u64);
    let l1 = gauge_line("neo4r_index_failed"@, m.index_failed_count as u64);
    lemma_back(s0, g1, l1);
    let g2 = metric_text("neo4r_raft_groups"@, m.raft_group_count as u64);
    let s2 = s1 + g2;
    lemma_gauge("neo4r_raft_groups"@, m.raft_group_count as u64);
    let l2 = gauge_line("neo4r_raft_groups"@, m.raft_group_count as u64);
    lemma_back(s1, g2, l2);
    lemma_front(s1, g2, l1);
    let g3 = metric_text("neo4r_raft_leaders"@, m.raft_leader_count as u64);
    let s3 = s2 + g3;
    lemma_gauge("neo4r_raft_leaders"@, m.raft_leader_count as u64);
    let l3 = gauge_line("neo4r_raft_leaders"@, m.raft_leader_count as u64);
    lemma_back(s2, g3, l3);
    lemma_front(s2, g3, l1);
    lemma_front(s2, g3, l2);
    let g4 = metric_text("neo4r_raft_term_max"@, m.raft_term_max);
    let s4 = s3 + g4;
    lemma_gauge("neo4r_raft_term_max"@, m.raft_term_max);
    let l4 = gauge_line("neo4r_raft_term_max"@, m.raft_term_max);
    lemma_back(s3, g4, l4);
    lemma_front(s3, g4, l1);
    lemma_front(s3, g4, l2);
    lemma_front(s3, g4, l3);
    let g5 = metric_text("neo4r_raft_snapshot_index_max"@, m.raft_snapshot_index_max);
    let s5 = s4 + g5;
    lemma_gauge("neo4r_raft_snapshot_index_max"@, m.raft_snapshot_index_max);
    let l5 = gauge_line("neo4r_raft_snapshot_index_max"@, m.raft_snapshot_index_max);
    lemma_back(s4, g5, l5);
    lemma_front(s4, g5, l1);
    lemma_front(s4, g5, l2);
    lemma_front(s4, g5, l3);
    lemma_front(s4, g5, l4);
    let g6 = metric_text("neo4r_raft_joint_consensus_groups"@, m.raft_joint_consensus_count as u64);
    let s6 = s5 + g6;
    lemma_gauge("neo4r_raft_joint_consensus_groups"@, m.raft_joint_consensus_count as u64);
    let l6 = gauge_line("neo4r_raft_joint_consensus_groups"@, m.raft_joint_consensus_count as u64);
    lemma_back(s5, g6, l6);
    lemma_front(s5, g6, l1);
    lemma_front(s5, g6, l2);
    lemma_front(s5, g6, l3);
    lemma_front(s5, g6, l4);
    lemma_front(s5, g6, l5);
    let g7 = metric_text("neo4r_web_user_tokens"@, m.web_user_token_count as u64);
    let s7 = s6 + g7;
    lemma_gauge("neo4r_web_user_tokens"@, m.web_user_token_count as u64);
    let l7 = gauge_line("neo4r_web_user_tokens"@, m.web_user_token_count as u64);
    lemma_back(s6, g7, l7);
    lemma_front(s6, g7, l1);
    lemma_front(s6, g7, l2);
    lemma_front(s6, g7, l3);
    lemma_front(s6, g7, l4);
    lemma_front(s6, g7, l5);
    lemma_front(s6, g7, l6);
    let g8 = metric_text("neo4r_web_audit_events"@, m.web_audit_event_count as u64);
    let s8 = s7 + g8;
    lemma_gauge("neo4r_web_audit_events"@, m.web_audit_event_count as u64);
    let l8 = gauge_line("neo4r_web_audit_events"@, m.web_audit_event_count as u64);
    lemma_back(s7, g8, l8);
    lemma_front(s7, g8, l1);
    lemma_front(s7, g8, l2);
    lemma_front(s7, g8, l3);
    lemma_front(s7, g8, l4);
    lemma_front(s7, g8, l5);
    lemma_front(s7, g8, l6);
    lemma_front(s7, g8, l7);
    let g9 = metric_text("neo4r_replication_channel_sent_batches_total"@, m.replication_sent_batches as u64);
    let s9 = s8 + g9;
    lemma_gauge("neo4r_replication_channel_sent_batches_total"@, m.replication_sent_batches as u64);
    let l9 = gauge_line("neo4r_replication_channel_sent_batches_total"@, m.replication_sent_batches as u64);
    lemma_back(s8, g9, l9);
    lemma_front(s8, g9, l1);
    lemma_front(s8, g9, l2);
    lemma_front(s8, g9, l3);
    lemma_front(s8, g9, l4);
    lemma_front(s8, g9, l5);
    lemma_front(s8, g9, l6);
    lemma_front(s8, g9, l7);
    lemma_front(s8, g9, l8);
    let g10 = metric_text("neo4r_replication_channel_acked_batches_total"@, m.replication_acked_batches as u64);
    let s10 = s9 + g10;
    lemma_gauge("neo4r_replication_channel_acked_batches_total"@, m.replication_acked_batches as u64);
    let l10 = gauge_line("neo4r_replication_channel_acked_batches_total"@, m.replication_acked_batches as u64);
    lemma_back(s9, g10, l10);
    lemma_front(s9, g10, l1);
    lemma_front(s9, g10, l2);
    lemma_front(s9, g10, l3);
    lemma_front(s9, g10, l4);
    lemma_front(s9, g10, l5);
    lemma_front(s9, g10, l6);
    lemma_front(s9, g10, l7);
    lemma_front(s9, g10, l8);
    lemma_front(s9, g10, l9);
    let g11 = metric_text("neo4r_replication_channel_failed_batches_total"@, m.replication_failed_batches as u64);
    let s11 = s10 + g11;
    lemma_gauge("neo4r_replication_channel_failed_batches_total"@, m.replication_failed_batches as u64);
    let l11 = gauge_line("neo4r_replication_channel_failed_batches_total"@, m.replication_failed_batches as u64);
    lemma_back(s10, g11, l11);
    lemma_front(s10, g11, l1);
    lemma_front(s10, g11, l2);
    lemma_front(s10, g11, l3);
    lemma_front(s10, g11, l4);
    lemma_front(s10, g11, l5);
    lemma_front(s10, g11, l6);
    lemma_front(s10, g11, l7);
    lemma_front(s10, g11, l8);
    lemma_front(s10, g11, l9);
    lemma_front(s10, g11, l10);
    let g12 = metric_text("neo4r_replication_channel_sent_entries_total"@, m.replication_sent_entries as u64);
    let s12 = s11 + g12;
    lemma_gauge("neo4r_replication_channel_sent_entries_total"@, m.replication_sent_entries as u64);
    let l12 = gauge_line("neo4r_replication_channel_sent_entries_total"@, m.replication_sent_entries as u64);
    lemma_back(s11, g12, l12);
    lemma_front(s11, g12, l1);
    lemma_front(s11, g12, l2);
    lemma_front(s11, g12, l3);
    lemma_front(s11, g12, l4);
    lemma_front(s11, g12, l5);
    lemma_front(s11, g12, l6);
    lemma_front(s11, g12, l7);
    lemma_front(s11, g12, l8);
    lemma_front(s11, g12, l9);
    lemma_front(s11, g12, l10);
    lemma_front(s11, g12, l11);
}

#[verifier::spinoff_prover]
#[verifier::rlimit(100)]
proof fn lemma_gauges_2_stay(m: WebMetricsSnapshot, p: Seq<char>)
    requires
        tells(gauges_2(m), p),
    ensures
        tells(gauges(m), p),
{
    let s0 = gauges_2(m);
    let s1 = s0 + metric_text("neo4r_replication_channel_sent_bytes_total"@, m.replication_sent_bytes);
    lemma_front(s0, metric_text("neo4r_replication_channel_sent_bytes_total"@, m.replication_sent_bytes), p);
    let s2 = s1 + metric_text("neo4r_raft_election_rounds_total"@, m.raft_election_rounds as u64);
    lemma_front(s1, metric_text("neo4r_raft_election_rounds_total"@, m.raft_election_rounds as u64), p);
    let s3 = s2 + metric_text("neo4r_raft_append_conflicts_total"@, m.raft_append_conflicts as u64);
    lemma_front(s2, metric_text("neo4r_raft_append_conflicts_total"@, m.raft_append_conflicts as u64), p);
    let s4 = s3 + metric_text("neo4r_raft_snapshot_installs_total"@, m.raft_snapshot_installs as u64);
    lemma_front(s3, metric_text("neo4r_raft_snapshot_installs_total"@, m.raft_snapshot_installs as u64), p);
    let s5 = s4 + metric_text("neo4r_raft_snapshot_install_duration_ms_total"@, m.raft_snapshot_install_millis);
    lemma_front(s4, metric_text("neo4r_raft_snapshot_install_duration_ms_total"@, m.raft_snapshot_install_millis), p);
    let s6 = s5 + metric_text("neo4r_query_plan_cost_model_version"@, m.query_plan_cost_model_version);
    lemma_front(s5, metric_text("neo4r_query_plan_cost_model_version"@, m.query_plan_cost_model_version), p);
    let s7 = s6 + metric_text("neo4r_backup_restore_last_success_timestamp_seconds"@, m.backup_restore_last_success_timestamp_seconds);
    lemma_front(s6, metric_text("neo4r_backup_restore_last_success_timestamp_seconds"@, m.backup_restore_last_success_timestamp_seconds), p);
    let s8 = s7 + metric_text("neo4r_storage_repair_last_success_timestamp_seconds"@, m.storage_repair_last_success_timestamp_seconds);
    lemma_front(s7, metric_text("neo4r_storage_repair_last_success_timestamp_seconds"@, m.storage_repair_last_success_timestamp_seconds), p);
    let s9 = s8 + metric_text("neo4r_storage_repair_failures_total"@, m.storage_repair_failures);
    lemma_front(s8, metric_text("neo4r_storage_repair_failures_total"@, m.storage_repair_failures), p);
}

#[verifier::spinoff_prover]
#[verifier::rlimit(100)]
proof fn lemma_gauges(m: WebMetricsSnapshot)
    ensures
        tells(gauges(m), gauge_line("neo4r_replication_channel_sent_bytes_total"@, m.replication_sent_bytes)),
        tells(gauges(m), gauge_line("neo4r_raft_election_rounds_total"@, m.raft_election_rounds as u64)),
        tells(gauges(m), gauge_line("neo4r_raft_append_conflicts_total"@, m.raft_append_conflicts as u64)),
        tells(gauges(m), gauge_line("neo4r_raft_snapshot_installs_total"@, m.raft_snapshot_installs as u64)),
        tells(gauges(m), gauge_line("neo4r_raft_snapshot_install_duration_ms_total"@, m.raft_snapshot_install_millis)),
        tells(gauges(m), gauge_line("neo4r_query_plan_cost_model_version"@, m.query_plan_cost_model_version)),
        tells(gauges(m), gauge_line("neo4r_backup_restore_last_success_timestamp_seconds"@, m.backup_restore_last_success_timestamp_seconds)),
        tells(gauges(m), gauge_line("neo4r_storage_repair_last_success_timestamp_seconds"@, m.storage_repair_last_success_timestamp_seconds)),
        tells(gauges(m), gauge_line("neo4r_storage_repair_failures_total"@, m.storage_repair_failures)),
{
    let s0 = gauges_2(m);
    let g1 = metric_text("neo4r_replication_channel_sent_bytes_total"@, m.replication_sent_bytes);
    let s1 = s0 + g1;
    lemma_gauge("neo4r_replication_channel_sent_bytes_total"@, m.replication_sent_bytes);
    let l1 = gauge_line("neo4r_replication_channel_sent_bytes_total"@, m.replication_sent_bytes);
    lemma_back(s0, g1, l1);
    let g2 = metric_text("neo4r_raft_election_rounds_total"@, m.raft_election_rounds as u64);
    let s2 = s1 + g2;
    lemma_gauge("neo4r_raft_election_rounds_total"@, m.raft_election_rounds as u64);
    let l2 = gauge_line("neo4r_raft_election_rounds_total"@, m.raft_election_rounds as u64);
    lemma_back(s1, g2, l2);
    lemma_front(s1, g2, l1);
    let g3 = metric_text("neo4r_raft_append_conflicts_total"@, m.raft_append_conflicts as u64);
    let s3 = s2 + g3;
    lemma_gauge("neo4r_raft_append_conflicts_total"@, m.raft_append_conflicts as u64);
    let l3 = gauge_line("neo4r_raft_append_conflicts_total"@, m.raft_append_conflicts as u64);
    lemma_back(s2, g3, l3);
    lemma_front(s2, g3, l1);
    lemma_front(s2, g3, l2);
    let g4 = metric_text("neo4r_raft_snapshot_installs_total"@, m.raft_snapshot_installs as u64);
    let s4 = s3 + g4;
    lemma_gauge("neo4r_raft_snapshot_installs_total"@, m.raft_snapshot_installs as u64);
    let l4 = gauge_line("neo4r_raft_snapshot_installs_total"@, m.raft_snapshot_installs as u64);
    lemma_back(s3, g4, l4);
    lemma_front(s3, g4, l1);
    lemma_front(s3, g4, l2);
    lemma_front(s3, g4, l3);
    let g5 = metric_text("neo4r_raft_snapshot_install_duration_ms_total"@, m.raft_snapshot_install_millis);
    let s5 = s4 + g5;
    lemma_gauge("neo4r_raft_snapshot_install_duration_ms_total"@, m.raft_snapshot_install_millis);
    let l5 = gauge_line("neo4r_raft_snapshot_install_duration_ms_total"@, m.raft_snapshot_install_millis);
    lemma_back(s4, g5, l5);
    lemma_front(s4, g5, l1);
    lemma_front(s4, g5, l2);
    lemma_front(s4, g5, l3);
    lemma_front(s4, g5, l4);
    let g6 = metric_text("neo4r_query_plan_cost_model_version"@, m.query_plan_cost_model_version);
    let s6 = s5 + g6;
    lemma_gauge("neo4r_query_plan_cost_model_version"@, m.query_plan_cost_model_version);
    let l6 = gauge_line("neo4r_query_plan_cost_model_version"@, m.query_plan_cost_model_version);
    lemma_back(s5, g6, l6);
    lemma_front(s5, g6, l1);
    lemma_front(s5, g6, l2);
    lemma_front(s5, g6, l3);
    lemma_front(s5, g6, l4);
    lemma_front(s5, g6, l5);
    let g7 = metric_text("neo4r_backup_restore_last_success_timestamp_seconds"@, m.backup_restore_last_success_timestamp_seconds);
    let s7 = s6 + g7;
    lemma_gauge("neo4r_backup_restore_last_success_timestamp_seconds"@, m.backup_restore_last_success_timestamp_seconds);
    let l7 = gauge_line("neo4r_backup_restore_last_success_timestamp_seconds"@, m.backup_restore_last_success_timestamp_seconds);
    lemma_back(s6, g7, l7);
    lemma_front(s6, g7, l1);
    lemma_front(s6, g7, l2);
    lemma_front(s6, g7, l3);
    lemma_front(s6, g7, l4);
    lemma_front(s6, g7, l5);
    lemma_front(s6, g7, l6);
    let g8 = metric_text("neo4r_storage_repair_last_success_timestamp_seconds"@, m.storage_repair_last_success_timestamp_seconds);
    let s8 = s7 + g8;
    lemma_gauge("neo4r_storage_repair_last_success_timestamp_seconds"@, m.storage_repair_last_success_timestamp_seconds);
    let l8 = gauge_line("neo4r_storage_repair_last_success_timestamp_seconds"@, m.storage_repair_last_success_timestamp_seconds);
    lemma_back(s7, g8, l8);
    lemma_front(s7, g8, l1);
    lemma_front(s7, g8, l2);
    lemma_front(s7, g8, l3);
    lemma_front(s7, g8, l4);
    lemma_front(s7, g8, l5);
    lemma_front(s7, g8, l6);
    lemma_front(s7, g8, l7);
    let g9 = metric_text("neo4r_storage_repair_failures_total"@, m.storage_repair_failures);
    let s9 = s8 + g9;
    lemma_gauge("neo4r_storage_repair_failures_total"@, m.storage_repair_failures);
    let l9 = gauge_line("neo4r_storage_repair_failures_total"@, m.storage_repair_failures);
    lemma_back(s8, g9, l9);
    lemma_front(s8, g9, l1);
    lemma_front(s8, g9, l2);
    lemma_front(s8, g9, l3);
    lemma_front(s8, g9, l4);
    lemma_front(s8, g9, l5);
    lemma_front(s8, g9, l6);
    lemma_front(s8, g9, l7);
    lemma_front(s8, g9, l8);
}

proof fn lemma_five(
    g: Seq<char>,
    a: Seq<char>,
    b: Seq<char>,
    c: Seq<char>,
    d: Seq<char>,
    p: Seq<char>,
)
    requires
        tells(g, p),
    ensures
        tells(g + a + b + c + d, p),
{
    lemma_front(g, a, p);
    lemma_front(g + a, b, p);
    lemma_front(g + a + b, c, p);
    lemma_front(g + a + b + c, d, p);
}

#[verifier::spinoff_prover]
#[verifier::rlimit(100)]
proof fn lemma_gauges_are_told(m: WebMetricsSnapshot, database: Seq<char>, server_id: nat, p: Seq<char>)
    requires
        tells(gauges(m), p),
    ensures
        tells(prometheus_text(m, database, server_id), p),
{
    let a = database_gauges(m, database);
    let b = shard_gauges(
        "neo4r_database_shard_committed_index"@,
        database,
        server_id,
        m.db_committed_indexes@,
    );
    let c = shard_gauges(
        "neo4r_database_shard_applied_index"@,
        database,
        server_id,
        m.db_applied_indexes@,
    );
    let d = shard_gauges(
        "neo4r_database_shard_lag"@,
        database,
        server_id,
        lags(m.db_committed_indexes@, m.db_applied_indexes@),
    );
    lemma_five(gauges(m), a, b, c, d, p);
}

/// The gauges of requests and queries say what was counted, each on a line of its own.
#[verifier::spinoff_prover]
#[verifier::rlimit(100)]
pub proof fn requests_and_queries_are_gauged(m: WebMetricsSnapshot, database: Seq<char>, server_id: nat)
    ensures
        tells(prometheus_text(m, database, server_id), gauge_line("neo4r_http_requests_total"@, m.http_requests)),
        tells(prometheus_text(m, database, server_id), gauge_line("neo4r_http_errors_total"@, m.http_errors)),
        tells(prometheus_text(m, database, server_id), gauge_line("neo4r_auth_failures_total"@, m.auth_failures)),
        tells(prometheus_text(m, database, server_id), gauge_line("neo4r_auth_rate_limited_total"@, m.auth_rate_limited)),
        tells(prometheus_text(m, database, server_id), gauge_line("neo4r_queries_total"@, m.queries)),
        tells(prometheus_text(m, database, server_id), gauge_line("neo4r_query_errors_total"@, m.query_errors)),
        tells(prometheus_text(m, database, server_id), gauge_line("neo4r_slow_queries_total"@, m.slow_queries)),
        tells(prometheus_text(m, database, server_id), gauge_line("neo4r_slow_query_threshold_ms"@, m.slow_query_threshold_ms as u64)),
        tells(prometheus_text(m, database, server_id), gauge_line("neo4r_registry_requests_total"@, m.registry_requests)),
        tells(prometheus_text(m, database, server_id), gauge_line("neo4r_stale_epoch_rejections_total"@, m.stale_epoch_rejections)),
        tells(prometheus_text(m, database, server_id), gauge_line("neo4r_redirects_total"@, m.redirects)),
        tells(prometheus_text(m, database, server_id), gauge_line("neo4r_db_nodes"@, m.db_nodes as u64)),
{
    lemma_gauges_0(m);
    lemma_gauges_0_stay(m, gauge_line("neo4r_http_requests_total"@, m.http_requests));
    lemma_gauges_1_stay(m, gauge_line("neo4r_http_requests_total"@, m.http_requests));
    lemma_gauges_2_stay(m, gauge_line("neo4r_http_requests_total"@, m.http_requests));
    lemma_gauges_are_told(m, database, server_id, gauge_line("neo4r_http_requests_total"@, m.http_requests));
    lemma_gauges_0_stay(m, gauge_line("neo4r_http_errors_total"@, m.http_errors));
    lemma_gauges_1_stay(m, gauge_line("neo4r_http_errors_total"@, m.http_errors));
    lemma_gauges_2_stay(m, gauge_line("neo4r_http_errors_total"@, m.http_errors));
    lemma_gauges_are_told(m, database, server_id, gauge_line("neo4r_http_errors_total"@, m.http_errors));
    lemma_gauges_0_stay(m, gauge_line("neo4r_auth_failures_total"@, m.auth_failures));
    lemma_gauges_1_stay(m, gauge_line("neo4r_auth_failures_total"@, m.auth_failures));
    lemma_gauges_2_stay(m, gauge_line("neo4r_auth_failures_total"@, m.auth_failures));
    lemma_gauges_are_told(m, database, server_id, gauge_line("neo4r_auth_failures_total"@, m.auth_failures));
    lemma_gauges_0_stay(m, gauge_line("neo4r_auth_rate_limited_total"@, m.auth_rate_limited));
    lemma_gauges_1_stay(m, gauge_line("neo4r_auth_rate_limited_total"@, m.auth_rate_limited));
    lemma_gauges_2_stay(m, gauge_line("neo4r_auth_rate_limited_total"@, m.auth_rate_limited));
    lemma_gauges_are_told(m, database, server_id, gauge_line("neo4r_auth_rate_limited_total"@, m.auth_rate_limited));
    lemma_gauges_0_stay(m, gauge_line("neo4r_queries_total"@, m.queries));
    lemma_gauges_1_stay(m, gauge_line("neo4r_queries_total"@, m.queries));
    lemma_gauges_2_stay(m, gauge_line("neo4r_queries_total"@, m.queries));
    lemma_gauges_are_told(m, database, server_id, gauge_line("neo4r_queries_total"@, m.queries));
    lemma_gauges_0_stay(m, gauge_line("neo4r_query_errors_total"@, m.query_errors));
    lemma_gauges_1_stay(m, gauge_line("neo4r_query_errors_total"@, m.query_errors));
    lemma_gauges_2_stay(m, gauge_line("neo4r_query_errors_total"@, m.query_errors));
    lemma_gauges_are_told(m, database, server_id, gauge_line("neo4r_query_errors_total"@, m.query_errors));
    lemma_gauges_0_stay(m, gauge_line("neo4r_slow_queries_total"@, m.slow_queries));
    lemma_gauges_1_stay(m, gauge_line("neo4r_slow_queries_total"@, m.slow_queries));
    lemma_gauges_2_stay(m, gauge_line("neo4r_slow_queries_total"@, m.slow_queries));
    lemma_gauges_are_told(m, database, server_id, gauge_line("neo4r_slow_queries_total"@, m.slow_queries));
    lemma_gauges_0_stay(m, gauge_line("neo4r_slow_query_threshold_ms"@, m.slow_query_threshold_ms as u64));
    lemma_gauges_1_stay(m, gauge_line("neo4r_slow_query_threshold_ms"@, m.slow_query_threshold_ms as u64));
    lemma_gauges_2_stay(m, gauge_line("neo4r_slow_query_threshold_ms"@, m.slow_query_threshold_ms as u64));
    lemma_gauges_are_told(m, database, server_id, gauge_line("neo4r_slow_query_threshold_ms"@, m.slow_query_threshold_ms as u64));
    lemma_gauges_0_stay(m, gauge_line("neo4r_registry_requests_total"@, m.registry_requests));
    lemma_gauges_1_stay(m, gauge_line("neo4r_registry_requests_total"@, m.registry_requests));
    lemma_gauges_2_stay(m, gauge_line("neo4r_registry_requests_total"@, m.registry_requests));
    lemma_gauges_are_told(m, database, server_id, gauge_line("neo4r_registry_requests_total"@, m.registry_requests));
    lemma_gauges_0_stay(m, gauge_line("neo4r_stale_epoch_rejections_total"@, m.stale_epoch_rejections));
    lemma_gauges_1_stay(m, gauge_line("neo4r_stale_epoch_rejections_total"@, m.stale_epoch_rejections));
    lemma_gauges_2_stay(m, gauge_line("neo4r_stale_epoch_rejections_total"@, m.stale_epoch_rejections));
    lemma_gauges_are_told(m, database, server_id, gauge_line("neo4r_stale_epoch_rejections_total"@, m.stale_epoch_rejections));
    lemma_gauges_0_stay(m, gauge_line("neo4r_redirects_total"@, m.redirects));
    lemma_gauges_1_stay(m, gauge_line("neo4r_redirects_total"@, m.redirects));
    lemma_gauges_2_stay(m, gauge_line("neo4r_redirects_total"@, m.redirects));
    lemma_gauges_are_told(m, database, server_id, gauge_line("neo4r_redirects_total"@, m.redirects));
    lemma_gauges_0_stay(m, gauge_line("neo4r_db_nodes"@, m.db_nodes as u64));
    lemma_gauges_1_stay(m, gauge_line("neo4r_db_nodes"@, m.db_nodes as u64));
    lemma_gauges_2_stay(m, gauge_line("neo4r_db_nodes"@, m.db_nodes as u64));
    lemma_gauges_are_told(m, database, server_id, gauge_line("neo4r_db_nodes"@, m.db_nodes as u64));
}

/// The gauges of the database and its indexes say what there is, each on a line of its own.
#[verifier::spinoff_prover]
#[verifier::rlimit(100)]
pub proof fn databases_and_indexes_are_gauged(m: WebMetricsSnapshot, database: Seq<char>, server_id: nat)
    ensures
        tells(prometheus_text(m, database, server_id), gauge_line("neo4r_db_relationships"@, m.db_relationships as u64)),
        tells(prometheus_text(m, database, server_id), gauge_line("neo4r_db_indexes"@, m.db_indexes as u64)),
        tells(prometheus_text(m, database, server_id), gauge_line("neo4r_db_vector_indexes"@, m.db_vector_indexes as u64)),
        tells(prometheus_text(m, database, server_id), gauge_line("neo4r_db_shards"@, m.db_shard_count)),
        tells(prometheus_text(m, database, server_id), gauge_line("neo4r_db_local_partitions"@, m.db_local_partition_count as u64)),
        tells(prometheus_text(m, database, server_id), gauge_line("neo4r_db_committed_index_max"@, max_or_zero(m.db_committed_indexes@))),
        tells(prometheus_text(m, database, server_id), gauge_line("neo4r_db_applied_index_max"@, max_or_zero(m.db_applied_indexes@))),
        tells(prometheus_text(m, database, server_id), gauge_line("neo4r_tenant_databases"@, m.tenant_database_count as u64)),
        tells(prometheus_text(m, database, server_id), gauge_line("neo4r_tenant_disabled_databases"@, m.tenant_disabled_count as u64)),
        tells(prometheus_text(m, database, server_id), gauge_line("neo4r_index_ready"@, m.index_ready_count as u64)),
        tells(prometheus_text(m, database, server_id), gauge_line("neo4r_index_building"@, m.index_building_count as u64)),
        tells(prometheus_text(m, database, server_id), gauge_line("neo4r_index_rebuilding"@, m.index_rebuilding_count as u64)),
{
    lemma_gauges_1(m);
    lemma_gauges_1_stay(m, gauge_line("neo4r_db_relationships"@, m.db_relationships as u64));
    lemma_gauges_2_stay(m, gauge_line("neo4r_db_relationships"@, m.db_relationships as u64));
    lemma_gauges_are_told(m, database, server_id, gauge_line("neo4r_db_relationships"@, m.db_relationships as u64));
    lemma_gauges_1_stay(m, gauge_line("neo4r_db_indexes"@, m.db_indexes as u64));
    lemma_gauges_2_stay(m, gauge_line("neo4r_db_indexes"@, m.db_indexes as u64));
    lemma_gauges_are_told(m, database, server_id, gauge_line("neo4r_db_indexes"@, m.db_indexes as u64));
    lemma_gauges_1_stay(m, gauge_line("neo4r_db_vector_indexes"@, m.db_vector_indexes as u64));
    lemma_gauges_2_stay(m, gauge_line("neo4r_db_vector_indexes"@, m.db_vector_indexes as u64));
    lemma_gauges_are_told(m, database, server_id, gauge_line("neo4r_db_vector_indexes"@, m.db_vector_indexes as u64));
    lemma_gauges_1_stay(m, gauge_line("neo4r_db_shards"@, m.db_shard_count));
    lemma_gauges_2_stay(m, gauge_line("neo4r_db_shards"@, m.db_shard_count));
    lemma_gauges_are_told(m, database, server_id, gauge_line("neo4r_db_shards"@, m.db_shard_count));
    lemma_gauges_1_stay(m, gauge_line("neo4r_db_local_partitions"@, m.db_local_partition_count as u64));
    lemma_gauges_2_stay(m, gauge_line("neo4r_db_local_partitions"@, m.db_local_partition_count as u64));
    lemma_gauges_are_told(m, database, server_id, gauge_line("neo4r_db_local_partitions"@, m.db_local_partition_count as u64));
    lemma_gauges_1_stay(m, gauge_line("neo4r_db_committed_index_max"@, max_or_zero(m.db_committed_indexes@)));
    lemma_gauges_2_stay(m, gauge_line("neo4r_db_committed_index_max"@, max_or_zero(m.db_committed_indexes@)));
    lemma_gauges_are_told(m, database, server_id, gauge_line("neo4r_db_committed_index_max"@, max_or_zero(m.db_committed_indexes@)));
    lemma_gauges_1_stay(m, gauge_line("neo4r_db_applied_index_max"@, max_or_zero(m.db_applied_indexes@)));
    lemma_gauges_2_stay(m, gauge_line("neo4r_db_applied_index_max"@, max_or_zero(m.db_applied_indexes@)));
    lemma_gauges_are_told(m, database, server_id, gauge_line("neo4r_db_applied_index_max"@, max_or_zero(m.db_applied_indexes@)));
    lemma_gauges_1_stay(m, gauge_line("neo4r_tenant_databases"@, m.tenant_database_count as u64));
    lemma_gauges_2_stay(m, gauge_line("neo4r_tenant_databases"@, m.tenant_database_count as u64));
    lemma_gauges_are_told(m, database, server_id, gauge_line("neo4r_tenant_databases"@, m.tenant_database_count as u64));
    lemma_gauges_1_stay(m, gauge_line("neo4r_tenant_disabled_databases"@, m.tenant_disabled_count as u64));
    lemma_gauges_2_stay(m, gauge_line("neo4r_tenant_disabled_databases"@, m.tenant_disabled_count as u64));
    lemma_gauges_are_told(m, database, server_id, gauge_line("neo4r_tenant_disabled_databases"@, m.tenant_disabled_count as u64));
    lemma_gauges_1_stay(m, gauge_line("neo4r_index_ready"@, m.index_ready_count as u64));
    lemma_gauges_2_stay(m, gauge_line("neo4r_index_ready"@, m.index_ready_count as u64));
    lemma_gauges_are_told(m, database, server_id, gauge_line("neo4r_index_ready"@, m.index_ready_count as u64));
    lemma_gauges_1_stay(m, gauge_line("neo4r_index_building"@, m.index_building_count as u64));
    lemma_gauges_2_stay(m, gauge_line("neo4r_index_building"@, m.index_building_count as u64));
    lemma_gauges_are_told(m, database, server_id, gauge_line("neo4r_index_building"@, m.index_building_count as u64));
    lemma_gauges_1_stay(m, gauge_line("neo4r_index_rebuilding"@, m.index_rebuilding_count as u64));
    lemma_gauges_2_stay(m, gauge_line("neo4r_index_rebuilding"@, m.index_rebuilding_count as u64));
    lemma_gauges_are_told(m, database, server_id, gauge_line("neo4r_index_rebuilding"@, m.index_rebuilding_count as u64));
}

/// The gauges of the consensus, the users and the audit say what there is, each on a line of its own.
#[verifier::spinoff_prover]
#[verifier::rlimit(100)]
pub proof fn consensus_and_users_are_gauged(m: WebMetricsSnapshot, database: Seq<char>, server_id: nat)
    ensures
        tells(prometheus_text(m, database, server_id), gauge_line("neo4r_index_failed"@, m.index_failed_count as u64)),
        tells(prometheus_text(m, database, server_id), gauge_line("neo4r_raft_groups"@, m.raft_group_count as u64)),
        tells(prometheus_text(m, database, server_id), gauge_line("neo4r_raft_leaders"@, m.raft_leader_count as u64)),
        tells(prometheus_text(m, database, server_id), gauge_line("neo4r_raft_term_max"@, m.raft_term_max)),
        tells(prometheus_text(m, database, server_id), gauge_line("neo4r_raft_snapshot_index_max"@, m.raft_snapshot_index_max)),
        tells(prometheus_text(m, database, server_id), gauge_line("neo4r_raft_joint_consensus_groups"@, m.raft_joint_consensus_count as u64)),
        tells(prometheus_text(m, database, server_id), gauge_line("neo4r_web_user_tokens"@, m.web_user_token_count as u64)),
        tells(prometheus_text(m, database, server_id), gauge_line("neo4r_web_audit_events"@, m.web_audit_event_count as u64)),
        tells(prometheus_text(m, database, server_id), gauge_line("neo4r_replication_channel_sent_batches_total"@, m.replication_sent_batches as u64)),
        tells(prometheus_text(m, database, server_id), gauge_line("neo4r_replication_channel_acked_batches_total"@, m.replication_acked_batches as u64)),
        tells(prometheus_text(m, database, server_id), gauge_line("neo4r_replication_channel_failed_batches_total"@, m.replication_failed_batches as u64)),
        tells(prometheus_text(m, database, server_id), gauge_line("neo4r_replication_channel_sent_entries_total"@, m.replication_sent_entries as u64)),
{
    lemma_gauges_2(m);
    lemma_gauges_2_stay(m, gauge_line("neo4r_index_failed"@, m.index_failed_count as u64));
    lemma_gauges_are_told(m, database, server_id, gauge_line("neo4r_index_failed"@, m.index_failed_count as u64));
    lemma_gauges_2_stay(m, gauge_line("neo4r_raft_groups"@, m.raft_group_count as u64));
    lemma_gauges_are_told(m, database, server_id, gauge_line("neo4r_raft_groups"@, m.raft_group_count as u64));
    lemma_gauges_2_stay(m, gauge_line("neo4r_raft_leaders"@, m.raft_leader_count as u64));
    lemma_gauges_are_told(m, database, server_id, gauge_line("neo4r_raft_leaders"@, m.raft_leader_count as u64));
    lemma_gauges_2_stay(m, gauge_line("neo4r_raft_term_max"@, m.raft_term_max));
    lemma_gauges_are_told(m, database, server_id, gauge_line("neo4r_raft_term_max"@, m.raft_term_max));
    lemma_gauges_2_stay(m, gauge_line("neo4r_raft_snapshot_index_max"@, m.raft_snapshot_index_max));
    lemma_gauges_are_told(m, database, server_id, gauge_line("neo4r_raft_snapshot_index_max"@, m.raft_snapshot_index_max));
    lemma_gauges_2_stay(m, gauge_line("neo4r_raft_joint_consensus_groups"@, m.raft_joint_consensus_count as u64));
    lemma_gauges_are_told(m, database, server_id, gauge_line("neo4r_raft_joint_consensus_groups"@, m.raft_joint_consensus_count as u64));
    lemma_gauges_2_stay(m, gauge_line("neo4r_web_user_tokens"@, m.web_user_token_count as u64));
    lemma_gauges_are_told(m, database, server_id, gauge_line("neo4r_web_user_tokens"@, m.web_user_token_count as u64));
    lemma_gauges_2_stay(m, gauge_line("neo4r_web_audit_events"@, m.web_audit_event_count as u64));
    lemma_gauges_are_told(m, database, server_id, gauge_line("neo4r_web_audit_events"@, m.web_audit_event_count as u64));
    lemma_gauges_2_stay(m, gauge_line("neo4r_replication_channel_sent_batches_total"@, m.replication_sent_batches as u64));
    lemma_gauges_are_told(m, database, server_id, gauge_line("neo4r_replication_channel_sent_batches_total"@, m.replication_sent_batches as u64));
    lemma_gauges_2_stay(m, gauge_line("neo4r_replication_channel_acked_batches_total"@, m.replication_acked_batches as u64));
    lemma_gauges_are_told(m, database, server_id, gauge_line("neo4r_replication_channel_acked_batches_total"@, m.replication_acked_batches as u64));
    lemma_gauges_2_stay(m, gauge_line("neo4r_replication_channel_failed_batches_total"@, m.replication_failed_batches as u64));
    lemma_gauges_are_told(m, database, server_id, gauge_line("neo4r_replication_channel_failed_batches_total"@, m.replication_failed_batches as u64));
    lemma_gauges_2_stay(m, gauge_line("neo4r_replication_channel_sent_entries_total"@, m.replication_sent_entries as u64));
    lemma_gauges_are_told(m, database, server_id, gauge_line("neo4r_replication_channel_sent_entries_total"@, m.replication_sent_entries as u64));
}

/// The gauges of the replication and of repairs say what happened, each on a line of its own.
#[verifier::spinoff_prover]
#[verifier::rlimit(100)]
pub proof fn replication_and_repairs_are_gauged(m: WebMetricsSnapshot, database: Seq<char>, server_id: nat)
    ensures
        tells(prometheus_text(m, database, server_id), gauge_line("neo4r_replication_channel_sent_bytes_total"@, m.replication_sent_bytes)),
        tells(prometheus_text(m, database, server_id), gauge_line("neo4r_raft_election_rounds_total"@, m.raft_election_rounds as u64)),
        tells(prometheus_text(m, database, server_id), gauge_line("neo4r_raft_append_conflicts_total"@, m.raft_append_conflicts as u64)),
        tells(prometheus_text(m, database, server_id), gauge_line("neo4r_raft_snapshot_installs_total"@, m.raft_snapshot_installs as u64)),
        tells(prometheus_text(m, database, server_id), gauge_line("neo4r_raft_snapshot_install_duration_ms_total"@, m.raft_snapshot_install_millis)),
        tells(prometheus_text(m, database, server_id), gauge_line("neo4r_query_plan_cost_model_version"@, m.query_plan_cost_model_version)),
        tells(prometheus_text(m, database, server_id), gauge_line("neo4r_backup_restore_last_success_timestamp_seconds"@, m.backup_restore_last_success_timestamp_seconds)),
        tells(prometheus_text(m, database, server_id), gauge_line("neo4r_storage_repair_last_success_timestamp_seconds"@, m.storage_repair_last_success_timestamp_seconds)),
        tells(prometheus_text(m, database, server_id), gauge_line("neo4r_storage_repair_failures_total"@, m.storage_repair_failures)),
{
    lemma_gauges(m);
    lemma_gauges_are_told(m, database, server_id, gauge_line("neo4r_replication_channel_sent_bytes_total"@, m.replication_sent_bytes));
    lemma_gauges_are_told(m, database, server_id, gauge_line("neo4r_raft_election_rounds_total"@, m.raft_election_rounds as u64));
    lemma_gauges_are_told(m, database, server_id, gauge_line("neo4r_raft_append_conflicts_total"@, m.raft_append_conflicts as u64));
    lemma_gauges_are_told(m, database, server_id, gauge_line("neo4r_raft_snapshot_installs_total"@, m.raft_snapshot_installs as u64));
    lemma_gauges_are_told(m, database, server_id, gauge_line("neo4r_raft_snapshot_install_duration_ms_total"@, m.raft_snapshot_install_millis));
    lemma_gauges_are_told(m, database, server_id, gauge_line("neo4r_query_plan_cost_model_version"@, m.query_plan_cost_model_version));
    lemma_gauges_are_told(m, database, server_id, gauge_line("neo4r_backup_restore_last_success_timestamp_seconds"@, m.backup_restore_last_success_timestamp_seconds));
    lemma_gauges_are_told(m, database, server_id, gauge_line("neo4r_storage_repair_last_success_timestamp_seconds"@, m.storage_repair_last_success_timestamp_seconds));
    lemma_gauges_are_told(m, database, server_id, gauge_line("neo4r_storage_repair_failures_total"@, m.storage_repair_failures));
}

/// Whether a value stands between two keys.
pub open spec fn stands_between(s: Seq<char>, before: Seq<char>, value: Seq<char>, after: Seq<char>) -> bool {
    tells(s, before + value + after)
}

proof fn lemma_between(s: Seq<char>, before: Seq<char>, value: Seq<char>, after: Seq<char>)
    ensures
        stands_between(s + before + value + after, before, value, after),
{
    let p = before + value + after;
    lemma_itself(p);
    lemma_back(s, p, p);
    assert(s + p =~= s + before + value + after);
}

#[verifier::spinoff_prover]
#[verifier::rlimit(100)]
proof fn lemma_metrics_json_0_stays(m: WebMetricsSnapshot, p: Seq<char>)
    requires
        tells(metrics_json_0(m), p),
    ensures
        tells(metrics_json_1(m), p),
{
    let s0 = metrics_json_0(m);
    let x1 = "\",\"db_nodes\":"@;
    let s1 = s0 + x1;
    lemma_front(s0, x1, p);
    let x2 = dec(m.db_nodes as nat);
    let s2 = s1 + x2;
    lemma_front(s1, x2, p);
    let x3 = ",\"db_relationships\":"@;
    let s3 = s2 + x3;
    lemma_front(s2, x3, p);
    let x4 = dec(m.db_relationships as nat);
    let s4 = s3 + x4;
    lemma_front(s3, x4, p);
    let x5 = ",\"db_indexes\":"@;
    let s5 = s4 + x5;
    lemma_front(s4, x5, p);
    let x6 = dec(m.db_indexes as nat);
    let s6 = s5 + x6;
    lemma_front(s5, x6, p);
    let x7 = ",\"db_vector_indexes\":"@;
    let s7 = s6 + x7;
    lemma_front(s6, x7, p);
    let x8 = dec(m.db_vector_indexes as nat);
    let s8 = s7 + x8;
    lemma_front(s7, x8, p);
    let x9 = ",\"db_shard_count\":"@;
    let s9 = s8 + x9;
    lemma_front(s8, x9, p);
    let x10 = dec(m.db_shard_count as nat);
    let s10 = s9 + x10;
    lemma_front(s9, x10, p);
    let x11 = ",\"db_local_partition_count\":"@;
    let s11 = s10 + x11;
    lemma_front(s10, x11, p);
    let x12 = dec(m.db_local_partition_count as nat);
    let s12 = s11 + x12;
    lemma_front(s11, x12, p);
    let x13 = ",\"db_committed_indexes\":["@;
    let s13 = s12 + x13;
    lemma_front(s12, x13, p);
    let x14 = number_list(m.db_committed_indexes@);
    let s14 = s13 + x14;
    lemma_front(s13, x14, p);
    let x15 = "],\"db_applied_indexes\":["@;
    let s15 = s14 + x15;
    lemma_front(s14, x15, p);
    let x16 = number_list(m.db_applied_indexes@);
    let s16 = s15 + x16;
    lemma_front(s15, x16, p);
    let x17 = "],\"tenant_database_count\":"@;
    let s17 = s16 + x17;
    lemma_front(s16, x17, p);
    let x18 = dec(m.tenant_database_count as nat);
    let s18 = s17 + x18;
    lemma_front(s17, x18, p);
    let x19 = ",\"tenant_disabled_count\":"@;
    let s19 = s18 + x19;
    lemma_front(s18, x19, p);
    let x20 = dec(m.tenant_disabled_count as nat);
    let s20 = s19 + x20;
    lemma_front(s19, x20, p);
    let x21 = ",\"index_ready_count\":"@;
    let s21 = s20 + x21;
    lemma_front(s20, x21, p);
    let x22 = dec(m.index_ready_count as nat);
    let s22 = s21 + x22;
    lemma_front(s21, x22, p);
    let x23 = ",\"index_building_count\":"@;
    let s23 = s22 + x23;
    lemma_front(s22, x23, p);
    let x24 = dec(m.index_building_count as nat);
    let s24 = s23 + x24;
    lemma_front(s23, x24, p);
}

#[verifier::spinoff_prover]
#[verifier::rlimit(100)]
proof fn lemma_metrics_json_1_stays(m: WebMetricsSnapshot, p: Seq<char>)
    requires
        tells(metrics_json_1(m), p),
    ensures
        tells(metrics_json_2(m), p),
{
    let s0 = metrics_json_1(m);
    let x1 = ",\"index_rebuilding_count\":"@;
    let s1 = s0 + x1;
    lemma_front(s0, x1, p);
    let x2 = dec(m.index_rebuilding_count as nat);
    let s2 = s1 + x2;
    lemma_front(s1, x2, p);
    let x3 = ",\"index_failed_count\":"@;
    let s3 = s2 + x3;
    lemma_front(s2, x3, p);
    let x4 = dec(m.index_failed_count as nat);
    let s4 = s3 + x4;
    lemma_front(s3, x4, p);
    let x5 = ",\"raft_group_count\":"@;
    let s5 = s4 + x5;
    lemma_front(s4, x5, p);
    let x6 = dec(m.raft_group_count as nat);
    let s6 = s5 + x6;
    lemma_front(s5, x6, p);
    let x7 = ",\"raft_leader_count\":"@;
    let s7 = s6 + x7;
    lemma_front(s6, x7, p);
    let x8 = dec(m.raft_leader_count as nat);
    let s8 = s7 + x8;
    lemma_front(s7, x8, p);
    let x9 = ",\"raft_term_max\":"@;
    let s9 = s8 + x9;
    lemma_front(s8, x9, p);
    let x10 = dec(m.raft_term_max as nat);
    let s10 = s9 + x10;
    lemma_front(s9, x10, p);
    let x11 = ",\"raft_snapshot_index_max\":"@;
    let s11 = s10 + x11;
    lemma_front(s10, x11, p);
    let x12 = dec(m.raft_snapshot_index_max as nat);
    let s12 = s11 + x12;
    lemma_front(s11, x12, p);
    let x13 = ",\"raft_joint_consensus_count\":"@;
    let s13 = s12 + x13;
    lemma_front(s12, x13, p);
    let x14 = dec(m.raft_joint_consensus_count as nat);
    let s14 = s13 + x14;
    lemma_front(s13, x14, p);
    let x15 = ",\"web_user_token_count\":"@;
    let s15 = s14 + x15;
    lemma_front(s14, x15, p);
    let x16 = dec(m.web_user_token_count as nat);
    let s16 = s15 + x16;
    lemma_front(s15, x16, p);
    let x17 = ",\"web_audit_event_count\":"@;
    let s17 = s16 + x17;
    lemma_front(s16, x17, p);
    let x18 = dec(m.web_audit_event_count as nat);
    let s18 = s17 + x18;
    lemma_front(s17, x18, p);
    let x19 = ",\"replication_sent_batches\":"@;
    let s19 = s18 + x19;
    lemma_front(s18, x19, p);
    let x20 = dec(m.replication_sent_batches as nat);
    let s20 = s19 + x20;
    lemma_front(s19, x20, p);
    let x21 = ",\"replication_acked_batches\":"@;
    let s21 = s20 + x21;
    lemma_front(s20, x21, p);
    let x22 = dec(m.replication_acked_batches as nat);
    let s22 = s21 + x22;
    lemma_front(s21, x22, p);
    let x23 = ",\"replication_failed_batches\":"@;
    let s23 = s22 + x23;
    lemma_front(s22, x23, p);
    let x24 = dec(m.replication_failed_batches as nat);
    let s24 = s23 + x24;
    lemma_front(s23, x24, p);
}

#[verifier::spinoff_prover]
#[verifier::rlimit(100)]
proof fn lemma_metrics_json_2_stays(m: WebMetricsSnapshot, p: Seq<char>)
    requires
        tells(metrics_json_2(m), p),
    ensures
        tells(metrics_body(m), p),
{
    let s0 = metrics_json_2(m);
    let x1 = ",\"replication_sent_entries\":"@;
    let s1 = s0 + x1;
    lemma_front(s0, x1, p);
    let x2 = dec(m.replication_sent_entries as nat);
    let s2 = s1 + x2;
    lemma_front(s1, x2, p);
    let x3 = ",\"replication_sent_bytes\":"@;
    let s3 = s2 + x3;
    lemma_front(s2, x3, p);
    let x4 = dec(m.replication_sent_bytes as nat);
    let s4 = s3 + x4;
    lemma_front(s3, x4, p);
    let x5 = ",\"raft_election_rounds\":"@;
    let s5 = s4 + x5;
    lemma_front(s4, x5, p);
    let x6 = dec(m.raft_election_rounds as nat);
    let s6 = s5 + x6;
    lemma_front(s5, x6, p);
    let x7 = ",\"raft_append_conflicts\":"@;
    let s7 = s6 + x7;
    lemma_front(s6, x7, p);
    let x8 = dec(m.raft_append_conflicts as nat);
    let s8 = s7 + x8;
    lemma_front(s7, x8, p);
    let x9 = ",\"raft_snapshot_installs\":"@;
    let s9 = s8 + x9;
    lemma_front(s8, x9, p);
    let x10 = dec(m.raft_snapshot_installs as nat);
    let s10 = s9 + x10;
    lemma_front(s9, x10, p);
    let x11 = ",\"raft_snapshot_install_millis\":"@;
    let s11 = s10 + x11;
    lemma_front(s10, x11, p);
    let x12 = dec(m.raft_snapshot_install_millis as nat);
    let s12 = s11 + x12;
    lemma_front(s11, x12, p);
    let x13 = ",\"query_plan_cost_model_version\":"@;
    let s13 = s12 + x13;
    lemma_front(s12, x13, p);
    let x14 = dec(m.query_plan_cost_model_version as nat);
    let s14 = s13 + x14;
    lemma_front(s13, x14, p);
    let x15 = ",\"backup_restore_last_success_timestamp_seconds\":"@;
    let s15 = s14 + x15;
    lemma_front(s14, x15, p);
    let x16 = dec(m.backup_restore_last_success_timestamp_seconds as nat);
    let s16 = s15 + x16;
    lemma_front(s15, x16, p);
    let x17 = ",\"storage_repair_last_success_timestamp_seconds\":"@;
    let s17 = s16 + x17;
    lemma_front(s16, x17, p);
    let x18 = dec(m.storage_repair_last_success_timestamp_seconds as nat);
    let s18 = s17 + x18;
    lemma_front(s17, x18, p);
    let x19 = ",\"storage_repair_failures\":"@;
    let s19 = s18 + x19;
    lemma_front(s18, x19, p);
    let x20 = dec(m.storage_repair_failures as nat);
    let s20 = s19 + x20;
    lemma_front(s19, x20, p);
    let x21 = "}"@;
    let s21 = s20 + x21;
    lemma_front(s20, x21, p);
}

/// The metrics of requests and queries are told under their names.
#[verifier::spinoff_prover]
#[verifier::rlimit(100)]
pub proof fn told_metrics_count_requests(m: WebMetricsSnapshot)
    ensures
        stands_between(
            metrics_body(m),
            "{\"http_requests\":"@,
            dec(m.http_requests as nat),
            ",\"http_errors\":"@,
        ),
        stands_between(
            metrics_body(m),
            ",\"http_errors\":"@,
            dec(m.http_errors as nat),
            ",\"auth_failures\":"@,
        ),
        stands_between(
            metrics_body(m),
            ",\"auth_failures\":"@,
            dec(m.auth_failures as nat),
            ",\"auth_rate_limited\":"@,
        ),
        stands_between(
            metrics_body(m),
            ",\"auth_rate_limited\":"@,
            dec(m.auth_rate_limited as nat),
            ",\"queries\":"@,
        ),
        stands_between(
            metrics_body(m),
            ",\"queries\":"@,
            dec(m.queries as nat),
            ",\"query_errors\":"@,
        ),
        stands_between(
            metrics_body(m),
            ",\"query_errors\":"@,
            dec(m.query_errors as nat),
            ",\"slow_queries\":"@,
        ),
        stands_between(
            metrics_body(m),
            ",\"slow_queries\":"@,
            dec(m.slow_queries as nat),
            ",\"slow_query_threshold_ms\":"@,
        ),
        stands_between(
            metrics_body(m),
            ",\"slow_query_threshold_ms\":"@,
            dec(m.slow_query_threshold_ms as nat),
            ",\"registry_requests\":"@,
        ),
        stands_between(
            metrics_body(m),
            ",\"registry_requests\":"@,
            dec(m.registry_requests as nat),
            ",\"stale_epoch_rejections\":"@,
        ),
        stands_between(
            metrics_body(m),
            ",\"stale_epoch_rejections\":"@,
            dec(m.stale_epoch_rejections as nat),
            ",\"redirects\":"@,
        ),
        stands_between(
            metrics_body(m),
            ",\"redirects\":"@,
            dec(m.redirects as nat),
            ",\"migration_state\":\""@,
        ),
{
    let s0 = Seq::<char>::empty();
    let x1 = "{\"http_requests\":"@;
    let s1 = s0 + x1;
    let x2 = dec(m.http_requests as nat);
    let s2 = s1 + x2;
    let x3 = ",\"http_errors\":"@;
    let s3 = s2 + x3;
    let x4 = dec(m.http_errors as nat);
    let s4 = s3 + x4;
    let x5 = ",\"auth_failures\":"@;
    let s5 = s4 + x5;
    let x6 = dec(m.auth_failures as nat);
    let s6 = s5 + x6;
    let x7 = ",\"auth_rate_limited\":"@;
    let s7 = s6 + x7;
    let x8 = dec(m.auth_rate_limited as nat);
    let s8 = s7 + x8;
    let x9 = ",\"queries\":"@;
    let s9 = s8 + x9;
    let x10 = dec(m.queries as nat);
    let s10 = s9 + x10;
    let x11 = ",\"query_errors\":"@;
    let s11 = s10 + x11;
    let x12 = dec(m.query_errors as nat);
    let s12 = s11 + x12;
    let x13 = ",\"slow_queries\":"@;
    let s13 = s12 + x13;
    let x14 = dec(m.slow_queries as nat);
    let s14 = s13 + x14;
    let x15 = ",\"slow_query_threshold_ms\":"@;
    let s15 = s14 + x15;
    let x16 = dec(m.slow_query_threshold_ms as nat);
    let s16 = s15 + x16;
    let x17 = ",\"registry_requests\":"@;
    let s17 = s16 + x17;
    let x18 = dec(m.registry_requests as nat);
    let s18 = s17 + x18;
    let x19 = ",\"stale_epoch_rejections\":"@;
    let s19 = s18 + x19;
    let x20 = dec(m.stale_epoch_rejections as nat);
    let s20 = s19 + x20;
    let x21 = ",\"redirects\":"@;
    let s21 = s20 + x21;
    let x22 = dec(m.redirects as nat);
    let s22 = s21 + x22;
    let x23 = ",\"migration_state\":\""@;
    let s23 = s22 + x23;
    let x24 = json_escaped(m.migration_state@);
    let s24 = s23 + x24;
    assert(s1 =~= x1);
    lemma_between(s0, x1, x2, x3);
    let p1 = "{\"http_requests\":"@ + dec(m.http_requests as nat) + ",\"http_errors\":"@;
    lemma_front(s3, x4, p1);
    lemma_front(s4, x5, p1);
    lemma_front(s5, x6, p1);
    lemma_front(s6, x7, p1);
    lemma_front(s7, x8, p1);
    lemma_front(s8, x9, p1);
    lemma_front(s9, x10, p1);
    lemma_front(s10, x11, p1);
    lemma_front(s11, x12, p1);
    lemma_front(s12, x13, p1);
    lemma_front(s13, x14, p1);
    lemma_front(s14, x15, p1);
    lemma_front(s15, x16, p1);
    lemma_front(s16, x17, p1);
    lemma_front(s17, x18, p1);
    lemma_front(s18, x19, p1);
    lemma_front(s19, x20, p1);
    lemma_front(s20, x21, p1);
    lemma_front(s21, x22, p1);
    lemma_front(s22, x23, p1);
    lemma_front(s23, x24, p1);
    lemma_between(s2, x3, x4, x5);
    let p3 = ",\"http_errors\":"@ + dec(m.http_errors as nat) + ",\"auth_failures\":"@;
    lemma_front(s5, x6, p3);
    lemma_front(s6, x7, p3);
    lemma_front(s7, x8, p3);
    lemma_front(s8, x9, p3);
    lemma_front(s9, x10, p3);
    lemma_front(s10, x11, p3);
    lemma_front(s11, x12, p3);
    lemma_front(s12, x13, p3);
    lemma_front(s13, x14, p3);
    lemma_front(s14, x15, p3);
    lemma_front(s15, x16, p3);
    lemma_front(s16, x17, p3);
    lemma_front(s17, x18, p3);
    lemma_front(s18, x19, p3);
    lemma_front(s19, x20, p3);
    lemma_front(s20, x21, p3);
    lemma_front(s21, x22, p3);
    lemma_front(s22, x23, p3);
    lemma_front(s23, x24, p3);
    lemma_between(s4, x5, x6, x7);
    let p5 = ",\"auth_failures\":"@ + dec(m.auth_failures as nat) + ",\"auth_rate_limited\":"@;
    lemma_front(s7, x8, p5);
    lemma_front(s8, x9, p5);
    lemma_front(s9, x10, p5);
    lemma_front(s10, x11, p5);
    lemma_front(s11, x12, p5);
    lemma_front(s12, x13, p5);
    lemma_front(s13, x14, p5);
    lemma_front(s14, x15, p5);
    lemma_front(s15, x16, p5);
    lemma_front(s16, x17, p5);
    lemma_front(s17, x18, p5);
    lemma_front(s18, x19, p5);
    lemma_front(s19, x20, p5);
    lemma_front(s20, x21, p5);
    lemma_front(s21, x22, p5);
    lemma_front(s22, x23, p5);
    lemma_front(s23, x24, p5);
    lemma_between(s6, x7, x8, x9);
    let p7 = ",\"auth_rate_limited\":"@ + dec(m.auth_rate_limited as nat) + ",\"queries\":"@;
    lemma_front(s9, x10, p7);
    lemma_front(s10, x11, p7);
    lemma_front(s11, x12, p7);
    lemma_front(s12, x13, p7);
    lemma_front(s13, x14, p7);
    lemma_front(s14, x15, p7);
    lemma_front(s15, x16, p7);
    lemma_front(s16, x17, p7);
    lemma_front(s17, x18, p7);
    lemma_front(s18, x19, p7);
    lemma_front(s19, x20, p7);
    lemma_front(s20, x21, p7);
    lemma_front(s21, x22, p7);
    lemma_front(s22, x23, p7);
    lemma_front(s23, x24, p7);
    lemma_between(s8, x9, x10, x11);
    let p9 = ",\"queries\":"@ + dec(m.queries as nat) + ",\"query_errors\":"@;
    lemma_front(s11, x12, p9);
    lemma_front(s12, x13, p9);
    lemma_front(s13, x14, p9);
    lemma_front(s14, x15, p9);
    lemma_front(s15, x16, p9);
    lemma_front(s16, x17, p9);
    lemma_front(s17, x18, p9);
    lemma_front(s18, x19, p9);
    lemma_front(s19, x20, p9);
    lemma_front(s20, x21, p9);
    lemma_front(s21, x22, p9);
    lemma_front(s22, x23, p9);
    lemma_front(s23, x24, p9);
    lemma_between(s10, x11, x12, x13);
    let p11 = ",\"query_errors\":"@ + dec(m.query_errors as nat) + ",\"slow_queries\":"@;
    lemma_front(s13, x14, p11);
    lemma_front(s14, x15, p11);
    lemma_front(s15, x16, p11);
    lemma_front(s16, x17, p11);
    lemma_front(s17, x18, p11);
    lemma_front(s18, x19, p11);
    lemma_front(s19, x20, p11);
    lemma_front(s20, x21, p11);
    lemma_front(s21, x22, p11);
    lemma_front(s22, x23, p11);
    lemma_front(s23, x24, p11);
    lemma_between(s12, x13, x14, x15);
    let p13 = ",\"slow_queries\":"@ + dec(m.slow_queries as nat) + ",\"slow_query_threshold_ms\":"@;
    lemma_front(s15, x16, p13);
    lemma_front(s16, x17, p13);
    lemma_front(s17, x18, p13);
    lemma_front(s18, x19, p13);
    lemma_front(s19, x20, p13);
    lemma_front(s20, x21, p13);
    lemma_front(s21, x22, p13);
    lemma_front(s22, x23, p13);
    lemma_front(s23, x24, p13);
    lemma_between(s14, x15, x16, x17);
    let p15 = ",\"slow_query_threshold_ms\":"@ + dec(m.slow_query_threshold_ms as nat) + ",\"registry_requests\":"@;
    lemma_front(s17, x18, p15);
    lemma_front(s18, x19, p15);
    lemma_front(s19, x20, p15);
    lemma_front(s20, x21, p15);
    lemma_front(s21, x22, p15);
    lemma_front(s22, x23, p15);
    lemma_front(s23, x24, p15);
    lemma_between(s16, x17, x18, x19);
    let p17 = ",\"registry_requests\":"@ + dec(m.registry_requests as nat) + ",\"stale_epoch_rejections\":"@;
    lemma_front(s19, x20, p17);
    lemma_front(s20, x21, p17);
    lemma_front(s21, x22, p17);
    lemma_front(s22, x23, p17);
    lemma_front(s23, x24, p17);
    lemma_between(s18, x19, x20, x21);
    let p19 = ",\"stale_epoch_rejections\":"@ + dec(m.stale_epoch_rejections as nat) + ",\"redirects\":"@;
    lemma_front(s21, x22, p19);
    lemma_front(s22, x23, p19);
    lemma_front(s23, x24, p19);
    lemma_between(s20, x21, x22, x23);
    let p21 = ",\"redirects\":"@ + dec(m.redirects as nat) + ",\"migration_state\":\""@;
    lemma_front(s23, x24, p21);
    assert(s24 == metrics_json_0(m));
    lemma_metrics_json_0_stays(m, p1);
    lemma_metrics_json_1_stays(m, p1);
    lemma_metrics_json_2_stays(m, p1);
    lemma_metrics_json_0_stays(m, p3);
    lemma_metrics_json_1_stays(m, p3);
    lemma_metrics_json_2_stays(m, p3);
    lemma_metrics_json_0_stays(m, p5);
    lemma_metrics_json_1_stays(m, p5);
    lemma_metrics_json_2_stays(m, p5);
    lemma_metrics_json_0_stays(m, p7);
    lemma_metrics_json_1_stays(m, p7);
    lemma_metrics_json_2_stays(m, p7);
    lemma_metrics_json_0_stays(m, p9);
    lemma_metrics_json_1_stays(m, p9);
    lemma_metrics_json_2_stays(m, p9);
    lemma_metrics_json_0_stays(m, p11);
    lemma_metrics_json_1_stays(m, p11);
    lemma_metrics_json_2_stays(m, p11);
    lemma_metrics_json_0_stays(m, p13);
    lemma_metrics_json_1_stays(m, p13);
    lemma_metrics_json_2_stays(m, p13);
    lemma_metrics_json_0_stays(m, p15);
    lemma_metrics_json_1_stays(m, p15);
    lemma_metrics_json_2_stays(m, p15);
    lemma_metrics_json_0_stays(m, p17);
    lemma_metrics_json_1_stays(m, p17);
    lemma_metrics_json_2_stays(m, p17);
    lemma_metrics_json_0_stays(m, p19);
    lemma_metrics_json_1_stays(m, p19);
    lemma_metrics_json_2_stays(m, p19);
    lemma_metrics_json_0_stays(m, p21);
    lemma_metrics_json_1_stays(m, p21);
    lemma_metrics_json_2_stays(m, p21);
}

/// The metrics of the database and its indexes are told under their names.
#[verifier::spinoff_prover]
#[verifier::rlimit(100)]
pub proof fn told_metrics_count_the_database(m: WebMetricsSnapshot)
    ensures
        stands_between(
            metrics_body(m),
            ",\"migration_state\":\""@,
            json_escaped(m.migration_state@),
            "\",\"db_nodes\":"@,
        ),
        stands_between(
            metrics_body(m),
            "\",\"db_nodes\":"@,
            dec(m.db_nodes as nat),
            ",\"db_relationships\":"@,
        ),
        stands_between(
            metrics_body(m),
            ",\"db_relationships\":"@,
            dec(m.db_relationships as nat),
            ",\"db_indexes\":"@,
        ),
        stands_between(
            metrics_body(m),
            ",\"db_indexes\":"@,
            dec(m.db_indexes as nat),
            ",\"db_vector_indexes\":"@,
        ),
        stands_between(
            metrics_body(m),
            ",\"db_vector_indexes\":"@,
            dec(m.db_vector_indexes as nat),
            ",\"db_shard_count\":"@,
        ),
        stands_between(
            metrics_body(m),
            ",\"db_shard_count\":"@,
            dec(m.db_shard_count as nat),
            ",\"db_local_partition_count\":"@,
        ),
        stands_between(
            metrics_body(m),
            ",\"db_local_partition_count\":"@,
            dec(m.db_local_partition_count as nat),
            ",\"db_committed_indexes\":["@,
        ),
        stands_between(
            metrics_body(m),
            ",\"db_committed_indexes\":["@,
            number_list(m.db_committed_indexes@),
            "],\"db_applied_indexes\":["@,
        ),
        stands_between(
            metrics_body(m),
            "],\"db_applied_indexes\":["@,
            number_list(m.db_applied_indexes@),
            "],\"tenant_database_count\":"@,
        ),
        stands_between(
            metrics_body(m),
            "],\"tenant_database_count\":"@,
            dec(m.tenant_database_count as nat),
            ",\"tenant_disabled_count\":"@,
        ),
        stands_between(
            metrics_body(m),
            ",\"tenant_disabled_count\":"@,
            dec(m.tenant_disabled_count as nat),
            ",\"index_ready_count\":"@,
        ),
        stands_between(
            metrics_body(m),
            ",\"index_ready_count\":"@,
            dec(m.index_ready_count as nat),
            ",\"index_building_count\":"@,
        ),
{
    let s0 = metrics_json_0(m);
    let x1 = "\",\"db_nodes\":"@;
    let s1 = s0 + x1;
    let x2 = dec(m.db_nodes as nat);
    let s2 = s1 + x2;
    let x3 = ",\"db_relationships\":"@;
    let s3 = s2 + x3;
    let x4 = dec(m.db_relationships as nat);
    let s4 = s3 + x4;
    let x5 = ",\"db_indexes\":"@;
    let s5 = s4 + x5;
    let x6 = dec(m.db_indexes as nat);
    let s6 = s5 + x6;
    let x7 = ",\"db_vector_indexes\":"@;
    let s7 = s6 + x7;
    let x8 = dec(m.db_vector_indexes as nat);
    let s8 = s7 + x8;
    let x9 = ",\"db_shard_count\":"@;
    let s9 = s8 + x9;
    let x10 = dec(m.db_shard_count as nat);
    let s10 = s9 + x10;
    let x11 = ",\"db_local_partition_count\":"@;
    let s11 = s10 + x11;
    let x12 = dec(m.db_local_partition_count as nat);
    let s12 = s11 + x12;
    let x13 = ",\"db_committed_indexes\":["@;
    let s13 = s12 + x13;
    let x14 = number_list(m.db_committed_indexes@);
    let s14 = s13 + x14;
    let x15 = "],\"db_applied_indexes\":["@;
    let s15 = s14 + x15;
    let x16 = number_list(m.db_applied_indexes@);
    let s16 = s15 + x16;
    let x17 = "],\"tenant_database_count\":"@;
    let s17 = s16 + x17;
    let x18 = dec(m.tenant_database_count as nat);
    let s18 = s17 + x18;
    let x19 = ",\"tenant_disabled_count\":"@;
    let s19 = s18 + x19;
    let x20 = dec(m.tenant_disabled_count as nat);
    let s20 = s19 + x20;
    let x21 = ",\"index_ready_count\":"@;
    let s21 = s20 + x21;
    let x22 = dec(m.index_ready_count as nat);
    let s22 = s21 + x22;
    let x23 = ",\"index_building_count\":"@;
    let s23 = s22 + x23;
    let x24 = dec(m.index_building_count as nat);
    let s24 = s23 + x24;
    let before = "{\"http_requests\":"@ + dec(m.http_requests as nat) + ",\"http_errors\":"@ + dec(m.http_errors as nat) + ",\"auth_failures\":"@ + dec(m.auth_failures as nat) + ",\"auth_rate_limited\":"@ + dec(m.auth_rate_limited as nat) + ",\"queries\":"@ + dec(m.queries as nat) + ",\"query_errors\":"@ + dec(m.query_errors as nat) + ",\"slow_queries\":"@ + dec(m.slow_queries as nat) + ",\"slow_query_threshold_ms\":"@ + dec(m.slow_query_threshold_ms as nat) + ",\"registry_requests\":"@ + dec(m.registry_requests as nat) + ",\"stale_epoch_rejections\":"@ + dec(m.stale_epoch_rejections as nat) + ",\"redirects\":"@ + dec(m.redirects as nat);
    lemma_between(before, ",\"migration_state\":\""@, json_escaped(m.migration_state@), x1);
    assert(before + ",\"migration_state\":\""@ + json_escaped(m.migration_state@) == s0);
    let p23 = ",\"migration_state\":\""@ + json_escaped(m.migration_state@) + "\",\"db_nodes\":"@;
    lemma_front(s1, x2, p23);
    lemma_front(s2, x3, p23);
    lemma_front(s3, x4, p23);
    lemma_front(s4, x5, p23);
    lemma_front(s5, x6, p23);
    lemma_front(s6, x7, p23);
    lemma_front(s7, x8, p23);
    lemma_front(s8, x9, p23);
    lemma_front(s9, x10, p23);
    lemma_front(s10, x11, p23);
    lemma_front(s11, x12, p23);
    lemma_front(s12, x13, p23);
    lemma_front(s13, x14, p23);
    lemma_front(s14, x15, p23);
    lemma_front(s15, x16, p23);
    lemma_front(s16, x17, p23);
    lemma_front(s17, x18, p23);
    lemma_front(s18, x19, p23);
    lemma_front(s19, x20, p23);
    lemma_front(s20, x21, p23);
    lemma_front(s21, x22, p23);
    lemma_front(s22, x23, p23);
    lemma_front(s23, x24, p23);
    lemma_between(s0, x1, x2, x3);
    let p25 = "\",\"db_nodes\":"@ + dec(m.db_nodes as nat) + ",\"db_relationships\":"@;
    lemma_front(s3, x4, p25);
    lemma_front(s4, x5, p25);
    lemma_front(s5, x6, p25);
    lemma_front(s6, x7, p25);
    lemma_front(s7, x8, p25);
    lemma_front(s8, x9, p25);
    lemma_front(s9, x10, p25);
    lemma_front(s10, x11, p25);
    lemma_front(s11, x12, p25);
    lemma_front(s12, x13, p25);
    lemma_front(s13, x14, p25);
    lemma_front(s14, x15, p25);
    lemma_front(s15, x16, p25);
    lemma_front(s16, x17, p25);
    lemma_front(s17, x18, p25);
    lemma_front(s18, x19, p25);
    lemma_front(s19, x20, p25);
    lemma_front(s20, x21, p25);
    lemma_front(s21, x22, p25);
    lemma_front(s22, x23, p25);
    lemma_front(s23, x24, p25);
    lemma_between(s2, x3, x4, x5);
    let p27 = ",\"db_relationships\":"@ + dec(m.db_relationships as nat) + ",\"db_indexes\":"@;
    lemma_front(s5, x6, p27);
    lemma_front(s6, x7, p27);
    lemma_front(s7, x8, p27);
    lemma_front(s8, x9, p27);
    lemma_front(s9, x10, p27);
    lemma_front(s10, x11, p27);
    lemma_front(s11, x12, p27);
    lemma_front(s12, x13, p27);
    lemma_front(s13, x14, p27);
    lemma_front(s14, x15, p27);
    lemma_front(s15, x16, p27);
    lemma_front(s16, x17, p27);
    lemma_front(s17, x18, p27);
    lemma_front(s18, x19, p27);
    lemma_front(s19, x20, p27);
    lemma_front(s20, x21, p27);
    lemma_front(s21, x22, p27);
    lemma_front(s22, x23, p27);
    lemma_front(s23, x24, p27);
    lemma_between(s4, x5, x6, x7);
    let p29 = ",\"db_indexes\":"@ + dec(m.db_indexes as nat) + ",\"db_vector_indexes\":"@;
    lemma_front(s7, x8, p29);
    lemma_front(s8, x9, p29);
    lemma_front(s9, x10, p29);
    lemma_front(s10, x11, p29);
    lemma_front(s11, x12, p29);
    lemma_front(s12, x13, p29);
    lemma_front(s13, x14, p29);
    lemma_front(s14, x15, p29);
    lemma_front(s15, x16, p29);
    lemma_front(s16, x17, p29);
    lemma_front(s17, x18, p29);
    lemma_front(s18, x19, p29);
    lemma_front(s19, x20, p29);
    lemma_front(s20, x21, p29);
    lemma_front(s21, x22, p29);
    lemma_front(s22, x23, p29);
    lemma_front(s23, x24, p29);
    lemma_between(s6, x7, x8, x9);
    let p31 = ",\"db_vector_indexes\":"@ + dec(m.db_vector_indexes as nat) + ",\"db_shard_count\":"@;
    lemma_front(s9, x10, p31);
    lemma_front(s10, x11, p31);
    lemma_front(s11, x12, p31);
    lemma_front(s12, x13, p31);
    lemma_front(s13, x14, p31);
    lemma_front(s14, x15, p31);
    lemma_front(s15, x16, p31);
    lemma_front(s16, x17, p31);
    lemma_front(s17, x18, p31);
    lemma_front(s18, x19, p31);
    lemma_front(s19, x20, p31);
    lemma_front(s20, x21, p31);
    lemma_front(s21, x22, p31);
    lemma_front(s22, x23, p31);
    lemma_front(s23, x24, p31);
    lemma_between(s8, x9, x10, x11);
    let p33 = ",\"db_shard_count\":"@ + dec(m.db_shard_count as nat) + ",\"db_local_partition_count\":"@;
    lemma_front(s11, x12, p33);
    lemma_front(s12, x13, p33);
    lemma_front(s13, x14, p33);
    lemma_front(s14, x15, p33);
    lemma_front(s15, x16, p33);
    lemma_front(s16, x17, p33);
    lemma_front(s17, x18, p33);
    lemma_front(s18, x19, p33);
    lemma_front(s19, x20, p33);
    lemma_front(s20, x21, p33);
    lemma_front(s21, x22, p33);
    lemma_front(s22, x23, p33);
    lemma_front(s23, x24, p33);
    lemma_between(s10, x11, x12, x13);
    let p35 = ",\"db_local_partition_count\":"@ + dec(m.db_local_partition_count as nat) + ",\"db_committed_indexes\":["@;
    lemma_front(s13, x14, p35);
    lemma_front(s14, x15, p35);
    lemma_front(s15, x16, p35);
    lemma_front(s16, x17, p35);
    lemma_front(s17, x18, p35);
    lemma_front(s18, x19, p35);
    lemma_front(s19, x20, p35);
    lemma_front(s20, x21, p35);
    lemma_front(s21, x22, p35);
    lemma_front(s22, x23, p35);
    lemma_front(s23, x24, p35);
    lemma_between(s12, x13, x14, x15);
    let p37 = ",\"db_committed_indexes\":["@ + number_list(m.db_committed_indexes@) + "],\"db_applied_indexes\":["@;
    lemma_front(s15, x16, p37);
    lemma_front(s16, x17, p37);
    lemma_front(s17, x18, p37);
    lemma_front(s18, x19, p37);
    lemma_front(s19, x20, p37);
    lemma_front(s20, x21, p37);
    lemma_front(s21, x22, p37);
    lemma_front(s22, x23, p37);
    lemma_front(s23, x24, p37);
    lemma_between(s14, x15, x16, x17);
    let p39 = "],\"db_applied_indexes\":["@ + number_list(m.db_applied_indexes@) + "],\"tenant_database_count\":"@;
    lemma_front(s17, x18, p39);
    lemma_front(s18, x19, p39);
    lemma_front(s19, x20, p39);
    lemma_front(s20, x21, p39);
    lemma_front(s21, x22, p39);
    lemma_front(s22, x23, p39);
    lemma_front(s23, x24, p39);
    lemma_between(s16, x17, x18, x19);
    let p41 = "],\"tenant_database_count\":"@ + dec(m.tenant_database_count as nat) + ",\"tenant_disabled_count\":"@;
    lemma_front(s19, x20, p41);
    lemma_front(s20, x21, p41);
    lemma_front(s21, x22, p41);
    lemma_front(s22, x23, p41);
    lemma_front(s23, x24, p41);
    lemma_between(s18, x19, x20, x21);
    let p43 = ",\"tenant_disabled_count\":"@ + dec(m.tenant_disabled_count as nat) + ",\"index_ready_count\":"@;
    lemma_front(s21, x22, p43);
    lemma_front(s22, x23, p43);
    lemma_front(s23, x24, p43);
    lemma_between(s20, x21, x22, x23);
    let p45 = ",\"index_ready_count\":"@ + dec(m.index_ready_count as nat) + ",\"index_building_count\":"@;
    lemma_front(s23, x24, p45);
    assert(s24 == metrics_json_1(m));
    lemma_metrics_json_1_stays(m, p23);
    lemma_metrics_json_2_stays(m, p23);
    lemma_metrics_json_1_stays(m, p25);
    lemma_metrics_json_2_stays(m, p25);
    lemma_metrics_json_1_stays(m, p27);
    lemma_metrics_json_2_stays(m, p27);
    lemma_metrics_json_1_stays(m, p29);
    lemma_metrics_json_2_stays(m, p29);
    lemma_metrics_json_1_stays(m, p31);
    lemma_metrics_json_2_stays(m, p31);
    lemma_metrics_json_1_stays(m, p33);
    lemma_metrics_json_2_stays(m, p33);
    lemma_metrics_json_1_stays(m, p35);
    lemma_metrics_json_2_stays(m, p35);
    lemma_metrics_json_1_stays(m, p37);
    lemma_metrics_json_2_stays(m, p37);
    lemma_metrics_json_1_stays(m, p39);
    lemma_metrics_json_2_stays(m, p39);
    lemma_metrics_json_1_stays(m, p41);
    lemma_metrics_json_2_stays(m, p41);
    lemma_metrics_json_1_stays(m, p43);
    lemma_metrics_json_2_stays(m, p43);
    lemma_metrics_json_1_stays(m, p45);
    lemma_metrics_json_2_stays(m, p45);
}

/// The metrics of the consensus, the users and the audit are told under their names.
#[verifier::spinoff_prover]
#[verifier::rlimit(100)]
pub proof fn told_metrics_count_the_consensus(m: WebMetricsSnapshot)
    ensures
        stands_between(
            metrics_body(m),
            ",\"index_building_count\":"@,
            dec(m.index_building_count as nat),
            ",\"index_rebuilding_count\":"@,
        ),
        stands_between(
            metrics_body(m),
            ",\"index_rebuilding_count\":"@,
            dec(m.index_rebuilding_count as nat),
            ",\"index_failed_count\":"@,
        ),
        stands_between(
            metrics_body(m),
            ",\"index_failed_count\":"@,
            dec(m.index_failed_count as nat),
            ",\"raft_group_count\":"@,
        ),
        stands_between(
            metrics_body(m),
            ",\"raft_group_count\":"@,
            dec(m.raft_group_count as nat),
            ",\"raft_leader_count\":"@,
        ),
        stands_between(
            metrics_body(m),
            ",\"raft_leader_count\":"@,
            dec(m.raft_leader_count as nat),
            ",\"raft_term_max\":"@,
        ),
        stands_between(
            metrics_body(m),
            ",\"raft_term_max\":"@,
            dec(m.raft_term_max as nat),
            ",\"raft_snapshot_index_max\":"@,
        ),
        stands_between(
            metrics_body(m),
            ",\"raft_snapshot_index_max\":"@,
            dec(m.raft_snapshot_index_max as nat),
            ",\"raft_joint_consensus_count\":"@,
        ),
        stands_between(
            metrics_body(m),
            ",\"raft_joint_consensus_count\":"@,
            dec(m.raft_joint_consensus_count as nat),
            ",\"web_user_token_count\":"@,
        ),
        stands_between(
            metrics_body(m),
            ",\"web_user_token_count\":"@,
            dec(m.web_user_token_count as nat),
            ",\"web_audit_event_count\":"@,
        ),
        stands_between(
            metrics_body(m),
            ",\"web_audit_event_count\":"@,
            dec(m.web_audit_event_count as nat),
            ",\"replication_sent_batches\":"@,
        ),
        stands_between(
            metrics_body(m),
            ",\"replication_sent_batches\":"@,
            dec(m.replication_sent_batches as nat),
            ",\"replication_acked_batches\":"@,
        ),
        stands_between(
            metrics_body(m),
            ",\"replication_acked_batches\":"@,
            dec(m.replication_acked_batches as nat),
            ",\"replication_failed_batches\":"@,
        ),
{
    let s0 = metrics_json_1(m);
    let x1 = ",\"index_rebuilding_count\":"@;
    let s1 = s0 + x1;
    let x2 = dec(m.index_rebuilding_count as nat);
    let s2 = s1 + x2;
    let x3 = ",\"index_failed_count\":"@;
    let s3 = s2 + x3;
    let x4 = dec(m.index_failed_count as nat);
    let s4 = s3 + x4;
    let x5 = ",\"raft_group_count\":"@;
    let s5 = s4 + x5;
    let x6 = dec(m.raft_group_count as nat);
    let s6 = s5 + x6;
    let x7 = ",\"raft_leader_count\":"@;
    let s7 = s6 + x7;
    let x8 = dec(m.raft_leader_count as nat);
    let s8 = s7 + x8;
    let x9 = ",\"raft_term_max\":"@;
    let s9 = s8 + x9;
    let x10 = dec(m.raft_term_max as nat);
    let s10 = s9 + x10;
    let x11 = ",\"raft_snapshot_index_max\":"@;
    let s11 = s10 + x11;
    let x12 = dec(m.raft_snapshot_index_max as nat);
    let s12 = s11 + x12;
    let x13 = ",\"raft_joint_consensus_count\":"@;
    let s13 = s12 + x13;
    let x14 = dec(m.raft_joint_consensus_count as nat);
    let s14 = s13 + x14;
    let x15 = ",\"web_user_token_count\":"@;
    let s15 = s14 + x15;
    let x16 = dec(m.web_user_token_count as nat);
    let s16 = s15 + x16;
    let x17 = ",\"web_audit_event_count\":"@;
    let s17 = s16 + x17;
    let x18 = dec(m.web_audit_event_count as nat);
    let s18 = s17 + x18;
    let x19 = ",\"replication_sent_batches\":"@;
    let s19 = s18 + x19;
    let x20 = dec(m.replication_sent_batches as nat);
    let s20 = s19 + x20;
    let x21 = ",\"replication_acked_batches\":"@;
    let s21 = s20 + x21;
    let x22 = dec(m.replication_acked_batches as nat);
    let s22 = s21 + x22;
    let x23 = ",\"replication_failed_batches\":"@;
    let s23 = s22 + x23;
    let x24 = dec(m.replication_failed_batches as nat);
    let s24 = s23 + x24;
    let before = metrics_json_0(m) + "\",\"db_nodes\":"@ + dec(m.db_nodes as nat) + ",\"db_relationships\":"@ + dec(m.db_relationships as nat) + ",\"db_indexes\":"@ + dec(m.db_indexes as nat) + ",\"db_vector_indexes\":"@ + dec(m.db_vector_indexes as nat) + ",\"db_shard_count\":"@ + dec(m.db_shard_count as nat) + ",\"db_local_partition_count\":"@ + dec(m.db_local_partition_count as nat) + ",\"db_committed_indexes\":["@ + number_list(m.db_committed_indexes@) + "],\"db_applied_indexes\":["@ + number_list(m.db_applied_indexes@) + "],\"tenant_database_count\":"@ + dec(m.tenant_database_count as nat) + ",\"tenant_disabled_count\":"@ + dec(m.tenant_disabled_count as nat) + ",\"index_ready_count\":"@ + dec(m.index_ready_count as nat);
    lemma_between(before, ",\"index_building_count\":"@, dec(m.index_building_count as nat), x1);
    assert(before + ",\"index_building_count\":"@ + dec(m.index_building_count as nat) == s0);
    let p47 = ",\"index_building_count\":"@ + dec(m.index_building_count as nat) + ",\"index_rebuilding_count\":"@;
    lemma_front(s1, x2, p47);
    lemma_front(s2, x3, p47);
    lemma_front(s3, x4, p47);
    lemma_front(s4, x5, p47);
    lemma_front(s5, x6, p47);
    lemma_front(s6, x7, p47);
    lemma_front(s7, x8, p47);
    lemma_front(s8, x9, p47);
    lemma_front(s9, x10, p47);
    lemma_front(s10, x11, p47);
    lemma_front(s11, x12, p47);
    lemma_front(s12, x13, p47);
    lemma_front(s13, x14, p47);
    lemma_front(s14, x15, p47);
    lemma_front(s15, x16, p47);
    lemma_front(s16, x17, p47);
    lemma_front(s17, x18, p47);
    lemma_front(s18, x19, p47);
    lemma_front(s19, x20, p47);
    lemma_front(s20, x21, p47);
    lemma_front(s21, x22, p47);
    lemma_front(s22, x23, p47);
    lemma_front(s23, x24, p47);
    lemma_between(s0, x1, x2, x3);
    let p49 = ",\"index_rebuilding_count\":"@ + dec(m.index_rebuilding_count as nat) + ",\"index_failed_count\":"@;
    lemma_front(s3, x4, p49);
    lemma_front(s4, x5, p49);
    lemma_front(s5, x6, p49);
    lemma_front(s6, x7, p49);
    lemma_front(s7, x8, p49);
    lemma_front(s8, x9, p49);
    lemma_front(s9, x10, p49);
    lemma_front(s10, x11, p49);
    lemma_front(s11, x12, p49);
    lemma_front(s12, x13, p49);
    lemma_front(s13, x14, p49);
    lemma_front(s14, x15, p49);
    lemma_front(s15, x16, p49);
    lemma_front(s16, x17, p49);
    lemma_front(s17, x18, p49);
    lemma_front(s18, x19, p49);
    lemma_front(s19, x20, p49);
    lemma_front(s20, x21, p49);
    lemma_front(s21, x22, p49);
    lemma_front(s22, x23, p49);
    lemma_front(s23, x24, p49);
    lemma_between(s2, x3, x4, x5);
    let p51 = ",\"index_failed_count\":"@ + dec(m.index_failed_count as nat) + ",\"raft_group_count\":"@;
    lemma_front(s5, x6, p51);
    lemma_front(s6, x7, p51);
    lemma_front(s7, x8, p51);
    lemma_front(s8, x9, p51);
    lemma_front(s9, x10, p51);
    lemma_front(s10, x11, p51);
    lemma_front(s11, x12, p51);
    lemma_front(s12, x13, p51);
    lemma_front(s13, x14, p51);
    lemma_front(s14, x15, p51);
    lemma_front(s15, x16, p51);
    lemma_front(s16, x17, p51);
    lemma_front(s17, x18, p51);
    lemma_front(s18, x19, p51);
    lemma_front(s19, x20, p51);
    lemma_front(s20, x21, p51);
    lemma_front(s21, x22, p51);
    lemma_front(s22, x23, p51);
    lemma_front(s23, x24, p51);
    lemma_between(s4, x5, x6, x7);
    let p53 = ",\"raft_group_count\":"@ + dec(m.raft_group_count as nat) + ",\"raft_leader_count\":"@;
    lemma_front(s7, x8, p53);
    lemma_front(s8, x9, p53);
    lemma_front(s9, x10, p53);
    lemma_front(s10, x11, p53);
    lemma_front(s11, x12, p53);
    lemma_front(s12, x13, p53);
    lemma_front(s13, x14, p53);
    lemma_front(s14, x15, p53);
    lemma_front(s15, x16, p53);
    lemma_front(s16, x17, p53);
    lemma_front(s17, x18, p53);
    lemma_front(s18, x19, p53);
    lemma_front(s19, x20, p53);
    lemma_front(s20, x21, p53);
    lemma_front(s21, x22, p53);
    lemma_front(s22, x23, p53);
    lemma_front(s23, x24, p53);
    lemma_between(s6, x7, x8, x9);
    let p55 = ",\"raft_leader_count\":"@ + dec(m.raft_leader_count as nat) + ",\"raft_term_max\":"@;
    lemma_front(s9, x10, p55);
    lemma_front(s10, x11, p55);
    lemma_front(s11, x12, p55);
    lemma_front(s12, x13, p55);
    lemma_front(s13, x14, p55);
    lemma_front(s14, x15, p55);
    lemma_front(s15, x16, p55);
    lemma_front(s16, x17, p55);
    lemma_front(s17, x18, p55);
    lemma_front(s18, x19, p55);
    lemma_front(s19, x20, p55);
    lemma_front(s20, x21, p55);
    lemma_front(s21, x22, p55);
    lemma_front(s22, x23, p55);
    lemma_front(s23, x24, p55);
    lemma_between(s8, x9, x10, x11);
    let p57 = ",\"raft_term_max\":"@ + dec(m.raft_term_max as nat) + ",\"raft_snapshot_index_max\":"@;
    lemma_front(s11, x12, p57);
    lemma_front(s12, x13, p57);
    lemma_front(s13, x14, p57);
    lemma_front(s14, x15, p57);
    lemma_front(s15, x16, p57);
    lemma_front(s16, x17, p57);
    lemma_front(s17, x18, p57);
    lemma_front(s18, x19, p57);
    lemma_front(s19, x20, p57);
    lemma_front(s20, x21, p57);
    lemma_front(s21, x22, p57);
    lemma_front(s22, x23, p57);
    lemma_front(s23, x24, p57);
    lemma_between(s10, x11, x12, x13);
    let p59 = ",\"raft_snapshot_index_max\":"@ + dec(m.raft_snapshot_index_max as nat) + ",\"raft_joint_consensus_count\":"@;
    lemma_front(s13, x14, p59);
    lemma_front(s14, x15, p59);
    lemma_front(s15, x16, p59);
    lemma_front(s16, x17, p59);
    lemma_front(s17, x18, p59);
    lemma_front(s18, x19, p59);
    lemma_front(s19, x20, p59);
    lemma_front(s20, x21, p59);
    lemma_front(s21, x22, p59);
    lemma_front(s22, x23, p59);
    lemma_front(s23, x24, p59);
    lemma_between(s12, x13, x14, x15);
    let p61 = ",\"raft_joint_consensus_count\":"@ + dec(m.raft_joint_consensus_count as nat) + ",\"web_user_token_count\":"@;
    lemma_front(s15, x16, p61);
    lemma_front(s16, x17, p61);
    lemma_front(s17, x18, p61);
    lemma_front(s18, x19, p61);
    lemma_front(s19, x20, p61);
    lemma_front(s20, x21, p61);
    lemma_front(s21, x22, p61);
    lemma_front(s22, x23, p61);
    lemma_front(s23, x24, p61);
    lemma_between(s14, x15, x16, x17);
    let p63 = ",\"web_user_token_count\":"@ + dec(m.web_user_token_count as nat) + ",\"web_audit_event_count\":"@;
    lemma_front(s17, x18, p63);
    lemma_front(s18, x19, p63);
    lemma_front(s19, x20, p63);
    lemma_front(s20, x21, p63);
    lemma_front(s21, x22, p63);
    lemma_front(s22, x23, p63);
    lemma_front(s23, x24, p63);
    lemma_between(s16, x17, x18, x19);
    let p65 = ",\"web_audit_event_count\":"@ + dec(m.web_audit_event_count as nat) + ",\"replication_sent_batches\":"@;
    lemma_front(s19, x20, p65);
    lemma_front(s20, x21, p65);
    lemma_front(s21, x22, p65);
    lemma_front(s22, x23, p65);
    lemma_front(s23, x24, p65);
    lemma_between(s18, x19, x20, x21);
    let p67 = ",\"replication_sent_batches\":"@ + dec(m.replication_sent_batches as nat) + ",\"replication_acked_batches\":"@;
    lemma_front(s21, x22, p67);
    lemma_front(s22, x23, p67);
    lemma_front(s23, x24, p67);
    lemma_between(s20, x21, x22, x23);
    let p69 = ",\"replication_acked_batches\":"@ + dec(m.replication_acked_batches as nat) + ",\"replication_failed_batches\":"@;
    lemma_front(s23, x24, p69);
    assert(s24 == metrics_json_2(m));
    lemma_metrics_json_2_stays(m, p47);
    lemma_metrics_json_2_stays(m, p49);
    lemma_metrics_json_2_stays(m, p51);
    lemma_metrics_json_2_stays(m, p53);
    lemma_metrics_json_2_stays(m, p55);
    lemma_metrics_json_2_stays(m, p57);
    lemma_metrics_json_2_stays(m, p59);
    lemma_metrics_json_2_stays(m, p61);
    lemma_metrics_json_2_stays(m, p63);
    lemma_metrics_json_2_stays(m, p65);
    lemma_metrics_json_2_stays(m, p67);
    lemma_metrics_json_2_stays(m, p69);
}

/// The metrics of the replication and of repairs are told under their names.
#[verifier::spinoff_prover]
#[verifier::rlimit(100)]
pub proof fn told_metrics_count_the_replication(m: WebMetricsSnapshot)
    ensures
        stands_between(
            metrics_body(m),
            ",\"replication_failed_batches\":"@,
            dec(m.replication_failed_batches as nat),
            ",\"replication_sent_entries\":"@,
        ),
        stands_between(
            metrics_body(m),
            ",\"replication_sent_entries\":"@,
            dec(m.replication_sent_entries as nat),
            ",\"replication_sent_bytes\":"@,
        ),
        stands_between(
            metrics_body(m),
            ",\"replication_sent_bytes\":"@,
            dec(m.replication_sent_bytes as nat),
            ",\"raft_election_rounds\":"@,
        ),
        stands_between(
            metrics_body(m),
            ",\"raft_election_rounds\":"@,
            dec(m.raft_election_rounds as nat),
            ",\"raft_append_conflicts\":"@,
        ),
        stands_between(
            metrics_body(m),
            ",\"raft_append_conflicts\":"@,
            dec(m.raft_append_conflicts as nat),
            ",\"raft_snapshot_installs\":"@,
        ),
        stands_between(
            metrics_body(m),
            ",\"raft_snapshot_installs\":"@,
            dec(m.raft_snapshot_installs as nat),
            ",\"raft_snapshot_install_millis\":"@,
        ),
        stands_between(
            metrics_body(m),
            ",\"raft_snapshot_install_millis\":"@,
            dec(m.raft_snapshot_install_millis as nat),
            ",\"query_plan_cost_model_version\":"@,
        ),
        stands_between(
            metrics_body(m),
            ",\"query_plan_cost_model_version\":"@,
            dec(m.query_plan_cost_model_version as nat),
            ",\"backup_restore_last_success_timestamp_seconds\":"@,
        ),
        stands_between(
            metrics_body(m),
            ",\"backup_restore_last_success_timestamp_seconds\":"@,
            dec(m.backup_restore_last_success_timestamp_seconds as nat),
            ",\"storage_repair_last_success_timestamp_seconds\":"@,
        ),
        stands_between(
            metrics_body(m),
            ",\"storage_repair_last_success_timestamp_seconds\":"@,
            dec(m.storage_repair_last_success_timestamp_seconds as nat),
            ",\"storage_repair_failures\":"@,
        ),
        stands_between(
            metrics_body(m),
            ",\"storage_repair_failures\":"@,
            dec(m.storage_repair_failures as nat),
            "}"@,
        ),
{
    let s0 = metrics_json_2(m);
    let x1 = ",\"replication_sent_entries\":"@;
    let s1 = s0 + x1;
    let x2 = dec(m.replication_sent_entries as nat);
    let s2 = s1 + x2;
    let x3 = ",\"replication_sent_bytes\":"@;
    let s3 = s2 + x3;
    let x4 = dec(m.replication_sent_bytes as nat);
    let s4 = s3 + x4;
    let x5 = ",\"raft_election_rounds\":"@;
    let s5 = s4 + x5;
    let x6 = dec(m.raft_election_rounds as nat);
    let s6 = s5 + x6;
    let x7 = ",\"raft_append_conflicts\":"@;
    let s7 = s6 + x7;
    let x8 = dec(m.raft_append_conflicts as nat);
    let s8 = s7 + x8;
    let x9 = ",\"raft_snapshot_installs\":"@;
    let s9 = s8 + x9;
    let x10 = dec(m.raft_snapshot_installs as nat);
    let s10 = s9 + x10;
    let x11 = ",\"raft_snapshot_install_millis\":"@;
    let s11 = s10 + x11;
    let x12 = dec(m.raft_snapshot_install_millis as nat);
    let s12 = s11 + x12;
    let x13 = ",\"query_plan_cost_model_version\":"@;
    let s13 = s12 + x13;
    let x14 = dec(m.query_plan_cost_model_version as nat);
    let s14 = s13 + x14;
    let x15 = ",\"backup_restore_last_success_timestamp_seconds\":"@;
    let s15 = s14 + x15;
    let x16 = dec(m.backup_restore_last_success_timestamp_seconds as nat);
    let s16 = s15 + x16;
    let x17 = ",\"storage_repair_last_success_timestamp_seconds\":"@;
    let s17 = s16 + x17;
    let x18 = dec(m.storage_repair_last_success_timestamp_seconds as nat);
    let s18 = s17 + x18;
    let x19 = ",\"storage_repair_failures\":"@;
    let s19 = s18 + x19;
    let x20 = dec(m.storage_repair_failures as nat);
    let s20 = s19 + x20;
    let x21 = "}"@;
    let s21 = s20 + x21;
    let before = metrics_json_1(m) + ",\"index_rebuilding_count\":"@ + dec(m.index_rebuilding_count as nat) + ",\"index_failed_count\":"@ + dec(m.index_failed_count as nat) + ",\"raft_group_count\":"@ + dec(m.raft_group_count as nat) + ",\"raft_leader_count\":"@ + dec(m.raft_leader_count as nat) + ",\"raft_term_max\":"@ + dec(m.raft_term_max as nat) + ",\"raft_snapshot_index_max\":"@ + dec(m.raft_snapshot_index_max as nat) + ",\"raft_joint_consensus_count\":"@ + dec(m.raft_joint_consensus_count as nat) + ",\"web_user_token_count\":"@ + dec(m.web_user_token_count as nat) + ",\"web_audit_event_count\":"@ + dec(m.web_audit_event_count as nat) + ",\"replication_sent_batches\":"@ + dec(m.replication_sent_batches as nat) + ",\"replication_acked_batches\":"@ + dec(m.replication_acked_batches as nat);
    lemma_between(before, ",\"replication_failed_batches\":"@, dec(m.replication_failed_batches as nat), x1);
    assert(before + ",\"replication_failed_batches\":"@ + dec(m.replication_failed_batches as nat) == s0);
    let p71 = ",\"replication_failed_batches\":"@ + dec(m.replication_failed_batches as nat) + ",\"replication_sent_entries\":"@;
    lemma_front(s1, x2, p71);
    lemma_front(s2, x3, p71);
    lemma_front(s3, x4, p71);
    lemma_front(s4, x5, p71);
    lemma_front(s5, x6, p71);
    lemma_front(s6, x7, p71);
    lemma_front(s7, x8, p71);
    lemma_front(s8, x9, p71);
    lemma_front(s9, x10, p71);
    lemma_front(s10, x11, p71);
    lemma_front(s11, x12, p71);
    lemma_front(s12, x13, p71);
    lemma_front(s13, x14, p71);
    lemma_front(s14, x15, p71);
    lemma_front(s15, x16, p71);
    lemma_front(s16, x17, p71);
    lemma_front(s17, x18, p71);
    lemma_front(s18, x19, p71);
    lemma_front(s19, x20, p71);
    lemma_front(s20, x21, p71);
    lemma_between(s0, x1, x2, x3);
    let p73 = ",\"replication_sent_entries\":"@ + dec(m.replication_sent_entries as nat) + ",\"replication_sent_bytes\":"@;
    lemma_front(s3, x4, p73);
    lemma_front(s4, x5, p73);
    lemma_front(s5, x6, p73);
    lemma_front(s6, x7, p73);
    lemma_front(s7, x8, p73);
    lemma_front(s8, x9, p73);
    lemma_front(s9, x10, p73);
    lemma_front(s10, x11, p73);
    lemma_front(s11, x12, p73);
    lemma_front(s12, x13, p73);
    lemma_front(s13, x14, p73);
    lemma_front(s14, x15, p73);
    lemma_front(s15, x16, p73);
    lemma_front(s16, x17, p73);
    lemma_front(s17, x18, p73);
    lemma_front(s18, x19, p73);
    lemma_front(s19, x20, p73);
    lemma_front(s20, x21, p73);
    lemma_between(s2, x3, x4, x5);
    let p75 = ",\"replication_sent_bytes\":"@ + dec(m.replication_sent_bytes as nat) + ",\"raft_election_rounds\":"@;
    lemma_front(s5, x6, p75);
    lemma_front(s6, x7, p75);
    lemma_front(s7, x8, p75);
    lemma_front(s8, x9, p75);
    lemma_front(s9, x10, p75);
    lemma_front(s10, x11, p75);
    lemma_front(s11, x12, p75);
    lemma_front(s12, x13, p75);
    lemma_front(s13, x14, p75);
    lemma_front(s14, x15, p75);
    lemma_front(s15, x16, p75);
    lemma_front(s16, x17, p75);
    lemma_front(s17, x18, p75);
    lemma_front(s18, x19, p75);
    lemma_front(s19, x20, p75);
    lemma_front(s20, x21, p75);
    lemma_between(s4, x5, x6, x7);
    let p77 = ",\"raft_election_rounds\":"@ + dec(m.raft_election_rounds as nat) + ",\"raft_append_conflicts\":"@;
    lemma_front(s7, x8, p77);
    lemma_front(s8, x9, p77);
    lemma_front(s9, x10, p77);
    lemma_front(s10, x11, p77);
    lemma_front(s11, x12, p77);
    lemma_front(s12, x13, p77);
    lemma_front(s13, x14, p77);
    lemma_front(s14, x15, p77);
    lemma_front(s15, x16, p77);
    lemma_front(s16, x17, p77);
    lemma_front(s17, x18, p77);
    lemma_front(s18, x19, p77);
    lemma_front(s19, x20, p77);
    lemma_front(s20, x21, p77);
    lemma_between(s6, x7, x8, x9);
    let p79 = ",\"raft_append_conflicts\":"@ + dec(m.raft_append_conflicts as nat) + ",\"raft_snapshot_installs\":"@;
    lemma_front(s9, x10, p79);
    lemma_front(s10, x11, p79);
    lemma_front(s11, x12, p79);
    lemma_front(s12, x13, p79);
    lemma_front(s13, x14, p79);
    lemma_front(s14, x15, p79);
    lemma_front(s15, x16, p79);
    lemma_front(s16, x17, p79);
    lemma_front(s17, x18, p79);
    lemma_front(s18, x19, p79);
    lemma_front(s19, x20, p79);
    lemma_front(s20, x21, p79);
    lemma_between(s8, x9, x10, x11);
    let p81 = ",\"raft_snapshot_installs\":"@ + dec(m.raft_snapshot_installs as nat) + ",\"raft_snapshot_install_millis\":"@;
    lemma_front(s11, x12, p81);
    lemma_front(s12, x13, p81);
    lemma_front(s13, x14, p81);
    lemma_front(s14, x15, p81);
    lemma_front(s15, x16, p81);
    lemma_front(s16, x17, p81);
    lemma_front(s17, x18, p81);
    lemma_front(s18, x19, p81);
    lemma_front(s19, x20, p81);
    lemma_front(s20, x21, p81);
    lemma_between(s10, x11, x12, x13);
    let p83 = ",\"raft_snapshot_install_millis\":"@ + dec(m.raft_snapshot_install_millis as nat) + ",\"query_plan_cost_model_version\":"@;
    lemma_front(s13, x14, p83);
    lemma_front(s14, x15, p83);
    lemma_front(s15, x16, p83);
    lemma_front(s16, x17, p83);
    lemma_front(s17, x18, p83);
    lemma_front(s18, x19, p83);
    lemma_front(s19, x20, p83);
    lemma_front(s20, x21, p83);
    lemma_between(s12, x13, x14, x15);
    let p85 = ",\"query_plan_cost_model_version\":"@ + dec(m.query_plan_cost_model_version as nat) + ",\"backup_restore_last_success_timestamp_seconds\":"@;
    lemma_front(s15, x16, p85);
    lemma_front(s16, x17, p85);
    lemma_front(s17, x18, p85);
    lemma_front(s18, x19, p85);
    lemma_front(s19, x20, p85);
    lemma_front(s20, x21, p85);
    lemma_between(s14, x15, x16, x17);
    let p87 = ",\"backup_restore_last_success_timestamp_seconds\":"@ + dec(m.backup_restore_last_success_timestamp_seconds as nat) + ",\"storage_repair_last_success_timestamp_seconds\":"@;
    lemma_front(s17, x18, p87);
    lemma_front(s18, x19, p87);
    lemma_front(s19, x20, p87);
    lemma_front(s20, x21, p87);
    lemma_between(s16, x17, x18, x19);
    let p89 = ",\"storage_repair_last_success_timestamp_seconds\":"@ + dec(m.storage_repair_last_success_timestamp_seconds as nat) + ",\"storage_repair_failures\":"@;
    lemma_front(s19, x20, p89);
    lemma_front(s20, x21, p89);
    lemma_between(s18, x19, x20, x21);
    let p91 = ",\"storage_repair_failures\":"@ + dec(m.storage_repair_failures as nat) + "}"@;
    assert(s21 == metrics_body(m));
}

/// The greatest of some numbers is one of them, and none is greater; without any it is zero.
pub proof fn greatest_is_not_exceeded(s: Seq<u64>)
    ensures
        forall|i: int| 0 <= i < s.len() ==> #[trigger] s[i] <= max_or_zero(s),
        s.len() > 0 ==> s.contains(max_or_zero(s)),
        s.len() == 0 ==> max_or_zero(s) == 0,
    decreases s.len(),
{
    if s.len() > 0 {
        let front = s.drop_last();
        greatest_is_not_exceeded(front);
        assert forall|i: int| 0 <= i < s.len() implies #[trigger] s[i] <= max_or_zero(s) by {
            if i < front.len() {
                assert(front[i] == s[i]);
            }
        }
        if s.last() > max_or_zero(front) {
            assert(s[s.len() - 1] == s.last());
        } else if front.len() > 0 {
            let k = choose|k: int| 0 <= k < front.len() && front[k] == max_or_zero(front);
            assert(s[k] == max_or_zero(s));
        } else {
            assert(s[s.len() - 1] == 0);
        }
    }
}

/// Texts are counted one by one: each that is the one counts, and no other.
pub proof fn texts_are_counted_one_by_one(s: Seq<Seq<char>>, t: Seq<char>, other: Seq<char>)
    requires
        other != t,
    ensures
        count_text(Seq::empty(), t) == 0,
        count_text(s.push(t), t) == count_text(s, t) + 1,
        count_text(s.push(other), t) == count_text(s, t),
{
    assert(s.push(t).drop_last() =~= s);
    assert(s.push(other).drop_last() =~= s);
}

/// What is set is counted one by one.
pub proof fn what_is_set_is_counted(s: Seq<bool>)
    ensures
        count_set(Seq::empty()) == 0,
        count_set(s.push(true)) == count_set(s) + 1,
        count_set(s.push(false)) == count_set(s),
{
    assert(s.push(true).drop_last() =~= s);
    assert(s.push(false).drop_last() =~= s);
}

/// A metric of a shard is told for each shard, in order, with its number.
pub proof fn shards_are_gauged_in_order(
    name: Seq<char>,
    database: Seq<char>,
    server_id: nat,
    values: Seq<u64>,
    value: u64,
)
    ensures
        shard_gauges(name, database, server_id, Seq::empty()) == Seq::<char>::empty(),
        shard_gauges(name, database, server_id, values.push(value)) == shard_gauges(
            name,
            database,
            server_id,
            values,
        ) + shard_metric_text(name, database, values.len(), server_id, "unknown"@, value),
{
    assert(values.push(value).drop_last() =~= values);
}

/// A shard lags by what is committed and not applied, and by nothing where it is further.
pub proof fn shards_lag_by_what_is_not_applied(committed: Seq<u64>, applied: Seq<u64>, i: int)
    requires
        0 <= i < committed.len(),
    ensures
        i < lags(committed, applied).len(),
        i < applied.len() && applied[i] <= committed[i] ==> lags(committed, applied)[i]
            == committed[i] - applied[i],
        i < applied.len() && applied[i] > committed[i] ==> lags(committed, applied)[i] == 0,
        i >= applied.len() ==> lags(committed, applied)[i] == committed[i],
{
}

/// A snapshot of the metrics says what was counted.
pub proof fn snapshots_say_what_was_counted(m: WebMetricsSnapshot, counts: WebMetrics)
    requires
        counts_taken(m, counts),
    ensures
        m.http_requests == counts.http_requests,
        m.http_errors == counts.http_errors,
        m.auth_failures == counts.auth_failures,
        m.auth_rate_limited == counts.auth_rate_limited,
        m.queries == counts.queries,
        m.query_errors == counts.query_errors,
        m.slow_queries == counts.slow_queries,
        m.registry_requests == counts.registry_requests,
        m.stale_epoch_rejections == counts.stale_epoch_rejections,
        m.redirects == counts.redirects,
{
}

/// A snapshot of the metrics says what there is in the database.
pub proof fn snapshots_say_what_there_is(m: WebMetricsSnapshot, f: MetricsFacts)
    requires
        database_taken(m, f),
    ensures
        f.statistics matches Some(s) ==> m.db_nodes == s.node_count && m.db_relationships
            == s.relationship_count && m.db_indexes == s.index_count && m.db_vector_indexes
            == s.vector_index_count,
        f.statistics is None ==> m.db_nodes == 0 && m.db_relationships == 0 && m.db_indexes == 0
            && m.db_vector_indexes == 0,
        m.db_shard_count == f.shard_count,
        m.db_local_partition_count == f.local_partition_count,
        m.db_committed_indexes@ == f.committed_indexes@,
        m.db_applied_indexes@ == f.applied_indexes@,
        m.index_ready_count == count_text(views(f.index_states@), "ready"@),
        m.index_building_count == count_text(views(f.index_states@), "building"@),
        m.index_rebuilding_count == count_text(views(f.index_states@), "rebuilding"@),
        m.index_failed_count == count_text(views(f.index_states@), "failed"@),
        f.tenants_disabled matches Some(t) ==> m.tenant_database_count == t@.len()
            && m.tenant_disabled_count == count_set(t@),
        f.tenants_disabled is None ==> m.tenant_database_count == 1 && m.tenant_disabled_count == 0,
        m.slow_query_threshold_ms == f.slow_query_threshold_ms,
{
}

/// A snapshot of the metrics says how the cluster does: how many shards it leads, the greatest term
/// and snapshot among them, and what the replication has done.
pub proof fn snapshots_say_how_the_cluster_does(m: WebMetricsSnapshot, f: MetricsFacts, i: int)
    requires
        cluster_taken(m, f),
    ensures
        m.raft_group_count == f.raft@.len(),
        0 <= i < f.raft@.len() ==> f.raft@[i].term <= m.raft_term_max && f.raft@[i].snapshot_index
            <= m.raft_snapshot_index_max,
        m.raft_term_max > 0 ==> exists|k: int|
            0 <= k < f.raft@.len() && (#[trigger] f.raft@[k]).term == m.raft_term_max,
        f.rebalance_state matches Some(s) ==> m.migration_state@ == s@,
        f.rebalance_state is None ==> m.migration_state@ == "idle"@,
        f.replication matches Some(r) ==> m.replication_sent_batches == r.sent_batches
            && m.replication_acked_batches == r.acked_batches && m.replication_failed_batches
            == r.failed_batches && m.replication_sent_entries == r.sent_entries
            && m.replication_sent_bytes == r.sent_bytes && m.raft_election_rounds
            == r.election_rounds && m.raft_append_conflicts == r.append_conflicts
            && m.raft_snapshot_installs == r.snapshot_installs && m.raft_snapshot_install_millis
            == r.snapshot_install_millis,
{
    let terms = crate::metrics::raft_terms(f.raft@);
    let snapshots = crate::metrics::raft_snapshots(f.raft@);
    greatest_is_not_exceeded(terms);
    greatest_is_not_exceeded(snapshots);
    if 0 <= i < f.raft@.len() {
        assert(terms[i] == f.raft@[i].term);
        assert(snapshots[i] == f.raft@[i].snapshot_index);
    }
    if m.raft_term_max > 0 {
        let k = choose|k: int| 0 <= k < terms.len() && terms[k] == max_or_zero(terms);
        assert(f.raft@[k].term == m.raft_term_max);
    }
}

/// A snapshot of the metrics says what the audit log holds.
pub proof fn snapshots_say_what_was_audited(m: WebMetricsSnapshot, f: MetricsFacts)
    requires
        audit_taken(m, f),
    ensures
        m.web_audit_event_count == f.audit_actions@.len(),
        f.web_user_token_count matches Some(n) ==> m.web_user_token_count == n,
        f.web_user_token_count is None ==> m.web_user_token_count == 0,
        m.backup_restore_last_success_timestamp_seconds == f.latest_backup_or_restore_seconds,
        m.storage_repair_last_success_timestamp_seconds == f.latest_repair_seconds,
        m.storage_repair_failures == count_text(views(f.audit_actions@), "repair.failure"@),
{
}

} // verus!
