//! Queries from the web console: what they are counted as, and how they are answered.

use vstd::prelude::*;

use crate::limits::{
    newest, query_refusal, rows_refusal, SlowQuery, SlowQueryEntry, SlowQueryLog, TenantQuota,
};
use crate::queries::less;
use crate::rows::{query_body, query_result_json, rows_well_formed, QueryRow};
use crate::web::WebMetrics;

verus! {

/// Starts a query of a database, where its quota allows another, and counts it either way.
pub fn begin_web_query(metrics: &mut WebMetrics, quota: &mut TenantQuota, database: &str) -> (r:
    Result<(), String>)
    requires
        old(quota).well_formed(),
    ensures
        final(quota).well_formed(),
        final(quota).limits() == old(quota).limits(),
        *final(metrics) == (WebMetrics {
            queries: old(metrics).queries.wrapping_add(1),
            ..*old(metrics)
        }),
        match query_refusal(old(quota).limits(), database@, old(quota).active(database@)) {
            Some(e) => r is Err && r->Err_0@ == e,
            None => r is Ok,
        },
        forall|d: Seq<char>| #[trigger]
            final(quota).active(d) == old(quota).active(d) + (if r is Ok
                && old(quota).limits().max_concurrent_queries is Some && d == database@ {
                1nat
            } else {
                0nat
            }),
{
    metrics.queries = metrics.queries.wrapping_add(1);
    quota.acquire_query(database)
}

/// A query of the web console that has run.
pub struct WebQueryRun {
    pub query: String,
    pub database: String,
    pub elapsed_ms: u128,
    pub unix_ms: u128,
}

/// Why a query that was started has no answer: it failed, or gave too many rows.
pub open spec fn web_query_problem(
    quota: TenantQuota,
    database: Seq<char>,
    outcome: Result<Vec<QueryRow>, String>,
) -> Option<Seq<char>> {
    match outcome {
        Err(e) => Some(e@),
        Ok(rows) => rows_refusal(quota.limits(), database, rows@.len()),
    }
}

/// The log of slow queries after a query was answered.
pub open spec fn slow_after(log: Seq<SlowQuery>, run: WebQueryRun, threshold_ms: u64) -> Seq<
    SlowQuery,
> {
    if run.elapsed_ms >= threshold_ms {
        newest(
            log.push(
                SlowQuery {
                    unix_ms: run.unix_ms as nat,
                    elapsed_ms: run.elapsed_ms as nat,
                    query: run.query@,
                },
            ),
        )
    } else {
        log
    }
}

/// Notes a slow query.
pub fn record_slow_query(
    metrics: &mut WebMetrics,
    log: &mut SlowQueryLog,
    query: &str,
    elapsed_ms: u128,
    unix_ms: u128,
)
    requires
        old(log).well_formed(),
    ensures
        final(log).well_formed(),
        final(log)@ == newest(
            old(log)@.push(
                SlowQuery {
                    unix_ms: unix_ms as nat,
                    elapsed_ms: elapsed_ms as nat,
                    query: query@,
                },
            ),
        ),
        *final(metrics) == (WebMetrics {
            slow_queries: old(metrics).slow_queries.wrapping_add(1),
            ..*old(metrics)
        }),
{
    metrics.slow_queries = metrics.slow_queries.wrapping_add(1);
    log.push(SlowQueryEntry { unix_ms, elapsed_ms, query: query.to_owned() });
}

/// Answers a query that was started, notes it where it was slow, and gives its place in the
/// quota back.
pub fn finish_web_query(
    metrics: &mut WebMetrics,
    quota: &mut TenantQuota,
    log: &mut SlowQueryLog,
    threshold_ms: u64,
    run: &WebQueryRun,
    outcome: Result<Vec<QueryRow>, String>,
) -> (r: Result<String, String>)
    requires
        old(quota).well_formed(),
        old(log).well_formed(),
        outcome is Ok ==> rows_well_formed(outcome->Ok_0@),
    ensures
        final(quota).well_formed(),
        final(log).well_formed(),
        final(quota).limits() == old(quota).limits(),
        forall|d: Seq<char>| #[trigger]
            final(quota).active(d) == less(
                old(quota).active(d),
                if d == run.database@ {
                    1
                } else {
                    0
                },
            ),
        match web_query_problem(*old(quota), run.database@, outcome) {
            Some(e) => r is Err && r->Err_0@ == e && final(log)@ == old(log)@ && *final(metrics)
                == (WebMetrics {
                query_errors: old(metrics).query_errors.wrapping_add(1),
                ..*old(metrics)
            }),
            None => r is Ok && r->Ok_0@ == query_body(outcome->Ok_0@, run.database@) && final(log)@
                == slow_after(old(log)@, *run, threshold_ms) && *final(metrics) == (if run.elapsed_ms
                >= threshold_ms {
                WebMetrics {
                    slow_queries: old(metrics).slow_queries.wrapping_add(1),
                    ..*old(metrics)
                }
            } else {
                *old(metrics)
            }),
        },
{
    let database = run.database.as_str();
    let rows = match outcome {
        Err(e) => {
            metrics.query_errors = metrics.query_errors.wrapping_add(1);
            quota.release_query(database);
            return Err(e);
        },
        Ok(rows) => rows,
    };
    if let Err(e) = quota.validate_result_rows(database, rows.len()) {
        metrics.query_errors = metrics.query_errors.wrapping_add(1);
        quota.release_query(database);
        return Err(e);
    }
    if run.elapsed_ms >= threshold_ms as u128 {
        record_slow_query(metrics, log, run.query.as_str(), run.elapsed_ms, run.unix_ms);
    }
    quota.release_query(database);
    Ok(query_result_json(rows.as_slice(), database))
}

} // verus!
