//! What holds a server back: failed logins, slow queries, and the quota of a database.

use vstd::prelude::*;

use crate::readiness::{
    admission_problem, evaluate_resource_admission, ResourceAdmissionPolicy,
    ResourceAdmissionRequest,
};
use crate::text_table::TextTable;

verus! {

/// How long failed logins are counted together, in milliseconds.
pub const FAILURE_WINDOW_MS: u128 = 60_000;

/// How many failed logins a window allows.
pub const MAX_FAILURES: u64 = 5;

/// How many slow queries are remembered.
pub const MAX_SLOW_QUERY_ENTRIES: usize = 128;

/// The failed logins of one source in the current window.
#[derive(Clone, Copy)]
pub struct AuthFailureEntry {
    pub window_start_ms: u128,
    pub failures: u64,
}

/// The count of a source that has not failed yet.
pub open spec fn no_failures() -> AuthFailureEntry {
    AuthFailureEntry { window_start_ms: 0, failures: 0 }
}

/// The count after a failure at the given time: a failure later than the window opens a
/// new one.
pub open spec fn after_failure(entry: AuthFailureEntry, now_ms: u128) -> AuthFailureEntry {
    let current = if now_ms > entry.window_start_ms + FAILURE_WINDOW_MS {
        AuthFailureEntry { window_start_ms: now_ms, failures: 0 }
    } else {
        entry
    };
    AuthFailureEntry {
        window_start_ms: current.window_start_ms,
        failures: if current.failures == u64::MAX {
            u64::MAX
        } else {
            (current.failures + 1) as u64
        },
    }
}

/// Counts failed logins by their source.
pub struct AuthFailureLimiter {
    entries: TextTable<AuthFailureEntry>,
}

impl AuthFailureLimiter {
    pub closed spec fn view(&self) -> Map<Seq<char>, AuthFailureEntry> {
        self.entries@
    }

    pub closed spec fn well_formed(&self) -> bool {
        self.entries.well_formed()
    }

    /// The count of a source.
    pub open spec fn count(&self, key: Seq<char>) -> AuthFailureEntry {
        if self@.dom().contains(key) {
            self@[key]
        } else {
            no_failures()
        }
    }

    /// A limiter that has seen no failure.
    pub fn new() -> (r: Self)
        ensures
            r.well_formed(),
            r@ == Map::<Seq<char>, AuthFailureEntry>::empty(),
    {
        AuthFailureLimiter { entries: TextTable::new() }
    }

    /// Counts a failure of a source, and tells whether it has failed too often.
    pub fn record_and_should_limit(&mut self, key: &str, now_ms: u128) -> (limited: bool)
        requires
            old(self).well_formed(),
        ensures
            final(self).well_formed(),
            final(self)@ == old(self)@.insert(key@, after_failure(old(self).count(key@), now_ms)),
            limited == (after_failure(old(self).count(key@), now_ms).failures > MAX_FAILURES),
    {
        let mut entry = match self.entries.get(key) {
            Some(e) => *e,
            None => AuthFailureEntry { window_start_ms: 0, failures: 0 },
        };
        if now_ms > entry.window_start_ms && now_ms - entry.window_start_ms > FAILURE_WINDOW_MS {
            entry = AuthFailureEntry { window_start_ms: now_ms, failures: 0 };
        }
        if entry.failures < u64::MAX {
            entry.failures = entry.failures + 1;
        }
        let limited = entry.failures > MAX_FAILURES;
        self.entries.insert(key.to_owned(), entry);
        limited
    }
}

/// The count after failures at the given times, in order.
pub open spec fn after_failures(entry: AuthFailureEntry, times: Seq<u128>) -> AuthFailureEntry
    decreases times.len(),
{
    if times.len() == 0 {
        entry
    } else {
        after_failure(after_failures(entry, times.drop_last()), times.last())
    }
}

proof fn lemma_window_count(entry: AuthFailureEntry, times: Seq<u128>)
    requires
        entry.failures + times.len() <= u64::MAX,
        forall|i: int|
            0 <= i < times.len() ==> (#[trigger] times[i]) <= entry.window_start_ms
                + FAILURE_WINDOW_MS,
    ensures
        after_failures(entry, times).window_start_ms == entry.window_start_ms,
        after_failures(entry, times).failures == entry.failures + times.len(),
    decreases times.len(),
{
    if times.len() > 0 {
        let rest = times.drop_last();
        assert forall|i: int| 0 <= i < rest.len() implies (#[trigger] rest[i])
            <= entry.window_start_ms + FAILURE_WINDOW_MS by {
            assert(rest[i] == times[i]);
        }
        lemma_window_count(entry, rest);
        assert(times.last() == times[times.len() - 1]);
    }
}

/// Of the failures of one source within one window, the sixth and every later one is
/// limited, and none before.
pub proof fn sixth_failure_in_a_window_is_limited(first: u128, times: Seq<u128>)
    requires
        first > FAILURE_WINDOW_MS,
        times.len() < u64::MAX,
        forall|i: int|
            0 <= i < times.len() ==> (#[trigger] times[i]) <= first + FAILURE_WINDOW_MS,
    ensures
        (after_failures(after_failure(no_failures(), first), times).failures > MAX_FAILURES) <==> (
        times.len() + 1 >= 6),
{
    lemma_window_count(after_failure(no_failures(), first), times);
}

/// A query that took long.
pub struct SlowQueryEntry {
    pub unix_ms: u128,
    pub elapsed_ms: u128,
    pub query: String,
}

/// The contents of the record of a slow query.
pub struct SlowQuery {
    pub unix_ms: nat,
    pub elapsed_ms: nat,
    pub query: Seq<char>,
}

impl SlowQueryEntry {
    pub open spec fn view(&self) -> SlowQuery {
        SlowQuery {
            unix_ms: self.unix_ms as nat,
            elapsed_ms: self.elapsed_ms as nat,
            query: self.query@,
        }
    }

    /// A record with the same contents.
    pub fn copy(&self) -> (r: Self)
        ensures
            r@ == self@,
    {
        SlowQueryEntry {
            unix_ms: self.unix_ms,
            elapsed_ms: self.elapsed_ms,
            query: self.query.as_str().to_owned(),
        }
    }
}

/// The contents of a list of slow queries.
pub open spec fn slow_views(list: Seq<SlowQueryEntry>) -> Seq<SlowQuery> {
    list.map_values(|e: SlowQueryEntry| e@)
}

/// The last entries of a list, as many as are remembered.
pub open spec fn newest(list: Seq<SlowQuery>) -> Seq<SlowQuery> {
    if list.len() > MAX_SLOW_QUERY_ENTRIES {
        list.skip(list.len() - MAX_SLOW_QUERY_ENTRIES)
    } else {
        list
    }
}

/// The slow queries of late.
pub struct SlowQueryLog {
    entries: Vec<SlowQueryEntry>,
}

impl SlowQueryLog {
    pub closed spec fn view(&self) -> Seq<SlowQuery> {
        slow_views(self.entries@)
    }

    /// The log holds no more than is remembered.
    pub open spec fn well_formed(&self) -> bool {
        self@.len() <= MAX_SLOW_QUERY_ENTRIES
    }

    pub fn new() -> (r: Self)
        ensures
            r.well_formed(),
            r@ == Seq::<SlowQuery>::empty(),
    {
        let r = SlowQueryLog { entries: Vec::new() };
        assert(r@ =~= Seq::<SlowQuery>::empty());
        r
    }

    /// Notes a slow query; the oldest is forgotten where there are too many.
    pub fn push(&mut self, entry: SlowQueryEntry)
        requires
            old(self).well_formed(),
        ensures
            final(self).well_formed(),
            final(self)@ == newest(old(self)@.push(entry@)),
    {
        let ghost before = self@;
        self.entries.push(entry);
        assert(self@ =~= before.push(entry@));
        if self.entries.len() > MAX_SLOW_QUERY_ENTRIES {
            let ghost grown = self@;
            let _ = self.entries.remove(0);
            assert(self@ =~= grown.skip(1));
        }
    }

    /// The slow queries, oldest first.
    pub fn entries(&self) -> (r: Vec<SlowQueryEntry>)
        ensures
            slow_views(r@) == self@,
    {
        let mut r: Vec<SlowQueryEntry> = Vec::new();
        let mut i: usize = 0;
        assert(slow_views(r@) =~= self@.take(0));
        while i < self.entries.len()
            invariant
                0 <= i <= self.entries@.len(),
                slow_views(r@) == self@.take(i as int),
            decreases self.entries@.len() - i,
        {
            let ghost before = r@;
            r.push(self.entries[i].copy());
            assert(slow_views(r@) =~= slow_views(before).push(self@[i as int]));
            assert(self@.take(i + 1) =~= self@.take(i as int).push(self@[i as int]));
            i = i + 1;
        }
        assert(self@.take(self@.len() as int) =~= self@);
        r
    }
}

/// The limits that hold for every database.
#[derive(Clone, Copy)]
pub struct TenantQuotaLimits {
    pub max_concurrent_queries: Option<usize>,
    pub max_result_rows: Option<usize>,
}

/// What a database may run at once and return.
pub struct TenantQuota {
    limits: TenantQuotaLimits,
    active_queries: TextTable<usize>,
}

/// The budget that stands for a limit on queries at once.
pub open spec fn query_budget(limits: TenantQuotaLimits) -> ResourceAdmissionPolicy {
    ResourceAdmissionPolicy {
        max_concurrent_queries: limits.max_concurrent_queries.unwrap() as u64,
        max_result_rows: match limits.max_result_rows {
            Some(n) => n as u64,
            None => usize::MAX as u64,
        },
        max_memory_bytes: u64::MAX,
    }
}

/// Why a database that runs `active` queries may not run another.
pub open spec fn query_refusal(
    limits: TenantQuotaLimits,
    database: Seq<char>,
    active: nat,
) -> Option<Seq<char>> {
    if limits.max_concurrent_queries is None {
        None
    } else {
        match admission_problem(
            query_budget(limits),
            (ResourceAdmissionRequest {
                active_queries: active as u64,
                estimated_result_rows: 0,
                estimated_memory_bytes: 0,
            }),
        ) {
            Some(e) => Some("tenant quota exceeded for database "@ + database + ": "@ + e),
            None => None,
        }
    }
}

/// Why a database may not return that many rows.
pub open spec fn rows_refusal(
    limits: TenantQuotaLimits,
    database: Seq<char>,
    rows: nat,
) -> Option<Seq<char>> {
    match limits.max_result_rows {
        None => None,
        Some(limit) => match admission_problem(
            (ResourceAdmissionPolicy {
                max_concurrent_queries: u64::MAX,
                max_result_rows: limit as u64,
                max_memory_bytes: u64::MAX,
            }),
            (ResourceAdmissionRequest {
                active_queries: 0,
                estimated_result_rows: rows as u64,
                estimated_memory_bytes: 0,
            }),
        ) {
            Some(e) => Some(
                "tenant result row quota exceeded for database "@ + database + ": "@ + e,
            ),
            None => None,
        },
    }
}

fn refusal(what: &str, database: &str, why: &str) -> (e: String)
    ensures
        e@ == what@ + database@ + ": "@ + why@,
{
    let mut e = what.to_owned();
    e.append(database);
    e.append(": ");
    e.append(why);
    e
}

impl TenantQuota {
    pub closed spec fn limits(&self) -> TenantQuotaLimits {
        self.limits
    }

    /// How many queries a database runs that count against the quota.
    pub closed spec fn active(&self, database: Seq<char>) -> nat {
        if self.active_queries@.dom().contains(database) {
            self.active_queries@[database] as nat
        } else {
            0
        }
    }

    pub closed spec fn well_formed(&self) -> bool {
        self.active_queries.well_formed()
    }

    /// A quota without limits.
    pub fn new() -> (r: Self)
        ensures
            r.well_formed(),
            r.limits() == (TenantQuotaLimits {
                max_concurrent_queries: None,
                max_result_rows: None,
            }),
            forall|d: Seq<char>| #[trigger] r.active(d) == 0,
    {
        TenantQuota {
            limits: TenantQuotaLimits { max_concurrent_queries: None, max_result_rows: None },
            active_queries: TextTable::new(),
        }
    }

    /// Sets the limits.
    pub fn configure(
        &mut self,
        max_concurrent_queries: Option<usize>,
        max_result_rows: Option<usize>,
    )
        requires
            old(self).well_formed(),
        ensures
            final(self).well_formed(),
            final(self).limits() == (TenantQuotaLimits { max_concurrent_queries, max_result_rows }),
            forall|d: Seq<char>| #[trigger] final(self).active(d) == old(self).active(d),
    {
        self.limits = TenantQuotaLimits { max_concurrent_queries, max_result_rows };
    }

    /// Starts a query of a database, where the quota allows another. Without a limit on
    /// queries at once the query is not counted.
    pub fn acquire_query(&mut self, database: &str) -> (r: Result<(), String>)
        requires
            old(self).well_formed(),
        ensures
            final(self).well_formed(),
            final(self).limits() == old(self).limits(),
            match r {
                Ok(_) => query_refusal(old(self).limits(), database@, old(self).active(database@))
                    is None,
                Err(e) => query_refusal(old(self).limits(), database@, old(self).active(database@))
                    == Some(e@),
            },
            forall|d: Seq<char>| #[trigger]
                final(self).active(d) == old(self).active(d) + (if r is Ok
                    && old(self).limits().max_concurrent_queries is Some && d == database@ {
                    1nat
                } else {
                    0nat
                }),
    {
        let limit: usize = match self.limits.max_concurrent_queries {
            None => return Ok(()),
            Some(limit) => limit,
        };
        let current: usize = match self.active_queries.get(database) {
            Some(n) => *n,
            None => 0,
        };
        let rows: usize = match self.limits.max_result_rows {
            Some(n) => n,
            None => usize::MAX,
        };
        let policy = ResourceAdmissionPolicy {
            max_concurrent_queries: limit as u64,
            max_result_rows: rows as u64,
            max_memory_bytes: u64::MAX,
        };
        let request = ResourceAdmissionRequest {
            active_queries: current as u64,
            estimated_result_rows: 0,
            estimated_memory_bytes: 0,
        };
        if let Err(e) = evaluate_resource_admission(&policy, &request) {
            return Err(refusal("tenant quota exceeded for database ", database, e.as_str()));
        }
        self.active_queries.insert(database.to_owned(), current + 1);
        Ok(())
    }

    /// Ends a query of a database.
    pub fn release_query(&mut self, database: &str)
        requires
            old(self).well_formed(),
        ensures
            final(self).well_formed(),
            final(self).limits() == old(self).limits(),
            forall|d: Seq<char>| #[trigger]
                final(self).active(d) == (if d == database@ && old(self).active(d) > 0 {
                    (old(self).active(d) - 1) as nat
                } else {
                    old(self).active(d)
                }),
    {
        let current: usize = match self.active_queries.get(database) {
            Some(n) => *n,
            None => return,
        };
        if current > 1 {
            self.active_queries.insert(database.to_owned(), current - 1);
        } else {
            let _ = self.active_queries.remove(database);
        }
    }

    /// Checks the number of rows that a query of a database returns.
    pub fn validate_result_rows(&self, database: &str, rows: usize) -> (r: Result<(), String>)
        ensures
            match r {
                Ok(_) => rows_refusal(self.limits(), database@, rows as nat) is None,
                Err(e) => rows_refusal(self.limits(), database@, rows as nat) == Some(e@),
            },
    {
        let limit: usize = match self.limits.max_result_rows {
            None => return Ok(()),
            Some(limit) => limit,
        };
        let policy = ResourceAdmissionPolicy {
            max_concurrent_queries: u64::MAX,
            max_result_rows: limit as u64,
            max_memory_bytes: u64::MAX,
        };
        let request = ResourceAdmissionRequest {
            active_queries: 0,
            estimated_result_rows: rows as u64,
            estimated_memory_bytes: 0,
        };
        match evaluate_resource_admission(&policy, &request) {
            Ok(_) => Ok(()),
            Err(e) => Err(
                refusal(
                    "tenant result row quota exceeded for database ",
                    database,
                    e.as_str(),
                ),
            ),
        }
    }
}

/// A query of a database is started exactly where fewer queries run than the limit, so
/// the running queries never exceed it.
pub proof fn quota_is_never_exceeded(limits: TenantQuotaLimits, database: Seq<char>, active: nat)
    requires
        limits.max_concurrent_queries is Some,
        active <= u64::MAX,
    ensures
        query_refusal(limits, database, active) is None <==> active + 1
            <= limits.max_concurrent_queries.unwrap(),
{
    vstd::layout::unsigned_int_max_values();
}

} // verus!
