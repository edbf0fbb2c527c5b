//! Checks that a release and a running server have to pass: compatibility with the
//! release before, coverage of alerts and restore drills, garbage collection, and the
//! admission of queries within a budget.

use vstd::prelude::*;

use crate::text::{
    cat, comes_before, contains, dec, holds, lemma_less_total, lemma_less_transitive, less, lines,
    lines_of, same, show, split_first, split_once, trim, trimmed, views,
};

verus! {

/// The value that the last line `key = value` of a file gives a key.
pub open spec fn last_value(file: Seq<Seq<char>>, key: Seq<char>) -> Option<Seq<char>>
    decreases file.len(),
{
    if file.len() == 0 {
        None
    } else {
        match split_once(file.last(), "="@) {
            Some((k, v)) => if trim(k) == key {
                Some(trim(v))
            } else {
                last_value(file.drop_last(), key)
            },
            None => last_value(file.drop_last(), key),
        }
    }
}

fn find_value(file: &[String], key: &str) -> (r: Option<String>)
    ensures
        match r {
            Some(v) => last_value(views(file@), key@) == Some(v@),
            None => last_value(views(file@), key@) is None,
        },
{
    let mut found: Option<String> = None;
    let mut i: usize = 0;
    let ghost all = views(file@);
    while i < file.len()
        invariant
            0 <= i <= file@.len(),
            all == views(file@),
            match found {
                Some(v) => last_value(all.take(i as int), key@) == Some(v@),
                None => last_value(all.take(i as int), key@) is None,
            },
        decreases file@.len() - i,
    {
        assert(all.take(i + 1).drop_last() =~= all.take(i as int));
        assert(all.take(i + 1).last() == file@[i as int]@);
        match split_first(file[i].as_str(), "=") {
            Some((k, v)) => {
                if same(trimmed(k.as_str()).as_str(), key) {
                    found = Some(trimmed(v.as_str()));
                }
            },
            None => {},
        }
        i = i + 1;
    }
    assert(all.take(all.len() as int) =~= all);
    found
}

/// What is wrong with the values that two releases give a key.
pub open spec fn key_problem(
    current: Seq<Seq<char>>,
    previous: Seq<Seq<char>>,
    key: Seq<char>,
) -> Option<Seq<char>> {
    match last_value(current, key) {
        None => Some("missing current compatibility key "@ + key),
        Some(now) => match last_value(previous, key) {
            None => Some("missing previous compatibility key "@ + key),
            Some(before) => if less(now, before) {
                Some(
                    "compatibility key "@ + key + " moved backwards from "@ + before + " to "@ + now,
                )
            } else {
                None
            },
        },
    }
}

fn check_key(current: &[String], previous: &[String], key: &str) -> (r: Option<String>)
    ensures
        match r {
            Some(e) => key_problem(views(current@), views(previous@), key@) == Some(e@),
            None => key_problem(views(current@), views(previous@), key@) is None,
        },
{
    match find_value(current, key) {
        None => Some(cat("missing current compatibility key ", key)),
        Some(now) => match find_value(previous, key) {
            None => Some(cat("missing previous compatibility key ", key)),
            Some(before) => if comes_before(now.as_str(), before.as_str()) {
                let mut e = "compatibility key ".to_owned();
                e.append(key);
                e.append(" moved backwards from ");
                e.append(before.as_str());
                e.append(" to ");
                e.append(now.as_str());
                Some(e)
            } else {
                None
            },
        },
    }
}

/// The keys of the compatibility metadata, in the order in which they are compared.
pub open spec fn compatibility_keys() -> Seq<Seq<char>> {
    seq![
        "native_protocol_min"@,
        "native_protocol_max"@,
        "data_format_version"@,
        "storage_manifest_format"@,
    ]
}

/// The first thing wrong with the keys from the `i`-th on.
pub open spec fn metadata_problem(
    current: Seq<Seq<char>>,
    previous: Seq<Seq<char>>,
    i: int,
) -> Option<Seq<char>>
    decreases compatibility_keys().len() - i,
{
    if i < 0 || i >= compatibility_keys().len() {
        None
    } else {
        match key_problem(current, previous, compatibility_keys()[i]) {
            Some(e) => Some(e),
            None => metadata_problem(current, previous, i + 1),
        }
    }
}

/// Compares the compatibility metadata of a release with that of the release before:
/// no value may come before the earlier one.
pub fn compare_previous_release_metadata(current: &str, previous: &str) -> (r: Result<(), String>)
    ensures
        match r {
            Ok(_) => metadata_problem(lines(current@), lines(previous@), 0) is None,
            Err(e) => metadata_problem(lines(current@), lines(previous@), 0) == Some(e@),
        },
{
    let now = lines_of(current);
    let before = lines_of(previous);
    proof {
        reveal_with_fuel(metadata_problem, 5);
    }
    if let Some(e) = check_key(now.as_slice(), before.as_slice(), "native_protocol_min") {
        return Err(e);
    }
    if let Some(e) = check_key(now.as_slice(), before.as_slice(), "native_protocol_max") {
        return Err(e);
    }
    if let Some(e) = check_key(now.as_slice(), before.as_slice(), "data_format_version") {
        return Err(e);
    }
    if let Some(e) = check_key(now.as_slice(), before.as_slice(), "storage_manifest_format") {
        return Err(e);
    }
    Ok(())
}

proof fn lemma_no_problem(current: Seq<Seq<char>>, previous: Seq<Seq<char>>, i: int)
    requires
        0 <= i <= compatibility_keys().len(),
    ensures
        metadata_problem(current, previous, i) is None <==> forall|k: int|
            i <= k < compatibility_keys().len() ==> key_problem(
                current,
                previous,
                #[trigger] compatibility_keys()[k],
            ) is None,
    decreases compatibility_keys().len() - i,
{
    if i < compatibility_keys().len() {
        lemma_no_problem(current, previous, i + 1);
        if metadata_problem(current, previous, i) is None {
            assert forall|k: int| i <= k < compatibility_keys().len() implies key_problem(
                current,
                previous,
                #[trigger] compatibility_keys()[k],
            ) is None by {}
        } else {
            if key_problem(current, previous, compatibility_keys()[i]) is None {
                let k = choose|k: int|
                    i + 1 <= k < compatibility_keys().len() && key_problem(
                        current,
                        previous,
                        #[trigger] compatibility_keys()[k],
                    ) is Some;
                assert(key_problem(current, previous, compatibility_keys()[k]) is Some);
            }
        }
    }
}

/// A release that is no step back from a second one, which is none from a third, is no
/// step back from the third.
pub proof fn releases_never_move_backwards(
    newest: Seq<Seq<char>>,
    middle: Seq<Seq<char>>,
    oldest: Seq<Seq<char>>,
)
    requires
        metadata_problem(newest, middle, 0) is None,
        metadata_problem(middle, oldest, 0) is None,
    ensures
        metadata_problem(newest, oldest, 0) is None,
{
    lemma_no_problem(newest, middle, 0);
    lemma_no_problem(middle, oldest, 0);
    lemma_no_problem(newest, oldest, 0);
    assert forall|k: int| 0 <= k < compatibility_keys().len() implies key_problem(
        newest,
        oldest,
        #[trigger] compatibility_keys()[k],
    ) is None by {
        let key = compatibility_keys()[k];
        assert(key_problem(newest, middle, key) is None);
        assert(key_problem(middle, oldest, key) is None);
        let a = last_value(newest, key).unwrap();
        let b = last_value(middle, key).unwrap();
        let c = last_value(oldest, key).unwrap();
        lemma_less_total(a, b);
        lemma_less_total(b, c);
        if less(a, c) {
            if b == c {
            } else {
                lemma_less_transitive(a, c, b);
            }
        }
    }
}

/// The first of the texts that a text does not hold.
pub open spec fn first_missing(text: Seq<char>, wanted: Seq<Seq<char>>, i: int) -> Option<Seq<char>>
    decreases wanted.len() - i,
{
    if i < 0 || i >= wanted.len() {
        None
    } else if holds(text, wanted[i]) {
        first_missing(text, wanted, i + 1)
    } else {
        Some(wanted[i])
    }
}

/// The contents of a list of texts.
pub open spec fn str_views(v: Seq<&str>) -> Seq<Seq<char>> {
    v.map_values(|s: &str| s@)
}

/// Checks that alert rules speak of every required metric.
pub fn alert_rules_cover_required_metrics(rules: &str, required_metrics: &[&str]) -> (r: Result<
    (),
    String,
>)
    ensures
        match r {
            Ok(_) => first_missing(rules@, str_views(required_metrics@), 0) is None,
            Err(e) => match first_missing(rules@, str_views(required_metrics@), 0) {
                Some(m) => e@ == "missing alert coverage for metric "@ + m,
                None => false,
            },
        },
{
    let ghost wanted = str_views(required_metrics@);
    let mut i: usize = 0;
    while i < required_metrics.len()
        invariant
            0 <= i <= required_metrics@.len(),
            wanted == str_views(required_metrics@),
            first_missing(rules@, wanted, 0) == first_missing(rules@, wanted, i as int),
        decreases required_metrics@.len() - i,
    {
        assert(wanted[i as int] == required_metrics@[i as int]@);
        if !contains(rules, required_metrics[i]) {
            return Err(cat("missing alert coverage for metric ", required_metrics[i]));
        }
        i = i + 1;
    }
    Ok(())
}

/// What the manifest of restore drills has to hold.
pub open spec fn drill_requirements() -> Seq<Seq<char>> {
    seq![
        "policy: snapshot-plus-wal-archive"@,
        "max_age_hours:"@,
        "restore_targets:"@,
        "metadata-reopens"@,
        "wal-archive-readable"@,
        "query-regression-corpus-runs"@,
        "seed-new-cluster-from-restored-data"@,
    ]
}

fn drill_complaint(required: &str) -> (r: Result<(), String>)
    ensures
        r is Err,
        r->Err_0@ == "restore drill manifest missing "@ + required@,
{
    Err(cat("restore drill manifest missing ", required))
}

/// Checks the manifest of restore drills.
pub fn validate_restore_drill_manifest(manifest: &str) -> (r: Result<(), String>)
    ensures
        match r {
            Ok(_) => first_missing(manifest@, drill_requirements(), 0) is None,
            Err(e) => match first_missing(manifest@, drill_requirements(), 0) {
                Some(m) => e@ == "restore drill manifest missing "@ + m,
                None => false,
            },
        },
{
    proof {
        reveal_with_fuel(first_missing, 8);
    }
    if !contains(manifest, "policy: snapshot-plus-wal-archive") {
        return drill_complaint("policy: snapshot-plus-wal-archive");
    }
    if !contains(manifest, "max_age_hours:") {
        return drill_complaint("max_age_hours:");
    }
    if !contains(manifest, "restore_targets:") {
        return drill_complaint("restore_targets:");
    }
    if !contains(manifest, "metadata-reopens") {
        return drill_complaint("metadata-reopens");
    }
    if !contains(manifest, "wal-archive-readable") {
        return drill_complaint("wal-archive-readable");
    }
    if !contains(manifest, "query-regression-corpus-runs") {
        return drill_complaint("query-regression-corpus-runs");
    }
    if !contains(manifest, "seed-new-cluster-from-restored-data") {
        return drill_complaint("seed-new-cluster-from-restored-data");
    }
    Ok(())
}

/// What garbage collection may remove.
pub struct GcPlan {
    pub dry_run: bool,
    pub safe_watermark: u64,
    pub candidates: Vec<String>,
}

/// The files that a plan has removed, in order, where they exist: none in a dry run. A
/// restore that has not been finished forbids collection.
pub fn execute_gc_plan(plan: &GcPlan, pending_restore_manifest: bool) -> (r: Result<
    Vec<String>,
    String,
>)
    ensures
        match r {
            Ok(files) => !pending_restore_manifest && views(files@) == (if plan.dry_run {
                Seq::<Seq<char>>::empty()
            } else {
                views(plan.candidates@)
            }),
            Err(e) => pending_restore_manifest && e@
                == "refusing GC while a pending restore manifest exists"@,
        },
{
    if pending_restore_manifest {
        return Err("refusing GC while a pending restore manifest exists".to_owned());
    }
    let mut files: Vec<String> = Vec::new();
    if plan.dry_run {
        assert(views(files@) =~= Seq::<Seq<char>>::empty());
        return Ok(files);
    }
    let mut i: usize = 0;
    let ghost all = views(plan.candidates@);
    assert(views(files@) =~= all.take(0));
    while i < plan.candidates.len()
        invariant
            0 <= i <= plan.candidates@.len(),
            all == views(plan.candidates@),
            views(files@) == all.take(i as int),
        decreases plan.candidates@.len() - i,
    {
        let ghost before = files@;
        files.push(plan.candidates[i].as_str().to_owned());
        assert(views(files@) =~= views(before).push(plan.candidates@[i as int]@));
        assert(all.take(i + 1) =~= all.take(i as int).push(plan.candidates@[i as int]@));
        i = i + 1;
    }
    assert(all.take(all.len() as int) =~= all);
    Ok(files)
}

/// The budget within which queries are admitted.
pub struct ResourceAdmissionPolicy {
    pub max_concurrent_queries: u64,
    pub max_result_rows: u64,
    pub max_memory_bytes: u64,
}

/// What a query asks of the budget.
pub struct ResourceAdmissionRequest {
    pub active_queries: u64,
    pub estimated_result_rows: u64,
    pub estimated_memory_bytes: u64,
}

/// Why a query is not admitted.
pub open spec fn admission_problem(
    policy: ResourceAdmissionPolicy,
    request: ResourceAdmissionRequest,
) -> Option<Seq<char>> {
    if request.active_queries >= policy.max_concurrent_queries {
        Some(
            "query concurrency admission rejected: active="@ + dec(request.active_queries as nat)
                + " limit="@ + dec(policy.max_concurrent_queries as nat),
        )
    } else if request.estimated_result_rows > policy.max_result_rows {
        Some(
            "result row admission rejected: rows="@ + dec(request.estimated_result_rows as nat)
                + " limit="@ + dec(policy.max_result_rows as nat),
        )
    } else if request.estimated_memory_bytes > policy.max_memory_bytes {
        Some(
            "memory admission rejected: bytes="@ + dec(request.estimated_memory_bytes as nat)
                + " limit="@ + dec(policy.max_memory_bytes as nat),
        )
    } else {
        None
    }
}

fn over_limit(what: &str, asked: u64, limit: u64) -> (e: String)
    ensures
        e@ == what@ + dec(asked as nat) + " limit="@ + dec(limit as nat),
{
    let mut e = what.to_owned();
    e.append(show(asked as u128).as_str());
    e.append(" limit=");
    e.append(show(limit as u128).as_str());
    e
}

/// Admits a query within the budget.
pub fn evaluate_resource_admission(
    policy: &ResourceAdmissionPolicy,
    request: &ResourceAdmissionRequest,
) -> (r: Result<(), String>)
    ensures
        match r {
            Ok(_) => admission_problem(*policy, *request) is None,
            Err(e) => admission_problem(*policy, *request) == Some(e@),
        },
{
    if request.active_queries >= policy.max_concurrent_queries {
        return Err(
            over_limit(
                "query concurrency admission rejected: active=",
                request.active_queries,
                policy.max_concurrent_queries,
            ),
        );
    }
    if request.estimated_result_rows > policy.max_result_rows {
        return Err(
            over_limit(
                "result row admission rejected: rows=",
                request.estimated_result_rows,
                policy.max_result_rows,
            ),
        );
    }
    if request.estimated_memory_bytes > policy.max_memory_bytes {
        return Err(
            over_limit(
                "memory admission rejected: bytes=",
                request.estimated_memory_bytes,
                policy.max_memory_bytes,
            ),
        );
    }
    Ok(())
}

} // verus!
