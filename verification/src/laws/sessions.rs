//! What transactions hold and show, and how much a client may do.

use vstd::prelude::*;

use crate::commands::{isolation_text, mode_text, ReadIsolation, TransactionMode};
use crate::cypher::{conflict_key, is_schema};
use crate::limits::{
    after_failure, newest, query_refusal, rows_refusal, AuthFailureEntry, SlowQuery,
    TenantQuotaLimits, MAX_FAILURES,
};
use crate::readiness::{admission_problem, ResourceAdmissionPolicy, ResourceAdmissionRequest};
use crate::text::{dec, join, split, splitting_undoes_joining};
use crate::transactions::{
    all_infos, context_of, fresh, info_of, listed, listed_with_session, open_in, session_closed,
    session_infos, source_of, staged, Source, TransactionInfo, Txn, Write,
};

verus! {

/// A write that is staged stands last among the writes of its transaction, and the writes before
/// it stay as they were; so does all else that was said when the transaction began.
pub proof fn staged_writes_stand_last(
    m: Map<u64, Txn>,
    session_id: u64,
    tx_id: u64,
    write: Write,
    signature: Seq<Seq<char>>,
)
    requires
        staged(m, session_id, tx_id, write, signature) is Ok,
    ensures
        ({
            let t = staged(m, session_id, tx_id, write, signature)->Ok_0;
            &&& m.dom().contains(tx_id)
            &&& t.writes.len() == m[tx_id].writes.len() + 1
            &&& t.writes.last() == write
            &&& forall|i: int|
                0 <= i < m[tx_id].writes.len() ==> #[trigger] t.writes[i] == m[tx_id].writes[i]
            &&& t.session_id == session_id && m[tx_id].session_id == session_id
            &&& t.mode == m[tx_id].mode && t.isolation == m[tx_id].isolation
            &&& t.ownership_epoch == m[tx_id].ownership_epoch
        }),
{
}

/// A write is staged where the transaction belongs to the session and may write, the write changes
/// data, and its target was not written before; in every other case it is refused.
pub proof fn writes_are_staged_unless_something_speaks_against_it(
    m: Map<u64, Txn>,
    session_id: u64,
    tx_id: u64,
    write: Write,
    signature: Seq<Seq<char>>,
)
    ensures
        staged(m, session_id, tx_id, write, signature) is Ok <==> m.dom().contains(tx_id)
            && m[tx_id].session_id == session_id && m[tx_id].mode is ReadWrite && !is_schema(
            write.query,
        ) && (conflict_key(write.query, signature) is None || !m[tx_id].keys.dom().contains(
            conflict_key(write.query, signature).unwrap(),
        )),
{
}

/// Once a target has been written in a transaction, it is not written again there.
pub proof fn targets_are_taken_once(
    m: Map<u64, Txn>,
    session_id: u64,
    tx_id: u64,
    write: Write,
    signature: Seq<Seq<char>>,
    later: Write,
    its: Seq<Seq<char>>,
)
    requires
        staged(m, session_id, tx_id, write, signature) is Ok,
        conflict_key(write.query, signature) is Some,
        conflict_key(later.query, its) == conflict_key(write.query, signature),
    ensures
        staged(
            m.insert(tx_id, staged(m, session_id, tx_id, write, signature)->Ok_0),
            session_id,
            tx_id,
            later,
            its,
        ) is Err,
{
}

/// A transaction that reads sees what was written in it: all of its writes, in order.
pub proof fn transactions_see_their_own_writes(t: Txn, distributed: bool)
    requires
        t.mode is ReadWrite,
    ensures
        t.writes.len() > 0 ==> source_of(t, distributed) == Source::Staged(t.isolation, t.writes),
        t.writes.len() == 0 && distributed ==> source_of(t, distributed) == Source::Fresh(
            t.isolation,
        ),
        t.writes.len() == 0 && !distributed ==> source_of(t, distributed) == Source::Staged(
            t.isolation,
            t.writes,
        ),
{
}

/// A transaction that only reads sees what was committed when it began, unless it asked for what is
/// committed by now.
pub proof fn reading_transactions_see_what_they_asked_for(t: Txn, distributed: bool)
    requires
        t.mode is ReadOnly,
    ensures
        t.isolation is Snapshot ==> source_of(t, distributed) is Begun,
        t.isolation is ReadCommitted ==> source_of(t, distributed) == Source::Fresh(
            ReadIsolation::ReadCommitted,
        ),
{
}

/// A transaction begins without writes.
pub proof fn transactions_begin_empty(
    session_id: u64,
    mode: TransactionMode,
    isolation: ReadIsolation,
    epoch: u64,
)
    ensures
        ({
            let t = fresh(session_id, mode, isolation, epoch);
            &&& t.session_id == session_id && t.mode == mode && t.isolation == isolation
            &&& t.ownership_epoch == epoch && t.writes.len() == 0
            &&& t.keys.dom() == Set::<Seq<char>>::empty()
        }),
{
    assert(fresh(session_id, mode, isolation, epoch).keys.dom() =~= Set::<Seq<char>>::empty());
}

/// A transaction is found in its own session only.
pub proof fn transactions_are_found_in_their_session(
    m: Map<u64, Txn>,
    session_id: u64,
    tx_id: u64,
)
    ensures
        open_in(m, session_id, tx_id) is Some <==> m.dom().contains(tx_id)
            && m[tx_id].session_id == session_id,
        open_in(m, session_id, tx_id) is Some ==> open_in(m, session_id, tx_id).unwrap()
            == m[tx_id],
{
}

/// The end of a session ends its transactions, and leaves the others as they are.
pub proof fn sessions_end_with_their_transactions(m: Map<u64, Txn>, session_id: u64, k: u64)
    ensures
        m.dom().contains(k) && m[k].session_id == session_id ==> !session_closed(
            m,
            session_id,
        ).dom().contains(k),
        m.dom().contains(k) && m[k].session_id != session_id ==> session_closed(
            m,
            session_id,
        ).dom().contains(k) && session_closed(m, session_id)[k] == m[k],
        !m.dom().contains(k) ==> !session_closed(m, session_id).dom().contains(k),
{
}

/// Whether places are in order.
pub open spec fn is_rising(places: Seq<int>) -> bool {
    forall|i: int, j: int|
        0 <= i < j < places.len() ==> #[trigger] places[i] < #[trigger] places[j]
}

/// What a session is told of its transactions are all of its own, each with its mode, its isolation
/// and the number of its writes, in order, and none of another session.
pub proof fn sessions_are_told_their_transactions(
    list: Seq<(u64, Txn)>,
    session_id: u64,
) -> (places: Seq<int>)
    ensures
        places.len() == session_infos(list, session_id).len(),
        is_rising(places),
        forall|j: int|
            0 <= j < places.len() ==> 0 <= #[trigger] places[j] < list.len()
                && list[places[j]].1.session_id == session_id && session_infos(
                list,
                session_id,
            )[j] == info_of(list[places[j]].0, list[places[j]].1),
        forall|i: int|
            0 <= i < list.len() && (#[trigger] list[i]).1.session_id == session_id
                ==> places.contains(i),
    decreases list.len(),
{
    if list.len() == 0 {
        Seq::empty()
    } else {
        let front = list.drop_last();
        let n = list.len() - 1;
        let before = sessions_are_told_their_transactions(front, session_id);
        let infos = session_infos(list, session_id);
        let places = if list.last().1.session_id == session_id {
            before.push(n)
        } else {
            before
        };
        assert forall|j: int| 0 <= j < places.len() implies 0 <= #[trigger] places[j] < list.len()
            && list[places[j]].1.session_id == session_id && infos[j] == info_of(
            list[places[j]].0,
            list[places[j]].1,
        ) by {
            if j < before.len() {
                assert(places[j] == before[j]);
                assert(front[before[j]] == list[before[j]]);
            } else {
                assert(list[n] == list.last());
            }
        }
        assert forall|i: int, j: int| 0 <= i < j < places.len() implies #[trigger] places[i]
            < #[trigger] places[j] by {
            assert(places[i] == before[i]);
            if j < before.len() {
                assert(places[j] == before[j]);
            }
        }
        assert forall|i: int|
            0 <= i < list.len() && (#[trigger] list[i]).1.session_id
                == session_id implies places.contains(i) by {
            if i < n {
                assert(front[i] == list[i]);
                let k = choose|k: int| 0 <= k < before.len() && before[k] == i;
                assert(places[k] == i);
            } else {
                assert(list[n] == list.last());
                assert(places[places.len() - 1] == n);
            }
        }
        places
    }
}

/// What is told of a transaction is what it is.
pub proof fn transactions_are_told_as_they_are(list: Seq<(u64, Txn)>, i: int)
    requires
        0 <= i < list.len(),
        list[i].1.writes.len() <= usize::MAX,
    ensures
        all_infos(list).len() == list.len(),
        ({
            let info = all_infos(list)[i];
            let t = list[i].1;
            &&& info.tx_id == list[i].0 && info.session_id == t.session_id
            &&& info.mode == t.mode && info.isolation == t.isolation
            &&& info.staged_writes == t.writes.len()
            &&& context_of(t).staged_writes == t.writes.len()
            &&& context_of(t).mode == t.mode && context_of(t).isolation == t.isolation
        }),
{
}

proof fn lemma_no_colon(info: TransactionInfo)
    ensures
        !mode_text(info.mode).contains(':'),
        !isolation_text(info.isolation).contains(':'),
        ":"@ == seq![':'],
{
    reveal_strlit(":");
    assert(":"@ =~= seq![':']);
    reveal_strlit("READ_ONLY");
    reveal_strlit("READ_WRITE");
    reveal_strlit("READ_COMMITTED");
    reveal_strlit("SNAPSHOT");
}

proof fn lemma_digits_without_colon(n: nat)
    ensures
        !dec(n).contains(':'),
{
    crate::text::dec_is_digits(n);
    if dec(n).contains(':') {
        let k = choose|k: int| 0 <= k < dec(n).len() && dec(n)[k] == ':';
        assert(crate::text::is_digit(dec(n)[k]));
    }
}

/// A transaction is listed with its number, its mode, its isolation and the number of its writes,
/// between colons; where all sessions are listed, the session stands before that.
pub proof fn listed_transactions_read_back(info: TransactionInfo)
    ensures
        split(listed(info), ':') == seq![
            dec(info.tx_id as nat),
            mode_text(info.mode),
            isolation_text(info.isolation),
            dec(info.staged_writes as nat),
        ],
        split(listed_with_session(info), ':') == seq![
            dec(info.session_id as nat),
            dec(info.tx_id as nat),
            mode_text(info.mode),
            isolation_text(info.isolation),
            dec(info.staged_writes as nat),
        ],
{
    lemma_no_colon(info);
    lemma_digits_without_colon(info.tx_id as nat);
    lemma_digits_without_colon(info.session_id as nat);
    lemma_digits_without_colon(info.staged_writes as nat);
    let a = dec(info.session_id as nat);
    let b = dec(info.tx_id as nat);
    let c = mode_text(info.mode);
    let d = isolation_text(info.isolation);
    let e = dec(info.staged_writes as nat);
    let sep = seq![':'];
    let four = seq![b, c, d, e];
    let five = seq![a, b, c, d, e];
    reveal_with_fuel(join, 6);
    assert(four.drop_last() =~= seq![b, c, d]);
    assert(seq![b, c, d].drop_last() =~= seq![b, c]);
    assert(seq![b, c].drop_last() =~= seq![b]);
    assert(join(four, sep) =~= listed(info));
    assert(five.drop_last() =~= seq![a, b, c, d]);
    assert(seq![a, b, c, d].drop_last() =~= seq![a, b, c]);
    assert(seq![a, b, c].drop_last() =~= seq![a, b]);
    assert(seq![a, b].drop_last() =~= seq![a]);
    assert(join(five, sep) =~= listed_with_session(info));
    splitting_undoes_joining(four, ':');
    splitting_undoes_joining(five, ':');
}

/// Modes and levels of isolation are named apart.
pub proof fn modes_are_named_apart(
    a: TransactionMode,
    b: TransactionMode,
    x: ReadIsolation,
    y: ReadIsolation,
)
    ensures
        mode_text(a) == mode_text(b) ==> a == b,
        isolation_text(x) == isolation_text(y) ==> x == y,
        a is ReadOnly ==> mode_text(a) == "READ_ONLY"@,
        x is Snapshot ==> isolation_text(x) == "SNAPSHOT"@,
{
    reveal_strlit("READ_ONLY");
    reveal_strlit("READ_WRITE");
    reveal_strlit("READ_COMMITTED");
    reveal_strlit("SNAPSHOT");
    assert("READ_ONLY"@.len() == 9 && "READ_WRITE"@.len() == 10);
    assert("READ_COMMITTED"@.len() == 14 && "SNAPSHOT"@.len() == 8);
}

/// Failures are counted within a minute of the first of them; a later one begins to count anew.
pub proof fn failures_are_counted_for_a_minute(entry: AuthFailureEntry, now_ms: u128)
    ensures
        now_ms - entry.window_start_ms <= 60_000 && entry.failures < u64::MAX ==> after_failure(
            entry,
            now_ms,
        ).failures == entry.failures + 1 && after_failure(entry, now_ms).window_start_ms
            == entry.window_start_ms,
        now_ms - entry.window_start_ms > 60_000 ==> after_failure(entry, now_ms).failures == 1
            && after_failure(entry, now_ms).window_start_ms == now_ms,
        MAX_FAILURES == 5,
{
}

/// Something is admitted where no more runs than may, no more rows are expected than may come, and
/// no more memory is needed than there is.
pub proof fn admission_keeps_every_bound(
    policy: ResourceAdmissionPolicy,
    request: ResourceAdmissionRequest,
)
    ensures
        admission_problem(policy, request) is None <==> request.active_queries
            < policy.max_concurrent_queries && request.estimated_result_rows
            <= policy.max_result_rows && request.estimated_memory_bytes <= policy.max_memory_bytes,
{
}

/// A query runs where fewer run than may run at once; without a bound it always runs.
pub proof fn queries_run_within_the_quota(
    limits: TenantQuotaLimits,
    database: Seq<char>,
    active: nat,
)
    requires
        active <= usize::MAX,
    ensures
        query_refusal(limits, database, active) is None <==> (
        limits.max_concurrent_queries matches Some(most) ==> active < most),
{
}

/// Rows are handed out where there are no more than may be; without a bound they always are.
pub proof fn rows_come_within_the_quota(limits: TenantQuotaLimits, database: Seq<char>, rows: nat)
    requires
        rows <= usize::MAX,
    ensures
        rows_refusal(limits, database, rows) is None <==> (limits.max_result_rows matches Some(most)
            ==> rows <= most),
{
}

/// The slow queries that are remembered are the last ones, in order, and only the oldest is
/// forgotten for a new one.
pub proof fn latest_slow_queries_are_remembered(list: Seq<SlowQuery>, entry: SlowQuery)
    requires
        list.len() <= 128,
    ensures
        ({
            let now = newest(list.push(entry));
            &&& now.last() == entry
            &&& list.len() < 128 ==> now == list.push(entry)
            &&& list.len() == 128 ==> now.len() == 128 && forall|i: int|
                0 <= i < 127 ==> #[trigger] now[i] == list[i + 1]
        }),
{
}

} // verus!
