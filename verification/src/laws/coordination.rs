//! What a commit of several shards has done by the time that it ends.

use vstd::prelude::*;

use crate::text::holds;
use crate::two_phase::{begun, late_outcome, next, run, Act, Came, Commit, Stage};

verus! {

/// How far a commit has come after the first outcomes.
pub open spec fn after(c: Commit, outcomes: Seq<Came>, k: int) -> Commit {
    run(c, outcomes.take(k))
}

proof fn lemma_after(c: Commit, outcomes: Seq<Came>, k: int)
    requires
        0 <= k <= outcomes.len(),
    ensures
        k == 0 ==> after(c, outcomes, k) == c,
        k > 0 ==> after(c, outcomes, k) == next(after(c, outcomes, k - 1), outcomes[k - 1]),
        k == outcomes.len() ==> after(c, outcomes, k) == run(c, outcomes),
{
    let s = outcomes.take(k);
    if k > 0 {
        assert(s.drop_last() =~= outcomes.take(k - 1));
        assert(s.last() == outcomes[k - 1]);
    }
    if k == outcomes.len() {
        assert(s =~= outcomes);
    }
}

/// Whether a shard of this server was told to commit, and did.
pub open spec fn committed_here(c: Commit, outcomes: Seq<Came>, n: int, i: int) -> bool {
    exists|k: int|
        0 <= k < n && (#[trigger] after(c, outcomes, k)).stage == Stage::CommitLocal(i as nat)
            && outcomes[k] is Done
}

/// Whether a shard of another server was told to commit, and did.
pub open spec fn committed_there(c: Commit, outcomes: Seq<Came>, n: int, i: int) -> bool {
    exists|k: int|
        0 <= k < n && (#[trigger] after(c, outcomes, k)).stage == Stage::CommitRemote(i as nat)
            && outcomes[k] is Done
}

/// Whether the decision to commit was recorded.
pub open spec fn commit_recorded(c: Commit, outcomes: Seq<Came>, n: int) -> bool {
    exists|k: int|
        0 <= k < n && (#[trigger] after(c, outcomes, k)).stage is RecordCommit && outcomes[k]
            is Done
}

/// Whether a shard of this server has prepared its writes, under a number.
pub open spec fn prepared_here(
    c: Commit,
    outcomes: Seq<Came>,
    n: int,
    shard_id: u64,
    prepared_id: u64,
) -> bool {
    exists|k: int|
        0 <= k < n && (#[trigger] after(c, outcomes, k)).stage is PrepareLocal && outcomes[k]
            == Came::Prepared(prepared_id) && after(c, outcomes, k).local_shards[after(
            c,
            outcomes,
            k,
        ).locals.len() as int] == shard_id
}

/// Whether a shard of another server has prepared its writes, under a number.
pub open spec fn prepared_there(
    c: Commit,
    outcomes: Seq<Came>,
    n: int,
    address: Seq<char>,
    shard_id: u64,
    prepared_id: u64,
) -> bool {
    exists|k: int|
        0 <= k < n && (#[trigger] after(c, outcomes, k)).stage is PrepareRemote && outcomes[k]
            == Came::Prepared(prepared_id) && after(c, outcomes, k).remote_shards[after(
            c,
            outcomes,
            k,
        ).remotes.len() as int] == (address, shard_id)
}

/// What has been prepared by the time that a commit has come so far.
spec fn prepared_so_far(c: Commit, outcomes: Seq<Came>, n: int) -> bool {
    let now = after(c, outcomes, n);
    &&& now.local_shards == c.local_shards
    &&& now.remote_shards == c.remote_shards
    &&& now.single == c.single
    &&& now.locals.len() <= c.local_shards.len()
    &&& now.remotes.len() <= c.remote_shards.len()
    &&& now.stage is PrepareLocal ==> now.locals.len() < c.local_shards.len() && now.remotes.len()
        == 0
    &&& now.stage is PrepareRemote ==> now.locals.len() == c.local_shards.len()
        && now.remotes.len() < c.remote_shards.len()
    &&& now.stage is RecordCommit || now.stage is CommitLocal || now.stage is CommitRemote
        || now.stage is Clear || now.stage is Committed ==> now.locals.len()
        == c.local_shards.len() && now.remotes.len() == c.remote_shards.len()
    &&& forall|i: int|
        0 <= i < now.locals.len() ==> (#[trigger] now.locals[i]).shard_id == c.local_shards[i]
            && prepared_here(c, outcomes, n, now.locals[i].shard_id, now.locals[i].prepared_id)
    &&& forall|i: int|
        0 <= i < now.remotes.len() ==> ((#[trigger] now.remotes[i]).address, now.remotes[i].shard_id)
            == c.remote_shards[i] && prepared_there(
            c,
            outcomes,
            n,
            now.remotes[i].address,
            now.remotes[i].shard_id,
            now.remotes[i].prepared_id,
        )
}

proof fn lemma_stays_prepared(c: Commit, outcomes: Seq<Came>, n: int)
    requires
        n > 0,
    ensures
        forall|s: u64, id: u64|
            prepared_here(c, outcomes, n - 1, s, id) ==> #[trigger] prepared_here(
                c,
                outcomes,
                n,
                s,
                id,
            ),
        forall|a: Seq<char>, s: u64, id: u64|
            prepared_there(c, outcomes, n - 1, a, s, id) ==> #[trigger] prepared_there(
                c,
                outcomes,
                n,
                a,
                s,
                id,
            ),
{
}

proof fn lemma_prepared_so_far(
    local_shards: Seq<u64>,
    remote_shards: Seq<(Seq<char>, u64)>,
    single: bool,
    outcomes: Seq<Came>,
    n: int,
)
    requires
        0 <= n <= outcomes.len(),
    ensures
        prepared_so_far(begun(local_shards, remote_shards, single), outcomes, n),
    decreases n,
{
    let c = begun(local_shards, remote_shards, single);
    lemma_after(c, outcomes, n);
    if n > 0 {
        lemma_prepared_so_far(local_shards, remote_shards, single, outcomes, n - 1);
        lemma_stays_prepared(c, outcomes, n);
        let was = after(c, outcomes, n - 1);
        let now = after(c, outcomes, n);
        assert forall|i: int| 0 <= i < now.locals.len() implies (
        #[trigger] now.locals[i]).shard_id == c.local_shards[i] && prepared_here(
            c,
            outcomes,
            n,
            now.locals[i].shard_id,
            now.locals[i].prepared_id,
        ) by {
            if i < was.locals.len() {
                assert(now.locals[i] == was.locals[i]);
            } else {
                assert(after(c, outcomes, n - 1).stage is PrepareLocal);
            }
        }
        assert forall|i: int| 0 <= i < now.remotes.len() implies ((
        #[trigger] now.remotes[i]).address, now.remotes[i].shard_id) == c.remote_shards[i]
            && prepared_there(
            c,
            outcomes,
            n,
            now.remotes[i].address,
            now.remotes[i].shard_id,
            now.remotes[i].prepared_id,
        ) by {
            if i < was.remotes.len() {
                assert(now.remotes[i] == was.remotes[i]);
            } else {
                assert(after(c, outcomes, n - 1).stage is PrepareRemote);
            }
        }
    }
}

/// What has been committed by the time that a commit has come so far.
spec fn committed_so_far(c: Commit, outcomes: Seq<Came>, n: int) -> bool {
    let here = forall|i: int|
        0 <= i < c.local_shards.len() ==> #[trigger] committed_here(c, outcomes, n, i);
    let there = forall|i: int|
        0 <= i < c.remote_shards.len() ==> #[trigger] committed_there(c, outcomes, n, i);
    let somebody = c.local_shards.len() + c.remote_shards.len() > 0;
    let recorded = somebody ==> commit_recorded(c, outcomes, n);
    match after(c, outcomes, n).stage {
        Stage::RecordCommit => somebody,
        Stage::CommitLocal(j) => recorded && j < c.local_shards.len() && forall|i: int|
            0 <= i < j ==> #[trigger] committed_here(c, outcomes, n, i),
        Stage::CommitRemote(j) => recorded && here && j < c.remote_shards.len() && forall|i: int|
            0 <= i < j ==> #[trigger] committed_there(c, outcomes, n, i),
        Stage::Clear => recorded && here && there,
        Stage::Committed => recorded && here && there,
        _ => true,
    }
}

proof fn lemma_stays_committed(c: Commit, outcomes: Seq<Came>, n: int)
    requires
        n > 0,
    ensures
        forall|i: int|
            committed_here(c, outcomes, n - 1, i) ==> #[trigger] committed_here(c, outcomes, n, i),
        forall|i: int|
            committed_there(c, outcomes, n - 1, i) ==> #[trigger] committed_there(
                c,
                outcomes,
                n,
                i,
            ),
        commit_recorded(c, outcomes, n - 1) ==> commit_recorded(c, outcomes, n),
        outcomes[n - 1] is Done ==> match after(c, outcomes, n - 1).stage {
            Stage::RecordCommit => commit_recorded(c, outcomes, n),
            Stage::CommitLocal(j) => committed_here(c, outcomes, n, j as int),
            Stage::CommitRemote(j) => committed_there(c, outcomes, n, j as int),
            _ => true,
        },
{
    let was = after(c, outcomes, n - 1).stage;
    if let Stage::CommitLocal(j) = was {
        assert(was == Stage::CommitLocal(j as int as nat));
    }
    if let Stage::CommitRemote(j) = was {
        assert(was == Stage::CommitRemote(j as int as nat));
    }
}

proof fn lemma_committed_so_far(
    local_shards: Seq<u64>,
    remote_shards: Seq<(Seq<char>, u64)>,
    single: bool,
    outcomes: Seq<Came>,
    n: int,
)
    requires
        0 <= n <= outcomes.len(),
    ensures
        committed_so_far(begun(local_shards, remote_shards, single), outcomes, n),
    decreases n,
{
    let c = begun(local_shards, remote_shards, single);
    lemma_after(c, outcomes, n);
    if n > 0 {
        lemma_committed_so_far(local_shards, remote_shards, single, outcomes, n - 1);
        lemma_prepared_so_far(local_shards, remote_shards, single, outcomes, n - 1);
        lemma_stays_committed(c, outcomes, n);
        let was = after(c, outcomes, n - 1);
        lemma_step(c, outcomes, n, was, outcomes[n - 1]);
    }
}

/// What one step adds to what has been committed.
proof fn lemma_step(c: Commit, outcomes: Seq<Came>, n: int, was: Commit, o: Came)
    requires
        n > 0,
        was == after(c, outcomes, n - 1),
        o == outcomes[n - 1],
        after(c, outcomes, n) == next(was, o),
        committed_so_far(c, outcomes, n - 1),
        prepared_so_far(c, outcomes, n - 1),
        forall|i: int|
            committed_here(c, outcomes, n - 1, i) ==> #[trigger] committed_here(c, outcomes, n, i),
        forall|i: int|
            committed_there(c, outcomes, n - 1, i) ==> #[trigger] committed_there(
                c,
                outcomes,
                n,
                i,
            ),
        commit_recorded(c, outcomes, n - 1) ==> commit_recorded(c, outcomes, n),
        o is Done ==> match was.stage {
            Stage::RecordCommit => commit_recorded(c, outcomes, n),
            Stage::CommitLocal(j) => committed_here(c, outcomes, n, j as int),
            Stage::CommitRemote(j) => committed_there(c, outcomes, n, j as int),
            _ => true,
        },
    ensures
        committed_so_far(c, outcomes, n),
{
}

/// A commit that ended well was carried out on every shard: each shard of this server and of
/// others has prepared its writes, the decision was recorded where anybody takes part, and each
/// shard was told to commit and did. Nothing less ends well.
pub proof fn commits_end_well_when_every_shard_has_committed(
    local_shards: Seq<u64>,
    remote_shards: Seq<(Seq<char>, u64)>,
    single: bool,
    outcomes: Seq<Came>,
)
    requires
        run(begun(local_shards, remote_shards, single), outcomes).stage is Committed || run(
            begun(local_shards, remote_shards, single),
            outcomes,
        ).stage is Clear,
    ensures
        ({
            let c = begun(local_shards, remote_shards, single);
            let n = outcomes.len() as int;
            let end = run(c, outcomes);
            &&& forall|i: int|
                0 <= i < local_shards.len() ==> #[trigger] committed_here(c, outcomes, n, i)
            &&& forall|i: int|
                0 <= i < remote_shards.len() ==> #[trigger] committed_there(c, outcomes, n, i)
            &&& local_shards.len() + remote_shards.len() > 0 ==> commit_recorded(c, outcomes, n)
            &&& end.locals.len() == local_shards.len() && end.remotes.len() == remote_shards.len()
        }),
{
    let c = begun(local_shards, remote_shards, single);
    let n = outcomes.len() as int;
    lemma_prepared_so_far(local_shards, remote_shards, single, outcomes, n);
    lemma_committed_so_far(local_shards, remote_shards, single, outcomes, n);
    lemma_after(c, outcomes, n);
}

/// What a commit holds as prepared was prepared: by that shard, under that number, and at that
/// address; and no shard is told to commit before each has prepared and the decision is recorded.
pub proof fn prepared_writes_are_those_that_were_prepared(
    local_shards: Seq<u64>,
    remote_shards: Seq<(Seq<char>, u64)>,
    single: bool,
    outcomes: Seq<Came>,
)
    ensures
        ({
            let c = begun(local_shards, remote_shards, single);
            let n = outcomes.len() as int;
            let now = run(c, outcomes);
            &&& forall|i: int|
                0 <= i < now.locals.len() ==> (#[trigger] now.locals[i]).shard_id
                    == local_shards[i] && prepared_here(
                    c,
                    outcomes,
                    n,
                    now.locals[i].shard_id,
                    now.locals[i].prepared_id,
                )
            &&& forall|i: int|
                0 <= i < now.remotes.len() ==> ((
                #[trigger] now.remotes[i]).address, now.remotes[i].shard_id) == remote_shards[i]
                    && prepared_there(
                    c,
                    outcomes,
                    n,
                    now.remotes[i].address,
                    now.remotes[i].shard_id,
                    now.remotes[i].prepared_id,
                )
            &&& now.stage is CommitLocal || now.stage is CommitRemote ==> commit_recorded(
                c,
                outcomes,
                n,
            ) && now.locals.len() == local_shards.len() && now.remotes.len()
                == remote_shards.len()
        }),
{
    let c = begun(local_shards, remote_shards, single);
    let n = outcomes.len() as int;
    lemma_prepared_so_far(local_shards, remote_shards, single, outcomes, n);
    lemma_committed_so_far(local_shards, remote_shards, single, outcomes, n);
    lemma_after(c, outcomes, n);
}

/// Whether an outcome is what a commit waits for.
pub open spec fn as_hoped(c: Commit, o: Came) -> bool {
    if c.stage is PrepareLocal || c.stage is PrepareRemote {
        o is Prepared
    } else {
        o is Done
    }
}

/// Whether a commit goes towards its good end.
pub open spec fn goes_well(c: Commit) -> bool {
    !(c.stage is RecordAbort) && !(c.stage is GiveUp) && !(c.stage is Failed)
}

/// How many things are left to do in a commit that goes well.
pub open spec fn left_to_do(c: Commit) -> int {
    let shards: int = c.local_shards.len() + c.remote_shards.len() as int;
    match c.stage {
        Stage::PrepareLocal | Stage::PrepareRemote => 2 * shards - c.locals.len() - c.remotes.len()
            + 2,
        Stage::RecordCommit => shards + 2,
        Stage::CommitLocal(i) => shards - i + 1,
        Stage::CommitRemote(i) => c.remote_shards.len() - i + 1,
        Stage::Clear => 1,
        _ => 0,
    }
}

/// A commit in which everything comes as hoped goes on towards its good end, by one step at a
/// time: nothing but a bad outcome ends it badly, and it does not wait for more than there is to
/// do.
pub proof fn commits_end_badly_only_by_a_bad_outcome(
    local_shards: Seq<u64>,
    remote_shards: Seq<(Seq<char>, u64)>,
    single: bool,
    outcomes: Seq<Came>,
    o: Came,
)
    requires
        goes_well(run(begun(local_shards, remote_shards, single), outcomes)),
        as_hoped(run(begun(local_shards, remote_shards, single), outcomes), o),
    ensures
        ({
            let now = run(begun(local_shards, remote_shards, single), outcomes);
            &&& goes_well(next(now, o))
            &&& !(now.stage is Committed) ==> left_to_do(next(now, o)) == left_to_do(now) - 1
            &&& now.stage is Committed ==> next(now, o) == now
        }),
{
    let c = begun(local_shards, remote_shards, single);
    let n = outcomes.len() as int;
    lemma_prepared_so_far(local_shards, remote_shards, single, outcomes, n);
    lemma_committed_so_far(local_shards, remote_shards, single, outcomes, n);
    lemma_after(c, outcomes, n);
}

/// What a commit tells when it ends badly is what went wrong: a decision that could not be
/// recorded and a shard of this server that did not commit are told as they are, and so is a
/// server that could not be reached; once a decision to abort is recorded, the reason why it was
/// taken is told in the end.
pub proof fn bad_ends_tell_what_went_wrong(c: Commit, e: Seq<char>)
    ensures
        c.stage is RecordCommit || c.stage is CommitLocal || c.stage is RecordAbort ==> next(
            c,
            Came::Refused(e),
        ).stage == Stage::Failed(e),
        c.stage is PrepareRemote ==> next(c, Came::Unreachable(e)).stage == Stage::Failed(e),
        c.stage is CommitRemote && c.single ==> next(c, Came::Refused(e)).stage == Stage::Failed(e),
        c.stage is CommitRemote ==> (next(c, Came::Refused(e)).stage matches Stage::Failed(why)
            && why.len() >= e.len() && why.skip(why.len() - e.len()) == e),
        c.stage matches Stage::GiveUp(why) ==> next(c, Came::Done).stage == Stage::Failed(why),
{
    if let Stage::CommitRemote(i) = c.stage {
        let why = next(c, Came::Refused(e)).stage->Failed_0;
        assert(why.skip(why.len() - e.len()) =~= e);
    }
}

/// A decision that is carried out late for a participant counts as carried out where it was, and
/// where the participant has nothing prepared any more; giving up writes of this server always
/// does. Any other error is handed on.
pub proof fn late_decisions_hand_other_errors_on(act: Act, e: Seq<char>)
    ensures
        late_outcome(act, Ok(())) is Ok,
        act is AbortHere ==> late_outcome(act, Err(e)) is Ok,
        holds(e, "unknown prepared transaction"@) ==> late_outcome(act, Err(e)) is Ok,
        !(act is AbortHere) && !holds(e, "unknown prepared transaction"@) ==> late_outcome(
            act,
            Err(e),
        ) == Err::<(), Seq<char>>(e),
{
}

} // verus!
