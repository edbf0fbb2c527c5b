//! Which shards a replica catches up with, and from where on.

use vstd::prelude::*;

use crate::laws::targets::primaries_have_the_role;
use crate::model::{primary_of, ShardPlacement};
use crate::replication::{
    caught_up_from, end_of, next_to_catch_up, shards_followed, shards_led, start_of, to_catch_up,
    CatchUpPlanEntry, CatchUpResult, CatchUpRun,
};
use crate::routing::names_server;

verus! {

/// Whether a server has a copy of a shard.
pub open spec fn has_copy(p: ShardPlacement, server_id: u64) -> bool {
    exists|k: int| 0 <= k < p.replicas@.len() && (#[trigger] p.replicas@[k]).server_id == server_id
}

/// Whether the first primary of a shard is the replica at a place.
pub open spec fn leads_at(p: ShardPlacement, k: int) -> bool {
    &&& 0 <= k < p.replicas@.len()
    &&& p.replicas@[k].role is Primary
    &&& forall|j: int| 0 <= j < k ==> !((#[trigger] p.replicas@[j]).role is Primary)
}

/// Whether a server leads a shard.
pub open spec fn leads(p: ShardPlacement, server_id: u64) -> bool {
    exists|k: int| #[trigger] leads_at(p, k) && p.replicas@[k].server_id == server_id
}

/// Whether a server has a copy of a shard that another one leads.
pub open spec fn follows(p: ShardPlacement, local: u64, leader: u64) -> bool {
    has_copy(p, local) && leads(p, leader) && leader != local
}

proof fn lemma_leads(p: ShardPlacement, server_id: u64)
    ensures
        leads(p, server_id) <==> primary_of(p.replicas@) == Some(server_id),
        has_copy(p, server_id) <==> names_server(p.replicas@, server_id),
{
    primaries_have_the_role(p.replicas@);
    match primary_of(p.replicas@) {
        Some(q) => {
            let k = choose|k: int|
                0 <= k < p.replicas@.len() && (#[trigger] p.replicas@[k]).role is Primary
                    && p.replicas@[k].server_id == q && forall|j: int|
                    0 <= j < k ==> !((#[trigger] p.replicas@[j]).role is Primary);
            assert(leads_at(p, k));
            if leads(p, server_id) {
                let m = choose|m: int|
                    #[trigger] leads_at(p, m) && p.replicas@[m].server_id == server_id;
                assert(p.replicas@[m].role is Primary);
                assert(p.replicas@[k].role is Primary);
                assert(m == k);
            }
        },
        None => {
            if leads(p, server_id) {
                let m = choose|m: int|
                    #[trigger] leads_at(p, m) && p.replicas@[m].server_id == server_id;
                assert(p.replicas@[m].role is Primary);
            }
        },
    }
}

/// A shard that this server has a copy of and another one leads is caught up with from that
/// one, whatever its number: from behind what is committed of it here, and not at all only where
/// it is not known what is. No other shard is caught up with.
pub proof fn followed_shards_are_caught_up_with(
    p: ShardPlacement,
    local: u64,
    committed: Seq<u64>,
    server_id: u64,
)
    requires
        forall|i: int| 0 <= i < committed.len() ==> #[trigger] committed[i] < u64::MAX,
    ensures
        follows(p, local, server_id) && p.shard_id < committed.len() ==> caught_up_from(
            p,
            local,
            committed,
            server_id,
        ) == Ok::<Option<u64>, Seq<char>>(Some((committed[p.shard_id as int] + 1) as u64)),
        follows(p, local, server_id) && p.shard_id >= committed.len() ==> caught_up_from(
            p,
            local,
            committed,
            server_id,
        ) is Err,
        !follows(p, local, server_id) ==> caught_up_from(p, local, committed, server_id) == Ok::<
            Option<u64>,
            Seq<char>,
        >(None),
{
    lemma_leads(p, server_id);
    lemma_leads(p, local);
}

/// What comes next of the shards that were not looked at is the first of them that has to be
/// caught up with, and nothing only where there is none.
pub proof fn next_shard_is_the_first_that_is_followed(
    placements: Seq<ShardPlacement>,
    i: int,
    local: u64,
    committed: Seq<u64>,
    server_id: u64,
)
    requires
        0 <= i <= placements.len(),
        forall|j: int| 0 <= j < committed.len() ==> #[trigger] committed[j] < u64::MAX,
    ensures
        match next_to_catch_up(placements, i, local, committed, server_id) {
            Ok(None) => forall|q: int|
                i <= q < placements.len() ==> !follows(#[trigger] placements[q], local, server_id),
            Ok(Some((k, start))) => i <= k < placements.len() && follows(
                placements[k],
                local,
                server_id,
            ) && placements[k].shard_id < committed.len() && start
                == committed[placements[k].shard_id as int] + 1 && forall|q: int|
                i <= q < k ==> !follows(#[trigger] placements[q], local, server_id),
            Err(_) => exists|k: int|
                i <= k < placements.len() && follows(#[trigger] placements[k], local, server_id)
                    && placements[k].shard_id >= committed.len(),
        },
    decreases placements.len() - i,
{
    if i < placements.len() {
        followed_shards_are_caught_up_with(placements[i], local, committed, server_id);
        if caught_up_from(placements[i], local, committed, server_id) == Ok::<
            Option<u64>,
            Seq<char>,
        >(None) {
            assert(!follows(placements[i], local, server_id));
            next_shard_is_the_first_that_is_followed(
                placements,
                i + 1,
                local,
                committed,
                server_id,
            );
        } else if caught_up_from(placements[i], local, committed, server_id) is Err {
            assert(follows(placements[i], local, server_id));
        }
    }
}

/// Whether one shard was caught up with: it was found next, and entries of it were fetched.
pub open spec fn caught_one(before: CatchUpRun, after: CatchUpRun, count: usize) -> bool {
    &&& after.goes_on(&before)
    &&& match next_to_catch_up(
        before.placements@,
        before.seen as int,
        before.local_server_id,
        before.committed_indexes@,
        before.server_id,
    ) {
        Ok(Some((i, start))) => {
            &&& after.seen == i + 1
            &&& after.results@ == before.results@.push(
                CatchUpResult {
                    shard_id: before.placements@[i].shard_id,
                    primary_server_id: before.server_id,
                    start_index: start,
                    end_index: end_of(start, count) as u64,
                    fetched_entries: count,
                },
            )
        },
        _ => false,
    }
}

/// Whether a run has gone through these states, from its beginning to its end without an error.
pub open spec fn whole_run(states: Seq<CatchUpRun>, counts: Seq<usize>) -> bool {
    &&& states.len() == counts.len() + 1
    &&& states[0].seen == 0
    &&& states[0].results@.len() == 0
    &&& forall|i: int|
        0 <= i < counts.len() ==> #[trigger] caught_one(states[i], states[i + 1], counts[i])
    &&& forall|i: int| 0 <= i < states.len() ==> (#[trigger] states[i]).well_formed()
    &&& next_to_catch_up(
        states.last().placements@,
        states.last().seen as int,
        states.last().local_server_id,
        states.last().committed_indexes@,
        states.last().server_id,
    ) == Ok::<Option<(int, u64)>, Seq<char>>(None)
}

/// Whether there is a result for a shard: from behind what was committed, from its primary.
pub open spec fn has_result(run: CatchUpRun, shard_id: u64) -> bool {
    exists|j: int|
        0 <= j < run.results@.len() && (#[trigger] run.results@[j]).shard_id == shard_id
            && run.results@[j].primary_server_id == run.server_id && shard_id
            < run.committed_indexes@.len() && run.results@[j].start_index
            == run.committed_indexes@[shard_id as int] + 1
}

/// Whether a shard is one of those that were looked at and have to be caught up with.
pub open spec fn among_followed(run: CatchUpRun, n: int, shard_id: u64) -> bool {
    exists|q: int|
        0 <= q < n && (#[trigger] run.placements@[q]).shard_id == shard_id && follows(
            run.placements@[q],
            run.local_server_id,
            run.server_id,
        )
}

/// What holds in the middle of a run.
spec fn run_so_far(run: CatchUpRun) -> bool {
    &&& run.well_formed()
    &&& forall|q: int|
        0 <= q < run.seen && follows(
            #[trigger] run.placements@[q],
            run.local_server_id,
            run.server_id,
        ) ==> has_result(run, run.placements@[q].shard_id)
    &&& forall|j: int|
        0 <= j < run.results@.len() ==> among_followed(
            run,
            run.seen as int,
            (#[trigger] run.results@[j]).shard_id,
        )
}

proof fn lemma_run_so_far(states: Seq<CatchUpRun>, counts: Seq<usize>, n: int)
    requires
        whole_run(states, counts),
        0 <= n < states.len(),
    ensures
        run_so_far(states[n]),
        states[n].goes_on(&states[0]),
    decreases n,
{
    assert(states[n].well_formed());
    if n > 0 {
        lemma_run_so_far(states, counts, n - 1);
        let a = states[n - 1];
        let b = states[n];
        assert(caught_one(states[n - 1], states[n - 1 + 1], counts[n - 1]));
        next_shard_is_the_first_that_is_followed(
            a.placements@,
            a.seen as int,
            a.local_server_id,
            a.committed_indexes@,
            a.server_id,
        );
        let found = next_to_catch_up(
            a.placements@,
            a.seen as int,
            a.local_server_id,
            a.committed_indexes@,
            a.server_id,
        )->Ok_0->Some_0;
        let last = b.results@.len() - 1;
        assert(b.results@[last].shard_id == a.placements@[found.0].shard_id);
        assert(has_result(b, a.placements@[found.0].shard_id));
        assert forall|q: int|
            0 <= q < b.seen && follows(
                #[trigger] b.placements@[q],
                b.local_server_id,
                b.server_id,
            ) implies has_result(b, b.placements@[q].shard_id) by {
            if q < a.seen {
                assert(has_result(a, a.placements@[q].shard_id));
                let shard_id = a.placements@[q].shard_id;
                let j = choose|j: int|
                    0 <= j < a.results@.len() && (#[trigger] a.results@[j]).shard_id == shard_id
                        && a.results@[j].primary_server_id == a.server_id && shard_id
                        < a.committed_indexes@.len() && a.results@[j].start_index
                        == a.committed_indexes@[shard_id as int] + 1;
                assert(b.results@[j] == a.results@[j]);
            } else {
                assert(q == found.0);
            }
        }
        assert forall|j: int| 0 <= j < b.results@.len() implies among_followed(
            b,
            b.seen as int,
            (#[trigger] b.results@[j]).shard_id,
        ) by {
            if j < last {
                assert(b.results@[j] == a.results@[j]);
                let shard_id = a.results@[j].shard_id;
                assert(among_followed(a, a.seen as int, shard_id));
                let q = choose|q: int|
                    0 <= q < a.seen && (#[trigger] a.placements@[q]).shard_id == shard_id
                        && follows(a.placements@[q], a.local_server_id, a.server_id);
                assert(b.placements@[q].shard_id == shard_id);
            } else {
                assert(b.placements@[found.0].shard_id == b.results@[j].shard_id);
            }
        }
    }
}

/// A run that ends without an error has a result for every shard that this server has a copy of
/// and the other one leads, from behind what was committed of it here; and for no other shard.
pub proof fn whole_runs_catch_up_with_every_followed_shard(
    states: Seq<CatchUpRun>,
    counts: Seq<usize>,
)
    requires
        whole_run(states, counts),
    ensures
        ({
            let first = states[0];
            let last = states.last();
            &&& forall|q: int|
                0 <= q < first.placements@.len() && follows(
                    #[trigger] first.placements@[q],
                    first.local_server_id,
                    first.server_id,
                ) ==> has_result(last, first.placements@[q].shard_id)
            &&& forall|j: int|
                0 <= j < last.results@.len() ==> among_followed(
                    first,
                    first.placements@.len() as int,
                    (#[trigger] last.results@[j]).shard_id,
                )
        }),
{
    let first = states[0];
    let last = states.last();
    let n = states.len() - 1;
    lemma_run_so_far(states, counts, n);
    next_shard_is_the_first_that_is_followed(
        last.placements@,
        last.seen as int,
        last.local_server_id,
        last.committed_indexes@,
        last.server_id,
    );
    assert forall|q: int|
        0 <= q < first.placements@.len() && follows(
            #[trigger] first.placements@[q],
            first.local_server_id,
            first.server_id,
        ) implies has_result(last, first.placements@[q].shard_id) by {
        assert(follows(last.placements@[q], last.local_server_id, last.server_id));
    }
    assert forall|j: int| 0 <= j < last.results@.len() implies among_followed(
        first,
        first.placements@.len() as int,
        (#[trigger] last.results@[j]).shard_id,
    ) by {
        let shard_id = last.results@[j].shard_id;
        assert(among_followed(last, last.seen as int, shard_id));
        let q = choose|q: int|
            0 <= q < last.seen && (#[trigger] last.placements@[q]).shard_id == shard_id && follows(
                last.placements@[q],
                last.local_server_id,
                last.server_id,
            );
        assert(first.placements@[q].shard_id == shard_id);
    }
}

/// The last entry that was fetched stands as far behind the one before the first as entries
/// were fetched.
pub proof fn fetched_entries_end_where_they_end(start_index: u64, fetched: usize)
    requires
        0 < start_index,
        start_index + fetched <= u64::MAX,
    ensures
        end_of(start_index, fetched) - (start_index - 1) == fetched,
{
}

/// Whether a plan is asked for a shard that another server leads: it is where no server is named,
/// or that one.
pub open spec fn asked_for(asked: Option<u64>, leader: u64) -> bool {
    asked is None || asked == Some(leader)
}

/// Whether an entry of a plan tells how to catch up with a shard.
pub open spec fn entry_for(
    e: CatchUpPlanEntry,
    p: ShardPlacement,
    local: u64,
    peers: Map<u64, Seq<char>>,
    committed: Seq<u64>,
    asked: Option<u64>,
) -> bool {
    &&& e.shard_id == p.shard_id
    &&& follows(p, local, e.primary_server_id)
    &&& asked_for(asked, e.primary_server_id)
    &&& p.shard_id < committed.len()
    &&& e.start_index == committed[p.shard_id as int] + 1
    &&& e.peer_registered == peers.dom().contains(e.primary_server_id)
}

/// Whether the entries of a plan are those of the placements at some places, which are all that
/// have to be caught up with among the first ones, in their order.
pub open spec fn planned_at(
    places: Seq<int>,
    found: Seq<CatchUpPlanEntry>,
    placements: Seq<ShardPlacement>,
    n: int,
    local: u64,
    peers: Map<u64, Seq<char>>,
    committed: Seq<u64>,
    asked: Option<u64>,
) -> bool {
    &&& places.len() == found.len()
    &&& forall|j: int| 0 <= j < places.len() ==> 0 <= #[trigger] places[j] < n
    &&& forall|i: int, j: int| 0 <= i < j < places.len() ==> #[trigger] places[i] < #[trigger] places[j]
    &&& forall|j: int|
        0 <= j < found.len() ==> entry_for(
            #[trigger] found[j],
            placements[places[j]],
            local,
            peers,
            committed,
            asked,
        )
    &&& forall|q: int, leader: u64|
        0 <= q < n && #[trigger] follows(placements[q], local, leader) && asked_for(asked, leader)
            ==> places.contains(q)
}

proof fn lemma_planned(
    placements: Seq<ShardPlacement>,
    local: u64,
    peers: Map<u64, Seq<char>>,
    committed: Seq<u64>,
    asked: Option<u64>,
    i: int,
    found: Seq<CatchUpPlanEntry>,
    places: Seq<int>,
) -> (all: Seq<int>)
    requires
        0 <= i <= placements.len(),
        forall|j: int| 0 <= j < committed.len() ==> #[trigger] committed[j] < u64::MAX,
        planned_at(places, found, placements, i, local, peers, committed, asked),
        to_catch_up(placements, local, peers, committed, asked, i, found) is Ok,
    ensures
        planned_at(
            all,
            to_catch_up(placements, local, peers, committed, asked, i, found)->Ok_0,
            placements,
            placements.len() as int,
            local,
            peers,
            committed,
            asked,
        ),
    decreases placements.len() - i,
{
    if i >= placements.len() {
        places
    } else {
        let p = placements[i];
        lemma_leads(p, local);
        assert forall|leader: u64| #[trigger] follows(p, local, leader) implies primary_of(
            p.replicas@,
        ) == Some(leader) by {
            lemma_leads(p, leader);
        }
        let primary = primary_of(p.replicas@);
        if !names_server(p.replicas@, local) || (asked is Some && asked != primary) || primary
            == Some(local) {
            assert forall|q: int, leader: u64|
                0 <= q < i + 1 && #[trigger] follows(placements[q], local, leader) && asked_for(
                    asked,
                    leader,
                ) implies places.contains(q) by {
                if q == i {
                    lemma_leads(p, leader);
                }
            }
            lemma_planned(placements, local, peers, committed, asked, i + 1, found, places)
        } else {
            lemma_leads(p, primary.unwrap());
            let e = CatchUpPlanEntry {
                shard_id: p.shard_id,
                primary_server_id: primary.unwrap(),
                start_index: start_of(committed, p.shard_id)->Ok_0,
                peer_registered: peers.dom().contains(primary.unwrap()),
            };
            let more = places.push(i);
            let longer = found.push(e);
            assert forall|q: int, leader: u64|
                0 <= q < i + 1 && #[trigger] follows(placements[q], local, leader) && asked_for(
                    asked,
                    leader,
                ) implies more.contains(q) by {
                if q == i {
                    assert(more[more.len() - 1] == i);
                } else {
                    assert(places.contains(q));
                    let k = choose|k: int| 0 <= k < places.len() && places[k] == q;
                    assert(more[k] == q);
                }
            }
            assert forall|j: int| 0 <= j < longer.len() implies entry_for(
                #[trigger] longer[j],
                placements[more[j]],
                local,
                peers,
                committed,
                asked,
            ) by {
                if j < found.len() {
                    assert(longer[j] == found[j]);
                    assert(more[j] == places[j]);
                }
            }
            assert(planned_at(more, longer, placements, i + 1, local, peers, committed, asked));
            lemma_planned(placements, local, peers, committed, asked, i + 1, longer, more)
        }
    }
}

/// A plan has one entry for each shard that this server has a copy of and another one leads, if
/// that one is asked for, in the order of the placements: from behind what is committed, and
/// telling whether the address of the primary is known. It has no other entries.
pub proof fn plans_name_every_followed_shard(
    placements: Seq<ShardPlacement>,
    local: u64,
    peers: Map<u64, Seq<char>>,
    committed: Seq<u64>,
    asked: Option<u64>,
) -> (places: Seq<int>)
    requires
        forall|j: int| 0 <= j < committed.len() ==> #[trigger] committed[j] < u64::MAX,
        to_catch_up(placements, local, peers, committed, asked, 0, Seq::empty()) is Ok,
    ensures
        planned_at(
            places,
            to_catch_up(placements, local, peers, committed, asked, 0, Seq::empty())->Ok_0,
            placements,
            placements.len() as int,
            local,
            peers,
            committed,
            asked,
        ),
{
    lemma_planned(placements, local, peers, committed, asked, 0, Seq::empty(), Seq::empty())
}

/// Whether nothing keeps a shard from being planned for: it is not followed, or it has a primary
/// and it is known what is committed of it.
pub open spec fn can_be_planned(
    p: ShardPlacement,
    local: u64,
    committed: Seq<u64>,
    asked: Option<u64>,
) -> bool {
    has_copy(p, local) ==> (exists|k: int| #[trigger] leads_at(p, k)) && forall|leader: u64|
        #[trigger] follows(p, local, leader) && asked_for(asked, leader) ==> p.shard_id
            < committed.len()
}

proof fn lemma_plannable(
    placements: Seq<ShardPlacement>,
    local: u64,
    peers: Map<u64, Seq<char>>,
    committed: Seq<u64>,
    asked: Option<u64>,
    i: int,
    found: Seq<CatchUpPlanEntry>,
)
    requires
        0 <= i <= placements.len(),
    ensures
        to_catch_up(placements, local, peers, committed, asked, i, found) is Ok <==> forall|q: int|
            i <= q < placements.len() ==> can_be_planned(
                #[trigger] placements[q],
                local,
                committed,
                asked,
            ),
    decreases placements.len() - i,
{
    if i < placements.len() {
        let p = placements[i];
        lemma_leads(p, local);
        primaries_have_the_role(p.replicas@);
        assert forall|leader: u64| #[trigger] follows(p, local, leader) implies primary_of(
            p.replicas@,
        ) == Some(leader) by {
            lemma_leads(p, leader);
        }
        match primary_of(p.replicas@) {
            Some(n) => {
                lemma_leads(p, n);
                assert(leads(p, n));
                let k = choose|k: int| #[trigger] leads_at(p, k) && p.replicas@[k].server_id == n;
                assert(leads_at(p, k));
                let e = CatchUpPlanEntry {
                    shard_id: p.shard_id,
                    primary_server_id: n,
                    start_index: start_of(committed, p.shard_id)->Ok_0,
                    peer_registered: peers.dom().contains(n),
                };
                if names_server(p.replicas@, local) && n != local && asked_for(asked, n) {
                    assert(follows(p, local, n));
                    lemma_plannable(
                        placements,
                        local,
                        peers,
                        committed,
                        asked,
                        i + 1,
                        found.push(e),
                    );
                    if p.shard_id < committed.len() {
                        assert(can_be_planned(p, local, committed, asked));
                    } else {
                        assert(!can_be_planned(placements[i], local, committed, asked));
                    }
                } else {
                    lemma_plannable(placements, local, peers, committed, asked, i + 1, found);
                    assert(can_be_planned(p, local, committed, asked));
                }
            },
            None => {
                assert forall|k: int| !#[trigger] leads_at(p, k) by {
                    if leads_at(p, k) {
                        assert(p.replicas@[k].role is Primary);
                    }
                }
                lemma_plannable(placements, local, peers, committed, asked, i + 1, found);
                if names_server(p.replicas@, local) {
                    assert(!can_be_planned(placements[i], local, committed, asked));
                } else {
                    assert(can_be_planned(p, local, committed, asked));
                }
            },
        }
    }
}

/// A plan can be made exactly where each shard that this server has a copy of has a primary, and
/// it is known of each that has to be caught up with what is committed.
pub proof fn plans_fail_only_where_something_is_missing(
    placements: Seq<ShardPlacement>,
    local: u64,
    peers: Map<u64, Seq<char>>,
    committed: Seq<u64>,
    asked: Option<u64>,
)
    ensures
        to_catch_up(placements, local, peers, committed, asked, 0, Seq::empty()) is Ok
            <==> forall|q: int|
            0 <= q < placements.len() ==> can_be_planned(
                #[trigger] placements[q],
                local,
                committed,
                asked,
            ),
{
    lemma_plannable(placements, local, peers, committed, asked, 0, Seq::empty());
}

/// What is told of a server's shards is right and whole: it leads those of which it is the
/// primary, and follows those of which it has a copy without leading them.
pub proof fn told_shards_are_those_of_the_server(
    placements: Seq<ShardPlacement>,
    server_id: u64,
    shard_id: u64,
)
    ensures
        shards_led(placements, server_id).contains(shard_id) <==> exists|q: int|
            0 <= q < placements.len() && (#[trigger] placements[q]).shard_id == shard_id && leads(
                placements[q],
                server_id,
            ),
        shards_followed(placements, server_id).contains(shard_id) <==> exists|q: int|
            0 <= q < placements.len() && (#[trigger] placements[q]).shard_id == shard_id
                && has_copy(placements[q], server_id) && !leads(placements[q], server_id),
    decreases placements.len(),
{
    if placements.len() > 0 {
        let front = placements.drop_last();
        let p = placements.last();
        told_shards_are_those_of_the_server(front, server_id, shard_id);
        lemma_leads(p, server_id);
        lemma_contains_push(shards_led(front, server_id), p.shard_id, shard_id);
        lemma_contains_push(shards_followed(front, server_id), p.shard_id, shard_id);
        assert(placements[placements.len() - 1] == p);
        if exists|q: int|
            0 <= q < front.len() && (#[trigger] front[q]).shard_id == shard_id && leads(
                front[q],
                server_id,
            ) {
            let q = choose|q: int|
                0 <= q < front.len() && (#[trigger] front[q]).shard_id == shard_id && leads(
                    front[q],
                    server_id,
                );
            assert(placements[q] == front[q]);
        }
        if exists|q: int|
            0 <= q < front.len() && (#[trigger] front[q]).shard_id == shard_id && has_copy(
                front[q],
                server_id,
            ) && !leads(front[q], server_id) {
            let q = choose|q: int|
                0 <= q < front.len() && (#[trigger] front[q]).shard_id == shard_id && has_copy(
                    front[q],
                    server_id,
                ) && !leads(front[q], server_id);
            assert(placements[q] == front[q]);
        }
        if exists|q: int|
            0 <= q < placements.len() && (#[trigger] placements[q]).shard_id == shard_id && leads(
                placements[q],
                server_id,
            ) {
            let q = choose|q: int|
                0 <= q < placements.len() && (#[trigger] placements[q]).shard_id == shard_id
                    && leads(placements[q], server_id);
            if q < front.len() {
                assert(placements[q] == front[q]);
            }
        }
        if exists|q: int|
            0 <= q < placements.len() && (#[trigger] placements[q]).shard_id == shard_id
                && has_copy(placements[q], server_id) && !leads(placements[q], server_id) {
            let q = choose|q: int|
                0 <= q < placements.len() && (#[trigger] placements[q]).shard_id == shard_id
                    && has_copy(placements[q], server_id) && !leads(placements[q], server_id);
            if q < front.len() {
                assert(placements[q] == front[q]);
            }
        }
    }
}

proof fn lemma_contains_push(s: Seq<u64>, x: u64, y: u64)
    ensures
        s.push(x).contains(y) <==> s.contains(y) || x == y,
{
    if s.contains(y) {
        let k = choose|k: int| 0 <= k < s.len() && s[k] == y;
        assert(s.push(x)[k] == y);
    }
    if x == y {
        assert(s.push(x)[s.len() as int] == y);
    }
    if s.push(x).contains(y) && x != y {
        let k = choose|k: int| 0 <= k < s.push(x).len() && s.push(x)[k] == y;
        assert(s[k] == y);
    }
}

} // verus!
