//! What a commit does with the writes of a transaction: each of them reaches every shard that it
//! targets, and no other.

use vstd::prelude::*;

use crate::cluster::{primary_address, shard_of, target_list, write_shards, ShardStatus};
use crate::commit::{
    all_local, all_mutate, by_shard, closed_plan, commit_targets, first_missing, not_one_shard,
    parted, plan_of, spread, under, Away, CommitFacts, Plan, WriteFacts,
};
use crate::cypher::{is_delete, is_mutation, is_set};
use crate::table::{as_map, ascending, lemma_as_map, lemma_sorted, sorted};
use crate::transactions::{Txn, Write};
use crate::wire::node_hash;

verus! {

/// How often something stands in a list.
pub open spec fn times<A>(s: Seq<A>, x: A) -> nat
    decreases s.len(),
{
    if s.len() == 0 {
        0
    } else {
        times(s.drop_last(), x) + (if s.last() == x {
            1nat
        } else {
            0nat
        })
    }
}

/// What stands in a list stands there at least once.
pub proof fn lemma_times<A>(s: Seq<A>, x: A)
    ensures
        s.contains(x) <==> times(s, x) > 0,
    decreases s.len(),
{
    if s.len() > 0 {
        let front = s.drop_last();
        lemma_times(front, x);
        if front.contains(x) {
            let k = choose|k: int| 0 <= k < front.len() && front[k] == x;
            assert(s[k] == x);
        }
        if s.contains(x) && s.last() != x {
            let k = choose|k: int| 0 <= k < s.len() && s[k] == x;
            assert(front[k] == x);
        }
        if s.last() == x {
            assert(s[s.len() - 1] == x);
        }
    }
}

proof fn lemma_times_push<A>(s: Seq<A>, y: A, x: A)
    ensures
        times(s.push(y), x) == times(s, x) + (if x == y {
            1nat
        } else {
            0nat
        }),
{
    assert(s.push(y).drop_last() =~= s);
}

/// The shards that a write targets, or why they cannot be told.
pub open spec fn targets_of(write: Write, facts: WriteFacts, shards: Seq<ShardStatus>) -> Result<
    Seq<u64>,
    Seq<char>,
> {
    write_shards(
        shards,
        write.query,
        node_hash(facts.key, write.query, write.params),
        target_list(facts.targets),
    )
}

/// Whether a write can be put under its shards: it targets one, or it is of a kind that may
/// target several, or targets none and changes data.
pub open spec fn can_be_placed(write: Write, facts: WriteFacts, shards: Seq<ShardStatus>) -> bool {
    targets_of(write, facts, shards) matches Ok(targets) && (targets.len() == 1 || is_set(
        write.query,
    ) || is_delete(write.query) || (targets.len() == 0 && is_mutation(write.query)))
}

/// Whether the first writes stand under their shards: each under every shard that it targets, as
/// often as it targets it, and under no other, in the order of the writes.
pub open spec fn placed(
    m: Map<u64, Seq<usize>>,
    writes: Seq<Write>,
    facts: Seq<WriteFacts>,
    shards: Seq<ShardStatus>,
    n: int,
) -> bool {
    &&& forall|i: int, s: u64|
        0 <= i < n ==> #[trigger] times(under(m, s), i as usize) == times(
            targets_of(writes[i], facts[i], shards)->Ok_0,
            s,
        )
    &&& forall|s: u64, k: int|
        0 <= k < under(m, s).len() ==> 0 <= #[trigger] under(m, s)[k] < n
    &&& forall|s: u64, j: int, k: int|
        0 <= j < k < under(m, s).len() ==> #[trigger] under(m, s)[j] <= #[trigger] under(m, s)[k]
    &&& forall|s: u64| #[trigger] m.dom().contains(s) ==> under(m, s).len() > 0
}

/// A map whose entries can be listed in ascending order.
pub open spec fn listed<V>(m: Map<u64, V>) -> bool {
    exists|s: Seq<(u64, V)>| ascending(s) && #[trigger] as_map(s) == m
}

proof fn lemma_list_with<V>(s: Seq<(u64, V)>, k: u64, v: V) -> (t: Seq<(u64, V)>)
    requires
        ascending(s),
    ensures
        ascending(t),
        as_map(t) == as_map(s).insert(k, v),
    decreases s.len(),
{
    if s.len() == 0 {
        let t = seq![(k, v)];
        assert(t.drop_last() =~= s);
        t
    } else {
        let last = s.last();
        let front = s.drop_last();
        assert(ascending(front)) by {
            assert forall|i: int, j: int| 0 <= i < j < front.len() implies (#[trigger] front[i]).0
                < (#[trigger] front[j]).0 by {
                assert(front[i] == s[i] && front[j] == s[j]);
            }
        }
        if last.0 < k {
            let t = s.push((k, v));
            assert(t.drop_last() =~= s);
            assert forall|i: int, j: int| 0 <= i < j < t.len() implies (#[trigger] t[i]).0 < (
            #[trigger] t[j]).0 by {
                if j == s.len() {
                    if i < s.len() - 1 {
                        assert(s[i].0 < s[s.len() - 1].0);
                    }
                }
            }
            t
        } else if last.0 == k {
            let t = front.push((k, v));
            assert(t.drop_last() =~= front);
            assert forall|i: int, j: int| 0 <= i < j < t.len() implies (#[trigger] t[i]).0 < (
            #[trigger] t[j]).0 by {
                assert(t[i].0 == s[i].0 && t[j].0 == s[j].0);
            }
            assert(as_map(t) =~= as_map(s).insert(k, v));
            t
        } else {
            let u = lemma_list_with(front, k, v);
            let t = u.push(last);
            lemma_as_map(u);
            lemma_as_map(front);
            assert(t.drop_last() =~= u);
            assert(as_map(t) =~= as_map(s).insert(k, v));
            assert forall|i: int, j: int| 0 <= i < j < t.len() implies (#[trigger] t[i]).0 < (
            #[trigger] t[j]).0 by {
                if j == u.len() {
                    assert(t[i] == u[i]);
                    assert(as_map(u).dom().contains(u[i].0));
                    if u[i].0 != k {
                        assert(as_map(front).dom().contains(u[i].0));
                        let p = choose|p: int|
                            0 <= p < front.len() && (#[trigger] front[p]).0 == u[i].0;
                        assert(s[p] == front[p]);
                        assert(s[p].0 < s[s.len() - 1].0);
                    }
                } else {
                    assert(t[i] == u[i] && t[j] == u[j]);
                }
            }
            t
        }
    }
}

pub proof fn lemma_listed_insert<V>(m: Map<u64, V>, k: u64, v: V)
    requires
        listed(m),
    ensures
        listed(m.insert(k, v)),
{
    let s = choose|s: Seq<(u64, V)>| ascending(s) && #[trigger] as_map(s) == m;
    let t = lemma_list_with(s, k, v);
    assert(ascending(t) && as_map(t) == m.insert(k, v));
}

pub proof fn lemma_listed_empty<V>()
    ensures
        listed(Map::<u64, V>::empty()),
{
    let s = Seq::<(u64, V)>::empty();
    assert(ascending(s) && as_map(s) == Map::<u64, V>::empty());
}

/// The entries of a map in order are its entries, all of them, each once.
pub proof fn lemma_entries_in_order<V>(m: Map<u64, V>)
    requires
        listed(m),
    ensures
        ascending(sorted(m)),
        as_map(sorted(m)) == m,
        forall|i: int|
            0 <= i < sorted(m).len() ==> m.dom().contains((#[trigger] sorted(m)[i]).0)
                && m[sorted(m)[i].0] == sorted(m)[i].1,
        forall|k: u64| #[trigger]
            m.dom().contains(k) ==> exists|i: int|
                0 <= i < sorted(m).len() && #[trigger] sorted(m)[i] == (k, m[k]),
{
    let s = choose|s: Seq<(u64, V)>| ascending(s) && #[trigger] as_map(s) == m;
    lemma_sorted(s);
    lemma_as_map(s);
    assert forall|k: u64| #[trigger] m.dom().contains(k) implies exists|i: int|
        0 <= i < sorted(m).len() && #[trigger] sorted(m)[i] == (k, m[k]) by {
        let i = choose|i: int| 0 <= i < s.len() && (#[trigger] s[i]).0 == k;
        assert(sorted(m)[i] == (k, m[k]));
    }
}

/// Putting a write under some shards adds it to each of them as often as it is among them, and
/// leaves all else as it was.
pub proof fn spreading_adds_the_write_to_each_shard(
    m: Map<u64, Seq<usize>>,
    shards: Seq<u64>,
    j: int,
    place: usize,
    s: u64,
)
    requires
        0 <= j <= shards.len(),
        listed(m),
    ensures
        ({
            let r = spread(m, shards, j, place);
            let n = times(shards.skip(j), s);
            &&& listed(r)
            &&& under(r, s) == under(m, s) + Seq::new(n, |k: int| place)
            &&& r.dom().contains(s) <==> m.dom().contains(s) || n > 0
        }),
    decreases shards.len() - j,
{
    let rest = shards.skip(j);
    if j < shards.len() {
        let next = m.insert(shards[j], under(m, shards[j]).push(place));
        lemma_listed_insert(m, shards[j], under(m, shards[j]).push(place));
        spreading_adds_the_write_to_each_shard(next, shards, j + 1, place, s);
        let later = shards.skip(j + 1);
        assert(rest =~= seq![shards[j]] + later);
        lemma_times_front(shards[j], later, s);
        let n = times(later, s);
        if s == shards[j] {
            assert(under(m, s).push(place) + Seq::new(n, |k: int| place) =~= under(m, s)
                + Seq::new((n + 1) as nat, |k: int| place));
        }
    } else {
        assert(rest.len() == 0);
        assert(under(m, s) + Seq::new(0, |k: int| place) =~= under(m, s));
    }
}

proof fn lemma_times_front<A>(x: A, s: Seq<A>, y: A)
    ensures
        times(seq![x] + s, y) == times(s, y) + (if x == y {
            1nat
        } else {
            0nat
        }),
    decreases s.len(),
{
    let t = seq![x] + s;
    if s.len() == 0 {
        assert(t.drop_last() =~= Seq::<A>::empty());
        assert(times(t.drop_last(), y) == 0);
        assert(t.last() == x);
    } else {
        assert(t.drop_last() =~= seq![x] + s.drop_last());
        assert(t.last() == s.last());
        lemma_times_front(x, s.drop_last(), y);
    }
}

proof fn lemma_times_again(s: Seq<usize>, place: usize, n: nat, x: usize)
    ensures
        times(s + Seq::new(n, |k: int| place), x) == times(s, x) + (if x == place {
            n
        } else {
            0
        }),
    decreases n,
{
    let t = s + Seq::new(n, |k: int| place);
    if n == 0 {
        assert(t =~= s);
    } else {
        lemma_times_again(s, place, (n - 1) as nat, x);
        assert(t.drop_last() =~= s + Seq::new((n - 1) as nat, |k: int| place));
        assert(t.last() == place);
    }
}

proof fn lemma_no_later_place(s: Seq<usize>, n: int)
    requires
        forall|k: int| 0 <= k < s.len() ==> 0 <= #[trigger] s[k] < n,
        n <= usize::MAX,
    ensures
        times(s, n as usize) == 0,
{
    lemma_times(s, n as usize);
    if s.contains(n as usize) {
        let k = choose|k: int| 0 <= k < s.len() && s[k] == n as usize;
        assert(s[k] < n);
    }
}

proof fn lemma_placed(
    writes: Seq<Write>,
    facts: Seq<WriteFacts>,
    shards: Seq<ShardStatus>,
    i: int,
    m: Map<u64, Seq<usize>>,
)
    requires
        0 <= i <= writes.len(),
        writes.len() <= usize::MAX,
        listed(m),
        placed(m, writes, facts, shards, i),
        forall|k: int|
            0 <= k < i ==> can_be_placed(#[trigger] writes[k], facts[k], shards),
    ensures
        match by_shard(writes, facts, shards, i, m) {
            Ok(r) => listed(r) && placed(r, writes, facts, shards, writes.len() as int) && forall|
                k: int,
            |
                0 <= k < writes.len() ==> can_be_placed(#[trigger] writes[k], facts[k], shards),
            Err(e) => exists|k: int|
                i <= k < writes.len() && !can_be_placed(#[trigger] writes[k], facts[k], shards)
                    && (forall|j: int|
                    0 <= j < k ==> can_be_placed(#[trigger] writes[j], facts[j], shards))
                    && match targets_of(writes[k], facts[k], shards) {
                    Err(told) => e == told,
                    Ok(targets) => e == not_one_shard(writes[k].query, targets),
                },
        },
    decreases writes.len() - i,
{
    if i < writes.len() {
        let w = writes[i];
        match targets_of(w, facts[i], shards) {
            Err(e) => {
                assert(!can_be_placed(writes[i], facts[i], shards));
            },
            Ok(targets) => {
                if !can_be_placed(w, facts[i], shards) {
                    assert(!can_be_placed(writes[i], facts[i], shards));
                } else {
                    let next = if targets.len() == 0 && is_mutation(w.query) {
                        m
                    } else {
                        spread(m, targets, 0, i as usize)
                    };
                    assert(targets.skip(0) =~= targets);
                    assert forall|s: u64|
                        #![trigger under(next, s)]
                        under(next, s) == under(m, s) + Seq::new(
                            times(targets, s),
                            |k: int| i as usize,
                        ) && (next.dom().contains(s) <==> m.dom().contains(s) || times(targets, s)
                            > 0) by {
                        spreading_adds_the_write_to_each_shard(m, targets, 0, i as usize, s);
                        if targets.len() == 0 {
                            assert(under(m, s) + Seq::new(0, |k: int| i as usize) =~= under(m, s));
                        }
                    }
                    spreading_adds_the_write_to_each_shard(m, targets, 0, i as usize, 0);
                    assert forall|k: int, s: u64| 0 <= k < i + 1 implies #[trigger] times(
                        under(next, s),
                        k as usize,
                    ) == times(targets_of(writes[k], facts[k], shards)->Ok_0, s) by {
                        lemma_times_again(under(m, s), i as usize, times(targets, s), k as usize);
                        if k == i {
                            lemma_no_later_place(under(m, s), i);
                        } else {
                            assert(times(under(m, s), k as usize) == times(
                                targets_of(writes[k], facts[k], shards)->Ok_0,
                                s,
                            ));
                        }
                    }
                    assert forall|s: u64, k: int| 0 <= k < under(next, s).len() implies 0
                        <= #[trigger] under(next, s)[k] < i + 1 by {
                        if k < under(m, s).len() {
                            assert(under(next, s)[k] == under(m, s)[k]);
                        }
                    }
                    assert forall|s: u64, j: int, k: int|
                        0 <= j < k < under(next, s).len() implies #[trigger] under(next, s)[j]
                        <= #[trigger] under(next, s)[k] by {
                        if k < under(m, s).len() {
                            assert(under(next, s)[j] == under(m, s)[j]);
                            assert(under(next, s)[k] == under(m, s)[k]);
                        } else if j < under(m, s).len() {
                            assert(under(next, s)[j] == under(m, s)[j]);
                        }
                    }
                    assert forall|s: u64| #[trigger] next.dom().contains(s) implies under(
                        next,
                        s,
                    ).len() > 0 by {
                        assert(under(next, s).len() == under(m, s).len() + times(targets, s));
                    }
                    lemma_placed(writes, facts, shards, i + 1, next);
                }
            },
        }
    }
}

/// When the writes of a transaction are put under their shards, each write stands in the list of
/// every shard that it targets, and in no other list.
pub proof fn writes_stand_under_every_shard_they_target(
    writes: Seq<Write>,
    facts: Seq<WriteFacts>,
    shards: Seq<ShardStatus>,
    i: int,
    s: u64,
)
    requires
        writes.len() <= usize::MAX,
        by_shard(writes, facts, shards, 0, Map::empty()) is Ok,
        0 <= i < writes.len(),
    ensures
        targets_of(writes[i], facts[i], shards) is Ok,
        ({
            let m = by_shard(writes, facts, shards, 0, Map::empty())->Ok_0;
            let targets = targets_of(writes[i], facts[i], shards)->Ok_0;
            &&& targets.contains(s) <==> m.dom().contains(s) && m[s].contains(i as usize)
            &&& m.dom().contains(s) ==> times(m[s], i as usize) == times(targets, s)
        }),
{
    lemma_listed_empty::<Seq<usize>>();
    lemma_placed(writes, facts, shards, 0, Map::empty());
    let m = by_shard(writes, facts, shards, 0, Map::empty())->Ok_0;
    let targets = targets_of(writes[i], facts[i], shards)->Ok_0;
    assert(can_be_placed(writes[i], facts[i], shards));
    assert(times(under(m, s), i as usize) == times(targets, s));
    lemma_times(under(m, s), i as usize);
    lemma_times(targets, s);
}

/// The list of a shard names writes of the transaction only, in their order, and no shard has an
/// empty list.
pub proof fn lists_of_shards_are_in_the_order_of_the_writes(
    writes: Seq<Write>,
    facts: Seq<WriteFacts>,
    shards: Seq<ShardStatus>,
    s: u64,
)
    requires
        writes.len() <= usize::MAX,
        by_shard(writes, facts, shards, 0, Map::empty()) is Ok,
        by_shard(writes, facts, shards, 0, Map::empty())->Ok_0.dom().contains(s),
    ensures
        ({
            let list = by_shard(writes, facts, shards, 0, Map::empty())->Ok_0[s];
            &&& list.len() > 0
            &&& forall|k: int| 0 <= k < list.len() ==> 0 <= #[trigger] list[k] < writes.len()
            &&& forall|j: int, k: int|
                0 <= j < k < list.len() ==> #[trigger] list[j] <= #[trigger] list[k]
        }),
{
    lemma_listed_empty::<Seq<usize>>();
    lemma_placed(writes, facts, shards, 0, Map::empty());
    let m = by_shard(writes, facts, shards, 0, Map::empty())->Ok_0;
    let list = m[s];
    assert(under(m, s) == list);
    assert forall|k: int| 0 <= k < list.len() implies 0 <= #[trigger] list[k] < writes.len() by {
        assert(under(m, s)[k] < writes.len());
    }
    assert forall|j: int, k: int| 0 <= j < k < list.len() implies #[trigger] list[j]
        <= #[trigger] list[k] by {
        assert(under(m, s)[j] <= under(m, s)[k]);
    }
}

/// The writes of a transaction can be put under their shards exactly where each of them can; and
/// otherwise it is told what is wrong with the first of them that cannot.
pub proof fn first_write_that_cannot_be_placed_is_told(
    writes: Seq<Write>,
    facts: Seq<WriteFacts>,
    shards: Seq<ShardStatus>,
)
    requires
        writes.len() <= usize::MAX,
    ensures
        by_shard(writes, facts, shards, 0, Map::empty()) is Ok <==> forall|k: int|
            0 <= k < writes.len() ==> can_be_placed(#[trigger] writes[k], facts[k], shards),
        by_shard(writes, facts, shards, 0, Map::empty()) matches Err(e) ==> exists|k: int|
            0 <= k < writes.len() && !can_be_placed(#[trigger] writes[k], facts[k], shards) && (
            forall|j: int| 0 <= j < k ==> can_be_placed(#[trigger] writes[j], facts[j], shards))
                && match targets_of(writes[k], facts[k], shards) {
                Err(told) => e == told,
                Ok(targets) => e == not_one_shard(writes[k].query, targets),
            },
{
    lemma_listed_empty::<Seq<usize>>();
    lemma_placed(writes, facts, shards, 0, Map::empty());
}

/// What a plan does with the writes of a shard.
pub open spec fn carries_out(
    plan: Plan,
    shard_id: u64,
    list: Seq<usize>,
    shards: Seq<ShardStatus>,
    peers: Map<u64, Seq<char>>,
) -> bool {
    match plan {
        Plan::OneByOne => true,
        Plan::StagedOnShard { shard_id: s } => s == shard_id,
        Plan::MutationsOnShard { shard_id: s, writes } => s == shard_id && writes == list,
        Plan::Mutations => led_here(shards, shard_id),
        Plan::OnePeer { batch } => batch.shard_id == shard_id && batch.writes == list && led_at(
            shards,
            peers,
            shard_id,
            batch.address,
        ),
        Plan::TwoPhase { locals, remotes } => takes_part(
            locals,
            remotes,
            shard_id,
            list,
            shards,
            peers,
        ),
    }
}

/// Whether a shard takes part in a commit of several with its writes: as one of this server, or
/// at the address of its primary.
pub open spec fn takes_part(
    locals: Seq<(u64, Seq<usize>)>,
    remotes: Seq<Away>,
    shard_id: u64,
    list: Seq<usize>,
    shards: Seq<ShardStatus>,
    peers: Map<u64, Seq<char>>,
) -> bool {
    if led_here(shards, shard_id) {
        exists|k: int| 0 <= k < locals.len() && #[trigger] locals[k] == (shard_id, list)
    } else {
        exists|k: int|
            0 <= k < remotes.len() && (#[trigger] remotes[k]).shard_id == shard_id
                && remotes[k].writes == list && led_at(shards, peers, shard_id, remotes[k].address)
    }
}

/// Whether this server is the primary of a shard.
pub open spec fn led_here(shards: Seq<ShardStatus>, shard_id: u64) -> bool {
    shard_of(shards, shard_id) matches Some(s) && s.is_local_primary
}

/// Whether another server is the primary of a shard and has an address.
pub open spec fn led_at(
    shards: Seq<ShardStatus>,
    peers: Map<u64, Seq<char>>,
    shard_id: u64,
    address: Seq<char>,
) -> bool {
    shard_of(shards, shard_id) matches Some(s) && !s.is_local_primary && (s.primary_server_id
        matches Some(p) && peers.dom().contains(p) && peers[p] == address)
}

/// Whether a shard can be reached: it is this server's, or its primary has an address.
pub open spec fn in_reach(
    shards: Seq<ShardStatus>,
    peers: Map<u64, Seq<char>>,
    shard_id: u64,
) -> bool {
    shard_of(shards, shard_id) matches Some(s) && (s.is_local_primary || (s.primary_server_id
        matches Some(p) && peers.dom().contains(p)))
}

/// Whether parts of a list are the shards of this server and of others among the first of it.
spec fn parts_of(
    list: Seq<(u64, Seq<usize>)>,
    n: int,
    shards: Seq<ShardStatus>,
    peers: Map<u64, Seq<char>>,
    locals: Seq<(u64, Seq<usize>)>,
    remotes: Seq<Away>,
) -> bool {
    &&& locals.len() + remotes.len() == n
    &&& forall|k: int|
        0 <= k < n ==> takes_part(
            locals,
            remotes,
            (#[trigger] list[k]).0,
            list[k].1,
            shards,
            peers,
        )
    &&& forall|k: int|
        0 <= k < locals.len() ==> list.contains(#[trigger] locals[k]) && led_here(
            shards,
            locals[k].0,
        )
    &&& forall|k: int|
        0 <= k < remotes.len() ==> list.contains(
            ((#[trigger] remotes[k]).shard_id, remotes[k].writes),
        ) && led_at(shards, peers, remotes[k].shard_id, remotes[k].address)
}

proof fn lemma_parted(
    list: Seq<(u64, Seq<usize>)>,
    shards: Seq<ShardStatus>,
    peers: Map<u64, Seq<char>>,
    i: int,
    locals: Seq<(u64, Seq<usize>)>,
    remotes: Seq<Away>,
)
    requires
        0 <= i <= list.len(),
        forall|k: int| 0 <= k < list.len() ==> shard_of(shards, (#[trigger] list[k]).0) is Some,
        parts_of(list, i, shards, peers, locals, remotes),
        forall|k: int| 0 <= k < i ==> in_reach(shards, peers, (#[trigger] list[k]).0),
    ensures
        match parted(list, shards, peers, i, locals, remotes) {
            Ok(plan) => plan matches Plan::TwoPhase { locals: l, remotes: r } && parts_of(
                list,
                list.len() as int,
                shards,
                peers,
                l,
                r,
            ) && forall|k: int|
                0 <= k < list.len() ==> in_reach(shards, peers, (#[trigger] list[k]).0),
            Err(_) => exists|k: int|
                0 <= k < list.len() && !in_reach(shards, peers, (#[trigger] list[k]).0),
        },
    decreases list.len() - i,
{
    if i < list.len() {
        let shard = shard_of(shards, list[i].0).unwrap();
        let l = if shard.is_local_primary {
            locals.push(list[i])
        } else {
            locals
        };
        let r = if shard.is_local_primary {
            remotes
        } else {
            remotes.push(
                Away {
                    address: primary_address(shard, peers)->Ok_0,
                    shard_id: list[i].0,
                    writes: list[i].1,
                },
            )
        };
        if !shard.is_local_primary && primary_address(shard, peers) is Err {
            assert(!in_reach(shards, peers, list[i].0));
        } else {
            assert forall|k: int| 0 <= k < i + 1 implies takes_part(
                l,
                r,
                (#[trigger] list[k]).0,
                list[k].1,
                shards,
                peers,
            ) by {
                if k < i {
                    assert(takes_part(locals, remotes, list[k].0, list[k].1, shards, peers));
                    if led_here(shards, list[k].0) {
                        let j = choose|j: int|
                            0 <= j < locals.len() && #[trigger] locals[j] == (
                                list[k].0,
                                list[k].1,
                            );
                        assert(l[j] == (list[k].0, list[k].1));
                    } else {
                        let j = choose|j: int|
                            0 <= j < remotes.len() && (#[trigger] remotes[j]).shard_id == list[k].0
                                && remotes[j].writes == list[k].1 && led_at(
                                shards,
                                peers,
                                list[k].0,
                                remotes[j].address,
                            );
                        assert(r[j] == remotes[j]);
                    }
                } else if shard.is_local_primary {
                    assert(l[l.len() - 1] == (list[i].0, list[i].1));
                } else {
                    let last = r.len() - 1;
                    assert(r[last].shard_id == list[i].0);
                    assert(led_at(shards, peers, list[i].0, r[last].address));
                }
            }
            assert(list[i] == (list[i].0, list[i].1));
            assert(list.contains((list[i].0, list[i].1)));
            assert forall|k: int| 0 <= k < l.len() implies list.contains(#[trigger] l[k])
                && led_here(shards, l[k].0) by {
                if k < locals.len() {
                    assert(l[k] == locals[k]);
                }
            }
            assert forall|k: int| 0 <= k < r.len() implies list.contains(
                ((#[trigger] r[k]).shard_id, r[k].writes),
            ) && led_at(shards, peers, r[k].shard_id, r[k].address) by {
                if k < remotes.len() {
                    assert(r[k] == remotes[k]);
                }
            }
            lemma_parted(list, shards, peers, i + 1, l, r);
        }
    }
}

proof fn lemma_first_missing(list: Seq<(u64, Seq<usize>)>, shards: Seq<ShardStatus>, i: int)
    requires
        0 <= i <= list.len(),
    ensures
        match first_missing(list, shards, i) {
            Some(s) => exists|k: int|
                i <= k < list.len() && (#[trigger] list[k]).0 == s && shard_of(shards, s) is None,
            None => forall|k: int|
                i <= k < list.len() ==> shard_of(shards, (#[trigger] list[k]).0) is Some,
        },
    decreases list.len() - i,
{
    if i < list.len() {
        if shard_of(shards, list[i].0) is None {
            assert(list[i].0 == first_missing(list, shards, i).unwrap());
        } else {
            lemma_first_missing(list, shards, i + 1);
        }
    }
}

/// A plan carries out the writes of every shard that has some: on this server where it is the
/// primary of the shard, and otherwise at the address of the server that is. Where all writes
/// change data they are carried out together, and one by one otherwise at most.
pub proof fn plans_carry_out_the_writes_of_every_shard(
    list: Seq<(u64, Seq<usize>)>,
    writes: Seq<Write>,
    shards: Seq<ShardStatus>,
    peers: Map<u64, Seq<char>>,
)
    ensures
        plan_of(list, writes, shards, peers) matches Ok(plan) ==> {
            &&& forall|k: int|
                0 <= k < list.len() ==> carries_out(
                    plan,
                    (#[trigger] list[k]).0,
                    list[k].1,
                    shards,
                    peers,
                )
            &&& plan is OneByOne && list.len() > 0 && writes.len() > 0 ==> exists|i: int|
                0 <= i < writes.len() && !is_mutation((#[trigger] writes[i]).query)
            &&& plan is StagedOnShard || plan is MutationsOnShard ==> led_here(shards, list[0].0)
            &&& plan matches Plan::TwoPhase { locals, remotes } ==> locals.len() + remotes.len()
                == list.len() && (forall|k: int|
                0 <= k < locals.len() ==> list.contains(#[trigger] locals[k])) && forall|k: int|
                0 <= k < remotes.len() ==> list.contains(
                    ((#[trigger] remotes[k]).shard_id, remotes[k].writes),
                )
        },
        plan_of(list, writes, shards, peers) is Err ==> exists|k: int|
            0 <= k < list.len() && !in_reach(shards, peers, (#[trigger] list[k]).0),
        list.len() > 0 && writes.len() > 0 && all_mutate(writes) && plan_of(
            list,
            writes,
            shards,
            peers,
        ) is Ok ==> forall|k: int|
            0 <= k < list.len() ==> in_reach(shards, peers, (#[trigger] list[k]).0),
{
    if list.len() > 0 && writes.len() > 0 {
        if list.len() == 1 {
            if shard_of(shards, list[0].0) is None || (!shard_of(
                shards,
                list[0].0,
            ).unwrap().is_local_primary && primary_address(
                shard_of(shards, list[0].0).unwrap(),
                peers,
            ) is Err) {
                assert(!in_reach(shards, peers, list[0].0));
            }
        } else if all_mutate(writes) {
            lemma_first_missing(list, shards, 0);
            match first_missing(list, shards, 0) {
                Some(s) => {
                    let k = choose|k: int|
                        0 <= k < list.len() && (#[trigger] list[k]).0 == s && shard_of(shards, s)
                            is None;
                    assert(!in_reach(shards, peers, list[k].0));
                },
                None => {
                    if all_local(list, shards) {
                        assert forall|k: int| 0 <= k < list.len() implies list.contains(
                            ((#[trigger] list[k]).0, list[k].1),
                        ) by {
                            assert(list[k] == (list[k].0, list[k].1));
                        }
                    } else {
                        lemma_parted(list, shards, peers, 0, Seq::empty(), Seq::empty());
                    }
                },
            }
        }
    }
}

/// A commit that begins carries every write out on every shard that it targets: whatever shard a
/// write of the transaction targets, the plan carries out the writes of that shard, and the
/// write is one of them. A transaction that began under the present routing and whose writes all
/// change data is refused only where a shard cannot be reached.
pub proof fn commits_reach_every_target_of_every_write(
    t: Txn,
    facts: CommitFacts,
    peers: Map<u64, Seq<char>>,
    i: int,
    s: u64,
)
    requires
        t.mode is ReadWrite,
        t.writes.len() <= usize::MAX,
        commit_targets(t, facts) is Ok,
        facts.at_plan is Ok,
        closed_plan(t, commit_targets(t, facts)->Ok_0, facts, peers) is Ok,
        0 <= i < t.writes.len(),
        targets_of(t.writes[i], facts.writes@[i], facts.at_targets->Ok_0.shards@) matches Ok(
            targets,
        ) && targets.contains(s),
    ensures
        ({
            let m = commit_targets(t, facts)->Ok_0;
            let plan = closed_plan(t, m, facts, peers)->Ok_0;
            &&& m.dom().contains(s) && m[s].contains(i as usize)
            &&& carries_out(plan, s, m[s], facts.at_plan->Ok_0.shards@, peers)
            &&& plan is OneByOne ==> exists|k: int|
                0 <= k < t.writes.len() && !is_mutation((#[trigger] t.writes[k]).query)
        }),
{
    let shards = facts.at_targets->Ok_0.shards@;
    let m = commit_targets(t, facts)->Ok_0;
    writes_stand_under_every_shard_they_target(t.writes, facts.writes@, shards, i, s);
    lemma_listed_empty::<Seq<usize>>();
    lemma_placed(t.writes, facts.writes@, shards, 0, Map::empty());
    lemma_entries_in_order(m);
    let k = choose|k: int| 0 <= k < sorted(m).len() && #[trigger] sorted(m)[k] == (s, m[s]);
    plans_carry_out_the_writes_of_every_shard(
        sorted(m),
        t.writes,
        facts.at_plan->Ok_0.shards@,
        peers,
    );
    assert(sorted(m)[k].0 == s);
}

/// A transaction that only read is committed whatever the routing has become, and one that began
/// under the present routing is not told that it is stale.
pub proof fn only_changed_routings_make_a_transaction_stale(
    t: Txn,
    m: Map<u64, Seq<usize>>,
    facts: CommitFacts,
    peers: Map<u64, Seq<char>>,
)
    ensures
        t.mode is ReadOnly ==> closed_plan(t, m, facts, peers) is Ok,
        t.mode is ReadWrite && facts.at_close is Err ==> closed_plan(t, m, facts, peers) is Err,
        t.mode is ReadWrite && facts.at_close is Ok && facts.at_close->Ok_0 == t.ownership_epoch
            && facts.at_plan is Ok && (forall|k: int|
            0 <= k < sorted(m).len() ==> in_reach(
                facts.at_plan->Ok_0.shards@,
                peers,
                (#[trigger] sorted(m)[k]).0,
            )) ==> closed_plan(t, m, facts, peers) is Ok,
{
    if facts.at_plan is Ok {
        plans_carry_out_the_writes_of_every_shard(
            sorted(m),
            t.writes,
            facts.at_plan->Ok_0.shards@,
            peers,
        );
    }
}

/// The writes of a transaction that targets several shards are looked up only where they can be
/// carried out together.
pub proof fn several_shards_take_changes_of_data_only(t: Txn, facts: CommitFacts)
    requires
        facts.at_targets is Ok,
    ensures
        commit_targets(t, facts) is Ok <==> ({
            let placed = by_shard(
                t.writes,
                facts.writes@,
                facts.at_targets->Ok_0.shards@,
                0,
                Map::empty(),
            );
            placed matches Ok(m) && (sorted(m).len() <= 1 || forall|k: int|
                0 <= k < t.writes.len() ==> is_mutation((#[trigger] t.writes[k]).query))
        }),
{
}

} // verus!
