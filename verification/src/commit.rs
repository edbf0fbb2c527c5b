//! How the writes of a transaction are committed: which shard gets which of them, and in what
//! way they are carried out together.

use vstd::prelude::*;

use crate::cluster::{
    find_primary_address, find_shard, find_write_shards, missing_shard, primary_address, shard_of,
    show_missing_shard, target_list, write_shards, ClusterStatus, ShardStatus,
};
use crate::commands::TransactionMode;
use crate::cypher::{
    is_batchable_cypher_mutation, is_batchable_multi_target_transaction_cypher,
    is_batchable_transaction_set_cypher, is_delete, is_mutation, is_set,
    is_staged_transaction_overlay_cypher,
};
use crate::json::{dec_all, show_each};
use crate::peers::QueryPeerStore;
use crate::table::{
    lemma_seen, lemma_seen_empty, lemma_seen_insert, lemma_seen_remove, seen_entries, seen_map,
    sorted, Table,
};
use crate::text::{cat, cat3, debug_text, dec, join, join_with, quoted, show};
use crate::transactions::{
    open_in, unknown_transaction, write_views, writes_well_formed, StagedWrite, TransactionStore,
    Txn, Write,
};
use crate::wire::{node_hash, CreateNodeRoutingKey};

verus! {

/// What the storage says of a write: its routing key, if it has one, and its shards.
pub struct WriteFacts {
    pub key: Option<CreateNodeRoutingKey>,
    pub targets: Result<Vec<u64>, String>,
}

/// The writes of a transaction by their shards; a write is named by its place.
pub struct TargetWrites {
    table: Table<Vec<usize>>,
}

pub open spec fn places() -> spec_fn(Vec<usize>) -> Seq<usize> {
    |v: Vec<usize>| v@
}

/// The places that stand under a shard.
pub open spec fn under(m: Map<u64, Seq<usize>>, shard_id: u64) -> Seq<usize> {
    if m.dom().contains(shard_id) {
        m[shard_id]
    } else {
        Seq::empty()
    }
}

impl TargetWrites {
    pub closed spec fn view(&self) -> Map<u64, Seq<usize>> {
        seen_map(self.table@, places())
    }

    pub closed spec fn well_formed(&self) -> bool {
        self.table.well_formed()
    }

    /// The shards with their writes, in the order of the shards.
    pub closed spec fn entries(&self) -> Seq<(u64, Seq<usize>)> {
        seen_entries(self.table.entries(), places())
    }

    pub fn new() -> (r: Self)
        ensures
            r.well_formed(),
            r@ == Map::<u64, Seq<usize>>::empty(),
    {
        proof {
            lemma_seen_empty(places());
        }
        TargetWrites { table: Table::new() }
    }

    /// Adds a write to a shard.
    pub fn push(&mut self, shard_id: u64, place: usize)
        requires
            old(self).well_formed(),
        ensures
            final(self).well_formed(),
            final(self)@ == old(self)@.insert(shard_id, under(old(self)@, shard_id).push(place)),
    {
        let ghost before = self.table@;
        let mut list = match self.table.remove(shard_id) {
            Some(v) => v,
            None => Vec::new(),
        };
        let ghost was = list@;
        list.push(place);
        proof {
            lemma_seen_remove(before, places(), shard_id);
            lemma_seen_insert(before.remove(shard_id), places(), shard_id, list);
            assert(under(seen_map(before, places()), shard_id) =~= was);
            assert(seen_map(before, places()).remove(shard_id).insert(shard_id, list@)
                =~= seen_map(before, places()).insert(shard_id, list@));
        }
        self.table.insert(shard_id, list);
    }

    /// How many shards there are.
    pub fn len(&self) -> (n: usize)
        requires
            self.well_formed(),
        ensures
            n == self.entries().len(),
            self.entries() == sorted(self@),
    {
        proof {
            lemma_seen(self.table.entries(), places());
        }
        self.table.len()
    }

    /// The `i`-th shard.
    pub fn shard_at(&self, i: usize) -> (r: u64)
        requires
            i < self.entries().len(),
        ensures
            r == self.entries()[i as int].0,
    {
        self.table.key_at(i)
    }

    /// The writes of the `i`-th shard.
    pub fn writes_at(&self, i: usize) -> (r: Vec<usize>)
        requires
            i < self.entries().len(),
        ensures
            r@ == self.entries()[i as int].1,
    {
        copy_places(self.table.value_at(i).as_slice())
    }
}

fn copy_places(v: &[usize]) -> (r: Vec<usize>)
    ensures
        r@ == v@,
{
    let mut r: Vec<usize> = Vec::new();
    let mut i: usize = 0;
    while i < v.len()
        invariant
            0 <= i <= v@.len(),
            r@ == v@.take(i as int),
        decreases v@.len() - i,
    {
        r.push(v[i]);
        assert(v@.take(i + 1) =~= v@.take(i as int).push(v@[i as int]));
        i = i + 1;
    }
    assert(v@.take(v@.len() as int) =~= v@);
    r
}

/// A write put under each of some shards, from the `j`-th on.
pub open spec fn spread(m: Map<u64, Seq<usize>>, shards: Seq<u64>, j: int, place: usize) -> Map<
    u64,
    Seq<usize>,
>
    decreases shards.len() - j,
{
    if j < 0 || j >= shards.len() {
        m
    } else {
        spread(m.insert(shards[j], under(m, shards[j]).push(place)), shards, j + 1, place)
    }
}

/// How a list of shards is shown.
pub open spec fn shown_shards(shards: Seq<u64>) -> Seq<char> {
    "["@ + join(dec_all(shards), ", "@) + "]"@
}

/// Why a write cannot be committed: it goes to no shard or to several, and is not one that
/// may.
pub open spec fn not_one_shard(query: Seq<char>, shards: Seq<u64>) -> Seq<char> {
    "read-write transaction commit requires each staged write to target exactly one shard; query "@
        + debug_text(query) + " targets "@ + shown_shards(shards)
}

/// The writes from the `i`-th on put under their shards.
pub open spec fn by_shard(
    writes: Seq<Write>,
    facts: Seq<WriteFacts>,
    shards: Seq<ShardStatus>,
    i: int,
    m: Map<u64, Seq<usize>>,
) -> Result<Map<u64, Seq<usize>>, Seq<char>>
    decreases writes.len() - i,
{
    if i < 0 || i >= writes.len() {
        Ok(m)
    } else {
        let w = writes[i];
        let hash = node_hash(facts[i].key, w.query, w.params);
        match write_shards(shards, w.query, hash, target_list(facts[i].targets)) {
            Err(e) => Err(e),
            Ok(targets) => if targets.len() == 0 && is_mutation(w.query) {
                by_shard(writes, facts, shards, i + 1, m)
            } else if targets.len() != 1 && !is_set(w.query) && !is_delete(w.query) {
                Err(not_one_shard(w.query, targets))
            } else {
                by_shard(writes, facts, shards, i + 1, spread(m, targets, 0, i as usize))
            },
        }
    }
}

/// Puts the writes of a transaction under their shards.
pub fn writes_by_target_shard(
    staged_writes: &[StagedWrite],
    facts: &[WriteFacts],
    shards: &[ShardStatus],
) -> (r: Result<TargetWrites, String>)
    requires
        writes_well_formed(staged_writes@),
        facts@.len() == staged_writes@.len(),
    ensures
        match r {
            Ok(t) => t.well_formed() && by_shard(
                write_views(staged_writes@),
                facts@,
                shards@,
                0,
                Map::empty(),
            ) == Ok::<Map<u64, Seq<usize>>, Seq<char>>(t@),
            Err(e) => by_shard(write_views(staged_writes@), facts@, shards@, 0, Map::empty())
                == Err::<Map<u64, Seq<usize>>, Seq<char>>(e@),
        },
{
    let mut t = TargetWrites::new();
    let mut i: usize = 0;
    let ghost all = write_views(staged_writes@);
    while i < staged_writes.len()
        invariant
            0 <= i <= staged_writes@.len(),
            all == write_views(staged_writes@),
            writes_well_formed(staged_writes@),
            facts@.len() == staged_writes@.len(),
            t.well_formed(),
            by_shard(all, facts@, shards@, 0, Map::empty()) == by_shard(
                all,
                facts@,
                shards@,
                i as int,
                t@,
            ),
        decreases staged_writes@.len() - i,
    {
        let w = &staged_writes[i];
        assert(all[i as int] == w@);
        let targets = match find_write_shards(
            shards,
            &facts[i].key,
            w.query.as_str(),
            &w.params,
            &facts[i].targets,
        ) {
            Err(e) => return Err(e),
            Ok(v) => v,
        };
        if targets.len() == 0 && is_staged_transaction_overlay_cypher(w.query.as_str()) {
            i = i + 1;
            continue;
        }
        if targets.len() != 1 && !is_batchable_multi_target_transaction_cypher(w.query.as_str()) {
            let mut e =
                "read-write transaction commit requires each staged write to target exactly one shard; query ".to_owned();
            e.append(quoted(w.query.as_str()).as_str());
            e.append(" targets ");
            e.append(
                cat3(
                    "[",
                    join_with(show_each(targets.as_slice()).as_slice(), ", ").as_str(),
                    "]",
                ).as_str(),
            );
            return Err(e);
        }
        let mut j: usize = 0;
        let ghost start = t@;
        while j < targets.len()
            invariant
                0 <= j <= targets@.len(),
                t.well_formed(),
                spread(start, targets@, 0, i) == spread(t@, targets@, j as int, i),
            decreases targets@.len() - j,
        {
            t.push(targets[j], i);
            j = j + 1;
        }
        i = i + 1;
    }
    Ok(t)
}

/// A batch of writes for a shard of another server.
pub struct RemoteBatch {
    pub address: String,
    pub shard_id: u64,
    pub writes: Vec<usize>,
}

/// A batch of writes for a shard of this server.
pub struct LocalBatch {
    pub shard_id: u64,
    pub writes: Vec<usize>,
}

/// The contents of a batch for a shard of another server.
pub struct Away {
    pub address: Seq<char>,
    pub shard_id: u64,
    pub writes: Seq<usize>,
}

/// The contents of batches for shards of other servers.
pub open spec fn aways(s: Seq<RemoteBatch>) -> Seq<Away> {
    s.map_values(
        |b: RemoteBatch| Away { address: b.address@, shard_id: b.shard_id, writes: b.writes@ },
    )
}

/// The contents of batches for shards of this server.
pub open spec fn homes(s: Seq<LocalBatch>) -> Seq<(u64, Seq<usize>)> {
    s.map_values(|b: LocalBatch| (b.shard_id, b.writes@))
}

/// How the writes of a transaction are carried out.
pub enum CommitPlan {
    /// One after the other, each where it belongs.
    OneByOne,
    /// All together as one transaction of a shard of this server.
    StagedOnShard { shard_id: u64 },
    /// The given ones together on a shard of this server.
    MutationsOnShard { shard_id: u64, writes: Vec<usize> },
    /// All together on shards of this server.
    Mutations,
    /// Prepared on the shard of another server, and committed there.
    OnePeer { batch: RemoteBatch },
    /// Prepared on each shard, and committed when all are prepared.
    TwoPhase { locals: Vec<LocalBatch>, remotes: Vec<RemoteBatch> },
}

/// The contents of how the writes of a transaction are carried out.
pub enum Plan {
    OneByOne,
    StagedOnShard { shard_id: u64 },
    MutationsOnShard { shard_id: u64, writes: Seq<usize> },
    Mutations,
    OnePeer { batch: Away },
    TwoPhase { locals: Seq<(u64, Seq<usize>)>, remotes: Seq<Away> },
}

impl CommitPlan {
    pub open spec fn view(&self) -> Plan {
        match *self {
            CommitPlan::OneByOne => Plan::OneByOne,
            CommitPlan::StagedOnShard { shard_id } => Plan::StagedOnShard { shard_id },
            CommitPlan::MutationsOnShard { shard_id, writes } => Plan::MutationsOnShard {
                shard_id,
                writes: writes@,
            },
            CommitPlan::Mutations => Plan::Mutations,
            CommitPlan::OnePeer { batch } => Plan::OnePeer {
                batch: Away {
                    address: batch.address@,
                    shard_id: batch.shard_id,
                    writes: batch.writes@,
                },
            },
            CommitPlan::TwoPhase { locals, remotes } => Plan::TwoPhase {
                locals: homes(locals@),
                remotes: aways(remotes@),
            },
        }
    }
}

/// Whether each write changes data, so that it can be prepared.
pub open spec fn all_mutate(writes: Seq<Write>) -> bool {
    forall|i: int| 0 <= i < writes.len() ==> is_mutation((#[trigger] writes[i]).query)
}

/// Whether each write only sets or removes.
pub open spec fn all_set(writes: Seq<Write>) -> bool {
    forall|i: int| 0 <= i < writes.len() ==> is_set((#[trigger] writes[i]).query)
}

/// Tells whether each write changes data, so that it can be prepared.
pub fn staged_writes_are_prepare_batchable(staged_writes: &[StagedWrite]) -> (r: bool)
    ensures
        r == all_mutate(write_views(staged_writes@)),
{
    let mut i: usize = 0;
    let ghost all = write_views(staged_writes@);
    while i < staged_writes.len()
        invariant
            0 <= i <= staged_writes@.len(),
            all == write_views(staged_writes@),
            forall|j: int| 0 <= j < i ==> is_mutation((#[trigger] all[j]).query),
        decreases staged_writes@.len() - i,
    {
        assert(all[i as int].query == staged_writes@[i as int].query@);
        if !is_batchable_cypher_mutation(staged_writes[i].query.as_str()) {
            return false;
        }
        i = i + 1;
    }
    true
}

fn staged_writes_only_set(staged_writes: &[StagedWrite]) -> (r: bool)
    ensures
        r == all_set(write_views(staged_writes@)),
{
    let mut i: usize = 0;
    let ghost all = write_views(staged_writes@);
    while i < staged_writes.len()
        invariant
            0 <= i <= staged_writes@.len(),
            all == write_views(staged_writes@),
            forall|j: int| 0 <= j < i ==> is_set((#[trigger] all[j]).query),
        decreases staged_writes@.len() - i,
    {
        assert(all[i as int].query == staged_writes@[i as int].query@);
        if !is_batchable_transaction_set_cypher(staged_writes[i].query.as_str()) {
            return false;
        }
        i = i + 1;
    }
    true
}

/// The first shard of a list, from the `i`-th on, of which nothing is known.
pub open spec fn first_missing(
    list: Seq<(u64, Seq<usize>)>,
    shards: Seq<ShardStatus>,
    i: int,
) -> Option<u64>
    decreases list.len() - i,
{
    if i < 0 || i >= list.len() {
        None
    } else if shard_of(shards, list[i].0) is None {
        Some(list[i].0)
    } else {
        first_missing(list, shards, i + 1)
    }
}

/// Whether this server is the primary of each shard of a list.
pub open spec fn all_local(list: Seq<(u64, Seq<usize>)>, shards: Seq<ShardStatus>) -> bool {
    forall|i: int|
        0 <= i < list.len() ==> shard_of(shards, (#[trigger] list[i]).0) is Some && shard_of(
            shards,
            list[i].0,
        ).unwrap().is_local_primary
}

/// The shards of a list from the `i`-th on, parted into those of this server and those of
/// others.
pub open spec fn parted(
    list: Seq<(u64, Seq<usize>)>,
    shards: Seq<ShardStatus>,
    peers: Map<u64, Seq<char>>,
    i: int,
    locals: Seq<(u64, Seq<usize>)>,
    remotes: Seq<Away>,
) -> Result<Plan, Seq<char>>
    decreases list.len() - i,
{
    if i < 0 || i >= list.len() {
        Ok(Plan::TwoPhase { locals, remotes })
    } else {
        let shard = shard_of(shards, list[i].0).unwrap();
        if shard.is_local_primary {
            parted(list, shards, peers, i + 1, locals.push(list[i]), remotes)
        } else {
            match primary_address(shard, peers) {
                Err(e) => Err(e),
                Ok(address) => parted(
                    list,
                    shards,
                    peers,
                    i + 1,
                    locals,
                    remotes.push(Away { address, shard_id: list[i].0, writes: list[i].1 }),
                ),
            }
        }
    }
}

/// How the writes of one shard are carried out.
pub open spec fn plan_one(
    entry: (u64, Seq<usize>),
    writes: Seq<Write>,
    shards: Seq<ShardStatus>,
    peers: Map<u64, Seq<char>>,
) -> Result<Plan, Seq<char>> {
    match shard_of(shards, entry.0) {
        None => Err(missing_shard(entry.0)),
        Some(shard) => if shard.is_local_primary {
            if all_mutate(writes) {
                Ok(Plan::StagedOnShard { shard_id: entry.0 })
            } else if all_set(writes) {
                Ok(Plan::MutationsOnShard { shard_id: entry.0, writes: entry.1 })
            } else {
                Ok(Plan::OneByOne)
            }
        } else if !all_mutate(writes) {
            Ok(Plan::OneByOne)
        } else {
            match primary_address(shard, peers) {
                Err(e) => Err(e),
                Ok(address) => Ok(
                    Plan::OnePeer {
                        batch: Away { address, shard_id: entry.0, writes: entry.1 },
                    },
                ),
            }
        },
    }
}

/// How the writes of a transaction are carried out, given by which shard gets which.
pub open spec fn plan_of(
    list: Seq<(u64, Seq<usize>)>,
    writes: Seq<Write>,
    shards: Seq<ShardStatus>,
    peers: Map<u64, Seq<char>>,
) -> Result<Plan, Seq<char>> {
    if list.len() == 0 || writes.len() == 0 {
        Ok(Plan::OneByOne)
    } else if list.len() == 1 {
        plan_one(list[0], writes, shards, peers)
    } else if !all_mutate(writes) {
        Ok(Plan::OneByOne)
    } else {
        match first_missing(list, shards, 0) {
            Some(shard_id) => Err(missing_shard(shard_id)),
            None => if all_local(list, shards) {
                if all_set(writes) {
                    Ok(Plan::Mutations)
                } else {
                    Ok(Plan::TwoPhase { locals: list, remotes: Seq::empty() })
                }
            } else {
                parted(list, shards, peers, 0, Seq::empty(), Seq::empty())
            },
        }
    }
}

proof fn lemma_all_local_parted(
    list: Seq<(u64, Seq<usize>)>,
    shards: Seq<ShardStatus>,
    peers: Map<u64, Seq<char>>,
    i: int,
)
    requires
        0 <= i <= list.len(),
        all_local(list, shards),
    ensures
        parted(list, shards, peers, i, list.take(i), Seq::empty()) == Ok::<Plan, Seq<char>>(
            Plan::TwoPhase { locals: list, remotes: Seq::empty() },
        ),
    decreases list.len() - i,
{
    if i < list.len() {
        assert(list.take(i + 1) =~= list.take(i).push(list[i]));
        lemma_all_local_parted(list, shards, peers, i + 1);
    } else {
        assert(list.take(i) =~= list);
    }
}

proof fn lemma_first_missing(list: Seq<(u64, Seq<usize>)>, shards: Seq<ShardStatus>, i: int)
    requires
        0 <= i <= list.len(),
        first_missing(list, shards, i) is None,
    ensures
        forall|j: int| i <= j < list.len() ==> shard_of(shards, (#[trigger] list[j]).0) is Some,
    decreases list.len() - i,
{
    if i < list.len() {
        lemma_first_missing(list, shards, i + 1);
    }
}

fn check_shards_are_known(targets: &TargetWrites, shards: &[ShardStatus]) -> (r: Option<String>)
    requires
        targets.well_formed(),
    ensures
        match first_missing(sorted(targets@), shards@, 0) {
            Some(s) => r is Some && r->Some_0@ == missing_shard(s),
            None => r is None,
        },
{
    let n: usize = targets.len();
    let mut i: usize = 0;
    while i < n
        invariant
            0 <= i <= n,
            n == targets.entries().len(),
            targets.entries() == sorted(targets@),
            first_missing(sorted(targets@), shards@, 0) == first_missing(
                sorted(targets@),
                shards@,
                i as int,
            ),
        decreases n - i,
    {
        if find_shard(shards, targets.shard_at(i)).is_none() {
            return Some(show_missing_shard(targets.shard_at(i)));
        }
        i = i + 1;
    }
    None
}

fn part_batches(
    targets: &TargetWrites,
    shards: &[ShardStatus],
    peers: &QueryPeerStore,
) -> (r: Result<(Vec<LocalBatch>, Vec<RemoteBatch>), String>)
    requires
        targets.well_formed(),
        peers.well_formed(),
        first_missing(sorted(targets@), shards@, 0) is None,
    ensures
        match r {
            Ok((locals, remotes)) => parted(
                sorted(targets@),
                shards@,
                peers@,
                0,
                Seq::empty(),
                Seq::empty(),
            ) == Ok::<Plan, Seq<char>>(
                (Plan::TwoPhase { locals: homes(locals@), remotes: aways(remotes@) }),
            ) && (remotes@.len() == 0 <==> all_local(sorted(targets@), shards@)),
            Err(e) => parted(sorted(targets@), shards@, peers@, 0, Seq::empty(), Seq::empty())
                == Err::<Plan, Seq<char>>(e@),
        },
{
    let n: usize = targets.len();
    let ghost list = sorted(targets@);
    proof {
        lemma_first_missing(list, shards@, 0);
    }
    let mut locals: Vec<LocalBatch> = Vec::new();
    let mut remotes: Vec<RemoteBatch> = Vec::new();
    let mut i: usize = 0;
    assert(homes(locals@) =~= Seq::<(u64, Seq<usize>)>::empty());
    assert(aways(remotes@) =~= Seq::<Away>::empty());
    while i < n
        invariant
            0 <= i <= n,
            n == targets.entries().len(),
            list == targets.entries(),
            list == sorted(targets@),
            peers.well_formed(),
            forall|j: int|
                0 <= j < list.len() ==> shard_of(shards@, (#[trigger] list[j]).0) is Some,
            remotes@.len() == 0 <==> (forall|j: int|
                0 <= j < i ==> shard_of(
                    shards@,
                    (#[trigger] list[j]).0,
                ).unwrap().is_local_primary),
            parted(list, shards@, peers@, 0, Seq::empty(), Seq::empty()) == parted(
                list,
                shards@,
                peers@,
                i as int,
                homes(locals@),
                aways(remotes@),
            ),
        decreases n - i,
    {
        let shard_id: u64 = targets.shard_at(i);
        let writes = targets.writes_at(i);
        assert(list[i as int] == (shard_id, writes@));
        match find_shard(shards, shard_id) {
            None => {
                return Err(show_missing_shard(shard_id));
            },
            Some(shard) => {
                if shard.is_local_primary {
                    let ghost before = locals@;
                    let batch = LocalBatch { shard_id, writes };
                    locals.push(batch);
                    assert(homes(locals@) =~= homes(before).push((shard_id, writes@)));
                } else {
                    match find_primary_address(shard, peers) {
                        Err(e) => return Err(e),
                        Ok(address) => {
                            let ghost before = remotes@;
                            let ghost away = Away { address: address@, shard_id, writes: writes@ };
                            remotes.push(RemoteBatch { address, shard_id, writes });
                            assert(aways(remotes@) =~= aways(before).push(away));
                            assert(!shard_of(
                                shards@,
                                list[i as int].0,
                            ).unwrap().is_local_primary);
                        },
                    }
                }
            },
        }
        i = i + 1;
    }
    Ok((locals, remotes))
}

/// Decides how the writes of a transaction are carried out.
pub fn commit_plan(
    targets: &TargetWrites,
    staged_writes: &[StagedWrite],
    shards: &[ShardStatus],
    peers: &QueryPeerStore,
) -> (r: Result<CommitPlan, String>)
    requires
        targets.well_formed(),
        peers.well_formed(),
    ensures
        match r {
            Ok(p) => plan_of(
                sorted(targets@),
                write_views(staged_writes@),
                shards@,
                peers@,
            ) == Ok::<Plan, Seq<char>>(p@),
            Err(e) => plan_of(sorted(targets@), write_views(staged_writes@), shards@, peers@)
                == Err::<Plan, Seq<char>>(e@),
        },
{
    let n: usize = targets.len();
    let ghost list = sorted(targets@);
    assert(write_views(staged_writes@).len() == staged_writes@.len());
    if n == 0 || staged_writes.len() == 0 {
        return Ok(CommitPlan::OneByOne);
    }
    let mutate = staged_writes_are_prepare_batchable(staged_writes);
    if n == 1 {
        let shard_id: u64 = targets.shard_at(0);
        let writes = targets.writes_at(0);
        let shard = match find_shard(shards, shard_id) {
            None => return Err(show_missing_shard(shard_id)),
            Some(s) => s,
        };
        if shard.is_local_primary {
            if mutate {
                return Ok(CommitPlan::StagedOnShard { shard_id });
            }
            if staged_writes_only_set(staged_writes) {
                return Ok(CommitPlan::MutationsOnShard { shard_id, writes });
            }
            return Ok(CommitPlan::OneByOne);
        }
        if !mutate {
            return Ok(CommitPlan::OneByOne);
        }
        return match find_primary_address(shard, peers) {
            Err(e) => Err(e),
            Ok(address) => Ok(
                CommitPlan::OnePeer { batch: RemoteBatch { address, shard_id, writes } },
            ),
        };
    }
    if !mutate {
        return Ok(CommitPlan::OneByOne);
    }
    if let Some(e) = check_shards_are_known(targets, shards) {
        return Err(e);
    }
    proof {
        if all_local(list, shards@) {
            lemma_all_local_parted(list, shards@, peers@, 0);
            assert(list.take(0) =~= Seq::<(u64, Seq<usize>)>::empty());
        }
    }
    match part_batches(targets, shards, peers) {
        Err(e) => Err(e),
        Ok((locals, remotes)) => {
            if remotes.len() == 0 && staged_writes_only_set(staged_writes) {
                return Ok(CommitPlan::Mutations);
            }
            Ok(CommitPlan::TwoPhase { locals, remotes })
        },
    }
}

/// What is known when a transaction is committed: of the cluster when the shards of the
/// writes are looked up, the version of its routing when the transaction is closed, and again
/// of the cluster when the way of the commit is chosen; and what the storage says of each
/// write.
pub struct CommitFacts {
    pub at_targets: Result<ClusterStatus, String>,
    pub at_close: Result<u64, String>,
    pub at_plan: Result<ClusterStatus, String>,
    pub writes: Vec<WriteFacts>,
}

/// A transaction that is closed, with how its writes are to be carried out; one that only
/// read has none.
pub struct CommitStart {
    pub writes: Vec<StagedWrite>,
    pub plan: CommitPlan,
}

/// How it is told that the routing has changed since a transaction began.
pub open spec fn stale_epoch(tx_epoch: u64, current: u64) -> Seq<char> {
    "ERR\tSTALE_EPOCH\ttx_epoch="@ + dec(tx_epoch as nat) + "\tcurrent_epoch="@ + dec(
        current as nat,
    ) + "\trouting_version="@ + dec(current as nat) + "\townership_epoch="@ + dec(current as nat)
        + "\tretryable=true"@
}

fn show_stale_epoch(tx_epoch: u64, current: u64) -> (r: String)
    ensures
        r@ == stale_epoch(tx_epoch, current),
{
    let now = show(current as u128);
    let mut r = "ERR\tSTALE_EPOCH\ttx_epoch=".to_owned();
    r.append(show(tx_epoch as u128).as_str());
    r.append("\tcurrent_epoch=");
    r.append(now.as_str());
    r.append("\trouting_version=");
    r.append(now.as_str());
    r.append("\townership_epoch=");
    r.append(now.as_str());
    r.append("\tretryable=true");
    r
}

/// The shards of the writes of a transaction, or why it cannot be committed and stays open.
pub open spec fn commit_targets(t: Txn, facts: CommitFacts) -> Result<
    Map<u64, Seq<usize>>,
    Seq<char>,
> {
    match facts.at_targets {
        Err(e) => Err(e@),
        Ok(status) => match by_shard(t.writes, facts.writes@, status.shards@, 0, Map::empty()) {
            Err(e) => Err(e),
            Ok(m) => if sorted(m).len() > 1 && !all_mutate(t.writes) {
                Err(
                    "multi-shard read-write transaction commit currently requires prepare-batchable CREATE, MERGE, SET, REMOVE, or DELETE writes"@,
                )
            } else {
                Ok(m)
            },
        },
    }
}

/// How the writes of a transaction are carried out that is closed to be committed.
pub open spec fn closed_plan(
    t: Txn,
    m: Map<u64, Seq<usize>>,
    facts: CommitFacts,
    peers: Map<u64, Seq<char>>,
) -> Result<Plan, Seq<char>> {
    if t.mode is ReadOnly {
        Ok(Plan::OneByOne)
    } else {
        match facts.at_close {
            Err(e) => Err(e@),
            Ok(current) => if t.ownership_epoch != current {
                Err(stale_epoch(t.ownership_epoch, current))
            } else if sorted(m).len() == 0 || t.writes.len() == 0 {
                Ok(Plan::OneByOne)
            } else {
                match facts.at_plan {
                    Err(e) => Err(e@),
                    Ok(status) => plan_of(sorted(m), t.writes, status.shards@, peers),
                }
            },
        }
    }
}

/// Begins the commit of a transaction. It stays open where the shards of its writes cannot be
/// found or their writes cannot be carried out together; otherwise it is closed, whatever comes
/// of the commit.
pub fn begin_commit(
    store: &mut TransactionStore,
    session_id: u64,
    tx_id: u64,
    facts: &CommitFacts,
    peers: &QueryPeerStore,
) -> (r: Result<CommitStart, String>)
    requires
        old(store).well_formed(),
        peers.well_formed(),
        open_in(old(store)@, session_id, tx_id) is Some ==> facts.writes@.len() == open_in(
            old(store)@,
            session_id,
            tx_id,
        ).unwrap().writes.len(),
    ensures
        final(store).well_formed(),
        final(store).last_id() == old(store).last_id(),
        final(store).last_session() == old(store).last_session(),
        match open_in(old(store)@, session_id, tx_id) {
            None => r is Err && r->Err_0@ == unknown_transaction(tx_id) && final(store)@ == old(store)@,
            Some(t) => match commit_targets(t, *facts) {
                Err(e) => r is Err && r->Err_0@ == e && final(store)@ == old(store)@,
                Ok(m) => final(store)@ == old(store)@.remove(tx_id) && match closed_plan(
                    t,
                    m,
                    *facts,
                    peers@,
                ) {
                    Err(e) => r is Err && r->Err_0@ == e,
                    Ok(p) => r is Ok && r->Ok_0.plan@ == p && write_views(r->Ok_0.writes@)
                        == t.writes && writes_well_formed(r->Ok_0.writes@),
                },
            },
        },
{
    let writes = match store.staged_writes(session_id, tx_id) {
        Err(e) => return Err(e),
        Ok(w) => w,
    };
    assert(write_views(writes@).len() == writes@.len());
    let targets = match &facts.at_targets {
        Err(e) => return Err(e.as_str().to_owned()),
        Ok(status) => match writes_by_target_shard(
            writes.as_slice(),
            facts.writes.as_slice(),
            status.shards.as_slice(),
        ) {
            Err(e) => return Err(e),
            Ok(t) => t,
        },
    };
    let count: usize = targets.len();
    if count > 1 && !staged_writes_are_prepare_batchable(writes.as_slice()) {
        return Err(
            "multi-shard read-write transaction commit currently requires prepare-batchable CREATE, MERGE, SET, REMOVE, or DELETE writes".to_owned(),
        );
    }
    let tx = match store.close(session_id, tx_id) {
        Err(e) => return Err(e),
        Ok(t) => t,
    };
    if let TransactionMode::ReadOnly = tx.mode {
        return Ok(CommitStart { writes, plan: CommitPlan::OneByOne });
    }
    let current: u64 = match &facts.at_close {
        Err(e) => return Err(e.as_str().to_owned()),
        Ok(n) => *n,
    };
    if tx.ownership_epoch != current {
        return Err(show_stale_epoch(tx.ownership_epoch, current));
    }
    if count == 0 || writes.len() == 0 {
        return Ok(CommitStart { writes, plan: CommitPlan::OneByOne });
    }
    match &facts.at_plan {
        Err(e) => Err(e.as_str().to_owned()),
        Ok(status) => match commit_plan(
            &targets,
            writes.as_slice(),
            status.shards.as_slice(),
            peers,
        ) {
            Err(e) => Err(e),
            Ok(plan) => Ok(CommitStart { writes, plan }),
        },
    }
}

/// A transaction that began under another routing is never carried out.
pub proof fn stale_transactions_are_not_committed(
    t: Txn,
    m: Map<u64, Seq<usize>>,
    facts: CommitFacts,
    peers: Map<u64, Seq<char>>,
)
    requires
        t.mode is ReadWrite,
        facts.at_close is Ok,
        facts.at_close->Ok_0 != t.ownership_epoch,
    ensures
        closed_plan(t, m, facts, peers) == Err::<Plan, Seq<char>>(
            stale_epoch(t.ownership_epoch, facts.at_close->Ok_0),
        ),
{
}

/// Writes to several shards are carried out one by one only where they do not all change
/// data, which no commit gets past: what the commit of a transaction does to several shards
/// it does to all of them together.
pub proof fn several_shards_commit_together(
    t: Txn,
    facts: CommitFacts,
    peers: Map<u64, Seq<char>>,
)
    requires
        t.mode is ReadWrite,
        commit_targets(t, facts) is Ok,
        sorted(commit_targets(t, facts)->Ok_0).len() > 1,
        t.writes.len() > 0,
        closed_plan(t, commit_targets(t, facts)->Ok_0, facts, peers) is Ok,
    ensures
        closed_plan(t, commit_targets(t, facts)->Ok_0, facts, peers)->Ok_0 is TwoPhase
            || closed_plan(t, commit_targets(t, facts)->Ok_0, facts, peers)->Ok_0 is Mutations,
{
    let m = commit_targets(t, facts)->Ok_0;
    let list = sorted(m);
    let status = facts.at_plan->Ok_0;
    if first_missing(list, status.shards@, 0) is None && !all_local(list, status.shards@) {
        lemma_parted_is_two_phase(list, status.shards@, peers, 0, Seq::empty(), Seq::empty());
    }
}

proof fn lemma_parted_is_two_phase(
    list: Seq<(u64, Seq<usize>)>,
    shards: Seq<ShardStatus>,
    peers: Map<u64, Seq<char>>,
    i: int,
    locals: Seq<(u64, Seq<usize>)>,
    remotes: Seq<Away>,
)
    requires
        0 <= i <= list.len(),
    ensures
        parted(list, shards, peers, i, locals, remotes) is Ok ==> parted(
            list,
            shards,
            peers,
            i,
            locals,
            remotes,
        )->Ok_0 is TwoPhase,
    decreases list.len() - i,
{
    if i < list.len() {
        let shard = shard_of(shards, list[i].0).unwrap();
        if shard.is_local_primary {
            lemma_parted_is_two_phase(list, shards, peers, i + 1, locals.push(list[i]), remotes);
        } else if primary_address(shard, peers) is Ok {
            let address = primary_address(shard, peers)->Ok_0;
            lemma_parted_is_two_phase(
                list,
                shards,
                peers,
                i + 1,
                locals,
                remotes.push(Away { address, shard_id: list[i].0, writes: list[i].1 }),
            );
        }
    }
}

/// How a commit is told.
pub open spec fn committed_text(tx_id: u64, writes: nat) -> Seq<char> {
    if writes == 0 {
        "OK\tTX_COMMIT\t"@ + dec(tx_id as nat)
    } else {
        "OK\tTX_COMMIT\t"@ + dec(tx_id as nat) + "\t"@ + dec(writes)
    }
}

/// Tells of a commit.
pub fn format_committed(tx_id: u64, writes: usize) -> (r: String)
    ensures
        r@ == committed_text(tx_id, writes as nat),
{
    let mut r = cat("OK\tTX_COMMIT\t", show(tx_id as u128).as_str());
    if writes > 0 {
        r.append("\t");
        r.append(show(writes as u128).as_str());
    }
    r
}

} // verus!
