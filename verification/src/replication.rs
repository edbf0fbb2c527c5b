//! What servers tell of replication, and which shards they have to catch up with.

use vstd::prelude::*;

use crate::commit::{under, TargetWrites};
use crate::cluster::{format_shard_id_list, shard_list, ClusterStatus, ShardStatus};
use crate::json::{bool_text, dec_all, show_bool, show_each};
use crate::model::{primary_of, ReplicationChannelKind, ShardPlacement, ShardRoutingTable};
use crate::peers::{format_query_peers, peers_text, QueryPeerStore};
use crate::ranking::{ranked, sort_by_rank, Ranked};
use crate::routing::names_server;
use crate::table::{lemma_as_map, lemma_sorted, sorted, Table};
use crate::text::{cat, cat3, dec, join, join_with, lemma_views_push, show, views};

verus! {

/// Tells whether a server holds a shard.
pub fn has_server(placement: &ShardPlacement, server_id: u64) -> (r: bool)
    ensures
        r == names_server(placement.replicas@, server_id),
{
    let mut i: usize = 0;
    while i < placement.replicas.len()
        invariant
            0 <= i <= placement.replicas@.len(),
            forall|j: int| 0 <= j < i ==> (#[trigger] placement.replicas@[j]).server_id != server_id,
        decreases placement.replicas@.len() - i,
    {
        if placement.replicas[i].server_id == server_id {
            return true;
        }
        i = i + 1;
    }
    false
}

/// The shards that a server is the primary of.
pub open spec fn shards_led(placements: Seq<ShardPlacement>, server_id: u64) -> Seq<u64>
    decreases placements.len(),
{
    if placements.len() == 0 {
        Seq::empty()
    } else if primary_of(placements.last().replicas@) == Some(server_id) {
        shards_led(placements.drop_last(), server_id).push(placements.last().shard_id)
    } else {
        shards_led(placements.drop_last(), server_id)
    }
}

/// The shards that a server holds without being their primary.
pub open spec fn shards_followed(placements: Seq<ShardPlacement>, server_id: u64) -> Seq<u64>
    decreases placements.len(),
{
    if placements.len() == 0 {
        Seq::empty()
    } else if primary_of(placements.last().replicas@) != Some(server_id) && names_server(
        placements.last().replicas@,
        server_id,
    ) {
        shards_followed(placements.drop_last(), server_id).push(placements.last().shard_id)
    } else {
        shards_followed(placements.drop_last(), server_id)
    }
}

/// What is told of a server that this one replicates with.
pub struct ReplicationPeerStatusEntry {
    pub server_id: u64,
    pub address: Option<String>,
    pub primary_shards: Vec<u64>,
    pub replica_shards: Vec<u64>,
}

/// The contents of what is told of a server.
pub struct PeerStatus {
    pub server_id: u64,
    pub address: Option<Seq<char>>,
    pub led: Seq<u64>,
    pub followed: Seq<u64>,
}

impl ReplicationPeerStatusEntry {
    pub open spec fn view(&self) -> PeerStatus {
        PeerStatus {
            server_id: self.server_id,
            address: crate::http::opt_text(self.address),
            led: self.primary_shards@,
            followed: self.replica_shards@,
        }
    }
}

/// The contents of what is told of servers.
pub open spec fn status_views(s: Seq<ReplicationPeerStatusEntry>) -> Seq<PeerStatus> {
    s.map_values(|e: ReplicationPeerStatusEntry| e@)
}

/// What is told of a server.
pub open spec fn peer_status(
    placements: Seq<ShardPlacement>,
    peers: Map<u64, Seq<char>>,
    server_id: u64,
) -> PeerStatus {
    PeerStatus {
        server_id,
        address: if peers.dom().contains(server_id) {
            Some(peers[server_id])
        } else {
            None
        },
        led: shards_led(placements, server_id),
        followed: shards_followed(placements, server_id),
    }
}

/// Whether one of the first placements names a server.
pub open spec fn named_among(placements: Seq<ShardPlacement>, n: int, server_id: u64) -> bool {
    exists|p: int|
        0 <= p < n && names_server((#[trigger] placements[p]).replicas@, server_id)
}

/// The servers that are told of: the one that is asked for, or else those with an address and
/// the others that hold shards.
pub open spec fn servers_told(
    placements: Seq<ShardPlacement>,
    peers: Map<u64, Seq<char>>,
    local: u64,
    asked: Option<u64>,
) -> Map<u64, ()> {
    Map::new(
        |k: u64|
            match asked {
                Some(id) => k == id,
                None => peers.dom().contains(k) || (k != local && named_among(
                    placements,
                    placements.len() as int,
                    k,
                )),
            },
        |k: u64| (),
    )
}

fn insert_replicas(servers: &mut Table<()>, placement: &ShardPlacement, local: u64)
    requires
        old(servers).well_formed(),
    ensures
        final(servers).well_formed(),
        forall|k: u64| #[trigger]
            final(servers)@.dom().contains(k) <==> old(servers)@.dom().contains(k) || (k != local
                && names_server(placement.replicas@, k)),
{
    let mut j: usize = 0;
    let ghost before = servers@;
    while j < placement.replicas.len()
        invariant
            0 <= j <= placement.replicas@.len(),
            servers.well_formed(),
            forall|k: u64| #[trigger]
                servers@.dom().contains(k) <==> before.dom().contains(k) || (k != local && exists|
                    q: int,
                |
                    0 <= q < j && (#[trigger] placement.replicas@[q]).server_id == k),
        decreases placement.replicas@.len() - j,
    {
        let id: u64 = placement.replicas[j].server_id;
        let ghost now = servers@;
        if id != local {
            servers.insert(id, ());
        }
        assert forall|k: u64| #[trigger] servers@.dom().contains(k) <==> before.dom().contains(k)
            || (k != local && exists|q: int|
            0 <= q < j + 1 && (#[trigger] placement.replicas@[q]).server_id == k) by {
            if servers@.dom().contains(k) && !before.dom().contains(k) {
                if now.dom().contains(k) {
                    let q = choose|q: int|
                        0 <= q < j && (#[trigger] placement.replicas@[q]).server_id == k;
                    assert(placement.replicas@[q].server_id == k);
                } else {
                    assert(placement.replicas@[j as int].server_id == k);
                }
            }
            if k != local && exists|q: int|
                0 <= q < j + 1 && (#[trigger] placement.replicas@[q]).server_id == k {
                let q = choose|q: int|
                    0 <= q < j + 1 && (#[trigger] placement.replicas@[q]).server_id == k;
                if q < j {
                    assert(now.dom().contains(k));
                }
            }
        }
        j = j + 1;
    }
}

fn find_servers(
    placements: &[ShardPlacement],
    peers: &QueryPeerStore,
    local: u64,
    asked: Option<u64>,
) -> (servers: Table<()>)
    requires
        peers.well_formed(),
    ensures
        servers.well_formed(),
        servers@ == servers_told(placements@, peers@, local, asked),
{
    let mut servers: Table<()> = Table::new();
    if let Some(id) = asked {
        servers.insert(id, ());
        assert(servers@ =~= servers_told(placements@, peers@, local, asked));
        return servers;
    }
    let list = peers.list();
    let ghost all = sorted(peers@);
    let mut i: usize = 0;
    while i < list.len()
        invariant
            0 <= i <= list@.len(),
            all == crate::peers::address_views(list@),
            servers.well_formed(),
            forall|k: u64| #[trigger]
                servers@.dom().contains(k) <==> exists|q: int|
                    0 <= q < i && (#[trigger] all[q]).0 == k,
        decreases list@.len() - i,
    {
        let ghost now = servers@;
        assert(all[i as int].0 == list@[i as int].0);
        servers.insert(list[i].0, ());
        assert forall|k: u64| #[trigger] servers@.dom().contains(k) <==> exists|q: int|
            0 <= q < i + 1 && (#[trigger] all[q]).0 == k by {
            if servers@.dom().contains(k) {
                if now.dom().contains(k) {
                    let q = choose|q: int| 0 <= q < i && (#[trigger] all[q]).0 == k;
                    assert(all[q].0 == k);
                } else {
                    assert(all[i as int].0 == k);
                }
            }
            if exists|q: int| 0 <= q < i + 1 && (#[trigger] all[q]).0 == k {
                let q = choose|q: int| 0 <= q < i + 1 && (#[trigger] all[q]).0 == k;
                if q < i {
                    assert(now.dom().contains(k));
                }
            }
        }
        i = i + 1;
    }
    proof {
        peers.lemma_sorted_entries();
        lemma_as_map(all);
    }
    assert forall|k: u64| #[trigger] servers@.dom().contains(k) <==> peers@.dom().contains(k) by {
        if servers@.dom().contains(k) {
            let q = choose|q: int| 0 <= q < all.len() && (#[trigger] all[q]).0 == k;
            assert(peers@.dom().contains(all[q].0));
        }
        if peers@.dom().contains(k) {
            let q = choose|q: int| 0 <= q < all.len() && (#[trigger] all[q]).0 == k;
            assert(all[q].0 == k);
        }
    }
    let mut p: usize = 0;
    while p < placements.len()
        invariant
            0 <= p <= placements@.len(),
            servers.well_formed(),
            forall|k: u64| #[trigger]
                servers@.dom().contains(k) <==> peers@.dom().contains(k) || (k != local
                    && named_among(placements@, p as int, k)),
        decreases placements@.len() - p,
    {
        let ghost now = servers@;
        insert_replicas(&mut servers, &placements[p], local);
        assert forall|k: u64| #[trigger] servers@.dom().contains(k) <==> peers@.dom().contains(k)
            || (k != local && named_among(placements@, p + 1, k)) by {
            if names_server(placements@[p as int].replicas@, k) {
                assert(named_among(placements@, p + 1, k));
            }
            if named_among(placements@, p as int, k) {
                let q = choose|q: int|
                    0 <= q < p && names_server((#[trigger] placements@[q]).replicas@, k);
                assert(names_server(placements@[q].replicas@, k));
            }
            if named_among(placements@, p + 1, k) {
                let q = choose|q: int|
                    0 <= q < p + 1 && names_server((#[trigger] placements@[q]).replicas@, k);
                if q < p {
                    assert(named_among(placements@, p as int, k));
                }
            }
        }
        p = p + 1;
    }
    assert(servers@ =~= servers_told(placements@, peers@, local, asked));
    servers
}

fn tell_server(placements: &[ShardPlacement], peers: &QueryPeerStore, server_id: u64) -> (r:
    ReplicationPeerStatusEntry)
    requires
        peers.well_formed(),
    ensures
        r@ == peer_status(placements@, peers@, server_id),
{
    let mut primary_shards: Vec<u64> = Vec::new();
    let mut replica_shards: Vec<u64> = Vec::new();
    let mut i: usize = 0;
    assert(primary_shards@ =~= shards_led(placements@.take(0), server_id));
    assert(replica_shards@ =~= shards_followed(placements@.take(0), server_id));
    while i < placements.len()
        invariant
            0 <= i <= placements@.len(),
            primary_shards@ == shards_led(placements@.take(i as int), server_id),
            replica_shards@ == shards_followed(placements@.take(i as int), server_id),
        decreases placements@.len() - i,
    {
        assert(placements@.take(i + 1).drop_last() =~= placements@.take(i as int));
        assert(placements@.take(i + 1).last() == placements@[i as int]);
        let leads = match placements[i].primary_server_id() {
            Some(id) => id == server_id,
            None => false,
        };
        if leads {
            primary_shards.push(placements[i].shard_id);
        } else if has_server(&placements[i], server_id) {
            replica_shards.push(placements[i].shard_id);
        }
        i = i + 1;
    }
    assert(placements@.take(placements@.len() as int) =~= placements@);
    ReplicationPeerStatusEntry {
        server_id,
        address: peers.address(server_id),
        primary_shards,
        replica_shards,
    }
}

/// What is told of each of some servers.
pub open spec fn statuses(
    placements: Seq<ShardPlacement>,
    peers: Map<u64, Seq<char>>,
    servers: Seq<(u64, ())>,
) -> Seq<PeerStatus> {
    servers.map_values(|e: (u64, ())| peer_status(placements, peers, e.0))
}

/// Tells of the servers that this one replicates with, in the order of their numbers.
pub fn replication_peer_status(
    routing_table: &ShardRoutingTable,
    local_server_id: u64,
    replication_peers: &QueryPeerStore,
    server_id: Option<u64>,
) -> (r: Vec<ReplicationPeerStatusEntry>)
    requires
        replication_peers.well_formed(),
    ensures
        status_views(r@) == statuses(
            routing_table.placements@,
            replication_peers@,
            sorted(
                servers_told(
                    routing_table.placements@,
                    replication_peers@,
                    local_server_id,
                    server_id,
                ),
            ),
        ),
{
    let placements = routing_table.placements.as_slice();
    let servers = find_servers(placements, replication_peers, local_server_id, server_id);
    proof {
        lemma_sorted(servers.entries());
    }
    let ghost all = statuses(placements@, replication_peers@, servers.entries());
    let mut r: Vec<ReplicationPeerStatusEntry> = Vec::new();
    let mut i: usize = 0;
    assert(status_views(r@) =~= all.take(0));
    while i < servers.len()
        invariant
            0 <= i <= servers.entries().len(),
            replication_peers.well_formed(),
            all == statuses(placements@, replication_peers@, servers.entries()),
            status_views(r@) == all.take(i as int),
        decreases servers.entries().len() - i,
    {
        let ghost before = r@;
        let e = tell_server(placements, replication_peers, servers.key_at(i));
        assert(all[i as int] == e@);
        r.push(e);
        assert(status_views(r@) =~= status_views(before).push(e@));
        assert(all.take(i + 1) =~= all.take(i as int).push(e@));
        i = i + 1;
    }
    assert(all.take(all.len() as int) =~= all);
    r
}

/// What is told of a server, in words.
pub open spec fn peer_status_text(e: PeerStatus) -> Seq<char> {
    "server="@ + dec(e.server_id as nat) + " address="@ + (match e.address {
        Some(a) => a,
        None => "missing"@,
    }) + " primary_shards="@ + shard_list(e.led) + " replica_shards="@ + shard_list(e.followed)
}

/// What is told of servers, in words.
pub open spec fn peer_status_texts(s: Seq<PeerStatus>) -> Seq<Seq<char>> {
    s.map_values(|e: PeerStatus| peer_status_text(e))
}

/// Writes what is told of servers.
pub fn format_replication_peer_status(entries: &[ReplicationPeerStatusEntry]) -> (r: String)
    ensures
        r@ == join(peer_status_texts(status_views(entries@)), ","@),
{
    let mut parts: Vec<String> = Vec::new();
    let mut i: usize = 0;
    let ghost all = peer_status_texts(status_views(entries@));
    assert(views(parts@) =~= all.take(0));
    while i < entries.len()
        invariant
            0 <= i <= entries@.len(),
            all == peer_status_texts(status_views(entries@)),
            views(parts@) == all.take(i as int),
        decreases entries@.len() - i,
    {
        let mut part = "server=".to_owned();
        part.append(show(entries[i].server_id as u128).as_str());
        part.append(" address=");
        match &entries[i].address {
            Some(a) => {
                part.append(a.as_str());
            },
            None => {
                part.append("missing");
            },
        }
        part.append(" primary_shards=");
        part.append(format_shard_id_list(entries[i].primary_shards.as_slice()).as_str());
        part.append(" replica_shards=");
        part.append(format_shard_id_list(entries[i].replica_shards.as_slice()).as_str());
        assert(all[i as int] == part@);
        proof {
            lemma_views_push(parts@, part);
        }
        parts.push(part);
        assert(all.take(i + 1) =~= all.take(i as int).push(part@));
        i = i + 1;
    }
    assert(all.take(all.len() as int) =~= all);
    join_with(parts.as_slice(), ",")
}

/// Texts with bars between them, or a word where there are none.
pub open spec fn barred(parts: Seq<Seq<char>>) -> Seq<char> {
    if parts.len() == 0 {
        "none"@
    } else {
        join(parts, "|"@)
    }
}

fn show_barred(parts: &[String]) -> (r: String)
    ensures
        r@ == barred(views(parts@)),
{
    assert(views(parts@).len() == parts@.len());
    if parts.len() == 0 {
        "none".to_owned()
    } else {
        join_with(parts, "|")
    }
}

/// How far servers have come, in words.
pub open spec fn match_texts(s: Seq<(u64, u64)>) -> Seq<Seq<char>> {
    s.map_values(|m: (u64, u64)| dec(m.0 as nat) + ":"@ + dec(m.1 as nat))
}

/// How far a server has come, from the `i`-th entry on.
pub open spec fn match_of(s: Seq<(u64, u64)>, server_id: u64, i: int) -> Option<u64>
    decreases s.len() - i,
{
    if i < 0 || i >= s.len() {
        None
    } else if s[i].0 == server_id {
        Some(s[i].1)
    } else {
        match_of(s, server_id, i + 1)
    }
}

/// How much a server lacks of what is committed, in words.
pub open spec fn lag_text(s: ShardStatus, server_id: u64) -> Seq<char> {
    match match_of(s.match_indexes@, server_id, 0) {
        Some(index) => dec(server_id as nat) + ":"@ + dec(
            if s.committed_index > index {
                (s.committed_index - index) as nat
            } else {
                0
            },
        ),
        None => dec(server_id as nat) + ":unknown"@,
    }
}

/// How much the replicas of a shard lack, in words.
pub open spec fn lag_texts(s: ShardStatus) -> Seq<Seq<char>> {
    s.replica_server_ids@.map_values(|id: u64| lag_text(s, id))
}

fn show_matches(s: &[(u64, u64)]) -> (parts: Vec<String>)
    ensures
        views(parts@) == match_texts(s@),
{
    let mut parts: Vec<String> = Vec::new();
    let mut i: usize = 0;
    let ghost all = match_texts(s@);
    assert(views(parts@) =~= all.take(0));
    while i < s.len()
        invariant
            0 <= i <= s@.len(),
            all == match_texts(s@),
            views(parts@) == all.take(i as int),
        decreases s@.len() - i,
    {
        let mut part = show(s[i].0 as u128);
        part.append(":");
        part.append(show(s[i].1 as u128).as_str());
        assert(all[i as int] == part@);
        proof {
            lemma_views_push(parts@, part);
        }
        parts.push(part);
        assert(all.take(i + 1) =~= all.take(i as int).push(part@));
        i = i + 1;
    }
    assert(all.take(all.len() as int) =~= all);
    parts
}

fn show_lag(s: &ShardStatus, server_id: u64) -> (r: String)
    ensures
        r@ == lag_text(*s, server_id),
{
    let list = &s.match_indexes;
    let mut i: usize = 0;
    while i < list.len()
        invariant
            0 <= i <= list@.len(),
            list@ == s.match_indexes@,
            match_of(list@, server_id, 0) == match_of(list@, server_id, i as int),
        decreases list@.len() - i,
    {
        if list[i].0 == server_id {
            let index: u64 = list[i].1;
            let lag: u64 = if s.committed_index > index {
                s.committed_index - index
            } else {
                0
            };
            let mut r = show(server_id as u128);
            r.append(":");
            r.append(show(lag as u128).as_str());
            return r;
        }
        i = i + 1;
    }
    let mut r = show(server_id as u128);
    r.append(":unknown");
    r
}

fn show_lags(s: &ShardStatus) -> (parts: Vec<String>)
    ensures
        views(parts@) == lag_texts(*s),
{
    let mut parts: Vec<String> = Vec::new();
    let mut i: usize = 0;
    let ghost all = lag_texts(*s);
    assert(views(parts@) =~= all.take(0));
    while i < s.replica_server_ids.len()
        invariant
            0 <= i <= s.replica_server_ids@.len(),
            all == lag_texts(*s),
            views(parts@) == all.take(i as int),
        decreases s.replica_server_ids@.len() - i,
    {
        let part = show_lag(s, s.replica_server_ids[i]);
        assert(all[i as int] == part@);
        proof {
            lemma_views_push(parts@, part);
        }
        parts.push(part);
        assert(all.take(i + 1) =~= all.take(i as int).push(part@));
        i = i + 1;
    }
    assert(all.take(all.len() as int) =~= all);
    parts
}

/// What is told of a shard, in words.
pub open spec fn shard_status_text(s: ShardStatus) -> Seq<char> {
    "shard:"@ + dec(s.shard_id as nat) + ":primary="@ + (match s.primary_server_id {
        Some(id) => dec(id as nat),
        None => "none"@,
    }) + ":replicas="@ + barred(dec_all(s.replica_server_ids@)) + ":local="@ + bool_text(
        s.has_local_copy,
    ) + ":local_primary="@ + bool_text(s.is_local_primary) + ":applied="@ + dec(
        s.applied_index as nat,
    ) + ":committed="@ + dec(s.committed_index as nat) + ":match="@ + barred(
        match_texts(s.match_indexes@),
    ) + ":lag="@ + barred(lag_texts(s))
}

/// Writes what is told of a shard.
pub fn format_replication_shard_status(status: &ShardStatus) -> (r: String)
    ensures
        r@ == shard_status_text(*status),
{
    let primary = match status.primary_server_id {
        Some(id) => show(id as u128),
        None => "none".to_owned(),
    };
    let mut r = "shard:".to_owned();
    r.append(show(status.shard_id as u128).as_str());
    r.append(":primary=");
    r.append(primary.as_str());
    r.append(":replicas=");
    r.append(show_barred(show_each(status.replica_server_ids.as_slice()).as_slice()).as_str());
    r.append(":local=");
    r.append(show_bool(status.has_local_copy));
    r.append(":local_primary=");
    r.append(show_bool(status.is_local_primary));
    r.append(":applied=");
    r.append(show(status.applied_index as u128).as_str());
    r.append(":committed=");
    r.append(show(status.committed_index as u128).as_str());
    r.append(":match=");
    r.append(show_barred(show_matches(status.match_indexes.as_slice()).as_slice()).as_str());
    r.append(":lag=");
    r.append(show_barred(show_lags(status).as_slice()).as_str());
    r
}

/// What is told of shards, in words.
pub open spec fn shard_status_texts(s: Seq<ShardStatus>) -> Seq<Seq<char>> {
    s.map_values(|e: ShardStatus| shard_status_text(e))
}

/// What is told of the replication of a server, in words.
pub open spec fn replication_text(status: ClusterStatus, peers: Map<u64, Seq<char>>) -> Seq<char> {
    "server="@ + dec(status.server_id as nat) + " routing_version="@ + dec(
        status.routing_version as nat,
    ) + " peers="@ + (if sorted(peers).len() == 0 {
        "none"@
    } else {
        peers_text(sorted(peers))
    }) + " shards="@ + join(shard_status_texts(status.shards@), ","@)
}

/// Tells of the replication of a server.
pub fn replication_status(status: &ClusterStatus, replication_peers: &QueryPeerStore) -> (r: String)
    requires
        replication_peers.well_formed(),
    ensures
        r@ == replication_text(*status, replication_peers@),
{
    let list = replication_peers.list();
    assert(crate::peers::address_views(list@).len() == list@.len());
    let peers = if list.len() == 0 {
        "none".to_owned()
    } else {
        format_query_peers(list.as_slice())
    };
    let mut parts: Vec<String> = Vec::new();
    let mut i: usize = 0;
    let ghost all = shard_status_texts(status.shards@);
    assert(views(parts@) =~= all.take(0));
    while i < status.shards.len()
        invariant
            0 <= i <= status.shards@.len(),
            all == shard_status_texts(status.shards@),
            views(parts@) == all.take(i as int),
        decreases status.shards@.len() - i,
    {
        let part = format_replication_shard_status(&status.shards[i]);
        assert(all[i as int] == part@);
        proof {
            lemma_views_push(parts@, part);
        }
        parts.push(part);
        assert(all.take(i + 1) =~= all.take(i as int).push(part@));
        i = i + 1;
    }
    assert(all.take(all.len() as int) =~= all);
    let mut r = "server=".to_owned();
    r.append(show(status.server_id as u128).as_str());
    r.append(" routing_version=");
    r.append(show(status.routing_version as u128).as_str());
    r.append(" peers=");
    r.append(peers.as_str());
    r.append(" shards=");
    r.append(join_with(parts.as_slice(), ",").as_str());
    r
}

/// A shard that this server has to catch up with, from where on, and whether the address of
/// its primary is known.
#[derive(Clone, Copy)]
pub struct CatchUpPlanEntry {
    pub shard_id: u64,
    pub primary_server_id: u64,
    pub start_index: u64,
    pub peer_registered: bool,
}

impl Ranked for CatchUpPlanEntry {
    open spec fn rank(&self) -> (u64, u64) {
        (self.primary_server_id, self.shard_id)
    }

    fn rank_of(&self) -> (r: (u64, u64)) {
        (self.primary_server_id, self.shard_id)
    }
}

/// From where on a shard is caught up with: behind what is committed of it here.
pub open spec fn start_of(committed: Seq<u64>, shard_id: u64) -> Result<u64, Seq<char>> {
    if shard_id < committed.len() {
        Ok((committed[shard_id as int] + 1) as u64)
    } else {
        Err("missing committed index for shard "@ + dec(shard_id as nat))
    }
}

fn find_start(committed: &[u64], shard_id: u64) -> (r: Result<u64, String>)
    requires
        forall|i: int| 0 <= i < committed@.len() ==> #[trigger] committed@[i] < u64::MAX,
    ensures
        match r {
            Ok(n) => start_of(committed@, shard_id) == Ok::<u64, Seq<char>>(n),
            Err(e) => start_of(committed@, shard_id) == Err::<u64, Seq<char>>(e@),
        },
{
    if shard_id < committed.len() as u64 {
        Ok(committed[shard_id as usize] + 1)
    } else {
        Err(cat("missing committed index for shard ", show(shard_id as u128).as_str()))
    }
}

/// Which shards of the placements from the `i`-th on have to be caught up with: those that
/// this server holds and another is the primary of, and of these, where a server is asked for,
/// only its own.
pub open spec fn to_catch_up(
    placements: Seq<ShardPlacement>,
    local: u64,
    peers: Map<u64, Seq<char>>,
    committed: Seq<u64>,
    asked: Option<u64>,
    i: int,
    found: Seq<CatchUpPlanEntry>,
) -> Result<Seq<CatchUpPlanEntry>, Seq<char>>
    decreases placements.len() - i,
{
    if i < 0 || i >= placements.len() {
        Ok(found)
    } else {
        let p = placements[i];
        if !names_server(p.replicas@, local) {
            to_catch_up(placements, local, peers, committed, asked, i + 1, found)
        } else {
            match primary_of(p.replicas@) {
                None => Err("missing primary for shard "@ + dec(p.shard_id as nat)),
                Some(primary) => if (asked is Some && asked != Some(primary)) || primary == local {
                    to_catch_up(placements, local, peers, committed, asked, i + 1, found)
                } else {
                    match start_of(committed, p.shard_id) {
                        Err(e) => Err(e),
                        Ok(start_index) => to_catch_up(
                            placements,
                            local,
                            peers,
                            committed,
                            asked,
                            i + 1,
                            found.push(
                                CatchUpPlanEntry {
                                    shard_id: p.shard_id,
                                    primary_server_id: primary,
                                    start_index,
                                    peer_registered: peers.dom().contains(primary),
                                },
                            ),
                        ),
                    }
                },
            }
        }
    }
}

/// Plans which shards have to be caught up with, in the order of their primaries.
pub fn catch_up_plan(
    routing_table: &ShardRoutingTable,
    local_server_id: u64,
    replication_peers: &QueryPeerStore,
    committed_indexes: &[u64],
    server_id: Option<u64>,
) -> (r: Result<Vec<CatchUpPlanEntry>, String>)
    requires
        replication_peers.well_formed(),
        forall|i: int|
            0 <= i < committed_indexes@.len() ==> #[trigger] committed_indexes@[i] < u64::MAX,
    ensures
        match to_catch_up(
            routing_table.placements@,
            local_server_id,
            replication_peers@,
            committed_indexes@,
            server_id,
            0,
            Seq::empty(),
        ) {
            Ok(found) => r is Ok && r->Ok_0@ == ranked(found),
            Err(e) => r is Err && r->Err_0@ == e,
        },
{
    let placements = routing_table.placements.as_slice();
    let mut found: Vec<CatchUpPlanEntry> = Vec::new();
    let mut i: usize = 0;
    while i < placements.len()
        invariant
            0 <= i <= placements@.len(),
            placements@ == routing_table.placements@,
            replication_peers.well_formed(),
            forall|j: int|
                0 <= j < committed_indexes@.len() ==> #[trigger] committed_indexes@[j] < u64::MAX,
            to_catch_up(
                placements@,
                local_server_id,
                replication_peers@,
                committed_indexes@,
                server_id,
                0,
                Seq::empty(),
            ) == to_catch_up(
                placements@,
                local_server_id,
                replication_peers@,
                committed_indexes@,
                server_id,
                i as int,
                found@,
            ),
        decreases placements@.len() - i,
    {
        let p = &placements[i];
        if has_server(p, local_server_id) {
            let primary: u64 = match p.primary_server_id() {
                None => {
                    return Err(
                        cat("missing primary for shard ", show(p.shard_id as u128).as_str()),
                    );
                },
                Some(n) => n,
            };
            let other = match server_id {
                Some(asked) => asked != primary,
                None => false,
            };
            if !other && primary != local_server_id {
                let start_index: u64 = match find_start(committed_indexes, p.shard_id) {
                    Err(e) => return Err(e),
                    Ok(n) => n,
                };
                found.push(
                    CatchUpPlanEntry {
                        shard_id: p.shard_id,
                        primary_server_id: primary,
                        start_index,
                        peer_registered: replication_peers.address(primary).is_some(),
                    },
                );
            }
        }
        i = i + 1;
    }
    Ok(sort_by_rank(found))
}

/// Whether a shard is caught up with from a server, and from where on.
pub open spec fn caught_up_from(
    p: ShardPlacement,
    local: u64,
    committed: Seq<u64>,
    server_id: u64,
) -> Result<Option<u64>, Seq<char>> {
    if !names_server(p.replicas@, local) || primary_of(p.replicas@) != Some(server_id) || server_id
        == local {
        Ok(None)
    } else {
        match start_of(committed, p.shard_id) {
            Err(e) => Err(e),
            Ok(n) => Ok(Some(n)),
        }
    }
}

/// Tells whether a shard is caught up with from a server, and from where on.
pub fn catch_up_start(
    placement: &ShardPlacement,
    local_server_id: u64,
    committed_indexes: &[u64],
    server_id: u64,
) -> (r: Result<Option<u64>, String>)
    requires
        forall|i: int|
            0 <= i < committed_indexes@.len() ==> #[trigger] committed_indexes@[i] < u64::MAX,
    ensures
        match r {
            Ok(n) => caught_up_from(
                *placement,
                local_server_id,
                committed_indexes@,
                server_id,
            ) == Ok::<Option<u64>, Seq<char>>(n),
            Err(e) => caught_up_from(*placement, local_server_id, committed_indexes@, server_id)
                == Err::<Option<u64>, Seq<char>>(e@),
        },
{
    if !has_server(placement, local_server_id) {
        return Ok(None);
    }
    let leads = match placement.primary_server_id() {
        Some(id) => id == server_id,
        None => false,
    };
    if !leads || server_id == local_server_id {
        return Ok(None);
    }
    match find_start(committed_indexes, placement.shard_id) {
        Err(e) => Err(e),
        Ok(n) => Ok(Some(n)),
    }
}

/// The address of a primary that is to be caught up with.
pub fn catch_up_address(replication_peers: &QueryPeerStore, server_id: u64) -> (r: Result<
    String,
    String,
>)
    requires
        replication_peers.well_formed(),
    ensures
        if replication_peers@.dom().contains(server_id) {
            r is Ok && r->Ok_0@ == replication_peers@[server_id]
        } else {
            r is Err && r->Err_0@ == "missing peer address for primary server "@ + dec(
                server_id as nat,
            )
        },
{
    match replication_peers.address(server_id) {
        Some(a) => Ok(a),
        None => Err(
            cat("missing peer address for primary server ", show(server_id as u128).as_str()),
        ),
    }
}

/// The address of a server that is asked for its index catalog.
pub fn catalog_address(query_peers: &QueryPeerStore, server_id: u64) -> (r: Result<String, String>)
    requires
        query_peers.well_formed(),
    ensures
        if query_peers@.dom().contains(server_id) {
            r is Ok && r->Ok_0@ == query_peers@[server_id]
        } else {
            r is Err && r->Err_0@ == "missing query peer address for server "@ + dec(
                server_id as nat,
            )
        },
{
    match query_peers.address(server_id) {
        Some(a) => Ok(a),
        None => Err(
            cat("missing query peer address for server ", show(server_id as u128).as_str()),
        ),
    }
}

/// The last entry that was fetched: the one before the first where none was.
pub open spec fn end_of(start_index: u64, fetched: usize) -> int {
    let end = if start_index + fetched > u64::MAX {
        u64::MAX as int
    } else {
        start_index + fetched
    };
    if end == 0 {
        0
    } else {
        end - 1
    }
}

/// Tells the last entry that was fetched.
pub fn catch_up_end_index(start_index: u64, fetched_entries: usize) -> (r: u64)
    ensures
        r == end_of(start_index, fetched_entries),
{
    start_index.saturating_add(fetched_entries as u64).saturating_sub(1)
}

/// A shard that was caught up with.
#[derive(Clone, Copy)]
pub struct CatchUpResult {
    pub shard_id: u64,
    pub primary_server_id: u64,
    pub start_index: u64,
    pub end_index: u64,
    pub fetched_entries: usize,
}

/// The first shard of the placements from the `i`-th on that is caught up with from a server:
/// the place of the shard, and from where on. Before it, nothing may be missing.
pub open spec fn next_to_catch_up(
    placements: Seq<ShardPlacement>,
    i: int,
    local: u64,
    committed: Seq<u64>,
    server_id: u64,
) -> Result<Option<(int, u64)>, Seq<char>>
    decreases placements.len() - i,
{
    if i < 0 || i >= placements.len() {
        Ok(None)
    } else {
        match caught_up_from(placements[i], local, committed, server_id) {
            Err(e) => Err(e),
            Ok(Some(start)) => Ok(Some((i, start))),
            Ok(None) => next_to_catch_up(placements, i + 1, local, committed, server_id),
        }
    }
}

/// Shards that are being caught up with from their primary, one after the other.
pub struct CatchUpRun {
    pub placements: Vec<ShardPlacement>,
    pub local_server_id: u64,
    pub server_id: u64,
    pub committed_indexes: Vec<u64>,
    /// How many of the placements were looked at.
    pub seen: usize,
    pub results: Vec<CatchUpResult>,
}

impl CatchUpRun {
    pub open spec fn well_formed(&self) -> bool {
        &&& self.seen <= self.placements@.len()
        &&& forall|i: int|
            0 <= i < self.committed_indexes@.len() ==> #[trigger] self.committed_indexes@[i]
                < u64::MAX
    }

    /// Nothing but what was looked at and what came of it differs.
    pub open spec fn goes_on(&self, before: &Self) -> bool {
        &&& self.placements == before.placements
        &&& self.local_server_id == before.local_server_id
        &&& self.server_id == before.server_id
        &&& self.committed_indexes == before.committed_indexes
    }

    /// Starts to catch up with what a server is the primary of; gives its address, too.
    pub fn new(
        routing_table: ShardRoutingTable,
        local_server_id: u64,
        replication_peers: &QueryPeerStore,
        committed_indexes: Vec<u64>,
        server_id: u64,
    ) -> (r: Result<(Self, String), String>)
        requires
            replication_peers.well_formed(),
            forall|i: int|
                0 <= i < committed_indexes@.len() ==> #[trigger] committed_indexes@[i] < u64::MAX,
        ensures
            if replication_peers@.dom().contains(server_id) {
                &&& r is Ok
                &&& r->Ok_0.1@ == replication_peers@[server_id]
                &&& r->Ok_0.0 == (CatchUpRun {
                    placements: routing_table.placements,
                    local_server_id,
                    server_id,
                    committed_indexes,
                    seen: 0,
                    results: r->Ok_0.0.results,
                })
                &&& r->Ok_0.0.results@ == Seq::<CatchUpResult>::empty()
                &&& r->Ok_0.0.well_formed()
            } else {
                r is Err && r->Err_0@ == "missing peer address for primary server "@ + dec(
                    server_id as nat,
                )
            },
    {
        match catch_up_address(replication_peers, server_id) {
            Err(e) => Err(e),
            Ok(address) => Ok(
                (
                    CatchUpRun {
                        placements: routing_table.placements,
                        local_server_id,
                        server_id,
                        committed_indexes,
                        seen: 0,
                        results: Vec::new(),
                    },
                    address,
                ),
            ),
        }
    }

    /// Finds the next shard that is caught up with, and from where on; nothing, if there is none
    /// left.
    pub fn next(&mut self) -> (r: Result<Option<(u64, u64)>, String>)
        requires
            old(self).well_formed(),
        ensures
            final(self).well_formed(),
            final(self).goes_on(old(self)),
            final(self).results == old(self).results,
            match next_to_catch_up(
                old(self).placements@,
                old(self).seen as int,
                old(self).local_server_id,
                old(self).committed_indexes@,
                old(self).server_id,
            ) {
                Err(e) => r is Err && r->Err_0@ == e,
                Ok(None) => r == Ok::<Option<(u64, u64)>, String>(None) && final(self).seen
                    == final(self).placements@.len(),
                Ok(Some((i, start))) => r is Ok && r->Ok_0 == Some(
                    (old(self).placements@[i].shard_id, start),
                ) && final(self).seen == i,
            },
    {
        let ghost first = self.seen as int;
        let ghost wanted = next_to_catch_up(
            self.placements@,
            first,
            self.local_server_id,
            self.committed_indexes@,
            self.server_id,
        );
        while self.seen < self.placements.len()
            invariant
                self.well_formed(),
                self.goes_on(old(self)),
                self.results == old(self).results,
                wanted == next_to_catch_up(
                    old(self).placements@,
                    old(self).seen as int,
                    old(self).local_server_id,
                    old(self).committed_indexes@,
                    old(self).server_id,
                ),
                wanted == next_to_catch_up(
                    self.placements@,
                    self.seen as int,
                    self.local_server_id,
                    self.committed_indexes@,
                    self.server_id,
                ),
            decreases self.placements@.len() - self.seen,
        {
            let at: usize = self.seen;
            match catch_up_start(
                &self.placements[at],
                self.local_server_id,
                self.committed_indexes.as_slice(),
                self.server_id,
            ) {
                Err(e) => return Err(e),
                Ok(Some(start)) => return Ok(Some((self.placements[at].shard_id, start))),
                Ok(None) => {
                    self.seen = at + 1;
                },
            }
        }
        Ok(None)
    }

    /// Takes how many entries were fetched of the shard that was found last.
    pub fn fetched(&mut self, start_index: u64, fetched_entries: usize)
        requires
            old(self).well_formed(),
            old(self).seen < old(self).placements@.len(),
        ensures
            final(self).well_formed(),
            final(self).goes_on(old(self)),
            final(self).seen == old(self).seen + 1,
            final(self).results@ == old(self).results@.push(
                (CatchUpResult {
                    shard_id: old(self).placements@[old(self).seen as int].shard_id,
                    primary_server_id: old(self).server_id,
                    start_index,
                    end_index: end_of(start_index, fetched_entries) as u64,
                    fetched_entries,
                }),
            ),
    {
        let at: usize = self.seen;
        assert(at < self.placements.len());
        self.results.push(
            CatchUpResult {
                shard_id: self.placements[at].shard_id,
                primary_server_id: self.server_id,
                start_index,
                end_index: catch_up_end_index(start_index, fetched_entries),
                fetched_entries,
            },
        );
        self.seen = at + 1;
    }
}

/// A shard of a plan, in words.
pub open spec fn plan_entry_text(e: CatchUpPlanEntry) -> Seq<char> {
    "shard="@ + dec(e.shard_id as nat) + " primary="@ + dec(e.primary_server_id as nat)
        + " start="@ + dec(e.start_index as nat) + " peer="@ + (if e.peer_registered {
        "registered"@
    } else {
        "missing"@
    })
}

/// The shards of a plan, in words.
pub open spec fn plan_entry_texts(s: Seq<CatchUpPlanEntry>) -> Seq<Seq<char>> {
    s.map_values(|e: CatchUpPlanEntry| plan_entry_text(e))
}

/// Writes a plan.
pub fn format_catch_up_plan(entries: &[CatchUpPlanEntry]) -> (r: String)
    ensures
        r@ == join(plan_entry_texts(entries@), ","@),
{
    let mut parts: Vec<String> = Vec::new();
    let mut i: usize = 0;
    let ghost all = plan_entry_texts(entries@);
    assert(views(parts@) =~= all.take(0));
    while i < entries.len()
        invariant
            0 <= i <= entries@.len(),
            all == plan_entry_texts(entries@),
            views(parts@) == all.take(i as int),
        decreases entries@.len() - i,
    {
        let mut part = "shard=".to_owned();
        part.append(show(entries[i].shard_id as u128).as_str());
        part.append(" primary=");
        part.append(show(entries[i].primary_server_id as u128).as_str());
        part.append(" start=");
        part.append(show(entries[i].start_index as u128).as_str());
        part.append(" peer=");
        part.append(
            if entries[i].peer_registered {
                "registered"
            } else {
                "missing"
            },
        );
        assert(all[i as int] == part@);
        proof {
            lemma_views_push(parts@, part);
        }
        parts.push(part);
        assert(all.take(i + 1) =~= all.take(i as int).push(part@));
        i = i + 1;
    }
    assert(all.take(all.len() as int) =~= all);
    join_with(parts.as_slice(), ",")
}

/// A shard that was caught up with, in words.
pub open spec fn caught_up_text(e: CatchUpResult) -> Seq<char> {
    "shard="@ + dec(e.shard_id as nat) + " primary="@ + dec(e.primary_server_id as nat)
        + " start="@ + dec(e.start_index as nat) + " end="@ + dec(e.end_index as nat)
        + " fetched="@ + dec(e.fetched_entries as nat)
}

/// The shards that were caught up with, in words.
pub open spec fn caught_up_texts(s: Seq<CatchUpResult>) -> Seq<Seq<char>> {
    s.map_values(|e: CatchUpResult| caught_up_text(e))
}

/// Writes which shards were caught up with.
pub fn format_catch_up_results(results: &[CatchUpResult]) -> (r: String)
    ensures
        r@ == join(caught_up_texts(results@), ","@),
{
    let mut parts: Vec<String> = Vec::new();
    let mut i: usize = 0;
    let ghost all = caught_up_texts(results@);
    assert(views(parts@) =~= all.take(0));
    while i < results.len()
        invariant
            0 <= i <= results@.len(),
            all == caught_up_texts(results@),
            views(parts@) == all.take(i as int),
        decreases results@.len() - i,
    {
        let mut part = "shard=".to_owned();
        part.append(show(results[i].shard_id as u128).as_str());
        part.append(" primary=");
        part.append(show(results[i].primary_server_id as u128).as_str());
        part.append(" start=");
        part.append(show(results[i].start_index as u128).as_str());
        part.append(" end=");
        part.append(show(results[i].end_index as u128).as_str());
        part.append(" fetched=");
        part.append(show(results[i].fetched_entries as u128).as_str());
        assert(all[i as int] == part@);
        proof {
            lemma_views_push(parts@, part);
        }
        parts.push(part);
        assert(all.take(i + 1) =~= all.take(i as int).push(part@));
        i = i + 1;
    }
    assert(all.take(all.len() as int) =~= all);
    join_with(parts.as_slice(), ",")
}

/// How a server is reached for replication.
pub enum ReplicationEndpoint {
    Tcp { address: String },
    Udp { address: String, max_datagram: usize },
}

/// How a server is reached for replication over a transport; without one, over TCP.
pub fn replication_endpoint(address: String, transport: Option<ReplicationChannelKind>) -> (r: Result<
    ReplicationEndpoint,
    String,
>)
    ensures
        match transport {
            None | Some(ReplicationChannelKind::Tcp) => r == Ok::<ReplicationEndpoint, String>(
                ReplicationEndpoint::Tcp { address },
            ),
            Some(ReplicationChannelKind::Udp) => r == Ok::<ReplicationEndpoint, String>(
                ReplicationEndpoint::Udp { address, max_datagram: 1200 },
            ),
            Some(ReplicationChannelKind::Rdma) => r is Err && r->Err_0@
                == "rdma replication endpoints require an rdma-enabled provider boundary"@,
            Some(ReplicationChannelKind::Custom) => r is Err && r->Err_0@
                == "custom replication endpoints require an explicit provider boundary"@,
        },
{
    match transport {
        None => Ok(ReplicationEndpoint::Tcp { address }),
        Some(ReplicationChannelKind::Tcp) => Ok(ReplicationEndpoint::Tcp { address }),
        Some(ReplicationChannelKind::Udp) => Ok(
            ReplicationEndpoint::Udp { address, max_datagram: 1200 },
        ),
        Some(ReplicationChannelKind::Rdma) => Err(
            "rdma replication endpoints require an rdma-enabled provider boundary".to_owned(),
        ),
        Some(ReplicationChannelKind::Custom) => Err(
            "custom replication endpoints require an explicit provider boundary".to_owned(),
        ),
    }
}

/// What is wrong with a peer: it is this server itself.
pub open spec fn identity_problem(local: u64, server_id: u64, node_id: Option<u64>) -> Option<
    Seq<char>,
> {
    if server_id == local {
        Some("replication peer "@ + dec(server_id as nat) + " cannot point to local server"@)
    } else if node_id == Some(local) {
        Some("replication peer node_id "@ + dec(local as nat) + " cannot point to local server"@)
    } else {
        None
    }
}

/// Checks that a peer is not this server itself.
pub fn validate_replication_peer_identity(local_server_id: u64, server_id: u64, node_id: Option<
    u64,
>) -> (r: Result<(), String>)
    ensures
        match r {
            Ok(_) => identity_problem(local_server_id, server_id, node_id) is None,
            Err(e) => identity_problem(local_server_id, server_id, node_id) == Some(e@),
        },
{
    if server_id == local_server_id {
        return Err(
            cat3(
                "replication peer ",
                show(server_id as u128).as_str(),
                " cannot point to local server",
            ),
        );
    }
    let points_here = match node_id {
        Some(n) => n == local_server_id,
        None => false,
    };
    if points_here {
        return Err(
            cat3(
                "replication peer node_id ",
                show(local_server_id as u128).as_str(),
                " cannot point to local server",
            ),
        );
    }
    Ok(())
}

/// A server never plans to catch up with itself, nor with a shard that it does not hold.
pub proof fn nothing_is_caught_up_from_oneself(
    placements: Seq<ShardPlacement>,
    local: u64,
    peers: Map<u64, Seq<char>>,
    committed: Seq<u64>,
    asked: Option<u64>,
    i: int,
    found: Seq<CatchUpPlanEntry>,
)
    requires
        0 <= i <= placements.len(),
        to_catch_up(placements, local, peers, committed, asked, i, found) is Ok,
        forall|j: int|
            0 <= j < found.len() ==> (#[trigger] found[j]).primary_server_id != local
                && held_by(placements, found[j].shard_id, local),
    ensures
        forall|j: int|
            #![trigger to_catch_up(placements, local, peers, committed, asked, i, found)->Ok_0[j]]
            0 <= j < to_catch_up(
                placements,
                local,
                peers,
                committed,
                asked,
                i,
                found,
            )->Ok_0.len() ==> to_catch_up(
                placements,
                local,
                peers,
                committed,
                asked,
                i,
                found,
            )->Ok_0[j].primary_server_id != local && held_by(
                placements,
                to_catch_up(placements, local, peers, committed, asked, i, found)->Ok_0[j].shard_id,
                local,
            ),
    decreases placements.len() - i,
{
    if i < placements.len() {
        let p = placements[i];
        if names_server(p.replicas@, local) {
            assert(held_by(placements, p.shard_id, local)) by {
                assert(placements[i].shard_id == p.shard_id);
            }
            let primary = primary_of(p.replicas@).unwrap();
            if (asked is Some && asked != Some(primary)) || primary == local {
                nothing_is_caught_up_from_oneself(
                    placements,
                    local,
                    peers,
                    committed,
                    asked,
                    i + 1,
                    found,
                );
            } else {
                let e = CatchUpPlanEntry {
                    shard_id: p.shard_id,
                    primary_server_id: primary,
                    start_index: start_of(committed, p.shard_id)->Ok_0,
                    peer_registered: peers.dom().contains(primary),
                };
                let more = found.push(e);
                assert forall|j: int| 0 <= j < more.len() implies (
                #[trigger] more[j]).primary_server_id != local && held_by(
                    placements,
                    more[j].shard_id,
                    local,
                ) by {
                    if j < found.len() {
                        assert(more[j] == found[j]);
                    }
                }
                nothing_is_caught_up_from_oneself(
                    placements,
                    local,
                    peers,
                    committed,
                    asked,
                    i + 1,
                    more,
                );
            }
        } else {
            nothing_is_caught_up_from_oneself(
                placements,
                local,
                peers,
                committed,
                asked,
                i + 1,
                found,
            );
        }
    }
}

/// Whether a server holds a shard.
pub open spec fn held_by(placements: Seq<ShardPlacement>, shard_id: u64, server_id: u64) -> bool {
    exists|p: int|
        0 <= p < placements.len() && (#[trigger] placements[p]).shard_id == shard_id
            && names_server(placements[p].replicas@, server_id)
}

/// The places of a shard among the first `n` of a list.
pub open spec fn places_of(shards: Seq<u64>, shard_id: u64, n: int) -> Seq<usize>
    decreases n,
{
    if n <= 0 {
        Seq::empty()
    } else if shards[n - 1] == shard_id {
        places_of(shards, shard_id, n - 1).push((n - 1) as usize)
    } else {
        places_of(shards, shard_id, n - 1)
    }
}

/// Puts entries of the log under their shards, each shard in the order of the log. An entry is
/// named by its place; the list gives the shard of each.
pub fn entries_by_shard(shards: &[u64]) -> (r: TargetWrites)
    ensures
        r.well_formed(),
        forall|s: u64| #[trigger] r@.dom().contains(s) <==> shards@.contains(s),
        forall|s: u64| #[trigger] under(r@, s) == places_of(shards@, s, shards@.len() as int),
{
    let mut t = TargetWrites::new();
    let mut i: usize = 0;
    while i < shards.len()
        invariant
            0 <= i <= shards@.len(),
            t.well_formed(),
            forall|s: u64| #[trigger]
                t@.dom().contains(s) <==> exists|j: int| 0 <= j < i && #[trigger] shards@[j] == s,
            forall|s: u64| #[trigger] under(t@, s) == places_of(shards@, s, i as int),
        decreases shards@.len() - i,
    {
        let ghost before = t@;
        t.push(shards[i], i);
        proof {
            assert forall|s: u64| #[trigger] t@.dom().contains(s) <==> exists|j: int|
                0 <= j < i + 1 && #[trigger] shards@[j] == s by {
                if s == shards@[i as int] {
                    assert(shards@[i as int] == s);
                } else {
                    assert(t@.dom().contains(s) == before.dom().contains(s));
                    if before.dom().contains(s) {
                        let j = choose|j: int| 0 <= j < i && #[trigger] shards@[j] == s;
                        assert(shards@[j] == s);
                    }
                }
            }
            assert forall|s: u64| #[trigger] under(t@, s) == places_of(shards@, s, i + 1) by {
                assert(under(before, s) == places_of(shards@, s, i as int));
            }
        }
        i = i + 1;
    }
    proof {
        assert forall|s: u64| #[trigger] t@.dom().contains(s) <==> shards@.contains(s) by {
            if shards@.contains(s) {
                let j = choose|j: int| 0 <= j < shards@.len() && shards@[j] == s;
                assert(shards@[j] == s);
            }
        }
    }
    t
}

} // verus!
