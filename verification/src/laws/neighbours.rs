//! What a server hears of others, and what it tells of them.

use vstd::prelude::*;

use crate::cluster::ShardStatus;
use crate::gossip::{
    addresses_after_hearing, after_hearing, after_members, alive_at, can_be_gossiped, is_address,
    is_news, member_node, node_problem, ClusterMember, GossipNode, Heard,
};
use crate::model::ShardPlacement;
use crate::routing::names_server;
use crate::replication::{
    identity_problem, lag_text, match_of, named_among, peer_status, servers_told, statuses,
};
use crate::text::{dec, trim};

verus! {

/// A node is alive for as long as it said, from when it was heard of; a node that did not say so
/// stays alive.
pub proof fn nodes_live_as_long_as_they_said(node: GossipNode, now_ms: u64)
    ensures
        node.ttl_ms == 0 ==> alive_at(node, now_ms),
        node.ttl_ms > 0 ==> (alive_at(node, now_ms) <==> now_ms <= node.seen_at_ms + node.ttl_ms),
{
}

/// A node is heard of where it has a number and two addresses, and where it is no older than what
/// is known of it; then it stands for its server, under its query address, and nothing else
/// changes.
pub proof fn news_of_a_node_replace_what_was_known(
    nodes: Map<u64, GossipNode>,
    addresses: Map<u64, Seq<char>>,
    node: GossipNode,
    k: u64,
)
    ensures
        ({
            let new = node.server_id > 0 && is_address(node.query_address) && is_address(
                node.replication_address,
            ) && (nodes.dom().contains(node.server_id) ==> nodes[node.server_id].incarnation
                <= node.incarnation);
            let then = after_hearing(nodes, node);
            let told = addresses_after_hearing(nodes, addresses, node);
            &&& new ==> then.dom().contains(node.server_id) && then[node.server_id] == node
            &&& new ==> told.dom().contains(node.server_id) && told[node.server_id]
                == node.query_address
            &&& !new ==> then == nodes && told == addresses
            &&& k != node.server_id ==> (then.dom().contains(k) <==> nodes.dom().contains(k))
                && then[k] == nodes[k]
            &&& k != node.server_id ==> (told.dom().contains(k) <==> addresses.dom().contains(k))
                && told[k] == addresses[k]
        }),
{
}

/// Hearing the same news twice changes nothing the second time.
pub proof fn news_are_heard_once(nodes: Map<u64, GossipNode>, node: GossipNode)
    ensures
        after_hearing(after_hearing(nodes, node), node) == after_hearing(nodes, node),
{
    assert(after_hearing(after_hearing(nodes, node), node) =~= after_hearing(nodes, node));
}

/// Of two pieces of news of one node the one with the greater incarnation stays, whichever comes
/// first.
pub proof fn order_of_news_does_not_matter(
    nodes: Map<u64, GossipNode>,
    a: GossipNode,
    b: GossipNode,
)
    requires
        a.incarnation != b.incarnation || a.server_id != b.server_id,
    ensures
        after_hearing(after_hearing(nodes, a), b) == after_hearing(after_hearing(nodes, b), a),
{
    assert(after_hearing(after_hearing(nodes, a), b) =~= after_hearing(
        after_hearing(nodes, b),
        a,
    ));
}

/// A member is told of unless it has departed.
pub proof fn departed_members_are_not_told_of(member: ClusterMember, version: u64, now_ms: u64)
    ensures
        can_be_gossiped(member.state) <==> !(member.state is Departed),
        ({
            let node = member_node(member, version, now_ms);
            &&& node.server_id == member.server_id && node.incarnation == version
            &&& node.query_address == member.address@ && node.replication_address
                == member.address@
            &&& node.seen_at_ms == now_ms && node.ttl_ms == 30_000
        }),
{
}

/// Whether a member is heard of.
pub open spec fn is_told_of(member: ClusterMember) -> bool {
    !(member.state is Departed) && trim(member.address@).len() > 0
}

/// Whether members can all be heard of.
pub open spec fn can_all_be_heard(
    members: Seq<ClusterMember>,
    version: u64,
    now_ms: u64,
) -> bool {
    forall|i: int|
        0 <= i < members.len() && is_told_of(#[trigger] members[i]) ==> node_problem(
            member_node(members[i], version, now_ms),
        ) is None
}

/// Hearing of all members ends well where each of them is as it should be. A member that was heard
/// of is known by what was heard last, or by something newer, and a server that is no member stays
/// as it was.
pub proof fn members_are_heard_of_one_by_one(
    heard: Heard,
    members: Seq<ClusterMember>,
    from: int,
    version: u64,
    now_ms: u64,
    k: u64,
)
    requires
        0 <= from <= members.len(),
        heard.problem is None,
        can_all_be_heard(members, version, now_ms),
    ensures
        ({
            let end = after_members(heard, members, from, version, now_ms);
            &&& end.problem is None
            &&& heard.nodes.dom().contains(k) ==> end.nodes.dom().contains(k)
                && end.nodes[k].incarnation >= heard.nodes[k].incarnation
            &&& (exists|i: int|
                from <= i < members.len() && is_told_of(#[trigger] members[i])
                    && members[i].server_id == k) ==> end.nodes.dom().contains(k)
                && end.nodes[k].incarnation >= version
            &&& !(exists|i: int|
                from <= i < members.len() && is_told_of(#[trigger] members[i])
                    && members[i].server_id == k) ==> end.nodes.dom().contains(k)
                == heard.nodes.dom().contains(k) && end.nodes[k] == heard.nodes[k]
                && end.addresses.dom().contains(k) == heard.addresses.dom().contains(k)
                && end.addresses[k] == heard.addresses[k]
            &&& heard.accepted <= end.accepted <= heard.accepted + (members.len() - from)
        }),
    decreases members.len() - from,
{
    if from < members.len() {
        let m = members[from];
        if !is_told_of(m) {
            members_are_heard_of_one_by_one(heard, members, from + 1, version, now_ms, k);
        } else {
            let node = member_node(m, version, now_ms);
            let next = Heard {
                nodes: after_hearing(heard.nodes, node),
                addresses: addresses_after_hearing(heard.nodes, heard.addresses, node),
                accepted: if is_news(heard.nodes, node) {
                    heard.accepted + 1
                } else {
                    heard.accepted
                },
                problem: None,
            };
            members_are_heard_of_one_by_one(next, members, from + 1, version, now_ms, k);
        }
        if exists|i: int|
            from <= i < members.len() && is_told_of(#[trigger] members[i]) && members[i].server_id
                == k {
            let i = choose|i: int|
                from <= i < members.len() && is_told_of(#[trigger] members[i])
                    && members[i].server_id == k;
            if i > from {
                assert(from + 1 <= i);
            }
        }
        if exists|i: int|
            from + 1 <= i < members.len() && is_told_of(#[trigger] members[i])
                && members[i].server_id == k {
            let i = choose|i: int|
                from + 1 <= i < members.len() && is_told_of(#[trigger] members[i])
                    && members[i].server_id == k;
            assert(from <= i);
        }
    }
}

/// What is told of a server: its address, where it has one, the shards that it leads and the shards
/// that it only holds.
pub proof fn servers_are_told_with_their_shards(
    placements: Seq<ShardPlacement>,
    peers: Map<u64, Seq<char>>,
    server_id: u64,
)
    ensures
        ({
            let told = peer_status(placements, peers, server_id);
            &&& told.server_id == server_id
            &&& told.address is Some <==> peers.dom().contains(server_id)
            &&& told.address is Some ==> told.address.unwrap() == peers[server_id]
        }),
{
}

/// Whether a server is told of where no one server is asked for: it has an address, or it holds a
/// shard and is another one.
pub open spec fn is_known_server(
    placements: Seq<ShardPlacement>,
    peers: Map<u64, Seq<char>>,
    local: u64,
    k: u64,
) -> bool {
    peers.dom().contains(k) || (k != local && exists|p: int, r: int|
        0 <= p < placements.len() && 0 <= r < placements[p].replicas@.len()
            && (#[trigger] placements[p].replicas@[r]).server_id == k)
}

/// All servers that have an address or hold a shard are told of, and no others; where one is asked
/// for, that one alone.
pub proof fn known_servers_are_told(
    placements: Seq<ShardPlacement>,
    peers: Map<u64, Seq<char>>,
    local: u64,
    asked: u64,
    k: u64,
)
    ensures
        servers_told(placements, peers, local, Some(asked)).dom().contains(k) <==> k == asked,
        servers_told(placements, peers, local, None).dom().contains(k) <==> is_known_server(
            placements,
            peers,
            local,
            k,
        ),
{
    if named_among(placements, placements.len() as int, k) {
        let p = choose|p: int|
            0 <= p < placements.len() && names_server((#[trigger] placements[p]).replicas@, k);
        let r = choose|r: int|
            0 <= r < placements[p].replicas@.len() && (#[trigger] placements[p].replicas@[r]).server_id
                == k;
        assert(placements[p].replicas@[r].server_id == k);
    }
    if exists|p: int, r: int|
        0 <= p < placements.len() && 0 <= r < placements[p].replicas@.len()
            && (#[trigger] placements[p].replicas@[r]).server_id == k {
        let (p, r) = choose|p: int, r: int|
            0 <= p < placements.len() && 0 <= r < placements[p].replicas@.len()
                && (#[trigger] placements[p].replicas@[r]).server_id == k;
        assert(names_server(placements[p].replicas@, k));
    }
}

/// Each of the servers is told of once, by its number, in order.
pub proof fn servers_are_told_in_order(
    placements: Seq<ShardPlacement>,
    peers: Map<u64, Seq<char>>,
    servers: Seq<(u64, ())>,
    i: int,
)
    requires
        0 <= i < servers.len(),
    ensures
        statuses(placements, peers, servers).len() == servers.len(),
        statuses(placements, peers, servers)[i] == peer_status(placements, peers, servers[i].0),
{
}

/// How far a copy is: what the first entry for its server says.
pub proof fn first_entry_says_how_far_a_copy_is(
    s: Seq<(u64, u64)>,
    server_id: u64,
    from: int,
    i: int,
)
    requires
        0 <= from <= i,
    ensures
        i < s.len() && s[i].0 == server_id && (forall|k: int|
            from <= k < i ==> (#[trigger] s[k]).0 != server_id) ==> match_of(s, server_id, from)
            == Some(s[i].1),
        (forall|k: int| from <= k < s.len() ==> (#[trigger] s[k]).0 != server_id) ==> match_of(
            s,
            server_id,
            from,
        ) is None,
    decreases s.len() - from,
{
    if from < s.len() {
        if i > from {
            first_entry_says_how_far_a_copy_is(s, server_id, from + 1, i);
        } else {
            first_entry_says_how_far_a_copy_is(s, server_id, from + 1, from + 1);
        }
    }
}

/// A copy lags by what is committed and has not reached it; a copy that is further lags by nothing.
pub proof fn copies_lag_by_what_has_not_reached_them(s: ShardStatus, server_id: u64, index: u64)
    requires
        match_of(s.match_indexes@, server_id, 0) == Some(index),
    ensures
        index <= s.committed_index ==> lag_text(s, server_id) == dec(server_id as nat) + ":"@ + dec(
            (s.committed_index - index) as nat,
        ),
        index >= s.committed_index ==> lag_text(s, server_id) == dec(server_id as nat) + ":"@ + dec(
            0,
        ),
{
}

/// A server is registered as a peer unless it is the local one, by its number or by its node.
pub proof fn servers_are_no_peers_of_themselves(local: u64, server_id: u64, node_id: Option<u64>)
    ensures
        identity_problem(local, server_id, node_id) is None <==> server_id != local && node_id
            != Some(local),
{
}

} // verus!
