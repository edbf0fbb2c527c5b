//! Which server is asked for a shard, and which shard a write goes to.

use vstd::prelude::*;

use crate::cluster::{
    first_reachable, forward_of, local_primary_problem, missing_shard, place_of, primary_address,
    query_target, shard_of, target_of, write_shards, ClusterStatus, Forward, ShardStatus, Target,
};
use crate::cypher::{is_create, is_merge};
use crate::model::{primary_of, QueryReadPreference, ShardReplica};

verus! {

proof fn lemma_first_reachable(servers: Seq<u64>, peers: Map<u64, Seq<char>>, i: int)
    requires
        0 <= i <= servers.len(),
    ensures
        match first_reachable(servers, peers, i) {
            Some(s) => exists|k: int|
                i <= k < servers.len() && s == #[trigger] servers[k] && peers.dom().contains(s)
                    && forall|j: int| i <= j < k ==> !peers.dom().contains(#[trigger] servers[j]),
            None => forall|j: int|
                i <= j < servers.len() ==> !peers.dom().contains(#[trigger] servers[j]),
        },
    decreases servers.len() - i,
{
    if i < servers.len() {
        if peers.dom().contains(servers[i]) {
            assert(servers[i] == first_reachable(servers, peers, i).unwrap());
        } else {
            lemma_first_reachable(servers, peers, i + 1);
            if let Some(s) = first_reachable(servers, peers, i + 1) {
                let k = choose|k: int|
                    i + 1 <= k < servers.len() && s == #[trigger] servers[k]
                        && peers.dom().contains(s) && forall|j: int|
                        i + 1 <= j < k ==> !peers.dom().contains(#[trigger] servers[j]);
                assert(s == servers[k]);
            }
        }
    }
}

/// A shard whose primary has an address can be read, whatever is preferred; and the server that
/// is asked is the primary or a replica of the shard, at its address.
pub proof fn shards_with_a_reachable_primary_can_be_read(
    peers: Map<u64, Seq<char>>,
    shard: ShardStatus,
    preference: QueryReadPreference,
)
    ensures
        shard.primary_server_id is Some && peers.dom().contains(shard.primary_server_id.unwrap())
            ==> query_target(peers, shard, preference) is Ok,
        query_target(peers, shard, preference) matches Ok((server, address))
            ==> peers.dom().contains(server) && address == peers[server] && (
        shard.primary_server_id == Some(server) || shard.replica_server_ids@.contains(server)),
{
    lemma_first_reachable(shard.replica_server_ids@, peers, 0);
}

/// Where the primary is preferred, no replica is asked: it is the primary, or nobody.
pub proof fn primaries_are_asked_where_they_are_preferred(
    peers: Map<u64, Seq<char>>,
    shard: ShardStatus,
    primary: u64,
)
    requires
        shard.primary_server_id == Some(primary),
    ensures
        peers.dom().contains(primary) ==> query_target(peers, shard, QueryReadPreference::Primary)
            == Ok::<(u64, Seq<char>), Seq<char>>((primary, peers[primary])),
        !peers.dom().contains(primary) ==> query_target(peers, shard, QueryReadPreference::Primary)
            is Err,
{
}

/// Where replicas are preferred, the first of them that has an address is asked, though the
/// shard has a primary; where none has, the primary is asked, and where it has none either, or
/// there is no primary, nobody.
pub proof fn first_reachable_replicas_are_asked_where_they_are_preferred(
    peers: Map<u64, Seq<char>>,
    shard: ShardStatus,
    k: int,
)
    ensures
        ({
            let replicas = shard.replica_server_ids@;
            let asked = query_target(peers, shard, QueryReadPreference::PreferReplica);
            &&& 0 <= k < replicas.len() && peers.dom().contains(replicas[k]) && (forall|j: int|
                0 <= j < k ==> !peers.dom().contains(#[trigger] replicas[j])) ==> asked == Ok::<
                (u64, Seq<char>),
                Seq<char>,
            >((replicas[k], peers[replicas[k]]))
            &&& (forall|j: int|
                0 <= j < replicas.len() ==> !peers.dom().contains(#[trigger] replicas[j]))
                ==> match shard.primary_server_id {
                Some(primary) => if peers.dom().contains(primary) {
                    asked == Ok::<(u64, Seq<char>), Seq<char>>((primary, peers[primary]))
                } else {
                    asked is Err
                },
                None => asked is Err,
            }
        }),
{
    let replicas = shard.replica_server_ids@;
    lemma_first_reachable(replicas, peers, 0);
    if let Some(s) = first_reachable(replicas, peers, 0) {
        let n = choose|n: int|
            0 <= n < replicas.len() && s == #[trigger] replicas[n] && peers.dom().contains(s)
                && forall|j: int| 0 <= j < n ==> !peers.dom().contains(#[trigger] replicas[j]);
        if 0 <= k < replicas.len() && peers.dom().contains(replicas[k]) && (forall|j: int|
            0 <= j < k ==> !peers.dom().contains(#[trigger] replicas[j])) {
            assert(peers.dom().contains(replicas[n]));
            assert(n == k);
        }
    }
}

proof fn lemma_place_of(shards: Seq<ShardStatus>, shard_id: u64, i: int)
    requires
        0 <= i <= shards.len(),
    ensures
        match place_of(shards, shard_id, i) {
            Some(k) => i <= k < shards.len() && shards[k].shard_id == shard_id && forall|j: int|
                i <= j < k ==> (#[trigger] shards[j]).shard_id != shard_id,
            None => forall|j: int|
                i <= j < shards.len() ==> (#[trigger] shards[j]).shard_id != shard_id,
        },
    decreases shards.len() - i,
{
    if i < shards.len() && shards[i].shard_id != shard_id {
        lemma_place_of(shards, shard_id, i + 1);
    }
}

/// What is known of a shard is found wherever it stands, and is of that shard; where a shard is
/// told of twice, the first holds.
pub proof fn shards_are_found_by_their_number(shards: Seq<ShardStatus>, k: int)
    requires
        0 <= k < shards.len(),
    ensures
        shard_of(shards, shards[k].shard_id) is Some,
        shard_of(shards, shards[k].shard_id).unwrap().shard_id == shards[k].shard_id,
        (forall|j: int| 0 <= j < k ==> (#[trigger] shards[j]).shard_id != shards[k].shard_id)
            ==> shard_of(shards, shards[k].shard_id) == Some(shards[k]),
{
    lemma_place_of(shards, shards[k].shard_id, 0);
}

/// Of a shard that is not told of, nothing is known.
pub proof fn untold_shards_are_unknown(shards: Seq<ShardStatus>, shard_id: u64)
    requires
        forall|j: int| 0 <= j < shards.len() ==> (#[trigger] shards[j]).shard_id != shard_id,
    ensures
        shard_of(shards, shard_id) is None,
        local_primary_problem(shards, shard_id) == Some(missing_shard(shard_id)),
{
    lemma_place_of(shards, shard_id, 0);
}

/// A write to a shard goes to its primary: it stays here exactly where this server is the
/// primary, and otherwise goes to the address of the server that is; where that has none, or
/// there is no primary, the write is not carried out.
pub proof fn writes_reach_the_primary_of_their_shard(
    shards: Seq<ShardStatus>,
    peers: Map<u64, Seq<char>>,
    k: int,
)
    requires
        0 <= k < shards.len(),
        forall|j: int| 0 <= j < k ==> (#[trigger] shards[j]).shard_id != shards[k].shard_id,
    ensures
        ({
            let s = shards[k];
            let t = target_of(shards, peers, s.shard_id);
            &&& s.is_local_primary ==> t == Ok::<Target, Seq<char>>(Target::Local)
                && local_primary_problem(shards, s.shard_id) is None
            &&& !s.is_local_primary ==> local_primary_problem(shards, s.shard_id) is Some
            &&& !s.is_local_primary && s.primary_server_id is None ==> t is Err
            &&& !s.is_local_primary && s.primary_server_id is Some && peers.dom().contains(
                s.primary_server_id.unwrap(),
            ) ==> t == Ok::<Target, Seq<char>>(
                Target::Remote(peers[s.primary_server_id.unwrap()]),
            ) && primary_address(s, peers) == Ok::<Seq<char>, Seq<char>>(
                peers[s.primary_server_id.unwrap()],
            )
            &&& !s.is_local_primary && s.primary_server_id is Some && !peers.dom().contains(
                s.primary_server_id.unwrap(),
            ) ==> t is Err && primary_address(s, peers) is Err
        }),
{
    shards_are_found_by_their_number(shards, k);
}

/// A request that writes to a shard is carried out by its primary: here where this server is the
/// primary, sent on where the primary has an address, and otherwise its sender is pointed to the
/// primary, under the present routing. A request that writes to no shard stays here.
pub proof fn requests_reach_the_primary_of_their_shard(
    status: ClusterStatus,
    peers: Map<u64, Seq<char>>,
    k: int,
)
    requires
        0 <= k < status.shards@.len(),
        forall|j: int|
            0 <= j < k ==> (#[trigger] status.shards@[j]).shard_id != status.shards@[k].shard_id,
    ensures
        forward_of(status, peers, None) == Ok::<Forward, Seq<char>>(Forward::Here),
        ({
            let s = status.shards@[k];
            let f = forward_of(status, peers, Some(s.shard_id));
            match (s.is_local_primary, s.primary_server_id) {
                (true, _) => f == Ok::<Forward, Seq<char>>(Forward::Here),
                (false, None) => f is Err,
                (false, Some(p)) => if peers.dom().contains(p) {
                    f == Ok::<Forward, Seq<char>>(Forward::Send { address: peers[p] })
                } else {
                    f == Ok::<Forward, Seq<char>>(
                        Forward::Redirect {
                            shard_id: s.shard_id,
                            target_server_id: p,
                            routing_version: status.routing_version,
                        },
                    )
                },
            }
        }),
{
    shards_are_found_by_their_number(status.shards@, k);
}

/// A request that writes to a shard that is not told of is not carried out.
pub proof fn requests_to_unknown_shards_fail(
    status: ClusterStatus,
    peers: Map<u64, Seq<char>>,
    shard_id: u64,
)
    requires
        forall|j: int|
            0 <= j < status.shards@.len() ==> (#[trigger] status.shards@[j]).shard_id != shard_id,
    ensures
        forward_of(status, peers, Some(shard_id)) is Err,
        target_of(status.shards@, peers, shard_id) is Err,
{
    lemma_place_of(status.shards@, shard_id, 0);
}

/// A node that is created or merged goes to one shard of the cluster, and the remainder of its
/// hash says to which; every shard gets the nodes of some hash. Every other write goes to all the
/// shards that the storage names, and to no other.
pub proof fn writes_go_where_the_storage_says(
    shards: Seq<ShardStatus>,
    write: Seq<char>,
    hash: u64,
    targets: Result<Seq<u64>, Seq<char>>,
    k: int,
)
    ensures
        !is_create(write) && !is_merge(write) ==> write_shards(shards, write, hash, targets)
            == targets,
        (is_create(write) || is_merge(write)) && shards.len() == 0 ==> write_shards(
            shards,
            write,
            hash,
            targets,
        ) is Err,
        (is_create(write) || is_merge(write)) && 0 <= k < shards.len() && (hash as int - k)
            % (shards.len() as int) == 0 ==> write_shards(shards, write, hash, targets) == Ok::<
            Seq<u64>,
            Seq<char>,
        >(seq![shards[k].shard_id]),
{
    if 0 <= k < shards.len() && (hash as int - k) % (shards.len() as int) == 0 {
        let n = shards.len() as int;
        let h = hash as int;
        vstd::arithmetic::div_mod::lemma_fundamental_div_mod(h - k, n);
        vstd::arithmetic::div_mod::lemma_fundamental_div_mod_converse(h, n, (h - k) / n, k);
    }
}

/// The primary of a placement is a replica with that role, and the first of them; a placement
/// without such a replica has no primary.
pub proof fn primaries_have_the_role(replicas: Seq<ShardReplica>)
    ensures
        match primary_of(replicas) {
            Some(p) => exists|k: int|
                0 <= k < replicas.len() && (#[trigger] replicas[k]).role is Primary
                    && replicas[k].server_id == p && forall|j: int|
                    0 <= j < k ==> !((#[trigger] replicas[j]).role is Primary),
            None => forall|j: int|
                0 <= j < replicas.len() ==> !((#[trigger] replicas[j]).role is Primary),
        },
    decreases replicas.len(),
{
    if replicas.len() > 0 {
        if replicas[0].role is Primary {
            assert(replicas[0].server_id == primary_of(replicas).unwrap());
        } else {
            let rest = replicas.skip(1);
            primaries_have_the_role(rest);
            match primary_of(rest) {
                Some(p) => {
                    let k = choose|k: int|
                        0 <= k < rest.len() && (#[trigger] rest[k]).role is Primary
                            && rest[k].server_id == p && forall|j: int|
                            0 <= j < k ==> !((#[trigger] rest[j]).role is Primary);
                    assert(replicas[k + 1] == rest[k]);
                    assert forall|j: int| 0 <= j < k + 1 implies !((
                    #[trigger] replicas[j]).role is Primary) by {
                        if j > 0 {
                            assert(rest[j - 1] == replicas[j]);
                        }
                    }
                },
                None => {
                    assert forall|j: int| 0 <= j < replicas.len() implies !((
                    #[trigger] replicas[j]).role is Primary) by {
                        if j > 0 {
                            assert(rest[j - 1] == replicas[j]);
                        }
                    }
                },
            }
        }
    }
}

} // verus!
