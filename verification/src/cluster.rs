//! Where queries and writes go in a cluster.

use vstd::prelude::*;

use crate::cypher::{
    describe_query_parameters, is_create, is_create_node_cypher, is_merge, is_merge_node_cypher,
    is_schema, is_schema_cypher, is_write, is_write_cypher, names_in_order, query_parameters,
};
use crate::json::{dec_all, number_list, show_each, show_numbers};
use crate::model::QueryReadPreference;
use crate::peers::QueryPeerStore;
use crate::text::{cat, cat3, dec, join, join_with, show, views};
use crate::value::{QueryParams, Val};
use crate::wire::{node_hash, stable_node_hash, CreateNodeRoutingKey};

verus! {

/// What is known of a shard.
pub struct ShardStatus {
    pub shard_id: u64,
    pub primary_server_id: Option<u64>,
    pub replica_server_ids: Vec<u64>,
    pub has_local_copy: bool,
    pub is_local_primary: bool,
    pub applied_index: u64,
    pub committed_index: u64,
    pub match_indexes: Vec<(u64, u64)>,
}

/// What is known of a cluster.
pub struct ClusterStatus {
    pub server_id: u64,
    pub routing_version: u64,
    pub shard_count: u64,
    pub shards: Vec<ShardStatus>,
}

/// The place of a shard among others, from the `i`-th on.
pub open spec fn place_of(shards: Seq<ShardStatus>, shard_id: u64, i: int) -> Option<int>
    decreases shards.len() - i,
{
    if i < 0 || i >= shards.len() {
        None
    } else if shards[i].shard_id == shard_id {
        Some(i)
    } else {
        place_of(shards, shard_id, i + 1)
    }
}

/// What is known of a shard, if anything.
pub open spec fn shard_of(shards: Seq<ShardStatus>, shard_id: u64) -> Option<ShardStatus> {
    match place_of(shards, shard_id, 0) {
        Some(i) => Some(shards[i]),
        None => None,
    }
}

/// Finds what is known of a shard.
pub fn find_shard(shards: &[ShardStatus], shard_id: u64) -> (r: Option<&ShardStatus>)
    ensures
        match r {
            Some(s) => shard_of(shards@, shard_id) == Some(*s) && s.shard_id == shard_id,
            None => shard_of(shards@, shard_id) is None,
        },
{
    let mut i: usize = 0;
    while i < shards.len()
        invariant
            0 <= i <= shards@.len(),
            place_of(shards@, shard_id, 0) == place_of(shards@, shard_id, i as int),
        decreases shards@.len() - i,
    {
        if shards[i].shard_id == shard_id {
            return Some(&shards[i]);
        }
        i = i + 1;
    }
    None
}

/// How it is told that nothing is known of a shard.
pub open spec fn missing_shard(shard_id: u64) -> Seq<char> {
    "missing shard "@ + dec(shard_id as nat) + " in cluster status"@
}

/// Tells that nothing is known of a shard.
pub fn show_missing_shard(shard_id: u64) -> (r: String)
    ensures
        r@ == missing_shard(shard_id),
{
    cat3("missing shard ", show(shard_id as u128).as_str(), " in cluster status")
}

/// What keeps this server from writing to a shard as its primary.
pub open spec fn local_primary_problem(shards: Seq<ShardStatus>, shard_id: u64) -> Option<Seq<char>> {
    match shard_of(shards, shard_id) {
        None => Some(missing_shard(shard_id)),
        Some(s) => if s.is_local_primary {
            None
        } else {
            Some("shard "@ + dec(shard_id as nat) + " is not a local primary"@)
        },
    }
}

/// Checks that this server is the primary of a shard.
pub fn ensure_local_primary_shard(shards: &[ShardStatus], shard_id: u64) -> (r: Result<(), String>)
    ensures
        match r {
            Ok(_) => local_primary_problem(shards@, shard_id) is None,
            Err(e) => local_primary_problem(shards@, shard_id) == Some(e@),
        },
{
    match find_shard(shards, shard_id) {
        None => Err(show_missing_shard(shard_id)),
        Some(s) => if s.is_local_primary {
            Ok(())
        } else {
            Err(cat3("shard ", show(shard_id as u128).as_str(), " is not a local primary"))
        },
    }
}

/// Where a write to a shard goes.
pub enum WriteTarget {
    Local,
    Remote(String),
}

/// The contents of where a write goes.
pub enum Target {
    Local,
    Remote(Seq<char>),
}

impl WriteTarget {
    pub open spec fn view(&self) -> Target {
        match *self {
            WriteTarget::Local => Target::Local,
            WriteTarget::Remote(a) => Target::Remote(a@),
        }
    }
}

/// The address of the primary of a shard, or why it has none.
pub open spec fn primary_address(shard: ShardStatus, peers: Map<u64, Seq<char>>) -> Result<
    Seq<char>,
    Seq<char>,
> {
    match shard.primary_server_id {
        None => Err("missing primary for write shard "@ + dec(shard.shard_id as nat)),
        Some(primary) => if peers.dom().contains(primary) {
            Ok(peers[primary])
        } else {
            Err(
                "missing query peer address for primary server "@ + dec(primary as nat)
                    + " on write shard "@ + dec(shard.shard_id as nat),
            )
        },
    }
}

/// Finds the address of the primary of a shard.
pub fn find_primary_address(shard: &ShardStatus, peers: &QueryPeerStore) -> (r: Result<
    String,
    String,
>)
    requires
        peers.well_formed(),
    ensures
        match r {
            Ok(a) => primary_address(*shard, peers@) == Ok::<Seq<char>, Seq<char>>(a@),
            Err(e) => primary_address(*shard, peers@) == Err::<Seq<char>, Seq<char>>(e@),
        },
{
    match shard.primary_server_id {
        None => Err(
            cat("missing primary for write shard ", show(shard.shard_id as u128).as_str()),
        ),
        Some(primary) => match peers.address(primary) {
            Some(a) => Ok(a),
            None => {
                let mut e = "missing query peer address for primary server ".to_owned();
                e.append(show(primary as u128).as_str());
                e.append(" on write shard ");
                e.append(show(shard.shard_id as u128).as_str());
                Err(e)
            },
        },
    }
}

/// Where a write to a shard goes, or why it goes nowhere.
pub open spec fn target_of(
    shards: Seq<ShardStatus>,
    peers: Map<u64, Seq<char>>,
    shard_id: u64,
) -> Result<Target, Seq<char>> {
    match shard_of(shards, shard_id) {
        None => Err(missing_shard(shard_id)),
        Some(s) => if s.is_local_primary {
            Ok(Target::Local)
        } else {
            match primary_address(s, peers) {
                Err(e) => Err(e),
                Ok(a) => Ok(Target::Remote(a)),
            }
        },
    }
}

/// Finds where a write to a shard goes.
pub fn write_target(shards: &[ShardStatus], peers: &QueryPeerStore, shard_id: u64) -> (r: Result<
    WriteTarget,
    String,
>)
    requires
        peers.well_formed(),
    ensures
        match r {
            Ok(t) => target_of(shards@, peers@, shard_id) == Ok::<Target, Seq<char>>(t@),
            Err(e) => target_of(shards@, peers@, shard_id) == Err::<Target, Seq<char>>(e@),
        },
{
    match find_shard(shards, shard_id) {
        None => Err(show_missing_shard(shard_id)),
        Some(s) => if s.is_local_primary {
            Ok(WriteTarget::Local)
        } else {
            match find_primary_address(s, peers) {
                Err(e) => Err(e),
                Ok(a) => Ok(WriteTarget::Remote(a)),
            }
        },
    }
}

/// Where a request goes that writes to a shard.
pub enum ForwardPlan {
    /// It is carried out here.
    Here,
    /// The sender is told which server to turn to.
    Redirect { shard_id: u64, target_server_id: u64, routing_version: u64 },
    /// It is sent on.
    Send { address: String },
}

/// The contents of where a request goes.
pub enum Forward {
    Here,
    Redirect { shard_id: u64, target_server_id: u64, routing_version: u64 },
    Send { address: Seq<char> },
}

impl ForwardPlan {
    pub open spec fn view(&self) -> Forward {
        match *self {
            ForwardPlan::Here => Forward::Here,
            ForwardPlan::Redirect { shard_id, target_server_id, routing_version } => Forward::Redirect {
                shard_id,
                target_server_id,
                routing_version,
            },
            ForwardPlan::Send { address } => Forward::Send { address: address@ },
        }
    }
}

/// Where a request goes that writes to a shard, if it writes to one.
pub open spec fn forward_of(
    status: ClusterStatus,
    peers: Map<u64, Seq<char>>,
    shard: Option<u64>,
) -> Result<Forward, Seq<char>> {
    match shard {
        None => Ok(Forward::Here),
        Some(shard_id) => match shard_of(status.shards@, shard_id) {
            None => Err(missing_shard(shard_id)),
            Some(s) => if s.is_local_primary {
                Ok(Forward::Here)
            } else {
                match s.primary_server_id {
                    None => Err("missing primary for write shard "@ + dec(shard_id as nat)),
                    Some(primary) => if peers.dom().contains(primary) {
                        Ok(Forward::Send { address: peers[primary] })
                    } else {
                        Ok(
                            Forward::Redirect {
                                shard_id,
                                target_server_id: primary,
                                routing_version: status.routing_version,
                            },
                        )
                    },
                }
            },
        },
    }
}

/// Finds where a request goes that writes to a shard.
pub fn forward_shard_write(status: &ClusterStatus, peers: &QueryPeerStore, shard: Option<u64>) -> (r:
    Result<ForwardPlan, String>)
    requires
        peers.well_formed(),
    ensures
        match r {
            Ok(p) => forward_of(*status, peers@, shard) == Ok::<Forward, Seq<char>>(p@),
            Err(e) => forward_of(*status, peers@, shard) == Err::<Forward, Seq<char>>(e@),
        },
{
    match shard {
        None => Ok(ForwardPlan::Here),
        Some(shard_id) => match find_shard(status.shards.as_slice(), shard_id) {
            None => Err(show_missing_shard(shard_id)),
            Some(s) => {
                if s.is_local_primary {
                    return Ok(ForwardPlan::Here);
                }
                match s.primary_server_id {
                    None => Err(
                        cat("missing primary for write shard ", show(shard_id as u128).as_str()),
                    ),
                    Some(primary) => match peers.address(primary) {
                        Some(address) => Ok(ForwardPlan::Send { address }),
                        None => Ok(
                            ForwardPlan::Redirect {
                                shard_id,
                                target_server_id: primary,
                                routing_version: status.routing_version,
                            },
                        ),
                    },
                }
            },
        },
    }
}

/// A write is carried out by the primary of its shard: here only where this server is the
/// primary, and otherwise it is sent, or its sender pointed, to the server that is.
pub proof fn writes_go_to_the_primary(
    status: ClusterStatus,
    peers: Map<u64, Seq<char>>,
    shard_id: u64,
)
    requires
        forward_of(status, peers, Some(shard_id)) is Ok,
    ensures
        shard_of(status.shards@, shard_id) is Some,
        ({
            let s = shard_of(status.shards@, shard_id).unwrap();
            match forward_of(status, peers, Some(shard_id))->Ok_0 {
                Forward::Here => s.is_local_primary,
                Forward::Redirect { target_server_id, .. } => !s.is_local_primary
                    && s.primary_server_id == Some(target_server_id),
                Forward::Send { address } => !s.is_local_primary && s.primary_server_id is Some
                    && peers[s.primary_server_id.unwrap()] == address,
            }
        }),
{
}

/// The first of some servers that has an address, from the `i`-th on.
pub open spec fn first_reachable(servers: Seq<u64>, peers: Map<u64, Seq<char>>, i: int) -> Option<
    u64,
>
    decreases servers.len() - i,
{
    if i < 0 || i >= servers.len() {
        None
    } else if peers.dom().contains(servers[i]) {
        Some(servers[i])
    } else {
        first_reachable(servers, peers, i + 1)
    }
}

/// The server that is asked for the rows of a shard, with its address. Where replicas are
/// preferred, the first of them that can be reached is asked before the primary.
pub open spec fn query_target(
    peers: Map<u64, Seq<char>>,
    shard: ShardStatus,
    preference: QueryReadPreference,
) -> Result<(u64, Seq<char>), Seq<char>> {
    let replica = if preference is PreferReplica {
        first_reachable(shard.replica_server_ids@, peers, 0)
    } else {
        None
    };
    match replica {
        Some(server) => Ok((server, peers[server])),
        None => match shard.primary_server_id {
            None => Err("missing primary for remote query shard "@ + dec(shard.shard_id as nat)),
            Some(primary) => if peers.dom().contains(primary) {
                Ok((primary, peers[primary]))
            } else if preference is Primary {
                Err(
                    "missing query peer address for primary server "@ + dec(primary as nat)
                        + " on shard "@ + dec(shard.shard_id as nat),
                )
            } else {
                Err(
                    "missing query peer address for preferred replica or primary on shard "@ + dec(
                        shard.shard_id as nat,
                    ),
                )
            },
        },
    }
}

/// Finds the server that is asked for the rows of a shard.
pub fn select_remote_query_target(
    query_peers: &QueryPeerStore,
    shard: &ShardStatus,
    read_preference: QueryReadPreference,
) -> (r: Result<(u64, String), String>)
    requires
        query_peers.well_formed(),
    ensures
        match r {
            Ok((server, address)) => query_target(query_peers@, *shard, read_preference) == Ok::<
                (u64, Seq<char>),
                Seq<char>,
            >((server, address@)),
            Err(e) => query_target(query_peers@, *shard, read_preference) == Err::<
                (u64, Seq<char>),
                Seq<char>,
            >(e@),
        },
{
    let prefers_replica = match read_preference {
        QueryReadPreference::PreferReplica => true,
        QueryReadPreference::Primary => false,
    };
    if prefers_replica {
        let servers = &shard.replica_server_ids;
        let mut i: usize = 0;
        while i < servers.len()
            invariant
                0 <= i <= servers@.len(),
                servers@ == shard.replica_server_ids@,
                query_peers.well_formed(),
                read_preference is PreferReplica,
                first_reachable(servers@, query_peers@, 0) == first_reachable(
                    servers@,
                    query_peers@,
                    i as int,
                ),
            decreases servers@.len() - i,
        {
            if let Some(address) = query_peers.address(servers[i]) {
                return Ok((servers[i], address));
            }
            i = i + 1;
        }
    }
    let primary: u64 = match shard.primary_server_id {
        None => return Err(
            cat("missing primary for remote query shard ", show(shard.shard_id as u128).as_str()),
        ),
        Some(p) => p,
    };
    if let Some(address) = query_peers.address(primary) {
        return Ok((primary, address));
    }
    if !prefers_replica {
        let mut e = "missing query peer address for primary server ".to_owned();
        e.append(show(primary as u128).as_str());
        e.append(" on shard ");
        e.append(show(shard.shard_id as u128).as_str());
        return Err(e);
    }
    Err(
        cat(
            "missing query peer address for preferred replica or primary on shard ",
            show(shard.shard_id as u128).as_str(),
        ),
    )
}

/// The shard of a node that is created or merged: the hash picks it.
pub open spec fn node_shard(shards: Seq<ShardStatus>, hash: u64) -> Result<u64, Seq<char>> {
    if shards.len() == 0 {
        Err("cluster status has no shards"@)
    } else {
        Ok(shards[(hash as nat % shards.len()) as int].shard_id)
    }
}

/// Picks the shard of a node that is created or merged. The key is its routing key, if it has
/// one.
pub fn select_node_write_shard(
    shards: &[ShardStatus],
    key: &Option<CreateNodeRoutingKey>,
    query: &str,
    params: &QueryParams,
) -> (r: Result<u64, String>)
    requires
        params.well_formed(),
    ensures
        match r {
            Ok(s) => node_shard(shards@, node_hash(*key, query@, params@)) == Ok::<u64, Seq<char>>(
                s,
            ),
            Err(e) => node_shard(shards@, node_hash(*key, query@, params@)) == Err::<
                u64,
                Seq<char>,
            >(e@),
        },
{
    if shards.len() == 0 {
        return Err("cluster status has no shards".to_owned());
    }
    let hash: u64 = stable_node_hash(key, query, params);
    let index: u64 = hash % (shards.len() as u64);
    Ok(shards[index as usize].shard_id)
}

/// The shards that a write goes to: of a node that is created or merged the one that the hash
/// picks, of another write those that the storage names.
pub open spec fn write_shards(
    shards: Seq<ShardStatus>,
    write: Seq<char>,
    hash: u64,
    targets: Result<Seq<u64>, Seq<char>>,
) -> Result<Seq<u64>, Seq<char>> {
    if is_create(write) || is_merge(write) {
        match node_shard(shards, hash) {
            Err(e) => Err(e),
            Ok(s) => Ok(seq![s]),
        }
    } else {
        targets
    }
}

/// The contents of the shards that the storage names.
pub open spec fn target_list(targets: Result<Vec<u64>, String>) -> Result<Seq<u64>, Seq<char>> {
    match targets {
        Ok(v) => Ok(v@),
        Err(e) => Err(e@),
    }
}

/// Finds the shards that a write goes to.
pub fn find_write_shards(
    shards: &[ShardStatus],
    key: &Option<CreateNodeRoutingKey>,
    query: &str,
    params: &QueryParams,
    targets: &Result<Vec<u64>, String>,
) -> (r: Result<Vec<u64>, String>)
    requires
        params.well_formed(),
    ensures
        target_list(r) == write_shards(
            shards@,
            query@,
            node_hash(*key, query@, params@),
            target_list(*targets),
        ),
{
    if is_create_node_cypher(query) || is_merge_node_cypher(query) {
        return match select_node_write_shard(shards, key, query, params) {
            Err(e) => Err(e),
            Ok(s) => {
                let mut v: Vec<u64> = Vec::new();
                v.push(s);
                assert(v@ =~= seq![s]);
                Ok(v)
            },
        };
    }
    match targets {
        Err(e) => Err(e.as_str().to_owned()),
        Ok(v) => {
            let copy = copy_numbers(v.as_slice());
            Ok(copy)
        },
    }
}

fn copy_numbers(v: &[u64]) -> (r: Vec<u64>)
    ensures
        r@ == v@,
{
    let mut r: Vec<u64> = Vec::new();
    let mut i: usize = 0;
    while i < v.len()
        invariant
            0 <= i <= v@.len(),
            r@ == v@.take(i as int),
        decreases v@.len() - i,
    {
        r.push(v[i]);
        assert(v@.take(i + 1) =~= v@.take(i as int).push(v@[i as int]));
        i = i + 1;
    }
    assert(v@.take(v@.len() as int) =~= v@);
    r
}

/// Where the rows of a query are.
pub enum QueryRoute {
    LocalOnly,
    RequiresRemoteShards(Vec<u64>),
}

/// Where the rows of a query are, in words.
pub open spec fn read_hint(route: QueryRoute) -> Seq<char> {
    match route {
        QueryRoute::LocalOnly => "READ_LOCAL"@,
        QueryRoute::RequiresRemoteShards(shards) => "READ_REMOTE:"@ + number_list(shards@),
    }
}

/// Writes where the rows of a query are.
pub fn format_read_routing_hint(route: &QueryRoute) -> (r: String)
    ensures
        r@ == read_hint(*route),
{
    match route {
        QueryRoute::LocalOnly => "READ_LOCAL".to_owned(),
        QueryRoute::RequiresRemoteShards(shards) => cat(
            "READ_REMOTE:",
            show_numbers(shards.as_slice()).as_str(),
        ),
    }
}

/// What is known of the cluster when a hint is asked for: where the rows of a query are, and
/// the shards, or why the storage cannot tell.
pub struct RoutingFacts {
    pub route: Result<QueryRoute, String>,
    pub shards: Result<Vec<ShardStatus>, String>,
}

/// Where a query is read, in words.
pub open spec fn read_routing(facts: RoutingFacts) -> Result<Seq<char>, Seq<char>> {
    match facts.route {
        Err(e) => Err(e@),
        Ok(route) => Ok(read_hint(route)),
    }
}

/// Where a node is written, in words.
pub open spec fn node_routing(facts: RoutingFacts, hash: u64) -> Result<Seq<char>, Seq<char>> {
    match facts.shards {
        Err(e) => Err(e@),
        Ok(shards) => match node_shard(shards@, hash) {
            Err(e) => Err(e),
            Ok(s) => Ok("WRITE_SHARD:"@ + dec(s as nat)),
        },
    }
}

/// Where a prepared query goes when it gets its parameters.
pub open spec fn routing_with_params(query: Seq<char>, facts: RoutingFacts, hash: u64) -> Result<
    Seq<char>,
    Seq<char>,
> {
    if is_schema(query) {
        Ok("SCHEMA"@)
    } else if !is_write(query) {
        read_routing(facts)
    } else if is_create(query) || is_merge(query) {
        node_routing(facts, hash)
    } else {
        Ok("WRITE_TARGET_DYNAMIC"@)
    }
}

/// Where a prepared query goes, as far as that is known without its parameters.
pub open spec fn routing_without_params(query: Seq<char>, facts: RoutingFacts, hash: u64) -> Result<
    Seq<char>,
    Seq<char>,
> {
    if is_schema(query) {
        Ok("SCHEMA"@)
    } else if !is_write(query) {
        read_routing(facts)
    } else if is_create(query) || is_merge(query) {
        if names_in_order(query_parameters(query)).len() > 0 {
            Ok("WRITE_SHARD_BY_PARAM"@)
        } else {
            node_routing(facts, hash)
        }
    } else {
        Ok("WRITE_TARGET_DYNAMIC"@)
    }
}

fn show_read_routing(facts: &RoutingFacts) -> (r: Result<String, String>)
    ensures
        crate::native::outcome_text(r) == read_routing(*facts),
{
    match &facts.route {
        Err(e) => Err(e.as_str().to_owned()),
        Ok(route) => Ok(format_read_routing_hint(route)),
    }
}

fn show_node_routing(
    facts: &RoutingFacts,
    key: &Option<CreateNodeRoutingKey>,
    query: &str,
    params: &QueryParams,
) -> (r: Result<String, String>)
    requires
        params.well_formed(),
    ensures
        crate::native::outcome_text(r) == node_routing(*facts, node_hash(*key, query@, params@)),
{
    match &facts.shards {
        Err(e) => Err(e.as_str().to_owned()),
        Ok(shards) => match select_node_write_shard(shards.as_slice(), key, query, params) {
            Err(e) => Err(e),
            Ok(s) => Ok(cat("WRITE_SHARD:", show(s as u128).as_str())),
        },
    }
}

/// Tells where a prepared query goes when it gets its parameters.
pub fn prepared_query_routing_hint_with_params(
    query: &str,
    params: &QueryParams,
    facts: &RoutingFacts,
    key: &Option<CreateNodeRoutingKey>,
) -> (r: Result<String, String>)
    requires
        params.well_formed(),
    ensures
        crate::native::outcome_text(r) == routing_with_params(
            query@,
            *facts,
            node_hash(*key, query@, params@),
        ),
{
    if is_schema_cypher(query) {
        return Ok("SCHEMA".to_owned());
    }
    if !is_write_cypher(query) {
        return show_read_routing(facts);
    }
    if is_create_node_cypher(query) || is_merge_node_cypher(query) {
        return show_node_routing(facts, key, query, params);
    }
    Ok("WRITE_TARGET_DYNAMIC".to_owned())
}

/// Tells where a prepared query goes, as far as that is known without its parameters. The key
/// is its routing key without parameters.
pub fn prepared_query_routing_hint(
    query: &str,
    facts: &RoutingFacts,
    key: &Option<CreateNodeRoutingKey>,
) -> (r: Result<String, String>)
    ensures
        crate::native::outcome_text(r) == routing_without_params(
            query@,
            *facts,
            node_hash(*key, query@, Map::<Seq<char>, Val>::empty()),
        ),
{
    if is_schema_cypher(query) {
        return Ok("SCHEMA".to_owned());
    }
    if !is_write_cypher(query) {
        return show_read_routing(facts);
    }
    if is_create_node_cypher(query) || is_merge_node_cypher(query) {
        let names = describe_query_parameters(query);
        assert(views(names@).len() == names@.len());
        if names.len() > 0 {
            return Ok("WRITE_SHARD_BY_PARAM".to_owned());
        }
        let params = QueryParams::new();
        return show_node_routing(facts, key, query, &params);
    }
    Ok("WRITE_TARGET_DYNAMIC".to_owned())
}

/// The numbers of shards, or a dash where there are none.
pub open spec fn shard_list(shards: Seq<u64>) -> Seq<char> {
    if shards.len() == 0 {
        "-"@
    } else {
        join(dec_all(shards), "|"@)
    }
}

/// Writes the numbers of shards.
pub fn format_shard_id_list(shards: &[u64]) -> (r: String)
    ensures
        r@ == shard_list(shards@),
{
    if shards.len() == 0 {
        "-".to_owned()
    } else {
        join_with(show_each(shards).as_slice(), "|")
    }
}

} // verus!
