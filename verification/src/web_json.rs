//! What a server tells of itself in JSON.

use vstd::prelude::*;

use crate::json::{
    bool_text, json_escape, json_escaped, number_list, number_or_null, show_bool, show_number_or_null,
    show_numbers,
};
use crate::limits::{slow_views, SlowQuery, SlowQueryEntry};
use crate::metrics::RaftShard;
use crate::model::{
    primary_of, ShardPlacement, ShardReplica, ShardRole, ShardRoutingTable,
};
use crate::rbac::WebRole;
use crate::text::{
    cat3, contains, dec, holds, join, join_with, lemma_views_push, show, split_first, split_once,
    views, words, words_of,
};

verus! {

/// The consensus of a shard.
pub open spec fn raft_shard_text(s: RaftShard) -> Seq<char> {
    "{\"shard_id\":"@ + dec(s.shard_id as nat) + ",\"term\":"@ + dec(s.term as nat)
        + ",\"role\":\""@ + s.role@ + "\",\"leader_id\":"@ + number_or_null(s.leader_id)
        + ",\"commit_index\":"@ + dec(s.commit_index as nat) + ",\"last_log_index\":"@
        + dec(s.last_log_index as nat) + ",\"snapshot_index\":"@ + dec(s.snapshot_index as nat)
        + ",\"joint_consensus\":"@ + bool_text(s.joint_consensus) + "}"@
}

fn raft_shard_json(s: &RaftShard) -> (r: String)
    ensures
        r@ == raft_shard_text(*s),
{
    let mut r = "{\"shard_id\":".to_owned();
    r.append(show(s.shard_id as u128).as_str());
    r.append(",\"term\":");
    r.append(show(s.term as u128).as_str());
    r.append(",\"role\":\"");
    r.append(s.role.as_str());
    r.append("\",\"leader_id\":");
    r.append(show_number_or_null(s.leader_id).as_str());
    r.append(",\"commit_index\":");
    r.append(show(s.commit_index as u128).as_str());
    r.append(",\"last_log_index\":");
    r.append(show(s.last_log_index as u128).as_str());
    r.append(",\"snapshot_index\":");
    r.append(show(s.snapshot_index as u128).as_str());
    r.append(",\"joint_consensus\":");
    r.append(show_bool(s.joint_consensus));
    r.append("}");
    r
}

/// The consensus of shards, one by one.
pub open spec fn raft_shard_texts(shards: Seq<RaftShard>) -> Seq<Seq<char>> {
    shards.map_values(|s: RaftShard| raft_shard_text(s))
}

fn raft_shards_json(shards: &[RaftShard]) -> (parts: Vec<String>)
    ensures
        views(parts@) == raft_shard_texts(shards@),
{
    let mut parts: Vec<String> = Vec::new();
    let mut i: usize = 0;
    let ghost all = raft_shard_texts(shards@);
    assert(views(parts@) =~= all.take(0));
    while i < shards.len()
        invariant
            0 <= i <= shards@.len(),
            all == raft_shard_texts(shards@),
            views(parts@) == all.take(i as int),
        decreases shards@.len() - i,
    {
        let part = raft_shard_json(&shards[i]);
        assert(all[i as int] == part@);
        proof {
            lemma_views_push(parts@, part);
        }
        parts.push(part);
        assert(all.take(i + 1) =~= all.take(i as int).push(part@));
        i = i + 1;
    }
    assert(all.take(all.len() as int) =~= all);
    parts
}

/// The consensus of all shards.
pub open spec fn raft_status_body(shards: Seq<RaftShard>) -> Seq<char> {
    "{\"raft_shards\":["@ + join(raft_shard_texts(shards), ","@) + "]}"@
}

/// Writes the consensus of all shards.
pub fn raft_status_json(shards: &[RaftShard]) -> (r: String)
    ensures
        r@ == raft_status_body(shards@),
{
    cat3("{\"raft_shards\":[", join_with(raft_shards_json(shards).as_slice(), ",").as_str(), "]}")
}

/// The name of a part that a server has in a shard.
pub open spec fn role_text(role: ShardRole) -> Seq<char> {
    match role {
        ShardRole::Primary => "primary"@,
        ShardRole::Replica => "replica"@,
    }
}

fn role_name(role: ShardRole) -> (r: &'static str)
    ensures
        r@ == role_text(role),
{
    match role {
        ShardRole::Primary => "primary",
        ShardRole::Replica => "replica",
    }
}

/// A copy of a shard.
pub open spec fn replica_text(s: ShardReplica) -> Seq<char> {
    "{\"server_id\":"@ + dec(s.server_id as nat) + ",\"role\":\""@ + role_text(s.role) + "\"}"@
}

fn replica_json(s: &ShardReplica) -> (r: String)
    ensures
        r@ == replica_text(*s),
{
    let mut r = "{\"server_id\":".to_owned();
    r.append(show(s.server_id as u128).as_str());
    r.append(",\"role\":\"");
    r.append(role_name(s.role));
    r.append("\"}");
    r
}

/// The copies of a shard, one by one.
pub open spec fn replica_texts(replicas: Seq<ShardReplica>) -> Seq<Seq<char>> {
    replicas.map_values(|s: ShardReplica| replica_text(s))
}

fn replicas_json(replicas: &[ShardReplica]) -> (parts: Vec<String>)
    ensures
        views(parts@) == replica_texts(replicas@),
{
    let mut parts: Vec<String> = Vec::new();
    let mut i: usize = 0;
    let ghost all = replica_texts(replicas@);
    assert(views(parts@) =~= all.take(0));
    while i < replicas.len()
        invariant
            0 <= i <= replicas@.len(),
            all == replica_texts(replicas@),
            views(parts@) == all.take(i as int),
        decreases replicas@.len() - i,
    {
        let part = replica_json(&replicas[i]);
        assert(all[i as int] == part@);
        proof {
            lemma_views_push(parts@, part);
        }
        parts.push(part);
        assert(all.take(i + 1) =~= all.take(i as int).push(part@));
        i = i + 1;
    }
    assert(all.take(all.len() as int) =~= all);
    parts
}

/// Where a shard stands.
pub open spec fn placement_text(p: ShardPlacement) -> Seq<char> {
    "{\"shard_id\":"@ + dec(p.shard_id as nat) + ",\"primary_server_id\":"@
        + number_or_null(primary_of(p.replicas@)) + ",\"replicas\":["@
        + join(replica_texts(p.replicas@), ","@) + "]}"@
}

fn placement_json(p: &ShardPlacement) -> (r: String)
    ensures
        r@ == placement_text(*p),
{
    let mut r = "{\"shard_id\":".to_owned();
    r.append(show(p.shard_id as u128).as_str());
    r.append(",\"primary_server_id\":");
    r.append(show_number_or_null(p.primary_server_id()).as_str());
    r.append(",\"replicas\":[");
    r.append(join_with(replicas_json(p.replicas.as_slice()).as_slice(), ",").as_str());
    r.append("]}");
    r
}

/// Where shards stand, one by one.
pub open spec fn placement_texts(placements: Seq<ShardPlacement>) -> Seq<Seq<char>> {
    placements.map_values(|p: ShardPlacement| placement_text(p))
}

fn placements_json(placements: &[ShardPlacement]) -> (parts: Vec<String>)
    ensures
        views(parts@) == placement_texts(placements@),
{
    let mut parts: Vec<String> = Vec::new();
    let mut i: usize = 0;
    let ghost all = placement_texts(placements@);
    assert(views(parts@) =~= all.take(0));
    while i < placements.len()
        invariant
            0 <= i <= placements@.len(),
            all == placement_texts(placements@),
            views(parts@) == all.take(i as int),
        decreases placements@.len() - i,
    {
        let part = placement_json(&placements[i]);
        assert(all[i as int] == part@);
        proof {
            lemma_views_push(parts@, part);
        }
        parts.push(part);
        assert(all.take(i + 1) =~= all.take(i as int).push(part@));
        i = i + 1;
    }
    assert(all.take(all.len() as int) =~= all);
    parts
}

/// A routing table, or the empty one where there is none.
pub open spec fn routing_body(table: Option<ShardRoutingTable>) -> Seq<char> {
    match table {
        None => "{\"version\":0,\"ownership_epoch\":0,\"shards\":[]}"@,
        Some(t) => "{\"version\":"@ + dec(t.version as nat) + ",\"ownership_epoch\":"@ + dec(
            t.version as nat,
        ) + ",\"shards\":["@ + join(placement_texts(t.placements@), ","@) + "]}"@,
    }
}

/// Writes a routing table.
pub fn routing_table_json(table: &Option<ShardRoutingTable>) -> (r: String)
    ensures
        r@ == routing_body(*table),
{
    match table {
        None => "{\"version\":0,\"ownership_epoch\":0,\"shards\":[]}".to_owned(),
        Some(t) => {
            let mut r = "{\"version\":".to_owned();
            r.append(show(t.version as u128).as_str());
            r.append(",\"ownership_epoch\":");
            r.append(show(t.version as u128).as_str());
            r.append(",\"shards\":[");
            r.append(join_with(placements_json(t.placements.as_slice()).as_slice(), ",").as_str());
            r.append("]}");
            r
        },
    }
}

/// The consensus of a shard, in short.
pub open spec fn registry_shard_text(s: RaftShard) -> Seq<char> {
    "{\"shard_id\":"@ + dec(s.shard_id as nat) + ",\"term\":"@ + dec(s.term as nat)
        + ",\"role\":\""@ + s.role@ + "\",\"leader_id\":"@ + number_or_null(s.leader_id) + "}"@
}

fn registry_shard_json(s: &RaftShard) -> (r: String)
    ensures
        r@ == registry_shard_text(*s),
{
    let mut r = "{\"shard_id\":".to_owned();
    r.append(show(s.shard_id as u128).as_str());
    r.append(",\"term\":");
    r.append(show(s.term as u128).as_str());
    r.append(",\"role\":\"");
    r.append(s.role.as_str());
    r.append("\",\"leader_id\":");
    r.append(show_number_or_null(s.leader_id).as_str());
    r.append("}");
    r
}

/// The consensus of shards in short, one by one.
pub open spec fn registry_shard_texts(shards: Seq<RaftShard>) -> Seq<Seq<char>> {
    shards.map_values(|s: RaftShard| registry_shard_text(s))
}

fn registry_shards_json(shards: &[RaftShard]) -> (parts: Vec<String>)
    ensures
        views(parts@) == registry_shard_texts(shards@),
{
    let mut parts: Vec<String> = Vec::new();
    let mut i: usize = 0;
    let ghost all = registry_shard_texts(shards@);
    assert(views(parts@) =~= all.take(0));
    while i < shards.len()
        invariant
            0 <= i <= shards@.len(),
            all == registry_shard_texts(shards@),
            views(parts@) == all.take(i as int),
        decreases shards@.len() - i,
    {
        let part = registry_shard_json(&shards[i]);
        assert(all[i as int] == part@);
        proof {
            lemma_views_push(parts@, part);
        }
        parts.push(part);
        assert(all.take(i + 1) =~= all.take(i as int).push(part@));
        i = i + 1;
    }
    assert(all.take(all.len() as int) =~= all);
    parts
}

/// A peer and its address.
pub open spec fn peer_text(p: (u64, String)) -> Seq<char> {
    "{\"server_id\":"@ + dec(p.0 as nat) + ",\"address\":\""@ + json_escaped(p.1@) + "\"}"@
}

fn peer_json(p: &(u64, String)) -> (r: String)
    ensures
        r@ == peer_text(*p),
{
    let mut r = "{\"server_id\":".to_owned();
    r.append(show(p.0 as u128).as_str());
    r.append(",\"address\":\"");
    r.append(json_escape(p.1.as_str()).as_str());
    r.append("\"}");
    r
}

/// Peers and their addresses, one by one.
pub open spec fn peer_texts(peers: Seq<(u64, String)>) -> Seq<Seq<char>> {
    peers.map_values(|p: (u64, String)| peer_text(p))
}

fn peers_json(peers: &[(u64, String)]) -> (parts: Vec<String>)
    ensures
        views(parts@) == peer_texts(peers@),
{
    let mut parts: Vec<String> = Vec::new();
    let mut i: usize = 0;
    let ghost all = peer_texts(peers@);
    assert(views(parts@) =~= all.take(0));
    while i < peers.len()
        invariant
            0 <= i <= peers@.len(),
            all == peer_texts(peers@),
            views(parts@) == all.take(i as int),
        decreases peers@.len() - i,
    {
        let part = peer_json(&peers[i]);
        assert(all[i as int] == part@);
        proof {
            lemma_views_push(parts@, part);
        }
        parts.push(part);
        assert(all.take(i + 1) =~= all.take(i as int).push(part@));
        i = i + 1;
    }
    assert(all.take(all.len() as int) =~= all);
    parts
}

/// What is known of a cluster when its registry is asked for.
pub struct RegistryFacts {
    pub local_server_id: Option<u64>,
    pub membership_version: Option<u64>,
    /// The indexes of the metadata operations, in order.
    pub metadata_indexes: Vec<u64>,
    /// The state of a rebalance, where there is one.
    pub rebalance_state: Option<String>,
    pub raft: Vec<RaftShard>,
    pub peers: Vec<(u64, String)>,
    pub routing: Option<ShardRoutingTable>,
    pub generated_at_ms: u128,
}

/// A number, or zero.
pub open spec fn or_zero(n: Option<u64>) -> u64 {
    match n {
        Some(n) => n,
        None => 0,
    }
}

fn number_or_zero(n: Option<u64>) -> (r: u64)
    ensures
        r == or_zero(n),
{
    match n {
        Some(n) => n,
        None => 0,
    }
}

/// The last of some numbers, or zero.
pub open spec fn last_or_zero(s: Seq<u64>) -> u64 {
    if s.len() == 0 {
        0
    } else {
        s.last()
    }
}

/// The version of a routing table, or zero.
pub open spec fn version_or_zero(table: Option<ShardRoutingTable>) -> u64 {
    match table {
        Some(t) => t.version,
        None => 0,
    }
}

/// The state of a rebalance, or that there is none.
pub open spec fn state_or_idle(state: Option<String>) -> Seq<char> {
    match state {
        Some(s) => s@,
        None => "idle"@,
    }
}

/// The registry of a cluster.
pub open spec fn registry_body(f: RegistryFacts, database: Seq<char>) -> Seq<char> {
    "{\"database\":\""@ + json_escaped(database) + "\",\"local_server_id\":"@ + dec(
        or_zero(f.local_server_id) as nat,
    ) + ",\"routing_version\":"@ + dec(version_or_zero(f.routing) as nat)
        + ",\"ownership_epoch\":"@ + dec(version_or_zero(f.routing) as nat)
        + ",\"membership_index\":"@ + dec(or_zero(f.membership_version) as nat)
        + ",\"metadata_index\":"@ + dec(last_or_zero(f.metadata_indexes@) as nat)
        + ",\"generated_at_ms\":"@ + dec(f.generated_at_ms as nat)
        + ",\"ttl_ms\":5000,\"migration_state\":\""@ + json_escaped(
        state_or_idle(f.rebalance_state),
    ) + "\",\"write_authority\":\"shard_primary_and_raft_leader\",\"routing\":"@ + routing_body(
        f.routing,
    ) + ",\"raft_shards\":["@ + join(registry_shard_texts(f.raft@), ","@)
        + "],\"query_peers\":["@ + join(peer_texts(f.peers@), ","@) + "]}"@
}

/// Writes the registry of a cluster.
pub fn cluster_registry_json(facts: &RegistryFacts, database_name: &str) -> (r: String)
    ensures
        r@ == registry_body(*facts, database_name@),
{
    let version: u64 = match &facts.routing {
        Some(t) => t.version,
        None => 0,
    };
    let n: usize = facts.metadata_indexes.len();
    let metadata: u64 = if n == 0 { 0 } else { facts.metadata_indexes[n - 1] };
    let state = match &facts.rebalance_state {
        Some(s) => s.as_str(),
        None => "idle",
    };
    let mut r = "{\"database\":\"".to_owned();
    r.append(json_escape(database_name).as_str());
    r.append("\",\"local_server_id\":");
    r.append(show(number_or_zero(facts.local_server_id) as u128).as_str());
    r.append(",\"routing_version\":");
    r.append(show(version as u128).as_str());
    r.append(",\"ownership_epoch\":");
    r.append(show(version as u128).as_str());
    r.append(",\"membership_index\":");
    r.append(show(number_or_zero(facts.membership_version) as u128).as_str());
    r.append(",\"metadata_index\":");
    r.append(show(metadata as u128).as_str());
    r.append(",\"generated_at_ms\":");
    r.append(show(facts.generated_at_ms).as_str());
    r.append(",\"ttl_ms\":5000,\"migration_state\":\"");
    r.append(json_escape(state).as_str());
    r.append("\",\"write_authority\":\"shard_primary_and_raft_leader\",\"routing\":");
    r.append(routing_table_json(&facts.routing).as_str());
    r.append(",\"raft_shards\":[");
    r.append(join_with(registry_shards_json(facts.raft.as_slice()).as_slice(), ",").as_str());
    r.append("],\"query_peers\":[");
    r.append(join_with(peers_json(facts.peers.as_slice()).as_slice(), ",").as_str());
    r.append("]}");
    r
}

/// The capabilities that the first words name: those that say what they are equal to.
pub open spec fn capability_texts(parts: Seq<Seq<char>>) -> Seq<Seq<char>>
    decreases parts.len(),
{
    if parts.len() == 0 {
        Seq::<Seq<char>>::empty()
    } else {
        let before = capability_texts(parts.drop_last());
        match split_once(parts.last(), "="@) {
            Some((key, value)) => before.push(
                "\""@ + json_escaped(key) + "\":\""@ + json_escaped(value) + "\""@,
            ),
            None => before,
        }
    }
}

/// What the planner of queries expects of a query.
pub struct PlanEstimates {
    pub plan: String,
    pub cost_model_version: u64,
    pub estimated_cost: u64,
    pub estimated_rows: u64,
    pub remote_shard_count: usize,
}

/// A plan as a JSON object; the share of the rows that the query selects is given as text.
pub open spec fn plan_body(p: PlanEstimates, selectivity: Seq<char>) -> Seq<char> {
    "{\"plan\":\""@ + json_escaped(p.plan@) + "\",\"explain\":{\"cost_model_version\":"@ + dec(
        p.cost_model_version as nat,
    ) + ",\"estimated_cost\":"@ + dec(p.estimated_cost as nat) + ",\"estimated_rows\":"@ + dec(
        p.estimated_rows as nat,
    ) + ",\"remote_shard_count\":"@ + dec(p.remote_shard_count as nat)
        + ",\"selectivity_estimate\":"@ + selectivity + "}}"@
}

/// Writes a plan as a JSON object.
pub fn query_plan_json(plan: &PlanEstimates, selectivity: &str) -> (r: String)
    ensures
        r@ == plan_body(*plan, selectivity@),
{
    let mut r = "{\"plan\":\"".to_owned();
    r.append(json_escape(plan.plan.as_str()).as_str());
    r.append("\",\"explain\":{\"cost_model_version\":");
    r.append(show(plan.cost_model_version as u128).as_str());
    r.append(",\"estimated_cost\":");
    r.append(show(plan.estimated_cost as u128).as_str());
    r.append(",\"estimated_rows\":");
    r.append(show(plan.estimated_rows as u128).as_str());
    r.append(",\"remote_shard_count\":");
    r.append(show(plan.remote_shard_count as u128).as_str());
    r.append(",\"selectivity_estimate\":");
    r.append(selectivity);
    r.append("}}");
    r
}

/// Capabilities as a JSON object.
pub open spec fn capabilities_body(capabilities: Seq<char>) -> Seq<char> {
    "{\"capabilities\":{"@ + join(capability_texts(words(capabilities)), ","@) + "}}"@
}

/// Writes capabilities, given as words `key=value`, as a JSON object.
pub fn capabilities_json(capabilities: &str) -> (r: String)
    ensures
        r@ == capabilities_body(capabilities@),
{
    let parts = words_of(capabilities);
    let mut fields: Vec<String> = Vec::new();
    let mut i: usize = 0;
    let ghost all = views(parts@);
    assert(views(fields@) =~= capability_texts(all.take(0)));
    while i < parts.len()
        invariant
            0 <= i <= parts@.len(),
            all == views(parts@),
            views(fields@) == capability_texts(all.take(i as int)),
        decreases parts@.len() - i,
    {
        assert(all.take(i + 1).drop_last() =~= all.take(i as int));
        assert(all.take(i + 1).last() == parts@[i as int]@);
        if let Some((key, value)) = split_first(parts[i].as_str(), "=") {
            let mut field = "\"".to_owned();
            field.append(json_escape(key.as_str()).as_str());
            field.append("\":\"");
            field.append(json_escape(value.as_str()).as_str());
            field.append("\"");
            proof {
                lemma_views_push(fields@, field);
            }
            fields.push(field);
        }
        i = i + 1;
    }
    assert(all.take(all.len() as int) =~= all);
    cat3("{\"capabilities\":{", join_with(fields.as_slice(), ",").as_str(), "}}")
}

/// A slow query.
pub open spec fn slow_query_text(e: SlowQuery) -> Seq<char> {
    "{\"unix_ms\":"@ + dec(e.unix_ms) + ",\"elapsed_ms\":"@ + dec(e.elapsed_ms) + ",\"query\":\""@
        + json_escaped(e.query) + "\"}"@
}

/// Slow queries, one by one.
pub open spec fn slow_query_texts(list: Seq<SlowQuery>) -> Seq<Seq<char>> {
    list.map_values(|e: SlowQuery| slow_query_text(e))
}

fn slow_query_json(e: &SlowQueryEntry) -> (r: String)
    ensures
        r@ == slow_query_text(e@),
{
    let mut r = "{\"unix_ms\":".to_owned();
    r.append(show(e.unix_ms).as_str());
    r.append(",\"elapsed_ms\":");
    r.append(show(e.elapsed_ms).as_str());
    r.append(",\"query\":\"");
    r.append(json_escape(e.query.as_str()).as_str());
    r.append("\"}");
    r
}

fn slow_query_list(entries: &[SlowQueryEntry]) -> (parts: Vec<String>)
    ensures
        views(parts@) == slow_query_texts(slow_views(entries@)),
{
    let mut parts: Vec<String> = Vec::new();
    let mut i: usize = 0;
    let ghost all = slow_query_texts(slow_views(entries@));
    assert(views(parts@) =~= all.take(0));
    while i < entries.len()
        invariant
            0 <= i <= entries@.len(),
            all == slow_query_texts(slow_views(entries@)),
            views(parts@) == all.take(i as int),
        decreases entries@.len() - i,
    {
        let part = slow_query_json(&entries[i]);
        assert(all[i as int] == part@);
        proof {
            lemma_views_push(parts@, part);
        }
        parts.push(part);
        assert(all.take(i + 1) =~= all.take(i as int).push(part@));
        i = i + 1;
    }
    assert(all.take(all.len() as int) =~= all);
    parts
}

/// Writes the slow queries.
pub fn slow_queries_json(entries: &[SlowQueryEntry]) -> (r: String)
    ensures
        r@ == "{\"queries\":["@ + join(slow_query_texts(slow_views(entries@)), ","@) + "]}"@,
{
    cat3("{\"queries\":[", join_with(slow_query_list(entries).as_slice(), ",").as_str(), "]}")
}

/// What a maintenance of the storage did.
pub struct StorageMaintenance {
    pub action: String,
    pub files_touched: u64,
    pub bytes_observed: u64,
    pub pruned_until: Vec<u64>,
    pub safety_manifest: String,
}

/// What a maintenance of the storage did.
pub open spec fn maintenance_text(m: StorageMaintenance) -> Seq<char> {
    "{\"action\":\""@ + json_escaped(m.action@) + "\",\"files_touched\":"@ + dec(
        m.files_touched as nat,
    ) + ",\"bytes_observed\":"@ + dec(m.bytes_observed as nat) + ",\"pruned_until\":["@
        + number_list(m.pruned_until@) + "],\"safety_manifest\":\""@ + json_escaped(
        m.safety_manifest@,
    ) + "\"}"@
}

/// Writes what a maintenance of the storage did.
pub fn storage_maintenance_json(result: &StorageMaintenance) -> (r: String)
    ensures
        r@ == maintenance_text(*result),
{
    let mut r = "{\"action\":\"".to_owned();
    r.append(json_escape(result.action.as_str()).as_str());
    r.append("\",\"files_touched\":");
    r.append(show(result.files_touched as u128).as_str());
    r.append(",\"bytes_observed\":");
    r.append(show(result.bytes_observed as u128).as_str());
    r.append(",\"pruned_until\":[");
    r.append(show_numbers(result.pruned_until.as_slice()).as_str());
    r.append("],\"safety_manifest\":\"");
    r.append(json_escape(result.safety_manifest.as_str()).as_str());
    r.append("\"}");
    r
}

/// Writes the text of a management command's answer.
pub fn management_response_json(response: &str) -> (r: String)
    ensures
        r@ == "{\"response\":\""@ + json_escaped(response@) + "\"}"@,
{
    cat3("{\"response\":\"", json_escape(response).as_str(), "\"}")
}

/// An example of a query.
pub open spec fn example_text(name: Seq<char>, query: Seq<char>) -> Seq<char> {
    "{\"name\":\""@ + json_escaped(name) + "\",\"query\":\""@ + json_escaped(query) + "\"}"@
}

fn example_json(name: &str, query: &str) -> (r: String)
    ensures
        r@ == example_text(name@, query@),
{
    let mut r = "{\"name\":\"".to_owned();
    r.append(json_escape(name).as_str());
    r.append("\",\"query\":\"");
    r.append(json_escape(query).as_str());
    r.append("\"}");
    r
}

/// The examples of queries.
pub open spec fn example_texts() -> Seq<Seq<char>> {
    seq![
        example_text("match_all"@, "MATCH (n) RETURN n"@),
        example_text(
            "create_person"@,
            "CREATE (n:Person {name: $name, role: $role, age: $age, status: \"active\"}) RETURN n"@,
        ),
        example_text(
            "create_with_relationship"@,
            "CREATE (n:Person {name: $name, role: $role, age: $age, status: \"active\"})\nWITH n\nMATCH (c:Company {name: $company})\nCREATE (n)-[r:WORKS_AT {since: $since}]->(c)\nRETURN n, r"@,
        ),
        example_text(
            "profile_work"@,
            "MATCH (a:Person)-[r:WORKS_AT]->(b:Company) RETURN a.name, b.name, r.since"@,
        ),
    ]
}

/// Writes the examples of queries.
pub fn query_examples_json() -> (r: String)
    ensures
        r@ == "{\"examples\":["@ + join(example_texts(), ","@) + "]}"@,
{
    let mut parts: Vec<String> = Vec::new();
    parts.push(example_json("match_all", "MATCH (n) RETURN n"));
    parts.push(
        example_json(
            "create_person",
            "CREATE (n:Person {name: $name, role: $role, age: $age, status: \"active\"}) RETURN n",
        ),
    );
    parts.push(
        example_json(
            "create_with_relationship",
            "CREATE (n:Person {name: $name, role: $role, age: $age, status: \"active\"})\nWITH n\nMATCH (c:Company {name: $company})\nCREATE (n)-[r:WORKS_AT {since: $since}]->(c)\nRETURN n, r",
        ),
    );
    parts.push(
        example_json(
            "profile_work",
            "MATCH (a:Person)-[r:WORKS_AT]->(b:Company) RETURN a.name, b.name, r.since",
        ),
    );
    assert(views(parts@) =~= example_texts());
    cat3("{\"examples\":[", join_with(parts.as_slice(), ",").as_str(), "]}")
}

/// Tells where the data of the system and of the databases stand.
pub fn system_policy_json() -> (r: &'static str)
    ensures
        r@
            == "{\"system_database\":\"system\",\"tenant_database_root\":\"databases\",\"system_metadata\":[\"web_auth\",\"web_audit\",\"web_sessions\"],\"tenant_backup_includes_system_metadata\":false,\"selected_database_header\":\"x-neo4r-database\"}"@,
{
    "{\"system_database\":\"system\",\"tenant_database_root\":\"databases\",\"system_metadata\":[\"web_auth\",\"web_audit\",\"web_sessions\"],\"tenant_backup_includes_system_metadata\":false,\"selected_database_header\":\"x-neo4r-database\"}"
}

/// Writes that a server is ready for a database.
pub fn ready_json(database: &str) -> (r: String)
    ensures
        r@ == "{\"status\":\"ready\",\"database\":\""@ + json_escaped(database@) + "\"}"@,
{
    cat3("{\"status\":\"ready\",\"database\":\"", json_escape(database).as_str(), "\"}")
}

/// Writes which database a request selects.
pub fn selected_database_json(database: &str) -> (r: String)
    ensures
        r@ == "{\"database\":\""@ + json_escaped(database@) + "\"}"@,
{
    cat3("{\"database\":\"", json_escape(database).as_str(), "\"}")
}

/// A database and whether it is disabled.
pub struct TenantDatabaseRecord {
    pub name: String,
    pub disabled: bool,
}

/// A database.
pub open spec fn database_text(d: TenantDatabaseRecord) -> Seq<char> {
    "{\"name\":\""@ + json_escaped(d.name@) + "\",\"disabled\":"@ + bool_text(d.disabled) + "}"@
}

fn database_json(d: &TenantDatabaseRecord) -> (r: String)
    ensures
        r@ == database_text(*d),
{
    let mut r = "{\"name\":\"".to_owned();
    r.append(json_escape(d.name.as_str()).as_str());
    r.append("\",\"disabled\":");
    r.append(show_bool(d.disabled));
    r.append("}");
    r
}

/// Databases, one by one.
pub open spec fn database_texts(list: Seq<TenantDatabaseRecord>) -> Seq<Seq<char>> {
    list.map_values(|d: TenantDatabaseRecord| database_text(d))
}

fn database_list(list: &[TenantDatabaseRecord]) -> (parts: Vec<String>)
    ensures
        views(parts@) == database_texts(list@),
{
    let mut parts: Vec<String> = Vec::new();
    let mut i: usize = 0;
    let ghost all = database_texts(list@);
    assert(views(parts@) =~= all.take(0));
    while i < list.len()
        invariant
            0 <= i <= list@.len(),
            all == database_texts(list@),
            views(parts@) == all.take(i as int),
        decreases list@.len() - i,
    {
        let part = database_json(&list[i]);
        assert(all[i as int] == part@);
        proof {
            lemma_views_push(parts@, part);
        }
        parts.push(part);
        assert(all.take(i + 1) =~= all.take(i as int).push(part@));
        i = i + 1;
    }
    assert(all.take(all.len() as int) =~= all);
    parts
}

/// All databases.
pub open spec fn databases_body(list: Seq<TenantDatabaseRecord>) -> Seq<char> {
    "{\"databases\":["@ + join(database_texts(list), ","@) + "]}"@
}

/// Writes all databases; without a manager of databases there is the default one.
pub fn databases_json(records: &Option<Vec<TenantDatabaseRecord>>) -> (r: String)
    ensures
        r@ == (match *records {
            Some(list) => databases_body(list@),
            None => "{\"databases\":["@ + "{\"name\":\"default\",\"disabled\":false}"@ + "]}"@,
        }),
{
    match records {
        Some(list) => cat3(
            "{\"databases\":[",
            join_with(database_list(list.as_slice()).as_slice(), ",").as_str(),
            "]}",
        ),
        None => cat3("{\"databases\":[", "{\"name\":\"default\",\"disabled\":false}", "]}"),
    }
}

/// A user of the web interface, as it is shown.
pub struct WebUserInfo {
    pub name: String,
    pub token_id: String,
    pub role: WebRole,
    pub database_roles: String,
    pub denied_databases: String,
    pub expired_at: u128,
    pub revoked: bool,
    pub active: bool,
    pub created_at: u128,
    pub last_used_at: u128,
}

/// A user.
pub open spec fn user_text(u: WebUserInfo) -> Seq<char> {
    "{\"name\":\""@ + json_escaped(u.name@) + "\",\"token_id\":\""@ + json_escaped(u.token_id@)
        + "\",\"role\":\""@ + u.role.text() + "\",\"database_roles\":\""@
        + json_escaped(u.database_roles@) + "\",\"denied_databases\":\""@
        + json_escaped(u.denied_databases@) + "\",\"expired_at\":"@ + dec(u.expired_at as nat)
        + ",\"revoked\":"@ + bool_text(u.revoked) + ",\"active\":"@ + bool_text(u.active)
        + ",\"created_at\":"@ + dec(u.created_at as nat) + ",\"last_used_at\":"@
        + dec(u.last_used_at as nat) + "}"@
}

fn user_json(u: &WebUserInfo) -> (r: String)
    ensures
        r@ == user_text(*u),
{
    let mut r = "{\"name\":\"".to_owned();
    r.append(json_escape(u.name.as_str()).as_str());
    r.append("\",\"token_id\":\"");
    r.append(json_escape(u.token_id.as_str()).as_str());
    r.append("\",\"role\":\"");
    r.append(u.role.as_str());
    r.append("\",\"database_roles\":\"");
    r.append(json_escape(u.database_roles.as_str()).as_str());
    r.append("\",\"denied_databases\":\"");
    r.append(json_escape(u.denied_databases.as_str()).as_str());
    r.append("\",\"expired_at\":");
    r.append(show(u.expired_at).as_str());
    r.append(",\"revoked\":");
    r.append(show_bool(u.revoked));
    r.append(",\"active\":");
    r.append(show_bool(u.active));
    r.append(",\"created_at\":");
    r.append(show(u.created_at).as_str());
    r.append(",\"last_used_at\":");
    r.append(show(u.last_used_at).as_str());
    r.append("}");
    r
}

/// Users, one by one.
pub open spec fn user_texts(users: Seq<WebUserInfo>) -> Seq<Seq<char>> {
    users.map_values(|u: WebUserInfo| user_text(u))
}

fn user_list(users: &[WebUserInfo]) -> (parts: Vec<String>)
    ensures
        views(parts@) == user_texts(users@),
{
    let mut parts: Vec<String> = Vec::new();
    let mut i: usize = 0;
    let ghost all = user_texts(users@);
    assert(views(parts@) =~= all.take(0));
    while i < users.len()
        invariant
            0 <= i <= users@.len(),
            all == user_texts(users@),
            views(parts@) == all.take(i as int),
        decreases users@.len() - i,
    {
        let part = user_json(&users[i]);
        assert(all[i as int] == part@);
        proof {
            lemma_views_push(parts@, part);
        }
        parts.push(part);
        assert(all.take(i + 1) =~= all.take(i as int).push(part@));
        i = i + 1;
    }
    assert(all.take(all.len() as int) =~= all);
    parts
}

/// Writes all users.
pub fn web_users_json(users: &[WebUserInfo]) -> (r: String)
    ensures
        r@ == "{\"users\":["@ + join(user_texts(users@), ","@) + "]}"@,
{
    cat3("{\"users\":[", join_with(user_list(users).as_slice(), ",").as_str(), "]}")
}

/// An event of the audit log.
pub struct AuditEvent {
    pub unix_ms: u128,
    pub action: String,
    pub target: String,
    pub detail: String,
}

/// An event.
pub open spec fn event_text(e: AuditEvent) -> Seq<char> {
    "{\"unix_ms\":"@ + dec(e.unix_ms as nat) + ",\"action\":\""@ + json_escaped(e.action@)
        + "\",\"target\":\""@ + json_escaped(e.target@) + "\",\"detail\":\""@
        + json_escaped(e.detail@) + "\"}"@
}

fn event_json(e: &AuditEvent) -> (r: String)
    ensures
        r@ == event_text(*e),
{
    let mut r = "{\"unix_ms\":".to_owned();
    r.append(show(e.unix_ms).as_str());
    r.append(",\"action\":\"");
    r.append(json_escape(e.action.as_str()).as_str());
    r.append("\",\"target\":\"");
    r.append(json_escape(e.target.as_str()).as_str());
    r.append("\",\"detail\":\"");
    r.append(json_escape(e.detail.as_str()).as_str());
    r.append("\"}");
    r
}

/// Whether a text holds what is looked for, where something is.
pub open spec fn fits(text: Seq<char>, wanted: Option<Seq<char>>) -> bool {
    match wanted {
        Some(w) => holds(text, w),
        None => true,
    }
}

/// The events that are shown: the newest first, those whose action and target hold what is
/// looked for, and no more than the limit.
pub open spec fn shown_events(
    events: Seq<AuditEvent>,
    action: Option<Seq<char>>,
    target: Option<Seq<char>>,
    limit: nat,
) -> Seq<Seq<char>>
    decreases events.len(),
{
    if events.len() == 0 || limit == 0 {
        Seq::<Seq<char>>::empty()
    } else if fits(events.last().action@, action) && fits(events.last().target@, target) {
        seq![event_text(events.last())] + shown_events(
            events.drop_last(),
            action,
            target,
            (limit - 1) as nat,
        )
    } else {
        shown_events(events.drop_last(), action, target, limit)
    }
}

fn fits_text(text: &str, wanted: &Option<String>) -> (r: bool)
    ensures
        r == fits(text@, crate::http::opt_text(*wanted)),
{
    match wanted {
        Some(w) => contains(text, w.as_str()),
        None => true,
    }
}

/// Writes the events of the audit log that are looked for.
pub fn web_audit_json_filtered(
    events: &[AuditEvent],
    action: &Option<String>,
    target: &Option<String>,
    limit: Option<usize>,
) -> (r: String)
    ensures
        r@ == "{\"events\":["@ + join(
            shown_events(
                events@,
                crate::http::opt_text(*action),
                crate::http::opt_text(*target),
                match limit {
                    Some(n) => n as nat,
                    None => usize::MAX as nat,
                },
            ),
            ","@,
        ) + "]}"@,
{
    let limit: usize = match limit {
        Some(n) => n,
        None => usize::MAX,
    };
    let ghost a = crate::http::opt_text(*action);
    let ghost t = crate::http::opt_text(*target);
    let mut parts: Vec<String> = Vec::new();
    let mut i: usize = events.len();
    let mut left: usize = limit;
    let ghost all = shown_events(events@, a, t, limit as nat);
    assert(events@.take(i as int) =~= events@);
    assert(views(parts@) + all =~= all);
    while i > 0 && left > 0
        invariant
            0 <= i <= events@.len(),
            a == crate::http::opt_text(*action),
            t == crate::http::opt_text(*target),
            views(parts@) + shown_events(events@.take(i as int), a, t, left as nat) == all,
        decreases i,
    {
        let ghost here = events@.take(i as int);
        assert(here.drop_last() =~= events@.take(i - 1));
        assert(here.last() == events@[i - 1]);
        let e = &events[i - 1];
        if fits_text(e.action.as_str(), action) && fits_text(e.target.as_str(), target) {
            let part = event_json(e);
            let ghost before = views(parts@);
            proof {
                lemma_views_push(parts@, part);
            }
            parts.push(part);
            left = left - 1;
            assert(before + (seq![part@] + shown_events(events@.take(i - 1), a, t, left as nat))
                =~= views(parts@) + shown_events(events@.take(i - 1), a, t, left as nat));
        }
        i = i - 1;
    }
    assert(shown_events(events@.take(i as int), a, t, left as nat) =~= Seq::<Seq<char>>::empty());
    assert(views(parts@) =~= all);
    cat3("{\"events\":[", join_with(parts.as_slice(), ",").as_str(), "]}")
}

} // verus!
