//! How a server starts: what it was asked to do, what it needs for that, and what it does from
//! time to time while it runs.

use vstd::prelude::*;

use crate::args::{number_of, peers_of, setting, ServerArgs};
use crate::backend::TcpBackendConfig;
use crate::model::{ReplicationChannelKind, ShardRoutingTable};
use crate::options::{peer_views, ReplicaPeer, ServerOption, Setting};
use crate::replication::CatchUpResult;
use crate::routing::{metadata_primary, metadata_primary_server_id};
use crate::text::{cat, cat3, dec, show};

verus! {

/// What a server is asked to do.
#[derive(Clone, Copy, Debug, PartialEq, Eq, Structural)]
pub enum StartAction {
    CheckConfig,
    ProductionCheck,
    DumpConfig,
    Daemonize,
    Serve,
}

/// What a server is asked to do: the first of the actions that is asked for, and otherwise to
/// serve.
pub open spec fn action_asked(m: Map<ServerOption, Setting>) -> StartAction {
    if m.dom().contains(ServerOption::CheckConfig) {
        StartAction::CheckConfig
    } else if m.dom().contains(ServerOption::ProductionCheck) {
        StartAction::ProductionCheck
    } else if m.dom().contains(ServerOption::DumpConfig) {
        StartAction::DumpConfig
    } else if m.dom().contains(ServerOption::Daemonize) {
        StartAction::Daemonize
    } else {
        StartAction::Serve
    }
}

/// Tells what a server is asked to do.
pub fn start_action(args: &ServerArgs) -> (r: StartAction)
    requires
        args.well_formed(),
    ensures
        r == action_asked(args@),
{
    if args.is_set(ServerOption::CheckConfig) {
        StartAction::CheckConfig
    } else if args.is_set(ServerOption::ProductionCheck) {
        StartAction::ProductionCheck
    } else if args.is_set(ServerOption::DumpConfig) {
        StartAction::DumpConfig
    } else if args.is_set(ServerOption::Daemonize) {
        StartAction::Daemonize
    } else {
        StartAction::Serve
    }
}

/// Checks that a routing table has a placement for each shard.
pub fn check_routing_size(table: &ShardRoutingTable, shard_count: u64) -> (r: Result<(), String>)
    ensures
        r is Ok <==> table.placements@.len() == shard_count,
        r is Err ==> r->Err_0@ == "routing table contains "@ + dec(table.placements@.len())
            + " shard placements but --shards is "@ + dec(shard_count as nat),
{
    let n: usize = table.placements.len();
    if n as u64 != shard_count {
        let mut e = "routing table contains ".to_owned();
        e.append(show(n as u128).as_str());
        e.append(" shard placements but --shards is ");
        e.append(show(shard_count as u128).as_str());
        return Err(e);
    }
    Ok(())
}

/// How a server works that is started with the arguments.
pub fn backend_config(args: &ServerArgs) -> (r: TcpBackendConfig)
    requires
        args.well_formed(),
    ensures
        number_of(args@, ServerOption::Workers) == Some(r.worker_count as nat),
        number_of(args@, ServerOption::QueueCapacity) == Some(r.queue_capacity as nat),
        number_of(args@, ServerOption::PageSize) == Some(r.default_page_size as nat),
        setting(args@, ServerOption::ReadPreference) == Some(
            Setting::ReadPreference(r.read_preference),
        ),
        number_of(args@, ServerOption::ReplicationConnectTimeoutMs) == Some(
            r.catch_up_connect_timeout_ms as nat,
        ),
{
    let workers: u64 = args.number(ServerOption::Workers).unwrap();
    let queue: u64 = args.number(ServerOption::QueueCapacity).unwrap();
    let page: u64 = args.number(ServerOption::PageSize).unwrap();
    let timeout: u64 = args.number(ServerOption::ReplicationConnectTimeoutMs).unwrap();
    TcpBackendConfig {
        worker_count: workers as usize,
        queue_capacity: queue as usize,
        default_page_size: page as usize,
        read_preference: args.read_preference(),
        catch_up_connect_timeout_ms: timeout,
    }
}

/// The time after which a server that has not heard of a leader calls an election: each server
/// waits a little differently.
pub fn election_timeout_ms(server_id: u64) -> (r: u64)
    ensures
        r == 1500 + (server_id % 7) * 137,
        1500 <= r <= 2322,
{
    1500 + (server_id % 7) * 137
}

/// How often the followers of a server hear from it.
pub const HEARTBEAT_INTERVAL_MS: u64 = 250;

/// Counts a heartbeat; tells how many there were, and whether an election is looked into: with
/// every eighth.
pub fn heartbeat(ticks: u64) -> (r: (u64, bool))
    ensures
        r.0 == (if ticks < u64::MAX {
            ticks + 1
        } else {
            u64::MAX as int
        }),
        r.1 == (r.0 % 8 == 0),
{
    let next: u64 = ticks.saturating_add(1);
    (next, next % 8 == 0)
}

/// The servers that are replicated to from the start: the replicas, and behind them the other
/// peers.
pub fn replication_targets(args: &ServerArgs) -> (r: Vec<ReplicaPeer>)
    requires
        args.well_formed(),
    ensures
        peer_views(r@) == peers_of(args@, ServerOption::ReplicaPeer) + peers_of(
            args@,
            ServerOption::Peer,
        ),
{
    let mut r = args.peers(ServerOption::ReplicaPeer);
    let mut others = args.peers(ServerOption::Peer);
    let ghost first = r@;
    let ghost second = others@;
    r.append(&mut others);
    assert(peer_views(r@) =~= peer_views(first) + peer_views(second));
    assert(peer_views(first) =~= peers_of(args@, ServerOption::ReplicaPeer));
    assert(peer_views(second) =~= peers_of(args@, ServerOption::Peer));
    r
}

/// What keeps replication from running over a transport.
pub open spec fn transport_refusal(transport: ReplicationChannelKind) -> Option<Seq<char>> {
    match transport {
        ReplicationChannelKind::Tcp => None,
        ReplicationChannelKind::Rdma => Some(
            "--replication-transport rdma requires --features rdma"@,
        ),
        ReplicationChannelKind::Udp => Some("udp is not supported for raft replication transport"@),
        ReplicationChannelKind::Custom => Some(
            "custom replication transport requires explicit provider wiring"@,
        ),
    }
}

/// Checks that replication can run over a transport; it is built for TCP.
pub fn check_replication_transport(transport: ReplicationChannelKind) -> (r: Result<(), String>)
    ensures
        match r {
            Ok(_) => transport_refusal(transport) is None,
            Err(e) => transport_refusal(transport) == Some(e@),
        },
{
    match transport {
        ReplicationChannelKind::Tcp => Ok(()),
        ReplicationChannelKind::Rdma => Err(
            "--replication-transport rdma requires --features rdma".to_owned(),
        ),
        ReplicationChannelKind::Udp => Err(
            "udp is not supported for raft replication transport".to_owned(),
        ),
        ReplicationChannelKind::Custom => Err(
            "custom replication transport requires explicit provider wiring".to_owned(),
        ),
    }
}

/// Checks that others can reach this server over a transport; it listens on TCP.
pub fn check_replication_listener(transport: ReplicationChannelKind) -> (r: Result<(), String>)
    ensures
        match transport {
            ReplicationChannelKind::Tcp => r is Ok,
            ReplicationChannelKind::Rdma => r is Err && r->Err_0@
                == "--replication-transport rdma requires --features rdma"@,
            ReplicationChannelKind::Udp => r is Err && r->Err_0@
                == "replication listener does not support Udp"@,
            ReplicationChannelKind::Custom => r is Err && r->Err_0@
                == "replication listener does not support Custom"@,
        },
{
    match transport {
        ReplicationChannelKind::Tcp => Ok(()),
        ReplicationChannelKind::Rdma => Err(
            "--replication-transport rdma requires --features rdma".to_owned(),
        ),
        ReplicationChannelKind::Udp => Err("replication listener does not support Udp".to_owned()),
        ReplicationChannelKind::Custom => Err(
            "replication listener does not support Custom".to_owned(),
        ),
    }
}

/// Tells whether a server catches up with the others when it starts; without a cluster there is
/// nothing to catch up with.
pub fn catches_up_on_startup(args: &ServerArgs, clustered: bool) -> (r: Result<bool, String>)
    requires
        args.well_formed(),
    ensures
        ({
            let asked = args@.dom().contains(ServerOption::CatchUpOnStartup);
            if asked && !clustered {
                r is Err && r->Err_0@ == "--catch-up-on-startup requires cluster routing"@
            } else {
                r == Ok::<bool, String>(asked)
            }
        }),
{
    let asked = args.is_set(ServerOption::CatchUpOnStartup);
    if asked && !clustered {
        return Err("--catch-up-on-startup requires cluster routing".to_owned());
    }
    Ok(asked)
}

/// Tells how often a server catches up with the others while it runs, if it does.
pub fn catch_up_interval(args: &ServerArgs, clustered: bool) -> (r: Result<Option<u64>, String>)
    requires
        args.well_formed(),
    ensures
        match number_of(args@, ServerOption::CatchUpIntervalMs) {
            None => r == Ok::<Option<u64>, String>(None),
            Some(ms) => if clustered {
                r is Ok && r->Ok_0 is Some && r->Ok_0->Some_0 == ms
            } else {
                r is Err && r->Err_0@ == "--catch-up-interval-ms requires cluster routing"@
            },
        },
{
    match args.number(ServerOption::CatchUpIntervalMs) {
        None => Ok(None),
        Some(ms) => if clustered {
            Ok(Some(ms))
        } else {
            Err("--catch-up-interval-ms requires cluster routing".to_owned())
        },
    }
}

/// The server that the catalog of indexes comes from, if that is another one.
pub open spec fn catalog_source(
    table: Option<ShardRoutingTable>,
    local: nat,
    unclustered: Seq<char>,
) -> Result<Option<u64>, Seq<char>> {
    match table {
        None => Err(unclustered),
        Some(t) => match metadata_primary(t@.placements) {
            None => Err("routing table missing shard 0 primary"@),
            Some(primary) => if primary == local {
                Ok(None)
            } else {
                Ok(Some(primary))
            },
        },
    }
}

fn find_catalog_source(table: &Option<ShardRoutingTable>, local: u64, unclustered: &str) -> (r:
    Result<Option<u64>, String>)
    ensures
        match r {
            Ok(s) => catalog_source(*table, local as nat, unclustered@) == Ok::<
                Option<u64>,
                Seq<char>,
            >(s),
            Err(e) => catalog_source(*table, local as nat, unclustered@) == Err::<
                Option<u64>,
                Seq<char>,
            >(e@),
        },
{
    match table {
        None => Err(unclustered.to_owned()),
        Some(t) => match metadata_primary_server_id(t) {
            Err(e) => Err(e),
            Ok(primary) => if primary == local {
                Ok(None)
            } else {
                Ok(Some(primary))
            },
        },
    }
}

/// Tells which server the catalog of indexes is fetched from when a server starts, if any.
pub fn catalog_sync_on_startup(args: &ServerArgs, table: &Option<ShardRoutingTable>) -> (r: Result<
    Option<u64>,
    String,
>)
    requires
        args.well_formed(),
    ensures
        if !args@.dom().contains(ServerOption::SyncIndexCatalogOnStartup) {
            r == Ok::<Option<u64>, String>(None)
        } else {
            match catalog_source(
                *table,
                number_of(args@, ServerOption::ServerId)->0,
                "--sync-index-catalog-on-startup requires cluster routing"@,
            ) {
                Ok(s) => r == Ok::<Option<u64>, String>(s),
                Err(e) => r is Err && r->Err_0@ == e,
            }
        },
{
    if !args.is_set(ServerOption::SyncIndexCatalogOnStartup) {
        return Ok(None);
    }
    let local: u64 = args.number(ServerOption::ServerId).unwrap();
    find_catalog_source(table, local, "--sync-index-catalog-on-startup requires cluster routing")
}

/// A catalog of indexes that is fetched from a server from time to time.
#[derive(Clone, Copy, Debug, PartialEq, Eq, Structural)]
pub struct CatalogSync {
    pub interval_ms: u64,
    pub server_id: u64,
}

/// Tells how often the catalog of indexes is fetched while a server runs, and from which server,
/// if it is.
pub fn catalog_sync_interval(args: &ServerArgs, table: &Option<ShardRoutingTable>) -> (r: Result<
    Option<CatalogSync>,
    String,
>)
    requires
        args.well_formed(),
    ensures
        match number_of(args@, ServerOption::SyncIndexCatalogIntervalMs) {
            None => r == Ok::<Option<CatalogSync>, String>(None),
            Some(ms) => match catalog_source(
                *table,
                number_of(args@, ServerOption::ServerId)->0,
                "--sync-index-catalog-interval-ms requires cluster routing"@,
            ) {
                Ok(None) => r == Ok::<Option<CatalogSync>, String>(None),
                Ok(Some(server_id)) => r == Ok::<Option<CatalogSync>, String>(
                    Some(CatalogSync { interval_ms: ms as u64, server_id }),
                ),
                Err(e) => r is Err && r->Err_0@ == e,
            },
        },
{
    let interval_ms: u64 = match args.number(ServerOption::SyncIndexCatalogIntervalMs) {
        None => return Ok(None),
        Some(ms) => ms,
    };
    let local: u64 = args.number(ServerOption::ServerId).unwrap();
    match find_catalog_source(
        table,
        local,
        "--sync-index-catalog-interval-ms requires cluster routing",
    ) {
        Err(e) => Err(e),
        Ok(None) => Ok(None),
        Ok(Some(server_id)) => Ok(Some(CatalogSync { interval_ms, server_id })),
    }
}

/// No server fetches the catalog of indexes from itself.
pub proof fn catalogs_come_from_others(table: Option<ShardRoutingTable>, local: u64, why: Seq<char>)
    ensures
        catalog_source(table, local as nat, why) != Ok::<Option<u64>, Seq<char>>(Some(local)),
{
}

/// What is logged of a shard that was caught up with.
pub open spec fn catch_up_line_text(opening: Seq<char>, e: CatchUpResult) -> Seq<char> {
    opening + dec(e.shard_id as nat) + " from primary="@ + dec(e.primary_server_id as nat)
        + " start_index="@ + dec(e.start_index as nat) + " end_index="@ + dec(e.end_index as nat)
        + " fetched="@ + dec(e.fetched_entries as nat)
}

fn show_catch_up(opening: &str, e: &CatchUpResult) -> (r: String)
    ensures
        r@ == catch_up_line_text(opening@, *e),
{
    let mut r = opening.to_owned();
    r.append(show(e.shard_id as u128).as_str());
    r.append(" from primary=");
    r.append(show(e.primary_server_id as u128).as_str());
    r.append(" start_index=");
    r.append(show(e.start_index as u128).as_str());
    r.append(" end_index=");
    r.append(show(e.end_index as u128).as_str());
    r.append(" fetched=");
    r.append(show(e.fetched_entries as u128).as_str());
    r
}

/// What is logged of a shard that a server caught up with when it started.
pub fn startup_catch_up_line(result: &CatchUpResult) -> (r: String)
    ensures
        r@ == catch_up_line_text("neo4r-server catch-up shard="@, *result),
{
    show_catch_up("neo4r-server catch-up shard=", result)
}

/// What is logged of a shard that a server caught up with while it ran: nothing, if there was
/// nothing new.
pub fn periodic_catch_up_line(result: &CatchUpResult) -> (r: Option<String>)
    ensures
        r is Some <==> result.fetched_entries > 0,
        r is Some ==> r->Some_0@ == catch_up_line_text(
            "neo4r-server periodic catch-up shard="@,
            *result,
        ),
{
    if result.fetched_entries > 0 {
        Some(show_catch_up("neo4r-server periodic catch-up shard=", result))
    } else {
        None
    }
}

/// What is logged of transactions that a server recovered when it started.
pub fn startup_recovery_line(recovered: usize) -> (r: String)
    ensures
        r@ == "neo4r-server recovered "@ + dec(recovered as nat) + " transaction decision(s)"@,
{
    cat3("neo4r-server recovered ", show(recovered as u128).as_str(), " transaction decision(s)")
}

/// What is logged of transactions that a server recovered while it ran: nothing, if there were
/// none.
pub fn periodic_recovery_line(outcome: &Result<usize, String>) -> (r: Option<String>)
    ensures
        match *outcome {
            Ok(n) => if n > 0 {
                r is Some && r->Some_0@
                    == "neo4r-server periodic transaction recovery recovered "@ + dec(n as nat)
                    + " decision(s)"@
            } else {
                r is None
            },
            Err(e) => r is Some && r->Some_0@
                == "neo4r-server periodic transaction recovery failed: "@ + e@,
        },
{
    match outcome {
        Ok(n) => if *n > 0 {
            Some(
                cat3(
                    "neo4r-server periodic transaction recovery recovered ",
                    show(*n as u128).as_str(),
                    " decision(s)",
                ),
            )
        } else {
            None
        },
        Err(e) => Some(
            cat("neo4r-server periodic transaction recovery failed: ", e.as_str()),
        ),
    }
}

} // verus!
