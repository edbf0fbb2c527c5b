//! The server behind its connections: its configuration, the servers it knows, and what it does
//! itself for requests about them.

use vstd::prelude::*;

use crate::cluster::ClusterStatus;
use crate::gossip::{
    addresses_after_hearing, after_hearing, after_members, apply_gossip_node_to_stores, is_news,
    list_gossip_nodes_from_store, node_problem, nodes_text, refresh_gossip_from_membership, values,
    ClusterMember, GossipNode, GossipNodeRecord, GossipNodeStore, Heard,
};
use crate::identities::{
    closes_circle, is_valid, Identity, ReplicationPeerIdentity, ReplicationPeerIdentityStore,
};
use crate::json::{bool_text, show_bool};
use crate::model::{QueryReadPreference, ReplicationChannelKind, ShardRoutingTable};
use crate::peers::{address_views, format_query_peers, peers_text, QueryPeerStore};
use crate::ranking::ranked;
use crate::replication::{
    catch_up_plan, format_catch_up_plan, format_replication_peer_status, identity_problem,
    peer_status_texts, plan_entry_texts, replication_endpoint, replication_peer_status,
    replication_status, replication_text, servers_told, statuses, to_catch_up,
    validate_replication_peer_identity, ReplicationEndpoint,
};
use crate::requests::{BackendResponse, BackendTask, Response, Task};
use crate::table::sorted;
use crate::text::{cat, dec, join, show};

verus! {

/// How a server works: how many workers it has, how many requests may wait for them, how many
/// rows a page has, which servers it reads from, and how long it waits for another server.
#[derive(Clone, Copy, Debug, PartialEq, Eq, Structural)]
pub struct TcpBackendConfig {
    pub worker_count: usize,
    pub queue_capacity: usize,
    pub default_page_size: usize,
    pub read_preference: QueryReadPreference,
    pub catch_up_connect_timeout_ms: u64,
}

/// A number, but at least one.
pub open spec fn at_least_one(n: usize) -> usize {
    if n == 0 {
        1
    } else {
        n
    }
}

fn or_one(n: usize) -> (r: usize)
    ensures
        r == at_least_one(n),
{
    if n == 0 {
        1
    } else {
        n
    }
}

impl TcpBackendConfig {
    /// The usual configuration, with as many workers as the machine runs at once.
    pub fn with_workers(worker_count: usize) -> (r: Self)
        ensures
            r == (TcpBackendConfig {
                worker_count,
                queue_capacity: 1024,
                default_page_size: 128,
                read_preference: QueryReadPreference::Primary,
                catch_up_connect_timeout_ms: 1000,
            }),
    {
        TcpBackendConfig {
            worker_count,
            queue_capacity: 1024,
            default_page_size: 128,
            read_preference: QueryReadPreference::Primary,
            catch_up_connect_timeout_ms: 1000,
        }
    }

    /// The configuration that a server runs with: there is a worker, room for a request, and a
    /// row on a page.
    pub fn effective(&self) -> (r: Self)
        ensures
            r == (TcpBackendConfig {
                worker_count: at_least_one(self.worker_count),
                queue_capacity: at_least_one(self.queue_capacity),
                default_page_size: at_least_one(self.default_page_size),
                ..*self
            }),
    {
        TcpBackendConfig {
            worker_count: or_one(self.worker_count),
            queue_capacity: or_one(self.queue_capacity),
            default_page_size: or_one(self.default_page_size),
            read_preference: self.read_preference,
            catch_up_connect_timeout_ms: self.catch_up_connect_timeout_ms,
        }
    }
}

/// A server: its configuration, the token and the threshold of its web console, and the servers
/// that it knows.
pub struct TcpBackend {
    pub config: TcpBackendConfig,
    pub web_auth_token: Option<String>,
    pub slow_query_threshold_ms: u64,
    pub query_peers: QueryPeerStore,
    pub replication_peers: QueryPeerStore,
    pub replication_peer_identities: ReplicationPeerIdentityStore,
    pub gossip_nodes: GossipNodeStore,
}

/// The servers that a server knows: where queries go, where replication goes, who they are, and
/// what was heard of them.
pub struct Known {
    pub query_peers: Map<u64, Seq<char>>,
    pub replication_peers: Map<u64, Seq<char>>,
    pub identities: Map<u64, Identity>,
    pub nodes: Map<u64, GossipNode>,
}

/// What is known from outside when a request about servers is carried out. A request uses of it
/// what it asks for.
pub struct PeerFacts {
    pub routing: Result<ShardRoutingTable, String>,
    pub status: Result<ClusterStatus, String>,
    pub committed: Result<Vec<u64>, String>,
    pub members: Result<(Vec<ClusterMember>, u64), String>,
    pub now_ms: u64,
}

impl PeerFacts {
    /// No shard has committed as many entries as can be counted.
    pub open spec fn well_formed(&self) -> bool {
        self.committed is Ok ==> forall|i: int|
            0 <= i < self.committed->Ok_0@.len() ==> #[trigger] self.committed->Ok_0@[i] < u64::MAX
    }
}

/// What came of a request about servers: it is answered, with a change of what is known or
/// without one, or it is left to others.
pub enum PeerStep {
    Answered { response: BackendResponse, changed: bool },
    Left(BackendTask),
}

/// The contents of what came of a request about servers.
pub enum PeerNext {
    Answered { response: Response, changed: bool },
    Left(Task),
}

impl PeerStep {
    pub open spec fn view(&self) -> PeerNext {
        match *self {
            PeerStep::Answered { response, changed } => PeerNext::Answered {
                response: response@,
                changed,
            },
            PeerStep::Left(t) => PeerNext::Left(t@),
        }
    }
}

/// What a request about servers does: what is known after it, and what came of it or why it
/// failed.
pub struct PeerEffect {
    pub known: Known,
    pub next: Result<PeerNext, Seq<char>>,
}

/// The contents of what came of a request about servers, or of why it failed.
pub open spec fn step_contents(r: Result<PeerStep, String>) -> Result<PeerNext, Seq<char>> {
    match r {
        Ok(s) => Ok(s@),
        Err(e) => Err(e@),
    }
}

pub open spec fn told(response: Response) -> Result<PeerNext, Seq<char>> {
    Ok(PeerNext::Answered { response, changed: false })
}

pub open spec fn changed(response: Response) -> Result<PeerNext, Seq<char>> {
    Ok(PeerNext::Answered { response, changed: true })
}

/// What is told of the servers that this one replicates with.
pub open spec fn peers_told(known: Known, server_id: Option<u64>, facts: PeerFacts) -> Result<
    PeerNext,
    Seq<char>,
> {
    match facts.routing {
        Err(e) => Err(e@),
        Ok(table) => match facts.status {
            Err(e) => Err(e@),
            Ok(status) => told(
                Response::OkReplicationPeerStatus(
                    join(
                        peer_status_texts(
                            statuses(
                                table.placements@,
                                known.replication_peers,
                                sorted(
                                    servers_told(
                                        table.placements@,
                                        known.replication_peers,
                                        status.server_id,
                                        server_id,
                                    ),
                                ),
                            ),
                        ),
                        ","@,
                    ),
                ),
            ),
        },
    }
}

/// Which shards have to be caught up with, as it is told.
pub open spec fn plan_told(known: Known, server_id: Option<u64>, facts: PeerFacts) -> Result<
    PeerNext,
    Seq<char>,
> {
    match facts.routing {
        Err(e) => Err(e@),
        Ok(table) => match facts.status {
            Err(e) => Err(e@),
            Ok(status) => match facts.committed {
                Err(e) => Err(e@),
                Ok(committed) => match to_catch_up(
                    table.placements@,
                    status.server_id,
                    known.replication_peers,
                    committed@,
                    server_id,
                    0,
                    Seq::empty(),
                ) {
                    Err(e) => Err(e),
                    Ok(found) => told(
                        Response::OkCatchUpPlan(join(plan_entry_texts(ranked(found)), ","@)),
                    ),
                },
            },
        },
    }
}

/// What hearing of a node does.
pub open spec fn gossip_effect(known: Known, node: GossipNode) -> PeerEffect {
    PeerEffect {
        known: Known {
            nodes: after_hearing(known.nodes, node),
            query_peers: addresses_after_hearing(known.nodes, known.query_peers, node),
            ..known
        },
        next: match node_problem(node) {
            Some(e) => Err(e),
            None => changed(
                Response::OkGossip("accepted="@ + bool_text(is_news(known.nodes, node))),
            ),
        },
    }
}

/// What hearing of the members of the cluster does.
pub open spec fn members_effect(known: Known, facts: PeerFacts) -> PeerEffect {
    match facts.members {
        Err(e) => PeerEffect { known, next: Err(e@) },
        Ok((members, version)) => {
            let end = after_members(
                Heard {
                    nodes: known.nodes,
                    addresses: known.query_peers,
                    accepted: 0,
                    problem: None,
                },
                members@,
                0,
                version,
                facts.now_ms,
            );
            PeerEffect {
                known: Known { nodes: end.nodes, query_peers: end.addresses, ..known },
                next: match end.problem {
                    Some(e) => Err(e),
                    None => changed(Response::OkGossip("accepted="@ + dec(end.accepted))),
                },
            }
        },
    }
}

/// What a request about servers does.
pub open spec fn peer_effect(known: Known, task: Task, facts: PeerFacts) -> PeerEffect {
    match task {
        Task::RegisterQueryPeer { server_id, address } => PeerEffect {
            known: Known { query_peers: known.query_peers.insert(server_id, address@), ..known },
            next: changed(Response::OkUnit),
        },
        Task::UnregisterQueryPeer(server_id) => PeerEffect {
            known: Known { query_peers: known.query_peers.remove(server_id), ..known },
            next: changed(Response::OkUnit),
        },
        Task::ListQueryPeers => PeerEffect {
            known,
            next: told(Response::OkQueryPeers(peers_text(sorted(known.query_peers)))),
        },
        Task::ListReplicationPeers => PeerEffect {
            known,
            next: told(Response::OkReplicationPeers(peers_text(sorted(known.replication_peers)))),
        },
        Task::ReplicationPeerStatus { server_id } => PeerEffect {
            known,
            next: peers_told(known, server_id, facts),
        },
        Task::ReplicationStatus => PeerEffect {
            known,
            next: match facts.status {
                Err(e) => Err(e@),
                Ok(status) => told(
                    Response::OkReplicationStatus(
                        replication_text(status, known.replication_peers),
                    ),
                ),
            },
        },
        Task::CatchUpPlan { server_id } => PeerEffect {
            known,
            next: plan_told(known, server_id, facts),
        },
        Task::GossipNode {
            server_id,
            query_address,
            replication_address,
            incarnation,
            ttl_ms,
            token,
        } => gossip_effect(
            known,
            GossipNode {
                server_id,
                query_address: query_address@,
                replication_address: replication_address@,
                incarnation,
                ttl_ms,
                seen_at_ms: facts.now_ms,
            },
        ),
        Task::ListGossipNodes => PeerEffect {
            known,
            next: told(
                Response::OkGossip(nodes_text(values(sorted(known.nodes)), facts.now_ms)),
            ),
        },
        Task::GossipRefreshFromMembership => members_effect(known, facts),
        _ => PeerEffect { known, next: Ok(PeerNext::Left(task)) },
    }
}

/// What keeps a server from being a peer of the replication: it is this server, or it would
/// close a circle.
pub open spec fn peer_refusal(
    identities: Map<u64, Identity>,
    local: Result<u64, String>,
    server_id: u64,
    node_id: Option<u64>,
) -> Option<Seq<char>> {
    match local {
        Err(e) => Some(e@),
        Ok(local) => match identity_problem(local, server_id, node_id) {
            Some(e) => Some(e),
            None => if closes_circle(identities, server_id, node_id) {
                Some(
                    "replication peer identity cycle detected for server "@ + dec(
                        server_id as nat,
                    ),
                )
            } else {
                None
            },
        },
    }
}

/// What a server at another end tells of itself.
pub struct RemoteIdentity {
    pub node_id: u64,
    pub cluster_id: String,
    pub database_id: String,
}

/// What keeps a server that told of itself from being a peer: it is no member, it could not be
/// asked, what it told does not fit, or it may not be a peer.
pub open spec fn negotiation_refusal(
    identities: Map<u64, Identity>,
    local: Result<u64, String>,
    server_id: u64,
    talk: Negotiation,
) -> Option<Seq<char>> {
    match talk.membership {
        Err(e) => Some(e@),
        Ok(_) => match talk.remote {
            Err(e) => Some(e@),
            Ok(remote) => match talk.verdict {
                Err(e) => Some(e@),
                Ok(_) => peer_refusal(identities, local, server_id, Some(remote.node_id)),
            },
        },
    }
}

/// What came of talking to a server: whether it is a member, what it told of itself, and whether
/// that fits what was expected of it.
pub struct Negotiation {
    pub membership: Result<(), String>,
    pub remote: Result<RemoteIdentity, String>,
    pub verdict: Result<(), String>,
}

impl TcpBackend {
    pub open spec fn known(&self) -> Known {
        Known {
            query_peers: self.query_peers@,
            replication_peers: self.replication_peers@,
            identities: self.replication_peer_identities@,
            nodes: self.gossip_nodes@,
        }
    }

    pub open spec fn well_formed(&self) -> bool {
        &&& self.query_peers.well_formed()
        &&& self.replication_peers.well_formed()
        &&& self.replication_peer_identities.well_formed()
        &&& self.gossip_nodes.well_formed()
    }

    /// A server with the usual configuration that knows no other.
    pub fn new(worker_count: usize) -> (r: Self)
        ensures
            r.well_formed(),
            r.config == (TcpBackendConfig {
                worker_count: at_least_one(worker_count),
                queue_capacity: 1024,
                default_page_size: 128,
                read_preference: QueryReadPreference::Primary,
                catch_up_connect_timeout_ms: 1000,
            }),
            r.web_auth_token is None,
            r.slow_query_threshold_ms == 250,
            r.known() == (Known {
                query_peers: Map::empty(),
                replication_peers: Map::empty(),
                identities: Map::empty(),
                nodes: Map::empty(),
            }),
    {
        Self::with_config(TcpBackendConfig::with_workers(worker_count))
    }

    /// A server that knows no other.
    pub fn with_config(config: TcpBackendConfig) -> (r: Self)
        ensures
            r.well_formed(),
            r.config == (TcpBackendConfig {
                worker_count: at_least_one(config.worker_count),
                queue_capacity: at_least_one(config.queue_capacity),
                default_page_size: at_least_one(config.default_page_size),
                ..config
            }),
            r.web_auth_token is None,
            r.slow_query_threshold_ms == 250,
            r.known() == (Known {
                query_peers: Map::empty(),
                replication_peers: Map::empty(),
                identities: Map::empty(),
                nodes: Map::empty(),
            }),
    {
        Self::with_peer_stores(
            config,
            QueryPeerStore::new(),
            QueryPeerStore::new(),
            ReplicationPeerIdentityStore::new(),
            GossipNodeStore::new(),
        )
    }

    /// A server that knows the others that some stores hold.
    pub fn with_peer_stores(
        config: TcpBackendConfig,
        query_peers: QueryPeerStore,
        replication_peers: QueryPeerStore,
        replication_peer_identities: ReplicationPeerIdentityStore,
        gossip_nodes: GossipNodeStore,
    ) -> (r: Self)
        requires
            query_peers.well_formed(),
            replication_peers.well_formed(),
            replication_peer_identities.well_formed(),
            gossip_nodes.well_formed(),
        ensures
            r.well_formed(),
            r.config == (TcpBackendConfig {
                worker_count: at_least_one(config.worker_count),
                queue_capacity: at_least_one(config.queue_capacity),
                default_page_size: at_least_one(config.default_page_size),
                ..config
            }),
            r.web_auth_token is None,
            r.slow_query_threshold_ms == 250,
            r.known() == (Known {
                query_peers: query_peers@,
                replication_peers: replication_peers@,
                identities: replication_peer_identities@,
                nodes: gossip_nodes@,
            }),
    {
        TcpBackend {
            config: config.effective(),
            web_auth_token: None,
            slow_query_threshold_ms: 250,
            query_peers,
            replication_peers,
            replication_peer_identities,
            gossip_nodes,
        }
    }

    /// The server with a token and a threshold for its web console.
    pub fn with_web_options(
        self,
        web_auth_token: Option<String>,
        slow_query_threshold_ms: u64,
    ) -> (r: Self)
        ensures
            r == (TcpBackend { web_auth_token, slow_query_threshold_ms, ..self }),
    {
        TcpBackend {
            config: self.config,
            web_auth_token,
            slow_query_threshold_ms,
            query_peers: self.query_peers,
            replication_peers: self.replication_peers,
            replication_peer_identities: self.replication_peer_identities,
            gossip_nodes: self.gossip_nodes,
        }
    }

    /// Notes where queries to a server go.
    pub fn register_query_peer(&mut self, server_id: u64, address: String)
        requires
            old(self).well_formed(),
        ensures
            final(self).well_formed(),
            final(self).known() == (Known {
                query_peers: old(self).known().query_peers.insert(server_id, address@),
                ..old(self).known()
            }),
    {
        self.query_peers.register(server_id, address);
    }

    /// Forgets where queries to a server go.
    pub fn unregister_query_peer(&mut self, server_id: u64)
        requires
            old(self).well_formed(),
        ensures
            final(self).well_formed(),
            final(self).known() == (Known {
                query_peers: old(self).known().query_peers.remove(server_id),
                ..old(self).known()
            }),
    {
        self.query_peers.unregister(server_id);
    }

    /// Where queries go, in the order of the servers.
    pub fn list_query_peers(&self) -> (r: Vec<(u64, String)>)
        requires
            self.well_formed(),
        ensures
            address_views(r@) == sorted(self.known().query_peers),
    {
        self.query_peers.list()
    }

    /// Where replication goes, in the order of the servers.
    pub fn list_replication_peers(&self) -> (r: Vec<(u64, String)>)
        requires
            self.well_formed(),
        ensures
            address_views(r@) == sorted(self.known().replication_peers),
    {
        self.replication_peers.list()
    }

    /// Tells of the replication of this server.
    pub fn replication_status(&self, status: &ClusterStatus) -> (r: String)
        requires
            self.well_formed(),
        ensures
            r@ == replication_text(*status, self.known().replication_peers),
    {
        replication_status(status, &self.replication_peers)
    }

    /// Tells how a server is reached that is to be a peer of the replication, if it is not this
    /// server itself.
    pub fn register_replication_peer_endpoint(
        &self,
        local_server_id: u64,
        server_id: u64,
        address: String,
        node_id: Option<u64>,
        transport: Option<ReplicationChannelKind>,
    ) -> (r: Result<ReplicationEndpoint, String>)
        ensures
            match identity_problem(local_server_id, server_id, node_id) {
                Some(e) => r is Err && r->Err_0@ == e,
                None => match endpoint_refusal(transport) {
                    Some(e) => r is Err && r->Err_0@ == e,
                    None => r == Ok::<ReplicationEndpoint, String>(endpoint(address, transport)),
                },
            },
    {
        match validate_replication_peer_identity(local_server_id, server_id, node_id) {
            Err(e) => Err(e),
            Ok(_) => replication_endpoint(address, transport),
        }
    }

    /// Tells how a server is reached over TCP that is to be a peer of the replication, if it is
    /// not this server itself.
    pub fn register_replication_peer(
        &self,
        local_server_id: u64,
        server_id: u64,
        address: String,
    ) -> (r: Result<ReplicationEndpoint, String>)
        ensures
            match identity_problem(local_server_id, server_id, None) {
                Some(e) => r is Err && r->Err_0@ == e,
                None => r == Ok::<ReplicationEndpoint, String>(
                    ReplicationEndpoint::Tcp { address },
                ),
            },
    {
        self.register_replication_peer_endpoint(local_server_id, server_id, address, None, None)
    }

    /// Notes where replication with a server goes, once the storage has taken it up.
    pub fn note_replication_peer(&mut self, server_id: u64, address: String)
        requires
            old(self).well_formed(),
        ensures
            final(self).well_formed(),
            final(self).known() == (Known {
                replication_peers: old(self).known().replication_peers.insert(server_id, address@),
                ..old(self).known()
            }),
    {
        self.replication_peers.register(server_id, address);
    }

    /// Forgets where replication with a server goes, once the storage has let it go.
    pub fn unregister_replication_peer(&mut self, server_id: u64)
        requires
            old(self).well_formed(),
        ensures
            final(self).well_formed(),
            final(self).known() == (Known {
                replication_peers: old(self).known().replication_peers.remove(server_id),
                ..old(self).known()
            }),
    {
        self.replication_peers.unregister(server_id);
    }

    /// Forgets a peer of the replication and who it is, once the storage has let it go.
    pub fn forget_replication_peer(&mut self, server_id: u64)
        requires
            old(self).well_formed(),
        ensures
            final(self).well_formed(),
            final(self).known() == (Known {
                replication_peers: old(self).known().replication_peers.remove(server_id),
                identities: old(self).known().identities.remove(server_id),
                ..old(self).known()
            }),
    {
        self.replication_peers.unregister(server_id);
        self.replication_peer_identities.unregister(server_id);
    }

    fn check_peer(&self, local: &Result<u64, String>, server_id: u64, node_id: Option<u64>) -> (r:
        Option<String>)
        requires
            self.well_formed(),
        ensures
            match r {
                Some(e) => peer_refusal(self.known().identities, *local, server_id, node_id)
                    == Some(e@),
                None => peer_refusal(self.known().identities, *local, server_id, node_id) is None,
            },
    {
        let local_server_id: u64 = match local {
            Err(e) => return Some(e.as_str().to_owned()),
            Ok(n) => *n,
        };
        if let Err(e) = validate_replication_peer_identity(local_server_id, server_id, node_id) {
            return Some(e);
        }
        if self.replication_peer_identities.would_create_cycle(server_id, node_id) {
            return Some(
                cat(
                    "replication peer identity cycle detected for server ",
                    show(server_id as u128).as_str(),
                ),
            );
        }
        None
    }

    /// Tells how a server is reached that a session wants as a peer of the replication, if it may
    /// be one.
    pub fn admit_replication_peer(
        &self,
        local: &Result<u64, String>,
        server_id: u64,
        address: String,
        node_id: Option<u64>,
        transport: Option<ReplicationChannelKind>,
    ) -> (r: Result<ReplicationEndpoint, String>)
        requires
            self.well_formed(),
        ensures
            match peer_refusal(self.known().identities, *local, server_id, node_id) {
                Some(e) => r is Err && r->Err_0@ == e,
                None => match endpoint_refusal(transport) {
                    Some(e) => r is Err && r->Err_0@ == e,
                    None => r == Ok::<ReplicationEndpoint, String>(endpoint(address, transport)),
                },
            },
    {
        match self.check_peer(local, server_id, node_id) {
            Some(e) => Err(e),
            None => replication_endpoint(address, transport),
        }
    }

    /// Tells who a server is that a session wants as a peer of the replication and that told of
    /// itself, if it may be one.
    pub fn admit_negotiated_peer(
        &self,
        local: &Result<u64, String>,
        server_id: u64,
        address: &str,
        talk: Negotiation,
    ) -> (r: Result<ReplicationPeerIdentity, String>)
        requires
            self.well_formed(),
        ensures
            match negotiation_refusal(self.known().identities, *local, server_id, talk) {
                Some(e) => r is Err && r->Err_0@ == e,
                None => r is Ok && r->Ok_0@ == (Identity {
                    server_id,
                    address: address@,
                    node_id: Some(talk.remote->Ok_0.node_id),
                    transport: "tcp"@,
                    cluster_id: talk.remote->Ok_0.cluster_id@,
                    database_id: talk.remote->Ok_0.database_id@,
                }),
            },
    {
        if let Err(e) = talk.membership {
            return Err(e);
        }
        let remote = match talk.remote {
            Err(e) => return Err(e),
            Ok(remote) => remote,
        };
        if let Err(e) = talk.verdict {
            return Err(e);
        }
        if let Some(e) = self.check_peer(local, server_id, Some(remote.node_id)) {
            return Err(e);
        }
        Ok(
            ReplicationPeerIdentity::tcp(
                server_id,
                address,
                Some(remote.node_id),
                remote.cluster_id.as_str(),
                remote.database_id.as_str(),
            ),
        )
    }

    /// Notes a peer of the replication and who it is, once the storage has taken it up. An
    /// identity that cannot be kept is an error, but its address stays.
    pub fn note_identified_peer(&mut self, identity: ReplicationPeerIdentity) -> (r: Result<
        (),
        String,
    >)
        requires
            old(self).well_formed(),
        ensures
            final(self).well_formed(),
            r is Ok <==> is_valid(identity@),
            r is Err ==> r->Err_0@ == "invalid replication peer identity field"@,
            final(self).known() == (Known {
                replication_peers: old(self).known().replication_peers.insert(
                    identity.server_id,
                    identity.address@,
                ),
                identities: if is_valid(identity@) {
                    old(self).known().identities.insert(identity.server_id, identity@)
                } else {
                    old(self).known().identities
                },
                ..old(self).known()
            }),
    {
        self.replication_peers.register(identity.server_id, identity.address.as_str().to_owned());
        self.replication_peer_identities.register(identity)
    }

    fn tell_peers(&self, server_id: Option<u64>, facts: &PeerFacts) -> (r: Result<
        PeerStep,
        String,
    >)
        requires
            self.well_formed(),
        ensures
            step_contents(r) == peers_told(self.known(), server_id, *facts),
    {
        match &facts.routing {
            Err(e) => Err(e.as_str().to_owned()),
            Ok(table) => match &facts.status {
                Err(e) => Err(e.as_str().to_owned()),
                Ok(status) => {
                    let entries = replication_peer_status(
                        table,
                        status.server_id,
                        &self.replication_peers,
                        server_id,
                    );
                    Ok(
                        PeerStep::Answered {
                            response: BackendResponse::OkReplicationPeerStatus(
                                format_replication_peer_status(entries.as_slice()),
                            ),
                            changed: false,
                        },
                    )
                },
            },
        }
    }

    fn tell_plan(&self, server_id: Option<u64>, facts: &PeerFacts) -> (r: Result<PeerStep, String>)
        requires
            self.well_formed(),
            facts.well_formed(),
        ensures
            step_contents(r) == plan_told(self.known(), server_id, *facts),
    {
        match &facts.routing {
            Err(e) => Err(e.as_str().to_owned()),
            Ok(table) => match &facts.status {
                Err(e) => Err(e.as_str().to_owned()),
                Ok(status) => match &facts.committed {
                    Err(e) => Err(e.as_str().to_owned()),
                    Ok(committed) => match catch_up_plan(
                        table,
                        status.server_id,
                        &self.replication_peers,
                        committed.as_slice(),
                        server_id,
                    ) {
                        Err(e) => Err(e),
                        Ok(entries) => Ok(
                            PeerStep::Answered {
                                response: BackendResponse::OkCatchUpPlan(
                                    format_catch_up_plan(entries.as_slice()),
                                ),
                                changed: false,
                            },
                        ),
                    },
                },
            },
        }
    }

    /// Carries out a request about servers, as far as no other server is asked.
    pub fn run_peer_task(&mut self, task: BackendTask, facts: &PeerFacts) -> (r: Result<
        PeerStep,
        String,
    >)
        requires
            old(self).well_formed(),
            facts.well_formed(),
        ensures
            final(self).well_formed(),
            (PeerEffect { known: final(self).known(), next: step_contents(r) }) == peer_effect(
                old(self).known(),
                task@,
                *facts,
            ),
    {
        match task {
            BackendTask::RegisterQueryPeer { server_id, address } => {
                self.register_query_peer(server_id, address);
                Ok(PeerStep::Answered { response: BackendResponse::OkUnit, changed: true })
            },
            BackendTask::UnregisterQueryPeer(server_id) => {
                self.unregister_query_peer(server_id);
                Ok(PeerStep::Answered { response: BackendResponse::OkUnit, changed: true })
            },
            BackendTask::ListQueryPeers => {
                let peers = self.list_query_peers();
                Ok(
                    PeerStep::Answered {
                        response: BackendResponse::OkQueryPeers(
                            format_query_peers(peers.as_slice()),
                        ),
                        changed: false,
                    },
                )
            },
            BackendTask::ListReplicationPeers => {
                let peers = self.list_replication_peers();
                Ok(
                    PeerStep::Answered {
                        response: BackendResponse::OkReplicationPeers(
                            format_query_peers(peers.as_slice()),
                        ),
                        changed: false,
                    },
                )
            },
            BackendTask::ReplicationPeerStatus { server_id } => self.tell_peers(server_id, facts),
            BackendTask::ReplicationStatus => match &facts.status {
                Err(e) => Err(e.as_str().to_owned()),
                Ok(status) => Ok(
                    PeerStep::Answered {
                        response: BackendResponse::OkReplicationStatus(
                            self.replication_status(status),
                        ),
                        changed: false,
                    },
                ),
            },
            BackendTask::CatchUpPlan { server_id } => self.tell_plan(server_id, facts),
            BackendTask::GossipNode {
                server_id,
                query_address,
                replication_address,
                incarnation,
                ttl_ms,
                token: _,
            } => {
                let record = GossipNodeRecord {
                    server_id,
                    query_address,
                    replication_address,
                    incarnation,
                    ttl_ms,
                    seen_at_ms: facts.now_ms,
                };
                match apply_gossip_node_to_stores(
                    &mut self.gossip_nodes,
                    &mut self.query_peers,
                    record,
                ) {
                    Err(e) => Err(e),
                    Ok(accepted) => Ok(
                        PeerStep::Answered {
                            response: BackendResponse::OkGossip(
                                cat("accepted=", show_bool(accepted)),
                            ),
                            changed: true,
                        },
                    ),
                }
            },
            BackendTask::ListGossipNodes => Ok(
                PeerStep::Answered {
                    response: BackendResponse::OkGossip(
                        list_gossip_nodes_from_store(&self.gossip_nodes, facts.now_ms),
                    ),
                    changed: false,
                },
            ),
            BackendTask::GossipRefreshFromMembership => match &facts.members {
                Err(e) => Err(e.as_str().to_owned()),
                Ok((members, version)) => match refresh_gossip_from_membership(
                    members.as_slice(),
                    *version,
                    facts.now_ms,
                    &mut self.gossip_nodes,
                    &mut self.query_peers,
                ) {
                    Err(e) => Err(e),
                    Ok(accepted) => Ok(
                        PeerStep::Answered {
                            response: BackendResponse::OkGossip(
                                cat("accepted=", show(accepted as u128).as_str()),
                            ),
                            changed: true,
                        },
                    ),
                },
            },
            other => Ok(PeerStep::Left(other)),
        }
    }
}

/// Why a server cannot be reached over a transport.
pub open spec fn endpoint_refusal(transport: Option<ReplicationChannelKind>) -> Option<Seq<char>> {
    match transport {
        Some(ReplicationChannelKind::Rdma) => Some(
            "rdma replication endpoints require an rdma-enabled provider boundary"@,
        ),
        Some(ReplicationChannelKind::Custom) => Some(
            "custom replication endpoints require an explicit provider boundary"@,
        ),
        _ => None,
    }
}

/// How a server is reached over a transport that can reach it.
pub open spec fn endpoint(address: String, transport: Option<ReplicationChannelKind>) -> ReplicationEndpoint {
    match transport {
        Some(ReplicationChannelKind::Udp) => ReplicationEndpoint::Udp {
            address,
            max_datagram: 1200,
        },
        _ => ReplicationEndpoint::Tcp { address },
    }
}

/// No server that a session registers points to this server or closes a circle.
pub proof fn registered_peers_lead_away(
    identities: Map<u64, Identity>,
    local: u64,
    server_id: u64,
    node_id: Option<u64>,
)
    requires
        peer_refusal(identities, Ok(local), server_id, node_id) is None,
    ensures
        server_id != local,
        node_id != Some(local),
        !closes_circle(identities, server_id, node_id),
{
}

/// Telling of servers changes nothing that is known of them.
pub proof fn telling_changes_nothing(known: Known, task: Task, facts: PeerFacts)
    requires
        task is ListQueryPeers || task is ListReplicationPeers || task is ReplicationPeerStatus
            || task is ReplicationStatus || task is CatchUpPlan || task is ListGossipNodes,
    ensures
        peer_effect(known, task, facts).known == known,
{
}

/// A peer that was registered for queries is listed, and one that was forgotten is not.
pub proof fn registrations_are_kept(known: Known, server_id: u64, address: String, facts: PeerFacts)
    ensures
        ({
            let noted = peer_effect(
                known,
                Task::RegisterQueryPeer { server_id, address },
                facts,
            ).known;
            let gone = peer_effect(noted, Task::UnregisterQueryPeer(server_id), facts).known;
            &&& noted.query_peers.dom().contains(server_id)
            &&& noted.query_peers[server_id] == address@
            &&& !gone.query_peers.dom().contains(server_id)
            &&& forall|k: u64| #[trigger]
                known.query_peers.dom().contains(k) && k != server_id
                    ==> gone.query_peers.dom().contains(k) && gone.query_peers[k]
                    == known.query_peers[k]
        }),
{
}

} // verus!
