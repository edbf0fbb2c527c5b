//! The requests of clients: which of them the storage carries out and how its outcome is told,
//! which the server itself carries out, and in what form a request is sent on.

use vstd::prelude::*;

use crate::cluster::{Forward, ForwardPlan};
use crate::model::{ReplicationChannelKind, ShardRoutingTable};
use crate::native::ReplyKind;
use crate::text::{begins, cat, dec, join, join_with, show, starts_with, views};
use crate::text_table::by_name;
use crate::transactions::StagedWrite;
use crate::value::{val, vals, QueryParams, Value};
use crate::wire::{
    field_suffix, format_if_exists_suffix, format_if_not_exists_suffix, format_properties_suffix,
    format_value_for_request, if_exists_text, if_not_exists_text, request_value, request_values,
};

verus! {

/// A request of a client. Index catalogs and steps of a rebalance are given in their encoded
/// form.
pub enum BackendRequest {
    Ping,
    Quit,
    Query { query: String, params: QueryParams },
    QueryPlan { query: String, params: QueryParams },
    Profile { query: String, params: QueryParams },
    QueryShard { shard_id: u64, query: String, params: QueryParams },
    QueryStagedShard { shard_id: u64, query: String, params: QueryParams, staged_writes: Vec<StagedWrite> },
    QueryWriteShard { shard_id: u64, query: String, params: QueryParams },
    QueryWriteBatchShard { shard_id: u64, writes: Vec<StagedWrite> },
    QueryDistributed { query: String, params: QueryParams },
    RegisterQueryPeer { server_id: u64, address: String },
    UnregisterQueryPeer(u64),
    ListQueryPeers,
    RegisterReplicationPeer { server_id: u64, address: String, node_id: Option<u64>, transport: Option<ReplicationChannelKind> },
    NegotiateReplicationPeer { server_id: u64, address: String, node_id: Option<u64> },
    UnregisterReplicationPeer(u64),
    ListReplicationPeers,
    ReplicationPeerStatus { server_id: Option<u64> },
    ReplicationStatus,
    ClusterRegistry,
    CatchUpFromPrimaries { max_entries_per_request: Option<usize> },
    CatchUpFromPrimary { server_id: u64, max_entries_per_request: Option<usize> },
    CatchUpPlan { server_id: Option<u64> },
    CreateNode { labels: Vec<String>, properties: Vec<(String, Value)> },
    CreateNodeOnShard { shard_id: u64, labels: Vec<String>, properties: Vec<(String, Value)> },
    CreateRelationship { from: u64, to: u64, rel_type: String, properties: Vec<(String, Value)> },
    SetNodeProperty { id: u64, key: String, value: Value },
    RemoveNodeProperty { id: u64, key: String },
    AddNodeLabel { id: u64, label: String },
    RemoveNodeLabel { id: u64, label: String },
    SetRelationshipProperty { id: u64, key: String, value: Value },
    RemoveRelationshipProperty { id: u64, key: String },
    DeleteNode(u64),
    DeleteRelationship(u64),
    CreateIndex { name: String, label: String, property: String, if_not_exists: bool },
    CreateUniqueConstraint { name: String, label: String, property: String, if_not_exists: bool },
    CreateVectorIndex { name: String, label: String, property: String, dimensions: usize, metric: String, if_not_exists: bool },
    RebuildVectorIndexes,
    RebuildVectorIndex { name: String },
    VectorIndexStatus { name: Option<String> },
    DropIndex { name: String, if_exists: bool },
    DropConstraint { name: String, if_exists: bool },
    ListIndexes,
    DumpIndexCatalog,
    InstallIndexCatalog(String),
    SyncIndexCatalogFromPeer(u64),
    ListTransactionDecisions,
    RecoverTransactionDecisions,
    InstallRoutingTable(ShardRoutingTable),
    ClusterStatus,
    RoutingTable,
    Capabilities,
    StorageStatus,
    Statistics,
    CheckpointNow,
    CompactStorage,
    SnapshotNow,
    RestoreSnapshot { shard_id: u64 },
    VerifyInvariants,
    RepairInvariants,
    BackupNow,
    RaftStatus,
    RaftLeaderTransfer { shard_id: u64, transferee_id: u64 },
    MetadataLog,
    RegisterNode { server_id: u64, address: String },
    JoinRequest { server_id: u64, address: String, protocol_version: u64, storage_version: u64, shard_count: u64 },
    JoinAccept(u64),
    JoinReject { server_id: u64, reason: String },
    DecommissionNode(u64),
    ListNodes,
    MetadataAuthority,
    SetMetadataAuthority(u64),
    SetRebalancePolicy { replication_factor: usize, max_steps_per_plan: usize },
    PlanRebalance,
    StartRebalance,
    CancelRebalance,
    RebalanceStatus,
    AdvanceRebalance,
    ClusterManagementStatus,
    PrepareRebalanceStep(String),
    MarkShardCaughtUp { shard_id: u64, server_id: u64, match_index: u64 },
    ApplyRebalanceStep(String),
    TopologyReconcile { max_entries_per_request: Option<usize> },
    GossipNode { server_id: u64, query_address: String, replication_address: String, incarnation: u64, ttl_ms: u64, token: Option<String> },
    ListGossipNodes,
    GossipRefreshFromMembership,
}

/// Why a client is pointed to another server.
#[derive(Clone, Copy, PartialEq, Eq, Structural, Debug)]
pub enum RedirectKind {
    /// The shard lies there.
    Moved,
}

/// A server that a client is pointed to.
pub struct BackendRedirect {
    pub kind: RedirectKind,
    pub shard_id: u64,
    pub target_server_id: Option<u64>,
    pub address: Option<String>,
    pub routing_version: u64,
    pub database: String,
    pub retryable: bool,
}

/// The contents of a server that a client is pointed to.
pub struct Redirected {
    pub kind: RedirectKind,
    pub shard_id: u64,
    pub target_server_id: Option<u64>,
    pub address: Option<Seq<char>>,
    pub routing_version: u64,
    pub database: Seq<char>,
    pub retryable: bool,
}

impl BackendRedirect {
    pub open spec fn view(&self) -> Redirected {
        Redirected {
            kind: self.kind,
            shard_id: self.shard_id,
            target_server_id: self.target_server_id,
            address: crate::http::opt_text(self.address),
            routing_version: self.routing_version,
            database: self.database@,
            retryable: self.retryable,
        }
    }
}

/// The answer to a request.
pub enum BackendResponse {
    OkPong,
    OkBye,
    OkUnit,
    OkNode(u64),
    OkRelationship(u64),
    OkRows { count: usize, debug_rows: String },
    OkTransactionRecovery(usize),
    OkQueryPlan(String),
    OkQueryProfile(String),
    OkVectorIndexStatus(String),
    OkIndexCatalog(String),
    OkClusterStatus(String),
    OkRoutingTable(String),
    OkCapabilities(String),
    OkStorageStatus(String),
    OkStatistics(String),
    OkStorageMaintenance(String),
    OkMetadataLog(String),
    OkClusterNodes(String),
    OkClusterManagementStatus(String),
    OkRebalancePlan(String),
    OkRebalanceExecution(String),
    OkQueryPeers(String),
    OkReplicationPeers(String),
    OkReplicationPeerStatus(String),
    OkReplicationStatus(String),
    OkClusterRegistry(String),
    OkCatchUp(String),
    OkCatchUpPlan(String),
    OkTopologyObservation(String),
    OkTransactionDecisions(String),
    OkGossip(String),
    Redirect(BackendRedirect),
    Failed(String),
}

/// The contents of an answer.
pub enum Response {
    OkPong,
    OkBye,
    OkUnit,
    OkNode(u64),
    OkRelationship(u64),
    OkRows { count: usize, debug_rows: Seq<char> },
    OkTransactionRecovery(usize),
    OkQueryPlan(Seq<char>),
    OkQueryProfile(Seq<char>),
    OkVectorIndexStatus(Seq<char>),
    OkIndexCatalog(Seq<char>),
    OkClusterStatus(Seq<char>),
    OkRoutingTable(Seq<char>),
    OkCapabilities(Seq<char>),
    OkStorageStatus(Seq<char>),
    OkStatistics(Seq<char>),
    OkStorageMaintenance(Seq<char>),
    OkMetadataLog(Seq<char>),
    OkClusterNodes(Seq<char>),
    OkClusterManagementStatus(Seq<char>),
    OkRebalancePlan(Seq<char>),
    OkRebalanceExecution(Seq<char>),
    OkQueryPeers(Seq<char>),
    OkReplicationPeers(Seq<char>),
    OkReplicationPeerStatus(Seq<char>),
    OkReplicationStatus(Seq<char>),
    OkClusterRegistry(Seq<char>),
    OkCatchUp(Seq<char>),
    OkCatchUpPlan(Seq<char>),
    OkTopologyObservation(Seq<char>),
    OkTransactionDecisions(Seq<char>),
    OkGossip(Seq<char>),
    Redirect(Redirected),
    Failed(Seq<char>),
}

impl BackendResponse {
    pub open spec fn view(&self) -> Response {
        match *self {
            BackendResponse::OkPong => Response::OkPong,
            BackendResponse::OkBye => Response::OkBye,
            BackendResponse::OkUnit => Response::OkUnit,
            BackendResponse::OkNode(n) => Response::OkNode(n),
            BackendResponse::OkRelationship(n) => Response::OkRelationship(n),
            BackendResponse::OkRows { count, debug_rows } => Response::OkRows {
                count,
                debug_rows: debug_rows@,
            },
            BackendResponse::OkTransactionRecovery(n) => Response::OkTransactionRecovery(n),
            BackendResponse::OkQueryPlan(t) => Response::OkQueryPlan(t@),
            BackendResponse::OkQueryProfile(t) => Response::OkQueryProfile(t@),
            BackendResponse::OkVectorIndexStatus(t) => Response::OkVectorIndexStatus(t@),
            BackendResponse::OkIndexCatalog(t) => Response::OkIndexCatalog(t@),
            BackendResponse::OkClusterStatus(t) => Response::OkClusterStatus(t@),
            BackendResponse::OkRoutingTable(t) => Response::OkRoutingTable(t@),
            BackendResponse::OkCapabilities(t) => Response::OkCapabilities(t@),
            BackendResponse::OkStorageStatus(t) => Response::OkStorageStatus(t@),
            BackendResponse::OkStatistics(t) => Response::OkStatistics(t@),
            BackendResponse::OkStorageMaintenance(t) => Response::OkStorageMaintenance(t@),
            BackendResponse::OkMetadataLog(t) => Response::OkMetadataLog(t@),
            BackendResponse::OkClusterNodes(t) => Response::OkClusterNodes(t@),
            BackendResponse::OkClusterManagementStatus(t) => Response::OkClusterManagementStatus(t@),
            BackendResponse::OkRebalancePlan(t) => Response::OkRebalancePlan(t@),
            BackendResponse::OkRebalanceExecution(t) => Response::OkRebalanceExecution(t@),
            BackendResponse::OkQueryPeers(t) => Response::OkQueryPeers(t@),
            BackendResponse::OkReplicationPeers(t) => Response::OkReplicationPeers(t@),
            BackendResponse::OkReplicationPeerStatus(t) => Response::OkReplicationPeerStatus(t@),
            BackendResponse::OkReplicationStatus(t) => Response::OkReplicationStatus(t@),
            BackendResponse::OkClusterRegistry(t) => Response::OkClusterRegistry(t@),
            BackendResponse::OkCatchUp(t) => Response::OkCatchUp(t@),
            BackendResponse::OkCatchUpPlan(t) => Response::OkCatchUpPlan(t@),
            BackendResponse::OkTopologyObservation(t) => Response::OkTopologyObservation(t@),
            BackendResponse::OkTransactionDecisions(t) => Response::OkTransactionDecisions(t@),
            BackendResponse::OkGossip(t) => Response::OkGossip(t@),
            BackendResponse::Redirect(t) => Response::Redirect(t@),
            BackendResponse::Failed(e) => Response::Failed(e@),
        }
    }
}

/// Whether an answer tells an error: it does, or points the client elsewhere.
pub open spec fn tells_error(r: Response) -> ReplyKind {
    match r {
        Response::Failed(_) => ReplyKind::Error,
        Response::Redirect(_) => ReplyKind::Error,
        _ => ReplyKind::Response,
    }
}

/// Tells whether a frame with an answer answers its request or tells an error.
pub fn response_kind(response: &BackendResponse) -> (r: ReplyKind)
    ensures
        r == tells_error(response@),
{
    match response {
        BackendResponse::Failed(_) => ReplyKind::Error,
        BackendResponse::Redirect(_) => ReplyKind::Error,
        _ => ReplyKind::Response,
    }
}

/// What the storage is asked to do.
pub enum StorageCall {
    ExecuteCypher { query: String },
    ExecuteCypherWithParams { query: String, params: QueryParams },
    QueryPlan { query: String, params: QueryParams },
    ProfileQuery { query: String, params: QueryParams },
    QueryShard { shard_id: u64, query: String, params: QueryParams },
    QueryShardWithStagedWrites { shard_id: u64, query: String, params: QueryParams, staged_writes: Vec<StagedWrite> },
    ExecuteCypherOnShard { shard_id: u64, query: String, params: QueryParams },
    ExecuteMutationBatchOnShard { shard_id: u64, writes: Vec<StagedWrite> },
    CreateNode { labels: Vec<String>, properties: Vec<(String, Value)> },
    CreateNodeOnShard { shard_id: u64, labels: Vec<String>, properties: Vec<(String, Value)> },
    CreateRelationship { from: u64, to: u64, rel_type: String, properties: Vec<(String, Value)> },
    SetNodeProperty { id: u64, key: String, value: Value },
    RemoveNodeProperty { id: u64, key: String },
    AddNodeLabel { id: u64, label: String },
    RemoveNodeLabel { id: u64, label: String },
    SetRelationshipProperty { id: u64, key: String, value: Value },
    RemoveRelationshipProperty { id: u64, key: String },
    DeleteNode(u64),
    DeleteRelationship(u64),
    RebuildVectorIndexes,
    RebuildVectorIndex { name: String },
    InstallIndexCatalog(String),
    InstallRoutingTable(ShardRoutingTable),
    CreateIndex { name: String, label: String, property: String },
    CreateIndexIfNotExists { name: String, label: String, property: String },
    CreateUniqueConstraint { name: String, label: String, property: String },
    CreateUniqueConstraintIfNotExists { name: String, label: String, property: String },
    CreateVectorIndex { name: String, label: String, property: String, dimensions: usize, metric: String },
    CreateVectorIndexIfNotExists { name: String, label: String, property: String, dimensions: usize, metric: String },
    DropIndex { name: String },
    DropIndexIfExists { name: String },
    DropConstraint { name: String },
    DropConstraintIfExists { name: String },
    VectorIndexStatusByName { name: String },
    VectorIndexStatus,
    ListIndexes,
    DumpIndexCatalog,
    ClusterStatus,
    RoutingTable,
    StorageStatus,
    Statistics,
    CheckpointNow,
    CompactStorage,
    SnapshotNow,
    RestoreSnapshot { shard_id: u64 },
    VerifyInvariants,
    RepairInvariants,
    RaftStatus,
    MetadataLog,
    RegisterNode { server_id: u64, address: String },
    JoinRequest { server_id: u64, address: String, protocol_version: u64, storage_version: u64, shard_count: u64 },
    JoinAccept(u64),
    JoinReject { server_id: u64, reason: String },
    DecommissionNode(u64),
    ListNodes,
    MetadataAuthority,
    SetMetadataAuthority(u64),
    SetRebalancePolicy { replication_factor: usize, max_steps_per_plan: usize },
    PlanRebalance,
    StartRebalance,
    CancelRebalance,
    RebalanceStatus,
    AdvanceRebalance,
    ClusterManagementStatus,
    PrepareRebalanceStep(String),
    MarkShardCaughtUp { shard_id: u64, server_id: u64, match_index: u64 },
    ApplyRebalanceStep(String),
    RaftLeaderTransfer { shard_id: u64, transferee_id: u64 },
}

/// In what form an outcome of the storage is told.
#[derive(Clone, Copy)]
pub enum ReplyForm {
    Unit,
    Node,
    Relationship,
    Rows,
    NoRows,
    QueryPlan,
    QueryProfile,
    VectorIndexStatus,
    IndexCatalog,
    ClusterStatus,
    RoutingTable,
    StorageStatus,
    Statistics,
    StorageMaintenance,
    LeaderTransfer { shard_id: u64, transferee_id: u64 },
    MetadataLog,
    ClusterNodes,
    ClusterManagementStatus,
    RebalancePlan,
    RebalanceExecution,
    RebalanceStatus,
    RebalanceAdvance,
    RoutingVersion,
}

/// What comes of a request: an answer at once, or what the storage is asked and in what form
/// its outcome is told.
pub enum Dispatch {
    Answer(BackendResponse),
    Storage { call: StorageCall, form: ReplyForm },
}

/// The contents of what comes of a request.
pub enum Dispatched {
    Answer(Response),
    Storage { call: StorageCall, form: ReplyForm },
}

impl Dispatch {
    pub open spec fn view(&self) -> Dispatched {
        match *self {
            Dispatch::Answer(r) => Dispatched::Answer(r@),
            Dispatch::Storage { call, form } => Dispatched::Storage { call, form },
        }
    }
}

/// What comes of a request at the storage. The text tells what the protocol can do.
pub open spec fn dispatched(request: BackendRequest, capabilities: Seq<char>) -> Dispatched {
    match request {
        BackendRequest::Ping => Dispatched::Answer(Response::OkPong),
        BackendRequest::Quit => Dispatched::Answer(Response::OkBye),
        BackendRequest::Query { query, params } => if params@.dom() =~= Set::<Seq<char>>::empty() {
            Dispatched::Storage {
                call: StorageCall::ExecuteCypher { query },
                form: ReplyForm::Rows,
            }
        } else {
            Dispatched::Storage {
                call: StorageCall::ExecuteCypherWithParams { query, params },
                form: ReplyForm::Rows,
            }
        },
        BackendRequest::QueryPlan { query, params } => Dispatched::Storage {
                call: StorageCall::QueryPlan { query, params },
                form: ReplyForm::QueryPlan,
            },
        BackendRequest::Profile { query, params } => Dispatched::Storage {
                call: StorageCall::ProfileQuery { query, params },
                form: ReplyForm::QueryProfile,
            },
        BackendRequest::QueryShard { shard_id, query, params } => Dispatched::Storage {
                call: StorageCall::QueryShard { shard_id, query, params },
                form: ReplyForm::Rows,
            },
        BackendRequest::QueryStagedShard { shard_id, query, params, staged_writes } => Dispatched::Storage {
                call: StorageCall::QueryShardWithStagedWrites { shard_id, query, params, staged_writes },
                form: ReplyForm::Rows,
            },
        BackendRequest::QueryWriteShard { shard_id, query, params } => Dispatched::Storage {
                call: StorageCall::ExecuteCypherOnShard { shard_id, query, params },
                form: ReplyForm::Rows,
            },
        BackendRequest::QueryWriteBatchShard { shard_id, writes } => Dispatched::Storage {
                call: StorageCall::ExecuteMutationBatchOnShard { shard_id, writes },
                form: ReplyForm::NoRows,
            },
        BackendRequest::QueryDistributed { .. } => Dispatched::Answer(
            Response::Failed("QUERY_DISTRIBUTED requires a backend coordinator"@),
        ),
        BackendRequest::RegisterQueryPeer { .. } => Dispatched::Answer(
            Response::Failed("peer management and catch-up require a backend coordinator"@),
        ),
        BackendRequest::UnregisterQueryPeer(_) => Dispatched::Answer(
            Response::Failed("peer management and catch-up require a backend coordinator"@),
        ),
        BackendRequest::ListQueryPeers => Dispatched::Answer(
            Response::Failed("peer management and catch-up require a backend coordinator"@),
        ),
        BackendRequest::RegisterReplicationPeer { .. } => Dispatched::Answer(
            Response::Failed("peer management and catch-up require a backend coordinator"@),
        ),
        BackendRequest::NegotiateReplicationPeer { .. } => Dispatched::Answer(
            Response::Failed("peer management and catch-up require a backend coordinator"@),
        ),
        BackendRequest::UnregisterReplicationPeer(_) => Dispatched::Answer(
            Response::Failed("peer management and catch-up require a backend coordinator"@),
        ),
        BackendRequest::ListReplicationPeers => Dispatched::Answer(
            Response::Failed("peer management and catch-up require a backend coordinator"@),
        ),
        BackendRequest::ReplicationPeerStatus { .. } => Dispatched::Answer(
            Response::Failed("peer management and catch-up require a backend coordinator"@),
        ),
        BackendRequest::ReplicationStatus => Dispatched::Answer(
            Response::Failed("peer management and catch-up require a backend coordinator"@),
        ),
        BackendRequest::ClusterRegistry => Dispatched::Answer(
            Response::Failed("peer management and catch-up require a backend coordinator"@),
        ),
        BackendRequest::CatchUpFromPrimaries { .. } => Dispatched::Answer(
            Response::Failed("peer management and catch-up require a backend coordinator"@),
        ),
        BackendRequest::CatchUpFromPrimary { .. } => Dispatched::Answer(
            Response::Failed("peer management and catch-up require a backend coordinator"@),
        ),
        BackendRequest::CatchUpPlan { .. } => Dispatched::Answer(
            Response::Failed("peer management and catch-up require a backend coordinator"@),
        ),
        BackendRequest::CreateNode { labels, properties } => Dispatched::Storage {
                call: StorageCall::CreateNode { labels, properties },
                form: ReplyForm::Node,
            },
        BackendRequest::CreateNodeOnShard { shard_id, labels, properties } => Dispatched::Storage {
                call: StorageCall::CreateNodeOnShard { shard_id, labels, properties },
                form: ReplyForm::Node,
            },
        BackendRequest::CreateRelationship { from, to, rel_type, properties } => Dispatched::Storage {
                call: StorageCall::CreateRelationship { from, to, rel_type, properties },
                form: ReplyForm::Relationship,
            },
        BackendRequest::SetNodeProperty { id, key, value } => Dispatched::Storage {
                call: StorageCall::SetNodeProperty { id, key, value },
                form: ReplyForm::Unit,
            },
        BackendRequest::RemoveNodeProperty { id, key } => Dispatched::Storage {
                call: StorageCall::RemoveNodeProperty { id, key },
                form: ReplyForm::Unit,
            },
        BackendRequest::AddNodeLabel { id, label } => Dispatched::Storage {
                call: StorageCall::AddNodeLabel { id, label },
                form: ReplyForm::Unit,
            },
        BackendRequest::RemoveNodeLabel { id, label } => Dispatched::Storage {
                call: StorageCall::RemoveNodeLabel { id, label },
                form: ReplyForm::Unit,
            },
        BackendRequest::SetRelationshipProperty { id, key, value } => Dispatched::Storage {
                call: StorageCall::SetRelationshipProperty { id, key, value },
                form: ReplyForm::Unit,
            },
        BackendRequest::RemoveRelationshipProperty { id, key } => Dispatched::Storage {
                call: StorageCall::RemoveRelationshipProperty { id, key },
                form: ReplyForm::Unit,
            },
        BackendRequest::DeleteNode(value) => Dispatched::Storage {
                call: StorageCall::DeleteNode(value),
                form: ReplyForm::Unit,
            },
        BackendRequest::DeleteRelationship(value) => Dispatched::Storage {
                call: StorageCall::DeleteRelationship(value),
                form: ReplyForm::Unit,
            },
        BackendRequest::CreateIndex { name, label, property, if_not_exists } => if if_not_exists {
            Dispatched::Storage {
                call: StorageCall::CreateIndexIfNotExists { name, label, property },
                form: ReplyForm::Unit,
            }
        } else {
            Dispatched::Storage {
                call: StorageCall::CreateIndex { name, label, property },
                form: ReplyForm::Unit,
            }
        },
        BackendRequest::CreateUniqueConstraint { name, label, property, if_not_exists } => if if_not_exists {
            Dispatched::Storage {
                call: StorageCall::CreateUniqueConstraintIfNotExists { name, label, property },
                form: ReplyForm::Unit,
            }
        } else {
            Dispatched::Storage {
                call: StorageCall::CreateUniqueConstraint { name, label, property },
                form: ReplyForm::Unit,
            }
        },
        BackendRequest::CreateVectorIndex { name, label, property, dimensions, metric, if_not_exists } => if if_not_exists {
            Dispatched::Storage {
                call: StorageCall::CreateVectorIndexIfNotExists { name, label, property, dimensions, metric },
                form: ReplyForm::Unit,
            }
        } else {
            Dispatched::Storage {
                call: StorageCall::CreateVectorIndex { name, label, property, dimensions, metric },
                form: ReplyForm::Unit,
            }
        },
        BackendRequest::RebuildVectorIndexes => Dispatched::Storage {
                call: StorageCall::RebuildVectorIndexes,
                form: ReplyForm::Unit,
            },
        BackendRequest::RebuildVectorIndex { name } => Dispatched::Storage {
                call: StorageCall::RebuildVectorIndex { name },
                form: ReplyForm::Unit,
            },
        BackendRequest::VectorIndexStatus { name } => match name {
            Some(name) => Dispatched::Storage {
                call: StorageCall::VectorIndexStatusByName { name },
                form: ReplyForm::VectorIndexStatus,
            },
            None => Dispatched::Storage {
                call: StorageCall::VectorIndexStatus,
                form: ReplyForm::VectorIndexStatus,
            },
        },
        BackendRequest::DropIndex { name, if_exists } => if if_exists {
            Dispatched::Storage {
                call: StorageCall::DropIndexIfExists { name },
                form: ReplyForm::Unit,
            }
        } else {
            Dispatched::Storage {
                call: StorageCall::DropIndex { name },
                form: ReplyForm::Unit,
            }
        },
        BackendRequest::DropConstraint { name, if_exists } => if if_exists {
            Dispatched::Storage {
                call: StorageCall::DropConstraintIfExists { name },
                form: ReplyForm::Unit,
            }
        } else {
            Dispatched::Storage {
                call: StorageCall::DropConstraint { name },
                form: ReplyForm::Unit,
            }
        },
        BackendRequest::ListIndexes => Dispatched::Storage {
                call: StorageCall::ListIndexes,
                form: ReplyForm::Rows,
            },
        BackendRequest::DumpIndexCatalog => Dispatched::Storage {
                call: StorageCall::DumpIndexCatalog,
                form: ReplyForm::IndexCatalog,
            },
        BackendRequest::InstallIndexCatalog(value) => Dispatched::Storage {
                call: StorageCall::InstallIndexCatalog(value),
                form: ReplyForm::Unit,
            },
        BackendRequest::SyncIndexCatalogFromPeer(_) => Dispatched::Answer(
            Response::Failed("index catalog peer sync requires a backend coordinator"@),
        ),
        BackendRequest::ListTransactionDecisions => Dispatched::Answer(
            Response::Failed("transaction decision listing requires a backend coordinator"@),
        ),
        BackendRequest::RecoverTransactionDecisions => Dispatched::Answer(
            Response::Failed("transaction decision recovery requires a backend coordinator"@),
        ),
        BackendRequest::InstallRoutingTable(value) => Dispatched::Storage {
                call: StorageCall::InstallRoutingTable(value),
                form: ReplyForm::Unit,
            },
        BackendRequest::ClusterStatus => Dispatched::Storage {
                call: StorageCall::ClusterStatus,
                form: ReplyForm::ClusterStatus,
            },
        BackendRequest::RoutingTable => Dispatched::Storage {
                call: StorageCall::RoutingTable,
                form: ReplyForm::RoutingTable,
            },
        BackendRequest::Capabilities => Dispatched::Answer(Response::OkCapabilities(capabilities)),
        BackendRequest::StorageStatus => Dispatched::Storage {
                call: StorageCall::StorageStatus,
                form: ReplyForm::StorageStatus,
            },
        BackendRequest::Statistics => Dispatched::Storage {
                call: StorageCall::Statistics,
                form: ReplyForm::Statistics,
            },
        BackendRequest::CheckpointNow => Dispatched::Storage {
                call: StorageCall::CheckpointNow,
                form: ReplyForm::StorageMaintenance,
            },
        BackendRequest::CompactStorage => Dispatched::Storage {
                call: StorageCall::CompactStorage,
                form: ReplyForm::StorageMaintenance,
            },
        BackendRequest::SnapshotNow => Dispatched::Storage {
                call: StorageCall::SnapshotNow,
                form: ReplyForm::StorageMaintenance,
            },
        BackendRequest::RestoreSnapshot { shard_id } => Dispatched::Storage {
                call: StorageCall::RestoreSnapshot { shard_id },
                form: ReplyForm::StorageMaintenance,
            },
        BackendRequest::VerifyInvariants => Dispatched::Storage {
                call: StorageCall::VerifyInvariants,
                form: ReplyForm::StorageMaintenance,
            },
        BackendRequest::RepairInvariants => Dispatched::Storage {
                call: StorageCall::RepairInvariants,
                form: ReplyForm::StorageMaintenance,
            },
        BackendRequest::BackupNow => Dispatched::Storage {
                call: StorageCall::SnapshotNow,
                form: ReplyForm::StorageMaintenance,
            },
        BackendRequest::RaftStatus => Dispatched::Storage {
                call: StorageCall::RaftStatus,
                form: ReplyForm::ClusterStatus,
            },
        BackendRequest::RaftLeaderTransfer { shard_id, transferee_id } => Dispatched::Storage {
                call: StorageCall::RaftLeaderTransfer { shard_id, transferee_id },
                form: ReplyForm::LeaderTransfer { shard_id, transferee_id },
            },
        BackendRequest::MetadataLog => Dispatched::Storage {
                call: StorageCall::MetadataLog,
                form: ReplyForm::MetadataLog,
            },
        BackendRequest::RegisterNode { server_id, address } => Dispatched::Storage {
                call: StorageCall::RegisterNode { server_id, address },
                form: ReplyForm::ClusterNodes,
            },
        BackendRequest::JoinRequest { server_id, address, protocol_version, storage_version, shard_count } => Dispatched::Storage {
                call: StorageCall::JoinRequest { server_id, address, protocol_version, storage_version, shard_count },
                form: ReplyForm::ClusterNodes,
            },
        BackendRequest::JoinAccept(value) => Dispatched::Storage {
                call: StorageCall::JoinAccept(value),
                form: ReplyForm::ClusterNodes,
            },
        BackendRequest::JoinReject { server_id, reason } => Dispatched::Storage {
                call: StorageCall::JoinReject { server_id, reason },
                form: ReplyForm::ClusterNodes,
            },
        BackendRequest::DecommissionNode(value) => Dispatched::Storage {
                call: StorageCall::DecommissionNode(value),
                form: ReplyForm::ClusterNodes,
            },
        BackendRequest::ListNodes => Dispatched::Storage {
                call: StorageCall::ListNodes,
                form: ReplyForm::ClusterNodes,
            },
        BackendRequest::MetadataAuthority => Dispatched::Storage {
                call: StorageCall::MetadataAuthority,
                form: ReplyForm::ClusterManagementStatus,
            },
        BackendRequest::SetMetadataAuthority(value) => Dispatched::Storage {
                call: StorageCall::SetMetadataAuthority(value),
                form: ReplyForm::ClusterManagementStatus,
            },
        BackendRequest::SetRebalancePolicy { replication_factor, max_steps_per_plan } => Dispatched::Storage {
                call: StorageCall::SetRebalancePolicy { replication_factor, max_steps_per_plan },
                form: ReplyForm::ClusterManagementStatus,
            },
        BackendRequest::PlanRebalance => Dispatched::Storage {
                call: StorageCall::PlanRebalance,
                form: ReplyForm::RebalancePlan,
            },
        BackendRequest::StartRebalance => Dispatched::Storage {
                call: StorageCall::StartRebalance,
                form: ReplyForm::RebalanceExecution,
            },
        BackendRequest::CancelRebalance => Dispatched::Storage {
                call: StorageCall::CancelRebalance,
                form: ReplyForm::RebalanceExecution,
            },
        BackendRequest::RebalanceStatus => Dispatched::Storage {
                call: StorageCall::RebalanceStatus,
                form: ReplyForm::RebalanceStatus,
            },
        BackendRequest::AdvanceRebalance => Dispatched::Storage {
                call: StorageCall::AdvanceRebalance,
                form: ReplyForm::RebalanceAdvance,
            },
        BackendRequest::ClusterManagementStatus => Dispatched::Storage {
                call: StorageCall::ClusterManagementStatus,
                form: ReplyForm::ClusterManagementStatus,
            },
        BackendRequest::PrepareRebalanceStep(value) => Dispatched::Storage {
                call: StorageCall::PrepareRebalanceStep(value),
                form: ReplyForm::ClusterNodes,
            },
        BackendRequest::MarkShardCaughtUp { shard_id, server_id, match_index } => Dispatched::Storage {
                call: StorageCall::MarkShardCaughtUp { shard_id, server_id, match_index },
                form: ReplyForm::ClusterNodes,
            },
        BackendRequest::ApplyRebalanceStep(value) => Dispatched::Storage {
                call: StorageCall::ApplyRebalanceStep(value),
                form: ReplyForm::RoutingVersion,
            },
        BackendRequest::TopologyReconcile { .. } => Dispatched::Answer(
            Response::Failed("peer management and catch-up require a backend coordinator"@),
        ),
        BackendRequest::GossipNode { .. } => Dispatched::Answer(
            Response::Failed("peer management and catch-up require a backend coordinator"@),
        ),
        BackendRequest::ListGossipNodes => Dispatched::Answer(
            Response::Failed("peer management and catch-up require a backend coordinator"@),
        ),
        BackendRequest::GossipRefreshFromMembership => Dispatched::Answer(
            Response::Failed("peer management and catch-up require a backend coordinator"@),
        ),
    }
}

/// Decides what comes of a request at the storage.
pub fn execute_request(request: BackendRequest, capabilities: String) -> (r: Dispatch)
    requires
        params_well_formed(request),
    ensures
        r@ == dispatched(request, capabilities@),
{
    match request {
        BackendRequest::Ping => Dispatch::Answer(BackendResponse::OkPong),
        BackendRequest::Quit => Dispatch::Answer(BackendResponse::OkBye),
        BackendRequest::Query { query, params } => if params.is_empty() {
            Dispatch::Storage {
                call: StorageCall::ExecuteCypher { query },
                form: ReplyForm::Rows,
            }
        } else {
            Dispatch::Storage {
                call: StorageCall::ExecuteCypherWithParams { query, params },
                form: ReplyForm::Rows,
            }
        },
        BackendRequest::QueryPlan { query, params } => Dispatch::Storage {
                call: StorageCall::QueryPlan { query, params },
                form: ReplyForm::QueryPlan,
            },
        BackendRequest::Profile { query, params } => Dispatch::Storage {
                call: StorageCall::ProfileQuery { query, params },
                form: ReplyForm::QueryProfile,
            },
        BackendRequest::QueryShard { shard_id, query, params } => Dispatch::Storage {
                call: StorageCall::QueryShard { shard_id, query, params },
                form: ReplyForm::Rows,
            },
        BackendRequest::QueryStagedShard { shard_id, query, params, staged_writes } => Dispatch::Storage {
                call: StorageCall::QueryShardWithStagedWrites { shard_id, query, params, staged_writes },
                form: ReplyForm::Rows,
            },
        BackendRequest::QueryWriteShard { shard_id, query, params } => Dispatch::Storage {
                call: StorageCall::ExecuteCypherOnShard { shard_id, query, params },
                form: ReplyForm::Rows,
            },
        BackendRequest::QueryWriteBatchShard { shard_id, writes } => Dispatch::Storage {
                call: StorageCall::ExecuteMutationBatchOnShard { shard_id, writes },
                form: ReplyForm::NoRows,
            },
        BackendRequest::QueryDistributed { .. } => Dispatch::Answer(
            BackendResponse::Failed("QUERY_DISTRIBUTED requires a backend coordinator".to_owned()),
        ),
        BackendRequest::RegisterQueryPeer { .. } => Dispatch::Answer(
            BackendResponse::Failed("peer management and catch-up require a backend coordinator".to_owned()),
        ),
        BackendRequest::UnregisterQueryPeer(_) => Dispatch::Answer(
            BackendResponse::Failed("peer management and catch-up require a backend coordinator".to_owned()),
        ),
        BackendRequest::ListQueryPeers => Dispatch::Answer(
            BackendResponse::Failed("peer management and catch-up require a backend coordinator".to_owned()),
        ),
        BackendRequest::RegisterReplicationPeer { .. } => Dispatch::Answer(
            BackendResponse::Failed("peer management and catch-up require a backend coordinator".to_owned()),
        ),
        BackendRequest::NegotiateReplicationPeer { .. } => Dispatch::Answer(
            BackendResponse::Failed("peer management and catch-up require a backend coordinator".to_owned()),
        ),
        BackendRequest::UnregisterReplicationPeer(_) => Dispatch::Answer(
            BackendResponse::Failed("peer management and catch-up require a backend coordinator".to_owned()),
        ),
        BackendRequest::ListReplicationPeers => Dispatch::Answer(
            BackendResponse::Failed("peer management and catch-up require a backend coordinator".to_owned()),
        ),
        BackendRequest::ReplicationPeerStatus { .. } => Dispatch::Answer(
            BackendResponse::Failed("peer management and catch-up require a backend coordinator".to_owned()),
        ),
        BackendRequest::ReplicationStatus => Dispatch::Answer(
            BackendResponse::Failed("peer management and catch-up require a backend coordinator".to_owned()),
        ),
        BackendRequest::ClusterRegistry => Dispatch::Answer(
            BackendResponse::Failed("peer management and catch-up require a backend coordinator".to_owned()),
        ),
        BackendRequest::CatchUpFromPrimaries { .. } => Dispatch::Answer(
            BackendResponse::Failed("peer management and catch-up require a backend coordinator".to_owned()),
        ),
        BackendRequest::CatchUpFromPrimary { .. } => Dispatch::Answer(
            BackendResponse::Failed("peer management and catch-up require a backend coordinator".to_owned()),
        ),
        BackendRequest::CatchUpPlan { .. } => Dispatch::Answer(
            BackendResponse::Failed("peer management and catch-up require a backend coordinator".to_owned()),
        ),
        BackendRequest::CreateNode { labels, properties } => Dispatch::Storage {
                call: StorageCall::CreateNode { labels, properties },
                form: ReplyForm::Node,
            },
        BackendRequest::CreateNodeOnShard { shard_id, labels, properties } => Dispatch::Storage {
                call: StorageCall::CreateNodeOnShard { shard_id, labels, properties },
                form: ReplyForm::Node,
            },
        BackendRequest::CreateRelationship { from, to, rel_type, properties } => Dispatch::Storage {
                call: StorageCall::CreateRelationship { from, to, rel_type, properties },
                form: ReplyForm::Relationship,
            },
        BackendRequest::SetNodeProperty { id, key, value } => Dispatch::Storage {
                call: StorageCall::SetNodeProperty { id, key, value },
                form: ReplyForm::Unit,
            },
        BackendRequest::RemoveNodeProperty { id, key } => Dispatch::Storage {
                call: StorageCall::RemoveNodeProperty { id, key },
                form: ReplyForm::Unit,
            },
        BackendRequest::AddNodeLabel { id, label } => Dispatch::Storage {
                call: StorageCall::AddNodeLabel { id, label },
                form: ReplyForm::Unit,
            },
        BackendRequest::RemoveNodeLabel { id, label } => Dispatch::Storage {
                call: StorageCall::RemoveNodeLabel { id, label },
                form: ReplyForm::Unit,
            },
        BackendRequest::SetRelationshipProperty { id, key, value } => Dispatch::Storage {
                call: StorageCall::SetRelationshipProperty { id, key, value },
                form: ReplyForm::Unit,
            },
        BackendRequest::RemoveRelationshipProperty { id, key } => Dispatch::Storage {
                call: StorageCall::RemoveRelationshipProperty { id, key },
                form: ReplyForm::Unit,
            },
        BackendRequest::DeleteNode(value) => Dispatch::Storage {
                call: StorageCall::DeleteNode(value),
                form: ReplyForm::Unit,
            },
        BackendRequest::DeleteRelationship(value) => Dispatch::Storage {
                call: StorageCall::DeleteRelationship(value),
                form: ReplyForm::Unit,
            },
        BackendRequest::CreateIndex { name, label, property, if_not_exists } => if if_not_exists {
            Dispatch::Storage {
                call: StorageCall::CreateIndexIfNotExists { name, label, property },
                form: ReplyForm::Unit,
            }
        } else {
            Dispatch::Storage {
                call: StorageCall::CreateIndex { name, label, property },
                form: ReplyForm::Unit,
            }
        },
        BackendRequest::CreateUniqueConstraint { name, label, property, if_not_exists } => if if_not_exists {
            Dispatch::Storage {
                call: StorageCall::CreateUniqueConstraintIfNotExists { name, label, property },
                form: ReplyForm::Unit,
            }
        } else {
            Dispatch::Storage {
                call: StorageCall::CreateUniqueConstraint { name, label, property },
                form: ReplyForm::Unit,
            }
        },
        BackendRequest::CreateVectorIndex { name, label, property, dimensions, metric, if_not_exists } => if if_not_exists {
            Dispatch::Storage {
                call: StorageCall::CreateVectorIndexIfNotExists { name, label, property, dimensions, metric },
                form: ReplyForm::Unit,
            }
        } else {
            Dispatch::Storage {
                call: StorageCall::CreateVectorIndex { name, label, property, dimensions, metric },
                form: ReplyForm::Unit,
            }
        },
        BackendRequest::RebuildVectorIndexes => Dispatch::Storage {
                call: StorageCall::RebuildVectorIndexes,
                form: ReplyForm::Unit,
            },
        BackendRequest::RebuildVectorIndex { name } => Dispatch::Storage {
                call: StorageCall::RebuildVectorIndex { name },
                form: ReplyForm::Unit,
            },
        BackendRequest::VectorIndexStatus { name } => match name {
            Some(name) => Dispatch::Storage {
                call: StorageCall::VectorIndexStatusByName { name },
                form: ReplyForm::VectorIndexStatus,
            },
            None => Dispatch::Storage {
                call: StorageCall::VectorIndexStatus,
                form: ReplyForm::VectorIndexStatus,
            },
        },
        BackendRequest::DropIndex { name, if_exists } => if if_exists {
            Dispatch::Storage {
                call: StorageCall::DropIndexIfExists { name },
                form: ReplyForm::Unit,
            }
        } else {
            Dispatch::Storage {
                call: StorageCall::DropIndex { name },
                form: ReplyForm::Unit,
            }
        },
        BackendRequest::DropConstraint { name, if_exists } => if if_exists {
            Dispatch::Storage {
                call: StorageCall::DropConstraintIfExists { name },
                form: ReplyForm::Unit,
            }
        } else {
            Dispatch::Storage {
                call: StorageCall::DropConstraint { name },
                form: ReplyForm::Unit,
            }
        },
        BackendRequest::ListIndexes => Dispatch::Storage {
                call: StorageCall::ListIndexes,
                form: ReplyForm::Rows,
            },
        BackendRequest::DumpIndexCatalog => Dispatch::Storage {
                call: StorageCall::DumpIndexCatalog,
                form: ReplyForm::IndexCatalog,
            },
        BackendRequest::InstallIndexCatalog(value) => Dispatch::Storage {
                call: StorageCall::InstallIndexCatalog(value),
                form: ReplyForm::Unit,
            },
        BackendRequest::SyncIndexCatalogFromPeer(_) => Dispatch::Answer(
            BackendResponse::Failed("index catalog peer sync requires a backend coordinator".to_owned()),
        ),
        BackendRequest::ListTransactionDecisions => Dispatch::Answer(
            BackendResponse::Failed("transaction decision listing requires a backend coordinator".to_owned()),
        ),
        BackendRequest::RecoverTransactionDecisions => Dispatch::Answer(
            BackendResponse::Failed("transaction decision recovery requires a backend coordinator".to_owned()),
        ),
        BackendRequest::InstallRoutingTable(value) => Dispatch::Storage {
                call: StorageCall::InstallRoutingTable(value),
                form: ReplyForm::Unit,
            },
        BackendRequest::ClusterStatus => Dispatch::Storage {
                call: StorageCall::ClusterStatus,
                form: ReplyForm::ClusterStatus,
            },
        BackendRequest::RoutingTable => Dispatch::Storage {
                call: StorageCall::RoutingTable,
                form: ReplyForm::RoutingTable,
            },
        BackendRequest::Capabilities => Dispatch::Answer(BackendResponse::OkCapabilities(capabilities)),
        BackendRequest::StorageStatus => Dispatch::Storage {
                call: StorageCall::StorageStatus,
                form: ReplyForm::StorageStatus,
            },
        BackendRequest::Statistics => Dispatch::Storage {
                call: StorageCall::Statistics,
                form: ReplyForm::Statistics,
            },
        BackendRequest::CheckpointNow => Dispatch::Storage {
                call: StorageCall::CheckpointNow,
                form: ReplyForm::StorageMaintenance,
            },
        BackendRequest::CompactStorage => Dispatch::Storage {
                call: StorageCall::CompactStorage,
                form: ReplyForm::StorageMaintenance,
            },
        BackendRequest::SnapshotNow => Dispatch::Storage {
                call: StorageCall::SnapshotNow,
                form: ReplyForm::StorageMaintenance,
            },
        BackendRequest::RestoreSnapshot { shard_id } => Dispatch::Storage {
                call: StorageCall::RestoreSnapshot { shard_id },
                form: ReplyForm::StorageMaintenance,
            },
        BackendRequest::VerifyInvariants => Dispatch::Storage {
                call: StorageCall::VerifyInvariants,
                form: ReplyForm::StorageMaintenance,
            },
        BackendRequest::RepairInvariants => Dispatch::Storage {
                call: StorageCall::RepairInvariants,
                form: ReplyForm::StorageMaintenance,
            },
        BackendRequest::BackupNow => Dispatch::Storage {
                call: StorageCall::SnapshotNow,
                form: ReplyForm::StorageMaintenance,
            },
        BackendRequest::RaftStatus => Dispatch::Storage {
                call: StorageCall::RaftStatus,
                form: ReplyForm::ClusterStatus,
            },
        BackendRequest::RaftLeaderTransfer { shard_id, transferee_id } => Dispatch::Storage {
                call: StorageCall::RaftLeaderTransfer { shard_id, transferee_id },
                form: ReplyForm::LeaderTransfer { shard_id, transferee_id },
            },
        BackendRequest::MetadataLog => Dispatch::Storage {
                call: StorageCall::MetadataLog,
                form: ReplyForm::MetadataLog,
            },
        BackendRequest::RegisterNode { server_id, address } => Dispatch::Storage {
                call: StorageCall::RegisterNode { server_id, address },
                form: ReplyForm::ClusterNodes,
            },
        BackendRequest::JoinRequest { server_id, address, protocol_version, storage_version, shard_count } => Dispatch::Storage {
                call: StorageCall::JoinRequest { server_id, address, protocol_version, storage_version, shard_count },
                form: ReplyForm::ClusterNodes,
            },
        BackendRequest::JoinAccept(value) => Dispatch::Storage {
                call: StorageCall::JoinAccept(value),
                form: ReplyForm::ClusterNodes,
            },
        BackendRequest::JoinReject { server_id, reason } => Dispatch::Storage {
                call: StorageCall::JoinReject { server_id, reason },
                form: ReplyForm::ClusterNodes,
            },
        BackendRequest::DecommissionNode(value) => Dispatch::Storage {
                call: StorageCall::DecommissionNode(value),
                form: ReplyForm::ClusterNodes,
            },
        BackendRequest::ListNodes => Dispatch::Storage {
                call: StorageCall::ListNodes,
                form: ReplyForm::ClusterNodes,
            },
        BackendRequest::MetadataAuthority => Dispatch::Storage {
                call: StorageCall::MetadataAuthority,
                form: ReplyForm::ClusterManagementStatus,
            },
        BackendRequest::SetMetadataAuthority(value) => Dispatch::Storage {
                call: StorageCall::SetMetadataAuthority(value),
                form: ReplyForm::ClusterManagementStatus,
            },
        BackendRequest::SetRebalancePolicy { replication_factor, max_steps_per_plan } => Dispatch::Storage {
                call: StorageCall::SetRebalancePolicy { replication_factor, max_steps_per_plan },
                form: ReplyForm::ClusterManagementStatus,
            },
        BackendRequest::PlanRebalance => Dispatch::Storage {
                call: StorageCall::PlanRebalance,
                form: ReplyForm::RebalancePlan,
            },
        BackendRequest::StartRebalance => Dispatch::Storage {
                call: StorageCall::StartRebalance,
                form: ReplyForm::RebalanceExecution,
            },
        BackendRequest::CancelRebalance => Dispatch::Storage {
                call: StorageCall::CancelRebalance,
                form: ReplyForm::RebalanceExecution,
            },
        BackendRequest::RebalanceStatus => Dispatch::Storage {
                call: StorageCall::RebalanceStatus,
                form: ReplyForm::RebalanceStatus,
            },
        BackendRequest::AdvanceRebalance => Dispatch::Storage {
                call: StorageCall::AdvanceRebalance,
                form: ReplyForm::RebalanceAdvance,
            },
        BackendRequest::ClusterManagementStatus => Dispatch::Storage {
                call: StorageCall::ClusterManagementStatus,
                form: ReplyForm::ClusterManagementStatus,
            },
        BackendRequest::PrepareRebalanceStep(value) => Dispatch::Storage {
                call: StorageCall::PrepareRebalanceStep(value),
                form: ReplyForm::ClusterNodes,
            },
        BackendRequest::MarkShardCaughtUp { shard_id, server_id, match_index } => Dispatch::Storage {
                call: StorageCall::MarkShardCaughtUp { shard_id, server_id, match_index },
                form: ReplyForm::ClusterNodes,
            },
        BackendRequest::ApplyRebalanceStep(value) => Dispatch::Storage {
                call: StorageCall::ApplyRebalanceStep(value),
                form: ReplyForm::RoutingVersion,
            },
        BackendRequest::TopologyReconcile { .. } => Dispatch::Answer(
            BackendResponse::Failed("peer management and catch-up require a backend coordinator".to_owned()),
        ),
        BackendRequest::GossipNode { .. } => Dispatch::Answer(
            BackendResponse::Failed("peer management and catch-up require a backend coordinator".to_owned()),
        ),
        BackendRequest::ListGossipNodes => Dispatch::Answer(
            BackendResponse::Failed("peer management and catch-up require a backend coordinator".to_owned()),
        ),
        BackendRequest::GossipRefreshFromMembership => Dispatch::Answer(
            BackendResponse::Failed("peer management and catch-up require a backend coordinator".to_owned()),
        ),
    }
}

/// Whether the parameters of a query are well formed.
pub open spec fn params_well_formed(request: BackendRequest) -> bool {
    match request {
        BackendRequest::Query { params, .. } => params.well_formed(),
        _ => true,
    }
}

/// What the storage did.
pub enum StorageOutcome {
    Done,
    Id(u64),
    Rows { count: usize, encoded: String },
    Text(String),
    Transfer { term: u64, last_log_index: u64, last_log_term: u64 },
    Execution(Option<String>),
    Advanced { action: String, execution: String },
    Version(u64),
}

/// Whether an outcome is one that a form can tell.
pub open spec fn form_fits(form: ReplyForm, outcome: StorageOutcome) -> bool {
    match form {
        ReplyForm::Unit | ReplyForm::NoRows => outcome is Done,
        ReplyForm::Node | ReplyForm::Relationship => outcome is Id,
        ReplyForm::Rows => outcome is Rows,
        ReplyForm::LeaderTransfer { .. } => outcome is Transfer,
        ReplyForm::RebalanceStatus => outcome is Execution,
        ReplyForm::RebalanceAdvance => outcome is Advanced,
        ReplyForm::RoutingVersion => outcome is Version,
        _ => outcome is Text,
    }
}

/// How the transfer of a leader is told.
pub open spec fn transfer_text(
    shard_id: u64,
    transferee_id: u64,
    term: u64,
    last_log_index: u64,
    last_log_term: u64,
) -> Seq<char> {
    "raft_leader_transfer shard_id="@ + dec(shard_id as nat) + " transferee_id="@ + dec(
        transferee_id as nat,
    ) + " term="@ + dec(term as nat) + " last_log_index="@ + dec(last_log_index as nat)
        + " last_log_term="@ + dec(last_log_term as nat)
}

/// How an outcome of the storage is told.
pub open spec fn told(form: ReplyForm, outcome: Result<StorageOutcome, String>) -> Response {
    match outcome {
        Err(e) => Response::Failed(e@),
        Ok(o) => match (form, o) {
            (ReplyForm::NoRows, _) => Response::OkRows { count: 0, debug_rows: Seq::empty() },
            (ReplyForm::Node, StorageOutcome::Id(n)) => Response::OkNode(n),
            (ReplyForm::Relationship, StorageOutcome::Id(n)) => Response::OkRelationship(n),
            (ReplyForm::Rows, StorageOutcome::Rows { count, encoded }) => Response::OkRows {
                count,
                debug_rows: encoded@,
            },
            (
                ReplyForm::LeaderTransfer { shard_id, transferee_id },
                StorageOutcome::Transfer { term, last_log_index, last_log_term },
            ) => Response::OkStorageMaintenance(
                transfer_text(shard_id, transferee_id, term, last_log_index, last_log_term),
            ),
            (ReplyForm::RebalanceStatus, StorageOutcome::Execution(t)) => Response::OkRebalanceExecution(
                match t {
                    Some(t) => t@,
                    None => "none"@,
                },
            ),
            (
                ReplyForm::RebalanceAdvance,
                StorageOutcome::Advanced { action, execution },
            ) => Response::OkRebalanceExecution("action="@ + action@ + " "@ + execution@),
            (ReplyForm::RoutingVersion, StorageOutcome::Version(n)) => Response::OkClusterStatus(
                "routing_version="@ + dec(n as nat),
            ),
            (ReplyForm::QueryPlan, StorageOutcome::Text(t)) => Response::OkQueryPlan(t@),
            (ReplyForm::QueryProfile, StorageOutcome::Text(t)) => Response::OkQueryProfile(t@),
            (ReplyForm::VectorIndexStatus, StorageOutcome::Text(t)) => Response::OkVectorIndexStatus(t@),
            (ReplyForm::IndexCatalog, StorageOutcome::Text(t)) => Response::OkIndexCatalog(t@),
            (ReplyForm::ClusterStatus, StorageOutcome::Text(t)) => Response::OkClusterStatus(t@),
            (ReplyForm::RoutingTable, StorageOutcome::Text(t)) => Response::OkRoutingTable(t@),
            (ReplyForm::StorageStatus, StorageOutcome::Text(t)) => Response::OkStorageStatus(t@),
            (ReplyForm::Statistics, StorageOutcome::Text(t)) => Response::OkStatistics(t@),
            (ReplyForm::StorageMaintenance, StorageOutcome::Text(t)) => Response::OkStorageMaintenance(t@),
            (ReplyForm::MetadataLog, StorageOutcome::Text(t)) => Response::OkMetadataLog(t@),
            (ReplyForm::ClusterNodes, StorageOutcome::Text(t)) => Response::OkClusterNodes(t@),
            (ReplyForm::ClusterManagementStatus, StorageOutcome::Text(t)) => Response::OkClusterManagementStatus(t@),
            (ReplyForm::RebalancePlan, StorageOutcome::Text(t)) => Response::OkRebalancePlan(t@),
            (ReplyForm::RebalanceExecution, StorageOutcome::Text(t)) => Response::OkRebalanceExecution(t@),
            _ => Response::OkUnit,
        },
    }
}

/// Tells an outcome of the storage.
pub fn answer_request(form: ReplyForm, outcome: Result<StorageOutcome, String>) -> (r:
    BackendResponse)
    requires
        outcome is Ok ==> form_fits(form, outcome->Ok_0),
    ensures
        r@ == told(form, outcome),
{
    let o = match outcome {
        Err(e) => return BackendResponse::Failed(e),
        Ok(o) => o,
    };
    match (form, o) {
        (ReplyForm::NoRows, _) => {
            let debug_rows = String::new();
            assert(debug_rows@ =~= Seq::<char>::empty());
            BackendResponse::OkRows { count: 0, debug_rows }
        },
        (ReplyForm::Node, StorageOutcome::Id(n)) => BackendResponse::OkNode(n),
        (ReplyForm::Relationship, StorageOutcome::Id(n)) => BackendResponse::OkRelationship(n),
        (ReplyForm::Rows, StorageOutcome::Rows { count, encoded }) => BackendResponse::OkRows {
            count,
            debug_rows: encoded,
        },
        (
            ReplyForm::LeaderTransfer { shard_id, transferee_id },
            StorageOutcome::Transfer { term, last_log_index, last_log_term },
        ) => {
            let mut t = "raft_leader_transfer shard_id=".to_owned();
            t.append(show(shard_id as u128).as_str());
            t.append(" transferee_id=");
            t.append(show(transferee_id as u128).as_str());
            t.append(" term=");
            t.append(show(term as u128).as_str());
            t.append(" last_log_index=");
            t.append(show(last_log_index as u128).as_str());
            t.append(" last_log_term=");
            t.append(show(last_log_term as u128).as_str());
            BackendResponse::OkStorageMaintenance(t)
        },
        (ReplyForm::RebalanceStatus, StorageOutcome::Execution(t)) => BackendResponse::OkRebalanceExecution(
            match t {
                Some(t) => t,
                None => "none".to_owned(),
            },
        ),
        (ReplyForm::RebalanceAdvance, StorageOutcome::Advanced { action, execution }) => {
            let mut t = "action=".to_owned();
            t.append(action.as_str());
            t.append(" ");
            t.append(execution.as_str());
            BackendResponse::OkRebalanceExecution(t)
        },
        (ReplyForm::RoutingVersion, StorageOutcome::Version(n)) => BackendResponse::OkClusterStatus(
            cat("routing_version=", show(n as u128).as_str()),
        ),
        (ReplyForm::QueryPlan, StorageOutcome::Text(t)) => BackendResponse::OkQueryPlan(t),
        (ReplyForm::QueryProfile, StorageOutcome::Text(t)) => BackendResponse::OkQueryProfile(t),
        (ReplyForm::VectorIndexStatus, StorageOutcome::Text(t)) => BackendResponse::OkVectorIndexStatus(t),
        (ReplyForm::IndexCatalog, StorageOutcome::Text(t)) => BackendResponse::OkIndexCatalog(t),
        (ReplyForm::ClusterStatus, StorageOutcome::Text(t)) => BackendResponse::OkClusterStatus(t),
        (ReplyForm::RoutingTable, StorageOutcome::Text(t)) => BackendResponse::OkRoutingTable(t),
        (ReplyForm::StorageStatus, StorageOutcome::Text(t)) => BackendResponse::OkStorageStatus(t),
        (ReplyForm::Statistics, StorageOutcome::Text(t)) => BackendResponse::OkStatistics(t),
        (ReplyForm::StorageMaintenance, StorageOutcome::Text(t)) => BackendResponse::OkStorageMaintenance(t),
        (ReplyForm::MetadataLog, StorageOutcome::Text(t)) => BackendResponse::OkMetadataLog(t),
        (ReplyForm::ClusterNodes, StorageOutcome::Text(t)) => BackendResponse::OkClusterNodes(t),
        (ReplyForm::ClusterManagementStatus, StorageOutcome::Text(t)) => BackendResponse::OkClusterManagementStatus(t),
        (ReplyForm::RebalancePlan, StorageOutcome::Text(t)) => BackendResponse::OkRebalancePlan(t),
        (ReplyForm::RebalanceExecution, StorageOutcome::Text(t)) => BackendResponse::OkRebalanceExecution(t),
        _ => BackendResponse::OkUnit,
    }
}

/// The shard that a request writes to, if it writes to one: it is given, or that of the node,
/// or that which owns the relationship; schemas belong to the first shard.
pub open spec fn shard_written(
    request: BackendRequest,
    shard_count: u64,
    owner: Result<u64, String>,
) -> Result<Option<u64>, Seq<char>> {
    if shard_count == 0 {
        Ok(None)
    } else {
        match request {
            BackendRequest::CreateNodeOnShard { shard_id, .. } => Ok(Some(shard_id)),
            BackendRequest::CreateRelationship { from, .. } => Ok(Some(from % shard_count)),
            BackendRequest::SetNodeProperty { id, .. } => Ok(Some(id % shard_count)),
            BackendRequest::RemoveNodeProperty { id, .. } => Ok(Some(id % shard_count)),
            BackendRequest::AddNodeLabel { id, .. } => Ok(Some(id % shard_count)),
            BackendRequest::RemoveNodeLabel { id, .. } => Ok(Some(id % shard_count)),
            BackendRequest::DeleteNode(id) => Ok(Some(id % shard_count)),
            BackendRequest::SetRelationshipProperty { .. }
            | BackendRequest::RemoveRelationshipProperty { .. }
            | BackendRequest::DeleteRelationship(_) => match owner {
                Err(e) => Err(e@),
                Ok(s) => Ok(Some(s)),
            },
            BackendRequest::CreateIndex { .. }
            | BackendRequest::CreateUniqueConstraint { .. }
            | BackendRequest::CreateVectorIndex { .. }
            | BackendRequest::RebuildVectorIndex { .. }
            | BackendRequest::RebuildVectorIndexes
            | BackendRequest::DropIndex { .. }
            | BackendRequest::DropConstraint { .. } => Ok(Some(0)),
            _ => Ok(None),
        }
    }
}

/// Finds the shard that a request writes to. The owner is that of the relationship that the
/// request names, as the storage tells it.
pub fn write_request_shard(
    request: &BackendRequest,
    shard_count: u64,
    owner: &Result<u64, String>,
) -> (r: Result<Option<u64>, String>)
    ensures
        match r {
            Ok(s) => shard_written(*request, shard_count, *owner) == Ok::<Option<u64>, Seq<char>>(s),
            Err(e) => shard_written(*request, shard_count, *owner) == Err::<Option<u64>, Seq<char>>(
                e@,
            ),
        },
{
    if shard_count == 0 {
        return Ok(None);
    }
    match request {
        BackendRequest::CreateNodeOnShard { shard_id, .. } => Ok(Some(*shard_id)),
        BackendRequest::CreateRelationship { from, .. } => Ok(Some(*from % shard_count)),
        BackendRequest::SetNodeProperty { id, .. } => Ok(Some(*id % shard_count)),
        BackendRequest::RemoveNodeProperty { id, .. } => Ok(Some(*id % shard_count)),
        BackendRequest::AddNodeLabel { id, .. } => Ok(Some(*id % shard_count)),
        BackendRequest::RemoveNodeLabel { id, .. } => Ok(Some(*id % shard_count)),
        BackendRequest::DeleteNode(id) => Ok(Some(*id % shard_count)),
        BackendRequest::SetRelationshipProperty { .. }
        | BackendRequest::RemoveRelationshipProperty { .. }
        | BackendRequest::DeleteRelationship(_) => match owner {
            Err(e) => Err(e.as_str().to_owned()),
            Ok(s) => Ok(Some(*s)),
        },
        BackendRequest::CreateIndex { .. }
        | BackendRequest::CreateUniqueConstraint { .. }
        | BackendRequest::CreateVectorIndex { .. }
        | BackendRequest::RebuildVectorIndex { .. }
        | BackendRequest::RebuildVectorIndexes
        | BackendRequest::DropIndex { .. }
        | BackendRequest::DropConstraint { .. } => Ok(Some(0)),
        _ => Ok(None),
    }
}

/// A write in the form in which it is sent on.
pub open spec fn forwarded_text(request: BackendRequest) -> Option<Seq<char>> {
    match request {
        BackendRequest::CreateNodeOnShard { shard_id, labels, properties } => Some(
            "CREATE_NODE_SHARD\t"@ + dec(shard_id as nat) + "\t"@ + join(views(labels@), ","@)
                + field_suffix(by_name(request_values(vals(properties@)))),
        ),
        BackendRequest::CreateRelationship { from, to, rel_type, properties } => Some(
            "CREATE_RELATIONSHIP\t"@ + dec(from as nat) + "\t"@ + dec(to as nat) + "\t"@
                + rel_type@ + field_suffix(by_name(request_values(vals(properties@)))),
        ),
        BackendRequest::SetNodeProperty { id, key, value } => Some(
            "SET_NODE_PROPERTY\t"@ + dec(id as nat) + "\t"@ + key@ + "\t"@ + request_value(val(value)),
        ),
        BackendRequest::RemoveNodeProperty { id, key } => Some(
            "REMOVE_NODE_PROPERTY\t"@ + dec(id as nat) + "\t"@ + key@,
        ),
        BackendRequest::AddNodeLabel { id, label } => Some(
            "ADD_NODE_LABEL\t"@ + dec(id as nat) + "\t"@ + label@,
        ),
        BackendRequest::RemoveNodeLabel { id, label } => Some(
            "REMOVE_NODE_LABEL\t"@ + dec(id as nat) + "\t"@ + label@,
        ),
        BackendRequest::SetRelationshipProperty { id, key, value } => Some(
            "SET_RELATIONSHIP_PROPERTY\t"@ + dec(id as nat) + "\t"@ + key@ + "\t"@ + request_value(val(value)),
        ),
        BackendRequest::RemoveRelationshipProperty { id, key } => Some(
            "REMOVE_RELATIONSHIP_PROPERTY\t"@ + dec(id as nat) + "\t"@ + key@,
        ),
        BackendRequest::DeleteNode(value) => Some(
            "DELETE_NODE\t"@ + dec(value as nat),
        ),
        BackendRequest::DeleteRelationship(value) => Some(
            "DELETE_RELATIONSHIP\t"@ + dec(value as nat),
        ),
        BackendRequest::CreateIndex { name, label, property, if_not_exists } => Some(
            "CREATE_INDEX\t"@ + name@ + "\t"@ + label@ + "\t"@ + property@ + if_not_exists_text(if_not_exists),
        ),
        BackendRequest::CreateUniqueConstraint { name, label, property, if_not_exists } => Some(
            "CREATE_CONSTRAINT\t"@ + name@ + "\t"@ + label@ + "\t"@ + property@ + if_not_exists_text(if_not_exists),
        ),
        BackendRequest::CreateVectorIndex { name, label, property, dimensions, metric, if_not_exists } => Some(
            "CREATE_VECTOR_INDEX\t"@ + name@ + "\t"@ + label@ + "\t"@ + property@ + "\t"@
                + dec(dimensions as nat) + "\t"@ + metric@ + if_not_exists_text(if_not_exists),
        ),
        BackendRequest::RebuildVectorIndex { name } => Some(
            "REBUILD_VECTOR_INDEX\t"@ + name@,
        ),
        BackendRequest::RebuildVectorIndexes => Some(
            "REBUILD_VECTOR_INDEXES"@,
        ),
        BackendRequest::DropIndex { name, if_exists } => Some(
            "DROP_INDEX\t"@ + name@ + if_exists_text(if_exists),
        ),
        BackendRequest::DropConstraint { name, if_exists } => Some(
            "DROP_CONSTRAINT\t"@ + name@ + if_exists_text(if_exists),
        ),
        _ => None,
    }
}

/// Writes a request in the form in which it is sent on.
pub fn format_command_request_payload(request: &BackendRequest) -> (r: Result<String, String>)
    ensures
        match forwarded_text(*request) {
            Some(t) => r is Ok && r->Ok_0@ == t,
            None => r is Err && r->Err_0@ == "request is not a forwardable write command"@,
        },
{
    match request {
        BackendRequest::CreateNodeOnShard { shard_id, labels, properties } => {
            let mut r = "CREATE_NODE_SHARD\t".to_owned();
            r.append(show(*shard_id as u128).as_str());
            r.append("\t");
            r.append(join_with(labels.as_slice(), ",").as_str());
            r.append(format_properties_suffix(properties).as_str());
            Ok(r)
        },
        BackendRequest::CreateRelationship { from, to, rel_type, properties } => {
            let mut r = "CREATE_RELATIONSHIP\t".to_owned();
            r.append(show(*from as u128).as_str());
            r.append("\t");
            r.append(show(*to as u128).as_str());
            r.append("\t");
            r.append(rel_type.as_str());
            r.append(format_properties_suffix(properties).as_str());
            Ok(r)
        },
        BackendRequest::SetNodeProperty { id, key, value } => {
            let mut r = "SET_NODE_PROPERTY\t".to_owned();
            r.append(show(*id as u128).as_str());
            r.append("\t");
            r.append(key.as_str());
            r.append("\t");
            r.append(format_value_for_request(value).as_str());
            Ok(r)
        },
        BackendRequest::RemoveNodeProperty { id, key } => {
            let mut r = "REMOVE_NODE_PROPERTY\t".to_owned();
            r.append(show(*id as u128).as_str());
            r.append("\t");
            r.append(key.as_str());
            Ok(r)
        },
        BackendRequest::AddNodeLabel { id, label } => {
            let mut r = "ADD_NODE_LABEL\t".to_owned();
            r.append(show(*id as u128).as_str());
            r.append("\t");
            r.append(label.as_str());
            Ok(r)
        },
        BackendRequest::RemoveNodeLabel { id, label } => {
            let mut r = "REMOVE_NODE_LABEL\t".to_owned();
            r.append(show(*id as u128).as_str());
            r.append("\t");
            r.append(label.as_str());
            Ok(r)
        },
        BackendRequest::SetRelationshipProperty { id, key, value } => {
            let mut r = "SET_RELATIONSHIP_PROPERTY\t".to_owned();
            r.append(show(*id as u128).as_str());
            r.append("\t");
            r.append(key.as_str());
            r.append("\t");
            r.append(format_value_for_request(value).as_str());
            Ok(r)
        },
        BackendRequest::RemoveRelationshipProperty { id, key } => {
            let mut r = "REMOVE_RELATIONSHIP_PROPERTY\t".to_owned();
            r.append(show(*id as u128).as_str());
            r.append("\t");
            r.append(key.as_str());
            Ok(r)
        },
        BackendRequest::DeleteNode(value) => {
            let mut r = "DELETE_NODE\t".to_owned();
            r.append(show(*value as u128).as_str());
            Ok(r)
        },
        BackendRequest::DeleteRelationship(value) => {
            let mut r = "DELETE_RELATIONSHIP\t".to_owned();
            r.append(show(*value as u128).as_str());
            Ok(r)
        },
        BackendRequest::CreateIndex { name, label, property, if_not_exists } => {
            let mut r = "CREATE_INDEX\t".to_owned();
            r.append(name.as_str());
            r.append("\t");
            r.append(label.as_str());
            r.append("\t");
            r.append(property.as_str());
            r.append(format_if_not_exists_suffix(*if_not_exists));
            Ok(r)
        },
        BackendRequest::CreateUniqueConstraint { name, label, property, if_not_exists } => {
            let mut r = "CREATE_CONSTRAINT\t".to_owned();
            r.append(name.as_str());
            r.append("\t");
            r.append(label.as_str());
            r.append("\t");
            r.append(property.as_str());
            r.append(format_if_not_exists_suffix(*if_not_exists));
            Ok(r)
        },
        BackendRequest::CreateVectorIndex { name, label, property, dimensions, metric, if_not_exists } => {
            let mut r = "CREATE_VECTOR_INDEX\t".to_owned();
            r.append(name.as_str());
            r.append("\t");
            r.append(label.as_str());
            r.append("\t");
            r.append(property.as_str());
            r.append("\t");
            r.append(show(*dimensions as u128).as_str());
            r.append("\t");
            r.append(metric.as_str());
            r.append(format_if_not_exists_suffix(*if_not_exists));
            Ok(r)
        },
        BackendRequest::RebuildVectorIndex { name } => {
            let mut r = "REBUILD_VECTOR_INDEX\t".to_owned();
            r.append(name.as_str());
            Ok(r)
        },
        BackendRequest::RebuildVectorIndexes => {
            let mut r = "REBUILD_VECTOR_INDEXES".to_owned();
            Ok(r)
        },
        BackendRequest::DropIndex { name, if_exists } => {
            let mut r = "DROP_INDEX\t".to_owned();
            r.append(name.as_str());
            r.append(format_if_exists_suffix(*if_exists));
            Ok(r)
        },
        BackendRequest::DropConstraint { name, if_exists } => {
            let mut r = "DROP_CONSTRAINT\t".to_owned();
            r.append(name.as_str());
            r.append(format_if_exists_suffix(*if_exists));
            Ok(r)
        },
        _ => Err("request is not a forwardable write command".to_owned()),
    }
}

/// Every request that has to be carried out on one shard can be sent on to it.
pub proof fn writes_to_a_shard_can_be_sent_on(
    request: BackendRequest,
    shard_count: u64,
    owner: Result<u64, String>,
)
    requires
        shard_written(request, shard_count, owner) is Ok,
        shard_written(request, shard_count, owner)->Ok_0 is Some,
    ensures
        forwarded_text(request) is Some,
{
}

/// What the server itself does for a request; what is left goes to the storage.
pub enum BackendTask {
    QueryDistributed { query: String, params: QueryParams },
    QueryShard { shard_id: u64, query: String, params: QueryParams },
    QueryStagedShard { shard_id: u64, query: String, params: QueryParams, staged_writes: Vec<StagedWrite> },
    QueryWriteShard { shard_id: u64, query: String, params: QueryParams },
    QueryWriteBatchShard { shard_id: u64, writes: Vec<StagedWrite> },
    RegisterQueryPeer { server_id: u64, address: String },
    UnregisterQueryPeer(u64),
    ListQueryPeers,
    RegisterReplicationPeer { server_id: u64, address: String, node_id: Option<u64>, transport: Option<ReplicationChannelKind> },
    NegotiateReplicationPeer { server_id: u64, address: String, node_id: Option<u64> },
    UnregisterReplicationPeer(u64),
    ListReplicationPeers,
    ReplicationPeerStatus { server_id: Option<u64> },
    ReplicationStatus,
    ClusterRegistry,
    SyncIndexCatalogFromPeer(u64),
    CatchUpFromPrimaries { max_entries_per_request: Option<usize> },
    CatchUpFromPrimary { server_id: u64, max_entries_per_request: Option<usize> },
    CatchUpPlan { server_id: Option<u64> },
    TopologyReconcile { max_entries_per_request: Option<usize> },
    RecoverTransactionDecisions,
    ListTransactionDecisions,
    GossipNode { server_id: u64, query_address: String, replication_address: String, incarnation: u64, ttl_ms: u64, token: Option<String> },
    ListGossipNodes,
    GossipRefreshFromMembership,
    AdvanceRebalance,
    Storage { call: StorageCall, form: ReplyForm },
    Answer(BackendResponse),
}

/// The contents of what the server does for a request.
pub enum Task {
    QueryDistributed { query: String, params: QueryParams },
    QueryShard { shard_id: u64, query: String, params: QueryParams },
    QueryStagedShard { shard_id: u64, query: String, params: QueryParams, staged_writes: Vec<StagedWrite> },
    QueryWriteShard { shard_id: u64, query: String, params: QueryParams },
    QueryWriteBatchShard { shard_id: u64, writes: Vec<StagedWrite> },
    RegisterQueryPeer { server_id: u64, address: String },
    UnregisterQueryPeer(u64),
    ListQueryPeers,
    RegisterReplicationPeer { server_id: u64, address: String, node_id: Option<u64>, transport: Option<ReplicationChannelKind> },
    NegotiateReplicationPeer { server_id: u64, address: String, node_id: Option<u64> },
    UnregisterReplicationPeer(u64),
    ListReplicationPeers,
    ReplicationPeerStatus { server_id: Option<u64> },
    ReplicationStatus,
    ClusterRegistry,
    SyncIndexCatalogFromPeer(u64),
    CatchUpFromPrimaries { max_entries_per_request: Option<usize> },
    CatchUpFromPrimary { server_id: u64, max_entries_per_request: Option<usize> },
    CatchUpPlan { server_id: Option<u64> },
    TopologyReconcile { max_entries_per_request: Option<usize> },
    RecoverTransactionDecisions,
    ListTransactionDecisions,
    GossipNode { server_id: u64, query_address: String, replication_address: String, incarnation: u64, ttl_ms: u64, token: Option<String> },
    ListGossipNodes,
    GossipRefreshFromMembership,
    AdvanceRebalance,
    Storage { call: StorageCall, form: ReplyForm },
    Answer(Response),
}

impl BackendTask {
    pub open spec fn view(&self) -> Task {
        match *self {
            BackendTask::QueryDistributed { query, params } => Task::QueryDistributed { query, params },
            BackendTask::QueryShard { shard_id, query, params } => Task::QueryShard { shard_id, query, params },
            BackendTask::QueryStagedShard { shard_id, query, params, staged_writes } => Task::QueryStagedShard { shard_id, query, params, staged_writes },
            BackendTask::QueryWriteShard { shard_id, query, params } => Task::QueryWriteShard { shard_id, query, params },
            BackendTask::QueryWriteBatchShard { shard_id, writes } => Task::QueryWriteBatchShard { shard_id, writes },
            BackendTask::RegisterQueryPeer { server_id, address } => Task::RegisterQueryPeer { server_id, address },
            BackendTask::UnregisterQueryPeer(value) => Task::UnregisterQueryPeer(value),
            BackendTask::ListQueryPeers => Task::ListQueryPeers,
            BackendTask::RegisterReplicationPeer { server_id, address, node_id, transport } => Task::RegisterReplicationPeer { server_id, address, node_id, transport },
            BackendTask::NegotiateReplicationPeer { server_id, address, node_id } => Task::NegotiateReplicationPeer { server_id, address, node_id },
            BackendTask::UnregisterReplicationPeer(value) => Task::UnregisterReplicationPeer(value),
            BackendTask::ListReplicationPeers => Task::ListReplicationPeers,
            BackendTask::ReplicationPeerStatus { server_id } => Task::ReplicationPeerStatus { server_id },
            BackendTask::ReplicationStatus => Task::ReplicationStatus,
            BackendTask::ClusterRegistry => Task::ClusterRegistry,
            BackendTask::SyncIndexCatalogFromPeer(value) => Task::SyncIndexCatalogFromPeer(value),
            BackendTask::CatchUpFromPrimaries { max_entries_per_request } => Task::CatchUpFromPrimaries { max_entries_per_request },
            BackendTask::CatchUpFromPrimary { server_id, max_entries_per_request } => Task::CatchUpFromPrimary { server_id, max_entries_per_request },
            BackendTask::CatchUpPlan { server_id } => Task::CatchUpPlan { server_id },
            BackendTask::TopologyReconcile { max_entries_per_request } => Task::TopologyReconcile { max_entries_per_request },
            BackendTask::RecoverTransactionDecisions => Task::RecoverTransactionDecisions,
            BackendTask::ListTransactionDecisions => Task::ListTransactionDecisions,
            BackendTask::GossipNode { server_id, query_address, replication_address, incarnation, ttl_ms, token } => Task::GossipNode { server_id, query_address, replication_address, incarnation, ttl_ms, token },
            BackendTask::ListGossipNodes => Task::ListGossipNodes,
            BackendTask::GossipRefreshFromMembership => Task::GossipRefreshFromMembership,
            BackendTask::AdvanceRebalance => Task::AdvanceRebalance,
            BackendTask::Storage { call, form } => Task::Storage { call, form },
            BackendTask::Answer(r) => Task::Answer(r@),
        }
    }
}

/// What the storage does for a request, as a task.
pub open spec fn storage_task(request: BackendRequest, capabilities: Seq<char>) -> Task {
    match dispatched(request, capabilities) {
        Dispatched::Answer(r) => Task::Answer(r),
        Dispatched::Storage { call, form } => Task::Storage { call, form },
    }
}

fn to_storage(request: BackendRequest, capabilities: String) -> (r: BackendTask)
    requires
        params_well_formed(request),
    ensures
        r@ == storage_task(request, capabilities@),
{
    match execute_request(request, capabilities) {
        Dispatch::Answer(r) => BackendTask::Answer(r),
        Dispatch::Storage { call, form } => BackendTask::Storage { call, form },
    }
}

/// What is done for a request of a client with a session: its queries open cursors.
pub open spec fn native_task(request: BackendRequest, capabilities: Seq<char>) -> Task {
    match request {
        BackendRequest::QueryDistributed { query, params } => Task::QueryDistributed { query, params },
        BackendRequest::QueryShard { shard_id, query, params } => Task::QueryShard { shard_id, query, params },
        BackendRequest::QueryStagedShard { shard_id, query, params, staged_writes } => Task::QueryStagedShard { shard_id, query, params, staged_writes },
        BackendRequest::QueryWriteShard { shard_id, query, params } => Task::QueryWriteShard { shard_id, query, params },
        BackendRequest::QueryWriteBatchShard { shard_id, writes } => Task::QueryWriteBatchShard { shard_id, writes },
        BackendRequest::RegisterQueryPeer { server_id, address } => Task::RegisterQueryPeer { server_id, address },
        BackendRequest::UnregisterQueryPeer(value) => Task::UnregisterQueryPeer(value),
        BackendRequest::ListQueryPeers => Task::ListQueryPeers,
        BackendRequest::RegisterReplicationPeer { server_id, address, node_id, transport } => Task::RegisterReplicationPeer { server_id, address, node_id, transport },
        BackendRequest::NegotiateReplicationPeer { server_id, address, node_id } => Task::NegotiateReplicationPeer { server_id, address, node_id },
        BackendRequest::UnregisterReplicationPeer(value) => Task::UnregisterReplicationPeer(value),
        BackendRequest::ListReplicationPeers => Task::ListReplicationPeers,
        BackendRequest::ReplicationPeerStatus { server_id } => Task::ReplicationPeerStatus { server_id },
        BackendRequest::ReplicationStatus => Task::ReplicationStatus,
        BackendRequest::ClusterRegistry => Task::ClusterRegistry,
        BackendRequest::SyncIndexCatalogFromPeer(value) => Task::SyncIndexCatalogFromPeer(value),
        BackendRequest::CatchUpFromPrimaries { max_entries_per_request } => Task::CatchUpFromPrimaries { max_entries_per_request },
        BackendRequest::CatchUpFromPrimary { server_id, max_entries_per_request } => Task::CatchUpFromPrimary { server_id, max_entries_per_request },
        BackendRequest::CatchUpPlan { server_id } => Task::CatchUpPlan { server_id },
        BackendRequest::TopologyReconcile { max_entries_per_request } => Task::TopologyReconcile { max_entries_per_request },
        BackendRequest::RecoverTransactionDecisions => Task::RecoverTransactionDecisions,
        BackendRequest::ListTransactionDecisions => Task::ListTransactionDecisions,
        BackendRequest::GossipNode { server_id, query_address, replication_address, incarnation, ttl_ms, token } => Task::GossipNode { server_id, query_address, replication_address, incarnation, ttl_ms, token },
        BackendRequest::ListGossipNodes => Task::ListGossipNodes,
        BackendRequest::GossipRefreshFromMembership => Task::GossipRefreshFromMembership,
        _ => storage_task(request, capabilities),
    }
}

fn find_native_task(request: BackendRequest, capabilities: String) -> (r: BackendTask)
    requires
        params_well_formed(request),
    ensures
        r@ == native_task(request, capabilities@),
{
    match request {
        BackendRequest::QueryDistributed { query, params } => BackendTask::QueryDistributed { query, params },
        BackendRequest::QueryShard { shard_id, query, params } => BackendTask::QueryShard { shard_id, query, params },
        BackendRequest::QueryStagedShard { shard_id, query, params, staged_writes } => BackendTask::QueryStagedShard { shard_id, query, params, staged_writes },
        BackendRequest::QueryWriteShard { shard_id, query, params } => BackendTask::QueryWriteShard { shard_id, query, params },
        BackendRequest::QueryWriteBatchShard { shard_id, writes } => BackendTask::QueryWriteBatchShard { shard_id, writes },
        BackendRequest::RegisterQueryPeer { server_id, address } => BackendTask::RegisterQueryPeer { server_id, address },
        BackendRequest::UnregisterQueryPeer(value) => BackendTask::UnregisterQueryPeer(value),
        BackendRequest::ListQueryPeers => BackendTask::ListQueryPeers,
        BackendRequest::RegisterReplicationPeer { server_id, address, node_id, transport } => BackendTask::RegisterReplicationPeer { server_id, address, node_id, transport },
        BackendRequest::NegotiateReplicationPeer { server_id, address, node_id } => BackendTask::NegotiateReplicationPeer { server_id, address, node_id },
        BackendRequest::UnregisterReplicationPeer(value) => BackendTask::UnregisterReplicationPeer(value),
        BackendRequest::ListReplicationPeers => BackendTask::ListReplicationPeers,
        BackendRequest::ReplicationPeerStatus { server_id } => BackendTask::ReplicationPeerStatus { server_id },
        BackendRequest::ReplicationStatus => BackendTask::ReplicationStatus,
        BackendRequest::ClusterRegistry => BackendTask::ClusterRegistry,
        BackendRequest::SyncIndexCatalogFromPeer(value) => BackendTask::SyncIndexCatalogFromPeer(value),
        BackendRequest::CatchUpFromPrimaries { max_entries_per_request } => BackendTask::CatchUpFromPrimaries { max_entries_per_request },
        BackendRequest::CatchUpFromPrimary { server_id, max_entries_per_request } => BackendTask::CatchUpFromPrimary { server_id, max_entries_per_request },
        BackendRequest::CatchUpPlan { server_id } => BackendTask::CatchUpPlan { server_id },
        BackendRequest::TopologyReconcile { max_entries_per_request } => BackendTask::TopologyReconcile { max_entries_per_request },
        BackendRequest::RecoverTransactionDecisions => BackendTask::RecoverTransactionDecisions,
        BackendRequest::ListTransactionDecisions => BackendTask::ListTransactionDecisions,
        BackendRequest::GossipNode { server_id, query_address, replication_address, incarnation, ttl_ms, token } => BackendTask::GossipNode { server_id, query_address, replication_address, incarnation, ttl_ms, token },
        BackendRequest::ListGossipNodes => BackendTask::ListGossipNodes,
        BackendRequest::GossipRefreshFromMembership => BackendTask::GossipRefreshFromMembership,
        other => to_storage(other, capabilities),
    }
}

/// What is done for a request of a client without a session.
pub open spec fn backend_task(request: BackendRequest, capabilities: Seq<char>) -> Task {
    match request {
        BackendRequest::QueryDistributed { query, params } => Task::QueryDistributed { query, params },
        BackendRequest::RegisterQueryPeer { server_id, address } => Task::RegisterQueryPeer { server_id, address },
        BackendRequest::UnregisterQueryPeer(value) => Task::UnregisterQueryPeer(value),
        BackendRequest::ListQueryPeers => Task::ListQueryPeers,
        BackendRequest::RegisterReplicationPeer { server_id, address, node_id, transport } => Task::RegisterReplicationPeer { server_id, address, node_id, transport },
        BackendRequest::NegotiateReplicationPeer { server_id, address, node_id } => Task::NegotiateReplicationPeer { server_id, address, node_id },
        BackendRequest::UnregisterReplicationPeer(value) => Task::UnregisterReplicationPeer(value),
        BackendRequest::ListReplicationPeers => Task::ListReplicationPeers,
        BackendRequest::ReplicationPeerStatus { server_id } => Task::ReplicationPeerStatus { server_id },
        BackendRequest::ReplicationStatus => Task::ReplicationStatus,
        BackendRequest::ClusterRegistry => Task::ClusterRegistry,
        BackendRequest::SyncIndexCatalogFromPeer(value) => Task::SyncIndexCatalogFromPeer(value),
        BackendRequest::CatchUpFromPrimaries { max_entries_per_request } => Task::CatchUpFromPrimaries { max_entries_per_request },
        BackendRequest::CatchUpFromPrimary { server_id, max_entries_per_request } => Task::CatchUpFromPrimary { server_id, max_entries_per_request },
        BackendRequest::CatchUpPlan { server_id } => Task::CatchUpPlan { server_id },
        BackendRequest::RecoverTransactionDecisions => Task::RecoverTransactionDecisions,
        BackendRequest::ListTransactionDecisions => Task::ListTransactionDecisions,
        BackendRequest::AdvanceRebalance => Task::AdvanceRebalance,
        _ => storage_task(request, capabilities),
    }
}

fn find_backend_task(request: BackendRequest, capabilities: String) -> (r: BackendTask)
    requires
        params_well_formed(request),
    ensures
        r@ == backend_task(request, capabilities@),
{
    match request {
        BackendRequest::QueryDistributed { query, params } => BackendTask::QueryDistributed { query, params },
        BackendRequest::RegisterQueryPeer { server_id, address } => BackendTask::RegisterQueryPeer { server_id, address },
        BackendRequest::UnregisterQueryPeer(value) => BackendTask::UnregisterQueryPeer(value),
        BackendRequest::ListQueryPeers => BackendTask::ListQueryPeers,
        BackendRequest::RegisterReplicationPeer { server_id, address, node_id, transport } => BackendTask::RegisterReplicationPeer { server_id, address, node_id, transport },
        BackendRequest::NegotiateReplicationPeer { server_id, address, node_id } => BackendTask::NegotiateReplicationPeer { server_id, address, node_id },
        BackendRequest::UnregisterReplicationPeer(value) => BackendTask::UnregisterReplicationPeer(value),
        BackendRequest::ListReplicationPeers => BackendTask::ListReplicationPeers,
        BackendRequest::ReplicationPeerStatus { server_id } => BackendTask::ReplicationPeerStatus { server_id },
        BackendRequest::ReplicationStatus => BackendTask::ReplicationStatus,
        BackendRequest::ClusterRegistry => BackendTask::ClusterRegistry,
        BackendRequest::SyncIndexCatalogFromPeer(value) => BackendTask::SyncIndexCatalogFromPeer(value),
        BackendRequest::CatchUpFromPrimaries { max_entries_per_request } => BackendTask::CatchUpFromPrimaries { max_entries_per_request },
        BackendRequest::CatchUpFromPrimary { server_id, max_entries_per_request } => BackendTask::CatchUpFromPrimary { server_id, max_entries_per_request },
        BackendRequest::CatchUpPlan { server_id } => BackendTask::CatchUpPlan { server_id },
        BackendRequest::RecoverTransactionDecisions => BackendTask::RecoverTransactionDecisions,
        BackendRequest::ListTransactionDecisions => BackendTask::ListTransactionDecisions,
        BackendRequest::AdvanceRebalance => BackendTask::AdvanceRebalance,
        other => to_storage(other, capabilities),
    }
}

/// Whether a request has to wait for a restore. The first argument tells whether the request
/// changes data, the second whether the database is in maintenance, or why that is not known.
pub open spec fn drained(mutates: bool, maintenance: Result<bool, String>, refusal: Seq<char>) -> Option<
    Seq<char>,
> {
    if !mutates {
        None
    } else {
        match maintenance {
            Err(e) => Some(e@),
            Ok(draining) => if draining {
                Some(refusal)
            } else {
                None
            },
        }
    }
}

fn check_drained(mutates: bool, maintenance: &Result<bool, String>, refusal: &str) -> (r: Option<
    String,
>)
    ensures
        match r {
            Some(e) => drained(mutates, *maintenance, refusal@) == Some(e@),
            None => drained(mutates, *maintenance, refusal@) is None,
        },
{
    if !mutates {
        return None;
    }
    match maintenance {
        Err(e) => Some(e.as_str().to_owned()),
        Ok(draining) => if *draining {
            Some(refusal.to_owned())
        } else {
            None
        },
    }
}

/// What is done for a request of a session.
pub enum CommandPlan {
    /// The client is pointed to another server.
    Redirect(BackendRedirect),
    /// The request is sent on.
    Send { address: String, payload: String },
    /// The request is carried out here.
    Here(BackendTask),
}

/// The contents of what is done for a request of a session.
pub enum Planned {
    Redirect(Redirected),
    Send { address: Seq<char>, payload: Seq<char> },
    Here(Task),
}

impl CommandPlan {
    pub open spec fn view(&self) -> Planned {
        match *self {
            CommandPlan::Redirect(r) => Planned::Redirect(r@),
            CommandPlan::Send { address, payload } => Planned::Send {
                address: address@,
                payload: payload@,
            },
            CommandPlan::Here(t) => Planned::Here(t@),
        }
    }
}

/// What is known when a request is carried out: whether it changes data, whether the database
/// is in maintenance, where a write to a shard goes, and what the protocol can do.
pub struct RequestFacts {
    pub mutates: bool,
    pub maintenance: Result<bool, String>,
    pub forward: Result<ForwardPlan, String>,
    pub capabilities: String,
}

/// What is done for a request of a session, or why it is refused: one that changes data waits
/// for a restore, and a write goes to the primary of its shard.
pub open spec fn command_planned(request: BackendRequest, facts: RequestFacts) -> Result<
    Planned,
    Seq<char>,
> {
    match drained(
        facts.mutates,
        facts.maintenance,
        "restore maintenance mode is draining native requests"@,
    ) {
        Some(e) => Err(e),
        None => match facts.forward {
            Err(e) => Err(e@),
            Ok(plan) => match plan@ {
                Forward::Redirect { shard_id, target_server_id, routing_version } => Ok(
                    Planned::Redirect(
                        Redirected {
                            kind: RedirectKind::Moved,
                            shard_id,
                            target_server_id: Some(target_server_id),
                            address: None,
                            routing_version,
                            database: "default"@,
                            retryable: true,
                        },
                    ),
                ),
                Forward::Send { address } => match forwarded_text(request) {
                    None => Err("request is not a forwardable write command"@),
                    Some(payload) => Ok(Planned::Send { address, payload }),
                },
                Forward::Here => Ok(Planned::Here(native_task(request, facts.capabilities@))),
            },
        },
    }
}

/// Decides what is done for a request of a session.
pub fn execute_backend_command(request: BackendRequest, facts: RequestFacts) -> (r: Result<
    CommandPlan,
    String,
>)
    requires
        params_well_formed(request),
    ensures
        match r {
            Ok(p) => command_planned(request, facts) == Ok::<Planned, Seq<char>>(p@),
            Err(e) => command_planned(request, facts) == Err::<Planned, Seq<char>>(e@),
        },
{
    if let Some(e) = check_drained(
        facts.mutates,
        &facts.maintenance,
        "restore maintenance mode is draining native requests",
    ) {
        return Err(e);
    }
    match facts.forward {
        Err(e) => Err(e),
        Ok(plan) => match plan {
            ForwardPlan::Redirect { shard_id, target_server_id, routing_version } => Ok(
                CommandPlan::Redirect(
                    BackendRedirect {
                        kind: RedirectKind::Moved,
                        shard_id,
                        target_server_id: Some(target_server_id),
                        address: None,
                        routing_version,
                        database: "default".to_owned(),
                        retryable: true,
                    },
                ),
            ),
            ForwardPlan::Send { address } => match format_command_request_payload(&request) {
                Err(e) => Err(e),
                Ok(payload) => Ok(CommandPlan::Send { address, payload }),
            },
            ForwardPlan::Here => Ok(
                CommandPlan::Here(find_native_task(request, facts.capabilities)),
            ),
        },
    }
}

/// What is done for a request without a session: one that changes data waits for a restore.
pub open spec fn request_planned(
    request: BackendRequest,
    mutates: bool,
    maintenance: Result<bool, String>,
    capabilities: Seq<char>,
) -> Task {
    match drained(
        mutates,
        maintenance,
        "restore maintenance mode is draining mutating requests"@,
    ) {
        Some(e) => Task::Answer(Response::Failed(e)),
        None => backend_task(request, capabilities),
    }
}

/// Decides what is done for a request without a session.
pub fn execute_backend_request(
    request: BackendRequest,
    mutates: bool,
    maintenance: &Result<bool, String>,
    capabilities: String,
) -> (r: BackendTask)
    requires
        params_well_formed(request),
    ensures
        r@ == request_planned(request, mutates, *maintenance, capabilities@),
{
    if let Some(e) = check_drained(
        mutates,
        maintenance,
        "restore maintenance mode is draining mutating requests",
    ) {
        return BackendTask::Answer(BackendResponse::Failed(e));
    }
    find_backend_task(request, capabilities)
}

/// While a restore goes on, no request that changes data gets anything done.
pub proof fn restores_are_not_disturbed(
    request: BackendRequest,
    facts: RequestFacts,
    capabilities: Seq<char>,
)
    requires
        facts.mutates,
        facts.maintenance == Ok::<bool, String>(true),
    ensures
        command_planned(request, facts) is Err,
        request_planned(request, true, facts.maintenance, capabilities) == Task::Answer(
            Response::Failed("restore maintenance mode is draining mutating requests"@),
        ),
{
}

/// Whether a rebalance waits for entries that replication can send.
pub open spec fn wants_pump(action: Seq<char>) -> bool {
    begins(action, "snapshot_bootstrap_required"@) || begins(action, "waiting_for_catch_up"@)
}

/// What comes when a rebalance has been advanced.
#[derive(Clone, Copy, PartialEq, Eq, Structural, Debug)]
pub enum RebalanceNext {
    /// Replication sends what the rebalance waits for.
    Pump,
    /// The rebalance is advanced once more.
    AdvanceAgain,
    /// The answer is given.
    Answer,
}

/// Tells what comes when a rebalance has been advanced and told what it did: where it waits,
/// replication sends, and if it did send something the rebalance is advanced once more.
pub fn rebalance_next(action: &str, pumped: Option<usize>) -> (r: RebalanceNext)
    ensures
        r == (match pumped {
            None => if wants_pump(action@) {
                RebalanceNext::Pump
            } else {
                RebalanceNext::Answer
            },
            Some(sent) => if sent > 0 {
                RebalanceNext::AdvanceAgain
            } else {
                RebalanceNext::Answer
            },
        }),
{
    match pumped {
        None => if starts_with(action, "snapshot_bootstrap_required") || starts_with(
            action,
            "waiting_for_catch_up",
        ) {
            RebalanceNext::Pump
        } else {
            RebalanceNext::Answer
        },
        Some(sent) => if sent > 0 {
            RebalanceNext::AdvanceAgain
        } else {
            RebalanceNext::Answer
        },
    }
}

/// How a rebalance is told that was advanced, with what replication sent for it.
pub fn advanced_rebalance(action: &str, auto_pump_sent: usize, execution: &str) -> (r: String)
    ensures
        r@ == "action="@ + action@ + " auto_pump_sent="@ + dec(auto_pump_sent as nat) + " "@
            + execution@,
{
    let mut r = "action=".to_owned();
    r.append(action);
    r.append(" auto_pump_sent=");
    r.append(show(auto_pump_sent as u128).as_str());
    r.append(" ");
    r.append(execution);
    r
}

} // verus!
