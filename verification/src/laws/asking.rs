//! What requests ask of the storage and of the server, and what is told of the outcome.

use vstd::prelude::*;

use crate::model::{ReplicationChannelKind, ShardRoutingTable};
use crate::requests::{
    backend_task, dispatched, drained, forwarded_text, native_task, shard_written, storage_task,
    tells_error, told, BackendRequest, Dispatched, ReplyForm, Response, StorageCall, StorageOutcome,
    Task,
};
use crate::text::{dec, join, split, splitting_undoes_joining};
use crate::transactions::StagedWrite;
use crate::value::{val, QueryParams, Value};
use crate::wire::request_value;

verus! {

/// Whether a request asks one thing of the storage, and is answered in one form.
pub open spec fn asks(request: BackendRequest, call: StorageCall, form: ReplyForm) -> bool {
    forall|capabilities: Seq<char>| #[trigger]
        dispatched(request, capabilities) == (Dispatched::Storage { call, form })
}

/// A query reaches the storage as it was asked, on the shard that it names and with what is staged.
pub proof fn queries_reach_the_storage_as_they_are(
    query: String,
    params: QueryParams,
    shard_id: u64,
    staged_writes: Vec<StagedWrite>,
    writes: Vec<StagedWrite>,
)
    ensures
        asks(
            BackendRequest::QueryPlan { query, params },
            StorageCall::QueryPlan { query, params },
            ReplyForm::QueryPlan,
        ),
        asks(
            BackendRequest::Profile { query, params },
            StorageCall::ProfileQuery { query, params },
            ReplyForm::QueryProfile,
        ),
        asks(
            BackendRequest::QueryShard { shard_id, query, params },
            StorageCall::QueryShard { shard_id, query, params },
            ReplyForm::Rows,
        ),
        asks(
            BackendRequest::QueryStagedShard { shard_id, query, params, staged_writes },
            StorageCall::QueryShardWithStagedWrites { shard_id, query, params, staged_writes },
            ReplyForm::Rows,
        ),
        asks(
            BackendRequest::QueryWriteShard { shard_id, query, params },
            StorageCall::ExecuteCypherOnShard { shard_id, query, params },
            ReplyForm::Rows,
        ),
        asks(
            BackendRequest::QueryWriteBatchShard { shard_id, writes },
            StorageCall::ExecuteMutationBatchOnShard { shard_id, writes },
            ReplyForm::NoRows,
        ),
{
}

/// A change of the graph reaches the storage as it was asked: what is created, and what is set or
/// removed, of which node or relationship.
pub proof fn changes_of_the_graph_reach_the_storage_as_they_are(
    labels: Vec<String>,
    properties: Vec<(String, Value)>,
    shard_id: u64,
    from: u64,
    to: u64,
    rel_type: String,
    id: u64,
    key: String,
    value: Value,
    label: String,
    number: u64,
)
    ensures
        asks(
            BackendRequest::CreateNode { labels, properties },
            StorageCall::CreateNode { labels, properties },
            ReplyForm::Node,
        ),
        asks(
            BackendRequest::CreateNodeOnShard { shard_id, labels, properties },
            StorageCall::CreateNodeOnShard { shard_id, labels, properties },
            ReplyForm::Node,
        ),
        asks(
            BackendRequest::CreateRelationship { from, to, rel_type, properties },
            StorageCall::CreateRelationship { from, to, rel_type, properties },
            ReplyForm::Relationship,
        ),
        asks(
            BackendRequest::SetNodeProperty { id, key, value },
            StorageCall::SetNodeProperty { id, key, value },
            ReplyForm::Unit,
        ),
        asks(
            BackendRequest::RemoveNodeProperty { id, key },
            StorageCall::RemoveNodeProperty { id, key },
            ReplyForm::Unit,
        ),
        asks(
            BackendRequest::AddNodeLabel { id, label },
            StorageCall::AddNodeLabel { id, label },
            ReplyForm::Unit,
        ),
        asks(
            BackendRequest::RemoveNodeLabel { id, label },
            StorageCall::RemoveNodeLabel { id, label },
            ReplyForm::Unit,
        ),
        asks(
            BackendRequest::SetRelationshipProperty { id, key, value },
            StorageCall::SetRelationshipProperty { id, key, value },
            ReplyForm::Unit,
        ),
        asks(
            BackendRequest::RemoveRelationshipProperty { id, key },
            StorageCall::RemoveRelationshipProperty { id, key },
            ReplyForm::Unit,
        ),
        asks(
            BackendRequest::DeleteNode(number),
            StorageCall::DeleteNode(number),
            ReplyForm::Unit,
        ),
        asks(
            BackendRequest::DeleteRelationship(number),
            StorageCall::DeleteRelationship(number),
            ReplyForm::Unit,
        ),
{
}

/// What is asked of the indexes and of the routing reaches the storage as it was asked.
pub proof fn catalogs_reach_the_storage_as_they_are(
    name: String,
    text: String,
    table: ShardRoutingTable,
    shard_id: u64,
    transferee_id: u64,
)
    ensures
        asks(
            BackendRequest::RebuildVectorIndexes,
            StorageCall::RebuildVectorIndexes,
            ReplyForm::Unit,
        ),
        asks(
            BackendRequest::RebuildVectorIndex { name },
            StorageCall::RebuildVectorIndex { name },
            ReplyForm::Unit,
        ),
        asks(
            BackendRequest::ListIndexes,
            StorageCall::ListIndexes,
            ReplyForm::Rows,
        ),
        asks(
            BackendRequest::DumpIndexCatalog,
            StorageCall::DumpIndexCatalog,
            ReplyForm::IndexCatalog,
        ),
        asks(
            BackendRequest::InstallIndexCatalog(text),
            StorageCall::InstallIndexCatalog(text),
            ReplyForm::Unit,
        ),
        asks(
            BackendRequest::InstallRoutingTable(table),
            StorageCall::InstallRoutingTable(table),
            ReplyForm::Unit,
        ),
        asks(
            BackendRequest::RoutingTable,
            StorageCall::RoutingTable,
            ReplyForm::RoutingTable,
        ),
        asks(
            BackendRequest::ClusterStatus,
            StorageCall::ClusterStatus,
            ReplyForm::ClusterStatus,
        ),
        asks(
            BackendRequest::RaftStatus,
            StorageCall::RaftStatus,
            ReplyForm::ClusterStatus,
        ),
        asks(
            BackendRequest::RaftLeaderTransfer { shard_id, transferee_id },
            StorageCall::RaftLeaderTransfer { shard_id, transferee_id },
            ReplyForm::LeaderTransfer { shard_id, transferee_id },
        ),
        asks(
            BackendRequest::MetadataLog,
            StorageCall::MetadataLog,
            ReplyForm::MetadataLog,
        ),
{
}

/// What keeps the storage up reaches it as it was asked; a backup takes a snapshot.
pub proof fn upkeep_reaches_the_storage_as_it_is(
    shard_id: u64,
)
    ensures
        asks(
            BackendRequest::StorageStatus,
            StorageCall::StorageStatus,
            ReplyForm::StorageStatus,
        ),
        asks(
            BackendRequest::Statistics,
            StorageCall::Statistics,
            ReplyForm::Statistics,
        ),
        asks(
            BackendRequest::CheckpointNow,
            StorageCall::CheckpointNow,
            ReplyForm::StorageMaintenance,
        ),
        asks(
            BackendRequest::CompactStorage,
            StorageCall::CompactStorage,
            ReplyForm::StorageMaintenance,
        ),
        asks(
            BackendRequest::SnapshotNow,
            StorageCall::SnapshotNow,
            ReplyForm::StorageMaintenance,
        ),
        asks(
            BackendRequest::RestoreSnapshot { shard_id },
            StorageCall::RestoreSnapshot { shard_id },
            ReplyForm::StorageMaintenance,
        ),
        asks(
            BackendRequest::VerifyInvariants,
            StorageCall::VerifyInvariants,
            ReplyForm::StorageMaintenance,
        ),
        asks(
            BackendRequest::RepairInvariants,
            StorageCall::RepairInvariants,
            ReplyForm::StorageMaintenance,
        ),
        asks(
            BackendRequest::BackupNow,
            StorageCall::SnapshotNow,
            ReplyForm::StorageMaintenance,
        ),
{
}

/// What is asked of the members of the cluster and of its balance reaches the storage as it was asked.
pub proof fn members_reach_the_storage_as_they_are(
    server_id: u64,
    address: String,
    protocol_version: u64,
    storage_version: u64,
    shard_count: u64,
    number: u64,
    reason: String,
    replication_factor: usize,
    max_steps_per_plan: usize,
    text: String,
    shard_id: u64,
    match_index: u64,
)
    ensures
        asks(
            BackendRequest::RegisterNode { server_id, address },
            StorageCall::RegisterNode { server_id, address },
            ReplyForm::ClusterNodes,
        ),
        asks(
            BackendRequest::JoinRequest { server_id, address, protocol_version, storage_version, shard_count },
            StorageCall::JoinRequest { server_id, address, protocol_version, storage_version, shard_count },
            ReplyForm::ClusterNodes,
        ),
        asks(
            BackendRequest::JoinAccept(number),
            StorageCall::JoinAccept(number),
            ReplyForm::ClusterNodes,
        ),
        asks(
            BackendRequest::JoinReject { server_id, reason },
            StorageCall::JoinReject { server_id, reason },
            ReplyForm::ClusterNodes,
        ),
        asks(
            BackendRequest::DecommissionNode(number),
            StorageCall::DecommissionNode(number),
            ReplyForm::ClusterNodes,
        ),
        asks(
            BackendRequest::ListNodes,
            StorageCall::ListNodes,
            ReplyForm::ClusterNodes,
        ),
        asks(
            BackendRequest::MetadataAuthority,
            StorageCall::MetadataAuthority,
            ReplyForm::ClusterManagementStatus,
        ),
        asks(
            BackendRequest::SetMetadataAuthority(number),
            StorageCall::SetMetadataAuthority(number),
            ReplyForm::ClusterManagementStatus,
        ),
        asks(
            BackendRequest::SetRebalancePolicy { replication_factor, max_steps_per_plan },
            StorageCall::SetRebalancePolicy { replication_factor, max_steps_per_plan },
            ReplyForm::ClusterManagementStatus,
        ),
        asks(
            BackendRequest::PlanRebalance,
            StorageCall::PlanRebalance,
            ReplyForm::RebalancePlan,
        ),
        asks(
            BackendRequest::StartRebalance,
            StorageCall::StartRebalance,
            ReplyForm::RebalanceExecution,
        ),
        asks(
            BackendRequest::CancelRebalance,
            StorageCall::CancelRebalance,
            ReplyForm::RebalanceExecution,
        ),
        asks(
            BackendRequest::RebalanceStatus,
            StorageCall::RebalanceStatus,
            ReplyForm::RebalanceStatus,
        ),
        asks(
            BackendRequest::AdvanceRebalance,
            StorageCall::AdvanceRebalance,
            ReplyForm::RebalanceAdvance,
        ),
        asks(
            BackendRequest::ClusterManagementStatus,
            StorageCall::ClusterManagementStatus,
            ReplyForm::ClusterManagementStatus,
        ),
        asks(
            BackendRequest::PrepareRebalanceStep(text),
            StorageCall::PrepareRebalanceStep(text),
            ReplyForm::ClusterNodes,
        ),
        asks(
            BackendRequest::MarkShardCaughtUp { shard_id, server_id, match_index },
            StorageCall::MarkShardCaughtUp { shard_id, server_id, match_index },
            ReplyForm::ClusterNodes,
        ),
        asks(
            BackendRequest::ApplyRebalanceStep(text),
            StorageCall::ApplyRebalanceStep(text),
            ReplyForm::RoutingVersion,
        ),
{
}

/// What a client asks of the server itself, the server carries out as it was asked.
pub proof fn servers_carry_out_what_clients_ask_of_them(
    query: String,
    params: QueryParams,
    shard_id: u64,
    staged_writes: Vec<StagedWrite>,
    writes: Vec<StagedWrite>,
    server_id: u64,
    address: String,
    number: u64,
    node_id: Option<u64>,
    transport: Option<ReplicationChannelKind>,
    server_id_of_replication_peer_status: Option<u64>,
    max_entries_per_request: Option<usize>,
    server_id_of_catch_up_plan: Option<u64>,
    query_address: String,
    replication_address: String,
    incarnation: u64,
    ttl_ms: u64,
    token: Option<String>,
)
    ensures
        forall|c: Seq<char>| #[trigger]
            native_task(BackendRequest::QueryDistributed { query, params }, c) == (Task::QueryDistributed { query, params }),
        forall|c: Seq<char>| #[trigger]
            native_task(BackendRequest::QueryShard { shard_id, query, params }, c) == (Task::QueryShard { shard_id, query, params }),
        forall|c: Seq<char>| #[trigger]
            native_task(BackendRequest::QueryStagedShard { shard_id, query, params, staged_writes }, c) == (Task::QueryStagedShard { shard_id, query, params, staged_writes }),
        forall|c: Seq<char>| #[trigger]
            native_task(BackendRequest::QueryWriteShard { shard_id, query, params }, c) == (Task::QueryWriteShard { shard_id, query, params }),
        forall|c: Seq<char>| #[trigger]
            native_task(BackendRequest::QueryWriteBatchShard { shard_id, writes }, c) == (Task::QueryWriteBatchShard { shard_id, writes }),
        forall|c: Seq<char>| #[trigger]
            native_task(BackendRequest::RegisterQueryPeer { server_id, address }, c) == (Task::RegisterQueryPeer { server_id, address }),
        forall|c: Seq<char>| #[trigger]
            native_task(BackendRequest::UnregisterQueryPeer(number), c) == (Task::UnregisterQueryPeer(number)),
        forall|c: Seq<char>| #[trigger]
            native_task(BackendRequest::ListQueryPeers, c) == (Task::ListQueryPeers),
        forall|c: Seq<char>| #[trigger]
            native_task(BackendRequest::RegisterReplicationPeer { server_id, address, node_id, transport }, c) == (Task::RegisterReplicationPeer { server_id, address, node_id, transport }),
        forall|c: Seq<char>| #[trigger]
            native_task(BackendRequest::NegotiateReplicationPeer { server_id, address, node_id }, c) == (Task::NegotiateReplicationPeer { server_id, address, node_id }),
        forall|c: Seq<char>| #[trigger]
            native_task(BackendRequest::UnregisterReplicationPeer(number), c) == (Task::UnregisterReplicationPeer(number)),
        forall|c: Seq<char>| #[trigger]
            native_task(BackendRequest::ListReplicationPeers, c) == (Task::ListReplicationPeers),
        forall|c: Seq<char>| #[trigger]
            native_task(BackendRequest::ReplicationPeerStatus { server_id: server_id_of_replication_peer_status }, c) == (Task::ReplicationPeerStatus { server_id: server_id_of_replication_peer_status }),
        forall|c: Seq<char>| #[trigger]
            native_task(BackendRequest::ReplicationStatus, c) == (Task::ReplicationStatus),
        forall|c: Seq<char>| #[trigger]
            native_task(BackendRequest::ClusterRegistry, c) == (Task::ClusterRegistry),
        forall|c: Seq<char>| #[trigger]
            native_task(BackendRequest::SyncIndexCatalogFromPeer(number), c) == (Task::SyncIndexCatalogFromPeer(number)),
        forall|c: Seq<char>| #[trigger]
            native_task(BackendRequest::CatchUpFromPrimaries { max_entries_per_request }, c) == (Task::CatchUpFromPrimaries { max_entries_per_request }),
        forall|c: Seq<char>| #[trigger]
            native_task(BackendRequest::CatchUpFromPrimary { server_id, max_entries_per_request }, c) == (Task::CatchUpFromPrimary { server_id, max_entries_per_request }),
        forall|c: Seq<char>| #[trigger]
            native_task(BackendRequest::CatchUpPlan { server_id: server_id_of_catch_up_plan }, c) == (Task::CatchUpPlan { server_id: server_id_of_catch_up_plan }),
        forall|c: Seq<char>| #[trigger]
            native_task(BackendRequest::TopologyReconcile { max_entries_per_request }, c) == (Task::TopologyReconcile { max_entries_per_request }),
        forall|c: Seq<char>| #[trigger]
            native_task(BackendRequest::RecoverTransactionDecisions, c) == (Task::RecoverTransactionDecisions),
        forall|c: Seq<char>| #[trigger]
            native_task(BackendRequest::ListTransactionDecisions, c) == (Task::ListTransactionDecisions),
        forall|c: Seq<char>| #[trigger]
            native_task(BackendRequest::GossipNode { server_id, query_address, replication_address, incarnation, ttl_ms, token }, c) == (Task::GossipNode { server_id, query_address, replication_address, incarnation, ttl_ms, token }),
        forall|c: Seq<char>| #[trigger]
            native_task(BackendRequest::ListGossipNodes, c) == (Task::ListGossipNodes),
        forall|c: Seq<char>| #[trigger]
            native_task(BackendRequest::GossipRefreshFromMembership, c) == (Task::GossipRefreshFromMembership),
{
}

/// What a request asks of the server itself, the server carries out as it was asked.
pub proof fn servers_carry_out_what_requests_ask_of_them(
    query: String,
    params: QueryParams,
    server_id: u64,
    address: String,
    number: u64,
    node_id: Option<u64>,
    transport: Option<ReplicationChannelKind>,
    server_id_of_replication_peer_status: Option<u64>,
    max_entries_per_request: Option<usize>,
    server_id_of_catch_up_plan: Option<u64>,
)
    ensures
        forall|c: Seq<char>| #[trigger]
            backend_task(BackendRequest::QueryDistributed { query, params }, c) == (Task::QueryDistributed { query, params }),
        forall|c: Seq<char>| #[trigger]
            backend_task(BackendRequest::RegisterQueryPeer { server_id, address }, c) == (Task::RegisterQueryPeer { server_id, address }),
        forall|c: Seq<char>| #[trigger]
            backend_task(BackendRequest::UnregisterQueryPeer(number), c) == (Task::UnregisterQueryPeer(number)),
        forall|c: Seq<char>| #[trigger]
            backend_task(BackendRequest::ListQueryPeers, c) == (Task::ListQueryPeers),
        forall|c: Seq<char>| #[trigger]
            backend_task(BackendRequest::RegisterReplicationPeer { server_id, address, node_id, transport }, c) == (Task::RegisterReplicationPeer { server_id, address, node_id, transport }),
        forall|c: Seq<char>| #[trigger]
            backend_task(BackendRequest::NegotiateReplicationPeer { server_id, address, node_id }, c) == (Task::NegotiateReplicationPeer { server_id, address, node_id }),
        forall|c: Seq<char>| #[trigger]
            backend_task(BackendRequest::UnregisterReplicationPeer(number), c) == (Task::UnregisterReplicationPeer(number)),
        forall|c: Seq<char>| #[trigger]
            backend_task(BackendRequest::ListReplicationPeers, c) == (Task::ListReplicationPeers),
        forall|c: Seq<char>| #[trigger]
            backend_task(BackendRequest::ReplicationPeerStatus { server_id: server_id_of_replication_peer_status }, c) == (Task::ReplicationPeerStatus { server_id: server_id_of_replication_peer_status }),
        forall|c: Seq<char>| #[trigger]
            backend_task(BackendRequest::ReplicationStatus, c) == (Task::ReplicationStatus),
        forall|c: Seq<char>| #[trigger]
            backend_task(BackendRequest::ClusterRegistry, c) == (Task::ClusterRegistry),
        forall|c: Seq<char>| #[trigger]
            backend_task(BackendRequest::SyncIndexCatalogFromPeer(number), c) == (Task::SyncIndexCatalogFromPeer(number)),
        forall|c: Seq<char>| #[trigger]
            backend_task(BackendRequest::CatchUpFromPrimaries { max_entries_per_request }, c) == (Task::CatchUpFromPrimaries { max_entries_per_request }),
        forall|c: Seq<char>| #[trigger]
            backend_task(BackendRequest::CatchUpFromPrimary { server_id, max_entries_per_request }, c) == (Task::CatchUpFromPrimary { server_id, max_entries_per_request }),
        forall|c: Seq<char>| #[trigger]
            backend_task(BackendRequest::CatchUpPlan { server_id: server_id_of_catch_up_plan }, c) == (Task::CatchUpPlan { server_id: server_id_of_catch_up_plan }),
        forall|c: Seq<char>| #[trigger]
            backend_task(BackendRequest::RecoverTransactionDecisions, c) == (Task::RecoverTransactionDecisions),
        forall|c: Seq<char>| #[trigger]
            backend_task(BackendRequest::ListTransactionDecisions, c) == (Task::ListTransactionDecisions),
        forall|c: Seq<char>| #[trigger]
            backend_task(BackendRequest::AdvanceRebalance, c) == (Task::AdvanceRebalance),
{
}

/// All else is left to the storage.
pub proof fn storage_carries_out_the_rest(request: BackendRequest, capabilities: Seq<char>)
    ensures
        !(request is QueryDistributed || request is QueryShard || request is QueryStagedShard || request is QueryWriteShard || request is QueryWriteBatchShard || request is RegisterQueryPeer || request is UnregisterQueryPeer || request is ListQueryPeers || request is RegisterReplicationPeer || request is NegotiateReplicationPeer || request is UnregisterReplicationPeer || request is ListReplicationPeers || request is ReplicationPeerStatus || request is ReplicationStatus || request is ClusterRegistry || request is SyncIndexCatalogFromPeer || request is CatchUpFromPrimaries || request is CatchUpFromPrimary || request is CatchUpPlan || request is TopologyReconcile || request is RecoverTransactionDecisions || request is ListTransactionDecisions || request is GossipNode || request is ListGossipNodes || request is GossipRefreshFromMembership) ==> native_task(request, capabilities) == storage_task(
            request,
            capabilities,
        ),
        !(request is QueryDistributed || request is RegisterQueryPeer || request is UnregisterQueryPeer || request is ListQueryPeers || request is RegisterReplicationPeer || request is NegotiateReplicationPeer || request is UnregisterReplicationPeer || request is ListReplicationPeers || request is ReplicationPeerStatus || request is ReplicationStatus || request is ClusterRegistry || request is SyncIndexCatalogFromPeer || request is CatchUpFromPrimaries || request is CatchUpFromPrimary || request is CatchUpPlan || request is RecoverTransactionDecisions || request is ListTransactionDecisions || request is AdvanceRebalance) ==> backend_task(request, capabilities) == storage_task(
            request,
            capabilities,
        ),
        storage_task(request, capabilities) == (match dispatched(request, capabilities) {
            Dispatched::Answer(r) => Task::Answer(r),
            Dispatched::Storage { call, form } => Task::Storage { call, form },
        }),
{
}

/// The storage refuses what only a server can do, and nothing else.
pub proof fn storage_refuses_what_only_a_server_can_do(
    request: BackendRequest,
    capabilities: Seq<char>,
)
    ensures
        (dispatched(request, capabilities) matches Dispatched::Answer(r) && r is Failed) <==> (
        request is QueryDistributed || request is RegisterQueryPeer || request is UnregisterQueryPeer || request is ListQueryPeers || request is RegisterReplicationPeer || request is NegotiateReplicationPeer || request is UnregisterReplicationPeer || request is ListReplicationPeers || request is ReplicationPeerStatus || request is ReplicationStatus || request is ClusterRegistry || request is CatchUpFromPrimaries || request is CatchUpFromPrimary || request is CatchUpPlan || request is SyncIndexCatalogFromPeer || request is ListTransactionDecisions || request is RecoverTransactionDecisions || request is TopologyReconcile || request is GossipNode || request is ListGossipNodes || request is GossipRefreshFromMembership),
        dispatched(BackendRequest::Ping, capabilities) == Dispatched::Answer(Response::OkPong),
        dispatched(BackendRequest::Quit, capabilities) == Dispatched::Answer(Response::OkBye),
        dispatched(BackendRequest::Capabilities, capabilities) == Dispatched::Answer(
            Response::OkCapabilities(capabilities),
        ),
{
}

/// A query without parameters is asked as it is, and one with parameters is asked with them.
pub proof fn queries_are_asked_with_their_parameters(query: String, params: QueryParams)
    ensures
        (forall|name: Seq<char>| !#[trigger] params@.dom().contains(name)) ==> asks(
            BackendRequest::Query { query, params },
            StorageCall::ExecuteCypher { query },
            ReplyForm::Rows,
        ),
        (exists|name: Seq<char>| #[trigger] params@.dom().contains(name)) ==> asks(
            BackendRequest::Query { query, params },
            StorageCall::ExecuteCypherWithParams { query, params },
            ReplyForm::Rows,
        ),
{
    if forall|name: Seq<char>| !#[trigger] params@.dom().contains(name) {
        assert(params@.dom() =~= Set::<Seq<char>>::empty());
    } else {
        let name = choose|name: Seq<char>| #[trigger] params@.dom().contains(name);
        assert(!(params@.dom() =~= Set::<Seq<char>>::empty()));
    }
}

/// An index, or a constraint, is made and dropped by its name; whether it may be there already, or
/// may be missing, is asked for, too.
pub proof fn indexes_are_made_and_dropped_by_their_name(
    name: String,
    label: String,
    property: String,
    dimensions: usize,
    metric: String,
)
    ensures
        asks(
            BackendRequest::CreateIndex { name, label, property, if_not_exists: false },
            StorageCall::CreateIndex { name, label, property },
            ReplyForm::Unit,
        ),
        asks(
            BackendRequest::CreateIndex { name, label, property, if_not_exists: true },
            StorageCall::CreateIndexIfNotExists { name, label, property },
            ReplyForm::Unit,
        ),
        asks(
            BackendRequest::CreateUniqueConstraint { name, label, property, if_not_exists: false },
            StorageCall::CreateUniqueConstraint { name, label, property },
            ReplyForm::Unit,
        ),
        asks(
            BackendRequest::CreateUniqueConstraint { name, label, property, if_not_exists: true },
            StorageCall::CreateUniqueConstraintIfNotExists { name, label, property },
            ReplyForm::Unit,
        ),
        asks(
            BackendRequest::CreateVectorIndex {
                name,
                label,
                property,
                dimensions,
                metric,
                if_not_exists: false,
            },
            StorageCall::CreateVectorIndex { name, label, property, dimensions, metric },
            ReplyForm::Unit,
        ),
        asks(
            BackendRequest::CreateVectorIndex {
                name,
                label,
                property,
                dimensions,
                metric,
                if_not_exists: true,
            },
            StorageCall::CreateVectorIndexIfNotExists { name, label, property, dimensions, metric },
            ReplyForm::Unit,
        ),
        asks(
            BackendRequest::DropIndex { name, if_exists: false },
            StorageCall::DropIndex { name },
            ReplyForm::Unit,
        ),
        asks(
            BackendRequest::DropIndex { name, if_exists: true },
            StorageCall::DropIndexIfExists { name },
            ReplyForm::Unit,
        ),
        asks(
            BackendRequest::DropConstraint { name, if_exists: false },
            StorageCall::DropConstraint { name },
            ReplyForm::Unit,
        ),
        asks(
            BackendRequest::DropConstraint { name, if_exists: true },
            StorageCall::DropConstraintIfExists { name },
            ReplyForm::Unit,
        ),
        asks(
            BackendRequest::VectorIndexStatus { name: Some(name) },
            StorageCall::VectorIndexStatusByName { name },
            ReplyForm::VectorIndexStatus,
        ),
        asks(
            BackendRequest::VectorIndexStatus { name: None },
            StorageCall::VectorIndexStatus,
            ReplyForm::VectorIndexStatus,
        ),
{
}

/// Whether a number falls on a shard: the shard is the remainder of the number by their count.
pub open spec fn falls_on(id: u64, shard_count: u64, shard_id: u64, turns: int) -> bool {
    0 <= shard_id < shard_count && id == turns * shard_count + shard_id
}

proof fn lemma_falls(id: u64, shard_count: u64)
    requires
        shard_count > 0,
    ensures
        falls_on(id, shard_count, id % shard_count, (id / shard_count) as int),
{
    let n = shard_count as int;
    let i = id as int;
    assert(i == (i / n) * n + i % n && 0 <= i % n < n) by (nonlinear_arith)
        requires
            n > 0,
    ;
}

/// Whether a number belongs to a shard.
pub open spec fn belongs_to(id: u64, shard_count: u64, shard_id: u64) -> bool {
    exists|turns: int| #[trigger] falls_on(id, shard_count, shard_id, turns)
}

/// Whether a change goes to the shard of a number.
pub open spec fn goes_by(request: BackendRequest, shard_count: u64, id: u64) -> bool {
    forall|owner: Result<u64, String>|
        (#[trigger] shard_written(request, shard_count, owner)) matches Ok(Some(shard_id))
            && belongs_to(id, shard_count, shard_id)
}

proof fn lemma_goes(request: BackendRequest, shard_count: u64, id: u64)
    requires
        shard_count > 0,
        forall|owner: Result<u64, String>| #[trigger]
            shard_written(request, shard_count, owner) == Ok::<_, Seq<char>>(
                Some((id % shard_count) as u64),
            ),
    ensures
        goes_by(request, shard_count, id),
{
    lemma_falls(id, shard_count);
    let shard_id = (id % shard_count) as u64;
    assert(falls_on(id, shard_count, shard_id, (id / shard_count) as int));
    assert(belongs_to(id, shard_count, shard_id));
}

/// A change of a node goes to the shard of the node, and a relationship to that of the node that it
/// comes from.
pub proof fn changes_go_to_the_shard_of_their_node(
    id: u64,
    to: u64,
    key: String,
    value: Value,
    rel_type: String,
    properties: Vec<(String, Value)>,
    shard_count: u64,
)
    requires
        shard_count > 0,
    ensures
        goes_by(
            BackendRequest::CreateRelationship { from: id, to, rel_type, properties },
            shard_count,
            id,
        ),
        goes_by(BackendRequest::SetNodeProperty { id, key, value }, shard_count, id),
        goes_by(BackendRequest::RemoveNodeProperty { id, key }, shard_count, id),
        goes_by(BackendRequest::AddNodeLabel { id, label: key }, shard_count, id),
        goes_by(BackendRequest::RemoveNodeLabel { id, label: key }, shard_count, id),
        goes_by(BackendRequest::DeleteNode(id), shard_count, id),
{
    lemma_goes(
        BackendRequest::CreateRelationship { from: id, to, rel_type, properties },
        shard_count,
        id,
    );
    lemma_goes(BackendRequest::SetNodeProperty { id, key, value }, shard_count, id);
    lemma_goes(BackendRequest::RemoveNodeProperty { id, key }, shard_count, id);
    lemma_goes(BackendRequest::AddNodeLabel { id, label: key }, shard_count, id);
    lemma_goes(BackendRequest::RemoveNodeLabel { id, label: key }, shard_count, id);
    lemma_goes(BackendRequest::DeleteNode(id), shard_count, id);
}

/// A change of a relationship goes to the shard that holds it, a node with a shard to that shard,
/// and a change of the schema to the first; without shards, and for all else, nothing is said.
pub proof fn other_changes_go_where_they_belong(
    request: BackendRequest,
    shard_count: u64,
    owner: Result<u64, String>,
)
    ensures
        shard_count == 0 ==> shard_written(request, shard_count, owner) == Ok::<
            Option<u64>,
            Seq<char>,
        >(None),
        shard_count > 0 && (request is SetRelationshipProperty
            || request is RemoveRelationshipProperty || request is DeleteRelationship) ==> (
        owner matches Ok(shard_id) ==> shard_written(request, shard_count, owner) == Ok::<
            _,
            Seq<char>,
        >(Some(shard_id))),
        shard_count > 0 && (request is SetRelationshipProperty
            || request is RemoveRelationshipProperty || request is DeleteRelationship) ==> (
        owner matches Err(e) ==> shard_written(request, shard_count, owner) == Err::<
            Option<u64>,
            _,
        >(e@)),
        shard_count > 0 ==> (request matches BackendRequest::CreateNodeOnShard { shard_id, .. }
            ==> shard_written(request, shard_count, owner) == Ok::<_, Seq<char>>(Some(shard_id))),
        shard_count > 0 && (request is CreateIndex || request is CreateUniqueConstraint
            || request is CreateVectorIndex || request is RebuildVectorIndex
            || request is RebuildVectorIndexes || request is DropIndex || request is DropConstraint)
            ==> shard_written(request, shard_count, owner) == Ok::<_, Seq<char>>(Some(0u64)),
        (shard_written(request, shard_count, owner) matches Ok(Some(_))) ==> (
        request is CreateNodeOnShard || request is CreateRelationship || request is SetNodeProperty
            || request is RemoveNodeProperty || request is AddNodeLabel || request is RemoveNodeLabel
            || request is DeleteNode || request is SetRelationshipProperty
            || request is RemoveRelationshipProperty || request is DeleteRelationship
            || request is CreateIndex || request is CreateUniqueConstraint
            || request is CreateVectorIndex || request is RebuildVectorIndex
            || request is RebuildVectorIndexes || request is DropIndex
            || request is DropConstraint),
{
}

/// A failure of the storage is told as such, and what it found is told in the form that was asked
/// for.
pub proof fn outcomes_are_told_in_their_form(
    form: ReplyForm,
    outcome: Result<StorageOutcome, String>,
)
    ensures
        outcome matches Err(e) ==> told(form, outcome) == Response::Failed(e@),
        outcome matches Ok(StorageOutcome::Id(n)) ==> form is Node ==> told(form, outcome)
            == Response::OkNode(n),
        outcome matches Ok(StorageOutcome::Id(n)) ==> form is Relationship ==> told(form, outcome)
            == Response::OkRelationship(n),
        outcome matches Ok(StorageOutcome::Rows { count, encoded }) ==> form is Rows ==> told(
            form,
            outcome,
        ) == (Response::OkRows { count, debug_rows: encoded@ }),
        outcome is Ok && form is NoRows ==> told(form, outcome) == (Response::OkRows {
            count: 0,
            debug_rows: Seq::empty(),
        }),
        outcome is Ok && form is Unit ==> told(form, outcome) is OkUnit,
        outcome matches Ok(StorageOutcome::Text(t)) ==> {
            &&& form is QueryPlan ==> told(form, outcome) == Response::OkQueryPlan(t@)
            &&& form is QueryProfile ==> told(form, outcome) == Response::OkQueryProfile(t@)
            &&& form is IndexCatalog ==> told(form, outcome) == Response::OkIndexCatalog(t@)
            &&& form is ClusterStatus ==> told(form, outcome) == Response::OkClusterStatus(t@)
            &&& form is RoutingTable ==> told(form, outcome) == Response::OkRoutingTable(t@)
            &&& form is StorageStatus ==> told(form, outcome) == Response::OkStorageStatus(t@)
            &&& form is Statistics ==> told(form, outcome) == Response::OkStatistics(t@)
            &&& form is StorageMaintenance ==> told(form, outcome)
                == Response::OkStorageMaintenance(t@)
            &&& form is MetadataLog ==> told(form, outcome) == Response::OkMetadataLog(t@)
            &&& form is ClusterNodes ==> told(form, outcome) == Response::OkClusterNodes(t@)
            &&& form is RebalancePlan ==> told(form, outcome) == Response::OkRebalancePlan(t@)
            &&& form is RebalanceExecution ==> told(form, outcome)
                == Response::OkRebalanceExecution(t@)
            &&& form is VectorIndexStatus ==> told(form, outcome)
                == Response::OkVectorIndexStatus(t@)
            &&& form is ClusterManagementStatus ==> told(form, outcome)
                == Response::OkClusterManagementStatus(t@)
        },
{
}

/// What failed, and what lies elsewhere, is told as an error; all else is told as an answer.
pub proof fn failures_are_told_as_errors(r: Response)
    ensures
        tells_error(r) is Error <==> r is Failed || r is Redirect,
{
}

/// A request that changes something waits for a restore; others do not.
pub proof fn changes_wait_for_restores(
    mutates: bool,
    maintenance: Result<bool, String>,
    refusal: Seq<char>,
)
    ensures
        !mutates ==> drained(mutates, maintenance, refusal) is None,
        mutates && maintenance == Ok::<bool, String>(false) ==> drained(
            mutates,
            maintenance,
            refusal,
        ) is None,
        mutates && maintenance == Ok::<bool, String>(true) ==> drained(
            mutates,
            maintenance,
            refusal,
        ) == Some(refusal),
        mutates ==> (maintenance matches Err(e) ==> drained(mutates, maintenance, refusal) == Some(
            e@,
        )),
{
}

proof fn lemma_number_without_tab(n: nat)
    ensures
        !dec(n).contains('\t'),
{
    crate::text::dec_is_digits(n);
    if dec(n).contains('\t') {
        let k = choose|k: int| 0 <= k < dec(n).len() && dec(n)[k] == '\t';
        assert(crate::text::is_digit(dec(n)[k]));
    }
}

/// What is sent on reads back, part by part.
pub proof fn sent_set_node_property_reads_back(id: u64, key: String, value: Value)
    requires
        !(key@).contains('\t'),
        !(request_value(val(value))).contains('\t'),
    ensures
        forwarded_text(BackendRequest::SetNodeProperty { id, key, value }) matches Some(text) && split(text, '\t') == seq![
            "SET_NODE_PROPERTY"@,
            dec(id as nat),
            key@,
            request_value(val(value)),
        ],
{
    reveal_strlit("SET_NODE_PROPERTY");
    reveal_strlit("SET_NODE_PROPERTY\t");
    reveal_strlit("\t");
    let sep = seq!['\t'];
    assert("\t"@ =~= sep);
    assert("SET_NODE_PROPERTY\t"@ =~= "SET_NODE_PROPERTY"@ + sep);
    lemma_number_without_tab((id) as nat);
    let parts = seq!["SET_NODE_PROPERTY"@, dec(id as nat), key@, request_value(val(value))];
    reveal_with_fuel(join, 5);
    assert(seq!["SET_NODE_PROPERTY"@, dec(id as nat), key@, request_value(val(value))].drop_last() =~= seq!["SET_NODE_PROPERTY"@, dec(id as nat), key@]);
    assert(seq!["SET_NODE_PROPERTY"@, dec(id as nat), key@].drop_last() =~= seq!["SET_NODE_PROPERTY"@, dec(id as nat)]);
    assert(seq!["SET_NODE_PROPERTY"@, dec(id as nat)].drop_last() =~= seq!["SET_NODE_PROPERTY"@]);
    assert(join(parts, sep) =~= forwarded_text(BackendRequest::SetNodeProperty { id, key, value }).unwrap());
    splitting_undoes_joining(parts, '\t');
}

/// What is sent on reads back, part by part.
pub proof fn sent_remove_node_property_reads_back(id: u64, key: String)
    requires
        !(key@).contains('\t'),
    ensures
        forwarded_text(BackendRequest::RemoveNodeProperty { id, key }) matches Some(text) && split(text, '\t') == seq![
            "REMOVE_NODE_PROPERTY"@,
            dec(id as nat),
            key@,
        ],
{
    reveal_strlit("REMOVE_NODE_PROPERTY");
    reveal_strlit("REMOVE_NODE_PROPERTY\t");
    reveal_strlit("\t");
    let sep = seq!['\t'];
    assert("\t"@ =~= sep);
    assert("REMOVE_NODE_PROPERTY\t"@ =~= "REMOVE_NODE_PROPERTY"@ + sep);
    lemma_number_without_tab((id) as nat);
    let parts = seq!["REMOVE_NODE_PROPERTY"@, dec(id as nat), key@];
    reveal_with_fuel(join, 4);
    assert(seq!["REMOVE_NODE_PROPERTY"@, dec(id as nat), key@].drop_last() =~= seq!["REMOVE_NODE_PROPERTY"@, dec(id as nat)]);
    assert(seq!["REMOVE_NODE_PROPERTY"@, dec(id as nat)].drop_last() =~= seq!["REMOVE_NODE_PROPERTY"@]);
    assert(join(parts, sep) =~= forwarded_text(BackendRequest::RemoveNodeProperty { id, key }).unwrap());
    splitting_undoes_joining(parts, '\t');
}

/// What is sent on reads back, part by part.
pub proof fn sent_add_node_label_reads_back(id: u64, label: String)
    requires
        !(label@).contains('\t'),
    ensures
        forwarded_text(BackendRequest::AddNodeLabel { id, label }) matches Some(text) && split(text, '\t') == seq![
            "ADD_NODE_LABEL"@,
            dec(id as nat),
            label@,
        ],
{
    reveal_strlit("ADD_NODE_LABEL");
    reveal_strlit("ADD_NODE_LABEL\t");
    reveal_strlit("\t");
    let sep = seq!['\t'];
    assert("\t"@ =~= sep);
    assert("ADD_NODE_LABEL\t"@ =~= "ADD_NODE_LABEL"@ + sep);
    lemma_number_without_tab((id) as nat);
    let parts = seq!["ADD_NODE_LABEL"@, dec(id as nat), label@];
    reveal_with_fuel(join, 4);
    assert(seq!["ADD_NODE_LABEL"@, dec(id as nat), label@].drop_last() =~= seq!["ADD_NODE_LABEL"@, dec(id as nat)]);
    assert(seq!["ADD_NODE_LABEL"@, dec(id as nat)].drop_last() =~= seq!["ADD_NODE_LABEL"@]);
    assert(join(parts, sep) =~= forwarded_text(BackendRequest::AddNodeLabel { id, label }).unwrap());
    splitting_undoes_joining(parts, '\t');
}

/// What is sent on reads back, part by part.
pub proof fn sent_remove_node_label_reads_back(id: u64, label: String)
    requires
        !(label@).contains('\t'),
    ensures
        forwarded_text(BackendRequest::RemoveNodeLabel { id, label }) matches Some(text) && split(text, '\t') == seq![
            "REMOVE_NODE_LABEL"@,
            dec(id as nat),
            label@,
        ],
{
    reveal_strlit("REMOVE_NODE_LABEL");
    reveal_strlit("REMOVE_NODE_LABEL\t");
    reveal_strlit("\t");
    let sep = seq!['\t'];
    assert("\t"@ =~= sep);
    assert("REMOVE_NODE_LABEL\t"@ =~= "REMOVE_NODE_LABEL"@ + sep);
    lemma_number_without_tab((id) as nat);
    let parts = seq!["REMOVE_NODE_LABEL"@, dec(id as nat), label@];
    reveal_with_fuel(join, 4);
    assert(seq!["REMOVE_NODE_LABEL"@, dec(id as nat), label@].drop_last() =~= seq!["REMOVE_NODE_LABEL"@, dec(id as nat)]);
    assert(seq!["REMOVE_NODE_LABEL"@, dec(id as nat)].drop_last() =~= seq!["REMOVE_NODE_LABEL"@]);
    assert(join(parts, sep) =~= forwarded_text(BackendRequest::RemoveNodeLabel { id, label }).unwrap());
    splitting_undoes_joining(parts, '\t');
}

/// What is sent on reads back, part by part.
pub proof fn sent_set_relationship_property_reads_back(id: u64, key: String, value: Value)
    requires
        !(key@).contains('\t'),
        !(request_value(val(value))).contains('\t'),
    ensures
        forwarded_text(BackendRequest::SetRelationshipProperty { id, key, value }) matches Some(text) && split(text, '\t') == seq![
            "SET_RELATIONSHIP_PROPERTY"@,
            dec(id as nat),
            key@,
            request_value(val(value)),
        ],
{
    reveal_strlit("SET_RELATIONSHIP_PROPERTY");
    reveal_strlit("SET_RELATIONSHIP_PROPERTY\t");
    reveal_strlit("\t");
    let sep = seq!['\t'];
    assert("\t"@ =~= sep);
    assert("SET_RELATIONSHIP_PROPERTY\t"@ =~= "SET_RELATIONSHIP_PROPERTY"@ + sep);
    lemma_number_without_tab((id) as nat);
    let parts = seq!["SET_RELATIONSHIP_PROPERTY"@, dec(id as nat), key@, request_value(val(value))];
    reveal_with_fuel(join, 5);
    assert(seq!["SET_RELATIONSHIP_PROPERTY"@, dec(id as nat), key@, request_value(val(value))].drop_last() =~= seq!["SET_RELATIONSHIP_PROPERTY"@, dec(id as nat), key@]);
    assert(seq!["SET_RELATIONSHIP_PROPERTY"@, dec(id as nat), key@].drop_last() =~= seq!["SET_RELATIONSHIP_PROPERTY"@, dec(id as nat)]);
    assert(seq!["SET_RELATIONSHIP_PROPERTY"@, dec(id as nat)].drop_last() =~= seq!["SET_RELATIONSHIP_PROPERTY"@]);
    assert(join(parts, sep) =~= forwarded_text(BackendRequest::SetRelationshipProperty { id, key, value }).unwrap());
    splitting_undoes_joining(parts, '\t');
}

/// What is sent on reads back, part by part.
pub proof fn sent_remove_relationship_property_reads_back(id: u64, key: String)
    requires
        !(key@).contains('\t'),
    ensures
        forwarded_text(BackendRequest::RemoveRelationshipProperty { id, key }) matches Some(text) && split(text, '\t') == seq![
            "REMOVE_RELATIONSHIP_PROPERTY"@,
            dec(id as nat),
            key@,
        ],
{
    reveal_strlit("REMOVE_RELATIONSHIP_PROPERTY");
    reveal_strlit("REMOVE_RELATIONSHIP_PROPERTY\t");
    reveal_strlit("\t");
    let sep = seq!['\t'];
    assert("\t"@ =~= sep);
    assert("REMOVE_RELATIONSHIP_PROPERTY\t"@ =~= "REMOVE_RELATIONSHIP_PROPERTY"@ + sep);
    lemma_number_without_tab((id) as nat);
    let parts = seq!["REMOVE_RELATIONSHIP_PROPERTY"@, dec(id as nat), key@];
    reveal_with_fuel(join, 4);
    assert(seq!["REMOVE_RELATIONSHIP_PROPERTY"@, dec(id as nat), key@].drop_last() =~= seq!["REMOVE_RELATIONSHIP_PROPERTY"@, dec(id as nat)]);
    assert(seq!["REMOVE_RELATIONSHIP_PROPERTY"@, dec(id as nat)].drop_last() =~= seq!["REMOVE_RELATIONSHIP_PROPERTY"@]);
    assert(join(parts, sep) =~= forwarded_text(BackendRequest::RemoveRelationshipProperty { id, key }).unwrap());
    splitting_undoes_joining(parts, '\t');
}

/// What is sent on reads back, part by part.
pub proof fn sent_delete_node_reads_back(value: u64)
    ensures
        forwarded_text(BackendRequest::DeleteNode(value)) matches Some(text) && split(text, '\t') == seq![
            "DELETE_NODE"@,
            dec(value as nat),
        ],
{
    reveal_strlit("DELETE_NODE");
    reveal_strlit("DELETE_NODE\t");
    reveal_strlit("\t");
    let sep = seq!['\t'];
    assert("\t"@ =~= sep);
    assert("DELETE_NODE\t"@ =~= "DELETE_NODE"@ + sep);
    lemma_number_without_tab((value) as nat);
    let parts = seq!["DELETE_NODE"@, dec(value as nat)];
    reveal_with_fuel(join, 3);
    assert(seq!["DELETE_NODE"@, dec(value as nat)].drop_last() =~= seq!["DELETE_NODE"@]);
    assert(join(parts, sep) =~= forwarded_text(BackendRequest::DeleteNode(value)).unwrap());
    splitting_undoes_joining(parts, '\t');
}

/// What is sent on reads back, part by part.
pub proof fn sent_delete_relationship_reads_back(value: u64)
    ensures
        forwarded_text(BackendRequest::DeleteRelationship(value)) matches Some(text) && split(text, '\t') == seq![
            "DELETE_RELATIONSHIP"@,
            dec(value as nat),
        ],
{
    reveal_strlit("DELETE_RELATIONSHIP");
    reveal_strlit("DELETE_RELATIONSHIP\t");
    reveal_strlit("\t");
    let sep = seq!['\t'];
    assert("\t"@ =~= sep);
    assert("DELETE_RELATIONSHIP\t"@ =~= "DELETE_RELATIONSHIP"@ + sep);
    lemma_number_without_tab((value) as nat);
    let parts = seq!["DELETE_RELATIONSHIP"@, dec(value as nat)];
    reveal_with_fuel(join, 3);
    assert(seq!["DELETE_RELATIONSHIP"@, dec(value as nat)].drop_last() =~= seq!["DELETE_RELATIONSHIP"@]);
    assert(join(parts, sep) =~= forwarded_text(BackendRequest::DeleteRelationship(value)).unwrap());
    splitting_undoes_joining(parts, '\t');
}

/// What is sent on reads back, part by part.
pub proof fn sent_rebuild_vector_index_reads_back(name: String)
    requires
        !(name@).contains('\t'),
    ensures
        forwarded_text(BackendRequest::RebuildVectorIndex { name }) matches Some(text) && split(text, '\t') == seq![
            "REBUILD_VECTOR_INDEX"@,
            name@,
        ],
{
    reveal_strlit("REBUILD_VECTOR_INDEX");
    reveal_strlit("REBUILD_VECTOR_INDEX\t");
    reveal_strlit("\t");
    let sep = seq!['\t'];
    assert("\t"@ =~= sep);
    assert("REBUILD_VECTOR_INDEX\t"@ =~= "REBUILD_VECTOR_INDEX"@ + sep);
    let parts = seq!["REBUILD_VECTOR_INDEX"@, name@];
    reveal_with_fuel(join, 3);
    assert(seq!["REBUILD_VECTOR_INDEX"@, name@].drop_last() =~= seq!["REBUILD_VECTOR_INDEX"@]);
    assert(join(parts, sep) =~= forwarded_text(BackendRequest::RebuildVectorIndex { name }).unwrap());
    splitting_undoes_joining(parts, '\t');
}

} // verus!
