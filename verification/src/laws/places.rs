//! Which paths lead where, and what they take.

use vstd::prelude::*;

use crate::rbac::{action_of, get_action, post_action, WebAction};
use crate::web::{get_route, post_route, route_of, WebRoute};

verus! {

/// A request that reads is led to a place by its path, and only the paths of a place lead there;
/// all other paths lead nowhere.
pub proof fn reading_paths_lead_to_their_places(path: Seq<char>)
    ensures
        match get_route(path) {
            Some(WebRoute::Index) => path == "/"@ || path == "/index.html"@,
            Some(WebRoute::Capabilities) => path == "/api/capabilities"@,
            Some(WebRoute::SystemPolicy) => path == "/api/admin/system-policy"@,
            Some(WebRoute::DistributedQuery) => path == "/api/admin/distributed-query"@,
            Some(WebRoute::Graph) => path == "/api/graph"@,
            Some(WebRoute::Examples) => path == "/api/examples"@,
            Some(WebRoute::Metrics) => path == "/api/metrics"@,
            Some(WebRoute::Prometheus) => path == "/metrics"@,
            Some(WebRoute::SlowQueries) => path == "/api/slow-queries"@,
            Some(WebRoute::Statistics) => path == "/api/statistics"@,
            Some(WebRoute::Storage) => path == "/api/storage"@,
            Some(WebRoute::MetadataLog) => path == "/api/metadata-log"@,
            Some(WebRoute::Cluster) => path == "/api/cluster"@,
            Some(WebRoute::RoutingTable) => path == "/api/cluster/routing-table"@,
            Some(WebRoute::Registry) => path == "/api/cluster/registry"@,
            Some(WebRoute::Gossip) => path == "/api/admin/gossip"@,
            Some(WebRoute::Users) => path == "/api/admin/users"@,
            Some(WebRoute::Databases) => path == "/api/admin/databases"@,
            Some(WebRoute::AuditLog) => path == "/api/admin/audit-log"@,
            Some(WebRoute::RaftStatus) => path == "/api/admin/raft-status"@,
            Some(WebRoute::SelectedDatabase) => path == "/api/database"@,
            Some(WebRoute::PitrPending) => path == "/api/admin/restore-pitr/pending"@,
            Some(_) => false,
            None => path != "/"@
                && path != "/index.html"@
                && path != "/api/capabilities"@
                && path != "/api/admin/system-policy"@
                && path != "/api/admin/distributed-query"@
                && path != "/api/graph"@
                && path != "/api/examples"@
                && path != "/api/metrics"@
                && path != "/metrics"@
                && path != "/api/slow-queries"@
                && path != "/api/statistics"@
                && path != "/api/storage"@
                && path != "/api/metadata-log"@
                && path != "/api/cluster"@
                && path != "/api/cluster/routing-table"@
                && path != "/api/cluster/registry"@
                && path != "/api/admin/gossip"@
                && path != "/api/admin/users"@
                && path != "/api/admin/databases"@
                && path != "/api/admin/audit-log"@
                && path != "/api/admin/raft-status"@
                && path != "/api/database"@
                && path != "/api/admin/restore-pitr/pending"@,
        },
{
}

/// A request that changes something is led to a place by its path, and only the paths of a place
/// lead there; all other paths lead nowhere.
pub proof fn changing_paths_lead_to_their_places(path: Seq<char>)
    ensures
        match post_route(path) {
            Some(WebRoute::PruneAuditLog) => path == "/api/admin/prune-audit-log"@,
            Some(WebRoute::Snapshot) => path == "/api/admin/snapshot-now"@ || path == "/api/admin/cluster/snapshot"@,
            Some(WebRoute::VerifyInvariants) => path == "/api/admin/verify-invariants"@,
            Some(WebRoute::RepairInvariants) => path == "/api/admin/repair-invariants"@,
            Some(WebRoute::MaintenanceMode) => path == "/api/admin/maintenance-mode"@,
            Some(WebRoute::CreateDatabase) => path == "/api/admin/databases"@,
            Some(WebRoute::DeleteDatabase) => path == "/api/admin/delete-database"@,
            Some(WebRoute::DisableDatabase) => path == "/api/admin/disable-database"@,
            Some(WebRoute::EnableDatabase) => path == "/api/admin/enable-database"@,
            Some(WebRoute::SelectedDatabase) => path == "/api/use-database"@,
            Some(WebRoute::AddUser) => path == "/api/admin/users"@ || path == "/api/admin/invoke-token"@,
            Some(WebRoute::RevokeToken) => path == "/api/admin/revoke-token"@,
            Some(WebRoute::GrantRole) => path == "/api/admin/grant-role"@,
            Some(WebRoute::RevokeRole) => path == "/api/admin/revoke-role"@,
            Some(WebRoute::DenyRole) => path == "/api/admin/deny-role"@,
            Some(WebRoute::AllowRole) => path == "/api/admin/allow-role"@,
            Some(WebRoute::CleanupTokens) => path == "/api/admin/cleanup-expired-tokens"@,
            Some(WebRoute::CleanupSessions) => path == "/api/admin/cleanup-expired-sessions"@,
            Some(WebRoute::DeleteUser) => path == "/api/admin/delete-user"@,
            Some(WebRoute::AdvanceRebalance) => path == "/api/cluster/advance-rebalance"@ || path == "/api/admin/cluster/migration/advance"@,
            Some(WebRoute::PlanRebalance) => path == "/api/cluster/plan-rebalance"@ || path == "/api/admin/cluster/migration/plan"@,
            Some(WebRoute::StartRebalance) => path == "/api/admin/cluster/migration/start"@,
            Some(WebRoute::CancelRebalance) => path == "/api/admin/cluster/migration/cancel"@,
            Some(WebRoute::RaftLeaderTransfer) => path == "/api/admin/raft-leader-transfer"@,
            Some(WebRoute::Backup) => path == "/api/backup"@,
            Some(WebRoute::Restore) => path == "/api/restore"@,
            Some(WebRoute::PitrPlan) => path == "/api/admin/restore-pitr"@,
            Some(WebRoute::PitrApply) => path == "/api/admin/restore-pitr/apply"@,
            Some(WebRoute::PitrComplete) => path == "/api/admin/restore-pitr/complete"@,
            Some(WebRoute::Query) => path == "/api/query"@,
            Some(WebRoute::QueryPlan) => path == "/api/query-plan"@,
            Some(WebRoute::Profile) => path == "/api/profile"@,
            Some(_) => false,
            None => path != "/api/admin/prune-audit-log"@
                && path != "/api/admin/snapshot-now"@
                && path != "/api/admin/cluster/snapshot"@
                && path != "/api/admin/verify-invariants"@
                && path != "/api/admin/repair-invariants"@
                && path != "/api/admin/maintenance-mode"@
                && path != "/api/admin/databases"@
                && path != "/api/admin/delete-database"@
                && path != "/api/admin/disable-database"@
                && path != "/api/admin/enable-database"@
                && path != "/api/use-database"@
                && path != "/api/admin/users"@
                && path != "/api/admin/invoke-token"@
                && path != "/api/admin/revoke-token"@
                && path != "/api/admin/grant-role"@
                && path != "/api/admin/revoke-role"@
                && path != "/api/admin/deny-role"@
                && path != "/api/admin/allow-role"@
                && path != "/api/admin/cleanup-expired-tokens"@
                && path != "/api/admin/cleanup-expired-sessions"@
                && path != "/api/admin/delete-user"@
                && path != "/api/cluster/advance-rebalance"@
                && path != "/api/admin/cluster/migration/advance"@
                && path != "/api/cluster/plan-rebalance"@
                && path != "/api/admin/cluster/migration/plan"@
                && path != "/api/admin/cluster/migration/start"@
                && path != "/api/admin/cluster/migration/cancel"@
                && path != "/api/admin/raft-leader-transfer"@
                && path != "/api/backup"@
                && path != "/api/restore"@
                && path != "/api/admin/restore-pitr"@
                && path != "/api/admin/restore-pitr/apply"@
                && path != "/api/admin/restore-pitr/complete"@
                && path != "/api/query"@
                && path != "/api/query-plan"@
                && path != "/api/profile"@,
        },
{
}

/// A request that reads takes the action of its path; other paths take none.
pub proof fn reading_paths_take_their_action(path: Seq<char>)
    ensures
        match get_action(path) {
            Some(WebAction::GraphRead) => path == "/api/graph"@,
            Some(WebAction::MetricsRead) => path == "/api/metrics"@ || path == "/metrics"@ || path == "/api/slow-queries"@,
            Some(WebAction::SystemRead) => path == "/"@ || path == "/index.html"@ || path == "/api/capabilities"@ || path == "/api/admin/system-policy"@ || path == "/api/admin/distributed-query"@ || path == "/api/statistics"@ || path == "/api/storage"@ || path == "/api/metadata-log"@ || path == "/api/cluster"@ || path == "/api/cluster/routing-table"@ || path == "/api/cluster/registry"@ || path == "/api/database"@ || path == "/api/examples"@,
            Some(WebAction::TokenAdmin) => path == "/api/admin/users"@,
            Some(WebAction::TenantAdmin) => path == "/api/admin/databases"@,
            Some(WebAction::AuditAdmin) => path == "/api/admin/audit"@ || path == "/api/admin/audit/export"@,
            Some(WebAction::RestoreAdmin) => path == "/api/admin/restore-pitr/pending"@,
            Some(WebAction::RepairAdmin) => path == "/api/admin/repair"@,
            Some(_) => false,
            None => path != "/api/graph"@
                && path != "/api/metrics"@
                && path != "/metrics"@
                && path != "/api/slow-queries"@
                && path != "/"@
                && path != "/index.html"@
                && path != "/api/capabilities"@
                && path != "/api/admin/system-policy"@
                && path != "/api/admin/distributed-query"@
                && path != "/api/statistics"@
                && path != "/api/storage"@
                && path != "/api/metadata-log"@
                && path != "/api/cluster"@
                && path != "/api/cluster/routing-table"@
                && path != "/api/cluster/registry"@
                && path != "/api/database"@
                && path != "/api/examples"@
                && path != "/api/admin/users"@
                && path != "/api/admin/databases"@
                && path != "/api/admin/audit"@
                && path != "/api/admin/audit/export"@
                && path != "/api/admin/restore-pitr/pending"@
                && path != "/api/admin/repair"@,
        },
{
}

/// A request that changes something takes the action of its path; other paths take none.
pub proof fn changing_paths_take_their_action(path: Seq<char>)
    ensures
        match post_action(path) {
            Some(WebAction::GraphRead) => path == "/api/query-plan"@ || path == "/api/profile"@,
            Some(WebAction::GraphWrite) => path == "/api/query"@,
            Some(WebAction::SystemRead) => path == "/api/use-database"@,
            Some(WebAction::TokenAdmin) => path == "/api/admin/users"@ || path == "/api/admin/users/delete"@ || path == "/api/admin/users/tokens"@ || path == "/api/admin/users/tokens/revoke"@ || path == "/api/admin/grant-role"@ || path == "/api/admin/revoke-role"@ || path == "/api/admin/deny-role"@ || path == "/api/admin/allow-role"@ || path == "/api/admin/tokens/cleanup"@,
            Some(WebAction::TenantAdmin) => path == "/api/admin/databases"@ || path == "/api/admin/databases/drop"@ || path == "/api/admin/databases/roles"@,
            Some(WebAction::AuditAdmin) => path == "/api/admin/audit/prune"@,
            Some(WebAction::BackupAdmin) => path == "/api/backup"@,
            Some(WebAction::RestoreAdmin) => path == "/api/restore"@ || path == "/api/admin/restore-pitr"@ || path == "/api/admin/restore-pitr/apply"@ || path == "/api/admin/restore-pitr/complete"@,
            Some(WebAction::RaftAdmin) => path == "/api/admin/raft/step-down"@ || path == "/api/admin/raft/snapshot"@ || path == "/api/admin/raft/transfer-leader"@,
            Some(WebAction::RepairAdmin) => path == "/api/admin/repair"@,
            Some(WebAction::ClusterAdmin) => path == "/api/admin/cluster/migrate"@ || path == "/api/admin/cluster/rebalance"@ || path == "/api/admin/cluster/plan-node-add"@ || path == "/api/admin/cluster/plan-node-remove"@,
            Some(_) => false,
            None => path != "/api/query-plan"@
                && path != "/api/profile"@
                && path != "/api/query"@
                && path != "/api/use-database"@
                && path != "/api/admin/users"@
                && path != "/api/admin/users/delete"@
                && path != "/api/admin/users/tokens"@
                && path != "/api/admin/users/tokens/revoke"@
                && path != "/api/admin/grant-role"@
                && path != "/api/admin/revoke-role"@
                && path != "/api/admin/deny-role"@
                && path != "/api/admin/allow-role"@
                && path != "/api/admin/tokens/cleanup"@
                && path != "/api/admin/databases"@
                && path != "/api/admin/databases/drop"@
                && path != "/api/admin/databases/roles"@
                && path != "/api/admin/audit/prune"@
                && path != "/api/backup"@
                && path != "/api/restore"@
                && path != "/api/admin/restore-pitr"@
                && path != "/api/admin/restore-pitr/apply"@
                && path != "/api/admin/restore-pitr/complete"@
                && path != "/api/admin/raft/step-down"@
                && path != "/api/admin/raft/snapshot"@
                && path != "/api/admin/raft/transfer-leader"@
                && path != "/api/admin/repair"@
                && path != "/api/admin/cluster/migrate"@
                && path != "/api/admin/cluster/rebalance"@
                && path != "/api/admin/cluster/plan-node-add"@
                && path != "/api/admin/cluster/plan-node-remove"@,
        },
{
}

/// Only the two methods of the interface lead anywhere.
pub proof fn other_methods_lead_nowhere(method: Seq<char>, path: Seq<char>)
    ensures
        method == "GET"@ ==> route_of(method, path) == get_route(path) && action_of(method, path)
            == get_action(path),
        method == "POST"@ ==> route_of(method, path) == post_route(path) && action_of(method, path)
            == post_action(path),
        method != "GET"@ && method != "POST"@ ==> route_of(method, path) is None && action_of(
            method,
            path,
        ) is None,
{
    reveal_strlit("GET");
    reveal_strlit("POST");
    assert("GET"@.len() == 3 && "POST"@.len() == 4);
}

} // verus!
